//! The members of an object, or the items of an array, as JSON text lists them.
//!
//! A JSON value keeps one member of each name. Records are stricter: a text
//! that gives a field of theirs twice holds no record. What a text gives twice
//! is found here, by where its members stand; what it holds is left to the
//! reader of JSON.

use crate::json;
use crate::json::JsonValue;
use crate::text;
use crate::text::{characters, same};
use vstd::prelude::*;

verus! {

/// Where in the text of an object or an array a character stands.
#[derive(Debug, Clone, Copy, PartialEq, Eq, Structural)]
pub enum Place {
    /// Before the object or the array.
    Front,
    /// Before a name.
    Gap,
    /// In a name.
    Name,
    /// Between a name and its value.
    Colon,
    /// In a value.
    Value,
    /// Behind it, or in a text that holds neither.
    Back,
}

/// Where a member stands in a text: its name, with quotes, and its value. The
/// name of an item is empty.
#[derive(Debug, Clone, Copy, PartialEq, Eq, Structural)]
pub struct Spot {
    pub name_from: usize,
    pub name_to: usize,
    pub value_from: usize,
    pub value_to: usize,
}

/// How far a text has been read.
#[derive(Debug, Clone, Copy, PartialEq, Eq, Structural)]
pub struct Cursor {
    pub place: Place,
    /// Whether it is an array that is being read.
    pub array: bool,
    /// The member that is being read.
    pub spot: Spot,
    /// How many arrays and objects of its value are open.
    pub depth: usize,
    /// Whether a string of its value is open.
    pub quoted: bool,
    /// Whether the character before was a backslash that escapes this one.
    pub escaped: bool,
}

/// The beginning of a text.
pub open spec fn front() -> Cursor {
    Cursor {
        place: Place::Front,
        array: false,
        spot: Spot { name_from: 0, name_to: 0, value_from: 0, value_to: 0 },
        depth: 0,
        quoted: false,
        escaped: false,
    }
}

/// Where an item of an array begins.
pub open spec fn item_at(i: int) -> Cursor {
    Cursor {
        place: Place::Value,
        array: true,
        spot: Spot {
            name_from: i as usize,
            name_to: i as usize,
            value_from: i as usize,
            value_to: i as usize,
        },
        depth: 0,
        quoted: false,
        escaped: false,
    }
}

/// How far a text has been read after the character at `i`, and the member
/// that this ends, if it ends one.
pub open spec fn after_char(k: Cursor, i: int, c: char) -> (Cursor, Option<Spot>) {
    match k.place {
        Place::Front => if c == '{' {
            (Cursor { place: Place::Gap, ..k }, None)
        } else if c == '[' {
            (item_at(i + 1), None)
        } else if c == ' ' || c == '\t' || c == '\n' || c == '\r' {
            (k, None)
        } else {
            (Cursor { place: Place::Back, ..k }, None)
        },
        Place::Gap => if c == '"' {
            (
                Cursor {
                    place: Place::Name,
                    spot: Spot { name_from: i as usize, ..k.spot },
                    escaped: false,
                    ..k
                },
                None,
            )
        } else if c == '}' {
            (Cursor { place: Place::Back, ..k }, None)
        } else {
            (k, None)
        },
        Place::Name => if k.escaped {
            (Cursor { escaped: false, ..k }, None)
        } else if c == '\\' {
            (Cursor { escaped: true, ..k }, None)
        } else if c == '"' {
            (
                Cursor {
                    place: Place::Colon,
                    spot: Spot { name_to: (i + 1) as usize, ..k.spot },
                    ..k
                },
                None,
            )
        } else {
            (k, None)
        },
        Place::Colon => if c == ':' {
            (
                Cursor {
                    place: Place::Value,
                    spot: Spot { value_from: (i + 1) as usize, ..k.spot },
                    depth: 0,
                    quoted: false,
                    escaped: false,
                    ..k
                },
                None,
            )
        } else {
            (k, None)
        },
        Place::Value => if k.quoted {
            if k.escaped {
                (Cursor { escaped: false, ..k }, None)
            } else if c == '\\' {
                (Cursor { escaped: true, ..k }, None)
            } else {
                (Cursor { quoted: c != '"', ..k }, None)
            }
        } else if c == '"' {
            (Cursor { quoted: true, ..k }, None)
        } else if c == '{' || c == '[' {
            (Cursor { depth: (k.depth + 1) as usize, ..k }, None)
        } else if k.depth > 0 && (c == '}' || c == ']') {
            (Cursor { depth: (k.depth - 1) as usize, ..k }, None)
        } else if k.depth == 0 && (c == ',' || c == '}' || c == ']') {
            (
                if c != ',' {
                    Cursor { place: Place::Back, ..k }
                } else if k.array {
                    item_at(i + 1)
                } else {
                    Cursor { place: Place::Gap, ..k }
                },
                Some(Spot { value_to: i as usize, ..k.spot }),
            )
        } else {
            (k, None)
        },
        Place::Back => (k, None),
    }
}

/// How far a text has been read once it has been read, and the members that
/// were found.
pub open spec fn scanned(s: Seq<char>) -> (Cursor, Seq<Spot>)
    decreases s.len(),
{
    if s.len() == 0 {
        (front(), Seq::empty())
    } else {
        let before = scanned(s.drop_last());
        let (k, ends) = after_char(before.0, s.len() - 1, s.last());
        (
            k,
            match ends {
                Some(spot) => before.1.push(spot),
                None => before.1,
            },
        )
    }
}

/// A member as a text lists it: its name, where it has one, and the text of its
/// value.
pub struct Listed {
    pub name: Option<Seq<char>>,
    pub value: Seq<char>,
}

/// The member that stands at a spot of a text.
pub open spec fn listed(s: Seq<char>, spot: Spot) -> Listed {
    Listed {
        name: if spot.name_from == spot.name_to {
            None
        } else {
            match json::json_of_text(s.subrange(spot.name_from as int, spot.name_to as int)) {
                Some(j) => json::json_str(j),
                None => None,
            }
        },
        value: s.subrange(spot.value_from as int, spot.value_to as int),
    }
}

/// The members of the object in a text, in order, repeated ones included, or
/// the items of the array, without names; none where the text holds neither.
/// An empty array has one empty item.
pub open spec fn listing(s: Seq<char>) -> Seq<Listed> {
    scanned(s).1.map_values(|spot: Spot| listed(s, spot))
}

/// Whether a list gives a member with this name more than once.
pub open spec fn repeats(list: Seq<Listed>, name: Seq<char>) -> bool {
    exists|i: int, j: int|
        0 <= i < j < list.len() && (#[trigger] list[i]).name == Some(name) && (
        #[trigger] list[j]).name == Some(name)
}

/// The text of the value of the first member with a name; empty where there is none.
pub open spec fn value_text(list: Seq<Listed>, name: Seq<char>) -> Seq<char>
    decreases list.len(),
{
    if list.len() == 0 {
        Seq::empty()
    } else if list.first().name == Some(name) {
        list.first().value
    } else {
        value_text(list.drop_first(), name)
    }
}

/// The text of the field of a record: of the member with its name, or of the
/// item at its place.
pub open spec fn field_text(list: Seq<Listed>, i: int, name: Seq<char>) -> Seq<char> {
    if list.len() > 0 && list[0].name is None {
        if 0 <= i < list.len() {
            list[i].value
        } else {
            Seq::empty()
        }
    } else {
        value_text(list, name)
    }
}

/// An empty text lists nothing.
pub proof fn nothing_is_listed()
    ensures
        listing(Seq::<char>::empty()) == Seq::<Listed>::empty(),
{
    assert(listing(Seq::<char>::empty()) =~= Seq::<Listed>::empty());
}

/// The first member with a name is the one that gives its value.
pub proof fn value_of_first(list: Seq<Listed>, name: Seq<char>, k: int)
    requires
        0 <= k < list.len(),
        list[k].name == Some(name),
        forall|j: int| 0 <= j < k ==> (#[trigger] list[j]).name != Some(name),
    ensures
        value_text(list, name) == list[k].value,
    decreases k,
{
    if k > 0 {
        assert(list[0].name != Some(name));
        let rest = list.drop_first();
        assert forall|j: int| 0 <= j < k - 1 implies (#[trigger] rest[j]).name != Some(name) by {
            assert(rest[j] == list[j + 1]);
        }
        value_of_first(rest, name, k - 1);
    }
}

/// Where no member has a name, it has no value.
pub proof fn value_of_none(list: Seq<Listed>, name: Seq<char>)
    requires
        forall|j: int| 0 <= j < list.len() ==> (#[trigger] list[j]).name != Some(name),
    ensures
        value_text(list, name) == Seq::<char>::empty(),
    decreases list.len(),
{
    if list.len() > 0 {
        assert(list[0].name != Some(name));
        let rest = list.drop_first();
        assert forall|j: int| 0 <= j < rest.len() implies (#[trigger] rest[j]).name != Some(
            name,
        ) by {
            assert(rest[j] == list[j + 1]);
        }
        value_of_none(rest, name);
    }
}

/// The members that a text lists.
pub struct Members {
    list: Vec<(Option<String>, String)>,
}

/// What names and values that a text lists say.
pub open spec fn listed_pairs(list: Seq<(Option<String>, String)>) -> Seq<Listed> {
    list.map_values(
        |p: (Option<String>, String)| Listed { name: text::optional(p.0), value: p.1@ },
    )
}

impl View for Members {
    type V = Seq<Listed>;

    closed spec fn view(&self) -> Seq<Listed> {
        listed_pairs(self.list@)
    }
}

/// Whether a cursor stands in a text that has been read up to `i`.
spec fn stands(k: Cursor, i: int) -> bool {
    &&& k.depth <= i
    &&& k.place is Name ==> k.spot.name_from <= i
    &&& k.place is Colon ==> k.spot.name_from <= k.spot.name_to <= i
    &&& k.place is Value ==> k.spot.name_from <= k.spot.name_to <= k.spot.value_from <= i
}

fn start_item(i: usize) -> (r: Cursor)
    ensures
        r == item_at(i as int),
{
    Cursor {
        place: Place::Value,
        array: true,
        spot: Spot { name_from: i, name_to: i, value_from: i, value_to: i },
        depth: 0,
        quoted: false,
        escaped: false,
    }
}

fn step(k: Cursor, i: usize, c: char) -> (r: (Cursor, Option<Spot>))
    requires
        stands(k, i as int),
        i < usize::MAX,
    ensures
        r == after_char(k, i as int, c),
        stands(r.0, i + 1),
        r.1 matches Some(spot) ==> spot.name_from <= spot.name_to <= spot.value_from
            <= spot.value_to <= i,
{
    let mut n = k;
    match k.place {
        Place::Front => {
            if c == '{' {
                n.place = Place::Gap;
            } else if c == '[' {
                n = start_item(i + 1);
            } else if c == ' ' || c == '\t' || c == '\n' || c == '\r' {
            } else {
                n.place = Place::Back;
            }
        },
        Place::Gap => {
            if c == '"' {
                n.place = Place::Name;
                n.spot.name_from = i;
                n.escaped = false;
            } else if c == '}' {
                n.place = Place::Back;
            }
        },
        Place::Name => {
            if k.escaped {
                n.escaped = false;
            } else if c == '\\' {
                n.escaped = true;
            } else if c == '"' {
                n.place = Place::Colon;
                n.spot.name_to = i + 1;
            }
        },
        Place::Colon => {
            if c == ':' {
                n.place = Place::Value;
                n.spot.value_from = i + 1;
                n.depth = 0;
                n.quoted = false;
                n.escaped = false;
            }
        },
        Place::Value => {
            if k.quoted {
                if k.escaped {
                    n.escaped = false;
                } else if c == '\\' {
                    n.escaped = true;
                } else {
                    n.quoted = c != '"';
                }
            } else if c == '"' {
                n.quoted = true;
            } else if c == '{' || c == '[' {
                n.depth = k.depth + 1;
            } else if k.depth > 0 && (c == '}' || c == ']') {
                n.depth = k.depth - 1;
            } else if k.depth == 0 && (c == ',' || c == '}' || c == ']') {
                let mut spot = k.spot;
                spot.value_to = i;
                if c != ',' {
                    n.place = Place::Back;
                } else if k.array {
                    n = start_item(i + 1);
                } else {
                    n.place = Place::Gap;
                }
                return (n, Some(spot));
            }
        },
        Place::Back => {},
    }
    (n, None)
}

impl Members {
    /// Reads the members that a text lists.
    pub fn read(s: &str) -> (r: Members)
        ensures
            r@ == listing(s@),
    {
        let chars = characters(s);
        let mut spots: Vec<Spot> = Vec::new();
        let mut k = Cursor {
            place: Place::Front,
            array: false,
            spot: Spot { name_from: 0, name_to: 0, value_from: 0, value_to: 0 },
            depth: 0,
            quoted: false,
            escaped: false,
        };
        assert(s@.take(0) =~= Seq::<char>::empty());
        for i in 0..chars.len()
            invariant
                chars@ == s@,
                (k, spots@) == scanned(s@.take(i as int)),
                stands(k, i as int),
                forall|n: int|
                    0 <= n < spots@.len() ==> (#[trigger] spots@[n]).name_from <= spots@[n].name_to
                        <= spots@[n].value_from <= spots@[n].value_to <= chars@.len(),
        {
            proof {
                assert(s@.take(i + 1).drop_last() =~= s@.take(i as int));
                assert(s@.take(i + 1).last() == s@[i as int]);
            }
            let (next, ends) = step(k, i, chars[i]);
            k = next;
            match ends {
                Some(spot) => {
                    spots.push(spot);
                },
                None => {},
            }
        }
        assert(s@.take(chars@.len() as int) =~= s@);
        let mut list: Vec<(Option<String>, String)> = Vec::new();
        for i in 0..spots.len()
            invariant
                chars@ == s@,
                forall|n: int|
                    0 <= n < spots@.len() ==> (#[trigger] spots@[n]).name_from <= spots@[n].name_to
                        <= spots@[n].value_from <= spots@[n].value_to <= chars@.len(),
                list@.len() == i,
                forall|n: int|
                    0 <= n < i ==> listed_pairs(list@)[n] == listed(s@, #[trigger] spots@[n]),
        {
            let spot = spots[i];
            let name = if spot.name_from == spot.name_to {
                None
            } else {
                match JsonValue::parse(s.substring_char(spot.name_from, spot.name_to)) {
                    Some(v) => match v.as_str() {
                        Some(t) => Some(t.to_owned()),
                        None => None,
                    },
                    None => None,
                }
            };
            let value = s.substring_char(spot.value_from, spot.value_to).to_owned();
            let ghost shorter = list@;
            list.push((name, value));
            proof {
                assert forall|n: int| 0 <= n < i + 1 implies listed_pairs(list@)[n] == listed(
                    s@,
                    #[trigger] spots@[n],
                ) by {
                    if n < i {
                        assert(listed_pairs(shorter)[n] == listed(s@, spots@[n]));
                        assert(listed_pairs(list@)[n] == listed_pairs(shorter)[n]);
                    }
                }
            }
        }
        assert(listed_pairs(list@) =~= listing(s@));
        Members::of(list)
    }

    /// Members that are listed with these names and values.
    pub fn of(list: Vec<(Option<String>, String)>) -> (r: Members)
        ensures
            r@ == listed_pairs(list@),
    {
        Members { list }
    }

    /// How many members there are.
    pub fn count(&self) -> (r: usize)
        ensures
            r == self@.len(),
    {
        self.list.len()
    }

    fn has_name(&self, i: usize, name: &str) -> (r: bool)
        requires
            i < self@.len(),
        ensures
            r == (self@[i as int].name == Some(name@)),
    {
        match &self.list[i].0 {
            Some(n) => same(n.as_str(), name),
            None => false,
        }
    }

    /// Decides whether a member with this name is given more than once.
    pub fn repeats(&self, name: &str) -> (r: bool)
        ensures
            r == repeats(self@, name@),
    {
        let mut seen: Option<usize> = None;
        for i in 0..self.list.len()
            invariant
                self@.len() == self.list@.len(),
                seen matches Some(k) ==> k < i && self@[k as int].name == Some(name@),
                forall|k: int|
                    0 <= k < i && (#[trigger] self@[k]).name == Some(name@) ==> seen == Some(
                        k as usize,
                    ),
        {
            if self.has_name(i, name) {
                if seen.is_some() {
                    return true;
                }
                seen = Some(i);
            }
        }
        proof {
            if repeats(self@, name@) {
                let (i, j) = choose|i: int, j: int|
                    0 <= i < j < self@.len() && (#[trigger] self@[i]).name == Some(name@) && (
                    #[trigger] self@[j]).name == Some(name@);
                assert(seen == Some(i as usize) && seen == Some(j as usize));
            }
        }
        false
    }

    /// The text of the value of the first member with a name.
    fn value(&self, name: &str) -> (r: String)
        ensures
            r@ == value_text(self@, name@),
    {
        let ghost all = self@;
        assert(all.skip(0) =~= all);
        for i in 0..self.list.len()
            invariant
                all == self@,
                all.len() == self.list@.len(),
                value_text(all, name@) == value_text(all.skip(i as int), name@),
        {
            proof {
                assert(all.skip(i as int).drop_first() =~= all.skip(i + 1));
                assert(all.skip(i as int).first() == all[i as int]);
            }
            if self.has_name(i, name) {
                return self.list[i].1.clone();
            }
        }
        assert(all.skip(all.len() as int) =~= Seq::<Listed>::empty());
        String::new()
    }

    /// The text of the value of the member, or of the item, at a place.
    pub fn item(&self, i: usize) -> (r: String)
        requires
            i < self@.len(),
        ensures
            r@ == self@[i as int].value,
    {
        self.list[i].1.clone()
    }

    /// The text of the field of a record.
    pub fn field(&self, i: usize, name: &str) -> (r: String)
        ensures
            r@ == field_text(self@, i as int, name@),
    {
        if self.list.len() > 0 && self.list[0].0.is_none() {
            assert(self@[0].name is None);
            if i < self.list.len() {
                self.list[i].1.clone()
            } else {
                String::new()
            }
        } else {
            self.value(name)
        }
    }
}

/// A list of members repeats a name if and only if two of them have it.
pub proof fn names_are_repeated(list: Seq<Listed>, name: Seq<char>, m: &Members, s: &str, r: bool)
    requires
        call_ensures(Members::repeats, (m, s), r),
    ensures
        repeats(list, name) <==> exists|i: int, j: int|
            0 <= i < j < list.len() && (#[trigger] list[i]).name == Some(name) && (
            #[trigger] list[j]).name == Some(name),
        r <==> exists|i: int, j: int|
            0 <= i < j < m@.len() && (#[trigger] m@[i]).name == Some(s@) && (
            #[trigger] m@[j]).name == Some(s@),
{
}

/// The text of a field is that of the first member with its name, or of the
/// item at its place where the members have no names; it is empty where there
/// is none.
pub proof fn fields_have_texts(list: Seq<Listed>, i: int, name: Seq<char>, k: int)
    ensures
        list.len() > 0 && list[0].name is None && 0 <= i < list.len() ==> field_text(list, i, name)
            == list[i].value,
        list.len() > 0 && list[0].name is None && !(0 <= i < list.len()) ==> field_text(
            list,
            i,
            name,
        ).len() == 0,
        list.len() > 0 && list[0].name is Some && 0 <= k < list.len() && list[k].name == Some(name)
            && (forall|j: int| 0 <= j < k ==> (#[trigger] list[j]).name != Some(name))
            ==> field_text(list, i, name) == list[k].value,
        (list.len() == 0 || list[0].name is Some) && (forall|j: int|
            0 <= j < list.len() ==> (#[trigger] list[j]).name != Some(name)) ==> field_text(
            list,
            i,
            name,
        ).len() == 0,
{
    if 0 <= k < list.len() && list[k].name == Some(name) && (forall|j: int|
        0 <= j < k ==> (#[trigger] list[j]).name != Some(name)) {
        value_of_first(list, name, k);
    }
    if forall|j: int| 0 <= j < list.len() ==> (#[trigger] list[j]).name != Some(name) {
        value_of_none(list, name);
    }
}

/// Whether a text can stand between the quotes of a string: a backslash has a
/// character behind it, and a quote a backslash before it.
pub open spec fn is_inner(t: Seq<char>) -> bool
    decreases t.len(),
{
    if t.len() == 0 {
        true
    } else if t[0] == '\\' {
        t.len() >= 2 && is_inner(t.skip(2))
    } else {
        t[0] != '"' && is_inner(t.skip(1))
    }
}

/// Whether a text holds neither quotes nor brackets.
pub open spec fn is_flat(t: Seq<char>) -> bool {
    forall|i: int|
        0 <= i < t.len() ==> #[trigger] t[i] != '"' && t[i] != '{' && t[i] != '}' && t[i] != '['
            && t[i] != ']'
}

/// Whether a text is a simple value: without quotes, brackets or commas, a
/// string, or an array or an object of values that are neither of these.
pub open spec fn is_value_text(v: Seq<char>) -> bool {
    ||| is_flat(v) && !v.contains(',')
    ||| exists|t: Seq<char>| is_inner(t) && v == #[trigger] quoted(t)
    ||| exists|t: Seq<char>| is_flat(t) && v == #[trigger] (seq!['['] + t + seq![']'])
    ||| exists|t: Seq<char>| is_flat(t) && v == #[trigger] (seq!['{'] + t + seq!['}'])
}

/// A text in quotes.
pub open spec fn quoted(t: Seq<char>) -> Seq<char> {
    seq!['"'] + t + seq!['"']
}

/// A name and its value in the text of an object.
pub open spec fn member_text(name: Seq<char>, value: Seq<char>) -> Seq<char> {
    quoted(name).push(':') + value
}

/// The text of an object up to the last of its values.
pub open spec fn members_text(list: Seq<(Seq<char>, Seq<char>)>) -> Seq<char>
    decreases list.len(),
{
    if list.len() == 0 {
        seq!['{']
    } else if list.len() == 1 {
        seq!['{'] + member_text(list[0].0, list[0].1)
    } else {
        members_text(list.drop_last()).push(',') + member_text(list.last().0, list.last().1)
    }
}

/// Whether names and values can stand in the text of an object.
pub open spec fn are_members(list: Seq<(Seq<char>, Seq<char>)>) -> bool {
    forall|i: int|
        0 <= i < list.len() ==> is_inner((#[trigger] list[i]).0) && is_value_text(list[i].1)
}

proof fn one_more(s: Seq<char>, c: char)
    ensures
        ({
            let (k, ends) = after_char(scanned(s).0, s.len() as int, c);
            scanned(s.push(c)) == (
                k,
                match ends {
                    Some(spot) => scanned(s).1.push(spot),
                    None => scanned(s).1,
                },
            )
        }),
{
    assert(s.push(c).drop_last() =~= s);
}

proof fn inner_is_passed(s: Seq<char>, t: Seq<char>)
    requires
        is_inner(t),
        !scanned(s).0.escaped,
        scanned(s).0.place is Name || (scanned(s).0.place is Value && scanned(s).0.quoted),
    ensures
        scanned(s + t) == scanned(s),
    decreases t.len(),
{
    if t.len() == 0 {
        assert(s + t =~= s);
    } else {
        one_more(s, t[0]);
        if t[0] == '\\' {
            one_more(s.push(t[0]), t[1]);
            let u = s.push(t[0]).push(t[1]);
            assert(scanned(u).0 == scanned(s).0);
            inner_is_passed(u, t.skip(2));
            assert(u + t.skip(2) =~= s + t);
        } else {
            let u = s.push(t[0]);
            assert(scanned(u).0 == scanned(s).0);
            inner_is_passed(u, t.skip(1));
            assert(u + t.skip(1) =~= s + t);
        }
    }
}

proof fn flat_is_passed(s: Seq<char>, t: Seq<char>)
    requires
        is_flat(t),
        scanned(s).0.place is Value,
        !scanned(s).0.quoted,
        scanned(s).0.depth > 0 || !t.contains(','),
    ensures
        scanned(s + t) == scanned(s),
    decreases t.len(),
{
    if t.len() == 0 {
        assert(s + t =~= s);
    } else {
        let u = t.drop_last();
        assert forall|i: int| 0 <= i < u.len() implies #[trigger] u[i] != '"' && u[i] != '{' && u[i]
            != '}' && u[i] != '[' && u[i] != ']' by {
            assert(u[i] == t[i]);
        }
        if u.contains(',') {
            let i = choose|i: int| 0 <= i < u.len() && u[i] == ',';
            assert(t[i] == ',');
        }
        flat_is_passed(s, u);
        one_more(s + u, t.last());
        assert((s + u).push(t.last()) =~= s + t);
        assert(t.last() == t[t.len() - 1]);
        assert(t.contains(t.last()));
    }
}

proof fn group_is_passed(s: Seq<char>, t: Seq<char>, a: char, b: char)
    requires
        is_flat(t),
        a == '[' && b == ']' || a == '{' && b == '}',
        scanned(s).0.place is Value,
        !scanned(s).0.quoted,
        scanned(s).0.depth == 0,
    ensures
        scanned(s + (seq![a] + t + seq![b])) == scanned(s),
{
    one_more(s, a);
    let u = s.push(a);
    flat_is_passed(u, t);
    one_more(u + t, b);
    assert((u + t).push(b) =~= s + (seq![a] + t + seq![b]));
}

/// A simple value is passed over as a whole: nothing in it begins or ends a
/// member.
pub proof fn values_are_passed_over(s: Seq<char>, v: Seq<char>)
    requires
        is_value_text(v),
        scanned(s).0.place is Value,
        !scanned(s).0.quoted,
        !scanned(s).0.escaped,
        scanned(s).0.depth == 0,
    ensures
        scanned(s + v) == scanned(s),
{
    if is_flat(v) && !v.contains(',') {
        flat_is_passed(s, v);
    } else if exists|t: Seq<char>| is_inner(t) && v == #[trigger] quoted(t) {
        let t = choose|t: Seq<char>| is_inner(t) && v == #[trigger] quoted(t);
        one_more(s, '"');
        inner_is_passed(s.push('"'), t);
        one_more(s.push('"') + t, '"');
        assert((s.push('"') + t).push('"') =~= s + v);
    } else if exists|t: Seq<char>| is_flat(t) && v == #[trigger] (seq!['['] + t + seq![']']) {
        let t = choose|t: Seq<char>| is_flat(t) && v == #[trigger] (seq!['['] + t + seq![']']);
        group_is_passed(s, t, '[', ']');
    } else {
        let t = choose|t: Seq<char>| is_flat(t) && v == #[trigger] (seq!['{'] + t + seq!['}']);
        group_is_passed(s, t, '{', '}');
    }
}

proof fn member_is_read(s: Seq<char>, name: Seq<char>, value: Seq<char>)
    requires
        scanned(s).0.place is Gap,
        is_inner(name),
        is_value_text(value),
        s.len() + member_text(name, value).len() <= usize::MAX,
    ensures
        ({
            let t = s + member_text(name, value);
            let k = scanned(t).0;
            &&& scanned(t).1 == scanned(s).1
            &&& k.place is Value && !k.quoted && !k.escaped && k.depth == 0
            &&& k.array == scanned(s).0.array
            &&& k.spot.name_from == s.len()
            &&& k.spot.name_to == s.len() + name.len() + 2
            &&& k.spot.value_from == s.len() + name.len() + 3
            &&& t.subrange(k.spot.name_from as int, k.spot.name_to as int) == quoted(name)
            &&& t.subrange(k.spot.value_from as int, t.len() as int) == value
        }),
{
    let a = s.push('"');
    one_more(s, '"');
    inner_is_passed(a, name);
    let b = a + name;
    one_more(b, '"');
    let c = b.push('"');
    one_more(c, ':');
    let d = c.push(':');
    values_are_passed_over(d, value);
    let t = s + member_text(name, value);
    assert(d + value =~= t);
    let k = scanned(t).0;
    assert(t.subrange(k.spot.name_from as int, k.spot.name_to as int) =~= quoted(name));
    assert(t.subrange(k.spot.value_from as int, t.len() as int) =~= value);
}

/// Whether a spot of a text is that of a member.
spec fn is_spot(t: Seq<char>, spot: Spot, m: (Seq<char>, Seq<char>)) -> bool {
    &&& spot.name_from < spot.name_to <= spot.value_from <= spot.value_to <= t.len()
    &&& t.subrange(spot.name_from as int, spot.name_to as int) == quoted(m.0)
    &&& t.subrange(spot.value_from as int, spot.value_to as int) == m.1
}

proof fn spots_stay(t: Seq<char>, u: Seq<char>, spot: Spot, m: (Seq<char>, Seq<char>))
    requires
        is_spot(t, spot, m),
    ensures
        is_spot(t + u, spot, m),
{
    assert((t + u).subrange(spot.name_from as int, spot.name_to as int) =~= t.subrange(
        spot.name_from as int,
        spot.name_to as int,
    ));
    assert((t + u).subrange(spot.value_from as int, spot.value_to as int) =~= t.subrange(
        spot.value_from as int,
        spot.value_to as int,
    ));
}

/// Whether a member is the last of a text that goes on.
spec fn is_open(t: Seq<char>, m: (Seq<char>, Seq<char>)) -> bool {
    let k = scanned(t).0;
    &&& k.place is Value && !k.quoted && !k.escaped && k.depth == 0 && !k.array
    &&& k.spot.name_from < k.spot.name_to <= k.spot.value_from <= t.len()
    &&& t.subrange(k.spot.name_from as int, k.spot.name_to as int) == quoted(m.0)
    &&& t.subrange(k.spot.value_from as int, t.len() as int) == m.1
}

proof fn ended_member(t: Seq<char>, m: (Seq<char>, Seq<char>), c: char)
    requires
        c == ',' || c == '}',
        t.len() < usize::MAX,
        is_open(t, m),
    ensures
        scanned(t.push(c)).1.len() == scanned(t).1.len() + 1,
        scanned(t.push(c)).1.drop_last() == scanned(t).1,
        is_spot(t.push(c), scanned(t.push(c)).1.last(), m),
        c == ',' ==> scanned(t.push(c)).0.place is Gap,
        c == '}' ==> scanned(t.push(c)).0.place is Back,
        !scanned(t.push(c)).0.array,
{
    one_more(t, c);
    let spot = Spot { value_to: t.len() as usize, ..scanned(t).0.spot };
    let all = scanned(t.push(c)).1;
    assert(all == scanned(t).1.push(spot));
    assert(all.drop_last() =~= scanned(t).1);
    assert(is_spot(t, spot, m));
    spots_stay(t, seq![c], spot, m);
    assert(t + seq![c] =~= t.push(c));
}

proof fn next_member_is_read(s: Seq<char>, m: (Seq<char>, Seq<char>), n: (Seq<char>, Seq<char>))
    requires
        is_open(s, m),
        is_inner(n.0),
        is_value_text(n.1),
        s.len() + 1 + member_text(n.0, n.1).len() < usize::MAX,
    ensures
        ({
            let t = s.push(',') + member_text(n.0, n.1);
            &&& is_open(t, n)
            &&& scanned(t).1.len() == scanned(s).1.len() + 1
            &&& scanned(t).1.drop_last() == scanned(s).1
            &&& is_spot(t, scanned(t).1.last(), m)
        }),
{
    ended_member(s, m, ',');
    let u = s.push(',');
    member_is_read(u, n.0, n.1);
    spots_stay(u, member_text(n.0, n.1), scanned(u).1.last(), m);
}

proof fn first_member_is_read(m: (Seq<char>, Seq<char>))
    requires
        is_inner(m.0),
        is_value_text(m.1),
        1 + member_text(m.0, m.1).len() < usize::MAX,
    ensures
        is_open(seq!['{'] + member_text(m.0, m.1), m),
        scanned(seq!['{'] + member_text(m.0, m.1)).1.len() == 0,
{
    let none = Seq::<char>::empty();
    one_more(none, '{');
    assert(none.push('{') =~= seq!['{']);
    member_is_read(seq!['{'], m.0, m.1);
}

/// Whether the spots of a text are those of the members before the last one.
spec fn are_spots(t: Seq<char>, list: Seq<(Seq<char>, Seq<char>)>) -> bool {
    &&& scanned(t).1.len() == list.len() - 1
    &&& forall|i: int| 0 <= i < list.len() - 1 ==> is_spot(t, #[trigger] scanned(t).1[i], list[i])
}

proof fn spots_are_added(
    s: Seq<char>,
    rest: Seq<char>,
    list: Seq<(Seq<char>, Seq<char>)>,
)
    requires
        list.len() > 1,
        are_spots(s, list.drop_last()),
        scanned(s + rest).1.len() == scanned(s).1.len() + 1,
        scanned(s + rest).1.drop_last() == scanned(s).1,
        is_spot(s + rest, scanned(s + rest).1.last(), list[list.len() - 2]),
    ensures
        are_spots(s + rest, list),
{
    let t = s + rest;
    let before = scanned(s).1;
    let after = scanned(t).1;
    let shorter = list.drop_last();
    assert forall|i: int| 0 <= i < list.len() - 1 implies is_spot(
        t,
        #[trigger] after[i],
        list[i],
    ) by {
        if i < list.len() - 2 {
            assert(after.drop_last()[i] == before[i]);
            assert(is_spot(s, before[i], shorter[i]));
            spots_stay(s, rest, before[i], list[i]);
        } else {
            assert(after[i] == after.last());
        }
    }
}

proof fn members_are_read(list: Seq<(Seq<char>, Seq<char>)>)
    requires
        are_members(list),
        list.len() > 0,
        members_text(list).len() < usize::MAX,
    ensures
        is_open(members_text(list), list.last()),
        are_spots(members_text(list), list),
    decreases list.len(),
{
    let m = list[list.len() - 1];
    assert(is_inner(m.0) && is_value_text(m.1));
    if list.len() == 1 {
        first_member_is_read(m);
    } else {
        let shorter = list.drop_last();
        let s = members_text(shorter);
        let rest = seq![','] + member_text(m.0, m.1);
        assert(are_members(shorter)) by {
            assert forall|i: int| 0 <= i < shorter.len() implies is_inner((#[trigger] shorter[i]).0)
                && is_value_text(shorter[i].1) by {
                assert(shorter[i] == list[i]);
            }
        }
        assert(members_text(list) =~= s + rest);
        assert(s.push(',') + member_text(m.0, m.1) =~= s + rest);
        members_are_read(shorter);
        next_member_is_read(s, shorter.last(), m);
        assert(shorter.last() == list[list.len() - 2]);
        spots_are_added(s, rest, list);
    }
}

/// The text of an object lists its members, each with its name and its value,
/// in order, and nothing else: whatever stands inside of a string, an array or
/// an object is part of the value.
pub proof fn objects_list_their_members(list: Seq<(Seq<char>, Seq<char>)>)
    requires
        are_members(list),
        members_text(list).len() < usize::MAX,
    ensures
        ({
            let l = listing(members_text(list).push('}'));
            &&& l.len() == list.len()
            &&& forall|i: int|
                0 <= i < list.len() ==> {
                    &&& (#[trigger] l[i]).value == list[i].1
                    &&& l[i].name == (match json::json_of_text(quoted(list[i].0)) {
                        Some(j) => json::json_str(j),
                        None => None,
                    })
                }
        }),
{
    let t = members_text(list);
    let u = t.push('}');
    let l = listing(u);
    if list.len() == 0 {
        let none = Seq::<char>::empty();
        one_more(none, '{');
        assert(none.push('{') =~= t);
        one_more(t, '}');
    } else {
        members_are_read(list);
        ended_member(t, list.last(), '}');
        let spots = scanned(u).1;
        let before = scanned(t).1;
        assert forall|i: int| 0 <= i < list.len() implies {
            &&& (#[trigger] l[i]).value == list[i].1
            &&& l[i].name == (match json::json_of_text(quoted(list[i].0)) {
                Some(j) => json::json_str(j),
                None => None,
            })
        } by {
            if i < list.len() - 1 {
                assert(spots.drop_last()[i] == before[i]);
                assert(is_spot(t, before[i], list[i]));
                spots_stay(t, seq!['}'], spots[i], list[i]);
                assert(t + seq!['}'] =~= u);
            } else {
                assert(spots[i] == spots.last());
            }
            assert(is_spot(u, spots[i], list[i]));
            assert(l[i] == listed(u, spots[i]));
        }
    }
}

/// An object that gives a name twice repeats it.
pub proof fn objects_repeat_what_they_give_twice(
    list: Seq<(Seq<char>, Seq<char>)>,
    i: int,
    j: int,
    name: Seq<char>,
)
    requires
        are_members(list),
        members_text(list).len() < usize::MAX,
        0 <= i < j < list.len(),
        json::json_of_text(quoted(list[i].0)) == Some(json::Json::Str(name)),
        json::json_of_text(quoted(list[j].0)) == Some(json::Json::Str(name)),
    ensures
        repeats(listing(members_text(list).push('}')), name),
{
    objects_list_their_members(list);
    let l = listing(members_text(list).push('}'));
    assert(l[i].name == Some(name) && l[j].name == Some(name));
}

/// An object that gives no two members one name repeats none.
pub proof fn objects_repeat_nothing_else(list: Seq<(Seq<char>, Seq<char>)>, name: Seq<char>)
    requires
        are_members(list),
        members_text(list).len() < usize::MAX,
        forall|i: int, j: int|
            0 <= i < j < list.len() ==> json::json_of_text(quoted((#[trigger] list[i]).0))
                != json::json_of_text(quoted((#[trigger] list[j]).0)),
    ensures
        !repeats(listing(members_text(list).push('}')), name),
{
    objects_list_their_members(list);
    let l = listing(members_text(list).push('}'));
    if repeats(l, name) {
        let (i, j) = choose|i: int, j: int|
            0 <= i < j < l.len() && (#[trigger] l[i]).name == Some(name) && (
            #[trigger] l[j]).name == Some(name);
        assert(json::json_of_text(quoted(list[i].0)) == Some(json::Json::Str(name)));
        assert(json::json_of_text(quoted(list[j].0)) == Some(json::Json::Str(name)));
    }
}

/// The text of an array up to the last of its items.
pub open spec fn items_text(list: Seq<Seq<char>>) -> Seq<char>
    recommends
        list.len() > 0,
    decreases list.len(),
{
    if list.len() <= 1 {
        seq!['['] + list[0]
    } else {
        items_text(list.drop_last()).push(',') + list.last()
    }
}

/// Whether an item is the last of a text that goes on.
spec fn is_open_item(t: Seq<char>, v: Seq<char>) -> bool {
    let k = scanned(t).0;
    &&& k.place is Value && !k.quoted && !k.escaped && k.depth == 0 && k.array
    &&& k.spot.name_from == k.spot.name_to <= k.spot.value_from <= t.len()
    &&& t.subrange(k.spot.value_from as int, t.len() as int) == v
}

/// Whether a spot of a text is that of an item.
spec fn is_item(t: Seq<char>, spot: Spot, v: Seq<char>) -> bool {
    &&& spot.name_from == spot.name_to
    &&& spot.value_from <= spot.value_to <= t.len()
    &&& t.subrange(spot.value_from as int, spot.value_to as int) == v
}

proof fn items_stay(t: Seq<char>, u: Seq<char>, spot: Spot, v: Seq<char>)
    requires
        is_item(t, spot, v),
    ensures
        is_item(t + u, spot, v),
{
    assert((t + u).subrange(spot.value_from as int, spot.value_to as int) =~= t.subrange(
        spot.value_from as int,
        spot.value_to as int,
    ));
}

proof fn item_is_read(s: Seq<char>, v: Seq<char>)
    requires
        is_open_item(s, Seq::empty()),
        is_value_text(v),
    ensures
        is_open_item(s + v, v),
        scanned(s + v).1 == scanned(s).1,
{
    values_are_passed_over(s, v);
    let k = scanned(s).0;
    assert(s.subrange(k.spot.value_from as int, s.len() as int).len() == 0);
    assert((s + v).subrange(k.spot.value_from as int, (s + v).len() as int) =~= v);
}

proof fn ended_item(t: Seq<char>, v: Seq<char>, c: char)
    requires
        c == ',' || c == ']',
        t.len() < usize::MAX,
        is_open_item(t, v),
    ensures
        scanned(t.push(c)).1.len() == scanned(t).1.len() + 1,
        scanned(t.push(c)).1.drop_last() == scanned(t).1,
        is_item(t.push(c), scanned(t.push(c)).1.last(), v),
        c == ',' ==> is_open_item(t.push(c), Seq::empty()),
{
    one_more(t, c);
    let spot = Spot { value_to: t.len() as usize, ..scanned(t).0.spot };
    let all = scanned(t.push(c)).1;
    assert(all == scanned(t).1.push(spot));
    assert(all.drop_last() =~= scanned(t).1);
    assert(is_item(t, spot, v));
    items_stay(t, seq![c], spot, v);
    assert(t + seq![c] =~= t.push(c));
    let u = t.push(c);
    assert(u.subrange(u.len() as int, u.len() as int) =~= Seq::<char>::empty());
}

/// Whether the spots of a text are those of the items before the last one.
spec fn are_items(t: Seq<char>, list: Seq<Seq<char>>) -> bool {
    &&& scanned(t).1.len() == list.len() - 1
    &&& forall|i: int| 0 <= i < list.len() - 1 ==> is_item(t, #[trigger] scanned(t).1[i], list[i])
}

proof fn items_are_added(s: Seq<char>, rest: Seq<char>, list: Seq<Seq<char>>)
    requires
        list.len() > 1,
        are_items(s, list.drop_last()),
        scanned(s + rest).1.len() == scanned(s).1.len() + 1,
        scanned(s + rest).1.drop_last() == scanned(s).1,
        is_item(s + rest, scanned(s + rest).1.last(), list[list.len() - 2]),
    ensures
        are_items(s + rest, list),
{
    let t = s + rest;
    let before = scanned(s).1;
    let after = scanned(t).1;
    let shorter = list.drop_last();
    assert forall|i: int| 0 <= i < list.len() - 1 implies is_item(
        t,
        #[trigger] after[i],
        list[i],
    ) by {
        if i < list.len() - 2 {
            assert(after.drop_last()[i] == before[i]);
            assert(is_item(s, before[i], shorter[i]));
            items_stay(s, rest, before[i], list[i]);
        } else {
            assert(after[i] == after.last());
        }
    }
}

proof fn first_item_is_read(v: Seq<char>)
    requires
        is_value_text(v),
    ensures
        is_open_item(seq!['['] + v, v),
        scanned(seq!['['] + v).1.len() == 0,
{
    let none = Seq::<char>::empty();
    one_more(none, '[');
    let s = seq!['['];
    assert(none.push('[') =~= s);
    assert(s.subrange(1, 1) =~= none);
    item_is_read(s, v);
}

proof fn items_are_read(list: Seq<Seq<char>>)
    requires
        list.len() > 0,
        forall|i: int| 0 <= i < list.len() ==> is_value_text(#[trigger] list[i]),
        items_text(list).len() < usize::MAX,
    ensures
        is_open_item(items_text(list), list.last()),
        are_items(items_text(list), list),
    decreases list.len(),
{
    let v = list[list.len() - 1];
    assert(is_value_text(v));
    if list.len() == 1 {
        first_item_is_read(v);
    } else {
        let shorter = list.drop_last();
        let s = items_text(shorter);
        let rest = seq![','] + v;
        assert(forall|i: int| 0 <= i < shorter.len() ==> #[trigger] shorter[i] == list[i]);
        assert(items_text(list) =~= s + rest);
        assert(s.push(',') + v =~= s + rest);
        items_are_read(shorter);
        ended_item(s, shorter.last(), ',');
        item_is_read(s.push(','), v);
        items_stay(s.push(','), v, scanned(s.push(',')).1.last(), shorter.last());
        assert(shorter.last() == list[list.len() - 2]);
        items_are_added(s, rest, list);
    }
}

/// The text of an array lists its items in order, without names, and nothing
/// else.
pub proof fn arrays_list_their_items(list: Seq<Seq<char>>)
    requires
        list.len() > 0,
        forall|i: int| 0 <= i < list.len() ==> is_value_text(#[trigger] list[i]),
        items_text(list).len() < usize::MAX,
    ensures
        ({
            let l = listing(items_text(list).push(']'));
            &&& l.len() == list.len()
            &&& forall|i: int|
                0 <= i < list.len() ==> (#[trigger] l[i]).value == list[i] && l[i].name is None
        }),
{
    let t = items_text(list);
    let u = t.push(']');
    let l = listing(u);
    items_are_read(list);
    ended_item(t, list.last(), ']');
    let spots = scanned(u).1;
    let before = scanned(t).1;
    assert forall|i: int| 0 <= i < list.len() implies (#[trigger] l[i]).value == list[i]
        && l[i].name is None by {
        if i < list.len() - 1 {
            assert(spots.drop_last()[i] == before[i]);
            assert(is_item(t, before[i], list[i]));
            items_stay(t, seq![']'], spots[i], list[i]);
            assert(t + seq![']'] =~= u);
        } else {
            assert(spots[i] == spots.last());
        }
        assert(is_item(u, spots[i], list[i]));
        assert(l[i] == listed(u, spots[i]));
    }
}

} // verus!
