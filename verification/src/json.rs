//! JSON values and their text form.
//!
//! [`JsonValue`] is the executable form that the rest of the library builds and
//! reads; [`Json`] is what it stands for. Text is read and written by
//! `serde_json`, behind the functions at the end of this file.

use crate::members;
use crate::text;
use crate::text::same;
use vstd::prelude::*;

verus! {

/// What a JSON document holds. Integers are those of `i64` and `u64`; any
/// other number is kept as its decimal text. The members of an object have no
/// order.
pub enum Json {
    Null,
    Bool(bool),
    Int(int),
    Float(Seq<char>),
    Str(Seq<char>),
    Array(Seq<Json>),
    Object(Map<Seq<char>, Json>),
}

/// A number that is no integer of 64 bits, as `serde_json` holds it.
#[derive(Debug)]
pub struct Decimal {
    value: serde_json::Value,
}

/// A JSON number.
#[derive(Debug)]
pub enum Number {
    Unsigned(u64),
    Signed(i64),
    Other(Decimal),
}

/// A JSON value.
#[derive(Debug)]
pub enum JsonValue {
    Null,
    Bool(bool),
    Number(Number),
    String(String),
    Array(Vec<JsonValue>),
    /// Where a name occurs more than once, the last member with it counts.
    Object(Vec<Member>),
}

/// A member of a JSON object.
#[derive(Debug)]
pub struct Member {
    pub name: String,
    pub value: JsonValue,
}

impl Number {
    pub open spec fn json(self) -> Json {
        match self {
            Number::Unsigned(n) => Json::Int(n as int),
            Number::Signed(n) => Json::Int(n as int),
            Number::Other(d) => Json::Float(d.text()),
        }
    }
}

impl Decimal {
    #[verifier::type_invariant]
    spec fn is_fraction(self) -> bool {
        contents(self.value) is Float
    }

    /// The decimal text of the number.
    pub closed spec fn text(self) -> Seq<char> {
        contents(self.value)->Float_0
    }
}

/// What a value stands for.
pub open spec fn value_json(v: JsonValue) -> Json
    decreases v,
{
    match v {
        JsonValue::Null => Json::Null,
        JsonValue::Bool(b) => Json::Bool(b),
        JsonValue::Number(n) => n.json(),
        JsonValue::String(s) => Json::Str(s@),
        JsonValue::Array(a) => Json::Array(array_json(a@)),
        JsonValue::Object(m) => Json::Object(object_json(m@)),
    }
}

/// What the elements of an array stand for.
pub open spec fn array_json(a: Seq<JsonValue>) -> Seq<Json>
    decreases a,
{
    if a.len() == 0 {
        Seq::empty()
    } else {
        array_json(a.drop_last()).push(value_json(a[a.len() - 1]))
    }
}

/// What the members of an object stand for.
pub open spec fn object_json(m: Seq<Member>) -> Map<Seq<char>, Json>
    decreases m,
{
    if m.len() == 0 {
        Map::empty()
    } else {
        object_json(m.drop_last()).insert(m[m.len() - 1].name@, value_json(m[m.len() - 1].value))
    }
}

impl View for JsonValue {
    type V = Json;

    open spec fn view(&self) -> Json {
        value_json(*self)
    }
}

/// What `serde_json::Value` holds: its tree of plain values. An integer that
/// fits `u64` or `i64` shows as an integer, any other number as the text that
/// it prints as.
pub uninterp spec fn contents(v: serde_json::Value) -> Json;

/// `serde_json::Value`, a JSON tree.
#[verifier::external_type_specification]
#[verifier::external_body]
pub struct ExJsonTree(serde_json::Value);

/// One level of a `serde_json::Value`.
pub(crate) enum Parts {
    Null,
    Bool(bool),
    Unsigned(u64),
    Signed(i64),
    Other(serde_json::Value),
    Text(String),
    List(Vec<serde_json::Value>),
    Members(Vec<(String, serde_json::Value)>),
}

spec fn tree_members(m: Seq<(String, serde_json::Value)>) -> Map<Seq<char>, Json>
    decreases m.len(),
{
    if m.len() == 0 {
        Map::empty()
    } else {
        tree_members(m.drop_last()).insert(m.last().0@, contents(m.last().1))
    }
}

spec fn distinct_names(m: Seq<(String, serde_json::Value)>) -> bool {
    forall|i: int, j: int| 0 <= i < j < m.len() ==> (#[trigger] m[i]).0@ != (#[trigger] m[j]).0@
}

proof fn tree_members_are_finite(m: Seq<(String, serde_json::Value)>)
    ensures
        tree_members(m).dom().finite(),
    decreases m.len(),
{
    if m.len() > 0 {
        tree_members_are_finite(m.drop_last());
    }
}

proof fn tree_member_is_held(m: Seq<(String, serde_json::Value)>, i: int)
    requires
        distinct_names(m),
        0 <= i < m.len(),
    ensures
        tree_members(m).contains_key(m[i].0@),
        tree_members(m)[m[i].0@] == contents(m[i].1),
    decreases m.len(),
{
    let shorter = m.drop_last();
    if i < m.len() - 1 {
        assert(shorter[i] == m[i]);
        assert(m[i].0@ != m[m.len() - 1].0@);
        tree_member_is_held(shorter, i);
    }
}

spec fn parts_json(p: Parts) -> Json {
    match p {
        Parts::Null => Json::Null,
        Parts::Bool(b) => Json::Bool(b),
        Parts::Unsigned(n) => Json::Int(n as int),
        Parts::Signed(n) => Json::Int(n as int),
        Parts::Other(v) => contents(v),
        Parts::Text(s) => Json::Str(s@),
        Parts::List(a) => Json::Array(a@.map_values(|v: serde_json::Value| contents(v))),
        Parts::Members(m) => Json::Object(tree_members(m@)),
    }
}

/// Takes a `serde_json::Value` apart by its variants. What the parts stand for
/// is what the value held; a number comes as `u64` where it fits that type,
/// else as `i64` where it fits that one, else as it is. No two members have
/// one name, since `serde_json::Map` is a map.
#[verifier::external_body]
fn take_apart(v: serde_json::Value) -> (r: Parts)
    ensures
        parts_json(r) == contents(v),
        r matches Parts::Members(m) ==> distinct_names(m@),
        r matches Parts::Other(n) ==> contents(n) is Float,
{
    match v {
        serde_json::Value::Null => Parts::Null,
        serde_json::Value::Bool(b) => Parts::Bool(b),
        serde_json::Value::Number(n) => match (n.as_u64(), n.as_i64()) {
            (Some(u), _) => Parts::Unsigned(u),
            (None, Some(i)) => Parts::Signed(i),
            (None, None) => Parts::Other(serde_json::Value::Number(n)),
        },
        serde_json::Value::String(s) => Parts::Text(s),
        serde_json::Value::Array(a) => Parts::List(a),
        serde_json::Value::Object(m) => Parts::Members(m.into_iter().collect()),
    }
}

/// Puts a `serde_json::Value` together from its parts, of which no two members
/// have one name: the value holds what the parts stand for.
#[verifier::external_body]
fn assemble(p: Parts) -> (r: serde_json::Value)
    requires
        p matches Parts::Members(m) ==> distinct_names(m@),
    ensures
        contents(r) == parts_json(p),
{
    match p {
        Parts::Null => serde_json::Value::Null,
        Parts::Bool(b) => serde_json::Value::Bool(b),
        Parts::Unsigned(u) => serde_json::Value::from(u),
        Parts::Signed(i) => serde_json::Value::from(i),
        Parts::Other(v) => v,
        Parts::Text(s) => serde_json::Value::String(s),
        Parts::List(a) => serde_json::Value::Array(a),
        Parts::Members(m) => serde_json::Value::Object(m.into_iter().collect()),
    }
}

/// Calls `serde_json::Map::insert` on an object: it adds the member, or replaces
/// the value of the one with its name.
#[verifier::external_body]
fn put_member(v: &mut serde_json::Value, name: String, value: serde_json::Value)
    requires
        contents(*old(v)) is Object,
    ensures
        contents(*final(v)) == Json::Object(
            (contents(*old(v))->Object_0).insert(name@, contents(value)),
        ),
{
    if let serde_json::Value::Object(m) = v {
        m.insert(name, value);
    }
}

/// Clones a `serde_json::Value`: the copy holds what the original holds.
pub assume_specification[ <serde_json::Value as Clone>::clone ](v: &serde_json::Value) -> (r:
    serde_json::Value)
    ensures
        contents(r) == contents(*v),
;

/// Reads a `serde_json::Value` into a value of this library.
fn from_tree(v: serde_json::Value) -> (r: JsonValue)
    ensures
        r@ == contents(v),
    decreases contents(v),
{
    let parts = take_apart(v);
    match parts {
        Parts::Null => JsonValue::Null,
        Parts::Bool(b) => JsonValue::Bool(b),
        Parts::Unsigned(n) => JsonValue::Number(Number::Unsigned(n)),
        Parts::Signed(n) => JsonValue::Number(Number::Signed(n)),
        Parts::Other(value) => JsonValue::Number(Number::Other(Decimal { value })),
        Parts::Text(s) => JsonValue::String(s),
        Parts::List(list) => {
            let ghost all = list@;
            let ghost whole = all.map_values(|v: serde_json::Value| contents(v));
            let mut out: Vec<JsonValue> = Vec::new();
            assert(whole.take(0) =~= Seq::<Json>::empty());
            for item in it: list
                invariant
                    it.seq() == all,
                    whole == all.map_values(|v: serde_json::Value| contents(v)),
                    contents(v) == Json::Array(whole),
                    array_json(out@) == whole.take(it.index() as int),
            {
                let ghost i = it.index();
                assert(whole[i] == contents(item));
                assert(decreases_to!(contents(v) => contents(v)->Array_0));
                assert(decreases_to!(whole => whole[i]));
                let ghost before = out@;
                out.push(from_tree(item));
                proof {
                    assert(out@.drop_last() =~= before);
                    assert(whole.take(i + 1) =~= whole.take(i).push(whole[i]));
                }
            }
            assert(whole.take(all.len() as int) =~= whole);
            JsonValue::Array(out)
        },
        Parts::Members(list) => {
            let ghost all = list@;
            let mut out: Vec<Member> = Vec::new();
            assert(all.take(0) =~= Seq::<(String, serde_json::Value)>::empty());
            for item in it: list
                invariant
                    it.seq() == all,
                    contents(v) == Json::Object(tree_members(all)),
                    distinct_names(all),
                    object_json(out@) == tree_members(all.take(it.index() as int)),
            {
                let ghost i = it.index();
                let ghost before = out@;
                let (name, value) = item;
                proof {
                    tree_member_is_held(all, i as int);
                    tree_members_are_finite(all);
                    assert(decreases_to!(contents(v) => contents(v)->Object_0));
                    assert(decreases_to!(tree_members(all) => tree_members(all)[name@]));
                }
                out.push(Member { name, value: from_tree(value) });
                proof {
                    assert(out@.drop_last() =~= before);
                    assert(all.take(i + 1).drop_last() =~= all.take(i));
                }
            }
            assert(all.take(all.len() as int) =~= all);
            JsonValue::Object(out)
        },
    }
}

impl Clone for Member {
    fn clone(&self) -> (r: Member)
        ensures
            r.name@ == self.name@,
            r.value@ == self.value@,
    {
        Member { name: self.name.clone(), value: self.value.clone() }
    }
}

impl Clone for JsonValue {
    fn clone(&self) -> (r: JsonValue)
        ensures
            r@ == self@,
        decreases self,
    {
        match self {
            JsonValue::Null => JsonValue::Null,
            JsonValue::Bool(b) => JsonValue::Bool(*b),
            JsonValue::Number(n) => match n {
                Number::Unsigned(n) => JsonValue::Number(Number::Unsigned(*n)),
                Number::Signed(n) => JsonValue::Number(Number::Signed(*n)),
                Number::Other(d) => {
                    proof {
                        use_type_invariant(d);
                    }
                    JsonValue::Number(Number::Other(Decimal { value: d.value.clone() }))
                },
            },
            JsonValue::String(s) => JsonValue::String(s.clone()),
            JsonValue::Array(list) => {
                let mut out: Vec<JsonValue> = Vec::new();
                assert(list@.take(0) =~= Seq::<JsonValue>::empty());
                for i in 0..list.len()
                    invariant
                        *self == JsonValue::Array(*list),
                        array_json(out@) == array_json(list@.take(i as int)),
                {
                    let ghost before = out@;
                    assert(decreases_to!(*self => self->Array_0));
                    assert(decreases_to!(*list => list@));
                    assert(decreases_to!(list@ => list@[i as int]));
                    out.push(list[i].clone());
                    proof {
                        assert(out@.drop_last() =~= before);
                        assert(list@.take(i + 1).drop_last() =~= list@.take(i as int));
                    }
                }
                assert(list@.take(list@.len() as int) =~= list@);
                JsonValue::Array(out)
            },
            JsonValue::Object(list) => {
                let mut out: Vec<Member> = Vec::new();
                assert(list@.take(0) =~= Seq::<Member>::empty());
                for i in 0..list.len()
                    invariant
                        *self == JsonValue::Object(*list),
                        object_json(out@) == object_json(list@.take(i as int)),
                {
                    let ghost before = out@;
                    assert(decreases_to!(*self => self->Object_0));
                    assert(decreases_to!(*list => list@));
                    assert(decreases_to!(list@ => list@[i as int]));
                    let name = list[i].name.clone();
                    out.push(Member { name, value: list[i].value.clone() });
                    proof {
                        assert(out@.drop_last() =~= before);
                        assert(list@.take(i + 1).drop_last() =~= list@.take(i as int));
                    }
                }
                assert(list@.take(list@.len() as int) =~= list@);
                JsonValue::Object(out)
            },
        }
    }
}

/// Builds the `serde_json::Value` that holds what a value of this library stands for.
fn to_tree(v: &JsonValue) -> (r: serde_json::Value)
    ensures
        contents(r) == v@,
    decreases v,
{
    let parts = match v {
        JsonValue::Null => Parts::Null,
        JsonValue::Bool(b) => Parts::Bool(*b),
        JsonValue::Number(n) => match n {
            Number::Unsigned(n) => Parts::Unsigned(*n),
            Number::Signed(n) => Parts::Signed(*n),
            Number::Other(d) => {
                proof {
                    use_type_invariant(d);
                }
                Parts::Other(d.value.clone())
            },
        },
        JsonValue::String(s) => Parts::Text(s.clone()),
        JsonValue::Array(list) => {
            let mut out: Vec<serde_json::Value> = Vec::new();
            let ghost held = |v: serde_json::Value| contents(v);
            assert(list@.take(0) =~= Seq::<JsonValue>::empty());
            assert(out@.map_values(held) =~= Seq::<Json>::empty());
            for i in 0..list.len()
                invariant
                    *v == JsonValue::Array(*list),
                    held == (|v: serde_json::Value| contents(v)),
                    out@.map_values(held) == array_json(list@.take(i as int)),
            {
                let ghost before = out@;
                assert(decreases_to!(*v => v->Array_0));
                assert(decreases_to!(*list => list@));
                assert(decreases_to!(list@ => list@[i as int]));
                out.push(to_tree(&list[i]));
                proof {
                    assert(list@.take(i + 1).drop_last() =~= list@.take(i as int));
                    assert(out@.map_values(held) =~= before.map_values(held).push(
                        contents(out@.last()),
                    ));
                }
            }
            assert(list@.take(list@.len() as int) =~= list@);
            Parts::List(out)
        },
        JsonValue::Object(list) => {
            let none: Vec<(String, serde_json::Value)> = Vec::new();
            let mut out = assemble(Parts::Members(none));
            assert(list@.take(0) =~= Seq::<Member>::empty());
            for i in 0..list.len()
                invariant
                    *v == JsonValue::Object(*list),
                    contents(out) == Json::Object(object_json(list@.take(i as int))),
            {
                assert(decreases_to!(*v => v->Object_0));
                assert(decreases_to!(*list => list@));
                assert(decreases_to!(list@ => list@[i as int]));
                put_member(&mut out, list[i].name.clone(), to_tree(&list[i].value));
                assert(list@.take(i + 1).drop_last() =~= list@.take(i as int));
            }
            assert(list@.take(list@.len() as int) =~= list@);
            return out;
        },
    };
    assemble(parts)
}

/// The nesting that `serde_json` reads: this many arrays and objects inside one another.
pub open spec fn deepest() -> nat {
    127
}

/// Whether a document holds integers only, and at most `depth` arrays and
/// objects inside one another.
pub open spec fn is_plain(j: Json, depth: nat) -> bool
    decreases depth,
{
    match j {
        Json::Float(_) => false,
        Json::Array(a) => depth > 0 && forall|i: int|
            0 <= i < a.len() ==> is_plain(#[trigger] a[i], (depth - 1) as nat),
        Json::Object(m) => depth > 0 && forall|k: Seq<char>| #[trigger]
            m.contains_key(k) ==> is_plain(m[k], (depth - 1) as nat),
        _ => true,
    }
}

/// What `serde_json::from_str` reads from a text: `None` where it reports an error.
pub uninterp spec fn json_of_text(text: Seq<char>) -> Option<Json>;

/// What `serde_json::Value` prints as.
pub uninterp spec fn text_of_json(j: Json) -> Seq<char>;

/// Calls `serde_json::from_str` for a `serde_json::Value`. Which documents it
/// accepts, and what they hold, is a function of the text alone.
#[verifier::external_body]
fn read_tree(text: &str) -> (r: Option<serde_json::Value>)
    ensures
        r matches Some(v) ==> json_of_text(text@) == Some(contents(v)),
        r is None ==> json_of_text(text@) is None,
{
    serde_json::from_str(text).ok()
}

/// Calls `serde_json::Value::to_string`. The text is a function of what the
/// value holds, and `serde_json::from_str` reads the same back from it where
/// the value holds no fraction (reading one may round) and is nested no deeper
/// than the reader goes. An object is written with each of its members once,
/// the name in quotes before a colon and the value, an array with its items
/// alone, both with commas between.
#[verifier::external_body]
fn print_tree(v: &serde_json::Value) -> (r: String)
    ensures
        r@ == text_of_json(contents(*v)),
        is_plain(contents(*v), deepest()) ==> json_of_text(r@) == Some(contents(*v)),
        is_shown(r@, contents(*v)),
{
    v.to_string()
}

/// What an object prints as whose members are given in order.
pub uninterp spec fn text_of_members(m: Seq<(Seq<char>, Json)>) -> Seq<char>;

/// What members of a tree stand for, in order.
spec fn tree_list(m: Seq<(String, serde_json::Value)>) -> Seq<(Seq<char>, Json)> {
    m.map_values(|p: (String, serde_json::Value)| (p.0@, contents(p.1)))
}

/// Whether members are all plain enough to be read back inside an object.
pub open spec fn plain_members(m: Seq<(Seq<char>, Json)>) -> bool {
    forall|i: int| 0 <= i < m.len() ==> is_plain((#[trigger] m[i]).1, (deepest() - 1) as nat)
}

/// Whether a text lists what a document holds, down to a depth: the members of
/// an object, each name once, the items of an array, and nothing for any other.
pub open spec fn shows(s: Seq<char>, j: Json, depth: nat) -> bool
    decreases depth,
{
    let list = members::listing(s);
    match j {
        Json::Object(m) => {
            &&& forall|i: int, k: int|
                0 <= i < k < list.len() ==> (#[trigger] list[i]).name != (#[trigger] list[k]).name
            &&& forall|i: int|
                0 <= i < list.len() ==> ((#[trigger] list[i]).name matches Some(name)
                    && m.contains_key(name) && (depth > 0 ==> shows(
                    list[i].value,
                    m[name],
                    (depth - 1) as nat,
                )))
        },
        Json::Array(a) => {
            &&& a.len() > 0 ==> list.len() == a.len()
            &&& forall|i: int|
                0 <= i < list.len() && a.len() == 0 ==> (#[trigger] list[i]).value == Seq::<
                    char,
                >::empty()
            &&& forall|i: int| 0 <= i < list.len() ==> (#[trigger] list[i]).name is None
            &&& forall|i: int|
                0 <= i < a.len() && depth > 0 ==> shows(
                    (#[trigger] list[i]).value,
                    a[i],
                    (depth - 1) as nat,
                )
        },
        _ => list.len() == 0,
    }
}

/// Whether a text lists what a document holds, all the way down.
pub open spec fn is_shown(s: Seq<char>, j: Json) -> bool {
    forall|depth: nat| #[trigger] shows(s, j, depth)
}

/// Whether a text lists the given members, in order, and what they hold.
pub open spec fn lists(s: Seq<char>, m: Seq<(Seq<char>, Json)>) -> bool {
    let list = members::listing(s);
    &&& list.len() == m.len()
    &&& forall|i: int|
        0 <= i < m.len() ==> (#[trigger] list[i]).name == Some(m[i].0) && is_shown(
            list[i].value,
            m[i].1,
        )
}

/// A text that shows a document repeats no name.
pub proof fn shown_is_not_repeated(s: Seq<char>, j: Json)
    requires
        is_shown(s, j),
    ensures
        forall|name: Seq<char>| !(#[trigger] members::repeats(members::listing(s), name)),
{
    assert(shows(s, j, 0));
}

/// The text of a field, where a text has it, shows what the field holds.
pub proof fn field_is_shown(s: Seq<char>, j: Json, i: int, name: Seq<char>)
    requires
        is_shown(s, j),
        j is Object,
    ensures
        ({
            let field = members::field_text(members::listing(s), i, name);
            field == Seq::<char>::empty() || (json_get(j, name) matches Some(v) && is_shown(
                field,
                v,
            ))
        }),
{
    let list = members::listing(s);
    assert(shows(s, j, 0));
    if exists|k: int| 0 <= k < list.len() && (#[trigger] list[k]).name == Some(name) {
        let k = choose|k: int| 0 <= k < list.len() && (#[trigger] list[k]).name == Some(name);
        assert forall|n: int| 0 <= n < k implies (#[trigger] list[n]).name != Some(name) by {
            assert(list[n].name != list[k].name);
        }
        members::value_of_first(list, name, k);
        assert forall|depth: nat| #[trigger] shows(list[k].value, (j->Object_0)[name], depth) by {
            assert(shows(s, j, depth + 1));
        }
    } else {
        members::value_of_none(list, name);
    }
}

/// Whether no two members have one name.
pub open spec fn distinct_members(m: Seq<(Seq<char>, Json)>) -> bool {
    forall|i: int, j: int| 0 <= i < j < m.len() ==> (#[trigger] m[i]).0 != (#[trigger] m[j]).0
}

/// A text that lists members with different names repeats none.
pub proof fn distinct_are_not_repeated(s: Seq<char>, m: Seq<(Seq<char>, Json)>, name: Seq<char>)
    requires
        lists(s, m),
        distinct_members(m),
    ensures
        !members::repeats(members::listing(s), name),
{
    let list = members::listing(s);
    if members::repeats(list, name) {
        let (i, j) = choose|i: int, j: int|
            0 <= i < j < list.len() && (#[trigger] list[i]).name == Some(name) && (
            #[trigger] list[j]).name == Some(name);
        assert(m[i].0 != m[j].0);
    }
}

/// Writes members in order as a JSON object, with `serde::Serializer::collect_map`
/// on a `serde_json::Serializer`. The text is a function of the members, and
/// `serde_json::from_str` reads the object back from it where no member holds a
/// fraction or is nested deeper than the reader goes; of two members with one
/// name it reads both and keeps the later. Each member is written as its name
/// in quotes, a colon and its value as that prints, with a comma before the
/// next.
#[verifier::external_body]
fn print_members(m: Vec<(String, serde_json::Value)>) -> (r: String)
    ensures
        r@ == text_of_members(tree_list(m@)),
        plain_members(tree_list(m@)) ==> json_of_text(r@) == Some(
            Json::Object(tree_members(m@)),
        ),
        lists(r@, tree_list(m@)),
{
    let mut out: Vec<u8> = Vec::new();
    let mut to = serde_json::Serializer::new(&mut out);
    serde::Serializer::collect_map(&mut to, m).expect("texts and trees can be written");
    String::from_utf8(out).expect("JSON is text")
}

/// What an optional value stands for.
pub open spec fn seen(v: Option<&JsonValue>) -> Option<Json> {
    match v {
        Some(v) => Some(v@),
        None => None,
    }
}

/// What an optional value stands for.
pub open spec fn held(v: Option<JsonValue>) -> Option<Json> {
    match v {
        Some(v) => Some(v@),
        None => None,
    }
}

/// The member of an object with the given name; nothing else has members.
pub open spec fn json_get(j: Json, name: Seq<char>) -> Option<Json> {
    match j {
        Json::Object(m) => if m.contains_key(name) {
            Some(m[name])
        } else {
            None
        },
        _ => None,
    }
}

/// The text of a string.
pub open spec fn json_str(j: Json) -> Option<Seq<char>> {
    match j {
        Json::Str(s) => Some(s),
        _ => None,
    }
}

/// The value of an integer that fits `u64`.
pub open spec fn json_u64(j: Json) -> Option<u64> {
    match j {
        Json::Int(n) => if 0 <= n <= u64::MAX {
            Some(n as u64)
        } else {
            None
        },
        _ => None,
    }
}

/// The text of the member of an object with the given name.
pub open spec fn json_get_str(j: Json, name: Seq<char>) -> Option<Seq<char>> {
    match json_get(j, name) {
        Some(v) => json_str(v),
        None => None,
    }
}

/// The unsigned integer that the member of an object with the given name holds.
pub open spec fn json_get_u64(j: Json, name: Seq<char>) -> Option<u64> {
    match json_get(j, name) {
        Some(v) => json_u64(v),
        None => None,
    }
}

impl JsonValue {
    /// Reads a JSON text.
    pub fn parse(text: &str) -> (r: Option<JsonValue>)
        ensures
            held(r) == json_of_text(text@),
    {
        match read_tree(text) {
            Some(tree) => Some(from_tree(tree)),
            None => None,
        }
    }

    /// Writes this value as compact JSON text.
    pub fn to_text(&self) -> (r: String)
        ensures
            r@ == text_of_json(self@),
            is_plain(self@, deepest()) ==> json_of_text(r@) == Some(self@),
            is_shown(r@, self@),
    {
        let tree = to_tree(self);
        print_tree(&tree)
    }

    /// The member with the given name, where this is an object that has one.
    pub fn get(&self, name: &str) -> (r: Option<&JsonValue>)
        ensures
            seen(r) == json_get(self@, name@),
    {
        match self {
            JsonValue::Object(list) => {
                let mut i: usize = list.len();
                assert(list@.take(i as int) =~= list@);
                while i > 0
                    invariant
                        i <= list@.len(),
                        *self == JsonValue::Object(*list),
                        object_json(list@.take(i as int)).contains_key(name@) == object_json(
                            list@,
                        ).contains_key(name@),
                        object_json(list@).contains_key(name@) ==> object_json(
                            list@.take(i as int),
                        )[name@] == object_json(list@)[name@],
                    decreases i,
                {
                    assert(list@.take(i as int).drop_last() =~= list@.take(i - 1));
                    if same(list[i - 1].name.as_str(), name) {
                        return Some(&list[i - 1].value);
                    }
                    i = i - 1;
                }
                None
            },
            _ => None,
        }
    }

    /// The text, where this is a string.
    pub fn as_str(&self) -> (r: Option<&str>)
        ensures
            json_str(self@) == (match r {
                Some(s) => Some(s@),
                None => None,
            }),
    {
        match self {
            JsonValue::String(s) => Some(s.as_str()),
            _ => None,
        }
    }

    /// The number, where this is an integer that fits `u64`.
    pub fn as_u64(&self) -> (r: Option<u64>)
        ensures
            r == json_u64(self@),
    {
        match self {
            JsonValue::Number(Number::Unsigned(n)) => Some(*n),
            JsonValue::Number(Number::Signed(n)) => if *n >= 0 {
                Some(*n as u64)
            } else {
                None
            },
            _ => None,
        }
    }

    /// The text of the member with the given name.
    pub fn get_str(&self, name: &str) -> (r: Option<&str>)
        ensures
            json_get_str(self@, name@) == (match r {
                Some(s) => Some(s@),
                None => None,
            }),
    {
        match self.get(name) {
            Some(v) => v.as_str(),
            None => None,
        }
    }

    /// The unsigned integer that the member with the given name holds.
    pub fn get_u64(&self, name: &str) -> (r: Option<u64>)
        ensures
            r == json_get_u64(self@, name@),
    {
        match self.get(name) {
            Some(v) => v.as_u64(),
            None => None,
        }
    }

    /// A string.
    pub fn text(s: &str) -> (r: JsonValue)
        ensures
            r@ == Json::Str(s@),
    {
        JsonValue::String(s.to_owned())
    }

    /// An unsigned integer.
    pub fn unsigned(n: u64) -> (r: JsonValue)
        ensures
            r@ == Json::Int(n as int),
    {
        JsonValue::Number(Number::Unsigned(n))
    }

    /// A signed integer.
    pub fn signed(n: i64) -> (r: JsonValue)
        ensures
            r@ == Json::Int(n as int),
    {
        JsonValue::Number(Number::Signed(n))
    }

    /// A value, null where there is none.
    pub fn nullable(v: Option<JsonValue>) -> (r: JsonValue)
        ensures
            r@ == or_null(held(v)),
    {
        match v {
            Some(v) => v,
            None => JsonValue::Null,
        }
    }

    /// An array of strings.
    pub fn texts(list: &Vec<String>) -> (r: JsonValue)
        ensures
            r@ == json_texts(text::texts(list@)),
    {
        let mut out: Vec<JsonValue> = Vec::new();
        let ghost all = text::texts(list@);
        let ghost whole = json_texts(all)->Array_0;
        assert(whole.take(0) =~= Seq::<Json>::empty());
        for i in 0..list.len()
            invariant
                all == text::texts(list@),
                whole == json_texts(all)->Array_0,
                array_json(out@) == whole.take(i as int),
        {
            let ghost before = out@;
            out.push(JsonValue::String(list[i].clone()));
            proof {
                assert(out@.drop_last() =~= before);
                assert(all[i as int] == list@[i as int]@);
                assert(whole[i as int] == Json::Str(all[i as int]));
                assert(out@[out@.len() - 1]@ == Json::Str(all[i as int]));
                assert(whole.take(i + 1) =~= whole.take(i as int).push(whole[i as int]));
            }
        }
        assert(whole.take(list@.len() as int) =~= whole);
        JsonValue::Array(out)
    }
}

/// A document, null where there is none.
pub open spec fn or_null(v: Option<Json>) -> Json {
    match v {
        Some(v) => v,
        None => Json::Null,
    }
}

/// The array of the given strings.
pub open spec fn json_texts(list: Seq<Seq<char>>) -> Json {
    Json::Array(list.map_values(|s: Seq<char>| Json::Str(s)))
}

/// An array of strings is plain.
pub proof fn texts_are_plain(list: Seq<Seq<char>>, depth: nat)
    requires
        depth > 0,
    ensures
        is_plain(json_texts(list), depth),
{
    let a = json_texts(list)->Array_0;
    assert forall|i: int| 0 <= i < a.len() implies is_plain(#[trigger] a[i], (depth - 1) as nat) by {
        assert(a[i] == Json::Str(list[i]));
    }
}

/// Each element of an array stands for what the array has at its place.
pub proof fn array_element(a: Seq<JsonValue>, i: int)
    requires
        0 <= i < a.len(),
    ensures
        array_json(a).len() == a.len(),
        array_json(a)[i] == a[i]@,
    decreases a.len(),
{
    array_length(a);
    if i < a.len() - 1 {
        array_element(a.drop_last(), i);
    } else {
        array_length(a.drop_last());
    }
}

/// An array stands for as many elements as it has.
pub proof fn array_length(a: Seq<JsonValue>)
    ensures
        array_json(a).len() == a.len(),
    decreases a.len(),
{
    if a.len() > 0 {
        array_length(a.drop_last());
    }
}

/// An object being built.
pub struct ObjectBuilder {
    members: Vec<Member>,
}

impl View for ObjectBuilder {
    type V = Map<Seq<char>, Json>;

    closed spec fn view(&self) -> Map<Seq<char>, Json> {
        object_json(self.members@)
    }
}

/// What members stand for, in order.
pub open spec fn member_list(m: Seq<Member>) -> Seq<(Seq<char>, Json)> {
    m.map_values(|m: Member| (m.name@, m.value@))
}

impl ObjectBuilder {
    /// The members, in the order in which they were added.
    pub closed spec fn list(self) -> Seq<(Seq<char>, Json)> {
        member_list(self.members@)
    }

    /// An object without members.
    pub fn new() -> (r: ObjectBuilder)
        ensures
            r@ == Map::<Seq<char>, Json>::empty(),
            r.list() == Seq::<(Seq<char>, Json)>::empty(),
    {
        let r = ObjectBuilder { members: Vec::new() };
        assert(r.list() =~= Seq::<(Seq<char>, Json)>::empty());
        r
    }

    /// Adds a member, or replaces the one with its name.
    pub fn put(&mut self, name: &str, value: JsonValue)
        ensures
            final(self)@ == old(self)@.insert(name@, value@),
            final(self).list() == old(self).list().push((name@, value@)),
    {
        let ghost before = self.members@;
        self.members.push(Member { name: name.to_owned(), value });
        assert(self.members@.drop_last() =~= before);
        assert(self.list() =~= member_list(before).push((name@, value@)));
    }

    /// Adds a member where there is a value for it.
    pub fn put_some(&mut self, name: &str, value: Option<JsonValue>)
        ensures
            final(self)@ == with_some(old(self)@, name@, held(value)),
            final(self).list() == push_some(old(self).list(), name@, held(value)),
    {
        match value {
            Some(value) => self.put(name, value),
            None => {},
        }
    }

    /// The object.
    pub fn build(self) -> (r: JsonValue)
        ensures
            r@ == Json::Object(self@),
    {
        JsonValue::Object(self.members)
    }

    /// The text of the object, with its members in the order in which they
    /// were added.
    pub fn text(self) -> (r: String)
        ensures
            r@ == text_of_members(self.list()),
            plain_members(self.list()) ==> json_of_text(r@) == Some(Json::Object(self@)),
            lists(r@, self.list()),
    {
        let ghost list = self.members@;
        let mut out: Vec<(String, serde_json::Value)> = Vec::new();
        assert(list.take(0) =~= Seq::<Member>::empty());
        assert(tree_list(out@) =~= member_list(list.take(0)));
        for i in 0..self.members.len()
            invariant
                list == self.members@,
                tree_members(out@) == object_json(list.take(i as int)),
                tree_list(out@) == member_list(list.take(i as int)),
        {
            let ghost before = out@;
            out.push((self.members[i].name.clone(), to_tree(&self.members[i].value)));
            proof {
                assert(out@.drop_last() =~= before);
                assert(list.take(i + 1).drop_last() =~= list.take(i as int));
                assert(tree_list(out@) =~= tree_list(before).push(
                    (list[i as int].name@, list[i as int].value@),
                ));
                assert(member_list(list.take(i + 1)) =~= member_list(list.take(i as int)).push(
                    (list[i as int].name@, list[i as int].value@),
                ));
            }
        }
        assert(list.take(list.len() as int) =~= list);
        print_members(out)
    }
}

/// `m` followed by the member where there is a value for it, else `m` itself.
pub open spec fn push_some(
    m: Seq<(Seq<char>, Json)>,
    name: Seq<char>,
    value: Option<Json>,
) -> Seq<(Seq<char>, Json)> {
    match value {
        Some(value) => m.push((name, value)),
        None => m,
    }
}

/// `m` with the member where there is a value for it, else `m` itself.
pub open spec fn with_some(
    m: Map<Seq<char>, Json>,
    name: Seq<char>,
    value: Option<Json>,
) -> Map<Seq<char>, Json> {
    match value {
        Some(value) => m.insert(name, value),
        None => m,
    }
}

/// What values stand for: themselves, item by item and member by member, where
/// the last member with a name counts.
pub proof fn values_stand_for_themselves(
    b: bool,
    n: Number,
    s: String,
    a: Vec<JsonValue>,
    m: Vec<Member>,
    more: Seq<Member>,
    x: Member,
)
    ensures
        JsonValue::Null@ == Json::Null,
        JsonValue::Bool(b)@ == Json::Bool(b),
        n matches Number::Unsigned(u) ==> JsonValue::Number(n)@ == Json::Int(u as int),
        n matches Number::Signed(i) ==> JsonValue::Number(n)@ == Json::Int(i as int),
        n is Other ==> JsonValue::Number(n)@ is Float,
        JsonValue::String(s)@ == Json::Str(s@),
        JsonValue::Array(a)@ matches Json::Array(j) && j.len() == a@.len() && forall|i: int|
            0 <= i < j.len() ==> #[trigger] j[i] == a@[i]@,
        JsonValue::Object(m)@ == Json::Object(object_json(m@)),
        object_json(Seq::empty()) == Map::<Seq<char>, Json>::empty(),
        object_json(more.push(x)) == object_json(more).insert(x.name@, x.value@),
{
    array_length(a@);
    assert forall|i: int| 0 <= i < a@.len() implies #[trigger] array_json(a@)[i] == a@[i]@ by {
        array_element(a@, i);
    }
    assert(more.push(x).drop_last() =~= more);
}

/// An object has the members that it has, under their names, and nothing else
/// has any; a string is read as its text, and a number if and only if it is an
/// integer that fits.
pub proof fn members_are_found(m: Map<Seq<char>, Json>, j: Json, name: Seq<char>, n: u64)
    ensures
        m.contains_key(name) ==> json_get(Json::Object(m), name) == Some(m[name]),
        !m.contains_key(name) ==> json_get(Json::Object(m), name) is None,
        !(j is Object) ==> json_get(j, name) is None,
        json_get_str(j, name) == (match json_get(j, name) {
            Some(Json::Str(s)) => Some(s),
            _ => None,
        }),
        json_get_u64(j, name) == Some(n) <==> json_get(j, name) == Some(Json::Int(n as int)),
        json_get_u64(j, name) is None <==> !(json_get(j, name) matches Some(Json::Int(i)) && 0 <= i
            <= u64::MAX),
        json_u64(j) == Some(n) <==> j == Json::Int(n as int),
        json_str(j) == (match j {
            Json::Str(s) => Some(s),
            _ => None,
        }),
{
}

/// What may be left out: a member is there if and only if there is a value for
/// it, and a value that is not there is null.
pub proof fn members_may_be_left_out(
    m: Map<Seq<char>, Json>,
    l: Seq<(Seq<char>, Json)>,
    name: Seq<char>,
    v: Json,
)
    ensures
        with_some(m, name, Some(v)) == m.insert(name, v),
        with_some(m, name, None) == m,
        push_some(l, name, Some(v)) == l.push((name, v)),
        push_some(l, name, None) == l,
        or_null(Some(v)) == v,
        or_null(None) == Json::Null,
{
}

/// An array of texts has these, in order.
pub proof fn arrays_of_texts(list: Seq<Seq<char>>)
    ensures
        json_texts(list) matches Json::Array(a) && a.len() == list.len() && forall|i: int|
            0 <= i < a.len() ==> #[trigger] a[i] == Json::Str(list[i]),
{
}

/// What is plain enough to be read back: everything but fractions, in up to as
/// many arrays and objects inside one another.
pub proof fn plain_documents(
    b: bool,
    n: int,
    s: Seq<char>,
    a: Seq<Json>,
    m: Map<Seq<char>, Json>,
    depth: nat,
)
    ensures
        deepest() == 127,
        is_plain(Json::Null, depth) && is_plain(Json::Bool(b), depth) && is_plain(
            Json::Int(n),
            depth,
        ) && is_plain(Json::Str(s), depth) && !is_plain(Json::Float(s), depth),
        is_plain(Json::Array(a), depth + 1) <==> forall|i: int|
            0 <= i < a.len() ==> is_plain(#[trigger] a[i], depth),
        is_plain(Json::Object(m), depth + 1) <==> forall|k: Seq<char>| #[trigger]
            m.contains_key(k) ==> is_plain(m[k], depth),
        !is_plain(Json::Array(a), 0) && !is_plain(Json::Object(m), 0),
{
    let ja = Json::Array(a);
    let jm = Json::Object(m);
    let d: nat = (depth + 1) as nat;
    assert((d - 1) as nat == depth);
    if is_plain(ja, d) {
        assert(ja->Array_0 == a);
        assert(forall|i: int| 0 <= i < a.len() ==> is_plain(#[trigger] a[i], (d - 1) as nat));
    }
    if forall|i: int| 0 <= i < a.len() ==> is_plain(#[trigger] a[i], depth) {
        assert(forall|i: int| 0 <= i < a.len() ==> is_plain(#[trigger] a[i], (d - 1) as nat));
        assert(is_plain(ja, d));
    }
    if is_plain(jm, d) {
        assert(jm->Object_0 == m);
        assert(forall|k: Seq<char>| #[trigger]
            m.contains_key(k) ==> is_plain(m[k], (d - 1) as nat));
    }
    if forall|k: Seq<char>| #[trigger] m.contains_key(k) ==> is_plain(m[k], depth) {
        assert(forall|k: Seq<char>| #[trigger]
            m.contains_key(k) ==> is_plain(m[k], (d - 1) as nat));
        assert(is_plain(jm, d));
    }
}

/// What optional values hold.
pub proof fn optional_values_hold(v: JsonValue)
    ensures
        held(Some(v)) == Some(v@),
        held(None) is None,
        seen(Some(&v)) == Some(v@),
        seen(None) is None,
{
}

/// Values that are made stand for what they are made of.
pub proof fn values_are_made(
    s: &str,
    a: JsonValue,
    n: u64,
    b: JsonValue,
    i: i64,
    c: JsonValue,
    v: Option<JsonValue>,
    d: JsonValue,
    list: &Vec<String>,
    e: JsonValue,
)
    requires
        call_ensures(JsonValue::text, (s,), a),
        call_ensures(JsonValue::unsigned, (n,), b),
        call_ensures(JsonValue::signed, (i,), c),
        call_ensures(JsonValue::nullable, (v,), d),
        call_ensures(JsonValue::texts, (list,), e),
    ensures
        a@ == Json::Str(s@),
        b@ == Json::Int(n as int),
        c@ == Json::Int(i as int),
        v matches Some(w) ==> d@ == w@,
        v is None ==> d@ == Json::Null,
        e@ matches Json::Array(l) && l.len() == list@.len() && forall|k: int|
            0 <= k < l.len() ==> #[trigger] l[k] == Json::Str(list@[k]@),
{
    arrays_of_texts(text::texts(list@));
}

/// Values are looked into by name, and read as texts and as numbers.
pub proof fn values_are_looked_into(
    v: &JsonValue,
    name: &str,
    a: Option<&JsonValue>,
    b: Option<&str>,
    c: Option<u64>,
    d: Option<&str>,
    e: Option<u64>,
)
    requires
        call_ensures(JsonValue::get, (v, name), a),
        call_ensures(JsonValue::as_str, (v,), b),
        call_ensures(JsonValue::as_u64, (v,), c),
        call_ensures(JsonValue::get_str, (v, name), d),
        call_ensures(JsonValue::get_u64, (v, name), e),
    ensures
        a is Some <==> v@ is Object && v@->Object_0.contains_key(name@),
        a matches Some(w) ==> w@ == v@->Object_0[name@],
        b is Some <==> v@ is Str,
        b matches Some(s) ==> v@ == Json::Str(s@),
        c is Some <==> (v@ matches Json::Int(n) && 0 <= n <= u64::MAX),
        c matches Some(n) ==> v@ == Json::Int(n as int),
        d is Some <==> a is Some && a->0@ is Str,
        d matches Some(s) ==> a->0@ == Json::Str(s@),
        e is Some <==> a is Some && (a->0@ matches Json::Int(n) && 0 <= n <= u64::MAX),
        e matches Some(n) ==> a->0@ == Json::Int(n as int),
{
}

/// A text that is read, and written, is that of the document; a document that
/// is plain enough is read from its text.
pub proof fn documents_are_read_and_written(
    s: &str,
    r: Option<JsonValue>,
    v: &JsonValue,
    t: String,
)
    requires
        call_ensures(JsonValue::parse, (s,), r),
        call_ensures(JsonValue::to_text, (v,), t),
    ensures
        held(r) == json_of_text(s@),
        t@ == text_of_json(v@),
        is_plain(v@, 127) && s@ == t@ ==> (r matches Some(w) && w@ == v@),
{
}

/// An object that is built has the members that it was given, in order, and of
/// two with one name the later counts.
pub proof fn objects_are_built(
    n: ObjectBuilder,
    o: &mut ObjectBuilder,
    name: &str,
    value: JsonValue,
    p: &mut ObjectBuilder,
    maybe: Option<JsonValue>,
    done: ObjectBuilder,
    v: JsonValue,
    t: String,
)
    requires
        call_ensures(ObjectBuilder::new, (), n),
        call_ensures(ObjectBuilder::put, (o, name, value), ()),
        call_ensures(ObjectBuilder::put_some, (p, name, maybe), ()),
        call_ensures(ObjectBuilder::build, (done,), v),
        call_ensures(ObjectBuilder::text, (done,), t),
    ensures
        n.list().len() == 0,
        n@ == Map::<Seq<char>, Json>::empty(),
        final(o)@ == old(o)@.insert(name@, value@),
        final(o).list() == old(o).list().push((name@, value@)),
        maybe matches Some(w) ==> final(p)@ == old(p)@.insert(name@, w@) && final(p).list() == old(
            p,
        ).list().push((name@, w@)),
        maybe is None ==> final(p)@ == old(p)@ && final(p).list() == old(p).list(),
        v@ == Json::Object(done@),
        t@ == text_of_members(done.list()),
{
}

/// Members are plain enough if each of them is, one level further in.
pub proof fn plain_members_are_plain(m: Seq<(Seq<char>, Json)>)
    ensures
        plain_members(m) <==> forall|i: int| 0 <= i < m.len() ==> is_plain((#[trigger] m[i]).1, 126),
{
}

} // verus!
