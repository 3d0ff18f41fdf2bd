//! How records are laid out as JSON.
//!
//! A record is written as an object. It is read from an object, whose other
//! members are ignored, or from an array that lists its fields in order.

use crate::json;
use crate::json::{Json, JsonValue, Member, Number};
use crate::text;
use crate::text::same;
use vstd::prelude::*;

verus! {

/// Whether a document can hold a record of `n` fields: an object, or an array
/// that is not longer than the record.
pub open spec fn is_record(j: Json, n: nat) -> bool {
    match j {
        Json::Object(_) => true,
        Json::Array(a) => a.len() <= n,
        _ => false,
    }
}

/// Decides whether a value can hold a record of `n` fields.
pub fn record(v: &JsonValue, n: usize) -> (r: bool)
    ensures
        r == is_record(v@, n as nat),
{
    match v {
        JsonValue::Object(_) => true,
        JsonValue::Array(a) => {
            proof {
                json::array_length(a@);
            }
            a.len() <= n
        },
        _ => false,
    }
}

/// A field of a record: by its name in an object, by its place in an array.
pub open spec fn field(j: Json, place: int, name: Seq<char>) -> Option<Json> {
    match j {
        Json::Object(_) => json::json_get(j, name),
        Json::Array(a) => if 0 <= place < a.len() {
            Some(a[place])
        } else {
            None
        },
        _ => None,
    }
}

/// Finds a field of a record.
pub fn find<'a>(v: &'a JsonValue, place: usize, name: &str) -> (r: Option<&'a JsonValue>)
    ensures
        json::seen(r) == field(v@, place as int, name@),
{
    match v {
        JsonValue::Object(_) => v.get(name),
        JsonValue::Array(a) => {
            proof {
                json::array_length(a@);
            }
            if place < a.len() {
                proof {
                    json::array_element(a@, place as int);
                }
                Some(&a[place])
            } else {
                None
            }
        },
        _ => None,
    }
}

/// A text that must be there.
pub open spec fn text_field(j: Json, place: int, name: Seq<char>) -> Option<Seq<char>> {
    match field(j, place, name) {
        Some(v) => json::json_str(v),
        None => None,
    }
}

/// Reads a text that must be there.
pub fn find_text(v: &JsonValue, place: usize, name: &str) -> (r: Option<String>)
    ensures
        text::optional(r) == text_field(v@, place as int, name@),
{
    match find(v, place, name) {
        Some(f) => match f.as_str() {
            Some(s) => Some(s.to_owned()),
            None => None,
        },
        None => None,
    }
}

/// A text that is empty where it is not there.
pub open spec fn text_or_empty(j: Json, place: int, name: Seq<char>) -> Option<Seq<char>> {
    match field(j, place, name) {
        Some(v) => json::json_str(v),
        None => Some(Seq::empty()),
    }
}

/// Reads a text that is empty where it is not there.
pub fn find_text_or_empty(v: &JsonValue, place: usize, name: &str) -> (r: Option<String>)
    ensures
        text::optional(r) == text_or_empty(v@, place as int, name@),
{
    match find(v, place, name) {
        Some(f) => match f.as_str() {
            Some(s) => Some(s.to_owned()),
            None => None,
        },
        None => Some(String::new()),
    }
}

/// What a field that may be absent holds: `Some(None)` where it is null. Where
/// it is not there it counts as null, but in an array only if `trailing`.
pub open spec fn maybe_field(
    j: Json,
    place: int,
    name: Seq<char>,
    trailing: bool,
) -> Option<Option<Json>> {
    match field(j, place, name) {
        Some(Json::Null) => Some(None),
        Some(v) => Some(Some(v)),
        None => if j is Array && !trailing {
            None
        } else {
            Some(None)
        },
    }
}

/// What an optional reference stands for.
pub open spec fn seen_maybe(r: Option<Option<&JsonValue>>) -> Option<Option<Json>> {
    match r {
        Some(v) => Some(json::seen(v)),
        None => None,
    }
}

/// Finds a field that may be absent.
pub fn find_maybe<'a>(v: &'a JsonValue, place: usize, name: &str, trailing: bool) -> (r: Option<
    Option<&'a JsonValue>,
>)
    ensures
        seen_maybe(r) == maybe_field(v@, place as int, name@, trailing),
{
    match find(v, place, name) {
        Some(f) => match f {
            JsonValue::Null => Some(None),
            _ => Some(Some(f)),
        },
        None => match v {
            JsonValue::Array(_) => if trailing {
                Some(None)
            } else {
                None
            },
            _ => Some(None),
        },
    }
}

/// A text that may be absent.
pub open spec fn maybe_text(j: Json, place: int, name: Seq<char>, trailing: bool) -> Option<
    Option<Seq<char>>,
> {
    match maybe_field(j, place, name, trailing) {
        Some(Some(v)) => match json::json_str(v) {
            Some(s) => Some(Some(s)),
            None => None,
        },
        Some(None) => Some(None),
        None => None,
    }
}

/// What an optional text that may be absent holds.
pub open spec fn optional_maybe(r: Option<Option<String>>) -> Option<Option<Seq<char>>> {
    match r {
        Some(s) => Some(text::optional(s)),
        None => None,
    }
}

/// Reads a text that may be absent.
pub fn find_maybe_text(v: &JsonValue, place: usize, name: &str, trailing: bool) -> (r: Option<
    Option<String>,
>)
    ensures
        optional_maybe(r) == maybe_text(v@, place as int, name@, trailing),
{
    match find_maybe(v, place, name, trailing) {
        Some(Some(f)) => match f.as_str() {
            Some(s) => Some(Some(s.to_owned())),
            None => None,
        },
        Some(None) => Some(None),
        None => None,
    }
}

/// What an optional value that may be absent stands for.
pub open spec fn held_maybe(r: Option<Option<JsonValue>>) -> Option<Option<Json>> {
    match r {
        Some(v) => Some(json::held(v)),
        None => None,
    }
}

/// Reads a value that may be absent.
pub fn find_maybe_value(v: &JsonValue, place: usize, name: &str) -> (r: Option<Option<JsonValue>>)
    ensures
        held_maybe(r) == maybe_field(v@, place as int, name@, false),
{
    match find_maybe(v, place, name, false) {
        Some(Some(f)) => Some(Some(f.clone())),
        Some(None) => Some(None),
        None => None,
    }
}

/// A value that must be there.
pub fn find_value(v: &JsonValue, place: usize, name: &str) -> (r: Option<JsonValue>)
    ensures
        json::held(r) == field(v@, place as int, name@),
{
    match find(v, place, name) {
        Some(f) => Some(f.clone()),
        None => None,
    }
}

/// A value that is null where it is not there.
pub open spec fn value_or_null(j: Json, place: int, name: Seq<char>) -> Json {
    match field(j, place, name) {
        Some(v) => v,
        None => Json::Null,
    }
}

/// Reads a value that is null where it is not there.
pub fn find_value_or_null(v: &JsonValue, place: usize, name: &str) -> (r: JsonValue)
    ensures
        r@ == value_or_null(v@, place as int, name@),
{
    match find(v, place, name) {
        Some(f) => f.clone(),
        None => JsonValue::Null,
    }
}

/// A truth value that must be there.
pub open spec fn bool_field(j: Json, place: int, name: Seq<char>) -> Option<bool> {
    match field(j, place, name) {
        Some(Json::Bool(b)) => Some(b),
        _ => None,
    }
}

/// Reads a truth value that must be there.
pub fn find_bool(v: &JsonValue, place: usize, name: &str) -> (r: Option<bool>)
    ensures
        r == bool_field(v@, place as int, name@),
{
    match find(v, place, name) {
        Some(f) => match f {
            JsonValue::Bool(b) => Some(*b),
            _ => None,
        },
        None => None,
    }
}

/// A truth value that is false where it is not there.
pub open spec fn bool_or_false(j: Json, place: int, name: Seq<char>) -> Option<bool> {
    match field(j, place, name) {
        Some(_) => bool_field(j, place, name),
        None => Some(false),
    }
}

/// Reads a truth value that is false where it is not there.
pub fn find_bool_or_false(v: &JsonValue, place: usize, name: &str) -> (r: Option<bool>)
    ensures
        r == bool_or_false(v@, place as int, name@),
{
    match find(v, place, name) {
        Some(f) => match f {
            JsonValue::Bool(b) => Some(*b),
            _ => None,
        },
        None => Some(false),
    }
}

/// An unsigned integer of at most `max` that must be there.
pub open spec fn uint_field(j: Json, place: int, name: Seq<char>, max: u64) -> Option<u64> {
    match field(j, place, name) {
        Some(v) => match json::json_u64(v) {
            Some(n) => if n <= max {
                Some(n)
            } else {
                None
            },
            None => None,
        },
        None => None,
    }
}

/// Reads an unsigned integer of at most `max` that must be there.
pub fn find_uint(v: &JsonValue, place: usize, name: &str, max: u64) -> (r: Option<u64>)
    ensures
        r == uint_field(v@, place as int, name@, max),
{
    match find(v, place, name) {
        Some(f) => match f.as_u64() {
            Some(n) => if n <= max {
                Some(n)
            } else {
                None
            },
            None => None,
        },
        None => None,
    }
}

/// An unsigned integer of at most `max` that has a default where it is not there.
pub open spec fn uint_or(
    j: Json,
    place: int,
    name: Seq<char>,
    max: u64,
    default: u64,
) -> Option<u64> {
    match field(j, place, name) {
        Some(_) => uint_field(j, place, name, max),
        None => Some(default),
    }
}

/// Reads an unsigned integer that has a default where it is not there.
pub fn find_uint_or(v: &JsonValue, place: usize, name: &str, max: u64, default: u64) -> (r: Option<
    u64,
>)
    ensures
        r == uint_or(v@, place as int, name@, max, default),
{
    match find(v, place, name) {
        Some(_) => find_uint(v, place, name, max),
        None => Some(default),
    }
}

/// The value of an integer that fits `i32`.
pub open spec fn json_i32(j: Json) -> Option<i32> {
    match j {
        Json::Int(n) => if i32::MIN <= n <= i32::MAX {
            Some(n as i32)
        } else {
            None
        },
        _ => None,
    }
}

/// Reads an integer that fits `i32`.
pub fn read_i32(v: &JsonValue) -> (r: Option<i32>)
    ensures
        r == json_i32(v@),
{
    match v {
        JsonValue::Number(Number::Unsigned(n)) => if *n <= i32::MAX as u64 {
            Some(*n as i32)
        } else {
            None
        },
        JsonValue::Number(Number::Signed(n)) => if i32::MIN as i64 <= *n && *n
            <= i32::MAX as i64 {
            Some(*n as i32)
        } else {
            None
        },
        _ => None,
    }
}

/// An integer of 32 bits that may be absent.
pub open spec fn maybe_i32(j: Json, place: int, name: Seq<char>) -> Option<Option<i32>> {
    match maybe_field(j, place, name, false) {
        Some(Some(v)) => match json_i32(v) {
            Some(n) => Some(Some(n)),
            None => None,
        },
        Some(None) => Some(None),
        None => None,
    }
}

/// Reads an integer of 32 bits that may be absent.
pub fn find_maybe_i32(v: &JsonValue, place: usize, name: &str) -> (r: Option<Option<i32>>)
    ensures
        r == maybe_i32(v@, place as int, name@),
{
    match find_maybe(v, place, name, false) {
        Some(Some(f)) => match read_i32(f) {
            Some(n) => Some(Some(n)),
            None => None,
        },
        Some(None) => Some(None),
        None => None,
    }
}

/// What pairs of texts map to each other; of two pairs with one key the later counts.
pub open spec fn pairs(list: Seq<(String, String)>) -> Map<Seq<char>, Seq<char>>
    decreases list.len(),
{
    if list.len() == 0 {
        Map::empty()
    } else {
        pairs(list.drop_last()).insert(list.last().0@, list.last().1@)
    }
}

/// The object whose members are the given texts.
pub open spec fn pairs_json(m: Map<Seq<char>, Seq<char>>) -> Json {
    Json::Object(m.map_values(|s: Seq<char>| Json::Str(s)))
}

/// The texts that are the members of an object.
pub open spec fn pairs_of(j: Json) -> Option<Map<Seq<char>, Seq<char>>> {
    match j {
        Json::Object(m) => if forall|k: Seq<char>| #[trigger]
            m.contains_key(k) ==> m[k] is Str {
            Some(m.map_values(|e: Json| e->Str_0))
        } else {
            None
        },
        _ => None,
    }
}

/// Texts are read back from the object whose members they are.
pub proof fn pairs_are_read_back(m: Map<Seq<char>, Seq<char>>)
    ensures
        pairs_of(pairs_json(m)) == Some(m),
{
    assert(pairs_json(m)->Object_0.map_values(|e: Json| e->Str_0) =~= m);
}

/// The object whose members are the given texts.
pub fn pairs_value(list: &Vec<(String, String)>) -> (r: JsonValue)
    ensures
        r@ == pairs_json(pairs(list@)),
{
    let ghost wrap = |s: Seq<char>| Json::Str(s);
    let mut out = json::ObjectBuilder::new();
    assert(list@.take(0) =~= Seq::<(String, String)>::empty());
    assert(pairs(list@.take(0)).map_values(wrap) =~= Map::<Seq<char>, Json>::empty());
    for i in 0..list.len()
        invariant
            wrap == (|s: Seq<char>| Json::Str(s)),
            out@ == pairs(list@.take(i as int)).map_values(wrap),
    {
        let ghost before = pairs(list@.take(i as int));
        out.put(list[i].0.as_str(), JsonValue::String(list[i].1.clone()));
        proof {
            assert(list@.take(i + 1).drop_last() =~= list@.take(i as int));
            assert(before.insert(list@[i as int].0@, list@[i as int].1@).map_values(wrap)
                =~= before.map_values(wrap).insert(
                list@[i as int].0@,
                Json::Str(list@[i as int].1@),
            ));
        }
    }
    assert(list@.take(list@.len() as int) =~= list@);
    out.build()
}

/// What optional pairs of texts map to each other.
pub open spec fn optional_pairs(v: Option<Vec<(String, String)>>) -> Option<
    Map<Seq<char>, Seq<char>>,
> {
    match v {
        Some(list) => Some(pairs(list@)),
        None => None,
    }
}

/// Reads the texts that are the members of an object.
pub fn read_pairs(v: &JsonValue) -> (r: Option<Vec<(String, String)>>)
    ensures
        optional_pairs(r) == pairs_of(v@),
{
    match v {
        JsonValue::Object(list) => {
            let ghost m = json::object_json(list@);
            let mut out: Vec<(String, String)> = Vec::new();
            assert(list@.take(0) =~= Seq::<Member>::empty());
            assert(pairs(out@).dom() =~= json::object_json(list@.take(0)).dom());
            for i in 0..list.len()
                invariant
                    m == json::object_json(list@),
                    v@ == Json::Object(m),
                    pairs(out@).dom() == json::object_json(list@.take(i as int)).dom(),
                    forall|k: Seq<char>| #[trigger]
                        pairs(out@).contains_key(k) ==> m.contains_key(k) && m[k] == Json::Str(
                            pairs(out@)[k],
                        ),
            {
                proof {
                    member_is_held(list@, i as int);
                    assert(list@.take(i + 1).drop_last() =~= list@.take(i as int));
                }
                match v.get_str(list[i].name.as_str()) {
                    Some(s) => {
                        let ghost before = out@;
                        out.push((list[i].name.clone(), s.to_owned()));
                        proof {
                            assert(out@.drop_last() =~= before);
                            assert(pairs(out@).dom() =~= json::object_json(
                                list@.take(i + 1),
                            ).dom());
                        }
                    },
                    None => {
                        return None;
                    },
                }
            }
            proof {
                assert(list@.take(list@.len() as int) =~= list@);
                assert(m.map_values(|e: Json| e->Str_0) =~= pairs(out@));
            }
            Some(out)
        },
        _ => None,
    }
}

/// The texts of an array of strings.
pub open spec fn texts_of(j: Json) -> Option<Seq<Seq<char>>> {
    match j {
        Json::Array(a) => if forall|i: int| 0 <= i < a.len() ==> (#[trigger] a[i]) is Str {
            Some(a.map_values(|e: Json| e->Str_0))
        } else {
            None
        },
        _ => None,
    }
}

/// A list of texts is read back from its array.
pub proof fn texts_are_read_back(list: Seq<Seq<char>>)
    ensures
        texts_of(json::json_texts(list)) == Some(list),
{
    let a = json::json_texts(list)->Array_0;
    assert(a.map_values(|e: Json| e->Str_0) =~= list);
}

/// The contents of an optional list of texts.
pub open spec fn optional_texts(v: Option<Vec<String>>) -> Option<Seq<Seq<char>>> {
    match v {
        Some(list) => Some(text::texts(list@)),
        None => None,
    }
}

/// Reads an array of strings.
pub fn read_texts(v: &JsonValue) -> (r: Option<Vec<String>>)
    ensures
        optional_texts(r) == texts_of(v@),
{
    match v {
        JsonValue::Array(a) => {
            let ghost whole = json::array_json(a@);
            let mut out: Vec<String> = Vec::new();
            proof {
                json::array_length(a@);
            }
            for i in 0..a.len()
                invariant
                    whole == json::array_json(a@),
                    whole.len() == a@.len(),
                    v@ == Json::Array(whole),
                    out@.len() == i,
                    forall|k: int| 0 <= k < i ==> (#[trigger] whole[k]) == Json::Str(out@[k]@),
            {
                proof {
                    json::array_element(a@, i as int);
                }
                match a[i].as_str() {
                    Some(s) => {
                        out.push(s.to_owned());
                    },
                    None => {
                        assert(!(whole[i as int] is Str));
                        return None;
                    },
                }
            }
            assert(text::texts(out@) =~= whole.map_values(|e: Json| e->Str_0));
            Some(out)
        },
        _ => None,
    }
}

/// A list of texts that must be there.
pub open spec fn texts_field(j: Json, place: int, name: Seq<char>) -> Option<Seq<Seq<char>>> {
    match field(j, place, name) {
        Some(v) => texts_of(v),
        None => None,
    }
}

/// Reads a list of texts that must be there.
pub fn find_texts(v: &JsonValue, place: usize, name: &str) -> (r: Option<Vec<String>>)
    ensures
        optional_texts(r) == texts_field(v@, place as int, name@),
{
    match find(v, place, name) {
        Some(f) => read_texts(f),
        None => None,
    }
}

/// A list of texts that is empty where it is not there.
pub open spec fn texts_or_empty(j: Json, place: int, name: Seq<char>) -> Option<Seq<Seq<char>>> {
    match field(j, place, name) {
        Some(v) => texts_of(v),
        None => Some(Seq::empty()),
    }
}

/// Reads a list of texts that is empty where it is not there.
pub fn find_texts_or_empty(v: &JsonValue, place: usize, name: &str) -> (r: Option<Vec<String>>)
    ensures
        optional_texts(r) == texts_or_empty(v@, place as int, name@),
{
    match find(v, place, name) {
        Some(f) => read_texts(f),
        None => {
            let none: Vec<String> = Vec::new();
            assert(text::texts(none@) =~= Seq::<Seq<char>>::empty());
            Some(none)
        },
    }
}

/// Whether a document stands for the variant with the given name: it is the
/// name, or an object with that one member, which is null, or, where it lies
/// in a tagged frame, an empty object.
pub open spec fn is_variant(j: Json, name: Seq<char>, tagged: bool) -> bool {
    ||| j == Json::Str(name)
    ||| j == Json::Object(Map::empty().insert(name, Json::Null))
    ||| tagged && j == Json::Object(
        Map::empty().insert(name, Json::Object(Map::empty())),
    )
}

/// Each member of a list is held under its name.
pub proof fn member_is_held(m: Seq<Member>, i: int)
    requires
        0 <= i < m.len(),
    ensures
        json::object_json(m).contains_key(m[i].name@),
    decreases m.len(),
{
    if i < m.len() - 1 {
        assert(m.drop_last()[i] == m[i]);
        member_is_held(m.drop_last(), i);
    }
}

/// Each name that a list of members holds is the name of one of them.
pub proof fn held_is_member(m: Seq<Member>, name: Seq<char>)
    requires
        json::object_json(m).contains_key(name),
    ensures
        exists|i: int| 0 <= i < m.len() && (#[trigger] m[i]).name@ == name,
    decreases m.len(),
{
    if m.len() > 0 {
        if m[m.len() - 1].name@ != name {
            held_is_member(m.drop_last(), name);
            let i = choose|i: int|
                0 <= i < m.drop_last().len() && (#[trigger] m.drop_last()[i]).name@ == name;
            assert(m[i].name@ == name);
        }
    }
}

/// Decides whether a value stands for the variant with the given name.
pub fn variant(v: &JsonValue, name: &str, tagged: bool) -> (r: bool)
    ensures
        r == is_variant(v@, name@, tagged),
{
    match v {
        JsonValue::String(s) => same(s.as_str(), name),
        JsonValue::Object(list) => {
            let ghost m = json::object_json(list@);
            for i in 0..list.len()
                invariant
                    m == json::object_json(list@),
                    v@ == Json::Object(m),
                    forall|k: int| 0 <= k < i ==> (#[trigger] list@[k]).name@ == name@,
            {
                if !same(list[i].name.as_str(), name) {
                    proof {
                        member_is_held(list@, i as int);
                        let other = list@[i as int].name@;
                        assert(!Map::<Seq<char>, Json>::empty().insert(
                            name@,
                            Json::Null,
                        ).contains_key(other));
                        assert(!Map::<Seq<char>, Json>::empty().insert(
                            name@,
                            Json::Object(Map::empty()),
                        ).contains_key(other));
                    }
                    return false;
                }
            }
            proof {
                assert forall|k: Seq<char>| m.contains_key(k) implies k == name@ by {
                    held_is_member(list@, k);
                }
            }
            match v.get(name) {
                Some(inner) => {
                    assert(m =~= Map::empty().insert(name@, inner@));
                    proof {
                        let a = Map::<Seq<char>, Json>::empty().insert(name@, Json::Null);
                        let b = Map::<Seq<char>, Json>::empty().insert(
                            name@,
                            Json::Object(Map::empty()),
                        );
                        assert(a[name@] == Json::Null);
                        assert(b[name@] == Json::Object(Map::empty()));
                    }
                    match inner {
                        JsonValue::Null => true,
                        JsonValue::Object(inside) => {
                            proof {
                                if inside@.len() > 0 {
                                    member_is_held(inside@, 0);
                                    assert(!Map::<Seq<char>, Json>::empty().contains_key(
                                        inside@[0].name@,
                                    ));
                                }
                            }
                            tagged && inside.len() == 0
                        },
                        _ => false,
                    }
                },
                None => {
                    proof {
                        assert(Map::<Seq<char>, Json>::empty().insert(
                            name@,
                            Json::Null,
                        ).contains_key(name@));
                        assert(Map::<Seq<char>, Json>::empty().insert(
                            name@,
                            Json::Object(Map::empty()),
                        ).contains_key(name@));
                    }
                    false
                },
            }
        },
        _ => false,
    }
}

/// A record is an object, or an array that is not too long; a field of it is
/// the member with its name, or the item at its place.
pub proof fn fields_are_found(
    m: Map<Seq<char>, Json>,
    a: Seq<Json>,
    j: Json,
    n: nat,
    place: int,
    name: Seq<char>,
)
    ensures
        is_record(Json::Object(m), n),
        is_record(Json::Array(a), n) <==> a.len() <= n,
        !(j is Object) && !(j is Array) ==> !is_record(j, n) && field(j, place, name) is None,
        m.contains_key(name) ==> field(Json::Object(m), place, name) == Some(m[name]),
        !m.contains_key(name) ==> field(Json::Object(m), place, name) is None,
        0 <= place < a.len() ==> field(Json::Array(a), place, name) == Some(a[place]),
        !(0 <= place < a.len()) ==> field(Json::Array(a), place, name) is None,
{
}

/// How fields are read: a text, a truth value, a number, a list or any value,
/// with what counts where it is not there, and refused where it is something
/// else.
pub proof fn fields_are_read(
    j: Json,
    place: int,
    name: Seq<char>,
    max: u64,
    default: u64,
    trailing: bool,
)
    ensures
        text_field(j, place, name) == (match field(j, place, name) {
            Some(Json::Str(s)) => Some(s),
            _ => None,
        }),
        text_or_empty(j, place, name) == (match field(j, place, name) {
            Some(Json::Str(s)) => Some(s),
            Some(_) => None,
            None => Some(Seq::<char>::empty()),
        }),
        maybe_field(j, place, name, trailing) == (match field(j, place, name) {
            Some(v) => Some(
                if v == Json::Null {
                    None
                } else {
                    Some(v)
                },
            ),
            None => if j is Array && !trailing {
                None
            } else {
                Some(None)
            },
        }),
        maybe_text(j, place, name, trailing) == (match field(j, place, name) {
            Some(Json::Str(s)) => Some(Some(s)),
            Some(Json::Null) => Some(None),
            Some(_) => None,
            None => if j is Array && !trailing {
                None
            } else {
                Some(None)
            },
        }),
        value_or_null(j, place, name) == (match field(j, place, name) {
            Some(v) => v,
            None => Json::Null,
        }),
        bool_field(j, place, name) == (match field(j, place, name) {
            Some(Json::Bool(b)) => Some(b),
            _ => None,
        }),
        bool_or_false(j, place, name) == (match field(j, place, name) {
            Some(Json::Bool(b)) => Some(b),
            Some(_) => None,
            None => Some(false),
        }),
        uint_field(j, place, name, max) == (match field(j, place, name) {
            Some(Json::Int(n)) => if 0 <= n <= max {
                Some(n as u64)
            } else {
                None
            },
            _ => None,
        }),
        uint_or(j, place, name, max, default) == (match field(j, place, name) {
            Some(Json::Int(n)) => if 0 <= n <= max {
                Some(n as u64)
            } else {
                None
            },
            Some(_) => None,
            None => Some(default),
        }),
        maybe_i32(j, place, name) == (match field(j, place, name) {
            Some(Json::Int(n)) => if -2147483648 <= n <= 2147483647 {
                Some(Some(n as i32))
            } else {
                None
            },
            Some(Json::Null) => Some(None),
            Some(_) => None,
            None => if j is Array {
                None
            } else {
                Some(None)
            },
        }),
        texts_field(j, place, name) == (match field(j, place, name) {
            Some(l) => texts_of(l),
            None => None,
        }),
        texts_or_empty(j, place, name) == (match field(j, place, name) {
            Some(l) => texts_of(l),
            None => Some(Seq::<Seq<char>>::empty()),
        }),
{
}

/// A list of texts is read from an array of strings, item by item, and from
/// nothing else.
pub proof fn lists_of_texts_are_read(j: Json, list: Seq<Seq<char>>)
    ensures
        texts_of(j) == Some(list) <==> (j matches Json::Array(a) && a.len() == list.len()
            && forall|i: int| 0 <= i < a.len() ==> #[trigger] a[i] == Json::Str(list[i])),
{
    if texts_of(j) == Some(list) {
        let a = j->Array_0;
        assert forall|i: int| 0 <= i < a.len() implies #[trigger] a[i] == Json::Str(list[i]) by {
            assert(a.map_values(|e: Json| e->Str_0)[i] == a[i]->Str_0);
        }
    }
    if j matches Json::Array(a) && a.len() == list.len() && forall|i: int|
        0 <= i < a.len() ==> #[trigger] a[i] == Json::Str(list[i]) {
        let a = j->Array_0;
        assert forall|i: int| 0 <= i < a.len() implies (#[trigger] a[i]) is Str by {}
        assert(a.map_values(|e: Json| e->Str_0) =~= list);
    }
}

/// A map of texts is read from an object of strings, member by member, and from
/// nothing else.
pub proof fn maps_of_texts_are_read(j: Json, m: Map<Seq<char>, Seq<char>>)
    ensures
        pairs_of(j) == Some(m) <==> (j matches Json::Object(o) && o.dom() == m.dom() && forall|
            k: Seq<char>,
        |
            m.contains_key(k) ==> #[trigger] o[k] == Json::Str(m[k])),
{
    if pairs_of(j) == Some(m) {
        let o = j->Object_0;
        let t = o.map_values(|e: Json| e->Str_0);
        assert(t == m);
        assert(o.dom() =~= m.dom());
        assert forall|k: Seq<char>| m.contains_key(k) implies #[trigger] o[k] == Json::Str(m[k]) by {
            assert(o.contains_key(k));
            assert(t[k] == o[k]->Str_0);
        }
    }
    if j matches Json::Object(o) && o.dom() == m.dom() && forall|k: Seq<char>|
        m.contains_key(k) ==> #[trigger] o[k] == Json::Str(m[k]) {
        let o = j->Object_0;
        assert forall|k: Seq<char>| #[trigger] o.contains_key(k) implies o[k] is Str by {
            assert(m.dom().contains(k));
        }
        assert(o.map_values(|e: Json| e->Str_0) =~= m);
    }
}

/// Of two pairs with one key the later counts.
pub proof fn later_pairs_count(list: Seq<(String, String)>, p: (String, String), k: Seq<char>)
    ensures
        pairs(list.push(p)).contains_key(p.0@) && pairs(list.push(p))[p.0@] == p.1@,
        k != p.0@ ==> (pairs(list.push(p)).contains_key(k) <==> pairs(list).contains_key(k)) && (
        pairs(list).contains_key(k) ==> pairs(list.push(p))[k] == pairs(list)[k]),
        pairs(Seq::empty()) == Map::<Seq<char>, Seq<char>>::empty(),
{
    assert(list.push(p).drop_last() =~= list);
}

/// A map of texts is written as an object of strings.
pub proof fn maps_of_texts_are_written(m: Map<Seq<char>, Seq<char>>, k: Seq<char>)
    ensures
        pairs_json(m) matches Json::Object(o) && (o.contains_key(k) <==> m.contains_key(k)) && (
        m.contains_key(k) ==> o[k] == Json::Str(m[k])),
{
}

/// A variant is its name, or an object with that one member.
pub proof fn variants_are_names(j: Json, name: Seq<char>, tagged: bool)
    ensures
        is_variant(Json::Str(name), name, tagged),
        is_variant(j, name, tagged) ==> j == Json::Str(name) || j is Object,
        is_variant(j, name, tagged) && j is Object ==> forall|k: Seq<char>| #[trigger]
            j->Object_0.contains_key(k) <==> k == name,
        is_variant(j, name, false) && j is Object ==> j->Object_0[name] == Json::Null,
        j is Object && (forall|k: Seq<char>| #[trigger]
            j->Object_0.contains_key(k) <==> k == name) && j->Object_0[name] == Json::Null
            ==> is_variant(j, name, tagged),
{
    if j is Object && (forall|k: Seq<char>| #[trigger]
        j->Object_0.contains_key(k) <==> k == name) && j->Object_0[name] == Json::Null {
        assert(j->Object_0 =~= Map::empty().insert(name, Json::Null));
    }
}

/// What optional results hold.
pub proof fn optional_results_hold(s: Option<String>, v: Option<JsonValue>, l: Vec<String>)
    ensures
        optional_maybe(Some(s)) == Some(text::optional(s)),
        optional_maybe(None) is None,
        held_maybe(Some(v)) == Some(json::held(v)),
        held_maybe(None) is None,
        optional_texts(Some(l)) == Some(text::texts(l@)),
        optional_texts(None) is None,
        optional_pairs(None) is None,
        seen_maybe(None) is None,
{
}

/// An integer is read where it fits into 32 bits, with its sign, and from
/// nothing else.
pub proof fn integers_are_read(v: &JsonValue, r: Option<i32>)
    requires
        call_ensures(read_i32, (v,), r),
    ensures
        r is Some <==> (v@ matches Json::Int(n) && -2147483648 <= n <= 2147483647),
        r matches Some(n) ==> v@ == Json::Int(n as int),
{
}

/// What is found in a document is what its fields hold.
pub proof fn fields_are_found_in_values(
    v: &JsonValue,
    n: usize,
    place: usize,
    name: &str,
    a: bool,
    b: Option<&JsonValue>,
    c: Option<String>,
    d: Option<JsonValue>,
    e: JsonValue,
    f: Option<bool>,
    max: u64,
    g: Option<u64>,
)
    requires
        call_ensures(record, (v, n), a),
        call_ensures(find, (v, place, name), b),
        call_ensures(find_text, (v, place, name), c),
        call_ensures(find_value, (v, place, name), d),
        call_ensures(find_value_or_null, (v, place, name), e),
        call_ensures(find_bool, (v, place, name), f),
        call_ensures(find_uint, (v, place, name, max), g),
    ensures
        a <==> v@ is Object || (v@ matches Json::Array(l) && l.len() <= n),
        json::seen(b) == field(v@, place as int, name@),
        text::optional(c) == (match field(v@, place as int, name@) {
            Some(Json::Str(s)) => Some(s),
            _ => None,
        }),
        json::held(d) == field(v@, place as int, name@),
        e@ == (match field(v@, place as int, name@) {
            Some(w) => w,
            None => Json::Null,
        }),
        f == (match field(v@, place as int, name@) {
            Some(Json::Bool(t)) => Some(t),
            _ => None,
        }),
        g is Some <==> (field(v@, place as int, name@) matches Some(Json::Int(i)) && 0 <= i <= max),
        g matches Some(i) ==> field(v@, place as int, name@) == Some(Json::Int(i as int)),
{
    fields_are_read(v@, place as int, name@, max, 0, false);
}

/// Lists and maps of texts that are read are those of the document, and one
/// that is written holds its pairs.
pub proof fn collections_are_read(
    v: &JsonValue,
    a: Option<Vec<String>>,
    b: Option<Vec<(String, String)>>,
    list: &Vec<(String, String)>,
    w: JsonValue,
)
    requires
        call_ensures(read_texts, (v,), a),
        call_ensures(read_pairs, (v,), b),
        call_ensures(pairs_value, (list,), w),
    ensures
        a is Some <==> texts_of(v@) is Some,
        a matches Some(l) ==> texts_of(v@) == Some(text::texts(l@)),
        b is Some <==> pairs_of(v@) is Some,
        b matches Some(l) ==> pairs_of(v@) == Some(pairs(l@)),
        pairs_of(w@) == Some(pairs(list@)),
{
    let m = pairs(list@);
    let o = w@->Object_0;
    assert(o.dom() =~= m.dom());
    maps_of_texts_are_read(w@, m);
}

/// What optional references stand for.
pub proof fn optional_references_stand_for_values(v: JsonValue)
    ensures
        seen_maybe(Some(Some(&v))) == Some(Some(v@)),
        seen_maybe(Some(None)) == Some(None::<Json>),
{
}

/// A value that is a name is the variant with that name, and no other name is.
pub proof fn variants_are_recognised(v: &JsonValue, name: &str, tagged: bool, r: bool)
    requires
        call_ensures(variant, (v, name, tagged), r),
    ensures
        v@ matches Json::Str(s) ==> (r <==> s == name@),
        v@ is Object || v@ is Str || !r,
        v@ matches Json::Object(m) ==> r ==> m.contains_key(name@),
{
    variants_are_names(v@, name@, tagged);
}

} // verus!
