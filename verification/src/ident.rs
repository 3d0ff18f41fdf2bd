//! Unique identifiers.

use vstd::prelude::*;

verus! {

/// Whether a character is a lower-case hexadecimal digit.
pub open spec fn is_hex(c: char) -> bool {
    ('0' <= c && c <= '9') || ('a' <= c && c <= 'f')
}

/// Whether a text is a random UUID in its usual notation: groups of eight,
/// four, four, four and twelve lower-case hexadecimal digits with hyphens
/// between them, of which the third group begins with the version and the
/// fourth with the variant.
pub open spec fn is_uuid(s: Seq<char>) -> bool {
    &&& s.len() == 36
    &&& forall|i: int|
        0 <= i < 36 ==> if i == 8 || i == 13 || i == 18 || i == 23 {
            #[trigger] s[i] == '-'
        } else {
            is_hex(s[i])
        }
    &&& s[14] == '4'
    &&& (s[19] == '8' || s[19] == '9' || s[19] == 'a' || s[19] == 'b')
}

/// A new identifier, from `uuid::Uuid::new_v4` and the `to_string` of what it
/// returns. Which one it is is left to chance; what holds of every outcome is
/// its notation. The call panics where the operating system has no random
/// numbers to give.
#[verifier::external_body]
pub(crate) fn fresh_id() -> (r: String)
    ensures
        is_uuid(r@),
{
    uuid::Uuid::new_v4().to_string()
}

/// A UUID is written in thirty-six characters, hyphens at four places and
/// lower-case hexadecimal digits at the others, of which one tells that it is
/// random.
pub proof fn uuids_are_written(s: Seq<char>, i: int)
    requires
        is_uuid(s),
        0 <= i < s.len(),
    ensures
        s.len() == 36,
        s[i] == '-' <==> i == 8 || i == 13 || i == 18 || i == 23,
        s[i] != '-' ==> ('0' <= s[i] && s[i] <= '9') || ('a' <= s[i] && s[i] <= 'f'),
        s[14] == '4',
{
}

} // verus!
