use vstd::prelude::*;

verus! {

/// `c` is a lowercase hexadecimal digit.
pub open spec fn is_lower_hex(c: char) -> bool {
    ('0' <= c && c <= '9') || ('a' <= c && c <= 'f')
}

/// `s` is a random (version 4) UUID in lowercase hyphenated form: 32 lowercase
/// hex digits in groups of 8-4-4-4-12, the version digit `4` opening the third
/// group and the variant digit (`8`, `9`, `a` or `b`) opening the fourth.
pub open spec fn is_uuid_v4_text(s: Seq<char>) -> bool {
    &&& s.len() == 36
    &&& forall|i: int|
        0 <= i < 36 ==> if i == 8 || i == 13 || i == 18 || i == 23 {
            #[trigger] s[i] == '-'
        } else {
            is_lower_hex(s[i])
        }
    &&& s[14] == '4'
    &&& (s[19] == '8' || s[19] == '9' || s[19] == 'a' || s[19] == 'b')
}

/// Draws a fresh random identifier for a new user, team or poll.
///
/// Trusted: calls `uuid::Uuid::new_v4` and renders it with `to_string`. The
/// value is random; the contract states only its shape, which the source fixes
/// for every outcome: `new_v4` sets the version and variant bits, and
/// `to_string` writes the lowercase hyphenated form.
#[verifier::external_body]
pub(crate) fn new_id() -> (id: String)
    ensures
        is_uuid_v4_text(id@),
{
    uuid::Uuid::new_v4().to_string()
}

} // verus!
