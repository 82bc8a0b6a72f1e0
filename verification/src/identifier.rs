//! Task identifiers: random UUIDs in their hyphenated text form.

use vstd::prelude::*;

verus! {

/// Whether `c` is a hexadecimal digit written with small letters.
pub open spec fn is_lower_hex(c: char) -> bool {
    '0' <= c <= '9' || 'a' <= c <= 'f'
}

/// Whether `s` has the shape of a random (version 4) UUID in hyphenated
/// form: 36 characters, hyphens after the 8th, 12th, 16th and 20th
/// hexadecimal digit, small letters, the version digit `4` and a variant
/// digit from `8` to `b`.
pub open spec fn is_random_uuid_text(s: Seq<char>) -> bool {
    &&& s.len() == 36
    &&& forall|i: int|
        0 <= i < 36 ==> if i == 8 || i == 13 || i == 18 || i == 23 {
            #[trigger] s[i] == '-'
        } else {
            is_lower_hex(s[i])
        }
    &&& s[14] == '4'
    &&& (s[19] == '8' || s[19] == '9' || s[19] == 'a' || s[19] == 'b')
}

/// Calls `Uuid::new_v4` of the `uuid` crate and formats the result with its
/// `Display` impl. The identifier is random, so nothing is claimed of it but
/// the shape that every version 4 UUID has in hyphenated form. The call
/// panics if the operating system cannot supply random bytes.
#[verifier::external_body]
pub(crate) fn fresh_identifier() -> (id: String)
    ensures
        is_random_uuid_text(id@),
{
    uuid::Uuid::new_v4().to_string()
}

} // verus!
