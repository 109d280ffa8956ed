//! Fresh identifiers.

use vstd::prelude::*;

verus! {

/// A digit of lower-case hexadecimal notation.
pub open spec fn is_lower_hex(c: char) -> bool {
    ('0' <= c && c <= '9') || ('a' <= c && c <= 'f')
}

/// The hyphenated lower-case text of a random (version 4) UUID: thirty-two hexadecimal digits
/// in groups of 8, 4, 4, 4 and 12, the third group starting with the version digit `4`, the
/// fourth with one of the variant digits `8`, `9`, `a`, `b`.
pub open spec fn is_random_uuid(text: Seq<char>) -> bool {
    &&& text.len() == 36
    &&& forall|i: int|
        0 <= i < 36 ==> if i == 8 || i == 13 || i == 18 || i == 23 {
            #[trigger] text[i] == '-'
        } else {
            is_lower_hex(text[i])
        }
    &&& text[14] == '4'
    &&& (text[19] == '8' || text[19] == '9' || text[19] == 'a' || text[19] == 'b')
}

/// Draws a random identifier: `uuid::Uuid::new_v4`, rendered by its `Display`.
///
/// Believed, not proved: the text has the shape of [`is_random_uuid`]. `new_v4` fixes the
/// version and variant bits of the 128 random bits, and `Display` writes the hyphenated
/// lower-case form. Nothing is claimed about which identifier comes out. The call panics
/// where the operating system yields no random bytes.
#[verifier::external_body]
pub(crate) fn fresh_uuid() -> (id: String)
    ensures
        is_random_uuid(id@),
{
    uuid::Uuid::new_v4().to_string()
}

} // verus!
