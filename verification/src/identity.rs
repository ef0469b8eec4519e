//! Fresh identities.

use vstd::prelude::*;

verus! {

/// A lower-case hexadecimal digit.
pub open spec fn is_hex(c: char) -> bool {
    ('0' <= c && c <= '9') || ('a' <= c && c <= 'f')
}

/// The text of a random UUID: 36 characters, hexadecimal but for four hyphens, with the
/// version and the variant that random ones have.
pub open spec fn is_identifier(text: Seq<char>) -> bool {
    &&& text.len() == 36
    &&& forall|i: int|
        0 <= i < 36 ==> if i == 8 || i == 13 || i == 18 || i == 23 {
            #[trigger] text[i] == '-'
        } else {
            is_hex(text[i])
        }
    &&& text[14] == '4'
    &&& text[19] == '8' || text[19] == '9' || text[19] == 'a' || text[19] == 'b'
}

/// `uuid::Uuid::new_v4`, written by its `Display`: lower-case hexadecimal digits in groups
/// of 8, 4, 4, 4 and 12 with hyphens between them, of version 4 and of the variant of
/// RFC 4122. Which one it is rests on chance; that no two are the same is not claimed, nor
/// that the system always has random bytes, without which the call panics.
#[verifier::external_body]
pub(crate) fn fresh_identifier() -> (text: String)
    ensures
        is_identifier(text@),
{
    uuid::Uuid::new_v4().to_string()
}

} // verus!
