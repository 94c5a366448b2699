use vstd::prelude::*;

verus! {

/// Whether `c` is one of the sixteen lower-case hexadecimal digits.
pub open spec fn is_lower_hex_digit(c: char) -> bool {
    ('0' <= c && c <= '9') || ('a' <= c && c <= 'f')
}

/// Whether `text` has the shape of a random (version 4) UUID in its usual
/// hyphenated lower-case form: thirty-six characters, hyphens after the
/// eighth, twelfth, sixteenth and twentieth digit, and `4` as the thirteenth
/// digit.
pub open spec fn is_random_uuid(text: Seq<char>) -> bool {
    &&& text.len() == 36
    &&& forall|i: int|
        0 <= i < 36 ==> if i == 8 || i == 13 || i == 18 || i == 23 {
            (#[trigger] text[i]) == '-'
        } else {
            is_lower_hex_digit(text[i])
        }
    &&& text[14] == '4'
}

/// Draws a fresh identity.
///
/// Calls `uuid::Uuid::new_v4` and renders the result with `to_string`. The
/// UUID comes from the operating system's random numbers, so nothing is
/// claimed about which one it is: only that it is rendered as every version 4
/// UUID is, hyphenated and in lower case. Where the operating system cannot
/// supply random numbers at all, `new_v4` panics and this function does not
/// return.
#[verifier::external_body]
pub(crate) fn fresh_identity() -> (text: String)
    ensures
        is_random_uuid(text@),
{
    uuid::Uuid::new_v4().to_string()
}

} // verus!
