use vstd::prelude::*;
use crate::error::ValidationErrorKind;

verus! {

/// Whether `value` holds at least `min` characters.
///
/// Calls `validator::validate_length` with only the lower bound set. That
/// function counts the characters of a string slice (not its bytes) and
/// answers `false` exactly when the count is below the bound.
#[verifier::external_body]
pub(crate) fn has_min_length(value: &str, min: u64) -> (ok: bool)
    ensures
        ok == (value@.len() >= min),
{
    validator::validate_length(value, Some(min), None, None)
}

/// The verdict on a raw value that must hold at least `min` characters.
pub open spec fn check_length_spec(value: Seq<char>, min: nat) -> Option<ValidationErrorKind> {
    if value.len() >= min {
        None
    } else if value.len() == 0 {
        Some(ValidationErrorKind::EmptyValue)
    } else {
        Some(ValidationErrorKind::TooShort)
    }
}

/// A value passes exactly when it holds at least `min` characters. One that
/// does not pass is reported as empty exactly when it holds no character, and
/// as too short otherwise.
pub proof fn law_length_decides(value: Seq<char>, min: nat)
    ensures
        check_length_spec(value, min) is None <==> value.len() >= min,
        check_length_spec(value, min) == Some(ValidationErrorKind::EmptyValue) <==> value.len()
            == 0 && min > 0,
        check_length_spec(value, min) == Some(ValidationErrorKind::TooShort) <==> 0 < value.len()
            < min,
{
}

/// Checks that `value` holds at least `min` characters and says, if it does
/// not, whether it is empty or merely too short.
pub fn check_length(value: &str, min: u64) -> (verdict: Option<ValidationErrorKind>)
    ensures
        verdict == check_length_spec(value@, min as nat),
{
    if has_min_length(value, min) {
        None
    } else if value.is_empty() {
        Some(ValidationErrorKind::EmptyValue)
    } else {
        Some(ValidationErrorKind::TooShort)
    }
}

} // verus!
