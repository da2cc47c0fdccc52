//! The error returned by conversions from raw characters or bytes.

use vstd::prelude::*;

verus! {

/// The error returned when a character, byte or string holds something that
/// is not an ASCII letter.
#[derive(Debug, PartialEq, Eq, Clone, Copy, Hash, Structural)]
pub struct NotAlphabeticError;

impl NotAlphabeticError {
    /// A human-readable description of the error.
    pub fn message(&self) -> (r: &'static str)
        ensures
            r@ == "invalid parameter (doesn't represent ASCII letter characters)"@,
    {
        "invalid parameter (doesn't represent ASCII letter characters)"
    }
}

impl Default for NotAlphabeticError {
    fn default() -> (r: Self)
        ensures
            r == NotAlphabeticError,
    {
        NotAlphabeticError
    }
}

} // verus!
