//! The case tag carried by every letter.

use vstd::prelude::*;

verus! {

/// A type representing a letter case.
#[derive(Debug, PartialEq, Eq, Clone, Copy, Hash, Structural)]
pub enum LetterCase {
    /// Lower case letter (e.g. 'a', 'b')
    Lowercase,
    /// Upper case letter (e.g. 'A', 'B')
    Uppercase,
}

impl Default for LetterCase {
    /// The default case is lowercase.
    fn default() -> (r: Self)
        ensures
            r == LetterCase::Lowercase,
    {
        LetterCase::Lowercase
    }
}

} // verus!
