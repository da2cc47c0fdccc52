//! The core letter type: construction, validation, conversion and shifting.

use crate::enums::LetterCase;
use crate::error::NotAlphabeticError;
use vstd::prelude::*;
use vstd::string::StrSliceExecFns;

verus! {

/// Number of letters in the alphabet.
pub const ALPHABET_SIZE: u8 = 26;

/// True when the byte is the code of a lowercase ASCII letter.
pub open spec fn is_lower_byte(b: u8) -> bool {
    ('a' as u8) <= b <= ('z' as u8)
}

/// True when the byte is the code of an uppercase ASCII letter.
pub open spec fn is_upper_byte(b: u8) -> bool {
    ('A' as u8) <= b <= ('Z' as u8)
}

/// True when the byte is the code of an ASCII letter of either case.
pub open spec fn is_ascii_letter_byte(b: u8) -> bool {
    is_lower_byte(b) || is_upper_byte(b)
}

/// The code of the first letter of the alphabet in the given case.
pub open spec fn case_base(case: LetterCase) -> u8 {
    match case {
        LetterCase::Lowercase => 'a' as u8,
        LetterCase::Uppercase => 'A' as u8,
    }
}

/// The alphabet position encoded by the byte of an ASCII letter.
pub open spec fn letter_index_of_byte(b: u8) -> u8
    recommends
        is_ascii_letter_byte(b),
{
    if is_lower_byte(b) {
        (b - ('a' as u8)) as u8
    } else {
        (b - ('A' as u8)) as u8
    }
}

/// The case encoded by the byte of an ASCII letter.
pub open spec fn letter_case_of_byte(b: u8) -> LetterCase
    recommends
        is_ascii_letter_byte(b),
{
    if is_lower_byte(b) {
        LetterCase::Lowercase
    } else {
        LetterCase::Uppercase
    }
}

/// True when the character is a lowercase ASCII letter.
pub open spec fn is_lower_char(c: char) -> bool {
    ('a' as u32) <= (c as u32) <= ('z' as u32)
}

/// True when the character is an uppercase ASCII letter.
pub open spec fn is_upper_char(c: char) -> bool {
    ('A' as u32) <= (c as u32) <= ('Z' as u32)
}

/// True when the character is an ASCII letter of either case.
pub open spec fn is_ascii_letter_char(c: char) -> bool {
    is_lower_char(c) || is_upper_char(c)
}

/// The alphabet position encoded by an ASCII letter character.
pub open spec fn letter_index_of_char(c: char) -> u8
    recommends
        is_ascii_letter_char(c),
{
    if is_lower_char(c) {
        ((c as u32) - ('a' as u32)) as u8
    } else {
        ((c as u32) - ('A' as u32)) as u8
    }
}

/// The case encoded by an ASCII letter character.
pub open spec fn letter_case_of_char(c: char) -> LetterCase
    recommends
        is_ascii_letter_char(c),
{
    if is_lower_char(c) {
        LetterCase::Lowercase
    } else {
        LetterCase::Uppercase
    }
}

/// The character that renders a letter with the given position and case.
pub open spec fn char_of(index: u8, case: LetterCase) -> char
    recommends
        index < ALPHABET_SIZE,
{
    ((case_base(case) + index) as u8) as char
}

/// The byte that renders a letter with the given position and case.
pub open spec fn byte_of(index: u8, case: LetterCase) -> u8
    recommends
        index < ALPHABET_SIZE,
{
    (case_base(case) + index) as u8
}

/// The position reached from `p` by moving `amount` places through the
/// alphabet, wrapping around at either end: true mathematical modulo, always
/// in `[0, 25]` whatever the sign or magnitude of `amount`.
pub open spec fn shifted_position(p: int, amount: int) -> int {
    (p + amount) % (ALPHABET_SIZE as int)
}

/// A type representing a letter of Latin-script alphabet.
#[derive(Debug, PartialEq, Eq, Clone, Copy, Hash, Structural)]
pub struct AlphabeticLetter {
    index: u8,
    case: LetterCase,
}

impl AlphabeticLetter {
    /// The stored alphabet position, for use in contracts.
    pub closed spec fn spec_index(self) -> u8 {
        self.index
    }

    /// The stored case, for use in contracts.
    pub closed spec fn spec_case(self) -> LetterCase {
        self.case
    }

    /// The invariant of every observable letter: its position lies inside
    /// the alphabet.
    pub open spec fn wf(self) -> bool {
        self.spec_index() < ALPHABET_SIZE
    }

    /// Constructs a letter from a position in the alphabet and a letter case.
    /// The caller must supply a position inside the alphabet.
    #[must_use]
    pub fn from_index(index: u8, case: LetterCase) -> (r: Self)
        requires
            index < ALPHABET_SIZE,
        ensures
            r.wf(),
            r.spec_index() == index,
            r.spec_case() == case,
    {
        AlphabeticLetter { index, case }
    }

    /// Returns position in alphabet.
    #[must_use]
    pub fn index(&self) -> (r: u8)
        ensures
            r == self.spec_index(),
            self.wf() ==> r < ALPHABET_SIZE,
    {
        self.index
    }

    /// Returns the letter case.
    #[must_use]
    pub fn case(&self) -> (r: LetterCase)
        ensures
            r == self.spec_case(),
    {
        self.case
    }

    /// Constructs a letter from the byte of an ASCII letter; any other byte
    /// is rejected with [`NotAlphabeticError`].
    pub fn try_from_byte(value: u8) -> (r: Result<Self, NotAlphabeticError>)
        ensures
            match r {
                Ok(l) => {
                    &&& is_ascii_letter_byte(value)
                    &&& l.wf()
                    &&& l.spec_index() == letter_index_of_byte(value)
                    &&& l.spec_case() == letter_case_of_byte(value)
                },
                Err(e) => {
                    &&& !is_ascii_letter_byte(value)
                    &&& e == NotAlphabeticError
                },
            },
    {
        if ('a' as u8) <= value && value <= ('z' as u8) {
            Ok(AlphabeticLetter { index: value - ('a' as u8), case: LetterCase::Lowercase })
        } else if ('A' as u8) <= value && value <= ('Z' as u8) {
            Ok(AlphabeticLetter { index: value - ('A' as u8), case: LetterCase::Uppercase })
        } else {
            Err(NotAlphabeticError)
        }
    }

    /// Constructs a letter from every character of a string, in order. The
    /// conversion is atomic: the moment any character is not an ASCII
    /// letter, the whole conversion fails with [`NotAlphabeticError`] and no
    /// partial sequence is returned. An empty string yields an empty vector.
    pub fn from_string(input: &str) -> (r: Result<Vec<AlphabeticLetter>, NotAlphabeticError>)
        ensures
            match r {
                Ok(v) => {
                    &&& forall|i: int|
                        0 <= i < input@.len() ==> is_ascii_letter_char(#[trigger] input@[i])
                    &&& v@.len() == input@.len()
                    &&& forall|i: int|
                        0 <= i < v@.len() ==> {
                            &&& (#[trigger] v@[i]).wf()
                            &&& v@[i].spec_index() == letter_index_of_char(input@[i])
                            &&& v@[i].spec_case() == letter_case_of_char(input@[i])
                        }
                },
                Err(e) => {
                    &&& exists|i: int|
                        0 <= i < input@.len() && !is_ascii_letter_char(#[trigger] input@[i])
                    &&& e == NotAlphabeticError
                },
            },
    {
        let len: usize = input.unicode_len();
        let mut letters: Vec<AlphabeticLetter> = Vec::new();
        let mut i: usize = 0;
        while i < len
            invariant
                i <= len,
                len == input@.len(),
                letters@.len() == i,
                forall|j: int| 0 <= j < i ==> is_ascii_letter_char(#[trigger] input@[j]),
                forall|j: int|
                    0 <= j < i ==> {
                        &&& (#[trigger] letters@[j]).wf()
                        &&& letters@[j].spec_index() == letter_index_of_char(input@[j])
                        &&& letters@[j].spec_case() == letter_case_of_char(input@[j])
                    },
            decreases len - i,
        {
            let c = input.get_char(i);
            match AlphabeticLetter::try_from_char(c) {
                Ok(letter) => letters.push(letter),
                Err(e) => {
                    return Err(e);
                },
            }
            i += 1;
        }
        Ok(letters)
    }

    /// Shifts the letter by `amount` places forward (positive) or backward
    /// (negative) in the alphabet, wrapping around at either end. The case
    /// is never altered. Every amount is valid input; the letter is mutated
    /// in place and a reference to it is returned for chaining.
    pub fn shift(&mut self, amount: i32) -> (r: &Self)
        requires
            old(self).wf(),
        ensures
            final(self).wf(),
            final(self).spec_index() == shifted_position(
                old(self).spec_index() as int,
                amount as int,
            ),
            final(self).spec_case() == old(self).spec_case(),
            *r == *final(self),
    {
        let offset: i32 = match amount.checked_rem_euclid(ALPHABET_SIZE as i32) {
            Some(o) => o,
            None => 0,
        };
        let new_index: u8 = (self.index + (offset as u8)) % ALPHABET_SIZE;
        self.index = new_index;
        self
    }

    /// Constructs a letter from an ASCII letter character; any other
    /// character is rejected with [`NotAlphabeticError`].
    pub fn try_from_char(value: char) -> (r: Result<Self, NotAlphabeticError>)
        ensures
            match r {
                Ok(l) => {
                    &&& is_ascii_letter_char(value)
                    &&& l.wf()
                    &&& l.spec_index() == letter_index_of_char(value)
                    &&& l.spec_case() == letter_case_of_char(value)
                },
                Err(e) => {
                    &&& !is_ascii_letter_char(value)
                    &&& e == NotAlphabeticError
                },
            },
    {
        let code: u32 = value as u32;
        if ('a' as u32) <= code && code <= ('z' as u32) {
            Ok(
                AlphabeticLetter {
                    index: (code - ('a' as u32)) as u8,
                    case: LetterCase::Lowercase,
                },
            )
        } else if ('A' as u32) <= code && code <= ('Z' as u32) {
            Ok(
                AlphabeticLetter {
                    index: (code - ('A' as u32)) as u8,
                    case: LetterCase::Uppercase,
                },
            )
        } else {
            Err(NotAlphabeticError)
        }
    }

    /// The ASCII letter character that this letter renders as.
    #[must_use]
    pub fn to_char(self) -> (r: char)
        requires
            self.wf(),
        ensures
            r == char_of(self.spec_index(), self.spec_case()),
            is_ascii_letter_char(r),
            letter_index_of_char(r) == self.spec_index(),
            letter_case_of_char(r) == self.spec_case(),
    {
        let b: u8 = match self.case {
            LetterCase::Lowercase => self.index + ('a' as u8),
            LetterCase::Uppercase => self.index + ('A' as u8),
        };
        b as char
    }

    /// Renders the letter as a string of the single character it stands for.
    #[must_use]
    pub fn to_display_string(&self) -> (r: String)
        requires
            self.wf(),
        ensures
            r@ == seq![char_of(self.spec_index(), self.spec_case())],
    {
        char_to_string(self.to_char())
    }

    /// The byte of the ASCII letter that this letter renders as.
    #[must_use]
    pub fn to_byte(self) -> (r: u8)
        requires
            self.wf(),
        ensures
            r == byte_of(self.spec_index(), self.spec_case()),
            is_ascii_letter_byte(r),
            letter_index_of_byte(r) == self.spec_index(),
            letter_case_of_byte(r) == self.spec_case(),
    {
        match self.case {
            LetterCase::Lowercase => self.index + ('a' as u8),
            LetterCase::Uppercase => self.index + ('A' as u8),
        }
    }
}

impl Default for AlphabeticLetter {
    /// The default letter is the first of the alphabet in the default
    /// (lower) case.
    fn default() -> (r: Self)
        ensures
            r.wf(),
            r.spec_index() == 0,
            r.spec_case() == LetterCase::Lowercase,
    {
        AlphabeticLetter { index: 0, case: LetterCase::Lowercase }
    }
}

/// Relies on char::to_string: the string holding exactly the one character.
#[verifier::external_body]
fn char_to_string(c: char) -> (r: String)
    ensures
        r@ == seq![c],
{
    c.to_string()
}

/// Converting an ASCII letter byte to a letter and back returns the byte:
/// rendering the position and case read from the byte yields the byte again.
pub proof fn lemma_byte_round_trip(b: u8)
    requires
        is_ascii_letter_byte(b),
    ensures
        byte_of(letter_index_of_byte(b), letter_case_of_byte(b)) == b,
{
}

/// Converting an ASCII letter character to a letter and back returns the
/// character: rendering the position and case read from the character yields
/// the character again.
pub proof fn lemma_char_round_trip(c: char)
    requires
        is_ascii_letter_char(c),
    ensures
        char_of(letter_index_of_char(c), letter_case_of_char(c)) == c,
{
    vstd::utf8::char_u32_cast(c, c as u32);
}

/// Shifting forward and then back by the complement returns to the origin:
/// for every letter and every amount, a shift by `amount` followed by a
/// shift by `26 - (amount % 26)` restores the original position (and the
/// case is never touched by a shift at all).
pub proof fn lemma_shift_complement(l: AlphabeticLetter, amount: int)
    requires
        l.wf(),
    ensures
        shifted_position(
            shifted_position(l.spec_index() as int, amount),
            (ALPHABET_SIZE as int) - (amount % (ALPHABET_SIZE as int)),
        ) == l.spec_index(),
{
    let m: int = ALPHABET_SIZE as int;
    let p: int = l.spec_index() as int;
    let q: int = shifted_position(p, amount);
    vstd::arithmetic::div_mod::lemma_mod_add_multiples_vanish(q - amount % m, m);
    vstd::arithmetic::div_mod::lemma_sub_mod_noop(p + amount, amount, m);
    vstd::arithmetic::div_mod::lemma_small_mod(l.spec_index() as nat, ALPHABET_SIZE as nat);
}

/// A shift is periodic in the size of the alphabet: shifting by
/// `amount + 26` lands on the same position as shifting by `amount`, from
/// every starting position.
pub proof fn lemma_shift_period(p: int, amount: int)
    ensures
        shifted_position(p, amount + (ALPHABET_SIZE as int)) == shifted_position(p, amount),
{
    vstd::arithmetic::div_mod::lemma_mod_add_multiples_vanish(p + amount, ALPHABET_SIZE as int);
}

} // verus!
