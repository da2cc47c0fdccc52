//! A small value-type library modeling a single letter of the Latin-script
//! alphabet: its position in the alphabet, its case, and a wrap-around shift
//! operation in the style of a rotation cipher.

mod alphabetic;
mod enums;
mod error;

pub use crate::alphabetic::byte_of;
pub use crate::alphabetic::case_base;
pub use crate::alphabetic::char_of;
pub use crate::alphabetic::is_ascii_letter_byte;
pub use crate::alphabetic::is_ascii_letter_char;
pub use crate::alphabetic::is_lower_byte;
pub use crate::alphabetic::is_lower_char;
pub use crate::alphabetic::is_upper_byte;
pub use crate::alphabetic::is_upper_char;
pub use crate::alphabetic::lemma_byte_round_trip;
pub use crate::alphabetic::lemma_char_round_trip;
pub use crate::alphabetic::lemma_shift_complement;
pub use crate::alphabetic::lemma_shift_period;
pub use crate::alphabetic::letter_case_of_byte;
pub use crate::alphabetic::letter_case_of_char;
pub use crate::alphabetic::letter_index_of_byte;
pub use crate::alphabetic::letter_index_of_char;
pub use crate::alphabetic::shifted_position;
pub use crate::alphabetic::AlphabeticLetter;
pub use crate::alphabetic::ALPHABET_SIZE;
pub use crate::enums::LetterCase;
pub use crate::error::NotAlphabeticError;
