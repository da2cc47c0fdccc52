use alphabetic::AlphabeticLetter;
use alphabetic::LetterCase;
use alphabetic::NotAlphabeticError;
use alphabetic::ALPHABET_SIZE;

#[test]
fn from_u8_lowercase() {
    let char_a = AlphabeticLetter::try_from_byte(b'a').unwrap();
    let char_z = AlphabeticLetter::try_from_byte(b'z').unwrap();
    assert_eq!(char_a.index(), 0);
    assert_eq!(char_a.case(), LetterCase::Lowercase);
    assert_eq!(char_z.index(), 25);
    assert_eq!(char_a.case(), LetterCase::Lowercase);
}

#[test]
fn from_u8_uppercase() {
    let char_a = AlphabeticLetter::try_from_byte(b'A').unwrap();
    let char_z = AlphabeticLetter::try_from_byte(b'Z').unwrap();
    assert_eq!(char_a.index(), 0);
    assert_eq!(char_a.case(), LetterCase::Uppercase);
    assert_eq!(char_z.index(), 25);
    assert_eq!(char_a.case(), LetterCase::Uppercase);
}

#[test]
fn into_u8() {
    let char_a = AlphabeticLetter::from_index(0, LetterCase::Lowercase);
    let char_z = AlphabeticLetter::from_index(25, LetterCase::Uppercase);
    assert_eq!(char_a.to_byte(), b'a');
    assert_eq!(char_z.to_byte(), b'Z');
}

#[test]
fn from_char() {
    let char_b = AlphabeticLetter::try_from_char('b').unwrap();
    let char_c = AlphabeticLetter::try_from_char('C').unwrap();
    assert_eq!(char_b.index(), 1);
    assert_eq!(char_b.case(), LetterCase::Lowercase);
    assert_eq!(char_c.index(), 2);
    assert_eq!(char_c.case(), LetterCase::Uppercase);
}

#[test]
fn into_char() {
    let char_z = AlphabeticLetter::from_index(25, LetterCase::Lowercase);
    let char_x = AlphabeticLetter::from_index(23, LetterCase::Uppercase);
    assert_eq!(char_z.to_char(), 'z');
    assert_eq!(char_x.to_char(), 'X');
}

#[test]
fn same_char_lowercase() {
    let letter = AlphabeticLetter::try_from_char('r').unwrap();
    assert_eq!(letter.to_char(), 'r');
}

#[test]
fn same_char_uppercase() {
    let letter = AlphabeticLetter::try_from_char('R').unwrap();
    assert_eq!(letter.to_char(), 'R');
}

#[test]
fn display() {
    let letter = AlphabeticLetter::try_from_char('B').unwrap();
    assert_eq!(letter.to_display_string(), "B");
}

#[test]
fn empty_string() {
    let vector = AlphabeticLetter::from_string("").unwrap();
    assert_eq!(vector.len(), 0);
}

#[test]
fn round_trip_every_ascii_letter() {
    for b in 0u8..=255u8 {
        let is_letter = b.is_ascii_alphabetic();
        let from_byte = AlphabeticLetter::try_from_byte(b);
        assert_eq!(from_byte.is_ok(), is_letter);
        if let Ok(letter) = from_byte {
            assert_eq!(letter.to_byte(), b);
        }
        let c = b as char;
        let from_char = AlphabeticLetter::try_from_char(c);
        assert_eq!(from_char.is_ok(), is_letter);
        if let Ok(letter) = from_char {
            assert_eq!(letter.to_char(), c);
        }
    }
}

#[test]
fn position_always_in_range() {
    for b in 0u8..=255u8 {
        if let Ok(mut letter) = AlphabeticLetter::try_from_byte(b) {
            assert!(letter.index() < ALPHABET_SIZE);
            letter.shift(-12345);
            assert!(letter.index() < ALPHABET_SIZE);
        }
    }
}

#[test]
fn shift_preserves_case() {
    let mut lower = AlphabeticLetter::try_from_char('q').unwrap();
    let mut upper = AlphabeticLetter::try_from_char('Q').unwrap();
    lower.shift(40);
    upper.shift(-40);
    assert_eq!(lower.case(), LetterCase::Lowercase);
    assert_eq!(upper.case(), LetterCase::Uppercase);
}

#[test]
fn shift_wraps_forward() {
    let mut letter_a = AlphabeticLetter::try_from_char('A').unwrap();
    assert_eq!(letter_a.shift(5).to_char(), 'F');
    let mut letter_z = AlphabeticLetter::try_from_char('z').unwrap();
    assert_eq!(letter_z.shift(2).to_char(), 'b');
}

#[test]
fn shift_wraps_backward() {
    let mut letter_o = AlphabeticLetter::try_from_char('o').unwrap();
    assert_eq!(letter_o.shift(-3).to_char(), 'l');
}

#[test]
fn shift_complement_returns_to_origin() {
    for amount in [0i32, 5, 26, 30, -3, -40, -1000000] {
        let mut letter = AlphabeticLetter::try_from_char('k').unwrap();
        letter.shift(amount);
        letter.shift(26 - amount.rem_euclid(26));
        assert_eq!(letter.to_char(), 'k');
    }
}

#[test]
fn shift_period_is_alphabet_size() {
    for amount in [0i32, 7, -7, 100, -100] {
        let mut one = AlphabeticLetter::try_from_char('h').unwrap();
        let mut other = AlphabeticLetter::try_from_char('h').unwrap();
        one.shift(amount);
        other.shift(amount + 26);
        assert_eq!(one.to_char(), other.to_char());
        assert_eq!(one.case(), other.case());
    }
}

#[test]
fn shift_extreme_amounts() {
    let mut letter = AlphabeticLetter::try_from_char('a').unwrap();
    letter.shift(i32::MIN);
    assert_eq!(letter.to_char(), 'c');
    let mut letter = AlphabeticLetter::try_from_char('a').unwrap();
    letter.shift(i32::MAX);
    assert_eq!(letter.to_char(), 'x');
}

#[test]
fn rejects_non_letters() {
    assert_eq!(AlphabeticLetter::try_from_char('5'), Err(NotAlphabeticError));
    assert_eq!(AlphabeticLetter::try_from_char(' '), Err(NotAlphabeticError));
    assert_eq!(AlphabeticLetter::try_from_char('@'), Err(NotAlphabeticError));
    assert_eq!(AlphabeticLetter::try_from_char('\u{e9}'), Err(NotAlphabeticError));
    assert_eq!(AlphabeticLetter::try_from_byte(b'5'), Err(NotAlphabeticError));
    assert_eq!(AlphabeticLetter::try_from_byte(b' '), Err(NotAlphabeticError));
    assert_eq!(AlphabeticLetter::try_from_byte(b'@'), Err(NotAlphabeticError));
}

#[test]
fn batch_conversion_succeeds_in_order() {
    let vector = AlphabeticLetter::from_string("Hi").unwrap();
    assert_eq!(vector.len(), 2);
    assert_eq!(vector[0].index(), 7);
    assert_eq!(vector[0].case(), LetterCase::Uppercase);
    assert_eq!(vector[1].index(), 8);
    assert_eq!(vector[1].case(), LetterCase::Lowercase);
}

#[test]
fn batch_conversion_fails_atomically() {
    assert_eq!(AlphabeticLetter::from_string("H1"), Err(NotAlphabeticError));
}

#[test]
fn shift_first_letter_of_string() {
    let mut vector = AlphabeticLetter::from_string("Rust").unwrap();
    vector.first_mut().unwrap().shift(-5);
    let new_string = vector.iter().map(|l| l.to_char()).collect::<String>();
    assert_eq!(new_string, "Must");
}

#[test]
fn default_values() {
    assert_eq!(LetterCase::default(), LetterCase::Lowercase);
    let letter = AlphabeticLetter::default();
    assert_eq!(letter.index(), 0);
    assert_eq!(letter.case(), LetterCase::Lowercase);
    assert_eq!(NotAlphabeticError::default(), NotAlphabeticError);
}

#[test]
fn error_message() {
    let error = NotAlphabeticError;
    assert_eq!(error.message(), "invalid parameter (doesn't represent ASCII letter characters)");
}

#[test]
fn from_index_round_trip() {
    for index in 0u8..26u8 {
        let lower = AlphabeticLetter::from_index(index, LetterCase::Lowercase);
        assert_eq!(lower.index(), index);
        assert_eq!(lower.to_byte(), b'a' + index);
        let upper = AlphabeticLetter::from_index(index, LetterCase::Uppercase);
        assert_eq!(upper.index(), index);
        assert_eq!(upper.to_byte(), b'A' + index);
    }
}
