use owo_colors::dyn_colors::{hex_byte, hex_value};
use owo_colors::{AnsiColors, DynColors, ParseColorError};

#[test]
fn hex_descriptor_parses_to_rgb() {
    assert_eq!(DynColors::parse("#eb4034"), Ok(DynColors::Rgb(235, 64, 52)));
    assert_eq!(DynColors::parse("#000000"), Ok(DynColors::Rgb(0, 0, 0)));
    assert_eq!(DynColors::parse("#ffffff"), Ok(DynColors::Rgb(255, 255, 255)));
    assert_eq!(DynColors::parse("#FFFFFF"), Ok(DynColors::Rgb(255, 255, 255)));
    assert_eq!(DynColors::parse("#0aB1c9"), Ok(DynColors::Rgb(10, 177, 201)));
}

#[test]
fn short_hex_descriptor_fails() {
    assert_eq!(DynColors::parse("#fff"), Err(ParseColorError));
    assert!("#fff".parse::<DynColors>().is_err());
}

#[test]
fn unknown_name_parses_to_white() {
    assert_eq!(DynColors::parse("no such color"), Ok(DynColors::Ansi(AnsiColors::White)));
    assert_eq!(DynColors::parse("Red"), Ok(DynColors::Ansi(AnsiColors::White)));
    assert_eq!(DynColors::parse("bright_red"), Ok(DynColors::Ansi(AnsiColors::White)));
    assert_eq!(DynColors::parse("eb4034"), Ok(DynColors::Ansi(AnsiColors::White)));
    assert_eq!(DynColors::parse(" "), Ok(DynColors::Ansi(AnsiColors::White)));
}

#[test]
fn names_and_aliases_parse() {
    assert_eq!(DynColors::parse("purple"), Ok(DynColors::Ansi(AnsiColors::Magenta)));
    assert_eq!(DynColors::parse("magenta"), Ok(DynColors::Ansi(AnsiColors::Magenta)));
    assert_eq!(DynColors::parse("white"), Ok(DynColors::Ansi(AnsiColors::White)));
    assert_eq!(DynColors::parse("bright white"), Ok(DynColors::Ansi(AnsiColors::BrightWhite)));
    assert_eq!(DynColors::parse("bright black"), Ok(DynColors::Ansi(AnsiColors::BrightBlack)));
}

#[test]
fn malformed_descriptors_fail() {
    assert_eq!(DynColors::parse(""), Err(ParseColorError));
    assert_eq!(DynColors::parse("#"), Err(ParseColorError));
    assert_eq!(DynColors::parse("#12345"), Err(ParseColorError));
    assert_eq!(DynColors::parse("#1234567"), Err(ParseColorError));
    assert_eq!(DynColors::parse("#12345g"), Err(ParseColorError));
    assert_eq!(DynColors::parse("#g12345"), Err(ParseColorError));
    assert_eq!(DynColors::parse("#12 456"), Err(ParseColorError));
    assert_eq!(DynColors::parse("#+f+f+f"), Err(ParseColorError));
    assert_eq!(DynColors::parse("#1é234"), Err(ParseColorError));
    assert_eq!(DynColors::parse("#é12345"), Err(ParseColorError));
    assert_eq!(DynColors::parse("#ééé"), Err(ParseColorError));
    assert_eq!(DynColors::parse("#red"), Err(ParseColorError));
}

#[test]
fn hex_digits_have_their_values() {
    assert_eq!(hex_value('0'), Some(0));
    assert_eq!(hex_value('9'), Some(9));
    assert_eq!(hex_value('a'), Some(10));
    assert_eq!(hex_value('f'), Some(15));
    assert_eq!(hex_value('A'), Some(10));
    assert_eq!(hex_value('F'), Some(15));
    assert_eq!(hex_value('g'), None);
    assert_eq!(hex_value('G'), None);
    assert_eq!(hex_value('/'), None);
    assert_eq!(hex_value(':'), None);
    assert_eq!(hex_value('@'), None);
    assert_eq!(hex_value('`'), None);
    assert_eq!(hex_value('é'), None);
    assert_eq!(hex_byte('e', 'b'), Some(235));
    assert_eq!(hex_byte('0', '0'), Some(0));
    assert_eq!(hex_byte('f', 'F'), Some(255));
    assert_eq!(hex_byte('1', 'x'), None);
    assert_eq!(hex_byte('x', '1'), None);
}
