//! One type for every color that can be chosen at run time, and the
//! descriptors that spell such a color.

use crate::ansi::{
    decimal, lemma_decimal_injective, lemma_sgr_injective, push_decimal, push_separator, sgr,
};
use crate::colors::dynamic::{color_of_name, named_color, rgb_params};
use crate::colors::xterm::XtermColors;
use crate::colors::AnsiColors;
use crate::DynColor;
use vstd::prelude::*;
use vstd::string::StrSliceExecFns;

verus! {

/// A color of any of the three families: a named color, an entry of the
/// 256-color palette, or a 24-bit color.
#[derive(Copy, Clone, Debug, PartialEq, Eq, Structural)]
pub enum DynColors {
    Ansi(AnsiColors),
    Xterm(XtermColors),
    Rgb(u8, u8, u8),
}

impl DynColors {
    /// The parameters that select the color as the foreground.
    pub open spec fn fg_params(self) -> Seq<char> {
        match self {
            DynColors::Ansi(color) => decimal(color.fg_code()),
            DynColors::Xterm(color) => color.fg_params(),
            DynColors::Rgb(r, g, b) => rgb_params(38, r, g, b),
        }
    }

    /// The parameters that select the color as the background.
    pub open spec fn bg_params(self) -> Seq<char> {
        match self {
            DynColors::Ansi(color) => decimal(color.bg_code()),
            DynColors::Xterm(color) => color.bg_params(),
            DynColors::Rgb(r, g, b) => rgb_params(48, r, g, b),
        }
    }

    /// Appends the foreground parameters of the color.
    pub fn push_raw_fg(&self, out: &mut String)
        ensures
            final(out)@ == old(out)@ + self.fg_params(),
    {
        match self {
            DynColors::Ansi(color) => {
                push_decimal(out, color.fg_number());
            },
            DynColors::Xterm(color) => {
                let index = color.0;
                if index < 8 {
                    push_decimal(out, 30 + index);
                } else if index < 16 {
                    push_decimal(out, 82 + index);
                } else {
                    push_extended(out, 38, index);
                }
            },
            DynColors::Rgb(r, g, b) => {
                push_rgb(out, 38, *r, *g, *b);
            },
        }
    }

    /// Appends the background parameters of the color.
    pub fn push_raw_bg(&self, out: &mut String)
        ensures
            final(out)@ == old(out)@ + self.bg_params(),
    {
        match self {
            DynColors::Ansi(color) => {
                push_decimal(out, color.bg_number());
            },
            DynColors::Xterm(color) => {
                let index = color.0;
                if index < 8 {
                    push_decimal(out, 40 + index);
                } else if index < 16 {
                    push_decimal(out, 92 + index);
                } else {
                    push_extended(out, 48, index);
                }
            },
            DynColors::Rgb(r, g, b) => {
                push_rgb(out, 48, *r, *g, *b);
            },
        }
    }

    /// Appends the escape sequence that selects the color as the foreground.
    pub fn push_fg(&self, out: &mut String)
        ensures
            final(out)@ == old(out)@ + sgr(self.fg_params()),
    {
        proof {
            reveal_strlit("\x1b[");
            reveal_strlit("m");
        }
        out.append("\x1b[");
        self.push_raw_fg(out);
        out.append("m");
        assert(out@ =~= old(out)@ + sgr(self.fg_params()));
    }

    /// Appends the escape sequence that selects the color as the background.
    pub fn push_bg(&self, out: &mut String)
        ensures
            final(out)@ == old(out)@ + sgr(self.bg_params()),
    {
        proof {
            reveal_strlit("\x1b[");
            reveal_strlit("m");
        }
        out.append("\x1b[");
        self.push_raw_bg(out);
        out.append("m");
        assert(out@ =~= old(out)@ + sgr(self.bg_params()));
    }

    /// The foreground parameters of the color, as text of their own.
    pub fn raw_fg(&self) -> (s: String)
        ensures
            s@ == self.fg_params(),
    {
        let mut s = String::new();
        self.push_raw_fg(&mut s);
        assert(s@ =~= self.fg_params());
        s
    }

    /// The background parameters of the color, as text of their own.
    pub fn raw_bg(&self) -> (s: String)
        ensures
            s@ == self.bg_params(),
    {
        let mut s = String::new();
        self.push_raw_bg(&mut s);
        assert(s@ =~= self.bg_params());
        s
    }
}

/// Appends `lead;5;index`, the extended form of a palette entry.
fn push_extended(out: &mut String, lead: u8, index: u8)
    ensures
        final(out)@ == old(out)@ + crate::ansi::join(
            crate::ansi::join(decimal(lead as nat), decimal(5)),
            decimal(index as nat),
        ),
{
    push_decimal(out, lead);
    push_separator(out);
    push_decimal(out, 5);
    push_separator(out);
    push_decimal(out, index);
    assert(out@ =~= old(out)@ + crate::ansi::join(
        crate::ansi::join(decimal(lead as nat), decimal(5)),
        decimal(index as nat),
    ));
}

/// Appends `lead;2;r;g;b`, the parameters of a 24-bit color.
fn push_rgb(out: &mut String, lead: u8, r: u8, g: u8, b: u8)
    ensures
        final(out)@ == old(out)@ + rgb_params(lead as nat, r, g, b),
{
    push_decimal(out, lead);
    push_separator(out);
    push_decimal(out, 2);
    push_separator(out);
    push_decimal(out, r);
    push_separator(out);
    push_decimal(out, g);
    push_separator(out);
    push_decimal(out, b);
    assert(out@ =~= old(out)@ + rgb_params(lead as nat, r, g, b));
}

/// The error of a color descriptor that spells no color.
#[derive(Copy, Clone, Debug, PartialEq, Eq, Structural)]
pub struct ParseColorError;

/// The value of a hexadecimal digit, in either case.
pub open spec fn hex_digit(c: char) -> Option<nat> {
    let v = c as nat;
    if 48 <= v <= 57 {
        Some((v - 48) as nat)
    } else if 97 <= v <= 102 {
        Some((v - 87) as nat)
    } else if 65 <= v <= 70 {
        Some((v - 55) as nat)
    } else {
        None
    }
}

/// The byte that two hexadecimal digits spell.
pub open spec fn hex_pair(high: char, low: char) -> Option<u8> {
    match (hex_digit(high), hex_digit(low)) {
        (Some(h), Some(l)) => Some((16 * h + l) as u8),
        _ => None,
    }
}

/// The color that a descriptor spells.
///
/// A descriptor that starts with `#` must be `#RRGGBB`: seven characters,
/// the last six of them hexadecimal digits. Every other descriptor but the
/// empty one is read as a color name, and a name that is not known selects
/// white. The empty descriptor and every other text that starts with `#`,
/// the short form `#RGB` among them, spell no color.
pub open spec fn parse_descriptor(s: Seq<char>) -> Result<DynColors, ParseColorError> {
    if s.len() == 0 {
        Err(ParseColorError)
    } else if s[0] == '#' {
        if s.len() == 7 {
            match (hex_pair(s[1], s[2]), hex_pair(s[3], s[4]), hex_pair(s[5], s[6])) {
                (Some(r), Some(g), Some(b)) => Ok(DynColors::Rgb(r, g, b)),
                _ => Err(ParseColorError),
            }
        } else {
            Err(ParseColorError)
        }
    } else {
        Ok(DynColors::Ansi(color_of_name(s)))
    }
}

/// The value of the hexadecimal digit `c`, if it is one.
pub fn hex_value(c: char) -> (value: Option<u8>)
    ensures
        value is Some <==> hex_digit(c) is Some,
        value matches Some(v) ==> hex_digit(c) == Some(v as nat),
{
    let v = c as u32;
    if 48 <= v && v <= 57 {
        Some((v - 48) as u8)
    } else if 97 <= v && v <= 102 {
        Some((v - 87) as u8)
    } else if 65 <= v && v <= 70 {
        Some((v - 55) as u8)
    } else {
        None
    }
}

/// The byte that the two hexadecimal digits `high` and `low` spell.
pub fn hex_byte(high: char, low: char) -> (value: Option<u8>)
    ensures
        value == hex_pair(high, low),
{
    match (hex_value(high), hex_value(low)) {
        (Some(h), Some(l)) => Some(16 * h + l),
        _ => None,
    }
}

impl DynColors {
    /// Reads a color descriptor: a color name or `#RRGGBB`.
    pub fn parse(s: &str) -> (parsed: Result<DynColors, ParseColorError>)
        ensures
            parsed == parse_descriptor(s@),
    {
        let len = s.unicode_len();
        if len == 0 {
            return Err(ParseColorError);
        }
        if s.get_char(0) == '#' {
            if len != 7 {
                return Err(ParseColorError);
            }
            let r = hex_byte(s.get_char(1), s.get_char(2));
            let g = hex_byte(s.get_char(3), s.get_char(4));
            let b = hex_byte(s.get_char(5), s.get_char(6));
            match (r, g, b) {
                (Some(r), Some(g), Some(b)) => Ok(DynColors::Rgb(r, g, b)),
                _ => Err(ParseColorError),
            }
        } else {
            Ok(DynColors::Ansi(AnsiColors::from_name(s)))
        }
    }
}

impl core::str::FromStr for DynColors {
    type Err = ParseColorError;

    fn from_str(s: &str) -> (parsed: Result<Self, Self::Err>)
        ensures
            parsed == parse_descriptor(s@),
    {
        DynColors::parse(s)
    }
}

/// The escape sequences of the named colors are all different: no
/// foreground sequence is a background sequence, and two colors differ in
/// their foreground sequences and in their background sequences.
pub proof fn lemma_named_escapes_distinct(a: AnsiColors, b: AnsiColors)
    ensures
        sgr(DynColors::Ansi(a).fg_params()) != sgr(DynColors::Ansi(b).bg_params()),
        a != b ==> sgr(DynColors::Ansi(a).fg_params()) != sgr(DynColors::Ansi(b).fg_params()),
        a != b ==> sgr(DynColors::Ansi(a).bg_params()) != sgr(DynColors::Ansi(b).bg_params()),
{
    if sgr(decimal(a.fg_code())) == sgr(decimal(b.bg_code())) {
        lemma_sgr_injective(decimal(a.fg_code()), decimal(b.bg_code()));
        lemma_decimal_injective(a.fg_code(), b.bg_code());
    }
    if sgr(decimal(a.fg_code())) == sgr(decimal(b.fg_code())) {
        lemma_sgr_injective(decimal(a.fg_code()), decimal(b.fg_code()));
        lemma_decimal_injective(a.fg_code(), b.fg_code());
    }
    if sgr(decimal(a.bg_code())) == sgr(decimal(b.bg_code())) {
        lemma_sgr_injective(decimal(a.bg_code()), decimal(b.bg_code()));
        lemma_decimal_injective(a.bg_code(), b.bg_code());
    }
}

/// The canonical name of a named color spells that color and no other.
pub proof fn lemma_name_round_trip(color: AnsiColors)
    ensures
        named_color(color.name()) == Some(color),
        parse_descriptor(color.name()) == Ok::<DynColors, ParseColorError>(
            DynColors::Ansi(color),
        ),
{
    reveal_strlit("black");
    reveal_strlit("red");
    reveal_strlit("green");
    reveal_strlit("yellow");
    reveal_strlit("blue");
    reveal_strlit("magenta");
    reveal_strlit("purple");
    reveal_strlit("cyan");
    reveal_strlit("white");
    reveal_strlit("bright black");
    reveal_strlit("bright red");
    reveal_strlit("bright green");
    reveal_strlit("bright yellow");
    reveal_strlit("bright blue");
    reveal_strlit("bright magenta");
    reveal_strlit("bright cyan");
    reveal_strlit("bright white");
    assert("black"@.len() == 5 && "black"@[0] == 'b');
    assert("red"@.len() == 3 && "red"@[0] == 'r');
    assert("green"@.len() == 5 && "green"@[0] == 'g');
    assert("yellow"@.len() == 6 && "yellow"@[0] == 'y');
    assert("blue"@.len() == 4 && "blue"@[0] == 'b');
    assert("magenta"@.len() == 7 && "magenta"@[0] == 'm');
    assert("purple"@.len() == 6 && "purple"@[0] == 'p');
    assert("cyan"@.len() == 4 && "cyan"@[0] == 'c');
    assert("white"@.len() == 5 && "white"@[0] == 'w');
    assert("bright black"@.len() == 12 && "bright black"@[7] == 'b');
    assert("bright red"@.len() == 10 && "bright red"@[7] == 'r');
    assert("bright green"@.len() == 12 && "bright green"@[7] == 'g');
    assert("bright yellow"@.len() == 13 && "bright yellow"@[7] == 'y');
    assert("bright blue"@.len() == 11 && "bright blue"@[7] == 'b');
    assert("bright magenta"@.len() == 14 && "bright magenta"@[7] == 'm');
    assert("bright cyan"@.len() == 11 && "bright cyan"@[7] == 'c');
    assert("bright white"@.len() == 12 && "bright white"@[7] == 'w');
}

impl DynColor for DynColors {
    open spec fn dyn_color(&self) -> DynColors {
        *self
    }

    fn get_dyncolors_fg(&self) -> (c: DynColors) {
        *self
    }

    fn get_dyncolors_bg(&self) -> (c: DynColors) {
        *self
    }
}

} // verus!
