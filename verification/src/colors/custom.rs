//! Colors fixed by three numbers in a type.
//!
//! The escape sequence of such a color has a fixed width: every component
//! takes exactly three digits, zero-padded on the left, so that the digits
//! stand at fixed places of a fixed buffer. Terminals read `005` as 5.

use crate::ansi::{decimal, digit_str, join, padded3, sgr};
use crate::dyn_colors::DynColors;
use crate::Color;
use vstd::prelude::*;

verus! {

/// The parameters of a 24-bit color in fixed width: `lead;2;rrr;ggg;bbb`.
/// `lead` is 38 for the foreground, 48 for the background.
pub open spec fn padded_rgb_params(lead: nat, r: u8, g: u8, b: u8) -> Seq<char> {
    join(
        join(join(join(decimal(lead), decimal(2)), padded3(r as nat)), padded3(g as nat)),
        padded3(b as nat),
    )
}

/// The first parameter of a 24-bit color: 38 for the foreground, 48 for the
/// background.
pub open spec fn rgb_lead(is_fg: bool) -> nat {
    if is_fg {
        38
    } else {
        48
    }
}

/// The bytes of a text whose characters are all ASCII.
pub open spec fn ascii(text: Seq<char>) -> Seq<u8> {
    Seq::new(text.len(), |i: int| text[i] as u8)
}

/// The text of a sequence of ASCII bytes.
pub open spec fn chars(bytes: Seq<u8>) -> Seq<char> {
    Seq::new(bytes.len(), |i: int| bytes[i] as char)
}

/// The bytes that occur in an escape sequence: ESC, `[`, `;`, `m` and the
/// ten digits.
pub open spec fn is_escape_byte(b: u8) -> bool {
    b == 27 || b == 91 || b == 59 || b == 109 || (48 <= b <= 57)
}

/// The three digits of `n`, zero-padded on the left.
pub fn digits3(n: u8) -> (out: [u8; 3])
    ensures
        out@ == ascii(padded3(n as nat)),
{
    let out = [48 + n / 100, 48 + (n / 10) % 10, 48 + n % 10];
    assert(out@ =~= ascii(padded3(n as nat)));
    out
}

/// The table of the three-digit numerals of all bytes.
pub fn generate_lookup() -> (table: [[u8; 3]; 256])
    ensures
        forall|n: int| 0 <= n < 256 ==> (#[trigger] table@[n])@ == ascii(padded3(n as nat)),
{
    let mut table = [[0u8, 0u8, 0u8]; 256];
    let mut i: usize = 0;
    while i < 256
        invariant
            i <= 256,
            forall|n: int| 0 <= n < i ==> (#[trigger] table@[n])@ == ascii(padded3(n as nat)),
        decreases 256 - i,
    {
        table[i] = digits3(i as u8);
        i += 1;
    }
    table
}

/// The complete escape sequence of a 24-bit color in fixed width, as bytes:
/// `ESC[38;2;rrr;ggg;bbbm` for the foreground, `ESC[48;2;rrr;ggg;bbbm` for
/// the background.
pub fn rgb_to_ansi(r: u8, g: u8, b: u8, is_fg: bool) -> (buf: [u8; 19])
    ensures
        buf@ == ascii(sgr(padded_rgb_params(rgb_lead(is_fg), r, g, b))),
        chars(buf@) == sgr(padded_rgb_params(rgb_lead(is_fg), r, g, b)),
        forall|i: int| 0 <= i < 19 ==> is_escape_byte(#[trigger] buf@[i]),
{
    let lead: u8 = if is_fg {
        51
    } else {
        52
    };
    let red = digits3(r);
    let green = digits3(g);
    let blue = digits3(b);
    let buf = [
        27,
        91,
        lead,
        56,
        59,
        50,
        59,
        red[0],
        red[1],
        red[2],
        59,
        green[0],
        green[1],
        green[2],
        59,
        blue[0],
        blue[1],
        blue[2],
        109,
    ];
    proof {
        reveal_with_fuel(decimal, 2);
        assert(buf@ =~= ascii(sgr(padded_rgb_params(rgb_lead(is_fg), r, g, b))));
        assert(chars(buf@) =~= sgr(padded_rgb_params(rgb_lead(is_fg), r, g, b)));
    }
    buf
}

/// The parameters of a 24-bit color in fixed width, as bytes:
/// `38;2;rrr;ggg;bbb` for the foreground, `48;2;rrr;ggg;bbb` for the
/// background.
pub fn rgb_to_ansi_color(r: u8, g: u8, b: u8, is_fg: bool) -> (buf: [u8; 16])
    ensures
        buf@ == ascii(padded_rgb_params(rgb_lead(is_fg), r, g, b)),
        chars(buf@) == padded_rgb_params(rgb_lead(is_fg), r, g, b),
        forall|i: int| 0 <= i < 16 ==> is_escape_byte(#[trigger] buf@[i]),
{
    let lead: u8 = if is_fg {
        51
    } else {
        52
    };
    let red = digits3(r);
    let green = digits3(g);
    let blue = digits3(b);
    let buf = [
        lead,
        56,
        59,
        50,
        59,
        red[0],
        red[1],
        red[2],
        59,
        green[0],
        green[1],
        green[2],
        59,
        blue[0],
        blue[1],
        blue[2],
    ];
    proof {
        reveal_with_fuel(decimal, 2);
        assert(buf@ =~= ascii(padded_rgb_params(rgb_lead(is_fg), r, g, b)));
        assert(chars(buf@) =~= padded_rgb_params(rgb_lead(is_fg), r, g, b));
    }
    buf
}

/// The one-character text of a byte of an escape sequence.
fn symbol(b: u8) -> (s: &'static str)
    requires
        is_escape_byte(b),
    ensures
        s@ == seq![b as char],
{
    proof {
        reveal_strlit("\x1b");
        reveal_strlit("[");
        reveal_strlit(";");
        reveal_strlit("m");
    }
    let s = if b == 27 {
        "\x1b"
    } else if b == 91 {
        "["
    } else if b == 59 {
        ";"
    } else if b == 109 {
        "m"
    } else {
        digit_str(b - 48)
    };
    assert(s@ =~= seq![b as char]);
    s
}

/// The text of the bytes of an escape sequence.
pub fn escape_text(bytes: &[u8]) -> (text: String)
    requires
        forall|i: int| 0 <= i < bytes@.len() ==> is_escape_byte(#[trigger] bytes@[i]),
    ensures
        text@ == chars(bytes@),
{
    let mut text = String::new();
    let mut i: usize = 0;
    while i < bytes.len()
        invariant
            i <= bytes.len(),
            forall|k: int| 0 <= k < bytes@.len() ==> is_escape_byte(#[trigger] bytes@[k]),
            text@ == chars(bytes@.subrange(0, i as int)),
        decreases bytes.len() - i,
    {
        text.append(symbol(bytes[i]));
        i += 1;
        assert(text@ =~= chars(bytes@.subrange(0, i as int)));
    }
    assert(bytes@.subrange(0, i as int) =~= bytes@);
    text
}

/// A 24-bit color whose components are part of the type.
pub struct CustomColor<const R: u8, const G: u8, const B: u8>;

impl<const R: u8, const G: u8, const B: u8> Color for CustomColor<R, G, B> {
    open spec fn raw_fg() -> Seq<char> {
        padded_rgb_params(38, R, G, B)
    }

    open spec fn raw_bg() -> Seq<char> {
        padded_rgb_params(48, R, G, B)
    }

    open spec fn dyn_color() -> DynColors {
        DynColors::Rgb(R, G, B)
    }

    fn raw_ansi_fg() -> (s: String) {
        let buf = rgb_to_ansi_color(R, G, B, true);
        let s = escape_text(buf.as_slice());
        assert(s@ =~= Self::raw_fg());
        s
    }

    fn raw_ansi_bg() -> (s: String) {
        let buf = rgb_to_ansi_color(R, G, B, false);
        let s = escape_text(buf.as_slice());
        assert(s@ =~= Self::raw_bg());
        s
    }

    fn into_dyncolors() -> (c: DynColors) {
        DynColors::Rgb(R, G, B)
    }

    fn ansi_fg() -> (s: String) {
        let buf = rgb_to_ansi(R, G, B, true);
        let s = escape_text(buf.as_slice());
        assert(s@ =~= sgr(Self::raw_fg()));
        s
    }

    fn ansi_bg() -> (s: String) {
        let buf = rgb_to_ansi(R, G, B, false);
        let s = escape_text(buf.as_slice());
        assert(s@ =~= sgr(Self::raw_bg()));
        s
    }
}

} // verus!
