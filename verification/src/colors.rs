//! The sixteen named colors, as an enum of values and as one type each, and
//! the other families of colors.

use crate::ansi::decimal;
use crate::dyn_colors::DynColors;
use crate::Color;
use crate::DynColor;
use vstd::prelude::*;

pub mod custom;
pub mod dynamic;
pub mod xterm;

pub use custom::CustomColor;

verus! {

/// The sixteen named colors: eight base colors and their bright variants.
#[derive(Copy, Clone, Debug, PartialEq, Eq, Structural)]
pub enum AnsiColors {
    Black,
    Red,
    Green,
    Yellow,
    Blue,
    Magenta,
    Cyan,
    White,
    BrightBlack,
    BrightRed,
    BrightGreen,
    BrightYellow,
    BrightBlue,
    BrightMagenta,
    BrightCyan,
    BrightWhite,
}

impl AnsiColors {
    /// The number that selects the color as the foreground: 30 to 37 for the
    /// base colors, 90 to 97 for the bright ones.
    pub open spec fn fg_code(self) -> nat {
        match self {
            AnsiColors::Black => 30,
            AnsiColors::Red => 31,
            AnsiColors::Green => 32,
            AnsiColors::Yellow => 33,
            AnsiColors::Blue => 34,
            AnsiColors::Magenta => 35,
            AnsiColors::Cyan => 36,
            AnsiColors::White => 37,
            AnsiColors::BrightBlack => 90,
            AnsiColors::BrightRed => 91,
            AnsiColors::BrightGreen => 92,
            AnsiColors::BrightYellow => 93,
            AnsiColors::BrightBlue => 94,
            AnsiColors::BrightMagenta => 95,
            AnsiColors::BrightCyan => 96,
            AnsiColors::BrightWhite => 97,
        }
    }

    /// The number that selects the color as the background: 40 to 47 for the
    /// base colors, 100 to 107 for the bright ones.
    pub open spec fn bg_code(self) -> nat {
        self.fg_code() + 10
    }

    /// The canonical name of the color, as a color descriptor spells it.
    pub open spec fn name(self) -> Seq<char> {
        match self {
            AnsiColors::Black => "black"@,
            AnsiColors::Red => "red"@,
            AnsiColors::Green => "green"@,
            AnsiColors::Yellow => "yellow"@,
            AnsiColors::Blue => "blue"@,
            AnsiColors::Magenta => "magenta"@,
            AnsiColors::Cyan => "cyan"@,
            AnsiColors::White => "white"@,
            AnsiColors::BrightBlack => "bright black"@,
            AnsiColors::BrightRed => "bright red"@,
            AnsiColors::BrightGreen => "bright green"@,
            AnsiColors::BrightYellow => "bright yellow"@,
            AnsiColors::BrightBlue => "bright blue"@,
            AnsiColors::BrightMagenta => "bright magenta"@,
            AnsiColors::BrightCyan => "bright cyan"@,
            AnsiColors::BrightWhite => "bright white"@,
        }
    }

    /// The foreground number of the color.
    pub fn fg_number(self) -> (code: u8)
        ensures
            code == self.fg_code(),
    {
        match self {
            AnsiColors::Black => 30,
            AnsiColors::Red => 31,
            AnsiColors::Green => 32,
            AnsiColors::Yellow => 33,
            AnsiColors::Blue => 34,
            AnsiColors::Magenta => 35,
            AnsiColors::Cyan => 36,
            AnsiColors::White => 37,
            AnsiColors::BrightBlack => 90,
            AnsiColors::BrightRed => 91,
            AnsiColors::BrightGreen => 92,
            AnsiColors::BrightYellow => 93,
            AnsiColors::BrightBlue => 94,
            AnsiColors::BrightMagenta => 95,
            AnsiColors::BrightCyan => 96,
            AnsiColors::BrightWhite => 97,
        }
    }

    /// The background number of the color.
    pub fn bg_number(self) -> (code: u8)
        ensures
            code == self.bg_code(),
    {
        self.fg_number() + 10
    }

    /// The canonical name of the color.
    pub fn canonical_name(self) -> (name: &'static str)
        ensures
            name@ == self.name(),
    {
        match self {
            AnsiColors::Black => "black",
            AnsiColors::Red => "red",
            AnsiColors::Green => "green",
            AnsiColors::Yellow => "yellow",
            AnsiColors::Blue => "blue",
            AnsiColors::Magenta => "magenta",
            AnsiColors::Cyan => "cyan",
            AnsiColors::White => "white",
            AnsiColors::BrightBlack => "bright black",
            AnsiColors::BrightRed => "bright red",
            AnsiColors::BrightGreen => "bright green",
            AnsiColors::BrightYellow => "bright yellow",
            AnsiColors::BrightBlue => "bright blue",
            AnsiColors::BrightMagenta => "bright magenta",
            AnsiColors::BrightCyan => "bright cyan",
            AnsiColors::BrightWhite => "bright white",
        }
    }
}

impl DynColor for AnsiColors {
    open spec fn dyn_color(&self) -> DynColors {
        DynColors::Ansi(*self)
    }

    fn get_dyncolors_fg(&self) -> (c: DynColors) {
        DynColors::Ansi(*self)
    }

    fn get_dyncolors_bg(&self) -> (c: DynColors) {
        DynColors::Ansi(*self)
    }
}

/// The color black, as a type.
pub struct Black;

impl Color for Black {
    open spec fn raw_fg() -> Seq<char> {
        decimal(AnsiColors::Black.fg_code())
    }

    open spec fn raw_bg() -> Seq<char> {
        decimal(AnsiColors::Black.bg_code())
    }

    open spec fn dyn_color() -> DynColors {
        DynColors::Ansi(AnsiColors::Black)
    }

    fn raw_ansi_fg() -> (s: String) {
        AnsiColors::Black.fmt_raw_ansi_fg()
    }

    fn raw_ansi_bg() -> (s: String) {
        AnsiColors::Black.fmt_raw_ansi_bg()
    }

    fn into_dyncolors() -> (c: DynColors) {
        DynColors::Ansi(AnsiColors::Black)
    }
}

/// The color red, as a type.
pub struct Red;

impl Color for Red {
    open spec fn raw_fg() -> Seq<char> {
        decimal(AnsiColors::Red.fg_code())
    }

    open spec fn raw_bg() -> Seq<char> {
        decimal(AnsiColors::Red.bg_code())
    }

    open spec fn dyn_color() -> DynColors {
        DynColors::Ansi(AnsiColors::Red)
    }

    fn raw_ansi_fg() -> (s: String) {
        AnsiColors::Red.fmt_raw_ansi_fg()
    }

    fn raw_ansi_bg() -> (s: String) {
        AnsiColors::Red.fmt_raw_ansi_bg()
    }

    fn into_dyncolors() -> (c: DynColors) {
        DynColors::Ansi(AnsiColors::Red)
    }
}

/// The color green, as a type.
pub struct Green;

impl Color for Green {
    open spec fn raw_fg() -> Seq<char> {
        decimal(AnsiColors::Green.fg_code())
    }

    open spec fn raw_bg() -> Seq<char> {
        decimal(AnsiColors::Green.bg_code())
    }

    open spec fn dyn_color() -> DynColors {
        DynColors::Ansi(AnsiColors::Green)
    }

    fn raw_ansi_fg() -> (s: String) {
        AnsiColors::Green.fmt_raw_ansi_fg()
    }

    fn raw_ansi_bg() -> (s: String) {
        AnsiColors::Green.fmt_raw_ansi_bg()
    }

    fn into_dyncolors() -> (c: DynColors) {
        DynColors::Ansi(AnsiColors::Green)
    }
}

/// The color yellow, as a type.
pub struct Yellow;

impl Color for Yellow {
    open spec fn raw_fg() -> Seq<char> {
        decimal(AnsiColors::Yellow.fg_code())
    }

    open spec fn raw_bg() -> Seq<char> {
        decimal(AnsiColors::Yellow.bg_code())
    }

    open spec fn dyn_color() -> DynColors {
        DynColors::Ansi(AnsiColors::Yellow)
    }

    fn raw_ansi_fg() -> (s: String) {
        AnsiColors::Yellow.fmt_raw_ansi_fg()
    }

    fn raw_ansi_bg() -> (s: String) {
        AnsiColors::Yellow.fmt_raw_ansi_bg()
    }

    fn into_dyncolors() -> (c: DynColors) {
        DynColors::Ansi(AnsiColors::Yellow)
    }
}

/// The color blue, as a type.
pub struct Blue;

impl Color for Blue {
    open spec fn raw_fg() -> Seq<char> {
        decimal(AnsiColors::Blue.fg_code())
    }

    open spec fn raw_bg() -> Seq<char> {
        decimal(AnsiColors::Blue.bg_code())
    }

    open spec fn dyn_color() -> DynColors {
        DynColors::Ansi(AnsiColors::Blue)
    }

    fn raw_ansi_fg() -> (s: String) {
        AnsiColors::Blue.fmt_raw_ansi_fg()
    }

    fn raw_ansi_bg() -> (s: String) {
        AnsiColors::Blue.fmt_raw_ansi_bg()
    }

    fn into_dyncolors() -> (c: DynColors) {
        DynColors::Ansi(AnsiColors::Blue)
    }
}

/// The color magenta, as a type.
pub struct Magenta;

impl Color for Magenta {
    open spec fn raw_fg() -> Seq<char> {
        decimal(AnsiColors::Magenta.fg_code())
    }

    open spec fn raw_bg() -> Seq<char> {
        decimal(AnsiColors::Magenta.bg_code())
    }

    open spec fn dyn_color() -> DynColors {
        DynColors::Ansi(AnsiColors::Magenta)
    }

    fn raw_ansi_fg() -> (s: String) {
        AnsiColors::Magenta.fmt_raw_ansi_fg()
    }

    fn raw_ansi_bg() -> (s: String) {
        AnsiColors::Magenta.fmt_raw_ansi_bg()
    }

    fn into_dyncolors() -> (c: DynColors) {
        DynColors::Ansi(AnsiColors::Magenta)
    }
}

/// The color cyan, as a type.
pub struct Cyan;

impl Color for Cyan {
    open spec fn raw_fg() -> Seq<char> {
        decimal(AnsiColors::Cyan.fg_code())
    }

    open spec fn raw_bg() -> Seq<char> {
        decimal(AnsiColors::Cyan.bg_code())
    }

    open spec fn dyn_color() -> DynColors {
        DynColors::Ansi(AnsiColors::Cyan)
    }

    fn raw_ansi_fg() -> (s: String) {
        AnsiColors::Cyan.fmt_raw_ansi_fg()
    }

    fn raw_ansi_bg() -> (s: String) {
        AnsiColors::Cyan.fmt_raw_ansi_bg()
    }

    fn into_dyncolors() -> (c: DynColors) {
        DynColors::Ansi(AnsiColors::Cyan)
    }
}

/// The color white, as a type.
pub struct White;

impl Color for White {
    open spec fn raw_fg() -> Seq<char> {
        decimal(AnsiColors::White.fg_code())
    }

    open spec fn raw_bg() -> Seq<char> {
        decimal(AnsiColors::White.bg_code())
    }

    open spec fn dyn_color() -> DynColors {
        DynColors::Ansi(AnsiColors::White)
    }

    fn raw_ansi_fg() -> (s: String) {
        AnsiColors::White.fmt_raw_ansi_fg()
    }

    fn raw_ansi_bg() -> (s: String) {
        AnsiColors::White.fmt_raw_ansi_bg()
    }

    fn into_dyncolors() -> (c: DynColors) {
        DynColors::Ansi(AnsiColors::White)
    }
}

/// The color bright black, as a type.
pub struct BrightBlack;

impl Color for BrightBlack {
    open spec fn raw_fg() -> Seq<char> {
        decimal(AnsiColors::BrightBlack.fg_code())
    }

    open spec fn raw_bg() -> Seq<char> {
        decimal(AnsiColors::BrightBlack.bg_code())
    }

    open spec fn dyn_color() -> DynColors {
        DynColors::Ansi(AnsiColors::BrightBlack)
    }

    fn raw_ansi_fg() -> (s: String) {
        AnsiColors::BrightBlack.fmt_raw_ansi_fg()
    }

    fn raw_ansi_bg() -> (s: String) {
        AnsiColors::BrightBlack.fmt_raw_ansi_bg()
    }

    fn into_dyncolors() -> (c: DynColors) {
        DynColors::Ansi(AnsiColors::BrightBlack)
    }
}

/// The color bright red, as a type.
pub struct BrightRed;

impl Color for BrightRed {
    open spec fn raw_fg() -> Seq<char> {
        decimal(AnsiColors::BrightRed.fg_code())
    }

    open spec fn raw_bg() -> Seq<char> {
        decimal(AnsiColors::BrightRed.bg_code())
    }

    open spec fn dyn_color() -> DynColors {
        DynColors::Ansi(AnsiColors::BrightRed)
    }

    fn raw_ansi_fg() -> (s: String) {
        AnsiColors::BrightRed.fmt_raw_ansi_fg()
    }

    fn raw_ansi_bg() -> (s: String) {
        AnsiColors::BrightRed.fmt_raw_ansi_bg()
    }

    fn into_dyncolors() -> (c: DynColors) {
        DynColors::Ansi(AnsiColors::BrightRed)
    }
}

/// The color bright green, as a type.
pub struct BrightGreen;

impl Color for BrightGreen {
    open spec fn raw_fg() -> Seq<char> {
        decimal(AnsiColors::BrightGreen.fg_code())
    }

    open spec fn raw_bg() -> Seq<char> {
        decimal(AnsiColors::BrightGreen.bg_code())
    }

    open spec fn dyn_color() -> DynColors {
        DynColors::Ansi(AnsiColors::BrightGreen)
    }

    fn raw_ansi_fg() -> (s: String) {
        AnsiColors::BrightGreen.fmt_raw_ansi_fg()
    }

    fn raw_ansi_bg() -> (s: String) {
        AnsiColors::BrightGreen.fmt_raw_ansi_bg()
    }

    fn into_dyncolors() -> (c: DynColors) {
        DynColors::Ansi(AnsiColors::BrightGreen)
    }
}

/// The color bright yellow, as a type.
pub struct BrightYellow;

impl Color for BrightYellow {
    open spec fn raw_fg() -> Seq<char> {
        decimal(AnsiColors::BrightYellow.fg_code())
    }

    open spec fn raw_bg() -> Seq<char> {
        decimal(AnsiColors::BrightYellow.bg_code())
    }

    open spec fn dyn_color() -> DynColors {
        DynColors::Ansi(AnsiColors::BrightYellow)
    }

    fn raw_ansi_fg() -> (s: String) {
        AnsiColors::BrightYellow.fmt_raw_ansi_fg()
    }

    fn raw_ansi_bg() -> (s: String) {
        AnsiColors::BrightYellow.fmt_raw_ansi_bg()
    }

    fn into_dyncolors() -> (c: DynColors) {
        DynColors::Ansi(AnsiColors::BrightYellow)
    }
}

/// The color bright blue, as a type.
pub struct BrightBlue;

impl Color for BrightBlue {
    open spec fn raw_fg() -> Seq<char> {
        decimal(AnsiColors::BrightBlue.fg_code())
    }

    open spec fn raw_bg() -> Seq<char> {
        decimal(AnsiColors::BrightBlue.bg_code())
    }

    open spec fn dyn_color() -> DynColors {
        DynColors::Ansi(AnsiColors::BrightBlue)
    }

    fn raw_ansi_fg() -> (s: String) {
        AnsiColors::BrightBlue.fmt_raw_ansi_fg()
    }

    fn raw_ansi_bg() -> (s: String) {
        AnsiColors::BrightBlue.fmt_raw_ansi_bg()
    }

    fn into_dyncolors() -> (c: DynColors) {
        DynColors::Ansi(AnsiColors::BrightBlue)
    }
}

/// The color bright magenta, as a type.
pub struct BrightMagenta;

impl Color for BrightMagenta {
    open spec fn raw_fg() -> Seq<char> {
        decimal(AnsiColors::BrightMagenta.fg_code())
    }

    open spec fn raw_bg() -> Seq<char> {
        decimal(AnsiColors::BrightMagenta.bg_code())
    }

    open spec fn dyn_color() -> DynColors {
        DynColors::Ansi(AnsiColors::BrightMagenta)
    }

    fn raw_ansi_fg() -> (s: String) {
        AnsiColors::BrightMagenta.fmt_raw_ansi_fg()
    }

    fn raw_ansi_bg() -> (s: String) {
        AnsiColors::BrightMagenta.fmt_raw_ansi_bg()
    }

    fn into_dyncolors() -> (c: DynColors) {
        DynColors::Ansi(AnsiColors::BrightMagenta)
    }
}

/// The color bright cyan, as a type.
pub struct BrightCyan;

impl Color for BrightCyan {
    open spec fn raw_fg() -> Seq<char> {
        decimal(AnsiColors::BrightCyan.fg_code())
    }

    open spec fn raw_bg() -> Seq<char> {
        decimal(AnsiColors::BrightCyan.bg_code())
    }

    open spec fn dyn_color() -> DynColors {
        DynColors::Ansi(AnsiColors::BrightCyan)
    }

    fn raw_ansi_fg() -> (s: String) {
        AnsiColors::BrightCyan.fmt_raw_ansi_fg()
    }

    fn raw_ansi_bg() -> (s: String) {
        AnsiColors::BrightCyan.fmt_raw_ansi_bg()
    }

    fn into_dyncolors() -> (c: DynColors) {
        DynColors::Ansi(AnsiColors::BrightCyan)
    }
}

/// The color bright white, as a type.
pub struct BrightWhite;

impl Color for BrightWhite {
    open spec fn raw_fg() -> Seq<char> {
        decimal(AnsiColors::BrightWhite.fg_code())
    }

    open spec fn raw_bg() -> Seq<char> {
        decimal(AnsiColors::BrightWhite.bg_code())
    }

    open spec fn dyn_color() -> DynColors {
        DynColors::Ansi(AnsiColors::BrightWhite)
    }

    fn raw_ansi_fg() -> (s: String) {
        AnsiColors::BrightWhite.fmt_raw_ansi_fg()
    }

    fn raw_ansi_bg() -> (s: String) {
        AnsiColors::BrightWhite.fmt_raw_ansi_bg()
    }

    fn into_dyncolors() -> (c: DynColors) {
        DynColors::Ansi(AnsiColors::BrightWhite)
    }
}

} // verus!
