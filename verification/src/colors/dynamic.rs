//! Colors given as values: RGB triples and color names.

use crate::ansi::{decimal, join};
use crate::colors::AnsiColors;
use crate::dyn_colors::DynColors;
use crate::DynColor;
use vstd::prelude::*;
use vstd::string::StringSliceAdditionalSpecFns;

verus! {

/// A 24-bit color: red, green and blue.
#[derive(Copy, Clone, Debug, PartialEq, Eq, Structural)]
pub struct Rgb(pub u8, pub u8, pub u8);

/// The parameters of a 24-bit color: `lead;2;r;g;b`, each component as a
/// plain decimal numeral. `lead` is 38 for the foreground, 48 for the
/// background.
pub open spec fn rgb_params(lead: nat, r: u8, g: u8, b: u8) -> Seq<char> {
    join(
        join(join(join(decimal(lead), decimal(2)), decimal(r as nat)), decimal(g as nat)),
        decimal(b as nat),
    )
}

impl DynColor for Rgb {
    open spec fn dyn_color(&self) -> DynColors {
        DynColors::Rgb(self.0, self.1, self.2)
    }

    fn get_dyncolors_fg(&self) -> (c: DynColors) {
        DynColors::Rgb(self.0, self.1, self.2)
    }

    fn get_dyncolors_bg(&self) -> (c: DynColors) {
        self.get_dyncolors_fg()
    }
}

/// The named color that `name` spells, if it spells one. The names are the
/// lower-case color names, the bright ones with a space; `purple` is another
/// name for magenta.
pub open spec fn named_color(name: Seq<char>) -> Option<AnsiColors> {
    if name == "black"@ {
        Some(AnsiColors::Black)
    } else if name == "red"@ {
        Some(AnsiColors::Red)
    } else if name == "green"@ {
        Some(AnsiColors::Green)
    } else if name == "yellow"@ {
        Some(AnsiColors::Yellow)
    } else if name == "blue"@ {
        Some(AnsiColors::Blue)
    } else if name == "magenta"@ || name == "purple"@ {
        Some(AnsiColors::Magenta)
    } else if name == "cyan"@ {
        Some(AnsiColors::Cyan)
    } else if name == "white"@ {
        Some(AnsiColors::White)
    } else if name == "bright black"@ {
        Some(AnsiColors::BrightBlack)
    } else if name == "bright red"@ {
        Some(AnsiColors::BrightRed)
    } else if name == "bright green"@ {
        Some(AnsiColors::BrightGreen)
    } else if name == "bright yellow"@ {
        Some(AnsiColors::BrightYellow)
    } else if name == "bright blue"@ {
        Some(AnsiColors::BrightBlue)
    } else if name == "bright magenta"@ {
        Some(AnsiColors::BrightMagenta)
    } else if name == "bright cyan"@ {
        Some(AnsiColors::BrightCyan)
    } else if name == "bright white"@ {
        Some(AnsiColors::BrightWhite)
    } else {
        None
    }
}

/// The color that a name selects: the color it spells, and white for every
/// text that spells none.
pub open spec fn color_of_name(name: Seq<char>) -> AnsiColors {
    match named_color(name) {
        Some(color) => color,
        None => AnsiColors::White,
    }
}

/// Whether two texts are the same, character by character.
pub fn same_text(a: &str, b: &str) -> (same: bool)
    ensures
        same == (a@ == b@),
{
    let x = a.as_bytes();
    let y = b.as_bytes();
    if x.len() != y.len() {
        return false;
    }
    let mut i: usize = 0;
    while i < x.len()
        invariant
            i <= x.len(),
            x.len() == y.len(),
            x@ == a.spec_bytes(),
            y@ == b.spec_bytes(),
            forall|k: int| 0 <= k < i ==> x@[k] == y@[k],
        decreases x.len() - i,
    {
        if x[i] != y[i] {
            return false;
        }
        i += 1;
    }
    proof {
        assert(x@ =~= y@);
        vstd::utf8::encode_utf8_decode_utf8(a@);
        vstd::utf8::encode_utf8_decode_utf8(b@);
    }
    true
}

/// Looks a color name up; `None` for a text that is no color name.
pub fn lookup_name(name: &str) -> (found: Option<AnsiColors>)
    ensures
        found == named_color(name@),
{
    if same_text(name, "black") {
        Some(AnsiColors::Black)
    } else if same_text(name, "red") {
        Some(AnsiColors::Red)
    } else if same_text(name, "green") {
        Some(AnsiColors::Green)
    } else if same_text(name, "yellow") {
        Some(AnsiColors::Yellow)
    } else if same_text(name, "blue") {
        Some(AnsiColors::Blue)
    } else if same_text(name, "magenta") || same_text(name, "purple") {
        Some(AnsiColors::Magenta)
    } else if same_text(name, "cyan") {
        Some(AnsiColors::Cyan)
    } else if same_text(name, "white") {
        Some(AnsiColors::White)
    } else if same_text(name, "bright black") {
        Some(AnsiColors::BrightBlack)
    } else if same_text(name, "bright red") {
        Some(AnsiColors::BrightRed)
    } else if same_text(name, "bright green") {
        Some(AnsiColors::BrightGreen)
    } else if same_text(name, "bright yellow") {
        Some(AnsiColors::BrightYellow)
    } else if same_text(name, "bright blue") {
        Some(AnsiColors::BrightBlue)
    } else if same_text(name, "bright magenta") {
        Some(AnsiColors::BrightMagenta)
    } else if same_text(name, "bright cyan") {
        Some(AnsiColors::BrightCyan)
    } else if same_text(name, "bright white") {
        Some(AnsiColors::BrightWhite)
    } else {
        None
    }
}

impl AnsiColors {
    /// The color that a name selects: the color it spells, and white for
    /// every text that spells none.
    pub fn from_name(name: &str) -> (color: AnsiColors)
        ensures
            color == color_of_name(name@),
    {
        match lookup_name(name) {
            Some(found) => found,
            None => AnsiColors::White,
        }
    }
}

/// A text is a color by the name it spells, with white for every other text.
impl DynColor for str {
    open spec fn dyn_color(&self) -> DynColors {
        DynColors::Ansi(color_of_name(self@))
    }

    fn get_dyncolors_fg(&self) -> (c: DynColors) {
        DynColors::Ansi(AnsiColors::from_name(self))
    }

    fn get_dyncolors_bg(&self) -> (c: DynColors) {
        DynColors::Ansi(AnsiColors::from_name(self))
    }
}

} // verus!
