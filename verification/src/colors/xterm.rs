//! The 256-color xterm palette.

use crate::ansi::{decimal, join};
use crate::dyn_colors::DynColors;
use crate::DynColor;
use vstd::prelude::*;
use vstd::std_specs::convert::FromSpecImpl;

verus! {

/// A color of the xterm palette, by its index.
///
/// The first sixteen entries are the named colors: 0 to 7 the eight base
/// colors, 8 to 15 their bright variants. These use the short codes of the
/// named colors; every other entry uses the extended form `38;5;n` /
/// `48;5;n`.
#[derive(Copy, Clone, Debug, PartialEq, Eq, Structural)]
pub struct XtermColors(pub u8);

impl XtermColors {
    /// The foreground parameters of the palette entry.
    pub open spec fn fg_params(self) -> Seq<char> {
        if self.0 < 8 {
            decimal((30 + self.0) as nat)
        } else if self.0 < 16 {
            decimal((82 + self.0) as nat)
        } else {
            join(join(decimal(38), decimal(5)), decimal(self.0 as nat))
        }
    }

    /// The background parameters of the palette entry.
    pub open spec fn bg_params(self) -> Seq<char> {
        if self.0 < 8 {
            decimal((40 + self.0) as nat)
        } else if self.0 < 16 {
            decimal((92 + self.0) as nat)
        } else {
            join(join(decimal(48), decimal(5)), decimal(self.0 as nat))
        }
    }
}

impl DynColor for XtermColors {
    open spec fn dyn_color(&self) -> DynColors {
        DynColors::Xterm(*self)
    }

    fn get_dyncolors_fg(&self) -> (c: DynColors) {
        DynColors::Xterm(*self)
    }

    fn get_dyncolors_bg(&self) -> (c: DynColors) {
        DynColors::Xterm(*self)
    }
}

/// A palette index converts to the entry at that index.
impl From<u8> for XtermColors {
    fn from(index: u8) -> (c: Self) {
        XtermColors(index)
    }
}

impl FromSpecImpl<u8> for XtermColors {
    open spec fn obeys_from_spec() -> bool {
        true
    }

    open spec fn from_spec(index: u8) -> Self {
        XtermColors(index)
    }
}

} // verus!
