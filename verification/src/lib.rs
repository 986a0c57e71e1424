//! Styled terminal text: colors and effects as ANSI escape sequences around
//! the text of a value, chosen by type or by value.
//!
//! A color known when the program is written is a type that implements
//! [`Color`]; a color chosen while it runs is a value that implements
//! [`DynColor`], and every such value stands for one [`DynColors`]. What is
//! wrapped is anything whose text the crate can produce, see [`Render`].

use vstd::prelude::*;

pub mod ansi;
pub mod atomic;
pub mod colorize;
pub mod colors;
pub mod combo;
pub mod display;
pub mod dyn_colors;
pub mod dyn_styles;
pub mod overrides;
pub mod render;
pub mod supports_colors;
pub mod tty_display;

pub use atomic::AtomicOverride;
pub use colorize::OwoColorize;
pub use colors::custom::CustomColor;
pub use colors::dynamic::Rgb;
pub use colors::xterm::XtermColors;
pub use colors::AnsiColors;
pub use display::BgColorDisplay;
pub use display::BgDynColorDisplay;
pub use display::ComboColorDisplay;
pub use display::FgColorDisplay;
pub use display::FgDynColorDisplay;
pub use dyn_colors::DynColors;
pub use dyn_colors::ParseColorError;
pub use dyn_styles::style;
pub use dyn_styles::Effect;
pub use dyn_styles::Style;
pub use dyn_styles::StyleView;
pub use dyn_styles::Styled;
pub use overrides::override_ansi;
pub use overrides::override_set;
pub use overrides::override_status;
pub use overrides::override_truecolor;
pub use overrides::override_xterm;
pub use overrides::set_override;
pub use overrides::supports;
pub use overrides::unset_override;
pub use overrides::with_override;
pub use overrides::ColorLevel;
pub use overrides::ColorOverride;
pub use overrides::Override;
pub use overrides::Stream;
pub use render::Render;
pub use supports_colors::SupportsColorsDisplay;
pub use tty_display::IsTty;
pub use tty_display::StdErr;
pub use tty_display::StdOut;
pub use tty_display::TtyDisplay;

verus! {

/// A color fixed by a type: its foreground and background parameters are the
/// same for every value.
pub trait Color {
    /// The parameters that select this color as the foreground, without the
    /// surrounding `ESC [` and `m`.
    spec fn raw_fg() -> Seq<char>;

    /// The parameters that select this color as the background.
    spec fn raw_bg() -> Seq<char>;

    /// The runtime color that stands for this one.
    spec fn dyn_color() -> DynColors;

    fn raw_ansi_fg() -> (s: String)
        ensures
            s@ == Self::raw_fg(),
    ;

    fn raw_ansi_bg() -> (s: String)
        ensures
            s@ == Self::raw_bg(),
    ;

    fn into_dyncolors() -> (c: DynColors)
        ensures
            c == Self::dyn_color(),
    ;

    /// The complete escape sequence that selects this color as the foreground.
    fn ansi_fg() -> (s: String)
        ensures
            s@ == ansi::sgr(Self::raw_fg()),
    {
        let raw = Self::raw_ansi_fg();
        ansi::sgr_string(raw.as_str())
    }

    /// The complete escape sequence that selects this color as the background.
    fn ansi_bg() -> (s: String)
        ensures
            s@ == ansi::sgr(Self::raw_bg()),
    {
        let raw = Self::raw_ansi_bg();
        ansi::sgr_string(raw.as_str())
    }
}

/// A color chosen at run time. Whatever the implementor, the value stands for
/// one [`DynColors`], and its escape sequences are those of that color.
pub trait DynColor {
    /// The color this value stands for.
    spec fn dyn_color(&self) -> DynColors;

    fn get_dyncolors_fg(&self) -> (c: DynColors)
        ensures
            c == self.dyn_color(),
    ;

    fn get_dyncolors_bg(&self) -> (c: DynColors)
        ensures
            c == self.dyn_color(),
    ;

    /// The complete escape sequence that selects the color as the foreground.
    fn fmt_ansi_fg(&self) -> (s: String)
        ensures
            s@ == ansi::sgr(self.dyn_color().fg_params()),
    {
        let mut s = String::new();
        self.get_dyncolors_fg().push_fg(&mut s);
        assert(s@ =~= ansi::sgr(self.dyn_color().fg_params()));
        s
    }

    /// The complete escape sequence that selects the color as the background.
    fn fmt_ansi_bg(&self) -> (s: String)
        ensures
            s@ == ansi::sgr(self.dyn_color().bg_params()),
    {
        let mut s = String::new();
        self.get_dyncolors_bg().push_bg(&mut s);
        assert(s@ =~= ansi::sgr(self.dyn_color().bg_params()));
        s
    }

    /// The foreground parameters alone, for use inside a combined sequence.
    fn fmt_raw_ansi_fg(&self) -> (s: String)
        ensures
            s@ == self.dyn_color().fg_params(),
    {
        self.get_dyncolors_fg().raw_fg()
    }

    /// The background parameters alone, for use inside a combined sequence.
    fn fmt_raw_ansi_bg(&self) -> (s: String)
        ensures
            s@ == self.dyn_color().bg_params(),
    {
        self.get_dyncolors_bg().raw_bg()
    }
}

impl<C: DynColor + ?Sized> DynColor for &C {
    open spec fn dyn_color(&self) -> DynColors {
        (**self).dyn_color()
    }

    fn get_dyncolors_fg(&self) -> (c: DynColors) {
        (**self).get_dyncolors_fg()
    }

    fn get_dyncolors_bg(&self) -> (c: DynColors) {
        (**self).get_dyncolors_bg()
    }
}

} // verus!
