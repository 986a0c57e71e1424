//! The methods that color any value.

use crate::atomic::AtomicOverride;
use crate::colors::dynamic::Rgb;
use crate::colors::{
    Black, Blue, BrightBlack, BrightBlue, BrightCyan, BrightGreen, BrightMagenta, BrightRed,
    BrightWhite, BrightYellow, Cyan, CustomColor, Green, Magenta, Red, White, Yellow,
};
use crate::display::{BgColorDisplay, BgDynColorDisplay, FgColorDisplay, FgDynColorDisplay};
use crate::dyn_styles::{Style, Styled};
use crate::overrides::Stream;
use crate::supports_colors::SupportsColorsDisplay;
use crate::tty_display::{StdErr, StdOut, TtyDisplay};
use crate::Color;
use crate::DynColor;
use vstd::prelude::*;

verus! {

/// Coloring for every value: each method borrows the value and returns a
/// wrapper around it. The value itself is never changed.
pub trait OwoColorize: Sized {
    /// Gives the value the foreground color of the type `C`.
    fn fg<'a, C: Color>(&'a self) -> (r: FgColorDisplay<'a, C, Self>)
        ensures
            r.target() == self,
    {
        FgColorDisplay::new(self)
    }

    /// Gives the value the background color of the type `C`.
    fn bg<'a, C: Color>(&'a self) -> (r: BgColorDisplay<'a, C, Self>)
        ensures
            r.target() == self,
    {
        BgColorDisplay::new(self)
    }

    /// Gives the value the foreground color black.
    fn black<'a>(&'a self) -> (r: FgColorDisplay<'a, Black, Self>)
        ensures
            r.target() == self,
    {
        FgColorDisplay::new(self)
    }

    /// Gives the value the background color black.
    fn on_black<'a>(&'a self) -> (r: BgColorDisplay<'a, Black, Self>)
        ensures
            r.target() == self,
    {
        BgColorDisplay::new(self)
    }

    /// Gives the value the foreground color red.
    fn red<'a>(&'a self) -> (r: FgColorDisplay<'a, Red, Self>)
        ensures
            r.target() == self,
    {
        FgColorDisplay::new(self)
    }

    /// Gives the value the background color red.
    fn on_red<'a>(&'a self) -> (r: BgColorDisplay<'a, Red, Self>)
        ensures
            r.target() == self,
    {
        BgColorDisplay::new(self)
    }

    /// Gives the value the foreground color green.
    fn green<'a>(&'a self) -> (r: FgColorDisplay<'a, Green, Self>)
        ensures
            r.target() == self,
    {
        FgColorDisplay::new(self)
    }

    /// Gives the value the background color green.
    fn on_green<'a>(&'a self) -> (r: BgColorDisplay<'a, Green, Self>)
        ensures
            r.target() == self,
    {
        BgColorDisplay::new(self)
    }

    /// Gives the value the foreground color yellow.
    fn yellow<'a>(&'a self) -> (r: FgColorDisplay<'a, Yellow, Self>)
        ensures
            r.target() == self,
    {
        FgColorDisplay::new(self)
    }

    /// Gives the value the background color yellow.
    fn on_yellow<'a>(&'a self) -> (r: BgColorDisplay<'a, Yellow, Self>)
        ensures
            r.target() == self,
    {
        BgColorDisplay::new(self)
    }

    /// Gives the value the foreground color blue.
    fn blue<'a>(&'a self) -> (r: FgColorDisplay<'a, Blue, Self>)
        ensures
            r.target() == self,
    {
        FgColorDisplay::new(self)
    }

    /// Gives the value the background color blue.
    fn on_blue<'a>(&'a self) -> (r: BgColorDisplay<'a, Blue, Self>)
        ensures
            r.target() == self,
    {
        BgColorDisplay::new(self)
    }

    /// Gives the value the foreground color magenta.
    fn magenta<'a>(&'a self) -> (r: FgColorDisplay<'a, Magenta, Self>)
        ensures
            r.target() == self,
    {
        FgColorDisplay::new(self)
    }

    /// Gives the value the background color magenta.
    fn on_magenta<'a>(&'a self) -> (r: BgColorDisplay<'a, Magenta, Self>)
        ensures
            r.target() == self,
    {
        BgColorDisplay::new(self)
    }

    /// Gives the value the foreground color purple.
    fn purple<'a>(&'a self) -> (r: FgColorDisplay<'a, Magenta, Self>)
        ensures
            r.target() == self,
    {
        FgColorDisplay::new(self)
    }

    /// Gives the value the background color purple.
    fn on_purple<'a>(&'a self) -> (r: BgColorDisplay<'a, Magenta, Self>)
        ensures
            r.target() == self,
    {
        BgColorDisplay::new(self)
    }

    /// Gives the value the foreground color cyan.
    fn cyan<'a>(&'a self) -> (r: FgColorDisplay<'a, Cyan, Self>)
        ensures
            r.target() == self,
    {
        FgColorDisplay::new(self)
    }

    /// Gives the value the background color cyan.
    fn on_cyan<'a>(&'a self) -> (r: BgColorDisplay<'a, Cyan, Self>)
        ensures
            r.target() == self,
    {
        BgColorDisplay::new(self)
    }

    /// Gives the value the foreground color white.
    fn white<'a>(&'a self) -> (r: FgColorDisplay<'a, White, Self>)
        ensures
            r.target() == self,
    {
        FgColorDisplay::new(self)
    }

    /// Gives the value the background color white.
    fn on_white<'a>(&'a self) -> (r: BgColorDisplay<'a, White, Self>)
        ensures
            r.target() == self,
    {
        BgColorDisplay::new(self)
    }

    /// Gives the value the foreground color bright black.
    fn bright_black<'a>(&'a self) -> (r: FgColorDisplay<'a, BrightBlack, Self>)
        ensures
            r.target() == self,
    {
        FgColorDisplay::new(self)
    }

    /// Gives the value the background color bright black.
    fn on_bright_black<'a>(&'a self) -> (r: BgColorDisplay<'a, BrightBlack, Self>)
        ensures
            r.target() == self,
    {
        BgColorDisplay::new(self)
    }

    /// Gives the value the foreground color bright red.
    fn bright_red<'a>(&'a self) -> (r: FgColorDisplay<'a, BrightRed, Self>)
        ensures
            r.target() == self,
    {
        FgColorDisplay::new(self)
    }

    /// Gives the value the background color bright red.
    fn on_bright_red<'a>(&'a self) -> (r: BgColorDisplay<'a, BrightRed, Self>)
        ensures
            r.target() == self,
    {
        BgColorDisplay::new(self)
    }

    /// Gives the value the foreground color bright green.
    fn bright_green<'a>(&'a self) -> (r: FgColorDisplay<'a, BrightGreen, Self>)
        ensures
            r.target() == self,
    {
        FgColorDisplay::new(self)
    }

    /// Gives the value the background color bright green.
    fn on_bright_green<'a>(&'a self) -> (r: BgColorDisplay<'a, BrightGreen, Self>)
        ensures
            r.target() == self,
    {
        BgColorDisplay::new(self)
    }

    /// Gives the value the foreground color bright yellow.
    fn bright_yellow<'a>(&'a self) -> (r: FgColorDisplay<'a, BrightYellow, Self>)
        ensures
            r.target() == self,
    {
        FgColorDisplay::new(self)
    }

    /// Gives the value the background color bright yellow.
    fn on_bright_yellow<'a>(&'a self) -> (r: BgColorDisplay<'a, BrightYellow, Self>)
        ensures
            r.target() == self,
    {
        BgColorDisplay::new(self)
    }

    /// Gives the value the foreground color bright blue.
    fn bright_blue<'a>(&'a self) -> (r: FgColorDisplay<'a, BrightBlue, Self>)
        ensures
            r.target() == self,
    {
        FgColorDisplay::new(self)
    }

    /// Gives the value the background color bright blue.
    fn on_bright_blue<'a>(&'a self) -> (r: BgColorDisplay<'a, BrightBlue, Self>)
        ensures
            r.target() == self,
    {
        BgColorDisplay::new(self)
    }

    /// Gives the value the foreground color bright magenta.
    fn bright_magenta<'a>(&'a self) -> (r: FgColorDisplay<'a, BrightMagenta, Self>)
        ensures
            r.target() == self,
    {
        FgColorDisplay::new(self)
    }

    /// Gives the value the background color bright magenta.
    fn on_bright_magenta<'a>(&'a self) -> (r: BgColorDisplay<'a, BrightMagenta, Self>)
        ensures
            r.target() == self,
    {
        BgColorDisplay::new(self)
    }

    /// Gives the value the foreground color bright purple.
    fn bright_purple<'a>(&'a self) -> (r: FgColorDisplay<'a, BrightMagenta, Self>)
        ensures
            r.target() == self,
    {
        FgColorDisplay::new(self)
    }

    /// Gives the value the background color bright purple.
    fn on_bright_purple<'a>(&'a self) -> (r: BgColorDisplay<'a, BrightMagenta, Self>)
        ensures
            r.target() == self,
    {
        BgColorDisplay::new(self)
    }

    /// Gives the value the foreground color bright cyan.
    fn bright_cyan<'a>(&'a self) -> (r: FgColorDisplay<'a, BrightCyan, Self>)
        ensures
            r.target() == self,
    {
        FgColorDisplay::new(self)
    }

    /// Gives the value the background color bright cyan.
    fn on_bright_cyan<'a>(&'a self) -> (r: BgColorDisplay<'a, BrightCyan, Self>)
        ensures
            r.target() == self,
    {
        BgColorDisplay::new(self)
    }

    /// Gives the value the foreground color bright white.
    fn bright_white<'a>(&'a self) -> (r: FgColorDisplay<'a, BrightWhite, Self>)
        ensures
            r.target() == self,
    {
        FgColorDisplay::new(self)
    }

    /// Gives the value the background color bright white.
    fn on_bright_white<'a>(&'a self) -> (r: BgColorDisplay<'a, BrightWhite, Self>)
        ensures
            r.target() == self,
    {
        BgColorDisplay::new(self)
    }

    /// Gives the value a foreground color chosen at run time.
    fn color<'a, D: DynColor>(&'a self, color: D) -> (r: FgDynColorDisplay<'a, D, Self>)
        ensures
            r.target() == self,
            r.color() == color,
    {
        FgDynColorDisplay::new(self, color)
    }

    /// Gives the value a background color chosen at run time.
    fn on_color<'a, D: DynColor>(&'a self, color: D) -> (r: BgDynColorDisplay<'a, D, Self>)
        ensures
            r.target() == self,
            r.color() == color,
    {
        BgDynColorDisplay::new(self, color)
    }

    /// Gives the value the 24-bit foreground color `R`, `G`, `B`.
    fn fg_rgb<'a, const R: u8, const G: u8, const B: u8>(&'a self) -> (r: FgColorDisplay<
        'a,
        CustomColor<R, G, B>,
        Self,
    >)
        ensures
            r.target() == self,
    {
        FgColorDisplay::new(self)
    }

    /// Gives the value the 24-bit background color `R`, `G`, `B`.
    fn bg_rgb<'a, const R: u8, const G: u8, const B: u8>(&'a self) -> (r: BgColorDisplay<
        'a,
        CustomColor<R, G, B>,
        Self,
    >)
        ensures
            r.target() == self,
    {
        BgColorDisplay::new(self)
    }

    /// Gives the value the 24-bit foreground color `r`, `g`, `b`.
    fn truecolor<'a>(&'a self, r: u8, g: u8, b: u8) -> (wrapped: FgDynColorDisplay<'a, Rgb, Self>)
        ensures
            wrapped.target() == self,
            wrapped.color() == Rgb(r, g, b),
    {
        FgDynColorDisplay::new(self, Rgb(r, g, b))
    }

    /// Gives the value the 24-bit background color `r`, `g`, `b`.
    fn on_truecolor<'a>(&'a self, r: u8, g: u8, b: u8) -> (wrapped: BgDynColorDisplay<
        'a,
        Rgb,
        Self,
    >)
        ensures
            wrapped.target() == self,
            wrapped.color() == Rgb(r, g, b),
    {
        BgDynColorDisplay::new(self, Rgb(r, g, b))
    }

    /// Shows the value in a style put together at run time.
    fn style(&self, style: Style) -> (r: Styled<&Self>)
        ensures
            r.target() == self,
            r.style() == style@,
    {
        style.style(self)
    }

    /// Styles the value by `apply` where the standard output is a terminal.
    fn if_stdout_tty<'a, Out, ApplyFn>(&'a self, apply: ApplyFn) -> (r: TtyDisplay<
        'a,
        StdOut,
        Self,
        Out,
        ApplyFn,
    >) where ApplyFn: Fn(&'a Self) -> Out
        requires
            call_requires(apply, (self,)),
        ensures
            r.target() == self,
            r.transform() == apply,
    {
        TtyDisplay::new(self, apply, StdOut)
    }

    /// Styles the value by `apply` where the standard error is a terminal.
    fn if_stderr_tty<'a, Out, ApplyFn>(&'a self, apply: ApplyFn) -> (r: TtyDisplay<
        'a,
        StdErr,
        Self,
        Out,
        ApplyFn,
    >) where ApplyFn: Fn(&'a Self) -> Out
        requires
            call_requires(apply, (self,)),
        ensures
            r.target() == self,
            r.transform() == apply,
    {
        TtyDisplay::new(self, apply, StdErr)
    }

    /// Styles the value by `apply` where `stream` supports color, under the
    /// overrides that `overrides` holds when the text is made.
    fn if_supports_color<'a, Out, ApplyFn>(
        &'a self,
        overrides: &'a AtomicOverride,
        stream: Stream,
        apply: ApplyFn,
    ) -> (r: SupportsColorsDisplay<'a, Self, Out, ApplyFn>) where ApplyFn: Fn(&'a Self) -> Out
        requires
            call_requires(apply, (self,)),
        ensures
            r.target() == self,
            r.transform() == apply,
            r.stream() == stream,
    {
        SupportsColorsDisplay::new(self, apply, stream, overrides)
    }
}

impl<D: Sized> OwoColorize for D {

}

} // verus!
