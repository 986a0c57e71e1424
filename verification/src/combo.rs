//! The color methods of the wrappers that are fixed by type.
//!
//! A color applied to a wrapper replaces the color that the wrapper had on
//! the same channel and keeps the color of the other channel: a wrapper
//! never holds more than one foreground and one background.

use crate::colors::{
    Black, Blue, BrightBlack, BrightBlue, BrightCyan, BrightGreen, BrightMagenta, BrightRed,
    BrightWhite, BrightYellow, Cyan, Green, Magenta, Red, White, Yellow,
};
use crate::display::{BgColorDisplay, ComboColorDisplay, FgColorDisplay};
use crate::Color;
use vstd::prelude::*;

verus! {

impl<'a, Fg: Color, T> FgColorDisplay<'a, Fg, T> {
    /// Changes the foreground color to black.
    pub fn black(self) -> (r: FgColorDisplay<'a, Black, T>)
        ensures
            r == self.with_fg::<Black>(),
            r.target() == self.target(),
    {
        self.fg::<Black>()
    }

    /// Adds the background color black.
    pub fn on_black(self) -> (r: ComboColorDisplay<'a, Fg, Black, T>)
        ensures
            r == self.with_bg::<Black>(),
            r.target() == self.target(),
    {
        self.bg::<Black>()
    }

    /// Changes the foreground color to red.
    pub fn red(self) -> (r: FgColorDisplay<'a, Red, T>)
        ensures
            r == self.with_fg::<Red>(),
            r.target() == self.target(),
    {
        self.fg::<Red>()
    }

    /// Adds the background color red.
    pub fn on_red(self) -> (r: ComboColorDisplay<'a, Fg, Red, T>)
        ensures
            r == self.with_bg::<Red>(),
            r.target() == self.target(),
    {
        self.bg::<Red>()
    }

    /// Changes the foreground color to green.
    pub fn green(self) -> (r: FgColorDisplay<'a, Green, T>)
        ensures
            r == self.with_fg::<Green>(),
            r.target() == self.target(),
    {
        self.fg::<Green>()
    }

    /// Adds the background color green.
    pub fn on_green(self) -> (r: ComboColorDisplay<'a, Fg, Green, T>)
        ensures
            r == self.with_bg::<Green>(),
            r.target() == self.target(),
    {
        self.bg::<Green>()
    }

    /// Changes the foreground color to yellow.
    pub fn yellow(self) -> (r: FgColorDisplay<'a, Yellow, T>)
        ensures
            r == self.with_fg::<Yellow>(),
            r.target() == self.target(),
    {
        self.fg::<Yellow>()
    }

    /// Adds the background color yellow.
    pub fn on_yellow(self) -> (r: ComboColorDisplay<'a, Fg, Yellow, T>)
        ensures
            r == self.with_bg::<Yellow>(),
            r.target() == self.target(),
    {
        self.bg::<Yellow>()
    }

    /// Changes the foreground color to blue.
    pub fn blue(self) -> (r: FgColorDisplay<'a, Blue, T>)
        ensures
            r == self.with_fg::<Blue>(),
            r.target() == self.target(),
    {
        self.fg::<Blue>()
    }

    /// Adds the background color blue.
    pub fn on_blue(self) -> (r: ComboColorDisplay<'a, Fg, Blue, T>)
        ensures
            r == self.with_bg::<Blue>(),
            r.target() == self.target(),
    {
        self.bg::<Blue>()
    }

    /// Changes the foreground color to magenta.
    pub fn magenta(self) -> (r: FgColorDisplay<'a, Magenta, T>)
        ensures
            r == self.with_fg::<Magenta>(),
            r.target() == self.target(),
    {
        self.fg::<Magenta>()
    }

    /// Adds the background color magenta.
    pub fn on_magenta(self) -> (r: ComboColorDisplay<'a, Fg, Magenta, T>)
        ensures
            r == self.with_bg::<Magenta>(),
            r.target() == self.target(),
    {
        self.bg::<Magenta>()
    }

    /// Changes the foreground color to purple.
    pub fn purple(self) -> (r: FgColorDisplay<'a, Magenta, T>)
        ensures
            r == self.with_fg::<Magenta>(),
            r.target() == self.target(),
    {
        self.fg::<Magenta>()
    }

    /// Adds the background color purple.
    pub fn on_purple(self) -> (r: ComboColorDisplay<'a, Fg, Magenta, T>)
        ensures
            r == self.with_bg::<Magenta>(),
            r.target() == self.target(),
    {
        self.bg::<Magenta>()
    }

    /// Changes the foreground color to cyan.
    pub fn cyan(self) -> (r: FgColorDisplay<'a, Cyan, T>)
        ensures
            r == self.with_fg::<Cyan>(),
            r.target() == self.target(),
    {
        self.fg::<Cyan>()
    }

    /// Adds the background color cyan.
    pub fn on_cyan(self) -> (r: ComboColorDisplay<'a, Fg, Cyan, T>)
        ensures
            r == self.with_bg::<Cyan>(),
            r.target() == self.target(),
    {
        self.bg::<Cyan>()
    }

    /// Changes the foreground color to white.
    pub fn white(self) -> (r: FgColorDisplay<'a, White, T>)
        ensures
            r == self.with_fg::<White>(),
            r.target() == self.target(),
    {
        self.fg::<White>()
    }

    /// Adds the background color white.
    pub fn on_white(self) -> (r: ComboColorDisplay<'a, Fg, White, T>)
        ensures
            r == self.with_bg::<White>(),
            r.target() == self.target(),
    {
        self.bg::<White>()
    }

    /// Changes the foreground color to bright black.
    pub fn bright_black(self) -> (r: FgColorDisplay<'a, BrightBlack, T>)
        ensures
            r == self.with_fg::<BrightBlack>(),
            r.target() == self.target(),
    {
        self.fg::<BrightBlack>()
    }

    /// Adds the background color bright black.
    pub fn on_bright_black(self) -> (r: ComboColorDisplay<'a, Fg, BrightBlack, T>)
        ensures
            r == self.with_bg::<BrightBlack>(),
            r.target() == self.target(),
    {
        self.bg::<BrightBlack>()
    }

    /// Changes the foreground color to bright red.
    pub fn bright_red(self) -> (r: FgColorDisplay<'a, BrightRed, T>)
        ensures
            r == self.with_fg::<BrightRed>(),
            r.target() == self.target(),
    {
        self.fg::<BrightRed>()
    }

    /// Adds the background color bright red.
    pub fn on_bright_red(self) -> (r: ComboColorDisplay<'a, Fg, BrightRed, T>)
        ensures
            r == self.with_bg::<BrightRed>(),
            r.target() == self.target(),
    {
        self.bg::<BrightRed>()
    }

    /// Changes the foreground color to bright green.
    pub fn bright_green(self) -> (r: FgColorDisplay<'a, BrightGreen, T>)
        ensures
            r == self.with_fg::<BrightGreen>(),
            r.target() == self.target(),
    {
        self.fg::<BrightGreen>()
    }

    /// Adds the background color bright green.
    pub fn on_bright_green(self) -> (r: ComboColorDisplay<'a, Fg, BrightGreen, T>)
        ensures
            r == self.with_bg::<BrightGreen>(),
            r.target() == self.target(),
    {
        self.bg::<BrightGreen>()
    }

    /// Changes the foreground color to bright yellow.
    pub fn bright_yellow(self) -> (r: FgColorDisplay<'a, BrightYellow, T>)
        ensures
            r == self.with_fg::<BrightYellow>(),
            r.target() == self.target(),
    {
        self.fg::<BrightYellow>()
    }

    /// Adds the background color bright yellow.
    pub fn on_bright_yellow(self) -> (r: ComboColorDisplay<'a, Fg, BrightYellow, T>)
        ensures
            r == self.with_bg::<BrightYellow>(),
            r.target() == self.target(),
    {
        self.bg::<BrightYellow>()
    }

    /// Changes the foreground color to bright blue.
    pub fn bright_blue(self) -> (r: FgColorDisplay<'a, BrightBlue, T>)
        ensures
            r == self.with_fg::<BrightBlue>(),
            r.target() == self.target(),
    {
        self.fg::<BrightBlue>()
    }

    /// Adds the background color bright blue.
    pub fn on_bright_blue(self) -> (r: ComboColorDisplay<'a, Fg, BrightBlue, T>)
        ensures
            r == self.with_bg::<BrightBlue>(),
            r.target() == self.target(),
    {
        self.bg::<BrightBlue>()
    }

    /// Changes the foreground color to bright magenta.
    pub fn bright_magenta(self) -> (r: FgColorDisplay<'a, BrightMagenta, T>)
        ensures
            r == self.with_fg::<BrightMagenta>(),
            r.target() == self.target(),
    {
        self.fg::<BrightMagenta>()
    }

    /// Adds the background color bright magenta.
    pub fn on_bright_magenta(self) -> (r: ComboColorDisplay<'a, Fg, BrightMagenta, T>)
        ensures
            r == self.with_bg::<BrightMagenta>(),
            r.target() == self.target(),
    {
        self.bg::<BrightMagenta>()
    }

    /// Changes the foreground color to bright purple.
    pub fn bright_purple(self) -> (r: FgColorDisplay<'a, BrightMagenta, T>)
        ensures
            r == self.with_fg::<BrightMagenta>(),
            r.target() == self.target(),
    {
        self.fg::<BrightMagenta>()
    }

    /// Adds the background color bright purple.
    pub fn on_bright_purple(self) -> (r: ComboColorDisplay<'a, Fg, BrightMagenta, T>)
        ensures
            r == self.with_bg::<BrightMagenta>(),
            r.target() == self.target(),
    {
        self.bg::<BrightMagenta>()
    }

    /// Changes the foreground color to bright cyan.
    pub fn bright_cyan(self) -> (r: FgColorDisplay<'a, BrightCyan, T>)
        ensures
            r == self.with_fg::<BrightCyan>(),
            r.target() == self.target(),
    {
        self.fg::<BrightCyan>()
    }

    /// Adds the background color bright cyan.
    pub fn on_bright_cyan(self) -> (r: ComboColorDisplay<'a, Fg, BrightCyan, T>)
        ensures
            r == self.with_bg::<BrightCyan>(),
            r.target() == self.target(),
    {
        self.bg::<BrightCyan>()
    }

    /// Changes the foreground color to bright white.
    pub fn bright_white(self) -> (r: FgColorDisplay<'a, BrightWhite, T>)
        ensures
            r == self.with_fg::<BrightWhite>(),
            r.target() == self.target(),
    {
        self.fg::<BrightWhite>()
    }

    /// Adds the background color bright white.
    pub fn on_bright_white(self) -> (r: ComboColorDisplay<'a, Fg, BrightWhite, T>)
        ensures
            r == self.with_bg::<BrightWhite>(),
            r.target() == self.target(),
    {
        self.bg::<BrightWhite>()
    }
}

impl<'a, Bg: Color, T> BgColorDisplay<'a, Bg, T> {
    /// Adds the foreground color black.
    pub fn black(self) -> (r: ComboColorDisplay<'a, Black, Bg, T>)
        ensures
            r == self.with_fg::<Black>(),
            r.target() == self.target(),
    {
        self.fg::<Black>()
    }

    /// Changes the background color to black.
    pub fn on_black(self) -> (r: BgColorDisplay<'a, Black, T>)
        ensures
            r == self.with_bg::<Black>(),
            r.target() == self.target(),
    {
        self.bg::<Black>()
    }

    /// Adds the foreground color red.
    pub fn red(self) -> (r: ComboColorDisplay<'a, Red, Bg, T>)
        ensures
            r == self.with_fg::<Red>(),
            r.target() == self.target(),
    {
        self.fg::<Red>()
    }

    /// Changes the background color to red.
    pub fn on_red(self) -> (r: BgColorDisplay<'a, Red, T>)
        ensures
            r == self.with_bg::<Red>(),
            r.target() == self.target(),
    {
        self.bg::<Red>()
    }

    /// Adds the foreground color green.
    pub fn green(self) -> (r: ComboColorDisplay<'a, Green, Bg, T>)
        ensures
            r == self.with_fg::<Green>(),
            r.target() == self.target(),
    {
        self.fg::<Green>()
    }

    /// Changes the background color to green.
    pub fn on_green(self) -> (r: BgColorDisplay<'a, Green, T>)
        ensures
            r == self.with_bg::<Green>(),
            r.target() == self.target(),
    {
        self.bg::<Green>()
    }

    /// Adds the foreground color yellow.
    pub fn yellow(self) -> (r: ComboColorDisplay<'a, Yellow, Bg, T>)
        ensures
            r == self.with_fg::<Yellow>(),
            r.target() == self.target(),
    {
        self.fg::<Yellow>()
    }

    /// Changes the background color to yellow.
    pub fn on_yellow(self) -> (r: BgColorDisplay<'a, Yellow, T>)
        ensures
            r == self.with_bg::<Yellow>(),
            r.target() == self.target(),
    {
        self.bg::<Yellow>()
    }

    /// Adds the foreground color blue.
    pub fn blue(self) -> (r: ComboColorDisplay<'a, Blue, Bg, T>)
        ensures
            r == self.with_fg::<Blue>(),
            r.target() == self.target(),
    {
        self.fg::<Blue>()
    }

    /// Changes the background color to blue.
    pub fn on_blue(self) -> (r: BgColorDisplay<'a, Blue, T>)
        ensures
            r == self.with_bg::<Blue>(),
            r.target() == self.target(),
    {
        self.bg::<Blue>()
    }

    /// Adds the foreground color magenta.
    pub fn magenta(self) -> (r: ComboColorDisplay<'a, Magenta, Bg, T>)
        ensures
            r == self.with_fg::<Magenta>(),
            r.target() == self.target(),
    {
        self.fg::<Magenta>()
    }

    /// Changes the background color to magenta.
    pub fn on_magenta(self) -> (r: BgColorDisplay<'a, Magenta, T>)
        ensures
            r == self.with_bg::<Magenta>(),
            r.target() == self.target(),
    {
        self.bg::<Magenta>()
    }

    /// Adds the foreground color purple.
    pub fn purple(self) -> (r: ComboColorDisplay<'a, Magenta, Bg, T>)
        ensures
            r == self.with_fg::<Magenta>(),
            r.target() == self.target(),
    {
        self.fg::<Magenta>()
    }

    /// Changes the background color to purple.
    pub fn on_purple(self) -> (r: BgColorDisplay<'a, Magenta, T>)
        ensures
            r == self.with_bg::<Magenta>(),
            r.target() == self.target(),
    {
        self.bg::<Magenta>()
    }

    /// Adds the foreground color cyan.
    pub fn cyan(self) -> (r: ComboColorDisplay<'a, Cyan, Bg, T>)
        ensures
            r == self.with_fg::<Cyan>(),
            r.target() == self.target(),
    {
        self.fg::<Cyan>()
    }

    /// Changes the background color to cyan.
    pub fn on_cyan(self) -> (r: BgColorDisplay<'a, Cyan, T>)
        ensures
            r == self.with_bg::<Cyan>(),
            r.target() == self.target(),
    {
        self.bg::<Cyan>()
    }

    /// Adds the foreground color white.
    pub fn white(self) -> (r: ComboColorDisplay<'a, White, Bg, T>)
        ensures
            r == self.with_fg::<White>(),
            r.target() == self.target(),
    {
        self.fg::<White>()
    }

    /// Changes the background color to white.
    pub fn on_white(self) -> (r: BgColorDisplay<'a, White, T>)
        ensures
            r == self.with_bg::<White>(),
            r.target() == self.target(),
    {
        self.bg::<White>()
    }

    /// Adds the foreground color bright black.
    pub fn bright_black(self) -> (r: ComboColorDisplay<'a, BrightBlack, Bg, T>)
        ensures
            r == self.with_fg::<BrightBlack>(),
            r.target() == self.target(),
    {
        self.fg::<BrightBlack>()
    }

    /// Changes the background color to bright black.
    pub fn on_bright_black(self) -> (r: BgColorDisplay<'a, BrightBlack, T>)
        ensures
            r == self.with_bg::<BrightBlack>(),
            r.target() == self.target(),
    {
        self.bg::<BrightBlack>()
    }

    /// Adds the foreground color bright red.
    pub fn bright_red(self) -> (r: ComboColorDisplay<'a, BrightRed, Bg, T>)
        ensures
            r == self.with_fg::<BrightRed>(),
            r.target() == self.target(),
    {
        self.fg::<BrightRed>()
    }

    /// Changes the background color to bright red.
    pub fn on_bright_red(self) -> (r: BgColorDisplay<'a, BrightRed, T>)
        ensures
            r == self.with_bg::<BrightRed>(),
            r.target() == self.target(),
    {
        self.bg::<BrightRed>()
    }

    /// Adds the foreground color bright green.
    pub fn bright_green(self) -> (r: ComboColorDisplay<'a, BrightGreen, Bg, T>)
        ensures
            r == self.with_fg::<BrightGreen>(),
            r.target() == self.target(),
    {
        self.fg::<BrightGreen>()
    }

    /// Changes the background color to bright green.
    pub fn on_bright_green(self) -> (r: BgColorDisplay<'a, BrightGreen, T>)
        ensures
            r == self.with_bg::<BrightGreen>(),
            r.target() == self.target(),
    {
        self.bg::<BrightGreen>()
    }

    /// Adds the foreground color bright yellow.
    pub fn bright_yellow(self) -> (r: ComboColorDisplay<'a, BrightYellow, Bg, T>)
        ensures
            r == self.with_fg::<BrightYellow>(),
            r.target() == self.target(),
    {
        self.fg::<BrightYellow>()
    }

    /// Changes the background color to bright yellow.
    pub fn on_bright_yellow(self) -> (r: BgColorDisplay<'a, BrightYellow, T>)
        ensures
            r == self.with_bg::<BrightYellow>(),
            r.target() == self.target(),
    {
        self.bg::<BrightYellow>()
    }

    /// Adds the foreground color bright blue.
    pub fn bright_blue(self) -> (r: ComboColorDisplay<'a, BrightBlue, Bg, T>)
        ensures
            r == self.with_fg::<BrightBlue>(),
            r.target() == self.target(),
    {
        self.fg::<BrightBlue>()
    }

    /// Changes the background color to bright blue.
    pub fn on_bright_blue(self) -> (r: BgColorDisplay<'a, BrightBlue, T>)
        ensures
            r == self.with_bg::<BrightBlue>(),
            r.target() == self.target(),
    {
        self.bg::<BrightBlue>()
    }

    /// Adds the foreground color bright magenta.
    pub fn bright_magenta(self) -> (r: ComboColorDisplay<'a, BrightMagenta, Bg, T>)
        ensures
            r == self.with_fg::<BrightMagenta>(),
            r.target() == self.target(),
    {
        self.fg::<BrightMagenta>()
    }

    /// Changes the background color to bright magenta.
    pub fn on_bright_magenta(self) -> (r: BgColorDisplay<'a, BrightMagenta, T>)
        ensures
            r == self.with_bg::<BrightMagenta>(),
            r.target() == self.target(),
    {
        self.bg::<BrightMagenta>()
    }

    /// Adds the foreground color bright purple.
    pub fn bright_purple(self) -> (r: ComboColorDisplay<'a, BrightMagenta, Bg, T>)
        ensures
            r == self.with_fg::<BrightMagenta>(),
            r.target() == self.target(),
    {
        self.fg::<BrightMagenta>()
    }

    /// Changes the background color to bright purple.
    pub fn on_bright_purple(self) -> (r: BgColorDisplay<'a, BrightMagenta, T>)
        ensures
            r == self.with_bg::<BrightMagenta>(),
            r.target() == self.target(),
    {
        self.bg::<BrightMagenta>()
    }

    /// Adds the foreground color bright cyan.
    pub fn bright_cyan(self) -> (r: ComboColorDisplay<'a, BrightCyan, Bg, T>)
        ensures
            r == self.with_fg::<BrightCyan>(),
            r.target() == self.target(),
    {
        self.fg::<BrightCyan>()
    }

    /// Changes the background color to bright cyan.
    pub fn on_bright_cyan(self) -> (r: BgColorDisplay<'a, BrightCyan, T>)
        ensures
            r == self.with_bg::<BrightCyan>(),
            r.target() == self.target(),
    {
        self.bg::<BrightCyan>()
    }

    /// Adds the foreground color bright white.
    pub fn bright_white(self) -> (r: ComboColorDisplay<'a, BrightWhite, Bg, T>)
        ensures
            r == self.with_fg::<BrightWhite>(),
            r.target() == self.target(),
    {
        self.fg::<BrightWhite>()
    }

    /// Changes the background color to bright white.
    pub fn on_bright_white(self) -> (r: BgColorDisplay<'a, BrightWhite, T>)
        ensures
            r == self.with_bg::<BrightWhite>(),
            r.target() == self.target(),
    {
        self.bg::<BrightWhite>()
    }
}

impl<'a, Fg: Color, Bg: Color, T> ComboColorDisplay<'a, Fg, Bg, T> {
    /// Changes the foreground color to black.
    pub fn black(self) -> (r: ComboColorDisplay<'a, Black, Bg, T>)
        ensures
            r == self.with_fg::<Black>(),
            r.target() == self.target(),
    {
        self.fg::<Black>()
    }

    /// Changes the background color to black.
    pub fn on_black(self) -> (r: ComboColorDisplay<'a, Fg, Black, T>)
        ensures
            r == self.with_bg::<Black>(),
            r.target() == self.target(),
    {
        self.bg::<Black>()
    }

    /// Changes the foreground color to red.
    pub fn red(self) -> (r: ComboColorDisplay<'a, Red, Bg, T>)
        ensures
            r == self.with_fg::<Red>(),
            r.target() == self.target(),
    {
        self.fg::<Red>()
    }

    /// Changes the background color to red.
    pub fn on_red(self) -> (r: ComboColorDisplay<'a, Fg, Red, T>)
        ensures
            r == self.with_bg::<Red>(),
            r.target() == self.target(),
    {
        self.bg::<Red>()
    }

    /// Changes the foreground color to green.
    pub fn green(self) -> (r: ComboColorDisplay<'a, Green, Bg, T>)
        ensures
            r == self.with_fg::<Green>(),
            r.target() == self.target(),
    {
        self.fg::<Green>()
    }

    /// Changes the background color to green.
    pub fn on_green(self) -> (r: ComboColorDisplay<'a, Fg, Green, T>)
        ensures
            r == self.with_bg::<Green>(),
            r.target() == self.target(),
    {
        self.bg::<Green>()
    }

    /// Changes the foreground color to yellow.
    pub fn yellow(self) -> (r: ComboColorDisplay<'a, Yellow, Bg, T>)
        ensures
            r == self.with_fg::<Yellow>(),
            r.target() == self.target(),
    {
        self.fg::<Yellow>()
    }

    /// Changes the background color to yellow.
    pub fn on_yellow(self) -> (r: ComboColorDisplay<'a, Fg, Yellow, T>)
        ensures
            r == self.with_bg::<Yellow>(),
            r.target() == self.target(),
    {
        self.bg::<Yellow>()
    }

    /// Changes the foreground color to blue.
    pub fn blue(self) -> (r: ComboColorDisplay<'a, Blue, Bg, T>)
        ensures
            r == self.with_fg::<Blue>(),
            r.target() == self.target(),
    {
        self.fg::<Blue>()
    }

    /// Changes the background color to blue.
    pub fn on_blue(self) -> (r: ComboColorDisplay<'a, Fg, Blue, T>)
        ensures
            r == self.with_bg::<Blue>(),
            r.target() == self.target(),
    {
        self.bg::<Blue>()
    }

    /// Changes the foreground color to magenta.
    pub fn magenta(self) -> (r: ComboColorDisplay<'a, Magenta, Bg, T>)
        ensures
            r == self.with_fg::<Magenta>(),
            r.target() == self.target(),
    {
        self.fg::<Magenta>()
    }

    /// Changes the background color to magenta.
    pub fn on_magenta(self) -> (r: ComboColorDisplay<'a, Fg, Magenta, T>)
        ensures
            r == self.with_bg::<Magenta>(),
            r.target() == self.target(),
    {
        self.bg::<Magenta>()
    }

    /// Changes the foreground color to purple.
    pub fn purple(self) -> (r: ComboColorDisplay<'a, Magenta, Bg, T>)
        ensures
            r == self.with_fg::<Magenta>(),
            r.target() == self.target(),
    {
        self.fg::<Magenta>()
    }

    /// Changes the background color to purple.
    pub fn on_purple(self) -> (r: ComboColorDisplay<'a, Fg, Magenta, T>)
        ensures
            r == self.with_bg::<Magenta>(),
            r.target() == self.target(),
    {
        self.bg::<Magenta>()
    }

    /// Changes the foreground color to cyan.
    pub fn cyan(self) -> (r: ComboColorDisplay<'a, Cyan, Bg, T>)
        ensures
            r == self.with_fg::<Cyan>(),
            r.target() == self.target(),
    {
        self.fg::<Cyan>()
    }

    /// Changes the background color to cyan.
    pub fn on_cyan(self) -> (r: ComboColorDisplay<'a, Fg, Cyan, T>)
        ensures
            r == self.with_bg::<Cyan>(),
            r.target() == self.target(),
    {
        self.bg::<Cyan>()
    }

    /// Changes the foreground color to white.
    pub fn white(self) -> (r: ComboColorDisplay<'a, White, Bg, T>)
        ensures
            r == self.with_fg::<White>(),
            r.target() == self.target(),
    {
        self.fg::<White>()
    }

    /// Changes the background color to white.
    pub fn on_white(self) -> (r: ComboColorDisplay<'a, Fg, White, T>)
        ensures
            r == self.with_bg::<White>(),
            r.target() == self.target(),
    {
        self.bg::<White>()
    }

    /// Changes the foreground color to bright black.
    pub fn bright_black(self) -> (r: ComboColorDisplay<'a, BrightBlack, Bg, T>)
        ensures
            r == self.with_fg::<BrightBlack>(),
            r.target() == self.target(),
    {
        self.fg::<BrightBlack>()
    }

    /// Changes the background color to bright black.
    pub fn on_bright_black(self) -> (r: ComboColorDisplay<'a, Fg, BrightBlack, T>)
        ensures
            r == self.with_bg::<BrightBlack>(),
            r.target() == self.target(),
    {
        self.bg::<BrightBlack>()
    }

    /// Changes the foreground color to bright red.
    pub fn bright_red(self) -> (r: ComboColorDisplay<'a, BrightRed, Bg, T>)
        ensures
            r == self.with_fg::<BrightRed>(),
            r.target() == self.target(),
    {
        self.fg::<BrightRed>()
    }

    /// Changes the background color to bright red.
    pub fn on_bright_red(self) -> (r: ComboColorDisplay<'a, Fg, BrightRed, T>)
        ensures
            r == self.with_bg::<BrightRed>(),
            r.target() == self.target(),
    {
        self.bg::<BrightRed>()
    }

    /// Changes the foreground color to bright green.
    pub fn bright_green(self) -> (r: ComboColorDisplay<'a, BrightGreen, Bg, T>)
        ensures
            r == self.with_fg::<BrightGreen>(),
            r.target() == self.target(),
    {
        self.fg::<BrightGreen>()
    }

    /// Changes the background color to bright green.
    pub fn on_bright_green(self) -> (r: ComboColorDisplay<'a, Fg, BrightGreen, T>)
        ensures
            r == self.with_bg::<BrightGreen>(),
            r.target() == self.target(),
    {
        self.bg::<BrightGreen>()
    }

    /// Changes the foreground color to bright yellow.
    pub fn bright_yellow(self) -> (r: ComboColorDisplay<'a, BrightYellow, Bg, T>)
        ensures
            r == self.with_fg::<BrightYellow>(),
            r.target() == self.target(),
    {
        self.fg::<BrightYellow>()
    }

    /// Changes the background color to bright yellow.
    pub fn on_bright_yellow(self) -> (r: ComboColorDisplay<'a, Fg, BrightYellow, T>)
        ensures
            r == self.with_bg::<BrightYellow>(),
            r.target() == self.target(),
    {
        self.bg::<BrightYellow>()
    }

    /// Changes the foreground color to bright blue.
    pub fn bright_blue(self) -> (r: ComboColorDisplay<'a, BrightBlue, Bg, T>)
        ensures
            r == self.with_fg::<BrightBlue>(),
            r.target() == self.target(),
    {
        self.fg::<BrightBlue>()
    }

    /// Changes the background color to bright blue.
    pub fn on_bright_blue(self) -> (r: ComboColorDisplay<'a, Fg, BrightBlue, T>)
        ensures
            r == self.with_bg::<BrightBlue>(),
            r.target() == self.target(),
    {
        self.bg::<BrightBlue>()
    }

    /// Changes the foreground color to bright magenta.
    pub fn bright_magenta(self) -> (r: ComboColorDisplay<'a, BrightMagenta, Bg, T>)
        ensures
            r == self.with_fg::<BrightMagenta>(),
            r.target() == self.target(),
    {
        self.fg::<BrightMagenta>()
    }

    /// Changes the background color to bright magenta.
    pub fn on_bright_magenta(self) -> (r: ComboColorDisplay<'a, Fg, BrightMagenta, T>)
        ensures
            r == self.with_bg::<BrightMagenta>(),
            r.target() == self.target(),
    {
        self.bg::<BrightMagenta>()
    }

    /// Changes the foreground color to bright purple.
    pub fn bright_purple(self) -> (r: ComboColorDisplay<'a, BrightMagenta, Bg, T>)
        ensures
            r == self.with_fg::<BrightMagenta>(),
            r.target() == self.target(),
    {
        self.fg::<BrightMagenta>()
    }

    /// Changes the background color to bright purple.
    pub fn on_bright_purple(self) -> (r: ComboColorDisplay<'a, Fg, BrightMagenta, T>)
        ensures
            r == self.with_bg::<BrightMagenta>(),
            r.target() == self.target(),
    {
        self.bg::<BrightMagenta>()
    }

    /// Changes the foreground color to bright cyan.
    pub fn bright_cyan(self) -> (r: ComboColorDisplay<'a, BrightCyan, Bg, T>)
        ensures
            r == self.with_fg::<BrightCyan>(),
            r.target() == self.target(),
    {
        self.fg::<BrightCyan>()
    }

    /// Changes the background color to bright cyan.
    pub fn on_bright_cyan(self) -> (r: ComboColorDisplay<'a, Fg, BrightCyan, T>)
        ensures
            r == self.with_bg::<BrightCyan>(),
            r.target() == self.target(),
    {
        self.bg::<BrightCyan>()
    }

    /// Changes the foreground color to bright white.
    pub fn bright_white(self) -> (r: ComboColorDisplay<'a, BrightWhite, Bg, T>)
        ensures
            r == self.with_fg::<BrightWhite>(),
            r.target() == self.target(),
    {
        self.fg::<BrightWhite>()
    }

    /// Changes the background color to bright white.
    pub fn on_bright_white(self) -> (r: ComboColorDisplay<'a, Fg, BrightWhite, T>)
        ensures
            r == self.with_bg::<BrightWhite>(),
            r.target() == self.target(),
    {
        self.bg::<BrightWhite>()
    }
}

} // verus!
