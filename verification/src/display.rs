//! The wrappers that color a value: the foreground or the background, by a
//! color type or by a color value, and both at once by two color types.
//!
//! A wrapper of one channel writes the escape sequence of its color, then
//! the text of the wrapped value, then the reset of its own channel:
//! `ESC[39m` after a foreground, `ESC[49m` after a background. The wrapper
//! of both channels ends with `ESC[0m`. The reset is written whatever the
//! text is.

use crate::ansi::{join, push_code, push_separator, reset_all, reset_bg, reset_fg, sgr};
use crate::render::Render;
use crate::Color;
use crate::DynColor;
use std::marker::PhantomData;
use vstd::prelude::*;

verus! {

/// A value with a foreground color that is fixed by the type `C`.
pub struct FgColorDisplay<'a, C: Color, T>(pub(crate) &'a T, pub(crate) PhantomData<C>);

/// A value with a background color that is fixed by the type `C`.
pub struct BgColorDisplay<'a, C: Color, T>(pub(crate) &'a T, pub(crate) PhantomData<C>);

/// A value with a foreground color that is chosen at run time.
pub struct FgDynColorDisplay<'a, D: DynColor, T>(pub(crate) &'a T, pub(crate) D);

/// A value with a background color that is chosen at run time.
pub struct BgDynColorDisplay<'a, D: DynColor, T>(pub(crate) &'a T, pub(crate) D);

impl<'a, C: Color, T> FgColorDisplay<'a, C, T> {
    /// The wrapped value.
    pub closed spec fn target(&self) -> &'a T {
        self.0
    }

    /// Wraps a value.
    pub fn new(target: &'a T) -> (r: Self)
        ensures
            r.target() == target,
    {
        FgColorDisplay(target, PhantomData)
    }

    /// The text of the wrapper around the text `inner`.
    pub open spec fn styled(inner: Seq<char>) -> Seq<char> {
        sgr(C::raw_fg()) + inner + reset_fg()
    }

    /// The escape sequence that is written before the text.
    pub fn prefix(&self) -> (s: String)
        ensures
            s@ == sgr(C::raw_fg()),
    {
        C::ansi_fg()
    }

    /// The reset that is written after the text.
    pub fn suffix(&self) -> (s: String)
        ensures
            s@ == reset_fg(),
    {
        let mut s = String::new();
        push_code(&mut s, 39);
        assert(s@ =~= reset_fg());
        s
    }

    /// Colors a text that the caller has made of the wrapped value, in
    /// whatever notation: the text passes through unchanged.
    pub fn wrap(&self, inner: &str) -> (out: String)
        ensures
            out@ == Self::styled(inner@),
    {
        let mut out = self.prefix();
        out.append(inner);
        push_code(&mut out, 39);
        assert(out@ =~= Self::styled(inner@));
        out
    }
}

impl<'a, C: Color, T: Render> FgColorDisplay<'a, C, T> {
    /// The colored text of the wrapped value.
    pub fn to_string(&self) -> (out: String)
        ensures
            out@ == Self::styled(self.target().rendered()),
    {
        let inner = self.0.render();
        self.wrap(inner.as_str())
    }
}

impl<'a, C: Color, T: Render> Render for FgColorDisplay<'a, C, T> {
    open spec fn rendered(&self) -> Seq<char> {
        Self::styled(self.target().rendered())
    }

    fn render(&self) -> (out: String) {
        self.to_string()
    }
}

impl<'a, C: Color, T> BgColorDisplay<'a, C, T> {
    /// The wrapped value.
    pub closed spec fn target(&self) -> &'a T {
        self.0
    }

    /// Wraps a value.
    pub fn new(target: &'a T) -> (r: Self)
        ensures
            r.target() == target,
    {
        BgColorDisplay(target, PhantomData)
    }

    /// The text of the wrapper around the text `inner`.
    pub open spec fn styled(inner: Seq<char>) -> Seq<char> {
        sgr(C::raw_bg()) + inner + reset_bg()
    }

    /// The escape sequence that is written before the text.
    pub fn prefix(&self) -> (s: String)
        ensures
            s@ == sgr(C::raw_bg()),
    {
        C::ansi_bg()
    }

    /// The reset that is written after the text.
    pub fn suffix(&self) -> (s: String)
        ensures
            s@ == reset_bg(),
    {
        let mut s = String::new();
        push_code(&mut s, 49);
        assert(s@ =~= reset_bg());
        s
    }

    /// Colors a text that the caller has made of the wrapped value, in
    /// whatever notation: the text passes through unchanged.
    pub fn wrap(&self, inner: &str) -> (out: String)
        ensures
            out@ == Self::styled(inner@),
    {
        let mut out = self.prefix();
        out.append(inner);
        push_code(&mut out, 49);
        assert(out@ =~= Self::styled(inner@));
        out
    }
}

impl<'a, C: Color, T: Render> BgColorDisplay<'a, C, T> {
    /// The colored text of the wrapped value.
    pub fn to_string(&self) -> (out: String)
        ensures
            out@ == Self::styled(self.target().rendered()),
    {
        let inner = self.0.render();
        self.wrap(inner.as_str())
    }
}

impl<'a, C: Color, T: Render> Render for BgColorDisplay<'a, C, T> {
    open spec fn rendered(&self) -> Seq<char> {
        Self::styled(self.target().rendered())
    }

    fn render(&self) -> (out: String) {
        self.to_string()
    }
}

impl<'a, D: DynColor, T> FgDynColorDisplay<'a, D, T> {
    /// The wrapped value.
    pub closed spec fn target(&self) -> &'a T {
        self.0
    }

    /// The color of the wrapper.
    pub closed spec fn color(&self) -> D {
        self.1
    }

    /// Wraps a value and gives it a color.
    pub fn new(target: &'a T, color: D) -> (r: Self)
        ensures
            r.target() == target,
            r.color() == color,
    {
        FgDynColorDisplay(target, color)
    }

    /// The text of the wrapper around the text `inner`.
    pub open spec fn styled(&self, inner: Seq<char>) -> Seq<char> {
        sgr(self.color().dyn_color().fg_params()) + inner + reset_fg()
    }

    /// The escape sequence that is written before the text.
    pub fn prefix(&self) -> (s: String)
        ensures
            s@ == sgr(self.color().dyn_color().fg_params()),
    {
        self.1.fmt_ansi_fg()
    }

    /// The reset that is written after the text.
    pub fn suffix(&self) -> (s: String)
        ensures
            s@ == reset_fg(),
    {
        let mut s = String::new();
        push_code(&mut s, 39);
        assert(s@ =~= reset_fg());
        s
    }

    /// Colors a text that the caller has made of the wrapped value, in
    /// whatever notation: the text passes through unchanged.
    pub fn wrap(&self, inner: &str) -> (out: String)
        ensures
            out@ == self.styled(inner@),
    {
        let mut out = self.prefix();
        out.append(inner);
        push_code(&mut out, 39);
        assert(out@ =~= self.styled(inner@));
        out
    }
}

impl<'a, D: DynColor, T: Render> FgDynColorDisplay<'a, D, T> {
    /// The colored text of the wrapped value.
    pub fn to_string(&self) -> (out: String)
        ensures
            out@ == self.styled(self.target().rendered()),
    {
        let inner = self.0.render();
        self.wrap(inner.as_str())
    }
}

impl<'a, D: DynColor, T: Render> Render for FgDynColorDisplay<'a, D, T> {
    open spec fn rendered(&self) -> Seq<char> {
        self.styled(self.target().rendered())
    }

    fn render(&self) -> (out: String) {
        self.to_string()
    }
}

impl<'a, D: DynColor, T> BgDynColorDisplay<'a, D, T> {
    /// The wrapped value.
    pub closed spec fn target(&self) -> &'a T {
        self.0
    }

    /// The color of the wrapper.
    pub closed spec fn color(&self) -> D {
        self.1
    }

    /// Wraps a value and gives it a color.
    pub fn new(target: &'a T, color: D) -> (r: Self)
        ensures
            r.target() == target,
            r.color() == color,
    {
        BgDynColorDisplay(target, color)
    }

    /// The text of the wrapper around the text `inner`.
    pub open spec fn styled(&self, inner: Seq<char>) -> Seq<char> {
        sgr(self.color().dyn_color().bg_params()) + inner + reset_bg()
    }

    /// The escape sequence that is written before the text.
    pub fn prefix(&self) -> (s: String)
        ensures
            s@ == sgr(self.color().dyn_color().bg_params()),
    {
        self.1.fmt_ansi_bg()
    }

    /// The reset that is written after the text.
    pub fn suffix(&self) -> (s: String)
        ensures
            s@ == reset_bg(),
    {
        let mut s = String::new();
        push_code(&mut s, 49);
        assert(s@ =~= reset_bg());
        s
    }

    /// Colors a text that the caller has made of the wrapped value, in
    /// whatever notation: the text passes through unchanged.
    pub fn wrap(&self, inner: &str) -> (out: String)
        ensures
            out@ == self.styled(inner@),
    {
        let mut out = self.prefix();
        out.append(inner);
        push_code(&mut out, 49);
        assert(out@ =~= self.styled(inner@));
        out
    }
}

impl<'a, D: DynColor, T: Render> BgDynColorDisplay<'a, D, T> {
    /// The colored text of the wrapped value.
    pub fn to_string(&self) -> (out: String)
        ensures
            out@ == self.styled(self.target().rendered()),
    {
        let inner = self.0.render();
        self.wrap(inner.as_str())
    }
}

impl<'a, D: DynColor, T: Render> Render for BgDynColorDisplay<'a, D, T> {
    open spec fn rendered(&self) -> Seq<char> {
        self.styled(self.target().rendered())
    }

    fn render(&self) -> (out: String) {
        self.to_string()
    }
}

/// A value with a foreground and a background color, both fixed by types.
///
/// It writes one escape sequence that holds both colors, then the text of
/// the wrapped value, then `ESC[0m`.
pub struct ComboColorDisplay<'a, Fg: Color, Bg: Color, T>(
    pub(crate) &'a T,
    pub(crate) PhantomData<(Fg, Bg)>,
);

impl<'a, Fg: Color, Bg: Color, T> ComboColorDisplay<'a, Fg, Bg, T> {
    /// The wrapped value.
    pub closed spec fn target(&self) -> &'a T {
        self.0
    }

    /// The text of the wrapper around the text `inner`.
    pub open spec fn styled(inner: Seq<char>) -> Seq<char> {
        sgr(join(Fg::raw_fg(), Bg::raw_bg())) + inner + reset_all()
    }

    /// The same value with the foreground `C` in place of the present one.
    pub closed spec fn with_fg<C: Color>(self) -> ComboColorDisplay<'a, C, Bg, T> {
        ComboColorDisplay(self.0, PhantomData)
    }

    /// The same value with the background `C` in place of the present one.
    pub closed spec fn with_bg<C: Color>(self) -> ComboColorDisplay<'a, Fg, C, T> {
        ComboColorDisplay(self.0, PhantomData)
    }

    /// The escape sequence that is written before the text.
    pub fn prefix(&self) -> (s: String)
        ensures
            s@ == sgr(join(Fg::raw_fg(), Bg::raw_bg())),
    {
        proof {
            reveal_strlit("\x1b[");
            reveal_strlit("m");
        }
        let mut s = String::from_str("\x1b[");
        let fg = Fg::raw_ansi_fg();
        s.append(fg.as_str());
        push_separator(&mut s);
        let bg = Bg::raw_ansi_bg();
        s.append(bg.as_str());
        s.append("m");
        assert(s@ =~= sgr(join(Fg::raw_fg(), Bg::raw_bg())));
        s
    }

    /// The reset that is written after the text.
    pub fn suffix(&self) -> (s: String)
        ensures
            s@ == reset_all(),
    {
        let mut s = String::new();
        push_code(&mut s, 0);
        assert(s@ =~= reset_all());
        s
    }

    /// Colors a text that the caller has made of the wrapped value, in
    /// whatever notation: the text passes through unchanged.
    pub fn wrap(&self, inner: &str) -> (out: String)
        ensures
            out@ == Self::styled(inner@),
    {
        let mut out = self.prefix();
        out.append(inner);
        push_code(&mut out, 0);
        assert(out@ =~= Self::styled(inner@));
        out
    }

    /// Replaces the foreground color.
    pub fn fg<C: Color>(self) -> (r: ComboColorDisplay<'a, C, Bg, T>)
        ensures
            r == self.with_fg::<C>(),
            r.target() == self.target(),
    {
        ComboColorDisplay(self.0, PhantomData)
    }

    /// Replaces the background color.
    pub fn bg<C: Color>(self) -> (r: ComboColorDisplay<'a, Fg, C, T>)
        ensures
            r == self.with_bg::<C>(),
            r.target() == self.target(),
    {
        ComboColorDisplay(self.0, PhantomData)
    }
}

impl<'a, Fg: Color, Bg: Color, T: Render> ComboColorDisplay<'a, Fg, Bg, T> {
    /// The colored text of the wrapped value.
    pub fn to_string(&self) -> (out: String)
        ensures
            out@ == Self::styled(self.target().rendered()),
    {
        let inner = self.0.render();
        self.wrap(inner.as_str())
    }
}

impl<'a, Fg: Color, Bg: Color, T: Render> Render for ComboColorDisplay<'a, Fg, Bg, T> {
    open spec fn rendered(&self) -> Seq<char> {
        Self::styled(self.target().rendered())
    }

    fn render(&self) -> (out: String) {
        self.to_string()
    }
}

impl<'a, Fg: Color, T> FgColorDisplay<'a, Fg, T> {
    /// The same value with the foreground `C` in place of the present one.
    pub closed spec fn with_fg<C: Color>(self) -> FgColorDisplay<'a, C, T> {
        FgColorDisplay(self.0, PhantomData)
    }

    /// The same value with the background `C` beside the foreground.
    pub closed spec fn with_bg<C: Color>(self) -> ComboColorDisplay<'a, Fg, C, T> {
        ComboColorDisplay(self.0, PhantomData)
    }

    /// Replaces the foreground color.
    pub fn fg<C: Color>(self) -> (r: FgColorDisplay<'a, C, T>)
        ensures
            r == self.with_fg::<C>(),
            r.target() == self.target(),
    {
        FgColorDisplay(self.0, PhantomData)
    }

    /// Adds a background color and keeps the foreground.
    pub fn bg<C: Color>(self) -> (r: ComboColorDisplay<'a, Fg, C, T>)
        ensures
            r == self.with_bg::<C>(),
            r.target() == self.target(),
    {
        ComboColorDisplay(self.0, PhantomData)
    }
}

impl<'a, Bg: Color, T> BgColorDisplay<'a, Bg, T> {
    /// The same value with the foreground `C` beside the background.
    pub closed spec fn with_fg<C: Color>(self) -> ComboColorDisplay<'a, C, Bg, T> {
        ComboColorDisplay(self.0, PhantomData)
    }

    /// The same value with the background `C` in place of the present one.
    pub closed spec fn with_bg<C: Color>(self) -> BgColorDisplay<'a, C, T> {
        BgColorDisplay(self.0, PhantomData)
    }

    /// Adds a foreground color and keeps the background.
    pub fn fg<C: Color>(self) -> (r: ComboColorDisplay<'a, C, Bg, T>)
        ensures
            r == self.with_fg::<C>(),
            r.target() == self.target(),
    {
        ComboColorDisplay(self.0, PhantomData)
    }

    /// Replaces the background color.
    pub fn bg<C: Color>(self) -> (r: BgColorDisplay<'a, C, T>)
        ensures
            r == self.with_bg::<C>(),
            r.target() == self.target(),
    {
        BgColorDisplay(self.0, PhantomData)
    }
}

/// The last foreground applied is the only one that shows, and it shows
/// together with the background: whatever foreground `A` a value had, the
/// background `B` and then the foreground `C` give the one sequence of `C`
/// and `B` around the text of the value.
pub proof fn lemma_last_foreground_wins<A: Color, B: Color, C: Color, T: Render>(
    first: FgColorDisplay<'_, A, T>,
)
    ensures
        first.with_bg::<B>().with_fg::<C>().rendered() == sgr(join(C::raw_fg(), B::raw_bg()))
            + first.target().rendered() + reset_all(),
        first.with_fg::<C>().with_bg::<B>().rendered() == first.with_bg::<B>().with_fg::<
            C,
        >().rendered(),
        first.with_fg::<C>().rendered() == sgr(C::raw_fg()) + first.target().rendered()
            + reset_fg(),
{
}

/// The last background applied is the only one that shows, and it shows
/// together with the foreground: whatever background `A` a value had, the
/// foreground `B` and then the background `C` give the one sequence of `B`
/// and `C` around the text of the value.
pub proof fn lemma_last_background_wins<A: Color, B: Color, C: Color, T: Render>(
    first: BgColorDisplay<'_, A, T>,
)
    ensures
        first.with_fg::<B>().with_bg::<C>().rendered() == sgr(join(B::raw_fg(), C::raw_bg()))
            + first.target().rendered() + reset_all(),
        first.with_bg::<C>().with_fg::<B>().rendered() == first.with_fg::<B>().with_bg::<
            C,
        >().rendered(),
        first.with_bg::<C>().rendered() == sgr(C::raw_bg()) + first.target().rendered()
            + reset_bg(),
{
}

} // verus!
