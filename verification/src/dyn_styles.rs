//! Styles put together at run time: a foreground, a background and a set of
//! text effects, applied to a value in one pass.

use crate::ansi::{decimal, push_code, reset_all, sgr};
use crate::colors::AnsiColors;
use crate::dyn_colors::DynColors;
use crate::render::Render;
use crate::Color;
use crate::DynColor;
use vstd::prelude::*;
use vstd::seq_lib::lemma_concat_associative;

verus! {

/// A text effect.
#[derive(Debug, Copy, Clone, PartialEq, Eq, Structural)]
pub enum Effect {
    Bold,
    Dimmed,
    Italic,
    Underline,
    Blink,
    BlinkFast,
    Reversed,
    Hidden,
    Strikethrough,
}

impl Effect {
    /// The number that switches the effect on. The effects of a style are
    /// written in the order of these numbers.
    pub open spec fn code(self) -> nat {
        match self {
            Effect::Bold => 1,
            Effect::Dimmed => 2,
            Effect::Italic => 3,
            Effect::Underline => 4,
            Effect::Blink => 5,
            Effect::BlinkFast => 6,
            Effect::Reversed => 7,
            Effect::Hidden => 8,
            Effect::Strikethrough => 9,
        }
    }
}

/// What a style holds: the color of each channel, where one was set, and the
/// effects that are switched on. A channel that is `None` is left alone.
#[verifier::ext_equal]
pub struct StyleView {
    pub fg: Option<DynColors>,
    pub bg: Option<DynColors>,
    pub effects: Set<Effect>,
}

impl StyleView {
    /// The style that holds nothing.
    pub open spec fn fresh() -> StyleView {
        StyleView { fg: None, bg: None, effects: Set::empty() }
    }

    /// The style with the foreground set to `color`.
    pub open spec fn with_fg(self, color: DynColors) -> StyleView {
        StyleView { fg: Some(color), ..self }
    }

    /// The style with the background set to `color`.
    pub open spec fn with_bg(self, color: DynColors) -> StyleView {
        StyleView { bg: Some(color), ..self }
    }

    /// The style with `effect` switched on.
    pub open spec fn with_effect(self, effect: Effect) -> StyleView {
        StyleView { effects: self.effects.insert(effect), ..self }
    }

    /// The style with `effect` switched off.
    pub open spec fn without_effect(self, effect: Effect) -> StyleView {
        StyleView { effects: self.effects.remove(effect), ..self }
    }

    /// The style with `effect` switched on or off.
    pub open spec fn set_effect(self, effect: Effect, to: bool) -> StyleView {
        if to {
            self.with_effect(effect)
        } else {
            self.without_effect(effect)
        }
    }

    /// The style with every effect of `effects` switched on or off.
    pub open spec fn set_effects(self, effects: Set<Effect>, to: bool) -> StyleView {
        if to {
            StyleView { effects: self.effects.union(effects), ..self }
        } else {
            StyleView { effects: self.effects.difference(effects), ..self }
        }
    }

    /// The style with every effect switched off.
    pub open spec fn without_effects(self) -> StyleView {
        StyleView { effects: Set::empty(), ..self }
    }

    /// Whether the style holds nothing: no color and no effect.
    pub open spec fn is_plain(self) -> bool {
        self.fg is None && self.bg is None && forall|e: Effect| !self.effects.contains(e)
    }

    /// The escape sequence of the foreground, empty where none was set.
    pub open spec fn fg_text(self) -> Seq<char> {
        match self.fg {
            Some(color) => sgr(color.fg_params()),
            None => Seq::empty(),
        }
    }

    /// The escape sequence of the background, empty where none was set.
    pub open spec fn bg_text(self) -> Seq<char> {
        match self.bg {
            Some(color) => sgr(color.bg_params()),
            None => Seq::empty(),
        }
    }

    /// The escape sequence of `effect`, empty where it is switched off.
    pub open spec fn effect_text(self, effect: Effect) -> Seq<char> {
        if self.effects.contains(effect) {
            sgr(decimal(effect.code()))
        } else {
            Seq::empty()
        }
    }

    /// What is written before the text: the foreground, the background, and
    /// then the effects in their fixed order.
    pub open spec fn prefix(self) -> Seq<char> {
        self.fg_text() + self.bg_text() + self.effect_text(Effect::Bold)
            + self.effect_text(Effect::Dimmed)
            + self.effect_text(Effect::Italic)
            + self.effect_text(Effect::Underline)
            + self.effect_text(Effect::Blink)
            + self.effect_text(Effect::BlinkFast)
            + self.effect_text(Effect::Reversed)
            + self.effect_text(Effect::Hidden)
            + self.effect_text(Effect::Strikethrough)
    }

    /// What is written after the text: `ESC[0m`, and nothing at all where
    /// the style holds nothing.
    pub open spec fn suffix(self) -> Seq<char> {
        if self.is_plain() {
            Seq::empty()
        } else {
            reset_all()
        }
    }

    /// The text of a value with this style, around the text `inner` of the
    /// value itself.
    pub open spec fn styled(self, inner: Seq<char>) -> Seq<char> {
        self.prefix() + inner + self.suffix()
    }
}

/// A style that holds nothing writes nothing: the text comes out as it is.
pub proof fn lemma_fresh_style_is_transparent(inner: Seq<char>)
    ensures
        StyleView::fresh().is_plain(),
        StyleView::fresh().styled(inner) == inner,
{
    assert(StyleView::fresh().styled(inner) =~= inner);
}

/// A style that holds anything ends with the reset, and only such a style
/// does.
pub proof fn lemma_reset_only_when_styled(style: StyleView)
    ensures
        style.is_plain() <==> style.suffix() == Seq::<char>::empty(),
        style.is_plain() ==> style.prefix() == Seq::<char>::empty(),
{
    if style.is_plain() {
        assert(style.prefix() =~= Seq::<char>::empty());
    } else {
        assert(reset_all().len() > 0);
    }
}

/// The order in which a style is put together does not show: two effects
/// can be switched on in either order, and a color and an effect can be set
/// in either order.
pub proof fn lemma_builders_commute(style: StyleView, a: Effect, b: Effect, color: DynColors)
    ensures
        style.with_effect(a).with_effect(b) == style.with_effect(b).with_effect(a),
        style.with_fg(color).with_effect(a) == style.with_effect(a).with_fg(color),
        style.with_bg(color).with_effect(a) == style.with_effect(a).with_bg(color),
        style.with_effect(a).with_effect(b).prefix() == style.with_effect(b).with_effect(
            a,
        ).prefix(),
{
    assert(style.with_effect(a).with_effect(b) =~= style.with_effect(b).with_effect(a));
    assert(style.with_fg(color).with_effect(a) =~= style.with_effect(a).with_fg(color));
    assert(style.with_bg(color).with_effect(a) =~= style.with_effect(a).with_bg(color));
}

/// A color set on a channel replaces the color that was set before on that
/// channel, and leaves the other channel and the effects as they were.
pub proof fn lemma_last_color_wins(style: StyleView, first: DynColors, last: DynColors)
    ensures
        style.with_fg(first).with_fg(last) == style.with_fg(last),
        style.with_bg(first).with_bg(last) == style.with_bg(last),
        style.with_fg(first).with_bg(last) == style.with_bg(last).with_fg(first),
{
}

/// A style: the colors and effects to give to a value later.
#[derive(Debug, Copy, Clone)]
pub struct Style {
    fg: Option<DynColors>,
    bg: Option<DynColors>,
    bold: bool,
    dimmed: bool,
    italic: bool,
    underline: bool,
    blink: bool,
    blink_fast: bool,
    reversed: bool,
    hidden: bool,
    strikethrough: bool,
}

/// A value together with the style to show it in.
pub struct Styled<T> {
    target: T,
    style: Style,
}

impl View for Style {
    type V = StyleView;

    closed spec fn view(&self) -> StyleView {
        StyleView { fg: self.fg, bg: self.bg, effects: Set::new(|e: Effect| self.has(e)) }
    }
}

impl Default for Style {
    fn default() -> (r: Style)
        ensures
            r@ == StyleView::fresh(),
    {
        Style::new()
    }
}

impl Style {
    /// Whether `effect` is switched on.
    pub closed spec fn has(self, effect: Effect) -> bool {
        match effect {
            Effect::Bold => self.bold,
            Effect::Dimmed => self.dimmed,
            Effect::Italic => self.italic,
            Effect::Underline => self.underline,
            Effect::Blink => self.blink,
            Effect::BlinkFast => self.blink_fast,
            Effect::Reversed => self.reversed,
            Effect::Hidden => self.hidden,
            Effect::Strikethrough => self.strikethrough,
        }
    }

    /// A style that holds nothing.
    pub fn new() -> (r: Style)
        ensures
            r@ == StyleView::fresh(),
    {
        let r = Style {
            fg: None,
            bg: None,
            bold: false,
            dimmed: false,
            italic: false,
            underline: false,
            blink: false,
            blink_fast: false,
            reversed: false,
            hidden: false,
            strikethrough: false,
        };
        assert(r@ =~= StyleView::fresh());
        r
    }

    /// Binds the style to the value that is to be shown in it.
    pub fn style<T>(&self, target: T) -> (r: Styled<T>)
        ensures
            r.target() == target,
            r.style() == self@,
    {
        Styled { target, style: *self }
    }

    /// Sets the foreground to the color of the type `C`.
    pub fn fg<C: Color>(self) -> (r: Style)
        ensures
            r@ == self@.with_fg(C::dyn_color()),
    {
        let mut next = self;
        next.fg = Some(C::into_dyncolors());
        next
    }

    /// Sets the background to the color of the type `C`.
    pub fn bg<C: Color>(self) -> (r: Style)
        ensures
            r@ == self@.with_bg(C::dyn_color()),
    {
        let mut next = self;
        next.bg = Some(C::into_dyncolors());
        next
    }

    /// Sets the foreground to black.
    pub fn black(self) -> (r: Style)
        ensures
            r@ == self@.with_fg(DynColors::Ansi(AnsiColors::Black)),
    {
        let mut next = self;
        next.fg = Some(DynColors::Ansi(AnsiColors::Black));
        next
    }

    /// Sets the background to black.
    pub fn on_black(self) -> (r: Style)
        ensures
            r@ == self@.with_bg(DynColors::Ansi(AnsiColors::Black)),
    {
        let mut next = self;
        next.bg = Some(DynColors::Ansi(AnsiColors::Black));
        next
    }

    /// Sets the foreground to red.
    pub fn red(self) -> (r: Style)
        ensures
            r@ == self@.with_fg(DynColors::Ansi(AnsiColors::Red)),
    {
        let mut next = self;
        next.fg = Some(DynColors::Ansi(AnsiColors::Red));
        next
    }

    /// Sets the background to red.
    pub fn on_red(self) -> (r: Style)
        ensures
            r@ == self@.with_bg(DynColors::Ansi(AnsiColors::Red)),
    {
        let mut next = self;
        next.bg = Some(DynColors::Ansi(AnsiColors::Red));
        next
    }

    /// Sets the foreground to green.
    pub fn green(self) -> (r: Style)
        ensures
            r@ == self@.with_fg(DynColors::Ansi(AnsiColors::Green)),
    {
        let mut next = self;
        next.fg = Some(DynColors::Ansi(AnsiColors::Green));
        next
    }

    /// Sets the background to green.
    pub fn on_green(self) -> (r: Style)
        ensures
            r@ == self@.with_bg(DynColors::Ansi(AnsiColors::Green)),
    {
        let mut next = self;
        next.bg = Some(DynColors::Ansi(AnsiColors::Green));
        next
    }

    /// Sets the foreground to yellow.
    pub fn yellow(self) -> (r: Style)
        ensures
            r@ == self@.with_fg(DynColors::Ansi(AnsiColors::Yellow)),
    {
        let mut next = self;
        next.fg = Some(DynColors::Ansi(AnsiColors::Yellow));
        next
    }

    /// Sets the background to yellow.
    pub fn on_yellow(self) -> (r: Style)
        ensures
            r@ == self@.with_bg(DynColors::Ansi(AnsiColors::Yellow)),
    {
        let mut next = self;
        next.bg = Some(DynColors::Ansi(AnsiColors::Yellow));
        next
    }

    /// Sets the foreground to blue.
    pub fn blue(self) -> (r: Style)
        ensures
            r@ == self@.with_fg(DynColors::Ansi(AnsiColors::Blue)),
    {
        let mut next = self;
        next.fg = Some(DynColors::Ansi(AnsiColors::Blue));
        next
    }

    /// Sets the background to blue.
    pub fn on_blue(self) -> (r: Style)
        ensures
            r@ == self@.with_bg(DynColors::Ansi(AnsiColors::Blue)),
    {
        let mut next = self;
        next.bg = Some(DynColors::Ansi(AnsiColors::Blue));
        next
    }

    /// Sets the foreground to magenta.
    pub fn magenta(self) -> (r: Style)
        ensures
            r@ == self@.with_fg(DynColors::Ansi(AnsiColors::Magenta)),
    {
        let mut next = self;
        next.fg = Some(DynColors::Ansi(AnsiColors::Magenta));
        next
    }

    /// Sets the background to magenta.
    pub fn on_magenta(self) -> (r: Style)
        ensures
            r@ == self@.with_bg(DynColors::Ansi(AnsiColors::Magenta)),
    {
        let mut next = self;
        next.bg = Some(DynColors::Ansi(AnsiColors::Magenta));
        next
    }

    /// Sets the foreground to purple.
    pub fn purple(self) -> (r: Style)
        ensures
            r@ == self@.with_fg(DynColors::Ansi(AnsiColors::Magenta)),
    {
        let mut next = self;
        next.fg = Some(DynColors::Ansi(AnsiColors::Magenta));
        next
    }

    /// Sets the background to purple.
    pub fn on_purple(self) -> (r: Style)
        ensures
            r@ == self@.with_bg(DynColors::Ansi(AnsiColors::Magenta)),
    {
        let mut next = self;
        next.bg = Some(DynColors::Ansi(AnsiColors::Magenta));
        next
    }

    /// Sets the foreground to cyan.
    pub fn cyan(self) -> (r: Style)
        ensures
            r@ == self@.with_fg(DynColors::Ansi(AnsiColors::Cyan)),
    {
        let mut next = self;
        next.fg = Some(DynColors::Ansi(AnsiColors::Cyan));
        next
    }

    /// Sets the background to cyan.
    pub fn on_cyan(self) -> (r: Style)
        ensures
            r@ == self@.with_bg(DynColors::Ansi(AnsiColors::Cyan)),
    {
        let mut next = self;
        next.bg = Some(DynColors::Ansi(AnsiColors::Cyan));
        next
    }

    /// Sets the foreground to white.
    pub fn white(self) -> (r: Style)
        ensures
            r@ == self@.with_fg(DynColors::Ansi(AnsiColors::White)),
    {
        let mut next = self;
        next.fg = Some(DynColors::Ansi(AnsiColors::White));
        next
    }

    /// Sets the background to white.
    pub fn on_white(self) -> (r: Style)
        ensures
            r@ == self@.with_bg(DynColors::Ansi(AnsiColors::White)),
    {
        let mut next = self;
        next.bg = Some(DynColors::Ansi(AnsiColors::White));
        next
    }

    /// Sets the foreground to bright black.
    pub fn bright_black(self) -> (r: Style)
        ensures
            r@ == self@.with_fg(DynColors::Ansi(AnsiColors::BrightBlack)),
    {
        let mut next = self;
        next.fg = Some(DynColors::Ansi(AnsiColors::BrightBlack));
        next
    }

    /// Sets the background to bright black.
    pub fn on_bright_black(self) -> (r: Style)
        ensures
            r@ == self@.with_bg(DynColors::Ansi(AnsiColors::BrightBlack)),
    {
        let mut next = self;
        next.bg = Some(DynColors::Ansi(AnsiColors::BrightBlack));
        next
    }

    /// Sets the foreground to bright red.
    pub fn bright_red(self) -> (r: Style)
        ensures
            r@ == self@.with_fg(DynColors::Ansi(AnsiColors::BrightRed)),
    {
        let mut next = self;
        next.fg = Some(DynColors::Ansi(AnsiColors::BrightRed));
        next
    }

    /// Sets the background to bright red.
    pub fn on_bright_red(self) -> (r: Style)
        ensures
            r@ == self@.with_bg(DynColors::Ansi(AnsiColors::BrightRed)),
    {
        let mut next = self;
        next.bg = Some(DynColors::Ansi(AnsiColors::BrightRed));
        next
    }

    /// Sets the foreground to bright green.
    pub fn bright_green(self) -> (r: Style)
        ensures
            r@ == self@.with_fg(DynColors::Ansi(AnsiColors::BrightGreen)),
    {
        let mut next = self;
        next.fg = Some(DynColors::Ansi(AnsiColors::BrightGreen));
        next
    }

    /// Sets the background to bright green.
    pub fn on_bright_green(self) -> (r: Style)
        ensures
            r@ == self@.with_bg(DynColors::Ansi(AnsiColors::BrightGreen)),
    {
        let mut next = self;
        next.bg = Some(DynColors::Ansi(AnsiColors::BrightGreen));
        next
    }

    /// Sets the foreground to bright yellow.
    pub fn bright_yellow(self) -> (r: Style)
        ensures
            r@ == self@.with_fg(DynColors::Ansi(AnsiColors::BrightYellow)),
    {
        let mut next = self;
        next.fg = Some(DynColors::Ansi(AnsiColors::BrightYellow));
        next
    }

    /// Sets the background to bright yellow.
    pub fn on_bright_yellow(self) -> (r: Style)
        ensures
            r@ == self@.with_bg(DynColors::Ansi(AnsiColors::BrightYellow)),
    {
        let mut next = self;
        next.bg = Some(DynColors::Ansi(AnsiColors::BrightYellow));
        next
    }

    /// Sets the foreground to bright blue.
    pub fn bright_blue(self) -> (r: Style)
        ensures
            r@ == self@.with_fg(DynColors::Ansi(AnsiColors::BrightBlue)),
    {
        let mut next = self;
        next.fg = Some(DynColors::Ansi(AnsiColors::BrightBlue));
        next
    }

    /// Sets the background to bright blue.
    pub fn on_bright_blue(self) -> (r: Style)
        ensures
            r@ == self@.with_bg(DynColors::Ansi(AnsiColors::BrightBlue)),
    {
        let mut next = self;
        next.bg = Some(DynColors::Ansi(AnsiColors::BrightBlue));
        next
    }

    /// Sets the foreground to bright magenta.
    pub fn bright_magenta(self) -> (r: Style)
        ensures
            r@ == self@.with_fg(DynColors::Ansi(AnsiColors::BrightMagenta)),
    {
        let mut next = self;
        next.fg = Some(DynColors::Ansi(AnsiColors::BrightMagenta));
        next
    }

    /// Sets the background to bright magenta.
    pub fn on_bright_magenta(self) -> (r: Style)
        ensures
            r@ == self@.with_bg(DynColors::Ansi(AnsiColors::BrightMagenta)),
    {
        let mut next = self;
        next.bg = Some(DynColors::Ansi(AnsiColors::BrightMagenta));
        next
    }

    /// Sets the foreground to bright purple.
    pub fn bright_purple(self) -> (r: Style)
        ensures
            r@ == self@.with_fg(DynColors::Ansi(AnsiColors::BrightMagenta)),
    {
        let mut next = self;
        next.fg = Some(DynColors::Ansi(AnsiColors::BrightMagenta));
        next
    }

    /// Sets the background to bright purple.
    pub fn on_bright_purple(self) -> (r: Style)
        ensures
            r@ == self@.with_bg(DynColors::Ansi(AnsiColors::BrightMagenta)),
    {
        let mut next = self;
        next.bg = Some(DynColors::Ansi(AnsiColors::BrightMagenta));
        next
    }

    /// Sets the foreground to bright cyan.
    pub fn bright_cyan(self) -> (r: Style)
        ensures
            r@ == self@.with_fg(DynColors::Ansi(AnsiColors::BrightCyan)),
    {
        let mut next = self;
        next.fg = Some(DynColors::Ansi(AnsiColors::BrightCyan));
        next
    }

    /// Sets the background to bright cyan.
    pub fn on_bright_cyan(self) -> (r: Style)
        ensures
            r@ == self@.with_bg(DynColors::Ansi(AnsiColors::BrightCyan)),
    {
        let mut next = self;
        next.bg = Some(DynColors::Ansi(AnsiColors::BrightCyan));
        next
    }

    /// Sets the foreground to bright white.
    pub fn bright_white(self) -> (r: Style)
        ensures
            r@ == self@.with_fg(DynColors::Ansi(AnsiColors::BrightWhite)),
    {
        let mut next = self;
        next.fg = Some(DynColors::Ansi(AnsiColors::BrightWhite));
        next
    }

    /// Sets the background to bright white.
    pub fn on_bright_white(self) -> (r: Style)
        ensures
            r@ == self@.with_bg(DynColors::Ansi(AnsiColors::BrightWhite)),
    {
        let mut next = self;
        next.bg = Some(DynColors::Ansi(AnsiColors::BrightWhite));
        next
    }

    /// Makes the text bold.
    pub fn bold(self) -> (r: Style)
        ensures
            r@ == self@.with_effect(Effect::Bold),
    {
        let mut next = self;
        next.set_effect(Effect::Bold, true);
        next
    }

    /// Makes the text dim.
    pub fn dimmed(self) -> (r: Style)
        ensures
            r@ == self@.with_effect(Effect::Dimmed),
    {
        let mut next = self;
        next.set_effect(Effect::Dimmed, true);
        next
    }

    /// Makes the text italic.
    pub fn italic(self) -> (r: Style)
        ensures
            r@ == self@.with_effect(Effect::Italic),
    {
        let mut next = self;
        next.set_effect(Effect::Italic, true);
        next
    }

    /// Makes the text underlined.
    pub fn underline(self) -> (r: Style)
        ensures
            r@ == self@.with_effect(Effect::Underline),
    {
        let mut next = self;
        next.set_effect(Effect::Underline, true);
        next
    }

    /// Makes the text blinking.
    pub fn blink(self) -> (r: Style)
        ensures
            r@ == self@.with_effect(Effect::Blink),
    {
        let mut next = self;
        next.set_effect(Effect::Blink, true);
        next
    }

    /// Makes the text blinking fast.
    pub fn blink_fast(self) -> (r: Style)
        ensures
            r@ == self@.with_effect(Effect::BlinkFast),
    {
        let mut next = self;
        next.set_effect(Effect::BlinkFast, true);
        next
    }

    /// Makes the text shown with foreground and background swapped.
    pub fn reversed(self) -> (r: Style)
        ensures
            r@ == self@.with_effect(Effect::Reversed),
    {
        let mut next = self;
        next.set_effect(Effect::Reversed, true);
        next
    }

    /// Makes the text hidden.
    pub fn hidden(self) -> (r: Style)
        ensures
            r@ == self@.with_effect(Effect::Hidden),
    {
        let mut next = self;
        next.set_effect(Effect::Hidden, true);
        next
    }

    /// Makes the text crossed out.
    pub fn strikethrough(self) -> (r: Style)
        ensures
            r@ == self@.with_effect(Effect::Strikethrough),
    {
        let mut next = self;
        next.set_effect(Effect::Strikethrough, true);
        next
    }

    fn set_effect(&mut self, effect: Effect, to: bool)
        ensures
            final(self)@ == old(self)@.set_effect(effect, to),
    {
        match effect {
            Effect::Bold => self.bold = to,
            Effect::Dimmed => self.dimmed = to,
            Effect::Italic => self.italic = to,
            Effect::Underline => self.underline = to,
            Effect::Blink => self.blink = to,
            Effect::BlinkFast => self.blink_fast = to,
            Effect::Reversed => self.reversed = to,
            Effect::Hidden => self.hidden = to,
            Effect::Strikethrough => self.strikethrough = to,
        }
        assert(self@ =~= old(self)@.set_effect(effect, to));
    }

    fn set_effects(&mut self, effects: &[Effect], to: bool)
        ensures
            final(self)@ == old(self)@.set_effects(effects@.to_set(), to),
    {
        let mut i: usize = 0;
        assert(self@ =~= old(self)@.set_effects(effects@.subrange(0, 0).to_set(), to));
        while i < effects.len()
            invariant
                i <= effects.len(),
                self@ == old(self)@.set_effects(effects@.subrange(0, i as int).to_set(), to),
            decreases effects.len() - i,
        {
            let ghost before = self@;
            self.set_effect(effects[i], to);
            proof {
                let done = effects@.subrange(0, i as int);
                let next = effects@.subrange(0, i + 1);
                assert(next =~= done.push(effects@[i as int]));
                assert forall|e: Effect| next.to_set().contains(e) <==> (done.to_set().contains(e)
                    || e == effects@[i as int]) by {
                    if done.contains(e) {
                        let k = choose|k: int| 0 <= k < done.len() && done[k] == e;
                        assert(next[k] == e);
                    }
                    if e == effects@[i as int] {
                        assert(next[i as int] == e);
                    }
                }
                assert(self@ =~= old(self)@.set_effects(next.to_set(), to));
            }
            i += 1;
        }
        assert(effects@.subrange(0, i as int) =~= effects@);
    }

    /// Switches `effect` on.
    pub fn effect(self, effect: Effect) -> (r: Style)
        ensures
            r@ == self@.with_effect(effect),
    {
        let mut next = self;
        next.set_effect(effect, true);
        next
    }

    /// Switches `effect` off.
    pub fn remove_effect(self, effect: Effect) -> (r: Style)
        ensures
            r@ == self@.without_effect(effect),
    {
        let mut next = self;
        next.set_effect(effect, false);
        next
    }

    /// Switches every effect of `effects` on.
    pub fn effects(self, effects: &[Effect]) -> (r: Style)
        ensures
            r@ == self@.set_effects(effects@.to_set(), true),
    {
        let mut next = self;
        next.set_effects(effects, true);
        next
    }

    /// Switches every effect of `effects` off.
    pub fn remove_effects(self, effects: &[Effect]) -> (r: Style)
        ensures
            r@ == self@.set_effects(effects@.to_set(), false),
    {
        let mut next = self;
        next.set_effects(effects, false);
        next
    }

    /// Switches every effect off and keeps the colors.
    pub fn remove_all_effects(self) -> (r: Style)
        ensures
            r@ == self@.without_effects(),
    {
        let mut next = self;
        next.bold = false;
        next.dimmed = false;
        next.italic = false;
        next.underline = false;
        next.blink = false;
        next.blink_fast = false;
        next.reversed = false;
        next.hidden = false;
        next.strikethrough = false;
        assert(next@ =~= self@.without_effects());
        next
    }

    /// Sets the foreground to a color chosen at run time.
    pub fn color<D: DynColor>(self, color: D) -> (r: Style)
        ensures
            r@ == self@.with_fg(color.dyn_color()),
    {
        let mut next = self;
        next.fg = Some(color.get_dyncolors_fg());
        next
    }

    /// Sets the background to a color chosen at run time.
    pub fn on_color<D: DynColor>(self, color: D) -> (r: Style)
        ensures
            r@ == self@.with_bg(color.dyn_color()),
    {
        let mut next = self;
        next.bg = Some(color.get_dyncolors_bg());
        next
    }

    /// Sets the foreground to the 24-bit color `R`, `G`, `B`.
    pub fn fg_rgb<const R: u8, const G: u8, const B: u8>(self) -> (r: Style)
        ensures
            r@ == self@.with_fg(DynColors::Rgb(R, G, B)),
    {
        let mut next = self;
        next.fg = Some(DynColors::Rgb(R, G, B));
        next
    }

    /// Sets the background to the 24-bit color `R`, `G`, `B`.
    pub fn bg_rgb<const R: u8, const G: u8, const B: u8>(self) -> (r: Style)
        ensures
            r@ == self@.with_bg(DynColors::Rgb(R, G, B)),
    {
        let mut next = self;
        next.bg = Some(DynColors::Rgb(R, G, B));
        next
    }

    /// Sets the foreground to the 24-bit color `r`, `g`, `b`.
    pub fn truecolor(self, r: u8, g: u8, b: u8) -> (style: Style)
        ensures
            style@ == self@.with_fg(DynColors::Rgb(r, g, b)),
    {
        let mut next = self;
        next.fg = Some(DynColors::Rgb(r, g, b));
        next
    }

    /// Sets the background to the 24-bit color `r`, `g`, `b`.
    pub fn on_truecolor(self, r: u8, g: u8, b: u8) -> (style: Style)
        ensures
            style@ == self@.with_bg(DynColors::Rgb(r, g, b)),
    {
        let mut next = self;
        next.bg = Some(DynColors::Rgb(r, g, b));
        next
    }

    /// Whether the style holds nothing: no color and no effect.
    pub fn is_plain(&self) -> (plain: bool)
        ensures
            plain == self@.is_plain(),
    {
        let plain = self.fg.is_none() && self.bg.is_none() && !(self.bold
            || self.dimmed
            || self.italic
            || self.underline
            || self.blink
            || self.blink_fast
            || self.reversed
            || self.hidden
            || self.strikethrough);
        proof {
            if plain {
                assert forall|e: Effect| !self@.effects.contains(e) by {
                    assert(!self.has(e));
                }
            } else if self.fg.is_none() && self.bg.is_none() {
                if self.bold {
                    assert(self@.effects.contains(Effect::Bold));
                }
                if self.dimmed {
                    assert(self@.effects.contains(Effect::Dimmed));
                }
                if self.italic {
                    assert(self@.effects.contains(Effect::Italic));
                }
                if self.underline {
                    assert(self@.effects.contains(Effect::Underline));
                }
                if self.blink {
                    assert(self@.effects.contains(Effect::Blink));
                }
                if self.blink_fast {
                    assert(self@.effects.contains(Effect::BlinkFast));
                }
                if self.reversed {
                    assert(self@.effects.contains(Effect::Reversed));
                }
                if self.hidden {
                    assert(self@.effects.contains(Effect::Hidden));
                }
                if self.strikethrough {
                    assert(self@.effects.contains(Effect::Strikethrough));
                }
            }
        }
        plain
    }

    /// Appends the escape sequence of `effect` where it is switched on.
    fn push_effect(&self, out: &mut String, effect: Effect, code: u8, on: bool)
        requires
            code == effect.code(),
            on == self.has(effect),
        ensures
            final(out)@ == old(out)@ + self@.effect_text(effect),
    {
        if on {
            push_code(out, code);
        }
        assert(self@.effects.contains(effect) == on);
        assert(out@ =~= old(out)@ + self@.effect_text(effect));
    }

    /// Appends the escape sequences of the two channels, where they are set.
    fn push_colors(&self, out: &mut String)
        ensures
            final(out)@ == old(out)@ + self@.fg_text() + self@.bg_text(),
    {
        if let Some(fg) = self.fg {
            fg.push_fg(out);
        }
        let ghost middle = out@;
        assert(middle =~= old(out)@ + self@.fg_text());
        if let Some(bg) = self.bg {
            bg.push_bg(out);
        }
        assert(out@ =~= middle + self@.bg_text());
    }

    /// Appends what the style writes before the text.
    pub fn push_prefix(&self, out: &mut String)
        ensures
            final(out)@ == old(out)@ + self@.prefix(),
    {
        self.push_colors(out);
        let ghost mut written = self@.fg_text() + self@.bg_text();
        proof {
            lemma_concat_associative(old(out)@, self@.fg_text(), self@.bg_text());
        }
        self.push_effect(out, Effect::Bold, 1, self.bold);
        proof {
            lemma_concat_associative(old(out)@, written, self@.effect_text(Effect::Bold));
            written = written + self@.effect_text(Effect::Bold);
        }
        self.push_effect(out, Effect::Dimmed, 2, self.dimmed);
        proof {
            lemma_concat_associative(old(out)@, written, self@.effect_text(Effect::Dimmed));
            written = written + self@.effect_text(Effect::Dimmed);
        }
        self.push_effect(out, Effect::Italic, 3, self.italic);
        proof {
            lemma_concat_associative(old(out)@, written, self@.effect_text(Effect::Italic));
            written = written + self@.effect_text(Effect::Italic);
        }
        self.push_effect(out, Effect::Underline, 4, self.underline);
        proof {
            lemma_concat_associative(old(out)@, written, self@.effect_text(Effect::Underline));
            written = written + self@.effect_text(Effect::Underline);
        }
        self.push_effect(out, Effect::Blink, 5, self.blink);
        proof {
            lemma_concat_associative(old(out)@, written, self@.effect_text(Effect::Blink));
            written = written + self@.effect_text(Effect::Blink);
        }
        self.push_effect(out, Effect::BlinkFast, 6, self.blink_fast);
        proof {
            lemma_concat_associative(old(out)@, written, self@.effect_text(Effect::BlinkFast));
            written = written + self@.effect_text(Effect::BlinkFast);
        }
        self.push_effect(out, Effect::Reversed, 7, self.reversed);
        proof {
            lemma_concat_associative(old(out)@, written, self@.effect_text(Effect::Reversed));
            written = written + self@.effect_text(Effect::Reversed);
        }
        self.push_effect(out, Effect::Hidden, 8, self.hidden);
        proof {
            lemma_concat_associative(old(out)@, written, self@.effect_text(Effect::Hidden));
            written = written + self@.effect_text(Effect::Hidden);
        }
        self.push_effect(out, Effect::Strikethrough, 9, self.strikethrough);
        proof {
            lemma_concat_associative(old(out)@, written, self@.effect_text(Effect::Strikethrough));
            written = written + self@.effect_text(Effect::Strikethrough);
        }
    }

    /// Appends what the style writes after the text.
    pub fn push_suffix(&self, out: &mut String)
        ensures
            final(out)@ == old(out)@ + self@.suffix(),
    {
        if !self.is_plain() {
            push_code(out, 0);
        }
        assert(out@ =~= old(out)@ + self@.suffix());
    }

    /// Puts the style around a text.
    pub fn wrap(&self, inner: &str) -> (out: String)
        ensures
            out@ == self@.styled(inner@),
    {
        let mut out = String::new();
        self.push_prefix(&mut out);
        out.append(inner);
        self.push_suffix(&mut out);
        assert(out@ =~= self@.styled(inner@));
        out
    }
}

/// A style that holds nothing, to start a chain of settings with.
pub fn style() -> (r: Style)
    ensures
        r@ == StyleView::fresh(),
{
    Style::new()
}

impl<T> Styled<T> {
    /// The value that is shown.
    pub closed spec fn target(&self) -> T {
        self.target
    }

    /// The style it is shown in.
    pub closed spec fn style(&self) -> StyleView {
        self.style@
    }

    /// What is written before the text.
    pub fn prefix(&self) -> (s: String)
        ensures
            s@ == self.style().prefix(),
    {
        let mut s = String::new();
        self.style.push_prefix(&mut s);
        assert(s@ =~= self.style().prefix());
        s
    }

    /// What is written after the text.
    pub fn suffix(&self) -> (s: String)
        ensures
            s@ == self.style().suffix(),
    {
        let mut s = String::new();
        self.style.push_suffix(&mut s);
        assert(s@ =~= self.style().suffix());
        s
    }

    /// Styles a text that the caller has made of the value, in whatever
    /// notation: the text passes through unchanged.
    pub fn wrap(&self, inner: &str) -> (out: String)
        ensures
            out@ == self.style().styled(inner@),
    {
        self.style.wrap(inner)
    }
}

impl<T: Render> Styled<T> {
    /// The styled text of the value.
    pub fn to_string(&self) -> (out: String)
        ensures
            out@ == self.style().styled(self.target().rendered()),
    {
        let inner = self.target.render();
        self.style.wrap(inner.as_str())
    }
}

impl<T: Render> Render for Styled<T> {
    open spec fn rendered(&self) -> Seq<char> {
        self.style().styled(self.target().rendered())
    }

    fn render(&self) -> (out: String) {
        self.to_string()
    }
}

} // verus!
