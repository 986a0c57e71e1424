//! What the terminal is taken to support, and how a program overrides it.
//!
//! Support comes in three tiers: the sixteen named colors, the 256-color
//! palette, and 24-bit color. For each tier an override either forces
//! support on, forces it off, or leaves the answer to detection. The three
//! overrides are packed into one byte, `__ AA XX TT`: two unused bits, then
//! two bits each for the named colors, the palette and 24-bit color.

use crate::atomic::AtomicOverride;
use vstd::prelude::*;

verus! {

/// The output streams of a program.
#[derive(Debug, Copy, Clone, PartialEq, Eq, Structural)]
pub enum Stream {
    Stdout,
    Stderr,
}

/// The override of one tier.
#[derive(Debug, Copy, Clone, PartialEq, Eq, Structural)]
#[non_exhaustive]
pub enum ColorOverride {
    /// No override: detection decides.
    Inherit,
    /// The tier is supported, whatever detection says.
    Enable,
    /// The tier is not supported, whatever detection says.
    Disable,
}

impl ColorOverride {
    /// The two bits that stand for the override.
    pub open spec fn bits(self) -> nat {
        match self {
            ColorOverride::Inherit => 0,
            ColorOverride::Enable => 1,
            ColorOverride::Disable => 2,
        }
    }

    /// The override that two bits stand for. The pattern `11` stands for no
    /// override.
    pub open spec fn of_bits(value: nat) -> ColorOverride {
        if value == 1 {
            ColorOverride::Enable
        } else if value == 2 {
            ColorOverride::Disable
        } else {
            ColorOverride::Inherit
        }
    }

    /// The answer for a tier: the override where there is one, and what was
    /// detected where there is none.
    pub open spec fn resolve(self, detected: bool) -> bool {
        match self {
            ColorOverride::Inherit => detected,
            ColorOverride::Enable => true,
            ColorOverride::Disable => false,
        }
    }

    /// The two bits that stand for the override.
    pub fn to_num(self) -> (n: u8)
        ensures
            n == self.bits(),
        opens_invariants none
        no_unwind
    {
        match self {
            ColorOverride::Inherit => 0,
            ColorOverride::Enable => 1,
            ColorOverride::Disable => 2,
        }
    }

    /// The answer for a tier, given what was detected.
    pub fn to_bool(self, default: bool) -> (answer: bool)
        ensures
            answer == self.resolve(default),
    {
        match self {
            ColorOverride::Inherit => default,
            ColorOverride::Enable => true,
            ColorOverride::Disable => false,
        }
    }

    /// The override that the byte `value` stands for.
    pub fn from_num(value: u8) -> (o: ColorOverride)
        ensures
            o == ColorOverride::of_bits(value as nat),
    {
        match value {
            1 => ColorOverride::Enable,
            2 => ColorOverride::Disable,
            _ => ColorOverride::Inherit,
        }
    }
}

/// What a level of support holds: one answer for each tier.
pub struct ColorLevelView {
    pub ansi: bool,
    pub xterm: bool,
    pub truecolor: bool,
}

/// What a stream supports.
#[derive(Debug, Copy, Clone)]
#[non_exhaustive]
pub struct ColorLevel {
    ansi: bool,
    xterm: bool,
    truecolor: bool,
}

impl View for ColorLevel {
    type V = ColorLevelView;

    closed spec fn view(&self) -> ColorLevelView {
        ColorLevelView { ansi: self.ansi, xterm: self.xterm, truecolor: self.truecolor }
    }
}

impl ColorLevel {
    /// No support at all.
    pub fn none() -> (level: ColorLevel)
        ensures
            level@ == (ColorLevelView { ansi: false, xterm: false, truecolor: false }),
    {
        ColorLevel { ansi: false, xterm: false, truecolor: false }
    }

    /// A level with the given answer for each tier.
    pub fn new(ansi: bool, xterm: bool, truecolor: bool) -> (level: ColorLevel)
        ensures
            level@ == (ColorLevelView { ansi, xterm, truecolor }),
    {
        ColorLevel { ansi, xterm, truecolor }
    }

    /// Whether the sixteen named colors are supported.
    pub fn ansi(&self) -> (answer: bool)
        ensures
            answer == self@.ansi,
    {
        self.ansi
    }

    /// Whether the 256-color palette is supported.
    pub fn xterm(&self) -> (answer: bool)
        ensures
            answer == self@.xterm,
    {
        self.xterm
    }

    /// Whether 24-bit color is supported.
    pub fn truecolor(&self) -> (answer: bool)
        ensures
            answer == self@.truecolor,
    {
        self.truecolor
    }
}

/// What an override of all tiers holds: one override for each tier.
pub struct OverrideView {
    pub ansi: ColorOverride,
    pub xterm: ColorOverride,
    pub truecolor: ColorOverride,
}

impl OverrideView {
    /// The byte that stands for the overrides: `__ AA XX TT`.
    pub open spec fn packed(self) -> nat {
        self.truecolor.bits() + 4 * self.xterm.bits() + 16 * self.ansi.bits()
    }

    /// The overrides that the byte `value` stands for. The two upper bits do
    /// not count.
    pub open spec fn unpacked(value: nat) -> OverrideView {
        OverrideView {
            truecolor: ColorOverride::of_bits(value % 4),
            xterm: ColorOverride::of_bits((value / 4) % 4),
            ansi: ColorOverride::of_bits((value / 16) % 4),
        }
    }

    /// The answers for the three tiers, given what was detected for each.
    pub open spec fn resolve(self, detected: ColorLevelView) -> ColorLevelView {
        ColorLevelView {
            ansi: self.ansi.resolve(detected.ansi),
            xterm: self.xterm.resolve(detected.xterm),
            truecolor: self.truecolor.resolve(detected.truecolor),
        }
    }
}

/// Packing loses nothing: the byte of some overrides stands for just these
/// overrides, and it leaves the two upper bits clear.
pub proof fn lemma_pack_round_trip(overrides: OverrideView)
    ensures
        overrides.packed() < 64,
        OverrideView::unpacked(overrides.packed()) == overrides,
{
}

/// Where nothing is overridden the answers are what was detected; where
/// every tier is forced, detection does not count.
pub proof fn lemma_resolve_extremes(detected: ColorLevelView, other: ColorLevelView)
    ensures
        OverrideView::unpacked(0).resolve(detected) == detected,
        (OverrideView {
            ansi: ColorOverride::Enable,
            xterm: ColorOverride::Enable,
            truecolor: ColorOverride::Enable,
        }).resolve(detected) == (ColorLevelView { ansi: true, xterm: true, truecolor: true }),
        (OverrideView {
            ansi: ColorOverride::Disable,
            xterm: ColorOverride::Disable,
            truecolor: ColorOverride::Disable,
        }).resolve(detected) == (ColorLevelView { ansi: false, xterm: false, truecolor: false }),
{
}

/// The overrides of the three tiers.
#[derive(Debug, Copy, Clone)]
pub struct Override {
    ansi: ColorOverride,
    xterm: ColorOverride,
    truecolor: ColorOverride,
}

impl View for Override {
    type V = OverrideView;

    closed spec fn view(&self) -> OverrideView {
        OverrideView { ansi: self.ansi, xterm: self.xterm, truecolor: self.truecolor }
    }
}

impl Default for Override {
    fn default() -> (r: Override)
        ensures
            r@ == OverrideView::unpacked(0),
    {
        Override::none()
    }
}

impl Override {
    /// Every tier forced on.
    pub fn enable() -> (r: Override)
        ensures
            r@ == (OverrideView {
                ansi: ColorOverride::Enable,
                xterm: ColorOverride::Enable,
                truecolor: ColorOverride::Enable,
            }),
    {
        Override {
            ansi: ColorOverride::Enable,
            xterm: ColorOverride::Enable,
            truecolor: ColorOverride::Enable,
        }
    }

    /// Every tier forced off.
    pub fn disable() -> (r: Override)
        ensures
            r@ == (OverrideView {
                ansi: ColorOverride::Disable,
                xterm: ColorOverride::Disable,
                truecolor: ColorOverride::Disable,
            }),
    {
        Override {
            ansi: ColorOverride::Disable,
            xterm: ColorOverride::Disable,
            truecolor: ColorOverride::Disable,
        }
    }

    /// No tier overridden.
    pub fn none() -> (r: Override)
        ensures
            r@ == (OverrideView {
                ansi: ColorOverride::Inherit,
                xterm: ColorOverride::Inherit,
                truecolor: ColorOverride::Inherit,
            }),
    {
        Override {
            ansi: ColorOverride::Inherit,
            xterm: ColorOverride::Inherit,
            truecolor: ColorOverride::Inherit,
        }
    }

    /// The same overrides but for the named colors.
    pub fn with_ansi(self, value: ColorOverride) -> (r: Override)
        ensures
            r@ == (OverrideView { ansi: value, ..self@ }),
    {
        Override { ansi: value, xterm: self.xterm, truecolor: self.truecolor }
    }

    /// The same overrides but for the palette.
    pub fn with_xterm(self, value: ColorOverride) -> (r: Override)
        ensures
            r@ == (OverrideView { xterm: value, ..self@ }),
    {
        Override { ansi: self.ansi, xterm: value, truecolor: self.truecolor }
    }

    /// The same overrides but for 24-bit color.
    pub fn with_truecolor(self, value: ColorOverride) -> (r: Override)
        ensures
            r@ == (OverrideView { truecolor: value, ..self@ }),
    {
        Override { ansi: self.ansi, xterm: self.xterm, truecolor: value }
    }

    /// The override of the named colors.
    pub fn ansi(&self) -> (value: ColorOverride)
        ensures
            value == self@.ansi,
    {
        self.ansi
    }

    /// The override of the palette.
    pub fn xterm(&self) -> (value: ColorOverride)
        ensures
            value == self@.xterm,
    {
        self.xterm
    }

    /// The override of 24-bit color.
    pub fn truecolor(&self) -> (value: ColorOverride)
        ensures
            value == self@.truecolor,
    {
        self.truecolor
    }

    /// The byte that stands for the overrides.
    pub fn to_num(self) -> (n: u8)
        ensures
            n == self@.packed(),
        opens_invariants none
        no_unwind
    {
        let t = self.truecolor.to_num();
        let x = self.xterm.to_num();
        let a = self.ansi.to_num();
        assert(t | (x << 2) | (a << 4) == t + 4 * x + 16 * a) by (bit_vector)
            requires
                t <= 2,
                x <= 2,
                a <= 2,
        ;
        t | (x << 2) | (a << 4)
    }

    /// The overrides that the byte `value` stands for.
    pub fn from_num(value: u8) -> (r: Override)
        ensures
            r@ == OverrideView::unpacked(value as nat),
    {
        assert(value & 3 == value % 4) by (bit_vector);
        assert((value >> 2) & 3 == (value / 4) % 4) by (bit_vector);
        assert((value >> 4) & 3 == (value / 16) % 4) by (bit_vector);
        let truecolor = ColorOverride::from_num(value & 3);
        let xterm = ColorOverride::from_num((value >> 2) & 3);
        let ansi = ColorOverride::from_num((value >> 4) & 3);
        Override { truecolor, xterm, ansi }
    }

    /// The answers for the three tiers where detection gave the same answer
    /// `default` for each of them.
    pub fn to_level(self, default: bool) -> (level: ColorLevel)
        ensures
            level@ == self@.resolve(
                ColorLevelView { ansi: default, xterm: default, truecolor: default },
            ),
    {
        ColorLevel {
            ansi: self.ansi.to_bool(default),
            xterm: self.xterm.to_bool(default),
            truecolor: self.truecolor.to_bool(default),
        }
    }

    /// The answers for the three tiers, given what was detected for each.
    pub fn resolve(self, detected: ColorLevel) -> (level: ColorLevel)
        ensures
            level@ == self@.resolve(detected@),
    {
        ColorLevel {
            ansi: self.ansi.to_bool(detected.ansi),
            xterm: self.xterm.to_bool(detected.xterm),
            truecolor: self.truecolor.to_bool(detected.truecolor),
        }
    }
}

/// Runs `f` with `value` in place of the overrides that `overrides` holds,
/// and puts the former overrides back when `f` is done, also where `f`
/// unwinds. Other threads see `value` for as long as `f` runs.
pub fn with_override<T, F: FnOnce() -> T>(overrides: &AtomicOverride, value: Override, f: F) -> (r:
    T)
    requires
        f.requires(()),
    ensures
        f.ensures((), r),
{
    let _restore = overrides.replace(value);
    f()
}

/// Forces the named colors on or off.
pub fn set_override(overrides: &AtomicOverride, enabled: bool) {
    overrides.store_ansi(
        if enabled {
            ColorOverride::Enable
        } else {
            ColorOverride::Disable
        },
    );
}

/// Leaves the named colors to detection again.
pub fn unset_override(overrides: &AtomicOverride) {
    overrides.store_ansi(ColorOverride::Inherit);
}

/// Sets the override of the named colors.
pub fn override_ansi(overrides: &AtomicOverride, value: ColorOverride) {
    overrides.store_ansi(value)
}

/// Sets the override of the palette.
pub fn override_xterm(overrides: &AtomicOverride, value: ColorOverride) {
    overrides.store_xterm(value)
}

/// Sets the override of 24-bit color.
pub fn override_truecolor(overrides: &AtomicOverride, value: ColorOverride) {
    overrides.store_truecolor(value)
}

/// Sets the overrides of all three tiers.
pub fn override_set(overrides: &AtomicOverride, value: Override) {
    overrides.store(value)
}

/// The overrides in force at the moment of the call.
pub fn override_status(overrides: &AtomicOverride) -> Override {
    overrides.load()
}

/// `supports_color::on_cached`: what the stream was found to support when it
/// was first asked about, `None` where it supports no color. The answer
/// depends on the environment of the process. Whatever it is, a stream that
/// supports anything supports the named colors, and one that supports 24-bit
/// color supports the palette.
#[verifier::external_body]
pub(crate) fn on_cached(stream: Stream) -> (level: Option<ColorLevel>)
    ensures
        level matches Some(l) ==> l@.ansi && (l@.truecolor ==> l@.xterm),
{
    let outside = match stream {
        Stream::Stdout => supports_color::Stream::Stdout,
        Stream::Stderr => supports_color::Stream::Stderr,
    };
    match supports_color::on_cached(outside) {
        Some(l) => Some(ColorLevel { ansi: l.has_basic, xterm: l.has_256, truecolor: l.has_16m }),
        None => None,
    }
}

/// What was detected for a stream, as a level: no support where detection
/// found none.
pub fn detected_level(found: Option<ColorLevel>) -> (level: ColorLevel)
    ensures
        level@ == match found {
            Some(l) => l@,
            None => ColorLevelView { ansi: false, xterm: false, truecolor: false },
        },
{
    match found {
        Some(l) => l,
        None => ColorLevel::none(),
    }
}

/// What `stream` is taken to support: for each tier the override in force,
/// and what was detected for the stream where the tier has no override.
pub fn supports(overrides: &AtomicOverride, stream: Stream) -> (level: ColorLevel) {
    let detected = detected_level(on_cached(stream));
    overrides.load().resolve(detected)
}

} // verus!
