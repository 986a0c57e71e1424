//! Styling that depends on whether a stream supports color.

use crate::atomic::AtomicOverride;
use crate::overrides::{on_cached, ColorLevel, Override, Stream};
use crate::render::Render;
use vstd::prelude::*;

verus! {

/// Whether to style, given the overrides in force and what was detected for
/// the stream: the override of the named colors decides where there is one,
/// and else the stream must have been found to support the named colors.
pub open spec fn styling_enabled(overrides: Override, detected: Option<ColorLevel>) -> bool {
    overrides@.ansi.resolve(detected matches Some(level) && level@.ansi)
}

/// Whether to style, given the overrides in force and what was detected for
/// the stream.
pub fn should_style(overrides: Override, detected: Option<ColorLevel>) -> (enabled: bool)
    ensures
        enabled == styling_enabled(overrides, detected),
{
    let found = match detected {
        Some(level) => level.ansi(),
        None => false,
    };
    overrides.ansi().to_bool(found)
}

/// A value that is shown transformed where its stream supports color, and as
/// it is where the stream supports none. The overrides of the cell it was
/// made with come before what is detected for the stream.
#[verifier::reject_recursive_types(InVal)]
#[verifier::reject_recursive_types(Out)]
pub struct SupportsColorsDisplay<'a, InVal, Out, ApplyFn: Fn(&'a InVal) -> Out>(
    pub(crate) &'a InVal,
    pub(crate) ApplyFn,
    pub(crate) Stream,
    pub(crate) &'a AtomicOverride,
);

impl<'a, InVal, Out, ApplyFn: Fn(&'a InVal) -> Out> SupportsColorsDisplay<
    'a,
    InVal,
    Out,
    ApplyFn,
> {
    /// The value itself.
    pub closed spec fn target(&self) -> &'a InVal {
        self.0
    }

    /// The transformation that styles the value.
    pub closed spec fn transform(&self) -> ApplyFn {
        self.1
    }

    /// The stream that the text is meant for.
    pub closed spec fn stream(&self) -> Stream {
        self.2
    }

    /// The transformation can be applied to the value.
    #[verifier::type_invariant]
    pub closed spec fn applicable(&self) -> bool {
        call_requires(self.1, (self.0,))
    }

    /// Binds a value to the transformation that styles it, for a stream and
    /// under the overrides of a cell.
    pub fn new(
        target: &'a InVal,
        apply: ApplyFn,
        stream: Stream,
        overrides: &'a AtomicOverride,
    ) -> (r: Self)
        requires
            call_requires(apply, (target,)),
        ensures
            r.target() == target,
            r.transform() == apply,
            r.stream() == stream,
    {
        SupportsColorsDisplay(target, apply, stream, overrides)
    }
}

impl<'a, InVal: Render, Out: Render, ApplyFn: Fn(&'a InVal) -> Out> SupportsColorsDisplay<
    'a,
    InVal,
    Out,
    ApplyFn,
> {
    /// The text to show, given whether to style: the text of what the
    /// transformation makes of the value where styling is enabled, the text
    /// of the value itself where it is not.
    pub fn render_if(&self, enabled: bool) -> (out: String)
        ensures
            enabled ==> exists|styled: Out|
                call_ensures(self.transform(), (self.target(),), styled) && out@
                    == styled.rendered(),
            !enabled ==> out@ == self.target().rendered(),
    {
        proof {
            use_type_invariant(self);
        }
        if enabled {
            let styled = (self.1)(self.0);
            styled.render()
        } else {
            self.0.render()
        }
    }

    /// The text to show under the overrides in force now and with what was
    /// detected for the stream.
    pub fn to_string(&self) -> (out: String)
        ensures
            out@ == self.target().rendered() || exists|styled: Out|
                call_ensures(self.transform(), (self.target(),), styled) && out@
                    == styled.rendered(),
    {
        let enabled = should_style(self.3.load(), on_cached(self.2));
        self.render_if(enabled)
    }
}

} // verus!
