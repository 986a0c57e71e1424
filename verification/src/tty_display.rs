//! Styling that depends on whether a stream is a terminal.

use crate::overrides::Stream;
use crate::render::Render;
use vstd::prelude::*;

verus! {

/// The standard output, as a type.
pub struct StdOut;

/// The standard error, as a type.
pub struct StdErr;

/// A stream fixed by a type.
pub trait IsTty {
    /// The stream that the type stands for.
    spec fn stream() -> Stream;

    fn tty() -> (stream: Stream)
        ensures
            stream == Self::stream(),
    ;
}

impl IsTty for StdOut {
    open spec fn stream() -> Stream {
        Stream::Stdout
    }

    fn tty() -> (stream: Stream) {
        Stream::Stdout
    }
}

impl IsTty for StdErr {
    open spec fn stream() -> Stream {
        Stream::Stderr
    }

    fn tty() -> (stream: Stream) {
        Stream::Stderr
    }
}

/// `atty::is`: whether the stream is attached to a terminal. The answer
/// depends on how the process was started, so nothing is claimed of it.
#[verifier::external_body]
pub(crate) fn is_tty(stream: Stream) -> bool {
    atty::is(
        match stream {
            Stream::Stdout => atty::Stream::Stdout,
            Stream::Stderr => atty::Stream::Stderr,
        },
    )
}

/// A value that is shown transformed where the stream `Tty` is a terminal,
/// and as it is where the stream is none.
#[verifier::reject_recursive_types(InVal)]
#[verifier::reject_recursive_types(Out)]
pub struct TtyDisplay<'a, Tty: IsTty, InVal, Out, ApplyFn: Fn(&'a InVal) -> Out>(
    pub(crate) &'a InVal,
    pub(crate) ApplyFn,
    pub(crate) Tty,
);

impl<'a, Tty: IsTty, InVal, Out, ApplyFn: Fn(&'a InVal) -> Out> TtyDisplay<
    'a,
    Tty,
    InVal,
    Out,
    ApplyFn,
> {
    /// The value itself.
    pub closed spec fn target(&self) -> &'a InVal {
        self.0
    }

    /// The transformation that styles the value.
    pub closed spec fn transform(&self) -> ApplyFn {
        self.1
    }

    /// The transformation can be applied to the value.
    #[verifier::type_invariant]
    pub closed spec fn applicable(&self) -> bool {
        call_requires(self.1, (self.0,))
    }

    /// Binds a value to the transformation that styles it.
    pub fn new(target: &'a InVal, apply: ApplyFn, tty: Tty) -> (r: Self)
        requires
            call_requires(apply, (target,)),
        ensures
            r.target() == target,
            r.transform() == apply,
    {
        TtyDisplay(target, apply, tty)
    }
}

impl<'a, Tty: IsTty, InVal: Render, Out: Render, ApplyFn: Fn(&'a InVal) -> Out> TtyDisplay<
    'a,
    Tty,
    InVal,
    Out,
    ApplyFn,
> {
    /// The text to show, given whether the stream is a terminal: the text of
    /// what the transformation makes of the value where it is one, the text
    /// of the value itself where it is none.
    pub fn render_if(&self, terminal: bool) -> (out: String)
        ensures
            terminal ==> exists|styled: Out|
                call_ensures(self.transform(), (self.target(),), styled) && out@
                    == styled.rendered(),
            !terminal ==> out@ == self.target().rendered(),
    {
        proof {
            use_type_invariant(self);
        }
        if terminal {
            let styled = (self.1)(self.0);
            styled.render()
        } else {
            self.0.render()
        }
    }

    /// The text to show on the stream `Tty` as it is found now.
    pub fn to_string(&self) -> (out: String)
        ensures
            out@ == self.target().rendered() || exists|styled: Out|
                call_ensures(self.transform(), (self.target(),), styled) && out@
                    == styled.rendered(),
    {
        let terminal = is_tty(Tty::tty());
        self.render_if(terminal)
    }
}

} // verus!
