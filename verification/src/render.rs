//! What can be wrapped: values whose text the crate can produce.

use crate::ansi::{decimal, push_number, push_signed, signed_decimal};
use vstd::prelude::*;

verus! {

/// A value with a text of its own. The wrappers of this crate put their
/// escape sequences around that text and leave it as it is.
pub trait Render {
    /// The text of the value.
    spec fn rendered(&self) -> Seq<char>;

    fn render(&self) -> (out: String)
        ensures
            out@ == self.rendered(),
    ;
}

impl Render for str {
    open spec fn rendered(&self) -> Seq<char> {
        self@
    }

    fn render(&self) -> (out: String) {
        String::from_str(self)
    }
}

impl Render for String {
    open spec fn rendered(&self) -> Seq<char> {
        self@
    }

    fn render(&self) -> (out: String) {
        self.clone()
    }
}

/// An unsigned integer is its decimal numeral.
impl Render for u8 {
    open spec fn rendered(&self) -> Seq<char> {
        decimal(*self as nat)
    }

    fn render(&self) -> (out: String) {
        let mut out = String::new();
        push_number(&mut out, *self as u64);
        assert(out@ =~= decimal(*self as nat));
        out
    }
}

/// An unsigned integer is its decimal numeral.
impl Render for u16 {
    open spec fn rendered(&self) -> Seq<char> {
        decimal(*self as nat)
    }

    fn render(&self) -> (out: String) {
        let mut out = String::new();
        push_number(&mut out, *self as u64);
        assert(out@ =~= decimal(*self as nat));
        out
    }
}

/// An unsigned integer is its decimal numeral.
impl Render for u32 {
    open spec fn rendered(&self) -> Seq<char> {
        decimal(*self as nat)
    }

    fn render(&self) -> (out: String) {
        let mut out = String::new();
        push_number(&mut out, *self as u64);
        assert(out@ =~= decimal(*self as nat));
        out
    }
}

/// An unsigned integer is its decimal numeral.
impl Render for u64 {
    open spec fn rendered(&self) -> Seq<char> {
        decimal(*self as nat)
    }

    fn render(&self) -> (out: String) {
        let mut out = String::new();
        push_number(&mut out, *self as u64);
        assert(out@ =~= decimal(*self as nat));
        out
    }
}

/// An unsigned integer is its decimal numeral.
impl Render for usize {
    open spec fn rendered(&self) -> Seq<char> {
        decimal(*self as nat)
    }

    fn render(&self) -> (out: String) {
        let mut out = String::new();
        push_number(&mut out, *self as u64);
        assert(out@ =~= decimal(*self as nat));
        out
    }
}

/// A signed integer is its decimal numeral, with a minus sign where it is
/// negative.
impl Render for i8 {
    open spec fn rendered(&self) -> Seq<char> {
        signed_decimal(*self as int)
    }

    fn render(&self) -> (out: String) {
        let mut out = String::new();
        push_signed(&mut out, *self as i64);
        assert(out@ =~= signed_decimal(*self as int));
        out
    }
}

/// A signed integer is its decimal numeral, with a minus sign where it is
/// negative.
impl Render for i16 {
    open spec fn rendered(&self) -> Seq<char> {
        signed_decimal(*self as int)
    }

    fn render(&self) -> (out: String) {
        let mut out = String::new();
        push_signed(&mut out, *self as i64);
        assert(out@ =~= signed_decimal(*self as int));
        out
    }
}

/// A signed integer is its decimal numeral, with a minus sign where it is
/// negative.
impl Render for i32 {
    open spec fn rendered(&self) -> Seq<char> {
        signed_decimal(*self as int)
    }

    fn render(&self) -> (out: String) {
        let mut out = String::new();
        push_signed(&mut out, *self as i64);
        assert(out@ =~= signed_decimal(*self as int));
        out
    }
}

/// A signed integer is its decimal numeral, with a minus sign where it is
/// negative.
impl Render for i64 {
    open spec fn rendered(&self) -> Seq<char> {
        signed_decimal(*self as int)
    }

    fn render(&self) -> (out: String) {
        let mut out = String::new();
        push_signed(&mut out, *self as i64);
        assert(out@ =~= signed_decimal(*self as int));
        out
    }
}

/// A signed integer is its decimal numeral, with a minus sign where it is
/// negative.
impl Render for isize {
    open spec fn rendered(&self) -> Seq<char> {
        signed_decimal(*self as int)
    }

    fn render(&self) -> (out: String) {
        let mut out = String::new();
        push_signed(&mut out, *self as i64);
        assert(out@ =~= signed_decimal(*self as int));
        out
    }
}

/// A truth value is the word `true` or `false`.
impl Render for bool {
    open spec fn rendered(&self) -> Seq<char> {
        if *self {
            "true"@
        } else {
            "false"@
        }
    }

    fn render(&self) -> (out: String) {
        if *self {
            String::from_str("true")
        } else {
            String::from_str("false")
        }
    }
}

impl<T: Render + ?Sized> Render for &T {
    open spec fn rendered(&self) -> Seq<char> {
        (**self).rendered()
    }

    fn render(&self) -> (out: String) {
        (**self).render()
    }
}

} // verus!
