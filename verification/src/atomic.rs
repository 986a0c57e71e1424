//! The cell that holds the overrides of a whole program.
//!
//! The cell is one atomic byte, read and written without a lock. Any thread
//! that holds a reference may write to it at any time, so nothing is known
//! of what a read returns but that it is some byte that was stored; what a
//! byte means is settled by [`Override::from_num`] and [`Override::to_num`].
//! Changing one tier is a read followed by a write of the whole byte: two
//! threads that change different tiers at the same time may lose one of the
//! two changes.

use crate::overrides::{ColorOverride, Override};
use std::sync::atomic::AtomicU8;
use std::sync::atomic::Ordering;
use vstd::prelude::*;

verus! {

/// `AtomicU8::store` with sequentially consistent ordering. A store with
/// this ordering does not panic, so the call returns without unwinding;
/// nothing is claimed of what the cell holds afterwards.
#[verifier::external_body]
fn store_bits(cell: &AtomicU8, bits: u8)
    opens_invariants none
    no_unwind
{
    cell.store(bits, Ordering::SeqCst)
}

/// The overrides of a program, shared by all its threads.
pub struct AtomicOverride(AtomicU8);

/// Puts back the overrides that a scope has replaced, when the scope ends:
/// on return and on unwinding alike.
pub struct Restore<'a> {
    cell: &'a AtomicOverride,
    previous: Override,
}

impl AtomicOverride {
    /// A cell in which no tier is overridden.
    pub fn none() -> AtomicOverride {
        AtomicOverride(AtomicU8::new(Override::none().to_num()))
    }

    /// The overrides that the cell holds at the moment of the call.
    pub fn load(&self) -> Override {
        let value = self.0.load(Ordering::SeqCst);
        Override::from_num(value)
    }

    /// Replaces the overrides of all three tiers.
    pub fn store(&self, value: Override)
        opens_invariants none
        no_unwind
    {
        store_bits(&self.0, value.to_num());
    }

    /// Replaces the override of the named colors and keeps the other two as
    /// they were read.
    pub fn store_ansi(&self, value: ColorOverride) {
        let base = self.load();
        self.store(base.with_ansi(value));
    }

    /// Replaces the override of the palette and keeps the other two as they
    /// were read.
    pub fn store_xterm(&self, value: ColorOverride) {
        let base = self.load();
        self.store(base.with_xterm(value));
    }

    /// Replaces the override of 24-bit color and keeps the other two as they
    /// were read.
    pub fn store_truecolor(&self, value: ColorOverride) {
        let base = self.load();
        self.store(base.with_truecolor(value));
    }

    /// Replaces the overrides until the value that is returned is dropped;
    /// then the overrides that were read before the replacement come back.
    pub fn replace(&self, value: Override) -> (scope: Restore<'_>)
        ensures
            scope.cell() == self,
    {
        let previous = self.load();
        self.store(value);
        Restore { cell: self, previous }
    }
}

impl<'a> Restore<'a> {
    /// The cell that the former overrides are put back into.
    pub closed spec fn cell(&self) -> &'a AtomicOverride {
        self.cell
    }
}

impl<'a> Drop for Restore<'a> {
    fn drop(&mut self)
        opens_invariants none
        no_unwind
    {
        self.cell.store(self.previous);
    }
}

} // verus!
