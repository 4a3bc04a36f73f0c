//! The shared value cell: one slot holding the latest successfully fetched
//! rate as text, written by the poller and read by the presentation layer.
//!
//! The cell itself carries the value semantics — a write replaces the held
//! value, a read hands out a copy of it, last writer wins. Sharing it across
//! execution contexts (the surrounding process wraps it in its own
//! mutual-exclusion primitive) does not change what a completed write or
//! read means, and stays outside this crate.

use vstd::prelude::*;

verus! {

/// A single mutable slot with the latest known rate as text; empty before
/// the first successful fetch.
pub struct SharedRateCell {
    value: String,
}

impl View for SharedRateCell {
    type V = Seq<char>;

    closed spec fn view(&self) -> Seq<char> {
        self.value@
    }
}

impl Default for SharedRateCell {
    /// Before the first successful fetch the cell holds the empty value.
    fn default() -> (r: SharedRateCell)
        ensures
            r@ == Seq::<char>::empty(),
    {
        SharedRateCell { value: String::new() }
    }
}

impl SharedRateCell {
    /// An empty cell, as the process starts with.
    pub fn new() -> (r: SharedRateCell)
        ensures
            r@ == Seq::<char>::empty(),
    {
        SharedRateCell { value: String::new() }
    }

    /// Replaces the held value unconditionally.
    pub fn write(&mut self, value: String)
        ensures
            final(self)@ == value@,
    {
        self.value = value;
    }

    /// A copy of the currently held value: a read after a completed write
    /// returns exactly the written value, until the next write.
    pub fn read(&self) -> (r: String)
        ensures
            r@ == self@,
    {
        self.value.clone()
    }
}

} // verus!
