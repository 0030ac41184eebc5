//! A one-shot handoff slot: the model of the single-use channel that
//! carries the creation outcome from the owning thread back to the waiting
//! caller.
//!
//! A value is sent at most once — sending requires the slot to be empty —
//! and taken at most once; the sender keeps nothing back. The cross-thread
//! blocking carrier itself lives outside this crate; this type is the
//! discipline both sides must follow.

use vstd::prelude::*;

verus! {

/// A single-use slot for exactly one value.
pub enum OneShot<T> {
    /// Nothing was sent yet.
    Empty,
    /// A value was sent and not yet taken.
    Sent(T),
    /// The value was taken by the receiving side.
    Taken,
}

impl<T> OneShot<T> {
    /// A fresh, empty slot.
    pub fn new() -> (s: Self)
        ensures
            s is Empty,
    {
        OneShot::Empty
    }

    /// Send a value into the slot. A slot accepts only one send ever; the
    /// value is moved, so the sending side retains nothing past the send.
    pub fn send(&mut self, v: T)
        requires
            *old(self) is Empty,
        ensures
            *final(self) == OneShot::Sent(v),
    {
        *self = OneShot::Sent(v);
    }

    /// Take the sent value out. Blockingly waiting for the send is the
    /// carrier's business; the slot itself only hands the one value over,
    /// once.
    pub fn take(&mut self) -> (v: T)
        requires
            *old(self) is Sent,
        ensures
            *final(self) is Taken,
            *old(self) == OneShot::Sent(v),
    {
        let mut slot = OneShot::Taken;
        core::mem::swap(self, &mut slot);
        match slot {
            OneShot::Sent(v) => v,
            _ => vstd::pervasive::unreached(),
        }
    }
}

} // verus!
