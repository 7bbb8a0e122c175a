//! The single-instruction atomic shared cell.
//!
//! A [`GbaCell`] wraps one memory word that both the foreground path and the
//! preempting interrupt-handler path may touch. On the console every access is
//! one machine instruction (a load, a store, or the dedicated `swp` exchange),
//! so a value can never be observed half-written across the preemption
//! boundary. Here each operation is one indivisible model transition with an
//! exact contract; the interleaving argument that this granularity is what
//! rules out lost updates lives in [`crate::atomicity`].
//!
//! The [`GbaCellSafe`] marker names the types whose representation fits in 1,
//! 2, or 4 bytes and is moved by a single instruction; only those may live in
//! a cell.

use vstd::prelude::*;

use crate::runtime::HandlerFn;

verus! {

/// Marker for types whose values are moved by a single machine instruction:
/// primitives of 1, 2, or 4 bytes, and transparent wrappers over them.
pub trait GbaCellSafe: Copy {

}

impl GbaCellSafe for u8 {

}

impl GbaCellSafe for i8 {

}

impl GbaCellSafe for u16 {

}

impl GbaCellSafe for i16 {

}

impl GbaCellSafe for u32 {

}

impl GbaCellSafe for i32 {

}

impl GbaCellSafe for bool {

}

impl GbaCellSafe for Option<HandlerFn> {

}

/// A shared cell accessed only by whole-word, single-instruction operations.
///
/// `read` and `write` are the single volatile load and store; [`GbaCell::swap`]
/// is the indivisible read-then-write exchange that the hardware provides as
/// one instruction, for the one shared-state pattern that inherently needs a
/// read-modify-write.
pub struct GbaCell<T: GbaCellSafe> {
    value: T,
}

impl<T: GbaCellSafe> View for GbaCell<T> {
    type V = T;

    closed spec fn view(&self) -> T {
        self.value
    }
}

impl<T: GbaCellSafe> GbaCell<T> {
    /// Makes a new cell holding `t`.
    pub fn new(t: T) -> (r: Self)
        ensures
            r@ == t,
    {
        GbaCell { value: t }
    }

    /// Single-instruction load: returns exactly the cell's current value.
    pub fn read(&self) -> (r: T)
        ensures
            r == self@,
    {
        self.value
    }

    /// Single-instruction store: the cell holds exactly `t` afterwards.
    pub fn write(&mut self, t: T)
        ensures
            final(self)@ == t,
    {
        self.value = t;
    }

    /// Indivisible exchange: stores `t` and returns the value the cell held
    /// immediately before, with no point in between at which a preemption
    /// could observe or interleave.
    pub fn swap(&mut self, t: T) -> (r: T)
        ensures
            r == old(self)@,
            final(self)@ == t,
    {
        let prior: T = self.value;
        self.value = t;
        prior
    }
}

} // verus!
