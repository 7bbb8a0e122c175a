//! A formally specified model of the GBA's foreground/interrupt concurrency
//! core: the typed volatile-register access discipline, the single-instruction
//! atomic shared cell, the interrupt acknowledgment and dispatch protocol, and
//! the cooperative wait-for-interrupt primitive, together with the bit-field
//! register value types that ride on top of them.
//!
//! Hardware itself (real MMIO loads and stores, the `swp` instruction, the
//! BIOS `swi` calls) only exists on the console; here every hardware step is
//! an explicit, verified transition on a modelled machine state, so that the
//! protocol logic — what is acknowledged, in what order, and what can never be
//! lost across a preemption — is proved rather than assumed.

use vstd::prelude::*;

pub mod atomicity;
pub mod bios;
pub mod bits;
pub mod gba_cell;
pub mod irq;
pub mod keys;
pub mod mmio;
pub mod runtime;
pub mod video;

verus! {

/// Atomically exchanges `word` with the value behind `addr`, returning the
/// prior value.
///
/// On the console this is a single `swp` instruction; as a model transition it
/// is one indivisible read-then-write step.
pub fn swp(word: u32, addr: &mut u32) -> (old_val: u32)
    ensures
        old_val == *old(addr),
        *final(addr) == word,
{
    let prior: u32 = *addr;
    *addr = word;
    prior
}

} // verus!
