//! Why the shared-cell discipline works: an interleaving model of the one
//! race this machine has.
//!
//! There is no true parallelism — the handler path preempts the foreground
//! synchronously, runs to completion, and returns. The only race is a
//! foreground multi-step read-modify-write with a preemption landing in the
//! middle. This module models that fault injection exactly: a schedule is an
//! arbitrary interleaving of foreground micro-steps (one per machine
//! instruction touching the shared cell) and handler preemptions, so every
//! instruction boundary of the foreground loop is a possible preemption
//! point. The handler's own read-modify-write counts as one step because the
//! handler cannot itself be preempted.
//!
//! Two foreground increment loops run against a handler that increments the
//! same shared tally:
//!
//! * the *plain* loop uses a separate single-instruction load and store
//!   around its add — and [`lemma_plain_counter_can_lose`] exhibits a
//!   schedule on which an update is lost;
//! * the *exchange* loop harvests the cell with the indivisible
//!   [`GbaCell::swap`] and folds the harvest into a private accumulator —
//!   and [`lemma_swap_counter_never_loses`] proves that **no** schedule
//!   loses an update.
//!
//! The executable simulators drive real [`GbaCell`]s through a given
//! schedule and are proved to follow the spec machines step for step.

use vstd::prelude::*;

use crate::gba_cell::GbaCell;

verus! {

/// One step of an interleaving: the foreground runs its next machine
/// instruction, or the handler preempts and runs to completion.
#[derive(Debug, Clone, Copy, PartialEq, Eq, Structural)]
pub enum SchedStep {
    /// The foreground executes its next micro-step.
    Foreground,
    /// The handler preempts, increments the shared tally once, and returns.
    Interrupt,
}

/// The plain machine's state: the foreground increments the shared tally
/// with a separate load (`pc` 0) and store (`pc` 1) around its add.
pub struct PlainTally {
    /// The shared cell's value.
    pub shared: nat,
    /// The foreground's loaded copy, meaningful at `pc` 1.
    pub temp: nat,
    /// Which micro-step the foreground runs next: 0 loads, 1 stores.
    pub pc: nat,
    /// Completed foreground iterations.
    pub fg_done: nat,
    /// Completed handler preemptions.
    pub irq_count: nat,
}

/// The plain machine's start state.
pub open spec fn plain_init() -> PlainTally {
    PlainTally { shared: 0, temp: 0, pc: 0, fg_done: 0, irq_count: 0 }
}

/// One step of the plain machine.
pub open spec fn plain_step(s: PlainTally, st: SchedStep) -> PlainTally {
    match st {
        SchedStep::Foreground => {
            if s.pc == 0 {
                PlainTally { temp: s.shared, pc: 1, ..s }
            } else {
                PlainTally { shared: s.temp + 1, pc: 0, fg_done: s.fg_done + 1, ..s }
            }
        },
        SchedStep::Interrupt => {
            PlainTally { shared: s.shared + 1, irq_count: s.irq_count + 1, ..s }
        },
    }
}

/// Runs the plain machine from `s` over `steps[i..]`.
pub open spec fn plain_run_from(s: PlainTally, steps: Seq<SchedStep>, i: int) -> PlainTally
    decreases steps.len() - i,
{
    if i < 0 || i >= steps.len() {
        s
    } else {
        plain_run_from(plain_step(s, steps[i]), steps, i + 1)
    }
}

/// The exchange machine's state: the foreground harvests the shared cell
/// with one indivisible exchange (`pc` 0), then folds the harvest plus its
/// own increment into a private accumulator (`pc` 1).
pub struct SwapTally {
    /// The shared cell's value: handler increments not yet harvested.
    pub shared: nat,
    /// The foreground's private accumulator.
    pub local: nat,
    /// The harvested value, meaningful at `pc` 1.
    pub temp: nat,
    /// Which micro-step the foreground runs next: 0 exchanges, 1 folds.
    pub pc: nat,
    /// Completed foreground iterations.
    pub fg_done: nat,
    /// Completed handler preemptions.
    pub irq_count: nat,
}

/// The exchange machine's start state.
pub open spec fn swap_init() -> SwapTally {
    SwapTally { shared: 0, local: 0, temp: 0, pc: 0, fg_done: 0, irq_count: 0 }
}

/// One step of the exchange machine.
pub open spec fn swap_step(s: SwapTally, st: SchedStep) -> SwapTally {
    match st {
        SchedStep::Foreground => {
            if s.pc == 0 {
                SwapTally { temp: s.shared, shared: 0, pc: 1, ..s }
            } else {
                SwapTally { local: s.local + s.temp + 1, pc: 0, fg_done: s.fg_done + 1, ..s }
            }
        },
        SchedStep::Interrupt => {
            SwapTally { shared: s.shared + 1, irq_count: s.irq_count + 1, ..s }
        },
    }
}

/// Runs the exchange machine from `s` over `steps[i..]`.
pub open spec fn swap_run_from(s: SwapTally, steps: Seq<SchedStep>, i: int) -> SwapTally
    decreases steps.len() - i,
{
    if i < 0 || i >= steps.len() {
        s
    } else {
        swap_run_from(swap_step(s, steps[i]), steps, i + 1)
    }
}

/// The exchange machine's inductive invariant: every increment ever made is
/// accounted for — in the accumulator, still parked in the cell, or in
/// flight in the harvested copy.
pub open spec fn swap_inv(s: SwapTally) -> bool {
    &&& (s.pc == 0 || s.pc == 1)
    &&& s.local + s.shared + (if s.pc == 1 { s.temp } else { 0 }) == s.fg_done + s.irq_count
}

proof fn lemma_swap_inv_preserved(s: SwapTally, steps: Seq<SchedStep>, i: int)
    requires
        swap_inv(s),
    ensures
        swap_inv(swap_run_from(s, steps, i)),
    decreases steps.len() - i,
{
    if 0 <= i < steps.len() {
        lemma_swap_inv_preserved(swap_step(s, steps[i]), steps, i + 1);
    }
}

/// For every interleaving — a preemption at any instruction boundary, any
/// number of times — the exchange-based loop never loses an update: at every
/// iteration boundary the accumulator plus the un-harvested cell hold
/// exactly one increment per completed foreground iteration and per handler
/// run.
pub proof fn lemma_swap_counter_never_loses(steps: Seq<SchedStep>)
    ensures
        ({
            let f = swap_run_from(swap_init(), steps, 0);
            f.pc == 0 ==> f.local + f.shared == f.fg_done + f.irq_count
        }),
{
    lemma_swap_inv_preserved(swap_init(), steps, 0);
}

/// The property the plain loop fails to keep: after this schedule the tally
/// no longer accounts for every increment made.
pub open spec fn loses_update(steps: Seq<SchedStep>) -> bool {
    let f = plain_run_from(plain_init(), steps, 0);
    f.pc == 0 && f.shared < f.fg_done + f.irq_count
}

/// A preemption in the middle of the plain read-modify-write loses an
/// update: the schedule that preempts between the foreground's load and its
/// store makes the store overwrite the handler's increment.
pub proof fn lemma_plain_counter_can_lose()
    ensures
        exists|steps: Seq<SchedStep>| loses_update(steps),
{
    let steps = seq![SchedStep::Foreground, SchedStep::Interrupt, SchedStep::Foreground];
    let s0 = plain_init();
    let s1 = plain_step(s0, steps[0]);
    let s2 = plain_step(s1, steps[1]);
    let s3 = plain_step(s2, steps[2]);
    assert(plain_run_from(s0, steps, 0) == plain_run_from(s1, steps, 1));
    assert(plain_run_from(s1, steps, 1) == plain_run_from(s2, steps, 2));
    assert(plain_run_from(s2, steps, 2) == plain_run_from(s3, steps, 3));
    assert(plain_run_from(s3, steps, 3) == s3);
    assert(s3.shared == 1 && s3.fg_done == 1 && s3.irq_count == 1 && s3.pc == 0);
    assert(loses_update(steps));
}

/// What a simulator run ends with, mirrored from the spec machine's state.
#[derive(Debug, Clone, Copy, PartialEq, Eq, Structural)]
pub struct CounterOutcome {
    /// The shared cell's final value.
    pub shared: u32,
    /// The foreground's private accumulator (always zero for the plain loop).
    pub local: u32,
    /// Which micro-step the foreground would run next.
    pub pc: u32,
    /// Completed foreground iterations.
    pub fg_done: u32,
    /// Completed handler preemptions.
    pub irq_count: u32,
}

/// Drives a real [`GbaCell`] through `steps` with the *plain* foreground
/// loop — separate single-instruction load and store around the add — while
/// each `Interrupt` step is the handler incrementing the same cell.
#[verifier::loop_isolation(false)]
pub fn run_plain_counter(steps: &Vec<SchedStep>) -> (r: CounterOutcome)
    requires
        steps@.len() <= 0x4000_0000,
    ensures
        ({
            let f = plain_run_from(plain_init(), steps@, 0);
            r.shared == f.shared && r.local == 0 && r.pc == f.pc && r.fg_done == f.fg_done
                && r.irq_count == f.irq_count
        }),
{
    let mut cell: GbaCell<u32> = GbaCell::new(0);
    let mut temp: u32 = 0;
    let mut pc: u32 = 0;
    let mut fg_done: u32 = 0;
    let mut irq_count: u32 = 0;
    let mut i: usize = 0;
    while i < steps.len()
        invariant
            i <= steps@.len(),
            cell@ <= i && temp <= i && fg_done <= i && irq_count <= i,
            pc == 0 || pc == 1,
            plain_run_from(plain_init(), steps@, 0) == plain_run_from(
                PlainTally {
                    shared: cell@ as nat,
                    temp: temp as nat,
                    pc: pc as nat,
                    fg_done: fg_done as nat,
                    irq_count: irq_count as nat,
                },
                steps@,
                i as int,
            ),
        decreases steps@.len() - i,
    {
        match steps[i] {
            SchedStep::Foreground => {
                if pc == 0 {
                    temp = cell.read();
                    pc = 1;
                } else {
                    cell.write(temp + 1);
                    pc = 0;
                    fg_done = fg_done + 1;
                }
            },
            SchedStep::Interrupt => {
                // The handler cannot be preempted, so its read-modify-write
                // is one schedule step.
                let v = cell.read();
                cell.write(v + 1);
                irq_count = irq_count + 1;
            },
        }
        i = i + 1;
    }
    CounterOutcome { shared: cell.read(), local: 0, pc, fg_done, irq_count }
}

/// Drives a real [`GbaCell`] through `steps` with the *exchange* foreground
/// loop: the cell is harvested with the indivisible [`GbaCell::swap`], and
/// the harvest plus the foreground's own increment land in a private
/// accumulator the handler can never touch.
#[verifier::loop_isolation(false)]
pub fn run_swap_counter(steps: &Vec<SchedStep>) -> (r: CounterOutcome)
    requires
        steps@.len() <= 0x4000_0000,
    ensures
        ({
            let f = swap_run_from(swap_init(), steps@, 0);
            r.shared == f.shared && r.local == f.local && r.pc == f.pc && r.fg_done == f.fg_done
                && r.irq_count == f.irq_count
        }),
        r.pc == 0 ==> r.local + r.shared == r.fg_done + r.irq_count,
{
    let mut cell: GbaCell<u32> = GbaCell::new(0);
    let mut local: u32 = 0;
    let mut temp: u32 = 0;
    let mut pc: u32 = 0;
    let mut fg_done: u32 = 0;
    let mut irq_count: u32 = 0;
    let mut i: usize = 0;
    while i < steps.len()
        invariant
            i <= steps@.len(),
            cell@ <= i && temp <= i && fg_done <= i && irq_count <= i,
            local as int + cell@ as int + (if pc == 1 { temp as int } else { 0 }) == fg_done
                + irq_count,
            pc == 0 || pc == 1,
            swap_run_from(swap_init(), steps@, 0) == swap_run_from(
                SwapTally {
                    shared: cell@ as nat,
                    local: local as nat,
                    temp: temp as nat,
                    pc: pc as nat,
                    fg_done: fg_done as nat,
                    irq_count: irq_count as nat,
                },
                steps@,
                i as int,
            ),
        decreases steps@.len() - i,
    {
        match steps[i] {
            SchedStep::Foreground => {
                if pc == 0 {
                    // One indivisible exchange: no preemption can land
                    // between the read and the write.
                    temp = cell.swap(0);
                    pc = 1;
                } else {
                    local = local + temp + 1;
                    pc = 0;
                    fg_done = fg_done + 1;
                }
            },
            SchedStep::Interrupt => {
                // The handler cannot be preempted, so its read-modify-write
                // is one schedule step.
                let v = cell.read();
                cell.write(v + 1);
                irq_count = irq_count + 1;
            },
        }
        i = i + 1;
    }
    proof {
        lemma_swap_counter_never_loses(steps@);
    }
    CounterOutcome { shared: cell.read(), local, pc, fg_done, irq_count }
}

} // verus!
