//! The interrupt dispatch runtime and the wait-for-interrupt primitive.
//!
//! The machine here has exactly two logically concurrent paths: the
//! foreground program, and a handler path that preempts it synchronously when
//! the hardware takes an interrupt. An [`IrqRuntime`] gathers every piece of
//! state those two paths share: the three interrupt control registers inside
//! the modelled register space, the registered-handler slot, and the
//! pending-occurrence record — the latter two held in [`GbaCell`]s, the only
//! shape of shared state the design permits.
//!
//! [`irq_dispatch`] is the trampoline the platform runs on an interrupt. Its
//! contract pins the whole protocol: it acknowledges — clears in the flags
//! register — exactly the pending-and-enabled sources *before* any handler
//! observes them, ORs the same bits into the occurrence record, and invokes
//! the registered handler (if one is present) with exactly the acknowledged
//! set. The model performs no control transfer; each invocation the runtime
//! would make is recorded in order, so "zero observable side effects when no
//! handler is registered" is a theorem, not a convention.
//!
//! [`IntrWait`] is the sole suspension point. The processor cannot sleep
//! here, so the halt instruction's wake-ups are driven by an explicit list of
//! incoming interrupt events, one per halt; preemption is taken exactly at
//! halt boundaries, which is where a foreground program parked in a halt loop
//! can be preempted. An exhausted list models the documented hazard that a
//! wait on a source which never fires never returns.

use vstd::prelude::*;

use crate::bits::u16_bit;
use crate::gba_cell::GbaCell;
use crate::irq::IrqBits;
use crate::irq::ie_reg;
use crate::irq::if_reg;
use crate::irq::ime_reg;
use crate::irq::IE;
use crate::irq::IF;
use crate::irq::IME;
use crate::mmio::Mmio;

verus! {

/// Stands in for a registered handler function of signature
/// `(IrqBits) -> ()`.
///
/// The runtime never transfers control in the model; instead every
/// invocation it would perform is recorded, tagged with the handler's `id`,
/// so a contract can state exactly which handler ran and with which argument.
#[derive(Debug, Clone, Copy, PartialEq, Eq, Structural)]
pub struct HandlerFn {
    /// Distinguishes one registered handler from another.
    pub id: u16,
}

/// One handler invocation the dispatch runtime performed: which handler, and
/// the acknowledged sources it was given as its argument.
#[derive(Debug, Clone, Copy, PartialEq, Eq, Structural)]
pub struct HandlerCall {
    /// The `id` of the handler that was invoked.
    pub handler: u16,
    /// The acknowledged sources passed to it.
    pub arg: u16,
}

/// The shared-state snapshot the protocol's mathematics runs on: the three
/// interrupt registers, the occurrence record, the handler slot, and the
/// invocations performed so far.
#[verifier::ext_equal]
pub struct CoreState {
    /// Master enable.
    pub ime: bool,
    /// The enable mask register.
    pub ie: u16,
    /// The pending-flags register.
    pub iflags: u16,
    /// The pending-occurrence record.
    pub wait: u16,
    /// The registered handler, if any.
    pub handler: Option<HandlerFn>,
    /// Every handler invocation performed, oldest first.
    pub calls: Seq<HandlerCall>,
}

/// One run of the dispatch trampoline: acknowledge the pending-and-enabled
/// sources, record them for the wait primitive, then invoke the registered
/// handler with exactly the acknowledged set.
pub open spec fn spec_dispatch(s: CoreState) -> CoreState {
    let acked = s.iflags & s.ie;
    CoreState {
        iflags: s.iflags & !acked,
        wait: s.wait | acked,
        calls: match s.handler {
            Some(h) => s.calls.push(HandlerCall { handler: h.id, arg: acked }),
            None => s.calls,
        },
        ..s
    }
}

/// One interrupt event: the fired sources reach the flags register, and the
/// processor takes the interrupt — running one dispatch — exactly when the
/// master switch is on and some pending source is enabled.
pub open spec fn spec_raise_step(s: CoreState, fired: u16) -> CoreState {
    let s1 = CoreState { iflags: s.iflags | fired, ..s };
    if s1.ime && (s1.iflags & s1.ie) != 0 {
        spec_dispatch(s1)
    } else {
        s1
    }
}

/// The wait loop, started at event index `i`: if the occurrence record meets
/// `target` the wait ends, consuming the matched bits; otherwise the
/// processor halts, the next incoming event is taken, and the loop repeats.
/// The result counts the events consumed, or is `None` when the events ran
/// out with the wait still halted.
pub open spec fn spec_wait_from(
    s: CoreState,
    target: u16,
    events: Seq<u16>,
    i: int,
) -> (Option<nat>, CoreState)
    decreases events.len() - i,
{
    if s.wait & target != 0 {
        (Some(0nat), CoreState { wait: s.wait & !target, ..s })
    } else if i < 0 || i >= events.len() {
        (None, s)
    } else {
        let stepped = spec_wait_from(spec_raise_step(s, events[i]), target, events, i + 1);
        match stepped.0 {
            Some(n) => (Some((n + 1) as nat), stepped.1),
            None => (None, stepped.1),
        }
    }
}

/// The whole shared state that foreground code and the preempting handler
/// path both touch, as one explicit machine.
///
/// The two process-wide singletons live in [`GbaCell`]s: the handler slot is
/// written by foreground code through [`set_rust_irq_handler`] and read once
/// per dispatch; the occurrence record is written by dispatch and consumed by
/// [`IntrWait`].
pub struct IrqRuntime {
    /// The modelled register space, holding `IE`, `IF` and `IME`.
    pub mmio: Mmio,
    /// The registered-handler slot.
    pub handler: GbaCell<Option<HandlerFn>>,
    /// The pending-occurrence record.
    pub intr_wait_flags: GbaCell<u16>,
    /// Every handler invocation the dispatch runtime performed, oldest first.
    pub handler_calls: Vec<HandlerCall>,
}

impl IrqRuntime {
    /// The enable mask register's value.
    pub open spec fn ie(&self) -> u16 {
        self.mmio.reg(IE)
    }

    /// The pending-flags register's value.
    pub open spec fn irq_flags(&self) -> u16 {
        self.mmio.reg(IF)
    }

    /// Whether the master switch is on: bit zero of the `IME` register.
    pub open spec fn ime_on(&self) -> bool {
        self.mmio.reg(IME) & 1 == 1
    }

    /// The pending-occurrence record's value.
    pub open spec fn wait_flags(&self) -> u16 {
        self.intr_wait_flags@
    }

    /// The registered handler, if any.
    pub open spec fn handler_view(&self) -> Option<HandlerFn> {
        self.handler@
    }

    /// Every handler invocation performed so far, oldest first.
    pub open spec fn calls(&self) -> Seq<HandlerCall> {
        self.handler_calls@.map_values(|c: HandlerCall| c)
    }

    /// The machine's shared state as one snapshot.
    pub open spec fn snapshot(&self) -> CoreState {
        CoreState {
            ime: self.ime_on(),
            ie: self.ie(),
            iflags: self.irq_flags(),
            wait: self.wait_flags(),
            handler: self.handler_view(),
            calls: self.calls(),
        }
    }

    /// A machine at process start: registers in reset state, no handler
    /// registered, nothing pending, nothing recorded, no invocation made.
    pub fn new() -> (r: Self)
        ensures
            r.ie() == 0u16,
            r.irq_flags() == 0u16,
            !r.ime_on(),
            r.wait_flags() == 0u16,
            r.handler_view() is None,
            r.calls() == Seq::<HandlerCall>::empty(),
            forall|a: usize| r.mmio.reg(a) == 0u16,
    {
        let r = IrqRuntime {
            mmio: Mmio::new(),
            handler: GbaCell::new(None),
            intr_wait_flags: GbaCell::new(0),
            handler_calls: Vec::new(),
        };
        proof {
            assert(0u16 & 1u16 == 0u16) by (bit_vector);
            assert(r.calls() =~= Seq::<HandlerCall>::empty());
        }
        r
    }
}

/// Sets the function to run when a hardware interrupt occurs.
///
/// Dispatch still acknowledges interrupts when the slot holds `None`; it just
/// skips the invocation. The store is a single-instruction cell write, so the
/// handler path can never observe a half-updated slot.
pub fn set_rust_irq_handler(rt: &mut IrqRuntime, opt_f: Option<HandlerFn>)
    ensures
        final(rt).handler_view() == opt_f,
        final(rt).mmio == old(rt).mmio,
        final(rt).wait_flags() == old(rt).wait_flags(),
        final(rt).calls() == old(rt).calls(),
{
    rt.handler.write(opt_f);
}

/// The interrupt dispatch trampoline.
///
/// The platform invokes this whenever the master switch is on and an enabled
/// source is pending, with further interrupts implicitly suppressed for the
/// duration. The contract pins the protocol and its mandatory order:
///
/// 1. exactly the pending-and-enabled sources are acknowledged — cleared in
///    the flags register — and the acknowledging store is the last hardware
///    transaction, completed before any handler could observe it;
/// 2. the acknowledged bits are ORed into the pending-occurrence record;
/// 3. the registered handler, if present, is invoked once with exactly the
///    acknowledged set; with no handler registered nothing is invoked and
///    the invocation record is untouched.
pub fn irq_dispatch(rt: &mut IrqRuntime) -> (acked: IrqBits)
    requires
        old(rt).ime_on(),
    ensures
        acked@ == (old(rt).irq_flags() & old(rt).ie()),
        final(rt).snapshot() == spec_dispatch(old(rt).snapshot()),
        final(rt).handler_view() == old(rt).handler_view(),
        final(rt).ime_on() == old(rt).ime_on(),
        forall|a: usize| a != IF ==> final(rt).mmio.reg(a) == old(rt).mmio.reg(a),
        final(rt).mmio.transactions() == old(rt).mmio.transactions() + seq![
            crate::mmio::MmioOp::Load { address: IF, value: old(rt).irq_flags() },
            crate::mmio::MmioOp::Load { address: IE, value: old(rt).ie() },
            crate::mmio::MmioOp::Store {
                address: IF,
                value: (old(rt).irq_flags() & !(old(rt).irq_flags() & old(rt).ie())),
            },
        ],
{
    let ghost pre = rt.mmio.transactions();
    let flags = IrqBits::from_u16(if_reg().read(&mut rt.mmio));
    let enabled = IrqBits::from_u16(ie_reg().read(&mut rt.mmio));
    let acked = flags.intersect(enabled);
    // Acknowledge before anything else may run: clear exactly the bits about
    // to be serviced, so a same-source re-fire during the handler is a new,
    // distinct occurrence.
    if_reg().write(&mut rt.mmio, flags.intersect(acked.complement()).to_u16());
    // Record the occurrence for the wait primitive. This read-modify-write is
    // safe here and only here: the handler path cannot itself be preempted.
    let prior = rt.intr_wait_flags.read();
    rt.intr_wait_flags.write(prior | acked.to_u16());
    // Invoke the registered handler, if any, with the acknowledged snapshot.
    match rt.handler.read() {
        Some(h) => {
            rt.handler_calls.push(HandlerCall { handler: h.id, arg: acked.to_u16() });
        },
        None => {},
    }
    proof {
        assert(final(rt).mmio.transactions() =~= pre + seq![
            crate::mmio::MmioOp::Load { address: IF, value: old(rt).irq_flags() },
            crate::mmio::MmioOp::Load { address: IE, value: old(rt).ie() },
            crate::mmio::MmioOp::Store {
                address: IF,
                value: (old(rt).irq_flags() & !(old(rt).irq_flags() & old(rt).ie())),
            },
        ]);
        assert(final(rt).calls() =~= spec_dispatch(old(rt).snapshot()).calls);
        assert(final(rt).snapshot() =~= spec_dispatch(old(rt).snapshot()));
    }
    acked
}

/// One incoming interrupt event: the fired sources reach the flags register,
/// and if the master switch is on and some pending source is enabled, the
/// processor takes the interrupt and runs one dispatch.
pub fn raise_irq(rt: &mut IrqRuntime, fired: IrqBits)
    ensures
        final(rt).snapshot() == spec_raise_step(old(rt).snapshot(), fired@),
        final(rt).handler_view() == old(rt).handler_view(),
        final(rt).ime_on() == old(rt).ime_on(),
        forall|a: usize| a != IF ==> final(rt).mmio.reg(a) == old(rt).mmio.reg(a),
{
    let flags = IrqBits::from_u16(if_reg().read(&mut rt.mmio));
    if_reg().write(&mut rt.mmio, flags.union(fired).to_u16());
    let pending = IrqBits::from_u16(if_reg().read(&mut rt.mmio));
    let enabled = IrqBits::from_u16(ie_reg().read(&mut rt.mmio));
    let ime = ime_reg().read(&mut rt.mmio);
    if ime & 1 == 1 && !pending.intersect(enabled).is_empty() {
        let _ = irq_dispatch(rt);
    }
    proof {
        assert(final(rt).snapshot() =~= spec_raise_step(old(rt).snapshot(), fired@));
    }
}

/// Shifts a wait outcome by `k` already-consumed events.
pub open spec fn bump_consumed(w: (Option<nat>, CoreState), k: nat) -> (Option<nat>, CoreState) {
    (
        match w.0 {
            Some(n) => Some((n + k) as nat),
            None => None,
        },
        w.1,
    )
}

/// `swi #0x02` — `Halt`: puts the processor into low-power sleep until the
/// next interrupt event arrives; here the event that ends the sleep is passed
/// in, and it runs one [`raise_irq`] step.
#[allow(non_snake_case)]
pub fn Halt(rt: &mut IrqRuntime, fired: IrqBits)
    ensures
        final(rt).snapshot() == spec_raise_step(old(rt).snapshot(), fired@),
        final(rt).handler_view() == old(rt).handler_view(),
        final(rt).ime_on() == old(rt).ime_on(),
        forall|a: usize| a != IF ==> final(rt).mmio.reg(a) == old(rt).mmio.reg(a),
{
    raise_irq(rt, fired);
}

/// `swi #0x04` — performs an "interrupt wait".
///
/// Forces the master switch on. If `clear_old_flags`, the `target_irqs` bits
/// are first cleared from the occurrence record, so only an occurrence
/// recorded after this call can satisfy the wait. The processor then halts
/// repeatedly; each halt consumes the next event of `incoming` (the sources
/// that fired and woke the processor, possibly dispatching). As soon as the
/// record meets `target_irqs`, exactly the target bits are cleared from the
/// record and the wait returns.
///
/// Returns `Some(k)` when the wait ended after consuming `k` events — zero
/// when an old occurrence satisfied it immediately — and `None` when every
/// event was consumed with the wait still halted: the model's rendering of a
/// wait that never returns, the documented hazard of waiting on a source
/// that is never enabled.
#[allow(non_snake_case)]
#[verifier::loop_isolation(false)]
pub fn IntrWait(
    rt: &mut IrqRuntime,
    clear_old_flags: bool,
    target_irqs: IrqBits,
    incoming: &Vec<IrqBits>,
) -> (r: Option<usize>)
    ensures
        final(rt).ime_on(),
        final(rt).handler_view() == old(rt).handler_view(),
        ({
            let s0 = CoreState {
                ime: true,
                ie: old(rt).ie(),
                iflags: old(rt).irq_flags(),
                wait: if clear_old_flags {
                    old(rt).wait_flags() & !target_irqs@
                } else {
                    old(rt).wait_flags()
                },
                handler: old(rt).handler_view(),
                calls: old(rt).calls(),
            };
            let w = spec_wait_from(s0, target_irqs@, incoming@.map_values(|b: IrqBits| b@), 0);
            &&& final(rt).snapshot() == w.1
            &&& (match (r, w.0) {
                (Some(k), Some(n)) => k as nat == n,
                (None, None) => true,
                _ => false,
            })
        }),
        forall|a: usize| a != IF && a != IME ==> final(rt).mmio.reg(a) == old(rt).mmio.reg(a),
{
    ime_reg().write(&mut rt.mmio, 1);
    proof {
        assert(1u16 & 1u16 == 1u16) by (bit_vector);
    }
    if clear_old_flags {
        let prior = rt.intr_wait_flags.read();
        rt.intr_wait_flags.write(prior & !target_irqs.to_u16());
    }
    let ghost s0 = rt.snapshot();
    let ghost evs = incoming@.map_values(|b: IrqBits| b@);
    let ghost w = spec_wait_from(s0, target_irqs@, evs, 0);
    proof {
        assert(s0 =~= CoreState {
            ime: true,
            ie: old(rt).ie(),
            iflags: old(rt).irq_flags(),
            wait: if clear_old_flags {
                old(rt).wait_flags() & !target_irqs@
            } else {
                old(rt).wait_flags()
            },
            handler: old(rt).handler_view(),
            calls: old(rt).calls(),
        });
    }
    let mut k: usize = 0;
    loop
        invariant
            k <= incoming.len(),
            rt.ime_on(),
            rt.handler_view() == s0.handler,
            evs == incoming@.map_values(|b: IrqBits| b@),
            w == spec_wait_from(s0, target_irqs@, evs, 0),
            w == bump_consumed(spec_wait_from(rt.snapshot(), target_irqs@, evs, k as int), k as nat),
            forall|a: usize| a != IF && a != IME ==> rt.mmio.reg(a) == old(rt).mmio.reg(a),
        decreases incoming.len() - k,
    {
        let ghost cur = rt.snapshot();
        let w_now = rt.intr_wait_flags.read();
        if w_now & target_irqs.to_u16() != 0 {
            rt.intr_wait_flags.write(w_now & !target_irqs.to_u16());
            proof {
                assert(spec_wait_from(cur, target_irqs@, evs, k as int) == (
                    Some(0nat),
                    CoreState { wait: cur.wait & !target_irqs@, ..cur },
                ));
                assert(rt.snapshot() =~= CoreState { wait: cur.wait & !target_irqs@, ..cur });
            }
            return Some(k);
        }
        if k == incoming.len() {
            proof {
                assert(spec_wait_from(cur, target_irqs@, evs, k as int) == (
                    None::<nat>,
                    cur,
                ));
                assert(rt.snapshot() =~= cur);
            }
            return None;
        }
        let fired = incoming[k];
        proof {
            assert(evs[k as int] == fired@);
            assert(spec_wait_from(cur, target_irqs@, evs, k as int) == bump_consumed(
                spec_wait_from(spec_raise_step(cur, evs[k as int]), target_irqs@, evs, k as int + 1),
                1nat,
            ));
        }
        raise_irq(rt, fired);
        k = k + 1;
        proof {
            assert(rt.snapshot() == spec_raise_step(cur, fired@));
        }
    }
}

/// `swi #0x05` — performs an "interrupt wait" for a new vertical-blank
/// interrupt: [`IntrWait`] with `clear_old_flags` set and the vertical-blank
/// source as the target.
#[allow(non_snake_case)]
pub fn VBlankIntrWait(rt: &mut IrqRuntime, incoming: &Vec<IrqBits>) -> (r: Option<usize>)
    ensures
        final(rt).ime_on(),
        final(rt).handler_view() == old(rt).handler_view(),
        ({
            let s0 = CoreState {
                ime: true,
                ie: old(rt).ie(),
                iflags: old(rt).irq_flags(),
                wait: old(rt).wait_flags() & !1u16,
                handler: old(rt).handler_view(),
                calls: old(rt).calls(),
            };
            let w = spec_wait_from(s0, 1u16, incoming@.map_values(|b: IrqBits| b@), 0);
            &&& final(rt).snapshot() == w.1
            &&& (match (r, w.0) {
                (Some(k), Some(n)) => k as nat == n,
                (None, None) => true,
                _ => false,
            })
        }),
        forall|a: usize| a != IF && a != IME ==> final(rt).mmio.reg(a) == old(rt).mmio.reg(a),
{
    let target = IrqBits::v_blank();
    proof {
        assert(1u16 << 0u16 == 1u16) by (bit_vector);
    }
    IntrWait(rt, true, target, incoming)
}

/// Dispatch selectivity: one dispatch acknowledges exactly the sources that
/// are both pending and enabled. A source that is pending but not enabled
/// stays pending in the flags register, unacknowledged; and the handler —
/// when one is registered — is invoked once with exactly the acknowledged
/// set as its argument.
pub proof fn lemma_dispatch_selectivity(s: CoreState, j: u16)
    requires
        j < 16,
    ensures
        u16_bit(spec_dispatch(s).iflags, j) == (u16_bit(s.iflags, j) && !u16_bit(s.ie, j)),
        u16_bit(s.iflags & s.ie, j) == (u16_bit(s.iflags, j) && u16_bit(s.ie, j)),
        match s.handler {
            Some(h) => spec_dispatch(s).calls == s.calls.push(
                HandlerCall { handler: h.id, arg: s.iflags & s.ie },
            ),
            None => spec_dispatch(s).calls == s.calls,
        },
{
    let f = s.iflags;
    let e = s.ie;
    assert(u16_bit(f & !(f & e), j) == (u16_bit(f, j) && !u16_bit(e, j))
        && u16_bit(f & e, j) == (u16_bit(f, j) && u16_bit(e, j))) by (bit_vector)
        requires
            j < 16,
    ;
}

/// A wait begun with its target cleared from the occurrence record — the
/// state `clear_old_flags` arranges — cannot return on the strength of an
/// occurrence recorded before the call: with no incoming event it does not
/// return, and any return consumed at least one event.
pub proof fn lemma_wait_needs_fresh_event(s: CoreState, target: u16, events: Seq<u16>)
    requires
        s.wait & target == 0,
    ensures
        events.len() == 0 ==> spec_wait_from(s, target, events, 0).0 is None,
        spec_wait_from(s, target, events, 0).0 matches Some(n) ==> n >= 1,
{
}

/// With `clear_old_flags`, an occurrence already pending before the call
/// never satisfies the wait by itself: starting from any prior record, once
/// the target bits are cleared the wait returns only after consuming at
/// least one incoming event — and with no event it does not return at all.
pub proof fn lemma_clear_old_discards_prior_occurrences(
    s: CoreState,
    target: u16,
    events: Seq<u16>,
)
    ensures
        ({
            let s0 = CoreState { wait: s.wait & !target, ..s };
            &&& (events.len() == 0 ==> spec_wait_from(s0, target, events, 0).0 is None)
            &&& (spec_wait_from(s0, target, events, 0).0 matches Some(n) ==> n >= 1)
        }),
{
    let w = s.wait;
    assert((w & !target) & target == 0) by (bit_vector);
    lemma_wait_needs_fresh_event(CoreState { wait: s.wait & !target, ..s }, target, events);
}

/// A fresh occurrence satisfies the wait at once: when the first event fires
/// a source `b` that is enabled and targeted, and the master switch is on —
/// as the wait itself forces — the wait returns after consuming exactly that
/// one event.
pub proof fn lemma_wait_returns_on_fresh_event(
    s: CoreState,
    target: u16,
    events: Seq<u16>,
    b: u16,
)
    requires
        s.wait & target == 0,
        s.ime,
        events.len() >= 1,
        b < 16,
        u16_bit(events[0], b),
        u16_bit(s.ie, b),
        u16_bit(target, b),
    ensures
        spec_wait_from(s, target, events, 0).0 == Some(1nat),
{
    let e0 = events[0];
    let f = s.iflags;
    let en = s.ie;
    let w = s.wait;
    assert(((f | e0) & en) != 0 && ((w | ((f | e0) & en)) & target) != 0) by (bit_vector)
        requires
            b < 16,
            u16_bit(e0, b),
            u16_bit(en, b),
            u16_bit(target, b),
    ;
    let s1 = spec_raise_step(s, e0);
    assert(s1 == spec_dispatch(CoreState { iflags: f | e0, ..s }));
    assert(s1.wait & target != 0);
    assert(spec_wait_from(s1, target, events, 1).0 == Some(0nat));
}

/// Without `clear_old_flags`, an occurrence already in the record satisfies
/// the wait immediately: no event is consumed, and exactly the target bits
/// are cleared from the record.
pub proof fn lemma_wait_immediate_when_pending(s: CoreState, target: u16, events: Seq<u16>)
    requires
        s.wait & target != 0,
    ensures
        spec_wait_from(s, target, events, 0) == (
            Some(0nat),
            CoreState { wait: s.wait & !target, ..s },
        ),
{
}

/// With no handler registered, dispatch still acknowledges the pending bits
/// — the flags register and the occurrence record move exactly as they do
/// with a handler — but nothing observable happens: the invocation record is
/// left exactly as it was.
pub proof fn lemma_none_handler_acknowledges_silently(s: CoreState)
    requires
        s.handler is None,
    ensures
        spec_dispatch(s).calls == s.calls,
        spec_dispatch(s).iflags == s.iflags & !(s.iflags & s.ie),
        spec_dispatch(s).wait == s.wait | (s.iflags & s.ie),
{
}

} // verus!
