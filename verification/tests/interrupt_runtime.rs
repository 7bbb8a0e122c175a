use gba2k::irq::ie_reg;
use gba2k::irq::if_reg;
use gba2k::irq::ime_reg;
use gba2k::irq::IrqBits;
use gba2k::runtime::irq_dispatch;
use gba2k::runtime::raise_irq;
use gba2k::runtime::set_rust_irq_handler;
use gba2k::runtime::Halt;
use gba2k::runtime::HandlerFn;
use gba2k::runtime::IntrWait;
use gba2k::runtime::IrqRuntime;
use gba2k::runtime::VBlankIntrWait;

fn fresh_runtime() -> IrqRuntime {
    IrqRuntime::new()
}

#[test]
fn dispatch_acknowledges_only_enabled_sources() {
    // Flags = {vblank, hblank}; Enable = {vblank} only.
    let mut rt = fresh_runtime();
    ime_reg().write(&mut rt.mmio, 1);
    ie_reg().write(&mut rt.mmio, IrqBits::v_blank().to_u16());
    if_reg().write(&mut rt.mmio, 0b11);
    set_rust_irq_handler(&mut rt, Some(HandlerFn { id: 7 }));

    let acked = irq_dispatch(&mut rt);

    // Exactly vblank acknowledged; hblank stays pending and unacknowledged.
    assert_eq!(acked.to_u16(), 0b01);
    assert_eq!(if_reg().read(&mut rt.mmio), 0b10);
    // The handler received exactly the acknowledged set.
    assert_eq!(rt.handler_calls.len(), 1);
    assert_eq!(rt.handler_calls[0].handler, 7);
    assert_eq!(rt.handler_calls[0].arg, 0b01);
    // The occurrence record picked up the acknowledged bits.
    assert_eq!(rt.intr_wait_flags.read(), 0b01);
}

#[test]
fn dispatch_with_no_handler_acknowledges_but_has_no_observable_effect() {
    let mut rt = fresh_runtime();
    ime_reg().write(&mut rt.mmio, 1);
    ie_reg().write(&mut rt.mmio, IrqBits::v_blank().to_u16());
    if_reg().write(&mut rt.mmio, 0b01);
    set_rust_irq_handler(&mut rt, None);

    let acked = irq_dispatch(&mut rt);

    assert_eq!(acked.to_u16(), 0b01);
    // Acknowledged: flags cleared, occurrence recorded.
    assert_eq!(if_reg().read(&mut rt.mmio), 0);
    assert_eq!(rt.intr_wait_flags.read(), 0b01);
    // Zero observable side effects: the invocation counter stays at 0.
    assert_eq!(rt.handler_calls.len(), 0);
}

#[test]
fn replacing_the_handler_redirects_later_dispatches() {
    let mut rt = fresh_runtime();
    ime_reg().write(&mut rt.mmio, 1);
    ie_reg().write(&mut rt.mmio, 0b1);
    if_reg().write(&mut rt.mmio, 0b1);
    set_rust_irq_handler(&mut rt, Some(HandlerFn { id: 1 }));
    irq_dispatch(&mut rt);

    set_rust_irq_handler(&mut rt, Some(HandlerFn { id: 2 }));
    if_reg().write(&mut rt.mmio, 0b1);
    irq_dispatch(&mut rt);

    assert_eq!(rt.handler_calls.len(), 2);
    assert_eq!(rt.handler_calls[0].handler, 1);
    assert_eq!(rt.handler_calls[1].handler, 2);
}

#[test]
fn raise_without_master_enable_leaves_flags_pending() {
    let mut rt = fresh_runtime();
    ie_reg().write(&mut rt.mmio, IrqBits::v_blank().to_u16());
    set_rust_irq_handler(&mut rt, Some(HandlerFn { id: 3 }));
    // Master enable is still off: the source reaches the flags register but
    // no dispatch runs.
    raise_irq(&mut rt, IrqBits::v_blank());
    assert_eq!(if_reg().read(&mut rt.mmio), 1);
    assert_eq!(rt.handler_calls.len(), 0);

    // Turning the master switch on and waking again dispatches the bit that
    // was already pending.
    ime_reg().write(&mut rt.mmio, 1);
    Halt(&mut rt, IrqBits::new());
    assert_eq!(if_reg().read(&mut rt.mmio), 0);
    assert_eq!(rt.handler_calls.len(), 1);
    assert_eq!(rt.handler_calls[0].arg, 1);
}

#[test]
fn wait_with_clear_old_ignores_an_old_occurrence() {
    let mut rt = fresh_runtime();
    ie_reg().write(&mut rt.mmio, IrqBits::keypad_only().to_u16());
    // An occurrence recorded before the call.
    rt.intr_wait_flags.write(IrqBits::keypad_only().to_u16());
    // No fresh interrupt ever arrives: the wait never returns.
    let incoming: Vec<IrqBits> = vec![];
    let r = IntrWait(&mut rt, true, IrqBits::keypad_only(), &incoming);
    assert_eq!(r, None);
}

#[test]
fn wait_with_clear_old_returns_on_a_fresh_occurrence() {
    let mut rt = fresh_runtime();
    ie_reg().write(&mut rt.mmio, IrqBits::keypad_only().to_u16());
    rt.intr_wait_flags.write(IrqBits::keypad_only().to_u16());
    let incoming = vec![IrqBits::keypad_only()];
    let r = IntrWait(&mut rt, true, IrqBits::keypad_only(), &incoming);
    // Exactly one halt was needed: the fresh occurrence satisfied the wait.
    assert_eq!(r, Some(1));
    // The matched bits were consumed from the record.
    assert_eq!(rt.intr_wait_flags.read(), 0);
    // The wait forced the master switch on and left it on.
    assert_eq!(ime_reg().read(&mut rt.mmio), 1);
}

#[test]
fn wait_without_clear_old_returns_immediately_when_already_pending() {
    let mut rt = fresh_runtime();
    ie_reg().write(&mut rt.mmio, IrqBits::keypad_only().to_u16());
    rt.intr_wait_flags.write(IrqBits::keypad_only().to_u16());
    let incoming: Vec<IrqBits> = vec![];
    let r = IntrWait(&mut rt, false, IrqBits::keypad_only(), &incoming);
    // No halt, no event: the old occurrence satisfies the wait at once.
    assert_eq!(r, Some(0));
    assert_eq!(rt.intr_wait_flags.read(), 0);
}

#[test]
fn wait_skips_events_that_miss_the_target() {
    let mut rt = fresh_runtime();
    // Both hblank and keypad may request service.
    let enabled = IrqBits::new().with_hblank(true).with_keypad(true);
    ie_reg().write(&mut rt.mmio, enabled.to_u16());
    set_rust_irq_handler(&mut rt, Some(HandlerFn { id: 9 }));
    let incoming = vec![IrqBits::h_blank(), IrqBits::h_blank(), IrqBits::keypad_only()];
    let r = IntrWait(&mut rt, true, IrqBits::keypad_only(), &incoming);
    // The two hblank wakes do not satisfy a keypad wait.
    assert_eq!(r, Some(3));
    // Every dispatch ran the handler, including the non-matching ones.
    assert_eq!(rt.handler_calls.len(), 3);
    assert_eq!(rt.handler_calls[0].arg, IrqBits::h_blank().to_u16());
    assert_eq!(rt.handler_calls[2].arg, IrqBits::keypad_only().to_u16());
    // The hblank occurrences stay recorded; only the target was consumed.
    assert_eq!(rt.intr_wait_flags.read(), IrqBits::h_blank().to_u16());
}

#[test]
fn wait_on_a_source_that_never_fires_never_returns() {
    let mut rt = fresh_runtime();
    // The keypad source is never enabled: dispatch never records it.
    ie_reg().write(&mut rt.mmio, IrqBits::h_blank().to_u16());
    let incoming = vec![IrqBits::keypad_only(), IrqBits::keypad_only()];
    let r = IntrWait(&mut rt, true, IrqBits::keypad_only(), &incoming);
    assert_eq!(r, None);
}

#[test]
fn vblank_wait_returns_on_a_fresh_vertical_blank() {
    let mut rt = fresh_runtime();
    ie_reg().write(&mut rt.mmio, IrqBits::v_blank().to_u16());
    // An old vblank occurrence must not satisfy the wait.
    rt.intr_wait_flags.write(IrqBits::v_blank().to_u16());
    let incoming = vec![IrqBits::v_blank()];
    let r = VBlankIntrWait(&mut rt, &incoming);
    assert_eq!(r, Some(1));
}

#[test]
fn new_runtime_is_quiescent() {
    let mut rt = fresh_runtime();
    assert_eq!(ie_reg().read(&mut rt.mmio), 0);
    assert_eq!(if_reg().read(&mut rt.mmio), 0);
    assert_eq!(ime_reg().read(&mut rt.mmio), 0);
    assert_eq!(rt.intr_wait_flags.read(), 0);
    assert!(rt.handler.read().is_none());
    assert_eq!(rt.handler_calls.len(), 0);
}
