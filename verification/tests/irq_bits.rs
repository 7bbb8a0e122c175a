use gba2k::irq::IrqBits;

#[test]
fn setting_each_source_yields_its_power_of_two() {
    assert_eq!(IrqBits::new().with_vblank(true).to_u16(), 1 << 0);
    assert_eq!(IrqBits::new().with_hblank(true).to_u16(), 1 << 1);
    assert_eq!(IrqBits::new().with_vcounter(true).to_u16(), 1 << 2);
    assert_eq!(IrqBits::new().with_timer0(true).to_u16(), 1 << 3);
    assert_eq!(IrqBits::new().with_timer1(true).to_u16(), 1 << 4);
    assert_eq!(IrqBits::new().with_timer2(true).to_u16(), 1 << 5);
    assert_eq!(IrqBits::new().with_timer3(true).to_u16(), 1 << 6);
    assert_eq!(IrqBits::new().with_serial(true).to_u16(), 1 << 7);
    assert_eq!(IrqBits::new().with_dma0(true).to_u16(), 1 << 8);
    assert_eq!(IrqBits::new().with_dma1(true).to_u16(), 1 << 9);
    assert_eq!(IrqBits::new().with_dma2(true).to_u16(), 1 << 10);
    assert_eq!(IrqBits::new().with_dma3(true).to_u16(), 1 << 11);
    assert_eq!(IrqBits::new().with_keypad(true).to_u16(), 1 << 12);
    assert_eq!(IrqBits::new().with_gamepak(true).to_u16(), 1 << 13);
}

#[test]
fn union_is_the_bitwise_union() {
    let a = IrqBits::from_u16(0b0011);
    let b = IrqBits::from_u16(0b0101);
    assert_eq!(a.union(b).to_u16(), 0b0111);
    let c = IrqBits::new().with_vblank(true);
    let d = IrqBits::new().with_keypad(true);
    assert_eq!(c.union(d).to_u16(), (1 << 0) | (1 << 12));
}

#[test]
fn intersect_is_the_bitwise_intersection() {
    let a = IrqBits::from_u16(0b0110);
    let b = IrqBits::from_u16(0b0011);
    assert_eq!(a.intersect(b).to_u16(), 0b0010);
}

#[test]
fn toggle_is_the_symmetric_difference() {
    let a = IrqBits::from_u16(0b0110);
    let b = IrqBits::from_u16(0b0011);
    assert_eq!(a.toggle(b).to_u16(), 0b0101);
}

#[test]
fn complement_flips_the_whole_halfword() {
    assert_eq!(IrqBits::from_u16(0x00FF).complement().to_u16(), 0xFF00);
}

#[test]
fn u16_round_trip_is_the_identity() {
    for v in [0u16, 1, 0x0002, 0x1234, 0x3FFF, 0xFFFF] {
        assert_eq!(IrqBits::from_u16(v).to_u16(), v);
    }
}

#[test]
fn getters_see_exactly_their_bit() {
    let v = IrqBits::from_u16(1 << 5);
    assert!(v.timer2());
    assert!(!v.timer1());
    assert!(!v.timer3());
    assert!(!v.vblank());
    let w = IrqBits::from_u16(0x3FFF);
    assert!(w.vblank() && w.hblank() && w.vcounter() && w.timer0());
    assert!(w.serial() && w.dma0() && w.dma3() && w.keypad() && w.gamepak());
}

#[test]
fn clearing_a_set_bit_restores_the_empty_set() {
    let v = IrqBits::new().with_serial(true).with_serial(false);
    assert_eq!(v.to_u16(), 0);
    assert!(v.is_empty());
}

#[test]
fn named_singleton_sets_match_their_setters() {
    assert_eq!(IrqBits::v_blank().to_u16(), IrqBits::new().with_vblank(true).to_u16());
    assert_eq!(IrqBits::h_blank().to_u16(), IrqBits::new().with_hblank(true).to_u16());
    assert_eq!(IrqBits::keypad_only().to_u16(), IrqBits::new().with_keypad(true).to_u16());
}

#[test]
fn default_is_the_empty_set() {
    assert!(IrqBits::default().is_empty());
}
