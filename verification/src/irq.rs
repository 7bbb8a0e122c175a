//! The interrupt register model: the in-memory bit-set over the hardware's
//! interrupt sources, and the three interrupt control registers.
//!
//! An [`IrqBits`] value is pure data — combining or testing bits has no
//! hardware effect until the value is written through a register handle. The
//! hardware knows fourteen sources; the remaining two bits of the halfword
//! are reserved and pass through untouched.

use vstd::prelude::*;

use crate::bits::u16_bit;
use crate::bits::u16_get_bit;
use crate::bits::u16_set_bit;
use crate::bits::u16_with_bit;
use crate::bits::lemma_u16_or_bits;
use crate::bits::lemma_u16_and_bits;
use crate::bits::lemma_u16_single_bit;
use crate::mmio::VolAddress;
use crate::mmio::valid_mmio_address;

verus! {

/// "Interrupts Enabled": the mask of sources allowed to request service.
pub const IE: usize = 0x0400_0200;

/// "Interrupts Flagged": the sources currently pending service.
///
/// Normally only the dispatch runtime clears bits here.
pub const IF: usize = 0x0400_0202;

/// "Interrupt Master Enable": the global on/off switch; bit zero is the
/// switch, the rest of the halfword is reserved.
pub const IME: usize = 0x0400_0208;

/// The bit index of each interrupt source within the halfword.
pub const VBLANK_BIT: u16 = 0;

/// The bit index of the horizontal-blank source.
pub const HBLANK_BIT: u16 = 1;

/// The bit index of the scanline-match source.
pub const VCOUNTER_BIT: u16 = 2;

/// The bit index of the timer 0 overflow source.
pub const TIMER0_BIT: u16 = 3;

/// The bit index of the timer 1 overflow source.
pub const TIMER1_BIT: u16 = 4;

/// The bit index of the timer 2 overflow source.
pub const TIMER2_BIT: u16 = 5;

/// The bit index of the timer 3 overflow source.
pub const TIMER3_BIT: u16 = 6;

/// The bit index of the serial port source.
pub const SERIAL_BIT: u16 = 7;

/// The bit index of the DMA channel 0 source.
pub const DMA0_BIT: u16 = 8;

/// The bit index of the DMA channel 1 source.
pub const DMA1_BIT: u16 = 9;

/// The bit index of the DMA channel 2 source.
pub const DMA2_BIT: u16 = 10;

/// The bit index of the DMA channel 3 source.
pub const DMA3_BIT: u16 = 11;

/// The bit index of the keypad source.
pub const KEYPAD_BIT: u16 = 12;

/// The bit index of the external cartridge source.
pub const GAMEPAK_BIT: u16 = 13;

/// The handle on the Enable mask register.
pub fn ie_reg() -> (r: VolAddress<true, true>)
    ensures
        r.addr() == IE,
{
    VolAddress::new(IE)
}

/// The handle on the pending-flags register.
pub fn if_reg() -> (r: VolAddress<true, true>)
    ensures
        r.addr() == IF,
{
    VolAddress::new(IF)
}

/// The handle on the master-enable register.
pub fn ime_reg() -> (r: VolAddress<true, true>)
    ensures
        r.addr() == IME,
{
    VolAddress::new(IME)
}

/// A bit set where each bit is a particular interrupt source.
#[derive(Debug, Clone, Copy, PartialEq, Eq, Structural)]
pub struct IrqBits {
    bits: u16,
}

impl View for IrqBits {
    type V = u16;

    closed spec fn view(&self) -> u16 {
        self.bits
    }
}

impl IrqBits {
    /// The empty set: no source selected.
    pub fn new() -> (r: Self)
        ensures
            r@ == 0u16,
    {
        IrqBits { bits: 0 }
    }

    /// The set whose underlying halfword is `u`.
    pub fn from_u16(u: u16) -> (r: Self)
        ensures
            r@ == u,
    {
        IrqBits { bits: u }
    }

    /// The underlying halfword.
    pub fn to_u16(self) -> (r: u16)
        ensures
            r == self@,
    {
        self.bits
    }

    /// Whether the set is empty.
    pub fn is_empty(self) -> (r: bool)
        ensures
            r == (self@ == 0u16),
    {
        self.bits == 0
    }

    /// The union of the two sets.
    pub fn union(self, rhs: Self) -> (r: Self)
        ensures
            r@ == (self@ | rhs@),
    {
        IrqBits { bits: self.bits | rhs.bits }
    }

    /// The intersection of the two sets.
    pub fn intersect(self, rhs: Self) -> (r: Self)
        ensures
            r@ == (self@ & rhs@),
    {
        IrqBits { bits: self.bits & rhs.bits }
    }

    /// The symmetric difference of the two sets.
    pub fn toggle(self, rhs: Self) -> (r: Self)
        ensures
            r@ == (self@ ^ rhs@),
    {
        IrqBits { bits: self.bits ^ rhs.bits }
    }

    /// The complement of the set over the whole halfword.
    pub fn complement(self) -> (r: Self)
        ensures
            r@ == !self@,
    {
        IrqBits { bits: !self.bits }
    }

    /// Whether the vertical-blank source is in the set.
    pub fn vblank(self) -> (r: bool)
        ensures
            r == u16_bit(self@, VBLANK_BIT),
    {
        u16_get_bit(self.bits, VBLANK_BIT)
    }

    /// The set with the vertical-blank source included or removed.
    pub fn with_vblank(self, val: bool) -> (r: Self)
        ensures
            r@ == u16_set_bit(self@, VBLANK_BIT, val),
    {
        IrqBits { bits: u16_with_bit(self.bits, VBLANK_BIT, val) }
    }

    /// Whether the horizontal-blank source is in the set.
    pub fn hblank(self) -> (r: bool)
        ensures
            r == u16_bit(self@, HBLANK_BIT),
    {
        u16_get_bit(self.bits, HBLANK_BIT)
    }

    /// The set with the horizontal-blank source included or removed.
    pub fn with_hblank(self, val: bool) -> (r: Self)
        ensures
            r@ == u16_set_bit(self@, HBLANK_BIT, val),
    {
        IrqBits { bits: u16_with_bit(self.bits, HBLANK_BIT, val) }
    }

    /// Whether the scanline-match source is in the set.
    pub fn vcounter(self) -> (r: bool)
        ensures
            r == u16_bit(self@, VCOUNTER_BIT),
    {
        u16_get_bit(self.bits, VCOUNTER_BIT)
    }

    /// The set with the scanline-match source included or removed.
    pub fn with_vcounter(self, val: bool) -> (r: Self)
        ensures
            r@ == u16_set_bit(self@, VCOUNTER_BIT, val),
    {
        IrqBits { bits: u16_with_bit(self.bits, VCOUNTER_BIT, val) }
    }

    /// Whether the timer 0 source is in the set.
    pub fn timer0(self) -> (r: bool)
        ensures
            r == u16_bit(self@, TIMER0_BIT),
    {
        u16_get_bit(self.bits, TIMER0_BIT)
    }

    /// The set with the timer 0 source included or removed.
    pub fn with_timer0(self, val: bool) -> (r: Self)
        ensures
            r@ == u16_set_bit(self@, TIMER0_BIT, val),
    {
        IrqBits { bits: u16_with_bit(self.bits, TIMER0_BIT, val) }
    }

    /// Whether the timer 1 source is in the set.
    pub fn timer1(self) -> (r: bool)
        ensures
            r == u16_bit(self@, TIMER1_BIT),
    {
        u16_get_bit(self.bits, TIMER1_BIT)
    }

    /// The set with the timer 1 source included or removed.
    pub fn with_timer1(self, val: bool) -> (r: Self)
        ensures
            r@ == u16_set_bit(self@, TIMER1_BIT, val),
    {
        IrqBits { bits: u16_with_bit(self.bits, TIMER1_BIT, val) }
    }

    /// Whether the timer 2 source is in the set.
    pub fn timer2(self) -> (r: bool)
        ensures
            r == u16_bit(self@, TIMER2_BIT),
    {
        u16_get_bit(self.bits, TIMER2_BIT)
    }

    /// The set with the timer 2 source included or removed.
    pub fn with_timer2(self, val: bool) -> (r: Self)
        ensures
            r@ == u16_set_bit(self@, TIMER2_BIT, val),
    {
        IrqBits { bits: u16_with_bit(self.bits, TIMER2_BIT, val) }
    }

    /// Whether the timer 3 source is in the set.
    pub fn timer3(self) -> (r: bool)
        ensures
            r == u16_bit(self@, TIMER3_BIT),
    {
        u16_get_bit(self.bits, TIMER3_BIT)
    }

    /// The set with the timer 3 source included or removed.
    pub fn with_timer3(self, val: bool) -> (r: Self)
        ensures
            r@ == u16_set_bit(self@, TIMER3_BIT, val),
    {
        IrqBits { bits: u16_with_bit(self.bits, TIMER3_BIT, val) }
    }

    /// Whether the serial source is in the set.
    pub fn serial(self) -> (r: bool)
        ensures
            r == u16_bit(self@, SERIAL_BIT),
    {
        u16_get_bit(self.bits, SERIAL_BIT)
    }

    /// The set with the serial source included or removed.
    pub fn with_serial(self, val: bool) -> (r: Self)
        ensures
            r@ == u16_set_bit(self@, SERIAL_BIT, val),
    {
        IrqBits { bits: u16_with_bit(self.bits, SERIAL_BIT, val) }
    }

    /// Whether the DMA 0 source is in the set.
    pub fn dma0(self) -> (r: bool)
        ensures
            r == u16_bit(self@, DMA0_BIT),
    {
        u16_get_bit(self.bits, DMA0_BIT)
    }

    /// The set with the DMA 0 source included or removed.
    pub fn with_dma0(self, val: bool) -> (r: Self)
        ensures
            r@ == u16_set_bit(self@, DMA0_BIT, val),
    {
        IrqBits { bits: u16_with_bit(self.bits, DMA0_BIT, val) }
    }

    /// Whether the DMA 1 source is in the set.
    pub fn dma1(self) -> (r: bool)
        ensures
            r == u16_bit(self@, DMA1_BIT),
    {
        u16_get_bit(self.bits, DMA1_BIT)
    }

    /// The set with the DMA 1 source included or removed.
    pub fn with_dma1(self, val: bool) -> (r: Self)
        ensures
            r@ == u16_set_bit(self@, DMA1_BIT, val),
    {
        IrqBits { bits: u16_with_bit(self.bits, DMA1_BIT, val) }
    }

    /// Whether the DMA 2 source is in the set.
    pub fn dma2(self) -> (r: bool)
        ensures
            r == u16_bit(self@, DMA2_BIT),
    {
        u16_get_bit(self.bits, DMA2_BIT)
    }

    /// The set with the DMA 2 source included or removed.
    pub fn with_dma2(self, val: bool) -> (r: Self)
        ensures
            r@ == u16_set_bit(self@, DMA2_BIT, val),
    {
        IrqBits { bits: u16_with_bit(self.bits, DMA2_BIT, val) }
    }

    /// Whether the DMA 3 source is in the set.
    pub fn dma3(self) -> (r: bool)
        ensures
            r == u16_bit(self@, DMA3_BIT),
    {
        u16_get_bit(self.bits, DMA3_BIT)
    }

    /// The set with the DMA 3 source included or removed.
    pub fn with_dma3(self, val: bool) -> (r: Self)
        ensures
            r@ == u16_set_bit(self@, DMA3_BIT, val),
    {
        IrqBits { bits: u16_with_bit(self.bits, DMA3_BIT, val) }
    }

    /// Whether the keypad source is in the set.
    pub fn keypad(self) -> (r: bool)
        ensures
            r == u16_bit(self@, KEYPAD_BIT),
    {
        u16_get_bit(self.bits, KEYPAD_BIT)
    }

    /// The set with the keypad source included or removed.
    pub fn with_keypad(self, val: bool) -> (r: Self)
        ensures
            r@ == u16_set_bit(self@, KEYPAD_BIT, val),
    {
        IrqBits { bits: u16_with_bit(self.bits, KEYPAD_BIT, val) }
    }

    /// Whether the external cartridge source is in the set.
    pub fn gamepak(self) -> (r: bool)
        ensures
            r == u16_bit(self@, GAMEPAK_BIT),
    {
        u16_get_bit(self.bits, GAMEPAK_BIT)
    }

    /// The set with the external cartridge source included or removed.
    pub fn with_gamepak(self, val: bool) -> (r: Self)
        ensures
            r@ == u16_set_bit(self@, GAMEPAK_BIT, val),
    {
        IrqBits { bits: u16_with_bit(self.bits, GAMEPAK_BIT, val) }
    }

    /// The set holding only the vertical-blank source.
    pub fn v_blank() -> (r: Self)
        ensures
            r@ == u16_set_bit(0u16, VBLANK_BIT, true),
            r@ == 1u16 << VBLANK_BIT,
    {
        proof {
            lemma_u16_single_bit(VBLANK_BIT);
        }
        IrqBits::new().with_vblank(true)
    }

    /// The set holding only the horizontal-blank source.
    pub fn h_blank() -> (r: Self)
        ensures
            r@ == u16_set_bit(0u16, HBLANK_BIT, true),
            r@ == 1u16 << HBLANK_BIT,
    {
        proof {
            lemma_u16_single_bit(HBLANK_BIT);
        }
        IrqBits::new().with_hblank(true)
    }

    /// The set holding only the keypad source.
    pub fn keypad_only() -> (r: Self)
        ensures
            r@ == u16_set_bit(0u16, KEYPAD_BIT, true),
            r@ == 1u16 << KEYPAD_BIT,
    {
        proof {
            lemma_u16_single_bit(KEYPAD_BIT);
        }
        IrqBits::new().with_keypad(true)
    }
}

/// Including one source in the empty set yields exactly the halfword
/// `1 << i`: each source's numeric weight is its single bit.
pub proof fn lemma_single_source_value(i: u16)
    requires
        i < 16,
    ensures
        u16_set_bit(0u16, i, true) == (1u16 << i),
        forall|j: u16| j < 16 ==> (u16_bit(u16_set_bit(0u16, i, true), j) == (j == i)),
{
    lemma_u16_single_bit(i);
    assert forall|j: u16| j < 16 implies u16_bit(u16_set_bit(0u16, i, true), j) == (j == i) by {
        crate::bits::lemma_u16_set_bit(0u16, i, true, j);
        lemma_u16_single_bit(i);
    }
}

/// The union of two source sets holds a source exactly when either operand
/// does.
pub proof fn lemma_union_is_bitwise_or(a: IrqBits, b: IrqBits, j: u16)
    requires
        j < 16,
    ensures
        u16_bit(a@ | b@, j) == (u16_bit(a@, j) || u16_bit(b@, j)),
{
    lemma_u16_or_bits(a@, b@, j);
}

/// The intersection of two source sets holds a source exactly when both
/// operands do.
pub proof fn lemma_intersect_is_bitwise_and(a: IrqBits, b: IrqBits, j: u16)
    requires
        j < 16,
    ensures
        u16_bit(a@ & b@, j) == (u16_bit(a@, j) && u16_bit(b@, j)),
{
    lemma_u16_and_bits(a@, b@, j);
}


impl Default for IrqBits {
    /// The empty set.
    fn default() -> (r: Self)
        ensures
            r@ == 0u16,
    {
        IrqBits::new()
    }
}

} // verus!
