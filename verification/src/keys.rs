//! Reading the key inputs.
//!
//! The hardware's key state register stores buttons low-active: a bit is 0
//! while the button is pressed and 1 while it is released. [`KeyInput`]
//! carries that raw halfword and compensates in every accessor, so callers
//! think in terms of "pressed"; [`KeysLowActive`] exposes the same halfword
//! under the raw convention.

use vstd::prelude::*;

use crate::bits::u16_bit;
use crate::bits::u16_get_bit;
use crate::bits::u16_set_bit;
use crate::bits::u16_with_bit;
use crate::gba_cell::GbaCellSafe;
use crate::mmio::Mmio;
use crate::mmio::MmioOp;
use crate::mmio::VolAddress;

verus! {

/// The key state register: updates every CPU cycle, read-only.
pub const KEYINPUT: usize = 0x0400_0130;

/// The key interrupt control register.
pub const KEYCNT: usize = 0x0400_0132;

/// The handle on the key state register; the hardware ignores stores to it.
pub fn keyinput_reg() -> (r: VolAddress<true, false>)
    ensures
        r.addr() == KEYINPUT,
{
    VolAddress::new(KEYINPUT)
}

/// The handle on the key interrupt control register.
pub fn keycnt_reg() -> (r: VolAddress<true, true>)
    ensures
        r.addr() == KEYCNT,
{
    VolAddress::new(KEYCNT)
}

/// Key state data; `true` means *pressed* in every accessor, though the
/// underlying bits store the opposite.
#[derive(Debug, Clone, Copy, PartialEq, Eq, Structural)]
pub struct KeyInput {
    bits: u16,
}

impl GbaCellSafe for KeyInput {

}

impl View for KeyInput {
    type V = u16;

    closed spec fn view(&self) -> u16 {
        self.bits
    }
}

impl KeyInput {
    /// The value with every stored bit clear; under the low-active
    /// convention that reads as every button pressed.
    pub fn new() -> (r: Self)
        ensures
            r@ == 0u16,
    {
        KeyInput { bits: 0 }
    }

    /// The key state whose raw halfword is `u`.
    pub fn from_u16(u: u16) -> (r: Self)
        ensures
            r@ == u,
    {
        KeyInput { bits: u }
    }

    /// The raw halfword, still low-active.
    pub fn to_u16(self) -> (r: u16)
        ensures
            r == self@,
    {
        self.bits
    }

    /// Whether A is pressed.
    pub fn a(self) -> (r: bool)
        ensures
            r == !u16_bit(self@, 0),
    {
        !u16_get_bit(self.bits, 0)
    }

    /// The state with A forced to pressed (`true`) or released.
    pub fn with_a(self, val: bool) -> (r: Self)
        ensures
            r@ == u16_set_bit(self@, 0, !val),
    {
        KeyInput { bits: u16_with_bit(self.bits, 0, !val) }
    }

    /// Whether B is pressed.
    pub fn b(self) -> (r: bool)
        ensures
            r == !u16_bit(self@, 1),
    {
        !u16_get_bit(self.bits, 1)
    }

    /// The state with B forced to pressed (`true`) or released.
    pub fn with_b(self, val: bool) -> (r: Self)
        ensures
            r@ == u16_set_bit(self@, 1, !val),
    {
        KeyInput { bits: u16_with_bit(self.bits, 1, !val) }
    }

    /// Whether Select is pressed.
    pub fn select(self) -> (r: bool)
        ensures
            r == !u16_bit(self@, 2),
    {
        !u16_get_bit(self.bits, 2)
    }

    /// The state with Select forced to pressed (`true`) or released.
    pub fn with_select(self, val: bool) -> (r: Self)
        ensures
            r@ == u16_set_bit(self@, 2, !val),
    {
        KeyInput { bits: u16_with_bit(self.bits, 2, !val) }
    }

    /// Whether Start is pressed.
    pub fn start(self) -> (r: bool)
        ensures
            r == !u16_bit(self@, 3),
    {
        !u16_get_bit(self.bits, 3)
    }

    /// The state with Start forced to pressed (`true`) or released.
    pub fn with_start(self, val: bool) -> (r: Self)
        ensures
            r@ == u16_set_bit(self@, 3, !val),
    {
        KeyInput { bits: u16_with_bit(self.bits, 3, !val) }
    }

    /// Whether Right is pressed.
    pub fn right(self) -> (r: bool)
        ensures
            r == !u16_bit(self@, 4),
    {
        !u16_get_bit(self.bits, 4)
    }

    /// The state with Right forced to pressed (`true`) or released.
    pub fn with_right(self, val: bool) -> (r: Self)
        ensures
            r@ == u16_set_bit(self@, 4, !val),
    {
        KeyInput { bits: u16_with_bit(self.bits, 4, !val) }
    }

    /// Whether Left is pressed.
    pub fn left(self) -> (r: bool)
        ensures
            r == !u16_bit(self@, 5),
    {
        !u16_get_bit(self.bits, 5)
    }

    /// The state with Left forced to pressed (`true`) or released.
    pub fn with_left(self, val: bool) -> (r: Self)
        ensures
            r@ == u16_set_bit(self@, 5, !val),
    {
        KeyInput { bits: u16_with_bit(self.bits, 5, !val) }
    }

    /// Whether Up is pressed.
    pub fn up(self) -> (r: bool)
        ensures
            r == !u16_bit(self@, 6),
    {
        !u16_get_bit(self.bits, 6)
    }

    /// The state with Up forced to pressed (`true`) or released.
    pub fn with_up(self, val: bool) -> (r: Self)
        ensures
            r@ == u16_set_bit(self@, 6, !val),
    {
        KeyInput { bits: u16_with_bit(self.bits, 6, !val) }
    }

    /// Whether Down is pressed.
    pub fn down(self) -> (r: bool)
        ensures
            r == !u16_bit(self@, 7),
    {
        !u16_get_bit(self.bits, 7)
    }

    /// The state with Down forced to pressed (`true`) or released.
    pub fn with_down(self, val: bool) -> (r: Self)
        ensures
            r@ == u16_set_bit(self@, 7, !val),
    {
        KeyInput { bits: u16_with_bit(self.bits, 7, !val) }
    }

    /// Whether the R shoulder is pressed.
    pub fn r(self) -> (r: bool)
        ensures
            r == !u16_bit(self@, 8),
    {
        !u16_get_bit(self.bits, 8)
    }

    /// The state with the R shoulder forced to pressed (`true`) or released.
    pub fn with_r(self, val: bool) -> (r: Self)
        ensures
            r@ == u16_set_bit(self@, 8, !val),
    {
        KeyInput { bits: u16_with_bit(self.bits, 8, !val) }
    }

    /// Whether the L shoulder is pressed.
    pub fn l(self) -> (r: bool)
        ensures
            r == !u16_bit(self@, 9),
    {
        !u16_get_bit(self.bits, 9)
    }

    /// The state with the L shoulder forced to pressed (`true`) or released.
    pub fn with_l(self, val: bool) -> (r: Self)
        ensures
            r@ == u16_set_bit(self@, 9, !val),
    {
        KeyInput { bits: u16_with_bit(self.bits, 9, !val) }
    }

    /// Determines what keys have changed since a previous key state: a set
    /// bit in the result is a button whose state differs between the two.
    pub fn changes_since(self, previous: KeyInput) -> (r: KeyChanges)
        ensures
            r@ == (self@ ^ previous@),
    {
        KeyChanges { bits: self.bits ^ previous.bits }
    }
}

/// A change in the key state data: which buttons changed, without the
/// direction of the change — for that, the previous state is also needed.
#[derive(Debug, Clone, Copy, PartialEq, Eq, Structural)]
pub struct KeyChanges {
    bits: u16,
}

impl View for KeyChanges {
    type V = u16;

    closed spec fn view(&self) -> u16 {
        self.bits
    }
}

impl KeyChanges {
    /// No change on any button.
    pub fn new() -> (r: Self)
        ensures
            r@ == 0u16,
    {
        KeyChanges { bits: 0 }
    }

    /// The raw halfword of change bits.
    pub fn to_u16(self) -> (r: u16)
        ensures
            r == self@,
    {
        self.bits
    }

    /// Whether A changed.
    pub fn a(self) -> (r: bool)
        ensures
            r == u16_bit(self@, 0),
    {
        u16_get_bit(self.bits, 0)
    }

    /// Whether B changed.
    pub fn b(self) -> (r: bool)
        ensures
            r == u16_bit(self@, 1),
    {
        u16_get_bit(self.bits, 1)
    }

    /// Whether Select changed.
    pub fn select(self) -> (r: bool)
        ensures
            r == u16_bit(self@, 2),
    {
        u16_get_bit(self.bits, 2)
    }

    /// Whether Start changed.
    pub fn start(self) -> (r: bool)
        ensures
            r == u16_bit(self@, 3),
    {
        u16_get_bit(self.bits, 3)
    }

    /// Whether Right changed.
    pub fn right(self) -> (r: bool)
        ensures
            r == u16_bit(self@, 4),
    {
        u16_get_bit(self.bits, 4)
    }

    /// Whether Left changed.
    pub fn left(self) -> (r: bool)
        ensures
            r == u16_bit(self@, 5),
    {
        u16_get_bit(self.bits, 5)
    }

    /// Whether Up changed.
    pub fn up(self) -> (r: bool)
        ensures
            r == u16_bit(self@, 6),
    {
        u16_get_bit(self.bits, 6)
    }

    /// Whether Down changed.
    pub fn down(self) -> (r: bool)
        ensures
            r == u16_bit(self@, 7),
    {
        u16_get_bit(self.bits, 7)
    }

    /// Whether the R shoulder changed.
    pub fn r(self) -> (r: bool)
        ensures
            r == u16_bit(self@, 8),
    {
        u16_get_bit(self.bits, 8)
    }

    /// Whether the L shoulder changed.
    pub fn l(self) -> (r: bool)
        ensures
            r == u16_bit(self@, 9),
    {
        u16_get_bit(self.bits, 9)
    }
}

/// Key state under the raw, low-active convention: a set bit is a *released*
/// button.
#[derive(Debug, Clone, Copy, PartialEq, Eq, Structural)]
pub struct KeysLowActive {
    bits: u16,
}

impl View for KeysLowActive {
    type V = u16;

    closed spec fn view(&self) -> u16 {
        self.bits
    }
}

impl KeysLowActive {
    /// The value with every stored bit clear.
    pub fn new() -> (r: Self)
        ensures
            r@ == 0u16,
    {
        KeysLowActive { bits: 0 }
    }

    /// The raw key state whose halfword is `u`.
    pub fn from_u16(u: u16) -> (r: Self)
        ensures
            r@ == u,
    {
        KeysLowActive { bits: u }
    }

    /// The raw halfword.
    pub fn to_u16(self) -> (r: u16)
        ensures
            r == self@,
    {
        self.bits
    }

    /// The same state under the pressed-is-`true` convention.
    pub fn to_key_input(self) -> (r: KeyInput)
        ensures
            r@ == self@,
    {
        KeyInput::from_u16(self.bits)
    }

    /// Whether A is released.
    pub fn a_released(self) -> (r: bool)
        ensures
            r == u16_bit(self@, 0),
    {
        u16_get_bit(self.bits, 0)
    }

    /// The state with A's released bit forced to `val`.
    pub fn with_a_released(self, val: bool) -> (r: Self)
        ensures
            r@ == u16_set_bit(self@, 0, val),
    {
        KeysLowActive { bits: u16_with_bit(self.bits, 0, val) }
    }

    /// Whether B is released.
    pub fn b_released(self) -> (r: bool)
        ensures
            r == u16_bit(self@, 1),
    {
        u16_get_bit(self.bits, 1)
    }

    /// The state with B's released bit forced to `val`.
    pub fn with_b_released(self, val: bool) -> (r: Self)
        ensures
            r@ == u16_set_bit(self@, 1, val),
    {
        KeysLowActive { bits: u16_with_bit(self.bits, 1, val) }
    }

    /// Whether Select is released.
    pub fn select_released(self) -> (r: bool)
        ensures
            r == u16_bit(self@, 2),
    {
        u16_get_bit(self.bits, 2)
    }

    /// The state with Select's released bit forced to `val`.
    pub fn with_select_released(self, val: bool) -> (r: Self)
        ensures
            r@ == u16_set_bit(self@, 2, val),
    {
        KeysLowActive { bits: u16_with_bit(self.bits, 2, val) }
    }

    /// Whether Start is released.
    pub fn start_released(self) -> (r: bool)
        ensures
            r == u16_bit(self@, 3),
    {
        u16_get_bit(self.bits, 3)
    }

    /// The state with Start's released bit forced to `val`.
    pub fn with_start_released(self, val: bool) -> (r: Self)
        ensures
            r@ == u16_set_bit(self@, 3, val),
    {
        KeysLowActive { bits: u16_with_bit(self.bits, 3, val) }
    }

    /// Whether Right is released.
    pub fn right_released(self) -> (r: bool)
        ensures
            r == u16_bit(self@, 4),
    {
        u16_get_bit(self.bits, 4)
    }

    /// The state with Right's released bit forced to `val`.
    pub fn with_right_released(self, val: bool) -> (r: Self)
        ensures
            r@ == u16_set_bit(self@, 4, val),
    {
        KeysLowActive { bits: u16_with_bit(self.bits, 4, val) }
    }

    /// Whether Left is released.
    pub fn left_released(self) -> (r: bool)
        ensures
            r == u16_bit(self@, 5),
    {
        u16_get_bit(self.bits, 5)
    }

    /// The state with Left's released bit forced to `val`.
    pub fn with_left_released(self, val: bool) -> (r: Self)
        ensures
            r@ == u16_set_bit(self@, 5, val),
    {
        KeysLowActive { bits: u16_with_bit(self.bits, 5, val) }
    }

    /// Whether Up is released.
    pub fn up_released(self) -> (r: bool)
        ensures
            r == u16_bit(self@, 6),
    {
        u16_get_bit(self.bits, 6)
    }

    /// The state with Up's released bit forced to `val`.
    pub fn with_up_released(self, val: bool) -> (r: Self)
        ensures
            r@ == u16_set_bit(self@, 6, val),
    {
        KeysLowActive { bits: u16_with_bit(self.bits, 6, val) }
    }

    /// Whether Down is released.
    pub fn down_released(self) -> (r: bool)
        ensures
            r == u16_bit(self@, 7),
    {
        u16_get_bit(self.bits, 7)
    }

    /// The state with Down's released bit forced to `val`.
    pub fn with_down_released(self, val: bool) -> (r: Self)
        ensures
            r@ == u16_set_bit(self@, 7, val),
    {
        KeysLowActive { bits: u16_with_bit(self.bits, 7, val) }
    }

    /// Whether the R shoulder is released.
    pub fn r_released(self) -> (r: bool)
        ensures
            r == u16_bit(self@, 8),
    {
        u16_get_bit(self.bits, 8)
    }

    /// The state with the R shoulder's released bit forced to `val`.
    pub fn with_r_released(self, val: bool) -> (r: Self)
        ensures
            r@ == u16_set_bit(self@, 8, val),
    {
        KeysLowActive { bits: u16_with_bit(self.bits, 8, val) }
    }

    /// Whether the L shoulder is released.
    pub fn l_released(self) -> (r: bool)
        ensures
            r == u16_bit(self@, 9),
    {
        u16_get_bit(self.bits, 9)
    }

    /// The state with the L shoulder's released bit forced to `val`.
    pub fn with_l_released(self, val: bool) -> (r: Self)
        ensures
            r@ == u16_set_bit(self@, 9, val),
    {
        KeysLowActive { bits: u16_with_bit(self.bits, 9, val) }
    }
}

/// Reads the hardware key state: one load of the key state register.
pub fn get_keys(mmio: &mut Mmio) -> (r: KeyInput)
    ensures
        r@ == old(mmio).reg(KEYINPUT),
        forall|a: usize| final(mmio).reg(a) == old(mmio).reg(a),
        final(mmio).transactions() == old(mmio).transactions().push(
            MmioOp::Load { address: KEYINPUT, value: r@ },
        ),
{
    KeyInput::from_u16(keyinput_reg().read(mmio))
}

/// Configures when the keypad should send an interrupt: the selected
/// buttons, whether the interrupt is enabled, and whether *all* selected
/// buttons must be down at once (`all_required`) or any one suffices.
#[derive(Debug, Clone, Copy, PartialEq, Eq, Structural)]
pub struct KeyControl {
    bits: u16,
}

impl View for KeyControl {
    type V = u16;

    closed spec fn view(&self) -> u16 {
        self.bits
    }
}

impl KeyControl {
    /// No button selected, interrupt disabled.
    pub fn new() -> (r: Self)
        ensures
            r@ == 0u16,
    {
        KeyControl { bits: 0 }
    }

    /// The configuration whose raw halfword is `u`.
    pub fn from_u16(u: u16) -> (r: Self)
        ensures
            r@ == u,
    {
        KeyControl { bits: u }
    }

    /// The raw halfword.
    pub fn to_u16(self) -> (r: u16)
        ensures
            r == self@,
    {
        self.bits
    }

    /// Whether A is among the selected buttons.
    pub fn a(self) -> (r: bool)
        ensures
            r == u16_bit(self@, 0),
    {
        u16_get_bit(self.bits, 0)
    }

    /// The configuration with A selected or deselected.
    pub fn with_a(self, val: bool) -> (r: Self)
        ensures
            r@ == u16_set_bit(self@, 0, val),
    {
        KeyControl { bits: u16_with_bit(self.bits, 0, val) }
    }

    /// Whether B is among the selected buttons.
    pub fn b(self) -> (r: bool)
        ensures
            r == u16_bit(self@, 1),
    {
        u16_get_bit(self.bits, 1)
    }

    /// The configuration with B selected or deselected.
    pub fn with_b(self, val: bool) -> (r: Self)
        ensures
            r@ == u16_set_bit(self@, 1, val),
    {
        KeyControl { bits: u16_with_bit(self.bits, 1, val) }
    }

    /// Whether Select is among the selected buttons.
    pub fn select(self) -> (r: bool)
        ensures
            r == u16_bit(self@, 2),
    {
        u16_get_bit(self.bits, 2)
    }

    /// The configuration with Select selected or deselected.
    pub fn with_select(self, val: bool) -> (r: Self)
        ensures
            r@ == u16_set_bit(self@, 2, val),
    {
        KeyControl { bits: u16_with_bit(self.bits, 2, val) }
    }

    /// Whether Start is among the selected buttons.
    pub fn start(self) -> (r: bool)
        ensures
            r == u16_bit(self@, 3),
    {
        u16_get_bit(self.bits, 3)
    }

    /// The configuration with Start selected or deselected.
    pub fn with_start(self, val: bool) -> (r: Self)
        ensures
            r@ == u16_set_bit(self@, 3, val),
    {
        KeyControl { bits: u16_with_bit(self.bits, 3, val) }
    }

    /// Whether Right is among the selected buttons.
    pub fn right(self) -> (r: bool)
        ensures
            r == u16_bit(self@, 4),
    {
        u16_get_bit(self.bits, 4)
    }

    /// The configuration with Right selected or deselected.
    pub fn with_right(self, val: bool) -> (r: Self)
        ensures
            r@ == u16_set_bit(self@, 4, val),
    {
        KeyControl { bits: u16_with_bit(self.bits, 4, val) }
    }

    /// Whether Left is among the selected buttons.
    pub fn left(self) -> (r: bool)
        ensures
            r == u16_bit(self@, 5),
    {
        u16_get_bit(self.bits, 5)
    }

    /// The configuration with Left selected or deselected.
    pub fn with_left(self, val: bool) -> (r: Self)
        ensures
            r@ == u16_set_bit(self@, 5, val),
    {
        KeyControl { bits: u16_with_bit(self.bits, 5, val) }
    }

    /// Whether Up is among the selected buttons.
    pub fn up(self) -> (r: bool)
        ensures
            r == u16_bit(self@, 6),
    {
        u16_get_bit(self.bits, 6)
    }

    /// The configuration with Up selected or deselected.
    pub fn with_up(self, val: bool) -> (r: Self)
        ensures
            r@ == u16_set_bit(self@, 6, val),
    {
        KeyControl { bits: u16_with_bit(self.bits, 6, val) }
    }

    /// Whether Down is among the selected buttons.
    pub fn down(self) -> (r: bool)
        ensures
            r == u16_bit(self@, 7),
    {
        u16_get_bit(self.bits, 7)
    }

    /// The configuration with Down selected or deselected.
    pub fn with_down(self, val: bool) -> (r: Self)
        ensures
            r@ == u16_set_bit(self@, 7, val),
    {
        KeyControl { bits: u16_with_bit(self.bits, 7, val) }
    }

    /// Whether the R shoulder is among the selected buttons.
    pub fn r(self) -> (r: bool)
        ensures
            r == u16_bit(self@, 8),
    {
        u16_get_bit(self.bits, 8)
    }

    /// The configuration with the R shoulder selected or deselected.
    pub fn with_r(self, val: bool) -> (r: Self)
        ensures
            r@ == u16_set_bit(self@, 8, val),
    {
        KeyControl { bits: u16_with_bit(self.bits, 8, val) }
    }

    /// Whether the L shoulder is among the selected buttons.
    pub fn l(self) -> (r: bool)
        ensures
            r == u16_bit(self@, 9),
    {
        u16_get_bit(self.bits, 9)
    }

    /// The configuration with the L shoulder selected or deselected.
    pub fn with_l(self, val: bool) -> (r: Self)
        ensures
            r@ == u16_set_bit(self@, 9, val),
    {
        KeyControl { bits: u16_with_bit(self.bits, 9, val) }
    }

    /// Whether the keypad interrupt is enabled.
    pub fn irq_enable(self) -> (r: bool)
        ensures
            r == u16_bit(self@, 14),
    {
        u16_get_bit(self.bits, 14)
    }

    /// The configuration with the keypad interrupt enabled or disabled.
    pub fn with_irq_enable(self, val: bool) -> (r: Self)
        ensures
            r@ == u16_set_bit(self@, 14, val),
    {
        KeyControl { bits: u16_with_bit(self.bits, 14, val) }
    }

    /// Whether all selected buttons must be down at once.
    pub fn all_required(self) -> (r: bool)
        ensures
            r == u16_bit(self@, 15),
    {
        u16_get_bit(self.bits, 15)
    }

    /// The configuration with the all-buttons requirement on or off.
    pub fn with_all_required(self, val: bool) -> (r: Self)
        ensures
            r@ == u16_set_bit(self@, 15, val),
    {
        KeyControl { bits: u16_with_bit(self.bits, 15, val) }
    }
}


impl Default for KeyInput {
    /// The all-clear halfword: every button reads as pressed.
    fn default() -> (r: Self)
        ensures
            r@ == 0u16,
    {
        KeyInput::new()
    }
}

impl Default for KeyChanges {
    /// No change on any button.
    fn default() -> (r: Self)
        ensures
            r@ == 0u16,
    {
        KeyChanges::new()
    }
}

impl Default for KeysLowActive {
    /// The all-clear halfword.
    fn default() -> (r: Self)
        ensures
            r@ == 0u16,
    {
        KeysLowActive::new()
    }
}

impl Default for KeyControl {
    /// No button selected, interrupt disabled.
    fn default() -> (r: Self)
        ensures
            r@ == 0u16,
    {
        KeyControl::new()
    }
}

} // verus!
