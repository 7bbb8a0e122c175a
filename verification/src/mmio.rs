//! The volatile register access model.
//!
//! Hardware registers are fixed, documented memory addresses; every read and
//! write of one is a real hardware transaction that must happen exactly once
//! per call, never combined or elided. The model makes that auditable: an
//! [`Mmio`] value stands for the machine's register space, and each access
//! appends one [`MmioOp`] to a ghost transaction log, so a contract can state
//! not only what a register holds but exactly which loads and stores a
//! protocol step performed, and in what order.
//!
//! A [`VolAddress`] is a typed handle on one register. Its read and write
//! capabilities are the const parameters `R` and `W`: an access outside the
//! handle's capability is rejected when the caller is verified, mirroring the
//! original discipline where such an access does not compile. Constructing a
//! handle carries the proof obligation that the address is a documented
//! hardware offset, fixed at construction and never recomputed.

use std::collections::HashMap;

use vstd::prelude::*;

verus! {

/// The lowest address of the memory-mapped I/O register block.
pub const IO_BASE: usize = 0x0400_0000;

/// One past the highest address of the memory-mapped I/O register block.
pub const IO_END: usize = 0x0400_0400;

/// The lowest address of the palette RAM block.
pub const PALRAM_BASE: usize = 0x0500_0000;

/// One past the highest address of the palette RAM block.
pub const PALRAM_END: usize = 0x0500_0400;

/// The lowest address of the video RAM block.
pub const VRAM_BASE: usize = 0x0600_0000;

/// One past the highest address of the video RAM block.
pub const VRAM_END: usize = 0x0601_8000;

/// True when `a` is a halfword-aligned address inside one of the modelled
/// hardware regions: the I/O registers, palette RAM, or video RAM.
pub open spec fn valid_mmio_address(a: int) -> bool {
    &&& a % 2 == 0
    &&& {
        ||| IO_BASE <= a < IO_END
        ||| PALRAM_BASE <= a < PALRAM_END
        ||| VRAM_BASE <= a < VRAM_END
    }
}

/// True when a block of `count` halfwords starting at `base` is aligned and
/// lies wholly inside one of the modelled hardware regions.
pub open spec fn block_span_valid(base: int, count: int) -> bool {
    &&& base % 2 == 0
    &&& {
        ||| (IO_BASE <= base && base + 2 * count <= IO_END)
        ||| (PALRAM_BASE <= base && base + 2 * count <= PALRAM_END)
        ||| (VRAM_BASE <= base && base + 2 * count <= VRAM_END)
    }
}

/// One hardware transaction: a single load or store of one register.
#[derive(Debug, Clone, Copy, PartialEq, Eq, Structural)]
pub enum MmioOp {
    /// A load observed `value` at `address`.
    Load { address: usize, value: u16 },
    /// A store placed `value` at `address`.
    Store { address: usize, value: u16 },
}

/// The machine's register space, with a ghost log of every transaction.
///
/// Registers the program has never stored to read as zero, the model's reset
/// state.
pub struct Mmio {
    regs: HashMap<usize, u16>,
    log: Ghost<Seq<MmioOp>>,
}

impl Mmio {
    /// The value the register at `address` currently holds.
    pub closed spec fn reg(&self, address: usize) -> u16 {
        if self.regs@.contains_key(address) {
            self.regs@[address]
        } else {
            0
        }
    }

    /// Every transaction performed so far, oldest first.
    pub closed spec fn transactions(&self) -> Seq<MmioOp> {
        self.log@
    }

    /// A register space in reset state: all registers zero, nothing logged.
    pub fn new() -> (r: Self)
        ensures
            forall|a: usize| r.reg(a) == 0u16,
            r.transactions() == Seq::<MmioOp>::empty(),
    {
        Mmio { regs: HashMap::new(), log: Ghost(Seq::empty()) }
    }

    /// The hardware's own update of a register — keys changing, a scanline
    /// advancing. It is not a bus transaction of the program, so the
    /// transaction log does not move.
    pub fn hw_set(&mut self, address: usize, value: u16)
        ensures
            final(self).reg(address) == value,
            forall|a: usize| a != address ==> final(self).reg(a) == old(self).reg(a),
            final(self).transactions() == old(self).transactions(),
    {
        self.regs.insert(address, value);
    }

    fn raw_load(&mut self, address: usize) -> (r: u16)
        ensures
            r == old(self).reg(address),
            forall|a: usize| final(self).reg(a) == old(self).reg(a),
            final(self).transactions() == old(self).transactions().push(
                MmioOp::Load { address, value: r },
            ),
    {
        let value: u16 = match self.regs.get(&address) {
            Some(v) => *v,
            None => 0,
        };
        proof {
            self.log@ = self.log@.push(MmioOp::Load { address, value });
        }
        value
    }

    fn raw_store(&mut self, address: usize, value: u16)
        ensures
            final(self).reg(address) == value,
            forall|a: usize| a != address ==> final(self).reg(a) == old(self).reg(a),
            final(self).transactions() == old(self).transactions().push(
                MmioOp::Store { address, value },
            ),
    {
        self.regs.insert(address, value);
        proof {
            self.log@ = self.log@.push(MmioOp::Store { address, value });
        }
    }
}

/// A typed handle on one hardware register.
///
/// `R` grants the single-load `read`; `W` grants the single-store `write`. A
/// handle without a capability cannot perform that access at all.
#[derive(Clone, Copy)]
pub struct VolAddress<const R: bool, const W: bool> {
    address: usize,
}

impl<const R: bool, const W: bool> VolAddress<R, W> {
    /// The fixed hardware address this handle covers.
    pub closed spec fn addr(&self) -> usize {
        self.address
    }

    /// The fixed hardware address this handle covers.
    pub fn address(&self) -> (r: usize)
        ensures
            r == self.addr(),
    {
        self.address
    }

    /// Fixes a handle over `address`. The caller attests — and here proves —
    /// that the address is a documented, aligned hardware offset.
    pub fn new(address: usize) -> (r: Self)
        requires
            valid_mmio_address(address as int),
        ensures
            r.addr() == address,
    {
        VolAddress { address }
    }

    /// Performs exactly one hardware load and returns the value it observed.
    pub fn read(&self, mmio: &mut Mmio) -> (r: u16)
        requires
            R,
        ensures
            r == old(mmio).reg(self.addr()),
            forall|a: usize| final(mmio).reg(a) == old(mmio).reg(a),
            final(mmio).transactions() == old(mmio).transactions().push(
                MmioOp::Load { address: self.addr(), value: r },
            ),
    {
        mmio.raw_load(self.address)
    }

    /// Performs exactly one hardware store of `value`.
    pub fn write(&self, mmio: &mut Mmio, value: u16)
        requires
            W,
        ensures
            final(mmio).reg(self.addr()) == value,
            forall|a: usize| a != self.addr() ==> final(mmio).reg(a) == old(mmio).reg(a),
            final(mmio).transactions() == old(mmio).transactions().push(
                MmioOp::Store { address: self.addr(), value },
            ),
    {
        mmio.raw_store(self.address, value)
    }
}

/// A contiguous block of `C` halfword registers starting at a fixed base,
/// indexed like an array; each element is reached through its own
/// [`VolAddress`] with the block's capabilities.
#[derive(Clone, Copy)]
pub struct VolBlock<const R: bool, const W: bool, const C: usize> {
    base: usize,
}

impl<const R: bool, const W: bool, const C: usize> VolBlock<R, W, C> {
    /// The address of the block's first element.
    pub closed spec fn base(&self) -> usize {
        self.base
    }

    /// Every element's address is a documented hardware offset: the base is
    /// aligned and the whole block lies inside one hardware region.
    pub open spec fn wf(&self) -> bool {
        block_span_valid(self.base() as int, C as int)
    }

    /// The address of the block's first element.
    pub fn base_address(&self) -> (r: usize)
        ensures
            r == self.base(),
    {
        self.base
    }

    /// Fixes a block over `base`, attesting that all `C` element addresses
    /// are documented hardware offsets.
    pub fn new(base: usize) -> (r: Self)
        requires
            block_span_valid(base as int, C as int),
        ensures
            r.base() == base,
            r.wf(),
    {
        VolBlock { base }
    }

    /// The number of elements in the block.
    pub fn len(&self) -> (r: usize)
        ensures
            r == C,
    {
        C
    }

    /// The handle on element `i`.
    pub fn index(&self, i: usize) -> (r: VolAddress<R, W>)
        requires
            self.wf(),
            i < C,
        ensures
            r.addr() == self.base() + 2 * i,
    {
        VolAddress::new(self.base + 2 * i)
    }
}

} // verus!
