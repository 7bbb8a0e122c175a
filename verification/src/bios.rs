//! The built-in firmware's data services.
//!
//! The console's firmware offers a handful of routines behind software
//! interrupts. The control-flow ones — halt and the interrupt waits — live
//! in [`crate::runtime`], where the machine they suspend is modelled. This
//! module holds the data-only service: bit-unpacking, with the packing
//! descriptors it is driven by, implemented directly against its documented
//! semantics.

use vstd::prelude::*;

use vstd::arithmetic::div_mod::lemma_fundamental_div_mod;
use vstd::arithmetic::div_mod::lemma_mod_bound;
use vstd::arithmetic::div_mod::lemma_fundamental_div_mod_converse;

use crate::bits::u32_bit;
use crate::bits::u32_get_bit;
use crate::bits::u32_get_value;
use crate::bits::u32_region;
use crate::bits::u32_set_bit;
use crate::bits::u32_set_region;
use crate::bits::u32_with_bit;
use crate::bits::u32_with_value;

verus! {

/// How much to add to unpacked elements, and whether zero elements get the
/// addition too: a 31-bit delta and the offset-zeroes bit on top.
#[derive(Debug, Clone, Copy, PartialEq, Eq, Structural)]
pub struct BitUnpackOffset {
    bits: u32,
}

impl View for BitUnpackOffset {
    type V = u32;

    closed spec fn view(&self) -> u32 {
        self.bits
    }
}

impl BitUnpackOffset {
    /// Zero delta, zeroes left alone.
    pub fn new() -> (r: Self)
        ensures
            r@ == 0u32,
    {
        BitUnpackOffset { bits: 0 }
    }

    /// The offset whose raw word is `u`.
    pub fn from_u32(u: u32) -> (r: Self)
        ensures
            r@ == u,
    {
        BitUnpackOffset { bits: u }
    }

    /// The raw word.
    pub fn to_u32(self) -> (r: u32)
        ensures
            r == self@,
    {
        self.bits
    }

    /// How much is added to non-zero elements.
    pub fn delta(self) -> (r: u32)
        ensures
            r == u32_region(self@, 0, 31),
    {
        u32_get_value(self.bits, 0, 31)
    }

    /// The offset with the delta replaced by the low 31 bits of `val`.
    pub fn with_delta(self, val: u32) -> (r: Self)
        ensures
            r@ == u32_set_region(self@, 0, 31, val),
    {
        BitUnpackOffset { bits: u32_with_value(self.bits, 0, 31, val) }
    }

    /// Whether the delta is also added to zero elements.
    pub fn offset_zeroes(self) -> (r: bool)
        ensures
            r == u32_bit(self@, 31),
    {
        u32_get_bit(self.bits, 31)
    }

    /// The offset with the offset-zeroes bit forced to `val`.
    pub fn with_offset_zeroes(self, val: bool) -> (r: Self)
        ensures
            r@ == u32_set_bit(self@, 31, val),
    {
        BitUnpackOffset { bits: u32_with_bit(self.bits, 31, val) }
    }
}

/// Describes one unpacking job: how long the source is, how wide its packed
/// elements are, how wide the produced elements are, and the offset applied
/// to each.
#[derive(Debug, Clone, Copy, PartialEq, Eq, Structural)]
pub struct BitUnpackInfo {
    /// Length of the source, in bytes.
    pub src_len_bytes: u16,
    /// Width of source elements in bits: 1, 2, 4, or 8.
    pub src_elem_bits: u8,
    /// Width of destination elements in bits: 1, 2, 4, 8, 16, or 32.
    pub dest_elem_bits: u8,
    /// The addition applied to elements as they are unpacked.
    pub offset: BitUnpackOffset,
}

/// How many packed elements one source byte holds.
pub open spec fn src_elems_per_byte(src_bits: u8) -> int {
    8int / (src_bits as int)
}

/// How many produced elements fill one output word.
pub open spec fn dest_elems_per_word(dest_bits: u8) -> int {
    32int / (dest_bits as int)
}

/// The `j`-th packed source element: source bytes are consumed in order,
/// each holding its elements from the low bits to the high bits.
pub open spec fn spec_src_elem(src: Seq<u8>, src_bits: u8, j: int) -> u32 {
    let epb = 8int / (src_bits as int);
    u32_region(src[j / epb] as u32, (((j % epb) * (src_bits as int)) as u32), src_bits as u32)
}

/// The offset rule applied to one element: non-zero elements get the delta;
/// zero elements get it only when the offset-zeroes bit is set.
pub open spec fn spec_offset_elem(e: u32, delta: u32, offset_zeroes: bool) -> u32 {
    if e != 0 {
        (e + delta) as u32
    } else if offset_zeroes {
        delta
    } else {
        0u32
    }
}

/// The `j`-th element after unpacking and offsetting.
pub open spec fn spec_unpacked_elem(src: Seq<u8>, info: BitUnpackInfo, j: int) -> u32 {
    spec_offset_elem(
        spec_src_elem(src, info.src_elem_bits, j),
        u32_region(info.offset@, 0, 31),
        u32_bit(info.offset@, 31),
    )
}

/// The first `k` elements of output word `w`, combined by OR and shifting,
/// from the low bits to the high bits. An element wider than its slot — a
/// delta overflow — corrupts the following elements of the same word, as the
/// firmware's documentation warns.
pub open spec fn spec_word_prefix(src: Seq<u8>, info: BitUnpackInfo, w: int, k: int) -> u32
    decreases k,
{
    if k <= 0 {
        0u32
    } else {
        let epw = 32int / (info.dest_elem_bits as int);
        spec_word_prefix(src, info, w, k - 1) | (spec_unpacked_elem(src, info, w * epw + (k - 1))
            << ((((k - 1) * (info.dest_elem_bits as int)) as u32)))
    }
}

/// Output word `w`, fully assembled.
pub open spec fn spec_dest_word(src: Seq<u8>, info: BitUnpackInfo, w: int) -> u32 {
    spec_word_prefix(src, info, w, 32int / (info.dest_elem_bits as int))
}

proof fn lemma_src_widths(sb: int)
    requires
        sb == 1 || sb == 2 || sb == 4 || sb == 8,
    ensures
        (8int / sb) * sb == 8,
        1 <= 8int / sb <= 8,
{
    if sb == 1 {
        assert((8int / sb) * sb == 8);
    } else if sb == 2 {
        assert((8int / sb) * sb == 8);
    } else if sb == 4 {
        assert((8int / sb) * sb == 8);
    } else {
        assert((8int / sb) * sb == 8);
    }
}

proof fn lemma_dest_widths(db: int)
    requires
        db == 1 || db == 2 || db == 4 || db == 8 || db == 16 || db == 32,
    ensures
        (32int / db) * db == 32,
        1 <= 32int / db <= 32,
{
    if db == 1 {
        assert((32int / db) * db == 32);
    } else if db == 2 {
        assert((32int / db) * db == 32);
    } else if db == 4 {
        assert((32int / db) * db == 32);
    } else if db == 8 {
        assert((32int / db) * db == 32);
    } else if db == 16 {
        assert((32int / db) * db == 32);
    } else {
        assert((32int / db) * db == 32);
    }
}

/// `swi #0x10` — decompresses bit-packed elements.
///
/// Each source byte holds one or more elements of 1, 2, 4, or 8 bits, stored
/// from the low bits to the high bits. Each element has the offset rule
/// applied and is then placed into a 32-bit output buffer, again from the
/// low bits to the high bits, in slots of 1, 2, 4, 8, 16, or 32 bits; every
/// time 32 bits of output are gathered the word is emitted. A final, partial
/// buffer is not emitted — that is why the output length rounds down.
#[allow(non_snake_case)]
#[verifier::loop_isolation(false)]
pub fn BitUnPack(src: &Vec<u8>, info: &BitUnpackInfo) -> (dest: Vec<u32>)
    requires
        src@.len() == info.src_len_bytes as int,
        info.src_elem_bits == 1 || info.src_elem_bits == 2 || info.src_elem_bits == 4
            || info.src_elem_bits == 8,
        info.dest_elem_bits == 1 || info.dest_elem_bits == 2 || info.dest_elem_bits == 4
            || info.dest_elem_bits == 8 || info.dest_elem_bits == 16 || info.dest_elem_bits == 32,
    ensures
        dest@.len() == (src@.len() * src_elems_per_byte(info.src_elem_bits)) / dest_elems_per_word(
            info.dest_elem_bits,
        ),
        forall|w: int| 0 <= w < dest@.len() ==> dest@[w] == spec_dest_word(src@, *info, w),
{
    proof {
        lemma_src_widths(info.src_elem_bits as int);
        lemma_dest_widths(info.dest_elem_bits as int);
    }
    let src_bits: u32 = info.src_elem_bits as u32;
    let epb: usize = (8 / src_bits) as usize;
    let delta: u32 = info.offset.delta();
    let oz: bool = info.offset.offset_zeroes();
    proof {
        let off = info.offset@;
        assert((off >> 0u32) & 0x7FFF_FFFFu32 <= 0x7FFF_FFFFu32) by (bit_vector);
        assert(u32_region(off, 0, 31) == (off >> 0u32) & 0x7FFF_FFFFu32) by (bit_vector);
    }
    // First pass: unpack every source element and apply the offset rule.
    let mut elems: Vec<u32> = Vec::new();
    let mut i: usize = 0;
    while i < src.len()
        invariant
            i <= src@.len(),
            elems@.len() == i * (epb as int),
            forall|j: int| 0 <= j < elems@.len() ==> elems@[j] == spec_unpacked_elem(src@, *info, j),
        decreases src@.len() - i,
    {
        let byte: u32 = src[i] as u32;
        let mut k: usize = 0;
        while k < epb
            invariant
                k <= epb,
                i < src@.len(),
                byte == src@[i as int] as u32,
                elems@.len() == i * (epb as int) + k,
                forall|j: int| 0 <= j < elems@.len() ==> elems@[j] == spec_unpacked_elem(
                    src@,
                    *info,
                    j,
                ),
            decreases epb - k,
        {
            proof {
                assert((k as int) * (src_bits as int) + (src_bits as int) <= (epb as int) * (
                src_bits as int)) by (nonlinear_arith)
                    requires
                        0 <= (k as int) < (epb as int),
                        1 <= (src_bits as int),
                ;
            }
            let e: u32 = u32_get_value(byte, (k as u32) * src_bits, src_bits);
            proof {
                let low = (((k as int) * (src_bits as int)) as u32);
                assert(u32_region(byte, low, src_bits) <= 0xFFu32) by (bit_vector)
                    requires
                        byte <= 0xFFu32,
                ;
            }
            let d: u32 = if e != 0 {
                e + delta
            } else if oz {
                delta
            } else {
                0
            };
            elems.push(d);
            proof {
                let j = (i as int) * (epb as int) + (k as int);
                lemma_fundamental_div_mod_converse(j, epb as int, i as int, k as int);
                assert(elems@[j] == spec_unpacked_elem(src@, *info, j));
            }
            k = k + 1;
        }
        proof {
            assert(((i as int) + 1) * (epb as int) == (i as int) * (epb as int) + (epb as int))
                by (nonlinear_arith);
        }
        i = i + 1;
    }
    // Second pass: gather the elements into words, dropping a partial tail.
    let db: u32 = info.dest_elem_bits as u32;
    let epw: usize = (32 / db) as usize;
    let n_words: usize = elems.len() / epw;
    proof {
        let ll = elems@.len() as int;
        let ee = epw as int;
        lemma_fundamental_div_mod(ll, ee);
        lemma_mod_bound(ll, ee);
        assert((n_words as int) * ee == ee * (ll / ee)) by (nonlinear_arith)
            requires
                (n_words as int) == ll / ee,
        ;
        assert((n_words as int) * ee <= ll);
    }
    let mut dest: Vec<u32> = Vec::new();
    let mut w: usize = 0;
    while w < n_words
        invariant
            w <= n_words,
            dest@.len() == w,
            forall|x: int| 0 <= x < w ==> dest@[x] == spec_dest_word(src@, *info, x),
        decreases n_words - w,
    {
        let mut buf: u32 = 0;
        let mut k: usize = 0;
        while k < epw
            invariant
                k <= epw,
                w < n_words,
                buf == spec_word_prefix(src@, *info, w as int, k as int),
            decreases epw - k,
        {
            proof {
                assert((w as int) * (epw as int) + (k as int) < elems@.len()) by (nonlinear_arith)
                    requires
                        0 <= (w as int) < (n_words as int),
                        0 <= (k as int) < (epw as int),
                        (n_words as int) * (epw as int) <= elems@.len(),
                ;
                assert((k as int) * (db as int) <= 32 - (db as int)) by (nonlinear_arith)
                    requires
                        0 <= (k as int) < (epw as int),
                        1 <= (db as int),
                        (epw as int) * (db as int) == 32,
                ;
            }
            let idx: usize = w * epw + k;
            buf = buf | (elems[idx] << ((k as u32) * db));
            k = k + 1;
        }
        dest.push(buf);
        w = w + 1;
    }
    dest
}


impl Default for BitUnpackOffset {
    /// Zero delta, zeroes left alone.
    fn default() -> (r: Self)
        ensures
            r@ == 0u32,
    {
        BitUnpackOffset::new()
    }
}

} // verus!
