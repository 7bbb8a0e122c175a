//! Bit-level utilities shared by every register value type.
//!
//! Each memory-mapped register value is a `u16` (or `u32`) treated as a packed
//! record of single-bit flags and small multi-bit fields. The executable
//! helpers here carry contracts phrased over the spec functions [`u16_bit`],
//! [`u16_region`] and their `u32` twins, so the per-field accessors of the
//! value types can state exactly which bits they read and change.

use vstd::prelude::*;

verus! {

/// True when bit `i` of `v` is set.
pub open spec fn u16_bit(v: u16, i: u16) -> bool {
    (v >> i) & 1 == 1
}

/// True when bit `i` of `v` is set.
pub open spec fn u32_bit(v: u32, i: u32) -> bool {
    (v >> i) & 1 == 1
}

/// A mask covering the low `width` bits.
pub open spec fn u16_mask(width: u16) -> u16 {
    (((1u32 << (width as u32)) - 1) as u16)
}

/// A mask covering the low `width` bits.
pub open spec fn u32_mask(width: u32) -> u32 {
    (((1u64 << (width as u64)) - 1) as u32)
}

/// The value of the `width`-bit field of `v` that starts at bit `low`.
pub open spec fn u16_region(v: u16, low: u16, width: u16) -> u16 {
    (v >> low) & u16_mask(width)
}

/// `v` with bit `b` forced to `val`.
pub open spec fn u16_set_bit(v: u16, b: u16, val: bool) -> u16 {
    if val {
        v | (1u16 << b)
    } else {
        v & !(1u16 << b)
    }
}

/// `v` with bit `b` forced to `val`.
pub open spec fn u32_set_bit(v: u32, b: u32, val: bool) -> u32 {
    if val {
        v | (1u32 << b)
    } else {
        v & !(1u32 << b)
    }
}

/// `v` with the `width`-bit field at `low` replaced by the low `width` bits
/// of `val`.
pub open spec fn u16_set_region(v: u16, low: u16, width: u16, val: u16) -> u16 {
    (v & !(u16_mask(width) << low)) | ((val & u16_mask(width)) << low)
}

/// `v` with the `width`-bit field at `low` replaced by the low `width` bits
/// of `val`.
pub open spec fn u32_set_region(v: u32, low: u32, width: u32, val: u32) -> u32 {
    (v & !(u32_mask(width) << low)) | ((val & u32_mask(width)) << low)
}

/// Bit `j` of `u16_set_bit(v, b, val)` is `val` at `b` and bit `j` of `v`
/// elsewhere.
pub proof fn lemma_u16_set_bit(v: u16, b: u16, val: bool, j: u16)
    by (bit_vector)
    requires
        b < 16,
        j < 16,
    ensures
        u16_bit(u16_set_bit(v, b, val), j) == (if j == b { val } else { u16_bit(v, j) }),
{
}

/// The value of the `width`-bit field of `v` that starts at bit `low`.
pub open spec fn u32_region(v: u32, low: u32, width: u32) -> u32 {
    (v >> low) & u32_mask(width)
}

/// Reads bit `b` of `v`.
pub fn u16_get_bit(v: u16, b: u16) -> (r: bool)
    requires
        b < 16,
    ensures
        r == u16_bit(v, b),
{
    (v >> b) & 1 == 1
}

/// Reads bit `b` of `v`.
pub fn u32_get_bit(v: u32, b: u32) -> (r: bool)
    requires
        b < 32,
    ensures
        r == u32_bit(v, b),
{
    (v >> b) & 1 == 1
}

proof fn lemma_u16_with_bit(v: u16, b: u16, val: bool, j: u16)
    by (bit_vector)
    requires
        b < 16,
        j < 16,
    ensures
        u16_bit(if val { v | (1u16 << b) } else { v & !(1u16 << b) }, j)
            == (if j == b { val } else { u16_bit(v, j) }),
{
}

/// Returns `v` with bit `b` forced to `val` and every other bit unchanged.
pub fn u16_with_bit(v: u16, b: u16, val: bool) -> (r: u16)
    requires
        b < 16,
    ensures
        r == u16_set_bit(v, b, val),
        forall|j: u16| j < 16 ==> u16_bit(r, j) == (if j == b { val } else { u16_bit(v, j) }),
{
    let r = if val { v | (1u16 << b) } else { v & !(1u16 << b) };
    proof {
        assert forall|j: u16| j < 16 implies u16_bit(r, j) == (if j == b { val } else { u16_bit(v, j) }) by {
            lemma_u16_with_bit(v, b, val, j);
        }
    }
    r
}

proof fn lemma_u32_with_bit(v: u32, b: u32, val: bool, j: u32)
    by (bit_vector)
    requires
        b < 32,
        j < 32,
    ensures
        u32_bit(if val { v | (1u32 << b) } else { v & !(1u32 << b) }, j)
            == (if j == b { val } else { u32_bit(v, j) }),
{
}

/// Returns `v` with bit `b` forced to `val` and every other bit unchanged.
pub fn u32_with_bit(v: u32, b: u32, val: bool) -> (r: u32)
    requires
        b < 32,
    ensures
        r == u32_set_bit(v, b, val),
        forall|j: u32| j < 32 ==> u32_bit(r, j) == (if j == b { val } else { u32_bit(v, j) }),
{
    let r = if val { v | (1u32 << b) } else { v & !(1u32 << b) };
    proof {
        assert forall|j: u32| j < 32 implies u32_bit(r, j) == (if j == b { val } else { u32_bit(v, j) }) by {
            lemma_u32_with_bit(v, b, val, j);
        }
    }
    r
}

/// Reads the `width`-bit field of `v` that starts at bit `low`.
pub fn u16_get_value(v: u16, low: u16, width: u16) -> (r: u16)
    requires
        1 <= width,
        low + width <= 16,
    ensures
        r == u16_region(v, low, width),
{
    proof {
        assert(1u32 << (width as u32) >= 1) by (bit_vector)
            requires width <= 16,
        ;
    }
    (v >> low) & (((1u32 << (width as u32)) - 1) as u16)
}

/// Reads the `width`-bit field of `v` that starts at bit `low`.
pub fn u32_get_value(v: u32, low: u32, width: u32) -> (r: u32)
    requires
        1 <= width,
        low + width <= 32,
    ensures
        r == u32_region(v, low, width),
{
    proof {
        assert(1u64 << (width as u64) >= 1) by (bit_vector)
            requires width <= 32,
        ;
    }
    (v >> low) & (((1u64 << (width as u64)) - 1) as u32)
}

proof fn lemma_u16_with_value(v: u16, low: u16, width: u16, val: u16, j: u16)
    by (bit_vector)
    requires
        1 <= width,
        low + width <= 16,
        j < 16,
    ensures
        u16_region((v & !(u16_mask(width) << low)) | ((val & u16_mask(width)) << low), low, width)
            == (val & u16_mask(width)),
        !(low <= j < low + width) ==> u16_bit(
            (v & !(u16_mask(width) << low)) | ((val & u16_mask(width)) << low),
            j,
        ) == u16_bit(v, j),
{
}

/// Returns `v` with the `width`-bit field at `low` replaced by the low `width`
/// bits of `val`; every bit outside the field is unchanged.
pub fn u16_with_value(v: u16, low: u16, width: u16, val: u16) -> (r: u16)
    requires
        1 <= width,
        low + width <= 16,
    ensures
        r == u16_set_region(v, low, width, val),
        u16_region(r, low, width) == (val & u16_mask(width)),
        forall|j: u16| j < 16 && !(low <= j < low + width) ==> u16_bit(r, j) == u16_bit(v, j),
{
    proof {
        assert(1u32 << (width as u32) >= 1) by (bit_vector)
            requires width <= 16,
        ;
    }
    let mask: u16 = ((1u32 << (width as u32)) - 1) as u16;
    let r = (v & !(mask << low)) | ((val & mask) << low);
    proof {
        assert(mask == u16_mask(width));
        lemma_u16_with_value(v, low, width, val, 0);
        assert forall|j: u16| j < 16 && !(low <= j < low + width) implies u16_bit(r, j) == u16_bit(v, j) by {
            lemma_u16_with_value(v, low, width, val, j);
        }
    }
    r
}

proof fn lemma_u32_with_value(v: u32, low: u32, width: u32, val: u32, j: u32)
    by (bit_vector)
    requires
        1 <= width,
        low + width <= 32,
        j < 32,
    ensures
        u32_region((v & !(u32_mask(width) << low)) | ((val & u32_mask(width)) << low), low, width)
            == (val & u32_mask(width)),
        !(low <= j < low + width) ==> u32_bit(
            (v & !(u32_mask(width) << low)) | ((val & u32_mask(width)) << low),
            j,
        ) == u32_bit(v, j),
{
}

/// Returns `v` with the `width`-bit field at `low` replaced by the low `width`
/// bits of `val`; every bit outside the field is unchanged.
pub fn u32_with_value(v: u32, low: u32, width: u32, val: u32) -> (r: u32)
    requires
        1 <= width,
        low + width <= 32,
    ensures
        r == u32_set_region(v, low, width, val),
        u32_region(r, low, width) == (val & u32_mask(width)),
        forall|j: u32| j < 32 && !(low <= j < low + width) ==> u32_bit(r, j) == u32_bit(v, j),
{
    proof {
        assert(1u64 << (width as u64) >= 1) by (bit_vector)
            requires width <= 32,
        ;
    }
    let mask: u32 = ((1u64 << (width as u64)) - 1) as u32;
    let r = (v & !(mask << low)) | ((val & mask) << low);
    proof {
        assert(mask == u32_mask(width));
        lemma_u32_with_value(v, low, width, val, 0);
        assert forall|j: u32| j < 32 && !(low <= j < low + width) implies u32_bit(r, j) == u32_bit(v, j) by {
            lemma_u32_with_value(v, low, width, val, j);
        }
    }
    r
}

/// Bitwise OR holds the union of the operands' set bits.
pub proof fn lemma_u16_or_bits(a: u16, b: u16, j: u16)
    by (bit_vector)
    requires
        j < 16,
    ensures
        u16_bit(a | b, j) == (u16_bit(a, j) || u16_bit(b, j)),
{
}

/// Bitwise AND holds the intersection of the operands' set bits.
pub proof fn lemma_u16_and_bits(a: u16, b: u16, j: u16)
    by (bit_vector)
    requires
        j < 16,
    ensures
        u16_bit(a & b, j) == (u16_bit(a, j) && u16_bit(b, j)),
{
}



/// A single set bit at index `i` is the value `1 << i`.
pub proof fn lemma_u16_single_bit(i: u16)
    by (bit_vector)
    requires
        i < 16,
    ensures
        (0u16 | (1u16 << i)) == (1u16 << i),
        forall|j: u16| j < 16 ==> (u16_bit((1u16 << i), j) == (j == i)),
{
}

} // verus!
