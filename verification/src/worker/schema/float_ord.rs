//! A total order on floating-point values, held by their IEEE 754 bit
//! patterns:
//!
//!    NaN | -Infinity | x < 0 | -0 | +0 | x > 0 | +Infinity | NaN
//!
//! where the leading NaN is any NaN with its sign bit set. Two values are
//! equal exactly when their bit patterns are equal.

use vstd::prelude::*;
use vstd::std_specs::cmp::{PartialEqSpec, PartialOrdSpec};
use core::cmp::Ordering;

verus! {

/// A floating-point value held by its bit pattern (`u32` for `f32`, `u64` for
/// `f64`), with total equality, ordering and hashing.
#[derive(Clone, Copy, Debug, Hash)]
pub struct FloatOrd<T>(pub T);

/// The sign bit of a 64-bit pattern.
pub open spec fn sign_bit_64() -> u64 {
    0x8000_0000_0000_0000u64
}

/// The sign bit of a 32-bit pattern.
pub open spec fn sign_bit_32() -> u32 {
    0x8000_0000u32
}

/// The unsigned key by which a 64-bit pattern is ordered: a non-negative
/// pattern gets its sign bit set, a negative pattern has all its bits flipped.
pub open spec fn order_key_64(bits: u64) -> u64 {
    if bits & 0x8000_0000_0000_0000u64 == 0 {
        bits | 0x8000_0000_0000_0000u64
    } else {
        !bits
    }
}

/// The unsigned key by which a 32-bit pattern is ordered.
pub open spec fn order_key_32(bits: u32) -> u32 {
    if bits & 0x8000_0000u32 == 0 {
        bits | 0x8000_0000u32
    } else {
        !bits
    }
}

/// The three-way comparison of two 64-bit keys.
pub open spec fn compare_keys_64(a: u64, b: u64) -> Ordering {
    if a < b {
        Ordering::Less
    } else if a == b {
        Ordering::Equal
    } else {
        Ordering::Greater
    }
}

/// The three-way comparison of two 32-bit keys.
pub open spec fn compare_keys_32(a: u32, b: u32) -> Ordering {
    if a < b {
        Ordering::Less
    } else if a == b {
        Ordering::Equal
    } else {
        Ordering::Greater
    }
}

impl FloatOrd<u64> {
    /// The key by which this value is ordered.
    pub fn convert(self) -> (res: u64)
        ensures
            res == order_key_64(self.0),
    {
        let u = self.0;
        if u & 0x8000_0000_0000_0000u64 == 0 {
            u | 0x8000_0000_0000_0000u64
        } else {
            !u
        }
    }
}

impl FloatOrd<u32> {
    /// The key by which this value is ordered.
    pub fn convert(self) -> (res: u32)
        ensures
            res == order_key_32(self.0),
    {
        let u = self.0;
        if u & 0x8000_0000u32 == 0 {
            u | 0x8000_0000u32
        } else {
            !u
        }
    }
}

impl PartialEq for FloatOrd<u64> {
    fn eq(&self, other: &Self) -> (res: bool) {
        self.convert() == other.convert()
    }
}

impl vstd::std_specs::cmp::PartialEqSpecImpl for FloatOrd<u64> {
    open spec fn obeys_eq_spec() -> bool {
        true
    }

    open spec fn eq_spec(&self, other: &Self) -> bool {
        order_key_64(self.0) == order_key_64(other.0)
    }
}

impl Eq for FloatOrd<u64> {
}

impl PartialOrd for FloatOrd<u64> {
    fn partial_cmp(&self, other: &Self) -> (res: Option<Ordering>) {
        let a = self.convert();
        let b = other.convert();
        if a < b {
            Some(Ordering::Less)
        } else if a == b {
            Some(Ordering::Equal)
        } else {
            Some(Ordering::Greater)
        }
    }
}

impl vstd::std_specs::cmp::PartialOrdSpecImpl for FloatOrd<u64> {
    open spec fn obeys_partial_cmp_spec() -> bool {
        true
    }

    open spec fn partial_cmp_spec(&self, other: &Self) -> Option<Ordering> {
        Some(compare_keys_64(order_key_64(self.0), order_key_64(other.0)))
    }
}

impl PartialEq for FloatOrd<u32> {
    fn eq(&self, other: &Self) -> (res: bool) {
        self.convert() == other.convert()
    }
}

impl vstd::std_specs::cmp::PartialEqSpecImpl for FloatOrd<u32> {
    open spec fn obeys_eq_spec() -> bool {
        true
    }

    open spec fn eq_spec(&self, other: &Self) -> bool {
        order_key_32(self.0) == order_key_32(other.0)
    }
}

impl Eq for FloatOrd<u32> {
}

impl PartialOrd for FloatOrd<u32> {
    fn partial_cmp(&self, other: &Self) -> (res: Option<Ordering>) {
        let a = self.convert();
        let b = other.convert();
        if a < b {
            Some(Ordering::Less)
        } else if a == b {
            Some(Ordering::Equal)
        } else {
            Some(Ordering::Greater)
        }
    }
}

impl vstd::std_specs::cmp::PartialOrdSpecImpl for FloatOrd<u32> {
    open spec fn obeys_partial_cmp_spec() -> bool {
        true
    }

    open spec fn partial_cmp_spec(&self, other: &Self) -> Option<Ordering> {
        Some(compare_keys_32(order_key_32(self.0), order_key_32(other.0)))
    }
}

/// Two values are equal under `FloatOrd` exactly when their 64-bit patterns are
/// equal: every NaN pattern equals only itself, and `-0` differs from `+0`.
pub proof fn lemma_eq_iff_same_bits_64(a: u64, b: u64)
    ensures
        FloatOrd(a).eq_spec(&FloatOrd(b)) <==> a == b,
{
    assert((order_key_64(a) == order_key_64(b)) <==> a == b) by (bit_vector);
}

/// Two values are equal under `FloatOrd` exactly when their 32-bit patterns are
/// equal.
pub proof fn lemma_eq_iff_same_bits_32(a: u32, b: u32)
    ensures
        FloatOrd(a).eq_spec(&FloatOrd(b)) <==> a == b,
{
    assert((order_key_32(a) == order_key_32(b)) <==> a == b) by (bit_vector);
}

/// Every 64-bit pattern with its sign bit set (negative numbers, `-0`,
/// `-Infinity` and negative NaNs) orders before every pattern with its sign
/// bit clear.
pub proof fn lemma_negative_before_non_negative_64(a: u64, b: u64)
    requires
        a & sign_bit_64() != 0,
        b & sign_bit_64() == 0,
    ensures
        FloatOrd(a).partial_cmp_spec(&FloatOrd(b)) == Some(Ordering::Less),
{
    assert(a & 0x8000_0000_0000_0000u64 != 0 && b & 0x8000_0000_0000_0000u64 == 0
        ==> order_key_64(a) < order_key_64(b)) by (bit_vector);
}

/// Every 32-bit pattern with its sign bit set orders before every pattern with
/// its sign bit clear.
pub proof fn lemma_negative_before_non_negative_32(a: u32, b: u32)
    requires
        a & sign_bit_32() != 0,
        b & sign_bit_32() == 0,
    ensures
        FloatOrd(a).partial_cmp_spec(&FloatOrd(b)) == Some(Ordering::Less),
{
    assert(a & 0x8000_0000u32 != 0 && b & 0x8000_0000u32 == 0
        ==> order_key_32(a) < order_key_32(b)) by (bit_vector);
}

/// Among 64-bit patterns with the sign bit clear (`+0`, positive numbers,
/// `+Infinity`, positive NaNs) the order is that of the patterns as unsigned
/// integers, which is the order of magnitude.
pub proof fn lemma_non_negative_order_64(a: u64, b: u64)
    requires
        a & sign_bit_64() == 0,
        b & sign_bit_64() == 0,
    ensures
        FloatOrd(a).partial_cmp_spec(&FloatOrd(b)) == Some(compare_keys_64(a, b)),
{
    assert(a & 0x8000_0000_0000_0000u64 == 0 && b & 0x8000_0000_0000_0000u64 == 0 ==> (
    (order_key_64(a) < order_key_64(b) <==> a < b) && (order_key_64(a) == order_key_64(b)
        <==> a == b))) by (bit_vector);
}

/// Among 32-bit patterns with the sign bit clear the order is that of the
/// patterns as unsigned integers.
pub proof fn lemma_non_negative_order_32(a: u32, b: u32)
    requires
        a & sign_bit_32() == 0,
        b & sign_bit_32() == 0,
    ensures
        FloatOrd(a).partial_cmp_spec(&FloatOrd(b)) == Some(compare_keys_32(a, b)),
{
    assert(a & 0x8000_0000u32 == 0 && b & 0x8000_0000u32 == 0 ==> ((order_key_32(a)
        < order_key_32(b) <==> a < b) && (order_key_32(a) == order_key_32(b) <==> a == b)))
        by (bit_vector);
}

/// Among 64-bit patterns with the sign bit set the order is the reverse of
/// that of the patterns as unsigned integers: a larger magnitude orders first.
pub proof fn lemma_negative_order_64(a: u64, b: u64)
    requires
        a & sign_bit_64() != 0,
        b & sign_bit_64() != 0,
    ensures
        FloatOrd(a).partial_cmp_spec(&FloatOrd(b)) == Some(compare_keys_64(b, a)),
{
    assert(a & 0x8000_0000_0000_0000u64 != 0 && b & 0x8000_0000_0000_0000u64 != 0 ==> (
    (order_key_64(a) < order_key_64(b) <==> b < a) && (order_key_64(a) == order_key_64(b)
        <==> a == b))) by (bit_vector);
}

/// Among 32-bit patterns with the sign bit set the order is the reverse of
/// that of the patterns as unsigned integers.
pub proof fn lemma_negative_order_32(a: u32, b: u32)
    requires
        a & sign_bit_32() != 0,
        b & sign_bit_32() != 0,
    ensures
        FloatOrd(a).partial_cmp_spec(&FloatOrd(b)) == Some(compare_keys_32(b, a)),
{
    assert(a & 0x8000_0000u32 != 0 && b & 0x8000_0000u32 != 0 ==> ((order_key_32(a)
        < order_key_32(b) <==> b < a) && (order_key_32(a) == order_key_32(b) <==> a == b)))
        by (bit_vector);
}

/// The order is total and consistent with equality: any two values compare,
/// exactly one of less, equal and greater holds, and swapping the operands
/// reverses the result.
pub proof fn lemma_total_order_64(a: u64, b: u64)
    ensures
        FloatOrd(a).partial_cmp_spec(&FloatOrd(b)) is Some,
        FloatOrd(a).partial_cmp_spec(&FloatOrd(b)) == Some(Ordering::Equal) <==> FloatOrd(
            a,
        ).eq_spec(&FloatOrd(b)),
        FloatOrd(a).partial_cmp_spec(&FloatOrd(b)) == Some(Ordering::Less) <==> FloatOrd(
            b,
        ).partial_cmp_spec(&FloatOrd(a)) == Some(Ordering::Greater),
{
}

/// The order is total and consistent with equality on 32-bit patterns.
pub proof fn lemma_total_order_32(a: u32, b: u32)
    ensures
        FloatOrd(a).partial_cmp_spec(&FloatOrd(b)) is Some,
        FloatOrd(a).partial_cmp_spec(&FloatOrd(b)) == Some(Ordering::Equal) <==> FloatOrd(
            a,
        ).eq_spec(&FloatOrd(b)),
        FloatOrd(a).partial_cmp_spec(&FloatOrd(b)) == Some(Ordering::Less) <==> FloatOrd(
            b,
        ).partial_cmp_spec(&FloatOrd(a)) == Some(Ordering::Greater),
{
}

/// The order is transitive.
pub proof fn lemma_transitive_64(a: u64, b: u64, c: u64)
    requires
        FloatOrd(a).partial_cmp_spec(&FloatOrd(b)) == Some(Ordering::Less),
        FloatOrd(b).partial_cmp_spec(&FloatOrd(c)) == Some(Ordering::Less),
    ensures
        FloatOrd(a).partial_cmp_spec(&FloatOrd(c)) == Some(Ordering::Less),
{
}

/// The order is transitive on 32-bit patterns.
pub proof fn lemma_transitive_32(a: u32, b: u32, c: u32)
    requires
        FloatOrd(a).partial_cmp_spec(&FloatOrd(b)) == Some(Ordering::Less),
        FloatOrd(b).partial_cmp_spec(&FloatOrd(c)) == Some(Ordering::Less),
    ensures
        FloatOrd(a).partial_cmp_spec(&FloatOrd(c)) == Some(Ordering::Less),
{
}

} // verus!
