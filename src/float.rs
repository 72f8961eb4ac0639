//! A 64-bit float held by its IEEE-754 bit pattern, with a total order in
//! which NaN sits below every other value and equals every other NaN.
//!
//! Equality and hashing go by the bit pattern: `+0.0` and `-0.0` are distinct
//! values that compare `Equal` in the order, and distinct NaN payloads are
//! distinct values that also compare `Equal`.
use vstd::prelude::*;
use core::cmp::Ordering;

verus! {

/// Sign bit of an IEEE-754 double.
pub const SIGN_BIT: u64 = 0x8000_0000_0000_0000;

/// Bit pattern of positive infinity; a larger magnitude is a NaN.
pub const INFINITY_BITS: u64 = 0x7FF0_0000_0000_0000;

/// The bits without the sign.
pub open spec fn magnitude(bits: u64) -> int {
    bits as int % (SIGN_BIT as int)
}

pub open spec fn sign_negative(bits: u64) -> bool {
    bits >= SIGN_BIT
}

/// Exponent all ones and a non-zero mantissa.
pub open spec fn is_nan_bits(bits: u64) -> bool {
    magnitude(bits) > INFINITY_BITS as int
}

/// For non-NaN patterns, a number that orders as the floats do:
/// positive values grow with their magnitude, negative ones shrink, and both
/// zeros map to 0.
pub open spec fn order_value(bits: u64) -> int {
    if sign_negative(bits) {
        -magnitude(bits)
    } else {
        magnitude(bits)
    }
}

/// Float `<` on two non-NaN bit patterns.
pub open spec fn float_lt(a: u64, b: u64) -> bool {
    order_value(a) < order_value(b)
}

pub open spec fn int_cmp(a: int, b: int) -> Ordering {
    if a < b {
        Ordering::Less
    } else if a > b {
        Ordering::Greater
    } else {
        Ordering::Equal
    }
}

pub open spec fn reverse(o: Ordering) -> Ordering {
    match o {
        Ordering::Less => Ordering::Greater,
        Ordering::Equal => Ordering::Equal,
        Ordering::Greater => Ordering::Less,
    }
}

/// The total order: NaN is least and equal to every NaN; other values
/// compare numerically.
pub open spec fn float_cmp(a: u64, b: u64) -> Ordering {
    if is_nan_bits(a) && is_nan_bits(b) {
        Ordering::Equal
    } else if is_nan_bits(a) {
        Ordering::Less
    } else if is_nan_bits(b) {
        Ordering::Greater
    } else {
        int_cmp(order_value(a), order_value(b))
    }
}

#[derive(Debug, Clone, Copy, PartialEq, Eq, Hash, Structural)]
pub struct HashableF64 {
    pub bits: u64,
}

impl HashableF64 {
    pub fn from_bits(bits: u64) -> (r: HashableF64)
        ensures
            r.bits == bits,
    {
        HashableF64 { bits }
    }

    pub fn to_bits(&self) -> (r: u64)
        ensures
            r == self.bits,
    {
        self.bits
    }

    pub fn is_nan(&self) -> (r: bool)
        ensures
            r == is_nan_bits(self.bits),
    {
        self.bits % SIGN_BIT > INFINITY_BITS
    }

    fn signed_value(&self) -> (r: i128)
        ensures
            r as int == order_value(self.bits),
    {
        let m: u64 = self.bits % SIGN_BIT;
        if self.bits >= SIGN_BIT {
            -(m as i128)
        } else {
            m as i128
        }
    }

    /// Total order with NaN least.
    pub fn compare(&self, other: &HashableF64) -> (r: Ordering)
        ensures
            r == float_cmp(self.bits, other.bits),
    {
        let a_nan = self.is_nan();
        let b_nan = other.is_nan();
        if a_nan && b_nan {
            Ordering::Equal
        } else if a_nan {
            Ordering::Less
        } else if b_nan {
            Ordering::Greater
        } else {
            let a = self.signed_value();
            let b = other.signed_value();
            if a < b {
                Ordering::Less
            } else if a > b {
                Ordering::Greater
            } else {
                Ordering::Equal
            }
        }
    }
}

/// For non-NaN values, `a < b` gives `Less`.
pub proof fn lemma_less_when_lower(a: HashableF64, b: HashableF64)
    requires
        !is_nan_bits(a.bits),
        !is_nan_bits(b.bits),
        float_lt(a.bits, b.bits),
    ensures
        float_cmp(a.bits, b.bits) == Ordering::Less,
{
}

/// Swapping the operands reverses the result.
pub proof fn lemma_cmp_antisymmetric(a: HashableF64, b: HashableF64)
    ensures
        float_cmp(b.bits, a.bits) == reverse(float_cmp(a.bits, b.bits)),
{
}

/// `Less` and `Equal` are transitive.
pub proof fn lemma_cmp_transitive(a: HashableF64, b: HashableF64, c: HashableF64)
    ensures
        float_cmp(a.bits, b.bits) == Ordering::Less && float_cmp(b.bits, c.bits) == Ordering::Less
            ==> float_cmp(a.bits, c.bits) == Ordering::Less,
        float_cmp(a.bits, b.bits) == Ordering::Equal && float_cmp(b.bits, c.bits)
            == Ordering::Equal ==> float_cmp(a.bits, c.bits) == Ordering::Equal,
        float_cmp(a.bits, b.bits) != Ordering::Greater && float_cmp(b.bits, c.bits)
            != Ordering::Greater ==> float_cmp(a.bits, c.bits) != Ordering::Greater,
{
}

/// NaN equals NaN, sits below every other value, and every other value
/// sits above it.
pub proof fn lemma_nan_least(n: HashableF64, m: HashableF64, x: HashableF64)
    requires
        is_nan_bits(n.bits),
        is_nan_bits(m.bits),
        !is_nan_bits(x.bits),
    ensures
        float_cmp(n.bits, m.bits) == Ordering::Equal,
        float_cmp(n.bits, x.bits) == Ordering::Less,
        float_cmp(x.bits, n.bits) == Ordering::Greater,
{
}

/// Both zeros compare equal though their bits differ.
pub proof fn lemma_signed_zeros_equal()
    ensures
        float_cmp(0, SIGN_BIT) == Ordering::Equal,
{
}

} // verus!
