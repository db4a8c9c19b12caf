//! Unsigned 256-bit amounts of the escrowed currency.
use vstd::prelude::*;

verus! {

/// 2^128, the weight of the high half of an [`Amount`].
pub open spec fn half_base() -> nat {
    0x1_0000_0000_0000_0000_0000_0000_0000_0000nat
}

/// An unsigned 256-bit amount, held as two 128-bit halves.
#[derive(Clone, Copy, Debug, PartialEq, Eq, Structural)]
pub struct Amount {
    /// The upper 128 bits.
    pub hi: u128,
    /// The lower 128 bits.
    pub lo: u128,
}

impl View for Amount {
    type V = nat;

    open spec fn view(&self) -> nat {
        self.hi as nat * half_base() + self.lo as nat
    }
}

proof fn lemma_half_base_bounds(x: u128)
    ensures
        (x as nat) < half_base(),
{
}

/// The value of the halves decides the order: a larger high half always wins.
proof fn lemma_order(a: Amount, b: Amount)
    ensures
        a.hi < b.hi ==> a@ < b@,
        a.hi == b.hi ==> (a@ <= b@ <==> a.lo <= b.lo),
{
    let base = half_base() as int;
    let (ah, al, bh, bl) = (a.hi as int, a.lo as int, b.hi as int, b.lo as int);
    assert(0 <= al < base && 0 <= bl < base);
    if ah < bh {
        assert(ah * base + base <= bh * base) by (nonlinear_arith)
            requires ah < bh, base > 0;
    }
}

impl Amount {
    /// Zero.
    pub fn zero() -> (r: Amount)
        ensures
            r@ == 0,
    {
        Amount { hi: 0, lo: 0 }
    }

    /// An amount that fits in 128 bits.
    pub fn from_u128(v: u128) -> (r: Amount)
        ensures
            r@ == v as nat,
    {
        Amount { hi: 0, lo: v }
    }

    /// Whether this amount is zero.
    pub fn is_zero(&self) -> (r: bool)
        ensures
            r == (self@ == 0),
    {
        self.hi == 0 && self.lo == 0
    }

    /// Whether this amount is at most `other`.
    pub fn le(&self, other: &Amount) -> (r: bool)
        ensures
            r == (self@ <= other@),
    {
        proof {
            lemma_half_base_bounds(self.lo);
            lemma_half_base_bounds(other.lo);
            lemma_order(*self, *other);
            lemma_order(*other, *self);
        }
        self.hi < other.hi || (self.hi == other.hi && self.lo <= other.lo)
    }
}

} // verus!
