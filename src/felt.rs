use vstd::prelude::*;

verus! {

/// Two to the power 128: the weight of the high half of a field element.
pub open spec fn pow2_128() -> nat {
    0x1_0000_0000_0000_0000_0000_0000_0000_0000nat
}

/// The number of values of a 32-bit word.
pub open spec fn pow2_32() -> nat {
    0x1_0000_0000nat
}

/// The field modulus: 2^251 + 17 * 2^192 + 1.
pub open spec fn prime() -> nat {
    0x800000000000011000000000000000000000000000000000000000000000001nat
}

/// A field element, stored as two 128-bit halves.
#[derive(Clone, Copy, Debug, PartialEq, Eq, Structural)]
pub struct Felt252 {
    pub lo: u128,
    pub hi: u128,
}

/// Field elements are ordered by their high halves, then by their low halves.
pub proof fn lemma_felt_le(x: Felt252, y: Felt252)
    ensures
        (x.value() <= y.value()) == (x.hi < y.hi || (x.hi == y.hi && x.lo <= y.lo)),
{
    let p = pow2_128() as int;
    assert(x.lo < p && y.lo < p);
    if x.hi < y.hi {
        assert(x.hi as int * p + p <= y.hi as int * p) by (nonlinear_arith)
            requires x.hi < y.hi, p > 0;
    } else if x.hi > y.hi {
        assert(y.hi as int * p + p <= x.hi as int * p) by (nonlinear_arith)
            requires x.hi > y.hi, p > 0;
    }
}

/// The high half of the field modulus; its low half is 1.
pub const PRIME_HI: u128 = 0x0800_0000_0000_0011_0000_0000_0000_0000;

impl Felt252 {
    /// The number that this element stands for.
    pub open spec fn value(self) -> nat {
        self.hi as nat * pow2_128() + self.lo as nat
    }

    /// A canonical element: below the field modulus.
    pub open spec fn wf(self) -> bool {
        self.value() < prime()
    }

    /// The element with the given halves, where it is below the field modulus.
    pub fn new(lo: u128, hi: u128) -> (r: Option<Felt252>)
        ensures
            (Felt252 { lo, hi }).wf() ==> r == Some(Felt252 { lo, hi }),
            !(Felt252 { lo, hi }).wf() ==> r is None,
    {
        let x = Felt252 { lo, hi };
        proof {
            lemma_felt_le(Felt252 { lo: 1, hi: PRIME_HI }, x);
            assert((Felt252 { lo: 1, hi: PRIME_HI }).value() == prime());
        }
        if hi < PRIME_HI || (hi == PRIME_HI && lo < 1) {
            Some(x)
        } else {
            None
        }
    }

    /// The element that holds a 32-bit word.
    pub fn from_u32(v: u32) -> (r: Felt252)
        ensures
            r.wf(),
            r.value() == v as nat,
            r.hi == 0,
    {
        Felt252 { lo: v as u128, hi: 0 }
    }
}

} // verus!
