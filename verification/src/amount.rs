//! Amounts of the native token: unsigned integers of 512 bits.

use vstd::prelude::*;
use vstd::std_specs::cmp::PartialEqSpecImpl;

verus! {

/// The number that a sequence of 64-bit limbs stands for, the least
/// significant limb first.
pub open spec fn limbs_value(limbs: Seq<u64>) -> nat
    decreases limbs.len(),
{
    if limbs.len() == 0 {
        0
    } else {
        limbs[0] as nat + 0x1_0000_0000_0000_0000 * limbs_value(limbs.drop_first())
    }
}

/// Limbs that are all zero stand for zero.
pub proof fn lemma_zero_limbs(limbs: Seq<u64>)
    requires
        forall|i: int| 0 <= i < limbs.len() ==> limbs[i] == 0,
    ensures
        limbs_value(limbs) == 0,
    decreases limbs.len(),
{
    if limbs.len() > 0 {
        lemma_zero_limbs(limbs.drop_first());
    }
}

/// Two sequences of limbs of one length stand for the same number only if
/// they are the same sequence.
pub proof fn lemma_limbs_injective(a: Seq<u64>, b: Seq<u64>)
    requires
        a.len() == b.len(),
        limbs_value(a) == limbs_value(b),
    ensures
        a == b,
    decreases a.len(),
{
    if a.len() > 0 {
        let high_a = limbs_value(a.drop_first());
        let high_b = limbs_value(b.drop_first());
        assert(a[0] == b[0] && high_a == high_b) by (nonlinear_arith)
            requires
                a[0] as nat + 0x1_0000_0000_0000_0000 * high_a == b[0] as nat
                    + 0x1_0000_0000_0000_0000 * high_b,
                a[0] < 0x1_0000_0000_0000_0000,
                b[0] < 0x1_0000_0000_0000_0000,
        ;
        lemma_limbs_injective(a.drop_first(), b.drop_first());
        assert(a =~= seq![a[0]] + a.drop_first());
        assert(b =~= seq![b[0]] + b.drop_first());
    }
    assert(a =~= b);
}

/// An amount of the native token.
#[derive(Debug, Clone, Copy, Eq)]
pub struct Amount {
    limbs: [u64; 8],
}

impl View for Amount {
    type V = nat;

    closed spec fn view(&self) -> nat {
        limbs_value(self.limbs@)
    }
}

impl Amount {
    /// The amount whose limbs are given, the least significant first.
    pub fn new(limbs: [u64; 8]) -> (amount: Amount)
        ensures
            amount@ == limbs_value(limbs@),
    {
        Amount { limbs }
    }

    /// The limbs of the amount, the least significant first.
    pub fn limbs(&self) -> (limbs: [u64; 8])
        ensures
            limbs_value(limbs@) == self@,
    {
        self.limbs
    }

    /// Nothing.
    pub fn zero() -> (amount: Amount)
        ensures
            amount@ == 0,
    {
        let amount = Amount { limbs: [0u64; 8] };
        proof {
            lemma_zero_limbs(amount.limbs@);
        }
        amount
    }

    /// The amount of a 64-bit number of units.
    pub fn from_u64(units: u64) -> (amount: Amount)
        ensures
            amount@ == units,
    {
        let mut limbs = [0u64; 8];
        limbs[0] = units;
        let amount = Amount { limbs };
        proof {
            lemma_zero_limbs(amount.limbs@.drop_first());
        }
        amount
    }

    /// Whether the amount is nothing.
    pub fn is_zero(&self) -> (zero: bool)
        ensures
            zero == (self@ == 0),
    {
        let mut i: usize = 0;
        while i < 8
            invariant
                i <= 8,
                forall|j: int| 0 <= j < i ==> self.limbs@[j] == 0,
            decreases 8 - i,
        {
            if self.limbs[i] != 0 {
                proof {
                    if self@ == 0 {
                        let zeros = Seq::new(8, |j: int| 0u64);
                        lemma_zero_limbs(zeros);
                        lemma_limbs_injective(self.limbs@, zeros);
                    }
                }
                return false;
            }
            i += 1;
        }
        proof {
            lemma_zero_limbs(self.limbs@);
        }
        true
    }

    /// Amounts of the same value are the same amount.
    pub proof fn lemma_view_injective(a: Amount, b: Amount)
        ensures
            a@ == b@ <==> a == b,
    {
        if a@ == b@ {
            lemma_limbs_injective(a.limbs@, b.limbs@);
            assert(a.limbs =~= b.limbs);
        }
    }
}

impl PartialEq for Amount {
    fn eq(&self, other: &Amount) -> (equal: bool) {
        let mut i: usize = 0;
        while i < 8
            invariant
                i <= 8,
                forall|j: int| 0 <= j < i ==> self.limbs@[j] == other.limbs@[j],
            decreases 8 - i,
        {
            if self.limbs[i] != other.limbs[i] {
                return false;
            }
            i += 1;
        }
        proof {
            assert(self.limbs@ =~= other.limbs@);
            assert(self.limbs =~= other.limbs);
        }
        true
    }
}

impl PartialEqSpecImpl for Amount {
    open spec fn obeys_eq_spec() -> bool {
        true
    }

    open spec fn eq_spec(&self, other: &Amount) -> bool {
        *self == *other
    }
}

} // verus!
