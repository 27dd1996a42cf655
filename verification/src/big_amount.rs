//! Amounts without a bound: the running totals of the reports ledger.
//!
//! One report is an amount of 256 bits; the sum of many is not. A total is
//! kept as words of 64 bits, least significant first, as many as it needs.

use crate::primitives::{add_word, pow2_128, pow2_192, pow2_64, Amount};
use vstd::prelude::*;

verus! {

/// Two to the power 64, to the power `n`: the weight of the word at `n`.
pub open spec fn pow64(n: nat) -> nat
    decreases n,
{
    if n == 0 {
        1
    } else {
        pow2_64() * pow64((n - 1) as nat)
    }
}

/// The word at position `i`; zero behind the last word.
pub open spec fn limb_at(limbs: Seq<u64>, i: int) -> nat {
    if 0 <= i < limbs.len() {
        limbs[i] as nat
    } else {
        0
    }
}

/// The number that the first `n` words stand for.
pub open spec fn prefix_value(limbs: Seq<u64>, n: nat) -> nat
    decreases n,
{
    if n == 0 {
        0
    } else {
        prefix_value(limbs, (n - 1) as nat) + limb_at(limbs, n - 1) * pow64((n - 1) as nat)
    }
}

/// The number that the words stand for.
pub open spec fn limbs_value(limbs: Seq<u64>) -> nat {
    prefix_value(limbs, limbs.len())
}

/// An unsigned amount of any size.
#[derive(Clone, Debug, PartialEq, Eq)]
pub struct BigAmount {
    /// The words of the amount, least significant first, the last one not
    /// zero.
    pub limbs: Vec<u64>,
}

/// The first words decide the number that they stand for.
proof fn lemma_prefix_agrees(a: Seq<u64>, b: Seq<u64>, n: nat)
    requires
        forall|i: int| 0 <= i < n ==> limb_at(a, i) == limb_at(b, i),
    ensures
        prefix_value(a, n) == prefix_value(b, n),
    decreases n,
{
    if n > 0 {
        lemma_prefix_agrees(a, b, (n - 1) as nat);
    }
}

/// Behind the last word nothing is added.
proof fn lemma_prefix_beyond(limbs: Seq<u64>, n: nat)
    requires
        n >= limbs.len(),
    ensures
        prefix_value(limbs, n) == limbs_value(limbs),
    decreases n,
{
    if n > limbs.len() {
        lemma_prefix_beyond(limbs, (n - 1) as nat);
        assert(limb_at(limbs, n - 1) == 0);
        assert(0 * pow64((n - 1) as nat) == 0);
    }
}

/// One more word adds its weight.
proof fn lemma_value_push(limbs: Seq<u64>, word: u64)
    ensures
        limbs_value(limbs.push(word)) == limbs_value(limbs) + word as nat * pow64(limbs.len()),
{
    let longer = limbs.push(word);
    assert forall|i: int| 0 <= i < limbs.len() implies limb_at(limbs, i) == limb_at(longer, i) by {}
    lemma_prefix_agrees(limbs, longer, limbs.len());
    assert(limb_at(longer, limbs.len() as int) == word as nat);
}

/// A zero word at the end adds nothing.
proof fn lemma_value_drop_zero(limbs: Seq<u64>)
    requires
        limbs.len() > 0,
        limbs.last() == 0,
    ensures
        limbs_value(limbs.drop_last()) == limbs_value(limbs),
{
    let shorter = limbs.drop_last();
    assert(shorter.push(0u64) =~= limbs);
    lemma_value_push(shorter, 0u64);
    assert(0 * pow64(shorter.len()) == 0);
}

impl BigAmount {
    /// The number this amount stands for.
    pub open spec fn value(&self) -> nat {
        limbs_value(self.limbs@)
    }

    /// The last word is not zero, so that equal amounts have equal words.
    pub open spec fn wf(&self) -> bool {
        self.limbs@.len() == 0 || self.limbs@.last() != 0
    }

    /// The amount zero.
    pub fn zero() -> (r: BigAmount)
        ensures
            r.wf(),
            r.value() == 0,
    {
        BigAmount { limbs: Vec::new() }
    }

    /// Whether this amount is zero.
    pub fn is_zero(&self) -> (r: bool)
        requires
            self.wf(),
        ensures
            r == (self.value() == 0),
    {
        proof {
            if self.limbs@.len() > 0 {
                let n = (self.limbs@.len() - 1) as nat;
                lemma_pow64_positive(n);
                assert(self.limbs@.last() as nat * pow64(n) >= pow64(n)) by (nonlinear_arith)
                    requires
                        self.limbs@.last() as nat >= 1,
                        pow64(n) >= 1,
                ;
            }
        }
        self.limbs.len() == 0
    }

    /// Takes the zero words off the end.
    fn trimmed(limbs: Vec<u64>) -> (r: BigAmount)
        ensures
            r.wf(),
            r.value() == limbs_value(limbs@),
    {
        let ghost given = limbs@;
        let mut kept = limbs;
        while kept.len() > 0 && kept[kept.len() - 1] == 0
            invariant
                limbs_value(kept@) == limbs_value(given),
            decreases kept.len(),
        {
            proof {
                lemma_value_drop_zero(kept@);
            }
            kept.pop();
        }
        BigAmount { limbs: kept }
    }

    /// An amount of 256 bits as an amount without a bound.
    pub fn from_amount(amount: Amount) -> (r: BigAmount)
        ensures
            r.wf(),
            r.value() == amount.value(),
    {
        let mut limbs: Vec<u64> = Vec::new();
        limbs.push(amount.w0);
        limbs.push(amount.w1);
        limbs.push(amount.w2);
        limbs.push(amount.w3);
        proof {
            let s = limbs@;
            assert(pow64(0) == 1);
            assert(pow64(1) == pow2_64());
            assert(pow64(2) == pow2_128()) by {
                assert(pow2_64() * pow2_64() == pow2_128());
            }
            assert(pow64(3) == pow2_192()) by {
                assert(pow2_64() * pow2_128() == pow2_192());
            }
            assert(prefix_value(s, 1) == amount.w0 as nat) by {
                assert(prefix_value(s, 0) == 0);
                assert(amount.w0 as nat * 1 == amount.w0 as nat);
            }
            assert(prefix_value(s, 2) == prefix_value(s, 1) + amount.w1 as nat * pow64(1));
            assert(prefix_value(s, 3) == prefix_value(s, 2) + amount.w2 as nat * pow64(2));
            assert(prefix_value(s, 4) == prefix_value(s, 3) + amount.w3 as nat * pow64(3));
        }
        Self::trimmed(limbs)
    }

    /// A copy of this amount.
    pub fn duplicate(&self) -> (r: BigAmount)
        ensures
            r.limbs@ == self.limbs@,
            r.value() == self.value(),
            r.wf() == self.wf(),
    {
        let mut limbs: Vec<u64> = Vec::new();
        let mut i: usize = 0;
        while i < self.limbs.len()
            invariant
                i <= self.limbs.len(),
                limbs@ == self.limbs@.take(i as int),
            decreases self.limbs.len() - i,
        {
            limbs.push(self.limbs[i]);
            assert(self.limbs@.take(i as int + 1) =~= self.limbs@.take(i as int).push(
                self.limbs@[i as int],
            ));
            i += 1;
        }
        assert(self.limbs@.take(i as int) =~= self.limbs@);
        BigAmount { limbs }
    }

    /// The sum of two amounts, whatever their size.
    pub fn add(&self, other: &BigAmount) -> (r: BigAmount)
        ensures
            r.wf(),
            r.value() == self.value() + other.value(),
    {
        let n = if self.limbs.len() >= other.limbs.len() {
            self.limbs.len()
        } else {
            other.limbs.len()
        };
        let mut limbs: Vec<u64> = Vec::new();
        let mut carry = false;
        let mut i: usize = 0;
        while i < n
            invariant
                i <= n,
                n >= self.limbs@.len(),
                n >= other.limbs@.len(),
                limbs@.len() == i,
                limbs_value(limbs@) + (if carry { pow64(i as nat) } else { 0 }) == prefix_value(
                    self.limbs@,
                    i as nat,
                ) + prefix_value(other.limbs@, i as nat),
            decreases n - i,
        {
            let x = if i < self.limbs.len() { self.limbs[i] } else { 0 };
            let y = if i < other.limbs.len() { other.limbs[i] } else { 0 };
            let (word, next) = add_word(x, y, carry);
            proof {
                lemma_value_push(limbs@, word);
                let p = pow64(i as nat);
                assert(pow64((i + 1) as nat) == pow2_64() * p);
                assert(limb_at(self.limbs@, i as int) == x as nat);
                assert(limb_at(other.limbs@, i as int) == y as nat);
                let c_in: nat = if carry { 1 } else { 0 };
                let c_out: nat = if next { 1 } else { 0 };
                assert(word as nat * p + c_out * (pow2_64() * p) == (x as nat + y as nat + c_in)
                    * p) by (nonlinear_arith)
                    requires
                        word as nat + c_out * pow2_64() == x as nat + y as nat + c_in,
                ;
                assert((x as nat + y as nat + c_in) * p == x as nat * p + y as nat * p + c_in * p)
                    by (nonlinear_arith);
                assert(c_in * p == (if carry { p } else { 0 })) by (nonlinear_arith)
                    requires
                        c_in == (if carry { 1nat } else { 0 }),
                ;
                assert(c_out * (pow2_64() * p) == (if next { pow2_64() * p } else { 0 }))
                    by (nonlinear_arith)
                    requires
                        c_out == (if next { 1nat } else { 0 }),
                ;
            }
            limbs.push(word);
            carry = next;
            i += 1;
        }
        proof {
            lemma_prefix_beyond(self.limbs@, n as nat);
            lemma_prefix_beyond(other.limbs@, n as nat);
        }
        if carry {
            proof {
                lemma_value_push(limbs@, 1u64);
                assert(1 * pow64(n as nat) == pow64(n as nat));
            }
            limbs.push(1);
        }
        Self::trimmed(limbs)
    }
}

/// Every weight is at least one.
proof fn lemma_pow64_positive(n: nat)
    ensures
        pow64(n) >= 1,
    decreases n,
{
    if n > 0 {
        lemma_pow64_positive((n - 1) as nat);
        assert(pow2_64() * pow64((n - 1) as nat) >= 1) by (nonlinear_arith)
            requires
                pow64((n - 1) as nat) >= 1,
                pow2_64() >= 1,
        ;
    }
}

} // verus!
