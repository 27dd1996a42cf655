//! Plain values shared by every component: account addresses, 32-byte
//! hashes, 256-bit amounts and time spans.

use vstd::prelude::*;

verus! {

/// Two to the power 64.
pub open spec fn pow2_64() -> nat {
    0x1_0000_0000_0000_0000nat
}

/// Two to the power 128.
pub open spec fn pow2_128() -> nat {
    0x1_0000_0000_0000_0000_0000_0000_0000_0000nat
}

/// Two to the power 192.
pub open spec fn pow2_192() -> nat {
    0x1_0000_0000_0000_0000_0000_0000_0000_0000_0000_0000_0000_0000nat
}

/// Two to the power 256: one more than the largest amount.
pub open spec fn pow2_256() -> nat {
    0x1_0000_0000_0000_0000_0000_0000_0000_0000_0000_0000_0000_0000_0000_0000_0000_0000nat
}

/// Ten to the power 18: the number of smallest units in one ether.
pub const WEI_PER_ETHER: u64 = 1_000_000_000_000_000_000;

/// Nanoseconds in one second.
pub const NANOS_PER_SEC: u32 = 1_000_000_000;

/// An unsigned 256-bit quantity, as the ledger counts tokens, prices and
/// sequence numbers. The four words are stored least significant first.
#[derive(Clone, Copy, Debug, PartialEq, Eq, Hash, Structural)]
pub struct Amount {
    pub w0: u64,
    pub w1: u64,
    pub w2: u64,
    pub w3: u64,
}

/// Adds two words and a carry; returns the low word and the carry out.
pub(crate) fn add_word(a: u64, b: u64, carry: bool) -> (r: (u64, bool))
    ensures
        r.0 + (if r.1 { pow2_64() } else { 0 }) == a + b + (if carry { 1nat } else { 0 }),
{
    let c: u128 = if carry { 1 } else { 0 };
    let sum: u128 = a as u128 + b as u128 + c;
    if sum >= 0x1_0000_0000_0000_0000 {
        ((sum - 0x1_0000_0000_0000_0000) as u64, true)
    } else {
        (sum as u64, false)
    }
}

impl Amount {
    /// The number this amount stands for.
    pub open spec fn value(self) -> nat {
        self.w0 as nat + self.w1 as nat * pow2_64() + self.w2 as nat * pow2_128() + self.w3 as nat
            * pow2_192()
    }

    /// The number that the two low words stand for.
    pub open spec fn low_two(self) -> nat {
        self.w0 as nat + self.w1 as nat * pow2_64()
    }

    /// The number that the three low words stand for.
    pub open spec fn low_three(self) -> nat {
        self.w0 as nat + self.w1 as nat * pow2_64() + self.w2 as nat * pow2_128()
    }

    /// The amount zero.
    pub fn zero() -> (r: Amount)
        ensures
            r.value() == 0,
    {
        Amount { w0: 0, w1: 0, w2: 0, w3: 0 }
    }

    /// The amount zero, word by word.
    pub fn zero_words() -> (r: Amount)
        ensures
            r == (Amount { w0: 0, w1: 0, w2: 0, w3: 0 }),
    {
        Amount { w0: 0, w1: 0, w2: 0, w3: 0 }
    }

    /// The amount that stands for `n`.
    pub fn from_u64(n: u64) -> (r: Amount)
        ensures
            r.value() == n,
    {
        Amount { w0: n, w1: 0, w2: 0, w3: 0 }
    }

    /// The number of smallest units in `units` whole ether.
    pub fn from_ether(units: u64) -> (r: Amount)
        ensures
            r.value() == units as nat * WEI_PER_ETHER as nat,
    {
        let product: u128 = units as u128 * 1_000_000_000_000_000_000u128;
        let low: u128 = product % 0x1_0000_0000_0000_0000;
        let high: u128 = product / 0x1_0000_0000_0000_0000;
        Amount { w0: low as u64, w1: high as u64, w2: 0, w3: 0 }
    }

    /// Whether this amount is zero.
    pub fn is_zero(self) -> (r: bool)
        ensures
            r == (self.value() == 0),
    {
        self.w0 == 0 && self.w1 == 0 && self.w2 == 0 && self.w3 == 0
    }

    /// Whether this amount is smaller than `other`.
    pub fn lt(self, other: Amount) -> (r: bool)
        ensures
            r == (self.value() < other.value()),
    {
        if self.w3 != other.w3 {
            self.w3 < other.w3
        } else if self.w2 != other.w2 {
            self.w2 < other.w2
        } else if self.w1 != other.w1 {
            self.w1 < other.w1
        } else {
            self.w0 < other.w0
        }
    }

    /// Whether this amount is larger than `other`.
    pub fn gt(self, other: Amount) -> (r: bool)
        ensures
            r == (self.value() > other.value()),
    {
        other.lt(self)
    }

    /// The sum of two amounts, or `None` where it does not fit in 256 bits.
    pub fn checked_add(self, other: Amount) -> (r: Option<Amount>)
        ensures
            self.value() + other.value() < pow2_256() ==> r.is_some() && r.unwrap().value()
                == self.value() + other.value(),
            self.value() + other.value() >= pow2_256() ==> r.is_none(),
    {
        let (w0, c0) = add_word(self.w0, other.w0, false);
        let (w1, c1) = add_word(self.w1, other.w1, c0);
        let (w2, c2) = add_word(self.w2, other.w2, c1);
        let (w3, c3) = add_word(self.w3, other.w3, c2);
        proof {
            let sum = Amount { w0, w1, w2, w3 };
            assert(self.value() + other.value() == sum.value() + (if c3 {
                pow2_256()
            } else {
                0
            })) by (nonlinear_arith)
                requires
                    w0 + (if c0 { pow2_64() } else { 0 }) == self.w0 + other.w0,
                    w1 + (if c1 { pow2_64() } else { 0 }) == self.w1 + other.w1 + (if c0 {
                        1nat
                    } else {
                        0
                    }),
                    w2 + (if c2 { pow2_64() } else { 0 }) == self.w2 + other.w2 + (if c1 {
                        1nat
                    } else {
                        0
                    }),
                    w3 + (if c3 { pow2_64() } else { 0 }) == self.w3 + other.w3 + (if c2 {
                        1nat
                    } else {
                        0
                    }),
                    pow2_64() * pow2_64() == pow2_128(),
                    pow2_128() * pow2_64() == pow2_192(),
                    pow2_192() * pow2_64() == pow2_256(),
                    sum == (Amount { w0, w1, w2, w3 }),
            ;
            lemma_amount_bounded(sum);
        }
        if c3 {
            None
        } else {
            Some(Amount { w0, w1, w2, w3 })
        }
    }

    /// This amount as a 32-bit number, or `None` where it does not fit.
    pub fn to_u32(self) -> (r: Option<u32>)
        ensures
            self.value() <= u32::MAX ==> r == Some(self.value() as u32),
            self.value() > u32::MAX ==> r.is_none(),
    {
        if self.w3 == 0 && self.w2 == 0 && self.w1 == 0 && self.w0 <= 0xFFFF_FFFF {
            Some(self.w0 as u32)
        } else {
            None
        }
    }
}

/// Two amounts that stand for the same number are the same amount.
pub proof fn lemma_amount_value_injective(a: Amount, b: Amount)
    requires
        a.value() == b.value(),
    ensures
        a == b,
{
    lemma_amount_prefix_bounded(a);
    lemma_amount_prefix_bounded(b);
    if a.w3 != b.w3 {
        assert(false) by (nonlinear_arith)
            requires
                a.w3 != b.w3,
                a.low_three() + a.w3 * pow2_192() == b.low_three() + b.w3 * pow2_192(),
                a.low_three() < pow2_192(),
                b.low_three() < pow2_192(),
        ;
    }
    if a.w2 != b.w2 {
        assert(false) by (nonlinear_arith)
            requires
                a.w2 != b.w2,
                a.low_two() + a.w2 * pow2_128() == b.low_two() + b.w2 * pow2_128(),
                a.low_two() < pow2_128(),
                b.low_two() < pow2_128(),
        ;
    }
    if a.w1 != b.w1 {
        assert(false) by (nonlinear_arith)
            requires
                a.w1 != b.w1,
                a.w0 + a.w1 * pow2_64() == b.w0 + b.w1 * pow2_64(),
                a.w0 < pow2_64(),
                b.w0 < pow2_64(),
        ;
    }
}

/// The low words of an amount stay below the weight of the next word.
proof fn lemma_amount_prefix_bounded(a: Amount)
    ensures
        a.low_two() < pow2_128(),
        a.low_three() < pow2_192(),
        a.value() == a.low_three() + a.w3 * pow2_192(),
        a.value() < pow2_256(),
{
    assert(a.w1 * pow2_64() <= (pow2_64() - 1) * pow2_64()) by (nonlinear_arith)
        requires
            a.w1 <= pow2_64() - 1,
    ;
    assert(a.w2 * pow2_128() <= (pow2_64() - 1) * pow2_128()) by (nonlinear_arith)
        requires
            a.w2 <= pow2_64() - 1,
    ;
    assert(a.w3 * pow2_192() <= (pow2_64() - 1) * pow2_192()) by (nonlinear_arith)
        requires
            a.w3 <= pow2_64() - 1,
    ;
}

/// Every amount is below two to the power 256.
pub proof fn lemma_amount_bounded(a: Amount)
    ensures
        a.value() < pow2_256(),
{
    lemma_amount_prefix_bounded(a);
}

/// A 20-byte account or contract address.
#[derive(Clone, Copy, Debug, Hash)]
pub struct Address {
    pub bytes: [u8; 20],
}

impl View for Address {
    type V = Seq<u8>;

    open spec fn view(&self) -> Seq<u8> {
        self.bytes@
    }
}

impl PartialEq for Address {
    fn eq(&self, other: &Address) -> (r: bool) {
        let mut i: usize = 0;
        while i < 20
            invariant
                i <= 20,
                forall|j: int| 0 <= j < i ==> self.bytes@[j] == other.bytes@[j],
            decreases 20 - i,
        {
            if self.bytes[i] != other.bytes[i] {
                return false;
            }
            i += 1;
        }
        assert(self.bytes@ =~= other.bytes@);
        true
    }
}

impl Eq for Address {

}

impl vstd::std_specs::cmp::PartialEqSpecImpl for Address {
    open spec fn obeys_eq_spec() -> bool {
        true
    }

    open spec fn eq_spec(&self, other: &Address) -> bool {
        self.bytes@ == other.bytes@
    }
}

/// A 32-byte hash: an application selector or the key of an event parameter.
#[derive(Clone, Copy, Debug, Hash)]
pub struct Hash32 {
    pub bytes: [u8; 32],
}

impl View for Hash32 {
    type V = Seq<u8>;

    open spec fn view(&self) -> Seq<u8> {
        self.bytes@
    }
}

impl PartialEq for Hash32 {
    fn eq(&self, other: &Hash32) -> (r: bool) {
        let mut i: usize = 0;
        while i < 32
            invariant
                i <= 32,
                forall|j: int| 0 <= j < i ==> self.bytes@[j] == other.bytes@[j],
            decreases 32 - i,
        {
            if self.bytes[i] != other.bytes[i] {
                return false;
            }
            i += 1;
        }
        assert(self.bytes@ =~= other.bytes@);
        true
    }
}

impl Eq for Hash32 {

}

impl vstd::std_specs::cmp::PartialEqSpecImpl for Hash32 {
    open spec fn obeys_eq_spec() -> bool {
        true
    }

    open spec fn eq_spec(&self, other: &Hash32) -> bool {
        self.bytes@ == other.bytes@
    }
}

/// A span of time: whole seconds and the nanoseconds beyond them.
#[derive(Clone, Copy, Debug, PartialEq, Eq, Hash, Structural)]
pub struct TimeSpan {
    pub secs: u64,
    pub nanos: u32,
}

impl TimeSpan {
    /// The nanoseconds stay below one second.
    pub open spec fn wf(self) -> bool {
        self.nanos < NANOS_PER_SEC
    }

    /// The whole span in nanoseconds.
    pub open spec fn total_nanos(self) -> nat {
        self.secs as nat * NANOS_PER_SEC as nat + self.nanos as nat
    }

    /// A span of `secs` seconds and `nanos` nanoseconds. Nanoseconds beyond
    /// one second are carried over into the seconds, which must have room
    /// for them.
    pub fn new(secs: u64, nanos: u32) -> (r: TimeSpan)
        requires
            secs + nanos / NANOS_PER_SEC <= u64::MAX,
        ensures
            r.wf(),
            r.secs == secs + nanos / NANOS_PER_SEC,
            r.nanos == nanos % NANOS_PER_SEC,
            r.total_nanos() == secs as nat * NANOS_PER_SEC as nat + nanos as nat,
    {
        let carry: u32 = nanos / NANOS_PER_SEC;
        TimeSpan { secs: secs + carry as u64, nanos: nanos % NANOS_PER_SEC }
    }

    /// The empty span.
    pub fn zero() -> (r: TimeSpan)
        ensures
            r.wf(),
            r.total_nanos() == 0,
    {
        TimeSpan { secs: 0, nanos: 0 }
    }

    /// A span of whole seconds.
    pub fn from_secs(secs: u64) -> (r: TimeSpan)
        ensures
            r.wf(),
            r.secs == secs,
            r.nanos == 0,
    {
        TimeSpan { secs, nanos: 0 }
    }

    /// Whether this span is shorter than `other`.
    pub fn lt(self, other: TimeSpan) -> (r: bool)
        requires
            self.wf(),
            other.wf(),
        ensures
            r == (self.total_nanos() < other.total_nanos()),
    {
        self.secs < other.secs || (self.secs == other.secs && self.nanos < other.nanos)
    }

    /// Whether this span is at most as long as `other`.
    pub fn le(self, other: TimeSpan) -> (r: bool)
        requires
            self.wf(),
            other.wf(),
        ensures
            r == (self.total_nanos() <= other.total_nanos()),
    {
        !other.lt(self)
    }

    /// This span shortened by `other`, for spans of which `other` is the
    /// shorter one.
    pub open spec fn spec_minus(self, other: TimeSpan) -> TimeSpan {
        if self.nanos >= other.nanos {
            TimeSpan {
                secs: (self.secs - other.secs) as u64,
                nanos: (self.nanos - other.nanos) as u32,
            }
        } else {
            TimeSpan {
                secs: (self.secs - other.secs - 1) as u64,
                nanos: (self.nanos + NANOS_PER_SEC - other.nanos) as u32,
            }
        }
    }

    /// The distance between two spans.
    pub open spec fn spec_abs_diff(self, other: TimeSpan) -> TimeSpan {
        if other.total_nanos() < self.total_nanos() {
            self.spec_minus(other)
        } else {
            other.spec_minus(self)
        }
    }

    /// The distance between two spans.
    pub fn abs_diff(self, other: TimeSpan) -> (r: TimeSpan)
        requires
            self.wf(),
            other.wf(),
        ensures
            r.wf(),
            r == self.spec_abs_diff(other),
            self.total_nanos() >= other.total_nanos() ==> r.total_nanos() == self.total_nanos()
                - other.total_nanos(),
            self.total_nanos() < other.total_nanos() ==> r.total_nanos() == other.total_nanos()
                - self.total_nanos(),
    {
        if other.lt(self) {
            self.minus(other)
        } else {
            other.minus(self)
        }
    }

    /// This span shortened by `other`, which is no longer than it.
    fn minus(self, other: TimeSpan) -> (r: TimeSpan)
        requires
            self.wf(),
            other.wf(),
            other.total_nanos() <= self.total_nanos(),
        ensures
            r.wf(),
            r == self.spec_minus(other),
            r.total_nanos() == self.total_nanos() - other.total_nanos(),
    {
        if self.nanos >= other.nanos {
            TimeSpan { secs: self.secs - other.secs, nanos: self.nanos - other.nanos }
        } else {
            TimeSpan {
                secs: self.secs - other.secs - 1,
                nanos: self.nanos + NANOS_PER_SEC - other.nanos,
            }
        }
    }
}

} // verus!
