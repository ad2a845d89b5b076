//! Hybrid timestamps: a physical millisecond part and a logical counter.

use vstd::prelude::*;

verus! {

/// Number of low bits that hold the logical counter.
pub const TSO_PHYSICAL_SHIFT_BITS: u64 = 18;

/// Number of logical ticks in one physical millisecond, `2^18`.
pub const TSO_LOGICAL_SPAN: u64 = 0x4_0000;

/// The physical part of a raw timestamp.
pub open spec fn physical_of(raw: u64) -> u64 {
    raw / TSO_LOGICAL_SPAN
}

/// The logical part of a raw timestamp.
pub open spec fn logical_of(raw: u64) -> u64 {
    raw % TSO_LOGICAL_SPAN
}

/// A 64-bit timestamp. The high 46 bits are wall-clock milliseconds, the low
/// 18 bits a logical counter; the raw value orders timestamps. The greatest
/// raw value is reserved and means "unbounded".
#[derive(Clone, Copy, Debug, PartialEq, Eq, Structural, Hash)]
pub struct TimeStamp(pub u64);

impl TimeStamp {
    /// The physical part, in milliseconds.
    pub open spec fn spec_physical(self) -> u64 {
        physical_of(self.0)
    }

    /// The logical counter.
    pub open spec fn spec_logical(self) -> u64 {
        logical_of(self.0)
    }

    /// Whether this is the reserved "unbounded" timestamp.
    pub open spec fn spec_is_max(self) -> bool {
        self.0 == u64::MAX
    }

    /// Whether this is the zero timestamp.
    pub open spec fn spec_is_zero(self) -> bool {
        self.0 == 0
    }

    /// The timestamp with the given parts.
    pub open spec fn spec_compose(physical: u64, logical: u64) -> TimeStamp {
        TimeStamp((physical * TSO_LOGICAL_SPAN + logical) as u64)
    }

    /// Builds a timestamp from its two parts.
    #[verifier::when_used_as_spec(spec_compose)]
    pub fn compose(physical: u64, logical: u64) -> (ts: TimeStamp)
        requires
            physical * TSO_LOGICAL_SPAN + logical <= u64::MAX,
        ensures
            ts == TimeStamp::spec_compose(physical, logical),
            ts.0 == physical * TSO_LOGICAL_SPAN + logical,
            logical < TSO_LOGICAL_SPAN ==> ts.spec_physical() == physical && ts.spec_logical()
                == logical,
    {
        assert(physical <= 0x3fff_ffff_ffff) by (nonlinear_arith)
            requires
                physical * 0x4_0000 + logical <= u64::MAX,
                logical >= 0,
        ;
        assert((physical << 18) == physical * 0x4_0000) by (bit_vector)
            requires
                physical <= 0x3fff_ffff_ffff,
        ;
        TimeStamp((physical << TSO_PHYSICAL_SHIFT_BITS) + logical)
    }

    /// The zero timestamp, which stands for "not set".
    pub fn zero() -> (ts: TimeStamp)
        ensures
            ts.0 == 0,
    {
        TimeStamp(0)
    }

    /// The reserved "unbounded" timestamp.
    pub fn max() -> (ts: TimeStamp)
        ensures
            ts.0 == u64::MAX,
    {
        TimeStamp(u64::MAX)
    }

    /// Wraps a raw value.
    pub fn new(ts: u64) -> (res: TimeStamp)
        ensures
            res.0 == ts,
    {
        TimeStamp(ts)
    }

    /// The physical part, in milliseconds.
    #[verifier::when_used_as_spec(spec_physical)]
    pub fn physical(self) -> (p: u64)
        ensures
            p == self.spec_physical(),
    {
        let raw: u64 = self.0;
        assert((raw >> 18) == raw / 0x4_0000) by (bit_vector);
        raw >> TSO_PHYSICAL_SHIFT_BITS
    }

    /// The logical counter.
    #[verifier::when_used_as_spec(spec_logical)]
    pub fn logical(self) -> (l: u64)
        ensures
            l == self.spec_logical(),
    {
        let raw: u64 = self.0;
        assert((raw & 0x3_ffff) == raw % 0x4_0000) by (bit_vector);
        raw & (TSO_LOGICAL_SPAN - 1)
    }

    /// The timestamp one logical tick later.
    pub fn next(self) -> (ts: TimeStamp)
        requires
            !self.spec_is_max(),
        ensures
            ts.0 == self.0 + 1,
    {
        TimeStamp(self.0 + 1)
    }

    /// The timestamp one logical tick earlier.
    pub fn prev(self) -> (ts: TimeStamp)
        requires
            !self.spec_is_zero(),
        ensures
            ts.0 == self.0 - 1,
    {
        TimeStamp(self.0 - 1)
    }

    /// Whether this is the zero timestamp.
    #[verifier::when_used_as_spec(spec_is_zero)]
    pub fn is_zero(self) -> (b: bool)
        ensures
            b == self.spec_is_zero(),
    {
        self.0 == 0
    }

    /// Whether this is the reserved "unbounded" timestamp.
    #[verifier::when_used_as_spec(spec_is_max)]
    pub fn is_max(self) -> (b: bool)
        ensures
            b == self.spec_is_max(),
    {
        self.0 == u64::MAX
    }

    /// The raw value.
    pub fn into_inner(self) -> (raw: u64)
        ensures
            raw == self.0,
    {
        self.0
    }
}

impl From<u64> for TimeStamp {
    fn from(ts: u64) -> (res: TimeStamp) {
        TimeStamp(ts)
    }
}

impl vstd::std_specs::convert::FromSpecImpl<u64> for TimeStamp {
    open spec fn obeys_from_spec() -> bool {
        true
    }

    open spec fn from_spec(ts: u64) -> TimeStamp {
        TimeStamp(ts)
    }
}

/// The later of two timestamps.
pub open spec fn later_of(a: TimeStamp, b: TimeStamp) -> TimeStamp {
    if b.0 > a.0 {
        b
    } else {
        a
    }
}

/// The order of raw values is the lexicographic order of
/// `(physical, logical)` pairs.
pub proof fn lemma_order_is_lexicographic(a: TimeStamp, b: TimeStamp)
    ensures
        a.0 < b.0 <==> (a.spec_physical() < b.spec_physical() || (a.spec_physical()
            == b.spec_physical() && a.spec_logical() < b.spec_logical())),
        a == b <==> (a.spec_physical() == b.spec_physical() && a.spec_logical()
            == b.spec_logical()),
{
    let x: u64 = a.0;
    let y: u64 = b.0;
    assert(x == (x / 0x4_0000) * 0x4_0000 + x % 0x4_0000);
    assert(y == (y / 0x4_0000) * 0x4_0000 + y % 0x4_0000);
}

} // verus!
