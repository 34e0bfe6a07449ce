//! Spans of time as whole nanoseconds.

use vstd::prelude::*;

verus! {

/// Nanoseconds in one second.
pub const NANOS_PER_SECOND: u128 = 1_000_000_000;

/// Nanoseconds in one unit of process accounting time (100 ns).
pub const NANOS_PER_ACCOUNTING_UNIT: u128 = 100;

/// Every span is shorter than this many nanoseconds (2^94).
pub const SPAN_LIMIT: u128 = 0x4000_0000_0000_0000_0000_0000;

/// A non-negative length of time, exact to the nanosecond.
///
/// Wall-clock readings, clock-tick counters and 100 ns accounting counters
/// all convert into it without leaving the type's range.
#[derive(Clone, Copy, Debug, PartialEq, Eq, Structural)]
pub struct TimeSpan {
    nanos: u128,
}

impl View for TimeSpan {
    type V = nat;

    /// The span in nanoseconds.
    closed spec fn view(&self) -> nat {
        self.nanos as nat
    }
}

impl TimeSpan {
    #[verifier::type_invariant]
    spec fn in_range(self) -> bool {
        self.nanos < SPAN_LIMIT
    }

    /// The span of `nanos` nanoseconds, as a value to speak of in contracts.
    pub closed spec fn of_nanos(nanos: nat) -> TimeSpan
        recommends
            nanos < SPAN_LIMIT,
    {
        TimeSpan { nanos: nanos as u128 }
    }

    /// The empty span, as a value to speak of in contracts.
    pub open spec fn empty() -> TimeSpan {
        TimeSpan::of_nanos(0)
    }

    /// A span made of a number of nanoseconds lasts that long.
    pub proof fn lemma_of_nanos_view(nanos: nat)
        requires
            nanos < SPAN_LIMIT,
        ensures
            TimeSpan::of_nanos(nanos)@ == nanos,
    {
    }

    /// The empty span lasts no time.
    pub proof fn lemma_empty_view()
        ensures
            TimeSpan::empty()@ == 0,
    {
    }

    /// The empty span.
    pub fn zero() -> (span: TimeSpan)
        ensures
            span == TimeSpan::empty(),
            span@ == 0,
    {
        TimeSpan { nanos: 0 }
    }

    /// The span of `secs` whole seconds and `subsec_nanos` further nanoseconds.
    pub fn from_secs_nanos(secs: u64, subsec_nanos: u32) -> (span: TimeSpan)
        ensures
            span@ == secs * NANOS_PER_SECOND + subsec_nanos,
            span == TimeSpan::of_nanos((secs * NANOS_PER_SECOND + subsec_nanos) as nat),
    {
        TimeSpan { nanos: secs as u128 * NANOS_PER_SECOND + subsec_nanos as u128 }
    }

    /// The span of `ticks` clock ticks where one second holds `per_second`
    /// of them, rounded down to a whole nanosecond. There is no such span
    /// when a second holds no ticks.
    pub fn from_ticks(ticks: u64, per_second: u64) -> (span: Option<TimeSpan>)
        ensures
            per_second == 0 <==> span is None,
            span matches Some(s) ==> s@ == (ticks * NANOS_PER_SECOND) / (per_second as int),
            span matches Some(s) ==> s == TimeSpan::of_nanos(
                ((ticks * NANOS_PER_SECOND) / (per_second as int)) as nat,
            ),
    {
        if per_second == 0 {
            return None;
        }
        let scaled: u128 = ticks as u128 * NANOS_PER_SECOND;
        let nanos: u128 = scaled / per_second as u128;
        assert(nanos <= scaled) by (nonlinear_arith)
            requires
                nanos == scaled / (per_second as u128),
                per_second > 0,
        ;
        Some(TimeSpan { nanos })
    }

    /// The span counted by a 64-bit accounting counter in 100 ns units,
    /// given as its low and high halves.
    pub fn from_accounting_halves(low: u32, high: u32) -> (span: TimeSpan)
        ensures
            span@ == accounting_units(low, high) * NANOS_PER_ACCOUNTING_UNIT,
            span == TimeSpan::of_nanos(accounting_units(low, high) * NANOS_PER_ACCOUNTING_UNIT as nat),
    {
        let units: u64 = join_halves(low, high);
        TimeSpan { nanos: units as u128 * NANOS_PER_ACCOUNTING_UNIT }
    }

    /// The span in nanoseconds.
    pub fn as_nanos(&self) -> (nanos: u128)
        ensures
            nanos == self@,
            nanos < SPAN_LIMIT,
    {
        proof {
            use_type_invariant(self);
        }
        self.nanos
    }
}

/// The 64-bit count whose low 32 bits are `low` and whose high 32 bits are `high`.
pub open spec fn accounting_units(low: u32, high: u32) -> nat {
    (high as nat) * 0x1_0000_0000 + (low as nat)
}

/// Joins the two halves of a 64-bit counter.
pub fn join_halves(low: u32, high: u32) -> (units: u64)
    ensures
        units == accounting_units(low, high),
{
    let units: u64 = ((high as u64) << 32) | (low as u64);
    assert(((high as u64) << 32) | (low as u64) == (high as u64) * 0x1_0000_0000 + (low as u64))
        by (bit_vector);
    units
}

} // verus!
