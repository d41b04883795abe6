//! Network throughput from two readings of an interface's byte counters.

use vstd::prelude::*;
use crate::units::{rate_of, throughput};

verus! {

/// The running byte totals of one network interface.
#[derive(Clone, Copy, Debug, PartialEq, Eq)]
pub struct ByteCounters {
    pub received: u64,
    pub transmitted: u64,
}

/// How far a counter advanced; zero when it went backwards, as it does after
/// a reset or a wraparound.
pub open spec fn advance(before: u64, after: u64) -> nat {
    if after >= before {
        (after - before) as nat
    } else {
        0
    }
}

/// Download and upload throughput between two readings taken `elapsed_ms`
/// apart, in hundredths of a megabit per second. An interface that was
/// missing at either reading has no throughput.
pub open spec fn rate_between(
    before: Option<ByteCounters>,
    after: Option<ByteCounters>,
    elapsed_ms: u64,
) -> (nat, nat) {
    match (before, after) {
        (Some(b), Some(a)) => (
            rate_of(advance(b.received, a.received), elapsed_ms as nat),
            rate_of(advance(b.transmitted, a.transmitted), elapsed_ms as nat),
        ),
        _ => (0, 0),
    }
}

/// A counter that did not advance, whether it stood still, was reset or
/// wrapped around, yields a throughput of exactly zero in its direction,
/// whatever the other direction did and however long the interval was.
pub proof fn lemma_rate_zero_on_wraparound(before: ByteCounters, after: ByteCounters, elapsed_ms: u64)
    ensures
        after.received <= before.received ==> rate_between(Some(before), Some(after), elapsed_ms).0
            == 0,
        after.transmitted <= before.transmitted ==> rate_between(
            Some(before),
            Some(after),
            elapsed_ms,
        ).1 == 0,
{
    if elapsed_ms > 0 {
        vstd::arithmetic::div_mod::lemma_div_basics(1_048_576 * elapsed_ms as int);
    }
}

/// Throughput between two readings of the same interface.
pub fn rate(before: Option<ByteCounters>, after: Option<ByteCounters>, elapsed_ms: u64) -> (r: (
    u64,
    u64,
))
    ensures
        r.0 == rate_between(before, after, elapsed_ms).0,
        r.1 == rate_between(before, after, elapsed_ms).1,
{
    match (before, after) {
        (Some(b), Some(a)) => {
            let down: u64 = a.received.saturating_sub(b.received);
            let up: u64 = a.transmitted.saturating_sub(b.transmitted);
            (throughput(down, elapsed_ms), throughput(up, elapsed_ms))
        },
        _ => (0, 0),
    }
}

} // verus!
