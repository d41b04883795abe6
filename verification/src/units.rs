//! Fixed-point arithmetic shared by the sampler, the alert engine and the
//! renderers.

use vstd::prelude::*;
use vstd::arithmetic::div_mod::{lemma_div_is_ordered, lemma_div_is_ordered_by_denominator, lemma_div_multiples_vanish};

verus! {

/// One hundred percent, in hundredths of a percent.
pub const FULL_SCALE: u32 = 10_000;

/// Bytes in a mebibyte, and bits in a megabit as throughput is reported.
pub const MEBI: u64 = 1_048_576;

/// The sum of a sequence of readings.
pub open spec fn sum_of(values: Seq<u32>) -> nat
    decreases values.len(),
{
    if values.len() == 0 {
        0
    } else {
        sum_of(values.drop_last()) + values.last() as nat
    }
}

/// The arithmetic mean of the readings, rounded down; zero when there are none.
pub open spec fn mean_of(values: Seq<u32>) -> nat {
    if values.len() == 0 {
        0
    } else {
        sum_of(values) / values.len()
    }
}

/// `part` as a share of `whole` in hundredths of a percent, rounded down;
/// zero when `whole` is zero.
pub open spec fn percent_of(part: nat, whole: nat) -> nat {
    if whole == 0 {
        0
    } else {
        part * (FULL_SCALE as nat) / whole
    }
}

/// A per-core-equivalent usage figure as a share of the whole machine;
/// zero when the machine reports no cores.
pub open spec fn share_of_system(raw: nat, core_count: nat) -> nat {
    if core_count == 0 {
        0
    } else {
        raw / core_count
    }
}

/// Throughput in hundredths of a megabit per second for `bytes` moved in
/// `elapsed_ms` milliseconds: bytes to bits, bits to megabits, per second,
/// rounded down; zero when no time has passed.
pub open spec fn rate_of(bytes: nat, elapsed_ms: nat) -> nat {
    if elapsed_ms == 0 {
        0
    } else {
        bytes * 8 * 100 * 1000 / ((MEBI as nat) * elapsed_ms)
    }
}

/// A byte count in hundredths of a mebibyte, rounded down.
pub open spec fn mebi_hundredths(bytes: nat) -> nat {
    bytes * 100 / (MEBI as nat)
}

/// A byte count in hundredths of a megabit, rounded down.
pub open spec fn megabit_hundredths(bytes: nat) -> nat {
    bytes * 8 * 100 / (MEBI as nat)
}

/// Every reading is at most `u32::MAX`, so the sum is at most that many times the count.
pub proof fn lemma_sum_bound(values: Seq<u32>)
    ensures
        sum_of(values) <= values.len() * 0xffff_ffff,
    decreases values.len(),
{
    if values.len() > 0 {
        lemma_sum_bound(values.drop_last());
        assert(values.len() * 0xffff_ffff == values.drop_last().len() * 0xffff_ffff + 0xffff_ffff)
            by (nonlinear_arith)
            requires
                values.drop_last().len() == values.len() - 1,
        ;
    }
}

/// The mean of readings lies within the range of a single reading.
pub proof fn lemma_mean_bound(values: Seq<u32>)
    ensures
        mean_of(values) <= 0xffff_ffff,
{
    if values.len() > 0 {
        let n = values.len() as int;
        lemma_sum_bound(values);
        lemma_div_is_ordered(sum_of(values) as int, n * 0xffff_ffff, n);
        lemma_div_multiples_vanish(0xffff_ffff, n);
    }
}

/// A share of a whole is never more than one hundred percent.
pub proof fn lemma_percent_bound(part: nat, whole: nat)
    requires
        part <= whole,
    ensures
        percent_of(part, whole) <= 10_000,
{
    if whole > 0 {
        lemma_div_is_ordered(part as int * 10_000, whole as int * 10_000, whole as int);
        lemma_div_multiples_vanish(10_000, whole as int);
    }
}

/// Throughput in hundredths of a megabit per second never exceeds the byte count.
pub proof fn lemma_rate_bound(bytes: nat, elapsed_ms: nat)
    ensures
        rate_of(bytes, elapsed_ms) <= bytes,
{
    if elapsed_ms > 0 {
        let top = bytes as int * 8 * 100 * 1000;
        assert(1_048_576 * elapsed_ms as int >= 1_048_576) by (nonlinear_arith)
            requires
                elapsed_ms >= 1,
        ;
        lemma_div_is_ordered_by_denominator(top, 1_048_576, 1_048_576 * elapsed_ms as int);
        assert(top / 1_048_576 <= bytes);
    }
}

/// The mean of `values`, rounded down; zero for an empty slice.
pub fn mean(values: &Vec<u32>) -> (r: u32)
    ensures
        r == mean_of(values@),
{
    let n: usize = values.len();
    if n == 0 {
        return 0;
    }
    let mut sum: u128 = 0;
    let mut i: usize = 0;
    while i < n
        invariant
            n == values.len(),
            i <= n,
            sum == sum_of(values@.take(i as int)),
            sum <= i * 0xffff_ffff,
        decreases n - i,
    {
        proof {
            assert(values@.take(i + 1).drop_last() =~= values@.take(i as int));
            assert((i + 1) * 0xffff_ffff == i * 0xffff_ffff + 0xffff_ffff) by (nonlinear_arith);
            assert(i * 0xffff_ffff <= 0xffff_ffff_ffff_ffff * 0xffff_ffff) by (nonlinear_arith)
                requires
                    i <= 0xffff_ffff_ffff_ffff,
            ;
        }
        sum = sum + values[i] as u128;
        i = i + 1;
    }
    proof {
        assert(values@.take(n as int) =~= values@);
        lemma_mean_bound(values@);
    }
    (sum / (n as u128)) as u32
}

/// `part` as a share of `whole`, in hundredths of a percent.
pub fn ratio_percent(part: u64, whole: u64) -> (r: u32)
    requires
        part <= whole,
    ensures
        r == percent_of(part as nat, whole as nat),
        r <= FULL_SCALE,
{
    if whole == 0 {
        return 0;
    }
    proof {
        lemma_percent_bound(part as nat, whole as nat);
    }
    ((part as u128) * 10_000 / (whole as u128)) as u32
}

/// The one place where a process's per-core-equivalent usage becomes a share
/// of the whole machine.
pub fn normalize_process_cpu(raw: u64, core_count: usize) -> (r: u64)
    ensures
        r == share_of_system(raw as nat, core_count as nat),
        r <= raw,
{
    if core_count == 0 {
        return 0;
    }
    proof {
        vstd::arithmetic::div_mod::lemma_div_is_ordered_by_denominator(
            raw as int,
            1,
            core_count as int,
        );
    }
    ((raw as u128) / (core_count as u128)) as u64
}

/// Throughput for `bytes` moved in `elapsed_ms` milliseconds.
pub fn throughput(bytes: u64, elapsed_ms: u64) -> (r: u64)
    ensures
        r == rate_of(bytes as nat, elapsed_ms as nat),
{
    if elapsed_ms == 0 {
        return 0;
    }
    proof {
        lemma_rate_bound(bytes as nat, elapsed_ms as nat);
    }
    ((bytes as u128) * 8 * 100 * 1000 / (1_048_576 * (elapsed_ms as u128))) as u64
}

/// A byte count in hundredths of a mebibyte.
pub fn to_mebi_hundredths(bytes: u64) -> (r: u64)
    ensures
        r == mebi_hundredths(bytes as nat),
{
    ((bytes as u128) * 100 / 1_048_576) as u64
}

/// A byte count in hundredths of a megabit.
pub fn to_megabit_hundredths(bytes: u64) -> (r: u64)
    ensures
        r == megabit_hundredths(bytes as nat),
{
    ((bytes as u128) * 8 * 100 / 1_048_576) as u64
}

} // verus!
