//! Bounded timing statistics.
//!
//! A counter keeps a fixed number of buckets whatever is recorded: four per
//! power of two, so a reported percentile overstates a duration by less than a
//! quarter.
use super::time::{larger, spec_max, sum};
use vstd::arithmetic::power2::*;
use vstd::prelude::*;

verus! {

pub const TIMING_SUB_BUCKETS: usize = 4;

pub const TIMING_BUCKETS: usize = 256;

pub const NANOS_PER_MICRO: u128 = 1_000;

#[derive(Clone, Copy, Debug, PartialEq, Eq, Structural)]
pub struct RuntimeTimingSnapshot {
    pub samples: u64,
    pub total_us: u64,
    pub max_us: u64,
    pub p50_us: u64,
    pub p95_us: u64,
    pub p99_us: u64,
}

/// `bucket` is the one that counts durations of `micros`: the quarter of the
/// power of two into which it falls. Zero shares the first bucket with one.
pub open spec fn counts(bucket: int, micros: u64) -> bool {
    if micros == 0 {
        bucket == 0
    } else {
        exists|exponent: nat| #[trigger]
            pow2(exponent) <= micros < 2 * pow2(exponent) && bucket == exponent * 4 + (micros
                - pow2(exponent)) * 4 / pow2(exponent) as int
    }
}

/// The largest duration that a bucket counts.
pub open spec fn bucket_upper(bucket: int) -> int {
    let base = pow2((bucket / 4) as nat) as int;
    base + (base * (bucket % 4 + 1) + 3) / 4 - 1
}

/// How many durations the first buckets count.
pub open spec fn counted(buckets: Seq<u64>, first: int) -> nat
    decreases first,
{
    if first <= 0 {
        0
    } else {
        counted(buckets, first - 1) + buckets[first - 1] as nat
    }
}

/// `bucket` is the first one up to which `target` durations are counted.
pub open spec fn reaches(buckets: Seq<u64>, target: int, bucket: int) -> bool {
    &&& 0 <= bucket < buckets.len()
    &&& counted(buckets, bucket + 1) >= target
    &&& forall|i: int| 0 <= i < bucket ==> #[trigger] counted(buckets, i + 1) < target
}

/// How many durations make up `percentile` percent of `total`.
pub open spec fn rank(total: int, percentile: int) -> int {
    (total * percentile + 99) / 100
}

pub open spec fn capped_total(buckets: Seq<u64>) -> int {
    if counted(buckets, buckets.len() as int) > u64::MAX {
        u64::MAX as int
    } else {
        counted(buckets, buckets.len() as int) as int
    }
}

/// `value` is the percentile of what the buckets count.
pub open spec fn is_percentile(buckets: Seq<u64>, percentile: u64, value: u64) -> bool {
    if capped_total(buckets) == 0 {
        value == 0
    } else if counted(buckets, buckets.len() as int) < rank(
        capped_total(buckets),
        percentile as int,
    ) {
        value == u64::MAX
    } else {
        exists|bucket: int| #[trigger]
            reaches(buckets, rank(capped_total(buckets), percentile as int), bucket) && value
                == bucket_upper(bucket)
    }
}

proof fn counted_is_bounded(buckets: Seq<u64>, first: int)
    requires
        0 <= first <= buckets.len(),
    ensures
        counted(buckets, first) <= first * u64::MAX,
    decreases first,
{
    if first > 0 {
        counted_is_bounded(buckets, first - 1);
    }
}

proof fn counted_grows(buckets: Seq<u64>, less: int, more: int)
    requires
        less <= more,
    ensures
        counted(buckets, less) <= counted(buckets, more),
    decreases more - less,
{
    if less < more {
        counted_grows(buckets, less, more - 1);
    }
}

proof fn powers_of_two_are_apart(a: nat, b: nat, value: int)
    requires
        pow2(a) <= value < 2 * pow2(a),
        pow2(b) <= value < 2 * pow2(b),
    ensures
        a == b,
{
    if a < b {
        if a + 1 < b {
            lemma_pow2_strictly_increases(a + 1, b);
        }
        lemma_pow2_unfold(a + 1);
    } else if b < a {
        if b + 1 < a {
            lemma_pow2_strictly_increases(b + 1, a);
        }
        lemma_pow2_unfold(b + 1);
    }
}

proof fn quarter_is_small(rest: int, base: int)
    requires
        0 <= rest < base,
    ensures
        0 <= rest * 4 / base <= 3,
{
    assert(0 <= rest * 4 / base <= 3) by (nonlinear_arith)
        requires
            0 <= rest < base,
    ;
}

/// Every duration has exactly one bucket.
pub proof fn buckets_are_unique(a: int, b: int, micros: u64)
    requires
        counts(a, micros),
        counts(b, micros),
    ensures
        a == b,
        0 <= a < TIMING_BUCKETS,
{
    if micros > 0 {
        let p = choose|exponent: nat| #[trigger]
            pow2(exponent) <= micros < 2 * pow2(exponent) && a == exponent * 4 + (micros - pow2(
                exponent,
            )) * 4 / pow2(exponent) as int;
        let q = choose|exponent: nat| #[trigger]
            pow2(exponent) <= micros < 2 * pow2(exponent) && b == exponent * 4 + (micros - pow2(
                exponent,
            )) * 4 / pow2(exponent) as int;
        powers_of_two_are_apart(p, q, micros as int);
        lemma_pow2_pos(p);
        quarter_is_small(micros - pow2(p), pow2(p) as int);
        if p >= 64 {
            lemma2_to64();
            if p > 64 {
                lemma_pow2_strictly_increases(64, p);
            }
        }
    }
}

/// A bucket's upper bound covers every duration it counts, and overstates none
/// by a quarter or more.
pub proof fn buckets_are_tight(bucket: int, micros: u64)
    requires
        micros > 0,
        counts(bucket, micros),
    ensures
        micros <= bucket_upper(bucket),
        4 * (bucket_upper(bucket) - micros) < micros,
{
    let exponent = choose|exponent: nat| #[trigger]
        pow2(exponent) <= micros < 2 * pow2(exponent) && bucket == exponent * 4 + (micros - pow2(
            exponent,
        )) * 4 / pow2(exponent) as int;
    lemma_pow2_pos(exponent);
    let base = pow2(exponent) as int;
    let rest = micros - base;
    let quarter = rest * 4 / base;
    quarter_is_small(rest, base);
    assert(bucket / 4 == exponent && bucket % 4 == quarter);
    let span = base * (quarter + 1);
    assert(rest * 4 < span && base * quarter <= rest * 4) by (nonlinear_arith)
        requires
            base > 0,
            quarter == rest * 4 / base,
            span == base * (quarter + 1),
    ;
    assert(span == base * quarter + base) by (nonlinear_arith)
        requires
            span == base * (quarter + 1),
    ;
    assert(4 * ((span + 3) / 4 - 1) < span);
}

#[derive(Debug)]
pub struct RuntimeTimingCounter {
    pub samples: u64,
    pub total_us: u64,
    pub max_us: u64,
    pub buckets: Vec<u64>,
}

fn micros_of(nanos: u128) -> (micros: u64)
    ensures
        micros == spec_micros(nanos),
{
    let micros: u128 = nanos / NANOS_PER_MICRO;
    if micros > u64::MAX as u128 {
        u64::MAX
    } else {
        micros as u64
    }
}

pub open spec fn spec_micros(nanos: u128) -> u64 {
    if nanos / NANOS_PER_MICRO > u64::MAX {
        u64::MAX
    } else {
        (nanos / NANOS_PER_MICRO) as u64
    }
}

/// Finds the bucket of a duration.
pub fn timing_bucket(micros: u64) -> (bucket: usize)
    ensures
        bucket < TIMING_BUCKETS,
        counts(bucket as int, micros),
{
    if micros == 0 {
        return 0;
    }
    let mut exponent: usize = 0;
    let mut base: u64 = 1;
    proof {
        lemma2_to64();
    }
    while base <= micros / 2
        invariant
            micros > 0,
            1 <= base <= micros,
            base == pow2(exponent as nat),
            exponent < 64,
        decreases micros - base,
    {
        proof {
            lemma_pow2_unfold((exponent + 1) as nat);
            if exponent == 63 {
                lemma2_to64_rest();
            }
        }
        base = base * 2;
        exponent = exponent + 1;
    }
    let quarter: u128 = ((micros - base) as u128 * 4) / base as u128;
    proof {
        quarter_is_small(micros - base, base as int);
        assert(pow2(exponent as nat) <= micros < 2 * pow2(exponent as nat));
    }
    exponent * TIMING_SUB_BUCKETS + quarter as usize
}

impl Default for RuntimeTimingCounter {
    fn default() -> (counter: Self)
        ensures
            counter.wf(),
            counter.samples == 0,
            counter.total_us == 0,
            counter.max_us == 0,
            counter.buckets@ == Seq::new(TIMING_BUCKETS as nat, |i: int| 0u64),
    {
        let buckets: Vec<u64> = vec![0u64; TIMING_BUCKETS];
        proof {
            assert(buckets@ =~= Seq::new(TIMING_BUCKETS as nat, |i: int| 0u64));
        }
        RuntimeTimingCounter { samples: 0, total_us: 0, max_us: 0, buckets }
    }
}

pub open spec fn wrapping_next(count: u64) -> u64 {
    if count == u64::MAX {
        0
    } else {
        (count + 1) as u64
    }
}

impl RuntimeTimingCounter {
    pub open spec fn wf(self) -> bool {
        self.buckets@.len() == TIMING_BUCKETS
    }

    /// The counter after one more duration.
    pub open spec fn recorded(self, elapsed: u128, after: RuntimeTimingCounter) -> bool {
        let micros = spec_micros(elapsed);
        &&& after.samples == wrapping_next(self.samples)
        &&& after.total_us == sum(self.total_us, micros)
        &&& after.max_us == spec_max(self.max_us, micros)
        &&& exists|bucket: int| #[trigger]
            counts(bucket, micros) && 0 <= bucket < TIMING_BUCKETS && after.buckets@
                == self.buckets@.update(bucket, wrapping_next(self.buckets@[bucket]))
    }

    /// Counts a duration given in nanoseconds.
    pub fn record(&mut self, elapsed: u128)
        requires
            old(self).wf(),
        ensures
            final(self).wf(),
            old(self).recorded(elapsed, *final(self)),
    {
        let micros: u64 = micros_of(elapsed);
        self.samples = self.samples.wrapping_add(1);
        self.total_us = self.total_us.saturating_add(micros);
        self.max_us = larger(self.max_us, micros);
        let bucket: usize = timing_bucket(micros);
        let count: u64 = self.buckets[bucket].wrapping_add(1);
        self.buckets[bucket] = count;
        proof {
            assert(counts(bucket as int, spec_micros(elapsed)));
        }
    }

    /// Reports what was counted. No percentile exceeds the maximum.
    #[must_use]
    pub fn snapshot(&self) -> (snapshot: RuntimeTimingSnapshot)
        requires
            self.wf(),
        ensures
            snapshot.samples == self.samples,
            snapshot.total_us == self.total_us,
            snapshot.max_us == self.max_us,
            capped_percentile(self.buckets@, 50, self.max_us, snapshot.p50_us),
            capped_percentile(self.buckets@, 95, self.max_us, snapshot.p95_us),
            capped_percentile(self.buckets@, 99, self.max_us, snapshot.p99_us),
    {
        let p50: u64 = timing_percentile(self.buckets.as_slice(), 50);
        let p95: u64 = timing_percentile(self.buckets.as_slice(), 95);
        let p99: u64 = timing_percentile(self.buckets.as_slice(), 99);
        proof {
            assert(is_percentile(self.buckets@, 50, p50));
            assert(is_percentile(self.buckets@, 95, p95));
            assert(is_percentile(self.buckets@, 99, p99));
        }
        RuntimeTimingSnapshot {
            samples: self.samples,
            total_us: self.total_us,
            max_us: self.max_us,
            p50_us: smaller(p50, self.max_us),
            p95_us: smaller(p95, self.max_us),
            p99_us: smaller(p99, self.max_us),
        }
    }
}

pub open spec fn capped_percentile(buckets: Seq<u64>, percentile: u64, max: u64, value: u64) -> bool {
    exists|bound: u64| #[trigger]
        is_percentile(buckets, percentile, bound) && value == if bound < max {
            bound
        } else {
            max
        }
}

fn smaller(a: u64, b: u64) -> (min: u64)
    ensures
        min == if a < b {
            a
        } else {
            b
        },
{
    if a < b {
        a
    } else {
        b
    }
}

/// The upper bound of the bucket in which the percentile lies, 0 if nothing was
/// counted.
pub fn timing_percentile(buckets: &[u64], percentile: u64) -> (value: u64)
    requires
        buckets@.len() == TIMING_BUCKETS,
    ensures
        is_percentile(buckets@, percentile, value),
{
    let mut total: u128 = 0;
    let mut i: usize = 0;
    while i < TIMING_BUCKETS
        invariant
            i <= TIMING_BUCKETS,
            buckets@.len() == TIMING_BUCKETS,
            total == counted(buckets@, i as int),
            total <= i * u64::MAX,
        decreases TIMING_BUCKETS - i,
    {
        total = total + buckets[i] as u128;
        i = i + 1;
    }
    let samples: u128 = if total > u64::MAX as u128 {
        u64::MAX as u128
    } else {
        total
    };
    if samples == 0 {
        return 0;
    }
    assert(0 <= samples * percentile <= 0xffff_ffff_ffff_ffff * 0xffff_ffff_ffff_ffff)
        by (nonlinear_arith)
        requires
            0 <= samples <= 0xffff_ffff_ffff_ffff,
            0 <= percentile <= 0xffff_ffff_ffff_ffff,
    ;
    let target: u128 = (samples * percentile as u128 + 99) / 100;
    let mut seen: u128 = 0;
    let mut index: usize = 0;
    while index < TIMING_BUCKETS
        invariant
            index <= TIMING_BUCKETS,
            buckets@.len() == TIMING_BUCKETS,
            seen == counted(buckets@, index as int),
            seen <= index * u64::MAX,
            target == rank(capped_total(buckets@), percentile as int),
            capped_total(buckets@) != 0,
            forall|k: int| 0 <= k < index ==> #[trigger] counted(buckets@, k + 1) < target,
        decreases TIMING_BUCKETS - index,
    {
        seen = seen + buckets[index] as u128;
        if seen >= target {
            let exponent: usize = index / TIMING_SUB_BUCKETS;
            let quarter: usize = index % TIMING_SUB_BUCKETS;
            let base: u64 = power_of_two(exponent);
            assert(0 <= base * (quarter + 1) <= 0xffff_ffff_ffff_ffff * 4) by (nonlinear_arith)
                requires
                    0 <= base <= 0xffff_ffff_ffff_ffff,
                    0 <= quarter <= 3,
            ;
            let upper: u128 = base as u128 + (base as u128 * (quarter as u128 + 1) + 3) / 4 - 1;
            proof {
                assert(reaches(buckets@, target as int, index as int));
                counted_grows(buckets@, index + 1, TIMING_BUCKETS as int);
                assert(upper == bucket_upper(index as int));
                assert(upper <= u64::MAX) by {
                    lemma2_to64();
                    lemma2_to64_rest();
                    if exponent < 63 {
                        lemma_pow2_strictly_increases(exponent as nat, 63);
                    }
                    assert(base * (quarter + 1) <= base * 4) by (nonlinear_arith)
                        requires
                            0 <= base,
                            0 <= quarter <= 3,
                    ;
                }
            }
            return upper as u64;
        }
        index = index + 1;
    }
    assert(counted(buckets@, (TIMING_BUCKETS - 1) + 1) < target);
    u64::MAX
}

fn power_of_two(exponent: usize) -> (power: u64)
    requires
        exponent < 64,
    ensures
        power == pow2(exponent as nat),
        power > 0,
{
    let mut power: u64 = 1;
    let mut i: usize = 0;
    proof {
        lemma2_to64();
    }
    while i < exponent
        invariant
            i <= exponent < 64,
            power == pow2(i as nat),
            power > 0,
        decreases exponent - i,
    {
        proof {
            lemma_pow2_unfold((i + 1) as nat);
            lemma2_to64();
            lemma2_to64_rest();
            if i + 1 < 63 {
                lemma_pow2_strictly_increases((i + 1) as nat, 63);
            }
        }
        power = power * 2;
        i = i + 1;
    }
    power
}

/// Timings of the places where media work waits or runs.
#[derive(Debug)]
pub struct RuntimePerformanceCounters {
    pub blocking_current_admission_wait: RuntimeTimingCounter,
    pub blocking_next_admission_wait: RuntimeTimingCounter,
    pub blocking_start_wait: RuntimeTimingCounter,
    pub cpu_current_wait: RuntimeTimingCounter,
    pub cpu_next_wait: RuntimeTimingCounter,
    pub cpu_current_hold: RuntimeTimingCounter,
    pub cpu_next_hold: RuntimeTimingCounter,
    pub source_wait: RuntimeTimingCounter,
    pub output_wait: RuntimeTimingCounter,
}

impl Default for RuntimePerformanceCounters {
    fn default() -> (counters: Self)
        ensures
            counters.wf(),
            counters.blocking_current_admission_wait.samples == 0,
            counters.blocking_next_admission_wait.samples == 0,
            counters.blocking_start_wait.samples == 0,
            counters.cpu_current_wait.samples == 0,
            counters.cpu_next_wait.samples == 0,
            counters.cpu_current_hold.samples == 0,
            counters.cpu_next_hold.samples == 0,
            counters.source_wait.samples == 0,
            counters.output_wait.samples == 0,
    {
        RuntimePerformanceCounters {
            blocking_current_admission_wait: RuntimeTimingCounter::default(),
            blocking_next_admission_wait: RuntimeTimingCounter::default(),
            blocking_start_wait: RuntimeTimingCounter::default(),
            cpu_current_wait: RuntimeTimingCounter::default(),
            cpu_next_wait: RuntimeTimingCounter::default(),
            cpu_current_hold: RuntimeTimingCounter::default(),
            cpu_next_hold: RuntimeTimingCounter::default(),
            source_wait: RuntimeTimingCounter::default(),
            output_wait: RuntimeTimingCounter::default(),
        }
    }
}

impl RuntimePerformanceCounters {
    pub open spec fn wf(self) -> bool {
        &&& self.blocking_current_admission_wait.wf()
        &&& self.blocking_next_admission_wait.wf()
        &&& self.blocking_start_wait.wf()
        &&& self.cpu_current_wait.wf()
        &&& self.cpu_next_wait.wf()
        &&& self.cpu_current_hold.wf()
        &&& self.cpu_next_hold.wf()
        &&& self.source_wait.wf()
        &&& self.output_wait.wf()
    }

    pub fn record_blocking_admission_wait(&mut self, current: bool, elapsed: u128)
        requires
            old(self).wf(),
        ensures
            final(self).wf(),
            if current {
                &&& old(self).blocking_current_admission_wait.recorded(
                    elapsed,
                    final(self).blocking_current_admission_wait,
                )
                &&& *final(self) == (RuntimePerformanceCounters {
                    blocking_current_admission_wait: final(self).blocking_current_admission_wait,
                    ..*old(self)
                })
            } else {
                &&& old(self).blocking_next_admission_wait.recorded(
                    elapsed,
                    final(self).blocking_next_admission_wait,
                )
                &&& *final(self) == (RuntimePerformanceCounters {
                    blocking_next_admission_wait: final(self).blocking_next_admission_wait,
                    ..*old(self)
                })
            },
    {
        if current {
            self.blocking_current_admission_wait.record(elapsed);
        } else {
            self.blocking_next_admission_wait.record(elapsed);
        }
    }

    pub fn record_blocking_start_wait(&mut self, elapsed: u128)
        requires
            old(self).wf(),
        ensures
            final(self).wf(),
            old(self).blocking_start_wait.recorded(elapsed, final(self).blocking_start_wait),
            *final(self) == (RuntimePerformanceCounters {
                blocking_start_wait: final(self).blocking_start_wait,
                ..*old(self)
            }),
    {
        self.blocking_start_wait.record(elapsed);
    }

    pub fn record_cpu_wait(&mut self, current: bool, elapsed: u128)
        requires
            old(self).wf(),
        ensures
            final(self).wf(),
            if current {
                &&& old(self).cpu_current_wait.recorded(elapsed, final(self).cpu_current_wait)
                &&& *final(self) == (RuntimePerformanceCounters {
                    cpu_current_wait: final(self).cpu_current_wait,
                    ..*old(self)
                })
            } else {
                &&& old(self).cpu_next_wait.recorded(elapsed, final(self).cpu_next_wait)
                &&& *final(self) == (RuntimePerformanceCounters {
                    cpu_next_wait: final(self).cpu_next_wait,
                    ..*old(self)
                })
            },
    {
        if current {
            self.cpu_current_wait.record(elapsed);
        } else {
            self.cpu_next_wait.record(elapsed);
        }
    }

    pub fn record_cpu_hold(&mut self, current: bool, elapsed: u128)
        requires
            old(self).wf(),
        ensures
            final(self).wf(),
            if current {
                &&& old(self).cpu_current_hold.recorded(elapsed, final(self).cpu_current_hold)
                &&& *final(self) == (RuntimePerformanceCounters {
                    cpu_current_hold: final(self).cpu_current_hold,
                    ..*old(self)
                })
            } else {
                &&& old(self).cpu_next_hold.recorded(elapsed, final(self).cpu_next_hold)
                &&& *final(self) == (RuntimePerformanceCounters {
                    cpu_next_hold: final(self).cpu_next_hold,
                    ..*old(self)
                })
            },
    {
        if current {
            self.cpu_current_hold.record(elapsed);
        } else {
            self.cpu_next_hold.record(elapsed);
        }
    }

    pub fn record_source_wait(&mut self, elapsed: u128)
        requires
            old(self).wf(),
        ensures
            final(self).wf(),
            old(self).source_wait.recorded(elapsed, final(self).source_wait),
            *final(self) == (RuntimePerformanceCounters {
                source_wait: final(self).source_wait,
                ..*old(self)
            }),
    {
        self.source_wait.record(elapsed);
    }

    pub fn record_output_wait(&mut self, elapsed: u128)
        requires
            old(self).wf(),
        ensures
            final(self).wf(),
            old(self).output_wait.recorded(elapsed, final(self).output_wait),
            *final(self) == (RuntimePerformanceCounters {
                output_wait: final(self).output_wait,
                ..*old(self)
            }),
    {
        self.output_wait.record(elapsed);
    }
}

/// A microsecond has a thousand nanoseconds; what is left of one is not counted.
pub proof fn microseconds_have_a_thousand_nanoseconds(nanos: u128)
    requires
        nanos < 18_446_744_073_709_551_615 * 1_000,
    ensures
        spec_micros(nanos) * 1_000 <= nanos < (spec_micros(nanos) + 1) * 1_000,
{
}

/// The rank of a percentile is the least count that makes up that share of all.
pub proof fn ranks_are_least(total: int, percentile: int)
    requires
        total >= 0,
        percentile >= 0,
    ensures
        100 * rank(total, percentile) >= total * percentile,
        100 * (rank(total, percentile) - 1) < total * percentile,
{
}

/// A percentile is the upper end of the first bucket up to which its share of all
/// durations is counted; less than that share is counted before that bucket.
pub proof fn percentiles_cover_their_share(buckets: Seq<u64>, percentile: u64, value: u64)
    requires
        is_percentile(buckets, percentile, value),
        0 < counted(buckets, buckets.len() as int) <= u64::MAX,
        0 < percentile <= 100,
    ensures
        exists|bucket: int|
            0 <= bucket < buckets.len() && value == #[trigger] bucket_upper(bucket) && 100 * counted(
                buckets,
                bucket + 1,
            ) >= counted(buckets, buckets.len() as int) * percentile && 100 * counted(
                buckets,
                bucket,
            ) < counted(buckets, buckets.len() as int) * percentile,
{
    let total = counted(buckets, buckets.len() as int) as int;
    ranks_are_least(total, percentile as int);
    assert(total * percentile <= total * 100) by (nonlinear_arith)
        requires
            total > 0,
            percentile <= 100,
    ;
    assert(total * percentile > 0) by (nonlinear_arith)
        requires
            total > 0,
            percentile > 0,
    ;
    let target = rank(capped_total(buckets), percentile as int);
    let bucket = choose|bucket: int| #[trigger]
        reaches(buckets, target, bucket) && value == bucket_upper(bucket);
    assert(reaches(buckets, target, bucket));
    if bucket > 0 {
        assert(counted(buckets, (bucket - 1) + 1) < target);
    } else {
        assert(counted(buckets, 0) == 0);
    }
    assert(value == bucket_upper(bucket));
}

proof fn counting_one_more(buckets: Seq<u64>, bucket: int, first: int)
    requires
        0 <= bucket < buckets.len(),
        buckets[bucket] < u64::MAX,
    ensures
        bucket < first <= buckets.len() ==> counted(
            buckets.update(bucket, (buckets[bucket] + 1) as u64),
            first,
        ) == counted(buckets, first) + 1,
        first <= bucket ==> counted(buckets.update(bucket, (buckets[bucket] + 1) as u64), first)
            == counted(buckets, first),
    decreases first,
{
    if first > 0 {
        counting_one_more(buckets, bucket, first - 1);
    }
}

/// Every duration that is recorded is counted once, and lengthens the total and,
/// where it is longer than all before, the maximum.
pub proof fn recorded_durations_are_counted(
    before: RuntimeTimingCounter,
    elapsed: u128,
    after: RuntimeTimingCounter,
)
    requires
        before.wf(),
        before.recorded(elapsed, after),
        before.samples < u64::MAX,
        forall|i: int| 0 <= i < before.buckets@.len() ==> #[trigger] before.buckets@[i] < u64::MAX,
        before.total_us + elapsed / 1_000 <= u64::MAX,
    ensures
        after.samples == before.samples + 1,
        after.total_us == before.total_us + elapsed / 1_000,
        after.max_us >= before.max_us,
        after.max_us >= elapsed / 1_000,
        after.max_us == before.max_us || after.max_us == elapsed / 1_000,
        counted(after.buckets@, 256) == counted(before.buckets@, 256) + 1,
{
    let bucket = choose|bucket: int| #[trigger]
        counts(bucket, spec_micros(elapsed)) && 0 <= bucket < TIMING_BUCKETS && after.buckets@
            == before.buckets@.update(bucket, wrapping_next(before.buckets@[bucket]));
    assert(before.buckets@[bucket] < u64::MAX);
    counting_one_more(before.buckets@, bucket, 256);
}

/// No percentile that is reported exceeds the longest duration.
pub proof fn percentiles_stay_below_the_maximum(
    buckets: Seq<u64>,
    percentile: u64,
    max: u64,
    value: u64,
)
    requires
        capped_percentile(buckets, percentile, max, value),
    ensures
        value <= max,
        value < max ==> is_percentile(buckets, percentile, value),
{
}

/// `value` is the end of the first bucket up to which the share of all durations is
/// counted.
pub open spec fn covers_share(buckets: Seq<u64>, share: int, value: u64) -> bool {
    exists|bucket: int|
        0 <= bucket < buckets.len() && value == #[trigger] bucket_upper(bucket) && 100 * counted(
            buckets,
            bucket + 1,
        ) >= counted(buckets, buckets.len() as int) * share && 100 * counted(buckets, bucket)
            < counted(buckets, buckets.len() as int) * share
}

/// A snapshot tells what was counted: how many durations, their sum and the longest, and
/// within what time half of them, 95 and 99 of a hundred were over, none of it beyond
/// the longest.
pub proof fn snapshots_tell_what_was_counted(
    counter: RuntimeTimingCounter,
    snapshot: RuntimeTimingSnapshot,
)
    requires
        call_ensures(RuntimeTimingCounter::snapshot, (&counter,), snapshot),
    ensures
        snapshot.samples == counter.samples,
        snapshot.total_us == counter.total_us,
        snapshot.max_us == counter.max_us,
        snapshot.p50_us <= snapshot.max_us,
        snapshot.p95_us <= snapshot.max_us,
        snapshot.p99_us <= snapshot.max_us,
        0 < counted(counter.buckets@, counter.buckets@.len() as int) <= u64::MAX ==> {
            &&& snapshot.p50_us < snapshot.max_us ==> covers_share(
                counter.buckets@,
                50,
                snapshot.p50_us,
            )
            &&& snapshot.p95_us < snapshot.max_us ==> covers_share(
                counter.buckets@,
                95,
                snapshot.p95_us,
            )
            &&& snapshot.p99_us < snapshot.max_us ==> covers_share(
                counter.buckets@,
                99,
                snapshot.p99_us,
            )
        },
{
    let buckets = counter.buckets@;
    percentiles_stay_below_the_maximum(buckets, 50, counter.max_us, snapshot.p50_us);
    percentiles_stay_below_the_maximum(buckets, 95, counter.max_us, snapshot.p95_us);
    percentiles_stay_below_the_maximum(buckets, 99, counter.max_us, snapshot.p99_us);
    if 0 < counted(buckets, buckets.len() as int) <= u64::MAX {
        if snapshot.p50_us < snapshot.max_us {
            percentiles_cover_their_share(buckets, 50, snapshot.p50_us);
        }
        if snapshot.p95_us < snapshot.max_us {
            percentiles_cover_their_share(buckets, 95, snapshot.p95_us);
        }
        if snapshot.p99_us < snapshot.max_us {
            percentiles_cover_their_share(buckets, 99, snapshot.p99_us);
        }
    }
}

} // verus!
