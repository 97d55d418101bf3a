//! Rolling window over receiver reports.
//!
//! Report parsing yields one sample at a time. This module keeps the small
//! window from which the network quality of a stream is judged. Loss is kept in
//! units of 1/256 of the packets, as receivers report it.
use std::collections::VecDeque;
use vstd::prelude::*;
use vstd::std_specs::vecdeque::*;

verus! {

pub const DEFAULT_RTCP_QUALITY_WINDOW_REPORTS: usize = 32;

pub const POOR_LOSS_PERCENT: u128 = 10;

pub const DEGRADED_LOSS_PERCENT: u128 = 2;

pub const POOR_JITTER_MICROS: u64 = 80_000;

pub const DEGRADED_JITTER_MICROS: u64 = 30_000;

pub const POOR_ROUND_TRIP_MICROS: u64 = 500_000;

pub const DEGRADED_ROUND_TRIP_MICROS: u64 = 200_000;

#[derive(Clone, Copy, Debug, PartialEq, Eq, Structural)]
pub enum RtcpNetworkQualityLevel {
    Good,
    Degraded,
    Poor,
}

impl Default for RtcpNetworkQualityLevel {
    fn default() -> (level: Self)
        ensures
            level == RtcpNetworkQualityLevel::Good,
    {
        RtcpNetworkQualityLevel::Good
    }
}

#[derive(Clone, Debug, PartialEq, Eq)]
pub struct RtcpQualityWindowConfig {
    pub max_reports: usize,
}

impl Default for RtcpQualityWindowConfig {
    fn default() -> (config: Self)
        ensures
            config.max_reports == DEFAULT_RTCP_QUALITY_WINDOW_REPORTS,
    {
        RtcpQualityWindowConfig { max_reports: DEFAULT_RTCP_QUALITY_WINDOW_REPORTS }
    }
}

#[derive(Clone, Copy, Debug, PartialEq, Eq)]
pub struct RtcpQualitySample {
    pub reports_received: usize,
    pub fraction_lost: u8,
    pub jitter_micros: u64,
    pub round_trip_time_micros: Option<u64>,
}

/// Aggregates of a window. The loss percentages follow from the counts: the
/// latest is `latest_fraction_lost * 100 / 256`, the average is
/// `fraction_lost_sum * 100 / (samples * 256)`, the maximum is
/// `max_fraction_lost * 100 / 256`.
#[derive(Clone, Copy, Debug, PartialEq, Eq)]
pub struct RtcpQualityWindowSnapshot {
    pub samples: usize,
    pub level: RtcpNetworkQualityLevel,
    pub latest_fraction_lost: u8,
    pub fraction_lost_sum: u128,
    pub max_fraction_lost: u8,
    pub average_jitter_micros: u64,
    pub max_jitter_micros: u64,
    pub average_round_trip_time_micros: Option<u64>,
    pub max_round_trip_time_micros: Option<u64>,
}

impl Default for RtcpQualityWindowSnapshot {
    fn default() -> (snapshot: Self)
        ensures
            snapshot == empty_snapshot(),
    {
        RtcpQualityWindowSnapshot {
            samples: 0,
            level: RtcpNetworkQualityLevel::Good,
            latest_fraction_lost: 0,
            fraction_lost_sum: 0,
            max_fraction_lost: 0,
            average_jitter_micros: 0,
            max_jitter_micros: 0,
            average_round_trip_time_micros: None,
            max_round_trip_time_micros: None,
        }
    }
}

pub open spec fn empty_snapshot() -> RtcpQualityWindowSnapshot {
    RtcpQualityWindowSnapshot {
        samples: 0,
        level: RtcpNetworkQualityLevel::Good,
        latest_fraction_lost: 0,
        fraction_lost_sum: 0,
        max_fraction_lost: 0,
        average_jitter_micros: 0,
        max_jitter_micros: 0,
        average_round_trip_time_micros: None,
        max_round_trip_time_micros: None,
    }
}

/// Sum of a sequence of numbers.
pub open spec fn total(values: Seq<u64>) -> nat
    decreases values.len(),
{
    if values.len() == 0 {
        0
    } else {
        total(values.drop_last()) + values.last() as nat
    }
}

/// Largest of a sequence of numbers, 0 for the empty sequence.
pub open spec fn largest(values: Seq<u64>) -> u64
    decreases values.len(),
{
    if values.len() == 0 {
        0
    } else if values.last() >= largest(values.drop_last()) {
        values.last()
    } else {
        largest(values.drop_last())
    }
}

pub open spec fn losses(samples: Seq<RtcpQualitySample>) -> Seq<u64> {
    samples.map_values(|s: RtcpQualitySample| s.fraction_lost as u64)
}

pub open spec fn jitters(samples: Seq<RtcpQualitySample>) -> Seq<u64> {
    samples.map_values(|s: RtcpQualitySample| s.jitter_micros)
}

/// The round trip times that were measured, in the order of their samples.
pub open spec fn round_trips(samples: Seq<RtcpQualitySample>) -> Seq<u64>
    decreases samples.len(),
{
    if samples.len() == 0 {
        Seq::empty()
    } else {
        match samples.last().round_trip_time_micros {
            Some(micros) => round_trips(samples.drop_last()).push(micros),
            None => round_trips(samples.drop_last()),
        }
    }
}

pub open spec fn mean(sum: nat, count: nat) -> nat {
    if count == 0 {
        0
    } else {
        sum / count
    }
}

/// Whether an average loss of `sum / (256 * count)` reaches `percent`.
pub open spec fn loss_reaches(sum: nat, count: nat, percent: nat) -> bool {
    sum * 100 >= percent * (count * 256)
}

pub open spec fn quality_level(
    loss_sum: nat,
    count: nat,
    max_jitter: u64,
    average_round_trip: Option<u64>,
) -> RtcpNetworkQualityLevel {
    let round_trip = average_round_trip.unwrap_or(0);
    if loss_reaches(loss_sum, count, POOR_LOSS_PERCENT as nat) || max_jitter >= POOR_JITTER_MICROS
        || round_trip >= POOR_ROUND_TRIP_MICROS {
        RtcpNetworkQualityLevel::Poor
    } else if loss_reaches(loss_sum, count, DEGRADED_LOSS_PERCENT as nat) || max_jitter
        >= DEGRADED_JITTER_MICROS || round_trip >= DEGRADED_ROUND_TRIP_MICROS {
        RtcpNetworkQualityLevel::Degraded
    } else {
        RtcpNetworkQualityLevel::Good
    }
}

/// What a window holding `samples` reports.
pub open spec fn summary(samples: Seq<RtcpQualitySample>) -> RtcpQualityWindowSnapshot {
    if samples.len() == 0 {
        empty_snapshot()
    } else {
        let trips = round_trips(samples);
        let average_trip = if trips.len() == 0 {
            None
        } else {
            Some(mean(total(trips), trips.len()) as u64)
        };
        RtcpQualityWindowSnapshot {
            samples: samples.len() as usize,
            level: quality_level(
                total(losses(samples)),
                samples.len(),
                largest(jitters(samples)),
                average_trip,
            ),
            latest_fraction_lost: samples.last().fraction_lost,
            fraction_lost_sum: total(losses(samples)) as u128,
            max_fraction_lost: largest(losses(samples)) as u8,
            average_jitter_micros: mean(total(jitters(samples)), samples.len()) as u64,
            max_jitter_micros: largest(jitters(samples)),
            average_round_trip_time_micros: average_trip,
            max_round_trip_time_micros: if trips.len() == 0 {
                None
            } else {
                Some(largest(trips))
            },
        }
    }
}

/// The samples that remain of `samples` when only the last `limit` are kept.
pub open spec fn newest(samples: Seq<RtcpQualitySample>, limit: nat) -> Seq<RtcpQualitySample> {
    if samples.len() <= limit {
        samples
    } else {
        samples.subrange(samples.len() - limit, samples.len() as int)
    }
}

#[derive(Clone, Debug)]
pub struct RtcpQualityWindow {
    max_reports: usize,
    samples: VecDeque<RtcpQualitySample>,
}

impl View for RtcpQualityWindow {
    type V = Seq<RtcpQualitySample>;

    closed spec fn view(&self) -> Seq<RtcpQualitySample> {
        self.samples@
    }
}

impl Default for RtcpQualityWindow {
    fn default() -> (window: Self)
        ensures
            window.wf(),
            window.limit() == DEFAULT_RTCP_QUALITY_WINDOW_REPORTS,
            window@ == Seq::<RtcpQualitySample>::empty(),
    {
        RtcpQualityWindow::new(RtcpQualityWindowConfig::default())
    }
}

impl RtcpQualityWindow {
    /// How many samples the window keeps.
    pub closed spec fn limit(&self) -> usize {
        self.max_reports
    }

    /// The window keeps at least one sample and never more than its limit.
    pub open spec fn wf(&self) -> bool {
        1 <= self.limit() && self@.len() <= self.limit()
    }

    #[must_use]
    pub fn new(config: RtcpQualityWindowConfig) -> (window: Self)
        ensures
            window@ == Seq::<RtcpQualitySample>::empty(),
            window.wf(),
            window.limit() == if config.max_reports == 0 { 1 } else { config.max_reports },
    {
        RtcpQualityWindow {
            max_reports: if config.max_reports == 0 { 1 } else { config.max_reports },
            samples: VecDeque::new(),
        }
    }

    /// Adds one sample, dropping the oldest of a full window, and reports.
    pub fn observe(&mut self, sample: RtcpQualitySample) -> (snapshot: RtcpQualityWindowSnapshot)
        requires
            old(self).wf(),
        ensures
            final(self).wf(),
            final(self).limit() == old(self).limit(),
            final(self)@ == newest(old(self)@.push(sample), old(self).limit() as nat),
            snapshot == summary(final(self)@),
    {
        if self.samples.len() == self.max_reports {
            let _ = self.samples.pop_front();
        }
        self.samples.push_back(sample);
        proof {
            let all = old(self)@.push(sample);
            assert(self.samples@ =~= newest(all, self.max_reports as nat));
        }
        self.snapshot()
    }

    #[must_use]
    pub fn snapshot(&self) -> (snapshot: RtcpQualityWindowSnapshot)
        ensures
            snapshot == summary(self@),
    {
        let count: usize = self.samples.len();
        if count == 0 {
            return RtcpQualityWindowSnapshot::default();
        }
        let latest = self.samples[count - 1];
        let mut loss_sum: u128 = 0;
        let mut max_loss: u8 = 0;
        let mut jitter_sum: u128 = 0;
        let mut max_jitter: u64 = 0;
        let mut trips: Vec<u64> = Vec::new();
        let mut i: usize = 0;
        while i < count
            invariant
                i <= count,
                count == self.samples@.len(),
                loss_sum == total(losses(self.samples@.take(i as int))),
                loss_sum <= 255 * i,
                max_loss == largest(losses(self.samples@.take(i as int))),
                jitter_sum == total(jitters(self.samples@.take(i as int))),
                jitter_sum <= u64::MAX * i,
                max_jitter == largest(jitters(self.samples@.take(i as int))),
                trips@ == round_trips(self.samples@.take(i as int)),
            decreases count - i,
        {
            let sample = self.samples[i];
            proof {
                let before = self.samples@.take(i as int);
                let after = self.samples@.take(i + 1);
                assert(after.drop_last() =~= before);
                assert(losses(after).drop_last() =~= losses(before));
                assert(jitters(after).drop_last() =~= jitters(before));
                assert(u64::MAX * i + u64::MAX == u64::MAX * (i + 1)) by (nonlinear_arith);
                assert(u64::MAX * (i + 1) <= u128::MAX) by (nonlinear_arith)
                    requires
                        i + 1 <= u64::MAX,
                ;
            }
            loss_sum = loss_sum + sample.fraction_lost as u128;
            if sample.fraction_lost >= max_loss {
                max_loss = sample.fraction_lost;
            }
            jitter_sum = jitter_sum + sample.jitter_micros as u128;
            if sample.jitter_micros >= max_jitter {
                max_jitter = sample.jitter_micros;
            }
            if let Some(micros) = sample.round_trip_time_micros {
                trips.push(micros);
            }
            i = i + 1;
        }
        proof {
            assert(self.samples@.take(count as int) =~= self.samples@);
            assert(jitter_sum / (count as u128) <= u64::MAX) by (nonlinear_arith)
                requires
                    jitter_sum <= u64::MAX * count,
                    count > 0,
            ;
        }
        let average_trip = average_u64(trips.as_slice());
        let max_trip = maximum(trips.as_slice());
        RtcpQualityWindowSnapshot {
            samples: count,
            level: classify_quality(loss_sum, count, max_jitter, average_trip),
            latest_fraction_lost: latest.fraction_lost,
            fraction_lost_sum: loss_sum,
            max_fraction_lost: max_loss,
            average_jitter_micros: average_u128(jitter_sum, count),
            max_jitter_micros: max_jitter,
            average_round_trip_time_micros: average_trip,
            max_round_trip_time_micros: max_trip,
        }
    }
}

/// Judges a window by its average loss, its worst jitter and its average round
/// trip time.
pub fn classify_quality(
    fraction_lost_sum: u128,
    samples: usize,
    max_jitter_micros: u64,
    average_round_trip_time_micros: Option<u64>,
) -> (level: RtcpNetworkQualityLevel)
    requires
        fraction_lost_sum <= 255 * samples,
    ensures
        level == quality_level(
            fraction_lost_sum as nat,
            samples as nat,
            max_jitter_micros,
            average_round_trip_time_micros,
        ),
{
    let average_round_trip: u64 = match average_round_trip_time_micros {
        Some(micros) => micros,
        None => 0,
    };
    let scaled_loss: u128 = fraction_lost_sum * 100;
    let scale: u128 = samples as u128 * 256;
    if scaled_loss >= POOR_LOSS_PERCENT * scale || max_jitter_micros >= POOR_JITTER_MICROS
        || average_round_trip >= POOR_ROUND_TRIP_MICROS {
        return RtcpNetworkQualityLevel::Poor;
    }
    if scaled_loss >= DEGRADED_LOSS_PERCENT * scale || max_jitter_micros >= DEGRADED_JITTER_MICROS
        || average_round_trip >= DEGRADED_ROUND_TRIP_MICROS {
        return RtcpNetworkQualityLevel::Degraded;
    }
    RtcpNetworkQualityLevel::Good
}

/// The mean rounded down, 0 for no values, capped at the largest `u64`.
pub fn average_u128(sum: u128, count: usize) -> (average: u64)
    ensures
        average == if mean(sum as nat, count as nat) > u64::MAX {
            u64::MAX as nat
        } else {
            mean(sum as nat, count as nat)
        },
{
    if count == 0 {
        return 0;
    }
    let quotient: u128 = sum / count as u128;
    if quotient > u64::MAX as u128 {
        u64::MAX
    } else {
        quotient as u64
    }
}

/// The mean of the values rounded down, if there are any.
pub fn average_u64(values: &[u64]) -> (average: Option<u64>)
    ensures
        average == if values@.len() == 0 {
            None
        } else {
            Some(mean(total(values@), values@.len()) as u64)
        },
        values@.len() > 0 ==> mean(total(values@), values@.len()) <= u64::MAX,
{
    let count: usize = values.len();
    if count == 0 {
        return None;
    }
    let mut sum: u128 = 0;
    let mut i: usize = 0;
    while i < count
        invariant
            i <= count,
            count == values@.len(),
            sum == total(values@.take(i as int)),
            sum <= u64::MAX * i,
        decreases count - i,
    {
        proof {
            assert(values@.take(i + 1).drop_last() =~= values@.take(i as int));
            assert(u64::MAX * i + u64::MAX == u64::MAX * (i + 1)) by (nonlinear_arith);
            assert(u64::MAX * (i + 1) <= u128::MAX) by (nonlinear_arith)
                requires
                    i + 1 <= u64::MAX,
            ;
        }
        sum = sum + values[i] as u128;
        i = i + 1;
    }
    proof {
        assert(values@.take(count as int) =~= values@);
        assert(sum / (count as u128) <= u64::MAX) by (nonlinear_arith)
            requires
                sum <= u64::MAX * count,
                count > 0,
        ;
    }
    Some(average_u128(sum, count))
}

/// The largest of the values, if there are any.
fn maximum(values: &[u64]) -> (largest_value: Option<u64>)
    ensures
        largest_value == if values@.len() == 0 {
            None
        } else {
            Some(largest(values@))
        },
{
    let count: usize = values.len();
    if count == 0 {
        return None;
    }
    let mut best: u64 = 0;
    let mut i: usize = 0;
    while i < count
        invariant
            i <= count,
            count == values@.len(),
            best == largest(values@.take(i as int)),
        decreases count - i,
    {
        proof {
            assert(values@.take(i + 1).drop_last() =~= values@.take(i as int));
        }
        if values[i] >= best {
            best = values[i];
        }
        i = i + 1;
    }
    proof {
        assert(values@.take(count as int) =~= values@);
    }
    Some(best)
}

/// The largest of some values is one of them, and none is larger.
pub proof fn the_largest_bounds_all(values: Seq<u64>)
    ensures
        forall|i: int| 0 <= i < values.len() ==> #[trigger] values[i] <= largest(values),
        values.len() > 0 ==> exists|i: int|
            0 <= i < values.len() && #[trigger] values[i] == largest(values),
    decreases values.len(),
{
    if values.len() > 0 {
        let front = values.drop_last();
        the_largest_bounds_all(front);
        assert forall|i: int| 0 <= i < values.len() implies #[trigger] values[i] <= largest(
            values,
        ) by {
            if i < front.len() {
                assert(front[i] == values[i]);
            }
        }
        if values.last() >= largest(front) {
            assert(values[values.len() - 1] == largest(values));
        } else {
            let i = choose|i: int| 0 <= i < front.len() && #[trigger] front[i] == largest(front);
            assert(values[i] == largest(values));
        }
    }
}

/// What the samples of a window add up to.
pub open spec fn adds_up(
    samples: Seq<RtcpQualitySample>,
    weight: spec_fn(RtcpQualitySample) -> int,
) -> int {
    samples.fold_left(0int, |sum: int, sample: RtcpQualitySample| sum + weight(sample))
}

pub open spec fn loss_of(sample: RtcpQualitySample) -> int {
    sample.fraction_lost as int
}

pub open spec fn jitter_of(sample: RtcpQualitySample) -> int {
    sample.jitter_micros as int
}

pub open spec fn trip_of(sample: RtcpQualitySample) -> int {
    match sample.round_trip_time_micros {
        Some(micros) => micros as int,
        None => 0,
    }
}

pub open spec fn measured(sample: RtcpQualitySample) -> int {
    if sample.round_trip_time_micros is Some {
        1
    } else {
        0
    }
}

proof fn totals_add_up(samples: Seq<RtcpQualitySample>)
    ensures
        total(losses(samples)) == adds_up(samples, |s: RtcpQualitySample| loss_of(s)),
        total(losses(samples)) <= 255 * samples.len(),
        total(jitters(samples)) == adds_up(samples, |s: RtcpQualitySample| jitter_of(s)),
        total(jitters(samples)) <= u64::MAX * samples.len(),
        total(round_trips(samples)) == adds_up(samples, |s: RtcpQualitySample| trip_of(s)),
        round_trips(samples).len() == adds_up(samples, |s: RtcpQualitySample| measured(s)),
        total(round_trips(samples)) <= u64::MAX * round_trips(samples).len(),
    decreases samples.len(),
{
    if samples.len() > 0 {
        let front = samples.drop_last();
        totals_add_up(front);
        assert(losses(samples).drop_last() =~= losses(front));
        assert(jitters(samples).drop_last() =~= jitters(front));
        if samples.last().round_trip_time_micros is Some {
            assert(round_trips(samples).drop_last() =~= round_trips(front));
        }
        assert(u64::MAX * front.len() + u64::MAX == u64::MAX * samples.len()) by (nonlinear_arith)
            requires
                samples.len() == front.len() + 1,
        ;
        if samples.last().round_trip_time_micros is Some {
            assert(u64::MAX * round_trips(front).len() + u64::MAX == u64::MAX * round_trips(
                samples,
            ).len()) by (nonlinear_arith)
                requires
                    round_trips(samples).len() == round_trips(front).len() + 1,
            ;
        }
    }
}

proof fn means_are_quotients(sum: nat, count: nat, bound: nat)
    requires
        count > 0,
        sum <= bound * count,
    ensures
        mean(sum, count) * count <= sum < (mean(sum, count) + 1) * count,
        mean(sum, count) <= bound,
{
    let quotient = sum / count;
    assert(quotient * count <= sum < (quotient + 1) * count) by (nonlinear_arith)
        requires
            count > 0,
            quotient == sum / count,
    ;
    assert(quotient <= bound) by (nonlinear_arith)
        requires
            count > 0,
            quotient == sum / count,
            sum <= bound * count,
    ;
}

/// One bad report is enough for jitter, wherever in the window it stands: jitter of
/// 80 ms makes the quality poor, and with jitter of 30 ms it is good no more.
pub proof fn jitter_anywhere_lowers_the_level(samples: Seq<RtcpQualitySample>, i: int)
    requires
        0 <= i < samples.len(),
    ensures
        samples[i].jitter_micros >= 80_000 ==> summary(samples).level
            == RtcpNetworkQualityLevel::Poor,
        samples[i].jitter_micros >= 30_000 ==> summary(samples).level
            != RtcpNetworkQualityLevel::Good,
        samples[i].jitter_micros <= summary(samples).max_jitter_micros,
        samples[i].fraction_lost <= summary(samples).max_fraction_lost,
{
    the_largest_bounds_all(jitters(samples));
    the_largest_bounds_all(losses(samples));
    assert(jitters(samples)[i] == samples[i].jitter_micros);
    assert(losses(samples)[i] == samples[i].fraction_lost);
    let at = choose|at: int|
        0 <= at < losses(samples).len() && #[trigger] losses(samples)[at] == largest(
            losses(samples),
        );
    assert(losses(samples)[at] == samples[at].fraction_lost);
}

/// The maxima of a window were reported in it.
pub proof fn maxima_were_reported(samples: Seq<RtcpQualitySample>)
    requires
        samples.len() > 0,
    ensures
        exists|i: int|
            0 <= i < samples.len() && (#[trigger] samples[i]).jitter_micros == summary(
                samples,
            ).max_jitter_micros,
        exists|i: int|
            0 <= i < samples.len() && (#[trigger] samples[i]).fraction_lost == summary(
                samples,
            ).max_fraction_lost,
{
    the_largest_bounds_all(jitters(samples));
    the_largest_bounds_all(losses(samples));
    let worst = choose|i: int|
        0 <= i < jitters(samples).len() && #[trigger] jitters(samples)[i] == largest(
            jitters(samples),
        );
    assert(samples[worst].jitter_micros == jitters(samples)[worst]);
    let lossy = choose|i: int|
        0 <= i < losses(samples).len() && #[trigger] losses(samples)[i] == largest(losses(samples));
    assert(samples[lossy].fraction_lost == losses(samples)[lossy]);
}

proof fn trips_come_from_samples(samples: Seq<RtcpQualitySample>)
    ensures
        forall|i: int|
            0 <= i < samples.len() && (#[trigger] samples[i]).round_trip_time_micros is Some
                ==> round_trips(samples).contains(samples[i].round_trip_time_micros->0),
        forall|k: int|
            0 <= k < round_trips(samples).len() ==> exists|i: int|
                0 <= i < samples.len() && (#[trigger] samples[i]).round_trip_time_micros == Some(
                    #[trigger] round_trips(samples)[k],
                ),
    decreases samples.len(),
{
    if samples.len() > 0 {
        let front = samples.drop_last();
        trips_come_from_samples(front);
        assert forall|i: int|
            0 <= i < samples.len() && (
            #[trigger] samples[i]).round_trip_time_micros is Some implies round_trips(
            samples,
        ).contains(samples[i].round_trip_time_micros->0) by {
            if i < front.len() {
                assert(front[i] == samples[i]);
                let at = round_trips(front).index_of(samples[i].round_trip_time_micros->0);
                assert(round_trips(samples)[at] == samples[i].round_trip_time_micros->0);
            } else {
                assert(round_trips(samples).last() == samples[i].round_trip_time_micros->0);
            }
        }
        assert forall|k: int| 0 <= k < round_trips(samples).len() implies exists|i: int|
            0 <= i < samples.len() && (#[trigger] samples[i]).round_trip_time_micros == Some(
                #[trigger] round_trips(samples)[k],
            ) by {
            if k < round_trips(front).len() {
                let i = choose|i: int|
                    0 <= i < front.len() && (#[trigger] front[i]).round_trip_time_micros == Some(
                        round_trips(front)[k],
                    );
                assert(samples[i] == front[i]);
            } else {
                assert(samples[samples.len() - 1].round_trip_time_micros == Some(
                    round_trips(samples)[k],
                ));
            }
        }
    }
}

/// Round trip times are summed up over the reports that carry one: the largest is
/// one of them and none is larger, and without any there is neither a largest nor
/// an average.
pub proof fn round_trips_count_where_measured(samples: Seq<RtcpQualitySample>)
    ensures
        forall|i: int|
            0 <= i < samples.len() && (#[trigger] samples[i]).round_trip_time_micros is Some ==> (
            summary(samples).max_round_trip_time_micros matches Some(max) && max
                >= samples[i].round_trip_time_micros->0),
        summary(samples).max_round_trip_time_micros is Some ==> exists|i: int|
            0 <= i < samples.len() && (#[trigger] samples[i]).round_trip_time_micros == summary(
                samples,
            ).max_round_trip_time_micros,
        summary(samples).average_round_trip_time_micros is Some <==> summary(
            samples,
        ).max_round_trip_time_micros is Some,
{
    let trips = round_trips(samples);
    trips_come_from_samples(samples);
    the_largest_bounds_all(trips);
    if trips.len() > 0 {
        let k = choose|k: int| 0 <= k < trips.len() && #[trigger] trips[k] == largest(trips);
        assert(trips[k] == largest(trips));
    }
    assert forall|i: int|
        0 <= i < samples.len() && (#[trigger] samples[i]).round_trip_time_micros is Some implies (
    summary(samples).max_round_trip_time_micros matches Some(max) && max
        >= samples[i].round_trip_time_micros->0) by {
        let at = trips.index_of(samples[i].round_trip_time_micros->0);
        assert(trips[at] <= largest(trips));
    }
}

/// Averages are taken over the whole window and rounded down; round trip times are
/// averaged over the reports that carry one.
pub proof fn averages_cover_the_window(samples: Seq<RtcpQualitySample>)
    requires
        0 < samples.len() <= usize::MAX,
    ensures
        ({
            let report = summary(samples);
            let jitter = adds_up(samples, |s: RtcpQualitySample| jitter_of(s));
            let trips = adds_up(samples, |s: RtcpQualitySample| trip_of(s));
            let count = adds_up(samples, |s: RtcpQualitySample| measured(s));
            &&& report.samples == samples.len()
            &&& report.latest_fraction_lost == samples[samples.len() - 1].fraction_lost
            &&& report.fraction_lost_sum == adds_up(samples, |s: RtcpQualitySample| loss_of(s))
            &&& report.average_jitter_micros * samples.len() <= jitter < (
            report.average_jitter_micros + 1) * samples.len()
            &&& report.average_round_trip_time_micros is Some <==> count > 0
            &&& report.average_round_trip_time_micros matches Some(average) ==> average * count
                <= trips < (average + 1) * count
        }),
{
    totals_add_up(samples);
    means_are_quotients(total(jitters(samples)), samples.len(), u64::MAX as nat);
    let trips = round_trips(samples);
    if trips.len() > 0 {
        means_are_quotients(total(trips), trips.len(), u64::MAX as nat);
    }
}

/// The level of a report follows from what it says: it is poor from a tenth of the
/// packets lost, 80 ms of jitter or an average round trip of 500 ms on, good below
/// a fiftieth, 30 ms and 200 ms, and degraded in between. An empty window is good.
pub proof fn levels_follow_the_thresholds(samples: Seq<RtcpQualitySample>)
    requires
        samples.len() <= usize::MAX,
    ensures
        ({
            let report = summary(samples);
            let trip = match report.average_round_trip_time_micros {
                Some(micros) => micros as int,
                None => 0int,
            };
            &&& samples.len() == 0 ==> report.level == RtcpNetworkQualityLevel::Good
            &&& samples.len() > 0 ==> {
                &&& report.level == RtcpNetworkQualityLevel::Poor <==> report.fraction_lost_sum
                    * 10 >= report.samples * 256 || report.max_jitter_micros >= 80_000 || trip
                    >= 500_000
                &&& report.level == RtcpNetworkQualityLevel::Good <==> report.fraction_lost_sum
                    * 50 < report.samples * 256 && report.max_jitter_micros < 30_000 && trip
                    < 200_000
            }
        }),
{
    totals_add_up(samples);
}

/// A window takes in every report: the newest stands last, all others keep their
/// order, and only the oldest leaves, and only when the window is full.
pub proof fn windows_forget_the_oldest(
    samples: Seq<RtcpQualitySample>,
    sample: RtcpQualitySample,
    limit: nat,
)
    requires
        1 <= limit,
        samples.len() <= limit,
    ensures
        ({
            let then = newest(samples.push(sample), limit);
            &&& then[then.len() - 1] == sample
            &&& samples.len() < limit ==> then.len() == samples.len() + 1 && forall|i: int|
                0 <= i < samples.len() ==> #[trigger] then[i] == samples[i]
            &&& samples.len() == limit ==> then.len() == limit && forall|i: int|
                0 <= i < limit - 1 ==> #[trigger] then[i] == samples[i + 1]
        }),
{
}

/// Without a report nothing is known against the network: the level is good and nothing
/// was lost, delayed or measured.
pub proof fn silence_is_good_news(samples: Seq<RtcpQualitySample>)
    requires
        samples.len() == 0,
    ensures
        ({
            let quiet = summary(samples);
            &&& quiet.samples == 0
            &&& quiet.level == RtcpNetworkQualityLevel::Good
            &&& quiet.latest_fraction_lost == 0 && quiet.fraction_lost_sum == 0
                && quiet.max_fraction_lost == 0
            &&& quiet.average_jitter_micros == 0 && quiet.max_jitter_micros == 0
            &&& quiet.average_round_trip_time_micros is None
            &&& quiet.max_round_trip_time_micros is None
        }),
{
}

} // verus!
