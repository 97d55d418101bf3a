use music_stream::quality::{
    average_u128, average_u64, classify_quality, RtcpQualitySample, RtcpQualityWindow,
    RtcpQualityWindowConfig,
};
use music_stream::transport::sample_of;
use music_stream::{RtcpNetworkQualityLevel, RtcpQualityWindowSnapshot, RtcpReceiverReportSnapshot};

fn latest_percent(snapshot: &RtcpQualityWindowSnapshot) -> f64 {
    f64::from(snapshot.latest_fraction_lost) * 100.0 / 256.0
}

fn average_percent(snapshot: &RtcpQualityWindowSnapshot) -> f64 {
    snapshot.fraction_lost_sum as f64 * 100.0 / (snapshot.samples as f64 * 256.0)
}

fn max_percent(snapshot: &RtcpQualityWindowSnapshot) -> f64 {
    f64::from(snapshot.max_fraction_lost) * 100.0 / 256.0
}

#[test]
fn quality_window_aggregates_recent_receiver_reports() {
    let mut window = RtcpQualityWindow::new(RtcpQualityWindowConfig { max_reports: 3 });

    window.observe(sample(1, 0, 1_000, Some(10_000)));
    window.observe(sample(2, 26, 2_000, None));
    let snapshot = window.observe(sample(3, 52, 3_000, Some(30_000)));

    assert_eq!(snapshot.samples, 3);
    assert_eq!(snapshot.level, RtcpNetworkQualityLevel::Poor);
    assert_eq!(snapshot.latest_fraction_lost, 52);
    assert_eq!(latest_percent(&snapshot), 20.3125);
    assert_eq!(average_percent(&snapshot), 10.15625);
    assert_eq!(max_percent(&snapshot), 20.3125);
    assert_eq!(snapshot.average_jitter_micros, 2_000);
    assert_eq!(snapshot.max_jitter_micros, 3_000);
    assert_eq!(snapshot.average_round_trip_time_micros, Some(20_000));
    assert_eq!(snapshot.max_round_trip_time_micros, Some(30_000));
}

#[test]
fn quality_window_evicts_oldest_samples() {
    let mut window = RtcpQualityWindow::new(RtcpQualityWindowConfig { max_reports: 2 });

    window.observe(sample(1, 255, 50_000, Some(100_000)));
    window.observe(sample(2, 0, 1_000, None));
    let snapshot = window.observe(sample(3, 0, 3_000, Some(20_000)));

    assert_eq!(snapshot.samples, 2);
    assert_eq!(snapshot.level, RtcpNetworkQualityLevel::Good);
    assert_eq!(max_percent(&snapshot), 0.0);
    assert_eq!(snapshot.average_jitter_micros, 2_000);
    assert_eq!(snapshot.average_round_trip_time_micros, Some(20_000));
}

#[test]
fn quality_window_classifies_degraded_jitter_and_rtt() {
    let mut window = RtcpQualityWindow::new(RtcpQualityWindowConfig { max_reports: 3 });

    let jitter = window.observe(sample(1, 0, 30_000, None));
    assert_eq!(jitter.level, RtcpNetworkQualityLevel::Degraded);

    let mut window = RtcpQualityWindow::new(RtcpQualityWindowConfig { max_reports: 3 });
    let rtt = window.observe(sample(1, 0, 1_000, Some(200_000)));
    assert_eq!(rtt.level, RtcpNetworkQualityLevel::Degraded);
}

fn sample(
    reports_received: usize,
    fraction_lost: u8,
    jitter_micros: u64,
    round_trip_time_micros: Option<u64>,
) -> RtcpQualitySample {
    RtcpQualitySample {
        reports_received,
        fraction_lost,
        jitter_micros,
        round_trip_time_micros,
    }
}

#[test]
fn quality_levels_change_exactly_at_their_thresholds() {
    // 10 percent of 256 is 25.6 and 2 percent is 5.12.
    assert_eq!(classify_quality(256, 10, 0, None), RtcpNetworkQualityLevel::Poor);
    assert_eq!(classify_quality(255, 10, 0, None), RtcpNetworkQualityLevel::Degraded);
    assert_eq!(classify_quality(128, 25, 0, None), RtcpNetworkQualityLevel::Degraded);
    assert_eq!(classify_quality(127, 25, 0, None), RtcpNetworkQualityLevel::Good);
    assert_eq!(classify_quality(0, 1, 80_000, None), RtcpNetworkQualityLevel::Poor);
    assert_eq!(classify_quality(0, 1, 79_999, None), RtcpNetworkQualityLevel::Degraded);
    assert_eq!(classify_quality(0, 1, 29_999, None), RtcpNetworkQualityLevel::Good);
    assert_eq!(classify_quality(0, 1, 0, Some(500_000)), RtcpNetworkQualityLevel::Poor);
    assert_eq!(classify_quality(0, 1, 0, Some(199_999)), RtcpNetworkQualityLevel::Good);
}

#[test]
fn averages_round_down_and_saturate() {
    assert_eq!(average_u128(7, 2), 3);
    assert_eq!(average_u128(7, 0), 0);
    assert_eq!(average_u128(u128::MAX, 1), u64::MAX);
    assert_eq!(average_u64(&[]), None);
    assert_eq!(average_u64(&[1, 2, 4]), Some(2));
    assert_eq!(average_u64(&[u64::MAX, u64::MAX]), Some(u64::MAX));
}

#[test]
fn an_empty_window_reports_nothing() {
    let window = RtcpQualityWindow::default();
    assert_eq!(window.snapshot(), RtcpQualityWindowSnapshot::default());
    let mut narrow = RtcpQualityWindow::new(RtcpQualityWindowConfig { max_reports: 0 });
    narrow.observe(sample(1, 9, 1, None));
    assert_eq!(narrow.observe(sample(2, 3, 1, None)).samples, 1);
}

#[test]
fn receiver_reports_become_samples_field_by_field() {
    let report = RtcpReceiverReportSnapshot {
        reports_received: 4,
        fraction_lost: 5,
        jitter_micros: 6,
        round_trip_time_micros: Some(7),
    };
    assert_eq!(sample_of(report), sample(4, 5, 6, Some(7)));
}
