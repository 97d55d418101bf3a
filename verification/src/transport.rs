//! Values exchanged with the packet layer.
use crate::error::MusicStreamError;
use crate::quality::RtcpQualitySample;
use vstd::prelude::*;
use vstd::std_specs::convert::FromSpecImpl;

verus! {

/// Where the packets of a stream go.
#[derive(Debug, PartialEq, Eq)]
pub struct RtpTransportConfig {
    pub remote_ip: String,
    pub remote_port: u16,
    pub ssrc: u32,
    /// Largest datagram in bytes.
    pub mtu: usize,
    /// Packets leave without protection.
    pub plaintext: bool,
}

impl RtpTransportConfig {
    /// Protected packets need a protector, which no output has.
    pub fn require_plaintext(&self) -> (result: Result<(), MusicStreamError>)
        ensures
            result is Ok <==> self.plaintext,
            result matches Err(error) ==> (error matches MusicStreamError::Unsupported(text)
                && text@ == "RTP protection requires an installed packet protector"@),
    {
        if !self.plaintext {
            return Err(
                MusicStreamError::Unsupported(
                    "RTP protection requires an installed packet protector".to_owned(),
                ),
            );
        }
        Ok(())
    }
}

/// One parsed receiver report about this sender.
#[derive(Clone, Copy, Debug, PartialEq, Eq)]
pub struct RtcpReceiverReportSnapshot {
    pub reports_received: usize,
    pub fraction_lost: u8,
    pub jitter_micros: u64,
    pub round_trip_time_micros: Option<u64>,
}

impl FromSpecImpl<RtcpReceiverReportSnapshot> for RtcpQualitySample {
    open spec fn obeys_from_spec() -> bool {
        true
    }

    open spec fn from_spec(snapshot: RtcpReceiverReportSnapshot) -> Self {
        RtcpQualitySample {
            reports_received: snapshot.reports_received,
            fraction_lost: snapshot.fraction_lost,
            jitter_micros: snapshot.jitter_micros,
            round_trip_time_micros: snapshot.round_trip_time_micros,
        }
    }
}

impl From<RtcpReceiverReportSnapshot> for RtcpQualitySample {
    fn from(snapshot: RtcpReceiverReportSnapshot) -> (sample: Self) {
        RtcpQualitySample {
            reports_received: snapshot.reports_received,
            fraction_lost: snapshot.fraction_lost,
            jitter_micros: snapshot.jitter_micros,
            round_trip_time_micros: snapshot.round_trip_time_micros,
        }
    }
}

pub open spec fn spec_sample_of(snapshot: RtcpReceiverReportSnapshot) -> RtcpQualitySample {
    RtcpQualitySample {
        reports_received: snapshot.reports_received,
        fraction_lost: snapshot.fraction_lost,
        jitter_micros: snapshot.jitter_micros,
        round_trip_time_micros: snapshot.round_trip_time_micros,
    }
}

/// The quality sample that a report amounts to.
pub fn sample_of(snapshot: RtcpReceiverReportSnapshot) -> (sample: RtcpQualitySample)
    ensures
        sample == spec_sample_of(snapshot),
{
    RtcpQualitySample::from(snapshot)
}

/// A report counts as it was received.
pub proof fn reports_are_taken_as_received(snapshot: RtcpReceiverReportSnapshot)
    ensures
        spec_sample_of(snapshot).reports_received == snapshot.reports_received,
        spec_sample_of(snapshot).fraction_lost == snapshot.fraction_lost,
        spec_sample_of(snapshot).jitter_micros == snapshot.jitter_micros,
        spec_sample_of(snapshot).round_trip_time_micros == snapshot.round_trip_time_micros,
{
}

} // verus!
