//! What an output worker reports about its media.
use super::time::sum;
use crate::transport::RtcpReceiverReportSnapshot;
use vstd::prelude::*;

verus! {

#[derive(Clone, Copy, Debug, PartialEq, Eq)]
pub struct StreamRuntimeProgress {
    pub generation: u64,
    pub start_position_ms: u64,
    pub media_sent_ms: u64,
    pub packets_sent: u64,
    pub bytes_sent: u64,
    pub dropped_frames: u64,
    pub dropped_media_ms: u64,
    pub latency_recoveries: u64,
    pub underruns: u64,
    pub buffered_ms: u64,
    pub max_lateness_ms: u64,
    pub sequence: u16,
    pub rtp_timestamp: u32,
    pub latest_receiver_report: Option<RtcpReceiverReportSnapshot>,
}

impl Default for StreamRuntimeProgress {
    fn default() -> (progress: Self)
        ensures
            progress == (StreamRuntimeProgress {
                generation: 0,
                start_position_ms: 0,
                media_sent_ms: 0,
                packets_sent: 0,
                bytes_sent: 0,
                dropped_frames: 0,
                dropped_media_ms: 0,
                latency_recoveries: 0,
                underruns: 0,
                buffered_ms: 0,
                max_lateness_ms: 0,
                sequence: 0,
                rtp_timestamp: 0,
                latest_receiver_report: None,
            }),
    {
        StreamRuntimeProgress {
            generation: 0,
            start_position_ms: 0,
            media_sent_ms: 0,
            packets_sent: 0,
            bytes_sent: 0,
            dropped_frames: 0,
            dropped_media_ms: 0,
            latency_recoveries: 0,
            underruns: 0,
            buffered_ms: 0,
            max_lateness_ms: 0,
            sequence: 0,
            rtp_timestamp: 0,
            latest_receiver_report: None,
        }
    }
}

impl StreamRuntimeProgress {
    #[must_use]
    pub fn stream_position_ms(self) -> (position: u64)
        ensures
            position == sum(self.start_position_ms, self.media_sent_ms),
    {
        self.start_position_ms.saturating_add(self.media_sent_ms)
    }
}

} // verus!
