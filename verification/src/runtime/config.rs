//! Settings of one stream runtime.
use super::resources::{RuntimeResourceLimits, TEMPFILE_QUOTA_BYTES};
use crate::audio::opus::{
    LibOpusEncoderConfig, OPUS_MAX_BITRATE_BPS, OPUS_MAX_PACKET_BYTES, OPUS_MIN_BITRATE_BPS,
    OPUS_MUSIC_BITRATE_BPS,
};
use crate::error::MusicStreamError;
use crate::model::{byte_len, bytes_in, MediaBufferConfig};
use crate::text::{blank, is_blank};
use crate::transport::RtpTransportConfig;
use vstd::prelude::*;

verus! {

/// Forty-five seconds.
pub const ATTEMPT_START_TIMEOUT_NANOS: u128 = 45_000_000_000;

/// Fifteen minutes.
pub const MAX_ATTEMPT_START_TIMEOUT_NANOS: u128 = 900_000_000_000;

/// Five seconds.
pub const RTCP_INTERVAL_NANOS: u128 = 5_000_000_000;

pub const MAX_STREAM_ID_BYTES: usize = 512;

/// The room that an RTP header takes in a datagram.
pub const RTP_HEADER_BYTES: usize = 12;

#[derive(Debug, PartialEq, Eq)]
pub enum StreamOutputConfig {
    Rtp(RtpTransportConfig),
    ExternalPull,
}

/// What the source layer may use for one stream.
#[derive(Clone, Copy, Debug, PartialEq, Eq, Structural)]
pub struct SourceLimits {
    pub live_max_buffered_bytes: usize,
    pub http_max_bytes: u64,
}

#[derive(Debug)]
pub struct StreamRuntimeConfig {
    pub output: StreamOutputConfig,
    /// Target bitrate for the shared Opus producer, independent of output kind.
    pub opus_bitrate_bps: u32,
    pub source: SourceLimits,
    pub limits: RuntimeResourceLimits,
    pub buffer: MediaBufferConfig,
    /// Nanoseconds between sender reports.
    pub rtcp_interval: u128,
    /// Maximum active wall-clock time, in nanoseconds, for one current/next attempt to reach its
    /// ready fact.
    pub attempt_start_timeout: u128,
}

/// Which check of a configuration fails first.
pub enum ConfigComplaint {
    Transport,
    Source,
    Config(Seq<char>),
}

impl StreamRuntimeConfig {
    /// Settings with the usual bitrate, buffers and timeouts.
    pub open spec fn usual(
        output: StreamOutputConfig,
        source: SourceLimits,
        limits: RuntimeResourceLimits,
    ) -> StreamRuntimeConfig {
        StreamRuntimeConfig {
            output,
            opus_bitrate_bps: OPUS_MUSIC_BITRATE_BPS,
            source,
            limits,
            buffer: MediaBufferConfig {
                decode_batch_ms: 80,
                encoded_capacity_ms: 400,
                prebuffer_ms: 100,
                next_prime_ms: 200,
                max_playout_lateness_ms: 100,
            },
            rtcp_interval: RTCP_INTERVAL_NANOS,
            attempt_start_timeout: ATTEMPT_START_TIMEOUT_NANOS,
        }
    }

    #[must_use]
    pub fn new(
        transport: RtpTransportConfig,
        source: SourceLimits,
        limits: RuntimeResourceLimits,
    ) -> (config: Self)
        ensures
            config == StreamRuntimeConfig::usual(
                StreamOutputConfig::Rtp(transport),
                source,
                limits,
            ),
    {
        StreamRuntimeConfig {
            output: StreamOutputConfig::Rtp(transport),
            opus_bitrate_bps: OPUS_MUSIC_BITRATE_BPS,
            source,
            limits,
            buffer: MediaBufferConfig::default(),
            rtcp_interval: RTCP_INTERVAL_NANOS,
            attempt_start_timeout: ATTEMPT_START_TIMEOUT_NANOS,
        }
    }

    #[must_use]
    pub fn new_external_pull(source: SourceLimits, limits: RuntimeResourceLimits) -> (config: Self)
        ensures
            config == StreamRuntimeConfig::usual(
                StreamOutputConfig::ExternalPull,
                source,
                limits,
            ),
    {
        StreamRuntimeConfig {
            output: StreamOutputConfig::ExternalPull,
            opus_bitrate_bps: OPUS_MUSIC_BITRATE_BPS,
            source,
            limits,
            buffer: MediaBufferConfig::default(),
            rtcp_interval: RTCP_INTERVAL_NANOS,
            attempt_start_timeout: ATTEMPT_START_TIMEOUT_NANOS,
        }
    }

    /// Quota units that the largest source takes.
    pub open spec fn source_tempfile_units(self) -> int {
        (self.source.http_max_bytes + TEMPFILE_QUOTA_BYTES - 1) / TEMPFILE_QUOTA_BYTES as int
    }

    pub open spec fn runtime_tempfile_units(self) -> int {
        self.limits.max_tempfile_bytes as int / TEMPFILE_QUOTA_BYTES as int
    }

    /// The first complaint, given whether the packet layer accepts its transport
    /// and the source layer its settings.
    pub open spec fn complaint(self, transport_ok: bool, source_ok: bool) -> Option<
        ConfigComplaint,
    > {
        if self.output is Rtp && !transport_ok {
            Some(ConfigComplaint::Transport)
        } else if !(OPUS_MIN_BITRATE_BPS <= self.opus_bitrate_bps <= OPUS_MAX_BITRATE_BPS) {
            Some(ConfigComplaint::Config("Opus bitrate must be between 500 and 512000 bps"@))
        } else if !source_ok {
            Some(ConfigComplaint::Source)
        } else if self.buffer.complaint() is Some {
            Some(ConfigComplaint::Config(self.buffer.complaint()->0))
        } else if self.source.live_max_buffered_bytes > self.limits.max_live_buffered_bytes {
            Some(
                ConfigComplaint::Config(
                    "per-stream live buffer must fit the runtime-wide streaming byte budget"@,
                ),
            )
        } else if self.source_tempfile_units() > self.runtime_tempfile_units() / 4 {
            Some(
                ConfigComplaint::Config(
                    "per-source HTTP max bytes must not exceed one quarter of the runtime tempfile budget"@,
                ),
            )
        } else if self.rtcp_interval == 0 {
            Some(ConfigComplaint::Config("RTCP interval must be greater than zero"@))
        } else if self.attempt_start_timeout == 0 || self.attempt_start_timeout
            > MAX_ATTEMPT_START_TIMEOUT_NANOS {
            Some(
                ConfigComplaint::Config(
                    "attempt startup timeout must be between 1 millisecond and 15 minutes"@,
                ),
            )
        } else {
            None
        }
    }

    /// Checks the settings. `transport` is the verdict of the packet layer on its
    /// transport, which only an RTP output has; `source` is that of the source
    /// layer.
    pub fn validate(
        &self,
        transport: Result<(), MusicStreamError>,
        source: Result<(), MusicStreamError>,
    ) -> (result: Result<(), MusicStreamError>)
        ensures
            match self.complaint(transport is Ok, source is Ok) {
                None => result is Ok,
                Some(ConfigComplaint::Transport) => result == transport,
                Some(ConfigComplaint::Source) => result == source,
                Some(ConfigComplaint::Config(text)) => result matches Err(error) && (
                error matches MusicStreamError::InvalidConfig(message) && message@ == text),
            },
    {
        match &self.output {
            StreamOutputConfig::Rtp(_) => {
                if transport.is_err() {
                    return transport;
                }
            },
            StreamOutputConfig::ExternalPull => {},
        }
        if self.opus_bitrate_bps < OPUS_MIN_BITRATE_BPS || self.opus_bitrate_bps
            > OPUS_MAX_BITRATE_BPS {
            return Err(
                MusicStreamError::InvalidConfig(
                    "Opus bitrate must be between 500 and 512000 bps".to_owned(),
                ),
            );
        }
        if source.is_err() {
            return source;
        }
        match self.buffer.validate() {
            Ok(()) => {},
            Err(error) => {
                return Err(error);
            },
        }
        if self.source.live_max_buffered_bytes > self.limits.max_live_buffered_bytes {
            return Err(
                MusicStreamError::InvalidConfig(
                    "per-stream live buffer must fit the runtime-wide streaming byte budget".to_owned(),
                ),
            );
        }
        let source_units: u128 = (self.source.http_max_bytes as u128 + (TEMPFILE_QUOTA_BYTES as u128
            - 1)) / TEMPFILE_QUOTA_BYTES as u128;
        let runtime_units: u64 = self.limits.max_tempfile_bytes / TEMPFILE_QUOTA_BYTES;
        if source_units > (runtime_units / 4) as u128 {
            return Err(
                MusicStreamError::InvalidConfig(
                    "per-source HTTP max bytes must not exceed one quarter of the runtime tempfile budget".to_owned(),
                ),
            );
        }
        if self.rtcp_interval == 0 {
            return Err(
                MusicStreamError::InvalidConfig(
                    "RTCP interval must be greater than zero".to_owned(),
                ),
            );
        }
        if self.attempt_start_timeout == 0 || self.attempt_start_timeout
            > MAX_ATTEMPT_START_TIMEOUT_NANOS {
            return Err(
                MusicStreamError::InvalidConfig(
                    "attempt startup timeout must be between 1 millisecond and 15 minutes".to_owned(),
                ),
            );
        }
        Ok(())
    }

    /// The encoder settings of the producers of this stream: a packet fits the
    /// datagrams of the output.
    #[must_use]
    pub fn encoder(&self) -> (encoder: LibOpusEncoderConfig)
        requires
            self.opus_bitrate_bps <= OPUS_MAX_BITRATE_BPS,
        ensures
            encoder.max_packet_bytes == match self.output {
                StreamOutputConfig::Rtp(transport) => if transport.mtu > RTP_HEADER_BYTES {
                    (transport.mtu - RTP_HEADER_BYTES) as usize
                } else {
                    0
                },
                StreamOutputConfig::ExternalPull => OPUS_MAX_PACKET_BYTES,
            },
            encoder.bitrate_bps == Some(self.opus_bitrate_bps as i32),
            encoder.sample_rate == 48_000,
            encoder.channels == 2,
            encoder.complexity == 10,
            encoder.vbr,
            encoder.constrained_vbr,
    {
        let max_packet_bytes: usize = match &self.output {
            StreamOutputConfig::Rtp(transport) => transport.mtu.saturating_sub(RTP_HEADER_BYTES),
            StreamOutputConfig::ExternalPull => OPUS_MAX_PACKET_BYTES,
        };
        let mut encoder = LibOpusEncoderConfig::default();
        encoder.max_packet_bytes = max_packet_bytes;
        encoder.bitrate_bps = Some(self.opus_bitrate_bps as i32);
        encoder
    }

    /// Only the external output hands frames out.
    pub fn external_output(&self) -> (result: Result<(), MusicStreamError>)
        ensures
            result is Ok <==> self.output is ExternalPull,
            result matches Err(error) ==> (error matches MusicStreamError::Unsupported(text)
                && text@ == "RTP streams do not expose external Opus frames"@),
    {
        match &self.output {
            StreamOutputConfig::ExternalPull => Ok(()),
            StreamOutputConfig::Rtp(_) => Err(
                MusicStreamError::Unsupported(
                    "RTP streams do not expose external Opus frames".to_owned(),
                ),
            ),
        }
    }
}

pub open spec fn stream_id_ok(stream_id: Seq<char>) -> bool {
    !blank(stream_id) && byte_len(stream_id) <= MAX_STREAM_ID_BYTES
}

pub fn validate_stream_id(stream_id: &str) -> (result: Result<(), MusicStreamError>)
    ensures
        result is Ok <==> stream_id_ok(stream_id@),
        result matches Err(error) ==> (error matches MusicStreamError::InvalidConfig(text) && text@
            == "stream id must contain 1 to 512 bytes"@),
{
    if is_blank(stream_id) || bytes_in(stream_id) > MAX_STREAM_ID_BYTES {
        return Err(
            MusicStreamError::InvalidConfig("stream id must contain 1 to 512 bytes".to_owned()),
        );
    }
    Ok(())
}

/// The encoder settings of a valid configuration are accepted by the encoder,
/// as long as a datagram has room for more than its header.
pub proof fn valid_streams_have_valid_encoders(
    config: StreamRuntimeConfig,
    encoder: LibOpusEncoderConfig,
)
    requires
        config.complaint(true, true) is None,
        config.output matches StreamOutputConfig::Rtp(transport) ==> transport.mtu
            > RTP_HEADER_BYTES,
        encoder.max_packet_bytes == match config.output {
            StreamOutputConfig::Rtp(transport) => if transport.mtu > RTP_HEADER_BYTES {
                (transport.mtu - RTP_HEADER_BYTES) as usize
            } else {
                0
            },
            StreamOutputConfig::ExternalPull => OPUS_MAX_PACKET_BYTES,
        },
        encoder.bitrate_bps == Some(config.opus_bitrate_bps as i32),
        encoder.sample_rate == 48_000,
        encoder.channels == 2,
        encoder.complexity == 10,
    ensures
        encoder.complaint() is None,
{
}

/// Which settings are accepted, once the packet layer and the source layer accept
/// theirs: a bitrate that the encoder can be set to, sound buffers, a live buffer
/// that fits the budget of the process, downloads that take up no more than a
/// quarter of its storage, and intervals that pass and end.
pub proof fn valid_settings_fit_the_process(config: StreamRuntimeConfig)
    ensures
        config.complaint(true, true) is None <==> {
            &&& 500 <= config.opus_bitrate_bps <= 512_000
            &&& config.buffer.is_valid()
            &&& config.source.live_max_buffered_bytes <= config.limits.max_live_buffered_bytes
            &&& 4 * ((config.source.http_max_bytes + 1_048_575) / 1_048_576)
                <= config.limits.max_tempfile_bytes as int / 1_048_576
            &&& config.rtcp_interval > 0
            &&& 0 < config.attempt_start_timeout <= 900_000_000_000
        },
{
}

/// What the packet layer says counts only where there are packets; what the source
/// layer says always counts. Nothing is accepted that one of them refuses.
pub proof fn refused_layers_refuse_the_settings(
    config: StreamRuntimeConfig,
    transport_ok: bool,
    source_ok: bool,
)
    ensures
        config.complaint(transport_ok, source_ok) is None <==> config.complaint(true, true) is None
            && source_ok && (transport_ok || config.output is ExternalPull),
{
}

/// Downloads of a stream whose settings are accepted leave room for three more of
/// their size.
pub proof fn downloads_leave_room(config: StreamRuntimeConfig)
    requires
        config.complaint(true, true) is None,
    ensures
        4 * config.source.http_max_bytes <= config.limits.max_tempfile_bytes,
{
}

/// Streams are usually encoded at 320 kbit/s, report every five seconds and give an
/// attempt three quarters of a minute; such settings are accepted wherever the
/// budgets of the process are met.
pub proof fn usual_settings_are_accepted(
    output: StreamOutputConfig,
    source: SourceLimits,
    limits: RuntimeResourceLimits,
)
    ensures
        ({
            let config = StreamRuntimeConfig::usual(output, source, limits);
            &&& config.output == output && config.source == source && config.limits == limits
            &&& config.opus_bitrate_bps == 320_000
            &&& config.rtcp_interval == 5 * 1_000_000_000
            &&& config.attempt_start_timeout == 45 * 1_000_000_000
            &&& config.complaint(true, true) is None <==> source.live_max_buffered_bytes
                <= limits.max_live_buffered_bytes && 4 * ((source.http_max_bytes + 1_048_575)
                / 1_048_576) <= limits.max_tempfile_bytes as int / 1_048_576
        }),
{
}

/// A stream is named by up to 512 bytes that are not all blank.
pub proof fn stream_names_are_short_and_visible(name: Seq<char>)
    ensures
        stream_id_ok(name) <==> !blank(name) && byte_len(name) <= 512,
{
}

/// A packet of the encoder fits into a datagram of the output, header and all, at the
/// bitrate that the stream was set to.
pub proof fn packets_fit_their_datagrams(
    config: StreamRuntimeConfig,
    encoder: LibOpusEncoderConfig,
)
    requires
        config.opus_bitrate_bps <= 512_000,
        call_ensures(StreamRuntimeConfig::encoder, (&config,), encoder),
    ensures
        config.output matches StreamOutputConfig::Rtp(transport) ==> transport.mtu > 12
            ==> encoder.max_packet_bytes + 12 == transport.mtu,
        config.output is ExternalPull ==> encoder.max_packet_bytes == 1_500,
        encoder.bitrate_bps == Some(config.opus_bitrate_bps as i32),
        encoder.sample_rate == 48_000,
        encoder.channels == 2,
{
}

} // verus!
