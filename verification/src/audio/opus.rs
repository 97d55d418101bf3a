//! Settings of the Opus encoder and the checks around one encoded frame.
use super::frame::{copied_payload, payload_bytes, OpusFrame, PcmFrame};
use crate::error::MusicStreamError;
use vstd::prelude::*;

verus! {

pub const OPUS_SAMPLE_RATE_HZ: u32 = 48_000;

pub const OPUS_CHANNELS: u16 = 2;

pub const OPUS_FRAME_SAMPLES: u32 = 960;

pub const OPUS_MAX_PACKET_BYTES: usize = 1_500;

pub const OPUS_MIN_BITRATE_BPS: u32 = 500;

pub const OPUS_MAX_BITRATE_BPS: u32 = 512_000;

pub const OPUS_MUSIC_BITRATE_BPS: u32 = 320_000;

#[derive(Clone, Copy, Debug, PartialEq, Eq)]
pub struct LibOpusEncoderConfig {
    pub sample_rate: u32,
    pub channels: u16,
    pub max_packet_bytes: usize,
    pub bitrate_bps: Option<i32>,
    pub complexity: i32,
    pub vbr: bool,
    pub constrained_vbr: bool,
}

impl Default for LibOpusEncoderConfig {
    fn default() -> (config: Self)
        ensures
            config == (LibOpusEncoderConfig {
                sample_rate: 48_000,
                channels: 2,
                max_packet_bytes: 1_500,
                bitrate_bps: Some(128_000),
                complexity: 10,
                vbr: true,
                constrained_vbr: true,
            }),
    {
        LibOpusEncoderConfig {
            sample_rate: 48_000,
            channels: 2,
            max_packet_bytes: 1_500,
            bitrate_bps: Some(128_000),
            complexity: 10,
            vbr: true,
            constrained_vbr: true,
        }
    }
}

impl LibOpusEncoderConfig {
    /// What is wrong with the settings, if anything is.
    pub open spec fn complaint(self) -> Option<Seq<char>> {
        if self.sample_rate != 48_000 {
            Some("Opus RTP output requires 48kHz input"@)
        } else if self.channels != 1 && self.channels != 2 {
            Some("Opus encoder supports mono or stereo input"@)
        } else if self.max_packet_bytes == 0 {
            Some("max_packet_bytes must be greater than zero"@)
        } else if !(0 <= self.complexity <= 10) {
            Some("Opus complexity must be between 0 and 10"@)
        } else if self.bitrate_bps matches Some(bitrate) && !(500 <= bitrate <= 512_000) {
            Some("Opus bitrate must be between 500 and 512000 bps"@)
        } else {
            None
        }
    }

    /// Checks the settings before an encoder is made from them.
    pub fn validate(&self) -> (result: Result<(), MusicStreamError>)
        ensures
            result is Ok <==> self.complaint() is None,
            result matches Err(error) ==> error matches MusicStreamError::InvalidConfig(text)
                && Some(text@) == self.complaint(),
    {
        if self.sample_rate != 48_000 {
            return Err(
                MusicStreamError::InvalidConfig("Opus RTP output requires 48kHz input".to_owned()),
            );
        }
        if self.channels != 1 && self.channels != 2 {
            return Err(
                MusicStreamError::InvalidConfig(
                    "Opus encoder supports mono or stereo input".to_owned(),
                ),
            );
        }
        if self.max_packet_bytes == 0 {
            return Err(
                MusicStreamError::InvalidConfig(
                    "max_packet_bytes must be greater than zero".to_owned(),
                ),
            );
        }
        if self.complexity < 0 || self.complexity > 10 {
            return Err(
                MusicStreamError::InvalidConfig(
                    "Opus complexity must be between 0 and 10".to_owned(),
                ),
            );
        }
        if let Some(bitrate) = self.bitrate_bps {
            if bitrate < 500 || bitrate > 512_000 {
                return Err(
                    MusicStreamError::InvalidConfig(
                        "Opus bitrate must be between 500 and 512000 bps".to_owned(),
                    ),
                );
            }
        }
        Ok(())
    }
}

/// An encoder of PCM frames.
pub trait OpusEncoderBackend<T> {
    fn encode(&mut self, frame: &PcmFrame<T>) -> (encoded: Result<OpusFrame, MusicStreamError>);
}

/// What is wrong with a frame for an encoder with these settings, if anything is.
pub open spec fn frame_complaint<T>(config: LibOpusEncoderConfig, frame: PcmFrame<T>) -> Option<
    Seq<char>,
> {
    if frame.sample_rate != config.sample_rate || frame.channels != config.channels {
        Some("PCM frame format does not match Opus encoder config"@)
    } else if frame.samples@.len() != frame.samples_per_channel * config.channels {
        Some("PCM frame sample count does not match frame metadata"@)
    } else {
        None
    }
}

/// Checks a frame before it is encoded.
pub fn check_frame<T>(config: &LibOpusEncoderConfig, frame: &PcmFrame<T>) -> (result: Result<
    (),
    MusicStreamError,
>)
    ensures
        result is Ok <==> frame_complaint(*config, *frame) is None,
        result matches Err(error) ==> error matches MusicStreamError::EncodeError(text)
            && Some(text@) == frame_complaint(*config, *frame),
{
    if frame.sample_rate != config.sample_rate || frame.channels != config.channels {
        return Err(
            MusicStreamError::EncodeError(
                "PCM frame format does not match Opus encoder config".to_owned(),
            ),
        );
    }
    assert(frame.samples_per_channel * config.channels <= 0xffff_ffff * 0xffff)
        by (nonlinear_arith)
        requires
            0 <= frame.samples_per_channel <= 0xffff_ffff,
            0 <= config.channels <= 0xffff,
    ;
    let expected: u64 = frame.samples_per_channel as u64 * config.channels as u64;
    if frame.samples.len() as u64 != expected {
        return Err(
            MusicStreamError::EncodeError(
                "PCM frame sample count does not match frame metadata".to_owned(),
            ),
        );
    }
    Ok(())
}

/// `encoded` carries `data` under the metadata of `frame`; the first frame of a
/// track is marked.
pub open spec fn encodes<T>(encoded: OpusFrame, frame: PcmFrame<T>, data: Seq<u8>) -> bool {
    &&& encoded.generation == frame.generation
    &&& payload_bytes(encoded.payload) == data
    &&& encoded.samples_per_channel == frame.samples_per_channel
    &&& encoded.duration_ms == frame.spec_duration_ms()
    &&& encoded.marker == (frame.track_position_samples == 0)
    &&& encoded.track_position_samples == frame.track_position_samples
}

/// The frame that carries an encoder's output.
pub fn encoded_frame<T>(frame: &PcmFrame<T>, data: &[u8]) -> (encoded: OpusFrame)
    ensures
        encodes(encoded, *frame, data@),
{
    OpusFrame {
        generation: frame.generation,
        payload: copied_payload(data),
        samples_per_channel: frame.samples_per_channel,
        duration_ms: frame.duration_ms(),
        marker: frame.track_position_samples == 0,
        track_position_samples: frame.track_position_samples,
    }
}

/// Which settings an encoder takes: 48000 samples a second of one or two channels,
/// packets with room for something, a complexity up to ten, and a bitrate, if any is
/// set, from 500 to 512000 bits a second.
pub proof fn encoders_take_these_settings(config: LibOpusEncoderConfig)
    ensures
        config.complaint() is None <==> {
            &&& config.sample_rate == 48_000
            &&& 1 <= config.channels <= 2
            &&& config.max_packet_bytes >= 1
            &&& 0 <= config.complexity <= 10
            &&& config.bitrate_bps matches Some(bitrate) ==> 500 <= bitrate <= 512_000
        },
{
}

/// A frame can be encoded if it has the rate and the channels that the encoder was
/// made for, and as many samples as it says.
pub proof fn frames_fit_their_encoder<T>(config: LibOpusEncoderConfig, frame: PcmFrame<T>)
    ensures
        frame_complaint(config, frame) is None <==> frame.sample_rate == config.sample_rate
            && frame.channels == config.channels && frame.samples@.len()
            == frame.samples_per_channel * frame.channels,
{
}

/// An encoded frame is the frame it was made of: its generation, position, samples and
/// time stay, and it is marked if it is the first of its track.
pub proof fn encoding_keeps_what_a_frame_is<T>(
    encoded: OpusFrame,
    frame: PcmFrame<T>,
    data: Seq<u8>,
    millis: u32,
)
    requires
        encodes(encoded, frame, data),
    ensures
        encoded.generation == frame.generation,
        encoded.track_position_samples == frame.track_position_samples,
        encoded.samples_per_channel == frame.samples_per_channel,
        payload_bytes(encoded.payload) == data,
        encoded.marker <==> frame.track_position_samples == 0,
        frame.sample_rate == 48_000 && frame.samples_per_channel == 48 * millis
            ==> encoded.duration_ms == millis,
{
}

} // verus!
