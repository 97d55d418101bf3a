//! Verified core of a long-lived music stream.
//!
//! The library holds the state machines, bounded queues, clocks, validation
//! rules and bookkeeping of one realtime audio stream. Sockets, threads, timers,
//! codecs and sample arithmetic live in the surrounding application, which hands
//! plain values in and performs the returned actions.

pub mod audio;
pub mod control;
pub mod engine;
pub mod error;
pub mod event;
pub mod headers;
pub mod lifecycle;
pub mod model;
pub mod quality;
pub mod runtime;
pub mod session;
pub mod slot;
pub mod text;
pub mod transport;

pub use audio::decode::{DecodePoll, DecodedChunk, DecoderBackend};
pub use audio::dsp::{ReplayGainMetadata, ReplayGainMode, ReplayGainSource};
pub use audio::format::AudioFormat;
pub use audio::frame::{OpusFrame, PcmFrame};
pub use audio::opus::{LibOpusEncoderConfig, OpusEncoderBackend};
pub use audio::pipeline::{PipelineConfig, PlayoutPipeline, WorkerTurnReport};
pub use audio::resample::{RubatoResamplerConfig, RubatoResamplingDecoder};
pub use error::{ErrorCode, MusicStreamError};
pub use event::{SourceRole, StreamEvent};
pub use model::{
    GainLevel, MediaBufferConfig, NetworkPolicy, PlayState, StreamStatus, TrackKind, TrackSource,
    VolumeLevel,
};
pub use quality::{RtcpNetworkQualityLevel, RtcpQualityWindowSnapshot};
pub use runtime::config::{StreamOutputConfig, StreamRuntimeConfig};
pub use runtime::external_pull::{ExternalFrameAck, ExternalFrameOutcome, ExternalOpusFrame};
pub use runtime::orchestration::StreamRuntimeSnapshot;
pub use runtime::progress::StreamRuntimeProgress;
pub use runtime::resources::{RuntimeResourceLimits, RuntimeResources};
pub use session::types::{
    ActorOutput, StreamActor, StreamCommand, TaskAction, WorkerEvent,
};
pub use transport::{RtcpReceiverReportSnapshot, RtpTransportConfig};
