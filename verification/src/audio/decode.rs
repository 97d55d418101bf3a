//! Decoded chunks and the decisions around demuxing and decoding.
use super::format::capped_u64;
use crate::error::MusicStreamError;
use std::collections::VecDeque;
use vstd::prelude::*;
use vstd::std_specs::vecdeque::*;
use vstd::string::*;

verus! {

pub const MAX_CONSECUTIVE_DECODE_ERRORS: usize = 32;

#[derive(Clone, Debug, PartialEq, Eq)]
pub struct DecodedChunk<T> {
    pub sample_rate: u32,
    pub channels: u16,
    pub samples_interleaved: Vec<T>,
}

impl<T> DecodedChunk<T> {
    pub open spec fn spec_samples_per_channel(self) -> nat {
        if self.channels == 0 {
            0
        } else {
            self.samples_interleaved@.len() / self.channels as nat
        }
    }

    pub open spec fn spec_duration_ms(self) -> u64 {
        if self.sample_rate == 0 {
            0
        } else {
            capped_u64(self.spec_samples_per_channel() as int * 1_000 / self.sample_rate as int)
        }
    }

    #[must_use]
    pub fn samples_per_channel(&self) -> (samples: usize)
        ensures
            samples == self.spec_samples_per_channel(),
    {
        if self.channels == 0 {
            return 0;
        }
        self.samples_interleaved.len() / self.channels as usize
    }

    #[must_use]
    pub fn duration_ms(&self) -> (millis: u64)
        ensures
            millis == self.spec_duration_ms(),
    {
        if self.sample_rate == 0 {
            return 0;
        }
        let samples: u128 = self.samples_per_channel() as u128;
        let millis: u128 = samples * 1_000 / self.sample_rate as u128;
        if millis > u64::MAX as u128 {
            u64::MAX
        } else {
            millis as u64
        }
    }
}

#[derive(Debug, PartialEq, Eq)]
pub enum DecodePoll<T> {
    Chunk(DecodedChunk<T>),
    NeedMore,
    End,
}

pub trait DecoderBackend<T> {
    fn poll_decode(&mut self) -> (poll: Result<DecodePoll<T>, MusicStreamError>);
}

/// A decoder that hands out chunks it was given.
#[derive(Debug)]
pub struct MemoryDecoder<T> {
    pub chunks: VecDeque<DecodedChunk<T>>,
}

impl<T> MemoryDecoder<T> {
    #[must_use]
    pub fn new(chunks: VecDeque<DecodedChunk<T>>) -> (decoder: Self)
        ensures
            decoder.chunks == chunks,
    {
        MemoryDecoder { chunks }
    }

    /// `poll` is the next answer, which leaves the decoder as `after`.
    pub open spec fn hands_out(self, poll: DecodePoll<T>, after: MemoryDecoder<T>) -> bool {
        match poll {
            DecodePoll::Chunk(chunk) => {
                &&& self.chunks@.len() > 0
                &&& chunk == self.chunks@[0]
                &&& after.chunks@ == self.chunks@.subrange(1, self.chunks@.len() as int)
            },
            DecodePoll::End => self.chunks@.len() == 0 && after == self,
            DecodePoll::NeedMore => false,
        }
    }

    /// The next chunk, or the end.
    pub fn next_poll(&mut self) -> (poll: DecodePoll<T>)
        ensures
            old(self).hands_out(poll, *final(self)),
    {
        if self.chunks.len() == 0 {
            return DecodePoll::End;
        }
        match self.chunks.pop_front() {
            Some(chunk) => DecodePoll::Chunk(chunk),
            None => DecodePoll::End,
        }
    }
}

impl<T> DecoderBackend<T> for MemoryDecoder<T> {
    fn poll_decode(&mut self) -> (poll: Result<DecodePoll<T>, MusicStreamError>)
        ensures
            poll matches Ok(poll) && old(self).hands_out(poll, *final(self)),
    {
        Ok(self.next_poll())
    }
}

/// Counts corrupt packets in a row.
#[derive(Clone, Copy, Debug, PartialEq, Eq, Structural)]
pub struct DecodeErrorBudget {
    pub consecutive: usize,
}

impl Default for DecodeErrorBudget {
    fn default() -> (budget: Self)
        ensures
            budget.consecutive == 0,
    {
        DecodeErrorBudget { consecutive: 0 }
    }
}

impl DecodeErrorBudget {
    pub open spec fn one_more(self) -> DecodeErrorBudget {
        DecodeErrorBudget {
            consecutive: if self.consecutive == usize::MAX {
                usize::MAX
            } else {
                (self.consecutive + 1) as usize
            },
        }
    }

    /// Counts a corrupt packet; too many in a row are an error.
    pub fn record_message(&mut self, error: &str) -> (result: Result<(), MusicStreamError>)
        ensures
            *final(self) == old(self).one_more(),
            result is Ok <==> final(self).consecutive <= MAX_CONSECUTIVE_DECODE_ERRORS,
            result matches Err(exceeded) ==> exceeded matches MusicStreamError::DecodeError(text)
                && text@ == "decoder exceeded 32 consecutive corrupt packets: "@ + error@,
    {
        self.consecutive = self.consecutive.saturating_add(1);
        if self.consecutive > MAX_CONSECUTIVE_DECODE_ERRORS {
            return Err(
                MusicStreamError::DecodeError(
                    "decoder exceeded 32 consecutive corrupt packets: ".to_owned().concat(error),
                ),
            );
        }
        Ok(())
    }

    pub fn reset(&mut self)
        ensures
            final(self).consecutive == 0,
    {
        self.consecutive = 0;
    }
}

/// Why a demuxer or codec failed.
#[derive(Debug, PartialEq, Eq)]
pub enum CodecFailure {
    Io(String),
    Decode(String),
    Unsupported(String),
    Limit(String),
    Seek(String),
    ResetRequired,
    Other,
}

pub open spec fn failure_text(failure: CodecFailure) -> Seq<char> {
    match failure {
        CodecFailure::Io(text) => text@,
        CodecFailure::Decode(text) => text@,
        CodecFailure::Unsupported(text) => text@,
        CodecFailure::Limit(text) => text@,
        CodecFailure::Seek(text) => text@,
        CodecFailure::ResetRequired => "decoder reset required"@,
        CodecFailure::Other => "unknown symphonia decode error"@,
    }
}

/// `error` is what a codec failure is reported as.
pub open spec fn reported_as(failure: CodecFailure, error: MusicStreamError) -> bool {
    if failure is Seek {
        error matches MusicStreamError::NotSeekable(text) && text@ == failure_text(failure)
    } else {
        error matches MusicStreamError::DecodeError(text) && text@ == failure_text(failure)
    }
}

/// Turns a codec failure into an error of this library.
pub fn codec_error(failure: CodecFailure) -> (error: MusicStreamError)
    ensures
        reported_as(failure, error),
{
    match failure {
        CodecFailure::Io(text) => MusicStreamError::DecodeError(text),
        CodecFailure::Decode(text) => MusicStreamError::DecodeError(text),
        CodecFailure::Unsupported(text) => MusicStreamError::DecodeError(text),
        CodecFailure::Limit(text) => MusicStreamError::DecodeError(text),
        CodecFailure::Seek(text) => MusicStreamError::NotSeekable(text),
        CodecFailure::ResetRequired => MusicStreamError::DecodeError(
            "decoder reset required".to_owned(),
        ),
        CodecFailure::Other => MusicStreamError::DecodeError(
            "unknown symphonia decode error".to_owned(),
        ),
    }
}

/// What reading the next packet gave.
#[derive(Debug, PartialEq, Eq)]
pub enum PacketRead {
    Packet { track_id: u32 },
    End,
    Failed(CodecFailure),
}

/// What to do about it.
#[derive(Debug)]
pub enum PacketStep {
    /// Decode the packet.
    Decode,
    /// The packet belongs to another track.
    Skip,
    /// Reset the decoder and read on.
    Reset,
    Finish,
    Fail(MusicStreamError),
}

/// What decoding a packet gave.
#[derive(Debug, PartialEq, Eq)]
pub enum PacketDecoded<T> {
    Chunk(DecodedChunk<T>),
    /// The packet held nothing to play.
    Nothing,
    Failed(CodecFailure),
}

/// What to do about it.
#[derive(Debug)]
pub enum DecodeStep<T> {
    Emit(DecodedChunk<T>),
    /// Read the next packet.
    Continue,
    /// Reset the decoder and read the next packet.
    Reset,
    Fail(MusicStreamError),
}

/// The position in one track of a demuxed source.
#[derive(Clone, Copy, Debug, PartialEq, Eq, Structural)]
pub struct TrackDecode {
    pub track_id: u32,
    pub decode_errors: DecodeErrorBudget,
}

/// Whether a failure concerns one packet only.
pub open spec fn is_corrupt_packet(failure: CodecFailure) -> bool {
    failure is Io || failure is Decode
}

impl TrackDecode {
    #[must_use]
    pub fn new(track_id: u32) -> (decode: Self)
        ensures
            decode.track_id == track_id,
            decode.decode_errors.consecutive == 0,
    {
        TrackDecode { track_id, decode_errors: DecodeErrorBudget::default() }
    }

    /// Decides about a packet that was read.
    pub fn on_packet(&self, read: PacketRead) -> (step: PacketStep)
        ensures
            match read {
                PacketRead::Packet { track_id } => if track_id == self.track_id {
                    step is Decode
                } else {
                    step is Skip
                },
                PacketRead::End => step is Finish,
                PacketRead::Failed(failure) => if failure is ResetRequired {
                    step is Reset
                } else {
                    step matches PacketStep::Fail(error) && reported_as(failure, error)
                },
            },
    {
        match read {
            PacketRead::Packet { track_id } => if track_id == self.track_id {
                PacketStep::Decode
            } else {
                PacketStep::Skip
            },
            PacketRead::End => PacketStep::Finish,
            PacketRead::Failed(failure) => match failure {
                CodecFailure::ResetRequired => PacketStep::Reset,
                other => PacketStep::Fail(codec_error(other)),
            },
        }
    }

    /// The position after a packet was decoded: a good one clears the count of
    /// corrupt ones, a corrupt one adds to it.
    pub open spec fn left_by<T>(self, decoded: PacketDecoded<T>) -> TrackDecode {
        match decoded {
            PacketDecoded::Chunk(_) => TrackDecode {
                decode_errors: DecodeErrorBudget { consecutive: 0 },
                ..self
            },
            PacketDecoded::Nothing => self,
            PacketDecoded::Failed(failure) => if is_corrupt_packet(failure) {
                TrackDecode { decode_errors: self.decode_errors.one_more(), ..self }
            } else {
                self
            },
        }
    }

    /// Whether decoding goes on after that packet.
    pub open spec fn goes_on_after<T>(self, decoded: PacketDecoded<T>) -> bool {
        match decoded {
            PacketDecoded::Chunk(_) => true,
            PacketDecoded::Nothing => true,
            PacketDecoded::Failed(failure) => if is_corrupt_packet(failure) {
                self.left_by(decoded).decode_errors.consecutive <= MAX_CONSECUTIVE_DECODE_ERRORS
            } else {
                failure is ResetRequired
            },
        }
    }

    /// Decides about a decoded packet. Corrupt packets are skipped until too many
    /// come in a row.
    pub fn on_decoded<T>(&mut self, decoded: PacketDecoded<T>) -> (step: DecodeStep<T>)
        ensures
            final(self).track_id == old(self).track_id,
            *final(self) == old(self).left_by(decoded),
            step is Fail <==> !old(self).goes_on_after(decoded),
            match decoded {
                PacketDecoded::Chunk(chunk) => step == DecodeStep::Emit(chunk),
                PacketDecoded::Nothing => step is Continue,
                PacketDecoded::Failed(failure) => if is_corrupt_packet(failure) {
                    if old(self).goes_on_after(decoded) {
                        step is Continue
                    } else {
                        step matches DecodeStep::Fail(error) && (
                        error matches MusicStreamError::DecodeError(text) && text@
                            == "decoder exceeded 32 consecutive corrupt packets: "@ + failure_text(
                            failure,
                        ))
                    }
                } else if failure is ResetRequired {
                    step is Reset
                } else {
                    step matches DecodeStep::Fail(error) && reported_as(failure, error)
                },
            },
    {
        match decoded {
            PacketDecoded::Chunk(chunk) => {
                self.decode_errors.reset();
                DecodeStep::Emit(chunk)
            },
            PacketDecoded::Nothing => DecodeStep::Continue,
            PacketDecoded::Failed(failure) => match failure {
                CodecFailure::Io(text) | CodecFailure::Decode(text) => {
                    match self.decode_errors.record_message(text.as_str()) {
                        Ok(()) => DecodeStep::Continue,
                        Err(error) => DecodeStep::Fail(error),
                    }
                },
                CodecFailure::ResetRequired => DecodeStep::Reset,
                other => DecodeStep::Fail(codec_error(other)),
            },
        }
    }
}

/// The channel count of an Ogg Opus source, if it can be played.
pub fn opus_input_channels(channels: usize) -> (result: Result<u16, MusicStreamError>)
    ensures
        result is Ok <==> channels == 1 || channels == 2,
        result matches Ok(count) ==> count == channels,
        result matches Err(error) ==> error matches MusicStreamError::Unsupported(text) && text@
            == "Ogg Opus input currently supports mono or stereo streams"@,
{
    if channels == 1 || channels == 2 {
        Ok(channels as u16)
    } else {
        Err(
            MusicStreamError::Unsupported(
                "Ogg Opus input currently supports mono or stereo streams".to_owned(),
            ),
        )
    }
}

pub open spec fn spec_min(a: int, b: int) -> int {
    if a < b {
        a
    } else {
        b
    }
}

/// How many samples per channel are left of a packet once its trims are taken off.
pub open spec fn retained_samples(samples: usize, trim_start: u64, trim_end: u64) -> int {
    let start = spec_min(trim_start as int, samples as int);
    samples - start - spec_min(trim_end as int, samples - start)
}

/// The range of interleaved samples that remains of a decoded packet, if any does.
pub fn trimmed_range(
    samples_per_channel: usize,
    channels: u16,
    trim_start: u64,
    trim_end: u64,
) -> (range: Option<(usize, usize)>)
    requires
        samples_per_channel * channels <= usize::MAX,
    ensures
        range is Some <==> retained_samples(samples_per_channel, trim_start, trim_end) > 0,
        range matches Some((start, end)) ==> {
            &&& start == spec_min(trim_start as int, samples_per_channel as int) * channels
            &&& end - start == retained_samples(samples_per_channel, trim_start, trim_end)
                * channels
            &&& start <= end <= samples_per_channel * channels
        },
{
    let start: usize = if trim_start < samples_per_channel as u64 {
        trim_start as usize
    } else {
        samples_per_channel
    };
    let left: usize = samples_per_channel - start;
    let cut: usize = if trim_end < left as u64 {
        trim_end as usize
    } else {
        left
    };
    let retained: usize = left - cut;
    if retained == 0 {
        return None;
    }
    proof {
        assert(0 <= start * channels && 0 <= retained * channels && start * channels + retained
            * channels <= samples_per_channel * channels) by (nonlinear_arith)
            requires
                0 <= start,
                0 <= retained,
                start + retained <= samples_per_channel,
                0 <= channels,
        ;
    }
    let first: usize = start * channels as usize;
    let last: usize = first + retained * channels as usize;
    Some((first, last))
}

/// Where to seek before decoding, in nanoseconds; nowhere for the beginning.
pub fn seek_target_nanos(start_position_ms: u64) -> (nanos: Option<u64>)
    ensures
        nanos == if start_position_ms == 0 {
            None
        } else {
            Some(capped_u64(start_position_ms * 1_000_000))
        },
{
    if start_position_ms == 0 {
        return None;
    }
    match start_position_ms.checked_mul(1_000_000) {
        Some(nanos) => Some(nanos),
        None => Some(u64::MAX),
    }
}

/// The budget after a run of corrupt packets.
pub open spec fn after_corrupt(budget: DecodeErrorBudget, count: nat) -> DecodeErrorBudget
    decreases count,
{
    if count == 0 {
        budget
    } else {
        after_corrupt(budget, (count - 1) as nat).one_more()
    }
}

/// After a good packet a run of corrupt ones is tolerated exactly as long as it
/// does not exceed the budget.
pub proof fn corrupt_runs_are_bounded(budget: DecodeErrorBudget, count: nat)
    requires
        budget.consecutive == 0,
        count <= usize::MAX,
    ensures
        after_corrupt(budget, count).consecutive == count,
        after_corrupt(budget, count).consecutive <= MAX_CONSECUTIVE_DECODE_ERRORS <==> count
            <= MAX_CONSECUTIVE_DECODE_ERRORS,
    decreases count,
{
    if count > 0 {
        corrupt_runs_are_bounded(budget, (count - 1) as nat);
    }
}

/// Up to 32 corrupt packets in a row are passed over, and the next one is too many.
pub proof fn thirty_two_corrupt_packets_are_tolerated(budget: DecodeErrorBudget, count: nat)
    requires
        budget.consecutive == 0,
        count <= usize::MAX,
    ensures
        after_corrupt(budget, count).consecutive <= MAX_CONSECUTIVE_DECODE_ERRORS <==> count <= 32,
{
    corrupt_runs_are_bounded(budget, count);
}

/// What is trimmed off a packet is taken from both ends, and what is left of it is
/// what they leave, down to nothing.
pub proof fn trims_are_taken_from_both_ends(
    samples: usize,
    channels: u16,
    trim_start: u64,
    trim_end: u64,
    range: Option<(usize, usize)>,
)
    requires
        samples * channels <= usize::MAX,
        channels > 0,
        call_ensures(trimmed_range, (samples, channels, trim_start, trim_end), range),
    ensures
        trim_start + trim_end >= samples <==> range is None,
        range matches Some((start, end)) ==> start == trim_start * channels && end == (samples
            - trim_end) * channels,
        retained_samples(samples, trim_start, trim_end) == if trim_start + trim_end >= samples {
            0
        } else {
            samples - trim_start - trim_end
        },
{
    if trim_start + trim_end < samples {
        assert(trim_start * channels + (samples - trim_start - trim_end) * channels == (samples
            - trim_end) * channels) by (nonlinear_arith);
    }
}

/// Decoding starts where it was told to, in nanoseconds and no further than can be
/// counted, and does not seek for the beginning.
pub proof fn decoding_starts_where_it_was_told(start_position_ms: u64, nanos: Option<u64>)
    requires
        call_ensures(seek_target_nanos, (start_position_ms,), nanos),
    ensures
        nanos is None <==> start_position_ms == 0,
        nanos matches Some(at) ==> if start_position_ms * 1_000_000 <= u64::MAX {
            at == start_position_ms * 1_000_000
        } else {
            at == u64::MAX
        },
{
}

/// A chunk has as many samples per channel as its samples make up whole frames, and
/// plays for as long as they take at its rate.
pub proof fn chunks_play_for_their_samples<T>(chunk: DecodedChunk<T>, frames: nat)
    requires
        chunk.channels > 0,
        chunk.sample_rate > 0,
        chunk.samples_interleaved@.len() == frames * chunk.channels,
    ensures
        chunk.spec_samples_per_channel() == frames,
        frames == chunk.sample_rate ==> chunk.spec_duration_ms() == 1_000,
{
    let channels = chunk.channels as int;
    vstd::arithmetic::div_mod::lemma_div_multiples_vanish(frames as int, channels);
    assert(frames as int * channels == channels * frames as int) by (nonlinear_arith);
    if frames == chunk.sample_rate {
        vstd::arithmetic::div_mod::lemma_div_multiples_vanish(1_000, chunk.sample_rate as int);
        assert(chunk.sample_rate as int * 1_000 == 1_000 * chunk.sample_rate as int);
    }
}

/// A failure to seek means that the track cannot be sought in; every other failure of
/// a codec is one of decoding. Only reading and decoding fail for one packet alone.
pub proof fn codec_failures_keep_their_meaning(failure: CodecFailure, error: MusicStreamError)
    requires
        reported_as(failure, error),
    ensures
        error is NotSeekable <==> failure is Seek,
        error is DecodeError <==> !(failure is Seek),
        is_corrupt_packet(failure) <==> failure is Io || failure is Decode,
        failure matches CodecFailure::Seek(text) ==> error.detail() == text@,
        failure matches CodecFailure::Decode(text) ==> error.detail() == text@,
        failure matches CodecFailure::Io(text) ==> error.detail() == text@,
{
}

/// Packets of other tracks are passed over, those of this one are decoded, and
/// a decoder that asks for it is reset.
pub proof fn packets_go_to_their_track(decode: TrackDecode, read: PacketRead, step: PacketStep)
    requires
        call_ensures(TrackDecode::on_packet, (&decode, read), step),
    ensures
        step is Decode <==> (read matches PacketRead::Packet { track_id } && track_id
            == decode.track_id),
        step is Skip <==> (read matches PacketRead::Packet { track_id } && track_id
            != decode.track_id),
        step is Finish <==> read is End,
        step is Reset <==> (read matches PacketRead::Failed(failure) && failure is ResetRequired),
{
}

/// One or two channels of Opus can be played, and no other number.
pub proof fn opus_is_played_in_mono_or_stereo(
    channels: usize,
    result: Result<u16, MusicStreamError>,
)
    requires
        call_ensures(opus_input_channels, (channels,), result),
    ensures
        result is Ok <==> 1 <= channels <= 2,
        result matches Ok(count) ==> count == channels,
{
}

/// The position after packets in a row.
pub open spec fn left_by_all<T>(decode: TrackDecode, packets: Seq<PacketDecoded<T>>) -> TrackDecode
    decreases packets.len(),
{
    if packets.len() == 0 {
        decode
    } else {
        left_by_all(decode, packets.drop_last()).left_by(packets.last())
    }
}

/// A good packet makes up for all corrupt ones before it: whatever came before, up to
/// 32 corrupt packets behind it are passed over, and decoding fails on the next.
pub proof fn good_packets_make_up_for_corrupt_ones<T>(
    decode: TrackDecode,
    good: PacketDecoded<T>,
    corrupt: Seq<PacketDecoded<T>>,
    last: PacketDecoded<T>,
)
    requires
        good is Chunk,
        forall|i: int|
            0 <= i < corrupt.len() ==> ((#[trigger] corrupt[i]) matches PacketDecoded::Failed(
                failure,
            ) && (failure is Io || failure is Decode)),
        last matches PacketDecoded::Failed(failure) && (failure is Io || failure is Decode),
        corrupt.len() < usize::MAX,
    ensures
        ({
            let then = left_by_all(decode.left_by(good), corrupt);
            &&& then.track_id == decode.track_id
            &&& then.decode_errors.consecutive == corrupt.len()
            &&& then.goes_on_after(last) <==> corrupt.len() < 32
        }),
    decreases corrupt.len(),
{
    if corrupt.len() > 0 {
        let front = corrupt.drop_last();
        assert forall|i: int| 0 <= i < front.len() implies ((
        #[trigger] front[i]) matches PacketDecoded::Failed(failure) && (failure is Io
            || failure is Decode)) by {
            assert(front[i] == corrupt[i]);
        }
        good_packets_make_up_for_corrupt_ones(decode, good, front, last);
        assert(corrupt[corrupt.len() - 1] == corrupt.last());
    }
}

/// A packet without anything to play changes nothing, and neither does a failure that
/// does not concern one packet alone; a decoder is only reset when it asks for it.
pub proof fn other_packets_do_not_count<T>(decode: TrackDecode, decoded: PacketDecoded<T>)
    requires
        decoded matches PacketDecoded::Failed(failure) ==> !(failure is Io) && !(failure is Decode),
        !(decoded is Chunk),
    ensures
        decode.left_by(decoded) == decode,
        decode.goes_on_after(decoded) <==> (decoded matches PacketDecoded::Failed(failure) ==>
        failure is ResetRequired),
{
}

/// Chunks come out in the order in which they were given, none is lost, and the end comes
/// only when none is left.
pub proof fn given_chunks_come_out_in_order<T>(
    before: MemoryDecoder<T>,
    poll: DecodePoll<T>,
    after: MemoryDecoder<T>,
)
    requires
        before.hands_out(poll, after),
    ensures
        match poll {
            DecodePoll::Chunk(chunk) => before.chunks@ == seq![chunk] + after.chunks@,
            DecodePoll::End => before.chunks@.len() == 0 && after.chunks@.len() == 0,
            DecodePoll::NeedMore => false,
        },
{
    if poll is Chunk {
        assert(before.chunks@ =~= seq![poll->Chunk_0] + after.chunks@);
    }
}

} // verus!
