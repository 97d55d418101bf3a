//! Encoded frames, PCM frames and the assembler that cuts chunks into frames.
use super::format::capped_u64;
use crate::error::MusicStreamError;
use vstd::arithmetic::div_mod::*;
use vstd::arithmetic::mul::*;
use vstd::prelude::*;

verus! {

/// The payload type of an encoded frame: a shared, immutable byte string.
#[verifier::external_type_specification]
#[verifier::external_body]
pub struct ExBytes(bytes::Bytes);

/// The bytes that a payload holds.
pub uninterp spec fn payload_bytes(payload: bytes::Bytes) -> Seq<u8>;

/// `Bytes::len` counts the bytes that the payload holds.
#[verifier::external_body]
pub(crate) fn payload_len(payload: &bytes::Bytes) -> (len: usize)
    ensures
        len == payload_bytes(*payload).len(),
{
    payload.len()
}

/// `Bytes::copy_from_slice` makes a payload that holds the given bytes.
#[verifier::external_body]
pub(crate) fn copied_payload(data: &[u8]) -> (payload: bytes::Bytes)
    ensures
        payload_bytes(payload) == data@,
{
    bytes::Bytes::copy_from_slice(data)
}

#[derive(Debug, PartialEq, Eq)]
pub struct OpusFrame {
    pub generation: u64,
    pub payload: bytes::Bytes,
    pub samples_per_channel: u32,
    pub duration_ms: u64,
    pub marker: bool,
    pub track_position_samples: u64,
}

/// One frame of interleaved samples on its way to the encoder.
#[derive(Clone, Debug, PartialEq, Eq)]
pub struct PcmFrame<T> {
    pub generation: u64,
    pub samples_per_channel: u32,
    pub sample_rate: u32,
    pub channels: u16,
    pub track_position_samples: u64,
    pub samples: Vec<T>,
}

impl<T> PcmFrame<T> {
    pub open spec fn spec_duration_ms(self) -> u64 {
        if self.sample_rate == 0 {
            0
        } else {
            (self.samples_per_channel as int * 1_000 / self.sample_rate as int) as u64
        }
    }

    #[must_use]
    pub fn duration_ms(&self) -> (millis: u64)
        ensures
            millis == self.spec_duration_ms(),
    {
        if self.sample_rate == 0 {
            0
        } else {
            self.samples_per_channel as u64 * 1_000 / self.sample_rate as u64
        }
    }
}

/// Converts arbitrary interleaved chunks into frames of a fixed size.
///
/// What does not fill a frame is kept for the next chunk.
#[derive(Debug)]
pub struct FrameAssembler<T> {
    pub channels: u16,
    pub frame_samples_per_channel: u32,
    pub next_position_samples: u64,
    pub tail: Vec<T>,
}

impl<T> FrameAssembler<T> {
    pub open spec fn spec_frame_len(self) -> int {
        self.frame_samples_per_channel * self.channels
    }

    /// The tail holds whole samples of all channels and at most one frame.
    pub open spec fn wf(self) -> bool {
        &&& self.channels > 0
        &&& self.frame_samples_per_channel > 0
        &&& self.spec_frame_len() <= usize::MAX
        &&& self.tail@.len() <= self.spec_frame_len()
        &&& self.tail@.len() as int % self.channels as int == 0
    }

    pub open spec fn same_shape(self, other: FrameAssembler<T>) -> bool {
        self.channels == other.channels && self.frame_samples_per_channel
            == other.frame_samples_per_channel
    }

    /// Track position after `count` more frames.
    pub open spec fn position_after(self, count: int) -> u64 {
        capped_u64(self.next_position_samples + count * self.frame_samples_per_channel)
    }

    /// `frame` is the frame at `position` that holds `samples`.
    pub open spec fn cuts(
        self,
        frame: PcmFrame<T>,
        generation: u64,
        sample_rate: u32,
        position: u64,
        samples: Seq<T>,
    ) -> bool {
        &&& frame.generation == generation
        &&& frame.samples_per_channel == self.frame_samples_per_channel
        &&& frame.sample_rate == sample_rate
        &&& frame.channels == self.channels
        &&& frame.track_position_samples == position
        &&& frame.samples@ == samples
    }

    /// The samples of the `k`th frame of a run.
    pub open spec fn piece(self, all: Seq<T>, k: int) -> Seq<T> {
        all.subrange(k * self.spec_frame_len(), (k + 1) * self.spec_frame_len())
    }

    pub fn new(channels: u16, frame_samples_per_channel: u32) -> (result: Result<
        Self,
        MusicStreamError,
    >)
        requires
            frame_samples_per_channel * channels <= usize::MAX,
        ensures
            result is Ok <==> channels != 0 && frame_samples_per_channel != 0,
            match result {
                Ok(assembler) => {
                    &&& assembler.wf()
                    &&& assembler.channels == channels
                    &&& assembler.frame_samples_per_channel == frame_samples_per_channel
                    &&& assembler.next_position_samples == 0
                    &&& assembler.tail@ == Seq::<T>::empty()
                },
                Err(error) => error matches MusicStreamError::InvalidConfig(text) && text@
                    == "frame channels and samples must be non-zero"@,
            },
    {
        FrameAssembler::new_at(channels, frame_samples_per_channel, 0)
    }

    pub fn new_at(
        channels: u16,
        frame_samples_per_channel: u32,
        start_position_samples: u64,
    ) -> (result: Result<Self, MusicStreamError>)
        requires
            frame_samples_per_channel * channels <= usize::MAX,
        ensures
            result is Ok <==> channels != 0 && frame_samples_per_channel != 0,
            match result {
                Ok(assembler) => {
                    &&& assembler.wf()
                    &&& assembler.channels == channels
                    &&& assembler.frame_samples_per_channel == frame_samples_per_channel
                    &&& assembler.next_position_samples == start_position_samples
                    &&& assembler.tail@ == Seq::<T>::empty()
                },
                Err(error) => error matches MusicStreamError::InvalidConfig(text) && text@
                    == "frame channels and samples must be non-zero"@,
            },
    {
        if channels == 0 || frame_samples_per_channel == 0 {
            return Err(
                MusicStreamError::InvalidConfig(
                    "frame channels and samples must be non-zero".to_owned(),
                ),
            );
        }
        assert(0 <= frame_samples_per_channel * channels) by (nonlinear_arith);
        Ok(
            FrameAssembler {
                channels,
                frame_samples_per_channel,
                next_position_samples: start_position_samples,
                tail: Vec::new(),
            },
        )
    }

    fn frame_len(&self) -> (len: usize)
        requires
            self.wf(),
        ensures
            len == self.spec_frame_len(),
            len > 0,
            len as int % self.channels as int == 0,
    {
        proof {
            assert(self.spec_frame_len() > 0) by (nonlinear_arith)
                requires
                    self.frame_samples_per_channel > 0,
                    self.channels > 0,
                    self.spec_frame_len() == self.frame_samples_per_channel * self.channels,
            ;
            lemma_mod_multiples_basic(
                self.frame_samples_per_channel as int,
                self.channels as int,
            );
        }
        self.frame_samples_per_channel as usize * self.channels as usize
    }

    /// Hands out the frame at the current position and moves on.
    fn cut(&mut self, generation: u64, sample_rate: u32, samples: Vec<T>) -> (frame: PcmFrame<T>)
        ensures
            final(self).same_shape(*old(self)),
            final(self).tail == old(self).tail,
            final(self).next_position_samples == old(self).position_after(1),
            old(self).cuts(
                frame,
                generation,
                sample_rate,
                old(self).next_position_samples,
                samples@,
            ),
    {
        let frame = PcmFrame {
            generation,
            samples_per_channel: self.frame_samples_per_channel,
            sample_rate,
            channels: self.channels,
            track_position_samples: self.next_position_samples,
            samples,
        };
        self.next_position_samples = self.next_position_samples.saturating_add(
            self.frame_samples_per_channel as u64,
        );
        frame
    }
}

/// The position after `count + 1` frames is one frame past that after `count`.
proof fn positions_add_up(start: u64, count: int, step: u32)
    requires
        count >= 0,
    ensures
        capped_u64(capped_u64(start + count * step) + 1 * step) == capped_u64(
            start + (count + 1) * step,
        ),
        count * step >= 0,
{
    assert((count + 1) * step == count * step + step) by (nonlinear_arith);
    assert(count * step >= 0) by (nonlinear_arith)
        requires
            count >= 0,
            step >= 0,
    ;
}

impl<T: Copy> FrameAssembler<T> {
    /// Takes in a chunk and returns the frames that are complete now.
    pub fn process_interleaved(
        &mut self,
        generation: u64,
        sample_rate: u32,
        samples: &[T],
    ) -> (result: Result<Vec<PcmFrame<T>>, MusicStreamError>)
        requires
            old(self).wf(),
        ensures
            final(self).wf(),
            final(self).same_shape(*old(self)),
            result is Ok <==> samples@.len() as int % old(self).channels as int == 0,
            match result {
                Ok(frames) => {
                    let all = old(self).tail@ + samples@;
                    let count = all.len() as int / old(self).spec_frame_len();
                    &&& frames@.len() == count
                    &&& forall|k: int|
                        0 <= k < count ==> old(self).cuts(
                            #[trigger] frames@[k],
                            generation,
                            sample_rate,
                            old(self).position_after(k),
                            old(self).piece(all, k),
                        )
                    &&& final(self).tail@ == all.skip(count * old(self).spec_frame_len())
                    &&& final(self).next_position_samples == old(self).position_after(count)
                },
                Err(error) => {
                    &&& *final(self) == *old(self)
                    &&& error matches MusicStreamError::InvalidConfig(text) && text@
                        == "interleaved sample count must be divisible by channel count"@
                },
            },
    {
        if samples.len() % self.channels as usize != 0 {
            return Err(
                MusicStreamError::InvalidConfig(
                    "interleaved sample count must be divisible by channel count".to_owned(),
                ),
            );
        }
        let frame_len: usize = self.frame_len();
        let ghost len = frame_len as int;
        let ghost all = self.tail@ + samples@;
        let ghost held = self.tail@.len() as int;
        let mut pending: Vec<T> = Vec::new();
        core::mem::swap(&mut pending, &mut self.tail);
        let mut frames: Vec<PcmFrame<T>> = Vec::new();
        proof {
            assert(all.subrange(0, held) =~= old(self).tail@);
        }
        if pending.len() == frame_len {
            let mut full: Vec<T> = Vec::new();
            core::mem::swap(&mut full, &mut pending);
            proof {
                assert(old(self).piece(all, 0) =~= full@);
                positions_add_up(old(self).next_position_samples, 0, self.frame_samples_per_channel);
            }
            let frame = self.cut(generation, sample_rate, full);
            frames.push(frame);
        }
        let mut i: usize = 0;
        while i < samples.len()
            invariant
                i <= samples@.len(),
                old(self).wf(),
                self.same_shape(*old(self)),
                self.tail@.len() == 0,
                frame_len == len,
                len == old(self).spec_frame_len(),
                len > 0,
                all == old(self).tail@ + samples@,
                held == old(self).tail@.len(),
                frames@.len() * len + pending@.len() == held + i,
                0 <= frames@.len() * len,
                pending@.len() < len,
                pending@ == all.subrange(frames@.len() * len, held + i),
                self.next_position_samples == old(self).position_after(frames@.len() as int),
                forall|k: int|
                    0 <= k < frames@.len() ==> old(self).cuts(
                        #[trigger] frames@[k],
                        generation,
                        sample_rate,
                        old(self).position_after(k),
                        old(self).piece(all, k),
                    ),
            decreases samples@.len() - i,
        {
            let ghost count = frames@.len() as int;
            pending.push(samples[i]);
            i = i + 1;
            proof {
                assert(pending@ =~= all.subrange(count * len, held + i));
            }
            if pending.len() == frame_len {
                let mut full: Vec<T> = Vec::new();
                core::mem::swap(&mut full, &mut pending);
                proof {
                    assert((count + 1) * len == count * len + len) by (nonlinear_arith);
                    assert(old(self).piece(all, count) =~= full@);
                    positions_add_up(
                        old(self).next_position_samples,
                        count,
                        self.frame_samples_per_channel,
                    );
                }
                let frame = self.cut(generation, sample_rate, full);
                frames.push(frame);
                proof {
                    assert(pending@ =~= all.subrange((count + 1) * len, held + i));
                }
            }
        }
        proof {
            let count = frames@.len() as int;
            assert(all.len() == held + samples@.len());
            lemma_fundamental_div_mod_converse(
                all.len() as int,
                len,
                count,
                pending@.len() as int,
            );
            assert(pending@ =~= all.skip(count * len));
            let channels = old(self).channels as int;
            assert(pending@.len() as int % channels == 0) by {
                let spc = old(self).frame_samples_per_channel as int;
                lemma_mod_adds(held, samples@.len() as int, channels);
                assert((held + samples@.len()) % channels == 0);
                assert(count * len == (count * spc) * channels) by (nonlinear_arith)
                    requires
                        len == spc * channels,
                ;
                lemma_mod_multiples_vanish(
                    -(count * spc),
                    (held + samples@.len()) as int,
                    channels,
                );
                assert(-(count * spc) * channels == -((count * spc) * channels))
                    by (nonlinear_arith);
                assert(channels * (-(count * spc)) == -(count * spc) * channels)
                    by (nonlinear_arith);
            }
        }
        core::mem::swap(&mut pending, &mut self.tail);
        Ok(frames)
    }

    /// Fills up what is left with `padding` and returns it as the last frame.
    pub fn flush_padded(
        &mut self,
        generation: u64,
        sample_rate: u32,
        padding: T,
    ) -> (last: Option<PcmFrame<T>>)
        requires
            old(self).wf(),
        ensures
            final(self).wf(),
            final(self).same_shape(*old(self)),
            final(self).tail@ == Seq::<T>::empty(),
            last is Some <==> old(self).tail@.len() > 0,
            match last {
                Some(frame) => {
                    &&& old(self).cuts(
                        frame,
                        generation,
                        sample_rate,
                        old(self).next_position_samples,
                        old(self).tail@ + Seq::new(
                            (old(self).spec_frame_len() - old(self).tail@.len()) as nat,
                            |i: int| padding,
                        ),
                    )
                    &&& final(self).next_position_samples == old(self).position_after(1)
                },
                None => *final(self) == *old(self),
            },
    {
        if self.tail.len() == 0 {
            return None;
        }
        let frame_len: usize = self.frame_len();
        let mut pending: Vec<T> = Vec::new();
        core::mem::swap(&mut pending, &mut self.tail);
        while pending.len() < frame_len
            invariant
                old(self).tail@.len() <= pending@.len() <= frame_len,
                pending@ == old(self).tail@ + Seq::new(
                    (pending@.len() - old(self).tail@.len()) as nat,
                    |i: int| padding,
                ),
            decreases frame_len - pending@.len(),
        {
            pending.push(padding);
            proof {
                assert(pending@ =~= old(self).tail@ + Seq::new(
                    (pending@.len() - old(self).tail@.len()) as nat,
                    |i: int| padding,
                ));
            }
        }
        Some(self.cut(generation, sample_rate, pending))
    }

    /// Takes a frame back that could not be encoded or sent. One that was held
    /// over from an earlier chunk, and is still whole, is kept and comes out
    /// again; the rest of a chunk is lost.
    pub fn give_back(&mut self, frame: PcmFrame<T>, held_over: bool)
        requires
            old(self).wf(),
        ensures
            final(self).wf(),
            final(self).same_shape(*old(self)),
            final(self).next_position_samples == frame.track_position_samples,
            final(self).tail@ == if held_over && frame.samples@.len() == old(
                self,
            ).spec_frame_len() {
                frame.samples@
            } else {
                Seq::empty()
            },
    {
        let frame_len: usize = self.frame_len();
        proof {
            let channels = self.channels as int;
            lemma_small_mod(0, self.channels as nat);
            lemma_mod_multiples_basic(
                self.frame_samples_per_channel as int,
                channels,
            );
            assert(frame_len as int % channels == 0);
        }
        self.next_position_samples = frame.track_position_samples;
        self.tail = if held_over && frame.samples.len() == frame_len {
            frame.samples
        } else {
            Vec::new()
        };
    }
}

/// All samples of a run of frames, in order.
pub open spec fn joined<T>(frames: Seq<PcmFrame<T>>) -> Seq<T>
    decreases frames.len(),
{
    if frames.len() == 0 {
        Seq::empty()
    } else {
        joined(frames.drop_last()) + frames.last().samples@
    }
}

/// No sample is lost, repeated or reordered: the frames that come out and what
/// is kept are what was kept before and what came in.
pub proof fn assembly_keeps_every_sample<T>(
    assembler: FrameAssembler<T>,
    all: Seq<T>,
    frames: Seq<PcmFrame<T>>,
)
    requires
        assembler.wf(),
        frames.len() * assembler.spec_frame_len() <= all.len(),
        forall|k: int|
            0 <= k < frames.len() ==> (#[trigger] frames[k]).samples@ == assembler.piece(all, k),
    ensures
        joined(frames) + all.skip(frames.len() * assembler.spec_frame_len()) == all,
    decreases frames.len(),
{
    let len = assembler.spec_frame_len();
    assert(len >= 0) by (nonlinear_arith)
        requires
            len == assembler.frame_samples_per_channel * assembler.channels,
    ;
    if frames.len() == 0 {
        assert(0 * len == 0);
        assert(joined(frames) + all.skip(0) =~= all);
    } else {
        let count = frames.len() as int;
        assert(count * len == (count - 1) * len + len) by (nonlinear_arith);
        assert((count - 1) * len >= 0) by (nonlinear_arith)
            requires
                count >= 1,
                len >= 0,
        ;
        assert forall|k: int| 0 <= k < frames.drop_last().len() implies (
        #[trigger] frames.drop_last()[k]).samples@ == assembler.piece(all, k) by {
            assert(frames.drop_last()[k] == frames[k]);
        }
        assembly_keeps_every_sample(assembler, all, frames.drop_last());
        let piece = assembler.piece(all, count - 1);
        assert(frames.last() == frames[count - 1]);
        assert(piece + all.skip(count * len) =~= all.skip((count - 1) * len));
        assert(joined(frames) + all.skip(count * len) =~= joined(frames.drop_last()) + (piece
            + all.skip(count * len)));
    }
}

/// Frames follow each other without a gap: each starts where the one before it ended,
/// as long as positions can be counted.
pub proof fn positions_follow_each_other<T>(assembler: FrameAssembler<T>, count: int)
    requires
        0 <= count,
        assembler.next_position_samples + (count + 1) * assembler.frame_samples_per_channel
            <= u64::MAX,
    ensures
        assembler.position_after(0) == assembler.next_position_samples,
        assembler.position_after(count + 1) == assembler.position_after(count)
            + assembler.frame_samples_per_channel,
        assembler.position_after(count) == assembler.next_position_samples + count
            * assembler.frame_samples_per_channel,
{
    positions_add_up(
        assembler.next_position_samples,
        count,
        assembler.frame_samples_per_channel,
    );
    assert((count + 1) * assembler.frame_samples_per_channel == count
        * assembler.frame_samples_per_channel + assembler.frame_samples_per_channel)
        by (nonlinear_arith);
}

/// A frame says what it is: whose it is, where it stands, and how its samples are to
/// be played.
pub proof fn frames_say_what_they_are<T>(
    assembler: FrameAssembler<T>,
    frame: PcmFrame<T>,
    generation: u64,
    sample_rate: u32,
    position: u64,
    samples: Seq<T>,
)
    requires
        assembler.cuts(frame, generation, sample_rate, position, samples),
    ensures
        frame.generation == generation && frame.sample_rate == sample_rate
            && frame.track_position_samples == position && frame.samples@ == samples,
        frame.channels == assembler.channels && frame.samples_per_channel
            == assembler.frame_samples_per_channel,
{
}

/// A frame holds one frame of samples, from where the frames before it end.
pub proof fn pieces_are_cut_one_by_one<T>(
    assembler: FrameAssembler<T>,
    all: Seq<T>,
    k: int,
    i: int,
)
    requires
        0 <= k,
        (k + 1) * assembler.spec_frame_len() <= all.len(),
        0 <= i < assembler.spec_frame_len(),
    ensures
        assembler.piece(all, k).len() == assembler.frame_samples_per_channel * assembler.channels,
        assembler.piece(all, k)[i] == all[k * (assembler.frame_samples_per_channel
            * assembler.channels) + i],
{
    let len = assembler.spec_frame_len();
    assert((k + 1) * len == k * len + len) by (nonlinear_arith);
    assert(k * len >= 0) by (nonlinear_arith)
        requires
            k >= 0,
            len > 0,
    ;
}

/// A frame plays for as long as its samples take at its rate, in whole milliseconds.
pub proof fn frames_play_for_their_samples<T>(frame: PcmFrame<T>)
    requires
        frame.sample_rate > 0,
    ensures
        frame.spec_duration_ms() * frame.sample_rate <= frame.samples_per_channel * 1_000,
        frame.samples_per_channel * 1_000 < (frame.spec_duration_ms() + 1) * frame.sample_rate,
{
    let millis = frame.samples_per_channel as int * 1_000 / frame.sample_rate as int;
    lemma_fundamental_div_mod(
        frame.samples_per_channel as int * 1_000,
        frame.sample_rate as int,
    );
    assert(0 <= millis <= frame.samples_per_channel as int * 1_000) by (nonlinear_arith)
        requires
            millis == frame.samples_per_channel as int * 1_000 / frame.sample_rate as int,
            frame.sample_rate > 0,
            frame.samples_per_channel >= 0,
    ;
    assert((millis + 1) * frame.sample_rate == millis * frame.sample_rate + frame.sample_rate
        && frame.sample_rate * millis == millis * frame.sample_rate) by (nonlinear_arith);
}

} // verus!
