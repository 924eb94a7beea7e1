use vstd::prelude::*;

use crate::error::MediaStatus;
use crate::format::holds_nul;
use crate::format::has_interior_nul;

verus! {

/// How `seek_to` picks the sample to continue from.
#[derive(Debug, Clone, Copy, PartialEq, Eq, Structural)]
pub enum SeekMode {
    SeekClosestSync,
    SeekNextSync,
    SeekPreviousSync,
}

impl SeekMode {
    /// The NDK's numeric value of a seek mode.
    pub open spec fn spec_code(self) -> i32 {
        match self {
            SeekMode::SeekClosestSync => 0,
            SeekMode::SeekNextSync => 1,
            SeekMode::SeekPreviousSync => 2,
        }
    }

    /// The numeric value of this seek mode, as the NDK takes it.
    pub fn code(&self) -> (r: i32)
        ensures
            r == self.spec_code(),
    {
        match self {
            SeekMode::SeekClosestSync => 0,
            SeekMode::SeekNextSync => 1,
            SeekMode::SeekPreviousSync => 2,
        }
    }
}

/// Extractor sample flag: the sample is encrypted. Codec buffers give this
/// bit another meaning (codec config), so it is never handed on.
pub const SAMPLE_FLAG_ENCRYPTED: u32 = 2;

/// The sample flags that are handed on to a codec buffer: key frame (1),
/// end of stream (4) and partial frame (8).
pub const CODEC_RELEVANT_FLAGS: u32 = 0xD;

/// The codec buffer flags for a sample with the extractor flags `flags`.
pub open spec fn spec_codec_flags(flags: u32) -> u32 {
    flags & CODEC_RELEVANT_FLAGS
}

/// What the media framework answered during one `read_next` call; each
/// answer follows the [`ReadAction`] that asked for it.
#[derive(Debug, Clone, Copy, PartialEq, Eq, Structural)]
pub enum ReadEvent {
    /// `read_next` was called.
    Begin,
    /// Reading the current sample into the buffer gave this byte count
    /// (negative: a raw error status).
    Read(isize),
    /// The current sample's presentation time, in microseconds.
    Time(i64),
    /// The current sample's extractor flags.
    Flags(u32),
    /// The extractor was advanced; the value tells whether a sample remains.
    Advanced(bool),
}

/// What the caller does next during one `read_next` call.
#[derive(Debug, Clone, Copy, PartialEq, Eq)]
pub enum ReadAction {
    /// Read the current sample into the buffer; answer [`ReadEvent::Read`].
    ReadSample,
    /// Record this many bytes as written to the buffer, then ask for the
    /// sample time; answer [`ReadEvent::Time`].
    SetSizeThenQueryTime(usize),
    /// Record this presentation time in the buffer (nothing when `None`),
    /// then ask for the sample flags; answer [`ReadEvent::Flags`].
    SetTimeThenQueryFlags(Option<u64>),
    /// Record these codec flags in the buffer (nothing when `None`: no data
    /// was read), then advance the extractor; answer [`ReadEvent::Advanced`].
    SetFlagsThenAdvance(Option<u32>),
    /// The call is over: cancel the buffer when `cancel` holds, and answer
    /// `result`.
    Finish { cancel: bool, result: Result<bool, MediaStatus> },
}

/// Where an extractor stands within a `read_next` call: which answer it
/// waits for.
#[derive(Debug, Clone, Copy, PartialEq, Eq, Structural)]
pub enum ReadPhase {
    /// No call under way: waits for [`ReadEvent::Begin`].
    Idle,
    /// Waits for the byte count of the read.
    Reading,
    /// Waits for the sample time.
    Timing,
    /// Waits for the sample flags.
    Flagging,
    /// Waits for the answer of the advance; `filled` tells whether this call
    /// read data into the buffer.
    Advancing { filled: bool },
}

/// The answer to an event that does not fit the phase of the call: the
/// event is refused with `ErrorInvalidOperation`, the buffer is left alone
/// and the call is over.
pub open spec fn refused_action() -> ReadAction {
    ReadAction::Finish { cancel: false, result: Err(MediaStatus::ErrorInvalidOperation) }
}

/// One step of `read_next`: from whether a sample remains, the phase of the
/// call and the latest answer of the media framework, whether a sample
/// remains afterwards, the next phase, and what to do next.
pub open spec fn spec_read_step(has_next: bool, phase: ReadPhase, event: ReadEvent) -> (
    bool,
    ReadPhase,
    ReadAction,
) {
    match (phase, event) {
        (ReadPhase::Idle, ReadEvent::Begin) => if has_next {
            (has_next, ReadPhase::Reading, ReadAction::ReadSample)
        } else {
            (has_next, ReadPhase::Idle, ReadAction::Finish { cancel: false, result: Ok(false) })
        },
        (ReadPhase::Reading, ReadEvent::Read(count)) => if count > 0 {
            (has_next, ReadPhase::Timing, ReadAction::SetSizeThenQueryTime(count as usize))
        } else if count < 0 {
            (
                has_next,
                ReadPhase::Idle,
                ReadAction::Finish {
                    cancel: true,
                    result: Err(MediaStatus::spec_from_i32(count as i32)),
                },
            )
        } else {
            (has_next, ReadPhase::Advancing { filled: false }, ReadAction::SetFlagsThenAdvance(None))
        },
        (ReadPhase::Timing, ReadEvent::Time(time)) => (
            has_next,
            ReadPhase::Flagging,
            ReadAction::SetTimeThenQueryFlags(
                if time >= 0 {
                    Some(time as u64)
                } else {
                    None
                },
            ),
        ),
        (ReadPhase::Flagging, ReadEvent::Flags(flags)) => (
            has_next,
            ReadPhase::Advancing { filled: true },
            ReadAction::SetFlagsThenAdvance(Some(spec_codec_flags(flags))),
        ),
        (ReadPhase::Advancing { filled }, ReadEvent::Advanced(more)) => (
            more,
            ReadPhase::Idle,
            ReadAction::Finish { cancel: !filled, result: Ok(filled) },
        ),
        _ => (has_next, ReadPhase::Idle, refused_action()),
    }
}

/// Where an extractor stands after a sequence of `read_next` answers.
pub open spec fn spec_read_run(has_next: bool, phase: ReadPhase, events: Seq<ReadEvent>) -> (
    bool,
    ReadPhase,
)
    decreases events.len(),
{
    if events.len() == 0 {
        (has_next, phase)
    } else {
        let (h, p, _a) = spec_read_step(has_next, phase, events[0]);
        spec_read_run(h, p, events.drop_first())
    }
}

/// The state that the library keeps of an NDK `AMediaExtractor`: its handle
/// (address), whether it still has samples to read, and the phase of the
/// `read_next` call under way. A call is under way only while samples remain.
#[derive(Debug)]
pub struct MediaExtractor {
    inner: usize,
    has_next: bool,
    phase: ReadPhase,
}

impl MediaExtractor {
    #[verifier::type_invariant]
    spec fn call_needs_samples(self) -> bool {
        self.phase is Idle || self.has_next
    }

    /// The address of the NDK extractor.
    pub closed spec fn spec_handle(&self) -> usize {
        self.inner
    }

    /// Whether the extractor still has samples to read.
    pub closed spec fn spec_has_next(&self) -> bool {
        self.has_next
    }

    /// The phase of the `read_next` call under way.
    pub closed spec fn spec_phase(&self) -> ReadPhase {
        self.phase
    }

    fn new(inner: usize) -> (r: MediaExtractor)
        ensures
            r.spec_handle() == inner,
            !r.spec_has_next(),
            r.spec_phase() == ReadPhase::Idle,
    {
        MediaExtractor { inner, has_next: false, phase: ReadPhase::Idle }
    }

    /// First step of creating an extractor whose data source is the location
    /// `path`, for the freshly created NDK extractor `inner`: a location that
    /// holds a NUL byte is refused with `ErrorInvalidParameter`. The extractor
    /// has no samples until its data source is opened
    /// ([`MediaExtractor::data_source_opened`]).
    pub fn from_url(inner: usize, path: &str) -> (r: Result<MediaExtractor, MediaStatus>)
        ensures
            holds_nul(path) ==> r == Err::<MediaExtractor, MediaStatus>(
                MediaStatus::ErrorInvalidParameter,
            ),
            !holds_nul(path) ==> (r matches Ok(e) && e.spec_handle() == inner
                && !e.spec_has_next() && e.spec_phase() == ReadPhase::Idle),
    {
        if has_interior_nul(path) {
            Err(MediaStatus::ErrorInvalidParameter)
        } else {
            Ok(Self::new(inner))
        }
    }

    /// Second step of creating an extractor: the NDK answered `status` when
    /// given the data source. On success the extractor has samples to read;
    /// otherwise the status is the error.
    pub fn data_source_opened(self, status: i32) -> (r: Result<MediaExtractor, MediaStatus>)
        ensures
            MediaStatus::spec_make_result(status) is Ok ==> (r matches Ok(e) && e.spec_handle()
                == self.spec_handle() && e.spec_has_next() && e.spec_phase() == ReadPhase::Idle),
            MediaStatus::spec_make_result(status) matches Err(s) ==> r
                == Err::<MediaExtractor, MediaStatus>(s),
    {
        match MediaStatus::make_result(status) {
            Ok(()) => Ok(MediaExtractor { inner: self.inner, has_next: true, phase: ReadPhase::Idle }),
            Err(s) => Err(s),
        }
    }

    /// The address of the NDK extractor.
    pub fn handle(&self) -> (r: usize)
        ensures
            r == self.spec_handle(),
    {
        self.inner
    }

    /// Whether the track `index` exists among `track_count` tracks, so that
    /// its format can be asked for.
    pub fn has_track(track_count: usize, index: usize) -> (r: bool)
        ensures
            r == (index < track_count),
    {
        index < track_count
    }

    /// The codec buffer flags for a sample with the extractor flags `flags`.
    ///
    /// Extractor SAMPLE_FLAG_SYNC (1) is the codec's key-frame flag (1), but
    /// extractor SAMPLE_FLAG_ENCRYPTED (2) must not reach the codec, where 2
    /// means codec config: only the codec-relevant flags 1, 4 and 8 pass.
    pub fn codec_flags(flags: u32) -> (r: u32)
        ensures
            r == spec_codec_flags(flags),
    {
        let mut codec_flags = flags & CODEC_RELEVANT_FLAGS;
        codec_flags &= !SAMPLE_FLAG_ENCRYPTED;
        assert(flags & 0xD & !2u32 == flags & 0xD) by (bit_vector);
        codec_flags
    }

    /// One step of reading a packet into a codec buffer and advancing the
    /// extractor. A call of `read_next` starts with [`ReadEvent::Begin`]; the
    /// caller performs each action and answers with the event it asks for,
    /// until [`ReadAction::Finish`], whose result is `Ok(true)` if data was
    /// read, `Ok(false)` if no more data, or `Err` on error. An answer that
    /// does not fit the phase of the call is refused with
    /// `ErrorInvalidOperation` and ends the call. An extractor without
    /// samples stays without them.
    pub fn read_next(&mut self, event: ReadEvent) -> (action: ReadAction)
        ensures
            (final(self).spec_has_next(), final(self).spec_phase(), action) == spec_read_step(
                old(self).spec_has_next(),
                old(self).spec_phase(),
                event,
            ),
            final(self).spec_handle() == old(self).spec_handle(),
            !old(self).spec_has_next() ==> !final(self).spec_has_next(),
    {
        proof {
            use_type_invariant(&*self);
        }
        let refused = ReadAction::Finish {
            cancel: false,
            result: Err(MediaStatus::ErrorInvalidOperation),
        };
        let (has_next, phase, action) = match (self.phase, event) {
            (ReadPhase::Idle, ReadEvent::Begin) => {
                if self.has_next {
                    (true, ReadPhase::Reading, ReadAction::ReadSample)
                } else {
                    (false, ReadPhase::Idle, ReadAction::Finish { cancel: false, result: Ok(false) })
                }
            },
            (ReadPhase::Reading, ReadEvent::Read(count)) => {
                if count > 0 {
                    (
                        self.has_next,
                        ReadPhase::Timing,
                        ReadAction::SetSizeThenQueryTime(count as usize),
                    )
                } else if count < 0 {
                    (
                        self.has_next,
                        ReadPhase::Idle,
                        ReadAction::Finish {
                            cancel: true,
                            result: Err(MediaStatus::from_i32(count as i32)),
                        },
                    )
                } else {
                    (
                        self.has_next,
                        ReadPhase::Advancing { filled: false },
                        ReadAction::SetFlagsThenAdvance(None),
                    )
                }
            },
            (ReadPhase::Timing, ReadEvent::Time(time)) => {
                let recorded = if time >= 0 {
                    Some(time as u64)
                } else {
                    None
                };
                (self.has_next, ReadPhase::Flagging, ReadAction::SetTimeThenQueryFlags(recorded))
            },
            (ReadPhase::Flagging, ReadEvent::Flags(flags)) => (
                self.has_next,
                ReadPhase::Advancing { filled: true },
                ReadAction::SetFlagsThenAdvance(Some(Self::codec_flags(flags))),
            ),
            (ReadPhase::Advancing { filled }, ReadEvent::Advanced(more)) => (
                more,
                ReadPhase::Idle,
                ReadAction::Finish { cancel: !filled, result: Ok(filled) },
            ),
            _ => (self.has_next, ReadPhase::Idle, refused),
        };
        *self = MediaExtractor { inner: self.inner, has_next, phase };
        action
    }

    /// Returns whether MediaExtractor still has packets to read.
    pub fn has_next(&self) -> (r: bool)
        ensures
            r == self.spec_has_next(),
    {
        self.has_next
    }

    /// Seeks to `pos_us` with `mode`: the extractor has samples to read again.
    /// Returns the position and the numeric mode to hand to the NDK.
    pub fn seek_to(&mut self, pos_us: i64, mode: SeekMode) -> (r: (i64, i32))
        ensures
            r == (pos_us, mode.spec_code()),
            final(self).spec_has_next(),
            final(self).spec_phase() == ReadPhase::Idle,
            final(self).spec_handle() == old(self).spec_handle(),
    {
        *self = MediaExtractor { inner: self.inner, has_next: true, phase: ReadPhase::Idle };
        (pos_us, mode.code())
    }
}

/// The codec flags of a sample never carry the encrypted bit, never carry a
/// bit outside key frame (1), end of stream (4) and partial frame (8), and
/// keep each of those three bits as the extractor reported it.
pub proof fn lemma_codec_flags(flags: u32)
    ensures
        spec_codec_flags(flags) & SAMPLE_FLAG_ENCRYPTED == 0,
        spec_codec_flags(flags) & !CODEC_RELEVANT_FLAGS == 0,
        spec_codec_flags(flags) & 1 == flags & 1,
        spec_codec_flags(flags) & 4 == flags & 4,
        spec_codec_flags(flags) & 8 == flags & 8,
{
    assert(flags & 0xD & 2 == 0) by (bit_vector);
    assert(flags & 0xD & !0xDu32 == 0) by (bit_vector);
    assert(flags & 0xD & 1 == flags & 1) by (bit_vector);
    assert(flags & 0xD & 4 == flags & 4) by (bit_vector);
    assert(flags & 0xD & 8 == flags & 8) by (bit_vector);
}

/// An extractor with no samples left reads nothing: `read_next` finishes at
/// once with `Ok(false)`, leaves the buffer alone and stays exhausted.
pub proof fn lemma_read_next_exhausted()
    ensures
        spec_read_step(false, ReadPhase::Idle, ReadEvent::Begin) == (
            false,
            ReadPhase::Idle,
            ReadAction::Finish { cancel: false, result: Ok(false) },
        ),
{
}

/// Once an extractor has no samples left, no sequence of `read_next`
/// answers gives it samples again (only `seek_to`, or opening a data source,
/// does).
pub proof fn lemma_exhausted_stays_exhausted(events: Seq<ReadEvent>)
    ensures
        spec_read_run(false, ReadPhase::Idle, events) == (false, ReadPhase::Idle),
    decreases events.len(),
{
    if events.len() > 0 {
        lemma_exhausted_stays_exhausted(events.drop_first());
    }
}

/// Reading a sample of `count > 0` bytes: the buffer records the size, the
/// time (when not negative) and the codec flags, which never carry the
/// encrypted bit; the extractor is advanced, whether samples remain is what
/// the advance answered, and the call answers `Ok(true)` without cancelling.
pub proof fn lemma_read_next_sample(count: isize, time: i64, flags: u32, more: bool)
    requires
        count > 0,
    ensures
        spec_read_step(true, ReadPhase::Idle, ReadEvent::Begin) == (
            true,
            ReadPhase::Reading,
            ReadAction::ReadSample,
        ),
        spec_read_step(true, ReadPhase::Reading, ReadEvent::Read(count)) == (
            true,
            ReadPhase::Timing,
            ReadAction::SetSizeThenQueryTime(count as usize),
        ),
        spec_read_step(true, ReadPhase::Timing, ReadEvent::Time(time)) == (
            true,
            ReadPhase::Flagging,
            ReadAction::SetTimeThenQueryFlags(
                if time >= 0 {
                    Some(time as u64)
                } else {
                    None
                },
            ),
        ),
        spec_read_step(true, ReadPhase::Flagging, ReadEvent::Flags(flags)) matches (
            true,
            ReadPhase::Advancing { filled: true },
            ReadAction::SetFlagsThenAdvance(Some(f)),
        ) && f & SAMPLE_FLAG_ENCRYPTED == 0 && f == flags & CODEC_RELEVANT_FLAGS,
        spec_read_step(true, ReadPhase::Advancing { filled: true }, ReadEvent::Advanced(more)) == (
            more,
            ReadPhase::Idle,
            ReadAction::Finish { cancel: false, result: Ok(true) },
        ),
{
    lemma_codec_flags(flags);
}

/// Reading an empty sample (count 0): no flags are recorded, the extractor is
/// advanced, and the call cancels the buffer and answers `Ok(false)`.
pub proof fn lemma_read_next_empty(more: bool)
    ensures
        spec_read_step(true, ReadPhase::Reading, ReadEvent::Read(0)) == (
            true,
            ReadPhase::Advancing { filled: false },
            ReadAction::SetFlagsThenAdvance(None),
        ),
        spec_read_step(true, ReadPhase::Advancing { filled: false }, ReadEvent::Advanced(more))
            == (more, ReadPhase::Idle, ReadAction::Finish { cancel: true, result: Ok(false) }),
{
}

/// A failed read (negative count): the call cancels the buffer and answers
/// the error that the count names, without advancing the extractor, which
/// keeps its samples; for a count within the range of `i32` that error is
/// never the success status.
pub proof fn lemma_read_next_error(has_next: bool, count: isize)
    requires
        count < 0,
        count >= i32::MIN,
    ensures
        spec_read_step(has_next, ReadPhase::Reading, ReadEvent::Read(count)) == (
            has_next,
            ReadPhase::Idle,
            ReadAction::Finish {
                cancel: true,
                result: Err(MediaStatus::spec_from_i32(count as i32)),
            },
        ),
        MediaStatus::spec_from_i32(count as i32) != MediaStatus::Success,
{
    crate::error::lemma_success_exactly(count as i32);
}

} // verus!
