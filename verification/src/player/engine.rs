//! The playback engine: the state behind the audio server's per-period
//! callback.
//!
//! The engine owns a fully decoded track and a cursor into it. Each call of
//! [`PlaybackEngine::process`] is one period: it copies the next bytes of the
//! track into the buffer the server handed out, advances the cursor by what it
//! copied, and says what to declare for the buffer and whether to ask for
//! termination. It allocates nothing and waits for nothing.
use vstd::prelude::*;
use crate::format::StreamFormat;
use crate::player::Terminate;
use crate::track::concat;
use crate::track::lemma_concat_index;
use crate::track::lemma_concat_prefix;
use crate::track::lemma_concat_take_next;
use crate::track::offset_of;
use crate::track::DecodedTrack;

verus! {

/// Where an engine is in its life. It only ever moves forward.
#[derive(Clone, Copy, Debug, PartialEq, Eq, Structural)]
pub enum EngineState {
    /// No period has been served yet.
    Idle,
    /// At least one period has been served and termination has not been
    /// asked for.
    Streaming,
    /// Termination has been asked for. Nothing is written any more.
    Terminated,
}

/// What the engine does with the last period of a track when the buffer is
/// larger than what is left to play.
#[derive(Clone, Copy, Debug, PartialEq, Eq, Structural)]
pub enum FinalFill {
    /// Fill the rest of the buffer with zero bytes, declare the whole buffer,
    /// and ask for termination on the next period.
    PadWithSilence,
    /// Declare only what was copied and ask for termination at once.
    TerminateEarly,
}

/// What one period did, for the caller to pass on to the server.
#[derive(Clone, Copy, Debug, PartialEq, Eq, Structural)]
pub struct FillReport {
    /// Bytes copied from the track into the start of the buffer.
    pub copied: usize,
    /// Bytes of the buffer to declare as filled, counted from its start.
    pub size: usize,
    /// Offset of the filled region in the buffer. Always zero.
    pub offset: usize,
    /// Bytes per frame to declare for the buffer.
    pub stride: u64,
    /// The termination message, where this period asks for termination.
    pub signal: Option<Terminate>,
    /// Whether the buffer was served from the track, so that its fill is to
    /// be declared. A period that finds the track at its end leaves the
    /// buffer and its metadata alone.
    pub filled: bool,
}

/// The engine as the numbers a period depends on.
pub struct EngineModel {
    /// Bytes in the track.
    pub total: nat,
    /// Bytes already played. Never more than `total`.
    pub position: nat,
    /// Where the engine is in its life.
    pub state: EngineState,
    /// The engine's policy for a short last period.
    pub policy: FinalFill,
}

impl EngineModel {
    /// A fresh engine over `total` bytes.
    pub open spec fn start(total: nat, policy: FinalFill) -> EngineModel {
        EngineModel { total, position: 0, state: EngineState::Idle, policy }
    }

    /// Bytes left to play.
    pub open spec fn remaining(self) -> nat {
        (self.total - self.position) as nat
    }

    /// Whether the cursor has reached the end of the track.
    pub open spec fn exhausted(self) -> bool {
        self.position >= self.total
    }

    /// Whether a period is served from the track: it is, unless the cursor
    /// has reached the end before.
    pub open spec fn fills(self) -> bool {
        !self.exhausted()
    }

    /// Bytes that a period with a buffer of `cap` bytes copies.
    pub open spec fn copies(self, cap: nat) -> nat {
        if cap <= self.remaining() {
            cap
        } else {
            self.remaining()
        }
    }

    /// Whether a period with a buffer of `cap` bytes pads the buffer's rest
    /// with silence.
    pub open spec fn pads(self, cap: nat) -> bool {
        !self.exhausted() && self.policy == FinalFill::PadWithSilence && self.copies(cap) < cap
    }

    /// Whether a period with a buffer of `cap` bytes asks for termination.
    pub open spec fn posts(self, cap: nat) -> bool {
        self.exhausted() || (self.policy == FinalFill::TerminateEarly && self.copies(cap) < cap)
    }

    /// Bytes that a period with a buffer of `cap` bytes declares as filled.
    pub open spec fn declares(self, cap: nat) -> nat {
        if self.pads(cap) {
            cap
        } else {
            self.copies(cap)
        }
    }

    /// The engine after a period with a buffer of `cap` bytes.
    pub open spec fn step(self, cap: nat) -> EngineModel {
        EngineModel {
            total: self.total,
            position: self.position + self.copies(cap),
            state: if self.posts(cap) {
                EngineState::Terminated
            } else {
                EngineState::Streaming
            },
            policy: self.policy,
        }
    }

    /// The engine after one period for each buffer size in `caps`, in order.
    pub open spec fn run(self, caps: Seq<nat>) -> EngineModel
        decreases caps.len(),
    {
        if caps.len() == 0 {
            self
        } else {
            self.run(caps.drop_last()).step(caps.last())
        }
    }

    /// The bytes of `data` that the periods of a run copy, one period's bytes
    /// behind the other's.
    pub open spec fn played(self, data: Seq<u8>, caps: Seq<nat>) -> Seq<u8>
        decreases caps.len(),
    {
        if caps.len() == 0 {
            Seq::empty()
        } else {
            let before = self.run(caps.drop_last());
            self.played(data, caps.drop_last()) + data.subrange(
                before.position as int,
                (before.position + before.copies(caps.last())) as int,
            )
        }
    }

    /// Whether a period with a buffer of `cap` bytes is the one that takes
    /// the engine into [`EngineState::Terminated`].
    pub open spec fn terminates(self, cap: nat) -> bool {
        self.state != EngineState::Terminated && self.posts(cap)
    }

    /// How many periods of a run take the engine into
    /// [`EngineState::Terminated`].
    pub open spec fn terminations(self, caps: Seq<nat>) -> nat
        decreases caps.len(),
    {
        if caps.len() == 0 {
            0
        } else {
            let before = self.run(caps.drop_last());
            self.terminations(caps.drop_last()) + if before.terminates(caps.last()) {
                1nat
            } else {
                0nat
            }
        }
    }

    /// The cursor is within the track, an idle engine has played nothing and
    /// a terminated one everything.
    pub open spec fn valid(self) -> bool {
        &&& self.position <= self.total
        &&& self.state == EngineState::Idle ==> self.position == 0
        &&& self.state == EngineState::Terminated ==> self.position == self.total
    }

    /// A period keeps the model valid, moves the cursor forward by what it
    /// copies, and never leaves [`EngineState::Terminated`]. It asks for
    /// termination only when its own copy, if any, has brought the cursor to
    /// the end of the track.
    pub proof fn lemma_step(self, cap: nat)
        requires
            self.valid(),
        ensures
            self.step(cap).valid(),
            self.step(cap).position >= self.position,
            self.step(cap).state != EngineState::Idle,
            self.state == EngineState::Terminated ==> self.step(cap) == self,
            self.posts(cap) ==> self.step(cap).position == self.total,
            self.posts(cap) <==> self.step(cap).state == EngineState::Terminated,
    {
    }

    /// A run keeps the model valid and plays as far as the requested bytes
    /// reach, but not beyond the end of the track.
    pub proof fn lemma_run(self, caps: Seq<nat>)
        requires
            self.valid(),
        ensures
            self.run(caps).valid(),
            self.run(caps).total == self.total,
            self.run(caps).policy == self.policy,
            self.run(caps).position == if self.position + requested(caps) <= self.total {
                self.position + requested(caps)
            } else {
                self.total
            },
        decreases caps.len(),
    {
        if caps.len() > 0 {
            self.lemma_run(caps.drop_last());
            self.run(caps.drop_last()).lemma_step(caps.last());
        }
    }

    /// What a run copies is the stretch of the track between the cursor
    /// before and the cursor after, byte for byte and in order.
    pub proof fn lemma_played(self, data: Seq<u8>, caps: Seq<nat>)
        requires
            self.valid(),
            data.len() == self.total,
        ensures
            self.played(data, caps) == data.subrange(
                self.position as int,
                self.run(caps).position as int,
            ),
        decreases caps.len(),
    {
        if caps.len() > 0 {
            self.lemma_played(data, caps.drop_last());
            self.lemma_run(caps.drop_last());
            self.lemma_run(caps);
        }
    }

    /// Over any run the engine enters [`EngineState::Terminated`] at most
    /// once: once if it ends the run there and did not start there, else
    /// never.
    pub proof fn lemma_terminations(self, caps: Seq<nat>)
        requires
            self.valid(),
        ensures
            self.terminations(caps) == if self.state != EngineState::Terminated && self.run(
                caps,
            ).state == EngineState::Terminated {
                1nat
            } else {
                0nat
            },
        decreases caps.len(),
    {
        if caps.len() > 0 {
            self.lemma_terminations(caps.drop_last());
            self.lemma_run(caps.drop_last());
            self.run(caps.drop_last()).lemma_step(caps.last());
            if self.state == EngineState::Terminated {
                self.lemma_stays_terminated(caps.drop_last());
            }
        }
    }

    /// A terminated engine stays as it is, whatever periods follow.
    pub proof fn lemma_stays_terminated(self, caps: Seq<nat>)
        requires
            self.valid(),
            self.state == EngineState::Terminated,
        ensures
            self.run(caps) == self,
        decreases caps.len(),
    {
        if caps.len() > 0 {
            self.lemma_stays_terminated(caps.drop_last());
            self.lemma_step(caps.last());
        }
    }

    /// Playing a track through. Let periods with buffers of `caps` bytes be
    /// served from a fresh engine over `data`, where the buffers together
    /// hold at least as many bytes as the track. Then:
    ///
    /// * the periods copy exactly the track, byte for byte and in order;
    /// * period `i` of the run, whichever it is, asks for termination only
    ///   when the copies up to and including its own have reached the end of
    ///   the track;
    /// * a further period, whatever its size `last`, asks for termination;
    /// * over the run and that further period, the engine enters
    ///   [`EngineState::Terminated`] exactly once.
    pub proof fn lemma_plays_through(
        data: Seq<u8>,
        policy: FinalFill,
        caps: Seq<nat>,
        i: int,
        last: nat,
    )
        requires
            requested(caps) >= data.len(),
        ensures
            EngineModel::start(data.len(), policy).played(data, caps) == data,
            0 <= i < caps.len() && EngineModel::start(data.len(), policy).run(caps.take(i)).posts(
                caps[i],
            ) ==> EngineModel::start(data.len(), policy).run(caps.take(i + 1)).position
                == data.len(),
            EngineModel::start(data.len(), policy).run(caps).posts(last),
            EngineModel::start(data.len(), policy).terminations(caps.push(last)) == 1,
    {
        let fresh = EngineModel::start(data.len(), policy);
        assert(fresh.played(data, caps) == data) by {
            fresh.lemma_run(caps);
            fresh.lemma_played(data, caps);
            assert(data.subrange(0, data.len() as int) == data);
        }
        if 0 <= i < caps.len() {
            let before = fresh.run(caps.take(i));
            assert(before.posts(caps[i]) ==> fresh.run(caps.take(i + 1)).position == data.len())
                by {
                fresh.lemma_run(caps.take(i));
                before.lemma_step(caps[i]);
                assert(caps.take(i + 1).drop_last() == caps.take(i));
                assert(caps.take(i + 1).last() == caps[i]);
            }
        }
        let end = fresh.run(caps);
        assert(end.posts(last)) by {
            fresh.lemma_run(caps);
        }
        assert(fresh.terminations(caps.push(last)) == 1) by {
            fresh.lemma_run(caps);
            let longer = caps.push(last);
            assert(longer.drop_last() == caps);
            assert(longer.last() == last);
            end.lemma_step(last);
            fresh.lemma_terminations(longer);
        }
    }
}

/// The bytes that buffers of the sizes `caps` hold together.
pub open spec fn requested(caps: Seq<nat>) -> nat
    decreases caps.len(),
{
    if caps.len() == 0 {
        0
    } else {
        requested(caps.drop_last()) + caps.last()
    }
}

/// The engine behind the per-period callback.
pub struct PlaybackEngine {
    track: DecodedTrack,
    /// Index of the chunk the cursor is in, or the number of chunks at the end.
    chunk: usize,
    /// Bytes of that chunk that were played already.
    offset: usize,
    state: EngineState,
    policy: FinalFill,
}

impl PlaybackEngine {
    /// The track being played.
    pub closed spec fn track(&self) -> DecodedTrack {
        self.track
    }

    /// The track as one stream of bytes.
    pub open spec fn data(&self) -> Seq<u8> {
        self.track().flat()
    }

    /// Bytes already played: the cursor as an offset into the flat stream.
    pub closed spec fn position(&self) -> nat {
        (offset_of(self.track@, self.chunk as int) + self.offset) as nat
    }

    /// Where the engine is in its life.
    pub closed spec fn spec_state(&self) -> EngineState {
        self.state
    }

    /// The engine's policy for a short last period.
    pub closed spec fn spec_policy(&self) -> FinalFill {
        self.policy
    }

    /// The engine as the numbers a period depends on.
    pub open spec fn model(&self) -> EngineModel {
        EngineModel {
            total: self.data().len(),
            position: self.position(),
            state: self.spec_state(),
            policy: self.spec_policy(),
        }
    }

    /// The cursor stands on a byte of the track or at its end.
    spec fn cursor_ok(&self) -> bool {
        &&& self.chunk <= self.track@.len()
        &&& self.chunk < self.track@.len() ==> self.offset < self.track@[self.chunk as int].len()
        &&& self.chunk == self.track@.len() ==> self.offset == 0
    }

    /// The engine's invariant: the cursor stands on a byte of the track or at
    /// its end, an idle engine has played nothing, and a terminated one has
    /// played everything.
    pub closed spec fn wf(&self) -> bool {
        &&& self.track.wf()
        &&& self.cursor_ok()
        &&& self.state == EngineState::Idle ==> self.position() == 0
        &&& self.state == EngineState::Terminated ==> self.position() == self.data().len()
    }

    /// The cursor never passes the end, and it is at the end exactly when no
    /// chunk is left.
    proof fn lemma_position(&self)
        requires
            self.cursor_ok(),
        ensures
            self.position() <= self.data().len(),
            self.position() == self.data().len() <==> self.chunk == self.track@.len(),
    {
        let chunks = self.track@;
        if self.chunk < chunks.len() {
            lemma_concat_index(chunks, self.chunk as int, self.offset as int);
        } else {
            lemma_concat_prefix(chunks, self.chunk as int);
            assert(chunks.take(self.chunk as int) == chunks);
        }
    }

    /// In a well-formed engine the cursor is within the track.
    pub proof fn lemma_model(&self)
        requires
            self.wf(),
        ensures
            self.model().valid(),
            self.model().total == self.data().len(),
    {
        self.lemma_position();
    }

    /// Moves the cursor over chunks that hold no byte.
    fn skip_empty(&mut self)
        requires
            old(self).chunk <= old(self).track@.len(),
            old(self).offset == 0,
        ensures
            final(self).cursor_ok(),
            final(self).position() == old(self).position(),
            final(self).track == old(self).track,
            final(self).state == old(self).state,
            final(self).policy == old(self).policy,
    {
        while self.chunk < self.track.len() && self.track.chunk(self.chunk).is_empty()
            invariant
                self.chunk <= self.track@.len(),
                self.offset == 0,
                self.position() == old(self).position(),
                self.track == old(self).track,
                self.state == old(self).state,
                self.policy == old(self).policy,
            decreases self.track@.len() - self.chunk,
        {
            proof {
                lemma_concat_take_next(self.track@, self.chunk as int);
            }
            self.chunk += 1;
        }
    }

    /// An engine that plays `track` from its first byte.
    pub fn new(track: DecodedTrack, policy: FinalFill) -> (engine: PlaybackEngine)
        requires
            track.wf(),
        ensures
            engine.wf(),
            engine.track() == track,
            engine.model() == EngineModel::start(track.flat().len(), policy),
    {
        let mut engine = PlaybackEngine {
            track,
            chunk: 0,
            offset: 0,
            state: EngineState::Idle,
            policy,
        };
        proof {
            assert(engine.track@.take(0) == Seq::<Seq<u8>>::empty());
        }
        engine.skip_empty();
        engine
    }

    /// Where the engine is in its life.
    #[verifier::when_used_as_spec(spec_state)]
    pub fn state(&self) -> (state: EngineState)
        ensures
            state == self.spec_state(),
    {
        self.state
    }

    /// The engine's policy for a short last period.
    #[verifier::when_used_as_spec(spec_policy)]
    pub fn policy(&self) -> (policy: FinalFill)
        ensures
            policy == self.spec_policy(),
    {
        self.policy
    }

    /// The format the track was decoded for.
    pub fn format(&self) -> (format: StreamFormat)
        ensures
            format == self.track().spec_format(),
    {
        self.track.format()
    }

    /// Whether every byte of the track has been played.
    pub fn is_exhausted(&self) -> (done: bool)
        requires
            self.wf(),
        ensures
            done == self.model().exhausted(),
    {
        proof {
            self.lemma_position();
        }
        self.chunk >= self.track.len()
    }

    /// Copies bytes of the current chunk to `dst` from index `at` on, as many
    /// as the chunk still has and `dst` has room for.
    fn copy_from_chunk(&mut self, dst: &mut [u8], at: usize) -> (n: usize)
        requires
            old(self).cursor_ok(),
            old(self).chunk < old(self).track@.len(),
            at < old(dst)@.len(),
        ensures
            final(self).cursor_ok(),
            final(self).track == old(self).track,
            final(self).state == old(self).state,
            final(self).policy == old(self).policy,
            1 <= n <= old(dst)@.len() - at,
            final(self).position() == old(self).position() + n,
            final(dst)@.len() == old(dst)@.len(),
            final(dst)@.take(at as int) == old(dst)@.take(at as int),
            final(dst)@.skip(at + n) == old(dst)@.skip(at + n),
            final(dst)@.subrange(at as int, at + n) == old(self).data().subrange(
                old(self).position() as int,
                old(self).position() + n,
            ),
    {
        let count: usize = self.track.len();
        let chunk = self.track.chunk(self.chunk);
        let size: usize = chunk.len();
        let avail: usize = size - self.offset;
        let room: usize = dst.len() - at;
        let n: usize = if avail <= room { avail } else { room };
        let ghost start = self.position();
        let ghost flat = self.data();
        proof {
            lemma_concat_index(self.track@, self.chunk as int, self.offset + n - 1);
            assert(at + n <= dst.len());
            assert(self.offset + n <= size);
            assert(self.chunk < count);
        }
        let mut i: usize = 0;
        while i < n
            invariant
                i <= n,
                n <= chunk@.len() - self.offset,
                n <= dst@.len() - at,
                at + n <= usize::MAX,
                self.offset + n <= usize::MAX,
                self.track@.len() <= usize::MAX,
                at < dst@.len(),
                dst@.len() == old(dst)@.len(),
                self.chunk < self.track@.len(),
                chunk@ == self.track@[self.chunk as int],
                start == offset_of(self.track@, self.chunk as int) + self.offset,
                flat == concat(self.track@),
                dst@.take(at as int) == old(dst)@.take(at as int),
                dst@.skip(at + n) == old(dst)@.skip(at + n),
                forall|j: int| at <= j < at + i ==> #[trigger] dst@[j] == flat[start + j - at],
                start + n <= flat.len(),
            decreases n - i,
        {
            proof {
                lemma_concat_index(self.track@, self.chunk as int, self.offset + i);
            }
            let ghost before = dst@;
            dst[at + i] = chunk.byte(self.offset + i);
            proof {
                assert(dst@.take(at as int) == before.take(at as int));
                assert(dst@.skip(at + n) == before.skip(at + n));
            }
            i += 1;
        }
        proof {
            assert(dst@.subrange(at as int, at + n) == flat.subrange(start as int, start + n));
        }
        if n == avail {
            proof {
                lemma_concat_take_next(self.track@, self.chunk as int);
            }
            self.chunk += 1;
            self.offset = 0;
            self.skip_empty();
        } else {
            self.offset += n;
        }
        n
    }

    /// Serves one period: fills `dst` from the track and advances the cursor.
    ///
    /// With `cap` the length of `dst` and `n` the smaller of `cap` and the
    /// bytes left to play:
    ///
    /// * At the end of the track nothing is written, nothing is to be
    ///   declared, and the report carries the termination message, on this
    ///   call and on every later one.
    /// * Before the end, the next `n` bytes of the track are copied to the
    ///   start of `dst` and the cursor moves on by `n`. When `n` is `cap` the
    ///   report declares `cap` bytes and carries no message.
    /// * When `n` is less than `cap`, which is then the track's last period,
    ///   the policy decides: [`FinalFill::PadWithSilence`] zeroes the rest of
    ///   `dst`, declares `cap` bytes and leaves termination to the next call;
    ///   [`FinalFill::TerminateEarly`] leaves the rest of `dst` alone,
    ///   declares `n` bytes and carries the termination message.
    pub fn process(&mut self, dst: &mut [u8]) -> (report: FillReport)
        requires
            old(self).wf(),
        ensures
            final(self).wf(),
            final(self).track() == old(self).track(),
            final(self).model() == old(self).model().step(old(dst)@.len()),
            final(dst)@.len() == old(dst)@.len(),
            report.copied == old(self).model().copies(old(dst)@.len()),
            report.size == old(self).model().declares(old(dst)@.len()),
            report.offset == 0,
            report.stride == old(self).track().spec_format().spec_frame_stride(),
            report.signal is Some <==> old(self).model().posts(old(dst)@.len()),
            report.filled == old(self).model().fills(),
            final(dst)@.take(report.copied as int) == old(self).data().subrange(
                old(self).position() as int,
                old(self).position() + report.copied,
            ),
            old(self).model().pads(old(dst)@.len()) ==> forall|i: int|
                report.copied <= i < final(dst)@.len() ==> final(dst)@[i] == 0,
            !old(self).model().pads(old(dst)@.len()) ==> final(dst)@.skip(report.copied as int)
                == old(dst)@.skip(report.copied as int),
    {
        let stride: u64 = self.track.format().frame_stride();
        let cap: usize = dst.len();
        proof {
            self.lemma_position();
        }
        if self.chunk >= self.track.len() {
            self.state = EngineState::Terminated;
            proof {
                assert(dst@.take(0) == old(self).data().subrange(
                    old(self).position() as int,
                    old(self).position() as int,
                ));
            }
            return FillReport {
                copied: 0,
                size: 0,
                offset: 0,
                stride,
                signal: Some(Terminate),
                filled: false,
            };
        }
        let ghost start = self.position();
        let ghost flat = self.data();
        let mut written: usize = 0;
        while written < cap && self.chunk < self.track.len()
            invariant
                self.cursor_ok(),
                self.track == old(self).track,
                self.state == old(self).state,
                self.policy == old(self).policy,
                flat == concat(self.track@),
                cap == dst@.len(),
                dst@.len() == old(dst)@.len(),
                written <= cap,
                self.position() == start + written,
                dst@.take(written as int) == flat.subrange(start as int, start + written),
                dst@.skip(written as int) == old(dst)@.skip(written as int),
            decreases cap - written,
        {
            let ghost before = dst@;
            let n = self.copy_from_chunk(dst, written);
            proof {
                self.lemma_position();
                let grown = dst@.take(written + n);
                assert(grown.take(written as int) == dst@.take(written as int));
                assert(grown.skip(written as int) == dst@.subrange(written as int, written + n));
                assert(grown == grown.take(written as int) + grown.skip(written as int));
                assert(flat.subrange(start as int, start + written + n) == flat.subrange(
                    start as int,
                    start + written,
                ) + flat.subrange(start + written, start + written + n));
                assert(dst@.skip(written + n) == old(dst)@.skip(written + n)) by {
                    assert(before.skip(written + n) == before.skip(written as int).skip(n as int));
                    assert(old(dst)@.skip(written + n) == old(dst)@.skip(written as int).skip(
                        n as int,
                    ));
                }
            }
            written += n;
        }
        proof {
            self.lemma_position();
        }
        let short: bool = written < cap;
        let mut size: usize = written;
        let mut signal: Option<Terminate> = None;
        self.state = EngineState::Streaming;
        if short {
            match self.policy {
                FinalFill::PadWithSilence => {
                    let mut i: usize = written;
                    while i < cap
                        invariant
                            written <= i <= cap,
                            cap == dst@.len(),
                            dst@.take(written as int) == flat.subrange(
                                start as int,
                                start + written,
                            ),
                            forall|j: int| written <= j < i ==> dst@[j] == 0,
                        decreases cap - i,
                    {
                        let ghost before = dst@;
                        dst[i] = 0;
                        proof {
                            assert(dst@.take(written as int) == before.take(written as int));
                        }
                        i += 1;
                    }
                    size = cap;
                },
                FinalFill::TerminateEarly => {
                    self.state = EngineState::Terminated;
                    signal = Some(Terminate);
                },
            }
        }
        FillReport { copied: written, size, offset: 0, stride, signal, filled: true }
    }

    /// Gives the track back, wherever the cursor stands.
    pub fn into_track(self) -> (track: DecodedTrack)
        ensures
            track == self.track(),
    {
        self.track
    }
}

} // verus!
