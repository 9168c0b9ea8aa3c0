//! A decode session: the ordered pipeline from packets to chunks.
//!
//! The calls that demux and decode are the caller's. The session decides:
//! the caller reports what each call gave, and the session says what to do
//! next as a [`Step`].
//!
//! 1. The caller probes the media and hands the result to
//!    [`DecodeSession::select`], which picks the first decodable track.
//! 2. The caller makes a decoder for that track and hands the outcome to
//!    [`DecodeSession::start`].
//! 3. On [`Step::Pull`] the caller pulls the next packet and reports it with
//!    [`DecodeSession::pulled`]. On [`Step::Decode`] it decodes that packet
//!    and reports the outcome with [`DecodeSession::decoded`]. On
//!    [`Step::Pack`] it packs the decoded audio as the plan says and hands
//!    the bytes to [`DecodeSession::accept`], which appends them to the
//!    track as its next chunk.
//! 4. On [`Step::Finish`] or [`Step::Fail`] the caller takes the outcome
//!    with [`DecodeSession::finish`].
//!
//! Packets of other tracks are passed over. So is a packet of the selected
//! track that the codec cannot read or finds corrupt: it costs one chunk and
//! nothing else. When a session fails for good, the chunks decoded up to
//! then are handed out with the error.
use vstd::prelude::*;
use crate::decoder::error::DecodeError;
use crate::decoder::media::audio_capacity;
use crate::decoder::media::audio_channels;
use crate::decoder::media::audio_frames;
use crate::decoder::media::capacity_of;
use crate::decoder::media::channels_of;
use crate::decoder::media::codec_traits;
use crate::decoder::media::fault_kind;
use crate::decoder::media::fault_of;
use crate::decoder::media::frames_of;
use crate::decoder::media::metadata_skipped;
use crate::decoder::media::packet_track;
use crate::decoder::media::skip_metadata;
use crate::decoder::media::track_codec;
use crate::decoder::media::track_codec_is_null;
use crate::decoder::media::track_count;
use crate::decoder::media::track_id;
use crate::decoder::media::track_of;
use crate::decoder::media::track_table;
use crate::decoder::media::MediaFault;
use crate::decoder::tracks::codec_is_supported;
use crate::decoder::tracks::is_first_decodable;
use crate::decoder::tracks::lemma_first_decodable_is_unique;
use crate::decoder::tracks::none_decodable;
use crate::decoder::tracks::select_track;
use crate::decoder::tracks::spec_codec_is_supported;
use crate::decoder::tracks::TrackEntry;
use crate::format::StreamFormat;
use crate::track::DecodedTrack;

verus! {

/// The most packets a session takes from its source. A session that is
/// handed one more fails with [`DecodeError::StreamIoFatal`].
pub const PACKET_LIMIT: u64 = 0xffff_ffff_ffff_ffff;

/// What became of one packet that a session pulled.
pub enum PacketEvent {
    /// It belongs to a track other than the selected one and was passed over.
    OtherTrack,
    /// It belongs to the selected track, the codec could not read it, and it
    /// was skipped.
    Unreadable,
    /// It belongs to the selected track, the codec found its data invalid,
    /// and it was skipped.
    Corrupt,
    /// It belongs to the selected track and was decoded into these bytes.
    Decoded(Seq<u8>),
}

impl PacketEvent {
    /// Whether the packet belongs to the selected track.
    pub open spec fn on_track(self) -> bool {
        !(self is OtherTrack)
    }

    /// Whether the packet belongs to the selected track and was skipped as
    /// unreadable or corrupt.
    pub open spec fn skipped(self) -> bool {
        self is Unreadable || self is Corrupt
    }
}

/// The chunks that a run of packets leaves behind: the bytes of each decoded
/// packet, in the packets' order.
pub open spec fn chunks_of(events: Seq<PacketEvent>) -> Seq<Seq<u8>>
    decreases events.len(),
{
    if events.len() == 0 {
        Seq::empty()
    } else {
        match events.last() {
            PacketEvent::Decoded(bytes) => chunks_of(events.drop_last()).push(bytes),
            _ => chunks_of(events.drop_last()),
        }
    }
}

/// How many packets of a run belong to the selected track.
pub open spec fn packets_on_track(events: Seq<PacketEvent>) -> nat
    decreases events.len(),
{
    if events.len() == 0 {
        0
    } else {
        packets_on_track(events.drop_last()) + if events.last().on_track() {
            1nat
        } else {
            0nat
        }
    }
}

/// How many packets of a run belong to the selected track and were skipped.
pub open spec fn packets_skipped(events: Seq<PacketEvent>) -> nat
    decreases events.len(),
{
    if events.len() == 0 {
        0
    } else {
        packets_skipped(events.drop_last()) + if events.last().skipped() {
            1nat
        } else {
            0nat
        }
    }
}

/// Of the packets of the selected track, each one either leaves a chunk or
/// was skipped: a run with `N` packets on the track of which `k` were
/// skipped leaves exactly `N - k` chunks. No run has more events than
/// packets were pulled for it.
pub proof fn lemma_chunk_count(events: Seq<PacketEvent>)
    ensures
        chunks_of(events).len() + packets_skipped(events) == packets_on_track(events),
        packets_on_track(events) <= events.len(),
    decreases events.len(),
{
    if events.len() > 0 {
        lemma_chunk_count(events.drop_last());
    }
}

/// Chunks keep the order of their packets: the chunks of a run are the
/// chunks of its first part followed by the chunks of the rest.
pub proof fn lemma_chunks_in_order(first: Seq<PacketEvent>, rest: Seq<PacketEvent>)
    ensures
        chunks_of(first + rest) == chunks_of(first) + chunks_of(rest),
    decreases rest.len(),
{
    if rest.len() == 0 {
        assert(first + rest == first);
    } else {
        lemma_chunks_in_order(first, rest.drop_last());
        assert((first + rest).drop_last() == first + rest.drop_last());
        assert((first + rest).last() == rest.last());
    }
}

/// A packet that is skipped or passed over stands in nobody's way: with it
/// or without it, the packets before and after it leave the same chunks, all
/// of them.
pub proof fn lemma_skip_is_transparent(
    before: Seq<PacketEvent>,
    skip: PacketEvent,
    after: Seq<PacketEvent>,
)
    requires
        !(skip is Decoded),
    ensures
        chunks_of(before.push(skip) + after) == chunks_of(before + after),
        chunks_of(before.push(skip) + after) == chunks_of(before) + chunks_of(after),
{
    lemma_chunks_in_order(before.push(skip), after);
    lemma_chunks_in_order(before, after);
    assert(before.push(skip).drop_last() == before);
}

/// What a session does when the container gives an error in place of the
/// next packet.
#[derive(Clone, Copy, Debug, PartialEq, Eq, Structural)]
pub enum ReadVerdict {
    /// The stream has ended. Decoding is complete.
    EndOfStream,
    /// The stream has failed. Decoding is aborted.
    Fatal,
}

/// What a session does when the codec gives an error in place of a packet's
/// audio.
#[derive(Clone, Copy, Debug, PartialEq, Eq, Structural)]
pub enum DecodeVerdict {
    /// Skip this packet and go on with the next, for this recoverable error.
    Skip(DecodeError),
    /// Decoding is aborted.
    Fatal,
}

/// What follows from `fault` when it comes up pulling the next packet: the
/// end of the stream ends the decode as it should, and any other error, an
/// I/O error of another kind among them, is fatal.
pub open spec fn spec_read_verdict(fault: MediaFault) -> ReadVerdict {
    if fault == MediaFault::EndOfStream {
        ReadVerdict::EndOfStream
    } else {
        ReadVerdict::Fatal
    }
}

/// What follows from `fault` when it comes up pulling the next packet: the
/// end of the stream ends the decode as it should, and any other error, an
/// I/O error of another kind among them, is fatal.
#[verifier::when_used_as_spec(spec_read_verdict)]
pub fn read_verdict(fault: MediaFault) -> (verdict: ReadVerdict)
    ensures
        verdict == spec_read_verdict(fault),
{
    match fault {
        MediaFault::EndOfStream => ReadVerdict::EndOfStream,
        _ => ReadVerdict::Fatal,
    }
}

/// What follows from `fault` when it comes up decoding a packet: an I/O
/// error, running out of the packet's bytes among them, or malformed data
/// costs that one packet, and any other error is fatal.
pub open spec fn spec_decode_verdict(fault: MediaFault) -> DecodeVerdict {
    match fault {
        MediaFault::EndOfStream => DecodeVerdict::Skip(DecodeError::PacketIo),
        MediaFault::Io => DecodeVerdict::Skip(DecodeError::PacketIo),
        MediaFault::Malformed => DecodeVerdict::Skip(DecodeError::PacketDecode),
        _ => DecodeVerdict::Fatal,
    }
}

/// What follows from `fault` when it comes up decoding a packet: an I/O
/// error, running out of the packet's bytes among them, or malformed data
/// costs that one packet, and any other error is fatal.
#[verifier::when_used_as_spec(spec_decode_verdict)]
pub fn decode_verdict(fault: MediaFault) -> (verdict: DecodeVerdict)
    ensures
        verdict == spec_decode_verdict(fault),
{
    match fault {
        MediaFault::EndOfStream => DecodeVerdict::Skip(DecodeError::PacketIo),
        MediaFault::Io => DecodeVerdict::Skip(DecodeError::PacketIo),
        MediaFault::Malformed => DecodeVerdict::Skip(DecodeError::PacketDecode),
        _ => DecodeVerdict::Fatal,
    }
}

/// The event that a skipped packet leaves in the record.
pub open spec fn skip_event(reason: DecodeError) -> PacketEvent {
    if reason == DecodeError::PacketIo {
        PacketEvent::Unreadable
    } else {
        PacketEvent::Corrupt
    }
}

/// A reader's track table as the entries that track selection works on: a
/// track is decodable unless its codec is the null codec.
pub open spec fn entries_of(table: Seq<(u32, bool)>) -> Seq<TrackEntry> {
    Seq::new(table.len(), |i: int| TrackEntry { id: table[i].0, decodable: !table[i].1 })
}

/// Whether every chunk holds a whole number of frames of `format`.
pub open spec fn all_whole_frames(chunks: Seq<Seq<u8>>, format: StreamFormat) -> bool {
    forall|i: int| 0 <= i < chunks.len() ==> format.spec_holds_whole_frames((#[trigger] chunks[i]).len())
}

/// The track that a session is to decode: its place in the reader's track
/// list and its identifier.
#[derive(Clone, Copy, Debug, PartialEq, Eq, Structural)]
pub struct TrackChoice {
    /// The track's index in the reader's list. The decoder is to be made for
    /// the codec parameters of this track.
    pub index: usize,
    /// The track's identifier. Packets carry it.
    pub id: u32,
}

/// What selecting a track comes to, given what probing gave.
///
/// Where probing failed, selecting fails with [`DecodeError::Probe`]. Of
/// the reader's tracks the first decodable one is chosen; where there is
/// none, selecting fails with [`DecodeError::TrackNotFound`]. Where the
/// chosen track's codec is not supported, it fails with
/// [`DecodeError::CodecUnsupported`].
pub open spec fn spec_select(
    probed: Result<symphonia::core::probe::ProbeResult, symphonia::core::errors::Error>,
) -> Result<TrackChoice, DecodeError> {
    match probed {
        Err(_) => Err(DecodeError::Probe),
        Ok(reader) => {
            let entries = entries_of(track_table(reader));
            if none_decodable(entries) {
                Err(DecodeError::TrackNotFound)
            } else {
                let index = choose|index: int| is_first_decodable(entries, index);
                if spec_codec_is_supported(codec_traits(reader, index)) {
                    Ok(TrackChoice { index: index as usize, id: entries[index].id })
                } else {
                    Err(DecodeError::CodecUnsupported)
                }
            }
        },
    }
}

/// The measures of a decoded audio buffer that packing depends on.
#[derive(Clone, Copy, Debug, PartialEq, Eq, Structural)]
pub struct AudioShape {
    /// Frames that the buffer holds.
    pub frames: usize,
    /// Frames that the buffer has room for.
    pub capacity: usize,
    /// Channels of the buffer.
    pub channels: usize,
}

/// How the audio of one packet is to be packed.
#[derive(Clone, Copy, Debug, PartialEq, Eq, Structural)]
pub struct PackPlan {
    /// The duration, in frames, to size the packing buffer with.
    pub duration: u64,
    /// The number of bytes that the packed chunk has.
    pub len: usize,
}

/// How audio of this shape is packed into `format`, or `None` where it
/// cannot be.
///
/// It can be packed where the format has at least one channel, the audio
/// has as many channels as the format, it holds no more frames than it has
/// room for, and a buffer of its capacity in the format's channels and
/// sample width can be addressed. The packing buffer is then sized for the
/// capacity, and the chunk takes one frame of the format for each frame
/// held.
pub open spec fn spec_pack_plan(shape: AudioShape, format: StreamFormat) -> Option<PackPlan> {
    if format.channels >= 1 && shape.channels == format.channels && shape.frames <= shape.capacity
        && shape.capacity * format.spec_frame_stride() <= usize::MAX {
        Some(
            PackPlan {
                duration: shape.capacity as u64,
                len: (shape.frames * format.spec_frame_stride()) as usize,
            },
        )
    } else {
        None
    }
}

/// How audio of this shape is packed into `format`, or `None` where it
/// cannot be: see [`spec_pack_plan`]. A plan's chunk holds whole frames of
/// the format.
pub fn pack_plan(shape: AudioShape, format: StreamFormat) -> (plan: Option<PackPlan>)
    ensures
        plan == spec_pack_plan(shape, format),
        plan matches Some(plan) ==> format.spec_holds_whole_frames(plan.len as nat) && plan.len
            == shape.frames * format.spec_frame_stride(),
{
    if format.channels < 1 || shape.frames > shape.capacity {
        return None;
    }
    if shape.channels as u128 != format.channels as u128 {
        return None;
    }
    let stride: u64 = format.frame_stride();
    assert(shape.capacity * stride <= 0xffff_ffff_ffff_ffff * 0x4_0000_0000) by (nonlinear_arith)
        requires
            shape.capacity <= 0xffff_ffff_ffff_ffff,
            stride <= 0x4_0000_0000,
    ;
    let room: u128 = shape.capacity as u128 * stride as u128;
    if room > usize::MAX as u128 {
        return None;
    }
    assert(shape.frames * stride <= shape.capacity * stride) by (nonlinear_arith)
        requires
            shape.frames <= shape.capacity,
            stride >= 0,
    ;
    let len: u128 = shape.frames as u128 * stride as u128;
    assert(stride > 0) by (nonlinear_arith)
        requires
            stride == format.encoding.spec_width() * (format.channels as nat),
            format.encoding.spec_width() == 4,
            format.channels >= 1,
    ;
    assert((shape.frames * stride) % (stride as int) == 0) by (nonlinear_arith)
        requires
            stride > 0,
    ;
    Some(PackPlan { duration: shape.capacity as u64, len: len as usize })
}

/// What the caller of a session is to do next. It is also where the session
/// stands: each step waits for its report.
#[derive(Clone, Copy, Debug, PartialEq, Eq, Structural)]
pub enum Step {
    /// Pull the next packet and report it with [`DecodeSession::pulled`].
    Pull,
    /// Decode the packet pulled last and report the outcome with
    /// [`DecodeSession::decoded`].
    Decode,
    /// Pack the audio decoded last as the plan says and hand the bytes to
    /// [`DecodeSession::accept`].
    Pack(PackPlan),
    /// The stream has ended. Take the track with [`DecodeSession::finish`].
    Finish,
    /// The decode failed for good with this error. Take what there is with
    /// [`DecodeSession::finish`].
    Fail(DecodeError),
}

impl Step {
    /// Whether the decode is over, one way or the other.
    pub open spec fn is_last(self) -> bool {
        self is Finish || self is Fail
    }

    /// Whether a packet was pulled and is not in the record yet.
    pub open spec fn holds_packet(self) -> bool {
        self is Decode || self is Pack
    }
}

/// What pulling a packet gave, as far as a session reads it.
pub enum PullEvent {
    /// A packet of the track with this identifier.
    Packet(u32),
    /// An error of this kind.
    Fault(MediaFault),
}

/// What decoding a packet gave, as far as a session reads it.
pub enum DecodeEvent {
    /// Audio of this shape.
    Audio(AudioShape),
    /// An error of this kind.
    Fault(MediaFault),
}

/// What the session reads of the outcome of a pull.
pub open spec fn pull_event(
    pulled: Result<symphonia::core::formats::Packet, symphonia::core::errors::Error>,
) -> PullEvent {
    match pulled {
        Ok(packet) => PullEvent::Packet(track_of(packet)),
        Err(error) => PullEvent::Fault(fault_kind(error)),
    }
}

/// What the session reads of the outcome of a decode.
pub open spec fn decode_event(
    decoded: Result<symphonia::core::audio::AudioBufferRef<'_>, symphonia::core::errors::Error>,
) -> DecodeEvent {
    match decoded {
        Ok(audio) => DecodeEvent::Audio(
            AudioShape {
                frames: audio_frames(audio),
                capacity: audio_capacity(audio),
                channels: audio_channels(audio),
            },
        ),
        Err(error) => DecodeEvent::Fault(fault_kind(error)),
    }
}

/// A session as what its progress depends on.
pub struct SessionModel {
    /// What the caller is to do next.
    pub next: Step,
    /// The identifier of the selected track.
    pub selected: u32,
    /// Packets taken from the caller so far, of whatever track.
    pub pulled: u64,
    /// What became of each packet dealt with so far.
    pub history: Seq<PacketEvent>,
}

impl SessionModel {
    /// A session that is about to pull its first packet.
    pub open spec fn fresh(selected: u32) -> SessionModel {
        SessionModel { next: Step::Pull, selected, pulled: 0, history: Seq::empty() }
    }

    /// The session with another step to take next and all else as it is.
    pub open spec fn turn_to(self, next: Step) -> SessionModel {
        SessionModel { next, selected: self.selected, pulled: self.pulled, history: self.history }
    }

    /// The session after a packet was taken and this was put on record for
    /// it.
    pub open spec fn record(self, event: PacketEvent) -> SessionModel {
        SessionModel {
            next: Step::Pull,
            selected: self.selected,
            pulled: self.pulled,
            history: self.history.push(event),
        }
    }

    /// The session after a report that it was not waiting for. A session
    /// that is over stays as it is; any other fails.
    pub open spec fn out_of_turn(self) -> SessionModel {
        if self.next.is_last() {
            self
        } else {
            self.turn_to(Step::Fail(DecodeError::StreamIoFatal))
        }
    }

    /// Whether the report of this pull has the reader's pending metadata
    /// dropped: it does where the session waited for a packet, got one, and
    /// takes it.
    pub open spec fn takes(self, event: PullEvent) -> bool {
        self.next == Step::Pull && event is Packet && self.pulled < PACKET_LIMIT
    }

    /// The session after the report of a pull.
    ///
    /// Where the reader gave an error, the session finishes if the error
    /// marks the end of the stream and fails if not. Where it gave a packet,
    /// a session that has taken [`PACKET_LIMIT`] packets fails. A packet of
    /// another track is passed over and the next one is to be pulled. A
    /// packet of the selected track is to be decoded.
    pub open spec fn after_pull(self, event: PullEvent) -> SessionModel {
        if self.next != Step::Pull {
            self.out_of_turn()
        } else {
            match event {
                PullEvent::Fault(fault) => if spec_read_verdict(fault) == ReadVerdict::EndOfStream {
                    self.turn_to(Step::Finish)
                } else {
                    self.turn_to(Step::Fail(DecodeError::StreamIoFatal))
                },
                PullEvent::Packet(id) => if self.pulled >= PACKET_LIMIT {
                    self.turn_to(Step::Fail(DecodeError::StreamIoFatal))
                } else {
                    let taken = SessionModel {
                        next: Step::Decode,
                        selected: self.selected,
                        pulled: (self.pulled + 1) as u64,
                        history: self.history,
                    };
                    if id != self.selected {
                        taken.record(PacketEvent::OtherTrack)
                    } else {
                        taken
                    }
                },
            }
        }
    }

    /// The session after the report of a decode, for chunks of `format`.
    ///
    /// A packet that failed with a recoverable error is skipped: it goes on
    /// record and the next one is to be pulled. Any other error fails the
    /// session. Audio that can be packed into the format is to be packed as
    /// planned; audio that cannot fails the session.
    pub open spec fn after_decode(self, event: DecodeEvent, format: StreamFormat) -> SessionModel {
        if self.next != Step::Decode {
            self.out_of_turn()
        } else {
            match event {
                DecodeEvent::Fault(fault) => match spec_decode_verdict(fault) {
                    DecodeVerdict::Skip(reason) => self.record(skip_event(reason)),
                    DecodeVerdict::Fatal => self.turn_to(Step::Fail(DecodeError::StreamIoFatal)),
                },
                DecodeEvent::Audio(shape) => match spec_pack_plan(shape, format) {
                    Some(plan) => self.turn_to(Step::Pack(plan)),
                    None => self.turn_to(Step::Fail(DecodeError::StreamIoFatal)),
                },
            }
        }
    }

    /// The session after bytes were handed in for the packet that waits.
    ///
    /// Bytes of the planned length go on record as the packet's chunk and
    /// the next packet is to be pulled. Bytes of any other length fail the
    /// session.
    pub open spec fn after_accept(self, bytes: Seq<u8>) -> SessionModel {
        match self.next {
            Step::Pack(plan) => if bytes.len() == plan.len {
                self.record(PacketEvent::Decoded(bytes))
            } else {
                self.turn_to(Step::Fail(DecodeError::StreamIoFatal))
            },
            _ => self.out_of_turn(),
        }
    }

    /// No report takes a chunk away or changes one, and only bytes that are
    /// taken in add one: after a pull or a decode the chunks are as before,
    /// and after bytes were handed in they are as before or as before with
    /// those bytes behind them.
    pub proof fn lemma_chunks(self, pull: PullEvent, decode: DecodeEvent, format: StreamFormat, bytes: Seq<u8>)
        ensures
            chunks_of(self.after_pull(pull).history) == chunks_of(self.history),
            chunks_of(self.after_decode(decode, format).history) == chunks_of(self.history),
            self.after_accept(bytes).next == Step::Pull && self.next is Pack ==> chunks_of(
                self.after_accept(bytes).history,
            ) == chunks_of(self.history).push(bytes),
            !(self.after_accept(bytes).next == Step::Pull && self.next is Pack) ==> chunks_of(
                self.after_accept(bytes).history,
            ) == chunks_of(self.history),
            self.next.is_last() ==> self.after_pull(pull) == self && self.after_decode(decode, format)
                == self && self.after_accept(bytes) == self,
    {
        assert(self.history.push(PacketEvent::OtherTrack).drop_last() == self.history);
        assert(self.history.push(PacketEvent::Unreadable).drop_last() == self.history);
        assert(self.history.push(PacketEvent::Corrupt).drop_last() == self.history);
        assert(self.history.push(PacketEvent::Decoded(bytes)).drop_last() == self.history);
    }
}

/// One thing that the caller tells a session.
pub enum Report {
    /// What pulling the next packet gave.
    Pulled(PullEvent),
    /// What decoding the packet pulled last gave.
    Decoded(DecodeEvent),
    /// The bytes that the audio decoded last was packed to.
    Packed(Seq<u8>),
}

impl SessionModel {
    /// The session after one report, for chunks of `format`.
    pub open spec fn after(self, report: Report, format: StreamFormat) -> SessionModel {
        match report {
            Report::Pulled(event) => self.after_pull(event),
            Report::Decoded(event) => self.after_decode(event, format),
            Report::Packed(bytes) => self.after_accept(bytes),
        }
    }

    /// The session after these reports, in their order.
    pub open spec fn after_all(self, reports: Seq<Report>, format: StreamFormat) -> SessionModel
        decreases reports.len(),
    {
        if reports.len() == 0 {
            self
        } else {
            self.after_all(reports.drop_last(), format).after(reports.last(), format)
        }
    }

    /// Whatever a session is told, the chunks it had stay where they are,
    /// first and unchanged: the chunks after any reports begin with the
    /// chunks before them.
    pub proof fn lemma_chunks_stay(self, reports: Seq<Report>, format: StreamFormat)
        ensures
            chunks_of(self.history).is_prefix_of(chunks_of(self.after_all(reports, format).history)),
        decreases reports.len(),
    {
        if reports.len() > 0 {
            let before = self.after_all(reports.drop_last(), format);
            self.lemma_chunks_stay(reports.drop_last(), format);
            match reports.last() {
                Report::Pulled(event) => {
                    before.lemma_chunks(event, DecodeEvent::Fault(MediaFault::Io), format, Seq::empty());
                },
                Report::Decoded(event) => {
                    before.lemma_chunks(PullEvent::Fault(MediaFault::Io), event, format, Seq::empty());
                },
                Report::Packed(bytes) => {
                    before.lemma_chunks(
                        PullEvent::Fault(MediaFault::Io),
                        DecodeEvent::Fault(MediaFault::Io),
                        format,
                        bytes,
                    );
                },
            }
        }
    }
}

/// A decode that ran to the end of its stream.
pub struct DecodeSummary {
    /// The decoded chunks, in order.
    pub track: DecodedTrack,
    /// How many packets of the selected track were pulled.
    pub packets: u64,
    /// How many of them were skipped as unreadable or corrupt.
    pub skipped: u64,
}

/// A decode that failed for good.
pub struct DecodeFailure {
    /// Why it failed.
    pub error: DecodeError,
    /// The chunks that were decoded before it failed, in order.
    pub partial: DecodedTrack,
}

/// A decode under way: the selected track, the chunks decoded so far, and
/// what is to be done next.
pub struct DecodeSession {
    next: Step,
    selected: u32,
    track: DecodedTrack,
    /// Packets taken from the caller, of whatever track.
    pulled: u64,
    /// Packets of the selected track among the events so far.
    packets: u64,
    /// Packets among those that were skipped.
    skipped: u64,
    /// What became of each packet, but for one that waits to be decoded or
    /// packed.
    history: Ghost<Seq<PacketEvent>>,
}

/// Reads the reader's track list into plain values. A track is decodable
/// unless its codec is the null codec.
fn list_tracks(reader: &symphonia::core::probe::ProbeResult) -> (tracks: Vec<TrackEntry>)
    ensures
        tracks@ == entries_of(track_table(*reader)),
{
    let count = track_count(reader);
    let mut tracks: Vec<TrackEntry> = Vec::new();
    let mut i: usize = 0;
    while i < count
        invariant
            i <= count,
            count == track_table(*reader).len(),
            tracks@.len() == i,
            forall|j: int| 0 <= j < i ==> #[trigger] tracks@[j] == entries_of(track_table(*reader))[j],
        decreases count - i,
    {
        let id = track_id(reader, i);
        let null = track_codec_is_null(reader, i);
        tracks.push(TrackEntry { id, decodable: !null });
        i += 1;
    }
    assert(tracks@ =~= entries_of(track_table(*reader)));
    tracks
}

impl DecodeSession {
    /// The session as what its progress depends on.
    pub closed spec fn model(&self) -> SessionModel {
        SessionModel {
            next: self.next,
            selected: self.selected,
            pulled: self.pulled,
            history: self.history@,
        }
    }

    /// What became of each packet dealt with so far, in order.
    pub open spec fn history(&self) -> Seq<PacketEvent> {
        self.model().history
    }

    /// The chunks decoded so far.
    pub closed spec fn track(&self) -> DecodedTrack {
        self.track
    }

    /// How many packets of the selected track have been dealt with.
    pub closed spec fn spec_packets(&self) -> u64 {
        self.packets
    }

    /// How many packets of the selected track were skipped.
    pub closed spec fn spec_skipped(&self) -> u64 {
        self.skipped
    }

    /// The session's invariant: the track holds exactly the chunks of the
    /// packets decoded so far, each of them a whole number of frames, the
    /// counters count what they say, and a chunk that is planned holds whole
    /// frames too.
    pub closed spec fn wf(&self) -> bool {
        &&& self.track.wf()
        &&& self.track@ == chunks_of(self.history@)
        &&& all_whole_frames(self.track@, self.track.spec_format())
        &&& self.packets == packets_on_track(self.history@)
        &&& self.skipped == packets_skipped(self.history@)
        &&& self.history@.len() + (if self.next.holds_packet() {
            1int
        } else {
            0int
        }) <= self.pulled
        &&& self.next matches Step::Pack(plan) ==> self.track.spec_format().spec_holds_whole_frames(
            plan.len as nat,
        )
    }

    /// What the invariant says to the outside: the track is decided by what
    /// became of the packets, it has one chunk for each packet of the
    /// selected track that was not skipped, and each chunk holds whole
    /// frames of the track's format.
    pub proof fn lemma_track(&self)
        requires
            self.wf(),
        ensures
            self.track().wf(),
            self.track()@ == chunks_of(self.history()),
            all_whole_frames(self.track()@, self.track().spec_format()),
            self.spec_packets() == packets_on_track(self.history()),
            self.spec_skipped() == packets_skipped(self.history()),
            self.track()@.len() == self.spec_packets() - self.spec_skipped(),
            self.history().len() <= self.model().pulled,
    {
        lemma_chunk_count(self.history@);
    }

    /// Decoding is repeatable: two sessions that were started for the same
    /// track and told the same reports in the same order hold the same
    /// chunks, byte for byte, and the same counts.
    pub proof fn lemma_decode_is_repeatable(
        &self,
        other: &DecodeSession,
        selected: u32,
        format: StreamFormat,
        reports: Seq<Report>,
    )
        requires
            self.wf(),
            other.wf(),
            self.model() == SessionModel::fresh(selected).after_all(reports, format),
            other.model() == SessionModel::fresh(selected).after_all(reports, format),
        ensures
            self.track()@ == other.track()@,
            self.track().flat() == other.track().flat(),
            self.spec_packets() == other.spec_packets(),
            self.spec_skipped() == other.spec_skipped(),
    {
    }

    /// Picks the track to decode from what probing gave: what
    /// [`spec_select`] says.
    ///
    /// Probing that failed gives [`DecodeError::Probe`]. The first track
    /// with a known codec is chosen; where there is none, the error is
    /// [`DecodeError::TrackNotFound`]. A chosen track whose codec is known
    /// but not supported gives [`DecodeError::CodecUnsupported`].
    pub fn select(
        probed: &Result<symphonia::core::probe::ProbeResult, symphonia::core::errors::Error>,
    ) -> (selected: Result<TrackChoice, DecodeError>)
        ensures
            selected == spec_select(*probed),
    {
        let reader = match probed {
            Ok(reader) => reader,
            Err(_) => {
                return Err(DecodeError::Probe);
            },
        };
        let tracks = list_tracks(reader);
        let index = match select_track(&tracks) {
            Some(index) => index,
            None => {
                return Err(DecodeError::TrackNotFound);
            },
        };
        proof {
            let entries = entries_of(track_table(*reader));
            let chosen = choose|chosen: int| is_first_decodable(entries, chosen);
            assert(entries[index as int].decodable);
            lemma_first_decodable_is_unique(entries, chosen, index as int);
        }
        if !codec_is_supported(track_codec(reader, index)) {
            return Err(DecodeError::CodecUnsupported);
        }
        Ok(TrackChoice { index, id: tracks[index].id })
    }

    /// Starts the session for the chosen track, given whether a decoder
    /// could be made for it. Without a decoder there is no session: the
    /// error is [`DecodeError::CodecUnsupported`]. With one, the session is
    /// fresh and its first step is to pull. Its chunks will be tagged with
    /// `format`.
    pub fn start(choice: TrackChoice, decoder_made: bool, format: StreamFormat) -> (started: Result<
        DecodeSession,
        DecodeError,
    >)
        ensures
            match started {
                Ok(session) => {
                    &&& decoder_made
                    &&& session.wf()
                    &&& session.model() == SessionModel::fresh(choice.id)
                    &&& session.track()@ == Seq::<Seq<u8>>::empty()
                    &&& session.track().spec_format() == format
                },
                Err(error) => !decoder_made && error == DecodeError::CodecUnsupported,
            },
    {
        if !decoder_made {
            return Err(DecodeError::CodecUnsupported);
        }
        Ok(
            DecodeSession {
                next: Step::Pull,
                selected: choice.id,
                track: DecodedTrack::new(format),
                pulled: 0,
                packets: 0,
                skipped: 0,
                history: Ghost(Seq::empty()),
            },
        )
    }

    /// What the caller is to do next.
    pub fn next(&self) -> (step: Step)
        ensures
            step == self.model().next,
    {
        self.next
    }

    /// The identifier of the selected track.
    pub fn selected(&self) -> (id: u32)
        ensures
            id == self.model().selected,
    {
        self.selected
    }

    /// How many packets of the selected track have been dealt with.
    #[verifier::when_used_as_spec(spec_packets)]
    pub fn packets(&self) -> (count: u64)
        ensures
            count == self.spec_packets(),
    {
        self.packets
    }

    /// How many packets of the selected track were skipped.
    #[verifier::when_used_as_spec(spec_skipped)]
    pub fn skipped(&self) -> (count: u64)
        ensures
            count == self.spec_skipped(),
    {
        self.skipped
    }

    /// How many chunks were decoded so far.
    pub fn chunk_count(&self) -> (count: usize)
        ensures
            count == self.track()@.len(),
    {
        self.track.len()
    }

    /// Fails a session that was told what it did not wait for, and leaves
    /// one that is over as it is.
    fn stray(&mut self)
        requires
            old(self).wf(),
        ensures
            final(self).wf(),
            final(self).model() == old(self).model().out_of_turn(),
            final(self).track == old(self).track,
            final(self).packets == old(self).packets,
            final(self).skipped == old(self).skipped,
    {
        match self.next {
            Step::Finish => {},
            Step::Fail(_) => {},
            _ => {
                self.next = Step::Fail(DecodeError::StreamIoFatal);
            },
        }
    }

    /// Takes the report of a pull: what [`SessionModel::after_pull`] says.
    ///
    /// `pulled` is what pulling the next packet from `reader` gave. Where
    /// the session takes the packet, the reader's pending metadata is
    /// dropped; in every other case the reader is left alone. The chunks
    /// stay as they are. The result is what is to be done next.
    pub fn pulled(
        &mut self,
        reader: &mut symphonia::core::probe::ProbeResult,
        pulled: &Result<symphonia::core::formats::Packet, symphonia::core::errors::Error>,
    ) -> (step: Step)
        requires
            old(self).wf(),
        ensures
            final(self).wf(),
            final(self).model() == old(self).model().after_pull(pull_event(*pulled)),
            step == final(self).model().next,
            final(self).track() == old(self).track(),
            *final(reader) == if old(self).model().takes(pull_event(*pulled)) {
                metadata_skipped(*old(reader))
            } else {
                *old(reader)
            },
    {
        match self.next {
            Step::Pull => {},
            _ => {
                self.stray();
                return self.next;
            },
        }
        match pulled {
            Err(error) => {
                self.next = match read_verdict(fault_of(error)) {
                    ReadVerdict::EndOfStream => Step::Finish,
                    ReadVerdict::Fatal => Step::Fail(DecodeError::StreamIoFatal),
                };
            },
            Ok(packet) => {
                if self.pulled >= PACKET_LIMIT {
                    self.next = Step::Fail(DecodeError::StreamIoFatal);
                } else {
                    self.pulled = self.pulled + 1;
                    skip_metadata(reader);
                    if packet_track(packet) != self.selected {
                        let ghost record = self.history@;
                        self.history = Ghost(record.push(PacketEvent::OtherTrack));
                        proof {
                            assert(self.history@.drop_last() == record);
                        }
                    } else {
                        self.next = Step::Decode;
                    }
                }
            },
        }
        self.next
    }

    /// Takes the report of a decode: what [`SessionModel::after_decode`]
    /// says for the session's format.
    ///
    /// `decoded` is what decoding the packet pulled last gave. The chunks
    /// stay as they are. The result is what is to be done next.
    pub fn decoded(
        &mut self,
        decoded: &Result<symphonia::core::audio::AudioBufferRef<'_>, symphonia::core::errors::Error>,
    ) -> (step: Step)
        requires
            old(self).wf(),
        ensures
            final(self).wf(),
            final(self).model() == old(self).model().after_decode(
                decode_event(*decoded),
                old(self).track().spec_format(),
            ),
            step == final(self).model().next,
            final(self).track() == old(self).track(),
    {
        match self.next {
            Step::Decode => {},
            _ => {
                self.stray();
                return self.next;
            },
        }
        match decoded {
            Err(error) => {
                match decode_verdict(fault_of(error)) {
                    DecodeVerdict::Skip(reason) => {
                        let ghost record = self.history@;
                        proof {
                            lemma_chunk_count(record);
                        }
                        self.packets = self.packets + 1;
                        self.skipped = self.skipped + 1;
                        self.history = Ghost(record.push(skip_event(reason)));
                        self.next = Step::Pull;
                        proof {
                            assert(self.history@.drop_last() == record);
                        }
                    },
                    DecodeVerdict::Fatal => {
                        self.next = Step::Fail(DecodeError::StreamIoFatal);
                    },
                }
            },
            Ok(audio) => {
                let shape = AudioShape {
                    frames: frames_of(audio),
                    capacity: capacity_of(audio),
                    channels: channels_of(audio),
                };
                self.next = match pack_plan(shape, self.track.format()) {
                    Some(plan) => Step::Pack(plan),
                    None => Step::Fail(DecodeError::StreamIoFatal),
                };
            },
        }
        self.next
    }

    /// Takes the bytes that the waiting packet's audio was packed to: what
    /// [`SessionModel::after_accept`] says.
    ///
    /// Bytes of the planned length are appended to the track as its next
    /// chunk, tagged with the session's format, and the packet goes on
    /// record as decoded. With bytes of any other length the session fails
    /// and the chunks stay as they are. The result is what is to be done
    /// next.
    pub fn accept(&mut self, bytes: Vec<u8>) -> (step: Step)
        requires
            old(self).wf(),
        ensures
            final(self).wf(),
            final(self).model() == old(self).model().after_accept(bytes@),
            step == final(self).model().next,
            final(self).track().spec_format() == old(self).track().spec_format(),
            final(self).track()@ == if old(self).model().next is Pack && step == Step::Pull {
                old(self).track()@.push(bytes@)
            } else {
                old(self).track()@
            },
    {
        let plan = match self.next {
            Step::Pack(plan) => plan,
            _ => {
                self.stray();
                return self.next;
            },
        };
        if bytes.len() != plan.len {
            self.next = Step::Fail(DecodeError::StreamIoFatal);
            return self.next;
        }
        let ghost record = self.history@;
        let ghost chunks = self.track@;
        proof {
            lemma_chunk_count(record);
        }
        self.track.push(bytes);
        self.packets = self.packets + 1;
        self.history = Ghost(record.push(PacketEvent::Decoded(bytes@)));
        self.next = Step::Pull;
        proof {
            assert(self.history@.drop_last() == record);
            assert forall|i: int| 0 <= i < self.track@.len() implies self.track.spec_format().spec_holds_whole_frames(
                (#[trigger] self.track@[i]).len(),
            ) by {
                if i < chunks.len() {
                    assert(self.track@[i] == chunks[i]);
                }
            }
        }
        self.next
    }

    /// Ends the session and hands out what it came to.
    ///
    /// A session that stands at [`Step::Finish`] gives its chunks with the
    /// packet counts of its record: as many chunks as packets of the track
    /// that were not skipped, each a whole number of frames. A session that
    /// failed gives its error and the chunks decoded up to then. A session
    /// that is ended before it is over counts as failed with
    /// [`DecodeError::StreamIoFatal`].
    pub fn finish(self) -> (outcome: Result<DecodeSummary, DecodeFailure>)
        requires
            self.wf(),
        ensures
            match outcome {
                Ok(summary) => {
                    &&& self.model().next == Step::Finish
                    &&& summary.track == self.track()
                    &&& summary.track.wf()
                    &&& all_whole_frames(summary.track@, summary.track.spec_format())
                    &&& summary.packets == packets_on_track(self.history())
                    &&& summary.skipped == packets_skipped(self.history())
                    &&& summary.track@.len() == summary.packets - summary.skipped
                },
                Err(failure) => {
                    &&& self.model().next != Step::Finish
                    &&& failure.error == match self.model().next {
                        Step::Fail(error) => error,
                        _ => DecodeError::StreamIoFatal,
                    }
                    &&& failure.partial == self.track()
                },
            },
    {
        proof {
            lemma_chunk_count(self.history@);
        }
        match self.next {
            Step::Finish => Ok(
                DecodeSummary { track: self.track, packets: self.packets, skipped: self.skipped },
            ),
            Step::Fail(error) => Err(DecodeFailure { error, partial: self.track }),
            _ => Err(DecodeFailure { error: DecodeError::StreamIoFatal, partial: self.track }),
        }
    }
}

} // verus!
