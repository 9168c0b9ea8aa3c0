//! The doors to the media library.
//!
//! Demuxing and decoding are symphonia's work, and the calls that do it
//! (probing, making a decoder, pulling a packet, decoding it) are made by
//! the caller: on malformed media they may not return, and nothing that
//! could be tested beforehand rules that out. What the session reads of the
//! values that come back, it reads here. Each function makes one call that
//! returns on every value, and what is stated of it is taken on trust from
//! symphonia's source.
use vstd::prelude::*;
use crate::decoder::tracks::CodecTraits;

verus! {

/// symphonia's `ProbeResult`: the format reader that probing set up for a
/// media source.
#[verifier::external_type_specification]
#[verifier::external_body]
pub struct ExProbeResult(symphonia::core::probe::ProbeResult);

/// symphonia's `Packet`: one unit of encoded data of one track.
#[verifier::external_type_specification]
#[verifier::external_body]
pub struct ExPacket(symphonia::core::formats::Packet);

/// symphonia's `Error`.
#[verifier::external_type_specification]
#[verifier::external_body]
pub struct ExError(symphonia::core::errors::Error);

/// symphonia's `AudioBufferRef`: the audio decoded from one packet, in the
/// codec's own sample type.
#[verifier::external_type_specification]
#[verifier::external_body]
pub struct ExAudioBufferRef<'a>(symphonia::core::audio::AudioBufferRef<'a>);

/// The kinds of symphonia's errors that a session tells apart.
#[derive(Clone, Copy, Debug, PartialEq, Eq, Structural)]
pub enum MediaFault {
    /// `IoError` of the kind `UnexpectedEof`: the stream has no more bytes.
    /// This is how symphonia marks the end of a stream.
    EndOfStream,
    /// `IoError` of any other kind: reading, writing or seeking the stream
    /// failed.
    Io,
    /// `DecodeError`: the stream holds malformed data.
    Malformed,
    /// `SeekError`: the stream could not be seeked.
    Seek,
    /// `Unsupported`: a feature of the container or codec is not supported.
    Unsupported,
    /// `LimitError`: a limit was reached.
    Limit,
    /// `ResetRequired`: the decoder has to be set up again.
    ResetRequired,
}

/// The tracks of the container a reader was set up for, in the reader's
/// order: each track's identifier, and whether its codec is symphonia's null
/// codec.
pub uninterp spec fn track_table(reader: symphonia::core::probe::ProbeResult) -> Seq<(u32, bool)>;

/// What the codec parameters of track `index` of a reader say of the codec.
pub uninterp spec fn codec_traits(reader: symphonia::core::probe::ProbeResult, index: int) -> CodecTraits;

/// A reader after all but the newest revision of its metadata were dropped.
pub uninterp spec fn metadata_skipped(
    reader: symphonia::core::probe::ProbeResult,
) -> symphonia::core::probe::ProbeResult;

/// The identifier of the track that a packet belongs to.
pub uninterp spec fn track_of(packet: symphonia::core::formats::Packet) -> u32;

/// The kind of one of symphonia's errors.
pub uninterp spec fn fault_kind(error: symphonia::core::errors::Error) -> MediaFault;

/// The number of frames that an audio buffer holds.
pub uninterp spec fn audio_frames(audio: symphonia::core::audio::AudioBufferRef<'_>) -> usize;

/// The number of frames that an audio buffer has room for.
pub uninterp spec fn audio_capacity(audio: symphonia::core::audio::AudioBufferRef<'_>) -> usize;

/// The number of channels of an audio buffer.
pub uninterp spec fn audio_channels(audio: symphonia::core::audio::AudioBufferRef<'_>) -> usize;

/// Calls `FormatReader::tracks` and gives the number of tracks.
#[verifier::external_body]
pub(crate) fn track_count(reader: &symphonia::core::probe::ProbeResult) -> (count: usize)
    ensures
        count == track_table(*reader).len(),
{
    reader.format.tracks().len()
}

/// Calls `FormatReader::tracks` and gives the identifier of track `index`.
#[verifier::external_body]
pub(crate) fn track_id(reader: &symphonia::core::probe::ProbeResult, index: usize) -> (id: u32)
    requires
        index < track_table(*reader).len(),
    ensures
        id == track_table(*reader)[index as int].0,
{
    reader.format.tracks()[index].id
}

/// Calls `FormatReader::tracks` and says whether the codec of track `index`
/// is `CODEC_TYPE_NULL`, symphonia's mark for a codec it does not know.
#[verifier::external_body]
pub(crate) fn track_codec_is_null(reader: &symphonia::core::probe::ProbeResult, index: usize) -> (null: bool)
    requires
        index < track_table(*reader).len(),
    ensures
        null == track_table(*reader)[index as int].1,
{
    reader.format.tracks()[index].codec_params.codec == symphonia::core::codecs::CODEC_TYPE_NULL
}

/// Calls `FormatReader::tracks` and reads from the codec parameters of track
/// `index` whether the codec is `CODEC_TYPE_ADPCM_MS`, whether it is
/// `CODEC_TYPE_ADPCM_IMA_WAV`, and how many channels the parameters name, if
/// they name any.
#[verifier::external_body]
pub(crate) fn track_codec(reader: &symphonia::core::probe::ProbeResult, index: usize) -> (traits: CodecTraits)
    requires
        index < track_table(*reader).len(),
    ensures
        traits == codec_traits(*reader, index as int),
{
    let parameters = &reader.format.tracks()[index].codec_params;
    CodecTraits {
        adpcm_ms: parameters.codec == symphonia::core::codecs::CODEC_TYPE_ADPCM_MS,
        adpcm_ima: parameters.codec == symphonia::core::codecs::CODEC_TYPE_ADPCM_IMA_WAV,
        channels: parameters.channels.map(|channels| channels.count()),
    }
}

/// Calls `Metadata::skip_to_latest` on the reader's metadata log, which
/// drops every revision but the newest.
#[verifier::external_body]
pub(crate) fn skip_metadata(reader: &mut symphonia::core::probe::ProbeResult)
    ensures
        *final(reader) == metadata_skipped(*old(reader)),
{
    reader.format.metadata().skip_to_latest();
}

/// Calls `Packet::track_id`, which reads the packet's track identifier.
#[verifier::external_body]
pub(crate) fn packet_track(packet: &symphonia::core::formats::Packet) -> (id: u32)
    ensures
        id == track_of(*packet),
{
    packet.track_id()
}

/// Calls `AudioBufferRef::frames`, which reads the number of frames held.
#[verifier::external_body]
pub(crate) fn frames_of(audio: &symphonia::core::audio::AudioBufferRef<'_>) -> (frames: usize)
    ensures
        frames == audio_frames(*audio),
{
    audio.frames()
}

/// Calls `AudioBufferRef::capacity`, which reads the number of frames there
/// is room for.
#[verifier::external_body]
pub(crate) fn capacity_of(audio: &symphonia::core::audio::AudioBufferRef<'_>) -> (capacity: usize)
    ensures
        capacity == audio_capacity(*audio),
{
    audio.capacity()
}

/// Calls `AudioBufferRef::spec` and counts the channels of the signal
/// specification it gives.
#[verifier::external_body]
pub(crate) fn channels_of(audio: &symphonia::core::audio::AudioBufferRef<'_>) -> (channels: usize)
    ensures
        channels == audio_channels(*audio),
{
    audio.spec().channels.count()
}

/// Tells the variants of symphonia's `Error` apart, and among the I/O errors
/// the kind `UnexpectedEof`, with which symphonia marks the end of a stream.
#[verifier::external_body]
pub(crate) fn fault_of(error: &symphonia::core::errors::Error) -> (fault: MediaFault)
    ensures
        fault == fault_kind(*error),
{
    match error {
        symphonia::core::errors::Error::IoError(io) => match io.kind() {
            std::io::ErrorKind::UnexpectedEof => MediaFault::EndOfStream,
            _ => MediaFault::Io,
        },
        symphonia::core::errors::Error::DecodeError(_) => MediaFault::Malformed,
        symphonia::core::errors::Error::SeekError(_) => MediaFault::Seek,
        symphonia::core::errors::Error::Unsupported(_) => MediaFault::Unsupported,
        symphonia::core::errors::Error::LimitError(_) => MediaFault::Limit,
        symphonia::core::errors::Error::ResetRequired => MediaFault::ResetRequired,
    }
}

} // verus!
