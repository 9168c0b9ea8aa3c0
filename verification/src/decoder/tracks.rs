//! Picking the track to decode.
use vstd::prelude::*;

verus! {

/// What track selection needs to know of one track of a container.
#[derive(Clone, Copy, Debug, PartialEq, Eq, Structural)]
pub struct TrackEntry {
    /// The track's identifier. Packets carry it.
    pub id: u32,
    /// Whether the track's codec is known, so that its packets can be
    /// decoded.
    pub decodable: bool,
}

/// What a track's codec parameters say of its codec, as far as it decides
/// whether a decoder for it can be trusted with its packets.
#[derive(Clone, Copy, Debug, PartialEq, Eq, Structural)]
pub struct CodecTraits {
    /// Whether the codec is Microsoft ADPCM.
    pub adpcm_ms: bool,
    /// Whether the codec is IMA ADPCM as found in WAV files.
    pub adpcm_ima: bool,
    /// How many channels the parameters name, if they name any.
    pub channels: Option<usize>,
}

/// Whether a codec with these traits is supported. The ADPCM decoders
/// handle one or two channels and nothing else, so an ADPCM track is
/// supported only where its parameters name one or two channels. Every other
/// codec is left to the codec registry.
pub open spec fn spec_codec_is_supported(traits: CodecTraits) -> bool {
    if traits.adpcm_ms || traits.adpcm_ima {
        traits.channels == Some(1usize) || traits.channels == Some(2usize)
    } else {
        true
    }
}

/// Whether a codec with these traits is supported. The ADPCM decoders
/// handle one or two channels and nothing else, so an ADPCM track is
/// supported only where its parameters name one or two channels. Every other
/// codec is left to the codec registry.
#[verifier::when_used_as_spec(spec_codec_is_supported)]
pub fn codec_is_supported(traits: CodecTraits) -> (supported: bool)
    ensures
        supported == spec_codec_is_supported(traits),
{
    if traits.adpcm_ms || traits.adpcm_ima {
        match traits.channels {
            Some(channels) => channels == 1 || channels == 2,
            None => false,
        }
    } else {
        true
    }
}

/// Whether `index` is the first decodable track of `tracks`.
pub open spec fn is_first_decodable(tracks: Seq<TrackEntry>, index: int) -> bool {
    &&& 0 <= index < tracks.len()
    &&& tracks[index].decodable
    &&& forall|j: int| 0 <= j < index ==> !(#[trigger] tracks[j]).decodable
}

/// Whether no track of `tracks` is decodable.
pub open spec fn none_decodable(tracks: Seq<TrackEntry>) -> bool {
    forall|j: int| 0 <= j < tracks.len() ==> !(#[trigger] tracks[j]).decodable
}

/// At most one index is the first decodable track.
pub proof fn lemma_first_decodable_is_unique(tracks: Seq<TrackEntry>, a: int, b: int)
    requires
        is_first_decodable(tracks, a),
        is_first_decodable(tracks, b),
    ensures
        a == b,
{
    if a < b {
        assert(!tracks[a].decodable);
    } else if b < a {
        assert(!tracks[b].decodable);
    }
}

/// The index of the first decodable track, or `None` when there is none.
pub fn select_track(tracks: &Vec<TrackEntry>) -> (selected: Option<usize>)
    ensures
        selected matches Some(index) ==> is_first_decodable(tracks@, index as int),
        selected is None ==> none_decodable(tracks@),
{
    let mut i: usize = 0;
    while i < tracks.len()
        invariant
            i <= tracks@.len(),
            forall|j: int| 0 <= j < i ==> !(#[trigger] tracks@[j]).decodable,
        decreases tracks@.len() - i,
    {
        if tracks[i].decodable {
            return Some(i);
        }
        i += 1;
    }
    None
}

} // verus!
