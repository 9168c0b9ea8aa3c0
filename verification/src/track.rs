//! Decoded material: chunks of PCM bytes, the track they form, and the flat
//! byte stream that a track stands for.
use vstd::prelude::*;
use crate::format::StreamFormat;

verus! {

/// The bytes of `chunks` laid end to end, in order.
pub open spec fn concat(chunks: Seq<Seq<u8>>) -> Seq<u8>
    decreases chunks.len(),
{
    if chunks.len() == 0 {
        Seq::empty()
    } else {
        concat(chunks.drop_last()) + chunks.last()
    }
}

/// The number of bytes that come before chunk `k` in the flat stream.
pub open spec fn offset_of(chunks: Seq<Seq<u8>>, k: int) -> nat {
    concat(chunks.take(k)).len()
}

/// Appending a chunk appends its bytes.
pub proof fn lemma_concat_push(chunks: Seq<Seq<u8>>, tail: Seq<u8>)
    ensures
        concat(chunks.push(tail)) == concat(chunks) + tail,
{
    assert(chunks.push(tail).drop_last() == chunks);
}

/// Chunk `k` lies directly behind the chunks before it.
pub proof fn lemma_concat_take_next(chunks: Seq<Seq<u8>>, k: int)
    requires
        0 <= k < chunks.len(),
    ensures
        concat(chunks.take(k + 1)) == concat(chunks.take(k)) + chunks[k],
        offset_of(chunks, k + 1) == offset_of(chunks, k) + chunks[k].len(),
{
    assert(chunks.take(k + 1).drop_last() == chunks.take(k));
}

/// The first `k` chunks form a prefix of the flat stream.
pub proof fn lemma_concat_prefix(chunks: Seq<Seq<u8>>, k: int)
    requires
        0 <= k <= chunks.len(),
    ensures
        offset_of(chunks, k) <= concat(chunks).len(),
        concat(chunks.take(k)) == concat(chunks).take(offset_of(chunks, k) as int),
    decreases chunks.len() - k,
{
    if k == chunks.len() {
        assert(chunks.take(k) == chunks);
        assert(concat(chunks).take(concat(chunks).len() as int) == concat(chunks));
    } else {
        lemma_concat_prefix(chunks, k + 1);
        lemma_concat_take_next(chunks, k);
        let longer = concat(chunks.take(k + 1));
        assert(concat(chunks.take(k)) == longer.take(offset_of(chunks, k) as int));
        assert(longer.take(offset_of(chunks, k) as int) == concat(chunks).take(
            offset_of(chunks, k) as int,
        ));
    }
}

/// Byte `j` of chunk `k` is the byte of the flat stream that lies `j` behind
/// the chunk's offset.
pub proof fn lemma_concat_index(chunks: Seq<Seq<u8>>, k: int, j: int)
    requires
        0 <= k < chunks.len(),
        0 <= j < chunks[k].len(),
    ensures
        offset_of(chunks, k) + j < concat(chunks).len(),
        concat(chunks)[offset_of(chunks, k) + j] == chunks[k][j],
{
    lemma_concat_take_next(chunks, k);
    lemma_concat_prefix(chunks, k + 1);
    let upto = concat(chunks.take(k + 1));
    assert(upto[offset_of(chunks, k) + j] == chunks[k][j]);
    assert(upto[offset_of(chunks, k) + j] == concat(chunks).take(offset_of(chunks, k + 1) as int)[
        offset_of(chunks, k) + j
    ]);
}

/// The bytes held by each of `chunks`, in order.
pub open spec fn bytes_of(chunks: Seq<Vec<u8>>) -> Seq<Seq<u8>> {
    Seq::new(chunks.len(), |i: int| chunks[i]@)
}

/// One decoded packet's worth of interleaved PCM samples, tagged with the
/// format it was decoded for. A chunk is filled once and never changed.
#[derive(Clone, Debug, PartialEq, Eq)]
pub struct AudioChunk {
    bytes: Vec<u8>,
    format: StreamFormat,
}

impl View for AudioChunk {
    type V = Seq<u8>;

    closed spec fn view(&self) -> Seq<u8> {
        self.bytes@
    }
}

impl AudioChunk {
    /// The format the chunk is tagged with.
    pub closed spec fn spec_format(&self) -> StreamFormat {
        self.format
    }

    /// Wraps `bytes` as a chunk of the given format.
    pub fn new(bytes: Vec<u8>, format: StreamFormat) -> (chunk: AudioChunk)
        ensures
            chunk@ == bytes@,
            chunk.spec_format() == format,
    {
        AudioChunk { bytes, format }
    }

    /// The format the chunk is tagged with.
    #[verifier::when_used_as_spec(spec_format)]
    pub fn format(&self) -> (format: StreamFormat)
        ensures
            format == self.spec_format(),
    {
        self.format
    }

    /// Number of bytes in the chunk.
    pub fn len(&self) -> (n: usize)
        ensures
            n == self@.len(),
    {
        self.bytes.len()
    }

    /// Whether the chunk holds no bytes at all.
    pub fn is_empty(&self) -> (empty: bool)
        ensures
            empty <==> self@.len() == 0,
    {
        self.bytes.len() == 0
    }

    /// The chunk's bytes.
    pub fn as_bytes(&self) -> (bytes: &Vec<u8>)
        ensures
            bytes@ == self@,
    {
        &self.bytes
    }

    /// Byte `i` of the chunk.
    pub fn byte(&self, i: usize) -> (b: u8)
        requires
            i < self@.len(),
        ensures
            b == self@[i as int],
    {
        self.bytes[i]
    }

    /// Gives the bytes back, dropping the tag.
    pub fn into_bytes(self) -> (bytes: Vec<u8>)
        ensures
            bytes@ == self@,
    {
        self.bytes
    }
}

/// The chunks decoded from one track, in decode order, which is the order
/// they are played in. Every chunk carries the track's format.
#[derive(Clone, Debug, PartialEq, Eq)]
pub struct DecodedTrack {
    chunks: Vec<AudioChunk>,
    format: StreamFormat,
}

impl View for DecodedTrack {
    type V = Seq<Seq<u8>>;

    closed spec fn view(&self) -> Seq<Seq<u8>> {
        Seq::new(self.chunks@.len(), |i: int| self.chunks@[i]@)
    }
}

impl DecodedTrack {
    /// Every chunk is tagged with the track's format.
    pub closed spec fn wf(&self) -> bool {
        forall|i: int| 0 <= i < self.chunks@.len() ==> (#[trigger] self.chunks@[i]).spec_format() == self.format
    }

    /// The format every chunk of the track is tagged with.
    pub closed spec fn spec_format(&self) -> StreamFormat {
        self.format
    }

    /// The track as one stream of bytes.
    pub open spec fn flat(&self) -> Seq<u8> {
        concat(self@)
    }

    /// A track without chunks.
    pub fn new(format: StreamFormat) -> (track: DecodedTrack)
        ensures
            track.wf(),
            track@ == Seq::<Seq<u8>>::empty(),
            track.spec_format() == format,
    {
        DecodedTrack { chunks: Vec::new(), format }
    }

    /// Builds a track of the given format from chunks of raw bytes, keeping
    /// their order.
    pub fn from_chunks(chunks: Vec<Vec<u8>>, format: StreamFormat) -> (track: DecodedTrack)
        ensures
            track.wf(),
            track@ == bytes_of(chunks@),
            track.spec_format() == format,
    {
        let mut track = DecodedTrack::new(format);
        let ghost all = bytes_of(chunks@);
        for bytes in iter: chunks
            invariant
                track.wf(),
                track.spec_format() == format,
                all.len() == iter.seq().len(),
                forall|i: int| 0 <= i < all.len() ==> all[i] == (#[trigger] iter.seq()[i])@,
                track@ == all.take(iter.index() as int),
        {
            proof {
                assert(all.take(iter.index() + 1) == all.take(iter.index() as int).push(bytes@));
            }
            track.push(bytes);
        }
        proof {
            assert(all.take(all.len() as int) == all);
        }
        track
    }

    /// The format every chunk of the track is tagged with.
    #[verifier::when_used_as_spec(spec_format)]
    pub fn format(&self) -> (format: StreamFormat)
        ensures
            format == self.spec_format(),
    {
        self.format
    }

    /// Number of chunks.
    pub fn len(&self) -> (n: usize)
        ensures
            n == self@.len(),
    {
        self.chunks.len()
    }

    /// Whether the track has no chunk.
    pub fn is_empty(&self) -> (empty: bool)
        ensures
            empty <==> self@.len() == 0,
    {
        self.chunks.len() == 0
    }

    /// Chunk `i` of the track.
    pub fn chunk(&self, i: usize) -> (chunk: &AudioChunk)
        requires
            i < self@.len(),
        ensures
            chunk@ == self@[i as int],
            self.wf() ==> chunk.spec_format() == self.spec_format(),
    {
        &self.chunks[i]
    }

    /// Chunk `i`, or `None` when the track has no such chunk.
    pub fn get(&self, i: usize) -> (chunk: Option<&AudioChunk>)
        ensures
            i < self@.len() ==> chunk is Some && chunk->0@ == self@[i as int],
            i < self@.len() && self.wf() ==> chunk->0.spec_format() == self.spec_format(),
            i >= self@.len() ==> chunk is None,
    {
        if i < self.chunks.len() {
            Some(&self.chunks[i])
        } else {
            None
        }
    }

    /// Appends `bytes` as the track's next chunk, tagged with the track's
    /// format.
    pub fn push(&mut self, bytes: Vec<u8>)
        requires
            old(self).wf(),
        ensures
            final(self).wf(),
            final(self)@ == old(self)@.push(bytes@),
            final(self).spec_format() == old(self).spec_format(),
            final(self).flat() == old(self).flat() + bytes@,
    {
        let chunk = AudioChunk::new(bytes, self.format);
        self.chunks.push(chunk);
        proof {
            assert(self@ == old(self)@.push(bytes@));
            lemma_concat_push(old(self)@, bytes@);
        }
    }

    /// Number of bytes in the whole track, or `None` when that number does
    /// not fit in `usize`.
    pub fn total_len(&self) -> (total: Option<usize>)
        ensures
            total matches Some(n) ==> n == self.flat().len(),
            total is None <==> self.flat().len() > usize::MAX,
    {
        let mut sum: usize = 0;
        let mut k: usize = 0;
        while k < self.chunks.len()
            invariant
                k <= self.chunks@.len(),
                sum == offset_of(self@, k as int),
            decreases self.chunks@.len() - k,
        {
            proof {
                lemma_concat_take_next(self@, k as int);
                lemma_concat_prefix(self@, k as int + 1);
            }
            match sum.checked_add(self.chunks[k].len()) {
                Some(next) => {
                    sum = next;
                },
                None => {
                    return None;
                },
            }
            k += 1;
        }
        proof {
            assert(self@.take(k as int) == self@);
        }
        Some(sum)
    }

    /// Gives the chunks back as raw bytes, in order, dropping the tags.
    pub fn into_chunks(self) -> (chunks: Vec<Vec<u8>>)
        ensures
            bytes_of(chunks@) == self@,
    {
        let mut out: Vec<Vec<u8>> = Vec::new();
        let ghost all = self@;
        for chunk in iter: self.chunks
            invariant
                all.len() == iter.seq().len(),
                forall|i: int| 0 <= i < all.len() ==> all[i] == (#[trigger] iter.seq()[i])@,
                bytes_of(out@) == all.take(iter.index() as int),
        {
            let ghost before = bytes_of(out@);
            let bytes = chunk.into_bytes();
            out.push(bytes);
            proof {
                assert(bytes_of(out@) == before.push(bytes@));
                assert(all.take(iter.index() + 1) == all.take(iter.index() as int).push(bytes@));
            }
        }
        proof {
            assert(all.take(all.len() as int) == all);
        }
        out
    }
}

} // verus!
