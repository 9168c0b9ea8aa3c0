//! The format a stream is declared with: sample encoding, rate and channel
//! count, and the byte arithmetic that follows from them.
use vstd::prelude::*;

verus! {

/// How one sample is laid out in a chunk's bytes.
#[derive(Clone, Copy, Debug, PartialEq, Eq, Structural)]
#[non_exhaustive]
pub enum SampleEncoding {
    /// IEEE 754 single precision, little endian, interleaved by frame.
    Float32,
}

impl SampleEncoding {
    /// Bytes taken by one sample of one channel.
    pub open spec fn spec_width(self) -> nat {
        match self {
            SampleEncoding::Float32 => 4,
        }
    }

    /// Bytes taken by one sample of one channel.
    pub fn width(self) -> (w: u64)
        ensures
            w == self.spec_width(),
    {
        match self {
            SampleEncoding::Float32 => 4,
        }
    }
}

/// The single fixed format of an output stream. It is declared to the audio
/// server once, before the first period is served, and tags every chunk that
/// is decoded for that stream.
#[derive(Clone, Copy, Debug, PartialEq, Eq, Structural)]
pub struct StreamFormat {
    /// Layout of each sample.
    pub encoding: SampleEncoding,
    /// Frames per second.
    pub rate: u32,
    /// Samples per frame.
    pub channels: u32,
}

impl StreamFormat {
    /// A 32-bit float stream of the given rate and channel count.
    pub fn new(rate: u32, channels: u32) -> (format: StreamFormat)
        ensures
            format == (StreamFormat { encoding: SampleEncoding::Float32, rate, channels }),
    {
        StreamFormat { encoding: SampleEncoding::Float32, rate, channels }
    }

    /// Bytes in one frame: one sample for each channel.
    pub open spec fn spec_frame_stride(self) -> nat {
        self.encoding.spec_width() * (self.channels as nat)
    }

    /// Bytes in one frame: one sample for each channel. This is the stride an
    /// interleaved buffer of this format is declared with.
    pub fn frame_stride(self) -> (stride: u64)
        ensures
            stride == self.spec_frame_stride(),
    {
        let width: u64 = self.encoding.width();
        let channels: u64 = self.channels as u64;
        assert(width * channels <= 4 * 0xffff_ffff) by (nonlinear_arith)
            requires
                width <= 4,
                channels <= 0xffff_ffff,
        ;
        width * channels
    }

    /// Whether `len` bytes are a whole number of frames: a multiple of the
    /// frame stride, or nothing at all where a frame has no bytes.
    pub open spec fn spec_holds_whole_frames(self, len: nat) -> bool {
        if self.spec_frame_stride() == 0 {
            len == 0
        } else {
            len % self.spec_frame_stride() == 0
        }
    }

    /// Whether `len` bytes are a whole number of frames: a multiple of the
    /// frame stride, or nothing at all where a frame has no bytes.
    pub fn holds_whole_frames(self, len: usize) -> (whole: bool)
        ensures
            whole == self.spec_holds_whole_frames(len as nat),
    {
        let stride: u64 = self.frame_stride();
        let len: u64 = len as u64;
        if stride == 0 {
            len == 0
        } else {
            len % stride == 0
        }
    }

    /// Bytes taken by `frames` frames.
    pub open spec fn spec_bytes_for_frames(self, frames: nat) -> nat {
        frames * self.spec_frame_stride()
    }

    /// Bytes taken by `frames` frames, or `None` when that count does not fit
    /// in 64 bits.
    pub fn bytes_for_frames(self, frames: u64) -> (bytes: Option<u64>)
        ensures
            bytes matches Some(n) ==> n == self.spec_bytes_for_frames(frames as nat),
            bytes is None <==> self.spec_bytes_for_frames(frames as nat) > u64::MAX,
    {
        frames.checked_mul(self.frame_stride())
    }
}

} // verus!
