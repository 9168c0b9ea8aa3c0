//! The playback side: what runs once a track is fully decoded.
use vstd::prelude::*;
use crate::format::StreamFormat;
use crate::format::SampleEncoding;

pub mod control;
pub mod engine;
pub mod termination;

verus! {

/// Frames per second of the stream a player declares by default.
pub const DEFAULT_RATE: u32 = 44100;

/// Channels of the stream a player declares by default.
pub const DEFAULT_CHANNELS: u32 = 2;

/// The message that asks the control loop to stop. It carries nothing: its
/// arrival is the whole signal.
#[derive(Clone, Copy, Debug, PartialEq, Eq, Structural)]
pub struct Terminate;

/// The format a player declares when it is asked for none: 32-bit float,
/// [`DEFAULT_RATE`] frames per second, [`DEFAULT_CHANNELS`] channels.
pub fn default_format() -> (format: StreamFormat)
    ensures
        format == (StreamFormat {
            encoding: SampleEncoding::Float32,
            rate: DEFAULT_RATE,
            channels: DEFAULT_CHANNELS,
        }),
        format.spec_frame_stride() == 8,
{
    let format = StreamFormat::new(DEFAULT_RATE, DEFAULT_CHANNELS);
    assert(format.encoding.spec_width() == 4 && format.channels == 2);
    format
}

} // verus!
