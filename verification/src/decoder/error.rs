//! What can go wrong while decoding, and at which stage.
use vstd::prelude::*;

verus! {

/// The stage of a decode at which an error comes up.
#[derive(Clone, Copy, Debug, PartialEq, Eq, Structural)]
pub enum DecodeStage {
    /// Reading the media source.
    Open,
    /// Recognising the container format.
    Probe,
    /// Picking the track to decode.
    SelectTrack,
    /// Setting up a decoder for the track's codec.
    InstantiateDecoder,
    /// Pulling the next packet from the container.
    ReadPacket,
    /// Decoding one packet.
    DecodePacket,
}

/// An error of the decode side.
#[derive(Clone, Copy, Debug, PartialEq, Eq, Structural)]
pub enum DecodeError {
    /// The media source could not be read.
    SourceOpen,
    /// No container format was recognised in the source.
    Probe,
    /// The container holds no track with a decodable codec.
    TrackNotFound,
    /// No decoder is available for the track's codec.
    CodecUnsupported,
    /// One packet could not be read by the codec. The packet is skipped.
    PacketIo,
    /// One packet holds invalid data. The packet is skipped.
    PacketDecode,
    /// The stream failed in a way that ends the decode.
    StreamIoFatal,
}

impl DecodeError {
    /// Whether decoding goes on after this error. Only the two per-packet
    /// kinds are of that sort: the packet is dropped and the next one tried.
    pub open spec fn spec_is_recoverable(self) -> bool {
        self == DecodeError::PacketIo || self == DecodeError::PacketDecode
    }

    /// Whether decoding goes on after this error. Only the two per-packet
    /// kinds are of that sort: the packet is dropped and the next one tried.
    #[verifier::when_used_as_spec(spec_is_recoverable)]
    pub fn is_recoverable(self) -> (recoverable: bool)
        ensures
            recoverable == self.spec_is_recoverable(),
    {
        match self {
            DecodeError::PacketIo => true,
            DecodeError::PacketDecode => true,
            _ => false,
        }
    }

    /// The stage at which this error comes up.
    pub open spec fn spec_stage(self) -> DecodeStage {
        match self {
            DecodeError::SourceOpen => DecodeStage::Open,
            DecodeError::Probe => DecodeStage::Probe,
            DecodeError::TrackNotFound => DecodeStage::SelectTrack,
            DecodeError::CodecUnsupported => DecodeStage::InstantiateDecoder,
            DecodeError::PacketIo => DecodeStage::DecodePacket,
            DecodeError::PacketDecode => DecodeStage::DecodePacket,
            DecodeError::StreamIoFatal => DecodeStage::ReadPacket,
        }
    }

    /// The stage at which this error comes up.
    #[verifier::when_used_as_spec(spec_stage)]
    pub fn stage(self) -> (stage: DecodeStage)
        ensures
            stage == self.spec_stage(),
    {
        match self {
            DecodeError::SourceOpen => DecodeStage::Open,
            DecodeError::Probe => DecodeStage::Probe,
            DecodeError::TrackNotFound => DecodeStage::SelectTrack,
            DecodeError::CodecUnsupported => DecodeStage::InstantiateDecoder,
            DecodeError::PacketIo => DecodeStage::DecodePacket,
            DecodeError::PacketDecode => DecodeStage::DecodePacket,
            DecodeError::StreamIoFatal => DecodeStage::ReadPacket,
        }
    }

    /// The diagnostic line for this error.
    pub fn message(self) -> (text: &'static str)
        ensures
            text@ == match self {
                DecodeError::SourceOpen => "failed to open media"@,
                DecodeError::Probe => "unsupported format"@,
                DecodeError::TrackNotFound => "no supported audio tracks"@,
                DecodeError::CodecUnsupported => "unsupported codec"@,
                DecodeError::PacketIo => "packet could not be read"@,
                DecodeError::PacketDecode => "packet holds invalid data"@,
                DecodeError::StreamIoFatal => "stream failed"@,
            },
    {
        match self {
            DecodeError::SourceOpen => "failed to open media",
            DecodeError::Probe => "unsupported format",
            DecodeError::TrackNotFound => "no supported audio tracks",
            DecodeError::CodecUnsupported => "unsupported codec",
            DecodeError::PacketIo => "packet could not be read",
            DecodeError::PacketDecode => "packet holds invalid data",
            DecodeError::StreamIoFatal => "stream failed",
        }
    }
}

} // verus!
