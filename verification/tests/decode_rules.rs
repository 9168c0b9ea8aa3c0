use pwsb::decoder::error::DecodeError;
use pwsb::decoder::error::DecodeStage;
use pwsb::decoder::media::MediaFault;
use pwsb::decoder::session::decode_verdict;
use pwsb::decoder::session::pack_plan;
use pwsb::decoder::session::AudioShape;
use pwsb::decoder::session::PackPlan;
use pwsb::decoder::session::read_verdict;
use pwsb::decoder::session::DecodeVerdict;
use pwsb::decoder::session::ReadVerdict;
use pwsb::decoder::session::PACKET_LIMIT;
use pwsb::decoder::tracks::codec_is_supported;
use pwsb::decoder::tracks::select_track;
use pwsb::decoder::tracks::CodecTraits;
use pwsb::format::StreamFormat;
use pwsb::decoder::tracks::TrackEntry;

const ALL_ERRORS: [DecodeError; 7] = [
    DecodeError::SourceOpen,
    DecodeError::Probe,
    DecodeError::TrackNotFound,
    DecodeError::CodecUnsupported,
    DecodeError::PacketIo,
    DecodeError::PacketDecode,
    DecodeError::StreamIoFatal,
];

fn track(id: u32, decodable: bool) -> TrackEntry {
    TrackEntry { id, decodable }
}

#[test]
fn only_per_packet_errors_are_recoverable() {
    for error in ALL_ERRORS {
        let expected = matches!(error, DecodeError::PacketIo | DecodeError::PacketDecode);
        assert_eq!(error.is_recoverable(), expected);
    }
}

#[test]
fn each_error_is_tagged_with_its_stage() {
    assert_eq!(DecodeError::SourceOpen.stage(), DecodeStage::Open);
    assert_eq!(DecodeError::Probe.stage(), DecodeStage::Probe);
    assert_eq!(DecodeError::TrackNotFound.stage(), DecodeStage::SelectTrack);
    assert_eq!(DecodeError::CodecUnsupported.stage(), DecodeStage::InstantiateDecoder);
    assert_eq!(DecodeError::PacketIo.stage(), DecodeStage::DecodePacket);
    assert_eq!(DecodeError::PacketDecode.stage(), DecodeStage::DecodePacket);
    assert_eq!(DecodeError::StreamIoFatal.stage(), DecodeStage::ReadPacket);
}

#[test]
fn each_error_has_its_diagnostic_line() {
    assert_eq!(DecodeError::SourceOpen.message(), "failed to open media");
    assert_eq!(DecodeError::Probe.message(), "unsupported format");
    assert_eq!(DecodeError::TrackNotFound.message(), "no supported audio tracks");
    assert_eq!(DecodeError::CodecUnsupported.message(), "unsupported codec");
    assert_eq!(DecodeError::PacketIo.message(), "packet could not be read");
    assert_eq!(DecodeError::PacketDecode.message(), "packet holds invalid data");
    assert_eq!(DecodeError::StreamIoFatal.message(), "stream failed");
}

#[test]
fn unreadable_source_is_a_fatal_open_error() {
    let error = DecodeError::SourceOpen;
    assert!(!error.is_recoverable());
    assert_eq!(error.stage(), DecodeStage::Open);
}

#[test]
fn end_of_stream_on_read_ends_the_decode_and_all_else_is_fatal() {
    assert_eq!(read_verdict(MediaFault::EndOfStream), ReadVerdict::EndOfStream);
    assert_eq!(read_verdict(MediaFault::Io), ReadVerdict::Fatal);
    assert_eq!(read_verdict(MediaFault::Malformed), ReadVerdict::Fatal);
    assert_eq!(read_verdict(MediaFault::Seek), ReadVerdict::Fatal);
    assert_eq!(read_verdict(MediaFault::Unsupported), ReadVerdict::Fatal);
    assert_eq!(read_verdict(MediaFault::Limit), ReadVerdict::Fatal);
    assert_eq!(read_verdict(MediaFault::ResetRequired), ReadVerdict::Fatal);
}

#[test]
fn io_and_malformed_packets_are_skipped_and_others_are_fatal() {
    assert_eq!(decode_verdict(MediaFault::EndOfStream), DecodeVerdict::Skip(DecodeError::PacketIo));
    assert_eq!(decode_verdict(MediaFault::Io), DecodeVerdict::Skip(DecodeError::PacketIo));
    assert_eq!(decode_verdict(MediaFault::Malformed), DecodeVerdict::Skip(DecodeError::PacketDecode));
    assert_eq!(decode_verdict(MediaFault::Seek), DecodeVerdict::Fatal);
    assert_eq!(decode_verdict(MediaFault::Unsupported), DecodeVerdict::Fatal);
    assert_eq!(decode_verdict(MediaFault::Limit), DecodeVerdict::Fatal);
    assert_eq!(decode_verdict(MediaFault::ResetRequired), DecodeVerdict::Fatal);
}

#[test]
fn skipped_packets_carry_recoverable_errors() {
    for fault in [MediaFault::EndOfStream, MediaFault::Io, MediaFault::Malformed] {
        match decode_verdict(fault) {
            DecodeVerdict::Skip(reason) => assert!(reason.is_recoverable()),
            DecodeVerdict::Fatal => panic!("a recoverable fault was fatal"),
        }
    }
}

#[test]
fn packet_limit_is_the_largest_count() {
    assert_eq!(PACKET_LIMIT, u64::MAX);
}

#[test]
fn first_decodable_track_is_selected() {
    assert_eq!(select_track(&vec![track(7, true)]), Some(0));
    assert_eq!(select_track(&vec![track(1, false), track(2, true), track(3, true)]), Some(1));
    assert_eq!(select_track(&vec![track(1, false), track(2, false), track(9, true)]), Some(2));
    assert_eq!(select_track(&vec![track(1, true), track(2, false)]), Some(0));
}

#[test]
fn no_track_is_selected_where_none_is_decodable() {
    assert_eq!(select_track(&Vec::new()), None);
    assert_eq!(select_track(&vec![track(1, false)]), None);
    assert_eq!(select_track(&vec![track(1, false), track(2, false)]), None);
}

#[test]
fn audio_is_packed_frame_for_frame_into_a_buffer_of_its_capacity() {
    let stereo = StreamFormat::new(44100, 2);
    let shape = AudioShape { frames: 16, capacity: 16, channels: 2 };
    assert_eq!(pack_plan(shape, stereo), Some(PackPlan { duration: 16, len: 128 }));
    let shape = AudioShape { frames: 1000, capacity: 1152, channels: 2 };
    assert_eq!(pack_plan(shape, stereo), Some(PackPlan { duration: 1152, len: 8000 }));
    let shape = AudioShape { frames: 0, capacity: 1152, channels: 2 };
    assert_eq!(pack_plan(shape, stereo), Some(PackPlan { duration: 1152, len: 0 }));
    let shape = AudioShape { frames: 3, capacity: 4, channels: 6 };
    assert_eq!(pack_plan(shape, StreamFormat::new(48000, 6)), Some(PackPlan { duration: 4, len: 72 }));
}

#[test]
fn audio_that_does_not_fit_the_format_has_no_plan() {
    let stereo = StreamFormat::new(44100, 2);
    assert_eq!(pack_plan(AudioShape { frames: 16, capacity: 16, channels: 1 }, stereo), None);
    assert_eq!(pack_plan(AudioShape { frames: 16, capacity: 16, channels: 6 }, stereo), None);
    assert_eq!(pack_plan(AudioShape { frames: 17, capacity: 16, channels: 2 }, stereo), None);
    assert_eq!(pack_plan(AudioShape { frames: 0, capacity: 0, channels: 0 }, StreamFormat::new(44100, 0)), None);
    assert_eq!(pack_plan(AudioShape { frames: 1, capacity: usize::MAX, channels: 2 }, stereo), None);
    assert_eq!(pack_plan(AudioShape { frames: 1, capacity: usize::MAX / 8 + 1, channels: 2 }, stereo), None);
    assert_eq!(
        pack_plan(AudioShape { frames: 1, capacity: usize::MAX / 8, channels: 2 }, stereo),
        Some(PackPlan { duration: (usize::MAX / 8) as u64, len: 8 })
    );
}

#[test]
fn adpcm_is_supported_with_one_or_two_channels_only() {
    for (adpcm_ms, adpcm_ima) in [(true, false), (false, true), (true, true)] {
        for (channels, expected) in [(None, false), (Some(0), false), (Some(1), true), (Some(2), true), (Some(3), false), (Some(32), false)] {
            assert_eq!(codec_is_supported(CodecTraits { adpcm_ms, adpcm_ima, channels }), expected);
        }
    }
}

#[test]
fn other_codecs_are_left_to_the_registry() {
    for channels in [None, Some(0), Some(1), Some(2), Some(6), Some(32)] {
        assert!(codec_is_supported(CodecTraits { adpcm_ms: false, adpcm_ima: false, channels }));
    }
}
