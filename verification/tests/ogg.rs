use pwsb::decoder::error::DecodeError;
use pwsb::decoder::session::DecodeFailure;
use pwsb::decoder::session::DecodeSession;
use pwsb::decoder::session::DecodeSummary;
use pwsb::decoder::session::PackPlan;
use pwsb::decoder::session::Step;
use pwsb::format::StreamFormat;
use pwsb::player::default_format;

fn crc(poly: u32, width: u32, bytes: &[u8]) -> u32 {
    let top = 1u32 << (width - 1);
    let mask = if width == 32 { u32::MAX } else { (1u32 << width) - 1 };
    let mut state = 0u32;
    for byte in bytes {
        state ^= (*byte as u32) << (width - 8);
        for _ in 0..8 {
            state = if state & top != 0 { (state << 1) ^ poly } else { state << 1 };
            state &= mask;
        }
    }
    state
}

fn page(serial: u32, sequence: u32, flags: u8, granule: u64, packet: &[u8]) -> Vec<u8> {
    assert!(packet.len() < 255);
    let mut out = Vec::new();
    out.extend_from_slice(b"OggS");
    out.push(0);
    out.push(flags);
    out.extend_from_slice(&granule.to_le_bytes());
    out.extend_from_slice(&serial.to_le_bytes());
    out.extend_from_slice(&sequence.to_le_bytes());
    out.extend_from_slice(&[0, 0, 0, 0]);
    out.push(1);
    out.push(packet.len() as u8);
    out.extend_from_slice(packet);
    let sum = crc(0x04c1_1db7, 32, &out);
    out[22..26].copy_from_slice(&sum.to_le_bytes());
    out
}

fn flac_identification() -> Vec<u8> {
    let mut out = vec![0x7f];
    out.extend_from_slice(b"FLAC");
    out.extend_from_slice(&[1, 0, 0, 0]);
    out.extend_from_slice(b"fLaC");
    out.extend_from_slice(&[0x80, 0, 0, 34]);
    out.extend_from_slice(&[0, 16, 0, 16]);
    out.extend_from_slice(&[0, 0, 0, 0, 0, 0]);
    let rate: u64 = 44100;
    let packed: u64 = (rate << 44) | (1 << 41) | (15 << 36);
    out.extend_from_slice(&packed.to_be_bytes());
    out.extend_from_slice(&[0u8; 16]);
    assert_eq!(out.len(), 51);
    out
}

fn flac_frame(number: u8, left: i16, right: i16) -> Vec<u8> {
    assert!(number < 0x80);
    let mut out = vec![0xff, 0xf8, 0x60, 0x10, number, 15];
    let sum = crc(0x07, 8, &out);
    out.push(sum as u8);
    out.push(0);
    out.extend_from_slice(&left.to_be_bytes());
    out.push(0);
    out.extend_from_slice(&right.to_be_bytes());
    let sum = crc(0x8005, 16, &out);
    out.extend_from_slice(&(sum as u16).to_be_bytes());
    out
}

fn corrupt_frame(number: u8) -> Vec<u8> {
    let mut out = flac_frame(number, 1, 1);
    out[6] ^= 0xff;
    out
}

fn unsynchronised_frame() -> Vec<u8> {
    vec![0xff, 0, 0, 0, 0, 0, 0, 0]
}

fn opus_identification() -> Vec<u8> {
    let mut out = Vec::new();
    out.extend_from_slice(b"OpusHead");
    out.push(1);
    out.push(2);
    out.extend_from_slice(&0u16.to_le_bytes());
    out.extend_from_slice(&48000u32.to_le_bytes());
    out.extend_from_slice(&0u16.to_le_bytes());
    out.push(0);
    assert_eq!(out.len(), 19);
    out
}

fn stream(serial: u32, identification: &[u8], packets: &[Vec<u8>]) -> Vec<u8> {
    let mut out = page(serial, 0, 0x02, 0, identification);
    let mut granule = 0;
    for (i, packet) in packets.iter().enumerate() {
        granule += 16;
        let flags = if i + 1 == packets.len() { 0x04 } else { 0 };
        out.extend(page(serial, i as u32 + 1, flags, granule, packet));
    }
    out
}


fn pack(audio: symphonia::core::audio::AudioBufferRef<'_>, plan: PackPlan, format: StreamFormat) -> Vec<u8> {
    let layout = match format.channels {
        1 => symphonia::core::audio::Layout::Mono,
        _ => symphonia::core::audio::Layout::Stereo,
    };
    let spec = symphonia::core::audio::SignalSpec::new_with_layout(format.rate, layout);
    let mut raw = symphonia::core::audio::RawSampleBuffer::<f32>::new(plan.duration, spec);
    raw.copy_interleaved_ref(audio);
    raw.as_bytes().to_vec()
}

struct Run {
    reader: symphonia::core::probe::ProbeResult,
    decoder: Box<dyn symphonia::core::codecs::Decoder>,
    session: DecodeSession,
    format: StreamFormat,
}

fn probe(media: Vec<u8>, extension: Option<&str>) -> Result<symphonia::core::probe::ProbeResult, symphonia::core::errors::Error> {
    let mut hint = symphonia::core::probe::Hint::new();
    if let Some(extension) = extension {
        hint.with_extension(extension);
    }
    let source = symphonia::core::io::MediaSourceStream::new(
        Box::new(std::io::Cursor::new(media)),
        Default::default(),
    );
    symphonia::default::get_probe().format(&hint, source, &Default::default(), &Default::default())
}

fn open(media: Vec<u8>, extension: Option<&str>, format: StreamFormat) -> Result<Run, DecodeError> {
    let probed = probe(media, extension);
    let choice = DecodeSession::select(&probed)?;
    let reader = match probed {
        Ok(reader) => reader,
        Err(_) => panic!("a track was chosen without a reader"),
    };
    let made = symphonia::default::get_codecs()
        .make(&reader.format.tracks()[choice.index].codec_params, &Default::default());
    let session = DecodeSession::start(choice, made.is_ok(), format)?;
    match made {
        Ok(decoder) => Ok(Run { reader, decoder, session, format }),
        Err(_) => panic!("a session was started without a decoder"),
    }
}

fn run(mut run: Run) -> Result<DecodeSummary, DecodeFailure> {
    let mut packet = None;
    loop {
        match run.session.next() {
            Step::Pull => {
                let pulled = run.reader.format.next_packet();
                run.session.pulled(&mut run.reader, &pulled);
                packet = pulled.ok();
            }
            Step::Decode => {
                let decoded = match packet.as_ref() {
                    Some(packet) => run.decoder.decode(packet),
                    None => panic!("nothing to decode"),
                };
                if let Step::Pack(plan) = run.session.decoded(&decoded) {
                    match decoded {
                        Ok(audio) => {
                            let bytes = pack(audio, plan, run.format);
                            assert_eq!(bytes.len(), plan.len);
                            run.session.accept(bytes);
                        }
                        Err(_) => panic!("nothing to pack"),
                    }
                }
            }
            Step::Pack(_) => panic!("the audio is gone"),
            Step::Finish | Step::Fail(_) => return run.session.finish(),
        }
    }
}

fn decode(media: Vec<u8>, extension: Option<&str>, format: StreamFormat) -> Result<DecodeSummary, DecodeError> {
    match run(open(media, extension, format)?) {
        Ok(summary) => Ok(summary),
        Err(failure) => Err(failure.error),
    }
}

fn opened(media: Vec<u8>) -> Run {
    match open(media, Some("ogg"), default_format()) {
        Ok(run) => run,
        Err(error) => panic!("open failed: {}", error.message()),
    }
}

fn summary(media: Vec<u8>) -> DecodeSummary {
    match run(opened(media)) {
        Ok(summary) => summary,
        Err(failure) => panic!("decode failed: {}", failure.error.message()),
    }
}

fn constant_chunk(left: f32, right: f32) -> Vec<u8> {
    let mut out = Vec::new();
    for _ in 0..16 {
        out.extend_from_slice(&left.to_le_bytes());
        out.extend_from_slice(&right.to_le_bytes());
    }
    out
}

#[test]
fn track_is_known_by_its_stream_serial() {
    let media = stream(0x1234, &flac_identification(), &[flac_frame(0, 0, 0)]);
    assert_eq!(opened(media).session.selected(), 0x1234);
    let media = stream(77, &flac_identification(), &[flac_frame(0, 0, 0)]);
    assert_eq!(opened(media).session.selected(), 77);
}

#[test]
fn valid_packets_decode_one_chunk_each() {
    let packets = vec![flac_frame(0, 0x1000, -0x2000), flac_frame(1, 0x4000, 0)];
    let summary = summary(stream(5, &flac_identification(), &packets));
    assert_eq!(summary.packets, 2);
    assert_eq!(summary.skipped, 0);
    assert_eq!(summary.track.into_chunks(), vec![constant_chunk(0.125, -0.25), constant_chunk(0.5, 0.0)]);
}

#[test]
fn corrupt_packet_in_the_middle_costs_one_chunk() {
    let packets = vec![flac_frame(0, 0x1000, 0x1000), corrupt_frame(1), flac_frame(2, 0x2000, 0x2000)];
    let summary = summary(stream(5, &flac_identification(), &packets));
    assert_eq!(summary.packets, 3);
    assert_eq!(summary.skipped, 1);
    assert_eq!(summary.track.len(), 2);
    assert_eq!(summary.track.into_chunks(), vec![constant_chunk(0.125, 0.125), constant_chunk(0.25, 0.25)]);
}

#[test]
fn n_packets_with_k_bad_ones_leave_n_minus_k_chunks() {
    let packets = vec![
        corrupt_frame(0),
        flac_frame(1, 0x0800, 0),
        unsynchronised_frame(),
        corrupt_frame(3),
        flac_frame(4, 0x1000, 0),
        flac_frame(5, 0x2000, 0),
        unsynchronised_frame(),
    ];
    let summary = summary(stream(5, &flac_identification(), &packets));
    assert_eq!(summary.packets, 7);
    assert_eq!(summary.skipped, 4);
    assert_eq!(summary.track.format(), default_format());
    assert_eq!(
        summary.track.into_chunks(),
        vec![constant_chunk(0.0625, 0.0), constant_chunk(0.125, 0.0), constant_chunk(0.25, 0.0)]
    );
}

#[test]
fn only_bad_packets_leave_an_empty_track() {
    let packets = vec![corrupt_frame(0), unsynchronised_frame()];
    let summary = summary(stream(5, &flac_identification(), &packets));
    assert_eq!(summary.packets, 2);
    assert_eq!(summary.skipped, 2);
    assert!(summary.track.is_empty());
}

#[test]
fn packets_of_other_tracks_are_passed_over() {
    let mut media = page(10, 0, 0x02, 0, &flac_identification());
    media.extend(page(20, 0, 0x02, 0, &flac_identification()));
    media.extend(page(10, 1, 0, 16, &flac_frame(0, 0x1000, 0)));
    media.extend(page(20, 1, 0, 16, &flac_frame(0, 0x7000, 0)));
    media.extend(page(20, 2, 0x04, 32, &flac_frame(1, 0x7000, 0)));
    media.extend(page(10, 2, 0x04, 32, &flac_frame(1, 0x2000, 0)));
    assert_eq!(opened(media.clone()).session.selected(), 10);
    let summary = summary(media);
    assert_eq!(summary.packets, 2);
    assert_eq!(summary.skipped, 0);
    assert_eq!(summary.track.into_chunks(), vec![constant_chunk(0.125, 0.0), constant_chunk(0.25, 0.0)]);
}

#[test]
fn first_decodable_track_wins_over_an_unknown_stream() {
    let mut media = page(10, 0, 0x02, 0, b"an unknown kind of stream");
    media.extend(page(20, 0, 0x02, 0, &flac_identification()));
    media.extend(page(20, 1, 0x04, 16, &flac_frame(0, 0x1000, 0)));
    assert_eq!(opened(media.clone()).session.selected(), 20);
    assert_eq!(summary(media).track.into_chunks(), vec![constant_chunk(0.125, 0.0)]);
}

#[test]
fn codec_without_a_decoder_is_unsupported() {
    let mut tags = b"OpusTags".to_vec();
    tags.extend_from_slice(&[0u8; 8]);
    let media = stream(9, &opus_identification(), &[tags, vec![0xfc, 0, 0]]);
    let probed = probe(media.clone(), Some("opus"));
    assert!(DecodeSession::select(&probed).is_ok());
    assert_eq!(decode(media, Some("opus"), default_format()).err(), Some(DecodeError::CodecUnsupported));
}

#[test]
fn decoding_the_same_stream_twice_gives_the_same_chunks() {
    let packets = vec![flac_frame(0, 0x1000, -0x1000), corrupt_frame(1), flac_frame(2, 0x3000, 0x0800)];
    let media = stream(5, &flac_identification(), &packets);
    let first = summary(media.clone());
    let second = summary(media);
    assert_eq!(first.packets, second.packets);
    assert_eq!(first.skipped, second.skipped);
    assert_eq!(first.track, second.track);
}

fn flac_comment(last: bool) -> Vec<u8> {
    let mut out = vec![if last { 0x84 } else { 0x04 }, 0, 0, 8];
    out.extend_from_slice(&[0u8; 8]);
    out
}

fn stream_with_two_comments() -> Vec<u8> {
    let mut media = page(5, 0, 0x02, 0, &flac_identification());
    media.extend(page(5, 1, 0, 0, &flac_comment(false)));
    media.extend(page(5, 2, 0, 0, &flac_comment(true)));
    media.extend(page(5, 3, 0, 16, &flac_frame(0, 0x1000, 0)));
    media.extend(page(5, 4, 0x04, 32, &flac_frame(1, 0x2000, 0)));
    media
}

#[test]
fn pending_metadata_is_dropped_when_a_packet_is_taken() {
    let mut run = opened(stream_with_two_comments());
    assert!(!run.reader.format.metadata().is_latest());
    let pulled = run.reader.format.next_packet();
    assert_eq!(run.session.pulled(&mut run.reader, &pulled), Step::Decode);
    assert!(run.reader.format.metadata().is_latest());
    let summary = summary(stream_with_two_comments());
    assert_eq!(summary.track.into_chunks(), vec![constant_chunk(0.125, 0.0), constant_chunk(0.25, 0.0)]);
}

#[test]
fn reader_is_left_alone_when_no_packet_is_taken() {
    let mut run = opened(stream_with_two_comments());
    assert_eq!(run.session.accept(Vec::new()), Step::Fail(DecodeError::StreamIoFatal));
    let pulled = run.reader.format.next_packet();
    assert!(pulled.is_ok());
    assert_eq!(run.session.pulled(&mut run.reader, &pulled), Step::Fail(DecodeError::StreamIoFatal));
    assert!(!run.reader.format.metadata().is_latest());
    let mut run = opened(stream_with_two_comments());
    let pulled = Err(symphonia::core::errors::Error::ResetRequired);
    assert_eq!(run.session.pulled(&mut run.reader, &pulled), Step::Fail(DecodeError::StreamIoFatal));
    assert!(!run.reader.format.metadata().is_latest());
}
