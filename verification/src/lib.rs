//! Decodes a media file into PCM chunks and feeds them, period by period, to an
//! audio server's buffer-fill callback.
//!
//! The crate is split along the two phases of a run, which never overlap:
//!
//! * [`decoder`] picks the track to decode, decides what becomes of each
//!   packet that the demuxer and the codec are run over, and accumulates one
//!   [`track::AudioChunk`] per decoded packet;
//! * [`player`] holds the real-time side: the [`player::engine::PlaybackEngine`]
//!   that serves the per-period callback from the decoded track, the
//!   [`player::termination::TerminationChannel`] that carries its completion
//!   signal, and the [`player::control::ControlLoop`] that sequences the
//!   connection.
//!
//! Opening files, running the demuxer and the codec, packing samples into
//! their floating-point wire encoding and talking to the audio server are the
//! caller's part: the caller reports what came of each, and the library
//! decides what follows.
pub mod decoder;
pub mod format;
pub mod track;
pub mod player;
