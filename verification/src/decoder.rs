//! The decode side: from the bytes of a media file to a track of PCM
//! chunks.
//!
//! [`session::DecodeSession`] leads its caller through the decode, packet
//! by packet, and keeps the chunks. [`media`] is the thin layer through
//! which it reads what the demuxer and the codec gave, [`tracks`] picks the
//! track to decode, and [`error`] names what can go wrong and at which
//! stage.
pub mod error;
pub mod media;
pub mod session;
pub mod tracks;
