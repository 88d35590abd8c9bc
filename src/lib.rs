//! Core of a small audio file player: the bounded sample queue between the
//! decoding thread and the playback callback, the extraction of interleaved
//! samples from a decoded frame, and the negotiation of the output format.
mod ring;
pub mod queue;
pub mod playback;
pub mod frame;
pub mod format;
pub mod pipeline;
