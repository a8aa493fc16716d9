//! Core of a push-to-talk dictation tool: the recording-session state
//! machine, the capture loop, the transcription pipeline and the delivery of
//! the finished text. Everything here is a decision over plain values; the
//! host program performs the effects that the decisions name.

pub mod capture;
pub mod delivery;
pub mod inference;
pub mod pipeline;
pub mod session;
pub mod text;
pub mod trace;
pub mod transcript;
