//! Loudness analysis for raw signed 16-bit PCM audio, together with the
//! decision logic of a media-pipeline message loop.
//!
//! The pipeline itself (source, sink, buffer transport) belongs to an
//! external multimedia library and stays outside this crate; what is here
//! is the arithmetic that turns a raw buffer into a loudness figure and the
//! rule that turns each bus message into an action.

pub mod bus;
pub mod pcm;
