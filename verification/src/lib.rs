//! Full-duplex voice transport: the rules that bridge an audio device and a
//! byte-stream connection, stated over plain values and proved.
//!
//! Two peers each capture audio in windows of a fixed length, condition
//! every window's block, send it as one frame, and play what the other
//! sends. This crate holds what is decided along the way; the devices, the
//! socket, the locks and the clock belong to its caller.
//!
//! Samples are carried as the bit patterns of IEEE-754 single-precision
//! numbers (`u32`), so that every decision about them is an integer
//! decision; see [`sample`]. Arithmetic on the numbers themselves is left to
//! the caller.
//!
//! - [`format`]: the audio format and the frame length that follows from it
//! - [`conditioner`]: noise gate, silence collapse, extent and limiter
//! - [`codec`]: samples to bytes and back
//! - [`buffer`]: the capture and playback staging buffers
//! - [`transport`]: reading without blocking, writing in full
//! - [`session`]: the state machine of the window loop
//! - [`device`]: choosing devices and their configuration
//! - [`error`]: the kinds of failure

pub mod buffer;
pub mod codec;
pub mod conditioner;
pub mod device;
pub mod error;
pub mod format;
pub mod sample;
pub mod session;
pub mod transport;
