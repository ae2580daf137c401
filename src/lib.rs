//! Real-time receive side of a network audio stream: datagram decoding, the
//! sample hand-off queue, the underrun-safe sample source, the receive-loop
//! decisions and the output-format choice.
//!
//! Samples travel as the bit patterns of 32-bit IEEE-754 floats (`u32`):
//! the library moves them without doing arithmetic on them, and the program
//! around it turns them into floats with `f32::from_bits`.

pub mod codec;
pub mod queue;
pub mod source;
pub mod receive;
pub mod format;
