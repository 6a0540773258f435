//! Decoder for the SBUS remote-control frame format: a fixed 25-byte frame
//! carrying sixteen 11-bit proportional channels and four digital flags,
//! reassembled one byte at a time from a serial stream.

pub mod bitstream;
pub mod decoder;
pub mod frame;
pub mod laws;

pub use decoder::SbusReadState;
pub use decoder::process_char;
pub use decoder::process_idle;
pub use frame::SbusFrame;
