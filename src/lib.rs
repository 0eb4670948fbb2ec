//! Framing for the Minimal Lower Layer Protocol (MLLP).
//!
//! A message travels as `<SB> payload <EB><CR>`, where SB is the start block
//! byte 0x0B, EB the end block byte 0x1C and CR the carriage return 0x0D.
//! Two fixed control frames carry a commit acknowledgement: ACK, with the
//! single payload byte 0x06, and NAK, with the single payload byte 0x15.
pub mod frame;
pub mod laws;

pub use frame::{MllpCodec, MllpSyntaxError};
