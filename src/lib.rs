//! A datagram transport that reports kernel receive timestamps and the skew
//! between them and the local clock. This crate holds the decisions: clock
//! arithmetic, inspection of decoded control messages, and the per-attempt
//! steps of reads and writes. Socket I/O is driven by the caller.

pub mod clock;
pub mod cmsg;
pub mod error;
pub mod transport;
