//! A verified core for a USB/IP-style header service: decoding the fixed
//! 8-byte control header from wire bytes, and the state machines that drive
//! one connection's reads until a header is decoded or the stream ends.

pub mod driver;
pub mod header;
