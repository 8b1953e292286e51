//! The wire header and its decoder.
//!
//! A header is exactly [`HEADER_LEN`] bytes on the wire: a 16-bit protocol
//! version, a 16-bit command code, and a 32-bit status, each big-endian
//! (network byte order).

use vstd::prelude::*;

verus! {

/// Number of bytes a header occupies on the wire.
pub const HEADER_LEN: usize = 8;

/// The fixed control header read at the start of an exchange.
#[derive(Debug, Clone, Copy, PartialEq, Eq, Structural)]
pub struct USBIPHeader {
    /// Protocol version, wire bytes 0..2, big-endian.
    pub version: u16,
    /// Command code, wire bytes 2..4, big-endian.
    pub command_code: u16,
    /// Status, wire bytes 4..8, big-endian.
    pub status: u32,
}

/// How reading or decoding a header can fail.
#[derive(Debug, Clone, Copy, PartialEq, Eq, Structural)]
pub enum HeaderError {
    /// Transport-level failure while reading from the byte source.
    IoError,
    /// The stream ended before all header bytes had arrived.
    TruncatedHeader,
    /// The decoder was handed a buffer that is not exactly `HEADER_LEN` bytes.
    MalformedInput,
}

/// The big-endian value of two bytes, most significant first.
pub open spec fn be_u16(b0: u8, b1: u8) -> int {
    (b0 as int) * 0x100 + (b1 as int)
}

/// The big-endian value of four bytes, most significant first.
pub open spec fn be_u32(b0: u8, b1: u8, b2: u8, b3: u8) -> int {
    (b0 as int) * 0x1000000 + (b1 as int) * 0x10000 + (b2 as int) * 0x100 + (b3 as int)
}

/// The header denoted by the first `HEADER_LEN` bytes of `b`.
pub open spec fn spec_decode(b: Seq<u8>) -> USBIPHeader
    recommends
        b.len() >= HEADER_LEN,
{
    USBIPHeader {
        version: be_u16(b[0], b[1]) as u16,
        command_code: be_u16(b[2], b[3]) as u16,
        status: be_u32(b[4], b[5], b[6], b[7]) as u32,
    }
}

/// Decoding is a pure function of the bytes: two decodes of the same
/// bytes yield equal headers.
pub proof fn lemma_decode_deterministic(b: Seq<u8>, h1: USBIPHeader, h2: USBIPHeader)
    requires
        h1 == spec_decode(b),
        h2 == spec_decode(b),
    ensures
        h1 == h2,
{
}

fn be_u16_exec(b0: u8, b1: u8) -> (r: u16)
    ensures
        r == be_u16(b0, b1),
{
    (b0 as u16) * 0x100 + (b1 as u16)
}

fn be_u32_exec(b0: u8, b1: u8, b2: u8, b3: u8) -> (r: u32)
    ensures
        r == be_u32(b0, b1, b2, b3),
{
    (b0 as u32) * 0x1000000 + (b1 as u32) * 0x10000 + (b2 as u32) * 0x100 + (b3 as u32)
}

/// Decode the header standing in the first `HEADER_LEN` bytes of `data`.
///
/// Bytes past the header, if any, are ignored.
pub fn decode_prefix(data: &Vec<u8>) -> (h: USBIPHeader)
    requires
        data@.len() >= HEADER_LEN,
    ensures
        h == spec_decode(data@),
{
    let version = be_u16_exec(data[0], data[1]);
    let command_code = be_u16_exec(data[2], data[3]);
    let status = be_u32_exec(data[4], data[5], data[6], data[7]);
    USBIPHeader { version, command_code, status }
}

/// Decode a buffer that must hold exactly `HEADER_LEN` bytes.
///
/// Any 8-byte pattern is a valid header; any other length is rejected as
/// `MalformedInput`, so a partial buffer can never produce a header.
pub fn decode_header(data: &Vec<u8>) -> (r: Result<USBIPHeader, HeaderError>)
    ensures
        data@.len() == HEADER_LEN ==> r == Ok::<USBIPHeader, HeaderError>(spec_decode(data@)),
        data@.len() != HEADER_LEN ==> r == Err::<USBIPHeader, HeaderError>(
            HeaderError::MalformedInput,
        ),
{
    if data.len() != HEADER_LEN {
        return Err(HeaderError::MalformedInput);
    }
    Ok(decode_prefix(data))
}

} // verus!
