//! The wire format: an 8-byte header, the opcode and the payload length as
//! little-endian 32-bit numbers, followed by exactly that many payload bytes.

use vstd::prelude::*;
use vstd::arithmetic::div_mod::lemma_fundamental_div_mod_converse;
use vstd::slice::slice_subrange;
use vstd::slice::slice_to_vec;
use crate::error::IpcError;

verus! {

/// The length of a frame header in bytes.
pub const HEADER_LEN: usize = 8;

/// What a frame is for.
#[derive(Clone, Copy, Debug, PartialEq, Eq, Structural)]
pub enum Opcode {
    Handshake,
    Frame,
    Close,
    Ping,
    Pong,
}

impl Opcode {
    /// The number that stands for the opcode on the wire.
    pub open spec fn wire(self) -> u32 {
        match self {
            Opcode::Handshake => 0,
            Opcode::Frame => 1,
            Opcode::Close => 2,
            Opcode::Ping => 3,
            Opcode::Pong => 4,
        }
    }

    /// The opcode that `code` stands for, if it is one that is in use.
    pub open spec fn of_wire(code: u32) -> Option<Opcode> {
        if code == 0 {
            Some(Opcode::Handshake)
        } else if code == 1 {
            Some(Opcode::Frame)
        } else if code == 2 {
            Some(Opcode::Close)
        } else if code == 3 {
            Some(Opcode::Ping)
        } else if code == 4 {
            Some(Opcode::Pong)
        } else {
            None
        }
    }

    /// The number that stands for the opcode on the wire.
    pub fn code(self) -> (code: u32)
        ensures
            code == self.wire(),
    {
        match self {
            Opcode::Handshake => 0,
            Opcode::Frame => 1,
            Opcode::Close => 2,
            Opcode::Ping => 3,
            Opcode::Pong => 4,
        }
    }

    /// The opcode that `code` stands for, if it is one that is in use.
    pub fn from_code(code: u32) -> (opcode: Option<Opcode>)
        ensures
            opcode == Opcode::of_wire(code),
    {
        if code == 0 {
            Some(Opcode::Handshake)
        } else if code == 1 {
            Some(Opcode::Frame)
        } else if code == 2 {
            Some(Opcode::Close)
        } else if code == 3 {
            Some(Opcode::Ping)
        } else if code == 4 {
            Some(Opcode::Pong)
        } else {
            None
        }
    }
}

/// The header of a frame.
#[derive(Clone, Copy, Debug, PartialEq, Eq, Structural)]
pub struct Header {
    pub opcode: u32,
    pub length: u32,
}

/// A frame as it came off the wire.
#[derive(Debug)]
pub struct Frame {
    pub opcode: u32,
    pub payload: Vec<u8>,
}

/// The four bytes of `value`, least significant first.
pub open spec fn le_bytes(value: u32) -> Seq<u8> {
    seq![
        (value % 256) as u8,
        (value / 256 % 256) as u8,
        (value / 65536 % 256) as u8,
        (value / 16777216) as u8,
    ]
}

/// The number whose four bytes, least significant first, start at `at`.
pub open spec fn le_value(bytes: Seq<u8>, at: int) -> u32 {
    (bytes[at] + 256 * bytes[at + 1] + 65536 * bytes[at + 2] + 16777216 * bytes[at + 3]) as u32
}

/// The header for an opcode and a payload length.
pub open spec fn header_bytes(opcode: u32, length: u32) -> Seq<u8> {
    le_bytes(opcode) + le_bytes(length)
}

/// The frame that carries `payload`, which is shorter than 2^32 bytes.
pub open spec fn frame_bytes(opcode: u32, payload: Seq<u8>) -> Seq<u8> {
    header_bytes(opcode, payload.len() as u32) + payload
}

/// The opcode, the payload and the length of the frame that `bytes` begins
/// with; `None` where `bytes` ends inside the header or inside the payload.
pub open spec fn leading_frame(bytes: Seq<u8>) -> Option<(u32, Seq<u8>, int)> {
    if bytes.len() < 8 {
        None
    } else if bytes.len() - 8 < le_value(bytes, 4) {
        None
    } else {
        Some((le_value(bytes, 0), bytes.subrange(8, 8 + le_value(bytes, 4)), 8 + le_value(bytes, 4)))
    }
}

fn push_le(out: &mut Vec<u8>, value: u32)
    ensures
        final(out)@ == old(out)@ + le_bytes(value),
{
    out.push((value % 256) as u8);
    out.push((value / 256 % 256) as u8);
    out.push((value / 65536 % 256) as u8);
    out.push((value / 16777216) as u8);
    assert(out@ =~= old(out)@ + le_bytes(value));
}

fn read_le(bytes: &[u8], at: usize) -> (value: u32)
    requires
        at + 4 <= bytes@.len(),
    ensures
        value == le_value(bytes@, at as int),
{
    let b0: u32 = bytes[at] as u32;
    let b1: u32 = bytes[at + 1] as u32;
    let b2: u32 = bytes[at + 2] as u32;
    let b3: u32 = bytes[at + 3] as u32;
    b0 + 256 * b1 + 65536 * b2 + 16777216 * b3
}

/// Writes the header for an opcode and a payload length.
pub fn encode_header(opcode: u32, length: u32) -> (bytes: Vec<u8>)
    ensures
        bytes@ == header_bytes(opcode, length),
{
    let mut bytes: Vec<u8> = Vec::new();
    push_le(&mut bytes, opcode);
    push_le(&mut bytes, length);
    bytes
}

/// Reads a header.
pub fn decode_header(bytes: &[u8; 8]) -> (header: Header)
    ensures
        header.opcode == le_value(bytes@, 0),
        header.length == le_value(bytes@, 4),
{
    Header { opcode: read_le(bytes.as_slice(), 0), length: read_le(bytes.as_slice(), 4) }
}

/// Writes the frame that carries `payload` under `opcode`.
///
/// The payload is neither padded nor cut. One that is too long for the
/// 32-bit length field is refused.
pub fn encode_frame(opcode: u32, payload: &[u8]) -> (r: Result<Vec<u8>, IpcError>)
    ensures
        payload@.len() <= u32::MAX ==> r is Ok && r->Ok_0@ == frame_bytes(opcode, payload@),
        payload@.len() > u32::MAX ==> r == Err::<Vec<u8>, IpcError>(IpcError::Serialization),
{
    if payload.len() > u32::MAX as usize {
        return Err(IpcError::Serialization);
    }
    let mut bytes = encode_header(opcode, payload.len() as u32);
    let mut body = slice_to_vec(payload);
    bytes.append(&mut body);
    Ok(bytes)
}

/// Reads the frame that `bytes` begins with, and says how many bytes it
/// takes up.
///
/// Nothing of the payload is looked at. Input that ends inside the frame is
/// an I/O error: the stream ended early.
pub fn decode_frame(bytes: &[u8]) -> (r: Result<(Frame, usize), IpcError>)
    ensures
        match leading_frame(bytes@) {
            Some((opcode, payload, length)) => r is Ok && r->Ok_0.0.opcode == opcode
                && r->Ok_0.0.payload@ == payload && r->Ok_0.1 == length,
            None => r is Err && r->Err_0 == IpcError::Io,
        },
{
    if bytes.len() < HEADER_LEN {
        return Err(IpcError::Io);
    }
    let opcode: u32 = read_le(bytes, 0);
    let length: u32 = read_le(bytes, 4);
    if bytes.len() - HEADER_LEN < length as usize {
        return Err(IpcError::Io);
    }
    let end: usize = HEADER_LEN + length as usize;
    let payload = slice_to_vec(slice_subrange(bytes, HEADER_LEN, end));
    Ok((Frame { opcode, payload }, end))
}

/// Reading the bytes of a number gives the number back.
pub proof fn lemma_le_round_trip(value: u32, before: Seq<u8>, after: Seq<u8>)
    ensures
        le_bytes(value).len() == 4,
        le_value(before + le_bytes(value) + after, before.len() as int) == value,
{
    let bytes = before + le_bytes(value) + after;
    let at: int = before.len() as int;
    assert(bytes[at] == le_bytes(value)[0]);
    assert(bytes[at + 1] == le_bytes(value)[1]);
    assert(bytes[at + 2] == le_bytes(value)[2]);
    assert(bytes[at + 3] == le_bytes(value)[3]);
}

/// Writing the number that four bytes stand for gives the four bytes back.
pub proof fn lemma_le_bytes_of_value(bytes: Seq<u8>, at: int)
    requires
        0 <= at,
        at + 4 <= bytes.len(),
    ensures
        le_bytes(le_value(bytes, at)) == bytes.subrange(at, at + 4),
{
    let b0: int = bytes[at] as int;
    let b1: int = bytes[at + 1] as int;
    let b2: int = bytes[at + 2] as int;
    let b3: int = bytes[at + 3] as int;
    let value: int = b0 + 256 * b1 + 65536 * b2 + 16777216 * b3;
    assert(le_value(bytes, at) == value);
    lemma_fundamental_div_mod_converse(value, 256, b1 + 256 * b2 + 65536 * b3, b0);
    lemma_fundamental_div_mod_converse(b1 + 256 * b2 + 65536 * b3, 256, b2 + 256 * b3, b1);
    lemma_fundamental_div_mod_converse(value, 65536, b2 + 256 * b3, b0 + 256 * b1);
    lemma_fundamental_div_mod_converse(b2 + 256 * b3, 256, b3, b2);
    lemma_fundamental_div_mod_converse(value, 16777216, b3, b0 + 256 * b1 + 65536 * b2);
    assert(le_bytes(le_value(bytes, at)) =~= bytes.subrange(at, at + 4));
}

/// A header reads back as the opcode and the length it was written for.
pub proof fn lemma_header_round_trip(opcode: u32, length: u32)
    ensures
        header_bytes(opcode, length).len() == 8,
        le_value(header_bytes(opcode, length), 0) == opcode,
        le_value(header_bytes(opcode, length), 4) == length,
{
    lemma_le_round_trip(opcode, Seq::empty(), le_bytes(length));
    lemma_le_round_trip(length, le_bytes(opcode), Seq::empty());
    assert(Seq::<u8>::empty() + le_bytes(opcode) + le_bytes(length) =~= header_bytes(
        opcode,
        length,
    ));
    assert(le_bytes(opcode) + le_bytes(length) + Seq::<u8>::empty() =~= header_bytes(
        opcode,
        length,
    ));
}

/// Decoding what the encoder wrote gives back the opcode and the payload,
/// and takes up all of it; bytes that follow the frame change nothing.
pub proof fn lemma_frame_round_trip(opcode: u32, payload: Seq<u8>, rest: Seq<u8>)
    requires
        payload.len() <= u32::MAX,
    ensures
        leading_frame(frame_bytes(opcode, payload) + rest) == Some(
            (opcode, payload, frame_bytes(opcode, payload).len() as int),
        ),
        frame_bytes(opcode, payload).len() == 8 + payload.len(),
{
    let length: u32 = payload.len() as u32;
    let bytes = frame_bytes(opcode, payload) + rest;
    lemma_le_round_trip(opcode, Seq::empty(), le_bytes(length) + payload + rest);
    lemma_le_round_trip(length, le_bytes(opcode), payload + rest);
    assert(Seq::<u8>::empty() + le_bytes(opcode) + (le_bytes(length) + payload + rest) =~= bytes);
    assert(le_bytes(opcode) + le_bytes(length) + (payload + rest) =~= bytes);
    assert(bytes.subrange(8, 8 + length) =~= payload);
}

/// An opcode that is in use reads back from its number.
pub proof fn lemma_opcode_round_trip(opcode: Opcode)
    ensures
        Opcode::of_wire(opcode.wire()) == Some(opcode),
{
}

} // verus!
