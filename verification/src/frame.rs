//! The wire envelope: one type byte, a big-endian 32-bit payload length, then
//! the payload, which may travel DEFLATE-compressed.

use vstd::prelude::*;
use vstd::string::StringExecFns;
use crate::bytes::{append_bytes, copy_range};
use crate::error::{DerpError, DerpResult};

verus! {

/// Payloads of at most this many bytes are never compressed.
pub const COMPRESSION_THRESHOLD: usize = 64;

/// The DEFLATE level used for outbound payloads.
pub const COMPRESSION_LEVEL: u8 = 6;

/// Length of the fixed frame header.
pub const HEADER_LEN: usize = 5;

/// The kinds of frame that travel between client and relay.
#[derive(Debug, Clone, Copy, PartialEq, Eq, Structural)]
pub enum FrameType {
    ServerKey,
    ServerInfo,
    ClientInfo,
    Ping,
    Pong,
    Send,
    RecvFromPeer,
}

impl FrameType {
    /// The byte that stands for this frame type on the wire.
    pub open spec fn code_of(self) -> u8 {
        match self {
            FrameType::ServerKey => 1,
            FrameType::ServerInfo => 2,
            FrameType::ClientInfo => 3,
            FrameType::Ping => 4,
            FrameType::Pong => 5,
            FrameType::Send => 6,
            FrameType::RecvFromPeer => 7,
        }
    }

    /// The frame type that a wire byte stands for, if any.
    pub open spec fn of_code(value: u8) -> Option<FrameType> {
        if value == 1 {
            Some(FrameType::ServerKey)
        } else if value == 2 {
            Some(FrameType::ServerInfo)
        } else if value == 3 {
            Some(FrameType::ClientInfo)
        } else if value == 4 {
            Some(FrameType::Ping)
        } else if value == 5 {
            Some(FrameType::Pong)
        } else if value == 6 {
            Some(FrameType::Send)
        } else if value == 7 {
            Some(FrameType::RecvFromPeer)
        } else {
            None
        }
    }

    /// Keepalive frames carry no user payload and are never inflated.
    pub open spec fn is_keepalive(self) -> bool {
        self == FrameType::Ping || self == FrameType::Pong
    }

    /// The wire byte of this frame type.
    pub fn code(self) -> (value: u8)
        ensures
            value == self.code_of(),
            1 <= value <= 7,
    {
        match self {
            FrameType::ServerKey => 1,
            FrameType::ServerInfo => 2,
            FrameType::ClientInfo => 3,
            FrameType::Ping => 4,
            FrameType::Pong => 5,
            FrameType::Send => 6,
            FrameType::RecvFromPeer => 7,
        }
    }

    /// Reads a wire byte as a frame type. Bytes outside `1..=7` are protocol
    /// errors.
    pub fn try_from(value: u8) -> (parsed: DerpResult<FrameType>)
        ensures
            match parsed {
                Ok(ft) => FrameType::of_code(value) == Some(ft),
                Err(e) => FrameType::of_code(value) is None && e is InvalidProtocol,
            },
    {
        match value {
            1 => Ok(FrameType::ServerKey),
            2 => Ok(FrameType::ServerInfo),
            3 => Ok(FrameType::ClientInfo),
            4 => Ok(FrameType::Ping),
            5 => Ok(FrameType::Pong),
            6 => Ok(FrameType::Send),
            7 => Ok(FrameType::RecvFromPeer),
            _ => Err(DerpError::InvalidProtocol(String::from_str("Invalid frame type"))),
        }
    }
}

/// The four bytes of `n`, most significant first.
pub open spec fn be32(n: u32) -> Seq<u8> {
    seq![
        (n / 0x100_0000) as u8,
        ((n / 0x1_0000) % 256) as u8,
        ((n / 0x100) % 256) as u8,
        (n % 256) as u8,
    ]
}

/// The number that four bytes spell, most significant first.
pub open spec fn be32_value(b: Seq<u8>) -> nat
    recommends
        b.len() == 4,
{
    (b[0] as nat) * 0x100_0000 + (b[1] as nat) * 0x1_0000 + (b[2] as nat) * 0x100 + (b[3] as nat)
}

/// What `miniz_oxide::deflate::compress_to_vec` produces for `data` at `level`.
pub uninterp spec fn deflated(data: Seq<u8>, level: u8) -> Seq<u8>;

/// What `miniz_oxide::inflate::decompress_to_vec` recovers from `data`; `None`
/// where it rejects the input.
pub uninterp spec fn inflated(data: Seq<u8>) -> Option<Seq<u8>>;

/// Calls `miniz_oxide::deflate::compress_to_vec`. The contract names the raw
/// DEFLATE stream it returns and claims that the crate's own inflater recovers
/// the input from that stream.
#[verifier::external_body]
fn deflate(data: &[u8], level: u8) -> (out: Vec<u8>)
    ensures
        out@ == deflated(data@, level),
        inflated(out@) == Some(data@),
{
    miniz_oxide::deflate::compress_to_vec(data, level)
}

/// Calls `miniz_oxide::inflate::decompress_to_vec`. The contract names what it
/// returns: the decompressed bytes, or nothing where the input is not a
/// complete DEFLATE stream.
#[verifier::external_body]
fn inflate(data: &[u8]) -> (out: Option<Vec<u8>>)
    ensures
        match out {
            Some(v) => inflated(data@) == Some(v@),
            None => inflated(data@) is None,
        },
{
    miniz_oxide::inflate::decompress_to_vec(data).ok()
}

/// A frame around `wire`: type byte, length, body. The length field holds the
/// body's length modulo 2^32, so it is exact for every body that fits.
pub open spec fn frame_bytes(frame_type: FrameType, wire: Seq<u8>) -> Seq<u8> {
    seq![frame_type.code_of()] + be32((wire.len() % 0x1_0000_0000) as u32) + wire
}

/// The bytes that stand for `payload` inside a frame.
pub open spec fn wire_payload(payload: Seq<u8>, compression_enabled: bool) -> Seq<u8> {
    if compression_enabled && payload.len() > COMPRESSION_THRESHOLD {
        deflated(payload, COMPRESSION_LEVEL)
    } else {
        payload
    }
}

/// The frame that carries `payload`.
pub open spec fn encoded(frame_type: FrameType, payload: Seq<u8>, compression_enabled: bool) -> Seq<
    u8,
> {
    frame_bytes(frame_type, wire_payload(payload, compression_enabled))
}

/// Why a buffer is not a frame, if it is not.
pub enum FrameDefect {
    TooShort,
    UnknownType,
    Incomplete,
}

/// Splits a buffer into frame type and body as they stand on the wire.
pub open spec fn split(data: Seq<u8>) -> Result<(FrameType, Seq<u8>), FrameDefect> {
    if data.len() < HEADER_LEN {
        Err(FrameDefect::TooShort)
    } else {
        match FrameType::of_code(data[0]) {
            None => Err(FrameDefect::UnknownType),
            Some(frame_type) => {
                let n = be32_value(data.subrange(1, 5));
                if data.len() < n + HEADER_LEN {
                    Err(FrameDefect::Incomplete)
                } else {
                    Ok((frame_type, data.subrange(5, 5 + n as int)))
                }
            },
        }
    }
}

/// Whether a body of this frame type is handed on exactly as it stands on the
/// wire: keepalive frames, bodies of at most two bytes, and bodies that do
/// not inflate.
pub open spec fn delivered_verbatim(frame_type: FrameType, wire: Seq<u8>) -> bool {
    frame_type.is_keepalive() || wire.len() <= 2 || inflated(wire) is None
}

/// The payload handed to the caller for a body found on the wire.
pub open spec fn delivered(frame_type: FrameType, wire: Seq<u8>) -> Seq<u8> {
    if wire.len() > 2 && !frame_type.is_keepalive() {
        match inflated(wire) {
            Some(plain) => plain,
            None => wire,
        }
    } else {
        wire
    }
}

/// The inputs on which decoding an encoded frame gives the frame type and
/// payload back. The body must fit the length field. A body that travels as
/// it is must be one that the decoder hands on verbatim; a compressed body
/// must belong to a frame other than Ping and Pong and be longer than two
/// bytes, so that the decoder inflates it.
pub open spec fn round_trips(frame_type: FrameType, payload: Seq<u8>, compression_enabled: bool) -> bool {
    let wire = wire_payload(payload, compression_enabled);
    wire.len() <= u32::MAX && if compression_enabled && payload.len() > COMPRESSION_THRESHOLD {
        !frame_type.is_keepalive() && wire.len() > 2
    } else {
        delivered_verbatim(frame_type, payload)
    }
}

/// The frame type and payload that a buffer decodes to.
pub open spec fn decoded(data: Seq<u8>) -> Result<(FrameType, Seq<u8>), FrameDefect> {
    match split(data) {
        Ok((frame_type, wire)) => Ok((frame_type, delivered(frame_type, wire))),
        Err(defect) => Err(defect),
    }
}

/// The diagnostic text reported for each defect.
pub open spec fn defect_text(defect: FrameDefect) -> Seq<char> {
    match defect {
        FrameDefect::TooShort => "Frame too short"@,
        FrameDefect::UnknownType => "Invalid frame type"@,
        FrameDefect::Incomplete => "Incomplete frame"@,
    }
}

/// Reading back the big-endian bytes of a number gives the number.
pub proof fn lemma_be32_round_trip(n: u32)
    ensures
        be32(n).len() == 4,
        be32_value(be32(n)) == n,
{
    let b = be32(n);
    assert(b[0] == (n / 0x100_0000) as u8);
    assert(b[1] == ((n / 0x1_0000) % 256) as u8);
    assert(b[2] == ((n / 0x100) % 256) as u8);
    assert(b[3] == (n % 256) as u8);
}

/// Wraps a body in the frame envelope, without touching the body.
pub fn frame_around(frame_type: FrameType, wire: &[u8]) -> (frame: Vec<u8>)
    ensures
        frame@ == frame_bytes(frame_type, wire@),
        frame@.len() == wire@.len() + HEADER_LEN,
{
    let total: u64 = wire.len() as u64;
    let n: u32 = (total % 0x1_0000_0000) as u32;
    let mut frame: Vec<u8> = Vec::new();
    frame.push(frame_type.code());
    frame.push((n / 0x100_0000) as u8);
    frame.push(((n / 0x1_0000) % 256) as u8);
    frame.push(((n / 0x100) % 256) as u8);
    frame.push((n % 256) as u8);
    assert(frame@ =~= seq![frame_type.code_of()] + be32(n));
    append_bytes(&mut frame, wire);
    frame
}

/// Encodes a frame. With compression enabled, a payload of more than 64 bytes
/// travels as its DEFLATE stream at level 6; every other payload travels
/// as it is.
pub fn encode(frame_type: FrameType, payload: &[u8], compression_enabled: bool) -> (frame: Vec<u8>)
    ensures
        frame@ == encoded(frame_type, payload@, compression_enabled),
        !compression_enabled || payload@.len() <= COMPRESSION_THRESHOLD ==> frame@ == frame_bytes(
            frame_type,
            payload@,
        ),
        round_trips(frame_type, payload@, compression_enabled) ==> decoded(frame@) == Ok::<
            (FrameType, Seq<u8>),
            FrameDefect,
        >((frame_type, payload@)),
{
    if compression_enabled && payload.len() > COMPRESSION_THRESHOLD {
        let compressed = deflate(payload, COMPRESSION_LEVEL);
        proof {
            if compressed@.len() <= u32::MAX {
                lemma_split_of_frame(frame_type, compressed@);
            }
        }
        frame_around(frame_type, compressed.as_slice())
    } else {
        proof {
            if payload@.len() <= u32::MAX {
                lemma_split_of_frame(frame_type, payload@);
            }
        }
        frame_around(frame_type, payload)
    }
}

/// Splits a buffer into its frame type and the body exactly as it stands on
/// the wire, or says why the buffer is not a frame.
pub fn split_frame(data: &[u8]) -> (parsed: DerpResult<(FrameType, Vec<u8>)>)
    ensures
        match parsed {
            Ok(pair) => split(data@) == Ok::<(FrameType, Seq<u8>), FrameDefect>((pair.0, pair.1@)),
            Err(e) => split(data@) is Err && e is InvalidProtocol && e.detail() == defect_text(
                split(data@)->Err_0,
            ),
        },
{
    if data.len() < HEADER_LEN {
        return Err(DerpError::InvalidProtocol(String::from_str("Frame too short")));
    }
    let frame_type = match FrameType::try_from(data[0]) {
        Ok(ft) => ft,
        Err(_) => {
            return Err(DerpError::InvalidProtocol(String::from_str("Invalid frame type")));
        },
    };
    let n: u64 = (data[1] as u64) * 0x100_0000 + (data[2] as u64) * 0x1_0000 + (data[3] as u64)
        * 0x100 + (data[4] as u64);
    assert(n == be32_value(data@.subrange(1, 5)));
    if (data.len() as u64) < n + 5 {
        return Err(DerpError::InvalidProtocol(String::from_str("Incomplete frame")));
    }
    let end: usize = (n + 5) as usize;
    let body = copy_range(data, HEADER_LEN, end);
    Ok((frame_type, body))
}

/// Picks the payload to hand on for a body found on the wire, given what the
/// inflater made of that body.
pub fn choose_payload(frame_type: FrameType, wire: Vec<u8>, inflated_body: Option<Vec<u8>>) -> (payload:
    Vec<u8>)
    ensures
        payload@ == if wire@.len() > 2 && !frame_type.is_keepalive() && inflated_body is Some {
            inflated_body->Some_0@
        } else {
            wire@
        },
{
    if wire.len() > 2 && frame_type != FrameType::Ping && frame_type != FrameType::Pong {
        match inflated_body {
            Some(plain) => plain,
            None => wire,
        }
    } else {
        wire
    }
}

/// Decodes a frame. A body of more than two bytes in a frame other than Ping
/// and Pong is inflated where it is a valid DEFLATE stream and handed on
/// unchanged where it is not.
pub fn decode(data: &[u8]) -> (parsed: DerpResult<(FrameType, Vec<u8>)>)
    ensures
        match parsed {
            Ok(pair) => decoded(data@) == Ok::<(FrameType, Seq<u8>), FrameDefect>(
                (pair.0, pair.1@),
            ),
            Err(e) => decoded(data@) is Err && e is InvalidProtocol && e.detail() == defect_text(
                decoded(data@)->Err_0,
            ),
        },
{
    match split_frame(data) {
        Err(e) => Err(e),
        Ok((frame_type, wire)) => {
            if wire.len() > 2 && frame_type != FrameType::Ping && frame_type != FrameType::Pong {
                let attempt = inflate(wire.as_slice());
                Ok((frame_type, choose_payload(frame_type, wire, attempt)))
            } else {
                Ok((frame_type, wire))
            }
        },
    }
}

/// A well-formed frame splits into the type and body it was made from.
pub proof fn lemma_split_of_frame(frame_type: FrameType, wire: Seq<u8>)
    requires
        wire.len() <= u32::MAX,
    ensures
        split(frame_bytes(frame_type, wire)) == Ok::<(FrameType, Seq<u8>), FrameDefect>(
            (frame_type, wire),
        ),
{
    let n = wire.len() as u32;
    let data = frame_bytes(frame_type, wire);
    lemma_be32_round_trip(n);
    assert(data.len() == wire.len() + 5);
    assert(data[0] == frame_type.code_of());
    assert(FrameType::of_code(frame_type.code_of()) == Some(frame_type));
    assert(data.subrange(1, 5) =~= be32(n));
    assert(data.subrange(5, 5 + n as int) =~= wire);
}

/// Without compression, decoding an encoded frame gives back the frame type
/// and the payload, for every payload whose length fits the length field and
/// that the decoder hands on verbatim.
pub proof fn lemma_codec_round_trip(frame_type: FrameType, payload: Seq<u8>)
    requires
        payload.len() <= u32::MAX,
        delivered_verbatim(frame_type, payload),
    ensures
        decoded(encoded(frame_type, payload, false)) == Ok::<(FrameType, Seq<u8>), FrameDefect>(
            (frame_type, payload),
        ),
{
    lemma_split_of_frame(frame_type, payload);
}

/// With compression, a payload of more than 64 bytes in a frame other than
/// Ping and Pong decodes to itself, provided its DEFLATE stream inflates back
/// to it (which the compressor's contract promises of every stream it
/// returns), is longer than two bytes and fits the length field.
pub proof fn lemma_compressed_round_trip(frame_type: FrameType, payload: Seq<u8>)
    requires
        payload.len() > COMPRESSION_THRESHOLD,
        !frame_type.is_keepalive(),
    ensures
        inflated(deflated(payload, COMPRESSION_LEVEL)) == Some(payload) && 2 < deflated(
            payload,
            COMPRESSION_LEVEL,
        ).len() <= u32::MAX ==> decoded(encoded(frame_type, payload, true)) == Ok::<
            (FrameType, Seq<u8>),
            FrameDefect,
        >((frame_type, payload)),
{
    let wire = deflated(payload, COMPRESSION_LEVEL);
    if wire.len() <= u32::MAX {
        lemma_split_of_frame(frame_type, wire);
    }
}

/// A payload of at most 64 bytes stands on the wire as it is, whether or not
/// compression is enabled.
pub proof fn lemma_small_payload_verbatim(
    frame_type: FrameType,
    payload: Seq<u8>,
    compression_enabled: bool,
)
    requires
        payload.len() <= COMPRESSION_THRESHOLD,
    ensures
        wire_payload(payload, compression_enabled) == payload,
        encoded(frame_type, payload, compression_enabled) == frame_bytes(frame_type, payload),
{
}

} // verus!
