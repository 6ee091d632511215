//! The frame codec: builds the on-wire frame around a command payload and
//! recovers a validated payload from received bytes.
//!
//! Wire layout: `[start][length][payload...][crc_hi][crc_lo][stop]`, where a
//! start byte of 0x02 announces a one-byte length field and a start byte of
//! 0x03 a two-byte big-endian one. The checksum is the 16-bit XMODEM CRC of
//! the payload bytes alone, and the trailing stop byte is always 0x03. Frames
//! are emitted only in the short form; both forms are accepted on read.

use vstd::prelude::*;

use crate::checksum::crc16_of;
use crate::checksum::crc16_xmodem;
use crate::Error;

verus! {

/// Start byte of a frame with a one-byte length field.
pub const SHORT_FRAME_MARKER: u8 = 0x02;

/// Start byte of a frame with a two-byte big-endian length field.
pub const LONG_FRAME_MARKER: u8 = 0x03;

/// Byte that terminates every frame.
pub const STOP_MARKER: u8 = 0x03;

/// Largest payload the read path accepts; a declared length beyond this is
/// rejected rather than buffered.
pub const MAX_PAYLOAD_LEN: usize = 128;

/// The big-endian 16-bit value held by two bytes.
pub open spec fn be_u16_of(hi: u8, lo: u8) -> u16 {
    (hi as int * 0x100 + lo as int) as u16
}

/// The big-endian 32-bit value held by four bytes.
pub open spec fn be_u32_of(b0: u8, b1: u8, b2: u8, b3: u8) -> u32 {
    (b0 as int * 0x1000000 + b1 as int * 0x10000 + b2 as int * 0x100 + b3 as int) as u32
}

/// High byte of the payload's checksum as it stands in a frame.
pub open spec fn crc_hi(payload: Seq<u8>) -> u8 {
    (crc16_of(payload) / 0x100) as u8
}

/// Low byte of the payload's checksum as it stands in a frame.
pub open spec fn crc_lo(payload: Seq<u8>) -> u8 {
    (crc16_of(payload) % 0x100) as u8
}

/// The exact bytes of the short-form frame that carries `payload`.
pub open spec fn frame_bytes(payload: Seq<u8>) -> Seq<u8> {
    seq![SHORT_FRAME_MARKER, payload.len() as u8] + payload + seq![
        crc_hi(payload),
        crc_lo(payload),
        STOP_MARKER,
    ]
}

/// Reads a big-endian 16-bit value out of two bytes.
pub fn be_u16(hi: u8, lo: u8) -> (r: u16)
    ensures
        r == be_u16_of(hi, lo),
{
    hi as u16 * 0x100 + lo as u16
}

/// Reads a big-endian 32-bit value out of four bytes.
pub fn be_u32(b0: u8, b1: u8, b2: u8, b3: u8) -> (r: u32)
    ensures
        r == be_u32_of(b0, b1, b2, b3),
{
    b0 as u32 * 0x1000000 + b1 as u32 * 0x10000 + b2 as u32 * 0x100 + b3 as u32
}

/// What parsing a received byte sequence yields: on success, the payload and
/// the number of bytes the frame occupied; otherwise the reason it was
/// rejected. The length field must be honoured exactly, the checksum is
/// verified before the payload is accepted, and the stop byte is verified
/// after the checksum. Bytes past the end of the frame are ignored.
pub open spec fn parse_frame_spec(bytes: Seq<u8>) -> Result<(Seq<u8>, int), Error> {
    if bytes.len() < 1 {
        Err(Error::IoError)
    } else if bytes[0] == SHORT_FRAME_MARKER {
        if bytes.len() < 2 {
            Err(Error::IoError)
        } else {
            parse_after_length(bytes, 2, bytes[1] as int)
        }
    } else if bytes[0] == LONG_FRAME_MARKER {
        if bytes.len() < 3 {
            Err(Error::IoError)
        } else {
            parse_after_length(bytes, 3, be_u16_of(bytes[1], bytes[2]) as int)
        }
    } else {
        Err(Error::IoError)
    }
}

/// The tail of [`parse_frame_spec`] once the start marker and the declared
/// payload length are known; `header` is how many bytes the marker and the
/// length field occupy.
pub open spec fn parse_after_length(bytes: Seq<u8>, header: int, len: int) -> Result<
    (Seq<u8>, int),
    Error,
> {
    if len > MAX_PAYLOAD_LEN as int {
        Err(Error::IoError)
    } else if bytes.len() < header + len + 2 {
        Err(Error::IoError)
    } else {
        let payload = bytes.subrange(header, header + len);
        if be_u16_of(bytes[header + len], bytes[header + len + 1]) != crc16_of(payload) {
            Err(Error::ChecksumError)
        } else if bytes.len() < header + len + 3 {
            Err(Error::ParseError)
        } else if bytes[header + len + 2] != STOP_MARKER {
            Err(Error::ParseError)
        } else {
            Ok((payload, header + len + 3))
        }
    }
}

/// Wraps a payload in a short-form frame: start byte, one length byte, the
/// payload verbatim, the two checksum bytes, and the stop byte.
pub fn serialize_frame(payload: &Vec<u8>) -> (frame: Vec<u8>)
    requires
        payload@.len() < 256,
    ensures
        frame@ == frame_bytes(payload@),
{
    let mut frame: Vec<u8> = Vec::new();
    frame.push(SHORT_FRAME_MARKER);
    frame.push(payload.len() as u8);
    let mut i: usize = 0;
    while i < payload.len()
        invariant
            i <= payload@.len(),
            payload@.len() < 256,
            frame@ == seq![SHORT_FRAME_MARKER, payload@.len() as u8] + payload@.take(i as int),
        decreases payload@.len() - i,
    {
        frame.push(payload[i]);
        proof {
            assert(payload@.take(i + 1) =~= payload@.take(i as int).push(payload@[i as int]));
        }
        i += 1;
    }
    let c = crc16_xmodem(payload);
    frame.push((c / 0x100) as u8);
    frame.push((c % 0x100) as u8);
    frame.push(STOP_MARKER);
    proof {
        assert(payload@.take(payload@.len() as int) =~= payload@);
        assert(frame@ =~= frame_bytes(payload@));
    }
    frame
}

/// Parses one frame from the front of a received byte sequence and returns
/// its payload. The declared length is honoured exactly, the checksum is
/// verified before the payload is accepted, and the stop byte after it;
/// [`parse_frame_spec`] states precisely which input is rejected with which
/// error. Bytes past the end of the frame are ignored.
#[verifier::loop_isolation(false)]
pub fn parse_frame(bytes: &Vec<u8>) -> (r: Result<Vec<u8>, Error>)
    ensures
        match r {
            Ok(p) => parse_frame_spec(bytes@) matches Ok(pair) && pair.0 == p@,
            Err(e) => parse_frame_spec(bytes@) matches Err(e2) && e == e2,
        },
{
    if bytes.len() < 1 {
        return Err(Error::IoError);
    }
    let b0 = bytes[0];
    let header: usize;
    let len: usize;
    if b0 == SHORT_FRAME_MARKER {
        if bytes.len() < 2 {
            return Err(Error::IoError);
        }
        header = 2;
        len = bytes[1] as usize;
    } else if b0 == LONG_FRAME_MARKER {
        if bytes.len() < 3 {
            return Err(Error::IoError);
        }
        header = 3;
        len = be_u16(bytes[1], bytes[2]) as usize;
    } else {
        return Err(Error::IoError);
    }
    if len > MAX_PAYLOAD_LEN {
        return Err(Error::IoError);
    }
    if bytes.len() < header + len + 2 {
        return Err(Error::IoError);
    }
    let mut payload: Vec<u8> = Vec::new();
    let mut i: usize = 0;
    while i < len
        invariant
            i <= len,
            payload@ == bytes@.subrange(header as int, header + i),
        decreases len - i,
    {
        payload.push(bytes[header + i]);
        proof {
            assert(bytes@.subrange(header as int, header + i + 1) =~= bytes@.subrange(
                header as int,
                header + i,
            ).push(bytes@[header + i]));
        }
        i += 1;
    }
    let computed = crc16_xmodem(&payload);
    let stored = be_u16(bytes[header + len], bytes[header + len + 1]);
    if computed != stored {
        return Err(Error::ChecksumError);
    }
    if bytes.len() < header + len + 3 {
        return Err(Error::ParseError);
    }
    if bytes[header + len + 2] != STOP_MARKER {
        return Err(Error::ParseError);
    }
    Ok(payload)
}

/// Law: framing round-trips. Parsing the frame built from any payload the
/// read path can hold yields exactly that payload, and consumes exactly the
/// frame's bytes.
pub proof fn lemma_round_trip(payload: Seq<u8>)
    requires
        payload.len() <= MAX_PAYLOAD_LEN as int,
    ensures
        parse_frame_spec(frame_bytes(payload)) == Ok::<(Seq<u8>, int), Error>(
            (payload, payload.len() as int + 5),
        ),
{
    let fb = frame_bytes(payload);
    let len = payload.len() as int;
    assert(fb.len() == len + 5);
    assert(fb[0] == SHORT_FRAME_MARKER);
    assert(fb[1] as int == len);
    assert(fb.subrange(2, 2 + len) =~= payload);
    lemma_crc_bytes_recombine(payload);
    assert(fb[2 + len] == crc_hi(payload));
    assert(fb[2 + len + 1] == crc_lo(payload));
    assert(fb[2 + len + 2] == STOP_MARKER);
}

/// Law: a frame whose stored checksum is not the payload's checksum is
/// rejected with `ChecksumError`, whatever the two stored bytes are.
pub proof fn lemma_checksum_mismatch(payload: Seq<u8>, hi: u8, lo: u8)
    requires
        payload.len() <= MAX_PAYLOAD_LEN as int,
        be_u16_of(hi, lo) != crc16_of(payload),
    ensures
        parse_frame_spec(
            seq![SHORT_FRAME_MARKER, payload.len() as u8] + payload + seq![hi, lo, STOP_MARKER],
        ) == Err::<(Seq<u8>, int), Error>(Error::ChecksumError),
{
    let bytes = seq![SHORT_FRAME_MARKER, payload.len() as u8] + payload + seq![
        hi,
        lo,
        STOP_MARKER,
    ];
    let len = payload.len() as int;
    assert(bytes.len() == len + 5);
    assert(bytes[1] as int == len);
    assert(bytes.subrange(2, 2 + len) =~= payload);
    assert(bytes[2 + len] == hi);
    assert(bytes[2 + len + 1] == lo);
}

/// Law: dropping the stop byte off a well-formed frame makes parsing fail
/// with `ParseError`, never succeed.
pub proof fn lemma_truncated_frame(payload: Seq<u8>)
    requires
        payload.len() <= MAX_PAYLOAD_LEN as int,
    ensures
        parse_frame_spec(frame_bytes(payload).take(frame_bytes(payload).len() - 1)) == Err::<
            (Seq<u8>, int),
            Error,
        >(Error::ParseError),
{
    let fb = frame_bytes(payload);
    let len = payload.len() as int;
    let tb = fb.take(fb.len() - 1);
    assert(tb.len() == len + 4);
    assert(tb[0] == SHORT_FRAME_MARKER);
    assert(tb[1] as int == len);
    assert(tb.subrange(2, 2 + len) =~= payload);
    lemma_crc_bytes_recombine(payload);
    assert(tb[2 + len] == crc_hi(payload));
    assert(tb[2 + len + 1] == crc_lo(payload));
}

/// The two checksum bytes of a frame reassemble to the payload's checksum.
proof fn lemma_crc_bytes_recombine(payload: Seq<u8>)
    ensures
        be_u16_of(crc_hi(payload), crc_lo(payload)) == crc16_of(payload),
{
    let c = crc16_of(payload) as int;
    assert(c == 0x100 * (c / 0x100) + c % 0x100) by {
        vstd::arithmetic::div_mod::lemma_fundamental_div_mod(c, 0x100);
    }
}

} // verus!
