//! Frame integrity checksum: the 16-bit XMODEM cyclic redundancy check
//! (polynomial 0x1021, initial value 0) over the payload bytes only.

use vstd::prelude::*;

verus! {

/// The 16-bit XMODEM checksum of a byte sequence. The checksum is a pure
/// function of the bytes; its value is left abstract and is supplied by the
/// `crc16` crate at run time.
pub uninterp spec fn crc16_of(bytes: Seq<u8>) -> u16;

/// Relies on `crc16::State::<XMODEM>::calculate` (polynomial 0x1021, initial
/// value 0): the checksum depends on the input bytes alone.
#[verifier::external_body]
pub fn crc16_xmodem(payload: &Vec<u8>) -> (r: u16)
    ensures
        r == crc16_of(payload@),
{
    crc16::State::<crc16::XMODEM>::calculate(payload.as_slice())
}

} // verus!
