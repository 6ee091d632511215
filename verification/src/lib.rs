//! A point-to-point serial protocol codec for talking to a VESC motor
//! controller over a byte stream: it frames outgoing command payloads,
//! parses and validates incoming response frames, and decodes fixed-layout
//! big-endian payloads into typed records.

use vstd::prelude::*;

pub mod checksum;
pub mod frame;
pub mod responses;
pub mod transport;

use crate::frame::be_u16;
use crate::frame::frame_bytes;
use crate::frame::parse_frame_spec;
use crate::frame::serialize_frame;
use crate::frame::LONG_FRAME_MARKER;
use crate::frame::MAX_PAYLOAD_LEN;
use crate::frame::SHORT_FRAME_MARKER;
use crate::frame::STOP_MARKER;
use crate::checksum::crc16_xmodem;
use crate::responses::decode_fw_version;
use crate::responses::decode_values;
use crate::responses::fw_matches;
use crate::responses::fw_payload_ok;
use crate::responses::values_matches;
use crate::responses::values_payload_ok;
use crate::responses::FwVersion;
use crate::responses::Values;
use crate::transport::read_byte;
use crate::transport::write_byte;
use crate::transport::VescRead;
use crate::transport::VescWrite;

verus! {

/// The ways a protocol transaction can fail. Every failure is a value
/// returned to the caller; nothing is retried beyond the byte-ready retry of
/// the transport, and nothing aborts the process.
#[derive(Debug, Clone, Copy, PartialEq, Eq, Structural)]
pub enum Error {
    /// The transport reported a hard failure, or the leading framing byte was
    /// neither recognized start marker.
    IoError,
    /// The checksum computed over the received payload does not match the
    /// transmitted one.
    ChecksumError,
    /// A structural violation: the response opcode does not echo the request,
    /// the trailing byte is not the stop marker, or an enumerated field holds
    /// an out-of-range value.
    ParseError,
}

/// The commands a VESC understands, each identified by the single opcode byte
/// that stands first in the command frame's payload. Only `FwVersion` and
/// `GetValues` have response decoding here; the rest are opcode definitions
/// for extension.
#[derive(Debug, Clone, Copy, PartialEq, Eq, Structural)]
pub enum Command {
    /// Query the firmware version.
    FwVersion,
    /// Jump to the bootloader.
    JumpToBootloader,
    /// Erase the staging area for a new application image.
    EraseNewApp,
    /// Write a chunk of a new application image.
    WriteNewAppData,
    /// Query live telemetry values.
    GetValues,
    /// Set the duty cycle.
    SetDuty,
    /// Set the motor current.
    SetCurrent,
    /// Set the braking current.
    SetCurrentBrake,
    /// Set the motor speed.
    SetRpm,
    /// Set the motor position.
    SetPos,
    /// Set the handbrake current.
    SetHandbrake,
    /// Enter detection mode.
    SetDetect,
    /// Set the servo output position.
    SetServoPos,
    /// Write the motor configuration.
    SetMcConf,
    /// Read the motor configuration.
    GetMcConf,
    /// Read the default motor configuration.
    GetMcConfDefault,
    /// Write the app configuration.
    SetAppConf,
    /// Read the app configuration.
    GetAppConf,
    /// Read the default app configuration.
    GetAppConfDefault,
    /// Stream sampled data for printing.
    SamplePrint,
    /// Run a terminal command.
    TerminalCmd,
    /// Detect motor parameters.
    DetectMotorParam,
    /// Detect motor resistance and inductance.
    DetectMotorRL,
    /// Detect motor flux linkage.
    DetectMotorFluxLinkage,
    /// Detect an encoder.
    DetectEncoder,
    /// Detect hall sensors for field-oriented control.
    DetectHallFoc,
    /// Reboot the controller.
    Reboot,
    /// Keep-alive.
    Alive,
    /// Read the decoded PPM input.
    GetDecodedPpm,
    /// Read the decoded ADC input.
    GetDecodedAdc,
    /// Read the decoded nunchuk input.
    GetDecodedChuck,
    /// Forward a command over the CAN bus.
    ForwardCan,
    /// Send nunchuk data.
    SetChuckData,
    /// Application-defined data.
    CustomAppData,
    /// Start pairing an NRF remote.
    NrfStartPairing,
}

impl Command {
    /// The opcode byte of this command.
    pub open spec fn opcode_spec(self) -> u8 {
        match self {
            Command::FwVersion => 0,
            Command::JumpToBootloader => 1,
            Command::EraseNewApp => 2,
            Command::WriteNewAppData => 3,
            Command::GetValues => 4,
            Command::SetDuty => 5,
            Command::SetCurrent => 6,
            Command::SetCurrentBrake => 7,
            Command::SetRpm => 8,
            Command::SetPos => 9,
            Command::SetHandbrake => 10,
            Command::SetDetect => 11,
            Command::SetServoPos => 12,
            Command::SetMcConf => 13,
            Command::GetMcConf => 14,
            Command::GetMcConfDefault => 15,
            Command::SetAppConf => 16,
            Command::GetAppConf => 17,
            Command::GetAppConfDefault => 18,
            Command::SamplePrint => 19,
            Command::TerminalCmd => 20,
            Command::DetectMotorParam => 21,
            Command::DetectMotorRL => 22,
            Command::DetectMotorFluxLinkage => 23,
            Command::DetectEncoder => 24,
            Command::DetectHallFoc => 25,
            Command::Reboot => 26,
            Command::Alive => 27,
            Command::GetDecodedPpm => 28,
            Command::GetDecodedAdc => 29,
            Command::GetDecodedChuck => 30,
            Command::ForwardCan => 31,
            Command::SetChuckData => 32,
            Command::CustomAppData => 33,
            Command::NrfStartPairing => 34,
        }
    }

    /// Returns the opcode byte of this command.
    pub fn value(&self) -> (r: u8)
        ensures
            r == self.opcode_spec(),
    {
        match *self {
            Command::FwVersion => 0,
            Command::JumpToBootloader => 1,
            Command::EraseNewApp => 2,
            Command::WriteNewAppData => 3,
            Command::GetValues => 4,
            Command::SetDuty => 5,
            Command::SetCurrent => 6,
            Command::SetCurrentBrake => 7,
            Command::SetRpm => 8,
            Command::SetPos => 9,
            Command::SetHandbrake => 10,
            Command::SetDetect => 11,
            Command::SetServoPos => 12,
            Command::SetMcConf => 13,
            Command::GetMcConf => 14,
            Command::GetMcConfDefault => 15,
            Command::SetAppConf => 16,
            Command::GetAppConf => 17,
            Command::GetAppConfDefault => 18,
            Command::SamplePrint => 19,
            Command::TerminalCmd => 20,
            Command::DetectMotorParam => 21,
            Command::DetectMotorRL => 22,
            Command::DetectMotorFluxLinkage => 23,
            Command::DetectEncoder => 24,
            Command::DetectHallFoc => 25,
            Command::Reboot => 26,
            Command::Alive => 27,
            Command::GetDecodedPpm => 28,
            Command::GetDecodedAdc => 29,
            Command::GetDecodedChuck => 30,
            Command::ForwardCan => 31,
            Command::SetChuckData => 32,
            Command::CustomAppData => 33,
            Command::NrfStartPairing => 34,
        }
    }
}

/// The payload of a current-set command: the `SetCurrent` opcode followed by
/// the commanded value as a big-endian 32-bit integer.
pub open spec fn set_current_payload(value: u32) -> Seq<u8> {
    seq![
        Command::SetCurrent.opcode_spec(),
        (value / 0x1000000) as u8,
        ((value / 0x10000) % 0x100) as u8,
        ((value / 0x100) % 0x100) as u8,
        (value % 0x100) as u8,
    ]
}

/// Law: the current-set payload is five bytes — the `SetCurrent` opcode, then
/// the commanded value in big-endian order, recoverable byte for byte.
pub proof fn lemma_set_current_payload_encodes(value: u32)
    ensures
        set_current_payload(value).len() == 5,
        set_current_payload(value)[0] == Command::SetCurrent.opcode_spec(),
        crate::frame::be_u32_of(
            set_current_payload(value)[1],
            set_current_payload(value)[2],
            set_current_payload(value)[3],
            set_current_payload(value)[4],
        ) == value,
{
    let v = value as int;
    vstd::arithmetic::div_mod::lemma_fundamental_div_mod(v, 0x100);
    vstd::arithmetic::div_mod::lemma_fundamental_div_mod(v / 0x100, 0x100);
    vstd::arithmetic::div_mod::lemma_fundamental_div_mod(v / 0x10000, 0x100);
    vstd::arithmetic::div_mod::lemma_div_denominator(v, 0x100, 0x100);
    vstd::arithmetic::div_mod::lemma_div_denominator(v, 0x10000, 0x100);
    vstd::arithmetic::div_mod::lemma_div_denominator(v / 0x100, 0x100, 0x100);
}

/// Connection to a VESC: owns the two halves of the byte transport and runs
/// one atomic request/response (or fire-and-forget) transaction at a time.
pub struct VescConnection<R, W> {
    r: R,
    w: W,
}

impl<R: VescRead, W: VescWrite> VescConnection<R, W> {
    /// The bytes the transport still has to deliver to this connection.
    pub closed spec fn incoming(&self) -> Seq<u8> {
        self.r.incoming()
    }

    /// The bytes this connection has handed to the transport so far.
    pub closed spec fn outgoing(&self) -> Seq<u8> {
        self.w.outgoing()
    }

    /// Opens a connection over a reading half and a writing half of one
    /// transport.
    pub fn new(r: R, w: W) -> (c: Self)
        ensures
            c.incoming() == r.incoming(),
            c.outgoing() == w.outgoing(),
    {
        VescConnection { r, w }
    }

    /// Emits the frame that carries `payload`: start byte, length byte, the
    /// payload, its checksum, and the stop byte, each written with retry
    /// until the transport takes it.
    #[verifier::loop_isolation(false)]
    fn write_frame(&mut self, payload: &Vec<u8>) -> (res: Result<(), Error>)
        requires
            payload@.len() < 256,
        ensures
            final(self).incoming() == old(self).incoming(),
            match res {
                Ok(_) => final(self).outgoing() == old(self).outgoing() + frame_bytes(payload@),
                Err(e) => e == Error::IoError,
            },
    {
        let frame = serialize_frame(payload);
        let mut i: usize = 0;
        while i < frame.len()
            invariant
                i <= frame@.len(),
                self.r == old(self).r,
                self.w.outgoing() == old(self).w.outgoing() + frame@.take(i as int),
            decreases frame@.len() - i,
        {
            match write_byte(&mut self.w, frame[i]) {
                Ok(_) => {},
                Err(e) => {
                    return Err(e);
                },
            }
            proof {
                assert(frame@.take(i + 1) =~= frame@.take(i as int).push(frame@[i as int]));
            }
            i += 1;
        }
        proof {
            assert(frame@.take(frame@.len() as int) =~= frame@);
        }
        Ok(())
    }

    /// Reads one frame off the transport and returns its validated payload.
    /// [`parse_frame_spec`] over the pending bytes says exactly what comes
    /// back, except that a hard transport failure surfaces as `IoError` at
    /// any point.
    #[verifier::loop_isolation(false)]
    #[verifier::rlimit(60)]
    fn read_frame(&mut self) -> (res: Result<Vec<u8>, Error>)
        ensures
            final(self).outgoing() == old(self).outgoing(),
            match res {
                Ok(p) => parse_frame_spec(old(self).incoming()) matches Ok(pair) && pair.0 == p@
                    && final(self).incoming() == old(self).incoming().skip(pair.1),
                Err(e) => e == Error::IoError || (parse_frame_spec(old(self).incoming()) matches
                Err(e2) && e == e2),
            },
    {
        let ghost orig: Seq<u8> = self.r.incoming();
        let b0 = match read_byte(&mut self.r) {
            Ok(b) => b,
            Err(e) => {
                return Err(e);
            },
        };
        let header: usize;
        let len: usize;
        if b0 == SHORT_FRAME_MARKER {
            let l = match read_byte(&mut self.r) {
                Ok(b) => b,
                Err(e) => {
                    return Err(e);
                },
            };
            proof {
                assert(orig.skip(1).skip(1) =~= orig.skip(2));
            }
            header = 2;
            len = l as usize;
        } else if b0 == LONG_FRAME_MARKER {
            let h = match read_byte(&mut self.r) {
                Ok(b) => b,
                Err(e) => {
                    return Err(e);
                },
            };
            let l = match read_byte(&mut self.r) {
                Ok(b) => b,
                Err(e) => {
                    return Err(e);
                },
            };
            proof {
                assert(orig.skip(1).skip(1) =~= orig.skip(2));
                assert(orig.skip(2).skip(1) =~= orig.skip(3));
            }
            header = 3;
            len = be_u16(h, l) as usize;
        } else {
            return Err(Error::IoError);
        }
        if len > MAX_PAYLOAD_LEN {
            return Err(Error::IoError);
        }
        let mut payload: Vec<u8> = Vec::new();
        let mut i: usize = 0;
        while i < len
            invariant
                i <= len,
                orig.len() >= header + i,
                self.r.incoming() == orig.skip(header + i),
                payload@ == orig.subrange(header as int, header + i),
                self.w == old(self).w,
            decreases len - i,
        {
            let b = match read_byte(&mut self.r) {
                Ok(b) => b,
                Err(e) => {
                    return Err(e);
                },
            };
            payload.push(b);
            proof {
                assert(orig.skip(header + i).skip(1) =~= orig.skip(header + i + 1));
                assert(orig.subrange(header as int, header + i + 1) =~= orig.subrange(
                    header as int,
                    header + i,
                ).push(orig[header + i]));
            }
            i += 1;
        }
        let c1 = match read_byte(&mut self.r) {
            Ok(b) => b,
            Err(e) => {
                return Err(e);
            },
        };
        let c2 = match read_byte(&mut self.r) {
            Ok(b) => b,
            Err(e) => {
                return Err(e);
            },
        };
        proof {
            assert(orig.skip(header + len).skip(1) =~= orig.skip(header + len + 1));
            assert(orig.skip(header + len + 1).skip(1) =~= orig.skip(header + len + 2));
        }
        let computed = crc16_xmodem(&payload);
        let stored = be_u16(c1, c2);
        if computed != stored {
            return Err(Error::ChecksumError);
        }
        let stop = match read_byte(&mut self.r) {
            Ok(b) => b,
            Err(e) => {
                return Err(e);
            },
        };
        proof {
            assert(orig.skip(header + len + 2).skip(1) =~= orig.skip(header + len + 3));
        }
        if stop != STOP_MARKER {
            return Err(Error::ParseError);
        }
        Ok(payload)
    }

    /// Queries the firmware version: sends a one-byte `FwVersion` command
    /// frame, reads the response frame, demands the opcode echo, and decodes
    /// the record. On success the command frame is exactly what went out, the
    /// response payload parsed out of the pending bytes had the shape
    /// [`fw_payload_ok`] demands, and the record relates to it by
    /// [`fw_matches`]; every failure is the parse or decode error, or
    /// `IoError` from the transport.
    pub fn get_fw_version(&mut self) -> (res: Result<FwVersion, Error>)
        ensures
            match res {
                Ok(fw) => final(self).outgoing() == old(self).outgoing() + frame_bytes(
                    seq![Command::FwVersion.opcode_spec()],
                ) && (parse_frame_spec(old(self).incoming()) matches Ok(pair) && fw_payload_ok(
                    pair.0,
                ) && fw_matches(fw, pair.0) && final(self).incoming() == old(
                    self,
                ).incoming().skip(pair.1)),
                Err(e) => e == Error::IoError || (parse_frame_spec(old(self).incoming()) matches
                Ok(pair) && !fw_payload_ok(pair.0) && e == Error::ParseError) || (parse_frame_spec(
                    old(self).incoming(),
                ) matches Err(e2) && e == e2),
            },
    {
        let mut cmd: Vec<u8> = Vec::new();
        cmd.push(Command::FwVersion.value());
        proof {
            assert(cmd@ =~= seq![Command::FwVersion.opcode_spec()]);
        }
        match self.write_frame(&cmd) {
            Ok(_) => {},
            Err(e) => {
                return Err(e);
            },
        }
        let payload = match self.read_frame() {
            Ok(p) => p,
            Err(e) => {
                return Err(e);
            },
        };
        match decode_fw_version(&payload) {
            Ok(fw) => Ok(fw),
            Err(e) => Err(e),
        }
    }

    /// Queries live telemetry: sends a one-byte `GetValues` command frame,
    /// reads the response frame, demands the opcode echo, and decodes the
    /// fixed 58-byte layout. On success the command frame is exactly what
    /// went out, the response payload parsed out of the pending bytes had the
    /// shape [`values_payload_ok`] demands, and the record relates to it by
    /// [`values_matches`]; every failure is the parse or decode error, or
    /// `IoError` from the transport.
    pub fn get_values(&mut self) -> (res: Result<Values, Error>)
        ensures
            match res {
                Ok(v) => final(self).outgoing() == old(self).outgoing() + frame_bytes(
                    seq![Command::GetValues.opcode_spec()],
                ) && (parse_frame_spec(old(self).incoming()) matches Ok(pair) && values_payload_ok(
                    pair.0,
                ) && values_matches(v, pair.0) && final(self).incoming() == old(
                    self,
                ).incoming().skip(pair.1)),
                Err(e) => e == Error::IoError || (parse_frame_spec(old(self).incoming()) matches
                Ok(pair) && !values_payload_ok(pair.0) && e == Error::ParseError) || (
                parse_frame_spec(old(self).incoming()) matches Err(e2) && e == e2),
            },
    {
        let mut cmd: Vec<u8> = Vec::new();
        cmd.push(Command::GetValues.value());
        proof {
            assert(cmd@ =~= seq![Command::GetValues.opcode_spec()]);
        }
        match self.write_frame(&cmd) {
            Ok(_) => {},
            Err(e) => {
                return Err(e);
            },
        }
        let payload = match self.read_frame() {
            Ok(p) => p,
            Err(e) => {
                return Err(e);
            },
        };
        match decode_values(&payload) {
            Ok(v) => Ok(v),
            Err(e) => Err(e),
        }
    }

    /// The reading half of the transport, for inspection.
    pub fn reader(&self) -> (rd: &R)
        ensures
            rd.incoming() == self.incoming(),
    {
        &self.r
    }

    /// The writing half of the transport, for inspection.
    pub fn writer(&self) -> (wr: &W)
        ensures
            wr.outgoing() == self.outgoing(),
    {
        &self.w
    }

    /// Commands a motor current, fire-and-forget: sends one frame whose
    /// payload is the `SetCurrent` opcode followed by the value big-endian,
    /// and reads nothing back — the pending incoming bytes are untouched.
    pub fn set_current(&mut self, value: u32) -> (res: Result<(), Error>)
        ensures
            final(self).incoming() == old(self).incoming(),
            match res {
                Ok(_) => final(self).outgoing() == old(self).outgoing() + frame_bytes(
                    set_current_payload(value),
                ),
                Err(e) => e == Error::IoError,
            },
    {
        let mut cmd: Vec<u8> = Vec::new();
        cmd.push(Command::SetCurrent.value());
        cmd.push((value / 0x1000000) as u8);
        cmd.push(((value / 0x10000) % 0x100) as u8);
        cmd.push(((value / 0x100) % 0x100) as u8);
        cmd.push((value % 0x100) as u8);
        proof {
            assert(cmd@ =~= set_current_payload(value));
        }
        self.write_frame(&cmd)
    }
}

} // verus!
