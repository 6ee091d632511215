//! Typed decodings of response payloads: the firmware-version record, the
//! live-telemetry record, and the controller fault enumeration.

use vstd::prelude::*;

use crate::frame::be_u16;
use crate::frame::be_u16_of;
use crate::frame::be_u32;
use crate::frame::be_u32_of;
use crate::Command;
use crate::Error;

verus! {

/// Controller faults, decoded from a single payload byte. The set is closed:
/// a byte outside it is a decode error, never a new variant.
#[derive(Debug, Clone, Copy, PartialEq, Eq, Structural)]
pub enum Fault {
    /// No faults.
    NoFault,
    /// Input voltage too high.
    OverVoltage,
    /// Input voltage too low.
    UnderVoltage,
    /// DRV gate-driver error.
    Drv,
    /// Current too high.
    AbsOverCurrent,
    /// FET temperature too high.
    OverTempFet,
    /// Motor temperature too high.
    OverTempMotor,
}

/// The fault a payload byte stands for: bytes 0 through 6 map one-to-one onto
/// the fault set, every other byte is rejected.
pub open spec fn fault_from_byte(n: u8) -> Result<Fault, Error> {
    match n {
        0 => Ok(Fault::NoFault),
        1 => Ok(Fault::OverVoltage),
        2 => Ok(Fault::UnderVoltage),
        3 => Ok(Fault::Drv),
        4 => Ok(Fault::AbsOverCurrent),
        5 => Ok(Fault::OverTempFet),
        6 => Ok(Fault::OverTempMotor),
        _ => Err(Error::ParseError),
    }
}

impl Fault {
    /// Decodes a fault byte. Succeeds exactly on bytes 0 through 6; every
    /// other byte is a `ParseError`.
    pub fn from_u8(n: u8) -> (r: Result<Self, Error>)
        ensures
            r == fault_from_byte(n),
            r is Ok <==> n <= 6,
    {
        match n {
            0 => Ok(Fault::NoFault),
            1 => Ok(Fault::OverVoltage),
            2 => Ok(Fault::UnderVoltage),
            3 => Ok(Fault::Drv),
            4 => Ok(Fault::AbsOverCurrent),
            5 => Ok(Fault::OverTempFet),
            6 => Ok(Fault::OverTempMotor),
            _ => Err(Error::ParseError),
        }
    }
}

/// Response to a firmware-version query.
#[derive(Debug, Clone, Copy, PartialEq, Eq)]
pub struct FwVersion {
    /// Major version.
    pub major: u8,
    /// Minor version.
    pub minor: u8,
    /// Hardware name: a variable-length field of at most 10 bytes, copied to
    /// the front of this buffer; the rest stays zero.
    pub hw: [u8; 10],
    /// 96-bit ID of the MCU: the last 12 bytes of the payload.
    pub uuid: [u8; 12],
}

/// Whether a payload has the shape of a firmware-version response: it echoes
/// the `FwVersion` opcode and is long enough for the version bytes, a
/// hardware-name field of at most 10 bytes, and the trailing 12-byte UUID.
pub open spec fn fw_payload_ok(p: Seq<u8>) -> bool {
    &&& 15 <= p.len() <= 25
    &&& p[0] == Command::FwVersion.opcode_spec()
}

/// How a decoded firmware-version record relates to the payload it came from:
/// major and minor are the two bytes after the opcode, the hardware name is
/// the `p.len() - 15` bytes after them (the rest of the buffer zero), and the
/// UUID is the last 12 bytes.
pub open spec fn fw_matches(fw: FwVersion, p: Seq<u8>) -> bool {
    &&& fw.major == p[1]
    &&& fw.minor == p[2]
    &&& forall|i: int| 0 <= i < p.len() - 15 ==> fw.hw@[i] == p[3 + i]
    &&& forall|i: int| p.len() - 15 <= i < 10 ==> fw.hw@[i] == 0
    &&& fw.uuid@ == p.subrange(p.len() - 12, p.len() as int)
}

/// Decodes a firmware-version response payload. Succeeds exactly on payloads
/// of the shape [`fw_payload_ok`] describes; anything else is a `ParseError`.
#[verifier::loop_isolation(false)]
pub fn decode_fw_version(payload: &Vec<u8>) -> (r: Result<FwVersion, Error>)
    ensures
        match r {
            Ok(fw) => fw_payload_ok(payload@) && fw_matches(fw, payload@),
            Err(e) => !fw_payload_ok(payload@) && e == Error::ParseError,
        },
{
    let n = payload.len();
    if n < 15 || n > 25 {
        return Err(Error::ParseError);
    }
    if payload[0] != Command::FwVersion.value() {
        return Err(Error::ParseError);
    }
    let mut uuid = [0u8; 12];
    let mut i: usize = 0;
    while i < 12
        invariant
            i <= 12,
            forall|j: int| 0 <= j < i ==> uuid@[j] == payload@[n - 12 + j],
        decreases 12 - i,
    {
        uuid[i] = payload[n - 12 + i];
        i += 1;
    }
    let hw_len = n - 15;
    let mut hw = [0u8; 10];
    let mut k: usize = 0;
    while k < hw_len
        invariant
            k <= hw_len,
            forall|j: int| 0 <= j < k ==> hw@[j] == payload@[3 + j],
            forall|j: int| k <= j < 10 ==> hw@[j] == 0,
        decreases hw_len - k,
    {
        hw[k] = payload[3 + k];
        k += 1;
    }
    proof {
        assert(uuid@ =~= payload@.subrange(n - 12, n as int));
    }
    Ok(FwVersion { major: payload[1], minor: payload[2], hw, uuid })
}

/// Response to a telemetry query. Each quantity is carried on the wire as a
/// big-endian integer in fixed units; the field holds that integer verbatim.
#[derive(Debug, Clone, Copy, PartialEq, Eq, Structural)]
pub struct Values {
    /// FET temperature, in tenths of a degree Celsius.
    pub temp_fet: u16,
    /// Motor temperature, in tenths of a degree Celsius.
    pub temp_motor: u16,
    /// Motor current, in hundredths of an ampere.
    pub motor_current: u32,
    /// Input current, in hundredths of an ampere.
    pub input_current: u32,
    /// Direct-axis current, in hundredths of an ampere.
    pub id: u32,
    /// Quadrature-axis current, in hundredths of an ampere.
    pub iq: u32,
    /// Motor duty cycle, in thousandths.
    pub duty_cycle: u16,
    /// Motor speed, in revolutions per minute.
    pub rpm: u32,
    /// Input voltage, in tenths of a volt.
    pub input_voltage: u16,
    /// Charge drawn, in tenths of a milliampere-hour.
    pub amp_hours: u32,
    /// Charge regenerated, in tenths of a milliampere-hour.
    pub amp_hours_charged: u32,
    /// Energy drawn, in tenths of a milliwatt-hour.
    pub watt_hours: u32,
    /// Energy regenerated, in tenths of a milliwatt-hour.
    pub watt_hours_charged: u32,
    /// Motor tachometer, in counts.
    pub tachometer: u32,
    /// Absolute motor tachometer, in counts.
    pub tachometer_abs: u32,
    /// Fault state of the controller.
    pub fault: Fault,
    /// Position controller output, in millionths.
    pub pid_pos: u32,
    /// ID of the controller; not transmitted by this command, always 0.
    pub controller_id: u8,
}

/// Whether a payload has the shape of a telemetry response: it echoes the
/// `GetValues` opcode, is long enough for the fixed 58-byte layout, and its
/// fault byte is in the closed fault set.
pub open spec fn values_payload_ok(p: Seq<u8>) -> bool {
    &&& p.len() >= 58
    &&& p[0] == Command::GetValues.opcode_spec()
    &&& fault_from_byte(p[53]) is Ok
}

/// How a decoded telemetry record relates to the payload it came from: each
/// field is the big-endian integer at its fixed offset.
pub open spec fn values_matches(v: Values, p: Seq<u8>) -> bool {
    &&& v.temp_fet == be_u16_of(p[1], p[2])
    &&& v.temp_motor == be_u16_of(p[3], p[4])
    &&& v.motor_current == be_u32_of(p[5], p[6], p[7], p[8])
    &&& v.input_current == be_u32_of(p[9], p[10], p[11], p[12])
    &&& v.id == be_u32_of(p[13], p[14], p[15], p[16])
    &&& v.iq == be_u32_of(p[17], p[18], p[19], p[20])
    &&& v.duty_cycle == be_u16_of(p[21], p[22])
    &&& v.rpm == be_u32_of(p[23], p[24], p[25], p[26])
    &&& v.input_voltage == be_u16_of(p[27], p[28])
    &&& v.amp_hours == be_u32_of(p[29], p[30], p[31], p[32])
    &&& v.amp_hours_charged == be_u32_of(p[33], p[34], p[35], p[36])
    &&& v.watt_hours == be_u32_of(p[37], p[38], p[39], p[40])
    &&& v.watt_hours_charged == be_u32_of(p[41], p[42], p[43], p[44])
    &&& v.tachometer == be_u32_of(p[45], p[46], p[47], p[48])
    &&& v.tachometer_abs == be_u32_of(p[49], p[50], p[51], p[52])
    &&& Ok::<Fault, Error>(v.fault) == fault_from_byte(p[53])
    &&& v.pid_pos == be_u32_of(p[54], p[55], p[56], p[57])
    &&& v.controller_id == 0
}

/// Decodes a telemetry response payload. Succeeds exactly on payloads of the
/// shape [`values_payload_ok`] describes; anything else is a `ParseError`.
pub fn decode_values(payload: &Vec<u8>) -> (r: Result<Values, Error>)
    ensures
        match r {
            Ok(v) => values_payload_ok(payload@) && values_matches(v, payload@),
            Err(e) => !values_payload_ok(payload@) && e == Error::ParseError,
        },
{
    if payload.len() < 58 {
        return Err(Error::ParseError);
    }
    if payload[0] != Command::GetValues.value() {
        return Err(Error::ParseError);
    }
    let fault = match Fault::from_u8(payload[53]) {
        Ok(f) => f,
        Err(e) => {
            return Err(e);
        },
    };
    Ok(
        Values {
            temp_fet: be_u16(payload[1], payload[2]),
            temp_motor: be_u16(payload[3], payload[4]),
            motor_current: be_u32(payload[5], payload[6], payload[7], payload[8]),
            input_current: be_u32(payload[9], payload[10], payload[11], payload[12]),
            id: be_u32(payload[13], payload[14], payload[15], payload[16]),
            iq: be_u32(payload[17], payload[18], payload[19], payload[20]),
            duty_cycle: be_u16(payload[21], payload[22]),
            rpm: be_u32(payload[23], payload[24], payload[25], payload[26]),
            input_voltage: be_u16(payload[27], payload[28]),
            amp_hours: be_u32(payload[29], payload[30], payload[31], payload[32]),
            amp_hours_charged: be_u32(payload[33], payload[34], payload[35], payload[36]),
            watt_hours: be_u32(payload[37], payload[38], payload[39], payload[40]),
            watt_hours_charged: be_u32(payload[41], payload[42], payload[43], payload[44]),
            tachometer: be_u32(payload[45], payload[46], payload[47], payload[48]),
            tachometer_abs: be_u32(payload[49], payload[50], payload[51], payload[52]),
            fault,
            pid_pos: be_u32(payload[54], payload[55], payload[56], payload[57]),
            controller_id: 0,
        },
    )
}

} // verus!
