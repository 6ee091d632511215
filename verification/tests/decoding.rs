//! Payload decoding tests: the fault table, the firmware-version record, and
//! the telemetry record.

use vesc_comm::responses::decode_fw_version;
use vesc_comm::responses::decode_values;
use vesc_comm::responses::Fault;
use vesc_comm::Error;

fn fw_payload() -> Vec<u8> {
    // Opcode 0, major 3, minor 0x28, hardware name "60" in a 10-byte field,
    // then a 12-byte UUID.
    let mut p = vec![0x00u8, 0x03, 0x28, b'6', b'0', 0, 0, 0, 0, 0, 0, 0, 0];
    p.extend_from_slice(&[1, 2, 3, 4, 5, 6, 7, 8, 9, 10, 11, 12]);
    assert_eq!(p.len(), 25);
    p
}

fn values_payload() -> Vec<u8> {
    let mut p = vec![0u8; 58];
    p[0] = 4;
    p
}

#[test]
fn fault_decode_closure() {
    let table = [
        Fault::NoFault,
        Fault::OverVoltage,
        Fault::UnderVoltage,
        Fault::Drv,
        Fault::AbsOverCurrent,
        Fault::OverTempFet,
        Fault::OverTempMotor,
    ];
    for n in 0..=255u8 {
        if n <= 6 {
            assert_eq!(Fault::from_u8(n), Ok(table[n as usize]));
        } else {
            assert_eq!(Fault::from_u8(n), Err(Error::ParseError));
        }
    }
}

#[test]
fn fw_version_scenario() {
    let fw = decode_fw_version(&fw_payload()).unwrap();
    assert_eq!(fw.major, 3);
    assert_eq!(fw.minor, 40);
    assert_eq!(&fw.hw[..2], b"60");
    assert_eq!(fw.hw, [b'6', b'0', 0, 0, 0, 0, 0, 0, 0, 0]);
    assert_eq!(fw.uuid, [1, 2, 3, 4, 5, 6, 7, 8, 9, 10, 11, 12]);
}

#[test]
fn fw_version_minimal_payload() {
    // 15 bytes: opcode, major, minor, no hardware name, 12-byte UUID.
    let mut p = vec![0x00u8, 9, 1];
    p.extend_from_slice(&[0xAA; 12]);
    let fw = decode_fw_version(&p).unwrap();
    assert_eq!(fw.major, 9);
    assert_eq!(fw.minor, 1);
    assert_eq!(fw.hw, [0u8; 10]);
    assert_eq!(fw.uuid, [0xAA; 12]);
}

#[test]
fn fw_version_short_payload_rejected() {
    let p = vec![0x00u8; 14];
    assert_eq!(decode_fw_version(&p), Err(Error::ParseError));
}

#[test]
fn fw_version_overlong_name_field_rejected() {
    // 26 bytes would put an 11-byte name into the 10-byte buffer.
    let mut p = fw_payload();
    p.push(0);
    assert_eq!(decode_fw_version(&p), Err(Error::ParseError));
}

#[test]
fn fw_version_opcode_mismatch_rejected() {
    let mut p = fw_payload();
    p[0] = 4;
    assert_eq!(decode_fw_version(&p), Err(Error::ParseError));
}

#[test]
fn telemetry_scenario() {
    let mut p = values_payload();
    p[1] = 0x00;
    p[2] = 0x64;
    p[53] = 0x02;
    let v = decode_values(&p).unwrap();
    assert_eq!(v.temp_fet, 100);
    assert_eq!(v.temp_fet as f32 / 10.0, 10.0);
    assert_eq!(v.fault, Fault::UnderVoltage);
    assert_eq!(v.controller_id, 0);
}

#[test]
fn telemetry_field_offsets() {
    let mut p = values_payload();
    p[3] = 0x01; // temp_motor = 0x0141 = 321
    p[4] = 0x41;
    p[5] = 0x00; // motor_current = 0x00010000 = 65536
    p[6] = 0x01;
    p[23] = 0x00; // rpm = 0x00001234
    p[24] = 0x00;
    p[25] = 0x12;
    p[26] = 0x34;
    p[27] = 0x02; // input_voltage = 0x0201 = 513
    p[28] = 0x01;
    p[54] = 0x89; // pid_pos = 0x89ABCDEF
    p[55] = 0xAB;
    p[56] = 0xCD;
    p[57] = 0xEF;
    let v = decode_values(&p).unwrap();
    assert_eq!(v.temp_motor, 321);
    assert_eq!(v.motor_current, 65536);
    assert_eq!(v.rpm, 0x1234);
    assert_eq!(v.input_voltage, 513);
    assert_eq!(v.pid_pos, 0x89ABCDEF);
    assert_eq!(v.fault, Fault::NoFault);
}

#[test]
fn telemetry_short_payload_rejected() {
    let p = vec![4u8; 57];
    assert_eq!(decode_values(&p), Err(Error::ParseError));
}

#[test]
fn telemetry_opcode_mismatch_rejected() {
    let mut p = values_payload();
    p[0] = 0;
    assert_eq!(decode_values(&p), Err(Error::ParseError));
}

#[test]
fn telemetry_unknown_fault_rejected() {
    let mut p = values_payload();
    p[53] = 7;
    assert_eq!(decode_values(&p), Err(Error::ParseError));
}
