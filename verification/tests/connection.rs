//! Connection-level tests: full request/response transactions over the
//! in-memory transport.

use vesc_comm::frame::serialize_frame;
use vesc_comm::responses::Fault;
use vesc_comm::transport::MemoryTransport;
use vesc_comm::Error;
use vesc_comm::VescConnection;

fn fw_response_frame() -> Vec<u8> {
    let mut p = vec![0x00u8, 0x03, 0x28, b'6', b'0', 0, 0, 0, 0, 0, 0, 0, 0];
    p.extend_from_slice(&[1, 2, 3, 4, 5, 6, 7, 8, 9, 10, 11, 12]);
    serialize_frame(&p)
}

fn values_response_frame() -> Vec<u8> {
    let mut p = vec![0u8; 58];
    p[0] = 4;
    p[1] = 0x00;
    p[2] = 0x64;
    p[53] = 0x02;
    serialize_frame(&p)
}

#[test]
fn get_fw_version_transaction() {
    let reader = MemoryTransport::new(fw_response_frame());
    let writer = MemoryTransport::new(Vec::new());
    let mut conn = VescConnection::new(reader, writer);

    let fw = conn.get_fw_version().unwrap();
    assert_eq!(fw.major, 3);
    assert_eq!(fw.minor, 40);
    assert_eq!(&fw.hw[..2], b"60");
    assert_eq!(fw.uuid, [1, 2, 3, 4, 5, 6, 7, 8, 9, 10, 11, 12]);

    // Exactly one command frame went out: the framed one-byte FwVersion
    // opcode.
    assert_eq!(conn.writer().written(), &serialize_frame(&vec![0u8]));
    // The whole response frame was consumed.
    assert_eq!(conn.reader().remaining(), 0);
}

#[test]
fn get_values_transaction() {
    let reader = MemoryTransport::new(values_response_frame());
    let writer = MemoryTransport::new(Vec::new());
    let mut conn = VescConnection::new(reader, writer);

    let v = conn.get_values().unwrap();
    assert_eq!(v.temp_fet, 100);
    assert_eq!(v.fault, Fault::UnderVoltage);
    assert_eq!(conn.writer().written(), &serialize_frame(&vec![4u8]));
    assert_eq!(conn.reader().remaining(), 0);
}

#[test]
fn get_values_long_framed_response() {
    // The same telemetry payload framed with the two-byte length field.
    let short = values_response_frame();
    let mut long = vec![0x03u8, 0x00, 58];
    long.extend_from_slice(&short[2..]);
    let reader = MemoryTransport::new(long);
    let writer = MemoryTransport::new(Vec::new());
    let mut conn = VescConnection::new(reader, writer);

    let v = conn.get_values().unwrap();
    assert_eq!(v.temp_fet, 100);
    assert_eq!(conn.reader().remaining(), 0);
}

#[test]
fn opcode_echo_mismatch_is_parse_error() {
    // A perfectly framed response whose payload answers a different command.
    let mut p = vec![0u8; 58];
    p[0] = 4;
    let frame = serialize_frame(&p);
    let reader = MemoryTransport::new(frame);
    let writer = MemoryTransport::new(Vec::new());
    let mut conn = VescConnection::new(reader, writer);

    assert_eq!(conn.get_fw_version().unwrap_err(), Error::ParseError);
}

#[test]
fn corrupted_response_is_checksum_error() {
    let mut frame = fw_response_frame();
    let crc_pos = frame.len() - 3;
    frame[crc_pos] ^= 0x01;
    let reader = MemoryTransport::new(frame);
    let writer = MemoryTransport::new(Vec::new());
    let mut conn = VescConnection::new(reader, writer);

    assert_eq!(conn.get_fw_version().unwrap_err(), Error::ChecksumError);
}

#[test]
fn exhausted_transport_is_io_error() {
    let mut frame = fw_response_frame();
    frame.pop();
    let reader = MemoryTransport::new(frame);
    let writer = MemoryTransport::new(Vec::new());
    let mut conn = VescConnection::new(reader, writer);

    assert_eq!(conn.get_fw_version().unwrap_err(), Error::IoError);
}

#[test]
fn bad_response_start_marker_is_io_error() {
    let mut frame = fw_response_frame();
    frame[0] = 0x7F;
    let reader = MemoryTransport::new(frame);
    let writer = MemoryTransport::new(Vec::new());
    let mut conn = VescConnection::new(reader, writer);

    assert_eq!(conn.get_fw_version().unwrap_err(), Error::IoError);
}

#[test]
fn set_current_fire_and_forget() {
    // Preload the reader to show that the call never touches it.
    let reader = MemoryTransport::new(vec![0xAAu8, 0xBB]);
    let writer = MemoryTransport::new(Vec::new());
    let mut conn = VescConnection::new(reader, writer);

    conn.set_current(100_000).unwrap();

    let expected_payload = vec![6u8, 0x00, 0x01, 0x86, 0xA0];
    let written = conn.writer().written();
    assert_eq!(written, &serialize_frame(&expected_payload));
    assert_eq!(&written[..7], &[0x02, 5, 6, 0x00, 0x01, 0x86, 0xA0]);
    assert_eq!(*written.last().unwrap(), 0x03);
    assert_eq!(written.len(), 10);
    assert_eq!(conn.reader().remaining(), 2);
}

#[test]
fn pending_transport_is_retried_until_ready() {
    let reader = MemoryTransport::with_pending(fw_response_frame(), 5);
    let writer = MemoryTransport::with_pending(Vec::new(), 3);
    let mut conn = VescConnection::new(reader, writer);

    let fw = conn.get_fw_version().unwrap();
    assert_eq!(fw.major, 3);
    assert_eq!(conn.writer().written(), &serialize_frame(&vec![0u8]));
}
