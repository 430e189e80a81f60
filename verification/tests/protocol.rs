use etherdream_emulator::protocol::version_response;
use etherdream_emulator::protocol::Broadcast;
use etherdream_emulator::protocol::Command;
use etherdream_emulator::protocol::DacResponse;
use etherdream_emulator::protocol::DacStatus;
use etherdream_emulator::protocol::Point;
use etherdream_emulator::protocol::ResponseState;
use etherdream_emulator::protocol::BROADCAST_SIZE;
use etherdream_emulator::protocol::COMMAND_BEGIN;
use etherdream_emulator::protocol::COMMAND_DATA;
use etherdream_emulator::protocol::COMMAND_PREPARE;
use etherdream_emulator::protocol::POINT_SIZE;
use etherdream_emulator::protocol::RESPONSE_SIZE;
use etherdream_emulator::protocol::STATUS_SIZE;
use etherdream_emulator::protocol::VERSION_SIZE;

fn sample_status() -> DacStatus {
    DacStatus {
        protocol: 1,
        light_engine_state: 2,
        playback_state: 3,
        source: 4,
        light_engine_flags: 5,
        playback_flags: 6,
        source_flags: 7,
        buffer_fullness: 8,
        point_rate: 9,
        point_count: 10,
    }
}

#[test]
fn empty_status_has_every_field_zero() {
    let status = DacStatus::empty();
    assert_eq!(status.protocol, 0);
    assert_eq!(status.light_engine_state, 0);
    assert_eq!(status.playback_state, 0);
    assert_eq!(status.source, 0);
    assert_eq!(status.light_engine_flags, 0);
    assert_eq!(status.playback_flags, 0);
    assert_eq!(status.source_flags, 0);
    assert_eq!(status.buffer_fullness, 0);
    assert_eq!(status.point_rate, 0);
    assert_eq!(status.point_count, 0);
}

#[test]
fn empty_status_serializes_to_twenty_zero_bytes() {
    assert_eq!(DacStatus::empty().serialize(), vec![0u8; 20]);
    assert_eq!(STATUS_SIZE, 20);
}

#[test]
fn status_serializes_fields_in_order() {
    assert_eq!(
        sample_status().serialize(),
        vec![1, 2, 3, 4, 5, 0, 6, 0, 7, 0, 8, 0, 9, 0, 0, 0, 10, 0, 0, 0]
    );
}

#[test]
fn status_words_are_little_endian() {
    let status = DacStatus {
        protocol: 0xaa,
        light_engine_state: 0xbb,
        playback_state: 0xcc,
        source: 0xdd,
        light_engine_flags: 0x0102,
        playback_flags: 0x0304,
        source_flags: 0x0506,
        buffer_fullness: 0x1388,
        point_rate: 0x0a0b0c0d,
        point_count: 0xfffefdfc,
    };
    assert_eq!(
        status.serialize(),
        vec![
            0xaa, 0xbb, 0xcc, 0xdd, 0x02, 0x01, 0x04, 0x03, 0x06, 0x05, 0x88, 0x13, 0x0d, 0x0c,
            0x0b, 0x0a, 0xfc, 0xfd, 0xfe, 0xff
        ]
    );
}

#[test]
fn command_values_are_the_wire_bytes() {
    assert_eq!(Command::Begin { low_water_mark: 0, point_rate: 0 }.value(), 0x62);
    assert_eq!(Command::ClearEStop.value(), 0x63);
    assert_eq!(Command::EmergencyStop.value(), 0x00);
    assert_eq!(Command::Ping.value(), 0x3f);
    assert_eq!(Command::Prepare.value(), 0x70);
    assert_eq!(Command::QueueRateChange.value(), 0x74);
    assert_eq!(Command::Stop.value(), 0x73);
    assert_eq!(Command::Data { num_points: 3, points: Vec::new() }.value(), 0x64);
    assert_eq!(Command::Version.value(), 0x76);
    assert_eq!(Command::Unknown { command: 0x99 }.value(), 0x99);
}

#[test]
fn command_constants_match_values() {
    assert_eq!(COMMAND_BEGIN, 0x62);
    assert_eq!(COMMAND_DATA, 0x64);
    assert_eq!(COMMAND_PREPARE, 0x70);
}

#[test]
fn response_codes() {
    assert_eq!(ResponseState::Ack.code(), 0x61);
    assert_eq!(ResponseState::BufferFull.code(), 0x46);
    assert_eq!(ResponseState::InvalidCommand.code(), 0x49);
    assert_eq!(ResponseState::Stop.code(), 0x21);
}

#[test]
fn ping_ack_with_empty_status() {
    let bytes = DacResponse::new(ResponseState::Ack, 0x3f, DacStatus::empty()).serialize();
    let mut expected = vec![0x61u8, 0x3f];
    expected.extend(vec![0u8; 20]);
    assert_eq!(bytes, expected);
}

#[test]
fn response_is_code_echo_and_status() {
    for (state, code) in [
        (ResponseState::Ack, 0x61u8),
        (ResponseState::BufferFull, 0x46),
        (ResponseState::InvalidCommand, 0x49),
        (ResponseState::Stop, 0x21),
    ] {
        let bytes = DacResponse::new(state, 0x64, sample_status()).serialize();
        assert_eq!(bytes.len(), RESPONSE_SIZE);
        assert_eq!(bytes.len(), 22);
        assert_eq!(bytes[0], code);
        assert_eq!(bytes[1], 0x64);
        assert_eq!(&bytes[2..], &sample_status().serialize()[..]);
    }
}

#[test]
fn response_reports_fullness_in_bytes_12_and_13() {
    let mut status = DacStatus::empty();
    status.buffer_fullness = 5000;
    let bytes = DacResponse::new(ResponseState::Ack, 0x64, status).serialize();
    assert_eq!(bytes[12], 0x88);
    assert_eq!(bytes[13], 0x13);
}

#[test]
fn version_response_is_padded_to_32_bytes() {
    let bytes = version_response();
    let mut expected = vec![0x76u8, 0x30, 0x2e, 0x30, 0x2e, 0x31];
    expected.extend(vec![0u8; 26]);
    assert_eq!(bytes.len(), VERSION_SIZE);
    assert_eq!(bytes, expected);
    assert_eq!(&bytes[..6], b"v0.0.1");
}

#[test]
fn point_serializes_to_eighteen_little_endian_bytes() {
    let point = Point {
        control: 0x0102,
        x: 0x0304,
        y: 0x0506,
        i: 0x0708,
        r: 0x090a,
        g: 0x0b0c,
        b: 0x0d0e,
        u1: 0x0f10,
        u2: 0x1112,
    };
    assert_eq!(
        point.serialize(),
        vec![
            0x02, 0x01, 0x04, 0x03, 0x06, 0x05, 0x08, 0x07, 0x0a, 0x09, 0x0c, 0x0b, 0x0e, 0x0d,
            0x10, 0x0f, 0x12, 0x11
        ]
    );
    assert_eq!(POINT_SIZE, 18);
}

#[test]
fn point_coordinates_are_twos_complement() {
    let point = Point { control: 0, x: -1, y: -32768, i: 0, r: 0, g: 0, b: 0, u1: 0, u2: 0 };
    let bytes = point.serialize();
    assert_eq!(&bytes[2..4], &[0xff, 0xff]);
    assert_eq!(&bytes[4..6], &[0x00, 0x80]);
    let point = Point { control: 0, x: 32767, y: -2, i: 0, r: 0, g: 0, b: 0, u1: 0, u2: 0 };
    let bytes = point.serialize();
    assert_eq!(&bytes[2..4], &[0xff, 0x7f]);
    assert_eq!(&bytes[4..6], &[0xfe, 0xff]);
}

#[test]
fn new_broadcast_is_all_zero() {
    let broadcast = Broadcast::new();
    assert!(broadcast.mac_address.is_empty());
    assert_eq!(broadcast.hw_revision, 0);
    assert_eq!(broadcast.sw_revision, 0);
    assert_eq!(broadcast.buffer_capacity, 0);
    assert_eq!(broadcast.max_point_rate, 0);
    assert_eq!(broadcast.status, DacStatus::empty());
    assert_eq!(broadcast.serialize(), vec![0u8; 36]);
}

#[test]
fn beacon_layout() {
    let broadcast = Broadcast {
        mac_address: vec![1, 2, 3, 4, 5, 255],
        hw_revision: 9000,
        sw_revision: 8000,
        buffer_capacity: 1000,
        max_point_rate: 1234567890,
        status: sample_status(),
    };
    let bytes = broadcast.serialize();
    assert_eq!(bytes.len(), 36);
    assert_eq!(bytes.len(), BROADCAST_SIZE);
    assert_eq!(&bytes[0..6], &[1, 2, 3, 4, 5, 255]);
    assert_eq!(&bytes[6..8], &[0x28, 0x23]);
    assert_eq!(&bytes[8..10], &[0x40, 0x1f]);
    assert_eq!(&bytes[10..12], &[0xe8, 0x03]);
    assert_eq!(&bytes[12..16], &[0xd2, 0x02, 0x96, 0x49]);
    assert_eq!(&bytes[16..36], &sample_status().serialize()[..]);
}

#[test]
fn beacon_carries_six_address_bytes_whatever_is_configured() {
    let mut broadcast = Broadcast::new();
    broadcast.mac_address = vec![0xaa, 0xbb];
    broadcast.hw_revision = 0x0102;
    let bytes = broadcast.serialize();
    assert_eq!(bytes.len(), 36);
    assert_eq!(&bytes[0..8], &[0xaa, 0xbb, 0, 0, 0, 0, 0x02, 0x01]);

    broadcast.mac_address = vec![1, 2, 3, 4, 5, 6, 7, 8];
    let bytes = broadcast.serialize();
    assert_eq!(bytes.len(), 36);
    assert_eq!(&bytes[0..8], &[1, 2, 3, 4, 5, 6, 0x02, 0x01]);
}
