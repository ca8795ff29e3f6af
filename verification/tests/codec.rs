use rcon::error::Error;
use rcon::packet::{Packet, PacketType};

fn frame(length: i32, id: i32, raw_type: i32, body: &[u8], terminators: &[u8]) -> Vec<u8> {
    let mut f = Vec::new();
    f.extend_from_slice(&length.to_le_bytes());
    f.extend_from_slice(&id.to_le_bytes());
    f.extend_from_slice(&raw_type.to_le_bytes());
    f.extend_from_slice(body);
    f.extend_from_slice(terminators);
    f
}

#[test]
fn serialize_exec_command_exact_bytes() {
    let p = Packet::new(5, PacketType::ExecCommand, String::from("list"));
    let buf = p.serialize();
    let expected = vec![
        14, 0, 0, 0, // length = 10 + 4, little-endian
        5, 0, 0, 0, // id
        2, 0, 0, 0, // ExecCommand raw value
        b'l', b'i', b's', b't', // body
        0, 0, // terminators
    ];
    assert_eq!(buf, expected);
}

#[test]
fn serialize_empty_body() {
    let p = Packet::new(7, PacketType::Auth, String::new());
    let buf = p.serialize();
    let expected = vec![10, 0, 0, 0, 7, 0, 0, 0, 3, 0, 0, 0, 0, 0];
    assert_eq!(buf, expected);
}

#[test]
fn serialize_negative_id() {
    let p = Packet::new(-1, PacketType::ResponseValue, String::from("x"));
    let buf = p.serialize();
    let expected = vec![11, 0, 0, 0, 0xff, 0xff, 0xff, 0xff, 0, 0, 0, 0, b'x', 0, 0];
    assert_eq!(buf, expected);
}

#[test]
fn round_trip_response_types() {
    let cases = vec![
        (0, PacketType::Auth, String::from("secret")),
        (1, PacketType::AuthResponse, String::new()),
        (250, PacketType::ResponseValue, String::from("players online: 3")),
        (-7, PacketType::ResponseValue, String::from("nope")),
        (42, PacketType::Unknown(99), String::from("forward-compatible")),
        (3, PacketType::ResponseValue, String::from("héllo → wörld ✓")),
    ];
    for (id, ptype, body) in cases {
        let p = Packet::new(id, ptype, body.clone());
        let buf = p.serialize();
        let q = Packet::deserialize(&buf).expect("round trip must decode");
        assert_eq!(q.get_id(), id);
        assert_eq!(q.get_type(), ptype);
        assert_eq!(q.get_body(), body);
    }
}

#[test]
fn round_trip_exec_command_reads_back_as_auth_response() {
    // The raw value 2 is overloaded: outbound it means ExecCommand, inbound
    // it always decodes as AuthResponse.
    let p = Packet::new(9, PacketType::ExecCommand, String::from("say hi"));
    let q = Packet::deserialize(&p.serialize()).unwrap();
    assert_eq!(q.get_id(), 9);
    assert_eq!(q.get_type(), PacketType::AuthResponse);
    assert_eq!(q.get_body(), "say hi");
}

#[test]
fn type_overload_by_direction() {
    assert_eq!(PacketType::from_i32(2, true), PacketType::AuthResponse);
    assert_eq!(PacketType::from_i32(2, false), PacketType::ExecCommand);
    assert_eq!(PacketType::from_i32(3, true), PacketType::Auth);
    assert_eq!(PacketType::from_i32(3, false), PacketType::Auth);
    assert_eq!(PacketType::from_i32(0, true), PacketType::ResponseValue);
    assert_eq!(PacketType::from_i32(0, false), PacketType::ResponseValue);
}

#[test]
fn unknown_type_carries_exact_raw_value() {
    for n in [-1, 1, 4, 5, 1000, i32::MIN, i32::MAX] {
        assert_eq!(PacketType::from_i32(n, true), PacketType::Unknown(n));
        assert_eq!(PacketType::from_i32(n, false), PacketType::Unknown(n));
    }
    assert_eq!(PacketType::Unknown(99).to_i32(), 99);
}

#[test]
fn is_error_iff_negative_id() {
    assert!(Packet::new(-1, PacketType::AuthResponse, String::new()).is_error());
    assert!(Packet::new(-1, PacketType::ResponseValue, String::from("body")).is_error());
    assert!(Packet::new(-5, PacketType::Unknown(17), String::new()).is_error());
    assert!(!Packet::new(0, PacketType::AuthResponse, String::new()).is_error());
    assert!(!Packet::new(1, PacketType::Auth, String::from("x")).is_error());
}

#[test]
fn deserialize_short_header_is_io_error() {
    let f = vec![10, 0, 0, 0, 1, 0, 0];
    assert_eq!(Packet::deserialize(&f).unwrap_err(), Error::Io);
    assert_eq!(Packet::deserialize(&Vec::new()).unwrap_err(), Error::Io);
}

#[test]
fn deserialize_length_under_ten_is_decode_error() {
    let f = frame(9, 1, 0, b"", &[0, 0, 0, 0, 0]);
    assert_eq!(Packet::deserialize(&f).unwrap_err(), Error::Decode);
    let f = frame(-1, 1, 0, b"", &[0, 0, 0, 0, 0, 0, 0, 0, 0, 0, 0]);
    assert_eq!(Packet::deserialize(&f).unwrap_err(), Error::Decode);
}

#[test]
fn deserialize_truncated_frame_is_io_error() {
    // Announces a 4-byte body but the stream ended after one body byte.
    let f = frame(14, 1, 0, b"a", &[]);
    assert_eq!(Packet::deserialize(&f).unwrap_err(), Error::Io);
}

#[test]
fn deserialize_overlong_frame_is_decode_error() {
    let f = frame(10, 1, 0, b"", &[0, 0, 0]);
    assert_eq!(Packet::deserialize(&f).unwrap_err(), Error::Decode);
}

#[test]
fn deserialize_invalid_utf8_is_decode_error() {
    let f = frame(12, 1, 0, &[0xff, 0xfe], &[0, 0]);
    assert_eq!(Packet::deserialize(&f).unwrap_err(), Error::Decode);
}

#[test]
fn deserialize_reads_type_in_response_context() {
    let f = frame(10, 4, 2, b"", &[0, 0]);
    let p = Packet::deserialize(&f).unwrap();
    assert_eq!(p.get_type(), PacketType::AuthResponse);
}

#[test]
fn deserialize_multibyte_utf8_body() {
    let body = "κόσμε";
    let bytes = body.as_bytes();
    let f = frame(10 + bytes.len() as i32, 2, 0, bytes, &[0, 0]);
    let p = Packet::deserialize(&f).unwrap();
    assert_eq!(p.get_body(), body);
    assert_eq!(p.get_id(), 2);
}

#[test]
fn deserialize_ignores_terminator_values() {
    // The two trailing bytes are consumed without inspection.
    let f = frame(11, 1, 0, b"a", &[7, 7]);
    let p = Packet::deserialize(&f).unwrap();
    assert_eq!(p.get_body(), "a");
}
