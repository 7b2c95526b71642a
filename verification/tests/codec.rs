//! Tests of the wire format: single-value and whole-packet round trips,
//! greedy decoding of concatenated packets, and rejection of malformed or
//! out-of-range input.
use prandtl::codec::{
    decode_packets, encode_packet, encode_percentage, encode_rpm, parse_packet, parse_percentage,
    parse_rpm,
};
use prandtl::packet::{
    AcceptConnectionPacket, LogString, Packet, ReportControlTargetsPacket, ReportLogLinePacket,
    ReportSensorsPacket, RequestConnectionPacket,
};
use prandtl::percentage::Percentage;
use prandtl::rpm::Rpm;
use prandtl::valve::ValveState;

fn sensors_packet() -> Packet {
    Packet::ReportSensors(ReportSensorsPacket {
        fan_speed_rpm: Rpm::new(180000, 90000).expect("Failed to get RPM"),
        pump_speed_rpm: Rpm::new(200000, 100000).expect("Failed to get RPM"),
        valve_state: ValveState::Open,
    })
}

fn targets_packet() -> Packet {
    Packet::ReportControlTargets(ReportControlTargetsPacket {
        fan_control_percent: Percentage::new(200).expect("Failed to get Percentage"),
        pump_control_percent: Percentage::new(600).expect("Failed to get Percentage"),
        valve_control_state: ValveState::Closed,
    })
}

#[test]
fn test_percentage_round_trip() {
    // Every percentage survives the wire bit-identically.
    for eighths in [0i16, 1, 397, 799, 800] {
        let percent = Percentage::new(eighths).expect("Failed to get Percentage");
        let mut buffer: Vec<u8> = Vec::new();
        encode_percentage(&percent, &mut buffer);
        let (decoded, used) = parse_percentage(&buffer, 0).expect("Failed to parse percentage");
        assert_eq!(decoded, percent);
        assert_eq!(used, buffer.len());
    }
}

#[test]
fn test_rpm_serialization() {
    // 2000 RPM maximum at 1000.55 RPM, in hundredths of an RPM.
    let rpm = Rpm::new(200000, 100055).expect("Failed to get RPM representation");

    let mut buffer: Vec<u8> = Vec::new();
    encode_rpm(&rpm, &mut buffer);
    let (rpm_deser, used) = parse_rpm(&buffer, 0).expect("Failed to deserialize RPM");

    assert_eq!(rpm_deser.max_speed(), 200000);
    assert_eq!(rpm_deser.speed(), 100055);
    assert_eq!(used, buffer.len());
}

#[test]
fn test_rpm_round_trip_extremes() {
    for (max, speed) in [(0u32, 0u32), (u32::MAX, u32::MAX), (u32::MAX, 0), (1, 1)] {
        let rpm = Rpm::new(max, speed).expect("Failed to get RPM");
        let mut buffer: Vec<u8> = Vec::new();
        encode_rpm(&rpm, &mut buffer);
        let (decoded, used) = parse_rpm(&buffer, 0).expect("Failed to parse RPM");
        assert_eq!(decoded, rpm);
        assert_eq!(used, buffer.len());
    }
}

#[test]
fn test_packet_round_trips() {
    let log_line = LogString::new(vec![104, 105, 33]).expect("Failed to get LogString");
    let packets = vec![
        Packet::RequestConnection(RequestConnectionPacket::new()),
        Packet::AcceptConnection(AcceptConnectionPacket::new()),
        sensors_packet(),
        targets_packet(),
        Packet::ReportLogLine(ReportLogLinePacket { log_line }),
    ];
    for packet in packets {
        let encoded = encode_packet(&packet);
        assert!(encoded.len() <= 128);
        let (decoded, used) = parse_packet(&encoded, 0).expect("Failed to parse packet");
        assert_eq!(decoded, packet);
        assert_eq!(used, encoded.len());
    }
}

#[test]
fn test_decode_concatenation() {
    // Two complete packets followed by a torn prefix of a third: greedy
    // decoding returns both packets and hands the torn bytes back.
    let p1 = sensors_packet();
    let p2 = targets_packet();
    let mut buffer = encode_packet(&p1);
    buffer.extend_from_slice(&encode_packet(&p2));
    let torn = &encode_packet(&sensors_packet())[0..3];
    buffer.extend_from_slice(torn);

    let (packets, remainder) = decode_packets(&buffer);
    assert_eq!(packets.len(), 2);
    assert_eq!(packets[0], p1);
    assert_eq!(packets[1], p2);
    assert_eq!(remainder, torn.to_vec());
}

#[test]
fn test_decode_empty_and_partial() {
    let (packets, remainder) = decode_packets(&[]);
    assert!(packets.is_empty());
    assert!(remainder.is_empty());

    // A lone partial packet is retained for the next read, not an error.
    let encoded = encode_packet(&sensors_packet());
    let partial = &encoded[0..encoded.len() - 1];
    let (packets, remainder) = decode_packets(partial);
    assert!(packets.is_empty());
    assert_eq!(remainder, partial.to_vec());
}

#[test]
fn test_decode_rejects_unknown_tag() {
    let buffer = [9u8, 0, 0, 0];
    let (packets, remainder) = decode_packets(&buffer);
    assert!(packets.is_empty());
    assert_eq!(remainder, buffer.to_vec());
}

#[test]
fn test_decode_rejects_wrong_magic() {
    // Tag of a connection request followed by eight wrong bytes.
    let buffer = [0u8, 97, 98, 50, 100, 119, 97, 115, 0];
    assert!(parse_packet(&buffer, 0).is_none());
}

#[test]
fn test_decode_rejects_out_of_range_percentage() {
    // Tag of a control-target packet, then the encoding of 100.25 percent:
    // zigzag of 802 eighths is 1604, encoded as the two bytes below.
    let buffer = [3u8, 196, 12, 196, 12, 0];
    assert!(parse_packet(&buffer, 0).is_none());
}

#[test]
fn test_decode_rejects_speed_above_maximum() {
    // Tag of a sensor report, then a fan RPM whose speed 5 exceeds its
    // maximum 3.
    let buffer = [2u8, 3, 5, 3, 5, 0];
    assert!(parse_packet(&buffer, 0).is_none());
}

#[test]
fn test_log_string_capacity() {
    assert!(LogString::new(vec![0; 8]).is_some());
    assert!(LogString::new(vec![0; 9]).is_none());
}

#[test]
fn test_connection_magic_on_wire() {
    // Both handshake packets carry the literal eight-byte magic after their
    // tag, so future hosts can round-trip it on connect.
    let request = encode_packet(&RequestConnectionPacket::new_packet());
    assert_eq!(request, vec![0u8, 97, 98, 50, 100, 119, 97, 115, 107]);
    let accept = encode_packet(&AcceptConnectionPacket::new_packet());
    assert_eq!(accept, vec![1u8, 97, 98, 50, 100, 119, 97, 115, 107]);
}
