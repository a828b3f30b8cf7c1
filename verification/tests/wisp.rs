use asspp_core::wisp::{
    is_loopback, is_pod_host, make_close_packet, make_continue_packet, make_data_packet,
    parse_connect, parse_packet, validate_wisp_target, CloseReason, StreamType, WispPacketType,
};

#[test]
fn test_parse_packet() {
    let mut data = vec![0x01]; // CONNECT
    data.extend_from_slice(&1u32.to_le_bytes()); // stream_id = 1
    data.extend_from_slice(b"payload");

    let (ptype, stream_id, payload) = parse_packet(&data).unwrap();
    assert_eq!(ptype, WispPacketType::Connect);
    assert_eq!(stream_id, 1);
    assert_eq!(payload, b"payload");
}

#[test]
fn test_parse_packet_too_short() {
    assert!(parse_packet(&[0x01, 0x00]).is_none());
}

#[test]
fn parse_packet_edges() {
    assert!(parse_packet(&[]).is_none());
    assert!(parse_packet(&[0x00, 1, 0, 0, 0]).is_none());
    assert!(parse_packet(&[0x05, 1, 0, 0, 0]).is_none());
    let (kind, id, payload) = parse_packet(&[0x04, 0x78, 0x56, 0x34, 0x12]).unwrap();
    assert_eq!(kind, WispPacketType::Close);
    assert_eq!(id, 0x12345678);
    assert!(payload.is_empty());
    let (_, id, _) = parse_packet(&[0x03, 0xff, 0xff, 0xff, 0xff, 9]).unwrap();
    assert_eq!(id, u32::MAX);
}

#[test]
fn test_parse_connect() {
    let mut payload = vec![0x01]; // TCP
    payload.extend_from_slice(&443u16.to_le_bytes()); // port
    payload.extend_from_slice(b"buy.itunes.apple.com");

    let conn = parse_connect(&payload).unwrap();
    assert_eq!(conn.stream_type, StreamType::Tcp);
    assert_eq!(conn.port, 443);
    assert_eq!(conn.hostname, "buy.itunes.apple.com");
}

#[test]
fn parse_connect_edges() {
    assert!(parse_connect(&[0x01, 0xbb, 0x01]).is_none());
    assert!(parse_connect(&[0x03, 0xbb, 0x01, b'a']).is_none());
    assert!(parse_connect(&[0x02, 0xbb, 0x01, 0xff]).is_none());
    let conn = parse_connect(&[0x02, 0xff, 0xff, 0xc3, 0xa9]).unwrap();
    assert_eq!(conn.stream_type, StreamType::Udp);
    assert_eq!(conn.port, 65535);
    assert_eq!(conn.hostname, "\u{e9}");
}

#[test]
fn test_make_data_packet() {
    let packet = make_data_packet(42, b"hello");
    assert_eq!(packet[0], WispPacketType::Data.to_u8());
    let stream_id = u32::from_le_bytes([packet[1], packet[2], packet[3], packet[4]]);
    assert_eq!(stream_id, 42);
    assert_eq!(&packet[5..], b"hello");
}

#[test]
fn test_make_continue_packet() {
    let packet = make_continue_packet(1, 1024);
    assert_eq!(packet[0], WispPacketType::Continue.to_u8());
    let remaining = u32::from_le_bytes([packet[5], packet[6], packet[7], packet[8]]);
    assert_eq!(remaining, 1024);
}

#[test]
fn test_make_close_packet() {
    let packet = make_close_packet(1, CloseReason::Voluntary);
    assert_eq!(packet[0], WispPacketType::Close.to_u8());
    assert_eq!(packet[5], CloseReason::Voluntary.to_u8());
}

#[test]
fn packets_byte_for_byte() {
    assert_eq!(make_data_packet(0x01020304, &[9, 8]), vec![0x02, 4, 3, 2, 1, 9, 8]);
    assert_eq!(make_continue_packet(1, 0x0a0b0c0d), vec![0x03, 1, 0, 0, 0, 0x0d, 0x0c, 0x0b, 0x0a]);
    assert_eq!(
        make_close_packet(u32::MAX, CloseReason::ConnectionRefused),
        vec![0x04, 0xff, 0xff, 0xff, 0xff, 0x47]
    );
    assert_eq!(WispPacketType::Connect.to_u8(), 0x01);
    assert_eq!(StreamType::Tcp.to_u8(), 0x01);
    assert_eq!(StreamType::Udp.to_u8(), 0x02);
    assert_eq!(CloseReason::Unknown.to_u8(), 0x01);
    assert_eq!(CloseReason::Timeout.to_u8(), 0x06);
    assert_eq!(CloseReason::ServerRefused.to_u8(), 0x41);
    assert_eq!(CloseReason::ConnectionResetByPeer.to_u8(), 0x45);
    assert_eq!(WispPacketType::from_u8(0x03), Some(WispPacketType::Continue));
    assert_eq!(WispPacketType::from_u8(0), None);
    assert_eq!(StreamType::from_u8(0x03), None);
}

#[test]
fn test_validate_wisp_target_allowed() {
    assert!(validate_wisp_target("auth.itunes.apple.com", 443).is_ok());
    assert!(validate_wisp_target("buy.itunes.apple.com", 443).is_ok());
    assert!(validate_wisp_target("init.itunes.apple.com", 443).is_ok());
    assert!(validate_wisp_target("p25-buy.itunes.apple.com", 443).is_ok());
    assert!(validate_wisp_target("p1-buy.itunes.apple.com", 443).is_ok());
    assert!(validate_wisp_target("p999-buy.itunes.apple.com", 443).is_ok());
}

#[test]
fn test_validate_wisp_target_wrong_port() {
    let err = validate_wisp_target("buy.itunes.apple.com", 80).unwrap_err();
    assert!(err.contains("443"));
}

#[test]
fn test_validate_wisp_target_blocked_host() {
    assert!(validate_wisp_target("evil.com", 443).is_err());
    assert!(validate_wisp_target("apple.com", 443).is_err()); // not in whitelist
}

#[test]
fn test_validate_wisp_target_ip_blocked() {
    assert!(validate_wisp_target("1.2.3.4", 443).is_err());
    assert!(validate_wisp_target("::1", 443).is_err());
}

#[test]
fn test_validate_wisp_target_loopback_blocked() {
    assert!(validate_wisp_target("localhost", 443).is_err());
    assert!(validate_wisp_target("127.0.0.1", 443).is_err());
}

#[test]
fn wisp_target_messages() {
    assert_eq!(
        validate_wisp_target("1.2.3.4", 80).unwrap_err(),
        "Port 80 is not allowed (only 443)"
    );
    assert_eq!(
        validate_wisp_target("x", 65535).unwrap_err(),
        "Port 65535 is not allowed (only 443)"
    );
    assert_eq!(validate_wisp_target("x", 0).unwrap_err(), "Port 0 is not allowed (only 443)");
    assert_eq!(
        validate_wisp_target("127.0.0.1", 443).unwrap_err(),
        "Direct IP targets are not allowed"
    );
    assert_eq!(
        validate_wisp_target("localhost", 443).unwrap_err(),
        "Loopback targets are not allowed"
    );
    assert_eq!(
        validate_wisp_target("a.localhost", 443).unwrap_err(),
        "Loopback targets are not allowed"
    );
    assert_eq!(
        validate_wisp_target("[::1]", 443).unwrap_err(),
        "Loopback targets are not allowed"
    );
    assert_eq!(
        validate_wisp_target("evil.com", 443).unwrap_err(),
        "Hostname evil.com is not in the whitelist"
    );
}

#[test]
fn pod_hosts_and_loopback() {
    assert!(is_pod_host("p0-buy.itunes.apple.com"));
    assert!(is_pod_host("p0123456789-buy.itunes.apple.com"));
    assert!(!is_pod_host("p-buy.itunes.apple.com"));
    assert!(!is_pod_host("p1a-buy.itunes.apple.com"));
    assert!(!is_pod_host("q1-buy.itunes.apple.com"));
    assert!(!is_pod_host("p1-buy.itunes.apple.com.evil"));
    assert!(!is_pod_host("p1-2-buy.itunes.apple.com"));
    assert!(!is_pod_host("buy.itunes.apple.com"));
    assert!(!is_pod_host(""));
    assert!(is_loopback("::1"));
    assert!(is_loopback("x.localhost"));
    assert!(!is_loopback("localhost.evil"));
}

#[test]
fn test_roundtrip_data_packet() {
    let packet = make_data_packet(7, b"test data");
    let (ptype, stream_id, payload) = parse_packet(&packet).unwrap();
    assert_eq!(ptype, WispPacketType::Data);
    assert_eq!(stream_id, 7);
    assert_eq!(payload, b"test data");
}
