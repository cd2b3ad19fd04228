use dhcp_forwarder::capture::{classify, CaptureEvent, CaptureStep, PacketCapture};
use std::time::{Duration, SystemTime};

/// A frame with an Ethernet header, an IPv4 header of `ihl` words, a UDP
/// header with the given ports, and a payload.
fn build_frame(ihl: u8, src: u16, dst: u16, payload: &[u8]) -> Vec<u8> {
    let ip_len = ihl as usize * 4;
    let mut frame = vec![0u8; 14 + ip_len + 8];
    frame[12] = 0x08;
    frame[13] = 0x00;
    frame[14] = 0x40 | ihl;
    frame[23] = 17;
    let udp = 14 + ip_len;
    frame[udp..udp + 2].copy_from_slice(&src.to_be_bytes());
    frame[udp + 2..udp + 4].copy_from_slice(&dst.to_be_bytes());
    frame.extend_from_slice(payload);
    frame
}

fn matches_dhcp(frame: &[u8]) -> bool {
    classify(frame, SystemTime::UNIX_EPOCH).is_some()
}

#[test]
fn test_packet_capture_creation() {
    let capture = PacketCapture::new("eth0".to_string());
    assert_eq!(capture.interface(), "eth0");
}

#[test]
fn classify_matches_client_to_server() {
    let frame = build_frame(5, 68, 67, b"DHCP_TEST_DATA");
    assert_eq!(frame.len(), 56);
    let at = SystemTime::UNIX_EPOCH + Duration::from_secs(1_700_000_000);
    let packet = classify(&frame, at).expect("a DHCP frame");
    assert_eq!(packet.data, frame);
    assert_eq!(packet.timestamp, at);
}

#[test]
fn classify_matches_server_to_client() {
    let frame = build_frame(5, 67, 68, b"reply");
    let packet = classify(&frame, SystemTime::UNIX_EPOCH).expect("a DHCP frame");
    assert_eq!(packet.data, frame);
}

#[test]
fn classify_rejects_other_destination_port() {
    let mut frame = build_frame(5, 68, 67, b"DHCP_TEST_DATA");
    frame[36] = 0x00;
    frame[37] = 0x50;
    assert!(!matches_dhcp(&frame));
}

#[test]
fn classify_rejects_port_pairs_that_are_not_an_exchange() {
    assert!(!matches_dhcp(&build_frame(5, 67, 67, b"x")));
    assert!(!matches_dhcp(&build_frame(5, 68, 68, b"x")));
    assert!(!matches_dhcp(&build_frame(5, 67, 1024, b"x")));
    assert!(!matches_dhcp(&build_frame(5, 1024, 68, b"x")));
    assert!(!matches_dhcp(&build_frame(5, 53, 53, b"x")));
    assert!(!matches_dhcp(&build_frame(5, 68 + 256, 67, b"x")));
    assert!(!matches_dhcp(&build_frame(5, 68, 67 + 256, b"x")));
}

#[test]
fn classify_rejects_short_frames() {
    let frame = build_frame(5, 68, 67, b"");
    assert_eq!(frame.len(), 42);
    assert!(matches_dhcp(&frame));
    for len in 0..42 {
        assert!(!matches_dhcp(&frame[..len]), "length {}", len);
    }
}

#[test]
fn classify_rejects_other_ethertypes() {
    let mut frame = build_frame(5, 68, 67, b"DHCP_TEST_DATA");
    frame[12] = 0x86;
    frame[13] = 0xdd;
    assert!(!matches_dhcp(&frame));
    frame[12] = 0x81;
    frame[13] = 0x00;
    assert!(!matches_dhcp(&frame));
    frame[12] = 0x08;
    frame[13] = 0x06;
    assert!(!matches_dhcp(&frame));
    frame[12] = 0x00;
    frame[13] = 0x08;
    assert!(!matches_dhcp(&frame));
}

#[test]
fn classify_rejects_other_protocols() {
    let mut frame = build_frame(5, 68, 67, b"DHCP_TEST_DATA");
    frame[23] = 6;
    assert!(!matches_dhcp(&frame));
    frame[23] = 1;
    assert!(!matches_dhcp(&frame));
    frame[23] = 17;
    assert!(matches_dhcp(&frame));
}

#[test]
fn classify_reads_the_header_length() {
    let frame = build_frame(6, 68, 67, b"DHCP_TEST_DATA");
    assert_eq!(frame[14], 0x46);
    assert_eq!(&frame[38..42], &[0x00, 0x44, 0x00, 0x43]);
    assert!(matches_dhcp(&frame));

    // The ports of an exchange where a 20-byte header would end, but the
    // header is 24 bytes long and other ports follow it.
    let mut shifted = build_frame(6, 1000, 2000, b"DHCP_TEST_DATA");
    shifted[34..38].copy_from_slice(&[0x00, 0x44, 0x00, 0x43]);
    assert!(!matches_dhcp(&shifted));
}

#[test]
fn classify_ignores_the_version_bits() {
    let mut frame = build_frame(5, 68, 67, b"abc");
    frame[14] = 0xf5;
    assert!(matches_dhcp(&frame));
}

#[test]
fn classify_rechecks_length_against_the_real_header() {
    // 42 bytes pass the first test, but a 60-byte IPv4 header needs 82.
    let long = build_frame(15, 68, 67, b"");
    assert_eq!(long.len(), 82);
    assert!(matches_dhcp(&long));
    assert!(!matches_dhcp(&long[..81]));
    assert!(!matches_dhcp(&long[..42]));
}

#[test]
fn parse_packet_keeps_the_whole_frame() {
    let capture = PacketCapture::new("eth0".to_string());
    let frame = build_frame(5, 68, 67, b"DHCP_TEST_DATA");
    let before = SystemTime::now();
    let packet = capture.parse_packet(&frame).expect("a DHCP frame");
    assert_eq!(packet.data, frame);
    assert!(packet.timestamp >= before);
    assert!(capture.parse_packet(&build_frame(5, 68, 80, b"x")).is_none());
    assert!(capture.parse_packet(&[]).is_none());
}

#[test]
fn find_device_takes_the_first_of_that_name() {
    let capture = PacketCapture::new("eth1".to_string());
    let names = vec![
        "lo".to_string(),
        "eth0".to_string(),
        "eth1".to_string(),
        "eth1".to_string(),
    ];
    assert_eq!(capture.find_device(&names), Some(2));
    assert_eq!(capture.find_device(&names[..2].to_vec()), None);
    assert_eq!(capture.find_device(&Vec::new()), None);
    let prefix = PacketCapture::new("eth".to_string());
    assert_eq!(prefix.find_device(&names), None);
}

#[test]
fn next_step_delivers_dhcp_and_never_stops() {
    let capture = PacketCapture::new("eth0".to_string());
    let frame = build_frame(5, 67, 68, b"offer");
    match capture.next_step(CaptureEvent::Frame(&frame)) {
        CaptureStep::Deliver(packet) => assert_eq!(packet.data, frame),
        other => panic!("expected a delivery, got {:?}", other),
    }
    let other = build_frame(5, 53, 53, b"dns");
    assert!(matches!(
        capture.next_step(CaptureEvent::Frame(&other)),
        CaptureStep::Skip
    ));
    assert!(matches!(
        capture.next_step(CaptureEvent::Timeout),
        CaptureStep::Skip
    ));
    assert!(matches!(
        capture.next_step(CaptureEvent::Failure),
        CaptureStep::Warn
    ));
}
