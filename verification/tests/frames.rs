use zen::arp;
use zen::ether;
use zen::ether::Data;
use zen::net::{IpAddr, MacAddr, Serializable};
use zen::parser::ParseError;

fn scenario_frame_bytes() -> Vec<u8> {
    vec![
        0xFF, 0xFF, 0xFF, 0xFF, 0xFF, 0xFF, // dest MAC
        0x00, 0x11, 0x22, 0x33, 0x44, 0x55, // src MAC
        0x08, 0x06, // EtherType: ARP
        0x00, 0x01, // hardware type: Ethernet
        0x08, 0x00, // protocol type: IPv4
        0x06, 0x04, // hardware size, protocol size
        0x00, 0x01, // operation: request
        0x00, 0x11, 0x22, 0x33, 0x44, 0x55, // sender MAC
        0xC0, 0xA8, 0x00, 0x01, // sender IP
        0xFF, 0xFF, 0xFF, 0xFF, 0xFF, 0xFF, // target MAC
        0xC0, 0xA8, 0x00, 0x02, // target IP
    ]
}

#[test]
fn scenario_request_frame_parses_field_by_field() {
    let bytes = scenario_frame_bytes();
    let frame = ether::Packet::parse(&bytes).unwrap();
    assert_eq!(frame.dest_addr, MacAddr(0xFF, 0xFF, 0xFF, 0xFF, 0xFF, 0xFF));
    assert_eq!(frame.src_addr, MacAddr(0x00, 0x11, 0x22, 0x33, 0x44, 0x55));
    assert_eq!(frame.dest_addr.to_text(), "ff:ff:ff:ff:ff:ff");
    assert_eq!(frame.src_addr.to_text(), "00:11:22:33:44:55");
    assert_eq!(frame.protocol.to_text(), "ARP");
    match frame.data {
        Data::ARP(p) => {
            assert_eq!(p.op, arp::Operation::Request);
            assert_eq!(p.hardware_size, 6);
            assert_eq!(p.protocol_size, 4);
            assert_eq!(p.sender_mac, MacAddr(0x00, 0x11, 0x22, 0x33, 0x44, 0x55));
            assert_eq!(p.sender_ip.to_text(), "192.168.0.1");
            assert_eq!(p.target_mac, MacAddr(0xFF, 0xFF, 0xFF, 0xFF, 0xFF, 0xFF));
            assert_eq!(p.target_ip.to_text(), "192.168.0.2");
        }
        Data::Empty => panic!("expected an ARP payload"),
    }
}

#[test]
fn scenario_request_frame_reserializes_to_identical_bytes() {
    let bytes = scenario_frame_bytes();
    let frame = ether::Packet::parse(&bytes).unwrap();
    assert_eq!(frame.to_hex(), bytes);
}

#[test]
fn parse_on_empty_buffer_fails_with_end_of_file() {
    let bytes: Vec<u8> = vec![];
    assert_eq!(ether::Packet::parse(&bytes).unwrap_err(), ParseError::EndOfFile);
}

#[test]
fn parse_on_truncated_header_fails_with_end_of_file() {
    let bytes = scenario_frame_bytes()[..13].to_vec();
    assert_eq!(ether::Packet::parse(&bytes).unwrap_err(), ParseError::EndOfFile);
}

#[test]
fn parse_on_truncated_payload_fails_with_end_of_file() {
    let bytes = scenario_frame_bytes()[..41].to_vec();
    assert_eq!(ether::Packet::parse(&bytes).unwrap_err(), ParseError::EndOfFile);
}

#[test]
fn parse_rejects_foreign_ethertype() {
    let mut bytes = scenario_frame_bytes();
    bytes[12] = 0x08;
    bytes[13] = 0x00;
    assert_eq!(ether::Packet::parse(&bytes).unwrap_err(), ParseError::UnsupportedProtocol(0x0800));
}

#[test]
fn parse_rejects_foreign_ethertype_on_exactly_14_bytes() {
    let bytes = vec![0u8, 0, 0, 0, 0, 0, 0, 0, 0, 0, 0, 0, 0x86, 0xDD];
    assert_eq!(ether::Packet::parse(&bytes).unwrap_err(), ParseError::UnsupportedProtocol(0x86DD));
}

#[test]
fn parse_rejects_operation_code_three() {
    let mut bytes = scenario_frame_bytes();
    bytes[20] = 0x00;
    bytes[21] = 0x03;
    assert_eq!(ether::Packet::parse(&bytes).unwrap_err(), ParseError::UnrecognizedOperation(3));
}

#[test]
fn arp_parse_rejects_foreign_hardware_type() {
    let mut payload = scenario_frame_bytes()[14..].to_vec();
    payload[1] = 0x02;
    assert_eq!(arp::Packet::parse(&payload).unwrap_err(), ParseError::UnsupportedHardwareType);
}

#[test]
fn arp_parse_rejects_foreign_protocol_type() {
    let mut payload = scenario_frame_bytes()[14..].to_vec();
    payload[2] = 0x86;
    payload[3] = 0xDD;
    assert_eq!(arp::Packet::parse(&payload).unwrap_err(), ParseError::UnsupportedProtocolType);
}

#[test]
fn arp_parse_rejects_operation_code_three() {
    let mut payload = scenario_frame_bytes()[14..].to_vec();
    payload[7] = 0x03;
    assert_eq!(arp::Packet::parse(&payload).unwrap_err(), ParseError::UnrecognizedOperation(3));
}

#[test]
fn arp_parse_fails_with_end_of_file_on_empty_payload() {
    let payload: Vec<u8> = vec![];
    assert_eq!(arp::Packet::parse(&payload).unwrap_err(), ParseError::EndOfFile);
}

#[test]
fn arp_serialization_is_28_bytes() {
    let packet = arp::Packet::new();
    assert_eq!(packet.to_hex().len(), 28);
    let parsed = match ether::Packet::parse(&scenario_frame_bytes()).unwrap().data {
        Data::ARP(p) => p,
        Data::Empty => panic!("expected an ARP payload"),
    };
    assert_eq!(parsed.to_hex().len(), 28);
}

#[test]
fn ether_serialization_of_arp_frame_is_42_bytes() {
    let mut frame = ether::Packet::new();
    frame.set_packet_content(Data::ARP(arp::Packet::new()));
    assert_eq!(frame.to_hex().len(), 42);
}

#[test]
fn built_frame_round_trips_through_parse() {
    let mut request = arp::Packet::new();
    request.set_operation(arp::Operation::Reply);
    request.set_sender_mac(MacAddr(0x0A, 0x0B, 0x0C, 0x0D, 0x0E, 0x0F));
    request.set_sender_ip(IpAddr(10, 0, 0, 7));
    request.set_target_mac(MacAddr(0x01, 0x02, 0x03, 0x04, 0x05, 0x06));
    request.set_target_ip(IpAddr(10, 0, 0, 9));

    let mut frame = ether::Packet::new();
    frame.set_dest_addr(MacAddr(0x01, 0x02, 0x03, 0x04, 0x05, 0x06));
    frame.set_src_addr(MacAddr(0x0A, 0x0B, 0x0C, 0x0D, 0x0E, 0x0F));
    frame.set_packet_content(Data::ARP(request));

    let bytes = frame.to_hex();
    let parsed = ether::Packet::parse(&bytes).unwrap();
    assert_eq!(parsed.dest_addr, frame.dest_addr);
    assert_eq!(parsed.src_addr, frame.src_addr);
    match (parsed.data, frame.data) {
        (Data::ARP(a), Data::ARP(b)) => {
            assert_eq!(a.op, b.op);
            assert_eq!(a.hardware_size, b.hardware_size);
            assert_eq!(a.protocol_size, b.protocol_size);
            assert_eq!(a.sender_mac, b.sender_mac);
            assert_eq!(a.to_hex(), b.to_hex());
        }
        _ => panic!("expected ARP payloads on both sides"),
    }
    assert_eq!(parsed.to_hex(), bytes);
}

#[test]
fn new_arp_packet_has_supported_tags_and_zeroed_addresses() {
    let p = arp::Packet::new();
    assert_eq!(p.hardware_type.to_text(), "ether");
    assert_eq!(p.protocol_type.to_text(), "ipv4");
    assert_eq!(p.hardware_size, 6);
    assert_eq!(p.protocol_size, 4);
    assert_eq!(p.op, arp::Operation::Request);
    assert_eq!(p.sender_mac, MacAddr(0, 0, 0, 0, 0, 0));
    assert_eq!(p.target_mac, MacAddr(0, 0, 0, 0, 0, 0));
}

#[test]
fn new_ether_frame_is_broadcast_with_empty_payload() {
    let f = ether::Packet::new();
    assert_eq!(f.dest_addr, MacAddr(0xFF, 0xFF, 0xFF, 0xFF, 0xFF, 0xFF));
    assert_eq!(f.src_addr, MacAddr(0, 0, 0, 0, 0, 0));
    assert!(matches!(f.data, Data::Empty));
}

#[test]
fn mac_addrs_from_different_construction_paths_compare_equal() {
    let built = MacAddr(0x00, 0x11, 0x22, 0x33, 0x44, 0x55);
    let bytes = scenario_frame_bytes();
    let parsed = ether::Packet::parse(&bytes).unwrap().src_addr;
    assert_eq!(parsed, built);
    let cloned = built.clone();
    assert_eq!(cloned, built);
    assert!(built != MacAddr(0x00, 0x11, 0x22, 0x33, 0x44, 0x56));
}

#[test]
fn operation_to_text_names_the_operation() {
    assert_eq!(arp::Operation::Request.to_text(), "Request");
    assert_eq!(arp::Operation::Reply.to_text(), "Reply");
}

#[test]
fn mac_addr_to_text_is_lowercase_two_digit_hex() {
    assert_eq!(MacAddr(0, 1, 0x0A, 0x10, 0xAB, 0xFF).to_text(), "00:01:0a:10:ab:ff");
}

#[test]
fn ip_addr_to_text_is_dotted_decimal() {
    assert_eq!(IpAddr(0, 9, 42, 255).to_text(), "0.9.42.255");
    assert_eq!(IpAddr(192, 168, 100, 10).to_text(), "192.168.100.10");
}

#[test]
fn arp_packet_to_text_lists_every_field() {
    let parsed = match ether::Packet::parse(&scenario_frame_bytes()).unwrap().data {
        Data::ARP(p) => p,
        Data::Empty => panic!("expected an ARP payload"),
    };
    let expected = "hardware type:   ether\n\
                    protocol type:   ipv4\n\
                    hardware size:   6\n\
                    protocol_size:   4\n\
                    operation:       Request\n\
                    sender mac:      00:11:22:33:44:55\n\
                    sender ip:       192.168.0.1\n\
                    target mac:      ff:ff:ff:ff:ff:ff\n\
                    target ip:       192.168.0.2\n";
    assert_eq!(parsed.to_text(), expected);
}

#[test]
fn ether_packet_to_text_frames_the_payload() {
    let frame = ether::Packet::parse(&scenario_frame_bytes()).unwrap();
    let text = frame.to_text();
    assert!(text.starts_with("\n===============Ether Packet================\n"));
    assert!(text.contains("dest mac:    ff:ff:ff:ff:ff:ff\n"));
    assert!(text.contains("src mac:     00:11:22:33:44:55\n"));
    assert!(text.contains("protocol:    ARP\n"));
    assert!(text.contains("===============ARP Packet==================\n"));
    assert!(text.ends_with("===========================================\n"));
}

#[test]
fn ether_packet_to_text_notes_a_missing_payload() {
    let frame = ether::Packet::new();
    assert!(frame.to_text().contains("no data"));
}
