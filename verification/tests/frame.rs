use ip_juggler::frame::ARP_OP_REPLY;
use ip_juggler::frame::ARP_OP_REQUEST;
use ip_juggler::frame::ETHERTYPE_ARP;
use ip_juggler::frame::build_announcement;
use ip_juggler::frame::parse_arp;
use ip_juggler::frame::parse_ethernet;
use ip_juggler::frame::parse_ipv4;
use ip_juggler::frame::parse_udp;

use pnet::packet::Packet;
use pnet::packet::PacketSize;
use pnet::packet::arp::ArpHardwareTypes;
use pnet::packet::arp::ArpOperations;
use pnet::packet::arp::ArpPacket;
use pnet::packet::arp::MutableArpPacket;
use pnet::packet::ethernet::EtherTypes;
use pnet::packet::ethernet::EthernetPacket;
use pnet::packet::ethernet::MutableEthernetPacket;
use pnet::util::MacAddr;

const MAC: [u8; 6] = [0x02, 0x42, 0xac, 0x11, 0x00, 0x07];
const IP: [u8; 4] = [10, 0, 0, 50];

#[test]
fn announcement_has_the_gratuitous_arp_shape() {
    let frame = build_announcement(&MAC, &IP);
    assert_eq!(frame.len(), 42);

    let eth = parse_ethernet(&frame).unwrap();
    assert_eq!(eth.destination, vec![0xff; 6]);
    assert_eq!(eth.source, MAC.to_vec());
    assert_eq!(eth.ethertype, ETHERTYPE_ARP);

    let arp = parse_arp(&eth.payload).unwrap();
    assert_eq!(arp.operation, ARP_OP_REPLY);
    assert_eq!(arp.sender_hardware, MAC.to_vec());
    assert_eq!(arp.sender_protocol, IP.to_vec());
    assert_eq!(arp.target_hardware, vec![0xff; 6]);
    assert_eq!(arp.target_protocol, IP.to_vec());
}

#[test]
fn announcement_parses_with_the_packet_crate() {
    // The constructed frame must be readable by an independent parser.
    let frame = build_announcement(&MAC, &IP);

    let eth = EthernetPacket::new(&frame).unwrap();
    assert_eq!(eth.get_ethertype(), EtherTypes::Arp);
    assert_eq!(eth.get_destination(), MacAddr::broadcast());
    assert_eq!(
        eth.get_source(),
        MacAddr::new(MAC[0], MAC[1], MAC[2], MAC[3], MAC[4], MAC[5])
    );

    let arp = ArpPacket::new(eth.payload()).unwrap();
    assert_eq!(arp.get_hardware_type(), ArpHardwareTypes::Ethernet);
    assert_eq!(arp.get_protocol_type(), EtherTypes::Ipv4);
    assert_eq!(arp.get_hw_addr_len(), 6);
    assert_eq!(arp.get_proto_addr_len(), 4);
    assert_eq!(arp.get_operation(), ArpOperations::Reply);
    assert_eq!(
        arp.get_sender_hw_addr(),
        MacAddr::new(MAC[0], MAC[1], MAC[2], MAC[3], MAC[4], MAC[5])
    );
    assert_eq!(arp.get_sender_proto_addr().octets(), IP);
    assert_eq!(arp.get_target_hw_addr(), MacAddr::broadcast());
    assert_eq!(arp.get_target_proto_addr().octets(), IP);
}

#[test]
fn packet_crate_frame_parses_with_ours() {
    // An ARP request assembled by the packet crate must come back out of our
    // parser field for field.
    let mut arp = MutableArpPacket::owned(vec![0; MutableArpPacket::minimum_packet_size()]).unwrap();
    arp.set_hardware_type(ArpHardwareTypes::Ethernet);
    arp.set_protocol_type(EtherTypes::Ipv4);
    arp.set_hw_addr_len(6);
    arp.set_proto_addr_len(4);
    arp.set_operation(ArpOperations::Request);
    arp.set_sender_hw_addr(MacAddr::new(1, 2, 3, 4, 5, 6));
    arp.set_sender_proto_addr([192, 168, 1, 9].into());
    arp.set_target_hw_addr(MacAddr::broadcast());
    arp.set_target_proto_addr([192, 168, 1, 1].into());

    let mut eth = MutableEthernetPacket::owned(vec![
        0;
        MutableEthernetPacket::minimum_packet_size() + arp.packet_size()
    ])
    .unwrap();
    eth.set_destination(MacAddr::broadcast());
    eth.set_source(MacAddr::new(1, 2, 3, 4, 5, 6));
    eth.set_ethertype(EtherTypes::Arp);
    eth.set_payload(arp.packet());

    let parsed_eth = parse_ethernet(eth.packet()).unwrap();
    assert_eq!(parsed_eth.ethertype, ETHERTYPE_ARP);
    let parsed_arp = parse_arp(&parsed_eth.payload).unwrap();
    assert_eq!(parsed_arp.operation, ARP_OP_REQUEST);
    assert_eq!(parsed_arp.sender_hardware, vec![1, 2, 3, 4, 5, 6]);
    assert_eq!(parsed_arp.sender_protocol, vec![192, 168, 1, 9]);
    assert_eq!(parsed_arp.target_hardware, vec![0xff; 6]);
    assert_eq!(parsed_arp.target_protocol, vec![192, 168, 1, 1]);
}

#[test]
fn short_buffers_fail_to_parse() {
    assert!(parse_ethernet(&[0u8; 13]).is_none());
    assert!(parse_ethernet(&[]).is_none());
    assert!(parse_ipv4(&[0u8; 19]).is_none());
    assert!(parse_udp(&[0u8; 7]).is_none());
    assert!(parse_arp(&[0u8; 27]).is_none());
}

#[test]
fn ipv4_header_length_is_respected() {
    // IHL of 6 words: options push the payload out by four bytes.
    let mut b = vec![0u8; 28];
    b[0] = 0x46;
    b[9] = 17;
    b[12..16].copy_from_slice(&[10, 0, 0, 1]);
    b[16..20].copy_from_slice(&[10, 0, 0, 2]);
    b[24] = 0xaa;
    let d = parse_ipv4(&b).unwrap();
    assert_eq!(d.protocol, 17);
    assert_eq!(d.source, vec![10, 0, 0, 1]);
    assert_eq!(d.destination, vec![10, 0, 0, 2]);
    assert_eq!(d.payload, vec![0xaa, 0, 0, 0]);

    // A declared header length under the minimum is malformed.
    let mut bad = vec![0u8; 28];
    bad[0] = 0x44;
    assert!(parse_ipv4(&bad).is_none());

    // A declared header length past the end of the buffer is malformed.
    let mut truncated = vec![0u8; 20];
    truncated[0] = 0x46;
    assert!(parse_ipv4(&truncated).is_none());
}

#[test]
fn udp_ports_are_big_endian() {
    let mut b = vec![0u8; 13];
    b[0] = 0x12;
    b[1] = 0x34;
    b[2] = 0x04;
    b[3] = 0xd2;
    b[12] = 0x99;
    let d = parse_udp(&b).unwrap();
    assert_eq!(d.source_port, 0x1234);
    assert_eq!(d.destination_port, 1234);
    assert_eq!(d.payload, vec![0, 0, 0, 0, 0x99]);
}
