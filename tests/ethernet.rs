use packet_layers::{
    parse, EtherType, Ethernet, EthernetHeader, Fixed, Layer, MacAddr, Packet, ParseError, RawPacket,
};

const UDP_PACKET: [u8; 52] = [
    // ** ethernet header
    0x00, 0x00, 0x00, 0x00, 0x00, 0x01,
    0x00, 0x00, 0x00, 0x00, 0x00, 0x02,
    0x08, 0x00,
    // ** IPv4 header
    0x45, 0x00,
    // IPv4 payload length
    0x00, 0x26,
    // ident = 43849, flags = 4, frag_offset = 0
    0xab, 0x49, 0x40, 0x00,
    // ttl = 255, protocol = UDP, checksum = 0xf700
    0xff, 0x11, 0xf7, 0x00,
    // src = 139.133.217.110
    0x8b, 0x85, 0xd9, 0x6e,
    // dst = 139.133.233.2
    0x8b, 0x85, 0xe9, 0x02,
    // ** UDP header
    // src_port = 39376, dst_port = 1087
    0x99, 0xd0, 0x04, 0x3f,
    // UDP length = 18, checksum = 0x7228
    0x00, 0x12, 0x72, 0x28,
    // ** UDP payload
    0x68, 0x65, 0x6c, 0x6c, 0x6f, 0x68, 0x65, 0x6c, 0x6c, 0x6f
];

#[test]
fn size_of_ethernet_header() {
    assert_eq!(14, EthernetHeader::size());
}

#[test]
fn mac_addr_to_string() {
    assert_eq!("00:00:00:00:00:00", MacAddr::new(0, 0, 0, 0, 0, 0).to_string());
    assert_eq!("ff:ff:ff:ff:ff:ff", MacAddr::new(255, 255, 255, 255, 255, 255).to_string());
    assert_eq!("12:34:56:ab:cd:ef", MacAddr::new(0x12, 0x34, 0x56, 0xAB, 0xCD, 0xEF).to_string());
}

#[test]
fn ether_type_to_string() {
    assert_eq!("IPv4", EtherType::ipv4().to_string());
    assert_eq!("IPv6", EtherType::ipv6().to_string());
    assert_eq!("0x0000", EtherType::new(0).to_string());
}

#[test]
fn parse_ethernet_packet() {
    let packet = RawPacket::from_bytes(&UDP_PACKET);
    let ethernet = parse::<RawPacket, Ethernet>(packet).unwrap();

    assert_eq!("00:00:00:00:00:01", ethernet.dst().to_string());
    assert_eq!("00:00:00:00:00:02", ethernet.src().to_string());
    assert_eq!(EtherType::ipv4(), ethernet.ether_type());
}

#[test]
fn ether_type_unknown_code_is_hex() {
    assert_eq!("0xbeef", EtherType::new(0xBEEF).to_string());
    assert_eq!("0x0806", EtherType::new(0x0806).to_string());
    assert_eq!(0x86DD, EtherType::ipv6().0);
}

#[test]
fn mac_addr_from_slice_takes_first_six() {
    let m = MacAddr::new_from_slice(&[1, 2, 3, 4, 5, 6, 7]);
    assert_eq!(MacAddr::new(1, 2, 3, 4, 5, 6), m);
    assert_eq!("01:02:03:04:05:06", m.to_string());
}

#[test]
fn ethernet_set_then_get() {
    let packet = RawPacket::from_bytes(&UDP_PACKET);
    let mut ethernet = parse::<RawPacket, Ethernet>(packet).unwrap();
    let a = MacAddr::new(0xde, 0xad, 0xbe, 0xef, 0x00, 0x42);
    let b = MacAddr::new(1, 2, 3, 4, 5, 6);
    ethernet.set_dst(a);
    ethernet.set_src(b);
    ethernet.set_ether_type(EtherType::ipv6());
    assert_eq!(a, ethernet.dst());
    assert_eq!(b, ethernet.src());
    assert_eq!(EtherType::ipv6(), ethernet.ether_type());
    assert_eq!(&[0x86, 0xDD], &ethernet.data()[12..14]);
    assert_eq!(&[0xde, 0xad, 0xbe, 0xef, 0x00, 0x42, 1, 2, 3, 4, 5, 6], &ethernet.data()[0..12]);
    // the rest of the buffer is untouched
    assert_eq!(&UDP_PACKET[14..], &ethernet.data()[14..]);
}

#[test]
fn ethernet_header_and_summary() {
    let packet = RawPacket::from_bytes(&UDP_PACKET);
    let ethernet = parse::<RawPacket, Ethernet>(packet).unwrap();
    let h = ethernet.header();
    assert_eq!(MacAddr::new(0, 0, 0, 0, 0, 1), h.dst);
    assert_eq!(MacAddr::new(0, 0, 0, 0, 0, 2), h.src);
    assert_eq!(EtherType::ipv4(), h.ether_type);
    assert_eq!("00:00:00:00:00:02 > 00:00:00:00:00:01, ether_type: IPv4", ethernet.to_string());
    assert_eq!(0, ethernet.offset());
    assert_eq!(14, ethernet.header_len());
    assert_eq!(52, ethernet.envelope().len());
}

#[test]
fn parse_ethernet_bounds() {
    // exactly one header fits
    let packet = RawPacket::from_bytes(&UDP_PACKET[..14]);
    assert!(parse::<RawPacket, Ethernet>(packet).is_ok());
    // one byte short
    let packet = RawPacket::from_bytes(&UDP_PACKET[..13]);
    assert_eq!(ParseError::BufferTooShort, parse::<RawPacket, Ethernet>(packet).err().unwrap());
    // empty buffer
    let packet = RawPacket::from_bytes(&[]);
    assert!(parse::<RawPacket, Ethernet>(packet).is_err());
}
