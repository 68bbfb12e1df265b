use packet_layers::{
    parse, read_u16_be, read_u32_be, Ethernet, Fixed, IpPacket, Ipv4, Layer, Packet, ParseError,
    RawPacket, Udp, UdpHeader,
};

const UDP_PACKET: [u8; 52] = [
    // ** ethernet header
    0x00, 0x00, 0x00, 0x00, 0x00, 0x01,
    0x00, 0x00, 0x00, 0x00, 0x00, 0x02,
    0x08, 0x00,
    // ** IPv4 header
    0x45, 0x00,
    // IPv4 payload length
    0x00, 0x26,
    // ident = 43849, flags = 4, frag_offset = 0
    0xab, 0x49, 0x40, 0x00,
    // ttl = 255, protocol = UDP, checksum = 0xf700
    0xff, 0x11, 0xf7, 0x00,
    // src = 139.133.217.110
    0x8b, 0x85, 0xd9, 0x6e,
    // dst = 139.133.233.2
    0x8b, 0x85, 0xe9, 0x02,
    // ** UDP header
    // src_port = 39376, dst_port = 1087
    0x99, 0xd0, 0x04, 0x3f,
    // UDP length = 18, checksum = 0x7228
    0x00, 0x12, 0x72, 0x28,
    // ** UDP payload
    0x68, 0x65, 0x6c, 0x6c, 0x6f, 0x68, 0x65, 0x6c, 0x6c, 0x6f
];

fn udp_of(bytes: &[u8]) -> Result<Udp<Ipv4>, ParseError> {
    let packet = RawPacket::from_bytes(bytes);
    let ethernet = parse::<RawPacket, Ethernet>(packet)?;
    let ipv4 = parse::<Ethernet, Ipv4>(ethernet)?;
    parse::<Ipv4, Udp<Ipv4>>(ipv4)
}

#[test]
fn size_of_udp_header() {
    assert_eq!(8, UdpHeader::size());
}

#[test]
fn parse_udp_packet() {
    let packet = RawPacket::from_bytes(&UDP_PACKET);
    let ethernet = parse::<RawPacket, Ethernet>(packet).unwrap();
    let ipv4 = parse::<Ethernet, Ipv4>(ethernet).unwrap();
    let udp = parse::<Ipv4, Udp<Ipv4>>(ipv4).unwrap();

    assert_eq!(39376, udp.src_port());
    assert_eq!(1087, udp.dst_port());
    assert_eq!(18, udp.length());
    assert_eq!(0x7228, udp.checksum());
}

#[test]
fn udp_chain_offsets() {
    let udp = udp_of(&UDP_PACKET).unwrap();
    let ipv4 = udp.envelope();
    let ethernet = ipv4.envelope();
    assert_eq!(0, ethernet.offset());
    assert_eq!(14, ipv4.offset());
    assert_eq!(ethernet.offset() + ethernet.header_len(), ipv4.offset());
    assert_eq!(ipv4.offset() + ipv4.header_len(), udp.offset());
    assert_eq!(34, udp.offset());
    assert_eq!(8, udp.header_len());
    assert_eq!(0x11, ipv4.protocol());
    assert_eq!(0x8b85d96e, ipv4.src());
    assert_eq!(0x8b85e902, ipv4.dst());
}

#[test]
fn udp_set_then_get() {
    let mut udp = udp_of(&UDP_PACKET).unwrap();
    udp.set_src_port(0x1234);
    assert_eq!(0x1234, udp.src_port());
    assert_eq!(&[0x12, 0x34], &udp.data()[34..36]);
    udp.set_dst_port(65535);
    udp.set_length(0);
    udp.set_checksum(0xABCD);
    assert_eq!(0x1234, udp.src_port());
    assert_eq!(65535, udp.dst_port());
    assert_eq!(0, udp.length());
    assert_eq!(0xABCD, udp.checksum());
    assert_eq!(&[0x12, 0x34, 0xff, 0xff, 0x00, 0x00, 0xab, 0xcd], &udp.data()[34..42]);
    assert_eq!(&UDP_PACKET[..34], &udp.data()[..34]);
    assert_eq!(&UDP_PACKET[42..], &udp.data()[42..]);
}

#[test]
fn udp_header_and_summary() {
    let udp = udp_of(&UDP_PACKET).unwrap();
    assert_eq!(
        UdpHeader { src_port: 39376, dst_port: 1087, length: 18, checksum: 0x7228 },
        udp.header()
    );
    assert_eq!("src_port: 39376, dst_port: 1087, length: 18, checksum: 29224", udp.to_string());
}

#[test]
fn parse_udp_bounds() {
    // the transport header ends exactly at the end of the buffer
    assert!(udp_of(&UDP_PACKET[..42]).is_ok());
    // one byte short of the transport header
    assert_eq!(ParseError::BufferTooShort, udp_of(&UDP_PACKET[..41]).err().unwrap());
    // one byte short of the network header
    assert!(udp_of(&UDP_PACKET[..33]).is_err());
}

#[test]
fn big_endian_reads() {
    assert_eq!(0x1234, read_u16_be(&[0x12, 0x34], 0));
    assert_eq!(0x3456, read_u16_be(&[0x12, 0x34, 0x56], 1));
    assert_eq!(0x12345678, read_u32_be(&[0x12, 0x34, 0x56, 0x78], 0));
}

#[test]
fn every_layer_reaches_the_same_buffer() {
    let udp = udp_of(&UDP_PACKET).unwrap();
    assert_eq!(52, udp.mbuf().len());
    assert_eq!(&UDP_PACKET[..], udp.mbuf().data());
    assert_eq!(&UDP_PACKET[..], udp.envelope().envelope().mbuf().data());
}
