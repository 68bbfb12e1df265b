//! Typed, bounds-checked views of protocol headers laid over one packet
//! buffer: a link-layer header, a network-layer header and a transport-layer
//! header, each found at the offset where its enclosing layer ends.

pub mod ethernet;
pub mod ip;
pub mod packet;
pub mod text;
pub mod udp;
pub mod wire;

pub use ethernet::{EtherType, Ethernet, EthernetHeader, MacAddr};
pub use packet::{parse, Fixed, Header, Layer, NoHeader, Packet, ParseError, RawPacket};
pub use ip::{IpPacket, Ipv4, Ipv4Header};
pub use udp::{Udp, UdpHeader};
pub use wire::{read_u16_be, read_u32_be};
