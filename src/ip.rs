//! The network layer: what a transport header needs of its envelope, and an
//! IPv4 header without options.
//!
//! IPv4 on the wire (20 bytes): version and header length, type of service,
//! total length, identification, flags and fragment offset, time to live,
//! protocol, header checksum, source address, destination address.

use vstd::prelude::*;

use crate::ethernet::{Ethernet, EthernetHeader};
use crate::packet::{Fixed, Header, Layer, Packet, RawPacket};
use crate::wire::{read_u32_be, u32_at};

verus! {

/// A network-layer packet: one that can enclose a transport header.
pub trait IpPacket: Packet {
    /// The code of the protocol that the payload carries.
    spec fn spec_protocol(&self) -> u8;

    fn protocol(&self) -> (r: u8)
        requires
            self.wf(),
        ensures
            r == self.spec_protocol(),
    ;
}

/// An IPv4 header without options.
#[derive(Debug, Clone, Copy, PartialEq, Eq, Default)]
pub struct Ipv4Header;

impl Fixed for Ipv4Header {
    /// Five 32-bit words.
    open spec fn spec_size() -> nat {
        20
    }

    fn size() -> (r: usize) {
        20
    }
}

impl Header for Ipv4Header {

}

/// An IPv4 header laid over the payload of an Ethernet frame.
pub struct Ipv4 {
    envelope: Ethernet,
    offset: usize,
}

impl Ipv4 {
    /// The source address, converted from network order.
    pub fn src(&self) -> (r: u32)
        requires
            self.wf(),
        ensures
            r == u32_at(self.buf(), self.spec_offset() as int + 12),
    {
        proof {
            self.lemma_header_fits();
        }
        let d = self.data();
        let n = d.len();
        read_u32_be(d, self.offset + 12)
    }

    /// The destination address, converted from network order.
    pub fn dst(&self) -> (r: u32)
        requires
            self.wf(),
        ensures
            r == u32_at(self.buf(), self.spec_offset() as int + 16),
    {
        proof {
            self.lemma_header_fits();
        }
        let d = self.data();
        let n = d.len();
        read_u32_be(d, self.offset + 16)
    }
}

impl Packet for Ipv4 {
    type Header = Ipv4Header;

    closed spec fn buf(&self) -> Seq<u8> {
        self.envelope.buf()
    }

    closed spec fn spec_offset(&self) -> nat {
        self.offset as nat
    }

    closed spec fn wf(&self) -> bool {
        &&& self.envelope.wf()
        &&& self.offset == self.envelope.spec_offset() + EthernetHeader::spec_size()
        &&& self.offset + Ipv4Header::spec_size() <= self.envelope.buf().len()
    }

    proof fn lemma_header_fits(&self) {
    }

    fn offset(&self) -> (r: usize) {
        self.offset
    }

    fn header_len(&self) -> (r: usize) {
        Ipv4Header::size()
    }

    fn mbuf(&self) -> (r: &RawPacket) {
        self.envelope.mbuf()
    }

    fn data(&self) -> (r: &[u8]) {
        self.envelope.data()
    }

    fn set_byte(&mut self, at: usize, v: u8) {
        self.envelope.set_byte(at, v);
    }
}

impl Layer for Ipv4 {
    type Envelope = Ethernet;

    closed spec fn spec_envelope(&self) -> Ethernet {
        self.envelope
    }

    proof fn lemma_chained(&self) {
    }

    fn envelope(&self) -> (r: &Ethernet) {
        &self.envelope
    }

    fn from_packet(envelope: Ethernet, offset: usize) -> (r: Self) {
        Ipv4 { envelope, offset }
    }
}

impl IpPacket for Ipv4 {
    closed spec fn spec_protocol(&self) -> u8 {
        self.buf()[self.offset + 9]
    }

    fn protocol(&self) -> (r: u8)
        ensures
            r == self.buf()[self.spec_offset() as int + 9],
    {
        proof {
            self.lemma_header_fits();
        }
        let d = self.data();
        let n = d.len();
        d[self.offset + 9]
    }
}

} // verus!
