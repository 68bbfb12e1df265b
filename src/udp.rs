//! The transport layer: a UDP header, over any network-layer envelope.
//!
//! On the wire: source port, destination port, length (of header and data
//! together) and checksum, each 16 bits big-endian; 8 bytes in all.

use vstd::prelude::*;
use vstd::string::*;

use crate::ethernet::EthernetHeader;
use crate::ip::{IpPacket, Ipv4, Ipv4Header};
use crate::packet::{get_u16, set_u16, Fixed, Header, Layer, Packet, RawPacket};
use crate::text::{decimal, push_decimal};
use crate::wire::{lemma_put_keeps_others, lemma_put_then_read, put_u16, u16_at};

verus! {

/// The fields of a UDP header, decoded.
#[derive(Debug, Clone, Copy, PartialEq, Eq, Structural, Default)]
pub struct UdpHeader {
    pub src_port: u16,
    pub dst_port: u16,
    pub length: u16,
    pub checksum: u16,
}

impl Fixed for UdpHeader {
    /// Four 16-bit fields, with no padding.
    open spec fn spec_size() -> nat {
        8
    }

    fn size() -> (r: usize) {
        8
    }
}

impl Header for UdpHeader {

}

/// A UDP header laid over the payload of a network-layer packet `E`.
pub struct Udp<E: IpPacket> {
    envelope: E,
    offset: usize,
}

impl<E: IpPacket> Udp<E> {
    /// The source port, converted from network order.
    pub fn src_port(&self) -> (r: u16)
        requires
            self.wf(),
        ensures
            r == u16_at(self.buf(), self.spec_offset() as int),
    {
        proof {
            self.lemma_header_fits();
        }
        get_u16(self, self.offset)
    }

    /// Stores `src_port` in network order.
    pub fn set_src_port(&mut self, src_port: u16)
        requires
            old(self).wf(),
        ensures
            final(self).wf(),
            final(self).spec_offset() == old(self).spec_offset(),
            final(self).buf() == put_u16(old(self).buf(), old(self).spec_offset() as int, src_port),
    {
        proof {
            self.lemma_header_fits();
        }
        let at = self.offset;
        set_u16(self, at, src_port);
    }

    /// The destination port, converted from network order.
    pub fn dst_port(&self) -> (r: u16)
        requires
            self.wf(),
        ensures
            r == u16_at(self.buf(), self.spec_offset() as int + 2),
    {
        proof {
            self.lemma_header_fits();
        }
        let n = self.data().len();
        get_u16(self, self.offset + 2)
    }

    /// Stores `dst_port` in network order.
    pub fn set_dst_port(&mut self, dst_port: u16)
        requires
            old(self).wf(),
        ensures
            final(self).wf(),
            final(self).spec_offset() == old(self).spec_offset(),
            final(self).buf() == put_u16(old(self).buf(), old(self).spec_offset() as int + 2, dst_port),
    {
        proof {
            self.lemma_header_fits();
        }
        let n = self.data().len();
        let at = self.offset + 2;
        set_u16(self, at, dst_port);
    }

    /// The length of header and data in bytes, as the wire states it.
    pub fn length(&self) -> (r: u16)
        requires
            self.wf(),
        ensures
            r == u16_at(self.buf(), self.spec_offset() as int + 4),
    {
        proof {
            self.lemma_header_fits();
        }
        let n = self.data().len();
        get_u16(self, self.offset + 4)
    }

    /// Stores `length` in network order.
    pub fn set_length(&mut self, length: u16)
        requires
            old(self).wf(),
        ensures
            final(self).wf(),
            final(self).spec_offset() == old(self).spec_offset(),
            final(self).buf() == put_u16(old(self).buf(), old(self).spec_offset() as int + 4, length),
    {
        proof {
            self.lemma_header_fits();
        }
        let n = self.data().len();
        let at = self.offset + 4;
        set_u16(self, at, length);
    }

    /// The checksum field, converted from network order; it is not checked.
    pub fn checksum(&self) -> (r: u16)
        requires
            self.wf(),
        ensures
            r == u16_at(self.buf(), self.spec_offset() as int + 6),
    {
        proof {
            self.lemma_header_fits();
        }
        let n = self.data().len();
        get_u16(self, self.offset + 6)
    }

    /// Stores `checksum` in network order.
    pub fn set_checksum(&mut self, checksum: u16)
        requires
            old(self).wf(),
        ensures
            final(self).wf(),
            final(self).spec_offset() == old(self).spec_offset(),
            final(self).buf() == put_u16(old(self).buf(), old(self).spec_offset() as int + 6, checksum),
    {
        proof {
            self.lemma_header_fits();
        }
        let n = self.data().len();
        let at = self.offset + 6;
        set_u16(self, at, checksum);
    }

    /// All four fields, decoded.
    pub fn header(&self) -> (r: UdpHeader)
        requires
            self.wf(),
        ensures
            r == udp_header_at(self.buf(), self.spec_offset() as int),
    {
        UdpHeader {
            src_port: self.src_port(),
            dst_port: self.dst_port(),
            length: self.length(),
            checksum: self.checksum(),
        }
    }

    /// A one-line summary:
    /// `src_port: <p>, dst_port: <p>, length: <n>, checksum: <c>`.
    pub fn to_string(&self) -> (r: String)
        requires
            self.wf(),
        ensures
            r@ == udp_text(udp_header_at(self.buf(), self.spec_offset() as int)),
    {
        let h = self.header();
        let mut s = String::from_str("src_port: ");
        push_decimal(&mut s, h.src_port);
        s.append(", dst_port: ");
        push_decimal(&mut s, h.dst_port);
        s.append(", length: ");
        push_decimal(&mut s, h.length);
        s.append(", checksum: ");
        push_decimal(&mut s, h.checksum);
        s
    }
}

/// The UDP header at `o` in `s`, decoded.
pub open spec fn udp_header_at(s: Seq<u8>, o: int) -> UdpHeader {
    UdpHeader {
        src_port: u16_at(s, o),
        dst_port: u16_at(s, o + 2),
        length: u16_at(s, o + 4),
        checksum: u16_at(s, o + 6),
    }
}

/// The text form of a UDP header, with its numbers in decimal.
pub open spec fn udp_text(h: UdpHeader) -> Seq<char> {
    "src_port: "@ + decimal(h.src_port as nat) + ", dst_port: "@ + decimal(h.dst_port as nat)
        + ", length: "@ + decimal(h.length as nat) + ", checksum: "@ + decimal(
        h.checksum as nat,
    )
}

/// Setting any field of a UDP header and reading the header back gives the
/// value set in that field and leaves the other three as they were.
pub proof fn lemma_udp_set_then_get(s: Seq<u8>, o: int, v: u16)
    requires
        0 <= o,
        o + UdpHeader::spec_size() <= s.len(),
    ensures
        udp_header_at(put_u16(s, o, v), o) == (UdpHeader { src_port: v, ..udp_header_at(s, o) }),
        udp_header_at(put_u16(s, o + 2, v), o) == (UdpHeader { dst_port: v, ..udp_header_at(s, o) }),
        udp_header_at(put_u16(s, o + 4, v), o) == (UdpHeader { length: v, ..udp_header_at(s, o) }),
        udp_header_at(put_u16(s, o + 6, v), o) == (UdpHeader { checksum: v, ..udp_header_at(s, o) }),
{
    let fields = seq![o, o + 2, o + 4, o + 6];
    assert forall|i: int, j: int| 0 <= i < 4 && 0 <= j < 4 implies {
        &&& u16_at(put_u16(s, fields[i], v), fields[i]) == v
        &&& i != j ==> u16_at(put_u16(s, fields[i], v), fields[j]) == u16_at(s, fields[j])
    } by {
        lemma_put_then_read(s, fields[i], v);
        if i != j {
            lemma_put_keeps_others(s, fields[i], v, fields[j]);
        }
    }
    assert(fields[0] == o && fields[1] == o + 2 && fields[2] == o + 4 && fields[3] == o + 6);
}

/// In a well-formed UDP-over-IPv4 chain, each header starts where the one
/// before it ends: the link header at 0, the network header at 0 + 14, the
/// transport header at the network header's offset + 20.
pub proof fn lemma_udp_over_ipv4_offsets(u: Udp<Ipv4>)
    requires
        u.wf(),
    ensures
        u.spec_offset() == u.spec_envelope().spec_offset() + Ipv4Header::spec_size(),
        u.spec_envelope().spec_offset() == u.spec_envelope().spec_envelope().spec_offset()
            + EthernetHeader::spec_size(),
        u.spec_envelope().spec_envelope().spec_offset() == 0,
        u.spec_offset() == 34,
{
    let ip = u.spec_envelope();
    let eth = ip.spec_envelope();
    u.lemma_chained();
    ip.lemma_chained();
    eth.lemma_chained();
    assert(<RawPacket as Packet>::Header::spec_size() == 0);
}

impl<E: IpPacket> Packet for Udp<E> {
    type Header = UdpHeader;

    closed spec fn buf(&self) -> Seq<u8> {
        self.envelope.buf()
    }

    closed spec fn spec_offset(&self) -> nat {
        self.offset as nat
    }

    closed spec fn wf(&self) -> bool {
        &&& self.envelope.wf()
        &&& self.offset == self.envelope.spec_offset() + E::Header::spec_size()
        &&& self.offset + UdpHeader::spec_size() <= self.envelope.buf().len()
    }

    proof fn lemma_header_fits(&self) {
    }

    fn offset(&self) -> (r: usize) {
        self.offset
    }

    fn header_len(&self) -> (r: usize) {
        UdpHeader::size()
    }

    fn mbuf(&self) -> (r: &RawPacket) {
        self.envelope.mbuf()
    }

    fn data(&self) -> (r: &[u8]) {
        self.envelope.data()
    }

    fn set_byte(&mut self, at: usize, v: u8) {
        self.envelope.set_byte(at, v);
    }
}

impl<E: IpPacket> Layer for Udp<E> {
    type Envelope = E;

    closed spec fn spec_envelope(&self) -> E {
        self.envelope
    }

    proof fn lemma_chained(&self) {
    }

    fn envelope(&self) -> (r: &E) {
        &self.envelope
    }

    fn from_packet(envelope: E, offset: usize) -> (r: Self) {
        Udp { envelope, offset }
    }
}

} // verus!
