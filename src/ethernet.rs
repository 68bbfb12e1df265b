//! The link layer: an Ethernet II frame header.
//!
//! On the wire: destination address (6 bytes), source address (6 bytes),
//! ether type (2 bytes, big-endian); 14 bytes in all.

use vstd::prelude::*;
use vstd::string::*;

use crate::packet::{
    get_u16, put_bytes, set_bytes, set_u16, Fixed, Header, Layer, Packet, RawPacket,
};
use crate::text::{hex2, hex4, push_hex2, push_hex4};
use crate::wire::{lemma_put_then_read, put_u16, u16_at};

verus! {

/// A 48-bit MAC address, in wire order.
#[derive(Debug, Clone, Copy, PartialEq, Eq, Default)]
pub struct MacAddr(pub [u8; 6]);

impl View for MacAddr {
    type V = Seq<u8>;

    open spec fn view(&self) -> Seq<u8> {
        self.0@
    }
}

/// The text form of an address: six lowercase hex pairs joined by colons.
pub open spec fn mac_text(m: Seq<u8>) -> Seq<char> {
    hex2(m[0]) + seq![':'] + hex2(m[1]) + seq![':'] + hex2(m[2]) + seq![':'] + hex2(m[3])
        + seq![':'] + hex2(m[4]) + seq![':'] + hex2(m[5])
}

impl MacAddr {
    /// The address `a:b:c:d:e:f`.
    pub fn new(a: u8, b: u8, c: u8, d: u8, e: u8, f: u8) -> (r: Self)
        ensures
            r@ == seq![a, b, c, d, e, f],
    {
        let r = MacAddr([a, b, c, d, e, f]);
        assert(r@ =~= seq![a, b, c, d, e, f]);
        r
    }

    /// The address made of the first six bytes of `slice`.
    pub fn new_from_slice(slice: &[u8]) -> (r: Self)
        requires
            slice@.len() >= 6,
        ensures
            r@ == slice@.subrange(0, 6),
    {
        let r = MacAddr([slice[0], slice[1], slice[2], slice[3], slice[4], slice[5]]);
        assert(r@ =~= slice@.subrange(0, 6));
        r
    }

    /// The address as text, e.g. `12:34:56:ab:cd:ef`.
    pub fn to_string(&self) -> (r: String)
        ensures
            r@ == mac_text(self@),
    {
        let mut s = String::new();
        push_hex2(&mut s, self.0[0]);
        let mut i: usize = 1;
        while i < 6
            invariant
                1 <= i <= 6,
                s@ == mac_text_prefix(self@, i as int),
            decreases 6 - i,
        {
            let colon = ":";
            proof {
                reveal_strlit(":");
            }
            s.append(colon);
            push_hex2(&mut s, self.0[i]);
            i += 1;
        }
        proof {
            reveal_with_fuel(mac_text_prefix, 6);
            assert(mac_text_prefix(self@, 6) =~= mac_text(self@));
        }
        s
    }
}

/// The text of the first `n` bytes of an address, joined by colons.
pub open spec fn mac_text_prefix(m: Seq<u8>, n: int) -> Seq<char>
    decreases n,
{
    if n <= 1 {
        hex2(m[0])
    } else {
        mac_text_prefix(m, n - 1) + seq![':'] + hex2(m[n - 1])
    }
}

/// The protocol carried in an Ethernet frame's payload.
#[derive(Debug, Clone, Copy, PartialEq, Eq, Structural, Default)]
pub struct EtherType(pub u16);

/// The code of Internet Protocol version 4.
pub const ETHER_TYPE_IPV4: u16 = 0x0800;

/// The code of Internet Protocol version 6.
pub const ETHER_TYPE_IPV6: u16 = 0x86DD;

/// The text form of an ether type: the protocol's name where it is known,
/// else the code as `0x` and four lowercase hex digits.
pub open spec fn ether_type_text(v: u16) -> Seq<char> {
    if v == ETHER_TYPE_IPV4 {
        seq!['I', 'P', 'v', '4']
    } else if v == ETHER_TYPE_IPV6 {
        seq!['I', 'P', 'v', '6']
    } else {
        seq!['0', 'x'] + hex4(v)
    }
}

impl EtherType {
    /// The ether type with code `value`.
    pub fn new(value: u16) -> (r: Self)
        ensures
            r.0 == value,
    {
        EtherType(value)
    }

    /// Internet Protocol version 4.
    pub fn ipv4() -> (r: Self)
        ensures
            r.0 == ETHER_TYPE_IPV4,
    {
        EtherType(ETHER_TYPE_IPV4)
    }

    /// Internet Protocol version 6.
    pub fn ipv6() -> (r: Self)
        ensures
            r.0 == ETHER_TYPE_IPV6,
    {
        EtherType(ETHER_TYPE_IPV6)
    }

    /// The ether type as text, e.g. `IPv4` or `0x0000`.
    pub fn to_string(&self) -> (r: String)
        ensures
            r@ == ether_type_text(self.0),
    {
        if self.0 == ETHER_TYPE_IPV4 {
            proof {
                reveal_strlit("IPv4");
            }
            String::from_str("IPv4")
        } else if self.0 == ETHER_TYPE_IPV6 {
            proof {
                reveal_strlit("IPv6");
            }
            String::from_str("IPv6")
        } else {
            proof {
                reveal_strlit("0x");
            }
            let mut s = String::from_str("0x");
            push_hex4(&mut s, self.0);
            s
        }
    }
}

/// The fields of an Ethernet header, decoded.
#[derive(Debug, Clone, Copy, PartialEq, Eq, Default)]
pub struct EthernetHeader {
    pub dst: MacAddr,
    pub src: MacAddr,
    pub ether_type: EtherType,
}

impl Fixed for EthernetHeader {
    /// Two addresses of six bytes and a two-byte type, with no padding.
    open spec fn spec_size() -> nat {
        14
    }

    fn size() -> (r: usize) {
        14
    }
}

impl Header for EthernetHeader {

}

/// The destination address of the Ethernet header at `o` in `s`.
pub open spec fn eth_dst(s: Seq<u8>, o: int) -> Seq<u8> {
    s.subrange(o, o + 6)
}

/// The source address of the Ethernet header at `o` in `s`.
pub open spec fn eth_src(s: Seq<u8>, o: int) -> Seq<u8> {
    s.subrange(o + 6, o + 12)
}

/// The ether type of the Ethernet header at `o` in `s`.
pub open spec fn eth_type(s: Seq<u8>, o: int) -> u16 {
    u16_at(s, o + 12)
}

/// Setting any field of an Ethernet header and reading it back gives the
/// value set; the other two fields keep theirs.
pub proof fn lemma_ethernet_set_then_get(
    s: Seq<u8>,
    o: int,
    dst: MacAddr,
    src: MacAddr,
    ether_type: EtherType,
)
    requires
        0 <= o,
        o + EthernetHeader::spec_size() <= s.len(),
    ensures
        eth_dst(put_bytes(s, o, dst@), o) == dst@,
        eth_src(put_bytes(s, o, dst@), o) == eth_src(s, o),
        eth_type(put_bytes(s, o, dst@), o) == eth_type(s, o),
        eth_src(put_bytes(s, o + 6, src@), o) == src@,
        eth_dst(put_bytes(s, o + 6, src@), o) == eth_dst(s, o),
        eth_type(put_bytes(s, o + 6, src@), o) == eth_type(s, o),
        eth_type(put_u16(s, o + 12, ether_type.0), o) == ether_type.0,
        eth_dst(put_u16(s, o + 12, ether_type.0), o) == eth_dst(s, o),
        eth_src(put_u16(s, o + 12, ether_type.0), o) == eth_src(s, o),
{
    let d = put_bytes(s, o, dst@);
    let r = put_bytes(s, o + 6, src@);
    let t = put_u16(s, o + 12, ether_type.0);
    assert(eth_dst(d, o) =~= dst@);
    assert(eth_src(d, o) =~= eth_src(s, o));
    assert(d[o + 12] == s[o + 12] && d[o + 13] == s[o + 13]);
    assert(eth_src(r, o) =~= src@);
    assert(eth_dst(r, o) =~= eth_dst(s, o));
    assert(r[o + 12] == s[o + 12] && r[o + 13] == s[o + 13]);
    lemma_put_then_read(s, o + 12, ether_type.0);
    assert(eth_dst(t, o) =~= eth_dst(s, o));
    assert(eth_src(t, o) =~= eth_src(s, o));
}

/// An Ethernet header laid over a packet buffer.
pub struct Ethernet {
    envelope: RawPacket,
    offset: usize,
}

impl Ethernet {
    /// The source address.
    pub fn src(&self) -> (r: MacAddr)
        requires
            self.wf(),
        ensures
            r@ == eth_src(self.buf(), self.spec_offset() as int),
    {
        proof {
            self.lemma_header_fits();
        }
        let at = self.offset + 6;
        let d = self.data();
        let r = MacAddr([d[at], d[at + 1], d[at + 2], d[at + 3], d[at + 4], d[at + 5]]);
        assert(r@ =~= eth_src(self.buf(), self.spec_offset() as int));
        r
    }

    pub fn set_src(&mut self, src: MacAddr)
        requires
            old(self).wf(),
        ensures
            final(self).wf(),
            final(self).spec_offset() == old(self).spec_offset(),
            final(self).buf() == put_bytes(old(self).buf(), old(self).spec_offset() as int + 6, src@),
    {
        proof {
            self.lemma_header_fits();
        }
        let at = self.offset + 6;
        set_bytes(self, at, src.0.as_slice());
    }

    /// The destination address.
    pub fn dst(&self) -> (r: MacAddr)
        requires
            self.wf(),
        ensures
            r@ == eth_dst(self.buf(), self.spec_offset() as int),
    {
        proof {
            self.lemma_header_fits();
        }
        let at = self.offset;
        let d = self.data();
        let r = MacAddr([d[at], d[at + 1], d[at + 2], d[at + 3], d[at + 4], d[at + 5]]);
        assert(r@ =~= eth_dst(self.buf(), self.spec_offset() as int));
        r
    }

    pub fn set_dst(&mut self, dst: MacAddr)
        requires
            old(self).wf(),
        ensures
            final(self).wf(),
            final(self).spec_offset() == old(self).spec_offset(),
            final(self).buf() == put_bytes(old(self).buf(), old(self).spec_offset() as int, dst@),
    {
        proof {
            self.lemma_header_fits();
        }
        let at = self.offset;
        set_bytes(self, at, dst.0.as_slice());
    }

    /// The protocol of the payload, converted from network order.
    pub fn ether_type(&self) -> (r: EtherType)
        requires
            self.wf(),
        ensures
            r.0 == eth_type(self.buf(), self.spec_offset() as int),
    {
        proof {
            self.lemma_header_fits();
        }
        EtherType::new(get_u16(self, self.offset + 12))
    }

    /// Stores `ether_type` in network order.
    pub fn set_ether_type(&mut self, ether_type: EtherType)
        requires
            old(self).wf(),
        ensures
            final(self).wf(),
            final(self).spec_offset() == old(self).spec_offset(),
            final(self).buf() == put_u16(old(self).buf(), old(self).spec_offset() as int + 12, ether_type.0),
    {
        proof {
            self.lemma_header_fits();
        }
        let at = self.offset + 12;
        set_u16(self, at, ether_type.0);
    }

    /// All three fields, decoded.
    pub fn header(&self) -> (r: EthernetHeader)
        requires
            self.wf(),
        ensures
            r.dst@ == eth_dst(self.buf(), self.spec_offset() as int),
            r.src@ == eth_src(self.buf(), self.spec_offset() as int),
            r.ether_type.0 == eth_type(self.buf(), self.spec_offset() as int),
    {
        EthernetHeader { dst: self.dst(), src: self.src(), ether_type: self.ether_type() }
    }

    /// A one-line summary: `<source> > <destination>, ether_type: <type>`.
    pub fn to_string(&self) -> (r: String)
        requires
            self.wf(),
        ensures
            r@ == mac_text(eth_src(self.buf(), self.spec_offset() as int)) + " > "@ + mac_text(
                eth_dst(self.buf(), self.spec_offset() as int),
            ) + ", ether_type: "@ + ether_type_text(eth_type(self.buf(), self.spec_offset() as int)),
    {
        let mut s = self.src().to_string();
        s.append(" > ");
        s.append(self.dst().to_string().as_str());
        s.append(", ether_type: ");
        s.append(self.ether_type().to_string().as_str());
        s
    }
}

impl Packet for Ethernet {
    type Header = EthernetHeader;

    closed spec fn buf(&self) -> Seq<u8> {
        self.envelope.buf()
    }

    closed spec fn spec_offset(&self) -> nat {
        self.offset as nat
    }

    closed spec fn wf(&self) -> bool {
        &&& self.offset == 0
        &&& self.offset + 14 <= self.envelope.buf().len()
    }

    proof fn lemma_header_fits(&self) {
    }

    fn offset(&self) -> (r: usize) {
        self.offset
    }

    fn header_len(&self) -> (r: usize) {
        EthernetHeader::size()
    }

    fn mbuf(&self) -> (r: &RawPacket) {
        &self.envelope
    }

    fn data(&self) -> (r: &[u8]) {
        self.envelope.data()
    }

    fn set_byte(&mut self, at: usize, v: u8) {
        self.envelope.set_byte(at, v);
    }
}

impl Layer for Ethernet {
    type Envelope = RawPacket;

    closed spec fn spec_envelope(&self) -> RawPacket {
        self.envelope
    }

    proof fn lemma_chained(&self) {
    }

    fn envelope(&self) -> (r: &RawPacket) {
        &self.envelope
    }

    fn from_packet(envelope: RawPacket, offset: usize) -> (r: Self) {
        Ethernet { envelope, offset }
    }
}

} // verus!
