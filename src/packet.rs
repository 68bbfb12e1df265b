//! The overlay protocol: a buffer, and the chain of typed layers laid over it.

use vstd::prelude::*;

use crate::wire::{put_u16, read_u16_be, u16_at};

verus! {

/// A type with one constant byte size on the wire.
pub trait Fixed: Sized {
    /// The size in bytes.
    spec fn spec_size() -> nat;

    fn size() -> (r: usize)
        ensures
            r as nat == Self::spec_size(),
    ;
}

/// A fixed-size structure that can be laid over a buffer as a protocol header.
pub trait Header: Fixed {

}

/// Why a layer could not be laid over the buffer.
#[derive(Debug, Clone, Copy, PartialEq, Eq, Structural)]
pub enum ParseError {
    /// The header does not fit between its offset and the end of the buffer.
    BufferTooShort,
}

/// The buffer or a layer over it: where its header starts, how long that
/// header is, and access to the buffer that all layers of a chain share.
pub trait Packet: Sized {
    /// The wire-format header this layer overlays.
    type Header: Header;

    /// The contents of the whole underlying buffer.
    spec fn buf(&self) -> Seq<u8>;

    /// Where this layer's header starts in the buffer.
    spec fn spec_offset(&self) -> nat;

    /// The chain down to the buffer is sound: each header lies at the end of
    /// its envelope's header, and within the buffer.
    spec fn wf(&self) -> bool;

    /// A well-formed layer's header lies within the buffer.
    proof fn lemma_header_fits(&self)
        requires
            self.wf(),
        ensures
            self.spec_offset() + Self::Header::spec_size() <= self.buf().len(),
    ;

    fn offset(&self) -> (r: usize)
        ensures
            r as nat == self.spec_offset(),
    ;

    fn header_len(&self) -> (r: usize)
        ensures
            r as nat == Self::Header::spec_size(),
    ;

    /// The buffer under the whole chain.
    fn mbuf(&self) -> (r: &RawPacket)
        ensures
            r.contents() == self.buf(),
    ;

    /// The bytes of the whole buffer.
    fn data(&self) -> (r: &[u8])
        ensures
            r@ == self.buf(),
    ;

    /// Overwrites one byte of the buffer; nothing else about the chain changes.
    fn set_byte(&mut self, at: usize, v: u8)
        requires
            old(self).wf(),
            at < old(self).buf().len(),
        ensures
            final(self).wf(),
            final(self).buf() == old(self).buf().update(at as int, v),
            final(self).spec_offset() == old(self).spec_offset(),
    ;
}

/// A layer parsed from another: a header overlay, as opposed to the buffer.
pub trait Layer: Packet {
    /// The layer (or the buffer itself) that this one was parsed from.
    type Envelope: Packet;

    /// The layer that produced this one.
    spec fn spec_envelope(&self) -> Self::Envelope;

    /// A well-formed layer starts where its envelope's header ends, over
    /// the same buffer, and its envelope is well-formed too.
    proof fn lemma_chained(&self)
        requires
            self.wf(),
        ensures
            self.spec_envelope().wf(),
            self.spec_offset() == self.spec_envelope().spec_offset()
                + <Self::Envelope as Packet>::Header::spec_size(),
            self.buf() == self.spec_envelope().buf(),
    ;

    fn envelope(&self) -> (r: &Self::Envelope)
        ensures
            *r == self.spec_envelope(),
    ;

    /// Builds this layer over `envelope`, with its header at `offset`.
    fn from_packet(envelope: Self::Envelope, offset: usize) -> (r: Self)
        requires
            envelope.wf(),
            offset == envelope.spec_offset() + <Self::Envelope as Packet>::Header::spec_size(),
            offset + Self::Header::spec_size() <= envelope.buf().len(),
        ensures
            r.wf(),
            r.spec_envelope() == envelope,
            r.spec_offset() == offset,
            r.buf() == envelope.buf(),
    ;
}

/// Lays the next layer `T` over the buffer, right after this layer's
/// header; fails when `T`'s header would run past the end of the buffer.
pub fn parse<E: Packet, T: Layer<Envelope = E>>(envelope: E) -> (r: Result<T, ParseError>)
    requires
        envelope.wf(),
    ensures
        r.is_ok() <==> next_fits::<E, T>(&envelope),
        r matches Ok(t) ==> {
            &&& t.wf()
            &&& t.spec_envelope() == envelope
            &&& t.spec_offset() == envelope.spec_offset() + E::Header::spec_size()
            &&& t.buf() == envelope.buf()
        },
        r matches Err(e) ==> e == ParseError::BufferTooShort,
{
    proof {
        envelope.lemma_header_fits();
    }
    let len = envelope.data().len();
    let offset = envelope.offset() + envelope.header_len();
    if T::Header::size() > len - offset {
        Err(ParseError::BufferTooShort)
    } else {
        Ok(T::from_packet(envelope, offset))
    }
}

/// Whether a header of `T` fits in the buffer right after `p`'s header.
pub open spec fn next_fits<P: Packet, T: Packet>(p: &P) -> bool {
    p.spec_offset() + P::Header::spec_size() + T::Header::spec_size() <= p.buf().len()
}

/// Reads the 16-bit field at `at` of the buffer under `p`, in host order.
pub fn get_u16<P: Packet>(p: &P, at: usize) -> (r: u16)
    requires
        at + 2 <= p.buf().len(),
    ensures
        r == u16_at(p.buf(), at as int),
{
    read_u16_be(p.data(), at)
}

/// Writes `v` in network order at `at` of the buffer under `p`.
pub fn set_u16<P: Packet>(p: &mut P, at: usize, v: u16)
    requires
        old(p).wf(),
        at + 2 <= old(p).buf().len(),
    ensures
        final(p).wf(),
        final(p).buf() == put_u16(old(p).buf(), at as int, v),
        final(p).spec_offset() == old(p).spec_offset(),
{
    let n = p.data().len();
    assert(at + 2 <= n);
    p.set_byte(at, (v / 256) as u8);
    p.set_byte(at + 1, (v % 256) as u8);
}

/// `s` with the bytes `b` written from `at` on.
pub open spec fn put_bytes(s: Seq<u8>, at: int, b: Seq<u8>) -> Seq<u8> {
    s.subrange(0, at) + b + s.subrange(at + b.len(), s.len() as int)
}

/// Writes the bytes `b` from `at` on, into the buffer under `p`.
pub fn set_bytes<P: Packet>(p: &mut P, at: usize, b: &[u8])
    requires
        old(p).wf(),
        at + b@.len() <= old(p).buf().len(),
    ensures
        final(p).wf(),
        final(p).buf() == put_bytes(old(p).buf(), at as int, b@),
        final(p).spec_offset() == old(p).spec_offset(),
{
    let ghost s0 = p.buf();
    let n = p.data().len();
    let mut i: usize = 0;
    assert(put_bytes(s0, at as int, b@.subrange(0, 0)) =~= s0);
    while i < b.len()
        invariant
            p.wf(),
            0 <= i <= b@.len(),
            at + b@.len() <= n,
            n == s0.len(),
            p.buf() == put_bytes(s0, at as int, b@.subrange(0, i as int)),
            p.spec_offset() == old(p).spec_offset(),
        decreases b@.len() - i,
    {
        p.set_byte(at + i, b[i]);
        i += 1;
        assert(p.buf() =~= put_bytes(s0, at as int, b@.subrange(0, i as int)));
    }
    assert(b@.subrange(0, i as int) =~= b@);
}

/// The header of the buffer itself: nothing.
#[derive(Debug, Clone, Copy, PartialEq, Eq, Structural)]
pub struct NoHeader;

impl Fixed for NoHeader {
    open spec fn spec_size() -> nat {
        0
    }

    fn size() -> (r: usize) {
        0
    }
}

impl Header for NoHeader {

}

/// The packet buffer: the root of every chain of layers.
pub struct RawPacket {
    data: Vec<u8>,
}

impl RawPacket {
    /// What the buffer holds.
    pub closed spec fn contents(&self) -> Seq<u8> {
        self.data@
    }

    /// A buffer holding a copy of `bytes`.
    pub fn from_bytes(bytes: &[u8]) -> (r: RawPacket)
        ensures
            r.buf() == bytes@,
    {
        RawPacket { data: vstd::slice::slice_to_vec(bytes) }
    }

    /// The buffer's length in bytes.
    pub fn len(&self) -> (r: usize)
        ensures
            r as nat == self.buf().len(),
    {
        self.data.len()
    }
}

impl Packet for RawPacket {
    type Header = NoHeader;

    open spec fn buf(&self) -> Seq<u8> {
        self.contents()
    }

    open spec fn spec_offset(&self) -> nat {
        0
    }

    open spec fn wf(&self) -> bool {
        true
    }

    proof fn lemma_header_fits(&self) {
        assert(NoHeader::spec_size() == 0);
    }

    fn offset(&self) -> (r: usize) {
        0
    }

    fn header_len(&self) -> (r: usize) {
        NoHeader::size()
    }

    fn mbuf(&self) -> (r: &RawPacket) {
        self
    }

    fn data(&self) -> (r: &[u8]) {
        self.data.as_slice()
    }

    fn set_byte(&mut self, at: usize, v: u8) {
        self.data.set(at, v);
    }
}

} // verus!
