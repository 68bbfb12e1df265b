//! Network byte order: how a multi-byte integer is laid out on the wire.

use vstd::prelude::*;

verus! {

/// The value of the big-endian pair `[hi, lo]`.
pub open spec fn be16(hi: u8, lo: u8) -> u16 {
    (hi as nat * 256 + lo as nat) as u16
}

/// The first (most significant) byte of `v` on the wire.
pub open spec fn be16_hi(v: u16) -> u8 {
    (v / 256) as u8
}

/// The second (least significant) byte of `v` on the wire.
pub open spec fn be16_lo(v: u16) -> u8 {
    (v % 256) as u8
}

/// The 16-bit big-endian integer stored at `at` in `s`.
pub open spec fn u16_at(s: Seq<u8>, at: int) -> u16 {
    be16(s[at], s[at + 1])
}

/// The 32-bit big-endian integer stored at `at` in `s`.
pub open spec fn u32_at(s: Seq<u8>, at: int) -> u32 {
    (u16_at(s, at) as nat * 65536 + u16_at(s, at + 2) as nat) as u32
}

/// `s` with `v` written in big-endian order at `at`.
pub open spec fn put_u16(s: Seq<u8>, at: int, v: u16) -> Seq<u8> {
    s.update(at, be16_hi(v)).update(at + 1, be16_lo(v))
}

/// The bytes that `v` occupies on the wire, most significant first.
pub open spec fn be16_bytes(v: u16) -> Seq<u8> {
    seq![be16_hi(v), be16_lo(v)]
}

/// Splitting a value into its wire bytes and joining them again gives it back.
pub proof fn lemma_be16_split_join(v: u16)
    ensures
        be16(be16_hi(v), be16_lo(v)) == v,
{
}

/// A value written at `at` reads back unchanged, and no other byte moves.
pub proof fn lemma_put_then_read(s: Seq<u8>, at: int, v: u16)
    requires
        0 <= at,
        at + 2 <= s.len(),
    ensures
        u16_at(put_u16(s, at, v), at) == v,
        put_u16(s, at, v).len() == s.len(),
        forall|i: int| 0 <= i < s.len() && i != at && i != at + 1 ==> put_u16(s, at, v)[i] == s[i],
        put_u16(s, at, v).subrange(at, at + 2) == be16_bytes(v),
{
    lemma_be16_split_join(v);
    assert(put_u16(s, at, v).subrange(at, at + 2) =~= be16_bytes(v));
}

/// Reads the big-endian integer stored at `at`.
pub fn read_u16_be(bytes: &[u8], at: usize) -> (r: u16)
    requires
        at + 2 <= bytes@.len(),
    ensures
        r == u16_at(bytes@, at as int),
{
    let hi = bytes[at];
    let lo = bytes[at + 1];
    (hi as u16) * 256 + (lo as u16)
}

/// Reads the 32-bit big-endian integer stored at `at`.
pub fn read_u32_be(bytes: &[u8], at: usize) -> (r: u32)
    requires
        at + 4 <= bytes@.len(),
    ensures
        r == u32_at(bytes@, at as int),
{
    let n = bytes.len();
    assert(at + 4 <= n);
    let hi = read_u16_be(bytes, at);
    let lo = read_u16_be(bytes, at + 2);
    (hi as u32) * 65536 + (lo as u32)
}

/// Writing a value leaves every byte outside its two alone.
pub proof fn lemma_put_keeps_others(s: Seq<u8>, at: int, v: u16, other: int)
    requires
        0 <= at,
        at + 2 <= s.len(),
        0 <= other,
        other + 2 <= s.len(),
        other + 2 <= at || at + 2 <= other,
    ensures
        u16_at(put_u16(s, at, v), other) == u16_at(s, other),
{
}

} // verus!
