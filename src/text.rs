//! Human-readable renderings: lowercase hexadecimal and decimal digits.

use vstd::prelude::*;
use vstd::string::*;

verus! {

/// The digits of base sixteen, lowercase; the first ten are also the
/// decimal digits.
pub open spec fn digits() -> Seq<char> {
    seq!['0', '1', '2', '3', '4', '5', '6', '7', '8', '9', 'a', 'b', 'c', 'd', 'e', 'f']
}

/// `b` as two lowercase hexadecimal digits.
pub open spec fn hex2(b: u8) -> Seq<char> {
    seq![digits()[b as int / 16], digits()[b as int % 16]]
}

/// `v` as four lowercase hexadecimal digits, zero-padded.
pub open spec fn hex4(v: u16) -> Seq<char> {
    seq![
        digits()[v as int / 4096],
        digits()[(v as int / 256) % 16],
        digits()[(v as int / 16) % 16],
        digits()[v as int % 16],
    ]
}

/// `n` in decimal, without leading zeros.
pub open spec fn decimal(n: nat) -> Seq<char>
    decreases n,
{
    if n < 10 {
        seq![digits()[n as int]]
    } else {
        decimal(n / 10).push(digits()[(n % 10) as int])
    }
}

/// Appends the digit of value `d`.
pub fn push_digit(s: &mut String, d: u8)
    requires
        d < 16,
    ensures
        final(s)@ == old(s)@.push(digits()[d as int]),
{
    let all = "0123456789abcdef";
    proof {
        reveal_strlit("0123456789abcdef");
    }
    let one = all.substring_ascii(d as usize, d as usize + 1);
    assert(one@ =~= seq![digits()[d as int]]);
    s.append(one);
}

/// Appends `b` as two lowercase hexadecimal digits.
pub fn push_hex2(s: &mut String, b: u8)
    ensures
        final(s)@ == old(s)@ + hex2(b),
{
    push_digit(s, b / 16);
    push_digit(s, b % 16);
    assert(final(s)@ =~= old(s)@ + hex2(b));
}

/// Appends `v` as four lowercase hexadecimal digits.
pub fn push_hex4(s: &mut String, v: u16)
    ensures
        final(s)@ == old(s)@ + hex4(v),
{
    push_digit(s, (v / 4096) as u8);
    push_digit(s, ((v / 256) % 16) as u8);
    push_digit(s, ((v / 16) % 16) as u8);
    push_digit(s, (v % 16) as u8);
    assert(final(s)@ =~= old(s)@ + hex4(v));
}

/// Appends `n` in decimal.
pub fn push_decimal(s: &mut String, n: u16)
    ensures
        final(s)@ == old(s)@ + decimal(n as nat),
    decreases n,
{
    if n >= 10 {
        push_decimal(s, n / 10);
    }
    push_digit(s, (n % 10) as u8);
    assert(final(s)@ =~= old(s)@ + decimal(n as nat));
}

} // verus!
