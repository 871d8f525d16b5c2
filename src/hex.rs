//! Upper-case hexadecimal rendering of bytes.

use vstd::prelude::*;

verus! {

/// Upper-case hexadecimal digit for a value below 16.
pub open spec fn hex_char(n: int) -> char {
    if n == 0 { '0' }
    else if n == 1 { '1' }
    else if n == 2 { '2' }
    else if n == 3 { '3' }
    else if n == 4 { '4' }
    else if n == 5 { '5' }
    else if n == 6 { '6' }
    else if n == 7 { '7' }
    else if n == 8 { '8' }
    else if n == 9 { '9' }
    else if n == 10 { 'A' }
    else if n == 11 { 'B' }
    else if n == 12 { 'C' }
    else if n == 13 { 'D' }
    else if n == 14 { 'E' }
    else { 'F' }
}

/// Two upper-case hexadecimal digits of a byte, high nibble first.
pub open spec fn byte_hex(b: u8) -> Seq<char> {
    seq![hex_char(b as int / 16), hex_char(b as int % 16)]
}

/// Upper-case hexadecimal rendering of a byte sequence, no separators.
pub open spec fn hex_of(bytes: Seq<u8>) -> Seq<char>
    decreases bytes.len(),
{
    if bytes.len() == 0 {
        Seq::empty()
    } else {
        hex_of(bytes.drop_last()) + byte_hex(bytes.last())
    }
}

/// A one-character string holding the hexadecimal digit of `n`.
pub fn hex_digit(n: u8) -> (r: &'static str)
    requires
        n < 16,
    ensures
        r@ == seq![hex_char(n as int)],
{
    let digits = "0123456789ABCDEF";
    proof {
        reveal_strlit("0123456789ABCDEF");
    }
    let d = digits.substring_char(n as usize, n as usize + 1);
    assert(d@ =~= seq![hex_char(n as int)]);
    d
}

/// Appends the two hexadecimal digits of `b` to `s`.
pub fn push_byte_hex(s: &mut String, b: u8)
    ensures
        final(s)@ == old(s)@ + byte_hex(b),
{
    s.append(hex_digit(b / 16));
    s.append(hex_digit(b % 16));
    assert(final(s)@ =~= old(s)@ + byte_hex(b));
}

/// Upper-case hexadecimal rendering of `data` without separators.
pub fn encode(data: &[u8]) -> (r: String)
    ensures
        r@ == hex_of(data@),
{
    let mut s = String::new();
    let mut i: usize = 0;
    while i < data.len()
        invariant
            i <= data@.len(),
            s@ == hex_of(data@.subrange(0, i as int)),
        decreases data@.len() - i,
    {
        push_byte_hex(&mut s, data[i]);
        i = i + 1;
        assert(data@.subrange(0, i as int).drop_last() =~= data@.subrange(0, i - 1 as int));
    }
    assert(data@.subrange(0, data@.len() as int) =~= data@);
    s
}

/// `0x` followed by the two hexadecimal digits of `b`, as in `0x0A`.
pub fn byte_literal(b: u8) -> (r: String)
    ensures
        r@ == seq!['0', 'x'] + byte_hex(b),
{
    let mut s = String::from_str("0x");
    proof {
        reveal_strlit("0x");
    }
    assert(s@ =~= seq!['0', 'x']);
    push_byte_hex(&mut s, b);
    s
}

} // verus!
