//! Lowercase hexadecimal text for byte strings.

use vstd::prelude::*;

verus! {

/// The lowercase hex digit for a nibble value below 16.
pub open spec fn hex_digit(n: int) -> char {
    if n < 10 {
        (48 + n) as char
    } else {
        (87 + n) as char
    }
}

/// The value of a lowercase hex digit.
pub open spec fn digit_value(c: char) -> int {
    if c as int <= 57 {
        c as int - 48
    } else {
        c as int - 87
    }
}

/// Each byte as two lowercase hex digits, high nibble first.
pub open spec fn hex_of(b: Seq<u8>) -> Seq<char>
    decreases b.len(),
{
    if b.len() == 0 {
        Seq::empty()
    } else {
        hex_of(b.drop_last()) + seq![hex_digit(b.last() as int / 16), hex_digit(b.last() as int % 16)]
    }
}

/// Reads a text of lowercase hex digit pairs back into bytes.
pub open spec fn bytes_of_hex(s: Seq<char>) -> Seq<u8>
    decreases s.len(),
{
    if s.len() < 2 {
        Seq::empty()
    } else {
        let n = s.len();
        bytes_of_hex(s.subrange(0, n - 2)).push(
            (16 * digit_value(s[n - 2]) + digit_value(s[n - 1])) as u8,
        )
    }
}

/// Hex text is twice as long as the bytes it encodes.
pub proof fn lemma_hex_len(b: Seq<u8>)
    ensures
        hex_of(b).len() == 2 * b.len(),
    decreases b.len(),
{
    if b.len() > 0 {
        lemma_hex_len(b.drop_last());
    }
}

/// Reading hex text back gives the encoded bytes.
pub proof fn lemma_hex_round_trip(b: Seq<u8>)
    ensures
        bytes_of_hex(hex_of(b)) == b,
    decreases b.len(),
{
    if b.len() > 0 {
        let p = b.drop_last();
        let x = b.last() as int;
        lemma_hex_len(b);
        lemma_hex_len(p);
        lemma_hex_round_trip(p);
        let h = hex_of(b);
        assert(h.subrange(0, h.len() - 2) =~= hex_of(p));
        assert(digit_value(hex_digit(x / 16)) == x / 16);
        assert(digit_value(hex_digit(x % 16)) == x % 16);
        assert(b =~= p.push(b.last()));
    }
}

/// Relies on hex::encode: each byte becomes two lowercase hex digits, high
/// nibble first, in the order of the input.
#[verifier::external_body]
pub(crate) fn to_hex(bytes: &[u8]) -> (r: String)
    ensures
        r@ == hex_of(bytes@),
{
    hex::encode(bytes)
}

} // verus!
