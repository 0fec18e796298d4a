//! The SHA-256 digest that a manifest publishes, as 64 hexadecimal digits.

use vstd::prelude::*;

verus! {

/// The value of one hexadecimal digit, in either letter case.
pub open spec fn hex_value(c: u8) -> Option<u8> {
    if 48 <= c <= 57 {
        Some((c - 48) as u8)
    } else if 97 <= c <= 102 {
        Some((c - 97 + 10) as u8)
    } else if 65 <= c <= 70 {
        Some((c - 65 + 10) as u8)
    } else {
        None
    }
}

pub open spec fn all_hex(s: Seq<u8>) -> bool {
    forall|i: int| 0 <= i < s.len() ==> (#[trigger] hex_value(s[i])) is Some
}

/// Byte `i` of the digest that the hexadecimal text `s` spells.
pub open spec fn hex_byte(s: Seq<u8>, i: int) -> u8 {
    (hex_value(s[2 * i])->0 * 16 + hex_value(s[2 * i + 1])->0) as u8
}

/// The 32 bytes that exactly 64 hexadecimal digits spell, high digit first.
pub open spec fn spec_decode_sha256(s: Seq<u8>) -> Option<Seq<u8>> {
    if s.len() == 64 && all_hex(s) {
        Some(Seq::new(32, |i: int| hex_byte(s, i)))
    } else {
        None
    }
}

/// The value of one hexadecimal digit.
pub fn nibble(c: u8) -> (r: Option<u8>)
    ensures
        r == hex_value(c),
        r matches Some(v) ==> v < 16,
{
    if 48 <= c && c <= 57 {
        Some(c - 48)
    } else if 97 <= c && c <= 102 {
        Some(c - 97 + 10)
    } else if 65 <= c && c <= 70 {
        Some(c - 65 + 10)
    } else {
        None
    }
}

/// Decodes a digest written as 64 hexadecimal digits.
pub fn decode_sha256(value: &[u8]) -> (r: Option<[u8; 32]>)
    ensures
        r is None <==> spec_decode_sha256(value@) is None,
        r matches Some(d) ==> spec_decode_sha256(value@) == Some(d@),
{
    if value.len() != 64 {
        return None;
    }
    let mut decoded: [u8; 32] = [0u8; 32];
    let mut index: usize = 0;
    while index < 32
        invariant
            value@.len() == 64,
            0 <= index <= 32,
            forall|j: int| 0 <= j < 2 * index ==> (#[trigger] hex_value(value@[j])) is Some,
            forall|j: int| 0 <= j < index ==> #[trigger] decoded@[j] == hex_byte(value@, j),
        decreases 32 - index,
    {
        let high = match nibble(value[index * 2]) {
            Some(v) => v,
            None => {
                assert(!all_hex(value@));
                return None;
            },
        };
        let low = match nibble(value[index * 2 + 1]) {
            Some(v) => v,
            None => {
                assert(!all_hex(value@));
                return None;
            },
        };
        let byte: u8 = high << 4 | low;
        assert(byte == high * 16 + low) by (bit_vector)
            requires
                high < 16,
                low < 16,
                byte == high << 4 | low,
        ;
        decoded[index] = byte;
        index = index + 1;
    }
    assert(decoded@ =~= Seq::new(32, |i: int| hex_byte(value@, i)));
    Some(decoded)
}

/// A hexadecimal digit: `0`-`9`, `a`-`f` or `A`-`F`.
pub open spec fn is_hex_digit(c: u8) -> bool {
    48 <= c <= 57 || 97 <= c <= 102 || 65 <= c <= 70
}

/// The number a hexadecimal digit stands for: `0`-`9` are 0 to 9, and
/// `a`-`f` and `A`-`F` are 10 to 15.
pub open spec fn digit_number(c: u8) -> int {
    if c <= 57 {
        c - 48
    } else if c <= 70 {
        c - 55
    } else {
        c - 87
    }
}

/// 64 hexadecimal digits spell 32 bytes, and byte `i` is the two-digit
/// number that digits `2i` and `2i + 1` write, the first of them the high
/// digit: `ab` at those places gives the byte `0xab`.
pub proof fn lemma_digest_bytes_high_digit_first(s: Seq<u8>)
    requires
        s.len() == 64,
        forall|j: int| 0 <= j < 64 ==> #[trigger] is_hex_digit(s[j]),
    ensures
        spec_decode_sha256(s) is Some,
        spec_decode_sha256(s)->0.len() == 32,
        forall|i: int|
            0 <= i < 32 ==> #[trigger] spec_decode_sha256(s)->0[i] == 16 * digit_number(s[2 * i])
                + digit_number(s[2 * i + 1]),
{
    assert(all_hex(s)) by {
        assert forall|j: int| 0 <= j < s.len() implies (#[trigger] hex_value(s[j])) is Some by {
            assert(is_hex_digit(s[j]));
        }
    }
    assert forall|i: int| 0 <= i < 32 implies #[trigger] spec_decode_sha256(s)->0[i] == 16
        * digit_number(s[2 * i]) + digit_number(s[2 * i + 1]) by {
        assert(is_hex_digit(s[2 * i]));
        assert(is_hex_digit(s[2 * i + 1]));
    }
}

/// Text that is not exactly 64 hexadecimal digits spells no digest.
pub proof fn lemma_digest_needs_64_hex_digits(s: Seq<u8>)
    ensures
        s.len() != 64 ==> spec_decode_sha256(s) is None,
        (exists|j: int| 0 <= j < s.len() && !#[trigger] is_hex_digit(s[j])) ==> spec_decode_sha256(
            s,
        ) is None,
{
    if exists|j: int| 0 <= j < s.len() && !#[trigger] is_hex_digit(s[j]) {
        let j = choose|j: int| 0 <= j < s.len() && !#[trigger] is_hex_digit(s[j]);
        assert(hex_value(s[j]) is None);
    }
}

} // verus!
