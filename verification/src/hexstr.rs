//! Hex text: the mathematical meaning of lowercase hex encoding and of hex
//! decoding, and the two calls into the `hex` crate that carry them out.

use vstd::prelude::*;

verus! {

/// The lowercase hex digit for a nibble value.
pub open spec fn nibble_char(n: u8) -> char {
    if n == 0 {
        '0'
    } else if n == 1 {
        '1'
    } else if n == 2 {
        '2'
    } else if n == 3 {
        '3'
    } else if n == 4 {
        '4'
    } else if n == 5 {
        '5'
    } else if n == 6 {
        '6'
    } else if n == 7 {
        '7'
    } else if n == 8 {
        '8'
    } else if n == 9 {
        '9'
    } else if n == 10 {
        'a'
    } else if n == 11 {
        'b'
    } else if n == 12 {
        'c'
    } else if n == 13 {
        'd'
    } else if n == 14 {
        'e'
    } else {
        'f'
    }
}

/// The value of a hex digit (either case), or -1 for any other character.
pub open spec fn hex_char_val(c: char) -> int {
    match c {
        '0' => 0,
        '1' => 1,
        '2' => 2,
        '3' => 3,
        '4' => 4,
        '5' => 5,
        '6' => 6,
        '7' => 7,
        '8' => 8,
        '9' => 9,
        'a' => 10,
        'b' => 11,
        'c' => 12,
        'd' => 13,
        'e' => 14,
        'f' => 15,
        'A' => 10,
        'B' => 11,
        'C' => 12,
        'D' => 13,
        'E' => 14,
        'F' => 15,
        _ => -1,
    }
}

pub open spec fn is_hex_digit(c: char) -> bool {
    hex_char_val(c) >= 0
}

/// The lowercase hex encoding of a byte sequence: two digits per byte,
/// high nibble first, no separators.
pub open spec fn hex_of(bytes: Seq<u8>) -> Seq<char> {
    Seq::new(
        bytes.len() * 2,
        |i: int|
            if i % 2 == 0 {
                nibble_char(((bytes[i / 2] as int) / 16) as u8)
            } else {
                nibble_char(((bytes[i / 2] as int) % 16) as u8)
            },
    )
}

/// A decodable hex string: even length, hex digits only (either case).
pub open spec fn is_hex_str(s: Seq<char>) -> bool {
    s.len() % 2 == 0 && (forall|i: int| 0 <= i < s.len() ==> is_hex_digit(#[trigger] s[i]))
}

/// The bytes a hex string stands for.
pub open spec fn bytes_of_hex(s: Seq<char>) -> Seq<u8> {
    Seq::new(
        s.len() / 2,
        |i: int| (hex_char_val(s[2 * i]) * 16 + hex_char_val(s[2 * i + 1])) as u8,
    )
}

/// Relies on `hex::encode`: lowercase hex, two digits per byte, in order.
#[verifier::external_body]
pub(crate) fn hex_encode(bytes: &[u8]) -> (r: String)
    ensures
        r@ == hex_of(bytes@),
{
    hex::encode(bytes)
}

/// Relies on `hex::decode`: rejects exactly the strings of odd length or
/// with a non-hex character (digits of either case are accepted).
#[verifier::external_body]
pub(crate) fn hex_decode(s: &str) -> (r: Option<Vec<u8>>)
    ensures
        r is Some <==> is_hex_str(s@),
        r matches Some(v) ==> v@ == bytes_of_hex(s@),
{
    hex::decode(s).ok()
}

proof fn lemma_nibble_char(n: u8)
    requires
        n < 16,
    ensures
        is_hex_digit(nibble_char(n)),
        hex_char_val(nibble_char(n)) == n as int,
{
}

/// Law: hex encoding always yields a decodable string of twice the length,
/// and decoding it gives the original bytes back.
pub proof fn lemma_hex_round_trip(b: Seq<u8>)
    ensures
        hex_of(b).len() == 2 * b.len(),
        is_hex_str(hex_of(b)),
        bytes_of_hex(hex_of(b)) == b,
{
    let h = hex_of(b);
    assert forall|i: int| 0 <= i < h.len() implies is_hex_digit(#[trigger] h[i]) by {
        let bi = b[i / 2];
        lemma_nibble_char(((bi as int) / 16) as u8);
        lemma_nibble_char(((bi as int) % 16) as u8);
    }
    assert forall|i: int| 0 <= i < b.len() implies bytes_of_hex(h)[i] == b[i] by {
        let bi = b[i];
        lemma_nibble_char(((bi as int) / 16) as u8);
        lemma_nibble_char(((bi as int) % 16) as u8);
        assert(h[2 * i] == nibble_char(((bi as int) / 16) as u8));
        assert(h[2 * i + 1] == nibble_char(((bi as int) % 16) as u8));
        assert(((bi as int) / 16) * 16 + (bi as int) % 16 == bi as int) by {
            vstd::arithmetic::div_mod::lemma_fundamental_div_mod(bi as int, 16);
        }
    }
    assert(bytes_of_hex(hex_of(b)) =~= b);
}

} // verus!
