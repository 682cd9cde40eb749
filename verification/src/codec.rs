//! Path codec: reversible encoding of arbitrary path bytes into a string
//! drawn only from characters legal in a URI host component.
//!
//! The alphabet is hexadecimal: every byte becomes exactly two digits,
//! so any byte sequence — empty, with null bytes, or not valid text —
//! can travel inside a host component and be recovered exactly
//! ([`lemma_round_trip`]).  `encode` emits lower-case digits; `decode`
//! accepts either case.

use vstd::prelude::*;

verus! {

/// Failure of [`decode`]: the input has a character outside the
/// hexadecimal alphabet, or an odd number of digits.
#[derive(Clone, Copy, Debug, PartialEq, Eq, Structural)]
pub enum DecodeError {
    InvalidEncoding,
}

/// The lower-case hexadecimal digit for a value below sixteen.
pub open spec fn hex_char_lower(v: u8) -> char {
    if v == 0 {
        '0'
    } else if v == 1 {
        '1'
    } else if v == 2 {
        '2'
    } else if v == 3 {
        '3'
    } else if v == 4 {
        '4'
    } else if v == 5 {
        '5'
    } else if v == 6 {
        '6'
    } else if v == 7 {
        '7'
    } else if v == 8 {
        '8'
    } else if v == 9 {
        '9'
    } else if v == 10 {
        'a'
    } else if v == 11 {
        'b'
    } else if v == 12 {
        'c'
    } else if v == 13 {
        'd'
    } else if v == 14 {
        'e'
    } else {
        'f'
    }
}

/// Does `c` belong to the codec's alphabet (a hexadecimal digit of
/// either case)?
pub open spec fn is_hex_digit(c: char) -> bool {
    ('0' <= c && c <= '9') || ('a' <= c && c <= 'f') || ('A' <= c && c <= 'F')
}

/// The value of the hexadecimal digit `c` (meaningful when
/// `is_hex_digit(c)` holds).
pub open spec fn hex_digit_value(c: char) -> u8 {
    if '0' <= c && c <= '9' {
        (c as int - '0' as int) as u8
    } else if 'a' <= c && c <= 'f' {
        (c as int - 'a' as int + 10) as u8
    } else if 'A' <= c && c <= 'F' {
        (c as int - 'A' as int + 10) as u8
    } else {
        0
    }
}

/// The hexadecimal encoding of `bytes`: two digits per byte, high
/// nibble first, lower case.
pub open spec fn encoded(bytes: Seq<u8>) -> Seq<char> {
    Seq::new(
        bytes.len() * 2,
        |i: int|
            if i % 2 == 0 {
                hex_char_lower(bytes[i / 2] / 16)
            } else {
                hex_char_lower(bytes[i / 2] % 16)
            },
    )
}

/// Is `s` a well-formed encoding: an even number of characters, all of
/// them hexadecimal digits?
pub open spec fn valid_hex(s: Seq<char>) -> bool {
    s.len() % 2 == 0 && forall|i: int| 0 <= i < s.len() ==> is_hex_digit(#[trigger] s[i])
}

/// The bytes spelled by a well-formed encoding `s`: each digit pair
/// gives one byte, high nibble first.
pub open spec fn decoded(s: Seq<char>) -> Seq<u8> {
    Seq::new(
        s.len() / 2,
        |i: int|
            ((hex_digit_value(s[2 * i]) as int) * 16 + (hex_digit_value(s[2 * i + 1]) as int)) as u8,
    )
}

/// Round trip: decoding recovers exactly the byte sequence that was
/// encoded, for every byte sequence — empty, with null bytes, or not
/// valid text.
pub proof fn lemma_round_trip(p: Seq<u8>)
    ensures
        valid_hex(encoded(p)),
        decoded(encoded(p)) == p,
{
    assert forall|i: int| 0 <= i < encoded(p).len() implies is_hex_digit(#[trigger] encoded(p)[i]) by {
        lemma_hex_digit_inverse(if i % 2 == 0 {
            p[i / 2] / 16
        } else {
            p[i / 2] % 16
        });
    }
    assert forall|i: int| 0 <= i < p.len() implies decoded(encoded(p))[i] == p[i] by {
        let b = p[i];
        lemma_hex_digit_inverse(b / 16);
        lemma_hex_digit_inverse(b % 16);
        assert(encoded(p)[2 * i] == hex_char_lower(b / 16));
        assert(encoded(p)[2 * i + 1] == hex_char_lower(b % 16));
        assert((b / 16) as int * 16 + (b % 16) as int == b as int);
    }
    assert(decoded(encoded(p)) =~= p);
}

/// Every value below sixteen is spelled by a digit of the alphabet, and
/// reading that digit back gives the value again.
proof fn lemma_hex_digit_inverse(v: u8)
    requires
        v < 16,
    ensures
        is_hex_digit(hex_char_lower(v)),
        hex_digit_value(hex_char_lower(v)) == v,
{
}

/// Encode arbitrary path bytes as a host string: two lower-case
/// hexadecimal digits for each byte.
pub fn encode(path: &[u8]) -> (r: String)
    ensures
        r@ == encoded(path@),
{
    let digits = "0123456789abcdef";
    let mut out = String::new();
    let mut i: usize = 0;
    proof {
        assert(encoded(path@).subrange(0, 0) =~= Seq::<char>::empty());
    }
    while i < path.len()
        invariant
            i <= path@.len(),
            digits@ == "0123456789abcdef"@,
            out@ == encoded(path@).subrange(0, 2 * i as int),
        decreases path@.len() - i,
    {
        proof {
            reveal_strlit("0123456789abcdef");
        }
        let b = path[i];
        let hi = (b / 16) as usize;
        let lo = (b % 16) as usize;
        assert(hi < 16 && lo < 16);
        let hs = digits.substring_char(hi, hi + 1);
        let ls = digits.substring_char(lo, lo + 1);
        out.append(hs);
        out.append(ls);
        proof {
            assert(digits@[hi as int] == hex_char_lower(b / 16));
            assert(digits@[lo as int] == hex_char_lower(b % 16));
            assert(out@ =~= encoded(path@).subrange(0, 2 * (i + 1) as int));
        }
        i = i + 1;
    }
    proof {
        assert(out@ =~= encoded(path@));
    }
    out
}

/// The value of one digit, or `None` outside the alphabet.
fn hex_value(c: char) -> (r: Option<u8>)
    ensures
        match r {
            Some(v) => is_hex_digit(c) && v == hex_digit_value(c) && v < 16,
            None => !is_hex_digit(c),
        },
{
    match c {
        '0' => Some(0),
        '1' => Some(1),
        '2' => Some(2),
        '3' => Some(3),
        '4' => Some(4),
        '5' => Some(5),
        '6' => Some(6),
        '7' => Some(7),
        '8' => Some(8),
        '9' => Some(9),
        'a' | 'A' => Some(10),
        'b' | 'B' => Some(11),
        'c' | 'C' => Some(12),
        'd' | 'D' => Some(13),
        'e' | 'E' => Some(14),
        'f' | 'F' => Some(15),
        _ => None,
    }
}

/// Decode a host string back into the path bytes it spells.  Succeeds
/// exactly on well-formed encodings (an even number of hexadecimal
/// digits); anything else is rejected without a guess.
pub fn decode(s: &str) -> (r: Result<Vec<u8>, DecodeError>)
    ensures
        match r {
            Ok(v) => valid_hex(s@) && v@ == decoded(s@),
            Err(e) => !valid_hex(s@) && e == DecodeError::InvalidEncoding,
        },
{
    let n = s.unicode_len();
    if n % 2 != 0 {
        return Err(DecodeError::InvalidEncoding);
    }
    let mut out: Vec<u8> = Vec::new();
    let mut i: usize = 0;
    while i < n / 2
        invariant
            n == s@.len(),
            n % 2 == 0,
            i <= n / 2,
            out@.len() == i,
            forall|j: int| 0 <= j < 2 * i ==> is_hex_digit(#[trigger] s@[j]),
            forall|j: int|
                0 <= j < i ==> out@[j] == ((hex_digit_value(s@[2 * j]) as int) * 16 + (
                hex_digit_value(s@[2 * j + 1]) as int)) as u8,
        decreases n / 2 - i,
    {
        let c_hi = s.get_char(2 * i);
        let c_lo = s.get_char(2 * i + 1);
        let hi = match hex_value(c_hi) {
            Some(v) => v,
            None => {
                return Err(DecodeError::InvalidEncoding);
            },
        };
        let lo = match hex_value(c_lo) {
            Some(v) => v,
            None => {
                return Err(DecodeError::InvalidEncoding);
            },
        };
        out.push(hi * 16 + lo);
        i = i + 1;
    }
    proof {
        assert(out@ =~= decoded(s@));
    }
    Ok(out)
}

} // verus!
