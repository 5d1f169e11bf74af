//! Generation and validation of version-4 random identifiers.
//!
//! An identifier is a 128-bit value rendered as a 36-character string of
//! five hyphen-separated groups of lowercase hexadecimal digits, with group
//! lengths 8-4-4-4-12. The first digit of the third group is the version
//! marker `4`; the first digit of the fourth group carries the RFC 4122
//! variant, so it is one of `8`, `9`, `a`, `b`.

use rand::RngCore;
use vstd::prelude::*;

verus! {

/// A lowercase hexadecimal digit.
pub open spec fn is_lower_hex_digit(c: char) -> bool {
    ('0' <= c && c <= '9') || ('a' <= c && c <= 'f')
}

/// A digit whose top two bits are `10`: the RFC 4122 variant marker.
pub open spec fn is_variant_digit(c: char) -> bool {
    c == '8' || c == '9' || c == 'a' || c == 'b'
}

/// The character class that position `i` of a valid identifier must hold:
/// hyphens exactly at offsets 8, 13, 18 and 23, the version digit `4` at
/// offset 14, a variant digit at offset 19, and a lowercase hexadecimal
/// digit everywhere else.
pub open spec fn uuid_char_ok(s: Seq<char>, i: int) -> bool {
    if i == 8 || i == 13 || i == 18 || i == 23 {
        s[i] == '-'
    } else if i == 14 {
        s[i] == '4'
    } else if i == 19 {
        is_variant_digit(s[i])
    } else {
        is_lower_hex_digit(s[i])
    }
}

/// A valid identifier: exactly 36 characters, each of the class its
/// position prescribes.
pub open spec fn spec_is_valid_uuid(s: Seq<char>) -> bool {
    s.len() == 36 && forall|i: int| 0 <= i < 36 ==> #[trigger] uuid_char_ok(s, i)
}

/// Decides whether `value` is a valid version-4 identifier. The match is
/// anchored at both ends: only the exact 36-character form is accepted,
/// and uppercase hexadecimal digits are rejected.
pub fn is_valid_uuid(value: &str) -> (r: bool)
    ensures
        r == spec_is_valid_uuid(value@),
{
    let n: usize = value.unicode_len();
    if n != 36 {
        return false;
    }
    let mut i: usize = 0;
    while i < 36
        invariant
            value@.len() == 36,
            0 <= i <= 36,
            forall|j: int| 0 <= j < i ==> #[trigger] uuid_char_ok(value@, j),
        decreases 36 - i,
    {
        let c: char = value.get_char(i);
        let ok: bool = if i == 8 || i == 13 || i == 18 || i == 23 {
            c == '-'
        } else if i == 14 {
            c == '4'
        } else if i == 19 {
            c == '8' || c == '9' || c == 'a' || c == 'b'
        } else {
            ('0' <= c && c <= '9') || ('a' <= c && c <= 'f')
        };
        if !ok {
            assert(!uuid_char_ok(value@, i as int));
            return false;
        }
        i += 1;
    }
    true
}

/// The lowercase hexadecimal digit for a value below 16.
pub open spec fn hex_char(n: u8) -> char {
    if n == 0 {
        '0'
    } else if n == 1 {
        '1'
    } else if n == 2 {
        '2'
    } else if n == 3 {
        '3'
    } else if n == 4 {
        '4'
    } else if n == 5 {
        '5'
    } else if n == 6 {
        '6'
    } else if n == 7 {
        '7'
    } else if n == 8 {
        '8'
    } else if n == 9 {
        '9'
    } else if n == 10 {
        'a'
    } else if n == 11 {
        'b'
    } else if n == 12 {
        'c'
    } else if n == 13 {
        'd'
    } else if n == 14 {
        'e'
    } else {
        'f'
    }
}

/// The hexadecimal digit the table yields for a value below 16 is always
/// a lowercase hexadecimal digit.
pub proof fn lemma_hex_char_is_hex_digit(n: u8)
    requires
        n < 16,
    ensures
        is_lower_hex_digit(hex_char(n)),
{
}

/// Which of the 32 hexadecimal digits position `i` of the rendered string
/// holds, once the hyphens before it are discounted.
pub open spec fn hex_index(i: int) -> int {
    if i < 8 {
        i
    } else if i < 13 {
        i - 1
    } else if i < 18 {
        i - 2
    } else if i < 23 {
        i - 3
    } else {
        i - 4
    }
}

/// The character at position `i` of the rendering of `bytes`: a hyphen at
/// the four separator offsets, otherwise one nibble of the byte the
/// position falls in, high nibble first.
pub open spec fn uuid_char_at(bytes: Seq<u8>, i: int) -> char {
    if i == 8 || i == 13 || i == 18 || i == 23 {
        '-'
    } else {
        let b = bytes[hex_index(i) / 2];
        if hex_index(i) % 2 == 0 {
            hex_char(b >> 4)
        } else {
            hex_char(b & 0x0f)
        }
    }
}

/// The full 36-character rendering of a 16-byte value: 32 lowercase
/// hexadecimal digits in five hyphen-separated groups of 8-4-4-4-12.
pub open spec fn spec_format_uuid(bytes: Seq<u8>) -> Seq<char> {
    Seq::new(36, |i: int| uuid_char_at(bytes, i))
}

/// The one-character string for a hexadecimal digit value below 16.
fn hex_digit_str(n: u8) -> (r: &'static str)
    requires
        n < 16,
    ensures
        r@.len() == 1,
        r@[0] == hex_char(n),
{
    proof {
        reveal_strlit("0");
        reveal_strlit("1");
        reveal_strlit("2");
        reveal_strlit("3");
        reveal_strlit("4");
        reveal_strlit("5");
        reveal_strlit("6");
        reveal_strlit("7");
        reveal_strlit("8");
        reveal_strlit("9");
        reveal_strlit("a");
        reveal_strlit("b");
        reveal_strlit("c");
        reveal_strlit("d");
        reveal_strlit("e");
        reveal_strlit("f");
    }
    match n {
        0 => "0",
        1 => "1",
        2 => "2",
        3 => "3",
        4 => "4",
        5 => "5",
        6 => "6",
        7 => "7",
        8 => "8",
        9 => "9",
        10 => "a",
        11 => "b",
        12 => "c",
        13 => "d",
        14 => "e",
        _ => "f",
    }
}

/// Renders 16 bytes as the hyphenated lowercase hexadecimal identifier
/// string.
pub fn format_uuid(bytes: &Vec<u8>) -> (r: String)
    requires
        bytes@.len() == 16,
    ensures
        r@ == spec_format_uuid(bytes@),
{
    let mut r: String = String::from_str("");
    proof {
        reveal_strlit("");
    }
    let mut i: usize = 0;
    while i < 36
        invariant
            bytes@.len() == 16,
            0 <= i <= 36,
            r@.len() == i,
            forall|j: int| 0 <= j < i ==> r@[j] == #[trigger] uuid_char_at(bytes@, j),
        decreases 36 - i,
    {
        if i == 8 || i == 13 || i == 18 || i == 23 {
            proof {
                reveal_strlit("-");
            }
            r.append("-");
        } else {
            let k: usize = if i < 8 {
                i
            } else if i < 13 {
                i - 1
            } else if i < 18 {
                i - 2
            } else if i < 23 {
                i - 3
            } else {
                i - 4
            };
            let b: u8 = bytes[k / 2];
            proof {
                assert(b >> 4 < 16 && b & 0x0f < 16) by (bit_vector);
            }
            let nib: u8 = if k % 2 == 0 {
                b >> 4
            } else {
                b & 0x0f
            };
            r.append(hex_digit_str(nib));
        }
        i += 1;
    }
    proof {
        assert(r@ =~= spec_format_uuid(bytes@));
    }
    r
}

/// The rendering of any 16-byte value whose byte 6 has high nibble `4` and
/// whose byte 8 has top bits `10` is a valid identifier: the two masks are
/// exactly what the version and variant markers of the format ask for.
pub proof fn lemma_masked_format_valid(bytes: Seq<u8>)
    requires
        bytes.len() == 16,
        bytes[6] & 0xf0 == 0x40,
        bytes[8] & 0xc0 == 0x80,
    ensures
        spec_is_valid_uuid(spec_format_uuid(bytes)),
{
    let s = spec_format_uuid(bytes);
    assert forall|i: int| 0 <= i < 36 implies #[trigger] uuid_char_ok(s, i) by {
        assert(s[i] == uuid_char_at(bytes, i));
        if i == 14 {
            let b = bytes[6];
            assert(b & 0xf0 == 0x40 ==> b >> 4 == 4) by (bit_vector);
        } else if i == 19 {
            let b = bytes[8];
            assert(b & 0xc0 == 0x80 ==> b >> 4 == 8 || b >> 4 == 9 || b >> 4 == 10 || b >> 4
                == 11) by (bit_vector);
        } else if !(i == 8 || i == 13 || i == 18 || i == 23) {
            let b = bytes[hex_index(i) / 2];
            assert(b >> 4 < 16 && b & 0x0f < 16) by (bit_vector);
            lemma_hex_char_is_hex_digit(b >> 4);
            lemma_hex_char_is_hex_digit(b & 0x0f);
        }
    }
}

/// Relies on rand::thread_rng and rand::RngCore::fill_bytes: the
/// thread-local, securely seeded generator fills the buffer with 16 random
/// bytes. Nothing is promised of the byte values themselves; an
/// unavailable randomness source is a fatal environment failure, not a
/// result this function signals.
#[verifier::external_body]
fn random_bytes_16() -> (r: Vec<u8>)
    ensures
        r@.len() == 16,
{
    let mut buf = vec![0u8; 16];
    rand::thread_rng().fill_bytes(&mut buf);
    buf
}

/// Produces a fresh version-4 identifier: 16 random bytes, the version
/// nibble of byte 6 forced to `4` and the variant bits of byte 8 forced to
/// `10`, rendered as the 36-character hyphenated lowercase string.
pub fn generate_uuid() -> (r: String)
    ensures
        spec_is_valid_uuid(r@),
{
    let mut bytes: Vec<u8> = random_bytes_16();
    let b6: u8 = bytes[6];
    let b8: u8 = bytes[8];
    bytes[6] = (b6 & 0x0f) | 0x40;
    bytes[8] = (b8 & 0x3f) | 0x80;
    let r: String = format_uuid(&bytes);
    proof {
        assert(((b6 & 0x0f) | 0x40) & 0xf0 == 0x40) by (bit_vector);
        assert(((b8 & 0x3f) | 0x80) & 0xc0 == 0x80) by (bit_vector);
        lemma_masked_format_valid(bytes@);
    }
    r
}

/// A valid identifier is 36 characters long, has hyphens at offsets 8, 13,
/// 18 and 23, the version digit `4` at offset 14 and a variant digit at
/// offset 19, and holds a lowercase hexadecimal digit at every other
/// position.
pub proof fn lemma_valid_uuid_structure(s: Seq<char>)
    requires
        spec_is_valid_uuid(s),
    ensures
        s.len() == 36,
        s[8] == '-' && s[13] == '-' && s[18] == '-' && s[23] == '-',
        s[14] == '4',
        is_variant_digit(s[19]),
        forall|i: int|
            0 <= i < 36 && i != 8 && i != 13 && i != 18 && i != 23 ==> is_lower_hex_digit(
                #[trigger] s[i],
            ),
{
    assert(uuid_char_ok(s, 8));
    assert(uuid_char_ok(s, 13));
    assert(uuid_char_ok(s, 18));
    assert(uuid_char_ok(s, 23));
    assert(uuid_char_ok(s, 14));
    assert(uuid_char_ok(s, 19));
    assert forall|i: int|
        0 <= i < 36 && i != 8 && i != 13 && i != 18 && i != 23 implies is_lower_hex_digit(
        s[i],
    ) by {
        assert(uuid_char_ok(s, i));
    }
}

} // verus!
