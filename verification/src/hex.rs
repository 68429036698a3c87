//! Hexadecimal text for digests and for the per-installation HMAC salt.
//!
//! The salt is stored in the `meta` table as 64 lowercase hex characters and
//! read back two characters at a time with `u8::from_str_radix(.., 16)`.

use vstd::prelude::*;
use crate::text::push_char;
use vstd::string::StringSliceAdditionalSpecFns;

verus! {

/// Length in bytes of the per-installation HMAC salt.
pub const SALT_LEN: usize = 32;

/// Length in characters of the hex text of the salt.
pub const SALT_HEX_LEN: usize = 64;

/// Lowercase hex digit for a nibble `d < 16`.
pub open spec fn hex_digit(d: nat) -> char {
    if d < 10 {
        ((d + 48) as u8) as char
    } else {
        ((d + 87) as u8) as char
    }
}

/// Two lowercase hex digits per byte, most significant nibble first
/// (`format!("{b:02x}")` for each byte).
pub open spec fn hex_lower(bytes: Seq<u8>) -> Seq<char>
    decreases bytes.len(),
{
    if bytes.len() == 0 {
        seq![]
    } else {
        hex_lower(bytes.drop_last()).push(hex_digit(bytes.last() as nat / 16)).push(
            hex_digit(bytes.last() as nat % 16),
        )
    }
}

fn nibble_char(d: u8) -> (c: char)
    requires
        d < 16,
    ensures
        c == hex_digit(d as nat),
{
    if d < 10 {
        (d + 48) as char
    } else {
        (d + 87) as char
    }
}

/// Lowercase hex text of `bytes`.
pub fn to_hex_lower(bytes: &[u8]) -> (s: String)
    ensures
        s@ == hex_lower(bytes@),
{
    let mut s = String::new();
    let mut i: usize = 0;
    while i < bytes.len()
        invariant
            i <= bytes.len(),
            s@ == hex_lower(bytes@.take(i as int)),
        decreases bytes.len() - i,
    {
        let b = bytes[i];
        push_char(&mut s, nibble_char(b / 16));
        push_char(&mut s, nibble_char(b % 16));
        assert(bytes@.take(i + 1).drop_last() =~= bytes@.take(i as int));
        i = i + 1;
    }
    assert(bytes@.take(bytes@.len() as int) =~= bytes@);
    s
}

/// Value of one hex digit byte (`0-9`, `a-f`, `A-F`), as `from_str_radix` reads it.
pub open spec fn hex_value(b: u8) -> Option<u8> {
    if 48 <= b <= 57 {
        Some((b - 48) as u8)
    } else if 97 <= b <= 102 {
        Some((b - 87) as u8)
    } else if 65 <= b <= 70 {
        Some((b - 55) as u8)
    } else {
        None
    }
}

/// What `u8::from_str_radix` gives for the two-byte text `b0 b1` in radix 16:
/// two hex digits, or a `+` sign followed by one hex digit.
pub open spec fn pair_value(b0: u8, b1: u8) -> Option<u8> {
    if b0 == 43 {
        hex_value(b1)
    } else {
        match (hex_value(b0), hex_value(b1)) {
            (Some(h), Some(l)) => Some((h * 16 + l) as u8),
            _ => None,
        }
    }
}

/// The `k`-th two-byte group of `bytes` parses.
pub open spec fn pair_ok(bytes: Seq<u8>, k: int) -> bool {
    pair_value(bytes[2 * k], bytes[2 * k + 1]) is Some
}

/// Reading the salt never slices a multi-byte character: every group that is
/// reached (all groups before it parsed) starts and ends on a character boundary.
pub open spec fn salt_hex_slices_ok(bytes: Seq<u8>) -> bool {
    bytes.len() == 64 ==> forall|k: int|
        #![trigger pair_value(bytes[2 * k], bytes[2 * k + 1])]
        0 <= k < 32 && (forall|j: int| 0 <= j < k ==> pair_ok(bytes, j)) ==> {
            &&& vstd::utf8::is_char_boundary(bytes, 2 * k)
            &&& vstd::utf8::is_char_boundary(bytes, 2 * k + 2)
        }
}

/// The salt stored as hex text (given by its UTF-8 bytes): `Some` with the 32
/// bytes when the text is 64 bytes long and every group parses, else `None`.
pub open spec fn salt_from_hex(bytes: Seq<u8>) -> Option<Seq<u8>> {
    if bytes.len() == 64 && forall|k: int| 0 <= k < 32 ==> pair_ok(bytes, k) {
        Some(Seq::new(32, |k: int| pair_value(bytes[2 * k], bytes[2 * k + 1])->0))
    } else {
        None
    }
}

fn hex_value_exec(b: u8) -> (r: Option<u8>)
    ensures
        r == hex_value(b),
{
    if 48 <= b && b <= 57 {
        Some(b - 48)
    } else if 97 <= b && b <= 102 {
        Some(b - 87)
    } else if 65 <= b && b <= 70 {
        Some(b - 55)
    } else {
        None
    }
}

fn pair_value_exec(b0: u8, b1: u8) -> (r: Option<u8>)
    ensures
        r == pair_value(b0, b1),
{
    if b0 == 43 {
        hex_value_exec(b1)
    } else {
        match (hex_value_exec(b0), hex_value_exec(b1)) {
            (Some(h), Some(l)) => Some(h * 16 + l),
            _ => None,
        }
    }
}

/// Decodes the stored salt text; `None` means the stored salt is corrupt and
/// must be regenerated.
pub fn decode_salt_hex(hex: &str) -> (r: Option<Vec<u8>>)
    requires
        salt_hex_slices_ok(hex.spec_bytes()),
    ensures
        r matches Some(v) ==> salt_from_hex(hex.spec_bytes()) == Some(v@),
        r is None ==> salt_from_hex(hex.spec_bytes()) is None,
{
    let bytes = hex.as_bytes();
    if bytes.len() != SALT_HEX_LEN {
        return None;
    }
    let mut out: Vec<u8> = Vec::new();
    let mut k: usize = 0;
    while k < SALT_LEN
        invariant
            bytes@ == hex.spec_bytes(),
            bytes@.len() == 64,
            k <= 32,
            out@.len() == k,
            forall|j: int| 0 <= j < k ==> pair_ok(bytes@, j),
            forall|j: int|
                0 <= j < k ==> out@[j] == pair_value(bytes@[2 * j], bytes@[2 * j + 1])->0,
        decreases 32 - k,
    {
        match pair_value_exec(bytes[2 * k], bytes[2 * k + 1]) {
            Some(v) => {
                out.push(v);
            },
            None => {
                assert(!pair_ok(bytes@, k as int));
                return None;
            },
        }
        k = k + 1;
    }
    assert(out@ =~= Seq::new(32, |j: int| pair_value(bytes@[2 * j], bytes@[2 * j + 1])->0));
    Some(out)
}

} // verus!

verus! {

proof fn lemma_hex_lower_shape(b: Seq<u8>)
    ensures
        hex_lower(b).len() == 2 * b.len(),
        forall|k: int|
            #![trigger b[k]]
            0 <= k < b.len() ==> hex_lower(b)[2 * k] == hex_digit(b[k] as nat / 16) && hex_lower(
                b,
            )[2 * k + 1] == hex_digit(b[k] as nat % 16),
    decreases b.len(),
{
    if b.len() > 0 {
        lemma_hex_lower_shape(b.drop_last());
        assert forall|k: int| #![trigger b[k]] 0 <= k < b.len() implies hex_lower(b)[2 * k]
            == hex_digit(b[k] as nat / 16) && hex_lower(b)[2 * k + 1] == hex_digit(
            b[k] as nat % 16,
        ) by {
            if k < b.len() - 1 {
                assert(b.drop_last()[k] == b[k]);
            }
        }
    }
}

proof fn lemma_hex_digit_value(d: nat)
    requires
        d < 16,
    ensures
        '\0' <= hex_digit(d) <= '\u{7f}',
        hex_digit(d) as u8 != 43,
        hex_value(hex_digit(d) as u8) == Some(d as u8),
{
}

/// Law: the salt written as lowercase hex text reads back as the same salt.
/// The text is 64 ASCII characters, so reading it never slices a character,
/// and every two-digit group decodes to the byte it was written from.
pub proof fn lemma_salt_hex_round_trip(salt: Seq<u8>)
    requires
        salt.len() == 32,
    ensures
        salt_hex_slices_ok(vstd::utf8::encode_utf8(hex_lower(salt))),
        salt_from_hex(vstd::utf8::encode_utf8(hex_lower(salt))) == Some(salt),
{
    broadcast use vstd::utf8::group_utf8_lib;

    let chars = hex_lower(salt);
    let bytes = vstd::utf8::encode_utf8(chars);
    lemma_hex_lower_shape(salt);
    assert forall|k: int| 0 <= k < 32 implies {
        &&& '\0' <= #[trigger] chars[2 * k] <= '\u{7f}'
        &&& '\0' <= chars[2 * k + 1] <= '\u{7f}'
        &&& hex_value(chars[2 * k] as u8) == Some((salt[k] / 16) as u8)
        &&& hex_value(chars[2 * k + 1] as u8) == Some((salt[k] % 16) as u8)
        &&& chars[2 * k] as u8 != 43
    } by {
        assert(salt[k] == salt[k]);
        lemma_hex_digit_value(salt[k] as nat / 16);
        lemma_hex_digit_value(salt[k] as nat % 16);
    }
    assert(vstd::utf8::is_ascii_chars(chars)) by {
        assert forall|i: int| 0 <= i < chars.len() implies '\0' <= #[trigger] chars[i]
            <= '\u{7f}' by {
            let k = i / 2;
            assert(salt[k] == salt[k]);
            lemma_hex_digit_value(salt[k] as nat / 16);
            lemma_hex_digit_value(salt[k] as nat % 16);
            if i % 2 == 0 {
                assert(i == 2 * k);
            } else {
                assert(i == 2 * k + 1);
            }
        }
    }
    vstd::utf8::is_ascii_chars_encode_utf8(chars);
    vstd::utf8::encode_utf8_valid_utf8(chars);
    assert(bytes.len() == 64);
    assert forall|k: int| 0 <= k < 32 implies #[trigger] pair_value(bytes[2 * k], bytes[2 * k + 1])
        == Some(salt[k]) by {
        assert(chars[2 * k] as u8 == bytes[2 * k]);
        assert(chars[2 * k + 1] as u8 == bytes[2 * k + 1]);
        let h = (salt[k] / 16) as u8;
        let l = (salt[k] % 16) as u8;
        assert((h * 16 + l) as u8 == salt[k]);
    }
    assert forall|i: int| 0 <= i <= 64 implies vstd::utf8::is_char_boundary(bytes, i) by {
        vstd::utf8::is_char_boundary_start_end_of_seq(bytes);
        if i < 64 {
            vstd::utf8::is_char_boundary_iff_not_is_continuation_byte(bytes, i);
            assert(chars[i] as u8 == bytes[i]);
        }
    }
    assert forall|k: int| 0 <= k < 32 implies pair_ok(bytes, k) by {
        assert(pair_value(bytes[2 * k], bytes[2 * k + 1]) == Some(salt[k]));
    }
    assert(Seq::new(32, |k: int| pair_value(bytes[2 * k], bytes[2 * k + 1])->0) =~= salt);
}

} // verus!

verus! {

/// The hex text has two characters per byte.
pub proof fn lemma_hex_lower_len(b: Seq<u8>)
    ensures
        hex_lower(b).len() == 2 * b.len(),
{
    lemma_hex_lower_shape(b);
}

} // verus!
