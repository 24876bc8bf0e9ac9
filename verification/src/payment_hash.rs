//! Payment hashes and the hexadecimal text in which Blink writes them.

use vstd::prelude::*;

use crate::text::{ascii_lower, lower_char};

verus! {

/// The number that a hexadecimal digit of either case stands for.
pub open spec fn hex_value(c: char) -> Option<int> {
    if '0' <= c && c <= '9' {
        Some(c as int - '0' as int)
    } else if 'a' <= c && c <= 'f' {
        Some(c as int - 'a' as int + 10)
    } else if 'A' <= c && c <= 'F' {
        Some(c as int - 'A' as int + 10)
    } else {
        None
    }
}

/// The lower-case hexadecimal digit of a number below sixteen.
pub open spec fn hex_digit(n: int) -> char {
    if n < 10 {
        ('0' as int + n) as char
    } else {
        ('a' as int + n - 10) as char
    }
}

/// Whether a text is an even number of hexadecimal digits.
pub open spec fn is_hex(s: Seq<char>) -> bool {
    &&& s.len() % 2 == 0
    &&& forall|i: int| 0 <= i < s.len() ==> hex_value(#[trigger] s[i]) is Some
}

/// The bytes that a text of hexadecimal digits stands for, two digits a byte,
/// the high one first.
pub open spec fn hex_bytes(s: Seq<char>) -> Seq<u8> {
    Seq::new(
        (s.len() / 2) as nat,
        |i: int| (hex_value(s[2 * i])->0 * 16 + hex_value(s[2 * i + 1])->0) as u8,
    )
}

/// The bytes in lower-case hexadecimal digits, two digits a byte, the high one
/// first.
pub open spec fn hex_text(bytes: Seq<u8>) -> Seq<char> {
    Seq::new(
        2 * bytes.len(),
        |i: int|
            if i % 2 == 0 {
                hex_digit(bytes[i / 2] as int / 16)
            } else {
                hex_digit(bytes[i / 2] as int % 16)
            },
    )
}

/// The reason why a text is not hexadecimal.
#[verifier::external_type_specification]
#[verifier::external_body]
pub struct ExFromHexError(hex::FromHexError);

/// `hex::decode`: succeeds on an even number of hexadecimal digits of either
/// case, and gives the bytes that they stand for; fails on any other text.
#[verifier::external_body]
fn hex_decode(s: &str) -> (r: Result<Vec<u8>, hex::FromHexError>)
    ensures
        match r {
            Ok(bytes) => is_hex(s@) && bytes@ == hex_bytes(s@),
            Err(_) => !is_hex(s@),
        },
{
    hex::decode(s)
}

/// `hex::encode`: the bytes in lower-case hexadecimal digits.
#[verifier::external_body]
fn hex_encode(bytes: &[u8; 32]) -> (r: String)
    ensures
        r@ == hex_text(bytes@),
{
    hex::encode(bytes)
}

/// Whether a text is a payment hash: thirty-two bytes in hexadecimal.
pub open spec fn is_payment_hash(s: Seq<char>) -> bool {
    is_hex(s) && s.len() == 64
}

/// Reads a payment hash from its hexadecimal text.
pub fn decode_payment_hash(s: &str) -> (r: Option<[u8; 32]>)
    ensures
        match r {
            Some(hash) => is_payment_hash(s@) && hash@ == hex_bytes(s@),
            None => !is_payment_hash(s@),
        },
{
    match hex_decode(s) {
        Ok(bytes) => {
            if bytes.len() != 32 {
                return None;
            }
            let mut hash: [u8; 32] = [0u8;32];
            for i in 0..32usize
                invariant
                    bytes@.len() == 32,
                    forall|k: int| 0 <= k < i ==> hash@[k] == bytes@[k],
            {
                hash[i] = bytes[i];
            }
            assert(hash@ =~= bytes@);
            Some(hash)
        },
        Err(_) => None,
    }
}

/// Writes a payment hash in hexadecimal.
pub fn encode_payment_hash(hash: &[u8; 32]) -> (r: String)
    ensures
        r@ == hex_text(hash@),
{
    hex_encode(hash)
}

/// A number below sixteen is what its hexadecimal digit stands for.
proof fn hex_digit_value(n: int)
    requires
        0 <= n < 16,
    ensures
        hex_value(hex_digit(n)) == Some(n),
{
}

/// Bytes written in hexadecimal read back as the same bytes.
pub proof fn hex_reads_back(bytes: Seq<u8>)
    ensures
        is_hex(hex_text(bytes)),
        hex_bytes(hex_text(bytes)) == bytes,
{
    let s = hex_text(bytes);
    assert forall|i: int| 0 <= i < s.len() implies hex_value(#[trigger] s[i]) is Some by {
        hex_digit_value(bytes[i / 2] as int / 16);
        hex_digit_value(bytes[i / 2] as int % 16);
    }
    assert forall|i: int| 0 <= i < bytes.len() implies hex_bytes(s)[i] == bytes[i] by {
        hex_digit_value(bytes[i] as int / 16);
        hex_digit_value(bytes[i] as int % 16);
        assert((2 * i) / 2 == i && (2 * i) % 2 == 0);
        assert((2 * i + 1) / 2 == i && (2 * i + 1) % 2 == 1);
        assert(s[2 * i] == hex_digit(bytes[i] as int / 16));
        assert(s[2 * i + 1] == hex_digit(bytes[i] as int % 16));
    }
    assert(hex_bytes(s) =~= bytes);
}

/// A hexadecimal digit is in lower case what it stands for.
proof fn hex_value_digit(c: char)
    requires
        hex_value(c) is Some,
    ensures
        0 <= hex_value(c)->0 < 16,
        hex_digit(hex_value(c)->0) == lower_char(c),
{
}

/// Hexadecimal text that is read and written again is the same in lower case.
pub proof fn hex_writes_back(s: Seq<char>)
    requires
        is_hex(s),
    ensures
        hex_text(hex_bytes(s)) == ascii_lower(s),
{
    let bytes = hex_bytes(s);
    let written = hex_text(bytes);
    assert forall|i: int| 0 <= i < s.len() implies written[i] == lower_char(s[i]) by {
        let k = i / 2;
        hex_value_digit(s[2 * k]);
        hex_value_digit(s[2 * k + 1]);
        let high = hex_value(s[2 * k])->0;
        let low = hex_value(s[2 * k + 1])->0;
        assert(bytes[k] == high * 16 + low);
        assert(bytes[k] as int / 16 == high && bytes[k] as int % 16 == low);
        if i % 2 == 0 {
            assert(i == 2 * k);
        } else {
            assert(i == 2 * k + 1);
        }
    }
    assert(written =~= ascii_lower(s));
}

/// A payment hash written in hexadecimal is read back as itself.
pub proof fn payment_hash_reads_back(hash: [u8; 32])
    ensures
        is_payment_hash(hex_text(hash@)),
        hex_bytes(hex_text(hash@)) == hash@,
{
    hex_reads_back(hash@);
}

} // verus!
