//! Verified text helpers: rendering a `u64` in decimal and rebuilding a
//! `String` from UTF-8 bytes. Every string the library hands back is
//! specified through these.

use vstd::prelude::*;
use vstd::utf8::{decode_utf8, encode_utf8, valid_utf8};

verus! {

/// The decimal digit bytes of `n` (ASCII `'0'..='9'`), most significant
/// first, with no leading zeroes except for `n == 0` itself.
pub open spec fn spec_decimal_bytes(n: nat) -> Seq<u8>
    decreases n,
{
    if n < 10 {
        seq![(48 + n) as u8]
    } else {
        spec_decimal_bytes(n / 10).push((48 + n % 10) as u8)
    }
}

/// The decimal digit characters of `n`, most significant first.
pub open spec fn spec_decimal(n: nat) -> Seq<char> {
    spec_decimal_bytes(n).map_values(|b: u8| b as char)
}

pub proof fn lemma_decimal_bytes_are_digits(n: nat)
    ensures
        spec_decimal_bytes(n).len() >= 1,
        forall|i: int|
            0 <= i < spec_decimal_bytes(n).len() ==> 48 <= #[trigger] spec_decimal_bytes(n)[i]
                <= 57,
    decreases n,
{
    if n >= 10 {
        lemma_decimal_bytes_are_digits(n / 10);
    }
}

/// Relies on `String::from_utf8`: it succeeds exactly on valid UTF-8 and
/// returns the string that those bytes encode.
#[verifier::external_body]
pub(crate) fn string_from_utf8(bytes: Vec<u8>) -> (r: Option<String>)
    ensures
        r is Some <==> valid_utf8(bytes@),
        r is Some ==> r->0@ == decode_utf8(bytes@),
{
    String::from_utf8(bytes).ok()
}

/// Turns a sequence of ASCII bytes into the string of the corresponding
/// characters.
pub(crate) fn ascii_bytes_to_string(bytes: Vec<u8>) -> (r: String)
    requires
        forall|i: int| 0 <= i < bytes@.len() ==> #[trigger] bytes@[i] < 128,
    ensures
        r@ == bytes@.map_values(|b: u8| b as char),
{
    let ghost chars = bytes@.map_values(|b: u8| b as char);
    proof {
        assert(vstd::utf8::is_ascii_chars(chars)) by {
            assert forall|i: int| 0 <= i < chars.len() implies '\0' <= #[trigger] chars[i]
                <= '\u{7f}' by {
                assert(bytes@[i] < 128);
            }
        }
        vstd::utf8::is_ascii_chars_encode_utf8(chars);
        assert(encode_utf8(chars) =~= bytes@);
        vstd::utf8::encode_utf8_valid_utf8(chars);
        vstd::utf8::encode_utf8_decode_utf8(chars);
    }
    match string_from_utf8(bytes) {
        Some(s) => s,
        None => vstd::pervasive::unreached(),
    }
}

/// Renders `n` in decimal, most significant digit first.
pub fn u64_to_decimal(n: u64) -> (r: String)
    ensures
        r@ == spec_decimal(n as nat),
{
    let mut digits_rev: Vec<u8> = Vec::new();
    let mut m: u64 = n;
    digits_rev.push(48 + (m % 10) as u8);
    m = m / 10;
    while m > 0
        invariant
            digits_rev@.len() >= 1,
            spec_decimal_bytes(n as nat) == if m > 0 {
                spec_decimal_bytes(m as nat) + digits_rev@.reverse()
            } else {
                digits_rev@.reverse()
            },
        decreases m,
    {
        let ghost old_digits = digits_rev@;
        let ghost old_m = m as nat;
        digits_rev.push(48 + (m % 10) as u8);
        m = m / 10;
        proof {
            assert(digits_rev@.reverse() =~= seq![(48 + old_m % 10) as u8]
                + old_digits.reverse());
            if m > 0 {
                assert(spec_decimal_bytes(old_m) == spec_decimal_bytes(old_m / 10).push(
                    (48 + old_m % 10) as u8,
                ));
                assert(spec_decimal_bytes(old_m / 10).push((48 + old_m % 10) as u8)
                    + old_digits.reverse() =~= spec_decimal_bytes(old_m / 10)
                    + digits_rev@.reverse());
            } else {
                assert(spec_decimal_bytes(old_m) =~= seq![(48 + old_m % 10) as u8]);
                assert(spec_decimal_bytes(old_m) + old_digits.reverse()
                    =~= digits_rev@.reverse());
            }
        }
    }
    proof {
        assert(spec_decimal_bytes(n as nat) == digits_rev@.reverse());
        lemma_decimal_bytes_are_digits(n as nat);
    }
    let len = digits_rev.len();
    let mut bytes: Vec<u8> = Vec::new();
    let mut i: usize = len;
    while i > 0
        invariant
            i <= len,
            len == digits_rev@.len(),
            spec_decimal_bytes(n as nat) == digits_rev@.reverse(),
            bytes@ =~= digits_rev@.reverse().subrange(0, len - i),
        decreases i,
    {
        i = i - 1;
        bytes.push(digits_rev[i]);
        proof {
            assert(digits_rev@.reverse()[len - i - 1] == digits_rev@[i as int]);
            assert(bytes@ =~= digits_rev@.reverse().subrange(0, len - i));
        }
    }
    proof {
        assert(bytes@ =~= spec_decimal_bytes(n as nat));
        assert(forall|j: int| 0 <= j < bytes@.len() ==> #[trigger] bytes@[j] < 128);
    }
    ascii_bytes_to_string(bytes)
}

} // verus!
