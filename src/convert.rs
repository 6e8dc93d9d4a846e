//! Reading identifiers and amounts from text through the ledger types'
//! own parsers.

use std::str::FromStr;
use vstd::arithmetic::power2::pow2;
use vstd::prelude::*;
use vstd::string::*;

use iota_wallet::iota_client::block::output::{AliasId, FoundryId, NftId, OutputId, TokenId};
use iota_wallet::U256;

verus! {

#[verifier::external_type_specification]
#[verifier::external_body]
pub struct ExBlockError(iota_wallet::iota_client::block::Error);

#[verifier::external_type_specification]
#[verifier::external_body]
pub struct ExHexError(prefix_hex::Error);

pub open spec fn is_hex_digit(c: char) -> bool {
    ('0' <= c <= '9') || ('a' <= c <= 'f') || ('A' <= c <= 'F')
}

pub open spec fn hex_digit_value(c: char) -> int {
    if '0' <= c <= '9' {
        c as int - '0' as int
    } else if 'a' <= c <= 'f' {
        c as int - 'a' as int + 10
    } else {
        c as int - 'A' as int + 10
    }
}

/// Whether `s` is `0x` followed by an even number of hexadecimal digits.
pub open spec fn is_prefixed_hex(s: Seq<char>) -> bool {
    &&& s.len() >= 2
    &&& s[0] == '0'
    &&& s[1] == 'x'
    &&& s.len() % 2 == 0
    &&& forall|i: int| 2 <= i < s.len() ==> is_hex_digit(#[trigger] s[i])
}

/// The bytes that the digits after the `0x` of `s` encode, two digits each.
pub open spec fn prefixed_hex_bytes(s: Seq<char>) -> Seq<u8> {
    Seq::new(
        ((s.len() - 2) / 2) as nat,
        |i: int| (hex_digit_value(s[2 + 2 * i]) * 16 + hex_digit_value(s[3 + 2 * i])) as u8,
    )
}

/// Whether `s` is `0x` followed by exactly `n` bytes in hexadecimal.
pub open spec fn is_prefixed_hex_of_len(s: Seq<char>, n: nat) -> bool {
    is_prefixed_hex(s) && s.len() == 2 + 2 * n
}

/// The number that 64-bit limbs stand for, least significant first.
pub open spec fn limbs_value(l: Seq<u64>) -> nat
    decreases l.len(),
{
    if l.len() == 0 {
        0
    } else {
        (l[0] + pow2(64) * limbs_value(l.drop_first())) as nat
    }
}

pub open spec fn is_digit_text(s: Seq<char>) -> bool {
    forall|i: int| 0 <= i < s.len() ==> crate::text::is_digit(#[trigger] s[i])
}

/// The largest number of 256 bits, plus one.
pub open spec fn u256_bound() -> nat {
    pow2(256)
}

/// Whether `s` is a single character that takes more than one byte in
/// UTF-8: the one text on which the hex parsers below panic, as they read two
/// characters from any text of two bytes or more that lacks the `0x`.
pub open spec fn is_single_wide_char(s: Seq<char>) -> bool {
    s.len() == 1 && s[0] as u32 >= 0x80
}

/// Whether a text is a single character of more than one byte.
pub fn single_wide_char(s: &str) -> (r: bool)
    ensures
        r == is_single_wide_char(s@),
{
    s.unicode_len() == 1 && (s.get_char(0) as u32) >= 0x80
}

/// Relies on `prefix_hex::decode` into a `Vec<u8>`: it strips the `0x`
/// prefix and decodes an even number of hexadecimal digits of either case.
#[verifier::external_body]
pub(crate) fn decode_prefixed_hex(s: &str) -> (r: Result<Vec<u8>, prefix_hex::Error>)
    requires
        !is_single_wide_char(s@),
    ensures
        r is Ok <==> is_prefixed_hex(s@),
        r matches Ok(b) ==> b@ == prefixed_hex_bytes(s@),
{
    prefix_hex::decode::<Vec<u8>>(s)
}

/// Relies on `TokenId::from_str`: `0x` and 38 bytes in hexadecimal.
#[verifier::external_body]
pub(crate) fn token_id_bytes(s: &str) -> (r: Result<Vec<u8>, iota_wallet::iota_client::block::Error>)
    requires
        !is_single_wide_char(s@),
    ensures
        r is Ok <==> is_prefixed_hex_of_len(s@, 38),
        r matches Ok(b) ==> b@ == prefixed_hex_bytes(s@),
{
    TokenId::from_str(s).map(|id| id.to_vec())
}

/// Relies on `FoundryId::from_str`: `0x` and 38 bytes in hexadecimal.
#[verifier::external_body]
pub(crate) fn foundry_id_bytes(s: &str) -> (r: Result<Vec<u8>, iota_wallet::iota_client::block::Error>)
    requires
        !is_single_wide_char(s@),
    ensures
        r is Ok <==> is_prefixed_hex_of_len(s@, 38),
        r matches Ok(b) ==> b@ == prefixed_hex_bytes(s@),
{
    FoundryId::from_str(s).map(|id| id.to_vec())
}

/// Relies on `NftId::from_str`: `0x` and 32 bytes in hexadecimal.
#[verifier::external_body]
pub(crate) fn nft_id_bytes(s: &str) -> (r: Result<Vec<u8>, iota_wallet::iota_client::block::Error>)
    requires
        !is_single_wide_char(s@),
    ensures
        r is Ok <==> is_prefixed_hex_of_len(s@, 32),
        r matches Ok(b) ==> b@ == prefixed_hex_bytes(s@),
{
    NftId::from_str(s).map(|id| id.to_vec())
}

/// Relies on `AliasId::from_str`: `0x` and 32 bytes in hexadecimal.
#[verifier::external_body]
pub(crate) fn alias_id_bytes(s: &str) -> (r: Result<Vec<u8>, iota_wallet::iota_client::block::Error>)
    requires
        !is_single_wide_char(s@),
    ensures
        r is Ok <==> is_prefixed_hex_of_len(s@, 32),
        r matches Ok(b) ==> b@ == prefixed_hex_bytes(s@),
{
    AliasId::from_str(s).map(|id| id.to_vec())
}

/// Whether 34 bytes make an output id: a transaction id of 32 bytes and an
/// output index, little endian, of at most 127.
pub open spec fn is_output_id_bytes(b: Seq<u8>) -> bool {
    b.len() == 34 && b[33] == 0 && b[32] <= 127
}

/// Relies on `OutputId::from_str`: `0x` and 34 bytes in hexadecimal, of
/// which the last two hold the output index (little endian, at most 127).
/// The result is the transaction id followed by the index.
#[verifier::external_body]
pub(crate) fn output_id_bytes(s: &str) -> (r: Result<Vec<u8>, iota_wallet::iota_client::block::Error>)
    requires
        !is_single_wide_char(s@),
    ensures
        r is Ok <==> (is_prefixed_hex_of_len(s@, 34) && is_output_id_bytes(prefixed_hex_bytes(s@))),
        r matches Ok(b) ==> b@ == prefixed_hex_bytes(s@),
{
    OutputId::from_str(s).map(|id| {
        let mut b = id.transaction_id().to_vec();
        b.extend_from_slice(&id.index().to_le_bytes());
        b
    })
}

/// Relies on `U256::from_dec_str`: decimal digits only (none gives zero),
/// refused when the value does not fit in 256 bits. The result is the four
/// 64-bit limbs of the value, least significant first.
#[verifier::external_body]
pub(crate) fn u256_from_decimal(s: &str) -> (r: Option<[u64; 4]>)
    ensures
        r is Some <==> (is_digit_text(s@) && crate::text::decimal_value(s@) < u256_bound()),
        r matches Some(l) ==> limbs_value(l@) == crate::text::decimal_value(s@),
{
    U256::from_dec_str(s).ok().map(|v| v.0)
}

} // verus!
