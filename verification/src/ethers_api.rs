//! The calls into `ethers`. Nothing in this file is proved: each function's
//! contract is taken on trust from the source of the function it calls.

use crate::amount::be_nat;
use vstd::prelude::*;

verus! {

/// The Keccak-256 digest of the UTF-8 encoding of `text`.
pub uninterp spec fn keccak256_digest(text: Seq<char>) -> Seq<u8>;

/// The decimal rendering of `amount / 10^units`: the integer part, a point,
/// and the remainder padded with zeros on the left to `units` digits.
pub uninterp spec fn units_text(amount: nat, units: nat) -> Seq<char>;

/// The 20 bytes that `text` spells as a hexadecimal account address, if it
/// spells one.
pub uninterp spec fn address_of_text(text: Seq<char>) -> Option<Seq<u8>>;

/// `ethers::utils::keccak256` on the UTF-8 bytes of `text`.
///
/// Trusted: the 32 bytes returned depend on the text alone; they are the
/// digest that `keccak256_digest` names. The hash itself is not modelled.
#[verifier::external_body]
pub(crate) fn keccak256_text(text: &str) -> (digest: [u8; 32])
    ensures
        digest@ == keccak256_digest(text@),
{
    ethers::utils::keccak256(text.as_bytes())
}

/// `ethers::utils::format_units` on the 256-bit integer that `digits` spell,
/// most significant byte first (`U256::from_big_endian`, which panics on
/// more than 32 bytes).
///
/// Trusted: the call fails exactly when `units` is 78 or more, which is where
/// `10^units` no longer fits in 256 bits; otherwise the text returned depends
/// on the number and on `units` alone, and is what `units_text` names.
#[verifier::external_body]
pub(crate) fn format_units_u256(digits: &[u8], units: u32) -> (text: Option<String>)
    requires
        digits@.len() <= 32,
    ensures
        text is Some <==> units < 78,
        text matches Some(t) ==> t@ == units_text(be_nat(digits@), units as nat),
{
    ethers::utils::format_units(ethers::types::U256::from_big_endian(digits), units).ok()
}

/// `str::parse::<ethers::types::Address>`.
///
/// Trusted: whether the text is accepted, and the 20 bytes it gives, depend
/// on the text alone; they are what `address_of_text` names. The grammar
/// (the hexadecimal digits of 20 bytes after an optional `0x`, with blanks
/// among them passed over) is not modelled.
#[verifier::external_body]
pub(crate) fn parse_address(text: &str) -> (address: Option<[u8; 20]>)
    ensures
        match address {
            Some(bytes) => address_of_text(text@) == Some(bytes@),
            None => address_of_text(text@) is None,
        },
{
    text.parse::<ethers::types::Address>().ok().map(|a| a.0)
}

} // verus!
