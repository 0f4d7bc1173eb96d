//! The narrow border to outside code. Each item here is trusted: its body
//! is not read by the verifier, and its contract states no more than the
//! called crate's source or documentation shows.

use vstd::prelude::*;
use base64::Engine;
use core::str::FromStr;
use crate::abi::{spec_evm_address_bytes, spec_evm_address_ok};
use vstd::utf8::{decode_utf8, encode_utf8, valid_utf8};

verus! {

/// `url::Url` passes through the library opaquely: nothing is read from
/// it here, it is only carried to the caller who issues the requests.
#[verifier::external_type_specification]
#[verifier::external_body]
pub struct ExUrl(url::Url);

/// Whether `url::Url::parse` accepts a piece of text. The parse is a pure
/// function of the text, so acceptance is too; nothing more is assumed
/// about it.
pub uninterp spec fn url_accepts(s: Seq<char>) -> bool;

/// Relies on `url::Url::parse`: a pure parser, returning `Ok` on
/// well-formed URL text and `Err` otherwise.
#[verifier::external_body]
pub(crate) fn parse_url(s: &str) -> (r: Option<url::Url>)
    ensures
        r is Some <==> url_accepts(s@),
{
    url::Url::parse(s).ok()
}

/// Relies on `alloy_primitives::Address::from_str`, which decodes through
/// `const_hex::decode_to_array`: it strips one optional `0x` / `0X`
/// prefix, then accepts exactly 40 hexadecimal digits (either case) and
/// returns the 20 bytes they spell; anything else is an error.
#[verifier::external_body]
pub(crate) fn parse_evm_address(s: &str) -> (r: Option<[u8; 20]>)
    ensures
        r is Some <==> spec_evm_address_ok(s@),
        r matches Some(b) ==> b@ == spec_evm_address_bytes(s@),
{
    match alloy_primitives::Address::from_str(s) {
        Ok(a) => Some(a.into_array()),
        Err(_) => None,
    }
}

/// What base64's `STANDARD` engine makes of the UTF-8 bytes of a piece of
/// text: a function of the text alone. Nothing further is assumed of it.
pub uninterp spec fn base64_std_of(s: Seq<char>) -> Seq<char>;

/// Relies on `base64::engine::general_purpose::STANDARD.encode`: the
/// padded RFC 4648 standard-alphabet encoding, determined by the input
/// bytes alone.
#[verifier::external_body]
pub(crate) fn base64_standard(s: &str) -> (r: String)
    ensures
        r@ == base64_std_of(s@),
{
    base64::engine::general_purpose::STANDARD.encode(s.as_bytes())
}

/// Relies on `String::from_utf8`: `Ok` exactly when the bytes are valid
/// UTF-8, and the returned string then holds exactly those bytes.
#[verifier::external_body]
pub(crate) fn utf8_to_string(v: Vec<u8>) -> (r: Option<String>)
    ensures
        r is Some <==> valid_utf8(v@),
        r matches Some(s) ==> s@ == decode_utf8(v@) && encode_utf8(s@) == v@,
{
    String::from_utf8(v).ok()
}

} // verus!
