//! The EVM wire format of the audit: hexadecimal text as carried by
//! JSON-RPC, the solidity ABI return encodings of the three token
//! metadata views (`symbol() -> string`, `name() -> string`,
//! `decimals() -> uint8`), and the `eth_call` request body.

use vstd::prelude::*;
use crate::token::ChainMetadata;
use vstd::utf8::{encode_utf8, is_ascii_chars};

verus! {

broadcast use
    vstd::string::group_string_axioms,
    vstd::utf8::encode_utf8_valid_utf8,
    vstd::utf8::encode_utf8_decode_utf8,
    vstd::utf8::is_ascii_chars_encode_utf8,
;

/// True when `c` is an ASCII hexadecimal digit, upper or lower case.
pub open spec fn is_hex_digit(c: char) -> bool {
    ||| (48 <= c as u32 && c as u32 <= 57)
    ||| (97 <= c as u32 && c as u32 <= 102)
    ||| (65 <= c as u32 && c as u32 <= 70)
}

/// The value of a hexadecimal digit; meaningful under [`is_hex_digit`].
pub open spec fn hex_val(c: char) -> u8 {
    if 48 <= c as u32 && c as u32 <= 57 {
        ((c as u32) - 48) as u8
    } else if 97 <= c as u32 && c as u32 <= 102 {
        ((c as u32) - 87) as u8
    } else {
        ((c as u32) - 55) as u8
    }
}

/// Hexadecimal text with an optional `0x` / `0X` prefix removed.
pub open spec fn spec_strip_hex_prefix(s: Seq<char>) -> Seq<char> {
    if s.len() >= 2 && s[0] == '0' && (s[1] == 'x' || s[1] == 'X') {
        s.skip(2)
    } else {
        s
    }
}

/// Digit text that decodes to bytes: even length, hexadecimal digits only.
pub open spec fn spec_hex_ok(s: Seq<char>) -> bool {
    s.len() % 2 == 0 && (forall|i: int| 0 <= i < s.len() ==> is_hex_digit(#[trigger] s[i]))
}

/// The bytes spelled by digit text, two digits per byte, high digit
/// first; meaningful under [`spec_hex_ok`].
pub open spec fn spec_hex_bytes(s: Seq<char>) -> Seq<u8> {
    Seq::new((s.len() / 2) as nat, |i: int| (((hex_val(s[2 * i]) as u32) * 16) + (hex_val(
        s[2 * i + 1],
    ) as u32)) as u8)
}

/// Text accepted as an EVM token address: an optional `0x` / `0X` prefix
/// followed by exactly 40 hexadecimal digits.
pub open spec fn spec_evm_address_ok(s: Seq<char>) -> bool {
    let h = spec_strip_hex_prefix(s);
    h.len() == 40 && (forall|i: int| 0 <= i < h.len() ==> is_hex_digit(#[trigger] h[i]))
}

/// The 20 address bytes spelled by accepted address text.
pub open spec fn spec_evm_address_bytes(s: Seq<char>) -> Seq<u8> {
    spec_hex_bytes(spec_strip_hex_prefix(s))
}

/// Reads one hexadecimal digit.
pub fn hex_digit_val(c: char) -> (r: Option<u8>)
    ensures
        r is Some <==> is_hex_digit(c),
        r matches Some(v) ==> v == hex_val(c),
{
    let u = c as u32;
    if 48 <= u && u <= 57 {
        Some((u - 48) as u8)
    } else if 97 <= u && u <= 102 {
        Some((u - 87) as u8)
    } else if 65 <= u && u <= 70 {
        Some((u - 55) as u8)
    } else {
        None
    }
}

/// Decodes hexadecimal text, tolerating an optional `0x` / `0X` prefix,
/// into its bytes; refused on odd length or a non-digit.
pub fn hex_to_bytes(s: &str) -> (r: Option<Vec<u8>>)
    ensures
        r is Some <==> spec_hex_ok(spec_strip_hex_prefix(s@)),
        r matches Some(v) ==> v@ == spec_hex_bytes(spec_strip_hex_prefix(s@)),
{
    let n = s.unicode_len();
    let start: usize = if n >= 2 && s.get_char(0) == '0' && (s.get_char(1) == 'x' || s.get_char(1)
        == 'X') {
        2
    } else {
        0
    };
    let ghost h = spec_strip_hex_prefix(s@);
    proof {
        assert(h =~= s@.skip(start as int));
    }
    if (n - start) % 2 != 0 {
        return None;
    }
    let mut out: Vec<u8> = Vec::new();
    let mut i: usize = start;
    while i < n
        invariant
            n == s@.len(),
            start <= i <= n,
            h == s@.skip(start as int),
            h == spec_strip_hex_prefix(s@),
            (i - start) % 2 == 0,
            (n - start) % 2 == 0,
            out@.len() == (i - start) / 2,
            forall|j: int| 0 <= j < i - start ==> is_hex_digit(#[trigger] h[j]),
            forall|k: int|
                0 <= k < out@.len() ==> out@[k] == (((hex_val(h[2 * k]) as u32) * 16) + (hex_val(
                    h[2 * k + 1],
                ) as u32)) as u8,
        decreases n - i,
    {
        proof {
            assert(i + 1 < n) by {
                assert((n - i) % 2 == 0);
            }
        }
        let d1 = match hex_digit_val(s.get_char(i)) {
            Some(v) => v,
            None => {
                proof {
                    assert(!is_hex_digit(h[i - start]));
                }
                return None;
            },
        };
        let d2 = match hex_digit_val(s.get_char(i + 1)) {
            Some(v) => v,
            None => {
                proof {
                    assert(!is_hex_digit(h[i + 1 - start]));
                }
                return None;
            },
        };
        out.push(d1 * 16 + d2);
        i += 2;
    }
    proof {
        assert(out@ =~= spec_hex_bytes(h));
    }
    Some(out)
}

/// The lower-case hexadecimal digit of a value below 16.
pub open spec fn hex_char(n: u8) -> char {
    if n < 10 {
        (48 + n) as char
    } else {
        (87 + n) as char
    }
}

/// The lower-case hexadecimal spelling of bytes, two digits per byte,
/// high digit first.
pub open spec fn spec_lower_hex(b: Seq<u8>) -> Seq<char> {
    Seq::new(2 * b.len(), |i: int| if i % 2 == 0 {
        hex_char(b[i / 2] / 16)
    } else {
        hex_char(b[i / 2] % 16)
    })
}

/// Spells bytes as lower-case hexadecimal text.
pub fn bytes_to_hex(b: &Vec<u8>) -> (r: String)
    ensures
        r@ == spec_lower_hex(b@),
{
    let ghost cs = spec_lower_hex(b@);
    let mut hx: Vec<u8> = Vec::new();
    let mut i: usize = 0;
    while i < b.len()
        invariant
            cs == spec_lower_hex(b@),
            i <= b@.len(),
            hx@.len() == 2 * i,
            forall|k: int| 0 <= k < hx@.len() ==> hx@[k] == #[trigger] cs[k] as u8,
        decreases b@.len() - i,
    {
        let v = b[i];
        let hi = v / 16;
        let lo = v % 16;
        let c1: u8 = if hi < 10 {
            48 + hi
        } else {
            87 + hi
        };
        let c2: u8 = if lo < 10 {
            48 + lo
        } else {
            87 + lo
        };
        hx.push(c1);
        hx.push(c2);
        proof {
            assert(cs[2 * i as int] as u8 == c1);
            assert(cs[2 * i as int + 1] as u8 == c2);
        }
        i += 1;
    }
    proof {
        assert(is_ascii_chars(cs)) by {
            assert forall|k: int| 0 <= k < cs.len() implies '\0' <= #[trigger] cs[k] <= '\u{7f}' by {
                assert(cs[k] as u32 <= 122);
            }
        }
        assert(hx@ =~= encode_utf8(cs));
    }
    match crate::bindings::utf8_to_string(hx) {
        Some(s) => s,
        None => unreached(),
    }
}

/// The canonical solidity ABI return encoding of one dynamic `string`:
/// a head word holding the offset 32, a length word whose value fits in
/// its low eight bytes, then the payload. Tolerates trailing padding.
pub open spec fn spec_abi_string_ok(b: Seq<u8>) -> bool {
    &&& b.len() >= 64
    &&& forall|i: int| 0 <= i < 31 ==> #[trigger] b[i] == 0
    &&& b[31] == 32
    &&& forall|i: int| 32 <= i < 56 ==> #[trigger] b[i] == 0
    &&& 64 + spec_abi_len(b) <= b.len()
}

/// The value of the length word's low eight bytes, big endian.
pub open spec fn spec_abi_len(b: Seq<u8>) -> int {
    (b[56] as int) * 0x100000000000000 + (b[57] as int) * 0x1000000000000 + (b[58] as int)
        * 0x10000000000 + (b[59] as int) * 0x100000000 + (b[60] as int) * 0x1000000 + (b[61] as int)
        * 0x10000 + (b[62] as int) * 0x100 + (b[63] as int)
}

/// The string payload of a well-shaped ABI return encoding.
pub open spec fn spec_abi_string_payload(b: Seq<u8>) -> Seq<u8> {
    b.subrange(64, 64 + spec_abi_len(b))
}

/// Extracts the payload bytes of an ABI-encoded `string` return value.
pub fn abi_extract_string_bytes(b: &Vec<u8>) -> (r: Option<Vec<u8>>)
    ensures
        r is Some <==> spec_abi_string_ok(b@),
        r matches Some(v) ==> v@ == spec_abi_string_payload(b@),
{
    if b.len() < 64 {
        return None;
    }
    let mut i: usize = 0;
    while i < 31
        invariant
            b@.len() >= 64,
            i <= 31,
            forall|k: int| 0 <= k < i ==> #[trigger] b@[k] == 0,
        decreases 31 - i,
    {
        if b[i] != 0 {
            return None;
        }
        i += 1;
    }
    if b[31] != 32 {
        return None;
    }
    let mut j: usize = 32;
    while j < 56
        invariant
            b@.len() >= 64,
            32 <= j <= 56,
            forall|k: int| 32 <= k < j ==> #[trigger] b@[k] == 0,
        decreases 56 - j,
    {
        if b[j] != 0 {
            return None;
        }
        j += 1;
    }
    let len64: u64 = (b[56] as u64) * 0x100000000000000 + (b[57] as u64) * 0x1000000000000 + (
    b[58] as u64) * 0x10000000000 + (b[59] as u64) * 0x100000000 + (b[60] as u64) * 0x1000000 + (
    b[61] as u64) * 0x10000 + (b[62] as u64) * 0x100 + (b[63] as u64);
    proof {
        assert(len64 == spec_abi_len(b@));
    }
    let avail: usize = b.len() - 64;
    if len64 > (avail as u64) {
        return None;
    }
    let plen: usize = len64 as usize;
    proof {
        assert(avail as u64 as int == avail as int);
        assert(plen as int == len64 as int);
    }
    let end: usize = 64 + plen;
    let mut out: Vec<u8> = Vec::new();
    let mut k: usize = 64;
    while k < end
        invariant
            64 <= k <= end,
            end == 64 + plen,
            end <= b@.len(),
            out@.len() == k - 64,
            forall|m: int| 0 <= m < k - 64 ==> #[trigger] out@[m] == b@[64 + m],
        decreases end - k,
    {
        out.push(b[k]);
        k += 1;
    }
    proof {
        assert(out@ =~= spec_abi_string_payload(b@));
    }
    Some(out)
}

/// The canonical ABI return encoding of one `uint8`: a single word whose
/// first 31 bytes are zero.
pub open spec fn spec_abi_u8_ok(b: Seq<u8>) -> bool {
    b.len() == 32 && (forall|i: int| 0 <= i < 31 ==> #[trigger] b[i] == 0)
}

/// Extracts an ABI-encoded `uint8` return value.
pub fn abi_extract_u8(b: &Vec<u8>) -> (r: Option<u8>)
    ensures
        r is Some <==> spec_abi_u8_ok(b@),
        r matches Some(v) ==> v == b@[31],
{
    if b.len() != 32 {
        return None;
    }
    let mut i: usize = 0;
    while i < 31
        invariant
            b@.len() == 32,
            i <= 31,
            forall|k: int| 0 <= k < i ==> #[trigger] b@[k] == 0,
        decreases 31 - i,
    {
        if b[i] != 0 {
            return None;
        }
        i += 1;
    }
    Some(b[31])
}

/// What decoding an `eth_call` result for `symbol()` or `name()` yields:
/// the hexadecimal text (optional `0x` prefix) must spell bytes, the
/// bytes must be a well-shaped ABI `string` return, and the payload must
/// be valid UTF-8.
pub open spec fn spec_decode_abi_string(s: Seq<char>) -> Option<Seq<char>> {
    let h = spec_strip_hex_prefix(s);
    if !spec_hex_ok(h) {
        None
    } else {
        let b = spec_hex_bytes(h);
        if !spec_abi_string_ok(b) {
            None
        } else {
            let p = spec_abi_string_payload(b);
            if vstd::utf8::valid_utf8(p) {
                Some(vstd::utf8::decode_utf8(p))
            } else {
                None
            }
        }
    }
}

/// What decoding an `eth_call` result for `decimals()` yields.
pub open spec fn spec_decode_abi_u8(s: Seq<char>) -> Option<u8> {
    let h = spec_strip_hex_prefix(s);
    if !spec_hex_ok(h) {
        None
    } else {
        let b = spec_hex_bytes(h);
        if spec_abi_u8_ok(b) {
            Some(b[31])
        } else {
            None
        }
    }
}

/// Decodes the `eth_call` result of `symbol()` or `name()`: hexadecimal
/// text holding an ABI-encoded `string`.
pub fn decode_abi_string(s: &str) -> (r: Option<String>)
    ensures
        r is Some <==> spec_decode_abi_string(s@) is Some,
        r matches Some(v) ==> Some(v@) == spec_decode_abi_string(s@),
{
    let bytes = match hex_to_bytes(s) {
        Some(v) => v,
        None => {
            return None;
        },
    };
    let payload = match abi_extract_string_bytes(&bytes) {
        Some(v) => v,
        None => {
            return None;
        },
    };
    crate::bindings::utf8_to_string(payload)
}

/// Decodes the `eth_call` result of `decimals()`: hexadecimal text
/// holding an ABI-encoded `uint8`.
pub fn decode_abi_u8(s: &str) -> (r: Option<u8>)
    ensures
        r == spec_decode_abi_u8(s@),
{
    let bytes = match hex_to_bytes(s) {
        Some(v) => v,
        None => {
            return None;
        },
    };
    abi_extract_u8(&bytes)
}

/// Decodes the three `eth_call` results for one token into fetched
/// metadata; any undecodable result refuses the triple.
pub fn assemble_evm_metadata(sym: &str, name: &str, dec: &str) -> (r: Option<ChainMetadata>)
    ensures
        r is Some <==> spec_decode_abi_string(sym@) is Some && spec_decode_abi_string(name@) is Some
            && spec_decode_abi_u8(dec@) is Some,
        r matches Some(m) ==> Some(m.symbol@) == spec_decode_abi_string(sym@) && Some(m.name@)
            == spec_decode_abi_string(name@) && Some(m.decimals) == spec_decode_abi_u8(dec@),
{
    let s = match decode_abi_string(sym) {
        Some(v) => v,
        None => {
            return None;
        },
    };
    let n = match decode_abi_string(name) {
        Some(v) => v,
        None => {
            return None;
        },
    };
    let d = match decode_abi_u8(dec) {
        Some(v) => v,
        None => {
            return None;
        },
    };
    Some(ChainMetadata { symbol: s, name: n, decimals: d })
}

/// The four-byte selector of `symbol()`, as calldata text.
pub fn selector_symbol() -> (r: &'static str)
    ensures
        r@ == "0x95d89b41"@,
{
    "0x95d89b41"
}

/// The four-byte selector of `name()`, as calldata text.
pub fn selector_name() -> (r: &'static str)
    ensures
        r@ == "0x06fdde03"@,
{
    "0x06fdde03"
}

/// The four-byte selector of `decimals()`, as calldata text.
pub fn selector_decimals() -> (r: &'static str)
    ensures
        r@ == "0x313ce567"@,
{
    "0x313ce567"
}

/// Spells 20 address bytes as the `0x`-prefixed lower-case hexadecimal
/// text that the JSON-RPC `to` field carries.
pub fn evm_address_field(b: &[u8; 20]) -> (r: String)
    ensures
        r@ == "0x"@ + spec_lower_hex(b@),
{
    let mut v: Vec<u8> = Vec::new();
    let mut i: usize = 0;
    while i < 20
        invariant
            i <= 20,
            v@ =~= b@.take(i as int),
        decreases 20 - i,
    {
        v.push(b[i]);
        i += 1;
    }
    proof {
        assert(v@ =~= b@);
    }
    let hx = bytes_to_hex(&v);
    let mut out = String::from_str("0x");
    out.append(hx.as_str());
    out
}

/// One `eth_call` JSON-RPC request body, calling `data` on the contract
/// `to` at the latest block.
pub fn eth_call_body(to: &str, data: &str) -> (r: String)
    ensures
        r@ == "{\"jsonrpc\":\"2.0\",\"id\":1,\"method\":\"eth_call\",\"params\":[{\"to\":\""@ + to@
            + "\",\"data\":\""@ + data@ + "\"},\"latest\"]}"@,
{
    let mut out = String::from_str(
        "{\"jsonrpc\":\"2.0\",\"id\":1,\"method\":\"eth_call\",\"params\":[{\"to\":\"",
    );
    out.append(to);
    out.append("\",\"data\":\"");
    out.append(data);
    out.append("\"},\"latest\"]}");
    out
}

} // verus!
