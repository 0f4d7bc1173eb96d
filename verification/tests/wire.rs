//! The wire formats: hexadecimal and ABI decoding of `eth_call` results,
//! the `eth_call` request body, endpoint URLs, and the CosmWasm
//! smart-query URL.

use base64::Engine;
use validate_tokens::abi::{
    assemble_evm_metadata, bytes_to_hex, decode_abi_string, decode_abi_u8, eth_call_body,
    evm_address_field, hex_to_bytes, selector_decimals, selector_name, selector_symbol,
};
use validate_tokens::resolve::{
    cosmos_plan, cosmos_query_url, get_rest, get_rpc, resolve, subdomain_of, CosmosPlan, Endpoint,
};
use validate_tokens::token::{Family, Token};

/// An ABI `string` return: offset word 32, length word, padded payload.
fn abi_string_hex(payload_hex: &str, len: usize) -> String {
    let mut padded = payload_hex.to_string();
    while padded.len() % 64 != 0 {
        padded.push('0');
    }
    format!("0x{:064x}{:064x}{}", 32, len, padded)
}

#[test]
fn hex_decoding_round_trip_and_refusals() {
    assert_eq!(hex_to_bytes("0xdeadBEEF"), Some(vec![0xde, 0xad, 0xbe, 0xef]));
    assert_eq!(hex_to_bytes("00ff"), Some(vec![0x00, 0xff]));
    assert_eq!(hex_to_bytes(""), Some(Vec::new()));
    assert_eq!(hex_to_bytes("0x"), Some(Vec::new()));
    // Odd length and non-digits are refused.
    assert_eq!(hex_to_bytes("0xabc"), None);
    assert_eq!(hex_to_bytes("zz"), None);
    assert_eq!(bytes_to_hex(&vec![0xde, 0xad, 0xbe, 0xef]), "deadbeef");
}

#[test]
fn abi_string_decoding() {
    // "USDC" is 55 53 44 43.
    let sym = abi_string_hex("55534443", 4);
    assert_eq!(decode_abi_string(&sym), Some("USDC".to_string()));
    // A non-ASCII but valid UTF-8 payload decodes too.
    let accented = abi_string_hex("c3a9", 2);
    assert_eq!(decode_abi_string(&accented), Some("\u{e9}".to_string()));
    // An invalid UTF-8 payload is refused.
    let bad_utf8 = abi_string_hex("ff", 1);
    assert_eq!(decode_abi_string(&bad_utf8), None);
    // A length overrunning the data is refused.
    let overrun = format!("0x{:064x}{:064x}", 32, 400);
    assert_eq!(decode_abi_string(&overrun), None);
    // A response shorter than head plus length word is refused.
    assert_eq!(decode_abi_string("0x1234"), None);
}

#[test]
fn abi_u8_decoding() {
    let six = format!("0x{:064x}", 6);
    assert_eq!(decode_abi_u8(&six), Some(6));
    let max = format!("0x{:064x}", 255);
    assert_eq!(decode_abi_u8(&max), Some(255));
    // A value beyond u8 is refused, as is a word of the wrong size.
    let big = format!("0x{:064x}", 256);
    assert_eq!(decode_abi_u8(&big), None);
    assert_eq!(decode_abi_u8("0x06"), None);
}

#[test]
fn metadata_assembles_from_three_results() {
    let sym = abi_string_hex("55534443", 4);
    let name = abi_string_hex("55534420436f696e", 8);
    let dec = format!("0x{:064x}", 6);
    let m = assemble_evm_metadata(&sym, &name, &dec).expect("all three decode");
    assert_eq!(m.symbol, "USDC");
    assert_eq!(m.name, "USD Coin");
    assert_eq!(m.decimals, 6);
    assert_eq!(assemble_evm_metadata(&sym, "0x", &dec), None);
}

#[test]
fn selectors_are_the_erc20_metadata_selectors() {
    assert_eq!(selector_symbol(), "0x95d89b41");
    assert_eq!(selector_name(), "0x06fdde03");
    assert_eq!(selector_decimals(), "0x313ce567");
}

#[test]
fn eth_call_body_is_exact() {
    let body = eth_call_body("0xabcd", "0x95d89b41");
    assert_eq!(
        body,
        "{\"jsonrpc\":\"2.0\",\"id\":1,\"method\":\"eth_call\",\"params\":[{\"to\":\"0xabcd\",\"data\":\"0x95d89b41\"},\"latest\"]}"
    );
}

// The address parser normalizes: mixed-case input without a prefix comes
// back as the canonical lower-case `0x` form.
#[test]
fn address_field_is_normalized_lower_hex() {
    let t = Token {
        address: "A0b86991c6218b36c1d19D4a2e9Eb0cE3606eB48".to_string(),
        symbol: "USDC".to_string(),
        name: "USD Coin".to_string(),
        decimals: 6,
    };
    match validate_tokens::outcome::evm_plan(&t) {
        validate_tokens::outcome::EvmPlan::Fetch(bytes) => {
            assert_eq!(
                evm_address_field(&bytes),
                "0xa0b86991c6218b36c1d19d4a2e9eb0ce3606eb48"
            );
        }
        other => panic!("expected a fetch plan, got {other:?}"),
    }
}

#[test]
fn subdomain_swaps_on_the_first_separator() {
    assert_eq!(subdomain_of("ethereum.1"), "1.ethereum");
    assert_eq!(subdomain_of("babylon"), "babylon");
    assert_eq!(subdomain_of("a.b.c"), "b.c.a");
}

#[test]
fn endpoint_urls() {
    assert_eq!(
        get_rpc("ethereum.1", "-mainnet.example.com/v2/key"),
        "https://rpc.1.ethereum-mainnet.example.com/v2/key"
    );
    assert_eq!(
        get_rest("babylon.bbn-1", ".example.com"),
        "https://rest.bbn-1.babylon.example.com"
    );
}

#[test]
fn resolution_needs_a_credential_and_a_parseable_url() {
    assert!(resolve(Family::Evm, "ethereum.1", &None).is_none());
    match resolve(Family::Evm, "ethereum.1", &Some(".example.com".to_string())) {
        Some(Endpoint::Evm { url, text }) => {
            assert_eq!(text, "https://rpc.1.ethereum.example.com");
            assert_eq!(url.as_str(), "https://rpc.1.ethereum.example.com/");
        }
        other => {
            assert!(other.is_none(), "unexpected cosmos endpoint");
            panic!("expected an EVM endpoint");
        }
    }
    // A space makes the URL unparseable: resolution fails cleanly.
    assert!(resolve(Family::Evm, "bad host.1", &Some(".example.com".to_string())).is_none());
    match resolve(Family::Cosmos, "babylon.bbn-1", &Some(".example.com".to_string())) {
        Some(Endpoint::Cosmos { base }) => {
            assert_eq!(base, "https://rest.bbn-1.babylon.example.com");
        }
        _ => panic!("expected a cosmos endpoint"),
    }
}

// The smart-query URL carries the base64 of the fixed query payload —
// really encoded, not the payload text itself.
#[test]
fn cosmos_query_url_embeds_the_encoded_query() {
    let url = cosmos_query_url("https://rest.bbn-1.babylon.example.com", "bbn1qpzry9");
    let encoded = base64::engine::general_purpose::STANDARD.encode("{\"token_info\":{}}");
    assert_eq!(encoded, "eyJ0b2tlbl9pbmZvIjp7fX0=");
    assert_eq!(
        url,
        format!(
            "https://rest.bbn-1.babylon.example.com/cosmwasm/wasm/v1/contract/bbn1qpzry9/smart/{encoded}"
        )
    );
    assert!(!url.contains("token_info"));
}

#[test]
fn cosmos_plan_skips_or_queries() {
    let skip = Token {
        address: "ubbn".to_string(),
        symbol: "BBN".to_string(),
        name: "Babylon".to_string(),
        decimals: 6,
    };
    match cosmos_plan(&skip, "https://rest.example.com") {
        CosmosPlan::Skip(r) => {
            assert_eq!(r, validate_tokens::outcome::SkipReason::NativeDenom)
        }
        CosmosPlan::Query(u) => panic!("expected a skip, got query {u}"),
    }
    let fetch = Token { address: "bbn1qpzry9".to_string(), ..skip };
    match cosmos_plan(&fetch, "https://rest.example.com") {
        CosmosPlan::Query(u) => {
            assert!(u.starts_with("https://rest.example.com/cosmwasm/wasm/v1/contract/bbn1qpzry9/smart/"))
        }
        CosmosPlan::Skip(r) => panic!("expected a query, got skip {r:?}"),
    }
}
