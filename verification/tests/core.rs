//! The comparator, per-token outcomes, and the tally pipeline.

use validate_tokens::compare::{compare, Mismatch};
use validate_tokens::outcome::{
    cosmos_outcome, evm_outcome, weight, FetchFailure, Outcome, SkipReason,
};
use validate_tokens::resolve::Endpoint;
use validate_tokens::run::{check_run_config, network_error_count, verify_tokens, RunTally};
use validate_tokens::token::{parse_family, ChainMetadata, Family, Token};

fn token(address: &str, symbol: &str, name: &str, decimals: u8) -> Token {
    Token {
        address: address.to_string(),
        symbol: symbol.to_string(),
        name: name.to_string(),
        decimals,
    }
}

fn meta(symbol: &str, name: &str, decimals: u8) -> ChainMetadata {
    ChainMetadata { symbol: symbol.to_string(), name: name.to_string(), decimals }
}

const USDC: &str = "0xA0b86991c6218b36c1d19D4a2e9Eb0cE3606eB48";

#[test]
fn equal_metadata_is_valid_and_counts_zero() {
    let t = token(USDC, "USDC", "USD Coin", 6);
    let m = meta("USDC", "USD Coin", 6);
    assert!(compare(&t, &m).is_empty());
    let o = evm_outcome(&t, &Some(m));
    assert_eq!(o, Outcome::Valid);
    assert_eq!(weight(&o), 0);
}

#[test]
fn one_field_differs_one_descriptor() {
    let t = token(USDC, "USDC", "USD Coin", 6);
    let m = meta("USDT", "USD Coin", 6);
    let ms = compare(&t, &m);
    assert_eq!(ms.len(), 1);
    assert_eq!(
        ms[0],
        Mismatch::Symbol { declared: "USDC".to_string(), fetched: "USDT".to_string() }
    );
}

#[test]
fn two_fields_differ_two_descriptors() {
    let t = token(USDC, "USDC", "USD Coin", 6);
    let m = meta("USDT", "USD Coin", 18);
    let ms = compare(&t, &m);
    assert_eq!(ms.len(), 2);
    assert_eq!(
        ms[0],
        Mismatch::Symbol { declared: "USDC".to_string(), fetched: "USDT".to_string() }
    );
    assert_eq!(ms[1], Mismatch::Decimals { declared: 6, fetched: 18 });
}

#[test]
fn three_fields_differ_three_descriptors_and_weight_three() {
    let t = token(USDC, "USDC", "USD Coin", 6);
    let m = meta("WETH", "Wrapped Ether", 18);
    let ms = compare(&t, &m);
    assert_eq!(ms.len(), 3);
    let o = evm_outcome(&t, &Some(m));
    assert_eq!(weight(&o), 3);
}

#[test]
fn comparator_is_case_sensitive() {
    let t = token(USDC, "usdc", "USD Coin", 6);
    let m = meta("USDC", "USD Coin", 6);
    assert_eq!(compare(&t, &m).len(), 1);
}

#[test]
fn failed_call_is_fetch_error_weight_one() {
    let t = token(USDC, "USDC", "USD Coin", 6);
    let o = evm_outcome(&t, &None);
    assert_eq!(o, Outcome::FetchFailed(FetchFailure::CallFailed));
    assert_eq!(weight(&o), 1);
}

#[test]
fn bad_address_is_fetch_error_before_any_response() {
    let t = token("notanaddress", "BAD", "Bad Token", 0);
    let o = evm_outcome(&t, &Some(meta("BAD", "Bad Token", 0)));
    assert_eq!(o, Outcome::FetchFailed(FetchFailure::BadAddress));
    assert_eq!(weight(&o), 1);
}

// The scenario of an EVM network with one symbol disagreement: exactly
// one descriptor, and the tally grows by one.
#[test]
fn evm_symbol_mismatch_scenario() {
    let t = token(USDC, "USDC", "USD Coin", 6);
    let fetched = meta("USDT", "USD Coin", 6);
    let o = evm_outcome(&t, &Some(fetched));
    match &o {
        Outcome::Mismatched(ms) => {
            assert_eq!(ms.len(), 1);
            assert_eq!(
                ms[0],
                Mismatch::Symbol { declared: "USDC".to_string(), fetched: "USDT".to_string() }
            );
        }
        other => panic!("expected a mismatch, got {other:?}"),
    }
    let tokens = vec![t];
    let responses = vec![Some(meta("USDT", "USD Coin", 6))];
    assert_eq!(verify_tokens(Family::Evm, &tokens, &responses), 1);
}

// The scenario of a Cosmos token whose address is not bech32: excluded,
// zero contribution.
#[test]
fn cosmos_non_bech32_scenario() {
    let t = token("0xABC", "FOO", "Foo", 6);
    let o = cosmos_outcome(&t, &None);
    assert_eq!(o, Outcome::Skipped(SkipReason::NotBech32));
    let tokens = vec![t];
    let responses = vec![None];
    assert_eq!(verify_tokens(Family::Cosmos, &tokens, &responses), 0);
}

// An echoing responder makes a whole network run count zero.
#[test]
fn echo_round_trip_counts_zero() {
    let tokens = vec![
        token(USDC, "USDC", "USD Coin", 6),
        token("0xEeeeeEeeeEeEeeEeEeEeeEEEeeeeEeeeeeeeEEeE", "ETH", "Ether", 18),
        token("0xdAC17F958D2ee523a2206206994597C13D831ec7", "USDT", "Tether USD", 6),
    ];
    let responses: Vec<Option<ChainMetadata>> = tokens
        .iter()
        .map(|t| Some(meta(&t.symbol, &t.name, t.decimals)))
        .collect();
    assert_eq!(verify_tokens(Family::Evm, &tokens, &responses), 0);
}

// A network whose endpoint did not resolve contributes zero, mismatches
// and all.
#[test]
fn unresolved_network_contributes_zero() {
    let endpoint: Option<Endpoint> = None;
    let tokens = vec![token(USDC, "USDC", "USD Coin", 6)];
    let responses = vec![Some(meta("USDT", "Tether USD", 18))];
    assert_eq!(network_error_count(&endpoint, Family::Evm, &tokens, &responses), 0);
    assert_eq!(verify_tokens(Family::Evm, &tokens, &responses), 3);
}

#[test]
fn family_tags_parse_exactly() {
    assert_eq!(parse_family("evm"), Some(Family::Evm));
    assert_eq!(parse_family("cosmos"), Some(Family::Cosmos));
    assert_eq!(parse_family("EVM"), None);
    assert_eq!(parse_family("solana"), None);
    assert_eq!(parse_family(""), None);
}

// An unknown family tag aborts the whole run up front, by position.
#[test]
fn unknown_family_aborts_run() {
    let kinds = vec!["evm".to_string(), "solana".to_string(), "cosmos".to_string()];
    assert_eq!(check_run_config(&kinds), Err(1));
    let kinds = vec!["evm".to_string(), "cosmos".to_string()];
    assert_eq!(check_run_config(&kinds), Ok(vec![Family::Evm, Family::Cosmos]));
    assert_eq!(check_run_config(&Vec::new()), Ok(Vec::new()));
}

#[test]
fn run_tally_sums_networks_and_passes_only_on_zero() {
    let mut tally = RunTally::new();
    assert!(tally.passed());
    tally.add(0);
    assert!(tally.passed());
    tally.add(2);
    tally.add(1);
    assert!(!tally.passed());
    assert_eq!(tally.total, 3);
}

#[test]
fn run_tally_saturates_at_the_cap() {
    let mut tally = RunTally::new();
    tally.add(u32::MAX);
    tally.add(5);
    assert_eq!(tally.total, u32::MAX);
}
