//! Cross-checks locally declared token metadata (address, symbol, display
//! name, decimal precision) against the authoritative on-chain record, for
//! EVM-family chains (queried through `eth_call`) and Cosmos-SDK chains
//! running CosmWasm (queried through a smart-contract REST endpoint).
//!
//! The crate holds the decision logic of the audit: endpoint resolution,
//! per-token skip rules, the wire formats of the two chain families, the
//! field-by-field comparator, and the error accounting that folds many
//! independent checks into a single pass/fail outcome. Performing the
//! actual HTTP requests is left to the caller, who hands every response
//! back as plain values.

pub mod abi;
pub mod bindings;
pub mod compare;
pub mod outcome;
pub mod resolve;
pub mod run;
pub mod strutil;
pub mod token;
