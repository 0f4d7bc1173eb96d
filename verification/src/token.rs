//! The data model of the audit: the declared token record, the metadata
//! fetched from the chain, and the chain-family tag.

use vstd::prelude::*;

verus! {

broadcast use vstd::string::group_string_axioms;

/// The declared (expected) metadata for one token, loaded from a
/// per-network token list. Immutable once built.
#[derive(Debug, Clone, PartialEq, Eq)]
pub struct Token {
    /// Chain-specific address text: `0x`-prefixed hex for the EVM family,
    /// bech32 / native-denom / IBC-denom text for the Cosmos family.
    pub address: String,
    pub symbol: String,
    pub name: String,
    pub decimals: u8,
}

/// The symbol/name/decimals triple read back from the chain. Lives only
/// for the duration of one comparison; never cached.
#[derive(Debug, Clone, PartialEq, Eq)]
pub struct ChainMetadata {
    pub symbol: String,
    pub name: String,
    pub decimals: u8,
}

/// The two supported chain families.
#[derive(Debug, Clone, Copy, PartialEq, Eq, Structural)]
pub enum Family {
    Evm,
    Cosmos,
}

/// The family named by a configuration `rpc_type` tag: exactly `"evm"`
/// and `"cosmos"` are recognized, anything else is unknown.
pub open spec fn spec_parse_family(tag: Seq<char>) -> Option<Family> {
    if tag == "evm"@ {
        Some(Family::Evm)
    } else if tag == "cosmos"@ {
        Some(Family::Cosmos)
    } else {
        None
    }
}

/// Reads a configuration `rpc_type` tag. An unrecognized tag is a fatal
/// configuration error for the caller to raise.
pub fn parse_family(tag: &str) -> (r: Option<Family>)
    ensures
        r == spec_parse_family(tag@),
{
    proof {
        reveal_strlit("evm");
        reveal_strlit("cosmos");
        assert("evm"@.len() == 3);
        assert("cosmos"@.len() == 6);
    }
    if crate::strutil::str_eq(tag, "evm") {
        Some(Family::Evm)
    } else if crate::strutil::str_eq(tag, "cosmos") {
        Some(Family::Cosmos)
    } else {
        None
    }
}

} // verus!
