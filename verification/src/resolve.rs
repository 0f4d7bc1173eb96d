//! Endpoint resolution and request addressing: the DNS-style host
//! segment of a network identifier, the per-family endpoint URL built
//! from it and a provider-suffix credential, and the CosmWasm
//! smart-query URL of one token.

use vstd::prelude::*;
use crate::bindings::{base64_standard, base64_std_of, parse_url, url_accepts};
use crate::outcome::{cosmos_skip, spec_cosmos_skip, SkipReason};
use crate::strutil::{first_pos, has_char, lemma_first_pos};
use crate::token::{Family, Token};

verus! {

broadcast use vstd::string::group_string_axioms;

/// The host segment a network identifier contributes: when the
/// identifier holds a separator `.`, the parts around the first one
/// swap, so `"ethereum.1"` becomes `"1.ethereum"`; an identifier
/// without a separator stands as it is.
pub open spec fn spec_subdomain(s: Seq<char>) -> Seq<char> {
    if has_char(s, '.') {
        let p = first_pos(s, '.');
        s.subrange(p + 1, s.len() as int) + seq!['.'] + s.subrange(0, p)
    } else {
        s
    }
}

/// Builds [`spec_subdomain`] for a network identifier.
pub fn subdomain_of(chain_id: &str) -> (r: String)
    ensures
        r@ == spec_subdomain(chain_id@),
{
    match crate::strutil::find_first(chain_id, '.') {
        None => chain_id.to_owned(),
        Some(p) => {
            proof {
                lemma_first_pos(chain_id@, '.');
                reveal_strlit(".");
                assert("."@.len() == 1);
            }
            let n = chain_id.unicode_len();
            let right = chain_id.substring_char(p + 1, n);
            let left = chain_id.substring_char(0, p);
            let mut out = String::from_str(right);
            out.append(".");
            out.append(left);
            proof {
                assert("."@ =~= seq!['.']);
                assert(out@ =~= spec_subdomain(chain_id@));
            }
            out
        },
    }
}

/// The JSON-RPC endpoint URL of an EVM network: a fixed scheme and host
/// prefix, the swapped host segment, then the provider suffix.
pub open spec fn spec_evm_rpc_url(chain: Seq<char>, suffix: Seq<char>) -> Seq<char> {
    "https://rpc."@ + spec_subdomain(chain) + suffix
}

/// The REST endpoint URL of a Cosmos network, built the same way against
/// the REST-style host prefix.
pub open spec fn spec_cosmos_rest_url(chain: Seq<char>, suffix: Seq<char>) -> Seq<char> {
    "https://rest."@ + spec_subdomain(chain) + suffix
}

/// Builds the JSON-RPC endpoint URL text for an EVM network from its
/// identifier and the provider-suffix credential.
pub fn get_rpc(network: &str, provider_suffix: &str) -> (r: String)
    ensures
        r@ == spec_evm_rpc_url(network@, provider_suffix@),
{
    let sub = subdomain_of(network);
    let mut out = String::from_str("https://rpc.");
    out.append(sub.as_str());
    out.append(provider_suffix);
    out
}

/// Builds the REST endpoint URL text for a Cosmos network.
pub fn get_rest(network: &str, provider_suffix: &str) -> (r: String)
    ensures
        r@ == spec_cosmos_rest_url(network@, provider_suffix@),
{
    let sub = subdomain_of(network);
    let mut out = String::from_str("https://rest.");
    out.append(sub.as_str());
    out.append(provider_suffix);
    out
}

/// A resolved connection handle: for the EVM family the parsed JSON-RPC
/// URL (with its text kept for inspection), for the Cosmos family the
/// REST base URL text that per-token query URLs extend.
pub enum Endpoint {
    Evm { url: url::Url, text: String },
    Cosmos { base: String },
}

/// Resolves the endpoint of one network. A missing credential resolves
/// nothing, degrading the network to "unreachable" rather than aborting
/// the run; URL text that the parser refuses resolves nothing either,
/// rather than panicking.
pub fn resolve(family: Family, chain_id: &str, credential: &Option<String>) -> (r: Option<
    Endpoint,
>)
    ensures
        credential is None ==> r is None,
        family == Family::Evm ==> (credential matches Some(c) ==> {
            &&& (r is Some <==> url_accepts(spec_evm_rpc_url(chain_id@, c@)))
            &&& (r matches Some(e) ==> e matches Endpoint::Evm { url, text } && text@
                == spec_evm_rpc_url(chain_id@, c@))
        }),
        family == Family::Cosmos ==> (credential matches Some(c) ==> {
            &&& (r is Some <==> url_accepts(spec_cosmos_rest_url(chain_id@, c@)))
            &&& (r matches Some(e) ==> e matches Endpoint::Cosmos { base } && base@
                == spec_cosmos_rest_url(chain_id@, c@))
        }),
{
    let suffix = match credential {
        None => {
            return None;
        },
        Some(c) => c.as_str(),
    };
    match family {
        Family::Evm => {
            let text = get_rpc(chain_id, suffix);
            match parse_url(text.as_str()) {
                Some(u) => Some(Endpoint::Evm { url: u, text }),
                None => None,
            }
        },
        Family::Cosmos => {
            let text = get_rest(chain_id, suffix);
            match parse_url(text.as_str()) {
                Some(_) => Some(Endpoint::Cosmos { base: text }),
                None => None,
            }
        },
    }
}

/// The fixed CosmWasm query payload asking a contract for its token
/// metadata.
pub fn token_info_query() -> (r: &'static str)
    ensures
        r@ == "{\"token_info\":{}}"@,
{
    "{\"token_info\":{}}"
}

/// The smart-query URL of one token: the REST base, the contract path,
/// the token address, then the base64 of the fixed query payload.
pub open spec fn spec_cosmos_query_url(base: Seq<char>, addr: Seq<char>) -> Seq<char> {
    base + "/cosmwasm/wasm/v1/contract/"@ + addr + "/smart/"@ + base64_std_of(
        "{\"token_info\":{}}"@,
    )
}

/// Builds [`spec_cosmos_query_url`] for one token.
pub fn cosmos_query_url(base: &str, address: &str) -> (r: String)
    ensures
        r@ == spec_cosmos_query_url(base@, address@),
{
    let q = base64_standard(token_info_query());
    let mut out = String::from_str(base);
    out.append("/cosmwasm/wasm/v1/contract/");
    out.append(address);
    out.append("/smart/");
    out.append(q.as_str());
    out
}

/// The plan for one Cosmos-family token: skip it, or issue the given
/// smart-query URL.
pub enum CosmosPlan {
    Skip(SkipReason),
    Query(String),
}

/// Decides the plan for one Cosmos-family token. A skipped token makes
/// no fetch attempt at all.
pub fn cosmos_plan(t: &Token, rest_base: &str) -> (p: CosmosPlan)
    ensures
        p is Skip <==> spec_cosmos_skip(t.address@) is Some,
        p matches CosmosPlan::Skip(r) ==> spec_cosmos_skip(t.address@) == Some(r),
        p matches CosmosPlan::Query(u) ==> u@ == spec_cosmos_query_url(rest_base@, t.address@),
{
    match cosmos_skip(t.address.as_str()) {
        Some(r) => CosmosPlan::Skip(r),
        None => CosmosPlan::Query(cosmos_query_url(rest_base, t.address.as_str())),
    }
}

} // verus!
