//! Per-token verification: the skip rules of each chain family, the
//! outcome of checking one token, and the weight an outcome adds to the
//! error tally.

use vstd::prelude::*;
use crate::compare::{compare, spec_mismatches, views_of, Mismatch, MismatchV};
use crate::abi::{spec_evm_address_bytes, spec_evm_address_ok};
use crate::strutil::{
    has_char,
    has_lower,
    has_upper,
    is_last_pos,
    last_pos,
    lemma_last_pos,
    lower_char,
    str_eq,
    case_profile,
    find_last,
    to_lower_char,
};
use crate::token::{ChainMetadata, Token};

verus! {

broadcast use vstd::string::group_string_axioms;

/// The native-asset placeholder of the EVM family: `0x` (either case of
/// `x`) followed by forty `e`, case-insensitively. Such a token has no
/// contract to query and is skipped.
pub open spec fn is_native_placeholder(s: Seq<char>) -> bool {
    &&& s.len() == 42
    &&& s[0] == '0'
    &&& (s[1] == 'x' || s[1] == 'X')
    &&& forall|i: int| 2 <= i < 42 ==> (#[trigger] s[i] == 'e' || s[i] == 'E')
}

/// Decides [`is_native_placeholder`] for an address.
pub fn is_placeholder_address(s: &str) -> (r: bool)
    ensures
        r == is_native_placeholder(s@),
{
    let n = s.unicode_len();
    if n != 42 {
        return false;
    }
    if s.get_char(0) != '0' {
        return false;
    }
    let c1 = s.get_char(1);
    if c1 != 'x' && c1 != 'X' {
        return false;
    }
    let mut i: usize = 2;
    while i < 42
        invariant
            n == s@.len(),
            n == 42,
            2 <= i <= 42,
            s@[0] == '0',
            s@[1] == 'x' || s@[1] == 'X',
            forall|j: int| 2 <= j < i ==> (#[trigger] s@[j] == 'e' || s@[j] == 'E'),
        decreases 42 - i,
    {
        let c = s.get_char(i);
        if c != 'e' && c != 'E' {
            return false;
        }
        i += 1;
    }
    true
}

/// `s` starts with the IBC denomination prefix `ibc/`.
pub open spec fn is_ibc_denom(s: Seq<char>) -> bool {
    s.len() >= 4 && s[0] == 'i' && s[1] == 'b' && s[2] == 'c' && s[3] == '/'
}

/// Decides [`is_ibc_denom`] for an address.
pub fn is_ibc_address(s: &str) -> (r: bool)
    ensures
        r == is_ibc_denom(s@),
{
    if s.unicode_len() < 4 {
        return false;
    }
    s.get_char(0) == 'i' && s.get_char(1) == 'b' && s.get_char(2) == 'c' && s.get_char(3) == '/'
}

/// Membership in the bech32 data alphabet, lower case.
pub open spec fn is_b32_lower(c: char) -> bool {
    ||| c == 'q' ||| c == 'p' ||| c == 'z' ||| c == 'r' ||| c == 'y' ||| c == '9' ||| c == 'x'
    ||| c == '8' ||| c == 'g' ||| c == 'f' ||| c == '2' ||| c == 't' ||| c == 'v' ||| c == 'd'
    ||| c == 'w' ||| c == '0' ||| c == 's' ||| c == '3' ||| c == 'j' ||| c == 'n' ||| c == '5'
    ||| c == '4' ||| c == 'k' ||| c == 'h' ||| c == 'c' ||| c == 'e' ||| c == '6' ||| c == 'm'
    ||| c == 'u' ||| c == 'a' ||| c == '7' ||| c == 'l'
}

/// Decides [`is_b32_lower`] for one character.
pub fn is_b32_char(c: char) -> (r: bool)
    ensures
        r == is_b32_lower(c),
{
    match c {
        'q' | 'p' | 'z' | 'r' | 'y' | '9' | 'x' | '8' | 'g' | 'f' | '2' | 't' | 'v' | 'd' | 'w'
            | '0' | 's' | '3' | 'j' | 'n' | '5' | '4' | 'k' | 'h' | 'c' | 'e' | '6' | 'm' | 'u'
            | 'a' | '7' | 'l' => true,
        _ => false,
    }
}

/// The shape of a bech32 address: at most 90 characters, no mixed case,
/// a human-readable part of at least one character in the visible ASCII
/// range, the separator `1`, and a data part of at least six characters
/// from the bech32 alphabet. The checksum is not verified here: a token
/// address of this shape is treated as a contract address and queried,
/// and the chain rejects a bad checksum.
pub open spec fn bech32_shaped(s: Seq<char>) -> bool {
    &&& s.len() <= 90
    &&& !(has_upper(s) && has_lower(s))
    &&& has_char(s, '1')
    &&& 1 <= last_pos(s, '1')
    &&& last_pos(s, '1') + 7 <= s.len()
    &&& forall|i: int| 0 <= i < last_pos(s, '1') ==> 33 <= #[trigger] s[i] as u32 <= 126
    &&& forall|i: int|
        last_pos(s, '1') < i < s.len() ==> is_b32_lower(lower_char(#[trigger] s[i]))
}

/// Decides [`bech32_shaped`] for an address.
pub fn bech32_shaped_addr(s: &str) -> (r: bool)
    ensures
        r == bech32_shaped(s@),
{
    let n = s.unicode_len();
    if n > 90 {
        return false;
    }
    let profile = case_profile(s);
    if profile.0 && profile.1 {
        return false;
    }
    let sep = match find_last(s, '1') {
        Some(i) => i,
        None => {
            return false;
        },
    };
    proof {
        lemma_last_pos(s@, '1');
        assert(last_pos(s@, '1') == sep as int);
    }
    if sep < 1 || sep + 7 > n {
        return false;
    }
    let mut i: usize = 0;
    while i < sep
        invariant
            n == s@.len(),
            i <= sep < n,
            is_last_pos(s@, '1', sep as int),
            last_pos(s@, '1') == sep as int,
            forall|j: int| 0 <= j < i ==> 33 <= #[trigger] s@[j] as u32 <= 126,
        decreases sep - i,
    {
        let u = s.get_char(i) as u32;
        if u < 33 || u > 126 {
            return false;
        }
        i += 1;
    }
    let mut j: usize = sep + 1;
    while j < n
        invariant
            n == s@.len(),
            sep < j <= n,
            is_last_pos(s@, '1', sep as int),
            last_pos(s@, '1') == sep as int,
            forall|k: int| sep < k < j ==> is_b32_lower(lower_char(#[trigger] s@[k])),
        decreases n - j,
    {
        if !is_b32_char(to_lower_char(s.get_char(j))) {
            return false;
        }
        j += 1;
    }
    true
}

/// Why a token was skipped rather than fetched.
#[derive(Debug, Clone, Copy, PartialEq, Eq, Structural)]
pub enum SkipReason {
    /// The EVM native-asset placeholder address.
    NativePlaceholder,
    /// The reserved Cosmos native denomination `ubbn`.
    NativeDenom,
    /// An IBC denomination, prefix `ibc/`.
    IbcDenom,
    /// Not bech32-shaped, so not a CosmWasm contract address.
    NotBech32,
}

/// Why fetching a token's metadata failed.
#[derive(Debug, Clone, Copy, PartialEq, Eq, Structural)]
pub enum FetchFailure {
    /// The declared address does not parse for the family.
    BadAddress,
    /// The chain call itself failed: transport error, bad status, revert,
    /// or an undecodable response.
    CallFailed,
}

/// The result of checking one token.
#[derive(Debug, Clone, PartialEq, Eq)]
pub enum Outcome {
    Valid,
    Mismatched(Vec<Mismatch>),
    Skipped(SkipReason),
    FetchFailed(FetchFailure),
}

/// The mathematical shape of an [`Outcome`].
pub enum OutcomeV {
    Valid,
    Mismatched(Seq<MismatchV>),
    Skipped(SkipReason),
    FetchFailed(FetchFailure),
}

impl View for Outcome {
    type V = OutcomeV;

    open spec fn view(&self) -> OutcomeV {
        match self {
            Outcome::Valid => OutcomeV::Valid,
            Outcome::Mismatched(v) => OutcomeV::Mismatched(views_of(v@)),
            Outcome::Skipped(r) => OutcomeV::Skipped(*r),
            Outcome::FetchFailed(r) => OutcomeV::FetchFailed(*r),
        }
    }
}

/// What an outcome adds to the error tally: nothing for a valid or
/// skipped token, one for a failed fetch, one per mismatched field.
pub open spec fn spec_weight(o: OutcomeV) -> int {
    match o {
        OutcomeV::Valid => 0,
        OutcomeV::Skipped(_) => 0,
        OutcomeV::FetchFailed(_) => 1,
        OutcomeV::Mismatched(l) => if l.len() > 0xffff_ffff {
            0xffff_ffff
        } else {
            l.len() as int
        },
    }
}

/// The error-tally contribution of one outcome.
pub fn weight(o: &Outcome) -> (r: u32)
    ensures
        r as int == spec_weight(o@),
{
    match o {
        Outcome::Valid => 0,
        Outcome::Skipped(_) => 0,
        Outcome::FetchFailed(_) => 1,
        Outcome::Mismatched(l) => {
            if l.len() > 0xffff_ffff as usize {
                0xffff_ffff
            } else {
                l.len() as u32
            }
        },
    }
}

/// The outcome of one EVM-family token, given what came back from the
/// chain: the placeholder is skipped before anything else, an address
/// that does not parse is a fetch error, a failed or undecodable call is
/// a fetch error, and otherwise the comparator decides.
pub open spec fn spec_evm_outcome(t: Token, f: Option<ChainMetadata>) -> OutcomeV {
    if is_native_placeholder(t.address@) {
        OutcomeV::Skipped(SkipReason::NativePlaceholder)
    } else if !spec_evm_address_ok(t.address@) {
        OutcomeV::FetchFailed(FetchFailure::BadAddress)
    } else {
        match f {
            None => OutcomeV::FetchFailed(FetchFailure::CallFailed),
            Some(m) => if spec_mismatches(t, m).len() == 0 {
                OutcomeV::Valid
            } else {
                OutcomeV::Mismatched(spec_mismatches(t, m))
            },
        }
    }
}

/// The skip decision for a Cosmos-family address, checked before any
/// network call: the reserved native denomination, then the IBC prefix,
/// then anything not bech32-shaped.
pub open spec fn spec_cosmos_skip(s: Seq<char>) -> Option<SkipReason> {
    if s == "ubbn"@ {
        Some(SkipReason::NativeDenom)
    } else if is_ibc_denom(s) {
        Some(SkipReason::IbcDenom)
    } else if !bech32_shaped(s) {
        Some(SkipReason::NotBech32)
    } else {
        None
    }
}

/// The outcome of one Cosmos-family token, given what came back from the
/// contract query.
pub open spec fn spec_cosmos_outcome(t: Token, f: Option<ChainMetadata>) -> OutcomeV {
    match spec_cosmos_skip(t.address@) {
        Some(r) => OutcomeV::Skipped(r),
        None => match f {
            None => OutcomeV::FetchFailed(FetchFailure::CallFailed),
            Some(m) => if spec_mismatches(t, m).len() == 0 {
                OutcomeV::Valid
            } else {
                OutcomeV::Mismatched(spec_mismatches(t, m))
            },
        },
    }
}

/// Decides [`spec_cosmos_skip`] for an address.
pub fn cosmos_skip(address: &str) -> (r: Option<SkipReason>)
    ensures
        r == spec_cosmos_skip(address@),
{
    proof {
        reveal_strlit("ubbn");
    }
    if str_eq(address, "ubbn") {
        Some(SkipReason::NativeDenom)
    } else if is_ibc_address(address) {
        Some(SkipReason::IbcDenom)
    } else if !bech32_shaped_addr(address) {
        Some(SkipReason::NotBech32)
    } else {
        None
    }
}

/// Settles one EVM-family token. `fetched` is what the caller read back
/// from the chain for this token, `None` when any of the three calls
/// failed or its result did not decode; it is consulted only when the
/// token is neither skipped nor refused for its address.
pub fn evm_outcome(t: &Token, fetched: &Option<ChainMetadata>) -> (o: Outcome)
    ensures
        o@ == spec_evm_outcome(*t, *fetched),
{
    if is_placeholder_address(t.address.as_str()) {
        return Outcome::Skipped(SkipReason::NativePlaceholder);
    }
    if crate::bindings::parse_evm_address(t.address.as_str()).is_none() {
        return Outcome::FetchFailed(FetchFailure::BadAddress);
    }
    match fetched {
        None => Outcome::FetchFailed(FetchFailure::CallFailed),
        Some(m) => {
            let ms = compare(t, m);
            if ms.len() == 0 {
                proof {
                    assert(spec_mismatches(*t, *m).len() == 0);
                }
                Outcome::Valid
            } else {
                Outcome::Mismatched(ms)
            }
        },
    }
}

/// Settles one Cosmos-family token, as [`evm_outcome`] does for EVM.
pub fn cosmos_outcome(t: &Token, fetched: &Option<ChainMetadata>) -> (o: Outcome)
    ensures
        o@ == spec_cosmos_outcome(*t, *fetched),
{
    match cosmos_skip(t.address.as_str()) {
        Some(r) => Outcome::Skipped(r),
        None => match fetched {
            None => Outcome::FetchFailed(FetchFailure::CallFailed),
            Some(m) => {
                let ms = compare(t, m);
                if ms.len() == 0 {
                    proof {
                        assert(spec_mismatches(*t, *m).len() == 0);
                    }
                    Outcome::Valid
                } else {
                    Outcome::Mismatched(ms)
                }
            },
        },
    }
}

/// The plan for one EVM-family token: skip the placeholder, refuse an
/// address that does not parse, otherwise call the chain with the
/// parsed address bytes.
#[derive(Debug, Clone, PartialEq, Eq)]
pub enum EvmPlan {
    SkipNative,
    BadAddress,
    Fetch([u8; 20]),
}

/// Decides the plan for one EVM-family token. A placeholder token is
/// skipped with no call made; an unparseable address makes no call
/// either.
pub fn evm_plan(t: &Token) -> (p: EvmPlan)
    ensures
        p is SkipNative <==> is_native_placeholder(t.address@),
        p is BadAddress <==> !is_native_placeholder(t.address@) && !spec_evm_address_ok(
            t.address@,
        ),
        p is Fetch <==> !is_native_placeholder(t.address@) && spec_evm_address_ok(t.address@),
        p matches EvmPlan::Fetch(b) ==> b@ == spec_evm_address_bytes(t.address@),
{
    if is_placeholder_address(t.address.as_str()) {
        return EvmPlan::SkipNative;
    }
    match crate::bindings::parse_evm_address(t.address.as_str()) {
        Some(b) => EvmPlan::Fetch(b),
        None => EvmPlan::BadAddress,
    }
}

} // verus!
