//! The network verifier and the run aggregator: folding per-token
//! outcomes into one network's error count, folding network counts into
//! the run tally, validating the configured families up front, and the
//! laws that hold of the whole pipeline.

use vstd::prelude::*;
use crate::outcome::{
    cosmos_outcome,
    evm_outcome,
    is_native_placeholder,
    spec_cosmos_outcome,
    spec_cosmos_skip,
    spec_evm_outcome,
    spec_weight,
    weight,
    OutcomeV,
};
use crate::abi::spec_evm_address_ok;
use crate::compare::spec_mismatches;
use crate::resolve::Endpoint;
use crate::token::{parse_family, spec_parse_family, ChainMetadata, Family, Token};

verus! {

/// Addition on the 32-bit error tally, saturating at the cap.
pub open spec fn spec_add_sat(a: int, b: int) -> int {
    if a + b > 0xffff_ffff {
        0xffff_ffff
    } else {
        a + b
    }
}

/// The outcome of one token under the family's rules.
pub open spec fn spec_family_outcome(family: Family, t: Token, f: Option<ChainMetadata>) -> OutcomeV {
    match family {
        Family::Evm => spec_evm_outcome(t, f),
        Family::Cosmos => spec_cosmos_outcome(t, f),
    }
}

/// The family's rules skip the token before any fetch.
pub open spec fn spec_skips(family: Family, t: Token) -> bool {
    match family {
        Family::Evm => is_native_placeholder(t.address@),
        Family::Cosmos => spec_cosmos_skip(t.address@) is Some,
    }
}

/// The family's rules fetch the token: it is not skipped and its address
/// is acceptable.
pub open spec fn spec_fetches(family: Family, t: Token) -> bool {
    match family {
        Family::Evm => !is_native_placeholder(t.address@) && spec_evm_address_ok(t.address@),
        Family::Cosmos => spec_cosmos_skip(t.address@) is None,
    }
}

/// The error count of one network: the saturating sum, over its tokens,
/// of the weight of each token's outcome under the response the chain
/// gave for it.
pub open spec fn spec_network_tally(
    family: Family,
    ts: Seq<Token>,
    fs: Seq<Option<ChainMetadata>>,
) -> int
    decreases ts.len(),
{
    if ts.len() == 0 {
        0
    } else {
        spec_add_sat(
            spec_network_tally(family, ts.drop_last(), fs.drop_last()),
            spec_weight(spec_family_outcome(family, ts.last(), fs.last())),
        )
    }
}

/// Folds the outcomes of one network's tokens into its error count.
/// `responses[i]` is what the caller read back from the chain for
/// `tokens[i]`: `None` when the call failed, was undecodable, or was
/// never made because the token is skipped or its address refused.
pub fn verify_tokens(
    family: Family,
    tokens: &Vec<Token>,
    responses: &Vec<Option<ChainMetadata>>,
) -> (n: u32)
    requires
        tokens@.len() == responses@.len(),
    ensures
        n as int == spec_network_tally(family, tokens@, responses@),
{
    let mut total: u32 = 0;
    let mut i: usize = 0;
    while i < tokens.len()
        invariant
            tokens@.len() == responses@.len(),
            i <= tokens@.len(),
            total as int == spec_network_tally(
                family,
                tokens@.take(i as int),
                responses@.take(i as int),
            ),
        decreases tokens@.len() - i,
    {
        let o = match family {
            Family::Evm => evm_outcome(&tokens[i], &responses[i]),
            Family::Cosmos => cosmos_outcome(&tokens[i], &responses[i]),
        };
        let w = weight(&o);
        total = if total > 0xffff_ffff - w {
            0xffff_ffff
        } else {
            total + w
        };
        proof {
            assert(tokens@.take(i + 1).drop_last() =~= tokens@.take(i as int));
            assert(responses@.take(i + 1).drop_last() =~= responses@.take(i as int));
            assert(tokens@.take(i + 1).last() == tokens@[i as int]);
            assert(responses@.take(i + 1).last() == responses@[i as int]);
        }
        i += 1;
    }
    proof {
        assert(tokens@.take(tokens@.len() as int) =~= tokens@);
        assert(responses@.take(responses@.len() as int) =~= responses@);
    }
    total
}

/// The contribution of one network to the run tally. A network whose
/// endpoint could not be resolved is skipped whole and contributes
/// nothing: "cannot check" is deliberately not "checked and invalid".
pub fn network_error_count(
    endpoint: &Option<Endpoint>,
    family: Family,
    tokens: &Vec<Token>,
    responses: &Vec<Option<ChainMetadata>>,
) -> (n: u32)
    requires
        tokens@.len() == responses@.len(),
    ensures
        endpoint is None ==> n == 0,
        endpoint is Some ==> n as int == spec_network_tally(family, tokens@, responses@),
{
    match endpoint {
        None => 0,
        Some(_) => verify_tokens(family, tokens, responses),
    }
}

/// Validates every configured `rpc_family` tag before any network is
/// verified: one unknown tag aborts the whole run as a configuration
/// error, reported by its position.
pub fn check_run_config(kinds: &Vec<String>) -> (r: Result<Vec<Family>, usize>)
    ensures
        r is Ok <==> (forall|i: int|
            0 <= i < kinds@.len() ==> spec_parse_family(#[trigger] kinds@[i]@) is Some),
        r matches Ok(fams) ==> fams@.len() == kinds@.len() && (forall|i: int|
            0 <= i < kinds@.len() ==> Some(#[trigger] fams@[i]) == spec_parse_family(kinds@[i]@)),
        r matches Err(i) ==> i < kinds@.len() && spec_parse_family(kinds@[i as int]@) is None,
{
    let mut fams: Vec<Family> = Vec::new();
    let mut i: usize = 0;
    while i < kinds.len()
        invariant
            i <= kinds@.len(),
            fams@.len() == i,
            forall|j: int| 0 <= j < i ==> Some(#[trigger] fams@[j]) == spec_parse_family(kinds@[j]@),
        decreases kinds@.len() - i,
    {
        match parse_family(kinds[i].as_str()) {
            Some(f) => fams.push(f),
            None => {
                proof {
                    assert(spec_parse_family(kinds@[i as int]@) is None);
                }
                return Err(i);
            },
        }
        i += 1;
    }
    proof {
        assert forall|i: int| 0 <= i < kinds@.len() implies spec_parse_family(
            #[trigger] kinds@[i]@,
        ) is Some by {
            assert(Some(fams@[i]) == spec_parse_family(kinds@[i]@));
        }
    }
    Ok(fams)
}

/// The run-wide error tally: an explicit accumulator, summed network by
/// network, saturating at the 32-bit cap (which keeps "zero" exact).
pub struct RunTally {
    pub total: u32,
}

impl RunTally {
    /// A fresh tally of zero.
    pub fn new() -> (r: Self)
        ensures
            r.total == 0,
    {
        RunTally { total: 0 }
    }

    /// Adds one network's error count.
    pub fn add(&mut self, n: u32)
        ensures
            final(self).total as int == spec_add_sat(old(self).total as int, n as int),
    {
        if self.total > 0xffff_ffff - n {
            self.total = 0xffff_ffff;
        } else {
            self.total = self.total + n;
        }
    }

    /// The final success predicate of the run: it passes exactly when
    /// the tally is zero.
    pub fn passed(&self) -> (r: bool)
        ensures
            r == (self.total == 0),
    {
        self.total == 0
    }
}

/// The saturating tally grows by exactly the weight of each further
/// token's outcome: checking one more token adds its contribution and
/// nothing else.
pub proof fn lemma_tally_extend(
    family: Family,
    ts: Seq<Token>,
    fs: Seq<Option<ChainMetadata>>,
    t: Token,
    f: Option<ChainMetadata>,
)
    requires
        ts.len() == fs.len(),
    ensures
        spec_network_tally(family, ts.push(t), fs.push(f)) == spec_add_sat(
            spec_network_tally(family, ts, fs),
            spec_weight(spec_family_outcome(family, t, f)),
        ),
{
    assert(ts.push(t).drop_last() =~= ts);
    assert(fs.push(f).drop_last() =~= fs);
}

/// A fetched token whose metadata came back exactly as declared is
/// `Valid` and contributes nothing to the tally.
pub proof fn lemma_matching_token_valid(family: Family, t: Token, m: ChainMetadata)
    requires
        spec_fetches(family, t),
        t.symbol@ == m.symbol@,
        t.name@ == m.name@,
        t.decimals == m.decimals,
    ensures
        spec_family_outcome(family, t, Some(m)) == OutcomeV::Valid,
        spec_weight(spec_family_outcome(family, t, Some(m))) == 0,
{
    crate::compare::lemma_equal_metadata_no_mismatch(t, m);
}

/// A fetched token differing on some fields yields exactly one
/// descriptor per differing field, and its outcome weighs exactly that
/// many errors.
pub proof fn lemma_mismatch_weight(family: Family, t: Token, m: ChainMetadata)
    requires
        spec_fetches(family, t),
        spec_mismatches(t, m).len() > 0,
    ensures
        spec_family_outcome(family, t, Some(m)) == OutcomeV::Mismatched(spec_mismatches(t, m)),
        spec_weight(spec_family_outcome(family, t, Some(m))) == spec_mismatches(t, m).len(),
{
    crate::compare::lemma_mismatch_count(t, m);
}

/// The response `f` echoes the token's declared metadata back.
pub open spec fn spec_echoes(t: Token, f: Option<ChainMetadata>) -> bool {
    f matches Some(m) && m.symbol@ == t.symbol@ && m.name@ == t.name@ && m.decimals == t.decimals
}

/// Round trip: against a responder that echoes back exactly the declared
/// metadata of every token it is asked about, a network of tokens that
/// are each either skipped or fetched runs up an error count of zero.
pub proof fn lemma_echo_run_zero(family: Family, ts: Seq<Token>, fs: Seq<Option<ChainMetadata>>)
    requires
        ts.len() == fs.len(),
        forall|i: int|
            0 <= i < ts.len() ==> spec_skips(family, #[trigger] ts[i]) || (spec_fetches(
                family,
                ts[i],
            ) && spec_echoes(ts[i], fs[i])),
    ensures
        spec_network_tally(family, ts, fs) == 0,
    decreases ts.len(),
{
    if ts.len() > 0 {
        let n = ts.len() as int;
        assert(forall|i: int| 0 <= i < n - 1 ==> ts.drop_last()[i] == ts[i]);
        assert(forall|i: int| 0 <= i < n - 1 ==> fs.drop_last()[i] == fs[i]);
        lemma_echo_run_zero(family, ts.drop_last(), fs.drop_last());
        let t = ts.last();
        let f = fs.last();
        assert(spec_skips(family, t) || (spec_fetches(family, t) && spec_echoes(t, f)));
        if spec_skips(family, t) {
            assert(spec_weight(spec_family_outcome(family, t, f)) == 0);
        } else {
            let m = f->Some_0;
            lemma_matching_token_valid(family, t, m);
        }
    }
}

} // verus!
