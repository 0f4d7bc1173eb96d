//! The comparator: field-by-field equality of a declared token record
//! against the metadata fetched from the chain. All three checks run
//! unconditionally, so one token can report several mismatches at once.

use vstd::prelude::*;
use crate::token::{ChainMetadata, Token};

verus! {

/// One field-level disagreement, carrying the declared and the fetched
/// value of the field.
#[derive(Debug, Clone, PartialEq, Eq)]
pub enum Mismatch {
    Symbol { declared: String, fetched: String },
    Name { declared: String, fetched: String },
    Decimals { declared: u8, fetched: u8 },
}

/// The mathematical shape of a [`Mismatch`]: strings as character
/// sequences.
pub enum MismatchV {
    Symbol { declared: Seq<char>, fetched: Seq<char> },
    Name { declared: Seq<char>, fetched: Seq<char> },
    Decimals { declared: u8, fetched: u8 },
}

impl View for Mismatch {
    type V = MismatchV;

    open spec fn view(&self) -> MismatchV {
        match self {
            Mismatch::Symbol { declared, fetched } => MismatchV::Symbol {
                declared: declared@,
                fetched: fetched@,
            },
            Mismatch::Name { declared, fetched } => MismatchV::Name {
                declared: declared@,
                fetched: fetched@,
            },
            Mismatch::Decimals { declared, fetched } => MismatchV::Decimals {
                declared: *declared,
                fetched: *fetched,
            },
        }
    }
}

/// The views of a sequence of mismatch descriptors.
pub open spec fn views_of(s: Seq<Mismatch>) -> Seq<MismatchV> {
    s.map_values(|m: Mismatch| m@)
}

/// What the comparator returns: one descriptor for each of the three
/// fields on which the declared record and the fetched metadata differ,
/// in the fixed order symbol, name, decimals.
pub open spec fn spec_mismatches(t: Token, f: ChainMetadata) -> Seq<MismatchV> {
    (if t.symbol@ != f.symbol@ {
        seq![MismatchV::Symbol { declared: t.symbol@, fetched: f.symbol@ }]
    } else {
        Seq::empty()
    }) + (if t.name@ != f.name@ {
        seq![MismatchV::Name { declared: t.name@, fetched: f.name@ }]
    } else {
        Seq::empty()
    }) + (if t.decimals != f.decimals {
        seq![MismatchV::Decimals { declared: t.decimals, fetched: f.decimals }]
    } else {
        Seq::empty()
    })
}

/// Compares a declared record to fetched metadata, returning the list of
/// field-level mismatches. No short-circuiting: every field is checked.
pub fn compare(t: &Token, f: &ChainMetadata) -> (r: Vec<Mismatch>)
    ensures
        views_of(r@) == spec_mismatches(*t, *f),
{
    let mut r: Vec<Mismatch> = Vec::new();
    if !crate::strutil::str_eq(t.symbol.as_str(), f.symbol.as_str()) {
        r.push(Mismatch::Symbol { declared: t.symbol.clone(), fetched: f.symbol.clone() });
    }
    if !crate::strutil::str_eq(t.name.as_str(), f.name.as_str()) {
        r.push(Mismatch::Name { declared: t.name.clone(), fetched: f.name.clone() });
    }
    if t.decimals != f.decimals {
        r.push(Mismatch::Decimals { declared: t.decimals, fetched: f.decimals });
    }
    proof {
        assert(views_of(r@) =~= spec_mismatches(*t, *f));
    }
    r
}

/// When the fetched metadata equals the declared record on all three
/// fields, the comparator reports nothing.
pub proof fn lemma_equal_metadata_no_mismatch(t: Token, f: ChainMetadata)
    requires
        t.symbol@ == f.symbol@,
        t.name@ == f.name@,
        t.decimals == f.decimals,
    ensures
        spec_mismatches(t, f).len() == 0,
{
}

/// The comparator yields exactly one descriptor per differing field: its
/// output length is the number of fields, out of symbol, name and
/// decimals, on which the two sides disagree.
pub proof fn lemma_mismatch_count(t: Token, f: ChainMetadata)
    ensures
        spec_mismatches(t, f).len() == (if t.symbol@ != f.symbol@ {
            1int
        } else {
            0int
        }) + (if t.name@ != f.name@ {
            1int
        } else {
            0int
        }) + (if t.decimals != f.decimals {
            1int
        } else {
            0int
        }),
{
}

} // verus!
