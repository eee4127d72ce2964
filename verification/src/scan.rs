//! The scanner: what is remembered between two records, and what one record
//! does to it.

use crate::site::{Site, SiteModel, Strand};
use vstd::prelude::*;

verus! {

/// Strand order and adjacency of a symmetric pair: `prev` on the forward
/// strand, `curr` on the reverse strand, exactly one position further on.
/// Says nothing of whether either is a CpG.
pub open spec fn symmetric(prev: SiteModel, curr: SiteModel) -> bool {
    &&& prev.strand == Strand::Forward
    &&& curr.strand == Strand::Reverse
    &&& prev.position + 1 == curr.position
}

/// `first` and `second`, in this order, are the two halves of one symmetric
/// CpG.
pub open spec fn is_pair(first: SiteModel, second: SiteModel) -> bool {
    first.is_cpg && second.is_cpg && symmetric(first, second)
}

/// Tests strand order and adjacency of two records that are already known to
/// be CpGs.
pub fn found_symmetric(prev_cpg: &Site, curr_cpg: &Site) -> (found: bool)
    ensures
        found == symmetric(prev_cpg@, curr_cpg@),
{
    prev_cpg.strand == Strand::Forward && curr_cpg.strand == Strand::Reverse && prev_cpg.position
        < u64::MAX && prev_cpg.position + 1 == curr_cpg.position
}

/// The view of an optional record.
pub open spec fn site_option_model(site: Option<Site>) -> Option<SiteModel> {
    match site {
        Some(s) => Some(s@),
        None => None,
    }
}

/// What the scanner remembers: the record seen last, if any, and whether it
/// was a CpG.
pub struct ScanModel {
    pub prior: Option<SiteModel>,
    pub prior_is_cpg: bool,
}

impl ScanModel {
    /// Before the first record: nothing retained.
    pub open spec fn initial() -> ScanModel {
        ScanModel { prior: None, prior_is_cpg: false }
    }

    /// The flag says of the retained record what the record says of itself,
    /// and is down while nothing is retained.
    pub open spec fn wf(self) -> bool {
        self.prior_is_cpg == (self.prior is Some && self.prior.unwrap().is_cpg)
    }

    /// The record that `cur` makes the scanner emit, if any: the retained
    /// record with the evidence of `cur` folded in, when the two form a pair.
    pub open spec fn emitted(self, cur: SiteModel) -> Option<SiteModel> {
        if cur.is_cpg && self.prior_is_cpg && self.prior is Some && symmetric(
            self.prior.unwrap(),
            cur,
        ) {
            Some(self.prior.unwrap().combined(cur))
        } else {
            None
        }
    }

    /// The state after `cur`: `cur` itself is retained, as it came in,
    /// whether or not it completed a pair.
    pub open spec fn next(self, cur: SiteModel) -> ScanModel {
        ScanModel { prior: Some(cur), prior_is_cpg: cur.is_cpg }
    }

    /// The record that `cur` would make the scanner emit, if any, can be held
    /// in a `Site`.
    pub open spec fn accepts(self, cur: SiteModel) -> bool {
        self.emitted(cur) is Some ==> self.emitted(cur).unwrap().representable()
    }
}

/// The scanner's memory between two records.
#[derive(Clone, Copy, Debug)]
pub struct ScanState {
    prior: Option<Site>,
    prior_is_cpg: bool,
}

impl View for ScanState {
    type V = ScanModel;

    closed spec fn view(&self) -> ScanModel {
        ScanModel { prior: site_option_model(self.prior), prior_is_cpg: self.prior_is_cpg }
    }
}

impl ScanState {
    #[verifier::type_invariant]
    spec fn inv(self) -> bool {
        self@.wf()
    }

    /// The state before the first record.
    pub fn new() -> (state: ScanState)
        ensures
            state@ == ScanModel::initial(),
    {
        ScanState { prior: None, prior_is_cpg: false }
    }

    /// The retained record, absent before the first one has been taken in.
    pub fn prior(&self) -> (prior: Option<Site>)
        ensures
            site_option_model(prior) == self@.prior,
            self@.wf(),
    {
        proof {
            use_type_invariant(self);
        }
        self.prior
    }

    /// Whether the retained record is a CpG.
    pub fn prior_is_cpg(&self) -> (flag: bool)
        ensures
            flag == self@.prior_is_cpg,
            self@.wf(),
    {
        proof {
            use_type_invariant(self);
        }
        self.prior_is_cpg
    }

    /// Whether `step` may be called with `cur`: either `cur` completes no
    /// pair, or the combined tallies fit.
    pub fn accepts(&self, cur: &Site) -> (ok: bool)
        ensures
            ok == self@.accepts(cur@),
    {
        if cur.is_cpg && self.prior_is_cpg {
            match self.prior {
                Some(prev) => !found_symmetric(&prev, cur) || prev.fits_with(cur),
                None => true,
            }
        } else {
            true
        }
    }

    /// Takes in one record. If it is a CpG, the retained record is a CpG too,
    /// and the two are symmetric, the retained record with the evidence of
    /// `cur` folded in is handed out. Either way `cur`, as it came in,
    /// becomes the retained record.
    pub fn step(&mut self, cur: Site) -> (emitted: Option<Site>)
        requires
            old(self)@.accepts(cur@),
        ensures
            final(self)@ == old(self)@.next(cur@),
            final(self)@.wf(),
            site_option_model(emitted) == old(self)@.emitted(cur@),
    {
        let mut emitted: Option<Site> = None;
        let prior_is_cpg: bool;
        if cur.is_cpg {
            if self.prior_is_cpg {
                if let Some(prev) = self.prior {
                    if found_symmetric(&prev, &cur) {
                        let mut merged = prev;
                        merged.combine(&cur);
                        emitted = Some(merged);
                    }
                }
            }
            prior_is_cpg = true;
        } else {
            prior_is_cpg = false;
        }
        *self = ScanState { prior: Some(cur), prior_is_cpg };
        emitted
    }
}

} // verus!
