//! A whole stream of records: what the scan of it emits.

use crate::scan::{is_pair, ScanModel, ScanState};
use crate::site::{Site, SiteModel};
use vstd::prelude::*;

verus! {

/// The views of the records of a stream, in order.
pub open spec fn site_models(sites: Seq<Site>) -> Seq<SiteModel> {
    sites.map_values(|site: Site| site@)
}

/// The records that a scan of `sites` emits, in the order in which it emits
/// them: for each record that forms a pair with the one right before it, that
/// earlier record with the evidence of both.
pub open spec fn merged_records(sites: Seq<SiteModel>) -> Seq<SiteModel>
    decreases sites.len(),
{
    if sites.len() < 2 {
        Seq::empty()
    } else {
        let before = merged_records(sites.drop_last());
        let first = sites[sites.len() - 2];
        let second = sites[sites.len() - 1];
        if is_pair(first, second) {
            before.push(first.combined(second))
        } else {
            before
        }
    }
}

/// The indices, in rising order, of the records that complete a pair.
pub open spec fn pair_ends(sites: Seq<SiteModel>) -> Seq<int>
    decreases sites.len(),
{
    if sites.len() < 2 {
        Seq::empty()
    } else {
        let before = pair_ends(sites.drop_last());
        if is_pair(sites[sites.len() - 2], sites[sites.len() - 1]) {
            before.push(sites.len() - 1)
        } else {
            before
        }
    }
}

/// How many records of a stream are CpGs.
pub open spec fn cpg_count(sites: Seq<SiteModel>) -> nat {
    sites.filter(|site: SiteModel| site.is_cpg).len()
}

/// What the scanner remembers once it has taken in all of `sites`.
pub open spec fn state_after(sites: Seq<SiteModel>) -> ScanModel {
    if sites.len() == 0 {
        ScanModel::initial()
    } else {
        ScanModel { prior: Some(sites.last()), prior_is_cpg: sites.last().is_cpg }
    }
}

/// Every record that a scan of `sites` emits can be held in a `Site`.
pub open spec fn stream_fits(sites: Seq<SiteModel>) -> bool {
    forall|k: int|
        0 <= k < merged_records(sites).len() ==> (#[trigger] merged_records(
            sites,
        )[k]).representable()
}

/// The scanner, fed one record after another, computes `merged_records`:
/// after any stream its state is well formed, a further record `cur` moves it
/// to the state after the longer stream, and what it emits on `cur` is
/// exactly what the longer stream adds to the output.
pub proof fn lemma_scan_extends(sites: Seq<SiteModel>, cur: SiteModel)
    ensures
        state_after(sites).wf(),
        state_after(sites.push(cur)) == state_after(sites).next(cur),
        merged_records(sites.push(cur)) == match state_after(sites).emitted(cur) {
            Some(record) => merged_records(sites).push(record),
            None => merged_records(sites),
        },
{
    let longer = sites.push(cur);
    assert(longer.drop_last() =~= sites);
    if sites.len() == 0 {
        assert(merged_records(sites) =~= Seq::empty());
    }
}

/// What a scan has emitted by the time it has taken in the first `n` records
/// is a prefix of what it emits in the end.
pub proof fn lemma_merged_prefix(sites: Seq<SiteModel>, n: int)
    requires
        0 <= n <= sites.len(),
    ensures
        merged_records(sites.take(n)).is_prefix_of(merged_records(sites)),
    decreases sites.len() - n,
{
    if n == sites.len() {
        assert(sites.take(n) =~= sites);
    } else {
        lemma_merged_prefix(sites.drop_last(), n);
        assert(sites.drop_last().take(n) =~= sites.take(n));
    }
}

/// Scans a whole stream and collects what is emitted.
///
/// The result is `None` exactly when some pair's combined tallies do not fit
/// in a `Site`.
pub fn merge_symmetric(sites: &Vec<Site>) -> (merged: Option<Vec<Site>>)
    ensures
        match merged {
            Some(records) => stream_fits(site_models(sites@)) && site_models(records@)
                == merged_records(site_models(sites@)),
            None => !stream_fits(site_models(sites@)),
        },
{
    let ghost all = site_models(sites@);
    let mut state = ScanState::new();
    let mut records: Vec<Site> = Vec::new();
    let mut i: usize = 0;
    assert(all.take(0) =~= Seq::empty());
    assert(site_models(records@) =~= Seq::empty());
    while i < sites.len()
        invariant
            i <= sites.len(),
            all == site_models(sites@),
            state@ == state_after(all.take(i as int)),
            site_models(records@) == merged_records(all.take(i as int)),
            stream_fits(all.take(i as int)),
        decreases sites.len() - i,
    {
        let cur = sites[i];
        proof {
            lemma_scan_extends(all.take(i as int), cur@);
            assert(all.take(i + 1) =~= all.take(i as int).push(cur@));
            lemma_merged_prefix(all, i + 1);
        }
        if !state.accepts(&cur) {
            proof {
                let k = merged_records(all.take(i as int)).len() as int;
                assert(!merged_records(all.take(i + 1))[k].representable());
                assert(merged_records(all)[k] == merged_records(all.take(i + 1))[k]);
            }
            return None;
        }
        let ghost before = records@;
        let emitted = state.step(cur);
        if let Some(record) = emitted {
            records.push(record);
            assert(site_models(records@) =~= site_models(before).push(record@));
        }
        i += 1;
    }
    assert(all.take(i as int) =~= all);
    Some(records)
}

} // verus!
