//! What holds of every scan.

use crate::scan::{is_pair, ScanModel};
use crate::site::{SiteModel, Strand};
use crate::stream::{cpg_count, merged_records, pair_ends};
use vstd::prelude::*;

verus! {

/// The emitted records are the pairs of the stream, one for one and in stream
/// order: the `k`-th emitted record is the forward half of the `k`-th pair
/// with the evidence of both halves, the pairs are listed by the index of
/// their second half in strictly rising order, and a record's index is listed
/// exactly when the record forms a pair with the one right before it.
pub proof fn lemma_merged_records_are_the_pairs(sites: Seq<SiteModel>)
    ensures
        pair_ends(sites).len() == merged_records(sites).len(),
        forall|k: int|
            0 <= k < pair_ends(sites).len() ==> {
                let i = #[trigger] pair_ends(sites)[k];
                &&& 1 <= i < sites.len()
                &&& is_pair(sites[i - 1], sites[i])
                &&& merged_records(sites)[k] == sites[i - 1].combined(sites[i])
            },
        forall|j: int, k: int|
            0 <= j < k < pair_ends(sites).len() ==> pair_ends(sites)[j] < pair_ends(sites)[k],
        forall|i: int|
            pair_ends(sites).contains(i) <==> 1 <= i < sites.len() && is_pair(
                sites[i - 1],
                sites[i],
            ),
    decreases sites.len(),
{
    if sites.len() >= 2 {
        let shorter = sites.drop_last();
        let last = sites.len() - 1;
        lemma_merged_records_are_the_pairs(shorter);
        assert forall|i: int|
            pair_ends(sites).contains(i) <==> 1 <= i < sites.len() && is_pair(
                sites[i - 1],
                sites[i],
            ) by {
            if 1 <= i < last {
                assert(shorter[i - 1] == sites[i - 1] && shorter[i] == sites[i]);
            }
            if pair_ends(shorter).contains(i) {
                let k = choose|k: int|
                    0 <= k < pair_ends(shorter).len() && pair_ends(shorter)[k] == i;
                assert(pair_ends(sites)[k] == i);
            }
            if is_pair(sites[last - 1], sites[last]) {
                assert(pair_ends(sites)[pair_ends(shorter).len() as int] == last);
            }
        }
    }
}

/// The first record of a stream is never answered with a record: nothing is
/// retained yet that it could complete.
pub proof fn lemma_first_record_emits_nothing(first: SiteModel)
    ensures
        ScanModel::initial().emitted(first) is None,
        merged_records(seq![first]) == Seq::<SiteModel>::empty(),
{
}

/// A scan emits at most half as many records as the stream has CpG records.
pub proof fn lemma_merged_at_most_half_the_cpgs(sites: Seq<SiteModel>)
    ensures
        merged_records(sites).len() <= cpg_count(sites) / 2,
{
    lemma_pairs_use_two_cpgs_each(sites);
}

/// Each emitted record uses up two CpG records of its own, and a forward CpG
/// at the end of the stream, which may yet be paired, is used by none.
proof fn lemma_pairs_use_two_cpgs_each(sites: Seq<SiteModel>)
    ensures
        2 * merged_records(sites).len() + (if sites.len() > 0 && sites.last().is_cpg
            && sites.last().strand == Strand::Forward {
            1int
        } else {
            0int
        }) <= cpg_count(sites),
    decreases sites.len(),
{
    broadcast use Seq::lemma_filter_push;

    if sites.len() > 0 {
        let shorter = sites.drop_last();
        lemma_pairs_use_two_cpgs_each(shorter);
        assert(shorter.push(sites.last()) =~= sites);
        assert(cpg_count(sites) == cpg_count(shorter) + (if sites.last().is_cpg {
            1int
        } else {
            0int
        }));
    }
}

/// A forward-strand CpG followed at once by a reverse-strand CpG one position
/// further on adds exactly one record to what is emitted: a record at the
/// forward site's position whose tallies are the sums of the two sites'.
pub proof fn lemma_pair_is_merged(before: Seq<SiteModel>, forward: SiteModel, reverse: SiteModel)
    requires
        forward.is_cpg,
        forward.strand == Strand::Forward,
        reverse.is_cpg,
        reverse.strand == Strand::Reverse,
        reverse.position == forward.position + 1,
    ensures
        merged_records(before.push(forward).push(reverse)) == merged_records(before).push(
            forward.combined(reverse),
        ),
        forward.combined(reverse).position == forward.position,
        forward.combined(reverse).counts.methylated == forward.counts.methylated
            + reverse.counts.methylated,
        forward.combined(reverse).counts.unmethylated == forward.counts.unmethylated
            + reverse.counts.unmethylated,
{
    lemma_forward_completes_nothing(before, forward);
    assert(before.push(forward).push(reverse).drop_last() =~= before.push(forward));
}

/// A forward-strand record never completes a pair.
proof fn lemma_forward_completes_nothing(before: Seq<SiteModel>, forward: SiteModel)
    requires
        forward.strand == Strand::Forward,
    ensures
        merged_records(before.push(forward)) == merged_records(before),
{
    assert(before.push(forward).drop_last() =~= before);
    if before.len() == 0 {
        assert(merged_records(before) =~= Seq::empty());
    }
}

/// A forward-strand CpG that is followed by anything but a reverse-strand
/// CpG one position further on is dropped: neither it nor its successor adds
/// a record to what is emitted.
pub proof fn lemma_unpaired_forward_is_dropped(
    before: Seq<SiteModel>,
    forward: SiteModel,
    successor: SiteModel,
)
    requires
        forward.is_cpg,
        forward.strand == Strand::Forward,
        !(successor.is_cpg && successor.strand == Strand::Reverse && successor.position
            == forward.position + 1),
    ensures
        merged_records(before.push(forward)) == merged_records(before),
        merged_records(before.push(forward).push(successor)) == merged_records(before),
{
    lemma_forward_completes_nothing(before, forward);
    assert(before.push(forward).push(successor).drop_last() =~= before.push(forward));
}

/// No chaining: of three CpGs in a row, forward, reverse, forward, each one
/// position after the other, only the first two are merged. The third is
/// retained as it came in and is merged with a reverse-strand CpG that
/// follows it at once.
pub proof fn lemma_third_site_starts_afresh(
    before: Seq<SiteModel>,
    first: SiteModel,
    second: SiteModel,
    third: SiteModel,
    fourth: SiteModel,
)
    requires
        first.is_cpg && second.is_cpg && third.is_cpg && fourth.is_cpg,
        first.strand == Strand::Forward,
        second.strand == Strand::Reverse,
        third.strand == Strand::Forward,
        fourth.strand == Strand::Reverse,
        second.position == first.position + 1,
        third.position == first.position + 2,
        fourth.position == first.position + 3,
    ensures
        merged_records(before.push(first).push(second).push(third)) == merged_records(
            before,
        ).push(first.combined(second)),
        merged_records(before.push(first).push(second).push(third).push(fourth))
            == merged_records(before).push(first.combined(second)).push(third.combined(fourth)),
{
    lemma_pair_is_merged(before, first, second);
    lemma_forward_completes_nothing(before.push(first).push(second), third);
    lemma_pair_is_merged(before.push(first).push(second), third, fourth);
}

/// A scan of what a scan has emitted emits nothing: every emitted record is
/// on the forward strand, and no pair ends on a forward-strand record.
pub proof fn lemma_rescan_emits_nothing(sites: Seq<SiteModel>)
    ensures
        forall|k: int|
            0 <= k < merged_records(sites).len() ==> (#[trigger] merged_records(sites)[k]).strand
                == Strand::Forward,
        merged_records(merged_records(sites)) == Seq::<SiteModel>::empty(),
{
    lemma_merged_records_are_the_pairs(sites);
    assert forall|k: int| 0 <= k < merged_records(sites).len() implies (#[trigger] merged_records(
        sites,
    )[k]).strand == Strand::Forward by {
        let i = pair_ends(sites)[k];
    }
    lemma_all_forward_emits_nothing(merged_records(sites));
}

/// A stream without a reverse-strand record has no pair.
proof fn lemma_all_forward_emits_nothing(sites: Seq<SiteModel>)
    requires
        forall|k: int| 0 <= k < sites.len() ==> (#[trigger] sites[k]).strand == Strand::Forward,
    ensures
        merged_records(sites) == Seq::<SiteModel>::empty(),
    decreases sites.len(),
{
    if sites.len() >= 2 {
        let shorter = sites.drop_last();
        assert forall|k: int| 0 <= k < shorter.len() implies (#[trigger] shorter[k]).strand
            == Strand::Forward by {
            assert(shorter[k] == sites[k]);
        }
        lemma_all_forward_emits_nothing(shorter);
        assert(sites[sites.len() - 1].strand == Strand::Forward);
    }
}

} // verus!
