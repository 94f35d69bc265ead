//! Folding usage rows into per-source totals, ordered by how often a source
//! was shown.

use crate::stats::{SourceUsage, SourceUsageModel};
use crate::text::str_eq;
use vstd::math::abs;
use vstd::prelude::*;

verus! {

/// Name of the highest editorial tier.
pub const TIER_MUST_KNOW: &'static str = "must_know";

/// Name of the second editorial tier.
pub const TIER_SHOULD_KNOW: &'static str = "should_know";

/// The bucket a tier name is counted in. Every name besides the two known
/// ones falls into `Other`.
#[derive(Clone, Copy, Debug, PartialEq, Eq, Structural)]
pub enum Tier {
    MustKnow,
    ShouldKnow,
    Other,
}

/// The bucket of a tier name.
pub open spec fn tier_of(name: Seq<char>) -> Tier {
    if name == TIER_MUST_KNOW@ {
        Tier::MustKnow
    } else if name == TIER_SHOULD_KNOW@ {
        Tier::ShouldKnow
    } else {
        Tier::Other
    }
}

/// The bucket of a tier name.
pub fn classify_tier(name: &str) -> (tier: Tier)
    ensures
        tier == tier_of(name@),
{
    if str_eq(name, TIER_MUST_KNOW) {
        Tier::MustKnow
    } else if str_eq(name, TIER_SHOULD_KNOW) {
        Tier::ShouldKnow
    } else {
        Tier::Other
    }
}

/// What one row adds to the bucket `tier` of `source`.
pub open spec fn contribution(row: SourceUsageModel, source: Seq<char>, tier: Tier) -> int {
    if row.source_id == source && tier_of(row.tier) == tier {
        row.count
    } else {
        0
    }
}

/// The sum of the counts of all rows of `source` that fall into `tier`.
pub open spec fn bucket_total(rows: Seq<SourceUsageModel>, source: Seq<char>, tier: Tier) -> int
    decreases rows.len(),
{
    if rows.len() == 0 {
        0
    } else {
        bucket_total(rows.drop_last(), source, tier) + contribution(rows.last(), source, tier)
    }
}

/// Whether some row is about `source`.
pub open spec fn mentions(rows: Seq<SourceUsageModel>, source: Seq<char>) -> bool {
    exists|i: int| 0 <= i < rows.len() && (#[trigger] rows[i]).source_id == source
}

/// The usage of one source, split into the three buckets.
#[derive(Clone, Debug)]
pub struct UsageTotals {
    pub source_id: String,
    pub must_know: i128,
    pub should_know: i128,
    pub other: i128,
}

/// What a `UsageTotals` stands for.
pub struct UsageTotalsModel {
    pub source_id: Seq<char>,
    pub must_know: int,
    pub should_know: int,
    pub other: int,
}

impl UsageTotalsModel {
    /// All three buckets together.
    pub open spec fn total(self) -> int {
        self.must_know + self.should_know + self.other
    }

    /// The buckets are small enough for their sum to be computed.
    pub open spec fn wf(self) -> bool {
        abs(self.must_know) + abs(self.should_know) + abs(self.other) <= i128::MAX
    }
}

impl View for UsageTotals {
    type V = UsageTotalsModel;

    open spec fn view(&self) -> UsageTotalsModel {
        UsageTotalsModel {
            source_id: self.source_id@,
            must_know: self.must_know as int,
            should_know: self.should_know as int,
            other: self.other as int,
        }
    }
}

impl UsageTotals {
    /// All three buckets together.
    pub fn total(&self) -> (t: i128)
        requires
            self@.wf(),
        ensures
            t == self@.total(),
    {
        self.must_know + self.should_know + self.other
    }
}

/// The models of a sequence of usage rows.
pub open spec fn usage_models(rows: Seq<SourceUsage>) -> Seq<SourceUsageModel> {
    rows.map_values(|u: SourceUsage| u@)
}

/// The models of a sequence of totals.
pub open spec fn totals_models(out: Seq<UsageTotals>) -> Seq<UsageTotalsModel> {
    out.map_values(|e: UsageTotals| e@)
}

/// Whether some entry is about `source`.
pub open spec fn lists(out: Seq<UsageTotalsModel>, source: Seq<char>) -> bool {
    exists|k: int| 0 <= k < out.len() && (#[trigger] out[k]).source_id == source
}

/// The entry is about a source that the rows mention, and each of its buckets
/// holds the sum of that source's rows for the bucket.
pub open spec fn tallies(rows: Seq<SourceUsageModel>, e: UsageTotalsModel) -> bool {
    &&& mentions(rows, e.source_id)
    &&& e.must_know == bucket_total(rows, e.source_id, Tier::MustKnow)
    &&& e.should_know == bucket_total(rows, e.source_id, Tier::ShouldKnow)
    &&& e.other == bucket_total(rows, e.source_id, Tier::Other)
}

/// `out` holds exactly one entry for each source that `rows` mention, with
/// the sums of that source's rows.
pub open spec fn is_tally(rows: Seq<SourceUsageModel>, out: Seq<UsageTotalsModel>) -> bool {
    &&& forall|k: int| 0 <= k < out.len() ==> tallies(rows, #[trigger] out[k])
    &&& forall|i: int, j: int|
        0 <= i < j < out.len() ==> (#[trigger] out[i]).source_id != (#[trigger] out[j]).source_id
    &&& forall|i: int| 0 <= i < rows.len() ==> lists(out, (#[trigger] rows[i]).source_id)
}

/// No entry has a larger combined total than one before it.
pub open spec fn descending(out: Seq<UsageTotalsModel>) -> bool {
    forall|i: int, j: int|
        0 <= i < j < out.len() ==> (#[trigger] out[i]).total() >= (#[trigger] out[j]).total()
}

/// Every entry satisfies `wf`.
pub open spec fn all_wf(out: Seq<UsageTotalsModel>) -> bool {
    forall|k: int| 0 <= k < out.len() ==> (#[trigger] out[k]).wf()
}

/// The place of `source` among the entries, if it has one.
fn position_of(acc: &Vec<UsageTotals>, source: &str) -> (at: Option<usize>)
    ensures
        match at {
            Some(p) => p < acc.len() && acc[p as int].source_id@ == source@,
            None => forall|k: int| 0 <= k < acc.len() ==> acc[k].source_id@ != source@,
        },
{
    let mut k: usize = 0;
    while k < acc.len()
        invariant
            k <= acc.len(),
            forall|j: int| 0 <= j < k ==> acc[j].source_id@ != source@,
        decreases acc.len() - k,
    {
        if str_eq(acc[k].source_id.as_str(), source) {
            return Some(k);
        }
        k += 1;
    }
    None
}

/// Adding a row changes the bucket it contributes to, and no other.
proof fn lemma_bucket_total_step(rows: Seq<SourceUsageModel>, i: int, source: Seq<char>, tier: Tier)
    requires
        0 <= i < rows.len(),
    ensures
        bucket_total(rows.take(i + 1), source, tier) == bucket_total(rows.take(i), source, tier)
            + contribution(rows[i], source, tier),
{
    assert(rows.take(i + 1).drop_last() =~= rows.take(i));
}

/// One entry for each source of `rows`, in the order in which the sources
/// first appear.
fn tally(rows: &Vec<SourceUsage>) -> (acc: Vec<UsageTotals>)
    ensures
        is_tally(usage_models(rows@), totals_models(acc@)),
        all_wf(totals_models(acc@)),
{
    let ghost all = usage_models(rows@);
    let mut acc: Vec<UsageTotals> = Vec::new();
    let mut i: usize = 0;
    while i < rows.len()
        invariant
            i <= rows.len(),
            all == usage_models(rows@),
            is_tally(all.take(i as int), totals_models(acc@)),
            forall|k: int|
                0 <= k < acc.len() ==> abs((#[trigger] acc[k]).must_know as int) + abs(
                    acc[k].should_know as int,
                ) + abs(acc[k].other as int) <= i * 0x8000_0000_0000_0000,
        decreases rows.len() - i,
    {
        let row = &rows[i];
        let ghost before = totals_models(acc@);
        let ghost seen = all.take(i as int);
        let ghost now = all.take(i + 1);
        let ghost id = row.source_id@;
        assert forall|r: int| 0 <= r < i implies seen[r] == #[trigger] now[r] by {}
        let found = position_of(&acc, row.source_id.as_str());
        let p = match found {
            Some(p) => p,
            None => {
                acc.push(
                    UsageTotals {
                        source_id: row.source_id.clone(),
                        must_know: 0,
                        should_know: 0,
                        other: 0,
                    },
                );
                acc.len() - 1
            },
        };
        let ghost mid = totals_models(acc@);
        assert(mid[p as int].source_id == id);
        let tier = classify_tier(row.tier.as_str());
        let count = row.count as i128;
        assert(i * 0x8000_0000_0000_0000 + 0x8000_0000_0000_0000 <= i128::MAX);
        match tier {
            Tier::MustKnow => {
                acc[p].must_know = acc[p].must_know + count;
            },
            Tier::ShouldKnow => {
                acc[p].should_know = acc[p].should_know + count;
            },
            Tier::Other => {
                acc[p].other = acc[p].other + count;
            },
        }
        let ghost after = totals_models(acc@);
        proof {
            assert forall|k: int| 0 <= k < after.len() implies tallies(now, #[trigger] after[k]) by {
                let e = after[k];
                lemma_bucket_total_step(all, i as int, e.source_id, Tier::MustKnow);
                lemma_bucket_total_step(all, i as int, e.source_id, Tier::ShouldKnow);
                lemma_bucket_total_step(all, i as int, e.source_id, Tier::Other);
                if k == p {
                    assert(now[i as int].source_id == e.source_id);
                    if k < before.len() {
                        assert(tallies(seen, before[k]));
                    } else {
                        lemma_unmentioned_is_zero(seen, id, Tier::MustKnow);
                        lemma_unmentioned_is_zero(seen, id, Tier::ShouldKnow);
                        lemma_unmentioned_is_zero(seen, id, Tier::Other);
                    }
                } else {
                    assert(after[k] == mid[k]);
                    assert(tallies(seen, before[k]));
                    let w = choose|r: int| 0 <= r < seen.len() && seen[r].source_id == e.source_id;
                    assert(now[w].source_id == e.source_id);
                }
            }
            assert forall|a: int, b: int| 0 <= a < b < after.len() implies (#[trigger] after[a]).source_id
                != (#[trigger] after[b]).source_id by {
                assert(after[a].source_id == mid[a].source_id);
                assert(after[b].source_id == mid[b].source_id);
                if b < before.len() {
                    assert(before[a].source_id != before[b].source_id);
                }
            }
            assert forall|r: int| 0 <= r < now.len() implies lists(after, (#[trigger] now[r]).source_id) by {
                if r < i {
                    assert(lists(before, seen[r].source_id));
                    let w = choose|k: int|
                        0 <= k < before.len() && before[k].source_id == seen[r].source_id;
                    assert(after[w].source_id == now[r].source_id);
                } else {
                    assert(after[p as int].source_id == now[r].source_id);
                }
            }
        }
        i += 1;
    }
    assert(all.take(i as int) =~= all);
    acc
}

/// A source that no row mentions has an empty bucket.
proof fn lemma_unmentioned_is_zero(rows: Seq<SourceUsageModel>, source: Seq<char>, tier: Tier)
    requires
        forall|r: int| 0 <= r < rows.len() ==> (#[trigger] rows[r]).source_id != source,
    ensures
        bucket_total(rows, source, tier) == 0,
    decreases rows.len(),
{
    if rows.len() > 0 {
        assert forall|r: int| 0 <= r < rows.drop_last().len() implies (#[trigger] rows.drop_last()[r]).source_id
            != source by {
            assert(rows.drop_last()[r] == rows[r]);
        }
        lemma_unmentioned_is_zero(rows.drop_last(), source, tier);
        assert(rows.last() == rows[rows.len() - 1]);
    }
}

/// The place of an entry whose combined total no other entry exceeds.
fn position_of_largest(acc: &Vec<UsageTotals>) -> (at: usize)
    requires
        acc.len() > 0,
        all_wf(totals_models(acc@)),
    ensures
        at < acc.len(),
        forall|k: int|
            0 <= k < acc.len() ==> totals_models(acc@)[at as int].total() >= (
            #[trigger] totals_models(acc@)[k]).total(),
{
    let ghost m = totals_models(acc@);
    let mut at: usize = 0;
    assert(m[0].wf());
    let mut best = acc[0].total();
    let mut k: usize = 1;
    while k < acc.len()
        invariant
            1 <= k <= acc.len(),
            at < k,
            m == totals_models(acc@),
            all_wf(m),
            best == m[at as int].total(),
            forall|j: int| 0 <= j < k ==> best >= (#[trigger] m[j]).total(),
        decreases acc.len() - k,
    {
        assert(m[k as int].wf());
        let t = acc[k].total();
        if t > best {
            best = t;
            at = k;
        }
        k += 1;
    }
    at
}

/// The same entries, the most shown source first.
fn order_by_total(acc: Vec<UsageTotals>, Ghost(rows): Ghost<Seq<SourceUsageModel>>) -> (out: Vec<
    UsageTotals,
>)
    requires
        is_tally(rows, totals_models(acc@)),
        all_wf(totals_models(acc@)),
    ensures
        is_tally(rows, totals_models(out@)),
        all_wf(totals_models(out@)),
        descending(totals_models(out@)),
        out.len() == acc.len(),
{
    let mut rest = acc;
    let mut out: Vec<UsageTotals> = Vec::new();
    let ghost n = rest.len();
    while rest.len() > 0
        invariant
            out.len() + rest.len() == n,
            all_wf(totals_models(rest@)),
            all_wf(totals_models(out@)),
            descending(totals_models(out@)),
            forall|a: int, b: int|
                0 <= a < out.len() && 0 <= b < rest.len() ==> (#[trigger] totals_models(
                    out@,
                )[a]).total() >= (#[trigger] totals_models(rest@)[b]).total(),
            forall|k: int| 0 <= k < out.len() ==> tallies(rows, #[trigger] totals_models(out@)[k]),
            forall|k: int|
                0 <= k < rest.len() ==> tallies(rows, #[trigger] totals_models(rest@)[k]),
            forall|a: int, b: int|
                0 <= a < b < out.len() ==> (#[trigger] totals_models(out@)[a]).source_id != (
                #[trigger] totals_models(out@)[b]).source_id,
            forall|a: int, b: int|
                0 <= a < b < rest.len() ==> (#[trigger] totals_models(rest@)[a]).source_id != (
                #[trigger] totals_models(rest@)[b]).source_id,
            forall|a: int, b: int|
                0 <= a < out.len() && 0 <= b < rest.len() ==> (#[trigger] totals_models(
                    out@,
                )[a]).source_id != (#[trigger] totals_models(rest@)[b]).source_id,
            forall|i: int|
                0 <= i < rows.len() ==> lists(totals_models(out@), (#[trigger] rows[i]).source_id)
                    || lists(totals_models(rest@), rows[i].source_id),
        decreases rest.len(),
    {
        let ghost out0 = totals_models(out@);
        let ghost rest0 = totals_models(rest@);
        let at = position_of_largest(&rest);
        let e = rest.remove(at);
        out.push(e);
        let ghost out1 = totals_models(out@);
        let ghost rest1 = totals_models(rest@);
        proof {
            assert(out1.len() == out0.len() + 1);
            assert(out1[out0.len() as int] == rest0[at as int]);
            assert forall|k: int| 0 <= k < out0.len() implies out0[k] == #[trigger] out1[k] by {}
            assert forall|k: int| 0 <= k < rest1.len() implies #[trigger] rest1[k] == rest0[if k
                < at {
                k
            } else {
                k + 1
            }] by {}
            assert forall|i: int| 0 <= i < rows.len() implies lists(
                out1,
                (#[trigger] rows[i]).source_id,
            ) || lists(rest1, rows[i].source_id) by {
                let id = rows[i].source_id;
                if lists(out0, id) {
                    let w = choose|k: int| 0 <= k < out0.len() && out0[k].source_id == id;
                    assert(out1[w].source_id == id);
                } else {
                    let w = choose|k: int| 0 <= k < rest0.len() && rest0[k].source_id == id;
                    if w == at {
                        assert(out1[out0.len() as int].source_id == id);
                    } else if w < at {
                        assert(rest1[w].source_id == id);
                    } else {
                        assert(rest1[w - 1].source_id == id);
                    }
                }
            }
        }
    }
    proof {
        let m = totals_models(out@);
        assert forall|i: int| 0 <= i < rows.len() implies lists(m, (#[trigger] rows[i]).source_id) by {
            if lists(totals_models(rest@), rows[i].source_id) {
                let w = choose|k: int|
                    0 <= k < totals_models(rest@).len() && totals_models(rest@)[k].source_id
                        == rows[i].source_id;
            }
        }
    }
    out
}

/// Per-source usage: one entry for each source that the rows mention, its
/// buckets holding the sums of that source's rows, the entries ordered by
/// combined total, largest first. Sources with equal totals come in no
/// particular order.
pub fn aggregate_usage(rows: &Vec<SourceUsage>) -> (out: Vec<UsageTotals>)
    ensures
        is_tally(usage_models(rows@), totals_models(out@)),
        descending(totals_models(out@)),
        all_wf(totals_models(out@)),
{
    let acc = tally(rows);
    order_by_total(acc, Ghost(usage_models(rows@)))
}

/// The rows determine their summary but for the order of its entries: two
/// summaries of the same rows hold the same entries, each once.
pub proof fn lemma_tally_determined(
    rows: Seq<SourceUsageModel>,
    a: Seq<UsageTotalsModel>,
    b: Seq<UsageTotalsModel>,
)
    requires
        is_tally(rows, a),
        is_tally(rows, b),
    ensures
        a.no_duplicates(),
        b.no_duplicates(),
        a.to_set() == b.to_set(),
        a.len() == b.len(),
{
    lemma_tally_covers(rows, a, b);
    lemma_tally_covers(rows, b, a);
    assert(a.to_set() =~= b.to_set());
    a.unique_seq_to_set();
    b.unique_seq_to_set();
}

/// Every entry of one summary stands in any other summary of the same rows.
proof fn lemma_tally_covers(
    rows: Seq<SourceUsageModel>,
    a: Seq<UsageTotalsModel>,
    b: Seq<UsageTotalsModel>,
)
    requires
        is_tally(rows, a),
        is_tally(rows, b),
    ensures
        a.no_duplicates(),
        forall|e: UsageTotalsModel| a.contains(e) ==> b.contains(e),
{
    assert forall|i: int, j: int| 0 <= i < a.len() && 0 <= j < a.len() && i != j implies a[i]
        != a[j] by {
        if i < j {
            assert(a[i].source_id != a[j].source_id);
        } else {
            assert(a[j].source_id != a[i].source_id);
        }
    }
    assert forall|e: UsageTotalsModel| a.contains(e) implies b.contains(e) by {
        let i = choose|i: int| 0 <= i < a.len() && a[i] == e;
        assert(tallies(rows, a[i]));
        let r = choose|r: int| 0 <= r < rows.len() && rows[r].source_id == e.source_id;
        assert(lists(b, rows[r].source_id));
        let k = choose|k: int| 0 <= k < b.len() && b[k].source_id == e.source_id;
        assert(tallies(rows, b[k]));
        assert(b[k] == e);
    }
}

} // verus!
