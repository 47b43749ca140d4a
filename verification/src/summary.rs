//! The content of the terminal report: diagnostics grouped by rule and the
//! groups ordered by severity and size, the per-category breakdown, which
//! groups are shown, and the rule listing.
use vstd::prelude::*;

use crate::diagnostics::{category_label, severity_rank, Diagnostic, RuleMeta, Severity};
use crate::rules::{all_metas, catalog};
use crate::text::{lemma_seq_lt_trichotomy, seq_lt, str_eq, str_lt};

verus! {

/// The report shows this many rule groups unless asked for all.
pub const DEFAULT_SHOWN_GROUPS: usize = 3;

/// Where `id` goes among the first `n` of the ascending `ids`.
pub open spec fn id_position(ids: Seq<Seq<char>>, id: Seq<char>, n: int) -> int
    decreases n,
{
    if n <= 0 {
        0
    } else if seq_lt(id, ids[n - 1]) {
        id_position(ids, id, n - 1)
    } else {
        n
    }
}

/// The distinct rule ids of the diagnostics, ascending.
pub open spec fn rule_ids(ds: Seq<Diagnostic>) -> Seq<Seq<char>>
    decreases ds.len(),
{
    if ds.len() == 0 {
        Seq::empty()
    } else {
        let prior = rule_ids(ds.drop_last());
        let id = ds.last().rule@;
        if prior.contains(id) {
            prior
        } else {
            prior.insert(id_position(prior, id, prior.len() as int), id)
        }
    }
}

/// The positions among `ds[..n]` of the diagnostics of rule `id`, in order.
pub open spec fn group_indices(ds: Seq<Diagnostic>, id: Seq<char>, n: int) -> Seq<usize>
    decreases n,
{
    if n <= 0 {
        Seq::empty()
    } else if ds[n - 1].rule@ == id {
        group_indices(ds, id, n - 1).push((n - 1) as usize)
    } else {
        group_indices(ds, id, n - 1)
    }
}

/// The severity rank of the first diagnostic of rule `id`.
pub open spec fn group_rank(ds: Seq<Diagnostic>, id: Seq<char>) -> int {
    severity_rank(ds[group_indices(ds, id, ds.len() as int)[0] as int].severity)
}

/// The number of diagnostics of rule `id`.
pub open spec fn group_size(ds: Seq<Diagnostic>, id: Seq<char>) -> nat {
    group_indices(ds, id, ds.len() as int).len()
}

/// Group `a` is shown before group `b`: more severe first, then larger.
pub open spec fn group_before(ds: Seq<Diagnostic>, a: Seq<char>, b: Seq<char>) -> bool {
    group_rank(ds, a) < group_rank(ds, b) || (group_rank(ds, a) == group_rank(ds, b) && group_size(ds, a) > group_size(ds, b))
}

/// Where group `id` goes among the first `n` of `sorted`.
pub open spec fn group_position(ds: Seq<Diagnostic>, sorted: Seq<Seq<char>>, id: Seq<char>, n: int) -> int
    decreases n,
{
    if n <= 0 {
        0
    } else if group_before(ds, id, sorted[n - 1]) {
        group_position(ds, sorted, id, n - 1)
    } else {
        n
    }
}

/// The groups `ids` in report order; groups that tie keep their order.
pub open spec fn order_groups(ds: Seq<Diagnostic>, ids: Seq<Seq<char>>) -> Seq<Seq<char>>
    decreases ids.len(),
{
    if ids.len() == 0 {
        Seq::empty()
    } else {
        let prior = order_groups(ds, ids.drop_last());
        prior.insert(group_position(ds, prior, ids.last(), prior.len() as int), ids.last())
    }
}

/// The rule groups of a report: each rule's diagnostics (by position), the
/// groups in ascending rule order, then stably ordered by the severity of
/// their first diagnostic and by size, larger first.
pub open spec fn report_groups(ds: Seq<Diagnostic>) -> Seq<Seq<char>> {
    order_groups(ds, rule_ids(ds))
}

/// One rule group: the rule and the positions of its diagnostics.
#[derive(Debug)]
pub struct RuleGroup {
    pub rule: &'static str,
    pub indices: Vec<usize>,
}

proof fn lemma_id_position_bounds(ids: Seq<Seq<char>>, id: Seq<char>, n: int)
    requires
        0 <= n <= ids.len(),
    ensures
        0 <= id_position(ids, id, n) <= n,
    decreases n,
{
    if n > 0 {
        lemma_id_position_bounds(ids, id, n - 1);
    }
}

proof fn lemma_group_position_bounds(ds: Seq<Diagnostic>, sorted: Seq<Seq<char>>, id: Seq<char>, n: int)
    requires
        0 <= n <= sorted.len(),
    ensures
        0 <= group_position(ds, sorted, id, n) <= n,
    decreases n,
{
    if n > 0 {
        lemma_group_position_bounds(ds, sorted, id, n - 1);
    }
}

proof fn lemma_order_groups_len(ds: Seq<Diagnostic>, ids: Seq<Seq<char>>)
    ensures
        order_groups(ds, ids).len() == ids.len(),
    decreases ids.len(),
{
    if ids.len() > 0 {
        lemma_order_groups_len(ds, ids.drop_last());
        let prior = order_groups(ds, ids.drop_last());
        lemma_group_position_bounds(ds, prior, ids.last(), prior.len() as int);
    }
}

proof fn lemma_group_indices_bounded(ds: Seq<Diagnostic>, id: Seq<char>, n: int)
    requires
        0 <= n <= ds.len(),
        ds.len() <= usize::MAX,
    ensures
        group_indices(ds, id, n).len() <= n,
        forall|k: int| 0 <= k < group_indices(ds, id, n).len() ==> (#[trigger] group_indices(ds, id, n)[k]) < n
            && ds[group_indices(ds, id, n)[k] as int].rule@ == id,
    decreases n,
{
    if n > 0 {
        lemma_group_indices_bounded(ds, id, n - 1);
        let prior = group_indices(ds, id, n - 1);
        assert forall|k: int| 0 <= k < group_indices(ds, id, n).len() implies (#[trigger] group_indices(ds, id, n)[k]) < n
            && ds[group_indices(ds, id, n)[k] as int].rule@ == id by {
            if k < prior.len() {
                assert(group_indices(ds, id, n)[k] == prior[k]);
            }
        }
    }
}

proof fn lemma_group_nonempty(ds: Seq<Diagnostic>, id: Seq<char>, n: int, k: int)
    requires
        0 <= k < n <= ds.len(),
        ds[k].rule@ == id,
    ensures
        group_indices(ds, id, n).len() > 0,
    decreases n,
{
    if k < n - 1 {
        lemma_group_nonempty(ds, id, n - 1, k);
    }
}

/// The rule ids of `ds[..n]` each name some diagnostic of `ds[..n]`.
proof fn lemma_rule_ids_occur(ds: Seq<Diagnostic>, n: int)
    requires
        0 <= n <= ds.len(),
    ensures
        forall|j: int|
            #![trigger rule_ids(ds.take(n))[j]]
            0 <= j < rule_ids(ds.take(n)).len() ==> exists|k: int| 0 <= k < n && (#[trigger] ds[k]).rule@ == rule_ids(ds.take(n))[j],
    decreases n,
{
    if n > 0 {
        lemma_rule_ids_occur(ds, n - 1);
        assert(ds.take(n).drop_last() =~= ds.take(n - 1));
        let prior = rule_ids(ds.take(n - 1));
        let id = ds[n - 1].rule@;
        lemma_id_position_bounds(prior, id, prior.len() as int);
        assert forall|j: int|
            #![trigger rule_ids(ds.take(n))[j]]
            0 <= j < rule_ids(ds.take(n)).len() implies exists|k: int| 0 <= k < n && (#[trigger] ds[k]).rule@ == rule_ids(ds.take(n))[j] by {
            let ids = rule_ids(ds.take(n));
            if prior.contains(id) {
                let k0 = choose|k: int| 0 <= k < n - 1 && (#[trigger] ds[k]).rule@ == prior[j];
                assert(ds[k0].rule@ == ids[j]);
            } else {
                let p = id_position(prior, id, prior.len() as int);
                if j == p {
                    assert(ds[n - 1].rule@ == ids[j]);
                } else if j < p {
                    let k0 = choose|k: int| 0 <= k < n - 1 && (#[trigger] ds[k]).rule@ == prior[j];
                    assert(ds[k0].rule@ == ids[j]);
                } else {
                    let k0 = choose|k: int| 0 <= k < n - 1 && (#[trigger] ds[k]).rule@ == prior[j - 1];
                    assert(ds[k0].rule@ == ids[j]);
                }
            }
        }
    }
}

fn ids_contain(ids: &Vec<&'static str>, id: &str) -> (found: bool)
    ensures
        found == ids@.map_values(|s: &'static str| s@).contains(id@),
{
    let ghost view = ids@.map_values(|s: &'static str| s@);
    let mut i: usize = 0;
    while i < ids.len()
        invariant
            i <= ids@.len(),
            view == ids@.map_values(|s: &'static str| s@),
            forall|k: int| 0 <= k < i ==> view[k] != id@,
        decreases ids@.len() - i,
    {
        if str_eq(ids[i], id) {
            assert(view[i as int] == id@);
            return true;
        }
        i += 1;
    }
    false
}

/// The positions of the diagnostics of rule `id`.
fn indices_of(ds: &[Diagnostic], id: &str) -> (indices: Vec<usize>)
    ensures
        indices@ == group_indices(ds@, id@, ds@.len() as int),
{
    let mut indices: Vec<usize> = Vec::new();
    let mut k: usize = 0;
    while k < ds.len()
        invariant
            k <= ds@.len(),
            indices@ == group_indices(ds@, id@, k as int),
        decreases ds@.len() - k,
    {
        if str_eq(ds[k].rule, id) {
            indices.push(k);
        }
        k += 1;
    }
    indices
}

/// Does a group of severity rank `rank` and `size` diagnostics come before
/// `other`?
fn precedes(ds: &[Diagnostic], rank: u8, size: usize, other: &RuleGroup) -> (before: bool)
    requires
        other.indices@.len() > 0,
        (other.indices@[0] as int) < ds@.len(),
    ensures
        before == (rank < severity_rank(ds@[other.indices@[0] as int].severity) || (rank == severity_rank(
            ds@[other.indices@[0] as int].severity,
        ) && size > other.indices@.len())),
{
    let other_rank: u8 = match ds[other.indices[0]].severity {
        Severity::Error => 0,
        Severity::Warn => 1,
        Severity::Info => 2,
    };
    rank < other_rank || (rank == other_rank && size > other.indices.len())
}

/// The rule groups of a report, in report order (see [`report_groups`]).
pub fn rule_groups(ds: &[Diagnostic]) -> (groups: Vec<RuleGroup>)
    ensures
        groups@.len() == report_groups(ds@).len(),
        forall|j: int| 0 <= j < groups@.len() ==> (#[trigger] groups@[j]).rule@ == report_groups(ds@)[j]
            && groups@[j].indices@ == group_indices(ds@, report_groups(ds@)[j], ds@.len() as int),
{
    let mut ids: Vec<&'static str> = Vec::new();
    let count = ds.len();
    let mut i: usize = 0;
    while i < ds.len()
        invariant
            i <= ds@.len(),
            ids@.map_values(|s: &'static str| s@) == rule_ids(ds@.take(i as int)),
        decreases ds@.len() - i,
    {
        assert(ds@.take(i + 1).drop_last() =~= ds@.take(i as int));
        let ghost prior = rule_ids(ds@.take(i as int));
        let id = ds[i].rule;
        if !ids_contain(&ids, id) {
            proof {
                lemma_id_position_bounds(prior, id@, prior.len() as int);
            }
            let mut p: usize = ids.len();
            while p > 0 && str_lt(id, ids[p - 1])
                invariant
                    p <= ids@.len(),
                    prior == ids@.map_values(|s: &'static str| s@),
                    id_position(prior, id@, prior.len() as int) == id_position(prior, id@, p as int),
                decreases p,
            {
                p -= 1;
            }
            ids.insert(p, id);
            assert(ids@.map_values(|s: &'static str| s@) =~= prior.insert(p as int, id@));
        }
        i += 1;
    }
    assert(ds@.take(i as int) =~= ds@);
    let ghost all_ids = rule_ids(ds@);
    proof {
        lemma_rule_ids_occur(ds@, ds@.len() as int);
        assert(ds@.take(ds@.len() as int) =~= ds@);
    }
    let mut groups: Vec<RuleGroup> = Vec::new();
    let mut n: usize = 0;
    while n < ids.len()
        invariant
            n <= ids@.len(),
            ids@.map_values(|s: &'static str| s@) == all_ids,
            all_ids == rule_ids(ds@),
            ds@.len() == count,
            forall|j: int|
                #![trigger all_ids[j]]
                0 <= j < all_ids.len() ==> exists|k: int| 0 <= k < ds@.len() && (#[trigger] ds@[k]).rule@ == all_ids[j],
            groups@.len() == order_groups(ds@, all_ids.take(n as int)).len(),
            forall|j: int| 0 <= j < groups@.len() ==> (#[trigger] groups@[j]).rule@ == order_groups(ds@, all_ids.take(n as int))[j]
                && groups@[j].indices@ == group_indices(ds@, order_groups(ds@, all_ids.take(n as int))[j], ds@.len() as int),
            forall|j: int| 0 <= j < groups@.len() ==> (#[trigger] groups@[j]).indices@.len() > 0,
            forall|j: int| 0 <= j < groups@.len() ==> ((#[trigger] groups@[j]).indices@[0] as int) < ds@.len(),
        decreases ids@.len() - n,
    {
        let id = ids[n];
        let indices = indices_of(ds, id);
        proof {
            assert(all_ids[n as int] == id@);
            let k = choose|k: int| 0 <= k < ds@.len() && (#[trigger] ds@[k]).rule@ == all_ids[n as int];
            lemma_group_nonempty(ds@, id@, ds@.len() as int, k);
            lemma_group_indices_bounded(ds@, id@, ds@.len() as int);
            lemma_order_groups_len(ds@, all_ids.take(n as int));
        }
        let first = indices[0];
        let rank: u8 = match ds[first].severity {
            Severity::Error => 0,
            Severity::Warn => 1,
            Severity::Info => 2,
        };
        let size = indices.len();
        let ghost sorted = order_groups(ds@, all_ids.take(n as int));
        let mut p: usize = groups.len();
        while p > 0 && precedes(ds, rank, size, &groups[p - 1])
            invariant
                p <= groups@.len(),
                groups@.len() == sorted.len(),
                forall|j: int| 0 <= j < groups@.len() ==> (#[trigger] groups@[j]).rule@ == sorted[j]
                    && groups@[j].indices@ == group_indices(ds@, sorted[j], ds@.len() as int),
                forall|j: int| 0 <= j < groups@.len() ==> (#[trigger] groups@[j]).indices@.len() > 0,
                forall|j: int| 0 <= j < groups@.len() ==> ((#[trigger] groups@[j]).indices@[0] as int) < ds@.len(),
                indices@ == group_indices(ds@, id@, ds@.len() as int),
                rank as int == group_rank(ds@, id@),
                size == group_size(ds@, id@),
                group_position(ds@, sorted, id@, sorted.len() as int) == group_position(ds@, sorted, id@, p as int),
            decreases p,
        {
            p -= 1;
        }
        let ghost before = groups@;
        groups.insert(p, RuleGroup { rule: id, indices });
        proof {
            assert(all_ids.take(n + 1).drop_last() =~= all_ids.take(n as int));
            assert(all_ids.take(n + 1).last() == id@);
            let new_sorted = sorted.insert(p as int, id@);
            assert(order_groups(ds@, all_ids.take(n + 1)) == new_sorted);
            assert forall|j: int| 0 <= j < groups@.len() implies (#[trigger] groups@[j]).rule@ == new_sorted[j]
                && groups@[j].indices@ == group_indices(ds@, new_sorted[j], ds@.len() as int) && groups@[j].indices@.len() > 0
                && (groups@[j].indices@[0] as int) < ds@.len() by {
                if j < p {
                    assert(groups@[j] == before[j]);
                } else if j > p {
                    assert(groups@[j] == before[j - 1]);
                }
            }
        }
        n += 1;
    }
    assert(all_ids.take(n as int) =~= all_ids);
    groups
}

proof fn lemma_order_groups_multiset(ds: Seq<Diagnostic>, ids: Seq<Seq<char>>)
    ensures
        order_groups(ds, ids).to_multiset() == ids.to_multiset(),
    decreases ids.len(),
{
    if ids.len() > 0 {
        lemma_order_groups_multiset(ds, ids.drop_last());
        let prior = order_groups(ds, ids.drop_last());
        let p = group_position(ds, prior, ids.last(), prior.len() as int);
        lemma_group_position_bounds(ds, prior, ids.last(), prior.len() as int);
        vstd::seq_lib::to_multiset_insert(prior, p, ids.last());
        assert(ids.drop_last().push(ids.last()) =~= ids);
        ids.drop_last().to_multiset_ensures();
        assert(ids.drop_last().push(ids.last()).to_multiset() =~= ids.drop_last().to_multiset().insert(ids.last()));
        assert(order_groups(ds, ids) == prior.insert(p, ids.last()));
    } else {
        assert(ids =~= Seq::<Seq<char>>::empty());
    }
}

proof fn lemma_rule_ids_cover(ds: Seq<Diagnostic>, n: int)
    requires
        0 <= n <= ds.len(),
    ensures
        rule_ids(ds.take(n)).no_duplicates(),
        forall|k: int| 0 <= k < n ==> rule_ids(ds.take(n)).contains(#[trigger] ds[k].rule@),
    decreases n,
{
    broadcast use vstd::multiset::group_multiset_axioms;

    if n > 0 {
        lemma_rule_ids_cover(ds, n - 1);
        assert(ds.take(n).drop_last() =~= ds.take(n - 1));
        let prior = rule_ids(ds.take(n - 1));
        let id = ds[n - 1].rule@;
        let ids = rule_ids(ds.take(n));
        if !prior.contains(id) {
            let p = id_position(prior, id, prior.len() as int);
            lemma_id_position_bounds(prior, id, prior.len() as int);
            vstd::seq_lib::to_multiset_insert(prior, p, id);
            prior.to_multiset_ensures();
            ids.to_multiset_ensures();
            prior.lemma_multiset_has_no_duplicates();
            assert forall|x: Seq<char>| ids.to_multiset().contains(x) implies ids.to_multiset().count(x) == 1 by {
                if x != id {
                    assert(prior.to_multiset().contains(x));
                }
            }
            ids.lemma_multiset_has_no_duplicates_conv();
            assert forall|k: int| 0 <= k < n implies ids.contains(#[trigger] ds[k].rule@) by {
                if k < n - 1 {
                    assert(prior.contains(ds[k].rule@));
                    assert(prior.to_multiset().count(ds[k].rule@) > 0);
                }
                assert(ids.to_multiset().count(ds[k].rule@) > 0);
            }
        }
    }
}

proof fn lemma_group_indices_complete(ds: Seq<Diagnostic>, n: int, k: int)
    requires
        0 <= k < n <= ds.len(),
        ds.len() <= usize::MAX,
    ensures
        group_indices(ds, ds[k].rule@, n).contains(k as usize),
    decreases n,
{
    let id = ds[k].rule@;
    if k < n - 1 {
        lemma_group_indices_complete(ds, n - 1, k);
        let prior = group_indices(ds, id, n - 1);
        let j = choose|j: int| 0 <= j < prior.len() && prior[j] == k as usize;
        if ds[n - 1].rule@ == id {
            assert(group_indices(ds, id, n)[j] == k as usize);
        }
    } else {
        let all = group_indices(ds, id, n);
        assert(all[all.len() - 1] == k as usize);
    }
}

/// Grouping a report loses and repeats no diagnostic: each rule has one
/// group, every diagnostic sits in the group of its rule, and every group is
/// non-empty and holds only its rule's diagnostics.
pub proof fn lemma_groups_partition(ds: Seq<Diagnostic>)
    requires
        ds.len() <= usize::MAX,
    ensures
        report_groups(ds).no_duplicates(),
        forall|k: int| 0 <= k < ds.len() ==> report_groups(ds).contains(#[trigger] ds[k].rule@)
            && group_indices(ds, ds[k].rule@, ds.len() as int).contains(k as usize),
        forall|j: int| 0 <= j < report_groups(ds).len() ==> group_indices(ds, #[trigger] report_groups(ds)[j], ds.len() as int).len() > 0,
        forall|j: int, i: int| 0 <= j < report_groups(ds).len() && 0 <= i < group_indices(ds, report_groups(ds)[j], ds.len() as int).len()
            ==> ds[#[trigger] group_indices(ds, #[trigger] report_groups(ds)[j], ds.len() as int)[i] as int].rule@ == report_groups(ds)[j],
{
    broadcast use vstd::multiset::group_multiset_axioms;

    let n = ds.len() as int;
    assert(ds.take(n) =~= ds);
    lemma_rule_ids_cover(ds, n);
    lemma_rule_ids_occur(ds, n);
    let ids = rule_ids(ds);
    let groups = report_groups(ds);
    lemma_order_groups_multiset(ds, ids);
    groups.to_multiset_ensures();
    ids.to_multiset_ensures();
    ids.lemma_multiset_has_no_duplicates();
    assert forall|x: Seq<char>| groups.to_multiset().contains(x) implies groups.to_multiset().count(x) == 1 by {
        assert(ids.to_multiset().contains(x));
    }
    groups.lemma_multiset_has_no_duplicates_conv();
    assert forall|k: int| 0 <= k < ds.len() implies groups.contains(#[trigger] ds[k].rule@)
        && group_indices(ds, ds[k].rule@, n).contains(k as usize) by {
        assert(ids.contains(ds[k].rule@));
        assert(ids.to_multiset().count(ds[k].rule@) > 0);
        assert(groups.to_multiset().count(ds[k].rule@) > 0);
        lemma_group_indices_complete(ds, n, k);
    }
    assert forall|j: int| 0 <= j < groups.len() implies group_indices(ds, #[trigger] groups[j], n).len() > 0 by {
        assert(groups.contains(groups[j]));
        assert(groups.to_multiset().count(groups[j]) > 0);
        assert(ids.to_multiset().count(groups[j]) > 0);
        let m = choose|m: int| 0 <= m < ids.len() && ids[m] == groups[j];
        assert(ids[m] == groups[j]);
        let k = choose|k: int| 0 <= k < n && (#[trigger] ds[k]).rule@ == ids[m];
        lemma_group_nonempty(ds, groups[j], n, k);
    }
    assert forall|j: int, i: int| 0 <= j < groups.len() && 0 <= i < group_indices(ds, groups[j], n).len()
        implies ds[#[trigger] group_indices(ds, #[trigger] groups[j], n)[i] as int].rule@ == groups[j] by {
        lemma_group_indices_bounded(ds, groups[j], n);
    }
}

/// How many rule groups the report shows: all of them when verbose, else at
/// most the default.
pub fn shown_group_count(total: usize, verbose: bool) -> (shown: usize)
    ensures
        shown == if verbose || total <= DEFAULT_SHOWN_GROUPS { total } else { DEFAULT_SHOWN_GROUPS },
{
    if verbose || total <= DEFAULT_SHOWN_GROUPS {
        total
    } else {
        DEFAULT_SHOWN_GROUPS
    }
}

/// The position of the entry for `label` in `counts[i..]`.
pub open spec fn label_position(counts: Seq<(Seq<char>, nat)>, label: Seq<char>, i: int) -> Option<int>
    decreases counts.len() - i,
{
    if i < 0 || i >= counts.len() {
        None
    } else if counts[i].0 == label {
        Some(i)
    } else {
        label_position(counts, label, i + 1)
    }
}

/// The number of diagnostics of each category, in order of first
/// appearance.
pub open spec fn tally(ds: Seq<Diagnostic>) -> Seq<(Seq<char>, nat)>
    decreases ds.len(),
{
    if ds.len() == 0 {
        Seq::empty()
    } else {
        let prior = tally(ds.drop_last());
        let label = category_label(ds.last().category);
        match label_position(prior, label, 0) {
            Some(i) => prior.update(i, (label, prior[i].1 + 1)),
            None => prior.push((label, 1nat)),
        }
    }
}

/// Where `entry` goes among the first `n` of `sorted`: after every entry
/// with at least its count.
pub open spec fn count_position(sorted: Seq<(Seq<char>, nat)>, entry: (Seq<char>, nat), n: int) -> int
    decreases n,
{
    if n <= 0 {
        0
    } else if entry.1 > sorted[n - 1].1 {
        count_position(sorted, entry, n - 1)
    } else {
        n
    }
}

/// The entries by count, larger first; entries that tie keep their order.
pub open spec fn by_count(entries: Seq<(Seq<char>, nat)>) -> Seq<(Seq<char>, nat)>
    decreases entries.len(),
{
    if entries.len() == 0 {
        Seq::empty()
    } else {
        let prior = by_count(entries.drop_last());
        prior.insert(count_position(prior, entries.last(), prior.len() as int), entries.last())
    }
}

/// The category breakdown of a report: the count of each category, larger
/// first, categories that tie in order of first appearance.
pub open spec fn category_breakdown_spec(ds: Seq<Diagnostic>) -> Seq<(Seq<char>, nat)> {
    by_count(tally(ds))
}

/// The plain value of a breakdown.
pub open spec fn breakdown_view(counts: Seq<(&'static str, usize)>) -> Seq<(Seq<char>, nat)> {
    counts.map_values(|entry: (&'static str, usize)| (entry.0@, entry.1 as nat))
}

proof fn lemma_tally_bounded(ds: Seq<Diagnostic>)
    ensures
        forall|k: int| 0 <= k < tally(ds).len() ==> (#[trigger] tally(ds)[k]).1 <= ds.len(),
        tally(ds).len() <= ds.len(),
    decreases ds.len(),
{
    if ds.len() > 0 {
        lemma_tally_bounded(ds.drop_last());
        let prior = tally(ds.drop_last());
        let label = category_label(ds.last().category);
        lemma_label_position(prior, label, 0);
        match label_position(prior, label, 0) {
            Some(i) => {
                assert forall|k: int| 0 <= k < tally(ds).len() implies (#[trigger] tally(ds)[k]).1 <= ds.len() by {
                    if k != i {
                        assert(tally(ds)[k] == prior[k]);
                    }
                }
            },
            None => {
                assert forall|k: int| 0 <= k < tally(ds).len() implies (#[trigger] tally(ds)[k]).1 <= ds.len() by {
                    if k < prior.len() {
                        assert(tally(ds)[k] == prior[k]);
                    }
                }
            },
        }
    }
}

proof fn lemma_label_position(counts: Seq<(Seq<char>, nat)>, label: Seq<char>, i: int)
    requires
        0 <= i,
    ensures
        match label_position(counts, label, i) {
            Some(j) => i <= j < counts.len() && counts[j].0 == label,
            None => forall|j: int| i <= j < counts.len() ==> counts[j].0 != label,
        },
    decreases counts.len() - i,
{
    if i < counts.len() && counts[i].0 != label {
        lemma_label_position(counts, label, i + 1);
    }
}

proof fn lemma_count_position_bounds(sorted: Seq<(Seq<char>, nat)>, entry: (Seq<char>, nat), n: int)
    requires
        0 <= n <= sorted.len(),
    ensures
        0 <= count_position(sorted, entry, n) <= n,
    decreases n,
{
    if n > 0 {
        lemma_count_position_bounds(sorted, entry, n - 1);
    }
}

proof fn lemma_by_count_len(entries: Seq<(Seq<char>, nat)>)
    ensures
        by_count(entries).len() == entries.len(),
    decreases entries.len(),
{
    if entries.len() > 0 {
        lemma_by_count_len(entries.drop_last());
        let prior = by_count(entries.drop_last());
        lemma_count_position_bounds(prior, entries.last(), prior.len() as int);
    }
}

/// The category breakdown of a report.
pub fn category_breakdown(ds: &[Diagnostic]) -> (counts: Vec<(&'static str, usize)>)
    ensures
        breakdown_view(counts@) == category_breakdown_spec(ds@),
{
    let mut counts: Vec<(&'static str, usize)> = Vec::new();
    let total = ds.len();
    let mut i: usize = 0;
    while i < ds.len()
        invariant
            i <= ds@.len(),
            ds@.len() == total,
            breakdown_view(counts@) == tally(ds@.take(i as int)),
        decreases ds@.len() - i,
    {
        assert(ds@.take(i + 1).drop_last() =~= ds@.take(i as int));
        let ghost prior = tally(ds@.take(i as int));
        proof {
            lemma_tally_bounded(ds@.take(i as int));
        }
        let label = ds[i].category.label();
        let mut j: usize = 0;
        while j < counts.len() && !str_eq(counts[j].0, label)
            invariant
                j <= counts@.len(),
                prior == breakdown_view(counts@),
                label_position(prior, label@, 0) == label_position(prior, label@, j as int),
            decreases counts@.len() - j,
        {
            j += 1;
        }
        if j < counts.len() {
            let entry = counts[j];
            proof {
                assert(prior[j as int].1 <= i);
            }
            counts.set(j, (entry.0, entry.1 + 1));
            assert(breakdown_view(counts@) =~= prior.update(j as int, (label@, prior[j as int].1 + 1)));
        } else {
            counts.push((label, 1));
            assert(breakdown_view(counts@) =~= prior.push((label@, 1nat)));
        }
        i += 1;
    }
    assert(ds@.take(i as int) =~= ds@);
    let ghost entries = breakdown_view(counts@);
    let mut sorted: Vec<(&'static str, usize)> = Vec::new();
    let mut k: usize = 0;
    while k < counts.len()
        invariant
            k <= counts@.len(),
            entries == breakdown_view(counts@),
            breakdown_view(sorted@) == by_count(entries.take(k as int)),
        decreases counts@.len() - k,
    {
        assert(entries.take(k + 1).drop_last() =~= entries.take(k as int));
        let entry = counts[k];
        let ghost prior = by_count(entries.take(k as int));
        proof {
            lemma_by_count_len(entries.take(k as int));
            lemma_count_position_bounds(prior, (entry.0@, entry.1 as nat), prior.len() as int);
        }
        let mut p: usize = sorted.len();
        while p > 0 && entry.1 > sorted[p - 1].1
            invariant
                p <= sorted@.len(),
                prior == breakdown_view(sorted@),
                count_position(prior, (entry.0@, entry.1 as nat), prior.len() as int) == count_position(
                    prior,
                    (entry.0@, entry.1 as nat),
                    p as int,
                ),
            decreases p,
        {
            p -= 1;
        }
        sorted.insert(p, entry);
        assert(breakdown_view(sorted@) =~= prior.insert(p as int, (entry.0@, entry.1 as nat)));
        k += 1;
    }
    assert(entries.take(k as int) =~= entries);
    sorted
}

/// The sum of the counts of a breakdown.
pub open spec fn breakdown_total(counts: Seq<(Seq<char>, nat)>) -> nat
    decreases counts.len(),
{
    if counts.len() == 0 {
        0
    } else {
        breakdown_total(counts.drop_last()) + counts.last().1
    }
}

proof fn lemma_total_update(counts: Seq<(Seq<char>, nat)>, i: int, entry: (Seq<char>, nat))
    requires
        0 <= i < counts.len(),
    ensures
        breakdown_total(counts.update(i, entry)) + counts[i].1 == breakdown_total(counts) + entry.1,
    decreases counts.len(),
{
    let updated = counts.update(i, entry);
    if i == counts.len() - 1 {
        assert(updated.drop_last() =~= counts.drop_last());
    } else {
        lemma_total_update(counts.drop_last(), i, entry);
        assert(updated.drop_last() =~= counts.drop_last().update(i, entry));
    }
}

proof fn lemma_total_insert(counts: Seq<(Seq<char>, nat)>, p: int, entry: (Seq<char>, nat))
    requires
        0 <= p <= counts.len(),
    ensures
        breakdown_total(counts.insert(p, entry)) == breakdown_total(counts) + entry.1,
    decreases counts.len(),
{
    let inserted = counts.insert(p, entry);
    if p == counts.len() {
        assert(inserted.drop_last() =~= counts);
    } else {
        lemma_total_insert(counts.drop_last(), p, entry);
        assert(inserted.drop_last() =~= counts.drop_last().insert(p, entry));
        assert(inserted.last() == counts.last());
    }
}

proof fn lemma_tally_total(ds: Seq<Diagnostic>)
    ensures
        breakdown_total(tally(ds)) == ds.len(),
    decreases ds.len(),
{
    if ds.len() > 0 {
        lemma_tally_total(ds.drop_last());
        let prior = tally(ds.drop_last());
        let label = category_label(ds.last().category);
        lemma_label_position(prior, label, 0);
        match label_position(prior, label, 0) {
            Some(i) => {
                lemma_total_update(prior, i, (label, prior[i].1 + 1));
            },
            None => {
                assert(prior.push((label, 1nat)).drop_last() =~= prior);
            },
        }
    }
}

proof fn lemma_by_count_total(entries: Seq<(Seq<char>, nat)>)
    ensures
        breakdown_total(by_count(entries)) == breakdown_total(entries),
    decreases entries.len(),
{
    if entries.len() > 0 {
        lemma_by_count_total(entries.drop_last());
        let prior = by_count(entries.drop_last());
        lemma_count_position_bounds(prior, entries.last(), prior.len() as int);
        lemma_total_insert(prior, count_position(prior, entries.last(), prior.len() as int), entries.last());
    }
}

/// The category breakdown accounts for every diagnostic once: its counts add
/// up to the number of diagnostics.
pub proof fn lemma_breakdown_counts_all(ds: Seq<Diagnostic>)
    ensures
        breakdown_total(category_breakdown_spec(ds)) == ds.len(),
{
    lemma_tally_total(ds);
    lemma_by_count_total(tally(ds));
}

/// `a` is listed before `b`: by severity, then id.
pub open spec fn listed_before(a: RuleMeta, b: RuleMeta) -> bool {
    severity_rank(a.severity) < severity_rank(b.severity) || (severity_rank(a.severity) == severity_rank(b.severity) && seq_lt(
        a.id@,
        b.id@,
    ))
}

/// Where `m` goes among the first `n` of `sorted`.
pub open spec fn listing_position(sorted: Seq<RuleMeta>, m: RuleMeta, n: int) -> int
    decreases n,
{
    if n <= 0 {
        0
    } else if listed_before(m, sorted[n - 1]) {
        listing_position(sorted, m, n - 1)
    } else {
        n
    }
}

/// The rules in listing order; rules that tie keep their order.
pub open spec fn listing_order(metas: Seq<RuleMeta>) -> Seq<RuleMeta>
    decreases metas.len(),
{
    if metas.len() == 0 {
        Seq::empty()
    } else {
        let prior = listing_order(metas.drop_last());
        prior.insert(listing_position(prior, metas.last(), prior.len() as int), metas.last())
    }
}

proof fn lemma_listing_position_bounds(sorted: Seq<RuleMeta>, m: RuleMeta, n: int)
    requires
        0 <= n <= sorted.len(),
    ensures
        0 <= listing_position(sorted, m, n) <= n,
    decreases n,
{
    if n > 0 {
        lemma_listing_position_bounds(sorted, m, n - 1);
    }
}

proof fn lemma_listing_len(metas: Seq<RuleMeta>)
    ensures
        listing_order(metas).len() == metas.len(),
    decreases metas.len(),
{
    if metas.len() > 0 {
        lemma_listing_len(metas.drop_last());
        let prior = listing_order(metas.drop_last());
        lemma_listing_position_bounds(prior, metas.last(), prior.len() as int);
    }
}

fn is_listed_before(a: &RuleMeta, b: &RuleMeta) -> (before: bool)
    ensures
        before == listed_before(*a, *b),
{
    let ra: u8 = match a.severity {
        Severity::Error => 0,
        Severity::Warn => 1,
        Severity::Info => 2,
    };
    let rb: u8 = match b.severity {
        Severity::Error => 0,
        Severity::Warn => 1,
        Severity::Info => 2,
    };
    ra < rb || (ra == rb && str_lt(a.id, b.id))
}

/// The rule listing: every rule of the catalog by severity, then id.
pub fn rule_listing() -> (listing: Vec<RuleMeta>)
    ensures
        listing@ == listing_order(catalog()),
{
    let metas = all_metas();
    let mut sorted: Vec<RuleMeta> = Vec::new();
    let mut k: usize = 0;
    while k < metas.len()
        invariant
            k <= metas@.len(),
            metas@ == catalog(),
            sorted@ == listing_order(metas@.take(k as int)),
        decreases metas@.len() - k,
    {
        assert(metas@.take(k + 1).drop_last() =~= metas@.take(k as int));
        let m = metas[k];
        let ghost prior = listing_order(metas@.take(k as int));
        proof {
            lemma_listing_len(metas@.take(k as int));
            lemma_listing_position_bounds(prior, m, prior.len() as int);
        }
        let mut p: usize = sorted.len();
        while p > 0 && is_listed_before(&m, &sorted[p - 1])
            invariant
                p <= sorted@.len(),
                prior == sorted@,
                listing_position(prior, m, prior.len() as int) == listing_position(prior, m, p as int),
            decreases p,
        {
            p -= 1;
        }
        sorted.insert(p, m);
        k += 1;
    }
    assert(metas@.take(k as int) =~= metas@);
    sorted
}

/// The first catalog entry at or after `i` with the given id.
pub open spec fn first_rule_from(metas: Seq<RuleMeta>, id: Seq<char>, i: int) -> Option<RuleMeta>
    decreases metas.len() - i,
{
    if i < 0 || i >= metas.len() {
        None
    } else if metas[i].id@ == id {
        Some(metas[i])
    } else {
        first_rule_from(metas, id, i + 1)
    }
}

/// The catalog entry of a rule id, for `explain`.
pub fn find_rule(rule_id: &str) -> (found: Option<RuleMeta>)
    ensures
        found == first_rule_from(catalog(), rule_id@, 0),
{
    let metas = all_metas();
    let mut i: usize = 0;
    while i < metas.len()
        invariant
            i <= metas@.len(),
            metas@ == catalog(),
            first_rule_from(catalog(), rule_id@, 0) == first_rule_from(catalog(), rule_id@, i as int),
        decreases metas@.len() - i,
    {
        if str_eq(metas[i].id, rule_id) {
            return Some(metas[i]);
        }
        i += 1;
    }
    None
}

} // verus!

verus! {

proof fn lemma_listed_before_order(x: RuleMeta, y: RuleMeta, z: RuleMeta)
    ensures
        listed_before(x, y) ==> !listed_before(y, x),
        !listed_before(x, y) && !listed_before(y, z) ==> !listed_before(x, z),
{
    lemma_seq_lt_trichotomy(x.id@, y.id@);
    lemma_seq_lt_trichotomy(y.id@, z.id@);
    lemma_seq_lt_trichotomy(x.id@, z.id@);
    if seq_lt(z.id@, y.id@) && seq_lt(y.id@, x.id@) {
        crate::text::lemma_seq_lt_transitive(z.id@, y.id@, x.id@);
    }
    if seq_lt(x.id@, z.id@) && seq_lt(z.id@, y.id@) {
        crate::text::lemma_seq_lt_transitive(x.id@, z.id@, y.id@);
    }
    if seq_lt(y.id@, x.id@) && seq_lt(x.id@, z.id@) {
        crate::text::lemma_seq_lt_transitive(y.id@, x.id@, z.id@);
    }
}

proof fn lemma_listing_position(sorted: Seq<RuleMeta>, m: RuleMeta, n: int)
    requires
        0 <= n <= sorted.len(),
    ensures
        forall|k: int| listing_position(sorted, m, n) <= k < n ==> listed_before(m, #[trigger] sorted[k]),
        listing_position(sorted, m, n) > 0 ==> !listed_before(m, sorted[listing_position(sorted, m, n) - 1]),
    decreases n,
{
    if n > 0 && listed_before(m, sorted[n - 1]) {
        lemma_listing_position(sorted, m, n - 1);
    }
}

/// The rule listing is ordered by severity, then id, and holds every rule of
/// the catalog once.
pub proof fn lemma_listing_sorted(metas: Seq<RuleMeta>)
    ensures
        forall|i: int, j: int| 0 <= i < j < listing_order(metas).len() ==> !listed_before(listing_order(metas)[j], listing_order(metas)[i]),
        listing_order(metas).to_multiset() == metas.to_multiset(),
    decreases metas.len(),
{
    if metas.len() == 0 {
        vstd::seq_lib::to_multiset_len(metas);
        vstd::seq_lib::to_multiset_len(listing_order(metas));
    } else {
        lemma_listing_sorted(metas.drop_last());
        let prior = listing_order(metas.drop_last());
        let x = metas.last();
        lemma_listing_len(metas.drop_last());
        lemma_listing_position_bounds(prior, x, prior.len() as int);
        lemma_listing_position(prior, x, prior.len() as int);
        let p = listing_position(prior, x, prior.len() as int);
        let after = listing_order(metas);
        vstd::seq_lib::to_multiset_insert(prior, p, x);
        assert(metas =~= metas.drop_last().push(x));
        vstd::seq_lib::to_multiset_build(metas.drop_last(), x);
        assert forall|i: int, j: int| 0 <= i < j < after.len() implies !listed_before(after[j], after[i]) by {
            if i < p && j == p {
                lemma_listed_before_order(x, prior[p - 1], prior[i]);
            } else if i == p && j > p {
                lemma_listed_before_order(x, prior[j - 1], x);
            } else if i < p && j > p {
                assert(after[i] == prior[i] && after[j] == prior[j - 1]);
            } else if j < p {
                assert(after[i] == prior[i] && after[j] == prior[j]);
            } else {
                assert(after[i] == prior[i - 1] && after[j] == prior[j - 1]);
            }
        }
    }
}

} // verus!
