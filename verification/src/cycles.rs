//! Circular-import detection. Import cycles couple modules, break
//! tree-shaking, and cause initialization-order bugs. The strongly-connected
//! components of the resolved import graph are computed, and every file of a
//! component with two or more members is flagged.
use vstd::prelude::*;

use crate::diagnostics::{Category, Diagnostic, FileContext, RuleMeta, Severity};
use crate::lint::{classify_spec, is_test_file};
use crate::reach::scc_exact;
use crate::scc::{adjacency_ok, components, tarjan_sccs};
use crate::text::{decimal, push_str, seq_le, str_eq, str_lt, to_decimal};

verus! {

/// A resolved import: the file `from` imports the file `to`.
#[derive(Debug, Clone)]
pub struct ImportEdge {
    pub from: String,
    pub to: String,
}

/// A file that participates in an import cycle, with one other member of the
/// cycle and the cycle's size.
#[derive(Debug, Clone)]
pub struct CycleHit {
    pub file: String,
    pub partner: String,
    pub size: usize,
}

/// The plain values of a hit.
pub open spec fn hit_key(hit: CycleHit) -> (Seq<char>, Seq<char>, usize) {
    (hit.file@, hit.partner@, hit.size)
}

/// The paths of the files, as character sequences.
pub open spec fn paths(files: Seq<String>) -> Seq<Seq<char>> {
    files.map_values(|f: String| f@)
}

/// `i` is the index a path resolves to: the last file with that path.
pub open spec fn resolves_to(files: Seq<Seq<char>>, path: Seq<char>, i: int) -> bool {
    &&& 0 <= i < files.len()
    &&& files[i] == path
    &&& forall|j: int| i < j < files.len() ==> files[j] != path
}

/// The adjacency lists of the import graph: for each file, the files it
/// imports, in edge order, over the edges whose ends both resolve.
pub open spec fn import_targets(files: Seq<Seq<char>>, edges: Seq<(Seq<char>, Seq<char>)>, from: int) -> Seq<usize>
    decreases edges.len(),
{
    if edges.len() == 0 {
        Seq::empty()
    } else {
        let rest = import_targets(files, edges.drop_last(), from);
        let e = edges.last();
        if resolves_to(files, e.0, from) && exists|t: int| #[trigger] resolves_to(files, e.1, t) {
            rest.push((choose|t: int| #[trigger] resolves_to(files, e.1, t)) as usize)
        } else {
            rest
        }
    }
}

/// The first member of a component other than `node` (or `node` itself).
pub open spec fn partner_of(component: Seq<usize>, node: usize) -> usize
    decreases component.len(),
{
    if component.len() == 0 {
        node
    } else if component[0] != node {
        component[0]
    } else {
        partner_of(component.drop_first(), node)
    }
}

/// The hits of one component: one per member when it has two or more.
pub open spec fn component_hits(files: Seq<Seq<char>>, component: Seq<usize>) -> Seq<(Seq<char>, Seq<char>, usize)> {
    if component.len() < 2 {
        Seq::empty()
    } else {
        component.map_values(
            |node: usize| (files[node as int], files[partner_of(component, node) as int], component.len() as usize),
        )
    }
}

/// The hits of all components, component by component.
pub open spec fn all_hits(files: Seq<Seq<char>>, comps: Seq<Seq<usize>>) -> Seq<(Seq<char>, Seq<char>, usize)>
    decreases comps.len(),
{
    if comps.len() == 0 {
        Seq::empty()
    } else {
        all_hits(files, comps.drop_last()) + component_hits(files, comps.last())
    }
}

/// `comps` partitions the nodes `0..n` into non-empty components.
pub open spec fn is_partition(comps: Seq<Seq<usize>>, n: nat) -> bool {
    &&& forall|c: int| 0 <= c < comps.len() ==> (#[trigger] comps[c]).len() > 0
    &&& comps.flatten().no_duplicates()
    &&& forall|v: usize| (v as nat) < n ==> comps.flatten().contains(v)
    &&& forall|i: int| 0 <= i < comps.flatten().len() ==> (#[trigger] comps.flatten()[i] as nat) < n
}

/// Hits are ordered by file path.
pub open spec fn sorted_by_file(hits: Seq<CycleHit>) -> bool {
    forall|i: int, j: int| 0 <= i < j < hits.len() ==> seq_le(hits[i].file@, hits[j].file@)
}

/// Index of the last file whose path is `path`.
fn last_position(files: &Vec<String>, path: &String) -> (found: Option<usize>)
    ensures
        match found {
            Some(i) => resolves_to(paths(files@), path@, i as int),
            None => forall|i: int| !resolves_to(paths(files@), path@, i),
        },
{
    let mut i: usize = files.len();
    while i > 0
        invariant
            i <= files@.len(),
            forall|j: int| i <= j < files@.len() ==> paths(files@)[j] != path@,
        decreases i,
    {
        i -= 1;
        if str_eq(files[i].as_str(), path.as_str()) {
            return Some(i);
        }
    }
    None
}

fn adjacency_of(files: &Vec<String>, edges: &Vec<ImportEdge>) -> (adjacency: Vec<Vec<usize>>)
    ensures
        adjacency@.len() == files@.len(),
        adjacency_ok(adjacency@),
        forall|i: int|
            0 <= i < files@.len() ==> (#[trigger] adjacency@[i])@ == import_targets(
                paths(files@),
                edges@.map_values(|e: ImportEdge| (e.from@, e.to@)),
                i,
            ),
{
    let ghost fs = paths(files@);
    let ghost es = edges@.map_values(|e: ImportEdge| (e.from@, e.to@));
    let mut adjacency: Vec<Vec<usize>> = Vec::new();
    let n = files.len();
    while adjacency.len() < n
        invariant
            n == files@.len(),
            fs == paths(files@),
            es == edges@.map_values(|e: ImportEdge| (e.from@, e.to@)),
            adjacency@.len() <= n,
            forall|i: int| 0 <= i < adjacency@.len() ==> (#[trigger] adjacency@[i])@ == import_targets(fs, es, i),
            forall|i: int, j: int|
                0 <= i < adjacency@.len() && 0 <= j < adjacency@[i]@.len() ==> (#[trigger] adjacency@[i]@[j]) < n,
        decreases n - adjacency@.len(),
    {
        let from = adjacency.len();
        let mut targets: Vec<usize> = Vec::new();
        let mut k: usize = 0;
        while k < edges.len()
            invariant
                n == files@.len(),
                from < n,
                fs == paths(files@),
                es == edges@.map_values(|e: ImportEdge| (e.from@, e.to@)),
                k <= edges@.len(),
                targets@ == import_targets(fs, es.take(k as int), from as int),
                forall|j: int| 0 <= j < targets@.len() ==> (#[trigger] targets@[j]) < n,
            decreases edges@.len() - k,
        {
            assert(es.take(k + 1).drop_last() =~= es.take(k as int));
            assert(es.take(k + 1).last() == (edges@[k as int].from@, edges@[k as int].to@));
            let source = last_position(files, &edges[k].from);
            let target = last_position(files, &edges[k].to);
            match (source, target) {
                (Some(a), Some(b)) => {
                    if a == from {
                        proof {
                            assert(resolves_to(fs, es.take(k + 1).last().1, b as int));
                            let t = choose|t: int| #[trigger] resolves_to(fs, es.take(k + 1).last().1, t);
                            if t != b as int {
                                if t < b {
                                    assert(fs[b as int] != es.take(k + 1).last().1);
                                } else {
                                    assert(fs[t] != es.take(k + 1).last().1);
                                }
                            }
                        }
                        targets.push(b);
                    }
                },
                _ => {},
            }
            k += 1;
        }
        assert(es.take(edges@.len() as int) =~= es);
        adjacency.push(targets);
    }
    adjacency
}

proof fn lemma_partner_member(component: Seq<usize>, node: usize)
    requires
        component.len() >= 2,
        component.no_duplicates(),
    ensures
        component.contains(partner_of(component, node)),
        partner_of(component, node) != node,
    decreases component.len(),
{
    let tail = component.drop_first();
    if component[0] == node {
        assert(tail[0] == component[1]);
        assert(component[1] != node);
        assert(tail.no_duplicates()) by {
            assert forall|i: int, j: int| 0 <= i < j < tail.len() implies tail[i] != tail[j] by {
                assert(tail[i] == component[i + 1] && tail[j] == component[j + 1]);
            }
        }
        if tail.len() >= 2 {
            lemma_partner_member(tail, node);
            let p = partner_of(tail, node);
            let k = choose|k: int| 0 <= k < tail.len() && tail[k] == p;
            assert(component[k + 1] == p);
        } else {
            assert(partner_of(tail, node) == tail[0]);
            assert(component[1] == partner_of(component, node));
        }
    } else {
        assert(component[0] == partner_of(component, node));
    }
}

fn first_other(component: &Vec<usize>, node: usize) -> (partner: usize)
    ensures
        partner == partner_of(component@, node),
{
    let mut k: usize = 0;
    assert(component@.skip(0) =~= component@);
    while k < component.len()
        invariant
            k <= component@.len(),
            partner_of(component@, node) == partner_of(component@.skip(k as int), node),
        decreases component@.len() - k,
    {
        assert(component@.skip(k as int).drop_first() =~= component@.skip(k + 1));
        assert(component@.skip(k as int)[0] == component@[k as int]);
        if component[k] != node {
            return component[k];
        }
        k += 1;
    }
    node
}

pub(crate) proof fn lemma_flatten_parts(comps: Seq<Seq<usize>>, c: int, k: int)
    requires
        0 <= c < comps.len(),
        0 <= k < comps[c].len(),
    ensures
        comps.flatten().contains(comps[c][k]),
    decreases comps.len(),
{
    comps.drop_last().lemma_flatten_push(comps.last());
    assert(comps.drop_last().push(comps.last()) =~= comps);
    if c == comps.len() - 1 {
        assert((comps.drop_last().flatten() + comps.last())[comps.drop_last().flatten().len() + k] == comps[c][k]);
    } else {
        lemma_flatten_parts(comps.drop_last(), c, k);
        let i = choose|i: int| 0 <= i < comps.drop_last().flatten().len() && comps.drop_last().flatten()[i] == comps[c][k];
        assert((comps.drop_last().flatten() + comps.last())[i] == comps[c][k]);
    }
}

proof fn lemma_component_no_dup(comps: Seq<Seq<usize>>, c: int)
    requires
        0 <= c < comps.len(),
        comps.flatten().no_duplicates(),
    ensures
        comps[c].no_duplicates(),
    decreases comps.len(),
{
    comps.drop_last().lemma_flatten_push(comps.last());
    assert(comps.drop_last().push(comps.last()) =~= comps);
    let front = comps.drop_last().flatten();
    let whole = front + comps.last();
    if c == comps.len() - 1 {
        assert forall|i: int, j: int| 0 <= i < j < comps[c].len() implies comps[c][i] != comps[c][j] by {
            assert(whole[front.len() + i] == comps[c][i]);
            assert(whole[front.len() + j] == comps[c][j]);
        }
    } else {
        assert forall|i: int, j: int| 0 <= i < j < front.len() implies front[i] != front[j] by {
            assert(whole[i] == front[i] && whole[j] == front[j]);
        }
        lemma_component_no_dup(comps.drop_last(), c);
    }
}

/// Insert `hit` into `sorted` after every hit whose file sorts no later.
fn insert_by_file(sorted: &mut Vec<CycleHit>, hit: CycleHit)
    requires
        sorted_by_file(old(sorted)@),
    ensures
        sorted_by_file(final(sorted)@),
        final(sorted)@.map_values(|h: CycleHit| hit_key(h)).to_multiset() == old(sorted)@.map_values(
            |h: CycleHit| hit_key(h),
        ).to_multiset().insert(hit_key(hit)),
{
    let mut pos: usize = 0;
    while pos < sorted.len() && !str_lt(hit.file.as_str(), sorted[pos].file.as_str())
        invariant
            pos <= sorted@.len(),
            sorted == old(sorted),
            forall|k: int| 0 <= k < pos ==> seq_le(sorted@[k].file@, hit.file@),
        decreases sorted@.len() - pos,
    {
        pos += 1;
    }
    let ghost before = sorted@;
    let ghost key = hit_key(hit);
    sorted.insert(pos, hit);
    proof {
        assert(sorted@ == before.insert(pos as int, hit));
        assert(sorted@.map_values(|h: CycleHit| hit_key(h)) =~= before.map_values(|h: CycleHit| hit_key(h)).insert(pos as int, key));
        vstd::seq_lib::to_multiset_insert(before.map_values(|h: CycleHit| hit_key(h)), pos as int, key);
        assert forall|i: int, j: int| 0 <= i < j < sorted@.len() implies seq_le(sorted@[i].file@, sorted@[j].file@) by {
            let h = sorted@[pos as int];
            if i < pos && j == pos {
            } else if i == pos && j > pos {
                // hit < before[pos] <= before[j - 1]
                crate::text::lemma_seq_lt_trichotomy(h.file@, before[pos as int].file@);
                if j - 1 > pos {
                    crate::text::lemma_seq_le_transitive(h.file@, before[pos as int].file@, before[j - 1].file@);
                }
            } else if i < pos && j > pos {
                assert(seq_le(before[i].file@, before[j - 1].file@));
            } else if j < pos {
                assert(seq_le(before[i].file@, before[j].file@));
            } else {
                assert(seq_le(before[i - 1].file@, before[j - 1].file@));
            }
        }
    }
}

/// Catalog metadata for the circular-import rule.
#[verifier::allow_in_spec]
pub fn circular_import_meta() -> RuleMeta
    returns
        (RuleMeta {
            id: "agent-circular-import",
            severity: Severity::Warn,
            category: Category::AgentHygiene,
            help: "This file is part of an import cycle. Cycles couple modules, defeat tree-shaking, and cause initialization-order bugs. Break it: extract the shared types/values into a leaf module, or invert one of the dependencies.",
        }),
{
    RuleMeta {
        id: "agent-circular-import",
        severity: Severity::Warn,
        category: Category::AgentHygiene,
        help: "This file is part of an import cycle. Cycles couple modules, defeat tree-shaking, and cause initialization-order bugs. Break it: extract the shared types/values into a leaf module, or invert one of the dependencies.",
    }
}

/// Catalog metadata for the cross-file circular-import rule.
pub fn metas() -> (metas: Vec<RuleMeta>)
    ensures
        metas@ == seq![circular_import_meta()],
{
    let mut metas: Vec<RuleMeta> = Vec::new();
    metas.push(circular_import_meta());
    metas
}

/// Find the files in import cycles: every member of a strongly-connected
/// component of the import graph with two or more files (files share a
/// component exactly when each imports the other, directly or through other
/// files), paired with the first other member, ordered by file path.
pub fn analyze(files: &Vec<String>, edges: &Vec<ImportEdge>) -> (hits: Vec<CycleHit>)
    ensures
        sorted_by_file(hits@),
        exists|comps: Seq<Seq<usize>>, graph: Seq<Vec<usize>>|
            #![trigger scc_exact(comps, graph)]
            graph.len() == files@.len()
            && (forall|i: int| 0 <= i < graph.len() ==> (#[trigger] graph[i])@ == import_targets(
                paths(files@),
                edges@.map_values(|e: ImportEdge| (e.from@, e.to@)),
                i,
            ))
            && is_partition(comps, files@.len() as nat)
            && scc_exact(comps, graph)
            && hits@.map_values(|h: CycleHit| hit_key(h)).to_multiset() == all_hits(paths(files@), comps).to_multiset()
            && (forall|c: int, i: int|
                0 <= c < comps.len() && 0 <= i < comps[c].len() && comps[c].len() >= 2 ==> flagged(
                    hits@,
                    paths(files@)[#[trigger] comps[c][i] as int],
                    comps[c].len() as usize,
                ))
            && (forall|k: int| 0 <= k < hits@.len() ==> in_cycle(paths(files@), comps, (#[trigger] hits@[k]).file@, hits@[k].size)),
{
    let adjacency = adjacency_of(files, edges);
    let sccs = tarjan_sccs(&adjacency);
    let ghost comps = components(sccs@);
    let ghost fs = paths(files@);
    let mut hits: Vec<CycleHit> = Vec::new();
    let mut c: usize = 0;
    proof {
        assert(comps.take(0) =~= Seq::<Seq<usize>>::empty());
        assert(hits@.map_values(|h: CycleHit| hit_key(h)) =~= Seq::<(Seq<char>, Seq<char>, usize)>::empty());
    }
    while c < sccs.len()
        invariant
            c <= sccs@.len(),
            comps == components(sccs@),
            fs == paths(files@),
            is_partition(comps, files@.len() as nat),
            sorted_by_file(hits@),
            hits@.map_values(|h: CycleHit| hit_key(h)).to_multiset() == all_hits(fs, comps.take(c as int)).to_multiset(),
        decreases sccs@.len() - c,
    {
        let component = &sccs[c];
        let size = component.len();
        let ghost start_multiset = hits@.map_values(|h: CycleHit| hit_key(h)).to_multiset();
        assert(comps.take(c + 1).drop_last() =~= comps.take(c as int));
        assert(comps.take(c + 1).last() == component@);
        if size >= 2 {
            proof {
                lemma_component_no_dup(comps, c as int);
            }
            let mut k: usize = 0;
            proof {
                assert(component_hits(fs, component@).take(0) =~= Seq::<(Seq<char>, Seq<char>, usize)>::empty());
                component_hits(fs, component@).take(0).to_multiset_ensures();
                assert(component_hits(fs, component@).take(0).to_multiset() =~= vstd::multiset::Multiset::empty());
                assert(start_multiset.add(vstd::multiset::Multiset::empty()) =~= start_multiset);
            }
            while k < size
                invariant
                    size == component@.len(),
                    size >= 2,
                    component@.no_duplicates(),
                    k <= size,
                    comps == components(sccs@),
                    component@ == comps[c as int],
                    (c as int) < comps.len(),
                    fs == paths(files@),
                    is_partition(comps, files@.len() as nat),
                    sorted_by_file(hits@),
                    hits@.map_values(|h: CycleHit| hit_key(h)).to_multiset() == start_multiset.add(
                        component_hits(fs, component@).take(k as int).to_multiset(),
                    ),
                decreases size - k,
            {
                let node = component[k];
                let partner = first_other(component, node);
                proof {
                    lemma_flatten_parts(comps, c as int, k as int);
                    lemma_partner_member(component@, node);
                    let j = choose|j: int| 0 <= j < component@.len() && component@[j] == partner;
                    lemma_flatten_parts(comps, c as int, j);
                    let x = choose|i: int| 0 <= i < comps.flatten().len() && comps.flatten()[i] == node;
                    let y = choose|i: int| 0 <= i < comps.flatten().len() && comps.flatten()[i] == partner;
                    assert((comps.flatten()[x] as nat) < files@.len());
                    assert((comps.flatten()[y] as nat) < files@.len());
                }
                let hit = CycleHit { file: files[node].clone(), partner: files[partner].clone(), size };
                proof {
                    assert(hit_key(hit) == component_hits(fs, component@)[k as int]);
                    assert(component_hits(fs, component@).take(k + 1) =~= component_hits(fs, component@).take(k as int).push(hit_key(hit)));
                    component_hits(fs, component@).take(k as int).to_multiset_ensures();
                }
                let ghost key = hit_key(hit);
                let ghost before_insert = hits@.map_values(|h: CycleHit| hit_key(h)).to_multiset();
                insert_by_file(&mut hits, hit);
                proof {
                    let t = component_hits(fs, component@).take(k as int);
                    assert(t.push(key).to_multiset() =~= t.to_multiset().insert(key));
                    assert(start_multiset.add(t.to_multiset()).insert(key) =~= start_multiset.add(t.to_multiset().insert(key)));
                }
                k += 1;
            }
            proof {
                assert(component_hits(fs, component@).take(size as int) =~= component_hits(fs, component@));
                vstd::seq_lib::lemma_multiset_commutative(all_hits(fs, comps.take(c as int)), component_hits(fs, component@));
            }
        } else {
            proof {
                assert(component_hits(fs, component@) =~= Seq::empty());
                assert(all_hits(fs, comps.take(c as int)) + component_hits(fs, component@) =~= all_hits(fs, comps.take(c as int)));
            }
        }
        c += 1;
    }
    assert(comps.take(sccs@.len() as int) =~= comps);
    assert(scc_exact(comps, adjacency@));
    proof {
        lemma_cycle_members_flagged(files@, comps, hits@);
    }
    hits
}

/// `"import cycle (N files) — `file` and `partner` depend on each other; break the cycle"`.
pub open spec fn cycle_message(hit: CycleHit) -> Seq<char> {
    "import cycle ("@ + decimal(hit.size as nat) + " files) — `"@ + hit.file@ + "` and `"@ + hit.partner@
        + "` depend on each other; break the cycle"@
}

/// The diagnostic for a cycle member, reported at line 1, column 1, with
/// `snippet` (the file's first line).
pub fn to_diagnostic(hit: &CycleHit, snippet: String) -> (d: Diagnostic)
    ensures
        d.rule == circular_import_meta().id,
        d.severity == circular_import_meta().severity,
        d.category == circular_import_meta().category,
        d.help == circular_import_meta().help,
        d.message@ == cycle_message(*hit),
        d.file@ == hit.file@,
        d.file_context == classify_spec(hit.file@),
        d.line == 1,
        d.column == 1,
        d.snippet == snippet,
{
    let file_context = match is_test_file(hit.file.as_str()) {
        true => FileContext::Test,
        false => FileContext::Production,
    };
    let mut message = String::new();
    push_str(&mut message, "import cycle (");
    let count = to_decimal(hit.size as u64);
    push_str(&mut message, count.as_str());
    push_str(&mut message, " files) — `");
    push_str(&mut message, hit.file.as_str());
    push_str(&mut message, "` and `");
    push_str(&mut message, hit.partner.as_str());
    push_str(&mut message, "` depend on each other; break the cycle");
    let meta = circular_import_meta();
    Diagnostic::from_meta(&meta, message, hit.file.clone(), file_context, 1, 1, snippet)
}


proof fn lemma_all_hits_has(files: Seq<Seq<char>>, comps: Seq<Seq<usize>>, c: int, i: int)
    requires
        0 <= c < comps.len(),
        0 <= i < comps[c].len(),
        comps[c].len() >= 2,
    ensures
        all_hits(files, comps).contains(component_hits(files, comps[c])[i]),
        component_hits(files, comps[c])[i].0 == files[comps[c][i] as int],
        component_hits(files, comps[c])[i].2 == comps[c].len() as usize,
    decreases comps.len(),
{
    let prior = all_hits(files, comps.drop_last());
    let last = component_hits(files, comps.last());
    assert(all_hits(files, comps) == prior + last);
    if c == comps.len() - 1 {
        assert((prior + last)[prior.len() + i] == last[i]);
    } else {
        assert(comps.drop_last()[c] == comps[c]);
        lemma_all_hits_has(files, comps.drop_last(), c, i);
        let k = choose|k: int| 0 <= k < prior.len() && prior[k] == component_hits(files, comps[c])[i];
        assert((prior + last)[k] == prior[k]);
    }
}

proof fn lemma_all_hits_from(files: Seq<Seq<char>>, comps: Seq<Seq<usize>>, k: int)
    requires
        0 <= k < all_hits(files, comps).len(),
    ensures
        exists|c: int, i: int|
            0 <= c < comps.len() && 0 <= i < comps[c].len() && comps[c].len() >= 2 && #[trigger] all_hits(files, comps)[k]
                == (files[comps[c][i] as int], files[partner_of(comps[c], comps[c][i]) as int], comps[c].len() as usize),
    decreases comps.len(),
{
    let prior = all_hits(files, comps.drop_last());
    let last = component_hits(files, comps.last());
    assert(all_hits(files, comps) == prior + last);
    if k < prior.len() {
        lemma_all_hits_from(files, comps.drop_last(), k);
        let (c, i) = choose|c: int, i: int|
            0 <= c < comps.drop_last().len() && 0 <= i < comps.drop_last()[c].len() && comps.drop_last()[c].len() >= 2
                && #[trigger] prior[k] == (
                files[comps.drop_last()[c][i] as int],
                files[partner_of(comps.drop_last()[c], comps.drop_last()[c][i]) as int],
                comps.drop_last()[c].len() as usize,
            );
        assert(comps.drop_last()[c] == comps[c]);
        assert(all_hits(files, comps)[k] == prior[k]);
    } else {
        let c = comps.len() - 1;
        let i = k - prior.len();
        assert(all_hits(files, comps)[k] == last[i]);
        assert(comps[c] == comps.last());
    }
}

/// Some hit flags `file` with cycle size `size`.
pub open spec fn flagged(hits: Seq<CycleHit>, file: Seq<char>, size: usize) -> bool {
    exists|k: int| 0 <= k < hits.len() && #[trigger] hits[k].file@ == file && hits[k].size == size
}

/// `file` is a member of a component of two or more files, of size `size`.
pub open spec fn in_cycle(files: Seq<Seq<char>>, comps: Seq<Seq<usize>>, file: Seq<char>, size: usize) -> bool {
    exists|c: int, i: int|
        0 <= c < comps.len() && 0 <= i < comps[c].len() && comps[c].len() >= 2 && file == files[#[trigger] comps[c][i] as int]
            && size == comps[c].len() as usize
}

/// Every file of a strongly-connected component with two or more files, of
/// any size, is flagged with that component's size, and every hit is such a
/// file: `analyze` gives hits in this relation to the components it names.
pub proof fn lemma_cycle_members_flagged(files: Seq<String>, comps: Seq<Seq<usize>>, hits: Seq<CycleHit>)
    requires
        hits.map_values(|h: CycleHit| hit_key(h)).to_multiset() == all_hits(paths(files), comps).to_multiset(),
    ensures
        forall|c: int, i: int|
            0 <= c < comps.len() && 0 <= i < comps[c].len() && comps[c].len() >= 2 ==> flagged(
                hits,
                paths(files)[#[trigger] comps[c][i] as int],
                comps[c].len() as usize,
            ),
        forall|k: int| 0 <= k < hits.len() ==> in_cycle(paths(files), comps, (#[trigger] hits[k]).file@, hits[k].size),
{
    broadcast use vstd::seq_lib::to_multiset_contains;

    let fs = paths(files);
    let keys = hits.map_values(|h: CycleHit| hit_key(h));
    let all = all_hits(fs, comps);
    assert forall|c: int, i: int|
        0 <= c < comps.len() && 0 <= i < comps[c].len() && comps[c].len() >= 2 implies flagged(
            hits,
            fs[#[trigger] comps[c][i] as int],
            comps[c].len() as usize,
        ) by {
        lemma_all_hits_has(fs, comps, c, i);
        let x = component_hits(fs, comps[c])[i];
        assert(all.to_multiset().count(x) > 0);
        assert(keys.to_multiset().count(x) > 0);
        assert(keys.contains(x));
        let k = choose|k: int| 0 <= k < keys.len() && keys[k] == x;
        assert(keys[k] == hit_key(hits[k]));
        assert(hits[k].file@ == fs[comps[c][i] as int]);
    }
    assert forall|k: int| 0 <= k < hits.len() implies in_cycle(fs, comps, (#[trigger] hits[k]).file@, hits[k].size) by {
        let x = keys[k];
        assert(keys.contains(x));
        assert(keys.to_multiset().count(x) > 0);
        assert(all.to_multiset().count(x) > 0);
        assert(all.contains(x));
        let m = choose|m: int| 0 <= m < all.len() && all[m] == x;
        lemma_all_hits_from(fs, comps, m);
        let (c, i) = choose|c: int, i: int|
            0 <= c < comps.len() && 0 <= i < comps[c].len() && comps[c].len() >= 2 && #[trigger] all[m] == (
                fs[comps[c][i] as int],
                fs[partner_of(comps[c], comps[c][i]) as int],
                comps[c].len() as usize,
            );
        assert(x == hit_key(hits[k]));
        assert(hits[k].file@ == fs[comps[c][i] as int]);
    }
}

} // verus!
