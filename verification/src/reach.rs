//! Reachability in a directed graph given as adjacency lists: paths, the
//! strongly-connected relation, a breadth-first marking of what a node
//! reaches, and the reversed graph.
use vstd::prelude::*;

use crate::cycles::lemma_flatten_parts;
use crate::scc::{adjacency_ok, components, filled_bool, filled_usize, lemma_distinct_below};

verus! {

/// `u -> v` is an edge of the graph.
pub open spec fn edge(adj: Seq<Vec<usize>>, u: usize, v: usize) -> bool {
    (u as int) < adj.len() && adj[u as int]@.contains(v)
}

/// `p` is a non-empty walk along edges of the graph.
pub open spec fn is_path(adj: Seq<Vec<usize>>, p: Seq<usize>) -> bool {
    &&& p.len() > 0
    &&& forall|i: int| 0 <= i < p.len() ==> (#[trigger] p[i] as int) < adj.len()
    &&& forall|i: int, j: int| #![trigger p[i], p[j]] 0 <= i && j == i + 1 && j < p.len() ==> edge(adj, p[i], p[j])
}

/// Some path leads from `u` to `v`.
pub open spec fn reaches(adj: Seq<Vec<usize>>, u: usize, v: usize) -> bool {
    exists|p: Seq<usize>| #[trigger] is_path(adj, p) && p[0] == u && p.last() == v
}

/// `u` and `v` reach each other: they lie in one strongly-connected component.
pub open spec fn same_scc(adj: Seq<Vec<usize>>, u: usize, v: usize) -> bool {
    reaches(adj, u, v) && reaches(adj, v, u)
}

/// `rev` is `adj` with every edge turned around.
pub open spec fn reverse_of(adj: Seq<Vec<usize>>, rev: Seq<Vec<usize>>) -> bool {
    &&& rev.len() == adj.len()
    &&& forall|u: usize, v: usize| #[trigger] edge(rev, v, u) <==> edge(adj, u, v)
}

/// A node reaches itself.
pub proof fn lemma_reach_self(adj: Seq<Vec<usize>>, u: usize)
    requires
        (u as int) < adj.len(),
    ensures
        reaches(adj, u, u),
{
    let p = seq![u];
    assert(is_path(adj, p));
}

/// Following an edge extends what a node reaches.
pub proof fn lemma_reach_step(adj: Seq<Vec<usize>>, u: usize, v: usize, w: usize)
    requires
        reaches(adj, u, v),
        edge(adj, v, w),
        (w as int) < adj.len(),
    ensures
        reaches(adj, u, w),
{
    let p = choose|p: Seq<usize>| #[trigger] is_path(adj, p) && p[0] == u && p.last() == v;
    let q = p.push(w);
    assert forall|i: int, j: int| #![trigger q[i], q[j]] 0 <= i && j == i + 1 && j < q.len() implies edge(adj, q[i], q[j]) by {
        if j < p.len() {
            assert(q[i] == p[i] && q[j] == p[j]);
        } else {
            assert(q[i] == p.last());
        }
    }
    assert forall|i: int| 0 <= i < q.len() implies (#[trigger] q[i] as int) < adj.len() by {
        if i < p.len() {
            assert(q[i] == p[i]);
        }
    }
    assert(is_path(adj, q));
}

/// Reaching is transitive.
pub proof fn lemma_reach_trans(adj: Seq<Vec<usize>>, u: usize, v: usize, w: usize)
    requires
        reaches(adj, u, v),
        reaches(adj, v, w),
    ensures
        reaches(adj, u, w),
{
    let p = choose|p: Seq<usize>| #[trigger] is_path(adj, p) && p[0] == u && p.last() == v;
    let r = choose|r: Seq<usize>| #[trigger] is_path(adj, r) && r[0] == v && r.last() == w;
    let tail = r.drop_first();
    let q = p + tail;
    assert forall|i: int| 0 <= i < q.len() implies (#[trigger] q[i] as int) < adj.len() by {
        if i < p.len() {
            assert(q[i] == p[i]);
        } else {
            assert(q[i] == r[i - p.len() + 1]);
        }
    }
    assert forall|i: int, j: int| #![trigger q[i], q[j]] 0 <= i && j == i + 1 && j < q.len() implies edge(adj, q[i], q[j]) by {
        if j < p.len() {
            assert(q[i] == p[i] && q[j] == p[j]);
        } else if i < p.len() {
            assert(q[i] == p.last());
            assert(q[j] == r[1]);
            assert(r[0] == v);
        } else {
            assert(q[i] == r[i - p.len() + 1]);
            assert(q[j] == r[j - p.len() + 1]);
        }
    }
    assert(is_path(adj, q));
    if tail.len() == 0 {
        assert(q.last() == p.last());
    } else {
        assert(q.last() == r.last());
    }
}

/// A path in the reversed graph is a path of the graph read backwards.
pub proof fn lemma_reach_reverse(adj: Seq<Vec<usize>>, rev: Seq<Vec<usize>>, u: usize, v: usize)
    requires
        reverse_of(adj, rev),
        reaches(rev, u, v),
    ensures
        reaches(adj, v, u),
{
    let p = choose|p: Seq<usize>| #[trigger] is_path(rev, p) && p[0] == u && p.last() == v;
    let q = p.reverse();
    assert forall|i: int| 0 <= i < q.len() implies (#[trigger] q[i] as int) < adj.len() by {
        assert(q[i] == p[p.len() - 1 - i]);
    }
    assert forall|i: int, j: int| #![trigger q[i], q[j]] 0 <= i && j == i + 1 && j < q.len() implies edge(adj, q[i], q[j]) by {
        let a = p.len() - 1 - j;
        let b = p.len() - 1 - i;
        assert(q[i] == p[b] && q[j] == p[a]);
        assert(edge(rev, p[a], p[b]));
    }
    assert(is_path(adj, q));
    assert(q[0] == v);
    assert(q.last() == u);
}

/// Along a path, a rank that no edge increases does not increase.
pub proof fn lemma_path_rank(adj: Seq<Vec<usize>>, rank: Seq<usize>, p: Seq<usize>)
    requires
        is_path(adj, p),
        rank.len() == adj.len(),
        forall|u: usize, v: usize| #[trigger] edge(adj, u, v) ==> rank[v as int] <= rank[u as int],
    ensures
        rank[p.last() as int] <= rank[p[0] as int],
    decreases p.len(),
{
    if p.len() > 1 {
        let q = p.drop_last();
        assert forall|i: int, j: int| #![trigger q[i], q[j]] 0 <= i && j == i + 1 && j < q.len() implies edge(adj, q[i], q[j]) by {
            assert(q[i] == p[i] && q[j] == p[j]);
        }
        assert forall|i: int| 0 <= i < q.len() implies (#[trigger] q[i] as int) < adj.len() by {
            assert(q[i] == p[i]);
        }
        lemma_path_rank(adj, rank, q);
        let a = p.len() - 2;
        let b = p.len() - 1;
        assert(p[a] == q.last());
        assert(edge(adj, p[a], p[b]));
    }
}

/// A set of nodes closed under edges holds everything its members reach.
pub proof fn lemma_closed_reach(adj: Seq<Vec<usize>>, marks: Seq<bool>, p: Seq<usize>)
    requires
        is_path(adj, p),
        marks.len() == adj.len(),
        marks[p[0] as int],
        forall|u: usize, v: usize| marks[u as int] && #[trigger] edge(adj, u, v) ==> marks[v as int],
    ensures
        marks[p.last() as int],
    decreases p.len(),
{
    if p.len() > 1 {
        let q = p.drop_last();
        assert forall|i: int, j: int| #![trigger q[i], q[j]] 0 <= i && j == i + 1 && j < q.len() implies edge(adj, q[i], q[j]) by {
            assert(q[i] == p[i] && q[j] == p[j]);
        }
        assert forall|i: int| 0 <= i < q.len() implies (#[trigger] q[i] as int) < adj.len() by {
            assert(q[i] == p[i]);
        }
        lemma_closed_reach(adj, marks, q);
        let a = p.len() - 2;
        let b = p.len() - 1;
        assert(p[a] == q.last());
        assert(edge(adj, p[a], p[b]));
    }
}

/// The graph with every edge turned around.
pub fn reverse_adjacency(adj: &Vec<Vec<usize>>) -> (rev: Vec<Vec<usize>>)
    requires
        adjacency_ok(adj@),
    ensures
        reverse_of(adj@, rev@),
        adjacency_ok(rev@),
{
    let n = adj.len();
    let mut rev: Vec<Vec<usize>> = Vec::new();
    while rev.len() < n
        invariant
            rev@.len() <= n,
            forall|v: int| 0 <= v < rev@.len() ==> (#[trigger] rev@[v])@.len() == 0,
        decreases n - rev@.len(),
    {
        rev.push(Vec::new());
    }
    let mut u: usize = 0;
    while u < n
        invariant
            n == adj@.len(),
            adjacency_ok(adj@),
            rev@.len() == n,
            u <= n,
            forall|a: int, b: int| 0 <= a < n && 0 <= b < rev@[a]@.len() ==> (#[trigger] rev@[a]@[b] as int) < n,
            forall|x: usize, y: usize| #[trigger] edge(rev@, y, x) <==> ((x as int) < u && edge(adj@, x, y)),
        decreases n - u,
    {
        let mut k: usize = 0;
        let ghost before_u = rev@;
        while k < adj[u].len()
            invariant
                n == adj@.len(),
                adjacency_ok(adj@),
                rev@.len() == n,
                u < n,
                k <= adj@[u as int]@.len(),
                forall|a: int, b: int| 0 <= a < n && 0 <= b < rev@[a]@.len() ==> (#[trigger] rev@[a]@[b] as int) < n,
                forall|x: usize, y: usize| #[trigger] edge(rev@, y, x) <==> (((x as int) < u && edge(adj@, x, y))
                    || (x == u && adj@[u as int]@.take(k as int).contains(y))),
            decreases adj@[u as int]@.len() - k,
        {
            let v = adj[u][k];
            assert(v < n);
            let ghost old_rev = rev@;
            rev[v].push(u);
            proof {
                assert(adj@[u as int]@.take(k + 1) =~= adj@[u as int]@.take(k as int).push(v));
                assert forall|x: usize, y: usize| #[trigger] edge(rev@, y, x) <==> (((x as int) < u && edge(adj@, x, y))
                    || (x == u && adj@[u as int]@.take(k + 1).contains(y))) by {
                    let t0 = adj@[u as int]@.take(k as int);
                    let t1 = adj@[u as int]@.take(k + 1);
                    assert(t1[k as int] == v);
                    assert(edge(old_rev, y, x) <==> (((x as int) < u && edge(adj@, x, y)) || (x == u && t0.contains(y))));
                    if y != v {
                        if t1.contains(y) {
                            let i = choose|i: int| 0 <= i < t1.len() && #[trigger] t1[i] == y;
                            assert(t0[i] == y);
                        }
                        if t0.contains(y) {
                            let i = choose|i: int| 0 <= i < t0.len() && #[trigger] t0[i] == y;
                            assert(t1[i] == y);
                        }
                    }
                    if y == v {
                        assert(rev@[v as int]@ == old_rev[v as int]@.push(u));
                        if old_rev[v as int]@.contains(x) {
                            let i = choose|i: int| 0 <= i < old_rev[v as int]@.len() && old_rev[v as int]@[i] == x;
                            assert(rev@[v as int]@[i] == x);
                        }
                        if rev@[v as int]@.contains(x) && x != u {
                            let i = choose|i: int| 0 <= i < rev@[v as int]@.len() && rev@[v as int]@[i] == x;
                            assert(old_rev[v as int]@[i] == x);
                        }
                        assert(rev@[v as int]@[old_rev[v as int]@.len() as int] == u);
                    } else if (y as int) < n {
                        assert(rev@[y as int] == old_rev[y as int]);
                    } else {
                        if edge(adj@, x, y) {
                            let i = choose|i: int| 0 <= i < adj@[x as int]@.len() && adj@[x as int]@[i] == y;
                        }
                        if adj@[u as int]@.take(k + 1).contains(y) {
                            let i = choose|i: int| 0 <= i < k + 1 && #[trigger] adj@[u as int]@.take(k + 1)[i] == y;
                            assert(adj@[u as int]@[i] == y);
                        }
                    }
                }
                assert forall|a: int, b: int| 0 <= a < n && 0 <= b < rev@[a]@.len() implies (#[trigger] rev@[a]@[b] as int) < n by {
                    if a == v as int && b == old_rev[a]@.len() {
                    } else if a == v as int {
                        assert(rev@[a]@[b] == old_rev[a]@[b]);
                    }
                }
            }
            k += 1;
        }
        proof {
            assert(adj@[u as int]@.take(adj@[u as int]@.len() as int) =~= adj@[u as int]@);
        }
        u += 1;
    }
    rev
}

/// Which nodes a breadth-first walk from a start node may enter: every node,
/// or only those of one component.
pub open spec fn allowed(comp_of: Seq<usize>, limit: Option<usize>, v: usize) -> bool {
    match limit {
        None => true,
        Some(c) => comp_of[v as int] == c,
    }
}

/// Mark the nodes a breadth-first walk from `start` visits, entering only
/// the allowed nodes. Every marked node is reached from `start`, and the
/// marks are closed under edges into allowed nodes.
pub fn mark_reachable(adj: &Vec<Vec<usize>>, start: usize, comp_of: &Vec<usize>, limit: Option<usize>) -> (marks: Vec<bool>)
    requires
        adjacency_ok(adj@),
        (start as int) < adj@.len(),
        comp_of@.len() == adj@.len(),
    ensures
        marks@.len() == adj@.len(),
        marks@[start as int],
        forall|v: usize| (v as int) < adj@.len() && #[trigger] marks@[v as int] ==> reaches(adj@, start, v),
        forall|u: usize, v: usize|
            marks@[u as int] && #[trigger] edge(adj@, u, v) && allowed(comp_of@, limit, v) ==> marks@[v as int],
{
    let n = adj.len();
    let mut marks = filled_bool(n, false);
    marks.set(start, true);
    let mut queue: Vec<usize> = Vec::new();
    queue.push(start);
    let mut head: usize = 0;
    proof {
        lemma_reach_self(adj@, start);
        assert forall|v: usize| (v as int) < n implies (#[trigger] marks@[v as int] <==> queue@.contains(v)) by {
            assert(queue@[0] == start);
            if queue@.contains(v) {
                let i = choose|i: int| 0 <= i < queue@.len() && queue@[i] == v;
            }
        }
    }
    while head < queue.len()
        invariant
            n == adj@.len(),
            adjacency_ok(adj@),
            (start as int) < n,
            comp_of@.len() == n,
            marks@.len() == n,
            marks@[start as int],
            head <= queue@.len(),
            queue@.no_duplicates(),
            forall|k: int| 0 <= k < queue@.len() ==> (#[trigger] queue@[k] as int) < n,
            forall|v: usize| (v as int) < n ==> (#[trigger] marks@[v as int] <==> queue@.contains(v)),
            forall|v: usize| (v as int) < n && #[trigger] marks@[v as int] ==> reaches(adj@, start, v),
            forall|k: int, v: usize|
                0 <= k < head && #[trigger] edge(adj@, queue@[k], v) && allowed(comp_of@, limit, v) ==> marks@[v as int],
        decreases n - head,
    {
        proof {
            lemma_distinct_below(queue@, n as nat);
        }
        let u = queue[head];
        let mut e: usize = 0;
        while e < adj[u].len()
            invariant
                n == adj@.len(),
                adjacency_ok(adj@),
                (start as int) < n,
                comp_of@.len() == n,
                marks@.len() == n,
                marks@[start as int],
                head < queue@.len(),
                u == queue@[head as int],
                (u as int) < n,
                e <= adj@[u as int]@.len(),
                queue@.no_duplicates(),
                forall|k: int| 0 <= k < queue@.len() ==> (#[trigger] queue@[k] as int) < n,
                forall|v: usize| (v as int) < n ==> (#[trigger] marks@[v as int] <==> queue@.contains(v)),
                forall|v: usize| (v as int) < n && #[trigger] marks@[v as int] ==> reaches(adj@, start, v),
                forall|k: int, v: usize|
                    0 <= k < head && #[trigger] edge(adj@, queue@[k], v) && allowed(comp_of@, limit, v) ==> marks@[v as int],
                forall|j: int| 0 <= j < e && allowed(comp_of@, limit, #[trigger] adj@[u as int]@[j]) ==> marks@[adj@[u as int]@[j] as int],
            decreases adj@[u as int]@.len() - e,
        {
            let v = adj[u][e];
            let ok = match limit {
                None => true,
                Some(c) => comp_of[v] == c,
            };
            if ok && !marks[v] {
                proof {
                    assert(edge(adj@, u, v)) by {
                        assert(adj@[u as int]@[e as int] == v);
                    }
                    assert(marks@[u as int]) by {
                        assert(queue@.contains(u));
                    }
                    lemma_reach_step(adj@, start, u, v);
                }
                let ghost old_queue = queue@;
                marks.set(v, true);
                queue.push(v);
                proof {
                    assert forall|x: usize| (x as int) < n implies (#[trigger] marks@[x as int] <==> queue@.contains(x)) by {
                        if x != v {
                            if queue@.contains(x) {
                                let i = choose|i: int| 0 <= i < queue@.len() && queue@[i] == x;
                                assert(old_queue[i] == x);
                            }
                            if old_queue.contains(x) {
                                let i = choose|i: int| 0 <= i < old_queue.len() && old_queue[i] == x;
                                assert(queue@[i] == x);
                            }
                        } else {
                            assert(queue@[queue@.len() - 1] == v);
                        }
                    }
                    assert forall|a: int, b: int| 0 <= a < queue@.len() && 0 <= b < queue@.len() && a != b implies queue@[a] != queue@[b] by {
                        if a < old_queue.len() && b < old_queue.len() {
                            assert(queue@[a] == old_queue[a] && queue@[b] == old_queue[b]);
                        } else if a < old_queue.len() {
                            assert(queue@[a] == old_queue[a]);
                            assert(old_queue.contains(old_queue[a]));
                        } else {
                            assert(queue@[b] == old_queue[b]);
                            assert(old_queue.contains(old_queue[b]));
                        }
                    }
                    assert forall|k: int| 0 <= k < queue@.len() implies (#[trigger] queue@[k] as int) < n by {
                        if k < old_queue.len() {
                            assert(queue@[k] == old_queue[k]);
                        }
                    }
                    assert forall|k: int, x: usize|
                        0 <= k < head && #[trigger] edge(adj@, queue@[k], x) && allowed(comp_of@, limit, x) implies marks@[x as int] by {
                        assert(queue@[k] == old_queue[k]);
                    }
                }
            }
            e += 1;
        }
        proof {
            assert forall|k: int, v: usize|
                0 <= k < head + 1 && #[trigger] edge(adj@, queue@[k], v) && allowed(comp_of@, limit, v) implies marks@[v as int] by {
                if k == head {
                    let j = choose|j: int| 0 <= j < adj@[u as int]@.len() && adj@[u as int]@[j] == v;
                }
            }
        }
        head += 1;
    }
    proof {
        assert forall|x: usize, v: usize|
            marks@[x as int] && #[trigger] edge(adj@, x, v) && allowed(comp_of@, limit, v) implies marks@[v as int] by {
            assert((x as int) < n);
            assert(queue@.contains(x));
            let k = choose|k: int| 0 <= k < queue@.len() && queue@[k] == x;
        }
    }
    marks
}

/// The endpoints of a path lie in the graph.
pub proof fn lemma_reach_bounds(adj: Seq<Vec<usize>>, u: usize, v: usize)
    requires
        reaches(adj, u, v),
    ensures
        (u as int) < adj.len(),
        (v as int) < adj.len(),
{
    let p = choose|p: Seq<usize>| #[trigger] is_path(adj, p) && p[0] == u && p.last() == v;
    assert(p[0] == u);
    assert(p[p.len() - 1] == v);
}

/// Turning the edges around twice gives the graph back.
pub proof fn lemma_reverse_symmetric(adj: Seq<Vec<usize>>, rev: Seq<Vec<usize>>)
    requires
        reverse_of(adj, rev),
    ensures
        reverse_of(rev, adj),
{
    assert forall|u: usize, v: usize| #[trigger] edge(adj, v, u) <==> edge(rev, u, v) by {
        assert(edge(rev, u, v) <==> edge(adj, v, u));
    }
}

/// `comps` are exactly the strongly-connected components of the graph: two
/// nodes share a component if and only if they reach each other.
pub open spec fn scc_exact(comps: Seq<Seq<usize>>, adj: Seq<Vec<usize>>) -> bool {
    &&& forall|c: int, x: usize, y: usize|
        #![trigger comps[c].contains(x), comps[c].contains(y)]
        0 <= c < comps.len() && comps[c].contains(x) && comps[c].contains(y) ==> same_scc(adj, x, y)
    &&& forall|c: int, d: int, x: usize, y: usize|
        #![trigger comps[c].contains(x), comps[d].contains(y)]
        0 <= c < comps.len() && 0 <= d < comps.len() && comps[c].contains(x) && comps[d].contains(y) && same_scc(adj, x, y)
            ==> c == d
}

/// Some component holds `v`.
pub open spec fn listed(comps: Seq<Seq<usize>>, v: usize) -> bool {
    exists|c: int| 0 <= c < comps.len() && #[trigger] comps[c].contains(v)
}

/// `comps` are the strongly-connected components, each node in exactly one,
/// listed so that every edge leads to a component listed no later than its
/// source's (the order in which Tarjan's algorithm emits them).
pub open spec fn topo_partition(comps: Seq<Seq<usize>>, adj: Seq<Vec<usize>>) -> bool {
    &&& forall|c: int, d: int, i: int, j: int|
        #![trigger comps[c][i], comps[d][j]]
        0 <= c < comps.len() && 0 <= d < comps.len() && 0 <= i < comps[c].len() && 0 <= j < comps[d].len() && comps[c][i]
            == comps[d][j] ==> c == d
    &&& forall|v: usize| (v as int) < adj.len() ==> #[trigger] listed(comps, v)
    &&& scc_exact(comps, adj)
    &&& forall|c: int, d: int, x: usize, y: usize|
        #![trigger comps[c].contains(x), comps[d].contains(y), edge(adj, x, y)]
        0 <= c < comps.len() && 0 <= d < comps.len() && comps[c].contains(x) && comps[d].contains(y) && edge(adj, x, y)
            ==> d <= c
}

/// A path read backwards in the reversed graph.
proof fn lemma_path_reverse(adj: Seq<Vec<usize>>, rev: Seq<Vec<usize>>, p: Seq<usize>)
    requires
        reverse_of(adj, rev),
        is_path(rev, p),
    ensures
        is_path(adj, p.reverse()),
{
    let q = p.reverse();
    assert forall|i: int| 0 <= i < q.len() implies (#[trigger] q[i] as int) < adj.len() by {
        assert(q[i] == p[p.len() - 1 - i]);
    }
    assert forall|i: int, j: int| #![trigger q[i], q[j]] 0 <= i && j == i + 1 && j < q.len() implies edge(adj, q[i], q[j]) by {
        let a = p.len() - 1 - j;
        let b = p.len() - 1 - i;
        assert(q[i] == p[b] && q[j] == p[a]);
        assert(edge(rev, p[a], p[b]));
    }
}

/// The start of a path reaches each of its nodes, and each node reaches its end.
proof fn lemma_path_node(adj: Seq<Vec<usize>>, p: Seq<usize>, i: int)
    requires
        is_path(adj, p),
        0 <= i < p.len(),
    ensures
        reaches(adj, p[0], p[i]),
        reaches(adj, p[i], p.last()),
{
    let front = p.take(i + 1);
    assert forall|a: int| 0 <= a < front.len() implies (#[trigger] front[a] as int) < adj.len() by {
        assert(front[a] == p[a]);
    }
    assert forall|a: int, b: int| #![trigger front[a], front[b]] 0 <= a && b == a + 1 && b < front.len() implies edge(adj, front[a], front[b]) by {
        assert(front[a] == p[a] && front[b] == p[b]);
    }
    assert(is_path(adj, front) && front[0] == p[0] && front.last() == p[i]);
    let back = p.skip(i);
    assert forall|a: int| 0 <= a < back.len() implies (#[trigger] back[a] as int) < adj.len() by {
        assert(back[a] == p[a + i]);
    }
    assert forall|a: int, b: int| #![trigger back[a], back[b]] 0 <= a && b == a + 1 && b < back.len() implies edge(adj, back[a], back[b]) by {
        assert(back[a] == p[a + i] && back[b] == p[b + i]);
    }
    assert(is_path(adj, back) && back[0] == p[i] && back.last() == p.last());
}

/// The component a node of the graph belongs to.
proof fn lemma_owner(comps: Seq<Seq<usize>>, adj: Seq<Vec<usize>>, comp_of: Seq<usize>, v: usize) -> (c: int)
    requires
        topo_partition(comps, adj),
        (v as int) < adj.len(),
        forall|d: int, i: int| 0 <= d < comps.len() && 0 <= i < comps[d].len() ==> comp_of[#[trigger] comps[d][i] as int] == d,
    ensures
        0 <= c < comps.len(),
        comps[c].contains(v),
        comp_of[v as int] == c,
{
    assert(listed(comps, v));
    let c = choose|c: int| 0 <= c < comps.len() && #[trigger] comps[c].contains(v);
    let i = choose|i: int| 0 <= i < comps[c].len() && comps[c][i] == v;
    assert(comp_of[comps[c][i] as int] == c);
    c
}

/// Every node of a path between two members of a component lies in it.
proof fn lemma_path_in_component(comps: Seq<Seq<usize>>, adj: Seq<Vec<usize>>, comp_of: Seq<usize>, c: int, p: Seq<usize>, i: int)
    requires
        topo_partition(comps, adj),
        forall|d: int, j: int| 0 <= d < comps.len() && 0 <= j < comps[d].len() ==> comp_of[#[trigger] comps[d][j] as int] == d,
        0 <= c < comps.len(),
        is_path(adj, p),
        comps[c].contains(p[0]),
        comps[c].contains(p.last()),
        0 <= i < p.len(),
    ensures
        comp_of[p[i] as int] == c,
{
    lemma_path_node(adj, p, i);
    assert(same_scc(adj, p[0], p.last()));
    lemma_reach_trans(adj, p[i], p.last(), p[0]);
    let d = lemma_owner(comps, adj, comp_of, p[i]);
    assert(same_scc(adj, p[0], p[i]));
}

/// Marks closed under edges into one component hold every node of a path
/// inside that component from a marked start.
proof fn lemma_closed_within(g: Seq<Vec<usize>>, marks: Seq<bool>, comp_of: Seq<usize>, c: usize, p: Seq<usize>)
    requires
        is_path(g, p),
        marks.len() == g.len(),
        marks[p[0] as int],
        forall|i: int| 0 <= i < p.len() ==> comp_of[#[trigger] p[i] as int] == c,
        forall|u: usize, v: usize| marks[u as int] && #[trigger] edge(g, u, v) && allowed(comp_of, Some(c), v) ==> marks[v as int],
    ensures
        marks[p.last() as int],
    decreases p.len(),
{
    if p.len() > 1 {
        let q = p.drop_last();
        assert forall|i: int, j: int| #![trigger q[i], q[j]] 0 <= i && j == i + 1 && j < q.len() implies edge(g, q[i], q[j]) by {
            assert(q[i] == p[i] && q[j] == p[j]);
        }
        assert forall|i: int| 0 <= i < q.len() implies (#[trigger] q[i] as int) < g.len() by {
            assert(q[i] == p[i]);
        }
        assert forall|i: int| 0 <= i < q.len() implies comp_of[#[trigger] q[i] as int] == c by {
            assert(q[i] == p[i]);
        }
        lemma_closed_within(g, marks, comp_of, c, q);
        let a = p.len() - 2;
        let b = p.len() - 1;
        assert(p[a] == q.last());
        assert(edge(g, p[a], p[b]));
        assert(comp_of[p[b] as int] == c);
    }
}

/// In a listing of the components in emit order, the marks from a
/// component's first member, forward and backward within the component,
/// hold each of its members.
proof fn lemma_member_marked(
    adj: Seq<Vec<usize>>,
    rev: Seq<Vec<usize>>,
    comps: Seq<Seq<usize>>,
    comp_of: Seq<usize>,
    c: usize,
    m: usize,
    forward: Seq<bool>,
    backward: Seq<bool>,
)
    requires
        reverse_of(adj, rev),
        topo_partition(comps, adj),
        comp_of.len() == adj.len(),
        forall|d: int, i: int| 0 <= d < comps.len() && 0 <= i < comps[d].len() ==> comp_of[#[trigger] comps[d][i] as int] == d,
        (c as int) < comps.len(),
        comps[c as int].len() > 0,
        comps[c as int].contains(m),
        forward.len() == adj.len(),
        backward.len() == adj.len(),
        forward[comps[c as int][0] as int],
        backward[comps[c as int][0] as int],
        forall|u: usize, v: usize| forward[u as int] && #[trigger] edge(adj, u, v) && allowed(comp_of, Some(c), v) ==> forward[v as int],
        forall|u: usize, v: usize| backward[u as int] && #[trigger] edge(rev, u, v) && allowed(comp_of, Some(c), v) ==> backward[v as int],
    ensures
        forward[m as int],
        backward[m as int],
{
    let r = comps[c as int][0];
    assert(comps[c as int].contains(r));
    assert(same_scc(adj, r, m));
    let p = choose|p: Seq<usize>| #[trigger] is_path(adj, p) && p[0] == r && p.last() == m;
    assert forall|i: int| 0 <= i < p.len() implies comp_of[#[trigger] p[i] as int] == c by {
        lemma_path_in_component(comps, adj, comp_of, c as int, p, i);
    }
    lemma_closed_within(adj, forward, comp_of, c, p);
    let q = choose|q: Seq<usize>| #[trigger] is_path(adj, q) && q[0] == m && q.last() == r;
    lemma_reverse_symmetric(adj, rev);
    lemma_path_reverse(rev, adj, q);
    let b = q.reverse();
    assert forall|i: int| 0 <= i < b.len() implies comp_of[#[trigger] b[i] as int] == c by {
        assert(b[i] == q[q.len() - 1 - i]);
        lemma_path_in_component(comps, adj, comp_of, c as int, q, q.len() - 1 - i);
    }
    assert(b[0] == r);
    assert(b.last() == m);
    lemma_closed_within(rev, backward, comp_of, c, b);
}

/// Confirm that `sccs` are exactly the strongly-connected components: every
/// edge leads to a component listed no later than its source's, and within
/// each component the first member reaches, and is reached by, every other.
pub fn certify_sccs(adj: &Vec<Vec<usize>>, rev: &Vec<Vec<usize>>, sccs: &Vec<Vec<usize>>) -> (ok: bool)
    requires
        adjacency_ok(adj@),
        adjacency_ok(rev@),
        reverse_of(adj@, rev@),
        forall|c: int| 0 <= c < sccs@.len() ==> (#[trigger] sccs@[c])@.len() > 0,
        forall|c: int, i: int| 0 <= c < sccs@.len() && 0 <= i < sccs@[c]@.len() ==> (#[trigger] sccs@[c]@[i] as int) < adj@.len(),
    ensures
        ok ==> scc_exact(components(sccs@), adj@),
        ok ==> emit_ordered(components(sccs@), adj@),
        topo_partition(components(sccs@), adj@) ==> ok,
{
    let n = adj.len();
    let ghost comps = components(sccs@);
    let ghost topo = topo_partition(comps, adj@);
    let mut comp_of = filled_usize(n, 0);
    let mut c: usize = 0;
    while c < sccs.len()
        invariant
            n == adj@.len(),
            comp_of@.len() == n,
            c <= sccs@.len(),
            forall|c: int, i: int| 0 <= c < sccs@.len() && 0 <= i < sccs@[c]@.len() ==> (#[trigger] sccs@[c]@[i] as int) < n,
            comps == components(sccs@),
            topo == topo_partition(comps, adj@),
            topo ==> forall|d: int, k: int| 0 <= d < c && 0 <= k < comps[d].len() ==> comp_of@[#[trigger] comps[d][k] as int] == d,
        decreases sccs@.len() - c,
    {
        let mut i: usize = 0;
        while i < sccs[c].len()
            invariant
                n == adj@.len(),
                comp_of@.len() == n,
                c < sccs@.len(),
                i <= sccs@[c as int]@.len(),
                forall|c: int, i: int| 0 <= c < sccs@.len() && 0 <= i < sccs@[c]@.len() ==> (#[trigger] sccs@[c]@[i] as int) < n,
                comps == components(sccs@),
                topo == topo_partition(comps, adj@),
                topo ==> forall|d: int, k: int| 0 <= d < c && 0 <= k < comps[d].len() ==> comp_of@[#[trigger] comps[d][k] as int] == d,
                topo ==> forall|k: int| 0 <= k < i ==> comp_of@[#[trigger] comps[c as int][k] as int] == c,
            decreases sccs@[c as int]@.len() - i,
        {
            let x = sccs[c][i];
            let ghost before = comp_of@;
            comp_of.set(x, c);
            proof {
                assert(comps[c as int][i as int] == x);
                if topo {
                    assert forall|d: int, k: int| 0 <= d < c && 0 <= k < comps[d].len() implies comp_of@[#[trigger] comps[d][k] as int] == d by {
                        if comps[d][k] == x {
                            assert(comps[d][k] == comps[c as int][i as int]);
                        }
                        assert(before[comps[d][k] as int] == d);
                    }
                    assert forall|k: int| 0 <= k < i + 1 implies comp_of@[#[trigger] comps[c as int][k] as int] == c by {
                        if k < i && comps[c as int][k] != x {
                            assert(before[comps[c as int][k] as int] == c);
                        }
                    }
                }
            }
            i += 1;
        }
        c += 1;
    }
    let mut c: usize = 0;
    while c < sccs.len()
        invariant
            n == adj@.len(),
            comp_of@.len() == n,
            c <= sccs@.len(),
            forall|d: int, i: int| 0 <= d < c && 0 <= i < sccs@[d]@.len() ==> comp_of@[#[trigger] sccs@[d]@[i] as int] == d,
            forall|c: int, i: int| 0 <= c < sccs@.len() && 0 <= i < sccs@[c]@.len() ==> (#[trigger] sccs@[c]@[i] as int) < n,
            comps == components(sccs@),
            topo == topo_partition(comps, adj@),
            topo ==> forall|d: int, k: int| 0 <= d < comps.len() && 0 <= k < comps[d].len() ==> comp_of@[#[trigger] comps[d][k] as int] == d,
        decreases sccs@.len() - c,
    {
        let mut i: usize = 0;
        while i < sccs[c].len()
            invariant
                n == adj@.len(),
                comp_of@.len() == n,
                c < sccs@.len(),
                i <= sccs@[c as int]@.len(),
                forall|d: int, i: int| 0 <= d < c && 0 <= i < sccs@[d]@.len() ==> comp_of@[#[trigger] sccs@[d]@[i] as int] == d,
                forall|j: int| 0 <= j < i ==> comp_of@[#[trigger] sccs@[c as int]@[j] as int] == c,
                forall|c: int, i: int| 0 <= c < sccs@.len() && 0 <= i < sccs@[c]@.len() ==> (#[trigger] sccs@[c]@[i] as int) < n,
                comps == components(sccs@),
                topo == topo_partition(comps, adj@),
                topo ==> forall|d: int, k: int| 0 <= d < comps.len() && 0 <= k < comps[d].len() ==> comp_of@[#[trigger] comps[d][k] as int] == d,
            decreases sccs@[c as int]@.len() - i,
        {
            proof {
                if topo {
                    assert(comp_of@[comps[c as int][i as int] as int] == c);
                }
            }
            if comp_of[sccs[c][i]] != c {
                return false;
            }
            i += 1;
        }
        c += 1;
    }
    let mut u: usize = 0;
    while u < n
        invariant
            n == adj@.len(),
            adjacency_ok(adj@),
            comp_of@.len() == n,
            u <= n,
            forall|x: usize, y: usize| (x as int) < u && #[trigger] edge(adj@, x, y) ==> comp_of@[y as int] <= comp_of@[x as int],
            comps == components(sccs@),
            topo == topo_partition(comps, adj@),
            topo ==> forall|d: int, k: int| 0 <= d < comps.len() && 0 <= k < comps[d].len() ==> comp_of@[#[trigger] comps[d][k] as int] == d,
        decreases n - u,
    {
        let mut j: usize = 0;
        while j < adj[u].len()
            invariant
                n == adj@.len(),
                adjacency_ok(adj@),
                comp_of@.len() == n,
                u < n,
                j <= adj@[u as int]@.len(),
                forall|x: usize, y: usize| (x as int) < u && #[trigger] edge(adj@, x, y) ==> comp_of@[y as int] <= comp_of@[x as int],
                forall|k: int| 0 <= k < j ==> comp_of@[#[trigger] adj@[u as int]@[k] as int] <= comp_of@[u as int],
                comps == components(sccs@),
                topo == topo_partition(comps, adj@),
                topo ==> forall|d: int, k: int| 0 <= d < comps.len() && 0 <= k < comps[d].len() ==> comp_of@[#[trigger] comps[d][k] as int] == d,
            decreases adj@[u as int]@.len() - j,
        {
            let v = adj[u][j];
            proof {
                if topo {
                    assert(edge(adj@, u, v)) by {
                        assert(adj@[u as int]@[j as int] == v);
                    }
                    let cu = lemma_owner(comps, adj@, comp_of@, u);
                    let cv = lemma_owner(comps, adj@, comp_of@, v);
                }
            }
            if comp_of[v] > comp_of[u] {
                return false;
            }
            j += 1;
        }
        proof {
            assert forall|x: usize, y: usize| (x as int) < u + 1 && #[trigger] edge(adj@, x, y) implies comp_of@[y as int] <= comp_of@[x as int] by {
                if x == u {
                    let k = choose|k: int| 0 <= k < adj@[u as int]@.len() && adj@[u as int]@[k] == y;
                }
            }
        }
        u += 1;
    }
    let mut c: usize = 0;
    while c < sccs.len()
        invariant
            n == adj@.len(),
            adjacency_ok(adj@),
            adjacency_ok(rev@),
            reverse_of(adj@, rev@),
            comp_of@.len() == n,
            c <= sccs@.len(),
            comps == components(sccs@),
            forall|c: int| 0 <= c < sccs@.len() ==> (#[trigger] sccs@[c])@.len() > 0,
            forall|c: int, i: int| 0 <= c < sccs@.len() && 0 <= i < sccs@[c]@.len() ==> (#[trigger] sccs@[c]@[i] as int) < n,
            forall|d: int, x: usize, y: usize|
                #![trigger comps[d].contains(x), comps[d].contains(y)]
                0 <= d < c && comps[d].contains(x) && comps[d].contains(y) ==> same_scc(adj@, x, y),
            topo == topo_partition(comps, adj@),
            topo ==> forall|d: int, k: int| 0 <= d < comps.len() && 0 <= k < comps[d].len() ==> comp_of@[#[trigger] comps[d][k] as int] == d,
        decreases sccs@.len() - c,
    {
        let size = sccs[c].len();
        let root = sccs[c][0];
        assert(comps[c as int] == sccs@[c as int]@);
        if size >= 2 {
            let forward = mark_reachable(adj, root, &comp_of, Some(c));
            let backward = mark_reachable(rev, root, &comp_of, Some(c));
            let mut i: usize = 0;
            while i < size
                invariant
                    n == adj@.len(),
                    reverse_of(adj@, rev@),
                    c < sccs@.len(),
                    size == sccs@[c as int]@.len(),
                    root == sccs@[c as int]@[0],
                    i <= size,
                    forward@.len() == n,
                    backward@.len() == n,
                    forall|c: int, i: int| 0 <= c < sccs@.len() && 0 <= i < sccs@[c]@.len() ==> (#[trigger] sccs@[c]@[i] as int) < n,
                    forall|v: usize| (v as int) < n && #[trigger] forward@[v as int] ==> reaches(adj@, root, v),
                    forall|v: usize| (v as int) < n && #[trigger] backward@[v as int] ==> reaches(rev@, root, v),
                    forall|j: int| 0 <= j < i ==> reaches(adj@, root, #[trigger] sccs@[c as int]@[j]) && reaches(adj@, sccs@[c as int]@[j], root),
                    comp_of@.len() == n,
                    comps == components(sccs@),
                    topo == topo_partition(comps, adj@),
                    topo ==> forall|d: int, k: int| 0 <= d < comps.len() && 0 <= k < comps[d].len() ==> comp_of@[#[trigger] comps[d][k] as int] == d,
                    forward@[root as int],
                    backward@[root as int],
                    forall|u: usize, v: usize| forward@[u as int] && #[trigger] edge(adj@, u, v) && allowed(comp_of@, Some(c), v) ==> forward@[v as int],
                    forall|u: usize, v: usize| backward@[u as int] && #[trigger] edge(rev@, u, v) && allowed(comp_of@, Some(c), v) ==> backward@[v as int],
                decreases size - i,
            {
                let m = sccs[c][i];
                proof {
                    if topo {
                        assert(comps[c as int][i as int] == m);
                        assert(comps[c as int][0] == root);
                        lemma_member_marked(adj@, rev@, comps, comp_of@, c, m, forward@, backward@);
                    }
                }
                if !forward[m] || !backward[m] {
                    return false;
                }
                proof {
                    lemma_reach_reverse(adj@, rev@, root, m);
                }
                i += 1;
            }
            proof {
                assert forall|x: usize, y: usize|
                    #![trigger comps[c as int].contains(x), comps[c as int].contains(y)]
                    comps[c as int].contains(x) && comps[c as int].contains(y) implies same_scc(adj@, x, y) by {
                    let a = choose|a: int| 0 <= a < comps[c as int].len() && comps[c as int][a] == x;
                    let b = choose|b: int| 0 <= b < comps[c as int].len() && comps[c as int][b] == y;
                    assert(reaches(adj@, root, sccs@[c as int]@[a]) && reaches(adj@, sccs@[c as int]@[a], root));
                    assert(reaches(adj@, root, sccs@[c as int]@[b]) && reaches(adj@, sccs@[c as int]@[b], root));
                    lemma_reach_trans(adj@, x, root, y);
                    lemma_reach_trans(adj@, y, root, x);
                }
            }
        } else {
            proof {
                lemma_reach_self(adj@, root);
                assert forall|x: usize, y: usize|
                    #![trigger comps[c as int].contains(x), comps[c as int].contains(y)]
                    comps[c as int].contains(x) && comps[c as int].contains(y) implies same_scc(adj@, x, y) by {
                    let a = choose|a: int| 0 <= a < comps[c as int].len() && comps[c as int][a] == x;
                    let b = choose|b: int| 0 <= b < comps[c as int].len() && comps[c as int][b] == y;
                }
            }
        }
        c += 1;
    }
    proof {
        assert forall|c: int, d: int, x: usize, y: usize|
            #![trigger comps[c].contains(x), comps[d].contains(y)]
            0 <= c < comps.len() && 0 <= d < comps.len() && comps[c].contains(x) && comps[d].contains(y) && same_scc(adj@, x, y)
            implies c == d by {
            let a = choose|a: int| 0 <= a < comps[c].len() && comps[c][a] == x;
            let b = choose|b: int| 0 <= b < comps[d].len() && comps[d][b] == y;
            assert(comp_of@[sccs@[c]@[a] as int] == c);
            assert(comp_of@[sccs@[d]@[b] as int] == d);
            let p = choose|p: Seq<usize>| #[trigger] is_path(adj@, p) && p[0] == x && p.last() == y;
            lemma_path_rank(adj@, comp_of@, p);
            let q = choose|q: Seq<usize>| #[trigger] is_path(adj@, q) && q[0] == y && q.last() == x;
            lemma_path_rank(adj@, comp_of@, q);
        }
        assert forall|c: int, d: int, x: usize, y: usize|
            #![trigger comps[c].contains(x), comps[d].contains(y), edge(adj@, x, y)]
            0 <= c < comps.len() && 0 <= d < comps.len() && comps[c].contains(x) && comps[d].contains(y) && edge(adj@, x, y)
            implies d <= c by {
            let a = choose|a: int| 0 <= a < comps[c].len() && comps[c][a] == x;
            let b = choose|b: int| 0 <= b < comps[d].len() && comps[d][b] == y;
            assert(comp_of@[sccs@[c]@[a] as int] == c);
            assert(comp_of@[sccs@[d]@[b] as int] == d);
        }
    }
    true
}

/// A member of one of the parts is a member of the whole.
proof fn lemma_concat_contains(a: Seq<usize>, b: Seq<usize>, x: usize)
    ensures
        (a + b).contains(x) <==> (a.contains(x) || b.contains(x)),
{
    if a.contains(x) {
        let i = choose|i: int| 0 <= i < a.len() && a[i] == x;
        assert((a + b)[i] == x);
    }
    if b.contains(x) {
        let i = choose|i: int| 0 <= i < b.len() && b[i] == x;
        assert((a + b)[a.len() + i] == x);
    }
    if (a + b).contains(x) {
        let i = choose|i: int| 0 <= i < (a + b).len() && (a + b)[i] == x;
        if i < a.len() {
            assert(a[i] == x);
        } else {
            assert(b[i - a.len()] == x);
        }
    }
}

/// Two duplicate-free sequences with no common member concatenate to a
/// duplicate-free sequence.
proof fn lemma_append_disjoint(a: Seq<usize>, b: Seq<usize>)
    requires
        a.no_duplicates(),
        b.no_duplicates(),
        forall|i: int| 0 <= i < b.len() ==> !a.contains(#[trigger] b[i]),
    ensures
        (a + b).no_duplicates(),
{
    let s = a + b;
    assert forall|i: int, j: int| 0 <= i < s.len() && 0 <= j < s.len() && i != j implies s[i] != s[j] by {
        if i < a.len() && j < a.len() {
        } else if i >= a.len() && j >= a.len() {
            assert(s[i] == b[i - a.len()] && s[j] == b[j - a.len()]);
        } else if i < a.len() {
            assert(s[j] == b[j - a.len()]);
            assert(a.contains(s[i]));
        } else {
            assert(s[i] == b[i - a.len()]);
            assert(a.contains(s[j]));
        }
    }
}

/// What each node's marking says, in the graph and its reverse, of the nodes
/// strongly connected to the start.
proof fn lemma_marks_same_scc(
    adj: Seq<Vec<usize>>,
    rev: Seq<Vec<usize>>,
    start: usize,
    forward: Seq<bool>,
    backward: Seq<bool>,
    v: usize,
)
    requires
        reverse_of(adj, rev),
        (v as int) < adj.len(),
        forward.len() == adj.len(),
        backward.len() == adj.len(),
        forward[start as int],
        backward[start as int],
        forall|x: usize| (x as int) < adj.len() && #[trigger] forward[x as int] ==> reaches(adj, start, x),
        forall|x: usize| (x as int) < adj.len() && #[trigger] backward[x as int] ==> reaches(rev, start, x),
        forall|x: usize, y: usize| forward[x as int] && #[trigger] edge(adj, x, y) ==> forward[y as int],
        forall|x: usize, y: usize| backward[x as int] && #[trigger] edge(rev, x, y) ==> backward[y as int],
    ensures
        (forward[v as int] && backward[v as int]) <==> same_scc(adj, start, v),
{
    if forward[v as int] && backward[v as int] {
        lemma_reach_reverse(adj, rev, start, v);
    }
    if same_scc(adj, start, v) {
        let p = choose|p: Seq<usize>| #[trigger] is_path(adj, p) && p[0] == start && p.last() == v;
        lemma_closed_reach(adj, forward, p);
        lemma_reverse_symmetric(adj, rev);
        lemma_reach_reverse(rev, adj, v, start);
        let q = choose|q: Seq<usize>| #[trigger] is_path(rev, q) && q[0] == start && q.last() == v;
        lemma_closed_reach(rev, backward, q);
    }
}

/// Which nodes `u` reaches.
pub open spec fn reach_marks(adj: Seq<Vec<usize>>, u: usize) -> Seq<bool> {
    Seq::new(adj.len(), |x: int| reaches(adj, u, x as usize))
}

/// The number of `true` entries.
pub open spec fn count_true(s: Seq<bool>) -> nat
    decreases s.len(),
{
    if s.len() == 0 {
        0
    } else {
        count_true(s.drop_last()) + if s.last() { 1nat } else { 0nat }
    }
}

/// How many nodes `u` reaches (itself included).
pub open spec fn reach_count(adj: Seq<Vec<usize>>, u: usize) -> nat {
    count_true(reach_marks(adj, u))
}

/// `components` are listed so that every edge leads to a component listed
/// no later than its source's: sinks first, the reverse of a topological
/// order of the components.
pub open spec fn emit_ordered(comps: Seq<Seq<usize>>, adj: Seq<Vec<usize>>) -> bool {
    forall|c: int, d: int, x: usize, y: usize|
        #![trigger comps[c].contains(x), comps[d].contains(y), edge(adj, x, y)]
        0 <= c < comps.len() && 0 <= d < comps.len() && comps[c].contains(x) && comps[d].contains(y) && edge(adj, x, y)
            ==> d <= c
}

proof fn lemma_count_le(a: Seq<bool>, b: Seq<bool>)
    requires
        a.len() == b.len(),
        forall|i: int| 0 <= i < a.len() && #[trigger] a[i] ==> b[i],
    ensures
        count_true(a) <= count_true(b),
        (exists|k: int| 0 <= k < a.len() && b[k] && !a[k]) ==> count_true(a) < count_true(b),
    decreases a.len(),
{
    if a.len() > 0 {
        lemma_count_le(a.drop_last(), b.drop_last());
        if exists|k: int| 0 <= k < a.len() && b[k] && !a[k] {
            let k = choose|k: int| 0 <= k < a.len() && b[k] && !a[k];
            if k < a.len() - 1 {
                assert(a.drop_last()[k] == a[k] && b.drop_last()[k] == b[k]);
            }
        }
    }
}

/// A walk's marks that are sound and closed are exactly what the start
/// reaches.
proof fn lemma_marks_exact(adj: Seq<Vec<usize>>, u: usize, marks: Seq<bool>)
    requires
        marks.len() == adj.len(),
        adj.len() <= usize::MAX,
        (u as int) < adj.len(),
        marks[u as int],
        forall|x: usize| (x as int) < adj.len() && #[trigger] marks[x as int] ==> reaches(adj, u, x),
        forall|x: usize, y: usize| marks[x as int] && #[trigger] edge(adj, x, y) ==> marks[y as int],
    ensures
        marks == reach_marks(adj, u),
{
    assert forall|x: int| 0 <= x < marks.len() implies marks[x] == reach_marks(adj, u)[x] by {
        let v = x as usize;
        if reaches(adj, u, v) {
            let p = choose|p: Seq<usize>| #[trigger] is_path(adj, p) && p[0] == u && p.last() == v;
            lemma_closed_reach(adj, marks, p);
        }
        assert(v as int == x);
    }
    assert(marks =~= reach_marks(adj, u));
}

/// Nodes of one component reach the same nodes; along an edge leaving a
/// component, the target reaches strictly fewer nodes than the source.
proof fn lemma_reach_count_order(adj: Seq<Vec<usize>>, u: usize, v: usize)
    requires
        adj.len() <= usize::MAX,
        (u as int) < adj.len(),
        (v as int) < adj.len(),
    ensures
        same_scc(adj, u, v) ==> reach_count(adj, u) == reach_count(adj, v),
        edge(adj, u, v) && !same_scc(adj, u, v) ==> reach_count(adj, v) < reach_count(adj, u),
{
    let a = reach_marks(adj, u);
    let b = reach_marks(adj, v);
    if same_scc(adj, u, v) {
        assert forall|x: int| 0 <= x < a.len() implies a[x] == b[x] by {
            let w = x as usize;
            if reaches(adj, u, w) {
                lemma_reach_trans(adj, v, u, w);
            }
            if reaches(adj, v, w) {
                lemma_reach_trans(adj, u, v, w);
            }
        }
        assert(a =~= b);
    }
    if edge(adj, u, v) && !same_scc(adj, u, v) {
        lemma_reach_self(adj, u);
        lemma_reach_step(adj, u, u, v);
        assert forall|x: int| 0 <= x < b.len() && #[trigger] b[x] implies a[x] by {
            lemma_reach_trans(adj, u, v, x as usize);
        }
        assert(a[u as int] && !b[u as int]);
        lemma_count_le(b, a);
    }
}

/// The number of `true` entries of `marks`.
fn count_marks(marks: &Vec<bool>) -> (count: usize)
    ensures
        count == count_true(marks@),
{
    let mut count: usize = 0;
    let mut i: usize = 0;
    while i < marks.len()
        invariant
            i <= marks@.len(),
            count <= i,
            count == count_true(marks@.take(i as int)),
        decreases marks@.len() - i,
    {
        assert(marks@.take(i + 1).drop_last() =~= marks@.take(i as int));
        if marks[i] {
            count += 1;
        }
        i += 1;
    }
    assert(marks@.take(i as int) =~= marks@);
    count
}

/// How many nodes each node reaches.
fn reach_counts(adj: &Vec<Vec<usize>>) -> (counts: Vec<usize>)
    requires
        adjacency_ok(adj@),
    ensures
        counts@.len() == adj@.len(),
        forall|v: int| 0 <= v < adj@.len() ==> counts@[v] == reach_count(adj@, v as usize),
{
    let n = adj.len();
    let any = filled_usize(n, 0);
    let mut counts: Vec<usize> = Vec::new();
    while counts.len() < n
        invariant
            n == adj@.len(),
            adjacency_ok(adj@),
            any@.len() == n,
            counts@.len() <= n,
            forall|v: int| 0 <= v < counts@.len() ==> counts@[v] == reach_count(adj@, v as usize),
        decreases n - counts@.len(),
    {
        let v = counts.len();
        let marks = mark_reachable(adj, v, &any, None);
        proof {
            assert forall|x: usize, y: usize| marks@[x as int] && #[trigger] edge(adj@, x, y) implies marks@[y as int] by {
                assert(allowed(any@, None, y));
            }
            lemma_marks_exact(adj@, v, marks@);
        }
        let count = count_marks(&marks);
        counts.push(count);
    }
    counts
}

/// The nodes `0..n` ordered by `keys`, smaller first.
fn order_by_key(keys: &Vec<usize>) -> (order: Vec<usize>)
    ensures
        order@.len() == keys@.len(),
        forall|j: int| 0 <= j < order@.len() ==> (#[trigger] order@[j] as int) < keys@.len(),
        forall|v: usize| (v as int) < keys@.len() ==> #[trigger] order@.contains(v),
        forall|a: int, b: int| 0 <= a < b < order@.len() ==> keys@[order@[a] as int] <= keys@[order@[b] as int],
{
    let n = keys.len();
    let mut order: Vec<usize> = Vec::new();
    let mut v: usize = 0;
    while v < n
        invariant
            n == keys@.len(),
            v <= n,
            order@.len() == v,
            forall|j: int| 0 <= j < order@.len() ==> (#[trigger] order@[j] as int) < v,
            forall|w: usize| (w as int) < v ==> #[trigger] order@.contains(w),
            forall|a: int, b: int| 0 <= a < b < order@.len() ==> keys@[order@[a] as int] <= keys@[order@[b] as int],
        decreases n - v,
    {
        let mut p: usize = order.len();
        while p > 0 && keys[order[p - 1]] > keys[v]
            invariant
                n == keys@.len(),
                v < n,
                p <= order@.len(),
                forall|j: int| 0 <= j < order@.len() ==> (#[trigger] order@[j] as int) < v,
                forall|j: int| p <= j < order@.len() ==> keys@[order@[j] as int] > keys@[v as int],
            decreases p,
        {
            p -= 1;
        }
        let ghost before = order@;
        order.insert(p, v);
        proof {
            assert(order@ =~= before.insert(p as int, v));
            assert forall|j: int| 0 <= j < order@.len() implies (#[trigger] order@[j] as int) < v + 1 by {
                if j < p {
                    assert(order@[j] == before[j]);
                } else if j > p {
                    assert(order@[j] == before[j - 1]);
                }
            }
            assert forall|w: usize| (w as int) < v + 1 implies #[trigger] order@.contains(w) by {
                if w == v {
                    assert(order@[p as int] == v);
                } else {
                    assert(before.contains(w));
                    let j = choose|j: int| 0 <= j < before.len() && before[j] == w;
                    if j < p {
                        assert(order@[j] == w);
                    } else {
                        assert(order@[j + 1] == w);
                    }
                }
            }
            assert forall|a: int, b: int| 0 <= a < b < order@.len() implies keys@[order@[a] as int] <= keys@[order@[b] as int] by {
                if b < p {
                    assert(order@[a] == before[a] && order@[b] == before[b]);
                } else if b == p {
                    assert(order@[a] == before[a]);
                } else if a < p {
                    assert(order@[a] == before[a] && order@[b] == before[b - 1]);
                } else if a == p {
                    assert(order@[b] == before[b - 1]);
                } else {
                    assert(order@[a] == before[a - 1] && order@[b] == before[b - 1]);
                }
            }
        }
        v += 1;
    }
    order
}

/// The strongly-connected components by reachability: nodes are taken in
/// order of how many nodes they reach, fewest first (ties by index), and each
/// node not yet placed opens the component of the nodes it reaches and is
/// reached by, ascending. A component reached from another thus comes before
/// it.
pub fn sccs_by_reach(adj: &Vec<Vec<usize>>, rev: &Vec<Vec<usize>>) -> (sccs: Vec<Vec<usize>>)
    requires
        adjacency_ok(adj@),
        adjacency_ok(rev@),
        reverse_of(adj@, rev@),
    ensures
        forall|c: int| 0 <= c < sccs@.len() ==> (#[trigger] sccs@[c])@.len() > 0,
        components(sccs@).flatten().no_duplicates(),
        forall|v: usize| (v as int) < adj@.len() ==> components(sccs@).flatten().contains(v),
        forall|i: int|
            0 <= i < components(sccs@).flatten().len() ==> (#[trigger] components(sccs@).flatten()[i] as int) < adj@.len(),
        scc_exact(components(sccs@), adj@),
        emit_ordered(components(sccs@), adj@),
{
    let n = adj.len();
    let any = filled_usize(n, 0);
    let mut assigned = filled_bool(n, false);
    let mut sccs: Vec<Vec<usize>> = Vec::new();
    let ghost mut roots: Seq<usize> = Seq::empty();
    let ghost mut owner: Seq<int> = Seq::new(n as nat, |x: int| 0int);
    let ghost mut done: Seq<usize> = Seq::empty();
    let keys = reach_counts(adj);
    let order = order_by_key(&keys);
    let mut k: usize = 0;
    proof {
        assert(components(sccs@).flatten() =~= done);
    }
    while k < n
        invariant
            n == adj@.len(),
            adjacency_ok(adj@),
            adjacency_ok(rev@),
            reverse_of(adj@, rev@),
            any@.len() == n,
            assigned@.len() == n,
            owner.len() == n,
            k <= n,
            keys@.len() == n,
            forall|v: int| 0 <= v < n ==> keys@[v] == reach_count(adj@, v as usize),
            order@.len() == n,
            forall|j: int| 0 <= j < order@.len() ==> (#[trigger] order@[j] as int) < n,
            forall|v: usize| (v as int) < n ==> #[trigger] order@.contains(v),
            forall|a: int, b: int| 0 <= a < b < order@.len() ==> keys@[order@[a] as int] <= keys@[order@[b] as int],
            forall|i: int, j: int| 0 <= i < j < sccs@.len() ==> keys@[roots[i] as int] <= keys@[roots[j] as int],
            k < n ==> forall|j: int| 0 <= j < sccs@.len() ==> keys@[roots[j] as int] <= keys@[order@[k as int] as int],
            roots.len() == sccs@.len(),
            done == components(sccs@).flatten(),
            done.no_duplicates(),
            forall|x: usize| (x as int) < n ==> (#[trigger] assigned@[x as int] <==> done.contains(x)),
            forall|i: int| 0 <= i < done.len() ==> (#[trigger] done[i] as int) < n,
            forall|j: int| 0 <= j < k ==> #[trigger] assigned@[order@[j] as int],
            forall|k: int| 0 <= k < sccs@.len() ==> (#[trigger] sccs@[k])@.len() > 0,
            forall|k: int| 0 <= k < sccs@.len() ==> (#[trigger] roots[k] as int) < n,
            forall|k: int, x: usize| 0 <= k < sccs@.len() ==> (#[trigger] sccs@[k]@.contains(x) <==> same_scc(adj@, roots[k], x)),
            forall|x: usize| (x as int) < n && #[trigger] assigned@[x as int] ==> 0 <= owner[x as int] < sccs@.len() && sccs@[owner[x as int]]@.contains(x),
            forall|j: int, k: int| 0 <= j < k < sccs@.len() ==> !same_scc(adj@, #[trigger] roots[j], #[trigger] roots[k]),
        decreases n - k,
    {
        let u = order[k];
        if !assigned[u] {
            let forward = mark_reachable(adj, u, &any, None);
            let backward = mark_reachable(rev, u, &any, None);
            proof {
                assert forall|x: usize, y: usize| forward@[x as int] && #[trigger] edge(adj@, x, y) implies forward@[y as int] by {
                    assert(allowed(any@, None, y));
                }
                assert forall|x: usize, y: usize| backward@[x as int] && #[trigger] edge(rev@, x, y) implies backward@[y as int] by {
                    assert(allowed(any@, None, y));
                }
                lemma_reach_self(adj@, u);
                assert forall|x: usize| (x as int) < n && same_scc(adj@, u, x) implies !#[trigger] assigned@[x as int] by {
                    if assigned@[x as int] {
                        let k = owner[x as int];
                        assert(sccs@[k]@.contains(x));
                        assert(same_scc(adj@, roots[k], x));
                        lemma_reach_trans(adj@, roots[k], x, u);
                        lemma_reach_trans(adj@, u, x, roots[k]);
                        assert(sccs@[k]@.contains(u));
                        let i = choose|i: int| 0 <= i < sccs@[k]@.len() && sccs@[k]@[i] == u;
                        lemma_flatten_parts(components(sccs@), k, i);
                        assert(done.contains(u));
                    }
                }
            }
            let ghost assigned0 = assigned@;
            proof {
                assert forall|j: int| 0 <= j < k implies #[trigger] assigned0[order@[j] as int] by {
                    assert(assigned@[order@[j] as int]);
                }
            }
            let mut comp: Vec<usize> = Vec::new();
            let mut v: usize = 0;
            while v < n
                invariant
                    n == adj@.len(),
                    reverse_of(adj@, rev@),
                    (u as int) < n,
                    forward@.len() == n,
                    backward@.len() == n,
                    forward@[u as int],
                    backward@[u as int],
                    forall|x: usize| (x as int) < n && #[trigger] forward@[x as int] ==> reaches(adj@, u, x),
                    forall|x: usize| (x as int) < n && #[trigger] backward@[x as int] ==> reaches(rev@, u, x),
                    forall|x: usize, y: usize| forward@[x as int] && #[trigger] edge(adj@, x, y) ==> forward@[y as int],
                    forall|x: usize, y: usize| backward@[x as int] && #[trigger] edge(rev@, x, y) ==> backward@[y as int],
                    assigned@.len() == n,
                    assigned0.len() == n,
                    v <= n,
                    forall|x: usize| (x as int) < n && same_scc(adj@, u, x) ==> !#[trigger] assigned0[x as int],
                    forall|j: int| 0 <= j < k ==> #[trigger] assigned0[order@[j] as int],
                    forall|i: int| 0 <= i < comp@.len() ==> (#[trigger] comp@[i] as int) < v,
                    forall|i: int, j: int| 0 <= i < j < comp@.len() ==> comp@[i] < comp@[j],
                    forall|x: usize| #[trigger] comp@.contains(x) <==> ((x as int) < v && same_scc(adj@, u, x)),
                    forall|x: usize| (x as int) < n ==> (#[trigger] assigned@[x as int] <==> (assigned0[x as int] || comp@.contains(x))),
                decreases n - v,
            {
                proof {
                    lemma_marks_same_scc(adj@, rev@, u, forward@, backward@, v);
                }
                if forward[v] && backward[v] {
                    let ghost before = comp@;
                    comp.push(v);
                    assigned.set(v, true);
                    proof {
                        assert forall|x: usize| #[trigger] comp@.contains(x) <==> ((x as int) < v + 1 && same_scc(adj@, u, x)) by {
                            if before.contains(x) {
                                let i = choose|i: int| 0 <= i < before.len() && before[i] == x;
                                assert(comp@[i] == x);
                            }
                            if comp@.contains(x) && x != v {
                                let i = choose|i: int| 0 <= i < comp@.len() && comp@[i] == x;
                                assert(before[i] == x);
                            }
                            assert(comp@[before.len() as int] == v);
                        }
                        assert forall|x: usize| (x as int) < n implies (#[trigger] assigned@[x as int] <==> (assigned0[x as int] || comp@.contains(x))) by {
                            if x != v {
                                if before.contains(x) {
                                    let i = choose|i: int| 0 <= i < before.len() && before[i] == x;
                                    assert(comp@[i] == x);
                                }
                                if comp@.contains(x) {
                                    let i = choose|i: int| 0 <= i < comp@.len() && comp@[i] == x;
                                    assert(before[i] == x);
                                }
                            } else {
                                assert(comp@[before.len() as int] == v);
                            }
                        }
                    }
                } else {
                    proof {
                        assert forall|x: usize| #[trigger] comp@.contains(x) <==> ((x as int) < v + 1 && same_scc(adj@, u, x)) by {
                            if x == v && comp@.contains(x) {
                                let i = choose|i: int| 0 <= i < comp@.len() && comp@[i] == x;
                            }
                        }
                    }
                }
                v += 1;
            }
            let ghost ci = sccs@.len() as int;
            let ghost prior = sccs@;
            proof {
                lemma_reach_self(adj@, u);
                assert(comp@.contains(u));
                assert(comp@.no_duplicates()) by {
                    assert forall|i: int, j: int| 0 <= i < comp@.len() && 0 <= j < comp@.len() && i != j implies comp@[i] != comp@[j] by {
                        if i < j {
                            assert(comp@[i] < comp@[j]);
                        } else {
                            assert(comp@[j] < comp@[i]);
                        }
                    }
                }
                assert forall|i: int| 0 <= i < comp@.len() implies !done.contains(#[trigger] comp@[i]) by {
                    assert(comp@.contains(comp@[i]));
                    lemma_reach_bounds(adj@, u, comp@[i]);
                    assert(!assigned0[comp@[i] as int]);
                }
                lemma_append_disjoint(done, comp@);
                assert forall|j: int| 0 <= j < ci implies !same_scc(adj@, #[trigger] roots[j], u) by {
                    if same_scc(adj@, roots[j], u) {
                        assert(sccs@[j]@.contains(u));
                        let i = choose|i: int| 0 <= i < sccs@[j]@.len() && sccs@[j]@[i] == u;
                        lemma_flatten_parts(components(sccs@), j, i);
                        assert(done.contains(u));
                    }
                }
            }
            sccs.push(comp);
            proof {
                let c = sccs@[ci]@;
                let old_done = done;
                let old_roots = roots;
                let old_owner = owner;
                roots = roots.push(u);
                owner = Seq::new(n as nat, |x: int| if c.contains(x as usize) { ci } else { old_owner[x] });
                assert(components(sccs@) =~= components(prior).push(c));
                components(prior).lemma_flatten_push(c);
                done = old_done + c;
                assert forall|x: usize| #[trigger] done.contains(x) <==> (old_done.contains(x) || c.contains(x)) by {
                    lemma_concat_contains(old_done, c, x);
                }
                assert forall|x: usize| (x as int) < n implies (#[trigger] assigned@[x as int] <==> done.contains(x)) by {
                    assert(done.contains(x) <==> (old_done.contains(x) || c.contains(x)));
                }
                assert forall|i: int| 0 <= i < done.len() implies (#[trigger] done[i] as int) < n by {
                    if i >= old_done.len() {
                        assert(done[i] == c[i - old_done.len()]);
                    }
                }
                assert forall|j: int| 0 <= j < k + 1 implies #[trigger] assigned@[order@[j] as int] by {
                    if j < k {
                        assert(assigned0[order@[j] as int]);
                    } else {
                        assert(c.contains(u));
                    }
                }
                assert forall|a: int, b: int| 0 <= a < b < sccs@.len() implies keys@[roots[a] as int] <= keys@[roots[b] as int] by {
                    assert(roots[a] == old_roots[a]);
                    if b < ci {
                        assert(roots[b] == old_roots[b]);
                    }
                }
                if k + 1 < n {
                    assert forall|j: int| 0 <= j < sccs@.len() implies keys@[roots[j] as int] <= keys@[order@[k + 1] as int] by {
                        assert(keys@[order@[k as int] as int] <= keys@[order@[k + 1] as int]);
                        if j < ci {
                            assert(roots[j] == old_roots[j]);
                        }
                    }
                }
                assert forall|j: int| 0 <= j < sccs@.len() implies (#[trigger] sccs@[j])@.len() > 0 by {
                    if j < ci {
                        assert(sccs@[j] == prior[j]);
                    } else {
                        assert(c.contains(u));
                    }
                }
                assert forall|j: int| 0 <= j < sccs@.len() implies (#[trigger] roots[j] as int) < n by {
                    if j < ci {
                        assert(roots[j] == old_roots[j]);
                    }
                }
                assert forall|j: int, x: usize| 0 <= j < sccs@.len() implies (#[trigger] sccs@[j]@.contains(x) <==> same_scc(adj@, roots[j], x)) by {
                    if j < ci {
                        assert(sccs@[j] == prior[j]);
                        assert(roots[j] == old_roots[j]);
                    } else {
                        assert(roots[j] == u);
                        if same_scc(adj@, u, x) {
                            lemma_reach_bounds(adj@, u, x);
                        }
                    }
                }
                assert forall|x: usize| (x as int) < n && #[trigger] assigned@[x as int] implies 0 <= owner[x as int] < sccs@.len()
                    && sccs@[owner[x as int]]@.contains(x) by {
                    if c.contains(x) {
                        assert(owner[x as int] == ci);
                    } else {
                        assert(assigned0[x as int]);
                        assert(owner[x as int] == old_owner[x as int]);
                        assert(sccs@[old_owner[x as int]] == prior[old_owner[x as int]]);
                    }
                }
                assert forall|i: int, j: int| 0 <= i < j < sccs@.len() implies !same_scc(adj@, #[trigger] roots[i], #[trigger] roots[j]) by {
                    assert(roots[i] == old_roots[i] || i == ci);
                    if j < ci {
                        assert(roots[i] == old_roots[i] && roots[j] == old_roots[j]);
                    } else {
                        assert(roots[i] == old_roots[i]);
                        assert(roots[j] == u);
                    }
                }
            }
        } else {
            proof {
                assert forall|j: int| 0 <= j < k + 1 implies #[trigger] assigned@[order@[j] as int] by {
                }
                if k + 1 < n {
                    assert(keys@[order@[k as int] as int] <= keys@[order@[k + 1] as int]);
                }
            }
        }
        k += 1;
    }
    proof {
        let comps = components(sccs@);
        assert forall|v: usize| (v as int) < n implies comps.flatten().contains(v) by {
            assert(order@.contains(v));
            let j = choose|j: int| 0 <= j < order@.len() && order@[j] == v;
            assert(assigned@[order@[j] as int]);
        }
        assert forall|c: int, x: usize, y: usize|
            #![trigger comps[c].contains(x), comps[c].contains(y)]
            0 <= c < comps.len() && comps[c].contains(x) && comps[c].contains(y) implies same_scc(adj@, x, y) by {
            assert(sccs@[c]@.contains(x) && sccs@[c]@.contains(y));
            lemma_reach_trans(adj@, x, roots[c], y);
            lemma_reach_trans(adj@, y, roots[c], x);
        }
        assert forall|c: int, d: int, x: usize, y: usize|
            #![trigger comps[c].contains(x), comps[d].contains(y)]
            0 <= c < comps.len() && 0 <= d < comps.len() && comps[c].contains(x) && comps[d].contains(y) && same_scc(adj@, x, y)
            implies c == d by {
            assert(sccs@[c]@.contains(x) && sccs@[d]@.contains(y));
            lemma_reach_trans(adj@, roots[c], x, y);
            lemma_reach_trans(adj@, roots[c], y, roots[d]);
            lemma_reach_trans(adj@, roots[d], y, x);
            lemma_reach_trans(adj@, roots[d], x, roots[c]);
            if c < d {
                assert(!same_scc(adj@, roots[c], roots[d]));
            } else if d < c {
                assert(!same_scc(adj@, roots[d], roots[c]));
            }
        }
        assert forall|c: int, d: int, x: usize, y: usize|
            #![trigger comps[c].contains(x), comps[d].contains(y), edge(adj@, x, y)]
            0 <= c < comps.len() && 0 <= d < comps.len() && comps[c].contains(x) && comps[d].contains(y) && edge(adj@, x, y)
            implies d <= c by {
            assert(sccs@[c]@.contains(x) && sccs@[d]@.contains(y));
            lemma_reach_bounds(adj@, roots[c], x);
            lemma_reach_bounds(adj@, roots[d], y);
            if c != d {
                if same_scc(adj@, x, y) {
                    lemma_reach_trans(adj@, roots[c], x, y);
                    lemma_reach_trans(adj@, roots[c], y, roots[d]);
                    lemma_reach_trans(adj@, roots[d], y, x);
                    lemma_reach_trans(adj@, roots[d], x, roots[c]);
                    if c < d {
                        assert(!same_scc(adj@, roots[c], roots[d]));
                    } else {
                        assert(!same_scc(adj@, roots[d], roots[c]));
                    }
                }
                lemma_reach_count_order(adj@, x, y);
                lemma_reach_count_order(adj@, roots[c], x);
                lemma_reach_count_order(adj@, roots[d], y);
                if c < d {
                    assert(keys@[roots[c] as int] <= keys@[roots[d] as int]);
                }
            }
        }
    }
    sccs
}

} // verus!
