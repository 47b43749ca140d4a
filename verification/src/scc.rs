//! Strongly-connected components of a directed graph given as adjacency
//! lists: Tarjan's algorithm run iteratively, with an explicit work stack of
//! `(node, next-edge cursor)` in place of recursion so that large graphs
//! cannot exhaust the call stack.
use vstd::prelude::*;

use crate::cycles::lemma_flatten_parts;
use crate::reach::{certify_sccs, emit_ordered, reverse_adjacency, scc_exact, sccs_by_reach};

verus! {

/// Every edge of the adjacency lists points at a node of the graph.
pub open spec fn adjacency_ok(adj: Seq<Vec<usize>>) -> bool {
    forall|i: int, j: int|
        0 <= i < adj.len() && 0 <= j < adj[i]@.len() ==> (#[trigger] adj[i]@[j]) < adj.len()
}

/// The components as sequences of node indices.
pub open spec fn components(sccs: Seq<Vec<usize>>) -> Seq<Seq<usize>> {
    sccs.map_values(|c: Vec<usize>| c@)
}

/// Number of nodes below `k` that are still unvisited.
pub open spec fn unvisited_count(index_of: Seq<usize>, k: int) -> nat
    decreases k,
{
    if k <= 0 {
        0
    } else {
        unvisited_count(index_of, k - 1) + (if index_of[k - 1] == usize::MAX {
            1nat
        } else {
            0nat
        })
    }
}

/// Edges still to be scanned for one work item of a visited node.
pub open spec fn item_cost(item: (usize, usize), adj: Seq<Vec<usize>>, index_of: Seq<usize>) -> nat {
    if index_of[item.0 as int] != usize::MAX && item.1 <= adj[item.0 as int]@.len() {
        (adj[item.0 as int]@.len() - item.1 + 1) as nat
    } else {
        0
    }
}

/// Edges still to be scanned over the whole work stack.
pub open spec fn work_cost(work: Seq<(usize, usize)>, adj: Seq<Vec<usize>>, index_of: Seq<usize>) -> nat
    decreases work.len(),
{
    if work.len() == 0 {
        0
    } else {
        work_cost(work.drop_last(), adj, index_of) + item_cost(work.last(), adj, index_of)
    }
}

proof fn lemma_unvisited_count_visit(index_of: Seq<usize>, node: int, value: usize, k: int)
    requires
        0 <= node < index_of.len(),
        index_of[node] == usize::MAX,
        value != usize::MAX,
        node < k <= index_of.len(),
    ensures
        unvisited_count(index_of.update(node, value), k) + 1 == unvisited_count(index_of, k),
    decreases k,
{
    if k - 1 > node {
        lemma_unvisited_count_visit(index_of, node, value, k - 1);
    } else {
        lemma_unvisited_count_same(index_of, index_of.update(node, value), k - 1);
    }
}

proof fn lemma_unvisited_count_same(a: Seq<usize>, b: Seq<usize>, k: int)
    requires
        0 <= k <= a.len(),
        k <= b.len(),
        forall|v: int| 0 <= v < k ==> (a[v] == usize::MAX) == (b[v] == usize::MAX),
    ensures
        unvisited_count(a, k) == unvisited_count(b, k),
    decreases k,
{
    if k > 0 {
        lemma_unvisited_count_same(a, b, k - 1);
    }
}

proof fn lemma_work_cost_same(
    work: Seq<(usize, usize)>,
    adj: Seq<Vec<usize>>,
    a: Seq<usize>,
    b: Seq<usize>,
)
    requires
        forall|i: int| 0 <= i < work.len() ==> (a[work[i].0 as int] == usize::MAX) == (b[work[i].0 as int] == usize::MAX),
    ensures
        work_cost(work, adj, a) == work_cost(work, adj, b),
    decreases work.len(),
{
    if work.len() > 0 {
        lemma_work_cost_same(work.drop_last(), adj, a, b);
    }
}

/// The set of naturals below `k`, as `usize` values.
spec fn below(k: nat) -> Set<usize> {
    Set::new(|x: usize| (x as nat) < k)
}

proof fn lemma_below_len(k: nat)
    requires
        k <= usize::MAX + 1,
    ensures
        below(k).finite(),
        below(k).len() == k,
    decreases k,
{
    if k == 0 {
        assert(below(0) =~= Set::empty());
    } else {
        lemma_below_len((k - 1) as nat);
        assert(below(k) =~= below((k - 1) as nat).insert((k - 1) as usize));
    }
}

/// A duplicate-free sequence of values below `n` has at most `n` elements.
pub(crate) proof fn lemma_distinct_below(s: Seq<usize>, n: nat)
    requires
        s.no_duplicates(),
        n <= usize::MAX + 1,
        forall|i: int| 0 <= i < s.len() ==> (s[i] as nat) < n,
    ensures
        s.len() <= n,
{
    s.unique_seq_to_set();
    lemma_below_len(n);
    assert(s.to_set().subset_of(below(n)));
    vstd::set_lib::lemma_len_subset(s.to_set(), below(n));
}

pub(crate) fn filled_usize(n: usize, value: usize) -> (v: Vec<usize>)
    ensures
        v@.len() == n,
        forall|i: int| 0 <= i < n ==> v@[i] == value,
{
    let mut v: Vec<usize> = Vec::new();
    while v.len() < n
        invariant
            v@.len() <= n,
            forall|i: int| 0 <= i < v@.len() ==> v@[i] == value,
        decreases n - v@.len(),
    {
        v.push(value);
    }
    v
}

pub(crate) fn filled_bool(n: usize, value: bool) -> (v: Vec<bool>)
    ensures
        v@.len() == n,
        forall|i: int| 0 <= i < n ==> v@[i] == value,
{
    let mut v: Vec<bool> = Vec::new();
    while v.len() < n
        invariant
            v@.len() <= n,
            forall|i: int| 0 <= i < v@.len() ==> v@[i] == value,
        decreases n - v@.len(),
    {
        v.push(value);
    }
    v
}


/// Visited nodes are on the Tarjan stack or already emitted, each exactly
/// once, and numbered in visit order.
pub open spec fn tarjan_core(
    n: nat,
    index_of: Seq<usize>,
    on_stack: Seq<bool>,
    stack: Seq<usize>,
    done: Seq<usize>,
    next_index: nat,
) -> bool {
    &&& index_of.len() == n
    &&& on_stack.len() == n
    &&& forall|i: int| 0 <= i < stack.len() ==> (#[trigger] stack[i] as nat) < n
    &&& forall|i: int| 0 <= i < stack.len() ==> index_of[#[trigger] stack[i] as int] != usize::MAX
    &&& forall|v: int| 0 <= v < n ==> on_stack[v] == stack.contains(v as usize)
    &&& forall|i: int, j: int|
        0 <= i < j < stack.len() ==> index_of[#[trigger] stack[i] as int] < index_of[#[trigger] stack[j] as int]
    &&& (done + stack).no_duplicates()
    &&& forall|i: int| 0 <= i < done.len() ==> (#[trigger] done[i] as nat) < n
    &&& forall|i: int| 0 <= i < done.len() ==> index_of[#[trigger] done[i] as int] != usize::MAX
    &&& forall|i: int| 0 <= i < done.len() ==> !on_stack[#[trigger] done[i] as int]
    &&& forall|v: int|
        0 <= v < n && index_of[v] != usize::MAX ==> done.contains(v as usize) || stack.contains(
            v as usize,
        )
    &&& next_index == done.len() + stack.len()
    &&& forall|v: int| 0 <= v < n && index_of[v] != usize::MAX ==> index_of[v] < next_index
}

proof fn lemma_no_dup_reorder(done: Seq<usize>, prefix: Seq<usize>, suffix: Seq<usize>)
    requires
        (done + (prefix + suffix)).no_duplicates(),
    ensures
        ((done + suffix.reverse()) + prefix).no_duplicates(),
{
    broadcast use vstd::seq_lib::lemma_multiset_commutative;

    let x = done + (prefix + suffix);
    let y = (done + suffix.reverse()) + prefix;
    suffix.lemma_reverse_to_multiset();
    assert(x.to_multiset() =~= y.to_multiset());
    x.lemma_multiset_has_no_duplicates();
    y.lemma_multiset_has_no_duplicates_conv();
}

/// `init` lowered, edge by edge over `row[from..to]`, to the visit number of
/// each neighbour still on the stack.
pub open spec fn scan_low(row: Seq<usize>, from: int, to: int, index_of: Seq<usize>, on_stack: Seq<bool>, init: usize) -> usize
    decreases to - from,
{
    if to <= from {
        init
    } else {
        let prev = scan_low(row, from, to - 1, index_of, on_stack, init);
        let w = row[to - 1] as int;
        if on_stack[w] && index_of[w] < prev {
            index_of[w]
        } else {
            prev
        }
    }
}

/// Scan the edges of `node` from `cursor`: lower `low[node]` to the visit
/// number of every neighbour still on the stack, and stop at the first
/// unvisited neighbour, returning its edge position and index.
fn scan_edges(
    adjacency: &Vec<Vec<usize>>,
    node: usize,
    cursor: usize,
    index_of: &Vec<usize>,
    on_stack: &Vec<bool>,
    low: &mut Vec<usize>,
) -> (found: Option<(usize, usize)>)
    requires
        adjacency_ok(adjacency@),
        (node as int) < adjacency@.len(),
        index_of@.len() == adjacency@.len(),
        on_stack@.len() == adjacency@.len(),
        old(low)@.len() == adjacency@.len(),
        cursor <= adjacency@[node as int]@.len(),
    ensures
        final(low)@.len() == old(low)@.len(),
        forall|v: int| 0 <= v < final(low)@.len() && v != node ==> final(low)@[v] == old(low)@[v],
        final(low)@[node as int] <= old(low)@[node as int],
        final(low)@[node as int] == old(low)@[node as int] || exists|v: int|
            0 <= v < adjacency@.len() && on_stack@[v] && index_of@[v] != usize::MAX
                && final(low)@[node as int] == #[trigger] index_of@[v],
        match found {
            Some((edge, next)) => {
                &&& cursor <= edge < adjacency@[node as int]@.len()
                &&& (edge as int) < usize::MAX
                &&& next == adjacency@[node as int]@[edge as int]
                &&& index_of@[next as int] == usize::MAX
                &&& forall|k: int| cursor <= k < edge ==> index_of@[#[trigger] adjacency@[node as int]@[k] as int] != usize::MAX
                &&& final(low)@[node as int] == scan_low(adjacency@[node as int]@, cursor as int, edge as int, index_of@, on_stack@, old(low)@[node as int])
            },
            None => {
                &&& forall|k: int| cursor <= k < adjacency@[node as int]@.len() ==> index_of@[#[trigger] adjacency@[node as int]@[k] as int] != usize::MAX
                &&& final(low)@[node as int] == scan_low(
                    adjacency@[node as int]@,
                    cursor as int,
                    adjacency@[node as int]@.len() as int,
                    index_of@,
                    on_stack@,
                    old(low)@[node as int],
                )
            },
        },
{
    let deg = adjacency[node].len();
    let mut edge_index: usize = cursor;
    while edge_index < deg
        invariant
            adjacency_ok(adjacency@),
            (node as int) < adjacency@.len(),
            deg == adjacency@[node as int]@.len(),
            cursor <= edge_index <= deg,
            index_of@.len() == adjacency@.len(),
            on_stack@.len() == adjacency@.len(),
            old(low)@.len() == adjacency@.len(),
            low@.len() == old(low)@.len(),
            forall|v: int| 0 <= v < low@.len() && v != node ==> low@[v] == old(low)@[v],
            low@[node as int] <= old(low)@[node as int],
            low@[node as int] == old(low)@[node as int] || exists|v: int|
                0 <= v < adjacency@.len() && on_stack@[v] && index_of@[v] != usize::MAX
                    && low@[node as int] == #[trigger] index_of@[v],
            forall|k: int| cursor <= k < edge_index ==> index_of@[#[trigger] adjacency@[node as int]@[k] as int] != usize::MAX,
            low@[node as int] == scan_low(adjacency@[node as int]@, cursor as int, edge_index as int, index_of@, on_stack@, old(low)@[node as int]),
        decreases deg - edge_index,
    {
        let next = adjacency[node][edge_index];
        if index_of[next] == usize::MAX {
            return Some((edge_index, next));
        }
        if on_stack[next] {
            let candidate = index_of[next];
            if candidate < low[node] {
                low.set(node, candidate);
                assert(low@[node as int] == index_of@[next as int]);
            }
        }
        edge_index += 1;
    }
    None
}

proof fn lemma_push_contains(s: Seq<usize>, x: usize)
    ensures
        forall|y: usize| #[trigger] s.push(x).contains(y) <==> (s.contains(y) || y == x),
{
    assert forall|y: usize| #[trigger] s.push(x).contains(y) <==> (s.contains(y) || y == x) by {
        if s.push(x).contains(y) {
            let k = choose|k: int| 0 <= k < s.push(x).len() && s.push(x)[k] == y;
            if k < s.len() {
                assert(s[k] == y);
            }
        }
        if s.contains(y) {
            let k = choose|k: int| 0 <= k < s.len() && s[k] == y;
            assert(s.push(x)[k] == y);
        }
        if y == x {
            assert(s.push(x)[s.len() as int] == y);
        }
    }
}

/// Pop the Tarjan stack down to and including `node` (at position `p`),
/// clearing the on-stack marks of the popped nodes. The popped nodes, in pop
/// order, form the component.
fn pop_component(
    stack: &mut Vec<usize>,
    on_stack: &mut Vec<bool>,
    node: usize,
    Ghost(p): Ghost<int>,
) -> (component: Vec<usize>)
    requires
        0 <= p < old(stack)@.len(),
        old(stack)@[p] == node,
        old(stack)@.no_duplicates(),
        forall|i: int| 0 <= i < old(stack)@.len() ==> (#[trigger] old(stack)@[i] as int) < old(on_stack)@.len(),
    ensures
        final(stack)@ == old(stack)@.take(p),
        component@ == old(stack)@.skip(p).reverse(),
        final(on_stack)@.len() == old(on_stack)@.len(),
        forall|v: int|
            0 <= v < old(on_stack)@.len() ==> final(on_stack)@[v] == (old(on_stack)@[v]
                && !component@.contains(v as usize)),
{
    let ghost original = stack@;
    let ghost marks = on_stack@;
    let total = on_stack.len();
    let mut component: Vec<usize> = Vec::new();
    loop
        invariant_except_break
            p < stack@.len(),
            stack@.len() <= original.len(),
            stack@ == original.take(stack@.len() as int),
            component@ == original.skip(stack@.len() as int).reverse(),
        invariant
            0 <= p < original.len(),
            original[p] == node,
            original.no_duplicates(),
            forall|i: int| 0 <= i < original.len() ==> (#[trigger] original[i] as int) < marks.len(),
            on_stack@.len() == marks.len(),
            marks.len() == total,
            forall|v: int|
                0 <= v < marks.len() ==> #[trigger] on_stack@[v] == (marks[v] && !component@.contains(
                    v as usize,
                )),
        ensures
            stack@ == original.take(p),
            component@ == original.skip(p).reverse(),
        decreases stack@.len(),
    {
        let ghost before = stack@.len();
        let popped = stack.pop();
        let member = match popped {
            None => {
                assert(false);
                break;
            },
            Some(member) => member,
        };
        assert(member == original[before - 1]);
        proof {
            assert(original.skip(before - 1).reverse() =~= original.skip(before as int).reverse().push(
                member,
            ));
            assert(stack@ =~= original.take(before - 1));
        }
        let ghost old_component = component@;
        let ghost marks_now = on_stack@;
        assert((member as int) < marks.len());
        on_stack.set(member, false);
        component.push(member);
        proof {
            lemma_push_contains(old_component, member);
            assert(component@ == old_component.push(member));
            assert forall|v: int| 0 <= v < marks.len() implies on_stack@[v] == (marks[v]
                && !component@.contains(v as usize)) by {
                assert(component@.contains(v as usize) == (old_component.contains(v as usize) || v
                    as usize == member));
                assert(v < on_stack@.len());
                assert(v as usize as int == v);
                assert(marks_now[v] == (marks[v] && !old_component.contains(v as usize)));
                if v != member as int {
                    assert(on_stack@[v] == marks_now[v]);
                }
            }
        }
        if member == node {
            assert(before - 1 == p);
            break;
        }
    }
    component
}

/// The node has been given a visit number.
pub open spec fn visited(index_of: Seq<usize>, v: usize) -> bool {
    index_of[v as int] != usize::MAX
}

/// Low-links of the nodes on the stack lie between the first visit number of
/// the current DFS root and the node's own visit number.
pub open spec fn rooted(
    index_of: Seq<usize>,
    low: Seq<usize>,
    stack: Seq<usize>,
    next_index: nat,
    root: nat,
) -> bool {
    &&& next_index >= root
    &&& forall|i: int|
        0 <= i < stack.len() ==> low[#[trigger] stack[i] as int] <= index_of[stack[i] as int]
    &&& forall|i: int| 0 <= i < stack.len() ==> root <= low[#[trigger] stack[i] as int]
    &&& forall|i: int| 0 <= i < stack.len() ==> root <= index_of[#[trigger] stack[i] as int]
}

/// The work stack of a DFS rooted at `start`: only the top item may be a
/// node not yet visited (with cursor 0); visited items are on the Tarjan
/// stack, in visit order, with cursors within their adjacency lists.
pub open spec fn work_ok(
    adj: Seq<Vec<usize>>,
    index_of: Seq<usize>,
    on_stack: Seq<bool>,
    stack: Seq<usize>,
    next_index: nat,
    work: Seq<(usize, usize)>,
    start: usize,
    root: nat,
) -> bool {
    &&& forall|i: int| 0 <= i < work.len() ==> ((#[trigger] work[i]).0 as int) < adj.len()
    &&& forall|i: int|
        0 <= i < work.len() ==> ((#[trigger] work[i]).1 == 0) == !visited(index_of, work[i].0)
    &&& forall|i: int|
        0 <= i < work.len() && !visited(index_of, (#[trigger] work[i]).0) ==> i == work.len() - 1
    &&& forall|i: int|
        0 <= i < work.len() && visited(index_of, (#[trigger] work[i]).0) ==> work[i].1
            <= adj[work[i].0 as int]@.len() && on_stack[work[i].0 as int]
    &&& forall|i: int, j: int|
        0 <= i < j < work.len() && visited(index_of, (#[trigger] work[i]).0) && visited(
            index_of,
            (#[trigger] work[j]).0,
        ) ==> index_of[work[i].0 as int] < index_of[work[j].0 as int]
    &&& work.len() > 0 ==> work[0].0 == start
    &&& (start as int) < adj.len()
    &&& !visited(index_of, start) ==> stack.len() == 0 && work.len() == 1 && next_index == root
    &&& visited(index_of, start) ==> index_of[start as int] == root
    &&& visited(index_of, start) && work.len() > 0 ==> stack.len() > 0 && stack[0] == start
    &&& work.len() == 0 ==> stack.len() == 0 && visited(index_of, start)
}

/// The state once the top work item `(node, cursor)` has been taken off the
/// work stack (leaving `rest`) and `node` has been visited.
pub open spec fn active_ok(
    adj: Seq<Vec<usize>>,
    index_of: Seq<usize>,
    on_stack: Seq<bool>,
    stack: Seq<usize>,
    rest: Seq<(usize, usize)>,
    node: usize,
    cursor: usize,
    start: usize,
    root: nat,
) -> bool {
    &&& (node as int) < adj.len()
    &&& (start as int) < adj.len()
    &&& visited(index_of, node)
    &&& on_stack[node as int]
    &&& cursor <= adj[node as int]@.len()
    &&& forall|i: int| 0 <= i < rest.len() ==> ((#[trigger] rest[i]).0 as int) < adj.len()
    &&& forall|i: int|
        0 <= i < rest.len() ==> (#[trigger] rest[i]).1 > 0 && visited(index_of, rest[i].0)
            && rest[i].1 <= adj[rest[i].0 as int]@.len() && on_stack[rest[i].0 as int]
    &&& forall|i: int, j: int|
        0 <= i < j < rest.len() ==> index_of[(#[trigger] rest[i]).0 as int] < index_of[(
        #[trigger] rest[j]).0 as int]
    &&& forall|i: int|
        0 <= i < rest.len() ==> index_of[(#[trigger] rest[i]).0 as int] < index_of[node as int]
    &&& rest.len() > 0 ==> rest[0].0 == start
    &&& rest.len() == 0 ==> node == start
    &&& index_of[start as int] == root
    &&& stack.len() > 0
    &&& stack[0] == start
}

proof fn lemma_resume(
    adj: Seq<Vec<usize>>,
    index_of: Seq<usize>,
    on_stack: Seq<bool>,
    stack: Seq<usize>,
    next_index: nat,
    rest: Seq<(usize, usize)>,
    node: usize,
    cursor: usize,
    start: usize,
    root: nat,
)
    requires
        work_ok(adj, index_of, on_stack, stack, next_index, rest.push((node, cursor)), start, root),
        cursor > 0,
    ensures
        active_ok(adj, index_of, on_stack, stack, rest, node, cursor, start, root),
{
    let work = rest.push((node, cursor));
    assert(work[work.len() - 1] == (node, cursor));
    assert forall|i: int| 0 <= i < rest.len() implies #[trigger] rest[i] == work[i] by {}
    assert forall|i: int| 0 <= i < rest.len() implies visited(index_of, (#[trigger] rest[i]).0) by {
        assert(work[i] == rest[i]);
    }
    assert forall|i: int| 0 <= i < rest.len() implies index_of[(#[trigger] rest[i]).0 as int]
        < index_of[node as int] by {
        assert(work[i] == rest[i]);
        assert(visited(index_of, work[i].0));
        assert(visited(index_of, work[work.len() - 1].0));
    }
    assert forall|i: int, j: int| 0 <= i < j < rest.len() implies index_of[(
    #[trigger] rest[i]).0 as int] < index_of[(#[trigger] rest[j]).0 as int] by {
        assert(work[i] == rest[i]);
        assert(work[j] == rest[j]);
    }
    assert(work[0].0 == start);
    if !visited(index_of, start) {
        assert(work.len() == 1);
    }
}

proof fn lemma_after_visit(
    adj: Seq<Vec<usize>>,
    index_of: Seq<usize>,
    on_stack: Seq<bool>,
    stack: Seq<usize>,
    next_index: nat,
    rest: Seq<(usize, usize)>,
    node: usize,
    start: usize,
    root: nat,
)
    requires
        work_ok(adj, index_of, on_stack, stack, next_index, rest.push((node, 0)), start, root),
        next_index < usize::MAX,
        (node as int) < index_of.len(),
        index_of.len() == adj.len(),
        on_stack.len() == adj.len(),
        forall|v: int| 0 <= v < adj.len() && index_of[v] != usize::MAX ==> index_of[v] < next_index,
        forall|v: int| 0 <= v < adj.len() ==> on_stack[v] == stack.contains(v as usize),
    ensures
        active_ok(
            adj,
            index_of.update(node as int, next_index as usize),
            on_stack.update(node as int, true),
            stack.push(node),
            rest,
            node,
            0,
            start,
            root,
        ),
{
    let work = rest.push((node, 0usize));
    let index2 = index_of.update(node as int, next_index as usize);
    let marks2 = on_stack.update(node as int, true);
    assert(work[work.len() - 1] == (node, 0usize));
    assert(!visited(index_of, node));
    assert forall|i: int| 0 <= i < rest.len() implies #[trigger] rest[i] == work[i] by {}
    assert forall|i: int| 0 <= i < rest.len() implies visited(index_of, (#[trigger] rest[i]).0)
        && rest[i].0 != node by {
        assert(work[i] == rest[i]);
    }
    assert forall|i: int| 0 <= i < rest.len() implies (#[trigger] rest[i]).1 > 0 && visited(
        index2,
        rest[i].0,
    ) && rest[i].1 <= adj[rest[i].0 as int]@.len() && marks2[rest[i].0 as int] by {
        assert(work[i] == rest[i]);
        assert(visited(index_of, rest[i].0));
    }
    assert forall|i: int| 0 <= i < rest.len() implies index2[(#[trigger] rest[i]).0 as int]
        < index2[node as int] by {
        assert(work[i] == rest[i]);
        assert(visited(index_of, rest[i].0));
    }
    assert forall|i: int, j: int| 0 <= i < j < rest.len() implies index2[(
    #[trigger] rest[i]).0 as int] < index2[(#[trigger] rest[j]).0 as int] by {
        assert(work[i] == rest[i]);
        assert(work[j] == rest[j]);
        assert(visited(index_of, rest[i].0));
        assert(visited(index_of, rest[j].0));
    }
    assert(work[0].0 == start);
    if rest.len() == 0 {
        assert(node == start);
    } else {
        assert(rest[0] == work[0]);
        assert(visited(index_of, start));
        assert(start != node);
    }
    let pushed = stack.push(node);
    assert(pushed[0] == start);
}

proof fn lemma_descend(
    adj: Seq<Vec<usize>>,
    index_of: Seq<usize>,
    on_stack: Seq<bool>,
    stack: Seq<usize>,
    next_index: nat,
    rest: Seq<(usize, usize)>,
    node: usize,
    cursor: usize,
    edge: usize,
    next: usize,
    start: usize,
    root: nat,
)
    requires
        active_ok(adj, index_of, on_stack, stack, rest, node, cursor, start, root),
        adjacency_ok(adj),
        cursor <= edge,
        adj[node as int]@.len() > edge,
        next == adj[node as int]@.index(edge as int),
        !visited(index_of, next),
        usize::MAX > edge,
    ensures
        work_ok(
            adj,
            index_of,
            on_stack,
            stack,
            next_index,
            rest.push((node, (edge + 1) as usize)).push((next, 0usize)),
            start,
            root,
        ),
{
    let mid = rest.push((node, (edge + 1) as usize));
    let work = rest.push((node, (edge + 1) as usize)).push((next, 0usize));
    let last = work.len() - 1;
    assert((next as int) < adj.len());
    assert forall|i: int| 0 <= i < rest.len() implies #[trigger] work[i] == rest[i] by {}
    assert(work[rest.len() as int] == (node, (edge + 1) as usize));
    assert(work[last].0 == next && work[last].1 == 0);
    assert forall|i: int, j: int|
        0 <= i < j < work.len() && visited(index_of, (#[trigger] work[i]).0) && visited(
            index_of,
            (#[trigger] work[j]).0,
        ) implies index_of[work[i].0 as int] < index_of[work[j].0 as int] by {
        if j < rest.len() {
            assert(work[i] == rest[i] && work[j] == rest[j]);
        } else if j == rest.len() {
            assert(work[i] == rest[i]);
        }
    }
    assert forall|i: int| 0 <= i < work.len() implies ((#[trigger] work[i]).1 == 0) == !visited(
        index_of,
        work[i].0,
    ) by {
        if i < rest.len() {
            assert(work[i] == rest[i]);
        }
    }
    assert forall|i: int|
        0 <= i < work.len() && !visited(index_of, (#[trigger] work[i]).0) implies i == work.len()
        - 1 by {
        if i < rest.len() {
            assert(work[i] == rest[i]);
        }
    }
    assert forall|i: int|
        0 <= i < work.len() && visited(index_of, (#[trigger] work[i]).0) implies work[i].1
        <= adj[work[i].0 as int]@.len() && on_stack[work[i].0 as int] by {
        if i < rest.len() {
            assert(work[i] == rest[i]);
        }
    }
    if rest.len() == 0 {
        assert(work[0].0 == node);
    } else {
        assert(work[0] == rest[0]);
    }
}

proof fn lemma_sorted_position(index_of: Seq<usize>, stack: Seq<usize>, q: int, p: int)
    requires
        0 <= q < stack.len(),
        0 <= p < stack.len(),
        forall|i: int, j: int|
            0 <= i < j < stack.len() ==> index_of[#[trigger] stack[i] as int] < index_of[#[trigger] stack[j] as int],
        index_of[stack[q] as int] < index_of[stack[p] as int],
    ensures
        q < p,
{
    if q >= p {
        if q > p {
            assert(index_of[stack[p] as int] < index_of[stack[q] as int]);
        }
    }
}

/// Finishing `node`: when its low-link equals its visit number, its component
/// (the stack from `node` up) is emitted; the work and stack invariants then
/// hold for the remaining work.
proof fn lemma_finish(
    adj: Seq<Vec<usize>>,
    index_of: Seq<usize>,
    low: Seq<usize>,
    on_stack: Seq<bool>,
    stack: Seq<usize>,
    next_index: nat,
    done: Seq<usize>,
    rest: Seq<(usize, usize)>,
    node: usize,
    cursor: usize,
    start: usize,
    root: nat,
    p: int,
    on_stack2: Seq<bool>,
)
    requires
        tarjan_core(adj.len(), index_of, on_stack, stack, done, next_index),
        rooted(index_of, low, stack, next_index, root),
        active_ok(adj, index_of, on_stack, stack, rest, node, cursor, start, root),
        low[node as int] == index_of[node as int],
        0 <= p < stack.len(),
        stack[p] == node,
        on_stack2.len() == on_stack.len(),
        forall|v: int|
            0 <= v < on_stack.len() ==> on_stack2[v] == (on_stack[v] && !stack.skip(p).reverse().contains(v as usize)),
    ensures
        tarjan_core(adj.len(), index_of, on_stack2, stack.take(p), done + stack.skip(p).reverse(), next_index),
        rooted(index_of, low, stack.take(p), next_index, root),
        work_ok(adj, index_of, on_stack2, stack.take(p), next_index, rest, start, root),
{
    let n = adj.len();
    let prefix = stack.take(p);
    let suffix = stack.skip(p);
    let component = suffix.reverse();
    let done2 = done + component;
    assert(stack =~= prefix + suffix);
    assert(stack.no_duplicates()) by {
        assert forall|i: int, j: int| 0 <= i < j < stack.len() implies stack[i] != stack[j] by {
            assert((done + stack)[done.len() + i] == stack[i]);
            assert((done + stack)[done.len() + j] == stack[j]);
        }
    }
    lemma_no_dup_reorder(done, prefix, suffix);
    assert((done2 + prefix) =~= (done + suffix.reverse()) + prefix);
    // membership of the component
    assert forall|x: usize| component.contains(x) <==> suffix.contains(x) by {
        if component.contains(x) {
            let k = choose|k: int| 0 <= k < component.len() && component[k] == x;
            assert(suffix[suffix.len() - 1 - k] == x);
        }
        if suffix.contains(x) {
            let k = choose|k: int| 0 <= k < suffix.len() && suffix[k] == x;
            assert(component[suffix.len() - 1 - k] == x);
        }
    }
    assert forall|x: usize| stack.contains(x) <==> prefix.contains(x) || suffix.contains(x) by {
        if stack.contains(x) {
            let k = choose|k: int| 0 <= k < stack.len() && stack[k] == x;
            if k < p {
                assert(prefix[k] == x);
            } else {
                assert(suffix[k - p] == x);
            }
        }
        if prefix.contains(x) {
            let k = choose|k: int| 0 <= k < prefix.len() && prefix[k] == x;
            assert(stack[k] == x);
        }
        if suffix.contains(x) {
            let k = choose|k: int| 0 <= k < suffix.len() && suffix[k] == x;
            assert(stack[k + p] == x);
        }
    }
    assert forall|x: usize| !(prefix.contains(x) && suffix.contains(x)) by {
        if prefix.contains(x) && suffix.contains(x) {
            let a = choose|a: int| 0 <= a < prefix.len() && prefix[a] == x;
            let b = choose|b: int| 0 <= b < suffix.len() && suffix[b] == x;
            assert(stack[a] == stack[b + p]);
        }
    }
    // the core invariant
    assert forall|v: int| 0 <= v < n implies on_stack2[v] == prefix.contains(v as usize) by {
        assert(on_stack[v] == stack.contains(v as usize));
    }
    assert forall|i: int| 0 <= i < done2.len() implies (#[trigger] done2[i] as nat) < n
        && index_of[done2[i] as int] != usize::MAX && !on_stack2[done2[i] as int] by {
        if i < done.len() {
            assert(done2[i] == done[i]);
        } else {
            let x = done2[i];
            assert(component[i - done.len()] == x);
            assert(component.contains(x));
            let k = choose|k: int| 0 <= k < suffix.len() && suffix[k] == x;
            assert(stack[k + p] == x);
        }
    }
    assert forall|v: int|
        0 <= v < n && index_of[v] != usize::MAX implies done2.contains(v as usize) || prefix.contains(
        v as usize,
    ) by {
        if done.contains(v as usize) {
            let k = choose|k: int| 0 <= k < done.len() && done[k] == v as usize;
            assert(done2[k] == v as usize);
        } else if suffix.contains(v as usize) {
            let k = choose|k: int| 0 <= k < component.len() && component[k] == v as usize;
            assert(done2[done.len() + k] == v as usize);
        }
    }
    assert forall|i: int| 0 <= i < prefix.len() implies (#[trigger] prefix[i] as nat) < n
        && index_of[prefix[i] as int] != usize::MAX by {
        assert(prefix[i] == stack[i]);
    }
    assert forall|i: int, j: int| 0 <= i < j < prefix.len() implies index_of[
    #[trigger] prefix[i] as int] < index_of[#[trigger] prefix[j] as int] by {
        assert(prefix[i] == stack[i] && prefix[j] == stack[j]);
    }
    // low-links
    assert forall|i: int| 0 <= i < prefix.len() implies low[#[trigger] prefix[i] as int]
        <= index_of[prefix[i] as int] && root <= low[prefix[i] as int] && root <= index_of[prefix[i] as int] by {
        assert(prefix[i] == stack[i]);
    }
    // the remaining work stays on the stack below `node`
    assert forall|i: int| 0 <= i < rest.len() implies on_stack2[(#[trigger] rest[i]).0 as int] by {
        let w = rest[i].0;
        assert(on_stack[w as int]);
        assert(stack.contains(w));
        let q = choose|q: int| 0 <= q < stack.len() && stack[q] == w;
        lemma_sorted_position(index_of, stack, q, p);
        assert(prefix[q] == w);
        assert(prefix.contains(w));
    }
    assert(index_of[stack[0] as int] != usize::MAX);
    if rest.len() > 0 {
        assert(rest[0].0 == start);
        assert(index_of[start as int] < index_of[node as int]);
        assert(p != 0);
        assert(prefix[0] == start);
    } else {
        assert(node == start);
        if p != 0 {
            assert(stack[0] == stack[p]);
        }
    }
}

/// Finishing `node` without emitting a component leaves the stack as it is;
/// the work invariant then holds for the remaining work.
proof fn lemma_keep(
    adj: Seq<Vec<usize>>,
    index_of: Seq<usize>,
    low: Seq<usize>,
    on_stack: Seq<bool>,
    stack: Seq<usize>,
    next_index: nat,
    rest: Seq<(usize, usize)>,
    node: usize,
    cursor: usize,
    start: usize,
    root: nat,
)
    requires
        rooted(index_of, low, stack, next_index, root),
        active_ok(adj, index_of, on_stack, stack, rest, node, cursor, start, root),
        forall|i: int| 0 <= i < stack.len() ==> index_of[#[trigger] stack[i] as int] != usize::MAX,
        low[node as int] != index_of[node as int],
    ensures
        work_ok(adj, index_of, on_stack, stack, next_index, rest, start, root),
{
    if rest.len() == 0 {
        assert(node == start);
        assert(low[stack[0] as int] <= index_of[stack[0] as int]);
        assert(root <= low[stack[0] as int]);
    }
    assert(index_of[stack[0] as int] != usize::MAX);
}

proof fn lemma_work_cost_descend(
    adj: Seq<Vec<usize>>,
    index_of: Seq<usize>,
    rest: Seq<(usize, usize)>,
    node: usize,
    cursor: usize,
    edge: usize,
    next: usize,
)
    requires
        (node as int) < adj.len(),
        (next as int) < index_of.len(),
        (node as int) < index_of.len(),
        index_of[node as int] != usize::MAX,
        index_of[next as int] == usize::MAX,
        cursor <= edge,
        adj[node as int]@.len() > edge,
        usize::MAX > edge,
    ensures
        work_cost(rest.push((node, (edge + 1) as usize)).push((next, 0usize)), adj, index_of)
            < work_cost(rest.push((node, cursor)), adj, index_of),
{
    let mid = rest.push((node, (edge + 1) as usize));
    let work = mid.push((next, 0usize));
    let before = rest.push((node, cursor));
    assert(work.drop_last() =~= mid);
    assert(mid.drop_last() =~= rest);
    assert(before.drop_last() =~= rest);
    assert(work.last() == (next, 0usize));
    assert(mid.last() == (node, (edge + 1) as usize));
    assert(before.last() == (node, cursor));
    assert(work_cost(work, adj, index_of) == work_cost(mid, adj, index_of) + item_cost(
        (next, 0usize),
        adj,
        index_of,
    ));
    assert(work_cost(mid, adj, index_of) == work_cost(rest, adj, index_of) + item_cost(
        (node, (edge + 1) as usize),
        adj,
        index_of,
    ));
    assert(work_cost(before, adj, index_of) == work_cost(rest, adj, index_of) + item_cost(
        (node, cursor),
        adj,
        index_of,
    ));
}

proof fn lemma_work_cost_pop(
    adj: Seq<Vec<usize>>,
    index_of: Seq<usize>,
    rest: Seq<(usize, usize)>,
    node: usize,
    cursor: usize,
)
    requires
        (node as int) < adj.len(),
        (node as int) < index_of.len(),
        index_of[node as int] != usize::MAX,
        cursor <= adj[node as int]@.len(),
    ensures
        work_cost(rest, adj, index_of) < work_cost(rest.push((node, cursor)), adj, index_of),
{
    assert(rest.push((node, cursor)).drop_last() =~= rest);
}

/// Give `node` the next visit number and push it on the Tarjan stack.
fn visit(
    index_of: &mut Vec<usize>,
    low: &mut Vec<usize>,
    on_stack: &mut Vec<bool>,
    stack: &mut Vec<usize>,
    next_index: &mut usize,
    node: usize,
    Ghost(done): Ghost<Seq<usize>>,
    Ghost(n): Ghost<nat>,
)
    requires
        tarjan_core(n, old(index_of)@, old(on_stack)@, old(stack)@, done, *old(next_index) as nat),
        old(low)@.len() == n,
        (node as int) < n,
        old(index_of)@[node as int] == usize::MAX,
        n <= usize::MAX,
    ensures
        *old(next_index) < usize::MAX,
        *final(next_index) == *old(next_index) + 1,
        final(index_of)@ == old(index_of)@.update(node as int, *old(next_index)),
        final(low)@ == old(low)@.update(node as int, *old(next_index)),
        final(on_stack)@ == old(on_stack)@.update(node as int, true),
        final(stack)@ == old(stack)@.push(node),
        tarjan_core(n, final(index_of)@, final(on_stack)@, final(stack)@, done, *final(next_index) as nat),
{
    let ghost pushed = done + stack@.push(node);
    proof {
        assert forall|i: int| 0 <= i < pushed.len() implies (pushed[i] as nat) < n by {
            if i < done.len() {
                assert(pushed[i] == done[i]);
            } else if i < done.len() + stack@.len() {
                assert(pushed[i] == stack@[i - done.len()]);
            }
        }
        assert((done + stack@).push(node) =~= pushed);
        if (done + stack@).contains(node) {
            let k = choose|k: int| 0 <= k < (done + stack@).len() && (done + stack@)[k] == node;
            if k < done.len() {
                assert(done[k] == node);
            } else {
                assert(stack@[k - done.len()] == node);
            }
        }
        lemma_distinct_below(pushed, n);
    }
    let number = *next_index;
    index_of.set(node, number);
    low.set(node, number);
    *next_index = number + 1;
    stack.push(node);
    on_stack.set(node, true);
    proof {
        assert(done + stack@ =~= pushed);
        assert forall|v: int| 0 <= v < n implies on_stack@[v] == stack@.contains(v as usize) by {
            if v != node as int {
                assert(old(stack)@.contains(v as usize) ==> stack@.contains(v as usize)) by {
                    if old(stack)@.contains(v as usize) {
                        let k = choose|k: int| 0 <= k < old(stack)@.len() && old(stack)@[k] == v as usize;
                        assert(stack@[k] == v as usize);
                    }
                }
                assert(stack@.contains(v as usize) ==> old(stack)@.contains(v as usize)) by {
                    if stack@.contains(v as usize) {
                        let k = choose|k: int| 0 <= k < stack@.len() && stack@[k] == v as usize;
                        assert(old(stack)@[k] == v as usize);
                    }
                }
            } else {
                assert(stack@[stack@.len() - 1] == node);
            }
        }
        assert forall|v: int|
            0 <= v < n && index_of@[v] != usize::MAX implies done.contains(v as usize)
            || stack@.contains(v as usize) by {
            if v == node as int {
                assert(stack@[stack@.len() - 1] == node);
            } else if old(stack)@.contains(v as usize) {
                let k = choose|k: int| 0 <= k < old(stack)@.len() && old(stack)@[k] == v as usize;
                assert(stack@[k] == v as usize);
            }
        }
        assert forall|i: int, j: int| 0 <= i < j < stack@.len() implies index_of@[
        #[trigger] stack@[i] as int] < index_of@[#[trigger] stack@[j] as int] by {
            if j == stack@.len() - 1 {
                assert(stack@[i] == old(stack)@[i]);
                assert(old(stack)@[i] != node);
            } else {
                assert(stack@[i] == old(stack)@[i] && stack@[j] == old(stack)@[j]);
                assert(old(stack)@[i] != node && old(stack)@[j] != node);
            }
        }
        assert forall|i: int| 0 <= i < done.len() implies !on_stack@[#[trigger] done[i] as int] by {
            assert(pushed[i] == done[i]);
            assert(pushed[pushed.len() - 1] == node);
        }
    }
}

/// Tarjan's walk, iterative: an explicit work stack of `(node, next-edge
/// cursor)` replaces recursion. The components it emits partition the nodes:
/// each node is in exactly one of them, and none is empty.
#[verifier::rlimit(60)]
#[verifier::spinoff_prover]
fn tarjan_components(adjacency: &Vec<Vec<usize>>) -> (sccs: Vec<Vec<usize>>)
    requires
        adjacency_ok(adjacency@),
    ensures
        forall|c: int| 0 <= c < sccs@.len() ==> (#[trigger] sccs@[c])@.len() > 0,
        components(sccs@).flatten().no_duplicates(),
        forall|v: usize| (v as int) < adjacency@.len() ==> components(sccs@).flatten().contains(v),
        forall|i: int|
            0 <= i < components(sccs@).flatten().len() ==> (#[trigger] components(
                sccs@,
            ).flatten()[i] as int) < adjacency@.len(),
{
    let n = adjacency.len();
    let ghost adj = adjacency@;
    let mut index_of = filled_usize(n, usize::MAX);
    let mut low = filled_usize(n, 0);
    let mut on_stack = filled_bool(n, false);
    let mut stack: Vec<usize> = Vec::new();
    let mut next_index: usize = 0;
    let mut sccs: Vec<Vec<usize>> = Vec::new();
    let ghost mut done: Seq<usize> = Seq::empty();
    proof {
        assert(components(sccs@).flatten() =~= done);
        assert(done + stack@ =~= Seq::<usize>::empty());
    }
    let mut start: usize = 0;
    while start < n
        invariant
            n == adj.len(),
            adj == adjacency@,
            adjacency_ok(adj),
            start <= n,
            low@.len() == n,
            tarjan_core(n as nat, index_of@, on_stack@, stack@, done, next_index as nat),
            stack@.len() == 0,
            forall|v: int| 0 <= v < start ==> index_of@[v] != usize::MAX,
            components(sccs@).flatten() == done,
            forall|c: int| 0 <= c < sccs@.len() ==> (#[trigger] sccs@[c])@.len() > 0,
        decreases n - start,
    {
        if index_of[start] != usize::MAX {
            start += 1;
            continue;
        }
        let ghost root_index: usize = next_index;
        let mut work: Vec<(usize, usize)> = Vec::new();
        work.push((start, 0));
        proof {
            assert(work@[0] == (start, 0usize));
        }
        loop
            invariant
                n == adj.len(),
                adj == adjacency@,
                adjacency_ok(adj),
                start < n,
                low@.len() == n,
                tarjan_core(n as nat, index_of@, on_stack@, stack@, done, next_index as nat),
                rooted(index_of@, low@, stack@, next_index as nat, root_index as nat),
                work_ok(adj, index_of@, on_stack@, stack@, next_index as nat, work@, start, root_index as nat),
                forall|v: int| 0 <= v < start ==> index_of@[v] != usize::MAX,
                components(sccs@).flatten() == done,
                forall|c: int| 0 <= c < sccs@.len() ==> (#[trigger] sccs@[c])@.len() > 0,
            ensures
                low@.len() == n,
                tarjan_core(n as nat, index_of@, on_stack@, stack@, done, next_index as nat),
                stack@.len() == 0,
                forall|v: int| 0 <= v <= start ==> index_of@[v] != usize::MAX,
                components(sccs@).flatten() == done,
                forall|c: int| 0 <= c < sccs@.len() ==> (#[trigger] sccs@[c])@.len() > 0,
            decreases unvisited_count(index_of@, n as int), work_cost(work@, adj, index_of@),
        {
            let ghost work_before = work@;
            let ghost unvisited_before = unvisited_count(index_of@, n as int);
            let top = work.pop();
            let (node, cursor) = match top {
                None => {
                    break;
                },
                Some(item) => item,
            };
            let ghost rest = work@;
            proof {
                assert(work_before =~= rest.push((node, cursor)));
            }
            if cursor == 0 {
                proof {
                    assert(work_before[work_before.len() - 1] == (node, cursor));
                    assert(!visited(index_of@, node));
                }
                let ghost index_before = index_of@;
                let ghost stack_prev = stack@;
                let ghost low_prev = low@;
                let ghost marks_prev = on_stack@;
                let ghost number_prev = next_index;
                visit(
                    &mut index_of,
                    &mut low,
                    &mut on_stack,
                    &mut stack,
                    &mut next_index,
                    node,
                    Ghost(done),
                    Ghost(n as nat),
                );
                proof {
                    lemma_after_visit(
                        adj,
                        index_before,
                        marks_prev,
                        stack_prev,
                        number_prev as nat,
                        rest,
                        node,
                        start,
                        root_index as nat,
                    );
                    lemma_unvisited_count_visit(index_before, node as int, (next_index - 1) as usize, n as int);
                    assert forall|i: int| 0 <= i < stack@.len() implies low@[#[trigger] stack@[i] as int]
                        <= index_of@[stack@[i] as int] && root_index <= low@[stack@[i] as int]
                        && root_index <= index_of@[stack@[i] as int] by {
                        if i < stack@.len() - 1 {
                            assert(stack@[i] == stack_prev[i]);
                            assert(index_before[stack_prev[i] as int] != usize::MAX);
                            assert(stack_prev[i] != node);
                            assert(low_prev[stack_prev[i] as int] <= index_before[stack_prev[i] as int]);
                        }
                    }
                }
            } else {
                proof {
                    lemma_resume(
                        adj,
                        index_of@,
                        on_stack@,
                        stack@,
                        next_index as nat,
                        rest,
                        node,
                        cursor,
                        start,
                        root_index as nat,
                    );
                }
            }
            let ghost low_before = low@;
            let scanned = scan_edges(adjacency, node, cursor, &index_of, &on_stack, &mut low);
            proof {
                assert forall|i: int| 0 <= i < stack@.len() implies low@[#[trigger] stack@[i] as int]
                    <= index_of@[stack@[i] as int] && root_index <= low@[stack@[i] as int] by {
                    if stack@[i] == node && low@[node as int] != low_before[node as int] {
                        let v = choose|v: int|
                            0 <= v < adjacency@.len() && on_stack@[v] && index_of@[v] != usize::MAX
                                && low@[node as int] == #[trigger] index_of@[v];
                        assert(stack@.contains(v as usize));
                        let k = choose|k: int| 0 <= k < stack@.len() && stack@[k] == v as usize;
                        assert(root_index <= index_of@[stack@[k] as int]);
                    }
                }
            }
            match scanned {
                Some((edge, next)) => {
                    proof {
                        lemma_descend(
                            adj,
                            index_of@,
                            on_stack@,
                            stack@,
                            next_index as nat,
                            rest,
                            node,
                            cursor,
                            edge,
                            next,
                            start,
                            root_index as nat,
                        );
                        if cursor != 0 {
                            lemma_work_cost_descend(adj, index_of@, rest, node, cursor, edge, next);
                        }
                    }
                    work.push((node, edge + 1));
                    work.push((next, 0));
                    continue;
                },
                None => {},
            }
            proof {
                if cursor != 0 {
                    lemma_work_cost_pop(adj, index_of@, rest, node, cursor);
                }
                assert(stack@.contains(node));
                let k = choose|k: int| 0 <= k < stack@.len() && stack@[k] == node;
                assert(root_index <= low@[stack@[k] as int]);
            }
            let ghost node_low_before = low@[node as int];
            let ghost stack_before = stack@;
            let ghost marks_before = on_stack@;
            let ghost p = stack_before.index_of(node);
            if low[node] == index_of[node] {
                proof {
                    assert(stack_before.no_duplicates()) by {
                        assert forall|i: int, j: int| 0 <= i < j < stack_before.len() implies stack_before[i]
                            != stack_before[j] by {
                            assert((done + stack_before)[done.len() + i] == stack_before[i]);
                            assert((done + stack_before)[done.len() + j] == stack_before[j]);
                        }
                    }
                }
                let component = pop_component(&mut stack, &mut on_stack, node, Ghost(p));
                let ghost sccs_prev = sccs@;
                let ghost component_view = component@;
                proof {
                    lemma_finish(
                        adj,
                        index_of@,
                        low@,
                        marks_before,
                        stack_before,
                        next_index as nat,
                        done,
                        rest,
                        node,
                        cursor,
                        start,
                        root_index as nat,
                        p,
                        on_stack@,
                    );
                    done = done + component@;
                    components(sccs@).lemma_flatten_push(component@);
                }
                sccs.push(component);
                proof {
                    assert(components(sccs@) =~= components(sccs_prev).push(component_view));
                    assert(sccs@[sccs@.len() - 1]@ == component_view);
                    assert(component_view.len() > 0);
                }
            } else {
                proof {
                    assert(forall|i: int| 0 <= i < stack@.len() ==> index_of@[#[trigger] stack@[i] as int] != usize::MAX);
                    lemma_keep(
                        adj,
                        index_of@,
                        low@,
                        on_stack@,
                        stack@,
                        next_index as nat,
                        rest,
                        node,
                        cursor,
                        start,
                        root_index as nat,
                    );
                }
            }
            if work.len() > 0 {
                let parent = work[work.len() - 1].0;
                let node_low = low[node];
                let ghost low_mid = low@;
                proof {
                    assert(work@[work@.len() - 1].0 == parent);
                    assert(on_stack@[parent as int]);
                }
                if node_low < low[parent] {
                    low.set(parent, node_low);
                    proof {
                        assert forall|i: int| 0 <= i < stack@.len() implies low@[
                        #[trigger] stack@[i] as int] <= index_of@[stack@[i] as int] && root_index
                            <= low@[stack@[i] as int] by {
                            if stack@[i] != parent {
                                assert(low@[stack@[i] as int] == low_mid[stack@[i] as int]);
                            }
                        }
                    }
                }
            }
        }
        start += 1;
    }
    proof {
        assert(done + stack@ =~= done);
        assert forall|v: usize| (v as int) < adjacency@.len() implies components(sccs@).flatten().contains(v) by {
            assert(index_of@[v as int] != usize::MAX);
        }
    }
    sccs
}

/// The strongly-connected components of the graph, in the order Tarjan's
/// algorithm emits them: each node is in exactly one, none is empty, two
/// nodes share a component exactly when each reaches the other, and an edge
/// between two components leads to the one emitted first. The emitted
/// components are confirmed in a linear pass (no edge leads to a component
/// emitted later, and each component's first member reaches and is reached by
/// the others); were that confirmation to fail, the components would be
/// computed again from reachability.
pub fn tarjan_sccs(adjacency: &Vec<Vec<usize>>) -> (sccs: Vec<Vec<usize>>)
    requires
        adjacency_ok(adjacency@),
    ensures
        forall|c: int| 0 <= c < sccs@.len() ==> (#[trigger] sccs@[c])@.len() > 0,
        components(sccs@).flatten().no_duplicates(),
        forall|v: usize| (v as int) < adjacency@.len() ==> components(sccs@).flatten().contains(v),
        forall|i: int|
            0 <= i < components(sccs@).flatten().len() ==> (#[trigger] components(sccs@).flatten()[i] as int)
                < adjacency@.len(),
        scc_exact(components(sccs@), adjacency@),
        emit_ordered(components(sccs@), adjacency@),
{
    let sccs = tarjan_components(adjacency);
    let rev = reverse_adjacency(adjacency);
    proof {
        let comps = components(sccs@);
        assert forall|c: int, i: int| 0 <= c < sccs@.len() && 0 <= i < sccs@[c]@.len() implies (#[trigger] sccs@[c]@[i] as int)
            < adjacency@.len() by {
            assert(comps[c] == sccs@[c]@);
            lemma_flatten_parts(comps, c, i);
            let j = choose|j: int| 0 <= j < comps.flatten().len() && comps.flatten()[j] == comps[c][i];
        }
    }
    if certify_sccs(adjacency, &rev, &sccs) {
        sccs
    } else {
        sccs_by_reach(adjacency, &rev)
    }
}

} // verus!
