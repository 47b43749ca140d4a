use effect_doctor_core::cycles::{analyze, metas, to_diagnostic, CycleHit, ImportEdge};
use effect_doctor_core::diagnostics::FileContext;
use effect_doctor_core::reach::{certify_sccs, mark_reachable, reverse_adjacency, sccs_by_reach};
use effect_doctor_core::scc::tarjan_sccs;

fn edge(from: &str, to: &str) -> ImportEdge {
    ImportEdge { from: from.to_string(), to: to.to_string() }
}

fn files(names: &[&str]) -> Vec<String> {
    names.iter().map(|n| n.to_string()).collect()
}

#[test]
fn tarjan_finds_components() {
    let adjacency = vec![vec![1], vec![2], vec![0], vec![0]];
    let mut sccs = tarjan_sccs(&adjacency);
    for c in sccs.iter_mut() {
        c.sort();
    }
    sccs.sort();
    assert_eq!(sccs, vec![vec![0, 1, 2], vec![3]]);
}

#[test]
fn tarjan_singletons_without_edges() {
    let sccs = tarjan_sccs(&vec![vec![], vec![]]);
    assert_eq!(sccs.len(), 2);
}

#[test]
fn two_file_cycle_flags_both() {
    let hits = analyze(&files(&["b.ts", "a.ts", "c.ts"]), &vec![edge("a.ts", "b.ts"), edge("b.ts", "a.ts"), edge("c.ts", "a.ts")]);
    let got: Vec<(&str, &str, usize)> = hits.iter().map(|h| (h.file.as_str(), h.partner.as_str(), h.size)).collect();
    assert_eq!(got, vec![("a.ts", "b.ts", 2), ("b.ts", "a.ts", 2)]);
}

#[test]
fn acyclic_graph_has_no_hits() {
    let hits = analyze(&files(&["a.ts", "b.ts"]), &vec![edge("a.ts", "b.ts"), edge("a.ts", "missing.ts")]);
    assert!(hits.is_empty());
}

#[test]
fn cycle_diagnostic_text() {
    let hit = CycleHit { file: "src/a.test.ts".to_string(), partner: "src/b.ts".to_string(), size: 3 };
    let d = to_diagnostic(&hit, "import x".to_string());
    assert_eq!(d.rule, "agent-circular-import");
    assert_eq!(d.message, "import cycle (3 files) — `src/a.test.ts` and `src/b.ts` depend on each other; break the cycle");
    assert_eq!(d.file_context, FileContext::Test);
    assert_eq!((d.line, d.column), (1, 1));
    assert_eq!(metas().len(), 1);
}

fn normalised(mut sccs: Vec<Vec<usize>>) -> Vec<Vec<usize>> {
    for c in sccs.iter_mut() {
        c.sort();
    }
    sccs.sort();
    sccs
}

#[test]
fn tarjan_emits_sink_components_first() {
    // 0 -> 1 -> 2 -> 1, 2 -> 3: the sink {3} comes out before {1, 2}, then {0}.
    let adjacency = vec![vec![1], vec![2], vec![1, 3], vec![]];
    let sccs = tarjan_sccs(&adjacency);
    assert_eq!(sccs, vec![vec![3], vec![2, 1], vec![0]]);
}

#[test]
fn reverse_adjacency_turns_edges_around() {
    let adjacency = vec![vec![1, 2], vec![2], vec![]];
    assert_eq!(reverse_adjacency(&adjacency), vec![vec![], vec![0], vec![0, 1]]);
}

#[test]
fn marking_follows_edges_within_the_limit() {
    let adjacency = vec![vec![1], vec![2], vec![0], vec![0]];
    let comp_of = vec![0, 0, 1, 0];
    assert_eq!(mark_reachable(&adjacency, 0, &comp_of, None), vec![true, true, true, false]);
    assert_eq!(mark_reachable(&adjacency, 0, &comp_of, Some(0)), vec![true, true, false, false]);
}

#[test]
fn certificate_rejects_a_split_cycle() {
    let adjacency = vec![vec![1], vec![2], vec![0], vec![0]];
    let rev = reverse_adjacency(&adjacency);
    assert!(certify_sccs(&adjacency, &rev, &vec![vec![2, 1, 0], vec![3]]));
    assert!(!certify_sccs(&adjacency, &rev, &vec![vec![2], vec![1, 0], vec![3]]));
    assert!(!certify_sccs(&adjacency, &rev, &vec![vec![3], vec![2, 1, 0]]));
}

#[test]
fn reachability_components_match_tarjan() {
    let adjacency = vec![vec![1, 4], vec![2], vec![0, 3], vec![4], vec![3], vec![5]];
    let rev = reverse_adjacency(&adjacency);
    let by_reach = sccs_by_reach(&adjacency, &rev);
    assert_eq!(by_reach, vec![vec![5], vec![3, 4], vec![0, 1, 2]]);
    assert_eq!(normalised(tarjan_sccs(&adjacency)), normalised(by_reach));
}
