use effect_doctor_core::diagnostics::FileContext;
use effect_doctor_core::fn_index::{cross_file_findings, cross_file_metas, describe, is_generic_name, FunctionEntry, Shape};

fn entry(file: &str, name: Option<&str>, line: u32, exact: u64, behaviour: Option<u64>) -> FunctionEntry {
    FunctionEntry {
        file: file.to_string(),
        file_context: FileContext::Production,
        name: name.map(str::to_string),
        line,
        column: 1,
        snippet: format!("fn at {line}"),
        shape: Shape { exact_hash: exact, behaviour_hash: behaviour, len: 10 },
    }
}

#[test]
fn generic_names() {
    assert!(is_generic_name("cb"));
    assert!(is_generic_name("run"));
    assert!(is_generic_name("é"));
    assert!(!is_generic_name("formatCredits"));
}

#[test]
fn exact_duplicates_in_two_files() {
    let entries = vec![entry("a.ts", Some("formatCredits"), 3, 7, None), entry("b.ts", Some("fmt"), 9, 7, None)];
    let findings = cross_file_findings(&entries, &[]);
    assert_eq!(findings.len(), 2);
    assert_eq!(findings[0].rule, "agent-duplicate-cross-file");
    assert_eq!(findings[0].file, "a.ts");
    assert_eq!(findings[0].message, "`formatCredits` is a structural duplicate of `fmt` at b.ts:9 — reuse one instead of maintaining both");
    assert_eq!(findings[1].file, "b.ts");
}

#[test]
fn same_file_duplicates_are_not_reported() {
    let entries = vec![entry("a.ts", Some("x1"), 1, 7, None), entry("a.ts", Some("x2"), 5, 7, None)];
    assert!(cross_file_findings(&entries, &[]).is_empty());
}

#[test]
fn strongest_signal_wins_and_sorting() {
    let entries = vec![
        entry("z.ts", Some("parseConfig"), 1, 1, Some(5)),
        entry("y.ts", Some("parseConfig"), 2, 2, Some(5)),
        entry("x.ts", None, 3, 3, Some(9)),
        entry("w.ts", None, 4, 4, Some(9)),
    ];
    let findings = cross_file_findings(&entries, &[]);
    let got: Vec<(&str, &str)> = findings.iter().map(|d| (d.rule, d.file.as_str())).collect();
    assert_eq!(
        got,
        vec![
            ("agent-similar-function-name", "y.ts"),
            ("agent-similar-function-name", "z.ts"),
            ("agent-similar-shape", "w.ts"),
            ("agent-similar-shape", "x.ts"),
        ]
    );
    assert_eq!(findings[2].message, "this function has the same params + call set as a function at x.ts:3 — reuse one instead of maintaining both");
}

#[test]
fn generic_names_do_not_match() {
    let entries = vec![entry("a.ts", Some("run"), 1, 1, None), entry("b.ts", Some("run"), 1, 2, None)];
    assert!(cross_file_findings(&entries, &[]).is_empty());
}

#[test]
fn near_partner_is_used_before_names() {
    let entries = vec![entry("a.ts", Some("toTone"), 1, 1, None), entry("b.ts", Some("toTone"), 2, 2, None)];
    let findings = cross_file_findings(&entries, &[Some((1, 95)), None]);
    assert_eq!(findings[0].rule, "agent-near-duplicate-function");
    assert_eq!(findings[0].message, "`toTone` is ~95% structurally similar to `toTone` at b.ts:2 — reuse one instead of maintaining both");
    assert_eq!(findings[1].rule, "agent-similar-function-name");
}

#[test]
fn describe_without_names() {
    let a = entry("a.ts", None, 1, 1, None);
    let b = entry("b.ts", None, 12, 1, None);
    assert_eq!(describe(&a, &b, "shares a name with"), "this function shares a name with a function at b.ts:12 — reuse one instead of maintaining both");
}

#[test]
fn cross_file_rule_ids() {
    let ids: Vec<&str> = cross_file_metas().iter().map(|m| m.id).collect();
    assert_eq!(ids, vec!["agent-duplicate-cross-file", "agent-near-duplicate-function", "agent-similar-function-name", "agent-similar-shape"]);
}

#[test]
fn near_partners_outside_the_band_or_file_are_ignored() {
    let entries = vec![entry("a.ts", Some("toTone"), 1, 1, None), entry("a.ts", Some("barTone"), 5, 2, None), entry("b.ts", Some("hue"), 3, 3, None)];
    // Same file, and a similarity below the reporting band: nothing reported.
    let near = vec![Some((1usize, 95u32)), Some((2usize, 50u32)), None];
    assert!(cross_file_findings(&entries, &near).is_empty());
    // Another file, within the band: reported.
    let near = vec![Some((2usize, 93u32)), None, None];
    let findings = cross_file_findings(&entries, &near);
    assert_eq!(findings.len(), 1);
    assert_eq!(findings[0].rule, "agent-near-duplicate-function");
}
