use effect_doctor_core::diagnostics::{Category, Diagnostic, FileContext, Severity};
use effect_doctor_core::engine::{
    deep_diagnostic, deep_file, deep_rule_id, effect_major, is_scannable_name, is_skipped_dir, map_severity, parse_major, retain_changed_lines, scope_label,
    sort_diagnostics, v4_rules_active,
};
use effect_doctor_core::git_scope::{collect_diff, ScanScope};
use effect_doctor_core::summary::{category_breakdown, find_rule, rule_groups, rule_listing, shown_group_count};

fn diagnostic(rule: &'static str, severity: Severity, category: Category, file: &str, line: u32) -> Diagnostic {
    Diagnostic {
        rule,
        severity,
        category,
        message: "m".to_string(),
        help: "h",
        file: file.to_string(),
        file_context: FileContext::Production,
        line,
        column: 1,
        snippet: String::new(),
    }
}

#[test]
fn scope_labels() {
    assert_eq!(scope_label(ScanScope::Full), "full");
    assert_eq!(scope_label(ScanScope::ChangedFiles), "changed");
    assert_eq!(scope_label(ScanScope::ChangedLines), "lines");
}

#[test]
fn major_versions_from_requirements() {
    assert_eq!(parse_major("^3.10.0"), Some(3));
    assert_eq!(parse_major("~4.0.0-beta.1"), Some(4));
    assert_eq!(parse_major("workspace:*"), None);
    assert_eq!(parse_major(">= 12"), Some(12));
    assert_eq!(parse_major("99999999999.0"), None);
}

#[test]
fn effect_major_takes_first_table_with_a_version() {
    let tables = vec![None, Some("latest".to_string()), Some("^4.1.0".to_string())];
    assert_eq!(effect_major(&tables), Some(4));
    assert_eq!(effect_major(&[Some("3.2.1".to_string()), Some("4".to_string())]), Some(3));
    assert_eq!(effect_major(&[None, None, None]), None);
}

#[test]
fn v4_rules_follow_major_or_migrate() {
    assert!(v4_rules_active(Some(4), false));
    assert!(!v4_rules_active(Some(3), false));
    assert!(v4_rules_active(Some(3), true));
    assert!(!v4_rules_active(None, false));
}

#[test]
fn diagnostics_sort_by_severity_rule_file_line() {
    let ds = vec![
        diagnostic("b-rule", Severity::Warn, Category::Idiomatic, "a.ts", 3),
        diagnostic("a-rule", Severity::Info, Category::Idiomatic, "a.ts", 1),
        diagnostic("b-rule", Severity::Warn, Category::Idiomatic, "a.ts", 1),
        diagnostic("c-rule", Severity::Error, Category::Correctness, "b.ts", 9),
        diagnostic("a-rule", Severity::Warn, Category::Idiomatic, "z.ts", 2),
        diagnostic("a-rule", Severity::Warn, Category::Idiomatic, "m.ts", 2),
    ];
    let sorted = sort_diagnostics(ds);
    let keys: Vec<(&str, &str, u32)> = sorted.iter().map(|d| (d.rule, d.file.as_str(), d.line)).collect();
    assert_eq!(
        keys,
        vec![("c-rule", "b.ts", 9), ("a-rule", "m.ts", 2), ("a-rule", "z.ts", 2), ("b-rule", "a.ts", 1), ("b-rule", "a.ts", 3), ("a-rule", "a.ts", 1)]
    );
}

#[test]
fn changed_line_filter_keeps_diagnostics_on_changed_lines() {
    let diff = collect_diff("+++ b/src/a.ts\n@@ -1,2 +10,3 @@\n", "", true);
    let ds = vec![
        diagnostic("r", Severity::Warn, Category::Idiomatic, "src/a.ts", 9),
        diagnostic("r", Severity::Warn, Category::Idiomatic, "src/a.ts", 10),
        diagnostic("r", Severity::Warn, Category::Idiomatic, "src/a.ts", 12),
        diagnostic("r", Severity::Warn, Category::Idiomatic, "src/a.ts", 13),
    ];
    let lines: Vec<u32> = retain_changed_lines(&diff, Some("src/a.ts"), ds).iter().map(|d| d.line).collect();
    assert_eq!(lines, vec![10, 12]);
    let ds = vec![diagnostic("r", Severity::Warn, Category::Idiomatic, "src/a.ts", 10)];
    assert!(retain_changed_lines(&diff, None, ds).is_empty());
}

#[test]
fn language_service_diagnostics() {
    assert_eq!(map_severity("error"), Severity::Error);
    assert_eq!(map_severity("warning"), Severity::Warn);
    assert_eq!(map_severity("suggestion"), Severity::Info);
    assert_eq!(deep_rule_id("floatingEffect"), "ls/floatingEffect");
    assert_eq!(deep_file("/repo//src/a.ts", "/repo"), "src/a.ts");
    assert_eq!(deep_file("/elsewhere/a.ts", "/repo"), "/elsewhere/a.ts");
    let d = deep_diagnostic("ls/floatingEffect", "/repo/src/a.test.ts", "/repo", 4, 2, "warning", "floating".to_string());
    assert_eq!(d.rule, "ls/floatingEffect");
    assert_eq!(d.severity, Severity::Warn);
    assert_eq!(d.category, Category::TypeAware);
    assert_eq!(d.file, "src/a.test.ts");
    assert_eq!(d.file_context, FileContext::Test);
    assert_eq!((d.line, d.column), (4, 2));
    assert_eq!(d.help, "Type-aware diagnostic from @effect/language-service.");
    assert_eq!(d.snippet, "");
}

#[test]
fn rule_groups_order_by_severity_then_size() {
    let ds = vec![
        diagnostic("zeta", Severity::Warn, Category::Idiomatic, "a.ts", 1),
        diagnostic("alpha", Severity::Warn, Category::Idiomatic, "a.ts", 2),
        diagnostic("zeta", Severity::Warn, Category::Idiomatic, "a.ts", 3),
        diagnostic("omega", Severity::Error, Category::Correctness, "a.ts", 4),
        diagnostic("beta", Severity::Warn, Category::Idiomatic, "a.ts", 5),
    ];
    let groups = rule_groups(&ds);
    let order: Vec<(&str, Vec<usize>)> = groups.iter().map(|g| (g.rule, g.indices.clone())).collect();
    assert_eq!(
        order,
        vec![("omega", vec![3]), ("zeta", vec![0, 2]), ("alpha", vec![1]), ("beta", vec![4])]
    );
    assert_eq!(shown_group_count(4, false), 3);
    assert_eq!(shown_group_count(4, true), 4);
    assert_eq!(shown_group_count(2, false), 2);
}

#[test]
fn rule_groups_hold_every_diagnostic_once() {
    let ds = vec![
        diagnostic("b", Severity::Info, Category::Idiomatic, "a.ts", 1),
        diagnostic("a", Severity::Warn, Category::Idiomatic, "b.ts", 2),
        diagnostic("b", Severity::Info, Category::Idiomatic, "c.ts", 3),
        diagnostic("c", Severity::Error, Category::Correctness, "a.ts", 4),
        diagnostic("a", Severity::Warn, Category::Idiomatic, "a.ts", 5),
        diagnostic("b", Severity::Info, Category::Idiomatic, "a.ts", 6),
    ];
    let groups = rule_groups(&ds);
    let mut seen: Vec<usize> = groups.iter().flat_map(|g| g.indices.clone()).collect();
    seen.sort();
    assert_eq!(seen, vec![0, 1, 2, 3, 4, 5]);
    for group in &groups {
        assert!(!group.indices.is_empty());
        for index in &group.indices {
            assert_eq!(ds[*index].rule, group.rule);
        }
    }
    let rules: Vec<&str> = groups.iter().map(|g| g.rule).collect();
    assert_eq!(rules, vec!["c", "a", "b"]);
}

#[test]
fn category_breakdown_counts_add_up() {
    let ds = vec![
        diagnostic("a", Severity::Warn, Category::Idiomatic, "a.ts", 1),
        diagnostic("b", Severity::Error, Category::Correctness, "a.ts", 2),
        diagnostic("c", Severity::Warn, Category::Performance, "a.ts", 3),
        diagnostic("d", Severity::Error, Category::Correctness, "a.ts", 4),
        diagnostic("e", Severity::Info, Category::TypeAware, "b.ts", 5),
        diagnostic("f", Severity::Info, Category::Correctness, "b.ts", 6),
    ];
    let counts = category_breakdown(&ds);
    let total: usize = counts.iter().map(|(_, count)| *count).sum();
    assert_eq!(total, ds.len());
    assert_eq!(counts[0], ("Correctness", 3));
}

#[test]
fn category_breakdown_counts_larger_first() {
    let ds = vec![
        diagnostic("a", Severity::Warn, Category::Idiomatic, "a.ts", 1),
        diagnostic("b", Severity::Error, Category::Correctness, "a.ts", 2),
        diagnostic("c", Severity::Warn, Category::Performance, "a.ts", 3),
        diagnostic("d", Severity::Error, Category::Correctness, "a.ts", 4),
    ];
    assert_eq!(category_breakdown(&ds), vec![("Correctness", 2), ("Idiomatic", 1), ("Performance", 1)]);
    assert!(category_breakdown(&[]).is_empty());
}

#[test]
fn rule_listing_and_lookup() {
    let listing = rule_listing();
    assert!(listing.windows(2).all(|w| (w[0].severity, w[0].id) <= (w[1].severity, w[1].id)));
    assert_eq!(listing[0].severity, Severity::Error);
    let meta = find_rule("require-yield-star").unwrap();
    assert_eq!(meta.severity, Severity::Error);
    assert!(find_rule("no-such-rule").is_none());
}

#[test]
fn scannable_file_names() {
    for name in ["app.ts", "view.tsx", "a.b.mts", "x.cts", "main.js", "c.jsx", "m.mjs", "r.cjs"] {
        assert!(is_scannable_name(name), "{name}");
    }
    for name in ["types.d.ts", "types.d.mts", "types.d.cts", ".ts", "README.md", "Makefile", "a.", "ts", "a.tsx.bak"] {
        assert!(!is_scannable_name(name), "{name}");
    }
}

#[test]
fn skipped_directories() {
    for name in [".git", ".cache", "node_modules", "dist", "build", "coverage", "out", "target"] {
        assert!(is_skipped_dir(name), "{name}");
    }
    for name in ["src", "lib", "outputs", "dist2"] {
        assert!(!is_skipped_dir(name), "{name}");
    }
}
