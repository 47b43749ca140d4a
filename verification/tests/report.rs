use effect_doctor_core::diagnostics::{Category, Diagnostic, FileContext, Severity};
use effect_doctor_core::report::{effect_profile_label, exit_fails, lsp_message, lsp_range, percentile, plural, render_score_bar};

fn diagnostic(severity: Severity, line: u32, column: u32, snippet: &str) -> Diagnostic {
    Diagnostic {
        rule: "r",
        severity,
        category: Category::Correctness,
        message: "m".to_string(),
        help: "h",
        file: "a.ts".to_string(),
        file_context: FileContext::Production,
        line,
        column,
        snippet: snippet.to_string(),
    }
}

#[test]
fn score_bar_cells() {
    assert_eq!(render_score_bar(100), "█".repeat(30));
    assert_eq!(render_score_bar(0), "░".repeat(30));
    assert_eq!(render_score_bar(50), format!("{}{}", "█".repeat(15), "░".repeat(15)));
    assert_eq!(render_score_bar(9), format!("{}{}", "█".repeat(2), "░".repeat(28)));
}

#[test]
fn plurals() {
    assert_eq!(plural(1), "");
    assert_eq!(plural(0), "s");
    assert_eq!(plural(2), "s");
}

#[test]
fn strict_scan_fails_on_errors_only() {
    let ds = vec![diagnostic(Severity::Warn, 1, 1, ""), diagnostic(Severity::Error, 1, 1, "")];
    assert!(exit_fails(&ds, true));
    assert!(!exit_fails(&ds, false));
    assert!(!exit_fails(&ds[..1], true));
}

#[test]
fn editor_range() {
    assert_eq!(lsp_range(&diagnostic(Severity::Info, 3, 5, "abcdefgh")), (2, 4, 8));
    assert_eq!(lsp_range(&diagnostic(Severity::Info, 0, 0, "")), (0, 0, 1));
    assert_eq!(lsp_range(&diagnostic(Severity::Info, 1, 9, "abc")), (0, 8, 9));
    assert_eq!(lsp_range(&diagnostic(Severity::Info, 1, u32::MAX, "ab")), (0, u32::MAX - 1, u32::MAX));
}

#[test]
fn editor_message() {
    assert_eq!(lsp_message(&diagnostic(Severity::Info, 1, 1, "")), "m\n\nh");
}

#[test]
fn profile_label() {
    assert_eq!(effect_profile_label(None, true), "");
    assert_eq!(effect_profile_label(Some(3), false), ", effect v3");
    assert_eq!(effect_profile_label(Some(4), true), ", effect v4, v4 rules on");
}

#[test]
fn percentiles() {
    assert_eq!(percentile(&[], 50), 0);
    assert_eq!(percentile(&[30, 10, 20], 50), 20);
    assert_eq!(percentile(&[30, 10, 20], 0), 10);
    assert_eq!(percentile(&[30, 10, 20], 100), 30);
    assert_eq!(percentile(&[5, 1, 4, 2, 3], 95), 4);
}
