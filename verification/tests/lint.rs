use effect_doctor_core::diagnostics::{Category, FileContext, RawDiagnostic, RuleMeta, Severity, Span};
use effect_doctor_core::lint::{classify_file, finalize, is_test_file, line_col};

#[test]
fn classify_paths() {
    assert_eq!(classify_file("src/app.ts"), FileContext::Production);
    assert_eq!(classify_file("src/Tests/app.ts"), FileContext::Test);
    assert_eq!(classify_file("src\\e2e\\flow.ts"), FileContext::Test);
    assert_eq!(classify_file("src/app.spec.ts"), FileContext::Test);
    assert_eq!(classify_file("src/app-test.ts"), FileContext::Test);
    assert_eq!(classify_file("src/testing/app.ts"), FileContext::Production);
    assert!(is_test_file("a.TEST.ts"));
}

#[test]
fn line_and_column_of_offsets() {
    let source = "ab\ncd\n";
    assert_eq!(line_col(source.as_bytes(), 0), (1, 1));
    assert_eq!(line_col(source.as_bytes(), 4), (2, 2));
    assert_eq!(line_col(source.as_bytes(), 6), (3, 1));
}

#[test]
fn finalize_uses_severity_override_and_snippet() {
    let meta = RuleMeta { id: "x", severity: Severity::Warn, category: Category::Idiomatic, help: "h" };
    let raw = vec![
        RawDiagnostic { meta, span: Span { start: 4, end: 5 }, message: "m1".to_string(), severity: None },
        RawDiagnostic { meta, span: Span { start: 0, end: 1 }, message: "m2".to_string(), severity: Some(Severity::Error) },
    ];
    let out = finalize("ab  \n  cd  \n", "f.ts", FileContext::Production, raw);
    assert_eq!(out.len(), 2);
    assert_eq!((out[0].line, out[0].column), (1, 5));
    assert_eq!(out[0].snippet, "ab");
    assert_eq!(out[0].severity, Severity::Warn);
    assert_eq!(out[1].severity, Severity::Error);
    assert_eq!(out[1].message, "m2");
}
