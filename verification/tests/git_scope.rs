use effect_doctor_core::git_scope::{base_candidate, collect_diff, parse_hunk_header, resolve_base, DiffInfo, ScanScope};

fn chars(s: &str) -> Vec<char> {
    s.chars().collect()
}

#[test]
fn hunk_header_with_count() {
    assert_eq!(parse_hunk_header(&chars("@@ -3,2 +10,4 @@ fn x")), Some((10, 13)));
}

#[test]
fn hunk_header_without_count_is_one_line() {
    assert_eq!(parse_hunk_header(&chars("@@ -3 +7 @@")), Some((7, 7)));
}

#[test]
fn hunk_header_pure_deletion_is_none() {
    assert_eq!(parse_hunk_header(&chars("@@ -3,2 +9,0 @@")), None);
}

#[test]
fn hunk_header_without_plus_is_none() {
    assert_eq!(parse_hunk_header(&chars("@@ -3,2 @@")), None);
}

#[test]
fn hunk_header_bad_number_is_none() {
    assert_eq!(parse_hunk_header(&chars("@@ -1 +x,2 @@")), None);
}

#[test]
fn hunk_header_end_past_u32_is_none() {
    assert_eq!(parse_hunk_header(&chars("@@ -1 +4294967295,2 @@")), None);
    assert_eq!(parse_hunk_header(&chars("@@ -1 +4294967295,1 @@")), Some((4294967295, 4294967295)));
}

#[test]
fn empty_diff_info_has_nothing() {
    let info = DiffInfo::new();
    assert!(!info.contains_file("a.ts"));
    assert!(!info.line_is_changed("a.ts", 1));
    assert_eq!(info.file_count(), 0);
}

#[test]
fn collect_lines_diff_records_hunks() {
    let diff = "diff --git a/src/a.ts b/src/a.ts\n--- a/src/a.ts\n+++ b/src/a.ts\n@@ -1,2 +1,3 @@\n+x\n@@ -10 +12,0 @@\n@@ -20 +30 @@\n+++ b/src/b.ts\n@@ -0,0 +1,2 @@\n";
    let info = collect_diff(diff, "", true);
    assert_eq!(info.changed_files(), vec!["src/a.ts".to_string(), "src/b.ts".to_string()]);
    assert!(info.line_is_changed("src/a.ts", 1));
    assert!(info.line_is_changed("src/a.ts", 3));
    assert!(!info.line_is_changed("src/a.ts", 4));
    assert!(!info.line_is_changed("src/a.ts", 12));
    assert!(info.line_is_changed("src/a.ts", 30));
    assert!(info.line_is_changed("src/b.ts", 2));
    assert!(!info.line_is_changed("src/b.ts", 3));
    assert!(!info.contains_file("src/c.ts"));
}

#[test]
fn collect_name_only_diff_marks_whole_files() {
    let info = collect_diff("src/a.ts\n\nsrc/b.ts\n", "", false);
    assert_eq!(info.file_count(), 2);
    assert!(info.line_is_changed("src/a.ts", 999));
    assert!(info.line_is_changed("src/b.ts", 1));
}

#[test]
fn untracked_files_are_wholly_changed() {
    let diff = "+++ b/src/a.ts\n@@ -1 +5,2 @@\n";
    let info = collect_diff(diff, "new.ts\nsrc/a.ts\n", true);
    assert!(info.line_is_changed("new.ts", 42));
    assert!(info.line_is_changed("src/a.ts", 100));
    assert_eq!(info.file_count(), 2);
}

#[test]
fn hunk_before_any_file_is_ignored() {
    let info = collect_diff("@@ -1 +1 @@\n+++ b/x.ts\n", "", true);
    assert_eq!(info.file_count(), 1);
    assert!(!info.line_is_changed("x.ts", 1));
}

#[test]
fn windows_line_endings_are_trimmed() {
    let info = collect_diff("+++ b/a.ts\r\n@@ -1 +2,1 @@\r\n", "", true);
    assert!(info.contains_file("a.ts"));
    assert!(info.line_is_changed("a.ts", 2));
}

#[test]
fn explicit_base_is_used() {
    assert_eq!(resolve_base(Some("HEAD~3"), &[true, true, true, true]), Ok("HEAD~3".to_string()));
}

#[test]
fn first_existing_candidate_is_picked() {
    assert_eq!(resolve_base(None, &[false, false, true, true]), Ok("main".to_string()));
    assert_eq!(resolve_base(None, &[true]), Ok("origin/main".to_string()));
    assert_eq!(resolve_base(None, &[false, true]), Ok("origin/master".to_string()));
}

#[test]
fn no_candidate_is_an_error() {
    assert_eq!(
        resolve_base(None, &[false, false, false, false]),
        Err("no base branch found (tried origin/main, origin/master, main, master) — pass --base <ref>".to_string())
    );
    assert!(resolve_base(None, &[]).is_err());
}

#[test]
fn candidates_in_order() {
    assert_eq!(base_candidate(0), "origin/main");
    assert_eq!(base_candidate(1), "origin/master");
    assert_eq!(base_candidate(2), "main");
    assert_eq!(base_candidate(3), "master");
}

#[test]
fn scan_scope_variants_compare() {
    assert_ne!(ScanScope::Full, ScanScope::ChangedLines);
    assert_eq!(ScanScope::ChangedFiles, ScanScope::ChangedFiles);
}
