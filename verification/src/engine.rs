//! What a scan computes around the per-file lint: the effect major version a
//! project targets, the report order of the diagnostics, the line filter of a
//! changed-lines scan, and the diagnostics of the type-aware tier.
use vstd::prelude::*;

use crate::diagnostics::{severity_rank, Category, Diagnostic, Severity};
use crate::git_scope::{line_changed, DiffInfo, ScanScope};
use crate::lint::{classify_file, classify_spec};
use crate::text::{lemma_seq_lt_trichotomy, chars_eq_str, chars_of, concat2, seq_ends_with, seq_starts_with, str_ends_with, str_starts_with, is_digit, owned, parse_u32, parse_u32_spec, seq_lt, slice_to_vec, str_eq, str_lt, string_of};

verus! {

/// The label a scan scope is reported under.
pub fn scope_label(scope: ScanScope) -> (label: &'static str)
    ensures
        label@ == match scope {
            ScanScope::Full => "full"@,
            ScanScope::ChangedFiles => "changed"@,
            ScanScope::ChangedLines => "lines"@,
        },
{
    match scope {
        ScanScope::Full => "full",
        ScanScope::ChangedFiles => "changed",
        ScanScope::ChangedLines => "lines",
    }
}

/// The position of the first digit at or after `i` (the length if none).
pub open spec fn first_digit_from(cs: Seq<char>, i: int) -> int
    decreases cs.len() - i,
{
    if i < 0 || i >= cs.len() || is_digit(cs[i]) {
        i
    } else {
        first_digit_from(cs, i + 1)
    }
}

/// The end of the run of digits starting at `i`.
pub open spec fn digit_run_end(cs: Seq<char>, i: int) -> int
    decreases cs.len() - i,
{
    if i < 0 || i >= cs.len() || !is_digit(cs[i]) {
        i
    } else {
        digit_run_end(cs, i + 1)
    }
}

/// The major version of a version requirement such as `^3.10.0`: its first
/// run of digits, where that is a `u32`.
pub open spec fn major_spec(version: Seq<char>) -> Option<u32> {
    let start = first_digit_from(version, 0);
    parse_u32_spec(version.subrange(start, digit_run_end(version, start)))
}

/// The major version of a version requirement.
pub fn parse_major(version: &str) -> (major: Option<u32>)
    ensures
        major == major_spec(version@),
{
    let cs = chars_of(version);
    let mut start: usize = 0;
    while start < cs.len() && !('0' <= cs[start] && cs[start] <= '9')
        invariant
            start <= cs@.len(),
            first_digit_from(cs@, 0) == first_digit_from(cs@, start as int),
        decreases cs@.len() - start,
    {
        start += 1;
    }
    let mut end: usize = start;
    while end < cs.len() && '0' <= cs[end] && cs[end] <= '9'
        invariant
            start <= end <= cs@.len(),
            digit_run_end(cs@, start as int) == digit_run_end(cs@, end as int),
        decreases cs@.len() - end,
    {
        end += 1;
    }
    let digits = slice_to_vec(&cs, start, end);
    parse_u32(&digits)
}

/// The first dependency table (in the order dependencies, devDependencies,
/// peerDependencies) whose `effect` version has a major version, and that
/// major.
pub open spec fn effect_major_spec(versions: Seq<Option<Seq<char>>>) -> Option<u32>
    decreases versions.len(),
{
    if versions.len() == 0 {
        None
    } else {
        let here = match versions[0] {
            Some(v) => major_spec(v),
            None => None,
        };
        match here {
            Some(major) => Some(major),
            None => effect_major_spec(versions.drop_first()),
        }
    }
}

/// The effect major version a manifest requires, from the `effect` entry of
/// each of its dependency tables (`None` where a table has none).
pub fn effect_major(versions: &[Option<String>]) -> (major: Option<u32>)
    ensures
        major == effect_major_spec(versions@.map_values(|v: Option<String>| match v {
            Some(s) => Some(s@),
            None => None,
        })),
{
    let ghost all = versions@.map_values(|v: Option<String>| match v {
        Some(s) => Some(s@),
        None => None,
    });
    let mut i: usize = 0;
    assert(all.skip(0) =~= all);
    while i < versions.len()
        invariant
            i <= versions@.len(),
            all == versions@.map_values(|v: Option<String>| match v {
                Some(s) => Some(s@),
                None => None,
            }),
            effect_major_spec(all) == effect_major_spec(all.skip(i as int)),
        decreases versions@.len() - i,
    {
        assert(all.skip(i as int).drop_first() =~= all.skip(i + 1));
        let here = match &versions[i] {
            Some(v) => parse_major(v.as_str()),
            None => None,
        };
        if here.is_some() {
            return here;
        }
        i += 1;
    }
    None
}

/// The v4 migration rules run when the project targets effect 4, or when a
/// migration is asked for.
pub fn v4_rules_active(effect_major: Option<u32>, migrate: bool) -> (active: bool)
    ensures
        active == (effect_major == Some(4u32) || migrate),
{
    match effect_major {
        Some(major) => major == 4 || migrate,
        None => migrate,
    }
}

/// `a` comes before `b` in the report: by severity, then rule id, then file,
/// then line.
pub open spec fn reported_before(a: Diagnostic, b: Diagnostic) -> bool {
    ||| severity_rank(a.severity) < severity_rank(b.severity)
    ||| severity_rank(a.severity) == severity_rank(b.severity) && seq_lt(a.rule@, b.rule@)
    ||| severity_rank(a.severity) == severity_rank(b.severity) && a.rule@ == b.rule@ && seq_lt(a.file@, b.file@)
    ||| severity_rank(a.severity) == severity_rank(b.severity) && a.rule@ == b.rule@ && a.file@ == b.file@ && a.line < b.line
}

fn rank(severity: Severity) -> (r: u8)
    ensures
        r as int == severity_rank(severity),
{
    match severity {
        Severity::Error => 0,
        Severity::Warn => 1,
        Severity::Info => 2,
    }
}

/// Does `a` come before `b` in the report?
pub fn is_reported_before(a: &Diagnostic, b: &Diagnostic) -> (before: bool)
    ensures
        before == reported_before(*a, *b),
{
    proof {
        lemma_seq_lt_trichotomy(a.rule@, a.rule@);
        lemma_seq_lt_trichotomy(a.file@, a.file@);
    }
    let (ra, rb) = (rank(a.severity), rank(b.severity));
    if ra != rb {
        return ra < rb;
    }
    if !str_eq(a.rule, b.rule) {
        return str_lt(a.rule, b.rule);
    }
    if !str_eq(a.file.as_str(), b.file.as_str()) {
        return str_lt(a.file.as_str(), b.file.as_str());
    }
    a.line < b.line
}

/// Where `d` goes among the first `n` of `sorted`: after every diagnostic it
/// does not come before.
pub open spec fn insert_position(sorted: Seq<Diagnostic>, d: Diagnostic, n: int) -> int
    decreases n,
{
    if n <= 0 {
        0
    } else if reported_before(d, sorted[n - 1]) {
        insert_position(sorted, d, n - 1)
    } else {
        n
    }
}

/// The diagnostics in report order; diagnostics that tie keep their order.
pub open spec fn report_order(ds: Seq<Diagnostic>) -> Seq<Diagnostic>
    decreases ds.len(),
{
    if ds.len() == 0 {
        Seq::empty()
    } else {
        let prior = report_order(ds.drop_last());
        prior.insert(insert_position(prior, ds.last(), prior.len() as int), ds.last())
    }
}

proof fn lemma_insert_position_bounds(sorted: Seq<Diagnostic>, d: Diagnostic, n: int)
    requires
        0 <= n <= sorted.len(),
    ensures
        0 <= insert_position(sorted, d, n) <= n,
    decreases n,
{
    if n > 0 {
        lemma_insert_position_bounds(sorted, d, n - 1);
    }
}

proof fn lemma_report_order_len(ds: Seq<Diagnostic>)
    ensures
        report_order(ds).len() == ds.len(),
    decreases ds.len(),
{
    if ds.len() > 0 {
        lemma_report_order_len(ds.drop_last());
        let prior = report_order(ds.drop_last());
        lemma_insert_position_bounds(prior, ds.last(), prior.len() as int);
    }
}

/// Sort diagnostics into report order (a stable sort).
pub fn sort_diagnostics(diagnostics: Vec<Diagnostic>) -> (sorted: Vec<Diagnostic>)
    ensures
        sorted@ == report_order(diagnostics@),
{
    let ghost all = diagnostics@;
    let total = diagnostics.len();
    let mut rest = diagnostics;
    let mut sorted: Vec<Diagnostic> = Vec::new();
    let mut i: usize = 0;
    while rest.len() > 0
        invariant
            i <= all.len(),
            i + rest@.len() == all.len(),
            all.len() == total,
            rest@ == all.skip(i as int),
            sorted@ == report_order(all.take(i as int)),
        decreases rest@.len(),
    {
        proof {
            lemma_report_order_len(all.take(i as int));
        }
        let d = rest.remove(0);
        assert(d == all[i as int]);
        assert(rest@ =~= all.skip(i + 1));
        let mut p: usize = sorted.len();
        while p > 0 && is_reported_before(&d, &sorted[p - 1])
            invariant
                p <= sorted@.len(),
                insert_position(sorted@, d, sorted@.len() as int) == insert_position(sorted@, d, p as int),
            decreases p,
        {
            p -= 1;
        }
        assert(all.take(i + 1).drop_last() =~= all.take(i as int));
        assert(all.take(i + 1).last() == d);
        sorted.insert(p, d);
        i += 1;
    }
    assert(all.take(i as int) =~= all);
    sorted
}

/// The diagnostics of a file that stand on changed lines, in order.
pub open spec fn on_changed_lines(diff: DiffInfo, path: Seq<char>, ds: Seq<Diagnostic>) -> Seq<Diagnostic>
    decreases ds.len(),
{
    if ds.len() == 0 {
        Seq::empty()
    } else {
        let prior = on_changed_lines(diff, path, ds.drop_last());
        if line_changed(diff.entries(), path, ds.last().line) {
            prior.push(ds.last())
        } else {
            prior
        }
    }
}

/// In a changed-lines scan, a file's diagnostics that stand on changed
/// lines; none where the file's path within the repository is unknown.
pub fn retain_changed_lines(diff: &DiffInfo, relative: Option<&str>, diagnostics: Vec<Diagnostic>) -> (kept: Vec<Diagnostic>)
    ensures
        kept@ == match relative {
            Some(path) => on_changed_lines(*diff, path@, diagnostics@),
            None => Seq::empty(),
        },
{
    let path = match relative {
        Some(p) => p,
        None => return Vec::new(),
    };
    let ghost all = diagnostics@;
    let total = diagnostics.len();
    let mut rest = diagnostics;
    let mut kept: Vec<Diagnostic> = Vec::new();
    let mut i: usize = 0;
    while rest.len() > 0
        invariant
            i <= all.len(),
            i + rest@.len() == all.len(),
            all.len() == total,
            rest@ == all.skip(i as int),
            kept@ == on_changed_lines(*diff, path@, all.take(i as int)),
        decreases rest@.len(),
    {
        let d = rest.remove(0);
        assert(d == all[i as int]);
        assert(rest@ =~= all.skip(i + 1));
        assert(all.take(i + 1).drop_last() =~= all.take(i as int));
        assert(all.take(i + 1).last() == d);
        if diff.line_is_changed(path, d.line) {
            kept.push(d);
        }
        i += 1;
    }
    assert(all.take(i as int) =~= all);
    kept
}

/// The severity of a language-service diagnostic.
pub open spec fn deep_severity_spec(severity: Seq<char>) -> Severity {
    if severity == "error"@ {
        Severity::Error
    } else if severity == "warning"@ {
        Severity::Warn
    } else {
        Severity::Info
    }
}

/// The severity of a language-service diagnostic.
pub fn map_severity(severity: &str) -> (mapped: Severity)
    ensures
        mapped == deep_severity_spec(severity@),
{
    if str_eq(severity, "error") {
        Severity::Error
    } else if str_eq(severity, "warning") {
        Severity::Warn
    } else {
        Severity::Info
    }
}

/// The rule id a language-service check is reported under.
pub fn deep_rule_id(name: &str) -> (id: String)
    ensures
        id@ == "ls/"@ + name@,
{
    concat2("ls/", name)
}

/// `cs` without its leading slashes.
pub open spec fn trim_leading_slashes(cs: Seq<char>) -> Seq<char>
    decreases cs.len(),
{
    if cs.len() > 0 && cs[0] == '/' {
        trim_leading_slashes(cs.drop_first())
    } else {
        cs
    }
}

/// A language-service file path made relative to the scan root: the root
/// prefix and the slashes after it removed, where the path starts with it.
pub open spec fn deep_file_spec(file: Seq<char>, root: Seq<char>) -> Seq<char> {
    if root.len() <= file.len() && file.take(root.len() as int) == root {
        trim_leading_slashes(file.skip(root.len() as int))
    } else {
        file
    }
}

/// The path of a language-service diagnostic, relative to the scan root.
pub fn deep_file(file: &str, root: &str) -> (relative: String)
    ensures
        relative@ == deep_file_spec(file@, root@),
{
    let f = chars_of(file);
    let r = chars_of(root);
    if r.len() > f.len() {
        return owned(file);
    }
    let mut i: usize = 0;
    while i < r.len()
        invariant
            f@ == file@,
            r@ == root@,
            i <= r@.len(),
            r@.len() <= f@.len(),
            f@.take(i as int) == r@.take(i as int),
        decreases r@.len() - i,
    {
        if f[i] != r[i] {
            proof {
                assert(f@.take(r@.len() as int)[i as int] == f@[i as int]);
                assert(f@.take(r@.len() as int) != r@);
            }
            return owned(file);
        }
        assert(f@.take(i + 1) =~= f@.take(i as int).push(f@[i as int]));
        assert(r@.take(i + 1) =~= r@.take(i as int).push(r@[i as int]));
        i += 1;
    }
    assert(r@.take(i as int) =~= r@);
    let mut start: usize = r.len();
    while start < f.len() && f[start] == '/'
        invariant
            r@.len() <= start <= f@.len(),
            trim_leading_slashes(f@.skip(r@.len() as int)) == trim_leading_slashes(f@.skip(start as int)),
        decreases f@.len() - start,
    {
        assert(f@.skip(start as int).drop_first() =~= f@.skip(start + 1));
        start += 1;
    }
    let tail = slice_to_vec(&f, start, f.len());
    assert(tail@ =~= f@.skip(start as int));
    string_of(&tail)
}

/// What the type-aware tier reports for one language-service diagnostic.
pub open spec fn deep_diagnostic_spec(d: Diagnostic, rule: Seq<char>, file: Seq<char>, root: Seq<char>, line: u32, column: u32, severity: Seq<char>, message: Seq<char>) -> bool {
    &&& d.rule@ == rule
    &&& d.severity == deep_severity_spec(severity)
    &&& d.category == Category::TypeAware
    &&& d.message@ == message
    &&& d.help@ == "Type-aware diagnostic from @effect/language-service."@
    &&& d.file@ == deep_file_spec(file, root)
    &&& d.file_context == classify_spec(deep_file_spec(file, root))
    &&& d.line == line
    &&& d.column == column
    &&& d.snippet@ == Seq::<char>::empty()
}

/// A diagnostic of the type-aware tier. `rule` is the id from
/// [`deep_rule_id`]; `file` is the path the language service gave.
pub fn deep_diagnostic(
    rule: &'static str,
    file: &str,
    root: &str,
    line: u32,
    column: u32,
    severity: &str,
    message: String,
) -> (d: Diagnostic)
    ensures
        deep_diagnostic_spec(d, rule@, file@, root@, line, column, severity@, message@),
{
    let relative = deep_file(file, root);
    let file_context = classify_file(relative.as_str());
    let snippet = string_of(&Vec::new());
    Diagnostic {
        rule,
        severity: map_severity(severity),
        category: Category::TypeAware,
        message,
        help: "Type-aware diagnostic from @effect/language-service.",
        file: relative,
        file_context,
        line,
        column,
        snippet,
    }
}

} // verus!

verus! {

proof fn lemma_seq_lt_cases(a: Seq<char>, b: Seq<char>, c: Seq<char>)
    ensures
        seq_lt(a, b) && seq_lt(b, c) ==> seq_lt(a, c),
        seq_lt(a, b) || seq_lt(b, a) || a == b,
        !(seq_lt(a, b) && seq_lt(b, a)),
{
    lemma_seq_lt_trichotomy(a, b);
    if seq_lt(a, b) && seq_lt(b, c) {
        crate::text::lemma_seq_lt_transitive(a, b, c);
    }
}

/// Coming before is asymmetric, and not coming before is transitive: the
/// report order ranks diagnostics by a total preorder.
proof fn lemma_reported_before_order(x: Diagnostic, y: Diagnostic, z: Diagnostic)
    ensures
        reported_before(x, y) ==> !reported_before(y, x),
        !reported_before(x, y) && !reported_before(y, z) ==> !reported_before(x, z),
{
    lemma_seq_lt_cases(x.rule@, y.rule@, z.rule@);
    lemma_seq_lt_cases(y.rule@, z.rule@, x.rule@);
    lemma_seq_lt_cases(z.rule@, x.rule@, y.rule@);
    lemma_seq_lt_cases(x.rule@, z.rule@, y.rule@);
    lemma_seq_lt_cases(z.rule@, y.rule@, x.rule@);
    lemma_seq_lt_cases(y.rule@, x.rule@, z.rule@);
    lemma_seq_lt_cases(x.file@, y.file@, z.file@);
    lemma_seq_lt_cases(y.file@, z.file@, x.file@);
    lemma_seq_lt_cases(z.file@, x.file@, y.file@);
    lemma_seq_lt_cases(x.file@, z.file@, y.file@);
    lemma_seq_lt_cases(z.file@, y.file@, x.file@);
    lemma_seq_lt_cases(y.file@, x.file@, z.file@);
}

proof fn lemma_insert_position(sorted: Seq<Diagnostic>, d: Diagnostic, n: int)
    requires
        0 <= n <= sorted.len(),
    ensures
        forall|k: int| insert_position(sorted, d, n) <= k < n ==> reported_before(d, #[trigger] sorted[k]),
        insert_position(sorted, d, n) > 0 ==> !reported_before(d, sorted[insert_position(sorted, d, n) - 1]),
    decreases n,
{
    if n > 0 && reported_before(d, sorted[n - 1]) {
        lemma_insert_position(sorted, d, n - 1);
    }
}

/// The diagnostics of a scan come out in report order: no diagnostic comes
/// before one listed ahead of it, and the sort loses and adds nothing.
pub proof fn lemma_report_order_sorted(ds: Seq<Diagnostic>)
    ensures
        forall|i: int, j: int| 0 <= i < j < report_order(ds).len() ==> !reported_before(report_order(ds)[j], report_order(ds)[i]),
        report_order(ds).to_multiset() == ds.to_multiset(),
    decreases ds.len(),
{
    if ds.len() == 0 {
        assert(report_order(ds).to_multiset() =~= ds.to_multiset()) by {
            vstd::seq_lib::to_multiset_len(ds);
            vstd::seq_lib::to_multiset_len(report_order(ds));
        }
    } else {
        lemma_report_order_sorted(ds.drop_last());
        let prior = report_order(ds.drop_last());
        let x = ds.last();
        lemma_report_order_len(ds.drop_last());
        lemma_insert_position_bounds(prior, x, prior.len() as int);
        lemma_insert_position(prior, x, prior.len() as int);
        let p = insert_position(prior, x, prior.len() as int);
        let after = report_order(ds);
        assert(after == prior.insert(p, x));
        vstd::seq_lib::to_multiset_insert(prior, p, x);
        assert(ds =~= ds.drop_last().push(x));
        vstd::seq_lib::to_multiset_build(ds.drop_last(), x);
        assert forall|i: int, j: int| 0 <= i < j < after.len() implies !reported_before(after[j], after[i]) by {
            if i < p && j == p {
                lemma_reported_before_order(x, prior[p - 1], prior[i]);
            } else if i == p && j > p {
                lemma_reported_before_order(x, prior[j - 1], x);
            } else if i < p && j > p {
                assert(after[i] == prior[i] && after[j] == prior[j - 1]);
            } else if j < p {
                assert(after[i] == prior[i] && after[j] == prior[j]);
            } else {
                assert(after[i] == prior[i - 1] && after[j] == prior[j - 1]);
            }
        }
    }
}


/// The extensions of the source files a scan reads.
pub open spec fn source_extension(ext: Seq<char>) -> bool {
    ext == "ts"@ || ext == "tsx"@ || ext == "mts"@ || ext == "cts"@ || ext == "js"@ || ext == "jsx"@ || ext == "mjs"@
        || ext == "cjs"@
}

/// The position of the last `.` of `name[..n]`.
pub open spec fn last_dot_before(name: Seq<char>, n: int) -> Option<int>
    decreases n,
{
    if n <= 0 {
        None
    } else if name[n - 1] == '.' {
        Some(n - 1)
    } else {
        last_dot_before(name, n - 1)
    }
}

/// The extension of a file name: what follows its last `.`, unless that dot
/// is its first character.
pub open spec fn extension_of(name: Seq<char>) -> Option<Seq<char>> {
    match last_dot_before(name, name.len() as int) {
        Some(i) => if i > 0 {
            Some(name.subrange(i + 1, name.len() as int))
        } else {
            None
        },
        None => None,
    }
}

/// A file a scan reads: a TypeScript or JavaScript source, not a declaration
/// file.
pub open spec fn scannable_name(name: Seq<char>) -> bool {
    &&& !seq_ends_with(name, ".d.ts"@)
    &&& !seq_ends_with(name, ".d.mts"@)
    &&& !seq_ends_with(name, ".d.cts"@)
    &&& match extension_of(name) {
        Some(ext) => source_extension(ext),
        None => false,
    }
}

/// A directory a scan does not enter: a hidden one, or one of dependencies
/// or build output.
pub open spec fn skipped_dir(name: Seq<char>) -> bool {
    ||| seq_starts_with(name, "."@)
    ||| name == "node_modules"@
    ||| name == "dist"@
    ||| name == "build"@
    ||| name == "coverage"@
    ||| name == "out"@
    ||| name == "target"@
}

/// Whether a scan reads the file named `name`.
pub fn is_scannable_name(name: &str) -> (scannable: bool)
    ensures
        scannable == scannable_name(name@),
{
    if str_ends_with(name, ".d.ts") || str_ends_with(name, ".d.mts") || str_ends_with(name, ".d.cts") {
        return false;
    }
    let chars = chars_of(name);
    let mut n: usize = chars.len();
    while n > 0 && chars[n - 1] != '.'
        invariant
            n <= chars@.len(),
            chars@ == name@,
            last_dot_before(name@, name@.len() as int) == last_dot_before(name@, n as int),
        decreases n,
    {
        n -= 1;
    }
    if n <= 1 {
        return false;
    }
    let ext = slice_to_vec(chars.as_slice(), n, chars.len());
    assert(ext@ == name@.subrange(n as int, name@.len() as int));
    chars_eq_str(&ext, "ts") || chars_eq_str(&ext, "tsx") || chars_eq_str(&ext, "mts") || chars_eq_str(&ext, "cts")
        || chars_eq_str(&ext, "js") || chars_eq_str(&ext, "jsx") || chars_eq_str(&ext, "mjs") || chars_eq_str(&ext, "cjs")
}

/// Whether a scan skips the directory named `name`.
pub fn is_skipped_dir(name: &str) -> (skipped: bool)
    ensures
        skipped == skipped_dir(name@),
{
    str_starts_with(name, ".") || str_eq(name, "node_modules") || str_eq(name, "dist") || str_eq(name, "build") || str_eq(
        name,
        "coverage",
    ) || str_eq(name, "out") || str_eq(name, "target")
}

} // verus!
