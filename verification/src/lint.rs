//! Single-source linting: the file classifier, the line index that turns byte
//! offsets into line/column/snippet, and the per-file entry points.
use vstd::prelude::*;

use crate::ast::Event;
use crate::diagnostics::{Diagnostic, FileContext, RawDiagnostic, Severity};
use crate::effect_imports::{any_effect_import, bindings_map, program_bindings, EffectImports, ImportDecl};
use crate::rules::{catalog, finding_of, Finding};
use crate::runner::{file_findings, run};
use crate::text::{
    ascii_lower, ascii_lower_char, chars_eq, contains, seq_contains, string_of, to_ascii_lowercase,
    trim_end, trim_end_spec,
};

verus! {

/// A path separator (`/` or `\`).
pub open spec fn is_path_sep(c: char) -> bool {
    c == '/' || c == '\\'
}

/// `[i, j)` is one whole `/`- or `\`-separated segment of `s`.
pub open spec fn is_segment(s: Seq<char>, i: int, j: int) -> bool {
    &&& 0 <= i <= j <= s.len()
    &&& (i == 0 || is_path_sep(s[i - 1]))
    &&& (j == s.len() || is_path_sep(s[j]))
    &&& forall|k: int| i <= k < j ==> !is_path_sep(s[k])
}

/// A directory name that marks test code.
pub open spec fn is_test_dir_name(segment: Seq<char>) -> bool {
    ||| segment == "test"@
    ||| segment == "tests"@
    ||| segment == "__tests__"@
    ||| segment == "e2e"@
}

/// Some whole segment of `s` is a test directory name.
pub open spec fn has_test_segment(s: Seq<char>) -> bool {
    exists|i: int, j: int| is_segment(s, i, j) && is_test_dir_name(s.subrange(i, j))
}

/// The file-name markers of a test file.
pub open spec fn has_test_marker(s: Seq<char>) -> bool {
    ||| seq_contains(s, ".test."@)
    ||| seq_contains(s, ".spec."@)
    ||| seq_contains(s, "-test."@)
}

/// How a path is classified: test code when its lower-cased path has a test
/// directory segment or a test file-name marker.
pub open spec fn classify_spec(path: Seq<char>) -> FileContext {
    let lowered = ascii_lower(path);
    if has_test_segment(lowered) || has_test_marker(lowered) {
        FileContext::Test
    } else {
        FileContext::Production
    }
}

fn is_test_dir_chars(segment: &[char]) -> (found: bool)
    ensures
        found == is_test_dir_name(segment@),
{
    let test = crate::text::chars_of("test");
    let tests = crate::text::chars_of("tests");
    let dunder = crate::text::chars_of("__tests__");
    let e2e = crate::text::chars_of("e2e");
    chars_eq(segment, &test) || chars_eq(segment, &tests) || chars_eq(segment, &dunder)
        || chars_eq(segment, &e2e)
}

fn segment_is_test(s: &Vec<char>, start: usize, end: usize) -> (found: bool)
    requires
        start <= end <= s@.len(),
    ensures
        found == is_test_dir_name(s@.subrange(start as int, end as int)),
{
    let mut seg: Vec<char> = Vec::new();
    let mut k: usize = start;
    while k < end
        invariant
            start <= k <= end,
            end <= s@.len(),
            seg@ == s@.subrange(start as int, k as int),
        decreases end - k,
    {
        assert(s@.subrange(start as int, k + 1) =~= s@.subrange(start as int, k as int).push(
            s@[k as int],
        ));
        seg.push(s[k]);
        k += 1;
    }
    is_test_dir_chars(&seg)
}

fn has_test_segment_chars(s: &Vec<char>) -> (found: bool)
    ensures
        found == has_test_segment(s@),
{
    let mut start: usize = 0;
    let mut i: usize = 0;
    while i < s.len()
        invariant
            start <= i <= s@.len(),
            start == 0 || is_path_sep(s@[start - 1]),
            forall|k: int| start <= k < i ==> !is_path_sep(s@[k]),
            forall|a: int, b: int|
                #![trigger is_segment(s@, a, b)]
                is_segment(s@, a, b) && b < start ==> !is_test_dir_name(s@.subrange(a, b)),
        decreases s@.len() - i,
    {
        if s[i] == '/' || s[i] == '\\' {
            assert(is_segment(s@, start as int, i as int));
            if segment_is_test(s, start, i) {
                return true;
            }
            proof {
                assert forall|a: int, b: int|
                    #![trigger is_segment(s@, a, b)]
                    is_segment(s@, a, b) && b < i + 1 implies !is_test_dir_name(
                        s@.subrange(a, b),
                    ) by {
                    if b >= start {
                        if a < start {
                            assert(!is_path_sep(s@[start - 1]));
                        }
                        if a > start {
                            assert(is_path_sep(s@[a - 1]));
                        }
                        if b < i {
                            assert(is_path_sep(s@[b]));
                        }
                    }
                }
            }
            start = i + 1;
        }
        i += 1;
    }
    assert(is_segment(s@, start as int, i as int));
    if segment_is_test(s, start, i) {
        return true;
    }
    proof {
        assert forall|a: int, b: int| is_segment(s@, a, b) implies !is_test_dir_name(
            s@.subrange(a, b),
        ) by {
            if b >= start {
                if a < start {
                    assert(!is_path_sep(s@[start - 1]));
                }
                if a > start {
                    assert(is_path_sep(s@[a - 1]));
                }
            }
        }
    }
    false
}

/// Test files keep their diagnostics in the report but (mostly) out of the
/// score: deliberate rule-breaking is normal in tests.
pub fn classify_file(path: &str) -> (context: FileContext)
    ensures
        context == classify_spec(path@),
{
    let lowered = to_ascii_lowercase(path);
    let dot_test = crate::text::chars_of(".test.");
    let dot_spec = crate::text::chars_of(".spec.");
    let dash_test = crate::text::chars_of("-test.");
    if has_test_segment_chars(&lowered) || contains(&lowered, &dot_test) || contains(
        &lowered,
        &dot_spec,
    ) || contains(&lowered, &dash_test) {
        return FileContext::Test;
    }
    FileContext::Production
}

/// Is `path` a test file (see [`classify_file`])?
pub fn is_test_file(path: &str) -> (test: bool)
    ensures
        test == (classify_spec(path@) == FileContext::Test),
{
    match classify_file(path) {
        FileContext::Test => true,
        FileContext::Production => false,
    }
}

} // verus!

verus! {

/// Number of `\n` bytes strictly before `offset`.
pub open spec fn newlines_before(bytes: Seq<u8>, offset: int) -> nat
    decreases offset,
{
    if offset <= 0 {
        0
    } else {
        newlines_before(bytes, offset - 1) + (if offset - 1 < bytes.len() && bytes[offset - 1]
            == 10 {
            1nat
        } else {
            0nat
        })
    }
}

/// Byte offset at which the line containing `offset` begins: just after the
/// last `\n` before `offset`, or 0.
pub open spec fn line_start(bytes: Seq<u8>, offset: int) -> int
    decreases offset,
{
    if offset <= 0 {
        0
    } else if offset - 1 < bytes.len() && bytes[offset - 1] == 10 {
        offset
    } else {
        line_start(bytes, offset - 1)
    }
}

/// The `l`-th (0-based) `\n`-separated line of `cs`, without its newline.
pub open spec fn line_text(cs: Seq<char>, l: nat) -> Seq<char>
    decreases cs.len(),
{
    if cs.len() == 0 {
        Seq::empty()
    } else if cs[0] == '\n' {
        if l == 0 {
            Seq::empty()
        } else {
            line_text(cs.drop_first(), (l - 1) as nat)
        }
    } else if l == 0 {
        seq![cs[0]] + line_text(cs.drop_first(), 0)
    } else {
        line_text(cs.drop_first(), l)
    }
}

proof fn lemma_past_end(bytes: Seq<u8>, offset: int)
    requires
        offset >= bytes.len(),
    ensures
        newlines_before(bytes, offset) == newlines_before(bytes, bytes.len() as int),
        line_start(bytes, offset) == line_start(bytes, bytes.len() as int),
    decreases offset,
{
    if offset > bytes.len() {
        lemma_past_end(bytes, offset - 1);
    }
}

proof fn lemma_line_start_bound(bytes: Seq<u8>, offset: int)
    requires
        offset >= 0,
    ensures
        0 <= line_start(bytes, offset) <= offset,
    decreases offset,
{
    if offset > 0 {
        lemma_line_start_bound(bytes, offset - 1);
    }
}

/// 1-based line and column (in bytes) of `offset` in `bytes`.
pub fn line_col(bytes: &[u8], offset: usize) -> (pos: (u32, u32))
    requires
        offset <= u32::MAX,
    ensures
        pos.0 == (newlines_before(bytes@, offset as int) + 1) as u32,
        pos.1 == (offset - line_start(bytes@, offset as int) + 1) as u32,
{
    let end = if offset < bytes.len() {
        offset
    } else {
        bytes.len()
    };
    let mut count: usize = 0;
    let mut start: usize = 0;
    let mut i: usize = 0;
    while i < end
        invariant
            end <= bytes@.len(),
            end <= offset,
            i <= end,
            count == newlines_before(bytes@, i as int),
            start == line_start(bytes@, i as int),
            count <= i,
            start <= i,
        decreases end - i,
    {
        if bytes[i] == 10 {
            count += 1;
            start = i + 1;
        }
        i += 1;
    }
    proof {
        if offset >= bytes@.len() {
            lemma_past_end(bytes@, offset as int);
        }
    }
    let line_number: u64 = count as u64 + 1;
    let column_number: u64 = (offset - start) as u64 + 1;
    (#[verifier::truncate] (line_number as u32), #[verifier::truncate] (column_number as u32))
}

/// The `l`-th line of `cs` (0-based), without its newline.
pub fn line_of(cs: &[char], l: usize) -> (line: Vec<char>)
    ensures
        line@ == line_text(cs@, l as nat),
{
    let mut line: Vec<char> = Vec::new();
    let mut remaining: usize = l;
    let mut i: usize = 0;
    assert(cs@.skip(0) =~= cs@);
    assert(line@ + line_text(cs@, l as nat) =~= line_text(cs@, l as nat));
    while i < cs.len()
        invariant
            i <= cs@.len(),
            line_text(cs@, l as nat) == line@ + line_text(cs@.skip(i as int), remaining as nat),
            remaining > 0 ==> line@.len() == 0,
        decreases cs@.len() - i,
    {
        let c = cs[i];
        assert(cs@.skip(i as int).drop_first() =~= cs@.skip(i + 1));
        assert(cs@.skip(i as int)[0] == c);
        if c == '\n' {
            if remaining == 0 {
                assert(line_text(cs@.skip(i as int), 0) =~= Seq::<char>::empty());
                assert(line@ + Seq::<char>::empty() =~= line@);
                return line;
            }
            remaining -= 1;
        } else if remaining == 0 {
            assert(line@ + (seq![c] + line_text(cs@.skip(i + 1), 0)) =~= line@.push(c)
                + line_text(cs@.skip(i + 1), 0));
            line.push(c);
        }
        i += 1;
    }
    assert(line_text(cs@.skip(i as int), remaining as nat) =~= Seq::<char>::empty());
    assert(line@ + Seq::<char>::empty() =~= line@);
    line
}

/// The diagnostic a raw finding becomes in `source` (a file shown as `path`):
/// line and column of the span start, and that line's text without trailing
/// white space.
pub open spec fn finalized(
    source: &str,
    path: Seq<char>,
    context: FileContext,
    raw: RawDiagnostic,
    d: Diagnostic,
) -> bool {
    let bytes = vstd::utf8::encode_utf8(source@);
    let offset = raw.span.start as int;
    &&& d.rule == raw.meta.id
    &&& d.severity == (match raw.severity {
        Some(severity) => severity,
        None => raw.meta.severity,
    })
    &&& d.category == raw.meta.category
    &&& d.message == raw.message
    &&& d.help == raw.meta.help
    &&& d.file@ == path
    &&& d.file_context == context
    &&& d.line == (newlines_before(bytes, offset) + 1) as u32
    &&& d.column == (offset - line_start(bytes, offset) + 1) as u32
    &&& d.snippet@ == trim_end_spec(line_text(source@, newlines_before(bytes, offset)))
}

/// Convert span-based raw findings into line/column diagnostics with
/// source-line snippets, in the same order.
pub fn finalize(
    source: &str,
    display_path: &str,
    file_context: FileContext,
    raw: Vec<RawDiagnostic>,
) -> (out: Vec<Diagnostic>)
    ensures
        out@.len() == raw@.len(),
        forall|k: int|
            0 <= k < raw@.len() ==> finalized(
                source,
                display_path@,
                file_context,
                #[trigger] raw@[k],
                out@[k],
            ),
{
    let mut out: Vec<Diagnostic> = Vec::new();
    if raw.len() == 0 {
        return out;
    }
    let bytes = source.as_bytes();
    let chars = crate::text::chars_of(source);
    let mut k: usize = 0;
    while k < raw.len()
        invariant
            k <= raw@.len(),
            out@.len() == k,
            bytes@ == vstd::utf8::encode_utf8(source@),
            chars@ == source@,
            forall|m: int|
                0 <= m < k ==> finalized(
                    source,
                    display_path@,
                    file_context,
                    #[trigger] raw@[m],
                    out@[m],
                ),
        decreases raw@.len() - k,
    {
        let finding = &raw[k];
        let offset = finding.span.start as usize;
        let (line, column) = line_col(bytes, offset);
        let line_index = line_index_of(bytes, offset);
        let text = line_of(&chars, line_index);
        let snippet = string_of(&trim_end(&text));
        let severity = match finding.severity {
            Some(severity) => severity,
            None => finding.meta.severity,
        };
        out.push(
            Diagnostic {
                rule: finding.meta.id,
                severity,
                category: finding.meta.category,
                message: finding.message.clone(),
                help: finding.meta.help,
                file: crate::text::owned(display_path),
                file_context,
                line,
                column,
                snippet,
            },
        );
        k += 1;
    }
    out
}

/// 0-based line index of `offset`: the number of `\n` bytes before it.
fn line_index_of(bytes: &[u8], offset: usize) -> (l: usize)
    ensures
        l == newlines_before(bytes@, offset as int),
{
    let end = if offset < bytes.len() {
        offset
    } else {
        bytes.len()
    };
    let mut count: usize = 0;
    let mut i: usize = 0;
    while i < end
        invariant
            end <= bytes@.len(),
            end <= offset,
            i <= end,
            count == newlines_before(bytes@, i as int),
            count <= i,
        decreases end - i,
    {
        if bytes[i] == 10 {
            count += 1;
        }
        i += 1;
    }
    proof {
        if offset >= bytes@.len() {
            lemma_past_end(bytes@, offset as int);
        }
    }
    count
}

/// `d` reports the finding `f` of the file at `path` with source `source`.
pub open spec fn finalized_finding(source: &str, path: Seq<char>, context: FileContext, f: Finding, d: Diagnostic) -> bool {
    let bytes = vstd::utf8::encode_utf8(source@);
    let offset = f.1.start as int;
    &&& d.rule == f.0.id
    &&& d.severity == (match f.3 {
        Some(severity) => severity,
        None => f.0.severity,
    })
    &&& d.category == f.0.category
    &&& d.message@ == f.2
    &&& d.help == f.0.help
    &&& d.file@ == path
    &&& d.file_context == context
    &&& d.line == (newlines_before(bytes, offset) + 1) as u32
    &&& d.column == (offset - line_start(bytes, offset) + 1) as u32
    &&& d.snippet@ == trim_end_spec(line_text(source@, newlines_before(bytes, offset)))
}

/// Toggles for the optional rule tiers layered on top of the always-on
/// rules. The default is the plain production scan.
#[derive(Debug, Clone, Copy, Default)]
pub struct LintOptions {
    /// Run v4-migration rules even on an effect v3 codebase.
    pub v4_active: bool,
    /// Experimental: vanilla-TS to Effect adoption recommendations.
    pub adopt: bool,
    /// Experimental: agent-hygiene rules.
    pub agent: bool,
    /// Escalate agent-hygiene findings from `warn` to `error` (implies `agent`).
    pub agent_strict: bool,
}

/// A parsed file: whether the parser gave up, the file's import
/// declarations, and its walk.
#[derive(Debug)]
pub struct ParsedFile {
    pub panicked: bool,
    pub imports: Vec<ImportDecl>,
    pub events: Vec<Event>,
}

/// The profile flags a scan with `options` runs the rules under.
pub open spec fn options_flags(options: LintOptions) -> (bool, bool, bool, bool) {
    (options.v4_active, options.adopt, options.agent || options.agent_strict, options.agent_strict)
}

/// What linting a parsed file reports: nothing when the parser gave up or the
/// file imports nothing from effect; otherwise each finding of the walk, in
/// order, as a line/column diagnostic.
pub open spec fn linted(display_path: Seq<char>, source: &str, parsed: ParsedFile, options: LintOptions, out: Seq<Diagnostic>) -> bool {
    if parsed.panicked || !any_effect_import(parsed.imports@) {
        out.len() == 0
    } else {
        let findings = file_findings(parsed.events@, bindings_map(program_bindings(parsed.imports@)), options_flags(options));
        &&& out.len() == findings.len()
        &&& forall|k: int| 0 <= k < out.len() ==> finalized_finding(source, display_path, classify_spec(display_path), #[trigger] findings[k], out[k])
    }
}

/// Each diagnostic carries the rule id, help text and category of a catalog
/// entry.
pub open spec fn from_catalog_entries(out: Seq<Diagnostic>) -> bool {
    forall|k: int|
        0 <= k < out.len() ==> exists|i: int|
            0 <= i < catalog().len() && catalog()[i].id == (#[trigger] out[k]).rule && catalog()[i].help == out[k].help
                && catalog()[i].category == out[k].category
}

/// Lint a parsed file with the optional tiers selected by `options`. Every
/// diagnostic names a rule of the catalog; how a strict agent run relates to
/// a plain agent run is [`lemma_agent_strict_only_escalates`].
pub fn lint_source_opts(display_path: &str, source: &str, parsed: &ParsedFile, options: LintOptions) -> (out: Vec<Diagnostic>)
    ensures
        linted(display_path@, source, *parsed, options, out@),
        from_catalog_entries(out@),
{
    if parsed.panicked {
        return Vec::new();
    }
    let imports = EffectImports::from_imports(&parsed.imports);
    if !imports.has_any() {
        return Vec::new();
    }
    let agent_active = options.agent || options.agent_strict;
    let ctx = run(imports, options.v4_active, options.adopt, agent_active, options.agent_strict, &parsed.events);
    let ghost findings = ctx.findings();
    let ghost raw = ctx.raw@;
    let out = finalize(source, display_path, classify_file(display_path), ctx.raw);
    proof {
        assert forall|k: int| 0 <= k < out@.len() implies finalized_finding(source, display_path@, classify_spec(display_path@), #[trigger] findings[k], out@[k]) by {
            assert(finalized(source, display_path@, classify_spec(display_path@), raw[k], out@[k]));
            assert(findings[k] == finding_of(raw[k]));
        }
        crate::provenance::lemma_diagnostics_from_catalog(display_path@, source, *parsed, options, out@);
    }
    out
}

/// Linting a file in strict agent mode reports what agent mode reports, in
/// the same order: each diagnostic has the same rule, place, message, help
/// and snippet, and either the same severity or `error`.
pub proof fn lemma_agent_strict_only_escalates(
    display_path: Seq<char>,
    source: &str,
    parsed: ParsedFile,
    v4_active: bool,
    adopt: bool,
    agent: bool,
    plain: Seq<Diagnostic>,
    strict: Seq<Diagnostic>,
)
    requires
        linted(display_path, source, parsed, LintOptions { v4_active, adopt, agent: true, agent_strict: false }, plain),
        linted(display_path, source, parsed, LintOptions { v4_active, adopt, agent, agent_strict: true }, strict),
    ensures
        plain.len() == strict.len(),
        forall|k: int|
            #![trigger plain[k], strict[k]]
            0 <= k < plain.len() ==> {
                &&& plain[k].rule == strict[k].rule
                &&& plain[k].category == strict[k].category
                &&& plain[k].message@ == strict[k].message@
                &&& plain[k].help == strict[k].help
                &&& plain[k].file@ == strict[k].file@
                &&& plain[k].file_context == strict[k].file_context
                &&& plain[k].line == strict[k].line
                &&& plain[k].column == strict[k].column
                &&& plain[k].snippet@ == strict[k].snippet@
                &&& (strict[k].severity == plain[k].severity || strict[k].severity == Severity::Error)
            },
{
    if !(parsed.panicked || !any_effect_import(parsed.imports@)) {
        let bindings = bindings_map(program_bindings(parsed.imports@));
        crate::strictness::lemma_file(parsed.events@, bindings, v4_active, adopt, true);
        let fp = file_findings(parsed.events@, bindings, (v4_active, adopt, true, false));
        let fs = file_findings(parsed.events@, bindings, (v4_active, adopt, true, true));
        assert forall|k: int| #![trigger plain[k], strict[k]] 0 <= k < plain.len() implies {
            &&& plain[k].rule == strict[k].rule
            &&& plain[k].category == strict[k].category
            &&& plain[k].message@ == strict[k].message@
            &&& plain[k].help == strict[k].help
            &&& plain[k].file@ == strict[k].file@
            &&& plain[k].file_context == strict[k].file_context
            &&& plain[k].line == strict[k].line
            &&& plain[k].column == strict[k].column
            &&& plain[k].snippet@ == strict[k].snippet@
            &&& (strict[k].severity == plain[k].severity || strict[k].severity == Severity::Error)
        } by {
            assert(fp[k].0 == fs[k].0 && fp[k].1 == fs[k].1 && fp[k].2 == fs[k].2);
        }
    }
}


/// Lint a parsed file with the plain production tiers.
pub fn lint_source(display_path: &str, source: &str, parsed: &ParsedFile, v4_active: bool) -> (out: Vec<Diagnostic>)
    ensures
        linted(display_path@, source, *parsed, LintOptions { v4_active, adopt: false, agent: false, agent_strict: false }, out@),
        from_catalog_entries(out@),
{
    lint_source_opts(display_path, source, parsed, LintOptions { v4_active, adopt: false, agent: false, agent_strict: false })
}

/// [`lint_source`] with the experimental adoption rules toggled.
pub fn lint_source_with(display_path: &str, source: &str, parsed: &ParsedFile, v4_active: bool, adopt: bool) -> (out: Vec<Diagnostic>)
    ensures
        linted(display_path@, source, *parsed, LintOptions { v4_active, adopt, agent: false, agent_strict: false }, out@),
        from_catalog_entries(out@),
{
    lint_source_opts(display_path, source, parsed, LintOptions { v4_active, adopt, agent: false, agent_strict: false })
}


/// A path with a whole segment that is, ignoring ASCII case, `test`, `tests`,
/// `__tests__` or `e2e` is test code, whatever comes before or after it.
pub proof fn lemma_test_directory_is_test(dir: Seq<char>, segment: Seq<char>, rest: Seq<char>)
    requires
        dir.len() == 0 || is_path_sep(dir.last()),
        rest.len() == 0 || is_path_sep(rest[0]),
        ascii_lower(segment) == "test"@ || ascii_lower(segment) == "tests"@ || ascii_lower(segment) == "__tests__"@
            || ascii_lower(segment) == "e2e"@,
    ensures
        classify_spec(dir + segment + rest) == FileContext::Test,
{
    reveal_strlit("test");
    reveal_strlit("tests");
    reveal_strlit("__tests__");
    reveal_strlit("e2e");
    let path = dir + segment + rest;
    let lowered = ascii_lower(path);
    let i = dir.len() as int;
    let j = i + segment.len();
    assert(lowered =~= ascii_lower(dir) + ascii_lower(segment) + ascii_lower(rest));
    if i > 0 {
        assert(lowered[i - 1] == ascii_lower_char(dir.last()));
    }
    if j < lowered.len() {
        assert(lowered[j] == ascii_lower_char(rest[0]));
    }
    assert forall|k: int| i <= k < j implies !is_path_sep(lowered[k]) by {
        assert(lowered[k] == ascii_lower(segment)[k - i]);
    }
    assert(lowered.subrange(i, j) =~= ascii_lower(segment));
    assert(is_segment(lowered, i, j));
    assert(has_test_segment(lowered));
}

} // verus!
