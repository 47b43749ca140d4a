//! Cross-file "this already exists" detector. Agents reimplement helpers that
//! the codebase already has because they lack repo-wide context; over a
//! repo-wide index of named and bound functions this flags the ones that
//! duplicate another by four signals, strongest first:
//!
//! 1. exact structural body: `agent-duplicate-cross-file`
//! 2. fuzzy structural body: `agent-near-duplicate-function`
//! 3. same (non-generic) name: `agent-similar-function-name`
//! 4. same behavioural shape: `agent-similar-shape`
//!
//! Each function is reported once, under its strongest signal, pointing at the
//! match's location. All findings are `info` suggestions.
use vstd::prelude::*;

use crate::diagnostics::{Category, Diagnostic, FileContext, RuleMeta, Severity};
use crate::text::{concat3, decimal, owned, push_str, seq_lt, str_eq, str_lt, to_decimal};

verus! {

/// Catalog metadata of `agent-duplicate-cross-file`.
#[verifier::allow_in_spec]
pub fn duplicate_cross_file_meta() -> RuleMeta
    returns
        (RuleMeta {
            id: "agent-duplicate-cross-file",
            severity: Severity::Info,
            category: Category::AgentHygiene,
            help: "A function with a structurally identical body exists in another file — agents re-create helpers they can't see. Import and reuse the existing one (or extract a shared module).",
        }),
{
    RuleMeta {
        id: "agent-duplicate-cross-file",
        severity: Severity::Info,
        category: Category::AgentHygiene,
        help: "A function with a structurally identical body exists in another file — agents re-create helpers they can't see. Import and reuse the existing one (or extract a shared module).",
    }
}

/// Catalog metadata of `agent-near-duplicate-function`.
#[verifier::allow_in_spec]
pub fn near_duplicate_meta() -> RuleMeta
    returns
        (RuleMeta {
            id: "agent-near-duplicate-function",
            severity: Severity::Info,
            category: Category::AgentHygiene,
            help: "A function in another file is structurally near-identical (a lightly-edited copy). Confirm it isn't the same logic reimplemented, and consolidate to one helper.",
        }),
{
    RuleMeta {
        id: "agent-near-duplicate-function",
        severity: Severity::Info,
        category: Category::AgentHygiene,
        help: "A function in another file is structurally near-identical (a lightly-edited copy). Confirm it isn't the same logic reimplemented, and consolidate to one helper.",
    }
}

/// Catalog metadata of `agent-similar-function-name`.
#[verifier::allow_in_spec]
pub fn similar_name_meta() -> RuleMeta
    returns
        (RuleMeta {
            id: "agent-similar-function-name",
            severity: Severity::Info,
            category: Category::AgentHygiene,
            help: "Another function with the same name is defined elsewhere — likely a duplicate implementation of the same concept. Reuse the existing one or rename to disambiguate.",
        }),
{
    RuleMeta {
        id: "agent-similar-function-name",
        severity: Severity::Info,
        category: Category::AgentHygiene,
        help: "Another function with the same name is defined elsewhere — likely a duplicate implementation of the same concept. Reuse the existing one or rename to disambiguate.",
    }
}

/// Catalog metadata of `agent-similar-shape`.
#[verifier::allow_in_spec]
pub fn similar_shape_meta() -> RuleMeta
    returns
        (RuleMeta {
            id: "agent-similar-shape",
            severity: Severity::Info,
            category: Category::AgentHygiene,
            help: "Another function takes the same parameters and calls the same helpers — it may accomplish the same goal by a different route. Check whether one can be derived from or replaced by the other.",
        }),
{
    RuleMeta {
        id: "agent-similar-shape",
        severity: Severity::Info,
        category: Category::AgentHygiene,
        help: "Another function takes the same parameters and calls the same helpers — it may accomplish the same goal by a different route. Check whether one can be derived from or replaced by the other.",
    }
}

/// Metas for the cross-file rules, which fire from the engine pass rather
/// than the per-file rule dispatch.
pub fn cross_file_metas() -> (metas: Vec<RuleMeta>)
    ensures
        metas@ == seq![duplicate_cross_file_meta(), near_duplicate_meta(), similar_name_meta(), similar_shape_meta()],
{
    let mut metas: Vec<RuleMeta> = Vec::new();
    metas.push(duplicate_cross_file_meta());
    metas.push(near_duplicate_meta());
    metas.push(similar_name_meta());
    metas.push(similar_shape_meta());
    metas
}

/// Above this many entries the fuzzy pass is skipped.
pub const NEAR_MAX_ENTRIES: usize = 4000;

/// The lowest similarity, in percent, a near-duplicate is reported at.
pub const NEAR_MIN_PERCENT: u32 = 92;

/// The structural fingerprint of a function body: the hash of its exact
/// structure and, when it has one, the hash of its behaviour (parameters and
/// call set), with the body's size in nodes.
#[derive(Debug, Clone, Copy, PartialEq, Eq, Structural)]
pub struct Shape {
    pub exact_hash: u64,
    pub behaviour_hash: Option<u64>,
    pub len: u32,
}

/// One indexed function: where it lives plus its [`Shape`] for matching.
#[derive(Debug, Clone)]
pub struct FunctionEntry {
    pub file: String,
    pub file_context: FileContext,
    pub name: Option<String>,
    pub line: u32,
    pub column: u32,
    pub snippet: String,
    pub shape: Shape,
}

/// Names too generic for a same-name collision to mean anything: fewer than
/// three bytes, or a stock name.
pub open spec fn is_generic_name_spec(name: Seq<char>) -> bool {
    ||| vstd::utf8::encode_utf8(name).len() < 3
    ||| name == "run"@
    ||| name == "handle"@
    ||| name == "main"@
    ||| name == "init"@
    ||| name == "setup"@
    ||| name == "teardown"@
    ||| name == "callback"@
    ||| name == "cb"@
    ||| name == "noop"@
}

/// Is the function name too generic to match on?
pub fn is_generic_name(name: &str) -> (generic: bool)
    ensures
        generic == is_generic_name_spec(name@),
{
    name.as_bytes().len() < 3 || str_eq(name, "run") || str_eq(name, "handle") || str_eq(name, "main") || str_eq(name, "init")
        || str_eq(name, "setup") || str_eq(name, "teardown") || str_eq(name, "callback") || str_eq(name, "cb")
        || str_eq(name, "noop")
}

/// The exact signals two entries can share.
#[derive(Debug, Clone, Copy, PartialEq, Eq, Structural)]
pub enum Signal {
    /// The same exact structural hash.
    Exact,
    /// The same non-generic name.
    Name,
    /// The same behaviour hash.
    Shape,
}

/// Entries `i` and `j` share the signal.
pub open spec fn same_group(es: Seq<FunctionEntry>, signal: Signal, i: int, j: int) -> bool {
    match signal {
        Signal::Exact => es[i].shape.exact_hash == es[j].shape.exact_hash,
        Signal::Name => match (es[i].name, es[j].name) {
            (Some(a), Some(b)) => a@ == b@ && !is_generic_name_spec(a@),
            _ => false,
        },
        Signal::Shape => match (es[i].shape.behaviour_hash, es[j].shape.behaviour_hash) {
            (Some(a), Some(b)) => a == b,
            _ => false,
        },
    }
}

/// `j` is a partner of `i` by the signal: another entry, in another file,
/// sharing the signal.
pub open spec fn is_partner(es: Seq<FunctionEntry>, signal: Signal, i: int, j: int) -> bool {
    0 <= j < es.len() && j != i && es[j].file@ != es[i].file@ && same_group(es, signal, i, j)
}

/// The first partner of `i` by the signal at or after position `j`.
pub open spec fn first_partner_from(es: Seq<FunctionEntry>, signal: Signal, i: int, j: int) -> Option<int>
    decreases es.len() - j,
{
    if j < 0 || j >= es.len() {
        None
    } else if is_partner(es, signal, i, j) {
        Some(j)
    } else {
        first_partner_from(es, signal, i, j + 1)
    }
}

/// The first partner of `i` by the signal.
pub open spec fn first_partner(es: Seq<FunctionEntry>, signal: Signal, i: int) -> Option<int> {
    first_partner_from(es, signal, i, 0)
}

/// The similarity band, in percent, a fuzzy partner is reported in.
pub open spec fn near_band(pct: u32) -> bool {
    NEAR_MIN_PERCENT <= pct <= 100
}

/// The fuzzy partner of `i` and its similarity percentage, as the fuzzy pass
/// found it: used only when the index is small enough, and only for a
/// partner in another file whose body is not an exact duplicate, at a
/// similarity within the reporting band.
pub open spec fn usable_near(es: Seq<FunctionEntry>, near: Seq<Option<(usize, u32)>>, i: int) -> Option<(int, u32)> {
    if es.len() <= NEAR_MAX_ENTRIES && 0 <= i < near.len() && i < es.len() {
        match near[i] {
            Some((p, pct)) => if p < es.len() && es[p as int].file@ != es[i].file@ && es[p as int].shape.exact_hash
                != es[i].shape.exact_hash && near_band(pct) {
                Some((p as int, pct))
            } else {
                None
            },
            None => None,
        }
    } else {
        None
    }
}

/// How a finding names a function: its name in backticks, or `fallback`.
pub open spec fn named(name: Option<String>, fallback: Seq<char>) -> Seq<char> {
    match name {
        Some(n) => "`"@ + n@ + "`"@,
        None => fallback,
    }
}

/// The message relating `entry` to `partner`.
pub open spec fn describe_spec(entry: FunctionEntry, partner: FunctionEntry, relation: Seq<char>) -> Seq<char> {
    named(entry.name, "this function"@) + " "@ + relation + " "@ + named(partner.name, "a function"@) + " at "@ + partner.file@
        + ":"@ + decimal(partner.line as nat) + " — reuse one instead of maintaining both"@
}

/// The finding for entry `i`: its strongest signal, with the message.
pub open spec fn entry_finding(es: Seq<FunctionEntry>, near: Seq<Option<(usize, u32)>>, i: int) -> Option<(RuleMeta, Seq<char>)> {
    match first_partner(es, Signal::Exact, i) {
        Some(p) => Some((duplicate_cross_file_meta(), describe_spec(es[i], es[p], "is a structural duplicate of"@))),
        None => match usable_near(es, near, i) {
            Some((p, pct)) => Some((
                near_duplicate_meta(),
                describe_spec(es[i], es[p], "is ~"@ + decimal(pct as nat) + "% structurally similar to"@),
            )),
            None => match first_partner(es, Signal::Name, i) {
                Some(p) => Some((similar_name_meta(), describe_spec(es[i], es[p], "shares a name with"@))),
                None => match first_partner(es, Signal::Shape, i) {
                    Some(p) => Some((similar_shape_meta(), describe_spec(es[i], es[p], "has the same params + call set as"@))),
                    None => None,
                },
            },
        },
    }
}

/// The plain value of a diagnostic.
pub type DiagnosticView = (Seq<char>, Severity, Category, Seq<char>, Seq<char>, Seq<char>, FileContext, u32, u32, Seq<char>);

/// The plain value of a diagnostic.
pub open spec fn diagnostic_view(d: Diagnostic) -> DiagnosticView {
    (d.rule@, d.severity, d.category, d.message@, d.help@, d.file@, d.file_context, d.line, d.column, d.snippet@)
}

/// The diagnostic of a finding on `entry`.
pub open spec fn entry_diagnostic(meta: RuleMeta, entry: FunctionEntry, message: Seq<char>) -> DiagnosticView {
    (meta.id@, meta.severity, meta.category, message, meta.help@, entry.file@, entry.file_context, entry.line, entry.column, entry.snippet@)
}

/// The findings of the first `n` entries, in index order.
pub open spec fn findings_upto(es: Seq<FunctionEntry>, near: Seq<Option<(usize, u32)>>, n: int) -> Seq<DiagnosticView>
    decreases n,
{
    if n <= 0 {
        Seq::empty()
    } else {
        let prior = findings_upto(es, near, n - 1);
        match entry_finding(es, near, n - 1) {
            Some((meta, message)) => prior.push(entry_diagnostic(meta, es[n - 1], message)),
            None => prior,
        }
    }
}

/// The report order: by rule id, then file, then line.
pub open spec fn report_le(a: DiagnosticView, b: DiagnosticView) -> bool {
    ||| seq_lt(a.0, b.0)
    ||| (a.0 == b.0 && seq_lt(a.5, b.5))
    ||| (a.0 == b.0 && a.5 == b.5 && a.7 <= b.7)
}

/// The diagnostics are in report order.
pub open spec fn report_sorted(ds: Seq<DiagnosticView>) -> bool {
    forall|i: int, j: int| 0 <= i < j < ds.len() ==> report_le(ds[i], ds[j])
}

proof fn lemma_report_le_transitive(a: DiagnosticView, b: DiagnosticView, c: DiagnosticView)
    requires
        report_le(a, b),
        report_le(b, c),
    ensures
        report_le(a, c),
{
    if seq_lt(a.0, b.0) && seq_lt(b.0, c.0) {
        crate::text::lemma_seq_lt_transitive(a.0, b.0, c.0);
    } else if a.0 == b.0 && b.0 == c.0 && seq_lt(a.5, b.5) && seq_lt(b.5, c.5) {
        crate::text::lemma_seq_lt_transitive(a.5, b.5, c.5);
    }
}

proof fn lemma_report_total(a: DiagnosticView, b: DiagnosticView)
    ensures
        report_le(a, b) || report_le(b, a),
        !report_le(a, b) ==> report_le(b, a),
{
    crate::text::lemma_seq_lt_trichotomy(a.0, b.0);
    crate::text::lemma_seq_lt_trichotomy(a.5, b.5);
}

fn view_lt(a: &Diagnostic, b: &Diagnostic) -> (less: bool)
    ensures
        less == !report_le(diagnostic_view(*b), diagnostic_view(*a)),
{
    proof {
        crate::text::lemma_seq_lt_trichotomy(a.rule@, b.rule@);
        crate::text::lemma_seq_lt_trichotomy(a.file@, b.file@);
    }
    if str_lt(a.rule, b.rule) {
        return true;
    }
    if !str_eq(a.rule, b.rule) {
        return false;
    }
    if str_lt(a.file.as_str(), b.file.as_str()) {
        return true;
    }
    if !str_eq(a.file.as_str(), b.file.as_str()) {
        return false;
    }
    a.line < b.line
}

/// Insert `d` after every diagnostic that sorts no later than it.
fn insert_sorted(sorted: &mut Vec<Diagnostic>, d: Diagnostic)
    requires
        report_sorted(old(sorted)@.map_values(|x: Diagnostic| diagnostic_view(x))),
    ensures
        report_sorted(final(sorted)@.map_values(|x: Diagnostic| diagnostic_view(x))),
        final(sorted)@.map_values(|x: Diagnostic| diagnostic_view(x)).to_multiset() == old(sorted)@.map_values(
            |x: Diagnostic| diagnostic_view(x),
        ).to_multiset().insert(diagnostic_view(d)),
{
    let ghost before = sorted@.map_values(|x: Diagnostic| diagnostic_view(x));
    let ghost key = diagnostic_view(d);
    let mut pos: usize = 0;
    let mut found = false;
    while pos < sorted.len() && !found
        invariant
            pos <= sorted@.len(),
            sorted == old(sorted),
            before == sorted@.map_values(|x: Diagnostic| diagnostic_view(x)),
            key == diagnostic_view(d),
            forall|k: int| 0 <= k < pos ==> report_le(#[trigger] before[k], key),
            found ==> pos < sorted@.len() && !report_le(before[pos as int], key),
        decreases sorted@.len() - pos + if found { 0int } else { 1int },
    {
        if view_lt(&d, &sorted[pos]) {
            assert(before[pos as int] == diagnostic_view(sorted@[pos as int]));
            found = true;
        } else {
            assert(before[pos as int] == diagnostic_view(sorted@[pos as int]));
            pos += 1;
        }
    }
    sorted.insert(pos, d);
    proof {
        let after = sorted@.map_values(|x: Diagnostic| diagnostic_view(x));
        assert(after =~= before.insert(pos as int, key));
        vstd::seq_lib::to_multiset_insert(before, pos as int, key);
        assert forall|i: int, j: int| 0 <= i < j < after.len() implies report_le(after[i], after[j]) by {
            if i < pos && j == pos {
            } else if i == pos && j > pos {
                lemma_report_total(before[pos as int], key);
                if j - 1 > pos {
                    lemma_report_le_transitive(key, before[pos as int], before[j - 1]);
                }
            } else if i < pos && j > pos {
                assert(report_le(before[i], before[j - 1]));
            } else if j < pos {
                assert(report_le(before[i], before[j]));
            } else {
                assert(report_le(before[i - 1], before[j - 1]));
            }
        }
    }
}

fn find_partner(entries: &[FunctionEntry], index: usize, signal: Signal) -> (found: Option<usize>)
    requires
        index < entries@.len(),
    ensures
        match found {
            Some(p) => first_partner(entries@, signal, index as int) == Some(p as int) && p < entries@.len(),
            None => first_partner(entries@, signal, index as int) is None,
        },
{
    let name_key = match (&entries[index].name, signal) {
        (Some(name), Signal::Name) => !is_generic_name(name.as_str()),
        _ => false,
    };
    let mut j: usize = 0;
    while j < entries.len()
        invariant
            index < entries@.len(),
            j <= entries@.len(),
            name_key == (match (entries@[index as int].name, signal) {
                (Some(name), Signal::Name) => !is_generic_name_spec(name@),
                _ => false,
            }),
            first_partner(entries@, signal, index as int) == first_partner_from(entries@, signal, index as int, j as int),
        decreases entries@.len() - j,
    {
        let me = &entries[index];
        let other = &entries[j];
        let grouped = match signal {
            Signal::Exact => me.shape.exact_hash == other.shape.exact_hash,
            Signal::Name => match (&me.name, &other.name) {
                (Some(a), Some(b)) => name_key && str_eq(a.as_str(), b.as_str()),
                _ => false,
            },
            Signal::Shape => match (me.shape.behaviour_hash, other.shape.behaviour_hash) {
                (Some(a), Some(b)) => a == b,
                _ => false,
            },
        };
        if j != index && grouped && !str_eq(other.file.as_str(), me.file.as_str()) {
            return Some(j);
        }
        j += 1;
    }
    None
}

fn name_text(name: &Option<String>, fallback: &str) -> (text: String)
    ensures
        text@ == named(*name, fallback@),
{
    match name {
        Some(n) => concat3("`", n.as_str(), "`"),
        None => owned(fallback),
    }
}

/// The message relating `entry` to `partner`.
pub fn describe(entry: &FunctionEntry, partner: &FunctionEntry, relation: &str) -> (message: String)
    ensures
        message@ == describe_spec(*entry, *partner, relation@),
{
    let mut message = name_text(&entry.name, "this function");
    push_str(&mut message, " ");
    push_str(&mut message, relation);
    push_str(&mut message, " ");
    let target = name_text(&partner.name, "a function");
    push_str(&mut message, target.as_str());
    push_str(&mut message, " at ");
    push_str(&mut message, partner.file.as_str());
    push_str(&mut message, ":");
    let line = to_decimal(partner.line as u64);
    push_str(&mut message, line.as_str());
    push_str(&mut message, " — reuse one instead of maintaining both");
    message
}

/// The diagnostic of a finding on `entry`.
pub fn to_diagnostic(meta: RuleMeta, entry: &FunctionEntry, message: String) -> (d: Diagnostic)
    ensures
        diagnostic_view(d) == entry_diagnostic(meta, *entry, message@),
{
    Diagnostic {
        rule: meta.id,
        severity: meta.severity,
        category: meta.category,
        message,
        help: meta.help,
        file: entry.file.clone(),
        file_context: entry.file_context,
        line: entry.line,
        column: entry.column,
        snippet: entry.snippet.clone(),
    }
}

fn finding_for(entries: &[FunctionEntry], near: &[Option<(usize, u32)>], index: usize) -> (found: Option<(RuleMeta, String)>)
    requires
        index < entries@.len(),
    ensures
        match found {
            Some((meta, message)) => entry_finding(entries@, near@, index as int) == Some((meta, message@)),
            None => entry_finding(entries@, near@, index as int) is None,
        },
{
    let entry = &entries[index];
    match find_partner(entries, index, Signal::Exact) {
        Some(p) => return Some((duplicate_cross_file_meta(), describe(entry, &entries[p], "is a structural duplicate of"))),
        None => {},
    }
    if entries.len() <= NEAR_MAX_ENTRIES && index < near.len() {
        match near[index] {
            Some((p, pct)) => if p < entries.len() && !str_eq(entries[p].file.as_str(), entry.file.as_str())
                && entries[p].shape.exact_hash != entry.shape.exact_hash && NEAR_MIN_PERCENT <= pct && pct <= 100 {
                let number = to_decimal(pct as u64);
                let relation = concat3("is ~", number.as_str(), "% structurally similar to");
                return Some((near_duplicate_meta(), describe(entry, &entries[p], relation.as_str())));
            },
            None => {},
        }
    }
    match find_partner(entries, index, Signal::Name) {
        Some(p) => return Some((similar_name_meta(), describe(entry, &entries[p], "shares a name with"))),
        None => {},
    }
    match find_partner(entries, index, Signal::Shape) {
        Some(p) => Some((similar_shape_meta(), describe(entry, &entries[p], "has the same params + call set as"))),
        None => None,
    }
}

/// Cross-file analysis over the whole index. `near[i]` is the fuzzy partner
/// of entry `i` and its similarity percentage, as the fuzzy pass found it
/// (used only when the index holds at most [`NEAR_MAX_ENTRIES`] entries).
/// Each entry gets at most one finding, under its strongest signal; the
/// findings come sorted by rule id, file and line.
pub fn cross_file_findings(entries: &[FunctionEntry], near: &[Option<(usize, u32)>]) -> (findings: Vec<Diagnostic>)
    ensures
        report_sorted(findings@.map_values(|x: Diagnostic| diagnostic_view(x))),
        findings@.map_values(|x: Diagnostic| diagnostic_view(x)).to_multiset() == findings_upto(
            entries@,
            near@,
            entries@.len() as int,
        ).to_multiset(),
{
    let mut findings: Vec<Diagnostic> = Vec::new();
    let mut index: usize = 0;
    proof {
        assert(findings@.map_values(|x: Diagnostic| diagnostic_view(x)) =~= Seq::<DiagnosticView>::empty());
    }
    while index < entries.len()
        invariant
            index <= entries@.len(),
            report_sorted(findings@.map_values(|x: Diagnostic| diagnostic_view(x))),
            findings@.map_values(|x: Diagnostic| diagnostic_view(x)).to_multiset() == findings_upto(
                entries@,
                near@,
                index as int,
            ).to_multiset(),
        decreases entries@.len() - index,
    {
        match finding_for(entries, near, index) {
            Some((meta, message)) => {
                let d = to_diagnostic(meta, &entries[index], message);
                insert_sorted(&mut findings, d);
                proof {
                    let prior = findings_upto(entries@, near@, index as int);
                    assert(findings_upto(entries@, near@, index + 1) == prior.push(diagnostic_view(d)));
                    assert(prior.insert(prior.len() as int, diagnostic_view(d)) =~= prior.push(diagnostic_view(d)));
                    vstd::seq_lib::to_multiset_insert(prior, prior.len() as int, diagnostic_view(d));
                }
            },
            None => {},
        }
        index += 1;
    }
    findings
}

} // verus!

verus! {

proof fn lemma_first_partner_from(es: Seq<FunctionEntry>, signal: Signal, i: int, j: int)
    ensures
        match first_partner_from(es, signal, i, j) {
            Some(p) => is_partner(es, signal, i, p),
            None => true,
        },
    decreases es.len() - j,
{
    if 0 <= j < es.len() && !is_partner(es, signal, i, j) {
        lemma_first_partner_from(es, signal, i, j + 1);
    }
}

/// A partner found by a signal lives in another file than the function it
/// is found for.
pub proof fn lemma_partner_in_other_file(es: Seq<FunctionEntry>, signal: Signal, i: int)
    requires
        first_partner(es, signal, i) is Some,
    ensures
        0 <= first_partner(es, signal, i)->0 < es.len(),
        es[first_partner(es, signal, i)->0].file@ != es[i].file@,
        first_partner(es, signal, i)->0 != i,
{
    lemma_first_partner_from(es, signal, i, 0);
}

/// A near-duplicate partner lives in another file, is not an exact
/// duplicate, and is reported at a similarity within the band, and only when
/// the index is small enough for the fuzzy pass.
pub proof fn lemma_near_partner_band(es: Seq<FunctionEntry>, near: Seq<Option<(usize, u32)>>, i: int)
    requires
        usable_near(es, near, i) is Some,
    ensures
        es.len() <= NEAR_MAX_ENTRIES,
        0 <= (usable_near(es, near, i)->0).0 < es.len(),
        es[(usable_near(es, near, i)->0).0].file@ != es[i].file@,
        es[(usable_near(es, near, i)->0).0].shape.exact_hash != es[i].shape.exact_hash,
        near_band((usable_near(es, near, i)->0).1),
{
}

/// No signal pairs two functions of one file: an index whose functions all
/// live in one file reports nothing.
pub proof fn lemma_single_file_reports_nothing(es: Seq<FunctionEntry>, near: Seq<Option<(usize, u32)>>, n: int)
    requires
        forall|i: int, j: int| 0 <= i < es.len() && 0 <= j < es.len() ==> es[i].file@ == es[j].file@,
        0 <= n <= es.len(),
    ensures
        findings_upto(es, near, n).len() == 0,
    decreases n,
{
    if n > 0 {
        lemma_single_file_reports_nothing(es, near, n - 1);
        let i = n - 1;
        if first_partner(es, Signal::Exact, i) is Some {
            lemma_partner_in_other_file(es, Signal::Exact, i);
            let p = first_partner(es, Signal::Exact, i)->0;
            assert(es[p].file@ == es[i].file@);
        }
        if first_partner(es, Signal::Name, i) is Some {
            lemma_partner_in_other_file(es, Signal::Name, i);
            let p = first_partner(es, Signal::Name, i)->0;
            assert(es[p].file@ == es[i].file@);
        }
        if first_partner(es, Signal::Shape, i) is Some {
            lemma_partner_in_other_file(es, Signal::Shape, i);
            let p = first_partner(es, Signal::Shape, i)->0;
            assert(es[p].file@ == es[i].file@);
        }
        if 0 <= i < near.len() {
            match near[i] {
                Some((p, pct)) => {
                    if p < es.len() {
                        assert(es[p as int].file@ == es[i].file@);
                    }
                },
                None => {},
            }
        }
        assert(usable_near(es, near, i) is None);
        assert(entry_finding(es, near, i) is None);
    }
}

/// Each indexed function is reported at most once, and every cross-file
/// finding is an `info` suggestion.
pub proof fn lemma_cross_file_once_and_info(es: Seq<FunctionEntry>, near: Seq<Option<(usize, u32)>>, n: int)
    requires
        0 <= n,
    ensures
        findings_upto(es, near, n).len() <= n,
        forall|k: int| 0 <= k < findings_upto(es, near, n).len() ==> (#[trigger] findings_upto(es, near, n)[k]).1 == Severity::Info,
    decreases n,
{
    if n > 0 {
        lemma_cross_file_once_and_info(es, near, n - 1);
    }
}

} // verus!
