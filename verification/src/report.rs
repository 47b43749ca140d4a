//! Pure pieces of the command-line report: the score bar, plurals, the exit
//! status of a strict scan, the editor range of a diagnostic, and latency
//! percentiles.
use vstd::prelude::*;

use crate::diagnostics::{Diagnostic, Severity};
use crate::text::{concat3, decimal, owned, push_str, to_decimal};

verus! {

/// Width of the score bar, in cells.
pub const SCORE_BAR_WIDTH: usize = 30;

/// `n` copies of `cell`.
pub open spec fn repeat(cell: Seq<char>, n: nat) -> Seq<char>
    decreases n,
{
    if n == 0 {
        Seq::empty()
    } else {
        repeat(cell, (n - 1) as nat) + cell
    }
}

/// The number of filled cells for a score (out of 100).
pub open spec fn filled_cells(score: u32) -> nat {
    (score as nat * 30) / 100
}

/// A 30-cell bar: one filled cell per 100/30 points of the score, the rest
/// empty (a score above 100 fills every cell).
pub open spec fn score_bar(score: u32) -> Seq<char> {
    let filled = if filled_cells(score) <= 30 { filled_cells(score) } else { 30 };
    repeat("█"@, filled) + repeat("░"@, (30 - filled) as nat)
}

/// Render the score bar.
pub fn render_score_bar(score: u32) -> (bar: String)
    requires
        score <= 100,
    ensures
        bar@ == score_bar(score),
{
    let filled: usize = ((score as u64 * 30) / 100) as usize;
    let mut bar = String::new();
    let mut i: usize = 0;
    while i < filled
        invariant
            i <= filled,
            filled == filled_cells(score),
            filled <= 30,
            bar@ == repeat("█"@, i as nat),
        decreases filled - i,
    {
        push_str(&mut bar, "█");
        i += 1;
    }
    let ghost head = bar@;
    let mut j: usize = 0;
    while j < SCORE_BAR_WIDTH - filled
        invariant
            j <= SCORE_BAR_WIDTH - filled,
            filled <= 30,
            head == repeat("█"@, filled as nat),
            bar@ == head + repeat("░"@, j as nat),
        decreases SCORE_BAR_WIDTH - filled - j,
    {
        let ghost prior = bar@;
        push_str(&mut bar, "░");
        assert(bar@ =~= head + repeat("░"@, (j + 1) as nat));
        j += 1;
    }
    bar
}

/// The plural suffix for a count: empty for one, `s` otherwise.
pub fn plural(count: usize) -> (suffix: &'static str)
    ensures
        suffix@ == (if count == 1 { ""@ } else { "s"@ }),
{
    if count == 1 {
        return "";
    }
    "s"
}

/// A strict scan fails when some diagnostic is an error; any other scan
/// succeeds.
pub open spec fn scan_fails(diagnostics: Seq<Diagnostic>, agent_strict: bool) -> bool {
    agent_strict && exists|i: int| 0 <= i < diagnostics.len() && (#[trigger] diagnostics[i]).severity == Severity::Error
}

/// Does the scan end with a failing exit status?
pub fn exit_fails(diagnostics: &[Diagnostic], agent_strict: bool) -> (fails: bool)
    ensures
        fails == scan_fails(diagnostics@, agent_strict),
{
    if !agent_strict {
        return false;
    }
    let mut i: usize = 0;
    while i < diagnostics.len()
        invariant
            agent_strict,
            i <= diagnostics@.len(),
            forall|k: int| 0 <= k < i ==> (#[trigger] diagnostics@[k]).severity != Severity::Error,
        decreases diagnostics@.len() - i,
    {
        if diagnostics[i].severity == Severity::Error {
            return true;
        }
        i += 1;
    }
    false
}

/// The zero-based editor range of a diagnostic on one line: from its column
/// to the end of its snippet (at least one character wide).
pub open spec fn editor_range(d: Diagnostic) -> (u32, u32, u32) {
    let line = if d.line > 0 { (d.line - 1) as u32 } else { 0u32 };
    let start = if d.column > 0 { (d.column - 1) as u32 } else { 0u32 };
    let width = vstd::utf8::encode_utf8(d.snippet@).len();
    let end = if width as int > start + 1 { width as u32 } else { (start + 1) as u32 };
    (line, start, end)
}

/// The editor range of a diagnostic: line, start column, end column.
pub fn lsp_range(d: &Diagnostic) -> (range: (u32, u32, u32))
    requires
        vstd::utf8::encode_utf8(d.snippet@).len() <= u32::MAX,
    ensures
        range == editor_range(*d),
{
    let line = if d.line > 0 {
        d.line - 1
    } else {
        0
    };
    let start = if d.column > 0 {
        d.column - 1
    } else {
        0
    };
    let width = d.snippet.as_str().as_bytes().len() as u32;
    let end = if width > start + 1 {
        width
    } else {
        start + 1
    };
    (line, start, end)
}

/// The editor message of a diagnostic: its message, a blank line, its help.
pub fn lsp_message(d: &Diagnostic) -> (message: String)
    ensures
        message@ == d.message@ + "\n\n"@ + d.help@,
{
    concat3(d.message.as_str(), "\n\n", d.help)
}

/// The suffix of the scan headline naming the detected effect major version.
pub fn effect_profile_label(effect_major: Option<u32>, v4_rules_active: bool) -> (label: String)
    ensures
        label@ == match effect_major {
            None => ""@,
            Some(major) => if v4_rules_active {
                ", effect v"@ + decimal(major as nat) + ", v4 rules on"@
            } else {
                ", effect v"@ + decimal(major as nat)
            },
        },
{
    match effect_major {
        None => owned(""),
        Some(major) => {
            let mut label = owned(", effect v");
            let number = to_decimal(major as u64);
            push_str(&mut label, number.as_str());
            if v4_rules_active {
                push_str(&mut label, ", v4 rules on");
            }
            label
        },
    }
}

/// The values are in ascending order.
pub open spec fn ascending(s: Seq<u64>) -> bool {
    forall|i: int, j: int| 0 <= i < j < s.len() ==> s[i] <= s[j]
}

fn sorted_copy(samples: &[u64]) -> (sorted: Vec<u64>)
    ensures
        ascending(sorted@),
        sorted@.to_multiset() == samples@.to_multiset(),
{
    let mut sorted: Vec<u64> = Vec::new();
    let mut i: usize = 0;
    assert(sorted@ =~= samples@.take(0));
    while i < samples.len()
        invariant
            i <= samples@.len(),
            ascending(sorted@),
            sorted@.to_multiset() == samples@.take(i as int).to_multiset(),
        decreases samples@.len() - i,
    {
        let x = samples[i];
        let mut pos: usize = 0;
        while pos < sorted.len() && sorted[pos] <= x
            invariant
                pos <= sorted@.len(),
                forall|k: int| 0 <= k < pos ==> sorted@[k] <= x,
            decreases sorted@.len() - pos,
        {
            pos += 1;
        }
        let ghost before = sorted@;
        sorted.insert(pos, x);
        proof {
            vstd::seq_lib::to_multiset_insert(before, pos as int, x);
            assert(samples@.take(i + 1) =~= samples@.take(i as int).insert(i as int, x));
            vstd::seq_lib::to_multiset_insert(samples@.take(i as int), i as int, x);
            assert forall|a: int, b: int| 0 <= a < b < sorted@.len() implies sorted@[a] <= sorted@[b] by {
                if a < pos && b == pos {
                } else if a == pos && b > pos {
                    assert(before[pos as int] > x);
                    assert(before[pos as int] <= before[b - 1]);
                } else if a < pos && b > pos {
                    assert(before[a] <= before[b - 1]);
                } else if b < pos {
                    assert(before[a] <= before[b]);
                } else {
                    assert(before[a - 1] <= before[b - 1]);
                }
            }
        }
        i += 1;
    }
    assert(samples@.take(i as int) =~= samples@);
    sorted
}

/// The `p`-th percentile of the samples (nearest rank, rounding down): the
/// value at position `p * (n - 1) / 100` of the samples in ascending order,
/// zero for no samples.
pub fn percentile(samples: &[u64], p: usize) -> (value: u64)
    requires
        p <= 100,
        samples@.len() * 100 <= usize::MAX,
    ensures
        samples@.len() == 0 ==> value == 0,
        samples@.len() > 0 ==> exists|s: Seq<u64>|
            ascending(s) && s.to_multiset() == samples@.to_multiset() && s.len() == samples@.len()
                && value == s[(p * (samples@.len() - 1)) / 100],
{
    if samples.len() == 0 {
        return 0;
    }
    let sorted = sorted_copy(samples);
    proof {
        sorted@.to_multiset_ensures();
        samples@.to_multiset_ensures();
    }
    let n = sorted.len();
    assert(p * (n - 1) <= 100 * (n - 1)) by (nonlinear_arith)
        requires
            p <= 100,
            n >= 1,
    ;
    let index = (p * (n - 1)) / 100;
    assert(index < n) by (nonlinear_arith)
        requires
            index == (p * (n - 1)) / 100,
            p <= 100,
            n >= 1,
    ;
    sorted[index]
}

} // verus!

verus! {

/// Without strict agent mode a scan only reports: it never fails, whatever
/// it found.
pub proof fn lemma_report_only_without_strict(diagnostics: Seq<Diagnostic>)
    ensures
        !scan_fails(diagnostics, false),
{
}


/// A strict scan fails as soon as any one diagnostic, wherever it stands, is
/// an error.
pub proof fn lemma_strict_scan_fails_on_any_error(diagnostics: Seq<Diagnostic>, i: int)
    requires
        0 <= i < diagnostics.len(),
        diagnostics[i].severity == Severity::Error,
    ensures
        scan_fails(diagnostics, true),
{
}

/// A scan passes when no diagnostic is an error, and a scan that is not
/// strict always passes.
pub proof fn lemma_scan_passes_without_errors(diagnostics: Seq<Diagnostic>, agent_strict: bool)
    ensures
        (forall|i: int| 0 <= i < diagnostics.len() ==> diagnostics[i].severity != Severity::Error) ==> !scan_fails(
            diagnostics,
            agent_strict,
        ),
        !scan_fails(diagnostics, false),
{
}

} // verus!
