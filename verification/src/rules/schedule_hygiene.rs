//! `add-jitter-to-backoff` and `cap-exponential-backoff`: a file's exponential
//! schedules, checked against the jitter and cap combinators it uses anywhere.
use vstd::prelude::*;

use crate::ast::Expr;
use crate::diagnostics::{Category, RuleMeta, Severity, Span};
use crate::matchers::{member_module_prop, module_prop_spec};
use crate::rules::{none, one, scratch_view, FileCtx, Finding, ScratchView};
use crate::text::{owned, str_eq};

verus! {

/// Catalog metadata of `add-jitter-to-backoff`.
#[verifier::allow_in_spec]
pub fn add_jitter_meta() -> RuleMeta
    returns
        (RuleMeta {
            id: "add-jitter-to-backoff",
            severity: Severity::Info,
            category: Category::Performance,
            help: "Exponential backoff without jitter synchronizes retries across clients (thundering herd). Add `Schedule.jittered`.",
        }),
{
    RuleMeta {
        id: "add-jitter-to-backoff",
        severity: Severity::Info,
        category: Category::Performance,
        help: "Exponential backoff without jitter synchronizes retries across clients (thundering herd). Add `Schedule.jittered`.",
    }
}

/// Catalog metadata of `cap-exponential-backoff`.
#[verifier::allow_in_spec]
pub fn cap_backoff_meta() -> RuleMeta
    returns
        (RuleMeta {
            id: "cap-exponential-backoff",
            severity: Severity::Info,
            category: Category::Performance,
            help: "Uncapped exponential backoff grows without bound. Union with a spaced schedule (`Schedule.either(Schedule.spaced(...))`) to cap the delay.",
        }),
{
    RuleMeta {
        id: "cap-exponential-backoff",
        severity: Severity::Info,
        category: Category::Performance,
        help: "Uncapped exponential backoff grows without bound. Union with a spaced schedule (`Schedule.either(Schedule.spaced(...))`) to cap the delay.",
    }
}

/// The schedule combinators that cap a delay.
pub open spec fn is_cap_combinator_spec(prop: Seq<char>) -> bool {
    ||| prop == "either"@
    ||| prop == "union"@
    ||| prop == "upTo"@
    ||| prop == "intersect"@
    ||| prop == "both"@
}

/// Is `prop` a schedule combinator that caps a delay?
pub fn is_cap_combinator(prop: &str) -> (found: bool)
    ensures
        found == is_cap_combinator_spec(prop@),
{
    str_eq(prop, "either") || str_eq(prop, "union") || str_eq(prop, "upTo") || str_eq(prop, "intersect") || str_eq(prop, "both")
}

/// What a `Schedule.<prop>` reference adds to the file's facts: an
/// exponential's span, the jitter flag, or the cap flag.
pub open spec fn schedule_member_scratch(scratch: ScratchView, bindings: Map<Seq<char>, Seq<char>>, object: Expr, property: Seq<char>, span: Span) -> ScratchView {
    match module_prop_spec(object, property, bindings) {
        Some((module, prop)) => if module != "Schedule"@ {
            scratch
        } else if prop == "exponential"@ {
            ScratchView { exponential_spans: scratch.exponential_spans.push(span), ..scratch }
        } else if prop == "jittered"@ {
            ScratchView { jitter: true, ..scratch }
        } else if is_cap_combinator_spec(prop) {
            ScratchView { cap: true, ..scratch }
        } else {
            scratch
        },
        None => scratch,
    }
}

/// The findings of one exponential schedule at file end.
pub open spec fn exponential_findings(span: Span, jitter: bool, cap: bool) -> Seq<Finding> {
    (if !jitter {
        one(add_jitter_meta(), span, "Schedule.exponential without Schedule.jittered in this file"@)
    } else {
        none()
    }) + (if !cap {
        one(cap_backoff_meta(), span, "Schedule.exponential without a delay cap in this file"@)
    } else {
        none()
    })
}

/// At file end, each exponential schedule (in order) is reported for a
/// missing jitter and for a missing cap, when the file has none.
pub open spec fn schedule_end_findings(spans: Seq<Span>, jitter: bool, cap: bool) -> Seq<Finding>
    decreases spans.len(),
{
    if spans.len() == 0 {
        none()
    } else {
        schedule_end_findings(spans.drop_last(), jitter, cap) + exponential_findings(spans.last(), jitter, cap)
    }
}

pub struct ScheduleHygiene;

impl ScheduleHygiene {
    /// The rule ids this rule owns.
    pub fn metas(&self) -> (metas: Vec<RuleMeta>)
        ensures
            metas@ == seq![add_jitter_meta(), cap_backoff_meta()],
    {
        let mut metas: Vec<RuleMeta> = Vec::new();
        metas.push(add_jitter_meta());
        metas.push(cap_backoff_meta());
        metas
    }

    /// A static member expression `<object>.<property>`.
    pub fn on_member(&self, object: &Expr, property: &str, span: Span, ctx: &mut FileCtx)
        ensures
            final(ctx).findings() == old(ctx).findings(),
            scratch_view(final(ctx).scratch) == schedule_member_scratch(scratch_view(old(ctx).scratch), old(ctx).imports.bindings(), *object, property@, span),
            final(ctx).imports == old(ctx).imports,
            final(ctx).stack@ == old(ctx).stack@,
            final(ctx).flags() == old(ctx).flags(),
    {
        match member_module_prop(object, property, &ctx.imports) {
            Some((module, prop)) => {
                if !str_eq(module, "Schedule") {
                    return;
                }
                if str_eq(prop, "exponential") {
                    ctx.scratch.exponential_spans.push(span);
                    return;
                }
                if str_eq(prop, "jittered") {
                    ctx.scratch.has_schedule_jitter = true;
                    return;
                }
                if is_cap_combinator(prop) {
                    ctx.scratch.has_schedule_cap = true;
                }
            },
            None => {},
        }
    }

    /// The end of the file.
    pub fn on_file_end(&self, ctx: &mut FileCtx)
        ensures
            final(ctx).findings() == old(ctx).findings() + schedule_end_findings(
                old(ctx).scratch.exponential_spans@,
                old(ctx).scratch.has_schedule_jitter,
                old(ctx).scratch.has_schedule_cap,
            ),
            scratch_view(final(ctx).scratch) == (ScratchView { exponential_spans: Seq::empty(), ..scratch_view(old(ctx).scratch) }),
            final(ctx).imports == old(ctx).imports,
            final(ctx).stack@ == old(ctx).stack@,
            final(ctx).flags() == old(ctx).flags(),
    {
        let mut spans: Vec<Span> = Vec::new();
        std::mem::swap(&mut spans, &mut ctx.scratch.exponential_spans);
        let jitter = ctx.scratch.has_schedule_jitter;
        let cap = ctx.scratch.has_schedule_cap;
        let ghost start = ctx.findings();
        let mut i: usize = 0;
        assert(start + schedule_end_findings(spans@.take(0), jitter, cap) =~= start);
        assert(scratch_view(ctx.scratch) =~= (ScratchView { exponential_spans: Seq::empty(), ..scratch_view(old(ctx).scratch) }));
        while i < spans.len()
            invariant
                i <= spans@.len(),
                ctx.findings() == start + schedule_end_findings(spans@.take(i as int), jitter, cap),
                scratch_view(ctx.scratch) == (ScratchView { exponential_spans: Seq::empty(), ..scratch_view(old(ctx).scratch) }),
                jitter == old(ctx).scratch.has_schedule_jitter,
                cap == old(ctx).scratch.has_schedule_cap,
                ctx.imports == old(ctx).imports,
                ctx.stack@ == old(ctx).stack@,
                ctx.flags() == old(ctx).flags(),
            decreases spans@.len() - i,
        {
            assert(spans@.take(i + 1).drop_last() =~= spans@.take(i as int));
            let span = spans[i];
            if !jitter {
                ctx.report(add_jitter_meta(), span, owned("Schedule.exponential without Schedule.jittered in this file"));
            }
            if !cap {
                ctx.report(cap_backoff_meta(), span, owned("Schedule.exponential without a delay cap in this file"));
            }
            assert(ctx.findings() =~= start + schedule_end_findings(spans@.take(i + 1), jitter, cap));
            i += 1;
        }
        assert(spans@.take(i as int) =~= spans@);
    }
}

} // verus!
