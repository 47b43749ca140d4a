//! `no-try-catch-in-gen` and `no-try-finally-in-gen`.
use vstd::prelude::*;

use crate::ast::TryStmt;
use crate::diagnostics::{Category, RuleMeta, Severity, Span};
use crate::rules::{in_effect_gen_spec, none, one, FileCtx, Finding, FrameKind};
use crate::text::owned;

verus! {

/// Catalog metadata of `no-try-catch-in-gen`.
#[verifier::allow_in_spec]
pub fn no_try_catch_in_gen_meta() -> RuleMeta
    returns
        (RuleMeta {
            id: "no-try-catch-in-gen",
            severity: Severity::Error,
            category: Category::Correctness,
            help: "Effect failures do not throw — they flow through the typed error channel, so the catch block is dead code for them. Handle failures with Effect.catchTag / Effect.catch.",
        }),
{
    RuleMeta {
        id: "no-try-catch-in-gen",
        severity: Severity::Error,
        category: Category::Correctness,
        help: "Effect failures do not throw — they flow through the typed error channel, so the catch block is dead code for them. Handle failures with Effect.catchTag / Effect.catch.",
    }
}

/// Catalog metadata of `no-try-finally-in-gen`.
#[verifier::allow_in_spec]
pub fn no_try_finally_in_gen_meta() -> RuleMeta
    returns
        (RuleMeta {
            id: "no-try-finally-in-gen",
            severity: Severity::Warn,
            category: Category::Correctness,
            help: "try/finally around yields is not interruption-safe — the finalizer can be skipped if the fiber is interrupted. Use Effect.ensuring, Effect.acquireRelease, or Effect.race.",
        }),
{
    RuleMeta {
        id: "no-try-finally-in-gen",
        severity: Severity::Warn,
        category: Category::Correctness,
        help: "try/finally around yields is not interruption-safe — the finalizer can be skipped if the fiber is interrupted. Use Effect.ensuring, Effect.acquireRelease, or Effect.race.",
    }
}

/// The span of the `try` keyword: three bytes from the statement's start
/// (ending at `u32::MAX` at the very end of the offset range).
pub open spec fn keyword_span(start: u32) -> Span {
    Span { start, end: if start + 3 <= u32::MAX { (start + 3) as u32 } else { u32::MAX } }
}

/// Directly inside an Effect generator: a `try` with a `catch` is reported
/// under `no-try-catch-in-gen`; otherwise a `try` with a `finally` is reported
/// under `no-try-finally-in-gen` when its block or its `finally` yields.
pub open spec fn no_try_catch_in_gen_findings(stack: Seq<FrameKind>, t: TryStmt) -> Seq<Finding> {
    if !in_effect_gen_spec(stack) {
        none()
    } else if t.has_catch {
        one(no_try_catch_in_gen_meta(), keyword_span(t.span.start), "try/catch inside Effect.gen — Effect failures will not be caught here"@)
    } else if t.has_finally && (t.block_yields || t.finalizer_yields) {
        one(
            no_try_finally_in_gen_meta(),
            keyword_span(t.span.start),
            "try/finally with yields inside Effect.gen is not interruption-safe — use Effect.ensuring / acquireRelease"@,
        )
    } else {
        none()
    }
}

pub struct NoTryCatchInGen;

impl NoTryCatchInGen {
    /// The rule ids this rule owns.
    pub fn metas(&self) -> (metas: Vec<RuleMeta>)
        ensures
            metas@ == seq![no_try_catch_in_gen_meta(), no_try_finally_in_gen_meta()],
    {
        let mut metas: Vec<RuleMeta> = Vec::new();
        metas.push(no_try_catch_in_gen_meta());
        metas.push(no_try_finally_in_gen_meta());
        metas
    }

    /// A `try` statement.
    pub fn on_try(&self, t: TryStmt, ctx: &mut FileCtx)
        ensures
            final(ctx).findings() == old(ctx).findings() + no_try_catch_in_gen_findings(old(ctx).stack@, t),
            final(ctx).same_walk(old(ctx)),
    {
        if !ctx.in_effect_gen() {
            assert(old(ctx).findings() + none() =~= old(ctx).findings());
            return;
        }
        let start = t.span.start;
        let end = if start <= u32::MAX - 3 {
            start + 3
        } else {
            u32::MAX
        };
        let keyword = Span { start, end };
        if t.has_catch {
            ctx.report(no_try_catch_in_gen_meta(), keyword, owned("try/catch inside Effect.gen — Effect failures will not be caught here"));
            assert(old(ctx).findings() + no_try_catch_in_gen_findings(old(ctx).stack@, t) =~= ctx.findings());
            return;
        }
        if !t.has_finally || (!t.block_yields && !t.finalizer_yields) {
            assert(old(ctx).findings() + none() =~= old(ctx).findings());
            return;
        }
        ctx.report(
            no_try_finally_in_gen_meta(),
            keyword,
            owned("try/finally with yields inside Effect.gen is not interruption-safe — use Effect.ensuring / acquireRelease"),
        );
        assert(old(ctx).findings() + no_try_catch_in_gen_findings(old(ctx).stack@, t) =~= ctx.findings());
    }
}

} // verus!
