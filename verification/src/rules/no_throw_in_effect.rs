//! `no-throw-in-effect`: a throw inside Effect code becomes an untyped defect.
use vstd::prelude::*;

use crate::diagnostics::{Category, RuleMeta, Severity, Span};
use crate::rules::{in_effect_gen_spec, none, one, FileCtx, Finding, FrameKind};
use crate::text::owned;

verus! {

/// Catalog metadata of `no-throw-in-effect`.
#[verifier::allow_in_spec]
pub fn no_throw_in_effect_meta() -> RuleMeta
    returns
        (RuleMeta {
            id: "no-throw-in-effect",
            severity: Severity::Error,
            category: Category::Correctness,
            help: "A throw inside Effect code becomes an untyped defect, invisible to the error channel. Fail with a tagged error instead: `yield* Effect.fail(new MyError({...}))`.",
        }),
{
    RuleMeta {
        id: "no-throw-in-effect",
        severity: Severity::Error,
        category: Category::Correctness,
        help: "A throw inside Effect code becomes an untyped defect, invisible to the error channel. Fail with a tagged error instead: `yield* Effect.fail(new MyError({...}))`.",
    }
}

/// A `throw` directly inside an Effect generator is reported.
pub open spec fn no_throw_in_effect_findings(stack: Seq<FrameKind>, span: Span) -> Seq<Finding> {
    if in_effect_gen_spec(stack) {
        one(no_throw_in_effect_meta(), span, "`throw` inside Effect.gen becomes an untyped defect — use Effect.fail with a tagged error"@)
    } else {
        none()
    }
}

pub struct NoThrowInEffect;

impl NoThrowInEffect {
    /// The rule ids this rule owns.
    pub fn metas(&self) -> (metas: Vec<RuleMeta>)
        ensures
            metas@ == seq![no_throw_in_effect_meta()],
    {
        let mut metas: Vec<RuleMeta> = Vec::new();
        metas.push(no_throw_in_effect_meta());
        metas
    }

    /// A `throw` statement.
    pub fn on_throw(&self, span: Span, ctx: &mut FileCtx)
        ensures
            final(ctx).findings() == old(ctx).findings() + no_throw_in_effect_findings(old(ctx).stack@, span),
            final(ctx).same_walk(old(ctx)),
    {
        if !ctx.in_effect_gen() {
            assert(old(ctx).findings() + none() =~= old(ctx).findings());
            return;
        }
        let message = owned("`throw` inside Effect.gen becomes an untyped defect — use Effect.fail with a tagged error");
        ctx.report(no_throw_in_effect_meta(), span, message);
        assert(old(ctx).findings() + no_throw_in_effect_findings(old(ctx).stack@, span) =~= ctx.findings());
    }
}

} // verus!
