//! `require-yield-star`: inside Effect.gen, effects must be yielded with `yield*`.
use vstd::prelude::*;

use crate::diagnostics::{Category, RuleMeta, Severity, Span};
use crate::rules::{in_effect_gen_spec, none, one, FileCtx, Finding, FrameKind};
use crate::text::owned;

verus! {

/// Catalog metadata of `require-yield-star`.
#[verifier::allow_in_spec]
pub fn require_yield_star_meta() -> RuleMeta
    returns
        (RuleMeta {
            id: "require-yield-star",
            severity: Severity::Error,
            category: Category::Correctness,
            help: "Inside Effect.gen, effects must be yielded with `yield*`. A plain `yield` hands the raw Effect to the iterator protocol and the result type is wrong.",
        }),
{
    RuleMeta {
        id: "require-yield-star",
        severity: Severity::Error,
        category: Category::Correctness,
        help: "Inside Effect.gen, effects must be yielded with `yield*`. A plain `yield` hands the raw Effect to the iterator protocol and the result type is wrong.",
    }
}

/// A plain `yield` directly inside an Effect generator is reported.
pub open spec fn require_yield_star_findings(stack: Seq<FrameKind>, delegate: bool, span: Span) -> Seq<Finding> {
    if !delegate && in_effect_gen_spec(stack) {
        one(require_yield_star_meta(), span, "Plain `yield` inside Effect.gen — use `yield*`"@)
    } else {
        none()
    }
}

pub struct RequireYieldStar;

impl RequireYieldStar {
    /// The rule ids this rule owns.
    pub fn metas(&self) -> (metas: Vec<RuleMeta>)
        ensures
            metas@ == seq![require_yield_star_meta()],
    {
        let mut metas: Vec<RuleMeta> = Vec::new();
        metas.push(require_yield_star_meta());
        metas
    }

    /// A `yield` expression.
    pub fn on_yield(&self, delegate: bool, span: Span, ctx: &mut FileCtx)
        ensures
            final(ctx).findings() == old(ctx).findings() + require_yield_star_findings(old(ctx).stack@, delegate, span),
            final(ctx).same_walk(old(ctx)),
    {
        if delegate || !ctx.in_effect_gen() {
            assert(old(ctx).findings() + none() =~= old(ctx).findings());
            return;
        }
        ctx.report(require_yield_star_meta(), span, owned("Plain `yield` inside Effect.gen — use `yield*`"));
        assert(old(ctx).findings().push((require_yield_star_meta(), span, "Plain `yield` inside Effect.gen — use `yield*`"@, None::<Severity>))
            =~= old(ctx).findings() + require_yield_star_findings(old(ctx).stack@, delegate, span));
    }
}

} // verus!
