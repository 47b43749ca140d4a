//! `no-unnecessary-gen`: an `Effect.gen` that only does `return yield* effect`.
use vstd::prelude::*;

use crate::ast::{CallExpr, Expr, FunctionExpr, Stmt};
use crate::diagnostics::{Category, RuleMeta, Severity};
use crate::matchers::{direct_effect_gen, direct_effect_gen_spec};
use crate::rules::{none, one, FileCtx, Finding};
use crate::text::owned;

verus! {

/// Catalog metadata of `no-unnecessary-gen`.
#[verifier::allow_in_spec]
pub fn no_unnecessary_gen_meta() -> RuleMeta
    returns
        (RuleMeta {
            id: "no-unnecessary-gen",
            severity: Severity::Info,
            category: Category::Idiomatic,
            help: "An Effect.gen whose body is just `return yield* effect` adds a generator allocation for nothing — use the effect expression directly.",
        }),
{
    RuleMeta {
        id: "no-unnecessary-gen",
        severity: Severity::Info,
        category: Category::Idiomatic,
        help: "An Effect.gen whose body is just `return yield* effect` adds a generator allocation for nothing — use the effect expression directly.",
    }
}

/// A body made of one `return yield* <expr>` statement.
pub open spec fn is_single_return_yield_star(f: FunctionExpr) -> bool {
    f.body@.len() == 1 && match f.body@[0] {
        Stmt::Return { argument: Some(Expr::Yield { delegate, .. }), .. } => delegate,
        _ => false,
    }
}

/// A direct `Effect.gen(function* () { return yield* e })` is reported.
pub open spec fn no_unnecessary_gen_findings(bindings: Map<Seq<char>, Seq<char>>, call: CallExpr) -> Seq<Finding> {
    match direct_effect_gen_spec(call, bindings) {
        Some(generator) => if is_single_return_yield_star(generator) {
            one(no_unnecessary_gen_meta(), call.span, "Effect.gen wrapping a single `return yield*` — use the inner effect directly"@)
        } else {
            none()
        },
        None => none(),
    }
}

pub struct NoUnnecessaryGen;

impl NoUnnecessaryGen {
    /// The rule ids this rule owns.
    pub fn metas(&self) -> (metas: Vec<RuleMeta>)
        ensures
            metas@ == seq![no_unnecessary_gen_meta()],
    {
        let mut metas: Vec<RuleMeta> = Vec::new();
        metas.push(no_unnecessary_gen_meta());
        metas
    }

    /// A call expression.
    pub fn on_call(&self, call: &CallExpr, ctx: &mut FileCtx)
        ensures
            final(ctx).findings() == old(ctx).findings() + no_unnecessary_gen_findings(old(ctx).imports.bindings(), *call),
            final(ctx).same_walk(old(ctx)),
    {
        let hit = match direct_effect_gen(call, &ctx.imports) {
            Some(generator) => generator.body.len() == 1 && match &generator.body[0] {
                Stmt::Return { argument: Some(Expr::Yield { delegate, .. }), .. } => *delegate,
                _ => false,
            },
            None => false,
        };
        if !hit {
            assert(old(ctx).findings() + none() =~= old(ctx).findings());
            return;
        }
        ctx.report(no_unnecessary_gen_meta(), call.span, owned("Effect.gen wrapping a single `return yield*` — use the inner effect directly"));
        assert(old(ctx).findings() + no_unnecessary_gen_findings(old(ctx).imports.bindings(), *call) =~= ctx.findings());
    }
}

} // verus!
