//! `prefer-effect-fn`: a function whose whole body is one `Effect.gen`.
use vstd::prelude::*;

use crate::ast::{Expr, FunctionExpr, Stmt};
use crate::diagnostics::{Category, RuleMeta, Severity};
use crate::matchers::{arrow_body_expression, arrow_body_spec, direct_effect_gen, direct_effect_gen_spec};
use crate::rules::{none, one, FileCtx, Finding};
use crate::text::owned;

verus! {

/// Catalog metadata of `prefer-effect-fn`.
#[verifier::allow_in_spec]
pub fn prefer_effect_fn_meta() -> RuleMeta
    returns
        (RuleMeta {
            id: "prefer-effect-fn",
            severity: Severity::Warn,
            category: Category::Idiomatic,
            help: "A function whose body is one Effect.gen is exactly what Effect.fn is for — it adds a named span and proper stack frames for free: `Effect.fn(\"name\")(function* (args) {...})`.",
        }),
{
    RuleMeta {
        id: "prefer-effect-fn",
        severity: Severity::Warn,
        category: Category::Idiomatic,
        help: "A function whose body is one Effect.gen is exactly what Effect.fn is for — it adds a named span and proper stack frames for free: `Effect.fn(\"name\")(function* (args) {...})`.",
    }
}

/// The `Effect.gen` call a function consists of: the concise body of an
/// arrow, or the single `return` of a plain function.
pub open spec fn single_gen_body(f: FunctionExpr, bindings: Map<Seq<char>, Seq<char>>) -> bool {
    if f.is_arrow {
        match arrow_body_spec(f) {
            Some(Expr::Call(call)) => direct_effect_gen_spec(*call, bindings) is Some,
            _ => false,
        }
    } else {
        &&& !f.generator
        &&& f.body@.len() == 1
        &&& match f.body@[0] {
            Stmt::Return { argument: Some(Expr::Call(call)), .. } => direct_effect_gen_spec(*call, bindings) is Some,
            _ => false,
        }
    }
}

/// A function with parameters whose body is one `Effect.gen` is reported.
/// Parameterless functions are left alone: they are usually thunks.
pub open spec fn prefer_effect_fn_findings(bindings: Map<Seq<char>, Seq<char>>, f: FunctionExpr) -> Seq<Finding> {
    if f.param_count > 0 && single_gen_body(f, bindings) {
        one(prefer_effect_fn_meta(), f.span, "function returning a single Effect.gen — use Effect.fn"@)
    } else {
        none()
    }
}

pub struct PreferEffectFn;

impl PreferEffectFn {
    /// The rule ids this rule owns.
    pub fn metas(&self) -> (metas: Vec<RuleMeta>)
        ensures
            metas@ == seq![prefer_effect_fn_meta()],
    {
        let mut metas: Vec<RuleMeta> = Vec::new();
        metas.push(prefer_effect_fn_meta());
        metas
    }

    /// A function or arrow function.
    pub fn on_function(&self, f: &FunctionExpr, ctx: &mut FileCtx)
        ensures
            final(ctx).findings() == old(ctx).findings() + prefer_effect_fn_findings(old(ctx).imports.bindings(), *f),
            final(ctx).same_walk(old(ctx)),
    {
        if f.param_count == 0 {
            assert(old(ctx).findings() + none() =~= old(ctx).findings());
            return;
        }
        let single = if f.is_arrow {
            match arrow_body_expression(f) {
                Some(Expr::Call(call)) => direct_effect_gen(&**call, &ctx.imports).is_some(),
                _ => false,
            }
        } else if f.generator || f.body.len() != 1 {
            false
        } else {
            match &f.body[0] {
                Stmt::Return { argument: Some(Expr::Call(call)), .. } => direct_effect_gen(&**call, &ctx.imports).is_some(),
                _ => false,
            }
        };
        if !single {
            assert(old(ctx).findings() + none() =~= old(ctx).findings());
            return;
        }
        ctx.report(prefer_effect_fn_meta(), f.span, owned("function returning a single Effect.gen — use Effect.fn"));
        assert(old(ctx).findings() + prefer_effect_fn_findings(old(ctx).imports.bindings(), *f) =~= ctx.findings());
    }
}

} // verus!
