//! `no-effect-do-notation`: `Effect.Do` pipelines.
use vstd::prelude::*;

use crate::ast::Expr;
use crate::diagnostics::{Category, RuleMeta, Severity, Span};
use crate::matchers::{member_module_prop, module_prop_spec};
use crate::rules::{none, one, FileCtx, Finding};
use crate::text::{owned, str_eq};

verus! {

/// Catalog metadata of `no-effect-do-notation`.
#[verifier::allow_in_spec]
pub fn no_effect_do_meta() -> RuleMeta
    returns
        (RuleMeta {
            id: "no-effect-do-notation",
            severity: Severity::Info,
            category: Category::Idiomatic,
            help: "Do-notation pipelines (Effect.Do / bind / bindTo / let) read worse than the equivalent Effect.gen and lose stack quality.",
        }),
{
    RuleMeta {
        id: "no-effect-do-notation",
        severity: Severity::Info,
        category: Category::Idiomatic,
        help: "Do-notation pipelines (Effect.Do / bind / bindTo / let) read worse than the equivalent Effect.gen and lose stack quality.",
    }
}

/// `Effect.Do` is reported at the member expression.
pub open spec fn no_effect_do_findings(bindings: Map<Seq<char>, Seq<char>>, object: Expr, property: Seq<char>, span: Span) -> Seq<Finding> {
    if module_prop_spec(object, property, bindings) == Some(("Effect"@, "Do"@)) {
        one(no_effect_do_meta(), span, "Effect.Do pipeline — prefer Effect.gen"@)
    } else {
        none()
    }
}

pub struct NoEffectDo;

impl NoEffectDo {
    /// The rule ids this rule owns.
    pub fn metas(&self) -> (metas: Vec<RuleMeta>)
        ensures
            metas@ == seq![no_effect_do_meta()],
    {
        let mut metas: Vec<RuleMeta> = Vec::new();
        metas.push(no_effect_do_meta());
        metas
    }

    /// A static member expression `<object>.<property>`.
    pub fn on_member(&self, object: &Expr, property: &str, span: Span, ctx: &mut FileCtx)
        ensures
            final(ctx).findings() == old(ctx).findings() + no_effect_do_findings(old(ctx).imports.bindings(), *object, property@, span),
            final(ctx).same_walk(old(ctx)),
    {
        let hit = match member_module_prop(object, property, &ctx.imports) {
            Some((module, prop)) => str_eq(module, "Effect") && str_eq(prop, "Do"),
            None => false,
        };
        if !hit {
            assert(old(ctx).findings() + none() =~= old(ctx).findings());
            return;
        }
        ctx.report(no_effect_do_meta(), span, owned("Effect.Do pipeline — prefer Effect.gen"));
        assert(old(ctx).findings() + no_effect_do_findings(old(ctx).imports.bindings(), *object, property@, span) =~= ctx.findings());
    }
}

} // verus!
