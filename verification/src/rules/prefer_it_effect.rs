//! `prefer-it-effect`: tests that run an Effect by hand.
use vstd::prelude::*;

use crate::ast::{CallExpr, Expr};
use crate::diagnostics::{Category, RuleMeta, Severity};
use crate::matchers::{arrow_body_expression, arrow_body_spec, call_module_prop, call_module_prop_spec, ident_name, ident_name_spec};
use crate::rules::{none, one, FileCtx, Finding};
use crate::text::{concat2, str_eq};

verus! {

/// Catalog metadata of `prefer-it-effect`.
#[verifier::allow_in_spec]
pub fn prefer_it_effect_meta() -> RuleMeta
    returns
        (RuleMeta {
            id: "prefer-it-effect",
            severity: Severity::Warn,
            category: Category::Idiomatic,
            help: "@effect/vitest's it.effect runs the test inside a managed runtime (TestClock, proper failure rendering) — no manual runPromise or async glue.",
        }),
{
    RuleMeta {
        id: "prefer-it-effect",
        severity: Severity::Warn,
        category: Category::Idiomatic,
        help: "@effect/vitest's it.effect runs the test inside a managed runtime (TestClock, proper failure rendering) — no manual runPromise or async glue.",
    }
}

/// `it` or `test`.
pub open spec fn is_test_function_spec(name: Seq<char>) -> bool {
    name == "it"@ || name == "test"@
}

/// Is `name` a test-declaring function (`it`, `test`)?
pub fn is_test_function(name: &str) -> (found: bool)
    ensures
        found == is_test_function_spec(name@),
{
    str_eq(name, "it") || str_eq(name, "test")
}

/// The test body is a concise arrow whose body is `Effect.runPromise(...)` or
/// `Effect.runPromiseExit(...)`.
pub open spec fn body_runs_effect_spec(body: Expr, bindings: Map<Seq<char>, Seq<char>>) -> bool {
    match body {
        Expr::Function(f) => f.is_arrow && match arrow_body_spec(*f) {
            Some(Expr::Call(call)) => call_module_prop_spec(*call, bindings) == Some(("Effect"@, "runPromise"@))
                || call_module_prop_spec(*call, bindings) == Some(("Effect"@, "runPromiseExit"@)),
            _ => false,
        },
        _ => false,
    }
}

/// Does the test body run an Effect by hand?
pub fn body_runs_effect(body: &Expr, ctx: &FileCtx) -> (found: bool)
    ensures
        found == body_runs_effect_spec(*body, ctx.imports.bindings()),
{
    match body {
        Expr::Function(f) => {
            if !f.is_arrow {
                return false;
            }
            match arrow_body_expression(&**f) {
                Some(Expr::Call(call)) => match call_module_prop(&**call, &ctx.imports) {
                    Some((module, prop)) => str_eq(module, "Effect") && (str_eq(prop, "runPromise") || str_eq(prop, "runPromiseExit")),
                    None => false,
                },
                _ => false,
            }
        },
        _ => false,
    }
}

/// `it(name, () => Effect.runPromise(...))` / `test(...)` is reported.
pub open spec fn prefer_it_effect_findings(bindings: Map<Seq<char>, Seq<char>>, call: CallExpr) -> Seq<Finding> {
    match ident_name_spec(call.callee) {
        Some(name) => if is_test_function_spec(name) && call.arguments@.len() > 1
            && body_runs_effect_spec(call.arguments@[1], bindings) {
            one(prefer_it_effect_meta(), call.span, name + "() running Effect.runPromise — use it.effect from @effect/vitest"@)
        } else {
            none()
        },
        None => none(),
    }
}

pub struct PreferItEffect;

impl PreferItEffect {
    /// The rule ids this rule owns.
    pub fn metas(&self) -> (metas: Vec<RuleMeta>)
        ensures
            metas@ == seq![prefer_it_effect_meta()],
    {
        let mut metas: Vec<RuleMeta> = Vec::new();
        metas.push(prefer_it_effect_meta());
        metas
    }

    /// A call expression.
    pub fn on_call(&self, call: &CallExpr, ctx: &mut FileCtx)
        ensures
            final(ctx).findings() == old(ctx).findings() + prefer_it_effect_findings(old(ctx).imports.bindings(), *call),
            final(ctx).same_walk(old(ctx)),
    {
        let message = match ident_name(&call.callee) {
            Some(name) => {
                if !is_test_function(name) || call.arguments.len() < 2 || !body_runs_effect(&call.arguments[1], ctx) {
                    assert(old(ctx).findings() + none() =~= old(ctx).findings());
                    return;
                }
                concat2(name, "() running Effect.runPromise — use it.effect from @effect/vitest")
            },
            None => {
                assert(old(ctx).findings() + none() =~= old(ctx).findings());
                return;
            },
        };
        ctx.report(prefer_it_effect_meta(), call.span, message);
        assert(old(ctx).findings() + prefer_it_effect_findings(old(ctx).imports.bindings(), *call) =~= ctx.findings());
    }
}

} // verus!
