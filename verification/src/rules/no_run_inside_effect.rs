//! `no-run-inside-effect`: running an Effect inside another Effect detaches it.
use vstd::prelude::*;

use crate::ast::CallExpr;
use crate::diagnostics::{Category, RuleMeta, Severity};
use crate::matchers::{effect_member_prop, effect_member_prop_spec};
use crate::rules::{in_effect_code_spec, none, one, FileCtx, Finding, FrameKind};
use crate::text::{concat3, str_eq};

verus! {

/// Catalog metadata of `no-run-inside-effect`.
#[verifier::allow_in_spec]
pub fn no_run_inside_effect_meta() -> RuleMeta
    returns
        (RuleMeta {
            id: "no-run-inside-effect",
            severity: Severity::Error,
            category: Category::Correctness,
            help: "Running an Effect inside another Effect creates a detached runtime: context, interruption, and tracing are lost. Compose with `yield*` instead, and run only at the program edge.",
        }),
{
    RuleMeta {
        id: "no-run-inside-effect",
        severity: Severity::Error,
        category: Category::Correctness,
        help: "Running an Effect inside another Effect creates a detached runtime: context, interruption, and tracing are lost. Compose with `yield*` instead, and run only at the program edge.",
    }
}

/// The `Effect.run*` entry points.
pub open spec fn is_run_method_spec(prop: Seq<char>) -> bool {
    ||| prop == "runPromise"@
    ||| prop == "runSync"@
    ||| prop == "runFork"@
    ||| prop == "runPromiseExit"@
    ||| prop == "runSyncExit"@
    ||| prop == "runCallback"@
}

/// Is `prop` one of the `Effect.run*` entry points?
pub fn is_run_method(prop: &str) -> (found: bool)
    ensures
        found == is_run_method_spec(prop@),
{
    str_eq(prop, "runPromise") || str_eq(prop, "runSync") || str_eq(prop, "runFork") || str_eq(prop, "runPromiseExit")
        || str_eq(prop, "runSyncExit") || str_eq(prop, "runCallback")
}

/// `Effect.run*(...)` anywhere inside Effect code is reported.
pub open spec fn no_run_inside_effect_findings(stack: Seq<FrameKind>, bindings: Map<Seq<char>, Seq<char>>, call: CallExpr) -> Seq<Finding> {
    match effect_member_prop_spec(call, bindings) {
        Some(prop) => if in_effect_code_spec(stack) && is_run_method_spec(prop) {
            one(no_run_inside_effect_meta(), call.span, "Effect."@ + prop + " called inside Effect code — compose with `yield*` instead"@)
        } else {
            none()
        },
        None => none(),
    }
}

pub struct NoRunInsideEffect;

impl NoRunInsideEffect {
    /// The rule ids this rule owns.
    pub fn metas(&self) -> (metas: Vec<RuleMeta>)
        ensures
            metas@ == seq![no_run_inside_effect_meta()],
    {
        let mut metas: Vec<RuleMeta> = Vec::new();
        metas.push(no_run_inside_effect_meta());
        metas
    }

    /// A call expression.
    pub fn on_call(&self, call: &CallExpr, ctx: &mut FileCtx)
        ensures
            final(ctx).findings() == old(ctx).findings() + no_run_inside_effect_findings(old(ctx).stack@, old(ctx).imports.bindings(), *call),
            final(ctx).same_walk(old(ctx)),
    {
        if !ctx.in_effect_code() {
            assert(old(ctx).findings() + none() =~= old(ctx).findings());
            return;
        }
        let message = match effect_member_prop(call, &ctx.imports) {
            None => {
                assert(old(ctx).findings() + none() =~= old(ctx).findings());
                return;
            },
            Some(prop) => {
                if !is_run_method(prop) {
                    assert(old(ctx).findings() + none() =~= old(ctx).findings());
                    return;
                }
                concat3("Effect.", prop, " called inside Effect code — compose with `yield*` instead")
            },
        };
        ctx.report(no_run_inside_effect_meta(), call.span, message);
        assert(old(ctx).findings() + no_run_inside_effect_findings(old(ctx).stack@, old(ctx).imports.bindings(), *call)
            =~= ctx.findings());
    }
}

} // verus!
