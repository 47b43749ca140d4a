//! `no-runsync-on-async-effect`: `Effect.runSync` over an effect that can suspend.
use vstd::prelude::*;

use crate::ast::CallExpr;
use crate::diagnostics::{Category, RuleMeta, Severity};
use crate::matchers::{call_module_prop, call_module_prop_spec};
use crate::search::{find_in, first_in, kind_pred, CallKind};
use crate::rules::{none, one, FileCtx, Finding};
use crate::text::{concat3, str_eq};

verus! {

/// Catalog metadata of `no-runsync-on-async-effect`.
#[verifier::allow_in_spec]
pub fn no_run_sync_on_async_meta() -> RuleMeta
    returns
        (RuleMeta {
            id: "no-runsync-on-async-effect",
            severity: Severity::Error,
            category: Category::Correctness,
            help: "Effect.runSync throws AsyncFiberException when the effect suspends (promise, sleep, async). Use Effect.runPromise for anything that can be asynchronous.",
        }),
{
    RuleMeta {
        id: "no-runsync-on-async-effect",
        severity: Severity::Error,
        category: Category::Correctness,
        help: "Effect.runSync throws AsyncFiberException when the effect suspends (promise, sleep, async). Use Effect.runPromise for anything that can be asynchronous.",
    }
}

/// `Effect.runSync` / `Effect.runSyncExit`.
pub open spec fn is_run_sync(module_prop: Option<(Seq<char>, Seq<char>)>) -> bool {
    module_prop == Some(("Effect"@, "runSync"@)) || module_prop == Some(("Effect"@, "runSyncExit"@))
}

/// `Effect.runSync(...)` whose first argument holds an `Effect.<async
/// constructor>(...)` call is reported, naming the first such constructor.
pub open spec fn no_run_sync_on_async_findings(bindings: Map<Seq<char>, Seq<char>>, call: CallExpr) -> Seq<Finding> {
    if is_run_sync(call_module_prop_spec(call, bindings)) && call.arguments@.len() > 0 {
        match first_in(call.arguments@[0], kind_pred(CallKind::AsyncConstructor, bindings)) {
            Some(inner) => match call_module_prop_spec(inner, bindings) {
                Some((_, prop)) => one(
                    no_run_sync_on_async_meta(),
                    call.span,
                    "Effect.runSync over Effect."@ + prop + " — this throws at runtime; use Effect.runPromise"@,
                ),
                None => none(),
            },
            None => none(),
        }
    } else {
        none()
    }
}

pub struct NoRunSyncOnAsync;

impl NoRunSyncOnAsync {
    /// The rule ids this rule owns.
    pub fn metas(&self) -> (metas: Vec<RuleMeta>)
        ensures
            metas@ == seq![no_run_sync_on_async_meta()],
    {
        let mut metas: Vec<RuleMeta> = Vec::new();
        metas.push(no_run_sync_on_async_meta());
        metas
    }

    /// A call expression.
    pub fn on_call(&self, call: &CallExpr, ctx: &mut FileCtx)
        ensures
            final(ctx).findings() == old(ctx).findings() + no_run_sync_on_async_findings(old(ctx).imports.bindings(), *call),
            final(ctx).same_walk(old(ctx)),
    {
        let run_sync = match call_module_prop(call, &ctx.imports) {
            Some((module, prop)) => str_eq(module, "Effect") && (str_eq(prop, "runSync") || str_eq(prop, "runSyncExit")),
            None => false,
        };
        if !run_sync || call.arguments.len() == 0 {
            assert(old(ctx).findings() + none() =~= old(ctx).findings());
            return;
        }
        let message = match find_in(&call.arguments[0], CallKind::AsyncConstructor, &ctx.imports) {
            Some(inner) => match call_module_prop(inner, &ctx.imports) {
                Some((_, prop)) => concat3("Effect.runSync over Effect.", prop, " — this throws at runtime; use Effect.runPromise"),
                None => {
                    assert(old(ctx).findings() + none() =~= old(ctx).findings());
                    return;
                },
            },
            None => {
                assert(old(ctx).findings() + none() =~= old(ctx).findings());
                return;
            },
        };
        ctx.report(no_run_sync_on_async_meta(), call.span, message);
        assert(old(ctx).findings() + no_run_sync_on_async_findings(old(ctx).imports.bindings(), *call) =~= ctx.findings());
    }
}

} // verus!
