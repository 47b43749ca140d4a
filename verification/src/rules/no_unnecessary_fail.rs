//! `no-unnecessary-fail-of-yieldable`: `yield* Effect.fail(new TaggedError(...))`.
use vstd::prelude::*;

use crate::ast::{CallExpr, Expr};
use crate::diagnostics::{Category, RuleMeta, Severity, Span};
use crate::matchers::{call_module_prop, call_module_prop_spec};
use crate::rules::{in_effect_gen_spec, none, one, FileCtx, Finding, FrameKind};
use crate::text::{owned, str_eq};

verus! {

/// Catalog metadata of `no-unnecessary-fail-of-yieldable`.
#[verifier::allow_in_spec]
pub fn no_unnecessary_fail_meta() -> RuleMeta
    returns
        (RuleMeta {
            id: "no-unnecessary-fail-of-yieldable",
            severity: Severity::Info,
            category: Category::Idiomatic,
            help: "Tagged errors are themselves yieldable: `return yield* new MyError({...})` — wrapping in Effect.fail is redundant.",
        }),
{
    RuleMeta {
        id: "no-unnecessary-fail-of-yieldable",
        severity: Severity::Info,
        category: Category::Idiomatic,
        help: "Tagged errors are themselves yieldable: `return yield* new MyError({...})` — wrapping in Effect.fail is redundant.",
    }
}

/// `Effect.fail(new ...)`.
pub open spec fn is_fail_of_new_spec(call: CallExpr, bindings: Map<Seq<char>, Seq<char>>) -> bool {
    &&& call_module_prop_spec(call, bindings) == Some(("Effect"@, "fail"@))
    &&& call.arguments@.len() > 0
    &&& call.arguments@[0] is New
}

/// Is the call `Effect.fail(new ...)`?
pub fn is_fail_of_new(call: &CallExpr, ctx: &FileCtx) -> (found: bool)
    ensures
        found == is_fail_of_new_spec(*call, ctx.imports.bindings()),
{
    let fail = match call_module_prop(call, &ctx.imports) {
        Some((module, prop)) => str_eq(module, "Effect") && str_eq(prop, "fail"),
        None => false,
    };
    if !fail || call.arguments.len() == 0 {
        return false;
    }
    match &call.arguments[0] {
        Expr::New(_) => true,
        _ => false,
    }
}

/// `yield* Effect.fail(new ...)` directly inside an Effect generator is reported.
pub open spec fn no_unnecessary_fail_findings(stack: Seq<FrameKind>, bindings: Map<Seq<char>, Seq<char>>, delegate: bool, argument: Option<Expr>, span: Span) -> Seq<Finding> {
    match argument {
        Some(Expr::Call(call)) => if delegate && in_effect_gen_spec(stack) && is_fail_of_new_spec(*call, bindings) {
            one(no_unnecessary_fail_meta(), span, "yield* Effect.fail(new TaggedError(...)) — tagged errors are yieldable directly"@)
        } else {
            none()
        },
        _ => none(),
    }
}

pub struct NoUnnecessaryFail;

impl NoUnnecessaryFail {
    /// The rule ids this rule owns.
    pub fn metas(&self) -> (metas: Vec<RuleMeta>)
        ensures
            metas@ == seq![no_unnecessary_fail_meta()],
    {
        let mut metas: Vec<RuleMeta> = Vec::new();
        metas.push(no_unnecessary_fail_meta());
        metas
    }

    /// A `yield` expression with its argument.
    pub fn on_yield(&self, delegate: bool, argument: &Option<Expr>, span: Span, ctx: &mut FileCtx)
        ensures
            final(ctx).findings() == old(ctx).findings() + no_unnecessary_fail_findings(old(ctx).stack@, old(ctx).imports.bindings(), delegate, *argument, span),
            final(ctx).same_walk(old(ctx)),
    {
        if !delegate || !ctx.in_effect_gen() {
            assert(old(ctx).findings() + none() =~= old(ctx).findings());
            return;
        }
        let hit = match argument {
            Some(Expr::Call(call)) => is_fail_of_new(&**call, ctx),
            _ => false,
        };
        if !hit {
            assert(old(ctx).findings() + none() =~= old(ctx).findings());
            return;
        }
        ctx.report(no_unnecessary_fail_meta(), span, owned("yield* Effect.fail(new TaggedError(...)) — tagged errors are yieldable directly"));
        assert(old(ctx).findings() + no_unnecessary_fail_findings(old(ctx).stack@, old(ctx).imports.bindings(), delegate, *argument, span)
            =~= ctx.findings());
    }
}

} // verus!
