//! `no-chained-provides`: several `Effect.provide` calls in one pipe.
use vstd::prelude::*;

use crate::ast::{CallExpr, Expr};
use crate::diagnostics::{Category, RuleMeta, Severity};
use crate::matchers::{call_module_prop, call_module_prop_spec, static_member, static_member_spec};
use crate::rules::{none, one, FileCtx, Finding};
use crate::text::{concat2, decimal, str_eq, to_decimal};

verus! {

/// Catalog metadata of `no-chained-provides`.
#[verifier::allow_in_spec]
pub fn no_chained_provides_meta() -> RuleMeta
    returns
        (RuleMeta {
            id: "no-chained-provides",
            severity: Severity::Warn,
            category: Category::Architecture,
            help: "Multiple Effect.provide calls in one pipe build layers independently (v3 even double-builds shared ones). Compose layers first (Layer.provide / Layer.mergeAll), then provide once.",
        }),
{
    RuleMeta {
        id: "no-chained-provides",
        severity: Severity::Warn,
        category: Category::Architecture,
        help: "Multiple Effect.provide calls in one pipe build layers independently (v3 even double-builds shared ones). Compose layers first (Layer.provide / Layer.mergeAll), then provide once.",
    }
}

/// `Effect.provide(...)` with an effect binding for `Effect`.
pub open spec fn is_provide_call(e: Expr, bindings: Map<Seq<char>, Seq<char>>) -> bool {
    match e {
        Expr::Call(inner) => call_module_prop_spec(*inner, bindings) == Some(("Effect"@, "provide"@)),
        _ => false,
    }
}

/// How many of `args` are `Effect.provide(...)` calls.
pub open spec fn provide_count(args: Seq<Expr>, bindings: Map<Seq<char>, Seq<char>>) -> nat
    decreases args.len(),
{
    if args.len() == 0 {
        0
    } else {
        provide_count(args.drop_last(), bindings) + if is_provide_call(args.last(), bindings) {
            1nat
        } else {
            0nat
        }
    }
}

/// A `.pipe(...)` call with two or more `Effect.provide(...)` arguments is reported.
pub open spec fn no_chained_provides_findings(bindings: Map<Seq<char>, Seq<char>>, call: CallExpr) -> Seq<Finding> {
    match static_member_spec(call.callee) {
        Some((_, prop)) => if prop == "pipe"@ && provide_count(call.arguments@, bindings) >= 2 {
            one(
                no_chained_provides_meta(),
                call.span,
                decimal(provide_count(call.arguments@, bindings)) + " Effect.provide calls in one pipe — compose the layers and provide once"@,
            )
        } else {
            none()
        },
        None => none(),
    }
}

proof fn lemma_provide_count_bound(args: Seq<Expr>, bindings: Map<Seq<char>, Seq<char>>)
    ensures
        provide_count(args, bindings) <= args.len(),
    decreases args.len(),
{
    if args.len() > 0 {
        lemma_provide_count_bound(args.drop_last(), bindings);
    }
}

pub struct NoChainedProvides;

impl NoChainedProvides {
    /// The rule ids this rule owns.
    pub fn metas(&self) -> (metas: Vec<RuleMeta>)
        ensures
            metas@ == seq![no_chained_provides_meta()],
    {
        let mut metas: Vec<RuleMeta> = Vec::new();
        metas.push(no_chained_provides_meta());
        metas
    }

    /// A call expression.
    pub fn on_call(&self, call: &CallExpr, ctx: &mut FileCtx)
        ensures
            final(ctx).findings() == old(ctx).findings() + no_chained_provides_findings(old(ctx).imports.bindings(), *call),
            final(ctx).same_walk(old(ctx)),
    {
        let is_pipe = match static_member(&call.callee) {
            Some((_, prop)) => str_eq(prop, "pipe"),
            None => false,
        };
        if !is_pipe {
            assert(old(ctx).findings() + none() =~= old(ctx).findings());
            return;
        }
        let ghost bindings = ctx.imports.bindings();
        let mut count: usize = 0;
        let mut i: usize = 0;
        while i < call.arguments.len()
            invariant
                i <= call.arguments@.len(),
                bindings == ctx.imports.bindings(),
                count == provide_count(call.arguments@.take(i as int), bindings),
                count <= i,
            decreases call.arguments@.len() - i,
        {
            assert(call.arguments@.take(i + 1).drop_last() =~= call.arguments@.take(i as int));
            let provide = match &call.arguments[i] {
                Expr::Call(inner) => match call_module_prop(&**inner, &ctx.imports) {
                    Some((module, prop)) => str_eq(module, "Effect") && str_eq(prop, "provide"),
                    None => false,
                },
                _ => false,
            };
            if provide {
                count += 1;
            }
            i += 1;
        }
        assert(call.arguments@.take(i as int) =~= call.arguments@);
        if count < 2 {
            assert(old(ctx).findings() + none() =~= old(ctx).findings());
            return;
        }
        let number = to_decimal(count as u64);
        let message = concat2(number.as_str(), " Effect.provide calls in one pipe — compose the layers and provide once");
        ctx.report(no_chained_provides_meta(), call.span, message);
        assert(old(ctx).findings() + no_chained_provides_findings(old(ctx).imports.bindings(), *call) =~= ctx.findings());
    }
}

} // verus!
