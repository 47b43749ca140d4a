//! `avoid-long-combinator-chains` and `no-layer-mergeall-megalist`.
use vstd::prelude::*;

use crate::ast::{CallExpr, Expr};
use crate::diagnostics::{Category, RuleMeta, Severity};
use crate::matchers::{call_module_prop, call_module_prop_spec, static_member, static_member_spec};
use crate::rules::{none, one, FileCtx, Finding};
use crate::text::{concat2, concat3, decimal, str_eq, to_decimal};

verus! {

/// Catalog metadata of `avoid-long-combinator-chains`.
#[verifier::allow_in_spec]
pub fn long_chains_meta() -> RuleMeta
    returns
        (RuleMeta {
            id: "avoid-long-combinator-chains",
            severity: Severity::Info,
            category: Category::Idiomatic,
            help: "Four or more flatMap/andThen steps in one pipe read like callback nesting. Effect.gen turns the same flow into sequential statements.",
        }),
{
    RuleMeta {
        id: "avoid-long-combinator-chains",
        severity: Severity::Info,
        category: Category::Idiomatic,
        help: "Four or more flatMap/andThen steps in one pipe read like callback nesting. Effect.gen turns the same flow into sequential statements.",
    }
}

/// Catalog metadata of `no-layer-mergeall-megalist`.
#[verifier::allow_in_spec]
pub fn mergeall_megalist_meta() -> RuleMeta
    returns
        (RuleMeta {
            id: "no-layer-mergeall-megalist",
            severity: Severity::Info,
            category: Category::Architecture,
            help: "A flat mergeAll of the whole app is hard to navigate and reason about. Compose per-domain modules and merge those.",
        }),
{
    RuleMeta {
        id: "no-layer-mergeall-megalist",
        severity: Severity::Info,
        category: Category::Architecture,
        help: "A flat mergeAll of the whole app is hard to navigate and reason about. Compose per-domain modules and merge those.",
    }
}

/// Sequencing steps in one pipe from which a chain is reported.
pub const CHAIN_THRESHOLD: usize = 4;

/// Layers in one `Layer.mergeAll` above which it is reported.
pub const MERGEALL_THRESHOLD: usize = 10;

/// `Effect.flatMap(...)` or `Effect.andThen(...)`.
pub open spec fn is_sequencing_step(e: Expr, bindings: Map<Seq<char>, Seq<char>>) -> bool {
    match e {
        Expr::Call(inner) => call_module_prop_spec(*inner, bindings) == Some(("Effect"@, "flatMap"@))
            || call_module_prop_spec(*inner, bindings) == Some(("Effect"@, "andThen"@)),
        _ => false,
    }
}

/// How many of `args` are sequencing steps.
pub open spec fn sequencing_steps(args: Seq<Expr>, bindings: Map<Seq<char>, Seq<char>>) -> nat
    decreases args.len(),
{
    if args.len() == 0 {
        0
    } else {
        sequencing_steps(args.drop_last(), bindings) + if is_sequencing_step(args.last(), bindings) {
            1nat
        } else {
            0nat
        }
    }
}

/// `Layer.mergeAll` with more than ten arguments is reported; otherwise a
/// `.pipe(...)` with four or more `Effect.flatMap` / `Effect.andThen` steps.
pub open spec fn composition_limits_findings(bindings: Map<Seq<char>, Seq<char>>, call: CallExpr) -> Seq<Finding> {
    if call_module_prop_spec(call, bindings) == Some(("Layer"@, "mergeAll"@)) {
        if call.arguments@.len() > MERGEALL_THRESHOLD {
            one(
                mergeall_megalist_meta(),
                call.span,
                "Layer.mergeAll with "@ + decimal(call.arguments@.len()) + " layers — compose per-domain modules instead"@,
            )
        } else {
            none()
        }
    } else {
        match static_member_spec(call.callee) {
            Some((_, prop)) => if prop == "pipe"@ && sequencing_steps(call.arguments@, bindings) >= CHAIN_THRESHOLD {
                one(
                    long_chains_meta(),
                    call.span,
                    decimal(sequencing_steps(call.arguments@, bindings)) + " flatMap/andThen steps in one pipe — consider Effect.gen"@,
                )
            } else {
                none()
            },
            None => none(),
        }
    }
}

pub struct CompositionLimits;

impl CompositionLimits {
    /// The rule ids this rule owns.
    pub fn metas(&self) -> (metas: Vec<RuleMeta>)
        ensures
            metas@ == seq![long_chains_meta(), mergeall_megalist_meta()],
    {
        let mut metas: Vec<RuleMeta> = Vec::new();
        metas.push(long_chains_meta());
        metas.push(mergeall_megalist_meta());
        metas
    }

    /// A call expression.
    pub fn on_call(&self, call: &CallExpr, ctx: &mut FileCtx)
        ensures
            final(ctx).findings() == old(ctx).findings() + composition_limits_findings(old(ctx).imports.bindings(), *call),
            final(ctx).same_walk(old(ctx)),
    {
        let merge_all = match call_module_prop(call, &ctx.imports) {
            Some((module, prop)) => str_eq(module, "Layer") && str_eq(prop, "mergeAll"),
            None => false,
        };
        if merge_all {
            if call.arguments.len() > MERGEALL_THRESHOLD {
                let number = to_decimal(call.arguments.len() as u64);
                let message = concat3("Layer.mergeAll with ", number.as_str(), " layers — compose per-domain modules instead");
                ctx.report(mergeall_megalist_meta(), call.span, message);
                assert(old(ctx).findings() + composition_limits_findings(old(ctx).imports.bindings(), *call) =~= ctx.findings());
            } else {
                assert(old(ctx).findings() + none() =~= old(ctx).findings());
            }
            return;
        }
        let is_pipe = match static_member(&call.callee) {
            Some((_, prop)) => str_eq(prop, "pipe"),
            None => false,
        };
        if !is_pipe {
            assert(old(ctx).findings() + none() =~= old(ctx).findings());
            return;
        }
        let ghost bindings = ctx.imports.bindings();
        let mut steps: usize = 0;
        let mut i: usize = 0;
        while i < call.arguments.len()
            invariant
                i <= call.arguments@.len(),
                bindings == ctx.imports.bindings(),
                steps == sequencing_steps(call.arguments@.take(i as int), bindings),
                steps <= i,
            decreases call.arguments@.len() - i,
        {
            assert(call.arguments@.take(i + 1).drop_last() =~= call.arguments@.take(i as int));
            let step = match &call.arguments[i] {
                Expr::Call(inner) => match call_module_prop(&**inner, &ctx.imports) {
                    Some((module, prop)) => str_eq(module, "Effect") && (str_eq(prop, "flatMap") || str_eq(prop, "andThen")),
                    None => false,
                },
                _ => false,
            };
            if step {
                steps += 1;
            }
            i += 1;
        }
        assert(call.arguments@.take(i as int) =~= call.arguments@);
        if steps < CHAIN_THRESHOLD {
            assert(old(ctx).findings() + none() =~= old(ctx).findings());
            return;
        }
        let number = to_decimal(steps as u64);
        let message = concat2(number.as_str(), " flatMap/andThen steps in one pipe — consider Effect.gen");
        ctx.report(long_chains_meta(), call.span, message);
        assert(old(ctx).findings() + composition_limits_findings(old(ctx).imports.bindings(), *call) =~= ctx.findings());
    }
}

} // verus!
