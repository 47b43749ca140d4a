//! `retry-only-retryable`: `Effect.retry` with no `while` / `until` filter.
use vstd::prelude::*;

use crate::ast::{CallExpr, Expr, Property};
use crate::diagnostics::{Category, RuleMeta, Severity};
use crate::matchers::{call_module_prop, call_module_prop_spec};
use crate::rules::{none, one, FileCtx, Finding};
use crate::text::{owned, str_eq};

verus! {

/// Catalog metadata of `retry-only-retryable`.
#[verifier::allow_in_spec]
pub fn retry_only_retryable_meta() -> RuleMeta
    returns
        (RuleMeta {
            id: "retry-only-retryable",
            severity: Severity::Info,
            category: Category::Architecture,
            help: "Retrying every failure indiscriminately retries validation errors, 404s, and bugs. Add `while`/`until` (or catchTag routing) so only transient failures are retried.",
        }),
{
    RuleMeta {
        id: "retry-only-retryable",
        severity: Severity::Info,
        category: Category::Architecture,
        help: "Retrying every failure indiscriminately retries validation errors, 404s, and bugs. Add `while`/`until` (or catchTag routing) so only transient failures are retried.",
    }
}

/// A `while` or `until` property.
pub open spec fn is_filter_property(p: Property) -> bool {
    match p.key {
        Some(key) => key@ == "while"@ || key@ == "until"@,
        None => false,
    }
}

/// Some property is `while` or `until`.
pub open spec fn has_filter_property(properties: Seq<Property>) -> bool {
    exists|j: int| 0 <= j < properties.len() && is_filter_property(#[trigger] properties[j])
}

/// An object literal with a `while` or `until` property.
pub open spec fn is_filter_object(e: Expr) -> bool {
    match e {
        Expr::Object { properties, .. } => has_filter_property(properties@),
        _ => false,
    }
}

/// Some argument is an object literal with a `while` / `until` property.
pub open spec fn has_retry_filter_spec(args: Seq<Expr>) -> bool {
    exists|i: int| 0 <= i < args.len() && is_filter_object(#[trigger] args[i])
}

/// `Effect.retry(...)` with arguments and no retry filter is reported.
pub open spec fn retry_only_retryable_findings(bindings: Map<Seq<char>, Seq<char>>, call: CallExpr) -> Seq<Finding> {
    if call_module_prop_spec(call, bindings) == Some(("Effect"@, "retry"@)) && call.arguments@.len() > 0
        && !has_retry_filter_spec(call.arguments@) {
        one(retry_only_retryable_meta(), call.span, "Effect.retry without while/until — every failure will be retried"@)
    } else {
        none()
    }
}

fn is_filter_object_exec(e: &Expr) -> (found: bool)
    ensures
        found == is_filter_object(*e),
{
    match e {
        Expr::Object { properties, span } => {
            let mut j: usize = 0;
            while j < properties.len()
                invariant
                    *e == (Expr::Object { properties: *properties, span: *span }),
                    j <= properties@.len(),
                    forall|m: int| 0 <= m < j ==> !is_filter_property(#[trigger] properties@[m]),
                decreases properties@.len() - j,
            {
                let filter = match &properties[j].key {
                    Some(key) => str_eq(key.as_str(), "while") || str_eq(key.as_str(), "until"),
                    None => false,
                };
                if filter {
                    assert(is_filter_property(properties@[j as int]));
                    return true;
                }
                j += 1;
            }
            false
        },
        _ => false,
    }
}

/// Does some argument of the call carry a `while` / `until` filter?
pub fn has_retry_filter(call: &CallExpr) -> (found: bool)
    ensures
        found == has_retry_filter_spec(call.arguments@),
{
    let mut i: usize = 0;
    while i < call.arguments.len()
        invariant
            i <= call.arguments@.len(),
            forall|m: int| 0 <= m < i ==> !is_filter_object(#[trigger] call.arguments@[m]),
        decreases call.arguments@.len() - i,
    {
        if is_filter_object_exec(&call.arguments[i]) {
            return true;
        }
        i += 1;
    }
    false
}

pub struct RetryOnlyRetryable;

impl RetryOnlyRetryable {
    /// The rule ids this rule owns.
    pub fn metas(&self) -> (metas: Vec<RuleMeta>)
        ensures
            metas@ == seq![retry_only_retryable_meta()],
    {
        let mut metas: Vec<RuleMeta> = Vec::new();
        metas.push(retry_only_retryable_meta());
        metas
    }

    /// A call expression.
    pub fn on_call(&self, call: &CallExpr, ctx: &mut FileCtx)
        ensures
            final(ctx).findings() == old(ctx).findings() + retry_only_retryable_findings(old(ctx).imports.bindings(), *call),
            final(ctx).same_walk(old(ctx)),
    {
        let is_retry = match call_module_prop(call, &ctx.imports) {
            Some((module, prop)) => str_eq(module, "Effect") && str_eq(prop, "retry"),
            None => false,
        };
        if !is_retry || call.arguments.len() == 0 || has_retry_filter(call) {
            assert(old(ctx).findings() + none() =~= old(ctx).findings());
            return;
        }
        ctx.report(retry_only_retryable_meta(), call.span, owned("Effect.retry without while/until — every failure will be retried"));
        assert(old(ctx).findings() + retry_only_retryable_findings(old(ctx).imports.bindings(), *call) =~= ctx.findings());
    }
}

} // verus!
