//! `no-map-returning-effect`: a `map` callback that returns an Effect.
use vstd::prelude::*;

use crate::ast::{CallExpr, Expr};
use crate::diagnostics::{Category, RuleMeta, Severity};
use crate::matchers::{call_module_prop, call_module_prop_spec, first_function_arg, first_function_index, function_result_expression, function_result_spec};
use crate::rules::{none, one, FileCtx, Finding};
use crate::text::{owned, push_str, seq_starts_with, str_eq, str_starts_with};

verus! {

/// Catalog metadata of `no-map-returning-effect`.
#[verifier::allow_in_spec]
pub fn no_map_returning_effect_meta() -> RuleMeta
    returns
        (RuleMeta {
            id: "no-map-returning-effect",
            severity: Severity::Warn,
            category: Category::Correctness,
            help: "map wraps the callback result as a plain value, so returning an Effect produces Effect<Effect<A>> — the inner effect silently never runs. Use flatMap (or tap for side effects).",
        }),
{
    RuleMeta {
        id: "no-map-returning-effect",
        severity: Severity::Warn,
        category: Category::Correctness,
        help: "map wraps the callback result as a plain value, so returning an Effect produces Effect<Effect<A>> — the inner effect silently never runs. Use flatMap (or tap for side effects).",
    }
}

/// `is*` properties are predicates that return plain values.
pub open spec fn is_value_predicate_spec(prop: Seq<char>) -> bool {
    seq_starts_with(prop, "is"@)
}

/// Is `prop` a value predicate (`is...`)?
pub fn is_value_predicate(prop: &str) -> (found: bool)
    ensures
        found == is_value_predicate_spec(prop@),
{
    str_starts_with(prop, "is")
}

/// `Effect` or `Stream`.
pub open spec fn is_effect_or_stream(module: Seq<char>) -> bool {
    module == "Effect"@ || module == "Stream"@
}

/// The message for `<module>.map` whose callback returns `<inner>.<prop>(...)`.
pub open spec fn map_message(module: Seq<char>, inner: Seq<char>, prop: Seq<char>) -> Seq<char> {
    module + ".map callback returns "@ + inner + "."@ + prop + "(...) — the inner effect never runs; use "@ + module
        + ".flatMap or "@ + module + ".tap"@
}

/// The effect call a `map` callback returns: the callback's result when it is
/// a call of `Effect.*` / `Stream.*` that is not an `is*` predicate.
pub open spec fn returned_effect(call: CallExpr, bindings: Map<Seq<char>, Seq<char>>) -> Option<(Seq<char>, Seq<char>)> {
    match first_function_index(call.arguments@) {
        Some(i) => match call.arguments@[i] {
            Expr::Function(f) => match function_result_spec(*f) {
                Some(Expr::Call(inner)) => match call_module_prop_spec(*inner, bindings) {
                    Some((inner_module, inner_prop)) => if is_effect_or_stream(inner_module) && !is_value_predicate_spec(inner_prop) {
                        Some((inner_module, inner_prop))
                    } else {
                        None
                    },
                    None => None,
                },
                _ => None,
            },
            _ => None,
        },
        None => None,
    }
}

/// `Effect.map` / `Stream.map` whose callback returns an effect call is reported.
pub open spec fn no_map_returning_effect_findings(bindings: Map<Seq<char>, Seq<char>>, call: CallExpr) -> Seq<Finding> {
    match call_module_prop_spec(call, bindings) {
        Some((module, prop)) => if prop == "map"@ && is_effect_or_stream(module) {
            match returned_effect(call, bindings) {
                Some((inner_module, inner_prop)) => one(no_map_returning_effect_meta(), call.span, map_message(module, inner_module, inner_prop)),
                None => none(),
            }
        } else {
            none()
        },
        None => none(),
    }
}

fn map_message_exec(module: &str, inner: &str, prop: &str) -> (message: String)
    ensures
        message@ == map_message(module@, inner@, prop@),
{
    let mut message = owned(module);
    push_str(&mut message, ".map callback returns ");
    push_str(&mut message, inner);
    push_str(&mut message, ".");
    push_str(&mut message, prop);
    push_str(&mut message, "(...) — the inner effect never runs; use ");
    push_str(&mut message, module);
    push_str(&mut message, ".flatMap or ");
    push_str(&mut message, module);
    push_str(&mut message, ".tap");
    message
}

pub struct NoMapReturningEffect;

impl NoMapReturningEffect {
    /// The rule ids this rule owns.
    pub fn metas(&self) -> (metas: Vec<RuleMeta>)
        ensures
            metas@ == seq![no_map_returning_effect_meta()],
    {
        let mut metas: Vec<RuleMeta> = Vec::new();
        metas.push(no_map_returning_effect_meta());
        metas
    }

    /// A call expression.
    pub fn on_call(&self, call: &CallExpr, ctx: &mut FileCtx)
        ensures
            final(ctx).findings() == old(ctx).findings() + no_map_returning_effect_findings(old(ctx).imports.bindings(), *call),
            final(ctx).same_walk(old(ctx)),
    {
        let message = match call_module_prop(call, &ctx.imports) {
            Some((module, prop)) => {
                if !str_eq(prop, "map") || !(str_eq(module, "Effect") || str_eq(module, "Stream")) {
                    assert(old(ctx).findings() + none() =~= old(ctx).findings());
                    return;
                }
                let inner = match first_function_arg(call) {
                    Some(Expr::Function(f)) => match function_result_expression(&**f) {
                        Some(Expr::Call(inner)) => match call_module_prop(&**inner, &ctx.imports) {
                            Some((inner_module, inner_prop)) => {
                                if (str_eq(inner_module, "Effect") || str_eq(inner_module, "Stream")) && !is_value_predicate(inner_prop) {
                                    Some((inner_module, inner_prop))
                                } else {
                                    None
                                }
                            },
                            None => None,
                        },
                        _ => None,
                    },
                    _ => None,
                };
                match inner {
                    Some((inner_module, inner_prop)) => map_message_exec(module, inner_module, inner_prop),
                    None => {
                        assert(old(ctx).findings() + none() =~= old(ctx).findings());
                        return;
                    },
                }
            },
            None => {
                assert(old(ctx).findings() + none() =~= old(ctx).findings());
                return;
            },
        };
        ctx.report(no_map_returning_effect_meta(), call.span, message);
        assert(old(ctx).findings() + no_map_returning_effect_findings(old(ctx).imports.bindings(), *call) =~= ctx.findings());
    }
}

} // verus!
