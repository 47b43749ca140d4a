//! Interruption quality: `prefer-abort-signal-passthrough` and
//! `prefer-gen-over-nested-flatmap`.
use vstd::prelude::*;

use crate::ast::{CallExpr, Expr};
use crate::diagnostics::{Category, RuleMeta, Severity};
use crate::matchers::{call_module_prop, call_module_prop_spec, first_function_arg, first_function_index};
use crate::rules::error_modeling::{keyed_property, keyed_value};
use crate::rules::{none, one, FileCtx, Finding};
use crate::search::{find_in, first_in, kind_pred, CallKind};
use crate::text::{concat3, owned, push_str, str_eq};

verus! {

/// Catalog metadata of `prefer-abort-signal-passthrough`.
#[verifier::allow_in_spec]
pub fn abort_signal_meta() -> RuleMeta
    returns
        (RuleMeta {
            id: "prefer-abort-signal-passthrough",
            severity: Severity::Info,
            category: Category::Idiomatic,
            help: "Promises can't be interrupted — but Effect hands tryPromise an AbortSignal. Pass it to signal-aware APIs (fetch, SDKs) so interruption actually cancels the work.",
        }),
{
    RuleMeta {
        id: "prefer-abort-signal-passthrough",
        severity: Severity::Info,
        category: Category::Idiomatic,
        help: "Promises can't be interrupted — but Effect hands tryPromise an AbortSignal. Pass it to signal-aware APIs (fetch, SDKs) so interruption actually cancels the work.",
    }
}

/// Catalog metadata of `prefer-gen-over-nested-flatmap`.
#[verifier::allow_in_spec]
pub fn nested_flatmap_meta() -> RuleMeta
    returns
        (RuleMeta {
            id: "prefer-gen-over-nested-flatmap",
            severity: Severity::Info,
            category: Category::Idiomatic,
            help: "flatMap inside flatMap nests like callbacks. Effect.gen turns the same sequencing into flat, readable statements: const a = yield* ...; const b = yield* ...",
        }),
{
    RuleMeta {
        id: "prefer-gen-over-nested-flatmap",
        severity: Severity::Info,
        category: Category::Idiomatic,
        help: "flatMap inside flatMap nests like callbacks. Effect.gen turns the same sequencing into flat, readable statements: const a = yield* ...; const b = yield* ...",
    }
}

/// The `try` handler of a promise wrapper: its `try` option when the first
/// argument is an options object, or the first argument when it is a function.
pub open spec fn try_handler(call: CallExpr) -> Option<Expr> {
    if call.arguments@.len() == 0 {
        None
    } else {
        match call.arguments@[0] {
            Expr::Object { properties, .. } => keyed_value(properties@, "try"@),
            Expr::Function(_) => Some(call.arguments@[0]),
            _ => None,
        }
    }
}

/// A function that takes no parameters.
pub open spec fn takes_no_params(e: Expr) -> bool {
    match e {
        Expr::Function(f) => f.param_count == 0,
        _ => false,
    }
}

/// A promise wrapper whose parameterless handler calls `fetch` is reported
/// (the AbortSignal is dropped); so is `Effect.flatMap` / `Effect.andThen`
/// whose first function argument holds another of them.
pub open spec fn interruption_findings(bindings: Map<Seq<char>, Seq<char>>, call: CallExpr) -> Seq<Finding> {
    match call_module_prop_spec(call, bindings) {
        Some((module, prop)) => if module != "Effect"@ {
            none()
        } else if prop == "tryPromise"@ || prop == "promise"@ {
            match try_handler(call) {
                Some(handler) => if takes_no_params(handler) && first_in(handler, kind_pred(CallKind::FetchCall, bindings)) is Some {
                    one(
                        abort_signal_meta(),
                        call.span,
                        "Effect."@ + prop + " ignores the AbortSignal — use `({ signal }) form: try: (signal) => fetch(url, { signal })`"@,
                    )
                } else {
                    none()
                },
                None => none(),
            }
        } else if prop == "flatMap"@ || prop == "andThen"@ {
            match first_function_index(call.arguments@) {
                Some(i) => if first_in(call.arguments@[i], kind_pred(CallKind::Sequencing, bindings)) is Some {
                    one(nested_flatmap_meta(), call.span, "Effect."@ + prop + " nested inside Effect."@ + prop + " — Effect.gen reads flat"@)
                } else {
                    none()
                },
                None => none(),
            }
        } else {
            none()
        },
        None => none(),
    }
}

pub struct Interruption;

impl Interruption {
    /// The rule ids this rule owns.
    pub fn metas(&self) -> (metas: Vec<RuleMeta>)
        ensures
            metas@ == seq![abort_signal_meta(), nested_flatmap_meta()],
    {
        let mut metas: Vec<RuleMeta> = Vec::new();
        metas.push(abort_signal_meta());
        metas.push(nested_flatmap_meta());
        metas
    }

    /// A call expression.
    pub fn on_call(&self, call: &CallExpr, ctx: &mut FileCtx)
        ensures
            final(ctx).findings() == old(ctx).findings() + interruption_findings(old(ctx).imports.bindings(), *call),
            final(ctx).same_walk(old(ctx)),
    {
        let prop_owned = match call_module_prop(call, &ctx.imports) {
            Some((module, prop)) => {
                if !str_eq(module, "Effect") {
                    assert(old(ctx).findings() + none() =~= old(ctx).findings());
                    return;
                }
                owned(prop)
            },
            None => {
                assert(old(ctx).findings() + none() =~= old(ctx).findings());
                return;
            },
        };
        let prop = prop_owned.as_str();
        if str_eq(prop, "tryPromise") || str_eq(prop, "promise") {
            let handler = if call.arguments.len() == 0 {
                None
            } else {
                match &call.arguments[0] {
                    Expr::Object { properties, .. } => keyed_property(properties, "try"),
                    Expr::Function(_) => Some(&call.arguments[0]),
                    _ => None,
                }
            };
            let hit = match handler {
                Some(h) => {
                    let no_params = match h {
                        Expr::Function(f) => f.param_count == 0,
                        _ => false,
                    };
                    no_params && find_in(h, CallKind::FetchCall, &ctx.imports).is_some()
                },
                None => false,
            };
            if hit {
                let message = concat3("Effect.", prop, " ignores the AbortSignal — use `({ signal }) form: try: (signal) => fetch(url, { signal })`");
                ctx.report(abort_signal_meta(), call.span, message);
                assert(old(ctx).findings() + interruption_findings(old(ctx).imports.bindings(), *call) =~= ctx.findings());
            } else {
                assert(old(ctx).findings() + none() =~= old(ctx).findings());
            }
            return;
        }
        if str_eq(prop, "flatMap") || str_eq(prop, "andThen") {
            let nests = match first_function_arg(call) {
                Some(handler) => find_in(handler, CallKind::Sequencing, &ctx.imports).is_some(),
                None => false,
            };
            if nests {
                let mut message = concat3("Effect.", prop, " nested inside Effect.");
                push_str(&mut message, prop);
                push_str(&mut message, " — Effect.gen reads flat");
                ctx.report(nested_flatmap_meta(), call.span, message);
                assert(old(ctx).findings() + interruption_findings(old(ctx).imports.bindings(), *call) =~= ctx.findings());
            } else {
                assert(old(ctx).findings() + none() =~= old(ctx).findings());
            }
            return;
        }
        assert(old(ctx).findings() + none() =~= old(ctx).findings());
    }
}

} // verus!
