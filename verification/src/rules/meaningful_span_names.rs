//! `meaningful-span-names`: generic span names passed to `Effect.fn` / `withSpan`.
use vstd::prelude::*;

use crate::ast::{CallExpr, Expr};
use crate::diagnostics::{Category, RuleMeta, Severity, Span};
use crate::matchers::{call_module_prop, call_module_prop_spec};
use crate::rules::{none, one, FileCtx, Finding};
use crate::text::{ascii_lower, chars_eq_str, concat3, str_eq, to_ascii_lowercase};

verus! {

/// Catalog metadata of `meaningful-span-names`.
#[verifier::allow_in_spec]
pub fn meaningful_span_names_meta() -> RuleMeta
    returns
        (RuleMeta {
            id: "meaningful-span-names",
            severity: Severity::Info,
            category: Category::Idiomatic,
            help: "Span names end up in traces and dashboards — name the business operation (\"UserRepo.create\"), not the mechanism.",
        }),
{
    RuleMeta {
        id: "meaningful-span-names",
        severity: Severity::Info,
        category: Category::Idiomatic,
        help: "Span names end up in traces and dashboards — name the business operation (\"UserRepo.create\"), not the mechanism.",
    }
}

/// The lower-cased names that say nothing about the operation.
pub open spec fn is_generic_word(lowered: Seq<char>) -> bool {
    ||| lowered == "run"@
    ||| lowered == "helper"@
    ||| lowered == "process"@
    ||| lowered == "main"@
    ||| lowered == "handler"@
    ||| lowered == "fn"@
    ||| lowered == "function"@
    ||| lowered == "do"@
    ||| lowered == "execute"@
    ||| lowered == "step"@
    ||| lowered == "task"@
    ||| lowered == "work"@
    ||| lowered == "op"@
}

/// A span name is generic when its ASCII lower-case form is a generic word.
pub open spec fn is_generic_name_spec(name: Seq<char>) -> bool {
    is_generic_word(ascii_lower(name))
}

/// Is the span name generic (case-insensitively)?
pub fn is_generic_name(name: &str) -> (found: bool)
    ensures
        found == is_generic_name_spec(name@),
{
    let lowered = to_ascii_lowercase(name);
    chars_eq_str(&lowered, "run") || chars_eq_str(&lowered, "helper") || chars_eq_str(&lowered, "process")
        || chars_eq_str(&lowered, "main") || chars_eq_str(&lowered, "handler") || chars_eq_str(&lowered, "fn")
        || chars_eq_str(&lowered, "function") || chars_eq_str(&lowered, "do") || chars_eq_str(&lowered, "execute")
        || chars_eq_str(&lowered, "step") || chars_eq_str(&lowered, "task") || chars_eq_str(&lowered, "work")
        || chars_eq_str(&lowered, "op")
}

/// The `Effect` constructors that take a span name.
pub open spec fn is_span_factory_spec(prop: Seq<char>) -> bool {
    prop == "fn"@ || prop == "fnUntraced"@ || prop == "withSpan"@
}

/// Is `prop` an `Effect` constructor that names a span?
pub fn is_span_factory(prop: &str) -> (found: bool)
    ensures
        found == is_span_factory_spec(prop@),
{
    str_eq(prop, "fn") || str_eq(prop, "fnUntraced") || str_eq(prop, "withSpan")
}

/// A string literal.
pub open spec fn is_string_literal(e: Expr) -> bool {
    e is Str
}

/// The position of the first string-literal argument.
pub open spec fn first_string_index(args: Seq<Expr>) -> Option<int> {
    if exists|i: int| 0 <= i < args.len() && is_string_literal(#[trigger] args[i]) {
        Some(choose|i: int| 0 <= i < args.len() && is_string_literal(#[trigger] args[i])
            && forall|j: int| 0 <= j < i ==> !is_string_literal(#[trigger] args[j]))
    } else {
        None
    }
}

/// The first string-literal argument of `Effect.fn` / `Effect.fnUntraced` /
/// `Effect.withSpan`, when it is a generic name, is reported at the literal.
pub open spec fn meaningful_span_names_findings(bindings: Map<Seq<char>, Seq<char>>, call: CallExpr) -> Seq<Finding> {
    match call_module_prop_spec(call, bindings) {
        Some((module, prop)) => if module == "Effect"@ && is_span_factory_spec(prop) {
            match first_string_index(call.arguments@) {
                Some(i) => match call.arguments@[i] {
                    Expr::Str { value, span } => if is_generic_name_spec(value@) {
                        one(meaningful_span_names_meta(), span, "span name \""@ + value@ + "\" is generic — name the business operation"@)
                    } else {
                        none()
                    },
                    _ => none(),
                },
                None => none(),
            }
        } else {
            none()
        },
        None => none(),
    }
}

fn first_string_argument(call: &CallExpr) -> (found: Option<&Expr>)
    ensures
        match found {
            Some(arg) => exists|i: int| first_string_index(call.arguments@) == Some(i) && call.arguments@[i] == *arg,
            None => first_string_index(call.arguments@) is None,
        },
{
    let mut i: usize = 0;
    while i < call.arguments.len()
        invariant
            i <= call.arguments@.len(),
            forall|j: int| 0 <= j < i ==> !is_string_literal(#[trigger] call.arguments@[j]),
        decreases call.arguments@.len() - i,
    {
        if let Expr::Str { .. } = &call.arguments[i] {
            proof {
                let args = call.arguments@;
                assert(is_string_literal(args[i as int]));
                let k = choose|k: int| 0 <= k < args.len() && is_string_literal(#[trigger] args[k])
                    && forall|j: int| 0 <= j < k ==> !is_string_literal(#[trigger] args[j]);
                if k > i {
                    assert(!is_string_literal(args[i as int]));
                }
                assert(first_string_index(args) == Some(i as int));
            }
            return Some(&call.arguments[i]);
        }
        i += 1;
    }
    None
}

pub struct MeaningfulSpanNames;

impl MeaningfulSpanNames {
    /// The rule ids this rule owns.
    pub fn metas(&self) -> (metas: Vec<RuleMeta>)
        ensures
            metas@ == seq![meaningful_span_names_meta()],
    {
        let mut metas: Vec<RuleMeta> = Vec::new();
        metas.push(meaningful_span_names_meta());
        metas
    }

    /// A call expression.
    pub fn on_call(&self, call: &CallExpr, ctx: &mut FileCtx)
        ensures
            final(ctx).findings() == old(ctx).findings() + meaningful_span_names_findings(old(ctx).imports.bindings(), *call),
            final(ctx).same_walk(old(ctx)),
    {
        let factory = match call_module_prop(call, &ctx.imports) {
            Some((module, prop)) => str_eq(module, "Effect") && is_span_factory(prop),
            None => false,
        };
        if !factory {
            assert(old(ctx).findings() + none() =~= old(ctx).findings());
            return;
        }
        match first_string_argument(call) {
            Some(Expr::Str { value, span }) => {
                if !is_generic_name(value.as_str()) {
                    assert(old(ctx).findings() + none() =~= old(ctx).findings());
                    return;
                }
                let message = concat3("span name \"", value.as_str(), "\" is generic — name the business operation");
                ctx.report(meaningful_span_names_meta(), *span, message);
                assert(old(ctx).findings() + meaningful_span_names_findings(old(ctx).imports.bindings(), *call) =~= ctx.findings());
            },
            _ => {
                assert(old(ctx).findings() + none() =~= old(ctx).findings());
            },
        }
    }
}

} // verus!
