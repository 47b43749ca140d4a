//! `no-string-errors` and `no-catchall-to-null`.
use vstd::prelude::*;

use crate::ast::{CallExpr, Expr, Property};
use crate::diagnostics::{Category, RuleMeta, Severity};
use crate::matchers::{
    call_module_prop, call_module_prop_spec, first_function_arg, first_function_index, function_result_expression,
    function_result_spec, is_undefined_expr, is_undefined_spec, member_module_prop, module_prop_spec, unwrap_parens,
    unwrap_parens_spec,
};
use crate::rules::{none, one, FileCtx, Finding};
use crate::text::{concat3, owned, str_eq};

verus! {

/// Catalog metadata of `no-string-errors`.
#[verifier::allow_in_spec]
pub fn no_string_errors_meta() -> RuleMeta
    returns
        (RuleMeta {
            id: "no-string-errors",
            severity: Severity::Warn,
            category: Category::Idiomatic,
            help: "Failing with a string loses all type information — catchTag can't route it and call sites get `string` in the error channel. Use Data.TaggedError / Schema.TaggedErrorClass.",
        }),
{
    RuleMeta {
        id: "no-string-errors",
        severity: Severity::Warn,
        category: Category::Idiomatic,
        help: "Failing with a string loses all type information — catchTag can't route it and call sites get `string` in the error channel. Use Data.TaggedError / Schema.TaggedErrorClass.",
    }
}

/// Catalog metadata of `no-catchall-to-null`.
#[verifier::allow_in_spec]
pub fn no_catchall_to_null_meta() -> RuleMeta
    returns
        (RuleMeta {
            id: "no-catchall-to-null",
            severity: Severity::Warn,
            category: Category::Correctness,
            help: "catchAll(() => succeed(null)) swallows every failure — including bugs — and turns them into a nullable success. Catch the specific tag, or use Effect.option if absence is the model.",
        }),
{
    RuleMeta {
        id: "no-catchall-to-null",
        severity: Severity::Warn,
        category: Category::Correctness,
        help: "catchAll(() => succeed(null)) swallows every failure — including bugs — and turns them into a nullable success. Catch the specific tag, or use Effect.option if absence is the model.",
    }
}

/// A string literal or template literal (parentheses removed).
pub open spec fn is_string_like_spec(e: Expr) -> bool {
    match unwrap_parens_spec(e) {
        Expr::Str { .. } => true,
        Expr::Template { .. } => true,
        _ => false,
    }
}

/// Is the expression a string or template literal?
pub fn is_string_like(e: &Expr) -> (found: bool)
    ensures
        found == is_string_like_spec(*e),
{
    match unwrap_parens(e) {
        Expr::Str { .. } => true,
        Expr::Template { .. } => true,
        _ => false,
    }
}

/// `null` (parentheses removed), `undefined`, or a `void` expression.
pub open spec fn is_null_like_spec(e: Expr) -> bool {
    unwrap_parens_spec(e) is Null || is_undefined_spec(e)
}

/// Is the expression null-like?
pub fn is_null_like(e: &Expr) -> (found: bool)
    ensures
        found == is_null_like_spec(*e),
{
    let is_null = match unwrap_parens(e) {
        Expr::Null { .. } => true,
        _ => false,
    };
    is_null || is_undefined_expr(e)
}

/// The value of the first property named `key` among `ps`.
pub open spec fn keyed_value(ps: Seq<Property>, key: Seq<char>) -> Option<Expr>
    decreases ps.len(),
{
    if ps.len() == 0 {
        None
    } else if ps[0].key matches Some(k) && k@ == key {
        Some(ps[0].value)
    } else {
        keyed_value(ps.drop_first(), key)
    }
}

/// The value of the first property named `key` of an object literal.
pub fn keyed_property<'b>(ps: &'b Vec<Property>, key: &str) -> (found: Option<&'b Expr>)
    ensures
        match found {
            Some(v) => keyed_value(ps@, key@) == Some(*v),
            None => keyed_value(ps@, key@) is None,
        },
{
    let mut i: usize = 0;
    assert(ps@.skip(0) =~= ps@);
    while i < ps.len()
        invariant
            i <= ps@.len(),
            keyed_value(ps@, key@) == keyed_value(ps@.skip(i as int), key@),
        decreases ps@.len() - i,
    {
        assert(ps@.skip(i as int)[0] == ps@[i as int]);
        assert(ps@.skip(i as int).drop_first() =~= ps@.skip(i + 1));
        let matches_key = match &ps[i].key {
            Some(k) => str_eq(k.as_str(), key),
            None => false,
        };
        if matches_key {
            return Some(&ps[i].value);
        }
        i += 1;
    }
    None
}

/// The `catch` option of a call whose first argument is an options object.
pub open spec fn catch_option(call: CallExpr) -> Option<Expr> {
    if call.arguments@.len() > 0 {
        match call.arguments@[0] {
            Expr::Object { properties, .. } => keyed_value(properties@, "catch"@),
            _ => None,
        }
    } else {
        None
    }
}

/// What a handler expression hands back, when it is a function.
pub open spec fn handler_result(handler: Expr) -> Option<Expr> {
    match handler {
        Expr::Function(f) => function_result_spec(*f),
        _ => None,
    }
}

fn handler_result_exec(handler: &Expr) -> (result: Option<&Expr>)
    ensures
        match result {
            Some(r) => handler_result(*handler) == Some(*r),
            None => handler_result(*handler) is None,
        },
{
    match handler {
        Expr::Function(f) => function_result_expression(&**f),
        _ => None,
    }
}

/// A handler result that turns the failure into nothing: `Effect.succeed(<null
/// or undefined>)` or `Effect.void`.
pub open spec fn swallows_spec(result: Option<Expr>, bindings: Map<Seq<char>, Seq<char>>) -> bool {
    match result {
        Some(Expr::Call(inner)) => call_module_prop_spec(*inner, bindings) == Some(("Effect"@, "succeed"@)) && inner.arguments@.len() > 0
            && is_null_like_spec(inner.arguments@[0]),
        Some(Expr::Member { object, property, .. }) => module_prop_spec(*object, property@, bindings) == Some(("Effect"@, "void"@)),
        _ => false,
    }
}

/// `Effect.fail(<string>)` and an `Effect.try` / `Effect.tryPromise` whose
/// `catch` option returns a string are reported under `no-string-errors`;
/// `Effect.catchAll` / `Effect.catch` whose handler returns null-like success
/// under `no-catchall-to-null`.
pub open spec fn error_modeling_findings(bindings: Map<Seq<char>, Seq<char>>, call: CallExpr) -> Seq<Finding> {
    match call_module_prop_spec(call, bindings) {
        Some((module, prop)) => if module != "Effect"@ {
            none()
        } else if prop == "fail"@ {
            if call.arguments@.len() > 0 && is_string_like_spec(call.arguments@[0]) {
                one(no_string_errors_meta(), call.span, "Effect.fail with a string — use a tagged error class"@)
            } else {
                none()
            }
        } else if prop == "try"@ || prop == "tryPromise"@ {
            match catch_option(call) {
                Some(handler) => match handler_result(handler) {
                    Some(result) => if is_string_like_spec(result) {
                        one(no_string_errors_meta(), call.span, "Effect."@ + prop + " catch returns a string — map to a tagged error instead"@)
                    } else {
                        none()
                    },
                    None => none(),
                },
                None => none(),
            }
        } else if prop == "catchAll"@ || prop == "catch"@ {
            match first_function_index(call.arguments@) {
                Some(i) => if swallows_spec(handler_result(call.arguments@[i]), bindings) {
                    one(
                        no_catchall_to_null_meta(),
                        call.span,
                        "Effect."@ + prop + " converting every failure to null — catch the specific tag or use Effect.option"@,
                    )
                } else {
                    none()
                },
                None => none(),
            }
        } else {
            none()
        },
        None => none(),
    }
}

pub struct ErrorModeling;

impl ErrorModeling {
    /// The rule ids this rule owns.
    pub fn metas(&self) -> (metas: Vec<RuleMeta>)
        ensures
            metas@ == seq![no_string_errors_meta(), no_catchall_to_null_meta()],
    {
        let mut metas: Vec<RuleMeta> = Vec::new();
        metas.push(no_string_errors_meta());
        metas.push(no_catchall_to_null_meta());
        metas
    }

    /// A call expression.
    pub fn on_call(&self, call: &CallExpr, ctx: &mut FileCtx)
        ensures
            final(ctx).findings() == old(ctx).findings() + error_modeling_findings(old(ctx).imports.bindings(), *call),
            final(ctx).same_walk(old(ctx)),
    {
        let prop = match call_module_prop(call, &ctx.imports) {
            Some((module, prop)) => {
                if !str_eq(module, "Effect") {
                    assert(old(ctx).findings() + none() =~= old(ctx).findings());
                    return;
                }
                prop
            },
            None => {
                assert(old(ctx).findings() + none() =~= old(ctx).findings());
                return;
            },
        };
        if str_eq(prop, "fail") {
            if call.arguments.len() > 0 && is_string_like(&call.arguments[0]) {
                ctx.report(no_string_errors_meta(), call.span, owned("Effect.fail with a string — use a tagged error class"));
                assert(old(ctx).findings() + error_modeling_findings(old(ctx).imports.bindings(), *call) =~= ctx.findings());
            } else {
                assert(old(ctx).findings() + none() =~= old(ctx).findings());
            }
            return;
        }
        if str_eq(prop, "try") || str_eq(prop, "tryPromise") {
            let handler = if call.arguments.len() > 0 {
                match &call.arguments[0] {
                    Expr::Object { properties, .. } => keyed_property(properties, "catch"),
                    _ => None,
                }
            } else {
                None
            };
            let returns_string = match handler {
                Some(h) => match handler_result_exec(h) {
                    Some(result) => is_string_like(result),
                    None => false,
                },
                None => false,
            };
            if returns_string {
                let message = concat3("Effect.", prop, " catch returns a string — map to a tagged error instead");
                ctx.report(no_string_errors_meta(), call.span, message);
                assert(old(ctx).findings() + error_modeling_findings(old(ctx).imports.bindings(), *call) =~= ctx.findings());
            } else {
                assert(old(ctx).findings() + none() =~= old(ctx).findings());
            }
            return;
        }
        if str_eq(prop, "catchAll") || str_eq(prop, "catch") {
            let swallows = match first_function_arg(call) {
                Some(handler) => match handler_result_exec(handler) {
                    Some(Expr::Call(inner)) => {
                        let succeed = match call_module_prop(&**inner, &ctx.imports) {
                            Some((m, p)) => str_eq(m, "Effect") && str_eq(p, "succeed"),
                            None => false,
                        };
                        succeed && inner.arguments.len() > 0 && is_null_like(&inner.arguments[0])
                    },
                    Some(Expr::Member { object, property, .. }) => match member_module_prop(&**object, property.as_str(), &ctx.imports) {
                        Some((m, p)) => str_eq(m, "Effect") && str_eq(p, "void"),
                        None => false,
                    },
                    _ => false,
                },
                None => false,
            };
            if swallows {
                let message = concat3("Effect.", prop, " converting every failure to null — catch the specific tag or use Effect.option");
                ctx.report(no_catchall_to_null_meta(), call.span, message);
                assert(old(ctx).findings() + error_modeling_findings(old(ctx).imports.bindings(), *call) =~= ctx.findings());
            } else {
                assert(old(ctx).findings() + none() =~= old(ctx).findings());
            }
            return;
        }
        assert(old(ctx).findings() + none() =~= old(ctx).findings());
    }
}

} // verus!
