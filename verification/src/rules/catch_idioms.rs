//! `prefer-catch-tag` and `catch-to-map-error`: catch-all handlers that
//! re-implement tag routing or error mapping.
use vstd::prelude::*;

use crate::ast::{CallExpr, Expr, FunctionExpr, Stmt};
use crate::diagnostics::{Category, RuleMeta, Severity};
use crate::matchers::{arrow_body_expression, arrow_body_spec, call_module_prop, call_module_prop_spec, first_function_arg, first_function_index};
use crate::rules::{none, one, FileCtx, Finding};
use crate::text::{concat3, str_eq};

verus! {

/// Catalog metadata of `prefer-catch-tag`.
#[verifier::allow_in_spec]
pub fn prefer_catch_tag_meta() -> RuleMeta
    returns
        (RuleMeta {
            id: "prefer-catch-tag",
            severity: Severity::Warn,
            category: Category::Idiomatic,
            help: "Branching on `error._tag` inside a catch-all handler re-implements what `Effect.catchTag` / `Effect.catchTags` do with full type narrowing and exhaustiveness.",
        }),
{
    RuleMeta {
        id: "prefer-catch-tag",
        severity: Severity::Warn,
        category: Category::Idiomatic,
        help: "Branching on `error._tag` inside a catch-all handler re-implements what `Effect.catchTag` / `Effect.catchTags` do with full type narrowing and exhaustiveness.",
    }
}

/// Catalog metadata of `catch-to-map-error`.
#[verifier::allow_in_spec]
pub fn catch_to_map_error_meta() -> RuleMeta
    returns
        (RuleMeta {
            id: "catch-to-map-error",
            severity: Severity::Info,
            category: Category::Idiomatic,
            help: "A catch handler that always fails again is just transforming the error — `Effect.mapError` says that directly.",
        }),
{
    RuleMeta {
        id: "catch-to-map-error",
        severity: Severity::Info,
        category: Category::Idiomatic,
        help: "A catch handler that always fails again is just transforming the error — `Effect.mapError` says that directly.",
    }
}

/// The catch-all combinators.
pub open spec fn is_catch_all_spec(prop: Seq<char>) -> bool {
    prop == "catch"@ || prop == "catchAll"@
}

/// Is `prop` a catch-all combinator?
pub fn is_catch_all(prop: &str) -> (found: bool)
    ensures
        found == is_catch_all_spec(prop@),
{
    str_eq(prop, "catch") || str_eq(prop, "catchAll")
}

/// Does the expression read `<something>._tag`? A shallow walk through member
/// objects, both sides of binary and logical operations, and the tests of
/// conditionals.
pub open spec fn references_tag_spec(e: Expr) -> bool
    decreases e,
{
    match e {
        Expr::Member { object, property, .. } => property@ == "_tag"@ || references_tag_spec(*object),
        Expr::Binary { left, right, .. } => references_tag_spec(*left) || references_tag_spec(*right),
        Expr::Conditional { test, .. } => references_tag_spec(*test),
        _ => false,
    }
}

/// Does the expression read `<something>._tag`?
pub fn references_tag(e: &Expr) -> (found: bool)
    ensures
        found == references_tag_spec(*e),
    decreases e,
{
    match e {
        Expr::Member { object, property, .. } => str_eq(property.as_str(), "_tag") || references_tag(&**object),
        Expr::Binary { left, right, .. } => references_tag(&**left) || references_tag(&**right),
        Expr::Conditional { test, .. } => references_tag(&**test),
        _ => false,
    }
}

/// A statement that branches on `_tag`.
pub open spec fn statement_branches_on_tag(s: Stmt) -> bool {
    match s {
        Stmt::If { test, .. } => references_tag_spec(test),
        Stmt::Switch { discriminant, .. } => references_tag_spec(discriminant),
        _ => false,
    }
}

/// Some statement of the body branches on `_tag`.
pub open spec fn body_branches_on_tag(body: Seq<Stmt>) -> bool {
    exists|i: int| 0 <= i < body.len() && statement_branches_on_tag(#[trigger] body[i])
}

/// An arrow handler that dispatches on `_tag`: a concise body that is a
/// conditional testing `_tag`, or a block with an `if` / `switch` on `_tag`.
pub open spec fn arrow_dispatches_on_tag(f: FunctionExpr) -> bool {
    match arrow_body_spec(f) {
        Some(body) => match body {
            Expr::Conditional { test, .. } => references_tag_spec(*test),
            _ => false,
        },
        None => body_branches_on_tag(f.body@),
    }
}

/// The handler is an arrow that dispatches on `_tag`.
pub open spec fn handler_dispatches_on_tag_spec(handler: Expr) -> bool {
    match handler {
        Expr::Function(f) => f.is_arrow && arrow_dispatches_on_tag(*f),
        _ => false,
    }
}

/// The handler is an arrow whose concise body is `Effect.fail(...)`.
pub open spec fn handler_always_fails_spec(handler: Expr, bindings: Map<Seq<char>, Seq<char>>) -> bool {
    match handler {
        Expr::Function(f) => f.is_arrow && match arrow_body_spec(*f) {
            Some(Expr::Call(call)) => call_module_prop_spec(*call, bindings) == Some(("Effect"@, "fail"@)),
            _ => false,
        },
        _ => false,
    }
}

fn arrow_dispatches(f: &FunctionExpr) -> (found: bool)
    ensures
        found == arrow_dispatches_on_tag(*f),
{
    match arrow_body_expression(f) {
        Some(body) => match body {
            Expr::Conditional { test, .. } => references_tag(&**test),
            _ => false,
        },
        None => {
            let mut i: usize = 0;
            while i < f.body.len()
                invariant
                    i <= f.body@.len(),
                    arrow_body_spec(*f) is None,
                    forall|k: int| 0 <= k < i ==> !statement_branches_on_tag(#[trigger] f.body@[k]),
                decreases f.body@.len() - i,
            {
                let branches = match &f.body[i] {
                    Stmt::If { test, .. } => references_tag(test),
                    Stmt::Switch { discriminant, .. } => references_tag(discriminant),
                    _ => false,
                };
                if branches {
                    assert(statement_branches_on_tag(f.body@[i as int]));
                    return true;
                }
                i += 1;
            }
            false
        },
    }
}

/// Does the handler branch on `_tag`?
pub fn handler_dispatches_on_tag(handler: &Expr) -> (found: bool)
    ensures
        found == handler_dispatches_on_tag_spec(*handler),
{
    match handler {
        Expr::Function(f) => f.is_arrow && arrow_dispatches(&**f),
        _ => false,
    }
}

/// Does the handler always fail again?
pub fn handler_always_fails(handler: &Expr, ctx: &FileCtx) -> (found: bool)
    ensures
        found == handler_always_fails_spec(*handler, ctx.imports.bindings()),
{
    match handler {
        Expr::Function(f) => f.is_arrow && match arrow_body_expression(&**f) {
            Some(Expr::Call(call)) => match call_module_prop(&**call, &ctx.imports) {
                Some((module, prop)) => str_eq(module, "Effect") && str_eq(prop, "fail"),
                None => false,
            },
            _ => false,
        },
        _ => false,
    }
}

/// `Effect.catch` / `Effect.catchAll` whose first function argument branches
/// on `_tag` is reported under `prefer-catch-tag`; one that always fails
/// again, under `catch-to-map-error`.
pub open spec fn catch_idioms_findings(bindings: Map<Seq<char>, Seq<char>>, call: CallExpr) -> Seq<Finding> {
    match call_module_prop_spec(call, bindings) {
        Some((module, prop)) => if module == "Effect"@ && is_catch_all_spec(prop) {
            match first_function_index(call.arguments@) {
                Some(i) => if handler_dispatches_on_tag_spec(call.arguments@[i]) {
                    one(prefer_catch_tag_meta(), call.span, "Effect."@ + prop + " handler branches on `_tag` — use Effect.catchTag/catchTags"@)
                } else if handler_always_fails_spec(call.arguments@[i], bindings) {
                    one(catch_to_map_error_meta(), call.span, "Effect."@ + prop + " handler always re-fails — use Effect.mapError"@)
                } else {
                    none()
                },
                None => none(),
            }
        } else {
            none()
        },
        None => none(),
    }
}

pub struct CatchIdioms;

impl CatchIdioms {
    /// The rule ids this rule owns.
    pub fn metas(&self) -> (metas: Vec<RuleMeta>)
        ensures
            metas@ == seq![prefer_catch_tag_meta(), catch_to_map_error_meta()],
    {
        let mut metas: Vec<RuleMeta> = Vec::new();
        metas.push(prefer_catch_tag_meta());
        metas.push(catch_to_map_error_meta());
        metas
    }

    /// A call expression.
    pub fn on_call(&self, call: &CallExpr, ctx: &mut FileCtx)
        ensures
            final(ctx).findings() == old(ctx).findings() + catch_idioms_findings(old(ctx).imports.bindings(), *call),
            final(ctx).same_walk(old(ctx)),
    {
        let prop = match call_module_prop(call, &ctx.imports) {
            Some((module, prop)) => {
                if !str_eq(module, "Effect") || !is_catch_all(prop) {
                    assert(old(ctx).findings() + none() =~= old(ctx).findings());
                    return;
                }
                prop
            },
            None => {
                assert(old(ctx).findings() + none() =~= old(ctx).findings());
                return;
            },
        };
        let handler = match first_function_arg(call) {
            Some(handler) => handler,
            None => {
                assert(old(ctx).findings() + none() =~= old(ctx).findings());
                return;
            },
        };
        if handler_dispatches_on_tag(handler) {
            let message = concat3("Effect.", prop, " handler branches on `_tag` — use Effect.catchTag/catchTags");
            ctx.report(prefer_catch_tag_meta(), call.span, message);
            assert(old(ctx).findings() + catch_idioms_findings(old(ctx).imports.bindings(), *call) =~= ctx.findings());
            return;
        }
        if handler_always_fails(handler, ctx) {
            let message = concat3("Effect.", prop, " handler always re-fails — use Effect.mapError");
            ctx.report(catch_to_map_error_meta(), call.span, message);
            assert(old(ctx).findings() + catch_idioms_findings(old(ctx).imports.bindings(), *call) =~= ctx.findings());
            return;
        }
        assert(old(ctx).findings() + none() =~= old(ctx).findings());
    }
}

} // verus!
