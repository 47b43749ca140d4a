//! Searching an expression tree for calls and `new` expressions of a given
//! kind, in pre-order: a node before its sub-expressions, sub-expressions left
//! to right, function bodies included.
use vstd::prelude::*;

use crate::ast::{CallExpr, Declarator, Expr, Property, Stmt};
use crate::effect_imports::EffectImports;
use crate::matchers::{
    call_module_prop, call_module_prop_spec, ident_name, ident_name_spec, static_member, static_member_spec, unwrap_parens,
    unwrap_parens_spec,
};
use crate::text::str_eq;

verus! {

/// The first call (`is_new == false`) or `new` expression (`is_new == true`)
/// in `e` for which `p` holds, in pre-order.
pub open spec fn first_in(e: Expr, p: spec_fn(bool, CallExpr) -> bool) -> Option<CallExpr>
    decreases e, 0int,
{
    match e {
        Expr::Call(c) => if p(false, *c) {
            Some(*c)
        } else {
            match first_in(c.callee, p) {
                Some(found) => Some(found),
                None => first_in_list(c.arguments@, p, 0),
            }
        },
        Expr::New(c) => if p(true, *c) {
            Some(*c)
        } else {
            match first_in(c.callee, p) {
                Some(found) => Some(found),
                None => first_in_list(c.arguments@, p, 0),
            }
        },
        Expr::Member { object, .. } => first_in(*object, p),
        Expr::Paren { expression, .. } => first_in(*expression, p),
        Expr::Unary { argument, .. } => first_in(*argument, p),
        Expr::Spread { argument, .. } => first_in(*argument, p),
        Expr::Yield { argument, .. } => match argument {
            Some(a) => first_in(*a, p),
            None => None,
        },
        Expr::Binary { left, right, .. } => match first_in(*left, p) {
            Some(found) => Some(found),
            None => first_in(*right, p),
        },
        Expr::Conditional { test, consequent, alternate, .. } => match first_in(*test, p) {
            Some(found) => Some(found),
            None => match first_in(*consequent, p) {
                Some(found) => Some(found),
                None => first_in(*alternate, p),
            },
        },
        Expr::Template { expressions, .. } => first_in_list(expressions@, p, 0),
        Expr::Array { elements, .. } => first_in_list(elements@, p, 0),
        Expr::Object { properties, .. } => first_in_properties(properties@, p, 0),
        Expr::Function(f) => first_in_body(f.body@, p, 0),
        _ => None,
    }
}

/// The first match in `es[i..]`, in order.
pub open spec fn first_in_list(es: Seq<Expr>, p: spec_fn(bool, CallExpr) -> bool, i: int) -> Option<CallExpr>
    decreases es, es.len() - i,
{
    if i < 0 || i >= es.len() {
        None
    } else {
        match first_in(es[i], p) {
            Some(found) => Some(found),
            None => first_in_list(es, p, i + 1),
        }
    }
}

/// The first match in the values of `ps[i..]`, in order.
pub open spec fn first_in_properties(ps: Seq<Property>, p: spec_fn(bool, CallExpr) -> bool, i: int) -> Option<CallExpr>
    decreases ps, ps.len() - i,
{
    if i < 0 || i >= ps.len() {
        None
    } else {
        match first_in(ps[i].value, p) {
            Some(found) => Some(found),
            None => first_in_properties(ps, p, i + 1),
        }
    }
}

/// The first match in the initializers of `ds[i..]`, in order.
pub open spec fn first_in_declarators(ds: Seq<Declarator>, p: spec_fn(bool, CallExpr) -> bool, i: int) -> Option<CallExpr>
    decreases ds, ds.len() - i,
{
    if i < 0 || i >= ds.len() {
        None
    } else {
        let here = match ds[i].init {
            Some(e) => first_in(e, p),
            None => None,
        };
        match here {
            Some(found) => Some(found),
            None => first_in_declarators(ds, p, i + 1),
        }
    }
}

/// The first match in the statements `ss[i..]`, in order.
pub open spec fn first_in_body(ss: Seq<Stmt>, p: spec_fn(bool, CallExpr) -> bool, i: int) -> Option<CallExpr>
    decreases ss, ss.len() - i,
{
    if i < 0 || i >= ss.len() {
        None
    } else {
        let here = match ss[i] {
            Stmt::Return { argument: Some(e), .. } => first_in(e, p),
            Stmt::Expression { expression, .. } => first_in(expression, p),
            Stmt::If { test, .. } => first_in(test, p),
            Stmt::Switch { discriminant, .. } => first_in(discriminant, p),
            Stmt::VarDecl { declarators, .. } => first_in_declarators(declarators@, p, 0),
            _ => None,
        };
        match here {
            Some(found) => Some(found),
            None => first_in_body(ss, p, i + 1),
        }
    }
}

/// The nodes the searches look for.
#[derive(Debug, Clone, Copy, PartialEq, Eq, Structural)]
pub enum CallKind {
    /// `Effect.<async constructor>(...)`: `promise`, `tryPromise`, `async`,
    /// `sleep`, `delay`, `never`.
    AsyncConstructor,
    /// `JSON.stringify(...)`.
    JsonStringify,
    /// A promise chain: a `.then` / `.catch` / `.finally` call, or `new Promise(...)`.
    PromiseChain,
    /// `Promise.all` / `Promise.allSettled` / `Promise.race` / `Promise.any`.
    PromiseCombinator,
    /// A call of the global `fetch`.
    FetchCall,
    /// `Effect.flatMap(...)` / `Effect.andThen(...)`.
    Sequencing,
}

/// The Effect constructors whose effect can suspend.
pub open spec fn is_async_constructor_spec(prop: Seq<char>) -> bool {
    ||| prop == "promise"@
    ||| prop == "tryPromise"@
    ||| prop == "async"@
    ||| prop == "sleep"@
    ||| prop == "delay"@
    ||| prop == "never"@
}

/// Is `prop` an Effect constructor whose effect can suspend?
pub fn is_async_constructor(prop: &str) -> (found: bool)
    ensures
        found == is_async_constructor_spec(prop@),
{
    str_eq(prop, "promise") || str_eq(prop, "tryPromise") || str_eq(prop, "async") || str_eq(prop, "sleep") || str_eq(prop, "delay")
        || str_eq(prop, "never")
}

/// `JSON.stringify(...)`, parentheses around `JSON` allowed.
pub open spec fn is_json_stringify_spec(call: CallExpr) -> bool {
    match static_member_spec(call.callee) {
        Some((object, prop)) => prop == "stringify"@ && ident_name_spec(unwrap_parens_spec(object)) == Some("JSON"@),
        None => false,
    }
}

/// Is the call `JSON.stringify(...)`?
pub fn is_json_stringify(call: &CallExpr) -> (found: bool)
    ensures
        found == is_json_stringify_spec(*call),
{
    match static_member(&call.callee) {
        Some((object, prop)) => str_eq(prop, "stringify") && match ident_name(unwrap_parens(object)) {
            Some(name) => str_eq(name, "JSON"),
            None => false,
        },
        None => false,
    }
}

/// The `Promise` combinators.
pub open spec fn is_promise_combinator_spec(prop: Seq<char>) -> bool {
    prop == "all"@ || prop == "allSettled"@ || prop == "race"@ || prop == "any"@
}

/// Is `prop` a `Promise` combinator?
pub fn is_promise_combinator(prop: &str) -> (found: bool)
    ensures
        found == is_promise_combinator_spec(prop@),
{
    str_eq(prop, "all") || str_eq(prop, "allSettled") || str_eq(prop, "race") || str_eq(prop, "any")
}

/// Does the node match the kind?
pub open spec fn node_matches_spec(kind: CallKind, bindings: Map<Seq<char>, Seq<char>>, is_new: bool, call: CallExpr) -> bool {
    match kind {
        CallKind::AsyncConstructor => !is_new && match call_module_prop_spec(call, bindings) {
            Some((module, prop)) => module == "Effect"@ && is_async_constructor_spec(prop),
            None => false,
        },
        CallKind::JsonStringify => !is_new && is_json_stringify_spec(call),
        CallKind::PromiseChain => if is_new {
            ident_name_spec(call.callee) == Some("Promise"@)
        } else {
            match static_member_spec(call.callee) {
                Some((_, prop)) => prop == "then"@ || prop == "catch"@ || prop == "finally"@,
                None => false,
            }
        },
        CallKind::PromiseCombinator => !is_new && match static_member_spec(call.callee) {
            Some((object, prop)) => ident_name_spec(object) == Some("Promise"@) && is_promise_combinator_spec(prop),
            None => false,
        },
        CallKind::FetchCall => !is_new && ident_name_spec(call.callee) == Some("fetch"@),
        CallKind::Sequencing => !is_new && (call_module_prop_spec(call, bindings) == Some(("Effect"@, "flatMap"@))
            || call_module_prop_spec(call, bindings) == Some(("Effect"@, "andThen"@))),
    }
}

/// The predicate of a kind.
pub open spec fn kind_pred(kind: CallKind, bindings: Map<Seq<char>, Seq<char>>) -> spec_fn(bool, CallExpr) -> bool {
    |is_new: bool, call: CallExpr| node_matches_spec(kind, bindings, is_new, call)
}

/// Does the node match the kind?
pub fn node_matches(kind: CallKind, imports: &EffectImports, is_new: bool, call: &CallExpr) -> (found: bool)
    ensures
        found == node_matches_spec(kind, imports.bindings(), is_new, *call),
{
    match kind {
        CallKind::AsyncConstructor => !is_new && match call_module_prop(call, imports) {
            Some((module, prop)) => str_eq(module, "Effect") && is_async_constructor(prop),
            None => false,
        },
        CallKind::JsonStringify => !is_new && is_json_stringify(call),
        CallKind::PromiseChain => if is_new {
            match ident_name(&call.callee) {
                Some(name) => str_eq(name, "Promise"),
                None => false,
            }
        } else {
            match static_member(&call.callee) {
                Some((_, prop)) => str_eq(prop, "then") || str_eq(prop, "catch") || str_eq(prop, "finally"),
                None => false,
            }
        },
        CallKind::PromiseCombinator => !is_new && match static_member(&call.callee) {
            Some((object, prop)) => match ident_name(object) {
                Some(name) => str_eq(name, "Promise") && is_promise_combinator(prop),
                None => false,
            },
            None => false,
        },
        CallKind::FetchCall => !is_new && match ident_name(&call.callee) {
            Some(name) => str_eq(name, "fetch"),
            None => false,
        },
        CallKind::Sequencing => !is_new && match call_module_prop(call, imports) {
            Some((module, prop)) => str_eq(module, "Effect") && (str_eq(prop, "flatMap") || str_eq(prop, "andThen")),
            None => false,
        },
    }
}

/// The first node of the kind in `e` (see [`first_in`]).
pub fn find_in<'b>(e: &'b Expr, kind: CallKind, imports: &EffectImports) -> (found: Option<&'b CallExpr>)
    ensures
        match found {
            Some(c) => first_in(*e, kind_pred(kind, imports.bindings())) == Some(*c),
            None => first_in(*e, kind_pred(kind, imports.bindings())) is None,
        },
    decreases e, 0int,
{
    match e {
        Expr::Call(c) => {
            if node_matches(kind, imports, false, &**c) {
                return Some(&**c);
            }
            match find_in(&c.callee, kind, imports) {
                Some(found) => Some(found),
                None => find_in_list(&c.arguments, 0, kind, imports),
            }
        },
        Expr::New(c) => {
            if node_matches(kind, imports, true, &**c) {
                return Some(&**c);
            }
            match find_in(&c.callee, kind, imports) {
                Some(found) => Some(found),
                None => find_in_list(&c.arguments, 0, kind, imports),
            }
        },
        Expr::Member { object, .. } => find_in(&**object, kind, imports),
        Expr::Paren { expression, .. } => find_in(&**expression, kind, imports),
        Expr::Unary { argument, .. } => find_in(&**argument, kind, imports),
        Expr::Spread { argument, .. } => find_in(&**argument, kind, imports),
        Expr::Yield { argument, .. } => match argument {
            Some(a) => find_in(&**a, kind, imports),
            None => None,
        },
        Expr::Binary { left, right, .. } => match find_in(&**left, kind, imports) {
            Some(found) => Some(found),
            None => find_in(&**right, kind, imports),
        },
        Expr::Conditional { test, consequent, alternate, .. } => match find_in(&**test, kind, imports) {
            Some(found) => Some(found),
            None => match find_in(&**consequent, kind, imports) {
                Some(found) => Some(found),
                None => find_in(&**alternate, kind, imports),
            },
        },
        Expr::Template { expressions, .. } => find_in_list(expressions, 0, kind, imports),
        Expr::Array { elements, .. } => find_in_list(elements, 0, kind, imports),
        Expr::Object { properties, .. } => find_in_properties(properties, 0, kind, imports),
        Expr::Function(f) => find_in_body(&f.body, 0, kind, imports),
        _ => None,
    }
}

/// The first node of the kind in `es[i..]`.
pub fn find_in_list<'b>(es: &'b Vec<Expr>, i: usize, kind: CallKind, imports: &EffectImports) -> (found: Option<&'b CallExpr>)
    ensures
        match found {
            Some(c) => first_in_list(es@, kind_pred(kind, imports.bindings()), i as int) == Some(*c),
            None => first_in_list(es@, kind_pred(kind, imports.bindings()), i as int) is None,
        },
    decreases es@, es@.len() - i,
{
    if i >= es.len() {
        return None;
    }
    match find_in(&es[i], kind, imports) {
        Some(found) => Some(found),
        None => find_in_list(es, i + 1, kind, imports),
    }
}

/// The first node of the kind in the values of `ps[i..]`.
pub fn find_in_properties<'b>(ps: &'b Vec<Property>, i: usize, kind: CallKind, imports: &EffectImports) -> (found: Option<&'b CallExpr>)
    ensures
        match found {
            Some(c) => first_in_properties(ps@, kind_pred(kind, imports.bindings()), i as int) == Some(*c),
            None => first_in_properties(ps@, kind_pred(kind, imports.bindings()), i as int) is None,
        },
    decreases ps@, ps@.len() - i,
{
    if i >= ps.len() {
        return None;
    }
    match find_in(&ps[i].value, kind, imports) {
        Some(found) => Some(found),
        None => find_in_properties(ps, i + 1, kind, imports),
    }
}

/// The first node of the kind in the initializers of `ds[i..]`.
pub fn find_in_declarators<'b>(ds: &'b Vec<Declarator>, i: usize, kind: CallKind, imports: &EffectImports) -> (found: Option<&'b CallExpr>)
    ensures
        match found {
            Some(c) => first_in_declarators(ds@, kind_pred(kind, imports.bindings()), i as int) == Some(*c),
            None => first_in_declarators(ds@, kind_pred(kind, imports.bindings()), i as int) is None,
        },
    decreases ds@, ds@.len() - i,
{
    if i >= ds.len() {
        return None;
    }
    let here = match &ds[i].init {
        Some(e) => find_in(e, kind, imports),
        None => None,
    };
    match here {
        Some(found) => Some(found),
        None => find_in_declarators(ds, i + 1, kind, imports),
    }
}

/// The first node of the kind in the statements `ss[i..]`.
pub fn find_in_body<'b>(ss: &'b Vec<Stmt>, i: usize, kind: CallKind, imports: &EffectImports) -> (found: Option<&'b CallExpr>)
    ensures
        match found {
            Some(c) => first_in_body(ss@, kind_pred(kind, imports.bindings()), i as int) == Some(*c),
            None => first_in_body(ss@, kind_pred(kind, imports.bindings()), i as int) is None,
        },
    decreases ss@, ss@.len() - i,
{
    if i >= ss.len() {
        return None;
    }
    let here = match &ss[i] {
        Stmt::Return { argument: Some(e), .. } => find_in(e, kind, imports),
        Stmt::Expression { expression, .. } => find_in(expression, kind, imports),
        Stmt::If { test, .. } => find_in(test, kind, imports),
        Stmt::Switch { discriminant, .. } => find_in(discriminant, kind, imports),
        Stmt::VarDecl { declarators, .. } => find_in_declarators(declarators, 0, kind, imports),
        _ => None,
    };
    match here {
        Some(found) => Some(found),
        None => find_in_body(ss, i + 1, kind, imports),
    }
}

} // verus!
