//! Shape matchers shared by the rules: member access, effect-module calls,
//! Effect generators.
use vstd::prelude::*;

use crate::ast::{CallExpr, Expr, FunctionExpr, Stmt};
use crate::effect_imports::EffectImports;
use crate::text::str_eq;

verus! {

/// `<object>.<name>` with a static property: the object and the name.
pub open spec fn static_member_spec(e: Expr) -> Option<(Expr, Seq<char>)> {
    match e {
        Expr::Member { object, property, .. } => Some((*object, property@)),
        _ => None,
    }
}

/// The name of an identifier reference.
pub open spec fn ident_name_spec(e: Expr) -> Option<Seq<char>> {
    match e {
        Expr::Ident { name, .. } => Some(name@),
        _ => None,
    }
}

/// `<binding>.<property>` where the binding is an effect import: the module
/// the binding names and the property.
pub open spec fn module_prop_spec(object: Expr, property: Seq<char>, bindings: Map<Seq<char>, Seq<char>>) -> Option<(Seq<char>, Seq<char>)> {
    match ident_name_spec(object) {
        Some(name) => if bindings.contains_key(name) {
            Some((bindings[name], property))
        } else {
            None
        },
        None => None,
    }
}

/// A call of `<binding>.<property>(...)` with an effect binding.
pub open spec fn call_module_prop_spec(call: CallExpr, bindings: Map<Seq<char>, Seq<char>>) -> Option<(Seq<char>, Seq<char>)> {
    match static_member_spec(call.callee) {
        Some((object, property)) => module_prop_spec(object, property, bindings),
        None => None,
    }
}

/// A call of `<EffectBinding>.<property>(...)`: the property.
pub open spec fn effect_member_prop_spec(call: CallExpr, bindings: Map<Seq<char>, Seq<char>>) -> Option<Seq<char>> {
    match call_module_prop_spec(call, bindings) {
        Some((module, property)) => if module == "Effect"@ {
            Some(property)
        } else {
            None
        },
        None => None,
    }
}

/// `undefined` or a `void` expression.
pub open spec fn is_undefined_spec(e: Expr) -> bool {
    match e {
        Expr::Ident { name, .. } => name@ == "undefined"@,
        Expr::Unary { operator, .. } => operator@ == "void"@,
        _ => false,
    }
}

/// `e` with its parenthesized-expression wrappers removed.
pub open spec fn unwrap_parens_spec(e: Expr) -> Expr
    decreases e,
{
    match e {
        Expr::Paren { expression, .. } => unwrap_parens_spec(*expression),
        _ => e,
    }
}

/// The expression body of a concise arrow, parentheses removed.
pub open spec fn arrow_body_spec(f: FunctionExpr) -> Option<Expr> {
    if !f.expression || f.body@.len() == 0 {
        None
    } else {
        match f.body@[0] {
            Stmt::Expression { expression, .. } => Some(unwrap_parens_spec(expression)),
            _ => None,
        }
    }
}

/// A function or arrow function expression.
pub open spec fn is_function_expr(e: Expr) -> bool {
    e is Function
}

/// The position of the first function-like argument of a call.
pub open spec fn first_function_index(args: Seq<Expr>) -> Option<int> {
    if exists|i: int| 0 <= i < args.len() && is_function_expr(#[trigger] args[i]) {
        let i = choose|i: int| 0 <= i < args.len() && is_function_expr(#[trigger] args[i])
            && forall|j: int| 0 <= j < i ==> !is_function_expr(#[trigger] args[j]);
        Some(i)
    } else {
        None
    }
}

/// `gen`, `fn` or `fnUntraced`: the Effect constructors that take a generator.
pub open spec fn is_gen_like_spec(property: Seq<char>) -> bool {
    property == "gen"@ || property == "fn"@ || property == "fnUntraced"@
}

/// The generator function arguments of a call, in order.
pub open spec fn generator_args_spec(args: Seq<Expr>) -> Seq<FunctionExpr>
    decreases args.len(),
{
    if args.len() == 0 {
        Seq::empty()
    } else {
        let prior = generator_args_spec(args.drop_last());
        match args.last() {
            Expr::Function(f) => if f.generator && !f.is_arrow {
                prior.push(*f)
            } else {
                prior
            },
            _ => prior,
        }
    }
}

/// The generators a call runs as Effect generators: the generator arguments
/// of `Effect.gen(...)` / `Effect.fn(...)` / `Effect.fnUntraced(...)` and of
/// the curried `Effect.fn("name")(...)`.
pub open spec fn effect_gen_generators_spec(call: CallExpr, bindings: Map<Seq<char>, Seq<char>>) -> Seq<FunctionExpr> {
    let direct = match effect_member_prop_spec(call, bindings) {
        Some(property) => is_gen_like_spec(property),
        None => false,
    };
    let curried = match call.callee {
        Expr::Call(inner) => match effect_member_prop_spec(*inner, bindings) {
            Some(property) => is_gen_like_spec(property),
            None => false,
        },
        _ => false,
    };
    if direct || curried {
        generator_args_spec(call.arguments@)
    } else {
        Seq::empty()
    }
}

/// The first generator argument of a direct `Effect.gen(...)` call.
pub open spec fn direct_effect_gen_spec(call: CallExpr, bindings: Map<Seq<char>, Seq<char>>) -> Option<FunctionExpr> {
    if effect_member_prop_spec(call, bindings) == Some("gen"@) && generator_args_spec(call.arguments@).len() > 0 {
        Some(generator_args_spec(call.arguments@)[0])
    } else {
        None
    }
}

/// `<object>.<name>` with a static property.
pub fn static_member(e: &Expr) -> (found: Option<(&Expr, &str)>)
    ensures
        match found {
            Some((object, property)) => static_member_spec(*e) == Some((*object, property@)),
            None => static_member_spec(*e) is None,
        },
{
    match e {
        Expr::Member { object, property, .. } => Some((&**object, property.as_str())),
        _ => None,
    }
}

/// The name of an identifier reference.
pub fn ident_name(e: &Expr) -> (name: Option<&str>)
    ensures
        match name {
            Some(n) => ident_name_spec(*e) == Some(n@),
            None => ident_name_spec(*e) is None,
        },
{
    match e {
        Expr::Ident { name, .. } => Some(name.as_str()),
        _ => None,
    }
}

/// `<binding>.<property>` where the binding is an effect import: the
/// canonical module name and the property.
pub fn member_module_prop<'b>(object: &'b Expr, property: &'b str, imports: &'b EffectImports) -> (found: Option<(&'b str, &'b str)>)
    ensures
        match found {
            Some((module, prop)) => module_prop_spec(*object, property@, imports.bindings()) == Some((module@, prop@)),
            None => module_prop_spec(*object, property@, imports.bindings()) is None,
        },
{
    let name = match ident_name(object) {
        Some(name) => name,
        None => return None,
    };
    match imports.module_of(name) {
        Some(module) => Some((module, property)),
        None => None,
    }
}

/// A call of `<binding>.<property>(...)` with the binding imported from
/// effect: the canonical module name and the property.
pub fn call_module_prop<'b>(call: &'b CallExpr, imports: &'b EffectImports) -> (found: Option<(&'b str, &'b str)>)
    ensures
        match found {
            Some((module, prop)) => call_module_prop_spec(*call, imports.bindings()) == Some((module@, prop@)),
            None => call_module_prop_spec(*call, imports.bindings()) is None,
        },
{
    match static_member(&call.callee) {
        Some((object, property)) => member_module_prop(object, property, imports),
        None => None,
    }
}

/// A call of `<EffectBinding>.<property>(...)`: the property.
pub fn effect_member_prop<'b>(call: &'b CallExpr, imports: &'b EffectImports) -> (found: Option<&'b str>)
    ensures
        match found {
            Some(prop) => effect_member_prop_spec(*call, imports.bindings()) == Some(prop@),
            None => effect_member_prop_spec(*call, imports.bindings()) is None,
        },
{
    match call_module_prop(call, imports) {
        Some((module, prop)) => if str_eq(module, "Effect") {
            Some(prop)
        } else {
            None
        },
        None => None,
    }
}

/// `undefined` or `void <expr>`.
pub fn is_undefined_expr(e: &Expr) -> (found: bool)
    ensures
        found == is_undefined_spec(*e),
{
    match e {
        Expr::Ident { name, .. } => str_eq(name.as_str(), "undefined"),
        Expr::Unary { operator, .. } => str_eq(operator.as_str(), "void"),
        _ => false,
    }
}

/// Strip parenthesized-expression wrappers.
pub fn unwrap_parens(e: &Expr) -> (inner: &Expr)
    ensures
        *inner == unwrap_parens_spec(*e),
    decreases e,
{
    match e {
        Expr::Paren { expression, .. } => unwrap_parens(&**expression),
        _ => e,
    }
}

/// The expression body of `() => expr` (concise arrows only), parens stripped.
pub fn arrow_body_expression(f: &FunctionExpr) -> (body: Option<&Expr>)
    ensures
        match body {
            Some(b) => arrow_body_spec(*f) == Some(*b),
            None => arrow_body_spec(*f) is None,
        },
{
    if !f.expression || f.body.len() == 0 {
        return None;
    }
    match &f.body[0] {
        Stmt::Expression { expression, .. } => Some(unwrap_parens(expression)),
        _ => None,
    }
}

/// The first function-like argument of a call (arrow or function expression).
pub fn first_function_arg(call: &CallExpr) -> (found: Option<&Expr>)
    ensures
        match found {
            Some(arg) => exists|i: int| first_function_index(call.arguments@) == Some(i) && call.arguments@[i] == *arg,
            None => first_function_index(call.arguments@) is None,
        },
{
    let mut i: usize = 0;
    while i < call.arguments.len()
        invariant
            i <= call.arguments@.len(),
            forall|j: int| 0 <= j < i ==> !is_function_expr(#[trigger] call.arguments@[j]),
        decreases call.arguments@.len() - i,
    {
        if let Expr::Function(_) = &call.arguments[i] {
            proof {
                let args = call.arguments@;
                assert(is_function_expr(args[i as int]));
                let k = choose|k: int| 0 <= k < args.len() && is_function_expr(#[trigger] args[k])
                    && forall|j: int| 0 <= j < k ==> !is_function_expr(#[trigger] args[j]);
                if k < i {
                } else if k > i {
                    assert(!is_function_expr(args[i as int]));
                }
                assert(first_function_index(args) == Some(i as int));
            }
            return Some(&call.arguments[i]);
        }
        i += 1;
    }
    None
}

/// `gen`, `fn` or `fnUntraced`.
pub fn is_gen_like(property: &str) -> (found: bool)
    ensures
        found == is_gen_like_spec(property@),
{
    str_eq(property, "gen") || str_eq(property, "fn") || str_eq(property, "fnUntraced")
}

/// The generator function arguments of a call, in order.
pub fn generator_args(call: &CallExpr) -> (out: Vec<&FunctionExpr>)
    ensures
        out@.len() == generator_args_spec(call.arguments@).len(),
        forall|k: int| 0 <= k < out@.len() ==> *(#[trigger] out@[k]) == generator_args_spec(call.arguments@)[k],
{
    let mut out: Vec<&FunctionExpr> = Vec::new();
    let mut i: usize = 0;
    while i < call.arguments.len()
        invariant
            i <= call.arguments@.len(),
            out@.len() == generator_args_spec(call.arguments@.take(i as int)).len(),
            forall|k: int| 0 <= k < out@.len() ==> *(#[trigger] out@[k]) == generator_args_spec(call.arguments@.take(i as int))[k],
        decreases call.arguments@.len() - i,
    {
        assert(call.arguments@.take(i + 1).drop_last() =~= call.arguments@.take(i as int));
        if let Expr::Function(f) = &call.arguments[i] {
            if f.generator && !f.is_arrow {
                out.push(&**f);
            }
        }
        i += 1;
    }
    assert(call.arguments@.take(i as int) =~= call.arguments@);
    out
}

/// Generator functions that run as Effect generators:
/// `Effect.gen(function*(){})`, `Effect.fn(function*(){})`,
/// and the curried `Effect.fn("name")(function*(){})`.
pub fn effect_gen_generators<'b>(call: &'b CallExpr, imports: &'b EffectImports) -> (out: Vec<&'b FunctionExpr>)
    ensures
        out@.len() == effect_gen_generators_spec(*call, imports.bindings()).len(),
        forall|k: int| 0 <= k < out@.len() ==> *(#[trigger] out@[k]) == effect_gen_generators_spec(*call, imports.bindings())[k],
{
    let direct = match effect_member_prop(call, imports) {
        Some(property) => is_gen_like(property),
        None => false,
    };
    let curried = match &call.callee {
        Expr::Call(inner) => match effect_member_prop(&**inner, imports) {
            Some(property) => is_gen_like(property),
            None => false,
        },
        _ => false,
    };
    if direct || curried {
        generator_args(call)
    } else {
        Vec::new()
    }
}

/// The generator argument of a direct `Effect.gen(...)` call only.
pub fn direct_effect_gen<'b>(call: &'b CallExpr, imports: &'b EffectImports) -> (found: Option<&'b FunctionExpr>)
    ensures
        match found {
            Some(f) => direct_effect_gen_spec(*call, imports.bindings()) == Some(*f),
            None => direct_effect_gen_spec(*call, imports.bindings()) is None,
        },
{
    match effect_member_prop(call, imports) {
        Some(property) => {
            if !str_eq(property, "gen") {
                return None;
            }
        },
        None => return None,
    }
    let generators = generator_args(call);
    if generators.len() == 0 {
        None
    } else {
        Some(generators[0])
    }
}

/// The expression a function hands back: the body of a concise arrow, or the
/// argument of a `return` that ends a block body, parentheses removed.
pub open spec fn function_result_spec(f: FunctionExpr) -> Option<Expr> {
    if f.expression {
        arrow_body_spec(f)
    } else if f.body@.len() > 0 {
        match f.body@.last() {
            Stmt::Return { argument: Some(e), .. } => Some(unwrap_parens_spec(e)),
            _ => None,
        }
    } else {
        None
    }
}

/// The expression a function hands back, if it has one.
pub fn function_result_expression(f: &FunctionExpr) -> (result: Option<&Expr>)
    ensures
        match result {
            Some(r) => function_result_spec(*f) == Some(*r),
            None => function_result_spec(*f) is None,
        },
{
    if f.expression {
        return arrow_body_expression(f);
    }
    let n = f.body.len();
    if n == 0 {
        return None;
    }
    match &f.body[n - 1] {
        Stmt::Return { argument: Some(e), .. } => Some(unwrap_parens(e)),
        _ => None,
    }
}

} // verus!
