//! `prefer-effect-void`, `prefer-as-void`, `prefer-flatmap-over-map-flatten`
//! and `no-unnecessary-pipe`.
use vstd::prelude::*;

use crate::ast::{CallExpr, Expr};
use crate::diagnostics::{Category, RuleMeta, Severity};
use crate::matchers::{
    arrow_body_expression, arrow_body_spec, call_module_prop, call_module_prop_spec, is_undefined_expr, is_undefined_spec,
    member_module_prop, module_prop_spec, static_member, static_member_spec,
};
use crate::rules::literal_idioms::expression_args;
use crate::rules::{none, one, FileCtx, Finding};
use crate::text::{owned, str_eq};

verus! {

/// Catalog metadata of `prefer-effect-void`.
#[verifier::allow_in_spec]
pub fn prefer_effect_void_meta() -> RuleMeta
    returns
        (RuleMeta {
            id: "prefer-effect-void",
            severity: Severity::Info,
            category: Category::Idiomatic,
            help: "`Effect.succeed(undefined)` allocates a new effect for a constant — `Effect.void` is the canonical shared instance.",
        }),
{
    RuleMeta {
        id: "prefer-effect-void",
        severity: Severity::Info,
        category: Category::Idiomatic,
        help: "`Effect.succeed(undefined)` allocates a new effect for a constant — `Effect.void` is the canonical shared instance.",
    }
}

/// Catalog metadata of `prefer-as-void`.
#[verifier::allow_in_spec]
pub fn prefer_as_void_meta() -> RuleMeta
    returns
        (RuleMeta {
            id: "prefer-as-void",
            severity: Severity::Info,
            category: Category::Idiomatic,
            help: "Mapping to a constant has dedicated combinators: `Effect.asVoid` for undefined, `Effect.as(value)` for constants — clearer intent, no closure.",
        }),
{
    RuleMeta {
        id: "prefer-as-void",
        severity: Severity::Info,
        category: Category::Idiomatic,
        help: "Mapping to a constant has dedicated combinators: `Effect.asVoid` for undefined, `Effect.as(value)` for constants — clearer intent, no closure.",
    }
}

/// Catalog metadata of `prefer-flatmap-over-map-flatten`.
#[verifier::allow_in_spec]
pub fn prefer_flatmap_meta() -> RuleMeta
    returns
        (RuleMeta {
            id: "prefer-flatmap-over-map-flatten",
            severity: Severity::Info,
            category: Category::Idiomatic,
            help: "`Effect.map` followed by `Effect.flatten` is exactly `Effect.flatMap`.",
        }),
{
    RuleMeta {
        id: "prefer-flatmap-over-map-flatten",
        severity: Severity::Info,
        category: Category::Idiomatic,
        help: "`Effect.map` followed by `Effect.flatten` is exactly `Effect.flatMap`.",
    }
}

/// Catalog metadata of `no-unnecessary-pipe`.
#[verifier::allow_in_spec]
pub fn no_unnecessary_pipe_meta() -> RuleMeta
    returns
        (RuleMeta {
            id: "no-unnecessary-pipe",
            severity: Severity::Info,
            category: Category::Idiomatic,
            help: "`.pipe()` with no arguments does nothing — remove it.",
        }),
{
    RuleMeta {
        id: "no-unnecessary-pipe",
        severity: Severity::Info,
        category: Category::Idiomatic,
        help: "`.pipe()` with no arguments does nothing — remove it.",
    }
}

/// A string, number, boolean or `null` literal.
pub open spec fn is_constant_literal_spec(e: Expr) -> bool {
    match e {
        Expr::Str { .. } => true,
        Expr::Number { .. } => true,
        Expr::Bool { .. } => true,
        Expr::Null { .. } => true,
        _ => false,
    }
}

/// Is the expression a constant literal?
pub fn is_constant_literal(e: &Expr) -> (found: bool)
    ensures
        found == is_constant_literal_spec(*e),
{
    match e {
        Expr::Str { .. } => true,
        Expr::Number { .. } => true,
        Expr::Bool { .. } => true,
        Expr::Null { .. } => true,
        _ => false,
    }
}

/// `Effect.succeed(undefined)`.
pub open spec fn succeed_undefined_findings(bindings: Map<Seq<char>, Seq<char>>, call: CallExpr) -> Seq<Finding> {
    if call_module_prop_spec(call, bindings) == Some(("Effect"@, "succeed"@)) && call.arguments@.len() > 0
        && !(call.arguments@[0] is Spread) && is_undefined_spec(call.arguments@[0]) {
        one(prefer_effect_void_meta(), call.span, "Effect.succeed(undefined) — use Effect.void"@)
    } else {
        none()
    }
}

/// `Effect.map(..., () => undefined)` / `Effect.map(..., () => <literal>)`,
/// with the arrow as the last expression argument.
pub open spec fn map_to_constant_findings(bindings: Map<Seq<char>, Seq<char>>, call: CallExpr) -> Seq<Finding> {
    let args = expression_args(call.arguments@);
    if call_module_prop_spec(call, bindings) == Some(("Effect"@, "map"@)) && args.len() > 0 {
        match args.last() {
            Expr::Function(f) => if f.is_arrow && f.param_count == 0 {
                match arrow_body_spec(*f) {
                    Some(body) => if is_undefined_spec(body) {
                        one(prefer_as_void_meta(), call.span, "Effect.map(() => undefined) — use Effect.asVoid"@)
                    } else if is_constant_literal_spec(body) {
                        one(prefer_as_void_meta(), call.span, "Effect.map(() => constant) — use Effect.as(constant)"@)
                    } else {
                        none()
                    },
                    None => none(),
                }
            } else {
                none()
            },
            _ => none(),
        }
    } else {
        none()
    }
}

/// `Effect.map(...)`.
pub open spec fn is_effect_map(e: Expr, bindings: Map<Seq<char>, Seq<char>>) -> bool {
    match e {
        Expr::Call(inner) => call_module_prop_spec(*inner, bindings) == Some(("Effect"@, "map"@)),
        _ => false,
    }
}

/// `Effect.flatten` as a value.
pub open spec fn is_effect_flatten(e: Expr, bindings: Map<Seq<char>, Seq<char>>) -> bool {
    match e {
        Expr::Member { object, property, .. } => module_prop_spec(*object, property@, bindings) == Some(("Effect"@, "flatten"@)),
        _ => false,
    }
}

/// One finding per adjacent `Effect.map(f), Effect.flatten` pair among the
/// first `n` arguments of a pipe.
pub open spec fn pipe_pair_findings(args: Seq<Expr>, bindings: Map<Seq<char>, Seq<char>>, span: crate::diagnostics::Span, n: int) -> Seq<Finding>
    decreases n,
{
    if n < 2 || n > args.len() {
        none()
    } else {
        pipe_pair_findings(args, bindings, span, n - 1) + if is_effect_map(args[n - 2], bindings) && is_effect_flatten(args[n - 1], bindings) {
            one(prefer_flatmap_meta(), span, "pipe(Effect.map(f), Effect.flatten) — use Effect.flatMap(f)"@)
        } else {
            none()
        }
    }
}

/// `Effect.flatten(Effect.map(...))`, or adjacent `Effect.map(f),
/// Effect.flatten` arguments of a `.pipe(...)`.
pub open spec fn map_flatten_findings(bindings: Map<Seq<char>, Seq<char>>, call: CallExpr) -> Seq<Finding> {
    if call_module_prop_spec(call, bindings) == Some(("Effect"@, "flatten"@)) {
        if call.arguments@.len() > 0 && is_effect_map(call.arguments@[0], bindings) {
            one(prefer_flatmap_meta(), call.span, "Effect.flatten(Effect.map(...)) — use Effect.flatMap"@)
        } else {
            none()
        }
    } else {
        match static_member_spec(call.callee) {
            Some((_, prop)) => if prop == "pipe"@ {
                pipe_pair_findings(call.arguments@, bindings, call.span, call.arguments@.len() as int)
            } else {
                none()
            },
            None => none(),
        }
    }
}

/// `.pipe()` with no arguments.
pub open spec fn empty_pipe_findings(call: CallExpr) -> Seq<Finding> {
    match static_member_spec(call.callee) {
        Some((_, prop)) => if prop == "pipe"@ && call.arguments@.len() == 0 {
            one(no_unnecessary_pipe_meta(), call.span, "`.pipe()` with no arguments — remove it"@)
        } else {
            none()
        },
        None => none(),
    }
}

/// The four checks, in order.
pub open spec fn idiom_shortcuts_findings(bindings: Map<Seq<char>, Seq<char>>, call: CallExpr) -> Seq<Finding> {
    succeed_undefined_findings(bindings, call) + map_to_constant_findings(bindings, call) + map_flatten_findings(bindings, call)
        + empty_pipe_findings(call)
}

fn is_effect_call(e: &Expr, imports: &crate::effect_imports::EffectImports, prop: &str) -> (found: bool)
    ensures
        found == (match *e {
            Expr::Call(inner) => call_module_prop_spec(*inner, imports.bindings()) == Some(("Effect"@, prop@)),
            _ => false,
        }),
{
    match e {
        Expr::Call(inner) => match call_module_prop(&**inner, imports) {
            Some((m, p)) => str_eq(m, "Effect") && str_eq(p, prop),
            None => false,
        },
        _ => false,
    }
}

fn last_expression_arg(args: &Vec<Expr>) -> (last: Option<&Expr>)
    ensures
        match last {
            Some(e) => expression_args(args@).len() > 0 && expression_args(args@).last() == *e,
            None => expression_args(args@).len() == 0,
        },
{
    let mut n: usize = args.len();
    assert(args@.take(n as int) =~= args@);
    while n > 0
        invariant
            n <= args@.len(),
            expression_args(args@) == expression_args(args@.take(n as int)),
        decreases n,
    {
        assert(args@.take(n as int).drop_last() =~= args@.take(n - 1));
        match &args[n - 1] {
            Expr::Spread { .. } => {},
            e => {
                return Some(e);
            },
        }
        n -= 1;
    }
    assert(args@.take(0).len() == 0);
    None
}

pub struct IdiomShortcuts;

impl IdiomShortcuts {
    /// The rule ids this rule owns.
    pub fn metas(&self) -> (metas: Vec<RuleMeta>)
        ensures
            metas@ == seq![prefer_effect_void_meta(), prefer_as_void_meta(), prefer_flatmap_meta(), no_unnecessary_pipe_meta()],
    {
        let mut metas: Vec<RuleMeta> = Vec::new();
        metas.push(prefer_effect_void_meta());
        metas.push(prefer_as_void_meta());
        metas.push(prefer_flatmap_meta());
        metas.push(no_unnecessary_pipe_meta());
        metas
    }

    fn check_succeed_undefined(&self, call: &CallExpr, ctx: &mut FileCtx)
        ensures
            final(ctx).findings() == old(ctx).findings() + succeed_undefined_findings(old(ctx).imports.bindings(), *call),
            final(ctx).same_walk(old(ctx)),
    {
        let succeed = match call_module_prop(call, &ctx.imports) {
            Some((m, p)) => str_eq(m, "Effect") && str_eq(p, "succeed"),
            None => false,
        };
        let hit = succeed && call.arguments.len() > 0 && match &call.arguments[0] {
            Expr::Spread { .. } => false,
            argument => is_undefined_expr(argument),
        };
        if !hit {
            assert(old(ctx).findings() + none() =~= old(ctx).findings());
            return;
        }
        ctx.report(prefer_effect_void_meta(), call.span, owned("Effect.succeed(undefined) — use Effect.void"));
        assert(old(ctx).findings() + succeed_undefined_findings(old(ctx).imports.bindings(), *call) =~= ctx.findings());
    }

    fn check_map_to_constant(&self, call: &CallExpr, ctx: &mut FileCtx)
        ensures
            final(ctx).findings() == old(ctx).findings() + map_to_constant_findings(old(ctx).imports.bindings(), *call),
            final(ctx).same_walk(old(ctx)),
    {
        let is_map = match call_module_prop(call, &ctx.imports) {
            Some((m, p)) => str_eq(m, "Effect") && str_eq(p, "map"),
            None => false,
        };
        if !is_map {
            assert(old(ctx).findings() + none() =~= old(ctx).findings());
            return;
        }
        let body = match last_expression_arg(&call.arguments) {
            Some(Expr::Function(f)) => {
                if !f.is_arrow || f.param_count != 0 {
                    assert(old(ctx).findings() + none() =~= old(ctx).findings());
                    return;
                }
                arrow_body_expression(&**f)
            },
            _ => {
                assert(old(ctx).findings() + none() =~= old(ctx).findings());
                return;
            },
        };
        match body {
            Some(body) => {
                if is_undefined_expr(body) {
                    ctx.report(prefer_as_void_meta(), call.span, owned("Effect.map(() => undefined) — use Effect.asVoid"));
                    assert(old(ctx).findings() + map_to_constant_findings(old(ctx).imports.bindings(), *call) =~= ctx.findings());
                } else if is_constant_literal(body) {
                    ctx.report(prefer_as_void_meta(), call.span, owned("Effect.map(() => constant) — use Effect.as(constant)"));
                    assert(old(ctx).findings() + map_to_constant_findings(old(ctx).imports.bindings(), *call) =~= ctx.findings());
                } else {
                    assert(old(ctx).findings() + none() =~= old(ctx).findings());
                }
            },
            None => {
                assert(old(ctx).findings() + none() =~= old(ctx).findings());
            },
        }
    }

    fn check_map_flatten(&self, call: &CallExpr, ctx: &mut FileCtx)
        ensures
            final(ctx).findings() == old(ctx).findings() + map_flatten_findings(old(ctx).imports.bindings(), *call),
            final(ctx).same_walk(old(ctx)),
    {
        let is_flatten = match call_module_prop(call, &ctx.imports) {
            Some((m, p)) => str_eq(m, "Effect") && str_eq(p, "flatten"),
            None => false,
        };
        if is_flatten {
            if call.arguments.len() > 0 && is_effect_call(&call.arguments[0], &ctx.imports, "map") {
                ctx.report(prefer_flatmap_meta(), call.span, owned("Effect.flatten(Effect.map(...)) — use Effect.flatMap"));
                assert(old(ctx).findings() + map_flatten_findings(old(ctx).imports.bindings(), *call) =~= ctx.findings());
            } else {
                assert(old(ctx).findings() + none() =~= old(ctx).findings());
            }
            return;
        }
        let is_pipe = match static_member(&call.callee) {
            Some((_, prop)) => str_eq(prop, "pipe"),
            None => false,
        };
        if !is_pipe {
            assert(old(ctx).findings() + none() =~= old(ctx).findings());
            return;
        }
        let ghost bindings = ctx.imports.bindings();
        let ghost start = ctx.findings();
        if call.arguments.len() < 2 {
            assert(start + pipe_pair_findings(call.arguments@, bindings, call.span, call.arguments@.len() as int) =~= start);
            return;
        }
        assert(start + pipe_pair_findings(call.arguments@, bindings, call.span, 1) =~= start);
        let mut i: usize = 1;
        while i < call.arguments.len()
            invariant
                1 <= i <= call.arguments@.len(),
                bindings == ctx.imports.bindings(),
                ctx.findings() == start + pipe_pair_findings(call.arguments@, bindings, call.span, i as int),
                ctx.same_walk(old(ctx)),
            decreases call.arguments@.len() - i,
        {
            let first_is_map = is_effect_call(&call.arguments[i - 1], &ctx.imports, "map");
            let second_is_flatten = match &call.arguments[i] {
                Expr::Member { object, property, .. } => match member_module_prop(&**object, property.as_str(), &ctx.imports) {
                    Some((m, p)) => str_eq(m, "Effect") && str_eq(p, "flatten"),
                    None => false,
                },
                _ => false,
            };
            if first_is_map && second_is_flatten {
                ctx.report(prefer_flatmap_meta(), call.span, owned("pipe(Effect.map(f), Effect.flatten) — use Effect.flatMap(f)"));
            }
            assert(ctx.findings() =~= start + pipe_pair_findings(call.arguments@, bindings, call.span, i + 1));
            i += 1;
        }
    }

    fn check_empty_pipe(&self, call: &CallExpr, ctx: &mut FileCtx)
        ensures
            final(ctx).findings() == old(ctx).findings() + empty_pipe_findings(*call),
            final(ctx).same_walk(old(ctx)),
    {
        let is_pipe = match static_member(&call.callee) {
            Some((_, prop)) => str_eq(prop, "pipe"),
            None => false,
        };
        if !is_pipe || call.arguments.len() != 0 {
            assert(old(ctx).findings() + none() =~= old(ctx).findings());
            return;
        }
        ctx.report(no_unnecessary_pipe_meta(), call.span, owned("`.pipe()` with no arguments — remove it"));
        assert(old(ctx).findings() + empty_pipe_findings(*call) =~= ctx.findings());
    }

    /// A call expression.
    pub fn on_call(&self, call: &CallExpr, ctx: &mut FileCtx)
        ensures
            final(ctx).findings() == old(ctx).findings() + idiom_shortcuts_findings(old(ctx).imports.bindings(), *call),
            final(ctx).same_walk(old(ctx)),
    {
        self.check_succeed_undefined(call, ctx);
        self.check_map_to_constant(call, ctx);
        self.check_map_flatten(call, ctx);
        self.check_empty_pipe(call, ctx);
        assert(old(ctx).findings() + idiom_shortcuts_findings(old(ctx).imports.bindings(), *call) =~= ctx.findings());
    }
}

} // verus!
