//! Generator and pipe shape: `no-nested-gen-yield`, `no-effect-fn-iife`,
//! `no-unnecessary-pipe-chain`, `no-return-effect-in-gen` and
//! `redundant-schema-tag-identifier`.
use vstd::prelude::*;

use crate::ast::{expr_span, span_of, CallExpr, ClassDecl, Expr};
use crate::diagnostics::{Category, RuleMeta, Severity, Span};
use crate::matchers::{
    call_module_prop, call_module_prop_spec, direct_effect_gen, direct_effect_gen_spec, effect_member_prop,
    effect_member_prop_spec, ident_name, ident_name_spec, static_member, static_member_spec, unwrap_parens, unwrap_parens_spec,
};
use crate::rules::equality_idioms::{string_value, string_value_spec};
use crate::rules::{in_effect_gen_spec, none, one, FileCtx, Finding, FrameKind};
use crate::text::{concat3, owned, seq_starts_with, str_eq, str_starts_with};

verus! {

/// Catalog metadata of `no-nested-gen-yield`.
#[verifier::allow_in_spec]
pub fn nested_gen_yield_meta() -> RuleMeta
    returns
        (RuleMeta {
            id: "no-nested-gen-yield",
            severity: Severity::Info,
            category: Category::Idiomatic,
            help: "`yield* Effect.gen(...)` directly inside another generator adds a wrapper for nothing — inline the inner generator's body into the parent.",
        }),
{
    RuleMeta {
        id: "no-nested-gen-yield",
        severity: Severity::Info,
        category: Category::Idiomatic,
        help: "`yield* Effect.gen(...)` directly inside another generator adds a wrapper for nothing — inline the inner generator's body into the parent.",
    }
}

/// Catalog metadata of `no-effect-fn-iife`.
#[verifier::allow_in_spec]
pub fn effect_fn_iife_meta() -> RuleMeta
    returns
        (RuleMeta {
            id: "no-effect-fn-iife",
            severity: Severity::Warn,
            category: Category::Idiomatic,
            help: "Effect.fn(...)() invoked immediately builds a traced function just to call it once — use Effect.gen directly (keep the span with Effect.withSpan).",
        }),
{
    RuleMeta {
        id: "no-effect-fn-iife",
        severity: Severity::Warn,
        category: Category::Idiomatic,
        help: "Effect.fn(...)() invoked immediately builds a traced function just to call it once — use Effect.gen directly (keep the span with Effect.withSpan).",
    }
}

/// Catalog metadata of `no-unnecessary-pipe-chain`.
#[verifier::allow_in_spec]
pub fn pipe_chain_meta() -> RuleMeta
    returns
        (RuleMeta {
            id: "no-unnecessary-pipe-chain",
            severity: Severity::Info,
            category: Category::Idiomatic,
            help: "Chained pipes (`x.pipe(a).pipe(b)` / `pipe(pipe(x, a), b)`) are one pipe — merge the steps.",
        }),
{
    RuleMeta {
        id: "no-unnecessary-pipe-chain",
        severity: Severity::Info,
        category: Category::Idiomatic,
        help: "Chained pipes (`x.pipe(a).pipe(b)` / `pipe(pipe(x, a), b)`) are one pipe — merge the steps.",
    }
}

/// Catalog metadata of `no-return-effect-in-gen`.
#[verifier::allow_in_spec]
pub fn return_effect_in_gen_meta() -> RuleMeta
    returns
        (RuleMeta {
            id: "no-return-effect-in-gen",
            severity: Severity::Info,
            category: Category::Idiomatic,
            help: "Returning a bare Effect from Effect.gen makes the success value an Effect (Effect<Effect<A>>) — usually you want `return yield*` so it actually runs.",
        }),
{
    RuleMeta {
        id: "no-return-effect-in-gen",
        severity: Severity::Info,
        category: Category::Idiomatic,
        help: "Returning a bare Effect from Effect.gen makes the success value an Effect (Effect<Effect<A>>) — usually you want `return yield*` so it actually runs.",
    }
}

/// Catalog metadata of `redundant-schema-tag-identifier`.
#[verifier::allow_in_spec]
pub fn redundant_tag_identifier_meta() -> RuleMeta
    returns
        (RuleMeta {
            id: "redundant-schema-tag-identifier",
            severity: Severity::Info,
            category: Category::Idiomatic,
            help: "The identifier argument defaults to the tag — repeating the same string is noise; drop it.",
        }),
{
    RuleMeta {
        id: "redundant-schema-tag-identifier",
        severity: Severity::Info,
        category: Category::Idiomatic,
        help: "The identifier argument defaults to the tag — repeating the same string is noise; drop it.",
    }
}

/// The `Schema` members that build a tagged class.
pub open spec fn is_tagged_schema_factory_spec(prop: Seq<char>) -> bool {
    ||| prop == "TaggedClass"@
    ||| prop == "TaggedError"@
    ||| prop == "TaggedErrorClass"@
    ||| prop == "TaggedRequest"@
}

/// Is `prop` a tagged `Schema` class factory?
pub fn is_tagged_schema_factory(prop: &str) -> (found: bool)
    ensures
        found == is_tagged_schema_factory_spec(prop@),
{
    str_eq(prop, "TaggedClass") || str_eq(prop, "TaggedError") || str_eq(prop, "TaggedErrorClass") || str_eq(prop, "TaggedRequest")
}

/// `yield* Effect.gen(...)` directly inside an Effect generator is reported.
pub open spec fn nested_gen_yield_findings(
    stack: Seq<FrameKind>,
    bindings: Map<Seq<char>, Seq<char>>,
    delegate: bool,
    argument: Option<Expr>,
    span: Span,
) -> Seq<Finding> {
    if !delegate || !in_effect_gen_spec(stack) {
        none()
    } else {
        match argument {
            Some(a) => match unwrap_parens_spec(a) {
                Expr::Call(call) => if direct_effect_gen_spec(*call, bindings) is Some {
                    one(nested_gen_yield_meta(), span, "yield* Effect.gen(...) inside a generator — inline the inner body"@)
                } else {
                    none()
                },
                _ => none(),
            },
            None => none(),
        }
    }
}

/// A generator function.
pub open spec fn is_generator_fn(e: Expr) -> bool {
    match e {
        Expr::Function(f) => f.generator,
        _ => false,
    }
}

/// Some argument is a generator function.
pub open spec fn has_generator_arg(args: Seq<Expr>) -> bool {
    exists|i: int| 0 <= i < args.len() && is_generator_fn(#[trigger] args[i])
}

/// `Effect.fn(function* ...)(...)` (or `fnUntraced`) called on the spot is
/// reported.
pub open spec fn fn_iife_findings(bindings: Map<Seq<char>, Seq<char>>, call: CallExpr) -> Seq<Finding> {
    match unwrap_parens_spec(call.callee) {
        Expr::Call(inner) => match effect_member_prop_spec(*inner, bindings) {
            Some(prop) => if (prop == "fn"@ || prop == "fnUntraced"@) && has_generator_arg(inner.arguments@) {
                one(effect_fn_iife_meta(), call.span, "Effect."@ + prop + "(...)() immediately invoked — use Effect.gen"@)
            } else {
                none()
            },
            None => none(),
        },
        _ => none(),
    }
}

/// The call is a `.pipe(...)` method call.
pub open spec fn is_pipe_method_call(call: CallExpr) -> bool {
    match static_member_spec(call.callee) {
        Some((_, prop)) => prop == "pipe"@,
        None => false,
    }
}

/// `x.pipe(a).pipe(b)`.
pub open spec fn is_chained_pipe(call: CallExpr) -> bool {
    match static_member_spec(call.callee) {
        Some((object, _)) => match unwrap_parens_spec(object) {
            Expr::Call(inner) => is_pipe_method_call(*inner),
            _ => false,
        },
        None => false,
    }
}

/// `pipe(pipe(x, a), b)`.
pub open spec fn is_nested_pipe(call: CallExpr) -> bool {
    &&& ident_name_spec(call.callee) == Some("pipe"@)
    &&& call.arguments@.len() > 0
    &&& match unwrap_parens_spec(call.arguments@[0]) {
        Expr::Call(inner) => ident_name_spec(inner.callee) == Some("pipe"@),
        _ => false,
    }
}

/// `x.pipe(a).pipe(b)` and `pipe(pipe(x, a), b)` are reported.
pub open spec fn pipe_chain_findings(call: CallExpr) -> Seq<Finding> {
    if is_pipe_method_call(call) {
        if is_chained_pipe(call) {
            one(pipe_chain_meta(), call.span, "chained .pipe().pipe() — merge into one pipe"@)
        } else {
            none()
        }
    } else if is_nested_pipe(call) {
        one(pipe_chain_meta(), call.span, "nested pipe(pipe(...)) — merge into one pipe"@)
    } else {
        none()
    }
}

/// What the rule reports for a call.
pub open spec fn gen_shape_call_findings(bindings: Map<Seq<char>, Seq<char>>, call: CallExpr) -> Seq<Finding> {
    fn_iife_findings(bindings, call) + pipe_chain_findings(call)
}

/// Returning `Effect.<member>(...)` from an Effect generator is reported,
/// unless the member is a predicate (`is…`) or a runner (`run…`).
pub open spec fn return_effect_findings(
    stack: Seq<FrameKind>,
    bindings: Map<Seq<char>, Seq<char>>,
    argument: Option<Expr>,
    span: Span,
) -> Seq<Finding> {
    if !in_effect_gen_spec(stack) {
        none()
    } else {
        match argument {
            Some(a) => match unwrap_parens_spec(a) {
                Expr::Call(call) => match call_module_prop_spec(*call, bindings) {
                    Some((module, prop)) => if module == "Effect"@ && !seq_starts_with(prop, "is"@) && !seq_starts_with(prop, "run"@) {
                        one(
                            return_effect_in_gen_meta(),
                            span,
                            "returning Effect."@ + prop + "(...) from Effect.gen — did you mean `return yield*`?"@,
                        )
                    } else {
                        none()
                    },
                    None => none(),
                },
                _ => none(),
            },
            None => none(),
        }
    }
}

/// `class X extends Schema.TaggedError<X>("Id")("Tag", ...)` whose identifier
/// repeats the tag is reported at the identifier.
pub open spec fn redundant_tag_findings(class: ClassDecl, bindings: Map<Seq<char>, Seq<char>>) -> Seq<Finding> {
    match class.super_class {
        Some(superclass) => match unwrap_parens_spec(superclass) {
            Expr::Call(outer) => match unwrap_parens_spec(outer.callee) {
                Expr::Call(inner) => match call_module_prop_spec(*inner, bindings) {
                    Some((module, prop)) => if module == "Schema"@ && is_tagged_schema_factory_spec(prop)
                        && inner.arguments@.len() > 0 && outer.arguments@.len() > 0 {
                        match (string_value_spec(inner.arguments@[0]), string_value_spec(outer.arguments@[0])) {
                            (Some(identifier), Some(tag)) => if identifier == tag {
                                one(
                                    redundant_tag_identifier_meta(),
                                    expr_span(inner.arguments@[0]),
                                    "identifier \""@ + identifier + "\" repeats the tag — drop it"@,
                                )
                            } else {
                                none()
                            },
                            _ => none(),
                        }
                    } else {
                        none()
                    },
                    None => none(),
                },
                _ => none(),
            },
            _ => none(),
        },
        None => none(),
    }
}

pub struct GenShape;

impl GenShape {
    /// The rule ids this rule owns.
    pub fn metas(&self) -> (metas: Vec<RuleMeta>)
        ensures
            metas@ == seq![
                nested_gen_yield_meta(),
                effect_fn_iife_meta(),
                pipe_chain_meta(),
                return_effect_in_gen_meta(),
                redundant_tag_identifier_meta(),
            ],
    {
        let mut metas: Vec<RuleMeta> = Vec::new();
        metas.push(nested_gen_yield_meta());
        metas.push(effect_fn_iife_meta());
        metas.push(pipe_chain_meta());
        metas.push(return_effect_in_gen_meta());
        metas.push(redundant_tag_identifier_meta());
        metas
    }

    /// A `yield` expression with its argument.
    pub fn on_yield(&self, delegate: bool, argument: &Option<Expr>, span: Span, ctx: &mut FileCtx)
        ensures
            final(ctx).findings() == old(ctx).findings() + nested_gen_yield_findings(
                old(ctx).stack@,
                old(ctx).imports.bindings(),
                delegate,
                *argument,
                span,
            ),
            final(ctx).same_walk(old(ctx)),
    {
        if !delegate || !ctx.in_effect_gen() {
            assert(old(ctx).findings() + none() =~= old(ctx).findings());
            return;
        }
        let nested = match argument {
            Some(a) => match unwrap_parens(a) {
                Expr::Call(call) => direct_effect_gen(&**call, &ctx.imports).is_some(),
                _ => false,
            },
            None => false,
        };
        if !nested {
            assert(old(ctx).findings() + none() =~= old(ctx).findings());
            return;
        }
        ctx.report(nested_gen_yield_meta(), span, owned("yield* Effect.gen(...) inside a generator — inline the inner body"));
        assert(old(ctx).findings() + nested_gen_yield_findings(old(ctx).stack@, old(ctx).imports.bindings(), delegate, *argument, span)
            =~= ctx.findings());
    }

    fn check_fn_iife(&self, call: &CallExpr, ctx: &mut FileCtx)
        ensures
            final(ctx).findings() == old(ctx).findings() + fn_iife_findings(old(ctx).imports.bindings(), *call),
            final(ctx).same_walk(old(ctx)),
    {
        let inner = match unwrap_parens(&call.callee) {
            Expr::Call(inner) => inner,
            _ => {
                assert(old(ctx).findings() + none() =~= old(ctx).findings());
                return;
            },
        };
        let prop = match effect_member_prop(&**inner, &ctx.imports) {
            Some(p) => {
                if !(str_eq(p, "fn") || str_eq(p, "fnUntraced")) {
                    assert(old(ctx).findings() + none() =~= old(ctx).findings());
                    return;
                }
                owned(p)
            },
            None => {
                assert(old(ctx).findings() + none() =~= old(ctx).findings());
                return;
            },
        };
        let mut i: usize = 0;
        let mut found = false;
        while i < inner.arguments.len() && !found
            invariant
                i <= inner.arguments@.len(),
                found ==> has_generator_arg(inner.arguments@),
                !found ==> forall|m: int| 0 <= m < i ==> !is_generator_fn(#[trigger] inner.arguments@[m]),
            decreases inner.arguments@.len() - i + (if found { 0int } else { 1int }),
        {
            let generator = match &inner.arguments[i] {
                Expr::Function(f) => f.generator,
                _ => false,
            };
            if generator {
                assert(is_generator_fn(inner.arguments@[i as int]));
                found = true;
            } else {
                i += 1;
            }
        }
        if !found {
            assert(old(ctx).findings() + none() =~= old(ctx).findings());
            return;
        }
        let message = concat3("Effect.", prop.as_str(), "(...)() immediately invoked — use Effect.gen");
        ctx.report(effect_fn_iife_meta(), call.span, message);
        assert(old(ctx).findings() + fn_iife_findings(old(ctx).imports.bindings(), *call) =~= ctx.findings());
    }

    fn check_pipe_chain(&self, call: &CallExpr, ctx: &mut FileCtx)
        ensures
            final(ctx).findings() == old(ctx).findings() + pipe_chain_findings(*call),
            final(ctx).same_walk(old(ctx)),
    {
        match static_member(&call.callee) {
            Some((object, prop)) => {
                if str_eq(prop, "pipe") {
                    let chained = match unwrap_parens(object) {
                        Expr::Call(inner) => match static_member(&inner.callee) {
                            Some((_, inner_prop)) => str_eq(inner_prop, "pipe"),
                            None => false,
                        },
                        _ => false,
                    };
                    if chained {
                        ctx.report(pipe_chain_meta(), call.span, owned("chained .pipe().pipe() — merge into one pipe"));
                        assert(old(ctx).findings() + pipe_chain_findings(*call) =~= ctx.findings());
                    } else {
                        assert(old(ctx).findings() + none() =~= old(ctx).findings());
                    }
                    return;
                }
            },
            None => {},
        }
        let is_pipe = match ident_name(&call.callee) {
            Some(name) => str_eq(name, "pipe"),
            None => false,
        };
        let first_is_pipe = call.arguments.len() > 0 && match unwrap_parens(&call.arguments[0]) {
            Expr::Call(inner) => match ident_name(&inner.callee) {
                Some(name) => str_eq(name, "pipe"),
                None => false,
            },
            _ => false,
        };
        if is_pipe && first_is_pipe {
            ctx.report(pipe_chain_meta(), call.span, owned("nested pipe(pipe(...)) — merge into one pipe"));
            assert(old(ctx).findings() + pipe_chain_findings(*call) =~= ctx.findings());
        } else {
            assert(old(ctx).findings() + none() =~= old(ctx).findings());
        }
    }

    /// A call expression.
    pub fn on_call(&self, call: &CallExpr, ctx: &mut FileCtx)
        ensures
            final(ctx).findings() == old(ctx).findings() + gen_shape_call_findings(old(ctx).imports.bindings(), *call),
            final(ctx).same_walk(old(ctx)),
    {
        self.check_fn_iife(call, ctx);
        self.check_pipe_chain(call, ctx);
        assert(old(ctx).findings() + gen_shape_call_findings(old(ctx).imports.bindings(), *call) =~= ctx.findings());
    }

    /// A `return` statement with its value.
    pub fn on_return(&self, argument: &Option<Expr>, span: Span, ctx: &mut FileCtx)
        ensures
            final(ctx).findings() == old(ctx).findings() + return_effect_findings(old(ctx).stack@, old(ctx).imports.bindings(), *argument, span),
            final(ctx).same_walk(old(ctx)),
    {
        if !ctx.in_effect_gen() {
            assert(old(ctx).findings() + none() =~= old(ctx).findings());
            return;
        }
        let prop = match argument {
            Some(a) => match unwrap_parens(a) {
                Expr::Call(call) => match call_module_prop(&**call, &ctx.imports) {
                    Some((module, prop)) => if str_eq(module, "Effect") && !str_starts_with(prop, "is") && !str_starts_with(prop, "run") {
                        Some(owned(prop))
                    } else {
                        None
                    },
                    None => None,
                },
                _ => None,
            },
            None => None,
        };
        match prop {
            Some(p) => {
                let message = concat3("returning Effect.", p.as_str(), "(...) from Effect.gen — did you mean `return yield*`?");
                ctx.report(return_effect_in_gen_meta(), span, message);
                assert(old(ctx).findings() + return_effect_findings(old(ctx).stack@, old(ctx).imports.bindings(), *argument, span)
                    =~= ctx.findings());
            },
            None => {
                assert(old(ctx).findings() + none() =~= old(ctx).findings());
            },
        }
    }

    /// A class.
    pub fn on_class(&self, class: &ClassDecl, ctx: &mut FileCtx)
        ensures
            final(ctx).findings() == old(ctx).findings() + redundant_tag_findings(*class, old(ctx).imports.bindings()),
            final(ctx).same_walk(old(ctx)),
    {
        let found = match &class.super_class {
            Some(superclass) => match unwrap_parens(superclass) {
                Expr::Call(outer) => match unwrap_parens(&outer.callee) {
                    Expr::Call(inner) => {
                        let tagged = match call_module_prop(&**inner, &ctx.imports) {
                            Some((module, prop)) => str_eq(module, "Schema") && is_tagged_schema_factory(prop),
                            None => false,
                        };
                        if tagged && inner.arguments.len() > 0 && outer.arguments.len() > 0 {
                            match (string_value(&inner.arguments[0]), string_value(&outer.arguments[0])) {
                                (Some(identifier), Some(tag)) => if str_eq(identifier, tag) {
                                    Some((concat3("identifier \"", identifier, "\" repeats the tag — drop it"), span_of(&inner.arguments[0])))
                                } else {
                                    None
                                },
                                _ => None,
                            }
                        } else {
                            None
                        }
                    },
                    _ => None,
                },
                _ => None,
            },
            None => None,
        };
        match found {
            Some((message, span)) => {
                ctx.report(redundant_tag_identifier_meta(), span, message);
                assert(old(ctx).findings() + redundant_tag_findings(*class, old(ctx).imports.bindings()) =~= ctx.findings());
            },
            None => {
                assert(old(ctx).findings() + none() =~= old(ctx).findings());
            },
        }
    }
}

} // verus!
