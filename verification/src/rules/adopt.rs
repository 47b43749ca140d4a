//! Adoption rules, for vanilla TypeScript patterns in an Effect codebase
//! that have a cleaner Effect equivalent. Each is opt-in (the `adopt` flag),
//! except `prefer-foreach-over-yield-loop`, which is Effect-code advice and
//! always on.
use vstd::prelude::*;

use crate::ast::{CallExpr, Expr, FunctionExpr};
use crate::diagnostics::{Category, RuleMeta, Severity, Span};
use crate::matchers::{ident_name, ident_name_spec, static_member, static_member_spec, unwrap_parens, unwrap_parens_spec};
use crate::rules::{in_effect_code_spec, in_effect_gen_spec, none, one, FileCtx, Finding, FrameKind};
use crate::search::{is_promise_combinator, is_promise_combinator_spec};
use crate::text::{concat3, owned, str_eq};

verus! {

/// Catalog metadata of `adopt-async-function`.
#[verifier::allow_in_spec]
pub fn async_function_meta() -> RuleMeta
    returns
        (RuleMeta {
            id: "adopt-async-function",
            severity: Severity::Info,
            category: Category::Adoption,
            help: "async/await runs outside Effect: untyped errors, no interruption, no tracing. Migrate to Effect.fn (or Effect.gen) with Effect.tryPromise at the Promise boundaries.",
        }),
{
    RuleMeta {
        id: "adopt-async-function",
        severity: Severity::Info,
        category: Category::Adoption,
        help: "async/await runs outside Effect: untyped errors, no interruption, no tracing. Migrate to Effect.fn (or Effect.gen) with Effect.tryPromise at the Promise boundaries.",
    }
}

/// Catalog metadata of `adopt-promise-chain`.
#[verifier::allow_in_spec]
pub fn promise_chain_meta() -> RuleMeta
    returns
        (RuleMeta {
            id: "adopt-promise-chain",
            severity: Severity::Info,
            category: Category::Adoption,
            help: ".then() chains are Effect pipelines without the safety. Wrap the source with Effect.tryPromise and compose with Effect.map / Effect.flatMap.",
        }),
{
    RuleMeta {
        id: "adopt-promise-chain",
        severity: Severity::Info,
        category: Category::Adoption,
        help: ".then() chains are Effect pipelines without the safety. Wrap the source with Effect.tryPromise and compose with Effect.map / Effect.flatMap.",
    }
}

/// Catalog metadata of `adopt-new-promise`.
#[verifier::allow_in_spec]
pub fn new_promise_meta() -> RuleMeta
    returns
        (RuleMeta {
            id: "adopt-new-promise",
            severity: Severity::Info,
            category: Category::Adoption,
            help: "Hand-rolled Promise constructors (resolve/reject plumbing) map directly onto Effect.async — with interruption support included.",
        }),
{
    RuleMeta {
        id: "adopt-new-promise",
        severity: Severity::Info,
        category: Category::Adoption,
        help: "Hand-rolled Promise constructors (resolve/reject plumbing) map directly onto Effect.async — with interruption support included.",
    }
}

/// Catalog metadata of `adopt-promise-all`.
#[verifier::allow_in_spec]
pub fn promise_all_meta() -> RuleMeta
    returns
        (RuleMeta {
            id: "adopt-promise-all",
            severity: Severity::Info,
            category: Category::Adoption,
            help: "Promise.all has no concurrency limit and no interruption. Effect.all / Effect.forEach with { concurrency } is the structured equivalent.",
        }),
{
    RuleMeta {
        id: "adopt-promise-all",
        severity: Severity::Info,
        category: Category::Adoption,
        help: "Promise.all has no concurrency limit and no interruption. Effect.all / Effect.forEach with { concurrency } is the structured equivalent.",
    }
}

/// Catalog metadata of `adopt-await-in-loop`.
#[verifier::allow_in_spec]
pub fn await_in_loop_meta() -> RuleMeta
    returns
        (RuleMeta {
            id: "adopt-await-in-loop",
            severity: Severity::Warn,
            category: Category::Adoption,
            help: "Sequential awaits in a loop are the slowest possible shape. Effect.forEach(items, fn, { concurrency: N }) runs them structured and concurrent — or keep it sequential but interruptible.",
        }),
{
    RuleMeta {
        id: "adopt-await-in-loop",
        severity: Severity::Warn,
        category: Category::Adoption,
        help: "Sequential awaits in a loop are the slowest possible shape. Effect.forEach(items, fn, { concurrency: N }) runs them structured and concurrent — or keep it sequential but interruptible.",
    }
}

/// Catalog metadata of `prefer-foreach-over-yield-loop`.
#[verifier::allow_in_spec]
pub fn yield_loop_meta() -> RuleMeta
    returns
        (RuleMeta {
            id: "prefer-foreach-over-yield-loop",
            severity: Severity::Info,
            category: Category::Idiomatic,
            help: "A loop of yields inside Effect.gen works, but Effect.forEach / Effect.all make concurrency explicit and tunable, and keep interruption semantics obvious.",
        }),
{
    RuleMeta {
        id: "prefer-foreach-over-yield-loop",
        severity: Severity::Info,
        category: Category::Idiomatic,
        help: "A loop of yields inside Effect.gen works, but Effect.forEach / Effect.all make concurrency explicit and tunable, and keep interruption semantics obvious.",
    }
}

/// The first `width` characters of a span, as far as offsets reach.
pub open spec fn keyword_span(span: Span, width: u32) -> Span {
    Span { start: span.start, end: if span.start <= u32::MAX - width { (span.start + width) as u32 } else { u32::MAX } }
}

/// The first `width` characters of a span, as far as offsets reach.
pub fn keyword(span: Span, width: u32) -> (out: Span)
    ensures
        out == keyword_span(span, width),
{
    let end = if span.start <= u32::MAX - width {
        span.start + width
    } else {
        u32::MAX
    };
    Span { start: span.start, end }
}

/// An `async` function or arrow is reported at its `async` keyword, under
/// the adoption flag. `name` is the function's own name, if it has one.
pub open spec fn async_function_findings(adopt: bool, f: FunctionExpr, name: Option<Seq<char>>) -> Seq<Finding> {
    if !adopt || !f.is_async {
        none()
    } else if f.is_arrow {
        one(async_function_meta(), keyword_span(f.span, 5), "async arrow — migrate to Effect.fn + Effect.tryPromise"@)
    } else {
        let label = match name {
            Some(n) => n,
            None => "function"@,
        };
        one(async_function_meta(), keyword_span(f.span, 5), "async "@ + label + " — migrate to Effect.fn + Effect.tryPromise"@)
    }
}

/// A `.then(...)` call whose receiver is not itself a `.then(...)` call: the
/// innermost link of a chain.
pub open spec fn is_chain_start(object: Expr) -> bool {
    match unwrap_parens_spec(object) {
        Expr::Call(inner) => match static_member_spec(inner.callee) {
            Some((_, prop)) => prop != "then"@,
            None => true,
        },
        _ => true,
    }
}

/// Under the adoption flag: the innermost `.then(...)` of a chain, and
/// `Promise.all` / `allSettled` / `race` / `any` outside Effect code.
pub open spec fn adopt_call_findings(adopt: bool, stack: Seq<FrameKind>, call: CallExpr) -> Seq<Finding> {
    if !adopt {
        none()
    } else {
        match static_member_spec(call.callee) {
            Some((object, prop)) => if prop == "then"@ && call.arguments@.len() > 0 {
                if is_chain_start(object) {
                    one(promise_chain_meta(), call.span, ".then() chain — wrap with Effect.tryPromise and compose with Effect.flatMap"@)
                } else {
                    none()
                }
            } else if ident_name_spec(object) == Some("Promise"@) && is_promise_combinator_spec(prop) && !in_effect_code_spec(stack) {
                one(promise_all_meta(), call.span, "Promise."@ + prop + " — use Effect.all / Effect.forEach with { concurrency }"@)
            } else {
                none()
            },
            None => none(),
        }
    }
}

/// Under the adoption flag, `new Promise(...)` outside Effect code.
pub open spec fn adopt_new_findings(adopt: bool, stack: Seq<FrameKind>, new_expr: CallExpr) -> Seq<Finding> {
    if adopt && !in_effect_code_spec(stack) && ident_name_spec(new_expr.callee) == Some("Promise"@) {
        one(new_promise_meta(), new_expr.span, "new Promise(...) — Effect.async is the structured equivalent"@)
    } else {
        none()
    }
}

/// A loop whose body yields, inside an Effect generator; otherwise, under the
/// adoption flag, a loop whose body awaits. Reported at the loop keyword.
pub open spec fn loop_findings(adopt: bool, stack: Seq<FrameKind>, span: Span, has_yield: bool, has_await: bool) -> Seq<Finding> {
    if in_effect_gen_spec(stack) && has_yield {
        one(yield_loop_meta(), keyword_span(span, 3), "loop of yields inside Effect.gen — consider Effect.forEach / Effect.all"@)
    } else if adopt && has_await {
        one(
            await_in_loop_meta(),
            keyword_span(span, 3),
            "await inside a loop runs strictly sequentially — use Effect.forEach with { concurrency }"@,
        )
    } else {
        none()
    }
}

pub struct Adopt;

impl Adopt {
    /// The rule ids this rule owns.
    pub fn metas(&self) -> (metas: Vec<RuleMeta>)
        ensures
            metas@ == seq![
                async_function_meta(),
                promise_chain_meta(),
                new_promise_meta(),
                promise_all_meta(),
                await_in_loop_meta(),
                yield_loop_meta(),
            ],
    {
        let mut metas: Vec<RuleMeta> = Vec::new();
        metas.push(async_function_meta());
        metas.push(promise_chain_meta());
        metas.push(new_promise_meta());
        metas.push(promise_all_meta());
        metas.push(await_in_loop_meta());
        metas.push(yield_loop_meta());
        metas
    }

    /// A function or arrow function, with the function's own name.
    pub fn on_function(&self, f: &FunctionExpr, name: &Option<String>, ctx: &mut FileCtx)
        ensures
            final(ctx).findings() == old(ctx).findings() + async_function_findings(
                old(ctx).flags().1,
                *f,
                match *name {
                    Some(n) => Some(n@),
                    None => None,
                },
            ),
            final(ctx).same_walk(old(ctx)),
    {
        if !ctx.adopt_active() || !f.is_async {
            assert(old(ctx).findings() + none() =~= old(ctx).findings());
            return;
        }
        let message = if f.is_arrow {
            owned("async arrow — migrate to Effect.fn + Effect.tryPromise")
        } else {
            let label = match name {
                Some(n) => n.as_str(),
                None => "function",
            };
            concat3("async ", label, " — migrate to Effect.fn + Effect.tryPromise")
        };
        ctx.report(async_function_meta(), keyword(f.span, 5), message);
        assert(ctx.findings() =~= old(ctx).findings() + async_function_findings(
            old(ctx).flags().1,
            *f,
            match *name {
                Some(n) => Some(n@),
                None => None,
            },
        ));
    }

    /// A call expression.
    pub fn on_call(&self, call: &CallExpr, ctx: &mut FileCtx)
        ensures
            final(ctx).findings() == old(ctx).findings() + adopt_call_findings(old(ctx).flags().1, old(ctx).stack@, *call),
            final(ctx).same_walk(old(ctx)),
    {
        if !ctx.adopt_active() {
            assert(old(ctx).findings() + none() =~= old(ctx).findings());
            return;
        }
        let (object, prop) = match static_member(&call.callee) {
            Some(found) => found,
            None => {
                assert(old(ctx).findings() + none() =~= old(ctx).findings());
                return;
            },
        };
        if str_eq(prop, "then") && call.arguments.len() > 0 {
            let inner_is_then = match unwrap_parens(object) {
                Expr::Call(inner) => match static_member(&inner.callee) {
                    Some((_, inner_prop)) => str_eq(inner_prop, "then"),
                    None => false,
                },
                _ => false,
            };
            if !inner_is_then {
                ctx.report(promise_chain_meta(), call.span, owned(".then() chain — wrap with Effect.tryPromise and compose with Effect.flatMap"));
                assert(old(ctx).findings() + adopt_call_findings(old(ctx).flags().1, old(ctx).stack@, *call) =~= ctx.findings());
            } else {
                assert(old(ctx).findings() + none() =~= old(ctx).findings());
            }
            return;
        }
        let promise = match ident_name(object) {
            Some(name) => str_eq(name, "Promise"),
            None => false,
        };
        if promise && is_promise_combinator(prop) && !ctx.in_effect_code() {
            let message = concat3("Promise.", prop, " — use Effect.all / Effect.forEach with { concurrency }");
            ctx.report(promise_all_meta(), call.span, message);
            assert(old(ctx).findings() + adopt_call_findings(old(ctx).flags().1, old(ctx).stack@, *call) =~= ctx.findings());
        } else {
            assert(old(ctx).findings() + none() =~= old(ctx).findings());
        }
    }

    /// A `new` expression.
    pub fn on_new(&self, new_expr: &CallExpr, ctx: &mut FileCtx)
        ensures
            final(ctx).findings() == old(ctx).findings() + adopt_new_findings(old(ctx).flags().1, old(ctx).stack@, *new_expr),
            final(ctx).same_walk(old(ctx)),
    {
        let promise = match ident_name(&new_expr.callee) {
            Some(name) => str_eq(name, "Promise"),
            None => false,
        };
        if ctx.adopt_active() && !ctx.in_effect_code() && promise {
            ctx.report(new_promise_meta(), new_expr.span, owned("new Promise(...) — Effect.async is the structured equivalent"));
            assert(old(ctx).findings() + adopt_new_findings(old(ctx).flags().1, old(ctx).stack@, *new_expr) =~= ctx.findings());
        } else {
            assert(old(ctx).findings() + none() =~= old(ctx).findings());
        }
    }

    /// A loop statement, with whether its body yields or awaits outside nested
    /// functions.
    pub fn on_loop(&self, span: Span, has_yield: bool, has_await: bool, ctx: &mut FileCtx)
        ensures
            final(ctx).findings() == old(ctx).findings() + loop_findings(old(ctx).flags().1, old(ctx).stack@, span, has_yield, has_await),
            final(ctx).same_walk(old(ctx)),
    {
        if ctx.in_effect_gen() && has_yield {
            ctx.report(yield_loop_meta(), keyword(span, 3), owned("loop of yields inside Effect.gen — consider Effect.forEach / Effect.all"));
        } else if ctx.adopt_active() && has_await {
            ctx.report(
                await_in_loop_meta(),
                keyword(span, 3),
                owned("await inside a loop runs strictly sequentially — use Effect.forEach with { concurrency }"),
            );
        }
        assert(old(ctx).findings() + loop_findings(old(ctx).flags().1, old(ctx).stack@, span, has_yield, has_await) =~= ctx.findings());
    }
}

} // verus!
