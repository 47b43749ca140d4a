//! Promise interop inside Effect code: async callbacks, promise chains in
//! `Effect.sync`, `Promise.all` inside Effect wrappers, bare `tryPromise`.
use vstd::prelude::*;

use crate::ast::{CallExpr, Expr};
use crate::diagnostics::{Category, RuleMeta, Severity, Span};
use crate::matchers::{call_module_prop, call_module_prop_spec, first_function_arg, first_function_index, static_member, static_member_spec};
use crate::rules::error_modeling::{keyed_property, keyed_value};
use crate::rules::{none, one, FileCtx, Finding};
use crate::search::{find_in, first_in, kind_pred, CallKind};
use crate::text::{concat2, owned, push_str, str_eq};

verus! {

/// Catalog metadata of `no-async-callback-in-effect-combinators`.
#[verifier::allow_in_spec]
pub fn no_async_callback_meta() -> RuleMeta
    returns
        (RuleMeta {
            id: "no-async-callback-in-effect-combinators",
            severity: Severity::Error,
            category: Category::Correctness,
            help: "An async callback returns a Promise the Effect runtime never awaits — the work dangles or the value becomes Effect<Promise<T>>. Use Effect.tryPromise / Effect.promise for async work.",
        }),
{
    RuleMeta {
        id: "no-async-callback-in-effect-combinators",
        severity: Severity::Error,
        category: Category::Correctness,
        help: "An async callback returns a Promise the Effect runtime never awaits — the work dangles or the value becomes Effect<Promise<T>>. Use Effect.tryPromise / Effect.promise for async work.",
    }
}

/// Catalog metadata of `no-then-in-sync`.
#[verifier::allow_in_spec]
pub fn no_then_in_sync_meta() -> RuleMeta
    returns
        (RuleMeta {
            id: "no-then-in-sync",
            severity: Severity::Warn,
            category: Category::Correctness,
            help: "Promise chains inside Effect.sync escape the runtime — no error channel, no interruption. Use Effect.tryPromise and compose with Effect.map/flatMap.",
        }),
{
    RuleMeta {
        id: "no-then-in-sync",
        severity: Severity::Warn,
        category: Category::Correctness,
        help: "Promise chains inside Effect.sync escape the runtime — no error channel, no interruption. Use Effect.tryPromise and compose with Effect.map/flatMap.",
    }
}

/// Catalog metadata of `no-promise-all-in-effect`.
#[verifier::allow_in_spec]
pub fn no_promise_all_meta() -> RuleMeta
    returns
        (RuleMeta {
            id: "no-promise-all-in-effect",
            severity: Severity::Warn,
            category: Category::Correctness,
            help: "Promise.all inside an Effect wrapper bypasses concurrency limits, interruption, and structured concurrency. Use Effect.forEach(items, fn, { concurrency: N }) or Effect.all.",
        }),
{
    RuleMeta {
        id: "no-promise-all-in-effect",
        severity: Severity::Warn,
        category: Category::Correctness,
        help: "Promise.all inside an Effect wrapper bypasses concurrency limits, interruption, and structured concurrency. Use Effect.forEach(items, fn, { concurrency: N }) or Effect.all.",
    }
}

/// Catalog metadata of `require-typed-catch-in-try`.
#[verifier::allow_in_spec]
pub fn require_typed_catch_meta() -> RuleMeta
    returns
        (RuleMeta {
            id: "require-typed-catch-in-try",
            severity: Severity::Info,
            category: Category::Idiomatic,
            help: "Bare Effect.try/tryPromise puts UnknownException in the error channel. The { try, catch } form maps the failure to a typed domain error.",
        }),
{
    RuleMeta {
        id: "require-typed-catch-in-try",
        severity: Severity::Info,
        category: Category::Idiomatic,
        help: "Bare Effect.try/tryPromise puts UnknownException in the error channel. The { try, catch } form maps the failure to a typed domain error.",
    }
}

/// The combinators whose callbacks must be synchronous.
pub open spec fn is_sync_callback_combinator_spec(prop: Seq<char>) -> bool {
    ||| prop == "map"@
    ||| prop == "flatMap"@
    ||| prop == "andThen"@
    ||| prop == "tap"@
    ||| prop == "sync"@
    ||| prop == "try"@
    ||| prop == "filter"@
    ||| prop == "forEach"@
    ||| prop == "reduce"@
    ||| prop == "mapEffect"@
}

/// Must the combinator's callback be synchronous?
pub fn is_sync_callback_combinator(prop: &str) -> (found: bool)
    ensures
        found == is_sync_callback_combinator_spec(prop@),
{
    str_eq(prop, "map") || str_eq(prop, "flatMap") || str_eq(prop, "andThen") || str_eq(prop, "tap") || str_eq(prop, "sync")
        || str_eq(prop, "try") || str_eq(prop, "filter") || str_eq(prop, "forEach") || str_eq(prop, "reduce") || str_eq(prop, "mapEffect")
}

/// The Effect constructors that wrap a promise.
pub open spec fn is_promise_wrapper_spec(prop: Seq<char>) -> bool {
    prop == "promise"@ || prop == "tryPromise"@
}

/// Does the Effect constructor wrap a promise?
pub fn is_promise_wrapper(prop: &str) -> (found: bool)
    ensures
        found == is_promise_wrapper_spec(prop@),
{
    str_eq(prop, "promise") || str_eq(prop, "tryPromise")
}

/// The span of the first async function argument.
pub open spec fn first_async_argument(args: Seq<Expr>) -> Option<Span>
    decreases args.len(),
{
    if args.len() == 0 {
        None
    } else {
        match args[0] {
            Expr::Function(f) => if f.is_async {
                Some(f.span)
            } else {
                first_async_argument(args.drop_first())
            },
            _ => first_async_argument(args.drop_first()),
        }
    }
}

/// The span of the first async function argument of the call.
pub fn has_async_argument(call: &CallExpr) -> (span: Option<Span>)
    ensures
        span == first_async_argument(call.arguments@),
{
    let mut i: usize = 0;
    assert(call.arguments@.skip(0) =~= call.arguments@);
    while i < call.arguments.len()
        invariant
            i <= call.arguments@.len(),
            first_async_argument(call.arguments@) == first_async_argument(call.arguments@.skip(i as int)),
        decreases call.arguments@.len() - i,
    {
        assert(call.arguments@.skip(i as int)[0] == call.arguments@[i as int]);
        assert(call.arguments@.skip(i as int).drop_first() =~= call.arguments@.skip(i + 1));
        if let Expr::Function(f) = &call.arguments[i] {
            if f.is_async {
                return Some(f.span);
            }
        }
        i += 1;
    }
    None
}

/// The suggested replacement for an async callback.
pub open spec fn async_fix(prop: Seq<char>) -> Seq<char> {
    if prop == "sync"@ {
        "Effect.promise"@
    } else if prop == "try"@ {
        "Effect.tryPromise"@
    } else {
        "Effect.tryPromise inside flatMap"@
    }
}

/// The handler of a promise wrapper: its first function argument, else the
/// `try` option of its options object.
pub open spec fn wrapper_handler(call: CallExpr) -> Option<Expr> {
    match first_function_index(call.arguments@) {
        Some(i) => Some(call.arguments@[i]),
        None => if call.arguments@.len() > 0 {
            match call.arguments@[0] {
                Expr::Object { properties, .. } => keyed_value(properties@, "try"@),
                _ => None,
            }
        } else {
            None
        },
    }
}

/// For an `Effect.*` / `Stream.*` call: an async function passed to a
/// combinator whose callbacks must be synchronous; a promise chain inside the
/// handler of `Effect.sync`; a `Promise` combinator inside the handler of
/// `Effect.promise` / `Effect.tryPromise`; a bare `Effect.tryPromise(fn)`.
pub open spec fn promise_interop_findings(bindings: Map<Seq<char>, Seq<char>>, call: CallExpr) -> Seq<Finding> {
    match call_module_prop_spec(call, bindings) {
        Some((module, prop)) => if module != "Effect"@ && module != "Stream"@ {
            none()
        } else {
            let async_part = if is_sync_callback_combinator_spec(prop) && !is_promise_wrapper_spec(prop) {
                match first_async_argument(call.arguments@) {
                    Some(span) => one(
                        no_async_callback_meta(),
                        span,
                        "async callback passed to "@ + module + "."@ + prop + " — the Promise is never awaited; use "@ + async_fix(prop),
                    ),
                    None => none(),
                }
            } else {
                none()
            };
            let then_part = if module == "Effect"@ && prop == "sync"@ {
                match first_function_index(call.arguments@) {
                    Some(i) => if first_in(call.arguments@[i], kind_pred(CallKind::PromiseChain, bindings)) is Some {
                        one(no_then_in_sync_meta(), call.span, "Promise chain inside Effect.sync — use Effect.tryPromise"@)
                    } else {
                        none()
                    },
                    None => none(),
                }
            } else {
                none()
            };
            let all_part = if module == "Effect"@ && is_promise_wrapper_spec(prop) {
                match wrapper_handler(call) {
                    Some(handler) => match first_in(handler, kind_pred(CallKind::PromiseCombinator, bindings)) {
                        Some(inner) => match static_member_spec(inner.callee) {
                            Some((_, combinator)) => one(
                                no_promise_all_meta(),
                                call.span,
                                "Promise."@ + combinator + " inside Effect."@ + prop + " — use Effect.forEach with a concurrency option"@,
                            ),
                            None => none(),
                        },
                        None => none(),
                    },
                    None => none(),
                }
            } else {
                none()
            };
            let typed_part = if module == "Effect"@ && prop == "tryPromise"@ && first_function_index(call.arguments@) is Some {
                one(require_typed_catch_meta(), call.span, "bare Effect.tryPromise — add { try, catch } to map the failure to a typed error"@)
            } else {
                none()
            };
            async_part + then_part + all_part + typed_part
        },
        None => none(),
    }
}

pub struct PromiseInterop;

impl PromiseInterop {
    /// The rule ids this rule owns.
    pub fn metas(&self) -> (metas: Vec<RuleMeta>)
        ensures
            metas@ == seq![no_async_callback_meta(), no_then_in_sync_meta(), no_promise_all_meta(), require_typed_catch_meta()],
    {
        let mut metas: Vec<RuleMeta> = Vec::new();
        metas.push(no_async_callback_meta());
        metas.push(no_then_in_sync_meta());
        metas.push(no_promise_all_meta());
        metas.push(require_typed_catch_meta());
        metas
    }

    /// A call expression.
    #[verifier::rlimit(40)]
    pub fn on_call(&self, call: &CallExpr, ctx: &mut FileCtx)
        ensures
            final(ctx).findings() == old(ctx).findings() + promise_interop_findings(old(ctx).imports.bindings(), *call),
            final(ctx).same_walk(old(ctx)),
    {
        let ghost bindings = ctx.imports.bindings();
        let (module_owned, prop_owned) = match call_module_prop(call, &ctx.imports) {
            Some((module, prop)) => (owned(module), owned(prop)),
            None => {
                assert(old(ctx).findings() + none() =~= old(ctx).findings());
                return;
            },
        };
        let module = module_owned.as_str();
        let prop = prop_owned.as_str();
        let is_effect = str_eq(module, "Effect");
        if !is_effect && !str_eq(module, "Stream") {
            assert(old(ctx).findings() + none() =~= old(ctx).findings());
            return;
        }
        let ghost f0 = ctx.findings();
        if is_sync_callback_combinator(prop) && !is_promise_wrapper(prop) {
            match has_async_argument(call) {
                Some(span) => {
                    let fix = if str_eq(prop, "sync") {
                        "Effect.promise"
                    } else if str_eq(prop, "try") {
                        "Effect.tryPromise"
                    } else {
                        "Effect.tryPromise inside flatMap"
                    };
                    let mut message = owned("async callback passed to ");
                    push_str(&mut message, module);
                    push_str(&mut message, ".");
                    push_str(&mut message, prop);
                    push_str(&mut message, " — the Promise is never awaited; use ");
                    push_str(&mut message, fix);
                    ctx.report(no_async_callback_meta(), span, message);
                },
                None => {},
            }
        }
        let ghost f1 = ctx.findings();
        if is_effect && str_eq(prop, "sync") {
            match first_function_arg(call) {
                Some(handler) => {
                    if find_in(handler, CallKind::PromiseChain, &ctx.imports).is_some() {
                        ctx.report(no_then_in_sync_meta(), call.span, owned("Promise chain inside Effect.sync — use Effect.tryPromise"));
                    }
                },
                None => {},
            }
        }
        let ghost f2 = ctx.findings();
        if is_effect && is_promise_wrapper(prop) {
            let handler = match first_function_arg(call) {
                Some(h) => Some(h),
                None => if call.arguments.len() > 0 {
                    match &call.arguments[0] {
                        Expr::Object { properties, .. } => keyed_property(properties, "try"),
                        _ => None,
                    }
                } else {
                    None
                },
            };
            match handler {
                Some(h) => match find_in(h, CallKind::PromiseCombinator, &ctx.imports) {
                    Some(inner) => match static_member(&inner.callee) {
                        Some((_, combinator)) => {
                            let mut message = concat2("Promise.", combinator);
                            push_str(&mut message, " inside Effect.");
                            push_str(&mut message, prop);
                            push_str(&mut message, " — use Effect.forEach with a concurrency option");
                            ctx.report(no_promise_all_meta(), call.span, message);
                        },
                        None => {},
                    },
                    None => {},
                },
                None => {},
            }
        }
        let ghost f3 = ctx.findings();
        if is_effect && str_eq(prop, "tryPromise") && first_function_arg(call).is_some() {
            ctx.report(require_typed_catch_meta(), call.span, owned("bare Effect.tryPromise — add { try, catch } to map the failure to a typed error"));
        }
        assert(ctx.findings() =~= old(ctx).findings() + promise_interop_findings(old(ctx).imports.bindings(), *call));
    }
}

} // verus!
