//! `effect-all-missing-concurrency`, `prefer-timeout-over-race-sleep` and
//! `no-fork-then-immediate-join`.
use vstd::prelude::*;

use crate::ast::{CallExpr, Expr, Property, Stmt};
use crate::diagnostics::{Category, RuleMeta, Severity, Span};
use crate::matchers::{
    call_module_prop, call_module_prop_spec, direct_effect_gen, direct_effect_gen_spec, static_member, static_member_spec,
    unwrap_parens, unwrap_parens_spec,
};
use crate::rules::{none, one, FileCtx, Finding};
use crate::text::{concat3, owned, str_eq};

verus! {

/// Catalog metadata of `effect-all-missing-concurrency`.
#[verifier::allow_in_spec]
pub fn missing_concurrency_meta() -> RuleMeta
    returns
        (RuleMeta {
            id: "effect-all-missing-concurrency",
            severity: Severity::Info,
            category: Category::Performance,
            help: "Effect.all / Effect.forEach run sequentially unless you pass { concurrency } — usually a surprise for code that looks parallel. Make the choice explicit.",
        }),
{
    RuleMeta {
        id: "effect-all-missing-concurrency",
        severity: Severity::Info,
        category: Category::Performance,
        help: "Effect.all / Effect.forEach run sequentially unless you pass { concurrency } — usually a surprise for code that looks parallel. Make the choice explicit.",
    }
}

/// Catalog metadata of `prefer-timeout-over-race-sleep`.
#[verifier::allow_in_spec]
pub fn race_sleep_meta() -> RuleMeta
    returns
        (RuleMeta {
            id: "prefer-timeout-over-race-sleep",
            severity: Severity::Warn,
            category: Category::Idiomatic,
            help: "Racing against Effect.sleep hand-rolls a deadline with worse semantics. Effect.timeout / timeoutTo / timeoutFail say it directly.",
        }),
{
    RuleMeta {
        id: "prefer-timeout-over-race-sleep",
        severity: Severity::Warn,
        category: Category::Idiomatic,
        help: "Racing against Effect.sleep hand-rolls a deadline with worse semantics. Effect.timeout / timeoutTo / timeoutFail say it directly.",
    }
}

/// Catalog metadata of `no-fork-then-immediate-join`.
#[verifier::allow_in_spec]
pub fn fork_join_meta() -> RuleMeta
    returns
        (RuleMeta {
            id: "no-fork-then-immediate-join",
            severity: Severity::Warn,
            category: Category::Idiomatic,
            help: "Forking and immediately joining is just running the effect, with extra fiber overhead. Yield the effect directly; fork only when work continues in the background.",
        }),
{
    RuleMeta {
        id: "no-fork-then-immediate-join",
        severity: Severity::Warn,
        category: Category::Idiomatic,
        help: "Forking and immediately joining is just running the effect, with extra fiber overhead. Yield the effect directly; fork only when work continues in the background.",
    }
}

/// Some property is named `concurrency`.
pub open spec fn has_concurrency_key(properties: Seq<Property>) -> bool {
    exists|j: int| 0 <= j < properties.len() && ((#[trigger] properties[j]).key matches Some(k) && k@ == "concurrency"@)
}

/// An object literal with a `concurrency` property.
pub open spec fn is_concurrency_object(e: Expr) -> bool {
    match e {
        Expr::Object { properties, .. } => has_concurrency_key(properties@),
        _ => false,
    }
}

/// Some argument is an object literal with a `concurrency` property.
pub open spec fn options_have_concurrency_spec(args: Seq<Expr>) -> bool {
    exists|i: int| 0 <= i < args.len() && is_concurrency_object(#[trigger] args[i])
}

fn is_concurrency_object_exec(e: &Expr) -> (found: bool)
    ensures
        found == is_concurrency_object(*e),
{
    match e {
        Expr::Object { properties, .. } => {
            let mut j: usize = 0;
            while j < properties.len()
                invariant
                    j <= properties@.len(),
                    is_concurrency_object(*e) == has_concurrency_key(properties@),
                    forall|m: int| 0 <= m < j ==> !((#[trigger] properties@[m]).key matches Some(k) && k@ == "concurrency"@),
                decreases properties@.len() - j,
            {
                let hit = match &properties[j].key {
                    Some(k) => str_eq(k.as_str(), "concurrency"),
                    None => false,
                };
                if hit {
                    assert(properties@[j as int].key matches Some(k) && k@ == "concurrency"@);
                    assert(has_concurrency_key(properties@));
                    return true;
                }
                j += 1;
            }
            false
        },
        _ => false,
    }
}

/// Does some argument carry a `concurrency` option?
pub fn options_have_concurrency(call: &CallExpr) -> (found: bool)
    ensures
        found == options_have_concurrency_spec(call.arguments@),
{
    let mut i: usize = 0;
    while i < call.arguments.len()
        invariant
            i <= call.arguments@.len(),
            forall|m: int| 0 <= m < i ==> !is_concurrency_object(#[trigger] call.arguments@[m]),
        decreases call.arguments@.len() - i,
    {
        if is_concurrency_object_exec(&call.arguments[i]) {
            return true;
        }
        i += 1;
    }
    false
}

/// `Effect.all([a, b, ...])` (two or more elements) or `Effect.forEach(xs, f)`
/// without a `concurrency` option is reported.
pub open spec fn missing_concurrency_findings(bindings: Map<Seq<char>, Seq<char>>, call: CallExpr) -> Seq<Finding> {
    match call_module_prop_spec(call, bindings) {
        Some((module, prop)) => if module != "Effect"@ {
            none()
        } else if prop == "all"@ {
            let multi = call.arguments@.len() > 0 && match call.arguments@[0] {
                Expr::Array { elements, .. } => elements@.len() >= 2,
                _ => false,
            };
            if multi && !options_have_concurrency_spec(call.arguments@) {
                one(missing_concurrency_meta(), call.span, "Effect.all without { concurrency } runs sequentially — make it explicit"@)
            } else {
                none()
            }
        } else if prop == "forEach"@ && call.arguments@.len() >= 2 && !options_have_concurrency_spec(call.arguments@) {
            one(missing_concurrency_meta(), call.span, "Effect.forEach without { concurrency } runs sequentially — make it explicit"@)
        } else {
            none()
        },
        None => none(),
    }
}

/// `Effect.sleep(...)` or `Effect.sleep(...).pipe(...)` (parentheses removed).
pub open spec fn is_sleep_spec(e: Expr, bindings: Map<Seq<char>, Seq<char>>) -> bool {
    match unwrap_parens_spec(e) {
        Expr::Call(c) => call_module_prop_spec(*c, bindings) == Some(("Effect"@, "sleep"@)) || match static_member_spec(c.callee) {
            Some((object, prop)) => prop == "pipe"@ && match unwrap_parens_spec(object) {
                Expr::Call(root) => call_module_prop_spec(*root, bindings) == Some(("Effect"@, "sleep"@)),
                _ => false,
            },
            None => false,
        },
        _ => false,
    }
}

/// Is the expression a sleep?
pub fn is_sleep_expression(e: &Expr, ctx: &FileCtx) -> (found: bool)
    ensures
        found == is_sleep_spec(*e, ctx.imports.bindings()),
{
    match unwrap_parens(e) {
        Expr::Call(c) => {
            let direct = match call_module_prop(&**c, &ctx.imports) {
                Some((m, p)) => str_eq(m, "Effect") && str_eq(p, "sleep"),
                None => false,
            };
            if direct {
                return true;
            }
            match static_member(&c.callee) {
                Some((object, prop)) => str_eq(prop, "pipe") && match unwrap_parens(object) {
                    Expr::Call(root) => match call_module_prop(&**root, &ctx.imports) {
                        Some((m, p)) => str_eq(m, "Effect") && str_eq(p, "sleep"),
                        None => false,
                    },
                    _ => false,
                },
                None => false,
            }
        },
        _ => false,
    }
}

/// Some element is a sleep.
pub open spec fn some_sleep(elements: Seq<Expr>, bindings: Map<Seq<char>, Seq<char>>) -> bool {
    exists|j: int| 0 <= j < elements.len() && is_sleep_spec(#[trigger] elements[j], bindings)
}

/// An argument that races a sleep: a sleep, or an array holding one.
pub open spec fn races_sleep_arg(e: Expr, bindings: Map<Seq<char>, Seq<char>>) -> bool {
    match unwrap_parens_spec(e) {
        Expr::Array { elements, .. } => some_sleep(elements@, bindings),
        other => is_sleep_spec(other, bindings),
    }
}

/// Some argument races a sleep.
pub open spec fn races_sleep(args: Seq<Expr>, bindings: Map<Seq<char>, Seq<char>>) -> bool {
    exists|i: int| 0 <= i < args.len() && races_sleep_arg(#[trigger] args[i], bindings)
}

/// The racing combinators.
pub open spec fn is_race_spec(prop: Seq<char>) -> bool {
    prop == "race"@ || prop == "raceAll"@ || prop == "raceFirst"@
}

/// `Effect.race` / `raceAll` / `raceFirst` against a sleep is reported.
pub open spec fn race_sleep_findings(bindings: Map<Seq<char>, Seq<char>>, call: CallExpr) -> Seq<Finding> {
    match call_module_prop_spec(call, bindings) {
        Some((module, prop)) => if module == "Effect"@ && is_race_spec(prop) && races_sleep(call.arguments@, bindings) {
            one(race_sleep_meta(), call.span, "Effect."@ + prop + " against Effect.sleep — use Effect.timeout"@)
        } else {
            none()
        },
        None => none(),
    }
}

/// The fork combinators.
pub open spec fn is_fork_spec(prop: Seq<char>) -> bool {
    ||| prop == "fork"@
    ||| prop == "forkChild"@
    ||| prop == "forkDaemon"@
    ||| prop == "forkDetach"@
    ||| prop == "forkScoped"@
}

/// `const <name> = yield* Effect.fork(...)`: the binding name.
pub open spec fn forked_binding_spec(s: Stmt, bindings: Map<Seq<char>, Seq<char>>) -> Option<Seq<char>> {
    match s {
        Stmt::VarDecl { declarators, .. } => if declarators@.len() == 0 {
            None
        } else {
            match (declarators@[0].name, declarators@[0].init) {
                (Some(name), Some(init)) => match unwrap_parens_spec(init) {
                    Expr::Yield { delegate, argument: Some(a), .. } => if !delegate {
                        None
                    } else {
                        match unwrap_parens_spec(*a) {
                            Expr::Call(c) => match call_module_prop_spec(*c, bindings) {
                                Some((module, prop)) => if module == "Effect"@ && is_fork_spec(prop) {
                                    Some(name@)
                                } else {
                                    None
                                },
                                None => None,
                            },
                            _ => None,
                        }
                    },
                    _ => None,
                },
                _ => None,
            }
        },
        _ => None,
    }
}

/// The expression a statement yields from, parentheses removed: the first
/// declarator's initializer, the returned value, or the expression.
pub open spec fn yielded_spec(s: Stmt) -> Option<Expr> {
    match s {
        Stmt::VarDecl { declarators, .. } => if declarators@.len() > 0 {
            match declarators@[0].init {
                Some(init) => Some(unwrap_parens_spec(init)),
                None => None,
            }
        } else {
            None
        },
        Stmt::Return { argument: Some(a), .. } => Some(unwrap_parens_spec(a)),
        Stmt::Expression { expression, .. } => Some(unwrap_parens_spec(expression)),
        _ => None,
    }
}

/// The span of `yield Fiber.join(<name>)` in the statement.
pub open spec fn joins_fiber_spec(s: Stmt, name: Seq<char>, bindings: Map<Seq<char>, Seq<char>>) -> Option<Span> {
    match yielded_spec(s) {
        Some(Expr::Yield { argument: Some(a), .. }) => match unwrap_parens_spec(*a) {
            Expr::Call(c) => if call_module_prop_spec(*c, bindings) == Some(("Fiber"@, "join"@)) && c.arguments@.len() > 0 {
                match c.arguments@[0] {
                    Expr::Ident { name: n, .. } => if n@ == name {
                        Some(c.span)
                    } else {
                        None
                    },
                    _ => None,
                }
            } else {
                None
            },
            _ => None,
        },
        _ => None,
    }
}

/// The finding for the pair of statements at `i` and `i + 1`.
pub open spec fn fork_join_pair(stmts: Seq<Stmt>, bindings: Map<Seq<char>, Seq<char>>, i: int) -> Seq<Finding> {
    match forked_binding_spec(stmts[i], bindings) {
        Some(name) => match joins_fiber_spec(stmts[i + 1], name, bindings) {
            Some(span) => one(fork_join_meta(), span, "fork immediately followed by Fiber.join — just yield the effect directly"@),
            None => none(),
        },
        None => none(),
    }
}

/// The findings of the statement pairs starting before `n`.
pub open spec fn fork_join_upto(stmts: Seq<Stmt>, bindings: Map<Seq<char>, Seq<char>>, n: int) -> Seq<Finding>
    decreases n,
{
    if n <= 0 || n >= stmts.len() {
        none()
    } else {
        fork_join_upto(stmts, bindings, n - 1) + fork_join_pair(stmts, bindings, n - 1)
    }
}

/// In the generator of a direct `Effect.gen`, each `const f = yield*
/// Effect.fork(...)` immediately followed by a `yield Fiber.join(f)` is
/// reported at the join.
pub open spec fn fork_join_findings(bindings: Map<Seq<char>, Seq<char>>, call: CallExpr) -> Seq<Finding> {
    match direct_effect_gen_spec(call, bindings) {
        Some(g) => if g.body@.len() >= 2 {
            fork_join_upto(g.body@, bindings, g.body@.len() - 1)
        } else {
            none()
        },
        None => none(),
    }
}

/// The three checks, in order.
pub open spec fn concurrency_idioms_findings(bindings: Map<Seq<char>, Seq<char>>, call: CallExpr) -> Seq<Finding> {
    missing_concurrency_findings(bindings, call) + race_sleep_findings(bindings, call) + fork_join_findings(bindings, call)
}

fn forked_binding<'b>(s: &'b Stmt, ctx: &FileCtx) -> (name: Option<&'b str>)
    ensures
        match name {
            Some(n) => forked_binding_spec(*s, ctx.imports.bindings()) == Some(n@),
            None => forked_binding_spec(*s, ctx.imports.bindings()) is None,
        },
{
    match s {
        Stmt::VarDecl { declarators, .. } => {
            if declarators.len() == 0 {
                return None;
            }
            match (&declarators[0].name, &declarators[0].init) {
                (Some(name), Some(init)) => match unwrap_parens(init) {
                    Expr::Yield { delegate, argument: Some(a), .. } => {
                        if !*delegate {
                            return None;
                        }
                        match unwrap_parens(&**a) {
                            Expr::Call(c) => match call_module_prop(&**c, &ctx.imports) {
                                Some((m, p)) => {
                                    let fork = str_eq(p, "fork") || str_eq(p, "forkChild") || str_eq(p, "forkDaemon") || str_eq(p, "forkDetach")
                                        || str_eq(p, "forkScoped");
                                    if str_eq(m, "Effect") && fork {
                                        Some(name.as_str())
                                    } else {
                                        None
                                    }
                                },
                                None => None,
                            },
                            _ => None,
                        }
                    },
                    _ => None,
                },
                _ => None,
            }
        },
        _ => None,
    }
}

fn joins_fiber(s: &Stmt, name: &str, ctx: &FileCtx) -> (span: Option<Span>)
    ensures
        span == joins_fiber_spec(*s, name@, ctx.imports.bindings()),
{
    let yielded = match s {
        Stmt::VarDecl { declarators, .. } => {
            if declarators.len() == 0 {
                return None;
            }
            match &declarators[0].init {
                Some(init) => unwrap_parens(init),
                None => return None,
            }
        },
        Stmt::Return { argument: Some(a), .. } => unwrap_parens(a),
        Stmt::Expression { expression, .. } => unwrap_parens(expression),
        _ => return None,
    };
    match yielded {
        Expr::Yield { argument: Some(a), .. } => match unwrap_parens(&**a) {
            Expr::Call(c) => {
                let join = match call_module_prop(&**c, &ctx.imports) {
                    Some((m, p)) => str_eq(m, "Fiber") && str_eq(p, "join"),
                    None => false,
                };
                if !join || c.arguments.len() == 0 {
                    return None;
                }
                match &c.arguments[0] {
                    Expr::Ident { name: n, .. } => if str_eq(n.as_str(), name) {
                        Some(c.span)
                    } else {
                        None
                    },
                    _ => None,
                }
            },
            _ => None,
        },
        _ => None,
    }
}

pub struct ConcurrencyIdioms;

impl ConcurrencyIdioms {
    /// The rule ids this rule owns.
    pub fn metas(&self) -> (metas: Vec<RuleMeta>)
        ensures
            metas@ == seq![missing_concurrency_meta(), race_sleep_meta(), fork_join_meta()],
    {
        let mut metas: Vec<RuleMeta> = Vec::new();
        metas.push(missing_concurrency_meta());
        metas.push(race_sleep_meta());
        metas.push(fork_join_meta());
        metas
    }

    fn check_missing_concurrency(&self, call: &CallExpr, ctx: &mut FileCtx)
        ensures
            final(ctx).findings() == old(ctx).findings() + missing_concurrency_findings(old(ctx).imports.bindings(), *call),
            final(ctx).same_walk(old(ctx)),
    {
        let (is_all, is_for_each) = match call_module_prop(call, &ctx.imports) {
            Some((m, p)) => (str_eq(m, "Effect") && str_eq(p, "all"), str_eq(m, "Effect") && str_eq(p, "forEach")),
            None => (false, false),
        };
        if is_all {
            let multi = call.arguments.len() > 0 && match &call.arguments[0] {
                Expr::Array { elements, .. } => elements.len() >= 2,
                _ => false,
            };
            if multi && !options_have_concurrency(call) {
                ctx.report(missing_concurrency_meta(), call.span, owned("Effect.all without { concurrency } runs sequentially — make it explicit"));
                assert(old(ctx).findings() + missing_concurrency_findings(old(ctx).imports.bindings(), *call) =~= ctx.findings());
            } else {
                assert(old(ctx).findings() + none() =~= old(ctx).findings());
            }
            return;
        }
        if is_for_each && call.arguments.len() >= 2 && !options_have_concurrency(call) {
            ctx.report(missing_concurrency_meta(), call.span, owned("Effect.forEach without { concurrency } runs sequentially — make it explicit"));
            assert(old(ctx).findings() + missing_concurrency_findings(old(ctx).imports.bindings(), *call) =~= ctx.findings());
        } else {
            assert(old(ctx).findings() + none() =~= old(ctx).findings());
        }
    }

    fn check_race_sleep(&self, call: &CallExpr, ctx: &mut FileCtx)
        ensures
            final(ctx).findings() == old(ctx).findings() + race_sleep_findings(old(ctx).imports.bindings(), *call),
            final(ctx).same_walk(old(ctx)),
    {
        let prop_owned = match call_module_prop(call, &ctx.imports) {
            Some((m, p)) => {
                if !str_eq(m, "Effect") || !(str_eq(p, "race") || str_eq(p, "raceAll") || str_eq(p, "raceFirst")) {
                    assert(old(ctx).findings() + none() =~= old(ctx).findings());
                    return;
                }
                owned(p)
            },
            None => {
                assert(old(ctx).findings() + none() =~= old(ctx).findings());
                return;
            },
        };
        let ghost bindings = ctx.imports.bindings();
        let mut found = false;
        let mut i: usize = 0;
        while i < call.arguments.len() && !found
            invariant
                i <= call.arguments@.len(),
                bindings == ctx.imports.bindings(),
                found ==> races_sleep(call.arguments@, bindings),
                !found ==> forall|m: int| 0 <= m < i ==> !races_sleep_arg(#[trigger] call.arguments@[m], bindings),
            decreases call.arguments@.len() - i + (if found { 0int } else { 1int }),
        {
            let arg = &call.arguments[i];
            let hit = match unwrap_parens(arg) {
                Expr::Array { elements, .. } => {
                    let mut any = false;
                    let mut j: usize = 0;
                    while j < elements.len() && !any
                        invariant
                            j <= elements@.len(),
                            bindings == ctx.imports.bindings(),
                            any ==> some_sleep(elements@, bindings),
                            !any ==> forall|m: int| 0 <= m < j ==> !is_sleep_spec(#[trigger] elements@[m], bindings),
                        decreases elements@.len() - j + (if any { 0int } else { 1int }),
                    {
                        if is_sleep_expression(&elements[j], ctx) {
                            any = true;
                        } else {
                            j += 1;
                        }
                    }
                    any
                },
                other => is_sleep_expression(other, ctx),
            };
            if hit {
                assert(races_sleep_arg(call.arguments@[i as int], bindings));
                found = true;
            } else {
                assert(!races_sleep_arg(call.arguments@[i as int], bindings));
                i += 1;
            }
        }
        if !found {
            assert(old(ctx).findings() + none() =~= old(ctx).findings());
            return;
        }
        let message = concat3("Effect.", prop_owned.as_str(), " against Effect.sleep — use Effect.timeout");
        ctx.report(race_sleep_meta(), call.span, message);
        assert(old(ctx).findings() + race_sleep_findings(old(ctx).imports.bindings(), *call) =~= ctx.findings());
    }

    fn check_fork_join(&self, call: &CallExpr, ctx: &mut FileCtx)
        ensures
            final(ctx).findings() == old(ctx).findings() + fork_join_findings(old(ctx).imports.bindings(), *call),
            final(ctx).same_walk(old(ctx)),
    {
        let ghost bindings = ctx.imports.bindings();
        let ghost expected = fork_join_findings(bindings, *call);
        let mut spans: Vec<Span> = Vec::new();
        match direct_effect_gen(call, &ctx.imports) {
            Some(generator) => {
                let statements = &generator.body;
                if statements.len() >= 2 {
                    let mut index: usize = 0;
                    while index < statements.len() - 1
                        invariant
                            statements@.len() >= 2,
                            index + 1 <= statements@.len(),
                            bindings == ctx.imports.bindings(),
                            spans@.len() == fork_join_upto(statements@, bindings, index as int).len(),
                            forall|k: int| 0 <= k < spans@.len() ==> fork_join_upto(statements@, bindings, index as int)[k]
                                == (fork_join_meta(), #[trigger] spans@[k], "fork immediately followed by Fiber.join — just yield the effect directly"@, None::<Severity>),
                        decreases statements@.len() - index,
                    {
                        let ghost before = spans@;
                        match forked_binding(&statements[index], ctx) {
                            Some(name) => match joins_fiber(&statements[index + 1], name, ctx) {
                                Some(span) => {
                                    spans.push(span);
                                },
                                None => {},
                            },
                            None => {},
                        }
                        proof {
                            assert forall|k: int| 0 <= k < spans@.len() implies fork_join_upto(statements@, bindings, index + 1)[k]
                                == (fork_join_meta(), #[trigger] spans@[k], "fork immediately followed by Fiber.join — just yield the effect directly"@, None::<Severity>) by {
                                if k < before.len() {
                                    assert(spans@[k] == before[k]);
                                }
                            }
                        }
                        index += 1;
                    }
                    assert(expected == fork_join_upto(statements@, bindings, index as int));
                } else {
                    assert(expected =~= none());
                }
            },
            None => {
                assert(expected =~= none());
            },
        }
        let ghost start = ctx.findings();
        let mut k: usize = 0;
        while k < spans.len()
            invariant
                k <= spans@.len(),
                spans@.len() == expected.len(),
                forall|m: int| 0 <= m < spans@.len() ==> expected[m] == (fork_join_meta(), #[trigger] spans@[m], "fork immediately followed by Fiber.join — just yield the effect directly"@, None::<Severity>),
                ctx.findings() == start + expected.take(k as int),
                ctx.same_walk(old(ctx)),
                start == old(ctx).findings(),
            decreases spans@.len() - k,
        {
            ctx.report(fork_join_meta(), spans[k], owned("fork immediately followed by Fiber.join — just yield the effect directly"));
            assert(ctx.findings() =~= start + expected.take(k + 1));
            k += 1;
        }
        assert(expected.take(k as int) =~= expected);
    }

    /// A call expression.
    pub fn on_call(&self, call: &CallExpr, ctx: &mut FileCtx)
        ensures
            final(ctx).findings() == old(ctx).findings() + concurrency_idioms_findings(old(ctx).imports.bindings(), *call),
            final(ctx).same_walk(old(ctx)),
    {
        self.check_missing_concurrency(call, ctx);
        self.check_race_sleep(call, ctx);
        self.check_fork_join(call, ctx);
        assert(old(ctx).findings() + concurrency_idioms_findings(old(ctx).imports.bindings(), *call) =~= ctx.findings());
    }
}

} // verus!
