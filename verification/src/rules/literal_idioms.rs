//! `prefer-duration-over-raw-millis` and `prefer-succeed-over-sync-literal`.
use vstd::prelude::*;

use crate::ast::{CallExpr, Expr};
use crate::diagnostics::Span;
use crate::diagnostics::{Category, RuleMeta, Severity};
use crate::matchers::{arrow_body_expression, arrow_body_spec, call_module_prop, call_module_prop_spec, unwrap_parens, unwrap_parens_spec};
use crate::rules::{none, one, FileCtx, Finding};
use crate::text::{owned, push_str, str_eq};

verus! {

/// Catalog metadata of `prefer-duration-over-raw-millis`.
#[verifier::allow_in_spec]
pub fn raw_millis_meta() -> RuleMeta
    returns
        (RuleMeta {
            id: "prefer-duration-over-raw-millis",
            severity: Severity::Info,
            category: Category::Idiomatic,
            help: "A bare number for time is ambiguous (ms? s?). Duration strings (\"2 seconds\") or Duration.seconds(2) eliminate the guesswork.",
        }),
{
    RuleMeta {
        id: "prefer-duration-over-raw-millis",
        severity: Severity::Info,
        category: Category::Idiomatic,
        help: "A bare number for time is ambiguous (ms? s?). Duration strings (\"2 seconds\") or Duration.seconds(2) eliminate the guesswork.",
    }
}

/// Catalog metadata of `prefer-succeed-over-sync-literal`.
#[verifier::allow_in_spec]
pub fn sync_literal_meta() -> RuleMeta
    returns
        (RuleMeta {
            id: "prefer-succeed-over-sync-literal",
            severity: Severity::Info,
            category: Category::Idiomatic,
            help: "Effect.sync(() => literal) adds a pointless thunk — Effect.succeed(literal) is direct.",
        }),
{
    RuleMeta {
        id: "prefer-succeed-over-sync-literal",
        severity: Severity::Info,
        category: Category::Idiomatic,
        help: "Effect.sync(() => literal) adds a pointless thunk — Effect.succeed(literal) is direct.",
    }
}

/// The functions whose arguments are durations.
pub open spec fn takes_duration_spec(module: Seq<char>, prop: Seq<char>) -> bool {
    if module == "Effect"@ {
        ||| prop == "sleep"@
        ||| prop == "delay"@
        ||| prop == "timeout"@
        ||| prop == "timeoutTo"@
        ||| prop == "timeoutFail"@
        ||| prop == "interruptAfter"@
        ||| prop == "cachedWithTTL"@
    } else if module == "Schedule"@ {
        ||| prop == "spaced"@
        ||| prop == "fixed"@
        ||| prop == "exponential"@
        ||| prop == "upTo"@
    } else if module == "Stream"@ {
        ||| prop == "timeout"@
        ||| prop == "debounce"@
        ||| prop == "interruptAfter"@
        ||| prop == "groupedWithin"@
    } else {
        false
    }
}

/// Does `<module>.<prop>` take a duration?
pub fn takes_duration(module: &str, prop: &str) -> (found: bool)
    ensures
        found == takes_duration_spec(module@, prop@),
{
    if str_eq(module, "Effect") {
        str_eq(prop, "sleep") || str_eq(prop, "delay") || str_eq(prop, "timeout") || str_eq(prop, "timeoutTo") || str_eq(prop, "timeoutFail")
            || str_eq(prop, "interruptAfter") || str_eq(prop, "cachedWithTTL")
    } else if str_eq(module, "Schedule") {
        str_eq(prop, "spaced") || str_eq(prop, "fixed") || str_eq(prop, "exponential") || str_eq(prop, "upTo")
    } else if str_eq(module, "Stream") {
        str_eq(prop, "timeout") || str_eq(prop, "debounce") || str_eq(prop, "interruptAfter") || str_eq(prop, "groupedWithin")
    } else {
        false
    }
}

/// The arguments that are expressions (spreads left out), in order.
pub open spec fn expression_args(args: Seq<Expr>) -> Seq<Expr>
    decreases args.len(),
{
    if args.len() == 0 {
        Seq::empty()
    } else if args.last() is Spread {
        expression_args(args.drop_last())
    } else {
        expression_args(args.drop_last()).push(args.last())
    }
}

/// The first numeric literal among `args` (parentheses removed): its source
/// text and span.
pub open spec fn first_number(args: Seq<Expr>) -> Option<(Option<String>, Span)>
    decreases args.len(),
{
    if args.len() == 0 {
        None
    } else {
        match unwrap_parens_spec(args[0]) {
            Expr::Number { raw, span } => Some((raw, span)),
            _ => first_number(args.drop_first()),
        }
    }
}

/// The source text of a number, `n` when the parser kept none.
pub open spec fn raw_text(raw: Option<String>) -> Seq<char> {
    match raw {
        Some(r) => r@,
        None => "n"@,
    }
}

/// A call of a duration-taking function whose first two expression arguments
/// hold a raw number (and whose first is not a duration string) is reported
/// at the number.
pub open spec fn duration_findings(bindings: Map<Seq<char>, Seq<char>>, call: CallExpr) -> Seq<Finding> {
    match call_module_prop_spec(call, bindings) {
        Some((module, prop)) => {
            let args = expression_args(call.arguments@);
            let leading = if args.len() > 2 { args.take(2) } else { args };
            if !takes_duration_spec(module, prop) {
                none()
            } else if leading.len() > 0 && unwrap_parens_spec(leading[0]) is Str {
                none()
            } else {
                match first_number(leading) {
                    Some((raw, span)) => one(
                        raw_millis_meta(),
                        span,
                        module + "."@ + prop + "("@ + raw_text(raw) + ") — is that ms or s? Use a Duration (\""@ + raw_text(raw)
                            + " millis\")"@,
                    ),
                    None => none(),
                }
            }
        },
        None => none(),
    }
}

/// A literal: string, number, boolean, `null`, or a template without
/// interpolations (parentheses removed).
pub open spec fn is_primitive_literal_spec(e: Expr) -> bool {
    match unwrap_parens_spec(e) {
        Expr::Str { .. } => true,
        Expr::Number { .. } => true,
        Expr::Bool { .. } => true,
        Expr::Null { .. } => true,
        Expr::Template { expressions, .. } => expressions@.len() == 0,
        _ => false,
    }
}

/// Is the expression a primitive literal?
pub fn is_primitive_literal(e: &Expr) -> (found: bool)
    ensures
        found == is_primitive_literal_spec(*e),
{
    match unwrap_parens(e) {
        Expr::Str { .. } => true,
        Expr::Number { .. } => true,
        Expr::Bool { .. } => true,
        Expr::Null { .. } => true,
        Expr::Template { expressions, .. } => expressions.len() == 0,
        _ => false,
    }
}

/// `Effect.sync(() => <literal>)` is reported.
pub open spec fn sync_literal_findings(bindings: Map<Seq<char>, Seq<char>>, call: CallExpr) -> Seq<Finding> {
    if call_module_prop_spec(call, bindings) == Some(("Effect"@, "sync"@)) && call.arguments@.len() > 0 {
        match call.arguments@[0] {
            Expr::Function(f) => if f.is_arrow {
                match arrow_body_spec(*f) {
                    Some(body) => if is_primitive_literal_spec(body) {
                        one(sync_literal_meta(), call.span, "Effect.sync(() => literal) — use Effect.succeed(literal)"@)
                    } else {
                        none()
                    },
                    None => none(),
                }
            } else {
                none()
            },
            _ => none(),
        }
    } else {
        none()
    }
}

/// Both checks, in order.
pub open spec fn literal_idioms_findings(bindings: Map<Seq<char>, Seq<char>>, call: CallExpr) -> Seq<Finding> {
    duration_findings(bindings, call) + sync_literal_findings(bindings, call)
}

fn leading_expression_args(args: &Vec<Expr>) -> (leading: Vec<&Expr>)
    ensures
        leading@.len() == (if expression_args(args@).len() > 2 { 2 } else { expression_args(args@).len() }),
        forall|k: int| 0 <= k < leading@.len() ==> *(#[trigger] leading@[k]) == expression_args(args@)[k],
{
    let mut leading: Vec<&Expr> = Vec::new();
    let mut i: usize = 0;
    while i < args.len()
        invariant
            i <= args@.len(),
            leading@.len() == (if expression_args(args@.take(i as int)).len() > 2 { 2 } else { expression_args(args@.take(i as int)).len() }),
            forall|k: int| 0 <= k < leading@.len() ==> *(#[trigger] leading@[k]) == expression_args(args@.take(i as int))[k],
        decreases args@.len() - i,
    {
        assert(args@.take(i + 1).drop_last() =~= args@.take(i as int));
        match &args[i] {
            Expr::Spread { .. } => {},
            e => {
                if leading.len() < 2 {
                    leading.push(e);
                }
            },
        }
        i += 1;
    }
    assert(args@.take(i as int) =~= args@);
    leading
}

pub struct LiteralIdioms;

impl LiteralIdioms {
    /// The rule ids this rule owns.
    pub fn metas(&self) -> (metas: Vec<RuleMeta>)
        ensures
            metas@ == seq![raw_millis_meta(), sync_literal_meta()],
    {
        let mut metas: Vec<RuleMeta> = Vec::new();
        metas.push(raw_millis_meta());
        metas.push(sync_literal_meta());
        metas
    }

    fn check_duration(&self, call: &CallExpr, ctx: &mut FileCtx)
        ensures
            final(ctx).findings() == old(ctx).findings() + duration_findings(old(ctx).imports.bindings(), *call),
            final(ctx).same_walk(old(ctx)),
    {
        let (module, prop) = match call_module_prop(call, &ctx.imports) {
            Some(found) => found,
            None => {
                assert(old(ctx).findings() + none() =~= old(ctx).findings());
                return;
            },
        };
        if !takes_duration(module, prop) {
            assert(old(ctx).findings() + none() =~= old(ctx).findings());
            return;
        }
        let leading = leading_expression_args(&call.arguments);
        let ghost args = expression_args(call.arguments@);
        let ghost lead = if args.len() > 2 { args.take(2) } else { args };
        assert(leading@.len() == lead.len());
        if leading.len() > 0 {
            assert(*leading@[0] == lead[0]);
            if let Expr::Str { .. } = unwrap_parens(leading[0]) {
                assert(old(ctx).findings() + none() =~= old(ctx).findings());
                return;
            }
        }
        let mut found: Option<(&Option<String>, Span)> = None;
        let mut k: usize = 0;
        assert(lead.skip(0) =~= lead);
        while k < leading.len() && found.is_none()
            invariant
                k <= leading@.len(),
                leading@.len() == lead.len(),
                leading@.len() <= 2,
                forall|m: int| 0 <= m < leading@.len() ==> *(#[trigger] leading@[m]) == lead[m],
                found is None ==> first_number(lead) == first_number(lead.skip(k as int)),
                found matches Some((raw, span)) ==> first_number(lead) == Some((*raw, span)),
            decreases leading@.len() - k,
        {
            assert(lead.skip(k as int)[0] == lead[k as int]);
            assert(lead.skip(k as int).drop_first() =~= lead.skip(k + 1));
            match unwrap_parens(leading[k]) {
                Expr::Number { raw, span } => {
                    found = Some((raw, *span));
                },
                _ => {},
            }
            k += 1;
        }
        match found {
            Some((raw, span)) => {
                let text = match raw {
                    Some(r) => r.as_str(),
                    None => "n",
                };
                let mut message = owned(module);
                push_str(&mut message, ".");
                push_str(&mut message, prop);
                push_str(&mut message, "(");
                push_str(&mut message, text);
                push_str(&mut message, ") — is that ms or s? Use a Duration (\"");
                push_str(&mut message, text);
                push_str(&mut message, " millis\")");
                ctx.report(raw_millis_meta(), span, message);
                assert(old(ctx).findings() + duration_findings(old(ctx).imports.bindings(), *call) =~= ctx.findings());
            },
            None => {
                assert(lead.skip(k as int).len() == 0);
                assert(old(ctx).findings() + none() =~= old(ctx).findings());
            },
        }
    }

    fn check_sync_literal(&self, call: &CallExpr, ctx: &mut FileCtx)
        ensures
            final(ctx).findings() == old(ctx).findings() + sync_literal_findings(old(ctx).imports.bindings(), *call),
            final(ctx).same_walk(old(ctx)),
    {
        let is_sync = match call_module_prop(call, &ctx.imports) {
            Some((module, prop)) => str_eq(module, "Effect") && str_eq(prop, "sync"),
            None => false,
        };
        if !is_sync || call.arguments.len() == 0 {
            assert(old(ctx).findings() + none() =~= old(ctx).findings());
            return;
        }
        let hit = match &call.arguments[0] {
            Expr::Function(f) => f.is_arrow && match arrow_body_expression(&**f) {
                Some(body) => is_primitive_literal(body),
                None => false,
            },
            _ => false,
        };
        if !hit {
            assert(old(ctx).findings() + none() =~= old(ctx).findings());
            return;
        }
        ctx.report(sync_literal_meta(), call.span, owned("Effect.sync(() => literal) — use Effect.succeed(literal)"));
        assert(old(ctx).findings() + sync_literal_findings(old(ctx).imports.bindings(), *call) =~= ctx.findings());
    }

    /// A call expression.
    pub fn on_call(&self, call: &CallExpr, ctx: &mut FileCtx)
        ensures
            final(ctx).findings() == old(ctx).findings() + literal_idioms_findings(old(ctx).imports.bindings(), *call),
            final(ctx).same_walk(old(ctx)),
    {
        self.check_duration(call, ctx);
        self.check_sync_literal(call, ctx);
        assert(old(ctx).findings() + literal_idioms_findings(old(ctx).imports.bindings(), *call) =~= ctx.findings());
    }
}

} // verus!
