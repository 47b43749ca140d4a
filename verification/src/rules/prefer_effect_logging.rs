//! `prefer-effect-logging`: `console.*` inside Effect code.
use vstd::prelude::*;

use crate::ast::CallExpr;
use crate::diagnostics::{Category, RuleMeta, Severity};
use crate::matchers::{ident_name, ident_name_spec, static_member, static_member_spec};
use crate::rules::{in_effect_code_spec, none, one, FileCtx, Finding, FrameKind};
use crate::text::{concat3, str_eq};

verus! {

/// Catalog metadata of `prefer-effect-logging`.
#[verifier::allow_in_spec]
pub fn prefer_effect_logging_meta() -> RuleMeta
    returns
        (RuleMeta {
            id: "prefer-effect-logging",
            severity: Severity::Warn,
            category: Category::Idiomatic,
            help: "console.* bypasses Effect's structured, context-aware logging (levels, spans, annotations). Use Effect.log / Effect.logInfo / Effect.logError.",
        }),
{
    RuleMeta {
        id: "prefer-effect-logging",
        severity: Severity::Warn,
        category: Category::Idiomatic,
        help: "console.* bypasses Effect's structured, context-aware logging (levels, spans, annotations). Use Effect.log / Effect.logInfo / Effect.logError.",
    }
}

/// The `console` methods that log.
pub open spec fn is_console_method_spec(prop: Seq<char>) -> bool {
    ||| prop == "log"@
    ||| prop == "warn"@
    ||| prop == "error"@
    ||| prop == "info"@
    ||| prop == "debug"@
    ||| prop == "trace"@
}

/// Is `prop` a logging method of `console`?
pub fn is_console_method(prop: &str) -> (found: bool)
    ensures
        found == is_console_method_spec(prop@),
{
    str_eq(prop, "log") || str_eq(prop, "warn") || str_eq(prop, "error") || str_eq(prop, "info") || str_eq(prop, "debug")
        || str_eq(prop, "trace")
}

/// `console.<log method>(...)` inside Effect code is reported.
pub open spec fn prefer_effect_logging_findings(stack: Seq<FrameKind>, call: CallExpr) -> Seq<Finding> {
    match static_member_spec(call.callee) {
        Some((object, prop)) => if in_effect_code_spec(stack) && ident_name_spec(object) == Some("console"@)
            && is_console_method_spec(prop) {
            one(prefer_effect_logging_meta(), call.span, "console."@ + prop + " inside Effect code — use Effect.log*"@)
        } else {
            none()
        },
        None => none(),
    }
}

pub struct PreferEffectLogging;

impl PreferEffectLogging {
    /// The rule ids this rule owns.
    pub fn metas(&self) -> (metas: Vec<RuleMeta>)
        ensures
            metas@ == seq![prefer_effect_logging_meta()],
    {
        let mut metas: Vec<RuleMeta> = Vec::new();
        metas.push(prefer_effect_logging_meta());
        metas
    }

    /// A call expression.
    pub fn on_call(&self, call: &CallExpr, ctx: &mut FileCtx)
        ensures
            final(ctx).findings() == old(ctx).findings() + prefer_effect_logging_findings(old(ctx).stack@, *call),
            final(ctx).same_walk(old(ctx)),
    {
        if !ctx.in_effect_code() {
            assert(old(ctx).findings() + none() =~= old(ctx).findings());
            return;
        }
        let message = match static_member(&call.callee) {
            Some((object, prop)) => {
                let is_console = match ident_name(object) {
                    Some(name) => str_eq(name, "console"),
                    None => false,
                };
                if !is_console || !is_console_method(prop) {
                    assert(old(ctx).findings() + none() =~= old(ctx).findings());
                    return;
                }
                concat3("console.", prop, " inside Effect code — use Effect.log*")
            },
            None => {
                assert(old(ctx).findings() + none() =~= old(ctx).findings());
                return;
            },
        };
        ctx.report(prefer_effect_logging_meta(), call.span, message);
        assert(old(ctx).findings() + prefer_effect_logging_findings(old(ctx).stack@, *call) =~= ctx.findings());
    }
}

} // verus!
