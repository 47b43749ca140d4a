//! Globals inside Effect code: raw timers, global `fetch`, `JSON.parse` /
//! `JSON.stringify`, and `process.env`.
use vstd::prelude::*;

use crate::ast::{CallExpr, Expr};
use crate::diagnostics::{Category, RuleMeta, Severity, Span};
use crate::matchers::{ident_name, ident_name_spec, static_member, static_member_spec};
use crate::rules::{in_effect_code_spec, none, one, FileCtx, Finding, FrameKind};
use crate::text::{concat2, concat3, owned, str_eq};

verus! {

/// Catalog metadata of `prefer-effect-timers`.
#[verifier::allow_in_spec]
pub fn prefer_effect_timers_meta() -> RuleMeta
    returns
        (RuleMeta {
            id: "prefer-effect-timers",
            severity: Severity::Warn,
            category: Category::Idiomatic,
            help: "Raw timers escape Effect's interruption and TestClock. Use Effect.sleep, Schedule, or Effect.repeat.",
        }),
{
    RuleMeta {
        id: "prefer-effect-timers",
        severity: Severity::Warn,
        category: Category::Idiomatic,
        help: "Raw timers escape Effect's interruption and TestClock. Use Effect.sleep, Schedule, or Effect.repeat.",
    }
}

/// Catalog metadata of `prefer-platform-fetch`.
#[verifier::allow_in_spec]
pub fn prefer_platform_fetch_meta() -> RuleMeta
    returns
        (RuleMeta {
            id: "prefer-platform-fetch",
            severity: Severity::Warn,
            category: Category::Idiomatic,
            help: "Global fetch has untyped errors and no tracing/interruption integration. Use HttpClient from effect (platform).",
        }),
{
    RuleMeta {
        id: "prefer-platform-fetch",
        severity: Severity::Warn,
        category: Category::Idiomatic,
        help: "Global fetch has untyped errors and no tracing/interruption integration. Use HttpClient from effect (platform).",
    }
}

/// Catalog metadata of `prefer-config-module`.
#[verifier::allow_in_spec]
pub fn prefer_config_module_meta() -> RuleMeta
    returns
        (RuleMeta {
            id: "prefer-config-module",
            severity: Severity::Warn,
            category: Category::Idiomatic,
            help: "Direct process.env reads are untyped and unvalidated. The Config module gives typed, validated configuration with redaction support.",
        }),
{
    RuleMeta {
        id: "prefer-config-module",
        severity: Severity::Warn,
        category: Category::Idiomatic,
        help: "Direct process.env reads are untyped and unvalidated. The Config module gives typed, validated configuration with redaction support.",
    }
}

/// Catalog metadata of `prefer-schema-over-json`.
#[verifier::allow_in_spec]
pub fn prefer_schema_over_json_meta() -> RuleMeta
    returns
        (RuleMeta {
            id: "prefer-schema-over-json",
            severity: Severity::Info,
            category: Category::Idiomatic,
            help: "Raw JSON.parse returns `any` and throws. At data boundaries use Schema.fromJsonString / UnknownFromJsonString for typed, validated decoding.",
        }),
{
    RuleMeta {
        id: "prefer-schema-over-json",
        severity: Severity::Info,
        category: Category::Idiomatic,
        help: "Raw JSON.parse returns `any` and throws. At data boundaries use Schema.fromJsonString / UnknownFromJsonString for typed, validated decoding.",
    }
}

/// `setTimeout` or `setInterval`.
pub open spec fn is_timer_spec(name: Seq<char>) -> bool {
    name == "setTimeout"@ || name == "setInterval"@
}

/// Is `name` a raw timer?
pub fn is_timer(name: &str) -> (found: bool)
    ensures
        found == is_timer_spec(name@),
{
    str_eq(name, "setTimeout") || str_eq(name, "setInterval")
}

/// Inside Effect code: a call of a raw timer, of global `fetch`, or of
/// `JSON.parse` / `JSON.stringify` is reported (the first that applies).
pub open spec fn globals_call_findings(stack: Seq<FrameKind>, call: CallExpr) -> Seq<Finding> {
    if !in_effect_code_spec(stack) {
        none()
    } else {
        match ident_name_spec(call.callee) {
            Some(name) if is_timer_spec(name) => one(
                prefer_effect_timers_meta(),
                call.span,
                name + " inside Effect code — use Effect.sleep / Schedule"@,
            ),
            Some(name) if name == "fetch"@ => one(prefer_platform_fetch_meta(), call.span, "global fetch inside Effect code — use HttpClient"@),
            _ => match static_member_spec(call.callee) {
                Some((object, prop)) => if ident_name_spec(object) == Some("JSON"@) && (prop == "parse"@ || prop == "stringify"@) {
                    one(prefer_schema_over_json_meta(), call.span, "JSON."@ + prop + " inside Effect code — use Schema.fromJsonString"@)
                } else {
                    none()
                },
                None => none(),
            },
        }
    }
}

/// `process.env` inside Effect code is reported.
pub open spec fn globals_member_findings(stack: Seq<FrameKind>, object: Expr, property: Seq<char>, span: Span) -> Seq<Finding> {
    if in_effect_code_spec(stack) && ident_name_spec(object) == Some("process"@) && property == "env"@ {
        one(prefer_config_module_meta(), span, "process.env inside Effect code — use the Config module"@)
    } else {
        none()
    }
}

pub struct GlobalsInEffect;

impl GlobalsInEffect {
    /// The rule ids this rule owns.
    pub fn metas(&self) -> (metas: Vec<RuleMeta>)
        ensures
            metas@ == seq![prefer_effect_timers_meta(), prefer_platform_fetch_meta(), prefer_config_module_meta(), prefer_schema_over_json_meta()],
    {
        let mut metas: Vec<RuleMeta> = Vec::new();
        metas.push(prefer_effect_timers_meta());
        metas.push(prefer_platform_fetch_meta());
        metas.push(prefer_config_module_meta());
        metas.push(prefer_schema_over_json_meta());
        metas
    }

    /// A call expression.
    pub fn on_call(&self, call: &CallExpr, ctx: &mut FileCtx)
        ensures
            final(ctx).findings() == old(ctx).findings() + globals_call_findings(old(ctx).stack@, *call),
            final(ctx).same_walk(old(ctx)),
    {
        if !ctx.in_effect_code() {
            assert(old(ctx).findings() + none() =~= old(ctx).findings());
            return;
        }
        match ident_name(&call.callee) {
            Some(name) => {
                if is_timer(name) {
                    let message = concat2(name, " inside Effect code — use Effect.sleep / Schedule");
                    ctx.report(prefer_effect_timers_meta(), call.span, message);
                    assert(old(ctx).findings() + globals_call_findings(old(ctx).stack@, *call) =~= ctx.findings());
                    return;
                }
                if str_eq(name, "fetch") {
                    ctx.report(prefer_platform_fetch_meta(), call.span, owned("global fetch inside Effect code — use HttpClient"));
                    assert(old(ctx).findings() + globals_call_findings(old(ctx).stack@, *call) =~= ctx.findings());
                    return;
                }
            },
            None => {},
        }
        match static_member(&call.callee) {
            Some((object, prop)) => {
                let is_json = match ident_name(object) {
                    Some(name) => str_eq(name, "JSON"),
                    None => false,
                };
                if is_json && (str_eq(prop, "parse") || str_eq(prop, "stringify")) {
                    let message = concat3("JSON.", prop, " inside Effect code — use Schema.fromJsonString");
                    ctx.report(prefer_schema_over_json_meta(), call.span, message);
                    assert(old(ctx).findings() + globals_call_findings(old(ctx).stack@, *call) =~= ctx.findings());
                } else {
                    assert(old(ctx).findings() + none() =~= old(ctx).findings());
                }
            },
            None => {
                assert(old(ctx).findings() + none() =~= old(ctx).findings());
            },
        }
    }

    /// A static member expression `<object>.<property>`.
    pub fn on_member(&self, object: &Expr, property: &str, span: Span, ctx: &mut FileCtx)
        ensures
            final(ctx).findings() == old(ctx).findings() + globals_member_findings(old(ctx).stack@, *object, property@, span),
            final(ctx).same_walk(old(ctx)),
    {
        let is_process = match ident_name(object) {
            Some(name) => str_eq(name, "process"),
            None => false,
        };
        if !ctx.in_effect_code() || !is_process || !str_eq(property, "env") {
            assert(old(ctx).findings() + none() =~= old(ctx).findings());
            return;
        }
        ctx.report(prefer_config_module_meta(), span, owned("process.env inside Effect code — use the Config module"));
        assert(old(ctx).findings() + globals_member_findings(old(ctx).stack@, *object, property@, span) =~= ctx.findings());
    }
}

} // verus!
