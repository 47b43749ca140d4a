//! `prefer-clock-service`: reading the wall clock directly inside Effect code.
use vstd::prelude::*;

use crate::ast::CallExpr;
use crate::diagnostics::{Category, RuleMeta, Severity};
use crate::matchers::{ident_name, ident_name_spec, static_member, static_member_spec};
use crate::rules::{in_effect_code_spec, none, one, FileCtx, Finding, FrameKind};
use crate::text::{owned, str_eq};

verus! {

/// Catalog metadata of `prefer-clock-service`.
#[verifier::allow_in_spec]
pub fn prefer_clock_service_meta() -> RuleMeta
    returns
        (RuleMeta {
            id: "prefer-clock-service",
            severity: Severity::Warn,
            category: Category::Idiomatic,
            help: "Reading the wall clock directly makes Effect code untestable. Use `Clock.currentTimeMillis` / `DateTime.now` so TestClock can control time in tests.",
        }),
{
    RuleMeta {
        id: "prefer-clock-service",
        severity: Severity::Warn,
        category: Category::Idiomatic,
        help: "Reading the wall clock directly makes Effect code untestable. Use `Clock.currentTimeMillis` / `DateTime.now` so TestClock can control time in tests.",
    }
}

/// `Date.now()` inside Effect code is reported.
pub open spec fn prefer_clock_call_findings(stack: Seq<FrameKind>, call: CallExpr) -> Seq<Finding> {
    match static_member_spec(call.callee) {
        Some((object, prop)) => if in_effect_code_spec(stack) && ident_name_spec(object) == Some("Date"@) && prop == "now"@ {
            one(prefer_clock_service_meta(), call.span, "Date.now() inside Effect code — use Clock.currentTimeMillis"@)
        } else {
            none()
        },
        None => none(),
    }
}

/// `new Date()` (no arguments) inside Effect code is reported.
pub open spec fn prefer_clock_new_findings(stack: Seq<FrameKind>, new_expr: CallExpr) -> Seq<Finding> {
    if in_effect_code_spec(stack) && ident_name_spec(new_expr.callee) == Some("Date"@) && new_expr.arguments@.len() == 0 {
        one(prefer_clock_service_meta(), new_expr.span, "new Date() inside Effect code — use DateTime.now"@)
    } else {
        none()
    }
}

pub struct PreferClockService;

impl PreferClockService {
    /// The rule ids this rule owns.
    pub fn metas(&self) -> (metas: Vec<RuleMeta>)
        ensures
            metas@ == seq![prefer_clock_service_meta()],
    {
        let mut metas: Vec<RuleMeta> = Vec::new();
        metas.push(prefer_clock_service_meta());
        metas
    }

    /// A call expression.
    pub fn on_call(&self, call: &CallExpr, ctx: &mut FileCtx)
        ensures
            final(ctx).findings() == old(ctx).findings() + prefer_clock_call_findings(old(ctx).stack@, *call),
            final(ctx).same_walk(old(ctx)),
    {
        let hit = ctx.in_effect_code() && match static_member(&call.callee) {
            Some((object, prop)) => match ident_name(object) {
                Some(name) => str_eq(name, "Date") && str_eq(prop, "now"),
                None => false,
            },
            None => false,
        };
        if !hit {
            assert(old(ctx).findings() + none() =~= old(ctx).findings());
            return;
        }
        ctx.report(prefer_clock_service_meta(), call.span, owned("Date.now() inside Effect code — use Clock.currentTimeMillis"));
        assert(old(ctx).findings() + prefer_clock_call_findings(old(ctx).stack@, *call) =~= ctx.findings());
    }

    /// A `new` expression.
    pub fn on_new(&self, new_expr: &CallExpr, ctx: &mut FileCtx)
        ensures
            final(ctx).findings() == old(ctx).findings() + prefer_clock_new_findings(old(ctx).stack@, *new_expr),
            final(ctx).same_walk(old(ctx)),
    {
        let is_date = match ident_name(&new_expr.callee) {
            Some(name) => str_eq(name, "Date"),
            None => false,
        };
        if !ctx.in_effect_code() || !is_date || new_expr.arguments.len() != 0 {
            assert(old(ctx).findings() + none() =~= old(ctx).findings());
            return;
        }
        ctx.report(prefer_clock_service_meta(), new_expr.span, owned("new Date() inside Effect code — use DateTime.now"));
        assert(old(ctx).findings() + prefer_clock_new_findings(old(ctx).stack@, *new_expr) =~= ctx.findings());
    }
}

} // verus!
