//! `prefer-random-service`: direct randomness inside Effect code.
use vstd::prelude::*;

use crate::ast::CallExpr;
use crate::diagnostics::{Category, RuleMeta, Severity};
use crate::matchers::{ident_name, ident_name_spec, static_member, static_member_spec};
use crate::rules::{in_effect_code_spec, none, one, FileCtx, Finding, FrameKind};
use crate::text::{owned, str_eq};

verus! {

/// Catalog metadata of `prefer-random-service`.
#[verifier::allow_in_spec]
pub fn prefer_random_service_meta() -> RuleMeta
    returns
        (RuleMeta {
            id: "prefer-random-service",
            severity: Severity::Warn,
            category: Category::Idiomatic,
            help: "Direct randomness makes Effect code non-deterministic in tests. Use the `Random` service (`Random.next`, `Random.nextIntBetween`, ...) so tests can seed it.",
        }),
{
    RuleMeta {
        id: "prefer-random-service",
        severity: Severity::Warn,
        category: Category::Idiomatic,
        help: "Direct randomness makes Effect code non-deterministic in tests. Use the `Random` service (`Random.next`, `Random.nextIntBetween`, ...) so tests can seed it.",
    }
}

/// `Math.random()` inside Effect code is reported.
pub open spec fn prefer_random_service_findings(stack: Seq<FrameKind>, call: CallExpr) -> Seq<Finding> {
    match static_member_spec(call.callee) {
        Some((object, prop)) => if in_effect_code_spec(stack) && ident_name_spec(object) == Some("Math"@) && prop == "random"@ {
            one(prefer_random_service_meta(), call.span, "Math.random() inside Effect code — use the Random service"@)
        } else {
            none()
        },
        None => none(),
    }
}

pub struct PreferRandomService;

impl PreferRandomService {
    /// The rule ids this rule owns.
    pub fn metas(&self) -> (metas: Vec<RuleMeta>)
        ensures
            metas@ == seq![prefer_random_service_meta()],
    {
        let mut metas: Vec<RuleMeta> = Vec::new();
        metas.push(prefer_random_service_meta());
        metas
    }

    /// A call expression.
    pub fn on_call(&self, call: &CallExpr, ctx: &mut FileCtx)
        ensures
            final(ctx).findings() == old(ctx).findings() + prefer_random_service_findings(old(ctx).stack@, *call),
            final(ctx).same_walk(old(ctx)),
    {
        let hit = ctx.in_effect_code() && match static_member(&call.callee) {
            Some((object, prop)) => match ident_name(object) {
                Some(name) => str_eq(name, "Math") && str_eq(prop, "random"),
                None => false,
            },
            None => false,
        };
        if !hit {
            assert(old(ctx).findings() + none() =~= old(ctx).findings());
            return;
        }
        ctx.report(prefer_random_service_meta(), call.span, owned("Math.random() inside Effect code — use the Random service"));
        assert(old(ctx).findings() + prefer_random_service_findings(old(ctx).stack@, *call) =~= ctx.findings());
    }
}

} // verus!
