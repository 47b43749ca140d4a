//! Module conventions. Opinionated (some ecosystems require default exports),
//! so they fire only when agent hygiene is on.
use vstd::prelude::*;

use crate::diagnostics::{Category, RuleMeta, Severity, Span};
use crate::rules::{none, FileCtx, Finding};
use crate::text::owned;

verus! {

/// Catalog metadata of `agent-no-default-export`.
#[verifier::allow_in_spec]
pub fn no_default_export_meta() -> RuleMeta
    returns
        (RuleMeta {
            id: "agent-no-default-export",
            severity: Severity::Warn,
            category: Category::AgentHygiene,
            help: "Default exports rename freely at each import site (so the same thing gets many names) and resist auto-import/refactor. Use a named export so the identity is stable across the codebase.",
        }),
{
    RuleMeta {
        id: "agent-no-default-export",
        severity: Severity::Warn,
        category: Category::AgentHygiene,
        help: "Default exports rename freely at each import site (so the same thing gets many names) and resist auto-import/refactor. Use a named export so the identity is stable across the codebase.",
    }
}

/// With agent hygiene on, an `export default` is reported, as an error in
/// strict mode.
pub open spec fn no_default_export_findings(agent: bool, strict: bool, span: Span) -> Seq<Finding> {
    if agent {
        seq![(
            no_default_export_meta(),
            span,
            "default export — prefer a named export for stable identity across imports"@,
            if strict { Some(Severity::Error) } else { None::<Severity> },
        )]
    } else {
        none()
    }
}

pub struct NoDefaultExport;

impl NoDefaultExport {
    /// The rule ids this rule owns.
    pub fn metas(&self) -> (metas: Vec<RuleMeta>)
        ensures
            metas@ == seq![no_default_export_meta()],
    {
        let mut metas: Vec<RuleMeta> = Vec::new();
        metas.push(no_default_export_meta());
        metas
    }

    /// An `export default` declaration.
    pub fn on_export_default(&self, span: Span, ctx: &mut FileCtx)
        ensures
            final(ctx).findings() == old(ctx).findings() + no_default_export_findings(old(ctx).flags().2, old(ctx).flags().3, span),
            final(ctx).same_walk(old(ctx)),
    {
        if !ctx.agent_active() {
            assert(old(ctx).findings() + none() =~= old(ctx).findings());
            return;
        }
        ctx.report_agent(no_default_export_meta(), span, owned("default export — prefer a named export for stable identity across imports"));
        assert(old(ctx).findings() + no_default_export_findings(old(ctx).flags().2, old(ctx).flags().3, span) =~= ctx.findings());
    }
}

} // verus!
