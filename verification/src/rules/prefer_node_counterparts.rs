//! `prefer-node-effect-counterparts`: Node built-ins with an Effect platform service.
use vstd::prelude::*;

use crate::diagnostics::{Category, RuleMeta, Severity, Span};
use crate::rules::{none, one, FileCtx, Finding};
use crate::text::{push_str, owned, str_eq};

verus! {

/// Catalog metadata of `prefer-node-effect-counterparts`.
#[verifier::allow_in_spec]
pub fn prefer_node_counterparts_meta() -> RuleMeta
    returns
        (RuleMeta {
            id: "prefer-node-effect-counterparts",
            severity: Severity::Info,
            category: Category::Idiomatic,
            help: "Effect's platform services (FileSystem, Path, Command) wrap these with typed errors, interruption, and test layers.",
        }),
{
    RuleMeta {
        id: "prefer-node-effect-counterparts",
        severity: Severity::Info,
        category: Category::Idiomatic,
        help: "Effect's platform services (FileSystem, Path, Command) wrap these with typed errors, interruption, and test layers.",
    }
}

/// The Effect platform service that stands for a Node module.
pub open spec fn platform_counterpart_spec(source: Seq<char>) -> Option<Seq<char>> {
    if source == "node:fs"@ || source == "fs"@ || source == "node:fs/promises"@ || source == "fs/promises"@ {
        Some("FileSystem"@)
    } else if source == "node:path"@ || source == "path"@ {
        Some("Path"@)
    } else if source == "node:child_process"@ || source == "child_process"@ {
        Some("Command"@)
    } else {
        None
    }
}

/// The Effect platform service that stands for the Node module `source`.
pub fn platform_counterpart(source: &str) -> (service: Option<&'static str>)
    ensures
        match service {
            Some(s) => platform_counterpart_spec(source@) == Some(s@),
            None => platform_counterpart_spec(source@) is None,
        },
{
    if str_eq(source, "node:fs") || str_eq(source, "fs") || str_eq(source, "node:fs/promises") || str_eq(source, "fs/promises") {
        Some("FileSystem")
    } else if str_eq(source, "node:path") || str_eq(source, "path") {
        Some("Path")
    } else if str_eq(source, "node:child_process") || str_eq(source, "child_process") {
        Some("Command")
    } else {
        None
    }
}

/// An import of a Node module that has a platform service is reported.
pub open spec fn prefer_node_counterparts_findings(source: Seq<char>, span: Span) -> Seq<Finding> {
    match platform_counterpart_spec(source) {
        Some(service) => one(
            prefer_node_counterparts_meta(),
            span,
            "import from \""@ + source + "\" in an Effect file — consider the "@ + service + " platform service"@,
        ),
        None => none(),
    }
}

pub struct PreferNodeCounterparts;

impl PreferNodeCounterparts {
    /// The rule ids this rule owns.
    pub fn metas(&self) -> (metas: Vec<RuleMeta>)
        ensures
            metas@ == seq![prefer_node_counterparts_meta()],
    {
        let mut metas: Vec<RuleMeta> = Vec::new();
        metas.push(prefer_node_counterparts_meta());
        metas
    }

    /// An import declaration from `source`.
    pub fn on_import(&self, source: &str, span: Span, ctx: &mut FileCtx)
        ensures
            final(ctx).findings() == old(ctx).findings() + prefer_node_counterparts_findings(source@, span),
            final(ctx).same_walk(old(ctx)),
    {
        match platform_counterpart(source) {
            Some(service) => {
                let mut message = owned("import from \"");
                push_str(&mut message, source);
                push_str(&mut message, "\" in an Effect file — consider the ");
                push_str(&mut message, service);
                push_str(&mut message, " platform service");
                ctx.report(prefer_node_counterparts_meta(), span, message);
                assert(old(ctx).findings() + prefer_node_counterparts_findings(source@, span) =~= ctx.findings());
            },
            None => {
                assert(old(ctx).findings() + none() =~= old(ctx).findings());
            },
        }
    }
}

} // verus!
