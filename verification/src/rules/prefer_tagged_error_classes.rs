//! `prefer-tagged-error-classes`: plain `Error` subclasses.
use vstd::prelude::*;

use crate::ast::ClassDecl;
use crate::diagnostics::{Category, RuleMeta, Severity};
use crate::matchers::{ident_name, ident_name_spec};
use crate::rules::{none, one, FileCtx, Finding};
use crate::text::{concat3, str_eq};

verus! {

/// Catalog metadata of `prefer-tagged-error-classes`.
#[verifier::allow_in_spec]
pub fn prefer_tagged_error_classes_meta() -> RuleMeta
    returns
        (RuleMeta {
            id: "prefer-tagged-error-classes",
            severity: Severity::Warn,
            category: Category::Idiomatic,
            help: "Plain Error subclasses have no _tag, so Effect.catchTag cannot route them and they serialize poorly. Use Data.TaggedError or Schema.TaggedErrorClass.",
        }),
{
    RuleMeta {
        id: "prefer-tagged-error-classes",
        severity: Severity::Warn,
        category: Category::Idiomatic,
        help: "Plain Error subclasses have no _tag, so Effect.catchTag cannot route them and they serialize poorly. Use Data.TaggedError or Schema.TaggedErrorClass.",
    }
}

/// The name a class is reported under.
pub open spec fn class_label(name: Option<String>) -> Seq<char> {
    match name {
        Some(n) => n@,
        None => "anonymous"@,
    }
}

/// A class that extends `Error` directly is reported.
pub open spec fn prefer_tagged_error_classes_findings(class: ClassDecl) -> Seq<Finding> {
    match class.super_class {
        Some(superclass) => if ident_name_spec(superclass) == Some("Error"@) {
            one(
                prefer_tagged_error_classes_meta(),
                class.span,
                "class "@ + class_label(class.name) + " extends Error — use Data.TaggedError / Schema.TaggedErrorClass"@,
            )
        } else {
            none()
        },
        None => none(),
    }
}

pub struct PreferTaggedErrorClasses;

impl PreferTaggedErrorClasses {
    /// The rule ids this rule owns.
    pub fn metas(&self) -> (metas: Vec<RuleMeta>)
        ensures
            metas@ == seq![prefer_tagged_error_classes_meta()],
    {
        let mut metas: Vec<RuleMeta> = Vec::new();
        metas.push(prefer_tagged_error_classes_meta());
        metas
    }

    /// A class.
    pub fn on_class(&self, class: &ClassDecl, ctx: &mut FileCtx)
        ensures
            final(ctx).findings() == old(ctx).findings() + prefer_tagged_error_classes_findings(*class),
            final(ctx).same_walk(old(ctx)),
    {
        let extends_error = match &class.super_class {
            Some(superclass) => match ident_name(superclass) {
                Some(name) => str_eq(name, "Error"),
                None => false,
            },
            None => false,
        };
        if !extends_error {
            assert(old(ctx).findings() + none() =~= old(ctx).findings());
            return;
        }
        let name = match &class.name {
            Some(n) => n.as_str(),
            None => "anonymous",
        };
        let message = concat3("class ", name, " extends Error — use Data.TaggedError / Schema.TaggedErrorClass");
        ctx.report(prefer_tagged_error_classes_meta(), class.span, message);
        assert(old(ctx).findings() + prefer_tagged_error_classes_findings(*class) =~= ctx.findings());
    }
}

} // verus!
