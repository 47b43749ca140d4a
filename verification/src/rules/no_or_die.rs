//! `no-orDie-to-silence-errors`: `Effect.orDie` / `Layer.orDie`.
use vstd::prelude::*;

use crate::ast::Expr;
use crate::diagnostics::{Category, RuleMeta, Severity, Span};
use crate::matchers::{member_module_prop, module_prop_spec};
use crate::rules::{none, one, FileCtx, Finding};
use crate::text::{concat2, str_eq};

verus! {

/// Catalog metadata of `no-orDie-to-silence-errors`.
#[verifier::allow_in_spec]
pub fn no_or_die_meta() -> RuleMeta
    returns
        (RuleMeta {
            id: "no-orDie-to-silence-errors",
            severity: Severity::Info,
            category: Category::Correctness,
            help: "orDie converts every failure into an unrecoverable defect. Fine when failure truly is impossible — but if the error is expected (config, validation, IO), handle it with catchTag instead.",
        }),
{
    RuleMeta {
        id: "no-orDie-to-silence-errors",
        severity: Severity::Info,
        category: Category::Correctness,
        help: "orDie converts every failure into an unrecoverable defect. Fine when failure truly is impossible — but if the error is expected (config, validation, IO), handle it with catchTag instead.",
    }
}

/// The modules whose `orDie` is reported.
pub open spec fn is_or_die_module_spec(module: Seq<char>) -> bool {
    module == "Effect"@ || module == "Layer"@
}

/// Is `module` one whose `orDie` is reported?
pub fn is_or_die_module(module: &str) -> (found: bool)
    ensures
        found == is_or_die_module_spec(module@),
{
    str_eq(module, "Effect") || str_eq(module, "Layer")
}

/// `Effect.orDie` / `Layer.orDie` is reported at the member expression.
pub open spec fn no_or_die_findings(bindings: Map<Seq<char>, Seq<char>>, object: Expr, property: Seq<char>, span: Span) -> Seq<Finding> {
    match module_prop_spec(object, property, bindings) {
        Some((module, prop)) => if prop == "orDie"@ && is_or_die_module_spec(module) {
            one(no_or_die_meta(), span, module + ".orDie — make sure this failure is truly unrecoverable"@)
        } else {
            none()
        },
        None => none(),
    }
}

pub struct NoOrDie;

impl NoOrDie {
    /// The rule ids this rule owns.
    pub fn metas(&self) -> (metas: Vec<RuleMeta>)
        ensures
            metas@ == seq![no_or_die_meta()],
    {
        let mut metas: Vec<RuleMeta> = Vec::new();
        metas.push(no_or_die_meta());
        metas
    }

    /// A static member expression `<object>.<property>`.
    pub fn on_member(&self, object: &Expr, property: &str, span: Span, ctx: &mut FileCtx)
        ensures
            final(ctx).findings() == old(ctx).findings() + no_or_die_findings(old(ctx).imports.bindings(), *object, property@, span),
            final(ctx).same_walk(old(ctx)),
    {
        let message = match member_module_prop(object, property, &ctx.imports) {
            Some((module, prop)) => {
                if !str_eq(prop, "orDie") || !is_or_die_module(module) {
                    assert(old(ctx).findings() + none() =~= old(ctx).findings());
                    return;
                }
                concat2(module, ".orDie — make sure this failure is truly unrecoverable")
            },
            None => {
                assert(old(ctx).findings() + none() =~= old(ctx).findings());
                return;
            },
        };
        ctx.report(no_or_die_meta(), span, message);
        assert(old(ctx).findings() + no_or_die_findings(old(ctx).imports.bindings(), *object, property@, span) =~= ctx.findings());
    }
}


/// `orDie` on a binding of the `Effect` or the `Layer` module is reported once,
/// at the member access, naming the module; `orDie` on a binding of any other
/// module is not reported.
pub proof fn lemma_or_die_reported(bindings: Map<Seq<char>, Seq<char>>, name: String, name_span: Span, span: Span)
    requires
        bindings.contains_key(name@),
    ensures
        (bindings[name@] == "Effect"@ || bindings[name@] == "Layer"@) ==> no_or_die_findings(
            bindings,
            Expr::Ident { name, span: name_span },
            "orDie"@,
            span,
        ) == seq![(
            no_or_die_meta(),
            span,
            bindings[name@] + ".orDie — make sure this failure is truly unrecoverable"@,
            None::<Severity>,
        )],
        !(bindings[name@] == "Effect"@ || bindings[name@] == "Layer"@) ==> no_or_die_findings(
            bindings,
            Expr::Ident { name, span: name_span },
            "orDie"@,
            span,
        ).len() == 0,
{
}


/// Only `orDie` on a bound module is reported: any other property, and any
/// object that is not a binding of an Effect module, reports nothing.
pub proof fn lemma_only_bound_or_die_reported(bindings: Map<Seq<char>, Seq<char>>, object: Expr, property: Seq<char>, span: Span)
    requires
        property != "orDie"@ || !(object is Ident) || !bindings.contains_key(object->Ident_name@),
    ensures
        no_or_die_findings(bindings, object, property, span).len() == 0,
{
}

} // verus!
