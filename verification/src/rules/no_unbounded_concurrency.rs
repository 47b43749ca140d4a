//! `no-unbounded-concurrency`: `concurrency: "unbounded"` options.
use vstd::prelude::*;

use crate::ast::{CallExpr, Expr, Property};
use crate::diagnostics::{Category, RuleMeta, Severity};
use crate::rules::{none, one, FileCtx, Finding};
use crate::text::{owned, str_eq};

verus! {

/// Catalog metadata of `no-unbounded-concurrency`.
#[verifier::allow_in_spec]
pub fn no_unbounded_concurrency_meta() -> RuleMeta
    returns
        (RuleMeta {
            id: "no-unbounded-concurrency",
            severity: Severity::Info,
            category: Category::Performance,
            help: "`concurrency: \"unbounded\"` over a large collection spawns a fiber per element with no backpressure. Prefer a bounded number sized to the resource.",
        }),
{
    RuleMeta {
        id: "no-unbounded-concurrency",
        severity: Severity::Info,
        category: Category::Performance,
        help: "`concurrency: \"unbounded\"` over a large collection spawns a fiber per element with no backpressure. Prefer a bounded number sized to the resource.",
    }
}

/// The message of a `concurrency: "unbounded"` finding.
pub open spec fn unbounded_message() -> Seq<char> {
    "concurrency: \"unbounded\" — prefer a bounded concurrency"@
}

/// A `concurrency: "unbounded"` property.
pub open spec fn is_unbounded_property(p: Property) -> bool {
    let key_ok = match p.key {
        Some(key) => key@ == "concurrency"@,
        None => false,
    };
    let value_ok = match p.value {
        Expr::Str { value, .. } => value@ == "unbounded"@,
        _ => false,
    };
    key_ok && value_ok
}

/// One finding per `concurrency: "unbounded"` property, in order.
pub open spec fn property_findings(properties: Seq<Property>) -> Seq<Finding>
    decreases properties.len(),
{
    if properties.len() == 0 {
        none()
    } else {
        property_findings(properties.drop_last()) + if is_unbounded_property(properties.last()) {
            one(no_unbounded_concurrency_meta(), properties.last().span, unbounded_message())
        } else {
            none()
        }
    }
}

/// The findings of one argument: its `concurrency: "unbounded"` properties
/// when it is an object literal.
pub open spec fn argument_findings(e: Expr) -> Seq<Finding> {
    match e {
        Expr::Object { properties, .. } => property_findings(properties@),
        _ => none(),
    }
}

/// Every `concurrency: "unbounded"` property of an object-literal argument of
/// a call is reported, arguments and properties in order.
pub open spec fn no_unbounded_concurrency_findings(args: Seq<Expr>) -> Seq<Finding>
    decreases args.len(),
{
    if args.len() == 0 {
        none()
    } else {
        no_unbounded_concurrency_findings(args.drop_last()) + argument_findings(args.last())
    }
}

pub struct NoUnboundedConcurrency;

impl NoUnboundedConcurrency {
    /// The rule ids this rule owns.
    pub fn metas(&self) -> (metas: Vec<RuleMeta>)
        ensures
            metas@ == seq![no_unbounded_concurrency_meta()],
    {
        let mut metas: Vec<RuleMeta> = Vec::new();
        metas.push(no_unbounded_concurrency_meta());
        metas
    }

    fn check_object(&self, properties: &Vec<Property>, ctx: &mut FileCtx)
        ensures
            final(ctx).findings() == old(ctx).findings() + property_findings(properties@),
            final(ctx).same_walk(old(ctx)),
    {
        let mut j: usize = 0;
        assert(old(ctx).findings() + property_findings(properties@.take(0)) =~= old(ctx).findings());
        while j < properties.len()
            invariant
                j <= properties@.len(),
                ctx.findings() == old(ctx).findings() + property_findings(properties@.take(j as int)),
                ctx.same_walk(old(ctx)),
            decreases properties@.len() - j,
        {
            let ghost before = ctx.findings();
            assert(properties@.take(j + 1).drop_last() =~= properties@.take(j as int));
            let property = &properties[j];
            let key_ok = match &property.key {
                Some(key) => str_eq(key.as_str(), "concurrency"),
                None => false,
            };
            let value_ok = match &property.value {
                Expr::Str { value, .. } => str_eq(value.as_str(), "unbounded"),
                _ => false,
            };
            if key_ok && value_ok {
                ctx.report(no_unbounded_concurrency_meta(), property.span, owned("concurrency: \"unbounded\" — prefer a bounded concurrency"));
                assert(old(ctx).findings() + property_findings(properties@.take(j + 1)) =~= ctx.findings());
            } else {
                assert(old(ctx).findings() + property_findings(properties@.take(j + 1)) =~= ctx.findings());
            }
            j += 1;
        }
        assert(properties@.take(j as int) =~= properties@);
    }

    /// A call expression.
    pub fn on_call(&self, call: &CallExpr, ctx: &mut FileCtx)
        ensures
            final(ctx).findings() == old(ctx).findings() + no_unbounded_concurrency_findings(call.arguments@),
            final(ctx).same_walk(old(ctx)),
    {
        let mut i: usize = 0;
        assert(old(ctx).findings() + no_unbounded_concurrency_findings(call.arguments@.take(0)) =~= old(ctx).findings());
        while i < call.arguments.len()
            invariant
                i <= call.arguments@.len(),
                ctx.findings() == old(ctx).findings() + no_unbounded_concurrency_findings(call.arguments@.take(i as int)),
                ctx.same_walk(old(ctx)),
            decreases call.arguments@.len() - i,
        {
            assert(call.arguments@.take(i + 1).drop_last() =~= call.arguments@.take(i as int));
            match &call.arguments[i] {
                Expr::Object { properties, .. } => {
                    self.check_object(properties, ctx);
                },
                _ => {},
            }
            assert(old(ctx).findings() + no_unbounded_concurrency_findings(call.arguments@.take(i + 1)) =~= ctx.findings());
            i += 1;
        }
        assert(call.arguments@.take(i as int) =~= call.arguments@);
    }
}

} // verus!
