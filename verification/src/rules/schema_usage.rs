//! `prefer-decode-effect` and `hoist-schema-codecs`.
use vstd::prelude::*;

use crate::ast::{CallExpr, Expr};
use crate::diagnostics::{Category, RuleMeta, Severity};
use crate::matchers::{call_module_prop, call_module_prop_spec};
use crate::rules::{in_effect_code_spec, none, one, FileCtx, Finding, FrameKind};
use crate::text::{concat3, seq_starts_with, str_eq, str_starts_with};

verus! {

/// Catalog metadata of `prefer-decode-effect`.
#[verifier::allow_in_spec]
pub fn prefer_decode_effect_meta() -> RuleMeta
    returns
        (RuleMeta {
            id: "prefer-decode-effect",
            severity: Severity::Warn,
            category: Category::Idiomatic,
            help: "Sync decoding throws inside Effect code, bypassing the typed error channel. Use Schema.decodeUnknownEffect so failures land in the error channel as SchemaError.",
        }),
{
    RuleMeta {
        id: "prefer-decode-effect",
        severity: Severity::Warn,
        category: Category::Idiomatic,
        help: "Sync decoding throws inside Effect code, bypassing the typed error channel. Use Schema.decodeUnknownEffect so failures land in the error channel as SchemaError.",
    }
}

/// Catalog metadata of `hoist-schema-codecs`.
#[verifier::allow_in_spec]
pub fn hoist_schema_codecs_meta() -> RuleMeta
    returns
        (RuleMeta {
            id: "hoist-schema-codecs",
            severity: Severity::Info,
            category: Category::Performance,
            help: "Schema.decode*/encode* compiles a codec — building it on every call is wasted work. Hoist `const decode = Schema.decodeUnknownEffect(MySchema)` to module scope.",
        }),
{
    RuleMeta {
        id: "hoist-schema-codecs",
        severity: Severity::Info,
        category: Category::Performance,
        help: "Schema.decode*/encode* compiles a codec — building it on every call is wasted work. Hoist `const decode = Schema.decodeUnknownEffect(MySchema)` to module scope.",
    }
}

/// The synchronous, throwing decoders and encoders.
pub open spec fn is_sync_decode_spec(prop: Seq<char>) -> bool {
    ||| prop == "decodeUnknownSync"@
    ||| prop == "decodeSync"@
    ||| prop == "encodeSync"@
    ||| prop == "encodeUnknownSync"@
}

/// Is `prop` a synchronous, throwing decoder or encoder?
pub fn is_sync_decode(prop: &str) -> (found: bool)
    ensures
        found == is_sync_decode_spec(prop@),
{
    str_eq(prop, "decodeUnknownSync") || str_eq(prop, "decodeSync") || str_eq(prop, "encodeSync") || str_eq(prop, "encodeUnknownSync")
}

/// The codec factories: `decode*` and `encode*`.
pub open spec fn is_codec_factory_spec(prop: Seq<char>) -> bool {
    seq_starts_with(prop, "decode"@) || seq_starts_with(prop, "encode"@)
}

/// Is `prop` a codec factory?
pub fn is_codec_factory(prop: &str) -> (found: bool)
    ensures
        found == is_codec_factory_spec(prop@),
{
    str_starts_with(prop, "decode") || str_starts_with(prop, "encode")
}

/// `Schema.<sync decoder>(...)` inside Effect code is reported; so is the
/// immediate double application `Schema.<codec factory>(schema)(input)`.
pub open spec fn schema_usage_findings(stack: Seq<FrameKind>, bindings: Map<Seq<char>, Seq<char>>, call: CallExpr) -> Seq<Finding> {
    match call_module_prop_spec(call, bindings) {
        Some((module, prop)) if module == "Schema"@ => if is_sync_decode_spec(prop) && in_effect_code_spec(stack) {
            one(prefer_decode_effect_meta(), call.span, "Schema."@ + prop + " inside Effect code — use Schema.decodeUnknownEffect"@)
        } else {
            none()
        },
        _ => match call.callee {
            Expr::Call(inner) => match call_module_prop_spec(*inner, bindings) {
                Some((module, prop)) => if module == "Schema"@ && is_codec_factory_spec(prop) {
                    one(
                        hoist_schema_codecs_meta(),
                        call.span,
                        "Schema."@ + prop + "(schema)(input) builds the codec on every call — hoist it to module scope"@,
                    )
                } else {
                    none()
                },
                None => none(),
            },
            _ => none(),
        },
    }
}

pub struct SchemaUsage;

impl SchemaUsage {
    /// The rule ids this rule owns.
    pub fn metas(&self) -> (metas: Vec<RuleMeta>)
        ensures
            metas@ == seq![prefer_decode_effect_meta(), hoist_schema_codecs_meta()],
    {
        let mut metas: Vec<RuleMeta> = Vec::new();
        metas.push(prefer_decode_effect_meta());
        metas.push(hoist_schema_codecs_meta());
        metas
    }

    /// A call expression.
    pub fn on_call(&self, call: &CallExpr, ctx: &mut FileCtx)
        ensures
            final(ctx).findings() == old(ctx).findings() + schema_usage_findings(old(ctx).stack@, old(ctx).imports.bindings(), *call),
            final(ctx).same_walk(old(ctx)),
    {
        match call_module_prop(call, &ctx.imports) {
            Some((module, prop)) => {
                if str_eq(module, "Schema") {
                    if is_sync_decode(prop) && ctx.in_effect_code() {
                        let message = concat3("Schema.", prop, " inside Effect code — use Schema.decodeUnknownEffect");
                        ctx.report(prefer_decode_effect_meta(), call.span, message);
                        assert(old(ctx).findings() + schema_usage_findings(old(ctx).stack@, old(ctx).imports.bindings(), *call)
                            =~= ctx.findings());
                    } else {
                        assert(old(ctx).findings() + none() =~= old(ctx).findings());
                    }
                    return;
                }
            },
            None => {},
        }
        let message = match &call.callee {
            Expr::Call(inner) => match call_module_prop(&**inner, &ctx.imports) {
                Some((module, prop)) => {
                    if !str_eq(module, "Schema") || !is_codec_factory(prop) {
                        assert(old(ctx).findings() + none() =~= old(ctx).findings());
                        return;
                    }
                    concat3("Schema.", prop, "(schema)(input) builds the codec on every call — hoist it to module scope")
                },
                None => {
                    assert(old(ctx).findings() + none() =~= old(ctx).findings());
                    return;
                },
            },
            _ => {
                assert(old(ctx).findings() + none() =~= old(ctx).findings());
                return;
            },
        };
        ctx.report(hoist_schema_codecs_meta(), call.span, message);
        assert(old(ctx).findings() + schema_usage_findings(old(ctx).stack@, old(ctx).imports.bindings(), *call) =~= ctx.findings());
    }
}

} // verus!
