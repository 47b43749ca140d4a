//! `prefer-config-redacted`, `prefer-structured-logging-args` and
//! `prefer-json-response-helper`.
use vstd::prelude::*;

use crate::ast::{CallExpr, Expr};
use crate::diagnostics::{Category, RuleMeta, Severity};
use crate::matchers::{call_module_prop, call_module_prop_spec, unwrap_parens, unwrap_parens_spec};
use crate::search::{find_in_list, first_in_list, is_json_stringify, is_json_stringify_spec, kind_pred, CallKind};
use crate::rules::{none, one, FileCtx, Finding};
use crate::text::{ascii_lower, chars_of, concat3, contains, owned, seq_contains, str_eq, to_ascii_lowercase};

verus! {

/// Catalog metadata of `prefer-config-redacted`.
#[verifier::allow_in_spec]
pub fn config_redacted_meta() -> RuleMeta
    returns
        (RuleMeta {
            id: "prefer-config-redacted",
            severity: Severity::Warn,
            category: Category::Correctness,
            help: "Secrets loaded as plain Config.string leak into logs, errors, and serialized output. Config.redacted wraps them so they can't be printed accidentally.",
        }),
{
    RuleMeta {
        id: "prefer-config-redacted",
        severity: Severity::Warn,
        category: Category::Correctness,
        help: "Secrets loaded as plain Config.string leak into logs, errors, and serialized output. Config.redacted wraps them so they can't be printed accidentally.",
    }
}

/// Catalog metadata of `prefer-structured-logging-args`.
#[verifier::allow_in_spec]
pub fn structured_logging_meta() -> RuleMeta
    returns
        (RuleMeta {
            id: "prefer-structured-logging-args",
            severity: Severity::Info,
            category: Category::Idiomatic,
            help: "Interpolating JSON.stringify into a log message defeats structured logging. Log a stable message and attach data with Effect.annotateLogs.",
        }),
{
    RuleMeta {
        id: "prefer-structured-logging-args",
        severity: Severity::Info,
        category: Category::Idiomatic,
        help: "Interpolating JSON.stringify into a log message defeats structured logging. Log a stable message and attach data with Effect.annotateLogs.",
    }
}

/// Catalog metadata of `prefer-json-response-helper`.
#[verifier::allow_in_spec]
pub fn json_response_meta() -> RuleMeta
    returns
        (RuleMeta {
            id: "prefer-json-response-helper",
            severity: Severity::Warn,
            category: Category::Idiomatic,
            help: "Manual JSON.stringify into a text response skips the content-type header clients rely on. HttpServerResponse.json(value) sets it correctly.",
        }),
{
    RuleMeta {
        id: "prefer-json-response-helper",
        severity: Severity::Warn,
        category: Category::Idiomatic,
        help: "Manual JSON.stringify into a text response skips the content-type header clients rely on. HttpServerResponse.json(value) sets it correctly.",
    }
}

/// An ASCII letter or digit.
pub open spec fn is_ascii_alnum(c: char) -> bool {
    ('a' <= c && c <= 'z') || ('A' <= c && c <= 'Z') || ('0' <= c && c <= '9')
}

/// The ASCII letters and digits of `s`, in order.
pub open spec fn keep_alnum(s: Seq<char>) -> Seq<char>
    decreases s.len(),
{
    if s.len() == 0 {
        Seq::empty()
    } else if is_ascii_alnum(s.last()) {
        keep_alnum(s.drop_last()).push(s.last())
    } else {
        keep_alnum(s.drop_last())
    }
}

/// A configuration key that names a secret: its lower-cased letters and
/// digits contain `secret`, `password`, `passwd`, `token`, `apikey`,
/// `privatekey` or `credential`.
pub open spec fn looks_like_secret_spec(name: Seq<char>) -> bool {
    let normalized = keep_alnum(ascii_lower(name));
    ||| seq_contains(normalized, "secret"@)
    ||| seq_contains(normalized, "password"@)
    ||| seq_contains(normalized, "passwd"@)
    ||| seq_contains(normalized, "token"@)
    ||| seq_contains(normalized, "apikey"@)
    ||| seq_contains(normalized, "privatekey"@)
    ||| seq_contains(normalized, "credential"@)
}

/// Does the configuration key name a secret?
pub fn looks_like_secret(name: &str) -> (found: bool)
    ensures
        found == looks_like_secret_spec(name@),
{
    let lowered = to_ascii_lowercase(name);
    let mut normalized: Vec<char> = Vec::new();
    let mut i: usize = 0;
    while i < lowered.len()
        invariant
            i <= lowered@.len(),
            lowered@ == ascii_lower(name@),
            normalized@ == keep_alnum(lowered@.take(i as int)),
        decreases lowered@.len() - i,
    {
        assert(lowered@.take(i + 1).drop_last() =~= lowered@.take(i as int));
        let c = lowered[i];
        if ('a' <= c && c <= 'z') || ('A' <= c && c <= 'Z') || ('0' <= c && c <= '9') {
            normalized.push(c);
        }
        i += 1;
    }
    assert(lowered@.take(i as int) =~= lowered@);
    contains(&normalized, &chars_of("secret")) || contains(&normalized, &chars_of("password")) || contains(
        &normalized,
        &chars_of("passwd"),
    ) || contains(&normalized, &chars_of("token")) || contains(&normalized, &chars_of("apikey")) || contains(
        &normalized,
        &chars_of("privatekey"),
    ) || contains(&normalized, &chars_of("credential"))
}

/// The Effect logging functions.
pub open spec fn is_log_method_spec(prop: Seq<char>) -> bool {
    ||| prop == "log"@
    ||| prop == "logInfo"@
    ||| prop == "logDebug"@
    ||| prop == "logWarning"@
    ||| prop == "logError"@
    ||| prop == "logFatal"@
    ||| prop == "logTrace"@
}

/// Is `prop` an Effect logging function?
pub fn is_log_method(prop: &str) -> (found: bool)
    ensures
        found == is_log_method_spec(prop@),
{
    str_eq(prop, "log") || str_eq(prop, "logInfo") || str_eq(prop, "logDebug") || str_eq(prop, "logWarning") || str_eq(prop, "logError")
        || str_eq(prop, "logFatal") || str_eq(prop, "logTrace")
}

/// `Config.string("<secret-looking key>")` is reported.
pub open spec fn config_secret_findings(bindings: Map<Seq<char>, Seq<char>>, call: CallExpr) -> Seq<Finding> {
    if call_module_prop_spec(call, bindings) == Some(("Config"@, "string"@)) && call.arguments@.len() > 0 {
        match call.arguments@[0] {
            Expr::Str { value, .. } => if looks_like_secret_spec(value@) {
                one(config_redacted_meta(), call.span, "Config.string(\""@ + value@ + "\") looks like a secret — use Config.redacted"@)
            } else {
                none()
            },
            _ => none(),
        }
    } else {
        none()
    }
}

/// `Effect.<log function>(`...${JSON.stringify(x)}...`)` is reported.
pub open spec fn structured_logging_findings(bindings: Map<Seq<char>, Seq<char>>, call: CallExpr) -> Seq<Finding> {
    match call_module_prop_spec(call, bindings) {
        Some((module, prop)) => if module == "Effect"@ && is_log_method_spec(prop) && call.arguments@.len() > 0 {
            match call.arguments@[0] {
                Expr::Template { expressions, .. } => if first_in_list(expressions@, kind_pred(CallKind::JsonStringify, bindings), 0) is Some {
                    one(structured_logging_meta(), call.span, "JSON.stringify inside Effect."@ + prop + " message — use Effect.annotateLogs"@)
                } else {
                    none()
                },
                _ => none(),
            }
        } else {
            none()
        },
        None => none(),
    }
}

/// `HttpServerResponse.text(JSON.stringify(x))` is reported.
pub open spec fn json_response_findings(bindings: Map<Seq<char>, Seq<char>>, call: CallExpr) -> Seq<Finding> {
    if call_module_prop_spec(call, bindings) == Some(("HttpServerResponse"@, "text"@)) && call.arguments@.len() > 0 {
        match unwrap_parens_spec(call.arguments@[0]) {
            Expr::Call(inner) => if is_json_stringify_spec(*inner) {
                one(json_response_meta(), call.span, "HttpServerResponse.text(JSON.stringify(x)) — use HttpServerResponse.json(x)"@)
            } else {
                none()
            },
            _ => none(),
        }
    } else {
        none()
    }
}

/// The three checks, in order.
pub open spec fn logging_security_findings(bindings: Map<Seq<char>, Seq<char>>, call: CallExpr) -> Seq<Finding> {
    config_secret_findings(bindings, call) + structured_logging_findings(bindings, call) + json_response_findings(bindings, call)
}

pub struct LoggingSecurity;

impl LoggingSecurity {
    /// The rule ids this rule owns.
    pub fn metas(&self) -> (metas: Vec<RuleMeta>)
        ensures
            metas@ == seq![config_redacted_meta(), structured_logging_meta(), json_response_meta()],
    {
        let mut metas: Vec<RuleMeta> = Vec::new();
        metas.push(config_redacted_meta());
        metas.push(structured_logging_meta());
        metas.push(json_response_meta());
        metas
    }

    fn check_config_secret(&self, call: &CallExpr, ctx: &mut FileCtx)
        ensures
            final(ctx).findings() == old(ctx).findings() + config_secret_findings(old(ctx).imports.bindings(), *call),
            final(ctx).same_walk(old(ctx)),
    {
        let is_config = match call_module_prop(call, &ctx.imports) {
            Some((module, prop)) => str_eq(module, "Config") && str_eq(prop, "string"),
            None => false,
        };
        if !is_config || call.arguments.len() == 0 {
            assert(old(ctx).findings() + none() =~= old(ctx).findings());
            return;
        }
        match &call.arguments[0] {
            Expr::Str { value, .. } => {
                if !looks_like_secret(value.as_str()) {
                    assert(old(ctx).findings() + none() =~= old(ctx).findings());
                    return;
                }
                let message = concat3("Config.string(\"", value.as_str(), "\") looks like a secret — use Config.redacted");
                ctx.report(config_redacted_meta(), call.span, message);
                assert(old(ctx).findings() + config_secret_findings(old(ctx).imports.bindings(), *call) =~= ctx.findings());
            },
            _ => {
                assert(old(ctx).findings() + none() =~= old(ctx).findings());
            },
        }
    }

    fn check_structured_logging(&self, call: &CallExpr, ctx: &mut FileCtx)
        ensures
            final(ctx).findings() == old(ctx).findings() + structured_logging_findings(old(ctx).imports.bindings(), *call),
            final(ctx).same_walk(old(ctx)),
    {
        let prop = match call_module_prop(call, &ctx.imports) {
            Some((module, prop)) => {
                if !str_eq(module, "Effect") || !is_log_method(prop) || call.arguments.len() == 0 {
                    assert(old(ctx).findings() + none() =~= old(ctx).findings());
                    return;
                }
                prop
            },
            None => {
                assert(old(ctx).findings() + none() =~= old(ctx).findings());
                return;
            },
        };
        match &call.arguments[0] {
            Expr::Template { expressions, .. } => {
                if find_in_list(expressions, 0, CallKind::JsonStringify, &ctx.imports).is_none() {
                    assert(old(ctx).findings() + none() =~= old(ctx).findings());
                    return;
                }
                let message = concat3("JSON.stringify inside Effect.", prop, " message — use Effect.annotateLogs");
                ctx.report(structured_logging_meta(), call.span, message);
                assert(old(ctx).findings() + structured_logging_findings(old(ctx).imports.bindings(), *call) =~= ctx.findings());
            },
            _ => {
                assert(old(ctx).findings() + none() =~= old(ctx).findings());
            },
        }
    }

    fn check_json_response(&self, call: &CallExpr, ctx: &mut FileCtx)
        ensures
            final(ctx).findings() == old(ctx).findings() + json_response_findings(old(ctx).imports.bindings(), *call),
            final(ctx).same_walk(old(ctx)),
    {
        let is_text = match call_module_prop(call, &ctx.imports) {
            Some((module, prop)) => str_eq(module, "HttpServerResponse") && str_eq(prop, "text"),
            None => false,
        };
        if !is_text || call.arguments.len() == 0 {
            assert(old(ctx).findings() + none() =~= old(ctx).findings());
            return;
        }
        let stringifies = match unwrap_parens(&call.arguments[0]) {
            Expr::Call(inner) => is_json_stringify(&**inner),
            _ => false,
        };
        if !stringifies {
            assert(old(ctx).findings() + none() =~= old(ctx).findings());
            return;
        }
        ctx.report(json_response_meta(), call.span, owned("HttpServerResponse.text(JSON.stringify(x)) — use HttpServerResponse.json(x)"));
        assert(old(ctx).findings() + json_response_findings(old(ctx).imports.bindings(), *call) =~= ctx.findings());
    }

    /// A call expression.
    pub fn on_call(&self, call: &CallExpr, ctx: &mut FileCtx)
        ensures
            final(ctx).findings() == old(ctx).findings() + logging_security_findings(old(ctx).imports.bindings(), *call),
            final(ctx).same_walk(old(ctx)),
    {
        self.check_config_secret(call, ctx);
        self.check_structured_logging(call, ctx);
        self.check_json_response(call, ctx);
        assert(old(ctx).findings() + logging_security_findings(old(ctx).imports.bindings(), *call) =~= ctx.findings());
    }
}

} // verus!
