//! `no-object-literal-comparison`, `no-tag-string-comparison` and
//! `prefer-match-over-tag-switch`.
use vstd::prelude::*;

use crate::ast::{CallExpr, Expr};
use crate::diagnostics::{Category, RuleMeta, Severity, Span};
use crate::matchers::{static_member, static_member_spec, unwrap_parens, unwrap_parens_spec};
use crate::rules::{none, one, FileCtx, Finding};
use crate::text::{concat3, owned, push_str, str_eq};

verus! {

/// Catalog metadata of `no-object-literal-comparison`.
#[verifier::allow_in_spec]
pub fn object_literal_comparison_meta() -> RuleMeta
    returns
        (RuleMeta {
            id: "no-object-literal-comparison",
            severity: Severity::Warn,
            category: Category::Correctness,
            help: "Comparing against a fresh object/array literal uses reference equality and is always false. Use Equal.equals with Data.struct/Data.array for structural equality.",
        }),
{
    RuleMeta {
        id: "no-object-literal-comparison",
        severity: Severity::Warn,
        category: Category::Correctness,
        help: "Comparing against a fresh object/array literal uses reference equality and is always false. Use Equal.equals with Data.struct/Data.array for structural equality.",
    }
}

/// Catalog metadata of `no-tag-string-comparison`.
#[verifier::allow_in_spec]
pub fn tag_string_comparison_meta() -> RuleMeta
    returns
        (RuleMeta {
            id: "no-tag-string-comparison",
            severity: Severity::Warn,
            category: Category::Idiomatic,
            help: "Reaching into `_tag` for built-in types bypasses the typed predicates. Use Option.isSome/isNone, Either.isLeft/isRight, Exit.isSuccess/isFailure.",
        }),
{
    RuleMeta {
        id: "no-tag-string-comparison",
        severity: Severity::Warn,
        category: Category::Idiomatic,
        help: "Reaching into `_tag` for built-in types bypasses the typed predicates. Use Option.isSome/isNone, Either.isLeft/isRight, Exit.isSuccess/isFailure.",
    }
}

/// Catalog metadata of `prefer-match-over-tag-switch`.
#[verifier::allow_in_spec]
pub fn tag_switch_meta() -> RuleMeta
    returns
        (RuleMeta {
            id: "prefer-match-over-tag-switch",
            severity: Severity::Info,
            category: Category::Idiomatic,
            help: "switch on `_tag` is non-exhaustive by default. Match.valueTags / Effect.catchTags give exhaustive, declarative dispatch.",
        }),
{
    RuleMeta {
        id: "prefer-match-over-tag-switch",
        severity: Severity::Info,
        category: Category::Idiomatic,
        help: "switch on `_tag` is non-exhaustive by default. Match.valueTags / Effect.catchTags give exhaustive, declarative dispatch.",
    }
}

/// `==`, `!=`, `===` or `!==`.
pub open spec fn is_equality_spec(operator: Seq<char>) -> bool {
    operator == "=="@ || operator == "!="@ || operator == "==="@ || operator == "!=="@
}

/// Is the operator an (in)equality?
pub fn is_equality(operator: &str) -> (found: bool)
    ensures
        found == is_equality_spec(operator@),
{
    str_eq(operator, "==") || str_eq(operator, "!=") || str_eq(operator, "===") || str_eq(operator, "!==")
}

/// An object or array literal (parentheses removed).
pub open spec fn is_literal_compound_spec(e: Expr) -> bool {
    match unwrap_parens_spec(e) {
        Expr::Object { .. } => true,
        Expr::Array { .. } => true,
        _ => false,
    }
}

/// Is the expression a fresh object or array literal?
pub fn is_literal_compound(e: &Expr) -> (found: bool)
    ensures
        found == is_literal_compound_spec(*e),
{
    match unwrap_parens(e) {
        Expr::Object { .. } => true,
        Expr::Array { .. } => true,
        _ => false,
    }
}

/// `<something>._tag` (parentheses removed).
pub open spec fn is_tag_member_spec(e: Expr) -> bool {
    match unwrap_parens_spec(e) {
        Expr::Member { property, .. } => property@ == "_tag"@,
        _ => false,
    }
}

/// Does the expression read `._tag`?
pub fn is_tag_member(e: &Expr) -> (found: bool)
    ensures
        found == is_tag_member_spec(*e),
{
    match unwrap_parens(e) {
        Expr::Member { property, .. } => str_eq(property.as_str(), "_tag"),
        _ => false,
    }
}

/// The typed predicate for a built-in tag.
pub open spec fn builtin_tag_predicate_spec(tag: Seq<char>) -> Option<Seq<char>> {
    if tag == "Some"@ {
        Some("Option.isSome"@)
    } else if tag == "None"@ {
        Some("Option.isNone"@)
    } else if tag == "Left"@ {
        Some("Either.isLeft"@)
    } else if tag == "Right"@ {
        Some("Either.isRight"@)
    } else if tag == "Success"@ {
        Some("Exit.isSuccess"@)
    } else if tag == "Failure"@ {
        Some("Exit.isFailure"@)
    } else {
        None
    }
}

/// The typed predicate for a built-in tag.
pub fn builtin_tag_predicate(tag: &str) -> (predicate: Option<&'static str>)
    ensures
        match predicate {
            Some(p) => builtin_tag_predicate_spec(tag@) == Some(p@),
            None => builtin_tag_predicate_spec(tag@) is None,
        },
{
    if str_eq(tag, "Some") {
        Some("Option.isSome")
    } else if str_eq(tag, "None") {
        Some("Option.isNone")
    } else if str_eq(tag, "Left") {
        Some("Either.isLeft")
    } else if str_eq(tag, "Right") {
        Some("Either.isRight")
    } else if str_eq(tag, "Success") {
        Some("Exit.isSuccess")
    } else if str_eq(tag, "Failure") {
        Some("Exit.isFailure")
    } else {
        None
    }
}

/// The value of a string literal (parentheses removed).
pub open spec fn string_value_spec(e: Expr) -> Option<Seq<char>> {
    match unwrap_parens_spec(e) {
        Expr::Str { value, .. } => Some(value@),
        _ => None,
    }
}

/// The value of a string literal (parentheses removed).
pub fn string_value(e: &Expr) -> (value: Option<&str>)
    ensures
        match value {
            Some(v) => string_value_spec(*e) == Some(v@),
            None => string_value_spec(*e) is None,
        },
{
    match unwrap_parens(e) {
        Expr::Str { value, .. } => Some(value.as_str()),
        _ => None,
    }
}

/// An (in)equality against a fresh object or array literal is reported;
/// otherwise `x._tag === "<built-in tag>"` (either side).
pub open spec fn equality_binary_findings(operator: Seq<char>, left: Expr, right: Expr, span: Span) -> Seq<Finding> {
    if !is_equality_spec(operator) {
        none()
    } else if is_literal_compound_spec(left) || is_literal_compound_spec(right) {
        one(object_literal_comparison_meta(), span, "comparison against a fresh object/array literal is always false — use Equal.equals"@)
    } else {
        let tag = if is_tag_member_spec(left) {
            string_value_spec(right)
        } else if is_tag_member_spec(right) {
            string_value_spec(left)
        } else {
            None
        };
        match tag {
            Some(t) => match builtin_tag_predicate_spec(t) {
                Some(predicate) => one(tag_string_comparison_meta(), span, "_tag === \""@ + t + "\" — use "@ + predicate),
                None => none(),
            },
            None => none(),
        }
    }
}

/// `.includes(<literal>)` / `.indexOf(<literal>)` with a fresh object or
/// array literal is reported.
pub open spec fn equality_call_findings(call: CallExpr) -> Seq<Finding> {
    match static_member_spec(call.callee) {
        Some((_, prop)) => if (prop == "includes"@ || prop == "indexOf"@) && call.arguments@.len() > 0
            && !(call.arguments@[0] is Spread) && is_literal_compound_spec(call.arguments@[0]) {
            one(object_literal_comparison_meta(), call.span, "."@ + prop + "(objectLiteral) uses reference equality and never matches — use Equal.equals"@)
        } else {
            none()
        },
        None => none(),
    }
}

/// A `switch` on `._tag` is reported at the `switch` keyword.
pub open spec fn tag_switch_findings(discriminant: Expr, span: Span) -> Seq<Finding> {
    if is_tag_member_spec(discriminant) {
        let end = if span.start + 6 <= u32::MAX { (span.start + 6) as u32 } else { u32::MAX };
        one(tag_switch_meta(), Span { start: span.start, end }, "switch on _tag — consider Match.valueTags / Effect.catchTags"@)
    } else {
        none()
    }
}

pub struct EqualityIdioms;

impl EqualityIdioms {
    /// The rule ids this rule owns.
    pub fn metas(&self) -> (metas: Vec<RuleMeta>)
        ensures
            metas@ == seq![object_literal_comparison_meta(), tag_string_comparison_meta(), tag_switch_meta()],
    {
        let mut metas: Vec<RuleMeta> = Vec::new();
        metas.push(object_literal_comparison_meta());
        metas.push(tag_string_comparison_meta());
        metas.push(tag_switch_meta());
        metas
    }

    /// A binary or logical expression.
    pub fn on_binary(&self, operator: &str, left: &Expr, right: &Expr, span: Span, ctx: &mut FileCtx)
        ensures
            final(ctx).findings() == old(ctx).findings() + equality_binary_findings(operator@, *left, *right, span),
            final(ctx).same_walk(old(ctx)),
    {
        if !is_equality(operator) {
            assert(old(ctx).findings() + none() =~= old(ctx).findings());
            return;
        }
        if is_literal_compound(left) || is_literal_compound(right) {
            ctx.report(
                object_literal_comparison_meta(),
                span,
                owned("comparison against a fresh object/array literal is always false — use Equal.equals"),
            );
            assert(old(ctx).findings() + equality_binary_findings(operator@, *left, *right, span) =~= ctx.findings());
            return;
        }
        let tag = if is_tag_member(left) {
            string_value(right)
        } else if is_tag_member(right) {
            string_value(left)
        } else {
            None
        };
        match tag {
            Some(t) => match builtin_tag_predicate(t) {
                Some(predicate) => {
                    let mut message = concat3("_tag === \"", t, "\" — use ");
                    push_str(&mut message, predicate);
                    ctx.report(tag_string_comparison_meta(), span, message);
                    assert(old(ctx).findings() + equality_binary_findings(operator@, *left, *right, span) =~= ctx.findings());
                },
                None => {
                    assert(old(ctx).findings() + none() =~= old(ctx).findings());
                },
            },
            None => {
                assert(old(ctx).findings() + none() =~= old(ctx).findings());
            },
        }
    }

    /// A call expression.
    pub fn on_call(&self, call: &CallExpr, ctx: &mut FileCtx)
        ensures
            final(ctx).findings() == old(ctx).findings() + equality_call_findings(*call),
            final(ctx).same_walk(old(ctx)),
    {
        let prop = match static_member(&call.callee) {
            Some((_, prop)) => prop,
            None => {
                assert(old(ctx).findings() + none() =~= old(ctx).findings());
                return;
            },
        };
        let literal_arg = call.arguments.len() > 0 && match &call.arguments[0] {
            Expr::Spread { .. } => false,
            first => is_literal_compound(first),
        };
        if !(str_eq(prop, "includes") || str_eq(prop, "indexOf")) || !literal_arg {
            assert(old(ctx).findings() + none() =~= old(ctx).findings());
            return;
        }
        let message = concat3(".", prop, "(objectLiteral) uses reference equality and never matches — use Equal.equals");
        ctx.report(object_literal_comparison_meta(), call.span, message);
        assert(old(ctx).findings() + equality_call_findings(*call) =~= ctx.findings());
    }

    /// A `switch` statement.
    pub fn on_switch(&self, discriminant: &Expr, span: Span, ctx: &mut FileCtx)
        ensures
            final(ctx).findings() == old(ctx).findings() + tag_switch_findings(*discriminant, span),
            final(ctx).same_walk(old(ctx)),
    {
        if !is_tag_member(discriminant) {
            assert(old(ctx).findings() + none() =~= old(ctx).findings());
            return;
        }
        let end = if span.start <= u32::MAX - 6 {
            span.start + 6
        } else {
            u32::MAX
        };
        ctx.report(tag_switch_meta(), Span { start: span.start, end }, owned("switch on _tag — consider Match.valueTags / Effect.catchTags"));
        assert(old(ctx).findings() + tag_switch_findings(*discriminant, span) =~= ctx.findings());
    }
}

} // verus!
