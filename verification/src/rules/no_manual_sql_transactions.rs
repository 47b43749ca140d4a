//! `no-manual-sql-transactions`: hand-written `BEGIN` / `COMMIT` / `ROLLBACK`.
use vstd::prelude::*;

use crate::ast::TaggedTemplate;
use crate::diagnostics::{Category, RuleMeta, Severity};
use crate::matchers::{ident_name, ident_name_spec};
use crate::rules::{none, one, FileCtx, Finding};
use crate::text::{ascii_upper, chars_of, owned, seq_starts_with, starts_with, str_eq, to_ascii_uppercase, trim, trim_spec};

verus! {

/// Catalog metadata of `no-manual-sql-transactions`.
#[verifier::allow_in_spec]
pub fn no_manual_sql_transactions_meta() -> RuleMeta
    returns
        (RuleMeta {
            id: "no-manual-sql-transactions",
            severity: Severity::Warn,
            category: Category::Architecture,
            help: "Hand-written BEGIN/COMMIT/ROLLBACK loses automatic rollback on failure and interruption. Use sql.withTransaction.",
        }),
{
    RuleMeta {
        id: "no-manual-sql-transactions",
        severity: Severity::Warn,
        category: Category::Architecture,
        help: "Hand-written BEGIN/COMMIT/ROLLBACK loses automatic rollback on failure and interruption. Use sql.withTransaction.",
    }
}

/// SQL text that opens, commits or rolls back a transaction: its trimmed,
/// ASCII upper-cased form starts with `BEGIN`, `COMMIT` or `ROLLBACK`.
pub open spec fn is_transaction_keyword_spec(text: Seq<char>) -> bool {
    let upper = ascii_upper(trim_spec(text));
    seq_starts_with(upper, "BEGIN"@) || seq_starts_with(upper, "COMMIT"@) || seq_starts_with(upper, "ROLLBACK"@)
}

/// Does the SQL text start a transaction statement?
pub fn is_transaction_keyword(text: &str) -> (found: bool)
    ensures
        found == is_transaction_keyword_spec(text@),
{
    let chars = chars_of(text);
    let trimmed = trim(&chars);
    let upper = to_ascii_uppercase(&trimmed);
    starts_with(&upper, &chars_of("BEGIN")) || starts_with(&upper, &chars_of("COMMIT")) || starts_with(&upper, &chars_of("ROLLBACK"))
}

/// A `sql` tagged template whose first text part is a transaction statement
/// is reported.
pub open spec fn no_manual_sql_transactions_findings(template: TaggedTemplate) -> Seq<Finding> {
    if ident_name_spec(template.tag) == Some("sql"@) && template.quasis@.len() > 0
        && is_transaction_keyword_spec(template.quasis@[0]@) {
        one(no_manual_sql_transactions_meta(), template.span, "manual transaction statement — use sql.withTransaction"@)
    } else {
        none()
    }
}

pub struct NoManualSqlTransactions;

impl NoManualSqlTransactions {
    /// The rule ids this rule owns.
    pub fn metas(&self) -> (metas: Vec<RuleMeta>)
        ensures
            metas@ == seq![no_manual_sql_transactions_meta()],
    {
        let mut metas: Vec<RuleMeta> = Vec::new();
        metas.push(no_manual_sql_transactions_meta());
        metas
    }

    /// A tagged template expression.
    pub fn on_tagged_template(&self, template: &TaggedTemplate, ctx: &mut FileCtx)
        ensures
            final(ctx).findings() == old(ctx).findings() + no_manual_sql_transactions_findings(*template),
            final(ctx).same_walk(old(ctx)),
    {
        let is_sql = match ident_name(&template.tag) {
            Some(name) => str_eq(name, "sql"),
            None => false,
        };
        if !is_sql || template.quasis.len() == 0 || !is_transaction_keyword(template.quasis[0].as_str()) {
            assert(old(ctx).findings() + none() =~= old(ctx).findings());
            return;
        }
        ctx.report(no_manual_sql_transactions_meta(), template.span, owned("manual transaction statement — use sql.withTransaction"));
        assert(old(ctx).findings() + no_manual_sql_transactions_findings(*template) =~= ctx.findings());
    }
}

} // verus!
