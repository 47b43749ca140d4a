//! Strict agent mode changes severities only: a file linted with
//! `--agent-strict` reports the findings of `--agent`, in the same order, at
//! the same places, with the same messages, each either at its own severity
//! or escalated to an error.
use vstd::prelude::*;

use crate::ast::{else_if_chain, BodyShape, CallExpr, ClassDecl, Event, Expr, Flow, FunctionExpr, TryStmt};
use crate::diagnostics::{Severity, Span};
use crate::effect_imports::{ImportDecl, ImportSpecifier};
use crate::rules::agent_hygiene::{
    agent_any_findings, agent_as_findings, agent_assignment_findings, agent_binary_findings, agent_call_findings,
    agent_conditional_findings, agent_enum_findings, agent_function_findings, agent_if, agent_import_expression_findings,
    agent_import_findings, agent_import_type_findings, agent_loop_findings, agent_namespace_findings,
    agent_non_null_findings, agent_specifier_findings, agent_specifiers_findings, agent_throw_findings,
    agent_try_findings, agent_unary_findings, agent_var_decl_findings,
};
use crate::rules::function_metrics::function_metrics_findings;
use crate::rules::module_conventions::no_default_export_findings;
use crate::rules::oop_to_effect::{oop_class_findings, strategy_end_findings, strategy_interface_findings};
use crate::rules::{agent_one, Finding, FrameKind};
use crate::runner::{file_findings, walk, walk_step, WalkState};

verus! {

/// `strict` holds the findings of `plain`, in order, each with the same rule,
/// place and message, and with the same severity or an error.
pub open spec fn escalation_of(plain: Seq<Finding>, strict: Seq<Finding>) -> bool {
    &&& plain.len() == strict.len()
    &&& forall|k: int|
        #![trigger plain[k], strict[k]]
        0 <= k < plain.len() ==> {
            &&& plain[k].0 == strict[k].0
            &&& plain[k].1 == strict[k].1
            &&& plain[k].2 == strict[k].2
            &&& (strict[k].3 == plain[k].3 || strict[k].3 == Some(Severity::Error))
        }
}

broadcast proof fn lemma_escalation_refl(a: Seq<Finding>)
    ensures
        #[trigger] escalation_of(a, a),
{
}

broadcast proof fn lemma_escalation_concat(a1: Seq<Finding>, b1: Seq<Finding>, a2: Seq<Finding>, b2: Seq<Finding>)
    requires
        escalation_of(a1, b1),
        escalation_of(a2, b2),
    ensures
        #[trigger] escalation_of(a1 + a2, b1 + b2),
{
    assert forall|k: int| #![trigger (a1 + a2)[k], (b1 + b2)[k]] 0 <= k < (a1 + a2).len() implies {
        &&& (a1 + a2)[k].0 == (b1 + b2)[k].0
        &&& (a1 + a2)[k].1 == (b1 + b2)[k].1
        &&& (a1 + a2)[k].2 == (b1 + b2)[k].2
        &&& ((b1 + b2)[k].3 == (a1 + a2)[k].3 || (b1 + b2)[k].3 == Some(Severity::Error))
    } by {
        if k < a1.len() {
            assert((a1 + a2)[k] == a1[k] && (b1 + b2)[k] == b1[k]);
        } else {
            assert((a1 + a2)[k] == a2[k - a1.len()] && (b1 + b2)[k] == b2[k - a1.len()]);
        }
    }
}

broadcast proof fn lemma_agent_one(meta: crate::diagnostics::RuleMeta, span: crate::diagnostics::Span, message: Seq<char>)
    ensures
        #[trigger] escalation_of(agent_one(false, meta, span, message), agent_one(true, meta, span, message)),
{
}

proof fn lemma_specifiers(specifiers: Seq<ImportSpecifier>)
    ensures
        escalation_of(agent_specifiers_findings(false, specifiers), agent_specifiers_findings(true, specifiers)),
    decreases specifiers.len(),
{
    if specifiers.len() > 0 {
        lemma_specifiers(specifiers.drop_last());
        lemma_escalation_concat(
            agent_specifiers_findings(false, specifiers.drop_last()),
            agent_specifiers_findings(true, specifiers.drop_last()),
            agent_specifier_findings(false, specifiers.last()),
            agent_specifier_findings(true, specifiers.last()),
        );
    }
}

proof fn lemma_strategy_end(interfaces: Seq<(Seq<char>, crate::diagnostics::Span)>, implemented: Seq<Seq<char>>)
    ensures
        escalation_of(strategy_end_findings(false, interfaces, implemented), strategy_end_findings(true, interfaces, implemented)),
    decreases interfaces.len(),
{
    if interfaces.len() > 0 {
        lemma_strategy_end(interfaces.drop_last(), implemented);
        lemma_escalation_concat(
            strategy_end_findings(false, interfaces.drop_last(), implemented),
            strategy_end_findings(true, interfaces.drop_last(), implemented),
            strategy_interface_findings(false, implemented, interfaces.last()),
            strategy_interface_findings(true, implemented, interfaces.last()),
        );
    }
}


broadcast group group_escalation {
    lemma_escalation_refl,
    lemma_escalation_concat,
    lemma_agent_one,
}

broadcast proof fn lemma_rule_namespace(agent: bool, span: Span)
    ensures
        #[trigger] escalation_of(agent_namespace_findings(agent, false, span), agent_namespace_findings(agent, true, span)),
{
    broadcast use group_escalation;
}

broadcast proof fn lemma_rule_throw(agent: bool, stack: Seq<FrameKind>, span: Span)
    ensures
        #[trigger] escalation_of(agent_throw_findings(agent, false, stack, span), agent_throw_findings(agent, true, stack, span)),
{
    broadcast use group_escalation;
}

broadcast proof fn lemma_rule_unary(agent: bool, operator: Seq<char>, span: Span)
    ensures
        #[trigger] escalation_of(agent_unary_findings(agent, false, operator, span), agent_unary_findings(agent, true, operator, span)),
{
    broadcast use group_escalation;
}

broadcast proof fn lemma_rule_import_type(agent: bool, span: Span)
    ensures
        #[trigger] escalation_of(agent_import_type_findings(agent, false, span), agent_import_type_findings(agent, true, span)),
{
    broadcast use group_escalation;
}

broadcast proof fn lemma_rule_non_null(agent: bool, span: Span)
    ensures
        #[trigger] escalation_of(agent_non_null_findings(agent, false, span), agent_non_null_findings(agent, true, span)),
{
    broadcast use group_escalation;
}

broadcast proof fn lemma_rule_enum(agent: bool, span: Span)
    ensures
        #[trigger] escalation_of(agent_enum_findings(agent, false, span), agent_enum_findings(agent, true, span)),
{
    broadcast use group_escalation;
}

broadcast proof fn lemma_rule_as(agent: bool, annotation: Option<Seq<char>>, span: Span)
    ensures
        #[trigger] escalation_of(agent_as_findings(agent, false, annotation, span), agent_as_findings(agent, true, annotation, span)),
{
    broadcast use group_escalation;
}

broadcast proof fn lemma_rule_any(agent: bool, span: Span)
    ensures
        #[trigger] escalation_of(agent_any_findings(agent, false, span), agent_any_findings(agent, true, span)),
{
    broadcast use group_escalation;
}

broadcast proof fn lemma_rule_try(agent: bool, stack: Seq<FrameKind>, t: TryStmt)
    ensures
        #[trigger] escalation_of(agent_try_findings(agent, false, stack, t), agent_try_findings(agent, true, stack, t)),
{
    broadcast use group_escalation;
}

broadcast proof fn lemma_rule_conditional(agent: bool, span: Span)
    ensures
        #[trigger] escalation_of(agent_conditional_findings(agent, false, span), agent_conditional_findings(agent, true, span)),
{
    broadcast use group_escalation;
}

broadcast proof fn lemma_rule_binary(agent: bool, operator: Seq<char>, left: Expr, right: Expr, span: Span)
    ensures
        #[trigger] escalation_of(agent_binary_findings(agent, false, operator, left, right, span), agent_binary_findings(agent, true, operator, left, right, span)),
{
    broadcast use group_escalation;
}

broadcast proof fn lemma_rule_loop(agent: bool, span: Span)
    ensures
        #[trigger] escalation_of(agent_loop_findings(agent, false, span), agent_loop_findings(agent, true, span)),
{
    broadcast use group_escalation;
}

broadcast proof fn lemma_rule_var_decl(agent: bool, kind: Seq<char>, span: Span)
    ensures
        #[trigger] escalation_of(agent_var_decl_findings(agent, false, kind, span), agent_var_decl_findings(agent, true, kind, span)),
{
    broadcast use group_escalation;
}

broadcast proof fn lemma_rule_assignment(agent: bool, to_identifier: bool, span: Span)
    ensures
        #[trigger] escalation_of(agent_assignment_findings(agent, false, to_identifier, span), agent_assignment_findings(agent, true, to_identifier, span)),
{
    broadcast use group_escalation;
}

broadcast proof fn lemma_rule_import_expression(agent: bool, span: Span)
    ensures
        #[trigger] escalation_of(agent_import_expression_findings(agent, false, span), agent_import_expression_findings(agent, true, span)),
{
    broadcast use group_escalation;
}

broadcast proof fn lemma_rule_call(agent: bool, call: CallExpr)
    ensures
        #[trigger] escalation_of(agent_call_findings(agent, false, call), agent_call_findings(agent, true, call)),
{
    broadcast use group_escalation;
}

broadcast proof fn lemma_rule_function(agent: bool, f: FunctionExpr, shape: Option<BodyShape>)
    ensures
        #[trigger] escalation_of(agent_function_findings(agent, false, f, shape), agent_function_findings(agent, true, f, shape)),
{
    broadcast use group_escalation;
}

broadcast proof fn lemma_rule_default_export(agent: bool, span: Span)
    ensures
        #[trigger] escalation_of(no_default_export_findings(agent, false, span), no_default_export_findings(agent, true, span)),
{
    broadcast use group_escalation;
}

broadcast proof fn lemma_rule_oop_class(agent: bool, class: ClassDecl)
    ensures
        #[trigger] escalation_of(oop_class_findings(agent, false, class), oop_class_findings(agent, true, class)),
{
    broadcast use group_escalation;
}

broadcast proof fn lemma_rule_import(agent: bool, decl: ImportDecl, span: Span)
    ensures
        #[trigger] escalation_of(agent_import_findings(agent, false, decl, span), agent_import_findings(agent, true, decl, span)),
{
    broadcast use group_escalation;

    match decl.specifiers {
        Some(specifiers) => lemma_specifiers(specifiers@),
        None => {},
    }
}

broadcast proof fn lemma_rule_metrics(f: FunctionExpr, flow: Option<Seq<Flow>>)
    ensures
        #[trigger] escalation_of(function_metrics_findings(false, f, flow), function_metrics_findings(true, f, flow)),
{
    broadcast use group_escalation;

}

broadcast proof fn lemma_rule_strategy_end(interfaces: Seq<(Seq<char>, Span)>, implemented: Seq<Seq<char>>)
    ensures
        #[trigger] escalation_of(strategy_end_findings(false, interfaces, implemented), strategy_end_findings(true, interfaces, implemented)),
{
    lemma_strategy_end(interfaces, implemented);
}

broadcast group group_rule_escalation {
    lemma_rule_namespace,
    lemma_rule_throw,
    lemma_rule_unary,
    lemma_rule_import_type,
    lemma_rule_non_null,
    lemma_rule_enum,
    lemma_rule_as,
    lemma_rule_any,
    lemma_rule_try,
    lemma_rule_conditional,
    lemma_rule_binary,
    lemma_rule_loop,
    lemma_rule_var_decl,
    lemma_rule_assignment,
    lemma_rule_import_expression,
    lemma_rule_call,
    lemma_rule_function,
    lemma_rule_default_export,
    lemma_rule_oop_class,
    lemma_rule_import,
    lemma_rule_metrics,
    lemma_rule_strategy_end,
}

/// The plain and the strict run of the walk agree on everything but the
/// severities of their findings.
pub open spec fn states_match(plain: WalkState, strict: WalkState) -> bool {
    &&& plain.0 == strict.0
    &&& plain.1 == strict.1
    &&& plain.3 == strict.3
    &&& escalation_of(plain.2, strict.2)
}

proof fn lemma_if(agent: bool, skip: Seq<u32>, span: Span, has_alternate: bool, starts: Seq<u32>)
    ensures
        agent_if(agent, false, skip, span, has_alternate, starts).1 == agent_if(agent, true, skip, span, has_alternate, starts).1,
        escalation_of(agent_if(agent, false, skip, span, has_alternate, starts).0, agent_if(agent, true, skip, span, has_alternate, starts).0),
{
    broadcast use group_escalation;

}

#[verifier::spinoff_prover]
#[verifier::rlimit(100)]
proof fn lemma_step(plain: WalkState, strict: WalkState, bindings: Map<Seq<char>, Seq<char>>, v4: bool, adopt: bool, agent: bool, event: Event)
    requires
        states_match(plain, strict),
    ensures
        states_match(
            walk_step(plain, bindings, (v4, adopt, agent, false), event),
            walk_step(strict, bindings, (v4, adopt, agent, true), event),
        ),
{
    broadcast use group_escalation, group_rule_escalation;

    match event {
        Event::If { span, alternate } => lemma_if(agent, plain.3.if_chain_skip, span, alternate is Some, else_if_chain(alternate)),
        _ => {},
    }
}

proof fn lemma_walk(events: Seq<Event>, bindings: Map<Seq<char>, Seq<char>>, v4: bool, adopt: bool, agent: bool)
    ensures
        states_match(walk(events, bindings, (v4, adopt, agent, false)), walk(events, bindings, (v4, adopt, agent, true))),
    decreases events.len(),
{
    if events.len() == 0 {
        lemma_escalation_refl(Seq::empty());
    } else {
        lemma_walk(events.drop_last(), bindings, v4, adopt, agent);
        lemma_step(
            walk(events.drop_last(), bindings, (v4, adopt, agent, false)),
            walk(events.drop_last(), bindings, (v4, adopt, agent, true)),
            bindings,
            v4,
            adopt,
            agent,
            events.last(),
        );
    }
}

pub(crate) proof fn lemma_file(events: Seq<Event>, bindings: Map<Seq<char>, Seq<char>>, v4: bool, adopt: bool, agent: bool)
    ensures
        escalation_of(file_findings(events, bindings, (v4, adopt, agent, false)), file_findings(events, bindings, (v4, adopt, agent, true))),
{
    broadcast use group_escalation, group_rule_escalation;

    lemma_walk(events, bindings, v4, adopt, agent);
}

} // verus!
