//! The experimental rule families are opt-in: over a whole file, the
//! agent-hygiene family reports nothing unless agent mode is on, and the
//! adoption family reports nothing unless adoption mode is on.
use vstd::prelude::*;

use crate::ast::{else_if_chain, Alternate, CallExpr, ClassDecl, Event, Expr, Flow, FunctionExpr, TaggedTemplate, TryStmt};
use crate::diagnostics::Span;
use crate::diagnostics::Category;
use crate::rules::Finding;
use crate::runner::{
    call_findings, early_correctness_findings, file_findings, idiom_call_findings, late_call_findings,
    late_correctness_findings, member_findings, walk, walk_step, WalkState,
};
use crate::rules::FrameKind;
use crate::diagnostics::Diagnostic;
use crate::effect_imports::{any_effect_import, bindings_map, program_bindings};
use crate::lint::{classify_spec, finalized_finding, linted, options_flags, LintOptions, ParsedFile};

verus! {

/// No finding of `fs` belongs to category `c`.
pub open spec fn lacks_category(fs: Seq<Finding>, c: Category) -> bool {
    forall|i: int| 0 <= i < fs.len() ==> (#[trigger] fs[i]).0.category != c
}

/// The categories of the families a profile leaves off.
pub open spec fn off_category(flags: (bool, bool, bool, bool), c: Category) -> bool {
    (c == Category::AgentHygiene && !flags.2) || (c == Category::Adoption && !flags.1)
}

broadcast proof fn lemma_lacks_concat(a: Seq<Finding>, b: Seq<Finding>, c: Category)
    requires
        lacks_category(a, c),
        lacks_category(b, c),
    ensures
        #[trigger] lacks_category(a + b, c),
{
    assert forall|i: int| 0 <= i < (a + b).len() implies (#[trigger] (a + b)[i]).0.category != c by {
        if i < a.len() {
            assert((a + b)[i] == a[i]);
        } else {
            assert((a + b)[i] == b[i - a.len()]);
        }
    }
}

proof fn lemma_early_correctness(stack: Seq<FrameKind>, bindings: Map<Seq<char>, Seq<char>>, call: CallExpr, c: Category)
    requires
        c == Category::AgentHygiene || c == Category::Adoption,
    ensures
        lacks_category(early_correctness_findings(stack, bindings, call), c),
{
}

proof fn lemma_concurrency_idioms(bindings: Map<Seq<char>, Seq<char>>, call: CallExpr, c: Category)
    requires
        c == Category::AgentHygiene || c == Category::Adoption,
    ensures
        lacks_category(crate::rules::concurrency_idioms::concurrency_idioms_findings(bindings, call), c),
{
    let a = crate::rules::concurrency_idioms::missing_concurrency_findings(bindings, call);
    let b = crate::rules::concurrency_idioms::race_sleep_findings(bindings, call);
    let d = crate::rules::concurrency_idioms::fork_join_findings(bindings, call);
    assert(lacks_category(a, c));
    assert(lacks_category(b, c));
    match crate::matchers::direct_effect_gen_spec(call, bindings) {
        Some(g) => {
            if g.body@.len() >= 2 {
                lemma_fork_join_upto(g.body@, bindings, g.body@.len() - 1, c);
            }
        },
        None => {},
    }
    assert(lacks_category(d, c));
    lemma_lacks_concat(a, b, c);
    lemma_lacks_concat(a + b, d, c);
}

proof fn lemma_literal_idioms(bindings: Map<Seq<char>, Seq<char>>, call: CallExpr, c: Category)
    requires
        c == Category::AgentHygiene || c == Category::Adoption,
    ensures
        lacks_category(crate::rules::literal_idioms::literal_idioms_findings(bindings, call), c),
{
}

proof fn lemma_logging_security(bindings: Map<Seq<char>, Seq<char>>, call: CallExpr, c: Category)
    requires
        c == Category::AgentHygiene || c == Category::Adoption,
    ensures
        lacks_category(crate::rules::logging_security::logging_security_findings(bindings, call), c),
{
}

proof fn lemma_interruption(bindings: Map<Seq<char>, Seq<char>>, call: CallExpr, c: Category)
    requires
        c == Category::AgentHygiene || c == Category::Adoption,
    ensures
        lacks_category(crate::rules::interruption::interruption_findings(bindings, call), c),
{
}

proof fn lemma_composition_limits(bindings: Map<Seq<char>, Seq<char>>, call: CallExpr, c: Category)
    requires
        c == Category::AgentHygiene || c == Category::Adoption,
    ensures
        lacks_category(crate::rules::composition_limits::composition_limits_findings(bindings, call), c),
{
}

proof fn lemma_gen_shape_call(bindings: Map<Seq<char>, Seq<char>>, call: CallExpr, c: Category)
    requires
        c == Category::AgentHygiene || c == Category::Adoption,
    ensures
        lacks_category(crate::rules::gen_shape::gen_shape_call_findings(bindings, call), c),
{
}

proof fn lemma_no_unnecessary_gen(bindings: Map<Seq<char>, Seq<char>>, call: CallExpr, c: Category)
    requires
        c == Category::AgentHygiene || c == Category::Adoption,
    ensures
        lacks_category(crate::rules::no_unnecessary_gen::no_unnecessary_gen_findings(bindings, call), c),
{
}

proof fn lemma_idiom_shortcuts(bindings: Map<Seq<char>, Seq<char>>, call: CallExpr, c: Category)
    requires
        c == Category::AgentHygiene || c == Category::Adoption,
    ensures
        lacks_category(crate::rules::idiom_shortcuts::idiom_shortcuts_findings(bindings, call), c),
{
    let a = crate::rules::idiom_shortcuts::succeed_undefined_findings(bindings, call);
    let b = crate::rules::idiom_shortcuts::map_to_constant_findings(bindings, call);
    let d = crate::rules::idiom_shortcuts::map_flatten_findings(bindings, call);
    let e = crate::rules::idiom_shortcuts::empty_pipe_findings(call);
    assert(lacks_category(a, c));
    assert(lacks_category(b, c));
    lemma_pipe_pairs(call.arguments@, bindings, call.span, call.arguments@.len() as int, c);
    assert(lacks_category(d, c));
    assert(lacks_category(e, c));
    lemma_lacks_concat(a, b, c);
    lemma_lacks_concat(a + b, d, c);
    lemma_lacks_concat(a + b + d, e, c);
}

proof fn lemma_catch_idioms(bindings: Map<Seq<char>, Seq<char>>, call: CallExpr, c: Category)
    requires
        c == Category::AgentHygiene || c == Category::Adoption,
    ensures
        lacks_category(crate::rules::catch_idioms::catch_idioms_findings(bindings, call), c),
{
}

proof fn lemma_prefer_clock_call(stack: Seq<FrameKind>, call: CallExpr, c: Category)
    requires
        c == Category::AgentHygiene || c == Category::Adoption,
    ensures
        lacks_category(crate::rules::prefer_clock_service::prefer_clock_call_findings(stack, call), c),
{
}

proof fn lemma_prefer_random_service(stack: Seq<FrameKind>, call: CallExpr, c: Category)
    requires
        c == Category::AgentHygiene || c == Category::Adoption,
    ensures
        lacks_category(crate::rules::prefer_random_service::prefer_random_service_findings(stack, call), c),
{
}

proof fn lemma_prefer_effect_logging(stack: Seq<FrameKind>, call: CallExpr, c: Category)
    requires
        c == Category::AgentHygiene || c == Category::Adoption,
    ensures
        lacks_category(crate::rules::prefer_effect_logging::prefer_effect_logging_findings(stack, call), c),
{
}

proof fn lemma_globals_call(stack: Seq<FrameKind>, call: CallExpr, c: Category)
    requires
        c == Category::AgentHygiene || c == Category::Adoption,
    ensures
        lacks_category(crate::rules::globals_in_effect::globals_call_findings(stack, call), c),
{
}

proof fn lemma_schema_usage(stack: Seq<FrameKind>, bindings: Map<Seq<char>, Seq<char>>, call: CallExpr, c: Category)
    requires
        c == Category::AgentHygiene || c == Category::Adoption,
    ensures
        lacks_category(crate::rules::schema_usage::schema_usage_findings(stack, bindings, call), c),
{
}

proof fn lemma_meaningful_span_names(bindings: Map<Seq<char>, Seq<char>>, call: CallExpr, c: Category)
    requires
        c == Category::AgentHygiene || c == Category::Adoption,
    ensures
        lacks_category(crate::rules::meaningful_span_names::meaningful_span_names_findings(bindings, call), c),
{
}

proof fn lemma_prefer_it_effect(bindings: Map<Seq<char>, Seq<char>>, call: CallExpr, c: Category)
    requires
        c == Category::AgentHygiene || c == Category::Adoption,
    ensures
        lacks_category(crate::rules::prefer_it_effect::prefer_it_effect_findings(bindings, call), c),
{
}

proof fn lemma_no_chained_provides(bindings: Map<Seq<char>, Seq<char>>, call: CallExpr, c: Category)
    requires
        c == Category::AgentHygiene || c == Category::Adoption,
    ensures
        lacks_category(crate::rules::no_chained_provides::no_chained_provides_findings(bindings, call), c),
{
}

proof fn lemma_retry_only_retryable(bindings: Map<Seq<char>, Seq<char>>, call: CallExpr, c: Category)
    requires
        c == Category::AgentHygiene || c == Category::Adoption,
    ensures
        lacks_category(crate::rules::retry_only_retryable::retry_only_retryable_findings(bindings, call), c),
{
}

proof fn lemma_no_unbounded_concurrency(args: Seq<Expr>, c: Category)
    requires
        c == Category::AgentHygiene || c == Category::Adoption,
    ensures
        lacks_category(crate::rules::no_unbounded_concurrency::no_unbounded_concurrency_findings(args), c),
    decreases args.len(),
{
    if args.len() > 0 {
        lemma_no_unbounded_concurrency(args.drop_last(), c);
        let last = crate::rules::no_unbounded_concurrency::argument_findings(args.last());
        match args.last() {
            Expr::Object { properties, .. } => lemma_properties(properties@, c),
            _ => {},
        }
        assert(lacks_category(last, c));
        lemma_lacks_concat(crate::rules::no_unbounded_concurrency::no_unbounded_concurrency_findings(args.drop_last()), last, c);
    }
}

proof fn lemma_adopt_call(adopt: bool, stack: Seq<FrameKind>, call: CallExpr, c: Category)
    requires
        c == Category::AgentHygiene || (c == Category::Adoption && !adopt),
    ensures
        lacks_category(crate::rules::adopt::adopt_call_findings(adopt, stack, call), c),
{
}

proof fn lemma_agent_call(agent: bool, strict: bool, call: CallExpr, c: Category)
    requires
        c == Category::Adoption || (c == Category::AgentHygiene && !agent),
    ensures
        lacks_category(crate::rules::agent_hygiene::agent_call_findings(agent, strict, call), c),
{
}

proof fn lemma_no_effect_do(bindings: Map<Seq<char>, Seq<char>>, object: Expr, property: Seq<char>, span: Span, c: Category)
    requires
        c == Category::AgentHygiene || c == Category::Adoption,
    ensures
        lacks_category(crate::rules::no_effect_do::no_effect_do_findings(bindings, object, property, span), c),
{
}

proof fn lemma_no_or_die(bindings: Map<Seq<char>, Seq<char>>, object: Expr, property: Seq<char>, span: Span, c: Category)
    requires
        c == Category::AgentHygiene || c == Category::Adoption,
    ensures
        lacks_category(crate::rules::no_or_die::no_or_die_findings(bindings, object, property, span), c),
{
}

proof fn lemma_globals_member(stack: Seq<FrameKind>, object: Expr, property: Seq<char>, span: Span, c: Category)
    requires
        c == Category::AgentHygiene || c == Category::Adoption,
    ensures
        lacks_category(crate::rules::globals_in_effect::globals_member_findings(stack, object, property, span), c),
{
}

proof fn lemma_prefer_clock_new(stack: Seq<FrameKind>, new_expr: CallExpr, c: Category)
    requires
        c == Category::AgentHygiene || c == Category::Adoption,
    ensures
        lacks_category(crate::rules::prefer_clock_service::prefer_clock_new_findings(stack, new_expr), c),
{
}

proof fn lemma_adopt_new(adopt: bool, stack: Seq<FrameKind>, new_expr: CallExpr, c: Category)
    requires
        c == Category::AgentHygiene || (c == Category::Adoption && !adopt),
    ensures
        lacks_category(crate::rules::adopt::adopt_new_findings(adopt, stack, new_expr), c),
{
}

proof fn lemma_require_yield_star(stack: Seq<FrameKind>, delegate: bool, span: Span, c: Category)
    requires
        c == Category::AgentHygiene || c == Category::Adoption,
    ensures
        lacks_category(crate::rules::require_yield_star::require_yield_star_findings(stack, delegate, span), c),
{
}

proof fn lemma_nested_gen_yield(stack: Seq<FrameKind>, bindings: Map<Seq<char>, Seq<char>>, delegate: bool, argument: Option<Expr>, span: Span, c: Category)
    requires
        c == Category::AgentHygiene || c == Category::Adoption,
    ensures
        lacks_category(crate::rules::gen_shape::nested_gen_yield_findings(stack, bindings, delegate, argument, span), c),
{
}

proof fn lemma_no_unnecessary_fail(stack: Seq<FrameKind>, bindings: Map<Seq<char>, Seq<char>>, delegate: bool, argument: Option<Expr>, span: Span, c: Category)
    requires
        c == Category::AgentHygiene || c == Category::Adoption,
    ensures
        lacks_category(crate::rules::no_unnecessary_fail::no_unnecessary_fail_findings(stack, bindings, delegate, argument, span), c),
{
}

proof fn lemma_no_throw_in_effect(stack: Seq<FrameKind>, span: Span, c: Category)
    requires
        c == Category::AgentHygiene || c == Category::Adoption,
    ensures
        lacks_category(crate::rules::no_throw_in_effect::no_throw_in_effect_findings(stack, span), c),
{
}

proof fn lemma_no_try_catch_in_gen(stack: Seq<FrameKind>, t: TryStmt, c: Category)
    requires
        c == Category::AgentHygiene || c == Category::Adoption,
    ensures
        lacks_category(crate::rules::no_try_catch_in_gen::no_try_catch_in_gen_findings(stack, t), c),
{
}

proof fn lemma_no_manual_sql_transactions(template: TaggedTemplate, c: Category)
    requires
        c == Category::AgentHygiene || c == Category::Adoption,
    ensures
        lacks_category(crate::rules::no_manual_sql_transactions::no_manual_sql_transactions_findings(template), c),
{
}

proof fn lemma_prefer_node_counterparts(source: Seq<char>, span: Span, c: Category)
    requires
        c == Category::AgentHygiene || c == Category::Adoption,
    ensures
        lacks_category(crate::rules::prefer_node_counterparts::prefer_node_counterparts_findings(source, span), c),
{
}

proof fn lemma_schema_class_hygiene(class: ClassDecl, bindings: Map<Seq<char>, Seq<char>>, c: Category)
    requires
        c == Category::AgentHygiene || c == Category::Adoption,
    ensures
        lacks_category(crate::rules::schema_class_hygiene::schema_class_hygiene_findings(class, bindings), c),
{
    match (class.super_class, class.name) {
        (Some(superclass), Some(name)) => {
            let a = crate::rules::schema_class_hygiene::self_mismatch_findings(name@, superclass, bindings);
            assert(lacks_category(a, c));
            lemma_constructors(name@, class.constructors@, c);
            let b = if crate::rules::schema_class_hygiene::extends_schema_class_spec(superclass, bindings) {
                crate::rules::schema_class_hygiene::constructor_findings(name@, class.constructors@)
            } else {
                crate::rules::none()
            };
            lemma_lacks_concat(a, b, c);
        },
        _ => {},
    }
}

proof fn lemma_redundant_tag(class: ClassDecl, bindings: Map<Seq<char>, Seq<char>>, c: Category)
    requires
        c == Category::AgentHygiene || c == Category::Adoption,
    ensures
        lacks_category(crate::rules::gen_shape::redundant_tag_findings(class, bindings), c),
{
}

proof fn lemma_prefer_tagged_error_classes(class: ClassDecl, c: Category)
    requires
        c == Category::AgentHygiene || c == Category::Adoption,
    ensures
        lacks_category(crate::rules::prefer_tagged_error_classes::prefer_tagged_error_classes_findings(class), c),
{
}

proof fn lemma_oop_class(agent: bool, strict: bool, class: ClassDecl, c: Category)
    requires
        c == Category::Adoption || (c == Category::AgentHygiene && !agent),
    ensures
        lacks_category(crate::rules::oop_to_effect::oop_class_findings(agent, strict, class), c),
{
}

proof fn lemma_equality_binary(operator: Seq<char>, left: Expr, right: Expr, span: Span, c: Category)
    requires
        c == Category::AgentHygiene || c == Category::Adoption,
    ensures
        lacks_category(crate::rules::equality_idioms::equality_binary_findings(operator, left, right, span), c),
{
}

proof fn lemma_tag_switch(discriminant: Expr, span: Span, c: Category)
    requires
        c == Category::AgentHygiene || c == Category::Adoption,
    ensures
        lacks_category(crate::rules::equality_idioms::tag_switch_findings(discriminant, span), c),
{
}

proof fn lemma_return_effect(stack: Seq<FrameKind>, bindings: Map<Seq<char>, Seq<char>>, argument: Option<Expr>, span: Span, c: Category)
    requires
        c == Category::AgentHygiene || c == Category::Adoption,
    ensures
        lacks_category(crate::rules::gen_shape::return_effect_findings(stack, bindings, argument, span), c),
{
}

proof fn lemma_prefer_effect_fn(bindings: Map<Seq<char>, Seq<char>>, f: FunctionExpr, c: Category)
    requires
        c == Category::AgentHygiene || c == Category::Adoption,
    ensures
        lacks_category(crate::rules::prefer_effect_fn::prefer_effect_fn_findings(bindings, f), c),
{
}

proof fn lemma_async_function(adopt: bool, f: FunctionExpr, name: Option<Seq<char>>, c: Category)
    requires
        c == Category::AgentHygiene || (c == Category::Adoption && !adopt),
    ensures
        lacks_category(crate::rules::adopt::async_function_findings(adopt, f, name), c),
{
}

proof fn lemma_function_metrics(strict: bool, f: FunctionExpr, flow: Option<Seq<Flow>>, c: Category)
    requires
        c == Category::AgentHygiene || c == Category::Adoption,
    ensures
        lacks_category(crate::rules::function_metrics::function_metrics_findings(strict, f, flow), c),
{
}

proof fn lemma_loop(adopt: bool, stack: Seq<FrameKind>, span: Span, has_yield: bool, has_await: bool, c: Category)
    requires
        c == Category::AgentHygiene || (c == Category::Adoption && !adopt),
    ensures
        lacks_category(crate::rules::adopt::loop_findings(adopt, stack, span, has_yield, has_await), c),
{
}

proof fn lemma_schedule_end(spans: Seq<Span>, jitter: bool, cap: bool, c: Category)
    requires
        c == Category::AgentHygiene || c == Category::Adoption,
    ensures
        lacks_category(crate::rules::schedule_hygiene::schedule_end_findings(spans, jitter, cap), c),
    decreases spans.len(),
{
    if spans.len() > 0 {
        lemma_schedule_end(spans.drop_last(), jitter, cap, c);
        let last = crate::rules::schedule_hygiene::exponential_findings(spans.last(), jitter, cap);
        assert(lacks_category(last, c));
        lemma_lacks_concat(crate::rules::schedule_hygiene::schedule_end_findings(spans.drop_last(), jitter, cap), last, c);
    }
}

proof fn lemma_strategy_end(strict: bool, interfaces: Seq<(Seq<char>, Span)>, implemented: Seq<Seq<char>>, c: Category)
    requires
        c == Category::AgentHygiene || c == Category::Adoption,
    ensures
        lacks_category(crate::rules::oop_to_effect::strategy_end_findings(strict, interfaces, implemented), c),
    decreases interfaces.len(),
{
    if interfaces.len() > 0 {
        lemma_strategy_end(strict, interfaces.drop_last(), implemented, c);
        let last = crate::rules::oop_to_effect::strategy_interface_findings(strict, implemented, interfaces.last());
        assert(lacks_category(last, c));
        lemma_lacks_concat(crate::rules::oop_to_effect::strategy_end_findings(strict, interfaces.drop_last(), implemented), last, c);
    }
}

proof fn lemma_agent_end(agent: bool, fps: Seq<(u64, Span)>, c: Category)
    requires
        c == Category::Adoption || (c == Category::AgentHygiene && !agent),
    ensures
        lacks_category(crate::rules::agent_hygiene::agent_end_findings(agent, fps), c),
{
    if agent {
        lemma_duplicates(crate::rules::agent_hygiene::sort_by_start(crate::rules::agent_hygiene::duplicated_upto(fps, fps)), c);
    }
}

proof fn lemma_no_default_export(agent: bool, strict: bool, span: Span, c: Category)
    requires
        c == Category::Adoption || (c == Category::AgentHygiene && !agent),
    ensures
        lacks_category(crate::rules::module_conventions::no_default_export_findings(agent, strict, span), c),
{
}

proof fn lemma_constructors(name: Seq<char>, constructors: Seq<Span>, c: Category)
    requires
        c == Category::AgentHygiene || c == Category::Adoption,
    ensures
        lacks_category(crate::rules::schema_class_hygiene::constructor_findings(name, constructors), c),
    decreases constructors.len(),
{
    if constructors.len() > 0 {
        lemma_constructors(name, constructors.drop_last(), c);
        let last = crate::rules::one(
            crate::rules::schema_class_hygiene::constructor_override_meta(),
            constructors.last(),
            "constructor override in Schema class `"@ + name + "` breaks decoding"@,
        );
        assert(lacks_category(last, c));
        lemma_lacks_concat(crate::rules::schema_class_hygiene::constructor_findings(name, constructors.drop_last()), last, c);
    }
}

proof fn lemma_duplicates(spans: Seq<Span>, c: Category)
    requires
        c == Category::Adoption,
    ensures
        lacks_category(crate::rules::agent_hygiene::duplicate_findings_of(spans), c),
    decreases spans.len(),
{
    if spans.len() > 0 {
        lemma_duplicates(spans.drop_last(), c);
        let last = crate::rules::one(
            crate::rules::agent_hygiene::duplicate_function_meta(),
            crate::rules::adopt::keyword_span(spans.last(), 1),
            "function body is structurally identical to another in this file — extract a shared helper"@,
        );
        assert(lacks_category(last, c));
        lemma_lacks_concat(crate::rules::agent_hygiene::duplicate_findings_of(spans.drop_last()), last, c);
    }
}

proof fn lemma_fork_join_upto(stmts: Seq<crate::ast::Stmt>, bindings: Map<Seq<char>, Seq<char>>, n: int, c: Category)
    requires
        c == Category::AgentHygiene || c == Category::Adoption,
    ensures
        lacks_category(crate::rules::concurrency_idioms::fork_join_upto(stmts, bindings, n), c),
    decreases n,
{
    if !(n <= 0 || n >= stmts.len()) {
        lemma_fork_join_upto(stmts, bindings, n - 1, c);
        let last = crate::rules::concurrency_idioms::fork_join_pair(stmts, bindings, n - 1);
        assert(lacks_category(last, c));
        lemma_lacks_concat(crate::rules::concurrency_idioms::fork_join_upto(stmts, bindings, n - 1), last, c);
    }
}

proof fn lemma_pipe_pairs(args: Seq<Expr>, bindings: Map<Seq<char>, Seq<char>>, span: Span, n: int, c: Category)
    requires
        c == Category::AgentHygiene || c == Category::Adoption,
    ensures
        lacks_category(crate::rules::idiom_shortcuts::pipe_pair_findings(args, bindings, span, n), c),
    decreases n,
{
    if !(n < 2 || n > args.len()) {
        lemma_pipe_pairs(args, bindings, span, n - 1, c);
        let prior = crate::rules::idiom_shortcuts::pipe_pair_findings(args, bindings, span, n - 1);
        let whole = crate::rules::idiom_shortcuts::pipe_pair_findings(args, bindings, span, n);
        assert forall|i: int| 0 <= i < whole.len() implies (#[trigger] whole[i]).0.category != c by {
            if i >= prior.len() {
                assert(whole[i].0 == crate::rules::idiom_shortcuts::prefer_flatmap_meta());
            } else {
                assert(whole[i] == prior[i]);
            }
        }
    }
}

proof fn lemma_properties(properties: Seq<crate::ast::Property>, c: Category)
    requires
        c == Category::AgentHygiene || c == Category::Adoption,
    ensures
        lacks_category(crate::rules::no_unbounded_concurrency::property_findings(properties), c),
    decreases properties.len(),
{
    if properties.len() > 0 {
        lemma_properties(properties.drop_last(), c);
        let prior = crate::rules::no_unbounded_concurrency::property_findings(properties.drop_last());
        let whole = crate::rules::no_unbounded_concurrency::property_findings(properties);
        assert forall|i: int| 0 <= i < whole.len() implies (#[trigger] whole[i]).0.category != c by {
            if i >= prior.len() {
                assert(whole[i].0 == crate::rules::no_unbounded_concurrency::no_unbounded_concurrency_meta());
            } else {
                assert(whole[i] == prior[i]);
            }
        }
    }
}

proof fn lemma_late_correctness(bindings: Map<Seq<char>, Seq<char>>, call: CallExpr, c: Category)
    requires
        c == Category::AgentHygiene || c == Category::Adoption,
    ensures
        lacks_category(late_correctness_findings(bindings, call), c),
{
    broadcast use lemma_lacks_concat;

    lemma_concurrency_idioms(bindings, call, c);
    lemma_literal_idioms(bindings, call, c);
    lemma_logging_security(bindings, call, c);
    lemma_interruption(bindings, call, c);
    lemma_composition_limits(bindings, call, c);
    lemma_gen_shape_call(bindings, call, c);
}

proof fn lemma_idiom_call(stack: Seq<FrameKind>, bindings: Map<Seq<char>, Seq<char>>, call: CallExpr, c: Category)
    requires
        c == Category::AgentHygiene || c == Category::Adoption,
    ensures
        lacks_category(idiom_call_findings(stack, bindings, call), c),
{
    broadcast use lemma_lacks_concat;

    lemma_no_unnecessary_gen(bindings, call, c);
    lemma_idiom_shortcuts(bindings, call, c);
    lemma_catch_idioms(bindings, call, c);
    lemma_prefer_clock_call(stack, call, c);
    lemma_prefer_random_service(stack, call, c);
    lemma_prefer_effect_logging(stack, call, c);
    lemma_globals_call(stack, call, c);
}

proof fn lemma_late_call(stack: Seq<FrameKind>, bindings: Map<Seq<char>, Seq<char>>, flags: (bool, bool, bool, bool), call: CallExpr, c: Category)
    requires
        off_category(flags, c),
    ensures
        lacks_category(late_call_findings(stack, bindings, flags, call), c),
{
    broadcast use lemma_lacks_concat;

    lemma_schema_usage(stack, bindings, call, c);
    lemma_meaningful_span_names(bindings, call, c);
    lemma_prefer_it_effect(bindings, call, c);
    lemma_no_chained_provides(bindings, call, c);
    lemma_retry_only_retryable(bindings, call, c);
    lemma_no_unbounded_concurrency(call.arguments@, c);
    lemma_adopt_call(flags.1, stack, call, c);
    lemma_agent_call(flags.2, flags.3, call, c);
}

proof fn lemma_call(stack: Seq<FrameKind>, bindings: Map<Seq<char>, Seq<char>>, flags: (bool, bool, bool, bool), call: CallExpr, c: Category)
    requires
        off_category(flags, c),
    ensures
        lacks_category(call_findings(stack, bindings, flags, call), c),
{
    broadcast use lemma_lacks_concat;

    lemma_early_correctness(stack, bindings, call, c);
    lemma_late_correctness(bindings, call, c);
    lemma_idiom_call(stack, bindings, call, c);
    lemma_late_call(stack, bindings, flags, call, c);
}

proof fn lemma_agent_namespace(agent: bool, strict: bool, span: Span, c: Category)
    requires
        c == Category::Adoption || (c == Category::AgentHygiene && !agent),
    ensures
        lacks_category(crate::rules::agent_hygiene::agent_namespace_findings(agent, strict, span), c),
{
}

proof fn lemma_agent_throw(agent: bool, strict: bool, stack: Seq<FrameKind>, span: Span, c: Category)
    requires
        c == Category::Adoption || (c == Category::AgentHygiene && !agent),
    ensures
        lacks_category(crate::rules::agent_hygiene::agent_throw_findings(agent, strict, stack, span), c),
{
}

proof fn lemma_agent_unary(agent: bool, strict: bool, operator: Seq<char>, span: Span, c: Category)
    requires
        c == Category::Adoption || (c == Category::AgentHygiene && !agent),
    ensures
        lacks_category(crate::rules::agent_hygiene::agent_unary_findings(agent, strict, operator, span), c),
{
}

proof fn lemma_agent_import_type(agent: bool, strict: bool, span: Span, c: Category)
    requires
        c == Category::Adoption || (c == Category::AgentHygiene && !agent),
    ensures
        lacks_category(crate::rules::agent_hygiene::agent_import_type_findings(agent, strict, span), c),
{
}

proof fn lemma_agent_non_null(agent: bool, strict: bool, span: Span, c: Category)
    requires
        c == Category::Adoption || (c == Category::AgentHygiene && !agent),
    ensures
        lacks_category(crate::rules::agent_hygiene::agent_non_null_findings(agent, strict, span), c),
{
}

proof fn lemma_agent_enum(agent: bool, strict: bool, span: Span, c: Category)
    requires
        c == Category::Adoption || (c == Category::AgentHygiene && !agent),
    ensures
        lacks_category(crate::rules::agent_hygiene::agent_enum_findings(agent, strict, span), c),
{
}

proof fn lemma_agent_as(agent: bool, strict: bool, annotation: Option<Seq<char>>, span: Span, c: Category)
    requires
        c == Category::Adoption || (c == Category::AgentHygiene && !agent),
    ensures
        lacks_category(crate::rules::agent_hygiene::agent_as_findings(agent, strict, annotation, span), c),
{
}

proof fn lemma_agent_any(agent: bool, strict: bool, span: Span, c: Category)
    requires
        c == Category::Adoption || (c == Category::AgentHygiene && !agent),
    ensures
        lacks_category(crate::rules::agent_hygiene::agent_any_findings(agent, strict, span), c),
{
}

proof fn lemma_agent_import(agent: bool, strict: bool, decl: crate::effect_imports::ImportDecl, source_span: Span, c: Category)
    requires
        c == Category::Adoption || (c == Category::AgentHygiene && !agent),
    ensures
        lacks_category(crate::rules::agent_hygiene::agent_import_findings(agent, strict, decl, source_span), c),
{
    broadcast use lemma_lacks_concat;

    if agent && !crate::effect_imports::is_effect_package_spec(decl.source@) {
        match decl.specifiers {
            Some(specifiers) => lemma_agent_specifiers(strict, specifiers@, c),
            None => {},
        }
    }
}

proof fn lemma_agent_try(agent: bool, strict: bool, stack: Seq<FrameKind>, t: TryStmt, c: Category)
    requires
        c == Category::Adoption || (c == Category::AgentHygiene && !agent),
    ensures
        lacks_category(crate::rules::agent_hygiene::agent_try_findings(agent, strict, stack, t), c),
{
}

proof fn lemma_agent_conditional(agent: bool, strict: bool, span: Span, c: Category)
    requires
        c == Category::Adoption || (c == Category::AgentHygiene && !agent),
    ensures
        lacks_category(crate::rules::agent_hygiene::agent_conditional_findings(agent, strict, span), c),
{
}

proof fn lemma_agent_binary(agent: bool, strict: bool, operator: Seq<char>, left: Expr, right: Expr, span: Span, c: Category)
    requires
        c == Category::Adoption || (c == Category::AgentHygiene && !agent),
    ensures
        lacks_category(crate::rules::agent_hygiene::agent_binary_findings(agent, strict, operator, left, right, span), c),
{
}

proof fn lemma_agent_loop(agent: bool, strict: bool, span: Span, c: Category)
    requires
        c == Category::Adoption || (c == Category::AgentHygiene && !agent),
    ensures
        lacks_category(crate::rules::agent_hygiene::agent_loop_findings(agent, strict, span), c),
{
}

proof fn lemma_agent_var_decl(agent: bool, strict: bool, kind: Seq<char>, span: Span, c: Category)
    requires
        c == Category::Adoption || (c == Category::AgentHygiene && !agent),
    ensures
        lacks_category(crate::rules::agent_hygiene::agent_var_decl_findings(agent, strict, kind, span), c),
{
}

proof fn lemma_agent_assignment(agent: bool, strict: bool, to_identifier: bool, span: Span, c: Category)
    requires
        c == Category::Adoption || (c == Category::AgentHygiene && !agent),
    ensures
        lacks_category(crate::rules::agent_hygiene::agent_assignment_findings(agent, strict, to_identifier, span), c),
{
}

proof fn lemma_agent_import_expression(agent: bool, strict: bool, span: Span, c: Category)
    requires
        c == Category::Adoption || (c == Category::AgentHygiene && !agent),
    ensures
        lacks_category(crate::rules::agent_hygiene::agent_import_expression_findings(agent, strict, span), c),
{
}

proof fn lemma_agent_function(agent: bool, strict: bool, f: FunctionExpr, shape: Option<crate::ast::BodyShape>, c: Category)
    requires
        c == Category::Adoption || (c == Category::AgentHygiene && !agent),
    ensures
        lacks_category(crate::rules::agent_hygiene::agent_function_findings(agent, strict, f, shape), c),
{
}

proof fn lemma_agent_if(agent: bool, strict: bool, skip: Seq<u32>, span: Span, has_alternate: bool, else_if_starts: Seq<u32>, c: Category)
    requires
        c == Category::Adoption || (c == Category::AgentHygiene && !agent),
    ensures
        lacks_category(crate::rules::agent_hygiene::agent_if(agent, strict, skip, span, has_alternate, else_if_starts).0, c),
{
}

proof fn lemma_member(stack: Seq<FrameKind>, bindings: Map<Seq<char>, Seq<char>>, object: Expr, property: Seq<char>, span: Span, c: Category)
    requires
        c == Category::AgentHygiene || c == Category::Adoption,
    ensures
        lacks_category(member_findings(stack, bindings, object, property, span), c),
{
    broadcast use lemma_lacks_concat;

    lemma_no_effect_do(bindings, object, property, span, c);
    lemma_no_or_die(bindings, object, property, span, c);
    lemma_globals_member(stack, object, property, span, c);
}

#[verifier::spinoff_prover]
#[verifier::rlimit(100)]
proof fn lemma_step_call(w: WalkState, bindings: Map<Seq<char>, Seq<char>>, flags: (bool, bool, bool, bool), call: CallExpr, c: Category)
    requires
        off_category(flags, c),
        lacks_category(w.2, c),
    ensures
        lacks_category(walk_step(w, bindings, flags, Event::Call(call)).2, c),
{
    let f0 = call_findings(w.0, bindings, flags, call);
    lemma_call(w.0, bindings, flags, call, c);
    lemma_lacks_concat(w.2, f0, c);
    assert(walk_step(w, bindings, flags, Event::Call(call)).2 == w.2 + f0);
}

#[verifier::spinoff_prover]
#[verifier::rlimit(100)]
proof fn lemma_step_new(w: WalkState, bindings: Map<Seq<char>, Seq<char>>, flags: (bool, bool, bool, bool), new_expr: CallExpr, c: Category)
    requires
        off_category(flags, c),
        lacks_category(w.2, c),
    ensures
        lacks_category(walk_step(w, bindings, flags, Event::New(new_expr)).2, c),
{
    let f0 = crate::rules::prefer_clock_service::prefer_clock_new_findings(w.0, new_expr);
    lemma_prefer_clock_new(w.0, new_expr, c);
    let f1 = crate::rules::adopt::adopt_new_findings(flags.1, w.0, new_expr);
    lemma_adopt_new(flags.1, w.0, new_expr, c);
    lemma_lacks_concat(w.2, f0, c);
    lemma_lacks_concat(w.2 + f0, f1, c);
    assert(walk_step(w, bindings, flags, Event::New(new_expr)).2 == w.2 + f0 + f1);
}

#[verifier::spinoff_prover]
#[verifier::rlimit(100)]
proof fn lemma_step_member(w: WalkState, bindings: Map<Seq<char>, Seq<char>>, flags: (bool, bool, bool, bool), object: Expr, property: String, span: Span, c: Category)
    requires
        off_category(flags, c),
        lacks_category(w.2, c),
    ensures
        lacks_category(walk_step(w, bindings, flags, Event::Member { object, property, span }).2, c),
{
    let f0 = member_findings(w.0, bindings, object, property@, span);
    lemma_member(w.0, bindings, object, property@, span, c);
    lemma_lacks_concat(w.2, f0, c);
    assert(walk_step(w, bindings, flags, Event::Member { object, property, span }).2 == w.2 + f0);
}

#[verifier::spinoff_prover]
#[verifier::rlimit(100)]
proof fn lemma_step_yield(w: WalkState, bindings: Map<Seq<char>, Seq<char>>, flags: (bool, bool, bool, bool), delegate: bool, argument: Option<Expr>, span: Span, c: Category)
    requires
        off_category(flags, c),
        lacks_category(w.2, c),
    ensures
        lacks_category(walk_step(w, bindings, flags, Event::Yield { delegate, argument, span }).2, c),
{
    let f0 = crate::rules::require_yield_star::require_yield_star_findings(w.0, delegate, span);
    lemma_require_yield_star(w.0, delegate, span, c);
    let f1 = crate::rules::gen_shape::nested_gen_yield_findings(w.0, bindings, delegate, argument, span);
    lemma_nested_gen_yield(w.0, bindings, delegate, argument, span, c);
    let f2 = crate::rules::no_unnecessary_fail::no_unnecessary_fail_findings(w.0, bindings, delegate, argument, span);
    lemma_no_unnecessary_fail(w.0, bindings, delegate, argument, span, c);
    lemma_lacks_concat(w.2, f0, c);
    lemma_lacks_concat(w.2 + f0, f1, c);
    lemma_lacks_concat(w.2 + f0 + f1, f2, c);
    assert(walk_step(w, bindings, flags, Event::Yield { delegate, argument, span }).2 == w.2 + f0 + f1 + f2);
}

#[verifier::spinoff_prover]
#[verifier::rlimit(100)]
proof fn lemma_step_throw(w: WalkState, bindings: Map<Seq<char>, Seq<char>>, flags: (bool, bool, bool, bool), span: Span, c: Category)
    requires
        off_category(flags, c),
        lacks_category(w.2, c),
    ensures
        lacks_category(walk_step(w, bindings, flags, Event::Throw { span }).2, c),
{
    let f0 = crate::rules::no_throw_in_effect::no_throw_in_effect_findings(w.0, span);
    lemma_no_throw_in_effect(w.0, span, c);
    let f1 = crate::rules::agent_hygiene::agent_throw_findings(flags.2, flags.3, w.0, span);
    lemma_agent_throw(flags.2, flags.3, w.0, span, c);
    lemma_lacks_concat(w.2, f0, c);
    lemma_lacks_concat(w.2 + f0, f1, c);
    assert(walk_step(w, bindings, flags, Event::Throw { span }).2 == w.2 + f0 + f1);
}

#[verifier::spinoff_prover]
#[verifier::rlimit(100)]
proof fn lemma_step_try(w: WalkState, bindings: Map<Seq<char>, Seq<char>>, flags: (bool, bool, bool, bool), t: TryStmt, c: Category)
    requires
        off_category(flags, c),
        lacks_category(w.2, c),
    ensures
        lacks_category(walk_step(w, bindings, flags, Event::Try(t)).2, c),
{
    let f0 = crate::rules::no_try_catch_in_gen::no_try_catch_in_gen_findings(w.0, t);
    lemma_no_try_catch_in_gen(w.0, t, c);
    let f1 = crate::rules::agent_hygiene::agent_try_findings(flags.2, flags.3, w.0, t);
    lemma_agent_try(flags.2, flags.3, w.0, t, c);
    lemma_lacks_concat(w.2, f0, c);
    lemma_lacks_concat(w.2 + f0, f1, c);
    assert(walk_step(w, bindings, flags, Event::Try(t)).2 == w.2 + f0 + f1);
}

#[verifier::spinoff_prover]
#[verifier::rlimit(100)]
proof fn lemma_step_template(w: WalkState, bindings: Map<Seq<char>, Seq<char>>, flags: (bool, bool, bool, bool), template: TaggedTemplate, c: Category)
    requires
        off_category(flags, c),
        lacks_category(w.2, c),
    ensures
        lacks_category(walk_step(w, bindings, flags, Event::TaggedTemplate(template)).2, c),
{
    let f0 = crate::rules::no_manual_sql_transactions::no_manual_sql_transactions_findings(template);
    lemma_no_manual_sql_transactions(template, c);
    lemma_lacks_concat(w.2, f0, c);
    assert(walk_step(w, bindings, flags, Event::TaggedTemplate(template)).2 == w.2 + f0);
}

#[verifier::spinoff_prover]
#[verifier::rlimit(100)]
proof fn lemma_step_import(w: WalkState, bindings: Map<Seq<char>, Seq<char>>, flags: (bool, bool, bool, bool), decl: crate::effect_imports::ImportDecl, source_span: Span, span: Span, c: Category)
    requires
        off_category(flags, c),
        lacks_category(w.2, c),
    ensures
        lacks_category(walk_step(w, bindings, flags, Event::Import { decl, source_span, span }).2, c),
{
    let f0 = crate::rules::prefer_node_counterparts::prefer_node_counterparts_findings(decl.source@, span);
    lemma_prefer_node_counterparts(decl.source@, span, c);
    let f1 = crate::rules::agent_hygiene::agent_import_findings(flags.2, flags.3, decl, source_span);
    lemma_agent_import(flags.2, flags.3, decl, source_span, c);
    lemma_lacks_concat(w.2, f0, c);
    lemma_lacks_concat(w.2 + f0, f1, c);
    assert(walk_step(w, bindings, flags, Event::Import { decl, source_span, span }).2 == w.2 + f0 + f1);
}

#[verifier::spinoff_prover]
#[verifier::rlimit(100)]
proof fn lemma_step_export_default(w: WalkState, bindings: Map<Seq<char>, Seq<char>>, flags: (bool, bool, bool, bool), span: Span, c: Category)
    requires
        off_category(flags, c),
        lacks_category(w.2, c),
    ensures
        lacks_category(walk_step(w, bindings, flags, Event::ExportDefault { span }).2, c),
{
    let f0 = crate::rules::module_conventions::no_default_export_findings(flags.2, flags.3, span);
    lemma_no_default_export(flags.2, flags.3, span, c);
    lemma_lacks_concat(w.2, f0, c);
    assert(walk_step(w, bindings, flags, Event::ExportDefault { span }).2 == w.2 + f0);
}

#[verifier::spinoff_prover]
#[verifier::rlimit(100)]
proof fn lemma_step_class(w: WalkState, bindings: Map<Seq<char>, Seq<char>>, flags: (bool, bool, bool, bool), class: ClassDecl, c: Category)
    requires
        off_category(flags, c),
        lacks_category(w.2, c),
    ensures
        lacks_category(walk_step(w, bindings, flags, Event::Class(class)).2, c),
{
    let f0 = crate::rules::schema_class_hygiene::schema_class_hygiene_findings(class, bindings);
    lemma_schema_class_hygiene(class, bindings, c);
    let f1 = crate::rules::gen_shape::redundant_tag_findings(class, bindings);
    lemma_redundant_tag(class, bindings, c);
    let f2 = crate::rules::prefer_tagged_error_classes::prefer_tagged_error_classes_findings(class);
    lemma_prefer_tagged_error_classes(class, c);
    let f3 = crate::rules::oop_to_effect::oop_class_findings(flags.2, flags.3, class);
    lemma_oop_class(flags.2, flags.3, class, c);
    lemma_lacks_concat(w.2, f0, c);
    lemma_lacks_concat(w.2 + f0, f1, c);
    lemma_lacks_concat(w.2 + f0 + f1, f2, c);
    lemma_lacks_concat(w.2 + f0 + f1 + f2, f3, c);
    assert(walk_step(w, bindings, flags, Event::Class(class)).2 == w.2 + f0 + f1 + f2 + f3);
}

#[verifier::spinoff_prover]
#[verifier::rlimit(100)]
proof fn lemma_step_binary(w: WalkState, bindings: Map<Seq<char>, Seq<char>>, flags: (bool, bool, bool, bool), operator: String, left: Expr, right: Expr, span: Span, c: Category)
    requires
        off_category(flags, c),
        lacks_category(w.2, c),
    ensures
        lacks_category(walk_step(w, bindings, flags, Event::Binary { operator, left, right, span }).2, c),
{
    let f0 = crate::rules::equality_idioms::equality_binary_findings(operator@, left, right, span);
    lemma_equality_binary(operator@, left, right, span, c);
    let f1 = crate::rules::agent_hygiene::agent_binary_findings(flags.2, flags.3, operator@, left, right, span);
    lemma_agent_binary(flags.2, flags.3, operator@, left, right, span, c);
    lemma_lacks_concat(w.2, f0, c);
    lemma_lacks_concat(w.2 + f0, f1, c);
    assert(walk_step(w, bindings, flags, Event::Binary { operator, left, right, span }).2 == w.2 + f0 + f1);
}

#[verifier::spinoff_prover]
#[verifier::rlimit(100)]
proof fn lemma_step_switch(w: WalkState, bindings: Map<Seq<char>, Seq<char>>, flags: (bool, bool, bool, bool), discriminant: Expr, span: Span, c: Category)
    requires
        off_category(flags, c),
        lacks_category(w.2, c),
    ensures
        lacks_category(walk_step(w, bindings, flags, Event::Switch { discriminant, span }).2, c),
{
    let f0 = crate::rules::equality_idioms::tag_switch_findings(discriminant, span);
    lemma_tag_switch(discriminant, span, c);
    lemma_lacks_concat(w.2, f0, c);
    assert(walk_step(w, bindings, flags, Event::Switch { discriminant, span }).2 == w.2 + f0);
}

#[verifier::spinoff_prover]
#[verifier::rlimit(100)]
proof fn lemma_step_return(w: WalkState, bindings: Map<Seq<char>, Seq<char>>, flags: (bool, bool, bool, bool), argument: Option<Expr>, span: Span, c: Category)
    requires
        off_category(flags, c),
        lacks_category(w.2, c),
    ensures
        lacks_category(walk_step(w, bindings, flags, Event::Return { argument, span }).2, c),
{
    let f0 = crate::rules::gen_shape::return_effect_findings(w.0, bindings, argument, span);
    lemma_return_effect(w.0, bindings, argument, span, c);
    lemma_lacks_concat(w.2, f0, c);
    assert(walk_step(w, bindings, flags, Event::Return { argument, span }).2 == w.2 + f0);
}

#[verifier::spinoff_prover]
#[verifier::rlimit(100)]
proof fn lemma_step_function(w: WalkState, bindings: Map<Seq<char>, Seq<char>>, flags: (bool, bool, bool, bool), function: FunctionExpr, name: Option<String>, flow: Option<Vec<Flow>>, shape: Option<crate::ast::BodyShape>, c: Category)
    requires
        off_category(flags, c),
        lacks_category(w.2, c),
    ensures
        lacks_category(walk_step(w, bindings, flags, Event::Function { function, name, flow, shape }).2, c),
{
    let name_view = match name {
        Some(n) => Some(n@),
        None => None::<Seq<char>>,
    };
    let flow_view = match flow {
        Some(body) => Some(body@),
        None => None::<Seq<Flow>>,
    };
    let f0 = crate::rules::prefer_effect_fn::prefer_effect_fn_findings(bindings, function);
    lemma_prefer_effect_fn(bindings, function, c);
    let f1 = crate::rules::adopt::async_function_findings(flags.1, function, name_view);
    lemma_async_function(flags.1, function, name_view, c);
    let f2 = crate::rules::agent_hygiene::agent_function_findings(flags.2, flags.3, function, shape);
    lemma_agent_function(flags.2, flags.3, function, shape, c);
    let f3 = crate::rules::function_metrics::function_metrics_findings(flags.3, function, flow_view);
    lemma_function_metrics(flags.3, function, flow_view, c);
    lemma_lacks_concat(w.2, f0, c);
    lemma_lacks_concat(w.2 + f0, f1, c);
    lemma_lacks_concat(w.2 + f0 + f1, f2, c);
    lemma_lacks_concat(w.2 + f0 + f1 + f2, f3, c);
    assert(walk_step(w, bindings, flags, Event::Function { function, name, flow, shape }).2 == w.2 + f0 + f1 + f2 + f3);
}

#[verifier::spinoff_prover]
#[verifier::rlimit(100)]
proof fn lemma_step_loop(w: WalkState, bindings: Map<Seq<char>, Seq<char>>, flags: (bool, bool, bool, bool), span: Span, has_yield: bool, has_await: bool, c: Category)
    requires
        off_category(flags, c),
        lacks_category(w.2, c),
    ensures
        lacks_category(walk_step(w, bindings, flags, Event::Loop { span, has_yield, has_await }).2, c),
{
    let f0 = crate::rules::adopt::loop_findings(flags.1, w.0, span, has_yield, has_await);
    lemma_loop(flags.1, w.0, span, has_yield, has_await, c);
    let f1 = crate::rules::agent_hygiene::agent_loop_findings(flags.2, flags.3, span);
    lemma_agent_loop(flags.2, flags.3, span, c);
    lemma_lacks_concat(w.2, f0, c);
    lemma_lacks_concat(w.2 + f0, f1, c);
    assert(walk_step(w, bindings, flags, Event::Loop { span, has_yield, has_await }).2 == w.2 + f0 + f1);
}

#[verifier::spinoff_prover]
#[verifier::rlimit(100)]
proof fn lemma_step_namespace(w: WalkState, bindings: Map<Seq<char>, Seq<char>>, flags: (bool, bool, bool, bool), span: Span, c: Category)
    requires
        off_category(flags, c),
        lacks_category(w.2, c),
    ensures
        lacks_category(walk_step(w, bindings, flags, Event::TsNamespace { span }).2, c),
{
    let f0 = crate::rules::agent_hygiene::agent_namespace_findings(flags.2, flags.3, span);
    lemma_agent_namespace(flags.2, flags.3, span, c);
    lemma_lacks_concat(w.2, f0, c);
    assert(walk_step(w, bindings, flags, Event::TsNamespace { span }).2 == w.2 + f0);
}

#[verifier::spinoff_prover]
#[verifier::rlimit(100)]
proof fn lemma_step_unary(w: WalkState, bindings: Map<Seq<char>, Seq<char>>, flags: (bool, bool, bool, bool), operator: String, span: Span, c: Category)
    requires
        off_category(flags, c),
        lacks_category(w.2, c),
    ensures
        lacks_category(walk_step(w, bindings, flags, Event::Unary { operator, span }).2, c),
{
    let f0 = crate::rules::agent_hygiene::agent_unary_findings(flags.2, flags.3, operator@, span);
    lemma_agent_unary(flags.2, flags.3, operator@, span, c);
    lemma_lacks_concat(w.2, f0, c);
    assert(walk_step(w, bindings, flags, Event::Unary { operator, span }).2 == w.2 + f0);
}

#[verifier::spinoff_prover]
#[verifier::rlimit(100)]
proof fn lemma_step_import_type(w: WalkState, bindings: Map<Seq<char>, Seq<char>>, flags: (bool, bool, bool, bool), span: Span, c: Category)
    requires
        off_category(flags, c),
        lacks_category(w.2, c),
    ensures
        lacks_category(walk_step(w, bindings, flags, Event::TsImportType { span }).2, c),
{
    let f0 = crate::rules::agent_hygiene::agent_import_type_findings(flags.2, flags.3, span);
    lemma_agent_import_type(flags.2, flags.3, span, c);
    lemma_lacks_concat(w.2, f0, c);
    assert(walk_step(w, bindings, flags, Event::TsImportType { span }).2 == w.2 + f0);
}

#[verifier::spinoff_prover]
#[verifier::rlimit(100)]
proof fn lemma_step_non_null(w: WalkState, bindings: Map<Seq<char>, Seq<char>>, flags: (bool, bool, bool, bool), span: Span, c: Category)
    requires
        off_category(flags, c),
        lacks_category(w.2, c),
    ensures
        lacks_category(walk_step(w, bindings, flags, Event::TsNonNull { span }).2, c),
{
    let f0 = crate::rules::agent_hygiene::agent_non_null_findings(flags.2, flags.3, span);
    lemma_agent_non_null(flags.2, flags.3, span, c);
    lemma_lacks_concat(w.2, f0, c);
    assert(walk_step(w, bindings, flags, Event::TsNonNull { span }).2 == w.2 + f0);
}

#[verifier::spinoff_prover]
#[verifier::rlimit(100)]
proof fn lemma_step_enum(w: WalkState, bindings: Map<Seq<char>, Seq<char>>, flags: (bool, bool, bool, bool), span: Span, c: Category)
    requires
        off_category(flags, c),
        lacks_category(w.2, c),
    ensures
        lacks_category(walk_step(w, bindings, flags, Event::TsEnum { span }).2, c),
{
    let f0 = crate::rules::agent_hygiene::agent_enum_findings(flags.2, flags.3, span);
    lemma_agent_enum(flags.2, flags.3, span, c);
    lemma_lacks_concat(w.2, f0, c);
    assert(walk_step(w, bindings, flags, Event::TsEnum { span }).2 == w.2 + f0);
}

#[verifier::spinoff_prover]
#[verifier::rlimit(100)]
proof fn lemma_step_as(w: WalkState, bindings: Map<Seq<char>, Seq<char>>, flags: (bool, bool, bool, bool), annotation: Option<String>, span: Span, c: Category)
    requires
        off_category(flags, c),
        lacks_category(w.2, c),
    ensures
        lacks_category(walk_step(w, bindings, flags, Event::TsAs { annotation, span }).2, c),
{
    let annotation_view = match annotation {
        Some(a) => Some(a@),
        None => None::<Seq<char>>,
    };
    let f0 = crate::rules::agent_hygiene::agent_as_findings(flags.2, flags.3, annotation_view, span);
    lemma_agent_as(flags.2, flags.3, annotation_view, span, c);
    lemma_lacks_concat(w.2, f0, c);
    assert(walk_step(w, bindings, flags, Event::TsAs { annotation, span }).2 == w.2 + f0);
}

#[verifier::spinoff_prover]
#[verifier::rlimit(100)]
proof fn lemma_step_any(w: WalkState, bindings: Map<Seq<char>, Seq<char>>, flags: (bool, bool, bool, bool), span: Span, c: Category)
    requires
        off_category(flags, c),
        lacks_category(w.2, c),
    ensures
        lacks_category(walk_step(w, bindings, flags, Event::TsAny { span }).2, c),
{
    let f0 = crate::rules::agent_hygiene::agent_any_findings(flags.2, flags.3, span);
    lemma_agent_any(flags.2, flags.3, span, c);
    lemma_lacks_concat(w.2, f0, c);
    assert(walk_step(w, bindings, flags, Event::TsAny { span }).2 == w.2 + f0);
}

#[verifier::spinoff_prover]
#[verifier::rlimit(100)]
proof fn lemma_step_if(w: WalkState, bindings: Map<Seq<char>, Seq<char>>, flags: (bool, bool, bool, bool), span: Span, alternate: Option<Box<Alternate>>, c: Category)
    requires
        off_category(flags, c),
        lacks_category(w.2, c),
    ensures
        lacks_category(walk_step(w, bindings, flags, Event::If { span, alternate }).2, c),
{
    let starts = else_if_chain(alternate);
    let f0 = crate::rules::agent_hygiene::agent_if(flags.2, flags.3, w.3.if_chain_skip, span, alternate is Some, starts).0;
    lemma_agent_if(flags.2, flags.3, w.3.if_chain_skip, span, alternate is Some, starts, c);
    lemma_lacks_concat(w.2, f0, c);
    assert(walk_step(w, bindings, flags, Event::If { span, alternate }).2 == w.2 + f0);
}

#[verifier::spinoff_prover]
#[verifier::rlimit(100)]
proof fn lemma_step_conditional(w: WalkState, bindings: Map<Seq<char>, Seq<char>>, flags: (bool, bool, bool, bool), span: Span, c: Category)
    requires
        off_category(flags, c),
        lacks_category(w.2, c),
    ensures
        lacks_category(walk_step(w, bindings, flags, Event::Conditional { span }).2, c),
{
    let f0 = crate::rules::agent_hygiene::agent_conditional_findings(flags.2, flags.3, span);
    lemma_agent_conditional(flags.2, flags.3, span, c);
    lemma_lacks_concat(w.2, f0, c);
    assert(walk_step(w, bindings, flags, Event::Conditional { span }).2 == w.2 + f0);
}

#[verifier::spinoff_prover]
#[verifier::rlimit(100)]
proof fn lemma_step_var_decl(w: WalkState, bindings: Map<Seq<char>, Seq<char>>, flags: (bool, bool, bool, bool), kind: String, span: Span, c: Category)
    requires
        off_category(flags, c),
        lacks_category(w.2, c),
    ensures
        lacks_category(walk_step(w, bindings, flags, Event::VarDecl { kind, span }).2, c),
{
    let f0 = crate::rules::agent_hygiene::agent_var_decl_findings(flags.2, flags.3, kind@, span);
    lemma_agent_var_decl(flags.2, flags.3, kind@, span, c);
    lemma_lacks_concat(w.2, f0, c);
    assert(walk_step(w, bindings, flags, Event::VarDecl { kind, span }).2 == w.2 + f0);
}

#[verifier::spinoff_prover]
#[verifier::rlimit(100)]
proof fn lemma_step_assignment(w: WalkState, bindings: Map<Seq<char>, Seq<char>>, flags: (bool, bool, bool, bool), to_identifier: bool, span: Span, c: Category)
    requires
        off_category(flags, c),
        lacks_category(w.2, c),
    ensures
        lacks_category(walk_step(w, bindings, flags, Event::Assignment { to_identifier, span }).2, c),
{
    let f0 = crate::rules::agent_hygiene::agent_assignment_findings(flags.2, flags.3, to_identifier, span);
    lemma_agent_assignment(flags.2, flags.3, to_identifier, span, c);
    lemma_lacks_concat(w.2, f0, c);
    assert(walk_step(w, bindings, flags, Event::Assignment { to_identifier, span }).2 == w.2 + f0);
}

#[verifier::spinoff_prover]
#[verifier::rlimit(100)]
proof fn lemma_step_import_expression(w: WalkState, bindings: Map<Seq<char>, Seq<char>>, flags: (bool, bool, bool, bool), span: Span, c: Category)
    requires
        off_category(flags, c),
        lacks_category(w.2, c),
    ensures
        lacks_category(walk_step(w, bindings, flags, Event::ImportExpression { span }).2, c),
{
    let f0 = crate::rules::agent_hygiene::agent_import_expression_findings(flags.2, flags.3, span);
    lemma_agent_import_expression(flags.2, flags.3, span, c);
    lemma_lacks_concat(w.2, f0, c);
    assert(walk_step(w, bindings, flags, Event::ImportExpression { span }).2 == w.2 + f0);
}

proof fn lemma_step(w: WalkState, bindings: Map<Seq<char>, Seq<char>>, flags: (bool, bool, bool, bool), event: Event, c: Category)
    requires
        off_category(flags, c),
        lacks_category(w.2, c),
    ensures
        lacks_category(walk_step(w, bindings, flags, event).2, c),
{
    match event {
        Event::Call(call) => lemma_step_call(w, bindings, flags, call, c),
        Event::New(new_expr) => lemma_step_new(w, bindings, flags, new_expr, c),
        Event::Member { object, property, span } => lemma_step_member(w, bindings, flags, object, property, span, c),
        Event::Yield { delegate, argument, span } => lemma_step_yield(w, bindings, flags, delegate, argument, span, c),
        Event::Throw { span } => lemma_step_throw(w, bindings, flags, span, c),
        Event::Try(t) => lemma_step_try(w, bindings, flags, t, c),
        Event::TaggedTemplate(template) => lemma_step_template(w, bindings, flags, template, c),
        Event::Import { decl, source_span, span } => lemma_step_import(w, bindings, flags, decl, source_span, span, c),
        Event::ExportDefault { span } => lemma_step_export_default(w, bindings, flags, span, c),
        Event::Class(class) => lemma_step_class(w, bindings, flags, class, c),
        Event::Binary { operator, left, right, span } => lemma_step_binary(w, bindings, flags, operator, left, right, span, c),
        Event::Switch { discriminant, span } => lemma_step_switch(w, bindings, flags, discriminant, span, c),
        Event::Return { argument, span } => lemma_step_return(w, bindings, flags, argument, span, c),
        Event::Function { function, name, flow, shape } => lemma_step_function(w, bindings, flags, function, name, flow, shape, c),
        Event::Loop { span, has_yield, has_await } => lemma_step_loop(w, bindings, flags, span, has_yield, has_await, c),
        Event::TsNamespace { span } => lemma_step_namespace(w, bindings, flags, span, c),
        Event::Unary { operator, span } => lemma_step_unary(w, bindings, flags, operator, span, c),
        Event::TsImportType { span } => lemma_step_import_type(w, bindings, flags, span, c),
        Event::TsNonNull { span } => lemma_step_non_null(w, bindings, flags, span, c),
        Event::TsEnum { span } => lemma_step_enum(w, bindings, flags, span, c),
        Event::TsAs { annotation, span } => lemma_step_as(w, bindings, flags, annotation, span, c),
        Event::TsAny { span } => lemma_step_any(w, bindings, flags, span, c),
        Event::If { span, alternate } => lemma_step_if(w, bindings, flags, span, alternate, c),
        Event::Conditional { span } => lemma_step_conditional(w, bindings, flags, span, c),
        Event::VarDecl { kind, span } => lemma_step_var_decl(w, bindings, flags, kind, span, c),
        Event::Assignment { to_identifier, span } => lemma_step_assignment(w, bindings, flags, to_identifier, span, c),
        Event::ImportExpression { span } => lemma_step_import_expression(w, bindings, flags, span, c),
        _ => {
            assert(walk_step(w, bindings, flags, event).2 == w.2);
        },
    }
}

proof fn lemma_agent_specifiers(strict: bool, specifiers: Seq<crate::effect_imports::ImportSpecifier>, c: Category)
    requires
        c == Category::Adoption,
    ensures
        lacks_category(crate::rules::agent_hygiene::agent_specifiers_findings(strict, specifiers), c),
    decreases specifiers.len(),
{
    if specifiers.len() > 0 {
        lemma_agent_specifiers(strict, specifiers.drop_last(), c);
        let last = crate::rules::agent_hygiene::agent_specifier_findings(strict, specifiers.last());
        assert(lacks_category(last, c));
        lemma_lacks_concat(crate::rules::agent_hygiene::agent_specifiers_findings(strict, specifiers.drop_last()), last, c);
    }
}

proof fn lemma_walk(events: Seq<Event>, bindings: Map<Seq<char>, Seq<char>>, flags: (bool, bool, bool, bool), c: Category)
    requires
        off_category(flags, c),
    ensures
        lacks_category(walk(events, bindings, flags).2, c),
    decreases events.len(),
{
    if events.len() > 0 {
        lemma_walk(events.drop_last(), bindings, flags, c);
        lemma_step(walk(events.drop_last(), bindings, flags), bindings, flags, events.last(), c);
    }
}

proof fn lemma_file(events: Seq<Event>, bindings: Map<Seq<char>, Seq<char>>, flags: (bool, bool, bool, bool), c: Category)
    requires
        off_category(flags, c),
    ensures
        lacks_category(file_findings(events, bindings, flags), c),
{
    let w = walk(events, bindings, flags);
    lemma_walk(events, bindings, flags, c);
    let a = crate::rules::schedule_hygiene::schedule_end_findings(w.3.exponential_spans, w.3.jitter, w.3.cap);
    lemma_schedule_end(w.3.exponential_spans, w.3.jitter, w.3.cap, c);
    let b = crate::rules::agent_hygiene::agent_end_findings(flags.2, w.3.fingerprints);
    lemma_agent_end(flags.2, w.3.fingerprints, c);
    let d = if flags.2 {
        crate::rules::oop_to_effect::strategy_end_findings(flags.3, w.3.single_method_interfaces, w.3.implemented_interfaces)
    } else {
        crate::rules::none()
    };
    lemma_strategy_end(flags.3, w.3.single_method_interfaces, w.3.implemented_interfaces, c);
    lemma_lacks_concat(w.2, a, c);
    lemma_lacks_concat(w.2 + a, b, c);
    lemma_lacks_concat(w.2 + a + b, d, c);
    assert(file_findings(events, bindings, flags) == w.2 + a + b + d);
}

/// The experimental families are opt-in: linting without agent mode (plain
/// or strict) reports nothing of the agent-hygiene category, and linting
/// without adoption mode nothing of the adoption category.
pub proof fn lemma_experimental_opt_in(
    display_path: Seq<char>,
    source: &str,
    parsed: ParsedFile,
    options: LintOptions,
    out: Seq<Diagnostic>,
)
    requires
        linted(display_path, source, parsed, options, out),
    ensures
        !(options.agent || options.agent_strict) ==> forall|k: int| 0 <= k < out.len() ==> (#[trigger] out[k]).category != Category::AgentHygiene,
        !options.adopt ==> forall|k: int| 0 <= k < out.len() ==> (#[trigger] out[k]).category != Category::Adoption,
{
    if !parsed.panicked && any_effect_import(parsed.imports@) {
        let bindings = bindings_map(program_bindings(parsed.imports@));
        let flags = options_flags(options);
        let findings = file_findings(parsed.events@, bindings, flags);
        if !(options.agent || options.agent_strict) {
            lemma_file(parsed.events@, bindings, flags, Category::AgentHygiene);
            assert forall|k: int| 0 <= k < out.len() implies (#[trigger] out[k]).category != Category::AgentHygiene by {
                assert(finalized_finding(source, display_path, classify_spec(display_path), findings[k], out[k]));
            }
        }
        if !options.adopt {
            lemma_file(parsed.events@, bindings, flags, Category::Adoption);
            assert forall|k: int| 0 <= k < out.len() implies (#[trigger] out[k]).category != Category::Adoption by {
                assert(finalized_finding(source, display_path, classify_spec(display_path), findings[k], out[k]));
            }
        }
    }
}

} // verus!
