//! The rule runner: one pass over a file's walk, keeping the function-frame
//! stack and dispatching every node to the rules that react to it.
use vstd::prelude::*;

use crate::ast::{else_if_chain, CallExpr, Event, Expr};
use crate::rules::agent_hygiene::{
    agent_any_findings, agent_as_findings, agent_assignment_findings, agent_binary_findings, agent_call_findings,
    agent_conditional_findings, agent_end_findings, agent_enum_findings, agent_function_findings,
    agent_function_scratch, agent_if, agent_import_expression_findings, agent_import_findings, agent_import_type_findings,
    agent_loop_findings, agent_namespace_findings, agent_non_null_findings, agent_throw_findings, agent_try_findings,
    agent_unary_findings, agent_var_decl_findings, AgentHygiene,
};
use crate::rules::adopt::{adopt_call_findings, adopt_new_findings, async_function_findings, loop_findings, Adopt};
use crate::rules::catch_idioms::{catch_idioms_findings, CatchIdioms};
use crate::rules::prefer_effect_fn::{prefer_effect_fn_findings, PreferEffectFn};
use crate::rules::composition_limits::{composition_limits_findings, CompositionLimits};
use crate::rules::concurrency_idioms::{concurrency_idioms_findings, ConcurrencyIdioms};
use crate::rules::equality_idioms::{equality_binary_findings, equality_call_findings, tag_switch_findings, EqualityIdioms};
use crate::rules::interruption::{interruption_findings, Interruption};
use crate::rules::function_metrics::{function_metrics_findings, FunctionMetrics};
use crate::rules::error_modeling::{error_modeling_findings, ErrorModeling};
use crate::rules::gen_shape::{gen_shape_call_findings, nested_gen_yield_findings, redundant_tag_findings, return_effect_findings, GenShape};
use crate::rules::idiom_shortcuts::{idiom_shortcuts_findings, IdiomShortcuts};
use crate::rules::promise_interop::{promise_interop_findings, PromiseInterop};
use crate::rules::globals_in_effect::{globals_call_findings, globals_member_findings, GlobalsInEffect};
use crate::rules::literal_idioms::{literal_idioms_findings, LiteralIdioms};
use crate::rules::logging_security::{logging_security_findings, LoggingSecurity};
use crate::rules::run_sync_async::{no_run_sync_on_async_findings, NoRunSyncOnAsync};
use crate::rules::prefer_it_effect::{prefer_it_effect_findings, PreferItEffect};
use crate::rules::prefer_tagged_error_classes::{prefer_tagged_error_classes_findings, PreferTaggedErrorClasses};
use crate::rules::schedule_hygiene::{schedule_end_findings, schedule_member_scratch, ScheduleHygiene};
use crate::rules::schema_class_hygiene::{schema_class_hygiene_findings, SchemaClassHygiene};
use crate::rules::schema_usage::{schema_usage_findings, SchemaUsage};
use crate::diagnostics::Span;
use crate::effect_imports::EffectImports;
use crate::matchers::{effect_gen_generators, effect_gen_generators_spec, effect_member_prop, effect_member_prop_spec};
use crate::rules::map_misuse::{no_map_returning_effect_findings, NoMapReturningEffect};
use crate::rules::meaningful_span_names::{meaningful_span_names_findings, MeaningfulSpanNames};
use crate::rules::module_conventions::{no_default_export_findings, NoDefaultExport};
use crate::rules::no_chained_provides::{no_chained_provides_findings, NoChainedProvides};
use crate::rules::no_effect_do::{no_effect_do_findings, NoEffectDo};
use crate::rules::no_manual_sql_transactions::{no_manual_sql_transactions_findings, NoManualSqlTransactions};
use crate::rules::no_or_die::{no_or_die_findings, NoOrDie};
use crate::rules::no_run_inside_effect::{no_run_inside_effect_findings, NoRunInsideEffect};
use crate::rules::no_throw_in_effect::{no_throw_in_effect_findings, NoThrowInEffect};
use crate::rules::no_try_catch_in_gen::{no_try_catch_in_gen_findings, NoTryCatchInGen};
use crate::rules::no_unbounded_concurrency::{no_unbounded_concurrency_findings, NoUnboundedConcurrency};
use crate::rules::no_unnecessary_fail::{no_unnecessary_fail_findings, NoUnnecessaryFail};
use crate::rules::oop_to_effect::{
    oop_class_findings, strategy_class_scratch, strategy_end_findings, strategy_interface_scratch, ChainOfResponsibility, Observer,
    Singleton, Strategy, Visitor,
};
use crate::rules::no_unnecessary_gen::{no_unnecessary_gen_findings, NoUnnecessaryGen};
use crate::rules::prefer_clock_service::{prefer_clock_call_findings, prefer_clock_new_findings, PreferClockService};
use crate::rules::prefer_effect_logging::{prefer_effect_logging_findings, PreferEffectLogging};
use crate::rules::prefer_node_counterparts::{prefer_node_counterparts_findings, PreferNodeCounterparts};
use crate::rules::prefer_random_service::{prefer_random_service_findings, PreferRandomService};
use crate::rules::require_yield_star::{require_yield_star_findings, RequireYieldStar};
use crate::rules::retry_only_retryable::{retry_only_retryable_findings, RetryOnlyRetryable};
use crate::rules::{empty_scratch, none, scratch_view, FileCtx, Finding, FrameKind, ScratchView};

verus! {

/// The frame a function argument of `call` opens: a generator that the call
/// runs as an Effect generator opens `EffectGen`; any other function passed
/// to an `Effect.*` call opens `EffectCallback`.
pub open spec fn argument_frame(call: CallExpr, bindings: Map<Seq<char>, Seq<char>>, arg: Expr) -> Option<FrameKind> {
    match arg {
        Expr::Function(f) => if f.generator && !f.is_arrow && effect_gen_generators_spec(call, bindings).len() > 0 {
            Some(FrameKind::EffectGen)
        } else if effect_member_prop_spec(call, bindings) is Some {
            Some(FrameKind::EffectCallback)
        } else {
            None
        },
        _ => None,
    }
}

/// The frames the function arguments of `call` open, keyed by their spans.
pub open spec fn call_frames(call: CallExpr, bindings: Map<Seq<char>, Seq<char>>, args: Seq<Expr>) -> Seq<(Span, FrameKind)>
    decreases args.len(),
{
    if args.len() == 0 {
        Seq::empty()
    } else {
        let prior = call_frames(call, bindings, args.drop_last());
        match argument_frame(call, bindings, args.last()) {
            Some(kind) => prior.push((crate::ast::expr_span(args.last()), kind)),
            None => prior,
        }
    }
}

/// The frame a function starting at `span` opens: the latest one recorded for
/// its span, else `Other`.
pub open spec fn frame_for(pending: Seq<(Span, FrameKind)>, span: Span) -> FrameKind
    decreases pending.len(),
{
    if pending.len() == 0 {
        FrameKind::Other
    } else if pending.last().0 == span {
        pending.last().1
    } else {
        frame_for(pending.drop_last(), span)
    }
}

/// What the first correctness rules report for one call, in catalog order.
pub open spec fn early_correctness_findings(stack: Seq<FrameKind>, bindings: Map<Seq<char>, Seq<char>>, call: CallExpr) -> Seq<Finding> {
    no_run_inside_effect_findings(stack, bindings, call) + promise_interop_findings(bindings, call)
        + no_run_sync_on_async_findings(bindings, call) + no_map_returning_effect_findings(bindings, call)
        + equality_call_findings(call) + error_modeling_findings(bindings, call)
}

/// What the remaining correctness rules report for one call, in catalog order.
pub open spec fn late_correctness_findings(bindings: Map<Seq<char>, Seq<char>>, call: CallExpr) -> Seq<Finding> {
    concurrency_idioms_findings(bindings, call) + literal_idioms_findings(bindings, call)
        + logging_security_findings(bindings, call) + interruption_findings(bindings, call)
        + composition_limits_findings(bindings, call) + gen_shape_call_findings(bindings, call)
}

/// What the correctness rules report for one call, in catalog order.
pub open spec fn correctness_call_findings(stack: Seq<FrameKind>, bindings: Map<Seq<char>, Seq<char>>, call: CallExpr) -> Seq<Finding> {
    early_correctness_findings(stack, bindings, call) + late_correctness_findings(bindings, call)
}

/// What the first idiom rules report for one call, in catalog order.
pub open spec fn idiom_call_findings(stack: Seq<FrameKind>, bindings: Map<Seq<char>, Seq<char>>, call: CallExpr) -> Seq<Finding> {
    no_unnecessary_gen_findings(bindings, call) + idiom_shortcuts_findings(bindings, call) + catch_idioms_findings(bindings, call)
        + prefer_clock_call_findings(stack, call) + prefer_random_service_findings(stack, call)
        + prefer_effect_logging_findings(stack, call) + globals_call_findings(stack, call)
}

/// What the remaining idiom, architecture and performance rules report for
/// one call, in catalog order.
pub open spec fn late_call_findings(stack: Seq<FrameKind>, bindings: Map<Seq<char>, Seq<char>>, flags: (bool, bool, bool, bool), call: CallExpr) -> Seq<Finding> {
    schema_usage_findings(stack, bindings, call) + meaningful_span_names_findings(bindings, call)
        + prefer_it_effect_findings(bindings, call) + no_chained_provides_findings(bindings, call)
        + retry_only_retryable_findings(bindings, call) + no_unbounded_concurrency_findings(call.arguments@)
        + adopt_call_findings(flags.1, stack, call) + agent_call_findings(flags.2, flags.3, call)
}

/// What the idiom, architecture and performance rules report for one call,
/// in catalog order.
pub open spec fn other_call_findings(stack: Seq<FrameKind>, bindings: Map<Seq<char>, Seq<char>>, flags: (bool, bool, bool, bool), call: CallExpr) -> Seq<Finding> {
    idiom_call_findings(stack, bindings, call) + late_call_findings(stack, bindings, flags, call)
}

/// What the call rules report for one call, in catalog order.
pub open spec fn call_findings(stack: Seq<FrameKind>, bindings: Map<Seq<char>, Seq<char>>, flags: (bool, bool, bool, bool), call: CallExpr) -> Seq<Finding> {
    correctness_call_findings(stack, bindings, call) + other_call_findings(stack, bindings, flags, call)
}

/// What the member rules report for one static member expression.
pub open spec fn member_findings(stack: Seq<FrameKind>, bindings: Map<Seq<char>, Seq<char>>, object: Expr, property: Seq<char>, span: Span) -> Seq<Finding> {
    no_effect_do_findings(bindings, object, property, span) + no_or_die_findings(bindings, object, property, span)
        + globals_member_findings(stack, object, property, span)
}

/// The state of the walk: the frame stack, the frames announced for function
/// arguments, the findings so far, and the file-level facts.
pub type WalkState = (Seq<FrameKind>, Seq<(Span, FrameKind)>, Seq<Finding>, ScratchView);

/// One step of the walk. `flags` are the context's profile flags.
pub open spec fn walk_step(w: WalkState, bindings: Map<Seq<char>, Seq<char>>, flags: (bool, bool, bool, bool), event: Event) -> WalkState {
    let (stack, pending, findings, scratch) = w;
    match event {
        Event::Call(call) => (
            stack,
            pending + call_frames(call, bindings, call.arguments@),
            findings + call_findings(stack, bindings, flags, call),
            scratch,
        ),
        Event::New(new_expr) => (
            stack,
            pending,
            findings + prefer_clock_new_findings(stack, new_expr) + adopt_new_findings(flags.1, stack, new_expr),
            scratch,
        ),
        Event::Member { object, property, span } => (
            stack,
            pending,
            findings + member_findings(stack, bindings, object, property@, span),
            schedule_member_scratch(scratch, bindings, object, property@, span),
        ),
        Event::Yield { delegate, argument, span } => (
            stack,
            pending,
            findings + require_yield_star_findings(stack, delegate, span) + nested_gen_yield_findings(stack, bindings, delegate, argument, span)
                + no_unnecessary_fail_findings(stack, bindings, delegate, argument, span),
            scratch,
        ),
        Event::Throw { span } => (
            stack,
            pending,
            findings + no_throw_in_effect_findings(stack, span) + agent_throw_findings(flags.2, flags.3, stack, span),
            scratch,
        ),
        Event::Try(t) => (
            stack,
            pending,
            findings + no_try_catch_in_gen_findings(stack, t) + agent_try_findings(flags.2, flags.3, stack, t),
            scratch,
        ),
        Event::TaggedTemplate(template) => (stack, pending, findings + no_manual_sql_transactions_findings(template), scratch),
        Event::Import { decl, source_span, span } => (
            stack,
            pending,
            findings + prefer_node_counterparts_findings(decl.source@, span) + agent_import_findings(flags.2, flags.3, decl, source_span),
            scratch,
        ),
        Event::ExportDefault { span } => (
            stack,
            pending,
            findings + no_default_export_findings(flags.2, flags.3, span),
            scratch,
        ),
        Event::Class(class) => (
            stack,
            pending,
            findings + schema_class_hygiene_findings(class, bindings) + redundant_tag_findings(class, bindings)
                + prefer_tagged_error_classes_findings(class) + oop_class_findings(flags.2, flags.3, class),
            strategy_class_scratch(flags.2, scratch, class),
        ),
        Event::Interface { name, signatures, span } => (
            stack,
            pending,
            findings,
            strategy_interface_scratch(flags.2, scratch, name@, signatures@, span),
        ),
        Event::Binary { operator, left, right, span } => (
            stack,
            pending,
            findings + equality_binary_findings(operator@, left, right, span) + agent_binary_findings(
                flags.2,
                flags.3,
                operator@,
                left,
                right,
                span,
            ),
            scratch,
        ),
        Event::Switch { discriminant, span } => (stack, pending, findings + tag_switch_findings(discriminant, span), scratch),
        Event::Return { argument, span } => (stack, pending, findings + return_effect_findings(stack, bindings, argument, span), scratch),
        Event::Function { function, name, flow, shape } => (
            stack,
            pending,
            findings + prefer_effect_fn_findings(bindings, function) + async_function_findings(
                flags.1,
                function,
                match name {
                    Some(n) => Some(n@),
                    None => None,
                },
            ) + agent_function_findings(flags.2, flags.3, function, shape) + function_metrics_findings(
                flags.3,
                function,
                match flow {
                    Some(body) => Some(body@),
                    None => None,
                },
            ),
            agent_function_scratch(flags.2, scratch, function, shape),
        ),
        Event::Loop { span, has_yield, has_await } => (
            stack,
            pending,
            findings + loop_findings(flags.1, stack, span, has_yield, has_await) + agent_loop_findings(flags.2, flags.3, span),
            scratch,
        ),
        Event::TsNamespace { span } => (stack, pending, findings + agent_namespace_findings(flags.2, flags.3, span), scratch),
        Event::Unary { operator, span } => (stack, pending, findings + agent_unary_findings(flags.2, flags.3, operator@, span), scratch),
        Event::TsImportType { span } => (stack, pending, findings + agent_import_type_findings(flags.2, flags.3, span), scratch),
        Event::TsNonNull { span } => (stack, pending, findings + agent_non_null_findings(flags.2, flags.3, span), scratch),
        Event::TsEnum { span } => (stack, pending, findings + agent_enum_findings(flags.2, flags.3, span), scratch),
        Event::TsAs { annotation, span } => (
            stack,
            pending,
            findings + agent_as_findings(
                flags.2,
                flags.3,
                match annotation {
                    Some(a) => Some(a@),
                    None => None,
                },
                span,
            ),
            scratch,
        ),
        Event::TsAny { span } => (stack, pending, findings + agent_any_findings(flags.2, flags.3, span), scratch),
        Event::If { span, alternate } => {
            let (found, skip) = agent_if(flags.2, flags.3, scratch.if_chain_skip, span, alternate is Some, else_if_chain(alternate));
            (stack, pending, findings + found, ScratchView { if_chain_skip: skip, ..scratch })
        },
        Event::Conditional { span } => (stack, pending, findings + agent_conditional_findings(flags.2, flags.3, span), scratch),
        Event::VarDecl { kind, span } => (stack, pending, findings + agent_var_decl_findings(flags.2, flags.3, kind@, span), scratch),
        Event::Assignment { to_identifier, span } => (
            stack,
            pending,
            findings + agent_assignment_findings(flags.2, flags.3, to_identifier, span),
            scratch,
        ),
        Event::ImportExpression { span } => (stack, pending, findings + agent_import_expression_findings(flags.2, flags.3, span), scratch),
        Event::EnterFunction { span } => (stack.push(frame_for(pending, span)), pending, findings, scratch),
        Event::LeaveFunction => (if stack.len() > 0 { stack.drop_last() } else { stack }, pending, findings, scratch),
    }
}

/// The state after the given events, from an empty stack.
pub open spec fn walk(events: Seq<Event>, bindings: Map<Seq<char>, Seq<char>>, flags: (bool, bool, bool, bool)) -> WalkState
    decreases events.len(),
{
    if events.len() == 0 {
        (Seq::empty(), Seq::empty(), Seq::empty(), empty_scratch())
    } else {
        walk_step(walk(events.drop_last(), bindings, flags), bindings, flags, events.last())
    }
}

#[verifier::spinoff_prover]
#[verifier::rlimit(40)]
fn dispatch_early_correctness(call: &CallExpr, ctx: &mut FileCtx)
    ensures
        final(ctx).findings() == old(ctx).findings() + early_correctness_findings(old(ctx).stack@, old(ctx).imports.bindings(), *call),
        final(ctx).same_walk(old(ctx)),
{
    let ghost f0 = ctx.findings();
    NoRunInsideEffect.on_call(call, ctx);
    PromiseInterop.on_call(call, ctx);
    NoRunSyncOnAsync.on_call(call, ctx);
    NoMapReturningEffect.on_call(call, ctx);
    EqualityIdioms.on_call(call, ctx);
    ErrorModeling.on_call(call, ctx);
    assert(ctx.findings() =~= f0 + early_correctness_findings(old(ctx).stack@, old(ctx).imports.bindings(), *call));
}

#[verifier::spinoff_prover]
#[verifier::rlimit(40)]
fn dispatch_late_correctness(call: &CallExpr, ctx: &mut FileCtx)
    ensures
        final(ctx).findings() == old(ctx).findings() + late_correctness_findings(old(ctx).imports.bindings(), *call),
        final(ctx).same_walk(old(ctx)),
{
    let ghost f0 = ctx.findings();
    ConcurrencyIdioms.on_call(call, ctx);
    LiteralIdioms.on_call(call, ctx);
    LoggingSecurity.on_call(call, ctx);
    Interruption.on_call(call, ctx);
    CompositionLimits.on_call(call, ctx);
    GenShape.on_call(call, ctx);
    assert(ctx.findings() =~= f0 + late_correctness_findings(old(ctx).imports.bindings(), *call));
}

fn dispatch_correctness_call(call: &CallExpr, ctx: &mut FileCtx)
    ensures
        final(ctx).findings() == old(ctx).findings() + correctness_call_findings(old(ctx).stack@, old(ctx).imports.bindings(), *call),
        final(ctx).same_walk(old(ctx)),
{
    let ghost f0 = ctx.findings();
    dispatch_early_correctness(call, ctx);
    dispatch_late_correctness(call, ctx);
    assert(ctx.findings() =~= f0 + correctness_call_findings(old(ctx).stack@, old(ctx).imports.bindings(), *call));
}

#[verifier::spinoff_prover]
#[verifier::rlimit(40)]
fn dispatch_idiom_call(call: &CallExpr, ctx: &mut FileCtx)
    ensures
        final(ctx).findings() == old(ctx).findings() + idiom_call_findings(old(ctx).stack@, old(ctx).imports.bindings(), *call),
        final(ctx).same_walk(old(ctx)),
{
    let ghost f0 = ctx.findings();
    NoUnnecessaryGen.on_call(call, ctx);
    IdiomShortcuts.on_call(call, ctx);
    CatchIdioms.on_call(call, ctx);
    PreferClockService.on_call(call, ctx);
    PreferRandomService.on_call(call, ctx);
    PreferEffectLogging.on_call(call, ctx);
    GlobalsInEffect.on_call(call, ctx);
    assert(ctx.findings() =~= f0 + idiom_call_findings(old(ctx).stack@, old(ctx).imports.bindings(), *call));
}

#[verifier::spinoff_prover]
#[verifier::rlimit(40)]
fn dispatch_late_call(call: &CallExpr, ctx: &mut FileCtx)
    ensures
        final(ctx).findings() == old(ctx).findings() + late_call_findings(old(ctx).stack@, old(ctx).imports.bindings(), old(ctx).flags(), *call),
        final(ctx).same_walk(old(ctx)),
{
    let ghost f0 = ctx.findings();
    SchemaUsage.on_call(call, ctx);
    MeaningfulSpanNames.on_call(call, ctx);
    PreferItEffect.on_call(call, ctx);
    NoChainedProvides.on_call(call, ctx);
    RetryOnlyRetryable.on_call(call, ctx);
    NoUnboundedConcurrency.on_call(call, ctx);
    Adopt.on_call(call, ctx);
    AgentHygiene.on_call(call, ctx);
    assert(ctx.findings() =~= f0 + late_call_findings(old(ctx).stack@, old(ctx).imports.bindings(), old(ctx).flags(), *call));
}

fn dispatch_other_call(call: &CallExpr, ctx: &mut FileCtx)
    ensures
        final(ctx).findings() == old(ctx).findings() + other_call_findings(old(ctx).stack@, old(ctx).imports.bindings(), old(ctx).flags(), *call),
        final(ctx).same_walk(old(ctx)),
{
    let ghost f0 = ctx.findings();
    dispatch_idiom_call(call, ctx);
    dispatch_late_call(call, ctx);
    assert(ctx.findings() =~= f0 + other_call_findings(old(ctx).stack@, old(ctx).imports.bindings(), old(ctx).flags(), *call));
}

fn dispatch_call(call: &CallExpr, ctx: &mut FileCtx)
    ensures
        final(ctx).findings() == old(ctx).findings() + call_findings(old(ctx).stack@, old(ctx).imports.bindings(), old(ctx).flags(), *call),
        final(ctx).same_walk(old(ctx)),
{
    let ghost f0 = ctx.findings();
    dispatch_correctness_call(call, ctx);
    dispatch_other_call(call, ctx);
    assert(ctx.findings() =~= f0 + call_findings(old(ctx).stack@, old(ctx).imports.bindings(), old(ctx).flags(), *call));
}

fn record_frames(call: &CallExpr, imports: &EffectImports, pending: &mut Vec<(Span, FrameKind)>)
    ensures
        final(pending)@ == old(pending)@ + call_frames(*call, imports.bindings(), call.arguments@),
{
    let generators = effect_gen_generators(call, imports);
    let gen_call = generators.len() > 0;
    let effect_call = effect_member_prop(call, imports).is_some();
    let ghost start = pending@;
    let mut i: usize = 0;
    assert(start + call_frames(*call, imports.bindings(), call.arguments@.take(0)) =~= start);
    while i < call.arguments.len()
        invariant
            i <= call.arguments@.len(),
            gen_call == (effect_gen_generators_spec(*call, imports.bindings()).len() > 0),
            effect_call == (effect_member_prop_spec(*call, imports.bindings()) is Some),
            pending@ == start + call_frames(*call, imports.bindings(), call.arguments@.take(i as int)),
        decreases call.arguments@.len() - i,
    {
        assert(call.arguments@.take(i + 1).drop_last() =~= call.arguments@.take(i as int));
        let ghost before = pending@;
        match &call.arguments[i] {
            Expr::Function(f) => {
                if f.generator && !f.is_arrow && gen_call {
                    pending.push((f.span, FrameKind::EffectGen));
                } else if effect_call {
                    pending.push((f.span, FrameKind::EffectCallback));
                }
            },
            _ => {},
        }
        assert(pending@ =~= start + call_frames(*call, imports.bindings(), call.arguments@.take(i + 1)));
        i += 1;
    }
    assert(call.arguments@.take(i as int) =~= call.arguments@);
}

fn find_frame(pending: &Vec<(Span, FrameKind)>, span: Span) -> (kind: FrameKind)
    ensures
        kind == frame_for(pending@, span),
{
    let mut n: usize = pending.len();
    assert(pending@.take(n as int) =~= pending@);
    while n > 0
        invariant
            n <= pending@.len(),
            frame_for(pending@, span) == frame_for(pending@.take(n as int), span),
        decreases n,
    {
        assert(pending@.take(n as int).drop_last() =~= pending@.take(n - 1));
        if pending[n - 1].0 == span {
            return pending[n - 1].1;
        }
        n -= 1;
    }
    FrameKind::Other
}

fn dispatch(event: &Event, ctx: &mut FileCtx, pending: &mut Vec<(Span, FrameKind)>)
    ensures
        (final(ctx).stack@, final(pending)@, final(ctx).findings(), scratch_view(final(ctx).scratch)) == walk_step(
            (old(ctx).stack@, old(pending)@, old(ctx).findings(), scratch_view(old(ctx).scratch)),
            old(ctx).imports.bindings(),
            old(ctx).flags(),
            *event,
        ),
        final(ctx).imports == old(ctx).imports,
        final(ctx).flags() == old(ctx).flags(),
{
    let ghost f0 = ctx.findings();
    match event {
        Event::Call(call) => {
            dispatch_call(call, ctx);
            record_frames(call, &ctx.imports, pending);
        },
        Event::New(new_expr) => {
            PreferClockService.on_new(new_expr, ctx);
            Adopt.on_new(new_expr, ctx);
            assert(ctx.findings() =~= f0 + prefer_clock_new_findings(old(ctx).stack@, *new_expr)
                + adopt_new_findings(old(ctx).flags().1, old(ctx).stack@, *new_expr));
        },
        Event::Member { object, property, span } => {
            NoEffectDo.on_member(object, property.as_str(), *span, ctx);
            NoOrDie.on_member(object, property.as_str(), *span, ctx);
            GlobalsInEffect.on_member(object, property.as_str(), *span, ctx);
            ScheduleHygiene.on_member(object, property.as_str(), *span, ctx);
            assert(ctx.findings() =~= f0 + member_findings(old(ctx).stack@, old(ctx).imports.bindings(), *object, property@, *span));
        },
        Event::Yield { delegate, argument, span } => {
            RequireYieldStar.on_yield(*delegate, *span, ctx);
            GenShape.on_yield(*delegate, argument, *span, ctx);
            NoUnnecessaryFail.on_yield(*delegate, argument, *span, ctx);
            assert(ctx.findings() =~= f0 + require_yield_star_findings(old(ctx).stack@, *delegate, *span)
                + nested_gen_yield_findings(old(ctx).stack@, old(ctx).imports.bindings(), *delegate, *argument, *span)
                + no_unnecessary_fail_findings(old(ctx).stack@, old(ctx).imports.bindings(), *delegate, *argument, *span));
        },
        Event::Throw { span } => {
            NoThrowInEffect.on_throw(*span, ctx);
            AgentHygiene.on_throw(*span, ctx);
            assert(ctx.findings() =~= f0 + no_throw_in_effect_findings(old(ctx).stack@, *span)
                + agent_throw_findings(old(ctx).flags().2, old(ctx).flags().3, old(ctx).stack@, *span));
        },
        Event::Try(t) => {
            NoTryCatchInGen.on_try(*t, ctx);
            AgentHygiene.on_try(t, ctx);
            assert(ctx.findings() =~= f0 + no_try_catch_in_gen_findings(old(ctx).stack@, *t)
                + agent_try_findings(old(ctx).flags().2, old(ctx).flags().3, old(ctx).stack@, *t));
        },
        Event::TaggedTemplate(template) => {
            NoManualSqlTransactions.on_tagged_template(template, ctx);
        },
        Event::Import { decl, source_span, span } => {
            PreferNodeCounterparts.on_import(decl.source.as_str(), *span, ctx);
            AgentHygiene.on_import(decl, *source_span, ctx);
            assert(ctx.findings() =~= f0 + prefer_node_counterparts_findings(decl.source@, *span)
                + agent_import_findings(old(ctx).flags().2, old(ctx).flags().3, *decl, *source_span));
        },
        Event::ExportDefault { span } => {
            NoDefaultExport.on_export_default(*span, ctx);
            assert(ctx.findings() =~= f0 + no_default_export_findings(old(ctx).flags().2, old(ctx).flags().3, *span));
        },
        Event::Class(class) => {
            SchemaClassHygiene.on_class(class, ctx);
            GenShape.on_class(class, ctx);
            PreferTaggedErrorClasses.on_class(class, ctx);
            Singleton.on_class(class, ctx);
            Observer.on_class(class, ctx);
            Strategy.on_class(class, ctx);
            Visitor.on_class(class, ctx);
            ChainOfResponsibility.on_class(class, ctx);
            assert(ctx.findings() =~= f0 + schema_class_hygiene_findings(*class, old(ctx).imports.bindings())
                + redundant_tag_findings(*class, old(ctx).imports.bindings()) + prefer_tagged_error_classes_findings(*class)
                + oop_class_findings(old(ctx).flags().2, old(ctx).flags().3, *class));
        },
        Event::Binary { operator, left, right, span } => {
            EqualityIdioms.on_binary(operator.as_str(), left, right, *span, ctx);
            AgentHygiene.on_binary(operator.as_str(), left, right, *span, ctx);
            assert(ctx.findings() =~= f0 + equality_binary_findings(operator@, *left, *right, *span) + agent_binary_findings(
                old(ctx).flags().2,
                old(ctx).flags().3,
                operator@,
                *left,
                *right,
                *span,
            ));
        },
        Event::Switch { discriminant, span } => {
            EqualityIdioms.on_switch(discriminant, *span, ctx);
        },
        Event::Return { argument, span } => {
            GenShape.on_return(argument, *span, ctx);
        },
        Event::Interface { name, signatures, span } => {
            Strategy.on_interface(name.as_str(), signatures, *span, ctx);
        },
        Event::Function { function, name, flow, shape } => {
            PreferEffectFn.on_function(function, ctx);
            Adopt.on_function(function, name, ctx);
            AgentHygiene.on_function(function, shape, ctx);
            FunctionMetrics.on_function(function, flow, ctx);
            assert(ctx.findings() =~= f0 + prefer_effect_fn_findings(old(ctx).imports.bindings(), *function) + async_function_findings(
                old(ctx).flags().1,
                *function,
                match *name {
                    Some(n) => Some(n@),
                    None => None,
                },
            ) + agent_function_findings(old(ctx).flags().2, old(ctx).flags().3, *function, *shape) + function_metrics_findings(
                old(ctx).flags().3,
                *function,
                match *flow {
                    Some(body) => Some(body@),
                    None => None,
                },
            ));
        },
        Event::Loop { span, has_yield, has_await } => {
            Adopt.on_loop(*span, *has_yield, *has_await, ctx);
            AgentHygiene.on_loop(*span, ctx);
            assert(ctx.findings() =~= f0 + loop_findings(old(ctx).flags().1, old(ctx).stack@, *span, *has_yield, *has_await)
                + agent_loop_findings(old(ctx).flags().2, old(ctx).flags().3, *span));
        },
        Event::TsNamespace { span } => {
            AgentHygiene.on_namespace(*span, ctx);
        },
        Event::Unary { operator, span } => {
            AgentHygiene.on_unary(operator.as_str(), *span, ctx);
        },
        Event::TsImportType { span } => {
            AgentHygiene.on_import_type(*span, ctx);
        },
        Event::TsNonNull { span } => {
            AgentHygiene.on_non_null(*span, ctx);
        },
        Event::TsEnum { span } => {
            AgentHygiene.on_enum(*span, ctx);
        },
        Event::TsAs { annotation, span } => {
            AgentHygiene.on_as(annotation, *span, ctx);
        },
        Event::TsAny { span } => {
            AgentHygiene.on_any(*span, ctx);
        },
        Event::If { span, alternate } => {
            AgentHygiene.on_if(*span, alternate, ctx);
        },
        Event::Conditional { span } => {
            AgentHygiene.on_conditional(*span, ctx);
        },
        Event::VarDecl { kind, span } => {
            AgentHygiene.on_var_decl(kind.as_str(), *span, ctx);
        },
        Event::Assignment { to_identifier, span } => {
            AgentHygiene.on_assignment(*to_identifier, *span, ctx);
        },
        Event::ImportExpression { span } => {
            AgentHygiene.on_import_expression(*span, ctx);
        },
        Event::EnterFunction { span } => {
            let kind = find_frame(pending, *span);
            ctx.stack.push(kind);
        },
        Event::LeaveFunction => {
            if ctx.stack.len() > 0 {
                ctx.stack.pop();
                assert(ctx.stack@ =~= old(ctx).stack@.drop_last());
            }
        },
    }
}

/// What the rules report over a file's walk: the findings of the walk, then
/// those reported when the file ends.
pub open spec fn file_findings(events: Seq<Event>, bindings: Map<Seq<char>, Seq<char>>, flags: (bool, bool, bool, bool)) -> Seq<Finding> {
    let w = walk(events, bindings, flags);
    w.2 + schedule_end_findings(w.3.exponential_spans, w.3.jitter, w.3.cap) + agent_end_findings(flags.2, w.3.fingerprints) + if flags.2 {
        strategy_end_findings(flags.3, w.3.single_method_interfaces, w.3.implemented_interfaces)
    } else {
        none()
    }
}

/// Run every rule over a file's walk.
pub fn run(imports: EffectImports, v4_active: bool, adopt_active: bool, agent_active: bool, agent_strict: bool, events: &[Event]) -> (ctx: FileCtx)
    ensures
        ctx.imports == imports,
        ctx.flags() == (v4_active, adopt_active, agent_active, agent_strict),
        ctx.stack@ == walk(events@, imports.bindings(), (v4_active, adopt_active, agent_active, agent_strict)).0,
        ctx.findings() == file_findings(events@, imports.bindings(), (v4_active, adopt_active, agent_active, agent_strict)),
{
    let ghost bindings = imports.bindings();
    let ghost flags = (v4_active, adopt_active, agent_active, agent_strict);
    let mut ctx = FileCtx::new(imports, v4_active, adopt_active, agent_active, agent_strict);
    let mut pending: Vec<(Span, FrameKind)> = Vec::new();
    let mut i: usize = 0;
    while i < events.len()
        invariant
            i <= events@.len(),
            ctx.imports.bindings() == bindings,
            ctx.imports == imports,
            ctx.flags() == flags,
            (ctx.stack@, pending@, ctx.findings(), scratch_view(ctx.scratch)) == walk(events@.take(i as int), bindings, flags),
        decreases events@.len() - i,
    {
        assert(events@.take(i + 1).drop_last() =~= events@.take(i as int));
        dispatch(&events[i], &mut ctx, &mut pending);
        i += 1;
    }
    assert(events@.take(i as int) =~= events@);
    ScheduleHygiene.on_file_end(&mut ctx);
    AgentHygiene.on_file_end(&mut ctx);
    Strategy.on_file_end(&mut ctx);
    ctx
}

} // verus!

verus! {

/// Entering a function and leaving it again leaves the frame stack, the
/// announced frames, the findings and the file's facts as they were.
#[verifier::spinoff_prover]
#[verifier::rlimit(100)]
pub proof fn lemma_enter_leave_restores(events: Seq<Event>, bindings: Map<Seq<char>, Seq<char>>, flags: (bool, bool, bool, bool), span: Span)
    ensures
        walk(events.push(Event::EnterFunction { span }).push(Event::LeaveFunction), bindings, flags) == walk(events, bindings, flags),
{
    let entered = events.push(Event::EnterFunction { span });
    let left = entered.push(Event::LeaveFunction);
    assert(left.drop_last() =~= entered);
    assert(entered.drop_last() =~= events);
    let w = walk(events, bindings, flags);
    let w1 = (w.0.push(frame_for(w.1, span)), w.1, w.2, w.3);
    assert(walk(entered, bindings, flags) == walk_step(w, bindings, flags, Event::EnterFunction { span }));
    assert(walk_step(w, bindings, flags, Event::EnterFunction { span }) == w1);
    assert(walk(left, bindings, flags) == walk_step(w1, bindings, flags, Event::LeaveFunction));
    assert(w1.0.drop_last() =~= w.0);
    assert(walk_step(w1, bindings, flags, Event::LeaveFunction) == (w1.0.drop_last(), w1.1, w1.2, w1.3));
}

} // verus!
