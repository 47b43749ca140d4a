//! The per-file rule context and the rules that report into it.
use vstd::prelude::*;

use crate::diagnostics::{RawDiagnostic, RuleMeta, Severity, Span};
use crate::effect_imports::EffectImports;

pub mod adopt;
pub mod agent_hygiene;
pub mod catalog_ids;
pub mod catch_idioms;
pub mod composition_limits;
pub mod concurrency_idioms;
pub mod equality_idioms;
pub mod error_modeling;
pub mod gen_shape;
pub mod function_metrics;
pub mod globals_in_effect;
pub mod idiom_shortcuts;
pub mod interruption;
pub mod literal_idioms;
pub mod logging_security;
pub mod map_misuse;
pub mod module_conventions;
pub mod meaningful_span_names;
pub mod no_chained_provides;
pub mod no_effect_do;
pub mod no_manual_sql_transactions;
pub mod no_or_die;
pub mod no_run_inside_effect;
pub mod no_throw_in_effect;
pub mod no_try_catch_in_gen;
pub mod no_unbounded_concurrency;
pub mod no_unnecessary_fail;
pub mod no_unnecessary_gen;
pub mod oop_to_effect;
pub mod prefer_clock_service;
pub mod prefer_effect_fn;
pub mod prefer_effect_logging;
pub mod prefer_it_effect;
pub mod prefer_node_counterparts;
pub mod prefer_random_service;
pub mod prefer_tagged_error_classes;
pub mod promise_interop;
pub mod require_yield_star;
pub mod retry_only_retryable;
pub mod run_sync_async;
pub mod schedule_hygiene;
pub mod schema_class_hygiene;
pub mod schema_usage;

verus! {

/// What kind of function frame the walk is currently inside.
#[derive(Debug, Clone, Copy, PartialEq, Eq, Structural)]
pub enum FrameKind {
    /// Generator passed to `Effect.gen` / `Effect.fn`.
    EffectGen,
    /// Function/arrow passed as an argument to any `Effect.*` call.
    EffectCallback,
    /// Any other function.
    Other,
}

/// A finding as plain values: rule metadata, span, message, severity override.
pub type Finding = (RuleMeta, Span, Seq<char>, Option<Severity>);

/// The plain value of a raw diagnostic.
pub open spec fn finding_of(d: RawDiagnostic) -> Finding {
    (d.meta, d.span, d.message@, d.severity)
}

/// The innermost frame is an Effect generator.
pub open spec fn in_effect_gen_spec(stack: Seq<FrameKind>) -> bool {
    stack.len() > 0 && stack.last() == FrameKind::EffectGen
}

/// Some enclosing frame is Effect-managed code (a generator or a callback).
pub open spec fn in_effect_code_spec(stack: Seq<FrameKind>) -> bool {
    exists|i: int| 0 <= i < stack.len() && (#[trigger] stack[i]) != FrameKind::Other
}

/// The one finding `(meta, span, message)` with the rule's own severity.
pub open spec fn one(meta: RuleMeta, span: Span, message: Seq<char>) -> Seq<Finding> {
    seq![(meta, span, message, None::<Severity>)]
}

/// One finding of an agent rule: an error in strict mode, else the rule's
/// own severity.
pub open spec fn agent_one(strict: bool, meta: RuleMeta, span: Span, message: Seq<char>) -> Seq<Finding> {
    seq![(meta, span, message, if strict { Some(Severity::Error) } else { None::<Severity> })]
}

/// No finding.
pub open spec fn none() -> Seq<Finding> {
    Seq::empty()
}

/// File-level facts gathered during the walk and read when the file ends.
#[derive(Debug)]
pub struct Scratch {
    /// Spans of `Schedule.exponential` references.
    pub exponential_spans: Vec<Span>,
    /// The file references `Schedule.jittered`.
    pub has_schedule_jitter: bool,
    /// The file references a schedule combinator that caps a delay.
    pub has_schedule_cap: bool,
    /// Interfaces whose body is one method signature, with their spans.
    pub single_method_interfaces: Vec<(String, Span)>,
    /// The interfaces classes implement, once per `implements` entry.
    pub implemented_interfaces: Vec<String>,
    /// Starts of the `else if` statements already reported with the head of
    /// their chain.
    pub if_chain_skip: Vec<u32>,
    /// The shape hash and span of each function measured in agent mode.
    pub fn_fingerprints: Vec<(u64, Span)>,
}

/// The plain value of the scratch facts.
#[verifier::ext_equal]
pub struct ScratchView {
    pub exponential_spans: Seq<Span>,
    pub jitter: bool,
    pub cap: bool,
    pub single_method_interfaces: Seq<(Seq<char>, Span)>,
    pub implemented_interfaces: Seq<Seq<char>>,
    pub if_chain_skip: Seq<u32>,
    pub fingerprints: Seq<(u64, Span)>,
}

/// The scratch facts of a file before its walk.
pub open spec fn empty_scratch() -> ScratchView {
    ScratchView {
        exponential_spans: Seq::empty(),
        jitter: false,
        cap: false,
        single_method_interfaces: Seq::empty(),
        implemented_interfaces: Seq::empty(),
        if_chain_skip: Seq::empty(),
        fingerprints: Seq::empty(),
    }
}

/// The plain value of the scratch facts.
pub open spec fn scratch_view(s: Scratch) -> ScratchView {
    ScratchView {
        exponential_spans: s.exponential_spans@,
        jitter: s.has_schedule_jitter,
        cap: s.has_schedule_cap,
        single_method_interfaces: s.single_method_interfaces@.map_values(|entry: (String, Span)| (entry.0@, entry.1)),
        implemented_interfaces: s.implemented_interfaces@.map_values(|name: String| name@),
        if_chain_skip: s.if_chain_skip@,
        fingerprints: s.fn_fingerprints@,
    }
}

/// Per-file context handed to rules: import provenance, the function-frame
/// stack kept by the walk, the profile flags, and the findings so far.
pub struct FileCtx {
    pub imports: EffectImports,
    pub stack: Vec<FrameKind>,
    pub scratch: Scratch,
    pub raw: Vec<RawDiagnostic>,
    pub v4_active: bool,
    pub adopt_active: bool,
    pub agent_active: bool,
    pub agent_strict: bool,
}

impl FileCtx {
    /// The profile flags: v4 migration, adoption, agent hygiene, agent strict.
    pub open spec fn flags(&self) -> (bool, bool, bool, bool) {
        (self.v4_active, self.adopt_active, self.agent_active, self.agent_strict)
    }

    /// The findings reported so far, as plain values.
    pub open spec fn findings(&self) -> Seq<Finding> {
        self.raw@.map_values(|d: RawDiagnostic| finding_of(d))
    }

    /// Everything but the findings is as in `other`.
    pub open spec fn same_walk(&self, other: &FileCtx) -> bool {
        &&& self.imports == other.imports
        &&& self.stack@ == other.stack@
        &&& scratch_view(self.scratch) == scratch_view(other.scratch)
        &&& self.flags() == other.flags()
    }

    /// A context with no frames and no findings.
    pub fn new(imports: EffectImports, v4_active: bool, adopt_active: bool, agent_active: bool, agent_strict: bool) -> (ctx: FileCtx)
        ensures
            ctx.imports == imports,
            ctx.stack@ == Seq::<FrameKind>::empty(),
            scratch_view(ctx.scratch) == empty_scratch(),
            ctx.findings() == Seq::<Finding>::empty(),
            ctx.flags() == (v4_active, adopt_active, agent_active, agent_strict),
    {
        let ctx = FileCtx {
            imports,
            stack: Vec::new(),
            scratch: Scratch {
                exponential_spans: Vec::new(),
                has_schedule_jitter: false,
                has_schedule_cap: false,
                single_method_interfaces: Vec::new(),
                implemented_interfaces: Vec::new(),
                if_chain_skip: Vec::new(),
                fn_fingerprints: Vec::new(),
            },
            raw: Vec::new(),
            v4_active,
            adopt_active,
            agent_active,
            agent_strict,
        };
        assert(ctx.findings() =~= Seq::<Finding>::empty());
        assert(scratch_view(ctx.scratch) =~= empty_scratch());
        ctx
    }

    /// The innermost function frame is an Effect generator.
    pub fn in_effect_gen(&self) -> (found: bool)
        ensures
            found == in_effect_gen_spec(self.stack@),
    {
        let n = self.stack.len();
        n > 0 && self.stack[n - 1] == FrameKind::EffectGen
    }

    /// Anywhere inside Effect-managed code (a generator body or an `Effect.*`
    /// callback).
    pub fn in_effect_code(&self) -> (found: bool)
        ensures
            found == in_effect_code_spec(self.stack@),
    {
        let mut i: usize = 0;
        while i < self.stack.len()
            invariant
                i <= self.stack@.len(),
                forall|j: int| 0 <= j < i ==> (#[trigger] self.stack@[j]) == FrameKind::Other,
            decreases self.stack@.len() - i,
        {
            if self.stack[i] != FrameKind::Other {
                return true;
            }
            i += 1;
        }
        false
    }

    /// v4-migration rules fire only when the codebase targets effect v4 or
    /// the scan runs with migration on.
    pub fn v4_active(&self) -> (active: bool)
        ensures
            active == self.flags().0,
    {
        self.v4_active
    }

    /// Experimental adoption rules fire only when adoption is on.
    pub fn adopt_active(&self) -> (active: bool)
        ensures
            active == self.flags().1,
    {
        self.adopt_active
    }

    /// Experimental agent-hygiene rules fire only when agent hygiene is on.
    pub fn agent_active(&self) -> (active: bool)
        ensures
            active == self.flags().2,
    {
        self.agent_active
    }

    /// Record a finding with the rule's declared severity.
    pub fn report(&mut self, meta: RuleMeta, span: Span, message: String)
        ensures
            final(self).findings() == old(self).findings().push((meta, span, message@, None::<Severity>)),
            final(self).same_walk(old(self)),
    {
        let ghost before = self.raw@;
        self.raw.push(RawDiagnostic { meta, span, message, severity: None });
        assert(self.raw@.map_values(|d: RawDiagnostic| finding_of(d)) =~= before.map_values(
            |d: RawDiagnostic| finding_of(d),
        ).push((meta, span, message@, None::<Severity>)));
    }

    /// Record an agent-hygiene finding, escalated to `error` in strict mode
    /// (otherwise the rule's declared severity).
    pub fn report_agent(&mut self, meta: RuleMeta, span: Span, message: String)
        ensures
            final(self).findings() == old(self).findings().push(
                (meta, span, message@, if old(self).flags().3 { Some(Severity::Error) } else { None::<Severity> }),
            ),
            final(self).same_walk(old(self)),
    {
        let severity = if self.agent_strict {
            Some(Severity::Error)
        } else {
            None
        };
        let ghost before = self.raw@;
        self.raw.push(RawDiagnostic { meta, span, message, severity });
        assert(self.raw@.map_values(|d: RawDiagnostic| finding_of(d)) =~= before.map_values(
            |d: RawDiagnostic| finding_of(d),
        ).push((meta, span, message@, severity)));
    }
}

/// The catalog entries of every rule of the file walk, in catalog order.
pub open spec fn rule_catalog() -> Seq<RuleMeta> {
    Seq::empty()
        + seq![require_yield_star::require_yield_star_meta()]
        + seq![no_try_catch_in_gen::no_try_catch_in_gen_meta(), no_try_catch_in_gen::no_try_finally_in_gen_meta()]
        + seq![no_throw_in_effect::no_throw_in_effect_meta()]
        + seq![no_run_inside_effect::no_run_inside_effect_meta()]
        + seq![schema_class_hygiene::self_mismatch_meta(), schema_class_hygiene::constructor_override_meta()]
        + seq![promise_interop::no_async_callback_meta(), promise_interop::no_then_in_sync_meta(), promise_interop::no_promise_all_meta(), promise_interop::require_typed_catch_meta()]
        + seq![run_sync_async::no_run_sync_on_async_meta()]
        + seq![map_misuse::no_map_returning_effect_meta()]
        + seq![equality_idioms::object_literal_comparison_meta(), equality_idioms::tag_string_comparison_meta(), equality_idioms::tag_switch_meta()]
        + seq![error_modeling::no_string_errors_meta(), error_modeling::no_catchall_to_null_meta()]
        + seq![concurrency_idioms::missing_concurrency_meta(), concurrency_idioms::race_sleep_meta(), concurrency_idioms::fork_join_meta()]
        + seq![literal_idioms::raw_millis_meta(), literal_idioms::sync_literal_meta()]
        + seq![logging_security::config_redacted_meta(), logging_security::structured_logging_meta(), logging_security::json_response_meta()]
        + seq![interruption::abort_signal_meta(), interruption::nested_flatmap_meta()]
        + seq![composition_limits::long_chains_meta(), composition_limits::mergeall_megalist_meta()]
        + seq![gen_shape::nested_gen_yield_meta(), gen_shape::effect_fn_iife_meta(), gen_shape::pipe_chain_meta(), gen_shape::return_effect_in_gen_meta(), gen_shape::redundant_tag_identifier_meta()]
        + seq![no_unnecessary_gen::no_unnecessary_gen_meta()]
        + seq![no_unnecessary_fail::no_unnecessary_fail_meta()]
        + seq![no_effect_do::no_effect_do_meta()]
        + seq![no_or_die::no_or_die_meta()]
        + seq![idiom_shortcuts::prefer_effect_void_meta(), idiom_shortcuts::prefer_as_void_meta(), idiom_shortcuts::prefer_flatmap_meta(), idiom_shortcuts::no_unnecessary_pipe_meta()]
        + seq![catch_idioms::prefer_catch_tag_meta(), catch_idioms::catch_to_map_error_meta()]
        + seq![prefer_clock_service::prefer_clock_service_meta()]
        + seq![prefer_random_service::prefer_random_service_meta()]
        + seq![prefer_effect_logging::prefer_effect_logging_meta()]
        + seq![globals_in_effect::prefer_effect_timers_meta(), globals_in_effect::prefer_platform_fetch_meta(), globals_in_effect::prefer_config_module_meta(), globals_in_effect::prefer_schema_over_json_meta()]
        + seq![prefer_effect_fn::prefer_effect_fn_meta()]
        + seq![prefer_tagged_error_classes::prefer_tagged_error_classes_meta()]
        + seq![schema_usage::prefer_decode_effect_meta(), schema_usage::hoist_schema_codecs_meta()]
        + seq![meaningful_span_names::meaningful_span_names_meta()]
        + seq![prefer_node_counterparts::prefer_node_counterparts_meta()]
        + seq![prefer_it_effect::prefer_it_effect_meta()]
        + seq![no_chained_provides::no_chained_provides_meta()]
        + seq![no_manual_sql_transactions::no_manual_sql_transactions_meta()]
        + seq![retry_only_retryable::retry_only_retryable_meta()]
        + seq![schedule_hygiene::add_jitter_meta(), schedule_hygiene::cap_backoff_meta()]
        + seq![no_unbounded_concurrency::no_unbounded_concurrency_meta()]
        + seq![adopt::async_function_meta(), adopt::promise_chain_meta(), adopt::new_promise_meta(), adopt::promise_all_meta(), adopt::await_in_loop_meta(), adopt::yield_loop_meta()]
        + seq![agent_hygiene::if_else_chain_meta(), agent_hygiene::ternary_meta(), agent_hygiene::string_equality_guard_meta(), agent_hygiene::raw_loop_meta(), agent_hygiene::let_binding_meta(), agent_hygiene::mutation_meta(), agent_hygiene::inline_import_meta(), agent_hygiene::any_type_meta(), agent_hygiene::import_alias_meta(), agent_hygiene::namespace_import_meta(), agent_hygiene::try_catch_meta(), agent_hygiene::as_cast_meta(), agent_hygiene::unbounded_promise_all_meta(), agent_hygiene::loose_equality_meta(), agent_hygiene::non_null_assertion_meta(), agent_hygiene::ts_enum_meta(), agent_hygiene::safe_parse_meta(), agent_hygiene::inline_type_import_meta(), agent_hygiene::ts_namespace_meta(), agent_hygiene::throw_meta(), agent_hygiene::delete_op_meta(), agent_hygiene::deep_nesting_meta(), agent_hygiene::high_complexity_meta(), agent_hygiene::too_many_params_meta(), agent_hygiene::deep_relative_import_meta(), agent_hygiene::duplicate_function_meta()]
        + seq![oop_to_effect::singleton_meta()]
        + seq![oop_to_effect::observer_meta()]
        + seq![oop_to_effect::strategy_meta()]
        + seq![oop_to_effect::visitor_meta()]
        + seq![oop_to_effect::chain_meta()]
        + seq![function_metrics::max_params_meta(), function_metrics::max_nesting_meta(), function_metrics::high_cognitive_meta()]
        + seq![module_conventions::no_default_export_meta()]
}

/// The cross-file rules that fire from the engine pass: duplicates across
/// files, then import cycles.
pub open spec fn cross_file_catalog() -> Seq<RuleMeta> {
    seq![
        crate::fn_index::duplicate_cross_file_meta(),
        crate::fn_index::near_duplicate_meta(),
        crate::fn_index::similar_name_meta(),
        crate::fn_index::similar_shape_meta(),
        crate::cycles::circular_import_meta(),
    ]
}

/// The catalog entries of every rule, in catalog order, then the cross-file
/// rules that fire from the engine pass.
pub open spec fn catalog() -> Seq<RuleMeta> {
    rule_catalog() + cross_file_catalog()
}

/// No two entries share a rule id: each id is owned by one rule.
pub open spec fn ids_distinct(metas: Seq<RuleMeta>) -> bool {
    forall|i: int, j: int| #![trigger metas[i], metas[j]] 0 <= i < j < metas.len() ==> metas[i].id@ != metas[j].id@
}

proof fn lemma_cross_file_listed()
    ensures
        forall|k: int| 0 <= k < cross_file_catalog().len() ==> catalog().contains(#[trigger] cross_file_catalog()[k]),
{
    assert forall|k: int| 0 <= k < cross_file_catalog().len() implies catalog().contains(#[trigger] cross_file_catalog()[k]) by {
        assert(catalog()[rule_catalog().len() + k] == cross_file_catalog()[k]);
    }
}

fn append(all: &mut Vec<RuleMeta>, metas: Vec<RuleMeta>)
    ensures
        final(all)@ == old(all)@ + metas@,
{
    let mut metas = metas;
    all.append(&mut metas);
}

/// All rule metadata, for listings and export: every rule's ids in catalog
/// order, then the cross-file rules of the engine pass (duplicates across
/// files, then import cycles). Every id a cross-file finding is reported
/// under is listed.
pub fn all_metas() -> (metas: Vec<RuleMeta>)
    ensures
        metas@ == catalog(),
        ids_distinct(metas@),
        catalog().contains(crate::cycles::circular_import_meta()),
        catalog().contains(crate::fn_index::duplicate_cross_file_meta()),
        catalog().contains(crate::fn_index::near_duplicate_meta()),
        catalog().contains(crate::fn_index::similar_name_meta()),
        catalog().contains(crate::fn_index::similar_shape_meta()),
{
    let mut all: Vec<RuleMeta> = Vec::new();
    assert(all@ =~= Seq::<RuleMeta>::empty());
    append(&mut all, require_yield_star::RequireYieldStar.metas());
    append(&mut all, no_try_catch_in_gen::NoTryCatchInGen.metas());
    append(&mut all, no_throw_in_effect::NoThrowInEffect.metas());
    append(&mut all, no_run_inside_effect::NoRunInsideEffect.metas());
    append(&mut all, schema_class_hygiene::SchemaClassHygiene.metas());
    append(&mut all, promise_interop::PromiseInterop.metas());
    append(&mut all, run_sync_async::NoRunSyncOnAsync.metas());
    append(&mut all, map_misuse::NoMapReturningEffect.metas());
    append(&mut all, equality_idioms::EqualityIdioms.metas());
    append(&mut all, error_modeling::ErrorModeling.metas());
    append(&mut all, concurrency_idioms::ConcurrencyIdioms.metas());
    append(&mut all, literal_idioms::LiteralIdioms.metas());
    append(&mut all, logging_security::LoggingSecurity.metas());
    append(&mut all, interruption::Interruption.metas());
    append(&mut all, composition_limits::CompositionLimits.metas());
    append(&mut all, gen_shape::GenShape.metas());
    append(&mut all, no_unnecessary_gen::NoUnnecessaryGen.metas());
    append(&mut all, no_unnecessary_fail::NoUnnecessaryFail.metas());
    append(&mut all, no_effect_do::NoEffectDo.metas());
    append(&mut all, no_or_die::NoOrDie.metas());
    append(&mut all, idiom_shortcuts::IdiomShortcuts.metas());
    append(&mut all, catch_idioms::CatchIdioms.metas());
    append(&mut all, prefer_clock_service::PreferClockService.metas());
    append(&mut all, prefer_random_service::PreferRandomService.metas());
    append(&mut all, prefer_effect_logging::PreferEffectLogging.metas());
    append(&mut all, globals_in_effect::GlobalsInEffect.metas());
    append(&mut all, prefer_effect_fn::PreferEffectFn.metas());
    append(&mut all, prefer_tagged_error_classes::PreferTaggedErrorClasses.metas());
    append(&mut all, schema_usage::SchemaUsage.metas());
    append(&mut all, meaningful_span_names::MeaningfulSpanNames.metas());
    append(&mut all, prefer_node_counterparts::PreferNodeCounterparts.metas());
    append(&mut all, prefer_it_effect::PreferItEffect.metas());
    append(&mut all, no_chained_provides::NoChainedProvides.metas());
    append(&mut all, no_manual_sql_transactions::NoManualSqlTransactions.metas());
    append(&mut all, retry_only_retryable::RetryOnlyRetryable.metas());
    append(&mut all, schedule_hygiene::ScheduleHygiene.metas());
    append(&mut all, no_unbounded_concurrency::NoUnboundedConcurrency.metas());
    append(&mut all, adopt::Adopt.metas());
    append(&mut all, agent_hygiene::AgentHygiene.metas());
    append(&mut all, oop_to_effect::Singleton.metas());
    append(&mut all, oop_to_effect::Observer.metas());
    append(&mut all, oop_to_effect::Strategy.metas());
    append(&mut all, oop_to_effect::Visitor.metas());
    append(&mut all, oop_to_effect::ChainOfResponsibility.metas());
    append(&mut all, function_metrics::FunctionMetrics.metas());
    append(&mut all, module_conventions::NoDefaultExport.metas());
    let ghost rules_part = all@;
    assert(rules_part == rule_catalog());
    append(&mut all, crate::fn_index::cross_file_metas());
    append(&mut all, crate::cycles::metas());
    proof {
        assert(all@ =~= rules_part + cross_file_catalog());
        lemma_cross_file_listed();
        catalog_ids::lemma_catalog_ids_distinct();
        assert(cross_file_catalog()[0] == crate::fn_index::duplicate_cross_file_meta());
        assert(cross_file_catalog()[1] == crate::fn_index::near_duplicate_meta());
        assert(cross_file_catalog()[2] == crate::fn_index::similar_name_meta());
        assert(cross_file_catalog()[3] == crate::fn_index::similar_shape_meta());
        assert(cross_file_catalog()[4] == crate::cycles::circular_import_meta());
    }
    all
}

} // verus!
