//! Every rule id in the catalog is owned by exactly one entry.
use vstd::prelude::*;

use crate::diagnostics::RuleMeta;
use crate::rules::{catalog, ids_distinct};

verus! {

/// No id of `a` occurs in `b`.
pub open spec fn ids_apart(a: Seq<RuleMeta>, b: Seq<RuleMeta>) -> bool {
    forall|i: int, j: int| #![trigger a[i], b[j]] 0 <= i < a.len() && 0 <= j < b.len() ==> a[i].id@ != b[j].id@
}

proof fn lemma_distinct_concat(a: Seq<RuleMeta>, b: Seq<RuleMeta>)
    requires
        ids_distinct(a),
        ids_distinct(b),
        ids_apart(a, b),
    ensures
        ids_distinct(a + b),
{
    assert forall|i: int, j: int| 0 <= i < j < (a + b).len() implies #[trigger] (a + b)[i].id@ != #[trigger] (a + b)[j].id@ by {
        if j < a.len() {
            assert((a + b)[i] == a[i] && (a + b)[j] == a[j]);
        } else if i >= a.len() {
            assert((a + b)[i] == b[i - a.len()] && (a + b)[j] == b[j - a.len()]);
        } else {
            assert((a + b)[i] == a[i] && (a + b)[j] == b[j - a.len()]);
        }
    }
}

proof fn lemma_apart_concat(a: Seq<RuleMeta>, b: Seq<RuleMeta>, c: Seq<RuleMeta>)
    requires
        ids_apart(a, c),
        ids_apart(b, c),
    ensures
        ids_apart(a + b, c),
{
    assert forall|i: int, j: int| 0 <= i < (a + b).len() && 0 <= j < c.len() implies #[trigger] (a + b)[i].id@ != #[trigger] c[j].id@ by {
        if i < a.len() {
            assert((a + b)[i] == a[i]);
        } else {
            assert((a + b)[i] == b[i - a.len()]);
        }
    }
}

#[verifier::opaque]
spec fn chunk_0() -> Seq<RuleMeta> {
    seq![
        crate::rules::require_yield_star::require_yield_star_meta(),
        crate::rules::no_try_catch_in_gen::no_try_catch_in_gen_meta(),
        crate::rules::no_try_catch_in_gen::no_try_finally_in_gen_meta(),
        crate::rules::no_throw_in_effect::no_throw_in_effect_meta(),
        crate::rules::no_run_inside_effect::no_run_inside_effect_meta(),
        crate::rules::schema_class_hygiene::self_mismatch_meta(),
        crate::rules::schema_class_hygiene::constructor_override_meta(),
        crate::rules::promise_interop::no_async_callback_meta(),
        crate::rules::promise_interop::no_then_in_sync_meta(),
        crate::rules::promise_interop::no_promise_all_meta(),
        crate::rules::promise_interop::require_typed_catch_meta(),
        crate::rules::run_sync_async::no_run_sync_on_async_meta(),
    ]
}

#[verifier::opaque]
spec fn chunk_1() -> Seq<RuleMeta> {
    seq![
        crate::rules::map_misuse::no_map_returning_effect_meta(),
        crate::rules::equality_idioms::object_literal_comparison_meta(),
        crate::rules::equality_idioms::tag_string_comparison_meta(),
        crate::rules::equality_idioms::tag_switch_meta(),
        crate::rules::error_modeling::no_string_errors_meta(),
        crate::rules::error_modeling::no_catchall_to_null_meta(),
        crate::rules::concurrency_idioms::missing_concurrency_meta(),
        crate::rules::concurrency_idioms::race_sleep_meta(),
        crate::rules::concurrency_idioms::fork_join_meta(),
        crate::rules::literal_idioms::raw_millis_meta(),
        crate::rules::literal_idioms::sync_literal_meta(),
        crate::rules::logging_security::config_redacted_meta(),
    ]
}

#[verifier::opaque]
spec fn chunk_2() -> Seq<RuleMeta> {
    seq![
        crate::rules::logging_security::structured_logging_meta(),
        crate::rules::logging_security::json_response_meta(),
        crate::rules::interruption::abort_signal_meta(),
        crate::rules::interruption::nested_flatmap_meta(),
        crate::rules::composition_limits::long_chains_meta(),
        crate::rules::composition_limits::mergeall_megalist_meta(),
        crate::rules::gen_shape::nested_gen_yield_meta(),
        crate::rules::gen_shape::effect_fn_iife_meta(),
        crate::rules::gen_shape::pipe_chain_meta(),
        crate::rules::gen_shape::return_effect_in_gen_meta(),
        crate::rules::gen_shape::redundant_tag_identifier_meta(),
        crate::rules::no_unnecessary_gen::no_unnecessary_gen_meta(),
    ]
}

#[verifier::opaque]
spec fn chunk_3() -> Seq<RuleMeta> {
    seq![
        crate::rules::no_unnecessary_fail::no_unnecessary_fail_meta(),
        crate::rules::no_effect_do::no_effect_do_meta(),
        crate::rules::no_or_die::no_or_die_meta(),
        crate::rules::idiom_shortcuts::prefer_effect_void_meta(),
        crate::rules::idiom_shortcuts::prefer_as_void_meta(),
        crate::rules::idiom_shortcuts::prefer_flatmap_meta(),
        crate::rules::idiom_shortcuts::no_unnecessary_pipe_meta(),
        crate::rules::catch_idioms::prefer_catch_tag_meta(),
        crate::rules::catch_idioms::catch_to_map_error_meta(),
        crate::rules::prefer_clock_service::prefer_clock_service_meta(),
        crate::rules::prefer_random_service::prefer_random_service_meta(),
        crate::rules::prefer_effect_logging::prefer_effect_logging_meta(),
    ]
}

#[verifier::opaque]
spec fn chunk_4() -> Seq<RuleMeta> {
    seq![
        crate::rules::globals_in_effect::prefer_effect_timers_meta(),
        crate::rules::globals_in_effect::prefer_platform_fetch_meta(),
        crate::rules::globals_in_effect::prefer_config_module_meta(),
        crate::rules::globals_in_effect::prefer_schema_over_json_meta(),
        crate::rules::prefer_effect_fn::prefer_effect_fn_meta(),
        crate::rules::prefer_tagged_error_classes::prefer_tagged_error_classes_meta(),
        crate::rules::schema_usage::prefer_decode_effect_meta(),
        crate::rules::schema_usage::hoist_schema_codecs_meta(),
        crate::rules::meaningful_span_names::meaningful_span_names_meta(),
        crate::rules::prefer_node_counterparts::prefer_node_counterparts_meta(),
        crate::rules::prefer_it_effect::prefer_it_effect_meta(),
        crate::rules::no_chained_provides::no_chained_provides_meta(),
    ]
}

#[verifier::opaque]
spec fn chunk_5() -> Seq<RuleMeta> {
    seq![
        crate::rules::no_manual_sql_transactions::no_manual_sql_transactions_meta(),
        crate::rules::retry_only_retryable::retry_only_retryable_meta(),
        crate::rules::schedule_hygiene::add_jitter_meta(),
        crate::rules::schedule_hygiene::cap_backoff_meta(),
        crate::rules::no_unbounded_concurrency::no_unbounded_concurrency_meta(),
        crate::rules::adopt::async_function_meta(),
        crate::rules::adopt::promise_chain_meta(),
        crate::rules::adopt::new_promise_meta(),
        crate::rules::adopt::promise_all_meta(),
        crate::rules::adopt::await_in_loop_meta(),
        crate::rules::adopt::yield_loop_meta(),
        crate::rules::agent_hygiene::if_else_chain_meta(),
    ]
}

#[verifier::opaque]
spec fn chunk_6() -> Seq<RuleMeta> {
    seq![
        crate::rules::agent_hygiene::ternary_meta(),
        crate::rules::agent_hygiene::string_equality_guard_meta(),
        crate::rules::agent_hygiene::raw_loop_meta(),
        crate::rules::agent_hygiene::let_binding_meta(),
        crate::rules::agent_hygiene::mutation_meta(),
        crate::rules::agent_hygiene::inline_import_meta(),
        crate::rules::agent_hygiene::any_type_meta(),
        crate::rules::agent_hygiene::import_alias_meta(),
        crate::rules::agent_hygiene::namespace_import_meta(),
        crate::rules::agent_hygiene::try_catch_meta(),
        crate::rules::agent_hygiene::as_cast_meta(),
        crate::rules::agent_hygiene::unbounded_promise_all_meta(),
    ]
}

#[verifier::opaque]
spec fn chunk_7() -> Seq<RuleMeta> {
    seq![
        crate::rules::agent_hygiene::loose_equality_meta(),
        crate::rules::agent_hygiene::non_null_assertion_meta(),
        crate::rules::agent_hygiene::ts_enum_meta(),
        crate::rules::agent_hygiene::safe_parse_meta(),
        crate::rules::agent_hygiene::inline_type_import_meta(),
        crate::rules::agent_hygiene::ts_namespace_meta(),
        crate::rules::agent_hygiene::throw_meta(),
        crate::rules::agent_hygiene::delete_op_meta(),
        crate::rules::agent_hygiene::deep_nesting_meta(),
        crate::rules::agent_hygiene::high_complexity_meta(),
        crate::rules::agent_hygiene::too_many_params_meta(),
        crate::rules::agent_hygiene::deep_relative_import_meta(),
    ]
}

#[verifier::opaque]
spec fn chunk_8() -> Seq<RuleMeta> {
    seq![
        crate::rules::agent_hygiene::duplicate_function_meta(),
        crate::rules::oop_to_effect::singleton_meta(),
        crate::rules::oop_to_effect::observer_meta(),
        crate::rules::oop_to_effect::strategy_meta(),
        crate::rules::oop_to_effect::visitor_meta(),
        crate::rules::oop_to_effect::chain_meta(),
        crate::rules::function_metrics::max_params_meta(),
        crate::rules::function_metrics::max_nesting_meta(),
        crate::rules::function_metrics::high_cognitive_meta(),
        crate::rules::module_conventions::no_default_export_meta(),
        crate::fn_index::duplicate_cross_file_meta(),
        crate::fn_index::near_duplicate_meta(),
    ]
}

#[verifier::opaque]
spec fn chunk_9() -> Seq<RuleMeta> {
    seq![
        crate::fn_index::similar_name_meta(),
        crate::fn_index::similar_shape_meta(),
        crate::cycles::circular_import_meta(),
    ]
}

proof fn lemma_chunk_0_distinct()
    ensures
        ids_distinct(chunk_0()),
{
    reveal_strlit("require-yield-star");
    reveal_strlit("no-try-catch-in-gen");
    reveal_strlit("no-try-finally-in-gen");
    reveal_strlit("no-throw-in-effect");
    reveal_strlit("no-run-inside-effect");
    reveal_strlit("schema-class-self-mismatch");
    reveal_strlit("no-constructor-override-in-schema-class");
    reveal_strlit("no-async-callback-in-effect-combinators");
    reveal_strlit("no-then-in-sync");
    reveal_strlit("no-promise-all-in-effect");
    reveal_strlit("require-typed-catch-in-try");
    reveal_strlit("no-runsync-on-async-effect");
    reveal(chunk_0);
    let s = chunk_0();
    assert(s[0].id@ == "require-yield-star"@);
    assert(s[1].id@ == "no-try-catch-in-gen"@);
    assert(s[2].id@ == "no-try-finally-in-gen"@);
    assert(s[3].id@ == "no-throw-in-effect"@);
    assert(s[4].id@ == "no-run-inside-effect"@);
    assert(s[5].id@ == "schema-class-self-mismatch"@);
    assert(s[6].id@ == "no-constructor-override-in-schema-class"@);
    assert(s[7].id@ == "no-async-callback-in-effect-combinators"@);
    assert(s[8].id@ == "no-then-in-sync"@);
    assert(s[9].id@ == "no-promise-all-in-effect"@);
    assert(s[10].id@ == "require-typed-catch-in-try"@);
    assert(s[11].id@ == "no-runsync-on-async-effect"@);
    assert("require-yield-star"@[0] != "no-throw-in-effect"@[0]);
    assert("schema-class-self-mismatch"@[0] != "require-typed-catch-in-try"@[0]);
    assert("schema-class-self-mismatch"@[0] != "no-runsync-on-async-effect"@[0]);
    assert("no-constructor-override-in-schema-class"@[3] != "no-async-callback-in-effect-combinators"@[3]);
    assert("require-typed-catch-in-try"@[0] != "no-runsync-on-async-effect"@[0]);
    assert forall|i: int, j: int| #![trigger s[i], s[j]] 0 <= i < j < s.len() implies s[i].id@ != s[j].id@ by {
        assert(i == 0 || i == 1 || i == 2 || i == 3 || i == 4 || i == 5 || i == 6 || i == 7 || i == 8 || i == 9 || i == 10 || i == 11);
        assert(j == 0 || j == 1 || j == 2 || j == 3 || j == 4 || j == 5 || j == 6 || j == 7 || j == 8 || j == 9 || j == 10 || j == 11);
    }
}

proof fn lemma_chunk_1_distinct()
    ensures
        ids_distinct(chunk_1()),
{
    reveal_strlit("no-map-returning-effect");
    reveal_strlit("no-object-literal-comparison");
    reveal_strlit("no-tag-string-comparison");
    reveal_strlit("prefer-match-over-tag-switch");
    reveal_strlit("no-string-errors");
    reveal_strlit("no-catchall-to-null");
    reveal_strlit("effect-all-missing-concurrency");
    reveal_strlit("prefer-timeout-over-race-sleep");
    reveal_strlit("no-fork-then-immediate-join");
    reveal_strlit("prefer-duration-over-raw-millis");
    reveal_strlit("prefer-succeed-over-sync-literal");
    reveal_strlit("prefer-config-redacted");
    reveal(chunk_1);
    let s = chunk_1();
    assert(s[0].id@ == "no-map-returning-effect"@);
    assert(s[1].id@ == "no-object-literal-comparison"@);
    assert(s[2].id@ == "no-tag-string-comparison"@);
    assert(s[3].id@ == "prefer-match-over-tag-switch"@);
    assert(s[4].id@ == "no-string-errors"@);
    assert(s[5].id@ == "no-catchall-to-null"@);
    assert(s[6].id@ == "effect-all-missing-concurrency"@);
    assert(s[7].id@ == "prefer-timeout-over-race-sleep"@);
    assert(s[8].id@ == "no-fork-then-immediate-join"@);
    assert(s[9].id@ == "prefer-duration-over-raw-millis"@);
    assert(s[10].id@ == "prefer-succeed-over-sync-literal"@);
    assert(s[11].id@ == "prefer-config-redacted"@);
    assert("no-object-literal-comparison"@[0] != "prefer-match-over-tag-switch"@[0]);
    assert("effect-all-missing-concurrency"@[0] != "prefer-timeout-over-race-sleep"@[0]);
    assert forall|i: int, j: int| #![trigger s[i], s[j]] 0 <= i < j < s.len() implies s[i].id@ != s[j].id@ by {
        assert(i == 0 || i == 1 || i == 2 || i == 3 || i == 4 || i == 5 || i == 6 || i == 7 || i == 8 || i == 9 || i == 10 || i == 11);
        assert(j == 0 || j == 1 || j == 2 || j == 3 || j == 4 || j == 5 || j == 6 || j == 7 || j == 8 || j == 9 || j == 10 || j == 11);
    }
}

proof fn lemma_chunk_2_distinct()
    ensures
        ids_distinct(chunk_2()),
{
    reveal_strlit("prefer-structured-logging-args");
    reveal_strlit("prefer-json-response-helper");
    reveal_strlit("prefer-abort-signal-passthrough");
    reveal_strlit("prefer-gen-over-nested-flatmap");
    reveal_strlit("avoid-long-combinator-chains");
    reveal_strlit("no-layer-mergeall-megalist");
    reveal_strlit("no-nested-gen-yield");
    reveal_strlit("no-effect-fn-iife");
    reveal_strlit("no-unnecessary-pipe-chain");
    reveal_strlit("no-return-effect-in-gen");
    reveal_strlit("redundant-schema-tag-identifier");
    reveal_strlit("no-unnecessary-gen");
    reveal(chunk_2);
    let s = chunk_2();
    assert(s[0].id@ == "prefer-structured-logging-args"@);
    assert(s[1].id@ == "prefer-json-response-helper"@);
    assert(s[2].id@ == "prefer-abort-signal-passthrough"@);
    assert(s[3].id@ == "prefer-gen-over-nested-flatmap"@);
    assert(s[4].id@ == "avoid-long-combinator-chains"@);
    assert(s[5].id@ == "no-layer-mergeall-megalist"@);
    assert(s[6].id@ == "no-nested-gen-yield"@);
    assert(s[7].id@ == "no-effect-fn-iife"@);
    assert(s[8].id@ == "no-unnecessary-pipe-chain"@);
    assert(s[9].id@ == "no-return-effect-in-gen"@);
    assert(s[10].id@ == "redundant-schema-tag-identifier"@);
    assert(s[11].id@ == "no-unnecessary-gen"@);
    assert("prefer-structured-logging-args"@[7] != "prefer-gen-over-nested-flatmap"@[7]);
    assert("prefer-abort-signal-passthrough"@[0] != "redundant-schema-tag-identifier"@[0]);
    assert forall|i: int, j: int| #![trigger s[i], s[j]] 0 <= i < j < s.len() implies s[i].id@ != s[j].id@ by {
        assert(i == 0 || i == 1 || i == 2 || i == 3 || i == 4 || i == 5 || i == 6 || i == 7 || i == 8 || i == 9 || i == 10 || i == 11);
        assert(j == 0 || j == 1 || j == 2 || j == 3 || j == 4 || j == 5 || j == 6 || j == 7 || j == 8 || j == 9 || j == 10 || j == 11);
    }
}

proof fn lemma_chunk_3_distinct()
    ensures
        ids_distinct(chunk_3()),
{
    reveal_strlit("no-unnecessary-fail-of-yieldable");
    reveal_strlit("no-effect-do-notation");
    reveal_strlit("no-orDie-to-silence-errors");
    reveal_strlit("prefer-effect-void");
    reveal_strlit("prefer-as-void");
    reveal_strlit("prefer-flatmap-over-map-flatten");
    reveal_strlit("no-unnecessary-pipe");
    reveal_strlit("prefer-catch-tag");
    reveal_strlit("catch-to-map-error");
    reveal_strlit("prefer-clock-service");
    reveal_strlit("prefer-random-service");
    reveal_strlit("prefer-effect-logging");
    reveal(chunk_3);
    let s = chunk_3();
    assert(s[0].id@ == "no-unnecessary-fail-of-yieldable"@);
    assert(s[1].id@ == "no-effect-do-notation"@);
    assert(s[2].id@ == "no-orDie-to-silence-errors"@);
    assert(s[3].id@ == "prefer-effect-void"@);
    assert(s[4].id@ == "prefer-as-void"@);
    assert(s[5].id@ == "prefer-flatmap-over-map-flatten"@);
    assert(s[6].id@ == "no-unnecessary-pipe"@);
    assert(s[7].id@ == "prefer-catch-tag"@);
    assert(s[8].id@ == "catch-to-map-error"@);
    assert(s[9].id@ == "prefer-clock-service"@);
    assert(s[10].id@ == "prefer-random-service"@);
    assert(s[11].id@ == "prefer-effect-logging"@);
    assert("no-effect-do-notation"@[0] != "prefer-random-service"@[0]);
    assert("no-effect-do-notation"@[0] != "prefer-effect-logging"@[0]);
    assert("prefer-effect-void"@[0] != "catch-to-map-error"@[0]);
    assert("prefer-random-service"@[7] != "prefer-effect-logging"@[7]);
    assert forall|i: int, j: int| #![trigger s[i], s[j]] 0 <= i < j < s.len() implies s[i].id@ != s[j].id@ by {
        assert(i == 0 || i == 1 || i == 2 || i == 3 || i == 4 || i == 5 || i == 6 || i == 7 || i == 8 || i == 9 || i == 10 || i == 11);
        assert(j == 0 || j == 1 || j == 2 || j == 3 || j == 4 || j == 5 || j == 6 || j == 7 || j == 8 || j == 9 || j == 10 || j == 11);
    }
}

proof fn lemma_chunk_4_distinct()
    ensures
        ids_distinct(chunk_4()),
{
    reveal_strlit("prefer-effect-timers");
    reveal_strlit("prefer-platform-fetch");
    reveal_strlit("prefer-config-module");
    reveal_strlit("prefer-schema-over-json");
    reveal_strlit("prefer-effect-fn");
    reveal_strlit("prefer-tagged-error-classes");
    reveal_strlit("prefer-decode-effect");
    reveal_strlit("hoist-schema-codecs");
    reveal_strlit("meaningful-span-names");
    reveal_strlit("prefer-node-effect-counterparts");
    reveal_strlit("prefer-it-effect");
    reveal_strlit("no-chained-provides");
    reveal(chunk_4);
    let s = chunk_4();
    assert(s[0].id@ == "prefer-effect-timers"@);
    assert(s[1].id@ == "prefer-platform-fetch"@);
    assert(s[2].id@ == "prefer-config-module"@);
    assert(s[3].id@ == "prefer-schema-over-json"@);
    assert(s[4].id@ == "prefer-effect-fn"@);
    assert(s[5].id@ == "prefer-tagged-error-classes"@);
    assert(s[6].id@ == "prefer-decode-effect"@);
    assert(s[7].id@ == "hoist-schema-codecs"@);
    assert(s[8].id@ == "meaningful-span-names"@);
    assert(s[9].id@ == "prefer-node-effect-counterparts"@);
    assert(s[10].id@ == "prefer-it-effect"@);
    assert(s[11].id@ == "no-chained-provides"@);
    assert("prefer-effect-timers"@[7] != "prefer-config-module"@[7]);
    assert("prefer-effect-timers"@[7] != "prefer-decode-effect"@[7]);
    assert("prefer-platform-fetch"@[0] != "meaningful-span-names"@[0]);
    assert("prefer-config-module"@[7] != "prefer-decode-effect"@[7]);
    assert("prefer-effect-fn"@[7] != "prefer-it-effect"@[7]);
    assert("hoist-schema-codecs"@[0] != "no-chained-provides"@[0]);
    assert forall|i: int, j: int| #![trigger s[i], s[j]] 0 <= i < j < s.len() implies s[i].id@ != s[j].id@ by {
        assert(i == 0 || i == 1 || i == 2 || i == 3 || i == 4 || i == 5 || i == 6 || i == 7 || i == 8 || i == 9 || i == 10 || i == 11);
        assert(j == 0 || j == 1 || j == 2 || j == 3 || j == 4 || j == 5 || j == 6 || j == 7 || j == 8 || j == 9 || j == 10 || j == 11);
    }
}

proof fn lemma_chunk_5_distinct()
    ensures
        ids_distinct(chunk_5()),
{
    reveal_strlit("no-manual-sql-transactions");
    reveal_strlit("retry-only-retryable");
    reveal_strlit("add-jitter-to-backoff");
    reveal_strlit("cap-exponential-backoff");
    reveal_strlit("no-unbounded-concurrency");
    reveal_strlit("adopt-async-function");
    reveal_strlit("adopt-promise-chain");
    reveal_strlit("adopt-new-promise");
    reveal_strlit("adopt-promise-all");
    reveal_strlit("adopt-await-in-loop");
    reveal_strlit("prefer-foreach-over-yield-loop");
    reveal_strlit("agent-no-if-else-chain");
    reveal(chunk_5);
    let s = chunk_5();
    assert(s[0].id@ == "no-manual-sql-transactions"@);
    assert(s[1].id@ == "retry-only-retryable"@);
    assert(s[2].id@ == "add-jitter-to-backoff"@);
    assert(s[3].id@ == "cap-exponential-backoff"@);
    assert(s[4].id@ == "no-unbounded-concurrency"@);
    assert(s[5].id@ == "adopt-async-function"@);
    assert(s[6].id@ == "adopt-promise-chain"@);
    assert(s[7].id@ == "adopt-new-promise"@);
    assert(s[8].id@ == "adopt-promise-all"@);
    assert(s[9].id@ == "adopt-await-in-loop"@);
    assert(s[10].id@ == "prefer-foreach-over-yield-loop"@);
    assert(s[11].id@ == "agent-no-if-else-chain"@);
    assert("retry-only-retryable"@[0] != "adopt-async-function"@[0]);
    assert("adopt-promise-chain"@[6] != "adopt-await-in-loop"@[6]);
    assert("adopt-new-promise"@[6] != "adopt-promise-all"@[6]);
    assert forall|i: int, j: int| #![trigger s[i], s[j]] 0 <= i < j < s.len() implies s[i].id@ != s[j].id@ by {
        assert(i == 0 || i == 1 || i == 2 || i == 3 || i == 4 || i == 5 || i == 6 || i == 7 || i == 8 || i == 9 || i == 10 || i == 11);
        assert(j == 0 || j == 1 || j == 2 || j == 3 || j == 4 || j == 5 || j == 6 || j == 7 || j == 8 || j == 9 || j == 10 || j == 11);
    }
}

proof fn lemma_chunk_6_distinct()
    ensures
        ids_distinct(chunk_6()),
{
    reveal_strlit("agent-no-ternary");
    reveal_strlit("agent-no-string-equality-guard");
    reveal_strlit("agent-no-raw-loop");
    reveal_strlit("agent-no-let");
    reveal_strlit("agent-no-mutation");
    reveal_strlit("agent-no-inline-import");
    reveal_strlit("agent-no-any");
    reveal_strlit("agent-no-import-alias");
    reveal_strlit("agent-no-namespace-import");
    reveal_strlit("agent-no-try-catch");
    reveal_strlit("agent-no-as-cast");
    reveal_strlit("agent-no-unbounded-promise-all");
    reveal(chunk_6);
    let s = chunk_6();
    assert(s[0].id@ == "agent-no-ternary"@);
    assert(s[1].id@ == "agent-no-string-equality-guard"@);
    assert(s[2].id@ == "agent-no-raw-loop"@);
    assert(s[3].id@ == "agent-no-let"@);
    assert(s[4].id@ == "agent-no-mutation"@);
    assert(s[5].id@ == "agent-no-inline-import"@);
    assert(s[6].id@ == "agent-no-any"@);
    assert(s[7].id@ == "agent-no-import-alias"@);
    assert(s[8].id@ == "agent-no-namespace-import"@);
    assert(s[9].id@ == "agent-no-try-catch"@);
    assert(s[10].id@ == "agent-no-as-cast"@);
    assert(s[11].id@ == "agent-no-unbounded-promise-all"@);
    assert("agent-no-ternary"@[9] != "agent-no-as-cast"@[9]);
    assert("agent-no-string-equality-guard"@[9] != "agent-no-unbounded-promise-all"@[9]);
    assert("agent-no-raw-loop"@[9] != "agent-no-mutation"@[9]);
    assert("agent-no-let"@[9] != "agent-no-any"@[9]);
    assert forall|i: int, j: int| #![trigger s[i], s[j]] 0 <= i < j < s.len() implies s[i].id@ != s[j].id@ by {
        assert(i == 0 || i == 1 || i == 2 || i == 3 || i == 4 || i == 5 || i == 6 || i == 7 || i == 8 || i == 9 || i == 10 || i == 11);
        assert(j == 0 || j == 1 || j == 2 || j == 3 || j == 4 || j == 5 || j == 6 || j == 7 || j == 8 || j == 9 || j == 10 || j == 11);
    }
}

proof fn lemma_chunk_7_distinct()
    ensures
        ids_distinct(chunk_7()),
{
    reveal_strlit("agent-no-loose-equality");
    reveal_strlit("agent-no-non-null-assertion");
    reveal_strlit("agent-no-enum");
    reveal_strlit("agent-prefer-safe-parse");
    reveal_strlit("agent-no-inline-type-import");
    reveal_strlit("agent-no-ts-namespace");
    reveal_strlit("agent-no-throw");
    reveal_strlit("agent-no-delete");
    reveal_strlit("agent-deep-nesting");
    reveal_strlit("agent-high-complexity");
    reveal_strlit("agent-too-many-params");
    reveal_strlit("agent-deep-relative-import");
    reveal(chunk_7);
    let s = chunk_7();
    assert(s[0].id@ == "agent-no-loose-equality"@);
    assert(s[1].id@ == "agent-no-non-null-assertion"@);
    assert(s[2].id@ == "agent-no-enum"@);
    assert(s[3].id@ == "agent-prefer-safe-parse"@);
    assert(s[4].id@ == "agent-no-inline-type-import"@);
    assert(s[5].id@ == "agent-no-ts-namespace"@);
    assert(s[6].id@ == "agent-no-throw"@);
    assert(s[7].id@ == "agent-no-delete"@);
    assert(s[8].id@ == "agent-deep-nesting"@);
    assert(s[9].id@ == "agent-high-complexity"@);
    assert(s[10].id@ == "agent-too-many-params"@);
    assert(s[11].id@ == "agent-deep-relative-import"@);
    assert("agent-no-loose-equality"@[6] != "agent-prefer-safe-parse"@[6]);
    assert("agent-no-non-null-assertion"@[9] != "agent-no-inline-type-import"@[9]);
    assert("agent-no-ts-namespace"@[6] != "agent-high-complexity"@[6]);
    assert("agent-no-ts-namespace"@[6] != "agent-too-many-params"@[6]);
    assert("agent-high-complexity"@[6] != "agent-too-many-params"@[6]);
    assert forall|i: int, j: int| #![trigger s[i], s[j]] 0 <= i < j < s.len() implies s[i].id@ != s[j].id@ by {
        assert(i == 0 || i == 1 || i == 2 || i == 3 || i == 4 || i == 5 || i == 6 || i == 7 || i == 8 || i == 9 || i == 10 || i == 11);
        assert(j == 0 || j == 1 || j == 2 || j == 3 || j == 4 || j == 5 || j == 6 || j == 7 || j == 8 || j == 9 || j == 10 || j == 11);
    }
}

proof fn lemma_chunk_8_distinct()
    ensures
        ids_distinct(chunk_8()),
{
    reveal_strlit("agent-duplicate-function");
    reveal_strlit("oop-singleton-to-layer");
    reveal_strlit("oop-observer-to-pubsub");
    reveal_strlit("oop-strategy-to-function");
    reveal_strlit("oop-visitor-to-match");
    reveal_strlit("oop-chain-to-catchtag");
    reveal_strlit("max-function-parameters");
    reveal_strlit("max-nesting-depth");
    reveal_strlit("high-cognitive-complexity");
    reveal_strlit("agent-no-default-export");
    reveal_strlit("agent-duplicate-cross-file");
    reveal_strlit("agent-near-duplicate-function");
    reveal(chunk_8);
    let s = chunk_8();
    assert(s[0].id@ == "agent-duplicate-function"@);
    assert(s[1].id@ == "oop-singleton-to-layer"@);
    assert(s[2].id@ == "oop-observer-to-pubsub"@);
    assert(s[3].id@ == "oop-strategy-to-function"@);
    assert(s[4].id@ == "oop-visitor-to-match"@);
    assert(s[5].id@ == "oop-chain-to-catchtag"@);
    assert(s[6].id@ == "max-function-parameters"@);
    assert(s[7].id@ == "max-nesting-depth"@);
    assert(s[8].id@ == "high-cognitive-complexity"@);
    assert(s[9].id@ == "agent-no-default-export"@);
    assert(s[10].id@ == "agent-duplicate-cross-file"@);
    assert(s[11].id@ == "agent-near-duplicate-function"@);
    assert("agent-duplicate-function"@[0] != "oop-strategy-to-function"@[0]);
    assert("oop-singleton-to-layer"@[4] != "oop-observer-to-pubsub"@[4]);
    assert("max-function-parameters"@[0] != "agent-no-default-export"@[0]);
    assert forall|i: int, j: int| #![trigger s[i], s[j]] 0 <= i < j < s.len() implies s[i].id@ != s[j].id@ by {
        assert(i == 0 || i == 1 || i == 2 || i == 3 || i == 4 || i == 5 || i == 6 || i == 7 || i == 8 || i == 9 || i == 10 || i == 11);
        assert(j == 0 || j == 1 || j == 2 || j == 3 || j == 4 || j == 5 || j == 6 || j == 7 || j == 8 || j == 9 || j == 10 || j == 11);
    }
}

proof fn lemma_chunk_9_distinct()
    ensures
        ids_distinct(chunk_9()),
{
    reveal_strlit("agent-similar-function-name");
    reveal_strlit("agent-similar-shape");
    reveal_strlit("agent-circular-import");
    reveal(chunk_9);
    let s = chunk_9();
    assert(s[0].id@ == "agent-similar-function-name"@);
    assert(s[1].id@ == "agent-similar-shape"@);
    assert(s[2].id@ == "agent-circular-import"@);
    assert forall|i: int, j: int| #![trigger s[i], s[j]] 0 <= i < j < s.len() implies s[i].id@ != s[j].id@ by {
        assert(i == 0 || i == 1 || i == 2);
        assert(j == 0 || j == 1 || j == 2);
    }
}

proof fn lemma_apart_0_1()
    ensures
        ids_apart(chunk_0(), chunk_1()),
{
    reveal_strlit("require-yield-star");
    reveal_strlit("no-try-catch-in-gen");
    reveal_strlit("no-try-finally-in-gen");
    reveal_strlit("no-throw-in-effect");
    reveal_strlit("no-run-inside-effect");
    reveal_strlit("schema-class-self-mismatch");
    reveal_strlit("no-constructor-override-in-schema-class");
    reveal_strlit("no-async-callback-in-effect-combinators");
    reveal_strlit("no-then-in-sync");
    reveal_strlit("no-promise-all-in-effect");
    reveal_strlit("require-typed-catch-in-try");
    reveal_strlit("no-runsync-on-async-effect");
    reveal_strlit("no-map-returning-effect");
    reveal_strlit("no-object-literal-comparison");
    reveal_strlit("no-tag-string-comparison");
    reveal_strlit("prefer-match-over-tag-switch");
    reveal_strlit("no-string-errors");
    reveal_strlit("no-catchall-to-null");
    reveal_strlit("effect-all-missing-concurrency");
    reveal_strlit("prefer-timeout-over-race-sleep");
    reveal_strlit("no-fork-then-immediate-join");
    reveal_strlit("prefer-duration-over-raw-millis");
    reveal_strlit("prefer-succeed-over-sync-literal");
    reveal_strlit("prefer-config-redacted");
    reveal(chunk_0);
    reveal(chunk_1);
    let a = chunk_0();
    let b = chunk_1();
    assert(a[0].id@ == "require-yield-star"@);
    assert(a[1].id@ == "no-try-catch-in-gen"@);
    assert(a[2].id@ == "no-try-finally-in-gen"@);
    assert(a[3].id@ == "no-throw-in-effect"@);
    assert(a[4].id@ == "no-run-inside-effect"@);
    assert(a[5].id@ == "schema-class-self-mismatch"@);
    assert(a[6].id@ == "no-constructor-override-in-schema-class"@);
    assert(a[7].id@ == "no-async-callback-in-effect-combinators"@);
    assert(a[8].id@ == "no-then-in-sync"@);
    assert(a[9].id@ == "no-promise-all-in-effect"@);
    assert(a[10].id@ == "require-typed-catch-in-try"@);
    assert(a[11].id@ == "no-runsync-on-async-effect"@);
    assert(b[0].id@ == "no-map-returning-effect"@);
    assert(b[1].id@ == "no-object-literal-comparison"@);
    assert(b[2].id@ == "no-tag-string-comparison"@);
    assert(b[3].id@ == "prefer-match-over-tag-switch"@);
    assert(b[4].id@ == "no-string-errors"@);
    assert(b[5].id@ == "no-catchall-to-null"@);
    assert(b[6].id@ == "effect-all-missing-concurrency"@);
    assert(b[7].id@ == "prefer-timeout-over-race-sleep"@);
    assert(b[8].id@ == "no-fork-then-immediate-join"@);
    assert(b[9].id@ == "prefer-duration-over-raw-millis"@);
    assert(b[10].id@ == "prefer-succeed-over-sync-literal"@);
    assert(b[11].id@ == "prefer-config-redacted"@);
    assert("no-try-catch-in-gen"@[3] != "no-catchall-to-null"@[3]);
    assert("no-promise-all-in-effect"@[3] != "no-tag-string-comparison"@[3]);
    assert forall|i: int, j: int| #![trigger a[i], b[j]] 0 <= i < a.len() && 0 <= j < b.len() implies a[i].id@ != b[j].id@ by {
        assert(i == 0 || i == 1 || i == 2 || i == 3 || i == 4 || i == 5 || i == 6 || i == 7 || i == 8 || i == 9 || i == 10 || i == 11);
        assert(j == 0 || j == 1 || j == 2 || j == 3 || j == 4 || j == 5 || j == 6 || j == 7 || j == 8 || j == 9 || j == 10 || j == 11);
    }
}

proof fn lemma_apart_0_2()
    ensures
        ids_apart(chunk_0(), chunk_2()),
{
    reveal_strlit("require-yield-star");
    reveal_strlit("no-try-catch-in-gen");
    reveal_strlit("no-try-finally-in-gen");
    reveal_strlit("no-throw-in-effect");
    reveal_strlit("no-run-inside-effect");
    reveal_strlit("schema-class-self-mismatch");
    reveal_strlit("no-constructor-override-in-schema-class");
    reveal_strlit("no-async-callback-in-effect-combinators");
    reveal_strlit("no-then-in-sync");
    reveal_strlit("no-promise-all-in-effect");
    reveal_strlit("require-typed-catch-in-try");
    reveal_strlit("no-runsync-on-async-effect");
    reveal_strlit("prefer-structured-logging-args");
    reveal_strlit("prefer-json-response-helper");
    reveal_strlit("prefer-abort-signal-passthrough");
    reveal_strlit("prefer-gen-over-nested-flatmap");
    reveal_strlit("avoid-long-combinator-chains");
    reveal_strlit("no-layer-mergeall-megalist");
    reveal_strlit("no-nested-gen-yield");
    reveal_strlit("no-effect-fn-iife");
    reveal_strlit("no-unnecessary-pipe-chain");
    reveal_strlit("no-return-effect-in-gen");
    reveal_strlit("redundant-schema-tag-identifier");
    reveal_strlit("no-unnecessary-gen");
    reveal(chunk_0);
    reveal(chunk_2);
    let a = chunk_0();
    let b = chunk_2();
    assert(a[0].id@ == "require-yield-star"@);
    assert(a[1].id@ == "no-try-catch-in-gen"@);
    assert(a[2].id@ == "no-try-finally-in-gen"@);
    assert(a[3].id@ == "no-throw-in-effect"@);
    assert(a[4].id@ == "no-run-inside-effect"@);
    assert(a[5].id@ == "schema-class-self-mismatch"@);
    assert(a[6].id@ == "no-constructor-override-in-schema-class"@);
    assert(a[7].id@ == "no-async-callback-in-effect-combinators"@);
    assert(a[8].id@ == "no-then-in-sync"@);
    assert(a[9].id@ == "no-promise-all-in-effect"@);
    assert(a[10].id@ == "require-typed-catch-in-try"@);
    assert(a[11].id@ == "no-runsync-on-async-effect"@);
    assert(b[0].id@ == "prefer-structured-logging-args"@);
    assert(b[1].id@ == "prefer-json-response-helper"@);
    assert(b[2].id@ == "prefer-abort-signal-passthrough"@);
    assert(b[3].id@ == "prefer-gen-over-nested-flatmap"@);
    assert(b[4].id@ == "avoid-long-combinator-chains"@);
    assert(b[5].id@ == "no-layer-mergeall-megalist"@);
    assert(b[6].id@ == "no-nested-gen-yield"@);
    assert(b[7].id@ == "no-effect-fn-iife"@);
    assert(b[8].id@ == "no-unnecessary-pipe-chain"@);
    assert(b[9].id@ == "no-return-effect-in-gen"@);
    assert(b[10].id@ == "redundant-schema-tag-identifier"@);
    assert(b[11].id@ == "no-unnecessary-gen"@);
    assert("require-yield-star"@[0] != "no-unnecessary-gen"@[0]);
    assert("no-try-catch-in-gen"@[3] != "no-nested-gen-yield"@[3]);
    assert("no-throw-in-effect"@[3] != "no-unnecessary-gen"@[3]);
    assert("schema-class-self-mismatch"@[0] != "no-layer-mergeall-megalist"@[0]);
    assert("require-typed-catch-in-try"@[0] != "no-layer-mergeall-megalist"@[0]);
    assert("no-runsync-on-async-effect"@[3] != "no-layer-mergeall-megalist"@[3]);
    assert forall|i: int, j: int| #![trigger a[i], b[j]] 0 <= i < a.len() && 0 <= j < b.len() implies a[i].id@ != b[j].id@ by {
        assert(i == 0 || i == 1 || i == 2 || i == 3 || i == 4 || i == 5 || i == 6 || i == 7 || i == 8 || i == 9 || i == 10 || i == 11);
        assert(j == 0 || j == 1 || j == 2 || j == 3 || j == 4 || j == 5 || j == 6 || j == 7 || j == 8 || j == 9 || j == 10 || j == 11);
    }
}

proof fn lemma_apart_0_3()
    ensures
        ids_apart(chunk_0(), chunk_3()),
{
    reveal_strlit("require-yield-star");
    reveal_strlit("no-try-catch-in-gen");
    reveal_strlit("no-try-finally-in-gen");
    reveal_strlit("no-throw-in-effect");
    reveal_strlit("no-run-inside-effect");
    reveal_strlit("schema-class-self-mismatch");
    reveal_strlit("no-constructor-override-in-schema-class");
    reveal_strlit("no-async-callback-in-effect-combinators");
    reveal_strlit("no-then-in-sync");
    reveal_strlit("no-promise-all-in-effect");
    reveal_strlit("require-typed-catch-in-try");
    reveal_strlit("no-runsync-on-async-effect");
    reveal_strlit("no-unnecessary-fail-of-yieldable");
    reveal_strlit("no-effect-do-notation");
    reveal_strlit("no-orDie-to-silence-errors");
    reveal_strlit("prefer-effect-void");
    reveal_strlit("prefer-as-void");
    reveal_strlit("prefer-flatmap-over-map-flatten");
    reveal_strlit("no-unnecessary-pipe");
    reveal_strlit("prefer-catch-tag");
    reveal_strlit("catch-to-map-error");
    reveal_strlit("prefer-clock-service");
    reveal_strlit("prefer-random-service");
    reveal_strlit("prefer-effect-logging");
    reveal(chunk_0);
    reveal(chunk_3);
    let a = chunk_0();
    let b = chunk_3();
    assert(a[0].id@ == "require-yield-star"@);
    assert(a[1].id@ == "no-try-catch-in-gen"@);
    assert(a[2].id@ == "no-try-finally-in-gen"@);
    assert(a[3].id@ == "no-throw-in-effect"@);
    assert(a[4].id@ == "no-run-inside-effect"@);
    assert(a[5].id@ == "schema-class-self-mismatch"@);
    assert(a[6].id@ == "no-constructor-override-in-schema-class"@);
    assert(a[7].id@ == "no-async-callback-in-effect-combinators"@);
    assert(a[8].id@ == "no-then-in-sync"@);
    assert(a[9].id@ == "no-promise-all-in-effect"@);
    assert(a[10].id@ == "require-typed-catch-in-try"@);
    assert(a[11].id@ == "no-runsync-on-async-effect"@);
    assert(b[0].id@ == "no-unnecessary-fail-of-yieldable"@);
    assert(b[1].id@ == "no-effect-do-notation"@);
    assert(b[2].id@ == "no-orDie-to-silence-errors"@);
    assert(b[3].id@ == "prefer-effect-void"@);
    assert(b[4].id@ == "prefer-as-void"@);
    assert(b[5].id@ == "prefer-flatmap-over-map-flatten"@);
    assert(b[6].id@ == "no-unnecessary-pipe"@);
    assert(b[7].id@ == "prefer-catch-tag"@);
    assert(b[8].id@ == "catch-to-map-error"@);
    assert(b[9].id@ == "prefer-clock-service"@);
    assert(b[10].id@ == "prefer-random-service"@);
    assert(b[11].id@ == "prefer-effect-logging"@);
    assert("require-yield-star"@[0] != "prefer-effect-void"@[0]);
    assert("require-yield-star"@[0] != "catch-to-map-error"@[0]);
    assert("no-try-catch-in-gen"@[3] != "no-unnecessary-pipe"@[3]);
    assert("no-try-finally-in-gen"@[3] != "no-effect-do-notation"@[3]);
    assert("no-try-finally-in-gen"@[0] != "prefer-random-service"@[0]);
    assert("no-try-finally-in-gen"@[0] != "prefer-effect-logging"@[0]);
    assert("no-throw-in-effect"@[0] != "prefer-effect-void"@[0]);
    assert("no-throw-in-effect"@[0] != "catch-to-map-error"@[0]);
    assert("no-run-inside-effect"@[0] != "prefer-clock-service"@[0]);
    assert("schema-class-self-mismatch"@[0] != "no-orDie-to-silence-errors"@[0]);
    assert("require-typed-catch-in-try"@[0] != "no-orDie-to-silence-errors"@[0]);
    assert("no-runsync-on-async-effect"@[3] != "no-orDie-to-silence-errors"@[3]);
    assert forall|i: int, j: int| #![trigger a[i], b[j]] 0 <= i < a.len() && 0 <= j < b.len() implies a[i].id@ != b[j].id@ by {
        assert(i == 0 || i == 1 || i == 2 || i == 3 || i == 4 || i == 5 || i == 6 || i == 7 || i == 8 || i == 9 || i == 10 || i == 11);
        assert(j == 0 || j == 1 || j == 2 || j == 3 || j == 4 || j == 5 || j == 6 || j == 7 || j == 8 || j == 9 || j == 10 || j == 11);
    }
}

proof fn lemma_apart_0_4()
    ensures
        ids_apart(chunk_0(), chunk_4()),
{
    reveal_strlit("require-yield-star");
    reveal_strlit("no-try-catch-in-gen");
    reveal_strlit("no-try-finally-in-gen");
    reveal_strlit("no-throw-in-effect");
    reveal_strlit("no-run-inside-effect");
    reveal_strlit("schema-class-self-mismatch");
    reveal_strlit("no-constructor-override-in-schema-class");
    reveal_strlit("no-async-callback-in-effect-combinators");
    reveal_strlit("no-then-in-sync");
    reveal_strlit("no-promise-all-in-effect");
    reveal_strlit("require-typed-catch-in-try");
    reveal_strlit("no-runsync-on-async-effect");
    reveal_strlit("prefer-effect-timers");
    reveal_strlit("prefer-platform-fetch");
    reveal_strlit("prefer-config-module");
    reveal_strlit("prefer-schema-over-json");
    reveal_strlit("prefer-effect-fn");
    reveal_strlit("prefer-tagged-error-classes");
    reveal_strlit("prefer-decode-effect");
    reveal_strlit("hoist-schema-codecs");
    reveal_strlit("meaningful-span-names");
    reveal_strlit("prefer-node-effect-counterparts");
    reveal_strlit("prefer-it-effect");
    reveal_strlit("no-chained-provides");
    reveal(chunk_0);
    reveal(chunk_4);
    let a = chunk_0();
    let b = chunk_4();
    assert(a[0].id@ == "require-yield-star"@);
    assert(a[1].id@ == "no-try-catch-in-gen"@);
    assert(a[2].id@ == "no-try-finally-in-gen"@);
    assert(a[3].id@ == "no-throw-in-effect"@);
    assert(a[4].id@ == "no-run-inside-effect"@);
    assert(a[5].id@ == "schema-class-self-mismatch"@);
    assert(a[6].id@ == "no-constructor-override-in-schema-class"@);
    assert(a[7].id@ == "no-async-callback-in-effect-combinators"@);
    assert(a[8].id@ == "no-then-in-sync"@);
    assert(a[9].id@ == "no-promise-all-in-effect"@);
    assert(a[10].id@ == "require-typed-catch-in-try"@);
    assert(a[11].id@ == "no-runsync-on-async-effect"@);
    assert(b[0].id@ == "prefer-effect-timers"@);
    assert(b[1].id@ == "prefer-platform-fetch"@);
    assert(b[2].id@ == "prefer-config-module"@);
    assert(b[3].id@ == "prefer-schema-over-json"@);
    assert(b[4].id@ == "prefer-effect-fn"@);
    assert(b[5].id@ == "prefer-tagged-error-classes"@);
    assert(b[6].id@ == "prefer-decode-effect"@);
    assert(b[7].id@ == "hoist-schema-codecs"@);
    assert(b[8].id@ == "meaningful-span-names"@);
    assert(b[9].id@ == "prefer-node-effect-counterparts"@);
    assert(b[10].id@ == "prefer-it-effect"@);
    assert(b[11].id@ == "no-chained-provides"@);
    assert("no-try-catch-in-gen"@[0] != "hoist-schema-codecs"@[0]);
    assert("no-try-catch-in-gen"@[3] != "no-chained-provides"@[3]);
    assert("no-try-finally-in-gen"@[0] != "prefer-platform-fetch"@[0]);
    assert("no-try-finally-in-gen"@[0] != "meaningful-span-names"@[0]);
    assert("no-run-inside-effect"@[0] != "prefer-effect-timers"@[0]);
    assert("no-run-inside-effect"@[0] != "prefer-config-module"@[0]);
    assert("no-run-inside-effect"@[0] != "prefer-decode-effect"@[0]);
    assert forall|i: int, j: int| #![trigger a[i], b[j]] 0 <= i < a.len() && 0 <= j < b.len() implies a[i].id@ != b[j].id@ by {
        assert(i == 0 || i == 1 || i == 2 || i == 3 || i == 4 || i == 5 || i == 6 || i == 7 || i == 8 || i == 9 || i == 10 || i == 11);
        assert(j == 0 || j == 1 || j == 2 || j == 3 || j == 4 || j == 5 || j == 6 || j == 7 || j == 8 || j == 9 || j == 10 || j == 11);
    }
}

proof fn lemma_apart_0_5()
    ensures
        ids_apart(chunk_0(), chunk_5()),
{
    reveal_strlit("require-yield-star");
    reveal_strlit("no-try-catch-in-gen");
    reveal_strlit("no-try-finally-in-gen");
    reveal_strlit("no-throw-in-effect");
    reveal_strlit("no-run-inside-effect");
    reveal_strlit("schema-class-self-mismatch");
    reveal_strlit("no-constructor-override-in-schema-class");
    reveal_strlit("no-async-callback-in-effect-combinators");
    reveal_strlit("no-then-in-sync");
    reveal_strlit("no-promise-all-in-effect");
    reveal_strlit("require-typed-catch-in-try");
    reveal_strlit("no-runsync-on-async-effect");
    reveal_strlit("no-manual-sql-transactions");
    reveal_strlit("retry-only-retryable");
    reveal_strlit("add-jitter-to-backoff");
    reveal_strlit("cap-exponential-backoff");
    reveal_strlit("no-unbounded-concurrency");
    reveal_strlit("adopt-async-function");
    reveal_strlit("adopt-promise-chain");
    reveal_strlit("adopt-new-promise");
    reveal_strlit("adopt-promise-all");
    reveal_strlit("adopt-await-in-loop");
    reveal_strlit("prefer-foreach-over-yield-loop");
    reveal_strlit("agent-no-if-else-chain");
    reveal(chunk_0);
    reveal(chunk_5);
    let a = chunk_0();
    let b = chunk_5();
    assert(a[0].id@ == "require-yield-star"@);
    assert(a[1].id@ == "no-try-catch-in-gen"@);
    assert(a[2].id@ == "no-try-finally-in-gen"@);
    assert(a[3].id@ == "no-throw-in-effect"@);
    assert(a[4].id@ == "no-run-inside-effect"@);
    assert(a[5].id@ == "schema-class-self-mismatch"@);
    assert(a[6].id@ == "no-constructor-override-in-schema-class"@);
    assert(a[7].id@ == "no-async-callback-in-effect-combinators"@);
    assert(a[8].id@ == "no-then-in-sync"@);
    assert(a[9].id@ == "no-promise-all-in-effect"@);
    assert(a[10].id@ == "require-typed-catch-in-try"@);
    assert(a[11].id@ == "no-runsync-on-async-effect"@);
    assert(b[0].id@ == "no-manual-sql-transactions"@);
    assert(b[1].id@ == "retry-only-retryable"@);
    assert(b[2].id@ == "add-jitter-to-backoff"@);
    assert(b[3].id@ == "cap-exponential-backoff"@);
    assert(b[4].id@ == "no-unbounded-concurrency"@);
    assert(b[5].id@ == "adopt-async-function"@);
    assert(b[6].id@ == "adopt-promise-chain"@);
    assert(b[7].id@ == "adopt-new-promise"@);
    assert(b[8].id@ == "adopt-promise-all"@);
    assert(b[9].id@ == "adopt-await-in-loop"@);
    assert(b[10].id@ == "prefer-foreach-over-yield-loop"@);
    assert(b[11].id@ == "agent-no-if-else-chain"@);
    assert("no-try-catch-in-gen"@[0] != "adopt-promise-chain"@[0]);
    assert("no-try-catch-in-gen"@[0] != "adopt-await-in-loop"@[0]);
    assert("no-try-finally-in-gen"@[0] != "add-jitter-to-backoff"@[0]);
    assert("no-run-inside-effect"@[0] != "retry-only-retryable"@[0]);
    assert("no-run-inside-effect"@[0] != "adopt-async-function"@[0]);
    assert("schema-class-self-mismatch"@[0] != "no-manual-sql-transactions"@[0]);
    assert("no-promise-all-in-effect"@[3] != "no-unbounded-concurrency"@[3]);
    assert("require-typed-catch-in-try"@[0] != "no-manual-sql-transactions"@[0]);
    assert("no-runsync-on-async-effect"@[3] != "no-manual-sql-transactions"@[3]);
    assert forall|i: int, j: int| #![trigger a[i], b[j]] 0 <= i < a.len() && 0 <= j < b.len() implies a[i].id@ != b[j].id@ by {
        assert(i == 0 || i == 1 || i == 2 || i == 3 || i == 4 || i == 5 || i == 6 || i == 7 || i == 8 || i == 9 || i == 10 || i == 11);
        assert(j == 0 || j == 1 || j == 2 || j == 3 || j == 4 || j == 5 || j == 6 || j == 7 || j == 8 || j == 9 || j == 10 || j == 11);
    }
}

proof fn lemma_apart_0_6()
    ensures
        ids_apart(chunk_0(), chunk_6()),
{
    reveal_strlit("require-yield-star");
    reveal_strlit("no-try-catch-in-gen");
    reveal_strlit("no-try-finally-in-gen");
    reveal_strlit("no-throw-in-effect");
    reveal_strlit("no-run-inside-effect");
    reveal_strlit("schema-class-self-mismatch");
    reveal_strlit("no-constructor-override-in-schema-class");
    reveal_strlit("no-async-callback-in-effect-combinators");
    reveal_strlit("no-then-in-sync");
    reveal_strlit("no-promise-all-in-effect");
    reveal_strlit("require-typed-catch-in-try");
    reveal_strlit("no-runsync-on-async-effect");
    reveal_strlit("agent-no-ternary");
    reveal_strlit("agent-no-string-equality-guard");
    reveal_strlit("agent-no-raw-loop");
    reveal_strlit("agent-no-let");
    reveal_strlit("agent-no-mutation");
    reveal_strlit("agent-no-inline-import");
    reveal_strlit("agent-no-any");
    reveal_strlit("agent-no-import-alias");
    reveal_strlit("agent-no-namespace-import");
    reveal_strlit("agent-no-try-catch");
    reveal_strlit("agent-no-as-cast");
    reveal_strlit("agent-no-unbounded-promise-all");
    reveal(chunk_0);
    reveal(chunk_6);
    let a = chunk_0();
    let b = chunk_6();
    assert(a[0].id@ == "require-yield-star"@);
    assert(a[1].id@ == "no-try-catch-in-gen"@);
    assert(a[2].id@ == "no-try-finally-in-gen"@);
    assert(a[3].id@ == "no-throw-in-effect"@);
    assert(a[4].id@ == "no-run-inside-effect"@);
    assert(a[5].id@ == "schema-class-self-mismatch"@);
    assert(a[6].id@ == "no-constructor-override-in-schema-class"@);
    assert(a[7].id@ == "no-async-callback-in-effect-combinators"@);
    assert(a[8].id@ == "no-then-in-sync"@);
    assert(a[9].id@ == "no-promise-all-in-effect"@);
    assert(a[10].id@ == "require-typed-catch-in-try"@);
    assert(a[11].id@ == "no-runsync-on-async-effect"@);
    assert(b[0].id@ == "agent-no-ternary"@);
    assert(b[1].id@ == "agent-no-string-equality-guard"@);
    assert(b[2].id@ == "agent-no-raw-loop"@);
    assert(b[3].id@ == "agent-no-let"@);
    assert(b[4].id@ == "agent-no-mutation"@);
    assert(b[5].id@ == "agent-no-inline-import"@);
    assert(b[6].id@ == "agent-no-any"@);
    assert(b[7].id@ == "agent-no-import-alias"@);
    assert(b[8].id@ == "agent-no-namespace-import"@);
    assert(b[9].id@ == "agent-no-try-catch"@);
    assert(b[10].id@ == "agent-no-as-cast"@);
    assert(b[11].id@ == "agent-no-unbounded-promise-all"@);
    assert("require-yield-star"@[0] != "agent-no-try-catch"@[0]);
    assert("no-try-finally-in-gen"@[0] != "agent-no-import-alias"@[0]);
    assert("no-throw-in-effect"@[0] != "agent-no-try-catch"@[0]);
    assert forall|i: int, j: int| #![trigger a[i], b[j]] 0 <= i < a.len() && 0 <= j < b.len() implies a[i].id@ != b[j].id@ by {
        assert(i == 0 || i == 1 || i == 2 || i == 3 || i == 4 || i == 5 || i == 6 || i == 7 || i == 8 || i == 9 || i == 10 || i == 11);
        assert(j == 0 || j == 1 || j == 2 || j == 3 || j == 4 || j == 5 || j == 6 || j == 7 || j == 8 || j == 9 || j == 10 || j == 11);
    }
}

proof fn lemma_apart_0_7()
    ensures
        ids_apart(chunk_0(), chunk_7()),
{
    reveal_strlit("require-yield-star");
    reveal_strlit("no-try-catch-in-gen");
    reveal_strlit("no-try-finally-in-gen");
    reveal_strlit("no-throw-in-effect");
    reveal_strlit("no-run-inside-effect");
    reveal_strlit("schema-class-self-mismatch");
    reveal_strlit("no-constructor-override-in-schema-class");
    reveal_strlit("no-async-callback-in-effect-combinators");
    reveal_strlit("no-then-in-sync");
    reveal_strlit("no-promise-all-in-effect");
    reveal_strlit("require-typed-catch-in-try");
    reveal_strlit("no-runsync-on-async-effect");
    reveal_strlit("agent-no-loose-equality");
    reveal_strlit("agent-no-non-null-assertion");
    reveal_strlit("agent-no-enum");
    reveal_strlit("agent-prefer-safe-parse");
    reveal_strlit("agent-no-inline-type-import");
    reveal_strlit("agent-no-ts-namespace");
    reveal_strlit("agent-no-throw");
    reveal_strlit("agent-no-delete");
    reveal_strlit("agent-deep-nesting");
    reveal_strlit("agent-high-complexity");
    reveal_strlit("agent-too-many-params");
    reveal_strlit("agent-deep-relative-import");
    reveal(chunk_0);
    reveal(chunk_7);
    let a = chunk_0();
    let b = chunk_7();
    assert(a[0].id@ == "require-yield-star"@);
    assert(a[1].id@ == "no-try-catch-in-gen"@);
    assert(a[2].id@ == "no-try-finally-in-gen"@);
    assert(a[3].id@ == "no-throw-in-effect"@);
    assert(a[4].id@ == "no-run-inside-effect"@);
    assert(a[5].id@ == "schema-class-self-mismatch"@);
    assert(a[6].id@ == "no-constructor-override-in-schema-class"@);
    assert(a[7].id@ == "no-async-callback-in-effect-combinators"@);
    assert(a[8].id@ == "no-then-in-sync"@);
    assert(a[9].id@ == "no-promise-all-in-effect"@);
    assert(a[10].id@ == "require-typed-catch-in-try"@);
    assert(a[11].id@ == "no-runsync-on-async-effect"@);
    assert(b[0].id@ == "agent-no-loose-equality"@);
    assert(b[1].id@ == "agent-no-non-null-assertion"@);
    assert(b[2].id@ == "agent-no-enum"@);
    assert(b[3].id@ == "agent-prefer-safe-parse"@);
    assert(b[4].id@ == "agent-no-inline-type-import"@);
    assert(b[5].id@ == "agent-no-ts-namespace"@);
    assert(b[6].id@ == "agent-no-throw"@);
    assert(b[7].id@ == "agent-no-delete"@);
    assert(b[8].id@ == "agent-deep-nesting"@);
    assert(b[9].id@ == "agent-high-complexity"@);
    assert(b[10].id@ == "agent-too-many-params"@);
    assert(b[11].id@ == "agent-deep-relative-import"@);
    assert("require-yield-star"@[0] != "agent-deep-nesting"@[0]);
    assert("no-try-finally-in-gen"@[0] != "agent-no-ts-namespace"@[0]);
    assert("no-try-finally-in-gen"@[0] != "agent-high-complexity"@[0]);
    assert("no-try-finally-in-gen"@[0] != "agent-too-many-params"@[0]);
    assert("no-throw-in-effect"@[0] != "agent-deep-nesting"@[0]);
    assert("schema-class-self-mismatch"@[0] != "agent-deep-relative-import"@[0]);
    assert("no-then-in-sync"@[0] != "agent-no-delete"@[0]);
    assert("require-typed-catch-in-try"@[0] != "agent-deep-relative-import"@[0]);
    assert("no-runsync-on-async-effect"@[0] != "agent-deep-relative-import"@[0]);
    assert forall|i: int, j: int| #![trigger a[i], b[j]] 0 <= i < a.len() && 0 <= j < b.len() implies a[i].id@ != b[j].id@ by {
        assert(i == 0 || i == 1 || i == 2 || i == 3 || i == 4 || i == 5 || i == 6 || i == 7 || i == 8 || i == 9 || i == 10 || i == 11);
        assert(j == 0 || j == 1 || j == 2 || j == 3 || j == 4 || j == 5 || j == 6 || j == 7 || j == 8 || j == 9 || j == 10 || j == 11);
    }
}

proof fn lemma_apart_0_8()
    ensures
        ids_apart(chunk_0(), chunk_8()),
{
    reveal_strlit("require-yield-star");
    reveal_strlit("no-try-catch-in-gen");
    reveal_strlit("no-try-finally-in-gen");
    reveal_strlit("no-throw-in-effect");
    reveal_strlit("no-run-inside-effect");
    reveal_strlit("schema-class-self-mismatch");
    reveal_strlit("no-constructor-override-in-schema-class");
    reveal_strlit("no-async-callback-in-effect-combinators");
    reveal_strlit("no-then-in-sync");
    reveal_strlit("no-promise-all-in-effect");
    reveal_strlit("require-typed-catch-in-try");
    reveal_strlit("no-runsync-on-async-effect");
    reveal_strlit("agent-duplicate-function");
    reveal_strlit("oop-singleton-to-layer");
    reveal_strlit("oop-observer-to-pubsub");
    reveal_strlit("oop-strategy-to-function");
    reveal_strlit("oop-visitor-to-match");
    reveal_strlit("oop-chain-to-catchtag");
    reveal_strlit("max-function-parameters");
    reveal_strlit("max-nesting-depth");
    reveal_strlit("high-cognitive-complexity");
    reveal_strlit("agent-no-default-export");
    reveal_strlit("agent-duplicate-cross-file");
    reveal_strlit("agent-near-duplicate-function");
    reveal(chunk_0);
    reveal(chunk_8);
    let a = chunk_0();
    let b = chunk_8();
    assert(a[0].id@ == "require-yield-star"@);
    assert(a[1].id@ == "no-try-catch-in-gen"@);
    assert(a[2].id@ == "no-try-finally-in-gen"@);
    assert(a[3].id@ == "no-throw-in-effect"@);
    assert(a[4].id@ == "no-run-inside-effect"@);
    assert(a[5].id@ == "schema-class-self-mismatch"@);
    assert(a[6].id@ == "no-constructor-override-in-schema-class"@);
    assert(a[7].id@ == "no-async-callback-in-effect-combinators"@);
    assert(a[8].id@ == "no-then-in-sync"@);
    assert(a[9].id@ == "no-promise-all-in-effect"@);
    assert(a[10].id@ == "require-typed-catch-in-try"@);
    assert(a[11].id@ == "no-runsync-on-async-effect"@);
    assert(b[0].id@ == "agent-duplicate-function"@);
    assert(b[1].id@ == "oop-singleton-to-layer"@);
    assert(b[2].id@ == "oop-observer-to-pubsub"@);
    assert(b[3].id@ == "oop-strategy-to-function"@);
    assert(b[4].id@ == "oop-visitor-to-match"@);
    assert(b[5].id@ == "oop-chain-to-catchtag"@);
    assert(b[6].id@ == "max-function-parameters"@);
    assert(b[7].id@ == "max-nesting-depth"@);
    assert(b[8].id@ == "high-cognitive-complexity"@);
    assert(b[9].id@ == "agent-no-default-export"@);
    assert(b[10].id@ == "agent-duplicate-cross-file"@);
    assert(b[11].id@ == "agent-near-duplicate-function"@);
    assert("no-try-finally-in-gen"@[0] != "oop-chain-to-catchtag"@[0]);
    assert("no-run-inside-effect"@[0] != "oop-visitor-to-match"@[0]);
    assert("schema-class-self-mismatch"@[0] != "agent-duplicate-cross-file"@[0]);
    assert("no-promise-all-in-effect"@[0] != "agent-duplicate-function"@[0]);
    assert("no-promise-all-in-effect"@[0] != "oop-strategy-to-function"@[0]);
    assert("require-typed-catch-in-try"@[0] != "agent-duplicate-cross-file"@[0]);
    assert("no-runsync-on-async-effect"@[0] != "agent-duplicate-cross-file"@[0]);
    assert forall|i: int, j: int| #![trigger a[i], b[j]] 0 <= i < a.len() && 0 <= j < b.len() implies a[i].id@ != b[j].id@ by {
        assert(i == 0 || i == 1 || i == 2 || i == 3 || i == 4 || i == 5 || i == 6 || i == 7 || i == 8 || i == 9 || i == 10 || i == 11);
        assert(j == 0 || j == 1 || j == 2 || j == 3 || j == 4 || j == 5 || j == 6 || j == 7 || j == 8 || j == 9 || j == 10 || j == 11);
    }
}

proof fn lemma_apart_0_9()
    ensures
        ids_apart(chunk_0(), chunk_9()),
{
    reveal_strlit("require-yield-star");
    reveal_strlit("no-try-catch-in-gen");
    reveal_strlit("no-try-finally-in-gen");
    reveal_strlit("no-throw-in-effect");
    reveal_strlit("no-run-inside-effect");
    reveal_strlit("schema-class-self-mismatch");
    reveal_strlit("no-constructor-override-in-schema-class");
    reveal_strlit("no-async-callback-in-effect-combinators");
    reveal_strlit("no-then-in-sync");
    reveal_strlit("no-promise-all-in-effect");
    reveal_strlit("require-typed-catch-in-try");
    reveal_strlit("no-runsync-on-async-effect");
    reveal_strlit("agent-similar-function-name");
    reveal_strlit("agent-similar-shape");
    reveal_strlit("agent-circular-import");
    reveal(chunk_0);
    reveal(chunk_9);
    let a = chunk_0();
    let b = chunk_9();
    assert(a[0].id@ == "require-yield-star"@);
    assert(a[1].id@ == "no-try-catch-in-gen"@);
    assert(a[2].id@ == "no-try-finally-in-gen"@);
    assert(a[3].id@ == "no-throw-in-effect"@);
    assert(a[4].id@ == "no-run-inside-effect"@);
    assert(a[5].id@ == "schema-class-self-mismatch"@);
    assert(a[6].id@ == "no-constructor-override-in-schema-class"@);
    assert(a[7].id@ == "no-async-callback-in-effect-combinators"@);
    assert(a[8].id@ == "no-then-in-sync"@);
    assert(a[9].id@ == "no-promise-all-in-effect"@);
    assert(a[10].id@ == "require-typed-catch-in-try"@);
    assert(a[11].id@ == "no-runsync-on-async-effect"@);
    assert(b[0].id@ == "agent-similar-function-name"@);
    assert(b[1].id@ == "agent-similar-shape"@);
    assert(b[2].id@ == "agent-circular-import"@);
    assert("no-try-catch-in-gen"@[0] != "agent-similar-shape"@[0]);
    assert("no-try-finally-in-gen"@[0] != "agent-circular-import"@[0]);
    assert forall|i: int, j: int| #![trigger a[i], b[j]] 0 <= i < a.len() && 0 <= j < b.len() implies a[i].id@ != b[j].id@ by {
        assert(i == 0 || i == 1 || i == 2 || i == 3 || i == 4 || i == 5 || i == 6 || i == 7 || i == 8 || i == 9 || i == 10 || i == 11);
        assert(j == 0 || j == 1 || j == 2);
    }
}

proof fn lemma_apart_1_2()
    ensures
        ids_apart(chunk_1(), chunk_2()),
{
    reveal_strlit("no-map-returning-effect");
    reveal_strlit("no-object-literal-comparison");
    reveal_strlit("no-tag-string-comparison");
    reveal_strlit("prefer-match-over-tag-switch");
    reveal_strlit("no-string-errors");
    reveal_strlit("no-catchall-to-null");
    reveal_strlit("effect-all-missing-concurrency");
    reveal_strlit("prefer-timeout-over-race-sleep");
    reveal_strlit("no-fork-then-immediate-join");
    reveal_strlit("prefer-duration-over-raw-millis");
    reveal_strlit("prefer-succeed-over-sync-literal");
    reveal_strlit("prefer-config-redacted");
    reveal_strlit("prefer-structured-logging-args");
    reveal_strlit("prefer-json-response-helper");
    reveal_strlit("prefer-abort-signal-passthrough");
    reveal_strlit("prefer-gen-over-nested-flatmap");
    reveal_strlit("avoid-long-combinator-chains");
    reveal_strlit("no-layer-mergeall-megalist");
    reveal_strlit("no-nested-gen-yield");
    reveal_strlit("no-effect-fn-iife");
    reveal_strlit("no-unnecessary-pipe-chain");
    reveal_strlit("no-return-effect-in-gen");
    reveal_strlit("redundant-schema-tag-identifier");
    reveal_strlit("no-unnecessary-gen");
    reveal(chunk_1);
    reveal(chunk_2);
    let a = chunk_1();
    let b = chunk_2();
    assert(a[0].id@ == "no-map-returning-effect"@);
    assert(a[1].id@ == "no-object-literal-comparison"@);
    assert(a[2].id@ == "no-tag-string-comparison"@);
    assert(a[3].id@ == "prefer-match-over-tag-switch"@);
    assert(a[4].id@ == "no-string-errors"@);
    assert(a[5].id@ == "no-catchall-to-null"@);
    assert(a[6].id@ == "effect-all-missing-concurrency"@);
    assert(a[7].id@ == "prefer-timeout-over-race-sleep"@);
    assert(a[8].id@ == "no-fork-then-immediate-join"@);
    assert(a[9].id@ == "prefer-duration-over-raw-millis"@);
    assert(a[10].id@ == "prefer-succeed-over-sync-literal"@);
    assert(a[11].id@ == "prefer-config-redacted"@);
    assert(b[0].id@ == "prefer-structured-logging-args"@);
    assert(b[1].id@ == "prefer-json-response-helper"@);
    assert(b[2].id@ == "prefer-abort-signal-passthrough"@);
    assert(b[3].id@ == "prefer-gen-over-nested-flatmap"@);
    assert(b[4].id@ == "avoid-long-combinator-chains"@);
    assert(b[5].id@ == "no-layer-mergeall-megalist"@);
    assert(b[6].id@ == "no-nested-gen-yield"@);
    assert(b[7].id@ == "no-effect-fn-iife"@);
    assert(b[8].id@ == "no-unnecessary-pipe-chain"@);
    assert(b[9].id@ == "no-return-effect-in-gen"@);
    assert(b[10].id@ == "redundant-schema-tag-identifier"@);
    assert(b[11].id@ == "no-unnecessary-gen"@);
    assert("no-map-returning-effect"@[3] != "no-return-effect-in-gen"@[3]);
    assert("no-object-literal-comparison"@[0] != "avoid-long-combinator-chains"@[0]);
    assert("prefer-match-over-tag-switch"@[0] != "avoid-long-combinator-chains"@[0]);
    assert("no-catchall-to-null"@[3] != "no-nested-gen-yield"@[3]);
    assert("effect-all-missing-concurrency"@[0] != "prefer-structured-logging-args"@[0]);
    assert("effect-all-missing-concurrency"@[0] != "prefer-gen-over-nested-flatmap"@[0]);
    assert("prefer-timeout-over-race-sleep"@[7] != "prefer-structured-logging-args"@[7]);
    assert("prefer-timeout-over-race-sleep"@[7] != "prefer-gen-over-nested-flatmap"@[7]);
    assert("no-fork-then-immediate-join"@[0] != "prefer-json-response-helper"@[0]);
    assert("prefer-duration-over-raw-millis"@[7] != "prefer-abort-signal-passthrough"@[7]);
    assert("prefer-duration-over-raw-millis"@[0] != "redundant-schema-tag-identifier"@[0]);
    assert forall|i: int, j: int| #![trigger a[i], b[j]] 0 <= i < a.len() && 0 <= j < b.len() implies a[i].id@ != b[j].id@ by {
        assert(i == 0 || i == 1 || i == 2 || i == 3 || i == 4 || i == 5 || i == 6 || i == 7 || i == 8 || i == 9 || i == 10 || i == 11);
        assert(j == 0 || j == 1 || j == 2 || j == 3 || j == 4 || j == 5 || j == 6 || j == 7 || j == 8 || j == 9 || j == 10 || j == 11);
    }
}

proof fn lemma_apart_1_3()
    ensures
        ids_apart(chunk_1(), chunk_3()),
{
    reveal_strlit("no-map-returning-effect");
    reveal_strlit("no-object-literal-comparison");
    reveal_strlit("no-tag-string-comparison");
    reveal_strlit("prefer-match-over-tag-switch");
    reveal_strlit("no-string-errors");
    reveal_strlit("no-catchall-to-null");
    reveal_strlit("effect-all-missing-concurrency");
    reveal_strlit("prefer-timeout-over-race-sleep");
    reveal_strlit("no-fork-then-immediate-join");
    reveal_strlit("prefer-duration-over-raw-millis");
    reveal_strlit("prefer-succeed-over-sync-literal");
    reveal_strlit("prefer-config-redacted");
    reveal_strlit("no-unnecessary-fail-of-yieldable");
    reveal_strlit("no-effect-do-notation");
    reveal_strlit("no-orDie-to-silence-errors");
    reveal_strlit("prefer-effect-void");
    reveal_strlit("prefer-as-void");
    reveal_strlit("prefer-flatmap-over-map-flatten");
    reveal_strlit("no-unnecessary-pipe");
    reveal_strlit("prefer-catch-tag");
    reveal_strlit("catch-to-map-error");
    reveal_strlit("prefer-clock-service");
    reveal_strlit("prefer-random-service");
    reveal_strlit("prefer-effect-logging");
    reveal(chunk_1);
    reveal(chunk_3);
    let a = chunk_1();
    let b = chunk_3();
    assert(a[0].id@ == "no-map-returning-effect"@);
    assert(a[1].id@ == "no-object-literal-comparison"@);
    assert(a[2].id@ == "no-tag-string-comparison"@);
    assert(a[3].id@ == "prefer-match-over-tag-switch"@);
    assert(a[4].id@ == "no-string-errors"@);
    assert(a[5].id@ == "no-catchall-to-null"@);
    assert(a[6].id@ == "effect-all-missing-concurrency"@);
    assert(a[7].id@ == "prefer-timeout-over-race-sleep"@);
    assert(a[8].id@ == "no-fork-then-immediate-join"@);
    assert(a[9].id@ == "prefer-duration-over-raw-millis"@);
    assert(a[10].id@ == "prefer-succeed-over-sync-literal"@);
    assert(a[11].id@ == "prefer-config-redacted"@);
    assert(b[0].id@ == "no-unnecessary-fail-of-yieldable"@);
    assert(b[1].id@ == "no-effect-do-notation"@);
    assert(b[2].id@ == "no-orDie-to-silence-errors"@);
    assert(b[3].id@ == "prefer-effect-void"@);
    assert(b[4].id@ == "prefer-as-void"@);
    assert(b[5].id@ == "prefer-flatmap-over-map-flatten"@);
    assert(b[6].id@ == "no-unnecessary-pipe"@);
    assert(b[7].id@ == "prefer-catch-tag"@);
    assert(b[8].id@ == "catch-to-map-error"@);
    assert(b[9].id@ == "prefer-clock-service"@);
    assert(b[10].id@ == "prefer-random-service"@);
    assert(b[11].id@ == "prefer-effect-logging"@);
    assert("no-string-errors"@[0] != "prefer-catch-tag"@[0]);
    assert("no-catchall-to-null"@[3] != "no-unnecessary-pipe"@[3]);
    assert("prefer-duration-over-raw-millis"@[7] != "prefer-flatmap-over-map-flatten"@[7]);
    assert("prefer-succeed-over-sync-literal"@[0] != "no-unnecessary-fail-of-yieldable"@[0]);
    assert forall|i: int, j: int| #![trigger a[i], b[j]] 0 <= i < a.len() && 0 <= j < b.len() implies a[i].id@ != b[j].id@ by {
        assert(i == 0 || i == 1 || i == 2 || i == 3 || i == 4 || i == 5 || i == 6 || i == 7 || i == 8 || i == 9 || i == 10 || i == 11);
        assert(j == 0 || j == 1 || j == 2 || j == 3 || j == 4 || j == 5 || j == 6 || j == 7 || j == 8 || j == 9 || j == 10 || j == 11);
    }
}

proof fn lemma_apart_1_4()
    ensures
        ids_apart(chunk_1(), chunk_4()),
{
    reveal_strlit("no-map-returning-effect");
    reveal_strlit("no-object-literal-comparison");
    reveal_strlit("no-tag-string-comparison");
    reveal_strlit("prefer-match-over-tag-switch");
    reveal_strlit("no-string-errors");
    reveal_strlit("no-catchall-to-null");
    reveal_strlit("effect-all-missing-concurrency");
    reveal_strlit("prefer-timeout-over-race-sleep");
    reveal_strlit("no-fork-then-immediate-join");
    reveal_strlit("prefer-duration-over-raw-millis");
    reveal_strlit("prefer-succeed-over-sync-literal");
    reveal_strlit("prefer-config-redacted");
    reveal_strlit("prefer-effect-timers");
    reveal_strlit("prefer-platform-fetch");
    reveal_strlit("prefer-config-module");
    reveal_strlit("prefer-schema-over-json");
    reveal_strlit("prefer-effect-fn");
    reveal_strlit("prefer-tagged-error-classes");
    reveal_strlit("prefer-decode-effect");
    reveal_strlit("hoist-schema-codecs");
    reveal_strlit("meaningful-span-names");
    reveal_strlit("prefer-node-effect-counterparts");
    reveal_strlit("prefer-it-effect");
    reveal_strlit("no-chained-provides");
    reveal(chunk_1);
    reveal(chunk_4);
    let a = chunk_1();
    let b = chunk_4();
    assert(a[0].id@ == "no-map-returning-effect"@);
    assert(a[1].id@ == "no-object-literal-comparison"@);
    assert(a[2].id@ == "no-tag-string-comparison"@);
    assert(a[3].id@ == "prefer-match-over-tag-switch"@);
    assert(a[4].id@ == "no-string-errors"@);
    assert(a[5].id@ == "no-catchall-to-null"@);
    assert(a[6].id@ == "effect-all-missing-concurrency"@);
    assert(a[7].id@ == "prefer-timeout-over-race-sleep"@);
    assert(a[8].id@ == "no-fork-then-immediate-join"@);
    assert(a[9].id@ == "prefer-duration-over-raw-millis"@);
    assert(a[10].id@ == "prefer-succeed-over-sync-literal"@);
    assert(a[11].id@ == "prefer-config-redacted"@);
    assert(b[0].id@ == "prefer-effect-timers"@);
    assert(b[1].id@ == "prefer-platform-fetch"@);
    assert(b[2].id@ == "prefer-config-module"@);
    assert(b[3].id@ == "prefer-schema-over-json"@);
    assert(b[4].id@ == "prefer-effect-fn"@);
    assert(b[5].id@ == "prefer-tagged-error-classes"@);
    assert(b[6].id@ == "prefer-decode-effect"@);
    assert(b[7].id@ == "hoist-schema-codecs"@);
    assert(b[8].id@ == "meaningful-span-names"@);
    assert(b[9].id@ == "prefer-node-effect-counterparts"@);
    assert(b[10].id@ == "prefer-it-effect"@);
    assert(b[11].id@ == "no-chained-provides"@);
    assert("no-map-returning-effect"@[0] != "prefer-schema-over-json"@[0]);
    assert("no-string-errors"@[0] != "prefer-effect-fn"@[0]);
    assert("no-string-errors"@[0] != "prefer-it-effect"@[0]);
    assert("no-catchall-to-null"@[0] != "hoist-schema-codecs"@[0]);
    assert("no-catchall-to-null"@[4] != "no-chained-provides"@[4]);
    assert("no-fork-then-immediate-join"@[0] != "prefer-tagged-error-classes"@[0]);
    assert("prefer-duration-over-raw-millis"@[7] != "prefer-node-effect-counterparts"@[7]);
    assert forall|i: int, j: int| #![trigger a[i], b[j]] 0 <= i < a.len() && 0 <= j < b.len() implies a[i].id@ != b[j].id@ by {
        assert(i == 0 || i == 1 || i == 2 || i == 3 || i == 4 || i == 5 || i == 6 || i == 7 || i == 8 || i == 9 || i == 10 || i == 11);
        assert(j == 0 || j == 1 || j == 2 || j == 3 || j == 4 || j == 5 || j == 6 || j == 7 || j == 8 || j == 9 || j == 10 || j == 11);
    }
}

proof fn lemma_apart_1_5()
    ensures
        ids_apart(chunk_1(), chunk_5()),
{
    reveal_strlit("no-map-returning-effect");
    reveal_strlit("no-object-literal-comparison");
    reveal_strlit("no-tag-string-comparison");
    reveal_strlit("prefer-match-over-tag-switch");
    reveal_strlit("no-string-errors");
    reveal_strlit("no-catchall-to-null");
    reveal_strlit("effect-all-missing-concurrency");
    reveal_strlit("prefer-timeout-over-race-sleep");
    reveal_strlit("no-fork-then-immediate-join");
    reveal_strlit("prefer-duration-over-raw-millis");
    reveal_strlit("prefer-succeed-over-sync-literal");
    reveal_strlit("prefer-config-redacted");
    reveal_strlit("no-manual-sql-transactions");
    reveal_strlit("retry-only-retryable");
    reveal_strlit("add-jitter-to-backoff");
    reveal_strlit("cap-exponential-backoff");
    reveal_strlit("no-unbounded-concurrency");
    reveal_strlit("adopt-async-function");
    reveal_strlit("adopt-promise-chain");
    reveal_strlit("adopt-new-promise");
    reveal_strlit("adopt-promise-all");
    reveal_strlit("adopt-await-in-loop");
    reveal_strlit("prefer-foreach-over-yield-loop");
    reveal_strlit("agent-no-if-else-chain");
    reveal(chunk_1);
    reveal(chunk_5);
    let a = chunk_1();
    let b = chunk_5();
    assert(a[0].id@ == "no-map-returning-effect"@);
    assert(a[1].id@ == "no-object-literal-comparison"@);
    assert(a[2].id@ == "no-tag-string-comparison"@);
    assert(a[3].id@ == "prefer-match-over-tag-switch"@);
    assert(a[4].id@ == "no-string-errors"@);
    assert(a[5].id@ == "no-catchall-to-null"@);
    assert(a[6].id@ == "effect-all-missing-concurrency"@);
    assert(a[7].id@ == "prefer-timeout-over-race-sleep"@);
    assert(a[8].id@ == "no-fork-then-immediate-join"@);
    assert(a[9].id@ == "prefer-duration-over-raw-millis"@);
    assert(a[10].id@ == "prefer-succeed-over-sync-literal"@);
    assert(a[11].id@ == "prefer-config-redacted"@);
    assert(b[0].id@ == "no-manual-sql-transactions"@);
    assert(b[1].id@ == "retry-only-retryable"@);
    assert(b[2].id@ == "add-jitter-to-backoff"@);
    assert(b[3].id@ == "cap-exponential-backoff"@);
    assert(b[4].id@ == "no-unbounded-concurrency"@);
    assert(b[5].id@ == "adopt-async-function"@);
    assert(b[6].id@ == "adopt-promise-chain"@);
    assert(b[7].id@ == "adopt-new-promise"@);
    assert(b[8].id@ == "adopt-promise-all"@);
    assert(b[9].id@ == "adopt-await-in-loop"@);
    assert(b[10].id@ == "prefer-foreach-over-yield-loop"@);
    assert(b[11].id@ == "agent-no-if-else-chain"@);
    assert("no-map-returning-effect"@[0] != "cap-exponential-backoff"@[0]);
    assert("no-tag-string-comparison"@[3] != "no-unbounded-concurrency"@[3]);
    assert("no-catchall-to-null"@[0] != "adopt-promise-chain"@[0]);
    assert("no-catchall-to-null"@[0] != "adopt-await-in-loop"@[0]);
    assert("effect-all-missing-concurrency"@[0] != "prefer-foreach-over-yield-loop"@[0]);
    assert("prefer-timeout-over-race-sleep"@[7] != "prefer-foreach-over-yield-loop"@[7]);
    assert("prefer-config-redacted"@[0] != "agent-no-if-else-chain"@[0]);
    assert forall|i: int, j: int| #![trigger a[i], b[j]] 0 <= i < a.len() && 0 <= j < b.len() implies a[i].id@ != b[j].id@ by {
        assert(i == 0 || i == 1 || i == 2 || i == 3 || i == 4 || i == 5 || i == 6 || i == 7 || i == 8 || i == 9 || i == 10 || i == 11);
        assert(j == 0 || j == 1 || j == 2 || j == 3 || j == 4 || j == 5 || j == 6 || j == 7 || j == 8 || j == 9 || j == 10 || j == 11);
    }
}

proof fn lemma_apart_1_6()
    ensures
        ids_apart(chunk_1(), chunk_6()),
{
    reveal_strlit("no-map-returning-effect");
    reveal_strlit("no-object-literal-comparison");
    reveal_strlit("no-tag-string-comparison");
    reveal_strlit("prefer-match-over-tag-switch");
    reveal_strlit("no-string-errors");
    reveal_strlit("no-catchall-to-null");
    reveal_strlit("effect-all-missing-concurrency");
    reveal_strlit("prefer-timeout-over-race-sleep");
    reveal_strlit("no-fork-then-immediate-join");
    reveal_strlit("prefer-duration-over-raw-millis");
    reveal_strlit("prefer-succeed-over-sync-literal");
    reveal_strlit("prefer-config-redacted");
    reveal_strlit("agent-no-ternary");
    reveal_strlit("agent-no-string-equality-guard");
    reveal_strlit("agent-no-raw-loop");
    reveal_strlit("agent-no-let");
    reveal_strlit("agent-no-mutation");
    reveal_strlit("agent-no-inline-import");
    reveal_strlit("agent-no-any");
    reveal_strlit("agent-no-import-alias");
    reveal_strlit("agent-no-namespace-import");
    reveal_strlit("agent-no-try-catch");
    reveal_strlit("agent-no-as-cast");
    reveal_strlit("agent-no-unbounded-promise-all");
    reveal(chunk_1);
    reveal(chunk_6);
    let a = chunk_1();
    let b = chunk_6();
    assert(a[0].id@ == "no-map-returning-effect"@);
    assert(a[1].id@ == "no-object-literal-comparison"@);
    assert(a[2].id@ == "no-tag-string-comparison"@);
    assert(a[3].id@ == "prefer-match-over-tag-switch"@);
    assert(a[4].id@ == "no-string-errors"@);
    assert(a[5].id@ == "no-catchall-to-null"@);
    assert(a[6].id@ == "effect-all-missing-concurrency"@);
    assert(a[7].id@ == "prefer-timeout-over-race-sleep"@);
    assert(a[8].id@ == "no-fork-then-immediate-join"@);
    assert(a[9].id@ == "prefer-duration-over-raw-millis"@);
    assert(a[10].id@ == "prefer-succeed-over-sync-literal"@);
    assert(a[11].id@ == "prefer-config-redacted"@);
    assert(b[0].id@ == "agent-no-ternary"@);
    assert(b[1].id@ == "agent-no-string-equality-guard"@);
    assert(b[2].id@ == "agent-no-raw-loop"@);
    assert(b[3].id@ == "agent-no-let"@);
    assert(b[4].id@ == "agent-no-mutation"@);
    assert(b[5].id@ == "agent-no-inline-import"@);
    assert(b[6].id@ == "agent-no-any"@);
    assert(b[7].id@ == "agent-no-import-alias"@);
    assert(b[8].id@ == "agent-no-namespace-import"@);
    assert(b[9].id@ == "agent-no-try-catch"@);
    assert(b[10].id@ == "agent-no-as-cast"@);
    assert(b[11].id@ == "agent-no-unbounded-promise-all"@);
    assert("no-string-errors"@[0] != "agent-no-ternary"@[0]);
    assert("no-string-errors"@[0] != "agent-no-as-cast"@[0]);
    assert("effect-all-missing-concurrency"@[0] != "agent-no-string-equality-guard"@[0]);
    assert("effect-all-missing-concurrency"@[0] != "agent-no-unbounded-promise-all"@[0]);
    assert("prefer-timeout-over-race-sleep"@[0] != "agent-no-string-equality-guard"@[0]);
    assert("prefer-timeout-over-race-sleep"@[0] != "agent-no-unbounded-promise-all"@[0]);
    assert("prefer-config-redacted"@[0] != "agent-no-inline-import"@[0]);
    assert forall|i: int, j: int| #![trigger a[i], b[j]] 0 <= i < a.len() && 0 <= j < b.len() implies a[i].id@ != b[j].id@ by {
        assert(i == 0 || i == 1 || i == 2 || i == 3 || i == 4 || i == 5 || i == 6 || i == 7 || i == 8 || i == 9 || i == 10 || i == 11);
        assert(j == 0 || j == 1 || j == 2 || j == 3 || j == 4 || j == 5 || j == 6 || j == 7 || j == 8 || j == 9 || j == 10 || j == 11);
    }
}

proof fn lemma_apart_1_7()
    ensures
        ids_apart(chunk_1(), chunk_7()),
{
    reveal_strlit("no-map-returning-effect");
    reveal_strlit("no-object-literal-comparison");
    reveal_strlit("no-tag-string-comparison");
    reveal_strlit("prefer-match-over-tag-switch");
    reveal_strlit("no-string-errors");
    reveal_strlit("no-catchall-to-null");
    reveal_strlit("effect-all-missing-concurrency");
    reveal_strlit("prefer-timeout-over-race-sleep");
    reveal_strlit("no-fork-then-immediate-join");
    reveal_strlit("prefer-duration-over-raw-millis");
    reveal_strlit("prefer-succeed-over-sync-literal");
    reveal_strlit("prefer-config-redacted");
    reveal_strlit("agent-no-loose-equality");
    reveal_strlit("agent-no-non-null-assertion");
    reveal_strlit("agent-no-enum");
    reveal_strlit("agent-prefer-safe-parse");
    reveal_strlit("agent-no-inline-type-import");
    reveal_strlit("agent-no-ts-namespace");
    reveal_strlit("agent-no-throw");
    reveal_strlit("agent-no-delete");
    reveal_strlit("agent-deep-nesting");
    reveal_strlit("agent-high-complexity");
    reveal_strlit("agent-too-many-params");
    reveal_strlit("agent-deep-relative-import");
    reveal(chunk_1);
    reveal(chunk_7);
    let a = chunk_1();
    let b = chunk_7();
    assert(a[0].id@ == "no-map-returning-effect"@);
    assert(a[1].id@ == "no-object-literal-comparison"@);
    assert(a[2].id@ == "no-tag-string-comparison"@);
    assert(a[3].id@ == "prefer-match-over-tag-switch"@);
    assert(a[4].id@ == "no-string-errors"@);
    assert(a[5].id@ == "no-catchall-to-null"@);
    assert(a[6].id@ == "effect-all-missing-concurrency"@);
    assert(a[7].id@ == "prefer-timeout-over-race-sleep"@);
    assert(a[8].id@ == "no-fork-then-immediate-join"@);
    assert(a[9].id@ == "prefer-duration-over-raw-millis"@);
    assert(a[10].id@ == "prefer-succeed-over-sync-literal"@);
    assert(a[11].id@ == "prefer-config-redacted"@);
    assert(b[0].id@ == "agent-no-loose-equality"@);
    assert(b[1].id@ == "agent-no-non-null-assertion"@);
    assert(b[2].id@ == "agent-no-enum"@);
    assert(b[3].id@ == "agent-prefer-safe-parse"@);
    assert(b[4].id@ == "agent-no-inline-type-import"@);
    assert(b[5].id@ == "agent-no-ts-namespace"@);
    assert(b[6].id@ == "agent-no-throw"@);
    assert(b[7].id@ == "agent-no-delete"@);
    assert(b[8].id@ == "agent-deep-nesting"@);
    assert(b[9].id@ == "agent-high-complexity"@);
    assert(b[10].id@ == "agent-too-many-params"@);
    assert(b[11].id@ == "agent-deep-relative-import"@);
    assert("no-map-returning-effect"@[0] != "agent-no-loose-equality"@[0]);
    assert("no-map-returning-effect"@[0] != "agent-prefer-safe-parse"@[0]);
    assert("no-fork-then-immediate-join"@[0] != "agent-no-non-null-assertion"@[0]);
    assert("no-fork-then-immediate-join"@[0] != "agent-no-inline-type-import"@[0]);
    assert forall|i: int, j: int| #![trigger a[i], b[j]] 0 <= i < a.len() && 0 <= j < b.len() implies a[i].id@ != b[j].id@ by {
        assert(i == 0 || i == 1 || i == 2 || i == 3 || i == 4 || i == 5 || i == 6 || i == 7 || i == 8 || i == 9 || i == 10 || i == 11);
        assert(j == 0 || j == 1 || j == 2 || j == 3 || j == 4 || j == 5 || j == 6 || j == 7 || j == 8 || j == 9 || j == 10 || j == 11);
    }
}

proof fn lemma_apart_1_8()
    ensures
        ids_apart(chunk_1(), chunk_8()),
{
    reveal_strlit("no-map-returning-effect");
    reveal_strlit("no-object-literal-comparison");
    reveal_strlit("no-tag-string-comparison");
    reveal_strlit("prefer-match-over-tag-switch");
    reveal_strlit("no-string-errors");
    reveal_strlit("no-catchall-to-null");
    reveal_strlit("effect-all-missing-concurrency");
    reveal_strlit("prefer-timeout-over-race-sleep");
    reveal_strlit("no-fork-then-immediate-join");
    reveal_strlit("prefer-duration-over-raw-millis");
    reveal_strlit("prefer-succeed-over-sync-literal");
    reveal_strlit("prefer-config-redacted");
    reveal_strlit("agent-duplicate-function");
    reveal_strlit("oop-singleton-to-layer");
    reveal_strlit("oop-observer-to-pubsub");
    reveal_strlit("oop-strategy-to-function");
    reveal_strlit("oop-visitor-to-match");
    reveal_strlit("oop-chain-to-catchtag");
    reveal_strlit("max-function-parameters");
    reveal_strlit("max-nesting-depth");
    reveal_strlit("high-cognitive-complexity");
    reveal_strlit("agent-no-default-export");
    reveal_strlit("agent-duplicate-cross-file");
    reveal_strlit("agent-near-duplicate-function");
    reveal(chunk_1);
    reveal(chunk_8);
    let a = chunk_1();
    let b = chunk_8();
    assert(a[0].id@ == "no-map-returning-effect"@);
    assert(a[1].id@ == "no-object-literal-comparison"@);
    assert(a[2].id@ == "no-tag-string-comparison"@);
    assert(a[3].id@ == "prefer-match-over-tag-switch"@);
    assert(a[4].id@ == "no-string-errors"@);
    assert(a[5].id@ == "no-catchall-to-null"@);
    assert(a[6].id@ == "effect-all-missing-concurrency"@);
    assert(a[7].id@ == "prefer-timeout-over-race-sleep"@);
    assert(a[8].id@ == "no-fork-then-immediate-join"@);
    assert(a[9].id@ == "prefer-duration-over-raw-millis"@);
    assert(a[10].id@ == "prefer-succeed-over-sync-literal"@);
    assert(a[11].id@ == "prefer-config-redacted"@);
    assert(b[0].id@ == "agent-duplicate-function"@);
    assert(b[1].id@ == "oop-singleton-to-layer"@);
    assert(b[2].id@ == "oop-observer-to-pubsub"@);
    assert(b[3].id@ == "oop-strategy-to-function"@);
    assert(b[4].id@ == "oop-visitor-to-match"@);
    assert(b[5].id@ == "oop-chain-to-catchtag"@);
    assert(b[6].id@ == "max-function-parameters"@);
    assert(b[7].id@ == "max-nesting-depth"@);
    assert(b[8].id@ == "high-cognitive-complexity"@);
    assert(b[9].id@ == "agent-no-default-export"@);
    assert(b[10].id@ == "agent-duplicate-cross-file"@);
    assert(b[11].id@ == "agent-near-duplicate-function"@);
    assert("no-map-returning-effect"@[0] != "max-function-parameters"@[0]);
    assert("no-map-returning-effect"@[0] != "agent-no-default-export"@[0]);
    assert("no-tag-string-comparison"@[0] != "agent-duplicate-function"@[0]);
    assert("no-tag-string-comparison"@[0] != "oop-strategy-to-function"@[0]);
    assert("prefer-config-redacted"@[0] != "oop-singleton-to-layer"@[0]);
    assert("prefer-config-redacted"@[0] != "oop-observer-to-pubsub"@[0]);
    assert forall|i: int, j: int| #![trigger a[i], b[j]] 0 <= i < a.len() && 0 <= j < b.len() implies a[i].id@ != b[j].id@ by {
        assert(i == 0 || i == 1 || i == 2 || i == 3 || i == 4 || i == 5 || i == 6 || i == 7 || i == 8 || i == 9 || i == 10 || i == 11);
        assert(j == 0 || j == 1 || j == 2 || j == 3 || j == 4 || j == 5 || j == 6 || j == 7 || j == 8 || j == 9 || j == 10 || j == 11);
    }
}

proof fn lemma_apart_1_9()
    ensures
        ids_apart(chunk_1(), chunk_9()),
{
    reveal_strlit("no-map-returning-effect");
    reveal_strlit("no-object-literal-comparison");
    reveal_strlit("no-tag-string-comparison");
    reveal_strlit("prefer-match-over-tag-switch");
    reveal_strlit("no-string-errors");
    reveal_strlit("no-catchall-to-null");
    reveal_strlit("effect-all-missing-concurrency");
    reveal_strlit("prefer-timeout-over-race-sleep");
    reveal_strlit("no-fork-then-immediate-join");
    reveal_strlit("prefer-duration-over-raw-millis");
    reveal_strlit("prefer-succeed-over-sync-literal");
    reveal_strlit("prefer-config-redacted");
    reveal_strlit("agent-similar-function-name");
    reveal_strlit("agent-similar-shape");
    reveal_strlit("agent-circular-import");
    reveal(chunk_1);
    reveal(chunk_9);
    let a = chunk_1();
    let b = chunk_9();
    assert(a[0].id@ == "no-map-returning-effect"@);
    assert(a[1].id@ == "no-object-literal-comparison"@);
    assert(a[2].id@ == "no-tag-string-comparison"@);
    assert(a[3].id@ == "prefer-match-over-tag-switch"@);
    assert(a[4].id@ == "no-string-errors"@);
    assert(a[5].id@ == "no-catchall-to-null"@);
    assert(a[6].id@ == "effect-all-missing-concurrency"@);
    assert(a[7].id@ == "prefer-timeout-over-race-sleep"@);
    assert(a[8].id@ == "no-fork-then-immediate-join"@);
    assert(a[9].id@ == "prefer-duration-over-raw-millis"@);
    assert(a[10].id@ == "prefer-succeed-over-sync-literal"@);
    assert(a[11].id@ == "prefer-config-redacted"@);
    assert(b[0].id@ == "agent-similar-function-name"@);
    assert(b[1].id@ == "agent-similar-shape"@);
    assert(b[2].id@ == "agent-circular-import"@);
    assert("no-catchall-to-null"@[0] != "agent-similar-shape"@[0]);
    assert("no-fork-then-immediate-join"@[0] != "agent-similar-function-name"@[0]);
    assert forall|i: int, j: int| #![trigger a[i], b[j]] 0 <= i < a.len() && 0 <= j < b.len() implies a[i].id@ != b[j].id@ by {
        assert(i == 0 || i == 1 || i == 2 || i == 3 || i == 4 || i == 5 || i == 6 || i == 7 || i == 8 || i == 9 || i == 10 || i == 11);
        assert(j == 0 || j == 1 || j == 2);
    }
}

proof fn lemma_apart_2_3()
    ensures
        ids_apart(chunk_2(), chunk_3()),
{
    reveal_strlit("prefer-structured-logging-args");
    reveal_strlit("prefer-json-response-helper");
    reveal_strlit("prefer-abort-signal-passthrough");
    reveal_strlit("prefer-gen-over-nested-flatmap");
    reveal_strlit("avoid-long-combinator-chains");
    reveal_strlit("no-layer-mergeall-megalist");
    reveal_strlit("no-nested-gen-yield");
    reveal_strlit("no-effect-fn-iife");
    reveal_strlit("no-unnecessary-pipe-chain");
    reveal_strlit("no-return-effect-in-gen");
    reveal_strlit("redundant-schema-tag-identifier");
    reveal_strlit("no-unnecessary-gen");
    reveal_strlit("no-unnecessary-fail-of-yieldable");
    reveal_strlit("no-effect-do-notation");
    reveal_strlit("no-orDie-to-silence-errors");
    reveal_strlit("prefer-effect-void");
    reveal_strlit("prefer-as-void");
    reveal_strlit("prefer-flatmap-over-map-flatten");
    reveal_strlit("no-unnecessary-pipe");
    reveal_strlit("prefer-catch-tag");
    reveal_strlit("catch-to-map-error");
    reveal_strlit("prefer-clock-service");
    reveal_strlit("prefer-random-service");
    reveal_strlit("prefer-effect-logging");
    reveal(chunk_2);
    reveal(chunk_3);
    let a = chunk_2();
    let b = chunk_3();
    assert(a[0].id@ == "prefer-structured-logging-args"@);
    assert(a[1].id@ == "prefer-json-response-helper"@);
    assert(a[2].id@ == "prefer-abort-signal-passthrough"@);
    assert(a[3].id@ == "prefer-gen-over-nested-flatmap"@);
    assert(a[4].id@ == "avoid-long-combinator-chains"@);
    assert(a[5].id@ == "no-layer-mergeall-megalist"@);
    assert(a[6].id@ == "no-nested-gen-yield"@);
    assert(a[7].id@ == "no-effect-fn-iife"@);
    assert(a[8].id@ == "no-unnecessary-pipe-chain"@);
    assert(a[9].id@ == "no-return-effect-in-gen"@);
    assert(a[10].id@ == "redundant-schema-tag-identifier"@);
    assert(a[11].id@ == "no-unnecessary-gen"@);
    assert(b[0].id@ == "no-unnecessary-fail-of-yieldable"@);
    assert(b[1].id@ == "no-effect-do-notation"@);
    assert(b[2].id@ == "no-orDie-to-silence-errors"@);
    assert(b[3].id@ == "prefer-effect-void"@);
    assert(b[4].id@ == "prefer-as-void"@);
    assert(b[5].id@ == "prefer-flatmap-over-map-flatten"@);
    assert(b[6].id@ == "no-unnecessary-pipe"@);
    assert(b[7].id@ == "prefer-catch-tag"@);
    assert(b[8].id@ == "catch-to-map-error"@);
    assert(b[9].id@ == "prefer-clock-service"@);
    assert(b[10].id@ == "prefer-random-service"@);
    assert(b[11].id@ == "prefer-effect-logging"@);
    assert("prefer-abort-signal-passthrough"@[7] != "prefer-flatmap-over-map-flatten"@[7]);
    assert("no-layer-mergeall-megalist"@[3] != "no-orDie-to-silence-errors"@[3]);
    assert("no-nested-gen-yield"@[3] != "no-unnecessary-pipe"@[3]);
    assert("redundant-schema-tag-identifier"@[0] != "prefer-flatmap-over-map-flatten"@[0]);
    assert("no-unnecessary-gen"@[0] != "prefer-effect-void"@[0]);
    assert("no-unnecessary-gen"@[0] != "catch-to-map-error"@[0]);
    assert forall|i: int, j: int| #![trigger a[i], b[j]] 0 <= i < a.len() && 0 <= j < b.len() implies a[i].id@ != b[j].id@ by {
        assert(i == 0 || i == 1 || i == 2 || i == 3 || i == 4 || i == 5 || i == 6 || i == 7 || i == 8 || i == 9 || i == 10 || i == 11);
        assert(j == 0 || j == 1 || j == 2 || j == 3 || j == 4 || j == 5 || j == 6 || j == 7 || j == 8 || j == 9 || j == 10 || j == 11);
    }
}

proof fn lemma_apart_2_4()
    ensures
        ids_apart(chunk_2(), chunk_4()),
{
    reveal_strlit("prefer-structured-logging-args");
    reveal_strlit("prefer-json-response-helper");
    reveal_strlit("prefer-abort-signal-passthrough");
    reveal_strlit("prefer-gen-over-nested-flatmap");
    reveal_strlit("avoid-long-combinator-chains");
    reveal_strlit("no-layer-mergeall-megalist");
    reveal_strlit("no-nested-gen-yield");
    reveal_strlit("no-effect-fn-iife");
    reveal_strlit("no-unnecessary-pipe-chain");
    reveal_strlit("no-return-effect-in-gen");
    reveal_strlit("redundant-schema-tag-identifier");
    reveal_strlit("no-unnecessary-gen");
    reveal_strlit("prefer-effect-timers");
    reveal_strlit("prefer-platform-fetch");
    reveal_strlit("prefer-config-module");
    reveal_strlit("prefer-schema-over-json");
    reveal_strlit("prefer-effect-fn");
    reveal_strlit("prefer-tagged-error-classes");
    reveal_strlit("prefer-decode-effect");
    reveal_strlit("hoist-schema-codecs");
    reveal_strlit("meaningful-span-names");
    reveal_strlit("prefer-node-effect-counterparts");
    reveal_strlit("prefer-it-effect");
    reveal_strlit("no-chained-provides");
    reveal(chunk_2);
    reveal(chunk_4);
    let a = chunk_2();
    let b = chunk_4();
    assert(a[0].id@ == "prefer-structured-logging-args"@);
    assert(a[1].id@ == "prefer-json-response-helper"@);
    assert(a[2].id@ == "prefer-abort-signal-passthrough"@);
    assert(a[3].id@ == "prefer-gen-over-nested-flatmap"@);
    assert(a[4].id@ == "avoid-long-combinator-chains"@);
    assert(a[5].id@ == "no-layer-mergeall-megalist"@);
    assert(a[6].id@ == "no-nested-gen-yield"@);
    assert(a[7].id@ == "no-effect-fn-iife"@);
    assert(a[8].id@ == "no-unnecessary-pipe-chain"@);
    assert(a[9].id@ == "no-return-effect-in-gen"@);
    assert(a[10].id@ == "redundant-schema-tag-identifier"@);
    assert(a[11].id@ == "no-unnecessary-gen"@);
    assert(b[0].id@ == "prefer-effect-timers"@);
    assert(b[1].id@ == "prefer-platform-fetch"@);
    assert(b[2].id@ == "prefer-config-module"@);
    assert(b[3].id@ == "prefer-schema-over-json"@);
    assert(b[4].id@ == "prefer-effect-fn"@);
    assert(b[5].id@ == "prefer-tagged-error-classes"@);
    assert(b[6].id@ == "prefer-decode-effect"@);
    assert(b[7].id@ == "hoist-schema-codecs"@);
    assert(b[8].id@ == "meaningful-span-names"@);
    assert(b[9].id@ == "prefer-node-effect-counterparts"@);
    assert(b[10].id@ == "prefer-it-effect"@);
    assert(b[11].id@ == "no-chained-provides"@);
    assert("prefer-json-response-helper"@[7] != "prefer-tagged-error-classes"@[7]);
    assert("prefer-abort-signal-passthrough"@[7] != "prefer-node-effect-counterparts"@[7]);
    assert("no-nested-gen-yield"@[0] != "hoist-schema-codecs"@[0]);
    assert("no-nested-gen-yield"@[3] != "no-chained-provides"@[3]);
    assert("no-return-effect-in-gen"@[0] != "prefer-schema-over-json"@[0]);
    assert("redundant-schema-tag-identifier"@[0] != "prefer-node-effect-counterparts"@[0]);
    assert forall|i: int, j: int| #![trigger a[i], b[j]] 0 <= i < a.len() && 0 <= j < b.len() implies a[i].id@ != b[j].id@ by {
        assert(i == 0 || i == 1 || i == 2 || i == 3 || i == 4 || i == 5 || i == 6 || i == 7 || i == 8 || i == 9 || i == 10 || i == 11);
        assert(j == 0 || j == 1 || j == 2 || j == 3 || j == 4 || j == 5 || j == 6 || j == 7 || j == 8 || j == 9 || j == 10 || j == 11);
    }
}

proof fn lemma_apart_2_5()
    ensures
        ids_apart(chunk_2(), chunk_5()),
{
    reveal_strlit("prefer-structured-logging-args");
    reveal_strlit("prefer-json-response-helper");
    reveal_strlit("prefer-abort-signal-passthrough");
    reveal_strlit("prefer-gen-over-nested-flatmap");
    reveal_strlit("avoid-long-combinator-chains");
    reveal_strlit("no-layer-mergeall-megalist");
    reveal_strlit("no-nested-gen-yield");
    reveal_strlit("no-effect-fn-iife");
    reveal_strlit("no-unnecessary-pipe-chain");
    reveal_strlit("no-return-effect-in-gen");
    reveal_strlit("redundant-schema-tag-identifier");
    reveal_strlit("no-unnecessary-gen");
    reveal_strlit("no-manual-sql-transactions");
    reveal_strlit("retry-only-retryable");
    reveal_strlit("add-jitter-to-backoff");
    reveal_strlit("cap-exponential-backoff");
    reveal_strlit("no-unbounded-concurrency");
    reveal_strlit("adopt-async-function");
    reveal_strlit("adopt-promise-chain");
    reveal_strlit("adopt-new-promise");
    reveal_strlit("adopt-promise-all");
    reveal_strlit("adopt-await-in-loop");
    reveal_strlit("prefer-foreach-over-yield-loop");
    reveal_strlit("agent-no-if-else-chain");
    reveal(chunk_2);
    reveal(chunk_5);
    let a = chunk_2();
    let b = chunk_5();
    assert(a[0].id@ == "prefer-structured-logging-args"@);
    assert(a[1].id@ == "prefer-json-response-helper"@);
    assert(a[2].id@ == "prefer-abort-signal-passthrough"@);
    assert(a[3].id@ == "prefer-gen-over-nested-flatmap"@);
    assert(a[4].id@ == "avoid-long-combinator-chains"@);
    assert(a[5].id@ == "no-layer-mergeall-megalist"@);
    assert(a[6].id@ == "no-nested-gen-yield"@);
    assert(a[7].id@ == "no-effect-fn-iife"@);
    assert(a[8].id@ == "no-unnecessary-pipe-chain"@);
    assert(a[9].id@ == "no-return-effect-in-gen"@);
    assert(a[10].id@ == "redundant-schema-tag-identifier"@);
    assert(a[11].id@ == "no-unnecessary-gen"@);
    assert(b[0].id@ == "no-manual-sql-transactions"@);
    assert(b[1].id@ == "retry-only-retryable"@);
    assert(b[2].id@ == "add-jitter-to-backoff"@);
    assert(b[3].id@ == "cap-exponential-backoff"@);
    assert(b[4].id@ == "no-unbounded-concurrency"@);
    assert(b[5].id@ == "adopt-async-function"@);
    assert(b[6].id@ == "adopt-promise-chain"@);
    assert(b[7].id@ == "adopt-new-promise"@);
    assert(b[8].id@ == "adopt-promise-all"@);
    assert(b[9].id@ == "adopt-await-in-loop"@);
    assert(b[10].id@ == "prefer-foreach-over-yield-loop"@);
    assert(b[11].id@ == "agent-no-if-else-chain"@);
    assert("prefer-structured-logging-args"@[7] != "prefer-foreach-over-yield-loop"@[7]);
    assert("prefer-gen-over-nested-flatmap"@[7] != "prefer-foreach-over-yield-loop"@[7]);
    assert("no-layer-mergeall-megalist"@[3] != "no-manual-sql-transactions"@[3]);
    assert("no-nested-gen-yield"@[0] != "adopt-promise-chain"@[0]);
    assert("no-nested-gen-yield"@[0] != "adopt-await-in-loop"@[0]);
    assert("no-effect-fn-iife"@[0] != "adopt-new-promise"@[0]);
    assert("no-effect-fn-iife"@[0] != "adopt-promise-all"@[0]);
    assert("no-return-effect-in-gen"@[0] != "cap-exponential-backoff"@[0]);
    assert forall|i: int, j: int| #![trigger a[i], b[j]] 0 <= i < a.len() && 0 <= j < b.len() implies a[i].id@ != b[j].id@ by {
        assert(i == 0 || i == 1 || i == 2 || i == 3 || i == 4 || i == 5 || i == 6 || i == 7 || i == 8 || i == 9 || i == 10 || i == 11);
        assert(j == 0 || j == 1 || j == 2 || j == 3 || j == 4 || j == 5 || j == 6 || j == 7 || j == 8 || j == 9 || j == 10 || j == 11);
    }
}

proof fn lemma_apart_2_6()
    ensures
        ids_apart(chunk_2(), chunk_6()),
{
    reveal_strlit("prefer-structured-logging-args");
    reveal_strlit("prefer-json-response-helper");
    reveal_strlit("prefer-abort-signal-passthrough");
    reveal_strlit("prefer-gen-over-nested-flatmap");
    reveal_strlit("avoid-long-combinator-chains");
    reveal_strlit("no-layer-mergeall-megalist");
    reveal_strlit("no-nested-gen-yield");
    reveal_strlit("no-effect-fn-iife");
    reveal_strlit("no-unnecessary-pipe-chain");
    reveal_strlit("no-return-effect-in-gen");
    reveal_strlit("redundant-schema-tag-identifier");
    reveal_strlit("no-unnecessary-gen");
    reveal_strlit("agent-no-ternary");
    reveal_strlit("agent-no-string-equality-guard");
    reveal_strlit("agent-no-raw-loop");
    reveal_strlit("agent-no-let");
    reveal_strlit("agent-no-mutation");
    reveal_strlit("agent-no-inline-import");
    reveal_strlit("agent-no-any");
    reveal_strlit("agent-no-import-alias");
    reveal_strlit("agent-no-namespace-import");
    reveal_strlit("agent-no-try-catch");
    reveal_strlit("agent-no-as-cast");
    reveal_strlit("agent-no-unbounded-promise-all");
    reveal(chunk_2);
    reveal(chunk_6);
    let a = chunk_2();
    let b = chunk_6();
    assert(a[0].id@ == "prefer-structured-logging-args"@);
    assert(a[1].id@ == "prefer-json-response-helper"@);
    assert(a[2].id@ == "prefer-abort-signal-passthrough"@);
    assert(a[3].id@ == "prefer-gen-over-nested-flatmap"@);
    assert(a[4].id@ == "avoid-long-combinator-chains"@);
    assert(a[5].id@ == "no-layer-mergeall-megalist"@);
    assert(a[6].id@ == "no-nested-gen-yield"@);
    assert(a[7].id@ == "no-effect-fn-iife"@);
    assert(a[8].id@ == "no-unnecessary-pipe-chain"@);
    assert(a[9].id@ == "no-return-effect-in-gen"@);
    assert(a[10].id@ == "redundant-schema-tag-identifier"@);
    assert(a[11].id@ == "no-unnecessary-gen"@);
    assert(b[0].id@ == "agent-no-ternary"@);
    assert(b[1].id@ == "agent-no-string-equality-guard"@);
    assert(b[2].id@ == "agent-no-raw-loop"@);
    assert(b[3].id@ == "agent-no-let"@);
    assert(b[4].id@ == "agent-no-mutation"@);
    assert(b[5].id@ == "agent-no-inline-import"@);
    assert(b[6].id@ == "agent-no-any"@);
    assert(b[7].id@ == "agent-no-import-alias"@);
    assert(b[8].id@ == "agent-no-namespace-import"@);
    assert(b[9].id@ == "agent-no-try-catch"@);
    assert(b[10].id@ == "agent-no-as-cast"@);
    assert(b[11].id@ == "agent-no-unbounded-promise-all"@);
    assert("prefer-structured-logging-args"@[0] != "agent-no-string-equality-guard"@[0]);
    assert("prefer-structured-logging-args"@[0] != "agent-no-unbounded-promise-all"@[0]);
    assert("prefer-gen-over-nested-flatmap"@[0] != "agent-no-string-equality-guard"@[0]);
    assert("prefer-gen-over-nested-flatmap"@[0] != "agent-no-unbounded-promise-all"@[0]);
    assert("no-effect-fn-iife"@[0] != "agent-no-raw-loop"@[0]);
    assert("no-effect-fn-iife"@[0] != "agent-no-mutation"@[0]);
    assert("no-unnecessary-pipe-chain"@[0] != "agent-no-namespace-import"@[0]);
    assert("no-unnecessary-gen"@[0] != "agent-no-try-catch"@[0]);
    assert forall|i: int, j: int| #![trigger a[i], b[j]] 0 <= i < a.len() && 0 <= j < b.len() implies a[i].id@ != b[j].id@ by {
        assert(i == 0 || i == 1 || i == 2 || i == 3 || i == 4 || i == 5 || i == 6 || i == 7 || i == 8 || i == 9 || i == 10 || i == 11);
        assert(j == 0 || j == 1 || j == 2 || j == 3 || j == 4 || j == 5 || j == 6 || j == 7 || j == 8 || j == 9 || j == 10 || j == 11);
    }
}

proof fn lemma_apart_2_7()
    ensures
        ids_apart(chunk_2(), chunk_7()),
{
    reveal_strlit("prefer-structured-logging-args");
    reveal_strlit("prefer-json-response-helper");
    reveal_strlit("prefer-abort-signal-passthrough");
    reveal_strlit("prefer-gen-over-nested-flatmap");
    reveal_strlit("avoid-long-combinator-chains");
    reveal_strlit("no-layer-mergeall-megalist");
    reveal_strlit("no-nested-gen-yield");
    reveal_strlit("no-effect-fn-iife");
    reveal_strlit("no-unnecessary-pipe-chain");
    reveal_strlit("no-return-effect-in-gen");
    reveal_strlit("redundant-schema-tag-identifier");
    reveal_strlit("no-unnecessary-gen");
    reveal_strlit("agent-no-loose-equality");
    reveal_strlit("agent-no-non-null-assertion");
    reveal_strlit("agent-no-enum");
    reveal_strlit("agent-prefer-safe-parse");
    reveal_strlit("agent-no-inline-type-import");
    reveal_strlit("agent-no-ts-namespace");
    reveal_strlit("agent-no-throw");
    reveal_strlit("agent-no-delete");
    reveal_strlit("agent-deep-nesting");
    reveal_strlit("agent-high-complexity");
    reveal_strlit("agent-too-many-params");
    reveal_strlit("agent-deep-relative-import");
    reveal(chunk_2);
    reveal(chunk_7);
    let a = chunk_2();
    let b = chunk_7();
    assert(a[0].id@ == "prefer-structured-logging-args"@);
    assert(a[1].id@ == "prefer-json-response-helper"@);
    assert(a[2].id@ == "prefer-abort-signal-passthrough"@);
    assert(a[3].id@ == "prefer-gen-over-nested-flatmap"@);
    assert(a[4].id@ == "avoid-long-combinator-chains"@);
    assert(a[5].id@ == "no-layer-mergeall-megalist"@);
    assert(a[6].id@ == "no-nested-gen-yield"@);
    assert(a[7].id@ == "no-effect-fn-iife"@);
    assert(a[8].id@ == "no-unnecessary-pipe-chain"@);
    assert(a[9].id@ == "no-return-effect-in-gen"@);
    assert(a[10].id@ == "redundant-schema-tag-identifier"@);
    assert(a[11].id@ == "no-unnecessary-gen"@);
    assert(b[0].id@ == "agent-no-loose-equality"@);
    assert(b[1].id@ == "agent-no-non-null-assertion"@);
    assert(b[2].id@ == "agent-no-enum"@);
    assert(b[3].id@ == "agent-prefer-safe-parse"@);
    assert(b[4].id@ == "agent-no-inline-type-import"@);
    assert(b[5].id@ == "agent-no-ts-namespace"@);
    assert(b[6].id@ == "agent-no-throw"@);
    assert(b[7].id@ == "agent-no-delete"@);
    assert(b[8].id@ == "agent-deep-nesting"@);
    assert(b[9].id@ == "agent-high-complexity"@);
    assert(b[10].id@ == "agent-too-many-params"@);
    assert(b[11].id@ == "agent-deep-relative-import"@);
    assert("prefer-json-response-helper"@[0] != "agent-no-non-null-assertion"@[0]);
    assert("prefer-json-response-helper"@[0] != "agent-no-inline-type-import"@[0]);
    assert("no-layer-mergeall-megalist"@[0] != "agent-deep-relative-import"@[0]);
    assert("no-return-effect-in-gen"@[0] != "agent-no-loose-equality"@[0]);
    assert("no-return-effect-in-gen"@[0] != "agent-prefer-safe-parse"@[0]);
    assert("no-unnecessary-gen"@[0] != "agent-deep-nesting"@[0]);
    assert forall|i: int, j: int| #![trigger a[i], b[j]] 0 <= i < a.len() && 0 <= j < b.len() implies a[i].id@ != b[j].id@ by {
        assert(i == 0 || i == 1 || i == 2 || i == 3 || i == 4 || i == 5 || i == 6 || i == 7 || i == 8 || i == 9 || i == 10 || i == 11);
        assert(j == 0 || j == 1 || j == 2 || j == 3 || j == 4 || j == 5 || j == 6 || j == 7 || j == 8 || j == 9 || j == 10 || j == 11);
    }
}

proof fn lemma_apart_2_8()
    ensures
        ids_apart(chunk_2(), chunk_8()),
{
    reveal_strlit("prefer-structured-logging-args");
    reveal_strlit("prefer-json-response-helper");
    reveal_strlit("prefer-abort-signal-passthrough");
    reveal_strlit("prefer-gen-over-nested-flatmap");
    reveal_strlit("avoid-long-combinator-chains");
    reveal_strlit("no-layer-mergeall-megalist");
    reveal_strlit("no-nested-gen-yield");
    reveal_strlit("no-effect-fn-iife");
    reveal_strlit("no-unnecessary-pipe-chain");
    reveal_strlit("no-return-effect-in-gen");
    reveal_strlit("redundant-schema-tag-identifier");
    reveal_strlit("no-unnecessary-gen");
    reveal_strlit("agent-duplicate-function");
    reveal_strlit("oop-singleton-to-layer");
    reveal_strlit("oop-observer-to-pubsub");
    reveal_strlit("oop-strategy-to-function");
    reveal_strlit("oop-visitor-to-match");
    reveal_strlit("oop-chain-to-catchtag");
    reveal_strlit("max-function-parameters");
    reveal_strlit("max-nesting-depth");
    reveal_strlit("high-cognitive-complexity");
    reveal_strlit("agent-no-default-export");
    reveal_strlit("agent-duplicate-cross-file");
    reveal_strlit("agent-near-duplicate-function");
    reveal(chunk_2);
    reveal(chunk_8);
    let a = chunk_2();
    let b = chunk_8();
    assert(a[0].id@ == "prefer-structured-logging-args"@);
    assert(a[1].id@ == "prefer-json-response-helper"@);
    assert(a[2].id@ == "prefer-abort-signal-passthrough"@);
    assert(a[3].id@ == "prefer-gen-over-nested-flatmap"@);
    assert(a[4].id@ == "avoid-long-combinator-chains"@);
    assert(a[5].id@ == "no-layer-mergeall-megalist"@);
    assert(a[6].id@ == "no-nested-gen-yield"@);
    assert(a[7].id@ == "no-effect-fn-iife"@);
    assert(a[8].id@ == "no-unnecessary-pipe-chain"@);
    assert(a[9].id@ == "no-return-effect-in-gen"@);
    assert(a[10].id@ == "redundant-schema-tag-identifier"@);
    assert(a[11].id@ == "no-unnecessary-gen"@);
    assert(b[0].id@ == "agent-duplicate-function"@);
    assert(b[1].id@ == "oop-singleton-to-layer"@);
    assert(b[2].id@ == "oop-observer-to-pubsub"@);
    assert(b[3].id@ == "oop-strategy-to-function"@);
    assert(b[4].id@ == "oop-visitor-to-match"@);
    assert(b[5].id@ == "oop-chain-to-catchtag"@);
    assert(b[6].id@ == "max-function-parameters"@);
    assert(b[7].id@ == "max-nesting-depth"@);
    assert(b[8].id@ == "high-cognitive-complexity"@);
    assert(b[9].id@ == "agent-no-default-export"@);
    assert(b[10].id@ == "agent-duplicate-cross-file"@);
    assert(b[11].id@ == "agent-near-duplicate-function"@);
    assert("no-layer-mergeall-megalist"@[0] != "agent-duplicate-cross-file"@[0]);
    assert("no-effect-fn-iife"@[0] != "max-nesting-depth"@[0]);
    assert("no-unnecessary-pipe-chain"@[0] != "high-cognitive-complexity"@[0]);
    assert("no-return-effect-in-gen"@[0] != "max-function-parameters"@[0]);
    assert("no-return-effect-in-gen"@[0] != "agent-no-default-export"@[0]);
    assert forall|i: int, j: int| #![trigger a[i], b[j]] 0 <= i < a.len() && 0 <= j < b.len() implies a[i].id@ != b[j].id@ by {
        assert(i == 0 || i == 1 || i == 2 || i == 3 || i == 4 || i == 5 || i == 6 || i == 7 || i == 8 || i == 9 || i == 10 || i == 11);
        assert(j == 0 || j == 1 || j == 2 || j == 3 || j == 4 || j == 5 || j == 6 || j == 7 || j == 8 || j == 9 || j == 10 || j == 11);
    }
}

proof fn lemma_apart_2_9()
    ensures
        ids_apart(chunk_2(), chunk_9()),
{
    reveal_strlit("prefer-structured-logging-args");
    reveal_strlit("prefer-json-response-helper");
    reveal_strlit("prefer-abort-signal-passthrough");
    reveal_strlit("prefer-gen-over-nested-flatmap");
    reveal_strlit("avoid-long-combinator-chains");
    reveal_strlit("no-layer-mergeall-megalist");
    reveal_strlit("no-nested-gen-yield");
    reveal_strlit("no-effect-fn-iife");
    reveal_strlit("no-unnecessary-pipe-chain");
    reveal_strlit("no-return-effect-in-gen");
    reveal_strlit("redundant-schema-tag-identifier");
    reveal_strlit("no-unnecessary-gen");
    reveal_strlit("agent-similar-function-name");
    reveal_strlit("agent-similar-shape");
    reveal_strlit("agent-circular-import");
    reveal(chunk_2);
    reveal(chunk_9);
    let a = chunk_2();
    let b = chunk_9();
    assert(a[0].id@ == "prefer-structured-logging-args"@);
    assert(a[1].id@ == "prefer-json-response-helper"@);
    assert(a[2].id@ == "prefer-abort-signal-passthrough"@);
    assert(a[3].id@ == "prefer-gen-over-nested-flatmap"@);
    assert(a[4].id@ == "avoid-long-combinator-chains"@);
    assert(a[5].id@ == "no-layer-mergeall-megalist"@);
    assert(a[6].id@ == "no-nested-gen-yield"@);
    assert(a[7].id@ == "no-effect-fn-iife"@);
    assert(a[8].id@ == "no-unnecessary-pipe-chain"@);
    assert(a[9].id@ == "no-return-effect-in-gen"@);
    assert(a[10].id@ == "redundant-schema-tag-identifier"@);
    assert(a[11].id@ == "no-unnecessary-gen"@);
    assert(b[0].id@ == "agent-similar-function-name"@);
    assert(b[1].id@ == "agent-similar-shape"@);
    assert(b[2].id@ == "agent-circular-import"@);
    assert("prefer-json-response-helper"@[0] != "agent-similar-function-name"@[0]);
    assert("no-nested-gen-yield"@[0] != "agent-similar-shape"@[0]);
    assert forall|i: int, j: int| #![trigger a[i], b[j]] 0 <= i < a.len() && 0 <= j < b.len() implies a[i].id@ != b[j].id@ by {
        assert(i == 0 || i == 1 || i == 2 || i == 3 || i == 4 || i == 5 || i == 6 || i == 7 || i == 8 || i == 9 || i == 10 || i == 11);
        assert(j == 0 || j == 1 || j == 2);
    }
}

proof fn lemma_apart_3_4()
    ensures
        ids_apart(chunk_3(), chunk_4()),
{
    reveal_strlit("no-unnecessary-fail-of-yieldable");
    reveal_strlit("no-effect-do-notation");
    reveal_strlit("no-orDie-to-silence-errors");
    reveal_strlit("prefer-effect-void");
    reveal_strlit("prefer-as-void");
    reveal_strlit("prefer-flatmap-over-map-flatten");
    reveal_strlit("no-unnecessary-pipe");
    reveal_strlit("prefer-catch-tag");
    reveal_strlit("catch-to-map-error");
    reveal_strlit("prefer-clock-service");
    reveal_strlit("prefer-random-service");
    reveal_strlit("prefer-effect-logging");
    reveal_strlit("prefer-effect-timers");
    reveal_strlit("prefer-platform-fetch");
    reveal_strlit("prefer-config-module");
    reveal_strlit("prefer-schema-over-json");
    reveal_strlit("prefer-effect-fn");
    reveal_strlit("prefer-tagged-error-classes");
    reveal_strlit("prefer-decode-effect");
    reveal_strlit("hoist-schema-codecs");
    reveal_strlit("meaningful-span-names");
    reveal_strlit("prefer-node-effect-counterparts");
    reveal_strlit("prefer-it-effect");
    reveal_strlit("no-chained-provides");
    reveal(chunk_3);
    reveal(chunk_4);
    let a = chunk_3();
    let b = chunk_4();
    assert(a[0].id@ == "no-unnecessary-fail-of-yieldable"@);
    assert(a[1].id@ == "no-effect-do-notation"@);
    assert(a[2].id@ == "no-orDie-to-silence-errors"@);
    assert(a[3].id@ == "prefer-effect-void"@);
    assert(a[4].id@ == "prefer-as-void"@);
    assert(a[5].id@ == "prefer-flatmap-over-map-flatten"@);
    assert(a[6].id@ == "no-unnecessary-pipe"@);
    assert(a[7].id@ == "prefer-catch-tag"@);
    assert(a[8].id@ == "catch-to-map-error"@);
    assert(a[9].id@ == "prefer-clock-service"@);
    assert(a[10].id@ == "prefer-random-service"@);
    assert(a[11].id@ == "prefer-effect-logging"@);
    assert(b[0].id@ == "prefer-effect-timers"@);
    assert(b[1].id@ == "prefer-platform-fetch"@);
    assert(b[2].id@ == "prefer-config-module"@);
    assert(b[3].id@ == "prefer-schema-over-json"@);
    assert(b[4].id@ == "prefer-effect-fn"@);
    assert(b[5].id@ == "prefer-tagged-error-classes"@);
    assert(b[6].id@ == "prefer-decode-effect"@);
    assert(b[7].id@ == "hoist-schema-codecs"@);
    assert(b[8].id@ == "meaningful-span-names"@);
    assert(b[9].id@ == "prefer-node-effect-counterparts"@);
    assert(b[10].id@ == "prefer-it-effect"@);
    assert(b[11].id@ == "no-chained-provides"@);
    assert("no-effect-do-notation"@[0] != "prefer-platform-fetch"@[0]);
    assert("no-effect-do-notation"@[0] != "meaningful-span-names"@[0]);
    assert("prefer-flatmap-over-map-flatten"@[7] != "prefer-node-effect-counterparts"@[7]);
    assert("no-unnecessary-pipe"@[0] != "hoist-schema-codecs"@[0]);
    assert("no-unnecessary-pipe"@[3] != "no-chained-provides"@[3]);
    assert("prefer-catch-tag"@[7] != "prefer-effect-fn"@[7]);
    assert("prefer-catch-tag"@[7] != "prefer-it-effect"@[7]);
    assert("prefer-clock-service"@[7] != "prefer-effect-timers"@[7]);
    assert("prefer-clock-service"@[8] != "prefer-config-module"@[8]);
    assert("prefer-clock-service"@[7] != "prefer-decode-effect"@[7]);
    assert("prefer-random-service"@[7] != "prefer-platform-fetch"@[7]);
    assert("prefer-random-service"@[0] != "meaningful-span-names"@[0]);
    assert("prefer-effect-logging"@[7] != "prefer-platform-fetch"@[7]);
    assert("prefer-effect-logging"@[0] != "meaningful-span-names"@[0]);
    assert forall|i: int, j: int| #![trigger a[i], b[j]] 0 <= i < a.len() && 0 <= j < b.len() implies a[i].id@ != b[j].id@ by {
        assert(i == 0 || i == 1 || i == 2 || i == 3 || i == 4 || i == 5 || i == 6 || i == 7 || i == 8 || i == 9 || i == 10 || i == 11);
        assert(j == 0 || j == 1 || j == 2 || j == 3 || j == 4 || j == 5 || j == 6 || j == 7 || j == 8 || j == 9 || j == 10 || j == 11);
    }
}

proof fn lemma_apart_3_5()
    ensures
        ids_apart(chunk_3(), chunk_5()),
{
    reveal_strlit("no-unnecessary-fail-of-yieldable");
    reveal_strlit("no-effect-do-notation");
    reveal_strlit("no-orDie-to-silence-errors");
    reveal_strlit("prefer-effect-void");
    reveal_strlit("prefer-as-void");
    reveal_strlit("prefer-flatmap-over-map-flatten");
    reveal_strlit("no-unnecessary-pipe");
    reveal_strlit("prefer-catch-tag");
    reveal_strlit("catch-to-map-error");
    reveal_strlit("prefer-clock-service");
    reveal_strlit("prefer-random-service");
    reveal_strlit("prefer-effect-logging");
    reveal_strlit("no-manual-sql-transactions");
    reveal_strlit("retry-only-retryable");
    reveal_strlit("add-jitter-to-backoff");
    reveal_strlit("cap-exponential-backoff");
    reveal_strlit("no-unbounded-concurrency");
    reveal_strlit("adopt-async-function");
    reveal_strlit("adopt-promise-chain");
    reveal_strlit("adopt-new-promise");
    reveal_strlit("adopt-promise-all");
    reveal_strlit("adopt-await-in-loop");
    reveal_strlit("prefer-foreach-over-yield-loop");
    reveal_strlit("agent-no-if-else-chain");
    reveal(chunk_3);
    reveal(chunk_5);
    let a = chunk_3();
    let b = chunk_5();
    assert(a[0].id@ == "no-unnecessary-fail-of-yieldable"@);
    assert(a[1].id@ == "no-effect-do-notation"@);
    assert(a[2].id@ == "no-orDie-to-silence-errors"@);
    assert(a[3].id@ == "prefer-effect-void"@);
    assert(a[4].id@ == "prefer-as-void"@);
    assert(a[5].id@ == "prefer-flatmap-over-map-flatten"@);
    assert(a[6].id@ == "no-unnecessary-pipe"@);
    assert(a[7].id@ == "prefer-catch-tag"@);
    assert(a[8].id@ == "catch-to-map-error"@);
    assert(a[9].id@ == "prefer-clock-service"@);
    assert(a[10].id@ == "prefer-random-service"@);
    assert(a[11].id@ == "prefer-effect-logging"@);
    assert(b[0].id@ == "no-manual-sql-transactions"@);
    assert(b[1].id@ == "retry-only-retryable"@);
    assert(b[2].id@ == "add-jitter-to-backoff"@);
    assert(b[3].id@ == "cap-exponential-backoff"@);
    assert(b[4].id@ == "no-unbounded-concurrency"@);
    assert(b[5].id@ == "adopt-async-function"@);
    assert(b[6].id@ == "adopt-promise-chain"@);
    assert(b[7].id@ == "adopt-new-promise"@);
    assert(b[8].id@ == "adopt-promise-all"@);
    assert(b[9].id@ == "adopt-await-in-loop"@);
    assert(b[10].id@ == "prefer-foreach-over-yield-loop"@);
    assert(b[11].id@ == "agent-no-if-else-chain"@);
    assert("no-effect-do-notation"@[0] != "add-jitter-to-backoff"@[0]);
    assert("no-orDie-to-silence-errors"@[3] != "no-manual-sql-transactions"@[3]);
    assert("no-unnecessary-pipe"@[0] != "adopt-promise-chain"@[0]);
    assert("no-unnecessary-pipe"@[0] != "adopt-await-in-loop"@[0]);
    assert("prefer-clock-service"@[0] != "retry-only-retryable"@[0]);
    assert("prefer-clock-service"@[0] != "adopt-async-function"@[0]);
    assert("prefer-random-service"@[0] != "add-jitter-to-backoff"@[0]);
    assert("prefer-effect-logging"@[0] != "add-jitter-to-backoff"@[0]);
    assert forall|i: int, j: int| #![trigger a[i], b[j]] 0 <= i < a.len() && 0 <= j < b.len() implies a[i].id@ != b[j].id@ by {
        assert(i == 0 || i == 1 || i == 2 || i == 3 || i == 4 || i == 5 || i == 6 || i == 7 || i == 8 || i == 9 || i == 10 || i == 11);
        assert(j == 0 || j == 1 || j == 2 || j == 3 || j == 4 || j == 5 || j == 6 || j == 7 || j == 8 || j == 9 || j == 10 || j == 11);
    }
}

proof fn lemma_apart_3_6()
    ensures
        ids_apart(chunk_3(), chunk_6()),
{
    reveal_strlit("no-unnecessary-fail-of-yieldable");
    reveal_strlit("no-effect-do-notation");
    reveal_strlit("no-orDie-to-silence-errors");
    reveal_strlit("prefer-effect-void");
    reveal_strlit("prefer-as-void");
    reveal_strlit("prefer-flatmap-over-map-flatten");
    reveal_strlit("no-unnecessary-pipe");
    reveal_strlit("prefer-catch-tag");
    reveal_strlit("catch-to-map-error");
    reveal_strlit("prefer-clock-service");
    reveal_strlit("prefer-random-service");
    reveal_strlit("prefer-effect-logging");
    reveal_strlit("agent-no-ternary");
    reveal_strlit("agent-no-string-equality-guard");
    reveal_strlit("agent-no-raw-loop");
    reveal_strlit("agent-no-let");
    reveal_strlit("agent-no-mutation");
    reveal_strlit("agent-no-inline-import");
    reveal_strlit("agent-no-any");
    reveal_strlit("agent-no-import-alias");
    reveal_strlit("agent-no-namespace-import");
    reveal_strlit("agent-no-try-catch");
    reveal_strlit("agent-no-as-cast");
    reveal_strlit("agent-no-unbounded-promise-all");
    reveal(chunk_3);
    reveal(chunk_6);
    let a = chunk_3();
    let b = chunk_6();
    assert(a[0].id@ == "no-unnecessary-fail-of-yieldable"@);
    assert(a[1].id@ == "no-effect-do-notation"@);
    assert(a[2].id@ == "no-orDie-to-silence-errors"@);
    assert(a[3].id@ == "prefer-effect-void"@);
    assert(a[4].id@ == "prefer-as-void"@);
    assert(a[5].id@ == "prefer-flatmap-over-map-flatten"@);
    assert(a[6].id@ == "no-unnecessary-pipe"@);
    assert(a[7].id@ == "prefer-catch-tag"@);
    assert(a[8].id@ == "catch-to-map-error"@);
    assert(a[9].id@ == "prefer-clock-service"@);
    assert(a[10].id@ == "prefer-random-service"@);
    assert(a[11].id@ == "prefer-effect-logging"@);
    assert(b[0].id@ == "agent-no-ternary"@);
    assert(b[1].id@ == "agent-no-string-equality-guard"@);
    assert(b[2].id@ == "agent-no-raw-loop"@);
    assert(b[3].id@ == "agent-no-let"@);
    assert(b[4].id@ == "agent-no-mutation"@);
    assert(b[5].id@ == "agent-no-inline-import"@);
    assert(b[6].id@ == "agent-no-any"@);
    assert(b[7].id@ == "agent-no-import-alias"@);
    assert(b[8].id@ == "agent-no-namespace-import"@);
    assert(b[9].id@ == "agent-no-try-catch"@);
    assert(b[10].id@ == "agent-no-as-cast"@);
    assert(b[11].id@ == "agent-no-unbounded-promise-all"@);
    assert("no-effect-do-notation"@[0] != "agent-no-import-alias"@[0]);
    assert("prefer-effect-void"@[0] != "agent-no-try-catch"@[0]);
    assert("prefer-catch-tag"@[0] != "agent-no-ternary"@[0]);
    assert("prefer-catch-tag"@[0] != "agent-no-as-cast"@[0]);
    assert("catch-to-map-error"@[0] != "agent-no-try-catch"@[0]);
    assert("prefer-random-service"@[0] != "agent-no-import-alias"@[0]);
    assert("prefer-effect-logging"@[0] != "agent-no-import-alias"@[0]);
    assert forall|i: int, j: int| #![trigger a[i], b[j]] 0 <= i < a.len() && 0 <= j < b.len() implies a[i].id@ != b[j].id@ by {
        assert(i == 0 || i == 1 || i == 2 || i == 3 || i == 4 || i == 5 || i == 6 || i == 7 || i == 8 || i == 9 || i == 10 || i == 11);
        assert(j == 0 || j == 1 || j == 2 || j == 3 || j == 4 || j == 5 || j == 6 || j == 7 || j == 8 || j == 9 || j == 10 || j == 11);
    }
}

proof fn lemma_apart_3_7()
    ensures
        ids_apart(chunk_3(), chunk_7()),
{
    reveal_strlit("no-unnecessary-fail-of-yieldable");
    reveal_strlit("no-effect-do-notation");
    reveal_strlit("no-orDie-to-silence-errors");
    reveal_strlit("prefer-effect-void");
    reveal_strlit("prefer-as-void");
    reveal_strlit("prefer-flatmap-over-map-flatten");
    reveal_strlit("no-unnecessary-pipe");
    reveal_strlit("prefer-catch-tag");
    reveal_strlit("catch-to-map-error");
    reveal_strlit("prefer-clock-service");
    reveal_strlit("prefer-random-service");
    reveal_strlit("prefer-effect-logging");
    reveal_strlit("agent-no-loose-equality");
    reveal_strlit("agent-no-non-null-assertion");
    reveal_strlit("agent-no-enum");
    reveal_strlit("agent-prefer-safe-parse");
    reveal_strlit("agent-no-inline-type-import");
    reveal_strlit("agent-no-ts-namespace");
    reveal_strlit("agent-no-throw");
    reveal_strlit("agent-no-delete");
    reveal_strlit("agent-deep-nesting");
    reveal_strlit("agent-high-complexity");
    reveal_strlit("agent-too-many-params");
    reveal_strlit("agent-deep-relative-import");
    reveal(chunk_3);
    reveal(chunk_7);
    let a = chunk_3();
    let b = chunk_7();
    assert(a[0].id@ == "no-unnecessary-fail-of-yieldable"@);
    assert(a[1].id@ == "no-effect-do-notation"@);
    assert(a[2].id@ == "no-orDie-to-silence-errors"@);
    assert(a[3].id@ == "prefer-effect-void"@);
    assert(a[4].id@ == "prefer-as-void"@);
    assert(a[5].id@ == "prefer-flatmap-over-map-flatten"@);
    assert(a[6].id@ == "no-unnecessary-pipe"@);
    assert(a[7].id@ == "prefer-catch-tag"@);
    assert(a[8].id@ == "catch-to-map-error"@);
    assert(a[9].id@ == "prefer-clock-service"@);
    assert(a[10].id@ == "prefer-random-service"@);
    assert(a[11].id@ == "prefer-effect-logging"@);
    assert(b[0].id@ == "agent-no-loose-equality"@);
    assert(b[1].id@ == "agent-no-non-null-assertion"@);
    assert(b[2].id@ == "agent-no-enum"@);
    assert(b[3].id@ == "agent-prefer-safe-parse"@);
    assert(b[4].id@ == "agent-no-inline-type-import"@);
    assert(b[5].id@ == "agent-no-ts-namespace"@);
    assert(b[6].id@ == "agent-no-throw"@);
    assert(b[7].id@ == "agent-no-delete"@);
    assert(b[8].id@ == "agent-deep-nesting"@);
    assert(b[9].id@ == "agent-high-complexity"@);
    assert(b[10].id@ == "agent-too-many-params"@);
    assert(b[11].id@ == "agent-deep-relative-import"@);
    assert("no-effect-do-notation"@[0] != "agent-no-ts-namespace"@[0]);
    assert("no-effect-do-notation"@[0] != "agent-high-complexity"@[0]);
    assert("no-effect-do-notation"@[0] != "agent-too-many-params"@[0]);
    assert("no-orDie-to-silence-errors"@[0] != "agent-deep-relative-import"@[0]);
    assert("prefer-effect-void"@[0] != "agent-deep-nesting"@[0]);
    assert("prefer-as-void"@[0] != "agent-no-throw"@[0]);
    assert("catch-to-map-error"@[0] != "agent-deep-nesting"@[0]);
    assert("prefer-random-service"@[0] != "agent-no-ts-namespace"@[0]);
    assert("prefer-random-service"@[0] != "agent-high-complexity"@[0]);
    assert("prefer-random-service"@[0] != "agent-too-many-params"@[0]);
    assert("prefer-effect-logging"@[0] != "agent-no-ts-namespace"@[0]);
    assert("prefer-effect-logging"@[0] != "agent-high-complexity"@[0]);
    assert("prefer-effect-logging"@[0] != "agent-too-many-params"@[0]);
    assert forall|i: int, j: int| #![trigger a[i], b[j]] 0 <= i < a.len() && 0 <= j < b.len() implies a[i].id@ != b[j].id@ by {
        assert(i == 0 || i == 1 || i == 2 || i == 3 || i == 4 || i == 5 || i == 6 || i == 7 || i == 8 || i == 9 || i == 10 || i == 11);
        assert(j == 0 || j == 1 || j == 2 || j == 3 || j == 4 || j == 5 || j == 6 || j == 7 || j == 8 || j == 9 || j == 10 || j == 11);
    }
}

proof fn lemma_apart_3_8()
    ensures
        ids_apart(chunk_3(), chunk_8()),
{
    reveal_strlit("no-unnecessary-fail-of-yieldable");
    reveal_strlit("no-effect-do-notation");
    reveal_strlit("no-orDie-to-silence-errors");
    reveal_strlit("prefer-effect-void");
    reveal_strlit("prefer-as-void");
    reveal_strlit("prefer-flatmap-over-map-flatten");
    reveal_strlit("no-unnecessary-pipe");
    reveal_strlit("prefer-catch-tag");
    reveal_strlit("catch-to-map-error");
    reveal_strlit("prefer-clock-service");
    reveal_strlit("prefer-random-service");
    reveal_strlit("prefer-effect-logging");
    reveal_strlit("agent-duplicate-function");
    reveal_strlit("oop-singleton-to-layer");
    reveal_strlit("oop-observer-to-pubsub");
    reveal_strlit("oop-strategy-to-function");
    reveal_strlit("oop-visitor-to-match");
    reveal_strlit("oop-chain-to-catchtag");
    reveal_strlit("max-function-parameters");
    reveal_strlit("max-nesting-depth");
    reveal_strlit("high-cognitive-complexity");
    reveal_strlit("agent-no-default-export");
    reveal_strlit("agent-duplicate-cross-file");
    reveal_strlit("agent-near-duplicate-function");
    reveal(chunk_3);
    reveal(chunk_8);
    let a = chunk_3();
    let b = chunk_8();
    assert(a[0].id@ == "no-unnecessary-fail-of-yieldable"@);
    assert(a[1].id@ == "no-effect-do-notation"@);
    assert(a[2].id@ == "no-orDie-to-silence-errors"@);
    assert(a[3].id@ == "prefer-effect-void"@);
    assert(a[4].id@ == "prefer-as-void"@);
    assert(a[5].id@ == "prefer-flatmap-over-map-flatten"@);
    assert(a[6].id@ == "no-unnecessary-pipe"@);
    assert(a[7].id@ == "prefer-catch-tag"@);
    assert(a[8].id@ == "catch-to-map-error"@);
    assert(a[9].id@ == "prefer-clock-service"@);
    assert(a[10].id@ == "prefer-random-service"@);
    assert(a[11].id@ == "prefer-effect-logging"@);
    assert(b[0].id@ == "agent-duplicate-function"@);
    assert(b[1].id@ == "oop-singleton-to-layer"@);
    assert(b[2].id@ == "oop-observer-to-pubsub"@);
    assert(b[3].id@ == "oop-strategy-to-function"@);
    assert(b[4].id@ == "oop-visitor-to-match"@);
    assert(b[5].id@ == "oop-chain-to-catchtag"@);
    assert(b[6].id@ == "max-function-parameters"@);
    assert(b[7].id@ == "max-nesting-depth"@);
    assert(b[8].id@ == "high-cognitive-complexity"@);
    assert(b[9].id@ == "agent-no-default-export"@);
    assert(b[10].id@ == "agent-duplicate-cross-file"@);
    assert(b[11].id@ == "agent-near-duplicate-function"@);
    assert("no-effect-do-notation"@[0] != "oop-chain-to-catchtag"@[0]);
    assert("no-orDie-to-silence-errors"@[0] != "agent-duplicate-cross-file"@[0]);
    assert("prefer-clock-service"@[0] != "oop-visitor-to-match"@[0]);
    assert("prefer-random-service"@[0] != "oop-chain-to-catchtag"@[0]);
    assert("prefer-effect-logging"@[0] != "oop-chain-to-catchtag"@[0]);
    assert forall|i: int, j: int| #![trigger a[i], b[j]] 0 <= i < a.len() && 0 <= j < b.len() implies a[i].id@ != b[j].id@ by {
        assert(i == 0 || i == 1 || i == 2 || i == 3 || i == 4 || i == 5 || i == 6 || i == 7 || i == 8 || i == 9 || i == 10 || i == 11);
        assert(j == 0 || j == 1 || j == 2 || j == 3 || j == 4 || j == 5 || j == 6 || j == 7 || j == 8 || j == 9 || j == 10 || j == 11);
    }
}

proof fn lemma_apart_3_9()
    ensures
        ids_apart(chunk_3(), chunk_9()),
{
    reveal_strlit("no-unnecessary-fail-of-yieldable");
    reveal_strlit("no-effect-do-notation");
    reveal_strlit("no-orDie-to-silence-errors");
    reveal_strlit("prefer-effect-void");
    reveal_strlit("prefer-as-void");
    reveal_strlit("prefer-flatmap-over-map-flatten");
    reveal_strlit("no-unnecessary-pipe");
    reveal_strlit("prefer-catch-tag");
    reveal_strlit("catch-to-map-error");
    reveal_strlit("prefer-clock-service");
    reveal_strlit("prefer-random-service");
    reveal_strlit("prefer-effect-logging");
    reveal_strlit("agent-similar-function-name");
    reveal_strlit("agent-similar-shape");
    reveal_strlit("agent-circular-import");
    reveal(chunk_3);
    reveal(chunk_9);
    let a = chunk_3();
    let b = chunk_9();
    assert(a[0].id@ == "no-unnecessary-fail-of-yieldable"@);
    assert(a[1].id@ == "no-effect-do-notation"@);
    assert(a[2].id@ == "no-orDie-to-silence-errors"@);
    assert(a[3].id@ == "prefer-effect-void"@);
    assert(a[4].id@ == "prefer-as-void"@);
    assert(a[5].id@ == "prefer-flatmap-over-map-flatten"@);
    assert(a[6].id@ == "no-unnecessary-pipe"@);
    assert(a[7].id@ == "prefer-catch-tag"@);
    assert(a[8].id@ == "catch-to-map-error"@);
    assert(a[9].id@ == "prefer-clock-service"@);
    assert(a[10].id@ == "prefer-random-service"@);
    assert(a[11].id@ == "prefer-effect-logging"@);
    assert(b[0].id@ == "agent-similar-function-name"@);
    assert(b[1].id@ == "agent-similar-shape"@);
    assert(b[2].id@ == "agent-circular-import"@);
    assert("no-effect-do-notation"@[0] != "agent-circular-import"@[0]);
    assert("no-unnecessary-pipe"@[0] != "agent-similar-shape"@[0]);
    assert("prefer-random-service"@[0] != "agent-circular-import"@[0]);
    assert("prefer-effect-logging"@[0] != "agent-circular-import"@[0]);
    assert forall|i: int, j: int| #![trigger a[i], b[j]] 0 <= i < a.len() && 0 <= j < b.len() implies a[i].id@ != b[j].id@ by {
        assert(i == 0 || i == 1 || i == 2 || i == 3 || i == 4 || i == 5 || i == 6 || i == 7 || i == 8 || i == 9 || i == 10 || i == 11);
        assert(j == 0 || j == 1 || j == 2);
    }
}

proof fn lemma_apart_4_5()
    ensures
        ids_apart(chunk_4(), chunk_5()),
{
    reveal_strlit("prefer-effect-timers");
    reveal_strlit("prefer-platform-fetch");
    reveal_strlit("prefer-config-module");
    reveal_strlit("prefer-schema-over-json");
    reveal_strlit("prefer-effect-fn");
    reveal_strlit("prefer-tagged-error-classes");
    reveal_strlit("prefer-decode-effect");
    reveal_strlit("hoist-schema-codecs");
    reveal_strlit("meaningful-span-names");
    reveal_strlit("prefer-node-effect-counterparts");
    reveal_strlit("prefer-it-effect");
    reveal_strlit("no-chained-provides");
    reveal_strlit("no-manual-sql-transactions");
    reveal_strlit("retry-only-retryable");
    reveal_strlit("add-jitter-to-backoff");
    reveal_strlit("cap-exponential-backoff");
    reveal_strlit("no-unbounded-concurrency");
    reveal_strlit("adopt-async-function");
    reveal_strlit("adopt-promise-chain");
    reveal_strlit("adopt-new-promise");
    reveal_strlit("adopt-promise-all");
    reveal_strlit("adopt-await-in-loop");
    reveal_strlit("prefer-foreach-over-yield-loop");
    reveal_strlit("agent-no-if-else-chain");
    reveal(chunk_4);
    reveal(chunk_5);
    let a = chunk_4();
    let b = chunk_5();
    assert(a[0].id@ == "prefer-effect-timers"@);
    assert(a[1].id@ == "prefer-platform-fetch"@);
    assert(a[2].id@ == "prefer-config-module"@);
    assert(a[3].id@ == "prefer-schema-over-json"@);
    assert(a[4].id@ == "prefer-effect-fn"@);
    assert(a[5].id@ == "prefer-tagged-error-classes"@);
    assert(a[6].id@ == "prefer-decode-effect"@);
    assert(a[7].id@ == "hoist-schema-codecs"@);
    assert(a[8].id@ == "meaningful-span-names"@);
    assert(a[9].id@ == "prefer-node-effect-counterparts"@);
    assert(a[10].id@ == "prefer-it-effect"@);
    assert(a[11].id@ == "no-chained-provides"@);
    assert(b[0].id@ == "no-manual-sql-transactions"@);
    assert(b[1].id@ == "retry-only-retryable"@);
    assert(b[2].id@ == "add-jitter-to-backoff"@);
    assert(b[3].id@ == "cap-exponential-backoff"@);
    assert(b[4].id@ == "no-unbounded-concurrency"@);
    assert(b[5].id@ == "adopt-async-function"@);
    assert(b[6].id@ == "adopt-promise-chain"@);
    assert(b[7].id@ == "adopt-new-promise"@);
    assert(b[8].id@ == "adopt-promise-all"@);
    assert(b[9].id@ == "adopt-await-in-loop"@);
    assert(b[10].id@ == "prefer-foreach-over-yield-loop"@);
    assert(b[11].id@ == "agent-no-if-else-chain"@);
    assert("prefer-effect-timers"@[0] != "retry-only-retryable"@[0]);
    assert("prefer-effect-timers"@[0] != "adopt-async-function"@[0]);
    assert("prefer-platform-fetch"@[0] != "add-jitter-to-backoff"@[0]);
    assert("prefer-config-module"@[0] != "retry-only-retryable"@[0]);
    assert("prefer-config-module"@[0] != "adopt-async-function"@[0]);
    assert("prefer-schema-over-json"@[0] != "cap-exponential-backoff"@[0]);
    assert("prefer-decode-effect"@[0] != "retry-only-retryable"@[0]);
    assert("prefer-decode-effect"@[0] != "adopt-async-function"@[0]);
    assert("hoist-schema-codecs"@[0] != "adopt-promise-chain"@[0]);
    assert("hoist-schema-codecs"@[0] != "adopt-await-in-loop"@[0]);
    assert("meaningful-span-names"@[0] != "add-jitter-to-backoff"@[0]);
    assert("no-chained-provides"@[0] != "adopt-promise-chain"@[0]);
    assert("no-chained-provides"@[0] != "adopt-await-in-loop"@[0]);
    assert forall|i: int, j: int| #![trigger a[i], b[j]] 0 <= i < a.len() && 0 <= j < b.len() implies a[i].id@ != b[j].id@ by {
        assert(i == 0 || i == 1 || i == 2 || i == 3 || i == 4 || i == 5 || i == 6 || i == 7 || i == 8 || i == 9 || i == 10 || i == 11);
        assert(j == 0 || j == 1 || j == 2 || j == 3 || j == 4 || j == 5 || j == 6 || j == 7 || j == 8 || j == 9 || j == 10 || j == 11);
    }
}

proof fn lemma_apart_4_6()
    ensures
        ids_apart(chunk_4(), chunk_6()),
{
    reveal_strlit("prefer-effect-timers");
    reveal_strlit("prefer-platform-fetch");
    reveal_strlit("prefer-config-module");
    reveal_strlit("prefer-schema-over-json");
    reveal_strlit("prefer-effect-fn");
    reveal_strlit("prefer-tagged-error-classes");
    reveal_strlit("prefer-decode-effect");
    reveal_strlit("hoist-schema-codecs");
    reveal_strlit("meaningful-span-names");
    reveal_strlit("prefer-node-effect-counterparts");
    reveal_strlit("prefer-it-effect");
    reveal_strlit("no-chained-provides");
    reveal_strlit("agent-no-ternary");
    reveal_strlit("agent-no-string-equality-guard");
    reveal_strlit("agent-no-raw-loop");
    reveal_strlit("agent-no-let");
    reveal_strlit("agent-no-mutation");
    reveal_strlit("agent-no-inline-import");
    reveal_strlit("agent-no-any");
    reveal_strlit("agent-no-import-alias");
    reveal_strlit("agent-no-namespace-import");
    reveal_strlit("agent-no-try-catch");
    reveal_strlit("agent-no-as-cast");
    reveal_strlit("agent-no-unbounded-promise-all");
    reveal(chunk_4);
    reveal(chunk_6);
    let a = chunk_4();
    let b = chunk_6();
    assert(a[0].id@ == "prefer-effect-timers"@);
    assert(a[1].id@ == "prefer-platform-fetch"@);
    assert(a[2].id@ == "prefer-config-module"@);
    assert(a[3].id@ == "prefer-schema-over-json"@);
    assert(a[4].id@ == "prefer-effect-fn"@);
    assert(a[5].id@ == "prefer-tagged-error-classes"@);
    assert(a[6].id@ == "prefer-decode-effect"@);
    assert(a[7].id@ == "hoist-schema-codecs"@);
    assert(a[8].id@ == "meaningful-span-names"@);
    assert(a[9].id@ == "prefer-node-effect-counterparts"@);
    assert(a[10].id@ == "prefer-it-effect"@);
    assert(a[11].id@ == "no-chained-provides"@);
    assert(b[0].id@ == "agent-no-ternary"@);
    assert(b[1].id@ == "agent-no-string-equality-guard"@);
    assert(b[2].id@ == "agent-no-raw-loop"@);
    assert(b[3].id@ == "agent-no-let"@);
    assert(b[4].id@ == "agent-no-mutation"@);
    assert(b[5].id@ == "agent-no-inline-import"@);
    assert(b[6].id@ == "agent-no-any"@);
    assert(b[7].id@ == "agent-no-import-alias"@);
    assert(b[8].id@ == "agent-no-namespace-import"@);
    assert(b[9].id@ == "agent-no-try-catch"@);
    assert(b[10].id@ == "agent-no-as-cast"@);
    assert(b[11].id@ == "agent-no-unbounded-promise-all"@);
    assert("prefer-platform-fetch"@[0] != "agent-no-import-alias"@[0]);
    assert("prefer-effect-fn"@[0] != "agent-no-ternary"@[0]);
    assert("prefer-effect-fn"@[0] != "agent-no-as-cast"@[0]);
    assert("meaningful-span-names"@[0] != "agent-no-import-alias"@[0]);
    assert("prefer-it-effect"@[0] != "agent-no-ternary"@[0]);
    assert("prefer-it-effect"@[0] != "agent-no-as-cast"@[0]);
    assert forall|i: int, j: int| #![trigger a[i], b[j]] 0 <= i < a.len() && 0 <= j < b.len() implies a[i].id@ != b[j].id@ by {
        assert(i == 0 || i == 1 || i == 2 || i == 3 || i == 4 || i == 5 || i == 6 || i == 7 || i == 8 || i == 9 || i == 10 || i == 11);
        assert(j == 0 || j == 1 || j == 2 || j == 3 || j == 4 || j == 5 || j == 6 || j == 7 || j == 8 || j == 9 || j == 10 || j == 11);
    }
}

proof fn lemma_apart_4_7()
    ensures
        ids_apart(chunk_4(), chunk_7()),
{
    reveal_strlit("prefer-effect-timers");
    reveal_strlit("prefer-platform-fetch");
    reveal_strlit("prefer-config-module");
    reveal_strlit("prefer-schema-over-json");
    reveal_strlit("prefer-effect-fn");
    reveal_strlit("prefer-tagged-error-classes");
    reveal_strlit("prefer-decode-effect");
    reveal_strlit("hoist-schema-codecs");
    reveal_strlit("meaningful-span-names");
    reveal_strlit("prefer-node-effect-counterparts");
    reveal_strlit("prefer-it-effect");
    reveal_strlit("no-chained-provides");
    reveal_strlit("agent-no-loose-equality");
    reveal_strlit("agent-no-non-null-assertion");
    reveal_strlit("agent-no-enum");
    reveal_strlit("agent-prefer-safe-parse");
    reveal_strlit("agent-no-inline-type-import");
    reveal_strlit("agent-no-ts-namespace");
    reveal_strlit("agent-no-throw");
    reveal_strlit("agent-no-delete");
    reveal_strlit("agent-deep-nesting");
    reveal_strlit("agent-high-complexity");
    reveal_strlit("agent-too-many-params");
    reveal_strlit("agent-deep-relative-import");
    reveal(chunk_4);
    reveal(chunk_7);
    let a = chunk_4();
    let b = chunk_7();
    assert(a[0].id@ == "prefer-effect-timers"@);
    assert(a[1].id@ == "prefer-platform-fetch"@);
    assert(a[2].id@ == "prefer-config-module"@);
    assert(a[3].id@ == "prefer-schema-over-json"@);
    assert(a[4].id@ == "prefer-effect-fn"@);
    assert(a[5].id@ == "prefer-tagged-error-classes"@);
    assert(a[6].id@ == "prefer-decode-effect"@);
    assert(a[7].id@ == "hoist-schema-codecs"@);
    assert(a[8].id@ == "meaningful-span-names"@);
    assert(a[9].id@ == "prefer-node-effect-counterparts"@);
    assert(a[10].id@ == "prefer-it-effect"@);
    assert(a[11].id@ == "no-chained-provides"@);
    assert(b[0].id@ == "agent-no-loose-equality"@);
    assert(b[1].id@ == "agent-no-non-null-assertion"@);
    assert(b[2].id@ == "agent-no-enum"@);
    assert(b[3].id@ == "agent-prefer-safe-parse"@);
    assert(b[4].id@ == "agent-no-inline-type-import"@);
    assert(b[5].id@ == "agent-no-ts-namespace"@);
    assert(b[6].id@ == "agent-no-throw"@);
    assert(b[7].id@ == "agent-no-delete"@);
    assert(b[8].id@ == "agent-deep-nesting"@);
    assert(b[9].id@ == "agent-high-complexity"@);
    assert(b[10].id@ == "agent-too-many-params"@);
    assert(b[11].id@ == "agent-deep-relative-import"@);
    assert("prefer-platform-fetch"@[0] != "agent-no-ts-namespace"@[0]);
    assert("prefer-platform-fetch"@[0] != "agent-high-complexity"@[0]);
    assert("prefer-platform-fetch"@[0] != "agent-too-many-params"@[0]);
    assert("prefer-schema-over-json"@[0] != "agent-no-loose-equality"@[0]);
    assert("prefer-schema-over-json"@[0] != "agent-prefer-safe-parse"@[0]);
    assert("prefer-tagged-error-classes"@[0] != "agent-no-non-null-assertion"@[0]);
    assert("prefer-tagged-error-classes"@[0] != "agent-no-inline-type-import"@[0]);
    assert("meaningful-span-names"@[0] != "agent-no-ts-namespace"@[0]);
    assert("meaningful-span-names"@[0] != "agent-high-complexity"@[0]);
    assert("meaningful-span-names"@[0] != "agent-too-many-params"@[0]);
    assert forall|i: int, j: int| #![trigger a[i], b[j]] 0 <= i < a.len() && 0 <= j < b.len() implies a[i].id@ != b[j].id@ by {
        assert(i == 0 || i == 1 || i == 2 || i == 3 || i == 4 || i == 5 || i == 6 || i == 7 || i == 8 || i == 9 || i == 10 || i == 11);
        assert(j == 0 || j == 1 || j == 2 || j == 3 || j == 4 || j == 5 || j == 6 || j == 7 || j == 8 || j == 9 || j == 10 || j == 11);
    }
}

proof fn lemma_apart_4_8()
    ensures
        ids_apart(chunk_4(), chunk_8()),
{
    reveal_strlit("prefer-effect-timers");
    reveal_strlit("prefer-platform-fetch");
    reveal_strlit("prefer-config-module");
    reveal_strlit("prefer-schema-over-json");
    reveal_strlit("prefer-effect-fn");
    reveal_strlit("prefer-tagged-error-classes");
    reveal_strlit("prefer-decode-effect");
    reveal_strlit("hoist-schema-codecs");
    reveal_strlit("meaningful-span-names");
    reveal_strlit("prefer-node-effect-counterparts");
    reveal_strlit("prefer-it-effect");
    reveal_strlit("no-chained-provides");
    reveal_strlit("agent-duplicate-function");
    reveal_strlit("oop-singleton-to-layer");
    reveal_strlit("oop-observer-to-pubsub");
    reveal_strlit("oop-strategy-to-function");
    reveal_strlit("oop-visitor-to-match");
    reveal_strlit("oop-chain-to-catchtag");
    reveal_strlit("max-function-parameters");
    reveal_strlit("max-nesting-depth");
    reveal_strlit("high-cognitive-complexity");
    reveal_strlit("agent-no-default-export");
    reveal_strlit("agent-duplicate-cross-file");
    reveal_strlit("agent-near-duplicate-function");
    reveal(chunk_4);
    reveal(chunk_8);
    let a = chunk_4();
    let b = chunk_8();
    assert(a[0].id@ == "prefer-effect-timers"@);
    assert(a[1].id@ == "prefer-platform-fetch"@);
    assert(a[2].id@ == "prefer-config-module"@);
    assert(a[3].id@ == "prefer-schema-over-json"@);
    assert(a[4].id@ == "prefer-effect-fn"@);
    assert(a[5].id@ == "prefer-tagged-error-classes"@);
    assert(a[6].id@ == "prefer-decode-effect"@);
    assert(a[7].id@ == "hoist-schema-codecs"@);
    assert(a[8].id@ == "meaningful-span-names"@);
    assert(a[9].id@ == "prefer-node-effect-counterparts"@);
    assert(a[10].id@ == "prefer-it-effect"@);
    assert(a[11].id@ == "no-chained-provides"@);
    assert(b[0].id@ == "agent-duplicate-function"@);
    assert(b[1].id@ == "oop-singleton-to-layer"@);
    assert(b[2].id@ == "oop-observer-to-pubsub"@);
    assert(b[3].id@ == "oop-strategy-to-function"@);
    assert(b[4].id@ == "oop-visitor-to-match"@);
    assert(b[5].id@ == "oop-chain-to-catchtag"@);
    assert(b[6].id@ == "max-function-parameters"@);
    assert(b[7].id@ == "max-nesting-depth"@);
    assert(b[8].id@ == "high-cognitive-complexity"@);
    assert(b[9].id@ == "agent-no-default-export"@);
    assert(b[10].id@ == "agent-duplicate-cross-file"@);
    assert(b[11].id@ == "agent-near-duplicate-function"@);
    assert("prefer-effect-timers"@[0] != "oop-visitor-to-match"@[0]);
    assert("prefer-platform-fetch"@[0] != "oop-chain-to-catchtag"@[0]);
    assert("prefer-config-module"@[0] != "oop-visitor-to-match"@[0]);
    assert("prefer-schema-over-json"@[0] != "max-function-parameters"@[0]);
    assert("prefer-schema-over-json"@[0] != "agent-no-default-export"@[0]);
    assert("prefer-decode-effect"@[0] != "oop-visitor-to-match"@[0]);
    assert("meaningful-span-names"@[0] != "oop-chain-to-catchtag"@[0]);
    assert forall|i: int, j: int| #![trigger a[i], b[j]] 0 <= i < a.len() && 0 <= j < b.len() implies a[i].id@ != b[j].id@ by {
        assert(i == 0 || i == 1 || i == 2 || i == 3 || i == 4 || i == 5 || i == 6 || i == 7 || i == 8 || i == 9 || i == 10 || i == 11);
        assert(j == 0 || j == 1 || j == 2 || j == 3 || j == 4 || j == 5 || j == 6 || j == 7 || j == 8 || j == 9 || j == 10 || j == 11);
    }
}

proof fn lemma_apart_4_9()
    ensures
        ids_apart(chunk_4(), chunk_9()),
{
    reveal_strlit("prefer-effect-timers");
    reveal_strlit("prefer-platform-fetch");
    reveal_strlit("prefer-config-module");
    reveal_strlit("prefer-schema-over-json");
    reveal_strlit("prefer-effect-fn");
    reveal_strlit("prefer-tagged-error-classes");
    reveal_strlit("prefer-decode-effect");
    reveal_strlit("hoist-schema-codecs");
    reveal_strlit("meaningful-span-names");
    reveal_strlit("prefer-node-effect-counterparts");
    reveal_strlit("prefer-it-effect");
    reveal_strlit("no-chained-provides");
    reveal_strlit("agent-similar-function-name");
    reveal_strlit("agent-similar-shape");
    reveal_strlit("agent-circular-import");
    reveal(chunk_4);
    reveal(chunk_9);
    let a = chunk_4();
    let b = chunk_9();
    assert(a[0].id@ == "prefer-effect-timers"@);
    assert(a[1].id@ == "prefer-platform-fetch"@);
    assert(a[2].id@ == "prefer-config-module"@);
    assert(a[3].id@ == "prefer-schema-over-json"@);
    assert(a[4].id@ == "prefer-effect-fn"@);
    assert(a[5].id@ == "prefer-tagged-error-classes"@);
    assert(a[6].id@ == "prefer-decode-effect"@);
    assert(a[7].id@ == "hoist-schema-codecs"@);
    assert(a[8].id@ == "meaningful-span-names"@);
    assert(a[9].id@ == "prefer-node-effect-counterparts"@);
    assert(a[10].id@ == "prefer-it-effect"@);
    assert(a[11].id@ == "no-chained-provides"@);
    assert(b[0].id@ == "agent-similar-function-name"@);
    assert(b[1].id@ == "agent-similar-shape"@);
    assert(b[2].id@ == "agent-circular-import"@);
    assert("prefer-platform-fetch"@[0] != "agent-circular-import"@[0]);
    assert("prefer-tagged-error-classes"@[0] != "agent-similar-function-name"@[0]);
    assert("hoist-schema-codecs"@[0] != "agent-similar-shape"@[0]);
    assert("meaningful-span-names"@[0] != "agent-circular-import"@[0]);
    assert("no-chained-provides"@[0] != "agent-similar-shape"@[0]);
    assert forall|i: int, j: int| #![trigger a[i], b[j]] 0 <= i < a.len() && 0 <= j < b.len() implies a[i].id@ != b[j].id@ by {
        assert(i == 0 || i == 1 || i == 2 || i == 3 || i == 4 || i == 5 || i == 6 || i == 7 || i == 8 || i == 9 || i == 10 || i == 11);
        assert(j == 0 || j == 1 || j == 2);
    }
}

proof fn lemma_apart_5_6()
    ensures
        ids_apart(chunk_5(), chunk_6()),
{
    reveal_strlit("no-manual-sql-transactions");
    reveal_strlit("retry-only-retryable");
    reveal_strlit("add-jitter-to-backoff");
    reveal_strlit("cap-exponential-backoff");
    reveal_strlit("no-unbounded-concurrency");
    reveal_strlit("adopt-async-function");
    reveal_strlit("adopt-promise-chain");
    reveal_strlit("adopt-new-promise");
    reveal_strlit("adopt-promise-all");
    reveal_strlit("adopt-await-in-loop");
    reveal_strlit("prefer-foreach-over-yield-loop");
    reveal_strlit("agent-no-if-else-chain");
    reveal_strlit("agent-no-ternary");
    reveal_strlit("agent-no-string-equality-guard");
    reveal_strlit("agent-no-raw-loop");
    reveal_strlit("agent-no-let");
    reveal_strlit("agent-no-mutation");
    reveal_strlit("agent-no-inline-import");
    reveal_strlit("agent-no-any");
    reveal_strlit("agent-no-import-alias");
    reveal_strlit("agent-no-namespace-import");
    reveal_strlit("agent-no-try-catch");
    reveal_strlit("agent-no-as-cast");
    reveal_strlit("agent-no-unbounded-promise-all");
    reveal(chunk_5);
    reveal(chunk_6);
    let a = chunk_5();
    let b = chunk_6();
    assert(a[0].id@ == "no-manual-sql-transactions"@);
    assert(a[1].id@ == "retry-only-retryable"@);
    assert(a[2].id@ == "add-jitter-to-backoff"@);
    assert(a[3].id@ == "cap-exponential-backoff"@);
    assert(a[4].id@ == "no-unbounded-concurrency"@);
    assert(a[5].id@ == "adopt-async-function"@);
    assert(a[6].id@ == "adopt-promise-chain"@);
    assert(a[7].id@ == "adopt-new-promise"@);
    assert(a[8].id@ == "adopt-promise-all"@);
    assert(a[9].id@ == "adopt-await-in-loop"@);
    assert(a[10].id@ == "prefer-foreach-over-yield-loop"@);
    assert(a[11].id@ == "agent-no-if-else-chain"@);
    assert(b[0].id@ == "agent-no-ternary"@);
    assert(b[1].id@ == "agent-no-string-equality-guard"@);
    assert(b[2].id@ == "agent-no-raw-loop"@);
    assert(b[3].id@ == "agent-no-let"@);
    assert(b[4].id@ == "agent-no-mutation"@);
    assert(b[5].id@ == "agent-no-inline-import"@);
    assert(b[6].id@ == "agent-no-any"@);
    assert(b[7].id@ == "agent-no-import-alias"@);
    assert(b[8].id@ == "agent-no-namespace-import"@);
    assert(b[9].id@ == "agent-no-try-catch"@);
    assert(b[10].id@ == "agent-no-as-cast"@);
    assert(b[11].id@ == "agent-no-unbounded-promise-all"@);
    assert("add-jitter-to-backoff"@[1] != "agent-no-import-alias"@[1]);
    assert("adopt-new-promise"@[1] != "agent-no-raw-loop"@[1]);
    assert("adopt-new-promise"@[1] != "agent-no-mutation"@[1]);
    assert("adopt-promise-all"@[1] != "agent-no-raw-loop"@[1]);
    assert("adopt-promise-all"@[1] != "agent-no-mutation"@[1]);
    assert("prefer-foreach-over-yield-loop"@[0] != "agent-no-string-equality-guard"@[0]);
    assert("prefer-foreach-over-yield-loop"@[0] != "agent-no-unbounded-promise-all"@[0]);
    assert("agent-no-if-else-chain"@[10] != "agent-no-inline-import"@[10]);
    assert forall|i: int, j: int| #![trigger a[i], b[j]] 0 <= i < a.len() && 0 <= j < b.len() implies a[i].id@ != b[j].id@ by {
        assert(i == 0 || i == 1 || i == 2 || i == 3 || i == 4 || i == 5 || i == 6 || i == 7 || i == 8 || i == 9 || i == 10 || i == 11);
        assert(j == 0 || j == 1 || j == 2 || j == 3 || j == 4 || j == 5 || j == 6 || j == 7 || j == 8 || j == 9 || j == 10 || j == 11);
    }
}

proof fn lemma_apart_5_7()
    ensures
        ids_apart(chunk_5(), chunk_7()),
{
    reveal_strlit("no-manual-sql-transactions");
    reveal_strlit("retry-only-retryable");
    reveal_strlit("add-jitter-to-backoff");
    reveal_strlit("cap-exponential-backoff");
    reveal_strlit("no-unbounded-concurrency");
    reveal_strlit("adopt-async-function");
    reveal_strlit("adopt-promise-chain");
    reveal_strlit("adopt-new-promise");
    reveal_strlit("adopt-promise-all");
    reveal_strlit("adopt-await-in-loop");
    reveal_strlit("prefer-foreach-over-yield-loop");
    reveal_strlit("agent-no-if-else-chain");
    reveal_strlit("agent-no-loose-equality");
    reveal_strlit("agent-no-non-null-assertion");
    reveal_strlit("agent-no-enum");
    reveal_strlit("agent-prefer-safe-parse");
    reveal_strlit("agent-no-inline-type-import");
    reveal_strlit("agent-no-ts-namespace");
    reveal_strlit("agent-no-throw");
    reveal_strlit("agent-no-delete");
    reveal_strlit("agent-deep-nesting");
    reveal_strlit("agent-high-complexity");
    reveal_strlit("agent-too-many-params");
    reveal_strlit("agent-deep-relative-import");
    reveal(chunk_5);
    reveal(chunk_7);
    let a = chunk_5();
    let b = chunk_7();
    assert(a[0].id@ == "no-manual-sql-transactions"@);
    assert(a[1].id@ == "retry-only-retryable"@);
    assert(a[2].id@ == "add-jitter-to-backoff"@);
    assert(a[3].id@ == "cap-exponential-backoff"@);
    assert(a[4].id@ == "no-unbounded-concurrency"@);
    assert(a[5].id@ == "adopt-async-function"@);
    assert(a[6].id@ == "adopt-promise-chain"@);
    assert(a[7].id@ == "adopt-new-promise"@);
    assert(a[8].id@ == "adopt-promise-all"@);
    assert(a[9].id@ == "adopt-await-in-loop"@);
    assert(a[10].id@ == "prefer-foreach-over-yield-loop"@);
    assert(a[11].id@ == "agent-no-if-else-chain"@);
    assert(b[0].id@ == "agent-no-loose-equality"@);
    assert(b[1].id@ == "agent-no-non-null-assertion"@);
    assert(b[2].id@ == "agent-no-enum"@);
    assert(b[3].id@ == "agent-prefer-safe-parse"@);
    assert(b[4].id@ == "agent-no-inline-type-import"@);
    assert(b[5].id@ == "agent-no-ts-namespace"@);
    assert(b[6].id@ == "agent-no-throw"@);
    assert(b[7].id@ == "agent-no-delete"@);
    assert(b[8].id@ == "agent-deep-nesting"@);
    assert(b[9].id@ == "agent-high-complexity"@);
    assert(b[10].id@ == "agent-too-many-params"@);
    assert(b[11].id@ == "agent-deep-relative-import"@);
    assert("no-manual-sql-transactions"@[0] != "agent-deep-relative-import"@[0]);
    assert("add-jitter-to-backoff"@[1] != "agent-no-ts-namespace"@[1]);
    assert("add-jitter-to-backoff"@[1] != "agent-high-complexity"@[1]);
    assert("add-jitter-to-backoff"@[1] != "agent-too-many-params"@[1]);
    assert("cap-exponential-backoff"@[0] != "agent-no-loose-equality"@[0]);
    assert("cap-exponential-backoff"@[0] != "agent-prefer-safe-parse"@[0]);
    assert forall|i: int, j: int| #![trigger a[i], b[j]] 0 <= i < a.len() && 0 <= j < b.len() implies a[i].id@ != b[j].id@ by {
        assert(i == 0 || i == 1 || i == 2 || i == 3 || i == 4 || i == 5 || i == 6 || i == 7 || i == 8 || i == 9 || i == 10 || i == 11);
        assert(j == 0 || j == 1 || j == 2 || j == 3 || j == 4 || j == 5 || j == 6 || j == 7 || j == 8 || j == 9 || j == 10 || j == 11);
    }
}

proof fn lemma_apart_5_8()
    ensures
        ids_apart(chunk_5(), chunk_8()),
{
    reveal_strlit("no-manual-sql-transactions");
    reveal_strlit("retry-only-retryable");
    reveal_strlit("add-jitter-to-backoff");
    reveal_strlit("cap-exponential-backoff");
    reveal_strlit("no-unbounded-concurrency");
    reveal_strlit("adopt-async-function");
    reveal_strlit("adopt-promise-chain");
    reveal_strlit("adopt-new-promise");
    reveal_strlit("adopt-promise-all");
    reveal_strlit("adopt-await-in-loop");
    reveal_strlit("prefer-foreach-over-yield-loop");
    reveal_strlit("agent-no-if-else-chain");
    reveal_strlit("agent-duplicate-function");
    reveal_strlit("oop-singleton-to-layer");
    reveal_strlit("oop-observer-to-pubsub");
    reveal_strlit("oop-strategy-to-function");
    reveal_strlit("oop-visitor-to-match");
    reveal_strlit("oop-chain-to-catchtag");
    reveal_strlit("max-function-parameters");
    reveal_strlit("max-nesting-depth");
    reveal_strlit("high-cognitive-complexity");
    reveal_strlit("agent-no-default-export");
    reveal_strlit("agent-duplicate-cross-file");
    reveal_strlit("agent-near-duplicate-function");
    reveal(chunk_5);
    reveal(chunk_8);
    let a = chunk_5();
    let b = chunk_8();
    assert(a[0].id@ == "no-manual-sql-transactions"@);
    assert(a[1].id@ == "retry-only-retryable"@);
    assert(a[2].id@ == "add-jitter-to-backoff"@);
    assert(a[3].id@ == "cap-exponential-backoff"@);
    assert(a[4].id@ == "no-unbounded-concurrency"@);
    assert(a[5].id@ == "adopt-async-function"@);
    assert(a[6].id@ == "adopt-promise-chain"@);
    assert(a[7].id@ == "adopt-new-promise"@);
    assert(a[8].id@ == "adopt-promise-all"@);
    assert(a[9].id@ == "adopt-await-in-loop"@);
    assert(a[10].id@ == "prefer-foreach-over-yield-loop"@);
    assert(a[11].id@ == "agent-no-if-else-chain"@);
    assert(b[0].id@ == "agent-duplicate-function"@);
    assert(b[1].id@ == "oop-singleton-to-layer"@);
    assert(b[2].id@ == "oop-observer-to-pubsub"@);
    assert(b[3].id@ == "oop-strategy-to-function"@);
    assert(b[4].id@ == "oop-visitor-to-match"@);
    assert(b[5].id@ == "oop-chain-to-catchtag"@);
    assert(b[6].id@ == "max-function-parameters"@);
    assert(b[7].id@ == "max-nesting-depth"@);
    assert(b[8].id@ == "high-cognitive-complexity"@);
    assert(b[9].id@ == "agent-no-default-export"@);
    assert(b[10].id@ == "agent-duplicate-cross-file"@);
    assert(b[11].id@ == "agent-near-duplicate-function"@);
    assert("no-manual-sql-transactions"@[0] != "agent-duplicate-cross-file"@[0]);
    assert("retry-only-retryable"@[0] != "oop-visitor-to-match"@[0]);
    assert("add-jitter-to-backoff"@[0] != "oop-chain-to-catchtag"@[0]);
    assert("cap-exponential-backoff"@[0] != "max-function-parameters"@[0]);
    assert("cap-exponential-backoff"@[0] != "agent-no-default-export"@[0]);
    assert("no-unbounded-concurrency"@[0] != "agent-duplicate-function"@[0]);
    assert("no-unbounded-concurrency"@[0] != "oop-strategy-to-function"@[0]);
    assert("adopt-async-function"@[0] != "oop-visitor-to-match"@[0]);
    assert("adopt-new-promise"@[0] != "max-nesting-depth"@[0]);
    assert("adopt-promise-all"@[0] != "max-nesting-depth"@[0]);
    assert("agent-no-if-else-chain"@[0] != "oop-singleton-to-layer"@[0]);
    assert("agent-no-if-else-chain"@[0] != "oop-observer-to-pubsub"@[0]);
    assert forall|i: int, j: int| #![trigger a[i], b[j]] 0 <= i < a.len() && 0 <= j < b.len() implies a[i].id@ != b[j].id@ by {
        assert(i == 0 || i == 1 || i == 2 || i == 3 || i == 4 || i == 5 || i == 6 || i == 7 || i == 8 || i == 9 || i == 10 || i == 11);
        assert(j == 0 || j == 1 || j == 2 || j == 3 || j == 4 || j == 5 || j == 6 || j == 7 || j == 8 || j == 9 || j == 10 || j == 11);
    }
}

proof fn lemma_apart_5_9()
    ensures
        ids_apart(chunk_5(), chunk_9()),
{
    reveal_strlit("no-manual-sql-transactions");
    reveal_strlit("retry-only-retryable");
    reveal_strlit("add-jitter-to-backoff");
    reveal_strlit("cap-exponential-backoff");
    reveal_strlit("no-unbounded-concurrency");
    reveal_strlit("adopt-async-function");
    reveal_strlit("adopt-promise-chain");
    reveal_strlit("adopt-new-promise");
    reveal_strlit("adopt-promise-all");
    reveal_strlit("adopt-await-in-loop");
    reveal_strlit("prefer-foreach-over-yield-loop");
    reveal_strlit("agent-no-if-else-chain");
    reveal_strlit("agent-similar-function-name");
    reveal_strlit("agent-similar-shape");
    reveal_strlit("agent-circular-import");
    reveal(chunk_5);
    reveal(chunk_9);
    let a = chunk_5();
    let b = chunk_9();
    assert(a[0].id@ == "no-manual-sql-transactions"@);
    assert(a[1].id@ == "retry-only-retryable"@);
    assert(a[2].id@ == "add-jitter-to-backoff"@);
    assert(a[3].id@ == "cap-exponential-backoff"@);
    assert(a[4].id@ == "no-unbounded-concurrency"@);
    assert(a[5].id@ == "adopt-async-function"@);
    assert(a[6].id@ == "adopt-promise-chain"@);
    assert(a[7].id@ == "adopt-new-promise"@);
    assert(a[8].id@ == "adopt-promise-all"@);
    assert(a[9].id@ == "adopt-await-in-loop"@);
    assert(a[10].id@ == "prefer-foreach-over-yield-loop"@);
    assert(a[11].id@ == "agent-no-if-else-chain"@);
    assert(b[0].id@ == "agent-similar-function-name"@);
    assert(b[1].id@ == "agent-similar-shape"@);
    assert(b[2].id@ == "agent-circular-import"@);
    assert("add-jitter-to-backoff"@[1] != "agent-circular-import"@[1]);
    assert("adopt-promise-chain"@[1] != "agent-similar-shape"@[1]);
    assert("adopt-await-in-loop"@[1] != "agent-similar-shape"@[1]);
    assert forall|i: int, j: int| #![trigger a[i], b[j]] 0 <= i < a.len() && 0 <= j < b.len() implies a[i].id@ != b[j].id@ by {
        assert(i == 0 || i == 1 || i == 2 || i == 3 || i == 4 || i == 5 || i == 6 || i == 7 || i == 8 || i == 9 || i == 10 || i == 11);
        assert(j == 0 || j == 1 || j == 2);
    }
}

proof fn lemma_apart_6_7()
    ensures
        ids_apart(chunk_6(), chunk_7()),
{
    reveal_strlit("agent-no-ternary");
    reveal_strlit("agent-no-string-equality-guard");
    reveal_strlit("agent-no-raw-loop");
    reveal_strlit("agent-no-let");
    reveal_strlit("agent-no-mutation");
    reveal_strlit("agent-no-inline-import");
    reveal_strlit("agent-no-any");
    reveal_strlit("agent-no-import-alias");
    reveal_strlit("agent-no-namespace-import");
    reveal_strlit("agent-no-try-catch");
    reveal_strlit("agent-no-as-cast");
    reveal_strlit("agent-no-unbounded-promise-all");
    reveal_strlit("agent-no-loose-equality");
    reveal_strlit("agent-no-non-null-assertion");
    reveal_strlit("agent-no-enum");
    reveal_strlit("agent-prefer-safe-parse");
    reveal_strlit("agent-no-inline-type-import");
    reveal_strlit("agent-no-ts-namespace");
    reveal_strlit("agent-no-throw");
    reveal_strlit("agent-no-delete");
    reveal_strlit("agent-deep-nesting");
    reveal_strlit("agent-high-complexity");
    reveal_strlit("agent-too-many-params");
    reveal_strlit("agent-deep-relative-import");
    reveal(chunk_6);
    reveal(chunk_7);
    let a = chunk_6();
    let b = chunk_7();
    assert(a[0].id@ == "agent-no-ternary"@);
    assert(a[1].id@ == "agent-no-string-equality-guard"@);
    assert(a[2].id@ == "agent-no-raw-loop"@);
    assert(a[3].id@ == "agent-no-let"@);
    assert(a[4].id@ == "agent-no-mutation"@);
    assert(a[5].id@ == "agent-no-inline-import"@);
    assert(a[6].id@ == "agent-no-any"@);
    assert(a[7].id@ == "agent-no-import-alias"@);
    assert(a[8].id@ == "agent-no-namespace-import"@);
    assert(a[9].id@ == "agent-no-try-catch"@);
    assert(a[10].id@ == "agent-no-as-cast"@);
    assert(a[11].id@ == "agent-no-unbounded-promise-all"@);
    assert(b[0].id@ == "agent-no-loose-equality"@);
    assert(b[1].id@ == "agent-no-non-null-assertion"@);
    assert(b[2].id@ == "agent-no-enum"@);
    assert(b[3].id@ == "agent-prefer-safe-parse"@);
    assert(b[4].id@ == "agent-no-inline-type-import"@);
    assert(b[5].id@ == "agent-no-ts-namespace"@);
    assert(b[6].id@ == "agent-no-throw"@);
    assert(b[7].id@ == "agent-no-delete"@);
    assert(b[8].id@ == "agent-deep-nesting"@);
    assert(b[9].id@ == "agent-high-complexity"@);
    assert(b[10].id@ == "agent-too-many-params"@);
    assert(b[11].id@ == "agent-deep-relative-import"@);
    assert("agent-no-import-alias"@[9] != "agent-no-ts-namespace"@[9]);
    assert("agent-no-import-alias"@[6] != "agent-high-complexity"@[6]);
    assert("agent-no-import-alias"@[6] != "agent-too-many-params"@[6]);
    assert("agent-no-try-catch"@[6] != "agent-deep-nesting"@[6]);
    assert forall|i: int, j: int| #![trigger a[i], b[j]] 0 <= i < a.len() && 0 <= j < b.len() implies a[i].id@ != b[j].id@ by {
        assert(i == 0 || i == 1 || i == 2 || i == 3 || i == 4 || i == 5 || i == 6 || i == 7 || i == 8 || i == 9 || i == 10 || i == 11);
        assert(j == 0 || j == 1 || j == 2 || j == 3 || j == 4 || j == 5 || j == 6 || j == 7 || j == 8 || j == 9 || j == 10 || j == 11);
    }
}

proof fn lemma_apart_6_8()
    ensures
        ids_apart(chunk_6(), chunk_8()),
{
    reveal_strlit("agent-no-ternary");
    reveal_strlit("agent-no-string-equality-guard");
    reveal_strlit("agent-no-raw-loop");
    reveal_strlit("agent-no-let");
    reveal_strlit("agent-no-mutation");
    reveal_strlit("agent-no-inline-import");
    reveal_strlit("agent-no-any");
    reveal_strlit("agent-no-import-alias");
    reveal_strlit("agent-no-namespace-import");
    reveal_strlit("agent-no-try-catch");
    reveal_strlit("agent-no-as-cast");
    reveal_strlit("agent-no-unbounded-promise-all");
    reveal_strlit("agent-duplicate-function");
    reveal_strlit("oop-singleton-to-layer");
    reveal_strlit("oop-observer-to-pubsub");
    reveal_strlit("oop-strategy-to-function");
    reveal_strlit("oop-visitor-to-match");
    reveal_strlit("oop-chain-to-catchtag");
    reveal_strlit("max-function-parameters");
    reveal_strlit("max-nesting-depth");
    reveal_strlit("high-cognitive-complexity");
    reveal_strlit("agent-no-default-export");
    reveal_strlit("agent-duplicate-cross-file");
    reveal_strlit("agent-near-duplicate-function");
    reveal(chunk_6);
    reveal(chunk_8);
    let a = chunk_6();
    let b = chunk_8();
    assert(a[0].id@ == "agent-no-ternary"@);
    assert(a[1].id@ == "agent-no-string-equality-guard"@);
    assert(a[2].id@ == "agent-no-raw-loop"@);
    assert(a[3].id@ == "agent-no-let"@);
    assert(a[4].id@ == "agent-no-mutation"@);
    assert(a[5].id@ == "agent-no-inline-import"@);
    assert(a[6].id@ == "agent-no-any"@);
    assert(a[7].id@ == "agent-no-import-alias"@);
    assert(a[8].id@ == "agent-no-namespace-import"@);
    assert(a[9].id@ == "agent-no-try-catch"@);
    assert(a[10].id@ == "agent-no-as-cast"@);
    assert(a[11].id@ == "agent-no-unbounded-promise-all"@);
    assert(b[0].id@ == "agent-duplicate-function"@);
    assert(b[1].id@ == "oop-singleton-to-layer"@);
    assert(b[2].id@ == "oop-observer-to-pubsub"@);
    assert(b[3].id@ == "oop-strategy-to-function"@);
    assert(b[4].id@ == "oop-visitor-to-match"@);
    assert(b[5].id@ == "oop-chain-to-catchtag"@);
    assert(b[6].id@ == "max-function-parameters"@);
    assert(b[7].id@ == "max-nesting-depth"@);
    assert(b[8].id@ == "high-cognitive-complexity"@);
    assert(b[9].id@ == "agent-no-default-export"@);
    assert(b[10].id@ == "agent-duplicate-cross-file"@);
    assert(b[11].id@ == "agent-near-duplicate-function"@);
    assert("agent-no-raw-loop"@[0] != "max-nesting-depth"@[0]);
    assert("agent-no-mutation"@[0] != "max-nesting-depth"@[0]);
    assert("agent-no-inline-import"@[0] != "oop-singleton-to-layer"@[0]);
    assert("agent-no-inline-import"@[0] != "oop-observer-to-pubsub"@[0]);
    assert("agent-no-import-alias"@[0] != "oop-chain-to-catchtag"@[0]);
    assert("agent-no-namespace-import"@[0] != "high-cognitive-complexity"@[0]);
    assert forall|i: int, j: int| #![trigger a[i], b[j]] 0 <= i < a.len() && 0 <= j < b.len() implies a[i].id@ != b[j].id@ by {
        assert(i == 0 || i == 1 || i == 2 || i == 3 || i == 4 || i == 5 || i == 6 || i == 7 || i == 8 || i == 9 || i == 10 || i == 11);
        assert(j == 0 || j == 1 || j == 2 || j == 3 || j == 4 || j == 5 || j == 6 || j == 7 || j == 8 || j == 9 || j == 10 || j == 11);
    }
}

proof fn lemma_apart_6_9()
    ensures
        ids_apart(chunk_6(), chunk_9()),
{
    reveal_strlit("agent-no-ternary");
    reveal_strlit("agent-no-string-equality-guard");
    reveal_strlit("agent-no-raw-loop");
    reveal_strlit("agent-no-let");
    reveal_strlit("agent-no-mutation");
    reveal_strlit("agent-no-inline-import");
    reveal_strlit("agent-no-any");
    reveal_strlit("agent-no-import-alias");
    reveal_strlit("agent-no-namespace-import");
    reveal_strlit("agent-no-try-catch");
    reveal_strlit("agent-no-as-cast");
    reveal_strlit("agent-no-unbounded-promise-all");
    reveal_strlit("agent-similar-function-name");
    reveal_strlit("agent-similar-shape");
    reveal_strlit("agent-circular-import");
    reveal(chunk_6);
    reveal(chunk_9);
    let a = chunk_6();
    let b = chunk_9();
    assert(a[0].id@ == "agent-no-ternary"@);
    assert(a[1].id@ == "agent-no-string-equality-guard"@);
    assert(a[2].id@ == "agent-no-raw-loop"@);
    assert(a[3].id@ == "agent-no-let"@);
    assert(a[4].id@ == "agent-no-mutation"@);
    assert(a[5].id@ == "agent-no-inline-import"@);
    assert(a[6].id@ == "agent-no-any"@);
    assert(a[7].id@ == "agent-no-import-alias"@);
    assert(a[8].id@ == "agent-no-namespace-import"@);
    assert(a[9].id@ == "agent-no-try-catch"@);
    assert(a[10].id@ == "agent-no-as-cast"@);
    assert(a[11].id@ == "agent-no-unbounded-promise-all"@);
    assert(b[0].id@ == "agent-similar-function-name"@);
    assert(b[1].id@ == "agent-similar-shape"@);
    assert(b[2].id@ == "agent-circular-import"@);
    assert("agent-no-import-alias"@[6] != "agent-circular-import"@[6]);
    assert forall|i: int, j: int| #![trigger a[i], b[j]] 0 <= i < a.len() && 0 <= j < b.len() implies a[i].id@ != b[j].id@ by {
        assert(i == 0 || i == 1 || i == 2 || i == 3 || i == 4 || i == 5 || i == 6 || i == 7 || i == 8 || i == 9 || i == 10 || i == 11);
        assert(j == 0 || j == 1 || j == 2);
    }
}

proof fn lemma_apart_7_8()
    ensures
        ids_apart(chunk_7(), chunk_8()),
{
    reveal_strlit("agent-no-loose-equality");
    reveal_strlit("agent-no-non-null-assertion");
    reveal_strlit("agent-no-enum");
    reveal_strlit("agent-prefer-safe-parse");
    reveal_strlit("agent-no-inline-type-import");
    reveal_strlit("agent-no-ts-namespace");
    reveal_strlit("agent-no-throw");
    reveal_strlit("agent-no-delete");
    reveal_strlit("agent-deep-nesting");
    reveal_strlit("agent-high-complexity");
    reveal_strlit("agent-too-many-params");
    reveal_strlit("agent-deep-relative-import");
    reveal_strlit("agent-duplicate-function");
    reveal_strlit("oop-singleton-to-layer");
    reveal_strlit("oop-observer-to-pubsub");
    reveal_strlit("oop-strategy-to-function");
    reveal_strlit("oop-visitor-to-match");
    reveal_strlit("oop-chain-to-catchtag");
    reveal_strlit("max-function-parameters");
    reveal_strlit("max-nesting-depth");
    reveal_strlit("high-cognitive-complexity");
    reveal_strlit("agent-no-default-export");
    reveal_strlit("agent-duplicate-cross-file");
    reveal_strlit("agent-near-duplicate-function");
    reveal(chunk_7);
    reveal(chunk_8);
    let a = chunk_7();
    let b = chunk_8();
    assert(a[0].id@ == "agent-no-loose-equality"@);
    assert(a[1].id@ == "agent-no-non-null-assertion"@);
    assert(a[2].id@ == "agent-no-enum"@);
    assert(a[3].id@ == "agent-prefer-safe-parse"@);
    assert(a[4].id@ == "agent-no-inline-type-import"@);
    assert(a[5].id@ == "agent-no-ts-namespace"@);
    assert(a[6].id@ == "agent-no-throw"@);
    assert(a[7].id@ == "agent-no-delete"@);
    assert(a[8].id@ == "agent-deep-nesting"@);
    assert(a[9].id@ == "agent-high-complexity"@);
    assert(a[10].id@ == "agent-too-many-params"@);
    assert(a[11].id@ == "agent-deep-relative-import"@);
    assert(b[0].id@ == "agent-duplicate-function"@);
    assert(b[1].id@ == "oop-singleton-to-layer"@);
    assert(b[2].id@ == "oop-observer-to-pubsub"@);
    assert(b[3].id@ == "oop-strategy-to-function"@);
    assert(b[4].id@ == "oop-visitor-to-match"@);
    assert(b[5].id@ == "oop-chain-to-catchtag"@);
    assert(b[6].id@ == "max-function-parameters"@);
    assert(b[7].id@ == "max-nesting-depth"@);
    assert(b[8].id@ == "high-cognitive-complexity"@);
    assert(b[9].id@ == "agent-no-default-export"@);
    assert(b[10].id@ == "agent-duplicate-cross-file"@);
    assert(b[11].id@ == "agent-near-duplicate-function"@);
    assert("agent-no-loose-equality"@[0] != "max-function-parameters"@[0]);
    assert("agent-no-loose-equality"@[9] != "agent-no-default-export"@[9]);
    assert("agent-prefer-safe-parse"@[0] != "max-function-parameters"@[0]);
    assert("agent-prefer-safe-parse"@[6] != "agent-no-default-export"@[6]);
    assert("agent-no-ts-namespace"@[0] != "oop-chain-to-catchtag"@[0]);
    assert("agent-high-complexity"@[0] != "oop-chain-to-catchtag"@[0]);
    assert("agent-too-many-params"@[0] != "oop-chain-to-catchtag"@[0]);
    assert("agent-deep-relative-import"@[7] != "agent-duplicate-cross-file"@[7]);
    assert forall|i: int, j: int| #![trigger a[i], b[j]] 0 <= i < a.len() && 0 <= j < b.len() implies a[i].id@ != b[j].id@ by {
        assert(i == 0 || i == 1 || i == 2 || i == 3 || i == 4 || i == 5 || i == 6 || i == 7 || i == 8 || i == 9 || i == 10 || i == 11);
        assert(j == 0 || j == 1 || j == 2 || j == 3 || j == 4 || j == 5 || j == 6 || j == 7 || j == 8 || j == 9 || j == 10 || j == 11);
    }
}

proof fn lemma_apart_7_9()
    ensures
        ids_apart(chunk_7(), chunk_9()),
{
    reveal_strlit("agent-no-loose-equality");
    reveal_strlit("agent-no-non-null-assertion");
    reveal_strlit("agent-no-enum");
    reveal_strlit("agent-prefer-safe-parse");
    reveal_strlit("agent-no-inline-type-import");
    reveal_strlit("agent-no-ts-namespace");
    reveal_strlit("agent-no-throw");
    reveal_strlit("agent-no-delete");
    reveal_strlit("agent-deep-nesting");
    reveal_strlit("agent-high-complexity");
    reveal_strlit("agent-too-many-params");
    reveal_strlit("agent-deep-relative-import");
    reveal_strlit("agent-similar-function-name");
    reveal_strlit("agent-similar-shape");
    reveal_strlit("agent-circular-import");
    reveal(chunk_7);
    reveal(chunk_9);
    let a = chunk_7();
    let b = chunk_9();
    assert(a[0].id@ == "agent-no-loose-equality"@);
    assert(a[1].id@ == "agent-no-non-null-assertion"@);
    assert(a[2].id@ == "agent-no-enum"@);
    assert(a[3].id@ == "agent-prefer-safe-parse"@);
    assert(a[4].id@ == "agent-no-inline-type-import"@);
    assert(a[5].id@ == "agent-no-ts-namespace"@);
    assert(a[6].id@ == "agent-no-throw"@);
    assert(a[7].id@ == "agent-no-delete"@);
    assert(a[8].id@ == "agent-deep-nesting"@);
    assert(a[9].id@ == "agent-high-complexity"@);
    assert(a[10].id@ == "agent-too-many-params"@);
    assert(a[11].id@ == "agent-deep-relative-import"@);
    assert(b[0].id@ == "agent-similar-function-name"@);
    assert(b[1].id@ == "agent-similar-shape"@);
    assert(b[2].id@ == "agent-circular-import"@);
    assert("agent-no-non-null-assertion"@[6] != "agent-similar-function-name"@[6]);
    assert("agent-no-inline-type-import"@[6] != "agent-similar-function-name"@[6]);
    assert("agent-no-ts-namespace"@[6] != "agent-circular-import"@[6]);
    assert("agent-high-complexity"@[6] != "agent-circular-import"@[6]);
    assert("agent-too-many-params"@[6] != "agent-circular-import"@[6]);
    assert forall|i: int, j: int| #![trigger a[i], b[j]] 0 <= i < a.len() && 0 <= j < b.len() implies a[i].id@ != b[j].id@ by {
        assert(i == 0 || i == 1 || i == 2 || i == 3 || i == 4 || i == 5 || i == 6 || i == 7 || i == 8 || i == 9 || i == 10 || i == 11);
        assert(j == 0 || j == 1 || j == 2);
    }
}

proof fn lemma_apart_8_9()
    ensures
        ids_apart(chunk_8(), chunk_9()),
{
    reveal_strlit("agent-duplicate-function");
    reveal_strlit("oop-singleton-to-layer");
    reveal_strlit("oop-observer-to-pubsub");
    reveal_strlit("oop-strategy-to-function");
    reveal_strlit("oop-visitor-to-match");
    reveal_strlit("oop-chain-to-catchtag");
    reveal_strlit("max-function-parameters");
    reveal_strlit("max-nesting-depth");
    reveal_strlit("high-cognitive-complexity");
    reveal_strlit("agent-no-default-export");
    reveal_strlit("agent-duplicate-cross-file");
    reveal_strlit("agent-near-duplicate-function");
    reveal_strlit("agent-similar-function-name");
    reveal_strlit("agent-similar-shape");
    reveal_strlit("agent-circular-import");
    reveal(chunk_8);
    reveal(chunk_9);
    let a = chunk_8();
    let b = chunk_9();
    assert(a[0].id@ == "agent-duplicate-function"@);
    assert(a[1].id@ == "oop-singleton-to-layer"@);
    assert(a[2].id@ == "oop-observer-to-pubsub"@);
    assert(a[3].id@ == "oop-strategy-to-function"@);
    assert(a[4].id@ == "oop-visitor-to-match"@);
    assert(a[5].id@ == "oop-chain-to-catchtag"@);
    assert(a[6].id@ == "max-function-parameters"@);
    assert(a[7].id@ == "max-nesting-depth"@);
    assert(a[8].id@ == "high-cognitive-complexity"@);
    assert(a[9].id@ == "agent-no-default-export"@);
    assert(a[10].id@ == "agent-duplicate-cross-file"@);
    assert(a[11].id@ == "agent-near-duplicate-function"@);
    assert(b[0].id@ == "agent-similar-function-name"@);
    assert(b[1].id@ == "agent-similar-shape"@);
    assert(b[2].id@ == "agent-circular-import"@);
    assert("oop-chain-to-catchtag"@[0] != "agent-circular-import"@[0]);
    assert forall|i: int, j: int| #![trigger a[i], b[j]] 0 <= i < a.len() && 0 <= j < b.len() implies a[i].id@ != b[j].id@ by {
        assert(i == 0 || i == 1 || i == 2 || i == 3 || i == 4 || i == 5 || i == 6 || i == 7 || i == 8 || i == 9 || i == 10 || i == 11);
        assert(j == 0 || j == 1 || j == 2);
    }
}

#[verifier::rlimit(100)]
proof fn lemma_catalog_chunks()
    ensures
        catalog() == chunk_0() + chunk_1() + chunk_2() + chunk_3() + chunk_4() + chunk_5() + chunk_6() + chunk_7() + chunk_8() + chunk_9(),
{
    reveal(chunk_0);
    reveal(chunk_1);
    reveal(chunk_2);
    reveal(chunk_3);
    reveal(chunk_4);
    reveal(chunk_5);
    reveal(chunk_6);
    reveal(chunk_7);
    reveal(chunk_8);
    reveal(chunk_9);
    assert(catalog() =~= chunk_0() + chunk_1() + chunk_2() + chunk_3() + chunk_4() + chunk_5() + chunk_6() + chunk_7() + chunk_8() + chunk_9());
}

/// No two entries of the catalog share a rule id.
pub proof fn lemma_catalog_ids_distinct()
    ensures
        ids_distinct(catalog()),
{
    lemma_catalog_chunks();
    lemma_chunk_0_distinct();
    lemma_chunk_1_distinct();
    lemma_apart_0_1();
    lemma_distinct_concat(chunk_0(), chunk_1());
    lemma_chunk_2_distinct();
    lemma_apart_0_2();
    lemma_apart_1_2();
    lemma_apart_concat(chunk_0(), chunk_1(), chunk_2());
    lemma_distinct_concat(chunk_0() + chunk_1(), chunk_2());
    lemma_chunk_3_distinct();
    lemma_apart_0_3();
    lemma_apart_1_3();
    lemma_apart_2_3();
    lemma_apart_concat(chunk_0(), chunk_1(), chunk_3());
    lemma_apart_concat(chunk_0() + chunk_1(), chunk_2(), chunk_3());
    lemma_distinct_concat(chunk_0() + chunk_1() + chunk_2(), chunk_3());
    lemma_chunk_4_distinct();
    lemma_apart_0_4();
    lemma_apart_1_4();
    lemma_apart_2_4();
    lemma_apart_3_4();
    lemma_apart_concat(chunk_0(), chunk_1(), chunk_4());
    lemma_apart_concat(chunk_0() + chunk_1(), chunk_2(), chunk_4());
    lemma_apart_concat(chunk_0() + chunk_1() + chunk_2(), chunk_3(), chunk_4());
    lemma_distinct_concat(chunk_0() + chunk_1() + chunk_2() + chunk_3(), chunk_4());
    lemma_chunk_5_distinct();
    lemma_apart_0_5();
    lemma_apart_1_5();
    lemma_apart_2_5();
    lemma_apart_3_5();
    lemma_apart_4_5();
    lemma_apart_concat(chunk_0(), chunk_1(), chunk_5());
    lemma_apart_concat(chunk_0() + chunk_1(), chunk_2(), chunk_5());
    lemma_apart_concat(chunk_0() + chunk_1() + chunk_2(), chunk_3(), chunk_5());
    lemma_apart_concat(chunk_0() + chunk_1() + chunk_2() + chunk_3(), chunk_4(), chunk_5());
    lemma_distinct_concat(chunk_0() + chunk_1() + chunk_2() + chunk_3() + chunk_4(), chunk_5());
    lemma_chunk_6_distinct();
    lemma_apart_0_6();
    lemma_apart_1_6();
    lemma_apart_2_6();
    lemma_apart_3_6();
    lemma_apart_4_6();
    lemma_apart_5_6();
    lemma_apart_concat(chunk_0(), chunk_1(), chunk_6());
    lemma_apart_concat(chunk_0() + chunk_1(), chunk_2(), chunk_6());
    lemma_apart_concat(chunk_0() + chunk_1() + chunk_2(), chunk_3(), chunk_6());
    lemma_apart_concat(chunk_0() + chunk_1() + chunk_2() + chunk_3(), chunk_4(), chunk_6());
    lemma_apart_concat(chunk_0() + chunk_1() + chunk_2() + chunk_3() + chunk_4(), chunk_5(), chunk_6());
    lemma_distinct_concat(chunk_0() + chunk_1() + chunk_2() + chunk_3() + chunk_4() + chunk_5(), chunk_6());
    lemma_chunk_7_distinct();
    lemma_apart_0_7();
    lemma_apart_1_7();
    lemma_apart_2_7();
    lemma_apart_3_7();
    lemma_apart_4_7();
    lemma_apart_5_7();
    lemma_apart_6_7();
    lemma_apart_concat(chunk_0(), chunk_1(), chunk_7());
    lemma_apart_concat(chunk_0() + chunk_1(), chunk_2(), chunk_7());
    lemma_apart_concat(chunk_0() + chunk_1() + chunk_2(), chunk_3(), chunk_7());
    lemma_apart_concat(chunk_0() + chunk_1() + chunk_2() + chunk_3(), chunk_4(), chunk_7());
    lemma_apart_concat(chunk_0() + chunk_1() + chunk_2() + chunk_3() + chunk_4(), chunk_5(), chunk_7());
    lemma_apart_concat(chunk_0() + chunk_1() + chunk_2() + chunk_3() + chunk_4() + chunk_5(), chunk_6(), chunk_7());
    lemma_distinct_concat(chunk_0() + chunk_1() + chunk_2() + chunk_3() + chunk_4() + chunk_5() + chunk_6(), chunk_7());
    lemma_chunk_8_distinct();
    lemma_apart_0_8();
    lemma_apart_1_8();
    lemma_apart_2_8();
    lemma_apart_3_8();
    lemma_apart_4_8();
    lemma_apart_5_8();
    lemma_apart_6_8();
    lemma_apart_7_8();
    lemma_apart_concat(chunk_0(), chunk_1(), chunk_8());
    lemma_apart_concat(chunk_0() + chunk_1(), chunk_2(), chunk_8());
    lemma_apart_concat(chunk_0() + chunk_1() + chunk_2(), chunk_3(), chunk_8());
    lemma_apart_concat(chunk_0() + chunk_1() + chunk_2() + chunk_3(), chunk_4(), chunk_8());
    lemma_apart_concat(chunk_0() + chunk_1() + chunk_2() + chunk_3() + chunk_4(), chunk_5(), chunk_8());
    lemma_apart_concat(chunk_0() + chunk_1() + chunk_2() + chunk_3() + chunk_4() + chunk_5(), chunk_6(), chunk_8());
    lemma_apart_concat(chunk_0() + chunk_1() + chunk_2() + chunk_3() + chunk_4() + chunk_5() + chunk_6(), chunk_7(), chunk_8());
    lemma_distinct_concat(chunk_0() + chunk_1() + chunk_2() + chunk_3() + chunk_4() + chunk_5() + chunk_6() + chunk_7(), chunk_8());
    lemma_chunk_9_distinct();
    lemma_apart_0_9();
    lemma_apart_1_9();
    lemma_apart_2_9();
    lemma_apart_3_9();
    lemma_apart_4_9();
    lemma_apart_5_9();
    lemma_apart_6_9();
    lemma_apart_7_9();
    lemma_apart_8_9();
    lemma_apart_concat(chunk_0(), chunk_1(), chunk_9());
    lemma_apart_concat(chunk_0() + chunk_1(), chunk_2(), chunk_9());
    lemma_apart_concat(chunk_0() + chunk_1() + chunk_2(), chunk_3(), chunk_9());
    lemma_apart_concat(chunk_0() + chunk_1() + chunk_2() + chunk_3(), chunk_4(), chunk_9());
    lemma_apart_concat(chunk_0() + chunk_1() + chunk_2() + chunk_3() + chunk_4(), chunk_5(), chunk_9());
    lemma_apart_concat(chunk_0() + chunk_1() + chunk_2() + chunk_3() + chunk_4() + chunk_5(), chunk_6(), chunk_9());
    lemma_apart_concat(chunk_0() + chunk_1() + chunk_2() + chunk_3() + chunk_4() + chunk_5() + chunk_6(), chunk_7(), chunk_9());
    lemma_apart_concat(chunk_0() + chunk_1() + chunk_2() + chunk_3() + chunk_4() + chunk_5() + chunk_6() + chunk_7(), chunk_8(), chunk_9());
    lemma_distinct_concat(chunk_0() + chunk_1() + chunk_2() + chunk_3() + chunk_4() + chunk_5() + chunk_6() + chunk_7() + chunk_8(), chunk_9());
}

proof fn lemma_chunk_0_listed()
    ensures
        catalog().contains(crate::rules::require_yield_star::require_yield_star_meta()),
        catalog().contains(crate::rules::no_try_catch_in_gen::no_try_catch_in_gen_meta()),
        catalog().contains(crate::rules::no_try_catch_in_gen::no_try_finally_in_gen_meta()),
        catalog().contains(crate::rules::no_throw_in_effect::no_throw_in_effect_meta()),
        catalog().contains(crate::rules::no_run_inside_effect::no_run_inside_effect_meta()),
        catalog().contains(crate::rules::schema_class_hygiene::self_mismatch_meta()),
        catalog().contains(crate::rules::schema_class_hygiene::constructor_override_meta()),
        catalog().contains(crate::rules::promise_interop::no_async_callback_meta()),
        catalog().contains(crate::rules::promise_interop::no_then_in_sync_meta()),
        catalog().contains(crate::rules::promise_interop::no_promise_all_meta()),
        catalog().contains(crate::rules::promise_interop::require_typed_catch_meta()),
        catalog().contains(crate::rules::run_sync_async::no_run_sync_on_async_meta()),
{
    lemma_catalog_chunks();
    reveal(chunk_0);
    let before = Seq::<RuleMeta>::empty();
    let whole = chunk_0() + chunk_1() + chunk_2() + chunk_3() + chunk_4() + chunk_5() + chunk_6() + chunk_7() + chunk_8() + chunk_9();
    assert(before.len() == 0) by {
    }
    assert(whole[0] == chunk_0()[0]);
    assert(whole[1] == chunk_0()[1]);
    assert(whole[2] == chunk_0()[2]);
    assert(whole[3] == chunk_0()[3]);
    assert(whole[4] == chunk_0()[4]);
    assert(whole[5] == chunk_0()[5]);
    assert(whole[6] == chunk_0()[6]);
    assert(whole[7] == chunk_0()[7]);
    assert(whole[8] == chunk_0()[8]);
    assert(whole[9] == chunk_0()[9]);
    assert(whole[10] == chunk_0()[10]);
    assert(whole[11] == chunk_0()[11]);
}

proof fn lemma_chunk_1_listed()
    ensures
        catalog().contains(crate::rules::map_misuse::no_map_returning_effect_meta()),
        catalog().contains(crate::rules::equality_idioms::object_literal_comparison_meta()),
        catalog().contains(crate::rules::equality_idioms::tag_string_comparison_meta()),
        catalog().contains(crate::rules::equality_idioms::tag_switch_meta()),
        catalog().contains(crate::rules::error_modeling::no_string_errors_meta()),
        catalog().contains(crate::rules::error_modeling::no_catchall_to_null_meta()),
        catalog().contains(crate::rules::concurrency_idioms::missing_concurrency_meta()),
        catalog().contains(crate::rules::concurrency_idioms::race_sleep_meta()),
        catalog().contains(crate::rules::concurrency_idioms::fork_join_meta()),
        catalog().contains(crate::rules::literal_idioms::raw_millis_meta()),
        catalog().contains(crate::rules::literal_idioms::sync_literal_meta()),
        catalog().contains(crate::rules::logging_security::config_redacted_meta()),
{
    lemma_catalog_chunks();
    reveal(chunk_1);
    let before = chunk_0();
    let whole = chunk_0() + chunk_1() + chunk_2() + chunk_3() + chunk_4() + chunk_5() + chunk_6() + chunk_7() + chunk_8() + chunk_9();
    assert(before.len() == 12) by {
        reveal(chunk_0);
    }
    assert(whole[12] == chunk_1()[0]);
    assert(whole[13] == chunk_1()[1]);
    assert(whole[14] == chunk_1()[2]);
    assert(whole[15] == chunk_1()[3]);
    assert(whole[16] == chunk_1()[4]);
    assert(whole[17] == chunk_1()[5]);
    assert(whole[18] == chunk_1()[6]);
    assert(whole[19] == chunk_1()[7]);
    assert(whole[20] == chunk_1()[8]);
    assert(whole[21] == chunk_1()[9]);
    assert(whole[22] == chunk_1()[10]);
    assert(whole[23] == chunk_1()[11]);
}

proof fn lemma_chunk_2_listed()
    ensures
        catalog().contains(crate::rules::logging_security::structured_logging_meta()),
        catalog().contains(crate::rules::logging_security::json_response_meta()),
        catalog().contains(crate::rules::interruption::abort_signal_meta()),
        catalog().contains(crate::rules::interruption::nested_flatmap_meta()),
        catalog().contains(crate::rules::composition_limits::long_chains_meta()),
        catalog().contains(crate::rules::composition_limits::mergeall_megalist_meta()),
        catalog().contains(crate::rules::gen_shape::nested_gen_yield_meta()),
        catalog().contains(crate::rules::gen_shape::effect_fn_iife_meta()),
        catalog().contains(crate::rules::gen_shape::pipe_chain_meta()),
        catalog().contains(crate::rules::gen_shape::return_effect_in_gen_meta()),
        catalog().contains(crate::rules::gen_shape::redundant_tag_identifier_meta()),
        catalog().contains(crate::rules::no_unnecessary_gen::no_unnecessary_gen_meta()),
{
    lemma_catalog_chunks();
    reveal(chunk_2);
    let before = chunk_0() + chunk_1();
    let whole = chunk_0() + chunk_1() + chunk_2() + chunk_3() + chunk_4() + chunk_5() + chunk_6() + chunk_7() + chunk_8() + chunk_9();
    assert(before.len() == 24) by {
        reveal(chunk_0);
        reveal(chunk_1);
    }
    assert(whole[24] == chunk_2()[0]);
    assert(whole[25] == chunk_2()[1]);
    assert(whole[26] == chunk_2()[2]);
    assert(whole[27] == chunk_2()[3]);
    assert(whole[28] == chunk_2()[4]);
    assert(whole[29] == chunk_2()[5]);
    assert(whole[30] == chunk_2()[6]);
    assert(whole[31] == chunk_2()[7]);
    assert(whole[32] == chunk_2()[8]);
    assert(whole[33] == chunk_2()[9]);
    assert(whole[34] == chunk_2()[10]);
    assert(whole[35] == chunk_2()[11]);
}

proof fn lemma_chunk_3_listed()
    ensures
        catalog().contains(crate::rules::no_unnecessary_fail::no_unnecessary_fail_meta()),
        catalog().contains(crate::rules::no_effect_do::no_effect_do_meta()),
        catalog().contains(crate::rules::no_or_die::no_or_die_meta()),
        catalog().contains(crate::rules::idiom_shortcuts::prefer_effect_void_meta()),
        catalog().contains(crate::rules::idiom_shortcuts::prefer_as_void_meta()),
        catalog().contains(crate::rules::idiom_shortcuts::prefer_flatmap_meta()),
        catalog().contains(crate::rules::idiom_shortcuts::no_unnecessary_pipe_meta()),
        catalog().contains(crate::rules::catch_idioms::prefer_catch_tag_meta()),
        catalog().contains(crate::rules::catch_idioms::catch_to_map_error_meta()),
        catalog().contains(crate::rules::prefer_clock_service::prefer_clock_service_meta()),
        catalog().contains(crate::rules::prefer_random_service::prefer_random_service_meta()),
        catalog().contains(crate::rules::prefer_effect_logging::prefer_effect_logging_meta()),
{
    lemma_catalog_chunks();
    reveal(chunk_3);
    let before = chunk_0() + chunk_1() + chunk_2();
    let whole = chunk_0() + chunk_1() + chunk_2() + chunk_3() + chunk_4() + chunk_5() + chunk_6() + chunk_7() + chunk_8() + chunk_9();
    assert(before.len() == 36) by {
        reveal(chunk_0);
        reveal(chunk_1);
        reveal(chunk_2);
    }
    assert(whole[36] == chunk_3()[0]);
    assert(whole[37] == chunk_3()[1]);
    assert(whole[38] == chunk_3()[2]);
    assert(whole[39] == chunk_3()[3]);
    assert(whole[40] == chunk_3()[4]);
    assert(whole[41] == chunk_3()[5]);
    assert(whole[42] == chunk_3()[6]);
    assert(whole[43] == chunk_3()[7]);
    assert(whole[44] == chunk_3()[8]);
    assert(whole[45] == chunk_3()[9]);
    assert(whole[46] == chunk_3()[10]);
    assert(whole[47] == chunk_3()[11]);
}

proof fn lemma_chunk_4_listed()
    ensures
        catalog().contains(crate::rules::globals_in_effect::prefer_effect_timers_meta()),
        catalog().contains(crate::rules::globals_in_effect::prefer_platform_fetch_meta()),
        catalog().contains(crate::rules::globals_in_effect::prefer_config_module_meta()),
        catalog().contains(crate::rules::globals_in_effect::prefer_schema_over_json_meta()),
        catalog().contains(crate::rules::prefer_effect_fn::prefer_effect_fn_meta()),
        catalog().contains(crate::rules::prefer_tagged_error_classes::prefer_tagged_error_classes_meta()),
        catalog().contains(crate::rules::schema_usage::prefer_decode_effect_meta()),
        catalog().contains(crate::rules::schema_usage::hoist_schema_codecs_meta()),
        catalog().contains(crate::rules::meaningful_span_names::meaningful_span_names_meta()),
        catalog().contains(crate::rules::prefer_node_counterparts::prefer_node_counterparts_meta()),
        catalog().contains(crate::rules::prefer_it_effect::prefer_it_effect_meta()),
        catalog().contains(crate::rules::no_chained_provides::no_chained_provides_meta()),
{
    lemma_catalog_chunks();
    reveal(chunk_4);
    let before = chunk_0() + chunk_1() + chunk_2() + chunk_3();
    let whole = chunk_0() + chunk_1() + chunk_2() + chunk_3() + chunk_4() + chunk_5() + chunk_6() + chunk_7() + chunk_8() + chunk_9();
    assert(before.len() == 48) by {
        reveal(chunk_0);
        reveal(chunk_1);
        reveal(chunk_2);
        reveal(chunk_3);
    }
    assert(whole[48] == chunk_4()[0]);
    assert(whole[49] == chunk_4()[1]);
    assert(whole[50] == chunk_4()[2]);
    assert(whole[51] == chunk_4()[3]);
    assert(whole[52] == chunk_4()[4]);
    assert(whole[53] == chunk_4()[5]);
    assert(whole[54] == chunk_4()[6]);
    assert(whole[55] == chunk_4()[7]);
    assert(whole[56] == chunk_4()[8]);
    assert(whole[57] == chunk_4()[9]);
    assert(whole[58] == chunk_4()[10]);
    assert(whole[59] == chunk_4()[11]);
}

proof fn lemma_chunk_5_listed()
    ensures
        catalog().contains(crate::rules::no_manual_sql_transactions::no_manual_sql_transactions_meta()),
        catalog().contains(crate::rules::retry_only_retryable::retry_only_retryable_meta()),
        catalog().contains(crate::rules::schedule_hygiene::add_jitter_meta()),
        catalog().contains(crate::rules::schedule_hygiene::cap_backoff_meta()),
        catalog().contains(crate::rules::no_unbounded_concurrency::no_unbounded_concurrency_meta()),
        catalog().contains(crate::rules::adopt::async_function_meta()),
        catalog().contains(crate::rules::adopt::promise_chain_meta()),
        catalog().contains(crate::rules::adopt::new_promise_meta()),
        catalog().contains(crate::rules::adopt::promise_all_meta()),
        catalog().contains(crate::rules::adopt::await_in_loop_meta()),
        catalog().contains(crate::rules::adopt::yield_loop_meta()),
        catalog().contains(crate::rules::agent_hygiene::if_else_chain_meta()),
{
    lemma_catalog_chunks();
    reveal(chunk_5);
    let before = chunk_0() + chunk_1() + chunk_2() + chunk_3() + chunk_4();
    let whole = chunk_0() + chunk_1() + chunk_2() + chunk_3() + chunk_4() + chunk_5() + chunk_6() + chunk_7() + chunk_8() + chunk_9();
    assert(before.len() == 60) by {
        reveal(chunk_0);
        reveal(chunk_1);
        reveal(chunk_2);
        reveal(chunk_3);
        reveal(chunk_4);
    }
    assert(whole[60] == chunk_5()[0]);
    assert(whole[61] == chunk_5()[1]);
    assert(whole[62] == chunk_5()[2]);
    assert(whole[63] == chunk_5()[3]);
    assert(whole[64] == chunk_5()[4]);
    assert(whole[65] == chunk_5()[5]);
    assert(whole[66] == chunk_5()[6]);
    assert(whole[67] == chunk_5()[7]);
    assert(whole[68] == chunk_5()[8]);
    assert(whole[69] == chunk_5()[9]);
    assert(whole[70] == chunk_5()[10]);
    assert(whole[71] == chunk_5()[11]);
}

proof fn lemma_chunk_6_listed()
    ensures
        catalog().contains(crate::rules::agent_hygiene::ternary_meta()),
        catalog().contains(crate::rules::agent_hygiene::string_equality_guard_meta()),
        catalog().contains(crate::rules::agent_hygiene::raw_loop_meta()),
        catalog().contains(crate::rules::agent_hygiene::let_binding_meta()),
        catalog().contains(crate::rules::agent_hygiene::mutation_meta()),
        catalog().contains(crate::rules::agent_hygiene::inline_import_meta()),
        catalog().contains(crate::rules::agent_hygiene::any_type_meta()),
        catalog().contains(crate::rules::agent_hygiene::import_alias_meta()),
        catalog().contains(crate::rules::agent_hygiene::namespace_import_meta()),
        catalog().contains(crate::rules::agent_hygiene::try_catch_meta()),
        catalog().contains(crate::rules::agent_hygiene::as_cast_meta()),
        catalog().contains(crate::rules::agent_hygiene::unbounded_promise_all_meta()),
{
    lemma_catalog_chunks();
    reveal(chunk_6);
    let before = chunk_0() + chunk_1() + chunk_2() + chunk_3() + chunk_4() + chunk_5();
    let whole = chunk_0() + chunk_1() + chunk_2() + chunk_3() + chunk_4() + chunk_5() + chunk_6() + chunk_7() + chunk_8() + chunk_9();
    assert(before.len() == 72) by {
        reveal(chunk_0);
        reveal(chunk_1);
        reveal(chunk_2);
        reveal(chunk_3);
        reveal(chunk_4);
        reveal(chunk_5);
    }
    assert(whole[72] == chunk_6()[0]);
    assert(whole[73] == chunk_6()[1]);
    assert(whole[74] == chunk_6()[2]);
    assert(whole[75] == chunk_6()[3]);
    assert(whole[76] == chunk_6()[4]);
    assert(whole[77] == chunk_6()[5]);
    assert(whole[78] == chunk_6()[6]);
    assert(whole[79] == chunk_6()[7]);
    assert(whole[80] == chunk_6()[8]);
    assert(whole[81] == chunk_6()[9]);
    assert(whole[82] == chunk_6()[10]);
    assert(whole[83] == chunk_6()[11]);
}

proof fn lemma_chunk_7_listed()
    ensures
        catalog().contains(crate::rules::agent_hygiene::loose_equality_meta()),
        catalog().contains(crate::rules::agent_hygiene::non_null_assertion_meta()),
        catalog().contains(crate::rules::agent_hygiene::ts_enum_meta()),
        catalog().contains(crate::rules::agent_hygiene::safe_parse_meta()),
        catalog().contains(crate::rules::agent_hygiene::inline_type_import_meta()),
        catalog().contains(crate::rules::agent_hygiene::ts_namespace_meta()),
        catalog().contains(crate::rules::agent_hygiene::throw_meta()),
        catalog().contains(crate::rules::agent_hygiene::delete_op_meta()),
        catalog().contains(crate::rules::agent_hygiene::deep_nesting_meta()),
        catalog().contains(crate::rules::agent_hygiene::high_complexity_meta()),
        catalog().contains(crate::rules::agent_hygiene::too_many_params_meta()),
        catalog().contains(crate::rules::agent_hygiene::deep_relative_import_meta()),
{
    lemma_catalog_chunks();
    reveal(chunk_7);
    let before = chunk_0() + chunk_1() + chunk_2() + chunk_3() + chunk_4() + chunk_5() + chunk_6();
    let whole = chunk_0() + chunk_1() + chunk_2() + chunk_3() + chunk_4() + chunk_5() + chunk_6() + chunk_7() + chunk_8() + chunk_9();
    assert(before.len() == 84) by {
        reveal(chunk_0);
        reveal(chunk_1);
        reveal(chunk_2);
        reveal(chunk_3);
        reveal(chunk_4);
        reveal(chunk_5);
        reveal(chunk_6);
    }
    assert(whole[84] == chunk_7()[0]);
    assert(whole[85] == chunk_7()[1]);
    assert(whole[86] == chunk_7()[2]);
    assert(whole[87] == chunk_7()[3]);
    assert(whole[88] == chunk_7()[4]);
    assert(whole[89] == chunk_7()[5]);
    assert(whole[90] == chunk_7()[6]);
    assert(whole[91] == chunk_7()[7]);
    assert(whole[92] == chunk_7()[8]);
    assert(whole[93] == chunk_7()[9]);
    assert(whole[94] == chunk_7()[10]);
    assert(whole[95] == chunk_7()[11]);
}

proof fn lemma_chunk_8_listed()
    ensures
        catalog().contains(crate::rules::agent_hygiene::duplicate_function_meta()),
        catalog().contains(crate::rules::oop_to_effect::singleton_meta()),
        catalog().contains(crate::rules::oop_to_effect::observer_meta()),
        catalog().contains(crate::rules::oop_to_effect::strategy_meta()),
        catalog().contains(crate::rules::oop_to_effect::visitor_meta()),
        catalog().contains(crate::rules::oop_to_effect::chain_meta()),
        catalog().contains(crate::rules::function_metrics::max_params_meta()),
        catalog().contains(crate::rules::function_metrics::max_nesting_meta()),
        catalog().contains(crate::rules::function_metrics::high_cognitive_meta()),
        catalog().contains(crate::rules::module_conventions::no_default_export_meta()),
        catalog().contains(crate::fn_index::duplicate_cross_file_meta()),
        catalog().contains(crate::fn_index::near_duplicate_meta()),
{
    lemma_catalog_chunks();
    reveal(chunk_8);
    let before = chunk_0() + chunk_1() + chunk_2() + chunk_3() + chunk_4() + chunk_5() + chunk_6() + chunk_7();
    let whole = chunk_0() + chunk_1() + chunk_2() + chunk_3() + chunk_4() + chunk_5() + chunk_6() + chunk_7() + chunk_8() + chunk_9();
    assert(before.len() == 96) by {
        reveal(chunk_0);
        reveal(chunk_1);
        reveal(chunk_2);
        reveal(chunk_3);
        reveal(chunk_4);
        reveal(chunk_5);
        reveal(chunk_6);
        reveal(chunk_7);
    }
    assert(whole[96] == chunk_8()[0]);
    assert(whole[97] == chunk_8()[1]);
    assert(whole[98] == chunk_8()[2]);
    assert(whole[99] == chunk_8()[3]);
    assert(whole[100] == chunk_8()[4]);
    assert(whole[101] == chunk_8()[5]);
    assert(whole[102] == chunk_8()[6]);
    assert(whole[103] == chunk_8()[7]);
    assert(whole[104] == chunk_8()[8]);
    assert(whole[105] == chunk_8()[9]);
    assert(whole[106] == chunk_8()[10]);
    assert(whole[107] == chunk_8()[11]);
}

proof fn lemma_chunk_9_listed()
    ensures
        catalog().contains(crate::fn_index::similar_name_meta()),
        catalog().contains(crate::fn_index::similar_shape_meta()),
        catalog().contains(crate::cycles::circular_import_meta()),
{
    lemma_catalog_chunks();
    reveal(chunk_9);
    let before = chunk_0() + chunk_1() + chunk_2() + chunk_3() + chunk_4() + chunk_5() + chunk_6() + chunk_7() + chunk_8();
    let whole = chunk_0() + chunk_1() + chunk_2() + chunk_3() + chunk_4() + chunk_5() + chunk_6() + chunk_7() + chunk_8() + chunk_9();
    assert(before.len() == 108) by {
        reveal(chunk_0);
        reveal(chunk_1);
        reveal(chunk_2);
        reveal(chunk_3);
        reveal(chunk_4);
        reveal(chunk_5);
        reveal(chunk_6);
        reveal(chunk_7);
        reveal(chunk_8);
    }
    assert(whole[108] == chunk_9()[0]);
    assert(whole[109] == chunk_9()[1]);
    assert(whole[110] == chunk_9()[2]);
}

/// Every rule meta that a finding can carry is a catalog entry.
pub proof fn lemma_catalog_lists_every_meta()
    ensures
        catalog().contains(crate::rules::require_yield_star::require_yield_star_meta()),
        catalog().contains(crate::rules::no_try_catch_in_gen::no_try_catch_in_gen_meta()),
        catalog().contains(crate::rules::no_try_catch_in_gen::no_try_finally_in_gen_meta()),
        catalog().contains(crate::rules::no_throw_in_effect::no_throw_in_effect_meta()),
        catalog().contains(crate::rules::no_run_inside_effect::no_run_inside_effect_meta()),
        catalog().contains(crate::rules::schema_class_hygiene::self_mismatch_meta()),
        catalog().contains(crate::rules::schema_class_hygiene::constructor_override_meta()),
        catalog().contains(crate::rules::promise_interop::no_async_callback_meta()),
        catalog().contains(crate::rules::promise_interop::no_then_in_sync_meta()),
        catalog().contains(crate::rules::promise_interop::no_promise_all_meta()),
        catalog().contains(crate::rules::promise_interop::require_typed_catch_meta()),
        catalog().contains(crate::rules::run_sync_async::no_run_sync_on_async_meta()),
        catalog().contains(crate::rules::map_misuse::no_map_returning_effect_meta()),
        catalog().contains(crate::rules::equality_idioms::object_literal_comparison_meta()),
        catalog().contains(crate::rules::equality_idioms::tag_string_comparison_meta()),
        catalog().contains(crate::rules::equality_idioms::tag_switch_meta()),
        catalog().contains(crate::rules::error_modeling::no_string_errors_meta()),
        catalog().contains(crate::rules::error_modeling::no_catchall_to_null_meta()),
        catalog().contains(crate::rules::concurrency_idioms::missing_concurrency_meta()),
        catalog().contains(crate::rules::concurrency_idioms::race_sleep_meta()),
        catalog().contains(crate::rules::concurrency_idioms::fork_join_meta()),
        catalog().contains(crate::rules::literal_idioms::raw_millis_meta()),
        catalog().contains(crate::rules::literal_idioms::sync_literal_meta()),
        catalog().contains(crate::rules::logging_security::config_redacted_meta()),
        catalog().contains(crate::rules::logging_security::structured_logging_meta()),
        catalog().contains(crate::rules::logging_security::json_response_meta()),
        catalog().contains(crate::rules::interruption::abort_signal_meta()),
        catalog().contains(crate::rules::interruption::nested_flatmap_meta()),
        catalog().contains(crate::rules::composition_limits::long_chains_meta()),
        catalog().contains(crate::rules::composition_limits::mergeall_megalist_meta()),
        catalog().contains(crate::rules::gen_shape::nested_gen_yield_meta()),
        catalog().contains(crate::rules::gen_shape::effect_fn_iife_meta()),
        catalog().contains(crate::rules::gen_shape::pipe_chain_meta()),
        catalog().contains(crate::rules::gen_shape::return_effect_in_gen_meta()),
        catalog().contains(crate::rules::gen_shape::redundant_tag_identifier_meta()),
        catalog().contains(crate::rules::no_unnecessary_gen::no_unnecessary_gen_meta()),
        catalog().contains(crate::rules::no_unnecessary_fail::no_unnecessary_fail_meta()),
        catalog().contains(crate::rules::no_effect_do::no_effect_do_meta()),
        catalog().contains(crate::rules::no_or_die::no_or_die_meta()),
        catalog().contains(crate::rules::idiom_shortcuts::prefer_effect_void_meta()),
        catalog().contains(crate::rules::idiom_shortcuts::prefer_as_void_meta()),
        catalog().contains(crate::rules::idiom_shortcuts::prefer_flatmap_meta()),
        catalog().contains(crate::rules::idiom_shortcuts::no_unnecessary_pipe_meta()),
        catalog().contains(crate::rules::catch_idioms::prefer_catch_tag_meta()),
        catalog().contains(crate::rules::catch_idioms::catch_to_map_error_meta()),
        catalog().contains(crate::rules::prefer_clock_service::prefer_clock_service_meta()),
        catalog().contains(crate::rules::prefer_random_service::prefer_random_service_meta()),
        catalog().contains(crate::rules::prefer_effect_logging::prefer_effect_logging_meta()),
        catalog().contains(crate::rules::globals_in_effect::prefer_effect_timers_meta()),
        catalog().contains(crate::rules::globals_in_effect::prefer_platform_fetch_meta()),
        catalog().contains(crate::rules::globals_in_effect::prefer_config_module_meta()),
        catalog().contains(crate::rules::globals_in_effect::prefer_schema_over_json_meta()),
        catalog().contains(crate::rules::prefer_effect_fn::prefer_effect_fn_meta()),
        catalog().contains(crate::rules::prefer_tagged_error_classes::prefer_tagged_error_classes_meta()),
        catalog().contains(crate::rules::schema_usage::prefer_decode_effect_meta()),
        catalog().contains(crate::rules::schema_usage::hoist_schema_codecs_meta()),
        catalog().contains(crate::rules::meaningful_span_names::meaningful_span_names_meta()),
        catalog().contains(crate::rules::prefer_node_counterparts::prefer_node_counterparts_meta()),
        catalog().contains(crate::rules::prefer_it_effect::prefer_it_effect_meta()),
        catalog().contains(crate::rules::no_chained_provides::no_chained_provides_meta()),
        catalog().contains(crate::rules::no_manual_sql_transactions::no_manual_sql_transactions_meta()),
        catalog().contains(crate::rules::retry_only_retryable::retry_only_retryable_meta()),
        catalog().contains(crate::rules::schedule_hygiene::add_jitter_meta()),
        catalog().contains(crate::rules::schedule_hygiene::cap_backoff_meta()),
        catalog().contains(crate::rules::no_unbounded_concurrency::no_unbounded_concurrency_meta()),
        catalog().contains(crate::rules::adopt::async_function_meta()),
        catalog().contains(crate::rules::adopt::promise_chain_meta()),
        catalog().contains(crate::rules::adopt::new_promise_meta()),
        catalog().contains(crate::rules::adopt::promise_all_meta()),
        catalog().contains(crate::rules::adopt::await_in_loop_meta()),
        catalog().contains(crate::rules::adopt::yield_loop_meta()),
        catalog().contains(crate::rules::agent_hygiene::if_else_chain_meta()),
        catalog().contains(crate::rules::agent_hygiene::ternary_meta()),
        catalog().contains(crate::rules::agent_hygiene::string_equality_guard_meta()),
        catalog().contains(crate::rules::agent_hygiene::raw_loop_meta()),
        catalog().contains(crate::rules::agent_hygiene::let_binding_meta()),
        catalog().contains(crate::rules::agent_hygiene::mutation_meta()),
        catalog().contains(crate::rules::agent_hygiene::inline_import_meta()),
        catalog().contains(crate::rules::agent_hygiene::any_type_meta()),
        catalog().contains(crate::rules::agent_hygiene::import_alias_meta()),
        catalog().contains(crate::rules::agent_hygiene::namespace_import_meta()),
        catalog().contains(crate::rules::agent_hygiene::try_catch_meta()),
        catalog().contains(crate::rules::agent_hygiene::as_cast_meta()),
        catalog().contains(crate::rules::agent_hygiene::unbounded_promise_all_meta()),
        catalog().contains(crate::rules::agent_hygiene::loose_equality_meta()),
        catalog().contains(crate::rules::agent_hygiene::non_null_assertion_meta()),
        catalog().contains(crate::rules::agent_hygiene::ts_enum_meta()),
        catalog().contains(crate::rules::agent_hygiene::safe_parse_meta()),
        catalog().contains(crate::rules::agent_hygiene::inline_type_import_meta()),
        catalog().contains(crate::rules::agent_hygiene::ts_namespace_meta()),
        catalog().contains(crate::rules::agent_hygiene::throw_meta()),
        catalog().contains(crate::rules::agent_hygiene::delete_op_meta()),
        catalog().contains(crate::rules::agent_hygiene::deep_nesting_meta()),
        catalog().contains(crate::rules::agent_hygiene::high_complexity_meta()),
        catalog().contains(crate::rules::agent_hygiene::too_many_params_meta()),
        catalog().contains(crate::rules::agent_hygiene::deep_relative_import_meta()),
        catalog().contains(crate::rules::agent_hygiene::duplicate_function_meta()),
        catalog().contains(crate::rules::oop_to_effect::singleton_meta()),
        catalog().contains(crate::rules::oop_to_effect::observer_meta()),
        catalog().contains(crate::rules::oop_to_effect::strategy_meta()),
        catalog().contains(crate::rules::oop_to_effect::visitor_meta()),
        catalog().contains(crate::rules::oop_to_effect::chain_meta()),
        catalog().contains(crate::rules::function_metrics::max_params_meta()),
        catalog().contains(crate::rules::function_metrics::max_nesting_meta()),
        catalog().contains(crate::rules::function_metrics::high_cognitive_meta()),
        catalog().contains(crate::rules::module_conventions::no_default_export_meta()),
        catalog().contains(crate::fn_index::duplicate_cross_file_meta()),
        catalog().contains(crate::fn_index::near_duplicate_meta()),
        catalog().contains(crate::fn_index::similar_name_meta()),
        catalog().contains(crate::fn_index::similar_shape_meta()),
        catalog().contains(crate::cycles::circular_import_meta()),
{
    lemma_chunk_0_listed();
    lemma_chunk_1_listed();
    lemma_chunk_2_listed();
    lemma_chunk_3_listed();
    lemma_chunk_4_listed();
    lemma_chunk_5_listed();
    lemma_chunk_6_listed();
    lemma_chunk_7_listed();
    lemma_chunk_8_listed();
    lemma_chunk_9_listed();
}

} // verus!
