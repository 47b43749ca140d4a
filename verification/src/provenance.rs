//! Every diagnostic names a rule of the catalog: its rule id, help text and
//! category are those of a catalog entry.
use vstd::prelude::*;

use crate::ast::{CallExpr, Event, Expr, Property, Stmt};
use crate::diagnostics::{Diagnostic, Span};
use crate::effect_imports::{any_effect_import, bindings_map, program_bindings, ImportSpecifier};
use crate::lint::{from_catalog_entries, linted, LintOptions, ParsedFile};
use crate::rules::agent_hygiene::{agent_specifiers_findings, duplicate_findings_of};
use crate::rules::catalog_ids::lemma_catalog_lists_every_meta;
use crate::rules::concurrency_idioms::fork_join_upto;
use crate::rules::idiom_shortcuts::pipe_pair_findings;
use crate::rules::no_unbounded_concurrency::{no_unbounded_concurrency_findings, property_findings};
use crate::rules::oop_to_effect::strategy_end_findings;
use crate::rules::schedule_hygiene::schedule_end_findings;
use crate::rules::schema_class_hygiene::constructor_findings;
use crate::rules::{catalog, Finding, FrameKind};
use crate::runner::{
    call_findings, early_correctness_findings, file_findings, idiom_call_findings, late_call_findings,
    late_correctness_findings, walk, walk_step, WalkState,
};

verus! {

/// Every finding of `fs` carries a catalog entry.
pub open spec fn from_catalog(fs: Seq<Finding>) -> bool {
    forall|k: int| #![trigger fs[k]] 0 <= k < fs.len() ==> catalog().contains(fs[k].0)
}

broadcast proof fn lemma_from_catalog_concat(a: Seq<Finding>, b: Seq<Finding>)
    requires
        from_catalog(a),
        from_catalog(b),
    ensures
        #[trigger] from_catalog(a + b),
{
    assert forall|k: int| #![trigger (a + b)[k]] 0 <= k < (a + b).len() implies catalog().contains((a + b)[k].0) by {
        if k < a.len() {
            assert((a + b)[k] == a[k]);
        } else {
            assert((a + b)[k] == b[k - a.len()]);
        }
    }
}

broadcast proof fn lemma_fork_join(stmts: Seq<Stmt>, bindings: Map<Seq<char>, Seq<char>>, n: int)
    ensures
        #[trigger] from_catalog(fork_join_upto(stmts, bindings, n)),
    decreases n,
{
    broadcast use lemma_from_catalog_concat;

    lemma_catalog_lists_every_meta();
    if !(n <= 0 || n >= stmts.len()) {
        lemma_fork_join(stmts, bindings, n - 1);
    }
}

broadcast proof fn lemma_pipe_pairs(args: Seq<Expr>, bindings: Map<Seq<char>, Seq<char>>, span: Span, n: int)
    ensures
        #[trigger] from_catalog(pipe_pair_findings(args, bindings, span, n)),
    decreases n,
{
    broadcast use lemma_from_catalog_concat;

    lemma_catalog_lists_every_meta();
    if !(n < 2 || n > args.len()) {
        lemma_pipe_pairs(args, bindings, span, n - 1);
    }
}

broadcast proof fn lemma_properties(properties: Seq<Property>)
    ensures
        #[trigger] from_catalog(property_findings(properties)),
    decreases properties.len(),
{
    broadcast use lemma_from_catalog_concat;

    lemma_catalog_lists_every_meta();
    if properties.len() > 0 {
        lemma_properties(properties.drop_last());
    }
}

broadcast proof fn lemma_unbounded(args: Seq<Expr>)
    ensures
        #[trigger] from_catalog(no_unbounded_concurrency_findings(args)),
    decreases args.len(),
{
    broadcast use lemma_from_catalog_concat;

    if args.len() > 0 {
        lemma_unbounded(args.drop_last());
        match args.last() {
            Expr::Object { properties, .. } => lemma_properties(properties@),
            _ => {},
        }
    }
}

broadcast proof fn lemma_constructors(name: Seq<char>, constructors: Seq<Span>)
    ensures
        #[trigger] from_catalog(constructor_findings(name, constructors)),
    decreases constructors.len(),
{
    broadcast use lemma_from_catalog_concat;

    lemma_catalog_lists_every_meta();
    if constructors.len() > 0 {
        lemma_constructors(name, constructors.drop_last());
    }
}

broadcast proof fn lemma_specifiers(strict: bool, specifiers: Seq<ImportSpecifier>)
    ensures
        #[trigger] from_catalog(agent_specifiers_findings(strict, specifiers)),
    decreases specifiers.len(),
{
    broadcast use lemma_from_catalog_concat;

    lemma_catalog_lists_every_meta();
    if specifiers.len() > 0 {
        lemma_specifiers(strict, specifiers.drop_last());
    }
}

broadcast proof fn lemma_schedule_end(spans: Seq<Span>, jitter: bool, cap: bool)
    ensures
        #[trigger] from_catalog(schedule_end_findings(spans, jitter, cap)),
    decreases spans.len(),
{
    broadcast use lemma_from_catalog_concat;

    lemma_catalog_lists_every_meta();
    if spans.len() > 0 {
        lemma_schedule_end(spans.drop_last(), jitter, cap);
    }
}

broadcast proof fn lemma_strategy_end(strict: bool, interfaces: Seq<(Seq<char>, Span)>, implemented: Seq<Seq<char>>)
    ensures
        #[trigger] from_catalog(strategy_end_findings(strict, interfaces, implemented)),
    decreases interfaces.len(),
{
    broadcast use lemma_from_catalog_concat;

    lemma_catalog_lists_every_meta();
    if interfaces.len() > 0 {
        lemma_strategy_end(strict, interfaces.drop_last(), implemented);
    }
}

broadcast proof fn lemma_duplicates(spans: Seq<Span>)
    ensures
        #[trigger] from_catalog(duplicate_findings_of(spans)),
    decreases spans.len(),
{
    broadcast use lemma_from_catalog_concat;

    lemma_catalog_lists_every_meta();
    if spans.len() > 0 {
        lemma_duplicates(spans.drop_last());
    }
}

broadcast group group_from_catalog {
    lemma_from_catalog_concat,
    lemma_fork_join,
    lemma_pipe_pairs,
    lemma_properties,
    lemma_unbounded,
    lemma_constructors,
    lemma_specifiers,
    lemma_schedule_end,
    lemma_strategy_end,
    lemma_duplicates,
}

#[verifier::spinoff_prover]
#[verifier::rlimit(100)]
proof fn lemma_early_correctness(stack: Seq<FrameKind>, bindings: Map<Seq<char>, Seq<char>>, call: CallExpr)
    ensures
        from_catalog(early_correctness_findings(stack, bindings, call)),
{
    broadcast use lemma_from_catalog_concat;

    lemma_catalog_lists_every_meta();
}

#[verifier::spinoff_prover]
#[verifier::rlimit(100)]
proof fn lemma_late_correctness(bindings: Map<Seq<char>, Seq<char>>, call: CallExpr)
    ensures
        from_catalog(late_correctness_findings(bindings, call)),
{
    broadcast use lemma_from_catalog_concat, lemma_fork_join;

    lemma_catalog_lists_every_meta();
}

#[verifier::spinoff_prover]
#[verifier::rlimit(100)]
proof fn lemma_idiom_call(stack: Seq<FrameKind>, bindings: Map<Seq<char>, Seq<char>>, call: CallExpr)
    ensures
        from_catalog(idiom_call_findings(stack, bindings, call)),
{
    broadcast use lemma_from_catalog_concat, lemma_pipe_pairs;

    lemma_catalog_lists_every_meta();
}

#[verifier::spinoff_prover]
#[verifier::rlimit(100)]
proof fn lemma_late_call(stack: Seq<FrameKind>, bindings: Map<Seq<char>, Seq<char>>, flags: (bool, bool, bool, bool), call: CallExpr)
    ensures
        from_catalog(late_call_findings(stack, bindings, flags, call)),
{
    broadcast use lemma_from_catalog_concat, lemma_unbounded, lemma_properties;

    lemma_catalog_lists_every_meta();
}

proof fn lemma_step_call(w: WalkState, bindings: Map<Seq<char>, Seq<char>>, flags: (bool, bool, bool, bool), call: CallExpr)
    requires
        from_catalog(w.2),
    ensures
        from_catalog(walk_step(w, bindings, flags, Event::Call(call)).2),
{
    broadcast use lemma_from_catalog_concat;

    lemma_early_correctness(w.0, bindings, call);
    lemma_late_correctness(bindings, call);
    lemma_idiom_call(w.0, bindings, call);
    lemma_late_call(w.0, bindings, flags, call);
    assert(walk_step(w, bindings, flags, Event::Call(call)).2 == w.2 + call_findings(w.0, bindings, flags, call));
}

#[verifier::spinoff_prover]
#[verifier::rlimit(100)]
proof fn lemma_step_new(w: WalkState, bindings: Map<Seq<char>, Seq<char>>, flags: (bool, bool, bool, bool), event: Event)
    requires
        from_catalog(w.2),
        event is New,
    ensures
        from_catalog(walk_step(w, bindings, flags, event).2),
{
    broadcast use lemma_from_catalog_concat;

    lemma_catalog_lists_every_meta();
}

#[verifier::spinoff_prover]
#[verifier::rlimit(100)]
proof fn lemma_step_member(w: WalkState, bindings: Map<Seq<char>, Seq<char>>, flags: (bool, bool, bool, bool), event: Event)
    requires
        from_catalog(w.2),
        event is Member,
    ensures
        from_catalog(walk_step(w, bindings, flags, event).2),
{
    broadcast use lemma_from_catalog_concat;

    lemma_catalog_lists_every_meta();
}

#[verifier::spinoff_prover]
#[verifier::rlimit(100)]
proof fn lemma_step_yield(w: WalkState, bindings: Map<Seq<char>, Seq<char>>, flags: (bool, bool, bool, bool), event: Event)
    requires
        from_catalog(w.2),
        event is Yield,
    ensures
        from_catalog(walk_step(w, bindings, flags, event).2),
{
    broadcast use lemma_from_catalog_concat;

    lemma_catalog_lists_every_meta();
}

#[verifier::spinoff_prover]
#[verifier::rlimit(100)]
proof fn lemma_step_throw(w: WalkState, bindings: Map<Seq<char>, Seq<char>>, flags: (bool, bool, bool, bool), event: Event)
    requires
        from_catalog(w.2),
        event is Throw,
    ensures
        from_catalog(walk_step(w, bindings, flags, event).2),
{
    broadcast use lemma_from_catalog_concat;

    lemma_catalog_lists_every_meta();
}

#[verifier::spinoff_prover]
#[verifier::rlimit(100)]
proof fn lemma_step_try(w: WalkState, bindings: Map<Seq<char>, Seq<char>>, flags: (bool, bool, bool, bool), event: Event)
    requires
        from_catalog(w.2),
        event is Try,
    ensures
        from_catalog(walk_step(w, bindings, flags, event).2),
{
    broadcast use lemma_from_catalog_concat;

    lemma_catalog_lists_every_meta();
}

#[verifier::spinoff_prover]
#[verifier::rlimit(100)]
proof fn lemma_step_tagged_template(w: WalkState, bindings: Map<Seq<char>, Seq<char>>, flags: (bool, bool, bool, bool), event: Event)
    requires
        from_catalog(w.2),
        event is TaggedTemplate,
    ensures
        from_catalog(walk_step(w, bindings, flags, event).2),
{
    broadcast use lemma_from_catalog_concat;

    lemma_catalog_lists_every_meta();
}

#[verifier::spinoff_prover]
#[verifier::rlimit(100)]
proof fn lemma_step_import(w: WalkState, bindings: Map<Seq<char>, Seq<char>>, flags: (bool, bool, bool, bool), event: Event)
    requires
        from_catalog(w.2),
        event is Import,
    ensures
        from_catalog(walk_step(w, bindings, flags, event).2),
{
    broadcast use lemma_from_catalog_concat, lemma_specifiers;

    lemma_catalog_lists_every_meta();
}

#[verifier::spinoff_prover]
#[verifier::rlimit(100)]
proof fn lemma_step_export_default(w: WalkState, bindings: Map<Seq<char>, Seq<char>>, flags: (bool, bool, bool, bool), event: Event)
    requires
        from_catalog(w.2),
        event is ExportDefault,
    ensures
        from_catalog(walk_step(w, bindings, flags, event).2),
{
    broadcast use lemma_from_catalog_concat;

    lemma_catalog_lists_every_meta();
}

#[verifier::spinoff_prover]
#[verifier::rlimit(100)]
proof fn lemma_step_class(w: WalkState, bindings: Map<Seq<char>, Seq<char>>, flags: (bool, bool, bool, bool), event: Event)
    requires
        from_catalog(w.2),
        event is Class,
    ensures
        from_catalog(walk_step(w, bindings, flags, event).2),
{
    broadcast use lemma_from_catalog_concat, lemma_constructors;

    lemma_catalog_lists_every_meta();
}

#[verifier::spinoff_prover]
#[verifier::rlimit(100)]
proof fn lemma_step_binary(w: WalkState, bindings: Map<Seq<char>, Seq<char>>, flags: (bool, bool, bool, bool), event: Event)
    requires
        from_catalog(w.2),
        event is Binary,
    ensures
        from_catalog(walk_step(w, bindings, flags, event).2),
{
    broadcast use lemma_from_catalog_concat;

    lemma_catalog_lists_every_meta();
}

#[verifier::spinoff_prover]
#[verifier::rlimit(100)]
proof fn lemma_step_switch(w: WalkState, bindings: Map<Seq<char>, Seq<char>>, flags: (bool, bool, bool, bool), event: Event)
    requires
        from_catalog(w.2),
        event is Switch,
    ensures
        from_catalog(walk_step(w, bindings, flags, event).2),
{
    broadcast use lemma_from_catalog_concat;

    lemma_catalog_lists_every_meta();
}

#[verifier::spinoff_prover]
#[verifier::rlimit(100)]
proof fn lemma_step_return(w: WalkState, bindings: Map<Seq<char>, Seq<char>>, flags: (bool, bool, bool, bool), event: Event)
    requires
        from_catalog(w.2),
        event is Return,
    ensures
        from_catalog(walk_step(w, bindings, flags, event).2),
{
    broadcast use lemma_from_catalog_concat;

    lemma_catalog_lists_every_meta();
}

#[verifier::spinoff_prover]
#[verifier::rlimit(100)]
proof fn lemma_step_function(w: WalkState, bindings: Map<Seq<char>, Seq<char>>, flags: (bool, bool, bool, bool), event: Event)
    requires
        from_catalog(w.2),
        event is Function,
    ensures
        from_catalog(walk_step(w, bindings, flags, event).2),
{
    broadcast use lemma_from_catalog_concat;

    lemma_catalog_lists_every_meta();
}

#[verifier::spinoff_prover]
#[verifier::rlimit(100)]
proof fn lemma_step_loop(w: WalkState, bindings: Map<Seq<char>, Seq<char>>, flags: (bool, bool, bool, bool), event: Event)
    requires
        from_catalog(w.2),
        event is Loop,
    ensures
        from_catalog(walk_step(w, bindings, flags, event).2),
{
    broadcast use lemma_from_catalog_concat;

    lemma_catalog_lists_every_meta();
}

#[verifier::spinoff_prover]
#[verifier::rlimit(100)]
proof fn lemma_step_agent_marks(w: WalkState, bindings: Map<Seq<char>, Seq<char>>, flags: (bool, bool, bool, bool), event: Event)
    requires
        from_catalog(w.2),
        event is TsNamespace || event is Unary || event is TsImportType || event is TsNonNull || event is TsEnum || event is TsAs || event is TsAny,
    ensures
        from_catalog(walk_step(w, bindings, flags, event).2),
{
    broadcast use lemma_from_catalog_concat;

    lemma_catalog_lists_every_meta();
}

#[verifier::spinoff_prover]
#[verifier::rlimit(100)]
proof fn lemma_step_statements(w: WalkState, bindings: Map<Seq<char>, Seq<char>>, flags: (bool, bool, bool, bool), event: Event)
    requires
        from_catalog(w.2),
        event is If || event is Conditional || event is VarDecl || event is Assignment || event is ImportExpression || event is EnterFunction || event is LeaveFunction || event is Interface,
    ensures
        from_catalog(walk_step(w, bindings, flags, event).2),
{
    broadcast use lemma_from_catalog_concat;

    lemma_catalog_lists_every_meta();
}

proof fn lemma_step(w: WalkState, bindings: Map<Seq<char>, Seq<char>>, flags: (bool, bool, bool, bool), event: Event)
    requires
        from_catalog(w.2),
    ensures
        from_catalog(walk_step(w, bindings, flags, event).2),
{
    match event {
        Event::Call(call) => lemma_step_call(w, bindings, flags, call),
        Event::New { .. } => lemma_step_new(w, bindings, flags, event),
        Event::Member { .. } => lemma_step_member(w, bindings, flags, event),
        Event::Yield { .. } => lemma_step_yield(w, bindings, flags, event),
        Event::Throw { .. } => lemma_step_throw(w, bindings, flags, event),
        Event::Try { .. } => lemma_step_try(w, bindings, flags, event),
        Event::TaggedTemplate { .. } => lemma_step_tagged_template(w, bindings, flags, event),
        Event::Import { .. } => lemma_step_import(w, bindings, flags, event),
        Event::ExportDefault { .. } => lemma_step_export_default(w, bindings, flags, event),
        Event::Class { .. } => lemma_step_class(w, bindings, flags, event),
        Event::Binary { .. } => lemma_step_binary(w, bindings, flags, event),
        Event::Switch { .. } => lemma_step_switch(w, bindings, flags, event),
        Event::Return { .. } => lemma_step_return(w, bindings, flags, event),
        Event::Function { .. } => lemma_step_function(w, bindings, flags, event),
        Event::Loop { .. } => lemma_step_loop(w, bindings, flags, event),
        Event::TsNamespace { .. } => lemma_step_agent_marks(w, bindings, flags, event),
        Event::Unary { .. } => lemma_step_agent_marks(w, bindings, flags, event),
        Event::TsImportType { .. } => lemma_step_agent_marks(w, bindings, flags, event),
        Event::TsNonNull { .. } => lemma_step_agent_marks(w, bindings, flags, event),
        Event::TsEnum { .. } => lemma_step_agent_marks(w, bindings, flags, event),
        Event::TsAs { .. } => lemma_step_agent_marks(w, bindings, flags, event),
        Event::TsAny { .. } => lemma_step_agent_marks(w, bindings, flags, event),
        Event::If { .. } => lemma_step_statements(w, bindings, flags, event),
        Event::Conditional { .. } => lemma_step_statements(w, bindings, flags, event),
        Event::VarDecl { .. } => lemma_step_statements(w, bindings, flags, event),
        Event::Assignment { .. } => lemma_step_statements(w, bindings, flags, event),
        Event::ImportExpression { .. } => lemma_step_statements(w, bindings, flags, event),
        Event::EnterFunction { .. } => lemma_step_statements(w, bindings, flags, event),
        Event::LeaveFunction { .. } => lemma_step_statements(w, bindings, flags, event),
        Event::Interface { .. } => lemma_step_statements(w, bindings, flags, event),
    }
}

proof fn lemma_walk(events: Seq<Event>, bindings: Map<Seq<char>, Seq<char>>, flags: (bool, bool, bool, bool))
    ensures
        from_catalog(walk(events, bindings, flags).2),
    decreases events.len(),
{
    if events.len() > 0 {
        lemma_walk(events.drop_last(), bindings, flags);
        lemma_step(walk(events.drop_last(), bindings, flags), bindings, flags, events.last());
    }
}

proof fn lemma_file(events: Seq<Event>, bindings: Map<Seq<char>, Seq<char>>, flags: (bool, bool, bool, bool))
    ensures
        from_catalog(file_findings(events, bindings, flags)),
{
    broadcast use group_from_catalog;

    lemma_catalog_lists_every_meta();
    lemma_walk(events, bindings, flags);
}

/// Whatever a file holds and whichever tiers are on, each diagnostic of a
/// lint carries the rule id, help text and category of a catalog entry.
pub(crate) proof fn lemma_diagnostics_from_catalog(display_path: Seq<char>, source: &str, parsed: ParsedFile, options: LintOptions, out: Seq<Diagnostic>)
    requires
        linted(display_path, source, parsed, options, out),
    ensures
        from_catalog_entries(out),
{
    if !(parsed.panicked || !any_effect_import(parsed.imports@)) {
        let bindings = bindings_map(program_bindings(parsed.imports@));
        let flags = (options.v4_active, options.adopt, options.agent || options.agent_strict, options.agent_strict);
        lemma_file(parsed.events@, bindings, flags);
        let fs = file_findings(parsed.events@, bindings, flags);
        assert forall|k: int| 0 <= k < out.len() implies exists|i: int|
            0 <= i < catalog().len() && catalog()[i].id == (#[trigger] out[k]).rule && catalog()[i].help == out[k].help
                && catalog()[i].category == out[k].category by {
            assert(catalog().contains(fs[k].0));
            let i = choose|i: int| 0 <= i < catalog().len() && catalog()[i] == fs[k].0;
            assert(catalog()[i].id == out[k].rule);
        }
    }
}

} // verus!
