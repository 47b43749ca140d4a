use effect_doctor_core::ast::{push_else_if_starts, Alternate, BodyShape, CallExpr, ClassDecl, ClassMember, Declarator, SignatureKind, Event, Expr, Flow, FunctionExpr, Property, Stmt, TaggedTemplate, TryStmt};
use effect_doctor_core::diagnostics::{Category, Diagnostic, FileContext, Severity, Span};
use effect_doctor_core::effect_imports::{ImportDecl, ImportSpecifier};
use effect_doctor_core::lint::{lint_source, lint_source_opts, lint_source_with, LintOptions, ParsedFile};
use effect_doctor_core::rules::all_metas;

fn sp(start: u32, end: u32) -> Span {
    Span { start, end }
}

fn ident(name: &str) -> Expr {
    Expr::Ident { name: name.to_string(), span: sp(0, 0) }
}

fn member(object: Expr, property: &str) -> Expr {
    Expr::Member { object: Box::new(object), property: property.to_string(), span: sp(0, 0) }
}

fn string(value: &str, span: Span) -> Expr {
    Expr::Str { value: value.to_string(), span }
}

fn call(callee: Expr, arguments: Vec<Expr>, span: Span) -> CallExpr {
    CallExpr { callee, arguments, type_argument: None, span }
}

fn call_expr(callee: Expr, arguments: Vec<Expr>) -> Expr {
    Expr::Call(Box::new(call(callee, arguments, sp(0, 0))))
}

fn effect(prop: &str) -> Expr {
    member(ident("Effect"), prop)
}

fn function(generator: bool, is_arrow: bool, expression: bool, body: Vec<Stmt>, span: Span) -> Expr {
    Expr::Function(Box::new(FunctionExpr { is_arrow, param_count: 0, generator, is_async: false, expression, body, span }))
}

fn concise(body: Expr, span: Span) -> Expr {
    function(false, true, true, vec![Stmt::Expression { expression: body, span }], span)
}

fn effect_import() -> ImportDecl {
    ImportDecl {
        source: "effect".to_string(),
        specifiers: Some(vec![
            ImportSpecifier::Named { local: "Effect".to_string(), imported: "Effect".to_string(), span: Span { start: 0, end: 0 } },
            ImportSpecifier::Named { local: "Schedule".to_string(), imported: "Schedule".to_string(), span: Span { start: 0, end: 0 } },
            ImportSpecifier::Named { local: "Layer".to_string(), imported: "Layer".to_string(), span: Span { start: 0, end: 0 } },
            ImportSpecifier::Named { local: "Schema".to_string(), imported: "Schema".to_string(), span: Span { start: 0, end: 0 } },
            ImportSpecifier::Named { local: "Config".to_string(), imported: "Config".to_string(), span: Span { start: 0, end: 0 } },
            ImportSpecifier::Named { local: "Fiber".to_string(), imported: "Fiber".to_string(), span: Span { start: 0, end: 0 } },
        ]),
    }
}

const SOURCE: &str = "import { Effect } from \"effect\"\nconst program = Effect.gen(function* () {\n  const a = yield thing\n  throw oops\n})\n";

fn parsed(events: Vec<Event>) -> ParsedFile {
    ParsedFile { panicked: false, imports: vec![effect_import()], events }
}

fn lint(events: Vec<Event>) -> Vec<Diagnostic> {
    lint_source("src/app.ts", SOURCE, &parsed(events), false)
}

fn offset(needle: &str) -> u32 {
    SOURCE.find(needle).unwrap() as u32
}

/// Events for `Effect.gen(function* () { <inner> })` with the generator at `gen_span`.
fn in_effect_gen(gen_span: Span, inner: Vec<Event>) -> Vec<Event> {
    let mut events = vec![Event::Call(call(effect("gen"), vec![function(true, false, false, vec![], gen_span)], sp(10, 20)))];
    events.push(Event::EnterFunction { span: gen_span });
    events.extend(inner);
    events.push(Event::LeaveFunction);
    events
}

fn gen_span() -> Span {
    sp(offset("function*"), offset("})"))
}

fn rules_of(diagnostics: &[Diagnostic]) -> Vec<&'static str> {
    diagnostics.iter().map(|d| d.rule).collect()
}

#[test]
fn plain_yield_in_effect_gen_is_reported_with_position() {
    let yield_at = offset("yield thing");
    let diagnostics = lint(in_effect_gen(gen_span(), vec![Event::Yield { delegate: false, argument: None, span: sp(yield_at, yield_at + 11) }]));
    assert_eq!(diagnostics.len(), 1);
    let d = &diagnostics[0];
    assert_eq!(d.rule, "require-yield-star");
    assert_eq!(d.severity, Severity::Error);
    assert_eq!(d.line, 3);
    assert_eq!(d.column, 13);
    assert_eq!(d.snippet, "  const a = yield thing");
    assert_eq!(d.message, "Plain `yield` inside Effect.gen — use `yield*`");
    assert_eq!(d.file, "src/app.ts");
    assert_eq!(d.file_context, FileContext::Production);
}

#[test]
fn yield_star_is_not_reported() {
    let diagnostics = lint(in_effect_gen(gen_span(), vec![Event::Yield { delegate: true, argument: None, span: sp(60, 70) }]));
    assert!(diagnostics.is_empty());
}

#[test]
fn yield_outside_effect_gen_is_not_reported() {
    let f = sp(5, 9);
    let events = vec![
        Event::Call(call(ident("run"), vec![function(true, false, false, vec![], f)], sp(0, 10))),
        Event::EnterFunction { span: f },
        Event::Yield { delegate: false, argument: None, span: sp(60, 70) },
        Event::LeaveFunction,
    ];
    assert!(lint(events).is_empty());
}

#[test]
fn throw_in_effect_gen_is_reported() {
    let at = offset("throw oops");
    let diagnostics = lint(in_effect_gen(gen_span(), vec![Event::Throw { span: sp(at, at + 10) }]));
    assert_eq!(rules_of(&diagnostics), vec!["no-throw-in-effect"]);
    assert_eq!(diagnostics[0].line, 4);
    assert_eq!(diagnostics[0].column, 3);
}

#[test]
fn frame_closes_after_leave() {
    let mut events = in_effect_gen(gen_span(), vec![]);
    events.push(Event::Throw { span: sp(0, 1) });
    assert!(lint(events).is_empty());
}

#[test]
fn file_without_effect_import_reports_nothing() {
    let parsed = ParsedFile { panicked: false, imports: vec![], events: in_effect_gen(gen_span(), vec![Event::Throw { span: sp(0, 1) }]) };
    assert!(lint_source("a.ts", SOURCE, &parsed, false).is_empty());
}

#[test]
fn panicked_parse_reports_nothing() {
    let parsed = ParsedFile { panicked: true, imports: vec![effect_import()], events: in_effect_gen(gen_span(), vec![Event::Throw { span: sp(0, 1) }]) };
    assert!(lint_source("a.ts", SOURCE, &parsed, false).is_empty());
}

#[test]
fn run_inside_effect_code_is_reported() {
    let inner = call(effect("runPromise"), vec![ident("x")], sp(40, 50));
    let diagnostics = lint(in_effect_gen(gen_span(), vec![Event::Call(inner)]));
    assert_eq!(rules_of(&diagnostics), vec!["no-run-inside-effect"]);
    assert_eq!(diagnostics[0].message, "Effect.runPromise called inside Effect code — compose with `yield*` instead");
}

#[test]
fn run_at_top_level_is_not_reported() {
    let diagnostics = lint(vec![Event::Call(call(effect("runPromise"), vec![ident("x")], sp(40, 50)))]);
    assert!(diagnostics.is_empty());
}

#[test]
fn callback_of_effect_call_is_effect_code() {
    let cb = sp(30, 40);
    let events = vec![
        Event::Call(call(effect("map"), vec![ident("x"), function(false, true, false, vec![], cb)], sp(20, 41))),
        Event::EnterFunction { span: cb },
        Event::Call(call(member(ident("Math"), "random"), vec![], sp(32, 45))),
        Event::Call(call(member(ident("console"), "log"), vec![], sp(33, 45))),
        Event::Call(call(member(ident("Date"), "now"), vec![], sp(34, 45))),
        Event::New(call(ident("Date"), vec![], sp(35, 45))),
        Event::Call(call(ident("setTimeout"), vec![], sp(36, 45))),
        Event::Call(call(ident("fetch"), vec![], sp(37, 45))),
        Event::Call(call(member(ident("JSON"), "parse"), vec![], sp(38, 45))),
        Event::Member { object: ident("process"), property: "env".to_string(), span: sp(39, 45) },
        Event::LeaveFunction,
    ];
    let diagnostics = lint(events);
    assert_eq!(
        rules_of(&diagnostics),
        vec![
            "prefer-random-service",
            "prefer-effect-logging",
            "prefer-clock-service",
            "prefer-clock-service",
            "prefer-effect-timers",
            "prefer-platform-fetch",
            "prefer-schema-over-json",
            "prefer-config-module",
        ]
    );
    assert_eq!(diagnostics[1].message, "console.log inside Effect code — use Effect.log*");
    assert_eq!(diagnostics[3].message, "new Date() inside Effect code — use DateTime.now");
}

#[test]
fn try_catch_and_finally_in_gen() {
    let at = offset("const a");
    let catching = TryStmt { has_catch: true, has_finally: true, block_yields: true, finalizer_yields: false, span: sp(at, at + 20) };
    let finally_yield = TryStmt { has_catch: false, has_finally: true, block_yields: false, finalizer_yields: true, span: sp(at, at + 20) };
    let finally_quiet = TryStmt { has_catch: false, has_finally: true, block_yields: false, finalizer_yields: false, span: sp(at, at + 20) };
    let diagnostics = lint(in_effect_gen(gen_span(), vec![Event::Try(catching), Event::Try(finally_yield), Event::Try(finally_quiet)]));
    assert_eq!(rules_of(&diagnostics), vec!["no-try-catch-in-gen", "no-try-finally-in-gen"]);
    assert_eq!(diagnostics[1].severity, Severity::Warn);
}

#[test]
fn effect_do_and_or_die_members() {
    let events = vec![
        Event::Member { object: ident("Effect"), property: "Do".to_string(), span: sp(0, 9) },
        Event::Member { object: ident("Layer"), property: "orDie".to_string(), span: sp(0, 9) },
        Event::Member { object: ident("Schema"), property: "orDie".to_string(), span: sp(0, 9) },
        Event::Member { object: ident("Other"), property: "Do".to_string(), span: sp(0, 9) },
    ];
    let diagnostics = lint(events);
    assert_eq!(rules_of(&diagnostics), vec!["no-effect-do-notation", "no-orDie-to-silence-errors"]);
    assert_eq!(diagnostics[1].message, "Layer.orDie — make sure this failure is truly unrecoverable");
}

#[test]
fn chained_provides_are_counted() {
    let provide = || call_expr(effect("provide"), vec![ident("L")]);
    let pipe = call(member(ident("program"), "pipe"), vec![provide(), provide(), provide()], sp(0, 5));
    let diagnostics = lint(vec![Event::Call(pipe)]);
    assert_eq!(rules_of(&diagnostics), vec!["no-chained-provides"]);
    assert_eq!(diagnostics[0].message, "3 Effect.provide calls in one pipe — compose the layers and provide once");
}

#[test]
fn single_provide_is_fine() {
    let pipe = call(member(ident("program"), "pipe"), vec![call_expr(effect("provide"), vec![])], sp(0, 5));
    assert!(lint(vec![Event::Call(pipe)]).is_empty());
}

#[test]
fn retry_without_filter_is_reported() {
    let options = Expr::Object { properties: vec![Property { key: Some("times".to_string()), value: ident("n"), span: sp(0, 1) }], span: sp(0, 1) };
    let filtered = Expr::Object { properties: vec![Property { key: Some("while".to_string()), value: ident("p"), span: sp(0, 1) }], span: sp(0, 1) };
    let diagnostics = lint(vec![
        Event::Call(call(effect("retry"), vec![options], sp(0, 5))),
        Event::Call(call(effect("retry"), vec![filtered], sp(0, 5))),
        Event::Call(call(effect("retry"), vec![], sp(0, 5))),
    ]);
    assert_eq!(rules_of(&diagnostics), vec!["retry-only-retryable"]);
}

#[test]
fn unbounded_concurrency_is_reported_per_property() {
    let unbounded = |at: u32| Property { key: Some("concurrency".to_string()), value: string("unbounded", sp(at, at)), span: sp(at, at + 5) };
    let object = Expr::Object { properties: vec![unbounded(1), Property { key: Some("concurrency".to_string()), value: string("inherit", sp(0, 0)), span: sp(2, 3) }, unbounded(3)], span: sp(0, 9) };
    let diagnostics = lint(vec![Event::Call(call(ident("forEach"), vec![ident("xs"), object], sp(0, 9)))]);
    assert_eq!(rules_of(&diagnostics), vec!["no-unbounded-concurrency", "no-unbounded-concurrency"]);
    assert_eq!(diagnostics[0].column, 2);
    assert_eq!(diagnostics[1].column, 4);
}

#[test]
fn map_returning_effect_is_reported() {
    let handler = concise(call_expr(effect("log"), vec![]), sp(0, 0));
    let diagnostics = lint(vec![Event::Call(call(effect("map"), vec![ident("x"), handler], sp(0, 5)))]);
    assert_eq!(rules_of(&diagnostics), vec!["no-map-returning-effect"]);
    assert_eq!(
        diagnostics[0].message,
        "Effect.map callback returns Effect.log(...) — the inner effect never runs; use Effect.flatMap or Effect.tap"
    );
}

#[test]
fn map_returning_predicate_is_fine() {
    let handler = concise(call_expr(effect("isEffect"), vec![]), sp(0, 0));
    assert!(lint(vec![Event::Call(call(effect("map"), vec![handler], sp(0, 5)))]).is_empty());
}

#[test]
fn generic_span_name_is_reported_at_literal() {
    let diagnostics = lint(vec![Event::Call(call(effect("withSpan"), vec![string("Handler", sp(7, 9))], sp(0, 5)))]);
    assert_eq!(rules_of(&diagnostics), vec!["meaningful-span-names"]);
    assert_eq!(diagnostics[0].message, "span name \"Handler\" is generic — name the business operation");
    assert_eq!(diagnostics[0].column, 8);
    assert!(lint(vec![Event::Call(call(effect("withSpan"), vec![string("UserRepo.create", sp(7, 9))], sp(0, 5)))]).is_empty());
}

#[test]
fn unnecessary_gen_and_fail() {
    let body = vec![Stmt::Return {
        argument: Some(Expr::Yield { delegate: true, argument: Some(Box::new(ident("x"))), span: sp(0, 0) }),
        span: sp(0, 0),
    }];
    let g = sp(3, 4);
    let events = vec![
        Event::Call(call(effect("gen"), vec![function(true, false, false, body, g)], sp(1, 2))),
        Event::EnterFunction { span: g },
        Event::Yield {
            delegate: true,
            argument: Some(call_expr(effect("fail"), vec![Expr::New(Box::new(call(ident("NotFound"), vec![], sp(0, 0))))])),
            span: sp(5, 6),
        },
        Event::LeaveFunction,
    ];
    assert_eq!(rules_of(&lint(events)), vec!["no-unnecessary-gen", "no-unnecessary-fail-of-yieldable"]);
}

#[test]
fn manual_sql_transaction_is_reported() {
    let template = TaggedTemplate { tag: ident("sql"), quasis: vec!["  begin transaction".to_string()], span: sp(0, 3) };
    let other = TaggedTemplate { tag: ident("sql"), quasis: vec!["SELECT 1".to_string()], span: sp(0, 3) };
    assert_eq!(rules_of(&lint(vec![Event::TaggedTemplate(template), Event::TaggedTemplate(other)])), vec!["no-manual-sql-transactions"]);
}

#[test]
fn node_builtin_import_is_reported() {
    let decl = ImportDecl { source: "node:fs".to_string(), specifiers: None };
    let diagnostics = lint(vec![Event::Import { decl, source_span: sp(0, 3), span: sp(0, 3) }]);
    assert_eq!(rules_of(&diagnostics), vec!["prefer-node-effect-counterparts"]);
    assert_eq!(diagnostics[0].message, "import from \"node:fs\" in an Effect file — consider the FileSystem platform service");
}

#[test]
fn default_export_only_under_agent() {
    let events = || vec![Event::ExportDefault { span: sp(0, 3) }];
    assert!(lint(events()).is_empty());
    let agent = LintOptions { agent: true, ..LintOptions::default() };
    let diagnostics = lint_source_opts("a.ts", SOURCE, &parsed(events()), agent);
    // One rule owns the id, so a default export is reported once.
    assert_eq!(rules_of(&diagnostics), vec!["agent-no-default-export"]);
    assert_eq!(diagnostics[0].message, "default export — prefer a named export for stable identity across imports");
    assert_eq!(diagnostics[0].severity, Severity::Warn);
    let strict = LintOptions { agent_strict: true, ..LintOptions::default() };
    let diagnostics = lint_source_opts("a.ts", SOURCE, &parsed(events()), strict);
    assert_eq!(diagnostics[0].severity, Severity::Error);
}

#[test]
fn tagged_error_classes() {
    let class = ClassDecl { name: Some("NotFound".to_string()), super_class: Some(ident("Error")), implements: vec![], constructors: vec![], members: vec![], span: sp(0, 3) };
    let diagnostics = lint(vec![Event::Class(class)]);
    assert_eq!(diagnostics[0].message, "class NotFound extends Error — use Data.TaggedError / Schema.TaggedErrorClass");
    let anonymous = ClassDecl { name: None, super_class: Some(ident("Error")), implements: vec![], constructors: vec![], members: vec![], span: sp(0, 3) };
    assert_eq!(lint(vec![Event::Class(anonymous)])[0].message, "class anonymous extends Error — use Data.TaggedError / Schema.TaggedErrorClass");
}

#[test]
fn schedule_without_jitter_or_cap() {
    let exp = Event::Member { object: ident("Schedule"), property: "exponential".to_string(), span: sp(0, 3) };
    assert_eq!(rules_of(&lint(vec![exp])), vec!["add-jitter-to-backoff", "cap-exponential-backoff"]);
    let exp = Event::Member { object: ident("Schedule"), property: "exponential".to_string(), span: sp(0, 3) };
    let jitter = Event::Member { object: ident("Schedule"), property: "jittered".to_string(), span: sp(0, 3) };
    let cap = Event::Member { object: ident("Schedule"), property: "either".to_string(), span: sp(0, 3) };
    assert!(lint(vec![exp, cap, jitter]).is_empty());
}

#[test]
fn catch_all_dispatching_on_tag() {
    let test = Expr::Binary {
        operator: "===".to_string(),
        left: Box::new(member(ident("e"), "_tag")),
        right: Box::new(string("A", sp(0, 0))),
        span: sp(0, 0),
    };
    let handler = concise(Expr::Conditional { test: Box::new(test), consequent: Box::new(ident("a")), alternate: Box::new(ident("b")), span: sp(0, 0) }, sp(0, 0));
    let diagnostics = lint(vec![Event::Call(call(effect("catchAll"), vec![handler], sp(0, 3)))]);
    assert_eq!(rules_of(&diagnostics), vec!["prefer-catch-tag"]);
    let failing = concise(call_expr(effect("fail"), vec![ident("e")]), sp(0, 0));
    let diagnostics = lint(vec![Event::Call(call(effect("catch"), vec![failing], sp(0, 3)))]);
    assert_eq!(rules_of(&diagnostics), vec!["catch-to-map-error"]);
    assert_eq!(diagnostics[0].message, "Effect.catch handler always re-fails — use Effect.mapError");
}

#[test]
fn run_sync_over_async_constructor() {
    let argument = call_expr(member(call_expr(effect("succeed"), vec![]), "pipe"), vec![call_expr(effect("sleep"), vec![])]);
    let diagnostics = lint(vec![Event::Call(call(effect("runSync"), vec![argument], sp(0, 3)))]);
    assert_eq!(rules_of(&diagnostics), vec!["no-runsync-on-async-effect"]);
    assert_eq!(diagnostics[0].message, "Effect.runSync over Effect.sleep — this throws at runtime; use Effect.runPromise");
}

#[test]
fn logging_security_checks() {
    let secret = call(member(ident("Config"), "string"), vec![string("DB_PASSWORD", sp(0, 0))], sp(0, 3));
    let template = Expr::Template { expressions: vec![call_expr(member(ident("JSON"), "stringify"), vec![ident("x")])], span: sp(0, 0) };
    let log = call(effect("logInfo"), vec![template], sp(0, 3));
    let diagnostics = lint(vec![Event::Call(secret), Event::Call(log)]);
    assert_eq!(rules_of(&diagnostics), vec!["prefer-config-redacted", "prefer-structured-logging-args"]);
    assert_eq!(diagnostics[0].message, "Config.string(\"DB_PASSWORD\") looks like a secret — use Config.redacted");
}

#[test]
fn raw_millis_and_sync_literal() {
    let sleep = call(effect("sleep"), vec![Expr::Number { raw: Some("1000".to_string()), span: sp(4, 8) }], sp(0, 9));
    let sync = call(effect("sync"), vec![concise(Expr::Bool { value: true, span: sp(0, 0) }, sp(0, 0))], sp(0, 3));
    let spaced = call(member(ident("Schedule"), "exponential"), vec![string("100 millis", sp(0, 0)), Expr::Number { raw: Some("2".to_string()), span: sp(0, 0) }], sp(0, 3));
    let diagnostics = lint(vec![Event::Call(sleep), Event::Call(sync), Event::Call(spaced)]);
    assert_eq!(rules_of(&diagnostics), vec!["prefer-duration-over-raw-millis", "prefer-succeed-over-sync-literal"]);
    assert_eq!(diagnostics[0].message, "Effect.sleep(1000) — is that ms or s? Use a Duration (\"1000 millis\")");
    assert_eq!(diagnostics[0].column, 5);
}

#[test]
fn composition_limits() {
    let step = || call_expr(effect("flatMap"), vec![]);
    let pipe = call(member(ident("p"), "pipe"), vec![step(), step(), step(), step()], sp(0, 3));
    let layers: Vec<Expr> = (0..11).map(|_| ident("L")).collect();
    let merge = call(member(ident("Layer"), "mergeAll"), layers, sp(0, 3));
    let diagnostics = lint(vec![Event::Call(pipe), Event::Call(merge)]);
    assert_eq!(rules_of(&diagnostics), vec!["avoid-long-combinator-chains", "no-layer-mergeall-megalist"]);
    assert_eq!(diagnostics[0].message, "4 flatMap/andThen steps in one pipe — consider Effect.gen");
    assert_eq!(diagnostics[1].message, "Layer.mergeAll with 11 layers — compose per-domain modules instead");
}

#[test]
fn schema_usage_checks() {
    let hoisted = call(Expr::Call(Box::new(call(member(ident("Schema"), "decodeUnknownEffect"), vec![ident("S")], sp(0, 0)))), vec![ident("input")], sp(0, 3));
    let diagnostics = lint(vec![Event::Call(hoisted)]);
    assert_eq!(rules_of(&diagnostics), vec!["hoist-schema-codecs"]);
    let sync = call(member(ident("Schema"), "decodeUnknownSync"), vec![ident("S")], sp(0, 3));
    assert_eq!(rules_of(&lint(in_effect_gen(gen_span(), vec![Event::Call(sync)]))), vec!["prefer-decode-effect"]);
}

#[test]
fn it_running_effect_by_hand() {
    let body = concise(call_expr(effect("runPromise"), vec![ident("p")]), sp(0, 0));
    let diagnostics = lint(vec![Event::Call(call(ident("it"), vec![string("works", sp(0, 0)), body], sp(0, 3)))]);
    assert_eq!(diagnostics[0].message, "it() running Effect.runPromise — use it.effect from @effect/vitest");
}

#[test]
fn test_files_are_classified() {
    let diagnostics = lint_source_with("src/__tests__/a.ts", SOURCE, &parsed(vec![Event::Member { object: ident("Effect"), property: "Do".to_string(), span: sp(0, 1) }]), false, true);
    assert_eq!(diagnostics[0].file_context, FileContext::Test);
}

#[test]
fn catalog_ids_are_unique_and_include_cross_file_rules() {
    let metas = all_metas();
    let mut ids: Vec<&str> = metas.iter().map(|m| m.id).collect();
    assert_eq!(ids[0], "require-yield-star");
    assert!(ids.contains(&"agent-similar-shape"));
    assert_eq!(ids.iter().filter(|id| **id == "agent-no-default-export").count(), 1);
    ids.sort();
    let before = ids.len();
    ids.dedup();
    assert_eq!(ids.len(), before);
}

fn async_arrow(span: Span) -> Expr {
    Expr::Function(Box::new(FunctionExpr { is_arrow: true, param_count: 1, generator: false, is_async: true, expression: true, body: vec![Stmt::Expression { expression: ident("x"), span }], span }))
}

#[test]
fn string_errors_and_catch_all_to_null() {
    let fail = call(effect("fail"), vec![string("boom", sp(0, 0))], sp(0, 3));
    let catch_option = Expr::Object {
        properties: vec![
            Property { key: Some("try".to_string()), value: concise(ident("x"), sp(0, 0)), span: sp(0, 0) },
            Property { key: Some("catch".to_string()), value: concise(string("bad", sp(0, 0)), sp(0, 0)), span: sp(0, 0) },
        ],
        span: sp(0, 0),
    };
    let try_promise = call(effect("tryPromise"), vec![catch_option], sp(0, 3));
    let to_null = call(effect("catchAll"), vec![concise(call_expr(effect("succeed"), vec![Expr::Null { span: sp(0, 0) }]), sp(0, 0))], sp(0, 3));
    let to_void = call(effect("catch"), vec![concise(effect("void"), sp(0, 0))], sp(0, 3));
    let diagnostics = lint(vec![Event::Call(fail), Event::Call(try_promise), Event::Call(to_null), Event::Call(to_void)]);
    assert_eq!(rules_of(&diagnostics), vec!["no-string-errors", "no-string-errors", "no-catchall-to-null", "no-catchall-to-null"]);
    assert_eq!(diagnostics[1].message, "Effect.tryPromise catch returns a string — map to a tagged error instead");
    assert_eq!(diagnostics[3].message, "Effect.catch converting every failure to null — catch the specific tag or use Effect.option");
}

#[test]
fn async_callback_in_effect_map() {
    let diagnostics = lint(vec![Event::Call(call(effect("map"), vec![ident("user"), async_arrow(sp(7, 9))], sp(0, 12)))]);
    assert_eq!(rules_of(&diagnostics), vec!["no-async-callback-in-effect-combinators"]);
    assert_eq!(diagnostics[0].message, "async callback passed to Effect.map — the Promise is never awaited; use Effect.tryPromise inside flatMap");
    assert_eq!(diagnostics[0].column, 8);
}

#[test]
fn promise_chain_in_sync_and_promise_all_in_wrapper() {
    let chain = function(false, true, false, vec![Stmt::Expression { expression: call_expr(member(call_expr(ident("fetchData"), vec![]), "then"), vec![ident("use")]), span: sp(0, 0) }], sp(0, 0));
    let all = concise(call_expr(member(ident("Promise"), "all"), vec![ident("xs")]), sp(0, 0));
    let diagnostics = lint(vec![Event::Call(call(effect("sync"), vec![chain], sp(0, 3))), Event::Call(call(effect("tryPromise"), vec![all], sp(0, 3)))]);
    assert_eq!(rules_of(&diagnostics), vec!["no-then-in-sync", "no-promise-all-in-effect", "require-typed-catch-in-try"]);
    assert_eq!(diagnostics[1].message, "Promise.all inside Effect.tryPromise — use Effect.forEach with a concurrency option");
}

#[test]
fn new_promise_in_sync_is_a_chain() {
    let body = function(false, true, true, vec![Stmt::Expression { expression: Expr::New(Box::new(call(ident("Promise"), vec![], sp(0, 0)))), span: sp(0, 0) }], sp(0, 0));
    assert_eq!(rules_of(&lint(vec![Event::Call(call(effect("sync"), vec![body], sp(0, 3)))])), vec!["no-then-in-sync"]);
}

#[test]
fn idiom_shortcuts() {
    let succeed = call(effect("succeed"), vec![ident("undefined")], sp(0, 3));
    let map_const = call(effect("map"), vec![ident("x"), concise(Expr::Number { raw: Some("1".to_string()), span: sp(0, 0) }, sp(0, 0))], sp(0, 3));
    let flatten = call(effect("flatten"), vec![call_expr(effect("map"), vec![])], sp(0, 3));
    let pipe = call(member(ident("x"), "pipe"), vec![call_expr(effect("map"), vec![ident("f")]), effect("flatten")], sp(0, 3));
    let empty = call(member(ident("x"), "pipe"), vec![], sp(0, 3));
    let diagnostics = lint(vec![Event::Call(succeed), Event::Call(map_const), Event::Call(flatten), Event::Call(pipe), Event::Call(empty)]);
    assert_eq!(
        rules_of(&diagnostics),
        vec!["prefer-effect-void", "prefer-as-void", "prefer-flatmap-over-map-flatten", "prefer-flatmap-over-map-flatten", "no-unnecessary-pipe"]
    );
    assert_eq!(diagnostics[1].message, "Effect.map(() => constant) — use Effect.as(constant)");
}

fn binary(operator: &str, left: Expr, right: Expr, span: Span) -> Event {
    Event::Binary { operator: operator.to_string(), left, right, span }
}

fn object(properties: Vec<Property>) -> Expr {
    Expr::Object { properties, span: sp(0, 0) }
}

#[test]
fn comparison_with_object_literal_is_reported() {
    let diagnostics = lint(vec![binary("===", ident("a"), object(vec![]), sp(4, 9))]);
    assert_eq!(rules_of(&diagnostics), vec!["no-object-literal-comparison"]);
    assert_eq!(diagnostics[0].message, "comparison against a fresh object/array literal is always false — use Equal.equals");
    let array = Expr::Array { elements: vec![], span: sp(0, 0) };
    assert_eq!(rules_of(&lint(vec![binary("!=", array, ident("b"), sp(4, 9))])), vec!["no-object-literal-comparison"]);
    assert!(lint(vec![binary("<", ident("a"), object(vec![]), sp(4, 9))]).is_empty());
}

#[test]
fn builtin_tag_comparison_names_the_predicate() {
    let tag = member(ident("opt"), "_tag");
    let diagnostics = lint(vec![binary("===", tag, string("Some", sp(0, 0)), sp(4, 9))]);
    assert_eq!(rules_of(&diagnostics), vec!["no-tag-string-comparison"]);
    assert_eq!(diagnostics[0].message, "_tag === \"Some\" — use Option.isSome");
    let flipped = lint(vec![binary("!==", string("Left", sp(0, 0)), member(ident("e"), "_tag"), sp(4, 9))]);
    assert_eq!(flipped[0].message, "_tag === \"Left\" — use Either.isLeft");
    assert!(lint(vec![binary("===", member(ident("x"), "_tag"), string("Custom", sp(0, 0)), sp(4, 9))]).is_empty());
}

#[test]
fn includes_with_object_literal_is_reported() {
    let event = Event::Call(call(member(ident("list"), "includes"), vec![object(vec![])], sp(3, 8)));
    let diagnostics = lint(vec![event]);
    assert_eq!(rules_of(&diagnostics), vec!["no-object-literal-comparison"]);
    assert_eq!(diagnostics[0].message, ".includes(objectLiteral) uses reference equality and never matches — use Equal.equals");
}

#[test]
fn switch_on_tag_is_reported_at_keyword() {
    let diagnostics = lint(vec![Event::Switch { discriminant: member(ident("x"), "_tag"), span: sp(10, 40) }]);
    assert_eq!(rules_of(&diagnostics), vec!["prefer-match-over-tag-switch"]);
    assert_eq!(diagnostics[0].message, "switch on _tag — consider Match.valueTags / Effect.catchTags");
    assert!(lint(vec![Event::Switch { discriminant: ident("kind"), span: sp(10, 40) }]).is_empty());
}

fn array(elements: Vec<Expr>) -> Expr {
    Expr::Array { elements, span: sp(0, 0) }
}

#[test]
fn effect_all_without_concurrency_is_reported() {
    let all = Event::Call(call(effect("all"), vec![array(vec![ident("a"), ident("b")])], sp(0, 5)));
    let diagnostics = lint(vec![all]);
    assert_eq!(rules_of(&diagnostics), vec!["effect-all-missing-concurrency"]);
    assert_eq!(diagnostics[0].message, "Effect.all without { concurrency } runs sequentially — make it explicit");
    let option = Property { key: Some("concurrency".to_string()), value: ident("limit"), span: sp(0, 0) };
    let explicit = Event::Call(call(effect("all"), vec![array(vec![ident("a"), ident("b")]), object(vec![option])], sp(0, 5)));
    assert!(lint(vec![explicit]).is_empty());
    let single = Event::Call(call(effect("all"), vec![array(vec![ident("a")])], sp(0, 5)));
    assert!(lint(vec![single]).is_empty());
    let for_each = Event::Call(call(effect("forEach"), vec![ident("xs"), ident("f")], sp(0, 5)));
    assert_eq!(lint(vec![for_each])[0].message, "Effect.forEach without { concurrency } runs sequentially — make it explicit");
}

#[test]
fn race_against_sleep_is_reported() {
    let sleep = call_expr(effect("sleep"), vec![string("1 second", sp(0, 0))]);
    let race = Event::Call(call(effect("race"), vec![ident("work"), sleep], sp(0, 5)));
    let diagnostics = lint(vec![race]);
    assert_eq!(rules_of(&diagnostics), vec!["prefer-timeout-over-race-sleep"]);
    assert_eq!(diagnostics[0].message, "Effect.race against Effect.sleep — use Effect.timeout");
    let piped_sleep = call_expr(member(call_expr(effect("sleep"), vec![]), "pipe"), vec![]);
    let race_all = Event::Call(call(effect("raceAll"), vec![array(vec![ident("work"), piped_sleep])], sp(0, 5)));
    assert_eq!(lint(vec![race_all])[0].message, "Effect.raceAll against Effect.sleep — use Effect.timeout");
    assert!(lint(vec![Event::Call(call(effect("race"), vec![ident("a"), ident("b")], sp(0, 5)))]).is_empty());
}

fn declare(name: &str, init: Expr) -> Stmt {
    Stmt::VarDecl { declarators: vec![Declarator { name: Some(name.to_string()), init: Some(init) }], span: sp(0, 0) }
}

fn yield_of(delegate: bool, argument: Expr) -> Expr {
    Expr::Yield { delegate, argument: Some(Box::new(argument)), span: sp(0, 0) }
}

#[test]
fn fork_then_immediate_join_is_reported_at_join() {
    let fork = declare("fiber", yield_of(true, call_expr(effect("fork"), vec![ident("task")])));
    let join_call = CallExpr { callee: member(ident("Fiber"), "join"), arguments: vec![ident("fiber")], type_argument: None, span: sp(30, 45) };
    let join = Stmt::Expression { expression: yield_of(true, Expr::Call(Box::new(join_call))), span: sp(0, 0) };
    let generator = function(true, false, false, vec![fork, join], sp(1, 50));
    let diagnostics = lint(vec![Event::Call(call(effect("gen"), vec![generator], sp(0, 60)))]);
    assert_eq!(rules_of(&diagnostics), vec!["no-fork-then-immediate-join"]);
    assert_eq!(diagnostics[0].message, "fork immediately followed by Fiber.join — just yield the effect directly");
    assert_eq!((diagnostics[0].line, diagnostics[0].column), (1, 31));
    let other = declare("fiber", yield_of(true, call_expr(effect("fork"), vec![ident("task")])));
    let join_other = Stmt::Expression {
        expression: yield_of(true, call_expr(member(ident("Fiber"), "join"), vec![ident("elsewhere")])),
        span: sp(0, 0),
    };
    let generator = function(true, false, false, vec![other, join_other], sp(1, 50));
    assert!(lint(vec![Event::Call(call(effect("gen"), vec![generator], sp(0, 60)))]).is_empty());
}

#[test]
fn promise_wrapper_dropping_abort_signal_is_reported() {
    let fetch = call_expr(ident("fetch"), vec![string("/api", sp(0, 0))]);
    let handler = concise(fetch, sp(2, 9));
    let diagnostics = lint(vec![Event::Call(call(effect("tryPromise"), vec![handler], sp(0, 10)))]);
    assert_eq!(rules_of(&diagnostics), vec!["require-typed-catch-in-try", "prefer-abort-signal-passthrough"]);
    assert_eq!(
        diagnostics[1].message,
        "Effect.tryPromise ignores the AbortSignal — use `({ signal }) form: try: (signal) => fetch(url, { signal })`"
    );
    let with_signal = Expr::Function(Box::new(FunctionExpr {
        is_arrow: true,
        param_count: 1,
        generator: false,
        is_async: false,
        expression: true,
        body: vec![Stmt::Expression { expression: call_expr(ident("fetch"), vec![]), span: sp(0, 0) }],
        span: sp(2, 9),
    }));
    let passed = lint(vec![Event::Call(call(effect("tryPromise"), vec![with_signal], sp(0, 10)))]);
    assert_eq!(rules_of(&passed), vec!["require-typed-catch-in-try"]);
}

#[test]
fn nested_flat_map_is_reported() {
    let inner = call_expr(effect("flatMap"), vec![ident("b"), concise(ident("c"), sp(0, 0))]);
    let outer = Event::Call(call(effect("flatMap"), vec![ident("a"), concise(inner, sp(3, 4))], sp(0, 20)));
    let diagnostics = lint(vec![outer]);
    assert_eq!(rules_of(&diagnostics), vec!["prefer-gen-over-nested-flatmap"]);
    assert_eq!(diagnostics[0].message, "Effect.flatMap nested inside Effect.flatMap — Effect.gen reads flat");
}

fn schema_class(self_name: &str) -> Expr {
    let factory = CallExpr {
        callee: member(ident("Schema"), "Class"),
        arguments: vec![string("User", sp(0, 0))],
        type_argument: Some((self_name.to_string(), sp(20, 24))),
        span: sp(14, 30),
    };
    call_expr(Expr::Call(Box::new(factory)), vec![object(vec![])])
}

#[test]
fn schema_class_self_mismatch_is_reported() {
    let class = ClassDecl {
        name: Some("User".to_string()),
        super_class: Some(schema_class("Account")),
        implements: vec![],
        constructors: vec![],
        members: vec![],
        span: sp(0, 40),
    };
    let diagnostics = lint(vec![Event::Class(class)]);
    assert_eq!(rules_of(&diagnostics), vec!["schema-class-self-mismatch"]);
    assert_eq!(diagnostics[0].message, "Self type parameter is `Account` but the declaring class is `User`");
    assert_eq!((diagnostics[0].line, diagnostics[0].column), (1, 21));
    let matching = ClassDecl {
        name: Some("User".to_string()),
        super_class: Some(schema_class("User")),
        implements: vec![],
        constructors: vec![],
        members: vec![],
        span: sp(0, 40),
    };
    assert!(lint(vec![Event::Class(matching)]).is_empty());
}

#[test]
fn constructor_override_in_schema_class_is_reported() {
    let class = ClassDecl {
        name: Some("User".to_string()),
        super_class: Some(schema_class("User")),
        implements: vec![],
        constructors: vec![sp(32, 38), sp(50, 55)],
        members: vec![],
        span: sp(0, 60),
    };
    let diagnostics = lint(vec![Event::Class(class)]);
    assert_eq!(rules_of(&diagnostics), vec!["no-constructor-override-in-schema-class", "no-constructor-override-in-schema-class"]);
    assert_eq!(diagnostics[0].message, "constructor override in Schema class `User` breaks decoding");
    let plain = ClassDecl {
        name: Some("User".to_string()),
        super_class: Some(ident("Base")),
        implements: vec![],
        constructors: vec![sp(32, 38)],
        members: vec![],
        span: sp(0, 60),
    };
    assert!(lint(vec![Event::Class(plain)]).is_empty());
}

#[test]
fn yield_star_of_effect_gen_inside_generator_is_reported() {
    let inner = call_expr(effect("gen"), vec![function(true, false, false, vec![], sp(70, 80))]);
    let events = in_effect_gen(gen_span(), vec![Event::Yield { delegate: true, argument: Some(inner), span: sp(60, 85) }]);
    let diagnostics = lint(events);
    assert_eq!(rules_of(&diagnostics), vec!["no-nested-gen-yield"]);
    assert_eq!(diagnostics[0].message, "yield* Effect.gen(...) inside a generator — inline the inner body");
}

#[test]
fn immediately_invoked_effect_fn_is_reported() {
    let traced = call_expr(effect("fn"), vec![function(true, false, false, vec![], sp(3, 9))]);
    let diagnostics = lint(vec![Event::Call(call(traced, vec![], sp(0, 12)))]);
    assert_eq!(rules_of(&diagnostics), vec!["no-effect-fn-iife"]);
    assert_eq!(diagnostics[0].message, "Effect.fn(...)() immediately invoked — use Effect.gen");
    let named = call_expr(effect("fn"), vec![string("name", sp(0, 0))]);
    assert!(lint(vec![Event::Call(call(named, vec![function(true, false, false, vec![], sp(3, 9))], sp(0, 12)))]).is_empty());
}

#[test]
fn chained_and_nested_pipes_are_reported() {
    let first = call_expr(member(ident("x"), "pipe"), vec![ident("a")]);
    let chained = lint(vec![Event::Call(call(member(first, "pipe"), vec![ident("b")], sp(0, 9)))]);
    assert_eq!(rules_of(&chained), vec!["no-unnecessary-pipe-chain"]);
    assert_eq!(chained[0].message, "chained .pipe().pipe() — merge into one pipe");
    let inner = call_expr(ident("pipe"), vec![ident("x"), ident("a")]);
    let nested = lint(vec![Event::Call(call(ident("pipe"), vec![inner, ident("b")], sp(0, 9)))]);
    assert_eq!(nested[0].message, "nested pipe(pipe(...)) — merge into one pipe");
    assert!(lint(vec![Event::Call(call(member(ident("x"), "pipe"), vec![ident("a")], sp(0, 9)))]).is_empty());
}

#[test]
fn returning_bare_effect_from_generator_is_reported() {
    let returned = call_expr(effect("succeed"), vec![ident("x")]);
    let events = in_effect_gen(gen_span(), vec![Event::Return { argument: Some(returned), span: sp(60, 70) }]);
    let diagnostics = lint(events);
    assert_eq!(rules_of(&diagnostics), vec!["no-return-effect-in-gen"]);
    assert_eq!(diagnostics[0].message, "returning Effect.succeed(...) from Effect.gen — did you mean `return yield*`?");
    let predicate = call_expr(effect("isEffect"), vec![ident("x")]);
    assert!(lint(in_effect_gen(gen_span(), vec![Event::Return { argument: Some(predicate), span: sp(60, 70) }])).is_empty());
    let outside = call_expr(effect("succeed"), vec![ident("x")]);
    assert!(lint(vec![Event::Return { argument: Some(outside), span: sp(60, 70) }]).is_empty());
}

#[test]
fn schema_tag_identifier_repeating_the_tag_is_reported() {
    let factory = call_expr(member(ident("Schema"), "TaggedError"), vec![string("NotFound", sp(40, 50))]);
    let superclass = call_expr(factory, vec![string("NotFound", sp(52, 62)), object(vec![])]);
    let class = ClassDecl { name: None, super_class: Some(superclass), implements: vec![], constructors: vec![], members: vec![], span: sp(0, 70) };
    let diagnostics = lint(vec![Event::Class(class)]);
    assert_eq!(rules_of(&diagnostics), vec!["redundant-schema-tag-identifier"]);
    assert_eq!(diagnostics[0].message, "identifier \"NotFound\" repeats the tag — drop it");
    assert_eq!((diagnostics[0].line, diagnostics[0].column), (2, 9));
}

fn function_event(f: Expr, name: Option<&str>) -> Event {
    match f {
        Expr::Function(function) => Event::Function { function: *function, name: name.map(|n| n.to_string()), flow: None, shape: None },
        _ => panic!("not a function"),
    }
}

fn with_params(f: Expr, param_count: usize, is_async: bool) -> Expr {
    match f {
        Expr::Function(mut function) => {
            function.param_count = param_count;
            function.is_async = is_async;
            Expr::Function(function)
        }
        other => other,
    }
}

#[test]
fn function_wrapping_single_effect_gen_is_reported() {
    let gen_call = call_expr(effect("gen"), vec![function(true, false, false, vec![], sp(20, 30))]);
    let arrow = with_params(concise(gen_call, sp(5, 35)), 1, false);
    let diagnostics = lint(vec![function_event(arrow, None)]);
    assert_eq!(rules_of(&diagnostics), vec!["prefer-effect-fn"]);
    assert_eq!(diagnostics[0].message, "function returning a single Effect.gen — use Effect.fn");
    let gen_call = call_expr(effect("gen"), vec![function(true, false, false, vec![], sp(20, 30))]);
    let body = vec![Stmt::Return { argument: Some(gen_call), span: sp(10, 30) }];
    let plain = with_params(function(false, false, false, body, sp(5, 35)), 2, false);
    assert_eq!(rules_of(&lint(vec![function_event(plain, Some("load"))])), vec!["prefer-effect-fn"]);
    let gen_call = call_expr(effect("gen"), vec![function(true, false, false, vec![], sp(20, 30))]);
    let thunk = concise(gen_call, sp(5, 35));
    assert!(lint(vec![function_event(thunk, None)]).is_empty());
}

fn lint_adopt(events: Vec<Event>) -> Vec<Diagnostic> {
    lint_source_with("src/app.ts", SOURCE, &parsed(events), false, true)
}

#[test]
fn async_functions_are_reported_under_adopt() {
    let named = with_params(function(false, false, false, vec![], sp(7, 40)), 0, true);
    let diagnostics = lint_adopt(vec![function_event(named, Some("load"))]);
    assert_eq!(rules_of(&diagnostics), vec!["adopt-async-function"]);
    assert_eq!(diagnostics[0].message, "async load — migrate to Effect.fn + Effect.tryPromise");
    assert_eq!(diagnostics[0].category, Category::Adoption);
    let anonymous = with_params(function(false, false, false, vec![], sp(7, 40)), 0, true);
    assert_eq!(lint_adopt(vec![function_event(anonymous, None)])[0].message, "async function — migrate to Effect.fn + Effect.tryPromise");
    let arrow = with_params(concise(ident("x"), sp(7, 40)), 0, true);
    assert_eq!(lint_adopt(vec![function_event(arrow, None)])[0].message, "async arrow — migrate to Effect.fn + Effect.tryPromise");
    let off = with_params(function(false, false, false, vec![], sp(7, 40)), 0, true);
    assert!(lint(vec![function_event(off, Some("load"))]).is_empty());
}

#[test]
fn promise_chains_and_combinators_are_reported_under_adopt() {
    let first = call_expr(member(ident("p"), "then"), vec![ident("f")]);
    let inner = Event::Call(call(member(ident("p"), "then"), vec![ident("f")], sp(0, 9)));
    let outer = Event::Call(call(member(first, "then"), vec![ident("g")], sp(0, 19)));
    let diagnostics = lint_adopt(vec![outer, inner]);
    assert_eq!(rules_of(&diagnostics), vec!["adopt-promise-chain"]);
    assert_eq!(diagnostics[0].message, ".then() chain — wrap with Effect.tryPromise and compose with Effect.flatMap");
    let all = Event::Call(call(member(ident("Promise"), "allSettled"), vec![ident("xs")], sp(0, 9)));
    let diagnostics = lint_adopt(vec![all]);
    assert_eq!(rules_of(&diagnostics), vec!["adopt-promise-all"]);
    assert_eq!(diagnostics[0].message, "Promise.allSettled — use Effect.all / Effect.forEach with { concurrency }");
    let created = Event::New(call(ident("Promise"), vec![ident("executor")], sp(0, 9)));
    assert_eq!(lint_adopt(vec![created])[0].message, "new Promise(...) — Effect.async is the structured equivalent");
}

#[test]
fn loops_of_yields_and_awaits() {
    let yield_loop = in_effect_gen(gen_span(), vec![Event::Loop { span: sp(60, 80), has_yield: true, has_await: false }]);
    let diagnostics = lint(yield_loop);
    assert_eq!(rules_of(&diagnostics), vec!["prefer-foreach-over-yield-loop"]);
    assert_eq!(diagnostics[0].message, "loop of yields inside Effect.gen — consider Effect.forEach / Effect.all");
    let await_loop = vec![Event::Loop { span: sp(60, 80), has_yield: false, has_await: true }];
    assert!(lint(await_loop).is_empty());
    let await_loop = vec![Event::Loop { span: sp(60, 80), has_yield: false, has_await: true }];
    assert_eq!(
        lint_adopt(await_loop)[0].message,
        "await inside a loop runs strictly sequentially — use Effect.forEach with { concurrency }"
    );
}

fn metrics_event(param_count: usize, flow: Option<Vec<Flow>>) -> Event {
    match with_params(function(false, false, false, vec![], sp(7, 40)), param_count, false) {
        Expr::Function(function) => Event::Function { function: *function, name: None, flow, shape: None },
        _ => unreachable!(),
    }
}

fn nest(children: Vec<Flow>) -> Flow {
    Flow::Nest { children }
}

#[test]
fn long_parameter_lists_are_reported() {
    let diagnostics = lint(vec![metrics_event(5, None)]);
    assert_eq!(rules_of(&diagnostics), vec!["max-function-parameters"]);
    assert_eq!(diagnostics[0].message, "5 parameters (limit 4) — group them into an options object");
    assert_eq!(diagnostics[0].severity, Severity::Warn);
    assert!(lint(vec![metrics_event(4, Some(vec![]))]).is_empty());
}

#[test]
fn deep_nesting_is_reported_with_its_depth() {
    let deep = nest(vec![nest(vec![nest(vec![nest(vec![nest(vec![])])])])]);
    let diagnostics = lint(vec![metrics_event(0, Some(vec![deep]))]);
    // Five nested loops cost 1 + 2 + 3 + 4 + 5 = 15: at the limit, not over it.
    assert_eq!(rules_of(&diagnostics), vec!["max-nesting-depth"]);
    assert_eq!(diagnostics[0].message, "nesting depth 5 (limit 4) — flatten with early returns or extract helpers");
}

#[test]
fn cognitive_complexity_counts_branches_by_nesting() {
    // if (a && b) { for (...) { x ? y : z } } else if (c) {} else {}
    let test = vec![Flow::Logical { operator: "&&".to_string(), children: vec![] }];
    let body = vec![nest(vec![nest(vec![])])];
    let last = Flow::Block { children: vec![] };
    let else_if = Flow::If { test: vec![], consequent: vec![], alternate: Some(Box::new(last)) };
    let branch = Flow::If { test, consequent: body, alternate: Some(Box::new(else_if)) };
    // 1 (&&) + 1 (if) + 2 (for at 1) + 3 (?: at 2) + 1 (else if) + 1 (else) = 9
    let mut flows = vec![branch];
    for _ in 0..4 {
        flows.push(nest(vec![]));
    }
    // + 4 loops at top level = 13; two `??` add nothing, two `||` add 2 = 15.
    flows.push(Flow::Logical { operator: "??".to_string(), children: vec![] });
    flows.push(Flow::Logical { operator: "||".to_string(), children: vec![] });
    flows.push(Flow::Logical { operator: "||".to_string(), children: vec![] });
    assert!(lint(vec![metrics_event(0, Some(flows))]).is_empty());
    let mut over = Vec::new();
    for _ in 0..16 {
        over.push(nest(vec![]));
    }
    let diagnostics = lint(vec![metrics_event(0, Some(over))]);
    assert_eq!(rules_of(&diagnostics), vec!["high-cognitive-complexity"]);
    assert_eq!(diagnostics[0].message, "cognitive complexity 16 (limit 15) — split it up or flatten the branching");
}

#[test]
fn metrics_escalate_under_agent_strict() {
    let options = LintOptions { v4_active: false, adopt: false, agent: true, agent_strict: true };
    let diagnostics = lint_source_opts("src/app.ts", SOURCE, &parsed(vec![metrics_event(6, None)]), options);
    assert_eq!(diagnostics[0].severity, Severity::Error);
}

fn lint_agent(events: Vec<Event>, strict: bool) -> Vec<Diagnostic> {
    let options = LintOptions { v4_active: false, adopt: false, agent: true, agent_strict: strict };
    lint_source_opts("src/app.ts", SOURCE, &parsed(events), options)
}

fn field(name: &str, is_static: bool) -> ClassMember {
    ClassMember { name: Some(name.to_string()), is_static, is_method: false }
}

fn method(name: &str, is_static: bool) -> ClassMember {
    ClassMember { name: Some(name.to_string()), is_static, is_method: true }
}

fn class_with(name: &str, members: Vec<ClassMember>, implements: Vec<&str>) -> Event {
    Event::Class(ClassDecl {
        name: Some(name.to_string()),
        super_class: None,
        implements: implements.into_iter().map(|i| i.to_string()).collect(),
        constructors: vec![],
        members,
        span: sp(0, 30),
    })
}

#[test]
fn singleton_class_is_reported_in_agent_mode() {
    let members = || vec![field("instance", true), method("getInstance", true)];
    let diagnostics = lint_agent(vec![class_with("Registry", members(), vec![])], false);
    assert_eq!(rules_of(&diagnostics), vec!["oop-singleton-to-layer"]);
    assert_eq!(diagnostics[0].message, "class Registry is a hand-rolled Singleton — model it as a Context.Tag/Layer service");
    assert_eq!(diagnostics[0].severity, Severity::Warn);
    assert_eq!(lint_agent(vec![class_with("Registry", members(), vec![])], true)[0].severity, Severity::Error);
    assert!(lint(vec![class_with("Registry", members(), vec![])]).is_empty());
    let instance_method = vec![field("instance", false), method("getInstance", true)];
    assert!(lint_agent(vec![class_with("Registry", instance_method, vec![])], false).is_empty());
}

#[test]
fn observer_visitor_and_chain_classes_are_reported() {
    let observer = class_with("Bus", vec![field("listeners", false), method("emit", false)], vec![]);
    assert_eq!(lint_agent(vec![observer], false)[0].message, "class Bus hand-rolls the Observer pattern — use PubSub / Stream / SubscriptionRef");
    let visitor = class_with("Printer", vec![method("visitNumber", false), method("visitString", false), method("visit", false)], vec![]);
    assert_eq!(lint_agent(vec![visitor], false)[0].message, "class Printer implements the Visitor pattern — use a tagged union + Match.exhaustive");
    let single_visit = class_with("Printer", vec![method("visitNumber", false), method("visit", false)], vec![]);
    assert!(lint_agent(vec![single_visit], false).is_empty());
    let chain = class_with("Auth", vec![field("next", false), method("setNext", false)], vec![]);
    assert_eq!(
        lint_agent(vec![chain], false)[0].message,
        "class Auth is a Chain-of-Responsibility handler — compose with Effect.orElse / catchTag"
    );
}

#[test]
fn single_method_interface_with_two_implementations_is_reported_at_file_end() {
    let interface = Event::Interface { name: "Pricing".to_string(), signatures: vec![SignatureKind::Method], span: sp(40, 60) };
    let events = vec![
        class_with("Flat", vec![], vec!["Pricing"]),
        interface,
        class_with("Tiered", vec![], vec!["Pricing", "Other"]),
    ];
    let diagnostics = lint_agent(events, false);
    assert_eq!(rules_of(&diagnostics), vec!["oop-strategy-to-function"]);
    assert_eq!(diagnostics[0].message, "interface Pricing is a single-method Strategy with 2 implementations — use a function type");
    let shape = Event::Interface { name: "Pricing".to_string(), signatures: vec![SignatureKind::Method, SignatureKind::Other], span: sp(40, 60) };
    let events = vec![class_with("Flat", vec![], vec!["Pricing"]), shape, class_with("Tiered", vec![], vec!["Pricing"])];
    assert!(lint_agent(events, false).is_empty());
}

#[test]
fn agent_if_else_chain_is_reported_once_at_its_head() {
    let events = vec![
        Event::If { span: sp(10, 50), alternate: else_if(30, else_block()) },
        Event::If { span: sp(30, 50), alternate: else_block() },
        Event::If { span: sp(60, 70), alternate: None },
    ];
    let diagnostics = lint_agent(events, false);
    assert_eq!(rules_of(&diagnostics), vec!["agent-no-if-else-chain"]);
    assert_eq!(diagnostics[0].message, "if/else chain — use early returns, a lookup map, or Match.exhaustive");
    let off = vec![Event::If { span: sp(10, 50), alternate: else_block() }];
    assert!(lint(off).is_empty());
}

fn else_block() -> Option<Box<Alternate>> {
    Some(Box::new(Alternate::Other))
}

fn else_if(start: u32, alternate: Option<Box<Alternate>>) -> Option<Box<Alternate>> {
    Some(Box::new(Alternate::ElseIf { start, alternate }))
}

#[test]
fn else_if_chain_starts_in_order() {
    let mut starts = vec![1];
    push_else_if_starts(&else_if(30, else_if(45, else_block())), &mut starts);
    assert_eq!(starts, vec![1, 30, 45]);
    let mut none: Vec<u32> = Vec::new();
    push_else_if_starts(&else_block(), &mut none);
    assert!(none.is_empty());
}

#[test]
fn longer_if_chain_reports_once_then_forgets_its_links() {
    let events = vec![
        Event::If { span: sp(10, 70), alternate: else_if(30, else_if(50, None)) },
        Event::If { span: sp(30, 70), alternate: else_if(50, None) },
        Event::If { span: sp(50, 70), alternate: None },
        Event::If { span: sp(80, 95), alternate: else_block() },
    ];
    let diagnostics = lint_agent(events, false);
    assert_eq!(rules_of(&diagnostics), vec!["agent-no-if-else-chain", "agent-no-if-else-chain"]);
    assert_eq!(diagnostics[0].line, 1);
}

#[test]
fn agent_equality_findings() {
    let loose = lint_agent(vec![binary("==", ident("a"), ident("b"), sp(4, 9))], false);
    assert_eq!(rules_of(&loose), vec!["agent-no-loose-equality"]);
    assert_eq!(loose[0].message, "`==` coerces — use `===` (or Equal.equals)");
    let null_check = Expr::Null { span: sp(0, 0) };
    assert!(lint_agent(vec![binary("!=", ident("a"), null_check, sp(4, 9))], false).is_empty());
    let guard = lint_agent(vec![binary("===", ident("role"), string("admin", sp(0, 0)), sp(4, 9))], false);
    assert_eq!(rules_of(&guard), vec!["agent-no-string-equality-guard"]);
    assert_eq!(guard[0].message, "`===` against a string literal — use a type guard / predicate or Match.when");
    let both = lint_agent(vec![binary("!=", ident("role"), string("admin", sp(0, 0)), sp(4, 9))], false);
    assert_eq!(rules_of(&both), vec!["agent-no-loose-equality", "agent-no-string-equality-guard"]);
}

#[test]
fn agent_keyword_findings() {
    let events = vec![
        Event::VarDecl { kind: "let".to_string(), span: sp(0, 9) },
        Event::VarDecl { kind: "const".to_string(), span: sp(10, 19) },
        Event::Loop { span: sp(20, 30), has_yield: false, has_await: false },
        Event::Conditional { span: sp(40, 45) },
        Event::Assignment { to_identifier: true, span: sp(46, 50) },
        Event::Assignment { to_identifier: false, span: sp(51, 55) },
        Event::Unary { operator: "delete".to_string(), span: sp(56, 60) },
        Event::Unary { operator: "typeof".to_string(), span: sp(61, 65) },
    ];
    let diagnostics = lint_agent(events, true);
    assert_eq!(
        rules_of(&diagnostics),
        vec!["agent-no-let", "agent-no-raw-loop", "agent-no-ternary", "agent-no-mutation", "agent-no-mutation", "agent-no-delete"]
    );
    assert_eq!(diagnostics[0].message, "`let` signals mutation — bind with const and build values functionally");
    assert_eq!(diagnostics[3].message, "reassignment — derive the final value once (const + Match/reduce/pipe) instead of building it up");
    assert_eq!(diagnostics[4].message, "in-place mutation — derive the final value once (const + Match/reduce/pipe) instead of building it up");
    assert!(diagnostics.iter().all(|d| d.severity == Severity::Error));
}

#[test]
fn agent_type_escape_hatches() {
    let events = vec![
        Event::TsAs { annotation: Some("User".to_string()), span: sp(0, 9) },
        Event::TsAs { annotation: Some("const".to_string()), span: sp(10, 19) },
        Event::TsAny { span: sp(20, 23) },
        Event::TsNonNull { span: sp(24, 26) },
        Event::TsEnum { span: sp(27, 40) },
        Event::TsNamespace { span: sp(41, 60) },
        Event::TsImportType { span: sp(61, 70) },
    ];
    let diagnostics = lint_agent(events, false);
    assert_eq!(
        rules_of(&diagnostics),
        vec![
            "agent-no-as-cast",
            "agent-no-any",
            "agent-no-non-null-assertion",
            "agent-no-enum",
            "agent-no-ts-namespace",
            "agent-no-inline-type-import"
        ]
    );
}

#[test]
fn agent_import_findings() {
    let decl = ImportDecl {
        source: "../../../shared/util".to_string(),
        specifiers: Some(vec![
            ImportSpecifier::Named { local: "fmt".to_string(), imported: "format".to_string(), span: sp(9, 22) },
            ImportSpecifier::Named { local: "parse".to_string(), imported: "parse".to_string(), span: sp(24, 29) },
            ImportSpecifier::Namespace { local: "util".to_string(), span: sp(30, 40) },
        ]),
    };
    let diagnostics = lint_agent(vec![Event::Import { decl, source_span: sp(45, 67), span: sp(0, 68) }], false);
    assert_eq!(rules_of(&diagnostics), vec!["agent-deep-relative-import", "agent-no-import-alias", "agent-no-namespace-import"]);
    let messages: Vec<&str> = diagnostics.iter().map(|d| d.message.as_str()).collect();
    assert!(messages.contains(&"`../../../shared/util` reaches across the tree — use a path alias or move the shared code closer"));
    assert!(messages.contains(&"`format as fmt` — import under its real name"));
    assert!(messages.contains(&"`import * as util` — import the named bindings you use"));
    let shallow = ImportDecl { source: "../../util".to_string(), specifiers: None };
    assert!(lint_agent(vec![Event::Import { decl: shallow, source_span: sp(0, 9), span: sp(0, 9) }], false).is_empty());
}

#[test]
fn agent_call_findings() {
    let require = Event::Call(call(ident("require"), vec![string("fs", sp(0, 0))], sp(0, 11)));
    let parse = Event::Call(call(member(ident("UserSchema"), "parse"), vec![ident("input")], sp(12, 30)));
    let json = Event::Call(call(member(ident("JSON"), "parse"), vec![ident("input")], sp(31, 40)));
    let mapped = call_expr(member(ident("ids"), "map"), vec![ident("load")]);
    let fan_out = Event::Call(call(member(ident("Promise"), "all"), vec![mapped], sp(41, 60)));
    let diagnostics = lint_agent(vec![require, parse, json, fan_out], false);
    assert_eq!(rules_of(&diagnostics), vec!["agent-no-inline-import", "agent-prefer-safe-parse", "agent-no-unbounded-promise-all"]);
    assert_eq!(diagnostics[2].message, "Promise.all(arr.map(...)) — cap with p-limit or Effect.forEach { concurrency }");
}

fn shaped(hash: u64, start: u32, params: usize, depth: u32, complexity: u32) -> Event {
    match with_params(function(false, false, false, vec![], sp(start, start + 5)), params, false) {
        Expr::Function(function) => Event::Function {
            function: *function,
            name: None,
            flow: None,
            shape: Some(BodyShape { identity_hash: hash, max_depth: depth, complexity }),
        },
        _ => unreachable!(),
    }
}

#[test]
fn agent_function_metrics_and_duplicates() {
    let events = vec![shaped(7, 40, 0, 1, 1), shaped(9, 10, 6, 5, 16), shaped(7, 20, 0, 1, 1)];
    let diagnostics = lint_agent(events, true);
    assert_eq!(
        rules_of(&diagnostics),
        vec![
            "agent-too-many-params",
            "agent-deep-nesting",
            "agent-high-complexity",
            "max-function-parameters",
            "agent-duplicate-function",
            "agent-duplicate-function"
        ]
    );
    let duplicate = diagnostics.iter().find(|d| d.rule == "agent-duplicate-function").unwrap();
    assert_eq!(duplicate.severity, Severity::Info);
    assert_eq!(duplicate.message, "function body is structurally identical to another in this file — extract a shared helper");
}

#[test]
fn experimental_families_stay_off_by_default() {
    let events = || {
        vec![
            Event::Loop { span: sp(20, 30), has_yield: false, has_await: true },
            Event::Conditional { span: sp(40, 45) },
            Event::TsAny { span: sp(50, 53) },
        ]
    };
    let plain = lint_source_opts("a.ts", SOURCE, &parsed(events()), LintOptions::default());
    assert!(plain.iter().all(|d| d.category != Category::AgentHygiene && d.category != Category::Adoption));
    let all = LintOptions { v4_active: false, adopt: true, agent: true, agent_strict: false };
    let on = lint_source_opts("a.ts", SOURCE, &parsed(events()), all);
    assert!(on.iter().any(|d| d.category == Category::AgentHygiene));
    assert!(on.iter().any(|d| d.category == Category::Adoption));
}

#[test]
fn agent_strict_changes_only_severities() {
    let events = || {
        vec![
            Event::ExportDefault { span: sp(0, 3) },
            Event::TsAny { span: sp(40, 43) },
            Event::If { span: sp(45, 60), alternate: else_block() },
            binary("==", ident("a"), ident("b"), sp(62, 70)),
            Event::Throw { span: sp(99, 109) },
        ]
    };
    let plain = lint_agent(events(), false);
    let strict = lint_agent(events(), true);
    assert!(!plain.is_empty());
    assert_eq!(plain.len(), strict.len());
    for (p, s) in plain.iter().zip(strict.iter()) {
        assert_eq!((p.rule, p.line, p.column, &p.message, p.help), (s.rule, s.line, s.column, &s.message, s.help));
        assert!(s.severity == p.severity || s.severity == Severity::Error);
    }
    assert!(strict.iter().all(|d| d.severity == Severity::Error || d.rule == "no-throw-in-effect"));
}

#[test]
fn every_diagnostic_names_a_catalog_entry() {
    let events = vec![
        Event::ExportDefault { span: sp(0, 3) },
        Event::TsAny { span: sp(40, 43) },
        binary("==", ident("a"), ident("b"), sp(62, 70)),
        Event::Throw { span: sp(99, 109) },
    ];
    let diagnostics = lint_agent(events, true);
    assert!(!diagnostics.is_empty());
    let metas = all_metas();
    for d in &diagnostics {
        assert!(metas.iter().any(|m| m.id == d.rule && m.help == d.help && m.category == d.category));
    }
}
