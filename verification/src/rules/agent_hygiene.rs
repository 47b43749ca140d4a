//! Agent hygiene: the non-Effect, non-functional patterns coding agents reach
//! for by default (`if`/`else` chains, ternaries, string-equality guards, raw
//! loops, `let` and mutation, escape hatches of the type system), plus
//! copy-pasted function bodies. All need agent mode and escalate to errors
//! under strict mode, except `agent-duplicate-function`, which stays a
//! suggestion.
use vstd::prelude::*;

use crate::ast::{else_if_chain, push_else_if_starts, Alternate, BodyShape, CallExpr, Expr, FunctionExpr, TryStmt};
use crate::diagnostics::{Category, RuleMeta, Severity, Span};
use crate::effect_imports::{is_effect_package, is_effect_package_spec, ImportDecl, ImportSpecifier};
use crate::matchers::{ident_name, ident_name_spec, static_member, static_member_spec, unwrap_parens, unwrap_parens_spec};
use crate::rules::adopt::{keyword, keyword_span};
use crate::rules::equality_idioms::{is_equality, is_equality_spec, is_tag_member, is_tag_member_spec};
use crate::rules::{
    agent_one, in_effect_code_spec, in_effect_gen_spec, none, one, scratch_view, FileCtx, Finding, FrameKind, ScratchView,
};
use crate::text::{chars_of, concat2, concat3, concat5, decimal, owned, seq_ends_with, str_ends_with, str_eq, to_decimal};

verus! {

/// Functions with more parameters than this are reported.
pub const MAX_AGENT_PARAMS: usize = 5;

/// The deepest nesting allowed.
pub const MAX_AGENT_DEPTH: u32 = 4;

/// The highest cyclomatic complexity allowed.
pub const MAX_AGENT_COMPLEXITY: u32 = 15;

/// Relative imports that climb this many directories are reported.
pub const MAX_PARENT_HOPS: usize = 3;

/// Catalog metadata of `agent-no-if-else-chain`.
#[verifier::allow_in_spec]
pub fn if_else_chain_meta() -> RuleMeta
    returns
        (RuleMeta {
            id: "agent-no-if-else-chain",
            severity: Severity::Warn,
            category: Category::AgentHygiene,
            help: "if/else (and else-if) chains hide branching. Prefer early returns, a lookup map, or Match.value(...).pipe(Match.when(...), Match.exhaustive) for declarative, exhaustive dispatch.",
        }),
{
    RuleMeta {
        id: "agent-no-if-else-chain",
        severity: Severity::Warn,
        category: Category::AgentHygiene,
        help: "if/else (and else-if) chains hide branching. Prefer early returns, a lookup map, or Match.value(...).pipe(Match.when(...), Match.exhaustive) for declarative, exhaustive dispatch.",
    }
}

/// Catalog metadata of `agent-no-ternary`.
#[verifier::allow_in_spec]
pub fn ternary_meta() -> RuleMeta
    returns
        (RuleMeta {
            id: "agent-no-ternary",
            severity: Severity::Warn,
            category: Category::AgentHygiene,
            help: "Ternaries hide branching. Extract a named helper, or use Match.value(...).pipe(Match.when(...), Match.orElse(...)) so each branch is named and exhaustive.",
        }),
{
    RuleMeta {
        id: "agent-no-ternary",
        severity: Severity::Warn,
        category: Category::AgentHygiene,
        help: "Ternaries hide branching. Extract a named helper, or use Match.value(...).pipe(Match.when(...), Match.orElse(...)) so each branch is named and exhaustive.",
    }
}

/// Catalog metadata of `agent-no-string-equality-guard`.
#[verifier::allow_in_spec]
pub fn string_equality_guard_meta() -> RuleMeta
    returns
        (RuleMeta {
            id: "agent-no-string-equality-guard",
            severity: Severity::Warn,
            category: Category::AgentHygiene,
            help: "Comparing against a string literal (`x === \"user\"`) is a stringly-typed guard. Use a type guard / predicate (isUser(x)) or Match.when on a tagged value for exhaustiveness.",
        }),
{
    RuleMeta {
        id: "agent-no-string-equality-guard",
        severity: Severity::Warn,
        category: Category::AgentHygiene,
        help: "Comparing against a string literal (`x === \"user\"`) is a stringly-typed guard. Use a type guard / predicate (isUser(x)) or Match.when on a tagged value for exhaustiveness.",
    }
}

/// Catalog metadata of `agent-no-raw-loop`.
#[verifier::allow_in_spec]
pub fn raw_loop_meta() -> RuleMeta
    returns
        (RuleMeta {
            id: "agent-no-raw-loop",
            severity: Severity::Warn,
            category: Category::AgentHygiene,
            help: "Raw for/while loops mutate and obscure intent. Use Array combinators (map/filter/reduce) for pure data, or Effect.forEach / Effect.reduce for effectful iteration (concurrency + interruption included).",
        }),
{
    RuleMeta {
        id: "agent-no-raw-loop",
        severity: Severity::Warn,
        category: Category::AgentHygiene,
        help: "Raw for/while loops mutate and obscure intent. Use Array combinators (map/filter/reduce) for pure data, or Effect.forEach / Effect.reduce for effectful iteration (concurrency + interruption included).",
    }
}

/// Catalog metadata of `agent-no-let`.
#[verifier::allow_in_spec]
pub fn let_binding_meta() -> RuleMeta
    returns
        (RuleMeta {
            id: "agent-no-let",
            severity: Severity::Warn,
            category: Category::AgentHygiene,
            help: "`let`/`var` signal mutation. Bind with `const` and build values functionally — Array.reduce, Match for conditional values, or an Effect pipeline instead of reassigning.",
        }),
{
    RuleMeta {
        id: "agent-no-let",
        severity: Severity::Warn,
        category: Category::AgentHygiene,
        help: "`let`/`var` signal mutation. Bind with `const` and build values functionally — Array.reduce, Match for conditional values, or an Effect pipeline instead of reassigning.",
    }
}

/// Catalog metadata of `agent-duplicate-function`.
#[verifier::allow_in_spec]
pub fn duplicate_function_meta() -> RuleMeta
    returns
        (RuleMeta {
            id: "agent-duplicate-function",
            severity: Severity::Info,
            category: Category::AgentHygiene,
            help: "Two functions in this file share a structurally identical body — agents copy-paste instead of extracting. Hoist the shared logic into one reusable helper.",
        }),
{
    RuleMeta {
        id: "agent-duplicate-function",
        severity: Severity::Info,
        category: Category::AgentHygiene,
        help: "Two functions in this file share a structurally identical body — agents copy-paste instead of extracting. Hoist the shared logic into one reusable helper.",
    }
}

/// Catalog metadata of `agent-no-mutation`.
#[verifier::allow_in_spec]
pub fn mutation_meta() -> RuleMeta
    returns
        (RuleMeta {
            id: "agent-no-mutation",
            severity: Severity::Warn,
            category: Category::AgentHygiene,
            help: "Reassigning a binding or mutating a payload in place creates intermediate states that are hard to follow. Derive the final value in one expression (const + Match/reduce/pipe) instead of building it up by mutation.",
        }),
{
    RuleMeta {
        id: "agent-no-mutation",
        severity: Severity::Warn,
        category: Category::AgentHygiene,
        help: "Reassigning a binding or mutating a payload in place creates intermediate states that are hard to follow. Derive the final value in one expression (const + Match/reduce/pipe) instead of building it up by mutation.",
    }
}

/// Catalog metadata of `agent-no-inline-import`.
#[verifier::allow_in_spec]
pub fn inline_import_meta() -> RuleMeta
    returns
        (RuleMeta {
            id: "agent-no-inline-import",
            severity: Severity::Warn,
            category: Category::AgentHygiene,
            help: "Inline `await import(...)` / `require(...)` hides a module's dependencies mid-body — agents add them to dodge a missing top-level import. Hoist to a static top-level `import` (keep dynamic import only for deliberate code-splitting).",
        }),
{
    RuleMeta {
        id: "agent-no-inline-import",
        severity: Severity::Warn,
        category: Category::AgentHygiene,
        help: "Inline `await import(...)` / `require(...)` hides a module's dependencies mid-body — agents add them to dodge a missing top-level import. Hoist to a static top-level `import` (keep dynamic import only for deliberate code-splitting).",
    }
}

/// Catalog metadata of `agent-no-any`.
#[verifier::allow_in_spec]
pub fn any_type_meta() -> RuleMeta
    returns
        (RuleMeta {
            id: "agent-no-any",
            severity: Severity::Warn,
            category: Category::AgentHygiene,
            help: "`any` opts out of type checking and silently spreads. Use a precise type, `unknown` + narrowing, or a Schema decode at the boundary. (opencode: \"avoid using the any type\".)",
        }),
{
    RuleMeta {
        id: "agent-no-any",
        severity: Severity::Warn,
        category: Category::AgentHygiene,
        help: "`any` opts out of type checking and silently spreads. Use a precise type, `unknown` + narrowing, or a Schema decode at the boundary. (opencode: \"avoid using the any type\".)",
    }
}

/// Catalog metadata of `agent-no-import-alias`.
#[verifier::allow_in_spec]
pub fn import_alias_meta() -> RuleMeta
    returns
        (RuleMeta {
            id: "agent-no-import-alias",
            severity: Severity::Warn,
            category: Category::AgentHygiene,
            help: "Aliasing an import (`import { x as y }`) hides the real name and breaks grep-ability. Import under the original name. (opencode: \"never alias imports\"; effect imports are exempt.)",
        }),
{
    RuleMeta {
        id: "agent-no-import-alias",
        severity: Severity::Warn,
        category: Category::AgentHygiene,
        help: "Aliasing an import (`import { x as y }`) hides the real name and breaks grep-ability. Import under the original name. (opencode: \"never alias imports\"; effect imports are exempt.)",
    }
}

/// Catalog metadata of `agent-no-namespace-import`.
#[verifier::allow_in_spec]
pub fn namespace_import_meta() -> RuleMeta
    returns
        (RuleMeta {
            id: "agent-no-namespace-import",
            severity: Severity::Warn,
            category: Category::AgentHygiene,
            help: "Star imports (`import * as x`) pull in the whole module and obscure what's used. Import the named bindings you need. (opencode: \"never use star imports\"; effect's `import * as Effect` idiom is exempt.)",
        }),
{
    RuleMeta {
        id: "agent-no-namespace-import",
        severity: Severity::Warn,
        category: Category::AgentHygiene,
        help: "Star imports (`import * as x`) pull in the whole module and obscure what's used. Import the named bindings you need. (opencode: \"never use star imports\"; effect's `import * as Effect` idiom is exempt.)",
    }
}

/// Catalog metadata of `agent-no-try-catch`.
#[verifier::allow_in_spec]
pub fn try_catch_meta() -> RuleMeta
    returns
        (RuleMeta {
            id: "agent-no-try-catch",
            severity: Severity::Info,
            category: Category::AgentHygiene,
            help: "Avoid try/catch where possible — it produces untyped errors and tangled control flow. Model failures in the typed channel (Effect.try/tryPromise + catchTag) or return a Result. (opencode: \"avoid try/catch where possible\".)",
        }),
{
    RuleMeta {
        id: "agent-no-try-catch",
        severity: Severity::Info,
        category: Category::AgentHygiene,
        help: "Avoid try/catch where possible — it produces untyped errors and tangled control flow. Model failures in the typed channel (Effect.try/tryPromise + catchTag) or return a Result. (opencode: \"avoid try/catch where possible\".)",
    }
}

/// Catalog metadata of `agent-no-as-cast`.
#[verifier::allow_in_spec]
pub fn as_cast_meta() -> RuleMeta
    returns
        (RuleMeta {
            id: "agent-no-as-cast",
            severity: Severity::Warn,
            category: Category::AgentHygiene,
            help: "An `as` cast asserts a type the compiler can't verify, silently hiding mismatches. Narrow with a type guard, or decode with Schema at the boundary instead of casting. (`as const` is fine.)",
        }),
{
    RuleMeta {
        id: "agent-no-as-cast",
        severity: Severity::Warn,
        category: Category::AgentHygiene,
        help: "An `as` cast asserts a type the compiler can't verify, silently hiding mismatches. Narrow with a type guard, or decode with Schema at the boundary instead of casting. (`as const` is fine.)",
    }
}

/// Catalog metadata of `agent-no-unbounded-promise-all`.
#[verifier::allow_in_spec]
pub fn unbounded_promise_all_meta() -> RuleMeta
    returns
        (RuleMeta {
            id: "agent-no-unbounded-promise-all",
            severity: Severity::Warn,
            category: Category::AgentHygiene,
            help: "`Promise.all(array.map(...))` fans out the whole list at once — it can exhaust the DB pool, trip rate limits, or cascade one slow dependency. Cap it with p-limit, or use Effect.forEach with an explicit `concurrency`.",
        }),
{
    RuleMeta {
        id: "agent-no-unbounded-promise-all",
        severity: Severity::Warn,
        category: Category::AgentHygiene,
        help: "`Promise.all(array.map(...))` fans out the whole list at once — it can exhaust the DB pool, trip rate limits, or cascade one slow dependency. Cap it with p-limit, or use Effect.forEach with an explicit `concurrency`.",
    }
}

/// Catalog metadata of `agent-no-loose-equality`.
#[verifier::allow_in_spec]
pub fn loose_equality_meta() -> RuleMeta
    returns
        (RuleMeta {
            id: "agent-no-loose-equality",
            severity: Severity::Warn,
            category: Category::AgentHygiene,
            help: "`==` / `!=` coerce operands and hide bugs. Use `===` / `!==` (or `Equal.equals` for structural equality). `== null` / `!= null` are exempt — that's the one idiomatic nullish check.",
        }),
{
    RuleMeta {
        id: "agent-no-loose-equality",
        severity: Severity::Warn,
        category: Category::AgentHygiene,
        help: "`==` / `!=` coerce operands and hide bugs. Use `===` / `!==` (or `Equal.equals` for structural equality). `== null` / `!= null` are exempt — that's the one idiomatic nullish check.",
    }
}

/// Catalog metadata of `agent-no-non-null-assertion`.
#[verifier::allow_in_spec]
pub fn non_null_assertion_meta() -> RuleMeta
    returns
        (RuleMeta {
            id: "agent-no-non-null-assertion",
            severity: Severity::Warn,
            category: Category::AgentHygiene,
            help: "The non-null assertion `x!` asserts a value is present without proof — it crashes at runtime when wrong. Narrow with a guard, handle the `undefined` case, or model absence with Option.",
        }),
{
    RuleMeta {
        id: "agent-no-non-null-assertion",
        severity: Severity::Warn,
        category: Category::AgentHygiene,
        help: "The non-null assertion `x!` asserts a value is present without proof — it crashes at runtime when wrong. Narrow with a guard, handle the `undefined` case, or model absence with Option.",
    }
}

/// Catalog metadata of `agent-no-enum`.
#[verifier::allow_in_spec]
pub fn ts_enum_meta() -> RuleMeta
    returns
        (RuleMeta {
            id: "agent-no-enum",
            severity: Severity::Warn,
            category: Category::AgentHygiene,
            help: "TS `enum` emits runtime code and has surprising semantics. Use a union of string literals (or `Schema.Literals(...)`) and derive the type — it's erasable and decodes cleanly.",
        }),
{
    RuleMeta {
        id: "agent-no-enum",
        severity: Severity::Warn,
        category: Category::AgentHygiene,
        help: "TS `enum` emits runtime code and has surprising semantics. Use a union of string literals (or `Schema.Literals(...)`) and derive the type — it's erasable and decodes cleanly.",
    }
}

/// Catalog metadata of `agent-no-ts-namespace`.
#[verifier::allow_in_spec]
pub fn ts_namespace_meta() -> RuleMeta
    returns
        (RuleMeta {
            id: "agent-no-ts-namespace",
            severity: Severity::Info,
            category: Category::AgentHygiene,
            help: "TS `namespace` is a legacy module system that emits runtime code and nests scope awkwardly. Use ES modules (one file = one module) and named exports.",
        }),
{
    RuleMeta {
        id: "agent-no-ts-namespace",
        severity: Severity::Info,
        category: Category::AgentHygiene,
        help: "TS `namespace` is a legacy module system that emits runtime code and nests scope awkwardly. Use ES modules (one file = one module) and named exports.",
    }
}

/// Catalog metadata of `agent-no-throw`.
#[verifier::allow_in_spec]
pub fn throw_meta() -> RuleMeta
    returns
        (RuleMeta {
            id: "agent-no-throw",
            severity: Severity::Info,
            category: Category::AgentHygiene,
            help: "Throwing outside Effect produces an untyped exception that escapes the type system. Model failure explicitly — return a Result/Either, or `Effect.fail` a tagged error inside Effect code.",
        }),
{
    RuleMeta {
        id: "agent-no-throw",
        severity: Severity::Info,
        category: Category::AgentHygiene,
        help: "Throwing outside Effect produces an untyped exception that escapes the type system. Model failure explicitly — return a Result/Either, or `Effect.fail` a tagged error inside Effect code.",
    }
}

/// Catalog metadata of `agent-no-delete`.
#[verifier::allow_in_spec]
pub fn delete_op_meta() -> RuleMeta
    returns
        (RuleMeta {
            id: "agent-no-delete",
            severity: Severity::Info,
            category: Category::AgentHygiene,
            help: "`delete` mutates an object in place and deoptimizes it. Build a new object without the key (destructure-and-rest, or `Struct.omit`) instead.",
        }),
{
    RuleMeta {
        id: "agent-no-delete",
        severity: Severity::Info,
        category: Category::AgentHygiene,
        help: "`delete` mutates an object in place and deoptimizes it. Build a new object without the key (destructure-and-rest, or `Struct.omit`) instead.",
    }
}

/// Catalog metadata of `agent-deep-nesting`.
#[verifier::allow_in_spec]
pub fn deep_nesting_meta() -> RuleMeta
    returns
        (RuleMeta {
            id: "agent-deep-nesting",
            severity: Severity::Warn,
            category: Category::AgentHygiene,
            help: "Deeply nested control flow is hard to follow. Flatten with guard clauses / early returns, extract the inner block into a named helper, or replace branching with Match / Array combinators.",
        }),
{
    RuleMeta {
        id: "agent-deep-nesting",
        severity: Severity::Warn,
        category: Category::AgentHygiene,
        help: "Deeply nested control flow is hard to follow. Flatten with guard clauses / early returns, extract the inner block into a named helper, or replace branching with Match / Array combinators.",
    }
}

/// Catalog metadata of `agent-high-complexity`.
#[verifier::allow_in_spec]
pub fn high_complexity_meta() -> RuleMeta
    returns
        (RuleMeta {
            id: "agent-high-complexity",
            severity: Severity::Warn,
            category: Category::AgentHygiene,
            help: "This function has high cyclomatic complexity (too many branches/loops/conditions). Split it into smaller named functions, or replace the branching with Match / a lookup / an Effect pipeline.",
        }),
{
    RuleMeta {
        id: "agent-high-complexity",
        severity: Severity::Warn,
        category: Category::AgentHygiene,
        help: "This function has high cyclomatic complexity (too many branches/loops/conditions). Split it into smaller named functions, or replace the branching with Match / a lookup / an Effect pipeline.",
    }
}

/// Catalog metadata of `agent-too-many-params`.
#[verifier::allow_in_spec]
pub fn too_many_params_meta() -> RuleMeta
    returns
        (RuleMeta {
            id: "agent-too-many-params",
            severity: Severity::Warn,
            category: Category::AgentHygiene,
            help: "A long positional parameter list is error-prone at the call site. Pass a single named options object (or a Schema-validated input).",
        }),
{
    RuleMeta {
        id: "agent-too-many-params",
        severity: Severity::Warn,
        category: Category::AgentHygiene,
        help: "A long positional parameter list is error-prone at the call site. Pass a single named options object (or a Schema-validated input).",
    }
}

/// Catalog metadata of `agent-deep-relative-import`.
#[verifier::allow_in_spec]
pub fn deep_relative_import_meta() -> RuleMeta
    returns
        (RuleMeta {
            id: "agent-deep-relative-import",
            severity: Severity::Info,
            category: Category::AgentHygiene,
            help: "A deep relative import (`../../../`) is brittle and signals a module reaching across the architecture. Use a path alias / package entry point, or move the shared code closer.",
        }),
{
    RuleMeta {
        id: "agent-deep-relative-import",
        severity: Severity::Info,
        category: Category::AgentHygiene,
        help: "A deep relative import (`../../../`) is brittle and signals a module reaching across the architecture. Use a path alias / package entry point, or move the shared code closer.",
    }
}

/// Catalog metadata of `agent-no-inline-type-import`.
#[verifier::allow_in_spec]
pub fn inline_type_import_meta() -> RuleMeta
    returns
        (RuleMeta {
            id: "agent-no-inline-type-import",
            severity: Severity::Warn,
            category: Category::AgentHygiene,
            help: "Inline `import(\"...\").Foo` type references are hard to read and move. Use a top-level `import type { Foo } from \"...\"` — it's erased at compile time, so it can't cause circular-dependency issues. (rogo)",
        }),
{
    RuleMeta {
        id: "agent-no-inline-type-import",
        severity: Severity::Warn,
        category: Category::AgentHygiene,
        help: "Inline `import(\"...\").Foo` type references are hard to read and move. Use a top-level `import type { Foo } from \"...\"` — it's erased at compile time, so it can't cause circular-dependency issues. (rogo)",
    }
}

/// Catalog metadata of `agent-prefer-safe-parse`.
#[verifier::allow_in_spec]
pub fn safe_parse_meta() -> RuleMeta
    returns
        (RuleMeta {
            id: "agent-prefer-safe-parse",
            severity: Severity::Warn,
            category: Category::AgentHygiene,
            help: "`Schema.parse()` throws far from the call site. Prefer `.safeParse()` (Zod) / a decode-to-Either (Effect Schema) so the failure path is handled explicitly — surface a 400, fall back, or log and skip.",
        }),
{
    RuleMeta {
        id: "agent-prefer-safe-parse",
        severity: Severity::Warn,
        category: Category::AgentHygiene,
        help: "`Schema.parse()` throws far from the call site. Prefer `.safeParse()` (Zod) / a decode-to-Either (Effect Schema) so the failure path is handled explicitly — surface a 400, fall back, or log and skip.",
    }
}

/// A `..` segment of a `/`-separated path starts at `i`.
pub open spec fn hop_at(s: Seq<char>, i: int) -> bool {
    &&& 0 <= i
    &&& i + 1 < s.len()
    &&& (i == 0 || s[i - 1] == '/')
    &&& s[i] == '.'
    &&& s[i + 1] == '.'
    &&& (i + 2 == s.len() || s[i + 2] == '/')
}

/// The number of `..` segments starting before `n`.
pub open spec fn hops_upto(s: Seq<char>, n: int) -> nat
    decreases n,
{
    if n <= 0 {
        0
    } else {
        hops_upto(s, n - 1) + if hop_at(s, n - 1) {
            1nat
        } else {
            0nat
        }
    }
}

/// The number of `..` segments of a `/`-separated path.
pub open spec fn parent_hops(s: Seq<char>) -> nat {
    hops_upto(s, s.len() as int)
}

/// How many `..` segments does the path have?
pub fn count_parent_hops(path: &str) -> (hops: usize)
    ensures
        hops == parent_hops(path@),
{
    let cs = chars_of(path);
    let mut hops: usize = 0;
    let mut i: usize = 0;
    while i < cs.len()
        invariant
            i <= cs@.len(),
            cs@ == path@,
            hops == hops_upto(cs@, i as int),
            hops <= i,
        decreases cs@.len() - i,
    {
        let at = i + 1 < cs.len() && (i == 0 || cs[i - 1] == '/') && cs[i] == '.' && cs[i + 1] == '.' && (i + 2 == cs.len()
            || cs[i + 2] == '/');
        if at {
            hops += 1;
        }
        i += 1;
    }
    hops
}

/// `null`, parentheses removed.
pub open spec fn is_null_spec(e: Expr) -> bool {
    unwrap_parens_spec(e) is Null
}

/// A string literal, parentheses removed.
pub open spec fn is_string_literal_spec(e: Expr) -> bool {
    unwrap_parens_spec(e) is Str
}

/// `<name>Schema.parse(...)`: a schema parse, told from `JSON.parse` and the
/// like by its receiver's name.
pub open spec fn is_schema_parse_spec(call: CallExpr) -> bool {
    match static_member_spec(call.callee) {
        Some((object, prop)) => prop == "parse"@ && match ident_name_spec(object) {
            Some(name) => seq_ends_with(name, "Schema"@),
            None => false,
        },
        None => false,
    }
}

/// `<array>.map(...)`, parentheses removed.
pub open spec fn is_map_call_spec(e: Expr) -> bool {
    match unwrap_parens_spec(e) {
        Expr::Call(call) => match static_member_spec(call.callee) {
            Some((_, prop)) => prop == "map"@,
            None => false,
        },
        _ => false,
    }
}

/// A finding of this family in agent mode.
pub open spec fn when_agent(agent: bool, strict: bool, meta: RuleMeta, span: Span, message: Seq<char>) -> Seq<Finding> {
    if agent {
        agent_one(strict, meta, span, message)
    } else {
        none()
    }
}

/// A TypeScript `namespace`.
pub open spec fn agent_namespace_findings(agent: bool, strict: bool, span: Span) -> Seq<Finding> {
    when_agent(agent, strict, ts_namespace_meta(), keyword_span(span, 9), "TS namespace — use ES modules and named exports"@)
}

/// `throw` outside Effect code (inside it, `no-throw-in-effect` reports).
pub open spec fn agent_throw_findings(agent: bool, strict: bool, stack: Seq<FrameKind>, span: Span) -> Seq<Finding> {
    when_agent(
        agent && !in_effect_code_spec(stack),
        strict,
        throw_meta(),
        keyword_span(span, 5),
        "throw — return a Result/Either or Effect.fail a tagged error"@,
    )
}

/// `delete`.
pub open spec fn agent_unary_findings(agent: bool, strict: bool, operator: Seq<char>, span: Span) -> Seq<Finding> {
    when_agent(
        agent && operator == "delete"@,
        strict,
        delete_op_meta(),
        keyword_span(span, 6),
        "delete mutates in place — build a new object without the key"@,
    )
}

/// An inline `import("...").Foo` type.
pub open spec fn agent_import_type_findings(agent: bool, strict: bool, span: Span) -> Seq<Finding> {
    when_agent(agent, strict, inline_type_import_meta(), span, "inline `import(\"...\").Foo` type — use a top-level `import type`"@)
}

/// A non-null assertion.
pub open spec fn agent_non_null_findings(agent: bool, strict: bool, span: Span) -> Seq<Finding> {
    when_agent(agent, strict, non_null_assertion_meta(), span, "non-null assertion `!` — narrow with a guard or model absence with Option"@)
}

/// A TypeScript `enum`.
pub open spec fn agent_enum_findings(agent: bool, strict: bool, span: Span) -> Seq<Finding> {
    when_agent(
        agent,
        strict,
        ts_enum_meta(),
        keyword_span(span, 4),
        "TS enum — use a union of string literals / Schema.Literals and derive the type"@,
    )
}

/// An `as` cast other than `as const`.
pub open spec fn agent_as_findings(agent: bool, strict: bool, annotation: Option<Seq<char>>, span: Span) -> Seq<Finding> {
    when_agent(
        agent && annotation != Some("const"@),
        strict,
        as_cast_meta(),
        span,
        "`as` cast — narrow with a type guard or decode with Schema instead"@,
    )
}

/// The `any` type.
pub open spec fn agent_any_findings(agent: bool, strict: bool, span: Span) -> Seq<Finding> {
    when_agent(agent, strict, any_type_meta(), span, "`any` — use a precise type, `unknown` + narrowing, or a Schema decode"@)
}

/// What one specifier of a non-Effect import is reported for: a namespace
/// import, or a named import under another name.
pub open spec fn agent_specifier_findings(strict: bool, s: ImportSpecifier) -> Seq<Finding> {
    match s {
        ImportSpecifier::Namespace { local, span } => agent_one(
            strict,
            namespace_import_meta(),
            span,
            "`import * as "@ + local@ + "` — import the named bindings you use"@,
        ),
        ImportSpecifier::Named { local, imported, span } => if imported@ != local@ {
            agent_one(strict, import_alias_meta(), span, "`"@ + imported@ + " as "@ + local@ + "` — import under its real name"@)
        } else {
            none()
        },
        ImportSpecifier::Default { .. } => none(),
    }
}

/// The findings of `specifiers[..n]`, in order.
pub open spec fn agent_specifiers_findings(strict: bool, specifiers: Seq<ImportSpecifier>) -> Seq<Finding>
    decreases specifiers.len(),
{
    if specifiers.len() == 0 {
        none()
    } else {
        agent_specifiers_findings(strict, specifiers.drop_last()) + agent_specifier_findings(strict, specifiers.last())
    }
}

/// An import from outside Effect: a deep relative source, then each of its
/// specifiers.
pub open spec fn agent_import_findings(agent: bool, strict: bool, decl: ImportDecl, source_span: Span) -> Seq<Finding> {
    let source = decl.source@;
    if !agent || is_effect_package_spec(source) {
        none()
    } else {
        (if parent_hops(source) >= MAX_PARENT_HOPS {
            agent_one(
                strict,
                deep_relative_import_meta(),
                source_span,
                "`"@ + source + "` reaches across the tree — use a path alias or move the shared code closer"@,
            )
        } else {
            none()
        }) + match decl.specifiers {
            Some(specifiers) => agent_specifiers_findings(strict, specifiers@),
            None => none(),
        }
    }
}

/// `try` outside an Effect generator (inside one, `no-try-catch-in-gen`
/// reports).
pub open spec fn agent_try_findings(agent: bool, strict: bool, stack: Seq<FrameKind>, t: TryStmt) -> Seq<Finding> {
    when_agent(
        agent && !in_effect_gen_spec(stack),
        strict,
        try_catch_meta(),
        keyword_span(t.span, 3),
        "try/catch — model failure in the typed channel (Effect.try + catchTag) or return a Result"@,
    )
}

/// The position of the first `v` in `s[i..]`.
pub open spec fn first_position(s: Seq<u32>, v: u32, i: int) -> Option<int>
    decreases s.len() - i,
{
    if i < 0 || i >= s.len() {
        None
    } else if s[i] == v {
        Some(i)
    } else {
        first_position(s, v, i + 1)
    }
}

/// An `if` with an `else` is reported once per chain, at its head: the
/// heads record the starts of their `else if` links, and a link that was
/// recorded is passed over (and forgotten, the last record taking its place).
/// Returns the findings and the records after the statement.
pub open spec fn agent_if(agent: bool, strict: bool, skip: Seq<u32>, span: Span, has_alternate: bool, else_if_starts: Seq<u32>) -> (
    Seq<Finding>,
    Seq<u32>,
) {
    if !agent {
        (none(), skip)
    } else {
        match first_position(skip, span.start, 0) {
            Some(i) => (none(), skip.update(i, skip.last()).drop_last()),
            None => if !has_alternate {
                (none(), skip)
            } else {
                (
                    agent_one(
                        strict,
                        if_else_chain_meta(),
                        keyword_span(span, 2),
                        "if/else chain — use early returns, a lookup map, or Match.exhaustive"@,
                    ),
                    skip + else_if_starts,
                )
            },
        }
    }
}

/// A conditional expression.
pub open spec fn agent_conditional_findings(agent: bool, strict: bool, span: Span) -> Seq<Finding> {
    when_agent(agent, strict, ternary_meta(), span, "ternary — extract a named helper or use Match.when/orElse"@)
}

/// `==` / `!=` with neither side `null`.
pub open spec fn is_loose_comparison(operator: Seq<char>, left: Expr, right: Expr) -> bool {
    (operator == "=="@ || operator == "!="@) && !is_null_spec(left) && !is_null_spec(right)
}

/// An (in)equality: a loose one, then one against a string literal unless a
/// side reads `._tag` (the tag rules own those).
pub open spec fn agent_binary_findings(agent: bool, strict: bool, operator: Seq<char>, left: Expr, right: Expr, span: Span) -> Seq<Finding> {
    if !agent || !is_equality_spec(operator) {
        none()
    } else {
        (if is_loose_comparison(operator, left, right) {
            agent_one(strict, loose_equality_meta(), span, "`"@ + operator + "` coerces — use `"@ + operator + "=` (or Equal.equals)"@)
        } else {
            none()
        }) + if !is_tag_member_spec(left) && !is_tag_member_spec(right) && (is_string_literal_spec(left) || is_string_literal_spec(
            right,
        )) {
            agent_one(
                strict,
                string_equality_guard_meta(),
                span,
                "`"@ + operator + "` against a string literal — use a type guard / predicate or Match.when"@,
            )
        } else {
            none()
        }
    }
}

/// A loop statement.
pub open spec fn agent_loop_findings(agent: bool, strict: bool, span: Span) -> Seq<Finding> {
    when_agent(
        agent,
        strict,
        raw_loop_meta(),
        keyword_span(span, 3),
        "raw loop — use Array.map/filter/reduce or Effect.forEach / Effect.reduce"@,
    )
}

/// A `let` or `var` declaration.
pub open spec fn agent_var_decl_findings(agent: bool, strict: bool, kind: Seq<char>, span: Span) -> Seq<Finding> {
    when_agent(
        agent && (kind == "let"@ || kind == "var"@),
        strict,
        let_binding_meta(),
        keyword_span(span, 3),
        "`"@ + kind + "` signals mutation — bind with const and build values functionally"@,
    )
}

/// What an assignment is called: a reassignment of a plain identifier, or an
/// in-place mutation of a member.
pub open spec fn mutation_kind(to_identifier: bool) -> Seq<char> {
    if to_identifier {
        "reassignment"@
    } else {
        "in-place mutation"@
    }
}

/// An assignment.
pub open spec fn agent_assignment_findings(agent: bool, strict: bool, to_identifier: bool, span: Span) -> Seq<Finding> {
    when_agent(
        agent,
        strict,
        mutation_meta(),
        span,
        mutation_kind(to_identifier) + " — derive the final value once (const + Match/reduce/pipe) instead of building it up"@,
    )
}

/// A dynamic `import(...)`.
pub open spec fn agent_import_expression_findings(agent: bool, strict: bool, span: Span) -> Seq<Finding> {
    when_agent(
        agent,
        strict,
        inline_import_meta(),
        keyword_span(span, 6),
        "inline dynamic import() — hoist to a top-level `import` unless this is deliberate code-splitting"@,
    )
}

/// A call: `require(...)`, else a schema `parse`, else `Promise.all` /
/// `allSettled` over an `<array>.map(...)`.
pub open spec fn agent_call_findings(agent: bool, strict: bool, call: CallExpr) -> Seq<Finding> {
    if !agent {
        none()
    } else if ident_name_spec(call.callee) == Some("require"@) {
        agent_one(strict, inline_import_meta(), call.span, "require(...) — use a static top-level ESM `import` instead"@)
    } else if is_schema_parse_spec(call) {
        agent_one(strict, safe_parse_meta(), call.span, "Schema.parse() throws — prefer .safeParse() / decode-to-Either and handle the failure"@)
    } else {
        match static_member_spec(call.callee) {
            Some((object, prop)) => if ident_name_spec(object) == Some("Promise"@) && (prop == "all"@ || prop == "allSettled"@)
                && call.arguments@.len() > 0 && is_map_call_spec(call.arguments@[0]) {
                agent_one(
                    strict,
                    unbounded_promise_all_meta(),
                    call.span,
                    "Promise."@ + prop + "(arr.map(...)) — cap with p-limit or Effect.forEach { concurrency }"@,
                )
            } else {
                none()
            },
            None => none(),
        }
    }
}

/// A function's parameter count, then, where its body was measured, its
/// nesting and its complexity.
pub open spec fn agent_function_findings(agent: bool, strict: bool, f: FunctionExpr, shape: Option<BodyShape>) -> Seq<Finding> {
    if !agent {
        none()
    } else {
        (if f.param_count > MAX_AGENT_PARAMS {
            agent_one(
                strict,
                too_many_params_meta(),
                keyword_span(f.span, 1),
                decimal(f.param_count as nat) + " parameters — pass a single named options object"@,
            )
        } else {
            none()
        }) + match shape {
            Some(s) => (if s.max_depth > MAX_AGENT_DEPTH {
                agent_one(
                    strict,
                    deep_nesting_meta(),
                    keyword_span(f.span, 1),
                    "nested "@ + decimal(s.max_depth as nat) + " levels deep — flatten with guard clauses or extract a helper"@,
                )
            } else {
                none()
            }) + (if s.complexity > MAX_AGENT_COMPLEXITY {
                agent_one(
                    strict,
                    high_complexity_meta(),
                    keyword_span(f.span, 1),
                    "cyclomatic complexity "@ + decimal(s.complexity as nat) + " — split into smaller functions or use Match"@,
                )
            } else {
                none()
            }),
            None => none(),
        }
    }
}

/// What a measured function adds to the file's facts: its fingerprint.
pub open spec fn agent_function_scratch(agent: bool, scratch: ScratchView, f: FunctionExpr, shape: Option<BodyShape>) -> ScratchView {
    match shape {
        Some(s) => if agent {
            ScratchView { fingerprints: scratch.fingerprints.push((s.identity_hash, f.span)), ..scratch }
        } else {
            scratch
        },
        None => scratch,
    }
}

/// How many fingerprints carry `hash`.
pub open spec fn hash_count(fps: Seq<(u64, Span)>, hash: u64) -> nat
    decreases fps.len(),
{
    if fps.len() == 0 {
        0
    } else {
        hash_count(fps.drop_last(), hash) + if fps.last().0 == hash {
            1nat
        } else {
            0nat
        }
    }
}

/// The spans of `fps[..n]` whose hash occurs at least twice in `all`, in
/// order.
pub open spec fn duplicated_upto(all: Seq<(u64, Span)>, fps: Seq<(u64, Span)>) -> Seq<Span>
    decreases fps.len(),
{
    if fps.len() == 0 {
        Seq::empty()
    } else {
        let prior = duplicated_upto(all, fps.drop_last());
        if hash_count(all, fps.last().0) >= 2 {
            prior.push(fps.last().1)
        } else {
            prior
        }
    }
}

/// `sorted` with `s` inserted after every span that starts no later.
pub open spec fn insert_by_start(sorted: Seq<Span>, s: Span) -> Seq<Span>
    decreases sorted.len(),
{
    if sorted.len() == 0 {
        seq![s]
    } else if sorted.last().start <= s.start {
        sorted.push(s)
    } else {
        insert_by_start(sorted.drop_last(), s).push(sorted.last())
    }
}

/// The spans ordered by start; spans with equal starts keep their order.
pub open spec fn sort_by_start(spans: Seq<Span>) -> Seq<Span>
    decreases spans.len(),
{
    if spans.len() == 0 {
        Seq::empty()
    } else {
        insert_by_start(sort_by_start(spans.drop_last()), spans.last())
    }
}

/// The duplicate findings for the spans, in order.
pub open spec fn duplicate_findings_of(spans: Seq<Span>) -> Seq<Finding>
    decreases spans.len(),
{
    if spans.len() == 0 {
        none()
    } else {
        duplicate_findings_of(spans.drop_last()) + one(
            duplicate_function_meta(),
            keyword_span(spans.last(), 1),
            "function body is structurally identical to another in this file — extract a shared helper"@,
        )
    }
}

/// At file end, in agent mode, every function whose body shares its shape
/// with another, in order of position. These stay suggestions in strict
/// mode.
pub open spec fn agent_end_findings(agent: bool, fps: Seq<(u64, Span)>) -> Seq<Finding> {
    if agent {
        duplicate_findings_of(sort_by_start(duplicated_upto(fps, fps)))
    } else {
        none()
    }
}

fn is_null_expr(e: &Expr) -> (found: bool)
    ensures
        found == is_null_spec(*e),
{
    match unwrap_parens(e) {
        Expr::Null { .. } => true,
        _ => false,
    }
}

fn is_string_literal(e: &Expr) -> (found: bool)
    ensures
        found == is_string_literal_spec(*e),
{
    match unwrap_parens(e) {
        Expr::Str { .. } => true,
        _ => false,
    }
}

fn is_schema_parse(call: &CallExpr) -> (found: bool)
    ensures
        found == is_schema_parse_spec(*call),
{
    match static_member(&call.callee) {
        Some((object, prop)) => str_eq(prop, "parse") && match ident_name(object) {
            Some(name) => str_ends_with(name, "Schema"),
            None => false,
        },
        None => false,
    }
}

fn is_map_call(e: &Expr) -> (found: bool)
    ensures
        found == is_map_call_spec(*e),
{
    match unwrap_parens(e) {
        Expr::Call(call) => match static_member(&call.callee) {
            Some((_, prop)) => str_eq(prop, "map"),
            None => false,
        },
        _ => false,
    }
}

/// Reports a finding of this family where `active` holds.
fn report_if(active: bool, meta: RuleMeta, span: Span, message: String, ctx: &mut FileCtx)
    ensures
        final(ctx).findings() == old(ctx).findings() + when_agent(active, old(ctx).flags().3, meta, span, message@),
        final(ctx).same_walk(old(ctx)),
{
    if active {
        ctx.report_agent(meta, span, message);
        assert(ctx.findings() =~= old(ctx).findings() + when_agent(active, old(ctx).flags().3, meta, span, message@));
    } else {
        assert(old(ctx).findings() + none() =~= old(ctx).findings());
    }
}

fn insert_span(sorted: &mut Vec<Span>, s: Span)
    ensures
        final(sorted)@ == insert_by_start(old(sorted)@, s),
    decreases old(sorted)@.len(),
{
    if sorted.len() == 0 {
        sorted.push(s);
        return;
    }
    let last = sorted[sorted.len() - 1];
    if last.start <= s.start {
        sorted.push(s);
        return;
    }
    let popped = sorted.pop();
    assert(sorted@ =~= old(sorted)@.drop_last());
    insert_span(sorted, s);
    sorted.push(last);
}

pub struct AgentHygiene;

impl AgentHygiene {
    /// The rule ids this rule owns.
    pub fn metas(&self) -> (metas: Vec<RuleMeta>)
        ensures
            metas@ == seq![
                if_else_chain_meta(),
                ternary_meta(),
                string_equality_guard_meta(),
                raw_loop_meta(),
                let_binding_meta(),
                mutation_meta(),
                inline_import_meta(),
                any_type_meta(),
                import_alias_meta(),
                namespace_import_meta(),
                try_catch_meta(),
                as_cast_meta(),
                unbounded_promise_all_meta(),
                loose_equality_meta(),
                non_null_assertion_meta(),
                ts_enum_meta(),
                safe_parse_meta(),
                inline_type_import_meta(),
                ts_namespace_meta(),
                throw_meta(),
                delete_op_meta(),
                deep_nesting_meta(),
                high_complexity_meta(),
                too_many_params_meta(),
                deep_relative_import_meta(),
                duplicate_function_meta(),
            ],
    {
        let mut metas: Vec<RuleMeta> = Vec::new();
        metas.push(if_else_chain_meta());
        metas.push(ternary_meta());
        metas.push(string_equality_guard_meta());
        metas.push(raw_loop_meta());
        metas.push(let_binding_meta());
        metas.push(mutation_meta());
        metas.push(inline_import_meta());
        metas.push(any_type_meta());
        metas.push(import_alias_meta());
        metas.push(namespace_import_meta());
        metas.push(try_catch_meta());
        metas.push(as_cast_meta());
        metas.push(unbounded_promise_all_meta());
        metas.push(loose_equality_meta());
        metas.push(non_null_assertion_meta());
        metas.push(ts_enum_meta());
        metas.push(safe_parse_meta());
        metas.push(inline_type_import_meta());
        metas.push(ts_namespace_meta());
        metas.push(throw_meta());
        metas.push(delete_op_meta());
        metas.push(deep_nesting_meta());
        metas.push(high_complexity_meta());
        metas.push(too_many_params_meta());
        metas.push(deep_relative_import_meta());
        metas.push(duplicate_function_meta());
        metas
    }

    /// A TypeScript `namespace`.
    pub fn on_namespace(&self, span: Span, ctx: &mut FileCtx)
        ensures
            final(ctx).findings() == old(ctx).findings() + agent_namespace_findings(old(ctx).flags().2, old(ctx).flags().3, span),
            final(ctx).same_walk(old(ctx)),
    {
        report_if(ctx.agent_active(), ts_namespace_meta(), keyword(span, 9), owned("TS namespace — use ES modules and named exports"), ctx);
    }

    /// A `throw` statement.
    pub fn on_throw(&self, span: Span, ctx: &mut FileCtx)
        ensures
            final(ctx).findings() == old(ctx).findings() + agent_throw_findings(old(ctx).flags().2, old(ctx).flags().3, old(ctx).stack@, span),
            final(ctx).same_walk(old(ctx)),
    {
        let active = ctx.agent_active() && !ctx.in_effect_code();
        report_if(active, throw_meta(), keyword(span, 5), owned("throw — return a Result/Either or Effect.fail a tagged error"), ctx);
    }

    /// A unary expression.
    pub fn on_unary(&self, operator: &str, span: Span, ctx: &mut FileCtx)
        ensures
            final(ctx).findings() == old(ctx).findings() + agent_unary_findings(old(ctx).flags().2, old(ctx).flags().3, operator@, span),
            final(ctx).same_walk(old(ctx)),
    {
        let active = ctx.agent_active() && str_eq(operator, "delete");
        report_if(active, delete_op_meta(), keyword(span, 6), owned("delete mutates in place — build a new object without the key"), ctx);
    }

    /// An inline `import("...").Foo` type.
    pub fn on_import_type(&self, span: Span, ctx: &mut FileCtx)
        ensures
            final(ctx).findings() == old(ctx).findings() + agent_import_type_findings(old(ctx).flags().2, old(ctx).flags().3, span),
            final(ctx).same_walk(old(ctx)),
    {
        report_if(
            ctx.agent_active(),
            inline_type_import_meta(),
            span,
            owned("inline `import(\"...\").Foo` type — use a top-level `import type`"),
            ctx,
        );
    }

    /// A non-null assertion.
    pub fn on_non_null(&self, span: Span, ctx: &mut FileCtx)
        ensures
            final(ctx).findings() == old(ctx).findings() + agent_non_null_findings(old(ctx).flags().2, old(ctx).flags().3, span),
            final(ctx).same_walk(old(ctx)),
    {
        report_if(
            ctx.agent_active(),
            non_null_assertion_meta(),
            span,
            owned("non-null assertion `!` — narrow with a guard or model absence with Option"),
            ctx,
        );
    }

    /// A TypeScript `enum`.
    pub fn on_enum(&self, span: Span, ctx: &mut FileCtx)
        ensures
            final(ctx).findings() == old(ctx).findings() + agent_enum_findings(old(ctx).flags().2, old(ctx).flags().3, span),
            final(ctx).same_walk(old(ctx)),
    {
        report_if(
            ctx.agent_active(),
            ts_enum_meta(),
            keyword(span, 4),
            owned("TS enum — use a union of string literals / Schema.Literals and derive the type"),
            ctx,
        );
    }

    /// An `as` cast, with the name of the type it casts to.
    pub fn on_as(&self, annotation: &Option<String>, span: Span, ctx: &mut FileCtx)
        ensures
            final(ctx).findings() == old(ctx).findings() + agent_as_findings(
                old(ctx).flags().2,
                old(ctx).flags().3,
                match *annotation {
                    Some(a) => Some(a@),
                    None => None,
                },
                span,
            ),
            final(ctx).same_walk(old(ctx)),
    {
        let is_const = match annotation {
            Some(a) => str_eq(a.as_str(), "const"),
            None => false,
        };
        report_if(
            ctx.agent_active() && !is_const,
            as_cast_meta(),
            span,
            owned("`as` cast — narrow with a type guard or decode with Schema instead"),
            ctx,
        );
    }

    /// The `any` type.
    pub fn on_any(&self, span: Span, ctx: &mut FileCtx)
        ensures
            final(ctx).findings() == old(ctx).findings() + agent_any_findings(old(ctx).flags().2, old(ctx).flags().3, span),
            final(ctx).same_walk(old(ctx)),
    {
        report_if(
            ctx.agent_active(),
            any_type_meta(),
            span,
            owned("`any` — use a precise type, `unknown` + narrowing, or a Schema decode"),
            ctx,
        );
    }

    /// An import declaration.
    pub fn on_import(&self, decl: &ImportDecl, source_span: Span, ctx: &mut FileCtx)
        ensures
            final(ctx).findings() == old(ctx).findings() + agent_import_findings(old(ctx).flags().2, old(ctx).flags().3, *decl, source_span),
            final(ctx).same_walk(old(ctx)),
    {
        let source = decl.source.as_str();
        if !ctx.agent_active() || is_effect_package(source) {
            assert(old(ctx).findings() + none() =~= old(ctx).findings());
            return;
        }
        if count_parent_hops(source) >= 3 {
            let message = concat3("`", source, "` reaches across the tree — use a path alias or move the shared code closer");
            ctx.report_agent(deep_relative_import_meta(), source_span, message);
        }
        let ghost strict = old(ctx).flags().3;
        let ghost after_source = ctx.findings();
        match &decl.specifiers {
            Some(specifiers) => {
                let mut k: usize = 0;
                assert(after_source + agent_specifiers_findings(strict, specifiers@.take(0)) =~= after_source);
                while k < specifiers.len()
                    invariant
                        k <= specifiers@.len(),
                        strict == ctx.flags().3,
                        ctx.findings() == after_source + agent_specifiers_findings(strict, specifiers@.take(k as int)),
                        ctx.same_walk(old(ctx)),
                    decreases specifiers@.len() - k,
                {
                    assert(specifiers@.take(k + 1).drop_last() =~= specifiers@.take(k as int));
                    match &specifiers[k] {
                        ImportSpecifier::Namespace { local, span } => {
                            let message = concat3("`import * as ", local.as_str(), "` — import the named bindings you use");
                            ctx.report_agent(namespace_import_meta(), *span, message);
                        },
                        ImportSpecifier::Named { local, imported, span } => {
                            if !str_eq(imported.as_str(), local.as_str()) {
                                let message = concat5("`", imported.as_str(), " as ", local.as_str(), "` — import under its real name");
                                ctx.report_agent(import_alias_meta(), *span, message);
                            }
                        },
                        ImportSpecifier::Default { .. } => {},
                    }
                    assert(ctx.findings() =~= after_source + agent_specifiers_findings(strict, specifiers@.take(k + 1)));
                    k += 1;
                }
                assert(specifiers@.take(k as int) =~= specifiers@);
            },
            None => {},
        }
        assert(ctx.findings() =~= old(ctx).findings() + agent_import_findings(old(ctx).flags().2, old(ctx).flags().3, *decl, source_span));
    }

    /// A `try` statement.
    pub fn on_try(&self, t: &TryStmt, ctx: &mut FileCtx)
        ensures
            final(ctx).findings() == old(ctx).findings() + agent_try_findings(old(ctx).flags().2, old(ctx).flags().3, old(ctx).stack@, *t),
            final(ctx).same_walk(old(ctx)),
    {
        let active = ctx.agent_active() && !ctx.in_effect_gen();
        report_if(
            active,
            try_catch_meta(),
            keyword(t.span, 3),
            owned("try/catch — model failure in the typed channel (Effect.try + catchTag) or return a Result"),
            ctx,
        );
    }

    /// An `if` statement. [`run_ifs`] is what calling this on one context
    /// for a series of `if` statements does; over a whole chain see
    /// [`lemma_if_chain_reported_once`] and
    /// [`lemma_if_without_else_reports_nothing`].
    pub fn on_if(&self, span: Span, alternate: &Option<Box<Alternate>>, ctx: &mut FileCtx)
        ensures
            ({
                let (found, skip) = agent_if(
                    old(ctx).flags().2,
                    old(ctx).flags().3,
                    scratch_view(old(ctx).scratch).if_chain_skip,
                    span,
                    *alternate is Some,
                    else_if_chain(*alternate),
                );
                &&& final(ctx).findings() == old(ctx).findings() + found
                &&& scratch_view(final(ctx).scratch) == (ScratchView { if_chain_skip: skip, ..scratch_view(old(ctx).scratch) })
            }),
            final(ctx).imports == old(ctx).imports,
            final(ctx).stack@ == old(ctx).stack@,
            final(ctx).flags() == old(ctx).flags(),
    {
        let ghost before = scratch_view(ctx.scratch);
        if !ctx.agent_active() {
            assert(old(ctx).findings() + none() =~= old(ctx).findings());
            assert(scratch_view(ctx.scratch) =~= (ScratchView { if_chain_skip: before.if_chain_skip, ..before }));
            return;
        }
        let ghost skip = ctx.scratch.if_chain_skip@;
        let mut j: usize = 0;
        while j < ctx.scratch.if_chain_skip.len() && ctx.scratch.if_chain_skip[j] != span.start
            invariant
                j <= skip.len(),
                ctx.scratch.if_chain_skip@ == skip,
                first_position(skip, span.start, 0) == first_position(skip, span.start, j as int),
            decreases skip.len() - j,
        {
            j += 1;
        }
        if j < ctx.scratch.if_chain_skip.len() {
            ctx.scratch.if_chain_skip.swap_remove(j);
            assert(old(ctx).findings() + none() =~= old(ctx).findings());
            assert(scratch_view(ctx.scratch) =~= (ScratchView {
                if_chain_skip: skip.update(j as int, skip.last()).drop_last(),
                ..before
            }));
            return;
        }
        if alternate.is_none() {
            assert(old(ctx).findings() + none() =~= old(ctx).findings());
            assert(scratch_view(ctx.scratch) =~= (ScratchView { if_chain_skip: skip, ..before }));
            return;
        }
        push_else_if_starts(alternate, &mut ctx.scratch.if_chain_skip);
        assert(scratch_view(ctx.scratch) =~= (ScratchView { if_chain_skip: skip + else_if_chain(*alternate), ..before }));
        ctx.report_agent(
            if_else_chain_meta(),
            keyword(span, 2),
            owned("if/else chain — use early returns, a lookup map, or Match.exhaustive"),
        );
    }

    /// A conditional expression.
    pub fn on_conditional(&self, span: Span, ctx: &mut FileCtx)
        ensures
            final(ctx).findings() == old(ctx).findings() + agent_conditional_findings(old(ctx).flags().2, old(ctx).flags().3, span),
            final(ctx).same_walk(old(ctx)),
    {
        report_if(ctx.agent_active(), ternary_meta(), span, owned("ternary — extract a named helper or use Match.when/orElse"), ctx);
    }

    /// A binary or logical expression.
    pub fn on_binary(&self, operator: &str, left: &Expr, right: &Expr, span: Span, ctx: &mut FileCtx)
        ensures
            final(ctx).findings() == old(ctx).findings() + agent_binary_findings(
                old(ctx).flags().2,
                old(ctx).flags().3,
                operator@,
                *left,
                *right,
                span,
            ),
            final(ctx).same_walk(old(ctx)),
    {
        if !ctx.agent_active() || !is_equality(operator) {
            assert(old(ctx).findings() + none() =~= old(ctx).findings());
            return;
        }
        let loose = (str_eq(operator, "==") || str_eq(operator, "!=")) && !is_null_expr(left) && !is_null_expr(right);
        if loose {
            let message = concat5("`", operator, "` coerces — use `", operator, "=` (or Equal.equals)");
            ctx.report_agent(loose_equality_meta(), span, message);
        }
        let guard = !is_tag_member(left) && !is_tag_member(right) && (is_string_literal(left) || is_string_literal(right));
        if guard {
            let message = concat3("`", operator, "` against a string literal — use a type guard / predicate or Match.when");
            ctx.report_agent(string_equality_guard_meta(), span, message);
        }
        assert(ctx.findings() =~= old(ctx).findings() + agent_binary_findings(
            old(ctx).flags().2,
            old(ctx).flags().3,
            operator@,
            *left,
            *right,
            span,
        ));
    }

    /// A loop statement.
    pub fn on_loop(&self, span: Span, ctx: &mut FileCtx)
        ensures
            final(ctx).findings() == old(ctx).findings() + agent_loop_findings(old(ctx).flags().2, old(ctx).flags().3, span),
            final(ctx).same_walk(old(ctx)),
    {
        report_if(
            ctx.agent_active(),
            raw_loop_meta(),
            keyword(span, 3),
            owned("raw loop — use Array.map/filter/reduce or Effect.forEach / Effect.reduce"),
            ctx,
        );
    }

    /// A variable declaration.
    pub fn on_var_decl(&self, kind: &str, span: Span, ctx: &mut FileCtx)
        ensures
            final(ctx).findings() == old(ctx).findings() + agent_var_decl_findings(old(ctx).flags().2, old(ctx).flags().3, kind@, span),
            final(ctx).same_walk(old(ctx)),
    {
        let active = ctx.agent_active() && (str_eq(kind, "let") || str_eq(kind, "var"));
        let message = concat3("`", kind, "` signals mutation — bind with const and build values functionally");
        report_if(active, let_binding_meta(), keyword(span, 3), message, ctx);
    }

    /// An assignment.
    pub fn on_assignment(&self, to_identifier: bool, span: Span, ctx: &mut FileCtx)
        ensures
            final(ctx).findings() == old(ctx).findings() + agent_assignment_findings(old(ctx).flags().2, old(ctx).flags().3, to_identifier, span),
            final(ctx).same_walk(old(ctx)),
    {
        let kind = if to_identifier {
            "reassignment"
        } else {
            "in-place mutation"
        };
        let message = concat2(kind, " — derive the final value once (const + Match/reduce/pipe) instead of building it up");
        report_if(ctx.agent_active(), mutation_meta(), span, message, ctx);
    }

    /// A dynamic `import(...)`.
    pub fn on_import_expression(&self, span: Span, ctx: &mut FileCtx)
        ensures
            final(ctx).findings() == old(ctx).findings() + agent_import_expression_findings(old(ctx).flags().2, old(ctx).flags().3, span),
            final(ctx).same_walk(old(ctx)),
    {
        report_if(
            ctx.agent_active(),
            inline_import_meta(),
            keyword(span, 6),
            owned("inline dynamic import() — hoist to a top-level `import` unless this is deliberate code-splitting"),
            ctx,
        );
    }

    /// A call expression.
    pub fn on_call(&self, call: &CallExpr, ctx: &mut FileCtx)
        ensures
            final(ctx).findings() == old(ctx).findings() + agent_call_findings(old(ctx).flags().2, old(ctx).flags().3, *call),
            final(ctx).same_walk(old(ctx)),
    {
        if !ctx.agent_active() {
            assert(old(ctx).findings() + none() =~= old(ctx).findings());
            return;
        }
        let require = match ident_name(&call.callee) {
            Some(name) => str_eq(name, "require"),
            None => false,
        };
        if require {
            ctx.report_agent(inline_import_meta(), call.span, owned("require(...) — use a static top-level ESM `import` instead"));
            assert(ctx.findings() =~= old(ctx).findings() + agent_call_findings(old(ctx).flags().2, old(ctx).flags().3, *call));
            return;
        }
        if is_schema_parse(call) {
            ctx.report_agent(
                safe_parse_meta(),
                call.span,
                owned("Schema.parse() throws — prefer .safeParse() / decode-to-Either and handle the failure"),
            );
            assert(ctx.findings() =~= old(ctx).findings() + agent_call_findings(old(ctx).flags().2, old(ctx).flags().3, *call));
            return;
        }
        match static_member(&call.callee) {
            Some((object, prop)) => {
                let promise = match ident_name(object) {
                    Some(name) => str_eq(name, "Promise"),
                    None => false,
                };
                if promise && (str_eq(prop, "all") || str_eq(prop, "allSettled")) && call.arguments.len() > 0 && is_map_call(
                    &call.arguments[0],
                ) {
                    let message = concat3("Promise.", prop, "(arr.map(...)) — cap with p-limit or Effect.forEach { concurrency }");
                    ctx.report_agent(unbounded_promise_all_meta(), call.span, message);
                }
            },
            None => {},
        }
        assert(ctx.findings() =~= old(ctx).findings() + agent_call_findings(old(ctx).flags().2, old(ctx).flags().3, *call));
    }

    /// A function or arrow function, with its body's structural summary.
    pub fn on_function(&self, f: &FunctionExpr, shape: &Option<BodyShape>, ctx: &mut FileCtx)
        ensures
            final(ctx).findings() == old(ctx).findings() + agent_function_findings(old(ctx).flags().2, old(ctx).flags().3, *f, *shape),
            scratch_view(final(ctx).scratch) == agent_function_scratch(old(ctx).flags().2, scratch_view(old(ctx).scratch), *f, *shape),
            final(ctx).imports == old(ctx).imports,
            final(ctx).stack@ == old(ctx).stack@,
            final(ctx).flags() == old(ctx).flags(),
    {
        if !ctx.agent_active() {
            assert(old(ctx).findings() + none() =~= old(ctx).findings());
            return;
        }
        if f.param_count > MAX_AGENT_PARAMS {
            let count = to_decimal(f.param_count as u64);
            let message = concat2(count.as_str(), " parameters — pass a single named options object");
            ctx.report_agent(too_many_params_meta(), keyword(f.span, 1), message);
        }
        let ghost after_params = ctx.findings();
        match shape {
            Some(s) => {
                ctx.scratch.fn_fingerprints.push((s.identity_hash, f.span));
                if s.max_depth > MAX_AGENT_DEPTH {
                    let depth = to_decimal(s.max_depth as u64);
                    let message = concat3("nested ", depth.as_str(), " levels deep — flatten with guard clauses or extract a helper");
                    ctx.report_agent(deep_nesting_meta(), keyword(f.span, 1), message);
                }
                if s.complexity > MAX_AGENT_COMPLEXITY {
                    let complexity = to_decimal(s.complexity as u64);
                    let message = concat3("cyclomatic complexity ", complexity.as_str(), " — split into smaller functions or use Match");
                    ctx.report_agent(high_complexity_meta(), keyword(f.span, 1), message);
                }
            },
            None => {},
        }
        assert(ctx.findings() =~= old(ctx).findings() + agent_function_findings(old(ctx).flags().2, old(ctx).flags().3, *f, *shape));
        assert(scratch_view(ctx.scratch) =~= agent_function_scratch(old(ctx).flags().2, scratch_view(old(ctx).scratch), *f, *shape));
    }

    /// The end of the file: reports every function whose body shares its
    /// shape with another, in order of position, and clears the fingerprints.
    pub fn on_file_end(&self, ctx: &mut FileCtx)
        ensures
            final(ctx).findings() == old(ctx).findings() + agent_end_findings(old(ctx).flags().2, scratch_view(old(ctx).scratch).fingerprints),
            scratch_view(final(ctx).scratch) == (ScratchView {
                fingerprints: if old(ctx).flags().2 { Seq::empty() } else { scratch_view(old(ctx).scratch).fingerprints },
                ..scratch_view(old(ctx).scratch)
            }),
            final(ctx).imports == old(ctx).imports,
            final(ctx).stack@ == old(ctx).stack@,
            final(ctx).flags() == old(ctx).flags(),
    {
        if !ctx.agent_active() {
            assert(old(ctx).findings() + none() =~= old(ctx).findings());
            assert(scratch_view(ctx.scratch) =~= (ScratchView {
                fingerprints: scratch_view(old(ctx).scratch).fingerprints,
                ..scratch_view(old(ctx).scratch)
            }));
            return;
        }
        let mut fps: Vec<(u64, Span)> = Vec::new();
        std::mem::swap(&mut fps, &mut ctx.scratch.fn_fingerprints);
        assert(scratch_view(ctx.scratch) =~= (ScratchView { fingerprints: Seq::empty(), ..scratch_view(old(ctx).scratch) }));
        let mut duplicated: Vec<Span> = Vec::new();
        let mut i: usize = 0;
        while i < fps.len()
            invariant
                i <= fps@.len(),
                duplicated@ == duplicated_upto(fps@, fps@.take(i as int)),
            decreases fps@.len() - i,
        {
            assert(fps@.take(i + 1).drop_last() =~= fps@.take(i as int));
            let hash = fps[i].0;
            let mut count: usize = 0;
            let mut j: usize = 0;
            while j < fps.len()
                invariant
                    j <= fps@.len(),
                    count == hash_count(fps@.take(j as int), hash),
                    count <= j,
                decreases fps@.len() - j,
            {
                assert(fps@.take(j + 1).drop_last() =~= fps@.take(j as int));
                if fps[j].0 == hash {
                    count += 1;
                }
                j += 1;
            }
            assert(fps@.take(j as int) =~= fps@);
            if count >= 2 {
                duplicated.push(fps[i].1);
            }
            i += 1;
        }
        assert(fps@.take(i as int) =~= fps@);
        let mut sorted: Vec<Span> = Vec::new();
        let mut k: usize = 0;
        while k < duplicated.len()
            invariant
                k <= duplicated@.len(),
                sorted@ == sort_by_start(duplicated@.take(k as int)),
            decreases duplicated@.len() - k,
        {
            assert(duplicated@.take(k + 1).drop_last() =~= duplicated@.take(k as int));
            insert_span(&mut sorted, duplicated[k]);
            k += 1;
        }
        assert(duplicated@.take(k as int) =~= duplicated@);
        let ghost start = ctx.findings();
        let ghost cleared = scratch_view(ctx.scratch);
        let mut m: usize = 0;
        assert(start + duplicate_findings_of(sorted@.take(0)) =~= start);
        while m < sorted.len()
            invariant
                m <= sorted@.len(),
                ctx.findings() == start + duplicate_findings_of(sorted@.take(m as int)),
                scratch_view(ctx.scratch) == cleared,
                ctx.imports == old(ctx).imports,
                ctx.stack@ == old(ctx).stack@,
                ctx.flags() == old(ctx).flags(),
            decreases sorted@.len() - m,
        {
            assert(sorted@.take(m + 1).drop_last() =~= sorted@.take(m as int));
            ctx.report(
                duplicate_function_meta(),
                keyword(sorted[m], 1),
                owned("function body is structurally identical to another in this file — extract a shared helper"),
            );
            assert(ctx.findings() =~= start + duplicate_findings_of(sorted@.take(m + 1)));
            m += 1;
        }
        assert(sorted@.take(m as int) =~= sorted@);
    }
}

} // verus!

verus! {

/// Every finding is reported as an error.
pub open spec fn escalated(fs: Seq<Finding>) -> bool {
    forall|i: int| 0 <= i < fs.len() ==> (#[trigger] fs[i]).3 == Some(Severity::Error)
}

/// Every finding keeps its rule's own severity.
pub open spec fn unescalated(fs: Seq<Finding>) -> bool {
    forall|i: int| 0 <= i < fs.len() ==> (#[trigger] fs[i]).3 == None::<Severity>
}

proof fn lemma_specifiers_escalated(specifiers: Seq<ImportSpecifier>)
    ensures
        escalated(agent_specifiers_findings(true, specifiers)),
    decreases specifiers.len(),
{
    if specifiers.len() > 0 {
        lemma_specifiers_escalated(specifiers.drop_last());
        let prior = agent_specifiers_findings(true, specifiers.drop_last());
        let here = agent_specifier_findings(true, specifiers.last());
        assert forall|i: int| 0 <= i < (prior + here).len() implies (#[trigger] (prior + here)[i]).3 == Some(Severity::Error) by {
            if i >= prior.len() {
                assert((prior + here)[i] == here[i - prior.len()]);
            }
        }
    }
}

proof fn lemma_duplicates_unescalated(spans: Seq<Span>)
    ensures
        unescalated(duplicate_findings_of(spans)),
    decreases spans.len(),
{
    if spans.len() > 0 {
        lemma_duplicates_unescalated(spans.drop_last());
        let prior = duplicate_findings_of(spans.drop_last());
        let here = one(
            duplicate_function_meta(),
            keyword_span(spans.last(), 1),
            "function body is structurally identical to another in this file — extract a shared helper"@,
        );
        assert forall|i: int| 0 <= i < (prior + here).len() implies (#[trigger] (prior + here)[i]).3 == None::<Severity> by {
            if i >= prior.len() {
                assert((prior + here)[i] == here[i - prior.len()]);
            }
        }
    }
}

/// The agent family is opt-in: with agent mode off, none of its checks
/// reports anything, and an `if` leaves the chain records as they were.
pub proof fn lemma_agent_family_opt_in(
    strict: bool,
    stack: Seq<FrameKind>,
    span: Span,
    operator: Seq<char>,
    annotation: Option<Seq<char>>,
    decl: ImportDecl,
    t: TryStmt,
    skip: Seq<u32>,
    has_alternate: bool,
    else_if_starts: Seq<u32>,
    left: Expr,
    right: Expr,
    to_identifier: bool,
    call: CallExpr,
    f: FunctionExpr,
    shape: Option<BodyShape>,
    fingerprints: Seq<(u64, Span)>,
)
    ensures
        agent_namespace_findings(false, strict, span) == none(),
        agent_throw_findings(false, strict, stack, span) == none(),
        agent_unary_findings(false, strict, operator, span) == none(),
        agent_import_type_findings(false, strict, span) == none(),
        agent_non_null_findings(false, strict, span) == none(),
        agent_enum_findings(false, strict, span) == none(),
        agent_as_findings(false, strict, annotation, span) == none(),
        agent_any_findings(false, strict, span) == none(),
        agent_import_findings(false, strict, decl, span) == none(),
        agent_try_findings(false, strict, stack, t) == none(),
        agent_if(false, strict, skip, span, has_alternate, else_if_starts) == (none(), skip),
        agent_conditional_findings(false, strict, span) == none(),
        agent_binary_findings(false, strict, operator, left, right, span) == none(),
        agent_loop_findings(false, strict, span) == none(),
        agent_var_decl_findings(false, strict, operator, span) == none(),
        agent_assignment_findings(false, strict, to_identifier, span) == none(),
        agent_import_expression_findings(false, strict, span) == none(),
        agent_call_findings(false, strict, call) == none(),
        agent_function_findings(false, strict, f, shape) == none(),
        agent_end_findings(false, fingerprints) == none(),
{
}

/// Under strict agent mode every finding of the family is an error, except
/// the duplicate-body suggestions, which keep their own severity.
pub proof fn lemma_agent_strict_escalates(
    agent: bool,
    stack: Seq<FrameKind>,
    span: Span,
    operator: Seq<char>,
    annotation: Option<Seq<char>>,
    decl: ImportDecl,
    t: TryStmt,
    skip: Seq<u32>,
    has_alternate: bool,
    else_if_starts: Seq<u32>,
    left: Expr,
    right: Expr,
    to_identifier: bool,
    call: CallExpr,
    f: FunctionExpr,
    shape: Option<BodyShape>,
    fingerprints: Seq<(u64, Span)>,
)
    ensures
        escalated(agent_namespace_findings(agent, true, span)),
        escalated(agent_throw_findings(agent, true, stack, span)),
        escalated(agent_unary_findings(agent, true, operator, span)),
        escalated(agent_import_type_findings(agent, true, span)),
        escalated(agent_non_null_findings(agent, true, span)),
        escalated(agent_enum_findings(agent, true, span)),
        escalated(agent_as_findings(agent, true, annotation, span)),
        escalated(agent_any_findings(agent, true, span)),
        escalated(agent_import_findings(agent, true, decl, span)),
        escalated(agent_try_findings(agent, true, stack, t)),
        escalated(agent_if(agent, true, skip, span, has_alternate, else_if_starts).0),
        escalated(agent_conditional_findings(agent, true, span)),
        escalated(agent_binary_findings(agent, true, operator, left, right, span)),
        escalated(agent_loop_findings(agent, true, span)),
        escalated(agent_var_decl_findings(agent, true, operator, span)),
        escalated(agent_assignment_findings(agent, true, to_identifier, span)),
        escalated(agent_import_expression_findings(agent, true, span)),
        escalated(agent_call_findings(agent, true, call)),
        escalated(agent_function_findings(agent, true, f, shape)),
        unescalated(agent_end_findings(agent, fingerprints)),
{
    match decl.specifiers {
        Some(specifiers) => lemma_specifiers_escalated(specifiers@),
        None => {},
    }
    if agent {
        lemma_duplicates_unescalated(sort_by_start(duplicated_upto(fingerprints, fingerprints)));
        let import_all = agent_import_findings(agent, true, decl, span);
        let binary_all = agent_binary_findings(agent, true, operator, left, right, span);
        let function_all = agent_function_findings(agent, true, f, shape);
        assert(escalated(import_all));
        assert(escalated(binary_all));
        assert(escalated(function_all));
    }
}

} // verus!

verus! {

/// The `if` statements of a chain run through [`agent_if`] in order, from
/// the records `skip`: the findings, and the records after the last.
pub open spec fn run_ifs(agent: bool, strict: bool, skip: Seq<u32>, ifs: Seq<(Span, bool, Seq<u32>)>) -> (Seq<Finding>, Seq<u32>)
    decreases ifs.len(),
{
    if ifs.len() == 0 {
        (none(), skip)
    } else {
        let (found, rest) = run_ifs(agent, strict, skip, ifs.drop_last());
        let (more, after) = agent_if(agent, strict, rest, ifs.last().0, ifs.last().1, ifs.last().2);
        (found + more, after)
    }
}

proof fn lemma_first_position(s: Seq<u32>, v: u32, i: int)
    requires
        0 <= i,
    ensures
        match first_position(s, v, i) {
            Some(j) => i <= j < s.len() && s[j] == v,
            None => forall|j: int| i <= j < s.len() ==> s[j] != v,
        },
    decreases s.len() - i,
{
    if i < s.len() && s[i] != v {
        lemma_first_position(s, v, i + 1);
    }
}

/// Removing the record at `i` keeps every other record.
proof fn lemma_forget_keeps(s: Seq<u32>, i: int, x: u32)
    requires
        0 <= i < s.len(),
        s.contains(x),
        x != s[i],
    ensures
        s.update(i, s.last()).drop_last().contains(x),
{
    let m = choose|m: int| 0 <= m < s.len() && s[m] == x;
    let t = s.update(i, s.last()).drop_last();
    if m == s.len() - 1 {
        assert(t[i] == x);
    } else {
        assert(t[m] == x);
    }
}

/// `x` occurs at most once among the records `s`.
pub open spec fn at_most_once(s: Seq<u32>, x: u32) -> bool {
    forall|a: int, b: int| #![trigger s[a], s[b]] 0 <= a < s.len() && 0 <= b < s.len() && s[a] == x && s[b] == x ==> a == b
}

/// Removing the record at `i` adds no record.
proof fn lemma_forget_adds_nothing(s: Seq<u32>, i: int, y: u32)
    requires
        0 <= i < s.len(),
        !s.contains(y),
    ensures
        !s.update(i, s.last()).drop_last().contains(y),
{
    let t = s.update(i, s.last()).drop_last();
    if t.contains(y) {
        let m = choose|m: int| 0 <= m < t.len() && t[m] == y;
        if m == i {
            assert(s[s.len() - 1] == y);
        } else {
            assert(s[m] == y);
        }
    }
}

/// Removing the only record of a value leaves none of it.
proof fn lemma_forget_only(s: Seq<u32>, i: int)
    requires
        0 <= i < s.len(),
        at_most_once(s, s[i]),
    ensures
        !s.update(i, s.last()).drop_last().contains(s[i]),
{
    let x = s[i];
    let t = s.update(i, s.last()).drop_last();
    if t.contains(x) {
        let m = choose|m: int| 0 <= m < t.len() && t[m] == x;
        if m == i {
            assert(s[s.len() - 1] == x);
            assert(s[i] == x);
        } else {
            assert(s[m] == x && s[i] == x);
        }
    }
}

/// Removing a record keeps a value that occurred at most once so.
proof fn lemma_forget_keeps_once(s: Seq<u32>, i: int, y: u32)
    requires
        0 <= i < s.len(),
        at_most_once(s, y),
    ensures
        at_most_once(s.update(i, s.last()).drop_last(), y),
{
    let t = s.update(i, s.last()).drop_last();
    assert forall|a: int, b: int| #![trigger t[a], t[b]] 0 <= a < t.len() && 0 <= b < t.len() && t[a] == y && t[b] == y implies a == b by {
        let fa = if a == i { s.len() - 1 } else { a };
        let fb = if b == i { s.len() - 1 } else { b };
        assert(s[fa] == y && s[fb] == y);
    }
}

/// The chain `head` then `links`, the head naming the links' starts.
pub open spec fn if_chain(head: Span, links: Seq<(Span, bool, Seq<u32>)>) -> Seq<(Span, bool, Seq<u32>)> {
    seq![(head, true, links.map_values(|l: (Span, bool, Seq<u32>)| l.0.start))] + links
}

proof fn lemma_chain_prefix(strict: bool, skip: Seq<u32>, head: Span, links: Seq<(Span, bool, Seq<u32>)>, j: int)
    requires
        forall|k: int| 0 <= k < links.len() ==> !skip.contains(#[trigger] links[k].0.start) && links[k].0.start != head.start,
        !skip.contains(head.start),
        forall|a: int, b: int| 0 <= a < b < links.len() ==> links[a].0.start != links[b].0.start,
        0 <= j <= links.len(),
    ensures
        run_ifs(true, strict, skip, if_chain(head, links).take(j + 1)).0 == agent_one(
            strict,
            if_else_chain_meta(),
            keyword_span(head, 2),
            "if/else chain — use early returns, a lookup map, or Match.exhaustive"@,
        ),
        forall|k: int| j <= k < links.len() ==> run_ifs(true, strict, skip, if_chain(head, links).take(j + 1)).1.contains(
            #[trigger] links[k].0.start,
        ),
        forall|k: int| 0 <= k < j ==> !run_ifs(true, strict, skip, if_chain(head, links).take(j + 1)).1.contains(
            #[trigger] links[k].0.start,
        ),
        forall|k: int| 0 <= k < links.len() ==> at_most_once(
            run_ifs(true, strict, skip, if_chain(head, links).take(j + 1)).1,
            #[trigger] links[k].0.start,
        ),
        !run_ifs(true, strict, skip, if_chain(head, links).take(j + 1)).1.contains(head.start),
    decreases j,
{
    let all = if_chain(head, links);
    let starts = links.map_values(|l: (Span, bool, Seq<u32>)| l.0.start);
    if j == 0 {
        lemma_first_position(skip, head.start, 0);
        assert(all.take(1).drop_last() =~= Seq::<(Span, bool, Seq<u32>)>::empty());
        assert(all.take(1).last() == (head, true, starts));
        assert(run_ifs(true, strict, skip, all.take(1).drop_last()) == (none(), skip));
        assert(first_position(skip, head.start, 0) is None);
        let after = skip + starts;
        assert(agent_if(true, strict, skip, head, true, starts).1 == after);
        assert(agent_if(true, strict, skip, head, true, starts).0.len() == 1);
        assert(run_ifs(true, strict, skip, all.take(1)) == (none() + agent_if(true, strict, skip, head, true, starts).0, after));
        assert forall|k: int| 0 <= k < links.len() implies after.contains(#[trigger] links[k].0.start) by {
            assert(after[skip.len() + k] == starts[k]);
        }
        assert forall|k: int| 0 <= k < links.len() implies at_most_once(after, #[trigger] links[k].0.start) by {
            let x = links[k].0.start;
            assert forall|a: int, b: int| #![trigger after[a], after[b]] 0 <= a < after.len() && 0 <= b < after.len() && after[a] == x && after[b] == x implies a == b by {
                if a < skip.len() {
                    assert(skip[a] == x);
                }
                if b < skip.len() {
                    assert(skip[b] == x);
                }
                assert(starts[a - skip.len()] == links[a - skip.len()].0.start);
                assert(starts[b - skip.len()] == links[b - skip.len()].0.start);
            }
        }
        if after.contains(head.start) {
            let m = choose|m: int| 0 <= m < after.len() && after[m] == head.start;
            if m < skip.len() {
                assert(skip[m] == head.start);
            } else {
                assert(starts[m - skip.len()] == links[m - skip.len()].0.start);
            }
        }
    } else {
        lemma_chain_prefix(strict, skip, head, links, j - 1);
        let before = run_ifs(true, strict, skip, all.take(j));
        let link = links[j - 1];
        assert(all.take(j + 1).drop_last() =~= all.take(j));
        assert(all.take(j + 1).last() == link);
        assert(before.1.contains(link.0.start));
        lemma_first_position(before.1, link.0.start, 0);
        let i = first_position(before.1, link.0.start, 0).unwrap();
        assert(agent_if(true, strict, before.1, link.0, link.1, link.2) == (none(), before.1.update(i, before.1.last()).drop_last()));
        assert(run_ifs(true, strict, skip, all.take(j + 1)) == (before.0 + none(), before.1.update(i, before.1.last()).drop_last()));
        assert forall|k: int| j <= k < links.len() implies run_ifs(true, strict, skip, all.take(j + 1)).1.contains(
            #[trigger] links[k].0.start,
        ) by {
            assert(before.1.contains(links[k].0.start));
            lemma_forget_keeps(before.1, i, links[k].0.start);
        }
        let t = before.1.update(i, before.1.last()).drop_last();
        assert forall|k: int| 0 <= k < j implies !t.contains(#[trigger] links[k].0.start) by {
            if k < j - 1 {
                lemma_forget_adds_nothing(before.1, i, links[k].0.start);
            } else {
                assert(at_most_once(before.1, links[k].0.start));
                lemma_forget_only(before.1, i);
            }
        }
        assert forall|k: int| 0 <= k < links.len() implies at_most_once(t, #[trigger] links[k].0.start) by {
            assert(at_most_once(before.1, links[k].0.start));
            lemma_forget_keeps_once(before.1, i, links[k].0.start);
        }
        lemma_forget_adds_nothing(before.1, i, head.start);
        assert(run_ifs(true, strict, skip, all.take(j + 1)).0 =~= before.0);
    }
}

/// An `if` without an `else` branch, met outside any chain, reports nothing
/// and leaves the records as they were.
pub proof fn lemma_if_without_else_reports_nothing(strict: bool, skip: Seq<u32>, head: Span, starts: Seq<u32>)
    requires
        !skip.contains(head.start),
    ensures
        agent_if(true, strict, skip, head, false, starts) == (none(), skip),
{
    lemma_first_position(skip, head.start, 0);
    if first_position(skip, head.start, 0) is Some {
        assert(skip[first_position(skip, head.start, 0).unwrap()] == head.start);
    }
}

/// An `if`/`else` chain is reported once: its head reports one
/// `agent-no-if-else-chain` finding at its `if` keyword, and each of its
/// `else if` links, met after it, reports nothing, whatever records came
/// before (none of them naming a start of the chain). Afterwards the
/// records name no start of the chain.
pub proof fn lemma_if_chain_reported_once(strict: bool, skip: Seq<u32>, head: Span, links: Seq<(Span, bool, Seq<u32>)>)
    requires
        forall|k: int| 0 <= k < links.len() ==> !skip.contains(#[trigger] links[k].0.start) && links[k].0.start != head.start,
        !skip.contains(head.start),
        forall|a: int, b: int| 0 <= a < b < links.len() ==> links[a].0.start != links[b].0.start,
    ensures
        run_ifs(true, strict, skip, if_chain(head, links)).0 == agent_one(
            strict,
            if_else_chain_meta(),
            keyword_span(head, 2),
            "if/else chain — use early returns, a lookup map, or Match.exhaustive"@,
        ),
        forall|k: int| 0 <= k < links.len() ==> !run_ifs(true, strict, skip, if_chain(head, links)).1.contains(
            #[trigger] links[k].0.start,
        ),
        !run_ifs(true, strict, skip, if_chain(head, links)).1.contains(head.start),
{
    lemma_chain_prefix(strict, skip, head, links, links.len() as int);
    assert(if_chain(head, links).take(links.len() as int + 1) =~= if_chain(head, links));
}

} // verus!
