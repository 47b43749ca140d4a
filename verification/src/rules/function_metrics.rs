//! Maintainability metrics, computed per function: parameter count, maximum
//! nesting depth, and cognitive complexity (a score that rewards flat,
//! linear control flow). Always on, as warnings that escalate to errors
//! under strict agent mode.
use vstd::prelude::*;

use crate::ast::{Flow, FunctionExpr};
use crate::diagnostics::{Category, RuleMeta, Severity, Span};
use crate::rules::{none, FileCtx, Finding};
use crate::text::{concat2, concat3, decimal, str_eq, to_decimal};

verus! {

/// Functions with more parameters than this are reported.
pub const MAX_PARAMETERS: usize = 4;

/// The deepest control-flow nesting allowed.
pub const MAX_NESTING: u32 = 4;

/// The highest cognitive complexity allowed.
pub const MAX_COGNITIVE: u32 = 15;

/// Catalog metadata of `max-function-parameters`.
#[verifier::allow_in_spec]
pub fn max_params_meta() -> RuleMeta
    returns
        (RuleMeta {
            id: "max-function-parameters",
            severity: Severity::Warn,
            category: Category::Maintainability,
            help: "A long parameter list is hard to call correctly and usually signals the function does too much. Group related arguments into a single options object (or a Data/Schema struct).",
        }),
{
    RuleMeta {
        id: "max-function-parameters",
        severity: Severity::Warn,
        category: Category::Maintainability,
        help: "A long parameter list is hard to call correctly and usually signals the function does too much. Group related arguments into a single options object (or a Data/Schema struct).",
    }
}

/// Catalog metadata of `max-nesting-depth`.
#[verifier::allow_in_spec]
pub fn max_nesting_meta() -> RuleMeta
    returns
        (RuleMeta {
            id: "max-nesting-depth",
            severity: Severity::Warn,
            category: Category::Maintainability,
            help: "Deeply nested control flow is hard to follow and test. Flatten with early returns/guard clauses, extract inner blocks into named helpers, or use Match / Effect combinators.",
        }),
{
    RuleMeta {
        id: "max-nesting-depth",
        severity: Severity::Warn,
        category: Category::Maintainability,
        help: "Deeply nested control flow is hard to follow and test. Flatten with early returns/guard clauses, extract inner blocks into named helpers, or use Match / Effect combinators.",
    }
}

/// Catalog metadata of `high-cognitive-complexity`.
#[verifier::allow_in_spec]
pub fn high_cognitive_meta() -> RuleMeta
    returns
        (RuleMeta {
            id: "high-cognitive-complexity",
            severity: Severity::Warn,
            category: Category::Maintainability,
            help: "High cognitive complexity (many branches and nested conditions) means the function is hard to reason about. Split it into smaller named functions, or replace branching with Match / lookup maps / Effect combinators.",
        }),
{
    RuleMeta {
        id: "high-cognitive-complexity",
        severity: Severity::Warn,
        category: Category::Maintainability,
        help: "High cognitive complexity (many branches and nested conditions) means the function is hard to reason about. Split it into smaller named functions, or replace branching with Match / lookup maps / Effect combinators.",
    }
}

/// `&&` and `||` cost one each; `??` costs nothing.
pub open spec fn logical_cost(operator: Seq<char>) -> nat {
    if operator == "&&"@ || operator == "||"@ {
        1
    } else {
        0
    }
}

/// The cognitive complexity of a node at nesting level `n`: each branch
/// costs one plus its nesting level, an `else` one, `&&` / `||` one.
pub open spec fn cost(f: Flow, n: nat) -> nat
    decreases f, 0int,
{
    match f {
        Flow::If { test, consequent, alternate } => cost_list(test@, n, 0) + 1 + n + cost_list(consequent@, n + 1, 0) + match alternate {
            Some(a) => match *a {
                Flow::If { .. } => cost(*a, n),
                _ => 1 + cost(*a, n + 1),
            },
            None => 0,
        },
        Flow::Nest { children } => 1 + n + cost_list(children@, n + 1, 0),
        Flow::Logical { operator, children } => logical_cost(operator@) + cost_list(children@, n, 0),
        Flow::Block { children } => cost_list(children@, n, 0),
    }
}

/// The total cost of `fs[i..]` at nesting level `n`.
pub open spec fn cost_list(fs: Seq<Flow>, n: nat, i: int) -> nat
    decreases fs, fs.len() - i,
{
    if i < 0 || i >= fs.len() {
        0
    } else {
        cost(fs[i], n) + cost_list(fs, n, i + 1)
    }
}

/// The larger of two numbers.
pub open spec fn max_nat(a: nat, b: nat) -> nat {
    if a >= b {
        a
    } else {
        b
    }
}

/// The deepest nesting level a node reaches from level `n` (0 where it
/// opens no level): each branch body, `else` branch, loop, `switch`,
/// `catch` and conditional opens one.
pub open spec fn depth(f: Flow, n: nat) -> nat
    decreases f, 0int,
{
    match f {
        Flow::If { test, consequent, alternate } => max_nat(
            max_nat(depth_list(test@, n, 0), n + 1),
            max_nat(
                depth_list(consequent@, n + 1, 0),
                match alternate {
                    Some(a) => match *a {
                        Flow::If { .. } => depth(*a, n),
                        _ => max_nat(n + 1, depth(*a, n + 1)),
                    },
                    None => 0,
                },
            ),
        ),
        Flow::Nest { children } => max_nat(n + 1, depth_list(children@, n + 1, 0)),
        Flow::Logical { children, .. } => depth_list(children@, n, 0),
        Flow::Block { children } => depth_list(children@, n, 0),
    }
}

/// The deepest level `fs[i..]` reaches from level `n`.
pub open spec fn depth_list(fs: Seq<Flow>, n: nat, i: int) -> nat
    decreases fs, fs.len() - i,
{
    if i < 0 || i >= fs.len() {
        0
    } else {
        max_nat(depth(fs[i], n), depth_list(fs, n, i + 1))
    }
}

/// A number as a `u32`, the largest `u32` where it does not fit.
pub open spec fn clamp(x: nat) -> u32 {
    if x <= u32::MAX {
        x as u32
    } else {
        u32::MAX
    }
}

fn add_clamped(a: u32, b: u32) -> (sum: u32)
    ensures
        sum == clamp((a + b) as nat),
{
    if a > u32::MAX - b {
        u32::MAX
    } else {
        a + b
    }
}

proof fn lemma_clamp_add(a: nat, b: nat)
    ensures
        clamp((clamp(a) + clamp(b)) as nat) == clamp(a + b),
{
}

proof fn lemma_clamp_max(a: nat, b: nat)
    ensures
        clamp(max_nat(a, b)) == if clamp(a) >= clamp(b) { clamp(a) } else { clamp(b) },
{
}

fn max_u32(a: u32, b: u32) -> (m: u32)
    ensures
        m == if a >= b { a } else { b },
{
    if a >= b {
        a
    } else {
        b
    }
}

fn logical_cost_of(operator: &str) -> (c: u32)
    ensures
        c == logical_cost(operator@),
{
    if str_eq(operator, "&&") || str_eq(operator, "||") {
        1
    } else {
        0
    }
}

spec fn alternate_cost(alternate: Option<Box<Flow>>, n: nat) -> nat {
    match alternate {
        Some(a) => match *a {
            Flow::If { .. } => cost(*a, n),
            _ => 1 + cost(*a, n + 1),
        },
        None => 0,
    }
}

spec fn alternate_depth(alternate: Option<Box<Flow>>, n: nat) -> nat {
    match alternate {
        Some(a) => match *a {
            Flow::If { .. } => depth(*a, n),
            _ => max_nat(n + 1, depth(*a, n + 1)),
        },
        None => 0,
    }
}

/// The cost and depth of a node at level `n`, each clamped to a `u32`.
fn measure(f: &Flow, n: u32) -> (out: (u32, u32))
    ensures
        out.0 == clamp(cost(*f, n as nat)),
        out.1 == clamp(depth(*f, n as nat)),
    decreases f, 0int,
{
    match f {
        Flow::If { test, consequent, alternate } => {
            if n == u32::MAX {
                return (u32::MAX, u32::MAX);
            }
            let (test_cost, test_depth) = measure_list(test, n, 0);
            let (body_cost, body_depth) = measure_list(consequent, n + 1, 0);
            let (alt_cost, alt_depth) = match alternate {
                Some(a) => match &**a {
                    Flow::If { .. } => measure(&**a, n),
                    _ => {
                        let (c, d) = measure(&**a, n + 1);
                        proof {
                            lemma_clamp_add(1, cost(**a, (n + 1) as nat));
                            lemma_clamp_max((n + 1) as nat, depth(**a, (n + 1) as nat));
                        }
                        (add_clamped(1, c), max_u32(n + 1, d))
                    },
                },
                None => (0, 0),
            };
            let ghost tc = cost_list(test@, n as nat, 0);
            let ghost bc = cost_list(consequent@, (n + 1) as nat, 0);
            let ghost ac = alternate_cost(*alternate, n as nat);
            let ghost ad = alternate_depth(*alternate, n as nat);
            proof {
                lemma_clamp_add(tc, (1 + n) as nat);
                lemma_clamp_add((tc + 1 + n) as nat, bc);
                lemma_clamp_add((tc + 1 + n + bc) as nat, ac);
                lemma_clamp_max(depth_list(test@, n as nat, 0), (n + 1) as nat);
                lemma_clamp_max(depth_list(consequent@, (n + 1) as nat, 0), ad);
                lemma_clamp_max(max_nat(depth_list(test@, n as nat, 0), (n + 1) as nat), max_nat(depth_list(consequent@, (n + 1) as nat, 0), ad));
            }
            let c = add_clamped(add_clamped(add_clamped(test_cost, 1 + n), body_cost), alt_cost);
            let d = max_u32(max_u32(test_depth, n + 1), max_u32(body_depth, alt_depth));
            (c, d)
        },
        Flow::Nest { children } => {
            if n == u32::MAX {
                return (u32::MAX, u32::MAX);
            }
            let (inner_cost, inner_depth) = measure_list(children, n + 1, 0);
            proof {
                lemma_clamp_add((1 + n) as nat, cost_list(children@, (n + 1) as nat, 0));
                lemma_clamp_max((n + 1) as nat, depth_list(children@, (n + 1) as nat, 0));
            }
            (add_clamped(1 + n, inner_cost), max_u32(n + 1, inner_depth))
        },
        Flow::Logical { operator, children } => {
            let (inner_cost, inner_depth) = measure_list(children, n, 0);
            proof {
                lemma_clamp_add(logical_cost(operator@), cost_list(children@, n as nat, 0));
            }
            (add_clamped(logical_cost_of(operator.as_str()), inner_cost), inner_depth)
        },
        Flow::Block { children } => measure_list(children, n, 0),
    }
}

/// The cost and depth of `fs[i..]` at level `n`, each clamped to a `u32`.
fn measure_list(fs: &Vec<Flow>, n: u32, i: usize) -> (out: (u32, u32))
    requires
        i <= fs@.len(),
    ensures
        out.0 == clamp(cost_list(fs@, n as nat, i as int)),
        out.1 == clamp(depth_list(fs@, n as nat, i as int)),
    decreases fs@, fs@.len() - i,
{
    if i >= fs.len() {
        return (0, 0);
    }
    let (head_cost, head_depth) = measure(&fs[i], n);
    let (rest_cost, rest_depth) = measure_list(fs, n, i + 1);
    proof {
        lemma_clamp_add(cost(fs@[i as int], n as nat), cost_list(fs@, n as nat, i + 1));
        lemma_clamp_max(depth(fs@[i as int], n as nat), depth_list(fs@, n as nat, i + 1));
    }
    (add_clamped(head_cost, rest_cost), max_u32(head_depth, rest_depth))
}

/// The cognitive complexity and the deepest nesting of a function body, each
/// clamped to a `u32`.
pub fn body_metrics(body: &Vec<Flow>) -> (out: (u32, u32))
    ensures
        out.0 == clamp(cost_list(body@, 0, 0)),
        out.1 == clamp(depth_list(body@, 0, 0)),
{
    measure_list(body, 0, 0)
}

/// The finding for a long parameter list.
pub open spec fn params_findings(strict: bool, count: nat, span: Span) -> Seq<Finding> {
    if count > MAX_PARAMETERS {
        seq![(
            max_params_meta(),
            span,
            decimal(count) + " parameters (limit 4) — group them into an options object"@,
            if strict { Some(Severity::Error) } else { None::<Severity> },
        )]
    } else {
        none()
    }
}

/// The findings for a body's complexity, then its nesting.
pub open spec fn body_findings(strict: bool, body: Seq<Flow>, span: Span) -> Seq<Finding> {
    let severity = if strict { Some(Severity::Error) } else { None::<Severity> };
    let complexity = clamp(cost_list(body, 0, 0));
    let nesting = clamp(depth_list(body, 0, 0));
    (if complexity > MAX_COGNITIVE {
        seq![(
            high_cognitive_meta(),
            span,
            "cognitive complexity "@ + decimal(complexity as nat) + " (limit 15) — split it up or flatten the branching"@,
            severity,
        )]
    } else {
        none()
    }) + (if nesting > MAX_NESTING {
        seq![(
            max_nesting_meta(),
            span,
            "nesting depth "@ + decimal(nesting as nat) + " (limit 4) — flatten with early returns or extract helpers"@,
            severity,
        )]
    } else {
        none()
    })
}

/// What the metrics report for a function: its parameter count, then, where
/// it has a body, the body's complexity and nesting.
pub open spec fn function_metrics_findings(strict: bool, f: FunctionExpr, flow: Option<Seq<Flow>>) -> Seq<Finding> {
    params_findings(strict, f.param_count as nat, f.span) + match flow {
        Some(body) => body_findings(strict, body, f.span),
        None => none(),
    }
}

pub struct FunctionMetrics;

impl FunctionMetrics {
    /// The rule ids this rule owns.
    pub fn metas(&self) -> (metas: Vec<RuleMeta>)
        ensures
            metas@ == seq![max_params_meta(), max_nesting_meta(), high_cognitive_meta()],
    {
        let mut metas: Vec<RuleMeta> = Vec::new();
        metas.push(max_params_meta());
        metas.push(max_nesting_meta());
        metas.push(high_cognitive_meta());
        metas
    }

    /// A function or arrow function, with the control flow of its body
    /// (`None` for a function without a body).
    pub fn on_function(&self, f: &FunctionExpr, flow: &Option<Vec<Flow>>, ctx: &mut FileCtx)
        ensures
            final(ctx).findings() == old(ctx).findings() + function_metrics_findings(
                old(ctx).flags().3,
                *f,
                match *flow {
                    Some(body) => Some(body@),
                    None => None,
                },
            ),
            final(ctx).same_walk(old(ctx)),
    {
        let ghost start = ctx.findings();
        if f.param_count > MAX_PARAMETERS {
            let count = to_decimal(f.param_count as u64);
            let message = concat2(count.as_str(), " parameters (limit 4) — group them into an options object");
            ctx.report_agent(max_params_meta(), f.span, message);
        }
        let ghost after_params = ctx.findings();
        assert(after_params =~= start + params_findings(old(ctx).flags().3, f.param_count as nat, f.span));
        match flow {
            Some(body) => {
                let (complexity, nesting) = body_metrics(body);
                if complexity > MAX_COGNITIVE {
                    let value = to_decimal(complexity as u64);
                    let message = concat3("cognitive complexity ", value.as_str(), " (limit 15) — split it up or flatten the branching");
                    ctx.report_agent(high_cognitive_meta(), f.span, message);
                }
                if nesting > MAX_NESTING {
                    let value = to_decimal(nesting as u64);
                    let message = concat3("nesting depth ", value.as_str(), " (limit 4) — flatten with early returns or extract helpers");
                    ctx.report_agent(max_nesting_meta(), f.span, message);
                }
                assert(ctx.findings() =~= after_params + body_findings(old(ctx).flags().3, body@, f.span));
            },
            None => {
                assert(ctx.findings() =~= after_params + none());
            },
        }
    }
}

} // verus!
