//! Hand-rolled design patterns that Effect, or plain functional TypeScript,
//! replaces with a first-class primitive: Singleton, Observer, Strategy,
//! Visitor and Chain of Responsibility. Each matches a distinctive shape of
//! a class or interface. All need agent mode and escalate under strict mode.
use vstd::prelude::*;

use crate::ast::{ClassDecl, ClassMember, SignatureKind};
use crate::diagnostics::{Category, RuleMeta, Severity, Span};
use crate::rules::{agent_one, none, scratch_view, FileCtx, Finding, ScratchView};
use crate::text::{concat3, concat5, decimal, owned, seq_starts_with, str_eq, str_starts_with, to_decimal};

verus! {

/// Catalog metadata of `oop-singleton-to-layer`.
#[verifier::allow_in_spec]
pub fn singleton_meta() -> RuleMeta
    returns
        (RuleMeta {
            id: "oop-singleton-to-layer",
            severity: Severity::Warn,
            category: Category::OopToEffect,
            help: "A hand-rolled Singleton (private static instance + getInstance) is global mutable state with no lifecycle. Model it as a service: Context.Tag (or Effect.Service) + a Layer, so construction, dependencies, and teardown are explicit and testable.",
        }),
{
    RuleMeta {
        id: "oop-singleton-to-layer",
        severity: Severity::Warn,
        category: Category::OopToEffect,
        help: "A hand-rolled Singleton (private static instance + getInstance) is global mutable state with no lifecycle. Model it as a service: Context.Tag (or Effect.Service) + a Layer, so construction, dependencies, and teardown are explicit and testable.",
    }
}

/// Catalog metadata of `oop-observer-to-pubsub`.
#[verifier::allow_in_spec]
pub fn observer_meta() -> RuleMeta
    returns
        (RuleMeta {
            id: "oop-observer-to-pubsub",
            severity: Severity::Warn,
            category: Category::OopToEffect,
            help: "A hand-rolled Observer (listener array + subscribe/notify) leaks subscriptions and has no backpressure. Use PubSub for broadcast, Stream for a consumable feed, or SubscriptionRef for observable state.",
        }),
{
    RuleMeta {
        id: "oop-observer-to-pubsub",
        severity: Severity::Warn,
        category: Category::OopToEffect,
        help: "A hand-rolled Observer (listener array + subscribe/notify) leaks subscriptions and has no backpressure. Use PubSub for broadcast, Stream for a consumable feed, or SubscriptionRef for observable state.",
    }
}

/// Catalog metadata of `oop-strategy-to-function`.
#[verifier::allow_in_spec]
pub fn strategy_meta() -> RuleMeta
    returns
        (RuleMeta {
            id: "oop-strategy-to-function",
            severity: Severity::Warn,
            category: Category::OopToEffect,
            help: "A single-method interface with several class implementations is the Strategy pattern — in TypeScript that's just a function type. Replace the interface + classes with a function (or `Effect`) value passed where the strategy is needed.",
        }),
{
    RuleMeta {
        id: "oop-strategy-to-function",
        severity: Severity::Warn,
        category: Category::OopToEffect,
        help: "A single-method interface with several class implementations is the Strategy pattern — in TypeScript that's just a function type. Replace the interface + classes with a function (or `Effect`) value passed where the strategy is needed.",
    }
}

/// Catalog metadata of `oop-visitor-to-match`.
#[verifier::allow_in_spec]
pub fn visitor_meta() -> RuleMeta
    returns
        (RuleMeta {
            id: "oop-visitor-to-match",
            severity: Severity::Warn,
            category: Category::OopToEffect,
            help: "The Visitor pattern (visitX double-dispatch methods) works around the lack of pattern matching. Model the data as a tagged union (Data.TaggedClass / a discriminated union) and branch with Match.exhaustive.",
        }),
{
    RuleMeta {
        id: "oop-visitor-to-match",
        severity: Severity::Warn,
        category: Category::OopToEffect,
        help: "The Visitor pattern (visitX double-dispatch methods) works around the lack of pattern matching. Model the data as a tagged union (Data.TaggedClass / a discriminated union) and branch with Match.exhaustive.",
    }
}

/// Catalog metadata of `oop-chain-to-catchtag`.
#[verifier::allow_in_spec]
pub fn chain_meta() -> RuleMeta
    returns
        (RuleMeta {
            id: "oop-chain-to-catchtag",
            severity: Severity::Warn,
            category: Category::OopToEffect,
            help: "A Chain-of-Responsibility handler (a `next` link + handle/setNext) is sequential fallback. Compose it directly: Effect.orElse / Effect.catchTag chains for error fallback, or a list of handlers folded with Effect.firstSuccessOf / a middleware pipeline.",
        }),
{
    RuleMeta {
        id: "oop-chain-to-catchtag",
        severity: Severity::Warn,
        category: Category::OopToEffect,
        help: "A Chain-of-Responsibility handler (a `next` link + handle/setNext) is sequential fallback. Compose it directly: Effect.orElse / Effect.catchTag chains for error fallback, or a list of handlers folded with Effect.firstSuccessOf / a middleware pipeline.",
    }
}

/// The member names the patterns look for.
#[derive(Debug, Clone, Copy, PartialEq, Eq, Structural)]
pub enum NamePattern {
    /// The static field that holds a singleton.
    SingletonField,
    /// The static accessor of a singleton.
    GetInstance,
    /// A field that holds observers.
    Listeners,
    /// A method that registers an observer.
    Subscribe,
    /// A method that notifies observers.
    Notify,
    /// The link to the next handler of a chain.
    ChainNext,
    /// The method a chain handler serves with.
    Handle,
    /// The method that links the next handler.
    SetNext,
}

/// Does `name` fit the pattern?
pub open spec fn pattern_matches(p: NamePattern, name: Seq<char>) -> bool {
    match p {
        NamePattern::SingletonField => name == "instance"@ || name == "_instance"@ || name == "instance_"@ || name == "_self"@,
        NamePattern::GetInstance => name == "getInstance"@ || name == "instance"@ || name == "get_instance"@ || name == "getDefault"@,
        NamePattern::Listeners => name == "listeners"@ || name == "_listeners"@ || name == "observers"@ || name == "_observers"@ || name == "subscribers"@ || name == "_subscribers"@ || name == "subscriptions"@ || name == "handlers"@ || name == "callbacks"@,
        NamePattern::Subscribe => name == "subscribe"@ || name == "addListener"@ || name == "addObserver"@ || name == "attach"@ || name == "addEventListener"@ || name == "register"@,
        NamePattern::Notify => name == "notify"@ || name == "notifyAll"@ || name == "emit"@ || name == "publish"@ || name == "fire"@ || name == "broadcast"@ || name == "dispatch"@,
        NamePattern::ChainNext => name == "next"@ || name == "_next"@ || name == "nextHandler"@ || name == "_nextHandler"@ || name == "successor"@ || name == "nextMiddleware"@,
        NamePattern::Handle => name == "handle"@ || name == "handleRequest"@,
        NamePattern::SetNext => name == "setNext"@ || name == "setSuccessor"@ || name == "setNextHandler"@,
    }
}

/// Does `name` fit the pattern?
pub fn matches_pattern(p: NamePattern, name: &str) -> (found: bool)
    ensures
        found == pattern_matches(p, name@),
{
    match p {
        NamePattern::SingletonField => str_eq(name, "instance") || str_eq(name, "_instance") || str_eq(name, "instance_") || str_eq(name, "_self"),
        NamePattern::GetInstance => str_eq(name, "getInstance") || str_eq(name, "instance") || str_eq(name, "get_instance") || str_eq(name, "getDefault"),
        NamePattern::Listeners => str_eq(name, "listeners") || str_eq(name, "_listeners") || str_eq(name, "observers") || str_eq(name, "_observers") || str_eq(name, "subscribers") || str_eq(name, "_subscribers") || str_eq(name, "subscriptions") || str_eq(name, "handlers") || str_eq(name, "callbacks"),
        NamePattern::Subscribe => str_eq(name, "subscribe") || str_eq(name, "addListener") || str_eq(name, "addObserver") || str_eq(name, "attach") || str_eq(name, "addEventListener") || str_eq(name, "register"),
        NamePattern::Notify => str_eq(name, "notify") || str_eq(name, "notifyAll") || str_eq(name, "emit") || str_eq(name, "publish") || str_eq(name, "fire") || str_eq(name, "broadcast") || str_eq(name, "dispatch"),
        NamePattern::ChainNext => str_eq(name, "next") || str_eq(name, "_next") || str_eq(name, "nextHandler") || str_eq(name, "_nextHandler") || str_eq(name, "successor") || str_eq(name, "nextMiddleware"),
        NamePattern::Handle => str_eq(name, "handle") || str_eq(name, "handleRequest"),
        NamePattern::SetNext => str_eq(name, "setNext") || str_eq(name, "setSuccessor") || str_eq(name, "setNextHandler"),
    }
}

/// A member of the given kind (methods, or fields; only static ones where
/// `only_static`) whose name fits the pattern.
pub open spec fn member_fits(m: ClassMember, methods: bool, only_static: bool, p: NamePattern) -> bool {
    &&& m.is_method == methods
    &&& (!only_static || m.is_static)
    &&& match m.name {
        Some(n) => pattern_matches(p, n@),
        None => false,
    }
}

/// Some member fits.
pub open spec fn has_member(ms: Seq<ClassMember>, methods: bool, only_static: bool, p: NamePattern) -> bool {
    exists|i: int| 0 <= i < ms.len() && member_fits(#[trigger] ms[i], methods, only_static, p)
}

/// Does some member fit?
pub fn has_member_exec(ms: &Vec<ClassMember>, methods: bool, only_static: bool, p: NamePattern) -> (found: bool)
    ensures
        found == has_member(ms@, methods, only_static, p),
{
    let mut i: usize = 0;
    while i < ms.len()
        invariant
            i <= ms@.len(),
            forall|k: int| 0 <= k < i ==> !member_fits(#[trigger] ms@[k], methods, only_static, p),
        decreases ms@.len() - i,
    {
        let m = &ms[i];
        let fits = m.is_method == methods && (!only_static || m.is_static) && match &m.name {
            Some(n) => matches_pattern(p, n.as_str()),
            None => false,
        };
        if fits {
            assert(member_fits(ms@[i as int], methods, only_static, p));
            return true;
        }
        i += 1;
    }
    false
}

/// `visit` followed by at least one more character.
pub open spec fn is_visit_name(name: Seq<char>) -> bool {
    seq_starts_with(name, "visit"@) && name != "visit"@
}

/// The number of `visit…` methods among the members.
pub open spec fn visit_count(ms: Seq<ClassMember>) -> nat
    decreases ms.len(),
{
    if ms.len() == 0 {
        0
    } else {
        visit_count(ms.drop_last()) + if ms.last().is_method && match ms.last().name {
            Some(n) => is_visit_name(n@),
            None => false,
        } {
            1nat
        } else {
            0nat
        }
    }
}

/// The name a class is reported under.
pub open spec fn class_label(name: Option<String>) -> Seq<char> {
    match name {
        Some(n) => n@,
        None => "anonymous"@,
    }
}

fn label(name: &Option<String>) -> (out: &str)
    ensures
        out@ == class_label(*name),
{
    match name {
        Some(n) => n.as_str(),
        None => "anonymous",
    }
}

/// A static instance field with a static accessor.
pub open spec fn singleton_findings(agent: bool, strict: bool, class: ClassDecl) -> Seq<Finding> {
    if agent && has_member(class.members@, false, true, NamePattern::SingletonField) && has_member(
        class.members@,
        true,
        true,
        NamePattern::GetInstance,
    ) {
        agent_one(
            strict,
            singleton_meta(),
            class.span,
            "class "@ + class_label(class.name) + " is a hand-rolled Singleton — model it as a Context.Tag/Layer service"@,
        )
    } else {
        none()
    }
}

/// A listener field with a subscribe or notify method.
pub open spec fn observer_findings(agent: bool, strict: bool, class: ClassDecl) -> Seq<Finding> {
    let ms = class.members@;
    if agent && has_member(ms, false, false, NamePattern::Listeners) && (has_member(ms, true, false, NamePattern::Subscribe)
        || has_member(ms, true, false, NamePattern::Notify)) {
        agent_one(
            strict,
            observer_meta(),
            class.span,
            "class "@ + class_label(class.name) + " hand-rolls the Observer pattern — use PubSub / Stream / SubscriptionRef"@,
        )
    } else {
        none()
    }
}

/// Two or more `visit…` methods.
pub open spec fn visitor_findings(agent: bool, strict: bool, class: ClassDecl) -> Seq<Finding> {
    if agent && visit_count(class.members@) >= 2 {
        agent_one(
            strict,
            visitor_meta(),
            class.span,
            "class "@ + class_label(class.name) + " implements the Visitor pattern — use a tagged union + Match.exhaustive"@,
        )
    } else {
        none()
    }
}

/// A `next` link with a handle or set-next method.
pub open spec fn chain_findings(agent: bool, strict: bool, class: ClassDecl) -> Seq<Finding> {
    let ms = class.members@;
    if agent && has_member(ms, false, false, NamePattern::ChainNext) && (has_member(ms, true, false, NamePattern::Handle)
        || has_member(ms, true, false, NamePattern::SetNext)) {
        agent_one(
            strict,
            chain_meta(),
            class.span,
            "class "@ + class_label(class.name) + " is a Chain-of-Responsibility handler — compose with Effect.orElse / catchTag"@,
        )
    } else {
        none()
    }
}

/// What a class adds to the file's facts: in agent mode, the interfaces it
/// implements.
pub open spec fn strategy_class_scratch(agent: bool, scratch: ScratchView, class: ClassDecl) -> ScratchView {
    if agent {
        ScratchView {
            implemented_interfaces: scratch.implemented_interfaces + class.implements@.map_values(|name: String| name@),
            ..scratch
        }
    } else {
        scratch
    }
}

/// An interface whose body is one method signature.
pub open spec fn is_single_method(signatures: Seq<SignatureKind>) -> bool {
    signatures.len() == 1 && signatures[0] == SignatureKind::Method
}

/// What an interface adds to the file's facts: in agent mode, itself, when
/// its body is one method signature.
pub open spec fn strategy_interface_scratch(
    agent: bool,
    scratch: ScratchView,
    name: Seq<char>,
    signatures: Seq<SignatureKind>,
    span: Span,
) -> ScratchView {
    if agent && is_single_method(signatures) {
        ScratchView { single_method_interfaces: scratch.single_method_interfaces.push((name, span)), ..scratch }
    } else {
        scratch
    }
}

/// How many of the implemented names are `name`.
pub open spec fn implementer_count(implemented: Seq<Seq<char>>, name: Seq<char>) -> nat
    decreases implemented.len(),
{
    if implemented.len() == 0 {
        0
    } else {
        implementer_count(implemented.drop_last(), name) + if implemented.last() == name {
            1nat
        } else {
            0nat
        }
    }
}

/// The finding for one single-method interface.
pub open spec fn strategy_interface_findings(strict: bool, implemented: Seq<Seq<char>>, entry: (Seq<char>, Span)) -> Seq<Finding> {
    let count = implementer_count(implemented, entry.0);
    if count >= 2 {
        agent_one(
            strict,
            strategy_meta(),
            entry.1,
            "interface "@ + entry.0 + " is a single-method Strategy with "@ + decimal(count)
                + " implementations — use a function type"@,
        )
    } else {
        none()
    }
}

/// At file end, in agent mode, each single-method interface (in order) that
/// two or more classes of the file implement.
pub open spec fn strategy_end_findings(
    strict: bool,
    interfaces: Seq<(Seq<char>, Span)>,
    implemented: Seq<Seq<char>>,
) -> Seq<Finding>
    decreases interfaces.len(),
{
    if interfaces.len() == 0 {
        none()
    } else {
        strategy_end_findings(strict, interfaces.drop_last(), implemented) + strategy_interface_findings(
            strict,
            implemented,
            interfaces.last(),
        )
    }
}

/// What the class patterns report for a class, in catalog order.
pub open spec fn oop_class_findings(agent: bool, strict: bool, class: ClassDecl) -> Seq<Finding> {
    singleton_findings(agent, strict, class) + observer_findings(agent, strict, class) + visitor_findings(agent, strict, class)
        + chain_findings(agent, strict, class)
}

pub struct Singleton;

pub struct Observer;

pub struct Strategy;

pub struct Visitor;

pub struct ChainOfResponsibility;

fn count_visit_methods(ms: &Vec<ClassMember>) -> (count: usize)
    ensures
        count == visit_count(ms@),
{
    let mut count: usize = 0;
    let mut i: usize = 0;
    while i < ms.len()
        invariant
            i <= ms@.len(),
            count == visit_count(ms@.take(i as int)),
            count <= i,
        decreases ms@.len() - i,
    {
        assert(ms@.take(i + 1).drop_last() =~= ms@.take(i as int));
        let m = &ms[i];
        let visit = m.is_method && match &m.name {
            Some(n) => str_starts_with(n.as_str(), "visit") && !str_eq(n.as_str(), "visit"),
            None => false,
        };
        if visit {
            count += 1;
        }
        i += 1;
    }
    assert(ms@.take(i as int) =~= ms@);
    count
}

impl Singleton {
    /// The rule ids this rule owns.
    pub fn metas(&self) -> (metas: Vec<RuleMeta>)
        ensures
            metas@ == seq![singleton_meta()],
    {
        let mut metas: Vec<RuleMeta> = Vec::new();
        metas.push(singleton_meta());
        metas
    }

    /// A class.
    pub fn on_class(&self, class: &ClassDecl, ctx: &mut FileCtx)
        ensures
            final(ctx).findings() == old(ctx).findings() + singleton_findings(old(ctx).flags().2, old(ctx).flags().3, *class),
            final(ctx).same_walk(old(ctx)),
    {
        if ctx.agent_active() && has_member_exec(&class.members, false, true, NamePattern::SingletonField) && has_member_exec(
            &class.members,
            true,
            true,
            NamePattern::GetInstance,
        ) {
            let message = concat3("class ", label(&class.name), " is a hand-rolled Singleton — model it as a Context.Tag/Layer service");
            ctx.report_agent(singleton_meta(), class.span, message);
        }
        assert(ctx.findings() =~= old(ctx).findings() + singleton_findings(old(ctx).flags().2, old(ctx).flags().3, *class));
    }
}

impl Observer {
    /// The rule ids this rule owns.
    pub fn metas(&self) -> (metas: Vec<RuleMeta>)
        ensures
            metas@ == seq![observer_meta()],
    {
        let mut metas: Vec<RuleMeta> = Vec::new();
        metas.push(observer_meta());
        metas
    }

    /// A class.
    pub fn on_class(&self, class: &ClassDecl, ctx: &mut FileCtx)
        ensures
            final(ctx).findings() == old(ctx).findings() + observer_findings(old(ctx).flags().2, old(ctx).flags().3, *class),
            final(ctx).same_walk(old(ctx)),
    {
        let ms = &class.members;
        if ctx.agent_active() && has_member_exec(ms, false, false, NamePattern::Listeners) && (has_member_exec(
            ms,
            true,
            false,
            NamePattern::Subscribe,
        ) || has_member_exec(ms, true, false, NamePattern::Notify)) {
            let message = concat3("class ", label(&class.name), " hand-rolls the Observer pattern — use PubSub / Stream / SubscriptionRef");
            ctx.report_agent(observer_meta(), class.span, message);
        }
        assert(ctx.findings() =~= old(ctx).findings() + observer_findings(old(ctx).flags().2, old(ctx).flags().3, *class));
    }
}

impl Visitor {
    /// The rule ids this rule owns.
    pub fn metas(&self) -> (metas: Vec<RuleMeta>)
        ensures
            metas@ == seq![visitor_meta()],
    {
        let mut metas: Vec<RuleMeta> = Vec::new();
        metas.push(visitor_meta());
        metas
    }

    /// A class.
    pub fn on_class(&self, class: &ClassDecl, ctx: &mut FileCtx)
        ensures
            final(ctx).findings() == old(ctx).findings() + visitor_findings(old(ctx).flags().2, old(ctx).flags().3, *class),
            final(ctx).same_walk(old(ctx)),
    {
        if ctx.agent_active() && count_visit_methods(&class.members) >= 2 {
            let message = concat3("class ", label(&class.name), " implements the Visitor pattern — use a tagged union + Match.exhaustive");
            ctx.report_agent(visitor_meta(), class.span, message);
        }
        assert(ctx.findings() =~= old(ctx).findings() + visitor_findings(old(ctx).flags().2, old(ctx).flags().3, *class));
    }
}

impl ChainOfResponsibility {
    /// The rule ids this rule owns.
    pub fn metas(&self) -> (metas: Vec<RuleMeta>)
        ensures
            metas@ == seq![chain_meta()],
    {
        let mut metas: Vec<RuleMeta> = Vec::new();
        metas.push(chain_meta());
        metas
    }

    /// A class.
    pub fn on_class(&self, class: &ClassDecl, ctx: &mut FileCtx)
        ensures
            final(ctx).findings() == old(ctx).findings() + chain_findings(old(ctx).flags().2, old(ctx).flags().3, *class),
            final(ctx).same_walk(old(ctx)),
    {
        let ms = &class.members;
        if ctx.agent_active() && has_member_exec(ms, false, false, NamePattern::ChainNext) && (has_member_exec(
            ms,
            true,
            false,
            NamePattern::Handle,
        ) || has_member_exec(ms, true, false, NamePattern::SetNext)) {
            let message = concat3(
                "class ",
                label(&class.name),
                " is a Chain-of-Responsibility handler — compose with Effect.orElse / catchTag",
            );
            ctx.report_agent(chain_meta(), class.span, message);
        }
        assert(ctx.findings() =~= old(ctx).findings() + chain_findings(old(ctx).flags().2, old(ctx).flags().3, *class));
    }
}

fn count_implementers(implemented: &Vec<String>, name: &str) -> (count: usize)
    ensures
        count == implementer_count(implemented@.map_values(|n: String| n@), name@),
{
    let ghost names = implemented@.map_values(|n: String| n@);
    let mut count: usize = 0;
    let mut i: usize = 0;
    while i < implemented.len()
        invariant
            i <= implemented@.len(),
            names == implemented@.map_values(|n: String| n@),
            count == implementer_count(names.take(i as int), name@),
            count <= i,
        decreases implemented@.len() - i,
    {
        assert(names.take(i + 1).drop_last() =~= names.take(i as int));
        if str_eq(implemented[i].as_str(), name) {
            count += 1;
        }
        i += 1;
    }
    assert(names.take(i as int) =~= names);
    count
}

impl Strategy {
    /// The rule ids this rule owns.
    pub fn metas(&self) -> (metas: Vec<RuleMeta>)
        ensures
            metas@ == seq![strategy_meta()],
    {
        let mut metas: Vec<RuleMeta> = Vec::new();
        metas.push(strategy_meta());
        metas
    }

    /// An interface declaration.
    pub fn on_interface(&self, name: &str, signatures: &Vec<SignatureKind>, span: Span, ctx: &mut FileCtx)
        ensures
            final(ctx).findings() == old(ctx).findings(),
            scratch_view(final(ctx).scratch) == strategy_interface_scratch(
                old(ctx).flags().2,
                scratch_view(old(ctx).scratch),
                name@,
                signatures@,
                span,
            ),
            final(ctx).imports == old(ctx).imports,
            final(ctx).stack@ == old(ctx).stack@,
            final(ctx).flags() == old(ctx).flags(),
    {
        let single = signatures.len() == 1 && signatures[0] == SignatureKind::Method;
        if ctx.agent_active() && single {
            ctx.scratch.single_method_interfaces.push((owned(name), span));
        }
        assert(scratch_view(ctx.scratch) =~= strategy_interface_scratch(
            old(ctx).flags().2,
            scratch_view(old(ctx).scratch),
            name@,
            signatures@,
            span,
        ));
    }

    /// A class: records the interfaces it implements.
    pub fn on_class(&self, class: &ClassDecl, ctx: &mut FileCtx)
        ensures
            final(ctx).findings() == old(ctx).findings(),
            scratch_view(final(ctx).scratch) == strategy_class_scratch(old(ctx).flags().2, scratch_view(old(ctx).scratch), *class),
            final(ctx).imports == old(ctx).imports,
            final(ctx).stack@ == old(ctx).stack@,
            final(ctx).flags() == old(ctx).flags(),
    {
        if !ctx.agent_active() {
            return;
        }
        let ghost start = ctx.scratch.implemented_interfaces@.map_values(|n: String| n@);
        let ghost added = class.implements@.map_values(|n: String| n@);
        let mut i: usize = 0;
        while i < class.implements.len()
            invariant
                i <= class.implements@.len(),
                added == class.implements@.map_values(|n: String| n@),
                ctx.scratch.implemented_interfaces@.map_values(|n: String| n@) == start + added.take(i as int),
                ctx.findings() == old(ctx).findings(),
                ctx.scratch.exponential_spans@ == old(ctx).scratch.exponential_spans@,
                ctx.scratch.has_schedule_jitter == old(ctx).scratch.has_schedule_jitter,
                ctx.scratch.has_schedule_cap == old(ctx).scratch.has_schedule_cap,
                ctx.scratch.single_method_interfaces@ == old(ctx).scratch.single_method_interfaces@,
                ctx.scratch.if_chain_skip@ == old(ctx).scratch.if_chain_skip@,
                ctx.scratch.fn_fingerprints@ == old(ctx).scratch.fn_fingerprints@,
                ctx.imports == old(ctx).imports,
                ctx.stack@ == old(ctx).stack@,
                ctx.flags() == old(ctx).flags(),
                start == old(ctx).scratch.implemented_interfaces@.map_values(|n: String| n@),
            decreases class.implements@.len() - i,
        {
            let name = owned(class.implements[i].as_str());
            let ghost before = ctx.scratch.implemented_interfaces@;
            ctx.scratch.implemented_interfaces.push(name);
            assert(ctx.scratch.implemented_interfaces@ == before.push(name));
            assert(added[i as int] == name@);
            assert(ctx.scratch.implemented_interfaces@.map_values(|n: String| n@) =~= before.map_values(|n: String| n@).push(name@));
            assert(ctx.scratch.implemented_interfaces@.map_values(|n: String| n@) =~= start + added.take(i + 1));
            i += 1;
        }
        assert(added.take(i as int) =~= added);
        assert(scratch_view(ctx.scratch) =~= strategy_class_scratch(old(ctx).flags().2, scratch_view(old(ctx).scratch), *class));
    }

    /// The end of the file: reports each single-method interface with two
    /// or more implementers, and clears the recorded interfaces.
    pub fn on_file_end(&self, ctx: &mut FileCtx)
        ensures
            final(ctx).findings() == old(ctx).findings() + (if old(ctx).flags().2 {
                strategy_end_findings(
                    old(ctx).flags().3,
                    scratch_view(old(ctx).scratch).single_method_interfaces,
                    scratch_view(old(ctx).scratch).implemented_interfaces,
                )
            } else {
                none()
            }),
            final(ctx).imports == old(ctx).imports,
            final(ctx).stack@ == old(ctx).stack@,
            final(ctx).flags() == old(ctx).flags(),
    {
        if !ctx.agent_active() {
            assert(old(ctx).findings() + none() =~= old(ctx).findings());
            return;
        }
        let mut interfaces: Vec<(String, Span)> = Vec::new();
        std::mem::swap(&mut interfaces, &mut ctx.scratch.single_method_interfaces);
        let ghost entries = interfaces@.map_values(|entry: (String, Span)| (entry.0@, entry.1));
        let ghost implemented = scratch_view(old(ctx).scratch).implemented_interfaces;
        let ghost strict = old(ctx).flags().3;
        let ghost start = ctx.findings();
        let mut i: usize = 0;
        assert(start + strategy_end_findings(strict, entries.take(0), implemented) =~= start);
        while i < interfaces.len()
            invariant
                i <= interfaces@.len(),
                entries == interfaces@.map_values(|entry: (String, Span)| (entry.0@, entry.1)),
                implemented == ctx.scratch.implemented_interfaces@.map_values(|n: String| n@),
                strict == ctx.flags().3,
                ctx.findings() == start + strategy_end_findings(strict, entries.take(i as int), implemented),
                ctx.imports == old(ctx).imports,
                ctx.stack@ == old(ctx).stack@,
                ctx.flags() == old(ctx).flags(),
            decreases interfaces@.len() - i,
        {
            assert(entries.take(i + 1).drop_last() =~= entries.take(i as int));
            let name = interfaces[i].0.as_str();
            let span = interfaces[i].1;
            let count = count_implementers(&ctx.scratch.implemented_interfaces, name);
            if count >= 2 {
                let number = to_decimal(count as u64);
                let message = concat5(
                    "interface ",
                    name,
                    " is a single-method Strategy with ",
                    number.as_str(),
                    " implementations — use a function type",
                );
                ctx.report_agent(strategy_meta(), span, message);
            }
            assert(ctx.findings() =~= start + strategy_end_findings(strict, entries.take(i + 1), implemented));
            i += 1;
        }
        assert(entries.take(i as int) =~= entries);
    }
}

} // verus!
