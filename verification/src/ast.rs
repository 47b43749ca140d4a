//! The part of a TypeScript syntax tree the rules read, as plain values.
//!
//! A parser turns a file into a walk: the nodes a rule reacts to, in the order
//! a depth-first traversal meets them, with function frames opened and closed
//! around function bodies (see [`Event`]). Each node carries the sub-tree the
//! rules inspect; anything the rules never look at is [`Expr::Other`].
use vstd::prelude::*;

use crate::diagnostics::Span;
use crate::effect_imports::ImportDecl;

verus! {

/// An expression.
#[derive(Debug)]
pub enum Expr {
    /// An identifier reference.
    Ident { name: String, span: Span },
    /// `<object>.<property>` with a static (non-computed) property.
    Member { object: Box<Expr>, property: String, span: Span },
    /// A call.
    Call(Box<CallExpr>),
    /// `new <callee>(...)`.
    New(Box<CallExpr>),
    /// A string literal.
    Str { value: String, span: Span },
    /// A numeric literal, with its source text when the parser kept it.
    Number { raw: Option<String>, span: Span },
    /// A boolean literal.
    Bool { value: bool, span: Span },
    /// `null`.
    Null { span: Span },
    /// A spread argument `...<argument>`.
    Spread { argument: Box<Expr>, span: Span },
    /// An object literal.
    Object { properties: Vec<Property>, span: Span },
    /// A function or arrow function expression.
    Function(Box<FunctionExpr>),
    /// `yield <argument>` (`yield* <argument>` when `delegate`).
    Yield { delegate: bool, argument: Option<Box<Expr>>, span: Span },
    /// A unary operation, with its operator written out (`void`, `!`, `typeof`, ...).
    Unary { operator: String, argument: Box<Expr>, span: Span },
    /// A parenthesized expression.
    Paren { expression: Box<Expr>, span: Span },
    /// A binary or logical operation, with its operator written out.
    Binary { operator: String, left: Box<Expr>, right: Box<Expr>, span: Span },
    /// `test ? consequent : alternate`.
    Conditional { test: Box<Expr>, consequent: Box<Expr>, alternate: Box<Expr>, span: Span },
    /// A template literal with its interpolated expressions.
    Template { expressions: Vec<Expr>, span: Span },
    /// An array literal; holes are [`Expr::Other`].
    Array { elements: Vec<Expr>, span: Span },
    /// Any other expression.
    Other { span: Span },
}

/// A call (or `new`) with its callee and arguments, and its first type
/// argument when that is a plain type reference (`f<Name>(...)`): the name and
/// the reference's span.
#[derive(Debug)]
pub struct CallExpr {
    pub callee: Expr,
    pub arguments: Vec<Expr>,
    pub type_argument: Option<(String, Span)>,
    pub span: Span,
}

/// One declarator of a variable declaration: the bound name when the pattern
/// is a plain identifier, and the initializer.
#[derive(Debug)]
pub struct Declarator {
    pub name: Option<String>,
    pub init: Option<Expr>,
}

/// A property of an object literal. `key` is the name of a static identifier
/// key; computed keys, string keys and spreads have none.
#[derive(Debug)]
pub struct Property {
    pub key: Option<String>,
    pub value: Expr,
    pub span: Span,
}

/// A function or arrow function expression with the top-level statements of
/// its body. A concise arrow (`expression`) has one expression statement.
#[derive(Debug)]
pub struct FunctionExpr {
    pub is_arrow: bool,
    pub param_count: usize,
    pub generator: bool,
    pub is_async: bool,
    pub expression: bool,
    pub body: Vec<Stmt>,
    pub span: Span,
}

/// A top-level statement of a function body.
#[derive(Debug)]
pub enum Stmt {
    /// `return <argument>;`
    Return { argument: Option<Expr>, span: Span },
    /// An expression statement.
    Expression { expression: Expr, span: Span },
    /// A variable declaration.
    VarDecl { declarators: Vec<Declarator>, span: Span },
    /// An `if` statement, with its test.
    If { test: Expr, span: Span },
    /// A `switch` statement, with its discriminant.
    Switch { discriminant: Expr, span: Span },
    /// Any other statement.
    Other { span: Span },
}

/// A `try` statement: whether it has a `catch` clause and a `finally` block,
/// and whether its block or its `finally` block holds a `yield` of its own
/// (one that is not inside a nested function).
#[derive(Debug, Clone, Copy, PartialEq, Eq, Structural)]
pub struct TryStmt {
    pub has_catch: bool,
    pub has_finally: bool,
    pub block_yields: bool,
    pub finalizer_yields: bool,
    pub span: Span,
}

/// A tagged template: the tag expression and the raw text of its quasis.
#[derive(Debug)]
pub struct TaggedTemplate {
    pub tag: Expr,
    pub quasis: Vec<String>,
    pub span: Span,
}

/// A class declaration or expression: its name, the class it extends, the
/// interfaces it implements, and the spans of its constructor definitions.
#[derive(Debug)]
pub struct ClassDecl {
    pub name: Option<String>,
    pub super_class: Option<Expr>,
    /// The interfaces it implements that are named by a plain identifier.
    pub implements: Vec<String>,
    /// Where each constructor stands.
    pub constructors: Vec<Span>,
    /// Its methods and fields other than constructors, in order.
    pub members: Vec<ClassMember>,
    pub span: Span,
}

/// A method or field of a class.
#[derive(Debug)]
pub struct ClassMember {
    /// Its name, where the key is a static name.
    pub name: Option<String>,
    pub is_static: bool,
    pub is_method: bool,
}

/// The structural summary of a function body: a hash of its shape, which
/// equal bodies share, its deepest nesting and its cyclomatic complexity.
#[derive(Debug, Clone, Copy)]
pub struct BodyShape {
    pub identity_hash: u64,
    pub max_depth: u32,
    pub complexity: u32,
}

/// A member of an interface body.
#[derive(Debug, Clone, Copy, PartialEq, Eq, Structural)]
pub enum SignatureKind {
    Method,
    Other,
}

/// The control flow of a function body, as far as the metrics read it. The
/// bodies of nested functions are not part of it: they are measured on
/// their own.
#[derive(Debug)]
pub enum Flow {
    /// An `if` statement: what its test, its consequent and its `else`
    /// branch hold. An `else if` is an `If` as the alternate; any other
    /// `else` branch is one node (a `Block` when it holds several).
    If { test: Vec<Flow>, consequent: Vec<Flow>, alternate: Option<Box<Flow>> },
    /// A loop, `switch`, `catch` clause or conditional expression, with
    /// everything inside it.
    Nest { children: Vec<Flow> },
    /// A logical expression (`&&`, `||`, `??`), with its operands.
    Logical { operator: String, children: Vec<Flow> },
    /// Anything else that holds control flow: a block or a plain statement.
    Block { children: Vec<Flow> },
}

/// One step of the depth-first walk of a file.
#[derive(Debug)]
pub enum Event {
    /// A call expression.
    Call(CallExpr),
    /// A `new` expression.
    New(CallExpr),
    /// A static member expression `<object>.<property>`.
    Member { object: Expr, property: String, span: Span },
    /// A `yield` expression.
    Yield { delegate: bool, argument: Option<Expr>, span: Span },
    /// A `throw` statement.
    Throw { span: Span },
    /// A `try` statement.
    Try(TryStmt),
    /// A tagged template expression.
    TaggedTemplate(TaggedTemplate),
    /// An import declaration, with where its module source stands.
    Import { decl: ImportDecl, source_span: Span, span: Span },
    /// An `export default` declaration.
    ExportDefault { span: Span },
    /// A class.
    Class(ClassDecl),
    /// A binary or logical expression.
    Binary { operator: String, left: Expr, right: Expr, span: Span },
    /// A `switch` statement.
    Switch { discriminant: Expr, span: Span },
    /// A function or arrow function starts; its body's events follow up to
    /// the matching [`Event::LeaveFunction`].
    EnterFunction { span: Span },
    /// A `return` statement, with its value.
    Return { argument: Option<Expr>, span: Span },
    /// A function or arrow function, with its own name; its body's events
    /// follow, opened by `EnterFunction`.
    /// `flow` is the control flow of its body (`None` where it has no body),
    /// and `shape` its structural summary where the caller computed one
    /// (`None` where it has no body or no summary was computed; the rules
    /// that read a shape then report nothing for the function).
    Function { function: FunctionExpr, name: Option<String>, flow: Option<Vec<Flow>>, shape: Option<BodyShape> },
    /// A TypeScript `namespace` declaration.
    TsNamespace { span: Span },
    /// A unary expression, with its operator (`delete`, `typeof`, `!`, ...).
    Unary { operator: String, span: Span },
    /// An inline `import("...").Foo` type.
    TsImportType { span: Span },
    /// A non-null assertion `x!`.
    TsNonNull { span: Span },
    /// A TypeScript `enum` declaration.
    TsEnum { span: Span },
    /// `x as T`, with the name of `T` where it is a plain type reference.
    TsAs { annotation: Option<String>, span: Span },
    /// The `any` type.
    TsAny { span: Span },
    /// An `if` statement, with its `else` branch where it has one.
    If { span: Span, alternate: Option<Box<Alternate>> },
    /// A conditional expression.
    Conditional { span: Span },
    /// A variable declaration, with its keyword (`const`, `let`, `var`, ...).
    VarDecl { kind: String, span: Span },
    /// An assignment, with whether its target is a plain identifier.
    Assignment { to_identifier: bool, span: Span },
    /// A dynamic `import(...)` expression.
    ImportExpression { span: Span },
    /// An interface declaration, with the kinds of its members.
    Interface { name: String, signatures: Vec<SignatureKind>, span: Span },
    /// A loop statement, with whether its body yields or awaits outside
    /// nested functions.
    Loop { span: Span, has_yield: bool, has_await: bool },
    /// The innermost open function ends.
    LeaveFunction,
}

/// The span of an expression.
pub open spec fn expr_span(e: Expr) -> Span {
    match e {
        Expr::Ident { span, .. } => span,
        Expr::Member { span, .. } => span,
        Expr::Call(call) => call.span,
        Expr::New(call) => call.span,
        Expr::Str { span, .. } => span,
        Expr::Number { span, .. } => span,
        Expr::Bool { span, .. } => span,
        Expr::Null { span } => span,
        Expr::Spread { span, .. } => span,
        Expr::Object { span, .. } => span,
        Expr::Function(function) => function.span,
        Expr::Yield { span, .. } => span,
        Expr::Unary { span, .. } => span,
        Expr::Paren { span, .. } => span,
        Expr::Binary { span, .. } => span,
        Expr::Conditional { span, .. } => span,
        Expr::Template { span, .. } => span,
        Expr::Array { span, .. } => span,
        Expr::Other { span } => span,
    }
}

/// The `else` branch of an `if` statement: another `if` statement (an
/// `else if`), with where it starts and its own `else` branch, or any other
/// statement.
#[derive(Debug)]
pub enum Alternate {
    ElseIf { start: u32, alternate: Option<Box<Alternate>> },
    Other,
}

/// The starts of the `else if` statements chained after an `if` whose `else`
/// branch is `alternate`, in order: each `else if` whose own `else` branch
/// is again an `if`, down to the first branch that is not.
#[verifier::opaque]
pub open spec fn else_if_chain(alternate: Option<Box<Alternate>>) -> Seq<u32>
    decreases alternate,
{
    match alternate {
        Some(branch) => match *branch {
            Alternate::ElseIf { start, alternate } => seq![start] + else_if_chain(alternate),
            Alternate::Other => Seq::empty(),
        },
        None => Seq::empty(),
    }
}

/// Appends to `starts` the starts of the `else if` chain under `alternate`.
pub fn push_else_if_starts(alternate: &Option<Box<Alternate>>, starts: &mut Vec<u32>)
    ensures
        final(starts)@ == old(starts)@ + else_if_chain(*alternate),
    decreases *alternate,
{
    reveal(else_if_chain);
    match alternate {
        Some(branch) => match &**branch {
            Alternate::ElseIf { start, alternate: rest } => {
                starts.push(*start);
                push_else_if_starts(rest, starts);
                assert(old(starts)@ + else_if_chain(*alternate) =~= old(starts)@.push(*start) + else_if_chain(*rest));
            },
            Alternate::Other => {
                assert(old(starts)@ + else_if_chain(*alternate) =~= old(starts)@);
            },
        },
        None => {
            assert(old(starts)@ + else_if_chain(*alternate) =~= old(starts)@);
        },
    }
}

/// Where an expression stands.
pub fn span_of(e: &Expr) -> (span: Span)
    ensures
        span == expr_span(*e),
{
    match e {
        Expr::Ident { span, .. } => *span,
        Expr::Member { span, .. } => *span,
        Expr::Call(call) => call.span,
        Expr::New(call) => call.span,
        Expr::Str { span, .. } => *span,
        Expr::Number { span, .. } => *span,
        Expr::Bool { span, .. } => *span,
        Expr::Null { span } => *span,
        Expr::Spread { span, .. } => *span,
        Expr::Object { span, .. } => *span,
        Expr::Function(function) => function.span,
        Expr::Yield { span, .. } => *span,
        Expr::Unary { span, .. } => *span,
        Expr::Paren { span, .. } => *span,
        Expr::Binary { span, .. } => *span,
        Expr::Conditional { span, .. } => *span,
        Expr::Template { span, .. } => *span,
        Expr::Array { span, .. } => *span,
        Expr::Other { span } => *span,
    }
}

} // verus!
