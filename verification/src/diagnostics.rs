//! Diagnostic records: the severity and category of a rule, its static
//! metadata, the span-based finding a rule emits while walking a file, and the
//! line/column diagnostic the engine reports.
use vstd::prelude::*;

verus! {

/// How serious a finding is. Ordered `Error < Warn < Info`.
#[derive(Debug, Clone, Copy, PartialEq, Eq, Structural, PartialOrd, Ord, Hash)]
pub enum Severity {
    Error,
    Warn,
    Info,
}

/// Whether a file is production code or a test.
#[derive(Debug, Clone, Copy, PartialEq, Eq, Structural)]
pub enum FileContext {
    Production,
    Test,
}

/// The family a rule belongs to.
#[derive(Debug, Clone, Copy, PartialEq, Eq, Structural, Hash)]
pub enum Category {
    Correctness,
    Idiomatic,
    Architecture,
    Performance,
    V4Migration,
    Adoption,
    Maintainability,
    OopToEffect,
    AgentHygiene,
    TypeAware,
}

/// The display label of a category.
pub open spec fn category_label(category: Category) -> Seq<char> {
    match category {
        Category::Correctness => "Correctness"@,
        Category::Idiomatic => "Idiomatic"@,
        Category::Architecture => "Architecture"@,
        Category::Performance => "Performance"@,
        Category::V4Migration => "v4 Migration"@,
        Category::Adoption => "Adoption"@,
        Category::Maintainability => "Maintainability"@,
        Category::OopToEffect => "OOP to Effect"@,
        Category::AgentHygiene => "Agent Hygiene"@,
        Category::TypeAware => "Type-aware"@,
    }
}

impl Category {
    /// Human-readable label.
    pub fn label(self) -> (label: &'static str)
        ensures
            label@ == category_label(self),
    {
        match self {
            Category::Correctness => "Correctness",
            Category::Idiomatic => "Idiomatic",
            Category::Architecture => "Architecture",
            Category::Performance => "Performance",
            Category::V4Migration => "v4 Migration",
            Category::Adoption => "Adoption",
            Category::Maintainability => "Maintainability",
            Category::OopToEffect => "OOP to Effect",
            Category::AgentHygiene => "Agent Hygiene",
            Category::TypeAware => "Type-aware",
        }
    }
}

/// The lower-case name of a severity.
pub open spec fn severity_name_spec(severity: Severity) -> Seq<char> {
    match severity {
        Severity::Error => "error"@,
        Severity::Warn => "warn"@,
        Severity::Info => "info"@,
    }
}

/// The lower-case name of a severity (`error`, `warn`, `info`).
pub fn severity_name(severity: Severity) -> (name: &'static str)
    ensures
        name@ == severity_name_spec(severity),
{
    match severity {
        Severity::Error => "error",
        Severity::Warn => "warn",
        Severity::Info => "info",
    }
}

/// The rank of a severity in the report order (`Error` first).
pub open spec fn severity_rank(severity: Severity) -> int {
    match severity {
        Severity::Error => 0,
        Severity::Warn => 1,
        Severity::Info => 2,
    }
}

/// Static metadata for a rule, shared by every diagnostic it emits.
#[derive(Debug, Clone, Copy)]
pub struct RuleMeta {
    pub id: &'static str,
    pub severity: Severity,
    pub category: Category,
    pub help: &'static str,
}

/// A byte range `[start, end)` of a source file.
#[derive(Debug, Clone, Copy, PartialEq, Eq, Structural)]
pub struct Span {
    pub start: u32,
    pub end: u32,
}

/// A finding recorded while a file's syntax tree is being walked; turned into
/// a [`Diagnostic`] (line, column, snippet) once the walk is over. `severity`
/// overrides the rule's declared severity when set.
#[derive(Debug, Clone)]
pub struct RawDiagnostic {
    pub meta: RuleMeta,
    pub span: Span,
    pub message: String,
    pub severity: Option<Severity>,
}

/// A reported finding.
#[derive(Debug, Clone)]
pub struct Diagnostic {
    pub rule: &'static str,
    pub severity: Severity,
    pub category: Category,
    pub message: String,
    pub help: &'static str,
    pub file: String,
    pub file_context: FileContext,
    pub line: u32,
    pub column: u32,
    pub snippet: String,
}

impl Diagnostic {
    /// A diagnostic carrying the metadata of `meta`.
    pub fn from_meta(
        meta: &RuleMeta,
        message: String,
        file: String,
        file_context: FileContext,
        line: u32,
        column: u32,
        snippet: String,
    ) -> (d: Diagnostic)
        ensures
            d.rule == meta.id,
            d.severity == meta.severity,
            d.category == meta.category,
            d.help == meta.help,
            d.message == message,
            d.file == file,
            d.file_context == file_context,
            d.line == line,
            d.column == column,
            d.snippet == snippet,
    {
        Diagnostic {
            rule: meta.id,
            severity: meta.severity,
            category: meta.category,
            message,
            help: meta.help,
            file,
            file_context,
            line,
            column,
            snippet,
        }
    }
}

} // verus!
