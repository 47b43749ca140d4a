use vstd::prelude::*;

pub mod ast;
pub mod content_addr;
pub mod cycles;
pub mod diagnostics;
pub mod effect_imports;
pub mod engine;
pub mod examples;
pub mod fn_index;
pub mod git_scope;
pub mod lint;
pub mod matchers;
pub mod profiles;
pub mod provenance;
pub mod reach;
pub mod report;
pub mod rules;
pub mod runner;
pub mod scc;
pub mod search;
pub mod strictness;
pub mod summary;
pub mod text;

verus! {

} // verus!
