//! Which Effect bindings are in scope in a file, resolved from its import
//! declarations so aliasing (`import { Effect as E } from "effect"`) and
//! module-path imports (`import * as Effect from "effect/Effect"`) both work.
use vstd::prelude::*;

use crate::diagnostics::Span;
use crate::text::{chars_of, owned, seq_starts_with, slice_to_vec, str_eq, str_starts_with, string_of};

verus! {

/// One specifier of an import declaration.
#[derive(Debug, Clone)]
pub enum ImportSpecifier {
    /// `import { imported as local } from "..."`.
    Named { local: String, imported: String, span: Span },
    /// `import * as local from "..."`.
    Namespace { local: String, span: Span },
    /// `import local from "..."`.
    Default { local: String, span: Span },
}

/// An import declaration: its module source and its specifiers (`None` for a
/// bare `import "..."`).
#[derive(Debug, Clone)]
pub struct ImportDecl {
    pub source: String,
    pub specifiers: Option<Vec<ImportSpecifier>>,
}

/// The binding table: local name to canonical effect module name
/// ("Effect", "Layer", "Schema", ...), and whether any effect import was seen.
pub struct EffectImports {
    locals: Vec<(String, String)>,
    has_effect_import: bool,
}

/// The map that a list of `(key, value)` bindings describes, later bindings
/// replacing earlier ones.
pub open spec fn bindings_map(bindings: Seq<(Seq<char>, Seq<char>)>) -> Map<Seq<char>, Seq<char>>
    decreases bindings.len(),
{
    if bindings.len() == 0 {
        Map::empty()
    } else {
        bindings_map(bindings.drop_last()).insert(bindings.last().0, bindings.last().1)
    }
}

/// `source` names the effect package or one of its modules.
pub open spec fn is_effect_package_spec(source: Seq<char>) -> bool {
    source == "effect"@ || seq_starts_with(source, "effect/"@) || seq_starts_with(source, "@effect/"@)
}

/// The position of the last `c` in `cs`, if any.
pub open spec fn last_index_of(cs: Seq<char>, c: char) -> Option<int>
    decreases cs.len(),
{
    if cs.len() == 0 {
        None
    } else if cs.last() == c {
        Some(cs.len() - 1)
    } else {
        last_index_of(cs.drop_last(), c)
    }
}

/// The part of `cs` after its last `/` (all of `cs` without one).
pub open spec fn last_segment(cs: Seq<char>) -> Seq<char> {
    match last_index_of(cs, '/') {
        Some(i) => cs.skip(i + 1),
        None => cs,
    }
}

/// `effect/Effect` gives `Effect`, `effect/unstable/http/HttpClient` gives
/// `HttpClient`; a source outside `effect/` gives nothing.
pub open spec fn effect_submodule_spec(source: Seq<char>) -> Option<Seq<char>> {
    if seq_starts_with(source, "effect/"@) {
        Some(last_segment(source.skip(7)))
    } else {
        None
    }
}

/// The bindings one specifier of an import from `source` adds: a named import
/// only from `effect` itself, a namespace import only from an `effect/` module.
pub open spec fn specifier_bindings(source: Seq<char>, s: ImportSpecifier) -> Seq<(Seq<char>, Seq<char>)> {
    match s {
        ImportSpecifier::Named { local, imported, .. } => if source == "effect"@ {
            seq![(local@, imported@)]
        } else {
            Seq::empty()
        },
        ImportSpecifier::Namespace { local, .. } => match effect_submodule_spec(source) {
            Some(module) => seq![(local@, module)],
            None => Seq::empty(),
        },
        ImportSpecifier::Default { .. } => Seq::empty(),
    }
}

/// The bindings of the first `n` specifiers.
pub open spec fn specifiers_bindings(source: Seq<char>, specifiers: Seq<ImportSpecifier>) -> Seq<(Seq<char>, Seq<char>)>
    decreases specifiers.len(),
{
    if specifiers.len() == 0 {
        Seq::empty()
    } else {
        specifiers_bindings(source, specifiers.drop_last()) + specifier_bindings(source, specifiers.last())
    }
}

/// The bindings one declaration adds.
pub open spec fn decl_bindings(decl: ImportDecl) -> Seq<(Seq<char>, Seq<char>)> {
    if !is_effect_package_spec(decl.source@) {
        Seq::empty()
    } else {
        match decl.specifiers {
            Some(specifiers) => specifiers_bindings(decl.source@, specifiers@),
            None => Seq::empty(),
        }
    }
}

/// The bindings of a file's import declarations, in order.
pub open spec fn program_bindings(decls: Seq<ImportDecl>) -> Seq<(Seq<char>, Seq<char>)>
    decreases decls.len(),
{
    if decls.len() == 0 {
        Seq::empty()
    } else {
        program_bindings(decls.drop_last()) + decl_bindings(decls.last())
    }
}

/// Some declaration imports from the effect package.
pub open spec fn any_effect_import(decls: Seq<ImportDecl>) -> bool {
    exists|i: int| 0 <= i < decls.len() && is_effect_package_spec(#[trigger] decls[i].source@)
}

/// Does `source` name the effect package or one of its modules?
pub fn is_effect_package(source: &str) -> (found: bool)
    ensures
        found == is_effect_package_spec(source@),
{
    str_eq(source, "effect") || str_starts_with(source, "effect/") || str_starts_with(source, "@effect/")
}

/// The position of the last `c` in `cs`, if any.
fn find_last(cs: &[char], c: char) -> (found: Option<usize>)
    ensures
        match found {
            Some(i) => last_index_of(cs@, c) == Some(i as int) && i < cs@.len(),
            None => last_index_of(cs@, c) == None::<int>,
        },
{
    let mut n: usize = cs.len();
    assert(cs@.take(cs@.len() as int) =~= cs@);
    while n > 0
        invariant
            n <= cs@.len(),
            last_index_of(cs@, c) == last_index_of(cs@.take(n as int), c),
        decreases n,
    {
        let ghost prefix = cs@.take(n as int);
        assert(prefix.drop_last() =~= cs@.take(n - 1));
        if cs[n - 1] == c {
            return Some(n - 1);
        }
        n -= 1;
    }
    assert(cs@.take(0).len() == 0);
    None
}

proof fn lemma_last_index_bound(cs: Seq<char>, c: char)
    ensures
        match last_index_of(cs, c) {
            Some(i) => 0 <= i < cs.len(),
            None => true,
        },
    decreases cs.len(),
{
    if cs.len() > 0 && cs.last() != c {
        lemma_last_index_bound(cs.drop_last(), c);
    }
}

/// The module an `effect/...` source names (its last path segment).
pub fn effect_submodule(source: &str) -> (module: Option<String>)
    ensures
        match module {
            Some(m) => effect_submodule_spec(source@) == Some(m@),
            None => effect_submodule_spec(source@) == None::<Seq<char>>,
        },
{
    if !str_starts_with(source, "effect/") {
        return None;
    }
    let cs = chars_of(source);
    proof {
        reveal_strlit("effect/");
    }
    let path = slice_to_vec(&cs, 7, cs.len());
    assert(path@ =~= source@.skip(7));
    proof {
        lemma_last_index_bound(path@, '/');
    }
    match find_last(&path, '/') {
        Some(i) => {
            let tail = slice_to_vec(&path, i + 1, path.len());
            assert(tail@ =~= path@.skip(i + 1));
            Some(string_of(&tail))
        },
        None => Some(string_of(&path)),
    }
}

proof fn lemma_any_effect_import_step(decls: Seq<ImportDecl>, d: int)
    requires
        0 <= d < decls.len(),
    ensures
        any_effect_import(decls.take(d + 1)) == (any_effect_import(decls.take(d))
            || is_effect_package_spec(decls[d].source@)),
{
    let t0 = decls.take(d);
    let t1 = decls.take(d + 1);
    assert forall|i: int| 0 <= i < d implies t1[i] == t0[i] by {}
    assert(t1[d] == decls[d]);
    if any_effect_import(t0) {
        let w = choose|i: int| 0 <= i < t0.len() && is_effect_package_spec(#[trigger] t0[i].source@);
        assert(t1[w] == t0[w]);
    }
    if any_effect_import(t1) {
        let w = choose|i: int| 0 <= i < t1.len() && is_effect_package_spec(#[trigger] t1[i].source@);
        if w < d {
            assert(t1[w] == t0[w]);
        }
    }
}

impl EffectImports {
    /// The binding table as a map from local name to module name.
    pub closed spec fn bindings(&self) -> Map<Seq<char>, Seq<char>> {
        bindings_map(self.locals@.map_values(|b: (String, String)| (b.0@, b.1@)))
    }

    /// Whether any import from the effect package was seen.
    pub closed spec fn saw_effect(&self) -> bool {
        self.has_effect_import
    }

    /// No bindings and no effect import.
    pub fn new() -> (imports: EffectImports)
        ensures
            imports.bindings() == Map::<Seq<char>, Seq<char>>::empty(),
            !imports.saw_effect(),
    {
        let imports = EffectImports { locals: Vec::new(), has_effect_import: false };
        assert(imports.locals@.map_values(|b: (String, String)| (b.0@, b.1@)) =~= Seq::<(Seq<char>, Seq<char>)>::empty());
        imports
    }

    fn bind(&mut self, local: String, module: String)
        ensures
            final(self).bindings() == old(self).bindings().insert(local@, module@),
            final(self).saw_effect() == old(self).saw_effect(),
    {
        let ghost before = self.locals@.map_values(|b: (String, String)| (b.0@, b.1@));
        let ghost key = local@;
        let ghost value = module@;
        self.locals.push((local, module));
        assert(self.locals@.map_values(|b: (String, String)| (b.0@, b.1@)).drop_last() =~= before);
        assert(self.locals@.map_values(|b: (String, String)| (b.0@, b.1@)).last() == (key, value));
    }

    /// Resolve the effect bindings of a file from its import declarations.
    pub fn from_imports(decls: &[ImportDecl]) -> (imports: EffectImports)
        ensures
            imports.bindings() == bindings_map(program_bindings(decls@)),
            imports.saw_effect() == any_effect_import(decls@),
    {
        let mut imports = EffectImports::new();
        let ghost mut added: Seq<(Seq<char>, Seq<char>)> = Seq::empty();
        let mut d: usize = 0;
        while d < decls.len()
            invariant
                d <= decls@.len(),
                imports.bindings() == bindings_map(program_bindings(decls@.take(d as int))),
                imports.saw_effect() == any_effect_import(decls@.take(d as int)),
            decreases decls@.len() - d,
        {
            let decl = &decls[d];
            let ghost before = program_bindings(decls@.take(d as int));
            assert(decls@.take(d + 1).drop_last() =~= decls@.take(d as int));
            assert(decls@.take(d + 1).last() == *decl);
            let source = decl.source.as_str();
            if is_effect_package(source) {
                imports.has_effect_import = true;
                assert(is_effect_package_spec(decls@.take(d + 1)[d as int].source@));
                match &decl.specifiers {
                    None => {},
                    Some(specifiers) => {
                        let from_effect = str_eq(source, "effect");
                        let mut k: usize = 0;
                        while k < specifiers.len()
                            invariant
                                k <= specifiers@.len(),
                                from_effect == (source@ == "effect"@),
                                imports.saw_effect(),
                                imports.bindings() == bindings_map(before + specifiers_bindings(source@, specifiers@.take(k as int))),
                            decreases specifiers@.len() - k,
                        {
                            assert(specifiers@.take(k + 1).drop_last() =~= specifiers@.take(k as int));
                            assert(specifiers@.take(k + 1).last() == specifiers@[k as int]);
                            let ghost prior = before + specifiers_bindings(source@, specifiers@.take(k as int));
                            match &specifiers[k] {
                                ImportSpecifier::Named { local, imported, .. } => {
                                    if from_effect {
                                        assert(prior + seq![(local@, imported@)] =~= prior.push((local@, imported@)));
                                        assert(prior.push((local@, imported@)).drop_last() =~= prior);
                                        imports.bind(owned(local.as_str()), owned(imported.as_str()));
                                    } else {
                                        assert(prior + Seq::<(Seq<char>, Seq<char>)>::empty() =~= prior);
                                    }
                                },
                                ImportSpecifier::Namespace { local, .. } => {
                                    match effect_submodule(source) {
                                        Some(module) => {
                                            assert(prior + seq![(local@, module@)] =~= prior.push((local@, module@)));
                                            assert(prior.push((local@, module@)).drop_last() =~= prior);
                                            imports.bind(owned(local.as_str()), module);
                                        },
                                        None => {
                                            assert(prior + Seq::<(Seq<char>, Seq<char>)>::empty() =~= prior);
                                        },
                                    }
                                },
                                ImportSpecifier::Default { .. } => {
                                    assert(prior + Seq::<(Seq<char>, Seq<char>)>::empty() =~= prior);
                                },
                            }
                            assert(before + specifiers_bindings(source@, specifiers@.take(k + 1)) =~= prior
                                + specifier_bindings(source@, specifiers@[k as int]));
                            k += 1;
                        }
                        assert(specifiers@.take(k as int) =~= specifiers@);
                    },
                }
            } else {
                assert(before + Seq::<(Seq<char>, Seq<char>)>::empty() =~= before);
            }
            proof {
                assert(program_bindings(decls@.take(d + 1)) == before + decl_bindings(decls@[d as int]));
                if decl.specifiers is None || !is_effect_package_spec(decl.source@) {
                    assert(before + decl_bindings(decls@[d as int]) =~= before);
                }
                lemma_any_effect_import_step(decls@, d as int);
            }
            d += 1;
        }
        assert(decls@.take(d as int) =~= decls@);
        imports
    }

    /// Was any import from the effect package seen?
    pub fn has_any(&self) -> (found: bool)
        ensures
            found == self.saw_effect(),
    {
        self.has_effect_import
    }

    /// The module that `local` is bound to, if any.
    pub fn module_of(&self, local: &str) -> (module: Option<&str>)
        ensures
            match module {
                Some(m) => self.bindings().contains_key(local@) && self.bindings()[local@] == m@,
                None => !self.bindings().contains_key(local@),
            },
    {
        let ghost all = self.locals@.map_values(|b: (String, String)| (b.0@, b.1@));
        let mut n: usize = self.locals.len();
        assert(all.take(all.len() as int) =~= all);
        while n > 0
            invariant
                n <= self.locals@.len(),
                all == self.locals@.map_values(|b: (String, String)| (b.0@, b.1@)),
                forall|j: int| n <= j < all.len() ==> (#[trigger] all[j]).0 != local@,
                bindings_map(all).contains_key(local@) == bindings_map(all.take(n as int)).contains_key(local@),
                bindings_map(all).contains_key(local@) ==> bindings_map(all)[local@] == bindings_map(all.take(n as int))[local@],
            decreases n,
        {
            let ghost prefix = all.take(n as int);
            assert(prefix.drop_last() =~= all.take(n - 1));
            if str_eq(self.locals[n - 1].0.as_str(), local) {
                return Some(self.locals[n - 1].1.as_str());
            }
            n -= 1;
        }
        assert(all.take(0) =~= Seq::<(Seq<char>, Seq<char>)>::empty());
        None
    }

    /// Is `local` bound to `module`?
    pub fn is_module(&self, local: &str, module: &str) -> (found: bool)
        ensures
            found == (self.bindings().contains_key(local@) && self.bindings()[local@] == module@),
    {
        match self.module_of(local) {
            Some(m) => str_eq(m, module),
            None => false,
        }
    }
}

} // verus!
