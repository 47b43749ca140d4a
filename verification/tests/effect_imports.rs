use effect_doctor_core::effect_imports::{effect_submodule, is_effect_package, EffectImports, ImportDecl, ImportSpecifier};
use effect_doctor_core::diagnostics::Span;

fn decl(source: &str, specifiers: Option<Vec<ImportSpecifier>>) -> ImportDecl {
    ImportDecl { source: source.to_string(), specifiers }
}

fn named(local: &str, imported: &str) -> ImportSpecifier {
    ImportSpecifier::Named { local: local.to_string(), imported: imported.to_string(), span: Span { start: 0, end: 0 } }
}

fn namespace(local: &str) -> ImportSpecifier {
    ImportSpecifier::Namespace { local: local.to_string(), span: Span { start: 0, end: 0 } }
}

#[test]
fn effect_package_sources() {
    assert!(is_effect_package("effect"));
    assert!(is_effect_package("effect/Effect"));
    assert!(is_effect_package("@effect/platform"));
    assert!(!is_effect_package("effects"));
    assert!(!is_effect_package("react"));
}

#[test]
fn submodule_is_last_segment() {
    assert_eq!(effect_submodule("effect/Effect"), Some("Effect".to_string()));
    assert_eq!(effect_submodule("effect/unstable/http/HttpClient"), Some("HttpClient".to_string()));
    assert_eq!(effect_submodule("@effect/platform"), None);
    assert_eq!(effect_submodule("effect"), None);
}

#[test]
fn aliased_named_import_resolves() {
    let imports = EffectImports::from_imports(&[decl("effect", Some(vec![named("E", "Effect"), named("Layer", "Layer")]))]);
    assert!(imports.has_any());
    assert_eq!(imports.module_of("E"), Some("Effect"));
    assert_eq!(imports.module_of("Layer"), Some("Layer"));
    assert_eq!(imports.module_of("Effect"), None);
    assert!(imports.is_module("E", "Effect"));
    assert!(!imports.is_module("E", "Layer"));
}

#[test]
fn namespace_import_of_module_path_resolves() {
    let imports = EffectImports::from_imports(&[decl("effect/Schema", Some(vec![namespace("S")]))]);
    assert_eq!(imports.module_of("S"), Some("Schema"));
}

#[test]
fn named_import_from_submodule_is_not_bound() {
    let imports = EffectImports::from_imports(&[decl("effect/Effect", Some(vec![named("gen", "gen")]))]);
    assert!(imports.has_any());
    assert_eq!(imports.module_of("gen"), None);
}

#[test]
fn non_effect_imports_are_ignored() {
    let imports = EffectImports::from_imports(&[decl("react", Some(vec![named("Effect", "Effect")])), decl("lodash", None)]);
    assert!(!imports.has_any());
    assert_eq!(imports.module_of("Effect"), None);
}

#[test]
fn bare_effect_import_counts() {
    let imports = EffectImports::from_imports(&[decl("@effect/platform", None)]);
    assert!(imports.has_any());
}

#[test]
fn later_binding_wins() {
    let imports = EffectImports::from_imports(&[
        decl("effect", Some(vec![named("X", "Effect")])),
        decl("effect/Layer", Some(vec![namespace("X")])),
    ]);
    assert_eq!(imports.module_of("X"), Some("Layer"));
}

#[test]
fn default_import_binds_nothing() {
    let imports = EffectImports::from_imports(&[decl("effect", Some(vec![ImportSpecifier::Default { local: "E".to_string(), span: Span { start: 0, end: 0 } }]))]);
    assert!(imports.has_any());
    assert_eq!(imports.module_of("E"), None);
}
