use effect_doctor_core::diagnostics::{severity_name, Category, Severity};
use effect_doctor_core::examples::{example_for, RuleExample};

#[test]
fn example_for_known_rule() {
    assert_eq!(
        example_for("require-yield-star"),
        Some(RuleExample { bad: "const user = yield getUser(id)", good: "const user = yield* getUser(id)" })
    );
}

#[test]
fn example_for_last_rule_in_table() {
    let example = example_for("agent-similar-shape").unwrap();
    assert!(example.bad.starts_with("// both take (id)"));
    assert!(example.good.contains("export const fetchUser = loadUser"));
}

#[test]
fn example_for_unknown_rule_is_none() {
    assert_eq!(example_for("no-such-rule"), None);
    assert_eq!(example_for(""), None);
}

#[test]
fn category_labels() {
    assert_eq!(Category::Correctness.label(), "Correctness");
    assert_eq!(Category::V4Migration.label(), "v4 Migration");
}

#[test]
fn severity_names() {
    assert_eq!(severity_name(Severity::Error), "error");
    assert_eq!(severity_name(Severity::Warn), "warn");
    assert_eq!(severity_name(Severity::Info), "info");
}

#[test]
fn every_catalog_rule_has_a_recipe() {
    let metas = effect_doctor_core::rules::all_metas();
    assert_eq!(metas.last().unwrap().id, "agent-circular-import");
    for meta in &metas {
        assert!(example_for(meta.id).is_some(), "no recipe for {}", meta.id);
    }
}
