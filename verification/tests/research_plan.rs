use app_core::research::{research_query, DependencyPlan, ResearchDossier};

fn names(list: &[&str]) -> Vec<String> {
    list.iter().map(|n| n.to_string()).collect()
}

#[test]
fn plan_keeps_each_name_once_in_order_of_first_occurrence() {
    let plan = DependencyPlan::from_names(names(&["serde", "rand", "serde", "tokio", "rand"]));
    assert_eq!(plan.names, names(&["serde", "rand", "tokio"]));
    assert_eq!(plan.len(), 3);
}

#[test]
fn plan_without_repetitions_is_unchanged() {
    let plan = DependencyPlan::from_names(names(&["foo", "bar"]));
    assert_eq!(plan.names, names(&["foo", "bar"]));
}

#[test]
fn empty_plan() {
    let plan = DependencyPlan::from_names(Vec::new());
    assert!(plan.names.is_empty());
    assert_eq!(plan.len(), 0);
}

#[test]
fn names_differing_in_case_are_different() {
    let plan = DependencyPlan::from_names(names(&["Serde", "serde"]));
    assert_eq!(plan.names, names(&["Serde", "serde"]));
}

#[test]
fn research_query_is_worded_exactly() {
    assert_eq!(research_query("left-pad"), "crates.io rust crate left-pad latest API examples");
    assert_eq!(research_query(""), "crates.io rust crate  latest API examples");
}

#[test]
fn dossier_has_one_labeled_section_per_name_in_plan_order() {
    let mut dossier = ResearchDossier::new();
    assert_eq!(dossier.text(), "");
    dossier.record("foo".to_string(), "about foo".to_string());
    dossier.record("bar".to_string(), "about bar".to_string());
    assert_eq!(dossier.entries.len(), 2);
    assert_eq!(
        dossier.text(),
        "\n--- Research for crate 'foo': ---\nabout foo\n\n--- Research for crate 'bar': ---\nabout bar\n"
    );
    let text = dossier.text();
    let foo = text.find("--- Research for crate 'foo': ---").unwrap();
    let bar = text.find("--- Research for crate 'bar': ---").unwrap();
    assert!(foo < bar);
}

#[test]
fn dossier_only_grows() {
    let mut dossier = ResearchDossier::new();
    dossier.record("a".to_string(), "1".to_string());
    let before = dossier.text();
    dossier.record("b".to_string(), "2".to_string());
    assert!(dossier.text().starts_with(&before));
    assert_eq!(dossier.entries[0], ("a".to_string(), "1".to_string()));
}
