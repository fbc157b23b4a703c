use xspring::catalog::find_index_or_zero;
use xspring::catalog::flatten_dependencies;
use xspring::catalog::promote_default;
use xspring::spring::Dependencies;
use xspring::spring::DependencyCategories;
use xspring::spring::Value;

fn value(id: &str, name: &str) -> Value {
    Value { id: id.to_string(), name: name.to_string() }
}

fn versions() -> Vec<Value> {
    vec![value("3.0.0", "3.0.0"), value("3.1.0", "3.1.0"), value("3.2.0", "3.2.0")]
}

fn ids(values: &[Value]) -> Vec<String> {
    values.iter().map(|v| v.id.clone()).collect()
}

#[test]
fn promote_swaps_default_to_front() {
    let mut vs = versions();
    promote_default(&mut vs, "3.2.0");
    assert_eq!(ids(&vs), vec!["3.2.0", "3.1.0", "3.0.0"]);
}

#[test]
fn promote_keeps_middle_default_order() {
    let mut vs = versions();
    promote_default(&mut vs, "3.1.0");
    assert_eq!(ids(&vs), vec!["3.1.0", "3.0.0", "3.2.0"]);
}

#[test]
fn promote_with_absent_default_changes_nothing() {
    let mut vs = versions();
    promote_default(&mut vs, "9.9.9");
    assert_eq!(ids(&vs), vec!["3.0.0", "3.1.0", "3.2.0"]);
}

#[test]
fn promote_with_front_default_changes_nothing() {
    let mut vs = versions();
    promote_default(&mut vs, "3.0.0");
    assert_eq!(ids(&vs), vec!["3.0.0", "3.1.0", "3.2.0"]);
}

#[test]
fn promote_twice_restores_the_original_order() {
    let mut vs = versions();
    let old_front = vs[0].id.clone();
    promote_default(&mut vs, "3.2.0");
    promote_default(&mut vs, &old_front);
    assert_eq!(ids(&vs), vec!["3.0.0", "3.1.0", "3.2.0"]);
}

#[test]
fn promote_again_with_same_default_is_idempotent() {
    let mut vs = versions();
    promote_default(&mut vs, "3.1.0");
    let after_one = ids(&vs);
    promote_default(&mut vs, "3.1.0");
    assert_eq!(ids(&vs), after_one);
}

#[test]
fn find_index_first_match_or_zero() {
    let vs = versions();
    assert_eq!(find_index_or_zero(&vs, "3.1.0"), 1);
    assert_eq!(find_index_or_zero(&vs, "missing"), 0);
}

#[test]
fn flatten_concatenates_categories_in_order() {
    let deps = Dependencies {
        values: vec![
            DependencyCategories {
                name: "Web".to_string(),
                values: vec![value("web", "Spring Web"), value("webflux", "Spring Reactive Web")],
            },
            DependencyCategories {
                name: "Data".to_string(),
                values: vec![value("data-jpa", "Spring Data JPA")],
            },
        ],
    };
    let flat = flatten_dependencies(&deps);
    assert_eq!(ids(&flat), vec!["web", "webflux", "data-jpa"]);
}

#[test]
fn flatten_of_empty_catalog_is_empty() {
    let deps = Dependencies { values: vec![] };
    assert!(flatten_dependencies(&deps).is_empty());
}
