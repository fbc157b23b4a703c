use xspring::interactive::pure_interactivity;
use xspring::interactive::quick_interactivity;
use xspring::interactive::FullSelections;
use xspring::interactive::QuickSelections;
use xspring::spring::DefaultText;
use xspring::spring::Dependencies;
use xspring::spring::DependencyCategories;
use xspring::spring::InitializrMetadata;
use xspring::spring::MetadataValue;
use xspring::spring::Value;
use xspring::validate::ValidationError;

fn value(id: &str, name: &str) -> Value {
    Value { id: id.to_string(), name: name.to_string() }
}

fn axis(default: &str, ids: &[&str]) -> MetadataValue {
    MetadataValue {
        default: default.to_string(),
        values: ids.iter().map(|id| value(id, id)).collect(),
    }
}

fn catalog() -> InitializrMetadata {
    InitializrMetadata {
        dependencies: Dependencies {
            values: vec![
                DependencyCategories {
                    name: "Web".to_string(),
                    values: vec![value("web", "Spring Web"), value("webflux", "Reactive Web")],
                },
                DependencyCategories {
                    name: "Data".to_string(),
                    values: vec![value("data-jpa", "Spring Data JPA")],
                },
            ],
        },
        boot_version: axis("3.2.0.RELEASE", &["3.3.0.M1", "3.2.0.RELEASE", "3.1.5.RELEASE"]),
        java_version: axis("17", &["21", "17", "11"]),
        language: axis("java", &["java", "kotlin", "groovy"]),
        packaging: axis("jar", &["jar", "war"]),
        project_type: axis("gradle-project", &["gradle-project", "maven-project"]),
        name: DefaultText { default: "demo".to_string() },
        description: DefaultText { default: "Demo project".to_string() },
    }
}

fn full_selections() -> FullSelections {
    FullSelections {
        group_id: "com.example".to_string(),
        artifact_id: "my-app".to_string(),
        name_input: String::new(),
        description_input: "A tiny service".to_string(),
        project_type: 1,
        language: 0,
        boot_version: 0,
        packaging: 1,
        java_version: 2,
        dependencies: vec![0, 2],
    }
}

#[test]
fn quick_maven_extended_takes_defaults() {
    let answers = QuickSelections {
        group_id: "com.example".to_string(),
        artifact_id: "demo-app".to_string(),
        name: None,
        description: None,
    };
    let q = quick_interactivity(catalog(), true, true, answers).unwrap();
    assert_eq!(q.project_type, "maven-project");
    assert_eq!(q.language, "java");
    assert_eq!(q.boot_version, "3.2.0");
    assert_eq!(q.group_id, "com.example");
    assert_eq!(q.artifact_id, "demo-app");
    assert_eq!(q.name, "demo");
    assert_eq!(q.description, "Demo project");
    assert_eq!(q.packaging, "jar");
    assert_eq!(q.java_version, "17");
    assert_eq!(q.dependencies, "");
    assert_eq!(q.base_dir, "demo-app");
}

#[test]
fn quick_without_maven_keeps_catalog_project_type() {
    let answers = QuickSelections {
        group_id: "com.example".to_string(),
        artifact_id: "demo-app".to_string(),
        name: None,
        description: None,
    };
    let q = quick_interactivity(catalog(), false, true, answers).unwrap();
    assert_eq!(q.project_type, "gradle-project");
}

#[test]
fn quick_not_extended_takes_entered_texts() {
    let answers = QuickSelections {
        group_id: "com.example".to_string(),
        artifact_id: "demo-app".to_string(),
        name: Some("My Demo".to_string()),
        description: Some("Something small".to_string()),
    };
    let q = quick_interactivity(catalog(), false, false, answers).unwrap();
    assert_eq!(q.name, "My Demo");
    assert_eq!(q.description, "Something small");
}

#[test]
fn quick_validates_identifiers_like_the_full_walk() {
    let answers = QuickSelections {
        group_id: "  ".to_string(),
        artifact_id: "demo-app".to_string(),
        name: None,
        description: None,
    };
    let r = quick_interactivity(catalog(), true, true, answers);
    assert_eq!(r.unwrap_err(), ValidationError::EmptyInput);
}

#[test]
fn full_rejects_artifact_id_with_space() {
    let mut sel = full_selections();
    sel.artifact_id = "my app".to_string();
    let r = pure_interactivity(catalog(), sel);
    assert_eq!(r.unwrap_err(), ValidationError::ContainsWhitespace);
}

#[test]
fn full_accepts_dashed_artifact_id() {
    let r = pure_interactivity(catalog(), full_selections());
    assert!(r.is_ok());
}

#[test]
fn full_walk_resolves_every_axis() {
    let q = pure_interactivity(catalog(), full_selections()).unwrap();
    // versioned axes are picked from the default-first reordered lists
    assert_eq!(q.boot_version, "3.2.0");
    assert_eq!(q.java_version, "11");
    assert_eq!(q.project_type, "maven-project");
    assert_eq!(q.language, "java");
    assert_eq!(q.packaging, "war");
    assert_eq!(q.group_id, "com.example");
    assert_eq!(q.artifact_id, "my-app");
    // the empty name falls back to the catalog default, the entered
    // description stands
    assert_eq!(q.name, "demo");
    assert_eq!(q.description, "A tiny service");
    assert_eq!(q.dependencies, "web,data-jpa");
    assert_eq!(q.base_dir, "my-app");
}

#[test]
fn full_walk_normalizes_milestone_versions() {
    let mut sel = full_selections();
    sel.boot_version = 1;
    let q = pure_interactivity(catalog(), sel).unwrap();
    // after the swap, position 1 holds the former front option
    assert_eq!(q.boot_version, "3.3.0-M1");
}

#[test]
fn full_walk_group_id_is_validated_first() {
    let mut sel = full_selections();
    sel.group_id = "com example".to_string();
    sel.artifact_id = " ".to_string();
    let r = pure_interactivity(catalog(), sel);
    assert_eq!(r.unwrap_err(), ValidationError::ContainsWhitespace);
}

#[test]
fn full_walk_empty_dependency_selection_joins_to_empty() {
    let mut sel = full_selections();
    sel.dependencies = vec![];
    let q = pure_interactivity(catalog(), sel).unwrap();
    assert_eq!(q.dependencies, "");
}
