use xspring::commands::Commands;
use xspring::list::get_versions;
use xspring::list::print_categories;
use xspring::list::print_values;
use xspring::list::ListError;
use xspring::list::Lists;
use xspring::spring::DefaultText;
use xspring::spring::Dependencies;
use xspring::spring::DependencyCategories;
use xspring::spring::InitializrMetadata;
use xspring::spring::MetadataValue;
use xspring::spring::Value;

fn value(id: &str, name: &str) -> Value {
    Value { id: id.to_string(), name: name.to_string() }
}

fn axis(default: &str, ids: &[&str]) -> MetadataValue {
    MetadataValue {
        default: default.to_string(),
        values: ids.iter().map(|id| value(id, id)).collect(),
    }
}

fn catalog() -> InitializrMetadata {
    InitializrMetadata {
        dependencies: Dependencies {
            values: vec![DependencyCategories {
                name: "Web".to_string(),
                values: vec![value("web", "Spring Web"), value("webflux", "Reactive Web")],
            }],
        },
        boot_version: axis("3.2.0", &["3.2.0", "3.1.5"]),
        java_version: axis("17", &["21", "17"]),
        language: axis("java", &["java", "kotlin"]),
        packaging: axis("jar", &["jar", "war"]),
        project_type: axis("gradle-project", &["gradle-project", "maven-project"]),
        name: DefaultText { default: "demo".to_string() },
        description: DefaultText { default: "Demo project".to_string() },
    }
}

fn listed_ids(r: Result<Lists, ListError>) -> Vec<String> {
    match r {
        Ok(Lists::Values(vs)) => vs.iter().map(|v| v.id.clone()).collect(),
        _ => panic!("expected a values listing"),
    }
}

#[test]
fn get_versions_selects_each_axis() {
    assert_eq!(listed_ids(get_versions(catalog(), "java")), vec!["21", "17"]);
    assert_eq!(listed_ids(get_versions(catalog(), "boot")), vec!["3.2.0", "3.1.5"]);
    assert_eq!(
        listed_ids(get_versions(catalog(), "project_type")),
        vec!["gradle-project", "maven-project"]
    );
    assert_eq!(listed_ids(get_versions(catalog(), "language")), vec!["java", "kotlin"]);
}

#[test]
fn get_versions_selects_dependency_categories() {
    match get_versions(catalog(), "deps") {
        Ok(Lists::Categories(cats)) => {
            assert_eq!(cats.len(), 1);
            assert_eq!(cats[0].name, "Web");
            assert_eq!(cats[0].values.len(), 2);
        }
        _ => panic!("expected a categories listing"),
    }
}

#[test]
fn get_versions_rejects_unknown_item() {
    assert!(matches!(get_versions(catalog(), "packaging"), Err(ListError::UnknownItem)));
    assert!(matches!(get_versions(catalog(), ""), Err(ListError::UnknownItem)));
}

#[test]
fn print_values_renders_one_name_per_line() {
    let listing = Lists::Values(vec![value("17", "Seventeen"), value("21", "Twenty-one")]);
    assert_eq!(print_values(listing).unwrap(), "Seventeen\nTwenty-one\n");
}

#[test]
fn print_values_refuses_categories() {
    let listing = Lists::Categories(vec![]);
    assert!(matches!(print_values(listing), Err(ListError::NotValues)));
}

#[test]
fn print_categories_renders_blocks() {
    let listing = Lists::Categories(vec![
        DependencyCategories {
            name: "Web".to_string(),
            values: vec![value("web", "Spring Web"), value("webflux", "Reactive Web")],
        },
        DependencyCategories {
            name: "Data".to_string(),
            values: vec![value("data-jpa", "Spring Data JPA")],
        },
    ]);
    assert_eq!(
        print_categories(listing).unwrap(),
        "Web:\n-Spring Web\n-Reactive Web\n \nData:\n-Spring Data JPA\n \n"
    );
}

#[test]
fn print_categories_refuses_values() {
    let listing = Lists::Values(vec![]);
    assert!(matches!(print_categories(listing), Err(ListError::NotCategories)));
}

#[test]
fn display_text_is_the_option_name() {
    assert_eq!(value("17", "Seventeen").display_text(), "Seventeen");
}

#[test]
fn selected_list_follows_dispatch_order() {
    let quick = Commands::Quick { maven: true, extended: false };
    assert_eq!(quick.selected_list(), None);
    let java = Commands::List {
        java: true,
        boot: true,
        project_type: false,
        language: false,
        deps: false,
    };
    assert_eq!(java.selected_list(), Some("java".to_string()));
    let deps = Commands::List {
        java: false,
        boot: false,
        project_type: false,
        language: false,
        deps: true,
    };
    assert_eq!(deps.selected_list(), Some("deps".to_string()));
    let none = Commands::List {
        java: false,
        boot: false,
        project_type: false,
        language: false,
        deps: false,
    };
    assert_eq!(none.selected_list(), None);
}
