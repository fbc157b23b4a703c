use xspring::client::generation_outcome;
use xspring::client::is_success_status;
use xspring::client::metadata_outcome;
use xspring::client::to_query_pairs;
use xspring::client::ClientError;
use xspring::spring::QueryParam;

#[test]
fn success_range_is_the_two_hundreds() {
    assert!(is_success_status(200));
    assert!(is_success_status(299));
    assert!(!is_success_status(199));
    assert!(!is_success_status(300));
    assert!(!is_success_status(404));
}

#[test]
fn metadata_outcome_surfaces_failing_status() {
    assert!(metadata_outcome(200).is_ok());
    assert!(matches!(metadata_outcome(503), Err(ClientError::ServiceError { status: 503 })));
}

#[test]
fn generation_failure_keeps_status_and_body() {
    match generation_outcome(500, Some("out of elephants".to_string())) {
        Err(ClientError::GenerationError { status, body }) => {
            assert_eq!(status, 500);
            assert_eq!(body, "out of elephants");
        }
        _ => panic!("expected a generation error"),
    }
}

#[test]
fn generation_failure_with_unreadable_body_gets_placeholder() {
    match generation_outcome(404, None) {
        Err(ClientError::GenerationError { status, body }) => {
            assert_eq!(status, 404);
            assert_eq!(body, "Could not read error body");
        }
        _ => panic!("expected a generation error"),
    }
}

#[test]
fn generation_failure_never_reaches_extraction() {
    // the pipeline extracts only on an Ok outcome, so a failing status can
    // never create or modify the destination
    for status in [100u16, 301, 400, 404, 500, 503] {
        assert!(generation_outcome(status, None).is_err());
    }
    assert!(generation_outcome(200, None).is_ok());
}

#[test]
fn query_pairs_carry_every_field_in_order() {
    let q = QueryParam {
        project_type: "maven-project".to_string(),
        language: "java".to_string(),
        boot_version: "3.2.0".to_string(),
        group_id: "com.example".to_string(),
        artifact_id: "demo-app".to_string(),
        name: "demo".to_string(),
        description: "Demo project".to_string(),
        packaging: "jar".to_string(),
        java_version: "17".to_string(),
        dependencies: "web,data-jpa".to_string(),
        base_dir: "demo-app".to_string(),
    };
    let pairs = to_query_pairs(&q);
    let expected = [
        ("type", "maven-project"),
        ("language", "java"),
        ("bootVersion", "3.2.0"),
        ("groupId", "com.example"),
        ("artifactId", "demo-app"),
        ("name", "demo"),
        ("description", "Demo project"),
        ("packaging", "jar"),
        ("javaVersion", "17"),
        ("dependencies", "web,data-jpa"),
        ("baseDir", "demo-app"),
    ];
    assert_eq!(pairs.len(), expected.len());
    for (pair, want) in pairs.iter().zip(expected.iter()) {
        assert_eq!(pair.0, want.0);
        assert_eq!(pair.1, want.1);
    }
}
