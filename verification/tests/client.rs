use bugsink::client::{
    api_error_message, api_success, api_url, authorization_value, bearer_header, schema_url,
    PageCollector, PaginatedResponse,
};
use bugsink::json::Json;
use bugsink::output::Output;

fn team(id: &str, name: &str) -> Json {
    Json::Object(vec![
        ("id".to_string(), Json::Number(id.to_string())),
        ("name".to_string(), Json::Str(name.to_string())),
    ])
}

#[test]
fn endpoint_urls() {
    assert_eq!(api_url("https://b.example", "teams/1/"), "https://b.example/api/canonical/0/teams/1/");
    assert_eq!(api_url("https://b.example", "//teams/"), "https://b.example/api/canonical/0/teams/");
    assert_eq!(schema_url("https://b.example"), "https://b.example/api/canonical/0/schema/");
    assert_eq!(bearer_header("test-token"), "Bearer test-token");
}

#[test]
fn pages_are_gathered_in_order() {
    let mut collector = PageCollector::new();
    let first = PaginatedResponse {
        next: Some("http://h/api/canonical/0/teams/?page=2".to_string()),
        previous: None,
        results: vec![team("1", "Team A")],
    };
    let next = collector.absorb(first);
    assert_eq!(next, Some("http://h/api/canonical/0/teams/?page=2".to_string()));
    let second = PaginatedResponse { next: None, previous: None, results: vec![team("2", "Team B")] };
    assert_eq!(collector.absorb(second), None);
    let results = collector.into_results();
    assert_eq!(results, vec![team("1", "Team A"), team("2", "Team B")]);
}

#[test]
fn single_page_envelope() {
    let page = PaginatedResponse {
        next: None,
        previous: Some("p".to_string()),
        results: vec![team("1", "Team A"), team("2", "Team B")],
    };
    let expected = Json::Object(vec![
        ("next".to_string(), Json::Null),
        ("previous".to_string(), Json::Str("p".to_string())),
        ("results".to_string(), Json::Array(vec![team("1", "Team A"), team("2", "Team B")])),
    ]);
    assert_eq!(page.envelope(), expected);
}

#[test]
fn fields_apply_to_the_results_of_a_page() {
    let event = || {
        Json::Object(vec![
            ("id".to_string(), Json::Str("evt-abc".to_string())),
            ("timestamp".to_string(), Json::Str("2026-04-01T12:00:00Z".to_string())),
        ])
    };
    let page = PaginatedResponse { next: None, previous: None, results: vec![event()] };
    let output = Output::new(true, Some("id".to_string()));
    let expected = Json::Object(vec![
        ("next".to_string(), Json::Null),
        ("previous".to_string(), Json::Null),
        (
            "results".to_string(),
            Json::Array(vec![Json::Object(vec![(
                "id".to_string(),
                Json::Str("evt-abc".to_string()),
            )])]),
        ),
    ]);
    assert_eq!(page.shown_envelope(&output), expected);

    let page = PaginatedResponse {
        next: Some("n".to_string()),
        previous: None,
        results: vec![event()],
    };
    let unfiltered = Output::new(false, None);
    let expected = Json::Object(vec![
        ("next".to_string(), Json::Str("n".to_string())),
        ("previous".to_string(), Json::Null),
        ("results".to_string(), Json::Array(vec![event()])),
    ]);
    assert_eq!(page.shown_envelope(&unfiltered), expected);
}

#[test]
fn authorization_values() {
    assert_eq!(authorization_value("abc123"), Some("Bearer abc123".to_string()));
    assert_eq!(authorization_value("tab\tok"), Some("Bearer tab\tok".to_string()));
    assert_eq!(authorization_value("naïve"), Some("Bearer naïve".to_string()));
    assert_eq!(authorization_value("line\nbreak"), None);
    assert_eq!(authorization_value("del\u{7f}"), None);
}

#[test]
fn api_statuses() {
    assert!(api_success(200));
    assert!(api_success(299));
    assert!(!api_success(199));
    assert!(!api_success(404));
    assert_eq!(api_error_message(404, "missing"), "API error (404 Not Found): missing");
    assert_eq!(
        api_error_message(500, ""),
        "API error (500 Internal Server Error): "
    );
    assert_eq!(api_error_message(599, "x"), "API error (599 <unknown status code>): x");
}
