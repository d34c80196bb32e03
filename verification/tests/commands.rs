use bugsink::cli::{
    AuthCommands, Commands, EventsCommands, IssuesCommands, ProjectsCommands, ReleasesCommands,
    SortField, SortOrder, TeamsCommands,
};
use bugsink::commands::{api_call, ApiCall};
use bugsink::json::Json;

fn list_of(call: Option<ApiCall>) -> (String, Vec<(String, String)>) {
    match call {
        Some(ApiCall::List { path, query }) => (path, query),
        _ => panic!("not a list call"),
    }
}

fn get_of(call: Option<ApiCall>) -> String {
    match call {
        Some(ApiCall::Get { path }) => path,
        _ => panic!("not a get call"),
    }
}

fn q(pairs: &[(&str, &str)]) -> Vec<(String, String)> {
    pairs.iter().map(|(k, v)| (k.to_string(), v.to_string())).collect()
}

#[test]
fn sort_names() {
    assert_eq!(SortField::DigestOrder.as_str(), "digest_order");
    assert_eq!(SortField::LastSeen.as_str(), "last_seen");
    assert_eq!(SortOrder::Asc.as_str(), "asc");
    assert_eq!(SortOrder::Desc.as_str(), "desc");
}

#[test]
fn list_calls() {
    let (path, query) = list_of(api_call(&Commands::Teams { command: TeamsCommands::List }));
    assert_eq!((path.as_str(), query), ("teams/", q(&[])));
    let (path, query) =
        list_of(api_call(&Commands::Projects { command: ProjectsCommands::List { team: Some(3) } }));
    assert_eq!((path.as_str(), query), ("projects/", q(&[("team", "3")])));
    let (_, query) =
        list_of(api_call(&Commands::Projects { command: ProjectsCommands::List { team: None } }));
    assert_eq!(query, q(&[]));
    let (path, query) = list_of(api_call(&Commands::Issues {
        command: IssuesCommands::List {
            project: 1,
            sort: SortField::DigestOrder,
            order: SortOrder::Asc,
        },
    }));
    assert_eq!(
        (path.as_str(), query),
        ("issues/", q(&[("project", "1"), ("sort", "digest_order"), ("order", "asc")]))
    );
    let (path, query) = list_of(api_call(&Commands::Events {
        command: EventsCommands::List { issue: 42, order: SortOrder::Desc },
    }));
    assert_eq!((path.as_str(), query), ("events/", q(&[("issue", "42"), ("order", "desc")])));
    let (path, query) = list_of(api_call(&Commands::Releases {
        command: ReleasesCommands::List { project: 18446744073709551615 },
    }));
    assert_eq!((path.as_str(), query), ("releases/", q(&[("project", "18446744073709551615")])));
}

#[test]
fn get_calls() {
    assert_eq!(get_of(api_call(&Commands::Teams { command: TeamsCommands::Get { id: 1 } })), "teams/1/");
    assert_eq!(
        get_of(api_call(&Commands::Projects { command: ProjectsCommands::Get { id: 10 } })),
        "projects/10/"
    );
    assert_eq!(
        get_of(api_call(&Commands::Issues { command: IssuesCommands::Get { id: 42 } })),
        "issues/42/"
    );
    assert_eq!(
        get_of(api_call(&Commands::Events {
            command: EventsCommands::Get { id: "evt-abc".to_string() }
        })),
        "events/evt-abc/"
    );
    assert_eq!(
        get_of(api_call(&Commands::Releases { command: ReleasesCommands::Get { id: 0 } })),
        "releases/0/"
    );
    match api_call(&Commands::Events {
        command: EventsCommands::Stacktrace { id: "evt-abc".to_string() },
    }) {
        Some(ApiCall::GetText { path }) => assert_eq!(path, "events/evt-abc/stacktrace/"),
        _ => panic!("not a text call"),
    }
    assert!(matches!(api_call(&Commands::Describe), Some(ApiCall::Schema)));
    assert!(api_call(&Commands::Update).is_none());
    assert!(api_call(&Commands::Auth { command: AuthCommands::Logout }).is_none());
}

#[test]
fn create_calls() {
    match api_call(&Commands::Projects {
        command: ProjectsCommands::Create { team: 1, name: "New Project".to_string() },
    }) {
        Some(ApiCall::Post { path, body }) => {
            assert_eq!(path, "projects/");
            assert_eq!(
                body,
                Json::Object(vec![
                    ("team".to_string(), Json::Number("1".to_string())),
                    ("name".to_string(), Json::Str("New Project".to_string())),
                ])
            );
        }
        _ => panic!("not a post call"),
    }
    match api_call(&Commands::Releases {
        command: ReleasesCommands::Create { project: 1, version: "2.0.0".to_string() },
    }) {
        Some(ApiCall::Post { path, body }) => {
            assert_eq!(path, "releases/");
            assert_eq!(
                body,
                Json::Object(vec![
                    ("project".to_string(), Json::Number("1".to_string())),
                    ("version".to_string(), Json::Str("2.0.0".to_string())),
                ])
            );
        }
        _ => panic!("not a post call"),
    }
}
