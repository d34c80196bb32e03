use bugsink::json::Json;
use bugsink::update::UpdateError;
use bugsink::updater::{UpdateAction, UpdateEvent, UpdateMachine};

fn release(tag: &str) -> Json {
    Json::Object(vec![
        ("tag_name".to_string(), Json::Str(tag.to_string())),
        ("name".to_string(), Json::Str(tag.to_string())),
    ])
}

fn step(machine: UpdateMachine, event: UpdateEvent) -> (UpdateMachine, UpdateAction) {
    assert!(machine.accepts(&event));
    machine.step(event)
}

fn started(current: &str) -> (UpdateMachine, UpdateAction) {
    UpdateMachine::start(current, Some("http://api".to_string()), Some("http://dl".to_string()))
}

fn to_release_answer(path: &str) -> UpdateMachine {
    let (m, a) = started("0.1.0");
    assert!(matches!(a, UpdateAction::LocateProgram));
    let (m, a) = step(m, UpdateEvent::ProgramPath { path: path.to_string() });
    match a {
        UpdateAction::FetchRelease { url } => {
            assert_eq!(url, "http://api/repos/Alfredvc/bugsink-cli/releases/latest")
        }
        _ => panic!("expected a release request"),
    }
    m
}

#[test]
fn machine_up_to_date() {
    let m = to_release_answer("/tmp/x/bugsink");
    let (m, a) = step(m, UpdateEvent::ReleaseStatus { status: 200 });
    assert!(matches!(a, UpdateAction::ReadRelease));
    let (m, a) = step(m, UpdateEvent::Release { release: release("v0.1.0") });
    match a {
        UpdateAction::Finish { report } => assert_eq!(
            report,
            Json::Object(vec![
                ("status".to_string(), Json::Str("up_to_date".to_string())),
                ("version".to_string(), Json::Str("0.1.0".to_string())),
            ])
        ),
        _ => panic!("expected the up-to-date report"),
    }
    assert!(!m.accepts(&UpdateEvent::Replaced));
}

#[test]
fn machine_successful_update() {
    let m = to_release_answer("/tmp/x/bugsink");
    let (m, _) = step(m, UpdateEvent::ReleaseStatus { status: 200 });
    let (m, a) = step(m, UpdateEvent::Release { release: release("v0.2.0") });
    assert!(matches!(a, UpdateAction::DetectPlatform));
    let (m, a) =
        step(m, UpdateEvent::Platform { os: "linux".to_string(), arch: "x86_64".to_string() });
    match a {
        UpdateAction::Download { url } => {
            assert_eq!(url, "http://dl/v0.2.0/bugsink-linux-x86_64.tar.gz")
        }
        _ => panic!("expected a download"),
    }
    let (m, a) = step(m, UpdateEvent::DownloadStatus { status: 200 });
    assert!(matches!(a, UpdateAction::Extract));
    let (m, a) = step(m, UpdateEvent::Extracted { found: true });
    match a {
        UpdateAction::Replace { target } => assert_eq!(target, "/tmp/x/bugsink"),
        _ => panic!("expected a replacement"),
    }
    let (_, a) = step(m, UpdateEvent::Replaced);
    match a {
        UpdateAction::Finish { report } => assert_eq!(
            report,
            Json::Object(vec![
                ("status".to_string(), Json::Str("updated".to_string())),
                ("previous_version".to_string(), Json::Str("0.1.0".to_string())),
                ("new_version".to_string(), Json::Str("0.2.0".to_string())),
            ])
        ),
        _ => panic!("expected the update report"),
    }
}

#[test]
fn machine_rate_limit() {
    for status in [403u16, 429] {
        let m = to_release_answer("/tmp/x/bugsink");
        let (m, a) = step(m, UpdateEvent::ReleaseStatus { status });
        match a {
            UpdateAction::Fail { error } => {
                assert_eq!(error, UpdateError::RateLimited { status });
                assert!(error.message().contains("rate limit"));
                assert!(error.message().contains("GITHUB_TOKEN"));
            }
            _ => panic!("expected the rate limit"),
        }
        assert!(!m.accepts(&UpdateEvent::ReleaseStatus { status: 200 }));
    }
}

#[test]
fn machine_other_failure_reads_body() {
    let m = to_release_answer("/tmp/x/bugsink");
    let (m, a) = step(m, UpdateEvent::ReleaseStatus { status: 500 });
    assert!(matches!(a, UpdateAction::ReadFailureBody));
    let (_, a) = step(m, UpdateEvent::FailureBody { body: "oops".to_string() });
    match a {
        UpdateAction::Fail { error } => {
            assert_eq!(error, UpdateError::GithubApi { status: 500, body: "oops".to_string() })
        }
        _ => panic!("expected an API error"),
    }
}

#[test]
fn machine_cargo_install_refusal() {
    let (m, _) = started("0.1.0");
    let (m, a) = step(
        m,
        UpdateEvent::ProgramPath { path: "/home/testuser/.cargo/bin/bugsink".to_string() },
    );
    match a {
        UpdateAction::Fail { error } => assert!(error.message().contains("cargo")),
        _ => panic!("expected the cargo refusal"),
    }
    assert!(!m.accepts(&UpdateEvent::ReleaseStatus { status: 200 }));
}

#[test]
fn machine_refuses_bad_current_version_and_platform_and_archive() {
    let (_, a) = started("not.a.version");
    assert!(matches!(a, UpdateAction::Fail { error: UpdateError::InvalidCurrentVersion { .. } }));

    let m = to_release_answer("/opt/bugsink");
    let (m, _) = step(m, UpdateEvent::ReleaseStatus { status: 200 });
    let (m, _) = step(m, UpdateEvent::Release { release: release("v1.0.0") });
    let (_, a) =
        step(m, UpdateEvent::Platform { os: "windows".to_string(), arch: "x86_64".to_string() });
    assert!(matches!(a, UpdateAction::Fail { error: UpdateError::UnsupportedOs { .. } }));

    let m = to_release_answer("/opt/bugsink");
    let (m, _) = step(m, UpdateEvent::ReleaseStatus { status: 200 });
    let (m, _) = step(m, UpdateEvent::Release { release: release("v1.0.0") });
    let (m, _) =
        step(m, UpdateEvent::Platform { os: "macos".to_string(), arch: "aarch64".to_string() });
    let (_, a) = step(m, UpdateEvent::DownloadStatus { status: 404 });
    match a {
        UpdateAction::Fail { error } => assert_eq!(
            error,
            UpdateError::NoArtifact {
                os: "darwin".to_string(),
                arch: "aarch64".to_string(),
                url: "http://dl/v1.0.0/bugsink-darwin-aarch64.tar.gz".to_string(),
            }
        ),
        _ => panic!("expected a missing artifact"),
    }

    let m = to_release_answer("/opt/bugsink");
    let (m, _) = step(m, UpdateEvent::ReleaseStatus { status: 200 });
    let (m, _) = step(m, UpdateEvent::Release { release: release("v1.0.0") });
    let (m, _) =
        step(m, UpdateEvent::Platform { os: "linux".to_string(), arch: "aarch64".to_string() });
    let (m, _) = step(m, UpdateEvent::DownloadStatus { status: 200 });
    let (_, a) = step(m, UpdateEvent::Extracted { found: false });
    assert!(matches!(a, UpdateAction::Fail { error: UpdateError::CorruptArchive }));
}

#[test]
fn machine_default_locations() {
    let (m, _) = UpdateMachine::start("0.1.0", None, None);
    let (_, a) = step(m, UpdateEvent::ProgramPath { path: "/usr/bin/bugsink".to_string() });
    match a {
        UpdateAction::FetchRelease { url } => assert_eq!(
            url,
            "https://api.github.com/repos/Alfredvc/bugsink-cli/releases/latest"
        ),
        _ => panic!("expected a release request"),
    }
}
