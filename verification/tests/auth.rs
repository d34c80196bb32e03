use bugsink::auth::{
    login_report, login_token, login_url, logout_report, should_verify, status_report,
    token_page_url, AuthError, Verification,
};
use bugsink::config::Config;
use bugsink::login::{LoginAction, LoginEvent, LoginMachine};
use bugsink::json::Json;

fn s(x: &str) -> Json {
    Json::Str(x.to_string())
}

fn obj(members: Vec<(&str, Json)>) -> Json {
    Json::Object(members.into_iter().map(|(k, v)| (k.to_string(), v)).collect())
}

#[test]
fn login_inputs() {
    assert_eq!(login_url("  https://b.example// \n"), Ok("https://b.example".to_string()));
    assert_eq!(login_url(" / \n"), Err(AuthError::EmptyUrl));
    assert_eq!(login_url("\n"), Err(AuthError::EmptyUrl));
    assert_eq!(login_token("  abc123\n"), Ok("abc123".to_string()));
    assert_eq!(login_token(" \t\n"), Err(AuthError::EmptyToken));
    assert_eq!(AuthError::EmptyUrl.message(), "URL cannot be empty");
    assert_eq!(AuthError::EmptyToken.message(), "Token cannot be empty");
    assert_eq!(token_page_url("https://b.example"), "https://b.example/bsmain/auth_tokens/");
}

#[test]
fn auth_reports() {
    assert_eq!(
        login_report("https://b.example"),
        obj(vec![("status", s("authenticated")), ("url", s("https://b.example"))])
    );
    assert_eq!(logout_report(), obj(vec![("status", s("logged_out"))]));
    let configured = Config::resolve(
        None,
        None,
        None,
        None,
        Some(Config { url: Some("https://b/".to_string()), token: Some("t".to_string()) }),
    );
    assert!(should_verify(&configured, true));
    assert!(!should_verify(&configured, false));
    assert_eq!(
        status_report(&configured, Verification::NotRequested),
        obj(vec![("status", s("configured")), ("url", s("https://b"))])
    );
    assert_eq!(
        status_report(&configured, Verification::Succeeded),
        obj(vec![("status", s("verified")), ("url", s("https://b"))])
    );
    assert_eq!(
        status_report(&configured, Verification::Failed { message: "down".to_string() }),
        obj(vec![("status", s("error")), ("url", s("https://b")), ("error", s("down"))])
    );
    let half = Config::resolve(
        None,
        None,
        None,
        None,
        Some(Config { url: Some("https://b".to_string()), token: None }),
    );
    assert!(!should_verify(&half, true));
    assert_eq!(
        status_report(&half, Verification::NotRequested),
        obj(vec![("status", s("not_configured"))])
    );
}

#[test]
fn status_counts_credentials_from_the_environment() {
    // No configuration file, but URL and token in the environment.
    let from_env = Config::resolve(
        None,
        None,
        Some("https://bugsink.example".to_string()),
        Some("secret".to_string()),
        Some(Config::default()),
    );
    assert!(!should_verify(&from_env, false));
    assert_eq!(
        status_report(&from_env, Verification::NotRequested),
        obj(vec![("status", s("configured")), ("url", s("https://bugsink.example"))])
    );
    let from_flags = Config::resolve(Some("https://f"), Some("t"), None, None, None);
    assert!(should_verify(&from_flags, true));
    assert_eq!(
        status_report(&from_flags, Verification::Succeeded),
        obj(vec![("status", s("verified")), ("url", s("https://f"))])
    );
    let nothing = Config::resolve(None, None, None, None, Some(Config::default()));
    assert_eq!(
        status_report(&nothing, Verification::NotRequested),
        obj(vec![("status", s("not_configured"))])
    );
}

#[test]
fn login_steps() {
    let (m, a) = LoginMachine::start();
    assert!(matches!(a, LoginAction::PromptUrl));
    let e = LoginEvent::UrlTyped { typed: " https://b.example/ \n".to_string() };
    assert!(m.accepts(&e));
    assert!(!m.accepts(&LoginEvent::Saved));
    let (m, a) = m.step(e);
    match a {
        LoginAction::PromptToken { token_page } => {
            assert_eq!(token_page, "https://b.example/bsmain/auth_tokens/")
        }
        _ => panic!("expected the token prompt"),
    }
    let (m, a) = m.step(LoginEvent::TokenTyped { typed: " tok \n".to_string() });
    match a {
        LoginAction::Check { url, token } => {
            assert_eq!(url, "https://b.example");
            assert_eq!(token, "tok");
        }
        _ => panic!("expected a check"),
    }
    let (m, a) = m.step(LoginEvent::Checked { accepted: true });
    match a {
        LoginAction::Save { url, token } => {
            assert_eq!(url, "https://b.example");
            assert_eq!(token, "tok");
        }
        _ => panic!("expected a save"),
    }
    let (_, a) = m.step(LoginEvent::Saved);
    match a {
        LoginAction::Finish { report } => assert_eq!(
            report,
            obj(vec![("status", s("authenticated")), ("url", s("https://b.example"))])
        ),
        _ => panic!("expected the report"),
    }
}

#[test]
fn login_refusals() {
    let (m, _) = LoginMachine::start();
    let (_, a) = m.step(LoginEvent::UrlTyped { typed: " / \n".to_string() });
    assert!(matches!(a, LoginAction::Fail { error: AuthError::EmptyUrl }));

    let (m, _) = LoginMachine::start();
    let (m, _) = m.step(LoginEvent::UrlTyped { typed: "https://b".to_string() });
    let (_, a) = m.step(LoginEvent::TokenTyped { typed: "\n".to_string() });
    assert!(matches!(a, LoginAction::Fail { error: AuthError::EmptyToken }));

    let (m, _) = LoginMachine::start();
    let (m, _) = m.step(LoginEvent::UrlTyped { typed: "https://b".to_string() });
    let (m, _) = m.step(LoginEvent::TokenTyped { typed: "t".to_string() });
    assert!(!m.accepts(&LoginEvent::Saved));
    let (_, a) = m.step(LoginEvent::Checked { accepted: false });
    match a {
        LoginAction::Fail { error } => {
            assert_eq!(error, AuthError::ConnectionFailed);
            assert_eq!(error.message(), "Failed to connect to Bugsink. Check your URL and token.");
        }
        _ => panic!("expected a failure"),
    }
}
