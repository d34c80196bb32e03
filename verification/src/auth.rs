//! The decisions of `auth login`, `auth status` and `auth logout`.

use vstd::prelude::*;
use crate::config::{ConfigError, ResolvedConfig};
use crate::json::{json_view, Json, JsonView};
use crate::text::{append_str, drop_trailing, is_char, trim_end_char, trim_white_space, trimmed};

verus! {

/// Why a login was refused.
#[derive(Debug, PartialEq, Eq, Structural)]
pub enum AuthError {
    EmptyUrl,
    EmptyToken,
    /// The API refused the credentials, or could not be reached.
    ConnectionFailed,
}

/// The message of each error.
pub open spec fn auth_error_text(e: AuthError) -> Seq<char> {
    match e {
        AuthError::EmptyUrl => "URL cannot be empty"@,
        AuthError::EmptyToken => "Token cannot be empty"@,
        AuthError::ConnectionFailed =>
            "Failed to connect to Bugsink. Check your URL and token."@,
    }
}

/// The URL that a login keeps from what was typed: white space trimmed,
/// then trailing slashes removed.
pub open spec fn login_url_of(typed: Seq<char>) -> Seq<char> {
    drop_trailing(trimmed(typed), is_char('/'))
}

/// The outcome of checking the stored credentials against the API.
pub enum Verification {
    /// No check was asked for.
    NotRequested,
    /// The API accepted them.
    Succeeded,
    /// The API call failed, with this message.
    Failed { message: String },
}

/// The URL of a configuration that resolved, if URL and token both did.
pub open spec fn resolved_url(resolved: Result<ResolvedConfig, ConfigError>) -> Option<Seq<char>> {
    match resolved {
        Ok(c) => Some(c.url@),
        Err(_) => None,
    }
}

/// The report of `auth status` when no URL and token can be found.
pub open spec fn not_configured_view() -> JsonView {
    JsonView::Object(seq![("status"@, JsonView::Str("not_configured"@))])
}

/// The report of `auth status`, for the URL that resolved from flags,
/// environment or file, if URL and token both did.
pub open spec fn status_view(url: Option<Seq<char>>, verification: Verification) -> JsonView {
    match url {
        Some(url) => match verification {
            Verification::NotRequested => JsonView::Object(
                seq![("status"@, JsonView::Str("configured"@)), ("url"@, JsonView::Str(url))],
            ),
            Verification::Succeeded => JsonView::Object(
                seq![("status"@, JsonView::Str("verified"@)), ("url"@, JsonView::Str(url))],
            ),
            Verification::Failed { message } => JsonView::Object(
                seq![
                    ("status"@, JsonView::Str("error"@)),
                    ("url"@, JsonView::Str(url)),
                    ("error"@, JsonView::Str(message@)),
                ],
            ),
        },
        None => not_configured_view(),
    }
}

impl AuthError {
    /// The message shown to the user.
    pub fn message(&self) -> (r: String)
        ensures
            r@ == auth_error_text(*self),
    {
        match self {
            AuthError::EmptyUrl => String::from_str("URL cannot be empty"),
            AuthError::EmptyToken => String::from_str("Token cannot be empty"),
            AuthError::ConnectionFailed => String::from_str(
                "Failed to connect to Bugsink. Check your URL and token.",
            ),
        }
    }
}

/// The instance URL typed at the login prompt; refused when nothing is left
/// of it.
pub fn login_url(typed: &str) -> (r: Result<String, AuthError>)
    ensures
        r is Ok <==> login_url_of(typed@).len() > 0,
        r matches Ok(u) ==> u@ == login_url_of(typed@),
        r is Err ==> r == Err::<String, AuthError>(AuthError::EmptyUrl),
{
    let t = trim_white_space(typed);
    let u = trim_end_char(t.as_str(), '/');
    if u.as_str().unicode_len() == 0 {
        Err(AuthError::EmptyUrl)
    } else {
        Ok(u)
    }
}

/// The page of an instance where API tokens are created.
pub fn token_page_url(url: &str) -> (r: String)
    ensures
        r@ == url@ + "/bsmain/auth_tokens/"@,
{
    let mut r = url.to_owned();
    append_str(&mut r, "/bsmain/auth_tokens/");
    r
}

/// The token typed at the login prompt, trimmed of white space; refused
/// when empty.
pub fn login_token(typed: &str) -> (r: Result<String, AuthError>)
    ensures
        r is Ok <==> trimmed(typed@).len() > 0,
        r matches Ok(t) ==> t@ == trimmed(typed@),
        r is Err ==> r == Err::<String, AuthError>(AuthError::EmptyToken),
{
    let t = trim_white_space(typed);
    if t.as_str().unicode_len() == 0 {
        Err(AuthError::EmptyToken)
    } else {
        Ok(t)
    }
}

/// The report after a successful login.
pub fn login_report(url: &str) -> (r: Json)
    ensures
        json_view(r) == JsonView::Object(
            seq![("status"@, JsonView::Str("authenticated"@)), ("url"@, JsonView::Str(url@))],
        ),
{
    Json::object2("status", Json::string("authenticated"), "url", Json::string(url))
}

/// A report for a resolved URL is never the `not_configured` one.
proof fn lemma_configured_report(url: Seq<char>, verification: Verification)
    ensures
        status_view(Some(url), verification) != not_configured_view(),
{
    let shown = status_view(Some(url), verification);
    match verification {
        Verification::Failed { .. } => {
            assert(shown->Object_0.len() == 3);
        },
        _ => {
            assert(shown->Object_0.len() == 2);
        },
    }
    assert(not_configured_view()->Object_0.len() == 1);
}

/// Whether `auth status` calls the API: only when asked to verify and both
/// URL and token resolved, from flags, environment or file.
pub fn should_verify(resolved: &Result<ResolvedConfig, ConfigError>, verify: bool) -> (r: bool)
    ensures
        r == (verify && resolved is Ok),
{
    verify && resolved.is_ok()
}

/// The report of `auth status`, given how URL and token resolved. It says
/// `not_configured` exactly when they did not resolve.
pub fn status_report(resolved: &Result<ResolvedConfig, ConfigError>, verification: Verification) -> (r: Json)
    ensures
        json_view(r) == status_view(resolved_url(*resolved), verification),
        resolved is Err <==> json_view(r) == not_configured_view(),
{
    proof {
        if let Ok(c) = resolved {
            lemma_configured_report(c.url@, verification);
        }
    }
    match resolved {
        Ok(c) => match verification {
            Verification::NotRequested => Json::object2(
                "status",
                Json::string("configured"),
                "url",
                Json::string(c.url.as_str()),
            ),
            Verification::Succeeded => Json::object2(
                "status",
                Json::string("verified"),
                "url",
                Json::string(c.url.as_str()),
            ),
            Verification::Failed { message } => Json::object3(
                "status",
                Json::string("error"),
                "url",
                Json::string(c.url.as_str()),
                "error",
                Json::Str(message),
            ),
        },
        Err(_) => Json::object1("status", Json::string("not_configured")),
    }
}

/// The report after logging out.
pub fn logout_report() -> (r: Json)
    ensures
        json_view(r) == JsonView::Object(seq![("status"@, JsonView::Str("logged_out"@))]),
{
    Json::object1("status", Json::string("logged_out"))
}

} // verus!
