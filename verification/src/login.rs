//! `auth login` as a state machine: the library decides each step, and the
//! program around it prompts, opens the browser, checks the credentials
//! against the API and writes the configuration file.

use vstd::prelude::*;
use crate::auth::{login_report, login_token, login_url, login_url_of, token_page_url, AuthError};
use crate::json::{json_view, Json, JsonView};
use crate::text::{is_char, lemma_drop_trailing_shape, trimmed};

verus! {

/// Where a login stands.
pub enum LoginState {
    /// Waiting for the instance URL.
    AwaitUrl,
    /// Waiting for the token, for this URL.
    AwaitToken { url: String },
    /// Waiting for the API's answer to these credentials.
    AwaitCheck { url: String, token: String },
    /// Waiting for the configuration to be written, for this URL.
    AwaitSaved { url: String },
    /// Finished or failed.
    Done,
}

/// What the program around the machine reports back.
pub enum LoginEvent {
    /// The line typed at the URL prompt.
    UrlTyped { typed: String },
    /// The line typed at the token prompt.
    TokenTyped { typed: String },
    /// Whether the API accepted the credentials.
    Checked { accepted: bool },
    /// The configuration was written.
    Saved,
}

/// What the machine asks the program around it to do next.
pub enum LoginAction {
    /// Ask for the instance URL.
    PromptUrl,
    /// Show (and open in a browser) the page where tokens are made, then
    /// ask for the token.
    PromptToken { token_page: String },
    /// Call the API with these credentials.
    Check { url: String, token: String },
    /// Write these credentials to the configuration file.
    Save { url: String, token: String },
    /// Print this report; the command is done.
    Finish { report: Json },
    /// Stop with this error.
    Fail { error: AuthError },
}

pub enum LoginStateView {
    AwaitUrl,
    AwaitToken(Seq<char>),
    AwaitCheck(Seq<char>, Seq<char>),
    AwaitSaved(Seq<char>),
    Done,
}

pub enum LoginEventView {
    UrlTyped(Seq<char>),
    TokenTyped(Seq<char>),
    Checked(bool),
    Saved,
}

pub enum LoginActionView {
    PromptUrl,
    PromptToken(Seq<char>),
    Check(Seq<char>, Seq<char>),
    Save(Seq<char>, Seq<char>),
    Finish(JsonView),
    Fail(AuthError),
}

pub open spec fn login_state_view(s: LoginState) -> LoginStateView {
    match s {
        LoginState::AwaitUrl => LoginStateView::AwaitUrl,
        LoginState::AwaitToken { url } => LoginStateView::AwaitToken(url@),
        LoginState::AwaitCheck { url, token } => LoginStateView::AwaitCheck(url@, token@),
        LoginState::AwaitSaved { url } => LoginStateView::AwaitSaved(url@),
        LoginState::Done => LoginStateView::Done,
    }
}

pub open spec fn login_event_view(e: LoginEvent) -> LoginEventView {
    match e {
        LoginEvent::UrlTyped { typed } => LoginEventView::UrlTyped(typed@),
        LoginEvent::TokenTyped { typed } => LoginEventView::TokenTyped(typed@),
        LoginEvent::Checked { accepted } => LoginEventView::Checked(accepted),
        LoginEvent::Saved => LoginEventView::Saved,
    }
}

pub open spec fn login_action_view(a: LoginAction) -> LoginActionView {
    match a {
        LoginAction::PromptUrl => LoginActionView::PromptUrl,
        LoginAction::PromptToken { token_page } => LoginActionView::PromptToken(token_page@),
        LoginAction::Check { url, token } => LoginActionView::Check(url@, token@),
        LoginAction::Save { url, token } => LoginActionView::Save(url@, token@),
        LoginAction::Finish { report } => LoginActionView::Finish(json_view(report)),
        LoginAction::Fail { error } => LoginActionView::Fail(error),
    }
}

/// The report after a successful login.
pub open spec fn authenticated_view(url: Seq<char>) -> JsonView {
    JsonView::Object(
        seq![("status"@, JsonView::Str("authenticated"@)), ("url"@, JsonView::Str(url))],
    )
}

/// The next state and action after an event, if the machine expects that
/// event where it stands.
pub open spec fn login_next(s: LoginStateView, e: LoginEventView) -> Option<
    (LoginStateView, LoginActionView),
> {
    match (s, e) {
        (LoginStateView::AwaitUrl, LoginEventView::UrlTyped(typed)) => Some(
            if login_url_of(typed).len() == 0 {
                (LoginStateView::Done, LoginActionView::Fail(AuthError::EmptyUrl))
            } else {
                let url = login_url_of(typed);
                (
                    LoginStateView::AwaitToken(url),
                    LoginActionView::PromptToken(url + "/bsmain/auth_tokens/"@),
                )
            },
        ),
        (LoginStateView::AwaitToken(url), LoginEventView::TokenTyped(typed)) => Some(
            if trimmed(typed).len() == 0 {
                (LoginStateView::Done, LoginActionView::Fail(AuthError::EmptyToken))
            } else {
                (
                    LoginStateView::AwaitCheck(url, trimmed(typed)),
                    LoginActionView::Check(url, trimmed(typed)),
                )
            },
        ),
        (LoginStateView::AwaitCheck(url, token), LoginEventView::Checked(accepted)) => Some(
            if accepted {
                (LoginStateView::AwaitSaved(url), LoginActionView::Save(url, token))
            } else {
                (LoginStateView::Done, LoginActionView::Fail(AuthError::ConnectionFailed))
            },
        ),
        (LoginStateView::AwaitSaved(url), LoginEventView::Saved) => Some(
            (LoginStateView::Done, LoginActionView::Finish(authenticated_view(url))),
        ),
        _ => None,
    }
}

/// A login that is under way.
pub struct LoginMachine {
    state: LoginState,
}

impl View for LoginMachine {
    type V = LoginStateView;

    closed spec fn view(&self) -> LoginStateView {
        login_state_view(self.state)
    }
}

impl LoginMachine {
    /// Starts a login: the URL is asked for first.
    pub fn start() -> (r: (LoginMachine, LoginAction))
        ensures
            r.0@ == LoginStateView::AwaitUrl,
            login_action_view(r.1) == LoginActionView::PromptUrl,
    {
        (LoginMachine { state: LoginState::AwaitUrl }, LoginAction::PromptUrl)
    }

    /// Whether the machine expects `event` where it stands.
    pub fn accepts(&self, event: &LoginEvent) -> (b: bool)
        ensures
            b == login_next(self@, login_event_view(*event)) is Some,
    {
        match (&self.state, event) {
            (LoginState::AwaitUrl, LoginEvent::UrlTyped { .. }) => true,
            (LoginState::AwaitToken { .. }, LoginEvent::TokenTyped { .. }) => true,
            (LoginState::AwaitCheck { .. }, LoginEvent::Checked { .. }) => true,
            (LoginState::AwaitSaved { .. }, LoginEvent::Saved) => true,
            _ => false,
        }
    }

    /// Takes one step: the state after `event`, and what to do next.
    pub fn step(self, event: LoginEvent) -> (r: (LoginMachine, LoginAction))
        requires
            login_next(self@, login_event_view(event)) is Some,
        ensures
            login_next(self@, login_event_view(event)) == Some((r.0@, login_action_view(r.1))),
    {
        proof {
            reveal_strlit("/bsmain/auth_tokens/");
        }
        let (state, action) = match (self.state, event) {
            (LoginState::AwaitUrl, LoginEvent::UrlTyped { typed }) => match login_url(
                typed.as_str(),
            ) {
                Err(error) => (LoginState::Done, LoginAction::Fail { error }),
                Ok(url) => {
                    let token_page = token_page_url(url.as_str());
                    (LoginState::AwaitToken { url }, LoginAction::PromptToken { token_page })
                },
            },
            (LoginState::AwaitToken { url }, LoginEvent::TokenTyped { typed }) => match login_token(
                typed.as_str(),
            ) {
                Err(error) => (LoginState::Done, LoginAction::Fail { error }),
                Ok(token) => {
                    let checked_url = url.clone();
                    let checked_token = token.clone();
                    (
                        LoginState::AwaitCheck { url, token },
                        LoginAction::Check { url: checked_url, token: checked_token },
                    )
                },
            },
            (LoginState::AwaitCheck { url, token }, LoginEvent::Checked { accepted }) => {
                if accepted {
                    let saved_url = url.clone();
                    (LoginState::AwaitSaved { url }, LoginAction::Save { url: saved_url, token })
                } else {
                    (LoginState::Done, LoginAction::Fail { error: AuthError::ConnectionFailed })
                }
            },
            (LoginState::AwaitSaved { url }, LoginEvent::Saved) => {
                let report = login_report(url.as_str());
                (LoginState::Done, LoginAction::Finish { report })
            },
            (state, _) => {
                assert(false);
                (state, LoginAction::PromptUrl)
            },
        };
        (LoginMachine { state }, action)
    }
}

// ---------------------------------------------------------------------------
// Laws
// ---------------------------------------------------------------------------

/// What holds in each state: credentials held by the machine are never
/// empty.
pub open spec fn login_sound(s: LoginStateView) -> bool {
    match s {
        LoginStateView::AwaitToken(url) => url.len() > 0,
        LoginStateView::AwaitCheck(url, token) => url.len() > 0 && token.len() > 0,
        LoginStateView::AwaitSaved(url) => url.len() > 0,
        _ => true,
    }
}

/// The machine after a sequence of events, with the action it asked for
/// after each; none if some event was not expected.
pub open spec fn login_run(s: LoginStateView, events: Seq<LoginEventView>) -> Option<
    (LoginStateView, Seq<LoginActionView>),
>
    decreases events.len(),
{
    if events.len() == 0 {
        Some((s, Seq::<LoginActionView>::empty()))
    } else {
        match login_next(s, events[0]) {
            None => None,
            Some((next, action)) => match login_run(next, events.drop_first()) {
                None => None,
                Some((end, actions)) => Some((end, seq![action] + actions)),
            },
        }
    }
}

/// What a run must show of each save: it answers an accepted check, and it
/// writes the very credentials, neither empty, that the action before it
/// asked to check.
pub open spec fn saves_checked(
    prev: LoginActionView,
    events: Seq<LoginEventView>,
    actions: Seq<LoginActionView>,
) -> bool {
    forall|i: int|
        0 <= i < actions.len() ==> (#[trigger] actions[i] matches LoginActionView::Save(url, token)
            ==> {
            &&& events[i] == LoginEventView::Checked(true)
            &&& url.len() > 0 && token.len() > 0
            &&& (seq![prev] + actions)[i] == LoginActionView::Check(url, token)
        })
}

/// One step keeps the machine sound; a save answers an accepted check of
/// the same credentials, and only a check leads to the state that awaits
/// one.
pub proof fn lemma_login_step(s: LoginStateView, e: LoginEventView)
    requires
        login_sound(s),
        login_next(s, e) is Some,
    ensures
        ({
            let (next, action) = login_next(s, e)->0;
            &&& login_sound(next)
            &&& action matches LoginActionView::Save(url, token) ==> {
                &&& s == LoginStateView::AwaitCheck(url, token)
                &&& e == LoginEventView::Checked(true)
            }
            &&& next matches LoginStateView::AwaitCheck(url, token) ==> action
                == LoginActionView::Check(url, token)
        }),
{
}

/// Over any run from a sound state (where a state awaiting a check was
/// reached by asking for that check, `prev`), the configuration is written
/// only after the API accepted the credentials, and only with the non-empty
/// credentials that were checked.
pub proof fn lemma_login_run(
    s: LoginStateView,
    prev: LoginActionView,
    events: Seq<LoginEventView>,
)
    requires
        login_sound(s),
        s matches LoginStateView::AwaitCheck(url, token) ==> prev == LoginActionView::Check(
            url,
            token,
        ),
        login_run(s, events) is Some,
    ensures
        ({
            let (end, actions) = login_run(s, events)->0;
            &&& login_sound(end)
            &&& actions.len() == events.len()
            &&& saves_checked(prev, events, actions)
        }),
    decreases events.len(),
{
    if events.len() > 0 {
        let (next, action) = login_next(s, events[0])->0;
        lemma_login_step(s, events[0]);
        let rest = events.drop_first();
        lemma_login_run(next, action, rest);
        let (end, actions) = login_run(next, rest)->0;
        let all = seq![action] + actions;
        assert forall|i: int| 0 <= i < all.len() implies (#[trigger] all[i] matches LoginActionView::Save(
            url,
            token,
        ) ==> {
            &&& events[i] == LoginEventView::Checked(true)
            &&& url.len() > 0 && token.len() > 0
            &&& (seq![prev] + all)[i] == LoginActionView::Check(url, token)
        }) by {
            if i == 0 {
                assert(all[0] == action);
                assert((seq![prev] + all)[0] == prev);
            } else {
                assert(all[i] == actions[i - 1]);
                assert(events[i] == rest[i - 1]);
                assert((seq![prev] + all)[i] == (seq![action] + actions)[i - 1]);
            }
        }
    }
}

/// From its start, a login writes the configuration only after the API
/// accepted the credentials, and only with the non-empty URL and token that
/// were checked just before.
pub proof fn lemma_login_from_start(events: Seq<LoginEventView>)
    requires
        login_run(LoginStateView::AwaitUrl, events) is Some,
    ensures
        ({
            let (end, actions) = login_run(LoginStateView::AwaitUrl, events)->0;
            saves_checked(LoginActionView::PromptUrl, events, actions)
        }),
{
    lemma_login_run(LoginStateView::AwaitUrl, LoginActionView::PromptUrl, events);
}

/// The first step of a login, for any line typed at the URL prompt: once
/// white space is trimmed from the line, it is refused (as an empty URL)
/// exactly when nothing but slashes is left. Otherwise the login goes on
/// with the URL that is the trimmed line without its trailing slashes (a
/// non-empty prefix of it that does not end with a slash, followed only by
/// slashes), whatever its scheme or host, and shows that instance's token
/// page.
pub proof fn lemma_login_url_step(typed: Seq<char>)
    ensures
        ({
            let t = trimmed(typed);
            let step = login_next(LoginStateView::AwaitUrl, LoginEventView::UrlTyped(typed));
            &&& step is Some
            &&& (forall|i: int| 0 <= i < t.len() ==> t[i] == '/') <==> step == Some(
                (LoginStateView::Done, LoginActionView::Fail(AuthError::EmptyUrl)),
            )
            &&& !(forall|i: int| 0 <= i < t.len() ==> t[i] == '/') ==> (step matches Some(
                (LoginStateView::AwaitToken(url), LoginActionView::PromptToken(page)),
            ) && {
                &&& 0 < url.len() <= t.len()
                &&& url == t.take(url.len() as int)
                &&& url.last() != '/'
                &&& forall|i: int| url.len() <= i < t.len() ==> t[i] == '/'
                &&& page == url + "/bsmain/auth_tokens/"@
            })
        }),
{
    let t = trimmed(typed);
    let u = login_url_of(typed);
    lemma_drop_trailing_shape(t, is_char('/'));
    if u.len() == 0 {
        assert forall|i: int| 0 <= i < t.len() implies t[i] == '/' by {
            assert(is_char('/')(t[i]));
        }
    } else {
        assert(!is_char('/')(u.last()));
        assert(t[u.len() - 1] == u.last());
        assert(!(forall|i: int| 0 <= i < t.len() ==> t[i] == '/'));
        assert forall|i: int| u.len() <= i < t.len() implies t[i] == '/' by {
            assert(is_char('/')(t[i]));
        }
    }
}

} // verus!
