//! The self-update command as a state machine: the library decides each
//! step, and the program around it performs the requests, reads the
//! archive, replaces the file, and reports back what happened.

use vstd::prelude::*;
use crate::json::{json_view, Json, JsonView};
use crate::paths::in_cargo_bin;
use crate::update::{
    archive_url, archive_url_of, check_download, check_for_update, check_install_method,
    current_version, detect_platform, github_api_base_url, github_download_base_url, is_success,
    latest_release_url, platform_of, release_response, release_tag, repo, strip_v,
    up_to_date_report, updated_report, updated_view, PlatformSupport, ReleaseResponse,
    UpdateError,
};
use crate::version::{
    core_before, identifier_chars, lemma_version_text_injective, semver_accepts, semver_le, version_text,
    Version,
};

verus! {

/// What the program around the machine reports back.
pub enum UpdateEvent {
    /// The path of the running program.
    ProgramPath { path: String },
    /// The HTTP status of the request for the latest release.
    ReleaseStatus { status: u16 },
    /// The latest release, as JSON.
    Release { release: Json },
    /// The body of a failed release request.
    FailureBody { body: String },
    /// The operating system and architecture, as Rust names them.
    Platform { os: String, arch: String },
    /// The HTTP status of the archive download.
    DownloadStatus { status: u16 },
    /// Whether the archive held the program.
    Extracted { found: bool },
    /// The program was replaced.
    Replaced,
}

/// What the machine asks the program around it to do next.
pub enum UpdateAction {
    /// Find the path of the running program.
    LocateProgram,
    /// Request the latest release from this URL.
    FetchRelease { url: String },
    /// Read the release from the answer, as JSON.
    ReadRelease,
    /// Read the body of the failed answer, as text.
    ReadFailureBody,
    /// Find the operating system and architecture.
    DetectPlatform,
    /// Download the release archive from this URL.
    Download { url: String },
    /// Take the program out of the downloaded archive.
    Extract,
    /// Put the extracted program in place of the file at `target`.
    Replace { target: String },
    /// Print this report; the command is done.
    Finish { report: Json },
    /// Stop with this error.
    Fail { error: UpdateError },
}

/// Where the machine stands.
pub enum UpdateState {
    NeedPath { current: String },
    AwaitRelease { current: String, program: String },
    ReadingRelease { current: String, program: String },
    ReadingFailure { status: u16 },
    NeedPlatform { current: String, latest: String, program: String },
    AwaitDownload {
        current: String,
        latest: String,
        program: String,
        os: String,
        arch: String,
        url: String,
    },
    AwaitExtract { current: String, latest: String, program: String },
    AwaitReplace { current: String, latest: String, program: String },
    Done,
}

/// The self-update machine.
pub struct UpdateMachine {
    api_base: String,
    download_base: String,
    state: UpdateState,
}

// ---------------------------------------------------------------------------
// Views
// ---------------------------------------------------------------------------

pub enum EventView {
    ProgramPath(Seq<char>),
    ReleaseStatus(u16),
    Release(JsonView),
    FailureBody(Seq<char>),
    Platform(Seq<char>, Seq<char>),
    DownloadStatus(u16),
    Extracted(bool),
    Replaced,
}

pub enum ErrorView {
    InvalidCurrentVersion(Seq<char>),
    CargoInstalled(Seq<char>),
    RateLimited(u16),
    GithubApi(u16, Seq<char>),
    MissingTagName,
    InvalidTag(Seq<char>),
    UnsupportedOs(Seq<char>),
    UnsupportedArch(Seq<char>),
    NoArtifact(Seq<char>, Seq<char>, Seq<char>),
    CorruptArchive,
    InvalidGithubToken,
}

pub enum ActionView {
    LocateProgram,
    FetchRelease(Seq<char>),
    ReadRelease,
    ReadFailureBody,
    DetectPlatform,
    Download(Seq<char>),
    Extract,
    Replace(Seq<char>),
    Finish(JsonView),
    Fail(ErrorView),
}

pub enum StateView {
    NeedPath { current: Seq<char> },
    AwaitRelease { current: Seq<char>, program: Seq<char> },
    ReadingRelease { current: Seq<char>, program: Seq<char> },
    ReadingFailure { status: u16 },
    NeedPlatform { current: Seq<char>, latest: Seq<char>, program: Seq<char> },
    AwaitDownload {
        current: Seq<char>,
        latest: Seq<char>,
        program: Seq<char>,
        os: Seq<char>,
        arch: Seq<char>,
        url: Seq<char>,
    },
    AwaitExtract { current: Seq<char>, latest: Seq<char>, program: Seq<char> },
    AwaitReplace { current: Seq<char>, latest: Seq<char>, program: Seq<char> },
    Done,
}

pub struct MachineView {
    pub api_base: Seq<char>,
    pub download_base: Seq<char>,
    pub state: StateView,
}

pub open spec fn event_view(e: UpdateEvent) -> EventView {
    match e {
        UpdateEvent::ProgramPath { path } => EventView::ProgramPath(path@),
        UpdateEvent::ReleaseStatus { status } => EventView::ReleaseStatus(status),
        UpdateEvent::Release { release } => EventView::Release(json_view(release)),
        UpdateEvent::FailureBody { body } => EventView::FailureBody(body@),
        UpdateEvent::Platform { os, arch } => EventView::Platform(os@, arch@),
        UpdateEvent::DownloadStatus { status } => EventView::DownloadStatus(status),
        UpdateEvent::Extracted { found } => EventView::Extracted(found),
        UpdateEvent::Replaced => EventView::Replaced,
    }
}

pub open spec fn error_view(e: UpdateError) -> ErrorView {
    match e {
        UpdateError::InvalidCurrentVersion { text } => ErrorView::InvalidCurrentVersion(text@),
        UpdateError::CargoInstalled { path } => ErrorView::CargoInstalled(path@),
        UpdateError::RateLimited { status } => ErrorView::RateLimited(status),
        UpdateError::GithubApi { status, body } => ErrorView::GithubApi(status, body@),
        UpdateError::MissingTagName => ErrorView::MissingTagName,
        UpdateError::InvalidTag { tag } => ErrorView::InvalidTag(tag@),
        UpdateError::UnsupportedOs { os } => ErrorView::UnsupportedOs(os@),
        UpdateError::UnsupportedArch { arch } => ErrorView::UnsupportedArch(arch@),
        UpdateError::NoArtifact { os, arch, url } => ErrorView::NoArtifact(os@, arch@, url@),
        UpdateError::CorruptArchive => ErrorView::CorruptArchive,
        UpdateError::InvalidGithubToken => ErrorView::InvalidGithubToken,
    }
}

pub open spec fn action_view(a: UpdateAction) -> ActionView {
    match a {
        UpdateAction::LocateProgram => ActionView::LocateProgram,
        UpdateAction::FetchRelease { url } => ActionView::FetchRelease(url@),
        UpdateAction::ReadRelease => ActionView::ReadRelease,
        UpdateAction::ReadFailureBody => ActionView::ReadFailureBody,
        UpdateAction::DetectPlatform => ActionView::DetectPlatform,
        UpdateAction::Download { url } => ActionView::Download(url@),
        UpdateAction::Extract => ActionView::Extract,
        UpdateAction::Replace { target } => ActionView::Replace(target@),
        UpdateAction::Finish { report } => ActionView::Finish(json_view(report)),
        UpdateAction::Fail { error } => ActionView::Fail(error_view(error)),
    }
}

pub open spec fn state_view(s: UpdateState) -> StateView {
    match s {
        UpdateState::NeedPath { current } => StateView::NeedPath { current: current@ },
        UpdateState::AwaitRelease { current, program } => StateView::AwaitRelease {
            current: current@,
            program: program@,
        },
        UpdateState::ReadingRelease { current, program } => StateView::ReadingRelease {
            current: current@,
            program: program@,
        },
        UpdateState::ReadingFailure { status } => StateView::ReadingFailure { status },
        UpdateState::NeedPlatform { current, latest, program } => StateView::NeedPlatform {
            current: current@,
            latest: latest@,
            program: program@,
        },
        UpdateState::AwaitDownload { current, latest, program, os, arch, url } =>
            StateView::AwaitDownload {
            current: current@,
            latest: latest@,
            program: program@,
            os: os@,
            arch: arch@,
            url: url@,
        },
        UpdateState::AwaitExtract { current, latest, program } => StateView::AwaitExtract {
            current: current@,
            latest: latest@,
            program: program@,
        },
        UpdateState::AwaitReplace { current, latest, program } => StateView::AwaitReplace {
            current: current@,
            latest: latest@,
            program: program@,
        },
        UpdateState::Done => StateView::Done,
    }
}

impl View for UpdateMachine {
    type V = MachineView;

    closed spec fn view(&self) -> MachineView {
        MachineView {
            api_base: self.api_base@,
            download_base: self.download_base@,
            state: state_view(self.state),
        }
    }
}

// ---------------------------------------------------------------------------
// The machine's rules
// ---------------------------------------------------------------------------

/// The version that `semver` gives for `text` (determined by the text; see
/// `lemma_version_text_injective`).
pub open spec fn semver_of(text: Seq<char>) -> (u64, u64, u64, Seq<char>, Seq<char>) {
    choose|v: (u64, u64, u64, Seq<char>, Seq<char>)|
        identifier_chars(v.3) && identifier_chars(v.4) && version_text(v) == text
}

/// The report when the installed version is up to date.
pub open spec fn up_to_date_view(current: Seq<char>) -> JsonView {
    JsonView::Object(
        seq![("status"@, JsonView::Str("up_to_date"@)), ("version"@, JsonView::Str(current))],
    )
}

/// The URL of the latest release.
pub open spec fn release_url_of(api_base: Seq<char>) -> Seq<char> {
    api_base + "/repos/"@ + repo() + "/releases/latest"@
}

/// How the machine starts from the installed version's text.
pub open spec fn start_state(current: Seq<char>) -> (StateView, ActionView) {
    if semver_accepts(current) {
        (StateView::NeedPath { current }, ActionView::LocateProgram)
    } else {
        (StateView::Done, ActionView::Fail(ErrorView::InvalidCurrentVersion(current)))
    }
}

/// What a release leads to.
pub open spec fn release_step(current: Seq<char>, program: Seq<char>, release: JsonView) -> (
    StateView,
    ActionView,
) {
    if !semver_accepts(current) {
        (StateView::Done, ActionView::Fail(ErrorView::InvalidCurrentVersion(current)))
    } else {
        match release_tag(release) {
            None => (StateView::Done, ActionView::Fail(ErrorView::MissingTagName)),
            Some(t) => if !semver_accepts(strip_v(t)) {
                (StateView::Done, ActionView::Fail(ErrorView::InvalidTag(t)))
            } else if semver_le(semver_of(strip_v(t)), semver_of(current)) {
                (StateView::Done, ActionView::Finish(up_to_date_view(current)))
            } else {
                (
                    StateView::NeedPlatform { current, latest: strip_v(t), program },
                    ActionView::DetectPlatform,
                )
            },
        }
    }
}

/// The next state and action after an event, if the machine expects that
/// event where it stands.
pub open spec fn next(m: MachineView, e: EventView) -> Option<(StateView, ActionView)> {
    match (m.state, e) {
        (StateView::NeedPath { current }, EventView::ProgramPath(path)) => Some(
            if in_cargo_bin(path) {
                (StateView::Done, ActionView::Fail(ErrorView::CargoInstalled(path)))
            } else {
                (
                    StateView::AwaitRelease { current, program: path },
                    ActionView::FetchRelease(release_url_of(m.api_base)),
                )
            },
        ),
        (StateView::AwaitRelease { current, program }, EventView::ReleaseStatus(status)) => Some(
            if status == 403 || status == 429 {
                (StateView::Done, ActionView::Fail(ErrorView::RateLimited(status)))
            } else if is_success(status) {
                (StateView::ReadingRelease { current, program }, ActionView::ReadRelease)
            } else {
                (StateView::ReadingFailure { status }, ActionView::ReadFailureBody)
            },
        ),
        (StateView::ReadingFailure { status }, EventView::FailureBody(body)) => Some(
            (StateView::Done, ActionView::Fail(ErrorView::GithubApi(status, body))),
        ),
        (StateView::ReadingRelease { current, program }, EventView::Release(release)) => Some(
            release_step(current, program, release),
        ),
        (
            StateView::NeedPlatform { current, latest, program },
            EventView::Platform(os, arch),
        ) => Some(
            match platform_of(os, arch) {
                PlatformSupport::Supported(o, a) => {
                    let url = archive_url_of(m.download_base, latest, o, a);
                    (
                        StateView::AwaitDownload { current, latest, program, os: o, arch: a, url },
                        ActionView::Download(url),
                    )
                },
                PlatformSupport::UnsupportedOs => (
                    StateView::Done,
                    ActionView::Fail(ErrorView::UnsupportedOs(os)),
                ),
                PlatformSupport::UnsupportedArch => (
                    StateView::Done,
                    ActionView::Fail(ErrorView::UnsupportedArch(arch)),
                ),
            },
        ),
        (
            StateView::AwaitDownload { current, latest, program, os, arch, url },
            EventView::DownloadStatus(status),
        ) => Some(
            if is_success(status) {
                (StateView::AwaitExtract { current, latest, program }, ActionView::Extract)
            } else {
                (StateView::Done, ActionView::Fail(ErrorView::NoArtifact(os, arch, url)))
            },
        ),
        (StateView::AwaitExtract { current, latest, program }, EventView::Extracted(found)) => Some(
            if found {
                (StateView::AwaitReplace { current, latest, program }, ActionView::Replace(program))
            } else {
                (StateView::Done, ActionView::Fail(ErrorView::CorruptArchive))
            },
        ),
        (StateView::AwaitReplace { current, latest, program: _ }, EventView::Replaced) => Some(
            (StateView::Done, ActionView::Finish(updated_view(current, latest))),
        ),
        _ => None,
    }
}

/// What the order of versions settles about a release: the machine
/// reports up to date for a release equal to the installed version or
/// below it in (major, minor, patch), and goes on to update for one above
/// it.
pub open spec fn release_order_kept(m: MachineView, e: EventView, a: ActionView) -> bool {
    match (m.state, e) {
        (StateView::ReadingRelease { current, .. }, EventView::Release(release)) => match release_tag(
            release,
        ) {
            Some(t) => semver_accepts(current) && semver_accepts(strip_v(t)) ==> {
                let latest = semver_of(strip_v(t));
                let installed = semver_of(current);
                &&& (latest == installed || core_before(latest, installed)) ==> a == ActionView::Finish(
                    up_to_date_view(current),
                )
                &&& core_before(installed, latest) ==> a == ActionView::DetectPlatform
            },
            None => true,
        },
        _ => true,
    }
}

// ---------------------------------------------------------------------------
// The machine
// ---------------------------------------------------------------------------

/// `semver_of` gives back a version that `semver` produced.
proof fn lemma_semver_of(v: Version)
    requires
        v.is_semver(),
    ensures
        semver_of(version_text(v@)) == v@,
{
    let w = semver_of(version_text(v@));
    assert(identifier_chars(v@.3) && identifier_chars(v@.4) && version_text(v@) == version_text(
        v@,
    ));
    lemma_version_text_injective(w, v@);
}

impl UpdateMachine {
    /// Starts an update of the installed version `current_text`, with the
    /// GitHub API and download locations given or the default ones.
    pub fn start(
        current_text: &str,
        api_base: Option<String>,
        download_base: Option<String>,
    ) -> (r: (UpdateMachine, UpdateAction))
        ensures
            r.0@.api_base == match api_base {
                Some(c) => c@,
                None => "https://api.github.com"@,
            },
            r.0@.download_base == match download_base {
                Some(c) => c@,
                None => "https://github.com/"@ + repo() + "/releases/download"@,
            },
            (r.0@.state, action_view(r.1)) == start_state(current_text@),
    {
        let api_base = github_api_base_url(api_base);
        let download_base = github_download_base_url(download_base);
        match current_version(current_text) {
            Ok(_) => (
                UpdateMachine {
                    api_base,
                    download_base,
                    state: UpdateState::NeedPath { current: current_text.to_owned() },
                },
                UpdateAction::LocateProgram,
            ),
            Err(error) => (
                UpdateMachine { api_base, download_base, state: UpdateState::Done },
                UpdateAction::Fail { error },
            ),
        }
    }

    /// Whether the machine expects `event` where it stands.
    pub fn accepts(&self, event: &UpdateEvent) -> (b: bool)
        ensures
            b == next(self@, event_view(*event)) is Some,
    {
        match (&self.state, event) {
            (UpdateState::NeedPath { .. }, UpdateEvent::ProgramPath { .. }) => true,
            (UpdateState::AwaitRelease { .. }, UpdateEvent::ReleaseStatus { .. }) => true,
            (UpdateState::ReadingFailure { .. }, UpdateEvent::FailureBody { .. }) => true,
            (UpdateState::ReadingRelease { .. }, UpdateEvent::Release { .. }) => true,
            (UpdateState::NeedPlatform { .. }, UpdateEvent::Platform { .. }) => true,
            (UpdateState::AwaitDownload { .. }, UpdateEvent::DownloadStatus { .. }) => true,
            (UpdateState::AwaitExtract { .. }, UpdateEvent::Extracted { .. }) => true,
            (UpdateState::AwaitReplace { .. }, UpdateEvent::Replaced) => true,
            _ => false,
        }
    }

    /// Takes one step: the state after `event`, and what to do next.
    pub fn step(self, event: UpdateEvent) -> (r: (UpdateMachine, UpdateAction))
        requires
            next(self@, event_view(event)) is Some,
        ensures
            r.0@.api_base == self@.api_base,
            r.0@.download_base == self@.download_base,
            next(self@, event_view(event)) == Some((r.0@.state, action_view(r.1))),
            release_order_kept(self@, event_view(event), action_view(r.1)),
    {
        let ghost before = self@;
        let UpdateMachine { api_base, download_base, state } = self;
        let (state, action) = match (state, event) {
            (UpdateState::NeedPath { current }, UpdateEvent::ProgramPath { path }) => {
                match check_install_method(path.as_str()) {
                    Err(error) => (UpdateState::Done, UpdateAction::Fail { error }),
                    Ok(()) => {
                        let url = latest_release_url(api_base.as_str());
                        (
                            UpdateState::AwaitRelease { current, program: path },
                            UpdateAction::FetchRelease { url },
                        )
                    },
                }
            },
            (UpdateState::AwaitRelease { current, program }, UpdateEvent::ReleaseStatus { status }) => {
                match release_response(status) {
                    ReleaseResponse::RateLimited => (
                        UpdateState::Done,
                        UpdateAction::Fail { error: UpdateError::RateLimited { status } },
                    ),
                    ReleaseResponse::Success => (
                        UpdateState::ReadingRelease { current, program },
                        UpdateAction::ReadRelease,
                    ),
                    ReleaseResponse::Failed => (
                        UpdateState::ReadingFailure { status },
                        UpdateAction::ReadFailureBody,
                    ),
                }
            },
            (UpdateState::ReadingFailure { status }, UpdateEvent::FailureBody { body }) => (
                UpdateState::Done,
                UpdateAction::Fail { error: UpdateError::GithubApi { status, body } },
            ),
            (UpdateState::ReadingRelease { current, program }, UpdateEvent::Release { release }) => {
                match check_for_update(current.as_str(), &release) {
                    Err(error) => (UpdateState::Done, UpdateAction::Fail { error }),
                    Ok(check) => {
                        proof {
                            lemma_semver_of(check.current);
                            lemma_semver_of(check.latest);
                        }
                        if check.up_to_date {
                            let report = up_to_date_report(&check.current);
                            (UpdateState::Done, UpdateAction::Finish { report })
                        } else {
                            let latest = check.latest.text();
                            (
                                UpdateState::NeedPlatform { current, latest, program },
                                UpdateAction::DetectPlatform,
                            )
                        }
                    },
                }
            },
            (
                UpdateState::NeedPlatform { current, latest, program },
                UpdateEvent::Platform { os, arch },
            ) => {
                match detect_platform(os.as_str(), arch.as_str()) {
                    Err(error) => (UpdateState::Done, UpdateAction::Fail { error }),
                    Ok((o, a)) => {
                        let url = archive_url(
                            download_base.as_str(),
                            latest.as_str(),
                            o.as_str(),
                            a.as_str(),
                        );
                        let target = url.clone();
                        (
                            UpdateState::AwaitDownload { current, latest, program, os: o, arch: a, url },
                            UpdateAction::Download { url: target },
                        )
                    },
                }
            },
            (
                UpdateState::AwaitDownload { current, latest, program, os, arch, url },
                UpdateEvent::DownloadStatus { status },
            ) => {
                match check_download(status, os.as_str(), arch.as_str(), url.as_str()) {
                    Ok(()) => (
                        UpdateState::AwaitExtract { current, latest, program },
                        UpdateAction::Extract,
                    ),
                    Err(error) => (UpdateState::Done, UpdateAction::Fail { error }),
                }
            },
            (
                UpdateState::AwaitExtract { current, latest, program },
                UpdateEvent::Extracted { found },
            ) => {
                if found {
                    let target = program.clone();
                    (
                        UpdateState::AwaitReplace { current, latest, program },
                        UpdateAction::Replace { target },
                    )
                } else {
                    (UpdateState::Done, UpdateAction::Fail { error: UpdateError::CorruptArchive })
                }
            },
            (UpdateState::AwaitReplace { current, latest, program: _ }, UpdateEvent::Replaced) => {
                let report = updated_report(current.as_str(), latest.as_str());
                (UpdateState::Done, UpdateAction::Finish { report })
            },
            (state, _) => {
                assert(false);
                (state, UpdateAction::LocateProgram)
            },
        };
        (UpdateMachine { api_base, download_base, state }, action)
    }
}

// ---------------------------------------------------------------------------
// Laws
// ---------------------------------------------------------------------------

/// The latest release is strictly newer than the installed version, both
/// being versions that `semver` accepts.
pub open spec fn newer(current: Seq<char>, latest: Seq<char>) -> bool {
    &&& semver_accepts(current)
    &&& semver_accepts(latest)
    &&& !semver_le(semver_of(latest), semver_of(current))
}

/// What holds in each state the machine can be in: the installed version
/// is valid; once the program is located, it is not one that `cargo
/// install` manages; once a release is chosen, it is newer than the
/// installed version.
pub open spec fn sound(s: StateView) -> bool {
    match s {
        StateView::NeedPath { current } => semver_accepts(current),
        StateView::AwaitRelease { current, program } => semver_accepts(current) && !in_cargo_bin(
            program,
        ),
        StateView::ReadingRelease { current, program } => semver_accepts(current)
            && !in_cargo_bin(program),
        StateView::ReadingFailure { .. } => true,
        StateView::NeedPlatform { current, latest, program } => newer(current, latest)
            && !in_cargo_bin(program),
        StateView::AwaitDownload { current, latest, program, .. } => newer(current, latest)
            && !in_cargo_bin(program),
        StateView::AwaitExtract { current, latest, program } => newer(current, latest)
            && !in_cargo_bin(program),
        StateView::AwaitReplace { current, latest, program } => newer(current, latest)
            && !in_cargo_bin(program),
        StateView::Done => true,
    }
}

/// An action that may be asked for: a replacement never targets a program
/// under `.cargo/bin`.
pub open spec fn safe(a: ActionView) -> bool {
    match a {
        ActionView::Replace(target) => !in_cargo_bin(target),
        _ => true,
    }
}

/// The machine with another state.
pub open spec fn with_state(m: MachineView, s: StateView) -> MachineView {
    MachineView { api_base: m.api_base, download_base: m.download_base, state: s }
}

/// The machine after a sequence of events, with the actions it asked for
/// in order; none if some event was not expected.
pub open spec fn run(m: MachineView, events: Seq<EventView>) -> Option<(MachineView, Seq<ActionView>)>
    decreases events.len(),
{
    if events.len() == 0 {
        Some((m, Seq::<ActionView>::empty()))
    } else {
        match next(m, events[0]) {
            None => None,
            Some((state, action)) => match run(with_state(m, state), events.drop_first()) {
                None => None,
                Some((end, actions)) => Some((end, seq![action] + actions)),
            },
        }
    }
}

/// Each step keeps the machine sound, asks only for safe actions, and asks
/// for a download only with a release newer than the installed version.
pub proof fn lemma_step_sound(m: MachineView, e: EventView)
    requires
        sound(m.state),
        next(m, e) is Some,
    ensures
        ({
            let (state, action) = next(m, e)->0;
            &&& sound(state)
            &&& safe(action)
            &&& action is Download ==> (state matches StateView::AwaitDownload {
                current,
                latest,
                ..
            } && newer(current, latest))
        }),
{
}

/// The machine starts sound.
pub proof fn lemma_start_sound(current: Seq<char>)
    ensures
        sound(start_state(current).0),
        safe(start_state(current).1),
{
}

/// Whatever events come, a sound machine stays sound and only asks for safe
/// actions: a program installed by `cargo install` is never replaced, and
/// nothing is downloaded unless the release is newer.
pub proof fn lemma_run_sound(m: MachineView, events: Seq<EventView>)
    requires
        sound(m.state),
        run(m, events) is Some,
    ensures
        ({
            let (end, actions) = run(m, events)->0;
            &&& sound(end.state)
            &&& forall|i: int| 0 <= i < actions.len() ==> safe(#[trigger] actions[i])
        }),
    decreases events.len(),
{
    if events.len() > 0 {
        let (state, action) = next(m, events[0])->0;
        lemma_step_sound(m, events[0]);
        lemma_run_sound(with_state(m, state), events.drop_first());
        let (end, actions) = run(with_state(m, state), events.drop_first())->0;
        assert forall|i: int| 0 <= i < (seq![action] + actions).len() implies safe(
            #[trigger] (seq![action] + actions)[i],
        ) by {
            if i > 0 {
                assert((seq![action] + actions)[i] == actions[i - 1]);
            }
        }
    }
}

/// From its start, the machine never replaces a program installed by
/// `cargo install`, and ends sound.
pub proof fn lemma_started_run_sound(
    current: Seq<char>,
    api_base: Seq<char>,
    download_base: Seq<char>,
    events: Seq<EventView>,
)
    requires
        run(
            MachineView { api_base, download_base, state: start_state(current).0 },
            events,
        ) is Some,
    ensures
        ({
            let r = run(
                MachineView { api_base, download_base, state: start_state(current).0 },
                events,
            )->0;
            &&& sound(r.0.state)
            &&& forall|i: int| 0 <= i < r.1.len() ==> safe(#[trigger] r.1[i])
        }),
{
    lemma_start_sound(current);
    lemma_run_sound(MachineView { api_base, download_base, state: start_state(current).0 }, events);
}

} // verus!
