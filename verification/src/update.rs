//! The decisions of the self-update command: which version is installed and
//! which is released, whether to update, for which platform, and from where.

use vstd::prelude::*;
use crate::client::{authorization_value, header_value_ok};
use crate::json::{json_view, member, Json, JsonView};
use crate::paths::{in_cargo_bin, is_cargo_installed};
use crate::text::{append_str, decimal, decimal_string, same_text};
use crate::version::{
    core_before, is_up_to_date, lemma_same_text_same_version, semver_accepts, semver_le, version_text, Version,
};

verus! {

/// Why an update could not be made.
#[derive(Debug, PartialEq, Eq)]
pub enum UpdateError {
    /// The installed version's text is not a semantic version.
    InvalidCurrentVersion { text: String },
    /// The program was installed by `cargo install`, which must update it.
    CargoInstalled { path: String },
    /// GitHub refused the request for its rate limit (HTTP 403 or 429).
    RateLimited { status: u16 },
    /// GitHub answered the release request with another failure.
    GithubApi { status: u16, body: String },
    /// The latest release has no `tag_name`.
    MissingTagName,
    /// The latest release's tag is not a semantic version.
    InvalidTag { tag: String },
    /// No releases are built for this operating system.
    UnsupportedOs { os: String },
    /// No releases are built for this processor architecture.
    UnsupportedArch { arch: String },
    /// The release has no archive for this platform.
    NoArtifact { os: String, arch: String, url: String },
    /// The downloaded archive holds no `bugsink` program.
    CorruptArchive,
    /// `GITHUB_TOKEN` cannot be sent as an HTTP header value.
    InvalidGithubToken,
}

/// How GitHub answered a request for the latest release.
#[derive(Debug, PartialEq, Eq, Structural)]
pub enum ReleaseResponse {
    /// A 2xx answer: the release follows.
    Success,
    /// HTTP 403 or 429.
    RateLimited,
    /// Any other failure.
    Failed,
}

/// What the update check found.
pub struct UpdateCheck {
    pub current: Version,
    pub latest: Version,
    /// Whether the latest release is no newer than the installed version.
    pub up_to_date: bool,
}

/// The repository that releases are published in.
pub open spec fn repo() -> Seq<char> {
    "Alfredvc/bugsink-cli"@
}

/// The decimal text of a status code.
pub open spec fn status_text(status: u16) -> Seq<char> {
    decimal(status as nat)
}

/// The message of each error.
pub open spec fn update_error_text(e: UpdateError) -> Seq<char> {
    match e {
        UpdateError::InvalidCurrentVersion { text } => "Failed to parse current version: "@
            + text@,
        UpdateError::CargoInstalled { path } => "This binary appears to be installed via cargo ("@
            + path@ + "). Please update using: cargo install --git https://github.com/"@ + repo(),
        UpdateError::RateLimited { status } => "GitHub API rate limit exceeded (HTTP "@
            + status_text(status)
            + "). Set the GITHUB_TOKEN environment variable with a personal access token to increase the rate limit."@,
        UpdateError::GithubApi { status, body } => "GitHub API error (HTTP "@ + status_text(status)
            + "): "@ + body@,
        UpdateError::MissingTagName => "GitHub release response missing 'tag_name' field"@,
        UpdateError::InvalidTag { tag } => "Release tag '"@ + tag@
            + "' is not a valid semver version"@,
        UpdateError::UnsupportedOs { os } => "Self-update is not supported on this platform (OS: "@
            + os@ + ")"@,
        UpdateError::UnsupportedArch { arch } =>
            "Self-update is not supported on this platform (arch: "@ + arch@ + ")"@,
        UpdateError::NoArtifact { os, arch, url } =>
            "No matching release artifact for this platform (OS: "@ + os@ + ", arch: "@ + arch@
                + "). Expected asset at "@ + url@,
        UpdateError::CorruptArchive =>
            "Corrupt archive: no 'bugsink' binary found in the release tarball"@,
        UpdateError::InvalidGithubToken => "Invalid GITHUB_TOKEN format"@,
    }
}

/// The string tag of a release object, if it has one.
pub open spec fn release_tag(release: JsonView) -> Option<Seq<char>> {
    match member(release, "tag_name"@) {
        Some(JsonView::Str(t)) => Some(t),
        _ => None,
    }
}

/// A tag without one leading `v`, if it has one.
pub open spec fn strip_v(tag: Seq<char>) -> Seq<char> {
    if tag.len() > 0 && tag[0] == 'v' {
        tag.drop_first()
    } else {
        tag
    }
}

/// Which platforms releases are built for.
pub enum PlatformSupport {
    /// Supported, with the names used in archive names.
    Supported(Seq<char>, Seq<char>),
    UnsupportedOs,
    UnsupportedArch,
}

/// The platform names used in release archive names, for an operating
/// system and architecture as Rust names them: `macos` becomes `darwin`;
/// `linux`, `x86_64` and `aarch64` stay as they are.
pub open spec fn platform_of(os: Seq<char>, arch: Seq<char>) -> PlatformSupport {
    if os != "macos"@ && os != "linux"@ {
        PlatformSupport::UnsupportedOs
    } else if arch != "x86_64"@ && arch != "aarch64"@ {
        PlatformSupport::UnsupportedArch
    } else {
        PlatformSupport::Supported(
            if os == "macos"@ {
                "darwin"@
            } else {
                "linux"@
            },
            arch,
        )
    }
}

/// Self-update runs on macOS and Linux, on x86_64 and aarch64, in every
/// combination: exactly those four platforms are supported; macOS archives
/// are named `darwin` and Linux ones `linux`, and the architecture name is
/// kept as it is.
pub proof fn lemma_supported_platforms(os: Seq<char>, arch: Seq<char>)
    ensures
        platform_of(os, arch) is Supported <==> (os == "macos"@ || os == "linux"@) && (arch
            == "x86_64"@ || arch == "aarch64"@),
        os == "macos"@ && (arch == "x86_64"@ || arch == "aarch64"@) ==> platform_of(os, arch)
            == PlatformSupport::Supported("darwin"@, arch),
        os == "linux"@ && (arch == "x86_64"@ || arch == "aarch64"@) ==> platform_of(os, arch)
            == PlatformSupport::Supported("linux"@, arch),
{
    reveal_strlit("linux");
    reveal_strlit("macos");
    assert("linux"@[0] != "macos"@[0]);
}

/// Support is the product of an operating-system table and an
/// architecture table: if one system is supported with one architecture
/// and another system with another, each system is supported with each of
/// them, under the same system name and with the architecture kept.
pub proof fn lemma_platforms_combine(os1: Seq<char>, arch1: Seq<char>, os2: Seq<char>, arch2: Seq<char>)
    requires
        platform_of(os1, arch1) is Supported,
        platform_of(os2, arch2) is Supported,
    ensures
        platform_of(os1, arch2) is Supported,
        platform_of(os2, arch1) is Supported,
        platform_of(os1, arch2)->Supported_0 == platform_of(os1, arch1)->Supported_0,
        platform_of(os1, arch2)->Supported_1 == arch2,
{
}

/// The URL of a release archive.
pub open spec fn download_url_of(
    base: Seq<char>,
    version: (u64, u64, u64, Seq<char>, Seq<char>),
    os: Seq<char>,
    arch: Seq<char>,
) -> Seq<char> {
    archive_url_of(base, version_text(version), os, arch)
}

/// Whether an HTTP status code is a success (2xx).
pub open spec fn is_success(status: u16) -> bool {
    200 <= status <= 299
}

impl UpdateError {
    /// The message shown to the user.
    pub fn message(&self) -> (r: String)
        ensures
            r@ == update_error_text(*self),
    {
        match self {
            UpdateError::InvalidCurrentVersion { text } => {
                let mut r = String::from_str("Failed to parse current version: ");
                append_str(&mut r, text.as_str());
                r
            },
            UpdateError::CargoInstalled { path } => {
                let mut r = String::from_str("This binary appears to be installed via cargo (");
                append_str(&mut r, path.as_str());
                append_str(
                    &mut r,
                    "). Please update using: cargo install --git https://github.com/",
                );
                append_str(&mut r, "Alfredvc/bugsink-cli");
                r
            },
            UpdateError::RateLimited { status } => {
                let mut r = String::from_str("GitHub API rate limit exceeded (HTTP ");
                let code = decimal_string(*status as u64);
                append_str(&mut r, code.as_str());
                append_str(
                    &mut r,
                    "). Set the GITHUB_TOKEN environment variable with a personal access token to increase the rate limit.",
                );
                r
            },
            UpdateError::GithubApi { status, body } => {
                let mut r = String::from_str("GitHub API error (HTTP ");
                let code = decimal_string(*status as u64);
                append_str(&mut r, code.as_str());
                append_str(&mut r, "): ");
                append_str(&mut r, body.as_str());
                r
            },
            UpdateError::MissingTagName => String::from_str(
                "GitHub release response missing 'tag_name' field",
            ),
            UpdateError::InvalidTag { tag } => {
                let mut r = String::from_str("Release tag '");
                append_str(&mut r, tag.as_str());
                append_str(&mut r, "' is not a valid semver version");
                r
            },
            UpdateError::UnsupportedOs { os } => {
                let mut r = String::from_str("Self-update is not supported on this platform (OS: ");
                append_str(&mut r, os.as_str());
                append_str(&mut r, ")");
                r
            },
            UpdateError::UnsupportedArch { arch } => {
                let mut r = String::from_str(
                    "Self-update is not supported on this platform (arch: ",
                );
                append_str(&mut r, arch.as_str());
                append_str(&mut r, ")");
                r
            },
            UpdateError::NoArtifact { os, arch, url } => {
                let mut r = String::from_str(
                    "No matching release artifact for this platform (OS: ",
                );
                append_str(&mut r, os.as_str());
                append_str(&mut r, ", arch: ");
                append_str(&mut r, arch.as_str());
                append_str(&mut r, "). Expected asset at ");
                append_str(&mut r, url.as_str());
                r
            },
            UpdateError::CorruptArchive => String::from_str(
                "Corrupt archive: no 'bugsink' binary found in the release tarball",
            ),
            UpdateError::InvalidGithubToken => String::from_str("Invalid GITHUB_TOKEN format"),
        }
    }
}

/// The installed version, from its text.
pub fn current_version(text: &str) -> (r: Result<Version, UpdateError>)
    ensures
        r is Ok <==> semver_accepts(text@),
        r matches Ok(v) ==> version_text(v@) == text@ && v.is_semver(),
        r matches Err(e) ==> e matches UpdateError::InvalidCurrentVersion { text: t } && t@
            == text@,
{
    match Version::parse(text) {
        Some(v) => Ok(v),
        None => Err(UpdateError::InvalidCurrentVersion { text: text.to_owned() }),
    }
}

/// Refuses to update a program that `cargo install` put at `exe_path`.
pub fn check_install_method(exe_path: &str) -> (r: Result<(), UpdateError>)
    ensures
        r is Ok <==> !in_cargo_bin(exe_path@),
        r matches Err(e) ==> e matches UpdateError::CargoInstalled { path } && path@
            == exe_path@,
{
    if is_cargo_installed(exe_path) {
        Err(UpdateError::CargoInstalled { path: exe_path.to_owned() })
    } else {
        Ok(())
    }
}

/// The texts of a list of header names and values.
pub open spec fn header_views(h: Seq<(String, String)>) -> Seq<(Seq<char>, Seq<char>)> {
    h.map_values(|p: (String, String)| (p.0@, p.1@))
}

/// The headers sent with every request to GitHub.
pub open spec fn github_base_headers() -> Seq<(Seq<char>, Seq<char>)> {
    seq![("user-agent"@, "bugsink-cli"@), ("accept"@, "application/vnd.github+json"@)]
}

/// The default headers of requests to GitHub: the user agent and the
/// accepted media type, and the token as a bearer `Authorization` if one is
/// given. A token that cannot be sent in a header is refused.
pub fn github_headers(token: Option<&str>) -> (r: Result<Vec<(String, String)>, UpdateError>)
    ensures
        token is None ==> (r matches Ok(h) && header_views(h@) == github_base_headers()),
        token matches Some(t) ==> (r is Ok <==> header_value_ok("Bearer "@ + t@)),
        token matches Some(t) ==> (r matches Ok(h) ==> header_views(h@)
            == github_base_headers().push(("authorization"@, "Bearer "@ + t@))),
        r is Err ==> r == Err::<Vec<(String, String)>, UpdateError>(
            UpdateError::InvalidGithubToken,
        ),
{
    let mut headers: Vec<(String, String)> = Vec::new();
    headers.push((String::from_str("user-agent"), String::from_str("bugsink-cli")));
    headers.push((String::from_str("accept"), String::from_str("application/vnd.github+json")));
    let ghost base = headers@;
    assert(header_views(base) =~= github_base_headers());
    match token {
        None => Ok(headers),
        Some(t) => match authorization_value(t) {
            None => Err(UpdateError::InvalidGithubToken),
            Some(value) => {
                headers.push((String::from_str("authorization"), value));
                assert(header_views(headers@) =~= header_views(base).push(
                    ("authorization"@, "Bearer "@ + t@),
                ));
                Ok(headers)
            },
        },
    }
}

/// The base URL of the GitHub API: the override if one is given.
pub fn github_api_base_url(configured: Option<String>) -> (r: String)
    ensures
        r@ == match configured {
            Some(c) => c@,
            None => "https://api.github.com"@,
        },
{
    match configured {
        Some(c) => c,
        None => String::from_str("https://api.github.com"),
    }
}

/// The URL that describes the latest release.
pub fn latest_release_url(api_base: &str) -> (r: String)
    ensures
        r@ == api_base@ + "/repos/"@ + repo() + "/releases/latest"@,
{
    let mut r = api_base.to_owned();
    append_str(&mut r, "/repos/");
    append_str(&mut r, "Alfredvc/bugsink-cli");
    append_str(&mut r, "/releases/latest");
    r
}

/// How a status code of the release request is read: 403 and 429 are the
/// rate limit, other codes outside 2xx are failures.
pub fn release_response(status: u16) -> (r: ReleaseResponse)
    ensures
        r == (if status == 403 || status == 429 {
            ReleaseResponse::RateLimited
        } else if is_success(status) {
            ReleaseResponse::Success
        } else {
            ReleaseResponse::Failed
        }),
{
    if status == 403 || status == 429 {
        ReleaseResponse::RateLimited
    } else if 200 <= status && status <= 299 {
        ReleaseResponse::Success
    } else {
        ReleaseResponse::Failed
    }
}

/// The version of a release, from its `tag_name` without a leading `v`.
pub fn parse_release_version(release: &Json) -> (r: Result<Version, UpdateError>)
    ensures
        release_tag(json_view(*release)) is None ==> r == Err::<Version, UpdateError>(
            UpdateError::MissingTagName,
        ),
        release_tag(json_view(*release)) matches Some(t) ==> {
            &&& r is Ok <==> semver_accepts(strip_v(t))
            &&& r matches Ok(v) ==> version_text(v@) == strip_v(t) && v.is_semver()
            &&& r matches Err(e) ==> e matches UpdateError::InvalidTag { tag } && tag@ == t
        },
{
    let tag = match release.str_member("tag_name") {
        Some(t) => t,
        None => return Err(UpdateError::MissingTagName),
    };
    let n = tag.as_str().unicode_len();
    let parsed = if n > 0 && tag.as_str().get_char(0) == 'v' {
        let rest = tag.as_str().substring_char(1, n);
        assert(rest@ =~= tag@.drop_first());
        Version::parse(rest)
    } else {
        Version::parse(tag.as_str())
    };
    match parsed {
        Some(v) => Ok(v),
        None => Err(UpdateError::InvalidTag { tag }),
    }
}

/// Compares the installed version, given by its text, with the latest
/// release.
pub fn check_for_update(current_text: &str, release: &Json) -> (r: Result<
    UpdateCheck,
    UpdateError,
>)
    ensures
        !semver_accepts(current_text@) ==> (r matches Err(e) && (e matches UpdateError::InvalidCurrentVersion { text } && text@ == current_text@)),
        semver_accepts(current_text@) && release_tag(json_view(*release)) is None ==> r == Err::<
            UpdateCheck,
            UpdateError,
        >(UpdateError::MissingTagName),
        semver_accepts(current_text@) ==> (release_tag(json_view(*release)) matches Some(t)
            ==> {
            &&& r is Ok <==> semver_accepts(strip_v(t))
            &&& r matches Err(e) ==> e matches UpdateError::InvalidTag { tag } && tag@ == t
        }),
        r matches Ok(c) ==> {
            &&& version_text(c.current@) == current_text@
            &&& release_tag(json_view(*release)) matches Some(t) && version_text(c.latest@)
                == strip_v(t)
            &&& c.current.is_semver() && c.latest.is_semver()
            &&& c.up_to_date == semver_le(c.latest@, c.current@)
            &&& c.latest@ == c.current@ ==> c.up_to_date
            &&& core_before(c.latest@, c.current@) ==> c.up_to_date
            &&& core_before(c.current@, c.latest@) ==> !c.up_to_date
        },
{
    let current = current_version(current_text)?;
    let latest = parse_release_version(release)?;
    let up_to_date = is_up_to_date(&current, &latest);
    Ok(UpdateCheck { current, latest, up_to_date })
}

/// A tag with one leading `v` names the same version as the tag without
/// it: where both give a version, the versions are equal.
pub proof fn lemma_v_prefix_ignored(t: Seq<char>, a: Version, b: Version)
    requires
        t.len() == 0 || t[0] != 'v',
        a.is_semver(),
        b.is_semver(),
        version_text(a@) == strip_v(seq!['v'] + t),
        version_text(b@) == strip_v(t),
    ensures
        a@ == b@,
{
    assert((seq!['v'] + t).drop_first() =~= t);
    lemma_same_text_same_version(a, b);
}

/// The names of the platform in release archives: `darwin` or `linux`, and
/// `x86_64` or `aarch64`. Other systems are refused, the operating system
/// first.
pub fn detect_platform(os: &str, arch: &str) -> (r: Result<(String, String), UpdateError>)
    ensures
        r matches Ok(p) ==> platform_of(os@, arch@) == PlatformSupport::Supported(p.0@, p.1@),
        r is Ok <==> platform_of(os@, arch@) is Supported,
        platform_of(os@, arch@) is UnsupportedOs ==> (r matches Err(e) && (e matches UpdateError::UnsupportedOs { os: o } && o@ == os@)),
        platform_of(os@, arch@) is UnsupportedArch ==> (r matches Err(e) && (e matches UpdateError::UnsupportedArch { arch: a } && a@ == arch@)),
{
    let os_name = if same_text(os, "macos") {
        String::from_str("darwin")
    } else if same_text(os, "linux") {
        String::from_str("linux")
    } else {
        return Err(UpdateError::UnsupportedOs { os: os.to_owned() });
    };
    let arch_name = if same_text(arch, "x86_64") || same_text(arch, "aarch64") {
        arch.to_owned()
    } else {
        return Err(UpdateError::UnsupportedArch { arch: arch.to_owned() });
    };
    Ok((os_name, arch_name))
}

/// Where release archives are downloaded from: the override if one is
/// given.
pub fn github_download_base_url(configured: Option<String>) -> (r: String)
    ensures
        r@ == match configured {
            Some(c) => c@,
            None => "https://github.com/"@ + repo() + "/releases/download"@,
        },
{
    match configured {
        Some(c) => c,
        None => {
            let mut r = String::from_str("https://github.com/");
            append_str(&mut r, "Alfredvc/bugsink-cli");
            append_str(&mut r, "/releases/download");
            r
        },
    }
}

/// The URL of a release archive, from the version's text.
pub open spec fn archive_url_of(
    base: Seq<char>,
    version: Seq<char>,
    os: Seq<char>,
    arch: Seq<char>,
) -> Seq<char> {
    base + "/v"@ + version + "/bugsink-"@ + os + "-"@ + arch + ".tar.gz"@
}

/// The URL of the release archive of the version written `version`.
pub fn archive_url(base: &str, version: &str, os: &str, arch: &str) -> (r: String)
    ensures
        r@ == archive_url_of(base@, version@, os@, arch@),
{
    let mut r = base.to_owned();
    append_str(&mut r, "/v");
    append_str(&mut r, version);
    append_str(&mut r, "/bugsink-");
    append_str(&mut r, os);
    append_str(&mut r, "-");
    append_str(&mut r, arch);
    append_str(&mut r, ".tar.gz");
    r
}

/// The URL of the release archive of `version` for a platform.
pub fn download_url(base: &str, version: &Version, os: &str, arch: &str) -> (r: String)
    ensures
        r@ == download_url_of(base@, version@, os@, arch@),
{
    let v = version.text();
    archive_url(base, v.as_str(), os, arch)
}

/// Refuses a failed download of the release archive.
pub fn check_download(status: u16, os: &str, arch: &str, url: &str) -> (r: Result<(), UpdateError>)
    ensures
        r is Ok <==> is_success(status),
        r matches Err(e) ==> e matches UpdateError::NoArtifact { os: o, arch: a, url: u } && o@
            == os@ && a@ == arch@ && u@ == url@,
{
    if 200 <= status && status <= 299 {
        Ok(())
    } else {
        Err(UpdateError::NoArtifact { os: os.to_owned(), arch: arch.to_owned(), url: url.to_owned() })
    }
}

/// The report when no newer release exists.
pub fn up_to_date_report(current: &Version) -> (r: Json)
    ensures
        json_view(r) == JsonView::Object(
            seq![
                ("status"@, JsonView::Str("up_to_date"@)),
                ("version"@, JsonView::Str(version_text(current@))),
            ],
        ),
{
    let v = current.text();
    Json::object2("status", Json::string("up_to_date"), "version", Json::Str(v))
}

/// The report after an update.
pub open spec fn updated_view(previous: Seq<char>, new: Seq<char>) -> JsonView {
    JsonView::Object(
        seq![
            ("status"@, JsonView::Str("updated"@)),
            ("previous_version"@, JsonView::Str(previous)),
            ("new_version"@, JsonView::Str(new)),
        ],
    )
}

/// The report after an update from the version written `previous` to the
/// one written `new`.
pub fn updated_report(previous: &str, new: &str) -> (r: Json)
    ensures
        json_view(r) == updated_view(previous@, new@),
{
    Json::object3(
        "status",
        Json::string("updated"),
        "previous_version",
        Json::string(previous),
        "new_version",
        Json::string(new),
    )
}

} // verus!
