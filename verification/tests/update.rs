use bugsink::json::Json;
use bugsink::paths::{is_cargo_installed, is_program_entry};
use bugsink::update::{
    check_download, check_for_update, check_install_method, current_version, detect_platform,
    download_url, github_api_base_url, github_download_base_url, github_headers, latest_release_url,
    parse_release_version, release_response, up_to_date_report, updated_report, ReleaseResponse,
    UpdateError,
};
use bugsink::version::{is_up_to_date, Version};

fn release_with_tag(tag: &str) -> Json {
    Json::Object(vec![
        ("tag_name".to_string(), Json::Str(tag.to_string())),
        ("name".to_string(), Json::Str(tag.to_string())),
    ])
}

fn v(text: &str) -> Version {
    Version::parse(text).unwrap()
}

// --- Version comparison tests ---

#[test]
fn test_version_current_less_than_latest() {
    let current = v("0.1.0");
    let latest = v("0.2.0");
    assert!(!is_up_to_date(&current, &latest));
}

#[test]
fn test_version_current_equals_latest() {
    let current = v("0.1.0");
    let latest = v("0.1.0");
    assert!(is_up_to_date(&current, &latest));
}

#[test]
fn test_version_current_greater_than_latest() {
    let current = v("0.3.0");
    let latest = v("0.2.0");
    assert!(is_up_to_date(&current, &latest));
}

#[test]
fn prerelease_comes_before_its_release() {
    assert!(is_up_to_date(&v("1.0.0"), &v("1.0.0-alpha")));
    assert!(!is_up_to_date(&v("1.0.0-alpha"), &v("1.0.0")));
    assert!(!is_up_to_date(&v("1.0.0-alpha"), &v("1.0.0-alpha.1")));
    assert!(!is_up_to_date(&v("1.0.0-beta.2"), &v("1.0.0-beta.11")));
}

#[test]
fn test_parse_release_version_with_v_prefix() {
    let release = release_with_tag("v1.2.3");
    let version = parse_release_version(&release).unwrap();
    assert_eq!(version, Version::parse("1.2.3").unwrap());
}

#[test]
fn test_parse_release_version_without_v_prefix() {
    let release = release_with_tag("1.2.3");
    let version = parse_release_version(&release).unwrap();
    assert_eq!(version, Version::parse("1.2.3").unwrap());
}

#[test]
fn test_parse_release_version_missing_tag_name() {
    let release = Json::Object(vec![("name".to_string(), Json::Str("some release".to_string()))]);
    let result = parse_release_version(&release);
    assert!(result.is_err());
    assert!(result.unwrap_err().message().contains("missing 'tag_name'"));
}

#[test]
fn test_parse_release_version_invalid_semver() {
    let release = release_with_tag("not-a-version");
    let result = parse_release_version(&release);
    assert!(result.is_err());
    assert!(result.unwrap_err().message().contains("not a valid semver"));
}

#[test]
fn release_tag_that_is_not_a_string_is_missing() {
    let release = Json::Object(vec![("tag_name".to_string(), Json::Number("3".to_string()))]);
    assert_eq!(parse_release_version(&release), Err(UpdateError::MissingTagName));
    assert_eq!(parse_release_version(&Json::Null), Err(UpdateError::MissingTagName));
}

#[test]
fn only_one_v_is_stripped() {
    let release = release_with_tag("vv1.2.3");
    assert_eq!(
        parse_release_version(&release),
        Err(UpdateError::InvalidTag { tag: "vv1.2.3".to_string() })
    );
}

#[test]
fn parsed_version_fields() {
    let version = v("1.20.300-rc.1+build.5");
    assert_eq!(version.major, 1);
    assert_eq!(version.minor, 20);
    assert_eq!(version.patch, 300);
    assert_eq!(version.pre, "rc.1");
    assert_eq!(version.build, "build.5");
    assert_eq!(version.text(), "1.20.300-rc.1+build.5");
    assert!(Version::parse("1.0").is_none());
    assert!(Version::parse("1.0.01").is_none());
    assert!(Version::parse("").is_none());
}

// --- Platform detection tests ---

#[test]
fn test_detect_platform_returns_supported() {
    let (os, arch) = detect_platform("macos", "aarch64").unwrap();
    assert_eq!(os, "darwin");
    assert_eq!(arch, "aarch64");
    let (os, arch) = detect_platform("linux", "x86_64").unwrap();
    assert_eq!(os, "linux");
    assert_eq!(arch, "x86_64");
}

#[test]
fn unsupported_platforms_are_refused() {
    let err = detect_platform("windows", "x86_64").unwrap_err();
    assert_eq!(err, UpdateError::UnsupportedOs { os: "windows".to_string() });
    assert_eq!(err.message(), "Self-update is not supported on this platform (OS: windows)");
    let err = detect_platform("linux", "riscv64").unwrap_err();
    assert_eq!(err.message(), "Self-update is not supported on this platform (arch: riscv64)");
    let err = detect_platform("freebsd", "riscv64").unwrap_err();
    assert_eq!(err, UpdateError::UnsupportedOs { os: "freebsd".to_string() });
}

#[test]
fn test_platform_mapping_in_download_url() {
    let version = Version::parse("0.2.0").unwrap();
    let base = github_download_base_url(None);
    let url = download_url(&base, &version, "darwin", "aarch64");
    assert_eq!(
        url,
        "https://github.com/Alfredvc/bugsink-cli/releases/download/v0.2.0/bugsink-darwin-aarch64.tar.gz"
    );

    let url = download_url(&base, &version, "linux", "x86_64");
    assert_eq!(
        url,
        "https://github.com/Alfredvc/bugsink-cli/releases/download/v0.2.0/bugsink-linux-x86_64.tar.gz"
    );
}

#[test]
fn base_urls_can_be_overridden() {
    assert_eq!(github_api_base_url(None), "https://api.github.com");
    assert_eq!(github_api_base_url(Some("http://127.0.0.1:9".to_string())), "http://127.0.0.1:9");
    assert_eq!(
        latest_release_url("https://api.github.com"),
        "https://api.github.com/repos/Alfredvc/bugsink-cli/releases/latest"
    );
    assert_eq!(github_download_base_url(Some("http://x".to_string())), "http://x");
}

// --- Cargo-install detection tests ---

#[test]
fn test_cargo_installed_detected() {
    let path = "/home/user/.cargo/bin/bugsink";
    assert!(is_cargo_installed(path));
}

#[test]
fn test_cargo_installed_not_detected_for_normal_path() {
    let path = "/usr/local/bin/bugsink";
    assert!(!is_cargo_installed(path));
}

#[test]
fn test_cargo_installed_not_detected_for_local_bin() {
    let path = "/home/user/.local/bin/bugsink";
    assert!(!is_cargo_installed(path));
}

#[test]
fn test_cargo_installed_detected_nested() {
    let path = "/Users/someone/.cargo/bin/bugsink";
    assert!(is_cargo_installed(path));
}

#[test]
fn cargo_detection_reads_components() {
    assert!(is_cargo_installed("/home/u//.cargo/./bin/bugsink"));
    assert!(is_cargo_installed(".cargo/bin"));
    assert!(!is_cargo_installed("/home/u/.cargo/x/bin/bugsink"));
    assert!(!is_cargo_installed("/home/u/.cargo-bin/bugsink"));
    assert!(!is_cargo_installed("/home/u/.cargo/../bin/bugsink"));
    assert!(!is_cargo_installed(""));
}

#[test]
fn install_method_check() {
    assert_eq!(check_install_method("/usr/local/bin/bugsink"), Ok(()));
    let err = check_install_method("/home/testuser/.cargo/bin/bugsink").unwrap_err();
    assert!(err.message().contains("cargo"));
    assert_eq!(
        err.message(),
        "This binary appears to be installed via cargo (/home/testuser/.cargo/bin/bugsink). \
         Please update using: cargo install --git https://github.com/Alfredvc/bugsink-cli"
    );
}

// --- Release responses ---

#[test]
fn release_response_statuses() {
    assert_eq!(release_response(200), ReleaseResponse::Success);
    assert_eq!(release_response(204), ReleaseResponse::Success);
    assert_eq!(release_response(403), ReleaseResponse::RateLimited);
    assert_eq!(release_response(429), ReleaseResponse::RateLimited);
    assert_eq!(release_response(404), ReleaseResponse::Failed);
    assert_eq!(release_response(500), ReleaseResponse::Failed);
    assert_eq!(release_response(199), ReleaseResponse::Failed);
}

#[test]
fn update_error_messages() {
    let rate = UpdateError::RateLimited { status: 403 }.message();
    assert!(rate.contains("rate limit"));
    assert!(rate.contains("GITHUB_TOKEN"));
    assert_eq!(
        rate,
        "GitHub API rate limit exceeded (HTTP 403). Set the GITHUB_TOKEN environment variable \
         with a personal access token to increase the rate limit."
    );
    assert_eq!(
        UpdateError::GithubApi { status: 502, body: "bad".to_string() }.message(),
        "GitHub API error (HTTP 502): bad"
    );
    assert_eq!(
        UpdateError::CorruptArchive.message(),
        "Corrupt archive: no 'bugsink' binary found in the release tarball"
    );
    assert_eq!(
        UpdateError::InvalidCurrentVersion { text: "x".to_string() }.message(),
        "Failed to parse current version: x"
    );
}

#[test]
fn download_status_check() {
    assert_eq!(check_download(200, "linux", "x86_64", "u"), Ok(()));
    let err = check_download(404, "linux", "x86_64", "http://h/a.tar.gz").unwrap_err();
    assert_eq!(
        err.message(),
        "No matching release artifact for this platform (OS: linux, arch: x86_64). \
         Expected asset at http://h/a.tar.gz"
    );
}

// --- Whole check ---

#[test]
fn update_check_decides() {
    let check = check_for_update("0.1.0", &release_with_tag("v0.1.0")).unwrap();
    assert!(check.up_to_date);
    let check = check_for_update("0.1.0", &release_with_tag("v0.2.0")).unwrap();
    assert!(!check.up_to_date);
    assert_eq!(check.latest.text(), "0.2.0");
    assert_eq!(check.current.text(), "0.1.0");
    assert!(matches!(
        check_for_update("nope", &release_with_tag("v0.2.0")),
        Err(UpdateError::InvalidCurrentVersion { .. })
    ));
    assert!(current_version("0.1.0").is_ok());
}

#[test]
fn reports() {
    let expected = Json::Object(vec![
        ("status".to_string(), Json::Str("up_to_date".to_string())),
        ("version".to_string(), Json::Str("0.1.0".to_string())),
    ]);
    assert_eq!(up_to_date_report(&v("0.1.0")), expected);
    let expected = Json::Object(vec![
        ("status".to_string(), Json::Str("updated".to_string())),
        ("previous_version".to_string(), Json::Str("0.1.0".to_string())),
        ("new_version".to_string(), Json::Str("0.2.0".to_string())),
    ]);
    assert_eq!(updated_report("0.1.0", "0.2.0"), expected);
}

#[test]
fn program_entry_in_archive() {
    assert!(is_program_entry("bugsink"));
    assert!(is_program_entry("./bugsink"));
    assert!(is_program_entry("dist/bugsink/"));
    assert!(!is_program_entry("not-bugsink"));
    assert!(!is_program_entry("bugsink/.."));
    assert!(!is_program_entry(""));
}

#[test]
fn github_request_headers() {
    let pair = |a: &str, b: &str| (a.to_string(), b.to_string());
    assert_eq!(
        github_headers(None),
        Ok(vec![pair("user-agent", "bugsink-cli"), pair("accept", "application/vnd.github+json")])
    );
    assert_eq!(
        github_headers(Some("ghp_x")),
        Ok(vec![
            pair("user-agent", "bugsink-cli"),
            pair("accept", "application/vnd.github+json"),
            pair("authorization", "Bearer ghp_x"),
        ])
    );
    let err = github_headers(Some("bad\ntoken")).unwrap_err();
    assert_eq!(err, UpdateError::InvalidGithubToken);
    assert_eq!(err.message(), "Invalid GITHUB_TOKEN format");
}
