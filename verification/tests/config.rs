use bugsink::config::{config_base_dir, Config, ConfigError};

#[test]
fn test_resolve_cli_flags_take_priority() {
    let resolved =
        Config::resolve(Some("https://cli-flag.example.com"), Some("cli-token"), None, None, None)
            .unwrap();

    assert_eq!(resolved.url, "https://cli-flag.example.com");
    assert_eq!(resolved.token, "cli-token");
}

#[test]
fn test_resolve_strips_trailing_slash() {
    let resolved = Config::resolve(Some("https://example.com/"), Some("token"), None, None, None)
        .unwrap();

    assert_eq!(resolved.url, "https://example.com");
}

#[test]
fn test_resolve_missing_url_errors() {
    let result = Config::resolve_with(None, Some("token"), None, None, Config::default());
    assert!(result.is_err());
    assert!(result.err().unwrap().message().contains("URL not configured"));
}

#[test]
fn test_resolve_missing_token_errors() {
    let result =
        Config::resolve_with(Some("https://example.com"), None, None, None, Config::default());
    assert!(result.is_err());
    assert!(result.err().unwrap().message().contains("token not configured"));
}

#[test]
fn environment_comes_before_the_file() {
    let file = Config { url: Some("https://file.example".to_string()), token: Some("f".to_string()) };
    let resolved = Config::resolve_with(
        None,
        None,
        Some("https://env.example///".to_string()),
        None,
        file,
    )
    .unwrap();
    assert_eq!(resolved.url, "https://env.example");
    assert_eq!(resolved.token, "f");
}

#[test]
fn file_is_used_last_and_unreadable_file_counts_as_empty() {
    let file = Config { url: Some("https://file.example/".to_string()), token: Some("f".to_string()) };
    let resolved = Config::resolve(None, None, None, None, Some(file)).unwrap();
    assert_eq!(resolved.url, "https://file.example");
    assert_eq!(resolved.token, "f");
    assert_eq!(
        Config::resolve(None, None, None, None, None).err(),
        Some(ConfigError::UrlNotConfigured)
    );
    assert_eq!(
        Config::resolve(Some("u"), None, None, None, None).err(),
        Some(ConfigError::TokenNotConfigured)
    );
}

#[test]
fn empty_values_still_count() {
    let resolved = Config::resolve(Some("/"), Some(""), Some("e".to_string()), None, None).unwrap();
    assert_eq!(resolved.url, "");
    assert_eq!(resolved.token, "");
}

#[test]
fn config_error_messages() {
    assert_eq!(
        ConfigError::UrlNotConfigured.message(),
        "Bugsink URL not configured. Run `bugsink auth login` or set BUGSINK_URL."
    );
    assert_eq!(
        ConfigError::TokenNotConfigured.message(),
        "Bugsink token not configured. Run `bugsink auth login` or set BUGSINK_TOKEN."
    );
    assert_eq!(ConfigError::NoConfigDirectory.message(), "Could not determine config directory");
}

#[test]
fn config_file_location() {
    assert_eq!(
        Config::config_path(Some("/home/u/.config".to_string())),
        Ok("/home/u/.config/bugsink/config.json".to_string())
    );
    assert_eq!(
        Config::config_path(Some("/home/u/.config/".to_string())),
        Ok("/home/u/.config/bugsink/config.json".to_string())
    );
    assert_eq!(
        Config::config_dir(Some("/cfg".to_string())),
        Ok("/cfg/bugsink".to_string())
    );
    assert_eq!(Config::config_path(None), Err(ConfigError::NoConfigDirectory));
}

#[test]
fn configuration_base_directory() {
    let home = || Some("/Users/ann".to_string());
    let platform = || Some("/Users/ann/Library/Application Support".to_string());
    assert_eq!(config_base_dir("macos", home(), platform()), Some("/Users/ann/.config".to_string()));
    assert_eq!(config_base_dir("macos", None, platform()), None);
    assert_eq!(
        config_base_dir("linux", home(), Some("/home/ann/.config".to_string())),
        Some("/home/ann/.config".to_string())
    );
    assert_eq!(config_base_dir("linux", home(), None), None);
    let dir = config_base_dir("macos", Some("/Users/ann/".to_string()), None);
    assert_eq!(dir, Some("/Users/ann/.config".to_string()));
    assert_eq!(
        Config::config_path(dir).unwrap(),
        "/Users/ann/.config/bugsink/config.json"
    );
}
