//! Where the URL and token of the Bugsink instance come from: command-line
//! flags first, then the environment, then the configuration file.

use vstd::prelude::*;
use crate::text::{
    append_str, drop_trailing, is_char, lemma_drop_trailing_done, same_text, trim_end_char,
};

verus! {

/// The contents of the configuration file.
pub struct Config {
    pub url: Option<String>,
    pub token: Option<String>,
}

/// A configuration in which both values are present.
pub struct ResolvedConfig {
    pub url: String,
    pub token: String,
}

/// Why a configuration could not be resolved.
#[derive(Debug, PartialEq, Eq, Structural)]
pub enum ConfigError {
    /// No URL from flags, environment or file.
    UrlNotConfigured,
    /// No token from flags, environment or file.
    TokenNotConfigured,
    /// The platform has no configuration directory.
    NoConfigDirectory,
}

impl Default for Config {
    fn default() -> (r: Config)
        ensures
            r.url is None,
            r.token is None,
    {
        Config { url: None, token: None }
    }
}

/// The text of an optional string slice.
pub open spec fn opt_str(o: Option<&str>) -> Option<Seq<char>> {
    match o {
        Some(s) => Some(s@),
        None => None,
    }
}

/// The text of an optional string.
pub open spec fn opt_string(o: Option<String>) -> Option<Seq<char>> {
    match o {
        Some(s) => Some(s@),
        None => None,
    }
}

/// The first of three sources that holds a value.
pub open spec fn first_of(
    a: Option<Seq<char>>,
    b: Option<Seq<char>>,
    c: Option<Seq<char>>,
) -> Option<Seq<char>> {
    if a is Some {
        a
    } else if b is Some {
        b
    } else {
        c
    }
}

/// `dir` joined with the relative path `name`, as `Path::join` does on
/// Unix: a separator is put between them unless `dir` is empty or already
/// ends with one.
pub open spec fn join_path(dir: Seq<char>, name: Seq<char>) -> Seq<char> {
    if dir.len() == 0 || dir.last() == '/' {
        dir + name
    } else {
        dir.push('/') + name
    }
}

/// The directory that holds per-user configuration: `.config` in the home
/// directory on macOS, as the documentation places the file, and the
/// platform's own configuration directory elsewhere.
pub open spec fn config_base_of(
    os: Seq<char>,
    home: Option<Seq<char>>,
    platform: Option<Seq<char>>,
) -> Option<Seq<char>> {
    if os == "macos"@ {
        match home {
            Some(h) => Some(join_path(h, ".config"@)),
            None => None,
        }
    } else {
        platform
    }
}

/// The message of each error.
pub open spec fn config_error_text(e: ConfigError) -> Seq<char> {
    match e {
        ConfigError::UrlNotConfigured =>
            "Bugsink URL not configured. Run `bugsink auth login` or set BUGSINK_URL."@,
        ConfigError::TokenNotConfigured =>
            "Bugsink token not configured. Run `bugsink auth login` or set BUGSINK_TOKEN."@,
        ConfigError::NoConfigDirectory => "Could not determine config directory"@,
    }
}

impl ConfigError {
    /// The message shown to the user.
    pub fn message(&self) -> (r: String)
        ensures
            r@ == config_error_text(*self),
    {
        match self {
            ConfigError::UrlNotConfigured => String::from_str(
                "Bugsink URL not configured. Run `bugsink auth login` or set BUGSINK_URL.",
            ),
            ConfigError::TokenNotConfigured => String::from_str(
                "Bugsink token not configured. Run `bugsink auth login` or set BUGSINK_TOKEN.",
            ),
            ConfigError::NoConfigDirectory => String::from_str(
                "Could not determine config directory",
            ),
        }
    }
}

/// The first of the three that holds a value.
fn first_given(a: Option<&str>, b: Option<String>, c: Option<String>) -> (r: Option<String>)
    ensures
        opt_string(r) == first_of(opt_str(a), opt_string(b), opt_string(c)),
{
    match a {
        Some(s) => Some(s.to_owned()),
        None => match b {
            Some(s) => Some(s),
            None => c,
        },
    }
}

/// `dir` joined with `name`.
fn join(dir: String, name: &str) -> (r: String)
    ensures
        r@ == join_path(dir@, name@),
{
    let mut r = dir;
    let n = r.as_str().unicode_len();
    if n > 0 && r.as_str().get_char(n - 1) != '/' {
        append_str(&mut r, "/");
        proof {
            reveal_strlit("/");
        }
        assert(r@ =~= dir@.push('/'));
    }
    append_str(&mut r, name);
    r
}

/// The directory that holds per-user configuration, for the operating
/// system `os` (as Rust names it), the home directory and the platform's
/// configuration directory, where they are known.
pub fn config_base_dir(os: &str, home: Option<String>, platform: Option<String>) -> (r: Option<
    String,
>)
    ensures
        opt_string(r) == config_base_of(os@, opt_string(home), opt_string(platform)),
{
    if same_text(os, "macos") {
        match home {
            Some(h) => Some(join(h, ".config")),
            None => None,
        }
    } else {
        platform
    }
}

impl Config {
    /// The directory that holds the configuration file: `bugsink` inside the
    /// platform's configuration directory, if it has one.
    pub fn config_dir(platform_config_dir: Option<String>) -> (r: Result<String, ConfigError>)
        ensures
            platform_config_dir is None ==> r == Err::<String, ConfigError>(
                ConfigError::NoConfigDirectory,
            ),
            platform_config_dir matches Some(d) ==> r matches Ok(p) && p@ == join_path(
                d@,
                "bugsink"@,
            ),
    {
        match platform_config_dir {
            None => Err(ConfigError::NoConfigDirectory),
            Some(d) => Ok(join(d, "bugsink")),
        }
    }

    /// The path of the configuration file: `config.json` in `config_dir`.
    pub fn config_path(platform_config_dir: Option<String>) -> (r: Result<String, ConfigError>)
        ensures
            platform_config_dir is None ==> r == Err::<String, ConfigError>(
                ConfigError::NoConfigDirectory,
            ),
            platform_config_dir matches Some(d) ==> r matches Ok(p) && p@ == join_path(
                join_path(d@, "bugsink"@),
                "config.json"@,
            ),
    {
        match Self::config_dir(platform_config_dir) {
            Ok(dir) => Ok(join(dir, "config.json")),
            Err(e) => Err(e),
        }
    }

    /// Resolves URL and token, each taken from the command-line flag if
    /// given, else from the environment, else from the file. Trailing
    /// slashes are stripped from the URL.
    pub fn resolve_with(
        cli_url: Option<&str>,
        cli_token: Option<&str>,
        env_url: Option<String>,
        env_token: Option<String>,
        file_config: Config,
    ) -> (r: Result<ResolvedConfig, ConfigError>)
        ensures
            ({
                let url = first_of(opt_str(cli_url), opt_string(env_url), opt_string(file_config.url));
                let token = first_of(
                    opt_str(cli_token),
                    opt_string(env_token),
                    opt_string(file_config.token),
                );
                &&& r is Ok <==> url is Some && token is Some
                &&& r matches Ok(c) ==> c.url@ == drop_trailing(url->0, is_char('/'))
                    && c.token@ == token->0
                &&& url is None ==> r == Err::<ResolvedConfig, ConfigError>(
                    ConfigError::UrlNotConfigured,
                )
                &&& url is Some && token is None ==> r == Err::<ResolvedConfig, ConfigError>(
                    ConfigError::TokenNotConfigured,
                )
            }),
            r matches Ok(c) ==> c.url@.len() == 0 || c.url@.last() != '/',
    {
        let url = match first_given(cli_url, env_url, file_config.url) {
            Some(u) => u,
            None => return Err(ConfigError::UrlNotConfigured),
        };
        let token = match first_given(cli_token, env_token, file_config.token) {
            Some(t) => t,
            None => return Err(ConfigError::TokenNotConfigured),
        };
        let normalized = trim_end_char(url.as_str(), '/');
        proof {
            lemma_drop_trailing_done(url@, is_char('/'));
        }
        Ok(ResolvedConfig { url: normalized, token })
    }

    /// Resolves URL and token as `resolve_with` does, with the file's
    /// contents when it could be loaded (`loaded`), or an empty
    /// configuration when it could not.
    pub fn resolve(
        cli_url: Option<&str>,
        cli_token: Option<&str>,
        env_url: Option<String>,
        env_token: Option<String>,
        loaded: Option<Config>,
    ) -> (r: Result<ResolvedConfig, ConfigError>)
        ensures
            ({
                let (file_url, file_token) = match loaded {
                    Some(c) => (opt_string(c.url), opt_string(c.token)),
                    None => (None, None),
                };
                let url = first_of(opt_str(cli_url), opt_string(env_url), file_url);
                let token = first_of(opt_str(cli_token), opt_string(env_token), file_token);
                &&& r is Ok <==> url is Some && token is Some
                &&& r matches Ok(c) ==> c.url@ == drop_trailing(url->0, is_char('/'))
                    && c.token@ == token->0
                &&& url is None ==> r == Err::<ResolvedConfig, ConfigError>(
                    ConfigError::UrlNotConfigured,
                )
                &&& url is Some && token is None ==> r == Err::<ResolvedConfig, ConfigError>(
                    ConfigError::TokenNotConfigured,
                )
            }),
            r matches Ok(c) ==> c.url@.len() == 0 || c.url@.last() != '/',
    {
        let file_config = match loaded {
            Some(c) => c,
            None => Config::default(),
        };
        Self::resolve_with(cli_url, cli_token, env_url, env_token, file_config)
    }
}

} // verus!
