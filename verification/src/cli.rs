//! The commands and options of the command line, as plain data.

use vstd::prelude::*;

verus! {

/// The parsed command line.
pub struct Cli {
    /// Instance URL (overrides config file and `BUGSINK_URL`).
    pub url: Option<String>,
    /// API token (overrides config file and `BUGSINK_TOKEN`).
    pub token: Option<String>,
    /// Force compact JSON output.
    pub json: bool,
    /// Comma-separated fields to keep in the output.
    pub fields: Option<String>,
    /// Fetch all pages of list results.
    pub all: bool,
    pub command: Commands,
}

/// The top-level commands.
#[allow(inconsistent_fields)]
pub enum Commands {
    Auth { command: AuthCommands },
    Teams { command: TeamsCommands },
    Projects { command: ProjectsCommands },
    Issues { command: IssuesCommands },
    Events { command: EventsCommands },
    Releases { command: ReleasesCommands },
    /// Fetch the API schema.
    Describe,
    /// Replace this program by the latest release.
    Update,
}

pub enum AuthCommands {
    Login,
    Status { verify: bool },
    Logout,
}

pub enum TeamsCommands {
    List,
    Get { id: u64 },
}

#[allow(inconsistent_fields)]
pub enum ProjectsCommands {
    List { team: Option<u64> },
    Get { id: u64 },
    Create { team: u64, name: String },
}

/// How issues are sorted.
#[derive(Clone, Copy, Debug, PartialEq, Eq, Structural)]
pub enum SortField {
    DigestOrder,
    LastSeen,
}

/// The direction of a sort.
#[derive(Clone, Copy, Debug, PartialEq, Eq, Structural)]
pub enum SortOrder {
    Asc,
    Desc,
}

pub enum IssuesCommands {
    List { project: u64, sort: SortField, order: SortOrder },
    Get { id: u64 },
}

pub enum EventsCommands {
    List { issue: u64, order: SortOrder },
    Get { id: String },
    Stacktrace { id: String },
}

pub enum ReleasesCommands {
    List { project: u64 },
    Get { id: u64 },
    Create { project: u64, version: String },
}

/// The name of a sort field in the API.
pub open spec fn sort_field_name(f: SortField) -> Seq<char> {
    match f {
        SortField::DigestOrder => "digest_order"@,
        SortField::LastSeen => "last_seen"@,
    }
}

/// The name of a sort direction in the API.
pub open spec fn sort_order_name(o: SortOrder) -> Seq<char> {
    match o {
        SortOrder::Asc => "asc"@,
        SortOrder::Desc => "desc"@,
    }
}

impl SortField {
    /// The name of the field in the API: `digest_order` or `last_seen`.
    pub fn as_str(&self) -> (r: &'static str)
        ensures
            r@ == sort_field_name(*self),
    {
        match self {
            SortField::DigestOrder => "digest_order",
            SortField::LastSeen => "last_seen",
        }
    }
}

impl SortOrder {
    /// The name of the direction in the API: `asc` or `desc`.
    pub fn as_str(&self) -> (r: &'static str)
        ensures
            r@ == sort_order_name(*self),
    {
        match self {
            SortOrder::Asc => "asc",
            SortOrder::Desc => "desc",
        }
    }
}

} // verus!
