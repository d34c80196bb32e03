//! What each command asks of the API.

use vstd::prelude::*;
use crate::cli::{
    sort_field_name, sort_order_name, Commands, EventsCommands, IssuesCommands,
    ProjectsCommands, ReleasesCommands, TeamsCommands,
};
use crate::cli::{SortField, SortOrder};
use crate::json::{json_view, member, Json, JsonView};
use crate::text::{append_str, decimal, decimal_string};

verus! {

/// A call to the API.
pub enum ApiCall {
    /// GET one resource as JSON.
    Get { path: String },
    /// GET a paginated list, with query parameters.
    List { path: String, query: Vec<(String, String)> },
    /// POST a JSON body, and get the created resource.
    Post { path: String, body: Json },
    /// GET a resource as plain text.
    GetText { path: String },
    /// GET the OpenAPI schema.
    Schema,
}

/// The view of a call.
pub enum CallView {
    Get(Seq<char>),
    List(Seq<char>, Seq<(Seq<char>, Seq<char>)>),
    Post(Seq<char>, JsonView),
    GetText(Seq<char>),
    Schema,
}

/// The texts of query parameters.
pub open spec fn query_view(q: Seq<(String, String)>) -> Seq<(Seq<char>, Seq<char>)> {
    q.map_values(|p: (String, String)| (p.0@, p.1@))
}

pub open spec fn call_view(c: ApiCall) -> CallView {
    match c {
        ApiCall::Get { path } => CallView::Get(path@),
        ApiCall::List { path, query } => CallView::List(path@, query_view(query@)),
        ApiCall::Post { path, body } => CallView::Post(path@, json_view(body)),
        ApiCall::GetText { path } => CallView::GetText(path@),
        ApiCall::Schema => CallView::Schema,
    }
}

/// The path of one resource: the collection, the identifier, a slash.
pub open spec fn item_path(collection: Seq<char>, id: Seq<char>) -> Seq<char> {
    collection + id + "/"@
}

/// The decimal text of a number.
pub open spec fn dec(n: u64) -> Seq<char> {
    decimal(n as nat)
}

/// The call that a command makes; none for `auth` and `update`, which do
/// not go through this table.
pub open spec fn planned_call(c: Commands) -> Option<CallView> {
    match c {
        Commands::Teams { command } => Some(
            match command {
                TeamsCommands::List => CallView::List("teams/"@, seq![]),
                TeamsCommands::Get { id } => CallView::Get(item_path("teams/"@, dec(id))),
            },
        ),
        Commands::Projects { command } => Some(
            match command {
                ProjectsCommands::List { team } => CallView::List(
                    "projects/"@,
                    match team {
                        Some(t) => seq![("team"@, dec(t))],
                        None => seq![],
                    },
                ),
                ProjectsCommands::Get { id } => CallView::Get(item_path("projects/"@, dec(id))),
                ProjectsCommands::Create { team, name } => CallView::Post(
                    "projects/"@,
                    JsonView::Object(
                        seq![("team"@, JsonView::Number(dec(team))), ("name"@, JsonView::Str(name@))],
                    ),
                ),
            },
        ),
        Commands::Issues { command } => Some(
            match command {
                IssuesCommands::List { project, sort, order } => CallView::List(
                    "issues/"@,
                    seq![
                        ("project"@, dec(project)),
                        ("sort"@, sort_field_name(sort)),
                        ("order"@, sort_order_name(order)),
                    ],
                ),
                IssuesCommands::Get { id } => CallView::Get(item_path("issues/"@, dec(id))),
            },
        ),
        Commands::Events { command } => Some(
            match command {
                EventsCommands::List { issue, order } => CallView::List(
                    "events/"@,
                    seq![("issue"@, dec(issue)), ("order"@, sort_order_name(order))],
                ),
                EventsCommands::Get { id } => CallView::Get(item_path("events/"@, id@)),
                EventsCommands::Stacktrace { id } => CallView::GetText(
                    item_path("events/"@, id@) + "stacktrace/"@,
                ),
            },
        ),
        Commands::Releases { command } => Some(
            match command {
                ReleasesCommands::List { project } => CallView::List(
                    "releases/"@,
                    seq![("project"@, dec(project))],
                ),
                ReleasesCommands::Get { id } => CallView::Get(item_path("releases/"@, dec(id))),
                ReleasesCommands::Create { project, version } => CallView::Post(
                    "releases/"@,
                    JsonView::Object(
                        seq![
                            ("project"@, JsonView::Number(dec(project))),
                            ("version"@, JsonView::Str(version@)),
                        ],
                    ),
                ),
            },
        ),
        Commands::Describe => Some(CallView::Schema),
        Commands::Auth { .. } => None,
        Commands::Update => None,
    }
}

/// `collection` followed by `id` and a slash.
fn path_of(collection: &str, id: &str) -> (r: String)
    ensures
        r@ == item_path(collection@, id@),
{
    let mut r = collection.to_owned();
    append_str(&mut r, id);
    append_str(&mut r, "/");
    r
}

/// `collection` followed by the number `id` and a slash.
fn numbered_path(collection: &str, id: u64) -> (r: String)
    ensures
        r@ == item_path(collection@, dec(id)),
{
    let n = decimal_string(id);
    path_of(collection, n.as_str())
}

fn param(name: &str, value: String) -> (r: (String, String))
    ensures
        r.0@ == name@,
        r.1@ == value@,
{
    (name.to_owned(), value)
}

/// The call that `command` makes, if it makes one through this table.
pub fn api_call(command: &Commands) -> (r: Option<ApiCall>)
    ensures
        match r {
            Some(c) => planned_call(*command) == Some(call_view(c)),
            None => planned_call(*command) is None,
        },
{
    match command {
        Commands::Teams { command } => Some(
            match command {
                TeamsCommands::List => {
                    let query: Vec<(String, String)> = Vec::new();
                    assert(query_view(query@) =~= seq![]);
                    ApiCall::List { path: String::from_str("teams/"), query }
                },
                TeamsCommands::Get { id } => ApiCall::Get { path: numbered_path("teams/", *id) },
            },
        ),
        Commands::Projects { command } => Some(
            match command {
                ProjectsCommands::List { team } => {
                    let mut query: Vec<(String, String)> = Vec::new();
                    match team {
                        Some(t) => {
                            query.push(param("team", decimal_string(*t)));
                        },
                        None => {},
                    }
                    assert(query_view(query@) =~= match team {
                        Some(t) => seq![("team"@, dec(*t))],
                        None => seq![],
                    });
                    ApiCall::List { path: String::from_str("projects/"), query }
                },
                ProjectsCommands::Get { id } => ApiCall::Get {
                    path: numbered_path("projects/", *id),
                },
                ProjectsCommands::Create { team, name } => ApiCall::Post {
                    path: String::from_str("projects/"),
                    body: Json::object2(
                        "team",
                        Json::Number(decimal_string(*team)),
                        "name",
                        Json::Str(name.clone()),
                    ),
                },
            },
        ),
        Commands::Issues { command } => Some(
            match command {
                IssuesCommands::List { project, sort, order } => {
                    let mut query: Vec<(String, String)> = Vec::new();
                    query.push(param("project", decimal_string(*project)));
                    query.push(param("sort", sort.as_str().to_owned()));
                    query.push(param("order", order.as_str().to_owned()));
                    assert(query_view(query@) =~= seq![
                        ("project"@, dec(*project)),
                        ("sort"@, sort_field_name(*sort)),
                        ("order"@, sort_order_name(*order)),
                    ]);
                    ApiCall::List { path: String::from_str("issues/"), query }
                },
                IssuesCommands::Get { id } => ApiCall::Get { path: numbered_path("issues/", *id) },
            },
        ),
        Commands::Events { command } => Some(
            match command {
                EventsCommands::List { issue, order } => {
                    let mut query: Vec<(String, String)> = Vec::new();
                    query.push(param("issue", decimal_string(*issue)));
                    query.push(param("order", order.as_str().to_owned()));
                    assert(query_view(query@) =~= seq![
                        ("issue"@, dec(*issue)),
                        ("order"@, sort_order_name(*order)),
                    ]);
                    ApiCall::List { path: String::from_str("events/"), query }
                },
                EventsCommands::Get { id } => ApiCall::Get { path: path_of("events/", id.as_str()) },
                EventsCommands::Stacktrace { id } => {
                    let mut path = path_of("events/", id.as_str());
                    append_str(&mut path, "stacktrace/");
                    ApiCall::GetText { path }
                },
            },
        ),
        Commands::Releases { command } => Some(
            match command {
                ReleasesCommands::List { project } => {
                    let mut query: Vec<(String, String)> = Vec::new();
                    query.push(param("project", decimal_string(*project)));
                    assert(query_view(query@) =~= seq![("project"@, dec(*project))]);
                    ApiCall::List { path: String::from_str("releases/"), query }
                },
                ReleasesCommands::Get { id } => ApiCall::Get {
                    path: numbered_path("releases/", *id),
                },
                ReleasesCommands::Create { project, version } => ApiCall::Post {
                    path: String::from_str("releases/"),
                    body: Json::object2(
                        "project",
                        Json::Number(decimal_string(*project)),
                        "version",
                        Json::Str(version.clone()),
                    ),
                },
            },
        ),
        Commands::Describe => Some(ApiCall::Schema),
        Commands::Auth { .. } => None,
        Commands::Update => None,
    }
}

// ---------------------------------------------------------------------------
// Laws
// ---------------------------------------------------------------------------

/// The value of the first query parameter called `name`, if there is one.
pub open spec fn query_param(q: Seq<(Seq<char>, Seq<char>)>, name: Seq<char>) -> Option<Seq<char>>
    decreases q.len(),
{
    if q.len() == 0 {
        None
    } else if q[0].0 == name {
        Some(q[0].1)
    } else {
        query_param(q.drop_first(), name)
    }
}

/// `issues list` asks for `issues/` with the project, and with the sort
/// field and direction the user chose: `--sort last_seen` sends
/// `sort=last_seen`, `--sort digest_order` sends `sort=digest_order`,
/// `--order asc` sends `order=asc` and `--order desc` sends `order=desc`,
/// whatever the other options are.
pub proof fn lemma_issues_list_follows_options(project: u64, sort: SortField, order: SortOrder)
    ensures
        planned_call(
            Commands::Issues { command: IssuesCommands::List { project, sort, order } },
        ) matches Some(CallView::List(path, q)) && {
            &&& path == "issues/"@
            &&& query_param(q, "project"@) == Some(dec(project))
            &&& (sort == SortField::LastSeen ==> query_param(q, "sort"@) == Some("last_seen"@))
            &&& (sort == SortField::DigestOrder ==> query_param(q, "sort"@) == Some(
                "digest_order"@,
            ))
            &&& (order == SortOrder::Asc ==> query_param(q, "order"@) == Some("asc"@))
            &&& (order == SortOrder::Desc ==> query_param(q, "order"@) == Some("desc"@))
        },
{
    reveal_strlit("project");
    reveal_strlit("sort");
    reveal_strlit("order");
    let q = seq![
        ("project"@, dec(project)),
        ("sort"@, sort_field_name(sort)),
        ("order"@, sort_order_name(order)),
    ];
    reveal_with_fuel(query_param, 4);
    assert(q.drop_first()[0].0 == "sort"@);
    assert(q.drop_first().drop_first()[0].0 == "order"@);
    assert(query_param(q, "sort"@) == Some(sort_field_name(sort)));
    assert(query_param(q, "order"@) == Some(sort_order_name(order)));
}

/// Two `issues list` commands that differ only in `--sort` send different
/// `sort` parameters, and two that differ only in `--order` send different
/// `order` parameters: neither choice is ever dropped.
pub proof fn lemma_issues_list_choices_matter(
    project: u64,
    s1: SortField,
    s2: SortField,
    o1: SortOrder,
    o2: SortOrder,
)
    ensures
        planned_call(
            Commands::Issues { command: IssuesCommands::List { project, sort: s1, order: o1 } },
        ) matches Some(CallView::List(_, q1)) && planned_call(
            Commands::Issues { command: IssuesCommands::List { project, sort: s2, order: o2 } },
        ) matches Some(CallView::List(_, q2)) && {
            &&& (s1 != s2 ==> query_param(q1, "sort"@) != query_param(q2, "sort"@))
            &&& (o1 != o2 ==> query_param(q1, "order"@) != query_param(q2, "order"@))
        },
{
    reveal_strlit("last_seen");
    reveal_strlit("digest_order");
    reveal_strlit("asc");
    reveal_strlit("desc");
    lemma_issues_list_follows_options(project, s1, o1);
    lemma_issues_list_follows_options(project, s2, o2);
    assert("last_seen"@.len() != "digest_order"@.len());
    assert("asc"@.len() != "desc"@.len());
}

/// `events list` asks for `events/` with the issue and the direction the
/// user chose: `--order asc` sends `order=asc`, `--order desc` sends
/// `order=desc`; the two directions never send the same query.
pub proof fn lemma_events_list_follows_order(issue: u64, order: SortOrder, other: SortOrder)
    ensures
        planned_call(Commands::Events { command: EventsCommands::List { issue, order } }) matches Some(
            CallView::List(path, q),
        ) && {
            &&& path == "events/"@
            &&& query_param(q, "issue"@) == Some(dec(issue))
            &&& (order == SortOrder::Asc ==> query_param(q, "order"@) == Some("asc"@))
            &&& (order == SortOrder::Desc ==> query_param(q, "order"@) == Some("desc"@))
            &&& (order != other ==> planned_call(
                Commands::Events { command: EventsCommands::List { issue, order: other } },
            ) != Some(CallView::List(path, q)))
        },
{
    reveal_strlit("issue");
    reveal_strlit("order");
    reveal_strlit("asc");
    reveal_strlit("desc");
    let q = seq![("issue"@, dec(issue)), ("order"@, sort_order_name(order))];
    let q2 = seq![("issue"@, dec(issue)), ("order"@, sort_order_name(other))];
    assert("issue"@[0] != "order"@[0]);
    reveal_with_fuel(query_param, 3);
    assert(q.drop_first()[0].0 == "order"@);
    assert(query_param(q, "order"@) == Some(sort_order_name(order)));
    if order != other {
        assert("asc"@.len() != "desc"@.len());
        assert(sort_order_name(order).len() != sort_order_name(other).len());
        assert(q[1] != q2[1]);
        assert(q != q2);
    }
}

/// `releases create` posts to `releases/` a body whose `version` is the
/// version text exactly as given, for any text, and whose `project` is the
/// project's number.
pub proof fn lemma_release_create_keeps_version(project: u64, version: String)
    ensures
        planned_call(
            Commands::Releases { command: ReleasesCommands::Create { project, version } },
        ) matches Some(CallView::Post(path, body)) && {
            &&& path == "releases/"@
            &&& member(body, "version"@) == Some(JsonView::Str(version@))
            &&& member(body, "project"@) == Some(JsonView::Number(dec(project)))
        },
{
    reveal_strlit("project");
    reveal_strlit("version");
    let members = seq![
        ("project"@, JsonView::Number(dec(project))),
        ("version"@, JsonView::Str(version@)),
    ];
    assert("project"@[0] != "version"@[0]);
    reveal_with_fuel(crate::json::first_member, 3);
    assert(members.drop_first()[0].0 == "version"@);
}

/// `projects create` posts to `projects/` a body whose `team` is the team's
/// number and whose `name` is the name exactly as given.
pub proof fn lemma_project_create_keeps_fields(team: u64, name: String)
    ensures
        planned_call(
            Commands::Projects { command: ProjectsCommands::Create { team, name } },
        ) matches Some(CallView::Post(path, body)) && {
            &&& path == "projects/"@
            &&& member(body, "team"@) == Some(JsonView::Number(dec(team)))
            &&& member(body, "name"@) == Some(JsonView::Str(name@))
        },
{
    reveal_strlit("team");
    reveal_strlit("name");
    assert("team"@[0] != "name"@[0]);
    reveal_with_fuel(crate::json::first_member, 3);
    let members = seq![("team"@, JsonView::Number(dec(team))), ("name"@, JsonView::Str(name@))];
    assert(members.drop_first()[0].0 == "name"@);
}

/// `projects list` filters by team exactly when a team is given, with that
/// team's number; `releases list` always filters by the given project.
pub proof fn lemma_list_filters(team: Option<u64>, project: u64)
    ensures
        planned_call(Commands::Projects { command: ProjectsCommands::List { team } }) matches Some(
            CallView::List(path, q),
        ) && path == "projects/"@ && query_param(q, "team"@) == match team {
            Some(t) => Some(dec(t)),
            None => None::<Seq<char>>,
        },
        planned_call(Commands::Releases { command: ReleasesCommands::List { project } }) matches Some(
            CallView::List(path, q),
        ) && path == "releases/"@ && query_param(q, "project"@) == Some(dec(project)),
{
    reveal_with_fuel(query_param, 2);
}

/// An event is fetched, and its stacktrace read, at a path made of the
/// event's identifier exactly as given.
pub proof fn lemma_event_paths(id: String)
    ensures
        planned_call(Commands::Events { command: EventsCommands::Get { id } }) == Some(
            CallView::Get("events/"@ + id@ + "/"@),
        ),
        planned_call(Commands::Events { command: EventsCommands::Stacktrace { id } }) == Some(
            CallView::GetText("events/"@ + id@ + "/stacktrace/"@),
        ),
{
    reveal_strlit("/");
    reveal_strlit("stacktrace/");
    reveal_strlit("/stacktrace/");
    assert("events/"@ + id@ + "/"@ + "stacktrace/"@ =~= "events/"@ + id@ + "/stacktrace/"@);
}

} // verus!
