//! The shape of requests to the Bugsink API: endpoint URLs, the
//! authorization header, and the collection of paginated lists.

use vstd::prelude::*;
use crate::json::{json_view, views_of, Json, JsonView};
use crate::output::{filter_each, shown, Output};
use crate::text::{append_str, decimal, decimal_string, drop_leading, is_char, trim_start_char};

verus! {

/// The path under an instance's URL where the API lives.
pub open spec fn api_prefix() -> Seq<char> {
    "/api/canonical/0/"@
}

/// The URL of an API endpoint: the instance URL, the API prefix, and the
/// endpoint path without its leading slashes.
pub open spec fn api_url_of(base: Seq<char>, path: Seq<char>) -> Seq<char> {
    base + api_prefix() + drop_leading(path, is_char('/'))
}

/// The URL of an API endpoint.
pub fn api_url(base_url: &str, path: &str) -> (r: String)
    ensures
        r@ == api_url_of(base_url@, path@),
{
    let mut r = base_url.to_owned();
    append_str(&mut r, "/api/canonical/0/");
    let rest = trim_start_char(path, '/');
    append_str(&mut r, rest.as_str());
    r
}

/// The URL of the OpenAPI schema of an instance.
pub fn schema_url(base_url: &str) -> (r: String)
    ensures
        r@ == base_url@ + "/api/canonical/0/schema/"@,
{
    let mut r = base_url.to_owned();
    append_str(&mut r, "/api/canonical/0/schema/");
    r
}

/// The value of the `Authorization` header for a token.
pub fn bearer_header(token: &str) -> (r: String)
    ensures
        r@ == "Bearer "@ + token@,
{
    let mut r = String::from_str("Bearer ");
    append_str(&mut r, token);
    r
}

/// Whether a text may be the value of an HTTP header: every character is
/// a tab, or a space or above other than DEL. Characters beyond ASCII are
/// written as bytes of 0x80 and above, which are accepted too.
pub open spec fn header_value_ok(s: Seq<char>) -> bool {
    forall|i: int| 0 <= i < s.len() ==> (s[i] == '\t' || (' ' <= s[i] && s[i] != '\x7f'))
}

/// `reqwest::header::HeaderValue::from_str`, asked only whether it accepts
/// the text. Claims: it does exactly when `header_value_ok` holds, as the
/// byte check of the `http` crate's `HeaderValue` gives it.
#[verifier::external_body]
fn header_value_accepts(s: &str) -> (b: bool)
    ensures
        b == header_value_ok(s@),
{
    reqwest::header::HeaderValue::from_str(s).is_ok()
}

/// The `Authorization` header value for a token, if it is a valid header
/// value; a token that cannot be sent gives none.
pub fn authorization_value(token: &str) -> (r: Option<String>)
    ensures
        r is Some <==> header_value_ok("Bearer "@ + token@),
        r matches Some(v) ==> v@ == "Bearer "@ + token@,
{
    let value = bearer_header(token);
    if header_value_accepts(value.as_str()) {
        Some(value)
    } else {
        None
    }
}

/// The canonical reason phrase of an HTTP status code (`404` gives
/// `Not Found`); none for a code without one, or outside 100 to 999.
pub uninterp spec fn reason_phrase(status: u16) -> Option<Seq<char>>;

/// `reqwest::StatusCode::from_u16` and then `canonical_reason`. Claims only
/// that the phrase is a function of the code, named `reason_phrase`.
#[verifier::external_body]
fn canonical_reason(status: u16) -> (r: Option<&'static str>)
    ensures
        match r {
            Some(p) => reason_phrase(status) == Some(p@),
            None => reason_phrase(status) is None,
        },
{
    match reqwest::StatusCode::from_u16(status) {
        Ok(code) => code.canonical_reason(),
        Err(_) => None,
    }
}

/// A status code as `StatusCode`'s `Display` writes it: the number, a space
/// and the reason phrase, or `<unknown status code>` without one.
pub open spec fn status_display(status: u16) -> Seq<char> {
    decimal(status as nat) + " "@ + match reason_phrase(status) {
        Some(p) => p,
        None => "<unknown status code>"@,
    }
}

/// The message of a failed API call.
pub open spec fn api_error_text(status: u16, body: Seq<char>) -> Seq<char> {
    "API error ("@ + status_display(status) + "): "@ + body
}

/// Whether an API call succeeded: a 2xx status.
pub fn api_success(status: u16) -> (b: bool)
    ensures
        b == (200 <= status <= 299),
{
    200 <= status && status <= 299
}

/// The error of an API call that failed with `status`, whose answer was
/// `body`.
pub fn api_error_message(status: u16, body: &str) -> (r: String)
    ensures
        r@ == api_error_text(status, body@),
{
    let mut r = String::from_str("API error (");
    let code = decimal_string(status as u64);
    append_str(&mut r, code.as_str());
    append_str(&mut r, " ");
    match canonical_reason(status) {
        Some(p) => append_str(&mut r, p),
        None => append_str(&mut r, "<unknown status code>"),
    }
    append_str(&mut r, "): ");
    append_str(&mut r, body);
    r
}

/// One page of a list.
pub struct PaginatedResponse {
    /// The URL of the next page, if there is one.
    pub next: Option<String>,
    /// The URL of the previous page, if there is one.
    pub previous: Option<String>,
    pub results: Vec<Json>,
}

/// The view of an optional URL as a JSON value: the string, or null.
pub open spec fn link_view(link: Option<String>) -> JsonView {
    match link {
        Some(s) => JsonView::Str(s@),
        None => JsonView::Null,
    }
}

/// The JSON object that shows one page: `next`, `previous` and `results`.
pub open spec fn envelope_view(page: PaginatedResponse) -> JsonView {
    JsonView::Object(
        seq![
            ("next"@, link_view(page.next)),
            ("previous"@, link_view(page.previous)),
            ("results"@, JsonView::Array(views_of(page.results@))),
        ],
    )
}

/// A page as `--fields` shows it: `next` and `previous` as they are, and
/// the filter applied to each result, not to the envelope itself.
pub open spec fn shown_page(fields: Option<Seq<Seq<char>>>, page: PaginatedResponse) -> JsonView {
    JsonView::Object(
        seq![
            ("next"@, link_view(page.next)),
            ("previous"@, link_view(page.previous)),
            ("results"@, shown(fields, JsonView::Array(views_of(page.results@)))),
        ],
    )
}

fn link_json(link: Option<String>) -> (r: Json)
    ensures
        json_view(r) == link_view(link),
{
    match link {
        Some(s) => Json::Str(s),
        None => Json::Null,
    }
}

impl PaginatedResponse {
    /// The page as it is shown when only one page is fetched.
    pub fn envelope(self) -> (r: Json)
        ensures
            json_view(r) == envelope_view(self),
    {
        Json::object3(
            "next",
            link_json(self.next),
            "previous",
            link_json(self.previous),
            "results",
            Json::Array(self.results),
        )
    }

    /// The page as it is shown when only one page is fetched, with the
    /// `--fields` filter of `output` applied to each of its results.
    pub fn shown_envelope(self, output: &Output) -> (r: Json)
        ensures
            json_view(r) == shown_page(output.field_names(), self),
            output.field_names() is None ==> json_view(r) == envelope_view(self),
            output.field_names() matches Some(f) ==> json_view(r) == JsonView::Object(
                seq![
                    ("next"@, link_view(self.next)),
                    ("previous"@, link_view(self.previous)),
                    ("results"@, JsonView::Array(filter_each(f, views_of(self.results@)))),
                ],
            ),
    {
        let all = Json::Array(self.results);
        let results = output.filter_fields(all);
        Json::object3(
            "next",
            link_json(self.next),
            "previous",
            link_json(self.previous),
            "results",
            results,
        )
    }
}

/// The views of two sequences joined are the views of each, joined.
pub proof fn lemma_views_concat(a: Seq<Json>, b: Seq<Json>)
    ensures
        views_of(a + b) == views_of(a) + views_of(b),
    decreases b.len(),
{
    if b.len() == 0 {
        assert(a + b =~= a);
        assert(views_of(a) + views_of(b) =~= views_of(a));
    } else {
        lemma_views_concat(a, b.drop_last());
        assert((a + b).drop_last() =~= a + b.drop_last());
        assert((a + b).last() == b.last());
        assert(views_of(a) + views_of(b) =~= (views_of(a) + views_of(b.drop_last())).push(
            json_view(b.last()),
        ));
    }
}

/// The results gathered from the pages of a list, in the order the pages
/// came.
pub struct PageCollector {
    results: Vec<Json>,
}

impl PageCollector {
    /// What has been gathered so far.
    pub closed spec fn gathered(&self) -> Seq<JsonView> {
        views_of(self.results@)
    }

    /// A collector that holds nothing yet.
    pub fn new() -> (r: PageCollector)
        ensures
            r.gathered() == Seq::<JsonView>::empty(),
    {
        PageCollector { results: Vec::new() }
    }

    /// Adds the results of `page` after those gathered so far, and gives
    /// the URL of the page to fetch next, if there is one.
    pub fn absorb(&mut self, page: PaginatedResponse) -> (next: Option<String>)
        ensures
            final(self).gathered() == old(self).gathered() + views_of(page.results@),
            next == page.next,
    {
        let ghost before = self.results@;
        let ghost added = page.results@;
        let mut results = page.results;
        self.results.append(&mut results);
        proof {
            lemma_views_concat(before, added);
        }
        page.next
    }

    /// Everything gathered, in order.
    pub fn into_results(self) -> (r: Vec<Json>)
        ensures
            views_of(r@) == self.gathered(),
    {
        self.results
    }
}

} // verus!
