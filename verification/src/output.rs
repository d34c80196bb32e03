//! How results are shown: compact or pretty JSON, and the `--fields`
//! filter that keeps only the named members of objects.

use vstd::prelude::*;
use crate::json::{json_view, lemma_member_views_push, lemma_views_push, member_views, views_of, Json, JsonView};
use crate::text::{split_char, split_on, trim_white_space, trimmed};

verus! {

/// The chosen output format.
pub struct Output {
    /// `--json`: always compact output.
    pub force_json: bool,
    /// `--fields`: the member names to keep, if given.
    pub fields: Option<Vec<String>>,
}

/// The texts of a list of strings.
pub open spec fn texts(v: Seq<String>) -> Seq<Seq<char>> {
    v.map_values(|s: String| s@)
}

/// Whether an object member is one of the named fields.
pub open spec fn is_listed(fields: Seq<Seq<char>>) -> spec_fn((Seq<char>, JsonView)) -> bool {
    |m: (Seq<char>, JsonView)| fields.contains(m.0)
}

/// `v` with only the listed members kept in each object at its top level or
/// directly in (nested) arrays; other values are left as they are.
pub open spec fn filter_view(fields: Seq<Seq<char>>, v: JsonView) -> JsonView
    decreases v,
{
    match v {
        JsonView::Array(items) => JsonView::Array(filter_each(fields, items)),
        JsonView::Object(members) => JsonView::Object(members.filter(is_listed(fields))),
        _ => v,
    }
}

/// `filter_view` applied to each item.
pub open spec fn filter_each(fields: Seq<Seq<char>>, items: Seq<JsonView>) -> Seq<JsonView>
    decreases items,
{
    if items.len() == 0 {
        Seq::<JsonView>::empty()
    } else {
        filter_each(fields, items.drop_last()).push(filter_view(fields, items.last()))
    }
}

/// What `--fields` turns a value into: the value itself when no fields were
/// given.
pub open spec fn shown(fields: Option<Seq<Seq<char>>>, v: JsonView) -> JsonView {
    match fields {
        Some(f) => filter_view(f, v),
        None => v,
    }
}

impl Output {
    /// The field names of the filter, if there is one.
    pub open spec fn field_names(&self) -> Option<Seq<Seq<char>>> {
        match self.fields {
            Some(f) => Some(texts(f@)),
            None => None,
        }
    }

    /// The output format for `--json` and `--fields`: the list of fields is
    /// split at commas and each name trimmed of white space.
    pub fn new(force_json: bool, fields: Option<String>) -> (r: Output)
        ensures
            r.force_json == force_json,
            fields is None ==> r.fields is None,
            fields matches Some(f) ==> r.field_names() == Some(
                split_on(f@, ',').map_values(|p: Seq<char>| trimmed(p)),
            ),
    {
        match fields {
            None => Output { force_json, fields: None },
            Some(f) => {
                let parts = split_char(f.as_str(), ',');
                let ghost pieces = split_on(f@, ',');
                let mut names: Vec<String> = Vec::new();
                let mut i: usize = 0;
                while i < parts.len()
                    invariant
                        i <= parts@.len(),
                        texts(parts@) == pieces,
                        texts(names@) == pieces.take(i as int).map_values(
                            |p: Seq<char>| trimmed(p),
                        ),
                    decreases parts@.len() - i,
                {
                    let name = trim_white_space(parts[i].as_str());
                    let ghost before = names@;
                    names.push(name);
                    assert(texts(names@) =~= texts(before).push(trimmed(pieces[i as int])));
                    assert(pieces.take(i + 1).map_values(|p: Seq<char>| trimmed(p))
                        =~= pieces.take(i as int).map_values(|p: Seq<char>| trimmed(p)).push(
                        trimmed(pieces[i as int]),
                    ));
                    i = i + 1;
                }
                assert(pieces.take(parts@.len() as int) =~= pieces);
                Output { force_json, fields: Some(names) }
            },
        }
    }

    /// Whether to pretty-print: never with `--json`, otherwise exactly when
    /// standard output is a terminal.
    pub fn is_pretty(&self, stdout_is_terminal: bool) -> (r: bool)
        ensures
            r == (!self.force_json && stdout_is_terminal),
    {
        if self.force_json {
            return false;
        }
        stdout_is_terminal
    }

    /// The report of an error, as it is written to standard error.
    pub fn error_report(message: &str) -> (r: Json)
        ensures
            json_view(r) == JsonView::Object(seq![("error"@, JsonView::Str(message@))]),
    {
        Json::object1("error", Json::string(message))
    }

    /// `value` as `--fields` shows it.
    pub fn filter_fields(&self, value: Json) -> (r: Json)
        ensures
            json_view(r) == shown(self.field_names(), json_view(value)),
    {
        match &self.fields {
            None => value,
            Some(fields) => filter_value(fields, value),
        }
    }
}

/// Whether `key` is one of `fields`.
fn is_field(fields: &Vec<String>, key: &String) -> (b: bool)
    ensures
        b == texts(fields@).contains(key@),
{
    let mut i: usize = 0;
    while i < fields.len()
        invariant
            i <= fields@.len(),
            forall|j: int| 0 <= j < i ==> fields@[j]@ != key@,
        decreases fields@.len() - i,
    {
        if fields[i] == *key {
            assert(texts(fields@)[i as int] == key@);
            return true;
        }
        i = i + 1;
    }
    assert forall|j: int| 0 <= j < texts(fields@).len() implies texts(fields@)[j] != key@ by {
        assert(texts(fields@)[j] == fields@[j]@);
    }
    false
}

/// `value` with the filter of `fields` applied.
fn filter_value(fields: &Vec<String>, value: Json) -> (r: Json)
    ensures
        json_view(r) == filter_view(texts(fields@), json_view(value)),
    decreases value,
{
    let ghost names = texts(fields@);
    let ghost whole = value;
    match value {
        Json::Array(items) => {
            let ghost src = items@;
            assert forall|k: int| 0 <= k < src.len() implies decreases_to!(whole => #[trigger] src[k]) by {
                vstd::std_specs::vec::axiom_vec_index_decreases(items, k);
                assert(decreases_to!(whole => items));
            }
            let mut out: Vec<Json> = Vec::new();
            assert(src.take(0) =~= Seq::<Json>::empty());
            for item in it: items.into_iter()
                invariant
                    it.seq() == src,
                    forall|k: int| 0 <= k < src.len() ==> decreases_to!(whole => #[trigger] src[k]),
                    whole == value,
                    views_of(out@) == filter_each(names, views_of(src.take(it.index() as int))),
                    names == texts(fields@),
            {
                let ghost k = it.index() as int;
                assert(item == src[k]);
                assert(decreases_to!(whole => item));
                let filtered = filter_value(fields, item);
                proof {
                    lemma_views_push(out@, filtered);
                    assert(src.take(k + 1) =~= src.take(k).push(src[k]));
                    lemma_views_push(src.take(k), src[k]);
                    assert(views_of(src.take(k)).push(json_view(src[k])).drop_last()
                        =~= views_of(src.take(k)));
                }
                out.push(filtered);
            }
            assert(src.take(src.len() as int) =~= src);
            Json::Array(out)
        },
        Json::Object(members) => {
            let ghost src = members@;
            let ghost keep = is_listed(names);
            let mut out: Vec<(String, Json)> = Vec::new();
            assert(src.take(0) =~= Seq::<(String, Json)>::empty());
            proof {
                reveal_with_fuel(Seq::filter, 1);
            }
            for m in it: members.into_iter()
                invariant
                    it.seq() == src,
                    names == texts(fields@),
                    keep == is_listed(names),
                    member_views(out@) == member_views(src.take(it.index() as int)).filter(keep),
            {
                let ghost k = it.index() as int;
                let ghost prefix = member_views(src.take(k));
                assert(m == src[k]);
                proof {
                    assert(src.take(k + 1) =~= src.take(k).push(src[k]));
                    lemma_member_views_push(src.take(k), src[k]);
                    reveal_with_fuel(Seq::filter, 1);
                    assert(prefix.push((m.0@, json_view(m.1))).drop_last() =~= prefix);
                }
                if is_field(fields, &m.0) {
                    proof {
                        lemma_member_views_push(out@, m);
                    }
                    out.push(m);
                }
            }
            assert(src.take(src.len() as int) =~= src);
            Json::Object(out)
        },
        other => other,
    }
}

/// Filtering keeps the order of what it keeps, so filtering what was
/// already filtered changes nothing.
proof fn lemma_seq_filter_twice(s: Seq<(Seq<char>, JsonView)>, p: spec_fn((Seq<char>, JsonView)) -> bool)
    ensures
        s.filter(p).filter(p) == s.filter(p),
    decreases s.len(),
{
    reveal_with_fuel(Seq::filter, 1);
    if s.len() > 0 {
        lemma_seq_filter_twice(s.drop_last(), p);
        let init = s.drop_last().filter(p);
        if p(s.last()) {
            assert(init.push(s.last()).drop_last() =~= init);
        }
    }
}

proof fn lemma_filter_each_twice(fields: Seq<Seq<char>>, items: Seq<JsonView>)
    ensures
        filter_each(fields, filter_each(fields, items)) == filter_each(fields, items),
    decreases items,
{
    if items.len() > 0 {
        let once = filter_each(fields, items);
        lemma_filter_each_twice(fields, items.drop_last());
        lemma_filter_twice(fields, items.last());
        assert(once.drop_last() =~= filter_each(fields, items.drop_last()));
    }
}

/// The `--fields` filter is idempotent: applying it to its own output
/// gives that output back.
pub proof fn lemma_filter_twice(fields: Seq<Seq<char>>, v: JsonView)
    ensures
        filter_view(fields, filter_view(fields, v)) == filter_view(fields, v),
    decreases v,
{
    match v {
        JsonView::Array(items) => {
            lemma_filter_each_twice(fields, items);
        },
        JsonView::Object(members) => {
            lemma_seq_filter_twice(members, is_listed(fields));
        },
        _ => {},
    }
}

} // verus!
