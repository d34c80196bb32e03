//! A JSON document as plain values, and its mathematical view.
//!
//! Numbers are held by their JSON text: nothing in this library computes
//! with them, it only carries them through.

use vstd::prelude::*;

verus! {

/// A JSON value.
#[derive(Debug, PartialEq, Eq)]
pub enum Json {
    Null,
    Bool(bool),
    /// A number, by its JSON text (such as `42` or `-1.5e3`).
    Number(String),
    Str(String),
    Array(Vec<Json>),
    /// The members of an object, in order.
    Object(Vec<(String, Json)>),
}

/// The mathematical view of a JSON value.
pub enum JsonView {
    Null,
    Bool(bool),
    Number(Seq<char>),
    Str(Seq<char>),
    Array(Seq<JsonView>),
    Object(Seq<(Seq<char>, JsonView)>),
}

/// The view of a JSON value.
pub open spec fn json_view(j: Json) -> JsonView
    decreases j,
{
    match j {
        Json::Null => JsonView::Null,
        Json::Bool(b) => JsonView::Bool(b),
        Json::Number(n) => JsonView::Number(n@),
        Json::Str(s) => JsonView::Str(s@),
        Json::Array(items) => JsonView::Array(views_of(items@)),
        Json::Object(members) => JsonView::Object(member_views(members@)),
    }
}

/// The views of a sequence of JSON values.
pub open spec fn views_of(items: Seq<Json>) -> Seq<JsonView>
    decreases items,
{
    if items.len() == 0 {
        Seq::<JsonView>::empty()
    } else {
        views_of(items.drop_last()).push(json_view(items.last()))
    }
}

/// The views of the members of an object.
pub open spec fn member_views(members: Seq<(String, Json)>) -> Seq<(Seq<char>, JsonView)>
    decreases members,
{
    if members.len() == 0 {
        Seq::<(Seq<char>, JsonView)>::empty()
    } else {
        member_views(members.drop_last()).push(
            (members.last().0@, json_view(members.last().1)),
        )
    }
}

/// The value of the first member named `key`, if the value is an object
/// that has one.
pub open spec fn member(v: JsonView, key: Seq<char>) -> Option<JsonView> {
    match v {
        JsonView::Object(members) => first_member(members, key),
        _ => None,
    }
}

/// The value of the first member named `key`.
pub open spec fn first_member(members: Seq<(Seq<char>, JsonView)>, key: Seq<char>) -> Option<
    JsonView,
>
    decreases members.len(),
{
    if members.len() == 0 {
        None
    } else if members[0].0 == key {
        Some(members[0].1)
    } else {
        first_member(members.drop_first(), key)
    }
}

pub proof fn lemma_views_push(items: Seq<Json>, x: Json)
    ensures
        views_of(items.push(x)) == views_of(items).push(json_view(x)),
{
    assert(items.push(x).drop_last() =~= items);
}

pub proof fn lemma_member_views_push(members: Seq<(String, Json)>, m: (String, Json))
    ensures
        member_views(members.push(m)) == member_views(members).push((m.0@, json_view(m.1))),
{
    assert(members.push(m).drop_last() =~= members);
}

pub proof fn lemma_views_len(items: Seq<Json>)
    ensures
        views_of(items).len() == items.len(),
    decreases items.len(),
{
    if items.len() > 0 {
        lemma_views_len(items.drop_last());
    }
}

pub proof fn lemma_member_views_len(members: Seq<(String, Json)>)
    ensures
        member_views(members).len() == members.len(),
    decreases members.len(),
{
    if members.len() > 0 {
        lemma_member_views_len(members.drop_last());
    }
}

pub proof fn lemma_member_views_index(members: Seq<(String, Json)>, i: int)
    requires
        0 <= i < members.len(),
    ensures
        member_views(members)[i] == (members[i].0@, json_view(members[i].1)),
    decreases members.len(),
{
    lemma_member_views_len(members.drop_last());
    if i < members.len() - 1 {
        lemma_member_views_index(members.drop_last(), i);
    }
}

impl Json {
    /// A string value.
    pub fn string(s: &str) -> (r: Json)
        ensures
            json_view(r) == JsonView::Str(s@),
    {
        Json::Str(s.to_owned())
    }

    /// An object with one member.
    pub fn object1(k1: &str, v1: Json) -> (r: Json)
        ensures
            json_view(r) == JsonView::Object(seq![(k1@, json_view(v1))]),
    {
        let ghost a = v1;
        let mut members: Vec<(String, Json)> = Vec::new();
        members.push((k1.to_owned(), v1));
        proof {
            reveal_with_fuel(member_views, 2);
            assert(members@.drop_last() =~= Seq::<(String, Json)>::empty());
        }
        assert(member_views(members@) =~= seq![(k1@, json_view(a))]);
        Json::Object(members)
    }

    /// An object with two members, in order.
    pub fn object2(k1: &str, v1: Json, k2: &str, v2: Json) -> (r: Json)
        ensures
            json_view(r) == JsonView::Object(seq![(k1@, json_view(v1)), (k2@, json_view(v2))]),
    {
        let ghost (a, b) = (v1, v2);
        let mut members: Vec<(String, Json)> = Vec::new();
        members.push((k1.to_owned(), v1));
        members.push((k2.to_owned(), v2));
        proof {
            reveal_with_fuel(member_views, 3);
            assert(members@.drop_last().drop_last() =~= Seq::<(String, Json)>::empty());
        }
        assert(member_views(members@) =~= seq![(k1@, json_view(a)), (k2@, json_view(b))]);
        Json::Object(members)
    }

    /// An object with three members, in order.
    pub fn object3(k1: &str, v1: Json, k2: &str, v2: Json, k3: &str, v3: Json) -> (r: Json)
        ensures
            json_view(r) == JsonView::Object(
                seq![(k1@, json_view(v1)), (k2@, json_view(v2)), (k3@, json_view(v3))],
            ),
    {
        let ghost (a, b, c) = (v1, v2, v3);
        let mut members: Vec<(String, Json)> = Vec::new();
        members.push((k1.to_owned(), v1));
        members.push((k2.to_owned(), v2));
        members.push((k3.to_owned(), v3));
        proof {
            reveal_with_fuel(member_views, 4);
            assert(members@.drop_last().drop_last().drop_last() =~= Seq::<(String, Json)>::empty());
        }
        assert(member_views(members@) =~= seq![
            (k1@, json_view(a)),
            (k2@, json_view(b)),
            (k3@, json_view(c)),
        ]);
        Json::Object(members)
    }

    /// An array of the given items, in the given order.
    pub fn array(items: Vec<Json>) -> (r: Json)
        ensures
            json_view(r) == JsonView::Array(views_of(items@)),
    {
        Json::Array(items)
    }

    /// The text of the string held by member `key`, where this value is an
    /// object whose first member of that name holds a string (what
    /// `value[key].as_str()` gives in serde_json).
    pub fn str_member(&self, key: &str) -> (r: Option<String>)
        ensures
            r is Some <==> (member(json_view(*self), key@) matches Some(JsonView::Str(_))),
            r matches Some(s) ==> member(json_view(*self), key@) == Some(JsonView::Str(s@)),
    {
        match self {
            Json::Object(members) => {
                let ghost mv = member_views(members@);
                let n = members.len();
                let mut i: usize = 0;
                let k = key.to_owned();
                proof {
                    lemma_member_views_len(members@);
                    assert(mv.skip(0) =~= mv);
                }
                while i < n
                    invariant
                        i <= n == members@.len(),
                        mv == member_views(members@),
                        json_view(*self) == JsonView::Object(mv),
                        mv.len() == n,
                        k@ == key@,
                        first_member(mv, key@) == first_member(mv.skip(i as int), key@),
                    decreases n - i,
                {
                    proof {
                        lemma_member_views_index(members@, i as int);
                        assert(mv.skip(i as int).drop_first() =~= mv.skip(i + 1));
                    }
                    if members[i].0 == k {
                        assert(mv.skip(i as int)[0] == mv[i as int]);
                        assert(first_member(mv, key@) == Some(json_view(members@[i as int].1)));
                        return match &members[i].1 {
                            Json::Str(s) => Some(s.clone()),
                            _ => None,
                        };
                    }
                    i = i + 1;
                }
                None
            },
            _ => None,
        }
    }
}

} // verus!
