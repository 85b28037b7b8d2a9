//! JSON values, as they are sent to Zitadel.

use vstd::prelude::*;
use vstd::string::*;

use crate::text::opt_view;

verus! {

/// A JSON value as seen by contracts.
pub enum JsonView {
    Null,
    Bool(bool),
    Number(nat),
    Text(Seq<char>),
    List(Seq<JsonView>),
    /// Members in the order in which they were added.
    Object(Seq<(Seq<char>, JsonView)>),
}

impl JsonView {
    /// The object with one more member.
    pub open spec fn with(self, key: Seq<char>, value: JsonView) -> JsonView {
        match self {
            JsonView::Object(members) => JsonView::Object(members.push((key, value))),
            other => other,
        }
    }

    /// An optional text: `null` if it is absent.
    pub open spec fn optional(text: Option<Seq<char>>) -> JsonView {
        match text {
            Some(t) => JsonView::Text(t),
            None => JsonView::Null,
        }
    }

    /// A list of texts.
    pub open spec fn texts(list: Seq<Seq<char>>) -> JsonView {
        JsonView::List(text_values(list))
    }
}

/// Every text of a list as a JSON value.
pub open spec fn text_values(list: Seq<Seq<char>>) -> Seq<JsonView> {
    list.map_values(|t: Seq<char>| JsonView::Text(t))
}

/// A JSON value.
#[derive(Debug, PartialEq)]
pub enum Json {
    Null,
    Bool(bool),
    Number(u64),
    Text(String),
    List(Vec<Json>),
    Object(Vec<(String, Json)>),
}

/// The first `n` values of a list.
pub open spec fn list_view(list: Seq<Json>, n: nat) -> Seq<JsonView>
    decreases list, n,
{
    if n == 0 || n > list.len() {
        Seq::empty()
    } else {
        list_view(list, (n - 1) as nat).push(json_view(list[n - 1]))
    }
}

/// The first `n` members of an object.
pub open spec fn members_view(members: Seq<(String, Json)>, n: nat) -> Seq<(Seq<char>, JsonView)>
    decreases members, n,
{
    if n == 0 || n > members.len() {
        Seq::empty()
    } else {
        members_view(members, (n - 1) as nat).push(
            (members[n - 1].0@, json_view(members[n - 1].1)),
        )
    }
}

/// The value that a JSON tree stands for.
pub open spec fn json_view(json: Json) -> JsonView
    decreases json, 0nat,
{
    match json {
        Json::Null => JsonView::Null,
        Json::Bool(b) => JsonView::Bool(b),
        Json::Number(n) => JsonView::Number(n as nat),
        Json::Text(t) => JsonView::Text(t@),
        Json::List(list) => JsonView::List(list_view(list@, list@.len())),
        Json::Object(members) => JsonView::Object(members_view(members@, members@.len())),
    }
}

impl View for Json {
    type V = JsonView;

    open spec fn view(&self) -> JsonView {
        json_view(*self)
    }
}

proof fn members_view_of_prefix(a: Seq<(String, Json)>, b: Seq<(String, Json)>, n: nat)
    requires
        n <= a.len(),
        n <= b.len(),
        forall|i: int| 0 <= i < n ==> a[i] == b[i],
    ensures
        members_view(a, n) == members_view(b, n),
    decreases n,
{
    if n > 0 {
        members_view_of_prefix(a, b, (n - 1) as nat);
    }
}

impl Json {
    /// An object without members.
    pub fn object() -> (r: Json)
        ensures
            r@ == JsonView::Object(Seq::empty()),
    {
        Json::Object(Vec::new())
    }

    /// A text.
    pub fn text(text: &str) -> (r: Json)
        ensures
            r@ == JsonView::Text(text@),
    {
        Json::Text(text.to_owned())
    }

    /// A text, or `null` if it is absent.
    pub fn optional(text: &Option<String>) -> (r: Json)
        ensures
            r@ == JsonView::optional(opt_view(*text)),
    {
        match text {
            Some(t) => Json::Text(t.clone()),
            None => Json::Null,
        }
    }

    /// A list with one value.
    pub fn single(value: Json) -> (r: Json)
        ensures
            r@ == JsonView::List(seq![value@]),
    {
        let mut list: Vec<Json> = Vec::new();
        list.push(value);
        proof {
            reveal_with_fuel(list_view, 2);
            assert(list_view(list@, 1) =~= seq![value@]);
        }
        Json::List(list)
    }

    /// The object with one more member; any other value stays as it is.
    pub fn with(self, key: &str, value: Json) -> (r: Json)
        ensures
            r@ == self@.with(key@, value@),
    {
        match self {
            Json::Object(list) => {
                let mut members = list;
                let ghost before = members@;
                members.push((key.to_owned(), value));
                proof {
                    members_view_of_prefix(before, members@, before.len());
                }
                Json::Object(members)
            },
            other => other,
        }
    }
}

// --- Objects of serde_json

/// A JSON object of serde_json.
#[verifier::external_type_specification]
#[verifier::external_body]
#[verifier::reject_recursive_types(K)]
#[verifier::reject_recursive_types(V)]
pub struct ExObject<K, V>(serde_json::Map<K, V>);

/// A JSON value of serde_json.
#[verifier::external_type_specification]
#[verifier::external_body]
pub struct ExValue(serde_json::Value);

/// The members of a JSON object of serde_json, by their names.
pub uninterp spec fn object_members(
    object: serde_json::Map<String, serde_json::Value>,
) -> Map<Seq<char>, JsonView>;

/// `serde_json::Map::remove` takes the member of that name out of the object,
/// if there is one, and leaves the others.
#[verifier::external_body]
pub(crate) fn remove_member(object: &mut serde_json::Map<String, serde_json::Value>, key: &str)
    ensures
        object_members(*final(object)) == object_members(*old(object)).remove(key@),
{
    object.remove(key);
}

// --- Laws

proof fn lists_are_seen_value_by_value(list: Seq<Json>, n: nat)
    requires
        n <= list.len(),
    ensures
        list_view(list, n).len() == n,
        forall|i: int| 0 <= i < n ==> #[trigger] list_view(list, n)[i] == json_view(list[i]),
    decreases n,
{
    if n > 0 {
        lists_are_seen_value_by_value(list, (n - 1) as nat);
    }
}

proof fn objects_are_seen_member_by_member(members: Seq<(String, Json)>, n: nat)
    requires
        n <= members.len(),
    ensures
        members_view(members, n).len() == n,
        forall|i: int|
            0 <= i < n ==> (#[trigger] members_view(members, n)[i]).0 == members[i].0@
                && members_view(members, n)[i].1 == json_view(members[i].1),
    decreases n,
{
    if n > 0 {
        objects_are_seen_member_by_member(members, (n - 1) as nat);
    }
}

/// Contracts speak of JSON values as they are: lists value by value, objects
/// member by member, in their order.
pub proof fn values_are_seen_as_they_are(json: Json)
    ensures
        match json {
            Json::Null => json@ == JsonView::Null,
            Json::Bool(b) => json@ == JsonView::Bool(b),
            Json::Number(n) => json@ == JsonView::Number(n as nat),
            Json::Text(t) => json@ == JsonView::Text(t@),
            Json::List(list) => json@ matches JsonView::List(values) && values.len() == list@.len()
                && forall|i: int| 0 <= i < list@.len() ==> #[trigger] values[i] == list@[i]@,
            Json::Object(members) => json@ matches JsonView::Object(pairs) && pairs.len()
                == members@.len() && forall|i: int|
                0 <= i < members@.len() ==> (#[trigger] pairs[i]).0 == members@[i].0@ && pairs[i].1
                    == members@[i].1@,
        },
{
    match json {
        Json::List(list) => lists_are_seen_value_by_value(list@, list@.len()),
        Json::Object(members) => objects_are_seen_member_by_member(members@, members@.len()),
        _ => {},
    }
}

/// A member is added at the end and changes no other; an absent text is
/// `null`, and a list of texts holds each of them in its place.
pub proof fn values_hold_what_is_put_into_them(
    members: Seq<(Seq<char>, JsonView)>,
    key: Seq<char>,
    value: JsonView,
    text: Seq<char>,
    list: Seq<Seq<char>>,
)
    ensures
        JsonView::Object(members).with(key, value) == JsonView::Object(
            members + seq![(key, value)],
        ),
        JsonView::optional(Some(text)) == JsonView::Text(text),
        JsonView::optional(None) == JsonView::Null,
        JsonView::texts(list) matches JsonView::List(values) && values.len() == list.len()
            && forall|i: int|
            0 <= i < list.len() ==> #[trigger] values[i] == JsonView::Text(list[i]),
{
    assert(members.push((key, value)) =~= members + seq![(key, value)]);
}

} // verus!
