//! JSON documents as values, and their serialisation.

use vstd::prelude::*;
use crate::text::same_text;

verus! {

/// A JSON value of the kinds that the protocol's requests are made of.
#[derive(Debug)]
pub enum Json {
    Text(String),
    Bool(bool),
    Array(Vec<Json>),
    Object(Vec<Member>),
}

/// One named member of a JSON object.
#[derive(Debug)]
pub struct Member {
    pub name: String,
    pub value: Json,
}

/// The mathematical value of a JSON document.
pub enum JsonView {
    Text(Seq<char>),
    Bool(bool),
    Array(Seq<JsonView>),
    Object(Seq<MemberView>),
}

/// The mathematical value of a member of an object.
pub struct MemberView {
    pub name: Seq<char>,
    pub value: JsonView,
}

impl View for Json {
    type V = JsonView;

    open spec fn view(&self) -> JsonView
        decreases self,
    {
        match self {
            Json::Text(s) => JsonView::Text(s@),
            Json::Bool(b) => JsonView::Bool(*b),
            Json::Array(items) => JsonView::Array(
                Seq::new(
                    items.len() as nat,
                    |i: int|
                        if 0 <= i < items.len() {
                            items[i].view()
                        } else {
                            JsonView::Bool(false)
                        },
                ),
            ),
            Json::Object(members) => JsonView::Object(
                Seq::new(
                    members.len() as nat,
                    |i: int|
                        if 0 <= i < members.len() {
                            MemberView { name: members[i].name@, value: members[i].value.view() }
                        } else {
                            MemberView { name: Seq::empty(), value: JsonView::Bool(false) }
                        },
                ),
            ),
        }
    }
}

/// The members of an object as pairs of a name and a value.
pub open spec fn members_view(members: Seq<Member>) -> Seq<MemberView> {
    Seq::new(members.len(), |i: int| MemberView { name: members[i].name@, value: members[i].value@ })
}

/// The values of a list of documents.
pub open spec fn items_view(items: Seq<Json>) -> Seq<JsonView> {
    Seq::new(items.len(), |i: int| items[i]@)
}

/// The value of the last member with the given name: the one that is
/// written where an object holds a name more than once.
pub open spec fn spec_member(members: Seq<MemberView>, name: Seq<char>) -> Option<JsonView>
    decreases members.len(),
{
    if members.len() == 0 {
        None
    } else if members.last().name == name {
        Some(members.last().value)
    } else {
        spec_member(members.drop_last(), name)
    }
}

/// True when no two members have the same name.
pub open spec fn distinct_names(members: Seq<MemberView>) -> bool {
    forall|i: int, j: int|
        0 <= i < j < members.len() ==> (#[trigger] members[i]).name != (#[trigger] members[j]).name
}

/// `spec_member` finds a member with the name, and finds none only where no
/// member has it.
pub proof fn lemma_member(members: Seq<MemberView>, name: Seq<char>)
    ensures
        match spec_member(members, name) {
            Some(v) => exists|i: int|
                0 <= i < members.len() && (#[trigger] members[i]).name == name && members[i].value
                    == v,
            None => forall|i: int| 0 <= i < members.len() ==> (#[trigger] members[i]).name != name,
        },
    decreases members.len(),
{
    if members.len() == 0 {
    } else if members.last().name == name {
        assert(members[members.len() - 1] == members.last());
    } else {
        let rest = members.drop_last();
        lemma_member(rest, name);
        match spec_member(rest, name) {
            Some(v) => {
                let i = choose|i: int|
                    0 <= i < rest.len() && (#[trigger] rest[i]).name == name && rest[i].value == v;
                assert(members[i] == rest[i]);
            },
            None => {
                assert forall|i: int| 0 <= i < members.len() implies (#[trigger] members[i]).name
                    != name by {
                    if i < members.len() - 1 {
                        assert(members[i] == rest[i]);
                    }
                }
            },
        }
    }
}

/// What is found under a name does not depend on the order of the members:
/// two objects with the same members, none of them sharing its name with
/// another, hold the same value under every name.
pub proof fn lemma_member_order(a: Seq<MemberView>, b: Seq<MemberView>, name: Seq<char>)
    requires
        distinct_names(a),
        distinct_names(b),
        a.to_multiset() == b.to_multiset(),
    ensures
        spec_member(a, name) == spec_member(b, name),
{
    lemma_member(a, name);
    lemma_member(b, name);
    match spec_member(a, name) {
        Some(v) => {
            let m = MemberView { name, value: v };
            let i = choose|i: int|
                0 <= i < a.len() && (#[trigger] a[i]).name == name && a[i].value == v;
            assert(a[i] == m);
            assert(a.contains(m));
            vstd::seq_lib::to_multiset_contains(a, m);
            vstd::seq_lib::to_multiset_contains(b, m);
            assert(b.contains(m));
            let j = choose|j: int| 0 <= j < b.len() && b[j] == m;
            match spec_member(b, name) {
                Some(w) => {
                    let k = choose|k: int|
                        0 <= k < b.len() && (#[trigger] b[k]).name == name && b[k].value == w;
                    assert(k == j) by {
                        if k < j {
                            assert(b[k].name != b[j].name);
                        } else if j < k {
                            assert(b[j].name != b[k].name);
                        }
                    }
                },
                None => {
                    assert(b[j].name != name);
                },
            }
        },
        None => {
            match spec_member(b, name) {
                Some(w) => {
                    let m = MemberView { name, value: w };
                    let k = choose|k: int|
                        0 <= k < b.len() && (#[trigger] b[k]).name == name && b[k].value == w;
                    assert(b[k] == m);
                    assert(b.contains(m));
                    vstd::seq_lib::to_multiset_contains(a, m);
                    vstd::seq_lib::to_multiset_contains(b, m);
                    assert(a.contains(m));
                    let j = choose|j: int| 0 <= j < a.len() && a[j] == m;
                    assert(a[j].name != name);
                },
                None => {},
            }
        },
    }
}

impl Json {
    /// The value of the last member with the given name, where the document
    /// is an object that has one. It is the one that is written: of two
    /// members with one name, the text of the object holds the later.
    pub fn get(&self, name: &str) -> (r: Option<&Json>)
        ensures
            match self@ {
                JsonView::Object(members) => match spec_member(members, name@) {
                    Some(v) => r matches Some(j) && j@ == v,
                    None => r is None,
                },
                _ => r is None,
            },
    {
        match self {
            Json::Object(members) => {
                let n = members.len();
                let mut i: usize = n;
                assert(self@->Object_0 =~= members_view(members@));
                assert(members_view(members@).take(n as int) =~= members_view(members@));
                while i > 0
                    invariant
                        i <= n,
                        n == members@.len(),
                        self@ == JsonView::Object(members_view(members@)),
                        spec_member(members_view(members@), name@) == spec_member(
                            members_view(members@).take(i as int),
                            name@,
                        ),
                    decreases i,
                {
                    let ghost rest = members_view(members@).take(i as int);
                    assert(rest.last().name == members@[i - 1].name@);
                    assert(rest.last().value == members@[i - 1].value@);
                    assert(rest.drop_last() =~= members_view(members@).take(i - 1));
                    i = i - 1;
                    if same_text(members[i].name.as_str(), name) {
                        return Some(&members[i].value);
                    }
                }
                None
            },
            _ => None,
        }
    }

    /// The text of the document, where it is a JSON string.
    pub fn as_text(&self) -> (r: Option<&str>)
        ensures
            match self@ {
                JsonView::Text(t) => r matches Some(s) && s@ == t,
                _ => r is None,
            },
    {
        match self {
            Json::Text(s) => Some(s.as_str()),
            _ => None,
        }
    }

    /// A JSON string.
    pub fn text(s: &str) -> (r: Json)
        ensures
            r@ == JsonView::Text(s@),
    {
        Json::Text(s.to_owned())
    }

    /// A JSON array of the given items, in their order.
    pub fn array(items: Vec<Json>) -> (r: Json)
        ensures
            r@ == JsonView::Array(items_view(items@)),
    {
        let r = Json::Array(items);
        assert(r@->Array_0 =~= items_view(items@));
        r
    }

    /// A JSON object of the given members, in their order.
    pub fn object(members: Vec<Member>) -> (r: Json)
        ensures
            r@ == JsonView::Object(members_view(members@)),
    {
        let r = Json::Object(members);
        assert(r@->Object_0 =~= members_view(members@));
        r
    }

    /// True when the document is the empty JSON string.
    pub fn is_empty_text(&self) -> (r: bool)
        ensures
            r == (self@ == JsonView::Text(Seq::empty())),
    {
        match self {
            Json::Text(s) => {
                let r = s.as_str().is_empty();
                assert(r ==> s@ =~= Seq::empty());
                r
            },
            _ => false,
        }
    }
}

impl Member {
    /// A member with a string as its value.
    pub fn text(name: &str, value: &str) -> (r: Member)
        ensures
            r.name@ == name@,
            r.value@ == JsonView::Text(value@),
    {
        Member { name: name.to_owned(), value: Json::text(value) }
    }

    /// A member with the given value.
    pub fn new(name: &str, value: Json) -> (r: Member)
        ensures
            r.name@ == name@,
            r.value == value,
    {
        Member { name: name.to_owned(), value }
    }
}

/// A JSON value of `serde_json`.
#[verifier::external_type_specification]
#[verifier::external_body]
pub struct ExJsonValue(serde_json::Value);

/// The text that `serde_json::to_string_pretty` writes for a document: its
/// members sorted by name, two spaces of indentation.
pub uninterp spec fn pretty_json(value: JsonView) -> Seq<char>;

/// Converts a document into a `serde_json::Value`, variant by variant: a
/// string to `Value::String`, a boolean to `Value::Bool`, items to
/// `Value::Array` and members to `Value::Object`.
#[verifier::external_body]
fn outside_value(value: &Json) -> serde_json::Value {
    match value {
        Json::Text(s) => serde_json::Value::String(s.clone()),
        Json::Bool(b) => serde_json::Value::Bool(*b),
        Json::Array(items) => serde_json::Value::Array(items.iter().map(outside_value).collect()),
        Json::Object(members) => serde_json::Value::Object(
            members.iter().map(|m| (m.name.clone(), outside_value(&m.value))).collect(),
        ),
    }
}

/// Calls `serde_json::to_string_pretty` on the converted document. Believed:
/// the text depends on the document alone, and there always is one: the call
/// writes into memory, and by its documentation fails only where the value's
/// own serialisation fails or a map has keys that are no strings, neither of
/// which a `serde_json::Value` does. `None` stands for its error.
#[verifier::external_body]
pub(crate) fn to_string_pretty(value: &Json) -> (r: Option<String>)
    ensures
        r is Some,
        r matches Some(text) ==> text@ == pretty_json(value@),
{
    serde_json::to_string_pretty(&outside_value(value)).ok()
}

} // verus!
