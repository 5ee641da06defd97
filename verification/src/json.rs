use vstd::prelude::*;

use crate::text::same_text;

verus! {

broadcast use vstd::std_specs::vec::group_vec_axioms;

/// A JSON number as the API's JSON reader hands it over.
#[derive(Debug, PartialEq)]
pub enum JsonNumber {
    /// A non-negative integer.
    PosInt(u64),
    /// A negative integer.
    NegInt(i64),
    /// Any other number, kept as the decimal text it was written with.
    Float(String),
}

/// A JSON document: the response bodies the API sends, and the payloads
/// sent to it.
#[derive(Debug, PartialEq)]
pub enum Json {
    /// `null`.
    Null,
    /// `true` or `false`.
    Bool(bool),
    /// A number.
    Number(JsonNumber),
    /// A string.
    String(String),
    /// An array, in order.
    Array(Vec<Json>),
    /// An object, as its members in order.
    Object(Vec<(String, Json)>),
}

/// The mathematical value of a [`JsonNumber`].
pub enum NumberView {
    PosInt(u64),
    NegInt(i64),
    Float(Seq<char>),
}

/// The mathematical value of a [`Json`] document.
pub enum JsonView {
    Null,
    Bool(bool),
    Number(NumberView),
    String(Seq<char>),
    Array(Seq<JsonView>),
    Object(Seq<(Seq<char>, JsonView)>),
}

impl View for JsonNumber {
    type V = NumberView;

    open spec fn view(&self) -> NumberView {
        match self {
            JsonNumber::PosInt(u) => NumberView::PosInt(*u),
            JsonNumber::NegInt(i) => NumberView::NegInt(*i),
            JsonNumber::Float(t) => NumberView::Float(t@),
        }
    }
}

pub open spec fn json_view(j: Json) -> JsonView
    decreases j,
{
    match j {
        Json::Null => JsonView::Null,
        Json::Bool(b) => JsonView::Bool(b),
        Json::Number(n) => JsonView::Number(n@),
        Json::String(s) => JsonView::String(s@),
        Json::Array(items) => JsonView::Array(items_view(items@)),
        Json::Object(entries) => JsonView::Object(entries_view(entries@)),
    }
}

pub open spec fn items_view(s: Seq<Json>) -> Seq<JsonView>
    decreases s,
{
    if s.len() == 0 {
        seq![]
    } else {
        seq![json_view(s[0])] + items_view(s.skip(1))
    }
}

pub open spec fn entries_view(s: Seq<(String, Json)>) -> Seq<(Seq<char>, JsonView)>
    decreases s,
{
    if s.len() == 0 {
        seq![]
    } else {
        seq![(s[0].0@, json_view(s[0].1))] + entries_view(s.skip(1))
    }
}

impl View for Json {
    type V = JsonView;

    open spec fn view(&self) -> JsonView {
        json_view(*self)
    }
}


pub proof fn lemma_items_view(s: Seq<Json>)
    ensures
        items_view(s).len() == s.len(),
        forall|i: int| 0 <= i < s.len() ==> #[trigger] items_view(s)[i] == json_view(s[i]),
    decreases s.len(),
{
    if s.len() > 0 {
        lemma_items_view(s.skip(1));
    }
}

pub proof fn lemma_entries_view(s: Seq<(String, Json)>)
    ensures
        entries_view(s).len() == s.len(),
        forall|i: int|
            0 <= i < s.len() ==> #[trigger] entries_view(s)[i] == (s[i].0@, json_view(s[i].1)),
    decreases s.len(),
{
    if s.len() > 0 {
        lemma_entries_view(s.skip(1));
    }
}

/// The value of the first member named `key`, if any.
pub open spec fn entry_get(es: Seq<(Seq<char>, JsonView)>, key: Seq<char>) -> Option<JsonView>
    decreases es.len(),
{
    if es.len() == 0 {
        None
    } else if es[0].0 == key {
        Some(es[0].1)
    } else {
        entry_get(es.skip(1), key)
    }
}

proof fn lemma_entry_get_found(es: Seq<(Seq<char>, JsonView)>, key: Seq<char>, i: int)
    requires
        0 <= i < es.len(),
        es[i].0 == key,
        forall|j: int| 0 <= j < i ==> es[j].0 != key,
    ensures
        entry_get(es, key) == Some(es[i].1),
    decreases i,
{
    if i > 0 {
        lemma_entry_get_found(es.skip(1), key, i - 1);
    }
}

proof fn lemma_entry_get_absent(es: Seq<(Seq<char>, JsonView)>, key: Seq<char>)
    requires
        forall|j: int| 0 <= j < es.len() ==> es[j].0 != key,
    ensures
        entry_get(es, key) is None,
    decreases es.len(),
{
    if es.len() > 0 {
        lemma_entry_get_absent(es.skip(1), key);
    }
}

/// The member `key` of an object; nothing for any other document.
pub open spec fn member(doc: JsonView, key: Seq<char>) -> Option<JsonView> {
    match doc {
        JsonView::Object(es) => entry_get(es, key),
        _ => None,
    }
}

impl JsonNumber {
    /// A copy of the number.
    pub fn copy(&self) -> (r: JsonNumber)
        ensures
            r@ == self@,
    {
        match self {
            JsonNumber::PosInt(u) => JsonNumber::PosInt(*u),
            JsonNumber::NegInt(i) => JsonNumber::NegInt(*i),
            JsonNumber::Float(t) => JsonNumber::Float(t.clone()),
        }
    }
}

impl Clone for JsonNumber {
    fn clone(&self) -> (r: JsonNumber)
        ensures
            r@ == self@,
    {
        self.copy()
    }
}

impl Json {
    /// A deep copy of the document.
    #[verifier::loop_isolation(false)]
    pub fn copy(&self) -> (r: Json)
        ensures
            r@ == self@,
        decreases self,
    {
        match self {
            Json::Null => Json::Null,
            Json::Bool(b) => Json::Bool(*b),
            Json::Number(n) => Json::Number(n.copy()),
            Json::String(s) => Json::String(s.clone()),
            Json::Array(items) => {
                let mut out: Vec<Json> = Vec::new();
                let mut i: usize = 0;
                while i < items.len()
                    invariant
                        i <= items@.len(),
                        out@.len() == i,
                        forall|j: int| 0 <= j < i ==> #[trigger] out@[j]@ == items@[j]@,
                    decreases items@.len() - i,
                {
                    assert(decreases_to!(*self => *items));
                    assert(decreases_to!(items => items[i as int]));
                    let c = items[i].copy();
                    out.push(c);
                    i += 1;
                }
                proof {
                    lemma_items_view(items@);
                    lemma_items_view(out@);
                    assert forall|j: int| 0 <= j < out@.len() implies items_view(out@)[j] == items_view(items@)[j] by {
                        assert(out@[j]@ == items@[j]@);
                    }
                    assert(items_view(out@) =~= items_view(items@));
                }
                Json::Array(out)
            },
            Json::Object(entries) => {
                let mut out: Vec<(String, Json)> = Vec::new();
                let mut i: usize = 0;
                while i < entries.len()
                    invariant
                        i <= entries@.len(),
                        out@.len() == i,
                        forall|j: int|
                            #![trigger out@[j]]
                            0 <= j < i ==> out@[j].0@ == entries@[j].0@ && out@[j].1@
                                == entries@[j].1@,
                    decreases entries@.len() - i,
                {
                    assert(decreases_to!(*self => *entries));
                    assert(decreases_to!(entries => entries[i as int]));
                    assert(decreases_to!(entries[i as int] => entries[i as int].1));
                    let k = entries[i].0.clone();
                    let v = entries[i].1.copy();
                    out.push((k, v));
                    i += 1;
                }
                proof {
                    lemma_entries_view(entries@);
                    lemma_entries_view(out@);
                    assert forall|j: int| 0 <= j < out@.len() implies entries_view(out@)[j] == entries_view(entries@)[j] by {
                        assert(out@[j].1@ == entries@[j].1@);
                    }
                    assert(entries_view(out@) =~= entries_view(entries@));
                }
                Json::Object(out)
            },
        }
    }

    /// The member `key` of an object, as `serde_json::Value::get` reads it:
    /// nothing when the document is not an object or has no such member.
    pub fn get(&self, key: &str) -> (r: Option<&Json>)
        ensures
            match r {
                Some(v) => member(self@, key@) == Some(v@),
                None => member(self@, key@) is None,
            },
    {
        match self {
            Json::Object(entries) => {
                proof {
                    lemma_entries_view(entries@);
                }
                let ghost es = entries_view(entries@);
                assert(self@ == JsonView::Object(es));
                let mut i: usize = 0;
                while i < entries.len()
                    invariant
                        i <= entries@.len(),
                        es == entries_view(entries@),
                        self@ == JsonView::Object(es),
                        es.len() == entries@.len(),
                        forall|j: int| 0 <= j < entries@.len() ==> #[trigger] es[j] == (entries@[j].0@, json_view(entries@[j].1)),
                        forall|j: int| 0 <= j < i ==> es[j].0 != key@,
                    decreases entries@.len() - i,
                {
                    if same_text(entries[i].0.as_str(), key) {
                        proof {
                            lemma_entry_get_found(es, key@, i as int);
                            assert(self@ == JsonView::Object(es));
                        }
                        return Some(&entries[i].1);
                    }
                    i += 1;
                }
                proof {
                    lemma_entry_get_absent(es, key@);
                    assert(self@ == JsonView::Object(es));
                }
                None
            },
            _ => None,
        }
    }
}

impl Clone for Json {
    fn clone(&self) -> (r: Json)
        ensures
            r@ == self@,
    {
        self.copy()
    }
}


/// A JSON value as `serde_json` reads it.
#[verifier::external_type_specification]
#[verifier::external_body]
pub struct ExJsonValue(serde_json::Value);

/// What `serde_json::from_str::<serde_json::Value>` reads `text` as, taken
/// as a document: nothing when the text is not JSON. (Objects come back
/// with their members ordered by name, numbers as `serde_json` classifies
/// them.)
pub uninterp spec fn json_reading(text: Seq<char>) -> Option<JsonView>;

/// Reads `text` as JSON with `serde_json::from_str`, and takes the value it
/// gives as a document. The contract names the reading and says no more.
#[verifier::external_body]
pub fn parse_json(text: &str) -> (r: Option<Json>)
    ensures
        match r {
            Some(d) => json_reading(text@) == Some(d@),
            None => json_reading(text@) is None,
        },
{
    serde_json::from_str::<serde_json::Value>(text).ok().map(document_of)
}

/// The document for a `serde_json` value, variant for variant; it serves
/// `parse_json` alone, and nothing is stated of it.
#[verifier::external_body]
fn document_of(value: serde_json::Value) -> Json {
    match value {
        serde_json::Value::Null => Json::Null,
        serde_json::Value::Bool(b) => Json::Bool(b),
        serde_json::Value::Number(n) => Json::Number(match (n.as_u64(), n.as_i64()) {
            (Some(u), _) => JsonNumber::PosInt(u),
            (None, Some(i)) => JsonNumber::NegInt(i),
            (None, None) => JsonNumber::Float(n.to_string()),
        }),
        serde_json::Value::String(s) => Json::String(s),
        serde_json::Value::Array(a) => Json::Array(a.into_iter().map(document_of).collect()),
        serde_json::Value::Object(m) => Json::Object(m.into_iter().map(|(k, v)| (k, document_of(v))).collect()),
    }
}

} // verus!
