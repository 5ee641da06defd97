//! Reading typed fields out of a response document.
//!
//! A model reads each of its fields from an object member of the field's
//! name, or, when the document is an array, from the element at the field's
//! position. A missing member, a missing element and an explicit `null` all
//! read as absent, and an absent field takes its type's default.
use vstd::prelude::*;

use crate::json::{entry_get, lemma_items_view, member, Json, JsonNumber, JsonView, NumberView};

verus! {

/// The view of an optional borrowed document.
pub open spec fn opt_view(r: Option<&Json>) -> Option<JsonView> {
    match r {
        Some(v) => Some(v@),
        None => None,
    }
}

/// Where field number `index`, named `name`, sits in `doc`.
pub open spec fn slot(doc: JsonView, index: int, name: Seq<char>) -> Option<JsonView> {
    match doc {
        JsonView::Object(_) => member(doc, name),
        JsonView::Array(items) => if 0 <= index < items.len() {
            Some(items[index])
        } else {
            None
        },
        _ => None,
    }
}

/// The field's value, with an explicit `null` read as absent.
pub open spec fn given(doc: JsonView, index: int, name: Seq<char>) -> Option<JsonView> {
    match slot(doc, index, name) {
        Some(JsonView::Null) => None,
        s => s,
    }
}

/// Whether `doc` can hold a model of `n` fields: an object, or an array of
/// at most `n` elements.
pub open spec fn fits_fields(doc: JsonView, n: int) -> bool {
    match doc {
        JsonView::Object(_) => true,
        JsonView::Array(items) => items.len() <= n,
        _ => false,
    }
}

/// A `bool` field reads: absent, or a boolean.
pub open spec fn flag_ok(g: Option<JsonView>) -> bool {
    match g {
        None => true,
        Some(JsonView::Bool(_)) => true,
        _ => false,
    }
}

/// The value of a `bool` field, `false` when absent.
pub open spec fn flag_of(g: Option<JsonView>) -> bool {
    match g {
        Some(JsonView::Bool(b)) => b,
        _ => false,
    }
}

/// The value of an `Option<bool>` field, `None` when absent.
pub open spec fn tri_of(g: Option<JsonView>) -> Option<bool> {
    match g {
        Some(JsonView::Bool(b)) => Some(b),
        _ => None,
    }
}

/// A `String` field reads: absent, or a string.
pub open spec fn text_ok(g: Option<JsonView>) -> bool {
    match g {
        None => true,
        Some(JsonView::String(_)) => true,
        _ => false,
    }
}

/// The value of a `String` field, empty when absent.
pub open spec fn text_of(g: Option<JsonView>) -> Seq<char> {
    match g {
        Some(JsonView::String(s)) => s,
        _ => seq![],
    }
}

/// A `u32` field reads: absent, or a non-negative integer that fits.
pub open spec fn count_ok(g: Option<JsonView>) -> bool {
    match g {
        None => true,
        Some(JsonView::Number(NumberView::PosInt(u))) => u <= u32::MAX,
        _ => false,
    }
}

/// The value of a `u32` field, zero when absent.
pub open spec fn count_of(g: Option<JsonView>) -> u32 {
    match g {
        Some(JsonView::Number(NumberView::PosInt(u))) => u as u32,
        _ => 0,
    }
}

/// A list field reads: absent, or an array.
pub open spec fn list_ok(g: Option<JsonView>) -> bool {
    match g {
        None => true,
        Some(JsonView::Array(_)) => true,
        _ => false,
    }
}

/// The elements of a list field, none when absent.
pub open spec fn list_of(g: Option<JsonView>) -> Seq<JsonView> {
    match g {
        Some(JsonView::Array(items)) => items,
        _ => seq![],
    }
}

/// Whether `doc` can hold a model of `n` fields.
pub fn fits(doc: &Json, n: usize) -> (r: bool)
    ensures
        r == fits_fields(doc@, n as int),
{
    match doc {
        Json::Object(_) => true,
        Json::Array(items) => {
            proof {
                lemma_items_view(items@);
            }
            items.len() <= n
        },
        _ => false,
    }
}

/// Field number `index`, named `name`, of `doc`; `null` reads as absent.
pub fn field<'a>(doc: &'a Json, index: usize, name: &str) -> (r: Option<&'a Json>)
    ensures
        opt_view(r) == given(doc@, index as int, name@),
{
    let found: Option<&'a Json> = match doc {
        Json::Object(_) => doc.get(name),
        Json::Array(items) => {
            proof {
                lemma_items_view(items@);
            }
            if index < items.len() {
                Some(&items[index])
            } else {
                None
            }
        },
        _ => None,
    };
    assert(opt_view(found) == slot(doc@, index as int, name@));
    match found {
        Some(Json::Null) => None,
        _ => found,
    }
}

/// Reads a `bool` field: `None` when it holds anything but a boolean.
pub fn read_flag(doc: &Json, index: usize, name: &str) -> (r: Option<bool>)
    ensures
        r is Some <==> flag_ok(given(doc@, index as int, name@)),
        r matches Some(b) ==> b == flag_of(given(doc@, index as int, name@)),
{
    match field(doc, index, name) {
        None => Some(false),
        Some(Json::Bool(b)) => Some(*b),
        Some(_) => None,
    }
}

/// Reads an `Option<bool>` field: `None` when it holds anything but a
/// boolean.
pub fn read_tri(doc: &Json, index: usize, name: &str) -> (r: Option<Option<bool>>)
    ensures
        r is Some <==> flag_ok(given(doc@, index as int, name@)),
        r matches Some(t) ==> t == tri_of(given(doc@, index as int, name@)),
{
    match field(doc, index, name) {
        None => Some(None),
        Some(Json::Bool(b)) => Some(Some(*b)),
        Some(_) => None,
    }
}

/// Reads a `String` field: `None` when it holds anything but a string.
pub fn read_text(doc: &Json, index: usize, name: &str) -> (r: Option<String>)
    ensures
        r is Some <==> text_ok(given(doc@, index as int, name@)),
        r matches Some(t) ==> t@ == text_of(given(doc@, index as int, name@)),
{
    match field(doc, index, name) {
        None => Some(String::new()),
        Some(Json::String(s)) => Some(s.clone()),
        Some(_) => None,
    }
}

/// Reads a `u32` field: `None` when it holds anything but a non-negative
/// integer that fits.
pub fn read_count(doc: &Json, index: usize, name: &str) -> (r: Option<u32>)
    ensures
        r is Some <==> count_ok(given(doc@, index as int, name@)),
        r matches Some(n) ==> n == count_of(given(doc@, index as int, name@)),
{
    match field(doc, index, name) {
        None => Some(0),
        Some(Json::Number(JsonNumber::PosInt(u))) => {
            if *u <= 4294967295 {
                Some(*u as u32)
            } else {
                None
            }
        },
        Some(_) => None,
    }
}


proof fn lemma_entry_get_push(es: Seq<(Seq<char>, JsonView)>, name: Seq<char>, v: JsonView, key: Seq<char>)
    requires
        entry_get(es, name) is None,
    ensures
        entry_get(es.push((name, v)), key) == if key == name {
            Some(v)
        } else {
            entry_get(es, key)
        },
    decreases es.len(),
{
    if es.len() > 0 {
        assert(es.push((name, v)).skip(1) =~= es.skip(1).push((name, v)));
        if es[0].0 != key {
            lemma_entry_get_push(es.skip(1), name, v, key);
        }
    } else {
        assert(es.push((name, v)).skip(1) =~= es);
    }
}

/// An object member that is an explicit `null` reads exactly as if the
/// member were absent: every field of every model reads the same from the
/// object with the `null` member as from the object without it.
pub proof fn lemma_null_member_reads_as_absent(es: Seq<(Seq<char>, JsonView)>, name: Seq<char>)
    requires
        entry_get(es, name) is None,
    ensures
        forall|index: int, key: Seq<char>|
            #[trigger] given(JsonView::Object(es.push((name, JsonView::Null))), index, key) == given(
                JsonView::Object(es),
                index,
                key,
            ),
{
    assert forall|index: int, key: Seq<char>|
        #[trigger] given(JsonView::Object(es.push((name, JsonView::Null))), index, key) == given(
            JsonView::Object(es),
            index,
            key,
        ) by {
        lemma_entry_get_push(es, name, JsonView::Null, key);
    }
}

} // verus!
