//! JSON values as they travel to devices and callers, and the plain form of
//! identifiers in them.

use vstd::prelude::*;
use crate::text::str_eq;

verus! {

/// A JSON value. A number is held as its text.
#[derive(Debug, PartialEq, Eq)]
pub enum Json {
    Null,
    Bool(bool),
    Number(String),
    Text(String),
    Array(Vec<Json>),
    /// The members in their order.
    Object(Vec<(String, Json)>),
}

/// What a [`Json`] holds, as mathematical values.
pub enum JsonView {
    Null,
    Bool(bool),
    Number(Seq<char>),
    Text(Seq<char>),
    Array(Seq<JsonView>),
    Object(Seq<(Seq<char>, JsonView)>),
}

/// The mathematical value of a JSON value.
pub open spec fn view_of(value: Json) -> JsonView
    decreases value,
{
    match value {
        Json::Null => JsonView::Null,
        Json::Bool(b) => JsonView::Bool(b),
        Json::Number(text) => JsonView::Number(text@),
        Json::Text(text) => JsonView::Text(text@),
        Json::Array(items) => JsonView::Array(
            Seq::new(
                items@.len(),
                |i: int|
                    if 0 <= i < items@.len() {
                        view_of(items@[i])
                    } else {
                        JsonView::Null
                    },
            ),
        ),
        Json::Object(members) => JsonView::Object(
            Seq::new(
                members@.len(),
                |i: int|
                    if 0 <= i < members@.len() {
                        (members@[i].0@, view_of(members@[i].1))
                    } else {
                        (Seq::empty(), JsonView::Null)
                    },
            ),
        ),
    }
}

/// Whether a value is the extended form of an identifier: an object whose
/// only member is a text under `$oid`.
pub open spec fn is_extended_id(value: JsonView) -> bool {
    &&& value is Object
    &&& value->Object_0.len() == 1
    &&& value->Object_0[0].0 == "$oid"@
    &&& value->Object_0[0].1 is Text
}

/// A value with every identifier in plain form: wherever an object holds
/// nothing but a text under `$oid`, that text stands in its place.
pub open spec fn normalized(value: JsonView) -> JsonView
    decreases value,
{
    match value {
        JsonView::Array(items) => JsonView::Array(
            Seq::new(
                items.len(),
                |i: int|
                    if 0 <= i < items.len() {
                        normalized(items[i])
                    } else {
                        JsonView::Null
                    },
            ),
        ),
        JsonView::Object(members) => if is_extended_id(value) {
            JsonView::Text(members[0].1->Text_0)
        } else {
            JsonView::Object(
                Seq::new(
                    members.len(),
                    |i: int|
                        if 0 <= i < members.len() {
                            (members[i].0, normalized(members[i].1))
                        } else {
                            (Seq::empty(), JsonView::Null)
                        },
                ),
            )
        },
        _ => value,
    }
}

/// Whether a value is the extended form of an identifier.
fn extended_id(members: &Vec<(String, Json)>) -> (yes: bool)
    ensures
        yes == is_extended_id(view_of(Json::Object(*members))),
{
    proof {
        reveal_with_fuel(view_of, 2);
    }
    if members.len() != 1 {
        return false;
    }
    assert(view_of(Json::Object(*members))->Object_0[0] == (
        members@[0].0@,
        view_of(members@[0].1),
    ));
    if !str_eq(members[0].0.as_str(), "$oid") {
        return false;
    }
    match &members[0].1 {
        Json::Text(_) => true,
        _ => false,
    }
}

/// Puts every identifier of a value into plain form: an object that holds
/// nothing but a text under `$oid` becomes that text, at any depth.
pub fn normalize_object_ids(value: Json) -> (out: Json)
    ensures
        view_of(out) == normalized(view_of(value)),
    decreases value,
{
    match value {
        Json::Array(items) => {
            let ghost all = items@;
            let ghost held = items;
            let mut out: Vec<Json> = Vec::new();
            for item in it: items
                invariant
                    all == it.seq(),
                    value == Json::Array(held),
                    all == held@,
                    out@.len() == it.index(),
                    forall|j: int|
                        0 <= j < it.index() ==> view_of(#[trigger] out@[j]) == normalized(
                            view_of(all[j]),
                        ),
            {
                assert(all[it.index()] == item);
                assert(decreases_to!(value => value->Array_0));
                assert(decreases_to!(held => held[it.index()]));
                out.push(normalize_object_ids(item));
            }
            let result = Json::Array(out);
            assert(view_of(result)->Array_0 =~= normalized(view_of(value))->Array_0);
            result
        },
        Json::Object(mut members) => {
            if extended_id(&members) {
                proof {
                    reveal_with_fuel(view_of, 2);
                    assert(view_of(value)->Object_0[0] == (
                        members@[0].0@,
                        view_of(members@[0].1),
                    ));
                }
                let only = members.pop();
                return match only {
                    Some((_, Json::Text(text))) => Json::Text(text),
                    _ => Json::Null,
                };
            }
            let ghost all = members@;
            let ghost held = members;
            let mut out: Vec<(String, Json)> = Vec::new();
            for member in it: members
                invariant
                    all == it.seq(),
                    value == Json::Object(held),
                    !is_extended_id(view_of(value)),
                    all == held@,
                    out@.len() == it.index(),
                    forall|j: int|
                        0 <= j < it.index() ==> (#[trigger] out@[j]).0@ == all[j].0@ && view_of(
                            out@[j].1,
                        ) == normalized(view_of(all[j].1)),
            {
                assert(all[it.index()] == member);
                assert(decreases_to!(held => held[it.index()]));
                let (name, inner) = member;
                out.push((name, normalize_object_ids(inner)));
            }
            let result = Json::Object(out);
            assert(view_of(result)->Object_0 =~= normalized(view_of(value))->Object_0);
            result
        },
        other => other,
    }
}

} // verus!
