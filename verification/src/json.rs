//! The JSON data model that schemas and instances are written in.

use vstd::prelude::*;

verus! {

/// A JSON number. An integer is kept exactly; any other number is kept as the
/// bit pattern of its binary64 representation, which this crate never inspects.
#[derive(Clone, Copy, Debug, PartialEq, Eq)]
pub enum Number {
    /// A number written without a fraction and without an exponent.
    Integer(i128),
    /// A number written with a fraction or an exponent.
    Float(u64),
}

/// A JSON value. The members of an object are kept in the order in which they
/// were given; where a name occurs more than once, each occurrence is a member.
#[derive(Debug, PartialEq, Eq)]
pub enum Json {
    Null,
    Bool(bool),
    Number(Number),
    String(String),
    Array(Vec<Json>),
    Object(Vec<(String, Json)>),
}

/// The mathematical value of a [`Json`].
pub enum JsonView {
    Null,
    Bool(bool),
    Number(Number),
    String(Seq<char>),
    Array(Seq<JsonView>),
    Object(Seq<(Seq<char>, JsonView)>),
}

impl View for Json {
    type V = JsonView;

    open spec fn view(&self) -> JsonView
        decreases self,
    {
        match self {
            Json::Null => JsonView::Null,
            Json::Bool(b) => JsonView::Bool(*b),
            Json::Number(n) => JsonView::Number(*n),
            Json::String(s) => JsonView::String(s@),
            Json::Array(items) => JsonView::Array(values(items@)),
            Json::Object(members) => JsonView::Object(named_values(members@)),
        }
    }
}

/// The values of a sequence of elements.
pub open spec fn values(items: Seq<Json>) -> Seq<JsonView>
    decreases items,
{
    Seq::new(
        items.len(),
        |i: int|
            if 0 <= i < items.len() {
                items[i]@
            } else {
                JsonView::Null
            },
    )
}

/// The names and values of a sequence of members.
pub open spec fn named_values(members: Seq<(String, Json)>) -> Seq<(Seq<char>, JsonView)>
    decreases members,
{
    Seq::new(
        members.len(),
        |i: int|
            if 0 <= i < members.len() {
                (members[i].0@, members[i].1@)
            } else {
                (Seq::empty(), JsonView::Null)
            },
    )
}

} // verus!
