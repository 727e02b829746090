use vstd::prelude::*;

use crate::records::{Audit, Event, Group, Membership, Timestamp, User};

verus! {

/// A value bound to a `$name` parameter of a statement.
#[derive(Debug)]
pub enum Value<'a> {
    Bool(bool),
    Usize(usize),
    I32(i32),
    Text(&'a str),
    Time(Timestamp),
}

/// What a bound value is, as a mathematical value.
pub enum ValueView {
    Bool(bool),
    Usize(usize),
    I32(i32),
    Text(Seq<char>),
    Time(Timestamp),
}

impl<'a> View for Value<'a> {
    type V = ValueView;

    open spec fn view(&self) -> ValueView {
        match *self {
            Value::Bool(b) => ValueView::Bool(b),
            Value::Usize(n) => ValueView::Usize(n),
            Value::I32(n) => ValueView::I32(n),
            Value::Text(s) => ValueView::Text(s@),
            Value::Time(t) => ValueView::Time(t),
        }
    }
}

/// A SurrealQL statement with the values bound to its parameters, in the
/// order in which they are bound.
#[derive(Debug)]
pub struct Query<'a> {
    pub text: &'static str,
    pub bindings: Vec<(&'static str, Value<'a>)>,
}

/// A statement as a mathematical value: its text, and each binding as the
/// parameter's name and the value.
#[verifier::ext_equal]
pub struct QueryView {
    pub text: Seq<char>,
    pub bindings: Seq<(Seq<char>, ValueView)>,
}

pub open spec fn binding_view<'a>(b: (&'static str, Value<'a>)) -> (Seq<char>, ValueView) {
    (b.0@, b.1@)
}

impl<'a> View for Query<'a> {
    type V = QueryView;

    open spec fn view(&self) -> QueryView {
        QueryView { text: self.text@, bindings: self.bindings@.map_values(|b| binding_view(b)) }
    }
}

/// Whether `c` may stand in the name of a `$` parameter.
pub open spec fn is_name_char(c: char) -> bool {
    ('a' <= c && c <= 'z') || ('A' <= c && c <= 'Z') || ('0' <= c && c <= '9') || c == '_'
}

/// Where the run of name characters of `text` that starts at `i` ends.
pub open spec fn name_end(text: Seq<char>, i: nat) -> nat
    decreases text.len() - i,
{
    if i < text.len() && is_name_char(text[i as int]) {
        name_end(text, i + 1)
    } else {
        i
    }
}

/// The names of the `$` parameters that `text` mentions from position `i`
/// on, in their order.
pub open spec fn parameters_from(text: Seq<char>, i: nat) -> Seq<Seq<char>>
    decreases text.len() - i,
{
    if i >= text.len() {
        Seq::empty()
    } else if text[i as int] == '$' {
        seq![text.subrange((i + 1) as int, name_end(text, i + 1) as int)] + parameters_from(text, i + 1)
    } else {
        parameters_from(text, i + 1)
    }
}

/// The names of the `$` parameters that `text` mentions, in their order.
pub open spec fn parameters(text: Seq<char>) -> Seq<Seq<char>> {
    parameters_from(text, 0)
}

/// The names that a statement binds, in the order of its bindings.
pub open spec fn bound_names(q: QueryView) -> Seq<Seq<char>> {
    q.bindings.map_values(|b: (Seq<char>, ValueView)| b.0)
}

/// A statement binds exactly the parameters that its text mentions: each
/// parameter it mentions is bound, each binding is for a parameter it
/// mentions, and no name is bound twice.
pub open spec fn binds_exactly_its_parameters(q: QueryView) -> bool {
    &&& forall|i: int|
        0 <= i < parameters(q.text).len() ==> bound_names(q).contains(#[trigger] parameters(q.text)[i])
    &&& forall|j: int|
        0 <= j < bound_names(q).len() ==> parameters(q.text).contains(#[trigger] bound_names(q)[j])
    &&& bound_names(q).no_duplicates()
}

/// The record that a `Create` writes.
#[derive(Debug)]
pub enum Content<'a> {
    User(&'a User),
    Event(&'a Event),
    Group(&'a Group),
    Membership(Membership),
    Audit(Audit),
}

/// The creation of one record, with a fresh id, in the named table.
#[derive(Debug)]
pub struct Create<'a> {
    pub table: &'static str,
    pub content: Content<'a>,
}

} // verus!
