use vstd::prelude::*;

use crate::query::{Query, Value};
use crate::records::Counter;
use crate::statements::{counter_bump_view, plain_view, COUNTER_INCREMENT, COUNTER_NAME_INDEX};

verus! {

/// The two statements that draw the next value of a named counter: the first
/// makes counter names unique, the second creates the counter at 1 or, when
/// it exists, adds 1 to it.
#[derive(Debug)]
pub struct Increment<'a> {
    pub define_index: Query<'static>,
    pub bump: Query<'a>,
}

/// The statements that draw the next value of the counter `name`.
pub fn increment<'a>(name: &'a str) -> (r: Increment<'a>)
    ensures
        r.define_index@ == plain_view(COUNTER_NAME_INDEX),
        r.bump@ == counter_bump_view(name@),
{
    let mut bindings = Vec::new();
    bindings.push(("name", Value::Text(name)));
    bindings.push(("count", Value::I32(1)));
    Increment {
        define_index: Query { text: COUNTER_NAME_INDEX, bindings: Vec::new() },
        bump: Query { text: COUNTER_INCREMENT, bindings },
    }
}

/// The value drawn from a counter, out of the records that the bump statement
/// returned: the count of the first one.
pub fn counter_value(entries: Vec<Counter>) -> (id: usize)
    requires
        entries.len() > 0,
        0 <= entries[0].count <= usize::MAX,
    ensures
        id == entries[0].count,
{
    entries[0].count as usize
}

} // verus!
