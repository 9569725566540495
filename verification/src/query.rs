//! From a backend's answer to the canonical row sequence.
//!
//! The two backends answer in different shapes: one with an array of rows,
//! the other with an object that holds the array under `results`. Any other
//! answer holds no rows.

use crate::domain::QueryResults;
use crate::json::array_items;
use crate::json::clone_value;
use crate::json::get_member;
use crate::json::member_value;
use crate::json::members;
use crate::json::object_map;
use serde_json::Value;
use vstd::prelude::*;

verus! {

/// The key under which an object answer holds its rows.
pub open spec fn results_key() -> Seq<char> {
    "results"@
}

/// The rows that an answer holds: the elements of an array, or of the array
/// that an object holds under `results`; `None` for any other answer.
pub open spec fn payload_rows(raw: Value) -> Option<Seq<Value>> {
    match array_items(raw) {
        Some(items) => Some(items),
        None => match object_map(raw) {
            Some(m) => match member_value(members(m), results_key()) {
                Some(inner) => array_items(inner),
                None => None,
            },
            None => None,
        },
    }
}

/// The rows that an answer holds.
pub fn rows_of<'a>(raw: &'a Value) -> (r: Option<&'a Vec<Value>>)
    ensures
        match r {
            Some(rows) => payload_rows(*raw) == Some(rows@),
            None => payload_rows(*raw).is_none(),
        },
{
    match raw.as_array() {
        Some(items) => Some(items),
        None => match raw.as_object() {
            Some(m) => match get_member(m, "results") {
                Some(inner) => inner.as_array(),
                None => None,
            },
            None => None,
        },
    }
}

/// Brings an answer into the canonical shape: its rows where it holds any,
/// `Empty` where it holds none or has another shape.
pub fn normalize(raw: &Value) -> (r: QueryResults)
    ensures
        r.rows() == match payload_rows(*raw) {
            Some(rows) => rows,
            None => Seq::empty(),
        },
        r is Empty <==> r.rows().len() == 0,
{
    match rows_of(raw) {
        None => QueryResults::Empty,
        Some(rows) => {
            let mut copy: Vec<Value> = Vec::new();
            let mut i: usize = 0;
            while i < rows.len()
                invariant
                    i <= rows.len(),
                    copy@ == rows@.take(i as int),
                decreases rows.len() - i,
            {
                copy.push(clone_value(&rows[i]));
                assert(rows@.take(i + 1) =~= rows@.take(i as int).push(rows@[i as int]));
                i += 1;
            }
            assert(rows@.take(rows.len() as int) =~= rows@);
            QueryResults::from_rows(copy)
        },
    }
}

} // verus!
