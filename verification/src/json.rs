//! The structured values that cross the wire, and the shapes they are
//! checked against.
//!
//! Payloads travel between the agent and the caller as untyped structured
//! values. `JsonValue` is this crate's own model of such a value; the outside
//! representation is converted to and from it at the transport edge. `Schema`
//! is the declared shape of a tool's input or output, or of the caller's
//! expected result.

use vstd::prelude::*;

verus! {

broadcast use vstd::std_specs::vec::group_vec_axioms;

/// An untyped structured value: what a prompt payload, a tool argument,
/// a tool reply or a terminal result holds.
#[derive(Debug, PartialEq)]
pub enum JsonValue {
    Null,
    Bool(bool),
    Int(i64),
    Str(String),
    Arr(Vec<JsonValue>),
    Obj(Vec<(String, JsonValue)>),
}

/// The declared shape of a structured value.
#[derive(Debug, PartialEq)]
pub enum Schema {
    Null,
    Bool,
    Integer,
    Text,
    Array(Box<Schema>),
    Object(Vec<(String, Schema)>),
}

/// What it means for a value to conform to a shape: scalars match their
/// kind, arrays match element-wise, objects match field-for-field in
/// declaration order.
pub open spec fn matches_schema(s: Schema, v: JsonValue) -> bool
    decreases s,
{
    match s {
        Schema::Null => v is Null,
        Schema::Bool => v is Bool,
        Schema::Integer => v is Int,
        Schema::Text => v is Str,
        Schema::Array(inner) => match v {
            JsonValue::Arr(items) => forall|i: int|
                0 <= i < items@.len() ==> matches_schema(*inner, #[trigger] items@[i]),
            _ => false,
        },
        Schema::Object(fields) => match v {
            JsonValue::Obj(entries) => {
                &&& entries@.len() == fields@.len()
                &&& forall|i: int|
                    0 <= i < fields@.len() ==> (#[trigger] entries@[i]).0@ == fields@[i].0@
                        && matches_schema(fields@[i].1, entries@[i].1)
            },
            _ => false,
        },
    }
}

/// Decides conformance of a value to a shape.
#[verifier::loop_isolation(false)]
pub fn matches_value(s: &Schema, v: &JsonValue) -> (r: bool)
    ensures
        r == matches_schema(*s, *v),
    decreases *s,
{
    match s {
        Schema::Null => matches!(v, JsonValue::Null),
        Schema::Bool => matches!(v, JsonValue::Bool(_)),
        Schema::Integer => matches!(v, JsonValue::Int(_)),
        Schema::Text => matches!(v, JsonValue::Str(_)),
        Schema::Array(inner) => match v {
            JsonValue::Arr(items) => {
                let n: usize = items.len();
                let mut i: usize = 0;
                while i < n
                    invariant
                        n == items@.len(),
                        i <= n,
                        forall|j: int| 0 <= j < i ==> matches_schema(**inner, #[trigger] items@[j]),
                    decreases n - i,
                {
                    proof {
                        assert(decreases_to!(*items => items@[i as int]));
                    }
                    if !matches_value(inner, &items[i]) {
                        return false;
                    }
                    i += 1;
                }
                true
            },
            _ => false,
        },
        Schema::Object(fields) => match v {
            JsonValue::Obj(entries) => {
                if entries.len() != fields.len() {
                    return false;
                }
                let n: usize = fields.len();
                let mut i: usize = 0;
                while i < n
                    invariant
                        n == fields@.len(),
                        entries@.len() == fields@.len(),
                        i <= n,
                        forall|j: int|
                            0 <= j < i ==> (#[trigger] entries@[j]).0@ == fields@[j].0@
                                && matches_schema(fields@[j].1, entries@[j].1),
                    decreases n - i,
                {
                    if !(fields[i].0 == entries[i].0) {
                        return false;
                    }
                    proof {
                        assert(decreases_to!(*fields => fields@[i as int]));
                    }
                    if !matches_value(&fields[i].1, &entries[i].1) {
                        return false;
                    }
                    i += 1;
                }
                true
            },
            _ => false,
        },
    }
}

} // verus!
