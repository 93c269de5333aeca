//! The plain values exchanged with the host runtime.

use vstd::prelude::*;

verus! {

/// A value crossing the boundary between native code and the host runtime.
///
/// The host's own value marshaling is out of scope here: the bridge never
/// looks inside a value, it only carries values from a resumption into the
/// suspended computation that awaits them. Event payloads are ordered
/// sequences of these values and are carried as `Vec<Value>`.
#[derive(Clone, Debug, PartialEq, Eq)]
pub enum Value {
    /// The absence of a value, yielded when a resumption carries no argument.
    Nil,
    /// A boolean value.
    Bool(bool),
    /// An integer value.
    Int(i64),
    /// A text value.
    Str(String),
}

} // verus!
