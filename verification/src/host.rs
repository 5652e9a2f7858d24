//! A native model of the untyped values that the host runtime hands across
//! the marshalling boundary.
//!
//! The marshalling layer itself is an external collaborator; the bridge only
//! ever inspects a settled payload through this model: the payload is null,
//! a boolean, an integer, a text, an error object carrying a message, or a
//! further thenable (known to the native side only by an opaque handle id).

use vstd::prelude::*;

verus! {

/// An untyped host-runtime value, as the bridge sees it once marshalled.
#[derive(Debug)]
pub enum HostValue {
    /// The host's null value.
    Null,
    /// A host boolean.
    Bool(bool),
    /// A host integer.
    Int(i64),
    /// A host string.
    Text(String),
    /// A host error object; the bridge reads only its message.
    ErrorObj(String),
    /// A host thenable, identified by an opaque host-side handle id.
    Thenable(u64),
}

impl HostValue {
    /// True of exactly the values that satisfy the host's thenable protocol.
    pub open spec fn is_thenable(self) -> bool {
        self is Thenable
    }
}

impl Clone for HostValue {
    fn clone(&self) -> (r: Self)
        ensures
            r == *self,
    {
        match self {
            HostValue::Null => HostValue::Null,
            HostValue::Bool(b) => HostValue::Bool(*b),
            HostValue::Int(n) => HostValue::Int(*n),
            HostValue::Text(s) => HostValue::Text(s.clone()),
            HostValue::ErrorObj(m) => HostValue::ErrorObj(m.clone()),
            HostValue::Thenable(id) => HostValue::Thenable(*id),
        }
    }
}

} // verus!
