//! The policy that decides which inbound documents are forwarded, and how.

use vstd::prelude::*;
use crate::json::{has_key, json_has_key};

verus! {

/// A message pipeline policy: a pure decision on one document at a time,
/// and a transformation applied to each accepted document.
pub trait Pipe: Send + Sync {
    /// Whether the policy forwards `val`.
    spec fn accepts(&self, val: serde_json::Value) -> bool;

    /// What the policy forwards in place of an accepted `val`.
    spec fn mapped(&self, val: serde_json::Value) -> serde_json::Value;

    fn filter(&self, val: &serde_json::Value) -> (r: bool)
        ensures
            r == self.accepts(*val),
    ;

    fn map(&self, val: serde_json::Value) -> (r: serde_json::Value)
        ensures
            r == self.mapped(val),
    ;
}

/// The default policy: forwards, unchanged, each document that is an object
/// holding `key`.
pub struct KeyPipe {
    pub key: String,
}

impl KeyPipe {
    pub fn new(key: String) -> (r: Self)
        ensures
            r.key@ == key@,
    {
        KeyPipe { key }
    }
}

impl Pipe for KeyPipe {
    open spec fn accepts(&self, val: serde_json::Value) -> bool {
        json_has_key(val, self.key@)
    }

    open spec fn mapped(&self, val: serde_json::Value) -> serde_json::Value {
        val
    }

    fn filter(&self, val: &serde_json::Value) -> (r: bool) {
        has_key(val, self.key.as_str())
    }

    fn map(&self, val: serde_json::Value) -> (r: serde_json::Value) {
        val
    }
}

} // verus!
