//! The node identity: an opaque, comparable, clonable value naming this
//! server instance, copied unchanged into every connection handler.

use vstd::prelude::*;

verus! {

/// Identity of a running server instance. Immutable once constructed;
/// cloning preserves the value exactly.
#[derive(Debug, PartialEq, Eq)]
pub struct NodeId {
    pub name: String,
}

impl NodeId {
    pub fn new(name: String) -> (n: NodeId)
        ensures
            n.name == name,
    {
        NodeId { name }
    }
}

impl Clone for NodeId {
    fn clone(&self) -> (r: Self)
        ensures
            r == *self,
    {
        NodeId { name: self.name.clone() }
    }
}

} // verus!
