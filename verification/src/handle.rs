use vstd::prelude::*;

verus! {

/// An opaque, cheaply copyable identifier for a runtime instance.
///
/// The context register only stores, compares and hands such a value on;
/// creating and retiring the runtime it stands for is the concern of the
/// runtime itself, not of this core.
#[derive(Clone, Copy, PartialEq, Eq, Structural, Debug)]
pub struct Handle {
    pub id: u64,
}

} // verus!
