use vstd::prelude::*;

verus! {

/// A read-only view of a runtime type: what a policy needs to price it.
#[derive(Debug, Clone, Copy, PartialEq, Eq, Structural, Hash)]
pub struct TypeDescriptor {
    /// Structural size class of the type (for instance its number of nodes).
    pub size_class: u64,
}

/// A read-only view of a runtime value: what a policy needs to price it.
#[derive(Debug, Clone, Copy, PartialEq, Eq, Structural, Hash)]
pub struct ValueDescriptor {
    /// Abstract size of the value in bytes.
    pub abstract_size: u64,
}

} // verus!
