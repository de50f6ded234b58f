use vstd::prelude::*;

verus! {

/// A handle to one storage cell, issued by the host's allocator. Two handles
/// are the same handle exactly when their addresses are equal.
#[derive(Clone, Copy, Debug, PartialEq, Eq, Structural)]
pub struct URef {
    pub addr: u64,
}

/// The identity of one deployed bundle of entry points.
#[derive(Clone, Copy, Debug, PartialEq, Eq, Structural)]
pub struct ContractHash {
    pub id: u64,
}

/// What the named-key registry maps a name to.
#[derive(Clone, Copy, Debug, PartialEq, Eq, Structural)]
pub enum Key {
    URef(URef),
    Hash(ContractHash),
}

} // verus!
