//! Plain value types exchanged with a render graph.
//!
//! The render graph itself is outside this crate; these types stand for the
//! tokens it mints and for the access descriptions it consumes and produces.

use vstd::prelude::*;

verus! {

/// How a resource was, or is to be, accessed by the GPU (read/write kind,
/// pipeline stage, memory scope). The lifecycle protocol never interprets an
/// access description: it only stores one, hands it to the graph on import,
/// and overwrites it on retire. `Nothing` is the distinguished "no access
/// yet" value a fresh resource starts with; every other description is
/// carried as an opaque code.
#[derive(PartialEq, Eq, Structural, Clone, Copy, Debug)]
pub enum AccessType {
    Nothing,
    Access(u64),
}

/// Token identifying a resource inside one graph build; minted by the graph
/// when a resource is imported and valid only for that build.
#[derive(PartialEq, Eq, Structural, Clone, Copy, Debug)]
pub struct Handle {
    pub id: usize,
}

/// Token minted when a resource is exported from a graph build; redeemable
/// against the retired graph, after execution, for the resource's final
/// access description.
#[derive(PartialEq, Eq, Structural, Clone, Copy, Debug)]
pub struct ExportedHandle {
    pub id: usize,
}

} // verus!
