use vstd::prelude::*;

use crate::access::StorageId;

verus! {

/// Why a system was rejected at registration time. Returned synchronously
/// from the conversion call; on failure nothing is registered.
#[derive(Clone, Copy, Debug, PartialEq, Eq, Structural)]
pub enum InvalidSystem {
    /// A whole-set exclusive borrow cannot coexist with any other access in
    /// the same system.
    AllStorages,
    /// Two accesses to the same storage, one `Shared` and one `Exclusive`.
    MultipleViews,
    /// Two `Exclusive` accesses to the same storage.
    MultipleViewsMut,
}

/// The uniform failure outcome of one run: either a failed access
/// acquisition, propagated unchanged, or a failure the callable itself
/// reported, wrapped with its payload.
#[derive(Debug, PartialEq, Eq)]
pub enum RunError {
    /// Acquiring a view failed because the named storage is not present in
    /// the execution context.
    MissingStorage(StorageId),
    /// The callable reported failure; the payload is carried unchanged.
    Failure(String),
}

} // verus!
