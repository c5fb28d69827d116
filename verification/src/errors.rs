//! The single tagged error surfaced by the resolver and its collaborators.

use vstd::prelude::*;

verus! {

/// Everything that can go wrong while resolving a variant.  None of these is
/// retried internally; each aborts the request and is handed to the caller.
#[derive(Clone, Copy, Debug, PartialEq, Eq, Structural)]
pub enum ResolveError {
    /// The source bytes were malformed or unreadable.
    DecodeFailure,
    /// The codec could not produce the requested encoding.
    EncodeFailure,
    /// The durable byte store refused a write.
    StorageWriteFailure,
    /// The record store refused an insert or a query, or handed back a
    /// corrupted field (such as an out-of-range format code).
    PersistenceFailure,
    /// A referenced record id did not resolve to a record.
    NotFound,
}

} // verus!
