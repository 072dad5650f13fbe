use vstd::prelude::*;

verus! {

/// anyhow::Error: the error that a blob store or the log reports. The
/// multiplex only carries such values to its caller and never looks inside.
#[verifier::external_type_specification]
#[verifier::external_body]
pub struct ExAnyhowError(anyhow::Error);

/// Identifies one underlying blob store for the lifetime of a multiplex.
pub type BlobstoreId = u64;

/// Identifies a multiplex in the entries it writes to the log.
pub type MultiplexId = i32;

/// Nanoseconds since the Unix epoch.
pub type Timestamp = i64;

/// Unique token minted for one put, so replays can be correlated.
pub type OperationKey = u128;

/// How a put treats an existing value; handed to the stores unchanged.
#[derive(Debug, Clone, Copy, PartialEq, Eq, Structural)]
pub enum PutBehaviour {
    Overwrite,
    IfAbsent,
    IfAbsentChecked,
}

/// What a put did to the key.
#[derive(Debug, Clone, Copy, PartialEq, Eq, Structural)]
pub enum OverwriteStatus {
    NewKey,
    Overwrote,
    PreventedOverwrite,
    /// The outcome at each store is not known: the multiplex answers once a
    /// write quorum has confirmed, before every store has reported.
    NotChecked,
}

/// A blob as read from a store.
#[derive(Debug, Clone)]
pub struct BlobstoreGetData {
    pub bytes: Vec<u8>,
}

/// A store's answer to a presence query.
#[derive(Debug)]
pub enum BlobstoreIsPresent {
    Present,
    Absent,
    /// The store could not tell; the error explains why.
    ProbablyNotPresent(anyhow::Error),
}

/// The intent record written to the log before any store is asked to write.
#[derive(Debug, Clone)]
pub struct BlobstoreWalEntry {
    pub blobstore_key: String,
    pub multiplex_id: MultiplexId,
    pub timestamp: Timestamp,
    pub operation_key: OperationKey,
    pub blob_size: Option<u64>,
}

impl BlobstoreWalEntry {
    pub fn new(
        blobstore_key: String,
        multiplex_id: MultiplexId,
        timestamp: Timestamp,
        operation_key: OperationKey,
        blob_size: Option<u64>,
    ) -> (r: Self)
        ensures
            r.blobstore_key@ == blobstore_key@,
            r.multiplex_id == multiplex_id,
            r.timestamp == timestamp,
            r.operation_key == operation_key,
            r.blob_size == blob_size,
    {
        BlobstoreWalEntry { blobstore_key, multiplex_id, timestamp, operation_key, blob_size }
    }
}

} // verus!
