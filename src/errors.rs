use vstd::prelude::*;
use std::collections::HashMap;
use std::sync::Arc;

use crate::types::BlobstoreId;

verus! {

broadcast use vstd::std_specs::hash::group_hash_axioms;

/// The error each failing store reported, by store.
pub type BlobstoresReturnedError = HashMap<BlobstoreId, anyhow::Error>;

/// Which multiplexed operation failed.
#[derive(Debug, Clone, Copy, PartialEq, Eq, Structural)]
pub enum Operation {
    Put,
    Get,
    IsPresent,
}

/// A failed multiplexed operation. The per-store errors are shared so that
/// diagnostic copies are cheap.
#[derive(Debug, Clone)]
pub enum ErrorKind {
    /// Every normal store failed.
    AllFailed(Arc<BlobstoresReturnedError>),
    /// No write quorum, and not every store failed.
    SomePutsFailed(Arc<BlobstoresReturnedError>),
    /// No blob, no quorum of "not found", and not every store failed.
    SomeGetsFailed(Arc<BlobstoresReturnedError>),
    /// Neither presence nor a quorum of absence, and not every store failed.
    SomeIsPresentsFailed(Arc<BlobstoresReturnedError>),
    /// The log entry for a put could not be written; no store was asked to write.
    WalUnavailable { key: String, cause: Arc<anyhow::Error> },
}

impl ErrorKind {
    /// The per-store errors that the failure carries, if it is a quorum failure.
    pub open spec fn failures(self) -> Option<Map<BlobstoreId, anyhow::Error>> {
        match self {
            ErrorKind::AllFailed(m) => Some(m@),
            ErrorKind::SomePutsFailed(m) => Some(m@),
            ErrorKind::SomeGetsFailed(m) => Some(m@),
            ErrorKind::SomeIsPresentsFailed(m) => Some(m@),
            ErrorKind::WalUnavailable { .. } => None,
        }
    }
}

/// The kind of failure, without its payload.
#[derive(Debug, Clone, Copy, PartialEq, Eq, Structural)]
pub enum FailureClass {
    AllFailed,
    SomePutsFailed,
    SomeGetsFailed,
    SomeIsPresentsFailed,
    WalUnavailable,
}

impl ErrorKind {
    pub open spec fn class_spec(self) -> FailureClass {
        match self {
            ErrorKind::AllFailed(_) => FailureClass::AllFailed,
            ErrorKind::SomePutsFailed(_) => FailureClass::SomePutsFailed,
            ErrorKind::SomeGetsFailed(_) => FailureClass::SomeGetsFailed,
            ErrorKind::SomeIsPresentsFailed(_) => FailureClass::SomeIsPresentsFailed,
            ErrorKind::WalUnavailable { .. } => FailureClass::WalUnavailable,
        }
    }

    pub fn class(&self) -> (r: FailureClass)
        ensures
            r == self.class_spec(),
    {
        match self {
            ErrorKind::AllFailed(_) => FailureClass::AllFailed,
            ErrorKind::SomePutsFailed(_) => FailureClass::SomePutsFailed,
            ErrorKind::SomeGetsFailed(_) => FailureClass::SomeGetsFailed,
            ErrorKind::SomeIsPresentsFailed(_) => FailureClass::SomeIsPresentsFailed,
            ErrorKind::WalUnavailable { .. } => FailureClass::WalUnavailable,
        }
    }
}

/// The class of an unresolved operation: everything failed exactly when
/// every normal store is among the failures.
pub open spec fn classify_spec(op: Operation, num_failed: nat, num_stores: nat) -> FailureClass {
    if num_failed == num_stores {
        FailureClass::AllFailed
    } else {
        match op {
            Operation::Put => FailureClass::SomePutsFailed,
            Operation::Get => FailureClass::SomeGetsFailed,
            Operation::IsPresent => FailureClass::SomeIsPresentsFailed,
        }
    }
}

/// Turns the errors of an operation that reached no decision into its failure.
pub fn classify(op: Operation, errors: BlobstoresReturnedError, num_stores: usize) -> (r: ErrorKind)
    ensures
        r.class_spec() == classify_spec(op, errors@.len(), num_stores as nat),
        r.failures() == Some(errors@),
{
    let all_failed = errors.len() == num_stores;
    let errors = Arc::new(errors);
    if all_failed {
        ErrorKind::AllFailed(errors)
    } else {
        match op {
            Operation::Put => ErrorKind::SomePutsFailed(errors),
            Operation::Get => ErrorKind::SomeGetsFailed(errors),
            Operation::IsPresent => ErrorKind::SomeIsPresentsFailed(errors),
        }
    }
}

} // verus!
