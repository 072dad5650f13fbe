//! A write-ahead-log-backed multiplexed blob store: the quorum rules, the
//! per-operation decision machines and the failure classification that turn
//! several independently failing blob stores into one logical store.
//!
//! The asynchronous fan-out itself (launching backend calls, awaiting the
//! next completion, detaching residual work) is driven by the caller; each
//! machine here is told of one completion at a time and says what to do next.
mod errors;
mod get;
mod presence;
mod put;
mod quorum;
mod tally;
mod types;

pub use errors::{classify, BlobstoresReturnedError, ErrorKind, FailureClass, Operation};
pub use quorum::{lemma_quorums_intersect, ConfigError, MultiplexQuorum};
pub use types::{
    BlobstoreGetData, BlobstoreId, BlobstoreIsPresent, BlobstoreWalEntry, MultiplexId,
    OperationKey, OverwriteStatus, PutBehaviour, Timestamp,
};
pub use tally::{
    count_counted, failed_ids, lemma_decided_by_prefix, lemma_first_hit_wins, lemma_quorum_first,
    lemma_quorum_reached, lemma_undecided, run, run_from, step, ReplyKind, RunOutcome, StepResult,
    Tally, TallyModel,
};
pub use get::{get_reply_kind, GetQuorum, Next};
pub use presence::{presence_reply_kind, IsPresentOutcome, IsPresentQuorum};
pub use put::{lemma_wal_before_write, put_reply_kind, PutPhase, PutSession};
