use vstd::prelude::*;
use std::sync::Arc;

use crate::errors::{classify_spec, ErrorKind, FailureClass, Operation};
use crate::get::Next;
use crate::quorum::MultiplexQuorum;
use crate::tally::{step, ReplyKind, StepResult, Tally, TallyModel};
use crate::types::{
    BlobstoreId, BlobstoreWalEntry, MultiplexId, OperationKey, OverwriteStatus, Timestamp,
};

verus! {

/// Where a put stands.
#[derive(Debug, Clone, Copy, PartialEq, Eq, Structural)]
pub enum PutPhase {
    /// The log entry is being written; no store may be asked to write yet.
    AwaitingWal,
    /// The log entry is durable; the normal stores are writing.
    Writing,
    /// Decided.
    Finished,
}

/// How a store's answer to a put counts: a success counts towards the write
/// quorum, an error is recorded.
pub open spec fn put_reply_kind(reply: Result<OverwriteStatus, anyhow::Error>) -> ReplyKind {
    match reply {
        Ok(_) => ReplyKind::Counted,
        Err(_) => ReplyKind::Failed,
    }
}

/// The decision state of one multiplexed put: log first, then a write quorum
/// over the normal stores.
pub struct PutSession {
    phase: PutPhase,
    entry: BlobstoreWalEntry,
    wal_logged: bool,
    tally: Tally,
}

impl PutSession {
    pub closed spec fn phase_spec(self) -> PutPhase {
        self.phase
    }

    /// The entry to log before any store is written.
    pub closed spec fn entry_spec(self) -> BlobstoreWalEntry {
        self.entry
    }

    /// The log has confirmed the entry.
    pub closed spec fn wal_logged_spec(self) -> bool {
        self.wal_logged
    }

    pub closed spec fn tally(self) -> Tally {
        self.tally
    }

    pub open spec fn model(self) -> TallyModel {
        self.tally().model()
    }

    /// Stores are only ever written once the log holds the entry, and the
    /// tally is undecided while they write.
    pub open spec fn inv(self) -> bool {
        &&& self.phase_spec() == PutPhase::Writing ==> self.wal_logged_spec() && self.tally().wf()
        &&& self.phase_spec() == PutPhase::AwaitingWal ==> !self.wal_logged_spec() && self.tally().wf()
    }

    /// Begins a put of `value` under `key`: builds the log entry, stamped
    /// with the multiplex, the time, the operation key and the blob's size.
    pub fn start(
        multiplex_id: MultiplexId,
        quorum: &MultiplexQuorum,
        num_stores: usize,
        key: String,
        value: &[u8],
        timestamp: Timestamp,
        operation_key: OperationKey,
    ) -> (r: Self)
        requires
            quorum.valid_for(num_stores as nat),
        ensures
            r.inv(),
            r.phase_spec() == PutPhase::AwaitingWal,
            r.entry_spec().blobstore_key@ == key@,
            r.entry_spec().multiplex_id == multiplex_id,
            r.entry_spec().timestamp == timestamp,
            r.entry_spec().operation_key == operation_key,
            r.entry_spec().blob_size == Some(value@.len() as u64),
            r.model() == (TallyModel { remaining: quorum.write_spec(), failed: Set::empty() }),
            r.tally().errors_spec() == Map::<BlobstoreId, anyhow::Error>::empty(),
            r.tally().num_stores_spec() == num_stores,
    {
        let blob_size = value.len() as u64;
        let entry = BlobstoreWalEntry::new(key, multiplex_id, timestamp, operation_key, Some(blob_size));
        PutSession {
            phase: PutPhase::AwaitingWal,
            entry,
            wal_logged: false,
            tally: Tally::new(quorum.write(), num_stores),
        }
    }

    pub fn phase(&self) -> (r: PutPhase)
        ensures
            r == self.phase_spec(),
    {
        self.phase
    }

    /// The entry to hand to the log.
    pub fn wal_entry(&self) -> (r: &BlobstoreWalEntry)
        ensures
            *r == self.entry_spec(),
    {
        &self.entry
    }

    /// Takes the log's answer. On success the normal stores are to be written
    /// (`Ok`); on failure the put fails with no store written.
    pub fn on_wal_result(&mut self, result: Result<(), anyhow::Error>) -> (r: Result<(), ErrorKind>)
        requires
            old(self).inv(),
            old(self).phase_spec() == PutPhase::AwaitingWal,
        ensures
            final(self).inv(),
            final(self).entry_spec() == old(self).entry_spec(),
            final(self).tally() == old(self).tally(),
            result is Ok ==> r is Ok && final(self).phase_spec() == PutPhase::Writing
                && final(self).wal_logged_spec(),
            result is Err ==> (r matches Err(e) && e.class_spec() == FailureClass::WalUnavailable)
                && final(self).phase_spec() == PutPhase::Finished && !final(self).wal_logged_spec(),
    {
        match result {
            Ok(()) => {
                self.wal_logged = true;
                self.phase = PutPhase::Writing;
                Ok(())
            },
            Err(cause) => {
                self.phase = PutPhase::Finished;
                Err(ErrorKind::WalUnavailable { key: self.entry.blobstore_key.clone(), cause: Arc::new(cause) })
            },
        }
    }

    /// Takes the answer of normal store `id`. Once a write quorum has
    /// succeeded the put returns `NotChecked`: the driver then detaches the
    /// remaining writes and starts the write-mostly stores in the background.
    pub fn on_reply(&mut self, id: BlobstoreId, reply: Result<OverwriteStatus, anyhow::Error>) -> (r:
        Next<OverwriteStatus>)
        requires
            old(self).inv(),
            old(self).phase_spec() == PutPhase::Writing,
        ensures
            final(self).inv(),
            final(self).entry_spec() == old(self).entry_spec(),
            final(self).wal_logged_spec() == old(self).wal_logged_spec(),
            final(self).tally().num_stores_spec() == old(self).tally().num_stores_spec(),
            match step(old(self).model(), (id, put_reply_kind(reply))) {
                StepResult::Quorum => r == Next::Return(OverwriteStatus::NotChecked)
                    && final(self).phase_spec() == PutPhase::Finished,
                StepResult::Continue(next) => r == Next::<OverwriteStatus>::Wait
                    && final(self).phase_spec() == PutPhase::Writing && final(self).model() == next,
                StepResult::Hit => false,
            },
            reply matches Err(e) ==> final(self).tally().errors_spec()
                == old(self).tally().errors_spec().insert(id, e),
            reply is Ok ==> final(self).tally().errors_spec() == old(self).tally().errors_spec(),
    {
        match reply {
            Ok(_) => {
                if self.tally.count(id) {
                    self.phase = PutPhase::Finished;
                    Next::Return(OverwriteStatus::NotChecked)
                } else {
                    Next::Wait
                }
            },
            Err(err) => {
                self.tally.fail(id, err);
                Next::Wait
            },
        }
    }

    /// Every normal store has answered without a write quorum.
    pub fn finish(self) -> (r: ErrorKind)
        requires
            self.phase_spec() == PutPhase::Writing,
        ensures
            r.failures() == Some(self.tally().errors_spec()),
            r.class_spec() == classify_spec(
                Operation::Put,
                self.tally().errors_spec().len(),
                self.tally().num_stores_spec(),
            ),
    {
        self.tally.finish(Operation::Put)
    }
}

/// Every put that reached its stores was preceded by a durable log entry
/// carrying the put's own key, operation key and size: a session that is
/// writing has had its entry confirmed by the log.
pub proof fn lemma_wal_before_write(s: PutSession)
    requires
        s.inv(),
        s.phase_spec() == PutPhase::Writing,
    ensures
        s.wal_logged_spec(),
{
}

} // verus!
