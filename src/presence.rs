use vstd::prelude::*;

use crate::errors::{classify_spec, ErrorKind, FailureClass, Operation};
use crate::get::Next;
use crate::quorum::MultiplexQuorum;
use crate::tally::{step, ReplyKind, StepResult, Tally, TallyModel};
use crate::types::{BlobstoreId, BlobstoreIsPresent};

verus! {

/// The multiplex's answer to a presence query.
#[derive(Debug)]
pub enum IsPresentOutcome {
    Present,
    Absent,
    /// Neither presence nor a quorum of absence could be established, and
    /// not every store failed: the per-store failures are the diagnostic.
    ProbablyNotPresent(ErrorKind),
}

/// How a store's answer to `is_present` counts: "present" settles the query,
/// "absent" counts towards the read quorum, and an uncertain answer is
/// recorded like an error.
pub open spec fn presence_reply_kind(reply: Result<BlobstoreIsPresent, anyhow::Error>) -> ReplyKind {
    match reply {
        Ok(BlobstoreIsPresent::Present) => ReplyKind::Hit,
        Ok(BlobstoreIsPresent::Absent) => ReplyKind::Counted,
        Ok(BlobstoreIsPresent::ProbablyNotPresent(_)) => ReplyKind::Failed,
        Err(_) => ReplyKind::Failed,
    }
}

/// The decision state of one multiplexed `is_present` over the normal stores.
pub struct IsPresentQuorum {
    tally: Tally,
}

impl IsPresentQuorum {
    pub closed spec fn tally(self) -> Tally {
        self.tally
    }

    pub open spec fn model(self) -> TallyModel {
        self.tally().model()
    }

    pub open spec fn wf(self) -> bool {
        self.tally().wf()
    }

    pub fn new(quorum: &MultiplexQuorum, num_stores: usize) -> (r: Self)
        requires
            quorum.valid_for(num_stores as nat),
        ensures
            r.wf(),
            r.model() == (TallyModel { remaining: quorum.read_spec(), failed: Set::empty() }),
            r.tally().errors_spec() == Map::<BlobstoreId, anyhow::Error>::empty(),
            r.tally().num_stores_spec() == num_stores,
    {
        IsPresentQuorum { tally: Tally::new(quorum.read(), num_stores) }
    }

    /// Takes the answer of store `id`.
    pub fn on_reply(&mut self, id: BlobstoreId, reply: Result<BlobstoreIsPresent, anyhow::Error>) -> (r:
        Next<IsPresentOutcome>)
        requires
            old(self).wf(),
        ensures
            final(self).tally().num_stores_spec() == old(self).tally().num_stores_spec(),
            match step(old(self).model(), (id, presence_reply_kind(reply))) {
                StepResult::Hit => r matches Next::Return(IsPresentOutcome::Present),
                StepResult::Quorum => r matches Next::Return(IsPresentOutcome::Absent),
                StepResult::Continue(next) => r matches Next::Wait && final(self).wf()
                    && final(self).model() == next,
            },
            reply matches Err(e) ==> final(self).tally().errors_spec()
                == old(self).tally().errors_spec().insert(id, e),
            reply matches Ok(BlobstoreIsPresent::ProbablyNotPresent(e)) ==> final(self).tally().errors_spec()
                == old(self).tally().errors_spec().insert(id, e),
            reply matches Ok(BlobstoreIsPresent::Absent) ==> final(self).tally().errors_spec()
                == old(self).tally().errors_spec(),
    {
        match reply {
            Ok(BlobstoreIsPresent::Present) => Next::Return(IsPresentOutcome::Present),
            Ok(BlobstoreIsPresent::Absent) => {
                if self.tally.count(id) {
                    Next::Return(IsPresentOutcome::Absent)
                } else {
                    Next::Wait
                }
            },
            Ok(BlobstoreIsPresent::ProbablyNotPresent(err)) => {
                self.tally.fail(id, err);
                Next::Wait
            },
            Err(err) => {
                self.tally.fail(id, err);
                Next::Wait
            },
        }
    }

    /// Every store has answered without a decision: an error if all of them
    /// failed, otherwise a downgrade to "probably not present".
    pub fn finish(self) -> (r: Result<IsPresentOutcome, ErrorKind>)
        ensures
            self.tally().errors_spec().len() == self.tally().num_stores_spec() ==> (r matches Err(e)
                && e.class_spec() == FailureClass::AllFailed
                && e.failures() == Some(self.tally().errors_spec())),
            self.tally().errors_spec().len() != self.tally().num_stores_spec() ==> (r matches Ok(
                IsPresentOutcome::ProbablyNotPresent(e),
            ) && e.class_spec() == FailureClass::SomeIsPresentsFailed
                && e.failures() == Some(self.tally().errors_spec())),
    {
        let err = self.tally.finish(Operation::IsPresent);
        match err {
            ErrorKind::AllFailed(_) => Err(err),
            _ => Ok(IsPresentOutcome::ProbablyNotPresent(err)),
        }
    }
}

} // verus!
