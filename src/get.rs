use vstd::prelude::*;

use crate::errors::{classify_spec, ErrorKind, Operation};
use crate::quorum::MultiplexQuorum;
use crate::tally::{step, ReplyKind, StepResult, Tally, TallyModel};
use crate::types::{BlobstoreGetData, BlobstoreId};

verus! {

/// What the driver of an operation does after handing it one reply.
#[derive(Debug)]
pub enum Next<T> {
    /// Await the next completion.
    Wait,
    /// The operation is decided: return this. Remaining attempts may be dropped.
    Return(T),
}

/// How a store's answer to `get` counts: a blob settles the read, "not found"
/// counts towards the read quorum, an error is recorded.
pub open spec fn get_reply_kind(reply: Result<Option<BlobstoreGetData>, anyhow::Error>) -> ReplyKind {
    match reply {
        Ok(Some(_)) => ReplyKind::Hit,
        Ok(None) => ReplyKind::Counted,
        Err(_) => ReplyKind::Failed,
    }
}

/// The decision state of one multiplexed `get` over the normal stores.
pub struct GetQuorum {
    tally: Tally,
}

impl GetQuorum {
    pub closed spec fn tally(self) -> Tally {
        self.tally
    }

    pub open spec fn model(self) -> TallyModel {
        self.tally().model()
    }

    pub open spec fn wf(self) -> bool {
        self.tally().wf()
    }

    /// Starts a read over `num_stores` normal stores: a read quorum of "not
    /// found" answers is needed to report the blob absent.
    pub fn new(quorum: &MultiplexQuorum, num_stores: usize) -> (r: Self)
        requires
            quorum.valid_for(num_stores as nat),
        ensures
            r.wf(),
            r.model() == (TallyModel { remaining: quorum.read_spec(), failed: Set::empty() }),
            r.tally().errors_spec() == Map::<BlobstoreId, anyhow::Error>::empty(),
            r.tally().num_stores_spec() == num_stores,
    {
        GetQuorum { tally: Tally::new(quorum.read(), num_stores) }
    }

    /// Takes the answer of store `id`. The first blob wins; a read quorum of
    /// "not found" answers settles the read as absent.
    pub fn on_reply(
        &mut self,
        id: BlobstoreId,
        reply: Result<Option<BlobstoreGetData>, anyhow::Error>,
    ) -> (r: Next<Option<BlobstoreGetData>>)
        requires
            old(self).wf(),
        ensures
            final(self).tally().num_stores_spec() == old(self).tally().num_stores_spec(),
            match step(old(self).model(), (id, get_reply_kind(reply))) {
                StepResult::Hit => reply matches Ok(Some(d)) && r == Next::Return(Some(d)),
                StepResult::Quorum => r == Next::<Option<BlobstoreGetData>>::Return(None),
                StepResult::Continue(next) => r == Next::<Option<BlobstoreGetData>>::Wait
                    && final(self).wf() && final(self).model() == next,
            },
            reply matches Err(e) ==> final(self).tally().errors_spec()
                == old(self).tally().errors_spec().insert(id, e),
            reply matches Ok(None) ==> final(self).tally().errors_spec()
                == old(self).tally().errors_spec(),
    {
        match reply {
            Ok(Some(data)) => Next::Return(Some(data)),
            Ok(None) => {
                if self.tally.count(id) {
                    Next::Return(None)
                } else {
                    Next::Wait
                }
            },
            Err(err) => {
                self.tally.fail(id, err);
                Next::Wait
            },
        }
    }

    /// Every store has answered without a decision.
    pub fn finish(self) -> (r: ErrorKind)
        ensures
            r.failures() == Some(self.tally().errors_spec()),
            r.class_spec() == classify_spec(
                Operation::Get,
                self.tally().errors_spec().len(),
                self.tally().num_stores_spec(),
            ),
    {
        self.tally.finish(Operation::Get)
    }
}

} // verus!
