use vstd::prelude::*;
use std::collections::HashMap;

use crate::errors::{classify, classify_spec, BlobstoresReturnedError, ErrorKind, Operation};
use crate::types::BlobstoreId;

verus! {

broadcast use vstd::std_specs::hash::group_hash_axioms;

/// How one store's reply counts towards a quorum decision.
#[derive(Debug, Clone, Copy, PartialEq, Eq, Structural)]
pub enum ReplyKind {
    /// Settles the operation at once (a blob was found, the key is present).
    Hit,
    /// Counts towards the quorum (a write succeeded, the key was not found).
    Counted,
    /// The store failed; it is recorded and does not count.
    Failed,
}

/// The abstract state of a tally: answers still needed, and failed stores.
pub struct TallyModel {
    pub remaining: nat,
    pub failed: Set<BlobstoreId>,
}

pub enum StepResult {
    Hit,
    Quorum,
    Continue(TallyModel),
}

/// What one reply does to a tally.
pub open spec fn step(st: TallyModel, reply: (BlobstoreId, ReplyKind)) -> StepResult {
    match reply.1 {
        ReplyKind::Hit => StepResult::Hit,
        ReplyKind::Counted => if st.remaining <= 1 {
            StepResult::Quorum
        } else {
            StepResult::Continue(TallyModel { remaining: (st.remaining - 1) as nat, failed: st.failed })
        },
        ReplyKind::Failed => StepResult::Continue(
            TallyModel { remaining: st.remaining, failed: st.failed.insert(reply.0) },
        ),
    }
}

/// Where a sequence of replies, in arrival order, leaves an operation.
pub enum RunOutcome {
    /// Settled by the hit at this index.
    Hit(int),
    /// Settled by the quorum-completing reply at this index.
    Quorum(int),
    /// Every reply consumed without a decision; these stores failed.
    Exhausted(Set<BlobstoreId>),
}

/// Feeds the replies from index `i` on into a tally in state `st`.
pub open spec fn run_from(st: TallyModel, replies: Seq<(BlobstoreId, ReplyKind)>, i: nat) -> RunOutcome
    decreases replies.len() - i,
{
    if i >= replies.len() {
        RunOutcome::Exhausted(st.failed)
    } else {
        match step(st, replies[i as int]) {
            StepResult::Hit => RunOutcome::Hit(i as int),
            StepResult::Quorum => RunOutcome::Quorum(i as int),
            StepResult::Continue(next) => run_from(next, replies, i + 1),
        }
    }
}

/// The outcome of an operation that needs `quorum` counted replies.
pub open spec fn run(quorum: nat, replies: Seq<(BlobstoreId, ReplyKind)>) -> RunOutcome {
    run_from(TallyModel { remaining: quorum, failed: Set::empty() }, replies, 0)
}

/// Number of counted replies among the first `n`.
pub open spec fn count_counted(replies: Seq<(BlobstoreId, ReplyKind)>, n: int) -> nat
    decreases n,
{
    if n <= 0 {
        0
    } else {
        count_counted(replies, n - 1) + if replies[n - 1].1 == ReplyKind::Counted { 1nat } else { 0nat }
    }
}

/// The per-operation bookkeeping: how many counted replies are still needed,
/// and what each failed store reported.
pub struct Tally {
    remaining: usize,
    num_stores: usize,
    errors: BlobstoresReturnedError,
}

impl Tally {
    pub closed spec fn model(self) -> TallyModel {
        TallyModel { remaining: self.remaining as nat, failed: self.errors@.dom() }
    }

    pub closed spec fn errors_spec(self) -> Map<BlobstoreId, anyhow::Error> {
        self.errors@
    }

    pub closed spec fn num_stores_spec(self) -> nat {
        self.num_stores as nat
    }

    /// Still waiting for a decision.
    pub open spec fn wf(self) -> bool {
        self.model().remaining >= 1
    }

    pub fn new(quorum: usize, num_stores: usize) -> (r: Self)
        requires
            quorum >= 1,
        ensures
            r.wf(),
            r.model() == (TallyModel { remaining: quorum as nat, failed: Set::empty() }),
            r.errors_spec() == Map::<BlobstoreId, anyhow::Error>::empty(),
            r.num_stores_spec() == num_stores,
    {
        let errors: BlobstoresReturnedError = HashMap::new();
        Tally { remaining: quorum, num_stores, errors }
    }

    /// A reply that counts towards the quorum; true when the quorum is met.
    pub fn count(&mut self, id: BlobstoreId) -> (done: bool)
        requires
            old(self).wf(),
        ensures
            final(self).num_stores_spec() == old(self).num_stores_spec(),
            final(self).errors_spec() == old(self).errors_spec(),
            match step(old(self).model(), (id, ReplyKind::Counted)) {
                StepResult::Quorum => done,
                StepResult::Continue(next) => !done && final(self).wf() && final(self).model() == next,
                StepResult::Hit => false,
            },
    {
        if self.remaining <= 1 {
            true
        } else {
            self.remaining = self.remaining - 1;
            false
        }
    }

    /// A store failed: its error is recorded against it.
    pub fn fail(&mut self, id: BlobstoreId, err: anyhow::Error)
        requires
            old(self).wf(),
        ensures
            final(self).wf(),
            final(self).num_stores_spec() == old(self).num_stores_spec(),
            final(self).errors_spec() == old(self).errors_spec().insert(id, err),
            step(old(self).model(), (id, ReplyKind::Failed)) == StepResult::Continue(final(self).model()),
    {
        self.errors.insert(id, err);
    }

    /// Every reply is in and no decision was reached.
    pub fn finish(self, op: Operation) -> (r: ErrorKind)
        ensures
            r.failures() == Some(self.errors_spec()),
            r.class_spec() == classify_spec(op, self.errors_spec().len(), self.num_stores_spec()),
    {
        classify(op, self.errors, self.num_stores)
    }
}


/// Ids of the failed replies among the first `n`.
pub open spec fn failed_ids(replies: Seq<(BlobstoreId, ReplyKind)>, n: int) -> Set<BlobstoreId>
    decreases n,
{
    if n <= 0 {
        Set::empty()
    } else if replies[n - 1].1 == ReplyKind::Failed {
        failed_ids(replies, n - 1).insert(replies[n - 1].0)
    } else {
        failed_ids(replies, n - 1)
    }
}

proof fn lemma_count_monotonic(replies: Seq<(BlobstoreId, ReplyKind)>, a: int, b: int)
    requires
        0 <= a <= b,
    ensures
        count_counted(replies, a) <= count_counted(replies, b),
    decreases b - a,
{
    if a < b {
        lemma_count_monotonic(replies, a, b - 1);
    }
}

proof fn lemma_quorum_run(st: TallyModel, replies: Seq<(BlobstoreId, ReplyKind)>, k: nat)
    requires
        k <= replies.len(),
        st.remaining >= 1,
        st.remaining + count_counted(replies, k as int) <= count_counted(replies, replies.len() as int),
        forall|j: int| k <= j < replies.len() ==> replies[j].1 != ReplyKind::Hit,
    ensures
        run_from(st, replies, k) is Quorum,
    decreases replies.len() - k,
{
    if k == replies.len() {
        assert(false);
    } else {
        lemma_count_monotonic(replies, k as int + 1, replies.len() as int);
        match step(st, replies[k as int]) {
            StepResult::Continue(next) => lemma_quorum_run(next, replies, k + 1),
            _ => {},
        }
    }
}

proof fn lemma_hit_run(st: TallyModel, replies: Seq<(BlobstoreId, ReplyKind)>, k: nat, i: int)
    requires
        k <= i < replies.len(),
        replies[i].1 == ReplyKind::Hit,
        forall|j: int| k <= j < i ==> replies[j].1 != ReplyKind::Hit,
        st.remaining >= 1 + count_counted(replies, i) - count_counted(replies, k as int),
    ensures
        run_from(st, replies, k) == RunOutcome::Hit(i),
    decreases i - k,
{
    if k < i {
        lemma_count_monotonic(replies, k as int + 1, i);
        match step(st, replies[k as int]) {
            StepResult::Continue(next) => lemma_hit_run(next, replies, k + 1, i),
            _ => {},
        }
    }
}

proof fn lemma_exhausted_run(st: TallyModel, replies: Seq<(BlobstoreId, ReplyKind)>, k: nat)
    requires
        k <= replies.len(),
        st.remaining > count_counted(replies, replies.len() as int) - count_counted(replies, k as int),
        st.failed == failed_ids(replies, k as int),
        forall|j: int| k <= j < replies.len() ==> replies[j].1 != ReplyKind::Hit,
    ensures
        run_from(st, replies, k) == RunOutcome::Exhausted(failed_ids(replies, replies.len() as int)),
    decreases replies.len() - k,
{
    if k < replies.len() {
        lemma_count_monotonic(replies, k as int + 1, replies.len() as int);
        match step(st, replies[k as int]) {
            StepResult::Continue(next) => lemma_exhausted_run(next, replies, k + 1),
            _ => {},
        }
    }
}

proof fn lemma_decision_index(st: TallyModel, replies: Seq<(BlobstoreId, ReplyKind)>, k: nat)
    ensures
        run_from(st, replies, k) matches RunOutcome::Hit(i) ==> k <= i,
        run_from(st, replies, k) matches RunOutcome::Quorum(i) ==> k <= i,
    decreases replies.len() - k,
{
    if k < replies.len() {
        match step(st, replies[k as int]) {
            StepResult::Continue(next) => lemma_decision_index(next, replies, k + 1),
            _ => {},
        }
    }
}

proof fn lemma_same_prefix_run(
    st: TallyModel,
    a: Seq<(BlobstoreId, ReplyKind)>,
    b: Seq<(BlobstoreId, ReplyKind)>,
    k: nat,
    i: int,
)
    requires
        k <= i < a.len(),
        i < b.len(),
        forall|j: int| k <= j <= i ==> a[j] == b[j],
        run_from(st, a, k) == RunOutcome::Hit(i) || run_from(st, a, k) == RunOutcome::Quorum(i),
    ensures
        run_from(st, b, k) == run_from(st, a, k),
    decreases i - k,
{
    assert(a[k as int] == b[k as int]);
    match step(st, a[k as int]) {
        StepResult::Continue(next) => {
            lemma_decision_index(next, a, k + 1);
            lemma_same_prefix_run(next, a, b, k + 1, i);
        },
        _ => {},
    }
}

/// Short-circuit: once an operation is decided by the reply at index `i`,
/// the replies that come after it (or never come) cannot change the outcome.
pub proof fn lemma_decided_by_prefix(
    quorum: nat,
    a: Seq<(BlobstoreId, ReplyKind)>,
    b: Seq<(BlobstoreId, ReplyKind)>,
    i: int,
)
    requires
        0 <= i < a.len(),
        i < b.len(),
        a.take(i + 1) == b.take(i + 1),
        run(quorum, a) == RunOutcome::Hit(i) || run(quorum, a) == RunOutcome::Quorum(i),
    ensures
        run(quorum, b) == run(quorum, a),
{
    assert forall|j: int| 0 <= j <= i implies a[j] == b[j] by {
        assert(a.take(i + 1)[j] == b.take(i + 1)[j]);
    }
    lemma_same_prefix_run(TallyModel { remaining: quorum, failed: Set::empty() }, a, b, 0, i);
}

/// A quorum of successes that arrive first settles the operation at the
/// last of them, whatever the other stores do afterwards or never do.
pub proof fn lemma_quorum_first(quorum: nat, replies: Seq<(BlobstoreId, ReplyKind)>)
    requires
        quorum >= 1,
        replies.len() >= quorum,
        forall|j: int| 0 <= j < quorum ==> replies[j].1 == ReplyKind::Counted,
    ensures
        run(quorum, replies) == RunOutcome::Quorum(quorum - 1),
{
    let pre = replies.take(quorum as int);
    assert forall|n: int| 0 <= n <= quorum implies count_counted(pre, n) == n by {
        lemma_count_is_n(pre, n);
    }
    lemma_quorum_run(TallyModel { remaining: quorum, failed: Set::empty() }, pre, 0);
    let o = run(quorum, pre);
    if let RunOutcome::Quorum(i) = o {
        lemma_no_early_quorum(quorum, pre, i);
        assert(pre.take(quorum as int) =~= replies.take(quorum as int));
        lemma_decided_by_prefix(quorum, pre, replies, quorum - 1);
    }
}

proof fn lemma_count_is_n(s: Seq<(BlobstoreId, ReplyKind)>, n: int)
    requires
        0 <= n <= s.len(),
        forall|j: int| 0 <= j < s.len() ==> s[j].1 == ReplyKind::Counted,
    ensures
        count_counted(s, n) == n,
    decreases n,
{
    if n > 0 {
        lemma_count_is_n(s, n - 1);
    }
}

/// A quorum is only reached at the reply that brings the count of counted
/// replies up to the quorum.
proof fn lemma_no_early_quorum(quorum: nat, replies: Seq<(BlobstoreId, ReplyKind)>, i: int)
    requires
        quorum >= 1,
        run(quorum, replies) == RunOutcome::Quorum(i),
    ensures
        0 <= i < replies.len(),
        count_counted(replies, i + 1) == quorum,
{
    lemma_quorum_index(TallyModel { remaining: quorum, failed: Set::empty() }, replies, 0, i, quorum);
}

proof fn lemma_quorum_index(st: TallyModel, replies: Seq<(BlobstoreId, ReplyKind)>, k: nat, i: int, quorum: nat)
    requires
        st.remaining >= 1,
        st.remaining + count_counted(replies, k as int) == quorum,
        run_from(st, replies, k) == RunOutcome::Quorum(i),
    ensures
        k <= i < replies.len(),
        count_counted(replies, i + 1) == quorum,
    decreases replies.len() - k,
{
    if k < replies.len() {
        match step(st, replies[k as int]) {
            StepResult::Continue(next) => lemma_quorum_index(next, replies, k + 1, i, quorum),
            _ => {},
        }
    }
}

/// The first hit wins: when no hit comes before index `i` and fewer than
/// `quorum` counted replies do, the hit at `i` decides the operation,
/// whatever the remaining stores answer.
pub proof fn lemma_first_hit_wins(quorum: nat, replies: Seq<(BlobstoreId, ReplyKind)>, i: int)
    requires
        quorum >= 1,
        0 <= i < replies.len(),
        replies[i].1 == ReplyKind::Hit,
        forall|j: int| 0 <= j < i ==> replies[j].1 != ReplyKind::Hit,
        count_counted(replies, i) < quorum,
    ensures
        run(quorum, replies) == RunOutcome::Hit(i),
{
    lemma_hit_run(TallyModel { remaining: quorum, failed: Set::empty() }, replies, 0, i);
}

/// Without a hit, a quorum of counted replies settles the operation, in
/// whatever order the replies and the failures arrive.
pub proof fn lemma_quorum_reached(quorum: nat, replies: Seq<(BlobstoreId, ReplyKind)>)
    requires
        quorum >= 1,
        forall|j: int| 0 <= j < replies.len() ==> replies[j].1 != ReplyKind::Hit,
        count_counted(replies, replies.len() as int) >= quorum,
    ensures
        run(quorum, replies) is Quorum,
{
    lemma_quorum_run(TallyModel { remaining: quorum, failed: Set::empty() }, replies, 0);
}

/// Without a hit and with fewer than `quorum` counted replies, the operation
/// stays undecided and every failed store is on record.
pub proof fn lemma_undecided(quorum: nat, replies: Seq<(BlobstoreId, ReplyKind)>)
    requires
        forall|j: int| 0 <= j < replies.len() ==> replies[j].1 != ReplyKind::Hit,
        count_counted(replies, replies.len() as int) < quorum,
    ensures
        run(quorum, replies) == RunOutcome::Exhausted(failed_ids(replies, replies.len() as int)),
{
    lemma_exhausted_run(TallyModel { remaining: quorum, failed: Set::empty() }, replies, 0);
}

} // verus!
