//! Waiting until the node has executed a transaction.
//!
//! The node pushes nothing, so a wait asks again and again. It is a machine
//! with four states: it sets out not knowing, polls while the node shows no
//! final record and attempts are left, and ends confirmed or exhausted. The
//! machine decides; the caller sends the requests and lets the pauses pass.

use vstd::prelude::*;
use crate::transport::{Reply, Request};
use super::transactions::Transaction;
use super::{is_get, Client};

verus! {

/// How many times a wait asks the node, unless told otherwise.
pub const DEFAULT_MAX_ATTEMPTS: u64 = 10;

/// How many seconds a wait lets pass between two attempts, unless told otherwise.
pub const DEFAULT_POLL_INTERVAL_SECS: u64 = 1;

/// Where a transaction stands, as far as one reply of the node tells.
#[derive(Debug, Clone, Copy, PartialEq, Eq, Structural)]
pub enum TransactionStatus {
    /// The node holds the transaction and has not executed it yet.
    Pending,
    /// The node holds a final record of the transaction.
    Committed,
    /// The node showed no record of the transaction: it may not have heard
    /// of it yet.
    NotFound,
}

/// The status that a reply to a lookup by hash tells.
///
/// A record of the kind `pending_transaction` tells `Pending`, a record of
/// any other kind `Committed`. Everything else tells `NotFound`: an error
/// status, an unreachable node, and a reply that holds no record.
pub open spec fn status_of(reply: Reply) -> TransactionStatus {
    match reply.record::<Transaction>() {
        Ok(record) => if record.transaction_type == "pending_transaction"@ {
            TransactionStatus::Pending
        } else {
            TransactionStatus::Committed
        },
        Err(_) => TransactionStatus::NotFound,
    }
}

/// The states of a wait for a transaction.
#[derive(Debug, Clone, Copy, PartialEq, Eq, Structural)]
pub enum WaitState {
    /// Nothing has been asked yet.
    Unknown,
    /// The node is being asked, and attempts are left.
    Polling,
    /// The node showed a final record. The wait is over.
    Confirmed,
    /// The attempts ran out while the node showed no final record. The wait
    /// is over, and the transaction may still be executed later.
    Exhausted,
}

/// A wait for a transaction: its state, and how many attempts it has made
/// and may make.
#[derive(Debug, Clone, Copy, PartialEq, Eq, Structural)]
pub struct Confirmation {
    /// The state of the wait.
    pub state: WaitState,
    /// How many replies the wait has taken in.
    pub attempts: u64,
    /// How many replies the wait takes in at most.
    pub max_attempts: u64,
    /// How many seconds the wait lets pass before each attempt but the first.
    pub poll_interval_secs: u64,
}

impl Confirmation {
    /// Whether the numbers of this wait agree with its state.
    pub open spec fn wf(self) -> bool {
        &&& self.attempts <= self.max_attempts
        &&& self.state == WaitState::Unknown ==> self.attempts == 0
        &&& self.state == WaitState::Polling ==> self.attempts < self.max_attempts
        &&& self.state == WaitState::Confirmed ==> self.attempts >= 1
        &&& self.state == WaitState::Exhausted ==> self.attempts == self.max_attempts
    }

    /// Whether this wait is over.
    pub open spec fn done(self) -> bool {
        self.state == WaitState::Confirmed || self.state == WaitState::Exhausted
    }

    /// A wait that has not asked yet.
    pub open spec fn fresh(max_attempts: u64, poll_interval_secs: u64) -> Confirmation {
        Confirmation { state: WaitState::Unknown, attempts: 0, max_attempts, poll_interval_secs }
    }

    /// This wait once it has set out: a wait that has not asked yet starts
    /// to poll, or is exhausted at once where it may make no attempt. Any
    /// other wait stays as it is.
    pub open spec fn begun(self) -> Confirmation {
        if self.state != WaitState::Unknown {
            self
        } else if self.max_attempts == 0 || self.attempts >= self.max_attempts {
            Confirmation { state: WaitState::Exhausted, ..self }
        } else {
            Confirmation { state: WaitState::Polling, ..self }
        }
    }

    /// A wait for at most `max_attempts` replies, `poll_interval_secs`
    /// seconds apart, that has not asked yet.
    pub fn new(max_attempts: u64, poll_interval_secs: u64) -> (wait: Confirmation)
        ensures
            wait == Confirmation::fresh(max_attempts, poll_interval_secs),
            wait.wf(),
    {
        Confirmation { state: WaitState::Unknown, attempts: 0, max_attempts, poll_interval_secs }
    }

    /// Sets out: see `begun`.
    pub fn begin(self) -> (next: Confirmation)
        ensures
            next == self.begun(),
            self.wf() ==> next.wf(),
    {
        match self.state {
            WaitState::Unknown => if self.attempts >= self.max_attempts {
                Confirmation { state: WaitState::Exhausted, ..self }
            } else {
                Confirmation { state: WaitState::Polling, ..self }
            },
            _ => self,
        }
    }

    /// Takes in the status that one reply told: see `observed`.
    pub fn observe(self, status: TransactionStatus) -> (next: Confirmation)
        ensures
            next == observed(self, status),
            self.wf() ==> next.wf(),
    {
        match self.state {
            WaitState::Polling => {
                if self.attempts >= self.max_attempts {
                    Confirmation { state: WaitState::Exhausted, ..self }
                } else {
                    let attempts = self.attempts + 1;
                    match status {
                        TransactionStatus::Committed => Confirmation {
                            state: WaitState::Confirmed,
                            attempts,
                            ..self
                        },
                        _ => if attempts < self.max_attempts {
                            Confirmation { attempts, ..self }
                        } else {
                            Confirmation { state: WaitState::Exhausted, attempts, ..self }
                        },
                    }
                }
            },
            _ => self,
        }
    }

    /// Whether this wait is over.
    pub fn is_done(&self) -> (done: bool)
        ensures
            done == self.done(),
    {
        match self.state {
            WaitState::Confirmed => true,
            WaitState::Exhausted => true,
            _ => false,
        }
    }
}

/// The wait `wait` once it has taken in the status that one reply told.
///
/// Only a wait that polls takes a reply in, and each reply counts as one
/// attempt. A final record confirms the transaction. Without one the wait
/// goes on while attempts are left, and is exhausted with the last.
pub open spec fn observed(wait: Confirmation, status: TransactionStatus) -> Confirmation {
    if wait.state != WaitState::Polling {
        wait
    } else if wait.attempts >= wait.max_attempts {
        Confirmation { state: WaitState::Exhausted, ..wait }
    } else if status == TransactionStatus::Committed {
        Confirmation { state: WaitState::Confirmed, attempts: (wait.attempts + 1) as u64, ..wait }
    } else if wait.attempts + 1 < wait.max_attempts {
        Confirmation { attempts: (wait.attempts + 1) as u64, ..wait }
    } else {
        Confirmation { state: WaitState::Exhausted, attempts: (wait.attempts + 1) as u64, ..wait }
    }
}

/// The wait `wait` once it has taken in the statuses `statuses`, one reply
/// after the other.
pub open spec fn after(wait: Confirmation, statuses: Seq<TransactionStatus>) -> Confirmation
    decreases statuses.len(),
{
    if statuses.len() == 0 {
        wait
    } else {
        observed(after(wait, statuses.drop_last()), statuses.last())
    }
}

/// A failure never ends a wait early and is never taken for a confirmation:
/// a reply that stands for a failure counts as one attempt, and the wait
/// goes on while attempts are left.
pub proof fn lemma_failures_are_absorbed(wait: Confirmation, reply: Reply)
    requires
        reply.failure() is Some,
        wait.state == WaitState::Polling,
    ensures
        status_of(reply) == TransactionStatus::NotFound,
        observed(wait, status_of(reply)).state != WaitState::Confirmed,
        wait.attempts + 1 < wait.max_attempts ==> observed(wait, status_of(reply)).state
            == WaitState::Polling,
        wait.attempts < wait.max_attempts ==> observed(wait, status_of(reply)).attempts
            == wait.attempts + 1,
{
}

/// What the caller has to do next for a wait.
#[derive(Debug)]
pub enum Step {
    /// Let `pause_secs` seconds pass, send `request`, and hand the reply to
    /// `Client::continue_wait`.
    Poll { request: Request, pause_secs: u64 },
    /// Nothing more: the wait ended in the given state.
    Done(WaitState),
}

/// A wait never makes more attempts than it may, whatever the node tells,
/// and never more than it has been told statuses.
pub proof fn lemma_attempts_bounded(
    max_attempts: u64,
    poll_interval_secs: u64,
    statuses: Seq<TransactionStatus>,
)
    ensures
        after(Confirmation::fresh(max_attempts, poll_interval_secs).begun(), statuses).wf(),
        after(Confirmation::fresh(max_attempts, poll_interval_secs).begun(), statuses).attempts
            <= max_attempts,
        after(Confirmation::fresh(max_attempts, poll_interval_secs).begun(), statuses).attempts
            <= statuses.len(),
        after(Confirmation::fresh(max_attempts, poll_interval_secs).begun(), statuses).state
            != WaitState::Unknown,
        after(
            Confirmation::fresh(max_attempts, poll_interval_secs).begun(),
            statuses,
        ).max_attempts == max_attempts,
    decreases statuses.len(),
{
    if statuses.len() > 0 {
        lemma_attempts_bounded(max_attempts, poll_interval_secs, statuses.drop_last());
    }
}

/// While the node shows no final record and attempts are left, the wait
/// polls, and has made as many attempts as it has been told statuses.
pub proof fn lemma_polling_without_commit(
    max_attempts: u64,
    poll_interval_secs: u64,
    statuses: Seq<TransactionStatus>,
)
    requires
        statuses.len() < max_attempts,
        forall|j: int| 0 <= j < statuses.len() ==> statuses[j] != TransactionStatus::Committed,
    ensures
        after(Confirmation::fresh(max_attempts, poll_interval_secs).begun(), statuses)
            == (Confirmation {
            state: WaitState::Polling,
            attempts: statuses.len() as u64,
            max_attempts,
            poll_interval_secs,
        }),
    decreases statuses.len(),
{
    if statuses.len() > 0 {
        lemma_polling_without_commit(max_attempts, poll_interval_secs, statuses.drop_last());
    }
}

/// A wait that is over stays as it is, whatever it is told afterwards.
pub proof fn lemma_done_stays(wait: Confirmation, statuses: Seq<TransactionStatus>)
    requires
        wait.done(),
    ensures
        after(wait, statuses) == wait,
    decreases statuses.len(),
{
    if statuses.len() > 0 {
        lemma_done_stays(wait, statuses.drop_last());
    }
}

/// Taking in two runs of statuses, one after the other, is taking in the
/// run that they make together.
pub proof fn lemma_after_concat(
    wait: Confirmation,
    first: Seq<TransactionStatus>,
    second: Seq<TransactionStatus>,
)
    ensures
        after(wait, first + second) == after(after(wait, first), second),
    decreases second.len(),
{
    if second.len() == 0 {
        assert(first + second =~= first);
    } else {
        lemma_after_concat(wait, first, second.drop_last());
        assert((first + second).drop_last() =~= first + second.drop_last());
        assert((first + second).last() == second.last());
    }
}

/// A wait is over once it has been told as many statuses as it may make
/// attempts, whatever they are: it never polls without end.
pub proof fn lemma_wait_ends(
    max_attempts: u64,
    poll_interval_secs: u64,
    statuses: Seq<TransactionStatus>,
)
    requires
        statuses.len() >= max_attempts,
    ensures
        after(Confirmation::fresh(max_attempts, poll_interval_secs).begun(), statuses).done(),
    decreases statuses.len(),
{
    let start = Confirmation::fresh(max_attempts, poll_interval_secs).begun();
    if statuses.len() == 0 {
    } else if statuses.len() > max_attempts {
        lemma_wait_ends(max_attempts, poll_interval_secs, statuses.drop_last());
    } else {
        let front = statuses.drop_last();
        lemma_attempts_bounded(max_attempts, poll_interval_secs, front);
        if after(start, front).state == WaitState::Polling {
            lemma_polling_attempts(max_attempts, poll_interval_secs, front);
        }
    }
}

/// A wait that still polls has made as many attempts as it has been told
/// statuses.
pub proof fn lemma_polling_attempts(
    max_attempts: u64,
    poll_interval_secs: u64,
    statuses: Seq<TransactionStatus>,
)
    requires
        after(Confirmation::fresh(max_attempts, poll_interval_secs).begun(), statuses).state
            == WaitState::Polling,
    ensures
        after(Confirmation::fresh(max_attempts, poll_interval_secs).begun(), statuses).attempts
            == statuses.len(),
    decreases statuses.len(),
{
    if statuses.len() > 0 {
        let start = Confirmation::fresh(max_attempts, poll_interval_secs).begun();
        let front = statuses.drop_last();
        lemma_attempts_bounded(max_attempts, poll_interval_secs, front);
        if after(start, front).state == WaitState::Polling {
            lemma_polling_attempts(max_attempts, poll_interval_secs, front);
        }
    }
}

/// Where the first `k` replies show no final record and the next one does,
/// with `k` below the number of attempts, the wait is confirmed after exactly
/// `k + 1` attempts, and whatever follows changes nothing.
pub proof fn lemma_confirmed_at_first_commit(
    max_attempts: u64,
    poll_interval_secs: u64,
    statuses: Seq<TransactionStatus>,
    k: int,
)
    requires
        0 <= k < statuses.len(),
        k < max_attempts,
        forall|j: int| 0 <= j < k ==> statuses[j] != TransactionStatus::Committed,
        statuses[k] == TransactionStatus::Committed,
    ensures
        after(Confirmation::fresh(max_attempts, poll_interval_secs).begun(), statuses)
            == (Confirmation {
            state: WaitState::Confirmed,
            attempts: (k + 1) as u64,
            max_attempts,
            poll_interval_secs,
        }),
{
    let start = Confirmation::fresh(max_attempts, poll_interval_secs).begun();
    let quiet = statuses.take(k);
    let upto = statuses.take(k + 1);
    let rest = statuses.skip(k + 1);
    lemma_polling_without_commit(max_attempts, poll_interval_secs, quiet);
    assert(upto.drop_last() =~= quiet);
    assert(upto.last() == statuses[k]);
    assert(after(start, upto).state == WaitState::Confirmed);
    lemma_done_stays(after(start, upto), rest);
    lemma_after_concat(start, upto, rest);
    assert(upto + rest =~= statuses);
}

/// Where none of the replies that the wait may take in shows a final
/// record, the wait ends exhausted, after exactly as many attempts as it may
/// make: it reports neither a failure nor a confirmation.
pub proof fn lemma_exhausted_without_commit(
    max_attempts: u64,
    poll_interval_secs: u64,
    statuses: Seq<TransactionStatus>,
)
    requires
        statuses.len() >= max_attempts,
        forall|j: int| 0 <= j < max_attempts ==> statuses[j] != TransactionStatus::Committed,
    ensures
        after(Confirmation::fresh(max_attempts, poll_interval_secs).begun(), statuses)
            == (Confirmation {
            state: WaitState::Exhausted,
            attempts: max_attempts,
            max_attempts,
            poll_interval_secs,
        }),
{
    let start = Confirmation::fresh(max_attempts, poll_interval_secs).begun();
    let rest = statuses.skip(max_attempts as int);
    let upto = statuses.take(max_attempts as int);
    if max_attempts > 0 {
        let quiet = statuses.take(max_attempts - 1);
        lemma_polling_without_commit(max_attempts, poll_interval_secs, quiet);
        assert(upto.drop_last() =~= quiet);
        assert(upto.last() == statuses[max_attempts - 1]);
    } else {
        assert(upto =~= Seq::<TransactionStatus>::empty());
    }
    assert(after(start, upto).state == WaitState::Exhausted);
    lemma_done_stays(after(start, upto), rest);
    lemma_after_concat(start, upto, rest);
    assert(upto + rest =~= statuses);
}

impl Client {
    /// The status that the reply to `transaction_by_hash_request` tells.
    pub fn transaction_status(&self, reply: &Reply) -> (status: TransactionStatus)
        ensures
            status == status_of(*reply),
    {
        match reply.read::<Transaction>() {
            Ok(record) => {
                let pending = String::from_str("pending_transaction");
                if record.transaction_type == pending {
                    TransactionStatus::Pending
                } else {
                    TransactionStatus::Committed
                }
            },
            Err(_) => TransactionStatus::NotFound,
        }
    }

    /// Whether the reply to `transaction_by_hash_request` leaves the
    /// transaction's fate open: whether it shows no final record.
    pub fn transaction_pending(&self, reply: &Reply) -> (pending: bool)
        ensures
            pending == (status_of(*reply) != TransactionStatus::Committed),
    {
        match self.transaction_status(reply) {
            TransactionStatus::Committed => false,
            _ => true,
        }
    }

    /// What to do next for `wait`: to poll for `txn_hash` where the wait
    /// polls, after a pause unless this is the first attempt; else nothing.
    fn next_step(&self, txn_hash: &str, wait: Confirmation) -> (step: Step)
        ensures
            match step {
                Step::Poll { request, pause_secs } => {
                    &&& wait.state == WaitState::Polling
                    &&& is_get(request, self.base() + "/transactions/by_hash/"@ + txn_hash@)
                    &&& pause_secs == if wait.attempts == 0 {
                        0
                    } else {
                        wait.poll_interval_secs
                    }
                },
                Step::Done(state) => wait.state != WaitState::Polling && state == wait.state,
            },
    {
        match wait.state {
            WaitState::Polling => Step::Poll {
                request: self.transaction_by_hash_request(txn_hash),
                pause_secs: if wait.attempts == 0 {
                    0
                } else {
                    wait.poll_interval_secs
                },
            },
            state => Step::Done(state),
        }
    }

    /// Starts a wait for the transaction `txn_hash` with at most
    /// `max_attempts` attempts, `poll_interval_secs` seconds apart.
    ///
    /// The wait polls at once, or is exhausted at once where it may make no
    /// attempt.
    pub fn wait_for_transaction_with(
        &self,
        txn_hash: &str,
        max_attempts: u64,
        poll_interval_secs: u64,
    ) -> (r: (Confirmation, Step))
        ensures
            r.0 == Confirmation::fresh(max_attempts, poll_interval_secs).begun(),
            r.0.wf(),
            match r.1 {
                Step::Poll { request, pause_secs } => {
                    &&& max_attempts > 0
                    &&& is_get(request, self.base() + "/transactions/by_hash/"@ + txn_hash@)
                    &&& pause_secs == 0
                },
                Step::Done(state) => max_attempts == 0 && state == WaitState::Exhausted,
            },
    {
        let wait = Confirmation::new(max_attempts, poll_interval_secs).begin();
        let step = self.next_step(txn_hash, wait);
        (wait, step)
    }

    /// Starts a wait for the transaction `txn_hash` with the usual number of
    /// attempts, the usual time apart.
    pub fn wait_for_transaction(&self, txn_hash: &str) -> (r: (Confirmation, Step))
        ensures
            r.0 == Confirmation::fresh(DEFAULT_MAX_ATTEMPTS, DEFAULT_POLL_INTERVAL_SECS).begun(),
            r.0.wf(),
            r.1 matches Step::Poll { request, pause_secs } && is_get(
                request,
                self.base() + "/transactions/by_hash/"@ + txn_hash@,
            ) && pause_secs == 0,
    {
        self.wait_for_transaction_with(txn_hash, DEFAULT_MAX_ATTEMPTS, DEFAULT_POLL_INTERVAL_SECS)
    }

    /// Takes the reply to a poll into `wait` and says what to do next.
    ///
    /// The wait becomes `observed(wait, status_of(reply))`. It asks for
    /// another poll, after the wait's pause, exactly where it still polls;
    /// else it is done, in the state that it ended in.
    pub fn continue_wait(&self, txn_hash: &str, wait: Confirmation, reply: &Reply) -> (r: (
        Confirmation,
        Step,
    ))
        ensures
            r.0 == observed(wait, status_of(*reply)),
            wait.wf() ==> r.0.wf(),
            match r.1 {
                Step::Poll { request, pause_secs } => {
                    &&& r.0.state == WaitState::Polling
                    &&& is_get(request, self.base() + "/transactions/by_hash/"@ + txn_hash@)
                    &&& pause_secs == if r.0.attempts == 0 {
                        0
                    } else {
                        r.0.poll_interval_secs
                    }
                },
                Step::Done(state) => r.0.state != WaitState::Polling && state == r.0.state,
            },
    {
        let next = wait.observe(self.transaction_status(reply));
        let step = self.next_step(txn_hash, next);
        (next, step)
    }
}

} // verus!
