//! The bounded-retry fetch queue.
//!
//! `FetchEngine` owns the work queue of a fetch session. Workers take one
//! task at a time with `checkout` and hand the observed outcome back with
//! `report`; the engine requeues an item whose transport attempt failed until
//! its attempt count reaches the retry cap, records a terminal failure after
//! the cap (or at once on a write failure), and counts completions. One item
//! occupies exactly one place at any time — queued, checked out, completed,
//! or failed — so when the queue is drained and nothing is checked out, every
//! item has been attempted and is accounted for. One bad item therefore never
//! aborts the batch: the engine returns an aggregate of all terminal
//! failures. The engine decides nothing about transport itself; whoever runs
//! the session performs the transfers, with whatever parallelism it chooses,
//! and may pace retries with `backoff_delay_ms`.

use vstd::prelude::*;
use crate::manifest::{WorkItem, item_view, items_view};

verus! {

/// What a worker observed for one attempt of one item.
#[derive(Clone, Copy, PartialEq, Eq, Structural, Debug)]
pub enum FetchOutcome {
    /// The body was fetched and written to the destination.
    Fetched,
    /// The transfer failed; the item may be retried.
    TransportError,
    /// The fetched body could not be written; the item fails at once.
    WriteError,
}

/// Why an item terminally failed.
#[derive(Clone, Copy, PartialEq, Eq, Structural, Debug)]
pub enum FetchError {
    Transport,
    Write,
}

/// One checked-out unit of work: the item and how many attempts at it have
/// already failed.
#[derive(Debug)]
pub struct FetchTask {
    pub item: WorkItem,
    pub attempts_made: u32,
}

/// One terminal failure of the session.
#[derive(Debug)]
pub struct FetchFailure {
    pub item: WorkItem,
    pub error: FetchError,
}

/// What a finished session reports: how many items completed and every
/// terminal failure, enumerated rather than merely counted.
#[derive(Debug)]
pub struct FetchReport {
    pub completed_count: usize,
    pub failures: Vec<FetchFailure>,
}

/// The work items of a task queue, in order.
pub open spec fn tasks_items_view(tasks: Seq<FetchTask>) -> Seq<(Seq<char>, Seq<char>)> {
    tasks.map_values(|t: FetchTask| item_view(t.item))
}

/// The exponential backoff delay before attempt `attempts + 1`, saturating at
/// the largest representable delay.
pub open spec fn backoff_spec(base: u64, attempts: nat) -> u64
    decreases attempts,
{
    if attempts == 0 {
        base
    } else {
        let p = backoff_spec(base, (attempts - 1) as nat);
        if p > u64::MAX / 2 {
            u64::MAX
        } else {
            (2 * p) as u64
        }
    }
}

/// The shared work queue of one fetch session.
pub struct FetchEngine {
    pending: Vec<FetchTask>,
    in_flight: usize,
    completed: usize,
    failures: Vec<FetchFailure>,
    total: usize,
    retry_cap: u32,
    base_delay_ms: u64,
}

impl FetchEngine {
    /// The tasks waiting in the queue, front first.
    pub closed spec fn spec_pending(&self) -> Seq<FetchTask> {
        self.pending@
    }

    /// How many tasks are checked out right now.
    pub closed spec fn spec_in_flight(&self) -> nat {
        self.in_flight as nat
    }

    /// How many items completed so far.
    pub closed spec fn spec_completed(&self) -> nat {
        self.completed as nat
    }

    /// The terminal failures recorded so far, in order.
    pub closed spec fn spec_failures(&self) -> Seq<FetchFailure> {
        self.failures@
    }

    /// How many items the session was created with.
    pub closed spec fn spec_total(&self) -> nat {
        self.total as nat
    }

    /// The maximum number of attempts per item.
    pub closed spec fn spec_retry_cap(&self) -> u32 {
        self.retry_cap
    }

    /// The delay before a first retry.
    pub closed spec fn spec_base_delay(&self) -> u64 {
        self.base_delay_ms
    }

    /// Every item occupies exactly one place: queued, checked out, completed
    /// or failed; and no queued task has exhausted its attempts.
    pub open spec fn wf(&self) -> bool {
        &&& self.spec_completed() + self.spec_failures().len() + self.spec_in_flight()
            + self.spec_pending().len() == self.spec_total()
        &&& self.spec_retry_cap() >= 1
        &&& forall|i: int|
            0 <= i < self.spec_pending().len() ==> (#[trigger] self.spec_pending()[i]).attempts_made
                < self.spec_retry_cap()
    }

    /// The session is over: the queue is drained and nothing is checked out.
    pub open spec fn done(&self) -> bool {
        self.spec_pending().len() == 0 && self.spec_in_flight() == 0
    }

    /// Queues every item, in order, with no attempts made yet.
    pub fn new(items: Vec<WorkItem>, retry_cap: u32, base_delay_ms: u64) -> (e: FetchEngine)
        requires
            retry_cap >= 1,
        ensures
            e.wf(),
            e.spec_total() == items@.len(),
            e.spec_completed() == 0,
            e.spec_failures().len() == 0,
            e.spec_in_flight() == 0,
            tasks_items_view(e.spec_pending()) == items_view(items@),
            forall|i: int|
                0 <= i < e.spec_pending().len() ==> (#[trigger] e.spec_pending()[i]).attempts_made
                    == 0,
            e.spec_retry_cap() == retry_cap,
            e.spec_base_delay() == base_delay_ms,
    {
        let total = items.len();
        let mut pending: Vec<FetchTask> = Vec::new();
        let mut i: usize = 0;
        while i < items.len()
            invariant
                i <= items@.len(),
                pending@.len() == i,
                forall|k: int| 0 <= k < i ==> (#[trigger] pending@[k]).attempts_made == 0,
                forall|k: int|
                    0 <= k < i ==> item_view((#[trigger] pending@[k]).item) == item_view(
                        items@[k],
                    ),
            decreases items@.len() - i,
        {
            pending.push(FetchTask { item: items[i].clone(), attempts_made: 0 });
            i = i + 1;
        }
        proof {
            assert(tasks_items_view(pending@) =~= items_view(items@));
        }
        FetchEngine {
            pending,
            in_flight: 0,
            completed: 0,
            failures: Vec::new(),
            total,
            retry_cap,
            base_delay_ms,
        }
    }

    /// Takes the front task out of the queue, if any, and marks it checked
    /// out. No task is ever handed to two workers: taking it removes it.
    pub fn checkout(&mut self) -> (t: Option<FetchTask>)
        requires
            old(self).wf(),
        ensures
            final(self).wf(),
            final(self).spec_total() == old(self).spec_total(),
            final(self).spec_completed() == old(self).spec_completed(),
            final(self).spec_failures() == old(self).spec_failures(),
            final(self).spec_retry_cap() == old(self).spec_retry_cap(),
            final(self).spec_base_delay() == old(self).spec_base_delay(),
            match t {
                Option::None => {
                    &&& old(self).spec_pending().len() == 0
                    &&& final(self).spec_pending() == old(self).spec_pending()
                    &&& final(self).spec_in_flight() == old(self).spec_in_flight()
                },
                Option::Some(task) => {
                    &&& old(self).spec_pending().len() > 0
                    &&& task == old(self).spec_pending()[0]
                    &&& final(self).spec_pending() == old(self).spec_pending().drop_first()
                    &&& final(self).spec_in_flight() == old(self).spec_in_flight() + 1
                },
            },
    {
        if self.pending.len() == 0 {
            return Option::None;
        }
        let task = self.pending.remove(0);
        self.in_flight = self.in_flight + 1;
        proof {
            assert(self.pending@ =~= old(self).pending@.drop_first());
        }
        Option::Some(task)
    }

    /// Records the outcome of one checked-out task. A successful attempt
    /// counts as completed; a write failure is terminal at once; a failed
    /// transport attempt requeues the item at the back until the retry cap is
    /// reached, then records a terminal transport failure.
    pub fn report(&mut self, task: FetchTask, outcome: FetchOutcome)
        requires
            old(self).wf(),
            old(self).spec_in_flight() >= 1,
        ensures
            final(self).wf(),
            final(self).spec_total() == old(self).spec_total(),
            final(self).spec_in_flight() == old(self).spec_in_flight() - 1,
            final(self).spec_retry_cap() == old(self).spec_retry_cap(),
            final(self).spec_base_delay() == old(self).spec_base_delay(),
            match outcome {
                FetchOutcome::Fetched => {
                    &&& final(self).spec_completed() == old(self).spec_completed() + 1
                    &&& final(self).spec_pending() == old(self).spec_pending()
                    &&& final(self).spec_failures() == old(self).spec_failures()
                },
                FetchOutcome::WriteError => {
                    &&& final(self).spec_completed() == old(self).spec_completed()
                    &&& final(self).spec_pending() == old(self).spec_pending()
                    &&& final(self).spec_failures() == old(self).spec_failures().push(
                        FetchFailure { item: task.item, error: FetchError::Write },
                    )
                },
                FetchOutcome::TransportError => {
                    &&& final(self).spec_completed() == old(self).spec_completed()
                    &&& if task.attempts_made + 1 < old(self).spec_retry_cap() {
                        &&& final(self).spec_pending() == old(self).spec_pending().push(
                            FetchTask { item: task.item, attempts_made: (task.attempts_made + 1) as u32 },
                        )
                        &&& final(self).spec_failures() == old(self).spec_failures()
                    } else {
                        &&& final(self).spec_pending() == old(self).spec_pending()
                        &&& final(self).spec_failures() == old(self).spec_failures().push(
                            FetchFailure { item: task.item, error: FetchError::Transport },
                        )
                    }
                },
            },
    {
        self.in_flight = self.in_flight - 1;
        match outcome {
            FetchOutcome::Fetched => {
                self.completed = self.completed + 1;
            },
            FetchOutcome::WriteError => {
                self.failures.push(FetchFailure { item: task.item, error: FetchError::Write });
            },
            FetchOutcome::TransportError => {
                if task.attempts_made < self.retry_cap - 1 {
                    self.pending.push(FetchTask {
                        item: task.item,
                        attempts_made: task.attempts_made + 1,
                    });
                } else {
                    self.failures.push(FetchFailure {
                        item: task.item,
                        error: FetchError::Transport,
                    });
                }
            },
        }
    }

    /// Whether the session is over.
    pub fn is_done(&self) -> (r: bool)
        ensures
            r == self.done(),
    {
        self.pending.len() == 0 && self.in_flight == 0
    }

    /// How many items completed so far.
    pub fn completed_count(&self) -> (r: usize)
        ensures
            r == self.spec_completed(),
    {
        self.completed
    }

    /// The terminal failures recorded so far.
    pub fn failures(&self) -> (r: &Vec<FetchFailure>)
        ensures
            r@ == self.spec_failures(),
    {
        &self.failures
    }

    /// How many items the session was created with.
    pub fn total(&self) -> (r: usize)
        ensures
            r == self.spec_total(),
    {
        self.total
    }

    /// How many items have reached a terminal outcome, for progress display.
    pub fn settled_count(&self) -> (r: usize)
        requires
            self.wf(),
        ensures
            r == self.spec_completed() + self.spec_failures().len(),
    {
        self.completed + self.failures.len()
    }

    /// The delay to wait before retrying a task that has already failed
    /// `attempts_made` times: the base delay doubled per failed attempt,
    /// saturating instead of overflowing.
    pub fn backoff_delay_ms(&self, attempts_made: u32) -> (r: u64)
        ensures
            r == backoff_spec(self.spec_base_delay(), attempts_made as nat),
    {
        let mut d = self.base_delay_ms;
        let mut k: u32 = 0;
        while k < attempts_made
            invariant
                k <= attempts_made,
                d == backoff_spec(self.spec_base_delay(), k as nat),
            decreases attempts_made - k,
        {
            if d > u64::MAX / 2 {
                d = u64::MAX;
            } else {
                d = 2 * d;
            }
            k = k + 1;
        }
        d
    }

    /// Finishes the session: every item was attempted and is accounted for,
    /// so the completion count is exactly the total minus the enumerated
    /// failures.
    pub fn into_report(self) -> (r: FetchReport)
        requires
            self.wf(),
            self.done(),
        ensures
            r.completed_count == self.spec_completed(),
            r.failures@ == self.spec_failures(),
            r.completed_count + r.failures@.len() == self.spec_total(),
    {
        FetchReport { completed_count: self.completed, failures: self.failures }
    }
}

/// Once a session is done, every item of it has been attempted: completions
/// and terminal failures together account for the whole work list.
pub proof fn lemma_done_accounts_for_all(e: FetchEngine)
    requires
        e.wf(),
        e.done(),
    ensures
        e.spec_completed() + e.spec_failures().len() == e.spec_total(),
{
}

} // verus!
