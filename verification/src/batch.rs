//! Bookkeeping for one batch: which item starts next, and how many items may
//! be in flight at once.
//!
//! The driver asks `try_start` before it launches an item and calls `finish`
//! when an item ends, whatever its outcome. No item is launched otherwise, so
//! the bound proved here is the bound of the running program.

use vstd::prelude::*;
use crate::error::ErrorKind;

verus! {

/// The number of items that run at once unless the driver chooses otherwise.
pub const DEFAULT_LIMIT: usize = 20;

/// How one item ended.
#[derive(Clone, Copy, Debug, PartialEq, Eq, Structural)]
pub enum Outcome {
    /// The final file was written.
    Completed,
    /// Nothing had to be done, or the item's metadata never appeared.
    Skipped,
    /// The item was abandoned.
    Failed(ErrorKind),
}

/// What the driver tells the batch.
#[derive(Clone, Copy, Debug, PartialEq, Eq, Structural)]
pub enum BatchEvent {
    /// A request to launch the next item.
    Start,
    /// An item in flight has ended.
    Finish(Outcome),
}

/// The progress of a batch of `total` items, at most `limit` in flight.
#[derive(Clone, Copy, Debug, PartialEq, Eq, Structural)]
pub struct Batch {
    pub total: usize,
    pub limit: usize,
    pub started: usize,
    pub finished: usize,
    pub completed: usize,
    pub skipped: usize,
    pub failed: usize,
}

impl Batch {
    /// The batch before anything has started.
    pub open spec fn fresh(total: usize, limit: usize) -> Batch {
        Batch { total, limit, started: 0, finished: 0, completed: 0, skipped: 0, failed: 0 }
    }

    /// The counters agree with each other and the bound holds.
    pub open spec fn wf(self) -> bool {
        &&& self.finished <= self.started <= self.total
        &&& self.started - self.finished <= self.limit
        &&& self.completed + self.skipped + self.failed == self.finished
    }

    /// The number of items launched and not yet ended.
    pub open spec fn active(self) -> int {
        self.started - self.finished
    }

    /// An item is left and a slot is free.
    pub open spec fn may_start(self) -> bool {
        self.started < self.total && self.active() < self.limit
    }

    /// Every item has ended.
    pub open spec fn done(self) -> bool {
        self.finished == self.total
    }

    /// The batch after the next item was launched.
    pub open spec fn after_start(self) -> Batch {
        Batch { started: (self.started + 1) as usize, ..self }
    }

    /// The batch after an item in flight ended with `outcome`.
    pub open spec fn after_finish(self, outcome: Outcome) -> Batch {
        let b = Batch { finished: (self.finished + 1) as usize, ..self };
        match outcome {
            Outcome::Completed => Batch { completed: (self.completed + 1) as usize, ..b },
            Outcome::Skipped => Batch { skipped: (self.skipped + 1) as usize, ..b },
            Outcome::Failed(_) => Batch { failed: (self.failed + 1) as usize, ..b },
        }
    }

    /// The batch after one event. A start without a free slot or a remaining
    /// item, and a finish with nothing in flight, change nothing.
    pub open spec fn apply(self, event: BatchEvent) -> Batch {
        match event {
            BatchEvent::Start => if self.may_start() {
                self.after_start()
            } else {
                self
            },
            BatchEvent::Finish(outcome) => if self.active() > 0 {
                self.after_finish(outcome)
            } else {
                self
            },
        }
    }

    /// The batch after a sequence of events, applied in order.
    pub open spec fn run(self, events: Seq<BatchEvent>) -> Batch
        decreases events.len(),
    {
        if events.len() == 0 {
            self
        } else {
            self.run(events.drop_last()).apply(events.last())
        }
    }

    pub fn new(total: usize, limit: usize) -> (b: Batch)
        ensures
            b == Batch::fresh(total, limit),
            b.wf(),
    {
        Batch { total, limit, started: 0, finished: 0, completed: 0, skipped: 0, failed: 0 }
    }

    pub fn in_flight(&self) -> (n: usize)
        requires
            self.wf(),
        ensures
            n == self.active(),
            n <= self.limit,
    {
        self.started - self.finished
    }

    pub fn can_start(&self) -> (r: bool)
        requires
            self.wf(),
        ensures
            r == self.may_start(),
    {
        self.started < self.total && self.started - self.finished < self.limit
    }

    pub fn is_done(&self) -> (r: bool)
        ensures
            r == self.done(),
    {
        self.finished == self.total
    }

    /// Launches the next item where one is left and a slot is free, and
    /// returns its index in the input list.
    pub fn try_start(&mut self) -> (r: Option<usize>)
        requires
            old(self).wf(),
        ensures
            final(self).wf(),
            *final(self) == old(self).apply(BatchEvent::Start),
            old(self).may_start() ==> r == Some(old(self).started),
            !old(self).may_start() ==> r is None,
            final(self).active() <= final(self).limit,
    {
        if self.started < self.total && self.started - self.finished < self.limit {
            let index: usize = self.started;
            self.started = self.started + 1;
            Some(index)
        } else {
            None
        }
    }

    /// Records that an item in flight has ended. Returns false, and changes
    /// nothing, where no item is in flight.
    pub fn finish(&mut self, outcome: Outcome) -> (r: bool)
        requires
            old(self).wf(),
        ensures
            final(self).wf(),
            *final(self) == old(self).apply(BatchEvent::Finish(outcome)),
            r == (old(self).active() > 0),
    {
        if self.started - self.finished == 0 {
            return false;
        }
        self.finished = self.finished + 1;
        match outcome {
            Outcome::Completed => {
                self.completed = self.completed + 1;
            },
            Outcome::Skipped => {
                self.skipped = self.skipped + 1;
            },
            Outcome::Failed(_) => {
                self.failed = self.failed + 1;
            },
        }
        true
    }
}

/// One event keeps a well-formed batch well-formed, and its shape.
pub proof fn lemma_apply_keeps_wf(b: Batch, event: BatchEvent)
    requires
        b.wf(),
    ensures
        b.apply(event).wf(),
        b.apply(event).total == b.total,
        b.apply(event).limit == b.limit,
{
}

/// Whatever the driver does, in whatever order, no more than `limit` items
/// are ever in flight.
pub proof fn lemma_in_flight_bounded(total: usize, limit: usize, events: Seq<BatchEvent>)
    ensures
        Batch::fresh(total, limit).run(events).wf(),
        Batch::fresh(total, limit).run(events).limit == limit,
        Batch::fresh(total, limit).run(events).total == total,
        0 <= Batch::fresh(total, limit).run(events).active() <= limit,
    decreases events.len(),
{
    if events.len() > 0 {
        lemma_in_flight_bounded(total, limit, events.drop_last());
        lemma_apply_keeps_wf(Batch::fresh(total, limit).run(events.drop_last()), events.last());
    }
}

/// Two events are of one kind where both are starts or both are finishes.
pub open spec fn same_kind(a: BatchEvent, b: BatchEvent) -> bool {
    (a is Start) == (b is Start)
}

/// How the items end has no effect on which items run: two histories that
/// differ only in outcomes start and finish the same number of items. An
/// item that fails frees its slot as one that succeeds does.
pub proof fn lemma_outcomes_do_not_steer(b: Batch, first: Seq<BatchEvent>, second: Seq<BatchEvent>)
    requires
        b.wf(),
        first.len() == second.len(),
        forall|i: int| 0 <= i < first.len() ==> same_kind(#[trigger] first[i], second[i]),
    ensures
        b.run(first).started == b.run(second).started,
        b.run(first).finished == b.run(second).finished,
        b.run(first).may_start() == b.run(second).may_start(),
        b.run(first).done() == b.run(second).done(),
    decreases first.len(),
{
    if first.len() > 0 {
        lemma_outcomes_do_not_steer(b, first.drop_last(), second.drop_last());
        lemma_run_keeps_wf(b, first.drop_last());
        lemma_run_keeps_wf(b, second.drop_last());
        assert(same_kind(first[first.len() - 1], second[first.len() - 1]));
    }
}

/// A sequence of events keeps a well-formed batch well-formed.
pub proof fn lemma_run_keeps_wf(b: Batch, events: Seq<BatchEvent>)
    requires
        b.wf(),
    ensures
        b.run(events).wf(),
        b.run(events).total == b.total,
        b.run(events).limit == b.limit,
    decreases events.len(),
{
    if events.len() > 0 {
        lemma_run_keeps_wf(b, events.drop_last());
        lemma_apply_keeps_wf(b.run(events.drop_last()), events.last());
    }
}

/// A batch with a positive limit never stalls: while items remain, either one
/// can be launched or one is in flight and will end.
pub proof fn lemma_progress(b: Batch)
    requires
        b.wf(),
        b.limit > 0,
        !b.done(),
    ensures
        b.may_start() || b.active() > 0,
{
}

} // verus!
