//! The retry protocol that obtains a post's metadata.
//!
//! The driver performs what `pending` asks for (a query of the site, a sleep,
//! a round trip to the resolver) and reports the result through one of the
//! `on_` methods. A report that does not fit the current stage changes
//! nothing.

use vstd::prelude::*;
use vstd::arithmetic::power2::lemma2_to64;
use crate::error::ErrorKind;
use crate::calendar::{format_instant, formatted_instant};
use crate::decimal::{decimal_i64, parse_i64};
use crate::post_info::{
    backoff_seconds, date_layout, delay, distinct_ids, first_entry, locate_entry, numeric_segment,
    post_id,
    StateEntry, Timestamp, VideoInfo, MAX_ATTEMPTS, OFFSET_HOURS,
};

verus! {

/// Where the protocol stands.
#[derive(Clone, Copy, Debug, PartialEq, Eq, Structural)]
pub enum FetchStage {
    /// The site is to be queried.
    Querying,
    /// The item was missing; the driver is to sleep.
    Sleeping,
    /// The metadata is known; the resolver is to be asked.
    Resolving,
    /// The metadata and the address are known.
    Ready,
    /// The item stayed missing through every attempt.
    GaveUp,
    /// The item was abandoned.
    Failed(ErrorKind),
}

/// What the driver is to do next.
#[derive(Clone, Copy, Debug, PartialEq, Eq, Structural)]
pub enum FetchAction {
    Query,
    /// Sleep for this many seconds.
    Sleep(u64),
    Resolve,
    Stop,
}

/// The stage after a query that did not find the item.
pub open spec fn stage_after_missing(stage: FetchStage) -> FetchStage {
    if stage is Querying {
        FetchStage::Sleeping
    } else {
        stage
    }
}

/// The stage and the attempt count after a sleep.
pub open spec fn after_sleep(stage: FetchStage, attempt: u32) -> (FetchStage, u32) {
    if stage is Sleeping && attempt < MAX_ATTEMPTS {
        if attempt + 1 == MAX_ATTEMPTS {
            (FetchStage::GaveUp, (attempt + 1) as u32)
        } else {
            (FetchStage::Querying, (attempt + 1) as u32)
        }
    } else {
        (stage, attempt)
    }
}

/// An upper bound on the reports that can still fit: it falls with every
/// report that fits the stage, so no post keeps the driver busy for ever.
pub open spec fn budget(stage: FetchStage, attempt: u32) -> nat {
    match stage {
        FetchStage::Querying => if attempt < MAX_ATTEMPTS {
            (2 * (MAX_ATTEMPTS - attempt) + 2) as nat
        } else {
            2
        },
        FetchStage::Sleeping => if attempt < MAX_ATTEMPTS {
            (2 * (MAX_ATTEMPTS - attempt) + 1) as nat
        } else {
            1
        },
        FetchStage::Resolving => 1,
        _ => 0,
    }
}

/// A missing item, the sleep after it and a found item each use up some of
/// the budget, and a post that is ready or given up has none left.
pub proof fn lemma_budget_falls(stage: FetchStage, attempt: u32)
    requires
        attempt < MAX_ATTEMPTS,
    ensures
        budget(FetchStage::Querying, 0) == 12,
        stage is Querying ==> budget(stage_after_missing(stage), attempt) < budget(stage, attempt),
        stage is Sleeping ==> budget(after_sleep(stage, attempt).0, after_sleep(stage, attempt).1)
            < budget(stage, attempt),
        stage is Querying ==> budget(FetchStage::Resolving, attempt) < budget(stage, attempt),
        budget(FetchStage::Ready, attempt) == 0 && budget(FetchStage::GaveUp, attempt) == 0,
{
}

/// The stage and the attempt count after `failures` queries in a row that
/// did not find the item, each followed by its sleep.
pub open spec fn after_failures(failures: nat) -> (FetchStage, u32)
    decreases failures,
{
    if failures == 0 {
        (FetchStage::Querying, 0u32)
    } else {
        let before = after_failures((failures - 1) as nat);
        after_sleep(stage_after_missing(before.0), before.1)
    }
}

/// The delays after the five attempts are 1, 2, 4, 8 and 16 seconds. After
/// fewer than five failures the site is queried again; after the fifth the
/// item is given up, which is no failure.
pub proof fn lemma_backoff_schedule()
    ensures
        delay(0) == 1,
        delay(1) == 2,
        delay(2) == 4,
        delay(3) == 8,
        delay(4) == 16,
        forall|n: nat| n < 5 ==> #[trigger] after_failures(n) == (FetchStage::Querying, n as u32),
        after_failures(5) == (FetchStage::GaveUp, 5u32),
{
    lemma2_to64();
    reveal_with_fuel(after_failures, 6);
    assert forall|n: nat| n < 5 implies #[trigger] after_failures(n) == (
        FetchStage::Querying,
        n as u32,
    ) by {
        if n == 0 {
        } else if n == 1 {
        } else if n == 2 {
        } else if n == 3 {
        } else {
        }
    }
}

/// The progress of one post through the protocol.
#[derive(Debug)]
pub struct InfoFetch {
    pub url: String,
    pub id: String,
    /// The number of queries that did not find the item.
    pub attempt: u32,
    pub stage: FetchStage,
    pub seconds: i64,
    pub date: String,
    pub author: String,
    pub download_url: String,
}

impl InfoFetch {
    pub open spec fn wf(self) -> bool {
        &&& self.attempt <= MAX_ATTEMPTS
        &&& (self.stage is Querying || self.stage is Sleeping) ==> self.attempt < MAX_ATTEMPTS
        &&& (self.stage is Resolving || self.stage is Ready) ==> formatted_instant(
            self.seconds,
            OFFSET_HOURS,
            0,
            0,
            date_layout(),
        ) == Some(self.date@)
    }

    /// Nothing more will be asked of the driver.
    pub open spec fn finished(self) -> bool {
        self.stage is Ready || self.stage is GaveUp || self.stage is Failed
    }

    /// What the current stage asks of the driver.
    pub open spec fn awaited(self) -> FetchAction {
        match self.stage {
            FetchStage::Querying => FetchAction::Query,
            FetchStage::Sleeping => FetchAction::Sleep(delay(self.attempt as nat) as u64),
            FetchStage::Resolving => FetchAction::Resolve,
            _ => FetchAction::Stop,
        }
    }

    /// The two values are of one post and hold the same metadata.
    pub open spec fn same_data(self, other: InfoFetch) -> bool {
        &&& self.url@ == other.url@
        &&& self.id@ == other.id@
        &&& self.seconds == other.seconds
        &&& self.date@ == other.date@
        &&& self.author@ == other.author@
        &&& self.download_url@ == other.download_url@
    }

    /// Starts the protocol for the post at `url`. A `url` that does not end in
    /// a `/` and digits has no id and is refused.
    pub fn new(url: &str) -> (r: Result<InfoFetch, ErrorKind>)
        ensures
            match r {
                Ok(f) => {
                    &&& numeric_segment(url@) == Some(f.id@)
                    &&& f.url@ == url@
                    &&& f.attempt == 0
                    &&& f.stage == FetchStage::Querying
                    &&& f.wf()
                },
                Err(kind) => kind == ErrorKind::ProtocolMismatch && numeric_segment(url@) is None,
            },
    {
        match post_id(url) {
            Some(id) => Ok(
                InfoFetch {
                    url: url.to_owned(),
                    id,
                    attempt: 0,
                    stage: FetchStage::Querying,
                    seconds: 0,
                    date: String::new(),
                    author: String::new(),
                    download_url: String::new(),
                },
            ),
            None => Err(ErrorKind::ProtocolMismatch),
        }
    }

    /// What the driver is to do next.
    pub fn pending(&self) -> (r: FetchAction)
        requires
            self.wf(),
        ensures
            r == self.awaited(),
    {
        match self.stage {
            FetchStage::Querying => FetchAction::Query,
            FetchStage::Sleeping => FetchAction::Sleep(backoff_seconds(self.attempt)),
            FetchStage::Resolving => FetchAction::Resolve,
            _ => FetchAction::Stop,
        }
    }

    pub fn is_finished(&self) -> (r: bool)
        ensures
            r == self.finished(),
    {
        match self.stage {
            FetchStage::Ready => true,
            FetchStage::GaveUp => true,
            FetchStage::Failed(_) => true,
            _ => false,
        }
    }

    /// The query did not find the item: a sleep follows.
    pub fn on_missing(&mut self)
        requires
            old(self).wf(),
        ensures
            final(self).wf(),
            final(self).stage == stage_after_missing(old(self).stage),
            final(self).attempt == old(self).attempt,
            final(self).same_data(*old(self)),
    {
        if let FetchStage::Querying = self.stage {
            self.stage = FetchStage::Sleeping;
        }
    }

    /// The sleep is over: the site is queried again, unless this was the last
    /// attempt.
    pub fn on_slept(&mut self)
        requires
            old(self).wf(),
        ensures
            final(self).wf(),
            (final(self).stage, final(self).attempt) == after_sleep(
                old(self).stage,
                old(self).attempt,
            ),
            final(self).same_data(*old(self)),
    {
        if let FetchStage::Sleeping = self.stage {
            self.attempt = self.attempt + 1;
            if self.attempt == MAX_ATTEMPTS {
                self.stage = FetchStage::GaveUp;
            } else {
                self.stage = FetchStage::Querying;
            }
        }
    }

    /// The query found the item, by `author`. `seconds` is its creation time
    /// where that was a number, `date` its calendar date where the time is
    /// one that the calendar knows. With both, the resolver is asked next;
    /// without, the item is abandoned.
    pub fn on_found(&mut self, author: &str, seconds: Option<i64>, date: Option<String>)
        requires
            old(self).wf(),
            seconds is Some && date is Some ==> formatted_instant(
                seconds->0,
                OFFSET_HOURS,
                0,
                0,
                date_layout(),
            ) == Some(date->0@),
        ensures
            final(self).wf(),
            final(self).url@ == old(self).url@,
            final(self).id@ == old(self).id@,
            final(self).attempt == old(self).attempt,
            final(self).download_url@ == old(self).download_url@,
            old(self).stage is Querying && seconds is Some && date is Some ==> {
                &&& final(self).stage == FetchStage::Resolving
                &&& final(self).seconds == seconds->0
                &&& final(self).date@ == date->0@
                &&& final(self).author@ == author@
            },
            old(self).stage is Querying && !(seconds is Some && date is Some) ==> {
                &&& final(self).stage == FetchStage::Failed(ErrorKind::ProtocolMismatch)
                &&& final(self).same_data(*old(self))
            },
            !(old(self).stage is Querying) ==> {
                &&& final(self).stage == old(self).stage
                &&& final(self).same_data(*old(self))
            },
    {
        if let FetchStage::Querying = self.stage {
            match (seconds, date) {
                (Some(s), Some(d)) => {
                    self.seconds = s;
                    self.date = d;
                    self.author = author.to_owned();
                    self.stage = FetchStage::Resolving;
                },
                _ => {
                    self.stage = FetchStage::Failed(ErrorKind::ProtocolMismatch);
                },
            }
        }
    }

    /// The query returned the state blob's items, each id once. The item of
    /// this post is looked up: where it is missing a sleep follows; where it
    /// is there, its creation time is read and its date computed, and the
    /// resolver is asked next.
    pub fn on_state(&mut self, entries: &Vec<StateEntry>)
        requires
            old(self).wf(),
            distinct_ids(entries@),
        ensures
            final(self).wf(),
            final(self).url@ == old(self).url@,
            final(self).id@ == old(self).id@,
            final(self).attempt == old(self).attempt,
            final(self).download_url@ == old(self).download_url@,
            !(old(self).stage is Querying) ==> {
                &&& final(self).stage == old(self).stage
                &&& final(self).same_data(*old(self))
            },
            old(self).stage is Querying ==> match first_entry(entries@, old(self).id@) {
                None => final(self).stage == FetchStage::Sleeping && final(self).same_data(
                    *old(self),
                ),
                Some(i) => match decimal_i64(entries@[i].create_time@) {
                    None => final(self).stage == FetchStage::Failed(ErrorKind::ProtocolMismatch)
                        && final(self).same_data(*old(self)),
                    Some(s) => match formatted_instant(s, OFFSET_HOURS, 0, 0, date_layout()) {
                        None => final(self).stage == FetchStage::Failed(
                            ErrorKind::ProtocolMismatch,
                        ) && final(self).same_data(*old(self)),
                        Some(d) => {
                            &&& final(self).stage == FetchStage::Resolving
                            &&& final(self).seconds == s
                            &&& final(self).date@ == d
                            &&& final(self).author@ == entries@[i].author@
                        },
                    },
                },
            },
    {
        if let FetchStage::Querying = self.stage {
            match locate_entry(entries, &self.id) {
                Err(_) => {
                    self.on_missing();
                },
                Ok(i) => {
                    let seconds = parse_i64(entries[i].create_time.as_str());
                    let date = match seconds {
                        Some(s) => format_instant(s, OFFSET_HOURS, 0, 0, "[year][month][day]"),
                        None => None,
                    };
                    self.on_found(entries[i].author.as_str(), seconds, date);
                },
            }
        }
    }

    /// The resolver answered: with an address the metadata is complete, with
    /// an error the item is abandoned.
    pub fn on_resolved(&mut self, answer: Result<String, ErrorKind>)
        requires
            old(self).wf(),
        ensures
            final(self).wf(),
            final(self).url@ == old(self).url@,
            final(self).id@ == old(self).id@,
            final(self).attempt == old(self).attempt,
            final(self).seconds == old(self).seconds,
            final(self).date@ == old(self).date@,
            final(self).author@ == old(self).author@,
            old(self).stage is Resolving ==> match answer {
                Ok(address) => final(self).stage == FetchStage::Ready
                    && final(self).download_url@ == address@,
                Err(kind) => final(self).stage == FetchStage::Failed(kind)
                    && final(self).download_url@ == old(self).download_url@,
            },
            !(old(self).stage is Resolving) ==> {
                &&& final(self).stage == old(self).stage
                &&& final(self).download_url@ == old(self).download_url@
            },
    {
        if let FetchStage::Resolving = self.stage {
            match answer {
                Ok(address) => {
                    self.download_url = address;
                    self.stage = FetchStage::Ready;
                },
                Err(kind) => {
                    self.stage = FetchStage::Failed(kind);
                },
            }
        }
    }

    /// A request failed: the item is abandoned, unless the protocol had
    /// already ended.
    pub fn on_error(&mut self, kind: ErrorKind)
        requires
            old(self).wf(),
        ensures
            final(self).wf(),
            final(self).attempt == old(self).attempt,
            final(self).same_data(*old(self)),
            final(self).stage == if old(self).finished() {
                old(self).stage
            } else {
                FetchStage::Failed(kind)
            },
    {
        if !self.is_finished() {
            self.stage = FetchStage::Failed(kind);
        }
    }

    /// What the protocol came to: the error of an abandoned post, the
    /// metadata of a resolved one, and no metadata for a post that was given
    /// up, which is no error, or whose protocol has not ended.
    pub fn into_result(self) -> (r: Result<Option<VideoInfo>, ErrorKind>)
        requires
            self.wf(),
        ensures
            match self.stage {
                FetchStage::Failed(kind) => r == Err::<Option<VideoInfo>, ErrorKind>(kind),
                FetchStage::Ready => {
                    &&& r is Ok
                    &&& r->Ok_0 is Some
                    &&& r->Ok_0->0.wf()
                    &&& r->Ok_0->0.id@ == self.id@
                    &&& r->Ok_0->0.created_at.unix_seconds == self.seconds
                    &&& r->Ok_0->0.date@ == self.date@
                    &&& r->Ok_0->0.author@ == self.author@
                    &&& r->Ok_0->0.download_url@ == self.download_url@
                },
                _ => r == Ok::<Option<VideoInfo>, ErrorKind>(None),
            },
    {
        match self.stage {
            FetchStage::Failed(kind) => Err(kind),
            _ => Ok(self.into_info()),
        }
    }

    /// The metadata, where the protocol has reached `Ready`.
    pub fn into_info(self) -> (r: Option<VideoInfo>)
        requires
            self.wf(),
        ensures
            r is Some <==> self.stage is Ready,
            match r {
                Some(info) => {
                    &&& info.wf()
                    &&& info.id@ == self.id@
                    &&& info.created_at.unix_seconds == self.seconds
                    &&& info.date@ == self.date@
                    &&& info.author@ == self.author@
                    &&& info.download_url@ == self.download_url@
                },
                None => true,
            },
    {
        match self.stage {
            FetchStage::Ready => Some(
                VideoInfo {
                    id: self.id,
                    created_at: Timestamp {
                        unix_seconds: self.seconds,
                        nanosecond: 0,
                        offset_hours: OFFSET_HOURS,
                    },
                    date: self.date,
                    author: self.author,
                    download_url: self.download_url,
                },
            ),
            _ => None,
        }
    }
}

} // verus!
