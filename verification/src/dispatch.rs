//! The order in which one cycle's results go to the sinks, and what becomes
//! of a sink that fails: every alert is notified, then the record is stored,
//! then it is logged. A notification or a log line that cannot be delivered
//! is passed over; a record that cannot be stored is reported when the cycle
//! ends, and the cycle ends all the same.

use vstd::prelude::*;

verus! {

/// What a sink did with the last delivery.
#[derive(Clone, Copy, Debug, PartialEq, Eq)]
pub enum SinkResult {
    Delivered,
    Failed,
}

/// What goes to a sink next.
#[derive(Clone, Copy, Debug, PartialEq, Eq)]
pub enum Delivery {
    /// Notify the alert with this index.
    Notify(usize),
    /// Store the record.
    Persist,
    /// Log the record, saying whether it was stored.
    Log { stored: bool },
    /// Nothing is left; `stored` tells whether the record reached the store.
    Finished { stored: bool },
}

/// How far the deliveries of a cycle have come.
#[derive(Clone, Copy, Debug, PartialEq, Eq)]
pub enum Progress {
    /// Nothing was delivered yet.
    Start,
    /// The alert with this index was the last delivery.
    Notified(usize),
    /// The record was the last delivery.
    Persisted,
    /// The log block was the last delivery.
    Logged,
    /// The cycle is over.
    Done,
}

/// The dispatcher of one cycle: how many alerts the cycle raised, how far
/// their delivery has come, and whether the record was stored.
#[derive(Clone, Copy, Debug, PartialEq, Eq)]
pub struct Dispatch {
    pub alerts: usize,
    pub progress: Progress,
    pub stored: bool,
}

impl Dispatch {
    /// The progress is one that a cycle with this many alerts can reach.
    pub open spec fn wf(self) -> bool {
        self.progress matches Progress::Notified(i) ==> i < self.alerts
    }

    /// How many deliveries are still to come, the final report included.
    pub open spec fn remaining(self) -> nat {
        match self.progress {
            Progress::Start => (self.alerts + 3) as nat,
            Progress::Notified(i) => (self.alerts - i + 2) as nat,
            Progress::Persisted => 2,
            Progress::Logged => 1,
            Progress::Done => 0,
        }
    }

    /// The delivery that follows, given what the sink did with the last one.
    /// Only the store's answer matters: it decides what the log and the
    /// final report say.
    pub open spec fn spec_step(self, last: SinkResult) -> (Dispatch, Delivery) {
        match self.progress {
            Progress::Start => if self.alerts > 0 {
                (Dispatch { progress: Progress::Notified(0), ..self }, Delivery::Notify(0))
            } else {
                (Dispatch { progress: Progress::Persisted, ..self }, Delivery::Persist)
            },
            Progress::Notified(i) => if i + 1 < self.alerts {
                (
                    Dispatch { progress: Progress::Notified((i + 1) as usize), ..self },
                    Delivery::Notify((i + 1) as usize),
                )
            } else {
                (Dispatch { progress: Progress::Persisted, ..self }, Delivery::Persist)
            },
            Progress::Persisted => {
                let stored = last == SinkResult::Delivered;
                (
                    Dispatch { progress: Progress::Logged, stored, ..self },
                    Delivery::Log { stored },
                )
            },
            Progress::Logged => (
                Dispatch { progress: Progress::Done, ..self },
                Delivery::Finished { stored: self.stored },
            ),
            Progress::Done => (self, Delivery::Finished { stored: self.stored }),
        }
    }

    /// The dispatcher of a cycle that raised `alerts` alerts.
    pub fn new(alerts: usize) -> (d: Dispatch)
        ensures
            d == (Dispatch { alerts, progress: Progress::Start, stored: false }),
            d.wf(),
    {
        Dispatch { alerts, progress: Progress::Start, stored: false }
    }

    /// Takes the sink's answer to the last delivery and names the next one.
    /// The first call has no delivery to answer for, and its argument is
    /// ignored.
    pub fn step(self, last: SinkResult) -> (r: (Dispatch, Delivery))
        requires
            self.wf(),
        ensures
            r == self.spec_step(last),
            r.0.wf(),
            r.0.alerts == self.alerts,
            r.1 matches Delivery::Notify(i) ==> i < self.alerts,
            self.remaining() > 0 ==> r.0.remaining() == self.remaining() - 1,
    {
        match self.progress {
            Progress::Start => {
                if self.alerts > 0 {
                    (
                        Dispatch {
                            alerts: self.alerts,
                            progress: Progress::Notified(0),
                            stored: self.stored,
                        },
                        Delivery::Notify(0),
                    )
                } else {
                    (
                        Dispatch {
                            alerts: self.alerts,
                            progress: Progress::Persisted,
                            stored: self.stored,
                        },
                        Delivery::Persist,
                    )
                }
            },
            Progress::Notified(i) => {
                if i + 1 < self.alerts {
                    (
                        Dispatch {
                            alerts: self.alerts,
                            progress: Progress::Notified(i + 1),
                            stored: self.stored,
                        },
                        Delivery::Notify(i + 1),
                    )
                } else {
                    (
                        Dispatch {
                            alerts: self.alerts,
                            progress: Progress::Persisted,
                            stored: self.stored,
                        },
                        Delivery::Persist,
                    )
                }
            },
            Progress::Persisted => {
                let stored: bool = match last {
                    SinkResult::Delivered => true,
                    SinkResult::Failed => false,
                };
                (
                    Dispatch { alerts: self.alerts, progress: Progress::Logged, stored },
                    Delivery::Log { stored },
                )
            },
            Progress::Logged => (
                Dispatch { alerts: self.alerts, progress: Progress::Done, stored: self.stored },
                Delivery::Finished { stored: self.stored },
            ),
            Progress::Done => (self, Delivery::Finished { stored: self.stored }),
        }
    }

    /// Whether the progress is one that a cycle with this many alerts can reach.
    pub fn is_well_formed(&self) -> (r: bool)
        ensures
            r == self.wf(),
    {
        match self.progress {
            Progress::Notified(i) => i < self.alerts,
            _ => true,
        }
    }
}

/// The state after the sinks answered `results` in turn, from the first
/// delivery on.
pub open spec fn run(d: Dispatch, results: Seq<SinkResult>) -> Dispatch
    decreases results.len(),
{
    if results.len() == 0 {
        d
    } else {
        run(d, results.drop_last()).spec_step(results.last()).0
    }
}

/// No sink can hold a cycle up: whatever the sinks answer, a cycle with `n`
/// alerts is over after `n + 3` steps, and every step until then brings it
/// one delivery closer.
pub proof fn lemma_cycle_ends(d: Dispatch, results: Seq<SinkResult>)
    requires
        d.wf(),
    ensures
        run(d, results).wf(),
        run(d, results).alerts == d.alerts,
        run(d, results).remaining() == if results.len() <= d.remaining() {
            d.remaining() - results.len()
        } else {
            0
        },
        results.len() >= d.remaining() ==> run(d, results).progress == Progress::Done,
    decreases results.len(),
{
    if results.len() > 0 {
        lemma_cycle_ends(d, results.drop_last());
    }
}

/// Only the store decides whether a cycle counts as stored: the answers of
/// the notification sink and of the log change neither the deliveries nor
/// the report.
pub proof fn lemma_only_the_store_matters(d: Dispatch, a: SinkResult, b: SinkResult)
    requires
        d.wf(),
        d.progress != Progress::Persisted,
    ensures
        d.spec_step(a) == d.spec_step(b),
{
}

/// A record that could not be stored is reported as such when the cycle
/// ends, and one that was stored is reported as stored.
pub proof fn lemma_store_failure_is_reported(d: Dispatch, answer: SinkResult, later: SinkResult)
    requires
        d.wf(),
        d.progress == Progress::Persisted,
    ensures
        d.spec_step(answer).1 == (Delivery::Log { stored: answer == SinkResult::Delivered }),
        d.spec_step(answer).0.spec_step(later).1 == (Delivery::Finished {
            stored: answer == SinkResult::Delivered,
        }),
{
}

} // verus!
