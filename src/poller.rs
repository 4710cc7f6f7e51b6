//! The decisions of the background poller. The task that runs it fetches,
//! hands the outcome to `Poller::step`, sends what the step publishes and
//! sleeps for the time it gives, until its owner cancels it.

use vstd::prelude::*;

use crate::decimal::{decimal, decimal_string};
use crate::error::Error;
use crate::summary::SimpleSummary;
use crate::ticker::{interval_or_default, WickeTick};

verus! {

/// The state of a poller: how many snapshots it has published and how long
/// it sleeps between two fetches.
#[derive(Debug, Clone, Copy, PartialEq, Eq, Structural)]
pub struct Poller {
    pub loop_count: u64,
    /// Seconds between two fetches.
    pub interval: u64,
}

/// What the poller does after one fetch.
#[derive(Debug)]
pub struct PollStep {
    /// The snapshot to send to the render loop.
    pub publish: Option<SimpleSummary>,
    /// The failure to report; the poller goes on.
    pub failure: Option<Error>,
    /// Seconds to sleep before the next fetch.
    pub sleep: u64,
}

/// The note that marks the snapshot published as number `n`, counted from 0:
/// `(Ticks: <n>)`.
pub open spec fn tick_label(n: nat) -> Seq<char> {
    "(Ticks: "@ + decimal(n) + ")"@
}

/// The count after one more snapshot is published; it stays at its largest
/// value once there.
pub open spec fn next_count(n: u64) -> u64 {
    if n < u64::MAX {
        (n + 1) as u64
    } else {
        n
    }
}

impl Poller {
    /// The poller of a ticker: nothing published yet, the ticker's interval
    /// between fetches, thirty seconds where the ticker has none.
    pub fn new(ticker: &WickeTick) -> (r: Self)
        ensures
            r.loop_count == 0,
            r.interval == interval_or_default(ticker.poll_interval),
    {
        let interval = match ticker.poll_interval {
            Some(t) => t,
            None => crate::ticker::DEFAULT_POLL_INTERVAL_SECS,
        };
        Self { loop_count: 0, interval }
    }

    /// Takes in the outcome of one fetch. A snapshot is published, marked
    /// with the number of snapshots published before it; a failure is handed
    /// out to be reported and nothing is published. Either way the poller
    /// then sleeps for its interval.
    pub fn step(&mut self, fetched: Result<SimpleSummary, Error>) -> (r: PollStep)
        ensures
            r.sleep == old(self).interval,
            final(self).interval == old(self).interval,
            match fetched {
                Ok(s) => {
                    &&& final(self).loop_count == next_count(old(self).loop_count)
                    &&& r.failure is None
                    &&& r.publish matches Some(p) && p.current_innings == s.current_innings
                        && p.active_players == s.active_players && p.debug_string@ == tick_label(
                        old(self).loop_count as nat,
                    )
                },
                Err(e) => {
                    &&& final(self).loop_count == old(self).loop_count
                    &&& r.failure == Some(e)
                    &&& r.publish is None
                },
            },
    {
        match fetched {
            Ok(mut summary) => {
                let mut label = String::from_str("(Ticks: ");
                label.append(decimal_string(self.loop_count).as_str());
                label.append(")");
                summary.debug_string = label;
                if self.loop_count < u64::MAX {
                    self.loop_count = self.loop_count + 1;
                }
                PollStep { publish: Some(summary), failure: None, sleep: self.interval }
            },
            Err(e) => PollStep { publish: None, failure: Some(e), sleep: self.interval },
        }
    }
}

} // verus!
