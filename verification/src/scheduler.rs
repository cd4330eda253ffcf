//! The tick scheduler's decisions: which connections stay in the live set,
//! which tick results are reported, and how the loop paces itself.
//!
//! The scheduler owns the live connections and decides; the surrounding
//! program runs the loop, moves bytes between sockets and connections, and
//! sleeps for the durations computed here.

use crate::connection::{spec_tick, Connection, ConnectionV, State};
use crate::error::Error;
use vstd::prelude::*;

verus! {

use vstd::utf8::encode_utf8;

/// Tick period in milliseconds: 20 ticks per second.
pub const TICK_SLEEP_TIME: u64 = 1000 / 20;

/// What the scheduler does with a connection once its tick result is
/// classified.
#[derive(Debug, Clone, Copy, PartialEq, Eq, Structural)]
pub enum SchedulerAction {
    /// Keep the connection; nothing to report.
    Keep,
    /// Keep the connection, but surface the error for observability.
    KeepAndReport,
    /// Drop the connection from the live set on this tick.
    Evict,
}

/// The classification of one tick's outcome. Success and "no packet yet"
/// keep the connection quietly; the expected close and the timeout evict
/// it; every other error is kept but reported.
pub open spec fn spec_classify(r: Result<(), Error>) -> SchedulerAction {
    match r {
        Ok(_) => SchedulerAction::Keep,
        Err(Error::ConnectionAborted(_)) => SchedulerAction::Evict,
        Err(Error::TimedOut) => SchedulerAction::Evict,
        Err(Error::NoPacketToReceive) => SchedulerAction::Keep,
        Err(_) => SchedulerAction::KeepAndReport,
    }
}

/// Classifies one tick's outcome.
pub fn classify(r: &Result<(), Error>) -> (action: SchedulerAction)
    ensures
        action == spec_classify(*r),
{
    match r {
        Ok(_) => SchedulerAction::Keep,
        Err(Error::ConnectionAborted(..)) => SchedulerAction::Evict,
        Err(Error::TimedOut) => SchedulerAction::Evict,
        Err(Error::NoPacketToReceive) => SchedulerAction::Keep,
        Err(_) => SchedulerAction::KeepAndReport,
    }
}

/// Whether a connection enters the live set after its very first contact:
/// only an outright failure drops it; "no packet yet" is tolerated, the
/// peer simply has not sent its handshake.
pub open spec fn spec_keep_after_first_contact(r: Result<(), Error>) -> bool {
    match r {
        Ok(_) => true,
        Err(e) => e is NoPacketToReceive,
    }
}

/// Decides admission after a connection's first contact.
pub fn keep_after_first_contact(r: &Result<(), Error>) -> (keep: bool)
    ensures
        keep == spec_keep_after_first_contact(*r),
{
    match r {
        Ok(_) => true,
        Err(Error::NoPacketToReceive) => true,
        Err(_) => false,
    }
}

/// What one scheduled tick of one connection produced: the bytes to write
/// to its stream, whether it left the live set, and an error to report.
pub struct TickReport {
    pub output: Vec<u8>,
    pub evicted: bool,
    pub error: Option<Error>,
}

/// The live connection set and the loop's pacing debt.
pub struct Scheduler {
    connections: Vec<Connection>,
    sleep_subtract: u64,
}

impl Scheduler {
    /// The live connections, in scheduling order.
    pub closed spec fn spec_connections(&self) -> Seq<Connection> {
        self.connections@
    }

    /// The pacing debt carried from earlier passes, in milliseconds.
    pub closed spec fn spec_sleep_subtract(&self) -> u64 {
        self.sleep_subtract
    }

    /// An empty scheduler with no pacing debt.
    pub fn new() -> (r: Scheduler)
        ensures
            r.spec_connections() == Seq::<Connection>::empty(),
            r.spec_sleep_subtract() == 0,
    {
        Scheduler { connections: Vec::new(), sleep_subtract: 0 }
    }

    /// How many connections are live.
    pub fn connection_count(&self) -> (n: usize)
        ensures
            n == self.spec_connections().len(),
    {
        self.connections.len()
    }

    /// The protocol state of the connection at `idx`.
    pub fn connection_state(&self, idx: usize) -> (s: State)
        requires
            idx < self.spec_connections().len(),
        ensures
            s == self.spec_connections()[idx as int]@.state,
    {
        self.connections[idx].state()
    }

    /// The skipped-tick count of the connection at `idx`.
    pub fn connection_skipped_ticks(&self, idx: usize) -> (n: u32)
        requires
            idx < self.spec_connections().len(),
        ensures
            n == self.spec_connections()[idx as int]@.skipped_ticks,
    {
        self.connections[idx].skipped_ticks()
    }

    /// The pacing debt carried from earlier passes, in milliseconds.
    pub fn sleep_debt(&self) -> (n: u64)
        ensures
            n == self.spec_sleep_subtract(),
    {
        self.sleep_subtract
    }

    /// Adds a newly accepted connection at the end of the scheduling order.
    pub fn add_connection(&mut self, connection: Connection)
        ensures
            final(self).spec_connections() == old(self).spec_connections().push(connection),
            final(self).spec_sleep_subtract() == old(self).spec_sleep_subtract(),
    {
        self.connections.push(connection);
    }

    /// Runs one tick of the connection at `idx`: feeds it the bytes that
    /// arrived on its stream, attempts one protocol step, classifies the
    /// outcome, and evicts the connection if the classification says so.
    /// Evicted or not, the connection's response bytes come back in the
    /// report, to be written before an evicted connection is closed.
    pub fn tick_connection(&mut self, idx: usize, input: &[u8], status_json: &str) -> (report:
        TickReport)
        requires
            idx < old(self).spec_connections().len(),
            old(self).spec_connections()[idx as int]@.state !is Login,
            old(self).spec_connections()[idx as int]@.skipped_ticks < u32::MAX,
            encode_utf8(status_json@).len() + 32 <= usize::MAX,
        ensures
            final(self).spec_sleep_subtract() == old(self).spec_sleep_subtract(),
            ({
                let pre = old(self).spec_connections()[idx as int]@;
                let fed = ConnectionV {
                    inbound: pre.inbound + input@,
                    ..pre
                };
                let (post, result) = spec_tick(fed, status_json@);
                let ticked = ConnectionV { outbound: Seq::<u8>::empty(), ..post };
                let action = spec_classify(result);
                &&& report.output@ == post.outbound
                &&& report.evicted == (action is Evict)
                &&& report.error == (if action is KeepAndReport {
                    Some(match result {
                        Ok(_) => Error::TimedOut,
                        Err(e) => e,
                    })
                } else {
                    Option::<Error>::None
                })
                &&& action is Evict ==> final(self).spec_connections() == old(self).spec_connections().remove(idx as int)
                &&& action !is Evict ==> {
                    &&& final(self).spec_connections().len() == old(self).spec_connections().len()
                    &&& forall|j: int|
                        0 <= j < old(self).spec_connections().len() && j != idx ==> final(self).spec_connections()[j] == old(self).spec_connections()[j]
                    &&& final(self).spec_connections()[idx as int]@ == ticked
                }
            }),
    {
        let mut connection = self.connections.remove(idx);
        connection.feed(input);
        let result = connection.tick(status_json);
        let output = connection.take_outbound();
        let action = classify(&result);
        let evicted = action == SchedulerAction::Evict;
        if !evicted {
            self.connections.insert(idx, connection);
            proof {
                assert(self.connections@ =~= old(self).connections@.update(
                    idx as int,
                    self.connections@[idx as int],
                ));
            }
        }
        let error = if action == SchedulerAction::KeepAndReport {
            match result {
                Err(e) => Some(e),
                Ok(_) => None,
            }
        } else {
            None
        };
        TickReport { output, evicted, error }
    }

    /// Ends one pass over the connections: given the milliseconds the pass
    /// took, how long to sleep to hold the tick rate. A pass that overran
    /// the period sleeps nothing and carries the overage into the next
    /// period's accounting; the sleep is never negative.
    pub fn pass_sleep(&mut self, elapsed_ms: u64) -> (sleep: u64)
        requires
            old(self).spec_sleep_subtract() + elapsed_ms <= u64::MAX,
        ensures
            final(self).spec_connections() == old(self).spec_connections(),
            ({
                let spent = old(self).spec_sleep_subtract() + elapsed_ms;
                if spent >= TICK_SLEEP_TIME {
                    sleep == 0 && final(self).spec_sleep_subtract() == spent - TICK_SLEEP_TIME
                } else {
                    sleep == TICK_SLEEP_TIME - spent && final(self).spec_sleep_subtract() == 0
                }
            }),
    {
        let sleep_time = self.sleep_subtract + elapsed_ms;
        if sleep_time >= TICK_SLEEP_TIME {
            self.sleep_subtract = sleep_time - TICK_SLEEP_TIME;
            0
        } else {
            self.sleep_subtract = 0;
            TICK_SLEEP_TIME - sleep_time
        }
    }
}

} // verus!
