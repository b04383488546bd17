//! The values that pass between the sweep driver and the loop that runs
//! it: what happened, and what to do next.

use vstd::prelude::*;
use crate::plan::Protocol;
use crate::timing::Elapsed;

verus! {

/// One combination of the sweep: how many packets go out in one call, and
/// how many bytes each of them carries.
#[derive(Clone, Copy, Debug, PartialEq, Eq, Structural)]
pub struct SweepPoint {
    pub packets_per_call: usize,
    pub bytes_per_packet: usize,
}

impl SweepPoint {
    /// The bytes that one successful call sends.
    pub open spec fn bytes_per_call(self) -> nat {
        self.packets_per_call as nat * self.bytes_per_packet as nat
    }
}

/// Why a send attempt failed for good.
#[derive(Clone, Copy, Debug, PartialEq, Eq, Structural)]
pub enum SendFailure {
    /// The buffer at hand cannot hold the batch that was asked for.
    BufferTooSmall,
    /// The transport refused the send.
    Transmission,
}

/// How one send attempt ended.
#[derive(Clone, Copy, Debug, PartialEq, Eq, Structural)]
pub enum SendOutcome {
    /// The batch went out; the transport reports this many bytes sent.
    Success(usize),
    /// The transmit handle is no longer valid. Nothing was sent.
    StaleHandle,
    /// The attempt failed and cannot be tried again.
    Fatal(SendFailure),
}

/// What ended a run before its sweep was done.
#[derive(Clone, Copy, Debug, PartialEq, Eq, Structural)]
pub enum ErrorKind {
    /// A send attempt found its buffer too small.
    BufferTooSmall,
    /// A send attempt was refused by the transport.
    Transmission,
    /// The terminal did not take what was written to it.
    Output,
    /// A counter of the run cannot hold its next value.
    CounterOverflow,
    /// The driver was told of something that it had not asked for.
    UnexpectedEvent,
}

/// Where in the sweep a run was when it ended early.
#[derive(Clone, Copy, Debug, PartialEq, Eq, Structural)]
pub enum Position {
    /// No sweep point was open.
    Outside,
    /// This sweep point was open.
    At(SweepPoint),
}

/// An error that ends a run, with the backend and the place in the sweep.
#[derive(Clone, Copy, Debug, PartialEq, Eq, Structural)]
pub struct BenchError {
    pub kind: ErrorKind,
    pub protocol: Protocol,
    pub position: Position,
}

/// What the loop around the driver reports to it.
#[derive(Clone, Copy, Debug, PartialEq, Eq, Structural)]
pub enum Event {
    /// The run begins.
    Start,
    /// The send attempt that was asked for has ended.
    Sent(SendOutcome),
    /// A fresh transmit handle has taken the place of the stale one.
    HandleReplaced,
    /// The time since the current sweep point was opened.
    Elapsed(Elapsed),
    /// Writing the last output to the terminal failed.
    OutputFailed,
}

/// What the driver asks the loop around it to do next, once the output of
/// the step is written.
#[derive(Clone, Copy, Debug, PartialEq, Eq, Structural)]
pub enum Action {
    /// Start a fresh timer, and attempt the first send of this sweep point.
    Open(SweepPoint),
    /// Attempt one more send at this sweep point.
    Send(SweepPoint),
    /// Replace the stale transmit handle by a fresh one.
    Reacquire,
    /// Read the time since the current sweep point was opened.
    ReadClock,
    /// The sweep is done; this many stale handles were replaced.
    Finish(usize),
    /// The run has failed.
    Abort(BenchError),
}

/// Where the driver stands.
#[derive(Clone, Copy, Debug, PartialEq, Eq, Structural)]
pub enum Phase {
    /// Not started.
    Ready,
    /// A send attempt is under way.
    Sending,
    /// The transmit handle is being replaced.
    Reacquiring,
    /// The clock is being read.
    Timing,
    /// The sweep is done.
    Finished,
    /// The run has failed with this error.
    Aborted(BenchError),
}

/// The counters of one sweep point.
#[derive(Clone, Copy, Debug, PartialEq, Eq, Structural)]
pub struct RunAccumulator {
    /// Packets sent at this sweep point so far.
    pub packets: usize,
    /// Bytes sent at this sweep point so far.
    pub bytes: usize,
    /// The whole second at which statistics are next due.
    pub next_print_second: u128,
}

impl RunAccumulator {
    /// The counters of a sweep point at which nothing was sent yet.
    pub open spec fn fresh() -> RunAccumulator {
        RunAccumulator { packets: 0, bytes: 0, next_print_second: 1 }
    }

    /// Whether the counters can take one more successful call at `point`.
    pub open spec fn has_room(self, point: SweepPoint) -> bool {
        &&& self.packets + point.packets_per_call <= usize::MAX
        &&& self.bytes + point.bytes_per_call() <= usize::MAX
    }

    /// The counters after one more successful call at `point`.
    pub open spec fn after_success(self, point: SweepPoint) -> RunAccumulator {
        RunAccumulator {
            packets: (self.packets + point.packets_per_call) as usize,
            bytes: (self.bytes + point.bytes_per_call()) as usize,
            next_print_second: self.next_print_second,
        }
    }

    /// Whether statistics are due once `elapsed` has passed.
    pub open spec fn due(self, elapsed: Elapsed) -> bool {
        elapsed.whole_secs() >= self.next_print_second
    }

    /// The counters once statistics were rendered.
    pub open spec fn after_render(self) -> RunAccumulator {
        RunAccumulator {
            packets: self.packets,
            bytes: self.bytes,
            next_print_second: (self.next_print_second + 1) as u128,
        }
    }

    /// Fresh counters.
    pub fn new() -> (accumulator: RunAccumulator)
        ensures
            accumulator == RunAccumulator::fresh(),
    {
        RunAccumulator { packets: 0, bytes: 0, next_print_second: 1 }
    }

    /// Counts one successful call at `point`, unless a counter cannot hold
    /// the sum: the counters then stay as they are and the result is
    /// `false`.
    pub fn record_success(&mut self, point: SweepPoint) -> (counted: bool)
        ensures
            counted == old(self).has_room(point),
            counted ==> *final(self) == old(self).after_success(point),
            !counted ==> *final(self) == *old(self),
    {
        let per_call = point.packets_per_call.checked_mul(point.bytes_per_packet);
        match per_call {
            Some(bytes_per_call) => {
                let packets = self.packets.checked_add(point.packets_per_call);
                let bytes = self.bytes.checked_add(bytes_per_call);
                match (packets, bytes) {
                    (Some(p), Some(b)) => {
                        self.packets = p;
                        self.bytes = b;
                        true
                    },
                    _ => false,
                }
            },
            None => false,
        }
    }

    /// Whether statistics are due once `elapsed` has passed.
    pub fn is_due(&self, elapsed: Elapsed) -> (b: bool)
        ensures
            b == self.due(elapsed),
    {
        elapsed.whole_secs() >= self.next_print_second
    }

    /// Moves the second at which statistics are next due on by one.
    pub fn mark_rendered(&mut self)
        requires
            old(self).next_print_second < u128::MAX,
        ensures
            *final(self) == old(self).after_render(),
    {
        self.next_print_second = self.next_print_second + 1;
    }
}

} // verus!
