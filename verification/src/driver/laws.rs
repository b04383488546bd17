//! What holds of every run, proved of the model that the driver follows.

use vstd::prelude::*;
use crate::driver::model::kind_of;
use crate::driver::model::DriverState;
use crate::driver::types::Action;
use crate::driver::types::ErrorKind;
use crate::driver::types::Event;
use crate::driver::types::Phase;
use crate::driver::types::RunAccumulator;
use crate::driver::types::SendFailure;
use crate::driver::types::SendOutcome;
use crate::progress::frame;
use crate::progress::statistics_text;
use crate::timing::Elapsed;

verus! {

/// The state that a run is in after the events were reported one by one.
pub open spec fn run(state: DriverState, events: Seq<Event>) -> DriverState
    decreases events.len(),
{
    if events.len() == 0 {
        state
    } else {
        run(state.step(events[0]).0, events.drop_first())
    }
}

/// How many of the events report a successful send.
pub open spec fn successes(events: Seq<Event>) -> nat
    decreases events.len(),
{
    if events.len() == 0 {
        0
    } else {
        let first: nat = if events[0] matches Event::Sent(SendOutcome::Success(_)) {
            1
        } else {
            0
        };
        first + successes(events.drop_first())
    }
}

/// How many of the events report a stale transmit handle.
pub open spec fn stale_handles(events: Seq<Event>) -> nat
    decreases events.len(),
{
    if events.len() == 0 {
        0
    } else {
        let first: nat = if events[0] == Event::Sent(SendOutcome::StaleHandle) {
            1
        } else {
            0
        };
        first + stale_handles(events.drop_first())
    }
}

/// Whether the run is over, in either way.
pub open spec fn over(state: DriverState) -> bool {
    state.phase == Phase::Finished || state.phase is Aborted
}

/// A run that has failed stays failed: whatever is reported, the state
/// stays as it is, nothing is written, and the error is named again.
pub proof fn law_failure_is_final(state: DriverState, event: Event)
    requires
        state.phase is Aborted,
    ensures
        state.step(event).0 == state,
        state.step(event).1.output == Seq::<char>::empty(),
        state.step(event).1.action == Action::Abort(state.phase->Aborted_0),
{
}

/// A run that is done stays done, unless the terminal fails: the state
/// stays as it is, nothing is written, and the count of stale handles is
/// named again.
pub proof fn law_finish_is_final(state: DriverState, event: Event)
    requires
        state.phase == Phase::Finished,
        event != Event::OutputFailed,
    ensures
        state.step(event).0 == state,
        state.step(event).1.output == Seq::<char>::empty(),
        state.step(event).1.action == Action::Finish(state.invalid_tx_count),
{
}

/// A failed send attempt ends the run at once: the counters of the sweep
/// point and the count of stale handles stay as they were, no further
/// sweep point is opened, and the error tells the failure, the backend
/// and the sweep point.
pub proof fn law_fatal_send_aborts(state: DriverState, failure: SendFailure)
    requires
        state.wf(),
        state.phase == Phase::Sending,
    ensures
        state.step(Event::Sent(SendOutcome::Fatal(failure))).0.phase is Aborted,
        state.step(Event::Sent(SendOutcome::Fatal(failure))).0.accumulator == state.accumulator,
        state.step(Event::Sent(SendOutcome::Fatal(failure))).0.invalid_tx_count
            == state.invalid_tx_count,
        state.step(Event::Sent(SendOutcome::Fatal(failure))).0.cursor == state.cursor,
        state.step(Event::Sent(SendOutcome::Fatal(failure))).1.action is Abort,
        state.step(Event::Sent(SendOutcome::Fatal(failure))).1.action->Abort_0.kind == kind_of(
            failure,
        ),
        state.step(Event::Sent(SendOutcome::Fatal(failure))).1.action->Abort_0.protocol
            == state.protocol,
        state.step(Event::Sent(SendOutcome::Fatal(failure))).1.action->Abort_0.position
            == state.position(),
{
}

/// A stale handle is recovered in place: the handle is replaced, the clock
/// is read after that, the stale handle is counted once, and the packet
/// and byte counters stay as they were.
pub proof fn law_stale_handle_recovers(state: DriverState)
    requires
        state.wf(),
        state.phase == Phase::Sending,
        state.invalid_tx_count < usize::MAX,
    ensures
        state.step(Event::Sent(SendOutcome::StaleHandle)).1.action == Action::Reacquire,
        state.step(Event::Sent(SendOutcome::StaleHandle)).0.step(Event::HandleReplaced).1.action
            == Action::ReadClock,
        state.step(Event::Sent(SendOutcome::StaleHandle)).0.step(Event::HandleReplaced).0
            == (DriverState {
            phase: Phase::Timing,
            invalid_tx_count: (state.invalid_tx_count + 1) as usize,
            ..state
        }),
{
}

/// A successful send is counted: the packets by the batch size, the bytes
/// by the batch size times the payload size. With a batch of at least one
/// packet the packet count grows.
pub proof fn law_success_is_counted(state: DriverState, sent: usize)
    requires
        state.wf(),
        state.phase == Phase::Sending,
        state.accumulator.has_room(state.points[state.cursor as int]),
    ensures
        state.step(Event::Sent(SendOutcome::Success(sent))).1.action == Action::ReadClock,
        state.step(Event::Sent(SendOutcome::Success(sent))).0.accumulator.packets
            == state.accumulator.packets + state.points[state.cursor as int].packets_per_call,
        state.step(Event::Sent(SendOutcome::Success(sent))).0.accumulator.bytes
            == state.accumulator.bytes + state.points[state.cursor as int].packets_per_call
            * state.points[state.cursor as int].bytes_per_packet,
        state.step(Event::Sent(SendOutcome::Success(sent))).0.accumulator.next_print_second
            == state.accumulator.next_print_second,
        state.points[state.cursor as int].packets_per_call > 0 ==> state.step(
            Event::Sent(SendOutcome::Success(sent)),
        ).0.accumulator.packets > state.accumulator.packets,
{
}

/// Statistics are rendered when, and only when, the whole seconds that
/// have passed reach the second at which they are due, and that second
/// moves on by one each time: so at most once for each whole second. What
/// is rendered shows the counters over the time that has passed.
pub proof fn law_statistics_once_per_second(state: DriverState, elapsed: Elapsed)
    requires
        state.wf(),
        state.phase == Phase::Timing,
        elapsed.total_nanos() <= state.duration.total_nanos(),
    ensures
        state.accumulator.due(elapsed) <==> elapsed.whole_secs()
            >= state.accumulator.next_print_second,
        state.accumulator.due(elapsed) ==> {
            &&& state.step(Event::Elapsed(elapsed)).1.output == frame(
                state.printer.last_print_length,
                statistics_text(
                    state.printer.line_description,
                    state.accumulator.packets as nat,
                    state.accumulator.bytes as nat,
                    elapsed.total_nanos(),
                ),
            )
            &&& state.step(Event::Elapsed(elapsed)).0.accumulator.next_print_second
                == state.accumulator.next_print_second + 1
            &&& !state.step(Event::Elapsed(elapsed)).0.accumulator.due(elapsed)
                || elapsed.whole_secs() > state.accumulator.next_print_second
        },
        !state.accumulator.due(elapsed) ==> {
            &&& state.step(Event::Elapsed(elapsed)).1.output == Seq::<char>::empty()
            &&& state.step(Event::Elapsed(elapsed)).0.accumulator == state.accumulator
        },
        state.step(Event::Elapsed(elapsed)).0.accumulator.packets == state.accumulator.packets,
        state.step(Event::Elapsed(elapsed)).0.accumulator.bytes == state.accumulator.bytes,
{
}

/// A sweep point ends when, and only when, the time that has passed is
/// beyond the duration; to reach it is not enough. Until then one more
/// send is attempted at the same sweep point. When it ends, the next
/// sweep point is opened with fresh counters, or the sweep is done.
pub proof fn law_point_ends_beyond_duration(state: DriverState, elapsed: Elapsed)
    requires
        state.wf(),
        state.phase == Phase::Timing,
    ensures
        elapsed.total_nanos() <= state.duration.total_nanos() ==> {
            &&& state.step(Event::Elapsed(elapsed)).0.cursor == state.cursor
            &&& state.step(Event::Elapsed(elapsed)).0.phase == Phase::Sending
            &&& state.step(Event::Elapsed(elapsed)).1.action == Action::Send(
                state.points[state.cursor as int],
            )
        },
        elapsed.total_nanos() > state.duration.total_nanos() ==> {
            &&& state.step(Event::Elapsed(elapsed)).0.cursor == state.cursor + 1
            &&& state.step(Event::Elapsed(elapsed)).0.printer.last_print_length == 0
            &&& state.cursor + 1 < state.points.len() ==> {
                &&& state.step(Event::Elapsed(elapsed)).0.phase == Phase::Sending
                &&& state.step(Event::Elapsed(elapsed)).0.accumulator == RunAccumulator::fresh()
                &&& state.step(Event::Elapsed(elapsed)).1.action == Action::Open(
                    state.points[state.cursor as int + 1],
                )
            }
            &&& state.cursor + 1 >= state.points.len() ==> {
                &&& state.step(Event::Elapsed(elapsed)).0.phase == Phase::Finished
                &&& state.step(Event::Elapsed(elapsed)).1.action == Action::Finish(
                    state.invalid_tx_count,
                )
            }
        },
{
}

/// With a duration of zero a sweep point still makes a send attempt: when
/// it is opened the driver waits for the outcome of a send and takes no
/// clock reading before that. After one successful send, the first clock
/// reading above zero ends the sweep point, with that one send counted.
pub proof fn law_zero_duration_sends_once(state: DriverState, sent: usize, elapsed: Elapsed)
    requires
        state.wf(),
        state.phase == Phase::Sending,
        state.duration.total_nanos() == 0,
        state.accumulator.has_room(state.points[state.cursor as int]),
        elapsed.total_nanos() > 0,
    ensures
        state.step(Event::Elapsed(elapsed)).0.phase is Aborted,
        state.step(Event::Sent(SendOutcome::Success(sent))).1.action == Action::ReadClock,
        state.step(Event::Sent(SendOutcome::Success(sent))).0.accumulator.packets
            == state.accumulator.packets + state.points[state.cursor as int].packets_per_call,
        state.step(Event::Sent(SendOutcome::Success(sent))).0.step(Event::Elapsed(elapsed)).0.cursor
            == state.cursor + 1,
        !(state.step(Event::Sent(SendOutcome::Success(sent))).0.step(
            Event::Elapsed(elapsed),
        ).1.action is Send),
{
}

/// Whenever a sweep point is opened or one more send is asked for, the
/// driver waits for the outcome of that send.
pub proof fn law_send_is_awaited(state: DriverState, event: Event)
    requires
        state.wf(),
    ensures
        (state.step(event).1.action is Open || state.step(event).1.action is Send)
            ==> state.step(event).0.phase == Phase::Sending,
        state.step(event).1.action is Open ==> state.step(event).0.accumulator
            == RunAccumulator::fresh() && state.step(event).1.action->Open_0
            == state.step(event).0.points[state.step(event).0.cursor as int],
{
}

/// A step keeps what every state of a driver holds, never changes the
/// plan, and never goes back in the sweep or in the count of stale
/// handles.
pub proof fn law_step_is_monotonic(state: DriverState, event: Event)
    requires
        state.wf(),
    ensures
        state.step(event).0.wf(),
        state.step(event).0.points == state.points,
        state.step(event).0.protocol == state.protocol,
        state.step(event).0.duration == state.duration,
        state.step(event).0.cursor >= state.cursor,
        state.step(event).0.invalid_tx_count >= state.invalid_tx_count,
        over(state) ==> over(state.step(event).0) && state.step(event).0.cursor == state.cursor
            && state.step(event).0.accumulator == state.accumulator && state.step(
            event,
        ).0.invalid_tx_count == state.invalid_tx_count,
{
}

/// The same of a whole run.
pub proof fn law_run_is_monotonic(state: DriverState, events: Seq<Event>)
    requires
        state.wf(),
    ensures
        run(state, events).wf(),
        run(state, events).points == state.points,
        run(state, events).protocol == state.protocol,
        run(state, events).duration == state.duration,
        run(state, events).cursor >= state.cursor,
        run(state, events).invalid_tx_count >= state.invalid_tx_count,
        over(state) ==> over(run(state, events)) && run(state, events).cursor == state.cursor
            && run(state, events).accumulator == state.accumulator && run(
            state,
            events,
        ).invalid_tx_count == state.invalid_tx_count,
    decreases events.len(),
{
    if events.len() > 0 {
        law_step_is_monotonic(state, events[0]);
        law_run_is_monotonic(state.step(events[0]).0, events.drop_first());
    }
}

/// After a failure nothing more happens, whatever is reported: no further
/// sweep point is opened and no counter moves.
pub proof fn law_failure_stops_run(state: DriverState, events: Seq<Event>)
    requires
        state.phase is Aborted,
    ensures
        run(state, events) == state,
    decreases events.len(),
{
    if events.len() > 0 {
        law_failure_is_final(state, events[0]);
        law_failure_stops_run(state, events.drop_first());
    }
}

/// The counters tell the successful sends and nothing else. While a run
/// stays at one sweep point, the packets counted are the batch size times
/// the number of successes reported, the bytes are that times the payload
/// size, and the stale handles counted are those reported. An attempt that
/// found a stale handle adds no packet and no byte.
pub proof fn law_counters_match_successes(state: DriverState, events: Seq<Event>)
    requires
        state.wf(),
        state.active(),
        run(state, events).active(),
        run(state, events).cursor == state.cursor,
    ensures
        run(state, events).accumulator.packets == state.accumulator.packets
            + state.points[state.cursor as int].packets_per_call * successes(events),
        run(state, events).accumulator.bytes == state.accumulator.bytes
            + state.points[state.cursor as int].bytes_per_call() * successes(events),
        run(state, events).invalid_tx_count == state.invalid_tx_count + stale_handles(events),
    decreases events.len(),
{
    let point = state.points[state.cursor as int];
    let batch = point.packets_per_call as int;
    let bytes = point.bytes_per_call() as int;
    if events.len() == 0 {
        assert(batch * 0 == 0) by (nonlinear_arith);
        assert(bytes * 0 == 0) by (nonlinear_arith);
    } else {
        let next = state.step(events[0]).0;
        let rest = events.drop_first();
        law_step_is_monotonic(state, events[0]);
        law_run_is_monotonic(next, rest);
        assert(next.active() && next.cursor == state.cursor);
        law_counters_match_successes(next, rest);
        let n = successes(rest) as int;
        assert(batch * (1 + n) == batch + batch * n) by (nonlinear_arith);
        assert(bytes * (1 + n) == bytes + bytes * n) by (nonlinear_arith);
    }
}

} // verus!
