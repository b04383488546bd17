//! The driver as mathematics: its state, and the function that takes a
//! state and an event to the next state, the text to write and the action
//! to take.

use vstd::prelude::*;
use crate::driver::types::Action;
use crate::driver::types::BenchError;
use crate::driver::types::ErrorKind;
use crate::driver::types::Event;
use crate::driver::types::Phase;
use crate::driver::types::Position;
use crate::driver::types::RunAccumulator;
use crate::driver::types::SendFailure;
use crate::driver::types::SendOutcome;
use crate::driver::types::SweepPoint;
use crate::plan::Protocol;
use crate::progress::frame;
use crate::progress::statistics_text;
use crate::progress::title_text;
use crate::progress::PrinterState;
use crate::text::decimal;
use crate::timing::Elapsed;

verus! {

/// All that a driver holds.
pub struct DriverState {
    /// The backend under test.
    pub protocol: Protocol,
    /// How long each sweep point sends.
    pub duration: Elapsed,
    /// The sweep points, in the order in which they are exercised.
    pub points: Seq<SweepPoint>,
    /// How many sweep points are done with.
    pub cursor: nat,
    /// Where the driver stands.
    pub phase: Phase,
    /// The counters of the open sweep point.
    pub accumulator: RunAccumulator,
    /// How many stale transmit handles were met in the whole run.
    pub invalid_tx_count: usize,
    /// The terminal line.
    pub printer: PrinterState,
}

/// What one step hands back.
pub struct StepModel {
    /// The text to write to the terminal, and to flush.
    pub output: Seq<char>,
    /// What to do after that.
    pub action: Action,
}

/// The batch sizes of every run, in the order of the outer loop.
pub open spec fn batch_sizes() -> Seq<usize> {
    seq![1, 10, 100, 1000]
}

/// The sweep over `batches` and `sizes`: every batch size with every
/// payload size, the payload sizes running through for each batch size in
/// turn.
pub open spec fn sweep(batches: Seq<usize>, sizes: Seq<usize>) -> Seq<SweepPoint> {
    Seq::new(
        batches.len() * sizes.len(),
        |i: int|
            SweepPoint {
                packets_per_call: batches[i / sizes.len() as int],
                bytes_per_packet: sizes[i % sizes.len() as int],
            },
    )
}

/// The title of a run.
pub open spec fn run_title(protocol: Protocol) -> Seq<char> {
    match protocol {
        Protocol::Pnet => "Raw pnet datalink sending"@,
        Protocol::Ethernet => "Rips Ethernet sending"@,
        Protocol::Udp => "Rips UDP sending"@,
    }
}

/// The text that starts the statistics lines of a sweep point.
pub open spec fn description_text(point: SweepPoint) -> Seq<char> {
    "Sending "@ + decimal(point.packets_per_call as nat) + "x"@ + decimal(
        point.bytes_per_packet as nat,
    ) + " bytes"@
}

/// The closing line of a run: the count of stale transmit handles, for a
/// backend that can meet one, and nothing for the others.
pub open spec fn summary_text(protocol: Protocol, invalid_tx_count: usize) -> Seq<char> {
    if protocol.recovers() {
        "Benchmark resulted in "@ + decimal(invalid_tx_count as nat) + " InvalidTx\n"@
    } else {
        Seq::<char>::empty()
    }
}

/// The kind of error that a failed send attempt ends the run with.
pub open spec fn kind_of(failure: SendFailure) -> ErrorKind {
    match failure {
        SendFailure::BufferTooSmall => ErrorKind::BufferTooSmall,
        SendFailure::Transmission => ErrorKind::Transmission,
    }
}

impl DriverState {
    /// Whether a sweep point is open.
    pub open spec fn active(self) -> bool {
        self.phase == Phase::Sending || self.phase == Phase::Reacquiring || self.phase
            == Phase::Timing
    }

    /// What every state holds that a driver can get into: before the start
    /// no sweep point is done with, a sweep point is open only while there
    /// is one left, and statistics are never due before the first whole
    /// second.
    pub open spec fn wf(self) -> bool {
        &&& self.phase == Phase::Ready ==> self.cursor == 0
        &&& self.active() ==> self.cursor < self.points.len()
        &&& self.accumulator.next_print_second >= 1
    }

    /// The open sweep point, if there is one.
    pub open spec fn position(self) -> Position {
        if self.active() && self.cursor < self.points.len() {
            Position::At(self.points[self.cursor as int])
        } else {
            Position::Outside
        }
    }

    /// The state of a driver that has not started.
    pub open spec fn initial(protocol: Protocol, duration: Elapsed, points: Seq<SweepPoint>)
        -> DriverState {
        DriverState {
            protocol,
            duration,
            points,
            cursor: 0,
            phase: Phase::Ready,
            accumulator: RunAccumulator::fresh(),
            invalid_tx_count: 0,
            printer: PrinterState { line_description: Seq::<char>::empty(), last_print_length: 0 },
        }
    }

    /// The run fails: nothing is counted, nothing is written, and the
    /// error names the backend and the place in the sweep.
    pub open spec fn abort(self, kind: ErrorKind) -> (DriverState, StepModel) {
        let error = BenchError { kind, protocol: self.protocol, position: self.position() };
        (
            DriverState { phase: Phase::Aborted(error), ..self },
            StepModel { output: Seq::<char>::empty(), action: Action::Abort(error) },
        )
    }

    /// The driver goes on to the sweep point of the given index, after
    /// `output` was collected and with the terminal line as `printer` says.
    /// Where there is such a point, it is opened with fresh counters and
    /// its own description. Where there is none, the sweep is done, and the
    /// closing line follows the output.
    pub open spec fn enter(self, index: nat, printer: PrinterState, output: Seq<char>) -> (
        DriverState,
        StepModel,
    ) {
        if index < self.points.len() {
            let point = self.points[index as int];
            (
                DriverState {
                    cursor: index,
                    phase: Phase::Sending,
                    accumulator: RunAccumulator::fresh(),
                    printer: PrinterState {
                        line_description: description_text(point),
                        last_print_length: printer.last_print_length,
                    },
                    ..self
                },
                StepModel { output, action: Action::Open(point) },
            )
        } else {
            (
                DriverState { cursor: index, phase: Phase::Finished, printer, ..self },
                StepModel {
                    output: output + summary_text(self.protocol, self.invalid_tx_count),
                    action: Action::Finish(self.invalid_tx_count),
                },
            )
        }
    }

    /// The run begins: the title goes out on a line of its own, and the
    /// first sweep point is opened.
    pub open spec fn on_start(self) -> (DriverState, StepModel) {
        let title = frame(self.printer.last_print_length, title_text(run_title(self.protocol)))
            + "\n"@;
        let printer = PrinterState {
            line_description: self.printer.line_description,
            last_print_length: 0,
        };
        self.enter(0, printer, title)
    }

    /// A send attempt has ended. A success is counted, and the clock is
    /// read next. A stale handle is counted as such, the packet and byte
    /// counters stay, and the handle is replaced next. A failure ends the
    /// run.
    pub open spec fn on_sent(self, outcome: SendOutcome) -> (DriverState, StepModel) {
        let point = self.points[self.cursor as int];
        match outcome {
            SendOutcome::Success(_) => {
                if self.accumulator.has_room(point) {
                    (
                        DriverState {
                            phase: Phase::Timing,
                            accumulator: self.accumulator.after_success(point),
                            ..self
                        },
                        StepModel { output: Seq::<char>::empty(), action: Action::ReadClock },
                    )
                } else {
                    self.abort(ErrorKind::CounterOverflow)
                }
            },
            SendOutcome::StaleHandle => {
                if self.invalid_tx_count < usize::MAX {
                    (
                        DriverState {
                            phase: Phase::Reacquiring,
                            invalid_tx_count: (self.invalid_tx_count + 1) as usize,
                            ..self
                        },
                        StepModel { output: Seq::<char>::empty(), action: Action::Reacquire },
                    )
                } else {
                    self.abort(ErrorKind::CounterOverflow)
                }
            },
            SendOutcome::Fatal(failure) => self.abort(kind_of(failure)),
        }
    }

    /// The fresh handle is there: the counters stay, and the clock is read
    /// next.
    pub open spec fn on_handle_replaced(self) -> (DriverState, StepModel) {
        (
            DriverState { phase: Phase::Timing, ..self },
            StepModel { output: Seq::<char>::empty(), action: Action::ReadClock },
        )
    }

    /// The clock was read. Where the whole seconds have reached the second
    /// at which statistics are due, they go over the current line and the
    /// due second moves on by one. Where the time is beyond the duration,
    /// the line is ended and the next sweep point entered; where it is not,
    /// one more send is attempted.
    pub open spec fn on_elapsed(self, elapsed: Elapsed) -> (DriverState, StepModel) {
        let point = self.points[self.cursor as int];
        let due = self.accumulator.due(elapsed);
        let text = statistics_text(
            self.printer.line_description,
            self.accumulator.packets as nat,
            self.accumulator.bytes as nat,
            elapsed.total_nanos(),
        );
        let rendered: Seq<char> = if due {
            frame(self.printer.last_print_length, text)
        } else {
            Seq::<char>::empty()
        };
        let printer = if due {
            PrinterState {
                line_description: self.printer.line_description,
                last_print_length: text.len(),
            }
        } else {
            self.printer
        };
        let accumulator = if due {
            self.accumulator.after_render()
        } else {
            self.accumulator
        };
        if elapsed.total_nanos() > self.duration.total_nanos() {
            let ended = PrinterState {
                line_description: printer.line_description,
                last_print_length: 0,
            };
            (DriverState { accumulator, ..self }).enter(self.cursor + 1, ended, rendered + "\n"@)
        } else {
            (
                DriverState { phase: Phase::Sending, accumulator, printer, ..self },
                StepModel { output: rendered, action: Action::Send(point) },
            )
        }
    }

    /// The next state, the text to write and the action to take when
    /// `event` is reported in this state.
    ///
    /// A run that has failed stays as it is and names its error again. A
    /// failed write ends any other run. A run that is done stays done. In
    /// every other state one event is awaited, and any other ends the run.
    pub open spec fn step(self, event: Event) -> (DriverState, StepModel) {
        match self.phase {
            Phase::Aborted(error) => (
                self,
                StepModel { output: Seq::<char>::empty(), action: Action::Abort(error) },
            ),
            Phase::Finished => match event {
                Event::OutputFailed => self.abort(ErrorKind::Output),
                _ => (
                    self,
                    StepModel {
                        output: Seq::<char>::empty(),
                        action: Action::Finish(self.invalid_tx_count),
                    },
                ),
            },
            Phase::Ready => match event {
                Event::Start => self.on_start(),
                Event::OutputFailed => self.abort(ErrorKind::Output),
                _ => self.abort(ErrorKind::UnexpectedEvent),
            },
            Phase::Sending => match event {
                Event::Sent(outcome) => self.on_sent(outcome),
                Event::OutputFailed => self.abort(ErrorKind::Output),
                _ => self.abort(ErrorKind::UnexpectedEvent),
            },
            Phase::Reacquiring => match event {
                Event::HandleReplaced => self.on_handle_replaced(),
                Event::OutputFailed => self.abort(ErrorKind::Output),
                _ => self.abort(ErrorKind::UnexpectedEvent),
            },
            Phase::Timing => match event {
                Event::Elapsed(elapsed) => self.on_elapsed(elapsed),
                Event::OutputFailed => self.abort(ErrorKind::Output),
                _ => self.abort(ErrorKind::UnexpectedEvent),
            },
        }
    }
}

} // verus!
