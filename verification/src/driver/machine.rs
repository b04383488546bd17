//! The driver that runs: the same steps as the model, on machine values.

use vstd::prelude::*;
use vstd::arithmetic::div_mod::lemma_fundamental_div_mod_converse;
use vstd::string::StringExecFns;
use crate::config::Config;
use crate::driver::model::batch_sizes;
use crate::driver::model::description_text;
use crate::driver::model::kind_of;
use crate::driver::model::run_title;
use crate::driver::model::summary_text;
use crate::driver::model::sweep;
use crate::driver::model::DriverState;
use crate::driver::model::StepModel;
use crate::driver::types::Action;
use crate::driver::types::BenchError;
use crate::driver::types::ErrorKind;
use crate::driver::types::Event;
use crate::driver::types::Phase;
use crate::driver::types::Position;
use crate::driver::types::RunAccumulator;
use crate::driver::types::SendFailure;
use crate::driver::types::SendOutcome;
use crate::driver::types::SweepPoint;
use crate::plan::packet_sizes;
use crate::plan::plannable;
use crate::plan::planned_sizes;
use crate::plan::Protocol;
use crate::progress::Printer;
use crate::text::push_decimal;
use crate::timing::Elapsed;

verus! {

/// What one step of the driver hands back.
#[derive(Debug)]
pub struct Step {
    /// The text to write to the terminal, and to flush, before anything
    /// else is done.
    pub output: String,
    /// What to do after that.
    pub action: Action,
}

impl View for Step {
    type V = StepModel;

    open spec fn view(&self) -> StepModel {
        StepModel { output: self.output@, action: self.action }
    }
}

/// The decisions of one benchmark run. The loop around it sends, replaces
/// handles, reads the clock and writes to the terminal, and reports each
/// of these to `step`, which says what to write and what to do next.
pub struct Driver {
    protocol: Protocol,
    duration: Elapsed,
    points: Vec<SweepPoint>,
    cursor: usize,
    phase: Phase,
    accumulator: RunAccumulator,
    invalid_tx_count: usize,
    printer: Printer,
}

impl View for Driver {
    type V = DriverState;

    closed spec fn view(&self) -> DriverState {
        DriverState {
            protocol: self.protocol,
            duration: self.duration,
            points: self.points@,
            cursor: self.cursor as nat,
            phase: self.phase,
            accumulator: self.accumulator,
            invalid_tx_count: self.invalid_tx_count,
            printer: self.printer@,
        }
    }
}

/// The batch sizes of every run.
pub fn default_batch_sizes() -> (batches: Vec<usize>)
    ensures
        batches@ == batch_sizes(),
{
    let mut batches: Vec<usize> = Vec::new();
    batches.push(1);
    batches.push(10);
    batches.push(100);
    batches.push(1000);
    assert(batches@ =~= batch_sizes());
    batches
}

/// The sweep over `batches` and `sizes`: the outer loop goes over the batch
/// sizes, the inner one over the payload sizes.
pub fn sweep_points(batches: &Vec<usize>, sizes: &Vec<usize>) -> (points: Vec<SweepPoint>)
    ensures
        points@ == sweep(batches@, sizes@),
{
    let ghost width: int = sizes@.len() as int;
    let mut points: Vec<SweepPoint> = Vec::new();
    let mut b: usize = 0;
    while b < batches.len()
        invariant
            b <= batches.len(),
            width == sizes@.len(),
            points@.len() == b * width,
            forall|i: int|
                0 <= i < points@.len() ==> points@[i] == sweep(batches@, sizes@)[i],
        decreases batches.len() - b,
    {
        let mut s: usize = 0;
        while s < sizes.len()
            invariant
                b < batches.len(),
                s <= sizes.len(),
                width == sizes@.len(),
                points@.len() == b * width + s,
                forall|i: int|
                    0 <= i < points@.len() ==> points@[i] == sweep(batches@, sizes@)[i],
            decreases sizes.len() - s,
        {
            proof {
                let i: int = b * width + s;
                lemma_fundamental_div_mod_converse(i, width, b as int, s as int);
                assert(b * width + width == (b + 1) * width) by (nonlinear_arith);
                assert((b + 1) * width <= batches@.len() * width) by (nonlinear_arith)
                    requires
                        b + 1 <= batches@.len(),
                        width >= 0,
                ;
            }
            points.push(
                SweepPoint { packets_per_call: batches[b], bytes_per_packet: sizes[s] },
            );
            s = s + 1;
        }
        proof {
            assert(b * width + width == (b + 1) * width) by (nonlinear_arith);
        }
        b = b + 1;
    }
    assert(points@ =~= sweep(batches@, sizes@));
    points
}

/// The title of a run.
fn title(protocol: Protocol) -> (text: &'static str)
    ensures
        text@ == run_title(protocol),
{
    match protocol {
        Protocol::Pnet => "Raw pnet datalink sending",
        Protocol::Ethernet => "Rips Ethernet sending",
        Protocol::Udp => "Rips UDP sending",
    }
}

/// The text that starts the statistics lines of a sweep point.
fn description(point: SweepPoint) -> (text: String)
    ensures
        text@ == description_text(point),
{
    let mut text = String::from_str("Sending ");
    push_decimal(&mut text, point.packets_per_call as u128);
    text.append("x");
    push_decimal(&mut text, point.bytes_per_packet as u128);
    text.append(" bytes");
    text
}

/// Appends the closing line of a run to `out`.
fn push_summary(out: &mut String, protocol: Protocol, invalid_tx_count: usize)
    ensures
        final(out)@ == old(out)@ + summary_text(protocol, invalid_tx_count),
{
    if protocol.recovers() {
        let mut line = String::from_str("Benchmark resulted in ");
        push_decimal(&mut line, invalid_tx_count as u128);
        line.append(" InvalidTx\n");
        out.append(line.as_str());
    } else {
        assert(out@ =~= old(out)@ + Seq::<char>::empty());
    }
}

/// The kind of error that a failed send attempt ends the run with.
fn failure_kind(failure: SendFailure) -> (kind: ErrorKind)
    ensures
        kind == kind_of(failure),
{
    match failure {
        SendFailure::BufferTooSmall => ErrorKind::BufferTooSmall,
        SendFailure::Transmission => ErrorKind::Transmission,
    }
}

impl Driver {
    /// What holds of every driver: see the model.
    pub open spec fn wf(&self) -> bool {
        self@.wf()
    }

    /// A driver for the sweep over the given batch sizes and payload
    /// sizes, not started.
    pub fn with_plan(
        protocol: Protocol,
        duration: Elapsed,
        batches: &Vec<usize>,
        sizes: &Vec<usize>,
    ) -> (driver: Driver)
        ensures
            driver.wf(),
            driver@ == DriverState::initial(protocol, duration, sweep(batches@, sizes@)),
    {
        Driver {
            protocol,
            duration,
            points: sweep_points(batches, sizes),
            cursor: 0,
            phase: Phase::Ready,
            accumulator: RunAccumulator::new(),
            invalid_tx_count: 0,
            printer: Printer::new(),
        }
    }

    /// A driver for `protocol` under `config`, not started: the sweep goes
    /// over the batch sizes of every run and the payload sizes planned for
    /// the backend.
    pub fn new(protocol: Protocol, config: &Config) -> (driver: Driver)
        requires
            plannable(*config, protocol),
        ensures
            driver.wf(),
            driver@ == DriverState::initial(
                protocol,
                config.duration,
                sweep(batch_sizes(), planned_sizes(*config, protocol)),
            ),
    {
        let batches = default_batch_sizes();
        let sizes = packet_sizes(config, protocol);
        Driver::with_plan(protocol, config.duration, &batches, &sizes)
    }

    /// Where the driver stands.
    pub fn phase(&self) -> (phase: Phase)
        ensures
            phase == self@.phase,
    {
        self.phase
    }

    /// The open sweep point, if there is one.
    pub fn position(&self) -> (position: Position)
        ensures
            position == self@.position(),
    {
        let active = match self.phase {
            Phase::Sending => true,
            Phase::Reacquiring => true,
            Phase::Timing => true,
            _ => false,
        };
        if active && self.cursor < self.points.len() {
            Position::At(self.points[self.cursor])
        } else {
            Position::Outside
        }
    }

    /// The counters of the open sweep point; after the sweep, or a
    /// failure, those of the sweep point that was open last.
    pub fn accumulator(&self) -> (accumulator: RunAccumulator)
        ensures
            accumulator == self@.accumulator,
    {
        self.accumulator
    }

    /// How many stale transmit handles the run has met so far.
    pub fn invalid_tx_count(&self) -> (count: usize)
        ensures
            count == self@.invalid_tx_count,
    {
        self.invalid_tx_count
    }

    /// How many sweep points are done with.
    pub fn completed_points(&self) -> (count: usize)
        ensures
            count == self@.cursor,
    {
        self.cursor
    }

    /// How many sweep points the run has in all.
    pub fn planned_points(&self) -> (count: usize)
        ensures
            count == self@.points.len(),
    {
        self.points.len()
    }

    /// Ends the run with an error of the given kind.
    fn fail(&mut self, kind: ErrorKind) -> (step: Step)
        ensures
            final(self)@ == old(self)@.abort(kind).0,
            step@ == old(self)@.abort(kind).1,
    {
        let error = BenchError { kind, protocol: self.protocol, position: self.position() };
        self.phase = Phase::Aborted(error);
        Step { output: String::new(), action: Action::Abort(error) }
    }

    /// Goes on to the sweep point of the given index, or ends the sweep
    /// where there is none.
    fn enter(&mut self, index: usize, output: String) -> (step: Step)
        ensures
            final(self)@ == old(self)@.enter(index as nat, old(self)@.printer, output@).0,
            step@ == old(self)@.enter(index as nat, old(self)@.printer, output@).1,
    {
        self.cursor = index;
        if index < self.points.len() {
            let point = self.points[index];
            self.phase = Phase::Sending;
            self.accumulator = RunAccumulator::new();
            let text = description(point);
            self.printer.print_line_description(text.as_str());
            Step { output, action: Action::Open(point) }
        } else {
            self.phase = Phase::Finished;
            let mut output = output;
            push_summary(&mut output, self.protocol, self.invalid_tx_count);
            Step { output, action: Action::Finish(self.invalid_tx_count) }
        }
    }

    /// The run begins.
    fn on_start(&mut self) -> (step: Step)
        ensures
            final(self)@ == old(self)@.on_start().0,
            step@ == old(self)@.on_start().1,
    {
        let output = self.printer.print_title(title(self.protocol));
        self.enter(0, output)
    }

    /// A send attempt has ended.
    fn on_sent(&mut self, outcome: SendOutcome) -> (step: Step)
        requires
            old(self)@.cursor < old(self)@.points.len(),
        ensures
            final(self)@ == old(self)@.on_sent(outcome).0,
            step@ == old(self)@.on_sent(outcome).1,
    {
        let point = self.points[self.cursor];
        match outcome {
            SendOutcome::Success(_) => {
                if self.accumulator.record_success(point) {
                    self.phase = Phase::Timing;
                    Step { output: String::new(), action: Action::ReadClock }
                } else {
                    self.fail(ErrorKind::CounterOverflow)
                }
            },
            SendOutcome::StaleHandle => {
                if self.invalid_tx_count < usize::MAX {
                    self.invalid_tx_count = self.invalid_tx_count + 1;
                    self.phase = Phase::Reacquiring;
                    Step { output: String::new(), action: Action::Reacquire }
                } else {
                    self.fail(ErrorKind::CounterOverflow)
                }
            },
            SendOutcome::Fatal(failure) => self.fail(failure_kind(failure)),
        }
    }

    /// The fresh handle is there.
    fn on_handle_replaced(&mut self) -> (step: Step)
        ensures
            final(self)@ == old(self)@.on_handle_replaced().0,
            step@ == old(self)@.on_handle_replaced().1,
    {
        self.phase = Phase::Timing;
        Step { output: String::new(), action: Action::ReadClock }
    }

    /// The clock was read.
    fn on_elapsed(&mut self, elapsed: Elapsed) -> (step: Step)
        requires
            old(self)@.cursor < old(self)@.points.len(),
            old(self)@.accumulator.next_print_second >= 1,
        ensures
            final(self)@ == old(self)@.on_elapsed(elapsed).0,
            step@ == old(self)@.on_elapsed(elapsed).1,
    {
        let point = self.points[self.cursor];
        assert(self.cursor < self.points.len());
        let next: usize = self.cursor + 1;
        let mut output = String::new();
        if self.accumulator.is_due(elapsed) {
            output = self.printer.print_statistics(
                self.accumulator.packets,
                self.accumulator.bytes,
                elapsed,
            );
            self.accumulator.mark_rendered();
        }
        if elapsed.exceeds(self.duration) {
            let end = self.printer.end_line();
            output.append(end.as_str());
            self.enter(next, output)
        } else {
            self.phase = Phase::Sending;
            Step { output, action: Action::Send(point) }
        }
    }

    /// Takes in what the loop reports, and says what to write and what to
    /// do next: the step of the model.
    pub fn step(&mut self, event: Event) -> (step: Step)
        requires
            old(self).wf(),
        ensures
            final(self).wf(),
            final(self)@ == old(self)@.step(event).0,
            step@ == old(self)@.step(event).1,
    {
        match self.phase {
            Phase::Aborted(error) => Step {
                output: String::new(),
                action: Action::Abort(error),
            },
            Phase::Finished => match event {
                Event::OutputFailed => self.fail(ErrorKind::Output),
                _ => Step {
                    output: String::new(),
                    action: Action::Finish(self.invalid_tx_count),
                },
            },
            Phase::Ready => match event {
                Event::Start => self.on_start(),
                Event::OutputFailed => self.fail(ErrorKind::Output),
                _ => self.fail(ErrorKind::UnexpectedEvent),
            },
            Phase::Sending => match event {
                Event::Sent(outcome) => self.on_sent(outcome),
                Event::OutputFailed => self.fail(ErrorKind::Output),
                _ => self.fail(ErrorKind::UnexpectedEvent),
            },
            Phase::Reacquiring => match event {
                Event::HandleReplaced => self.on_handle_replaced(),
                Event::OutputFailed => self.fail(ErrorKind::Output),
                _ => self.fail(ErrorKind::UnexpectedEvent),
            },
            Phase::Timing => match event {
                Event::Elapsed(elapsed) => self.on_elapsed(elapsed),
                Event::OutputFailed => self.fail(ErrorKind::Output),
                _ => self.fail(ErrorKind::UnexpectedEvent),
            },
        }
    }
}

} // verus!
