use netbench::config::Config;
use netbench::driver::machine::default_batch_sizes;
use netbench::driver::machine::sweep_points;
use netbench::driver::machine::Driver;
use netbench::driver::types::Action;
use netbench::driver::types::BenchError;
use netbench::driver::types::ErrorKind;
use netbench::driver::types::Event;
use netbench::driver::types::Phase;
use netbench::driver::types::Position;
use netbench::driver::types::RunAccumulator;
use netbench::driver::types::SendFailure;
use netbench::driver::types::SendOutcome;
use netbench::driver::types::SweepPoint;
use netbench::plan::Protocol;
use netbench::timing::Elapsed;

/// What one sweep point came to.
#[derive(Debug, PartialEq, Eq)]
struct PointReport {
    point: SweepPoint,
    attempts: usize,
    packets: usize,
    bytes: usize,
}

/// What a whole run came to.
#[derive(Debug)]
struct RunReport {
    points: Vec<PointReport>,
    output: String,
    handles_replaced: usize,
    timers_started: usize,
    last: Action,
}

/// Runs the loop around a driver. `send` is told the number of the attempt
/// in the whole run, from 1, and answers with its outcome; `clock` is told
/// the number of the reading within the sweep point, from 1, and answers
/// with the time since the sweep point was opened.
fn run_loop(
    driver: &mut Driver,
    mut send: impl FnMut(usize, SweepPoint) -> SendOutcome,
    mut clock: impl FnMut(usize) -> Elapsed,
) -> RunReport {
    let mut report = RunReport {
        points: Vec::new(),
        output: String::new(),
        handles_replaced: 0,
        timers_started: 0,
        last: Action::ReadClock,
    };
    let mut attempts_in_run = 0;
    let mut readings_in_point = 0;
    let mut step = driver.step(Event::Start);
    loop {
        report.output.push_str(&step.output);
        report.last = step.action;
        let event = match step.action {
            Action::Open(point) => {
                report.timers_started += 1;
                readings_in_point = 0;
                report.points.push(PointReport { point, attempts: 1, packets: 0, bytes: 0 });
                attempts_in_run += 1;
                Event::Sent(send(attempts_in_run, point))
            }
            Action::Send(point) => {
                let current = report.points.last_mut().unwrap();
                assert_eq!(current.point, point);
                current.attempts += 1;
                attempts_in_run += 1;
                Event::Sent(send(attempts_in_run, point))
            }
            Action::Reacquire => {
                report.handles_replaced += 1;
                Event::HandleReplaced
            }
            Action::ReadClock => {
                let current = report.points.last_mut().unwrap();
                current.packets = driver.accumulator().packets;
                current.bytes = driver.accumulator().bytes;
                readings_in_point += 1;
                Event::Elapsed(clock(readings_in_point))
            }
            Action::Finish(_) | Action::Abort(_) => return report,
        };
        step = driver.step(event);
    }
}

fn config_with(minimum: bool, mtu_relative: bool, maximum: bool, duration: Elapsed) -> Config {
    let mut config = Config::new();
    config.size_min = minimum;
    config.size_mtu = mtu_relative;
    config.size_max = maximum;
    config.duration = duration;
    config
}

fn point(packets_per_call: usize, bytes_per_packet: usize) -> SweepPoint {
    SweepPoint { packets_per_call, bytes_per_packet }
}

#[test]
fn batch_sizes_are_fixed() {
    assert_eq!(default_batch_sizes(), vec![1, 10, 100, 1000]);
}

#[test]
fn sweep_goes_over_sizes_within_batches() {
    assert_eq!(
        sweep_points(&vec![1, 10], &vec![28, 1472, 65000]),
        vec![
            point(1, 28),
            point(1, 1472),
            point(1, 65000),
            point(10, 28),
            point(10, 1472),
            point(10, 65000),
        ]
    );
}

#[test]
fn sweep_without_sizes_or_batches_is_empty() {
    assert_eq!(sweep_points(&vec![1, 10, 100], &vec![]), vec![]);
    assert_eq!(sweep_points(&vec![], &vec![28, 1500]), vec![]);
}

#[test]
fn new_driver_is_ready() {
    let config = config_with(true, true, false, Elapsed::new(1, 0));
    let driver = Driver::new(Protocol::Udp, &config);
    assert_eq!(driver.phase(), Phase::Ready);
    assert_eq!(driver.position(), Position::Outside);
    assert_eq!(driver.accumulator(), RunAccumulator { packets: 0, bytes: 0, next_print_second: 1 });
    assert_eq!(driver.invalid_tx_count(), 0);
    assert_eq!(driver.completed_points(), 0);
    assert_eq!(driver.planned_points(), 8);
}

#[test]
fn start_writes_the_title_and_opens_the_first_point() {
    let config = config_with(true, true, false, Elapsed::new(1, 0));
    let mut driver = Driver::new(Protocol::Udp, &config);
    let step = driver.step(Event::Start);
    assert_eq!(step.output, "== Rips UDP sending ==\r\n");
    assert_eq!(step.action, Action::Open(point(1, 28)));
    assert_eq!(driver.phase(), Phase::Sending);
    assert_eq!(driver.position(), Position::At(point(1, 28)));
}

#[test]
fn titles_name_the_backend() {
    let config = config_with(true, false, false, Elapsed::new(1, 0));
    let mut raw = Driver::new(Protocol::Pnet, &config);
    assert_eq!(raw.step(Event::Start).output, "== Raw pnet datalink sending ==\r\n");
    let mut ethernet = Driver::new(Protocol::Ethernet, &config);
    assert_eq!(ethernet.step(Event::Start).output, "== Rips Ethernet sending ==\r\n");
}

#[test]
fn empty_plan_finishes_at_once() {
    let config = config_with(false, false, false, Elapsed::new(1, 0));
    let mut driver = Driver::new(Protocol::Ethernet, &config);
    let step = driver.step(Event::Start);
    assert_eq!(
        step.output,
        "== Rips Ethernet sending ==\r\nBenchmark resulted in 0 InvalidTx\n"
    );
    assert_eq!(step.action, Action::Finish(0));
    assert_eq!(driver.phase(), Phase::Finished);

    let mut raw = Driver::new(Protocol::Pnet, &config);
    let step = raw.step(Event::Start);
    assert_eq!(step.output, "== Raw pnet datalink sending ==\r\n");
    assert_eq!(step.action, Action::Finish(0));
}

#[test]
fn success_is_counted_by_batch_and_payload() {
    let mut driver = Driver::with_plan(Protocol::Udp, Elapsed::new(10, 0), &vec![100], &vec![1472]);
    assert_eq!(driver.step(Event::Start).action, Action::Open(point(100, 1472)));
    let step = driver.step(Event::Sent(SendOutcome::Success(147200)));
    assert_eq!(step.action, Action::ReadClock);
    assert_eq!(step.output, "");
    assert_eq!(driver.phase(), Phase::Timing);
    assert_eq!(
        driver.accumulator(),
        RunAccumulator { packets: 100, bytes: 147200, next_print_second: 1 }
    );
    let step = driver.step(Event::Elapsed(Elapsed::new(0, 1000)));
    assert_eq!(step.action, Action::Send(point(100, 1472)));
    assert_eq!(step.output, "");
    driver.step(Event::Sent(SendOutcome::Success(0)));
    assert_eq!(
        driver.accumulator(),
        RunAccumulator { packets: 200, bytes: 294400, next_print_second: 1 }
    );
}

#[test]
fn statistics_come_once_per_whole_second() {
    let mut driver = Driver::with_plan(Protocol::Udp, Elapsed::new(10, 0), &vec![10], &vec![100]);
    driver.step(Event::Start);
    driver.step(Event::Sent(SendOutcome::Success(1000)));
    // Not a whole second yet.
    let step = driver.step(Event::Elapsed(Elapsed::new(0, 999_999_999)));
    assert_eq!(step.output, "");
    assert_eq!(driver.accumulator().next_print_second, 1);
    driver.step(Event::Sent(SendOutcome::Success(1000)));
    // The first whole second: 20 packets and 2000 bytes in one second.
    let step = driver.step(Event::Elapsed(Elapsed::new(1, 0)));
    assert_eq!(step.output, "Sending 10x100 bytes: 1 kiB/s - 20 pps\r");
    assert_eq!(step.action, Action::Send(point(10, 100)));
    assert_eq!(driver.accumulator().next_print_second, 2);
    driver.step(Event::Sent(SendOutcome::Success(1000)));
    // Still within the second that was rendered.
    let step = driver.step(Event::Elapsed(Elapsed::new(1, 900_000_000)));
    assert_eq!(step.output, "");
    assert_eq!(driver.accumulator().next_print_second, 2);
    driver.step(Event::Sent(SendOutcome::Success(1000)));
    // 40 packets and 4000 bytes in 2.5 s: 16 pps, 1600 B/s.
    let step = driver.step(Event::Elapsed(Elapsed::new(2, 500_000_000)));
    assert_eq!(step.output, "Sending 10x100 bytes: 1 kiB/s - 16 pps\r");
    assert_eq!(driver.accumulator().next_print_second, 3);
}

#[test]
fn due_second_moves_by_one_even_when_seconds_were_skipped() {
    let mut driver = Driver::with_plan(Protocol::Udp, Elapsed::new(100, 0), &vec![1], &vec![1]);
    driver.step(Event::Start);
    driver.step(Event::Sent(SendOutcome::Success(1)));
    let step = driver.step(Event::Elapsed(Elapsed::new(5, 0)));
    assert_eq!(step.output, "Sending 1x1 bytes: 0 B/s - 0 pps\r");
    assert_eq!(driver.accumulator().next_print_second, 2);
}

#[test]
fn point_ends_only_beyond_the_duration() {
    let mut driver =
        Driver::with_plan(Protocol::Ethernet, Elapsed::new(2, 0), &vec![1, 10], &vec![28]);
    driver.step(Event::Start);
    driver.step(Event::Sent(SendOutcome::Success(28)));
    // Exactly the duration: the sweep point goes on.
    let step = driver.step(Event::Elapsed(Elapsed::new(2, 0)));
    assert_eq!(step.action, Action::Send(point(1, 28)));
    assert_eq!(step.output, "Sending 1x28 bytes: 14 B/s - 1 pps\r");
    driver.step(Event::Sent(SendOutcome::Success(28)));
    // One nanosecond more: the line is ended and the next point opened.
    let step = driver.step(Event::Elapsed(Elapsed::new(2, 1)));
    assert_eq!(step.action, Action::Open(point(10, 28)));
    assert_eq!(step.output, "Sending 1x28 bytes: 28 B/s - 1 pps\r\n");
    assert_eq!(driver.completed_points(), 1);
    assert_eq!(
        driver.accumulator(),
        RunAccumulator { packets: 0, bytes: 0, next_print_second: 1 }
    );
    driver.step(Event::Sent(SendOutcome::Success(280)));
    let step = driver.step(Event::Elapsed(Elapsed::new(3, 0)));
    assert_eq!(
        step.output,
        "Sending 10x28 bytes: 93 B/s - 3 pps\r\nBenchmark resulted in 0 InvalidTx\n"
    );
    assert_eq!(step.action, Action::Finish(0));
    assert_eq!(driver.phase(), Phase::Finished);
    assert_eq!(driver.completed_points(), 2);
}

#[test]
fn stale_handle_once_is_counted_once() {
    let config = config_with(true, false, false, Elapsed::new(2, 0));
    let mut driver = Driver::new(Protocol::Ethernet, &config);
    let report = run_loop(
        &mut driver,
        |attempt, _| {
            if attempt == 1 {
                SendOutcome::StaleHandle
            } else {
                SendOutcome::Success(0)
            }
        },
        |reading| Elapsed::new(reading as u64, 500_000_000),
    );
    // Readings at 1.5 s and 2.5 s: two attempts at each sweep point.
    assert_eq!(report.last, Action::Finish(1));
    assert_eq!(driver.invalid_tx_count(), 1);
    assert_eq!(report.handles_replaced, 1);
    assert_eq!(report.timers_started, 4);
    assert_eq!(
        report.points,
        vec![
            PointReport { point: point(1, 28), attempts: 2, packets: 1, bytes: 28 },
            PointReport { point: point(10, 28), attempts: 2, packets: 20, bytes: 560 },
            PointReport { point: point(100, 28), attempts: 2, packets: 200, bytes: 5600 },
            PointReport { point: point(1000, 28), attempts: 2, packets: 2000, bytes: 56000 },
        ]
    );
    assert_eq!(
        report.output,
        "== Rips Ethernet sending ==\r\n\
         Sending 1x28 bytes: 0 B/s - 0 pps\r\
         Sending 1x28 bytes: 11 B/s - 0 pps\r\n\
         Sending 10x28 bytes: 187 B/s - 7 pps\r\
         Sending 10x28 bytes: 224 B/s - 8 pps\r\n\
         Sending 100x28 bytes: 1 kiB/s - 67 pps\r\
         Sending 100x28 bytes: 2 kiB/s - 80 pps\r\n\
         Sending 1000x28 bytes: 18 kiB/s - 667 pps\r\
         Sending 1000x28 bytes: 21 kiB/s - 800 pps\r\n\
         Benchmark resulted in 1 InvalidTx\n"
    );
}

#[test]
fn stale_handle_step_by_step() {
    let mut driver = Driver::with_plan(Protocol::Udp, Elapsed::new(1, 0), &vec![10], &vec![28]);
    driver.step(Event::Start);
    driver.step(Event::Sent(SendOutcome::Success(280)));
    driver.step(Event::Elapsed(Elapsed::new(0, 10)));
    let before = driver.accumulator();
    let step = driver.step(Event::Sent(SendOutcome::StaleHandle));
    assert_eq!(step.action, Action::Reacquire);
    assert_eq!(step.output, "");
    assert_eq!(driver.phase(), Phase::Reacquiring);
    assert_eq!(driver.invalid_tx_count(), 1);
    assert_eq!(driver.accumulator(), before);
    let step = driver.step(Event::HandleReplaced);
    assert_eq!(step.action, Action::ReadClock);
    assert_eq!(driver.phase(), Phase::Timing);
    assert_eq!(driver.accumulator(), before);
    assert_eq!(driver.position(), Position::At(point(10, 28)));
    let step = driver.step(Event::Elapsed(Elapsed::new(0, 20)));
    assert_eq!(step.action, Action::Send(point(10, 28)));
}

#[test]
fn zero_duration_sends_once_at_each_point() {
    let config = config_with(true, true, true, Elapsed::new(0, 0));
    let mut driver = Driver::new(Protocol::Udp, &config);
    let report = run_loop(
        &mut driver,
        |_, _| SendOutcome::Success(0),
        |_| Elapsed::new(0, 1),
    );
    assert_eq!(report.last, Action::Finish(0));
    assert_eq!(report.points.len(), 12);
    assert_eq!(report.timers_started, 12);
    let mut expected = Vec::new();
    for batch in [1, 10, 100, 1000] {
        for size in [28, 1472, 65000] {
            expected.push(PointReport {
                point: point(batch, size),
                attempts: 1,
                packets: batch,
                bytes: batch * size,
            });
        }
    }
    assert_eq!(report.points, expected);
    // No whole second has passed anywhere: one line break for each point.
    assert_eq!(
        report.output,
        format!(
            "== Rips UDP sending ==\r\n{}Benchmark resulted in 0 InvalidTx\n",
            "\n".repeat(12)
        )
    );
}

#[test]
fn zero_duration_goes_on_while_the_clock_reads_zero() {
    let mut driver = Driver::with_plan(Protocol::Pnet, Elapsed::new(0, 0), &vec![1], &vec![42]);
    let report = run_loop(
        &mut driver,
        |_, _| SendOutcome::Success(42),
        |reading| if reading < 3 { Elapsed::new(0, 0) } else { Elapsed::new(0, 1) },
    );
    assert_eq!(report.last, Action::Finish(0));
    assert_eq!(
        report.points,
        vec![PointReport { point: point(1, 42), attempts: 3, packets: 3, bytes: 126 }]
    );
    assert_eq!(report.output, "== Raw pnet datalink sending ==\r\n\n");
}

#[test]
fn fatal_on_the_third_call_aborts_with_two_sends_counted() {
    let config = config_with(true, false, false, Elapsed::new(10, 0));
    let mut driver = Driver::new(Protocol::Ethernet, &config);
    let report = run_loop(
        &mut driver,
        |attempt, _| {
            if attempt == 3 {
                SendOutcome::Fatal(SendFailure::Transmission)
            } else {
                SendOutcome::Success(28)
            }
        },
        |reading| Elapsed::new(0, reading as u32),
    );
    let error = BenchError {
        kind: ErrorKind::Transmission,
        protocol: Protocol::Ethernet,
        position: Position::At(point(1, 28)),
    };
    assert_eq!(report.last, Action::Abort(error));
    assert_eq!(driver.phase(), Phase::Aborted(error));
    assert_eq!(
        report.points,
        vec![PointReport { point: point(1, 28), attempts: 3, packets: 2, bytes: 56 }]
    );
    assert_eq!(driver.accumulator().packets, 2);
    assert_eq!(driver.accumulator().bytes, 56);
    assert_eq!(driver.completed_points(), 0);
    assert_eq!(report.timers_started, 1);
    assert_eq!(report.output, "== Rips Ethernet sending ==\r\n");
}

#[test]
fn nothing_happens_after_a_failure() {
    let mut driver = Driver::with_plan(Protocol::Udp, Elapsed::new(1, 0), &vec![1, 10], &vec![28]);
    driver.step(Event::Start);
    let step = driver.step(Event::Sent(SendOutcome::Fatal(SendFailure::BufferTooSmall)));
    let error = BenchError {
        kind: ErrorKind::BufferTooSmall,
        protocol: Protocol::Udp,
        position: Position::At(point(1, 28)),
    };
    assert_eq!(step.action, Action::Abort(error));
    let events = [
        Event::Start,
        Event::Sent(SendOutcome::Success(28)),
        Event::Sent(SendOutcome::StaleHandle),
        Event::HandleReplaced,
        Event::Elapsed(Elapsed::new(5, 0)),
        Event::OutputFailed,
    ];
    for event in events {
        let step = driver.step(event);
        assert_eq!(step.action, Action::Abort(error));
        assert_eq!(step.output, "");
        assert_eq!(driver.phase(), Phase::Aborted(error));
        assert_eq!(driver.accumulator().packets, 0);
        assert_eq!(driver.invalid_tx_count(), 0);
        assert_eq!(driver.completed_points(), 0);
        assert_eq!(driver.position(), Position::Outside);
    }
}

#[test]
fn failed_output_aborts() {
    let mut driver = Driver::with_plan(Protocol::Pnet, Elapsed::new(1, 0), &vec![1], &vec![42]);
    let step = driver.step(Event::OutputFailed);
    assert_eq!(
        step.action,
        Action::Abort(BenchError {
            kind: ErrorKind::Output,
            protocol: Protocol::Pnet,
            position: Position::Outside,
        })
    );

    let mut driver = Driver::with_plan(Protocol::Pnet, Elapsed::new(1, 0), &vec![1], &vec![42]);
    driver.step(Event::Start);
    driver.step(Event::Sent(SendOutcome::Success(42)));
    let step = driver.step(Event::OutputFailed);
    assert_eq!(
        step.action,
        Action::Abort(BenchError {
            kind: ErrorKind::Output,
            protocol: Protocol::Pnet,
            position: Position::At(point(1, 42)),
        })
    );
}

#[test]
fn failed_output_after_the_sweep_aborts() {
    let mut driver = Driver::with_plan(Protocol::Udp, Elapsed::new(1, 0), &vec![1], &vec![]);
    assert_eq!(driver.step(Event::Start).action, Action::Finish(0));
    let step = driver.step(Event::OutputFailed);
    assert_eq!(
        step.action,
        Action::Abort(BenchError {
            kind: ErrorKind::Output,
            protocol: Protocol::Udp,
            position: Position::Outside,
        })
    );
}

#[test]
fn finished_run_stays_finished() {
    let mut driver = Driver::with_plan(Protocol::Ethernet, Elapsed::new(0, 0), &vec![1], &vec![28]);
    driver.step(Event::Start);
    driver.step(Event::Sent(SendOutcome::StaleHandle));
    driver.step(Event::HandleReplaced);
    let step = driver.step(Event::Elapsed(Elapsed::new(0, 1)));
    assert_eq!(step.action, Action::Finish(1));
    assert_eq!(step.output, "\nBenchmark resulted in 1 InvalidTx\n");
    for event in [
        Event::Start,
        Event::Sent(SendOutcome::Success(28)),
        Event::HandleReplaced,
        Event::Elapsed(Elapsed::new(9, 0)),
    ] {
        let step = driver.step(event);
        assert_eq!(step.action, Action::Finish(1));
        assert_eq!(step.output, "");
        assert_eq!(driver.phase(), Phase::Finished);
    }
}

#[test]
fn unexpected_event_aborts() {
    let unexpected = |position| BenchError {
        kind: ErrorKind::UnexpectedEvent,
        protocol: Protocol::Udp,
        position,
    };
    let fresh = || Driver::with_plan(Protocol::Udp, Elapsed::new(1, 0), &vec![1], &vec![28]);

    let mut driver = fresh();
    let step = driver.step(Event::Elapsed(Elapsed::new(1, 0)));
    assert_eq!(step.action, Action::Abort(unexpected(Position::Outside)));

    let mut driver = fresh();
    driver.step(Event::Start);
    // No clock reading is taken before the send attempt has ended.
    let step = driver.step(Event::Elapsed(Elapsed::new(1, 0)));
    assert_eq!(step.action, Action::Abort(unexpected(Position::At(point(1, 28)))));

    let mut driver = fresh();
    driver.step(Event::Start);
    driver.step(Event::Sent(SendOutcome::StaleHandle));
    let step = driver.step(Event::Sent(SendOutcome::Success(28)));
    assert_eq!(step.action, Action::Abort(unexpected(Position::At(point(1, 28)))));

    let mut driver = fresh();
    driver.step(Event::Start);
    driver.step(Event::Sent(SendOutcome::Success(28)));
    let step = driver.step(Event::HandleReplaced);
    assert_eq!(step.action, Action::Abort(unexpected(Position::At(point(1, 28)))));
}

#[test]
fn counter_overflow_aborts() {
    let overflow = |position| BenchError {
        kind: ErrorKind::CounterOverflow,
        protocol: Protocol::Udp,
        position,
    };
    // One call would send more bytes than a counter holds.
    let huge = point(usize::MAX, 2);
    let mut driver = Driver::with_plan(
        Protocol::Udp,
        Elapsed::new(1, 0),
        &vec![usize::MAX],
        &vec![2],
    );
    driver.step(Event::Start);
    let step = driver.step(Event::Sent(SendOutcome::Success(0)));
    assert_eq!(step.action, Action::Abort(overflow(Position::At(huge))));
    assert_eq!(driver.accumulator().packets, 0);
    assert_eq!(driver.accumulator().bytes, 0);

    // The second call would take the packet count beyond its counter.
    let wide = point(usize::MAX, 0);
    let mut driver = Driver::with_plan(
        Protocol::Udp,
        Elapsed::new(1, 0),
        &vec![usize::MAX],
        &vec![0],
    );
    driver.step(Event::Start);
    assert_eq!(driver.step(Event::Sent(SendOutcome::Success(0))).action, Action::ReadClock);
    driver.step(Event::Elapsed(Elapsed::new(0, 1)));
    let step = driver.step(Event::Sent(SendOutcome::Success(0)));
    assert_eq!(step.action, Action::Abort(overflow(Position::At(wide))));
    assert_eq!(driver.accumulator().packets, usize::MAX);
}

#[test]
fn accumulator_counts_and_refuses_overflow() {
    let mut accumulator = RunAccumulator::new();
    assert_eq!(accumulator, RunAccumulator { packets: 0, bytes: 0, next_print_second: 1 });
    assert!(accumulator.record_success(point(1000, 1500)));
    assert!(accumulator.record_success(point(1000, 1500)));
    assert_eq!(
        accumulator,
        RunAccumulator { packets: 2000, bytes: 3_000_000, next_print_second: 1 }
    );
    assert!(!accumulator.record_success(point(1, usize::MAX)));
    assert!(!accumulator.record_success(point(usize::MAX, 1)));
    assert_eq!(
        accumulator,
        RunAccumulator { packets: 2000, bytes: 3_000_000, next_print_second: 1 }
    );
    assert!(!accumulator.is_due(Elapsed::new(0, 999_999_999)));
    assert!(accumulator.is_due(Elapsed::new(1, 0)));
    accumulator.mark_rendered();
    assert_eq!(accumulator.next_print_second, 2);
    assert!(!accumulator.is_due(Elapsed::new(1, 999_999_999)));
    assert!(accumulator.is_due(Elapsed::new(2, 0)));
}
