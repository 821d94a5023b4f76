use shape_interop::control::{
    classify, ControlLoop, Event, Request, Source, Take, POLL_TIMEOUT_MILLIS, READER_READY,
    READER_STATUS_READY, STOP_PROGRAM, WRITER_STATUS_READY,
};
use shape_interop::motion::Shape;

const MILLI: u64 = 1_000_000;

fn machine(has_reader: bool, has_writer: bool) -> ControlLoop {
    let shape = Shape::new(String::from("BLUE"));
    ControlLoop::new(String::from("Square"), shape, 3, -4, has_reader, has_writer, 0)
        .expect("start values are within the limits")
}

fn woke(tokens: &[usize]) -> Event {
    Event::Woke { tokens: tokens.to_vec() }
}

fn print(line: &str) -> Request {
    Request::Print { line: String::from(line) }
}

fn log(message: &str) -> Request {
    Request::LogError { message: String::from(message) }
}

fn value(color: &str, x: i32, y: i32) -> Event {
    Event::Sample { taken: Take::Value(Shape { color: String::from(color), x, y, shapesize: 30 }) }
}

#[test]
fn tokens_are_four_and_distinct() {
    assert_eq!(
        (STOP_PROGRAM, READER_READY, READER_STATUS_READY, WRITER_STATUS_READY),
        (0, 1, 2, 3)
    );
    assert_eq!(classify(0), Source::Stop);
    assert_eq!(classify(1), Source::ReaderData);
    assert_eq!(classify(2), Source::ReaderStatus);
    assert_eq!(classify(3), Source::WriterStatus);
    assert_eq!(classify(4), Source::Unknown);
    assert_eq!(classify(usize::MAX), Source::Unknown);
}

#[test]
fn loop_starts_with_a_bounded_wait() {
    let machine = machine(true, true);
    assert_eq!(POLL_TIMEOUT_MILLIS, 200);
    assert_eq!(machine.request(), Request::Wait { timeout_millis: 200 });
    assert!(!machine.is_stopped());
    assert_eq!(machine.shape(), &Shape::new(String::from("BLUE")));
    assert_eq!(machine.velocity(), (3, -4));
    assert_eq!(machine.last_write(), 0);
}

#[test]
fn no_loop_beyond_the_limits() {
    let shape = Shape { color: String::new(), x: i32::MAX, y: 0, shapesize: 21 };
    assert!(ControlLoop::new(String::from("Square"), shape, 1, 1, true, true, 0).is_none());
    let shape = Shape::new(String::new());
    assert!(ControlLoop::new(String::from("Square"), shape, i32::MIN, 1, true, true, 0).is_none());
    let shape = Shape::new(String::new());
    assert!(ControlLoop::new(String::from("Square"), shape, 0, 0, false, false, 7).is_some());
}

#[test]
fn timeout_moves_the_shape_and_reads_the_clock() {
    let machine = machine(false, true).step(woke(&[]));
    assert_eq!(machine.request(), Request::ReadClock);
    // From the corner the first step lands on both walls and turns round.
    assert_eq!((machine.shape().x, machine.shape().y), (11, 11));
    assert_eq!(machine.velocity(), (-3, 4));
}

#[test]
fn without_a_writer_the_clock_is_not_read() {
    let machine = machine(true, false).step(woke(&[]));
    assert_eq!(machine.request(), Request::Wait { timeout_millis: 200 });
    assert_eq!((machine.shape().x, machine.shape().y), (11, 11));
    let machine = machine.step(woke(&[]));
    assert_eq!(machine.request(), Request::Wait { timeout_millis: 200 });
    assert_eq!((machine.shape().x, machine.shape().y), (11, 15));
    assert_eq!(machine.velocity(), (3, 4));
}

#[test]
fn write_waits_for_the_interval_to_pass() {
    let machine = machine(false, true).step(woke(&[]));
    let machine = machine.step(Event::Clock { now: 200 * MILLI });
    assert_eq!(machine.request(), Request::Wait { timeout_millis: 200 });
    assert_eq!(machine.last_write(), 0);
    let machine = machine.step(woke(&[])).step(Event::Clock { now: 200 * MILLI + 1 });
    assert_eq!(
        machine.request(),
        Request::Write { sample: Shape { color: String::from("BLUE"), x: 11, y: 15, shapesize: 21 } }
    );
    assert_eq!(machine.last_write(), 200 * MILLI + 1);
    let machine = machine.step(Event::Written { failure: None });
    assert_eq!(machine.request(), Request::Wait { timeout_millis: 200 });
}

#[test]
fn failed_write_is_logged_and_the_loop_goes_on() {
    let machine = machine(false, true).step(woke(&[])).step(Event::Clock { now: 500 * MILLI });
    let shape_before = machine.shape().clone();
    let machine = machine.step(Event::Written { failure: Some(String::from("WouldBlock")) });
    assert_eq!(machine.request(), log("DataWriter write failed: WouldBlock"));
    assert!(!machine.is_stopped());
    assert_eq!(machine.shape(), &shape_before);
    assert_eq!(machine.velocity(), (-3, 4));
    // The timer was started anew when the sample was handed over.
    assert_eq!(machine.last_write(), 500 * MILLI);
    let machine = machine.step(Event::Done);
    assert_eq!(machine.request(), Request::Wait { timeout_millis: 200 });
}

// Runs `turns` turns in which nothing is ready, reading the clock `step`
// later in each, and counts the writes asked for.
fn idle_writes(step: u64, turns: u64) -> (u64, u64) {
    let mut machine = machine(false, true);
    let mut now = 0;
    let mut writes = 0;
    for _ in 0..turns {
        assert_eq!(machine.request(), Request::Wait { timeout_millis: 200 });
        machine = machine.step(woke(&[]));
        assert_eq!(machine.request(), Request::ReadClock);
        now += step;
        machine = machine.step(Event::Clock { now });
        if let Request::Write { .. } = machine.request() {
            writes += 1;
            machine = machine.step(Event::Written { failure: None });
        }
    }
    (writes, now)
}

#[test]
fn writes_keep_pace_with_the_clock() {
    // Turns of 10 ms: one write every 21st turn.
    let (writes, elapsed) = idle_writes(10 * MILLI, 10);
    assert_eq!((writes, elapsed / (200 * MILLI)), (0, 0));
    let (writes, elapsed) = idle_writes(10 * MILLI, 21);
    assert_eq!((writes, elapsed / (200 * MILLI)), (1, 1));
    let (writes, elapsed) = idle_writes(10 * MILLI, 19);
    assert!(writes == elapsed / (200 * MILLI) || writes + 1 == elapsed / (200 * MILLI));
    // Turns of just over the interval: one write in every turn.
    let (writes, elapsed) = idle_writes(200 * MILLI + 1, 50);
    assert_eq!(writes, 50);
    assert_eq!(elapsed / (200 * MILLI), 50);
    // Turns of exactly the interval: a write in every second turn only.
    let (writes, _) = idle_writes(200 * MILLI, 50);
    assert_eq!(writes, 25);
}

#[test]
fn reader_is_drained_until_nothing_is_left() {
    let mut machine = machine(true, false).step(woke(&[READER_READY]));
    let samples = [("RED", 1, 2), ("GREEN", 30, 40), ("BLUE", 120, 135)];
    let lines = [
        "Square     RED          1   2 [30]",
        "Square     GREEN       30  40 [30]",
        "Square     BLUE       120 135 [30]",
    ];
    let mut takes = 0;
    for ((color, x, y), line) in samples.into_iter().zip(lines) {
        assert_eq!(machine.request(), Request::TakeSample);
        takes += 1;
        machine = machine.step(value(color, x, y));
        assert_eq!(machine.request(), print(line));
        machine = machine.step(Event::Done);
    }
    assert_eq!(machine.request(), Request::TakeSample);
    takes += 1;
    let shape_before = machine.shape().clone();
    machine = machine.step(Event::Sample { taken: Take::Nothing });
    assert_eq!(takes, 4);
    // The drain is over: the turn ends, the shape moves, the next wait begins.
    assert_eq!(machine.request(), Request::Wait { timeout_millis: 200 });
    assert_ne!(machine.shape(), &shape_before);
}

#[test]
fn empty_reader_is_asked_once() {
    let machine = machine(true, false).step(woke(&[READER_READY]));
    assert_eq!(machine.request(), Request::TakeSample);
    let machine = machine.step(Event::Sample { taken: Take::Nothing });
    assert_eq!(machine.request(), Request::Wait { timeout_millis: 200 });
}

#[test]
fn disposal_and_fault_are_reported_and_the_drain_goes_on() {
    let machine = machine(true, false).step(woke(&[READER_READY]));
    let machine = machine.step(Event::Sample { taken: Take::Disposed(String::from("RED")) });
    assert_eq!(machine.request(), print("Disposed key \"RED\""));
    let machine = machine.step(Event::Done);
    assert_eq!(machine.request(), Request::TakeSample);
    let machine = machine.step(Event::Sample { taken: Take::Failed(String::from("Broken")) });
    assert_eq!(machine.request(), print("DataReader error Broken"));
    assert!(!machine.is_stopped());
    let machine = machine.step(Event::Done);
    assert_eq!(machine.request(), Request::TakeSample);
}

#[test]
fn status_events_are_drained() {
    let machine = machine(true, true).step(woke(&[READER_STATUS_READY, WRITER_STATUS_READY]));
    assert_eq!(machine.request(), Request::ReceiveReaderStatus);
    let machine = machine.step(Event::Status { status: Some(String::from("Matched")) });
    assert_eq!(machine.request(), print("DataReader status: Matched"));
    let machine = machine.step(Event::Done);
    assert_eq!(machine.request(), Request::ReceiveReaderStatus);
    let machine = machine.step(Event::Status { status: None });
    assert_eq!(machine.request(), Request::ReceiveWriterStatus);
    let machine = machine.step(Event::Status { status: Some(String::from("Lost")) });
    assert_eq!(machine.request(), print("DataWriter status: Lost"));
    let machine = machine.step(Event::Done);
    assert_eq!(machine.request(), Request::ReceiveWriterStatus);
    let machine = machine.step(Event::Status { status: None });
    assert_eq!(machine.request(), Request::ReadClock);
}

#[test]
fn missing_endpoints_are_logged() {
    let machine = machine(false, false).step(woke(&[1, 2, 3]));
    assert_eq!(machine.request(), log("Where is my reader?"));
    let machine = machine.step(Event::Done);
    assert_eq!(machine.request(), log("Where is my reader?"));
    let machine = machine.step(Event::Done);
    assert_eq!(machine.request(), log("Where is my writer?"));
    let machine = machine.step(Event::Done);
    assert_eq!(machine.request(), Request::Wait { timeout_millis: 200 });
}

#[test]
fn unexpected_token_is_reported_and_passed_over() {
    let machine = machine(true, true).step(woke(&[9, 1]));
    assert_eq!(machine.request(), print("Polled event is Token(9). WTF?"));
    assert!(!machine.is_stopped());
    let machine = machine.step(Event::Done);
    assert_eq!(machine.request(), Request::TakeSample);
}

#[test]
fn stop_signal_ends_the_loop() {
    let machine = machine(true, true).step(woke(&[STOP_PROGRAM, READER_READY]));
    assert_eq!(machine.request(), Request::ReceiveStop);
    let moved = machine.shape().clone();
    let machine = machine.step(Event::StopSignal { received: true });
    assert!(machine.is_stopped());
    assert_eq!(machine.request(), print("Done."));
    let machine = machine.step(Event::Done);
    assert!(machine.is_stopped());
    assert_eq!(machine.request(), Request::Halt);
    assert_eq!(machine.shape(), &moved);
}

#[test]
fn stopped_loop_asks_for_nothing_more() {
    let mut machine = machine(true, true)
        .step(woke(&[STOP_PROGRAM]))
        .step(Event::StopSignal { received: true })
        .step(Event::Done);
    let events = [
        woke(&[1, 2, 3]),
        Event::Clock { now: u64::MAX },
        value("RED", 1, 2),
        Event::Status { status: Some(String::from("Matched")) },
        Event::Written { failure: None },
        Event::StopSignal { received: false },
        Event::Done,
    ];
    for event in events {
        machine = machine.step(event);
        assert!(machine.is_stopped());
        assert_eq!(machine.request(), Request::Halt);
        assert_eq!(machine.last_write(), 0);
        assert_eq!((machine.shape().x, machine.shape().y), (0, 0));
    }
}

#[test]
fn stop_token_without_a_signal_changes_nothing() {
    let machine = machine(false, false).step(woke(&[STOP_PROGRAM]));
    let machine = machine.step(Event::StopSignal { received: false });
    assert!(!machine.is_stopped());
    assert_eq!(machine.request(), Request::Wait { timeout_millis: 200 });
}

#[test]
fn tokens_before_the_stop_token_are_served_first() {
    let machine = machine(true, false).step(woke(&[READER_READY, STOP_PROGRAM]));
    assert_eq!(machine.request(), Request::TakeSample);
    let machine = machine.step(Event::Sample { taken: Take::Nothing });
    assert_eq!(machine.request(), Request::ReceiveStop);
}

#[test]
fn event_that_answers_nothing_is_ignored() {
    let machine = machine(true, true);
    let machine = machine.step(Event::Clock { now: 900 * MILLI });
    assert_eq!(machine.request(), Request::Wait { timeout_millis: 200 });
    assert_eq!(machine.last_write(), 0);
    let machine = machine.step(Event::Done).step(value("RED", 1, 2));
    assert_eq!(machine.request(), Request::Wait { timeout_millis: 200 });
    assert_eq!((machine.shape().x, machine.shape().y), (0, 0));
    let machine = machine.step(woke(&[READER_READY])).step(woke(&[STOP_PROGRAM]));
    assert_eq!(machine.request(), Request::TakeSample);
}

#[test]
fn shape_stays_inside_the_walls_turn_after_turn() {
    let mut machine = machine(false, false);
    for _ in 0..2000 {
        machine = machine.step(woke(&[]));
        let shape = machine.shape();
        assert!(11 <= shape.x && shape.x <= 240 - 11);
        assert!(11 <= shape.y && shape.y <= 270 - 11);
        let (xv, yv) = machine.velocity();
        assert_eq!((xv.abs(), yv.abs()), (3, 4));
    }
}
