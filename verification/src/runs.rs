//! What holds of whole runs of the control loop: of the states that it passes
//! through and of the requests that it makes, for every sequence of events.

use crate::control::{
    EventView, LoopView, RequestView, Resume, StageView, TakeView, POLL_TIMEOUT_MILLIS,
    STOP_PROGRAM,
};
use crate::motion::{
    has_room, inside_canvas, lemma_advance_lands_inside, lemma_limits_kept, lemma_speed_kept,
    speed,
};
use crate::render::{
    debug_form, disposal_line, reader_error_line, reader_status_line, sample_line,
    write_failure_line, writer_status_line,
};
use crate::timer::{
    clock_advances, delays, elapsed, last_write_after, lemma_write_count, lemma_writes_at_most,
    since_last_write, writes_during, PUBLISH_INTERVAL_NANOS,
};
use vstd::prelude::*;

verus! {

/// The state that the loop is in after the events `events`, in their order.
pub open spec fn run(state: LoopView, events: Seq<EventView>) -> LoopView
    decreases events.len(),
{
    if events.len() == 0 {
        state
    } else {
        run(state, events.drop_last()).next(events.last())
    }
}

/// The requests that the loop makes over the events `events`: the one that
/// is outstanding after each of them.
pub open spec fn requests(state: LoopView, events: Seq<EventView>) -> Seq<RequestView>
    decreases events.len(),
{
    if events.len() == 0 {
        Seq::empty()
    } else {
        requests(state, events.drop_last()).push(run(state, events).request())
    }
}

/// How many of `requests` ask for a write.
pub open spec fn count_writes(requests: Seq<RequestView>) -> nat
    decreases requests.len(),
{
    if requests.len() == 0 {
        0
    } else if requests.last() is Write {
        count_writes(requests.drop_last()) + 1
    } else {
        count_writes(requests.drop_last())
    }
}

/// One event more: the run goes one step further, and one request is added.
proof fn lemma_one_more(state: LoopView, events: Seq<EventView>, event: EventView)
    ensures
        run(state, events.push(event)) == run(state, events).next(event),
        requests(state, events.push(event)) == requests(state, events).push(
            run(state, events).next(event).request(),
        ),
        count_writes(requests(state, events.push(event))) == count_writes(
            requests(state, events),
        ) + if run(state, events).next(event).request() is Write {
            1nat
        } else {
            0nat
        },
{
    assert(events.push(event).drop_last() =~= events);
    let made = requests(state, events);
    let request = run(state, events).next(event).request();
    assert(made.push(request).drop_last() =~= made);
}

/// A request that touches no endpoint, no clock and no source of events: a
/// line to print, a message to log, or the end of the loop.
pub open spec fn is_quiet(request: RequestView) -> bool {
    request is Print || request is LogError || request is Halt
}

/// The loop keeps its state sound: when the shape can be moved before an
/// event, it can be moved after it.
pub proof fn lemma_next_sound(state: LoopView, event: EventView)
    requires
        state.sound(),
    ensures
        state.next(event).sound(),
{
    lemma_limits_kept(state.shape, state.xv, state.yv);
}

/// What no run changes: the topic, the endpoints that there are, the color
/// and the size of the shape, and the speed along each axis; only the
/// direction of a velocity ever changes. A sound state stays sound, and a
/// shape that has room in the canvas and is inside the walls stays inside
/// them.
pub proof fn lemma_run_keeps(state: LoopView, events: Seq<EventView>)
    ensures
        run(state, events).topic == state.topic,
        run(state, events).has_reader == state.has_reader,
        run(state, events).has_writer == state.has_writer,
        run(state, events).shape.color == state.shape.color,
        run(state, events).shape.size == state.shape.size,
        speed(run(state, events).xv) == speed(state.xv),
        speed(run(state, events).yv) == speed(state.yv),
        state.sound() ==> run(state, events).sound(),
        has_room(state.shape.size) && inside_canvas(state.shape) ==> inside_canvas(
            run(state, events).shape,
        ),
    decreases events.len(),
{
    if events.len() > 0 {
        lemma_run_keeps(state, events.drop_last());
        let before = run(state, events.drop_last());
        lemma_speed_kept(before.shape, before.xv, before.yv);
        if before.sound() {
            lemma_next_sound(before, events.last());
        }
        if has_room(before.shape.size) {
            lemma_advance_lands_inside(before.shape, before.xv, before.yv);
        }
    }
}

/// A run in two parts: the second part goes on from where the first part
/// ended, and its requests follow those of the first.
pub proof fn lemma_run_in_parts(state: LoopView, first: Seq<EventView>, second: Seq<EventView>)
    ensures
        run(state, first + second) == run(run(state, first), second),
        requests(state, first + second) == requests(state, first) + requests(
            run(state, first),
            second,
        ),
    decreases second.len(),
{
    if second.len() == 0 {
        assert(first + second =~= first);
        assert(requests(state, first) + requests(run(state, first), second) =~= requests(
            state,
            first,
        ));
    } else {
        lemma_run_in_parts(state, first, second.drop_last());
        assert((first + second).drop_last() =~= first + second.drop_last());
        assert((first + second).last() == second.last());
        assert(requests(state, first + second) =~= requests(state, first) + requests(
            run(state, first),
            second,
        ));
    }
}

/// The wait is bounded: whenever the loop asks to wait, it asks for at most
/// the poll timeout.
pub proof fn lemma_wait_is_bounded(state: LoopView)
    ensures
        state.request() matches RequestView::Wait { timeout_millis } ==> timeout_millis
            == POLL_TIMEOUT_MILLIS,
{
}

/// A wake-up without any ready source is an ordinary turn of the loop: the
/// shape moves one step, and nothing is printed or logged.
pub proof fn lemma_timeout_is_a_turn(state: LoopView)
    requires
        state.stage is Waiting,
    ensures
        state.next(EventView::Woke { tokens: Seq::empty() }) == (LoopView {
            pending: Seq::empty(),
            ..state
        }).finish_turn(),
        !is_quiet(state.next(EventView::Woke { tokens: Seq::empty() }).request()),
{
}

/// Every turn ends with the shape inside the walls, provided that it has
/// room in the canvas.
pub proof fn lemma_turn_lands_inside(state: LoopView)
    requires
        has_room(state.shape.size),
    ensures
        inside_canvas(state.finish_turn().shape),
{
    lemma_advance_lands_inside(state.shape, state.xv, state.yv);
}

/// One request is made for every event.
pub proof fn lemma_requests_len(state: LoopView, events: Seq<EventView>)
    ensures
        requests(state, events).len() == events.len(),
    decreases events.len(),
{
    if events.len() > 0 {
        lemma_requests_len(state, events.drop_last());
    }
}

/// The shutdown signal ends the loop: once it is received, the loop is
/// stopped, the last line is printed, and then the loop asks to be left.
pub proof fn lemma_stop_signal_stops(state: LoopView)
    requires
        state.stage is ReceivingStop,
    ensures
        state.next(EventView::StopSignal { received: true }).stopped(),
        state.next(EventView::StopSignal { received: true }).request() == (RequestView::Print {
            line: "Done."@,
        }),
        state.next(EventView::StopSignal { received: true }).next(EventView::Done).request()
            is Halt,
        state.next(EventView::StopSignal { received: true }).next(EventView::Done).stopped(),
{
}

/// A wake-up that reports the shutdown token first leads straight to the
/// end: the loop asks for the signal, and with the signal there it stops,
/// without a take, a write or another wait in between.
pub proof fn lemma_shutdown(state: LoopView, tokens: Seq<usize>)
    requires
        state.stage is Waiting,
        tokens.len() > 0,
        tokens[0] == STOP_PROGRAM,
    ensures
        state.next(EventView::Woke { tokens }).request() is ReceiveStop,
        state.next(EventView::Woke { tokens }).next(
            EventView::StopSignal { received: true },
        ).stopped(),
{
}

/// A stopped loop stays stopped whatever events follow. It makes no request
/// any more but to print its last line and to be left: no take, no write, no
/// wait. Shape, velocity and timer stay as they are.
pub proof fn lemma_stopped_for_good(state: LoopView, events: Seq<EventView>)
    requires
        state.stopped(),
    ensures
        run(state, events).stopped(),
        run(state, events).shape == state.shape,
        run(state, events).xv == state.xv,
        run(state, events).yv == state.yv,
        run(state, events).last_write == state.last_write,
        forall|i: int| 0 <= i < events.len() ==> is_quiet(#[trigger] requests(state, events)[i]),
    decreases events.len(),
{
    lemma_requests_len(state, events);
    if events.len() > 0 {
        lemma_stopped_for_good(state, events.drop_last());
        lemma_requests_len(state, events.drop_last());
    }
}

/// Shutdown at any point of any run: whatever happened before the loop asked
/// for the shutdown signal, once the signal is received the loop is stopped,
/// and whatever events follow, it asks for nothing but to print its last
/// line and to be left.
pub proof fn lemma_shutdown_is_final(
    state: LoopView,
    before: Seq<EventView>,
    after: Seq<EventView>,
)
    requires
        run(state, before).stage is ReceivingStop,
    ensures
        run(state, before.push(EventView::StopSignal { received: true }) + after).stopped(),
        forall|i: int|
            before.len() <= i < before.len() + 1 + after.len() ==> is_quiet(
                #[trigger] requests(
                    state,
                    before.push(EventView::StopSignal { received: true }) + after,
                )[i],
            ),
{
    let signal = EventView::StopSignal { received: true };
    let stopping = run(state, before).next(signal);
    lemma_one_more(state, before, signal);
    lemma_run_in_parts(state, before.push(signal), after);
    lemma_stopped_for_good(stopping, after);
    lemma_requests_len(state, before);
    lemma_requests_len(state, before.push(signal));
    lemma_requests_len(stopping, after);
    let all = requests(state, before.push(signal) + after);
    assert forall|i: int| before.len() <= i < before.len() + 1 + after.len() implies is_quiet(
        #[trigger] all[i],
    ) by {
        if i == before.len() {
            assert(all[i] == stopping.request());
        } else {
            assert(all[i] == requests(stopping, after)[i - before.len() - 1]);
        }
    }
}

/// A fault of an endpoint is reported and survived. A take that fails is
/// answered with a line and the next take; a write that fails is answered
/// with a message in the log and the next wait. Neither stops the loop, and
/// neither touches the shape, its velocity or the publish timer.
pub proof fn lemma_faults_are_survived(state: LoopView, detail: Seq<char>)
    ensures
        state.stage is TakingSample ==> {
            let reported = state.next(EventView::Sample { taken: TakeView::Failed(detail) });
            &&& reported == state.at(
                StageView::Printing { line: reader_error_line(detail), then: Resume::TakeSample },
            )
            &&& reported.request() == (RequestView::Print { line: reader_error_line(detail) })
            &&& !reported.stopped()
            &&& reported.next(EventView::Done) == state
        },
        state.stage is Writing ==> {
            let reported = state.next(EventView::Written { failure: Some(detail) });
            &&& reported == state.at(
                StageView::Logging { message: write_failure_line(detail), then: Resume::Wait },
            )
            &&& reported.request() == (RequestView::LogError {
                message: write_failure_line(detail),
            })
            &&& !reported.stopped()
            &&& reported.next(EventView::Done) == state.at(StageView::Waiting)
        },
{
}

/// The line that is printed for what a take gave, where it gave something.
pub open spec fn take_line(topic: Seq<char>, taken: TakeView) -> Seq<char> {
    match taken {
        TakeView::Value(shape) => sample_line(topic, shape),
        TakeView::Disposed(key) => disposal_line(debug_form(key)),
        TakeView::Failed(detail) => reader_error_line(detail),
        TakeView::Nothing => Seq::empty(),
    }
}

/// The events of a drain in which the reader gives `samples` one after the
/// other: each sample, and then the word that its line is printed.
pub open spec fn drain_events(samples: Seq<TakeView>) -> Seq<EventView>
    decreases samples.len(),
{
    if samples.len() == 0 {
        Seq::empty()
    } else {
        drain_events(samples.drop_last()).push(EventView::Sample { taken: samples.last() }).push(
            EventView::Done,
        )
    }
}

/// The requests of such a drain: for each sample its line, in the order of
/// arrival, and then the next take.
pub open spec fn drain_requests(topic: Seq<char>, samples: Seq<TakeView>) -> Seq<RequestView>
    decreases samples.len(),
{
    if samples.len() == 0 {
        Seq::empty()
    } else {
        drain_requests(topic, samples.drop_last()).push(
            RequestView::Print { line: take_line(topic, samples.last()) },
        ).push(RequestView::TakeSample)
    }
}

/// Draining: a reader that holds `samples` is asked once for each of them and
/// once more, and not again. Each take that gives a sample is answered with
/// the line of that sample, in the order of arrival, and the next take; the
/// take that gives nothing ends the drain, and the loop goes on with the next
/// token. Apart from that the drain leaves the state as it was.
pub proof fn lemma_drain(state: LoopView, samples: Seq<TakeView>)
    requires
        state.stage is TakingSample,
        forall|i: int| 0 <= i < samples.len() ==> !(#[trigger] samples[i] is Nothing),
    ensures
        run(state, drain_events(samples)) == state,
        requests(state, drain_events(samples)) == drain_requests(state.topic, samples),
        run(state, drain_events(samples).push(EventView::Sample { taken: TakeView::Nothing }))
            == state.dispatch(),
    decreases samples.len(),
{
    if samples.len() > 0 {
        let earlier = samples.drop_last();
        lemma_drain(state, earlier);
        let taken = EventView::Sample { taken: samples.last() };
        lemma_one_more(state, drain_events(earlier), taken);
        lemma_one_more(state, drain_events(earlier).push(taken), EventView::Done);
    }
    lemma_one_more(state, drain_events(samples), EventView::Sample { taken: TakeView::Nothing });
}

/// The stage at which the status events of an endpoint are received: of the
/// reader, or else of the writer.
pub open spec fn receiving_status(of_reader: bool) -> StageView {
    if of_reader {
        StageView::ReceivingReaderStatus
    } else {
        StageView::ReceivingWriterStatus
    }
}

/// The request for the next status event of an endpoint.
pub open spec fn status_request(of_reader: bool) -> RequestView {
    if of_reader {
        RequestView::ReceiveReaderStatus
    } else {
        RequestView::ReceiveWriterStatus
    }
}

/// The line that is printed for a status event of an endpoint.
pub open spec fn status_line(of_reader: bool, status: Seq<char>) -> Seq<char> {
    if of_reader {
        reader_status_line(status)
    } else {
        writer_status_line(status)
    }
}

/// The events of a drain in which an endpoint gives the status events
/// `statuses` one after the other: each of them, and then the word that its
/// line is printed.
pub open spec fn status_events(statuses: Seq<Seq<char>>) -> Seq<EventView>
    decreases statuses.len(),
{
    if statuses.len() == 0 {
        Seq::empty()
    } else {
        status_events(statuses.drop_last()).push(
            EventView::Status { status: Some(statuses.last()) },
        ).push(EventView::Done)
    }
}

/// The requests of such a drain: for each status event its line, in the
/// order of arrival, and then the next receive.
pub open spec fn status_requests(of_reader: bool, statuses: Seq<Seq<char>>) -> Seq<RequestView>
    decreases statuses.len(),
{
    if statuses.len() == 0 {
        Seq::empty()
    } else {
        status_requests(of_reader, statuses.drop_last()).push(
            RequestView::Print { line: status_line(of_reader, statuses.last()) },
        ).push(status_request(of_reader))
    }
}

/// Draining status events: an endpoint that holds `statuses` is asked once
/// for each of them and once more. Each event is answered with its line, in
/// the order of arrival, and the next receive; the receive that gives nothing
/// ends the drain, and the loop goes on with the next token. No status event
/// stops the loop or changes anything else of its state.
pub proof fn lemma_status_drain(state: LoopView, of_reader: bool, statuses: Seq<Seq<char>>)
    requires
        state.stage == receiving_status(of_reader),
    ensures
        run(state, status_events(statuses)) == state,
        requests(state, status_events(statuses)) == status_requests(of_reader, statuses),
        run(state, status_events(statuses).push(EventView::Status { status: None }))
            == state.dispatch(),
    decreases statuses.len(),
{
    if statuses.len() > 0 {
        let earlier = statuses.drop_last();
        lemma_status_drain(state, of_reader, earlier);
        let received = EventView::Status { status: Some(statuses.last()) };
        lemma_one_more(state, status_events(earlier), received);
        lemma_one_more(state, status_events(earlier).push(received), EventView::Done);
    }
    lemma_one_more(state, status_events(statuses), EventView::Status { status: None });
}

/// A run in which every event answers the request that is outstanding when
/// it comes, as it does when the requests are performed one by one.
pub open spec fn well_answered(state: LoopView, events: Seq<EventView>) -> bool
    decreases events.len(),
{
    events.len() == 0 || (well_answered(state, events.drop_last()) && run(
        state,
        events.drop_last(),
    ).stage.answered_by(events.last()))
}

/// The clock readings that the loop takes in over the events `events`, in
/// their order: one in each turn of a loop with a writer.
pub open spec fn clock_readings(state: LoopView, events: Seq<EventView>) -> Seq<int>
    decreases events.len(),
{
    if events.len() == 0 {
        Seq::empty()
    } else {
        let earlier = clock_readings(state, events.drop_last());
        match (run(state, events.drop_last()).stage, events.last()) {
            (StageView::ReadingClock, EventView::Clock { now }) => earlier.push(now),
            _ => earlier,
        }
    }
}

/// An event that does not answer the outstanding request changes nothing.
pub proof fn lemma_unanswered_is_ignored(state: LoopView, event: EventView)
    requires
        !state.stage.answered_by(event),
    ensures
        state.next(event) == state,
{
}

/// The loop follows its timer, whatever else happens in a run: it asks for a
/// write at exactly those clock readings at which one fell due, and its last
/// write is the last of them.
pub proof fn lemma_writes_follow_the_clock(state: LoopView, events: Seq<EventView>)
    requires
        well_answered(state, events),
    ensures
        run(state, events).last_write == last_write_after(
            state.last_write,
            clock_readings(state, events),
        ),
        count_writes(requests(state, events)) == writes_during(
            state.last_write,
            clock_readings(state, events),
        ),
    decreases events.len(),
{
    if events.len() > 0 {
        let earlier = events.drop_last();
        lemma_writes_follow_the_clock(state, earlier);
        assert(earlier.push(events.last()) =~= events);
        lemma_one_more(state, earlier, events.last());
        let readings = clock_readings(state, events);
        if readings.len() > clock_readings(state, earlier).len() {
            assert(readings.drop_last() =~= clock_readings(state, earlier));
        }
    }
}

/// The cadence of publishing. Over any run in which the clock never goes
/// back, the loop never asks for more writes than the elapsed time divided by
/// the publish interval, rounded down. It asks for that many or one less as
/// long as the delays of the writes and the time since the last write make up
/// less than two intervals.
pub proof fn lemma_publish_cadence(state: LoopView, events: Seq<EventView>)
    requires
        well_answered(state, events),
        clock_advances(state.last_write, clock_readings(state, events)),
    ensures
        ({
            let clocks = clock_readings(state, events);
            let writes = count_writes(requests(state, events));
            let quotient = elapsed(state.last_write, clocks) / (PUBLISH_INTERVAL_NANOS as int);
            &&& writes <= quotient
            &&& delays(state.last_write, clocks) + since_last_write(state.last_write, clocks) < 2
                * PUBLISH_INTERVAL_NANOS ==> quotient - 1 <= writes
        }),
{
    let clocks = clock_readings(state, events);
    lemma_writes_follow_the_clock(state, events);
    lemma_writes_at_most(state.last_write, clocks);
    if delays(state.last_write, clocks) + since_last_write(state.last_write, clocks) < 2
        * PUBLISH_INTERVAL_NANOS {
        lemma_write_count(state.last_write, clocks);
    }
}

} // verus!
