//! The control loop, as a state machine. The machine holds the state of the
//! loop and always has one request outstanding: the next thing that must be
//! done outside (wait for readiness, take a sample, read the clock, print a
//! line). Whoever runs the loop performs the request and hands the outcome
//! back as an event; the machine then decides what comes next.

use crate::motion::{
    advance, lemma_limits_kept, move_shape, within_limits, Shape, ShapeView,
};
use crate::render::{
    debug_form, disposal_line, disposal_text, reader_error_line, reader_error_text,
    reader_status_line, reader_status_text, sample_line, sample_text, unexpected_token_line,
    unexpected_token_text, write_failure_line, write_failure_text, writer_status_line,
    writer_status_text,
};
use crate::timer::{is_due, publish_due};
use vstd::prelude::*;
use vstd::string::*;

verus! {

/// Token of the shutdown signal.
pub const STOP_PROGRAM: usize = 0;

/// Token of the reader: samples are there to be taken.
pub const READER_READY: usize = 1;

/// Token of the reader's status events.
pub const READER_STATUS_READY: usize = 2;

/// Token of the writer's status events.
pub const WRITER_STATUS_READY: usize = 3;

/// The longest that one wait for readiness may take, in milliseconds.
pub const POLL_TIMEOUT_MILLIS: u64 = 200;

/// The event source that a token was registered for.
#[derive(Clone, Copy, Debug, PartialEq, Eq, Structural)]
pub enum Source {
    Stop,
    ReaderData,
    ReaderStatus,
    WriterStatus,
    Unknown,
}

/// The source that `token` stands for.
pub open spec fn source_of(token: usize) -> Source {
    if token == STOP_PROGRAM {
        Source::Stop
    } else if token == READER_READY {
        Source::ReaderData
    } else if token == READER_STATUS_READY {
        Source::ReaderStatus
    } else if token == WRITER_STATUS_READY {
        Source::WriterStatus
    } else {
        Source::Unknown
    }
}

/// Tells which source a token stands for.
pub fn classify(token: usize) -> (source: Source)
    ensures
        source == source_of(token),
{
    if token == STOP_PROGRAM {
        Source::Stop
    } else if token == READER_READY {
        Source::ReaderData
    } else if token == READER_STATUS_READY {
        Source::ReaderStatus
    } else if token == WRITER_STATUS_READY {
        Source::WriterStatus
    } else {
        Source::Unknown
    }
}

/// What one attempt to take a sample from the reader gave.
#[derive(Debug, PartialEq, Eq)]
pub enum Take {
    /// A live update.
    Value(Shape),
    /// The instance with this key was disposed.
    Disposed(String),
    /// The take failed; the text says how.
    Failed(String),
    /// Nothing is buffered any more.
    Nothing,
}

/// The mathematical value of a [`Take`].
pub enum TakeView {
    Value(ShapeView),
    Disposed(Seq<char>),
    Failed(Seq<char>),
    Nothing,
}

impl View for Take {
    type V = TakeView;

    open spec fn view(&self) -> TakeView {
        match self {
            Take::Value(shape) => TakeView::Value(shape@),
            Take::Disposed(key) => TakeView::Disposed(key@),
            Take::Failed(detail) => TakeView::Failed(detail@),
            Take::Nothing => TakeView::Nothing,
        }
    }
}

/// The outcome of a request, handed back to the machine.
#[derive(Debug, PartialEq, Eq)]
pub enum Event {
    /// The wait is over; these are the tokens of the sources that became
    /// ready, none if the time ran out.
    Woke { tokens: Vec<usize> },
    /// Whether the shutdown signal was there to be received.
    StopSignal { received: bool },
    /// What the reader gave.
    Sample { taken: Take },
    /// The next status event of the endpoint that was asked, as text, or
    /// `None` when there is none left.
    Status { status: Option<String> },
    /// The time, in nanoseconds on a monotonic clock.
    Clock { now: u64 },
    /// How the write went: `None` when it succeeded, else what the writer
    /// said of the fault.
    Written { failure: Option<String> },
    /// The line was printed, or the message logged.
    Done,
}

/// The mathematical value of an [`Event`].
pub enum EventView {
    Woke { tokens: Seq<usize> },
    StopSignal { received: bool },
    Sample { taken: TakeView },
    Status { status: Option<Seq<char>> },
    Clock { now: int },
    Written { failure: Option<Seq<char>> },
    Done,
}

impl View for Event {
    type V = EventView;

    open spec fn view(&self) -> EventView {
        match self {
            Event::Woke { tokens } => EventView::Woke { tokens: tokens@ },
            Event::StopSignal { received } => EventView::StopSignal { received: *received },
            Event::Sample { taken } => EventView::Sample { taken: taken@ },
            Event::Status { status } => EventView::Status {
                status: match status {
                    Some(text) => Some(text@),
                    None => None,
                },
            },
            Event::Clock { now } => EventView::Clock { now: *now as int },
            Event::Written { failure } => EventView::Written {
                failure: match failure {
                    Some(detail) => Some(detail@),
                    None => None,
                },
            },
            Event::Done => EventView::Done,
        }
    }
}

/// What the machine asks to be done next.
#[derive(Debug, PartialEq, Eq)]
pub enum Request {
    /// Wait until a source is ready, at most this long. Answered by
    /// [`Event::Woke`].
    Wait { timeout_millis: u64 },
    /// Try to receive the shutdown signal. Answered by [`Event::StopSignal`].
    ReceiveStop,
    /// Take the next sample from the reader. Answered by [`Event::Sample`].
    TakeSample,
    /// Receive the next status event of the reader. Answered by
    /// [`Event::Status`].
    ReceiveReaderStatus,
    /// Receive the next status event of the writer. Answered by
    /// [`Event::Status`].
    ReceiveWriterStatus,
    /// Read the clock. Answered by [`Event::Clock`].
    ReadClock,
    /// Write this sample. Answered by [`Event::Written`].
    Write { sample: Shape },
    /// Print this line. Answered by [`Event::Done`].
    Print { line: String },
    /// Log this message as an error. Answered by [`Event::Done`].
    LogError { message: String },
    /// Leave the loop. Nothing answers it.
    Halt,
}

/// The mathematical value of a [`Request`].
pub enum RequestView {
    Wait { timeout_millis: int },
    ReceiveStop,
    TakeSample,
    ReceiveReaderStatus,
    ReceiveWriterStatus,
    ReadClock,
    Write { sample: ShapeView },
    Print { line: Seq<char> },
    LogError { message: Seq<char> },
    Halt,
}

impl View for Request {
    type V = RequestView;

    open spec fn view(&self) -> RequestView {
        match self {
            Request::Wait { timeout_millis } => RequestView::Wait {
                timeout_millis: *timeout_millis as int,
            },
            Request::ReceiveStop => RequestView::ReceiveStop,
            Request::TakeSample => RequestView::TakeSample,
            Request::ReceiveReaderStatus => RequestView::ReceiveReaderStatus,
            Request::ReceiveWriterStatus => RequestView::ReceiveWriterStatus,
            Request::ReadClock => RequestView::ReadClock,
            Request::Write { sample } => RequestView::Write { sample: sample@ },
            Request::Print { line } => RequestView::Print { line: line@ },
            Request::LogError { message } => RequestView::LogError { message: message@ },
            Request::Halt => RequestView::Halt,
        }
    }
}

/// Where the loop goes on once a line is printed or a message logged.
#[derive(Clone, Copy, Debug, PartialEq, Eq, Structural)]
pub enum Resume {
    /// With the next token of the wake-up.
    Dispatch,
    /// With the next sample of the reader.
    TakeSample,
    /// With the next status event of the reader.
    ReaderStatus,
    /// With the next status event of the writer.
    WriterStatus,
    /// With the next wait.
    Wait,
    /// Nowhere: the loop is over.
    Halt,
}

/// The point that the loop has reached, in the mathematical value of the
/// machine. Each stage has its request, see [`LoopView::request`].
pub enum StageView {
    Waiting,
    ReceivingStop,
    TakingSample,
    ReceivingReaderStatus,
    ReceivingWriterStatus,
    ReadingClock,
    Writing,
    Printing { line: Seq<char>, then: Resume },
    Logging { message: Seq<char>, then: Resume },
    Stopped,
}

impl StageView {
    /// Whether `event` is an answer to the request that is outstanding at
    /// this stage.
    pub open spec fn answered_by(self, event: EventView) -> bool {
        match (self, event) {
            (StageView::Waiting, EventView::Woke { .. }) => true,
            (StageView::ReceivingStop, EventView::StopSignal { .. }) => true,
            (StageView::TakingSample, EventView::Sample { .. }) => true,
            (StageView::ReceivingReaderStatus, EventView::Status { .. }) => true,
            (StageView::ReceivingWriterStatus, EventView::Status { .. }) => true,
            (StageView::ReadingClock, EventView::Clock { .. }) => true,
            (StageView::Writing, EventView::Written { .. }) => true,
            (StageView::Printing { .. }, EventView::Done) => true,
            (StageView::Logging { .. }, EventView::Done) => true,
            _ => false,
        }
    }
}

/// The mathematical value of the machine.
pub struct LoopView {
    /// Name of the topic, for the lines printed.
    pub topic: Seq<char>,
    /// Whether there is a receiving endpoint.
    pub has_reader: bool,
    /// Whether there is a sending endpoint.
    pub has_writer: bool,
    /// The shape that is published, and its velocity.
    pub shape: ShapeView,
    pub xv: int,
    pub yv: int,
    /// When a sample was last handed to the writer.
    pub last_write: int,
    /// The tokens of the last wake-up that are still to be looked at.
    pub pending: Seq<usize>,
    pub stage: StageView,
}

impl LoopView {
    /// The same state at another stage.
    pub open spec fn at(self, stage: StageView) -> LoopView {
        LoopView { stage, ..self }
    }

    /// The state in which a loop starts: nothing pending, and the first wait
    /// outstanding.
    pub open spec fn start(
        topic: Seq<char>,
        shape: ShapeView,
        xv: int,
        yv: int,
        has_reader: bool,
        has_writer: bool,
        now: int,
    ) -> LoopView {
        LoopView {
            topic,
            has_reader,
            has_writer,
            shape,
            xv,
            yv,
            last_write: now,
            pending: Seq::empty(),
            stage: StageView::Waiting,
        }
    }

    /// Whether the loop has received the shutdown signal.
    pub open spec fn stopped(self) -> bool {
        match self.stage {
            StageView::Stopped => true,
            StageView::Printing { then, .. } => then == Resume::Halt,
            StageView::Logging { then, .. } => then == Resume::Halt,
            _ => false,
        }
    }

    /// The request that is outstanding.
    pub open spec fn request(self) -> RequestView {
        match self.stage {
            StageView::Waiting => RequestView::Wait { timeout_millis: POLL_TIMEOUT_MILLIS as int },
            StageView::ReceivingStop => RequestView::ReceiveStop,
            StageView::TakingSample => RequestView::TakeSample,
            StageView::ReceivingReaderStatus => RequestView::ReceiveReaderStatus,
            StageView::ReceivingWriterStatus => RequestView::ReceiveWriterStatus,
            StageView::ReadingClock => RequestView::ReadClock,
            StageView::Writing => RequestView::Write { sample: self.shape },
            StageView::Printing { line, .. } => RequestView::Print { line },
            StageView::Logging { message, .. } => RequestView::LogError { message },
            StageView::Stopped => RequestView::Halt,
        }
    }

    /// The end of one turn of the loop, reached when no token is pending any
    /// more: the shape moves one step, whether or not anything was ready.
    /// Then the clock is read if there is a writer, else the next wait
    /// begins.
    pub open spec fn finish_turn(self) -> LoopView {
        let moved = advance(self.shape, self.xv, self.yv);
        LoopView {
            shape: moved.0,
            xv: moved.1,
            yv: moved.2,
            stage: if self.has_writer {
                StageView::ReadingClock
            } else {
                StageView::Waiting
            },
            ..self
        }
    }

    /// Takes up the next pending token, or ends the turn where none is left.
    /// The shutdown token asks for the signal; a token of an endpoint starts
    /// draining it, or logs that the endpoint is missing; any other token is
    /// reported and passed over.
    pub open spec fn dispatch(self) -> LoopView {
        if self.pending.len() == 0 {
            self.finish_turn()
        } else {
            let token = self.pending[0];
            let rest = LoopView { pending: self.pending.drop_first(), ..self };
            match source_of(token) {
                Source::Stop => rest.at(StageView::ReceivingStop),
                Source::ReaderData => if self.has_reader {
                    rest.at(StageView::TakingSample)
                } else {
                    rest.at(
                        StageView::Logging {
                            message: "Where is my reader?"@,
                            then: Resume::Dispatch,
                        },
                    )
                },
                Source::ReaderStatus => if self.has_reader {
                    rest.at(StageView::ReceivingReaderStatus)
                } else {
                    rest.at(
                        StageView::Logging {
                            message: "Where is my reader?"@,
                            then: Resume::Dispatch,
                        },
                    )
                },
                Source::WriterStatus => if self.has_writer {
                    rest.at(StageView::ReceivingWriterStatus)
                } else {
                    rest.at(
                        StageView::Logging {
                            message: "Where is my writer?"@,
                            then: Resume::Dispatch,
                        },
                    )
                },
                Source::Unknown => rest.at(
                    StageView::Printing {
                        line: unexpected_token_line(token as nat),
                        then: Resume::Dispatch,
                    },
                ),
            }
        }
    }

    /// Goes on where `then` says, after a line or a message is out.
    pub open spec fn resume(self, then: Resume) -> LoopView {
        match then {
            Resume::Dispatch => self.dispatch(),
            Resume::TakeSample => self.at(StageView::TakingSample),
            Resume::ReaderStatus => self.at(StageView::ReceivingReaderStatus),
            Resume::WriterStatus => self.at(StageView::ReceivingWriterStatus),
            Resume::Wait => self.at(StageView::Waiting),
            Resume::Halt => self.at(StageView::Stopped),
        }
    }

    /// The state after `taken` came back from the reader: a line for an
    /// update, a disposal or a fault, and then the next take; with nothing
    /// left, the next token.
    pub open spec fn after_take(self, taken: TakeView) -> LoopView {
        match taken {
            TakeView::Value(shape) => self.at(
                StageView::Printing {
                    line: sample_line(self.topic, shape),
                    then: Resume::TakeSample,
                },
            ),
            TakeView::Disposed(key) => self.at(
                StageView::Printing {
                    line: disposal_line(debug_form(key)),
                    then: Resume::TakeSample,
                },
            ),
            TakeView::Failed(detail) => self.at(
                StageView::Printing { line: reader_error_line(detail), then: Resume::TakeSample },
            ),
            TakeView::Nothing => self.dispatch(),
        }
    }

    /// The state after the clock was read: where a write is due, the sample
    /// goes to the writer and the timer starts anew, whether or not the write
    /// will succeed; else the next wait begins.
    pub open spec fn after_clock(self, now: int) -> LoopView {
        if publish_due(self.last_write, now) {
            LoopView { last_write: now, stage: StageView::Writing, ..self }
        } else {
            self.at(StageView::Waiting)
        }
    }

    /// The state after `event`. An event that does not answer the outstanding
    /// request changes nothing.
    pub open spec fn next(self, event: EventView) -> LoopView {
        match (self.stage, event) {
            (StageView::Waiting, EventView::Woke { tokens }) => (LoopView {
                pending: tokens,
                ..self
            }).dispatch(),
            (StageView::ReceivingStop, EventView::StopSignal { received }) => if received {
                self.at(StageView::Printing { line: "Done."@, then: Resume::Halt })
            } else {
                self.dispatch()
            },
            (StageView::TakingSample, EventView::Sample { taken }) => self.after_take(taken),
            (StageView::ReceivingReaderStatus, EventView::Status { status }) => match status {
                Some(text) => self.at(
                    StageView::Printing {
                        line: reader_status_line(text),
                        then: Resume::ReaderStatus,
                    },
                ),
                None => self.dispatch(),
            },
            (StageView::ReceivingWriterStatus, EventView::Status { status }) => match status {
                Some(text) => self.at(
                    StageView::Printing {
                        line: writer_status_line(text),
                        then: Resume::WriterStatus,
                    },
                ),
                None => self.dispatch(),
            },
            (StageView::ReadingClock, EventView::Clock { now }) => self.after_clock(now),
            (StageView::Writing, EventView::Written { failure }) => match failure {
                Some(detail) => self.at(
                    StageView::Logging { message: write_failure_line(detail), then: Resume::Wait },
                ),
                None => self.at(StageView::Waiting),
            },
            (StageView::Printing { then, .. }, EventView::Done) => self.resume(then),
            (StageView::Logging { then, .. }, EventView::Done) => self.resume(then),
            _ => self,
        }
    }

    /// What the machine keeps true of its state: the shape can always be
    /// moved.
    pub open spec fn sound(self) -> bool {
        within_limits(self.shape, self.xv, self.yv)
    }
}

/// The point that the loop has reached.
enum Stage {
    Waiting,
    ReceivingStop,
    TakingSample,
    ReceivingReaderStatus,
    ReceivingWriterStatus,
    ReadingClock,
    Writing,
    Printing { line: String, then: Resume },
    Logging { message: String, then: Resume },
    Stopped,
}

impl View for Stage {
    type V = StageView;

    closed spec fn view(&self) -> StageView {
        match self {
            Stage::Waiting => StageView::Waiting,
            Stage::ReceivingStop => StageView::ReceivingStop,
            Stage::TakingSample => StageView::TakingSample,
            Stage::ReceivingReaderStatus => StageView::ReceivingReaderStatus,
            Stage::ReceivingWriterStatus => StageView::ReceivingWriterStatus,
            Stage::ReadingClock => StageView::ReadingClock,
            Stage::Writing => StageView::Writing,
            Stage::Printing { line, then } => StageView::Printing { line: line@, then: *then },
            Stage::Logging { message, then } => StageView::Logging {
                message: message@,
                then: *then,
            },
            Stage::Stopped => StageView::Stopped,
        }
    }
}

/// The control loop: its state, and the request that is outstanding.
pub struct ControlLoop {
    topic: String,
    has_reader: bool,
    has_writer: bool,
    shape: Shape,
    xv: i32,
    yv: i32,
    last_write: u64,
    tokens: Vec<usize>,
    dispatched: usize,
    stage: Stage,
}

impl View for ControlLoop {
    type V = LoopView;

    closed spec fn view(&self) -> LoopView {
        LoopView {
            topic: self.topic@,
            has_reader: self.has_reader,
            has_writer: self.has_writer,
            shape: self.shape@,
            xv: self.xv as int,
            yv: self.yv as int,
            last_write: self.last_write as int,
            pending: self.tokens@.skip(self.dispatched as int),
            stage: self.stage@,
        }
    }
}

impl ControlLoop {
    #[verifier::type_invariant]
    spec fn well_formed(self) -> bool {
        &&& self.dispatched <= self.tokens.len()
        &&& within_limits(self.shape@, self.xv as int, self.yv as int)
    }

    /// Sets up the loop for a client that publishes `shape`, moving at
    /// `(xv, yv)`, under `topic`; `now` is the time on the clock that the
    /// loop will be given. The first request is a wait. There is no loop for
    /// a shape beyond the limits of [`within_limits`]: it could not go on
    /// moving.
    pub fn new(
        topic: String,
        shape: Shape,
        xv: i32,
        yv: i32,
        has_reader: bool,
        has_writer: bool,
        now: u64,
    ) -> (made: Option<ControlLoop>)
        ensures
            made is Some <==> within_limits(shape@, xv as int, yv as int),
            made matches Some(machine) ==> machine@ == LoopView::start(
                topic@,
                shape@,
                xv as int,
                yv as int,
                has_reader,
                has_writer,
                now as int,
            ),
    {
        if shape.is_within_limits(xv, yv) {
            let machine = ControlLoop {
                topic,
                has_reader,
                has_writer,
                shape,
                xv,
                yv,
                last_write: now,
                tokens: Vec::new(),
                dispatched: 0,
                stage: Stage::Waiting,
            };
            assert(machine@.pending =~= Seq::empty());
            Some(machine)
        } else {
            None
        }
    }

    /// The request that is outstanding: what must be done next.
    pub fn request(&self) -> (request: Request)
        ensures
            request@ == self@.request(),
    {
        match &self.stage {
            Stage::Waiting => Request::Wait { timeout_millis: POLL_TIMEOUT_MILLIS },
            Stage::ReceivingStop => Request::ReceiveStop,
            Stage::TakingSample => Request::TakeSample,
            Stage::ReceivingReaderStatus => Request::ReceiveReaderStatus,
            Stage::ReceivingWriterStatus => Request::ReceiveWriterStatus,
            Stage::ReadingClock => Request::ReadClock,
            Stage::Writing => Request::Write { sample: self.shape.clone() },
            Stage::Printing { line, .. } => Request::Print { line: line.clone() },
            Stage::Logging { message, .. } => Request::LogError { message: message.clone() },
            Stage::Stopped => Request::Halt,
        }
    }

    /// Whether the shutdown signal has been received.
    pub fn is_stopped(&self) -> (stopped: bool)
        ensures
            stopped == self@.stopped(),
    {
        match &self.stage {
            Stage::Stopped => true,
            Stage::Printing { then, .. } => *then == Resume::Halt,
            Stage::Logging { then, .. } => *then == Resume::Halt,
            _ => false,
        }
    }

    /// The shape as it is now.
    pub fn shape(&self) -> (shape: &Shape)
        ensures
            shape@ == self@.shape,
    {
        &self.shape
    }

    /// The velocity as it is now: along `x`, then along `y`.
    pub fn velocity(&self) -> (velocity: (i32, i32))
        ensures
            velocity.0 == self@.xv,
            velocity.1 == self@.yv,
    {
        (self.xv, self.yv)
    }

    /// When a sample was last handed to the writer.
    pub fn last_write(&self) -> (time: u64)
        ensures
            time == self@.last_write,
    {
        self.last_write
    }

    fn at(self, stage: Stage) -> (next: ControlLoop)
        ensures
            next@ == self@.at(stage@),
    {
        proof {
            use_type_invariant(&self);
        }
        let mut next = self;
        next.stage = stage;
        next
    }

    fn finish_turn(self) -> (next: ControlLoop)
        ensures
            next@ == self@.finish_turn(),
    {
        proof {
            use_type_invariant(&self);
            lemma_limits_kept(self.shape@, self.xv as int, self.yv as int);
        }
        let ControlLoop {
            topic,
            has_reader,
            has_writer,
            shape,
            xv,
            yv,
            last_write,
            tokens,
            dispatched,
            ..
        } = self;
        let moved = move_shape(shape, xv, yv);
        let stage = if has_writer {
            Stage::ReadingClock
        } else {
            Stage::Waiting
        };
        ControlLoop {
            topic,
            has_reader,
            has_writer,
            shape: moved.0,
            xv: moved.1,
            yv: moved.2,
            last_write,
            tokens,
            dispatched,
            stage,
        }
    }

    fn dispatch(self) -> (next: ControlLoop)
        ensures
            next@ == self@.dispatch(),
    {
        proof {
            use_type_invariant(&self);
        }
        if self.dispatched >= self.tokens.len() {
            self.finish_turn()
        } else {
            let ghost before = self@;
            let token = self.tokens[self.dispatched];
            let mut rest = self;
            rest.dispatched = rest.dispatched + 1;
            assert(rest@.pending =~= before.pending.drop_first());
            assert(before.pending[0] == token);
            match classify(token) {
                Source::Stop => rest.at(Stage::ReceivingStop),
                Source::ReaderData => if rest.has_reader {
                    rest.at(Stage::TakingSample)
                } else {
                    rest.at(
                        Stage::Logging {
                            message: String::from_str("Where is my reader?"),
                            then: Resume::Dispatch,
                        },
                    )
                },
                Source::ReaderStatus => if rest.has_reader {
                    rest.at(Stage::ReceivingReaderStatus)
                } else {
                    rest.at(
                        Stage::Logging {
                            message: String::from_str("Where is my reader?"),
                            then: Resume::Dispatch,
                        },
                    )
                },
                Source::WriterStatus => if rest.has_writer {
                    rest.at(Stage::ReceivingWriterStatus)
                } else {
                    rest.at(
                        Stage::Logging {
                            message: String::from_str("Where is my writer?"),
                            then: Resume::Dispatch,
                        },
                    )
                },
                Source::Unknown => {
                    let line = unexpected_token_text(token);
                    rest.at(Stage::Printing { line, then: Resume::Dispatch })
                },
            }
        }
    }

    fn resume(self, then: Resume) -> (next: ControlLoop)
        ensures
            next@ == self@.resume(then),
    {
        match then {
            Resume::Dispatch => self.dispatch(),
            Resume::TakeSample => self.at(Stage::TakingSample),
            Resume::ReaderStatus => self.at(Stage::ReceivingReaderStatus),
            Resume::WriterStatus => self.at(Stage::ReceivingWriterStatus),
            Resume::Wait => self.at(Stage::Waiting),
            Resume::Halt => self.at(Stage::Stopped),
        }
    }

    fn after_take(self, taken: Take) -> (next: ControlLoop)
        ensures
            next@ == self@.after_take(taken@),
    {
        match taken {
            Take::Value(shape) => {
                let line = sample_text(self.topic.as_str(), &shape);
                self.at(Stage::Printing { line, then: Resume::TakeSample })
            },
            Take::Disposed(key) => {
                let line = disposal_text(key.as_str());
                self.at(Stage::Printing { line, then: Resume::TakeSample })
            },
            Take::Failed(detail) => {
                let line = reader_error_text(detail.as_str());
                self.at(Stage::Printing { line, then: Resume::TakeSample })
            },
            Take::Nothing => self.dispatch(),
        }
    }

    fn after_clock(self, now: u64) -> (next: ControlLoop)
        ensures
            next@ == self@.after_clock(now as int),
    {
        proof {
            use_type_invariant(&self);
        }
        if is_due(self.last_write, now) {
            let mut next = self;
            next.last_write = now;
            next.stage = Stage::Writing;
            next
        } else {
            self.at(Stage::Waiting)
        }
    }

    /// Takes in the outcome of the outstanding request and decides what comes
    /// next. An event that does not answer the outstanding request is
    /// ignored, and the request stays outstanding.
    pub fn step(self, event: Event) -> (next: ControlLoop)
        ensures
            next@ == self@.next(event@),
    {
        proof {
            use_type_invariant(&self);
        }
        match event {
            Event::Woke { tokens } => match &self.stage {
                Stage::Waiting => {
                    let mut woken = self;
                    woken.dispatched = 0;
                    woken.tokens = tokens;
                    assert(woken@.pending =~= tokens@);
                    woken.dispatch()
                },
                _ => self,
            },
            Event::StopSignal { received } => match &self.stage {
                Stage::ReceivingStop => if received {
                    self.at(
                        Stage::Printing { line: String::from_str("Done."), then: Resume::Halt },
                    )
                } else {
                    self.dispatch()
                },
                _ => self,
            },
            Event::Sample { taken } => match &self.stage {
                Stage::TakingSample => self.after_take(taken),
                _ => self,
            },
            Event::Status { status } => match &self.stage {
                Stage::ReceivingReaderStatus => match status {
                    Some(text) => {
                        let line = reader_status_text(text.as_str());
                        self.at(Stage::Printing { line, then: Resume::ReaderStatus })
                    },
                    None => self.dispatch(),
                },
                Stage::ReceivingWriterStatus => match status {
                    Some(text) => {
                        let line = writer_status_text(text.as_str());
                        self.at(Stage::Printing { line, then: Resume::WriterStatus })
                    },
                    None => self.dispatch(),
                },
                _ => self,
            },
            Event::Clock { now } => match &self.stage {
                Stage::ReadingClock => self.after_clock(now),
                _ => self,
            },
            Event::Written { failure } => match &self.stage {
                Stage::Writing => match failure {
                    Some(detail) => {
                        let message = write_failure_text(detail.as_str());
                        self.at(Stage::Logging { message, then: Resume::Wait })
                    },
                    None => self.at(Stage::Waiting),
                },
                _ => self,
            },
            Event::Done => match &self.stage {
                Stage::Printing { then, .. } => {
                    let then = *then;
                    self.resume(then)
                },
                Stage::Logging { then, .. } => {
                    let then = *then;
                    self.resume(then)
                },
                _ => self,
            },
        }
    }
}

} // verus!
