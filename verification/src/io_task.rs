//! The I/O task as a state machine.
//!
//! The task owns the state of one connection: whether a stream is up, the
//! bytes read but not yet framed, the two heartbeat deadlines and the
//! message processor. Its driver owns the stream, the timers and the
//! channels. The driver waits for the next event (bytes read, a submission
//! on one of the lanes, a timer, the cancel signal, the end of a connect
//! attempt), hands it to [`IoTask::run`] and carries out the actions that
//! come back. Time is a reading of a monotonic clock in milliseconds.

use crate::codec::{decode_step, frame_bytes, pending_after_header, Decoded, MsgCodec};
use crate::error::{Error, ErrorView, IoErrorKind};
use crate::message::{append_bytes, body_bytes, heartbeat_message, MessageView};
use crate::options::IoOptions;
use crate::processor::{later, pending_after, route_of, Incoming, MessageProcessor, Route};
use crate::types::{ConnectionState, Lane, Request, RequestView, Response};
use vstd::prelude::*;

verus! {

/// The client sends its heartbeat this much before its keep-alive ends.
pub const CLIENT_KEEP_ALIVE_MARGIN_MS: u64 = 1_000;

/// The server's heartbeat may be this late.
pub const SERVER_KEEP_ALIVE_MARGIN_MS: u64 = 2_000;

/// `a + b`, or the largest value where that does not fit.
pub open spec fn sat_add(a: u64, b: u64) -> u64 {
    if a + b > u64::MAX {
        u64::MAX
    } else {
        (a + b) as u64
    }
}

/// `a - b`, or zero where `b` is the larger.
pub open spec fn sat_sub(a: u64, b: u64) -> u64 {
    if a < b {
        0
    } else {
        (a - b) as u64
    }
}

/// Milliseconds of silence after which the server counts as gone: its
/// keep-alive and two seconds more.
pub open spec fn watchdog_limit(server_keep_alive: u64) -> u64 {
    sat_add(server_keep_alive, SERVER_KEEP_ALIVE_MARGIN_MS)
}

fn add_saturating(a: u64, b: u64) -> (r: u64)
    ensures
        r == sat_add(a, b),
{
    if a > u64::MAX - b {
        u64::MAX
    } else {
        a + b
    }
}

fn sub_saturating(a: u64, b: u64) -> (r: u64)
    ensures
        r == sat_sub(a, b),
{
    if a < b {
        0
    } else {
        a - b
    }
}

/// The bytes read from the stream that are not yet framed, with the
/// decoder's state.
#[derive(Debug)]
pub struct FrameReader {
    codec: MsgCodec,
    buf: Vec<u8>,
}

impl FrameReader {
    /// The length of the body that the decoder waits for.
    pub closed spec fn pending(&self) -> Option<usize> {
        self.codec.pending()
    }

    /// The bytes read and not yet consumed.
    pub closed spec fn buffer(&self) -> Seq<u8> {
        self.buf@
    }

    /// A reader at a frame boundary with nothing read.
    pub fn new() -> (r: FrameReader)
        ensures
            r.pending().is_none(),
            r.buffer() == Seq::<u8>::empty(),
    {
        FrameReader { codec: MsgCodec::new(), buf: Vec::new() }
    }

    /// Appends bytes read from the stream.
    pub fn feed(&mut self, bytes: &[u8])
        ensures
            final(self).pending() == old(self).pending(),
            final(self).buffer() == old(self).buffer() + bytes@,
    {
        append_bytes(&mut self.buf, bytes);
    }

    /// Whether a call of [`FrameReader::next_frame`] would find a whole
    /// frame, well formed or not.
    pub fn frame_ready(&self) -> (r: bool)
        ensures
            r == !(decode_step(self.pending(), self.buffer()).2 is NeedMore),
    {
        match self.codec.announced_len(&self.buf) {
            Some(n) => {
                if self.codec.pending_len().is_none() {
                    self.buf.len() - 4 >= n
                } else {
                    self.buf.len() >= n
                }
            },
            None => false,
        }
    }

    /// Takes the next frame off the buffer, if it is complete. A frame
    /// that announces a body of more than `max_len` bytes is refused with
    /// `PayloadSizeLimitExceeded` before any of it is consumed.
    pub fn next_frame(&mut self, max_len: usize) -> (r: Result<
        Option<crate::message::ProtoMessage>,
        Error,
    >)
        ensures
            match pending_after_header(old(self).pending(), old(self).buffer()) {
                Some(n) if n > max_len => {
                    &&& r matches Err(e) && e@ == ErrorView::PayloadSizeLimitExceeded(n)
                    &&& final(self).pending() == old(self).pending()
                    &&& final(self).buffer() == old(self).buffer()
                },
                _ => {
                    &&& final(self).pending() == decode_step(
                        old(self).pending(),
                        old(self).buffer(),
                    ).0
                    &&& final(self).buffer() == decode_step(
                        old(self).pending(),
                        old(self).buffer(),
                    ).1
                    &&& match decode_step(old(self).pending(), old(self).buffer()).2 {
                        Decoded::Message(m) => r matches Ok(Some(got)) && got@ == m,
                        Decoded::Malformed => r matches Err(e) && e@
                            == ErrorView::DecodeProtoMessageError,
                        Decoded::NeedMore => r matches Ok(None),
                    }
                },
            },
    {
        match self.codec.announced_len(&self.buf) {
            Some(n) => {
                if n > max_len {
                    return Err(Error::PayloadSizeLimitExceeded(n));
                }
            },
            None => {},
        }
        self.codec.decode(&mut self.buf)
    }
}

/// Whether the task has a stream.
#[derive(Debug)]
pub enum IoTaskState {
    /// The task has ended.
    Halted,
    /// No stream; the task is about to connect.
    Disconnected,
    /// A stream is up; holds what was read from it and is not yet framed.
    Connected(FrameReader),
}

/// Mathematical value of an [`IoTaskState`].
pub enum StateView {
    Halted,
    Disconnected,
    Connected { pending: Option<usize>, buffer: Seq<u8> },
}

impl View for IoTaskState {
    type V = StateView;

    open spec fn view(&self) -> StateView {
        match *self {
            IoTaskState::Halted => StateView::Halted,
            IoTaskState::Disconnected => StateView::Disconnected,
            IoTaskState::Connected(reader) => StateView::Connected {
                pending: reader.pending(),
                buffer: reader.buffer(),
            },
        }
    }
}

/// How a connect attempt ended.
#[derive(Debug)]
pub enum ConnectAttempt {
    /// The stream is up.
    Established,
    /// The attempt failed with this error.
    Failed(Error),
    /// The attempt took longer than `connect_timeout`.
    TimedOut,
}

/// Mathematical value of a [`ConnectAttempt`].
pub enum AttemptView {
    Established,
    Failed(ErrorView),
    TimedOut,
}

impl View for ConnectAttempt {
    type V = AttemptView;

    open spec fn view(&self) -> AttemptView {
        match *self {
            ConnectAttempt::Established => AttemptView::Established,
            ConnectAttempt::Failed(e) => AttemptView::Failed(e@),
            ConnectAttempt::TimedOut => AttemptView::TimedOut,
        }
    }
}

/// What the driver reports to the task.
#[derive(Debug)]
pub enum IoEvent<S> {
    /// A connect attempt ended.
    Connect(ConnectAttempt),
    /// Nothing happened: the driver came straight back, as
    /// [`Poll::Resume`] asked.
    Resume,
    /// Bytes were read from the stream.
    Received(Vec<u8>),
    /// A read or a write failed, or the stream ended.
    TransportFailed(IoErrorKind),
    /// The channel to the listeners is closed.
    ListenersClosed,
    /// A lane, after its rate limit granted a permit, yielded its next
    /// submission, or `None` where its queue is closed.
    Submitted(Lane, Option<Request<S>>),
    /// The client heartbeat timer fired.
    ClientHeartbeat,
    /// The server heartbeat timer fired.
    ServerHeartbeat,
    /// The cancel signal came.
    Cancelled,
}

/// Mathematical value of an [`IoEvent`].
pub enum IoEventView<S> {
    Connect(AttemptView),
    Resume,
    Received(Seq<u8>),
    TransportFailed(IoErrorKind),
    ListenersClosed,
    Submitted(Lane, Option<RequestView<S>>),
    ClientHeartbeat,
    ServerHeartbeat,
    Cancelled,
}

impl<S> View for IoEvent<S> {
    type V = IoEventView<S>;

    open spec fn view(&self) -> IoEventView<S> {
        match *self {
            IoEvent::Connect(a) => IoEventView::Connect(a@),
            IoEvent::Resume => IoEventView::Resume,
            IoEvent::Received(bytes) => IoEventView::Received(bytes@),
            IoEvent::TransportFailed(k) => IoEventView::TransportFailed(k),
            IoEvent::ListenersClosed => IoEventView::ListenersClosed,
            IoEvent::Submitted(lane, request) => IoEventView::Submitted(
                lane,
                match request {
                    Some(r) => Some(r@),
                    None => None,
                },
            ),
            IoEvent::ClientHeartbeat => IoEventView::ClientHeartbeat,
            IoEvent::ServerHeartbeat => IoEventView::ServerHeartbeat,
            IoEvent::Cancelled => IoEventView::Cancelled,
        }
    }
}

/// What the task asks of its driver.
#[derive(Debug)]
pub enum IoAction<S> {
    /// Write these bytes to the stream and flush.
    Transmit(Vec<u8>),
    /// Resolve this reply slot with this response.
    Deliver { slot: S, response: Response },
    /// Hand this response to the listeners.
    Notify(Response),
    /// Emit this event on the control channel.
    Control(ConnectionState),
    /// Fire the first-connect notifier.
    FirstConnect,
    /// Close the stream.
    CloseStream,
    /// Wait this many milliseconds before the next connect attempt.
    Sleep(u64),
}

/// Mathematical value of an [`IoAction`].
pub enum ActionView<S> {
    Transmit(Seq<u8>),
    Deliver { slot: S, message: MessageView },
    Notify(MessageView),
    Control(ConnectionState),
    FirstConnect,
    CloseStream,
    Sleep(u64),
}

impl<S> View for IoAction<S> {
    type V = ActionView<S>;

    open spec fn view(&self) -> ActionView<S> {
        match *self {
            IoAction::Transmit(bytes) => ActionView::Transmit(bytes@),
            IoAction::Deliver { slot, response } => ActionView::Deliver {
                slot,
                message: response.message@,
            },
            IoAction::Notify(response) => ActionView::Notify(response.message@),
            IoAction::Control(c) => ActionView::Control(c),
            IoAction::FirstConnect => ActionView::FirstConnect,
            IoAction::CloseStream => ActionView::CloseStream,
            IoAction::Sleep(ms) => ActionView::Sleep(ms),
        }
    }
}

/// What the driver does next.
#[derive(Debug, Clone, Copy, PartialEq, Eq, Structural)]
pub enum Poll {
    /// Try to connect, for at most this many milliseconds, and report the
    /// end of the attempt.
    Connect { timeout_ms: u64 },
    /// Come straight back with [`IoEvent::Resume`]: a heartbeat timer is
    /// not armed yet, or a whole frame waits in the buffer.
    Resume,
    /// Wait for the stream, the lanes, the cancel signal and the two
    /// heartbeat timers with these deadlines, and report what came first.
    Select { client_deadline: u64, server_deadline: u64 },
    /// The task has ended.
    Stop,
}

/// Mathematical value of an [`IoTask`].
pub struct IoTaskView<S> {
    pub options: IoOptions,
    pub state: StateView,
    pub client_deadline: Option<u64>,
    pub server_deadline: Option<u64>,
    pub last_incoming: u64,
    pub last_outgoing: u64,
    /// The server's cadence in whole seconds, as the processor holds it.
    /// The watchdog does not read it: it counts the server keep-alive
    /// itself, in milliseconds.
    pub heartbeat_interval_secs: u64,
    pub pending: Map<Seq<char>, S>,
    pub first_connect_pending: bool,
}

/// The outcome of one pass through the select: at most one action, or the
/// error that ends the connection.
pub type StepView<S> = Result<Option<ActionView<S>>, ErrorView>;

/// Text of the error of a select pass without stream.
pub open spec fn not_connected_text() -> Seq<char> {
    "Not connected to the network"@
}

/// The task with both heartbeat timers armed: one that has no deadline
/// gets its first, counted from `now`.
pub open spec fn armed<S>(v: IoTaskView<S>, now: u64) -> IoTaskView<S> {
    IoTaskView {
        server_deadline: match v.server_deadline {
            Some(d) => Some(d),
            None => Some(sat_add(now, v.options.server_keep_alive)),
        },
        client_deadline: match v.client_deadline {
            Some(d) => Some(d),
            None => Some(
                sat_add(now, sat_sub(v.options.client_keep_alive, CLIENT_KEEP_ALIVE_MARGIN_MS)),
            ),
        },
        ..v
    }
}

/// Bytes were read: they join the buffer, and one frame is taken off it if
/// it is complete. A frame that announces more than `max_packet_len` bytes
/// ends the connection, and so does a malformed one. A message goes where
/// the processor routes it.
pub open spec fn on_received<S>(v: IoTaskView<S>, bytes: Seq<u8>, now: u64) -> (
    IoTaskView<S>,
    StepView<S>,
) {
    match v.state {
        StateView::Connected { pending, buffer } => {
            let buf = buffer + bytes;
            let fed = IoTaskView { state: StateView::Connected { pending, buffer: buf }, ..v };
            match pending_after_header(pending, buf) {
                Some(n) if n > v.options.max_packet_len => (
                    fed,
                    Err(ErrorView::PayloadSizeLimitExceeded(n)),
                ),
                _ => {
                    let step = decode_step(pending, buf);
                    let read = IoTaskView {
                        state: StateView::Connected { pending: step.0, buffer: step.1 },
                        ..v
                    };
                    match step.2 {
                        Decoded::NeedMore => (read, Ok(None)),
                        Decoded::Malformed => (read, Err(ErrorView::DecodeProtoMessageError)),
                        Decoded::Message(m) => {
                            let taken = IoTaskView {
                                last_incoming: later(v.last_incoming, now),
                                pending: pending_after(v.pending, m),
                                ..read
                            };
                            match route_of(v.pending, m) {
                                Route::Heartbeat => (taken, Ok(None)),
                                Route::TransportError => (taken, Err(ErrorView::ServerErrorRes(m))),
                                Route::Reply(id) => (
                                    taken,
                                    Ok(Some(ActionView::Deliver { slot: v.pending[id], message: m })),
                                ),
                                Route::Stranger => (taken, Ok(None)),
                                Route::Broadcast => (taken, Ok(Some(ActionView::Notify(m)))),
                            }
                        },
                    }
                },
            }
        },
        _ => (v, Ok(None)),
    }
}

/// The message that leaves for a request under the correlation id `id`.
pub open spec fn stamped<S>(request: RequestView<S>, id: Seq<char>) -> MessageView {
    match request.tx {
        Some(_) => MessageView { client_msg_id: Some(id), ..request.message },
        None => request.message,
    }
}

/// A lane yielded a request: it is stamped with `id` where it has a reply
/// slot, the slot is registered, and the frame is handed out for
/// transmission. A message too large for a frame ends the connection.
pub open spec fn on_submitted<S>(
    v: IoTaskView<S>,
    request: RequestView<S>,
    id: Seq<char>,
    now: u64,
) -> (IoTaskView<S>, StepView<S>) {
    let m = stamped(request, id);
    let next = IoTaskView {
        pending: match request.tx {
            Some(slot) => v.pending.insert(id, slot),
            None => v.pending,
        },
        last_outgoing: later(v.last_outgoing, now),
        ..v
    };
    if body_bytes(m).len() > u32::MAX {
        (next, Err(ErrorView::PayloadSizeLimitExceeded(body_bytes(m).len() as usize)))
    } else {
        (next, Ok(Some(ActionView::Transmit(frame_bytes(m)))))
    }
}

/// The client heartbeat timer fired: a heartbeat frame leaves, and the
/// timer is set to the time of that frame plus the client keep-alive less
/// one second.
pub open spec fn on_client_heartbeat<S>(v: IoTaskView<S>, now: u64) -> (
    IoTaskView<S>,
    StepView<S>,
) {
    let sent = later(v.last_outgoing, now);
    (
        IoTaskView {
            last_outgoing: sent,
            client_deadline: Some(
                sat_add(sent, sat_sub(v.options.client_keep_alive, CLIENT_KEEP_ALIVE_MARGIN_MS)),
            ),
            ..v
        },
        Ok(Some(ActionView::Transmit(frame_bytes(heartbeat_message())))),
    )
}

/// The server heartbeat timer fired: where the last incoming frame is
/// older than the server keep-alive plus two seconds, the connection
/// counts as lost; else the timer is set to the time of that frame plus
/// the server keep-alive.
pub open spec fn on_server_heartbeat<S>(v: IoTaskView<S>, now: u64) -> (
    IoTaskView<S>,
    StepView<S>,
) {
    let next = IoTaskView {
        server_deadline: Some(sat_add(v.last_incoming, v.options.server_keep_alive)),
        ..v
    };
    if sat_sub(now, v.last_incoming) > watchdog_limit(v.options.server_keep_alive) {
        (next, Err(ErrorView::Disconnected))
    } else {
        (next, Ok(None))
    }
}

/// What the driver of a task does next: nothing more for a halted task,
/// a connect attempt for a disconnected one. A connected task is resumed
/// at once while a timer has no deadline or the buffer holds a whole
/// frame; else the driver waits in the select.
pub open spec fn spec_poll<S>(v: IoTaskView<S>) -> Poll {
    match v.state {
        StateView::Halted => Poll::Stop,
        StateView::Disconnected => Poll::Connect { timeout_ms: v.options.connect_timeout },
        StateView::Connected { pending, buffer } => match (v.client_deadline, v.server_deadline) {
            (Some(client_deadline), Some(server_deadline)) => if decode_step(pending, buffer).2
                is NeedMore {
                Poll::Select { client_deadline, server_deadline }
            } else {
                Poll::Resume
            },
            _ => Poll::Resume,
        },
    }
}

/// One pass through the select of a connected task, for the event that
/// won. `id` is the correlation id for the case that the event is a
/// request with a reply slot.
pub open spec fn spec_run_once<S>(
    v: IoTaskView<S>,
    event: IoEventView<S>,
    id: Seq<char>,
    now: u64,
) -> (IoTaskView<S>, StepView<S>) {
    if !(v.state is Connected) {
        (v, Err(ErrorView::String(not_connected_text())))
    } else {
        let a = armed(v, now);
        match event {
            IoEventView::Connect(_) => (a, Ok(None)),
            IoEventView::Resume => on_received(a, Seq::empty(), now),
            IoEventView::Received(bytes) => on_received(a, bytes, now),
            IoEventView::TransportFailed(kind) => (a, Err(ErrorView::Io(kind))),
            IoEventView::ListenersClosed => (a, Err(ErrorView::NotifySender)),
            IoEventView::Submitted(_, None) => (a, Err(ErrorView::RequestsDone)),
            IoEventView::Submitted(_, Some(request)) => on_submitted(a, request, id, now),
            IoEventView::ClientHeartbeat => on_client_heartbeat(a, now),
            IoEventView::ServerHeartbeat => on_server_heartbeat(a, now),
            IoEventView::Cancelled => (a, Err(ErrorView::Cancel)),
        }
    }
}

/// The task after its connection is torn down: no timers, no stream, no
/// pending request.
pub open spec fn torn_down<S>(v: IoTaskView<S>) -> IoTaskView<S> {
    IoTaskView {
        client_deadline: None,
        server_deadline: None,
        state: StateView::Disconnected,
        pending: Map::empty(),
        ..v
    }
}

/// What tearing the connection down asks of the driver.
pub open spec fn teardown_actions<S>(v: IoTaskView<S>) -> Seq<ActionView<S>> {
    if v.state is Connected {
        seq![ActionView::Control(ConnectionState::Disconnect), ActionView::CloseStream]
    } else {
        Seq::empty()
    }
}

/// The error of a connect attempt that did not succeed.
pub open spec fn attempt_error(attempt: AttemptView, connect_timeout: u64) -> Option<ErrorView> {
    match attempt {
        AttemptView::Established => None,
        AttemptView::Failed(e) => Some(e),
        AttemptView::TimedOut => Some(ErrorView::TimeoutError(connect_timeout)),
    }
}

/// A connect attempt ended. On success the task is connected, the
/// first-connect notifier fires if it has not yet, and the control event
/// `Connected` goes out. On failure the task sleeps and retries where
/// `automatic_connect` is on, and halts where it is off.
pub open spec fn on_connect<S>(v: IoTaskView<S>, attempt: AttemptView) -> (
    IoTaskView<S>,
    Seq<ActionView<S>>,
) {
    match attempt {
        AttemptView::Established => (
            IoTaskView {
                state: StateView::Connected { pending: None, buffer: Seq::empty() },
                first_connect_pending: false,
                ..v
            },
            if v.first_connect_pending {
                seq![ActionView::FirstConnect, ActionView::Control(ConnectionState::Connected)]
            } else {
                seq![ActionView::Control(ConnectionState::Connected)]
            },
        ),
        _ => if v.options.automatic_connect {
            (v, seq![ActionView::Sleep(v.options.connect_retry_delay)])
        } else {
            (IoTaskView { state: StateView::Halted, ..v }, Seq::empty())
        },
    }
}

/// One step of the task's outer loop. A halted task does nothing. A
/// disconnected task takes the end of a connect attempt and nothing else.
/// A connected task makes one pass through the select; an error tears the
/// connection down, and the cancel signal halts the task as well.
pub open spec fn spec_run<S>(v: IoTaskView<S>, event: IoEventView<S>, id: Seq<char>, now: u64) -> (
    IoTaskView<S>,
    Seq<ActionView<S>>,
) {
    match v.state {
        StateView::Halted => (v, Seq::empty()),
        StateView::Disconnected => match event {
            IoEventView::Connect(attempt) => on_connect(v, attempt),
            _ => (v, Seq::empty()),
        },
        StateView::Connected { .. } => {
            let (next, step) = spec_run_once(v, event, id, now);
            match step {
                Ok(None) => (next, Seq::empty()),
                Ok(Some(action)) => (next, seq![action]),
                Err(ErrorView::Cancel) => (
                    IoTaskView { state: StateView::Halted, ..torn_down(next) },
                    teardown_actions(next),
                ),
                Err(_) => (torn_down(next), teardown_actions(next)),
            }
        },
    }
}

/// The views of a list of actions.
pub open spec fn action_views<S>(actions: Seq<IoAction<S>>) -> Seq<ActionView<S>> {
    actions.map_values(|a: IoAction<S>| a@)
}

/// The view of the outcome of a select pass.
pub open spec fn step_view<S>(r: Result<Option<IoAction<S>>, Error>) -> StepView<S> {
    match r {
        Ok(Some(a)) => Ok(Some(a@)),
        Ok(None) => Ok(None),
        Err(e) => Err(e@),
    }
}

/// Whether an event needs a fresh correlation id: a request with a reply slot.
pub open spec fn needs_id<S>(event: IoEventView<S>) -> bool {
    event matches IoEventView::Submitted(_, Some(request)) && request.tx.is_some()
}

/// The state held by the I/O task.
pub struct IoTask<S> {
    options: IoOptions,
    client_heartbeat_timeout: Option<u64>,
    server_heartbeat_timeout: Option<u64>,
    processor: MessageProcessor<S>,
    state: IoTaskState,
    first_connect_pending: bool,
}

impl<S> View for IoTask<S> {
    type V = IoTaskView<S>;

    closed spec fn view(&self) -> IoTaskView<S> {
        IoTaskView {
            options: self.options,
            state: self.state@,
            client_deadline: self.client_heartbeat_timeout,
            server_deadline: self.server_heartbeat_timeout,
            last_incoming: self.processor.spec_last_incoming(),
            last_outgoing: self.processor.spec_last_outgoing(),
            heartbeat_interval_secs: self.processor.spec_heartbeat_interval_secs(),
            pending: self.processor.pending(),
            first_connect_pending: self.first_connect_pending,
        }
    }
}

impl<S> IoTask<S> {
    /// A task that is disconnected and has never connected. The processor
    /// is told the server keep-alive in whole seconds as the heartbeat
    /// interval.
    pub fn new(options: IoOptions, now: u64) -> (task: Self)
        ensures
            task@ == (IoTaskView::<S> {
                options,
                state: StateView::Disconnected,
                client_deadline: None,
                server_deadline: None,
                last_incoming: now,
                last_outgoing: now,
                heartbeat_interval_secs: options.server_keep_alive / 1000,
                pending: Map::empty(),
                first_connect_pending: true,
            }),
    {
        let mut processor = MessageProcessor::new(now);
        processor.set_heartbeat_interval_secs(options.server_keep_alive / 1000);
        IoTask {
            options,
            client_heartbeat_timeout: None,
            server_heartbeat_timeout: None,
            processor,
            state: IoTaskState::Disconnected,
            first_connect_pending: true,
        }
    }

    /// What the driver does next: see [`spec_poll`].
    pub fn poll(&self) -> (p: Poll)
        ensures
            p == spec_poll(self@),
    {
        match &self.state {
            IoTaskState::Halted => Poll::Stop,
            IoTaskState::Disconnected => Poll::Connect { timeout_ms: self.options.connect_timeout },
            IoTaskState::Connected(reader) => {
                match (self.client_heartbeat_timeout, self.server_heartbeat_timeout) {
                    (Some(client_deadline), Some(server_deadline)) => {
                        if reader.frame_ready() {
                            Poll::Resume
                        } else {
                            Poll::Select { client_deadline, server_deadline }
                        }
                    },
                    _ => Poll::Resume,
                }
            },
        }
    }

    /// Whether a whole frame waits in the buffer, so that the next pass
    /// takes it without a read.
    pub fn frame_ready(&self) -> (r: bool)
        ensures
            r == match self@.state {
                StateView::Connected { pending, buffer } => !(decode_step(pending, buffer).2
                    is NeedMore),
                _ => false,
            },
    {
        match &self.state {
            IoTaskState::Connected(reader) => reader.frame_ready(),
            _ => false,
        }
    }

    /// Takes the end of a connect attempt: on success the task has a
    /// stream and a reader at a frame boundary; else the error comes back,
    /// a timeout as `TimeoutError` with the connect timeout.
    pub fn try_connect(&mut self, attempt: ConnectAttempt) -> (r: Result<(), Error>)
        ensures
            match attempt_error(attempt@, old(self)@.options.connect_timeout) {
                None => r.is_ok() && final(self)@ == (IoTaskView {
                    state: StateView::Connected { pending: None, buffer: Seq::empty() },
                    ..old(self)@
                }),
                Some(e) => r matches Err(got) && got@ == e && final(self)@ == old(self)@,
            },
    {
        match attempt {
            ConnectAttempt::Established => {
                self.state = IoTaskState::Connected(FrameReader::new());
                Ok(())
            },
            ConnectAttempt::Failed(e) => Err(e),
            ConnectAttempt::TimedOut => Err(Error::TimeoutError(self.options.connect_timeout)),
        }
    }

    /// Tears the connection down: both timers are cleared, the stream is
    /// given up, every pending reply slot is dropped. Where a stream was
    /// up, the driver is told to emit `Disconnect` and to close it.
    pub fn shutdown_conn(&mut self) -> (actions: Vec<IoAction<S>>)
        ensures
            action_views(actions@) == teardown_actions(old(self)@),
            old(self)@.state is Connected ==> final(self)@ == torn_down(old(self)@),
            !(old(self)@.state is Connected) ==> final(self)@ == (IoTaskView {
                client_deadline: None,
                server_deadline: None,
                state: StateView::Disconnected,
                ..old(self)@
            }),
    {
        self.server_heartbeat_timeout = None;
        self.client_heartbeat_timeout = None;
        let mut state = IoTaskState::Disconnected;
        std::mem::swap(&mut self.state, &mut state);
        let mut actions: Vec<IoAction<S>> = Vec::new();
        match state {
            IoTaskState::Connected(_) => {
                let event = self.processor.handle_on_disconnected();
                self.processor.drop_pending();
                actions.push(IoAction::Control(event));
                actions.push(IoAction::CloseStream);
                assert(action_views(actions@) =~= teardown_actions(old(self)@));
            },
            _ => {
                assert(action_views(actions@) =~= teardown_actions(old(self)@));
            },
        }
        actions
    }

    fn arm(&mut self, now: u64)
        ensures
            final(self)@ == armed(old(self)@, now),
    {
        if self.server_heartbeat_timeout.is_none() {
            self.server_heartbeat_timeout = Some(
                add_saturating(now, self.options.server_keep_alive),
            );
        }
        if self.client_heartbeat_timeout.is_none() {
            self.client_heartbeat_timeout = Some(
                add_saturating(
                    now,
                    sub_saturating(self.options.client_keep_alive, CLIENT_KEEP_ALIVE_MARGIN_MS),
                ),
            );
        }
    }

    fn receive(&mut self, bytes: Vec<u8>, now: u64) -> (r: Result<Option<IoAction<S>>, Error>)
        requires
            old(self)@.state is Connected,
        ensures
            (final(self)@, step_view(r)) == on_received(old(self)@, bytes@, now),
    {
        let mut state = IoTaskState::Disconnected;
        std::mem::swap(&mut self.state, &mut state);
        match state {
            IoTaskState::Connected(mut reader) => {
                reader.feed(bytes.as_slice());
                let frame = reader.next_frame(self.options.max_packet_len);
                self.state = IoTaskState::Connected(reader);
                match frame {
                    Err(e) => Err(e),
                    Ok(None) => Ok(None),
                    Ok(Some(m)) => {
                        match self.processor.handle_incoming_packet(m, now) {
                            Err(e) => Err(e),
                            Ok(Incoming::Heartbeat) => Ok(None),
                            Ok(Incoming::Stranger) => Ok(None),
                            Ok(Incoming::Reply { slot, response }) => Ok(
                                Some(IoAction::Deliver { slot, response }),
                            ),
                            Ok(Incoming::Broadcast(response)) => Ok(
                                Some(IoAction::Notify(response)),
                            ),
                        }
                    },
                }
            },
            other => {
                self.state = other;
                Ok(None)
            },
        }
    }

    fn transmit(&mut self, message: &crate::message::ProtoMessage) -> (r: Result<
        Option<IoAction<S>>,
        Error,
    >)
        ensures
            final(self)@ == old(self)@,
            step_view(r) == (if body_bytes(message@).len() > u32::MAX {
                Err::<Option<ActionView<S>>, ErrorView>(
                    ErrorView::PayloadSizeLimitExceeded(body_bytes(message@).len() as usize),
                )
            } else {
                Ok(Some(ActionView::<S>::Transmit(frame_bytes(message@))))
            }),
    {
        let mut codec = MsgCodec::new();
        let mut frame: Vec<u8> = Vec::new();
        match codec.encode(message, &mut frame) {
            Ok(()) => {
                assert(frame@ =~= frame_bytes(message@));
                Ok(Some(IoAction::Transmit(frame)))
            },
            Err(e) => Err(e),
        }
    }

    /// One pass through the select with the correlation id given: see
    /// [`spec_run_once`].
    pub fn run_once_with_id(&mut self, event: IoEvent<S>, id: String, now: u64) -> (r: Result<
        Option<IoAction<S>>,
        Error,
    >)
        ensures
            (final(self)@, step_view(r)) == spec_run_once(old(self)@, event@, id@, now),
    {
        match &self.state {
            IoTaskState::Connected(_) => {},
            _ => {
                return Err(Error::String("Not connected to the network".to_string()));
            },
        }
        self.arm(now);
        match event {
            IoEvent::Connect(_) => Ok(None),
            IoEvent::Resume => self.receive(Vec::new(), now),
            IoEvent::Received(bytes) => self.receive(bytes, now),
            IoEvent::TransportFailed(kind) => Err(Error::Io(kind)),
            IoEvent::ListenersClosed => Err(Error::NotifySender),
            IoEvent::Submitted(_, None) => Err(Error::RequestsDone),
            IoEvent::Submitted(_, Some(request)) => {
                let m = self.processor.stamp_outgoing(request, id, now);
                self.transmit(&m)
            },
            IoEvent::ClientHeartbeat => {
                let m = self.processor.prepare_heartbeat_packet(now);
                self.client_heartbeat_timeout = Some(
                    add_saturating(
                        self.processor.last_outgoing(),
                        sub_saturating(self.options.client_keep_alive, CLIENT_KEEP_ALIVE_MARGIN_MS),
                    ),
                );
                self.transmit(&m)
            },
            IoEvent::ServerHeartbeat => {
                self.server_heartbeat_timeout = Some(
                    add_saturating(self.processor.last_incoming(), self.options.server_keep_alive),
                );
                let elapsed = sub_saturating(now, self.processor.last_incoming());
                if elapsed > add_saturating(
                    self.options.server_keep_alive,
                    SERVER_KEEP_ALIVE_MARGIN_MS,
                ) {
                    Err(Error::Disconnected)
                } else {
                    Ok(None)
                }
            },
            IoEvent::Cancelled => Err(Error::Cancel),
        }
    }

    /// One pass through the select. A request with a reply slot gets a
    /// fresh correlation id; it is random, so the contract holds for
    /// whichever id of 36 characters came.
    pub fn run_once(&mut self, event: IoEvent<S>, now: u64) -> (r: Result<
        Option<IoAction<S>>,
        Error,
    >)
        ensures
            exists|id: Seq<char>| #[trigger]
                spec_run_once(old(self)@, event@, id, now) == (final(self)@, step_view(r)) && (
                needs_id(event@) ==> id.len() == 36),
    {
        let id = self.fresh_id(&event);
        let ghost key = id@;
        let r = self.run_once_with_id(event, id, now);
        assert(spec_run_once(old(self)@, event@, key, now) == (self@, step_view(r)));
        r
    }

    fn fresh_id(&self, event: &IoEvent<S>) -> (id: String)
        ensures
            needs_id(event@) ==> id@.len() == 36,
    {
        match event {
            IoEvent::Submitted(_, Some(request)) => {
                if request.tx.is_some() {
                    self.processor.create_unique_id()
                } else {
                    String::new()
                }
            },
            _ => String::new(),
        }
    }

    /// One step of the outer loop with the correlation id given: see
    /// [`spec_run`].
    pub fn run_with_id(&mut self, event: IoEvent<S>, id: String, now: u64) -> (actions: Vec<
        IoAction<S>,
    >)
        ensures
            (final(self)@, action_views(actions@)) == spec_run(old(self)@, event@, id@, now),
    {
        match &self.state {
            IoTaskState::Halted => {
                let actions: Vec<IoAction<S>> = Vec::new();
                assert(action_views(actions@) =~= Seq::empty());
                actions
            },
            IoTaskState::Disconnected => {
                let mut actions: Vec<IoAction<S>> = Vec::new();
                match event {
                    IoEvent::Connect(attempt) => {
                        match self.try_connect(attempt) {
                            Ok(()) => {
                                if self.first_connect_pending {
                                    self.first_connect_pending = false;
                                    actions.push(IoAction::FirstConnect);
                                }
                                let event = self.processor.handle_on_connected();
                                actions.push(IoAction::Control(event));
                            },
                            Err(_) => {
                                if self.options.automatic_connect {
                                    actions.push(IoAction::Sleep(self.options.connect_retry_delay));
                                } else {
                                    self.state = IoTaskState::Halted;
                                }
                            },
                        }
                        assert(action_views(actions@) =~= on_connect(old(self)@, attempt@).1);
                    },
                    _ => {
                        assert(action_views(actions@) =~= Seq::empty());
                    },
                }
                actions
            },
            IoTaskState::Connected(_) => {
                let step = self.run_once_with_id(event, id, now);
                let ghost next = self@;
                match step {
                    Ok(None) => {
                        let actions: Vec<IoAction<S>> = Vec::new();
                        assert(action_views(actions@) =~= Seq::empty());
                        actions
                    },
                    Ok(Some(action)) => {
                        let mut actions: Vec<IoAction<S>> = Vec::new();
                        actions.push(action);
                        assert(action_views(actions@) =~= seq![action@]);
                        actions
                    },
                    Err(Error::Cancel) => {
                        let actions = self.shutdown_conn();
                        self.state = IoTaskState::Halted;
                        actions
                    },
                    Err(_) => {
                        let actions = self.shutdown_conn();
                        actions
                    },
                }
            },
        }
    }

    /// One step of the outer loop: takes the event that the driver waited
    /// for and returns what the driver has to do. A request with a reply
    /// slot gets a fresh correlation id; it is random, so the contract
    /// holds for whichever id of 36 characters came.
    pub fn run(&mut self, event: IoEvent<S>, now: u64) -> (actions: Vec<IoAction<S>>)
        ensures
            exists|id: Seq<char>| #[trigger]
                spec_run(old(self)@, event@, id, now) == (final(self)@, action_views(actions@))
                    && (needs_id(event@) ==> id.len() == 36),
    {
        let id = self.fresh_id(&event);
        let ghost key = id@;
        let actions = self.run_with_id(event, id, now);
        assert(spec_run(old(self)@, event@, key, now) == (self@, action_views(actions@)));
        actions
    }
}

/// A step of the task leaves its options and its heartbeat interval as
/// they are, and never moves a clock backwards.
pub proof fn law_step_keeps_configuration<S>(
    v: IoTaskView<S>,
    event: IoEventView<S>,
    id: Seq<char>,
    now: u64,
)
    ensures
        spec_run(v, event, id, now).0.options == v.options,
        spec_run(v, event, id, now).0.heartbeat_interval_secs == v.heartbeat_interval_secs,
        spec_run(v, event, id, now).0.last_incoming >= v.last_incoming,
        spec_run(v, event, id, now).0.last_outgoing >= v.last_outgoing,
{
}

/// Liveness watchdog: when the server heartbeat timer fires on a connected
/// task and the last incoming frame is older than the server keep-alive
/// plus two seconds, the task goes to `Disconnected`, tells its driver to
/// emit `Disconnect` and to close the stream, and drops what was pending.
pub proof fn law_liveness_watchdog<S>(v: IoTaskView<S>, id: Seq<char>, now: u64)
    requires
        v.state is Connected,
        now - v.last_incoming > v.options.server_keep_alive + SERVER_KEEP_ALIVE_MARGIN_MS,
    ensures
        spec_run_once(v, IoEventView::ServerHeartbeat, id, now).1 == Err::<
            Option<ActionView<S>>,
            ErrorView,
        >(ErrorView::Disconnected),
        spec_run(v, IoEventView::ServerHeartbeat, id, now).0.state is Disconnected,
        spec_run(v, IoEventView::ServerHeartbeat, id, now).0.pending == Map::<
            Seq<char>,
            S,
        >::empty(),
        spec_run(v, IoEventView::ServerHeartbeat, id, now).1 == seq![
            ActionView::<S>::Control(ConnectionState::Disconnect),
            ActionView::<S>::CloseStream,
        ],
{
}

/// While the last incoming frame is no older than the server keep-alive
/// plus two seconds, the watchdog leaves the connection up and is set to
/// the time of that frame plus the server keep-alive.
pub proof fn law_watchdog_spares_live_server<S>(v: IoTaskView<S>, id: Seq<char>, now: u64)
    requires
        v.state is Connected,
        now - v.last_incoming <= v.options.server_keep_alive + SERVER_KEEP_ALIVE_MARGIN_MS,
    ensures
        spec_run_once(v, IoEventView::ServerHeartbeat, id, now).1 == Ok::<
            Option<ActionView<S>>,
            ErrorView,
        >(None),
        spec_run(v, IoEventView::ServerHeartbeat, id, now).0.state == v.state,
        spec_run(v, IoEventView::ServerHeartbeat, id, now).0.pending == v.pending,
        spec_run(v, IoEventView::ServerHeartbeat, id, now).0.server_deadline == Some(
            sat_add(v.last_incoming, v.options.server_keep_alive),
        ),
        spec_run(v, IoEventView::ServerHeartbeat, id, now).1 == Seq::<ActionView<S>>::empty(),
{
}

/// One submission as the task sees it: the lane that yielded it, the
/// request, the correlation id minted for it and the time.
pub struct Submission<S> {
    pub lane: Lane,
    pub request: RequestView<S>,
    pub id: Seq<char>,
    pub at: u64,
}

/// The task after a run of submissions.
pub open spec fn after_submissions<S>(v: IoTaskView<S>, backlog: Seq<Submission<S>>) -> IoTaskView<
    S,
>
    decreases backlog.len(),
{
    if backlog.len() == 0 {
        v
    } else {
        spec_run(
            after_submissions(v, backlog.drop_last()),
            IoEventView::Submitted(backlog.last().lane, Some(backlog.last().request)),
            backlog.last().id,
            backlog.last().at,
        ).0
    }
}

/// Lane independence: the lanes share no state. However many requests
/// were submitted before, on whichever lanes, the task stays connected
/// and the next request leaves in the very pass that takes it, as its own
/// message under its own correlation id. When a lane is polled and when
/// its limiter grants a permit is the driver's part.
pub proof fn law_lane_independence<S>(
    v: IoTaskView<S>,
    backlog: Seq<Submission<S>>,
    lane: Lane,
    request: RequestView<S>,
    id: Seq<char>,
    now: u64,
)
    requires
        v.state is Connected,
        forall|i: int|
            0 <= i < backlog.len() ==> body_bytes(
                stamped(#[trigger] backlog[i].request, backlog[i].id),
            ).len() <= u32::MAX,
        body_bytes(stamped(request, id)).len() <= u32::MAX,
    ensures
        after_submissions(v, backlog).state == v.state,
        spec_run(
            after_submissions(v, backlog),
            IoEventView::Submitted(lane, Some(request)),
            id,
            now,
        ).1 == seq![ActionView::<S>::Transmit(frame_bytes(stamped(request, id)))],
    decreases backlog.len(),
{
    if backlog.len() > 0 {
        let last = backlog.last();
        assert(body_bytes(stamped(backlog[backlog.len() - 1].request, backlog[backlog.len() - 1].id)).len()
            <= u32::MAX);
        assert forall|i: int| 0 <= i < backlog.drop_last().len() implies body_bytes(
            stamped(#[trigger] backlog.drop_last()[i].request, backlog.drop_last()[i].id),
        ).len() <= u32::MAX by {
            assert(backlog.drop_last()[i] == backlog[i]);
        }
        law_lane_independence(v, backlog.drop_last(), last.lane, last.request, last.id, last.at);
    }
}

/// The task after `k` client heartbeats, each sent when it was due.
pub open spec fn after_beats<S>(v: IoTaskView<S>, k: nat) -> IoTaskView<S>
    decreases k,
{
    if k == 0 {
        v
    } else {
        let w = after_beats(v, (k - 1) as nat);
        spec_run(
            w,
            IoEventView::ClientHeartbeat,
            Seq::empty(),
            match w.client_deadline {
                Some(due) => due,
                None => 0,
            },
        ).0
    }
}

/// The first pass of a connection arms the client heartbeat: where that
/// pass sends a frame at `now`, the first heartbeat is due one second
/// before the client keep-alive ends, counted from that frame.
pub proof fn law_heartbeat_armed_with_first_frame<S>(
    v: IoTaskView<S>,
    lane: Lane,
    request: RequestView<S>,
    id: Seq<char>,
    now: u64,
)
    requires
        v.state is Connected,
        v.client_deadline.is_none(),
        now >= v.last_outgoing,
        v.options.client_keep_alive >= CLIENT_KEEP_ALIVE_MARGIN_MS,
        now + v.options.client_keep_alive <= u64::MAX,
        body_bytes(stamped(request, id)).len() <= u32::MAX,
    ensures
        spec_run(v, IoEventView::Submitted(lane, Some(request)), id, now).0.last_outgoing == now,
        spec_run(v, IoEventView::Submitted(lane, Some(request)), id, now).0.client_deadline == Some(
            (now + v.options.client_keep_alive - CLIENT_KEEP_ALIVE_MARGIN_MS) as u64,
        ),
{
}

/// Heartbeat cadence: with no other frame in between, the heartbeats
/// follow one another at the client keep-alive less one second. From a
/// heartbeat due at `due`, the `k`-th leaves at `due + (k - 1) * step` as a
/// heartbeat frame, and the next is due one `step` later.
pub proof fn law_heartbeat_train<S>(v: IoTaskView<S>, due: u64, k: nat)
    requires
        v.state is Connected,
        v.client_deadline == Some(due),
        due >= v.last_outgoing,
        v.options.client_keep_alive >= CLIENT_KEEP_ALIVE_MARGIN_MS,
        due + k * (v.options.client_keep_alive - CLIENT_KEEP_ALIVE_MARGIN_MS) <= u64::MAX,
    ensures
        after_beats(v, k).state == v.state,
        after_beats(v, k).options == v.options,
        after_beats(v, k).client_deadline == Some(
            (due + k * (v.options.client_keep_alive - CLIENT_KEEP_ALIVE_MARGIN_MS)) as u64,
        ),
        k >= 1 ==> after_beats(v, k).last_outgoing == due + (k - 1) * (v.options.client_keep_alive
            - CLIENT_KEEP_ALIVE_MARGIN_MS),
        k >= 1 ==> spec_run(
            after_beats(v, (k - 1) as nat),
            IoEventView::ClientHeartbeat,
            Seq::empty(),
            (due + (k - 1) * (v.options.client_keep_alive - CLIENT_KEEP_ALIVE_MARGIN_MS)) as u64,
        ).1 == seq![ActionView::<S>::Transmit(frame_bytes(heartbeat_message()))],
    decreases k,
{
    let step = v.options.client_keep_alive - CLIENT_KEEP_ALIVE_MARGIN_MS;
    if k >= 1 {
        assert(k * step == (k - 1) * step + step) by (nonlinear_arith);
        assert((k - 1) * step >= 0) by (nonlinear_arith)
            requires
                k >= 1,
                step >= 0,
        ;
        law_heartbeat_train(v, due, (k - 1) as nat);
        let w = after_beats(v, (k - 1) as nat);
        let at = (due + (k - 1) * step) as u64;
        assert(w.client_deadline == Some(at));
        assert(at >= w.last_outgoing) by {
            if k >= 2 {
                assert((k - 1) * step == (k - 2) * step + step) by (nonlinear_arith);
            }
        }
        lemma_heartbeat_body();
    } else {
        assert(k * step == 0) by (nonlinear_arith)
            requires
                k == 0,
        ;
    }
}

/// One permit, at most one frame: a submission puts at most one frame on
/// the wire, and nothing else comes of it unless it ends the connection.
pub proof fn law_one_frame_per_submission<S>(
    v: IoTaskView<S>,
    lane: Lane,
    request: Option<RequestView<S>>,
    id: Seq<char>,
    now: u64,
)
    ensures
        ({
            let actions = spec_run(v, IoEventView::Submitted(lane, request), id, now).1;
            ||| actions.len() == 0
            ||| actions.len() == 1 && actions[0] is Transmit
            ||| actions == teardown_actions(v) && v.state is Connected
        }),
{
}

/// The cancel signal halts a connected task; a halted task stays halted
/// and asks for nothing.
pub proof fn law_cancel_halts<S>(v: IoTaskView<S>, event: IoEventView<S>, id: Seq<char>, now: u64)
    ensures
        v.state is Connected ==> spec_run(v, IoEventView::Cancelled, id, now).0.state is Halted,
        v.state is Halted ==> spec_run(v, event, id, now) == (v, Seq::<ActionView<S>>::empty()),
{
}

/// The first-connect notifier fires once: with the first connect that
/// succeeds, and never after.
pub proof fn law_first_connect_once<S>(
    v: IoTaskView<S>,
    event: IoEventView<S>,
    id: Seq<char>,
    now: u64,
)
    ensures
        spec_run(v, event, id, now).1.contains(ActionView::FirstConnect) ==> v.first_connect_pending
            && !spec_run(v, event, id, now).0.first_connect_pending,
        !v.first_connect_pending ==> !spec_run(v, event, id, now).0.first_connect_pending,
{
    let r = spec_run(v, event, id, now);
    if r.1.contains(ActionView::FirstConnect) {
        let i = choose|i: int| 0 <= i < r.1.len() && r.1[i] == ActionView::<S>::FirstConnect;
        assert(r.1[i] == ActionView::<S>::FirstConnect);
    }
}

/// A client heartbeat is due one second before the client keep-alive
/// ends, counted from the heartbeat that just left.
pub proof fn law_heartbeat_cadence<S>(v: IoTaskView<S>, id: Seq<char>, now: u64)
    requires
        v.state is Connected,
        now >= v.last_outgoing,
        v.options.client_keep_alive >= CLIENT_KEEP_ALIVE_MARGIN_MS,
        now + v.options.client_keep_alive <= u64::MAX,
    ensures
        spec_run(v, IoEventView::ClientHeartbeat, id, now).0.client_deadline == Some(
            (now + v.options.client_keep_alive - CLIENT_KEEP_ALIVE_MARGIN_MS) as u64,
        ),
        spec_run(v, IoEventView::ClientHeartbeat, id, now).0.last_outgoing == now,
        spec_run(v, IoEventView::ClientHeartbeat, id, now).1 == seq![
            ActionView::<S>::Transmit(frame_bytes(heartbeat_message())),
        ],
{
    assert(body_bytes(heartbeat_message()).len() <= u32::MAX) by {
        lemma_heartbeat_body();
    }
}

/// The body of the heartbeat message.
pub proof fn lemma_heartbeat_body()
    ensures
        body_bytes(heartbeat_message()) == seq![8u8, 51u8, 18u8, 0u8],
{
    reveal_with_fuel(crate::varint::varint_bytes, 2);
    assert(body_bytes(heartbeat_message()) =~= seq![8u8, 51u8, 18u8, 0u8]);
}

} // verus!
