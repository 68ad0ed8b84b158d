//! The connection facade: what callers see of the I/O task.
//!
//! The facade decides; its driver holds the channels. A call that hands a
//! request out returns the [`Request`] to put on the lane; the driver then
//! waits for the reply slot and gives the outcome to
//! [`Connection::timed_request`].

use crate::error::{Error, ErrorView, IoErrorKind};
use crate::io_task::{spec_run, ActionView, IoEventView, IoTask, IoTaskView, StateView};
use crate::codec::frame_bytes;
use crate::message::{body_bytes, MessageView, ProtoMessage, PAYLOAD_OA_ERROR_RES};
use crate::options::IoOptions;
use crate::types::{ConnectionState, Event, EventView, Lane, Request, RequestView, Response};
use vstd::prelude::*;

verus! {

/// How the wait for a reply ended.
#[derive(Debug)]
pub enum ReplyOutcome {
    /// The reply slot was resolved with this response.
    Received(Response),
    /// The reply slot was dropped: the connection went down.
    ChannelClosed,
    /// The deadline passed first.
    TimedOut,
}

/// Mathematical value of a [`ReplyOutcome`].
pub enum ReplyView {
    Received(MessageView),
    ChannelClosed,
    TimedOut,
}

impl View for ReplyOutcome {
    type V = ReplyView;

    open spec fn view(&self) -> ReplyView {
        match *self {
            ReplyOutcome::Received(r) => ReplyView::Received(r.message@),
            ReplyOutcome::ChannelClosed => ReplyView::ChannelClosed,
            ReplyOutcome::TimedOut => ReplyView::TimedOut,
        }
    }
}

/// What the two channels of a listener yielded, whichever was first.
#[derive(Debug)]
pub enum Heard {
    /// The control channel: a state change, or `None` where it is closed.
    Control(Option<ConnectionState>),
    /// The event channel: a response, or `None` where it is closed.
    Response(Option<Response>),
}

/// Mathematical value of a [`Connection`].
pub struct ConnectionView {
    pub options: IoOptions,
    pub has_task: bool,
}

/// The answer to a caller: an application error response becomes the
/// failure `SpotwareError`, anything else is the answer.
pub open spec fn converted(m: MessageView) -> Result<MessageView, ErrorView> {
    if m.payload_type == PAYLOAD_OA_ERROR_RES {
        Err(ErrorView::SpotwareError(m))
    } else {
        Ok(m)
    }
}

/// What the caller of a request gets, by how the wait ended: the converted
/// response, a broken pipe where the slot was dropped, or a timeout with
/// the deadline in milliseconds.
pub open spec fn resolved(reply: ReplyView, timeout_ms: u64) -> Result<MessageView, ErrorView> {
    match reply {
        ReplyView::Received(m) => converted(m),
        ReplyView::ChannelClosed => Err(ErrorView::Io(IoErrorKind::BrokenPipe)),
        ReplyView::TimedOut => Err(ErrorView::TimeoutError(timeout_ms)),
    }
}

/// The view of what a request call returns.
pub open spec fn message_result_view(r: Result<ProtoMessage, Error>) -> Result<
    MessageView,
    ErrorView,
> {
    match r {
        Ok(m) => Ok(m@),
        Err(e) => Err(e@),
    }
}

/// The request that a call hands to its lane, or `Disconnected` where
/// there is no I/O task.
pub open spec fn submitted<S>(v: ConnectionView, message: MessageView, tx: Option<S>) -> Result<
    RequestView<S>,
    ErrorView,
> {
    if v.has_task {
        Ok(RequestView { message, tx })
    } else {
        Err(ErrorView::Disconnected)
    }
}

/// The connection after `shutdown`.
pub open spec fn after_shutdown(v: ConnectionView) -> ConnectionView {
    ConnectionView { has_task: false, ..v }
}

/// The view of what a submitting call returns.
pub open spec fn request_result_view<S>(r: Result<Request<S>, Error>) -> Result<
    RequestView<S>,
    ErrorView,
> {
    match r {
        Ok(req) => Ok(req@),
        Err(e) => Err(e@),
    }
}

/// The view of a result without value.
pub open spec fn unit_result_view(r: Result<(), Error>) -> Result<(), ErrorView> {
    match r {
        Ok(()) => Ok(()),
        Err(e) => Err(e@),
    }
}

/// The view of what spawning returns.
pub open spec fn task_result_view<S>(r: Result<IoTask<S>, Error>) -> Result<
    IoTaskView<S>,
    ErrorView,
> {
    match r {
        Ok(task) => Ok(task@),
        Err(e) => Err(e@),
    }
}

/// The connection after an attempt to spawn its task.
pub open spec fn after_spawn(v: ConnectionView) -> ConnectionView {
    ConnectionView { has_task: true, ..v }
}

/// What spawning returns: a task that is disconnected, has the options of
/// the connection and both clocks at `now`; or an error where a task was
/// spawned before.
pub open spec fn spawned<S>(v: ConnectionView, now: u64) -> Result<IoTaskView<S>, ErrorView> {
    if v.has_task {
        Err(ErrorView::String(already_spawned_text()))
    } else {
        Ok(
            IoTaskView {
                options: v.options,
                state: StateView::Disconnected,
                client_deadline: None,
                server_deadline: None,
                last_incoming: now,
                last_outgoing: now,
                heartbeat_interval_secs: v.options.server_keep_alive / 1000,
                pending: Map::empty(),
                first_connect_pending: true,
            },
        )
    }
}

/// Text of the error of a second `connect`.
pub open spec fn already_spawned_text() -> Seq<char> {
    "Already spawned IO task"@
}

/// Handle on the I/O task of one session.
#[derive(Debug)]
pub struct Connection {
    options: IoOptions,
    has_task: bool,
}

impl View for Connection {
    type V = ConnectionView;

    closed spec fn view(&self) -> ConnectionView {
        ConnectionView { options: self.options, has_task: self.has_task }
    }
}

impl Connection {
    /// A connection without I/O task.
    pub fn new(opts: IoOptions) -> (c: Self)
        ensures
            c@ == (ConnectionView { options: opts, has_task: false }),
    {
        Self { options: opts, has_task: false }
    }

    /// The options of the connection.
    pub fn options(&self) -> (o: &IoOptions)
        ensures
            *o == self@.options,
    {
        &self.options
    }

    fn check_io_task(&self) -> (r: Result<(), Error>)
        ensures
            unit_result_view(r) == (if self@.has_task {
                Ok(())
            } else {
                Err(ErrorView::Disconnected)
            }),
    {
        if self.has_task {
            Ok(())
        } else {
            Err(Error::Disconnected)
        }
    }

    fn check_no_io_task(&self) -> (r: Result<(), Error>)
        ensures
            unit_result_view(r) == (if self@.has_task {
                Err(ErrorView::String(already_spawned_text()))
            } else {
                Ok(())
            }),
    {
        if self.has_task {
            Err(Error::String("Already spawned IO task".to_string()))
        } else {
            Ok(())
        }
    }

    /// Creates the I/O task for the driver to spawn; fails where one was
    /// spawned already. The task starts disconnected, with the options of
    /// the connection and its clocks at `now`.
    pub fn spawn_io_task<S>(&mut self, now: u64) -> (r: Result<IoTask<S>, Error>)
        ensures
            final(self)@ == after_spawn(old(self)@),
            task_result_view(r) == spawned::<S>(old(self)@, now),
    {
        match self.check_no_io_task() {
            Err(e) => Err(e),
            Ok(()) => {
                let task = IoTask::new(self.options.duplicate(), now);
                self.has_task = true;
                Ok(task)
            },
        }
    }

    /// Starts the connection: see [`Connection::spawn_io_task`]. The
    /// driver spawns the task and waits for its first connect.
    pub fn connect<S>(&mut self, now: u64) -> (r: Result<IoTask<S>, Error>)
        ensures
            final(self)@ == after_spawn(old(self)@),
            task_result_view(r) == spawned::<S>(old(self)@, now),
    {
        self.spawn_io_task(now)
    }

    /// What `connect` returns once the driver has waited: success where
    /// the first-connect notifier fired, `Disconnected` where the task
    /// halted before.
    pub fn first_connect(fired: bool) -> (r: Result<(), Error>)
        ensures
            unit_result_view(r) == (if fired {
                Ok(())
            } else {
                Err(ErrorView::Disconnected)
            }),
    {
        if fired {
            Ok(())
        } else {
            Err(Error::Disconnected)
        }
    }

    /// Gives the I/O task up: the driver signals cancel and joins it.
    /// Without task the call fails with `Disconnected`.
    pub fn shutdown(&mut self) -> (r: Result<(), Error>)
        ensures
            final(self)@ == after_shutdown(old(self)@),
            unit_result_view(r) == (if old(self)@.has_task {
                Ok(())
            } else {
                Err(ErrorView::Disconnected)
            }),
    {
        match self.check_io_task() {
            Err(e) => Err(e),
            Ok(()) => {
                self.has_task = false;
                Ok(())
            },
        }
    }

    fn submit<S>(&self, message: ProtoMessage, tx: Option<S>) -> (r: Result<Request<S>, Error>)
        ensures
            request_result_view(r) == submitted(self@, message@, tx),
    {
        match self.check_io_task() {
            Err(e) => Err(e),
            Ok(()) => Ok(Request { message, tx }),
        }
    }

    /// A request on the general lane that awaits its answer in `tx`.
    pub fn send_request<S>(&self, message: ProtoMessage, tx: S) -> (r: Result<Request<S>, Error>)
        ensures
            request_result_view(r) == submitted(self@, message@, Some(tx)),
    {
        self.submit(message, Some(tx))
    }

    /// A request on the historical lane that awaits its answer in `tx`.
    pub fn send_historical_request<S>(&self, message: ProtoMessage, tx: S) -> (r: Result<
        Request<S>,
        Error,
    >)
        ensures
            request_result_view(r) == submitted(self@, message@, Some(tx)),
    {
        self.submit(message, Some(tx))
    }

    /// A message on the general lane that awaits no answer.
    pub fn post_message<S>(&self, message: ProtoMessage) -> (r: Result<Request<S>, Error>)
        ensures
            request_result_view(r) == submitted(self@, message@, None::<S>),
    {
        self.submit(message, None)
    }

    /// A message on the historical lane that awaits no answer.
    pub fn post_historical_message<S>(&self, message: ProtoMessage) -> (r: Result<
        Request<S>,
        Error,
    >)
        ensures
            request_result_view(r) == submitted(self@, message@, None::<S>),
    {
        self.submit(message, None)
    }

    /// The error of a request that its lane did not take.
    pub fn queue_closed(historical: bool) -> (e: Error)
        ensures
            e@ == ErrorView::InternalSenderError(historical),
    {
        Error::InternalSenderError(historical)
    }

    /// The deadline of a round trip in milliseconds, or `None` where the
    /// caller waits without one (an `io_timeout` of zero).
    pub fn reply_deadline(&self) -> (d: Option<u64>)
        ensures
            d == (if self@.options.io_timeout > 0 {
                Some(self@.options.io_timeout)
            } else {
                None
            }),
    {
        if self.options.io_timeout > 0 {
            Some(self.options.io_timeout)
        } else {
            None
        }
    }

    /// Turns an application error response into a failure.
    pub fn convert_error_response(msg: ProtoMessage) -> (r: Result<ProtoMessage, Error>)
        ensures
            message_result_view(r) == converted(msg@),
    {
        if msg.payload_type == PAYLOAD_OA_ERROR_RES {
            Err(Error::SpotwareError(msg))
        } else {
            Ok(msg)
        }
    }

    /// What the caller of a request gets once the wait for its reply slot
    /// has ended.
    pub fn timed_request(&self, reply: ReplyOutcome) -> (r: Result<ProtoMessage, Error>)
        ensures
            message_result_view(r) == resolved(reply@, self@.options.io_timeout),
    {
        match reply {
            ReplyOutcome::Received(response) => Self::convert_error_response(response.message),
            ReplyOutcome::ChannelClosed => Err(Error::Io(IoErrorKind::BrokenPipe)),
            ReplyOutcome::TimedOut => Err(Error::TimeoutError(self.options.io_timeout)),
        }
    }

    /// The event for a listener: a control event or an unsolicited
    /// message, or `None` where the channel that yielded is closed.
    pub fn listen(heard: Heard) -> (r: Option<Event>)
        ensures
            match heard {
                Heard::Control(Some(c)) => r.is_some() && r.unwrap()@ == EventView::Control(c),
                Heard::Response(Some(resp)) => r.is_some() && r.unwrap()@ == EventView::Message(
                    resp.message@,
                ),
                _ => r.is_none(),
            },
    {
        match heard {
            Heard::Control(Some(event)) => Some(Event::Control(event)),
            Heard::Response(Some(msg)) => Some(Event::Message(msg.message)),
            _ => None,
        }
    }
}

/// After `shutdown`, every request fails with `Disconnected`, with or
/// without reply slot and on either lane.
pub proof fn law_shutdown_ends_requests<S>(v: ConnectionView, message: MessageView, tx: Option<S>)
    ensures
        submitted(after_shutdown(v), message, tx) == Err::<RequestView<S>, ErrorView>(
            ErrorView::Disconnected,
        ),
{
}

/// The round trip of a request: a connection with a task hands the
/// request with its slot to the general lane; the connected task sends it
/// as one frame under the fresh correlation id; when the server's answer
/// with that id comes in, it goes to that slot and the pending entry is
/// gone; the caller gets the answer unchanged, unless it is an application
/// error.
pub proof fn law_request_round_trip<S>(
    c: ConnectionView,
    t: IoTaskView<S>,
    message: MessageView,
    tx: S,
    id: Seq<char>,
    answer: MessageView,
    sent_at: u64,
    answered_at: u64,
)
    requires
        c.has_task,
        t.state == (StateView::Connected { pending: None, buffer: Seq::empty() }),
        !t.pending.contains_key(id),
        body_bytes(MessageView { client_msg_id: Some(id), ..message }).len() <= u32::MAX,
        answer.client_msg_id == Some(id),
        crate::processor::is_ordinary(answer),
        answer.payload_type != PAYLOAD_OA_ERROR_RES,
        body_bytes(answer).len() <= u32::MAX,
        body_bytes(answer).len() <= t.options.max_packet_len,
    ensures
        ({
            let request = RequestView { message, tx: Some(tx) };
            let sent = spec_run(t, IoEventView::Submitted(Lane::General, Some(request)), id, sent_at);
            let got = spec_run(
                sent.0,
                IoEventView::Received(frame_bytes(answer)),
                Seq::empty(),
                answered_at,
            );
            &&& submitted(c, message, Some(tx)) == Ok::<RequestView<S>, ErrorView>(request)
            &&& sent.1 == seq![
                ActionView::<S>::Transmit(
                    frame_bytes(MessageView { client_msg_id: Some(id), ..message }),
                ),
            ]
            &&& sent.0.pending == t.pending.insert(id, tx)
            &&& got.1 == seq![ActionView::<S>::Deliver { slot: tx, message: answer }]
            &&& got.0.pending == t.pending
            &&& got.0.state == t.state
            &&& resolved(ReplyView::Received(answer), c.options.io_timeout) == Ok::<
                MessageView,
                ErrorView,
            >(answer)
        }),
{
    let none = Seq::<u8>::empty();
    let frame = frame_bytes(answer);
    crate::codec::law_frame_round_trip(answer, none);
    crate::codec::lemma_be32_round_trip(body_bytes(answer).len(), body_bytes(answer));
    assert(frame + none =~= frame);
    assert(none + frame =~= frame);
    assert(t.pending.insert(id, tx).remove(id) =~= t.pending);
}

} // verus!
