//! Values that pass between callers, the I/O task and the processor.

use crate::message::{MessageView, ProtoMessage};
use vstd::prelude::*;

verus! {

/// A change of the transport's state, reported on the control channel.
#[derive(Debug, Clone, Copy, PartialEq, Eq, Structural)]
pub enum ConnectionState {
    Connected,
    Disconnect,
}

/// What a listener receives: an unsolicited message or a control event.
#[derive(Debug, Clone, PartialEq, Eq)]
pub enum Event {
    Message(ProtoMessage),
    Control(ConnectionState),
}

/// A message from the server on its way to a reply slot or to the listeners.
#[derive(Debug, Clone, PartialEq, Eq)]
pub struct Response {
    pub message: ProtoMessage,
}

/// A submission: a message and, where an answer is awaited, the reply slot
/// of the caller. The slot is whatever the caller resolves once; the
/// library carries it and hands it back with the answer.
#[derive(Debug)]
pub struct Request<S> {
    pub message: ProtoMessage,
    pub tx: Option<S>,
}

/// Mathematical value of a [`Request`].
pub struct RequestView<S> {
    pub message: MessageView,
    pub tx: Option<S>,
}

impl<S> View for Request<S> {
    type V = RequestView<S>;

    open spec fn view(&self) -> RequestView<S> {
        RequestView { message: self.message@, tx: self.tx }
    }
}

/// Mathematical value of an [`Event`].
pub enum EventView {
    Message(MessageView),
    Control(ConnectionState),
}

impl View for Event {
    type V = EventView;

    open spec fn view(&self) -> EventView {
        match *self {
            Event::Message(m) => EventView::Message(m@),
            Event::Control(c) => EventView::Control(c),
        }
    }
}

/// The two outgoing lanes.
#[derive(Debug, Clone, Copy, PartialEq, Eq, Structural)]
pub enum Lane {
    General,
    Historical,
}

} // verus!
