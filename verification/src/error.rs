//! Errors returned by the library.

use crate::message::{MessageView, ProtoMessage};
use vstd::prelude::*;

verus! {

/// What went wrong on the transport below the frames.
#[derive(Debug, Clone, Copy, PartialEq, Eq, Structural)]
pub enum IoErrorKind {
    /// The peer of a reply slot or of the stream is gone.
    BrokenPipe,
    /// The stream ended or was reset.
    ConnectionLost,
    /// Any other failure of a read, a write or a connect.
    Other,
}

/// Errors returned by the library.
#[derive(Debug, Clone, PartialEq, Eq)]
pub enum Error {
    /// There is no live transport.
    Disconnected,
    /// Shutdown was requested.
    Cancel,
    /// The I/O task could not be joined.
    JoinError,
    /// A configuration or usage error, in words.
    String(String),
    /// At least this many more bytes are needed to frame a packet.
    InsufficientBytes(usize),
    /// A frame body is larger than the limit; holds the body's size.
    PayloadSizeLimitExceeded(usize),
    /// The length prefix of a frame could not be read.
    ParseFrameLengthError,
    /// The body of a frame is not a well-formed message.
    DecodeProtoMessageError,
    /// The submission queue of a lane was closed.
    RequestsDone,
    /// The transport failed.
    Io(IoErrorKind),
    /// A message could not be serialized.
    Serialization,
    /// The event channel was closed.
    NotifySender,
    /// The control channel was closed.
    CtrlEventSender,
    /// The server reported a transport-level error; holds its message.
    ServerErrorRes(ProtoMessage),
    /// The host is not a valid DNS name.
    DNSName(String),
    /// The socket was disconnected.
    Disconnect,
    /// A deadline expired; holds the deadline in milliseconds.
    TimeoutError(u64),
    /// A request could not be queued; holds whether the lane was the historical one.
    InternalSenderError(bool),
    /// The server answered a request with an application error; holds its message.
    SpotwareError(ProtoMessage),
    /// The server's version is below the one required: required, actual.
    SpotwareVersionError(u32, u32),
    /// The server's version is not a number; holds the text.
    ParseVersionError(String),
    /// A trend bar period outside the known ones.
    PeriodParamError(i32),
}

/// Mathematical value of an [`Error`].
pub enum ErrorView {
    Disconnected,
    Cancel,
    JoinError,
    String(Seq<char>),
    InsufficientBytes(usize),
    PayloadSizeLimitExceeded(usize),
    ParseFrameLengthError,
    DecodeProtoMessageError,
    RequestsDone,
    Io(IoErrorKind),
    Serialization,
    NotifySender,
    CtrlEventSender,
    ServerErrorRes(MessageView),
    DNSName(Seq<char>),
    Disconnect,
    TimeoutError(u64),
    InternalSenderError(bool),
    SpotwareError(MessageView),
    SpotwareVersionError(u32, u32),
    ParseVersionError(Seq<char>),
    PeriodParamError(i32),
}

impl View for Error {
    type V = ErrorView;

    open spec fn view(&self) -> ErrorView {
        match *self {
            Error::Disconnected => ErrorView::Disconnected,
            Error::Cancel => ErrorView::Cancel,
            Error::JoinError => ErrorView::JoinError,
            Error::String(s) => ErrorView::String(s@),
            Error::InsufficientBytes(n) => ErrorView::InsufficientBytes(n),
            Error::PayloadSizeLimitExceeded(n) => ErrorView::PayloadSizeLimitExceeded(n),
            Error::ParseFrameLengthError => ErrorView::ParseFrameLengthError,
            Error::DecodeProtoMessageError => ErrorView::DecodeProtoMessageError,
            Error::RequestsDone => ErrorView::RequestsDone,
            Error::Io(k) => ErrorView::Io(k),
            Error::Serialization => ErrorView::Serialization,
            Error::NotifySender => ErrorView::NotifySender,
            Error::CtrlEventSender => ErrorView::CtrlEventSender,
            Error::ServerErrorRes(m) => ErrorView::ServerErrorRes(m@),
            Error::DNSName(s) => ErrorView::DNSName(s@),
            Error::Disconnect => ErrorView::Disconnect,
            Error::TimeoutError(ms) => ErrorView::TimeoutError(ms),
            Error::InternalSenderError(h) => ErrorView::InternalSenderError(h),
            Error::SpotwareError(m) => ErrorView::SpotwareError(m@),
            Error::SpotwareVersionError(need, got) => ErrorView::SpotwareVersionError(need, got),
            Error::ParseVersionError(s) => ErrorView::ParseVersionError(s@),
            Error::PeriodParamError(p) => ErrorView::PeriodParamError(p),
        }
    }
}

} // verus!
