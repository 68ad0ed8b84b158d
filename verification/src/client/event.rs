//! Unsolicited messages of the server as typed events.

use crate::message::{MessageView, ProtoMessage};
use vstd::prelude::*;

verus! {

/// An unsolicited message by its kind; `Ignored` stands for one that is not
/// rebroadcast. Each other event holds the message as it
/// came; its payload is the serialized event of that kind.
#[derive(Debug, Clone, PartialEq, Eq)]
pub enum NotifyEvent {
    Ignored,
    TrailingSlChangedEvent(ProtoMessage),
    SymbolChangedEvent(ProtoMessage),
    AccoutDataUpdateEvent(ProtoMessage),
    ExecutionEvent(ProtoMessage),
    SpotEvent(ProtoMessage),
    OrderErrorEvent(ProtoMessage),
    MarginChangedEvent(ProtoMessage),
    ErrorRes(ProtoMessage),
    AccountsTokenInvalidatedEvent(ProtoMessage),
    ClientDisconnectEvent(ProtoMessage),
    DepthEvent(ProtoMessage),
    AccountDisconnectEvent(ProtoMessage),
    MarginCallUpdateEvent(ProtoMessage),
    MarginCallTriggerEvent(ProtoMessage),
    ProtoErrorRes(ProtoMessage),
}

/// Mathematical value of a [`NotifyEvent`].
pub enum NotifyView {
    Ignored,
    TrailingSlChangedEvent(MessageView),
    SymbolChangedEvent(MessageView),
    AccoutDataUpdateEvent(MessageView),
    ExecutionEvent(MessageView),
    SpotEvent(MessageView),
    OrderErrorEvent(MessageView),
    MarginChangedEvent(MessageView),
    ErrorRes(MessageView),
    AccountsTokenInvalidatedEvent(MessageView),
    ClientDisconnectEvent(MessageView),
    DepthEvent(MessageView),
    AccountDisconnectEvent(MessageView),
    MarginCallUpdateEvent(MessageView),
    MarginCallTriggerEvent(MessageView),
    ProtoErrorRes(MessageView),
}

impl View for NotifyEvent {
    type V = NotifyView;

    open spec fn view(&self) -> NotifyView {
        match *self {
            NotifyEvent::Ignored => NotifyView::Ignored,
            NotifyEvent::TrailingSlChangedEvent(m) => NotifyView::TrailingSlChangedEvent(m@),
            NotifyEvent::SymbolChangedEvent(m) => NotifyView::SymbolChangedEvent(m@),
            NotifyEvent::AccoutDataUpdateEvent(m) => NotifyView::AccoutDataUpdateEvent(m@),
            NotifyEvent::ExecutionEvent(m) => NotifyView::ExecutionEvent(m@),
            NotifyEvent::SpotEvent(m) => NotifyView::SpotEvent(m@),
            NotifyEvent::OrderErrorEvent(m) => NotifyView::OrderErrorEvent(m@),
            NotifyEvent::MarginChangedEvent(m) => NotifyView::MarginChangedEvent(m@),
            NotifyEvent::ErrorRes(m) => NotifyView::ErrorRes(m@),
            NotifyEvent::AccountsTokenInvalidatedEvent(m) => {
                NotifyView::AccountsTokenInvalidatedEvent(m@)
            },
            NotifyEvent::ClientDisconnectEvent(m) => NotifyView::ClientDisconnectEvent(m@),
            NotifyEvent::DepthEvent(m) => NotifyView::DepthEvent(m@),
            NotifyEvent::AccountDisconnectEvent(m) => NotifyView::AccountDisconnectEvent(m@),
            NotifyEvent::MarginCallUpdateEvent(m) => NotifyView::MarginCallUpdateEvent(m@),
            NotifyEvent::MarginCallTriggerEvent(m) => NotifyView::MarginCallTriggerEvent(m@),
            NotifyEvent::ProtoErrorRes(m) => NotifyView::ProtoErrorRes(m@),
        }
    }
}

/// Payload type of the event that the trailing stop loss changed.
pub const TRAILING_SL_CHANGED_EVENT: u32 = 2107;

/// Payload type of the event that a symbol changed.
pub const SYMBOL_CHANGED_EVENT: u32 = 2120;

/// Payload type of the event that the trader was updated.
pub const TRADER_UPDATE_EVENT: u32 = 2123;

/// Payload type of the execution event.
pub const EXECUTION_EVENT: u32 = 2126;

/// Payload type of the spot event.
pub const SPOT_EVENT: u32 = 2131;

/// Payload type of the order error event.
pub const ORDER_ERROR_EVENT: u32 = 2132;

/// Payload type of the event that the margin changed.
pub const MARGIN_CHANGED_EVENT: u32 = 2141;

/// Payload type of the event that the tokens of accounts were invalidated.
pub const ACCOUNTS_TOKEN_INVALIDATED_EVENT: u32 = 2147;

/// Payload type of the event that the server disconnects the client.
pub const CLIENT_DISCONNECT_EVENT: u32 = 2148;

/// Payload type of the depth event.
pub const DEPTH_EVENT: u32 = 2155;

/// Payload type of the event that a margin call was updated.
pub const MARGIN_CALL_UPDATE_EVENT: u32 = 2171;

/// Payload type of the event that a margin call was triggered.
pub const MARGIN_CALL_TRIGGER_EVENT: u32 = 2172;

/// The event that an unsolicited message is, by its payload type.
/// Transport errors, heartbeats, application errors and the client
/// disconnect are not rebroadcast, and neither is an unknown type.
pub open spec fn dispatched(m: MessageView) -> NotifyView {
    if m.payload_type == TRAILING_SL_CHANGED_EVENT {
        NotifyView::TrailingSlChangedEvent(m)
    } else if m.payload_type == SYMBOL_CHANGED_EVENT {
        NotifyView::SymbolChangedEvent(m)
    } else if m.payload_type == TRADER_UPDATE_EVENT {
        NotifyView::AccoutDataUpdateEvent(m)
    } else if m.payload_type == EXECUTION_EVENT {
        NotifyView::ExecutionEvent(m)
    } else if m.payload_type == SPOT_EVENT {
        NotifyView::SpotEvent(m)
    } else if m.payload_type == ORDER_ERROR_EVENT {
        NotifyView::OrderErrorEvent(m)
    } else if m.payload_type == MARGIN_CHANGED_EVENT {
        NotifyView::MarginChangedEvent(m)
    } else if m.payload_type == ACCOUNTS_TOKEN_INVALIDATED_EVENT {
        NotifyView::AccountsTokenInvalidatedEvent(m)
    } else if m.payload_type == DEPTH_EVENT {
        NotifyView::DepthEvent(m)
    } else if m.payload_type == MARGIN_CALL_UPDATE_EVENT {
        NotifyView::MarginCallUpdateEvent(m)
    } else if m.payload_type == MARGIN_CALL_TRIGGER_EVENT {
        NotifyView::MarginCallTriggerEvent(m)
    } else {
        NotifyView::Ignored
    }
}

/// The event that `msg` is: see [`dispatched`].
pub fn classify(msg: ProtoMessage) -> (event: NotifyEvent)
    ensures
        event@ == dispatched(msg@),
{
    match msg.payload_type {
        2107 => NotifyEvent::TrailingSlChangedEvent(msg),
        2120 => NotifyEvent::SymbolChangedEvent(msg),
        2123 => NotifyEvent::AccoutDataUpdateEvent(msg),
        2126 => NotifyEvent::ExecutionEvent(msg),
        2131 => NotifyEvent::SpotEvent(msg),
        2132 => NotifyEvent::OrderErrorEvent(msg),
        2141 => NotifyEvent::MarginChangedEvent(msg),
        2147 => NotifyEvent::AccountsTokenInvalidatedEvent(msg),
        2155 => NotifyEvent::DepthEvent(msg),
        2171 => NotifyEvent::MarginCallUpdateEvent(msg),
        2172 => NotifyEvent::MarginCallTriggerEvent(msg),
        _ => NotifyEvent::Ignored,
    }
}

} // verus!
