//! The message processor: stamps outgoing requests with a correlation id,
//! routes incoming messages to the waiting reply slot or to the listeners,
//! and keeps the two liveness clocks.
//!
//! Time is a reading of a monotonic clock in milliseconds; the caller
//! supplies it with every call.

use crate::error::Error;
use crate::message::{
    heartbeat_message, MessageView, ProtoMessage, PAYLOAD_ERROR_RES, PAYLOAD_HEARTBEAT_EVENT,
};
use crate::pending::PendingTable;
use crate::types::{ConnectionState, Request, Response};
use vstd::prelude::*;

verus! {

/// Seconds between two heartbeats of the server, unless configured.
pub const DEFAULT_HEARTBEAT_INTERVAL_SECS: u64 = 30;

/// What became of an incoming message.
#[derive(Debug)]
pub enum Incoming<S> {
    /// A heartbeat: absorbed.
    Heartbeat,
    /// The answer to a pending request, with the slot that waits for it.
    Reply { slot: S, response: Response },
    /// A correlated message that no slot waits for (a late answer): ignored.
    Stranger,
    /// An unsolicited message, for the listeners.
    Broadcast(Response),
}

/// The later of two clock readings.
pub open spec fn later(a: u64, b: u64) -> u64 {
    if a >= b {
        a
    } else {
        b
    }
}

/// How an incoming message is classified, by its payload type, its
/// correlation id and the ids that are pending.
pub enum Route {
    Heartbeat,
    TransportError,
    Reply(Seq<char>),
    Stranger,
    Broadcast,
}

/// The route of `packet` given the pending ids.
pub open spec fn route_of<S>(pending: Map<Seq<char>, S>, packet: MessageView) -> Route {
    if packet.payload_type == PAYLOAD_HEARTBEAT_EVENT {
        Route::Heartbeat
    } else if packet.payload_type == PAYLOAD_ERROR_RES {
        Route::TransportError
    } else {
        match packet.client_msg_id {
            None => Route::Broadcast,
            Some(id) => if pending.contains_key(id) {
                Route::Reply(id)
            } else {
                Route::Stranger
            },
        }
    }
}

/// The pending table after `packet` has come in: the entry of an answered
/// request is gone, everything else stays.
pub open spec fn pending_after<S>(pending: Map<Seq<char>, S>, packet: MessageView) -> Map<
    Seq<char>,
    S,
> {
    match route_of(pending, packet) {
        Route::Reply(id) => pending.remove(id),
        _ => pending,
    }
}

/// State of the protocol on one connection.
pub struct MessageProcessor<S> {
    last_incoming: u64,
    last_outgoing: u64,
    heartbeat_interval_secs: u64,
    store: PendingTable<S>,
}

/// A fresh correlation id.
///
/// Trusted: calls `uuid::Uuid::new_v4` and formats the result, which gives
/// the hyphenated form of 36 characters. The id is random: nothing is
/// claimed of which one comes.
#[verifier::external_body]
fn new_uuid_text() -> (id: String)
    ensures
        id@.len() == 36,
{
    uuid::Uuid::new_v4().to_string()
}

impl<S> MessageProcessor<S> {
    /// Time of the last incoming frame.
    pub closed spec fn spec_last_incoming(&self) -> u64 {
        self.last_incoming
    }

    /// Time of the last outgoing frame.
    pub closed spec fn spec_last_outgoing(&self) -> u64 {
        self.last_outgoing
    }

    /// Seconds between two heartbeats of the server.
    pub closed spec fn spec_heartbeat_interval_secs(&self) -> u64 {
        self.heartbeat_interval_secs
    }

    /// The pending requests: correlation id to reply slot.
    pub closed spec fn pending(&self) -> Map<Seq<char>, S> {
        self.store@
    }

    /// A processor with no pending request and both clocks at `now`.
    pub fn new(now: u64) -> (p: Self)
        ensures
            p.spec_last_incoming() == now,
            p.spec_last_outgoing() == now,
            p.spec_heartbeat_interval_secs() == DEFAULT_HEARTBEAT_INTERVAL_SECS,
            p.pending() == Map::<Seq<char>, S>::empty(),
    {
        MessageProcessor {
            last_incoming: now,
            last_outgoing: now,
            heartbeat_interval_secs: DEFAULT_HEARTBEAT_INTERVAL_SECS,
            store: PendingTable::new(),
        }
    }

    /// Time of the last incoming frame.
    #[verifier::when_used_as_spec(spec_last_incoming)]
    pub fn last_incoming(&self) -> (t: u64)
        ensures
            t == self.spec_last_incoming(),
    {
        self.last_incoming
    }

    /// Time of the last outgoing frame.
    #[verifier::when_used_as_spec(spec_last_outgoing)]
    pub fn last_outgoing(&self) -> (t: u64)
        ensures
            t == self.spec_last_outgoing(),
    {
        self.last_outgoing
    }

    /// Seconds between two heartbeats of the server.
    #[verifier::when_used_as_spec(spec_heartbeat_interval_secs)]
    pub fn heartbeat_interval_secs(&self) -> (s: u64)
        ensures
            s == self.spec_heartbeat_interval_secs(),
    {
        self.heartbeat_interval_secs
    }

    /// Sets the seconds between two heartbeats of the server.
    pub fn set_heartbeat_interval_secs(&mut self, secs: u64)
        ensures
            final(self).spec_heartbeat_interval_secs() == secs,
            final(self).spec_last_incoming() == old(self).spec_last_incoming(),
            final(self).spec_last_outgoing() == old(self).spec_last_outgoing(),
            final(self).pending() == old(self).pending(),
    {
        self.heartbeat_interval_secs = secs;
    }

    /// Drops every reply slot: the callers that wait see their channel break.
    pub fn drop_pending(&mut self)
        ensures
            final(self).pending() == Map::<Seq<char>, S>::empty(),
            final(self).spec_heartbeat_interval_secs() == old(self).spec_heartbeat_interval_secs(),
            final(self).spec_last_incoming() == old(self).spec_last_incoming(),
            final(self).spec_last_outgoing() == old(self).spec_last_outgoing(),
    {
        self.store.clear();
    }

    /// Whether a request waits under `id`.
    pub fn is_pending(&self, id: &String) -> (r: bool)
        ensures
            r == self.pending().contains_key(id@),
    {
        self.store.contains(id)
    }

    /// Whether no request waits.
    pub fn is_idle(&self) -> (r: bool)
        ensures
            r == (self.pending() == Map::<Seq<char>, S>::empty()),
    {
        self.store.is_empty()
    }

    fn kv_get(&mut self, id: &String) -> (r: Option<S>)
        ensures
            final(self).spec_last_incoming() == old(self).spec_last_incoming(),
            final(self).spec_last_outgoing() == old(self).spec_last_outgoing(),
            final(self).spec_heartbeat_interval_secs() == old(self).spec_heartbeat_interval_secs(),
            match r {
                Some(slot) => {
                    &&& old(self).pending().contains_key(id@)
                    &&& slot == old(self).pending()[id@]
                    &&& final(self).pending() == old(self).pending().remove(id@)
                },
                None => !old(self).pending().contains_key(id@) && final(self).pending() == old(self).pending(),
            },
    {
        self.store.remove(id)
    }

    fn kv_set(&mut self, id: String, tx: S)
        ensures
            final(self).spec_last_incoming() == old(self).spec_last_incoming(),
            final(self).spec_last_outgoing() == old(self).spec_last_outgoing(),
            final(self).spec_heartbeat_interval_secs() == old(self).spec_heartbeat_interval_secs(),
            final(self).pending() == old(self).pending().insert(id@, tx),
    {
        let _ = self.store.insert(id, tx);
    }

    pub(crate) fn create_unique_id(&self) -> (id: String)
        ensures
            id@.len() == 36,
    {
        new_uuid_text()
    }

    /// The control event for a connection that has come up.
    pub fn handle_on_connected(&mut self) -> (event: ConnectionState)
        ensures
            event == ConnectionState::Connected,
            *final(self) == *old(self),
    {
        ConnectionState::Connected
    }

    /// The control event for a connection that has gone down.
    pub fn handle_on_disconnected(&mut self) -> (event: ConnectionState)
        ensures
            event == ConnectionState::Disconnect,
            *final(self) == *old(self),
    {
        ConnectionState::Disconnect
    }

    /// Prepares `request` for the wire under the correlation id `id`: where
    /// the request has a reply slot, the id is stamped into the message and
    /// the slot is registered under it; a request without a slot goes out
    /// as it is. Either way the outgoing clock moves to `now`.
    pub fn stamp_outgoing(&mut self, request: Request<S>, id: String, now: u64) -> (m:
        ProtoMessage)
        ensures
            final(self).spec_last_incoming() == old(self).spec_last_incoming(),
            final(self).spec_last_outgoing() == later(old(self).spec_last_outgoing(), now),
            final(self).spec_heartbeat_interval_secs() == old(self).spec_heartbeat_interval_secs(),
            match request.tx {
                Some(slot) => {
                    &&& m@ == MessageView { client_msg_id: Some(id@), ..request.message@ }
                    &&& final(self).pending() == old(self).pending().insert(id@, slot)
                },
                None => m@ == request.message@ && final(self).pending() == old(self).pending(),
            },
    {
        let mut req = request;
        match req.tx {
            Some(slot) => {
                req.message.client_msg_id = Some(id.clone());
                self.kv_set(id, slot);
            },
            None => {},
        }
        if now > self.last_outgoing {
            self.last_outgoing = now;
        }
        req.message
    }

    /// Prepares `request` for the wire under a fresh correlation id.
    /// The id is random, so the contract holds for whichever id came: a
    /// request with a slot leaves with some id of 36 characters, registered
    /// with its slot; one without leaves unchanged.
    pub fn prepare_outgoing_packet(&mut self, request: Request<S>, now: u64) -> (m: ProtoMessage)
        ensures
            final(self).spec_last_incoming() == old(self).spec_last_incoming(),
            final(self).spec_last_outgoing() == later(old(self).spec_last_outgoing(), now),
            final(self).spec_heartbeat_interval_secs() == old(self).spec_heartbeat_interval_secs(),
            match request.tx {
                Some(slot) => exists|id: Seq<char>|
                    {
                        &&& id.len() == 36
                        &&& #[trigger] old(self).pending().insert(id, slot) == final(self).pending()
                        &&& m@ == MessageView { client_msg_id: Some(id), ..request.message@ }
                    },
                None => m@ == request.message@ && final(self).pending() == old(self).pending(),
            },
    {
        let id = self.create_unique_id();
        let ghost key = id@;
        let ghost tx = request.tx;
        let m = self.stamp_outgoing(request, id, now);
        proof {
            if tx.is_some() {
                assert(old(self).pending().insert(key, tx.unwrap()) == self.pending());
            }
        }
        m
    }

    /// The heartbeat frame; the outgoing clock moves to `now`.
    pub fn prepare_heartbeat_packet(&mut self, now: u64) -> (m: ProtoMessage)
        ensures
            m@ == heartbeat_message(),
            final(self).spec_last_incoming() == old(self).spec_last_incoming(),
            final(self).spec_last_outgoing() == later(old(self).spec_last_outgoing(), now),
            final(self).spec_heartbeat_interval_secs() == old(self).spec_heartbeat_interval_secs(),
            final(self).pending() == old(self).pending(),
    {
        let msg = ProtoMessage::heartbeat();
        if now > self.last_outgoing {
            self.last_outgoing = now;
        }
        msg
    }

    /// Takes in one message from the server; the incoming clock moves to
    /// `now`. A heartbeat is absorbed. A transport-level error response
    /// fails with `ServerErrorRes`. A message with a correlation id goes to
    /// the slot pending under that id, which leaves the table; with an
    /// unknown id it is ignored. A message without correlation id is for
    /// the listeners.
    pub fn handle_incoming_packet(&mut self, packet: ProtoMessage, now: u64) -> (r: Result<
        Incoming<S>,
        Error,
    >)
        ensures
            final(self).spec_last_incoming() == later(old(self).spec_last_incoming(), now),
            final(self).spec_last_outgoing() == old(self).spec_last_outgoing(),
            final(self).spec_heartbeat_interval_secs() == old(self).spec_heartbeat_interval_secs(),
            final(self).pending() == pending_after(old(self).pending(), packet@),
            match route_of(old(self).pending(), packet@) {
                Route::Heartbeat => r matches Ok(Incoming::Heartbeat),
                Route::TransportError => r matches Err(Error::ServerErrorRes(m)) && m == packet,
                Route::Reply(id) => r matches Ok(Incoming::Reply { slot, response })
                    && slot == old(self).pending()[id] && response.message == packet,
                Route::Stranger => r matches Ok(Incoming::Stranger),
                Route::Broadcast => r matches Ok(Incoming::Broadcast(response))
                    && response.message == packet,
            },
    {
        if now > self.last_incoming {
            self.last_incoming = now;
        }
        if packet.payload_type == PAYLOAD_HEARTBEAT_EVENT {
            return Ok(Incoming::Heartbeat);
        }
        if packet.payload_type == PAYLOAD_ERROR_RES {
            return Err(Error::ServerErrorRes(packet));
        }
        let found = match &packet.client_msg_id {
            None => {
                return Ok(Incoming::Broadcast(Response { message: packet }));
            },
            Some(client_msg_id) => self.kv_get(client_msg_id),
        };
        match found {
            Some(slot) => Ok(Incoming::Reply { slot, response: Response { message: packet } }),
            None => Ok(Incoming::Stranger),
        }
    }
}

/// Whether a message is neither a heartbeat nor a transport error.
pub open spec fn is_ordinary(m: MessageView) -> bool {
    m.payload_type != PAYLOAD_HEARTBEAT_EVENT && m.payload_type != PAYLOAD_ERROR_RES
}

/// The pending table after a batch of requests went out: the request
/// with the id `ids[k]` waits in `slots[k]`.
pub open spec fn registered<S>(pending: Map<Seq<char>, S>, ids: Seq<Seq<char>>, slots: Seq<S>) -> Map<
    Seq<char>,
    S,
>
    decreases ids.len(),
{
    if ids.len() == 0 || slots.len() != ids.len() {
        pending
    } else {
        registered(pending, ids.drop_last(), slots.drop_last()).insert(ids.last(), slots.last())
    }
}

/// The pending table after a run of messages came in.
pub open spec fn pending_after_all<S>(pending: Map<Seq<char>, S>, packets: Seq<MessageView>) -> Map<
    Seq<char>,
    S,
>
    decreases packets.len(),
{
    if packets.len() == 0 {
        pending
    } else {
        pending_after(pending_after_all(pending, packets.drop_last()), packets.last())
    }
}

proof fn lemma_registered_value<S>(
    pending: Map<Seq<char>, S>,
    ids: Seq<Seq<char>>,
    slots: Seq<S>,
    i: int,
)
    requires
        ids.len() == slots.len(),
        ids.no_duplicates(),
        0 <= i < ids.len(),
    ensures
        registered(pending, ids, slots).contains_key(ids[i]),
        registered(pending, ids, slots)[ids[i]] == slots[i],
    decreases ids.len(),
{
    if i < ids.len() - 1 {
        lemma_registered_value(pending, ids.drop_last(), slots.drop_last(), i);
        assert(ids.drop_last()[i] == ids[i]);
        assert(ids[i] != ids.last());
    }
}

proof fn lemma_untouched_until<S>(
    start: Map<Seq<char>, S>,
    packets: Seq<MessageView>,
    k: int,
    id: Seq<char>,
)
    requires
        0 <= k <= packets.len(),
        forall|j: int| 0 <= j < k ==> packets[j].client_msg_id != Some(id),
    ensures
        pending_after_all(start, packets.take(k)).contains_key(id) == start.contains_key(id),
        pending_after_all(start, packets.take(k))[id] == start[id],
    decreases k,
{
    if k > 0 {
        lemma_untouched_until(start, packets, k - 1, id);
        assert(packets.take(k).drop_last() =~= packets.take(k - 1));
        assert(packets.take(k).last() == packets[k - 1]);
    }
}

/// Correlation routing: a batch of requests went out under distinct ids,
/// each with its slot, and the server answers every one of them, in any
/// order (`order[k]` is the request that the `k`-th answer belongs to).
/// Then each answer is routed to the slot of its own request.
pub proof fn law_correlation_routing<S>(
    pending: Map<Seq<char>, S>,
    ids: Seq<Seq<char>>,
    slots: Seq<S>,
    order: Seq<int>,
    packets: Seq<MessageView>,
    k: int,
)
    requires
        ids.len() == slots.len(),
        ids.no_duplicates(),
        order.len() == ids.len(),
        order.no_duplicates(),
        forall|j: int| 0 <= j < order.len() ==> 0 <= #[trigger] order[j] < ids.len(),
        packets.len() == order.len(),
        forall|j: int|
            0 <= j < packets.len() ==> is_ordinary(#[trigger] packets[j])
                && packets[j].client_msg_id == Some(ids[order[j]]),
        0 <= k < packets.len(),
    ensures
        route_of(
            pending_after_all(registered(pending, ids, slots), packets.take(k)),
            packets[k],
        ) == Route::Reply(ids[order[k]]),
        pending_after_all(registered(pending, ids, slots), packets.take(k))[ids[order[k]]]
            == slots[order[k]],
{
    let start = registered(pending, ids, slots);
    let id = ids[order[k]];
    lemma_registered_value(pending, ids, slots, order[k]);
    assert forall|j: int| 0 <= j < k implies packets[j].client_msg_id != Some(id) by {
        assert(is_ordinary(packets[j]));
        assert(order[j] != order[k]);
        assert(ids[order[j]] != ids[order[k]]);
    }
    lemma_untouched_until(start, packets, k, id);
    assert(is_ordinary(packets[k]));
}

/// Stranger tolerance: a message whose correlation id is not pending
/// leaves every pending slot where it is, and is not a reply.
pub proof fn law_stranger_tolerance<S>(pending: Map<Seq<char>, S>, packet: MessageView)
    requires
        packet.client_msg_id matches Some(id) && !pending.contains_key(id),
    ensures
        pending_after(pending, packet) == pending,
        !(route_of(pending, packet) is Reply),
{
}

/// A reply is delivered once: after it, its correlation id is a stranger.
pub proof fn law_reply_resolves_once<S>(pending: Map<Seq<char>, S>, packet: MessageView)
    requires
        route_of(pending, packet) is Reply,
    ensures
        !(route_of(pending_after(pending, packet), packet) is Reply),
        pending_after(pending_after(pending, packet), packet) == pending_after(pending, packet),
{
}

} // verus!
