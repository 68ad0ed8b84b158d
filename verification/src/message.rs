//! The wire message and its protobuf encoding.
//!
//! A message has three fields: `payload_type` (field 1, varint, always
//! written), `payload` (field 2, bytes, optional) and `client_msg_id`
//! (field 3, string, optional). A reader accepts the fields in any order,
//! keeps the last value of a repeated field and skips fields it does not
//! know.

use crate::varint::{
    decode_varint, encode_varint, lemma_varint_parse_bounds, lemma_varint_round_trip, varint_bytes,
    varint_parse,
};
use vstd::prelude::*;
use vstd::slice::*;
use vstd::utf8::*;

verus! {

/// Payload type of a transport-level error response.
pub const PAYLOAD_ERROR_RES: u32 = 50;

/// Payload type of a heartbeat frame.
pub const PAYLOAD_HEARTBEAT_EVENT: u32 = 51;

/// Payload type of an application-level error response.
pub const PAYLOAD_OA_ERROR_RES: u32 = 2142;

/// One message on the wire.
#[derive(Debug, Clone, PartialEq, Eq)]
pub struct ProtoMessage {
    /// Selects the schema of `payload`.
    pub payload_type: u32,
    /// The serialized message that `payload_type` names.
    pub payload: Option<Vec<u8>>,
    /// Correlation id, set by the client and echoed by the server.
    pub client_msg_id: Option<String>,
}

/// Mathematical value of a [`ProtoMessage`].
pub struct MessageView {
    pub payload_type: u32,
    pub payload: Option<Seq<u8>>,
    pub client_msg_id: Option<Seq<char>>,
}

impl View for ProtoMessage {
    type V = MessageView;

    open spec fn view(&self) -> MessageView {
        MessageView {
            payload_type: self.payload_type,
            payload: match self.payload {
                Some(p) => Some(p@),
                None => None,
            },
            client_msg_id: match self.client_msg_id {
                Some(s) => Some(s@),
                None => None,
            },
        }
    }
}

/// The message a reader starts from: type zero and no optional field.
pub open spec fn empty_message() -> MessageView {
    MessageView { payload_type: 0, payload: None, client_msg_id: None }
}

/// The heartbeat message: an empty payload and no correlation id.
pub open spec fn heartbeat_message() -> MessageView {
    MessageView {
        payload_type: PAYLOAD_HEARTBEAT_EVENT,
        payload: Some(Seq::<u8>::empty()),
        client_msg_id: None,
    }
}

/// Key of a field: tag and wire type in one varint.
pub open spec fn field_key(tag: nat, wire_type: nat) -> Seq<u8> {
    varint_bytes(tag * 8 + wire_type)
}

/// A length-delimited field: key, length, data.
pub open spec fn delimited_field(tag: nat, data: Seq<u8>) -> Seq<u8> {
    field_key(tag, 2) + varint_bytes(data.len()) + data
}

/// Encoding of the optional payload.
pub open spec fn payload_field(payload: Option<Seq<u8>>) -> Seq<u8> {
    match payload {
        Some(p) => delimited_field(2, p),
        None => Seq::<u8>::empty(),
    }
}

/// Encoding of the optional correlation id.
pub open spec fn id_field(id: Option<Seq<char>>) -> Seq<u8> {
    match id {
        Some(s) => delimited_field(3, encode_utf8(s)),
        None => Seq::<u8>::empty(),
    }
}

/// The serialized form of a message: its fields in tag order.
pub open spec fn body_bytes(m: MessageView) -> Seq<u8> {
    field_key(1, 0) + varint_bytes(m.payload_type as nat) + payload_field(m.payload) + id_field(
        m.client_msg_id,
    )
}

/// What is left of the input after the value of an unknown field, given the
/// field's wire type (at most five) and tag and the bytes that follow its
/// key; `None` where the value is malformed. Defined by
/// `prost::encoding::skip_field`.
pub uninterp spec fn field_skip(wire_type: u8, tag: u32, bytes: Seq<u8>) -> Option<usize>;

/// A length prefix and the data it announces, with the bytes both take.
pub open spec fn parse_chunk(bytes: Seq<u8>) -> Option<(Seq<u8>, nat)> {
    match varint_parse(bytes) {
        Some((len, k)) => if len <= bytes.len() - k {
            Some((bytes.subrange(k as int, k + len), k + len as nat))
        } else {
            None
        },
        None => None,
    }
}

/// Reads the value of the field `tag` with wire type `wire_type` from
/// `rest` into `acc`; returns the message and the bytes the value takes.
pub open spec fn parse_value(tag: u32, wire_type: u8, rest: Seq<u8>, acc: MessageView) -> Option<
    (MessageView, nat),
> {
    if tag == 1 {
        if wire_type != 0 {
            None
        } else {
            match varint_parse(rest) {
                Some((v, k)) => Some(
                    (MessageView { payload_type: (v % 0x1_0000_0000) as u32, ..acc }, k),
                ),
                None => None,
            }
        }
    } else if tag == 2 {
        if wire_type != 2 {
            None
        } else {
            match parse_chunk(rest) {
                Some((data, k)) => Some((MessageView { payload: Some(data), ..acc }, k)),
                None => None,
            }
        }
    } else if tag == 3 {
        if wire_type != 2 {
            None
        } else {
            match parse_chunk(rest) {
                Some((data, k)) => if valid_utf8(data) {
                    Some((MessageView { client_msg_id: Some(decode_utf8(data)), ..acc }, k))
                } else {
                    None
                },
                None => None,
            }
        }
    } else {
        match field_skip(wire_type, tag, rest) {
            Some(left) => if left <= rest.len() {
                Some((acc, (rest.len() - left) as nat))
            } else {
                None
            },
            None => None,
        }
    }
}

/// Reads one field, key and value, from the front of `bytes` into `acc`.
/// A key is a varint of at most 32 bits with a wire type of at most five
/// and a tag other than zero.
pub open spec fn parse_field(bytes: Seq<u8>, acc: MessageView) -> Option<(MessageView, nat)> {
    match varint_parse(bytes) {
        Some((key, n)) => if key > 0xFFFF_FFFF || key % 8 > 5 || key / 8 == 0 {
            None
        } else {
            match parse_value((key / 8) as u32, (key % 8) as u8, bytes.skip(n as int), acc) {
                Some((next, k)) => Some((next, n + k)),
                None => None,
            }
        },
        None => None,
    }
}

/// Reads fields into `acc` until the input ends.
pub open spec fn parse_fields(bytes: Seq<u8>, acc: MessageView) -> Option<MessageView>
    decreases bytes.len(),
{
    if bytes.len() == 0 {
        Some(acc)
    } else {
        match parse_field(bytes, acc) {
            Some((next, used)) => if 0 < used <= bytes.len() {
                parse_fields(bytes.skip(used as int), next)
            } else {
                None
            },
            None => None,
        }
    }
}

/// The message that a serialized body holds, if it is well formed.
pub open spec fn parse_body(bytes: Seq<u8>) -> Option<MessageView> {
    parse_fields(bytes, empty_message())
}

/// Skips the value of an unknown field; returns how many bytes follow it.
///
/// Trusted: calls `prost::encoding::skip_field` with a fresh decode
/// context. The contract names the result and adds that what is left is
/// part of the input.
#[verifier::external_body]
fn skip_field(wire_type: u8, tag: u32, bytes: &[u8]) -> (r: Option<usize>)
    requires
        wire_type <= 5,
    ensures
        r == field_skip(wire_type, tag, bytes@),
        r matches Some(left) ==> left <= bytes@.len(),
{
    let mut rest = bytes;
    let kind = prost::encoding::WireType::try_from(u64::from(wire_type)).ok()?;
    let ctx = prost::encoding::DecodeContext::default();
    prost::encoding::skip_field(kind, tag, &mut rest, ctx).ok()?;
    Some(rest.len())
}

/// Turns bytes into a string where they are UTF-8.
///
/// Trusted: calls `String::from_utf8`, which succeeds exactly on valid
/// UTF-8 and then holds the characters that the bytes encode.
#[verifier::external_body]
fn string_from_utf8(bytes: Vec<u8>) -> (r: Option<String>)
    ensures
        valid_utf8(bytes@) ==> r.is_some() && r.unwrap()@ == decode_utf8(bytes@),
        !valid_utf8(bytes@) ==> r.is_none(),
{
    String::from_utf8(bytes).ok()
}

/// Appends `data` to `buf`.
pub fn append_bytes(buf: &mut Vec<u8>, data: &[u8])
    ensures
        final(buf)@ == old(buf)@ + data@,
{
    let mut i: usize = 0;
    while i < data.len()
        invariant
            i <= data@.len(),
            buf@ == old(buf)@ + data@.subrange(0, i as int),
        decreases data@.len() - i,
    {
        buf.push(data[i]);
        i += 1;
        assert(buf@ =~= old(buf)@ + data@.subrange(0, i as int));
    }
    assert(data@.subrange(0, i as int) =~= data@);
}

fn encode_delimited(tag: u32, data: &[u8], buf: &mut Vec<u8>)
    requires
        1 <= tag <= 3,
    ensures
        final(buf)@ == old(buf)@ + delimited_field(tag as nat, data@),
{
    encode_varint((tag * 8 + 2) as u64, buf);
    encode_varint(data.len() as u64, buf);
    append_bytes(buf, data);
    assert(buf@ =~= old(buf)@ + delimited_field(tag as nat, data@));
}

impl ProtoMessage {
    /// The heartbeat message.
    pub fn heartbeat() -> (m: ProtoMessage)
        ensures
            m@ == heartbeat_message(),
    {
        ProtoMessage {
            payload_type: PAYLOAD_HEARTBEAT_EVENT,
            payload: Some(Vec::new()),
            client_msg_id: None,
        }
    }

    /// A copy of the message.
    pub fn duplicate(&self) -> (m: ProtoMessage)
        ensures
            m@ == self@,
    {
        let payload = match &self.payload {
            Some(p) => {
                let c = slice_to_vec(p.as_slice());
                Some(c)
            },
            None => None,
        };
        let client_msg_id = match &self.client_msg_id {
            Some(s) => Some(s.clone()),
            None => None,
        };
        ProtoMessage { payload_type: self.payload_type, payload, client_msg_id }
    }

    /// Appends the serialized message to `buf`.
    pub fn encode_body(&self, buf: &mut Vec<u8>)
        ensures
            final(buf)@ == old(buf)@ + body_bytes(self@),
    {
        encode_varint(8, buf);
        encode_varint(self.payload_type as u64, buf);
        match &self.payload {
            Some(p) => {
                encode_delimited(2, p.as_slice(), buf);
            },
            None => {},
        }
        match &self.client_msg_id {
            Some(s) => {
                encode_delimited(3, s.as_str().as_bytes(), buf);
            },
            None => {},
        }
        assert(buf@ =~= old(buf)@ + body_bytes(self@));
    }

    /// The serialized message.
    pub fn encode_to_vec(&self) -> (body: Vec<u8>)
        ensures
            body@ == body_bytes(self@),
    {
        let mut body: Vec<u8> = Vec::new();
        self.encode_body(&mut body);
        assert(Seq::<u8>::empty() + body_bytes(self@) =~= body_bytes(self@));
        body
    }

    /// Reads a serialized message; `None` where the bytes are malformed.
    pub fn decode_body(bytes: &[u8]) -> (r: Option<ProtoMessage>)
        ensures
            match r {
                Some(m) => parse_body(bytes@) == Some(m@),
                None => parse_body(bytes@).is_none(),
            },
    {
        let mut msg = ProtoMessage { payload_type: 0, payload: None, client_msg_id: None };
        let mut pos: usize = 0;
        let total = bytes.len();
        assert(bytes@.skip(0) =~= bytes@);
        while pos < total
            invariant
                total == bytes@.len(),
                pos <= total,
                parse_body(bytes@) == parse_fields(bytes@.skip(pos as int), msg@),
            decreases total - pos,
        {
            let input = slice_subrange(bytes, pos, total);
            assert(input@ =~= bytes@.skip(pos as int));
            proof {
                lemma_varint_parse_bounds(input@);
            }
            let (key, after_key) = match decode_varint(input) {
                Some(p) => p,
                None => { return None; },
            };
            if key > 0xFFFF_FFFF || key % 8 > 5 || key / 8 == 0 {
                return None;
            }
            let tag: u32 = (key / 8) as u32;
            let wire_type: u8 = (key % 8) as u8;
            let key_len: usize = input.len() - after_key;
            let rest = slice_subrange(input, key_len, input.len());
            assert(rest@ =~= input@.skip(key_len as int));
            proof {
                lemma_varint_parse_bounds(rest@);
            }
            let left: usize;
            if tag == 1 {
                if wire_type != 0 {
                    return None;
                }
                match decode_varint(rest) {
                    Some((v, after)) => {
                        msg.payload_type = (v % 0x1_0000_0000) as u32;
                        left = after;
                    },
                    None => { return None; },
                }
            } else if tag == 2 || tag == 3 {
                if wire_type != 2 {
                    return None;
                }
                let (len, after) = match decode_varint(rest) {
                    Some(p) => p,
                    None => { return None; },
                };
                if len > after as u64 {
                    return None;
                }
                let start: usize = rest.len() - after;
                let data = slice_to_vec(slice_subrange(rest, start, start + len as usize));
                if tag == 2 {
                    msg.payload = Some(data);
                } else {
                    match string_from_utf8(data) {
                        Some(s) => {
                            msg.client_msg_id = Some(s);
                        },
                        None => { return None; },
                    }
                }
                left = after - len as usize;
            } else {
                match skip_field(wire_type, tag, rest) {
                    Some(after) => {
                        left = after;
                    },
                    None => { return None; },
                }
            }
            assert(left <= rest@.len());
            pos = total - left;
            assert(bytes@.skip(pos as int) =~= input@.skip(input@.len() - left));
        }
        Some(msg)
    }
}

/// Reading the fields that `body_bytes` writes gives the message back.
pub proof fn lemma_body_round_trip(m: MessageView)
    requires
        m.payload matches Some(p) ==> p.len() <= u64::MAX,
        m.client_msg_id matches Some(s) ==> encode_utf8(s).len() <= u64::MAX,
    ensures
        parse_body(body_bytes(m)) == Some(m),
{
    let f2 = payload_field(m.payload);
    let f3 = id_field(m.client_msg_id);
    let after1 = MessageView { payload_type: m.payload_type, ..empty_message() };
    let after2 = MessageView { payload: m.payload, ..after1 };
    assert(body_bytes(m) =~= field_key(1, 0) + varint_bytes(m.payload_type as nat) + (f2 + f3));
    lemma_type_read_back(m.payload_type, f2 + f3, empty_message());
    lemma_delimited_read_back(2, m.payload, f3, after1);
    lemma_id_read_back(m.client_msg_id, after2);
    assert(m == MessageView { client_msg_id: m.client_msg_id, ..after2 });
}

proof fn lemma_type_read_back(payload_type: u32, rest: Seq<u8>, acc: MessageView)
    ensures
        parse_fields(field_key(1, 0) + varint_bytes(payload_type as nat) + rest, acc)
            == parse_fields(rest, MessageView { payload_type, ..acc }),
{
    let v = varint_bytes(payload_type as nat);
    let s = field_key(1, 0) + v + rest;
    let next = MessageView { payload_type, ..acc };
    assert(varint_bytes(8) =~= seq![8u8]) by {
        reveal_with_fuel(varint_bytes, 2);
    }
    assert(s =~= varint_bytes(8) + (v + rest));
    lemma_varint_round_trip(8, v + rest);
    assert(varint_parse(s) == Some((8u64, 1nat)));
    assert(s.skip(1) =~= v + rest);
    lemma_varint_round_trip(payload_type as u64, rest);
    assert(varint_parse(s.skip(1)) == Some((payload_type as u64, v.len())));
    assert(parse_value(1, 0, s.skip(1), acc) == Some((next, v.len())));
    assert(parse_field(s, acc) == Some((next, 1 + v.len())));
    assert(s.skip(1 + v.len() as int) =~= rest);
}

proof fn lemma_chunk_read_back(data: Seq<u8>, rest: Seq<u8>)
    requires
        data.len() <= u64::MAX,
    ensures
        parse_chunk(varint_bytes(data.len()) + data + rest) == Some(
            (data, varint_bytes(data.len()).len() + data.len()),
        ),
{
    let l = varint_bytes(data.len());
    let s = l + data + rest;
    assert(s =~= l + (data + rest));
    lemma_varint_round_trip(data.len() as u64, data + rest);
    assert(s.subrange(l.len() as int, l.len() as int + data.len()) =~= data);
}

proof fn lemma_delimited_read_back(
    tag: nat,
    payload: Option<Seq<u8>>,
    rest: Seq<u8>,
    acc: MessageView,
)
    requires
        tag == 2,
        payload matches Some(p) ==> p.len() <= u64::MAX,
        acc.payload.is_none(),
    ensures
        parse_fields(payload_field(payload) + rest, acc) == parse_fields(
            rest,
            MessageView { payload, ..acc },
        ),
{
    match payload {
        Some(p) => {
            let s = payload_field(payload) + rest;
            let l = varint_bytes(p.len());
            assert(varint_bytes(18) =~= seq![18u8]) by {
                reveal_with_fuel(varint_bytes, 2);
            }
            assert(s =~= varint_bytes(18) + (l + p + rest));
            lemma_varint_round_trip(18, l + p + rest);
            assert(s.skip(1) =~= l + p + rest);
            lemma_chunk_read_back(p, rest);
            lemma_varint_round_trip(p.len() as u64, p + rest);
            let used = 1 + l.len() + p.len();
            assert(parse_field(s, acc) == Some((MessageView { payload, ..acc }, used)));
            assert(s.skip(used as int) =~= rest);
        },
        None => {
            assert(payload_field(payload) + rest =~= rest);
            assert(acc == MessageView { payload, ..acc });
        },
    }
}

proof fn lemma_id_read_back(id: Option<Seq<char>>, acc: MessageView)
    requires
        id matches Some(s) ==> encode_utf8(s).len() <= u64::MAX,
        acc.client_msg_id.is_none(),
    ensures
        parse_fields(id_field(id), acc) == Some(MessageView { client_msg_id: id, ..acc }),
{
    match id {
        Some(chars) => {
            let p = encode_utf8(chars);
            let s = id_field(id);
            let l = varint_bytes(p.len());
            let none = Seq::<u8>::empty();
            assert(varint_bytes(26) =~= seq![26u8]) by {
                reveal_with_fuel(varint_bytes, 2);
            }
            assert(s =~= varint_bytes(26) + (l + p + none));
            lemma_varint_round_trip(26, l + p + none);
            assert(s.skip(1) =~= l + p + none);
            lemma_chunk_read_back(p, none);
            lemma_varint_round_trip(p.len() as u64, p + none);
            encode_utf8_valid_utf8(chars);
            encode_utf8_decode_utf8(chars);
            let used = 1 + l.len() + p.len();
            let next = MessageView { client_msg_id: id, ..acc };
            assert(parse_field(s, acc) == Some((next, used)));
            assert(s.skip(used as int) =~= none);
            assert(parse_fields(none, next) == Some(next));
        },
        None => {
            assert(acc == MessageView { client_msg_id: id, ..acc });
        },
    }
}

} // verus!
