//! The frame codec: a 32-bit big-endian length, then that many bytes of
//! serialized message.

use crate::error::Error;
use crate::message::{body_bytes, lemma_body_round_trip, parse_body, MessageView, ProtoMessage};
use vstd::prelude::*;

verus! {

/// The four bytes of `n`, most significant first.
pub open spec fn be32(n: nat) -> Seq<u8> {
    seq![
        (n / 0x100_0000 % 256) as u8,
        (n / 0x1_0000 % 256) as u8,
        (n / 0x100 % 256) as u8,
        (n % 256) as u8,
    ]
}

/// The number that the first four bytes of `s` hold, most significant first.
pub open spec fn be32_value(s: Seq<u8>) -> nat {
    (s[0] as nat) * 0x100_0000 + (s[1] as nat) * 0x1_0000 + (s[2] as nat) * 0x100 + (s[3] as nat)
}

/// One message as a frame.
pub open spec fn frame_bytes(m: MessageView) -> Seq<u8> {
    be32(body_bytes(m).len()) + body_bytes(m)
}

/// What one call of the decoder found.
pub enum Decoded {
    /// A whole frame with a well-formed body.
    Message(MessageView),
    /// A whole frame whose body is malformed.
    Malformed,
    /// The buffer ends before the frame does.
    NeedMore,
}

/// The decoder's state while it waits for a body: the length it read.
pub open spec fn pending_after_header(pending: Option<usize>, buf: Seq<u8>) -> Option<usize> {
    if pending.is_none() && buf.len() >= 4 {
        Some(be32_value(buf) as usize)
    } else {
        pending
    }
}

/// The buffer once the header, if one was due and complete, is taken off.
pub open spec fn buffer_after_header(pending: Option<usize>, buf: Seq<u8>) -> Seq<u8> {
    if pending.is_none() && buf.len() >= 4 {
        buf.skip(4)
    } else {
        buf
    }
}

/// One step of the decoder on a state and a buffer: the new state, the new
/// buffer and what was found. The header is read once four bytes are there;
/// the body once as many bytes are there as the header says. A malformed
/// body is consumed and leaves the state as it was.
pub open spec fn decode_step(pending: Option<usize>, buf: Seq<u8>) -> (Option<usize>, Seq<u8>, Decoded) {
    let p = pending_after_header(pending, buf);
    let b = buffer_after_header(pending, buf);
    match p {
        None => (p, b, Decoded::NeedMore),
        Some(n) => if b.len() >= n {
            match parse_body(b.subrange(0, n as int)) {
                Some(m) => (None, b.skip(n as int), Decoded::Message(m)),
                None => (p, b.skip(n as int), Decoded::Malformed),
            }
        } else {
            (p, b, Decoded::NeedMore)
        },
    }
}

/// Takes the first `n` bytes off `buf`.
fn take_front(buf: &mut Vec<u8>, n: usize) -> (front: Vec<u8>)
    requires
        n <= old(buf)@.len(),
    ensures
        front@ == old(buf)@.subrange(0, n as int),
        final(buf)@ == old(buf)@.skip(n as int),
{
    let mut tail = buf.split_off(n);
    std::mem::swap(buf, &mut tail);
    assert(buf@ =~= old(buf)@.skip(n as int));
    tail
}

/// Stateful stream parser and writer of frames.
#[derive(Debug)]
pub struct MsgCodec {
    len: Option<usize>,
}

impl Default for MsgCodec {
    fn default() -> (c: MsgCodec)
        ensures
            c.pending().is_none(),
    {
        MsgCodec { len: None }
    }
}

impl MsgCodec {
    /// The length of the body that the decoder waits for, once it has read a header.
    pub closed spec fn pending(&self) -> Option<usize> {
        self.len
    }

    /// A codec at a frame boundary.
    pub fn new() -> (c: MsgCodec)
        ensures
            c.pending().is_none(),
    {
        MsgCodec { len: None }
    }

    /// The length of the body that the decoder waits for, if it has read a header.
    pub fn pending_len(&self) -> (r: Option<usize>)
        ensures
            r == self.pending(),
    {
        self.len
    }

    /// The length of the body of the frame at the front of `buf`: the one
    /// the decoder waits for or, at a frame boundary, the one that the next
    /// four bytes announce.
    pub fn announced_len(&self, buf: &Vec<u8>) -> (r: Option<usize>)
        ensures
            r == pending_after_header(self.pending(), buf@),
    {
        if self.len.is_none() && buf.len() >= 4 {
            let n: u32 = (buf[0] as u32) * 0x100_0000 + (buf[1] as u32) * 0x1_0000 + (buf[2] as u32)
                * 0x100 + (buf[3] as u32);
            Some(n as usize)
        } else {
            self.len
        }
    }

    /// Appends `msg` as one frame to `buf`. A body of more than `u32::MAX`
    /// bytes has no frame: it is refused and `buf` stays as it was.
    pub fn encode(&mut self, msg: &ProtoMessage, buf: &mut Vec<u8>) -> (r: Result<(), Error>)
        ensures
            final(self).pending() == old(self).pending(),
            body_bytes(msg@).len() <= u32::MAX ==> r.is_ok() && final(buf)@ == old(buf)@
                + frame_bytes(msg@),
            body_bytes(msg@).len() > u32::MAX ==> r == Err::<(), Error>(
                Error::PayloadSizeLimitExceeded(body_bytes(msg@).len() as usize),
            ) && final(buf)@ == old(buf)@,
    {
        let body = msg.encode_to_vec();
        let size = body.len();
        if size > 0xFFFF_FFFF {
            return Err(Error::PayloadSizeLimitExceeded(size));
        }
        buf.push((size / 0x100_0000 % 256) as u8);
        buf.push((size / 0x1_0000 % 256) as u8);
        buf.push((size / 0x100 % 256) as u8);
        buf.push((size % 256) as u8);
        crate::message::append_bytes(buf, body.as_slice());
        assert(buf@ =~= old(buf)@ + frame_bytes(msg@));
        Ok(())
    }

    /// Takes the next frame off the front of `buf`, if it is complete.
    /// Returns the message, `Ok(None)` where more bytes are needed, or
    /// `DecodeProtoMessageError` where the body is malformed.
    pub fn decode(&mut self, buf: &mut Vec<u8>) -> (r: Result<Option<ProtoMessage>, Error>)
        ensures
            final(self).pending() == decode_step(old(self).pending(), old(buf)@).0,
            final(buf)@ == decode_step(old(self).pending(), old(buf)@).1,
            match decode_step(old(self).pending(), old(buf)@).2 {
                Decoded::Message(m) => r matches Ok(Some(got)) && got@ == m,
                Decoded::Malformed => r == Err::<Option<ProtoMessage>, Error>(
                    Error::DecodeProtoMessageError,
                ),
                Decoded::NeedMore => r matches Ok(None),
            },
    {
        if self.len.is_none() && buf.len() >= 4 {
            let announced = self.announced_len(buf);
            let _ = take_front(buf, 4);
            self.len = announced;
        }
        match self.len {
            None => Ok(None),
            Some(n) => {
                if buf.len() >= n {
                    let body = take_front(buf, n);
                    match ProtoMessage::decode_body(body.as_slice()) {
                        Some(m) => {
                            self.len = None;
                            Ok(Some(m))
                        },
                        None => Err(Error::DecodeProtoMessageError),
                    }
                } else {
                    Ok(None)
                }
            },
        }
    }
}

/// The four bytes written for a length read back as that length.
pub proof fn lemma_be32_round_trip(n: nat, rest: Seq<u8>)
    requires
        n <= u32::MAX,
    ensures
        be32(n).len() == 4,
        be32_value(be32(n) + rest) == n,
{
    let s = be32(n) + rest;
    assert(s[0] == be32(n)[0] && s[1] == be32(n)[1] && s[2] == be32(n)[2] && s[3] == be32(n)[3]);
}

/// Frame round trip: the decoder at a frame boundary, given the frame of a
/// message followed by anything, returns that message and leaves what
/// followed, again at a frame boundary. A frame has a length of 32 bits, so
/// this speaks of the messages whose body fits one.
pub proof fn law_frame_round_trip(m: MessageView, rest: Seq<u8>)
    requires
        body_bytes(m).len() <= u32::MAX,
    ensures
        decode_step(None, frame_bytes(m) + rest) == (None::<usize>, rest, Decoded::Message(m)),
{
    let body = body_bytes(m);
    let buf = frame_bytes(m) + rest;
    assert(buf =~= be32(body.len()) + (body + rest));
    lemma_be32_round_trip(body.len(), body + rest);
    assert(buf.skip(4) =~= body + rest);
    assert((body + rest).subrange(0, body.len() as int) =~= body);
    assert((body + rest).skip(body.len() as int) =~= rest);
    assert(crate::message::payload_field(m.payload).len() <= body.len()
        && crate::message::id_field(m.client_msg_id).len() <= body.len());
    lemma_body_round_trip(m);
}

/// Partial reads: while the buffer holds only a proper prefix of a frame,
/// the decoder asks for more and loses nothing of it.
pub proof fn law_partial_frame_waits(m: MessageView, k: nat)
    requires
        body_bytes(m).len() <= u32::MAX,
        k < frame_bytes(m).len(),
    ensures
        decode_step(None, frame_bytes(m).subrange(0, k as int)).2 is NeedMore,
        k < 4 ==> decode_step(None, frame_bytes(m).subrange(0, k as int)) == (
            None::<usize>,
            frame_bytes(m).subrange(0, k as int),
            Decoded::NeedMore,
        ),
        k >= 4 ==> decode_step(None, frame_bytes(m).subrange(0, k as int)) == (
            Some(body_bytes(m).len() as usize),
            body_bytes(m).subrange(0, k - 4),
            Decoded::NeedMore,
        ),
{
    let body = body_bytes(m);
    let part = frame_bytes(m).subrange(0, k as int);
    if k >= 4 {
        assert(part =~= be32(body.len()) + body.subrange(0, k - 4));
        lemma_be32_round_trip(body.len(), body.subrange(0, k - 4));
        assert(part.skip(4) =~= body.subrange(0, k - 4));
    }
}

} // verus!
