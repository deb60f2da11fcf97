//! Turning the notifications the hub sends into messages: bytes are
//! gathered until a frame is complete, the frame is decoded and read, and
//! the message is routed by its kind.
use crate::connection::framing::{
    lemma_decode_encode, lemma_frame_end_only_at_end, spec_decode, spec_encode, try_decode_message, FRAME_END,
};
use crate::connection::message::parse::is_utf8_text;
use crate::connection::message::{
    ConsoleNotification, DeviceNotification, ProgramFlowNotification, TxMessage,
};
use crate::error::Result;
use vstd::prelude::*;

verus! {

/// Whether the frame that `frame` decodes to can be read as a message
/// without panicking: it decodes, and any text it holds is UTF-8.
pub open spec fn readable(frame: Seq<u8>) -> bool {
    spec_decode(frame) is Some && TxMessage::text_is_valid(spec_decode(frame).unwrap())
}

/// Decodes a frame and reads the message it carries; `None` for a frame
/// that cannot be decoded or holds text that is not UTF-8.
pub fn read_frame(frame: Vec<u8>) -> (r: Option<Result<TxMessage>>)
    ensures
        r is Some <==> readable(frame@),
        r matches Some(res) ==> TxMessage::outcome(spec_decode(frame@).unwrap(), res),
{
    let data = match try_decode_message(frame) {
        Some(data) => data,
        None => return None,
    };
    if data.len() > 0 && (data[0] == 0x19 || data[0] == 0x21) {
        let text = vstd::slice::slice_subrange(data.as_slice(), 1, data.len());
        assert(text@ =~= data@.drop_first());
        if !is_utf8_text(text) {
            return None;
        }
    }
    Some(TxMessage::deserialize(data))
}

/// Where a message received from the hub goes.
#[derive(Debug)]
pub enum Routed {
    /// The frame is not complete yet.
    Incomplete,
    /// The latest device notification.
    DeviceNotification(DeviceNotification),
    /// Console output.
    ConsoleNotification(ConsoleNotification),
    /// A program started or stopped.
    ProgramFlowNotification(ProgramFlowNotification),
    /// Any other message, or the error reading it gave: a reply.
    Message(Result<TxMessage>),
    /// A frame that cannot be decoded or read.
    Unreadable,
}

/// `r` is where the message read from `frame` goes.
pub open spec fn routes(frame: Seq<u8>, r: Routed) -> bool {
    if !readable(frame) {
        r is Unreadable
    } else {
        let data = spec_decode(frame).unwrap();
        match r {
            Routed::DeviceNotification(n) => TxMessage::outcome(
                data,
                Ok(TxMessage::DeviceNotification(n)),
            ),
            Routed::ConsoleNotification(c) => TxMessage::outcome(
                data,
                Ok(TxMessage::ConsoleNotification(c)),
            ),
            Routed::ProgramFlowNotification(p) => TxMessage::outcome(
                data,
                Ok(TxMessage::ProgramFlowNotification(p)),
            ),
            Routed::Message(res) => TxMessage::outcome(data, res) && !(res matches Ok(
                TxMessage::DeviceNotification(_),
            )) && !(res matches Ok(TxMessage::ConsoleNotification(_))) && !(res matches Ok(
                TxMessage::ProgramFlowNotification(_),
            )),
            _ => false,
        }
    }
}

/// Whether `s` ends a frame.
pub open spec fn ends_frame(s: Seq<u8>) -> bool {
    s.len() > 0 && s.last() == FRAME_END
}

/// Routes the message read from a complete frame.
pub fn route_frame(frame: Vec<u8>) -> (r: Routed)
    ensures
        routes(frame@, r),
{
    match read_frame(frame) {
        None => Routed::Unreadable,
        Some(message) => match message {
            Ok(TxMessage::DeviceNotification(r)) => Routed::DeviceNotification(r),
            Ok(TxMessage::ConsoleNotification(r)) => Routed::ConsoleNotification(r),
            Ok(TxMessage::ProgramFlowNotification(r)) => Routed::ProgramFlowNotification(r),
            other => Routed::Message(other),
        },
    }
}

/// Gathers the bytes of notifications until they form a frame.
#[derive(Debug)]
pub struct NotificationFilter {
    buffer: Vec<u8>,
}

impl NotificationFilter {
    /// The bytes gathered that do not form a frame yet.
    pub closed spec fn pending(&self) -> Seq<u8> {
        self.buffer@
    }

    pub fn new() -> (f: Self)
        ensures
            f.pending() == Seq::<u8>::empty(),
    {
        NotificationFilter { buffer: Vec::new() }
    }

    /// Takes the bytes of one notification. Once the gathered bytes end a
    /// frame, the frame is routed and the gathered bytes are dropped.
    pub fn push(&mut self, value: Vec<u8>) -> (r: Routed)
        ensures
            final(self).pending() == feed_step(old(self).pending(), value@).0,
            match feed_step(old(self).pending(), value@).1 {
                Some(frame) => routes(frame, r),
                None => r is Incomplete,
            },
    {
        let mut value = value;
        self.buffer.append(&mut value);
        let n = self.buffer.len();
        if n > 0 && self.buffer[n - 1] == FRAME_END {
            let mut frame = Vec::new();
            std::mem::swap(&mut frame, &mut self.buffer);
            route_frame(frame)
        } else {
            Routed::Incomplete
        }
    }
}

/// The bytes gathered after one notification arrives, and the frame it
/// completes, if it completes one.
pub open spec fn feed_step(pending: Seq<u8>, value: Seq<u8>) -> (Seq<u8>, Option<Seq<u8>>) {
    if ends_frame(pending + value) {
        (seq![], Some(pending + value))
    } else {
        (pending + value, None)
    }
}

pub open spec fn frames_of(frame: Option<Seq<u8>>) -> Seq<Seq<u8>> {
    match frame {
        Some(f) => seq![f],
        None => seq![],
    }
}

/// The frames completed, in order, while `values` arrive one after another
/// on top of the bytes `pending`.
pub open spec fn feed_frames(pending: Seq<u8>, values: Seq<Seq<u8>>) -> Seq<Seq<u8>>
    decreases values.len(),
{
    if values.len() == 0 {
        seq![]
    } else {
        frames_of(feed_step(pending, values[0]).1) + feed_frames(
            feed_step(pending, values[0]).0,
            values.drop_first(),
        )
    }
}

/// The bytes still gathered after `values` arrive on top of `pending`.
pub open spec fn feed_pending(pending: Seq<u8>, values: Seq<Seq<u8>>) -> Seq<u8>
    decreases values.len(),
{
    if values.len() == 0 {
        pending
    } else {
        feed_pending(feed_step(pending, values[0]).0, values.drop_first())
    }
}

proof fn lemma_feed_append(pending: Seq<u8>, a: Seq<Seq<u8>>, b: Seq<Seq<u8>>)
    ensures
        feed_frames(pending, a + b) == feed_frames(pending, a) + feed_frames(
            feed_pending(pending, a),
            b,
        ),
        feed_pending(pending, a + b) == feed_pending(feed_pending(pending, a), b),
    decreases a.len(),
{
    if a.len() == 0 {
        assert(a + b =~= b);
        assert(feed_frames(pending, a) + feed_frames(pending, b) =~= feed_frames(pending, b));
    } else {
        let next = feed_step(pending, a[0]).0;
        assert((a + b)[0] == a[0]);
        assert((a + b).drop_first() =~= a.drop_first() + b);
        lemma_feed_append(next, a.drop_first(), b);
        assert(frames_of(feed_step(pending, a[0]).1) + (feed_frames(next, a.drop_first())
            + feed_frames(feed_pending(next, a.drop_first()), b)) =~= (frames_of(
            feed_step(pending, a[0]).1,
        ) + feed_frames(next, a.drop_first())) + feed_frames(
            feed_pending(next, a.drop_first()),
            b,
        ));
    }
}

proof fn lemma_flatten_empty(values: Seq<Seq<u8>>)
    requires
        values.flatten().len() == 0,
    ensures
        feed_frames(seq![], values) == Seq::<Seq<u8>>::empty(),
        feed_pending(seq![], values) == Seq::<u8>::empty(),
    decreases values.len(),
{
    if values.len() > 0 {
        assert(values.flatten() == values[0] + values.drop_first().flatten());
        assert(Seq::<u8>::empty() + values[0] =~= values[0]);
        lemma_flatten_empty(values.drop_first());
        assert(feed_frames(seq![], values) =~= Seq::<Seq<u8>>::empty() + feed_frames(
            seq![],
            values.drop_first(),
        ));
    }
}

proof fn lemma_feed_one_frame(pending: Seq<u8>, pieces: Seq<Seq<u8>>, data: Seq<u8>)
    requires
        pending.len() < spec_encode(data).len(),
        pending + pieces.flatten() == spec_encode(data),
    ensures
        feed_frames(pending, pieces) == seq![spec_encode(data)],
        feed_pending(pending, pieces) == Seq::<u8>::empty(),
    decreases pieces.len(),
{
    let frame = spec_encode(data);
    if pieces.len() == 0 {
        assert(pending + pieces.flatten() =~= pending);
    } else {
        let v = pieces[0];
        let rest = pieces.drop_first();
        assert(pieces.flatten() == v + rest.flatten());
        let joined = pending + v;
        assert(joined + rest.flatten() =~= frame);
        if joined.len() < frame.len() {
            assert(frame.take(joined.len() as int) =~= joined);
            lemma_frame_prefix_incomplete(data, joined.len() as int);
            lemma_feed_one_frame(joined, rest, data);
            assert(feed_frames(pending, pieces) =~= Seq::<Seq<u8>>::empty() + feed_frames(
                joined,
                rest,
            ));
        } else {
            assert(joined =~= frame);
            lemma_frame_prefix_incomplete(data, 0);
            lemma_flatten_empty(rest);
            assert(feed_frames(pending, pieces) =~= seq![frame] + feed_frames(seq![], rest));
        }
    }
}

/// Messages sent back to back, each in notifications that stay within its
/// frame, come out of the notification filter as exactly their frames, in
/// the order they were sent, each decoding to its message, and nothing is
/// left gathered. Each of those frames is routed by `push` as `routes`
/// says.
pub proof fn lemma_feed_messages(messages: Seq<Seq<u8>>, pieces: Seq<Seq<Seq<u8>>>)
    requires
        pieces.len() == messages.len(),
        forall|i: int| 0 <= i < messages.len() ==> #[trigger] pieces[i].flatten() == spec_encode(
            messages[i],
        ),
    ensures
        feed_frames(seq![], pieces.flatten()) == messages.map_values(
            |m: Seq<u8>| spec_encode(m),
        ),
        feed_pending(seq![], pieces.flatten()) == Seq::<u8>::empty(),
        forall|i: int|
            0 <= i < messages.len() ==> spec_decode(
                #[trigger] feed_frames(seq![], pieces.flatten())[i],
            ) == Some(messages[i]),
    decreases messages.len(),
{
    if messages.len() == 0 {
        assert(messages.map_values(|m: Seq<u8>| spec_encode(m)) =~= Seq::<Seq<u8>>::empty());
    } else {
        let first = pieces[0];
        let rest = pieces.drop_first();
        assert(pieces.flatten() == first + rest.flatten());
        lemma_frame_end_only_at_end(messages[0]);
        assert(Seq::<u8>::empty() + first.flatten() =~= first.flatten());
        lemma_feed_one_frame(seq![], first, messages[0]);
        assert forall|i: int| 0 <= i < messages.drop_first().len() implies #[trigger] rest[i].flatten()
            == spec_encode(messages.drop_first()[i]) by {
            assert(rest[i] == pieces[i + 1]);
        }
        lemma_feed_messages(messages.drop_first(), rest);
        lemma_feed_append(seq![], first, rest.flatten());
        assert(messages.map_values(|m: Seq<u8>| spec_encode(m)) =~= seq![spec_encode(messages[0])]
            + messages.drop_first().map_values(|m: Seq<u8>| spec_encode(m)));
        let frames = feed_frames(seq![], pieces.flatten());
        assert forall|i: int| 0 <= i < messages.len() implies spec_decode(#[trigger] frames[i])
            == Some(messages[i]) by {
            lemma_decode_encode(messages[i]);
        }
    }
}

/// No part of a frame short of all of it ends a frame, so the bytes of a
/// frame, however they are cut into notifications, are routed only when
/// the last of them arrives, and then as the message the frame carries.
pub proof fn lemma_frame_prefix_incomplete(data: Seq<u8>, k: int)
    requires
        0 <= k < spec_encode(data).len(),
    ensures
        !ends_frame(spec_encode(data).take(k)),
        ends_frame(spec_encode(data)),
        spec_decode(spec_encode(data)) == Some(data),
{
    lemma_frame_end_only_at_end(data);
    lemma_decode_encode(data);
    if k > 0 {
        assert(spec_encode(data).take(k).last() == spec_encode(data)[k - 1]);
    }
}

} // verus!
