use vstd::prelude::*;

verus! {

/// A normalized event: produced from exactly one protocol message event,
/// immutable once produced, delivered at most once to the subscriber.
#[derive(Clone, Debug, PartialEq)]
pub struct MatrixEvent {
    pub room_id: String,
    pub event_id: String,
    pub sender: String,
    /// Origin server timestamp, in whole seconds.
    pub ts: i64,
    /// The plain text of the message, when it carries any.
    pub content: Option<String>,
    /// True exactly when the event could not be decrypted.
    pub is_encrypted: bool,
}

/// The body of a message event, as the host read it after the protocol
/// engine's decryption pass.
#[derive(Clone, Debug, PartialEq)]
pub enum MessageBody {
    Text(String),
    Notice(String),
    Emote(String),
    /// A message type that carries no text to show (an image, a call
    /// event, ...).
    Other,
    /// An encrypted event the engine could not decrypt.
    Undecryptable,
}

/// A message event of one sync response, before normalization.
#[derive(Clone, Debug, PartialEq)]
pub struct RawMessage {
    pub room_id: String,
    pub event_id: String,
    pub sender: String,
    pub ts: i64,
    pub body: MessageBody,
}

/// The text a message body carries: notices and emotes count as text, the
/// rest has none.
pub open spec fn spec_body_text(b: MessageBody) -> Option<String> {
    match b {
        MessageBody::Text(s) => Some(s),
        MessageBody::Notice(s) => Some(s),
        MessageBody::Emote(s) => Some(s),
        MessageBody::Other => None,
        MessageBody::Undecryptable => None,
    }
}

/// The normalized shape of one raw message: identifiers, sender and
/// timestamp carried over; the text kept when there is any; and
/// `is_encrypted` true exactly when the event could not be decrypted.
pub open spec fn spec_normalize(raw: RawMessage) -> MatrixEvent {
    MatrixEvent {
        room_id: raw.room_id,
        event_id: raw.event_id,
        sender: raw.sender,
        ts: raw.ts,
        content: spec_body_text(raw.body),
        is_encrypted: raw.body is Undecryptable,
    }
}

/// Converts one raw protocol message into the stable normalized shape.
pub fn normalize(raw: RawMessage) -> (ev: MatrixEvent)
    ensures
        ev == spec_normalize(raw),
{
    let (content, undecryptable): (Option<String>, bool) = match raw.body {
        MessageBody::Text(s) => (Some(s), false),
        MessageBody::Notice(s) => (Some(s), false),
        MessageBody::Emote(s) => (Some(s), false),
        MessageBody::Other => (None, false),
        MessageBody::Undecryptable => (None, true),
    };
    MatrixEvent {
        room_id: raw.room_id,
        event_id: raw.event_id,
        sender: raw.sender,
        ts: raw.ts,
        content: content,
        is_encrypted: undecryptable,
    }
}

/// One entry of a room's paginated history, newest first as the server
/// pages backward, as the host classified it.
#[derive(Clone, Debug, PartialEq)]
pub enum TimelineItem {
    /// An original (unredacted) room message.
    Message { sender: String, event_id: String, ts: u64, body: MessageBody },
    /// A redacted message, a state event, or another event kind with
    /// nothing to show.
    Other,
    /// An entry that could not be deserialized.
    Unreadable,
}

/// One record of the history handed back to the host, ready to serialize.
#[derive(Clone, Debug, PartialEq)]
pub struct RoomMessage {
    pub sender: String,
    pub body: String,
    pub timestamp: u64,
    pub event_id: String,
}

/// The record one history entry contributes: only plain text messages
/// survive in history; notices, emotes, undecryptable events and
/// non-message entries are dropped.
pub open spec fn spec_text_record(it: TimelineItem) -> Option<RoomMessage> {
    match it {
        TimelineItem::Message { sender, event_id, ts, body } => match body {
            MessageBody::Text(t) => Some(
                RoomMessage { sender: sender, body: t, timestamp: ts, event_id: event_id },
            ),
            _ => None,
        },
        _ => None,
    }
}

/// The text messages of a newest-first history, in chronological order.
pub open spec fn spec_text_messages(items: Seq<TimelineItem>) -> Seq<RoomMessage>
    decreases items.len(),
{
    if items.len() == 0 {
        Seq::empty()
    } else {
        let rest = spec_text_messages(items.skip(1));
        match spec_text_record(items[0]) {
            Some(m) => rest.push(m),
            None => rest,
        }
    }
}

/// Collects the plain text messages of one backward-paginated history
/// chunk — newest first, as the server returns it — into chronological
/// order.
pub fn collect_text_messages(items: &Vec<TimelineItem>) -> (r: Vec<RoomMessage>)
    ensures
        r@ == spec_text_messages(items@),
{
    let mut out: Vec<RoomMessage> = Vec::new();
    let mut i: usize = items.len();
    proof {
        assert(items@.skip(i as int) =~= Seq::<TimelineItem>::empty());
    }
    while i > 0
        invariant
            i <= items.len(),
            out@ == spec_text_messages(items@.skip(i as int)),
        decreases i,
    {
        i = i - 1;
        match &items[i] {
            TimelineItem::Message { sender, event_id, ts, body } => match body {
                MessageBody::Text(t) => {
                    out.push(
                        RoomMessage {
                            sender: sender.clone(),
                            body: t.clone(),
                            timestamp: *ts,
                            event_id: event_id.clone(),
                        },
                    );
                },
                _ => {},
            },
            _ => {},
        }
        proof {
            assert(items@.skip(i as int).skip(1) =~= items@.skip(i as int + 1));
            assert(items@.skip(i as int)[0] == items@[i as int]);
        }
    }
    proof {
        assert(items@.skip(0) =~= items@);
    }
    out
}

} // verus!
