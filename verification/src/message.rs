//! The unit of work the host feeds to a guest: an immutable byte payload with
//! the message's identity and metadata, plus the per-message context the
//! registry keeps while the guest runs.

use vstd::prelude::*;

verus! {

/// When the message was produced, as the broker recorded it.
#[derive(Clone, Copy, Debug, PartialEq, Eq, Structural)]
pub enum Timestamp {
    NotAvailable,
    CreateTime(i64),
    LogAppendTime(i64),
}

/// One streamed message: an immutable byte payload, an optional key, a
/// topic/partition/offset identity, a timestamp, and optional headers. Owned
/// by the registry for the duration of one call; never mutated, only read.
pub struct MessageEnvelope {
    pub payload: Vec<u8>,
    pub key: Option<Vec<u8>>,
    pub topic: String,
    pub timestamp: Timestamp,
    pub partition: i32,
    pub offset: i64,
    pub headers: Option<Vec<(String, Option<Vec<u8>>)>>,
}

impl MessageEnvelope {
    /// Bundles the parts of one streamed message into an envelope.
    pub fn new(
        payload: Vec<u8>,
        key: Option<Vec<u8>>,
        topic: String,
        timestamp: Timestamp,
        partition: i32,
        offset: i64,
        headers: Option<Vec<(String, Option<Vec<u8>>)>>,
    ) -> (m: MessageEnvelope)
        ensures
            m.payload == payload,
            m.key == key,
            m.topic == topic,
            m.timestamp == timestamp,
            m.partition == partition,
            m.offset == offset,
            m.headers == headers,
    {
        MessageEnvelope { payload, key, topic, timestamp, partition, offset, headers }
    }
}

/// One in-flight message paired with the response slot the guest may
/// populate: an optional byte buffer, initially absent, writable by the
/// output-setter host function (last write wins), and read once by the
/// facade after the verdict is known.
pub struct MessageContext {
    pub message: MessageEnvelope,
    pub response: Option<Vec<u8>>,
}

impl MessageContext {
    /// Wraps a freshly registered message; its response slot starts empty.
    pub fn new(message: MessageEnvelope) -> (c: MessageContext)
        ensures
            c.message == message,
            c.response is None,
    {
        MessageContext { message, response: None }
    }
}

/// Byte-for-byte copy of a buffer.
pub fn copy_bytes(src: &Vec<u8>) -> (r: Vec<u8>)
    ensures
        r@ == src@,
{
    let mut out: Vec<u8> = Vec::new();
    let mut i: usize = 0;
    while i < src.len()
        invariant
            i <= src@.len(),
            out@ == src@.subrange(0, i as int),
        decreases src@.len() - i,
    {
        out.push(src[i]);
        i = i + 1;
    }
    proof {
        assert(out@ =~= src@);
    }
    out
}

} // verus!
