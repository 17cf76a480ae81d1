//! The per-instance message registry: a mapping from an integer context
//! handle to the in-flight message and the response buffer the guest may
//! populate. A handle exists in the map only between "message fed" and
//! "verdict harvested"; insertion and removal are paired within a single
//! facade call.

use std::collections::HashMap;
use vstd::prelude::*;

use crate::message::MessageContext;
use crate::message::MessageEnvelope;
use crate::message::copy_bytes;

verus! {

/// Mapping from context handle to the in-flight message and its response
/// slot. Each execution instance exclusively owns one registry; nothing is
/// shared across instances.
pub struct MessageRegistry {
    entries: HashMap<u32, MessageContext>,
}

impl View for MessageRegistry {
    type V = Map<u32, MessageContext>;

    closed spec fn view(&self) -> Map<u32, MessageContext> {
        self.entries@
    }
}

impl MessageRegistry {
    /// An empty registry: no message is in flight.
    pub fn new() -> (r: MessageRegistry)
        ensures
            r@ == Map::<u32, MessageContext>::empty(),
    {
        MessageRegistry { entries: HashMap::new() }
    }

    /// Registers a message under a handle, with an empty response slot.
    /// A message already held under that handle is replaced.
    pub fn add_message(&mut self, handle: u32, message: MessageEnvelope)
        ensures
            final(self)@ == old(self)@.insert(
                handle,
                (MessageContext { message: message, response: None }),
            ),
    {
        self.entries.insert(handle, MessageContext::new(message));
    }

    /// Removes and returns the context held under a handle, if any.
    pub fn remove_message(&mut self, handle: u32) -> (r: Option<MessageContext>)
        ensures
            final(self)@ == old(self)@.remove(handle),
            match r {
                Some(c) => old(self)@.contains_key(handle) && c == old(self)@[handle],
                None => !old(self)@.contains_key(handle),
            },
    {
        self.entries.remove(&handle)
    }

    /// Stores bytes as the response slot of the message under a handle,
    /// overwriting any earlier response (last write wins). Without a message
    /// under that handle this changes nothing.
    pub fn save_response(&mut self, handle: u32, data: Vec<u8>)
        ensures
            old(self)@.contains_key(handle) ==> final(self)@ == old(self)@.insert(
                handle,
                (MessageContext { message: old(self)@[handle].message, response: Some(data) }),
            ),
            !old(self)@.contains_key(handle) ==> final(self)@ == old(self)@,
    {
        match self.entries.remove(&handle) {
            Some(ctx) => {
                let updated = MessageContext { message: ctx.message, response: Some(data) };
                self.entries.insert(handle, updated);
                proof {
                    assert(self.entries@ =~= old(self)@.insert(
                        handle,
                        (MessageContext {
                            message: old(self)@[handle].message,
                            response: Some(data),
                        }),
                    ));
                }
            },
            None => {
                proof {
                    assert(self.entries@ =~= old(self)@);
                }
            },
        }
    }

    /// A copy of the payload of the message under a handle, if one is
    /// registered: what every payload accessor writes into guest memory.
    pub fn payload_for(&self, handle: u32) -> (r: Option<Vec<u8>>)
        ensures
            match r {
                Some(p) => self@.contains_key(handle) && p@ == self@[handle].message.payload@,
                None => !self@.contains_key(handle),
            },
    {
        match self.entries.get(&handle) {
            Some(ctx) => Some(copy_bytes(&ctx.message.payload)),
            None => None,
        }
    }
}

/// What one message context amounts to in contracts: the payload bytes and
/// the response bytes, if any.
pub open spec fn context_view(context: MessageContext) -> (Seq<u8>, Option<Seq<u8>>) {
    (
        context.message.payload@,
        match context.response {
            Some(b) => Some(b@),
            None => None,
        },
    )
}

/// What a registry map amounts to in contracts: each held context reduced to
/// its payload and response bytes.
pub open spec fn registry_view(m: Map<u32, MessageContext>) -> Map<u32, (Seq<u8>, Option<Seq<u8>>)> {
    Map::new(|h: u32| m.dom().contains(h), |h: u32| context_view(m[h]))
}

/// Inserting a context and then abstracting is abstracting and then
/// inserting the context's view.
pub proof fn lemma_registry_view_insert(m: Map<u32, MessageContext>, h: u32, c: MessageContext)
    ensures
        registry_view(m.insert(h, c)) == registry_view(m).insert(h, context_view(c)),
{
    assert(registry_view(m.insert(h, c)) =~= registry_view(m).insert(h, context_view(c)));
}

/// Removing a handle and then abstracting is abstracting and then removing
/// the handle.
pub proof fn lemma_registry_view_remove(m: Map<u32, MessageContext>, h: u32)
    ensures
        registry_view(m.remove(h)) == registry_view(m).remove(h),
{
    assert(registry_view(m.remove(h)) =~= registry_view(m).remove(h));
}

/// The abstraction of an empty registry is empty.
pub proof fn lemma_registry_view_empty()
    ensures
        registry_view(Map::<u32, MessageContext>::empty()) == Map::<
            u32,
            (Seq<u8>, Option<Seq<u8>>),
        >::empty(),
{
    assert(registry_view(Map::<u32, MessageContext>::empty()) =~= Map::<
        u32,
        (Seq<u8>, Option<Seq<u8>>),
    >::empty());
}

/// Everything one execution instance stores inside its sandbox engine: the
/// registry shared between the facade and the linked host functions within
/// one call.
pub struct HostState {
    pub registry: MessageRegistry,
}

impl HostState {
    /// A fresh state with an empty registry.
    pub fn new() -> (s: HostState)
        ensures
            s.registry@ == Map::<u32, MessageContext>::empty(),
    {
        HostState { registry: MessageRegistry::new() }
    }
}

} // verus!
