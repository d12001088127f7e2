//! The handler of messages.
use crate::context::context_map::{broadcast, ContextMap};
use crate::dispatcher::request::{Request, RequestHandle};
use crate::dispatcher::response::ResponseSender;
use vstd::prelude::*;

verus! {

/// The handler of messages: every context gets each of them.
pub struct MessageEventHandler;

impl MessageEventHandler {
    /// The handler.
    pub fn new() -> MessageEventHandler {
        MessageEventHandler
    }

    /// Serves a message: it goes to every context in turn.
    pub fn handle_event<R: ResponseSender>(
        &mut self,
        event: Request,
        map: &mut ContextMap,
        responder: &mut R,
    )
        ensures
            final(map)@ == broadcast(old(map)@, event@).0,
            final(responder).sent() == old(responder).sent() + broadcast(old(map)@, event@).1,
    {
        map.on_event(event, responder);
    }

    /// The kind of request that this handler serves.
    pub fn handle(&self) -> (handle: RequestHandle)
        ensures
            handle == RequestHandle::Message,
    {
        RequestHandle::Message
    }
}

} // verus!
