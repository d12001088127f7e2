//! Requests: the unit of work that comes into the engine.
use crate::message::{Message, MessageView};
use crate::state::share;
use crate::MiliSec;
use std::sync::Arc;
use vstd::prelude::*;

verus! {

/// A request as plain mathematical values.
pub enum RequestView {
    Message(MessageView),
    Timer(nat),
    Exit,
}

/// What comes into the engine.
#[derive(Debug)]
pub enum Request {
    /// A message of the stream.
    Message(Arc<Message>),
    /// The milliseconds that have passed since the previous tick.
    Timer(MiliSec),
    /// A request to stop.
    Exit,
}

impl View for Request {
    type V = RequestView;

    open spec fn view(&self) -> RequestView {
        match self {
            Request::Message(message) => RequestView::Message(message@),
            Request::Timer(delta) => RequestView::Timer(*delta as nat),
            Request::Exit => RequestView::Exit,
        }
    }
}

/// The kinds of requests, by which their handlers are found.
#[derive(Debug, Clone, Copy, PartialEq, Eq, Hash, Structural)]
pub enum RequestHandle {
    Message,
    Timer,
    Exit,
}

impl RequestView {
    /// The kind of the request.
    pub open spec fn handle(self) -> RequestHandle {
        match self {
            RequestView::Message(_) => RequestHandle::Message,
            RequestView::Timer(_) => RequestHandle::Timer,
            RequestView::Exit => RequestHandle::Exit,
        }
    }
}

impl Request {
    /// The kind of the request.
    pub fn handle(&self) -> (handle: RequestHandle)
        ensures
            handle == self@.handle(),
    {
        match self {
            Request::Message(_) => RequestHandle::Message,
            Request::Timer(_) => RequestHandle::Timer,
            Request::Exit => RequestHandle::Exit,
        }
    }

    /// A copy of this request. A copied message request shares the message.
    pub fn duplicate(&self) -> (copy: Request)
        ensures
            copy == *self,
    {
        match self {
            Request::Message(message) => Request::Message(share(message)),
            Request::Timer(delta) => Request::Timer(*delta),
            Request::Exit => Request::Exit,
        }
    }
}

} // verus!
