//! The handler of requests to stop.
use crate::dispatcher::request::{Request, RequestHandle};
use crate::dispatcher::response::ResponseSender;
use crate::dispatcher::{Response, ResponseView};
use vstd::prelude::*;

verus! {

/// How far the engine is on its way to stopping. It stops at the second
/// request: the first comes from whoever wants it to stop, the second
/// confirms that the first has been answered.
#[derive(Debug, Clone, Copy, PartialEq, Eq, Structural)]
pub enum ExitState {
    /// No request to stop has come.
    Running,
    /// One request to stop has come.
    ExitRequested,
    /// The second request to stop has come: the engine serves nothing more.
    Confirmed,
}

impl ExitState {
    /// The number of requests to stop that have been counted: no more than
    /// the two that it takes.
    pub open spec fn stops(self) -> nat {
        match self {
            ExitState::Running => 0,
            ExitState::ExitRequested => 1,
            ExitState::Confirmed => 2,
        }
    }

    /// The state after one more request to stop.
    pub open spec fn next(self) -> ExitState {
        match self {
            ExitState::Running => ExitState::ExitRequested,
            ExitState::ExitRequested => ExitState::Confirmed,
            ExitState::Confirmed => ExitState::Confirmed,
        }
    }

    /// Whether the engine serves nothing more.
    pub open spec fn is_active(self) -> bool {
        self == ExitState::Confirmed
    }
}

/// The handler of requests to stop. It answers each with a response and
/// counts them.
pub struct ExitEventHandler {
    state: ExitState,
}

impl View for ExitEventHandler {
    type V = ExitState;

    closed spec fn view(&self) -> ExitState {
        self.state
    }
}

impl ExitEventHandler {
    /// A handler to which no request to stop has come.
    pub fn new() -> (handler: ExitEventHandler)
        ensures
            handler@ == ExitState::Running,
    {
        ExitEventHandler { state: ExitState::Running }
    }

    /// Serves a request to stop: it is answered, and counted.
    pub fn handle_event<R: ResponseSender>(&mut self, event: Request, responder: &mut R)
        requires
            event@ is Exit,
        ensures
            final(self)@ == old(self)@.next(),
            final(responder).sent() == old(responder).sent().push(ResponseView::Exit),
    {
        responder.send_response(Response::Exit);
        self.state =
        match self.state {
            ExitState::Running => ExitState::ExitRequested,
            ExitState::ExitRequested => ExitState::Confirmed,
            ExitState::Confirmed => ExitState::Confirmed,
        };
    }

    /// The kind of request that this handler serves.
    pub fn handle(&self) -> (handle: RequestHandle)
        ensures
            handle == RequestHandle::Exit,
    {
        RequestHandle::Exit
    }

    /// How far the engine is on its way to stopping.
    pub fn state(&self) -> (state: ExitState)
        ensures
            state == self@,
    {
        self.state
    }

    /// Whether the engine serves nothing more.
    pub fn is_active(&self) -> (active: bool)
        ensures
            active == self@.is_active(),
    {
        match self.state {
            ExitState::Confirmed => true,
            _ => false,
        }
    }
}

} // verus!
