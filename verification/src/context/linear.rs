//! The context with a single window.
use super::base::{BaseContext, BaseContextView};
use crate::conditions::texts;
use crate::dispatcher::request::{Request, RequestView};
use crate::dispatcher::response::ResponseSender;
use crate::dispatcher::ResponseView;
use crate::message::{Message, MessageView};
use crate::state::{State, StateView};
use crate::MiliSec;
use std::sync::Arc;
use vstd::prelude::*;

verus! {

/// A linear context as plain mathematical values.
pub struct LinearView {
    pub base: BaseContextView,
    pub state: StateView,
}

impl LinearView {
    /// The context and the responses after a message.
    pub open spec fn on_message(self, message: MessageView) -> (LinearView, Seq<ResponseView>) {
        let served = self.base.on_message(self.state, message);
        (LinearView { state: served.0, ..self }, served.1)
    }

    /// The context and the responses after `delta` milliseconds.
    pub open spec fn on_timer(self, delta: nat) -> (LinearView, Seq<ResponseView>) {
        let served = self.base.on_timer(self.state, delta);
        (LinearView { state: served.0, ..self }, served.1)
    }

    /// The context and the responses after an event. A request to stop is
    /// none of a context's business.
    pub open spec fn on_event(self, event: RequestView) -> (LinearView, Seq<ResponseView>) {
        match event {
            RequestView::Message(message) => self.on_message(message),
            RequestView::Timer(delta) => self.on_timer(delta),
            RequestView::Exit => (self, Seq::empty()),
        }
    }
}

/// The context with a single window. After the window has closed, the next
/// opening message starts a new one.
pub struct LinearContext {
    base: BaseContext,
    state: State,
}

impl View for LinearContext {
    type V = LinearView;

    closed spec fn view(&self) -> LinearView {
        LinearView { base: self.base@, state: self.state@ }
    }
}

impl LinearContext {
    /// A context whose window is closed and empty.
    pub fn new(base: BaseContext) -> (context: LinearContext)
        ensures
            context@ == (LinearView { base: base@, state: StateView::closed() }),
    {
        LinearContext { base, state: State::new() }
    }

    /// Serves an event.
    pub fn on_event<R: ResponseSender>(&mut self, event: Request, responder: &mut R)
        ensures
            final(self)@ == old(self)@.on_event(event@).0,
            final(responder).sent() == old(responder).sent() + old(self)@.on_event(event@).1,
    {
        match event {
            Request::Message(message) => self.on_message(message, responder),
            Request::Timer(delta) => self.on_timer(delta, responder),
            Request::Exit => {
                proof {
                    assert(responder.sent() + Seq::<ResponseView>::empty() =~= responder.sent());
                }
            },
        }
    }

    /// Serves a tick of `delta` milliseconds.
    pub fn on_timer<R: ResponseSender>(&mut self, delta: MiliSec, responder: &mut R)
        ensures
            final(self)@ == old(self)@.on_timer(delta as nat).0,
            final(responder).sent() == old(responder).sent() + old(self)@.on_timer(delta as nat).1,
    {
        self.base.on_timer(delta, &mut self.state, responder);
    }

    /// Serves a message.
    pub fn on_message<R: ResponseSender>(&mut self, event: Arc<Message>, responder: &mut R)
        ensures
            final(self)@ == old(self)@.on_message(event@).0,
            final(responder).sent() == old(responder).sent() + old(self)@.on_message(event@).1,
    {
        self.base.on_message(event, &mut self.state, responder);
    }

    /// Whether the window is open.
    pub fn is_open(&self) -> (open: bool)
        ensures
            open == self@.state.is_open,
    {
        self.state.is_open()
    }

    /// The patterns of the context's conditions.
    pub fn patterns(&self) -> (patterns: &[String])
        ensures
            texts(patterns@) == self@.base.conditions.patterns,
    {
        self.base.conditions().patterns.as_slice()
    }

    /// The name, the identifier, the conditions and the actions.
    pub fn base(&self) -> (base: &BaseContext)
        ensures
            base@ == self@.base,
    {
        &self.base
    }

    /// The window.
    pub fn state(&self) -> (state: &State)
        ensures
            state@ == self@.state,
    {
        &self.state
    }
}

} // verus!
