//! The reactor: it serves one request after the other, each through the
//! handler that is registered for its kind.
use super::handlers::exit::{ExitEventHandler, ExitState};
use super::handlers::message::MessageEventHandler;
use super::handlers::timer::TimerEventHandler;
use super::request::{Request, RequestHandle, RequestView};
use super::response::{MockResponseSender, ResponseSender};
use super::{Response, ResponseView};
use crate::context::context_map::{broadcast, ContextMap};
use crate::context::ContextView;
use vstd::prelude::*;

verus! {

/// A handler of requests of one kind.
pub enum RequestHandler {
    Exit(ExitEventHandler),
    Timer(TimerEventHandler),
    Message(MessageEventHandler),
}

impl RequestHandler {
    /// The kind of request that the handler serves.
    pub open spec fn spec_handle(&self) -> RequestHandle {
        match self {
            RequestHandler::Exit(_) => RequestHandle::Exit,
            RequestHandler::Timer(_) => RequestHandle::Timer,
            RequestHandler::Message(_) => RequestHandle::Message,
        }
    }

    /// The kind of request that the handler serves.
    pub fn handle(&self) -> (handle: RequestHandle)
        ensures
            handle == self.spec_handle(),
    {
        match self {
            RequestHandler::Exit(handler) => handler.handle(),
            RequestHandler::Timer(handler) => handler.handle(),
            RequestHandler::Message(handler) => handler.handle(),
        }
    }
}

/// A reactor as plain mathematical values: the contexts, which kinds of
/// requests have a handler, how far the handler of requests to stop has
/// counted, and the responses that have left.
pub struct ReactorView {
    pub contexts: Seq<ContextView>,
    pub exit: Option<ExitState>,
    pub timer: bool,
    pub message: bool,
    pub sent: Seq<ResponseView>,
}

impl ReactorView {
    /// Whether requests of the given kind have a handler.
    pub open spec fn handles(self, handle: RequestHandle) -> bool {
        match handle {
            RequestHandle::Exit => self.exit is Some,
            RequestHandle::Timer => self.timer,
            RequestHandle::Message => self.message,
        }
    }

    /// Whether the reactor serves nothing more: the second request to stop
    /// has been counted.
    pub open spec fn is_stopped(self) -> bool {
        self.exit matches Some(state) && state.is_active()
    }

    /// The reactor after one request. A request whose kind has no handler
    /// changes nothing. A message or a tick goes to every context in turn. A
    /// request to stop is answered and counted.
    pub open spec fn on_request(self, event: RequestView) -> ReactorView {
        if !self.handles(event.handle()) {
            self
        } else {
            match event {
                RequestView::Exit => ReactorView {
                    exit: Some(self.exit->0.next()),
                    sent: self.sent.push(ResponseView::Exit),
                    ..self
                },
                _ => ReactorView {
                    contexts: broadcast(self.contexts, event).0,
                    sent: self.sent + broadcast(self.contexts, event).1,
                    ..self
                },
            }
        }
    }

    /// The reactor after it has been given `requests`: it serves them in
    /// order, up to the one at which it stops.
    pub open spec fn run(self, requests: Seq<RequestView>) -> ReactorView
        decreases requests.len(),
    {
        if requests.len() == 0 || self.is_stopped() {
            self
        } else {
            self.on_request(requests.first()).run(requests.drop_first())
        }
    }

    /// The number of requests of `requests` that the reactor serves.
    pub open spec fn served(self, requests: Seq<RequestView>) -> nat
        decreases requests.len(),
    {
        if requests.len() == 0 || self.is_stopped() {
            0
        } else {
            1 + self.on_request(requests.first()).served(requests.drop_first())
        }
    }
}

/// The requests behind a list of requests.
pub open spec fn request_views(requests: Seq<Request>) -> Seq<RequestView> {
    requests.map_values(|request: Request| request@)
}

/// The reactor. It owns the contexts and the way out for their responses,
/// and nothing else touches them.
pub struct RequestReactor<R: ResponseSender> {
    exit_handler: Option<ExitEventHandler>,
    timer_handler: Option<TimerEventHandler>,
    message_handler: Option<MessageEventHandler>,
    pub context_map: ContextMap,
    responder: R,
}

impl<R: ResponseSender> View for RequestReactor<R> {
    type V = ReactorView;

    closed spec fn view(&self) -> ReactorView {
        ReactorView {
            contexts: self.context_map@,
            exit: match self.exit_handler {
                Some(handler) => Some(handler@),
                None => None,
            },
            timer: self.timer_handler is Some,
            message: self.message_handler is Some,
            sent: self.responder.sent(),
        }
    }
}

impl<R: ResponseSender> RequestReactor<R> {
    /// A reactor over the given contexts, without handlers.
    pub fn new(context_map: ContextMap, responder: R) -> (reactor: RequestReactor<R>)
        ensures
            reactor@ == (ReactorView {
                contexts: context_map@,
                exit: None,
                timer: false,
                message: false,
                sent: responder.sent(),
            }),
    {
        RequestReactor {
            exit_handler: None,
            timer_handler: None,
            message_handler: None,
            context_map: context_map,
            responder: responder,
        }
    }

    /// Registers a handler for the kind of request that it serves, in place
    /// of an earlier one.
    pub fn register_handler(&mut self, handler: RequestHandler)
        ensures
            final(self)@ == match handler {
                RequestHandler::Exit(exit) => ReactorView { exit: Some(exit@), ..old(self)@ },
                RequestHandler::Timer(_) => ReactorView { timer: true, ..old(self)@ },
                RequestHandler::Message(_) => ReactorView { message: true, ..old(self)@ },
            },
    {
        match handler {
            RequestHandler::Exit(exit) => {
                self.exit_handler = Some(exit);
            },
            RequestHandler::Timer(timer) => {
                self.timer_handler = Some(timer);
            },
            RequestHandler::Message(message) => {
                self.message_handler = Some(message);
            },
        }
    }

    /// Takes away the handler of the given kind of request.
    pub fn remove_handler_by_handle(&mut self, handler: &RequestHandle)
        ensures
            final(self)@ == match *handler {
                RequestHandle::Exit => ReactorView { exit: None, ..old(self)@ },
                RequestHandle::Timer => ReactorView { timer: false, ..old(self)@ },
                RequestHandle::Message => ReactorView { message: false, ..old(self)@ },
            },
    {
        match handler {
            RequestHandle::Exit => {
                self.exit_handler = None;
            },
            RequestHandle::Timer => {
                self.timer_handler = None;
            },
            RequestHandle::Message => {
                self.message_handler = None;
            },
        }
    }

    /// Whether the reactor serves nothing more.
    pub fn is_stopped(&self) -> (stopped: bool)
        ensures
            stopped == self@.is_stopped(),
    {
        match &self.exit_handler {
            Some(handler) => handler.is_active(),
            None => false,
        }
    }

    /// Serves one request through the handler of its kind. A request whose
    /// kind has no handler is dropped.
    pub fn handle_event(&mut self, request: Request)
        ensures
            final(self)@ == old(self)@.on_request(request@),
    {
        match request.handle() {
            RequestHandle::Exit => {
                match &mut self.exit_handler {
                    Some(handler) => handler.handle_event(request, &mut self.responder),
                    None => {},
                }
            },
            RequestHandle::Timer => {
                match &mut self.timer_handler {
                    Some(handler) => handler.handle_event(
                        request,
                        &mut self.context_map,
                        &mut self.responder,
                    ),
                    None => {},
                }
            },
            RequestHandle::Message => {
                match &mut self.message_handler {
                    Some(handler) => handler.handle_event(
                        request,
                        &mut self.context_map,
                        &mut self.responder,
                    ),
                    None => {},
                }
            },
        }
    }

    /// Serves the given requests in order, up to the one at which the
    /// reactor stops, and says how many it has served. The others are
    /// dropped.
    pub fn handle_events(&mut self, requests: Vec<Request>) -> (served: usize)
        ensures
            final(self)@ == old(self)@.run(request_views(requests@)),
            served == old(self)@.served(request_views(requests@)),
    {
        let ghost all = request_views(requests@);
        let mut i: usize = 0;
        proof {
            assert(all.skip(0) =~= all);
        }
        while i < requests.len() && !self.is_stopped()
            invariant
                i <= requests.len(),
                all == request_views(requests@),
                self@.run(all.skip(i as int)) == old(self)@.run(all),
                i + self@.served(all.skip(i as int)) == old(self)@.served(all),
            decreases requests.len() - i,
        {
            proof {
                assert(all.skip(i as int).drop_first() =~= all.skip(i + 1));
                assert(all.skip(i as int).first() == requests@[i as int]@);
            }
            self.handle_event(requests[i].duplicate());
            i = i + 1;
        }
        i
    }

    /// How far the handler of requests to stop has counted, if there is one.
    pub fn exit_state(&self) -> (state: Option<ExitState>)
        ensures
            state == self@.exit,
    {
        match &self.exit_handler {
            Some(handler) => Some(handler.state()),
            None => None,
        }
    }

    /// The way out for the responses.
    pub fn responder(&self) -> (responder: &R)
        ensures
            responder.sent() == self@.sent,
    {
        &self.responder
    }

    /// Hands back the way out and the contexts.
    pub fn into_parts(self) -> (parts: (ContextMap, R))
        ensures
            parts.0@ == self@.contexts,
            parts.1.sent() == self@.sent,
    {
        (self.context_map, self.responder)
    }
}

impl RequestReactor<MockResponseSender> {
    /// Takes the responses that the sender has kept, oldest first, and
    /// leaves it with none.
    pub fn take_responses(&mut self) -> (responses: Vec<Response>)
        ensures
            super::response_views(responses@) == old(self)@.sent,
            final(self)@ == (ReactorView { sent: Seq::empty(), ..old(self)@ }),
    {
        self.responder.take()
    }
}

} // verus!
