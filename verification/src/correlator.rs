//! The facade of the engine: it takes messages and ticks, gives the alerts
//! that leave the reactor to the registered handler, and stops the reactor
//! in two phases.
//!
//! Everything here happens in the caller's thread, one request after the
//! other. Whoever runs the reactor in a thread of its own serves the same
//! requests in the same order, and gets the same responses.
use crate::action::{Alert, AlertView};
use crate::config::{Context as ContextConfig, ContextConfigView};
use crate::context::context_map::ContextMap;
use crate::context::{configured, Context, ContextView};
use crate::dispatcher::handlers::exit::{ExitEventHandler, ExitState};
use crate::dispatcher::handlers::message::MessageEventHandler;
use crate::dispatcher::handlers::timer::TimerEventHandler;
use crate::dispatcher::reactor::{ReactorView, RequestHandler, RequestReactor};
use crate::dispatcher::request::{Request, RequestView};
use crate::dispatcher::response::MockResponseSender;
use crate::dispatcher::{Response, ResponseHandle, ResponseView};
use crate::message::Message;
use crate::MiliSec;
use std::sync::Arc;
use vstd::prelude::*;

verus! {

/// The milliseconds between two ticks of the timer.
pub const TIMER_STEP: MiliSec = 100;

/// Receives the alerts that leave the engine.
pub trait AlertHandler {
    /// The alerts received so far, oldest first. A verified handler says
    /// here what it has received. The default is for a handler outside
    /// verified code, of which nothing is proved.
    open spec fn handled(&self) -> Seq<AlertView> {
        Seq::empty()
    }

    /// Receives one alert.
    fn on_alert(&mut self, alert: Alert)
        ensures
            final(self).handled() == old(self).handled().push(alert@),
    ;
}

/// The contexts that a list of definitions stands for, before any event.
pub open spec fn configured_all(configs: Seq<ContextConfigView>) -> Seq<ContextView> {
    configs.map_values(|config: ContextConfigView| configured(config))
}

/// The definitions behind a list of definitions.
pub open spec fn config_views(configs: Seq<ContextConfig>) -> Seq<ContextConfigView> {
    configs.map_values(|config: ContextConfig| config@)
}

/// The context that a definition stands for, before any event.
pub fn create_context(config_context: ContextConfig) -> (context: Context)
    ensures
        context@ == configured(config_context@),
{
    Context::from(config_context)
}

/// The registry of the contexts that the definitions stand for, in the
/// order of the definitions.
pub fn create_contexts(contexts: Vec<ContextConfig>) -> (map: ContextMap)
    ensures
        map@ == configured_all(config_views(contexts@)),
{
    let mut map = ContextMap::new();
    let ghost all = contexts@;
    for config in iter: contexts
        invariant
            iter.seq() == all,
            map@ == configured_all(config_views(all.take(iter.index() as int))),
    {
        proof {
            let done = iter.index() as int;
            assert(configured_all(config_views(all.take(done + 1))) =~= configured_all(
                config_views(all.take(done)),
            ).push(configured(all[done]@)));
        }
        map.insert(create_context(config));
    }
    proof {
        assert(all.take(all.len() as int) =~= all);
    }
    map
}

/// The alerts among a list of responses, in their order.
pub open spec fn alerts_of(responses: Seq<ResponseView>) -> Seq<AlertView>
    decreases responses.len(),
{
    if responses.len() == 0 {
        Seq::empty()
    } else {
        match responses.last() {
            ResponseView::Alert(alert) => alerts_of(responses.drop_last()).push(alert),
            ResponseView::Exit => alerts_of(responses.drop_last()),
        }
    }
}

/// What a registry of handlers makes of one response: an alert goes to the
/// handler of alerts, where there is one; anything else changes nothing.
pub open spec fn handed_on(handled: Option<Seq<AlertView>>, response: ResponseView) -> Option<
    Seq<AlertView>,
> {
    match (handled, response) {
        (Some(alerts), ResponseView::Alert(alert)) => Some(alerts.push(alert)),
        _ => handled,
    }
}

/// The handlers of the responses that leave the engine, by the kind of
/// response. Its view is what the handler of alerts has received, where one
/// is registered.
pub struct ResponseHandlers<H: AlertHandler> {
    alert: Option<H>,
}

impl<H: AlertHandler> View for ResponseHandlers<H> {
    type V = Option<Seq<AlertView>>;

    closed spec fn view(&self) -> Option<Seq<AlertView>> {
        match self.alert {
            Some(handler) => Some(handler.handled()),
            None => None,
        }
    }
}

impl<H: AlertHandler> ResponseHandlers<H> {
    /// A registry without handlers.
    pub fn new() -> (handlers: ResponseHandlers<H>)
        ensures
            handlers@ is None,
    {
        ResponseHandlers { alert: None }
    }

    /// Registers the handler of alerts, in place of an earlier one.
    pub fn register_handler(&mut self, handler: H)
        ensures
            final(self)@ == Some(handler.handled()),
    {
        self.alert = Some(handler);
    }

    /// Hands one response on to the handler of its kind, and says whether
    /// there was one. A response without a handler is dropped.
    pub fn handle_event(&mut self, event: Response) -> (taken: bool)
        ensures
            final(self)@ == handed_on(old(self)@, event@),
            taken == (event@.handle() == ResponseHandle::Alert && old(self)@ is Some),
    {
        match event {
            Response::Alert(alert) => {
                match &mut self.alert {
                    Some(handler) => {
                        handler.on_alert(alert);
                        true
                    },
                    None => false,
                }
            },
            Response::Exit => false,
        }
    }

    /// Hands the handler of alerts back, if one is registered.
    pub fn into_alert_handler(self) -> (handler: Option<H>)
        ensures
            match handler {
                Some(handler) => self@ == Some(handler.handled()),
                None => self@ is None,
            },
    {
        self.alert
    }
}

/// A correlator as plain mathematical values: its reactor, whose responses
/// are those that wait to be handed on, and the alerts that the registered
/// handler has received, where one is registered.
pub struct CorrelatorView {
    pub reactor: ReactorView,
    pub handled: Option<Seq<AlertView>>,
}

impl CorrelatorView {
    /// The correlator after the waiting responses have been handed on: the
    /// alerts among them have gone to the handler, or nowhere if there is no
    /// handler, and nothing waits.
    pub open spec fn consumed(self) -> CorrelatorView {
        CorrelatorView {
            reactor: ReactorView { sent: Seq::empty(), ..self.reactor },
            handled: match self.handled {
                Some(handled) => Some(handled + alerts_of(self.reactor.sent)),
                None => None,
            },
        }
    }

    /// The correlator after a request: the waiting responses are handed on,
    /// then the reactor serves the request.
    pub open spec fn pushed(self, request: RequestView) -> CorrelatorView {
        CorrelatorView {
            reactor: self.consumed().reactor.on_request(request),
            handled: self.consumed().handled,
        }
    }

    /// The correlator after it has been stopped: a first request to stop,
    /// a second one once the first has been answered, and at the end nothing
    /// waits.
    pub open spec fn stopped(self) -> CorrelatorView {
        self.pushed(RequestView::Exit).pushed(RequestView::Exit).consumed()
    }
}

/// Two requests to stop are enough: a correlator whose reactor has a handler
/// of requests to stop serves nothing more once it has been stopped, however
/// far that handler had counted before.
pub proof fn lemma_stopped_is_stopped(correlator: CorrelatorView)
    requires
        correlator.reactor.exit is Some,
    ensures
        correlator.stopped().reactor.is_stopped(),
        correlator.stopped().reactor.sent.len() == 0,
{
}

/// The facade of the engine.
pub struct Correlator<H: AlertHandler> {
    reactor: RequestReactor<MockResponseSender>,
    handlers: ResponseHandlers<H>,
}

impl<H: AlertHandler> View for Correlator<H> {
    type V = CorrelatorView;

    closed spec fn view(&self) -> CorrelatorView {
        CorrelatorView { reactor: self.reactor@, handled: self.handlers@ }
    }
}

impl<H: AlertHandler> Correlator<H> {
    /// A correlator over the contexts that the definitions stand for. Its
    /// reactor has a handler for every kind of request; no handler of alerts
    /// is registered yet.
    pub fn new(contexts: Vec<ContextConfig>) -> (correlator: Correlator<H>)
        ensures
            correlator@ == (CorrelatorView {
                reactor: ReactorView {
                    contexts: configured_all(config_views(contexts@)),
                    exit: Some(ExitState::Running),
                    timer: true,
                    message: true,
                    sent: Seq::empty(),
                },
                handled: None,
            }),
    {
        let map = create_contexts(contexts);
        let mut reactor = RequestReactor::new(map, MockResponseSender::new());
        reactor.register_handler(RequestHandler::Exit(ExitEventHandler::new()));
        reactor.register_handler(RequestHandler::Timer(TimerEventHandler::new()));
        reactor.register_handler(RequestHandler::Message(MessageEventHandler::new()));
        Correlator { reactor: reactor, handlers: ResponseHandlers::new() }
    }

    /// Registers the handler of alerts, in place of an earlier one.
    pub fn register_handler(&mut self, handler: H)
        ensures
            final(self)@ == (CorrelatorView { handled: Some(handler.handled()), ..old(self)@ }),
    {
        self.handlers.register_handler(handler);
    }

    /// Hands a message to the engine, after the responses that wait have
    /// been handed on.
    pub fn push_message(&mut self, message: Message)
        ensures
            final(self)@ == old(self)@.pushed(RequestView::Message(message@)),
    {
        self.consume_results();
        self.reactor.handle_event(Request::Message(Arc::new(message)));
    }

    /// Tells the engine that `delta` milliseconds have passed, after the
    /// responses that wait have been handed on.
    pub fn push_timer(&mut self, delta: MiliSec)
        ensures
            final(self)@ == old(self)@.pushed(RequestView::Timer(delta as nat)),
    {
        self.consume_results();
        self.reactor.handle_event(Request::Timer(delta));
    }

    /// Hands one response on: an alert goes to the handler of alerts, and
    /// nowhere if there is none. Says whether anyone took the response.
    pub fn handle_event(&mut self, event: Response) -> (taken: bool)
        ensures
            final(self)@ == (CorrelatorView {
                handled: handed_on(old(self)@.handled, event@),
                ..old(self)@
            }),
            taken == (event@.handle() == ResponseHandle::Alert && old(self)@.handled is Some),
    {
        self.handlers.handle_event(event)
    }

    /// Hands on the responses that wait, oldest first.
    pub fn consume_results(&mut self)
        ensures
            final(self)@ == old(self)@.consumed(),
    {
        let pending = self.reactor.take_responses();
        let ghost all = pending@;
        let ghost before = self@.handled;
        proof {
            assert(crate::dispatcher::response_views(all.take(0)) =~= Seq::empty());
            if before is Some {
                assert(before->0 + Seq::<AlertView>::empty() =~= before->0);
            }
        }
        for response in iter: pending
            invariant
                iter.seq() == all,
                self@.reactor == (ReactorView { sent: Seq::empty(), ..old(self)@.reactor }),
                self@.handled == match before {
                    Some(handled) => Some(
                        handled + alerts_of(
                            crate::dispatcher::response_views(all.take(iter.index() as int)),
                        ),
                    ),
                    None => None,
                },
        {
            proof {
                let done = iter.index() as int;
                let views = crate::dispatcher::response_views(all.take(done + 1));
                assert(views.drop_last() =~= crate::dispatcher::response_views(all.take(done)));
                assert(views.last() == response@);
                if before is Some {
                    let sofar = alerts_of(crate::dispatcher::response_views(all.take(done)));
                    if let ResponseView::Alert(alert) = response@ {
                        assert((before->0 + sofar).push(alert) =~= before->0 + sofar.push(alert));
                    }
                }
            }
            self.handle_event(response);
        }
        proof {
            assert(all.take(all.len() as int) =~= all);
        }
    }

    /// Stops the engine in two phases and hands the handler of alerts back.
    /// The first request to stop is answered by the reactor; the answer is
    /// handed on with everything that left before it, and a second request
    /// confirms it. After that the reactor serves nothing more, and every
    /// alert that has left it has been handed on.
    pub fn stop(self) -> (handler: Option<H>)
        ensures
            match handler {
                Some(handler) => self@.stopped().handled == Some(handler.handled()),
                None => self@.stopped().handled is None,
            },
    {
        let mut correlator = self;
        correlator.stop_dispatcher();
        correlator.handlers.into_alert_handler()
    }

    /// The two requests to stop, each after what waits has been handed on.
    fn stop_dispatcher(&mut self)
        ensures
            final(self)@ == old(self)@.stopped(),
    {
        self.consume_results();
        self.reactor.handle_event(Request::Exit);
        self.consume_results();
        self.reactor.handle_event(Request::Exit);
        self.consume_results();
    }

    /// Whether the reactor serves nothing more.
    pub fn is_stopped(&self) -> (stopped: bool)
        ensures
            stopped == self@.reactor.is_stopped(),
    {
        self.reactor.is_stopped()
    }
}

} // verus!
