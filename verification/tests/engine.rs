use correlation::action::MessageActionBuilder;
use correlation::conditions::{Conditions, ConditionsBuilder};
use correlation::config::ContextBuilder;
use correlation::context::{BaseContextBuilder, Context, ContextMap, LinearContext, MapContext};
use correlation::dispatcher::handlers::exit::{ExitEventHandler, ExitState};
use correlation::dispatcher::handlers::message::MessageEventHandler;
use correlation::dispatcher::handlers::timer::TimerEventHandler;
use correlation::dispatcher::reactor::{RequestHandler, RequestReactor};
use correlation::dispatcher::{
    MockResponseSender, Request, RequestHandle, Response, ResponseHandle, ResponseSender,
};
use correlation::message::{Message, MessageBuilder};
use correlation::state::State;
use correlation::{Action, MiliSec};
use std::sync::Arc;

fn message(uuid: &str) -> Arc<Message> {
    Arc::new(MessageBuilder::new(uuid).build())
}

fn keyed(uuid: &str, key: &str) -> Arc<Message> {
    Arc::new(MessageBuilder::new(uuid).pair("host", key).build())
}

fn one_action(uuid: &str) -> Vec<Action> {
    vec![Action::from(MessageActionBuilder::new(uuid, "").build())]
}

fn linear(conditions: Conditions, actions: Vec<Action>) -> LinearContext {
    LinearContext::new(BaseContextBuilder::new(1, conditions).actions(actions).build())
}

fn alert_messages(response: &Response) -> Vec<String> {
    match response {
        Response::Alert(alert) => alert.messages.iter().map(|m| m.uuid().clone()).collect(),
        Response::Exit => panic!("an alert was expected"),
    }
}

#[test]
fn a_window_closes_exactly_on_reaching_its_size() {
    for size in 1..6usize {
        let conditions = ConditionsBuilder::new(100).max_size(size).build();
        let mut context = linear(conditions, one_action("a"));
        let mut responder = MockResponseSender::new();
        for seen in 1..size {
            context.on_message(message("m"), &mut responder);
            assert!(context.is_open());
            assert_eq!(context.state().len(), seen);
            assert_eq!(responder.0.len(), 0);
        }
        context.on_message(message("m"), &mut responder);
        assert!(!context.is_open());
        assert_eq!(context.state().len(), 0);
        assert_eq!(responder.0.len(), 1);
        assert_eq!(alert_messages(&responder.0[0]).len(), size);
    }
}

#[test]
fn a_window_of_size_one_opens_and_closes_on_the_same_message() {
    let conditions = ConditionsBuilder::new(100).max_size(1).build();
    let mut context = linear(conditions, one_action("a"));
    let mut responder = MockResponseSender::new();
    context.on_message(message("m1"), &mut responder);
    assert!(!context.is_open());
    assert_eq!(responder.0.len(), 1);
    assert_eq!(alert_messages(&responder.0[0]), vec!["m1".to_owned()]);
    context.on_message(message("m2"), &mut responder);
    assert_eq!(responder.0.len(), 2);
    assert_eq!(alert_messages(&responder.0[1]), vec!["m2".to_owned()]);
}

#[test]
fn a_window_closes_at_the_first_tick_that_reaches_the_timeout() {
    let runs: Vec<Vec<MiliSec>> = vec![vec![100], vec![99, 1], vec![1, 1, 98], vec![0, 0, 150], vec![30, 30, 30, 30]];
    for run in runs {
        let conditions = ConditionsBuilder::new(100).build();
        let mut context = linear(conditions, one_action("a"));
        let mut responder = MockResponseSender::new();
        context.on_message(message("m1"), &mut responder);
        let mut sum = 0;
        for delta in run {
            assert!(context.is_open());
            context.on_timer(delta, &mut responder);
            sum += delta;
            assert_eq!(context.is_open(), sum < 100);
            if sum < 100 {
                assert_eq!(context.state().elapsed_total(), sum);
                assert_eq!(context.state().elapsed_since_last_message(), sum);
            }
        }
        assert!(!context.is_open());
        assert_eq!(responder.0.len(), 1);
    }
}

#[test]
fn a_tick_that_no_clock_can_hold_closes_the_window() {
    let conditions = ConditionsBuilder::new(MiliSec::MAX).build();
    let mut context = linear(conditions, one_action("a"));
    let mut responder = MockResponseSender::new();
    context.on_message(message("m1"), &mut responder);
    context.on_timer(1, &mut responder);
    assert!(context.is_open());
    context.on_timer(MiliSec::MAX, &mut responder);
    assert!(!context.is_open());
    assert_eq!(responder.0.len(), 1);
}

#[test]
fn a_timeout_of_zero_closes_the_window_at_once() {
    let mut context = linear(ConditionsBuilder::new(0).build(), one_action("a"));
    let mut responder = MockResponseSender::new();
    context.on_message(message("m1"), &mut responder);
    assert!(!context.is_open());
    assert_eq!(responder.0.len(), 1);
}

#[test]
fn a_message_starts_the_clock_of_the_renew_timeout_again() {
    let conditions = ConditionsBuilder::new(100).renew_timeout(10).build();
    let mut context = linear(conditions, one_action("a"));
    let mut responder = MockResponseSender::new();
    context.on_message(message("m1"), &mut responder);
    for _ in 0..5 {
        context.on_timer(9, &mut responder);
        assert!(context.is_open());
        assert_eq!(context.state().elapsed_since_last_message(), 9);
        context.on_message(message("m"), &mut responder);
        assert!(context.is_open());
        assert_eq!(context.state().elapsed_since_last_message(), 0);
    }
    assert_eq!(context.state().elapsed_total(), 45);
    context.on_timer(10, &mut responder);
    assert!(!context.is_open());
    assert_eq!(responder.0.len(), 1);
    assert_eq!(alert_messages(&responder.0[0]).len(), 6);
}

#[test]
fn a_closed_window_takes_no_notice_of_ticks_and_of_other_messages() {
    let conditions = ConditionsBuilder::new(100).patterns(vec!["m1".to_owned()]).build();
    let mut context = linear(conditions, one_action("a"));
    let mut responder = MockResponseSender::new();
    for _ in 0..3 {
        context.on_timer(1000, &mut responder);
        context.on_message(message("other"), &mut responder);
        context.on_event(Request::Exit, &mut responder);
        assert!(!context.is_open());
        assert_eq!(context.state().len(), 0);
        assert_eq!(context.state().elapsed_total(), 0);
    }
    context.on_message(message("m1"), &mut responder);
    context.on_timer(100, &mut responder);
    assert_eq!(responder.0.len(), 1);
    for _ in 0..3 {
        context.on_timer(100, &mut responder);
        context.on_message(message("other"), &mut responder);
    }
    assert_eq!(responder.0.len(), 1);
}

#[test]
fn an_open_window_takes_every_message() {
    let conditions = ConditionsBuilder::new(100).patterns(vec!["m1".to_owned()]).build();
    let mut context = linear(conditions, one_action("a"));
    let mut responder = MockResponseSender::new();
    context.on_message(message("m1"), &mut responder);
    context.on_message(message("other"), &mut responder);
    assert_eq!(context.state().len(), 2);
    context.on_timer(100, &mut responder);
    assert_eq!(alert_messages(&responder.0[0]), vec!["m1".to_owned(), "other".to_owned()]);
}

#[test]
fn the_patterns_decide_which_message_opens_a_window() {
    let by_id = message("two");
    let by_name = Arc::new(MessageBuilder::new("x").name("one").build());
    let neither = message("x");
    let none = ConditionsBuilder::new(100).build();
    assert!(none.is_opening(&by_id) && none.is_opening(&by_name) && none.is_opening(&neither));
    let patterns = vec!["one".to_owned(), "two".to_owned()];
    let any = ConditionsBuilder::new(100).patterns(patterns.clone()).build();
    assert!(any.is_opening(&by_id));
    assert!(any.is_opening(&by_name));
    assert!(!any.is_opening(&neither));
    let first = ConditionsBuilder::new(100).patterns(patterns).first_opens(true).build();
    assert!(!first.is_opening(&by_id));
    assert!(first.is_opening(&by_name));
    assert!(!first.is_opening(&neither));
    let first_of_none = ConditionsBuilder::new(100).first_opens(true).build();
    assert!(first_of_none.is_opening(&neither));
}

#[test]
fn the_last_pattern_closes_the_window_where_it_is_asked_to() {
    let patterns = vec!["one".to_owned(), "two".to_owned(), "three".to_owned()];
    let conditions = ConditionsBuilder::new(100).patterns(patterns.clone()).last_closes(true).build();
    let mut context = linear(conditions, one_action("a"));
    let mut responder = MockResponseSender::new();
    context.on_message(message("one"), &mut responder);
    context.on_message(message("two"), &mut responder);
    assert!(context.is_open());
    context.on_message(Arc::new(MessageBuilder::new("x").name("three").build()), &mut responder);
    assert!(!context.is_open());
    assert_eq!(responder.0.len(), 1);
    let unasked = ConditionsBuilder::new(100).patterns(patterns).build();
    let mut state = State::new();
    state.add_message(message("three"));
    state.open();
    assert!(!unasked.is_closing(&state));
    state.advance(100);
    assert!(unasked.is_closing(&state));
    assert_eq!(context.patterns().len(), 3);
}

#[test]
fn each_reason_to_close_is_enough() {
    let mut state = State::new();
    state.open();
    state.add_message(message("m"));
    state.advance(5);
    assert!(!ConditionsBuilder::new(6).build().is_closing(&state));
    assert!(ConditionsBuilder::new(5).build().is_closing(&state));
    assert!(!ConditionsBuilder::new(6).max_size(2).build().is_closing(&state));
    assert!(ConditionsBuilder::new(6).max_size(1).build().is_closing(&state));
    assert!(!ConditionsBuilder::new(6).renew_timeout(6).build().is_closing(&state));
    assert!(ConditionsBuilder::new(6).renew_timeout(5).build().is_closing(&state));
    state.add_message(message("m"));
    assert!(!ConditionsBuilder::new(6).renew_timeout(5).build().is_closing(&state));
    state.close();
    assert_eq!(state.len(), 2);
    assert!(!state.is_open());
    state.reset();
    assert_eq!(state.len(), 0);
    assert_eq!(state.elapsed_total(), 0);
    assert!(state.last_message().is_none());
}

#[test]
fn the_windows_of_different_keys_know_nothing_of_each_other() {
    let conditions = ConditionsBuilder::new(100).max_size(2).build();
    let base = BaseContextBuilder::new(1, conditions).actions(one_action("a")).build();
    let mut context = MapContext::new(base, "host".to_owned());
    let mut responder = MockResponseSender::new();
    context.on_message(keyed("a1", "a"), &mut responder);
    context.on_timer(30, &mut responder);
    context.on_message(keyed("b1", "b"), &mut responder);
    assert_eq!(context.len(), 2);
    assert!(context.is_open(&"a".to_owned()));
    assert!(context.is_open(&"b".to_owned()));
    context.on_message(keyed("a2", "a"), &mut responder);
    assert!(!context.is_open(&"a".to_owned()));
    assert!(context.is_open(&"b".to_owned()));
    assert_eq!(context.len(), 1);
    assert_eq!(responder.0.len(), 1);
    assert_eq!(alert_messages(&responder.0[0]), vec!["a1".to_owned(), "a2".to_owned()]);
    context.on_timer(99, &mut responder);
    assert!(context.is_open(&"b".to_owned()));
    context.on_message(keyed("a3", "a"), &mut responder);
    context.on_timer(1, &mut responder);
    assert!(!context.is_open(&"b".to_owned()));
    assert!(context.is_open(&"a".to_owned()));
    assert_eq!(responder.0.len(), 2);
    assert_eq!(alert_messages(&responder.0[1]), vec!["b1".to_owned()]);
    context.on_message(message("nokey"), &mut responder);
    assert!(context.is_open(&"".to_owned()));
    assert_eq!(context.len(), 2);
    assert_eq!(context.patterns().len(), 0);
}

#[test]
fn a_tick_closes_the_windows_of_a_map_context_in_their_order() {
    let conditions = ConditionsBuilder::new(100).build();
    let base = BaseContextBuilder::new(1, conditions).actions(one_action("a")).build();
    let mut context = MapContext::new(base, "host".to_owned());
    let mut responder = MockResponseSender::new();
    context.on_message(keyed("c1", "c"), &mut responder);
    context.on_message(keyed("a1", "a"), &mut responder);
    context.on_timer(50, &mut responder);
    context.on_message(keyed("b1", "b"), &mut responder);
    context.on_timer(50, &mut responder);
    assert_eq!(context.len(), 1);
    assert_eq!(responder.0.len(), 2);
    assert_eq!(alert_messages(&responder.0[0]), vec!["c1".to_owned()]);
    assert_eq!(alert_messages(&responder.0[1]), vec!["a1".to_owned()]);
    context.on_event(Request::Timer(50), &mut responder);
    assert_eq!(context.len(), 0);
    assert_eq!(responder.0.len(), 3);
}

#[test]
fn a_definition_with_a_key_field_becomes_a_map_context() {
    let mut builder = ContextBuilder::new(1, ConditionsBuilder::new(100).build());
    builder.name("n".to_owned()).actions(one_action("a"));
    let single = Context::from(builder.build());
    assert!(matches!(single, Context::Linear(_)));
    builder.context_id("host".to_owned());
    let definition = builder.build();
    assert_eq!(definition.context_id, Some("host".to_owned()));
    let per_key = Context::from(definition);
    assert!(matches!(per_key, Context::Keyed(_)));
    assert_eq!(per_key.patterns().len(), 0);
}

#[test]
fn every_context_gets_every_event() {
    let mut map = ContextMap::new();
    let first = ConditionsBuilder::new(100).max_size(1).build();
    let second = ConditionsBuilder::new(100).max_size(2).build();
    map.insert(Context::Linear(linear(second, one_action("second"))));
    map.insert(Context::Linear(linear(first, one_action("first"))));
    let mut keys = ContextBuilder::new(3, ConditionsBuilder::new(100).max_size(1).build());
    keys.context_id("host".to_owned()).actions(one_action("third"));
    map.insert(Context::from(keys.build()));
    assert_eq!(map.len(), 3);
    let mut responder = MockResponseSender::new();
    map.on_event(Request::Message(message("m1")), &mut responder);
    let fired: Vec<String> = responder
        .0
        .iter()
        .map(|response| match response {
            Response::Alert(alert) => alert.message.uuid().clone(),
            Response::Exit => String::new(),
        })
        .collect();
    assert_eq!(fired, vec!["first".to_owned(), "third".to_owned()]);
    map.on_event(Request::Message(message("m2")), &mut responder);
    assert_eq!(responder.0.len(), 5);
    map.on_event(Request::Exit, &mut responder);
    assert_eq!(responder.0.len(), 5);
    assert_eq!(map.contexts().len(), 3);
}

fn reactor_of(contexts: ContextMap) -> RequestReactor<MockResponseSender> {
    let mut reactor = RequestReactor::new(contexts, MockResponseSender::new());
    reactor.register_handler(RequestHandler::Exit(ExitEventHandler::new()));
    reactor.register_handler(RequestHandler::Timer(TimerEventHandler::new()));
    reactor.register_handler(RequestHandler::Message(MessageEventHandler::new()));
    reactor
}

#[test]
fn the_reactor_stops_at_the_second_request_to_stop() {
    let mut map = ContextMap::new();
    map.insert(Context::Linear(linear(ConditionsBuilder::new(100).max_size(1).build(), one_action("a"))));
    let mut reactor = reactor_of(map);
    let requests = vec![
        Request::Message(message("m1")),
        Request::Exit,
        Request::Message(message("m2")),
        Request::Exit,
        Request::Message(message("m3")),
        Request::Timer(5),
    ];
    let served = reactor.handle_events(requests);
    assert_eq!(served, 4);
    assert!(reactor.is_stopped());
    assert_eq!(reactor.exit_state(), Some(ExitState::Confirmed));
    let kinds: Vec<ResponseHandle> = reactor.responder().0.iter().map(|r| r.handle()).collect();
    assert_eq!(
        kinds,
        vec![ResponseHandle::Alert, ResponseHandle::Exit, ResponseHandle::Alert, ResponseHandle::Exit]
    );
    assert_eq!(reactor.handle_events(vec![Request::Message(message("m4"))]), 0);
    assert_eq!(reactor.take_responses().len(), 4);
    assert_eq!(reactor.responder().0.len(), 0);
}

#[test]
fn a_request_without_a_handler_is_dropped() {
    let mut map = ContextMap::new();
    map.insert(Context::Linear(linear(ConditionsBuilder::new(100).max_size(1).build(), one_action("a"))));
    let mut reactor = RequestReactor::new(map, MockResponseSender::new());
    reactor.handle_event(Request::Message(message("m1")));
    reactor.handle_event(Request::Exit);
    reactor.handle_event(Request::Exit);
    assert_eq!(reactor.responder().0.len(), 0);
    assert!(!reactor.is_stopped());
    let handler = RequestHandler::Message(MessageEventHandler::new());
    assert_eq!(handler.handle(), RequestHandle::Message);
    reactor.register_handler(handler);
    reactor.handle_event(Request::Message(message("m1")));
    assert_eq!(reactor.responder().0.len(), 1);
    reactor.remove_handler_by_handle(&RequestHandle::Message);
    reactor.handle_event(Request::Message(message("m1")));
    assert_eq!(reactor.responder().0.len(), 1);
    let (contexts, responder) = reactor.into_parts();
    assert_eq!(contexts.len(), 1);
    assert_eq!(responder.0.len(), 1);
}

#[test]
fn the_handler_of_requests_to_stop_counts_to_two() {
    let mut handler = ExitEventHandler::new();
    let mut responder = MockResponseSender::new();
    assert_eq!(handler.handle(), RequestHandle::Exit);
    assert_eq!(handler.state(), ExitState::Running);
    handler.handle_event(Request::Exit, &mut responder);
    assert_eq!(handler.state(), ExitState::ExitRequested);
    assert!(!handler.is_active());
    handler.handle_event(Request::Exit, &mut responder);
    assert!(handler.is_active());
    handler.handle_event(Request::Exit, &mut responder);
    assert_eq!(handler.state(), ExitState::Confirmed);
    assert_eq!(responder.0.len(), 3);
    assert!(responder.0.iter().all(|response| matches!(response, Response::Exit)));
}

#[test]
fn the_handlers_of_ticks_and_messages_serve_every_context() {
    let mut map = ContextMap::new();
    map.insert(Context::Linear(linear(ConditionsBuilder::new(10).build(), one_action("a"))));
    map.insert(Context::Linear(linear(ConditionsBuilder::new(20).build(), one_action("b"))));
    let mut responder = MockResponseSender::new();
    let mut messages = MessageEventHandler::new();
    let mut ticks = TimerEventHandler::new();
    assert_eq!(ticks.handle(), RequestHandle::Timer);
    assert_eq!(messages.handle(), RequestHandle::Message);
    messages.handle_event(Request::Message(message("m")), &mut map, &mut responder);
    ticks.handle_event(Request::Timer(10), &mut map, &mut responder);
    assert_eq!(responder.0.len(), 1);
    ticks.handle_event(Request::Timer(10), &mut map, &mut responder);
    assert_eq!(responder.0.len(), 2);
    assert_eq!(Request::Timer(10).handle(), RequestHandle::Timer);
    assert_eq!(Request::Exit.duplicate().handle(), RequestHandle::Exit);
}

struct Counting(usize);

impl ResponseSender for Counting {
    fn send_response(&mut self, _response: Response) {
        self.0 += 1;
    }
}

#[test]
fn a_sender_of_the_caller_gets_every_response() {
    let conditions = ConditionsBuilder::new(100).max_size(1).build();
    let actions = vec![
        Action::from(MessageActionBuilder::new("a1", "").build()),
        Action::from(MessageActionBuilder::new("a2", "").build()),
    ];
    let mut context = linear(conditions, actions);
    let mut counting = Counting(0);
    context.on_message(message("m1"), &mut counting);
    context.on_message(message("m2"), &mut counting);
    assert_eq!(counting.0, 4);
}

#[test]
fn a_shared_message_is_kept_by_every_window_that_takes_it() {
    let shared = message("m1");
    let mut one = linear(ConditionsBuilder::new(100).build(), one_action("a"));
    let mut other = linear(ConditionsBuilder::new(100).build(), one_action("b"));
    let mut responder = MockResponseSender::new();
    let request = Request::Message(shared.clone());
    one.on_event(request.duplicate(), &mut responder);
    other.on_event(request, &mut responder);
    assert!(Arc::ptr_eq(&one.state().messages()[0], &shared));
    assert!(Arc::ptr_eq(&other.state().messages()[0], &shared));
    assert_eq!(Arc::strong_count(&shared), 3);
    assert_eq!(one.base().uuid(), 1);
}

#[test]
fn the_actions_of_a_context_can_be_changed() {
    let mut base = BaseContextBuilder::new(1, ConditionsBuilder::new(100).max_size(1).build())
        .name(Some("n".to_owned()))
        .build();
    assert_eq!(base.actions().len(), 0);
    base.actions_mut().push(Action::from(MessageActionBuilder::new("a", "").build()));
    assert_eq!(base.actions().len(), 1);
    assert_eq!(base.name(), Some(&"n".to_owned()));
    assert_eq!(base.conditions().timeout, 100);
    let copy = base.duplicate();
    let mut context = LinearContext::new(copy);
    let mut responder = MockResponseSender::new();
    context.on_message(message("m"), &mut responder);
    assert_eq!(responder.0.len(), 1);
}
