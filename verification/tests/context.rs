use correlation::conditions::ConditionsBuilder;
use correlation::context::{BaseContextBuilder, LinearContext};
use correlation::dispatcher::MockResponseSender;
use correlation::message::MessageBuilder;
use std::sync::Arc;
use uuid::Uuid;

#[test]
fn test_given_close_condition_with_timeout_when_the_timeout_expires_then_the_condition_is_met() {
    let mut responder = MockResponseSender::default();
    let timeout = 100;
    let msg_id = "11eaf6f8-0640-460f-aee2-a72d2f2ab258".to_owned();
    let patterns = vec![msg_id.clone()];
    let conditions = ConditionsBuilder::new(timeout).patterns(patterns).build();
    let base = BaseContextBuilder::new(Uuid::new_v4().as_u128(), conditions).build();
    let mut context = LinearContext::new(base);
    let msg1 = Arc::new(MessageBuilder::new(&msg_id).pair("message", "message").build());
    assert!(!context.is_open());
    context.on_message(msg1, &mut responder);
    assert!(context.is_open());
    context.on_timer(50, &mut responder);
    assert!(context.is_open());
    context.on_timer(49, &mut responder);
    assert!(context.is_open());
    context.on_timer(1, &mut responder);
    assert!(!context.is_open());
}

#[test]
fn test_given_close_condition_with_max_size_when_the_max_size_reached_then_the_condition_is_met() {
    let mut responder = MockResponseSender::default();
    let timeout = 100;
    let max_size = 3;
    let msg_id = "11eaf6f8-0640-460f-aee2-a72d2f2ab258".to_owned();
    let patterns = vec![msg_id.clone()];
    let conditions = ConditionsBuilder::new(timeout).max_size(max_size).patterns(patterns).build();
    let base = BaseContextBuilder::new(Uuid::new_v4().as_u128(), conditions).build();
    let mut context = LinearContext::new(base);
    let msg1 = Arc::new(MessageBuilder::new(&msg_id).pair("message", "message").build());
    context.on_message(msg1.clone(), &mut responder);
    assert!(context.is_open());
    context.on_message(msg1.clone(), &mut responder);
    assert!(context.is_open());
    context.on_message(msg1.clone(), &mut responder);
    assert!(!context.is_open());
}

#[test]
fn test_given_close_condition_with_renew_timeout_when_the_timeout_expires_without_renewing_messages_then_the_condition_is_met(
) {
    let mut responder = MockResponseSender::default();
    let timeout = 100;
    let renew_timeout = 10;
    let msg_id = "11eaf6f8-0640-460f-aee2-a72d2f2ab258".to_owned();
    let patterns = vec![msg_id.clone()];
    let conditions = ConditionsBuilder::new(timeout)
        .renew_timeout(renew_timeout)
        .patterns(patterns)
        .build();
    let base = BaseContextBuilder::new(Uuid::new_v4().as_u128(), conditions).build();
    let mut context = LinearContext::new(base);
    let msg1 = Arc::new(MessageBuilder::new(&msg_id).pair("message", "message").build());
    context.on_message(msg1.clone(), &mut responder);
    assert!(context.is_open());
    context.on_timer(8, &mut responder);
    assert!(context.is_open());
    context.on_timer(1, &mut responder);
    assert!(context.is_open());
    context.on_timer(1, &mut responder);
    assert!(!context.is_open());
}

#[test]
fn test_given_close_condition_with_renew_timeout_when_the_timeout_expires_with_renewing_messages_then_the_context_is_not_closed(
) {
    let mut responder = MockResponseSender::default();
    let timeout = 100;
    let renew_timeout = 10;
    let msg_id = "11eaf6f8-0640-460f-aee2-a72d2f2ab258".to_owned();
    let patterns = vec![msg_id.clone()];
    let conditions = ConditionsBuilder::new(timeout)
        .renew_timeout(renew_timeout)
        .patterns(patterns)
        .build();
    let base = BaseContextBuilder::new(Uuid::new_v4().as_u128(), conditions).build();
    let mut context = LinearContext::new(base);
    let msg1 = Arc::new(MessageBuilder::new(&msg_id).pair("message", "message").build());
    assert!(!context.is_open());
    context.on_message(msg1.clone(), &mut responder);
    assert!(context.is_open());
    context.on_timer(8, &mut responder);
    assert!(context.is_open());
    context.on_timer(1, &mut responder);
    assert!(context.is_open());
    context.on_message(msg1.clone(), &mut responder);
    assert!(context.is_open());
    context.on_timer(1, &mut responder);
    assert!(context.is_open());
}
