use correlation::action::{ActionCommand, MessageActionBuilder};
use correlation::conditions::ConditionsBuilder;
use correlation::config::{Context, ContextBuilder};
use correlation::correlator::{AlertHandler, TIMER_STEP};
use correlation::message::MessageBuilder;
use correlation::test_utils::MockAlertHandler;
use correlation::{Action, Alert, Correlator};
use serde_json::Value;
use uuid::Uuid;

const JSON_CONFIG: &'static str = r#"
      [
        {
          "name": "CONTEXT_NAME_1",
          "uuid": "185e96da-c00e-454b-b4fe-9d0a14a86335",
          "conditions": {
            "timeout": 100,
            "patterns": [
              "p1",
              "p2",
              "p3"
            ],
            "first_opens": true
          },
          "actions": [
            {
              "message": {
                  "uuid": "uuid1"
              }
            }
          ]
        },
        {
          "name": "CONTEXT_NAME_2",
          "uuid": "285e96da-c00e-454b-b4fe-9d0a14a86335",
          "conditions": {
            "timeout": 10000,
            "max_size": 5
          },
          "actions": [
            {
              "message": {
                  "uuid": "uuid1"
              }
            },
            {
              "message": {
                  "uuid": "uuid2"
              }
            }
          ]
        },
        {
          "name": "CONTEXT_NAME_3",
          "uuid": "385e96da-c00e-454b-b4fe-9d0a14a86335",
          "conditions": {
            "timeout": 100,
            "patterns": [
              "p1"
            ]
          },
          "actions": [
            {
              "message": {
                  "uuid": "uuid2"
              }
            }
          ]
        }
      ]
    "#;

fn contexts_from_json(text: &str) -> Result<Vec<Context>, String> {
    let value: Value = serde_json::from_str(text).map_err(|error| error.to_string())?;
    let mut contexts = Vec::new();
    for context in value.as_array().ok_or("the contexts are a list")? {
        let uuid = context["uuid"].as_str().ok_or("a context has a uuid")?;
        let uuid = Uuid::parse_str(uuid).map_err(|error| error.to_string())?.as_u128();
        let conditions = &context["conditions"];
        let timeout = conditions["timeout"].as_u64().ok_or("conditions have a timeout")?;
        let mut builder = ConditionsBuilder::new(timeout);
        if let Some(max_size) = conditions["max_size"].as_u64() {
            builder = builder.max_size(max_size as usize);
        }
        if let Some(renew_timeout) = conditions["renew_timeout"].as_u64() {
            builder = builder.renew_timeout(renew_timeout);
        }
        if let Some(patterns) = conditions["patterns"].as_array() {
            let patterns = patterns.iter().map(|p| p.as_str().unwrap_or("").to_owned()).collect();
            builder = builder.patterns(patterns);
        }
        if let Some(first_opens) = conditions["first_opens"].as_bool() {
            builder = builder.first_opens(first_opens);
        }
        if let Some(last_closes) = conditions["last_closes"].as_bool() {
            builder = builder.last_closes(last_closes);
        }
        let mut actions = Vec::new();
        for action in context["actions"].as_array().ok_or("a context has actions")? {
            let message = &action["message"];
            let uuid = message["uuid"].as_str().ok_or("a message action has a uuid")?;
            let text = message["message"].as_str().unwrap_or("");
            actions.push(Action::from(MessageActionBuilder::new(uuid, text).build()));
        }
        let mut definition = ContextBuilder::new(uuid, builder.build());
        definition.actions(actions);
        if let Some(name) = context["name"].as_str() {
            definition.name(name.to_owned());
        }
        contexts.push(definition.build());
    }
    Ok(contexts)
}

fn actions_of_one_message() -> Vec<Action> {
    vec![MessageActionBuilder::new("uuid", "").build().into()]
}

#[test]
fn test_given_manually_built_correlator_when_it_closes_a_context_then_the_actions_are_executed() {
    let uuid1 = "1b47ba91-d867-4a8c-9553-a5dfd6ea1274".to_string();
    let uuid2 = "2b47ba91-d867-4a8c-9553-a5dfd6ea1274".to_string();
    let uuid3 = "3b47ba91-d867-4a8c-9553-a5dfd6ea1274".to_string();
    let patterns = vec![uuid1.clone(), uuid2.clone(), uuid3.clone()];
    let condition = ConditionsBuilder::new(100)
        .patterns(patterns)
        .first_opens(true)
        .last_closes(true)
        .build();
    let contexts = vec![
        ContextBuilder::new(Uuid::new_v4().as_u128(), condition.duplicate())
            .actions(actions_of_one_message())
            .build(),
        ContextBuilder::new(Uuid::new_v4().as_u128(), condition.duplicate())
            .actions(actions_of_one_message())
            .build(),
        ContextBuilder::new(Uuid::new_v4().as_u128(), condition.duplicate())
            .actions(actions_of_one_message())
            .build(),
    ];
    let mut correlator = Correlator::new(contexts);
    correlator.register_handler(MockAlertHandler::new());
    correlator.push_message(MessageBuilder::new(&uuid1).build());
    correlator.push_timer(20);
    correlator.push_message(MessageBuilder::new(&uuid2).build());
    correlator.push_timer(80);
    correlator.push_message(MessageBuilder::new(&uuid3).build());
    let responses = correlator.stop().expect("a handler was registered");
    assert_eq!(3, responses.0.len());
}

#[test]
fn test_given_correlator_when_it_is_built_from_json_then_we_get_the_expected_correlator() {
    let result = contexts_from_json(JSON_CONFIG);
    let expected_name = "CONTEXT_NAME_1".to_string();
    let expected_uuid = "185e96da-c00e-454b-b4fe-9d0a14a86335".to_string();
    println!("{:?}", &result);
    let mut contexts = result.ok().expect("Failed to deserialize a config::Context from JSON");
    for i in &contexts {
        assert_eq!(true, i.name.is_some());
    }
    let context = contexts.remove(0);
    assert_eq!(Some(&expected_name), context.name.as_ref());
    assert_eq!(&expected_uuid, &Uuid::from_u128(context.uuid).hyphenated().to_string());
}

#[test]
fn test_given_correlator_when_it_is_built_from_json_then_it_produces_the_expected_number_of_messages(
) {
    let uuid1 = "1b47ba91-d867-4a8c-9553-a5dfd6ea1274".to_string();
    let uuid2 = "2b47ba91-d867-4a8c-9553-a5dfd6ea1274".to_string();
    let uuid3 = "3b47ba91-d867-4a8c-9553-a5dfd6ea1274".to_string();
    let result = contexts_from_json(JSON_CONFIG);
    println!("{:?}", &result);
    let contexts = result.ok().expect("Failed to deserialize a config::Context from JSON");
    let mut correlator = Correlator::new(contexts);
    correlator.register_handler(MockAlertHandler::new());
    correlator.push_message(MessageBuilder::new(&uuid1).name("p1").build());
    correlator.push_timer(20);
    correlator.push_message(MessageBuilder::new(&uuid2).name("p2").build());
    correlator.push_message(MessageBuilder::new(&uuid3).name("p3").build());
    correlator.push_message(MessageBuilder::new(&uuid3).name("p3").build());
    correlator.push_message(MessageBuilder::new(&uuid3).name("p3").build());
    correlator.push_message(MessageBuilder::new(&uuid3).name("p3").build());
    correlator.push_message(MessageBuilder::new(&uuid3).name("p3").build());
    correlator.push_timer(200);
    let responses = correlator.stop().expect("a handler was registered");
    println!("{:?}", &responses.0);
    assert_eq!(4, responses.0.len());
}

#[test]
fn a_window_that_never_opens_gives_no_alert() {
    let conditions = ConditionsBuilder::new(100).patterns(vec!["p1".to_owned()]).build();
    let contexts = vec![ContextBuilder::new(1, conditions).actions(actions_of_one_message()).build()];
    let mut correlator = Correlator::new(contexts);
    correlator.register_handler(MockAlertHandler::new());
    correlator.push_message(MessageBuilder::new("other").build());
    correlator.push_timer(TIMER_STEP);
    correlator.push_timer(TIMER_STEP);
    assert!(!correlator.is_stopped());
    let responses = correlator.stop().expect("a handler was registered");
    assert_eq!(0, responses.0.len());
}

#[test]
fn alerts_without_a_handler_are_dropped() {
    let conditions = ConditionsBuilder::new(100).max_size(1).build();
    let contexts = vec![ContextBuilder::new(1, conditions).actions(actions_of_one_message()).build()];
    let mut correlator: Correlator<MockAlertHandler> = Correlator::new(contexts);
    correlator.push_message(MessageBuilder::new("m1").build());
    correlator.consume_results();
    correlator.register_handler(MockAlertHandler::new());
    correlator.push_message(MessageBuilder::new("m2").build());
    let responses = correlator.stop().expect("a handler was registered");
    assert_eq!(1, responses.0.len());
    assert_eq!(responses.0[0].messages.len(), 1);
    assert_eq!(responses.0[0].messages[0].uuid(), "m2");
}

#[test]
fn an_open_window_at_the_stop_gives_no_alert() {
    let conditions = ConditionsBuilder::new(100).build();
    let contexts = vec![ContextBuilder::new(1, conditions).actions(actions_of_one_message()).build()];
    let mut correlator = Correlator::new(contexts);
    correlator.register_handler(MockAlertHandler::new());
    correlator.push_message(MessageBuilder::new("m1").build());
    correlator.push_timer(99);
    let responses = correlator.stop().expect("a handler was registered");
    assert_eq!(0, responses.0.len());
}

struct Counting(usize);

impl AlertHandler for Counting {
    fn on_alert(&mut self, _alert: Alert) {
        self.0 += 1;
    }
}

#[test]
fn a_handler_of_the_caller_gets_every_alert() {
    let conditions = ConditionsBuilder::new(100).max_size(2).build();
    let actions = vec![
        Action::from(MessageActionBuilder::new("a1", "").build()),
        Action::from(MessageActionBuilder::new("a2", "").build()),
    ];
    let contexts = vec![ContextBuilder::new(1, conditions).actions(actions).build()];
    let mut correlator = Correlator::new(contexts);
    correlator.register_handler(Counting(0));
    for _ in 0..6 {
        correlator.push_message(MessageBuilder::new("m").build());
    }
    let counting = correlator.stop().expect("a handler was registered");
    assert_eq!(counting.0, 6);
}

#[test]
fn the_action_of_a_definition_is_what_the_window_fires() {
    let base = correlation::context::BaseContextBuilder::new(
        1,
        ConditionsBuilder::new(100).build(),
    )
    .build();
    let state = correlation::State::new();
    let action = actions_of_one_message().remove(0);
    let ActionCommand::Message(alert) = action.execute(&state, &base);
    assert_eq!(alert.message.uuid(), "uuid");
}
