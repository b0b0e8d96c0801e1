use std::collections::HashMap;
use juno::constants;
use juno::error::{error_code, Error};
use juno::messages::BaseMessage;
use juno::module_impl::function_call_reply;
use serde_json::Value;

fn id(s: &str) -> String {
    String::from(s)
}

fn all_messages() -> Vec<(BaseMessage, u64)> {
    vec![
        (
            BaseMessage::RegisterModuleRequest {
                request_id: id("r1"),
                module_id: id("m"),
                version: id("1.0.0"),
                dependencies: HashMap::new(),
            },
            1,
        ),
        (BaseMessage::RegisterModuleResponse { request_id: id("r2") }, 2),
        (
            BaseMessage::FunctionCallRequest {
                request_id: id("r3"),
                function: id("f"),
                arguments: HashMap::new(),
            },
            3,
        ),
        (BaseMessage::FunctionCallResponse { request_id: id("r4"), data: Value::Null }, 4),
        (BaseMessage::RegisterHookRequest { request_id: id("r5"), hook: id("h") }, 5),
        (BaseMessage::RegisterHookResponse { request_id: id("r6") }, 6),
        (
            BaseMessage::TriggerHookRequest { request_id: id("r7"), hook: id("h"), data: Value::Null },
            7,
        ),
        (
            BaseMessage::TriggerHookResponse { request_id: id("r8"), hook: None, data: Value::Null },
            8,
        ),
        (BaseMessage::DeclareFunctionRequest { request_id: id("r9"), function: id("f") }, 9),
        (BaseMessage::DeclareFunctionResponse { request_id: id("r10"), function: id("f") }, 10),
        (BaseMessage::Error { request_id: id("r11"), error: 3 }, 0),
        (BaseMessage::Unknown { request_id: id("r12") }, 0),
    ]
}

#[test]
fn every_message_has_its_type_number() {
    for (message, expected) in all_messages() {
        assert_eq!(message.get_type(), expected);
    }
}

#[test]
fn type_numbers_match_the_named_constants() {
    let messages = all_messages();
    assert_eq!(messages[0].0.get_type(), constants::request_types::REGISTER_MODULE_REQUEST);
    assert_eq!(messages[1].0.get_type(), constants::request_types::REGISTER_MODULE_RESPONSE);
    assert_eq!(messages[2].0.get_type(), constants::request_types::FUNCTION_CALL_REQUEST);
    assert_eq!(messages[3].0.get_type(), constants::request_types::FUNCTION_CALL_RESPONSE);
    assert_eq!(messages[4].0.get_type(), constants::request_types::REGISTER_HOOK_REQUEST);
    assert_eq!(messages[5].0.get_type(), constants::request_types::REGISTER_HOOK_RESPONSE);
    assert_eq!(messages[6].0.get_type(), constants::request_types::TRIGGER_HOOK_REQUEST);
    assert_eq!(messages[7].0.get_type(), constants::request_types::TRIGGER_HOOK_RESPONSE);
    assert_eq!(messages[8].0.get_type(), constants::request_types::DECLARE_FUNCTION_REQUEST);
    assert_eq!(messages[9].0.get_type(), constants::request_types::DECLARE_FUNCTION_RESPONSE);
    assert_eq!(messages[10].0.get_type(), constants::request_types::ERROR);
    assert_eq!(messages[11].0.get_type(), constants::request_types::ERROR);
}

#[test]
fn every_message_hands_back_its_request_id() {
    for (i, (message, _)) in all_messages().into_iter().enumerate() {
        assert_eq!(message.get_request_id(), &format!("r{}", i + 1));
    }
}

#[test]
fn error_codes_sent_back() {
    assert_eq!(error_code(&Error::FromJuno(constants::errors::UNKNOWN_FUNCTION)), 5);
    assert_eq!(error_code(&Error::FromJuno(42)), 42);
    assert_eq!(error_code(&Error::Internal(id("socket closed"))), 0);
}

#[test]
fn function_call_reply_with_a_result() {
    let reply = function_call_reply(id("abc"), Ok(Value::from(12)));
    assert_eq!(reply.get_type(), constants::request_types::FUNCTION_CALL_RESPONSE);
    assert_eq!(reply.get_request_id(), "abc");
    match reply {
        BaseMessage::FunctionCallResponse { data, .. } => assert_eq!(data, Value::from(12)),
        _ => panic!("expected a function call response"),
    }
}

#[test]
fn function_call_reply_with_an_error() {
    let reply = function_call_reply(id("abc"), Err(Error::FromJuno(constants::errors::UNKNOWN_FUNCTION)));
    assert_eq!(reply.get_type(), constants::request_types::ERROR);
    assert_eq!(reply.get_request_id(), "abc");
    assert!(matches!(reply, BaseMessage::Error { error: 5, .. }));
    let reply = function_call_reply(id("xyz"), Err(Error::Internal(id("boom"))));
    assert!(matches!(reply, BaseMessage::Error { error: 0, .. }));
}
