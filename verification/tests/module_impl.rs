use std::collections::HashMap;
use juno::constants;
use juno::error::Error;
use juno::messages::BaseMessage;
use juno::module_impl::{Dispatch, HookEffect, IncomingStep, JunoModuleImpl, Reply, WorkDone};
use serde_json::Value;

type Function = fn(HashMap<String, Value>) -> Value;
type Listener = fn(Value);
type Module = JunoModuleImpl<Function, Listener, u32>;

fn one(_: HashMap<String, Value>) -> Value {
    Value::from(1)
}

fn two(_: HashMap<String, Value>) -> Value {
    Value::from(2)
}

fn listener_a(_: Value) {}

fn listener_b(_: Value) {}

fn s(x: &str) -> String {
    String::from(x)
}

fn hook_response(hook: Option<&str>) -> BaseMessage {
    BaseMessage::TriggerHookResponse {
        request_id: s("hr"),
        hook: hook.map(s),
        data: Value::Null,
    }
}

#[test]
fn new_module_is_empty() {
    let m: Module = JunoModuleImpl::new();
    assert!(!m.is_registered());
    assert!(matches!(m.execute_function_call(&s("f")), Err(Error::FromJuno(5))));
}

#[test]
fn declared_function_is_found() {
    let mut m: Module = JunoModuleImpl::new();
    m.declare_function(s("f"), one);
    m.declare_function(s("g"), two);
    let f = m.execute_function_call(&s("f")).unwrap();
    assert_eq!(f(HashMap::new()), Value::from(1));
    let g = m.execute_function_call(&s("g")).unwrap();
    assert_eq!(g(HashMap::new()), Value::from(2));
}

#[test]
fn declaring_again_replaces_the_function() {
    let mut m: Module = JunoModuleImpl::new();
    m.declare_function(s("f"), one);
    m.declare_function(s("f"), two);
    let f = m.execute_function_call(&s("f")).unwrap();
    assert_eq!(f(HashMap::new()), Value::from(2));
}

#[test]
fn unknown_function_gives_its_error_code() {
    let mut m: Module = JunoModuleImpl::new();
    m.declare_function(s("f"), one);
    match m.execute_function_call(&s("missing")) {
        Err(Error::FromJuno(code)) => assert_eq!(code, constants::errors::UNKNOWN_FUNCTION),
        _ => panic!("expected the unknown function error"),
    }
}

#[test]
fn listeners_come_back_in_registration_order() {
    let mut m: Module = JunoModuleImpl::new();
    m.register_hook(s("h"), listener_a);
    m.register_hook(s("other"), listener_b);
    m.register_hook(s("h"), listener_b);
    match m.execute_hook_triggered(Some(s("h"))).unwrap() {
        HookEffect::Notify(listeners) => {
            assert_eq!(listeners.len(), 2);
            assert!(listeners[0] as usize == listener_a as Listener as usize);
            assert!(listeners[1] as usize == listener_b as Listener as usize);
        }
        _ => panic!("expected listeners"),
    }
    match m.execute_hook_triggered(Some(s("other"))).unwrap() {
        HookEffect::Notify(listeners) => assert_eq!(listeners.len(), 1),
        _ => panic!("expected listeners"),
    }
}

#[test]
fn hook_without_listeners_is_an_error() {
    let mut m: Module = JunoModuleImpl::new();
    m.send_request(constants::request_types::REGISTER_HOOK_REQUEST, s("a"), vec![1], 1).unwrap();
    match m.execute_hook_triggered(Some(s("h"))) {
        Err(Error::Internal(msg)) => assert_eq!(msg, "No listener is registered for the hook h"),
        _ => panic!("expected an error"),
    }
    assert!(!m.is_registered());
    match m.execute_hook_triggered(Some(s("juno.activated"))).unwrap() {
        HookEffect::Flush(bytes) => assert_eq!(bytes, vec![1]),
        _ => panic!("the buffer should be untouched"),
    }
}

#[test]
fn incoming_trigger_of_unknown_hook_settles_with_the_error() {
    let mut m: Module = JunoModuleImpl::new();
    m.send_request(constants::request_types::TRIGGER_HOOK_REQUEST, s("hr"), vec![1], 4).unwrap();
    let step = m.on_data(hook_response(Some("nobody")));
    assert!(matches!(&step, IncomingStep::Settle { outcome: Err(Error::Internal(_)), .. }));
    match m.finish_step(step, WorkDone::Completed) {
        Some((sender, Err(Error::Internal(msg)))) => {
            assert_eq!(sender, 4);
            assert_eq!(msg, "No listener is registered for the hook nobody");
        }
        _ => panic!("expected the error to reach the request"),
    }
    assert_eq!(m.take_request(&s("hr")), None);
}

#[test]
fn function_call_request_settles_with_null() {
    let mut m: Module = JunoModuleImpl::new();
    m.declare_function(s("f"), one);
    m.send_request(constants::request_types::FUNCTION_CALL_REQUEST, s("x"), vec![1], 6).unwrap();
    let step = m.on_data(BaseMessage::FunctionCallRequest { request_id: s("x"), function: s("f"), arguments: HashMap::new() });
    assert!(matches!(m.finish_step(step, WorkDone::Completed), Some((6, Ok(Reply::Null)))));
    assert_eq!(m.take_request(&s("x")), None);
}

#[test]
fn function_response_settles_with_its_data() {
    let mut m: Module = JunoModuleImpl::new();
    m.send_request(constants::request_types::FUNCTION_CALL_REQUEST, s("x"), vec![1], 6).unwrap();
    let step = m.on_data(BaseMessage::FunctionCallResponse { request_id: s("x"), data: Value::from(8) });
    match m.finish_step(step, WorkDone::Completed) {
        Some((6, Ok(Reply::Data(v)))) => assert_eq!(v, Value::from(8)),
        _ => panic!("expected the data"),
    }
}

#[test]
fn settling_an_unknown_request_gives_nothing() {
    let mut m: Module = JunoModuleImpl::new();
    m.send_request(constants::request_types::REGISTER_HOOK_REQUEST, s("a"), vec![1], 1).unwrap();
    let step = m.on_data(BaseMessage::RegisterHookResponse { request_id: s("other") });
    assert!(m.finish_step(step, WorkDone::Completed).is_none());
    assert_eq!(m.take_request(&s("a")), Some(1));
}

#[test]
fn failed_flush_settles_with_its_error_and_keeps_the_buffer() {
    let mut m: Module = JunoModuleImpl::new();
    m.send_request(constants::request_types::REGISTER_HOOK_REQUEST, s("a"), vec![1, 2], 1).unwrap();
    m.send_request(constants::request_types::TRIGGER_HOOK_REQUEST, s("hr"), vec![3], 2).unwrap();
    let step = m.on_data(hook_response(Some("juno.activated")));
    let done = WorkDone::Flushed(Err(Error::Internal(s("broken pipe"))));
    match m.finish_step(step, done) {
        Some((2, Err(Error::Internal(msg)))) => assert_eq!(msg, "broken pipe"),
        _ => panic!("expected the flush error"),
    }
    assert!(m.is_registered());
    match m.execute_hook_triggered(Some(s("juno.activated"))).unwrap() {
        HookEffect::Flush(bytes) => assert_eq!(bytes, vec![1, 2, 3]),
        _ => panic!("the buffer should be kept"),
    }
}

#[test]
fn successful_flush_settles_with_null_and_empties_the_buffer() {
    let mut m: Module = JunoModuleImpl::new();
    m.send_request(constants::request_types::REGISTER_HOOK_REQUEST, s("hr"), vec![1, 2], 3).unwrap();
    let step = m.on_data(hook_response(Some("juno.activated")));
    assert!(matches!(m.finish_step(step, WorkDone::Flushed(Ok(()))), Some((3, Ok(Reply::Null)))));
    match m.execute_hook_triggered(Some(s("juno.activated"))).unwrap() {
        HookEffect::Flush(bytes) => assert!(bytes.is_empty()),
        _ => panic!("expected an empty flush"),
    }
}

#[test]
fn requests_before_registration_are_held_back_in_order() {
    let mut m: Module = JunoModuleImpl::new();
    assert!(matches!(m.send_request(constants::request_types::REGISTER_HOOK_REQUEST, s("a"), vec![1, 2], 10), Ok(Dispatch::Buffered)));
    assert!(matches!(m.send_request(constants::request_types::REGISTER_HOOK_REQUEST, s("b"), vec![3], 11), Ok(Dispatch::Buffered)));
    match m.execute_hook_triggered(Some(s("juno.activated"))).unwrap() {
        HookEffect::Flush(bytes) => assert_eq!(bytes, vec![1, 2, 3]),
        _ => panic!("expected the held-back requests"),
    }
    assert!(m.is_registered());
    m.clear_message_buffer();
    match m.send_request(constants::request_types::REGISTER_HOOK_REQUEST, s("c"), vec![4], 12) {
        Ok(Dispatch::SendNow(bytes)) => assert_eq!(bytes, vec![4]),
        _ => panic!("expected the request to go out at once"),
    }
    match m.execute_hook_triggered(Some(s("juno.activated"))).unwrap() {
        HookEffect::Flush(bytes) => assert!(bytes.is_empty()),
        _ => panic!("expected an empty flush"),
    }
}

#[test]
fn registration_goes_out_at_once_and_only_once() {
    let mut m: Module = JunoModuleImpl::new();
    match m.send_request(constants::request_types::REGISTER_MODULE_REQUEST, s("r"), vec![9], 1) {
        Ok(Dispatch::SendNow(bytes)) => assert_eq!(bytes, vec![9]),
        _ => panic!("expected the registration to go out at once"),
    }
    m.execute_hook_triggered(Some(s("juno.activated")));
    match m.send_request(constants::request_types::REGISTER_MODULE_REQUEST, s("r2"), vec![9], 2) {
        Err(Error::Internal(msg)) => assert_eq!(msg, "Module already registered"),
        _ => panic!("expected a refusal"),
    }
    assert_eq!(m.take_request(&s("r2")), None);
    assert_eq!(m.take_request(&s("r")), Some(1));
}

#[test]
fn deactivation_marks_the_module_registered() {
    let mut m: Module = JunoModuleImpl::new();
    assert!(matches!(m.send_request(constants::request_types::REGISTER_HOOK_REQUEST, s("a"), vec![1], 1), Ok(Dispatch::Buffered)));
    assert!(matches!(m.execute_hook_triggered(Some(s("juno.deactivated"))), Ok(HookEffect::Nothing)));
    assert!(m.is_registered());
    assert!(matches!(m.send_request(constants::request_types::REGISTER_HOOK_REQUEST, s("b"), vec![2], 2), Ok(Dispatch::SendNow(_))));
}

#[test]
fn no_hook_does_nothing() {
    let mut m: Module = JunoModuleImpl::new();
    assert!(matches!(m.execute_hook_triggered(None), Ok(HookEffect::Nothing)));
    assert!(!m.is_registered());
}

#[test]
fn reply_reaches_the_request_once() {
    let mut m: Module = JunoModuleImpl::new();
    m.send_request(constants::request_types::REGISTER_HOOK_REQUEST, s("a"), vec![1], 7).unwrap();
    m.send_request(constants::request_types::REGISTER_HOOK_REQUEST, s("b"), vec![1], 8).unwrap();
    assert_eq!(m.take_request(&s("a")), Some(7));
    assert_eq!(m.take_request(&s("a")), None);
    assert_eq!(m.take_request(&s("b")), Some(8));
    assert_eq!(m.take_request(&s("zzz")), None);
}

#[test]
fn same_request_id_keeps_the_latest_sender() {
    let mut m: Module = JunoModuleImpl::new();
    m.send_request(constants::request_types::REGISTER_HOOK_REQUEST, s("a"), vec![1], 7).unwrap();
    m.send_request(constants::request_types::REGISTER_HOOK_REQUEST, s("a"), vec![1], 9).unwrap();
    assert_eq!(m.take_request(&s("a")), Some(9));
    assert_eq!(m.take_request(&s("a")), None);
}

#[test]
fn incoming_function_response_settles_with_its_data() {
    let mut m: Module = JunoModuleImpl::new();
    let step = m.on_data(BaseMessage::FunctionCallResponse { request_id: s("x"), data: Value::from(3) });
    match step {
        IncomingStep::Settle { request_id, outcome: Ok(Reply::Data(v)) } => {
            assert_eq!(request_id, "x");
            assert_eq!(v, Value::from(3));
        }
        _ => panic!("expected a settled reply"),
    }
}

#[test]
fn incoming_function_request_resolves_the_function() {
    let mut m: Module = JunoModuleImpl::new();
    m.declare_function(s("f"), two);
    let mut args = HashMap::new();
    args.insert(s("k"), Value::Bool(true));
    let step = m.on_data(BaseMessage::FunctionCallRequest { request_id: s("x"), function: s("f"), arguments: args });
    match step {
        IncomingStep::CallFunction { request_id, function: Ok(f), arguments } => {
            assert_eq!(request_id, "x");
            assert_eq!(arguments.get("k"), Some(&Value::Bool(true)));
            assert_eq!(f(arguments), Value::from(2));
        }
        _ => panic!("expected a function to call"),
    }
    let step = m.on_data(BaseMessage::FunctionCallRequest {
        request_id: s("y"),
        function: s("nope"),
        arguments: HashMap::new(),
    });
    assert!(matches!(step, IncomingStep::CallFunction { function: Err(Error::FromJuno(5)), .. }));
}

#[test]
fn incoming_error_settles_with_its_code() {
    let mut m: Module = JunoModuleImpl::new();
    let step = m.on_data(BaseMessage::Error { request_id: s("x"), error: 3 });
    match step {
        IncomingStep::Settle { request_id, outcome: Err(Error::FromJuno(code)) } => {
            assert_eq!(request_id, "x");
            assert_eq!(code, constants::errors::UNREGISTERED_MODULE);
        }
        _ => panic!("expected an error"),
    }
}

#[test]
fn other_incoming_messages_settle_with_null() {
    let mut m: Module = JunoModuleImpl::new();
    for message in [
        BaseMessage::RegisterModuleResponse { request_id: s("x") },
        BaseMessage::RegisterHookResponse { request_id: s("x") },
        BaseMessage::DeclareFunctionResponse { request_id: s("x"), function: s("f") },
        BaseMessage::Unknown { request_id: s("x") },
    ] {
        match m.on_data(message) {
            IncomingStep::Settle { request_id, outcome: Ok(Reply::Null) } => assert_eq!(request_id, "x"),
            _ => panic!("expected a null reply"),
        }
    }
}

#[test]
fn incoming_activation_flushes_the_buffer() {
    let mut m: Module = JunoModuleImpl::new();
    m.send_request(constants::request_types::REGISTER_HOOK_REQUEST, s("a"), vec![5, 6], 1).unwrap();
    match m.on_data(hook_response(Some("juno.activated"))) {
        IncomingStep::TriggerHook { request_id, effect: HookEffect::Flush(bytes), .. } => {
            assert_eq!(request_id, "hr");
            assert_eq!(bytes, vec![5, 6]);
        }
        _ => panic!("expected a flush"),
    }
    assert!(m.is_registered());
}

#[test]
fn incoming_hook_notifies_its_listeners() {
    let mut m: Module = JunoModuleImpl::new();
    m.register_hook(s("h"), listener_a);
    match m.on_data(hook_response(Some("h"))) {
        IncomingStep::TriggerHook { effect: HookEffect::Notify(listeners), data, .. } => {
            assert_eq!(listeners.len(), 1);
            assert_eq!(data, Value::Null);
        }
        _ => panic!("expected listeners"),
    }
    assert!(matches!(
        m.on_data(hook_response(None)),
        IncomingStep::TriggerHook { effect: HookEffect::Nothing, .. }
    ));
}

#[test]
fn reply_reaches_its_sender_after_other_operations() {
    let mut m: Module = JunoModuleImpl::new();
    m.send_request(constants::request_types::FUNCTION_CALL_REQUEST, s("a"), vec![1], 10).unwrap();
    m.declare_function(s("f"), one);
    m.register_hook(s("h"), listener_a);
    m.send_request(constants::request_types::REGISTER_HOOK_REQUEST, s("b"), vec![2], 20).unwrap();
    let step = m.on_data(BaseMessage::RegisterHookResponse { request_id: s("b") });
    assert!(matches!(m.finish_step(step, WorkDone::Completed), Some((20, Ok(Reply::Null)))));
    assert_eq!(m.take_request(&s("zzz")), None);
    let step = m.on_data(hook_response(Some("juno.activated")));
    assert!(m.finish_step(step, WorkDone::Flushed(Ok(()))).is_none());
    let step = m.on_data(BaseMessage::FunctionCallResponse { request_id: s("a"), data: Value::from(42) });
    match m.finish_step(step, WorkDone::Completed) {
        Some((10, Ok(Reply::Data(v)))) => assert_eq!(v, Value::from(42)),
        _ => panic!("expected the reply to reach the first request"),
    }
    assert_eq!(m.take_request(&s("a")), None);
}

#[test]
fn error_reply_reaches_its_sender_after_other_operations() {
    let mut m: Module = JunoModuleImpl::new();
    m.send_request(constants::request_types::FUNCTION_CALL_REQUEST, s("a"), vec![1], 10).unwrap();
    m.send_request(constants::request_types::FUNCTION_CALL_REQUEST, s("b"), vec![1], 11).unwrap();
    m.clear_message_buffer();
    let step = m.on_data(BaseMessage::Error { request_id: s("a"), error: constants::errors::UNKNOWN_MODULE });
    assert!(matches!(m.finish_step(step, WorkDone::Completed), Some((10, Err(Error::FromJuno(4))))));
    assert_eq!(m.take_request(&s("b")), Some(11));
}
