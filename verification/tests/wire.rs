use std::collections::HashMap;
use juno::constants::request_types;
use juno::messages::BaseMessage;
use juno::wire::{message_from_wire, to_wire_fields, WireFields};
use serde_json::Value;

fn s(x: &str) -> String {
    String::from(x)
}

fn empty_fields() -> WireFields {
    WireFields {
        message_type: None,
        request_id: None,
        module_id: None,
        version: None,
        dependencies: None,
        function: None,
        arguments: None,
        hook: None,
        data: None,
        error: None,
    }
}

fn same(a: &BaseMessage, b: &BaseMessage) -> bool {
    match (a, b) {
        (
            BaseMessage::RegisterModuleRequest { request_id: i1, module_id: m1, version: v1, dependencies: d1 },
            BaseMessage::RegisterModuleRequest { request_id: i2, module_id: m2, version: v2, dependencies: d2 },
        ) => i1 == i2 && m1 == m2 && v1 == v2 && d1 == d2,
        (BaseMessage::RegisterModuleResponse { request_id: i1 }, BaseMessage::RegisterModuleResponse { request_id: i2 }) => i1 == i2,
        (
            BaseMessage::FunctionCallRequest { request_id: i1, function: f1, arguments: a1 },
            BaseMessage::FunctionCallRequest { request_id: i2, function: f2, arguments: a2 },
        ) => i1 == i2 && f1 == f2 && a1 == a2,
        (BaseMessage::FunctionCallResponse { request_id: i1, data: d1 }, BaseMessage::FunctionCallResponse { request_id: i2, data: d2 }) => {
            i1 == i2 && d1 == d2
        }
        (BaseMessage::RegisterHookRequest { request_id: i1, hook: h1 }, BaseMessage::RegisterHookRequest { request_id: i2, hook: h2 }) => {
            i1 == i2 && h1 == h2
        }
        (BaseMessage::RegisterHookResponse { request_id: i1 }, BaseMessage::RegisterHookResponse { request_id: i2 }) => i1 == i2,
        (
            BaseMessage::TriggerHookRequest { request_id: i1, hook: h1, data: d1 },
            BaseMessage::TriggerHookRequest { request_id: i2, hook: h2, data: d2 },
        ) => i1 == i2 && h1 == h2 && d1 == d2,
        (
            BaseMessage::TriggerHookResponse { request_id: i1, hook: h1, data: d1 },
            BaseMessage::TriggerHookResponse { request_id: i2, hook: h2, data: d2 },
        ) => i1 == i2 && h1 == h2 && d1 == d2,
        (
            BaseMessage::DeclareFunctionRequest { request_id: i1, function: f1 },
            BaseMessage::DeclareFunctionRequest { request_id: i2, function: f2 },
        ) => i1 == i2 && f1 == f2,
        (
            BaseMessage::DeclareFunctionResponse { request_id: i1, function: f1 },
            BaseMessage::DeclareFunctionResponse { request_id: i2, function: f2 },
        ) => i1 == i2 && f1 == f2,
        (BaseMessage::Error { request_id: i1, error: e1 }, BaseMessage::Error { request_id: i2, error: e2 }) => i1 == i2 && e1 == e2,
        (BaseMessage::Unknown { request_id: i1 }, BaseMessage::Unknown { request_id: i2 }) => i1 == i2,
        _ => false,
    }
}

fn messages() -> Vec<BaseMessage> {
    let mut deps = HashMap::new();
    deps.insert(s("other"), s("1.0.0"));
    let mut args = HashMap::new();
    args.insert(s("x"), Value::from(3));
    vec![
        BaseMessage::RegisterModuleRequest { request_id: s("1"), module_id: s("m"), version: s("2.0.0"), dependencies: deps },
        BaseMessage::RegisterModuleResponse { request_id: s("2") },
        BaseMessage::FunctionCallRequest { request_id: s("3"), function: s("m.f"), arguments: args },
        BaseMessage::FunctionCallResponse { request_id: s("4"), data: Value::from("ok") },
        BaseMessage::RegisterHookRequest { request_id: s("5"), hook: s("h") },
        BaseMessage::RegisterHookResponse { request_id: s("6") },
        BaseMessage::TriggerHookRequest { request_id: s("7"), hook: s("h"), data: Value::Bool(true) },
        BaseMessage::TriggerHookResponse { request_id: s("8"), hook: Some(s("h")), data: Value::Null },
        BaseMessage::TriggerHookResponse { request_id: s("8b"), hook: None, data: Value::from(1) },
        BaseMessage::DeclareFunctionRequest { request_id: s("9"), function: s("f") },
        BaseMessage::DeclareFunctionResponse { request_id: s("10"), function: s("f") },
        BaseMessage::Error { request_id: s("11"), error: u32::MAX },
        BaseMessage::Unknown { request_id: s("12") },
    ]
}

#[test]
fn every_message_reads_back_from_its_fields() {
    for (original, copy) in messages().into_iter().zip(messages()) {
        let back = message_from_wire(to_wire_fields(copy));
        assert!(same(&original, &back));
    }
}

#[test]
fn fields_carry_the_type_and_request_id() {
    let f = to_wire_fields(BaseMessage::Error { request_id: s("e"), error: 7 });
    assert_eq!(f.message_type, Some(request_types::ERROR));
    assert_eq!(f.request_id, Some(s("e")));
    assert_eq!(f.error, Some(7));
    assert!(f.hook.is_none() && f.data.is_none() && f.function.is_none());
}

#[test]
fn missing_request_id_is_unknown_with_empty_id() {
    let f = WireFields { message_type: Some(request_types::REGISTER_MODULE_RESPONSE), ..empty_fields() };
    assert!(matches!(message_from_wire(f), BaseMessage::Unknown { request_id } if request_id.is_empty()));
}

#[test]
fn missing_or_unknown_type_is_unknown() {
    let f = WireFields { request_id: Some(s("r")), ..empty_fields() };
    assert!(matches!(message_from_wire(f), BaseMessage::Unknown { request_id } if request_id == "r"));
    let f = WireFields { message_type: Some(11), request_id: Some(s("r")), ..empty_fields() };
    assert!(matches!(message_from_wire(f), BaseMessage::Unknown { .. }));
}

#[test]
fn missing_field_is_unknown() {
    let f = WireFields {
        message_type: Some(request_types::FUNCTION_CALL_REQUEST),
        request_id: Some(s("r")),
        function: Some(s("f")),
        ..empty_fields()
    };
    assert!(matches!(message_from_wire(f), BaseMessage::Unknown { .. }));
    let f = WireFields {
        message_type: Some(request_types::TRIGGER_HOOK_RESPONSE),
        request_id: Some(s("r")),
        hook: Some(s("h")),
        ..empty_fields()
    };
    assert!(matches!(message_from_wire(f), BaseMessage::Unknown { .. }));
}

#[test]
fn error_code_must_fit_in_32_bits() {
    let f = WireFields {
        message_type: Some(request_types::ERROR),
        request_id: Some(s("r")),
        error: Some(1u64 << 32),
        ..empty_fields()
    };
    assert!(matches!(message_from_wire(f), BaseMessage::Unknown { .. }));
    let f = WireFields {
        message_type: Some(request_types::ERROR),
        request_id: Some(s("r")),
        error: Some(5),
        ..empty_fields()
    };
    assert!(matches!(message_from_wire(f), BaseMessage::Error { error: 5, .. }));
}
