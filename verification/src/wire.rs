use vstd::prelude::*;
use std::collections::HashMap;
use crate::constants::request_types;
use crate::messages::BaseMessage;

verus! {

/// The fields of a message as they travel on the wire, each present or
/// not; the field names are those of `constants::request_keys`.
pub struct WireFields {
    pub message_type: Option<u64>,
    pub request_id: Option<String>,
    pub module_id: Option<String>,
    pub version: Option<String>,
    pub dependencies: Option<HashMap<String, String>>,
    pub function: Option<String>,
    pub arguments: Option<HashMap<String, serde_json::Value>>,
    pub hook: Option<String>,
    pub data: Option<serde_json::Value>,
    pub error: Option<u64>,
}

/// Only the type and the request id are present.
pub open spec fn spec_bare_fields(message_type: u64, request_id: String) -> WireFields {
    WireFields {
        message_type: Some(message_type),
        request_id: Some(request_id),
        module_id: None,
        version: None,
        dependencies: None,
        function: None,
        arguments: None,
        hook: None,
        data: None,
        error: None,
    }
}

/// The fields that carry `m`: its type, its request id and the fields of
/// its variant.
pub open spec fn spec_wire_fields(m: BaseMessage) -> WireFields {
    let bare = spec_bare_fields(m.spec_type(), m.spec_request_id());
    match m {
        BaseMessage::RegisterModuleRequest { module_id, version, dependencies, .. } => WireFields {
            module_id: Some(module_id),
            version: Some(version),
            dependencies: Some(dependencies),
            ..bare
        },
        BaseMessage::FunctionCallRequest { function, arguments, .. } => WireFields {
            function: Some(function),
            arguments: Some(arguments),
            ..bare
        },
        BaseMessage::FunctionCallResponse { data, .. } => WireFields { data: Some(data), ..bare },
        BaseMessage::RegisterHookRequest { hook, .. } => WireFields { hook: Some(hook), ..bare },
        BaseMessage::TriggerHookRequest { hook, data, .. } => WireFields { hook: Some(hook), data: Some(data), ..bare },
        BaseMessage::TriggerHookResponse { hook, data, .. } => WireFields { hook, data: Some(data), ..bare },
        BaseMessage::DeclareFunctionRequest { function, .. } => WireFields { function: Some(function), ..bare },
        BaseMessage::DeclareFunctionResponse { function, .. } => WireFields { function: Some(function), ..bare },
        BaseMessage::Error { error, .. } => WireFields { error: Some(error as u64), ..bare },
        _ => bare,
    }
}

/// The message that fields with request id `request_id` carry: the variant
/// that the type names, when every field it needs is present (and an error
/// code fits in 32 bits); otherwise an unknown message.
pub open spec fn spec_message_from_wire(f: WireFields, request_id: String) -> BaseMessage {
    let unknown = BaseMessage::Unknown { request_id };
    match f.message_type {
        None => unknown,
        Some(t) => if t == request_types::ERROR {
            match f.error {
                Some(e) => if e <= u32::MAX {
                    BaseMessage::Error { request_id, error: e as u32 }
                } else {
                    unknown
                },
                None => unknown,
            }
        } else if t == request_types::REGISTER_MODULE_REQUEST {
            match (f.module_id, f.version, f.dependencies) {
                (Some(module_id), Some(version), Some(dependencies)) => BaseMessage::RegisterModuleRequest {
                    request_id,
                    module_id,
                    version,
                    dependencies,
                },
                _ => unknown,
            }
        } else if t == request_types::REGISTER_MODULE_RESPONSE {
            BaseMessage::RegisterModuleResponse { request_id }
        } else if t == request_types::FUNCTION_CALL_REQUEST {
            match (f.function, f.arguments) {
                (Some(function), Some(arguments)) => BaseMessage::FunctionCallRequest { request_id, function, arguments },
                _ => unknown,
            }
        } else if t == request_types::FUNCTION_CALL_RESPONSE {
            match f.data {
                Some(data) => BaseMessage::FunctionCallResponse { request_id, data },
                None => unknown,
            }
        } else if t == request_types::REGISTER_HOOK_REQUEST {
            match f.hook {
                Some(hook) => BaseMessage::RegisterHookRequest { request_id, hook },
                None => unknown,
            }
        } else if t == request_types::REGISTER_HOOK_RESPONSE {
            BaseMessage::RegisterHookResponse { request_id }
        } else if t == request_types::TRIGGER_HOOK_REQUEST {
            match (f.hook, f.data) {
                (Some(hook), Some(data)) => BaseMessage::TriggerHookRequest { request_id, hook, data },
                _ => unknown,
            }
        } else if t == request_types::TRIGGER_HOOK_RESPONSE {
            match f.data {
                Some(data) => BaseMessage::TriggerHookResponse { request_id, hook: f.hook, data },
                None => unknown,
            }
        } else if t == request_types::DECLARE_FUNCTION_REQUEST {
            match f.function {
                Some(function) => BaseMessage::DeclareFunctionRequest { request_id, function },
                None => unknown,
            }
        } else if t == request_types::DECLARE_FUNCTION_RESPONSE {
            match f.function {
                Some(function) => BaseMessage::DeclareFunctionResponse { request_id, function },
                None => unknown,
            }
        } else {
            unknown
        },
    }
}

fn bare_fields(message_type: u64, request_id: String) -> (f: WireFields)
    ensures
        f == spec_bare_fields(message_type, request_id),
{
    WireFields {
        message_type: Some(message_type),
        request_id: Some(request_id),
        module_id: None,
        version: None,
        dependencies: None,
        function: None,
        arguments: None,
        hook: None,
        data: None,
        error: None,
    }
}

/// The fields that carry `message` on the wire.
pub fn to_wire_fields(message: BaseMessage) -> (f: WireFields)
    ensures
        f == spec_wire_fields(message),
        f.message_type == Some(message.spec_type()),
        f.request_id == Some(message.spec_request_id()),
{
    let message_type = message.get_type();
    match message {
        BaseMessage::RegisterModuleRequest { request_id, module_id, version, dependencies } => WireFields {
            module_id: Some(module_id),
            version: Some(version),
            dependencies: Some(dependencies),
            ..bare_fields(message_type, request_id)
        },
        BaseMessage::RegisterModuleResponse { request_id } => bare_fields(message_type, request_id),
        BaseMessage::FunctionCallRequest { request_id, function, arguments } => WireFields {
            function: Some(function),
            arguments: Some(arguments),
            ..bare_fields(message_type, request_id)
        },
        BaseMessage::FunctionCallResponse { request_id, data } => WireFields {
            data: Some(data),
            ..bare_fields(message_type, request_id)
        },
        BaseMessage::RegisterHookRequest { request_id, hook } => WireFields {
            hook: Some(hook),
            ..bare_fields(message_type, request_id)
        },
        BaseMessage::RegisterHookResponse { request_id } => bare_fields(message_type, request_id),
        BaseMessage::TriggerHookRequest { request_id, hook, data } => WireFields {
            hook: Some(hook),
            data: Some(data),
            ..bare_fields(message_type, request_id)
        },
        BaseMessage::TriggerHookResponse { request_id, hook, data } => WireFields {
            hook,
            data: Some(data),
            ..bare_fields(message_type, request_id)
        },
        BaseMessage::DeclareFunctionRequest { request_id, function } => WireFields {
            function: Some(function),
            ..bare_fields(message_type, request_id)
        },
        BaseMessage::DeclareFunctionResponse { request_id, function } => WireFields {
            function: Some(function),
            ..bare_fields(message_type, request_id)
        },
        BaseMessage::Error { request_id, error } => WireFields {
            error: Some(error as u64),
            ..bare_fields(message_type, request_id)
        },
        BaseMessage::Unknown { request_id } => bare_fields(message_type, request_id),
    }
}

/// The message that `fields` carry; without a request id, an unknown
/// message with an empty request id.
pub fn message_from_wire(fields: WireFields) -> (m: BaseMessage)
    ensures
        match fields.request_id {
            Some(id) => m == spec_message_from_wire(fields, id),
            None => m matches BaseMessage::Unknown { request_id } && request_id@.len() == 0,
        },
{
    let WireFields {
        message_type,
        request_id,
        module_id,
        version,
        dependencies,
        function,
        arguments,
        hook,
        data,
        error,
    } = fields;
    let request_id = match request_id {
        Some(id) => id,
        None => return BaseMessage::Unknown { request_id: String::new() },
    };
    let t = match message_type {
        Some(t) => t,
        None => return BaseMessage::Unknown { request_id },
    };
    if t == request_types::ERROR {
        match error {
            Some(e) => if e <= 0xffff_ffff {
                BaseMessage::Error { request_id, error: e as u32 }
            } else {
                BaseMessage::Unknown { request_id }
            },
            None => BaseMessage::Unknown { request_id },
        }
    } else if t == request_types::REGISTER_MODULE_REQUEST {
        match (module_id, version, dependencies) {
            (Some(module_id), Some(version), Some(dependencies)) => BaseMessage::RegisterModuleRequest {
                request_id,
                module_id,
                version,
                dependencies,
            },
            _ => BaseMessage::Unknown { request_id },
        }
    } else if t == request_types::REGISTER_MODULE_RESPONSE {
        BaseMessage::RegisterModuleResponse { request_id }
    } else if t == request_types::FUNCTION_CALL_REQUEST {
        match (function, arguments) {
            (Some(function), Some(arguments)) => BaseMessage::FunctionCallRequest { request_id, function, arguments },
            _ => BaseMessage::Unknown { request_id },
        }
    } else if t == request_types::FUNCTION_CALL_RESPONSE {
        match data {
            Some(data) => BaseMessage::FunctionCallResponse { request_id, data },
            None => BaseMessage::Unknown { request_id },
        }
    } else if t == request_types::REGISTER_HOOK_REQUEST {
        match hook {
            Some(hook) => BaseMessage::RegisterHookRequest { request_id, hook },
            None => BaseMessage::Unknown { request_id },
        }
    } else if t == request_types::REGISTER_HOOK_RESPONSE {
        BaseMessage::RegisterHookResponse { request_id }
    } else if t == request_types::TRIGGER_HOOK_REQUEST {
        match (hook, data) {
            (Some(hook), Some(data)) => BaseMessage::TriggerHookRequest { request_id, hook, data },
            _ => BaseMessage::Unknown { request_id },
        }
    } else if t == request_types::TRIGGER_HOOK_RESPONSE {
        match data {
            Some(data) => BaseMessage::TriggerHookResponse { request_id, hook, data },
            None => BaseMessage::Unknown { request_id },
        }
    } else if t == request_types::DECLARE_FUNCTION_REQUEST {
        match function {
            Some(function) => BaseMessage::DeclareFunctionRequest { request_id, function },
            None => BaseMessage::Unknown { request_id },
        }
    } else if t == request_types::DECLARE_FUNCTION_RESPONSE {
        match function {
            Some(function) => BaseMessage::DeclareFunctionResponse { request_id, function },
            None => BaseMessage::Unknown { request_id },
        }
    } else {
        BaseMessage::Unknown { request_id }
    }
}

/// Every message read back from the fields that carry it is the same
/// message.
pub proof fn law_wire_round_trip(m: BaseMessage)
    ensures
        spec_wire_fields(m).request_id == Some(m.spec_request_id()),
        spec_message_from_wire(spec_wire_fields(m), m.spec_request_id()) == m,
{
}

/// Each field of a message is written under its own name, with the
/// message's own type number and request id.
pub proof fn law_wire_fields_of_message(m: BaseMessage)
    ensures
        spec_wire_fields(m).request_id == Some(m.spec_request_id()),
        spec_wire_fields(m).message_type == Some(m.spec_type()),
        match m {
            BaseMessage::RegisterModuleRequest { module_id, version, dependencies, .. } => {
                let f = spec_wire_fields(m);
                &&& f.message_type == Some(1u64)
                &&& f.module_id == Some(module_id)
                &&& f.version == Some(version)
                &&& f.dependencies == Some(dependencies)
                &&& f.function is None && f.arguments is None && f.hook is None && f.data is None && f.error is None
            },
            BaseMessage::RegisterModuleResponse { .. } => {
                let f = spec_wire_fields(m);
                &&& f.message_type == Some(2u64)
                &&& f.module_id is None && f.version is None && f.function is None && f.data is None
            },
            BaseMessage::FunctionCallRequest { function, arguments, .. } => {
                let f = spec_wire_fields(m);
                &&& f.message_type == Some(3u64)
                &&& f.function == Some(function)
                &&& f.arguments == Some(arguments)
                &&& f.module_id is None && f.version is None && f.hook is None && f.data is None
            },
            BaseMessage::FunctionCallResponse { data, .. } => {
                let f = spec_wire_fields(m);
                &&& f.message_type == Some(4u64)
                &&& f.data == Some(data)
                &&& f.hook is None && f.function is None && f.error is None
            },
            BaseMessage::RegisterHookRequest { hook, .. } => {
                let f = spec_wire_fields(m);
                &&& f.message_type == Some(5u64)
                &&& f.hook == Some(hook)
                &&& f.data is None && f.function is None
            },
            BaseMessage::RegisterHookResponse { .. } => {
                let f = spec_wire_fields(m);
                &&& f.message_type == Some(6u64)
                &&& f.hook is None && f.data is None
            },
            BaseMessage::TriggerHookRequest { hook, data, .. } => {
                let f = spec_wire_fields(m);
                &&& f.message_type == Some(7u64)
                &&& f.hook == Some(hook)
                &&& f.data == Some(data)
            },
            BaseMessage::TriggerHookResponse { hook, data, .. } => {
                let f = spec_wire_fields(m);
                &&& f.message_type == Some(8u64)
                &&& f.hook == hook
                &&& f.data == Some(data)
                &&& f.function is None
            },
            BaseMessage::DeclareFunctionRequest { function, .. } => {
                let f = spec_wire_fields(m);
                &&& f.message_type == Some(9u64)
                &&& f.function == Some(function)
                &&& f.arguments is None && f.hook is None
            },
            BaseMessage::DeclareFunctionResponse { function, .. } => {
                let f = spec_wire_fields(m);
                &&& f.message_type == Some(10u64)
                &&& f.function == Some(function)
                &&& f.arguments is None && f.hook is None
            },
            BaseMessage::Error { error, .. } => {
                let f = spec_wire_fields(m);
                &&& f.message_type == Some(0u64)
                &&& f.error == Some(error as u64)
                &&& f.data is None && f.function is None
            },
            BaseMessage::Unknown { .. } => {
                let f = spec_wire_fields(m);
                &&& f.message_type == Some(0u64)
                &&& f.error is None
            },
        },
{
}

/// Each type number decodes to its own variant, carrying the fields read
/// off the wire, whenever the fields that variant needs are present; the
/// request id is kept; and a decoded message other than an unknown one has
/// the type number it was read with.
pub proof fn law_message_from_wire_by_type(f: WireFields, id: String)
    ensures
        spec_message_from_wire(f, id).spec_request_id() == id,
        !(spec_message_from_wire(f, id) is Unknown) ==> f.message_type == Some(
            spec_message_from_wire(f, id).spec_type(),
        ),
        f.message_type == Some(0u64) && f.error is Some && f.error.unwrap() <= u32::MAX
            ==> spec_message_from_wire(f, id) == (BaseMessage::Error { request_id: id, error: f.error.unwrap() as u32 }),
        f.message_type == Some(1u64) && f.module_id is Some && f.version is Some && f.dependencies is Some
            ==> spec_message_from_wire(f, id) == (BaseMessage::RegisterModuleRequest {
            request_id: id,
            module_id: f.module_id.unwrap(),
            version: f.version.unwrap(),
            dependencies: f.dependencies.unwrap(),
        }),
        f.message_type == Some(2u64) ==> spec_message_from_wire(f, id) == (BaseMessage::RegisterModuleResponse {
            request_id: id,
        }),
        f.message_type == Some(3u64) && f.function is Some && f.arguments is Some ==> spec_message_from_wire(f, id)
            == (BaseMessage::FunctionCallRequest {
            request_id: id,
            function: f.function.unwrap(),
            arguments: f.arguments.unwrap(),
        }),
        f.message_type == Some(4u64) && f.data is Some ==> spec_message_from_wire(f, id)
            == (BaseMessage::FunctionCallResponse { request_id: id, data: f.data.unwrap() }),
        f.message_type == Some(5u64) && f.hook is Some ==> spec_message_from_wire(f, id)
            == (BaseMessage::RegisterHookRequest { request_id: id, hook: f.hook.unwrap() }),
        f.message_type == Some(6u64) ==> spec_message_from_wire(f, id) == (BaseMessage::RegisterHookResponse {
            request_id: id,
        }),
        f.message_type == Some(7u64) && f.hook is Some && f.data is Some ==> spec_message_from_wire(f, id)
            == (BaseMessage::TriggerHookRequest { request_id: id, hook: f.hook.unwrap(), data: f.data.unwrap() }),
        f.message_type == Some(8u64) && f.data is Some ==> spec_message_from_wire(f, id)
            == (BaseMessage::TriggerHookResponse { request_id: id, hook: f.hook, data: f.data.unwrap() }),
        f.message_type == Some(9u64) && f.function is Some ==> spec_message_from_wire(f, id)
            == (BaseMessage::DeclareFunctionRequest { request_id: id, function: f.function.unwrap() }),
        f.message_type == Some(10u64) && f.function is Some ==> spec_message_from_wire(f, id)
            == (BaseMessage::DeclareFunctionResponse { request_id: id, function: f.function.unwrap() }),
        (f.message_type is None || f.message_type.unwrap() > 10) ==> spec_message_from_wire(f, id)
            == (BaseMessage::Unknown { request_id: id }),
{
}

} // verus!
