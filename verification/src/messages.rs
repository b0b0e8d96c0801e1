use vstd::prelude::*;
use std::collections::HashMap;
use crate::constants;

verus! {

/// A message exchanged with the bus.
#[allow(inconsistent_fields)]
pub enum BaseMessage {
    RegisterModuleRequest {
        request_id: String,
        module_id: String,
        version: String,
        dependencies: HashMap<String, String>,
    },
    RegisterModuleResponse { request_id: String },
    FunctionCallRequest { request_id: String, function: String, arguments: HashMap<String, serde_json::Value> },
    FunctionCallResponse { request_id: String, data: serde_json::Value },
    RegisterHookRequest { request_id: String, hook: String },
    RegisterHookResponse { request_id: String },
    TriggerHookRequest { request_id: String, hook: String, data: serde_json::Value },
    TriggerHookResponse { request_id: String, hook: Option<String>, data: serde_json::Value },
    DeclareFunctionRequest { request_id: String, function: String },
    DeclareFunctionResponse { request_id: String, function: String },
    Error { request_id: String, error: u32 },
    Unknown { request_id: String },
}

impl BaseMessage {
    /// The number that the `type` field carries for this message.
    pub open spec fn spec_type(&self) -> u64 {
        match self {
            BaseMessage::Unknown { .. } | BaseMessage::Error { .. } => constants::request_types::ERROR,
            BaseMessage::RegisterModuleRequest { .. } => constants::request_types::REGISTER_MODULE_REQUEST,
            BaseMessage::RegisterModuleResponse { .. } => constants::request_types::REGISTER_MODULE_RESPONSE,
            BaseMessage::FunctionCallRequest { .. } => constants::request_types::FUNCTION_CALL_REQUEST,
            BaseMessage::FunctionCallResponse { .. } => constants::request_types::FUNCTION_CALL_RESPONSE,
            BaseMessage::RegisterHookRequest { .. } => constants::request_types::REGISTER_HOOK_REQUEST,
            BaseMessage::RegisterHookResponse { .. } => constants::request_types::REGISTER_HOOK_RESPONSE,
            BaseMessage::TriggerHookRequest { .. } => constants::request_types::TRIGGER_HOOK_REQUEST,
            BaseMessage::TriggerHookResponse { .. } => constants::request_types::TRIGGER_HOOK_RESPONSE,
            BaseMessage::DeclareFunctionRequest { .. } => constants::request_types::DECLARE_FUNCTION_REQUEST,
            BaseMessage::DeclareFunctionResponse { .. } => constants::request_types::DECLARE_FUNCTION_RESPONSE,
        }
    }

    /// The request id that every message carries.
    pub open spec fn spec_request_id(&self) -> String {
        match self {
            BaseMessage::Unknown { request_id } => *request_id,
            BaseMessage::Error { request_id, .. } => *request_id,
            BaseMessage::RegisterModuleRequest { request_id, .. } => *request_id,
            BaseMessage::RegisterModuleResponse { request_id, .. } => *request_id,
            BaseMessage::FunctionCallRequest { request_id, .. } => *request_id,
            BaseMessage::FunctionCallResponse { request_id, .. } => *request_id,
            BaseMessage::RegisterHookRequest { request_id, .. } => *request_id,
            BaseMessage::RegisterHookResponse { request_id, .. } => *request_id,
            BaseMessage::TriggerHookRequest { request_id, .. } => *request_id,
            BaseMessage::TriggerHookResponse { request_id, .. } => *request_id,
            BaseMessage::DeclareFunctionRequest { request_id, .. } => *request_id,
            BaseMessage::DeclareFunctionResponse { request_id, .. } => *request_id,
        }
    }

    /// The number that the `type` field carries for this message.
    pub fn get_type(&self) -> (t: u64)
        ensures
            t == self.spec_type(),
    {
        match &self {
            BaseMessage::Unknown { .. } | BaseMessage::Error { .. } => constants::request_types::ERROR,
            BaseMessage::RegisterModuleRequest { .. } => constants::request_types::REGISTER_MODULE_REQUEST,
            BaseMessage::RegisterModuleResponse { .. } => constants::request_types::REGISTER_MODULE_RESPONSE,
            BaseMessage::FunctionCallRequest { .. } => 3,
            BaseMessage::FunctionCallResponse { .. } => 4,
            BaseMessage::RegisterHookRequest { .. } => 5,
            BaseMessage::RegisterHookResponse { .. } => 6,
            BaseMessage::TriggerHookRequest { .. } => 7,
            BaseMessage::TriggerHookResponse { .. } => 8,
            BaseMessage::DeclareFunctionRequest { .. } => 9,
            BaseMessage::DeclareFunctionResponse { .. } => 10,
        }
    }

    /// The request id of this message.
    pub fn get_request_id(&self) -> (id: &String)
        ensures
            *id == self.spec_request_id(),
    {
        match &self {
            BaseMessage::Unknown { request_id } => request_id,
            BaseMessage::Error { request_id, .. } => request_id,
            BaseMessage::RegisterModuleRequest { request_id, .. } => request_id,
            BaseMessage::RegisterModuleResponse { request_id, .. } => request_id,
            BaseMessage::FunctionCallRequest { request_id, .. } => request_id,
            BaseMessage::FunctionCallResponse { request_id, .. } => request_id,
            BaseMessage::RegisterHookRequest { request_id, .. } => request_id,
            BaseMessage::RegisterHookResponse { request_id, .. } => request_id,
            BaseMessage::TriggerHookRequest { request_id, .. } => request_id,
            BaseMessage::TriggerHookResponse { request_id, .. } => request_id,
            BaseMessage::DeclareFunctionRequest { request_id, .. } => request_id,
            BaseMessage::DeclareFunctionResponse { request_id, .. } => request_id,
        }
    }
}

} // verus!
