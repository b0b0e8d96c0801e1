use vstd::prelude::*;
use crate::constants;
use crate::error::{Error, ErrorView, spec_error_code};
use crate::messages::BaseMessage;
use crate::module_impl::{
    ModuleState, HookEffect, HookEffectView, IncomingStep, Reply, WorkDone, activated_hook,
    deactivated_hook, flush_succeeded, is_incoming_step, is_lookup_result, opt_view, settlement,
    step_request_id, unknown_hook_message,
};

verus! {

/// A request as the bookkeeping sees it: its type, its request id, the
/// sender for its reply and its encoding.
pub type RequestRecord<S> = (u64, Seq<char>, S, Seq<u8>);

impl<F, H, S> ModuleState<F, H, S> {
    /// The state after the requests `reqs`, in order.
    pub open spec fn after_requests(self, reqs: Seq<RequestRecord<S>>) -> Self
        decreases reqs.len(),
    {
        if reqs.len() == 0 {
            self
        } else {
            let r = reqs.last();
            self.after_requests(reqs.drop_last()).after_request(r.0, r.1, r.2, r.3)
        }
    }
}

/// The encodings of `reqs`, one after the other.
pub open spec fn encodings<S>(reqs: Seq<RequestRecord<S>>) -> Seq<u8>
    decreases reqs.len(),
{
    if reqs.len() == 0 {
        Seq::empty()
    } else {
        encodings(reqs.drop_last()) + reqs.last().3
    }
}

/// Every message type is one of the eleven numbers 0 to 10, and type 0
/// belongs to error and unknown messages alone.
pub proof fn law_message_type_range(m: BaseMessage)
    ensures
        m.spec_type() <= 10,
        m.spec_type() == constants::request_types::ERROR <==> (m is Error || m is Unknown),
{
}

/// A declared function is found under its name; declaring it leaves every
/// other name as it was.
pub proof fn law_declared_function_found<F, H, S>(s: ModuleState<F, H, S>, name: Seq<char>, f: F, other: Seq<char>)
    ensures
        s.declare_function(name, f).lookup_function(name) == Some(f),
        other != name ==> s.declare_function(name, f).lookup_function(other) == s.lookup_function(other),
{
}

/// An undeclared function is answered with the error code for an unknown
/// function.
pub proof fn law_unknown_function_code<F, H, S>(s: ModuleState<F, H, S>, name: Seq<char>, r: Result<F, Error>)
    requires
        s.lookup_function(name) is None,
        is_lookup_result(s, name, r),
    ensures
        r matches Err(e) && spec_error_code(e@) == constants::errors::UNKNOWN_FUNCTION,
{
}

/// A new listener of a hook comes after the listeners registered before it;
/// the listeners of other hooks stay as they were.
pub proof fn law_listeners_in_registration_order<F, H, S>(
    s: ModuleState<F, H, S>,
    hook: Seq<char>,
    callback: H,
    other: Seq<char>,
)
    ensures
        s.register_hook(hook, callback).listeners(hook) == s.listeners(hook).push(callback),
        other != hook ==> s.register_hook(hook, callback).listeners(other) == s.listeners(other),
{
}

/// Once registered, a module refuses to be registered again, and the
/// refusal changes nothing.
pub proof fn law_no_second_registration<F, H, S>(
    s: ModuleState<F, H, S>,
    request_id: Seq<char>,
    reply_to: S,
    encoded: Seq<u8>,
)
    requires
        s.registered,
    ensures
        s.refuses_request(constants::request_types::REGISTER_MODULE_REQUEST),
        s.after_request(constants::request_types::REGISTER_MODULE_REQUEST, request_id, reply_to, encoded) == s,
{
}

/// The reply to an accepted request reaches the sender given with it, once:
/// after it is taken out, nothing waits under that request id.
pub proof fn law_reply_reaches_requester<F, H, S>(
    s: ModuleState<F, H, S>,
    request_type: u64,
    request_id: Seq<char>,
    reply_to: S,
    encoded: Seq<u8>,
)
    requires
        !s.refuses_request(request_type),
    ensures
        s.after_request(request_type, request_id, reply_to, encoded).requests.contains_key(request_id),
        s.after_request(request_type, request_id, reply_to, encoded).requests[request_id] == reply_to,
        !s.after_request(request_type, request_id, reply_to, encoded).without_request(
            request_id,
        ).requests.contains_key(request_id),
{
}

/// An operation on a module, as its bookkeeping sees it.
#[allow(inconsistent_fields)]
pub enum Operation<F, H, S> {
    DeclareFunction { name: Seq<char>, function: F },
    RegisterHook { hook: Seq<char>, callback: H },
    SendRequest { request_type: u64, request_id: Seq<char>, reply_to: S, encoded: Seq<u8> },
    HookTriggered { hook: Option<Seq<char>> },
    /// An incoming message, handled and settled; `flushed` tells whether
    /// the held-back requests went out in its course.
    Incoming { message: BaseMessage, flushed: bool },
    TakeRequest { request_id: Seq<char> },
    ClearBuffer,
}

impl<F, H, S> ModuleState<F, H, S> {
    /// The state after the operation `op`.
    pub open spec fn apply(self, op: Operation<F, H, S>) -> Self {
        match op {
            Operation::DeclareFunction { name, function } => self.declare_function(name, function),
            Operation::RegisterHook { hook, callback } => self.register_hook(hook, callback),
            Operation::SendRequest { request_type, request_id, reply_to, encoded } => self.after_request(
                request_type,
                request_id,
                reply_to,
                encoded,
            ),
            Operation::HookTriggered { hook } => self.after_hook(hook),
            Operation::Incoming { message, flushed } => self.after_message(message).after_work(
                message.spec_request_id()@,
                flushed,
            ),
            Operation::TakeRequest { request_id } => self.without_request(request_id),
            Operation::ClearBuffer => self.with_empty_buffer(),
        }
    }

    /// The state after the operations `ops`, in order.
    pub open spec fn after_operations(self, ops: Seq<Operation<F, H, S>>) -> Self
        decreases ops.len(),
    {
        if ops.len() == 0 {
            self
        } else {
            self.after_operations(ops.drop_last()).apply(ops.last())
        }
    }
}

/// The operation reuses or settles the request id `request_id`.
pub open spec fn touches_request<F, H, S>(op: Operation<F, H, S>, request_id: Seq<char>) -> bool {
    match op {
        Operation::SendRequest { request_id: id, .. } => id == request_id,
        Operation::Incoming { message, .. } => message.spec_request_id()@ == request_id,
        Operation::TakeRequest { request_id: id } => id == request_id,
        _ => false,
    }
}

proof fn lemma_pending_kept<F, H, S>(
    s: ModuleState<F, H, S>,
    request_id: Seq<char>,
    reply_to: S,
    ops: Seq<Operation<F, H, S>>,
)
    requires
        s.requests.contains_key(request_id),
        s.requests[request_id] == reply_to,
        forall|i: int| 0 <= i < ops.len() ==> !touches_request(#[trigger] ops[i], request_id),
    ensures
        s.after_operations(ops).requests.contains_key(request_id),
        s.after_operations(ops).requests[request_id] == reply_to,
    decreases ops.len(),
{
    if ops.len() > 0 {
        let init = ops.drop_last();
        assert forall|i: int| 0 <= i < init.len() implies !touches_request(#[trigger] init[i], request_id) by {
            assert(init[i] == ops[i]);
        }
        lemma_pending_kept(s, request_id, reply_to, init);
        assert(!touches_request(ops[ops.len() - 1], request_id));
    }
}

/// The reply to a request reaches the sender given with it: whatever other
/// operations come in between, as long as none reuses or settles its
/// request id, the sender waits under that id; the incoming message that
/// names the id settles it with the value [`message_settlement`] gives (the
/// data of a function's result, the code of an error message, ...), and
/// afterwards nothing waits under that id any more.
pub proof fn law_reply_reaches_requester_after_operations<F, H, S>(
    s: ModuleState<F, H, S>,
    request_type: u64,
    request_id: Seq<char>,
    reply_to: S,
    encoded: Seq<u8>,
    ops: Seq<Operation<F, H, S>>,
    message: BaseMessage,
    step: IncomingStep<F, H>,
    done: WorkDone,
)
    requires
        !s.refuses_request(request_type),
        forall|i: int| 0 <= i < ops.len() ==> !touches_request(#[trigger] ops[i], request_id),
        message.spec_request_id()@ == request_id,
        is_incoming_step(
            s.after_request(request_type, request_id, reply_to, encoded).after_operations(ops),
            message,
            step,
        ),
    ensures
        ({
            let t = s.after_request(request_type, request_id, reply_to, encoded).after_operations(ops);
            &&& t.requests.contains_key(request_id)
            &&& t.requests[request_id] == reply_to
            &&& step_request_id(step)@ == request_id
            &&& outcome_view(settlement(step, done)) == message_settlement(t, message, done)
            &&& (message matches BaseMessage::FunctionCallResponse { data, .. } ==> settlement(step, done)
                == Ok::<Reply, Error>(Reply::Data(data)))
            &&& (message matches BaseMessage::Error { error, .. } ==> outcome_view(settlement(step, done))
                == Err::<Reply, ErrorView>(ErrorView::FromJuno(error)))
            &&& !t.after_message(message).after_work(request_id, flush_succeeded(step, done)).requests.contains_key(
                request_id,
            )
        }),
{
    let s1 = s.after_request(request_type, request_id, reply_to, encoded);
    let t = s1.after_operations(ops);
    lemma_pending_kept(s1, request_id, reply_to, ops);
    law_incoming_message_settlement(t, message, step, done);
}

proof fn lemma_held_back<F, H, S>(s: ModuleState<F, H, S>, reqs: Seq<RequestRecord<S>>)
    requires
        !s.registered,
        forall|i: int| 0 <= i < reqs.len() ==> #[trigger] reqs[i].0 != constants::request_types::REGISTER_MODULE_REQUEST,
    ensures
        !s.after_requests(reqs).registered,
        s.after_requests(reqs).message_buffer == s.message_buffer + encodings(reqs),
    decreases reqs.len(),
{
    if reqs.len() > 0 {
        let init = reqs.drop_last();
        assert forall|i: int| 0 <= i < init.len() implies #[trigger] init[i].0
            != constants::request_types::REGISTER_MODULE_REQUEST by {
            assert(init[i] == reqs[i]);
        }
        lemma_held_back(s, init);
        assert(reqs[reqs.len() - 1].0 != constants::request_types::REGISTER_MODULE_REQUEST);
        assert(s.message_buffer + encodings(init) + reqs.last().3 =~= s.message_buffer + encodings(
            reqs,
        ));
    }
}

/// Until the bus registers the module, requests other than the registration
/// are held back in order; the activation hook hands back all of them, in
/// the order they were made, registers the module, and from then on every
/// request goes out at once.
pub proof fn law_held_back_until_activation<F, H, S>(
    s: ModuleState<F, H, S>,
    reqs: Seq<RequestRecord<S>>,
    later_type: u64,
)
    requires
        !s.registered,
        forall|i: int| 0 <= i < reqs.len() ==> #[trigger] reqs[i].0 != constants::request_types::REGISTER_MODULE_REQUEST,
    ensures
        s.after_requests(reqs).message_buffer == s.message_buffer + encodings(reqs),
        s.after_requests(reqs).hook_effect(Some(activated_hook())) == Ok::<HookEffectView<H>, ErrorView>(
            HookEffectView::Flush(s.message_buffer + encodings(reqs)),
        ),
        s.after_requests(reqs).after_hook(Some(activated_hook())).registered,
        s.after_requests(reqs).after_hook(Some(activated_hook())).sends_at_once(later_type),
{
    lemma_held_back(s, reqs);
}

/// Nothing makes a registered module unregistered again.
pub proof fn law_registration_is_kept<F, H, S>(
    s: ModuleState<F, H, S>,
    name: Seq<char>,
    f: F,
    callback: H,
    request_type: u64,
    request_id: Seq<char>,
    reply_to: S,
    encoded: Seq<u8>,
    hook: Option<Seq<char>>,
    message: BaseMessage,
)
    requires
        s.registered,
    ensures
        s.declare_function(name, f).registered,
        s.register_hook(name, callback).registered,
        s.after_request(request_type, request_id, reply_to, encoded).registered,
        s.after_hook(hook).registered,
        s.after_message(message).registered,
        s.without_request(request_id).registered,
        s.with_empty_buffer().registered,
{
}

/// The activation hook registers the module; a hook other than the
/// activation and deactivation hooks leaves the state as it was, and when
/// it has no listeners its trigger is answered with an error.
pub proof fn law_hook_state<F, H, S>(s: ModuleState<F, H, S>, hook: Seq<char>)
    ensures
        s.after_hook(Some(activated_hook())).registered,
        hook != activated_hook() && hook != deactivated_hook() ==> s.after_hook(Some(hook)) == s,
        hook != activated_hook() && hook != deactivated_hook() && !s.hook_listeners.contains_key(hook)
            ==> s.hook_effect(Some(hook)) == Err::<HookEffectView<H>, ErrorView>(
            ErrorView::Internal(unknown_hook_message(hook)),
        ),
        s.after_hook(None) == s,
{
}

/// The view of what a request is settled with.
pub open spec fn outcome_view(o: Result<Reply, Error>) -> Result<Reply, ErrorView> {
    match o {
        Ok(r) => Ok(r),
        Err(e) => Err(e@),
    }
}

/// What the request of an incoming `message` is settled with, when the
/// outside work came out as `done`: the data of a function's result, the
/// error code of an error message, the error of a trigger of a hook without
/// listeners or of a failed flush, and `null` otherwise.
pub open spec fn message_settlement<F, H, S>(s: ModuleState<F, H, S>, message: BaseMessage, done: WorkDone) -> Result<Reply, ErrorView> {
    match message {
        BaseMessage::FunctionCallResponse { data, .. } => Ok(Reply::Data(data)),
        BaseMessage::Error { error, .. } => Err(ErrorView::FromJuno(error)),
        BaseMessage::TriggerHookResponse { hook, .. } => match s.hook_effect(opt_view(hook)) {
            Err(ev) => Err(ev),
            Ok(HookEffectView::Flush(_)) => match done {
                WorkDone::Flushed(Err(e)) => Err(e@),
                _ => Ok(Reply::Null),
            },
            Ok(_) => Ok(Reply::Null),
        },
        _ => Ok(Reply::Null),
    }
}

/// The step for an incoming message settles the request that the message
/// names, with the value [`message_settlement`] gives; the buffer is emptied
/// only when the activation hook's flush went out.
pub proof fn law_incoming_message_settlement<F, H, S>(
    s: ModuleState<F, H, S>,
    message: BaseMessage,
    step: IncomingStep<F, H>,
    done: WorkDone,
)
    requires
        is_incoming_step(s, message, step),
    ensures
        step_request_id(step) == message.spec_request_id(),
        outcome_view(settlement(step, done)) == message_settlement(s, message, done),
        flush_succeeded(step, done) ==> (message matches BaseMessage::TriggerHookResponse { hook, .. }
            && opt_view(hook) == Some(activated_hook())),
{
    match message {
        BaseMessage::TriggerHookResponse { hook, .. } => {
            match s.hook_effect(opt_view(hook)) {
                Ok(ev) => {
                    if let IncomingStep::TriggerHook { effect, .. } = step {
                        assert(effect@ == ev);
                        match effect {
                            HookEffect::Flush(_) => {},
                            HookEffect::Nothing => {},
                            HookEffect::Notify(_) => {},
                        }
                    }
                },
                Err(_) => {},
            }
        },
        _ => {},
    }
}

/// A new module is not registered, holds nothing back and knows no
/// function, so that every call to it is answered as unknown.
pub proof fn law_initial_state<F, H, S>(name: Seq<char>)
    ensures
        !ModuleState::<F, H, S>::initial().registered,
        ModuleState::<F, H, S>::initial().message_buffer.len() == 0,
        ModuleState::<F, H, S>::initial().lookup_function(name) is None,
        ModuleState::<F, H, S>::initial().listeners(name).len() == 0,
{
}

/// The bus's reply to this module's own trigger of a hook (a reply that
/// names no hook) settles the request with `null` and changes nothing.
pub proof fn law_own_trigger_settles_with_null<F, H, S>(
    s: ModuleState<F, H, S>,
    request_id: String,
    data: serde_json::Value,
    step: IncomingStep<F, H>,
    done: WorkDone,
)
    requires
        is_incoming_step(s, BaseMessage::TriggerHookResponse { request_id, hook: None, data }, step),
    ensures
        step_request_id(step) == request_id,
        settlement(step, done) == Ok::<Reply, Error>(Reply::Null),
        s.after_message(BaseMessage::TriggerHookResponse { request_id, hook: None, data }) == s,
{
}

/// A triggered hook is settled with an error only in two cases: the hook
/// has no listeners (and is neither the activation nor the deactivation
/// hook), or it is the activation hook and writing the held-back requests
/// failed with that very error.
pub proof fn law_trigger_errors<F, H, S>(
    s: ModuleState<F, H, S>,
    request_id: String,
    hook: Option<String>,
    data: serde_json::Value,
    step: IncomingStep<F, H>,
    done: WorkDone,
)
    requires
        is_incoming_step(s, BaseMessage::TriggerHookResponse { request_id, hook, data }, step),
    ensures
        settlement(step, done) matches Err(e) ==> {
            ||| (hook matches Some(h) && h@ != "juno.activated"@ && h@ != "juno.deactivated"@
                && !s.hook_listeners.contains_key(h@)
                && e@ == ErrorView::Internal("No listener is registered for the hook "@ + h@))
            ||| (hook matches Some(h) && h@ == "juno.activated"@ && done == WorkDone::Flushed(Err(e)))
        },
        hook is None ==> settlement(step, done) == Ok::<Reply, Error>(Reply::Null),
        (hook matches Some(h) && s.hook_listeners.contains_key(h@) && h@ != "juno.activated"@) ==> settlement(
            step,
            done,
        ) == Ok::<Reply, Error>(Reply::Null),
{
    if let IncomingStep::TriggerHook { effect, .. } = step {
        match effect {
            HookEffect::Flush(_) => {},
            HookEffect::Nothing => {},
            HookEffect::Notify(_) => {},
        }
    }
}

/// Only a registration is ever refused. Any other request is recorded
/// under its id, goes out at once when the module is registered and is
/// appended to the held-back requests when it is not; nothing else changes.
pub proof fn law_only_registration_refused<F, H, S>(
    s: ModuleState<F, H, S>,
    request_type: u64,
    request_id: Seq<char>,
    reply_to: S,
    encoded: Seq<u8>,
)
    ensures
        s.refuses_request(request_type) ==> request_type == 1 && s.registered,
        request_type == 1 ==> s.sends_at_once(request_type),
        request_type != 1 ==> (s.sends_at_once(request_type) <==> s.registered),
        request_type != 1 ==> s.after_request(request_type, request_id, reply_to, encoded) == (
        ModuleState {
            requests: s.requests.insert(request_id, reply_to),
            message_buffer: if s.registered {
                s.message_buffer
            } else {
                s.message_buffer + encoded
            },
            ..s
        }),
        request_type == 1 && !s.registered ==> s.after_request(request_type, request_id, reply_to, encoded)
            == (ModuleState { requests: s.requests.insert(request_id, reply_to), ..s }),
{
}

/// An incoming message changes nothing but whether the module is
/// registered, and that only when it is the trigger of the activation or
/// the deactivation hook.
pub proof fn law_message_changes_only_registration<F, H, S>(s: ModuleState<F, H, S>, m: BaseMessage)
    ensures
        s.after_message(m).message_buffer == s.message_buffer,
        s.after_message(m).requests == s.requests,
        s.after_message(m).functions == s.functions,
        s.after_message(m).hook_listeners == s.hook_listeners,
        s.after_message(m).registered <==> (s.registered || (m matches BaseMessage::TriggerHookResponse {
            hook: Some(h),
            ..
        } && (h@ == "juno.activated"@ || h@ == "juno.deactivated"@))),
{
}

/// Each message has its own type number, the one its `type` field carries
/// on the wire.
pub proof fn law_message_type_numbers(m: BaseMessage)
    ensures
        m is RegisterModuleRequest ==> m.spec_type() == 1,
        m is RegisterModuleResponse ==> m.spec_type() == 2,
        m is FunctionCallRequest ==> m.spec_type() == 3,
        m is FunctionCallResponse ==> m.spec_type() == 4,
        m is RegisterHookRequest ==> m.spec_type() == 5,
        m is RegisterHookResponse ==> m.spec_type() == 6,
        m is TriggerHookRequest ==> m.spec_type() == 7,
        m is TriggerHookResponse ==> m.spec_type() == 8,
        m is DeclareFunctionRequest ==> m.spec_type() == 9,
        m is DeclareFunctionResponse ==> m.spec_type() == 10,
        m is Error ==> m.spec_type() == 0,
        m is Unknown ==> m.spec_type() == 0,
        m matches BaseMessage::Error { request_id, .. } ==> m.spec_request_id() == request_id,
        m matches BaseMessage::Unknown { request_id } ==> m.spec_request_id() == request_id,
        m matches BaseMessage::FunctionCallResponse { request_id, .. } ==> m.spec_request_id() == request_id,
        m matches BaseMessage::FunctionCallRequest { request_id, .. } ==> m.spec_request_id() == request_id,
        m matches BaseMessage::TriggerHookResponse { request_id, .. } ==> m.spec_request_id() == request_id,
        m matches BaseMessage::RegisterModuleRequest { request_id, .. } ==> m.spec_request_id() == request_id,
        m matches BaseMessage::RegisterModuleResponse { request_id } ==> m.spec_request_id() == request_id,
        m matches BaseMessage::RegisterHookRequest { request_id, .. } ==> m.spec_request_id() == request_id,
        m matches BaseMessage::RegisterHookResponse { request_id } ==> m.spec_request_id() == request_id,
        m matches BaseMessage::TriggerHookRequest { request_id, .. } ==> m.spec_request_id() == request_id,
        m matches BaseMessage::DeclareFunctionRequest { request_id, .. } ==> m.spec_request_id() == request_id,
        m matches BaseMessage::DeclareFunctionResponse { request_id, .. } ==> m.spec_request_id() == request_id,
{
}

/// A request asked of the bus is settled with what the bus answers: the
/// data of a function response, the code of an error message, and `null`
/// for any other message that is neither a function call nor a hook
/// trigger; a function call the bus asks for is settled with `null` once
/// the reply was sent, and it names the function looked up by name.
pub proof fn law_incoming_outcomes<F, H, S>(
    s: ModuleState<F, H, S>,
    m: BaseMessage,
    step: IncomingStep<F, H>,
    done: WorkDone,
)
    requires
        is_incoming_step(s, m, step),
    ensures
        step_request_id(step) == m.spec_request_id(),
        m matches BaseMessage::FunctionCallResponse { data, .. } ==> settlement(step, done) == Ok::<Reply, Error>(
            Reply::Data(data),
        ),
        m matches BaseMessage::Error { error, .. } ==> (settlement(step, done) matches Err(e) && e@
            == ErrorView::FromJuno(error)),
        (m is RegisterModuleRequest || m is RegisterModuleResponse || m is RegisterHookRequest
            || m is RegisterHookResponse || m is TriggerHookRequest || m is DeclareFunctionRequest
            || m is DeclareFunctionResponse || m is Unknown) ==> settlement(step, done) == Ok::<Reply, Error>(
            Reply::Null,
        ),
        m matches BaseMessage::FunctionCallRequest { function, arguments, .. } ==> {
            &&& step matches IncomingStep::CallFunction { function: f, arguments: a, .. }
            &&& settlement(step, done) == Ok::<Reply, Error>(Reply::Null)
            &&& (s.functions.contains_key(function@) ==> step->function == Ok::<F, Error>(
                s.functions[function@],
            ))
            &&& (!s.functions.contains_key(function@) ==> (step->function matches Err(e) && e@
                == ErrorView::FromJuno(5)))
            &&& step->arguments == arguments
        },
{
}

} // verus!
