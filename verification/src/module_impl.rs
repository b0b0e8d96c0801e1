use vstd::prelude::*;
use std::collections::HashMap;
use crate::constants;
use crate::error::{Error, ErrorView, error_code, spec_error_code};
use crate::messages::BaseMessage;
use crate::registry::Registry;

verus! {

/// The hook by which the bus tells a module that it is registered.
pub open spec fn activated_hook() -> Seq<char> {
    "juno.activated"@
}

/// The hook by which the bus tells a module that it was deactivated.
pub open spec fn deactivated_hook() -> Seq<char> {
    "juno.deactivated"@
}

/// The description of the error for a trigger of a hook without listeners.
pub open spec fn unknown_hook_message(hook: Seq<char>) -> Seq<char> {
    "No listener is registered for the hook "@ + hook
}

/// The description of the error returned for a second registration.
pub open spec fn already_registered_message() -> Seq<char> {
    "Module already registered"@
}

/// The names of an optional string.
pub open spec fn opt_view(o: Option<String>) -> Option<Seq<char>> {
    match o {
        Some(s) => Some(s@),
        None => None,
    }
}

/// The abstract state of a module: whether the bus has registered it, the
/// encoded requests held back until then, the senders waiting for the reply
/// to each request id, the declared functions and the listeners of each hook.
pub struct ModuleState<F, H, S> {
    pub registered: bool,
    pub message_buffer: Seq<u8>,
    pub requests: Map<Seq<char>, S>,
    pub functions: Map<Seq<char>, F>,
    pub hook_listeners: Map<Seq<char>, Seq<H>>,
}

/// What a triggered hook asks of the caller.
pub enum HookEffect<H> {
    /// Nothing is left to do.
    Nothing,
    /// Send these bytes (the requests held back so far) to the bus, and
    /// clear the buffer once they are sent.
    Flush(Vec<u8>),
    /// Call each of these listeners, in this order, with the hook's data.
    Notify(Vec<H>),
}

/// The abstract value of a [`HookEffect`].
pub enum HookEffectView<H> {
    Nothing,
    Flush(Seq<u8>),
    Notify(Seq<H>),
}

impl<H> View for HookEffect<H> {
    type V = HookEffectView<H>;

    open spec fn view(&self) -> HookEffectView<H> {
        match self {
            HookEffect::Nothing => HookEffectView::Nothing,
            HookEffect::Flush(b) => HookEffectView::Flush(b@),
            HookEffect::Notify(l) => HookEffectView::Notify(l@),
        }
    }
}

/// What to do with an encoded request.
pub enum Dispatch {
    /// Write these bytes to the connection now.
    SendNow(Vec<u8>),
    /// The bytes were kept in the buffer until the module is registered.
    Buffered,
}

/// The value a reply settles a pending request with.
pub enum Reply {
    /// The data of a function's result.
    Data(serde_json::Value),
    /// The JSON `null` value.
    Null,
}

/// What an incoming message asks of the caller. Once the outside work of
/// a step is done, [`JunoModuleImpl::finish_step`] settles its request.
pub enum IncomingStep<F, H> {
    /// Nothing to do but settle the request `request_id` with `outcome`.
    Settle { request_id: String, outcome: Result<Reply, Error> },
    /// The bus asks this module to run a function: call `function` (or
    /// answer with the error) with `arguments` and send the reply built by
    /// [`function_call_reply`].
    CallFunction { request_id: String, function: Result<F, Error>, arguments: HashMap<String, serde_json::Value> },
    /// A hook was triggered: carry out `effect` with `data`.
    TriggerHook { request_id: String, effect: HookEffect<H>, data: serde_json::Value },
}

/// How the outside work of a step came out.
pub enum WorkDone {
    /// The work was done, or there was none.
    Completed,
    /// The held-back requests of a flush were written, with this result.
    Flushed(Result<(), Error>),
}

/// The request id of a step.
pub open spec fn step_request_id<F, H>(step: IncomingStep<F, H>) -> String {
    match step {
        IncomingStep::Settle { request_id, .. } => request_id,
        IncomingStep::CallFunction { request_id, .. } => request_id,
        IncomingStep::TriggerHook { request_id, .. } => request_id,
    }
}

/// The held-back requests of a flush went out.
pub open spec fn flush_succeeded<F, H>(step: IncomingStep<F, H>, done: WorkDone) -> bool {
    &&& step matches IncomingStep::TriggerHook { effect: HookEffect::Flush(_), .. }
    &&& done matches WorkDone::Flushed(Ok(_))
}

/// What the request of a step is settled with once its outside work came
/// out as `done`: the outcome the step names; `null` after a function call
/// the bus asked for; after a triggered hook, `null`, or the error of a
/// failed flush.
pub open spec fn settlement<F, H>(step: IncomingStep<F, H>, done: WorkDone) -> Result<Reply, Error> {
    match step {
        IncomingStep::Settle { outcome, .. } => outcome,
        IncomingStep::CallFunction { .. } => Ok(Reply::Null),
        IncomingStep::TriggerHook { effect, .. } => match effect {
            HookEffect::Flush(_) => match done {
                WorkDone::Flushed(Err(e)) => Err(e),
                _ => Ok(Reply::Null),
            },
            _ => Ok(Reply::Null),
        },
    }
}

impl<F, H, S> ModuleState<F, H, S> {
    /// A module that has just been created.
    pub open spec fn initial() -> Self {
        ModuleState {
            registered: false,
            message_buffer: Seq::empty(),
            requests: Map::empty(),
            functions: Map::empty(),
            hook_listeners: Map::empty(),
        }
    }

    /// The listeners of `hook`, in the order they were registered.
    pub open spec fn listeners(self, hook: Seq<char>) -> Seq<H> {
        if self.hook_listeners.contains_key(hook) {
            self.hook_listeners[hook]
        } else {
            Seq::empty()
        }
    }

    pub open spec fn declare_function(self, name: Seq<char>, function: F) -> Self {
        ModuleState { functions: self.functions.insert(name, function), ..self }
    }

    pub open spec fn register_hook(self, hook: Seq<char>, callback: H) -> Self {
        ModuleState {
            hook_listeners: self.hook_listeners.insert(hook, self.listeners(hook).push(callback)),
            ..self
        }
    }

    /// A request of this type is refused: the module is already registered
    /// and asks to be registered again.
    pub open spec fn refuses_request(self, request_type: u64) -> bool {
        request_type == constants::request_types::REGISTER_MODULE_REQUEST && self.registered
    }

    /// A request of this type goes out at once rather than into the buffer.
    pub open spec fn sends_at_once(self, request_type: u64) -> bool {
        self.registered || request_type == constants::request_types::REGISTER_MODULE_REQUEST
    }

    pub open spec fn after_request(
        self,
        request_type: u64,
        request_id: Seq<char>,
        reply_to: S,
        encoded: Seq<u8>,
    ) -> Self {
        if self.refuses_request(request_type) {
            self
        } else if self.sends_at_once(request_type) {
            ModuleState { requests: self.requests.insert(request_id, reply_to), ..self }
        } else {
            ModuleState {
                requests: self.requests.insert(request_id, reply_to),
                message_buffer: self.message_buffer + encoded,
                ..self
            }
        }
    }

    /// The function declared under `name`, if any.
    pub open spec fn lookup_function(self, name: Seq<char>) -> Option<F> {
        if self.functions.contains_key(name) {
            Some(self.functions[name])
        } else {
            None
        }
    }

    /// What a trigger of `hook` asks for: nothing for no hook or for the
    /// deactivation hook, the held-back requests for the activation hook,
    /// the listeners of any other hook, and an error for a hook that has
    /// no listeners.
    pub open spec fn hook_effect(self, hook: Option<Seq<char>>) -> Result<HookEffectView<H>, ErrorView> {
        match hook {
            None => Ok(HookEffectView::Nothing),
            Some(h) => if h == activated_hook() {
                Ok(HookEffectView::Flush(self.message_buffer))
            } else if h == deactivated_hook() {
                Ok(HookEffectView::Nothing)
            } else if self.hook_listeners.contains_key(h) {
                Ok(HookEffectView::Notify(self.hook_listeners[h]))
            } else {
                Err(ErrorView::Internal(unknown_hook_message(h)))
            },
        }
    }

    pub open spec fn after_hook(self, hook: Option<Seq<char>>) -> Self {
        match hook {
            Some(h) => if h == activated_hook() || h == deactivated_hook() {
                ModuleState { registered: true, ..self }
            } else {
                self
            },
            None => self,
        }
    }

    pub open spec fn without_request(self, request_id: Seq<char>) -> Self {
        ModuleState { requests: self.requests.remove(request_id), ..self }
    }

    pub open spec fn with_empty_buffer(self) -> Self {
        ModuleState { message_buffer: Seq::empty(), ..self }
    }

    /// The state after an incoming message.
    pub open spec fn after_message(self, message: BaseMessage) -> Self {
        match message {
            BaseMessage::TriggerHookResponse { hook, .. } => self.after_hook(opt_view(hook)),
            _ => self,
        }
    }

    /// The state once the outside work of a step for `request_id` is done:
    /// the request is settled, and the buffer is emptied when the held-back
    /// requests went out.
    pub open spec fn after_work(self, request_id: Seq<char>, flushed: bool) -> Self {
        if flushed {
            self.without_request(request_id).with_empty_buffer()
        } else {
            self.without_request(request_id)
        }
    }
}

/// `r` is the result of looking up the function `name` in state `s`:
/// the function, or the error with the code for an unknown function.
pub open spec fn is_lookup_result<F, H, S>(s: ModuleState<F, H, S>, name: Seq<char>, r: Result<F, Error>) -> bool {
    match s.lookup_function(name) {
        Some(f) => r == Ok::<F, Error>(f),
        None => (r matches Err(e) && e@ == ErrorView::FromJuno(constants::errors::UNKNOWN_FUNCTION)),
    }
}

/// `step` is what the incoming `message` asks of a module in state `s`.
pub open spec fn is_incoming_step<F, H, S>(s: ModuleState<F, H, S>, message: BaseMessage, step: IncomingStep<F, H>) -> bool {
    match message {
        BaseMessage::FunctionCallResponse { request_id, data } => step == IncomingStep::<F, H>::Settle {
            request_id,
            outcome: Ok(Reply::Data(data)),
        },
        BaseMessage::FunctionCallRequest { request_id, function, arguments } => match step {
            IncomingStep::CallFunction { request_id: id, function: f, arguments: args } => id == request_id
                && args == arguments && is_lookup_result(s, function@, f),
            _ => false,
        },
        BaseMessage::TriggerHookResponse { request_id, hook, data } => match s.hook_effect(opt_view(hook)) {
            Ok(ev) => match step {
                IncomingStep::TriggerHook { request_id: id, effect, data: d } => id == request_id && d == data
                    && effect@ == ev,
                _ => false,
            },
            Err(ev) => match step {
                IncomingStep::Settle { request_id: id, outcome } => id == request_id
                    && (outcome matches Err(e) && e@ == ev),
                _ => false,
            },
        },
        BaseMessage::Error { request_id, error } => match step {
            IncomingStep::Settle { request_id: id, outcome } => id == request_id
                && (outcome matches Err(e) && e@ == ErrorView::FromJuno(error)),
            _ => false,
        },
        _ => match step {
            IncomingStep::Settle { request_id: id, outcome } => id == message.spec_request_id()
                && (outcome matches Ok(Reply::Null)),
            _ => false,
        },
    }
}

/// The bookkeeping of a module connected to the bus. `F` is the type of
/// declared functions, `H` that of hook listeners and `S` that of the
/// senders through which a reply reaches the code that made a request.
pub struct JunoModuleImpl<F, H, S> {
    registered: bool,
    message_buffer: Vec<u8>,
    requests: Registry<S>,
    functions: Registry<F>,
    hook_listeners: Registry<Vec<H>>,
}

impl<F, H, S> View for JunoModuleImpl<F, H, S> {
    type V = ModuleState<F, H, S>;

    closed spec fn view(&self) -> ModuleState<F, H, S> {
        ModuleState {
            registered: self.registered,
            message_buffer: self.message_buffer@,
            requests: self.requests@,
            functions: self.functions@,
            hook_listeners: self.hook_listeners@.map_values(|l: Vec<H>| l@),
        }
    }
}

fn copy_vec<T: Copy>(v: &Vec<T>) -> (r: Vec<T>)
    ensures
        r@ == v@,
{
    let mut r: Vec<T> = Vec::new();
    let mut i: usize = 0;
    while i < v.len()
        invariant
            0 <= i <= v@.len(),
            r@ == v@.subrange(0, i as int),
        decreases v@.len() - i,
    {
        r.push(v[i]);
        i += 1;
    }
    assert(r@ =~= v@);
    r
}

/// The reply to a function call request `request_id`: the function's
/// result, or the error with its code.
pub fn function_call_reply(request_id: String, result: Result<serde_json::Value, Error>) -> (m: BaseMessage)
    ensures
        m.spec_request_id() == request_id,
        match result {
            Ok(v) => m == BaseMessage::FunctionCallResponse { request_id, data: v },
            Err(e) => m == BaseMessage::Error { request_id, error: spec_error_code(e@) },
        },
{
    match result {
        Ok(value) => BaseMessage::FunctionCallResponse { request_id, data: value },
        Err(error) => {
            let code = error_code(&error);
            BaseMessage::Error { request_id, error: code }
        },
    }
}

impl<F: Copy, H: Copy, S> JunoModuleImpl<F, H, S> {
    /// The three maps are well formed.
    pub closed spec fn wf(&self) -> bool {
        &&& self.requests.wf()
        &&& self.functions.wf()
        &&& self.hook_listeners.wf()
    }

    /// A module that is not registered and knows no function, hook or request.
    pub fn new() -> (m: Self)
        ensures
            m.wf(),
            m@ == ModuleState::<F, H, S>::initial(),
    {
        let m = JunoModuleImpl {
            registered: false,
            message_buffer: Vec::new(),
            requests: Registry::new(),
            functions: Registry::new(),
            hook_listeners: Registry::new(),
        };
        assert(m@.hook_listeners =~= Map::empty());
        assert(m@.message_buffer =~= Seq::empty());
        m
    }

    /// Whether the bus has registered this module.
    pub fn is_registered(&self) -> (b: bool)
        ensures
            b == self@.registered,
    {
        self.registered
    }

    /// Declares `function` under `fn_name`, replacing an earlier one.
    pub fn declare_function(&mut self, fn_name: String, function: F)
        requires
            old(self).wf(),
        ensures
            final(self).wf(),
            final(self)@ == old(self)@.declare_function(fn_name@, function),
    {
        let ghost name = fn_name@;
        self.functions.insert(fn_name, function);
        assert(self@ == old(self)@.declare_function(name, function));
    }

    /// Adds `callback` after the listeners already registered for `hook`.
    pub fn register_hook(&mut self, hook: String, callback: H)
        requires
            old(self).wf(),
        ensures
            final(self).wf(),
            final(self)@ == old(self)@.register_hook(hook@, callback),
    {
        let ghost h = hook@;
        let ghost before = old(self)@;
        let listeners = match self.hook_listeners.remove(&hook) {
            Some(mut listeners) => {
                listeners.push(callback);
                listeners
            },
            None => {
                let mut listeners = Vec::new();
                listeners.push(callback);
                listeners
            },
        };
        assert(listeners@ =~= before.listeners(h).push(callback));
        self.hook_listeners.insert(hook, listeners);
        assert(self@.hook_listeners =~= before.register_hook(h, callback).hook_listeners);
    }

    /// The function declared under `function`, or the error with the code
    /// for an unknown function.
    pub fn execute_function_call(&self, function: &String) -> (r: Result<F, Error>)
        requires
            self.wf(),
        ensures
            is_lookup_result(self@, function@, r),
    {
        match self.functions.get(function) {
            Some(f) => Ok(*f),
            None => Err(Error::FromJuno(constants::errors::UNKNOWN_FUNCTION)),
        }
    }

    /// Records a request of type `request_type` and id `request_id` that
    /// is about to go out, whose encoding is `encoded` and whose reply is to
    /// reach `reply_to`. A second registration is refused; before
    /// registration, other requests are held back in the buffer.
    pub fn send_request(&mut self, request_type: u64, request_id: String, encoded: Vec<u8>, reply_to: S) -> (r: Result<Dispatch, Error>)
        requires
            old(self).wf(),
        ensures
            final(self).wf(),
            final(self)@ == old(self)@.after_request(request_type, request_id@, reply_to, encoded@),
            old(self)@.refuses_request(request_type) ==> (r matches Err(e) && e@
                == ErrorView::Internal(already_registered_message())),
            !old(self)@.refuses_request(request_type) && old(self)@.sends_at_once(request_type)
                ==> r == Ok::<Dispatch, Error>(Dispatch::SendNow(encoded)),
            !old(self)@.sends_at_once(request_type) ==> r matches Ok(Dispatch::Buffered),
            request_type != 1 ==> r is Ok,
            request_type != 1 && old(self)@.registered ==> r == Ok::<Dispatch, Error>(
                Dispatch::SendNow(encoded),
            ),
            request_type != 1 ==> final(self)@.requests == old(self)@.requests.insert(request_id@, reply_to),
            final(self)@.registered == old(self)@.registered,
    {
        if request_type == constants::request_types::REGISTER_MODULE_REQUEST && self.registered {
            return Err(Error::Internal("Module already registered".to_owned()));
        }
        self.requests.insert(request_id, reply_to);
        if self.registered || request_type == constants::request_types::REGISTER_MODULE_REQUEST {
            Ok(Dispatch::SendNow(encoded))
        } else {
            let mut encoded = encoded;
            self.message_buffer.append(&mut encoded);
            Ok(Dispatch::Buffered)
        }
    }

    /// Handles a triggered hook: the activation hook registers the module
    /// and hands back the buffered requests, the deactivation hook marks the
    /// module registered as well, any other hook hands back its listeners,
    /// and a hook without listeners is an error.
    pub fn execute_hook_triggered(&mut self, hook: Option<String>) -> (r: Result<HookEffect<H>, Error>)
        requires
            old(self).wf(),
        ensures
            final(self).wf(),
            final(self)@ == old(self)@.after_hook(opt_view(hook)),
            match r {
                Ok(effect) => old(self)@.hook_effect(opt_view(hook)) == Ok::<HookEffectView<H>, ErrorView>(effect@),
                Err(e) => old(self)@.hook_effect(opt_view(hook)) == Err::<HookEffectView<H>, ErrorView>(e@),
            },
    {
        match hook {
            None => Ok(HookEffect::Nothing),
            Some(hook) => {
                if hook == "juno.activated".to_owned() {
                    self.registered = true;
                    Ok(HookEffect::Flush(self.message_buffer.clone()))
                } else if hook == "juno.deactivated".to_owned() {
                    self.registered = true;
                    Ok(HookEffect::Nothing)
                } else {
                    match self.hook_listeners.get(&hook) {
                        Some(listeners) => Ok(HookEffect::Notify(copy_vec(listeners))),
                        None => {
                            let message = "No listener is registered for the hook ".to_owned().concat(
                                hook.as_str(),
                            );
                            Err(Error::Internal(message))
                        },
                    }
                }
            },
        }
    }

    /// Decides what an incoming message asks of this module.
    pub fn on_data(&mut self, message: BaseMessage) -> (step: IncomingStep<F, H>)
        requires
            old(self).wf(),
        ensures
            final(self).wf(),
            final(self)@ == old(self)@.after_message(message),
            is_incoming_step(old(self)@, message, step),
            !(message is TriggerHookResponse) ==> final(self)@ == old(self)@,
            final(self)@.registered != old(self)@.registered ==> (message matches BaseMessage::TriggerHookResponse { hook: Some(h), .. }
                && (h@ == "juno.activated"@ || h@ == "juno.deactivated"@)),
            final(self)@.message_buffer == old(self)@.message_buffer,
            final(self)@.requests == old(self)@.requests,
            final(self)@.functions == old(self)@.functions,
            final(self)@.hook_listeners == old(self)@.hook_listeners,
    {
        match message {
            BaseMessage::FunctionCallResponse { request_id, data } => IncomingStep::Settle {
                request_id,
                outcome: Ok(Reply::Data(data)),
            },
            BaseMessage::FunctionCallRequest { request_id, function, arguments } => {
                let function = self.execute_function_call(&function);
                IncomingStep::CallFunction { request_id, function, arguments }
            },
            BaseMessage::TriggerHookResponse { request_id, hook, data } => {
                match self.execute_hook_triggered(hook) {
                    Ok(effect) => IncomingStep::TriggerHook { request_id, effect, data },
                    Err(error) => IncomingStep::Settle { request_id, outcome: Err(error) },
                }
            },
            BaseMessage::Error { request_id, error } => IncomingStep::Settle {
                request_id,
                outcome: Err(Error::FromJuno(error)),
            },
            other => {
                let request_id = other.get_request_id().clone();
                IncomingStep::Settle { request_id, outcome: Ok(Reply::Null) }
            },
        }
    }

    /// Settles the request of `step` once its outside work came out as
    /// `done`: empties the buffer when the held-back requests went out, and
    /// takes out the sender waiting for the request, handing it back with
    /// the value it is owed.
    pub fn finish_step(&mut self, step: IncomingStep<F, H>, done: WorkDone) -> (r: Option<(S, Result<Reply, Error>)>)
        requires
            old(self).wf(),
        ensures
            final(self).wf(),
            final(self)@ == old(self)@.after_work(step_request_id(step)@, flush_succeeded(step, done)),
            old(self)@.requests.contains_key(step_request_id(step)@) ==> r == Some(
                (old(self)@.requests[step_request_id(step)@], settlement(step, done)),
            ),
            !old(self)@.requests.contains_key(step_request_id(step)@) ==> r is None,
            old(self)@.requests.contains_key(step_request_id(step)@) ==> (r matches Some((sender, _))
                && sender == old(self)@.requests[step_request_id(step)@]),
            step matches IncomingStep::TriggerHook { effect: HookEffect::Nothing, .. } ==> (r is None || r
                matches Some((_, Ok(Reply::Null)))),
            step matches IncomingStep::TriggerHook { effect: HookEffect::Notify(_), .. } ==> (r is None || r
                matches Some((_, Ok(Reply::Null)))),
            step is CallFunction ==> (r is None || r matches Some((_, Ok(Reply::Null)))),
            r matches Some((_, Err(e))) ==> (step is TriggerHook ==> (done matches WorkDone::Flushed(Err(fe))
                && fe == e && step matches IncomingStep::TriggerHook { effect: HookEffect::Flush(_), .. })),
            final(self)@.registered == old(self)@.registered,
    {
        let (request_id, outcome) = match step {
            IncomingStep::Settle { request_id, outcome } => (request_id, outcome),
            IncomingStep::CallFunction { request_id, .. } => (request_id, Ok(Reply::Null)),
            IncomingStep::TriggerHook { request_id, effect, .. } => {
                let outcome = match effect {
                    HookEffect::Flush(_) => match done {
                        WorkDone::Flushed(Err(e)) => Err(e),
                        WorkDone::Flushed(Ok(_)) => {
                            self.clear_message_buffer();
                            Ok(Reply::Null)
                        },
                        WorkDone::Completed => Ok(Reply::Null),
                    },
                    _ => Ok(Reply::Null),
                };
                (request_id, outcome)
            },
        };
        match self.take_request(&request_id) {
            Some(sender) => Some((sender, outcome)),
            None => None,
        }
    }

    /// Takes out the sender waiting for the reply to `request_id`, if any.
    pub fn take_request(&mut self, request_id: &String) -> (r: Option<S>)
        requires
            old(self).wf(),
        ensures
            final(self).wf(),
            final(self)@ == old(self)@.without_request(request_id@),
            r matches Some(s) ==> old(self)@.requests.contains_key(request_id@) && s
                == old(self)@.requests[request_id@],
            r is None ==> !old(self)@.requests.contains_key(request_id@),
    {
        self.requests.remove(request_id)
    }

    /// Empties the buffer of held-back requests, once they were sent.
    pub fn clear_message_buffer(&mut self)
        requires
            old(self).wf(),
        ensures
            final(self).wf(),
            final(self)@ == old(self)@.with_empty_buffer(),
    {
        self.message_buffer.clear();
        assert(self@.message_buffer =~= Seq::<u8>::empty());
    }
}

} // verus!
