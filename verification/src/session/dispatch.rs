//! Dispatching one operation.

use crate::session::retention::RetainedInvocation;
use crate::session::state;
use crate::session::state::{
    CloseSignal, InvocationSnapshot, SessionModel, SessionOperation, SessionState,
};
use crate::session::types::{
    CallbackRegistrationToken, JsRef, JsValue, SessionCallbackErrorStyle, SessionError,
    SessionNativeCall, SessionOperationDispatch, SessionReceiver, SessionStatus,
};
use crate::text;
use vstd::prelude::*;
use vstd::string::StringExecFns;

verus! {

/// One argument of a native function.
#[derive(Clone, Copy, Debug, PartialEq, Eq, Structural)]
pub enum NativeArgument {
    /// A proxy of the host for this invocation.
    HostProxy,
    Number(u32),
    /// The `handle` property of a value.
    Handle(JsValue),
    Value(JsValue),
}

/// The receiver is a leased resource, which native code knows by its handle.
pub open spec fn leased_receiver(operation: SessionOperation) -> bool {
    operation.receiver matches Some(SessionReceiver::Resource(_))
}

/// The arguments of a native function: the host, then the session and the
/// transfer that carry callback leases, then the arguments of the call.
pub open spec fn native_arguments(
    operation: SessionOperation,
    generation: u32,
    transfer_id: Option<u32>,
    args: Seq<JsValue>,
) -> Seq<NativeArgument> {
    (if operation.native_call is HostAndArguments {
        seq![NativeArgument::HostProxy]
    } else {
        Seq::empty()
    }) + (if operation.callback_transfer && transfer_id is Some {
        seq![NativeArgument::Number(generation), NativeArgument::Number(transfer_id->0)]
    } else {
        Seq::empty()
    }) + Seq::new(
        args.len(),
        |i: int|
            if i == 0 && leased_receiver(operation) {
                NativeArgument::Handle(args[i])
            } else {
                NativeArgument::Value(args[i])
            },
    )
}

/// What a dispatch does next.
pub enum DispatchStep {
    /// Call the native function.
    Native { callback: Option<JsRef>, arguments: Vec<NativeArgument> },
    /// Run a host callback.
    Callback {
        callback_type_id: u32,
        method_id: u32,
        error_style: SessionCallbackErrorStyle,
        asynchronous: bool,
    },
    /// Pull from an input stream of the host, or cancel it.
    Stream { cancel: bool },
    /// See whether the result is a promise.
    CheckPromise(JsValue),
    /// Follow the promise.
    Attach(JsValue),
    /// See whether the result is an error.
    CheckError(JsValue),
    /// Track the value that the result carries.
    Track(JsValue),
    /// Undo the call, then answer.
    RollBack(Result<JsValue, SessionError>),
    Answer(Result<JsValue, SessionError>),
}

/// How an operation that the host performs starts; a native one calls its own
/// function instead.
pub open spec fn host_step(dispatch: SessionOperationDispatch) -> Option<DispatchStep> {
    match dispatch {
        SessionOperationDispatch::NativeSync | SessionOperationDispatch::NativeAsync => None,
        SessionOperationDispatch::CallbackHostSync { callback_type_id, method_id, error_style } =>
        Some(
            DispatchStep::Callback {
                callback_type_id,
                method_id,
                error_style,
                asynchronous: false,
            },
        ),
        SessionOperationDispatch::CallbackHostAsync { callback_type_id, method_id, error_style } =>
        Some(
            DispatchStep::Callback { callback_type_id, method_id, error_style, asynchronous: true },
        ),
        SessionOperationDispatch::InputStreamHostPull => Some(
            DispatchStep::Stream { cancel: false },
        ),
        SessionOperationDispatch::InputStreamHostCancel => Some(
            DispatchStep::Stream { cancel: true },
        ),
    }
}

/// One operation under way.
pub struct Dispatch {
    pub operation: u32,
    pub snapshot: InvocationSnapshot,
    pub scoped: Vec<CallbackRegistrationToken>,
}

/// What a mode of invocation is called.
pub open spec fn mode_name(asynchronous: bool) -> Seq<char> {
    if asynchronous {
        "async"@
    } else {
        "sync"@
    }
}

/// The session method of a mode of invocation.
pub open spec fn mode_method(asynchronous: bool) -> Seq<char> {
    if asynchronous {
        "invokeAsync"@
    } else {
        "invokeSync"@
    }
}

impl Dispatch {
    /// The operation is one of this session.
    pub open spec fn fits(self, session: SessionModel) -> bool {
        self.operation < session.operations.len()
    }

    pub open spec fn target(self, session: SessionModel) -> SessionOperation {
        session.operations[self.operation as int]
    }

    /// Starts to dispatch an operation, if the session is open and the operation
    /// exists and is invoked in its own mode.
    pub fn begin(state: &SessionState, operation_id: u32, asynchronous: bool) -> (r: Result<
        Dispatch,
        SessionError,
    >)
        ensures
            match r {
                Ok(dispatch) => {
                    &&& !state@.closed
                    &&& dispatch.fits(state@)
                    &&& dispatch.operation == operation_id
                    &&& dispatch.target(state@).dispatch.settles_later() == asynchronous
                    &&& dispatch.snapshot.records(state@)
                    &&& dispatch.scoped@.len() == 0
                },
                Err(e) => if state@.closed {
                    e.is(SessionStatus::GenericFailure, state::closed_reason())
                } else if operation_id < state@.operations.len() {
                    let settles_later =
                        state@.operations[operation_id as int].dispatch.settles_later();
                    &&& settles_later != asynchronous
                    &&& e.is(
                        SessionStatus::InvalidArg,
                        "operation "@ + text::decimal(operation_id as int) + " is "@ + mode_name(
                            settles_later,
                        ) + ", but was invoked through "@ + mode_method(asynchronous),
                    )
                } else {
                    e.is(
                        SessionStatus::InvalidArg,
                        "unknown UniFFI operation ID "@ + text::decimal(operation_id as int),
                    )
                },
            },
    {
        if let Err(error) = state.ensure_open() {
            return Err(error);
        }
        let is_async: bool = match state.operation(operation_id) {
            Err(error) => return Err(error),
            Ok(operation) => operation.dispatch.is_async(),
        };
        if asynchronous != is_async {
            let mut reason: String = "operation ".to_owned();
            text::push_decimal(&mut reason, operation_id as u64);
            reason.append(" is ");
            reason.append(
                if is_async {
                    "async"
                } else {
                    "sync"
                },
            );
            reason.append(", but was invoked through ");
            reason.append(
                if asynchronous {
                    "invokeAsync"
                } else {
                    "invokeSync"
                },
            );
            return Err(SessionError { status: SessionStatus::InvalidArg, reason });
        }
        Ok(Dispatch { operation: operation_id, snapshot: state.snapshot(), scoped: Vec::new() })
    }

    /// The leases of the call were taken, or could not be.
    pub fn leases_taken(
        &mut self,
        state: &mut SessionState,
        args: &Vec<JsValue>,
        retained: Result<RetainedInvocation, SessionError>,
    ) -> (step: DispatchStep)
        requires
            old(self).fits(old(state)@),
        ensures
            final(self).operation == old(self).operation,
            final(self).snapshot == old(self).snapshot,
            match retained {
                Err(e) => {
                    &&& step == DispatchStep::RollBack(Err(e))
                    &&& final(state)@ == old(state)@
                    &&& final(self).scoped@ == old(self).scoped@
                },
                Ok(kept) => {
                    let operation = old(self).target(old(state)@);
                    &&& final(self).scoped@ == kept.scoped_callbacks@
                    &&& if operation.callback_transfer && kept.transfer_id is None {
                        &&& step matches DispatchStep::RollBack(Err(e))
                        &&& e.is(
                            SessionStatus::GenericFailure,
                            "missing callback transfer carrier"@,
                        )
                        &&& final(state)@ == old(state)@.without_scoped(kept.scoped_callbacks@)
                    } else {
                        &&& final(state)@ == old(state)@
                        &&& operation.dispatch.native() || host_step(operation.dispatch) == Some(
                            step,
                        )
                        &&& match operation.dispatch {
                            SessionOperationDispatch::NativeSync
                            | SessionOperationDispatch::NativeAsync => {
                                &&& step matches DispatchStep::Native { callback, arguments }
                                &&& callback == operation.callback
                                &&& arguments@ == native_arguments(
                                    operation,
                                    old(state)@.generation,
                                    kept.transfer_id,
                                    args@,
                                )
                            },
                            SessionOperationDispatch::CallbackHostSync {
                                callback_type_id,
                                method_id,
                                error_style,
                            } => step == (DispatchStep::Callback {
                                callback_type_id,
                                method_id,
                                error_style,
                                asynchronous: false,
                            }),
                            SessionOperationDispatch::CallbackHostAsync {
                                callback_type_id,
                                method_id,
                                error_style,
                            } => step == (DispatchStep::Callback {
                                callback_type_id,
                                method_id,
                                error_style,
                                asynchronous: true,
                            }),
                            SessionOperationDispatch::InputStreamHostPull => step == (
                            DispatchStep::Stream { cancel: false }),
                            SessionOperationDispatch::InputStreamHostCancel => step == (
                            DispatchStep::Stream { cancel: true }),
                        }
                    }
                },
            },
    {
        let kept = match retained {
            Err(error) => return DispatchStep::RollBack(Err(error)),
            Ok(kept) => kept,
        };
        let transfer_id: Option<u32> = kept.transfer_id;
        self.scoped = kept.scoped_callbacks;
        let operation = &state.operations[self.operation as usize];
        if operation.callback_transfer && transfer_id.is_none() {
            state.release_scoped_callback_tokens(&self.scoped);
            return DispatchStep::RollBack(
                Err(SessionError::failure("missing callback transfer carrier")),
            );
        }
        match operation.dispatch {
            SessionOperationDispatch::NativeSync | SessionOperationDispatch::NativeAsync => {
                DispatchStep::Native {
                    callback: operation.callback,
                    arguments: list_native_arguments(
                        operation,
                        state.generation,
                        transfer_id,
                        args,
                    ),
                }
            },
            SessionOperationDispatch::CallbackHostSync {
                callback_type_id,
                method_id,
                error_style,
            } => DispatchStep::Callback {
                callback_type_id,
                method_id,
                error_style,
                asynchronous: false,
            },
            SessionOperationDispatch::CallbackHostAsync {
                callback_type_id,
                method_id,
                error_style,
            } => DispatchStep::Callback {
                callback_type_id,
                method_id,
                error_style,
                asynchronous: true,
            },
            SessionOperationDispatch::InputStreamHostPull => DispatchStep::Stream { cancel: false },
            SessionOperationDispatch::InputStreamHostCancel => DispatchStep::Stream { cancel: true },
        }
    }

    /// The native function, the callback or the stream has answered. A failed
    /// call ends its scoped callbacks and is undone. The results of native
    /// functions and of asynchronous callbacks are looked at further.
    pub fn called(&self, state: &mut SessionState, result: Result<JsValue, SessionError>) -> (step:
        DispatchStep)
        requires
            self.fits(old(state)@),
        ensures
            match result {
                Err(e) => {
                    &&& step == DispatchStep::RollBack(Err(e))
                    &&& final(state)@ == old(state)@.without_scoped(self.scoped@)
                },
                Ok(value) => if self.target(old(state)@).dispatch.native() || self.target(
                    old(state)@,
                ).dispatch is CallbackHostAsync {
                    &&& step == DispatchStep::CheckPromise(value)
                    &&& final(state)@ == old(state)@
                } else {
                    &&& step == DispatchStep::Answer(Ok(value))
                    &&& final(state)@ == old(state)@.without_scoped(self.scoped@)
                },
            },
    {
        let value: JsValue = match result {
            Err(error) => {
                state.release_scoped_callback_tokens(&self.scoped);
                return DispatchStep::RollBack(Err(error));
            },
            Ok(value) => value,
        };
        let examined: bool = match state.operations[self.operation as usize].dispatch {
            SessionOperationDispatch::NativeSync
            | SessionOperationDispatch::NativeAsync
            | SessionOperationDispatch::CallbackHostAsync { .. } => true,
            _ => false,
        };
        if examined {
            return DispatchStep::CheckPromise(value);
        }
        state.release_scoped_callback_tokens(&self.scoped);
        DispatchStep::Answer(Ok(value))
    }

    /// It is known whether the result is a promise.
    pub fn promise_checked(
        &self,
        state: &mut SessionState,
        value: JsValue,
        promise: Result<bool, SessionError>,
    ) -> (step: DispatchStep)
        ensures
            match promise {
                Err(e) => step == DispatchStep::Answer(Err(e)) && final(state)@ == old(state)@,
                Ok(false) => step == DispatchStep::CheckError(value) && final(state)@ == old(
                    state)@,
                Ok(true) => if old(state)@.pending_work == u32::MAX {
                    &&& step matches DispatchStep::RollBack(Err(e))
                    &&& e.is(
                        SessionStatus::GenericFailure,
                        "too many pending UniFFI backend operations"@,
                    )
                    &&& final(state)@ == old(state)@.without_scoped(self.scoped@)
                } else {
                    &&& step == DispatchStep::Attach(value)
                    &&& final(state)@ == (SessionModel {
                        pending_work: (old(state)@.pending_work + 1) as u32,
                        ..old(state)@
                    })
                },
            },
    {
        match promise {
            Err(error) => DispatchStep::Answer(Err(error)),
            Ok(false) => DispatchStep::CheckError(value),
            Ok(true) => match state.begin_pending_work() {
                Ok(()) => DispatchStep::Attach(value),
                Err(error) => {
                    state.release_scoped_callback_tokens(&self.scoped);
                    DispatchStep::RollBack(Err(error))
                },
            },
        }
    }

    /// The promise is followed now, or cannot be.
    pub fn attached(
        &self,
        state: &mut SessionState,
        value: JsValue,
        result: Result<(), SessionError>,
    ) -> (r: (DispatchStep, CloseSignal))
        ensures
            match result {
                Ok(()) => {
                    &&& r.0 == DispatchStep::Answer(Ok(value))
                    &&& r.1 == (CloseSignal { deferred: None, timer: None })
                    &&& final(state)@ == old(state)@
                },
                Err(e) => {
                    &&& r.0 == DispatchStep::RollBack(Err(e))
                    &&& r.1 == old(state)@.finish_signal()
                    &&& final(state)@ == old(state)@.work_finished().without_scoped(self.scoped@)
                },
            },
    {
        match result {
            Ok(()) => (
                DispatchStep::Answer(Ok(value)),
                CloseSignal { deferred: None, timer: None },
            ),
            Err(error) => {
                let signal = state.finish_pending_work();
                state.release_scoped_callback_tokens(&self.scoped);
                (DispatchStep::RollBack(Err(error)), signal)
            },
        }
    }

    /// It is known whether the result is an error. An error result undoes the
    /// call and is still the answer.
    pub fn error_checked(
        &self,
        state: &mut SessionState,
        value: JsValue,
        is_error: Result<bool, SessionError>,
    ) -> (step: DispatchStep)
        ensures
            match is_error {
                Err(e) => step == DispatchStep::Answer(Err(e)) && final(state)@ == old(state)@,
                Ok(false) => step == DispatchStep::Track(value) && final(state)@ == old(state)@,
                Ok(true) => {
                    &&& step == DispatchStep::RollBack(Ok(value))
                    &&& final(state)@ == old(state)@.without_scoped(self.scoped@)
                },
            },
    {
        match is_error {
            Err(error) => DispatchStep::Answer(Err(error)),
            Ok(false) => DispatchStep::Track(value),
            Ok(true) => {
                state.release_scoped_callback_tokens(&self.scoped);
                DispatchStep::RollBack(Ok(value))
            },
        }
    }

    /// The value of the result was tracked, or could not be.
    pub fn value_tracked(
        &self,
        state: &mut SessionState,
        value: JsValue,
        result: Result<(), SessionError>,
    ) -> (step: DispatchStep)
        ensures
            final(state)@ == old(state)@.without_scoped(self.scoped@),
            step == match result {
                Ok(()) => DispatchStep::Answer(Ok(value)),
                Err(e) => DispatchStep::RollBack(Err(e)),
            },
    {
        state.release_scoped_callback_tokens(&self.scoped);
        match result {
            Ok(()) => DispatchStep::Answer(Ok(value)),
            Err(error) => DispatchStep::RollBack(Err(error)),
        }
    }
}

fn list_native_arguments(
    operation: &SessionOperation,
    generation: u32,
    transfer_id: Option<u32>,
    args: &Vec<JsValue>,
) -> (r: Vec<NativeArgument>)
    ensures
        r@ == native_arguments(*operation, generation, transfer_id, args@),
{
    let mut out: Vec<NativeArgument> = Vec::new();
    if operation.native_call == SessionNativeCall::HostAndArguments {
        out.push(NativeArgument::HostProxy);
    }
    if operation.callback_transfer {
        if let Some(id) = transfer_id {
            out.push(NativeArgument::Number(generation));
            out.push(NativeArgument::Number(id));
        }
    }
    let leased: bool = matches!(operation.receiver, Some(SessionReceiver::Resource(_)));
    let ghost head = out@;
    let ghost mapped = Seq::new(
        args@.len(),
        |i: int|
            if i == 0 && leased_receiver(*operation) {
                NativeArgument::Handle(args@[i])
            } else {
                NativeArgument::Value(args@[i])
            },
    );
    for i in 0..args.len()
        invariant
            leased == leased_receiver(*operation),
            mapped == Seq::new(
                args@.len(),
                |i: int|
                    if i == 0 && leased_receiver(*operation) {
                        NativeArgument::Handle(args@[i])
                    } else {
                        NativeArgument::Value(args@[i])
                    },
            ),
            out@ == head + mapped.take(i as int),
    {
        if i == 0 && leased {
            out.push(NativeArgument::Handle(args[i]));
        } else {
            out.push(NativeArgument::Value(args[i]));
        }
        assert(out@ =~= head + mapped.take(i + 1));
    }
    assert(out@ =~= native_arguments(*operation, generation, transfer_id, args@));
    out
}

/// What follows an answer of the host about an input stream.
#[derive(Clone, Copy, Debug, PartialEq, Eq, Structural)]
pub enum StreamStep {
    /// Follow the promise.
    Attach,
    /// See whether this step is the last one.
    CheckTerminal,
    /// Release the stream.
    Release,
}

/// The argument that names the stream.
pub fn stream_argument(args: &Vec<JsValue>, cancel: bool) -> (r: Result<JsValue, SessionError>)
    ensures
        match r {
            Ok(value) => args@.len() > 0 && value == args@[0],
            Err(e) => args@.len() == 0 && e.is(
                SessionStatus::InvalidArg,
                if cancel {
                    "cancel requires stream ID"@
                } else {
                    "pull requires stream ID"@
                },
            ),
        },
{
    if args.len() > 0 {
        Ok(args[0])
    } else {
        Err(
            SessionError::invalid(
                if cancel {
                    "cancel requires stream ID"
                } else {
                    "pull requires stream ID"
                },
            ),
        )
    }
}

/// The host method that pulls from a stream or cancels it.
pub fn stream_method(cancel: bool) -> (name: &'static str)
    ensures
        name@ == if cancel {
            "cancelInputStream"@
        } else {
            "pullInputStream"@
        },
{
    if cancel {
        "cancelInputStream"
    } else {
        "pullInputStream"
    }
}

impl SessionState {
    /// The host has answered a pull or a cancel; `promise` says whether with a
    /// promise.
    pub fn stream_answered(&mut self, promise: bool, cancel: bool) -> (r: Result<
        StreamStep,
        SessionError,
    >)
        ensures
            if !promise {
                &&& r == Ok::<StreamStep, SessionError>(
                    if cancel {
                        StreamStep::Release
                    } else {
                        StreamStep::CheckTerminal
                    },
                )
                &&& final(self)@ == old(self)@
            } else if old(self)@.pending_work == u32::MAX {
                &&& r matches Err(e)
                &&& e.is(
                    SessionStatus::GenericFailure,
                    "too many pending UniFFI backend operations"@,
                )
                &&& final(self)@ == old(self)@
            } else {
                &&& r == Ok::<StreamStep, SessionError>(StreamStep::Attach)
                &&& final(self)@ == (SessionModel {
                    pending_work: (old(self)@.pending_work + 1) as u32,
                    ..old(self)@
                })
            },
    {
        if promise {
            match self.begin_pending_work() {
                Ok(()) => Ok(StreamStep::Attach),
                Err(error) => Err(error),
            }
        } else if cancel {
            Ok(StreamStep::Release)
        } else {
            Ok(StreamStep::CheckTerminal)
        }
    }
}

} // verus!
