//! What a backend session holds and what each of its operations does.

use crate::error::{OhosEngineError, OhosError};
use crate::family::{
    CallbackSiteModel, CallbackUseSite, FamilyModel, FamilyOperation, FamilyOperationTarget,
    OperationModel, ReceiverBinding, ResourceKind,
};
use crate::host::{HostCall, HostEvent, HostReply};
use crate::ordered;
use crate::value::OhosValue;
use vstd::prelude::*;

verus! {

/// The callback that a call is about: its first argument.
pub open spec fn callback_named(args: Seq<OhosValue>) -> Option<u32> {
    if args.len() > 0 {
        match args[0] {
            OhosValue::Callback(id) => Some(id),
            _ => None,
        }
    } else {
        None
    }
}

/// The stream that a call is about: its first argument, a stream or a number
/// that is not negative.
pub open spec fn stream_named(args: Seq<OhosValue>) -> Option<u32> {
    if args.len() > 0 {
        match args[0] {
            OhosValue::InputStream(id) => Some(id),
            OhosValue::OutputStream(id) => Some(id),
            OhosValue::Number(id) => if id.non_negative() {
                Some(id.floor())
            } else {
                None
            },
            _ => None,
        }
    } else {
        None
    }
}

/// Some use-site of this callback type forbids reentrancy.
pub open spec fn forbids(sites: Seq<CallbackSiteModel>, callback_type: u32) -> bool {
    exists|i: int|
        0 <= i < sites.len() && (#[trigger] sites[i]).callback_type_id == callback_type
            && sites[i].contract.reentrancy is Forbidden
}

/// Somewhere in the family this callback type forbids reentrancy.
pub open spec fn type_forbids(family: FamilyModel, callback_type: u32) -> bool {
    exists|i: int|
        0 <= i < family.operations.len() && forbids(
            (#[trigger] family.operations[i]).callbacks,
            callback_type,
        )
}

/// A callback method forbids reentrancy: one use-site of the type that forbids
/// it is enough, in the method or anywhere in the family.
pub open spec fn method_forbids(
    family: FamilyModel,
    operation: OperationModel,
    callback_type: u32,
) -> bool {
    type_forbids(family, callback_type) || forbids(operation.callbacks, callback_type)
}

/// The callback use-sites of an operation.
pub open spec fn sites_model(sites: Seq<CallbackUseSite>) -> Seq<CallbackSiteModel> {
    Seq::new(sites.len(), |i: int| sites[i]@)
}

/// The first operation with this number, at or after `from`.
pub open spec fn operation_from(
    operations: Seq<OperationModel>,
    operation_id: u32,
    from: int,
) -> Option<OperationModel>
    decreases operations.len() - from,
{
    if from >= operations.len() {
        None
    } else if operations[from].id == operation_id {
        Some(operations[from])
    } else {
        operation_from(operations, operation_id, from + 1)
    }
}

/// What an operation asks of the host, if its arguments say what it is about.
pub open spec fn target_call(
    target: FamilyOperationTarget,
    operation_id: u32,
    args: Seq<OhosValue>,
) -> Option<HostCall> {
    match target {
        FamilyOperationTarget::Native => Some(HostCall::InvokeSync { operation_id, args }),
        FamilyOperationTarget::CallbackHost { callback_type_id, method_id } => match callback_named(
            args,
        ) {
            Some(callback_id) => Some(
                HostCall::InvokeCallback {
                    callback_type: callback_type_id,
                    callback_id,
                    method_id,
                    args,
                },
            ),
            None => None,
        },
        FamilyOperationTarget::InputStreamHostPull => match stream_named(args) {
            Some(stream_id) => Some(HostCall::PullInputStream { stream_id }),
            None => None,
        },
        FamilyOperationTarget::InputStreamHostCancel => match stream_named(args) {
            Some(stream_id) => Some(HostCall::CancelInputStream { stream_id }),
            None => None,
        },
    }
}

/// What the first argument of a host operation has to be.
pub open spec fn target_subject(target: FamilyOperationTarget) -> &'static str {
    match target {
        FamilyOperationTarget::CallbackHost { .. } => "callback ID",
        _ => "stream ID",
    }
}

/// An answer as a value: a call that returns nothing answers with the unit.
pub open spec fn reply_value(reply: HostReply) -> Result<OhosValue, OhosError> {
    match reply {
        HostReply::Value(value) => value,
        HostReply::Done(Ok(_)) => Ok(OhosValue::Unit),
        HostReply::Done(Err(error)) => Err(error),
    }
}

/// An answer as the session passes it on.
pub open spec fn lifted<T>(result: Result<T, OhosError>) -> Result<T, OhosEngineError> {
    match result {
        Ok(value) => Ok(value),
        Err(error) => Err(OhosEngineError::Host(error)),
    }
}

/// The mathematical form of a backend session.
#[verifier::ext_equal]
pub struct BackendModel {
    pub family: FamilyModel,
    pub closed: bool,
    pub retained: Set<(u32, u32)>,
    pub active: Set<(u32, u32)>,
    pub inputs: Set<u32>,
    pub outputs: Set<u32>,
    pub cancelled: Set<u32>,
    pub objects: Set<u32>,
    pub history: Seq<HostEvent>,
}

impl BackendModel {
    /// A session that has just been opened.
    pub open spec fn opened(family: FamilyModel) -> BackendModel {
        BackendModel {
            family,
            closed: false,
            retained: Set::empty(),
            active: Set::empty(),
            inputs: Set::empty(),
            outputs: Set::empty(),
            cancelled: Set::empty(),
            objects: Set::empty(),
            history: Seq::empty(),
        }
    }

    pub open spec fn operation(self, operation_id: u32) -> Option<OperationModel> {
        operation_from(self.family.operations, operation_id, 0)
    }

    /// The session after one more call of the host.
    pub open spec fn called(self, call: HostCall, reply: HostReply) -> BackendModel {
        BackendModel { history: self.history.push(HostEvent { call, reply }), ..self }
    }

    /// The session with an output stream that runs.
    pub open spec fn with_output(self, id: u32) -> BackendModel {
        BackendModel {
            outputs: self.outputs.insert(id),
            cancelled: self.cancelled.remove(id),
            ..self
        }
    }

    pub open spec fn with_input(self, id: u32) -> BackendModel {
        BackendModel { inputs: self.inputs.insert(id), ..self }
    }

    pub open spec fn with_object(self, id: u32) -> BackendModel {
        BackendModel { objects: self.objects.insert(id), ..self }
    }

    /// The session after it has noted the stream among the arguments: an
    /// operation with an input use-site takes one right after its receiver.
    pub open spec fn with_stream_argument(
        self,
        operation: OperationModel,
        args: Seq<OhosValue>,
    ) -> BackendModel {
        let offset: int = if operation.receiver is Some {
            1
        } else {
            0
        };
        if takes_stream(operation) && args.len() > offset {
            match args[offset] {
                OhosValue::InputStream(id) => self.with_input(id),
                _ => self,
            }
        } else {
            self
        }
    }

    /// The session after it has noted the receiver.
    pub open spec fn with_receiver(
        self,
        operation: OperationModel,
        args: Seq<OhosValue>,
    ) -> BackendModel {
        match operation.receiver {
            Some(ReceiverBinding::Resource(resource)) => if args.len() == 0 {
                self
            } else {
                match (resource.kind, args[0]) {
                    (ResourceKind::InputStream, OhosValue::InputStream(id)) => self.with_input(id),
                    (
                        ResourceKind::Object | ResourceKind::OutputStream,
                        OhosValue::Object(id) | OhosValue::OutputStream(id),
                    ) => if operation.kind is OutputStreamNext
                        || operation.kind is OutputStreamCancel {
                        self.with_output(id)
                    } else {
                        self.with_object(id)
                    },
                    _ => self,
                }
            },
            _ => self,
        }
    }

    /// The session after it has noted what goes into a call.
    pub open spec fn noted(self, operation: OperationModel, args: Seq<OhosValue>) -> BackendModel {
        self.with_stream_argument(operation, args).with_receiver(operation, args)
    }

    /// The session after it has noted what a call returned.
    pub open spec fn returned(self, operation: OperationModel, value: OhosValue) -> BackendModel {
        match (operation.direct_result(), value) {
            (Some(ResourceKind::Object), OhosValue::Object(id)) => self.with_object(id),
            (Some(ResourceKind::OutputStream), OhosValue::OutputStream(id)) => self.with_output(id),
            _ => self,
        }
    }

    /// The session after it has noted what a suspended call returned: any
    /// object and any output stream.
    pub open spec fn resolved(self, value: OhosValue) -> BackendModel {
        match value {
            OhosValue::Object(id) => self.with_object(id),
            OhosValue::OutputStream(id) => self.with_output(id),
            _ => self,
        }
    }

    /// The session with a callback that must not be entered again for now.
    pub open spec fn guarded(self, guard: Option<(u32, u32)>) -> BackendModel {
        match guard {
            Some(key) => BackendModel { active: self.active.insert(key), ..self },
            None => self,
        }
    }

    /// The session with that guard lifted.
    pub open spec fn unguarded(self, guard: Option<(u32, u32)>) -> BackendModel {
        match guard {
            Some(key) => BackendModel { active: self.active.remove(key), ..self },
            None => self,
        }
    }

    /// The session after a synchronous call has ended: its result is noted and
    /// its guard lifted.
    pub open spec fn finished(
        self,
        operation: OperationModel,
        guard: Option<(u32, u32)>,
        result: Result<OhosValue, OhosError>,
    ) -> BackendModel {
        let noted = match result {
            Ok(value) => self.returned(operation, value),
            Err(_) => self,
        };
        noted.unguarded(guard)
    }

    /// The session after a suspended call has ended: its result is noted and
    /// its guard lifted.
    pub open spec fn settled(
        self,
        guard: Option<(u32, u32)>,
        result: Result<OhosValue, OhosError>,
    ) -> BackendModel {
        let noted = match result {
            Ok(value) => self.resolved(value),
            Err(_) => self,
        };
        noted.unguarded(guard)
    }

    /// The session without anything to clean up, and closed.
    pub open spec fn emptied(self) -> BackendModel {
        BackendModel {
            closed: true,
            retained: Set::empty(),
            inputs: Set::empty(),
            outputs: Set::empty(),
            cancelled: Set::empty(),
            objects: Set::empty(),
            ..self
        }
    }
}

/// The operation has an input stream among its use-sites.
pub open spec fn takes_stream(operation: OperationModel) -> bool {
    exists|i: int|
        0 <= i < operation.streams.len() && (#[trigger] operation.streams[i]).direction is Input
}

/// The host was asked once, with no value to give back.
pub open spec fn asked(
    before: BackendModel,
    call: HostCall,
    after: BackendModel,
    r: Result<(), OhosEngineError>,
) -> bool {
    let reply = after.history.last().reply;
    &&& after == before.called(call, reply)
    &&& reply matches HostReply::Done(done) && r == lifted(done)
}

/// The host was asked once for a value.
pub open spec fn asked_value(
    before: BackendModel,
    call: HostCall,
    after: BackendModel,
    r: Result<OhosValue, OhosEngineError>,
) -> bool {
    let reply = after.history.last().reply;
    &&& after == before.called(call, reply)
    &&& reply matches HostReply::Value(value) && r == lifted(value)
}

/// Nothing happened but a refusal.
pub open spec fn refused<T>(
    before: BackendModel,
    error: OhosEngineError,
    after: BackendModel,
    r: Result<T, OhosEngineError>,
) -> bool {
    &&& after == before
    &&& r == Err::<T, OhosEngineError>(error)
}

/// A host that was asked for the result of an operation: a success is noted.
pub open spec fn answered(
    before: BackendModel,
    operation: OperationModel,
    call: HostCall,
    after: BackendModel,
    r: Result<OhosValue, OhosEngineError>,
) -> bool {
    let reply = after.history.last().reply;
    &&& r == lifted(reply_value(reply))
    &&& call.gives_value() == (reply is Value)
    &&& after == match reply_value(reply) {
        Ok(value) => before.called(call, reply).returned(operation, value),
        Err(_) => before.called(call, reply),
    }
}

/// The callback that an operation runs, where it must not be running already.
pub open spec fn exclusive_callback(
    family: FamilyModel,
    operation: OperationModel,
    args: Seq<OhosValue>,
) -> Option<(u32, u32)> {
    match operation.target {
        FamilyOperationTarget::CallbackHost { callback_type_id, .. } => match callback_named(args) {
            Some(callback_id) => if method_forbids(family, operation, callback_type_id) {
                Some((callback_type_id, callback_id))
            } else {
                None
            },
            None => None,
        },
        _ => None,
    }
}

/// What a synchronous call does.
pub open spec fn sync_outcome(
    before: BackendModel,
    operation_id: u32,
    args: Seq<OhosValue>,
    after: BackendModel,
    r: Result<OhosValue, OhosEngineError>,
) -> bool {
    if before.closed {
        refused(before, OhosEngineError::Closed, after, r)
    } else {
        match before.operation(operation_id) {
            None => refused(
                before,
                OhosEngineError::UnknownOperation { operation_id },
                after,
                r,
            ),
            Some(operation) => {
                let noted = before.noted(operation, args);
                if operation.async_kind is Async {
                    refused(
                        noted,
                        OhosEngineError::InvalidValue { expected: "sync operation" },
                        after,
                        r,
                    )
                } else {
                    match target_call(operation.target, operation_id, args) {
                        None => refused(
                            noted,
                            OhosEngineError::InvalidValue {
                                expected: target_subject(operation.target),
                            },
                            after,
                            r,
                        ),
                        Some(call) => match exclusive_callback(before.family, operation, args) {
                            Some((callback_type, callback_id)) if before.active.contains(
                                (callback_type, callback_id),
                            ) => refused(
                                noted,
                                OhosEngineError::ReentrancyForbidden { callback_type, callback_id },
                                after,
                                r,
                            ),
                            _ => answered(noted, operation, call, after, r),
                        },
                    }
                }
            },
        }
    }
}

/// What the host is asked for an operation.
#[derive(Clone, Copy, Debug, PartialEq, Eq, Structural)]
pub enum HostRequest {
    InvokeSync,
    InvokeCallback { callback_type: u32, callback_id: u32, method_id: u32 },
    PullInputStream(u32),
    CancelInputStream(u32),
}

impl HostRequest {
    /// The call of the host.
    pub open spec fn call(self, operation_id: u32, args: Seq<OhosValue>) -> HostCall {
        match self {
            HostRequest::InvokeSync => HostCall::InvokeSync { operation_id, args },
            HostRequest::InvokeCallback { callback_type, callback_id, method_id } =>
            HostCall::InvokeCallback { callback_type, callback_id, method_id, args },
            HostRequest::PullInputStream(stream_id) => HostCall::PullInputStream { stream_id },
            HostRequest::CancelInputStream(stream_id) => HostCall::CancelInputStream { stream_id },
        }
    }
}

/// A synchronous call that was accepted: the host is to be asked now.
pub struct SyncInvocation {
    pub operation: FamilyOperation,
    pub request: HostRequest,
    /// The callback that must not be entered again until the call has ended.
    pub guard: Option<(u32, u32)>,
}

/// What accepting a synchronous call does.
pub open spec fn sync_begun(
    before: BackendModel,
    operation_id: u32,
    args: Seq<OhosValue>,
    after: BackendModel,
    r: Result<SyncInvocation, OhosEngineError>,
) -> bool {
    if before.closed {
        refused(before, OhosEngineError::Closed, after, r)
    } else {
        match before.operation(operation_id) {
            None => refused(
                before,
                OhosEngineError::UnknownOperation { operation_id },
                after,
                r,
            ),
            Some(operation) => {
                let noted = before.noted(operation, args);
                if operation.async_kind is Async {
                    refused(
                        noted,
                        OhosEngineError::InvalidValue { expected: "sync operation" },
                        after,
                        r,
                    )
                } else {
                    match target_call(operation.target, operation_id, args) {
                        None => refused(
                            noted,
                            OhosEngineError::InvalidValue {
                                expected: target_subject(operation.target),
                            },
                            after,
                            r,
                        ),
                        Some(call) => {
                            let guard = exclusive_callback(before.family, operation, args);
                            match guard {
                                Some((callback_type, callback_id)) if before.active.contains(
                                    (callback_type, callback_id),
                                ) => refused(
                                    noted,
                                    OhosEngineError::ReentrancyForbidden {
                                        callback_type,
                                        callback_id,
                                    },
                                    after,
                                    r,
                                ),
                                _ => {
                                    &&& after == noted.guarded(guard)
                                    &&& r matches Ok(invocation)
                                    &&& invocation.operation@ == operation
                                    &&& invocation.request.call(operation_id, args) == call
                                    &&& invocation.guard == guard
                                },
                            }
                        },
                    }
                }
            },
        }
    }
}

/// What accepting the run of a callback does.
pub open spec fn callback_begun(
    before: BackendModel,
    callback_type: u32,
    callback_id: u32,
    after: BackendModel,
    r: Result<Option<(u32, u32)>, OhosEngineError>,
) -> bool {
    let exclusive = type_forbids(before.family, callback_type);
    if before.closed {
        refused(before, OhosEngineError::Closed, after, r)
    } else if exclusive && before.active.contains((callback_type, callback_id)) {
        refused(
            before,
            OhosEngineError::ReentrancyForbidden { callback_type, callback_id },
            after,
            r,
        )
    } else {
        let guard = if exclusive {
            Some((callback_type, callback_id))
        } else {
            None
        };
        &&& after == before.guarded(guard)
        &&& r == Ok::<Option<(u32, u32)>, OhosEngineError>(guard)
    }
}

/// A call that was accepted and is waiting for its result.
#[derive(Debug)]
pub struct AsyncInvocation {
    pub operation_id: u32,
    pub target: FamilyOperationTarget,
    pub args: Vec<OhosValue>,
    /// The callback that must not be entered again until the call is settled.
    pub guard: Option<(u32, u32)>,
}

/// What the start of an asynchronous call does.
pub open spec fn async_outcome(
    before: BackendModel,
    operation_id: u32,
    args: Vec<OhosValue>,
    after: BackendModel,
    r: Result<AsyncInvocation, OhosEngineError>,
) -> bool {
    if before.closed {
        refused(before, OhosEngineError::Closed, after, r)
    } else {
        match before.operation(operation_id) {
            None => refused(
                before,
                OhosEngineError::UnknownOperation { operation_id },
                after,
                r,
            ),
            Some(operation) => {
                let noted = before.noted(operation, args@);
                if operation.async_kind is Sync {
                    refused(
                        noted,
                        OhosEngineError::InvalidValue { expected: "async operation" },
                        after,
                        r,
                    )
                } else if operation.target is CallbackHost && callback_named(args@) is None {
                    refused(
                        noted,
                        OhosEngineError::InvalidValue { expected: "callback ID" },
                        after,
                        r,
                    )
                } else {
                    let guard = exclusive_callback(before.family, operation, args@);
                    match guard {
                        Some((callback_type, callback_id)) => if before.active.contains(
                            (callback_type, callback_id),
                        ) {
                            refused(
                                noted,
                                OhosEngineError::ReentrancyForbidden { callback_type, callback_id },
                                after,
                                r,
                            )
                        } else {
                            &&& after == (BackendModel {
                                active: before.active.insert((callback_type, callback_id)),
                                ..noted
                            })
                            &&& r == Ok::<AsyncInvocation, OhosEngineError>(
                                AsyncInvocation {
                                    operation_id,
                                    target: operation.target,
                                    args,
                                    guard,
                                },
                            )
                        },
                        None => {
                            &&& after == noted
                            &&& r == Ok::<AsyncInvocation, OhosEngineError>(
                                AsyncInvocation {
                                    operation_id,
                                    target: operation.target,
                                    args,
                                    guard,
                                },
                            )
                        },
                    }
                }
            },
        }
    }
}

/// How an accepted call goes on.
#[derive(Debug)]
pub enum AsyncStep {
    /// The host's own asynchronous operation has to be awaited.
    AwaitNative,
    /// The host has answered.
    Answered(Result<OhosValue, OhosError>),
}

/// How an accepted call goes on: the host answers at once, unless the call is
/// an asynchronous operation of its own.
pub open spec fn resume_outcome(
    before: BackendModel,
    invocation: AsyncInvocation,
    after: BackendModel,
    step: AsyncStep,
) -> bool {
    if invocation.target is Native {
        step is AwaitNative && after == before
    } else {
        match target_call(invocation.target, invocation.operation_id, invocation.args@) {
            None => {
                &&& after == before
                &&& step matches AsyncStep::Answered(Err(error)) && error@ == "expected "@
                    + target_subject(invocation.target)@
            },
            Some(call) => {
                let reply = after.history.last().reply;
                &&& after == before.called(call, reply)
                &&& call.gives_value() == (reply is Value)
                &&& step == AsyncStep::Answered(reply_value(reply))
            },
        }
    }
}

/// One step of the cleanup of a session.
#[derive(Clone, Copy, Debug, PartialEq, Eq, Structural)]
pub enum Cleanup {
    ReleaseCallback(u32, u32),
    CancelInput(u32),
    ReleaseInput(u32),
    CancelOutput(u32),
    ReleaseOutput(u32),
    ReleaseObject(u32),
}

impl Cleanup {
    pub open spec fn call(self) -> HostCall {
        match self {
            Cleanup::ReleaseCallback(callback_type, callback_id) => HostCall::ReleaseCallback {
                callback_type,
                callback_id,
            },
            Cleanup::CancelInput(stream_id) => HostCall::CancelInputStream { stream_id },
            Cleanup::ReleaseInput(stream_id) => HostCall::ReleaseInputStream { stream_id },
            Cleanup::CancelOutput(stream_id) => HostCall::CancelOutputStream { stream_id },
            Cleanup::ReleaseOutput(stream_id) => HostCall::ReleaseOutputStream { stream_id },
            Cleanup::ReleaseObject(object_id) => HostCall::ReleaseObject { object_id },
        }
    }
}

pub open spec fn callback_cleanup(list: Seq<(u32, u32)>) -> Seq<Cleanup> {
    list.map_values(|key: (u32, u32)| Cleanup::ReleaseCallback(key.0, key.1))
}

/// Every input stream is cancelled, then released.
pub open spec fn input_cleanup(list: Seq<u32>) -> Seq<Cleanup>
    decreases list.len(),
{
    if list.len() == 0 {
        Seq::empty()
    } else {
        input_cleanup(list.drop_last()).push(Cleanup::CancelInput(list.last())).push(
            Cleanup::ReleaseInput(list.last()),
        )
    }
}

/// Every output stream is cancelled unless it is already, then released.
pub open spec fn output_cleanup(list: Seq<u32>, cancelled: Set<u32>) -> Seq<Cleanup>
    decreases list.len(),
{
    if list.len() == 0 {
        Seq::empty()
    } else {
        let rest = output_cleanup(list.drop_last(), cancelled);
        if cancelled.contains(list.last()) {
            rest.push(Cleanup::ReleaseOutput(list.last()))
        } else {
            rest.push(Cleanup::CancelOutput(list.last())).push(Cleanup::ReleaseOutput(list.last()))
        }
    }
}

pub open spec fn object_cleanup(list: Seq<u32>) -> Seq<Cleanup> {
    list.map_values(|id: u32| Cleanup::ReleaseObject(id))
}

/// All of the cleanup, given the listings of what is to be cleaned up.
pub open spec fn whole_cleanup(
    callbacks: Seq<(u32, u32)>,
    inputs: Seq<u32>,
    outputs: Seq<u32>,
    cancelled: Set<u32>,
    objects: Seq<u32>,
) -> Seq<Cleanup> {
    callback_cleanup(callbacks) + input_cleanup(inputs) + output_cleanup(outputs, cancelled)
        + object_cleanup(objects)
}

/// `plan` is the cleanup of a session: callbacks, input streams, output streams
/// and objects, each in ascending order.
pub open spec fn cleans_up(plan: Seq<Cleanup>, model: BackendModel) -> bool {
    exists|callbacks: Seq<(u32, u32)>, inputs: Seq<u32>, outputs: Seq<u32>, objects: Seq<u32>|
        {
            &&& ordered::lists_pairs(callbacks, model.retained)
            &&& ordered::lists(inputs, model.inputs)
            &&& ordered::lists(outputs, model.outputs)
            &&& ordered::lists(objects, model.objects)
            &&& plan == #[trigger] whole_cleanup(
                callbacks,
                inputs,
                outputs,
                model.cancelled,
                objects,
            )
        }
}

/// The events are the first steps of a plan: all of them where all went well,
/// else those up to the first that the host refused.
pub open spec fn carries_out(
    plan: Seq<Cleanup>,
    events: Seq<HostEvent>,
    r: Result<(), OhosEngineError>,
) -> bool {
    &&& events.len() <= plan.len()
    &&& forall|i: int| 0 <= i < events.len() ==> (#[trigger] events[i]).call == plan[i].call()
    &&& match r {
        Ok(_) => {
            &&& events.len() == plan.len()
            &&& forall|i: int|
                0 <= i < events.len() ==> (#[trigger] events[i]).reply == HostReply::Done(Ok(()))
        },
        Err(error) => {
            &&& events.len() > 0
            &&& forall|i: int|
                0 <= i < events.len() - 1 ==> (#[trigger] events[i]).reply == HostReply::Done(
                    Ok(()),
                )
            &&& events.last().reply matches HostReply::Done(Err(refusal)) && error
                == OhosEngineError::Host(refusal)
        },
    }
}

/// What closing a session does.
pub open spec fn close_outcome(
    before: BackendModel,
    after: BackendModel,
    r: Result<(), OhosEngineError>,
) -> bool {
    if before.closed {
        after == before && r == Ok::<(), OhosEngineError>(())
    } else {
        &&& after == (BackendModel { history: after.history, ..before.emptied() })
        &&& before.history.len() <= after.history.len()
        &&& after.history.take(before.history.len() as int) == before.history
        &&& exists|plan: Seq<Cleanup>| #[trigger]
            cleans_up(plan, before) && carries_out(
                plan,
                after.history.skip(before.history.len() as int),
                r,
            )
    }
}

/// What running a method of a callback does.
pub open spec fn callback_outcome(
    before: BackendModel,
    callback_type: u32,
    callback_id: u32,
    method_id: u32,
    args: Seq<OhosValue>,
    after: BackendModel,
    r: Result<OhosValue, OhosEngineError>,
) -> bool {
    if before.closed {
        refused(before, OhosEngineError::Closed, after, r)
    } else if type_forbids(before.family, callback_type) && before.active.contains(
        (callback_type, callback_id),
    ) {
        refused(
            before,
            OhosEngineError::ReentrancyForbidden { callback_type, callback_id },
            after,
            r,
        )
    } else {
        asked_value(
            before,
            HostCall::InvokeCallback { callback_type, callback_id, method_id, args },
            after,
            r,
        )
    }
}

/// What keeping a callback does: the host hears of it the first time.
pub open spec fn retain_outcome(
    before: BackendModel,
    callback_type: u32,
    callback_id: u32,
    after: BackendModel,
    r: Result<(), OhosEngineError>,
) -> bool {
    if before.closed {
        refused(before, OhosEngineError::Closed, after, r)
    } else if before.retained.contains((callback_type, callback_id)) {
        after == before && r == Ok::<(), OhosEngineError>(())
    } else {
        asked(
            BackendModel { retained: before.retained.insert((callback_type, callback_id)), ..before },
            HostCall::RetainCallback { callback_type, callback_id },
            after,
            r,
        )
    }
}

/// What giving a callback back does: the host hears of it where it was kept.
pub open spec fn release_callback_outcome(
    before: BackendModel,
    callback_type: u32,
    callback_id: u32,
    after: BackendModel,
    r: Result<(), OhosEngineError>,
) -> bool {
    if before.closed {
        refused(before, OhosEngineError::Closed, after, r)
    } else if !before.retained.contains((callback_type, callback_id)) {
        after == before && r == Ok::<(), OhosEngineError>(())
    } else {
        asked(
            BackendModel { retained: before.retained.remove((callback_type, callback_id)), ..before },
            HostCall::ReleaseCallback { callback_type, callback_id },
            after,
            r,
        )
    }
}

pub open spec fn cancel_input_outcome(
    before: BackendModel,
    stream_id: u32,
    after: BackendModel,
    r: Result<(), OhosEngineError>,
) -> bool {
    if before.closed {
        refused(before, OhosEngineError::Closed, after, r)
    } else {
        asked(before, HostCall::CancelInputStream { stream_id }, after, r)
    }
}

pub open spec fn next_output_outcome(
    before: BackendModel,
    stream_id: u32,
    after: BackendModel,
    r: Result<OhosValue, OhosEngineError>,
) -> bool {
    if before.closed {
        refused(before, OhosEngineError::Closed, after, r)
    } else {
        asked_value(before, HostCall::NextOutputStream { stream_id }, after, r)
    }
}

pub open spec fn release_input_outcome(
    before: BackendModel,
    stream_id: u32,
    after: BackendModel,
    r: Result<(), OhosEngineError>,
) -> bool {
    if before.closed {
        refused(before, OhosEngineError::Closed, after, r)
    } else if !before.inputs.contains(stream_id) {
        after == before && r == Ok::<(), OhosEngineError>(())
    } else {
        asked(
            BackendModel { inputs: before.inputs.remove(stream_id), ..before },
            HostCall::ReleaseInputStream { stream_id },
            after,
            r,
        )
    }
}

pub open spec fn cancel_output_outcome(
    before: BackendModel,
    stream_id: u32,
    after: BackendModel,
    r: Result<(), OhosEngineError>,
) -> bool {
    if before.closed {
        refused(before, OhosEngineError::Closed, after, r)
    } else if before.cancelled.contains(stream_id) {
        after == before && r == Ok::<(), OhosEngineError>(())
    } else {
        asked(
            BackendModel { cancelled: before.cancelled.insert(stream_id), ..before },
            HostCall::CancelOutputStream { stream_id },
            after,
            r,
        )
    }
}

/// What releasing an output stream does: it is forgotten in any case, and the
/// host hears of it where it was known.
pub open spec fn release_output_outcome(
    before: BackendModel,
    stream_id: u32,
    after: BackendModel,
    r: Result<(), OhosEngineError>,
) -> bool {
    if before.closed {
        refused(before, OhosEngineError::Closed, after, r)
    } else {
        let forgotten = BackendModel {
            outputs: before.outputs.remove(stream_id),
            cancelled: before.cancelled.remove(stream_id),
            ..before
        };
        if !before.outputs.contains(stream_id) {
            after == forgotten && r == Ok::<(), OhosEngineError>(())
        } else {
            asked(forgotten, HostCall::ReleaseOutputStream { stream_id }, after, r)
        }
    }
}

pub open spec fn release_object_outcome(
    before: BackendModel,
    object_id: u32,
    after: BackendModel,
    r: Result<(), OhosEngineError>,
) -> bool {
    if before.closed {
        refused(before, OhosEngineError::Closed, after, r)
    } else if !before.objects.contains(object_id) {
        after == before && r == Ok::<(), OhosEngineError>(())
    } else {
        asked(
            BackendModel { objects: before.objects.remove(object_id), ..before },
            HostCall::ReleaseObject { object_id },
            after,
            r,
        )
    }
}

} // verus!
