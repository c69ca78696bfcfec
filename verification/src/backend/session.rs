//! The session itself and the factory that opens it.

use crate::backend::model;
use crate::backend::model::{
    AsyncInvocation, AsyncStep, BackendModel, Cleanup, HostRequest, SyncInvocation,
};
use crate::codegen::source::GeneratedOhosModule;
use crate::error::{OhosEngineError, OhosError};
use crate::family;
use crate::family::{
    AsyncKind, CallbackReentrancy, CallbackUseSite, FamilyOperation, FamilyOperationTarget,
    FamilyPlan, OperationKind, ReceiverBinding, ResourceKind, StreamDirection,
};
use crate::host::{HostCall, HostPort, HostReply, OhosHost};
use crate::number;
use crate::ordered;
use crate::value::OhosValue;
use std::collections::BTreeSet;
use vstd::prelude::*;

verus! {

broadcast use {vstd::std_specs::btree::group_btree_axioms, vstd::laws_cmp::group_laws_cmp};

fn callback_id(args: &[OhosValue]) -> (r: Result<u32, OhosEngineError>)
    ensures
        r == match model::callback_named(args@) {
            Some(id) => Ok::<u32, OhosEngineError>(id),
            None => Err(OhosEngineError::InvalidValue { expected: "callback ID" }),
        },
{
    if args.len() > 0 {
        if let OhosValue::Callback(id) = &args[0] {
            return Ok(*id);
        }
    }
    Err(OhosEngineError::InvalidValue { expected: "callback ID" })
}

fn stream_id(args: &[OhosValue]) -> (r: Result<u32, OhosEngineError>)
    ensures
        r == match model::stream_named(args@) {
            Some(id) => Ok::<u32, OhosEngineError>(id),
            None => Err(OhosEngineError::InvalidValue { expected: "stream ID" }),
        },
{
    if args.len() > 0 {
        match &args[0] {
            OhosValue::InputStream(id) => {
                return Ok(*id);
            },
            OhosValue::OutputStream(id) => {
                return Ok(*id);
            },
            OhosValue::Number(id) => {
                if let Some(whole) = id.floor_u32() {
                    proof {
                        number::floor_is_unique(*id, whole);
                    }
                    return Ok(whole);
                }
            },
            _ => {},
        }
    }
    Err(OhosEngineError::InvalidValue { expected: "stream ID" })
}

fn sites_forbid(sites: &Vec<CallbackUseSite>, callback_type: u32) -> (r: bool)
    ensures
        r == model::forbids(model::sites_model(sites@), callback_type),
{
    for i in 0..sites.len()
        invariant
            forall|j: int|
                0 <= j < i ==> !((#[trigger] model::sites_model(sites@)[j]).callback_type_id
                    == callback_type && model::sites_model(sites@)[j].contract.reentrancy is Forbidden),
    {
        assert(model::sites_model(sites@)[i as int] == sites@[i as int]@);
        if sites[i].callback_type_id == callback_type && matches!(
            sites[i].contract.reentrancy,
            CallbackReentrancy::Forbidden
        ) {
            return true;
        }
    }
    false
}

/// What the host is asked for an operation, if its arguments say what it is
/// about.
pub fn host_request(target: FamilyOperationTarget, args: &[OhosValue]) -> (r: Result<
    HostRequest,
    OhosEngineError,
>)
    ensures
        forall|operation_id: u32|
            match #[trigger] model::target_call(target, operation_id, args@) {
                None => r == Err::<HostRequest, OhosEngineError>(
                    OhosEngineError::InvalidValue { expected: model::target_subject(target) },
                ),
                Some(call) => r matches Ok(request) && request.call(operation_id, args@) == call,
            },
{
    match target {
        FamilyOperationTarget::Native => Ok(HostRequest::InvokeSync),
        FamilyOperationTarget::CallbackHost { callback_type_id, method_id } => {
            match callback_id(args) {
                Ok(callback) => Ok(
                    HostRequest::InvokeCallback {
                        callback_type: callback_type_id,
                        callback_id: callback,
                        method_id,
                    },
                ),
                Err(error) => Err(error),
            }
        },
        FamilyOperationTarget::InputStreamHostPull => match stream_id(args) {
            Ok(stream) => Ok(HostRequest::PullInputStream(stream)),
            Err(error) => Err(error),
        },
        FamilyOperationTarget::InputStreamHostCancel => match stream_id(args) {
            Ok(stream) => Ok(HostRequest::CancelInputStream(stream)),
            Err(error) => Err(error),
        },
    }
}

/// What the host is asked for an accepted call.
pub fn async_request(invocation: &AsyncInvocation) -> (r: Result<HostRequest, OhosError>)
    ensures
        match model::target_call(invocation.target, invocation.operation_id, invocation.args@) {
            None => r matches Err(error) && error@ == "expected "@ + model::target_subject(
                invocation.target,
            )@,
            Some(call) => r matches Ok(request) && request.call(
                invocation.operation_id,
                invocation.args@,
            ) == call,
        },
{
    match host_request(invocation.target, invocation.args.as_slice()) {
        Ok(request) => Ok(request),
        Err(error) => Err(OhosError::new(error.message().as_str())),
    }
}

fn lift<T>(result: Result<T, OhosError>) -> (r: Result<T, OhosEngineError>)
    ensures
        r == model::lifted(result),
{
    match result {
        Ok(value) => Ok(value),
        Err(error) => Err(OhosEngineError::from(error)),
    }
}

/// A session that runs operations by number on one host.
pub struct OhosBackendSession<H: OhosHost> {
    port: HostPort<H>,
    family: FamilyPlan,
    closed: bool,
    retained_callbacks: BTreeSet<(u32, u32)>,
    active_callbacks: BTreeSet<(u32, u32)>,
    input_streams: BTreeSet<u32>,
    output_streams: BTreeSet<u32>,
    cancelled_output_streams: BTreeSet<u32>,
    objects: BTreeSet<u32>,
}

impl<H: OhosHost> View for OhosBackendSession<H> {
    type V = BackendModel;

    closed spec fn view(&self) -> BackendModel {
        BackendModel {
            family: self.family@,
            closed: self.closed,
            retained: self.retained_callbacks@,
            active: self.active_callbacks@,
            inputs: self.input_streams@,
            outputs: self.output_streams@,
            cancelled: self.cancelled_output_streams@,
            objects: self.objects@,
            history: self.port.history(),
        }
    }
}

impl<H: OhosHost> OhosBackendSession<H> {
    fn new(module: &GeneratedOhosModule, host: H) -> (r: OhosBackendSession<H>)
        ensures
            r@ == BackendModel::opened(module.family_model()),
    {
        OhosBackendSession {
            port: HostPort::new(host),
            family: module.family().clone(),
            closed: false,
            retained_callbacks: BTreeSet::new(),
            active_callbacks: BTreeSet::new(),
            input_streams: BTreeSet::new(),
            output_streams: BTreeSet::new(),
            cancelled_output_streams: BTreeSet::new(),
            objects: BTreeSet::new(),
        }
    }

    pub fn family(&self) -> (r: &FamilyPlan)
        ensures
            r@ == self@.family,
    {
        &self.family
    }

    /// The first operation with this number.
    fn operation(&self, operation_id: u32) -> (r: Result<FamilyOperation, OhosEngineError>)
        ensures
            match r {
                Ok(operation) => self@.operation(operation_id) == Some(operation@),
                Err(error) => self@.operation(operation_id) is None && error
                    == (OhosEngineError::UnknownOperation { operation_id }),
            },
    {
        let operations = self.family.operations();
        let mut i: usize = 0;
        while i < operations.len()
            invariant
                i <= operations.len(),
                family::operations_model(operations@) == self@.family.operations,
                self@.operation(operation_id) == model::operation_from(
                    self@.family.operations,
                    operation_id,
                    i as int,
                ),
            decreases operations.len() - i,
        {
            assert(self@.family.operations[i as int] == operations@[i as int]@);
            if operations[i].id == operation_id {
                return Ok(operations[i].clone());
            }
            i = i + 1;
        }
        Err(OhosEngineError::UnknownOperation { operation_id })
    }

    fn callback_reentrancy_for_type(&self, callback_type: u32) -> (r: CallbackReentrancy)
        ensures
            r is Forbidden == model::type_forbids(self@.family, callback_type),
    {
        let operations = self.family.operations();
        for i in 0..operations.len()
            invariant
                family::operations_model(operations@) == self@.family.operations,
                forall|j: int|
                    0 <= j < i ==> !model::forbids(
                        (#[trigger] self@.family.operations[j]).callbacks,
                        callback_type,
                    ),
        {
            assert(self@.family.operations[i as int] == operations@[i as int]@);
            assert(operations@[i as int]@.callbacks =~= model::sites_model(
                operations@[i as int].callbacks@,
            ));
            if sites_forbid(&operations[i].callbacks, callback_type) {
                return CallbackReentrancy::Forbidden;
            }
        }
        CallbackReentrancy::Allowed
    }

    fn callback_reentrancy_for_method(
        &self,
        operation: &FamilyOperation,
        callback_type: u32,
    ) -> (r: CallbackReentrancy)
        ensures
            r is Forbidden == (model::type_forbids(self@.family, callback_type) || model::forbids(
                operation@.callbacks,
                callback_type,
            )),
    {
        assert(operation@.callbacks =~= model::sites_model(operation.callbacks@));
        if sites_forbid(&operation.callbacks, callback_type) {
            return CallbackReentrancy::Forbidden;
        }
        self.callback_reentrancy_for_type(callback_type)
    }

    fn note_output(&mut self, id: u32)
        ensures
            final(self)@ == old(self)@.with_output(id),
    {
        self.output_streams.insert(id);
        self.cancelled_output_streams.remove(&id);
    }

    fn track_inputs_and_objects(&mut self, operation: &FamilyOperation, args: &[OhosValue])
        ensures
            final(self)@ == old(self)@.noted(operation@, args@),
    {
        let mut takes: bool = false;
        for i in 0..operation.streams.len()
            invariant
                takes == exists|j: int|
                    0 <= j < i && (#[trigger] operation@.streams[j]).direction is Input,
        {
            assert(operation@.streams[i as int] == operation.streams@[i as int]@);
            if matches!(operation.streams[i].direction, StreamDirection::Input) {
                takes = true;
            }
        }
        let offset: usize = if operation.receiver.is_some() {
            1
        } else {
            0
        };
        if takes && args.len() > offset {
            if let OhosValue::InputStream(id) = &args[offset] {
                self.input_streams.insert(*id);
            }
        }
        if let Some(ReceiverBinding::Resource(resource)) = operation.receiver {
            if args.len() > 0 {
                match (resource.kind, &args[0]) {
                    (ResourceKind::InputStream, OhosValue::InputStream(id)) => {
                        self.input_streams.insert(*id);
                    },
                    (
                        ResourceKind::Object | ResourceKind::OutputStream,
                        OhosValue::Object(id) | OhosValue::OutputStream(id),
                    ) => {
                        if matches!(
                            operation.kind,
                            OperationKind::OutputStreamNext | OperationKind::OutputStreamCancel
                        ) {
                            self.note_output(*id);
                        } else {
                            self.objects.insert(*id);
                        }
                    },
                    _ => {},
                }
            }
        }
    }

    fn track_return_value(&mut self, operation: &FamilyOperation, value: &OhosValue)
        ensures
            final(self)@ == old(self)@.returned(operation@, *value),
    {
        match (operation.direct_result(), value) {
            (Some(ResourceKind::Object), OhosValue::Object(id)) => {
                self.objects.insert(*id);
            },
            (Some(ResourceKind::OutputStream), OhosValue::OutputStream(id)) => {
                self.note_output(*id);
            },
            _ => {},
        }
    }

    /// Guards a callback that must not be entered again, unless it is running.
    fn guard_callback(
        &mut self,
        callback_type: u32,
        callback_id: u32,
        reentrancy: CallbackReentrancy,
    ) -> (r: Result<Option<(u32, u32)>, OhosEngineError>)
        ensures
            if reentrancy is Forbidden && old(self)@.active.contains((callback_type, callback_id)) {
                model::refused(
                    old(self)@,
                    OhosEngineError::ReentrancyForbidden { callback_type, callback_id },
                    final(self)@,
                    r,
                )
            } else {
                let guard = if reentrancy is Forbidden {
                    Some((callback_type, callback_id))
                } else {
                    None
                };
                &&& final(self)@ == old(self)@.guarded(guard)
                &&& r == Ok::<Option<(u32, u32)>, OhosEngineError>(guard)
            },
    {
        if matches!(reentrancy, CallbackReentrancy::Allowed) {
            return Ok(None);
        }
        if self.active_callbacks.contains(&(callback_type, callback_id)) {
            return Err(OhosEngineError::ReentrancyForbidden { callback_type, callback_id });
        }
        self.active_callbacks.insert((callback_type, callback_id));
        Ok(Some((callback_type, callback_id)))
    }

    /// Lifts the guard of a callback that has returned.
    pub fn leave_callback(&mut self, guard: Option<(u32, u32)>)
        ensures
            final(self)@ == old(self)@.unguarded(guard),
    {
        if let Some(key) = guard {
            self.active_callbacks.remove(&key);
        }
    }

    /// Accepts a synchronous operation. The host is to be asked what the
    /// invocation says, and the answer goes to [`Self::finish_sync`].
    pub fn begin_sync(&mut self, operation_id: u32, args: &[OhosValue]) -> (r: Result<
        SyncInvocation,
        OhosEngineError,
    >)
        ensures
            model::sync_begun(old(self)@, operation_id, args@, final(self)@, r),
    {
        if self.closed {
            return Err(OhosEngineError::Closed);
        }
        let operation = match self.operation(operation_id) {
            Ok(operation) => operation,
            Err(error) => {
                return Err(error);
            },
        };
        self.track_inputs_and_objects(&operation, args);
        if !matches!(operation.async_kind, AsyncKind::Sync) {
            return Err(OhosEngineError::InvalidValue { expected: "sync operation" });
        }
        let request = match host_request(operation.target, args) {
            Ok(request) => request,
            Err(error) => {
                return Err(error);
            },
        };
        let mut guard: Option<(u32, u32)> = None;
        if let HostRequest::InvokeCallback { callback_type, callback_id, .. } = request {
            let reentrancy = self.callback_reentrancy_for_method(&operation, callback_type);
            match self.guard_callback(callback_type, callback_id, reentrancy) {
                Ok(entered) => {
                    guard = entered;
                },
                Err(error) => {
                    return Err(error);
                },
            }
        }
        Ok(SyncInvocation { operation, request, guard })
    }

    /// Ends an accepted operation with the answer of the host.
    pub fn finish_sync(
        &mut self,
        invocation: SyncInvocation,
        result: Result<OhosValue, OhosError>,
    ) -> (r: Result<OhosValue, OhosEngineError>)
        ensures
            r == model::lifted(result),
            final(self)@ == old(self)@.finished(invocation.operation@, invocation.guard, result),
    {
        if let Ok(value) = &result {
            self.track_return_value(&invocation.operation, value);
        }
        self.leave_callback(invocation.guard);
        lift(result)
    }

    /// Runs a synchronous operation.
    pub fn invoke_sync(&mut self, operation_id: u32, args: &[OhosValue]) -> (r: Result<
        OhosValue,
        OhosEngineError,
    >)
        ensures
            model::sync_outcome(old(self)@, operation_id, args@, final(self)@, r),
    {
        let invocation = match self.begin_sync(operation_id, args) {
            Ok(invocation) => invocation,
            Err(error) => {
                return Err(error);
            },
        };
        let ghost begun = self@;
        let ghost guard = invocation.guard;
        let result = match invocation.request {
            HostRequest::InvokeSync => self.port.invoke_sync(operation_id, args),
            HostRequest::InvokeCallback { callback_type, callback_id, method_id } => {
                self.port.invoke_callback(callback_type, callback_id, method_id, args)
            },
            HostRequest::PullInputStream(stream) => self.port.pull_input_stream(stream),
            HostRequest::CancelInputStream(stream) => match self.port.cancel_input_stream(stream) {
                Ok(_) => Ok(OhosValue::Unit),
                Err(error) => Err(error),
            },
        };
        let r = self.finish_sync(invocation, result);
        proof {
            if let Some(key) = guard {
                assert(old(self)@.active.insert(key).remove(key) =~= old(self)@.active);
            }
        }
        r
    }

    /// Accepts the run of a callback. After it has returned, the guard goes to
    /// [`Self::leave_callback`].
    pub fn enter_callback(&mut self, callback_type: u32, callback_id: u32) -> (r: Result<
        Option<(u32, u32)>,
        OhosEngineError,
    >)
        ensures
            model::callback_begun(old(self)@, callback_type, callback_id, final(self)@, r),
    {
        if self.closed {
            return Err(OhosEngineError::Closed);
        }
        let reentrancy = self.callback_reentrancy_for_type(callback_type);
        self.guard_callback(callback_type, callback_id, reentrancy)
    }

    /// Accepts an asynchronous operation.
    pub fn invoke_async(&mut self, operation_id: u32, args: Vec<OhosValue>) -> (r: Result<
        AsyncInvocation,
        OhosEngineError,
    >)
        ensures
            model::async_outcome(old(self)@, operation_id, args, final(self)@, r),
    {
        if self.closed {
            return Err(OhosEngineError::Closed);
        }
        let operation = match self.operation(operation_id) {
            Ok(operation) => operation,
            Err(error) => {
                return Err(error);
            },
        };
        self.track_inputs_and_objects(&operation, args.as_slice());
        if !matches!(operation.async_kind, AsyncKind::Async) {
            return Err(OhosEngineError::InvalidValue { expected: "async operation" });
        }
        let mut guard: Option<(u32, u32)> = None;
        if let FamilyOperationTarget::CallbackHost { callback_type_id, .. } = operation.target {
            match callback_id(args.as_slice()) {
                Err(error) => {
                    return Err(error);
                },
                Ok(callback) => {
                    let reentrancy = self.callback_reentrancy_for_method(
                        &operation,
                        callback_type_id,
                    );
                    if matches!(reentrancy, CallbackReentrancy::Forbidden) {
                        if self.active_callbacks.contains(&(callback_type_id, callback)) {
                            return Err(
                                OhosEngineError::ReentrancyForbidden {
                                    callback_type: callback_type_id,
                                    callback_id: callback,
                                },
                            );
                        }
                        self.active_callbacks.insert((callback_type_id, callback));
                        guard = Some((callback_type_id, callback));
                    }
                },
            }
        }
        Ok(AsyncInvocation { operation_id, target: operation.target, args, guard })
    }

    /// Goes on with an accepted operation: asks the host where the answer comes
    /// at once.
    pub fn resume(&mut self, invocation: &AsyncInvocation) -> (step: AsyncStep)
        ensures
            model::resume_outcome(old(self)@, *invocation, final(self)@, step),
    {
        let args: &[OhosValue] = invocation.args.as_slice();
        match async_request(invocation) {
            Err(error) => AsyncStep::Answered(Err(error)),
            Ok(HostRequest::InvokeSync) => AsyncStep::AwaitNative,
            Ok(HostRequest::InvokeCallback { callback_type, callback_id, method_id }) => {
                AsyncStep::Answered(
                    self.port.invoke_callback(callback_type, callback_id, method_id, args),
                )
            },
            Ok(HostRequest::PullInputStream(stream)) => AsyncStep::Answered(
                self.port.pull_input_stream(stream),
            ),
            Ok(HostRequest::CancelInputStream(stream)) => {
                match self.port.cancel_input_stream(stream) {
                    Ok(_) => AsyncStep::Answered(Ok(OhosValue::Unit)),
                    Err(error) => AsyncStep::Answered(Err(error)),
                }
            },
        }
    }

    /// Ends an accepted operation: notes its result and lifts its guard.
    pub fn settle(
        &mut self,
        invocation: AsyncInvocation,
        result: Result<OhosValue, OhosError>,
    ) -> (r: Result<OhosValue, OhosError>)
        ensures
            r == result,
            final(self)@ == old(self)@.settled(invocation.guard, result),
    {
        if let Ok(value) = &result {
            match value {
                OhosValue::Object(id) => {
                    self.objects.insert(*id);
                },
                OhosValue::OutputStream(id) => {
                    self.note_output(*id);
                },
                _ => {},
            }
        }
        if let Some(key) = invocation.guard {
            self.active_callbacks.remove(&key);
        }
        result
    }

    /// Runs a method of a callback.
    pub fn invoke_callback(
        &mut self,
        callback_type: u32,
        callback_id: u32,
        method_id: u32,
        args: &[OhosValue],
    ) -> (r: Result<OhosValue, OhosEngineError>)
        ensures
            model::callback_outcome(
                old(self)@,
                callback_type,
                callback_id,
                method_id,
                args@,
                final(self)@,
                r,
            ),
    {
        let guard = match self.enter_callback(callback_type, callback_id) {
            Ok(guard) => guard,
            Err(error) => {
                return Err(error);
            },
        };
        let result = self.port.invoke_callback(callback_type, callback_id, method_id, args);
        self.leave_callback(guard);
        proof {
            if let Some(key) = guard {
                assert(old(self)@.active.insert(key).remove(key) =~= old(self)@.active);
            }
        }
        lift(result)
    }

    /// Keeps a callback alive.
    pub fn retain_callback(&mut self, callback_type: u32, callback_id: u32) -> (r: Result<
        (),
        OhosEngineError,
    >)
        ensures
            model::retain_outcome(old(self)@, callback_type, callback_id, final(self)@, r),
    {
        if self.closed {
            return Err(OhosEngineError::Closed);
        }
        if self.retained_callbacks.insert((callback_type, callback_id)) {
            return lift(self.port.retain_callback(callback_type, callback_id));
        }
        assert(self@.retained =~= old(self)@.retained);
        Ok(())
    }

    /// Gives a callback back.
    pub fn release_callback(&mut self, callback_type: u32, callback_id: u32) -> (r: Result<
        (),
        OhosEngineError,
    >)
        ensures
            model::release_callback_outcome(old(self)@, callback_type, callback_id, final(self)@, r),
    {
        if self.closed {
            return Err(OhosEngineError::Closed);
        }
        if self.retained_callbacks.remove(&(callback_type, callback_id)) {
            return lift(self.port.release_callback(callback_type, callback_id));
        }
        assert(self@.retained =~= old(self)@.retained);
        Ok(())
    }

    pub fn cancel_input_stream(&mut self, stream_id: u32) -> (r: Result<(), OhosEngineError>)
        ensures
            model::cancel_input_outcome(old(self)@, stream_id, final(self)@, r),
    {
        if self.closed {
            return Err(OhosEngineError::Closed);
        }
        lift(self.port.cancel_input_stream(stream_id))
    }

    pub fn release_input_stream(&mut self, stream_id: u32) -> (r: Result<(), OhosEngineError>)
        ensures
            model::release_input_outcome(old(self)@, stream_id, final(self)@, r),
    {
        if self.closed {
            return Err(OhosEngineError::Closed);
        }
        if self.input_streams.remove(&stream_id) {
            return lift(self.port.release_input_stream(stream_id));
        }
        assert(self@.inputs =~= old(self)@.inputs);
        Ok(())
    }

    pub fn next_output_stream(&mut self, stream_id: u32) -> (r: Result<OhosValue, OhosEngineError>)
        ensures
            model::next_output_outcome(old(self)@, stream_id, final(self)@, r),
    {
        if self.closed {
            return Err(OhosEngineError::Closed);
        }
        lift(self.port.next_output_stream(stream_id))
    }

    /// Cancels an output stream, once.
    pub fn cancel_output_stream(&mut self, stream_id: u32) -> (r: Result<(), OhosEngineError>)
        ensures
            model::cancel_output_outcome(old(self)@, stream_id, final(self)@, r),
    {
        if self.closed {
            return Err(OhosEngineError::Closed);
        }
        if self.cancelled_output_streams.insert(stream_id) {
            return lift(self.port.cancel_output_stream(stream_id));
        }
        assert(self@.cancelled =~= old(self)@.cancelled);
        Ok(())
    }

    pub fn release_output_stream(&mut self, stream_id: u32) -> (r: Result<(), OhosEngineError>)
        ensures
            model::release_output_outcome(old(self)@, stream_id, final(self)@, r),
    {
        if self.closed {
            return Err(OhosEngineError::Closed);
        }
        let removed: bool = self.output_streams.remove(&stream_id);
        self.cancelled_output_streams.remove(&stream_id);
        if removed {
            return lift(self.port.release_output_stream(stream_id));
        }
        assert(self@.outputs =~= old(self)@.outputs.remove(stream_id));
        Ok(())
    }

    pub fn release_object(&mut self, object_id: u32) -> (r: Result<(), OhosEngineError>)
        ensures
            model::release_object_outcome(old(self)@, object_id, final(self)@, r),
    {
        if self.closed {
            return Err(OhosEngineError::Closed);
        }
        if self.objects.remove(&object_id) {
            return lift(self.port.release_object(object_id));
        }
        assert(self@.objects =~= old(self)@.objects);
        Ok(())
    }
}

impl<H: OhosHost> OhosBackendSession<H> {
    /// Asks the host for one step of the cleanup.
    fn clean(&mut self, step: Cleanup) -> (r: Result<(), OhosError>)
        ensures
            final(self)@ == old(self)@.called(step.call(), HostReply::Done(r)),
    {
        match step {
            Cleanup::ReleaseCallback(callback_type, callback_id) => self.port.release_callback(
                callback_type,
                callback_id,
            ),
            Cleanup::CancelInput(stream_id) => self.port.cancel_input_stream(stream_id),
            Cleanup::ReleaseInput(stream_id) => self.port.release_input_stream(stream_id),
            Cleanup::CancelOutput(stream_id) => self.port.cancel_output_stream(stream_id),
            Cleanup::ReleaseOutput(stream_id) => self.port.release_output_stream(stream_id),
            Cleanup::ReleaseObject(object_id) => self.port.release_object(object_id),
        }
    }

    /// The cleanup of the session, in order.
    fn cleanup_plan(&self) -> (plan: Vec<Cleanup>)
        ensures
            model::cleans_up(plan@, self@),
    {
        let callbacks = ordered::ascending_pairs(&self.retained_callbacks);
        let inputs = ordered::ascending(&self.input_streams);
        let outputs = ordered::ascending(&self.output_streams);
        let objects = ordered::ascending(&self.objects);
        let mut plan: Vec<Cleanup> = Vec::new();
        for i in 0..callbacks.len()
            invariant
                plan@ == model::callback_cleanup(callbacks@.take(i as int)),
        {
            plan.push(Cleanup::ReleaseCallback(callbacks[i].0, callbacks[i].1));
            assert(callbacks@.take(i + 1) =~= callbacks@.take(i as int).push(callbacks@[i as int]));
            assert(plan@ =~= model::callback_cleanup(callbacks@.take(i + 1)));
        }
        assert(callbacks@.take(callbacks@.len() as int) =~= callbacks@);
        let ghost first = plan@;
        assert(first + model::input_cleanup(inputs@.take(0)) =~= first);
        for i in 0..inputs.len()
            invariant
                plan@ == first + model::input_cleanup(inputs@.take(i as int)),
        {
            plan.push(Cleanup::CancelInput(inputs[i]));
            plan.push(Cleanup::ReleaseInput(inputs[i]));
            assert(inputs@.take(i + 1).drop_last() =~= inputs@.take(i as int));
            assert(plan@ =~= first + model::input_cleanup(inputs@.take(i + 1)));
        }
        assert(inputs@.take(inputs@.len() as int) =~= inputs@);
        let ghost second = plan@;
        let ghost cancelled = self@.cancelled;
        assert(second + model::output_cleanup(outputs@.take(0), cancelled) =~= second);
        for i in 0..outputs.len()
            invariant
                cancelled == self@.cancelled,
                plan@ == second + model::output_cleanup(outputs@.take(i as int), cancelled),
        {
            if !self.cancelled_output_streams.contains(&outputs[i]) {
                plan.push(Cleanup::CancelOutput(outputs[i]));
            }
            plan.push(Cleanup::ReleaseOutput(outputs[i]));
            assert(outputs@.take(i + 1).drop_last() =~= outputs@.take(i as int));
            assert(plan@ =~= second + model::output_cleanup(outputs@.take(i + 1), cancelled));
        }
        assert(outputs@.take(outputs@.len() as int) =~= outputs@);
        let ghost third = plan@;
        for i in 0..objects.len()
            invariant
                plan@ == third + model::object_cleanup(objects@.take(i as int)),
        {
            plan.push(Cleanup::ReleaseObject(objects[i]));
            assert(objects@.take(i + 1) =~= objects@.take(i as int).push(objects@[i as int]));
            assert(plan@ =~= third + model::object_cleanup(objects@.take(i + 1)));
        }
        assert(objects@.take(objects@.len() as int) =~= objects@);
        assert(plan@ =~= model::whole_cleanup(callbacks@, inputs@, outputs@, cancelled, objects@));
        plan
    }

    /// Closes the session and cleans up after it. The first refusal of the host
    /// ends the cleanup; the session is closed all the same.
    pub fn close(&mut self) -> (r: Result<(), OhosEngineError>)
        ensures
            model::close_outcome(old(self)@, final(self)@, r),
    {
        if self.closed {
            return Ok(());
        }
        let plan = self.cleanup_plan();
        self.closed = true;
        self.retained_callbacks = BTreeSet::new();
        self.input_streams = BTreeSet::new();
        self.output_streams = BTreeSet::new();
        self.cancelled_output_streams = BTreeSet::new();
        self.objects = BTreeSet::new();
        let ghost past = old(self)@.history;
        let ghost start = past.len() as int;
        for i in 0..plan.len()
            invariant
                start == past.len(),
                past == old(self)@.history,
                !old(self)@.closed,
                model::cleans_up(plan@, old(self)@),
                self@ == (BackendModel { history: self@.history, ..old(self)@.emptied() }),
                self@.history.len() == start + i,
                self@.history.take(start) == past,
                forall|j: int|
                    0 <= j < i ==> {
                        &&& (#[trigger] self@.history.skip(start)[j]).call == plan@[j].call()
                        &&& self@.history.skip(start)[j].reply == HostReply::Done(Ok(()))
                    },
        {
            let ghost before = self@.history;
            let result = self.clean(plan[i]);
            proof {
                let after = self@.history;
                assert(after.take(start) =~= before.take(start));
                assert(after.skip(start) =~= before.skip(start).push(after.last()));
                assert forall|j: int| 0 <= j < i implies #[trigger] after.skip(start)[j]
                    == before.skip(start)[j] by {}
                assert(after.skip(start)[i as int].call == plan@[i as int].call());
                assert(after.skip(start)[i as int].reply == HostReply::Done(result));
            }
            match result {
                Ok(unit) => {
                    assert(unit == ());
                },
                Err(error) => {
                    return Err(OhosEngineError::from(error));
                },
            }
        }
        Ok(())
    }
}

/// Binds hosts to one generated module.
#[derive(Clone, Debug)]
pub struct OhosBackendFactory {
    module: GeneratedOhosModule,
}

impl OhosBackendFactory {
    pub closed spec fn module_model(self) -> GeneratedOhosModule {
        self.module
    }

    pub fn new(module: GeneratedOhosModule) -> (r: OhosBackendFactory)
        ensures
            r.module_model() == module,
    {
        OhosBackendFactory { module }
    }

    pub fn module(&self) -> (r: &GeneratedOhosModule)
        ensures
            *r == self.module_model(),
    {
        &self.module
    }

    /// Opens a session on a host.
    pub fn open<H: OhosHost>(&self, host: H) -> (r: OhosBackendSession<H>)
        ensures
            r@ == BackendModel::opened(self.module_model().family_model()),
    {
        OhosBackendSession::new(&self.module, host)
    }
}

} // verus!
