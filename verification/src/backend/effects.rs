//! What each operation of a backend session asks of the host, and what it
//! remembers.

use crate::backend::model;
use crate::backend::model::{AsyncInvocation, AsyncStep, BackendModel};
use crate::error::{OhosEngineError, OhosError};
use crate::family::{
    CallbackReentrancy, FamilyModel, FamilyOperationTarget, OperationModel, OperationKind,
    ReceiverBinding, ResourceKind, StreamDirection,
};
use crate::host::{HostCall, HostEvent, HostReply};
use crate::value::OhosValue;
use vstd::prelude::*;

verus! {

/// The history grew by one call of the host, which answered with a value: a
/// success is handed on, and an error is one of the host.
pub open spec fn one_value_asked(
    before: Seq<HostEvent>,
    after: Seq<HostEvent>,
    call: HostCall,
    r: Result<OhosValue, OhosEngineError>,
) -> bool {
    &&& after.len() == before.len() + 1
    &&& after.drop_last() == before
    &&& after.last().call == call
    &&& match after.last().reply {
        HostReply::Value(Ok(value)) => r == Ok::<OhosValue, OhosEngineError>(value),
        HostReply::Value(Err(error)) => r == Err::<OhosValue, OhosEngineError>(
            OhosEngineError::Host(error),
        ),
        HostReply::Done(_) => false,
    }
}

/// The history grew by one call of the host, which had no value to give.
pub open spec fn one_thing_asked(
    before: Seq<HostEvent>,
    after: Seq<HostEvent>,
    call: HostCall,
    r: Result<(), OhosEngineError>,
) -> bool {
    &&& after.len() == before.len() + 1
    &&& after.drop_last() == before
    &&& after.last().call == call
    &&& match after.last().reply {
        HostReply::Done(Ok(_)) => r is Ok,
        HostReply::Done(Err(error)) => r == Err::<(), OhosEngineError>(
            OhosEngineError::Host(error),
        ),
        HostReply::Value(_) => false,
    }
}

/// Nothing but the history has changed.
pub open spec fn only_history_differs(before: BackendModel, after: BackendModel) -> bool {
    &&& after.family == before.family
    &&& after.closed == before.closed
    &&& after.retained == before.retained
    &&& after.active == before.active
    &&& after.inputs == before.inputs
    &&& after.outputs == before.outputs
    &&& after.cancelled == before.cancelled
    &&& after.objects == before.objects
}

/// Somewhere in the family, use-site `j` of operation `i` is of this callback
/// type and forbids reentrancy.
pub open spec fn forbidding_site(family: FamilyModel, callback_type: u32, i: int, j: int) -> bool {
    &&& 0 <= i < family.operations.len()
    &&& 0 <= j < family.operations[i].callbacks.len()
    &&& family.operations[i].callbacks[j].callback_type_id == callback_type
    &&& family.operations[i].callbacks[j].contract.reentrancy == CallbackReentrancy::Forbidden
}

/// A callback that is not running is run: the host is asked once, for that method
/// of that callback with those arguments, and its answer is the result.
pub proof fn idle_callback_is_run(
    before: BackendModel,
    callback_type: u32,
    callback_id: u32,
    method_id: u32,
    args: Seq<OhosValue>,
    after: BackendModel,
    r: Result<OhosValue, OhosEngineError>,
)
    requires
        model::callback_outcome(before, callback_type, callback_id, method_id, args, after, r),
        !before.closed,
        !before.active.contains((callback_type, callback_id)),
    ensures
        one_value_asked(
            before.history,
            after.history,
            HostCall::InvokeCallback { callback_type, callback_id, method_id, args },
            r,
        ),
        only_history_differs(before, after),
{
    assert(after.history.drop_last() =~= before.history);
}

/// A callback that is running is run again exactly where no use-site of its type
/// forbids that; otherwise nothing happens at all.
pub proof fn running_callback_is_run_again_only_where_allowed(
    before: BackendModel,
    callback_type: u32,
    callback_id: u32,
    method_id: u32,
    args: Seq<OhosValue>,
    after: BackendModel,
    r: Result<OhosValue, OhosEngineError>,
)
    requires
        model::callback_outcome(before, callback_type, callback_id, method_id, args, after, r),
        !before.closed,
        before.active.contains((callback_type, callback_id)),
    ensures
        (exists|i: int, j: int| #[trigger]
            forbidding_site(before.family, callback_type, i, j)) ==> after == before && r == Err::<
            OhosValue,
            OhosEngineError,
        >(OhosEngineError::ReentrancyForbidden { callback_type, callback_id }),
        (forall|i: int, j: int|
            !(#[trigger] forbidding_site(before.family, callback_type, i, j))) ==> one_value_asked(
            before.history,
            after.history,
            HostCall::InvokeCallback { callback_type, callback_id, method_id, args },
            r,
        ) && only_history_differs(before, after),
{
    lemma_type_forbids(before.family, callback_type);
    assert(after.history.len() > 0 ==> after.history.drop_last() =~= after.history.take(
        after.history.len() - 1,
    ));
    if !model::type_forbids(before.family, callback_type) {
        assert(after.history.drop_last() =~= before.history);
    }
}

/// A callback type forbids reentrancy exactly where one of its use-sites does.
pub proof fn lemma_type_forbids(family: FamilyModel, callback_type: u32)
    ensures
        model::type_forbids(family, callback_type) <==> exists|i: int, j: int| #[trigger]
            forbidding_site(family, callback_type, i, j),
{
    if model::type_forbids(family, callback_type) {
        let i = choose|i: int|
            0 <= i < family.operations.len() && model::forbids(
                (#[trigger] family.operations[i]).callbacks,
                callback_type,
            );
        let sites = family.operations[i].callbacks;
        let j = choose|j: int|
            0 <= j < sites.len() && (#[trigger] sites[j]).callback_type_id == callback_type
                && sites[j].contract.reentrancy is Forbidden;
        assert(forbidding_site(family, callback_type, i, j));
    }
    if exists|i: int, j: int| #[trigger] forbidding_site(family, callback_type, i, j) {
        let (i, j) = choose|i: int, j: int| #[trigger] forbidding_site(family, callback_type, i, j);
        let sites = family.operations[i].callbacks;
        assert(sites[j].callback_type_id == callback_type);
        assert(model::forbids(family.operations[i].callbacks, callback_type));
    }
}

/// The operation behind a number is the first one of the family that has it.
pub proof fn operation_is_the_first_with_its_number(
    session: BackendModel,
    operation_id: u32,
    k: int,
)
    requires
        0 <= k < session.family.operations.len(),
        session.family.operations[k].id == operation_id,
        forall|i: int|
            0 <= i < k ==> (#[trigger] session.family.operations[i]).id != operation_id,
    ensures
        session.operation(operation_id) == Some(session.family.operations[k]),
{
    lemma_operation_found(session.family.operations, operation_id, k, 0);
}

proof fn lemma_operation_found(
    operations: Seq<OperationModel>,
    operation_id: u32,
    k: int,
    from: int,
)
    requires
        0 <= from <= k < operations.len(),
        operations[k].id == operation_id,
        forall|i: int| 0 <= i < k ==> (#[trigger] operations[i]).id != operation_id,
    ensures
        model::operation_from(operations, operation_id, from) == Some(operations[k]),
    decreases k - from,
{
    if from < k {
        lemma_operation_found(operations, operation_id, k, from + 1);
    }
}

/// A number that no operation of the family has is unknown.
pub proof fn missing_number_is_unknown(session: BackendModel, operation_id: u32)
    requires
        forall|i: int|
            0 <= i < session.family.operations.len() ==> (
            #[trigger] session.family.operations[i]).id != operation_id,
    ensures
        session.operation(operation_id) is None,
{
    lemma_operation_missing(session.family.operations, operation_id, 0);
}

proof fn lemma_operation_missing(operations: Seq<OperationModel>, operation_id: u32, from: int)
    requires
        0 <= from,
        forall|i: int| 0 <= i < operations.len() ==> (#[trigger] operations[i]).id != operation_id,
    ensures
        model::operation_from(operations, operation_id, from) is None,
    decreases operations.len() - from,
{
    if from < operations.len() {
        lemma_operation_missing(operations, operation_id, from + 1);
    }
}

/// The first argument names this stream: it is one, or a number that is cut down
/// to it.
pub open spec fn names_stream(args: Seq<OhosValue>, stream_id: u32) -> bool {
    &&& args.len() > 0
    &&& match args[0] {
        OhosValue::InputStream(id) => id == stream_id,
        OhosValue::OutputStream(id) => id == stream_id,
        OhosValue::Number(number) => number.non_negative() && number.floors_to(stream_id),
        _ => false,
    }
}

/// What a synchronous operation asks of the host, by its target: a native one for
/// itself, a callback method for the callback of its first argument, and a stream
/// operation for the stream of its first argument. The answer is the result.
pub proof fn sync_operation_asks_for_its_target(
    before: BackendModel,
    operation_id: u32,
    operation: OperationModel,
    args: Seq<OhosValue>,
    after: BackendModel,
    r: Result<OhosValue, OhosEngineError>,
    subject: u32,
)
    requires
        model::sync_outcome(before, operation_id, args, after, r),
        !before.closed,
        before.operation(operation_id) == Some(operation),
        operation.async_kind is Sync,
        before.active == Set::<(u32, u32)>::empty(),
    ensures
        operation.target is Native ==> one_value_asked(
            before.history,
            after.history,
            HostCall::InvokeSync { operation_id, args },
            r,
        ),
        operation.target matches FamilyOperationTarget::CallbackHost { callback_type_id, method_id }
            ==> (args.len() > 0 && args[0] == OhosValue::Callback(subject) ==> one_value_asked(
            before.history,
            after.history,
            HostCall::InvokeCallback {
                callback_type: callback_type_id,
                callback_id: subject,
                method_id,
                args,
            },
            r,
        )),
        operation.target is InputStreamHostPull && names_stream(args, subject) ==> one_value_asked(
            before.history,
            after.history,
            HostCall::PullInputStream { stream_id: subject },
            r,
        ),
        operation.target is InputStreamHostCancel && names_stream(args, subject) ==> {
            &&& after.history.len() == before.history.len() + 1
            &&& after.history.drop_last() == before.history
            &&& after.history.last().call == HostCall::CancelInputStream { stream_id: subject }
            &&& match after.history.last().reply {
                HostReply::Done(Ok(_)) => r == Ok::<OhosValue, OhosEngineError>(OhosValue::Unit),
                HostReply::Done(Err(error)) => r == Err::<OhosValue, OhosEngineError>(
                    OhosEngineError::Host(error),
                ),
                HostReply::Value(_) => false,
            }
        },
{
    lemma_stream_named(args, subject);
    assert(after.history.len() > before.history.len() ==> after.history.drop_last()
        =~= before.history);
}

pub(crate) proof fn lemma_stream_named(args: Seq<OhosValue>, subject: u32)
    ensures
        names_stream(args, subject) ==> model::stream_named(args) == Some(subject),
{
    if names_stream(args, subject) {
        if let OhosValue::Number(number) = args[0] {
            crate::number::floor_is_unique(number, subject);
        }
    }
}

/// A synchronous operation is refused without a word to the host, exactly where
/// the session is closed, the number is unknown, the operation is asynchronous,
/// or its first argument is not what it is about.
pub proof fn sync_operation_is_refused(
    before: BackendModel,
    operation_id: u32,
    args: Seq<OhosValue>,
    after: BackendModel,
    r: Result<OhosValue, OhosEngineError>,
)
    requires
        model::sync_outcome(before, operation_id, args, after, r),
    ensures
        before.closed ==> r == Err::<OhosValue, OhosEngineError>(OhosEngineError::Closed) && after
            == before,
        !before.closed && before.operation(operation_id) is None ==> r == Err::<
            OhosValue,
            OhosEngineError,
        >(OhosEngineError::UnknownOperation { operation_id }) && after == before,
        !before.closed ==> (before.operation(operation_id) matches Some(operation) ==> {
            &&& operation.async_kind is Async ==> r == Err::<OhosValue, OhosEngineError>(
                OhosEngineError::InvalidValue { expected: "sync operation" },
            ) && after.history == before.history
            &&& operation.async_kind is Sync && operation.target is CallbackHost && (args.len() == 0
                || !(args[0] is Callback)) ==> r == Err::<OhosValue, OhosEngineError>(
                OhosEngineError::InvalidValue { expected: "callback ID" },
            ) && after.history == before.history
            &&& operation.async_kind is Sync && (operation.target is InputStreamHostPull
                || operation.target is InputStreamHostCancel) && (args.len() == 0 || !(
            args[0] is InputStream || args[0] is OutputStream || args[0] is Number)) ==> r == Err::<
                OhosValue,
                OhosEngineError,
            >(OhosEngineError::InvalidValue { expected: "stream ID" }) && after.history
                == before.history
        }),
{
    if let Some(operation) = before.operation(operation_id) {
        call_remembers_what_goes_in(before, operation, args, 0, 0);
    }
}

/// What goes into a call is remembered: an input stream right after the receiver,
/// where the operation takes one, and the receiver itself, as the stream or the
/// object that it is. Nothing else is.
pub proof fn call_remembers_what_goes_in(
    session: BackendModel,
    operation: OperationModel,
    args: Seq<OhosValue>,
    id: u32,
    site: int,
)
    ensures
        ({
            let noted = session.noted(operation, args);
            let offset: int = if operation.receiver is Some {
                1
            } else {
                0
            };
            &&& 0 <= site < operation.streams.len() && operation.streams[site].direction
                == StreamDirection::Input && args.len() > offset && args[offset]
                == OhosValue::InputStream(id) ==> noted.inputs.contains(id)
            &&& (operation.receiver matches Some(ReceiverBinding::Resource(resource)) ==> (
            args.len() > 0 ==> {
                &&& resource.kind == ResourceKind::InputStream && args[0] == OhosValue::InputStream(
                    id,
                ) ==> noted.inputs.contains(id)
                &&& resource.kind != ResourceKind::InputStream && (args[0] == OhosValue::Object(id)
                    || args[0] == OhosValue::OutputStream(id)) ==> if operation.kind
                    == OperationKind::OutputStreamNext || operation.kind
                    == OperationKind::OutputStreamCancel {
                    noted.outputs.contains(id) && !noted.cancelled.contains(id)
                } else {
                    noted.objects.contains(id)
                }
            }))
            &&& noted.inputs.contains(id) ==> session.inputs.contains(id) || (exists|i: int|
                0 <= i <= 1 && i < args.len() && #[trigger] args[i] == OhosValue::InputStream(id))
            &&& noted.outputs.contains(id) && !session.outputs.contains(id) ==> (operation.kind
                == OperationKind::OutputStreamNext || operation.kind
                == OperationKind::OutputStreamCancel) && args.len() > 0 && (args[0]
                == OhosValue::Object(id) || args[0] == OhosValue::OutputStream(id))
            &&& noted.objects.contains(id) && !session.objects.contains(id) ==> operation.kind
                != OperationKind::OutputStreamNext && operation.kind
                != OperationKind::OutputStreamCancel && args.len() > 0 && (args[0]
                == OhosValue::Object(id) || args[0] == OhosValue::OutputStream(id))
            &&& session.inputs.contains(id) ==> noted.inputs.contains(id)
            &&& session.outputs.contains(id) ==> noted.outputs.contains(id)
            &&& session.objects.contains(id) ==> noted.objects.contains(id)
            &&& noted.cancelled.contains(id) ==> session.cancelled.contains(id)
            &&& noted.retained == session.retained
            &&& noted.active == session.active
            &&& noted.family == session.family
            &&& noted.closed == session.closed
            &&& noted.history == session.history
        }),
{
    if args.len() > 0 {
        assert(args[0] == args[0]);
    }
    if args.len() > 1 {
        assert(args[1] == args[1]);
    }
}

/// What a call returns is remembered where the result itself is such a resource:
/// an object as an object, an output stream as one that runs. Nothing else is.
pub proof fn call_remembers_what_it_returns(
    session: BackendModel,
    operation: OperationModel,
    value: OhosValue,
    id: u32,
)
    ensures
        ({
            let returned = session.returned(operation, value);
            &&& operation.direct_result() == Some(ResourceKind::Object) && value
                == OhosValue::Object(id) ==> returned == (BackendModel {
                objects: session.objects.insert(id),
                ..session
            })
            &&& operation.direct_result() == Some(ResourceKind::OutputStream) && value
                == OhosValue::OutputStream(id) ==> returned == (BackendModel {
                outputs: session.outputs.insert(id),
                cancelled: session.cancelled.remove(id),
                ..session
            })
            &&& !(value is Object) && !(value is OutputStream) ==> returned == session
            &&& operation.direct_result() is None || operation.direct_result() == Some(
                ResourceKind::InputStream,
            ) ==> returned == session
        }),
{
}

/// The kind of the result itself is that of the first use-site whose path is the
/// whole result.
pub proof fn direct_result_is_the_first_whole_return(operation: OperationModel, k: int)
    requires
        0 <= k < operation.result_resources.len(),
        operation.result_resources[k].path.whole_return(),
        forall|i: int|
            0 <= i < k ==> !(#[trigger] operation.result_resources[i]).path.whole_return(),
    ensures
        operation.direct_result() == Some(operation.result_resources[k].binding.kind),
{
    lemma_direct_kind(operation, k, 0);
}

proof fn lemma_direct_kind(operation: OperationModel, k: int, from: int)
    requires
        0 <= from <= k < operation.result_resources.len(),
        operation.result_resources[k].path.whole_return(),
        forall|i: int|
            0 <= i < k ==> !(#[trigger] operation.result_resources[i]).path.whole_return(),
    ensures
        crate::family::direct_kind_from(operation.result_resources, from) == Some(
            operation.result_resources[k].binding.kind,
        ),
    decreases k - from,
{
    if from < k {
        assert(!operation.result_resources[from].path.whole_return());
        lemma_direct_kind(operation, k, from + 1);
    }
}

/// Keeping a callback tells the host of that callback, the first time.
pub proof fn callback_is_retained_by_name(
    before: BackendModel,
    callback_type: u32,
    callback_id: u32,
    after: BackendModel,
    r: Result<(), OhosEngineError>,
)
    requires
        !before.closed,
        model::retain_outcome(before, callback_type, callback_id, after, r),
    ensures
        after == (BackendModel {
            retained: before.retained.insert((callback_type, callback_id)),
            history: after.history,
            ..before
        }),
        if before.retained.contains((callback_type, callback_id)) {
            after.history == before.history && r is Ok
        } else {
            one_thing_asked(before.history, after.history, HostCall::RetainCallback { callback_type, callback_id }, r)
        },
{
    assert(before.history.push(after.history.last()).drop_last() =~= before.history);
    assert(before.retained.contains((callback_type, callback_id)) ==> before.retained.insert(
        (callback_type, callback_id),
    ) =~= before.retained);
}

/// Giving a callback back tells the host of that callback, where it was kept.
pub proof fn callback_is_released_by_name(
    before: BackendModel,
    callback_type: u32,
    callback_id: u32,
    after: BackendModel,
    r: Result<(), OhosEngineError>,
)
    requires
        !before.closed,
        model::release_callback_outcome(before, callback_type, callback_id, after, r),
    ensures
        after == (BackendModel {
            retained: before.retained.remove((callback_type, callback_id)),
            history: after.history,
            ..before
        }),
        if before.retained.contains((callback_type, callback_id)) {
            one_thing_asked(before.history, after.history, HostCall::ReleaseCallback { callback_type, callback_id }, r)
        } else {
            after.history == before.history && r is Ok
        },
{
    assert(before.history.push(after.history.last()).drop_last() =~= before.history);
    assert(!before.retained.contains((callback_type, callback_id)) ==> before.retained.remove(
        (callback_type, callback_id),
    ) =~= before.retained);
}

/// Cancelling an input stream tells the host of that stream.
pub proof fn input_stream_is_cancelled_by_name(
    before: BackendModel,
    stream_id: u32,
    after: BackendModel,
    r: Result<(), OhosEngineError>,
)
    requires
        !before.closed,
        model::cancel_input_outcome(before, stream_id, after, r),
    ensures
        only_history_differs(before, after),
        one_thing_asked(before.history, after.history, HostCall::CancelInputStream { stream_id }, r),
{
    assert(before.history.push(after.history.last()).drop_last() =~= before.history);
}

/// Releasing an input stream tells the host of that stream, where it is known.
pub proof fn input_stream_is_released_by_name(
    before: BackendModel,
    stream_id: u32,
    after: BackendModel,
    r: Result<(), OhosEngineError>,
)
    requires
        !before.closed,
        model::release_input_outcome(before, stream_id, after, r),
    ensures
        after == (BackendModel {
            inputs: before.inputs.remove(stream_id),
            history: after.history,
            ..before
        }),
        if before.inputs.contains(stream_id) {
            one_thing_asked(before.history, after.history, HostCall::ReleaseInputStream { stream_id }, r)
        } else {
            after.history == before.history && r is Ok
        },
{
    assert(before.history.push(after.history.last()).drop_last() =~= before.history);
    assert(!before.inputs.contains(stream_id) ==> before.inputs.remove(stream_id)
        =~= before.inputs);
}

/// Cancelling an output stream tells the host of that stream, the first time.
pub proof fn output_stream_is_cancelled_by_name(
    before: BackendModel,
    stream_id: u32,
    after: BackendModel,
    r: Result<(), OhosEngineError>,
)
    requires
        !before.closed,
        model::cancel_output_outcome(before, stream_id, after, r),
    ensures
        after == (BackendModel {
            cancelled: before.cancelled.insert(stream_id),
            history: after.history,
            ..before
        }),
        if before.cancelled.contains(stream_id) {
            after.history == before.history && r is Ok
        } else {
            one_thing_asked(before.history, after.history, HostCall::CancelOutputStream { stream_id }, r)
        },
{
    assert(before.history.push(after.history.last()).drop_last() =~= before.history);
    assert(before.cancelled.contains(stream_id) ==> before.cancelled.insert(stream_id)
        =~= before.cancelled);
}

/// Releasing an output stream tells the host of that stream, where it is known,
/// and forgets that it was cancelled.
pub proof fn output_stream_is_released_by_name(
    before: BackendModel,
    stream_id: u32,
    after: BackendModel,
    r: Result<(), OhosEngineError>,
)
    requires
        !before.closed,
        model::release_output_outcome(before, stream_id, after, r),
    ensures
        after == (BackendModel {
            outputs: before.outputs.remove(stream_id),
            cancelled: before.cancelled.remove(stream_id),
            history: after.history,
            ..before
        }),
        if before.outputs.contains(stream_id) {
            one_thing_asked(before.history, after.history, HostCall::ReleaseOutputStream { stream_id }, r)
        } else {
            after.history == before.history && r is Ok
        },
{
    assert(before.history.push(after.history.last()).drop_last() =~= before.history);
}

/// Releasing an object tells the host of that object, where it is known.
pub proof fn object_is_released_by_name(
    before: BackendModel,
    object_id: u32,
    after: BackendModel,
    r: Result<(), OhosEngineError>,
)
    requires
        !before.closed,
        model::release_object_outcome(before, object_id, after, r),
    ensures
        after == (BackendModel {
            objects: before.objects.remove(object_id),
            history: after.history,
            ..before
        }),
        if before.objects.contains(object_id) {
            one_thing_asked(before.history, after.history, HostCall::ReleaseObject { object_id }, r)
        } else {
            after.history == before.history && r is Ok
        },
{
    assert(before.history.push(after.history.last()).drop_last() =~= before.history);
    assert(!before.objects.contains(object_id) ==> before.objects.remove(object_id)
        =~= before.objects);
}

/// The next item of an output stream is asked of the host.
pub proof fn next_item_is_asked_of_its_stream(
    before: BackendModel,
    stream_id: u32,
    after: BackendModel,
    r: Result<OhosValue, OhosEngineError>,
)
    requires
        !before.closed,
        model::next_output_outcome(before, stream_id, after, r),
    ensures
        only_history_differs(before, after),
        one_value_asked(
            before.history,
            after.history,
            HostCall::NextOutputStream { stream_id },
            r,
        ),
{
    assert(after.history.drop_last() =~= before.history);
}

/// An asynchronous operation is accepted as it was asked for: its number, its
/// target and its arguments go into the invocation, and the host is not asked
/// yet.
pub proof fn async_operation_is_accepted_as_asked(
    before: BackendModel,
    operation_id: u32,
    operation: OperationModel,
    args: Vec<OhosValue>,
    after: BackendModel,
    r: Result<AsyncInvocation, OhosEngineError>,
)
    requires
        model::async_outcome(before, operation_id, args, after, r),
        !before.closed,
        before.operation(operation_id) == Some(operation),
    ensures
        after.history == before.history,
        operation.async_kind is Sync ==> r == Err::<AsyncInvocation, OhosEngineError>(
            OhosEngineError::InvalidValue { expected: "async operation" },
        ),
        operation.async_kind is Async && operation.target is CallbackHost && (args@.len() == 0 || !(
        args@[0] is Callback)) ==> r == Err::<AsyncInvocation, OhosEngineError>(
            OhosEngineError::InvalidValue { expected: "callback ID" },
        ),
        operation.async_kind is Async && !(operation.target is CallbackHost) ==> r is Ok,
        r matches Ok(invocation) ==> {
            &&& invocation.operation_id == operation_id
            &&& invocation.target == operation.target
            &&& invocation.args == args
            &&& invocation.guard matches Some((callback_type, callback_id)) ==> {
                &&& args@.len() > 0 && args@[0] == OhosValue::Callback(callback_id)
                &&& operation.target matches FamilyOperationTarget::CallbackHost {
                    callback_type_id,
                    ..
                } && callback_type_id == callback_type
                &&& after.active == before.active.insert((callback_type, callback_id))
            }
            &&& invocation.guard is None ==> after.active == before.active
        },
        after.retained == before.retained,
{
    call_remembers_what_goes_in(before, operation, args@, 0, 0);
}

/// An accepted callback method, pull or cancel asks the host for the callback or
/// the stream of its first argument; a native operation is left to be awaited.
pub proof fn accepted_operation_asks_for_its_target(
    before: BackendModel,
    invocation: AsyncInvocation,
    after: BackendModel,
    step: AsyncStep,
    subject: u32,
)
    requires
        model::resume_outcome(before, invocation, after, step),
    ensures
        invocation.target is Native ==> step is AwaitNative && after == before,
        invocation.target matches FamilyOperationTarget::CallbackHost { callback_type_id, method_id }
            ==> (invocation.args@.len() > 0 && invocation.args@[0] == OhosValue::Callback(subject)
            ==> {
            &&& only_history_differs(before, after)
            &&& after.history.len() == before.history.len() + 1
            &&& after.history.last().call == HostCall::InvokeCallback {
                callback_type: callback_type_id,
                callback_id: subject,
                method_id,
                args: invocation.args@,
            }
            &&& after.history.last().reply matches HostReply::Value(value) && step
                == AsyncStep::Answered(value)
        }),
        invocation.target is InputStreamHostPull && names_stream(invocation.args@, subject) ==> {
            &&& only_history_differs(before, after)
            &&& after.history.len() == before.history.len() + 1
            &&& after.history.last().call == HostCall::PullInputStream { stream_id: subject }
            &&& after.history.last().reply matches HostReply::Value(value) && step
                == AsyncStep::Answered(value)
        },
        invocation.target is InputStreamHostCancel && names_stream(invocation.args@, subject) ==> {
            &&& only_history_differs(before, after)
            &&& after.history.len() == before.history.len() + 1
            &&& after.history.last().call == HostCall::CancelInputStream { stream_id: subject }
            &&& match after.history.last().reply {
                HostReply::Done(Ok(_)) => step == AsyncStep::Answered(
                    Ok::<OhosValue, OhosError>(OhosValue::Unit),
                ),
                HostReply::Done(Err(error)) => step == AsyncStep::Answered(
                    Err::<OhosValue, OhosError>(error),
                ),
                HostReply::Value(_) => false,
            }
        },
{
    lemma_stream_named(invocation.args@, subject);
}

/// A suspended call that ends is remembered for what it gave, an object or an
/// output stream, and its callback is no longer running; everything else stays.
pub proof fn ended_call_is_remembered(
    session: BackendModel,
    guard: Option<(u32, u32)>,
    result: Result<OhosValue, OhosError>,
    id: u32,
)
    ensures
        ({
            let ended = session.settled(guard, result);
            &&& result == Ok::<OhosValue, OhosError>(OhosValue::Object(id)) ==> ended.objects
                == session.objects.insert(id) && ended.outputs == session.outputs
            &&& result == Ok::<OhosValue, OhosError>(OhosValue::OutputStream(id)) ==> {
                &&& ended.outputs == session.outputs.insert(id)
                &&& ended.cancelled == session.cancelled.remove(id)
                &&& ended.objects == session.objects
            }
            &&& result is Err ==> ended.objects == session.objects && ended.outputs
                == session.outputs && ended.cancelled == session.cancelled
            &&& guard is None ==> ended.active == session.active
            &&& guard matches Some(key) ==> ended.active == session.active.remove(key)
            &&& ended.inputs == session.inputs
            &&& ended.retained == session.retained
            &&& ended.closed == session.closed
            &&& ended.family == session.family
            &&& ended.history == session.history
        }),
{
}

/// An operation that is known takes note of the stream and of the receiver among
/// its arguments, whether it then succeeds or not: `id` is tracked as what it came
/// as.
pub open spec fn tracks_arguments(
    operation: OperationModel,
    args: Seq<OhosValue>,
    after: BackendModel,
    id: u32,
    site: int,
) -> bool {
    let offset: int = if operation.receiver is Some {
        1
    } else {
        0
    };
    &&& 0 <= site < operation.streams.len() && operation.streams[site].direction
        == StreamDirection::Input && args.len() > offset && args[offset] == OhosValue::InputStream(
        id,
    ) ==> after.inputs.contains(id)
    &&& (operation.receiver matches Some(ReceiverBinding::Resource(resource)) ==> (args.len() > 0
        ==> {
        &&& resource.kind == ResourceKind::InputStream && args[0] == OhosValue::InputStream(id)
            ==> after.inputs.contains(id)
        &&& resource.kind != ResourceKind::InputStream && (args[0] == OhosValue::Object(id)
            || args[0] == OhosValue::OutputStream(id)) ==> if operation.kind
            == OperationKind::OutputStreamNext || operation.kind
            == OperationKind::OutputStreamCancel {
            after.outputs.contains(id)
        } else {
            after.objects.contains(id)
        }
    }))
}

/// A synchronous operation tracks its arguments, and what it returns where the
/// result itself is an object or an output stream.
pub proof fn sync_operation_tracks_resources(
    before: BackendModel,
    operation_id: u32,
    operation: OperationModel,
    args: Seq<OhosValue>,
    after: BackendModel,
    r: Result<OhosValue, OhosEngineError>,
    id: u32,
    site: int,
)
    requires
        model::sync_outcome(before, operation_id, args, after, r),
        !before.closed,
        before.operation(operation_id) == Some(operation),
    ensures
        tracks_arguments(operation, args, after, id, site),
        operation.direct_result() == Some(ResourceKind::Object) && r == Ok::<
            OhosValue,
            OhosEngineError,
        >(OhosValue::Object(id)) ==> after.objects.contains(id),
        operation.direct_result() == Some(ResourceKind::OutputStream) && r == Ok::<
            OhosValue,
            OhosEngineError,
        >(OhosValue::OutputStream(id)) ==> after.outputs.contains(id) && !after.cancelled.contains(
            id,
        ),
        after.active == before.active,
        after.retained == before.retained,
        !after.closed,
{
    call_remembers_what_goes_in(before, operation, args, id, site);
}

/// An asynchronous operation tracks its arguments when it is asked for.
pub proof fn async_operation_tracks_resources(
    before: BackendModel,
    operation_id: u32,
    operation: OperationModel,
    args: Vec<OhosValue>,
    after: BackendModel,
    r: Result<AsyncInvocation, OhosEngineError>,
    id: u32,
    site: int,
)
    requires
        model::async_outcome(before, operation_id, args, after, r),
        !before.closed,
        before.operation(operation_id) == Some(operation),
    ensures
        tracks_arguments(operation, args@, after, id, site),
{
    call_remembers_what_goes_in(before, operation, args@, id, site);
}

} // verus!
