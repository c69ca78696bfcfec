//! What the calls of a backend session ask of the host.

use crate::backend::effects;
use crate::backend::model::AsyncInvocation;
use crate::backend::session::OhosBackendSession;
use crate::error::{OhosEngineError, OhosError};
use crate::family::{AsyncKind, FamilyOperationTarget, OperationModel};
use crate::host::{HostCall, OhosHost};
use crate::value::OhosValue;
use vstd::prelude::*;

verus! {

/// Running a method of a callback that does not run asks the host once, for that very
/// method of that very callback, and gives back its answer.
pub proof fn callback_call_asks_for_its_numbers<H: OhosHost>(
    session: &mut OhosBackendSession<H>,
    callback_type: u32,
    callback_id: u32,
    method_id: u32,
    args: &[OhosValue],
    r: Result<OhosValue, OhosEngineError>,
)
    requires
        call_ensures(
            OhosBackendSession::<H>::invoke_callback,
            (session, callback_type, callback_id, method_id, args),
            r,
        ),
        !old(session)@.closed,
        !old(session)@.active.contains((callback_type, callback_id)),
    ensures
        effects::one_value_asked(
            old(session)@.history,
            final(session)@.history,
            HostCall::InvokeCallback { callback_type, callback_id, method_id, args: args@ },
            r,
        ),
        effects::only_history_differs(old(session)@, final(session)@),
{
    effects::idle_callback_is_run(
        old(session)@,
        callback_type,
        callback_id,
        method_id,
        args@,
        final(session)@,
        r,
    );
}

/// A native operation that is called synchronously asks the host once, for itself and
/// with its own arguments.
pub proof fn native_call_asks_for_itself<H: OhosHost>(
    session: &mut OhosBackendSession<H>,
    operation_id: u32,
    operation: OperationModel,
    args: &[OhosValue],
    r: Result<OhosValue, OhosEngineError>,
)
    requires
        call_ensures(OhosBackendSession::<H>::invoke_sync, (session, operation_id, args), r),
        !old(session)@.closed,
        old(session)@.operation(operation_id) == Some(operation),
        operation.async_kind == AsyncKind::Sync,
        operation.target == FamilyOperationTarget::Native,
        old(session)@.active == Set::<(u32, u32)>::empty(),
    ensures
        effects::one_value_asked(
            old(session)@.history,
            final(session)@.history,
            HostCall::InvokeSync { operation_id, args: args@ },
            r,
        ),
{
    effects::sync_operation_asks_for_its_target(
        old(session)@,
        operation_id,
        operation,
        args@,
        final(session)@,
        r,
        0,
    );
}

/// An asynchronous call is accepted with its own number and arguments.
pub proof fn async_call_is_accepted_as_it_is<H: OhosHost>(
    session: &mut OhosBackendSession<H>,
    operation_id: u32,
    args: Vec<OhosValue>,
    r: Result<AsyncInvocation, OhosEngineError>,
)
    requires
        call_ensures(OhosBackendSession::<H>::invoke_async, (session, operation_id, args), r),
    ensures
        final(session)@.history == old(session)@.history,
        old(session)@.closed ==> r == Err::<AsyncInvocation, OhosEngineError>(
            OhosEngineError::Closed,
        ),
        r matches Ok(invocation) ==> invocation.operation_id == operation_id && invocation.args
            == args,
{
    if !old(session)@.closed {
        if let Some(operation) = old(session)@.operation(operation_id) {
            effects::async_operation_is_accepted_as_asked(
                old(session)@,
                operation_id,
                operation,
                args,
                final(session)@,
                r,
            );
        }
    }
}

/// A call that has ended gives back what the host gave, and its callback no longer
/// runs.
pub proof fn ended_call_gives_its_result<H: OhosHost>(
    session: &mut OhosBackendSession<H>,
    invocation: AsyncInvocation,
    result: Result<OhosValue, OhosError>,
    r: Result<OhosValue, OhosError>,
)
    requires
        call_ensures(OhosBackendSession::<H>::settle, (session, invocation, result), r),
    ensures
        r == result,
        final(session)@.history == old(session)@.history,
        invocation.guard matches Some(key) ==> final(session)@.active == old(
            session)@.active.remove(key),
        invocation.guard is None ==> final(session)@.active == old(session)@.active,
{
}

/// Keeping a callback and giving it back tell the host of that very callback.
pub proof fn callbacks_are_kept_and_given_back_by_name<H: OhosHost>(
    session: &mut OhosBackendSession<H>,
    callback_type: u32,
    callback_id: u32,
    r: Result<(), OhosEngineError>,
)
    requires
        !old(session)@.closed,
    ensures
        call_ensures(
            OhosBackendSession::<H>::retain_callback,
            (session, callback_type, callback_id),
            r,
        ) && !old(session)@.retained.contains((callback_type, callback_id))
            ==> effects::one_thing_asked(
            old(session)@.history,
            final(session)@.history,
            HostCall::RetainCallback { callback_type, callback_id },
            r,
        ),
        call_ensures(
            OhosBackendSession::<H>::release_callback,
            (session, callback_type, callback_id),
            r,
        ) && old(session)@.retained.contains((callback_type, callback_id))
            ==> effects::one_thing_asked(
            old(session)@.history,
            final(session)@.history,
            HostCall::ReleaseCallback { callback_type, callback_id },
            r,
        ),
{
    let before = old(session)@;
    let after = final(session)@;
    assert(before.history.push(after.history.last()).drop_last() =~= before.history);
}

/// Input streams are cancelled and released by their own numbers.
pub proof fn input_streams_are_ended_by_number<H: OhosHost>(
    session: &mut OhosBackendSession<H>,
    stream_id: u32,
    r: Result<(), OhosEngineError>,
)
    requires
        !old(session)@.closed,
    ensures
        call_ensures(OhosBackendSession::<H>::cancel_input_stream, (session, stream_id), r)
            ==> effects::one_thing_asked(
            old(session)@.history,
            final(session)@.history,
            HostCall::CancelInputStream { stream_id },
            r,
        ),
        call_ensures(OhosBackendSession::<H>::release_input_stream, (session, stream_id), r)
            && old(session)@.inputs.contains(stream_id) ==> effects::one_thing_asked(
            old(session)@.history,
            final(session)@.history,
            HostCall::ReleaseInputStream { stream_id },
            r,
        ),
{
    let before = old(session)@;
    let after = final(session)@;
    assert(before.history.push(after.history.last()).drop_last() =~= before.history);
}

/// Output streams are cancelled and released by their own numbers.
pub proof fn output_streams_are_ended_by_number<H: OhosHost>(
    session: &mut OhosBackendSession<H>,
    stream_id: u32,
    r: Result<(), OhosEngineError>,
)
    requires
        !old(session)@.closed,
    ensures
        call_ensures(OhosBackendSession::<H>::cancel_output_stream, (session, stream_id), r)
            && !old(session)@.cancelled.contains(stream_id) ==> effects::one_thing_asked(
            old(session)@.history,
            final(session)@.history,
            HostCall::CancelOutputStream { stream_id },
            r,
        ),
        call_ensures(OhosBackendSession::<H>::release_output_stream, (session, stream_id), r)
            && old(session)@.outputs.contains(stream_id) ==> effects::one_thing_asked(
            old(session)@.history,
            final(session)@.history,
            HostCall::ReleaseOutputStream { stream_id },
            r,
        ),
{
    let before = old(session)@;
    let after = final(session)@;
    assert(before.history.push(after.history.last()).drop_last() =~= before.history);
}

/// The next item is asked of the very stream, and an object is released by its own
/// number.
pub proof fn items_and_objects_go_by_number<H: OhosHost>(
    session: &mut OhosBackendSession<H>,
    id: u32,
    item: Result<OhosValue, OhosEngineError>,
    r: Result<(), OhosEngineError>,
)
    requires
        !old(session)@.closed,
    ensures
        call_ensures(OhosBackendSession::<H>::next_output_stream, (session, id), item)
            ==> effects::one_value_asked(
            old(session)@.history,
            final(session)@.history,
            HostCall::NextOutputStream { stream_id: id },
            item,
        ),
        call_ensures(OhosBackendSession::<H>::release_object, (session, id), r) && old(
            session)@.objects.contains(id) ==> effects::one_thing_asked(
            old(session)@.history,
            final(session)@.history,
            HostCall::ReleaseObject { object_id: id },
            r,
        ),
{
    let before = old(session)@;
    let after = final(session)@;
    assert(before.history.push(after.history.last()).drop_last() =~= before.history);
}

} // verus!
