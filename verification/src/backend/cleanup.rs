//! What closing a session asks of the host and in which order, and when callbacks are
//! refused.

use crate::backend::effects;
use crate::backend::model;
use crate::backend::model::{AsyncInvocation, BackendModel, Cleanup, HostRequest, SyncInvocation};
use crate::error::OhosEngineError;
use crate::family::{AsyncKind, CallbackReentrancy, FamilyModel, FamilyOperationTarget, OperationModel};
use crate::host::{HostCall, HostEvent, HostReply};
use crate::ordered;
use crate::value::OhosValue;
use vstd::prelude::*;

verus! {

// ---- Closing ----

/// Each step of a cleanup asks the host for what it is named after.
pub proof fn cleanup_steps_ask_for_what_they_are(a: u32, b: u32)
    ensures
        Cleanup::ReleaseCallback(a, b).call() == (HostCall::ReleaseCallback {
            callback_type: a,
            callback_id: b,
        }),
        Cleanup::CancelInput(a).call() == (HostCall::CancelInputStream { stream_id: a }),
        Cleanup::ReleaseInput(a).call() == (HostCall::ReleaseInputStream { stream_id: a }),
        Cleanup::CancelOutput(a).call() == (HostCall::CancelOutputStream { stream_id: a }),
        Cleanup::ReleaseOutput(a).call() == (HostCall::ReleaseOutputStream { stream_id: a }),
        Cleanup::ReleaseObject(a).call() == (HostCall::ReleaseObject { object_id: a }),
{
}

/// Each input stream is cancelled and right after that released, one after the other.
pub proof fn input_is_cancelled_and_then_released(list: Seq<u32>, i: int)
    requires
        0 <= i < list.len(),
    ensures
        model::input_cleanup(list).len() == 2 * list.len(),
        model::input_cleanup(list)[2 * i] == Cleanup::CancelInput(list[i]),
        model::input_cleanup(list)[2 * i + 1] == Cleanup::ReleaseInput(list[i]),
    decreases list.len(),
{
    let rest = list.drop_last();
    if rest.len() > 0 {
        input_is_cancelled_and_then_released(rest, 0);
        if i < rest.len() {
            input_is_cancelled_and_then_released(rest, i);
        }
    } else {
        assert(model::input_cleanup(rest) =~= Seq::empty());
    }
}

/// Each output stream is released; where it is not cancelled yet, it is right before
/// that, and where it is, it is not cancelled again.
pub proof fn output_is_cancelled_unless_it_was(list: Seq<u32>, cancelled: Set<u32>, j: int)
    requires
        0 <= j < model::output_cleanup(list, cancelled).len(),
    ensures
        ({
            let plan = model::output_cleanup(list, cancelled);
            match plan[j] {
                Cleanup::ReleaseOutput(id) => list.contains(id) && (!cancelled.contains(id) ==> j
                    > 0 && plan[j - 1] == Cleanup::CancelOutput(id)),
                Cleanup::CancelOutput(id) => list.contains(id) && !cancelled.contains(id) && j + 1
                    < plan.len() && plan[j + 1] == Cleanup::ReleaseOutput(id),
                _ => false,
            }
        }),
    decreases list.len(),
{
    let plan = model::output_cleanup(list, cancelled);
    let rest = list.drop_last();
    let earlier = model::output_cleanup(rest, cancelled);
    assert(list[list.len() - 1] == list.last());
    if j < earlier.len() {
        output_is_cancelled_unless_it_was(rest, cancelled, j);
        assert(plan[j] == earlier[j]);
        let id = match plan[j] {
            Cleanup::ReleaseOutput(id) => id,
            Cleanup::CancelOutput(id) => id,
            _ => 0,
        };
        assert(rest.contains(id));
        let at = choose|at: int| 0 <= at < rest.len() && rest[at] == id;
        assert(list[at] == id);
    }
}

/// Each output stream is released in its turn.
pub proof fn every_output_is_released(list: Seq<u32>, cancelled: Set<u32>, i: int)
    requires
        0 <= i < list.len(),
    ensures
        model::output_cleanup(list, cancelled).contains(Cleanup::ReleaseOutput(list[i])),
    decreases list.len(),
{
    let plan = model::output_cleanup(list, cancelled);
    let rest = list.drop_last();
    if i == list.len() - 1 {
        assert(plan.last() == Cleanup::ReleaseOutput(list[i]));
        assert(plan[plan.len() - 1] == plan.last());
    } else {
        every_output_is_released(rest, cancelled, i);
        let earlier = model::output_cleanup(rest, cancelled);
        let at = choose|at: int|
            0 <= at < earlier.len() && earlier[at] == Cleanup::ReleaseOutput(list[i]);
        assert(plan[at] == earlier[at]);
    }
}

/// A cleanup goes through the callbacks first, then through the input streams, the
/// output streams and the objects.
pub proof fn cleanup_goes_in_order(
    callbacks: Seq<(u32, u32)>,
    inputs: Seq<u32>,
    outputs: Seq<u32>,
    cancelled: Set<u32>,
    objects: Seq<u32>,
    i: int,
)
    ensures
        ({
            let plan = model::whole_cleanup(callbacks, inputs, outputs, cancelled, objects);
            let middle = model::output_cleanup(outputs, cancelled).len() as int;
            let start = callbacks.len() as int + 2 * inputs.len() as int;
            &&& plan.len() == start + middle + objects.len()
            &&& 0 <= i < callbacks.len() ==> plan[i] == Cleanup::ReleaseCallback(
                callbacks[i].0,
                callbacks[i].1,
            )
            &&& 0 <= i < inputs.len() ==> plan[callbacks.len() as int + 2 * i]
                == Cleanup::CancelInput(inputs[i]) && plan[callbacks.len() as int + 2 * i + 1]
                == Cleanup::ReleaseInput(inputs[i])
            &&& 0 <= i < middle ==> plan[start + i] == model::output_cleanup(outputs, cancelled)[i]
            &&& 0 <= i < objects.len() ==> plan[start + middle + i] == Cleanup::ReleaseObject(
                objects[i],
            )
        }),
{
    if inputs.len() > 0 {
        input_is_cancelled_and_then_released(inputs, 0);
        if 0 <= i < inputs.len() {
            input_is_cancelled_and_then_released(inputs, i);
        }
    }
}

/// A closing that the host lets through has been answered well at every step; one that
/// fails has stopped at the first step that the host refused, and hands on why. Either
/// way the session is closed and only its history is longer.
pub proof fn closing_stops_at_the_first_refusal(
    before: BackendModel,
    after: BackendModel,
    r: Result<(), OhosEngineError>,
    i: int,
)
    requires
        model::close_outcome(before, after, r),
        !before.closed,
        before.history.len() <= i < after.history.len(),
    ensures
        r is Ok ==> after.history[i].reply == HostReply::Done(Ok(())),
        r is Err && i < after.history.len() - 1 ==> after.history[i].reply == HostReply::Done(
            Ok(()),
        ),
        r is Err && i == after.history.len() - 1 ==> (after.history[i].reply matches HostReply::Done(
            Err(refusal),
        ) && r == Err::<(), OhosEngineError>(OhosEngineError::Host(refusal))),
{
    let start = before.history.len() as int;
    let events = after.history.skip(start);
    let plan = choose|plan: Seq<Cleanup>| #[trigger]
        model::cleans_up(plan, before) && model::carries_out(plan, events, r);
    assert(events[i - start] == after.history[i]);
    if events.len() > 0 {
        assert(events.last() == after.history.last());
    }
}

/// A session that closes keeps its family, its running callbacks and its history, and
/// loses everything else.
pub proof fn closing_empties_the_session(
    before: BackendModel,
    after: BackendModel,
    r: Result<(), OhosEngineError>,
)
    requires
        model::close_outcome(before, after, r),
        !before.closed,
    ensures
        after.closed,
        after.family == before.family,
        after.active == before.active,
        after.retained == Set::<(u32, u32)>::empty(),
        after.inputs == Set::<u32>::empty(),
        after.outputs == Set::<u32>::empty(),
        after.cancelled == Set::<u32>::empty(),
        after.objects == Set::<u32>::empty(),
        before.history.len() <= after.history.len(),
        after.history.take(before.history.len() as int) == before.history,
{
}

/// A new session is open and holds nothing but its family.
pub proof fn new_session_is_empty(family: FamilyModel)
    ensures
        ({
            let session = BackendModel::opened(family);
            &&& session.family == family
            &&& !session.closed
            &&& session.retained == Set::<(u32, u32)>::empty()
            &&& session.active == Set::<(u32, u32)>::empty()
            &&& session.inputs == Set::<u32>::empty()
            &&& session.outputs == Set::<u32>::empty()
            &&& session.cancelled == Set::<u32>::empty()
            &&& session.objects == Set::<u32>::empty()
            &&& session.history == Seq::<HostEvent>::empty()
        }),
{
}

/// Listings go upwards and name every member of a set and nothing else.
pub proof fn listings_go_upwards(list: Seq<u32>, set: Set<u32>, i: int, j: int, id: u32)
    requires
        ordered::lists(list, set),
        0 <= i < j < list.len(),
    ensures
        list[i] < list[j],
        set.contains(id) == list.contains(id),
{
    assert(list.to_set().contains(id) == list.contains(id));
}

/// Listings of pairs go upwards by the first part and, where that is the same, by the
/// second.
pub proof fn pairs_go_upwards(
    list: Seq<(u32, u32)>,
    set: Set<(u32, u32)>,
    i: int,
    j: int,
    pair: (u32, u32),
)
    requires
        ordered::lists_pairs(list, set),
        0 <= i < j < list.len(),
    ensures
        list[i].0 <= list[j].0,
        list[i].0 == list[j].0 ==> list[i].1 < list[j].1,
        set.contains(pair) == list.contains(pair),
{
    assert(ordered::pair_before(list[i], list[j]));
    assert(list.to_set().contains(pair) == list.contains(pair));
}

// ---- Callbacks that run ----

/// A use-site of the operation itself is of this callback type and forbids reentrancy.
pub open spec fn forbidden_by(operation: OperationModel, callback_type: u32, j: int) -> bool {
    &&& 0 <= j < operation.callbacks.len()
    &&& operation.callbacks[j].callback_type_id == callback_type
    &&& operation.callbacks[j].contract.reentrancy == CallbackReentrancy::Forbidden
}

/// A callback method on a callback that runs is refused, without a word to the host,
/// exactly where a use-site of its type forbids to enter it again, in the family or in
/// the operation; otherwise the host is asked.
pub proof fn sync_callback_is_refused_while_it_runs(
    before: BackendModel,
    operation_id: u32,
    operation: OperationModel,
    callback_type: u32,
    method: u32,
    callback: u32,
    args: Seq<OhosValue>,
    after: BackendModel,
    r: Result<OhosValue, OhosEngineError>,
)
    requires
        model::sync_outcome(before, operation_id, args, after, r),
        !before.closed,
        before.operation(operation_id) == Some(operation),
        operation.async_kind == AsyncKind::Sync,
        operation.target == (FamilyOperationTarget::CallbackHost {
            callback_type_id: callback_type,
            method_id: method,
        }),
        args.len() > 0,
        args[0] == OhosValue::Callback(callback),
    ensures
        ({
            let forbidden = (exists|i: int, j: int| #[trigger]
                effects::forbidding_site(before.family, callback_type, i, j)) || (exists|j: int|
                #[trigger]
                forbidden_by(operation, callback_type, j));
            let running = before.active.contains((callback_type, callback));
            &&& forbidden && running ==> r == Err::<OhosValue, OhosEngineError>(
                OhosEngineError::ReentrancyForbidden { callback_type, callback_id: callback },
            ) && after.history == before.history
            &&& !forbidden || !running ==> effects::one_value_asked(
                before.history,
                after.history,
                HostCall::InvokeCallback {
                    callback_type,
                    callback_id: callback,
                    method_id: method,
                    args,
                },
                r,
            )
        }),
{
    effects::lemma_type_forbids(before.family, callback_type);
    lemma_forbids(operation, callback_type);
    effects::call_remembers_what_goes_in(before, operation, args, 0, 0);
    let noted = before.noted(operation, args);
    assert(after.history.len() > before.history.len() ==> after.history.drop_last()
        =~= before.history);
}

proof fn lemma_forbids(operation: OperationModel, callback_type: u32)
    ensures
        model::forbids(operation.callbacks, callback_type) <==> exists|j: int| #[trigger]
            forbidden_by(operation, callback_type, j),
{
    if model::forbids(operation.callbacks, callback_type) {
        let sites = operation.callbacks;
        let j = choose|j: int|
            0 <= j < sites.len() && (#[trigger] sites[j]).callback_type_id == callback_type
                && sites[j].contract.reentrancy is Forbidden;
        assert(forbidden_by(operation, callback_type, j));
    }
    if exists|j: int| #[trigger] forbidden_by(operation, callback_type, j) {
        let j = choose|j: int| #[trigger] forbidden_by(operation, callback_type, j);
        assert(operation.callbacks[j].callback_type_id == callback_type);
    }
}

/// The same holds of an asynchronous callback method, which is refused or accepted
/// before the host is asked, and guards its callback where that must not be entered
/// again.
pub proof fn async_callback_is_refused_while_it_runs(
    before: BackendModel,
    operation_id: u32,
    operation: OperationModel,
    callback_type: u32,
    method: u32,
    callback: u32,
    args: Vec<OhosValue>,
    after: BackendModel,
    r: Result<AsyncInvocation, OhosEngineError>,
)
    requires
        model::async_outcome(before, operation_id, args, after, r),
        !before.closed,
        before.operation(operation_id) == Some(operation),
        operation.async_kind == AsyncKind::Async,
        operation.target == (FamilyOperationTarget::CallbackHost {
            callback_type_id: callback_type,
            method_id: method,
        }),
        args@.len() > 0,
        args@[0] == OhosValue::Callback(callback),
    ensures
        ({
            let forbidden = (exists|i: int, j: int| #[trigger]
                effects::forbidding_site(before.family, callback_type, i, j)) || (exists|j: int|
                #[trigger]
                forbidden_by(operation, callback_type, j));
            let running = before.active.contains((callback_type, callback));
            &&& forbidden && running ==> r == Err::<AsyncInvocation, OhosEngineError>(
                OhosEngineError::ReentrancyForbidden { callback_type, callback_id: callback },
            ) && after.active == before.active
            &&& forbidden && !running ==> (r matches Ok(invocation) && invocation.guard == Some(
                (callback_type, callback),
            )) && after.active == before.active.insert((callback_type, callback))
            &&& !forbidden ==> (r matches Ok(invocation) && invocation.guard is None)
                && after.active == before.active
        }),
{
    effects::lemma_type_forbids(before.family, callback_type);
    lemma_forbids(operation, callback_type);
    effects::call_remembers_what_goes_in(before, operation, args@, 0, 0);
}

/// A run of a callback is accepted with a guard exactly where its type forbids to enter
/// it again, and refused where it runs already.
pub proof fn callback_is_guarded_where_forbidden(
    before: BackendModel,
    callback_type: u32,
    callback: u32,
    after: BackendModel,
    r: Result<Option<(u32, u32)>, OhosEngineError>,
)
    requires
        model::callback_begun(before, callback_type, callback, after, r),
        !before.closed,
    ensures
        ({
            let forbidden = exists|i: int, j: int| #[trigger]
                effects::forbidding_site(before.family, callback_type, i, j);
            let running = before.active.contains((callback_type, callback));
            &&& forbidden && running ==> r == Err::<Option<(u32, u32)>, OhosEngineError>(
                OhosEngineError::ReentrancyForbidden { callback_type, callback_id: callback },
            ) && after == before
            &&& forbidden && !running ==> r == Ok::<Option<(u32, u32)>, OhosEngineError>(
                Some((callback_type, callback)),
            ) && after == (BackendModel {
                active: before.active.insert((callback_type, callback)),
                ..before
            })
            &&& !forbidden ==> r == Ok::<Option<(u32, u32)>, OhosEngineError>(None) && after
                == before
        }),
{
    effects::lemma_type_forbids(before.family, callback_type);
}

/// A stream operation whose first argument names no stream is refused: an argument of
/// another kind, and a number that is negative or no number at all.
pub proof fn stream_operation_needs_a_stream(
    before: BackendModel,
    operation_id: u32,
    operation: OperationModel,
    args: Seq<OhosValue>,
    after: BackendModel,
    r: Result<OhosValue, OhosEngineError>,
)
    requires
        model::sync_outcome(before, operation_id, args, after, r),
        !before.closed,
        before.operation(operation_id) == Some(operation),
        operation.async_kind == AsyncKind::Sync,
        operation.target == FamilyOperationTarget::InputStreamHostPull || operation.target
            == FamilyOperationTarget::InputStreamHostCancel,
        args.len() > 0,
        args[0] matches OhosValue::Number(number) && !number.non_negative(),
    ensures
        r == Err::<OhosValue, OhosEngineError>(
            OhosEngineError::InvalidValue { expected: "stream ID" },
        ),
        after.history == before.history,
{
    effects::call_remembers_what_goes_in(before, operation, args, 0, 0);
}

/// What an accepted synchronous call is to ask of the host, request by request.
pub proof fn requests_ask_for_what_they_are(
    operation_id: u32,
    args: Seq<OhosValue>,
    a: u32,
    b: u32,
    c: u32,
)
    ensures
        HostRequest::InvokeSync.call(operation_id, args) == (HostCall::InvokeSync {
            operation_id,
            args,
        }),
        (HostRequest::InvokeCallback { callback_type: a, callback_id: b, method_id: c }).call(
            operation_id,
            args,
        ) == (HostCall::InvokeCallback { callback_type: a, callback_id: b, method_id: c, args }),
        HostRequest::PullInputStream(a).call(operation_id, args) == (HostCall::PullInputStream {
            stream_id: a,
        }),
        HostRequest::CancelInputStream(a).call(operation_id, args) == (
        HostCall::CancelInputStream { stream_id: a }),
{
}

/// An accepted synchronous call is what the operation asks for, and has not asked the
/// host yet.
pub proof fn accepted_call_is_what_was_asked(
    before: BackendModel,
    operation_id: u32,
    operation: OperationModel,
    args: Seq<OhosValue>,
    after: BackendModel,
    r: Result<SyncInvocation, OhosEngineError>,
    subject: u32,
)
    requires
        model::sync_begun(before, operation_id, args, after, r),
        !before.closed,
        before.operation(operation_id) == Some(operation),
        operation.async_kind == AsyncKind::Sync,
        before.active == Set::<(u32, u32)>::empty(),
    ensures
        after.history == before.history,
        operation.target == FamilyOperationTarget::Native ==> (r matches Ok(invocation)
            && invocation.operation@ == operation && invocation.guard is None
            && invocation.request.call(operation_id, args) == (HostCall::InvokeSync {
            operation_id,
            args,
        })),
        operation.target == FamilyOperationTarget::InputStreamHostPull && effects::names_stream(
            args,
            subject,
        ) ==> (r matches Ok(invocation) && invocation.request.call(operation_id, args) == (
        HostCall::PullInputStream { stream_id: subject })),
        operation.target == FamilyOperationTarget::InputStreamHostCancel && effects::names_stream(
            args,
            subject,
        ) ==> (r matches Ok(invocation) && invocation.request.call(operation_id, args) == (
        HostCall::CancelInputStream { stream_id: subject })),
        operation.target matches FamilyOperationTarget::CallbackHost { callback_type_id, method_id }
            ==> (args.len() > 0 && args[0] == OhosValue::Callback(subject) ==> (r matches Ok(
            invocation,
        ) && invocation.request.call(operation_id, args) == (HostCall::InvokeCallback {
            callback_type: callback_type_id,
            callback_id: subject,
            method_id,
            args,
        }))),
{
    effects::lemma_stream_named(args, subject);
    effects::call_remembers_what_goes_in(before, operation, args, 0, 0);
}

/// A call that the host ends with an error, and one that it ends with a value, lift
/// their guard; only a value leaves something to remember.
pub proof fn ended_calls_lift_their_guard(
    session: BackendModel,
    operation: OperationModel,
    key: (u32, u32),
    value: OhosValue,
    error: crate::error::OhosError,
)
    ensures
        session.finished(operation, Some(key), Err(error)) == (BackendModel {
            active: session.active.remove(key),
            ..session
        }),
        session.finished(operation, Some(key), Ok(value)).active == session.active.remove(key),
        session.finished(operation, None, Ok(value)).active == session.active,
        session.settled(Some(key), Err(error)) == (BackendModel {
            active: session.active.remove(key),
            ..session
        }),
        session.finished(operation, None, Ok(value)) == session.returned(operation, value),
        session.settled(None, Ok(value)) == session.resolved(value),
{
}

} // verus!
