//! What holds of every backend session, whatever its host answers.

use crate::backend::model;
use crate::backend::model::{AsyncInvocation, AsyncStep, BackendModel, Cleanup, SyncInvocation};
use crate::error::{OhosEngineError, OhosError};
use crate::family::{FamilyModel, FamilyOperationTarget, OperationModel};
use crate::host::HostCall;
use crate::ordered;
use crate::value::OhosValue;
use vstd::prelude::*;

verus! {

/// A closed session answers every operation with the same refusal and leaves
/// the host alone.
pub proof fn closed_session_refuses(
    opened: BackendModel,
    closed: BackendModel,
    operation_id: u32,
    args: Seq<OhosValue>,
    after: BackendModel,
    closing: Result<(), OhosEngineError>,
    r: Result<OhosValue, OhosEngineError>,
)
    requires
        model::close_outcome(opened, closed, closing),
        model::sync_outcome(closed, operation_id, args, after, r),
    ensures
        after == closed,
        r == Err::<OhosValue, OhosEngineError>(OhosEngineError::Closed),
{
}

/// Closing again changes nothing, succeeds and leaves the host alone, however
/// the first closing ended.
pub proof fn close_is_idempotent(
    opened: BackendModel,
    closed: BackendModel,
    after: BackendModel,
    first: Result<(), OhosEngineError>,
    second: Result<(), OhosEngineError>,
)
    requires
        model::close_outcome(opened, closed, first),
        model::close_outcome(closed, after, second),
    ensures
        after == closed,
        second is Ok,
{
}

/// Nothing that the session holds survives its closing.
pub proof fn closed_session_holds_nothing(
    opened: BackendModel,
    closed: BackendModel,
    r: Result<(), OhosEngineError>,
)
    requires
        !opened.closed,
        model::close_outcome(opened, closed, r),
    ensures
        closed.closed,
        closed.retained == Set::<(u32, u32)>::empty(),
        closed.inputs == Set::<u32>::empty(),
        closed.outputs == Set::<u32>::empty(),
        closed.cancelled == Set::<u32>::empty(),
        closed.objects == Set::<u32>::empty(),
{
}

/// The plan to clean up input streams holds a release of each.
proof fn lemma_input_cleanup(list: Seq<u32>, id: u32)
    requires
        list.contains(id),
    ensures
        model::input_cleanup(list).contains(Cleanup::CancelInput(id)),
        model::input_cleanup(list).contains(Cleanup::ReleaseInput(id)),
    decreases list.len(),
{
    let plan = model::input_cleanup(list);
    if list.last() == id {
        assert(plan[plan.len() - 1] == Cleanup::ReleaseInput(id));
        assert(plan[plan.len() - 2] == Cleanup::CancelInput(id));
    } else {
        let i = choose|i: int| 0 <= i < list.len() && list[i] == id;
        assert(list.drop_last()[i] == id);
        lemma_input_cleanup(list.drop_last(), id);
        let rest = model::input_cleanup(list.drop_last());
        let j = choose|j: int| 0 <= j < rest.len() && rest[j] == Cleanup::CancelInput(id);
        let k = choose|k: int| 0 <= k < rest.len() && rest[k] == Cleanup::ReleaseInput(id);
        assert(plan[j] == rest[j]);
        assert(plan[k] == rest[k]);
    }
}

/// The plan to clean up output streams holds a release of each, and cancels
/// just those that are not cancelled.
proof fn lemma_output_cleanup(list: Seq<u32>, cancelled: Set<u32>, id: u32)
    ensures
        list.contains(id) ==> model::output_cleanup(list, cancelled).contains(Cleanup::ReleaseOutput(id)),
        model::output_cleanup(list, cancelled).contains(Cleanup::CancelOutput(id)) <==> list.contains(id)
            && !cancelled.contains(id),
    decreases list.len(),
{
    let plan = model::output_cleanup(list, cancelled);
    if list.len() > 0 {
        let last = list.last();
        let rest = model::output_cleanup(list.drop_last(), cancelled);
        lemma_output_cleanup(list.drop_last(), cancelled, id);
        assert(plan[plan.len() - 1] == Cleanup::ReleaseOutput(last));
        if !cancelled.contains(last) {
            assert(plan[plan.len() - 2] == Cleanup::CancelOutput(last));
        }
        assert(list.contains(id) <==> list.drop_last().contains(id) || id == last) by {
            if list.contains(id) && id != last {
                let i = choose|i: int| 0 <= i < list.len() && list[i] == id;
                assert(list.drop_last()[i] == id);
            }
            if list.drop_last().contains(id) {
                let i = choose|i: int| 0 <= i < list.len() - 1 && list.drop_last()[i] == id;
                assert(list[i] == id);
            }
            assert(list[list.len() - 1] == last);
        }
        assert(forall|i: int| 0 <= i < rest.len() ==> #[trigger] plan[i] == rest[i]);
        if rest.contains(Cleanup::ReleaseOutput(id)) {
            let i = choose|i: int| 0 <= i < rest.len() && rest[i] == Cleanup::ReleaseOutput(id);
            assert(plan[i] == rest[i]);
        }
        if rest.contains(Cleanup::CancelOutput(id)) {
            let i = choose|i: int| 0 <= i < rest.len() && rest[i] == Cleanup::CancelOutput(id);
            assert(plan[i] == rest[i]);
        }
    }
}

/// The host was asked for this during the closing.
pub open spec fn asked_during(
    before: BackendModel,
    after: BackendModel,
    call: HostCall,
) -> bool {
    exists|i: int|
        before.history.len() <= i < after.history.len() && (#[trigger] after.history[i]).call
            == call
}

/// A closing that succeeds has asked the host to release everything that the
/// session held, and to cancel each stream that was still running.
pub proof fn close_releases_everything(
    opened: BackendModel,
    closed: BackendModel,
    r: Result<(), OhosEngineError>,
)
    requires
        !opened.closed,
        model::close_outcome(opened, closed, r),
        r is Ok,
    ensures
        forall|callback_type: u32, callback_id: u32|
            opened.retained.contains((callback_type, callback_id)) ==> #[trigger] asked_during(
                opened,
                closed,
                HostCall::ReleaseCallback { callback_type, callback_id },
            ),
        forall|stream_id: u32|
            opened.inputs.contains(stream_id) ==> #[trigger] asked_during(
                opened,
                closed,
                HostCall::CancelInputStream { stream_id },
            ),
        forall|stream_id: u32|
            opened.inputs.contains(stream_id) ==> #[trigger] asked_during(
                opened,
                closed,
                HostCall::ReleaseInputStream { stream_id },
            ),
        forall|stream_id: u32|
            opened.outputs.contains(stream_id) && !opened.cancelled.contains(stream_id)
                ==> #[trigger] asked_during(
                opened,
                closed,
                HostCall::CancelOutputStream { stream_id },
            ),
        forall|stream_id: u32|
            opened.outputs.contains(stream_id) ==> #[trigger] asked_during(
                opened,
                closed,
                HostCall::ReleaseOutputStream { stream_id },
            ),
        forall|object_id: u32|
            opened.objects.contains(object_id) ==> #[trigger] asked_during(
                opened,
                closed,
                HostCall::ReleaseObject { object_id },
            ),
{
    let start = opened.history.len() as int;
    let events = closed.history.skip(start);
    let plan = choose|plan: Seq<Cleanup>| #[trigger]
        model::cleans_up(plan, opened) && model::carries_out(plan, events, r);
    let (callbacks, inputs, outputs, objects) = choose|
        callbacks: Seq<(u32, u32)>,
        inputs: Seq<u32>,
        outputs: Seq<u32>,
        objects: Seq<u32>,
    |
        {
            &&& ordered::lists_pairs(callbacks, opened.retained)
            &&& ordered::lists(inputs, opened.inputs)
            &&& ordered::lists(outputs, opened.outputs)
            &&& ordered::lists(objects, opened.objects)
            &&& plan == #[trigger] model::whole_cleanup(
                callbacks,
                inputs,
                outputs,
                opened.cancelled,
                objects,
            )
        };
    let first = model::callback_cleanup(callbacks);
    let second = model::input_cleanup(inputs);
    let third = model::output_cleanup(outputs, opened.cancelled);
    let fourth = model::object_cleanup(objects);
    assert forall|step: Cleanup|
        first.contains(step) || second.contains(step) || third.contains(step) || fourth.contains(
            step,
        ) implies asked_during(opened, closed, #[trigger] step.call()) by {
        let i: int = if first.contains(step) {
            choose|i: int| 0 <= i < first.len() && first[i] == step
        } else if second.contains(step) {
            first.len() + choose|i: int| 0 <= i < second.len() && second[i] == step
        } else if third.contains(step) {
            first.len() + second.len() + choose|i: int| 0 <= i < third.len() && third[i] == step
        } else {
            first.len() + second.len() + third.len() + choose|i: int|
                0 <= i < fourth.len() && fourth[i] == step
        };
        assert(plan[i] == step);
        assert(events[i].call == step.call());
        assert(closed.history[start + i] == events[i]);
    }
    assert forall|callback_type: u32, callback_id: u32|
        opened.retained.contains((callback_type, callback_id)) implies #[trigger] asked_during(
        opened,
        closed,
        HostCall::ReleaseCallback { callback_type, callback_id },
    ) by {
        assert(callbacks.to_set().contains((callback_type, callback_id)));
        let i = choose|i: int|
            0 <= i < callbacks.len() && callbacks[i] == (callback_type, callback_id);
        let step = Cleanup::ReleaseCallback(callback_type, callback_id);
        assert(first[i] == step);
        assert(asked_during(opened, closed, step.call()));
    }
    assert forall|id: u32| opened.inputs.contains(id) implies asked_during(
        opened,
        closed,
        Cleanup::CancelInput(id).call(),
    ) && asked_during(opened, closed, #[trigger] Cleanup::ReleaseInput(id).call()) by {
        assert(inputs.to_set().contains(id));
        lemma_input_cleanup(inputs, id);
    }
    assert forall|stream_id: u32| opened.inputs.contains(stream_id) implies #[trigger] asked_during(
        opened,
        closed,
        HostCall::CancelInputStream { stream_id },
    ) by {
        assert(asked_during(opened, closed, Cleanup::ReleaseInput(stream_id).call()));
    }
    assert forall|stream_id: u32| opened.inputs.contains(stream_id) implies #[trigger] asked_during(
        opened,
        closed,
        HostCall::ReleaseInputStream { stream_id },
    ) by {
        assert(asked_during(opened, closed, Cleanup::ReleaseInput(stream_id).call()));
    }
    assert forall|stream_id: u32|
        opened.outputs.contains(stream_id) && !opened.cancelled.contains(
            stream_id,
        ) implies #[trigger] asked_during(
        opened,
        closed,
        HostCall::CancelOutputStream { stream_id },
    ) by {
        assert(outputs.to_set().contains(stream_id));
        lemma_output_cleanup(outputs, opened.cancelled, stream_id);
        assert(asked_during(opened, closed, Cleanup::CancelOutput(stream_id).call()));
    }
    assert forall|stream_id: u32|
        opened.outputs.contains(stream_id) implies #[trigger] asked_during(
        opened,
        closed,
        HostCall::ReleaseOutputStream { stream_id },
    ) by {
        assert(outputs.to_set().contains(stream_id));
        lemma_output_cleanup(outputs, opened.cancelled, stream_id);
        assert(asked_during(opened, closed, Cleanup::ReleaseOutput(stream_id).call()));
    }
    assert forall|object_id: u32| opened.objects.contains(object_id) implies #[trigger] asked_during(
        opened,
        closed,
        HostCall::ReleaseObject { object_id },
    ) by {
        assert(objects.to_set().contains(object_id));
        let i = choose|i: int| 0 <= i < objects.len() && objects[i] == object_id;
        let step = Cleanup::ReleaseObject(object_id);
        assert(fourth[i] == step);
        assert(asked_during(opened, closed, step.call()));
    }
}

/// An object is released once: a second release succeeds without a word to the
/// host.
pub proof fn object_is_released_once(
    held: BackendModel,
    released: BackendModel,
    after: BackendModel,
    object_id: u32,
    first: Result<(), OhosEngineError>,
    second: Result<(), OhosEngineError>,
)
    requires
        !held.closed,
        model::release_object_outcome(held, object_id, released, first),
        model::release_object_outcome(released, object_id, after, second),
    ensures
        after == released,
        second is Ok,
{
}

/// A callback is kept once and given back once, whatever the host answers.
pub proof fn callback_is_kept_once(
    before: BackendModel,
    kept: BackendModel,
    again: BackendModel,
    callback_type: u32,
    callback_id: u32,
    first: Result<(), OhosEngineError>,
    second: Result<(), OhosEngineError>,
)
    requires
        !before.closed,
        model::retain_outcome(before, callback_type, callback_id, kept, first),
        model::retain_outcome(kept, callback_type, callback_id, again, second),
    ensures
        again == kept,
        second is Ok,
{
}

/// Giving back a callback that was just kept restores what the session holds.
pub proof fn release_undoes_retain(
    before: BackendModel,
    kept: BackendModel,
    after: BackendModel,
    callback_type: u32,
    callback_id: u32,
    first: Result<(), OhosEngineError>,
    second: Result<(), OhosEngineError>,
)
    requires
        !before.closed,
        !before.retained.contains((callback_type, callback_id)),
        model::retain_outcome(before, callback_type, callback_id, kept, first),
        model::release_callback_outcome(kept, callback_type, callback_id, after, second),
    ensures
        after == (BackendModel { history: after.history, ..before }),
        after.history.len() == before.history.len() + 2,
{
    assert(after.retained =~= before.retained);
}

/// An output stream is cancelled once: a second cancellation succeeds without a
/// word to the host.
pub proof fn output_is_cancelled_once(
    before: BackendModel,
    cancelled: BackendModel,
    after: BackendModel,
    stream_id: u32,
    first: Result<(), OhosEngineError>,
    second: Result<(), OhosEngineError>,
)
    requires
        !before.closed,
        model::cancel_output_outcome(before, stream_id, cancelled, first),
        model::cancel_output_outcome(cancelled, stream_id, after, second),
    ensures
        after == cancelled,
        second is Ok,
{
}

/// One use-site that forbids reentrancy is enough: it holds for every method of
/// the callback type, whatever the other use-sites say.
pub proof fn forbidden_wins(
    family: FamilyModel,
    operation: OperationModel,
    callback_type: u32,
    i: int,
    j: int,
)
    requires
        0 <= i < family.operations.len(),
        0 <= j < family.operations[i].callbacks.len(),
        family.operations[i].callbacks[j].callback_type_id == callback_type,
        family.operations[i].callbacks[j].contract.reentrancy is Forbidden,
    ensures
        model::type_forbids(family, callback_type),
        model::method_forbids(family, operation, callback_type),
{
    assert(model::forbids(family.operations[i].callbacks, callback_type));
}

/// While a call of an exclusive callback is out, running that callback again is
/// refused and the host hears nothing.
pub proof fn running_callback_is_not_reentered(
    before: BackendModel,
    running: BackendModel,
    operation_id: u32,
    args: Vec<OhosValue>,
    accepted: Result<AsyncInvocation, OhosEngineError>,
    callback_type: u32,
    callback_id: u32,
    method_id: u32,
    again: Seq<OhosValue>,
    after: BackendModel,
    r: Result<OhosValue, OhosEngineError>,
)
    requires
        model::async_outcome(before, operation_id, args, running, accepted),
        accepted matches Ok(invocation) && invocation.guard == Some((callback_type, callback_id)),
        model::type_forbids(before.family, callback_type),
        model::callback_outcome(running, callback_type, callback_id, method_id, again, after, r),
    ensures
        after == running,
        r == Err::<OhosValue, OhosEngineError>(
            OhosEngineError::ReentrancyForbidden { callback_type, callback_id },
        ),
{
}

/// A call of an open session other than its closing.
#[allow(inconsistent_fields)]
pub enum SessionStep {
    Sync { operation_id: u32, args: Seq<OhosValue>, r: Result<OhosValue, OhosEngineError> },
    Async { operation_id: u32, args: Vec<OhosValue>, r: Result<AsyncInvocation, OhosEngineError> },
    BeginSync {
        operation_id: u32,
        args: Seq<OhosValue>,
        r: Result<SyncInvocation, OhosEngineError>,
    },
    FinishSync {
        operation: OperationModel,
        guard: Option<(u32, u32)>,
        result: Result<OhosValue, OhosError>,
    },
    EnterCallback {
        callback_type: u32,
        callback_id: u32,
        r: Result<Option<(u32, u32)>, OhosEngineError>,
    },
    LeaveCallback { guard: Option<(u32, u32)> },
    Resume { invocation: AsyncInvocation, step: AsyncStep },
    Settle { guard: Option<(u32, u32)>, result: Result<OhosValue, OhosError> },
    Callback {
        callback_type: u32,
        callback_id: u32,
        method_id: u32,
        args: Seq<OhosValue>,
        r: Result<OhosValue, OhosEngineError>,
    },
    Retain { callback_type: u32, callback_id: u32, r: Result<(), OhosEngineError> },
    ReleaseCallback { callback_type: u32, callback_id: u32, r: Result<(), OhosEngineError> },
    CancelInput { stream_id: u32, r: Result<(), OhosEngineError> },
    ReleaseInput { stream_id: u32, r: Result<(), OhosEngineError> },
    NextOutput { stream_id: u32, r: Result<OhosValue, OhosEngineError> },
    CancelOutput { stream_id: u32, r: Result<(), OhosEngineError> },
    ReleaseOutput { stream_id: u32, r: Result<(), OhosEngineError> },
    ReleaseObject { object_id: u32, r: Result<(), OhosEngineError> },
}

impl SessionStep {
    /// The call leads from one state to the other.
    pub open spec fn leads(self, before: BackendModel, after: BackendModel) -> bool {
        match self {
            SessionStep::Sync { operation_id, args, r } => model::sync_outcome(
                before,
                operation_id,
                args,
                after,
                r,
            ),
            SessionStep::Async { operation_id, args, r } => model::async_outcome(
                before,
                operation_id,
                args,
                after,
                r,
            ),
            SessionStep::BeginSync { operation_id, args, r } => model::sync_begun(
                before,
                operation_id,
                args,
                after,
                r,
            ),
            SessionStep::FinishSync { operation, guard, result } => after == before.finished(
                operation,
                guard,
                result,
            ),
            SessionStep::EnterCallback { callback_type, callback_id, r } => model::callback_begun(
                before,
                callback_type,
                callback_id,
                after,
                r,
            ),
            SessionStep::LeaveCallback { guard } => after == before.unguarded(guard),
            SessionStep::Resume { invocation, step } => model::resume_outcome(
                before,
                invocation,
                after,
                step,
            ),
            SessionStep::Settle { guard, result } => after == before.settled(guard, result),
            SessionStep::Callback { callback_type, callback_id, method_id, args, r } =>
            model::callback_outcome(before, callback_type, callback_id, method_id, args, after, r),
            SessionStep::Retain { callback_type, callback_id, r } => model::retain_outcome(
                before,
                callback_type,
                callback_id,
                after,
                r,
            ),
            SessionStep::ReleaseCallback { callback_type, callback_id, r } =>
            model::release_callback_outcome(before, callback_type, callback_id, after, r),
            SessionStep::CancelInput { stream_id, r } => model::cancel_input_outcome(
                before,
                stream_id,
                after,
                r,
            ),
            SessionStep::ReleaseInput { stream_id, r } => model::release_input_outcome(
                before,
                stream_id,
                after,
                r,
            ),
            SessionStep::NextOutput { stream_id, r } => model::next_output_outcome(
                before,
                stream_id,
                after,
                r,
            ),
            SessionStep::CancelOutput { stream_id, r } => model::cancel_output_outcome(
                before,
                stream_id,
                after,
                r,
            ),
            SessionStep::ReleaseOutput { stream_id, r } => model::release_output_outcome(
                before,
                stream_id,
                after,
                r,
            ),
            SessionStep::ReleaseObject { object_id, r } => model::release_object_outcome(
                before,
                object_id,
                after,
                r,
            ),
        }
    }

    /// The call ends another one that runs this callback.
    pub open spec fn ends(self, key: (u32, u32)) -> bool {
        match self {
            SessionStep::Settle { guard, .. } => guard == Some(key),
            SessionStep::FinishSync { guard, .. } => guard == Some(key),
            SessionStep::LeaveCallback { guard } => guard == Some(key),
            _ => false,
        }
    }
}

/// The session goes through these states, one step after the other.
pub open spec fn passes(states: Seq<BackendModel>, steps: Seq<SessionStep>) -> bool {
    &&& states.len() == steps.len() + 1
    &&& forall|i: int|
        0 <= i < steps.len() ==> (#[trigger] steps[i]).leads(states[i], states[i + 1])
}

/// Nothing ends the call that runs this callback.
pub open spec fn keeps_running(steps: Seq<SessionStep>, key: (u32, u32)) -> bool {
    forall|i: int| 0 <= i < steps.len() ==> !(#[trigger] steps[i]).ends(key)
}

/// The operation runs methods of this callback type, asynchronously.
pub open spec fn runs(model: BackendModel, operation_id: u32, callback_type: u32) -> bool {
    &&& model.operation(operation_id) matches Some(operation)
    &&& operation.async_kind is Async
    &&& operation.target matches FamilyOperationTarget::CallbackHost { callback_type_id, .. }
    &&& callback_type_id == callback_type
}

/// A callback that a call runs is running until that call ends.
pub proof fn running_callback_keeps_running(
    states: Seq<BackendModel>,
    steps: Seq<SessionStep>,
    key: (u32, u32),
)
    requires
        passes(states, steps),
        keeps_running(steps, key),
        states[0].active.contains(key),
        !states[0].closed,
    ensures
        states.last().active.contains(key),
        states.last().family == states[0].family,
        !states.last().closed,
    decreases steps.len(),
{
    if steps.len() > 0 {
        let earlier = steps.drop_last();
        assert forall|i: int| 0 <= i < earlier.len() implies (#[trigger] earlier[i]).leads(
            states.drop_last()[i],
            states.drop_last()[i + 1],
        ) by {
            assert(earlier[i] == steps[i]);
        }
        assert forall|i: int| 0 <= i < earlier.len() implies !(#[trigger] earlier[i]).ends(key) by {
            assert(earlier[i] == steps[i]);
        }
        running_callback_keeps_running(states.drop_last(), earlier, key);
        let step = steps[steps.len() - 1];
        assert(step.leads(states[steps.len() - 1], states[steps.len() as int]));
        assert(!step.ends(key));
    }
}

/// While a suspended call runs a callback of a type that some use-site makes
/// exclusive, the same callback is refused without a word to the host, whatever
/// else the session has done meanwhile; a callback that nobody runs is accepted.
pub proof fn pending_callback_is_exclusive(
    before: BackendModel,
    operation_id: u32,
    args: Vec<OhosValue>,
    accepted: AsyncInvocation,
    states: Seq<BackendModel>,
    steps: Seq<SessionStep>,
    callback_type: u32,
    callback_id: u32,
    again_id: u32,
    again: Vec<OhosValue>,
    other: u32,
    after: BackendModel,
    r: Result<AsyncInvocation, OhosEngineError>,
)
    requires
        runs(before, operation_id, callback_type),
        model::callback_named(args@) == Some(callback_id),
        model::type_forbids(before.family, callback_type),
        model::async_outcome(before, operation_id, args, states[0], Ok(accepted)),
        passes(states, steps),
        keeps_running(steps, (callback_type, callback_id)),
        runs(states.last(), again_id, callback_type),
        model::callback_named(again@) == Some(other),
        model::async_outcome(states.last(), again_id, again, after, r),
    ensures
        accepted.guard == Some((callback_type, callback_id)),
        after.history == states.last().history,
        other == callback_id ==> r == Err::<AsyncInvocation, OhosEngineError>(
            OhosEngineError::ReentrancyForbidden { callback_type, callback_id },
        ),
        !states.last().active.contains((callback_type, other)) ==> r is Ok,
{
    running_callback_keeps_running(states, steps, (callback_type, callback_id));
}

/// Once the suspended call has ended, with a value or with an error of the host,
/// its callback is accepted again.
pub proof fn ended_callback_is_accepted(
    pending: BackendModel,
    callback_type: u32,
    callback_id: u32,
    result: Result<OhosValue, OhosError>,
    operation_id: u32,
    again: Vec<OhosValue>,
    after: BackendModel,
    r: Result<AsyncInvocation, OhosEngineError>,
)
    requires
        !pending.closed,
        runs(pending, operation_id, callback_type),
        model::callback_named(again@) == Some(callback_id),
        model::async_outcome(
            pending.settled(Some((callback_type, callback_id)), result),
            operation_id,
            again,
            after,
            r,
        ),
    ensures
        r is Ok,
{
}

} // verus!
