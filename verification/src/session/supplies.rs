//! What becomes of the answers that the session is given while it takes leases, walks
//! paths, ends resources and rolls calls back.

use crate::number::Number;
use crate::session::leases::{
    CallbackReleaseQueue, CallbackTransferRegistry, QueueModel, SessionCallbackInvoker,
    SessionCallbackTransfers,
};
use crate::session::lifetimes;
use crate::session::path::{PathRequest, PathWalk};
use crate::session::probe;
use crate::session::retention::{
    ArgumentRetention, ResultModel, ResultPhase, ResultRetention, RetentionModel, RetentionPhase,
};
use crate::session::rollback::{Rollback, RollbackPhase, RollbackStep};
use crate::session::setup::SessionSetup;
use crate::session::state::{SessionModel, SessionState, TrackedResource};
use crate::session::types::{
    CallbackKey, CallbackRegistrationToken, JsRef, JsScheduler, JsType, JsValue, SegmentModel,
    SessionCallbackRetention, SessionError, SessionOperationDescriptor, SessionOperationDispatch,
    SessionResourceReceiver, SessionStatus,
};
use crate::text;
use vstd::prelude::*;

verus! {

// ---- Walking paths ----

/// A walk asks for what its segment leads to, of the value that it stands at.
pub proof fn walk_asks_what_its_segment_leads_to(
    walk: &mut PathWalk,
    r: Result<PathRequest, SessionError>,
)
    requires
        call_ensures(PathWalk::request, (walk,), r),
    ensures
        ({
            let here = old(walk)@.settled();
            let value = here.todo[0];
            &&& final(walk)@ == here
            &&& here.position >= here.path.len() ==> r == Ok::<PathRequest, SessionError>(
                PathRequest::Finished,
            )
            &&& here.position < here.path.len() ==> match here.path[here.position as int] {
                SegmentModel::Field(field) => r matches Ok(
                    PathRequest::Property { value: of, name },
                ) && of == value && name@ == field,
                SegmentModel::Variant(variant) => r matches Ok(
                    PathRequest::Variant { value: of, name },
                ) && of == value && name@ == variant,
                SegmentModel::Optional => r == Ok::<PathRequest, SessionError>(
                    PathRequest::NullCheck { value },
                ),
                SegmentModel::SequenceElement => r == Ok::<PathRequest, SessionError>(
                    PathRequest::Elements { value },
                ),
                SegmentModel::SetElement => r == Ok::<PathRequest, SessionError>(
                    PathRequest::Members { value },
                ),
                SegmentModel::MapKey => r == Ok::<PathRequest, SessionError>(
                    PathRequest::Entries { value },
                ),
                SegmentModel::MapValue => r == Ok::<PathRequest, SessionError>(
                    PathRequest::Entries { value },
                ),
                SegmentModel::Argument(_) => r is Err,
                SegmentModel::Return => r is Err,
                SegmentModel::StreamItem => true,
                SegmentModel::StreamError => true,
            }
        }),
{
    crate::session::lookups::walk_stops_where_it_must_look(old(walk)@);
}

/// A map is replaced by its keys where the segment asks for keys, and by its values
/// where it asks for values.
pub proof fn map_is_replaced_as_the_segment_asks(
    walk: &mut PathWalk,
    entries: Vec<(JsValue, JsValue)>,
    i: int,
)
    requires
        call_ensures(PathWalk::supply_entries, (walk, entries), ()),
        0 <= i < entries@.len(),
    ensures
        ({
            let at = old(walk)@.done.len() as int + i;
            &&& final(walk)@.done.len() == old(walk)@.done.len() + entries@.len()
            &&& old(walk)@.segment() == SegmentModel::MapKey ==> final(walk)@.done[at]
                == entries@[i].0
            &&& old(walk)@.segment() == SegmentModel::MapValue ==> final(walk)@.done[at]
                == entries@[i].1
            &&& final(walk)@.todo == old(walk)@.todo.drop_first()
        }),
{
}

/// A value stays where it was chosen and goes where it was not.
pub proof fn chosen_value_stays(walk: &mut PathWalk, keep: bool)
    requires
        call_ensures(PathWalk::supply_choice, (walk, keep), ()),
    ensures
        keep ==> final(walk)@.done == old(walk)@.done + seq![old(walk)@.todo[0]],
        !keep ==> final(walk)@.done == old(walk)@.done,
        final(walk)@.todo == old(walk)@.todo.drop_first(),
{
    assert(old(walk)@.done + Seq::empty() =~= old(walk)@.done);
}

// ---- Taking leases ----

/// The callback that an argument names comes into force under its use-site's type. A
/// retained one is retained by the host next; a scoped one is noted for the end of the
/// call.
pub proof fn named_callback_comes_into_force(
    leases: &mut ArgumentRetention,
    state: &mut SessionState,
    args: &Vec<JsValue>,
    id: u32,
    i: usize,
)
    requires
        call_ensures(ArgumentRetention::supply_callback_id, (leases, state, args, id), ()),
        old(leases)@.phase == RetentionPhase::CallbackValues(i),
    ensures
        ({
            let operation = old(state)@.operations[old(leases)@.operation as int];
            let argument = operation.callback_arguments@[i as int];
            let key = CallbackKey { callback_type_id: argument.callback_type_id, callback_id: id };
            &&& final(state)@ == old(state)@.with_contract(key, argument@)
            &&& argument.retention == SessionCallbackRetention::Retained ==> final(leases)@ == (
            RetentionModel { phase: RetentionPhase::CallbackRetain(i, key), ..old(leases)@ })
            &&& argument.retention == SessionCallbackRetention::Scoped ==> final(leases)@ == (
            RetentionModel {
                values: old(leases)@.values.drop_first(),
                scoped: old(leases)@.scoped.push(
                    CallbackRegistrationToken { key, token: old(state)@.next_registration },
                ),
                ..old(leases)@
            })
        }),
{
}

/// The lease of a retained callback joins those of its use-site, and the walk through
/// the values goes on.
pub proof fn lease_joins_its_use_site(
    leases: &mut ArgumentRetention,
    state: &SessionState,
    args: &Vec<JsValue>,
    token: u64,
    i: usize,
    key: CallbackKey,
)
    requires
        call_ensures(ArgumentRetention::supply_lease, (leases, state, args, token), ()),
        old(leases)@.phase == RetentionPhase::CallbackRetain(i, key),
    ensures
        final(leases)@ == (RetentionModel {
            phase: RetentionPhase::CallbackValues(i),
            values: old(leases)@.values.drop_first(),
            current: old(leases)@.current.push(token),
            ..old(leases)@
        }),
{
}

/// The values at a use-site are treated next, as callbacks or as streams.
pub proof fn found_values_are_treated_next(
    leases: &mut ArgumentRetention,
    state: &SessionState,
    args: &Vec<JsValue>,
    values: Vec<JsValue>,
    i: usize,
)
    requires
        call_ensures(ArgumentRetention::supply_values, (leases, state, args, values), ()),
    ensures
        old(leases)@.phase == RetentionPhase::Callback(i) ==> final(leases)@ == (RetentionModel {
            phase: RetentionPhase::CallbackValues(i),
            values: values@,
            ..old(leases)@
        }),
        old(leases)@.phase == RetentionPhase::Stream(i) ==> final(leases)@ == (RetentionModel {
            phase: RetentionPhase::StreamValues(i),
            values: values@,
            ..old(leases)@
        }),
{
}

/// A stream among the arguments, and one that receives the call, is tracked under its
/// number.
pub proof fn named_streams_are_tracked(
    leases: &mut ArgumentRetention,
    state: &mut SessionState,
    args: &Vec<JsValue>,
    id: u32,
)
    ensures
        call_ensures(ArgumentRetention::supply_stream_id, (leases, state, args, id), ()) ==> final(state)@ == old(state)@.with_input_stream(id) && final(leases)@ == (RetentionModel {
            values: old(leases)@.values.drop_first(),
            ..old(leases)@
        }),
        call_ensures(ArgumentRetention::supply_receiver_stream, (leases, state, args, id), ())
            ==> final(state)@ == old(state)@.with_input_stream(id) && final(leases)@ == (
        RetentionModel { phase: RetentionPhase::Transfer, ..old(leases)@ }),
{
}

/// A transfer is remembered by the session and handed to the native function.
pub proof fn transfer_is_remembered(
    leases: &mut ArgumentRetention,
    state: &mut SessionState,
    args: &Vec<JsValue>,
    id: u32,
)
    requires
        call_ensures(ArgumentRetention::supply_transfer, (leases, state, args, id), ()),
    ensures
        final(state)@ == (SessionModel {
            transfers: old(state)@.transfers.push(id),
            ..old(state)@
        }),
        final(leases)@ == (RetentionModel {
            phase: RetentionPhase::Finished,
            transfer_id: Some(id),
            ..old(leases)@
        }),
{
}

/// A callback in the result comes into force only where it is retained; the session
/// then owns its lease.
pub proof fn result_callback_is_owned_where_retained(
    leases: &mut ResultRetention,
    state: &mut SessionState,
    id: u32,
    i: usize,
)
    requires
        call_ensures(ResultRetention::supply_callback_id, (leases, state, id), ()),
        old(leases)@.phase == ResultPhase::Values(i),
    ensures
        ({
            let operation = old(state)@.operations[old(leases)@.operation as int];
            let argument = operation.callback_arguments@[i as int];
            let key = CallbackKey { callback_type_id: argument.callback_type_id, callback_id: id };
            &&& argument.retention == SessionCallbackRetention::Retained ==> final(state)@ == old(state)@.with_contract(key, argument@) && final(leases)@ == (ResultModel {
                phase: ResultPhase::Retain(i, key),
                ..old(leases)@
            })
            &&& argument.retention == SessionCallbackRetention::Scoped ==> final(state)@ == old(state)@ && final(leases)@ == (ResultModel {
                values: old(leases)@.values.drop_first(),
                ..old(leases)@
            })
        }),
{
}

/// The lease of a callback in the result belongs to the session, not to the call.
pub proof fn session_owns_result_leases(
    leases: &mut ResultRetention,
    state: &mut SessionState,
    token: u64,
)
    requires
        call_ensures(ResultRetention::supply_lease, (leases, state, token), ()),
    ensures
        final(state)@ == (SessionModel { owners: old(state)@.owners.push(token), ..old(state)@ }),
        final(leases)@.values == old(leases)@.values.drop_first(),
{
}

/// A lease is taken where the host retained the callback and a token is left; where
/// not, one release is owed, and no lease is live.
pub proof fn lease_is_taken_or_given_back(
    state: &mut SessionState,
    queue: &mut CallbackReleaseQueue,
    key: CallbackKey,
    retained: Result<(), SessionError>,
    r: Result<u64, SessionError>,
)
    requires
        call_ensures(SessionState::new_callback_lease, (state, queue, key, retained), r),
    ensures
        retained is Ok && old(queue)@.next_token < u64::MAX ==> {
            &&& r == Ok::<u64, SessionError>(old(queue)@.next_token)
            &&& final(queue)@ == old(queue)@.registered(key)
            &&& final(state)@ == (SessionModel {
                leases: old(state)@.leases.push(old(queue)@.next_token),
                ..old(state)@
            })
        },
        retained is Err || old(queue)@.next_token == u64::MAX ==> {
            &&& r is Err
            &&& final(state)@ == old(state)@
            &&& final(queue)@ == (QueueModel {
                pending: old(queue)@.pending.push(key),
                ..old(queue)@
            })
        },
        retained matches Err(e) ==> r == Err::<u64, SessionError>(e),
{
}

/// Pending releases run once there is something to run them, and are then gone.
pub proof fn pending_releases_run_once(
    queue: &mut CallbackReleaseQueue,
    release_callback: Option<JsRef>,
    keys: Vec<CallbackKey>,
)
    requires
        call_ensures(CallbackReleaseQueue::drain, (queue, release_callback), keys),
    ensures
        release_callback is Some ==> keys@ == old(queue)@.pending && final(queue)@ == (QueueModel {
            pending: Seq::empty(),
            ..old(queue)@
        }),
        release_callback is None ==> keys@.len() == 0 && final(queue)@ == old(queue)@,
{
}

/// An open queue wakes its scheduler, and a closed one none.
pub proof fn closed_queue_wakes_nobody(
    queue: &CallbackReleaseQueue,
    woken: Option<JsScheduler>,
)
    requires
        call_ensures(CallbackReleaseQueue::wake, (queue,), woken),
    ensures
        queue@.closed ==> woken is None,
        !queue@.closed ==> woken == queue@.scheduler,
{
}

/// A scheduler is installed in an open queue only.
pub proof fn open_queue_takes_a_scheduler(
    queue: &mut CallbackReleaseQueue,
    scheduler: JsScheduler,
    installed: bool,
)
    requires
        call_ensures(CallbackReleaseQueue::install, (queue, scheduler), installed),
    ensures
        installed == !old(queue)@.closed,
        installed ==> final(queue)@ == (QueueModel {
            scheduler: Some(scheduler),
            ..old(queue)@
        }),
        !installed ==> final(queue)@ == old(queue)@,
{
}

/// A queue that shuts down gives its scheduler back, keeps what it owes and stays
/// closed.
pub proof fn shut_queue_gives_its_scheduler_back(
    queue: &mut CallbackReleaseQueue,
    scheduler: Option<JsScheduler>,
)
    requires
        call_ensures(CallbackReleaseQueue::shutdown, (queue,), scheduler),
    ensures
        scheduler == old(queue)@.scheduler,
        final(queue)@ == (QueueModel { closed: true, scheduler: None, ..old(queue)@ }),
{
}

/// Invocations are numbered one after the other, and none after the last number.
pub proof fn invocations_are_numbered(
    invoker: &mut SessionCallbackInvoker,
    r: Result<u32, SessionError>,
)
    requires
        call_ensures(SessionCallbackInvoker::next_invocation_id, (invoker,), r),
    ensures
        old(invoker).next < u32::MAX ==> r == Ok::<u32, SessionError>(old(invoker).next)
            && final(invoker).next == old(invoker).next + 1,
        old(invoker).next == u32::MAX ==> (r matches Err(e) && e.reason@
            == "callback invocation ID space exhausted"@) && final(invoker).next == old(invoker).next,
        final(invoker).closed == old(invoker).closed,
{
}

/// Native code finds a lease by its use-site first and its value second.
pub proof fn lease_is_found_by_use_site_and_value<L>(
    transfers: &SessionCallbackTransfers<L>,
    use_site_index: usize,
    value_index: usize,
    r: Result<&L, SessionError>,
)
    requires
        call_ensures(
            SessionCallbackTransfers::<L>::lease,
            (transfers, use_site_index, value_index),
            r,
        ),
    ensures
        use_site_index < transfers.use_sites@.len() && value_index
            < transfers.use_sites@[use_site_index as int]@.len() ==> (r matches Ok(lease) && *lease
            == transfers.use_sites@[use_site_index as int]@[value_index as int]),
        use_site_index >= transfers.use_sites@.len() || value_index
            >= transfers.use_sites@[use_site_index as int]@.len() ==> (r matches Err(e)
            && e.reason@ == "callback lease transfer "@ + text::decimal(use_site_index as int)
            + "/"@ + text::decimal(value_index as int) + " is unavailable"@),
{
}

/// A transfer is found under its session first and its number second, and only once.
pub proof fn transfer_is_found_by_session_and_number<T>(
    registry: &mut CallbackTransferRegistry<T>,
    generation: u32,
    id: u32,
    r: Result<T, SessionError>,
)
    requires
        call_ensures(CallbackTransferRegistry::<T>::take, (registry, generation, id), r),
    ensures
        old(registry).transfers().dom().contains((generation, id)) ==> r == Ok::<T, SessionError>(
            old(registry).transfers()[(generation, id)],
        ),
        !old(registry).transfers().dom().contains((generation, id)) ==> (r matches Err(e)
            && e.reason@ == "unknown callback transfer "@ + text::decimal(generation as int) + "/"@
            + text::decimal(id as int)),
        !final(registry).transfers().dom().contains((generation, id)),
{
}

// ---- Ending resources ----

/// The promise of the first cancellation is kept; a later one is not.
pub proof fn first_cancel_promise_is_kept(
    state: &mut SessionState,
    same: &Vec<JsRef>,
    promise: JsRef,
    k: int,
    r: Result<bool, SessionError>,
)
    requires
        call_ensures(SessionState::remember_cancel_promise, (state, same, promise), r),
        lifetimes::first_tracked(
            old(state)@.resources,
            SessionResourceReceiver::OutputStream,
            same@,
            k,
        ),
    ensures
        old(state)@.resources[k].cancel_promise is None ==> r == Ok::<bool, SessionError>(true)
            && final(state)@ == (SessionModel {
            resources: old(state)@.resources.update(
                k,
                TrackedResource { cancel_promise: Some(promise), ..old(state)@.resources[k] },
            ),
            ..old(state)@
        }),
        old(state)@.resources[k].cancel_promise is Some ==> r == Ok::<bool, SessionError>(false)
            && final(state)@ == old(state)@,
{
    lifetimes::lemma_tracked(
        old(state)@.resources,
        SessionResourceReceiver::OutputStream,
        same@,
        0,
        k,
    );
}

/// A cancellation that is followed is pending work, and its stream waits for it.
pub proof fn followed_cancellation_is_pending_work(
    state: &mut SessionState,
    same: &Vec<JsRef>,
    k: int,
    r: Result<JsRef, SessionError>,
)
    requires
        call_ensures(SessionState::begin_output_cancel, (state, same), r),
        lifetimes::first_tracked(
            old(state)@.resources,
            SessionResourceReceiver::OutputStream,
            same@,
            k,
        ),
        old(state)@.pending_work < u32::MAX,
    ensures
        r == Ok::<JsRef, SessionError>(old(state)@.resources[k].reference),
        final(state)@ == (SessionModel {
            pending_work: (old(state)@.pending_work + 1) as u32,
            resources: old(state)@.resources.update(
                k,
                TrackedResource { cancel_pending: true, ..old(state)@.resources[k] },
            ),
            ..old(state)@
        }),
{
    lifetimes::lemma_tracked(
        old(state)@.resources,
        SessionResourceReceiver::OutputStream,
        same@,
        0,
        k,
    );
}

/// A new resource joins the end of the table untouched.
pub proof fn new_resource_joins_the_end(
    state: &mut SessionState,
    reference: JsRef,
    kind: SessionResourceReceiver,
)
    requires
        call_ensures(SessionState::retain_resource, (state, reference, kind), ()),
    ensures
        final(state)@ == (SessionModel {
            resources: old(state)@.resources.push(
                TrackedResource {
                    reference,
                    kind,
                    cancel_called: false,
                    cancel_pending: false,
                    cancel_promise: None,
                    release_called: false,
                    release_pending: false,
                },
            ),
            ..old(state)@
        }),
{
}

/// An input stream is released by the host where the session still tracks it.
pub proof fn tracked_stream_is_released(state: &mut SessionState, id: u32, release: bool)
    requires
        call_ensures(SessionState::release_input_stream, (state, id), release),
    ensures
        release == old(state)@.input_streams.contains(id),
        release ==> !final(state)@.input_streams.contains(id)
            && final(state)@.released_input_streams.contains(id),
        !release ==> final(state)@ == old(state)@,
{
}

// ---- Rolling back ----

/// A rollback gives back leases first, then streams, then resources.
pub proof fn rollback_goes_from_leases_to_resources(
    rollback: &mut Rollback,
    state: &mut SessionState,
    step: RollbackStep,
)
    requires
        call_ensures(Rollback::step, (rollback, state), step),
    ensures
        final(rollback).snapshot == old(rollback).snapshot,
        old(rollback).phase == RollbackPhase::Leases ==> step is Leases && final(rollback).phase
            == RollbackPhase::Streams && final(state)@.resources == old(state)@.resources,
        old(rollback).phase == RollbackPhase::Streams ==> step is Streams && final(rollback).phase
            == RollbackPhase::Resources && final(state)@.leases == old(state)@.leases,
        old(rollback).phase == RollbackPhase::Resources ==> final(rollback).phase
            == RollbackPhase::Resources && final(state)@ == old(state)@,
        old(rollback).phase == RollbackPhase::Resources && old(state)@.resources.len() > old(rollback).snapshot.resource_len ==> step == RollbackStep::Resource(old(state)@.resources.last()),
        old(rollback).phase == RollbackPhase::Resources && old(state)@.resources.len() <= old(rollback).snapshot.resource_len ==> step is Finished,
{
}

/// A rollback claims the leases of the call before those that the session owns, and
/// none from before the call.
pub proof fn rollback_claims_what_the_call_took(
    rollback: &mut Rollback,
    state: &mut SessionState,
    step: RollbackStep,
)
    requires
        call_ensures(Rollback::step, (rollback, state), step),
        old(rollback).phase == RollbackPhase::Leases,
        old(rollback).snapshot.lease_len < old(state)@.leases.len(),
        old(rollback).snapshot.owner_len < old(state)@.owners.len(),
        old(rollback).snapshot.transfer_len < old(state)@.transfers.len(),
    ensures
        step matches RollbackStep::Leases(released) && released.tokens@ == old(state)@.leases.skip(
            old(rollback).snapshot.lease_len as int,
        ) + old(state)@.owners.skip(old(rollback).snapshot.owner_len as int)
            && released.transfers@ == old(state)@.transfers.skip(
            old(rollback).snapshot.transfer_len as int,
        ),
{
}

// ---- Setting up ----

/// A native operation brings its callback and a host operation brings none; anything
/// else is refused by the number of its slot.
pub proof fn slots_bring_the_callbacks_they_need(
    setup: &SessionSetup,
    descriptor: &SessionOperationDescriptor,
    r: Result<Option<JsValue>, SessionError>,
)
    requires
        call_ensures(SessionSetup::slot_callback, (setup, descriptor), r),
    ensures
        ({
            let slot = text::decimal(setup.operations().len() as int);
            let native = match descriptor.dispatch {
                SessionOperationDispatch::NativeSync => true,
                SessionOperationDispatch::NativeAsync => true,
                _ => false,
            };
            &&& native && descriptor.callback is Some ==> r == Ok::<
                Option<JsValue>,
                SessionError,
            >(descriptor.callback)
            &&& !native && descriptor.callback is None ==> r == Ok::<
                Option<JsValue>,
                SessionError,
            >(None)
            &&& native && descriptor.callback is None ==> (r matches Err(e) && e.status
                == SessionStatus::InvalidArg && e.reason@ == "native UniFFI operation slot "@ + slot
                + " has no callback"@)
            &&& !native && descriptor.callback is Some ==> (r matches Err(e) && e.status
                == SessionStatus::InvalidArg && e.reason@ == "host UniFFI operation slot "@ + slot
                + " unexpectedly has a native callback"@)
        }),
{
}

/// A slot holds what its descriptor says, behind the slots before it.
pub proof fn slots_hold_their_descriptors(
    setup: &mut SessionSetup,
    descriptor: SessionOperationDescriptor,
    callback: Option<JsRef>,
)
    requires
        call_ensures(SessionSetup::add_operation, (setup, descriptor, callback), ()),
    ensures
        ({
            let slot = final(setup).operations().last();
            &&& final(setup).operations().drop_last() =~= old(setup).operations()
            &&& slot.dispatch == descriptor.dispatch
            &&& slot.callback == callback
            &&& slot.native_call == descriptor.native_call
            &&& slot.receiver == descriptor.receiver
            &&& slot.callback_transfer == descriptor.callback_transfer
            &&& slot.callback_arguments == descriptor.callback_arguments
            &&& slot.stream_arguments == descriptor.stream_arguments
            &&& final(setup).host() == old(setup).host()
            &&& final(setup).release_callback() == old(setup).release_callback()
            &&& final(setup).generation() == old(setup).generation()
            &&& final(setup).policy() == old(setup).policy()
        }),
        match descriptor.dispatch {
            SessionOperationDispatch::CallbackHostSync {
                callback_type_id,
                method_id,
                error_style,
            }
            | SessionOperationDispatch::CallbackHostAsync {
                callback_type_id,
                method_id,
                error_style,
            } => final(setup).callback_methods() == old(setup).callback_methods().insert(
                (callback_type_id, method_id),
                error_style,
            ),
            _ => final(setup).callback_methods() == old(setup).callback_methods(),
        },
{
}

// ---- Reading script values ----

/// A call result says by its kind whether it carries a value or an error, and a stream
/// step by its kind whether it is the last one.
pub proof fn kinds_are_read_by_name(kind: Option<&String>, r: bool)
    ensures
        call_ensures(probe::is_value_kind, (kind,), r) ==> r == (kind matches Some(name) && name@
            == "value"@),
        call_ensures(probe::is_error_kind, (kind,), r) ==> r == (kind matches Some(name) && name@
            == "error"@),
        call_ensures(probe::is_terminal_kind, (kind,), r) ==> r == (kind matches Some(name) && (
        name@ == "done"@ || name@ == "error"@)),
{
}

/// Only objects are asked for `then` and for `handle`, only functions are called, and
/// only null is null.
pub proof fn script_types_are_told_apart(value: JsType, r: bool)
    ensures
        call_ensures(probe::may_have_then, (value,), r) ==> r == (value == JsType::Object),
        call_ensures(probe::may_have_handle, (value,), r) ==> r == (value == JsType::Object),
        call_ensures(probe::is_callable, (value,), r) ==> r == (value == JsType::Function),
        call_ensures(probe::is_null, (value,), r) ==> r == (value == JsType::Null),
{
}

/// A number is read exactly where it denotes an unsigned integer of the right size,
/// and then as that integer.
pub proof fn exact_numbers_are_read(
    value: JsType,
    number: Option<Number>,
    role: &str,
    k: u32,
    r: Result<u32, SessionError>,
)
    requires
        call_ensures(probe::decode_u32, (value, number, role), r),
    ensures
        value == JsType::Number && (number matches Some(n) && n.denotes(k as int)) ==> r == Ok::<
            u32,
            SessionError,
        >(k),
        value != JsType::Number || number is None ==> (r matches Err(e) && e.status
            == SessionStatus::InvalidArg && e.reason@ == role@
            + " must be an unsigned 32-bit integer"@),
{
    if r is Ok && value == JsType::Number && (number matches Some(n) && n.denotes(k as int)) {
        crate::number::denoted_integer_is_unique(number.unwrap(), k as int, r->Ok_0 as int);
    }
}

/// An enum value is the variant that its tag names.
pub proof fn variant_is_told_by_its_tag(
    tag_type: JsType,
    tag: Option<&String>,
    variant: &String,
    r: Result<bool, SessionError>,
)
    requires
        call_ensures(probe::variant_matches, (tag_type, tag, variant), r),
    ensures
        tag_type == JsType::Text && (tag matches Some(name) && name@ == variant@) ==> r == Ok::<
            bool,
            SessionError,
        >(true),
        tag_type == JsType::Text && (tag matches Some(name) && name@ != variant@) ==> r == Ok::<
            bool,
            SessionError,
        >(false),
        tag_type == JsType::Text && tag is None ==> (r matches Err(e) && e.reason@
            == "enum value has an invalid canonical tag"@),
        tag_type != JsType::Text ==> (r matches Err(e) && e.reason@
            == "enum value has a missing or non-string canonical tag"@),
{
}

} // verus!
