//! What the session does in each single case, told apart by the variants of its
//! inputs.

use crate::session::callback;
use crate::session::callback::{CallbackCall, HostArgument};
use crate::session::dispatch;
use crate::session::dispatch::{DispatchStep, NativeArgument};
use crate::session::output;
use crate::session::output::{CancelOutcome, CancelReason, CancelStep, LateResult, ResultTracking};
use crate::session::state;
use crate::session::state::{CloseSignal, RegisteredModel, SessionModel, SessionOperation};
use crate::session::types::{
    CallbackArgumentModel, CallbackKey, CallbackRegistrationToken, JsValue,
    SessionCallbackArgument, SessionCallbackErrorStyle, SessionCallbackReentrancy,
    SessionCallbackRetention, SessionCallbackThreading, SessionNativeCall,
    SessionOperationDispatch, SessionReceiver, SessionResourceReceiver,
};
use vstd::prelude::*;

verus! {

// ---- Native functions and the host ----

/// The first argument of a native function after the host and the transfer is the
/// handle of a leased receiver, of whatever kind, and otherwise the first argument
/// of the call as it is.
pub proof fn leased_receiver_goes_by_its_handle(
    operation: SessionOperation,
    generation: u32,
    transfer_id: Option<u32>,
    args: Seq<JsValue>,
)
    requires
        args.len() > 0,
    ensures
        ({
            let list = dispatch::native_arguments(operation, generation, transfer_id, args);
            let at: int = list.len() - args.len();
            &&& 0 <= at
            &&& operation.receiver == Some(
                SessionReceiver::Resource(SessionResourceReceiver::Object),
            ) ==> list[at] == NativeArgument::Handle(args[0])
            &&& operation.receiver == Some(
                SessionReceiver::Resource(SessionResourceReceiver::InputStream),
            ) ==> list[at] == NativeArgument::Handle(args[0])
            &&& operation.receiver == Some(
                SessionReceiver::Resource(SessionResourceReceiver::OutputStream),
            ) ==> list[at] == NativeArgument::Handle(args[0])
            &&& operation.receiver == Some(SessionReceiver::Value) ==> list[at]
                == NativeArgument::Value(args[0])
            &&& operation.receiver is None ==> list[at] == NativeArgument::Value(args[0])
        }),
{
}

/// Every other argument of the call reaches the native function as it is, in its
/// place.
pub proof fn further_arguments_go_as_they_are(
    operation: SessionOperation,
    generation: u32,
    transfer_id: Option<u32>,
    args: Seq<JsValue>,
    i: int,
)
    requires
        0 < i < args.len(),
    ensures
        ({
            let list = dispatch::native_arguments(operation, generation, transfer_id, args);
            list[list.len() - args.len() + i] == NativeArgument::Value(args[i])
        }),
{
}

/// Before the arguments of the call stand the host, where the function takes it,
/// and then the numbers of the session and of the transfer, where leases go along.
pub proof fn native_function_gets_host_and_transfer_first(
    operation: SessionOperation,
    generation: u32,
    transfer_id: Option<u32>,
    args: Seq<JsValue>,
)
    ensures
        ({
            let list = dispatch::native_arguments(operation, generation, transfer_id, args);
            let host: int = if operation.native_call == SessionNativeCall::HostAndArguments {
                1
            } else {
                0
            };
            &&& host == 1 ==> list[0] == NativeArgument::HostProxy
            &&& match transfer_id {
                Some(id) => if operation.callback_transfer {
                    &&& list.len() == host + 2 + args.len()
                    &&& list[host] == NativeArgument::Number(generation)
                    &&& list[host + 1] == NativeArgument::Number(id)
                } else {
                    list.len() == host + args.len()
                },
                None => list.len() == host + args.len(),
            }
        }),
{
}

/// What the host is asked to do for an operation: a pull for a pull, a cancel for a
/// cancel, and a callback method by its own numbers in its own mode.
pub proof fn host_performs_what_was_asked(
    callback_type_id: u32,
    method_id: u32,
    error_style: SessionCallbackErrorStyle,
)
    ensures
        dispatch::host_step(SessionOperationDispatch::InputStreamHostPull) == Some(
            DispatchStep::Stream { cancel: false },
        ),
        dispatch::host_step(SessionOperationDispatch::InputStreamHostCancel) == Some(
            DispatchStep::Stream { cancel: true },
        ),
        dispatch::host_step(
            SessionOperationDispatch::CallbackHostSync { callback_type_id, method_id, error_style },
        ) == Some(
            DispatchStep::Callback {
                callback_type_id,
                method_id,
                error_style,
                asynchronous: false,
            },
        ),
        dispatch::host_step(
            SessionOperationDispatch::CallbackHostAsync { callback_type_id, method_id, error_style },
        ) == Some(
            DispatchStep::Callback { callback_type_id, method_id, error_style, asynchronous: true },
        ),
        dispatch::host_step(SessionOperationDispatch::NativeSync) is None,
        dispatch::host_step(SessionOperationDispatch::NativeAsync) is None,
{
}

/// Native functions and callbacks that are called synchronously answer at once;
/// everything else settles later.
pub proof fn only_synchronous_operations_answer_at_once(operation: SessionOperationDispatch)
    ensures
        operation.settles_later() == match operation {
            SessionOperationDispatch::NativeSync => false,
            SessionOperationDispatch::NativeAsync => true,
            SessionOperationDispatch::CallbackHostSync { .. } => false,
            SessionOperationDispatch::CallbackHostAsync { .. } => true,
            SessionOperationDispatch::InputStreamHostPull => true,
            SessionOperationDispatch::InputStreamHostCancel => true,
        },
        operation.native() == match operation {
            SessionOperationDispatch::NativeSync => true,
            SessionOperationDispatch::NativeAsync => true,
            SessionOperationDispatch::CallbackHostSync { .. } => false,
            SessionOperationDispatch::CallbackHostAsync { .. } => false,
            SessionOperationDispatch::InputStreamHostPull => false,
            SessionOperationDispatch::InputStreamHostCancel => false,
        },
{
}

/// A stream is pulled and cancelled by the host method of that name.
pub proof fn stream_goes_to_its_host_method(cancel: bool, name: &'static str)
    requires
        call_ensures(dispatch::stream_method, (cancel,), name),
    ensures
        cancel ==> name@ == "cancelInputStream"@,
        !cancel ==> name@ == "pullInputStream"@,
{
}

/// A callback runs through the host method of its mode.
pub proof fn callback_goes_to_its_host_method(asynchronous: bool, name: &'static str)
    requires
        call_ensures(callback::callback_method, (asynchronous,), name),
    ensures
        asynchronous ==> name@ == "invokeCallbackAsync"@,
        !asynchronous ==> name@ == "invokeCallbackSync"@,
{
}

/// The host method that runs a callback gets the callback's type, its number, the
/// method, the number of the invocation where there is one, and last the arguments.
pub proof fn host_gets_the_numbers_in_their_places(
    call: CallbackCall,
    callback_id: JsValue,
    invocation_id: Option<u32>,
    list: Vec<HostArgument>,
)
    requires
        call_ensures(CallbackCall::host_arguments, (&call, callback_id, invocation_id), list),
    ensures
        list@.len() > 3,
        list@[0] == HostArgument::Number(call.key.callback_type_id),
        list@[1] == HostArgument::Value(callback_id),
        list@[2] == HostArgument::Number(call.method_id),
        list@.last() == HostArgument::Rest,
        match invocation_id {
            Some(id) => list@.len() == 5 && list@[3] == HostArgument::Number(id),
            None => list@.len() == 4,
        },
{
}

// ---- Entering callbacks ----

/// No use-site before `k` is about this callback type.
pub open spec fn unmentioned_before(
    arguments: Seq<SessionCallbackArgument>,
    callback_type_id: u32,
    k: int,
) -> bool {
    forall|i: int|
        0 <= i < k ==> (#[trigger] arguments[i]).callback_type_id != callback_type_id
}

proof fn lemma_first_use_site(
    arguments: Seq<SessionCallbackArgument>,
    callback_type_id: u32,
    from: int,
    k: int,
)
    requires
        0 <= from <= k <= arguments.len(),
        unmentioned_before(arguments, callback_type_id, k),
        k < arguments.len() ==> arguments[k].callback_type_id == callback_type_id,
    ensures
        callback::use_site_from(arguments, callback_type_id, from) == if k < arguments.len() {
            Some(k)
        } else {
            None
        },
    decreases k - from,
{
    if from < k {
        lemma_first_use_site(arguments, callback_type_id, from + 1, k);
    }
}

/// The first use-site of a callback type in an operation decides whether the
/// operation forbids to enter such a callback again.
pub proof fn first_use_site_decides(
    arguments: Seq<SessionCallbackArgument>,
    callback_type_id: u32,
    k: int,
)
    requires
        0 <= k < arguments.len(),
        unmentioned_before(arguments, callback_type_id, k),
        arguments[k].callback_type_id == callback_type_id,
    ensures
        arguments[k].reentrancy == SessionCallbackReentrancy::Forbidden
            ==> callback::operation_forbids(arguments, callback_type_id),
        arguments[k].reentrancy == SessionCallbackReentrancy::Allowed
            ==> !callback::operation_forbids(arguments, callback_type_id),
{
    lemma_first_use_site(arguments, callback_type_id, 0, k);
}

/// An operation without a use-site of a callback type does not forbid to enter such
/// a callback again.
pub proof fn unmentioned_callback_is_not_forbidden(
    arguments: Seq<SessionCallbackArgument>,
    callback_type_id: u32,
)
    requires
        unmentioned_before(arguments, callback_type_id, arguments.len() as int),
    ensures
        !callback::operation_forbids(arguments, callback_type_id),
{
    lemma_first_use_site(arguments, callback_type_id, 0, arguments.len() as int);
}

/// The use-sites in force for a callback are those under its type and its number.
pub proof fn use_sites_in_force_are_found_by_their_callback(session: SessionModel, key: CallbackKey)
    ensures
        ({
            let place = (key.callback_type_id, key.callback_id);
            &&& session.contracts.dom().contains(place) ==> session.entries(key)
                == session.contracts[place]
            &&& !session.contracts.dom().contains(place) ==> session.entries(key).len() == 0
        }),
{
}

/// A callback that may cross threads cannot be entered synchronously, whether it
/// runs or not.
pub proof fn crossing_callback_is_not_entered_synchronously(
    session: SessionModel,
    operation: int,
    key: CallbackKey,
    i: int,
)
    requires
        0 <= i < session.entries(key).len(),
        session.entries(key)[i].contract.threading == SessionCallbackThreading::MayCrossThread,
    ensures
        session.entry_refusal(operation, key, false) == Some(
            "synchronous callbacks cannot use the may-cross-thread policy"@,
        ),
{
}

/// A use-site in force that forbids it keeps a running callback from being entered
/// again.
pub proof fn running_callback_is_refused(
    session: SessionModel,
    operation: int,
    key: CallbackKey,
    i: int,
)
    requires
        0 <= i < session.entries(key).len(),
        session.entries(key)[i].contract.reentrancy == SessionCallbackReentrancy::Forbidden,
        session.active_callbacks.contains((key.callback_type_id, key.callback_id)),
    ensures
        session.entry_refusal(operation, key, true) == Some("callback reentrancy is forbidden"@),
{
}

/// The operation itself keeps a running callback from being entered again, where its
/// first use-site forbids it.
pub proof fn running_callback_is_refused_by_the_operation(
    session: SessionModel,
    operation: int,
    key: CallbackKey,
    k: int,
)
    requires
        0 <= k < session.operations[operation].callback_arguments@.len(),
        unmentioned_before(
            session.operations[operation].callback_arguments@,
            key.callback_type_id,
            k,
        ),
        session.operations[operation].callback_arguments@[k].callback_type_id
            == key.callback_type_id,
        session.operations[operation].callback_arguments@[k].reentrancy
            == SessionCallbackReentrancy::Forbidden,
        session.active_callbacks.contains((key.callback_type_id, key.callback_id)),
    ensures
        session.entry_refusal(operation, key, true) == Some("callback reentrancy is forbidden"@),
{
    first_use_site_decides(
        session.operations[operation].callback_arguments@,
        key.callback_type_id,
        k,
    );
}

/// A callback that does not run is entered, asynchronously always, and synchronously
/// where it stays on its thread.
pub proof fn idle_callback_is_entered(
    session: SessionModel,
    operation: int,
    key: CallbackKey,
    asynchronous: bool,
)
    requires
        !session.active_callbacks.contains((key.callback_type_id, key.callback_id)),
        asynchronous || forall|i: int|
            #![trigger session.entries(key)[i]]
            0 <= i < session.entries(key).len() ==> session.entries(key)[i].contract.threading
                == SessionCallbackThreading::CallingThread,
    ensures
        session.entry_refusal(operation, key, asynchronous) is None,
{
}

/// A running callback is entered again where no use-site forbids it.
pub proof fn allowed_callback_is_entered_again(
    session: SessionModel,
    operation: int,
    key: CallbackKey,
)
    requires
        unmentioned_before(
            session.operations[operation].callback_arguments@,
            key.callback_type_id,
            session.operations[operation].callback_arguments@.len() as int,
        ),
        forall|i: int|
            #![trigger session.entries(key)[i]]
            0 <= i < session.entries(key).len() ==> session.entries(key)[i].contract.reentrancy
                == SessionCallbackReentrancy::Allowed,
    ensures
        session.entry_refusal(operation, key, true) is None,
        !session.guards(operation, key),
{
    unmentioned_callback_is_not_forbidden(
        session.operations[operation].callback_arguments@,
        key.callback_type_id,
    );
}

/// A guarded callback is marked as running under its type and its number, and no
/// longer once it is over; nothing else changes.
pub proof fn running_callbacks_are_marked_by_type_and_number(
    session: SessionModel,
    call: CallbackCall,
)
    ensures
        session.entered(call.key) == (SessionModel {
            active_callbacks: session.active_callbacks.insert(
                (call.key.callback_type_id, call.key.callback_id),
            ),
            ..session
        }),
        call.guarded ==> call.over(session) == (SessionModel {
            active_callbacks: session.active_callbacks.remove(
                (call.key.callback_type_id, call.key.callback_id),
            ),
            ..session
        }),
        !call.guarded ==> call.over(session) == session,
{
}

// ---- Output streams ----

/// A cancellation that the script asked for fails with its hook, keeps the promise
/// of the first request only, waits for it only where there is a hook, and drops it
/// where it cannot wait.
pub proof fn requested_cancellation_reports_its_failures(is_new: bool, has_hook: bool)
    ensures
        ({
            let reason = CancelReason::Requested { is_new, has_hook };
            &&& output::cancelled_step(reason, CancelOutcome::Failed) == CancelStep::Fail
            &&& output::cancelled_step(reason, CancelOutcome::Nothing) == if is_new {
                CancelStep::Remember
            } else {
                CancelStep::Done
            }
            &&& output::cancelled_step(reason, CancelOutcome::Settled)
                == output::cancelled_step(reason, CancelOutcome::Nothing)
            &&& output::cancelled_step(reason, CancelOutcome::Pending)
                == output::cancelled_step(reason, CancelOutcome::Nothing)
            &&& output::remembered_step(reason, false) == CancelStep::Fail
            &&& output::remembered_step(reason, true) == if has_hook {
                CancelStep::Follow
            } else {
                CancelStep::Done
            }
            &&& output::followed_step(reason, false) == CancelStep::ForgetAndFail
            &&& output::followed_step(reason, true) == CancelStep::Done
        }),
{
}

/// A closing session follows the promise of a cancellation, whatever happens to it,
/// and otherwise releases the stream at once.
pub proof fn closing_cancellation_never_fails(outcome: CancelOutcome, kept: bool, following: bool)
    ensures
        outcome == CancelOutcome::Pending ==> output::cancelled_step(CancelReason::Closing, outcome)
            == CancelStep::Remember,
        outcome != CancelOutcome::Pending ==> output::cancelled_step(CancelReason::Closing, outcome)
            == CancelStep::Release,
        output::remembered_step(CancelReason::Closing, kept) == CancelStep::Follow,
        output::followed_step(CancelReason::Closing, following) == CancelStep::Done,
{
}

/// A stream that arrives too late is released as soon as its cancellation cannot be
/// followed any further.
pub proof fn late_cancellation_ends_in_a_release(outcome: CancelOutcome)
    ensures
        outcome == CancelOutcome::Pending ==> output::cancelled_step(CancelReason::Late, outcome)
            == CancelStep::Remember,
        outcome != CancelOutcome::Pending ==> output::cancelled_step(CancelReason::Late, outcome)
            == CancelStep::Release,
        output::remembered_step(CancelReason::Late, true) == CancelStep::Follow,
        output::remembered_step(CancelReason::Late, false) == CancelStep::Release,
        output::followed_step(CancelReason::Late, true) == CancelStep::Done,
        output::followed_step(CancelReason::Late, false) == CancelStep::ForgetAndRelease,
{
}

/// Of late results, objects are released and output streams cancelled.
pub proof fn late_results_are_ended_by_kind(
    kind: Option<SessionResourceReceiver>,
    late: LateResult,
)
    requires
        call_ensures(output::release_late_result, (kind,), late),
    ensures
        kind == Some(SessionResourceReceiver::Object) ==> late == LateResult::ReleaseObject,
        kind == Some(SessionResourceReceiver::OutputStream) ==> late == LateResult::CancelOutput,
        kind == Some(SessionResourceReceiver::InputStream) ==> late == LateResult::Drop,
        kind is None ==> late == LateResult::Drop,
{
}

/// A result that is an input stream is tracked as one, and any other resource under
/// its kind.
pub proof fn results_are_tracked_by_kind(
    kind: Option<SessionResourceReceiver>,
    tracking: ResultTracking,
)
    requires
        call_ensures(output::result_tracking, (kind,), tracking),
    ensures
        kind == Some(SessionResourceReceiver::Object) ==> tracking == ResultTracking::Resource(
            SessionResourceReceiver::Object,
        ),
        kind == Some(SessionResourceReceiver::OutputStream) ==> tracking
            == ResultTracking::Resource(SessionResourceReceiver::OutputStream),
        kind == Some(SessionResourceReceiver::InputStream) ==> tracking == ResultTracking::Stream,
        kind is None ==> tracking == ResultTracking::Nothing,
{
}

// ---- Use-sites in force ----

/// A scoped use-site comes into force each time it is registered, behind the others,
/// under a number of its own.
pub proof fn scoped_use_site_is_numbered(
    session: SessionModel,
    key: CallbackKey,
    contract: CallbackArgumentModel,
)
    requires
        contract.retention == SessionCallbackRetention::Scoped,
        session.next_registration < u64::MAX,
    ensures
        ({
            let after = session.with_contract(key, contract);
            let place = (key.callback_type_id, key.callback_id);
            &&& after.next_registration == session.next_registration + 1
            &&& after.contracts.dom().contains(place)
            &&& after.contracts[place] == session.entries(key).push(
                RegisteredModel { token: Some(session.next_registration), contract },
            )
            &&& after == (SessionModel {
                contracts: after.contracts,
                next_registration: after.next_registration,
                ..session
            })
            &&& after.contracts.remove(place) =~= session.contracts.remove(place)
        }),
{
}

/// A retained use-site comes into force once, behind the others and without a
/// number; registering it again changes nothing.
pub proof fn retained_use_site_is_registered_once(
    session: SessionModel,
    key: CallbackKey,
    contract: CallbackArgumentModel,
)
    requires
        contract.retention == SessionCallbackRetention::Retained,
    ensures
        ({
            let after = session.with_contract(key, contract);
            let place = (key.callback_type_id, key.callback_id);
            let known = RegisteredModel { token: None, contract };
            &&& session.entries(key).contains(known) ==> after == session
            &&& !session.entries(key).contains(known) ==> {
                &&& after.contracts.dom().contains(place)
                &&& after.contracts[place] == session.entries(key).push(known)
                &&& after == (SessionModel { contracts: after.contracts, ..session })
                &&& after.contracts.remove(place) =~= session.contracts.remove(place)
            }
            &&& after.with_contract(key, contract) == after
        }),
{
    let after = session.with_contract(key, contract);
    let known = RegisteredModel { token: None, contract };
    let entries = session.entries(key);
    if entries.contains(known) {
        let i = choose|i: int| 0 <= i < entries.len() && entries[i] == known;
        assert(entries[i].token is None && entries[i].contract == contract);
        assert(session.already_retained(key, contract));
    } else {
        if session.already_retained(key, contract) {
            let i = choose|i: int|
                #![trigger session.entries(key)[i]]
                0 <= i < session.entries(key).len() && session.entries(key)[i].token is None
                    && session.entries(key)[i].contract == contract;
            assert(entries[i] == known);
            assert(false);
        }
        assert(after.entries(key)[entries.len() as int] == known);
        assert(after.already_retained(key, contract));
    }
}

/// When a scoped registration ends, the use-sites under other numbers, and those
/// without a number, stay in their order.
pub proof fn other_use_sites_stay(entries: Seq<RegisteredModel>, token: u64)
    ensures
        state::entries_without(entries, token) == entries.filter(
            |entry: RegisteredModel| entry.token != Some(token),
        ),
    decreases entries.len(),
{
    reveal(Seq::filter);
    let stays = |entry: RegisteredModel| entry.token != Some(token);
    if entries.len() > 0 {
        other_use_sites_stay(entries.drop_first(), token);
        lemma_filter_first(entries, stays);
    } else {
        assert(entries.filter(stays) =~= Seq::empty());
    }
}

proof fn lemma_filter_first<A>(list: Seq<A>, stays: spec_fn(A) -> bool)
    requires
        list.len() > 0,
    ensures
        list.filter(stays) == (if stays(list[0]) {
            seq![list[0]]
        } else {
            Seq::empty()
        }) + list.drop_first().filter(stays),
{
    let head = seq![list[0]];
    Seq::filter_distributes_over_add(head, list.drop_first(), stays);
    assert(list =~= head + list.drop_first());
    reveal(Seq::filter);
    assert(head.drop_last() =~= Seq::empty());
    assert(head.drop_last().filter(stays) =~= Seq::empty());
    assert(head.filter(stays) =~= if stays(list[0]) {
        head
    } else {
        Seq::empty()
    });
}

/// The end of a scoped registration touches only its own callback, which is
/// forgotten once nothing is in force for it.
pub proof fn registration_ends_at_its_callback(
    session: SessionModel,
    token: CallbackRegistrationToken,
)
    ensures
        ({
            let place = (token.key.callback_type_id, token.key.callback_id);
            let after = session.without_scoped(seq![token]);
            let left = state::entries_without(session.entries(token.key), token.token);
            &&& after == (SessionModel { contracts: after.contracts, ..session })
            &&& after.contracts.remove(place) =~= session.contracts.remove(place)
            &&& session.contracts.dom().contains(place) ==> after.entries(token.key) == left
            &&& after.contracts.dom().contains(place) == (session.contracts.dom().contains(place)
                && left.len() > 0)
        }),
{
    reveal_with_fuel(state::contracts_without_all, 2);
    assert(seq![token].drop_last() =~= Seq::empty());
    assert(seq![token].last() == token);
}

// ---- Pending work and streams ----

/// The last piece of pending work tells the script that the session is closed, and
/// does so once; the others only count down.
pub proof fn last_work_resolves_the_close(session: SessionModel)
    ensures
        session.pending_work == 0 ==> session.work_finished() == session
            && session.finish_signal() == (CloseSignal { deferred: None, timer: None }),
        session.pending_work == 1 ==> session.work_finished() == (SessionModel {
            pending_work: 0,
            close_deferred: None,
            close_timer: None,
            ..session
        }) && session.finish_signal() == (CloseSignal {
            deferred: session.close_deferred,
            timer: session.close_timer,
        }),
        session.pending_work > 1 ==> session.work_finished() == (SessionModel {
            pending_work: (session.pending_work - 1) as u32,
            ..session
        }) && session.finish_signal() == (CloseSignal { deferred: None, timer: None }),
{
}

/// An input stream is tracked from when it is learned of until it is released, and
/// never after.
pub proof fn input_streams_come_and_go(session: SessionModel, id: u32)
    ensures
        session.released_input_streams.contains(id) ==> session.with_input_stream(id) == session,
        !session.released_input_streams.contains(id) ==> session.with_input_stream(id) == (
        SessionModel { input_streams: session.input_streams.insert(id), ..session }),
        session.input_streams.contains(id) ==> session.without_input_stream(id) == (SessionModel {
            input_streams: session.input_streams.remove(id),
            released_input_streams: session.released_input_streams.insert(id),
            ..session
        }),
        !session.input_streams.contains(id) ==> session.without_input_stream(id) == session,
{
}

} // verus!
