//! What each call of the session comes to, outcome by outcome.

use crate::session::callback::{CallbackCall, CallbackGuardLease, CallbackStep};
use crate::session::close;
use crate::session::close::CloseAction;
use crate::session::dispatch;
use crate::session::dispatch::{Dispatch, DispatchStep, StreamStep};
use crate::session::retention::RetainedInvocation;
use crate::session::rollback::ReleasedLeases;
use crate::session::settle;
use crate::session::settle::{
    AttachCleanup, AttachStage, FulfilledStep, InputOutcome, InputStep, RejectedStep, ResultStep,
    Settlement,
};
use crate::session::setup;
use crate::session::setup::{SchedulerCleanup, SchedulerStage};
use crate::session::state::{CloseSignal, SessionModel, SessionState, TrackedResource};
use crate::session::types::{
    CallbackRegistrationToken, JsDeferred, JsRef, JsTimer, JsValue, SessionCallbackErrorStyle,
    SessionError, SessionOperationDispatch, SessionResourceReceiver, SessionStatus,
};
use crate::text;
use vstd::prelude::*;

verus! {

// ---- Dispatching ----

/// An operation is dispatched in its own mode only, and by an open session only.
pub proof fn operation_starts_in_its_own_mode(
    state: &SessionState,
    operation_id: u32,
    asynchronous: bool,
    r: Result<Dispatch, SessionError>,
)
    requires
        call_ensures(Dispatch::begin, (state, operation_id, asynchronous), r),
    ensures
        state@.closed ==> (r matches Err(e) && e.status == SessionStatus::GenericFailure
            && e.reason@ == "UniFFI backend session is closed"@),
        !state@.closed && operation_id >= state@.operations.len() ==> (r matches Err(e) && e.status
            == SessionStatus::InvalidArg && e.reason@ == "unknown UniFFI operation ID "@
            + text::decimal(operation_id as int)),
        !state@.closed && operation_id < state@.operations.len() ==> ({
            let later = match state@.operations[operation_id as int].dispatch {
                SessionOperationDispatch::NativeSync => false,
                SessionOperationDispatch::CallbackHostSync { .. } => false,
                _ => true,
            };
            &&& later == asynchronous ==> (r matches Ok(dispatch) && dispatch.operation
                == operation_id && dispatch.snapshot.records(state@) && dispatch.scoped@.len() == 0)
            &&& later && !asynchronous ==> (r matches Err(e) && e.status
                == SessionStatus::InvalidArg && e.reason@ == "operation "@ + text::decimal(
                operation_id as int,
            ) + " is "@ + "async"@ + ", but was invoked through "@ + "invokeSync"@)
            &&& !later && asynchronous ==> (r matches Err(e) && e.status
                == SessionStatus::InvalidArg && e.reason@ == "operation "@ + text::decimal(
                operation_id as int,
            ) + " is "@ + "sync"@ + ", but was invoked through "@ + "invokeAsync"@)
        }),
{
}

/// A call whose leases could not be taken is undone and answers with that error.
pub proof fn call_without_leases_is_undone(
    dispatch: &mut Dispatch,
    state: &mut SessionState,
    args: &Vec<JsValue>,
    e: SessionError,
    step: DispatchStep,
)
    requires
        call_ensures(
            Dispatch::leases_taken,
            (dispatch, state, args, Err::<RetainedInvocation, SessionError>(e)),
            step,
        ),
    ensures
        step == DispatchStep::RollBack(Err(e)),
        final(state)@ == old(state)@,
{
}

/// With its leases taken, a call goes to its native function, to its callback method
/// or to its stream, as its operation says.
pub proof fn call_goes_where_its_operation_says(
    dispatch: &mut Dispatch,
    state: &mut SessionState,
    args: &Vec<JsValue>,
    kept: RetainedInvocation,
    step: DispatchStep,
)
    requires
        call_ensures(
            Dispatch::leases_taken,
            (dispatch, state, args, Ok::<RetainedInvocation, SessionError>(kept)),
            step,
        ),
        !old(state)@.operations[old(dispatch).operation as int].callback_transfer
            || kept.transfer_id is Some,
    ensures
        final(state)@ == old(state)@,
        final(dispatch).scoped@ == kept.scoped_callbacks@,
        final(dispatch).operation == old(dispatch).operation,
        final(dispatch).snapshot == old(dispatch).snapshot,
        ({
            let operation = old(state)@.operations[old(dispatch).operation as int];
            match operation.dispatch {
                SessionOperationDispatch::NativeSync => step is Native,
                SessionOperationDispatch::NativeAsync => step is Native,
                SessionOperationDispatch::CallbackHostSync {
                    callback_type_id,
                    method_id,
                    error_style,
                } => step == (DispatchStep::Callback {
                    callback_type_id,
                    method_id,
                    error_style,
                    asynchronous: false,
                }),
                SessionOperationDispatch::CallbackHostAsync {
                    callback_type_id,
                    method_id,
                    error_style,
                } => step == (DispatchStep::Callback {
                    callback_type_id,
                    method_id,
                    error_style,
                    asynchronous: true,
                }),
                SessionOperationDispatch::InputStreamHostPull => step == (DispatchStep::Stream {
                    cancel: false,
                }),
                SessionOperationDispatch::InputStreamHostCancel => step == (DispatchStep::Stream {
                    cancel: true,
                }),
            }
        }),
        step matches DispatchStep::Native { callback, arguments } ==> {
            let operation = old(state)@.operations[old(dispatch).operation as int];
            &&& callback == operation.callback
            &&& arguments@ == dispatch::native_arguments(
                operation,
                old(state)@.generation,
                kept.transfer_id,
                args@,
            )
        },
{
}

/// A call that needs a transfer and has none is undone, and its scoped callbacks end.
pub proof fn call_without_its_transfer_is_undone(
    dispatch: &mut Dispatch,
    state: &mut SessionState,
    args: &Vec<JsValue>,
    kept: RetainedInvocation,
    step: DispatchStep,
)
    requires
        call_ensures(
            Dispatch::leases_taken,
            (dispatch, state, args, Ok::<RetainedInvocation, SessionError>(kept)),
            step,
        ),
        old(state)@.operations[old(dispatch).operation as int].callback_transfer,
        kept.transfer_id is None,
    ensures
        step matches DispatchStep::RollBack(Err(e)) && e.status == SessionStatus::GenericFailure
            && e.reason@ == "missing callback transfer carrier"@,
        final(state)@ == old(state)@.without_scoped(kept.scoped_callbacks@),
{
}

/// A call that failed is undone, and its scoped callbacks end.
pub proof fn failed_call_is_undone(
    dispatch: &Dispatch,
    state: &mut SessionState,
    e: SessionError,
    step: DispatchStep,
)
    requires
        call_ensures(
            Dispatch::called,
            (dispatch, state, Err::<JsValue, SessionError>(e)),
            step,
        ),
    ensures
        step == DispatchStep::RollBack(Err(e)),
        final(state)@ == old(state)@.without_scoped(dispatch.scoped@),
{
}

/// The answers of native functions and of asynchronous callbacks are looked at
/// further; those of synchronous callbacks and of streams are passed on at once, and
/// the scoped callbacks of the call end.
pub proof fn only_some_answers_are_looked_at(
    dispatch: &Dispatch,
    state: &mut SessionState,
    value: JsValue,
    step: DispatchStep,
)
    requires
        call_ensures(
            Dispatch::called,
            (dispatch, state, Ok::<JsValue, SessionError>(value)),
            step,
        ),
    ensures
        match old(state)@.operations[dispatch.operation as int].dispatch {
            SessionOperationDispatch::NativeSync
            | SessionOperationDispatch::NativeAsync
            | SessionOperationDispatch::CallbackHostAsync { .. } => {
                &&& step == DispatchStep::CheckPromise(value)
                &&& final(state)@ == old(state)@
            },
            SessionOperationDispatch::CallbackHostSync { .. }
            | SessionOperationDispatch::InputStreamHostPull
            | SessionOperationDispatch::InputStreamHostCancel => {
                &&& step == DispatchStep::Answer(Ok(value))
                &&& final(state)@ == old(state)@.without_scoped(dispatch.scoped@)
            },
        },
{
}

/// A promise is followed as pending work; anything else is looked at for an error.
pub proof fn promises_are_followed(
    dispatch: &Dispatch,
    state: &mut SessionState,
    value: JsValue,
    promise: bool,
    step: DispatchStep,
)
    requires
        call_ensures(
            Dispatch::promise_checked,
            (dispatch, state, value, Ok::<bool, SessionError>(promise)),
            step,
        ),
    ensures
        !promise ==> step == DispatchStep::CheckError(value) && final(state)@ == old(state)@,
        promise && old(state)@.pending_work < u32::MAX ==> step == DispatchStep::Attach(value)
            && final(state)@ == (SessionModel {
            pending_work: (old(state)@.pending_work + 1) as u32,
            ..old(state)@
        }),
        promise && old(state)@.pending_work == u32::MAX ==> (step matches DispatchStep::RollBack(
            Err(_),
        )) && final(state)@ == old(state)@.without_scoped(dispatch.scoped@),
{
}

/// A promise that cannot be followed is no pending work, and its call is undone.
pub proof fn promise_that_cannot_be_followed_is_undone(
    dispatch: &Dispatch,
    state: &mut SessionState,
    value: JsValue,
    result: Result<(), SessionError>,
    r: (DispatchStep, CloseSignal),
)
    requires
        call_ensures(Dispatch::attached, (dispatch, state, value, result), r),
    ensures
        result is Ok ==> r.0 == DispatchStep::Answer(Ok(value)) && final(state)@ == old(state)@
            && r.1 == (CloseSignal { deferred: None, timer: None }),
        result matches Err(e) ==> r.0 == DispatchStep::RollBack(Err(e)) && r.1 == old(state)@.finish_signal() && final(state)@ == old(state)@.work_finished().without_scoped(
            dispatch.scoped@,
        ),
{
}

/// A result that is an error undoes its call and is still the answer; any other one is
/// tracked.
pub proof fn error_results_undo_their_call(
    dispatch: &Dispatch,
    state: &mut SessionState,
    value: JsValue,
    is_error: bool,
    step: DispatchStep,
)
    requires
        call_ensures(
            Dispatch::error_checked,
            (dispatch, state, value, Ok::<bool, SessionError>(is_error)),
            step,
        ),
    ensures
        is_error ==> step == DispatchStep::RollBack(Ok(value)) && final(state)@ == old(state)@.without_scoped(dispatch.scoped@),
        !is_error ==> step == DispatchStep::Track(value) && final(state)@ == old(state)@,
{
}

/// The scoped callbacks of a call end once its result is tracked; a result that cannot
/// be tracked undoes the call.
pub proof fn tracked_result_is_the_answer(
    dispatch: &Dispatch,
    state: &mut SessionState,
    value: JsValue,
    result: Result<(), SessionError>,
    step: DispatchStep,
)
    requires
        call_ensures(Dispatch::value_tracked, (dispatch, state, value, result), step),
    ensures
        final(state)@ == old(state)@.without_scoped(dispatch.scoped@),
        result is Ok ==> step == DispatchStep::Answer(Ok(value)),
        result matches Err(e) ==> step == DispatchStep::RollBack(Err(e)),
{
}

/// A stream is named by the first argument.
pub proof fn stream_is_named_first(
    args: &Vec<JsValue>,
    cancel: bool,
    r: Result<JsValue, SessionError>,
)
    requires
        call_ensures(dispatch::stream_argument, (args, cancel), r),
    ensures
        args@.len() > 0 ==> r == Ok::<JsValue, SessionError>(args@[0]),
        args@.len() == 0 && cancel ==> (r matches Err(e) && e.status == SessionStatus::InvalidArg
            && e.reason@ == "cancel requires stream ID"@),
        args@.len() == 0 && !cancel ==> (r matches Err(e) && e.status == SessionStatus::InvalidArg
            && e.reason@ == "pull requires stream ID"@),
{
}

/// A pull that is answered at once is looked at for the end of the stream, and a
/// cancel releases it; a promise is followed in both cases.
pub proof fn stream_answers_are_treated_by_request(
    state: &mut SessionState,
    promise: bool,
    cancel: bool,
    r: Result<StreamStep, SessionError>,
)
    requires
        call_ensures(SessionState::stream_answered, (state, promise, cancel), r),
    ensures
        !promise && cancel ==> r == Ok::<StreamStep, SessionError>(StreamStep::Release),
        !promise && !cancel ==> r == Ok::<StreamStep, SessionError>(StreamStep::CheckTerminal),
        !promise ==> final(state)@ == old(state)@,
        promise && old(state)@.pending_work < u32::MAX ==> r == Ok::<StreamStep, SessionError>(
            StreamStep::Attach,
        ) && final(state)@ == (SessionModel {
            pending_work: (old(state)@.pending_work + 1) as u32,
            ..old(state)@
        }),
        promise && old(state)@.pending_work == u32::MAX ==> r is Err && final(state)@ == old(state)@,
{
}

// ---- Callbacks ----

/// A callback method is run only where the session knows it, on the callback that the
/// first argument names.
pub proof fn known_callback_methods_are_run(
    state: &SessionState,
    callback_type_id: u32,
    method_id: u32,
    args: &Vec<JsValue>,
    r: Result<JsValue, SessionError>,
)
    requires
        call_ensures(
            SessionState::callback_target,
            (state, callback_type_id, method_id, args),
            r,
        ),
    ensures
        ({
            let known = state@.callback_methods.dom().contains((callback_type_id, method_id));
            &&& known && args@.len() > 0 ==> r == Ok::<JsValue, SessionError>(args@[0])
            &&& known && args@.len() == 0 ==> (r matches Err(e) && e.status
                == SessionStatus::InvalidArg && e.reason@
                == "callback invocation requires callback ID"@)
            &&& !known ==> (r matches Err(e) && e.status == SessionStatus::InvalidArg && e.reason@
                == "unknown callback method "@ + text::decimal(callback_type_id as int) + ":"@
                + text::decimal(method_id as int))
        }),
{
}

/// A callback that failed is over. An infallible method says who failed; a fallible
/// one hands on the reason, which is that of the script where it gave one.
pub proof fn failed_callback_gives_its_reason(
    call: &CallbackCall,
    state: &mut SessionState,
    exception: Option<String>,
    error: SessionError,
    e: SessionError,
)
    requires
        call_ensures(CallbackCall::host_failed, (call, state, exception, error), e),
    ensures
        final(state)@ == call.over(old(state)@),
        e.status == SessionStatus::GenericFailure,
        ({
            let reason = match exception {
                Some(message) => message@,
                None => error.reason@,
            };
            &&& call.error_style == SessionCallbackErrorStyle::Fallible ==> e.reason@ == reason
            &&& call.error_style == SessionCallbackErrorStyle::Infallible ==> e.reason@
                == "infallible callback method "@ + text::decimal(call.method_id as int)
                + " failed: "@ + reason
        }),
{
}

/// An asynchronous callback answers with a promise and a synchronous one does not; a
/// guarded promise keeps its guard until it settles, and otherwise the call is over.
pub proof fn callback_answers_in_its_mode(
    call: &CallbackCall,
    state: &mut SessionState,
    is_promise: bool,
    r: Result<CallbackStep, SessionError>,
)
    requires
        call_ensures(
            CallbackCall::host_answered,
            (call, state, Ok::<bool, SessionError>(is_promise)),
            r,
        ),
    ensures
        call.asynchronous && is_promise && call.guarded ==> r == Ok::<CallbackStep, SessionError>(
            CallbackStep::GuardUntilSettled,
        ) && final(state)@ == old(state)@,
        call.asynchronous && is_promise && !call.guarded ==> r == Ok::<CallbackStep, SessionError>(
            CallbackStep::Return,
        ) && final(state)@ == old(state)@,
        !call.asynchronous && !is_promise ==> r == Ok::<CallbackStep, SessionError>(
            CallbackStep::Return,
        ) && final(state)@ == call.over(old(state)@),
        call.asynchronous && !is_promise ==> (r matches Err(e) && e.status
            == SessionStatus::InvalidArg && e.reason@
            == "Host.invokeCallbackAsync must return a Promise"@) && final(state)@ == call.over(
            old(state)@,
        ),
        !call.asynchronous && is_promise ==> (r matches Err(e) && e.status
            == SessionStatus::InvalidArg && e.reason@
            == "Host.invokeCallbackSync must not return a Promise"@) && final(state)@ == call.over(
            old(state)@,
        ),
{
}

/// The guard of an open promise ends once.
pub proof fn guard_ends_once(
    lease: &mut CallbackGuardLease,
    state: &mut SessionState,
    first: bool,
)
    requires
        call_ensures(CallbackGuardLease::finish, (lease, state), first),
    ensures
        first == !old(lease).finished,
        final(lease).finished,
        !first ==> final(state)@ == old(state)@,
        first ==> final(state)@ == (SessionModel {
            active_callbacks: old(state)@.active_callbacks.remove(
                (old(lease).key.callback_type_id, old(lease).key.callback_id),
            ),
            ..old(state)@
        }),
{
}

// ---- Settlement ----

/// A fulfilled call counts once. In an open session its result is looked at and it can
/// still be undone; in a closed one it is late.
pub proof fn fulfilled_call_counts_once(
    settlement: &mut Settlement,
    state: &mut SessionState,
    scoped: &Vec<CallbackRegistrationToken>,
    step: FulfilledStep,
)
    requires
        call_ensures(Settlement::async_result_fulfilled, (settlement, state, scoped), step),
    ensures
        final(settlement).settled,
        old(settlement).settled ==> step == FulfilledStep::Ignore && final(state)@ == old(state)@,
        !old(settlement).settled && old(state)@.closed ==> step == FulfilledStep::Late
            && final(state)@ == old(state)@.without_scoped(scoped@),
        !old(settlement).settled && !old(state)@.closed ==> step == FulfilledStep::Inspect
            && final(settlement).snapshot == old(settlement).snapshot && final(state)@ == old(state)@.without_scoped(scoped@),
{
}

/// A rejected call counts once and is undone by an open session.
pub proof fn rejected_call_is_undone_once(
    settlement: &mut Settlement,
    state: &mut SessionState,
    scoped: &Vec<CallbackRegistrationToken>,
    step: RejectedStep,
)
    requires
        call_ensures(Settlement::async_result_rejected, (settlement, state, scoped), step),
    ensures
        final(settlement).settled,
        old(settlement).settled ==> step == RejectedStep::Ignore && final(state)@ == old(state)@,
        !old(settlement).settled ==> final(state)@ == old(state)@.without_scoped(scoped@),
        !old(settlement).settled && old(state)@.closed ==> step == RejectedStep::Finish(None),
        !old(settlement).settled && !old(state)@.closed ==> step == RejectedStep::Finish(
            old(settlement).snapshot,
        ),
{
}

/// A result that is an error, or that cannot be read, undoes its call; only an error
/// that was read is no failure of the session.
pub proof fn inspected_result_is_tracked_or_undone(
    settlement: &mut Settlement,
    is_error: Result<bool, SessionError>,
    step: ResultStep,
)
    requires
        call_ensures(Settlement::inspected, (settlement, is_error), step),
    ensures
        is_error == Ok::<bool, SessionError>(false) ==> step == ResultStep::Track,
        is_error == Ok::<bool, SessionError>(true) ==> step == ResultStep::RollBack(
            old(settlement).snapshot,
            Ok(()),
        ),
        is_error matches Err(e) ==> step == ResultStep::RollBack(
            old(settlement).snapshot,
            Err(e),
        ),
{
}

/// A result that could not be tracked undoes its call and is reported.
pub proof fn untracked_result_is_undone(
    settlement: &mut Settlement,
    result: Result<(), SessionError>,
    step: ResultStep,
)
    requires
        call_ensures(Settlement::result_tracked, (settlement, result), step),
    ensures
        result is Ok ==> step == ResultStep::Report(Ok(())),
        result matches Err(e) ==> step == ResultStep::RollBack(old(settlement).snapshot, Err(e)),
{
}

/// A pull that is fulfilled is looked at for the end of the stream, a cancel releases
/// the stream, and a closed session has released it already.
pub proof fn fulfilled_streams_are_treated_by_request(
    settlement: &mut Settlement,
    state: &SessionState,
    cancel: bool,
    step: InputStep,
)
    requires
        call_ensures(Settlement::input_settlement_fulfilled, (settlement, state, cancel), step),
    ensures
        final(settlement).settled,
        old(settlement).settled ==> step == InputStep::Ignore,
        !old(settlement).settled && state@.closed ==> step == InputStep::Finish,
        !old(settlement).settled && !state@.closed && cancel ==> step == InputStep::Release,
        !old(settlement).settled && !state@.closed && !cancel ==> step == InputStep::CheckTerminal,
{
}

/// A pull or cancel that is rejected releases the stream, unless the session is
/// closed.
pub proof fn rejected_streams_are_released(
    settlement: &mut Settlement,
    state: &SessionState,
    step: InputStep,
)
    requires
        call_ensures(Settlement::input_settlement_rejected, (settlement, state), step),
    ensures
        final(settlement).settled,
        old(settlement).settled ==> step == InputStep::Ignore,
        !old(settlement).settled && state@.closed ==> step == InputStep::Finish,
        !old(settlement).settled && !state@.closed ==> step == InputStep::Release,
{
}

/// The last step of a stream releases it in an open session, and so does one that
/// cannot be read.
pub proof fn last_step_releases_the_stream(
    state: &SessionState,
    terminal: Result<bool, SessionError>,
    r: InputOutcome,
)
    requires
        call_ensures(settle::input_step_checked, (state, terminal), r),
    ensures
        terminal == Ok::<bool, SessionError>(false) ==> r == InputOutcome::Finish,
        terminal == Ok::<bool, SessionError>(true) && !state@.closed ==> r
            == InputOutcome::Release,
        terminal == Ok::<bool, SessionError>(true) && state@.closed ==> r == InputOutcome::Finish,
        terminal matches Err(e) ==> r == InputOutcome::ReleaseAndFail(e),
{
}

/// Where attaching the handlers fails, exactly the references that no handler owns
/// yet are deleted, and handlers that exist are made to do nothing.
pub proof fn unowned_references_are_deleted(stage: AttachStage, r: AttachCleanup)
    requires
        call_ensures(settle::attach_failed, (stage,), r),
    ensures
        r == match stage {
            AttachStage::FirstReference => AttachCleanup {
                abandon: false,
                delete_first: false,
                delete_second: false,
            },
            AttachStage::SecondReference => AttachCleanup {
                abandon: false,
                delete_first: true,
                delete_second: false,
            },
            AttachStage::FirstHandler => AttachCleanup {
                abandon: true,
                delete_first: true,
                delete_second: true,
            },
            AttachStage::SecondHandler => AttachCleanup {
                abandon: true,
                delete_first: false,
                delete_second: true,
            },
            AttachStage::Subscribe => AttachCleanup {
                abandon: true,
                delete_first: false,
                delete_second: false,
            },
        },
{
}

/// Where setting up the scheduler fails, exactly the references that nothing else
/// holds yet are deleted, and a scheduler that holds them is aborted.
pub proof fn failed_scheduler_leaves_nothing(stage: SchedulerStage, r: SchedulerCleanup)
    requires
        call_ensures(setup::scheduler_failed, (stage,), r),
    ensures
        r == match stage {
            SchedulerStage::Lookup => SchedulerCleanup {
                delete_host: false,
                delete_release: false,
                abort: false,
            },
            SchedulerStage::ReleaseReference => SchedulerCleanup {
                delete_host: true,
                delete_release: false,
                abort: false,
            },
            SchedulerStage::Handler => SchedulerCleanup {
                delete_host: true,
                delete_release: true,
                abort: false,
            },
            SchedulerStage::Scheduler => SchedulerCleanup {
                delete_host: true,
                delete_release: true,
                abort: false,
            },
            SchedulerStage::Detach => SchedulerCleanup {
                delete_host: false,
                delete_release: false,
                abort: true,
            },
        },
{
}

// ---- Closing ----

/// A closing session cancels output streams and releases everything else.
pub proof fn closing_ends_resources_by_kind(resource: &TrackedResource, action: CloseAction)
    requires
        call_ensures(close::close_action, (resource,), action),
    ensures
        resource.kind == SessionResourceReceiver::OutputStream ==> action
            == CloseAction::CancelOutput,
        resource.kind == SessionResourceReceiver::Object ==> action == CloseAction::Release,
        resource.kind == SessionResourceReceiver::InputStream ==> action == CloseAction::Release,
{
}

/// The first close gives back all leases, those of calls before those of results, and
/// all transfers; no later one does anything.
pub proof fn first_close_gives_everything_back(
    state: &mut SessionState,
    r: Option<ReleasedLeases>,
)
    requires
        call_ensures(SessionState::close, (state,), r),
    ensures
        old(state)@.closed ==> r is None && final(state)@ == old(state)@,
        !old(state)@.closed ==> {
            &&& r matches Some(released)
            &&& released.tokens@ == old(state)@.leases + old(state)@.owners
            &&& released.transfers@ == old(state)@.transfers
            &&& final(state)@ == (SessionModel {
                closed: true,
                leases: Seq::empty(),
                owners: Seq::empty(),
                transfers: Seq::empty(),
                ..old(state)@
            })
        },
{
}

/// A close promise is resolved at once where no work is pending, and kept with its
/// deadline otherwise.
pub proof fn close_promise_waits_for_pending_work(
    state: &mut SessionState,
    promise: JsRef,
    deferred: JsDeferred,
    timer: Option<JsTimer>,
    signal: CloseSignal,
)
    requires
        call_ensures(
            SessionState::close_promise_created,
            (state, promise, deferred, timer),
            signal,
        ),
    ensures
        final(state)@.close_promise == Some(promise),
        old(state)@.pending_work == 0 ==> {
            &&& signal == (CloseSignal { deferred: Some(deferred), timer })
            &&& final(state)@ == (SessionModel {
                close_promise: Some(promise),
                close_deferred: None,
                close_timer: None,
                ..old(state)@
            })
        },
        old(state)@.pending_work > 0 ==> {
            &&& signal == (CloseSignal { deferred: None, timer: None })
            &&& final(state)@ == (SessionModel {
                close_promise: Some(promise),
                close_deferred: Some(deferred),
                close_timer: timer,
                ..old(state)@
            })
        },
{
}

/// The deadline resolves the close promise, whatever is still pending.
pub proof fn deadline_resolves_the_close(state: &mut SessionState, signal: CloseSignal)
    requires
        call_ensures(SessionState::close_deadline, (state,), signal),
    ensures
        signal == (CloseSignal {
            deferred: old(state)@.close_deferred,
            timer: old(state)@.close_timer,
        }),
        final(state)@ == (SessionModel { close_deferred: None, close_timer: None, ..old(state)@ }),
{
}

} // verus!
