use napi_ohos_uniffi_engine::family::{ClosePolicy, DeadlineAction};
use napi_ohos_uniffi_engine::session::callback::{
    callback_method, CallbackCall, CallbackGuardLease, CallbackStep, HostArgument,
};
use napi_ohos_uniffi_engine::session::close::{close_action, CloseAction};
use napi_ohos_uniffi_engine::session::dispatch::{
    stream_argument, stream_method, Dispatch, DispatchStep, NativeArgument, StreamStep,
};
use napi_ohos_uniffi_engine::session::leases::CallbackReleaseQueue;
use napi_ohos_uniffi_engine::session::output::{
    release_late_result, result_tracking, CancelOutcome, CancelReason, CancelStep, LateResult,
    ResultTracking,
};
use napi_ohos_uniffi_engine::session::resources::ResourceClaim;
use napi_ohos_uniffi_engine::session::retention::{
    ArgumentRetention, ResultRequest, ResultRetention, RetentionRequest,
};
use napi_ohos_uniffi_engine::session::rollback::{Rollback, RollbackStep};
use napi_ohos_uniffi_engine::session::settle::{
    attach_failed, input_step_checked, AttachStage, FulfilledStep, InputOutcome, InputStep,
    RejectedStep, ResultStep, Settlement,
};
use napi_ohos_uniffi_engine::session::setup::{
    scheduler_failed, scheduler_refused, session_methods, SchedulerStage, SessionSetup,
};
use napi_ohos_uniffi_engine::session::state::{CloseSignal, ResourceHooks, SessionState};
use napi_ohos_uniffi_engine::session::types::{
    CallbackKey, JsDeferred, JsRef, JsTimer, JsValue, SessionCallbackArgument,
    SessionCallbackErrorStyle, SessionCallbackReentrancy, SessionCallbackRetention,
    SessionCallbackThreading, SessionError, SessionNativeCall, SessionOperationDescriptor,
    SessionOperationDispatch, SessionReceiver, SessionResourceOwnership, SessionResourceReceiver,
    SessionResultResourceUseSite, SessionStatus, SessionStreamArgument, SessionStreamDirection,
    SessionValuePathSegment,
};

const HOST: JsRef = JsRef { handle: 1 };
const RELEASE: JsRef = JsRef { handle: 2 };
const OBJECT_HOOK: JsRef = JsRef { handle: 3 };
const CANCEL_HOOK: JsRef = JsRef { handle: 4 };
const OUTPUT_HOOK: JsRef = JsRef { handle: 5 };

fn value(handle: u64) -> JsValue {
    JsValue { handle }
}

fn reference(handle: u64) -> JsRef {
    JsRef { handle }
}

fn key(callback_type_id: u32, callback_id: u32) -> CallbackKey {
    CallbackKey { callback_type_id, callback_id }
}

fn lost(text: &str) -> SessionError {
    SessionError { status: SessionStatus::GenericFailure, reason: text.to_string() }
}

fn reason<T>(result: Result<T, SessionError>) -> (SessionStatus, String) {
    match result {
        Ok(_) => panic!("an error was expected"),
        Err(error) => (error.status, error.reason),
    }
}

fn invalid(text: &str) -> (SessionStatus, String) {
    (SessionStatus::InvalidArg, text.to_string())
}

fn failure(text: &str) -> (SessionStatus, String) {
    (SessionStatus::GenericFailure, text.to_string())
}

fn nothing() -> CloseSignal {
    CloseSignal { deferred: None, timer: None }
}

fn native(dispatch: SessionOperationDispatch) -> SessionOperationDescriptor {
    SessionOperationDescriptor {
        dispatch,
        callback: Some(value(500)),
        native_call: SessionNativeCall::ArgumentsOnly,
        receiver: None,
        result_resources: Vec::new(),
        callback_transfer: false,
        callback_arguments: Vec::new(),
        stream_arguments: Vec::new(),
    }
}

fn host(dispatch: SessionOperationDispatch) -> SessionOperationDescriptor {
    SessionOperationDescriptor { callback: None, ..native(dispatch) }
}

fn callback_at(
    segment: SessionValuePathSegment,
    callback_type_id: u32,
    retention: SessionCallbackRetention,
) -> SessionCallbackArgument {
    SessionCallbackArgument {
        path: vec![segment],
        callback_type_id,
        retention,
        threading: SessionCallbackThreading::CallingThread,
        reentrancy: SessionCallbackReentrancy::Forbidden,
    }
}

fn hooks() -> ResourceHooks {
    ResourceHooks {
        release_object: Some(OBJECT_HOOK),
        cancel_output_stream: Some(CANCEL_HOOK),
        release_output_stream: Some(OUTPUT_HOOK),
    }
}

fn open(descriptors: Vec<SessionOperationDescriptor>) -> SessionState {
    let policy = ClosePolicy { grace_ms: 250, on_deadline: DeadlineAction::Detach };
    let mut setup = SessionSetup::start(6, policy, HOST, RELEASE);
    for (slot, descriptor) in descriptors.into_iter().enumerate() {
        let callback = setup.slot_callback(&descriptor).unwrap();
        setup.add_operation(descriptor, callback.map(|_| reference(100 + slot as u64)));
    }
    setup.finish(hooks())
}

fn callback_host(asynchronous: bool) -> SessionOperationDescriptor {
    let error_style = SessionCallbackErrorStyle::Fallible;
    host(if asynchronous {
        SessionOperationDispatch::CallbackHostAsync {
            callback_type_id: 7,
            method_id: 3,
            error_style,
        }
    } else {
        SessionOperationDispatch::CallbackHostSync {
            callback_type_id: 7,
            method_id: 3,
            error_style,
        }
    })
}

#[test]
fn slots_have_a_callback_exactly_when_native() {
    let policy = ClosePolicy { grace_ms: 1, on_deadline: DeadlineAction::Detach };
    let mut setup = SessionSetup::start(0, policy, HOST, RELEASE);
    setup.add_operation(callback_host(false), None);
    let mut bare = native(SessionOperationDispatch::NativeSync);
    bare.callback = None;
    assert_eq!(
        reason(setup.slot_callback(&bare)),
        invalid("native UniFFI operation slot 1 has no callback")
    );
    let mut extra = callback_host(true);
    extra.callback = Some(value(1));
    assert_eq!(
        reason(setup.slot_callback(&extra)),
        invalid("host UniFFI operation slot 1 unexpectedly has a native callback")
    );
    assert_eq!(
        setup.slot_callback(&native(SessionOperationDispatch::NativeAsync)).unwrap(),
        Some(value(500))
    );
    let refused = scheduler_refused();
    assert_eq!(
        refused.reason,
        "callback release scheduler closed during session creation"
    );
    let names: Vec<&str> = session_methods().into_iter().map(|method| method.name()).collect();
    assert_eq!(
        names,
        vec![
            "invokeSync",
            "invokeAsync",
            "releaseObject",
            "cancelOutputStream",
            "releaseOutputStream",
            "close"
        ]
    );
}

#[test]
fn failed_schedulers_and_handlers_leave_nothing_behind() {
    let lookup = scheduler_failed(SchedulerStage::Lookup);
    assert!(!lookup.delete_host && !lookup.delete_release && !lookup.abort);
    let release = scheduler_failed(SchedulerStage::ReleaseReference);
    assert!(release.delete_host && !release.delete_release && !release.abort);
    let handler = scheduler_failed(SchedulerStage::Handler);
    assert!(handler.delete_host && handler.delete_release && !handler.abort);
    let detach = scheduler_failed(SchedulerStage::Detach);
    assert!(!detach.delete_host && !detach.delete_release && detach.abort);
    let first = attach_failed(AttachStage::FirstReference);
    assert!(!first.abandon && !first.delete_first && !first.delete_second);
    let second = attach_failed(AttachStage::SecondReference);
    assert!(!second.abandon && second.delete_first && !second.delete_second);
    let made = attach_failed(AttachStage::FirstHandler);
    assert!(made.abandon && made.delete_first && made.delete_second);
    let half = attach_failed(AttachStage::SecondHandler);
    assert!(half.abandon && !half.delete_first && half.delete_second);
    let late = attach_failed(AttachStage::Subscribe);
    assert!(late.abandon && !late.delete_first && !late.delete_second);
}

#[test]
fn operations_are_dispatched_in_their_own_mode() {
    let state = open(vec![
        native(SessionOperationDispatch::NativeSync),
        native(SessionOperationDispatch::NativeAsync),
    ]);
    assert!(Dispatch::begin(&state, 0, false).is_ok());
    assert!(Dispatch::begin(&state, 1, true).is_ok());
    assert_eq!(
        reason(Dispatch::begin(&state, 1, false)),
        invalid("operation 1 is async, but was invoked through invokeSync")
    );
    assert_eq!(
        reason(Dispatch::begin(&state, 0, true)),
        invalid("operation 0 is sync, but was invoked through invokeAsync")
    );
    assert_eq!(
        reason(Dispatch::begin(&state, 2, true)),
        invalid("unknown UniFFI operation ID 2")
    );
}

/// Takes all leases of a call, with callback and stream numbers read from the
/// handles of the values.
fn retain(
    state: &mut SessionState,
    queue: &mut CallbackReleaseQueue,
    operation: u32,
    args: &Vec<JsValue>,
    retained: &mut Vec<CallbackKey>,
) -> Result<(ArgumentRetention, Vec<Vec<u64>>), SessionError> {
    let mut retention = ArgumentRetention::start(state, operation);
    let mut sites = Vec::new();
    loop {
        match retention.request(state, args)? {
            RetentionRequest::Continue => {}
            RetentionRequest::CallbackPath(_) | RetentionRequest::StreamPath(_) => {
                retention.supply_values(state, args, vec![args[1]]);
            }
            RetentionRequest::CallbackId(found) => {
                retention.supply_callback_id(state, args, found.handle as u32);
            }
            RetentionRequest::Retain(found) => {
                retained.push(found);
                let token = state.new_callback_lease(queue, found, Ok(()))?;
                retention.supply_lease(state, args, token);
            }
            RetentionRequest::StreamId(found) => {
                retention.supply_stream_id(state, args, found.handle as u32);
            }
            RetentionRequest::ReceiverStreamId(found) => {
                retention.supply_receiver_stream(state, args, found.handle as u32);
            }
            RetentionRequest::ReceiverResource(found, kind) => {
                state.retain_resource(reference(found.handle), kind);
                retention.receiver_retained(state, args);
            }
            RetentionRequest::TransferId => {
                for site in retention.sites() {
                    sites.push(site.clone());
                }
                retention.supply_transfer(state, args, 33);
            }
            RetentionRequest::Finished => return Ok((retention, sites)),
        }
    }
}

fn leasing_operation() -> SessionOperationDescriptor {
    let mut operation = native(SessionOperationDispatch::NativeSync);
    operation.native_call = SessionNativeCall::HostAndArguments;
    operation.receiver = Some(SessionReceiver::Resource(SessionResourceReceiver::Object));
    operation.callback_transfer = true;
    operation.callback_arguments = vec![
        callback_at(SessionValuePathSegment::Return, 8, SessionCallbackRetention::Retained),
        callback_at(SessionValuePathSegment::Argument(0), 7, SessionCallbackRetention::Retained),
        callback_at(SessionValuePathSegment::Argument(0), 9, SessionCallbackRetention::Scoped),
    ];
    operation.stream_arguments = vec![SessionStreamArgument {
        path: vec![SessionValuePathSegment::Argument(0)],
        use_site_id: 0,
        direction: SessionStreamDirection::Input,
    }];
    operation.result_resources = vec![SessionResultResourceUseSite {
        path: vec![SessionValuePathSegment::Return],
        kind: SessionResourceReceiver::OutputStream,
        ownership: SessionResourceOwnership::Owned,
    }];
    operation
}

#[test]
fn leases_are_taken_and_given_back() {
    let mut state = open(vec![leasing_operation()]);
    let mut queue = CallbackReleaseQueue::new();
    let args = vec![value(70), value(40)];
    let mut dispatch = Dispatch::begin(&state, 0, false).unwrap();
    let mut retained = Vec::new();
    let (retention, sites) = retain(&mut state, &mut queue, 0, &args, &mut retained).unwrap();
    assert_eq!(retained, vec![key(7, 40)]);
    assert_eq!(sites, vec![vec![], vec![0], vec![]]);
    let kept = retention.finish();
    assert_eq!(kept.transfer_id, Some(33));
    assert_eq!(kept.scoped_callbacks.len(), 1);
    assert_eq!(kept.scoped_callbacks[0].key, key(9, 40));
    match dispatch.leases_taken(&mut state, &args, Ok(kept)) {
        DispatchStep::Native { callback, arguments } => {
            assert_eq!(callback, Some(reference(100)));
            assert_eq!(
                arguments,
                vec![
                    NativeArgument::HostProxy,
                    NativeArgument::Number(6),
                    NativeArgument::Number(33),
                    NativeArgument::Handle(value(70)),
                    NativeArgument::Value(value(40)),
                ]
            );
        }
        _ => panic!("a native function is called"),
    }
    // The native function fails: everything is undone.
    assert!(matches!(
        dispatch.called(&mut state, Err(lost("boom"))),
        DispatchStep::RollBack(Err(_))
    ));
    let mut rollback = Rollback::start(dispatch.snapshot);
    match rollback.step(&mut state) {
        RollbackStep::Leases(released) => {
            assert_eq!(released.tokens, vec![0]);
            assert_eq!(released.transfers, vec![33]);
            assert!(queue.claim(released.tokens[0]));
        }
        _ => panic!("leases come first"),
    }
    assert_eq!(queue.drain(Some(RELEASE)), vec![key(7, 40)]);
    match rollback.step(&mut state) {
        RollbackStep::Streams(streams) => assert_eq!(streams, vec![40]),
        _ => panic!("streams come second"),
    }
    match rollback.step(&mut state) {
        RollbackStep::Resource(resource) => {
            assert_eq!(resource.reference, reference(70));
            assert_eq!(
                state.release_resource(resource.kind, &vec![reference(70)], false),
                ResourceClaim::Run {
                    hook: Some(OBJECT_HOOK),
                    dropped: Some(napi_ohos_uniffi_engine::session::state::TrackedResource {
                        release_called: true,
                        ..resource
                    }),
                }
            );
        }
        _ => panic!("resources come last"),
    }
    assert!(matches!(rollback.step(&mut state), RollbackStep::Finished));
    // A released stream is not tracked again.
    state.note_input_stream(40);
    assert!(!state.release_input_stream(40));
}

#[test]
fn a_failed_retain_is_balanced_by_a_release() {
    let mut state = open(vec![leasing_operation()]);
    let mut queue = CallbackReleaseQueue::new();
    assert_eq!(
        reason(state.new_callback_lease(&mut queue, key(7, 1), Err(lost("host down")))),
        failure("host down")
    );
    assert_eq!(queue.take_pending(), vec![key(7, 1)]);
}

#[test]
fn a_missing_receiver_is_refused() {
    let mut state = open(vec![leasing_operation()]);
    let mut operation = native(SessionOperationDispatch::NativeSync);
    operation.receiver = Some(SessionReceiver::Resource(SessionResourceReceiver::InputStream));
    let mut bare = open(vec![operation]);
    let mut queue = CallbackReleaseQueue::new();
    let mut retained = Vec::new();
    assert_eq!(
        reason(retain(&mut bare, &mut queue, 0, &vec![], &mut retained)),
        invalid("missing resource receiver")
    );
    assert!(retain(&mut bare, &mut queue, 0, &vec![value(8)], &mut retained).is_ok());
    assert!(bare.release_input_stream(8));
    assert!(!bare.release_input_stream(8));
    let mut dispatch = Dispatch::begin(&state, 0, false).unwrap();
    let kept = napi_ohos_uniffi_engine::session::retention::RetainedInvocation {
        transfer_id: None,
        scoped_callbacks: Vec::new(),
    };
    match dispatch.leases_taken(&mut state, &vec![value(1)], Ok(kept)) {
        DispatchStep::RollBack(Err(error)) => {
            assert_eq!(error.reason, "missing callback transfer carrier");
        }
        _ => panic!("the transfer is missing"),
    }
}

#[test]
fn results_are_followed_checked_and_tracked() {
    let mut state = open(vec![native(SessionOperationDispatch::NativeAsync)]);
    let dispatch = Dispatch::begin(&state, 0, true).unwrap();
    let result = value(900);
    assert!(matches!(
        dispatch.called(&mut state, Ok(result)),
        DispatchStep::CheckPromise(found) if found == result
    ));
    assert!(matches!(
        dispatch.promise_checked(&mut state, result, Ok(true)),
        DispatchStep::Attach(found) if found == result
    ));
    let (step, signal) = dispatch.attached(&mut state, result, Ok(()));
    assert!(matches!(step, DispatchStep::Answer(Ok(found)) if found == result));
    assert_eq!(signal, nothing());
    assert_eq!(state.finish_pending_work(), nothing());
    assert!(matches!(
        dispatch.promise_checked(&mut state, result, Ok(true)),
        DispatchStep::Attach(_)
    ));
    let (step, _) = dispatch.attached(&mut state, result, Err(lost("no then")));
    assert!(matches!(step, DispatchStep::RollBack(Err(_))));
    assert!(matches!(
        dispatch.promise_checked(&mut state, result, Ok(false)),
        DispatchStep::CheckError(_)
    ));
    assert!(matches!(
        dispatch.error_checked(&mut state, result, Ok(true)),
        DispatchStep::RollBack(Ok(found)) if found == result
    ));
    assert!(matches!(
        dispatch.error_checked(&mut state, result, Ok(false)),
        DispatchStep::Track(_)
    ));
    assert!(matches!(
        dispatch.value_tracked(&mut state, result, Ok(())),
        DispatchStep::Answer(Ok(_))
    ));
    assert!(matches!(
        dispatch.value_tracked(&mut state, result, Err(lost("x"))),
        DispatchStep::RollBack(Err(_))
    ));
    assert!(matches!(
        dispatch.promise_checked(&mut state, result, Err(lost("x"))),
        DispatchStep::Answer(Err(_))
    ));
}

#[test]
fn result_callbacks_are_owned_by_the_session() {
    let mut state = open(vec![leasing_operation()]);
    let mut queue = CallbackReleaseQueue::new();
    let mut retention = ResultRetention::start(&state, 0);
    loop {
        match retention.request(&state) {
            ResultRequest::Continue => {}
            ResultRequest::Path(index) => {
                assert_eq!(index, 0);
                retention.supply_values(&state, vec![value(61), value(62)]);
            }
            ResultRequest::CallbackId(found) => {
                retention.supply_callback_id(&mut state, found.handle as u32);
            }
            ResultRequest::Retain(found) => {
                let token = state.new_callback_lease(&mut queue, found, Ok(())).unwrap();
                retention.supply_lease(&mut state, token);
            }
            ResultRequest::Finished => break,
        }
    }
    let released = state.close().unwrap();
    assert_eq!(released.tokens, vec![0, 1, 0, 1]);
    for token in released.tokens {
        queue.claim(token);
    }
    assert_eq!(queue.take_pending(), vec![key(8, 61), key(8, 62)]);
}

#[test]
fn a_guarded_callback_is_entered_once() {
    let mut operation = callback_host(true);
    operation.callback_arguments =
        vec![callback_at(SessionValuePathSegment::Argument(0), 7, SessionCallbackRetention::Scoped)];
    let mut state = open(vec![operation]);
    let args = vec![value(12), value(13)];
    assert_eq!(state.callback_target(7, 3, &args).unwrap(), value(12));
    assert_eq!(
        reason(state.callback_target(7, 4, &args)),
        invalid("unknown callback method 7:4")
    );
    assert_eq!(
        reason(state.callback_target(7, 3, &vec![])),
        invalid("callback invocation requires callback ID")
    );
    assert!(state.enter_callback(0, key(7, 12), true).unwrap());
    assert_eq!(
        reason(state.enter_callback(0, key(7, 12), true)),
        invalid("callback reentrancy is forbidden")
    );
    assert!(state.enter_callback(0, key(7, 13), true).unwrap());
    let mut guard = CallbackGuardLease::new(key(7, 12));
    assert!(guard.finish(&mut state));
    assert!(!guard.finish(&mut state));
    assert!(state.enter_callback(0, key(7, 12), true).unwrap());
}

#[test]
fn registered_contracts_bind_callbacks() {
    let mut state = open(vec![callback_host(false), callback_host(true)]);
    let mut scoped = Vec::new();
    let crossing = SessionCallbackArgument {
        threading: SessionCallbackThreading::MayCrossThread,
        ..callback_at(SessionValuePathSegment::Argument(0), 7, SessionCallbackRetention::Scoped)
    };
    assert!(!state.enter_callback(0, key(7, 1), false).unwrap());
    state.register_callback_contract(key(7, 1), &crossing, &mut scoped);
    assert_eq!(
        reason(state.enter_callback(0, key(7, 1), false)),
        invalid("synchronous callbacks cannot use the may-cross-thread policy")
    );
    assert!(state.enter_callback(1, key(7, 1), true).unwrap());
    state.release_callback_guard(key(7, 1));
    state.release_scoped_callback_tokens(&scoped);
    assert!(!state.enter_callback(0, key(7, 1), false).unwrap());
    // A retained use-site stays in force.
    let retained =
        callback_at(SessionValuePathSegment::Argument(0), 7, SessionCallbackRetention::Retained);
    state.register_callback_contract(key(7, 1), &retained, &mut scoped);
    state.register_callback_contract(key(7, 1), &retained, &mut scoped);
    assert_eq!(scoped.len(), 1);
    assert!(state.enter_callback(0, key(7, 1), false).unwrap());
}

#[test]
fn callback_answers_fit_their_mode() {
    let mut state = open(vec![callback_host(true)]);
    let call = |asynchronous: bool, error_style: SessionCallbackErrorStyle| CallbackCall {
        key: key(7, 1),
        method_id: 3,
        error_style,
        asynchronous,
        guarded: true,
    };
    let fallible = SessionCallbackErrorStyle::Fallible;
    let infallible = SessionCallbackErrorStyle::Infallible;
    assert_eq!(
        call(true, fallible).host_arguments(value(1), Some(5)),
        vec![
            HostArgument::Number(7),
            HostArgument::Value(value(1)),
            HostArgument::Number(3),
            HostArgument::Number(5),
            HostArgument::Rest,
        ]
    );
    assert_eq!(call(false, fallible).host_arguments(value(1), None).len(), 4);
    assert_eq!(callback_method(true), "invokeCallbackAsync");
    assert_eq!(callback_method(false), "invokeCallbackSync");
    assert_eq!(
        call(true, fallible).host_answered(&mut state, Ok(true)).unwrap(),
        CallbackStep::GuardUntilSettled
    );
    assert_eq!(
        call(false, fallible).host_answered(&mut state, Ok(false)).unwrap(),
        CallbackStep::Return
    );
    assert_eq!(
        reason(call(true, fallible).host_answered(&mut state, Ok(false))),
        invalid("Host.invokeCallbackAsync must return a Promise")
    );
    assert_eq!(
        reason(call(false, fallible).host_answered(&mut state, Ok(true))),
        invalid("Host.invokeCallbackSync must not return a Promise")
    );
    let error = call(true, infallible).host_failed(&mut state, None, lost("gone"));
    assert_eq!(error.reason, "infallible callback method 3 failed: gone");
    let thrown = call(true, fallible).host_failed(
        &mut state,
        Some("thrown".to_string()),
        lost("gone"),
    );
    assert_eq!(thrown.reason, "thrown");
}

#[test]
fn output_streams_are_cancelled_before_they_are_released() {
    let mut state = open(vec![]);
    let output = SessionResourceReceiver::OutputStream;
    state.retain_resource(reference(50), output);
    let same = vec![reference(50)];
    assert_eq!(state.tracked_references(output), same);
    assert!(state.tracked_references(SessionResourceReceiver::Object).is_empty());
    assert!(state.is_tracked(output, &same));
    assert!(state.output_cancel_is_new(&same));
    assert_eq!(
        state.release_resource(output, &same, true),
        ResourceClaim::Run { hook: Some(CANCEL_HOOK), dropped: None }
    );
    assert!(!state.output_cancel_is_new(&same));
    assert!(state.remember_cancel_promise(&same, reference(51)).unwrap());
    assert!(!state.remember_cancel_promise(&same, reference(52)).unwrap());
    assert_eq!(state.begin_output_cancel(&same).unwrap(), reference(50));
    // A second cancel shares the promise; a release waits for it.
    assert_eq!(
        state.release_resource(output, &same, true),
        ResourceClaim::InFlight(reference(51))
    );
    assert_eq!(state.release_resource(output, &same, false), ResourceClaim::Nothing);
    let mut settlement = Settlement::new(None);
    assert_eq!(settlement.output_cancel_settled(&mut state, reference(50)), Some(true));
    assert_eq!(settlement.output_cancel_settled(&mut state, reference(50)), None);
    match state.release_resource(output, &same, false) {
        ResourceClaim::Run { hook, dropped } => {
            assert_eq!(hook, Some(OUTPUT_HOOK));
            assert_eq!(dropped.unwrap().cancel_promise, Some(reference(51)));
        }
        _ => panic!("the stream is released now"),
    }
    assert_eq!(state.release_resource(output, &same, false), ResourceClaim::Nothing);
    assert_eq!(
        reason(state.remember_cancel_promise(&same, reference(53))),
        failure("output stream cancel lease disappeared before Promise retention")
    );
    assert_eq!(
        reason(state.begin_output_cancel(&same)),
        failure("output stream cancel lease disappeared before settlement")
    );
    assert_eq!(state.forget_cancel_promise(&same), None);
    assert_eq!(
        state.release_untracked_resource(SessionResourceReceiver::Object),
        Some(OBJECT_HOOK)
    );
    assert_eq!(state.release_untracked_resource(output), Some(OUTPUT_HOOK));
    assert_eq!(state.release_untracked_resource(SessionResourceReceiver::InputStream), None);
}

#[test]
fn cancellations_take_their_course() {
    let asked = CancelReason::Requested { is_new: true, has_hook: true };
    let again = CancelReason::Requested { is_new: false, has_hook: true };
    let bare = CancelReason::Requested { is_new: true, has_hook: false };
    assert_eq!(asked.after_cancel(CancelOutcome::Pending), CancelStep::Remember);
    assert_eq!(asked.after_cancel(CancelOutcome::Failed), CancelStep::Fail);
    assert_eq!(again.after_cancel(CancelOutcome::Pending), CancelStep::Done);
    assert_eq!(bare.after_remember(true), CancelStep::Done);
    assert_eq!(asked.after_remember(true), CancelStep::Follow);
    assert_eq!(asked.after_remember(false), CancelStep::Fail);
    assert_eq!(asked.after_follow(true), CancelStep::Done);
    assert_eq!(asked.after_follow(false), CancelStep::ForgetAndFail);
    assert_eq!(CancelReason::Closing.after_cancel(CancelOutcome::Settled), CancelStep::Release);
    assert_eq!(CancelReason::Closing.after_remember(false), CancelStep::Follow);
    assert_eq!(CancelReason::Closing.after_follow(false), CancelStep::Done);
    assert_eq!(CancelReason::Late.after_cancel(CancelOutcome::Nothing), CancelStep::Release);
    assert_eq!(CancelReason::Late.after_remember(false), CancelStep::Release);
    assert_eq!(CancelReason::Late.after_follow(false), CancelStep::ForgetAndRelease);
    assert_eq!(
        release_late_result(Some(SessionResourceReceiver::Object)),
        LateResult::ReleaseObject
    );
    assert_eq!(
        release_late_result(Some(SessionResourceReceiver::OutputStream)),
        LateResult::CancelOutput
    );
    assert_eq!(
        release_late_result(Some(SessionResourceReceiver::InputStream)),
        LateResult::Drop
    );
    assert_eq!(result_tracking(None), ResultTracking::Nothing);
    assert_eq!(
        result_tracking(Some(SessionResourceReceiver::InputStream)),
        ResultTracking::Stream
    );
    assert_eq!(
        result_tracking(Some(SessionResourceReceiver::Object)),
        ResultTracking::Resource(SessionResourceReceiver::Object)
    );
}

#[test]
fn only_the_first_settlement_counts() {
    let mut state = open(vec![]);
    let mut fulfilled = Settlement::new(Some(state.snapshot()));
    assert_eq!(fulfilled.async_result_fulfilled(&mut state, &vec![]), FulfilledStep::Inspect);
    assert_eq!(fulfilled.async_result_fulfilled(&mut state, &vec![]), FulfilledStep::Ignore);
    assert!(matches!(
        fulfilled.async_result_rejected(&mut state, &vec![]),
        RejectedStep::Ignore
    ));
    assert!(matches!(fulfilled.inspected(Ok(false)), ResultStep::Track));
    assert!(matches!(fulfilled.result_tracked(Ok(())), ResultStep::Report(Ok(()))));
    assert!(matches!(fulfilled.inspected(Ok(true)), ResultStep::RollBack(Some(_), Ok(()))));
    assert!(matches!(
        fulfilled.result_tracked(Err(lost("x"))),
        ResultStep::RollBack(None, Err(_))
    ));
    let mut rejected = Settlement::new(Some(state.snapshot()));
    assert!(matches!(
        rejected.async_result_rejected(&mut state, &vec![]),
        RejectedStep::Finish(Some(_))
    ));
    let mut abandoned = Settlement::new(Some(state.snapshot()));
    abandoned.abandon();
    assert!(!abandoned.claim());
    let mut pull = Settlement::new(None);
    assert_eq!(pull.input_settlement_fulfilled(&state, false), InputStep::CheckTerminal);
    assert_eq!(pull.input_settlement_rejected(&state), InputStep::Ignore);
    let mut cancel = Settlement::new(None);
    assert_eq!(cancel.input_settlement_fulfilled(&state, true), InputStep::Release);
    let mut failed = Settlement::new(None);
    assert_eq!(failed.input_settlement_rejected(&state), InputStep::Release);
    assert!(matches!(input_step_checked(&state, Ok(true)), InputOutcome::Release));
    assert!(matches!(input_step_checked(&state, Ok(false)), InputOutcome::Finish));
    assert!(matches!(
        input_step_checked(&state, Err(lost("x"))),
        InputOutcome::ReleaseAndFail(_)
    ));
    assert!(state.close().is_some());
    let mut late = Settlement::new(Some(state.snapshot()));
    assert_eq!(late.async_result_fulfilled(&mut state, &vec![]), FulfilledStep::Late);
    let mut late_pull = Settlement::new(None);
    assert_eq!(late_pull.input_settlement_fulfilled(&state, false), InputStep::Finish);
    let mut late_rejected = Settlement::new(Some(state.snapshot()));
    assert!(matches!(
        late_rejected.async_result_rejected(&mut state, &vec![]),
        RejectedStep::Finish(None)
    ));
}

#[test]
fn streams_of_the_host_are_pulled_and_cancelled() {
    let mut state = open(vec![]);
    assert_eq!(stream_argument(&vec![value(4)], false).unwrap(), value(4));
    assert_eq!(reason(stream_argument(&vec![], false)), invalid("pull requires stream ID"));
    assert_eq!(reason(stream_argument(&vec![], true)), invalid("cancel requires stream ID"));
    assert_eq!(stream_method(false), "pullInputStream");
    assert_eq!(stream_method(true), "cancelInputStream");
    assert_eq!(state.stream_answered(true, false).unwrap(), StreamStep::Attach);
    assert_eq!(state.stream_answered(false, false).unwrap(), StreamStep::CheckTerminal);
    assert_eq!(state.stream_answered(false, true).unwrap(), StreamStep::Release);
}

#[test]
fn closing_waits_for_pending_work_or_the_deadline() {
    let deferred = JsDeferred { handle: 8 };
    let timer = JsTimer { handle: 9 };
    let signal = CloseSignal { deferred: Some(deferred), timer: Some(timer) };

    let mut idle = open(vec![]);
    assert!(idle.ensure_open().is_ok());
    assert!(idle.close().is_some());
    assert!(idle.close().is_none());
    assert_eq!(
        reason(idle.ensure_open()),
        failure("UniFFI backend session is closed")
    );
    assert_eq!(idle.existing_close_promise(), None);
    assert_eq!(idle.close_grace_ms(), 250);
    assert_eq!(idle.close_promise_created(reference(20), deferred, Some(timer)), signal);
    assert_eq!(idle.existing_close_promise(), Some(reference(20)));
    assert_eq!(idle.close_deadline(), nothing());

    let mut busy = open(vec![]);
    busy.begin_pending_work().unwrap();
    busy.begin_pending_work().unwrap();
    busy.close();
    assert_eq!(busy.close_promise_created(reference(20), deferred, Some(timer)), nothing());
    assert_eq!(busy.finish_pending_work(), nothing());
    assert_eq!(busy.finish_pending_work(), signal);
    assert_eq!(busy.finish_pending_work(), nothing());

    let mut slow = open(vec![]);
    slow.begin_pending_work().unwrap();
    slow.close();
    slow.close_promise_created(reference(20), deferred, Some(timer));
    assert_eq!(slow.close_deadline(), signal);
    assert_eq!(slow.finish_pending_work(), nothing());
}

#[test]
fn closing_gives_everything_up() {
    let mut state = open(vec![
        native(SessionOperationDispatch::NativeSync),
        callback_host(true),
        native(SessionOperationDispatch::NativeSync),
    ]);
    state.note_input_stream(9);
    state.note_input_stream(3);
    state.retain_resource(reference(60), SessionResourceReceiver::Object);
    state.retain_resource(reference(61), SessionResourceReceiver::OutputStream);
    assert!(state.close().unwrap().tokens.is_empty());
    assert_eq!(state.close_streams(), vec![3, 9]);
    assert!(state.close_streams().is_empty());
    let held: Vec<(JsRef, CloseAction)> = state
        .close_resources()
        .into_iter()
        .map(|resource| (resource.reference, close_action(&resource)))
        .collect();
    assert_eq!(
        held,
        vec![
            (reference(60), CloseAction::Release),
            (reference(61), CloseAction::CancelOutput)
        ]
    );
    assert_eq!(
        state.cleanup_references(),
        vec![
            reference(100),
            reference(102),
            HOST,
            RELEASE,
            OBJECT_HOOK,
            CANCEL_HOOK,
            OUTPUT_HOOK
        ]
    );
    assert!(state.cleanup_references().is_empty());
}

#[test]
fn rollback_is_held_up_by_a_stream_that_waits() {
    let mut state = open(vec![]);
    let output = SessionResourceReceiver::OutputStream;
    state.retain_resource(reference(1), SessionResourceReceiver::Object);
    let snapshot = state.snapshot();
    state.retain_resource(reference(2), output);
    state.retain_resource(reference(3), SessionResourceReceiver::Object);
    let same = vec![reference(2)];
    state.release_resource(output, &same, true);
    state.begin_output_cancel(&same).unwrap();
    let mut rollback = Rollback::start(snapshot.clone());
    assert!(!rollback.is_held_up(&state));
    rollback.step(&mut state);
    rollback.step(&mut state);
    match rollback.step(&mut state) {
        RollbackStep::Resource(resource) => assert_eq!(resource.reference, reference(3)),
        _ => panic!("the newest resource comes first"),
    }
    assert_eq!(state.rollback_lost(&snapshot), Some(reference(3)));
    match rollback.step(&mut state) {
        RollbackStep::Resource(resource) => {
            assert_eq!(resource.reference, reference(2));
            assert_eq!(state.release_resource(output, &same, false), ResourceClaim::Nothing);
        }
        _ => panic!("the stream comes next"),
    }
    // The stream keeps its place until its cancellation has settled.
    assert!(rollback.is_held_up(&state));
    match rollback.step(&mut state) {
        RollbackStep::Resource(resource) => assert_eq!(resource.reference, reference(2)),
        _ => panic!("the stream is still there"),
    }
    assert_eq!(state.abandon_output_cancel(reference(2)), nothing());
    assert!(!rollback.is_held_up(&state));
    assert!(matches!(
        state.release_resource(output, &same, false),
        ResourceClaim::Run { hook: Some(OUTPUT_HOOK), dropped: Some(_) }
    ));
    assert!(matches!(rollback.step(&mut state), RollbackStep::Finished));
    assert_eq!(state.rollback_lost(&snapshot), None);
}

#[test]
fn use_sites_are_walked_from_their_call() {
    let mut state = open(vec![leasing_operation()]);
    let mut queue = CallbackReleaseQueue::new();
    let args = vec![value(70), value(40)];
    let mut retention = ArgumentRetention::start(&state, 0);
    let mut walks = Vec::new();
    loop {
        match retention.request(&state, &args).unwrap() {
            RetentionRequest::Continue => {}
            RetentionRequest::CallbackPath(_) | RetentionRequest::StreamPath(_) => {
                // The receiver stands before the numbered arguments.
                let found = retention.walk(&state, &args).unwrap().into_values();
                assert_eq!(found, vec![value(40)]);
                walks.push(found.len());
                let short = retention.walk(&state, &vec![value(70)]);
                assert_eq!(
                    reason(short),
                    invalid(if walks.len() < 3 {
                        "callback argument path index 0 is out of range"
                    } else {
                        "input stream argument path index 0 is out of range"
                    })
                );
                retention.supply_values(&state, &args, found);
            }
            RetentionRequest::CallbackId(found) => {
                retention.supply_callback_id(&mut state, &args, found.handle as u32);
            }
            RetentionRequest::Retain(found) => {
                let token = state.new_callback_lease(&mut queue, found, Ok(())).unwrap();
                retention.supply_lease(&state, &args, token);
            }
            RetentionRequest::StreamId(found) => {
                retention.supply_stream_id(&mut state, &args, found.handle as u32);
            }
            _ => break,
        }
    }
    assert_eq!(walks.len(), 3);
    let mut results = ResultRetention::start(&state, 0);
    assert_eq!(results.request(&state), ResultRequest::Path(0));
    assert_eq!(results.walk(&state, value(9)).unwrap().into_values(), vec![value(9)]);
}

#[test]
fn a_closed_session_stays_closed() {
    let mut state = open(vec![leasing_operation()]);
    state.note_input_stream(4);
    assert!(state.close().is_some());
    let _ = state.close_streams();
    state.note_input_stream(5);
    let _ = state.finish_pending_work();
    let _ = state.rollback_streams(&state.snapshot());
    assert_eq!(reason(state.ensure_open()), failure("UniFFI backend session is closed"));
    assert!(state.close().is_none());
    assert!(state.operation(0).is_ok());
}

#[test]
fn input_streams_are_released_once_over_a_close() {
    let mut state = open(vec![]);
    state.note_input_stream(4);
    state.note_input_stream(6);
    assert!(state.release_input_stream(4));
    assert!(state.close().is_some());
    assert_eq!(state.close_streams(), vec![6]);
    // A late answer does not bring a stream back.
    let snapshot = state.snapshot();
    state.note_input_stream(4);
    state.note_input_stream(6);
    state.note_input_stream(8);
    assert!(!state.release_input_stream(4));
    assert!(!state.release_input_stream(6));
    assert_eq!(state.rollback_streams(&snapshot), vec![8]);
    assert!(state.close_streams().is_empty());
}

#[test]
fn closed_sessions_start_no_dispatch() {
    let mut state = open(vec![native(SessionOperationDispatch::NativeSync)]);
    assert!(Dispatch::begin(&state, 0, false).is_ok());
    assert!(state.close().is_some());
    assert_eq!(
        reason(Dispatch::begin(&state, 0, false)),
        failure("UniFFI backend session is closed")
    );
    assert_eq!(
        reason(Dispatch::begin(&state, 7, true)),
        failure("UniFFI backend session is closed")
    );
}

#[test]
fn scoped_registrations_end_together() {
    let mut state = open(vec![callback_host(false)]);
    let scoped_site =
        callback_at(SessionValuePathSegment::Argument(0), 7, SessionCallbackRetention::Scoped);
    let retained_site =
        callback_at(SessionValuePathSegment::Argument(0), 7, SessionCallbackRetention::Retained);
    let mut outer = Vec::new();
    state.register_callback_contract(key(7, 1), &scoped_site, &mut outer);
    state.register_callback_contract(key(7, 3), &retained_site, &mut outer);
    let mut inner = Vec::new();
    for id in [1, 2, 1, 3] {
        state.register_callback_contract(key(7, id), &scoped_site, &mut inner);
    }
    assert_eq!(inner.iter().map(|token| token.token).collect::<Vec<u64>>(), vec![1, 2, 3, 4]);
    assert!(state.enter_callback(0, key(7, 2), false).unwrap());
    state.release_callback_guard(key(7, 2));
    state.release_scoped_callback_tokens(&inner);
    state.release_scoped_callback_tokens(&inner);
    assert!(!state.enter_callback(0, key(7, 2), false).unwrap());
    assert!(state.enter_callback(0, key(7, 1), false).unwrap());
    assert!(state.enter_callback(0, key(7, 3), false).unwrap());
    state.release_callback_guard(key(7, 1));
    state.release_scoped_callback_tokens(&outer);
    assert!(!state.enter_callback(0, key(7, 1), false).unwrap());
}

#[test]
fn a_cancelled_stream_runs_each_hook_once() {
    let output = SessionResourceReceiver::OutputStream;
    let mut state = open(vec![]);
    state.retain_resource(reference(30), SessionResourceReceiver::Object);
    state.retain_resource(reference(31), output);
    let same = vec![reference(31)];
    assert_eq!(
        state.release_resource(output, &same, true),
        ResourceClaim::Run { hook: Some(CANCEL_HOOK), dropped: None }
    );
    assert_eq!(state.remember_cancel_promise(&same, reference(90)).unwrap(), true);
    assert_eq!(state.begin_output_cancel(&same).unwrap(), reference(31));
    // Other resources come and go meanwhile.
    state.retain_resource(reference(32), output);
    assert!(matches!(
        state.release_resource(SessionResourceReceiver::Object, &vec![reference(30)], false),
        ResourceClaim::Run { hook: Some(OBJECT_HOOK), dropped: Some(_) }
    ));
    assert_eq!(
        state.release_resource(output, &same, true),
        ResourceClaim::InFlight(reference(90))
    );
    assert_eq!(state.release_resource(output, &same, false), ResourceClaim::Nothing);
    assert!(state.complete_output_cancel(reference(31)));
    assert!(matches!(
        state.release_resource(output, &same, false),
        ResourceClaim::Run { hook: Some(OUTPUT_HOOK), dropped: Some(_) }
    ));
    assert_eq!(state.release_resource(output, &same, true), ResourceClaim::Nothing);
    assert_eq!(state.release_resource(output, &same, false), ResourceClaim::Nothing);
    let left: Vec<JsRef> =
        state.close_resources().into_iter().map(|resource| resource.reference).collect();
    assert_eq!(left, vec![reference(32)]);
}
