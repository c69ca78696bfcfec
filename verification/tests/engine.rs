use napi_ohos_uniffi_engine::ast::{NapiFnArg, NapiFnArgKind, NapiFnBuilder};
use napi_ohos_uniffi_engine::backend::model::{AsyncStep, HostRequest};
use napi_ohos_uniffi_engine::backend::session::{
    async_request, host_request, OhosBackendFactory, OhosBackendSession,
};
use napi_ohos_uniffi_engine::codegen::source::{
    generate_ohos_module, generate_ohos_source, GeneratedOhosSource, SourceItem,
    BACKEND_FACTORY_EXPORT,
};
use napi_ohos_uniffi_engine::error::{OhosEngineError, OhosError};
use napi_ohos_uniffi_engine::family::{
    AsyncKind, CallbackContract, CallbackReentrancy, CallbackRetention, CallbackThreading,
    CallbackUseSite, ClosePolicy, DeadlineAction, FamilyOperation, FamilyOperationTarget,
    FamilyPlan, OperationKind, ReceiverBinding, ResourceBinding, ResourceKind, ResourceOwnership,
    ResultResource, StreamDirection, StreamUseSite, ValuePath, ValuePathSegment,
};
use napi_ohos_uniffi_engine::host::OhosHost;
use napi_ohos_uniffi_engine::number::Number;
use napi_ohos_uniffi_engine::plan::{
    OhosArgumentBinding, OhosArgumentPlan, OhosBridgePlan, OhosErrorBinding, OhosOperationPlan,
    OhosOperationTarget, OhosResourceHook, OhosResourceHooks, OhosReturnBinding,
};
use napi_ohos_uniffi_engine::value::{OhosRuntimeHooks, OhosValue};
use std::str::FromStr;
use std::sync::{Arc, Mutex};

fn argument(name: &str, binding: OhosArgumentBinding) -> OhosArgumentPlan {
    OhosArgumentPlan { name: name.to_string(), binding }
}

fn native(
    id: u32,
    arguments: Vec<OhosArgumentPlan>,
    return_binding: OhosReturnBinding,
    error_binding: OhosErrorBinding,
) -> OhosOperationPlan {
    OhosOperationPlan {
        operation_id: id,
        target: OhosOperationTarget::Native { call: "fixture::call".to_string() },
        receiver: None,
        arguments,
        return_binding,
        error_binding,
    }
}

fn host(id: u32, target: OhosOperationTarget) -> OhosOperationPlan {
    OhosOperationPlan {
        operation_id: id,
        target,
        receiver: None,
        arguments: Vec::new(),
        return_binding: OhosReturnBinding::Unit,
        error_binding: OhosErrorBinding::Infallible,
    }
}

fn family(operations: Vec<FamilyOperation>) -> FamilyPlan {
    FamilyPlan::new(
        ClosePolicy { grace_ms: 5_000, on_deadline: DeadlineAction::Detach },
        operations,
    )
}

fn operation(
    id: u32,
    kind: OperationKind,
    async_kind: AsyncKind,
    fallible: bool,
    argument_count: usize,
    target: FamilyOperationTarget,
) -> FamilyOperation {
    FamilyOperation {
        id,
        kind,
        async_kind,
        fallible,
        argument_count,
        target,
        receiver: None,
        result_resources: Vec::new(),
        callbacks: Vec::new(),
        streams: Vec::new(),
    }
}

fn argument_path(index: u32) -> ValuePath {
    ValuePath {
        segments: vec![ValuePathSegment::Argument(index)],
        notation: format!("argument[{}]", index),
    }
}

fn whole_result(kind: ResourceKind) -> ResultResource {
    ResultResource {
        path: ValuePath {
            segments: vec![ValuePathSegment::Return],
            notation: "return".to_string(),
        },
        binding: ResourceBinding { kind, ownership: ResourceOwnership::Owned },
    }
}

fn echo_family(async_kind: AsyncKind) -> FamilyPlan {
    family(vec![operation(
        0,
        OperationKind::Function,
        async_kind,
        false,
        1,
        FamilyOperationTarget::Native,
    )])
}

fn echo_plan(family: &FamilyPlan) -> OhosBridgePlan {
    OhosBridgePlan::build(
        family,
        vec![native(
            0,
            vec![argument(
                "value",
                OhosArgumentBinding::Direct { carrier_type: "u32".to_string() },
            )],
            OhosReturnBinding::Direct { carrier_type: "u32".to_string() },
            OhosErrorBinding::Infallible,
        )],
    )
    .unwrap()
}

fn object_family() -> FamilyPlan {
    let mut op = operation(
        0,
        OperationKind::Function,
        AsyncKind::Sync,
        false,
        0,
        FamilyOperationTarget::Native,
    );
    op.result_resources.push(whole_result(ResourceKind::Object));
    family(vec![op])
}

fn hook(call: &str, carrier_type: &str) -> Option<OhosResourceHook> {
    Some(OhosResourceHook { call: call.to_string(), carrier_type: carrier_type.to_string() })
}

fn object_plan(family: &FamilyPlan) -> OhosBridgePlan {
    OhosBridgePlan::build_with_resource_hooks(
        family,
        vec![native(
            0,
            Vec::new(),
            OhosReturnBinding::ObjectLease {
                carrier_type: "fixture::ObjectHandle".to_string(),
                lift: "fixture::lift_object".to_string(),
            },
            OhosErrorBinding::Infallible,
        )],
        OhosResourceHooks {
            release_object: hook("fixture::release_object", "fixture::ObjectHandle"),
            ..OhosResourceHooks::default()
        },
    )
    .unwrap()
}

fn output_family() -> FamilyPlan {
    let mut op = operation(
        0,
        OperationKind::OutputStreamStart,
        AsyncKind::Sync,
        false,
        0,
        FamilyOperationTarget::Native,
    );
    op.result_resources.push(whole_result(ResourceKind::OutputStream));
    family(vec![op])
}

fn output_plan(family: &FamilyPlan) -> OhosBridgePlan {
    OhosBridgePlan::build_with_resource_hooks(
        family,
        vec![native(
            0,
            Vec::new(),
            OhosReturnBinding::OutputStreamLease {
                carrier_type: "fixture::OutputStreamHandle".to_string(),
                lift: "fixture::lift_output_stream".to_string(),
            },
            OhosErrorBinding::Infallible,
        )],
        OhosResourceHooks {
            cancel_output_stream: hook(
                "fixture::cancel_output_stream",
                "fixture::OutputStreamHandle",
            ),
            release_output_stream: hook(
                "fixture::release_output_stream",
                "fixture::OutputStreamHandle",
            ),
            ..OhosResourceHooks::default()
        },
    )
    .unwrap()
}

fn callback_family() -> FamilyPlan {
    let use_site = CallbackUseSite {
        operation_id: 0,
        callback_type_id: 7,
        path: argument_path(0),
        contract: CallbackContract {
            retention: CallbackRetention::Retained,
            threading: CallbackThreading::CallingThread,
            reentrancy: CallbackReentrancy::Forbidden,
        },
    };
    let mut op = operation(
        0,
        OperationKind::Function,
        AsyncKind::Sync,
        false,
        1,
        FamilyOperationTarget::Native,
    );
    op.callbacks.push(use_site);
    let method = operation(
        1,
        OperationKind::CallbackMethod,
        AsyncKind::Async,
        true,
        1,
        FamilyOperationTarget::CallbackHost { callback_type_id: 7, method_id: 3 },
    );
    let borrowed_stream = Some(ReceiverBinding::Resource(ResourceBinding {
        kind: ResourceKind::InputStream,
        ownership: ResourceOwnership::Borrowed,
    }));
    let mut input = operation(
        2,
        OperationKind::InputStreamPull,
        AsyncKind::Async,
        false,
        1,
        FamilyOperationTarget::InputStreamHostPull,
    );
    input.receiver = borrowed_stream;
    let mut cancel = operation(
        3,
        OperationKind::InputStreamCancel,
        AsyncKind::Async,
        false,
        0,
        FamilyOperationTarget::InputStreamHostCancel,
    );
    cancel.receiver = borrowed_stream;
    let mut stream_source = operation(
        4,
        OperationKind::Function,
        AsyncKind::Sync,
        false,
        1,
        FamilyOperationTarget::Native,
    );
    stream_source.streams.push(StreamUseSite {
        operation_id: 4,
        use_site_id: 0,
        path: argument_path(0),
        direction: StreamDirection::Input,
    });
    family(vec![op, method, input, cancel, stream_source])
}

fn callback_plan(family: &FamilyPlan) -> OhosBridgePlan {
    OhosBridgePlan::build(
        family,
        vec![
            native(
                0,
                vec![argument(
                    "callback",
                    OhosArgumentBinding::CallbackProxy {
                        rust_type: "fixture::Callback".to_string(),
                        build: "fixture::build_callback".to_string(),
                    },
                )],
                OhosReturnBinding::Unit,
                OhosErrorBinding::Infallible,
            ),
            host(1, OhosOperationTarget::CallbackHost),
            host(2, OhosOperationTarget::InputStreamHostPull),
            host(3, OhosOperationTarget::InputStreamHostCancel),
            native(
                4,
                vec![argument(
                    "stream",
                    OhosArgumentBinding::InputStreamProxy {
                        rust_type: "fixture::InputStream".to_string(),
                        build: "fixture::build_input_stream".to_string(),
                    },
                )],
                OhosReturnBinding::Unit,
                OhosErrorBinding::Infallible,
            ),
        ],
    )
    .unwrap()
}

/// The text of the generated source, without the functions that are rendered
/// elsewhere.
fn source_text(generated: &GeneratedOhosSource) -> String {
    let mut text = String::new();
    for item in generated.source() {
        if let SourceItem::Text(piece) = item {
            text.push_str(piece);
            text.push('\n');
        }
    }
    text
}

#[test]
fn generated_source_consumes_family_plan_and_exports_one_factory() {
    let family = echo_family(AsyncKind::Sync);
    let generated = generate_ohos_source(&family, echo_plan(&family)).unwrap();
    assert_eq!(generated.module().public_exports(), vec![BACKEND_FACTORY_EXPORT]);
    let text = source_text(&generated);
    assert!(text.contains("create_backend_session"));
    assert!(syn::parse_str::<syn::File>(&text).is_ok());
}

#[test]
fn every_generated_text_is_rust() {
    let family = callback_family();
    let callbacks = generate_ohos_source(&family, callback_plan(&family)).unwrap();
    assert!(syn::parse_str::<syn::File>(&source_text(&callbacks)).is_ok());
    let family = object_family();
    let objects = generate_ohos_source(&family, object_plan(&family)).unwrap();
    assert!(syn::parse_str::<syn::File>(&source_text(&objects)).is_ok());
    let family = output_family();
    let outputs = generate_ohos_source(&family, output_plan(&family)).unwrap();
    assert!(syn::parse_str::<syn::File>(&source_text(&outputs)).is_ok());
    let family = echo_family(AsyncKind::Async);
    let asynchronous = generate_ohos_source(&family, echo_plan(&family)).unwrap();
    assert!(syn::parse_str::<syn::File>(&source_text(&asynchronous)).is_ok());
}

#[test]
fn only_the_factory_is_exported() {
    let family = output_family();
    let generated = generate_ohos_source(&family, output_plan(&family)).unwrap();
    let mut exported: Vec<String> = Vec::new();
    let mut private: Vec<String> = Vec::new();
    for item in generated.source() {
        if let SourceItem::Function(function) = item {
            if function.no_export {
                private.push(function.name.clone());
            } else {
                exported.push(function.js_name.clone());
            }
        }
    }
    assert_eq!(exported, vec![BACKEND_FACTORY_EXPORT.to_string()]);
    assert!(private.contains(&"__uniffi_cancel_output_stream".to_string()));
    assert!(private.contains(&"__uniffi_release_output_stream".to_string()));
    for name in generated.module().raw_operation_names() {
        assert!(private.contains(&name));
    }
}

#[test]
fn structured_family_preserves_callback_method_ids_and_stream_contracts() {
    let family = callback_family();
    assert_eq!(
        family.operations()[1].target,
        FamilyOperationTarget::CallbackHost { callback_type_id: 7, method_id: 3 }
    );
    assert_eq!(family.operations()[4].streams[0].direction, StreamDirection::Input);
    let generated = generate_ohos_source(&family, callback_plan(&family)).unwrap();
    let tokens = proc_macro2::TokenStream::from_str(&source_text(&generated)).unwrap();
    assert!(tokens.to_string().contains("method_id : 3"));
}

#[test]
fn resource_hooks_are_required_and_output_cleanup_is_idempotent() {
    let family = object_family();
    let plan = object_plan(&family);
    assert!(plan.resource_hooks().release_object.is_some());
    assert_eq!(
        OhosBridgePlan::build(&family, plan.operations().to_vec()).unwrap_err(),
        OhosEngineError::MissingResourceHook { role: "object release" }
    );
    let family = output_family();
    let plan = output_plan(&family);
    assert!(plan.resource_hooks().cancel_output_stream.is_some());
    assert!(plan.resource_hooks().release_output_stream.is_some());
}

#[test]
fn module_counts_its_operations() {
    let echo = echo_family(AsyncKind::Sync);
    let callbacks = callback_family();
    assert_eq!(
        generate_ohos_module(&callbacks, echo_plan(&echo)).unwrap_err(),
        OhosEngineError::OperationCount { expected: 5, actual: 1 }
    );
    let module = generate_ohos_module(&echo, echo_plan(&echo)).unwrap();
    assert_eq!(module.family(), &echo);
    assert_eq!(module.hooks(), OhosRuntimeHooks::default());
    assert_eq!(module.operations().len(), 1);
    assert!(module.resource_hooks().release_object.is_none());
    assert_eq!(module.raw_operation_names(), vec!["__uniffi_raw_operation_0".to_string()]);
}

#[derive(Default)]
struct FixtureHost {
    calls: Arc<Mutex<Vec<String>>>,
    object: Option<u32>,
    output: Option<u32>,
    refused: Option<&'static str>,
    released_objects: Arc<Mutex<Vec<u32>>>,
    cancelled_outputs: Arc<Mutex<Vec<u32>>>,
    released_outputs: Arc<Mutex<Vec<u32>>>,
}

impl FixtureHost {
    fn done(&mut self, call: String) -> Result<(), OhosError> {
        let refused = self.refused.map_or(false, |name| call.starts_with(name));
        self.calls.lock().unwrap().push(call);
        if refused {
            Err(OhosError::new("refused"))
        } else {
            Ok(())
        }
    }
}

impl OhosHost for FixtureHost {
    fn invoke_sync(&mut self, _: u32, args: &[OhosValue]) -> Result<OhosValue, OhosError> {
        self.calls.lock().unwrap().push("sync".to_string());
        if let Some(value) = args.first() {
            Ok(value.clone())
        } else if let Some(output) = self.output {
            Ok(OhosValue::OutputStream(output))
        } else {
            Ok(OhosValue::Object(self.object.unwrap_or(1)))
        }
    }

    fn invoke_callback(
        &mut self,
        callback_type: u32,
        callback_id: u32,
        method_id: u32,
        _: &[OhosValue],
    ) -> Result<OhosValue, OhosError> {
        self.done(format!("callback {} {} {}", callback_type, callback_id, method_id))?;
        Ok(OhosValue::Unit)
    }

    fn retain_callback(&mut self, callback_type: u32, callback_id: u32) -> Result<(), OhosError> {
        self.done(format!("retain {} {}", callback_type, callback_id))
    }

    fn release_callback(&mut self, callback_type: u32, callback_id: u32) -> Result<(), OhosError> {
        self.done(format!("release {} {}", callback_type, callback_id))
    }

    fn pull_input_stream(&mut self, stream_id: u32) -> Result<OhosValue, OhosError> {
        self.done(format!("pull {}", stream_id))?;
        Ok(OhosValue::InputStream(stream_id))
    }

    fn cancel_input_stream(&mut self, stream_id: u32) -> Result<(), OhosError> {
        self.done(format!("cancel input {}", stream_id))
    }

    fn release_input_stream(&mut self, stream_id: u32) -> Result<(), OhosError> {
        self.done(format!("release input {}", stream_id))
    }

    fn next_output_stream(&mut self, stream_id: u32) -> Result<OhosValue, OhosError> {
        Ok(OhosValue::OutputStream(stream_id))
    }

    fn cancel_output_stream(&mut self, stream_id: u32) -> Result<(), OhosError> {
        self.cancelled_outputs.lock().unwrap().push(stream_id);
        self.done(format!("cancel output {}", stream_id))
    }

    fn release_output_stream(&mut self, stream_id: u32) -> Result<(), OhosError> {
        self.released_outputs.lock().unwrap().push(stream_id);
        self.done(format!("release output {}", stream_id))
    }

    fn release_object(&mut self, object_id: u32) -> Result<(), OhosError> {
        self.released_objects.lock().unwrap().push(object_id);
        self.done(format!("release object {}", object_id))
    }
}

/// A host that leaves the optional methods as they are.
struct QuietHost;

impl OhosHost for QuietHost {
    fn invoke_sync(&mut self, _: u32, _: &[OhosValue]) -> Result<OhosValue, OhosError> {
        Err(OhosError::new("no"))
    }

    fn invoke_callback(
        &mut self,
        _: u32,
        _: u32,
        _: u32,
        _: &[OhosValue],
    ) -> Result<OhosValue, OhosError> {
        Err(OhosError::new("no"))
    }

    fn pull_input_stream(&mut self, _: u32) -> Result<OhosValue, OhosError> {
        Err(OhosError::new("no"))
    }

    fn cancel_input_stream(&mut self, _: u32) -> Result<(), OhosError> {
        Err(OhosError::new("no"))
    }

    fn next_output_stream(&mut self, _: u32) -> Result<OhosValue, OhosError> {
        Err(OhosError::new("no"))
    }

    fn cancel_output_stream(&mut self, _: u32) -> Result<(), OhosError> {
        Err(OhosError::new("no"))
    }

    fn release_object(&mut self, _: u32) -> Result<(), OhosError> {
        Err(OhosError::new("no"))
    }
}

#[test]
fn backend_session_preserves_close_and_resource_idempotence() {
    let family = object_family();
    let module = generate_ohos_module(&family, object_plan(&family)).unwrap();
    let host = FixtureHost { object: Some(42), ..FixtureHost::default() };
    let released = Arc::clone(&host.released_objects);
    let mut session = OhosBackendFactory::new(module).open(host);
    assert_eq!(session.invoke_sync(0, &[]), Ok(OhosValue::Object(42)));
    session.release_object(42).unwrap();
    session.release_object(42).unwrap();
    session.close().unwrap();
    session.close().unwrap();
    assert_eq!(&*released.lock().unwrap(), &[42]);
    assert!(matches!(session.invoke_sync(0, &[]), Err(OhosEngineError::Closed)));
}

#[test]
fn callback_reentrancy_policy_is_forbidden_for_registered_method() {
    let family = callback_family();
    let module = generate_ohos_module(&family, callback_plan(&family)).unwrap();
    let mut session = OhosBackendFactory::new(module).open(FixtureHost::default());
    let first = session.invoke_async(1, vec![OhosValue::Callback(9)]).unwrap();
    let second = session.invoke_async(1, vec![OhosValue::Callback(9)]);
    assert!(matches!(
        second,
        Err(OhosEngineError::ReentrancyForbidden { callback_type: 7, callback_id: 9 })
    ));
    assert!(matches!(
        session.invoke_callback(7, 9, 3, &[]),
        Err(OhosEngineError::ReentrancyForbidden { callback_type: 7, callback_id: 9 })
    ));
    let answer = match session.resume(&first) {
        AsyncStep::Answered(answer) => answer,
        AsyncStep::AwaitNative => panic!("a callback is answered at once"),
    };
    assert_eq!(session.settle(first, answer), Ok(OhosValue::Unit));
    assert!(session.invoke_async(1, vec![OhosValue::Callback(9)]).is_ok());
}

fn callback_session(host: FixtureHost) -> OhosBackendSession<FixtureHost> {
    let family = callback_family();
    let module = generate_ohos_module(&family, callback_plan(&family)).unwrap();
    OhosBackendFactory::new(module).open(host)
}

fn logging_host() -> (FixtureHost, Arc<Mutex<Vec<String>>>) {
    let host = FixtureHost::default();
    let calls = Arc::clone(&host.calls);
    (host, calls)
}

#[test]
fn callbacks_are_kept_once_and_given_back_once() {
    let (host, calls) = logging_host();
    let mut session = callback_session(host);
    session.retain_callback(7, 1).unwrap();
    session.retain_callback(7, 1).unwrap();
    session.release_callback(7, 1).unwrap();
    session.release_callback(7, 1).unwrap();
    session.release_callback(8, 1).unwrap();
    assert_eq!(&*calls.lock().unwrap(), &["retain 7 1", "release 7 1"]);
}

#[test]
fn closing_cleans_up_in_order() {
    let (host, calls) = logging_host();
    let mut session = callback_session(host);
    session.retain_callback(8, 1).unwrap();
    session.retain_callback(7, 5).unwrap();
    session.invoke_sync(4, &[OhosValue::InputStream(30)]).unwrap();
    session.invoke_sync(4, &[OhosValue::InputStream(20)]).unwrap();
    calls.lock().unwrap().clear();
    session.close().unwrap();
    assert_eq!(
        &*calls.lock().unwrap(),
        &[
            "release 7 5",
            "release 8 1",
            "cancel input 20",
            "release input 20",
            "cancel input 30",
            "release input 30",
        ]
    );
    assert!(matches!(session.retain_callback(7, 5), Err(OhosEngineError::Closed)));
    assert!(matches!(session.invoke_async(1, Vec::new()), Err(OhosEngineError::Closed)));
    assert!(matches!(session.invoke_callback(7, 9, 3, &[]), Err(OhosEngineError::Closed)));
    assert!(matches!(session.next_output_stream(1), Err(OhosEngineError::Closed)));
    assert!(matches!(session.cancel_input_stream(1), Err(OhosEngineError::Closed)));
}

#[test]
fn closing_stops_at_the_first_refusal_and_stays_closed() {
    let (mut host, calls) = logging_host();
    host.refused = Some("cancel input");
    let mut session = callback_session(host);
    session.retain_callback(7, 5).unwrap();
    session.invoke_sync(4, &[OhosValue::InputStream(20)]).unwrap();
    calls.lock().unwrap().clear();
    assert_eq!(session.close(), Err(OhosEngineError::Host(OhosError::new("refused"))));
    assert_eq!(&*calls.lock().unwrap(), &["release 7 5", "cancel input 20"]);
    assert_eq!(session.close(), Ok(()));
    assert_eq!(calls.lock().unwrap().len(), 2);
}

#[test]
fn output_streams_are_cancelled_and_released_once() {
    let family = output_family();
    let module = generate_ohos_module(&family, output_plan(&family)).unwrap();
    let host = FixtureHost { output: Some(11), ..FixtureHost::default() };
    let cancelled = Arc::clone(&host.cancelled_outputs);
    let released = Arc::clone(&host.released_outputs);
    let factory = OhosBackendFactory::new(module);
    assert_eq!(factory.module().operations().len(), 1);
    let mut session = factory.open(host);
    assert_eq!(session.invoke_sync(0, &[]), Ok(OhosValue::OutputStream(11)));
    assert_eq!(session.next_output_stream(11), Ok(OhosValue::OutputStream(11)));
    session.cancel_output_stream(11).unwrap();
    session.cancel_output_stream(11).unwrap();
    assert_eq!(&*cancelled.lock().unwrap(), &[11]);
    session.close().unwrap();
    assert_eq!(&*cancelled.lock().unwrap(), &[11]);
    assert_eq!(&*released.lock().unwrap(), &[11]);

    let host = FixtureHost { output: Some(12), ..FixtureHost::default() };
    let cancelled = Arc::clone(&host.cancelled_outputs);
    let released = Arc::clone(&host.released_outputs);
    let mut session = factory.open(host);
    session.invoke_sync(0, &[]).unwrap();
    session.release_output_stream(12).unwrap();
    session.release_output_stream(12).unwrap();
    session.release_output_stream(99).unwrap();
    session.invoke_sync(0, &[]).unwrap();
    session.close().unwrap();
    assert_eq!(&*cancelled.lock().unwrap(), &[12]);
    assert_eq!(&*released.lock().unwrap(), &[12, 12]);
}

#[test]
fn operations_are_found_by_number_and_kind() {
    let mut session = callback_session(FixtureHost::default());
    assert_eq!(session.family().operations().len(), 5);
    assert_eq!(
        session.invoke_sync(9, &[]),
        Err(OhosEngineError::UnknownOperation { operation_id: 9 })
    );
    assert_eq!(
        session.invoke_sync(1, &[]),
        Err(OhosEngineError::InvalidValue { expected: "sync operation" })
    );
    assert!(matches!(
        session.invoke_async(0, Vec::new()),
        Err(OhosEngineError::InvalidValue { expected: "async operation" })
    ));
    assert!(matches!(
        session.invoke_async(1, vec![OhosValue::Unit]),
        Err(OhosEngineError::InvalidValue { expected: "callback ID" })
    ));
}

#[test]
fn asynchronous_streams_are_answered_at_once() {
    let (host, calls) = logging_host();
    let mut session = callback_session(host);
    let pull = session.invoke_async(2, vec![OhosValue::InputStream(6)]).unwrap();
    match session.resume(&pull) {
        AsyncStep::Answered(answer) => {
            assert_eq!(answer, Ok(OhosValue::InputStream(6)));
            assert_eq!(session.settle(pull, answer), Ok(OhosValue::InputStream(6)));
        }
        AsyncStep::AwaitNative => panic!("a pull is answered at once"),
    }
    let cancel =
        session.invoke_async(3, vec![OhosValue::Number(Number { bits: 6.9f64.to_bits() })]).unwrap();
    match session.resume(&cancel) {
        AsyncStep::Answered(answer) => assert_eq!(answer, Ok(OhosValue::Unit)),
        AsyncStep::AwaitNative => panic!("a cancellation is answered at once"),
    }
    let nameless =
        session.invoke_async(2, vec![OhosValue::Number(Number { bits: (-1.0f64).to_bits() })]).unwrap();
    match session.resume(&nameless) {
        AsyncStep::Answered(Err(error)) => assert_eq!(error.message(), "expected stream ID"),
        _ => panic!("a stream needs a number that is not negative"),
    }
    session.release_input_stream(6).unwrap();
    session.release_input_stream(6).unwrap();
    assert_eq!(&*calls.lock().unwrap(), &["pull 6", "cancel input 6", "release input 6"]);
}

#[test]
fn asynchronous_natives_are_awaited_and_their_results_noted() {
    let family = echo_family(AsyncKind::Async);
    let module = generate_ohos_module(&family, echo_plan(&family)).unwrap();
    let host = FixtureHost::default();
    let released = Arc::clone(&host.released_objects);
    let outputs = Arc::clone(&host.released_outputs);
    let mut session = OhosBackendFactory::new(module).open(host);
    let call = session.invoke_async(0, vec![OhosValue::Null]).unwrap();
    assert_eq!(call.args, vec![OhosValue::Null]);
    assert!(matches!(session.resume(&call), AsyncStep::AwaitNative));
    assert_eq!(session.settle(call, Ok(OhosValue::Object(4))), Ok(OhosValue::Object(4)));
    let call = session.invoke_async(0, Vec::new()).unwrap();
    assert!(session.settle(call, Ok(OhosValue::OutputStream(5))).is_ok());
    let call = session.invoke_async(0, Vec::new()).unwrap();
    assert_eq!(
        session.settle(call, Err(OhosError::new("lost"))),
        Err(OhosError::new("lost"))
    );
    session.close().unwrap();
    assert_eq!(&*released.lock().unwrap(), &[4]);
    assert_eq!(&*outputs.lock().unwrap(), &[5]);
}

#[test]
fn optional_host_methods_succeed() {
    let family = callback_family();
    let module = generate_ohos_module(&family, callback_plan(&family)).unwrap();
    let mut session = OhosBackendFactory::new(module).open(QuietHost);
    session.retain_callback(1, 2).unwrap();
    session.release_callback(1, 2).unwrap();
    assert_eq!(
        session.invoke_sync(4, &[OhosValue::InputStream(3)]),
        Err(OhosEngineError::Host(OhosError::new("no")))
    );
    session.release_input_stream(3).unwrap();
    assert!(session.cancel_input_stream(3).is_err());
}

fn plain_argument(pattern: &str) -> NapiFnArg {
    NapiFnArg { kind: NapiFnArgKind::PatType(pattern.to_string()), ts_arg_type: None }
}

#[test]
fn programmatic_builder_keeps_private_and_factory_registration_distinct() {
    let private = NapiFnBuilder::new("raw".to_string(), "raw".to_string())
        .return_type("()".to_string())
        .private(true)
        .build();
    assert!(!private.module_exports);
    assert!(private.no_export);
    assert_eq!(private.register_name, "__napi_register_raw");
    assert_eq!(private.ret, Some("()".to_string()));

    let factory = NapiFnBuilder::new("factory".to_string(), "factory".to_string()).build();
    assert!(!factory.module_exports);
    assert!(!factory.no_export);
    assert_eq!(factory.name, "factory");
    assert_eq!(factory.js_name, "factory");

    let prepared = NapiFnBuilder::new("prepared".to_string(), "prepared".to_string())
        .argument(plain_argument("value: u32"))
        .pre_call("let arg0 = arg0 + 1;".to_string())
        .return_type("u32".to_string())
        .build();
    assert_eq!(prepared.pre_call, "let arg0 = arg0 + 1;");
    assert_eq!(prepared.args, vec![plain_argument("value: u32")]);
    assert_eq!(prepared.leading_wrapper_args, 0);
    assert_eq!(prepared.ret, Some("u32".to_string()));
    assert!(!prepared.is_ret_result && !prepared.no_export);

    let wrapper_only = NapiFnBuilder::new("lowered".to_string(), "lowered".to_string())
        .argument(plain_argument("host: u32"))
        .argument(plain_argument("value: u32"))
        .pre_call("let arg1 = arg0 + arg1;".to_string())
        .leading_wrapper_args(1)
        .return_type("u32".to_string())
        .build();
    assert_eq!(wrapper_only.pre_call, "let arg1 = arg0 + arg1;");
    assert_eq!(
        wrapper_only.args,
        vec![plain_argument("host: u32"), plain_argument("value: u32")]
    );
    // Only what follows the leading arguments is passed on.
    assert_eq!(wrapper_only.leading_wrapper_args, 1);
    assert_eq!(
        wrapper_only.args[wrapper_only.leading_wrapper_args..],
        [plain_argument("value: u32")]
    );
}

#[test]
fn builder_sets_every_part() {
    let built = NapiFnBuilder::new("prepared".to_string(), "prepared".to_string())
        .argument(plain_argument("value: u32"))
        .result_return_type("u32".to_string())
        .asynchronous(true)
        .within_async_runtime(true)
        .strict(true)
        .skip_typescript(true)
        .module_exports(true)
        .register_name("__register".to_string())
        .build();
    assert!(built.is_ret_result && built.is_async && built.within_async_runtime);
    assert!(built.strict && built.skip_typescript && built.module_exports);
    assert_eq!(built.register_name, "__register");
    assert_eq!(built.args[0].use_overridden_type_or(|| "number".to_string()), "number");
    let overridden =
        NapiFnArg { ts_arg_type: Some("bigint".to_string()), ..plain_argument("value: u32") };
    assert_eq!(overridden.use_overridden_type_or(|| "number".to_string()), "bigint");
}

/// Two methods of one callback type, one of which allows reentrancy by a use-site
/// of its own.
fn mixed_callback_session(host: FixtureHost) -> OhosBackendSession<FixtureHost> {
    let mut operations = callback_family().operations().clone();
    let mut own = operations[0].callbacks[0].clone();
    own.operation_id = 1;
    own.contract.reentrancy = CallbackReentrancy::Allowed;
    operations[1].callbacks.push(own.clone());
    let mut sync_method = operations[1].clone();
    sync_method.id = 5;
    sync_method.async_kind = AsyncKind::Sync;
    operations.push(sync_method);
    let plan = callback_plan(&callback_family());
    let mut plans = plan.operations().clone();
    plans.push(host_plan(5));
    let family = family(operations);
    // The plan of another family of the same size: modules ask for no more.
    let mut six = callback_family().operations().clone();
    six.push(operation(
        5,
        OperationKind::CallbackMethod,
        AsyncKind::Sync,
        true,
        1,
        FamilyOperationTarget::CallbackHost { callback_type_id: 7, method_id: 3 },
    ));
    let bridge = OhosBridgePlan::build(&FamilyPlan::new(family.close_policy(), six), plans).unwrap();
    OhosBackendFactory::new(generate_ohos_module(&family, bridge).unwrap()).open(host)
}

fn host_plan(id: u32) -> OhosOperationPlan {
    host(id, OhosOperationTarget::CallbackHost)
}

#[test]
fn one_forbidding_use_site_binds_every_method() {
    let mut session = mixed_callback_session(FixtureHost::default());
    let first = session.invoke_async(1, vec![OhosValue::Callback(9)]).unwrap();
    let refused = OhosEngineError::ReentrancyForbidden { callback_type: 7, callback_id: 9 };
    match session.invoke_async(1, vec![OhosValue::Callback(9)]) {
        Err(error) => assert_eq!(error, refused),
        Ok(_) => panic!("the callback is running"),
    }
    assert_eq!(session.invoke_sync(5, &[OhosValue::Callback(9)]), Err(refused));
    let other = session.invoke_async(1, vec![OhosValue::Callback(10)]).unwrap();
    let failed = Err(OhosError::new("failed"));
    assert_eq!(session.settle(first, failed.clone()), failed);
    assert!(session.invoke_async(1, vec![OhosValue::Callback(9)]).is_ok());
    assert_eq!(session.settle(other, Ok(OhosValue::Unit)), Ok(OhosValue::Unit));
    assert!(session.invoke_sync(5, &[OhosValue::Callback(10)]).is_ok());
}

#[test]
fn accepted_calls_guard_their_callback_until_they_end() {
    let (host, calls) = logging_host();
    let mut session = mixed_callback_session(host);
    let args = [OhosValue::Callback(9)];
    let begun = session.begin_sync(5, &args).unwrap();
    assert_eq!(
        begun.request,
        HostRequest::InvokeCallback { callback_type: 7, callback_id: 9, method_id: 3 }
    );
    let refused = OhosEngineError::ReentrancyForbidden { callback_type: 7, callback_id: 9 };
    assert_eq!(session.enter_callback(7, 9), Err(refused.clone()));
    assert_eq!(session.invoke_callback(7, 9, 3, &[]), Err(refused));
    assert!(calls.lock().unwrap().is_empty());
    assert_eq!(session.finish_sync(begun, Ok(OhosValue::Unit)), Ok(OhosValue::Unit));
    let guard = session.enter_callback(7, 9).unwrap();
    assert_eq!(guard, Some((7, 9)));
    assert!(session.begin_sync(5, &args).is_err());
    session.leave_callback(guard);
    assert_eq!(session.enter_callback(8, 9), Ok(None));
    assert!(session.begin_sync(5, &args).is_ok());
    match host_request(FamilyOperationTarget::InputStreamHostPull, &[OhosValue::Unit]) {
        Err(error) => assert_eq!(error, OhosEngineError::InvalidValue { expected: "stream ID" }),
        Ok(_) => panic!("a unit is no stream"),
    }
    let pull = session.invoke_async(2, vec![OhosValue::InputStream(4)]).unwrap();
    assert_eq!(async_request(&pull), Ok(HostRequest::PullInputStream(4)));
}
