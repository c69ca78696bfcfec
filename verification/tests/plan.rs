use napi_ohos_uniffi_engine::error::OhosEngineError;
use napi_ohos_uniffi_engine::family::{
    AsyncKind, CallbackContract, CallbackReentrancy, CallbackRetention, CallbackThreading,
    CallbackUseSite, ClosePolicy, DeadlineAction, FamilyOperation, FamilyOperationTarget,
    FamilyPlan, OperationKind, ReceiverBinding, ResourceBinding, ResourceKind, ResourceOwnership,
    ResultResource, StreamDirection, StreamUseSite, ValuePath, ValuePathSegment,
};
use napi_ohos_uniffi_engine::plan::{
    OhosArgumentBinding, OhosArgumentPlan, OhosBridgePlan, OhosErrorBinding, OhosOperationPlan,
    OhosOperationTarget, OhosReceiverPlan, OhosResourceHook, OhosResourceHooks, OhosReturnBinding,
};

fn family_operation(id: u32, argument_count: usize) -> FamilyOperation {
    FamilyOperation {
        id,
        kind: OperationKind::Function,
        async_kind: AsyncKind::Sync,
        fallible: false,
        argument_count,
        target: FamilyOperationTarget::Native,
        receiver: None,
        result_resources: Vec::new(),
        callbacks: Vec::new(),
        streams: Vec::new(),
    }
}

fn family(operations: Vec<FamilyOperation>) -> FamilyPlan {
    FamilyPlan::new(ClosePolicy { grace_ms: 10, on_deadline: DeadlineAction::Detach }, operations)
}

fn direct() -> OhosArgumentBinding {
    OhosArgumentBinding::Direct { carrier_type: "u32".to_string() }
}

fn lower_with_host() -> OhosArgumentBinding {
    OhosArgumentBinding::LowerWithHost {
        carrier_type: "Carrier".to_string(),
        lower: "lower".to_string(),
    }
}

fn callback_proxy() -> OhosArgumentBinding {
    OhosArgumentBinding::CallbackProxy {
        rust_type: "Callback".to_string(),
        build: "build".to_string(),
    }
}

fn stream_proxy() -> OhosArgumentBinding {
    OhosArgumentBinding::InputStreamProxy {
        rust_type: "Stream".to_string(),
        build: "build".to_string(),
    }
}

fn object_lease(ownership: ResourceOwnership) -> OhosArgumentBinding {
    OhosArgumentBinding::ObjectLease {
        carrier_type: "Handle".to_string(),
        lower: "lower".to_string(),
        ownership,
    }
}

fn rust_operation(id: u32, bindings: Vec<OhosArgumentBinding>) -> OhosOperationPlan {
    let mut arguments = Vec::new();
    for binding in bindings {
        arguments.push(OhosArgumentPlan { name: format!("arg{}", arguments.len()), binding });
    }
    OhosOperationPlan {
        operation_id: id,
        target: OhosOperationTarget::Native { call: "call".to_string() },
        receiver: None,
        arguments,
        return_binding: OhosReturnBinding::Unit,
        error_binding: OhosErrorBinding::Infallible,
    }
}

fn receiver(binding: OhosArgumentBinding) -> Option<OhosReceiverPlan> {
    Some(OhosReceiverPlan { name: "this".to_string(), binding })
}

fn path(segments: Vec<ValuePathSegment>) -> ValuePath {
    ValuePath { segments, notation: "path".to_string() }
}

fn callback_at(segments: Vec<ValuePathSegment>) -> CallbackUseSite {
    CallbackUseSite {
        operation_id: 0,
        callback_type_id: 1,
        path: path(segments),
        contract: CallbackContract {
            retention: CallbackRetention::Scoped,
            threading: CallbackThreading::CallingThread,
            reentrancy: CallbackReentrancy::Allowed,
        },
    }
}

fn stream_at(segments: Vec<ValuePathSegment>, direction: StreamDirection) -> StreamUseSite {
    StreamUseSite { operation_id: 0, use_site_id: 0, path: path(segments), direction }
}

fn fault(operation: FamilyOperation, rust: OhosOperationPlan) -> Option<OhosEngineError> {
    OhosBridgePlan::build_with_resource_hooks(&family(vec![operation]), vec![rust], all_hooks())
        .err()
}

fn hook() -> Option<OhosResourceHook> {
    Some(OhosResourceHook { call: "hook".to_string(), carrier_type: "Handle".to_string() })
}

fn all_hooks() -> OhosResourceHooks {
    OhosResourceHooks {
        release_object: hook(),
        cancel_output_stream: hook(),
        release_output_stream: hook(),
    }
}

#[test]
fn plans_follow_the_order_of_the_family() {
    let plan = OhosBridgePlan::build(
        &family(vec![family_operation(5, 0), family_operation(2, 1)]),
        vec![rust_operation(2, vec![direct()]), rust_operation(5, Vec::new())],
    )
    .unwrap();
    let ids: Vec<u32> = plan.operations().iter().map(|operation| operation.operation_id).collect();
    assert_eq!(ids, vec![5, 2]);
    assert_eq!(plan.resource_hooks(), &OhosResourceHooks::default());
}

#[test]
fn operations_are_matched_by_number() {
    let one = family(vec![family_operation(0, 0)]);
    assert_eq!(
        OhosBridgePlan::build(
            &one,
            vec![rust_operation(0, Vec::new()), rust_operation(0, Vec::new())]
        )
        .unwrap_err(),
        OhosEngineError::DuplicateRustOperation { id: 0 }
    );
    assert_eq!(
        OhosBridgePlan::build(&one, Vec::new()).unwrap_err(),
        OhosEngineError::OperationCount { expected: 1, actual: 0 }
    );
    assert_eq!(
        OhosBridgePlan::build(&one, vec![rust_operation(3, Vec::new())]).unwrap_err(),
        OhosEngineError::MissingRustOperation { id: 0 }
    );
    assert_eq!(
        fault(family_operation(0, 2), rust_operation(0, vec![direct()])),
        Some(OhosEngineError::ArgumentCount { operation_id: 0, expected: 2, actual: 1 })
    );
}

#[test]
fn targets_have_to_agree() {
    let mut rust = rust_operation(0, Vec::new());
    rust.target = OhosOperationTarget::CallbackHost;
    assert_eq!(
        fault(family_operation(0, 0), rust),
        Some(OhosEngineError::InvalidOperationTarget {
            operation_id: 0,
            kind: OperationKind::Function
        })
    );
    let mut pull = family_operation(0, 1);
    pull.target = FamilyOperationTarget::InputStreamHostPull;
    let mut rust = rust_operation(0, Vec::new());
    rust.target = OhosOperationTarget::InputStreamHostPull;
    assert_eq!(fault(pull.clone(), rust.clone()), None);
    rust.arguments.push(OhosArgumentPlan { name: "x".to_string(), binding: direct() });
    assert_eq!(
        fault(pull.clone(), rust.clone()),
        Some(OhosEngineError::HostOperationHasRustBindings { operation_id: 0 })
    );
    rust.arguments.clear();
    pull.callbacks.push(callback_at(vec![ValuePathSegment::Argument(0)]));
    assert_eq!(
        fault(pull, rust),
        Some(OhosEngineError::HostOperationHasStructuredUseSites { operation_id: 0 })
    );
}

#[test]
fn receivers_have_to_agree() {
    let mut method = family_operation(0, 0);
    method.receiver = Some(ReceiverBinding::Value);
    let mut rust = rust_operation(0, Vec::new());
    assert_eq!(
        fault(method.clone(), rust.clone()),
        Some(OhosEngineError::MissingReceiver { operation_id: 0 })
    );
    rust.receiver = receiver(direct());
    assert_eq!(fault(method.clone(), rust.clone()), None);
    assert_eq!(
        fault(family_operation(0, 0), rust.clone()),
        Some(OhosEngineError::UnexpectedReceiver { operation_id: 0 })
    );
    rust.receiver = receiver(object_lease(ResourceOwnership::Borrowed));
    assert_eq!(
        fault(method.clone(), rust.clone()),
        Some(OhosEngineError::InvalidValueReceiver { operation_id: 0 })
    );
    method.receiver = Some(ReceiverBinding::Resource(ResourceBinding {
        kind: ResourceKind::Object,
        ownership: ResourceOwnership::Borrowed,
    }));
    assert_eq!(fault(method.clone(), rust.clone()), None);
    rust.receiver = receiver(object_lease(ResourceOwnership::Owned));
    assert_eq!(
        fault(method, rust),
        Some(OhosEngineError::InvalidResourceReceiver { operation_id: 0 })
    );
}

#[test]
fn resource_results_are_leased() {
    let mut start = family_operation(0, 0);
    start.result_resources.push(ResultResource {
        path: path(vec![ValuePathSegment::Return]),
        binding: ResourceBinding {
            kind: ResourceKind::OutputStream,
            ownership: ResourceOwnership::Owned,
        },
    });
    let mut rust = rust_operation(0, Vec::new());
    assert_eq!(
        fault(start.clone(), rust.clone()),
        Some(OhosEngineError::InvalidResourceResult { operation_id: 0 })
    );
    rust.return_binding = OhosReturnBinding::OutputStreamLease {
        carrier_type: "Handle".to_string(),
        lift: "lift".to_string(),
    };
    assert_eq!(fault(start, rust.clone()), None);
    assert_eq!(
        fault(family_operation(0, 0), rust),
        Some(OhosEngineError::InvalidResourceResult { operation_id: 0 })
    );
}

#[test]
fn structured_arguments_need_structured_bindings() {
    let structured = |argument: usize, role: &'static str| {
        Some(OhosEngineError::InvalidStructuredBinding { operation_id: 0, argument, role })
    };
    let mut direct_callback = family_operation(0, 1);
    direct_callback.callbacks.push(callback_at(vec![ValuePathSegment::Argument(0)]));
    assert_eq!(
        fault(direct_callback.clone(), rust_operation(0, vec![direct()])),
        structured(0, "callback")
    );
    assert_eq!(fault(direct_callback, rust_operation(0, vec![callback_proxy()])), None);
    assert_eq!(
        fault(family_operation(0, 2), rust_operation(0, vec![direct(), callback_proxy()])),
        structured(1, "callback")
    );

    let mut direct_stream = family_operation(0, 1);
    direct_stream
        .streams
        .push(stream_at(vec![ValuePathSegment::Argument(0)], StreamDirection::Input));
    assert_eq!(
        fault(direct_stream.clone(), rust_operation(0, vec![direct()])),
        structured(0, "input stream")
    );
    assert_eq!(fault(direct_stream, rust_operation(0, vec![stream_proxy()])), None);

    let inside = vec![ValuePathSegment::Argument(0), ValuePathSegment::Optional];
    let mut nested_callback = family_operation(0, 1);
    nested_callback.callbacks.push(callback_at(inside.clone()));
    assert_eq!(
        fault(nested_callback.clone(), rust_operation(0, vec![direct()])),
        structured(0, "callback")
    );
    assert_eq!(fault(nested_callback, rust_operation(0, vec![lower_with_host()])), None);
    let mut nested_stream = family_operation(0, 1);
    nested_stream.streams.push(stream_at(inside.clone(), StreamDirection::Input));
    assert_eq!(
        fault(nested_stream, rust_operation(0, vec![direct()])),
        structured(0, "input stream")
    );
    let mut nested_output = family_operation(0, 1);
    nested_output.streams.push(stream_at(inside, StreamDirection::Output));
    assert_eq!(
        fault(nested_output, rust_operation(0, vec![lower_with_host()])),
        structured(0, "callback or input stream")
    );
}

#[test]
fn returned_callbacks_are_leased() {
    let mut returning = family_operation(0, 0);
    returning.callbacks.push(callback_at(vec![ValuePathSegment::Return]));
    let expected = "a direct callback lease matching the canonical return use-site";
    assert_eq!(
        fault(returning.clone(), rust_operation(0, Vec::new())),
        Some(OhosEngineError::InvalidReturnBinding { operation_id: 0, expected })
    );
    let mut rust = rust_operation(0, Vec::new());
    rust.return_binding = OhosReturnBinding::CallbackLease {
        carrier_type: "u32".to_string(),
        lift: "lift".to_string(),
    };
    assert_eq!(fault(returning, rust), None);
}

#[test]
fn error_mappers_belong_to_fallible_operations() {
    let mut fallible = family_operation(0, 0);
    fallible.fallible = true;
    assert_eq!(
        fault(fallible.clone(), rust_operation(0, Vec::new())),
        Some(OhosEngineError::MissingErrorDescriptor { operation_id: 0 })
    );
    let mut rust = rust_operation(0, Vec::new());
    rust.error_binding = OhosErrorBinding::Descriptor { map: "map".to_string() };
    assert_eq!(fault(fallible, rust.clone()), None);
    assert_eq!(
        fault(family_operation(0, 0), rust),
        Some(OhosEngineError::UnexpectedErrorDescriptor { operation_id: 0 })
    );
}

#[test]
fn argument_names_are_distinct() {
    let mut rust = rust_operation(0, vec![direct(), direct()]);
    rust.arguments[1].name = "arg0".to_string();
    assert_eq!(
        fault(family_operation(0, 2), rust),
        Some(OhosEngineError::DuplicateRustArgument {
            operation_id: 0,
            name: "arg0".to_string()
        })
    );
    let mut method = family_operation(0, 1);
    method.receiver = Some(ReceiverBinding::Value);
    let mut rust = rust_operation(0, vec![direct()]);
    rust.receiver = receiver(direct());
    rust.arguments[0].name = "this".to_string();
    assert_eq!(
        fault(method, rust),
        Some(OhosEngineError::DuplicateRustArgument {
            operation_id: 0,
            name: "this".to_string()
        })
    );
}

#[test]
fn output_streams_need_both_hooks() {
    let mut streaming = family_operation(0, 0);
    streaming
        .streams
        .push(stream_at(vec![ValuePathSegment::StreamItem], StreamDirection::Output));
    let build = |hooks: OhosResourceHooks| {
        OhosBridgePlan::build_with_resource_hooks(
            &family(vec![streaming.clone()]),
            vec![rust_operation(0, Vec::new())],
            hooks,
        )
        .err()
    };
    assert_eq!(
        build(OhosResourceHooks::default()),
        Some(OhosEngineError::MissingResourceHook { role: "output-stream cancel" })
    );
    assert_eq!(
        build(OhosResourceHooks { cancel_output_stream: hook(), ..OhosResourceHooks::default() }),
        Some(OhosEngineError::MissingResourceHook { role: "output-stream release" })
    );
    assert_eq!(
        build(OhosResourceHooks {
            cancel_output_stream: hook(),
            release_output_stream: hook(),
            ..OhosResourceHooks::default()
        }),
        None
    );
}

#[test]
fn bindings_name_their_types() {
    assert_eq!(direct().carrier_type(), "u32");
    assert_eq!(direct().rust_parameter_type(), "u32");
    assert_eq!(callback_proxy().carrier_type(), "u32");
    assert_eq!(callback_proxy().rust_parameter_type(), "std::sync::Arc<dyn Callback>");
    assert_eq!(stream_proxy().carrier_type(), "u32");
    assert_eq!(stream_proxy().rust_parameter_type(), "Stream");
    assert_eq!(
        OhosArgumentBinding::I64BigInt.carrier_type(),
        "napi_ohos::bindgen_prelude::BigInt"
    );
    assert_eq!(lower_with_host().rust_parameter_type(), "Carrier");
    assert_eq!(OhosReturnBinding::Unit.carrier_type(), "()");
    assert_eq!(
        OhosReturnBinding::U64BigInt.carrier_type(),
        "napi_ohos::bindgen_prelude::BigInt"
    );
}
