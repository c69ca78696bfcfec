use napi_ohos_uniffi_engine::ast::{NapiEnumValue, NapiFn, NapiFnArgKind};
use napi_ohos_uniffi_engine::codegen::body::generate_operation;
use napi_ohos_uniffi_engine::codegen::descriptor::session_descriptor;
use napi_ohos_uniffi_engine::codegen::entry::{operation_shape, write_path};
use napi_ohos_uniffi_engine::codegen::source::{generate_ohos_source, SourceItem};
use napi_ohos_uniffi_engine::error::OhosEngineError;
use napi_ohos_uniffi_engine::family::{
    AsyncKind, CallbackContract, CallbackReentrancy, CallbackRetention, CallbackThreading,
    CallbackUseSite, ClosePolicy, DeadlineAction, FamilyOperation, FamilyOperationTarget,
    FamilyPlan, OperationKind, ReceiverBinding, ResourceBinding, ResourceKind, ResourceOwnership,
    ResultResource, StreamDirection, StreamUseSite, ValuePath, ValuePathSegment,
};
use napi_ohos_uniffi_engine::plan::{
    OhosArgumentBinding, OhosArgumentPlan, OhosBridgePlan, OhosErrorBinding, OhosOperationPlan,
    OhosOperationTarget, OhosReceiverPlan, OhosResourceHook, OhosResourceHooks, OhosReturnBinding,
};
use std::str::FromStr;

/// The tokens of Rust code, without white space.
fn tokens(code: &str) -> String {
    let stream = proc_macro2::TokenStream::from_str(code).unwrap();
    stream.to_string().split_whitespace().collect()
}

fn family_operation(async_kind: AsyncKind, argument_count: usize) -> FamilyOperation {
    FamilyOperation {
        id: 0,
        kind: OperationKind::Function,
        async_kind,
        fallible: false,
        argument_count,
        target: FamilyOperationTarget::Native,
        receiver: None,
        result_resources: Vec::new(),
        callbacks: Vec::new(),
        streams: Vec::new(),
    }
}

fn plan(arguments: Vec<OhosArgumentPlan>, return_binding: OhosReturnBinding) -> OhosOperationPlan {
    OhosOperationPlan {
        operation_id: 0,
        target: OhosOperationTarget::Native { call: "fixture::call".to_string() },
        receiver: None,
        arguments,
        return_binding,
        error_binding: OhosErrorBinding::Infallible,
    }
}

fn argument(name: &str, binding: OhosArgumentBinding) -> OhosArgumentPlan {
    OhosArgumentPlan { name: name.to_string(), binding }
}

fn direct(carrier_type: &str) -> OhosArgumentBinding {
    OhosArgumentBinding::Direct { carrier_type: carrier_type.to_string() }
}

fn returning(carrier_type: &str) -> OhosReturnBinding {
    OhosReturnBinding::Direct { carrier_type: carrier_type.to_string() }
}

fn path(segments: Vec<ValuePathSegment>) -> ValuePath {
    ValuePath { segments, notation: "the path".to_string() }
}

fn callback_at(
    segments: Vec<ValuePathSegment>,
    callback_type_id: u32,
    retention: CallbackRetention,
) -> CallbackUseSite {
    CallbackUseSite {
        operation_id: 0,
        callback_type_id,
        path: path(segments),
        contract: CallbackContract {
            retention,
            threading: CallbackThreading::MayCrossThread,
            reentrancy: CallbackReentrancy::Forbidden,
        },
    }
}

fn stream_at(segments: Vec<ValuePathSegment>, direction: StreamDirection) -> StreamUseSite {
    StreamUseSite { operation_id: 0, use_site_id: 4, path: path(segments), direction }
}

fn patterns(function: &NapiFn) -> Vec<String> {
    let mut out = Vec::new();
    for argument in &function.args {
        match &argument.kind {
            NapiFnArgKind::PatType(pattern) => out.push(pattern.clone()),
            NapiFnArgKind::Callback(_) => panic!("an ordinary argument was expected"),
        }
    }
    out
}

#[test]
fn plain_operations_call_their_function() {
    let family = family_operation(AsyncKind::Sync, 2);
    let operation =
        plan(vec![argument("a", direct("u32")), argument("b", direct("String"))], returning("u32"));
    let generated = generate_operation(&operation, &family).unwrap();
    assert_eq!(
        tokens(&generated.body),
        tokens(
            "#[doc(hidden)]
             #[allow(clippy::all)]
             fn __uniffi_raw_operation_0(a: u32, b: String)
                 -> napi_ohos_uniffi_engine::OhosCallResult<u32> {
               let __uniffi_callback_transfers =
                 napi_ohos_uniffi_engine::SessionCallbackTransfers::empty();
               let __uniffi_value = fixture::call(a, b);
               napi_ohos_uniffi_engine::OhosCallResult::Value(__uniffi_value)
             }"
        )
    );
    assert_eq!(
        generated.callback_factory,
        "_napi_rs_internal_register___uniffi_raw_operation_0"
    );
    let function = generated.function;
    assert_eq!(function.name, "__uniffi_raw_operation_0");
    assert_eq!(function.js_name, "__uniffi_raw_operation_0");
    assert_eq!(function.register_name, "__napi_register_uniffi_raw_operation_0");
    assert_eq!(patterns(&function), vec!["a: u32", "b: String"]);
    assert_eq!(function.ret.unwrap(), "napi_ohos_uniffi_engine::OhosCallResult<u32>");
    assert!(function.no_export && function.strict && function.skip_typescript);
    assert!(!function.is_ret_result && !function.is_async);
    assert_eq!(function.pre_call, "");
    assert_eq!(function.leading_wrapper_args, 0);
}

#[test]
fn plain_operations_lower_lift_and_report() {
    let mut family = family_operation(AsyncKind::Async, 2);
    family.fallible = true;
    let mut operation = plan(
        vec![
            argument("a", OhosArgumentBinding::U64BigInt),
            argument(
                "b",
                OhosArgumentBinding::LowerWith {
                    carrier_type: "Carrier".to_string(),
                    lower: "fixture::lower".to_string(),
                },
            ),
        ],
        OhosReturnBinding::I64BigInt,
    );
    operation.error_binding = OhosErrorBinding::Descriptor { map: "fixture::map".to_string() };
    let generated = generate_operation(&operation, &family).unwrap();
    assert_eq!(
        tokens(&generated.body),
        tokens(
            "#[doc(hidden)]
             #[allow(clippy::all)]
             async fn __uniffi_raw_operation_0(
               a: napi_ohos::bindgen_prelude::BigInt,
               b: Carrier
             ) -> napi_ohos_uniffi_engine::OhosCallResult<napi_ohos::bindgen_prelude::BigInt> {
               let __uniffi_callback_transfers =
                 napi_ohos_uniffi_engine::SessionCallbackTransfers::empty();
               let (__uniffi_negative, __uniffi_value, __uniffi_lossless) = a.get_u64();
               let a = match napi_ohos_uniffi_engine::napi_family_core::require_lossless_u64(
                 __uniffi_negative, __uniffi_value, __uniffi_lossless
               ) {
                 Ok(value) => value,
                 Err(error) => {
                   return napi_ohos_uniffi_engine::OhosCallResult::Error(
                     napi_ohos_uniffi_engine::BridgeErrorDescriptor::validation(error.to_string())
                   );
                 },
               };
               let b = match fixture::lower(b) {
                 Ok(value) => value,
                 Err(error) => {
                   return napi_ohos_uniffi_engine::OhosCallResult::Error(error);
                 },
               };
               let __uniffi_value = match fixture::call(a, b).await {
                 Ok(value) => value,
                 Err(error) => return napi_ohos_uniffi_engine::OhosCallResult::Error(
                   fixture::map(error)
                 ),
               };
               napi_ohos_uniffi_engine::OhosCallResult::Value({
                 let parts = napi_ohos_uniffi_engine::napi_family_core::BigIntWords::from(
                   __uniffi_value
                 );
                 napi_ohos::bindgen_prelude::BigInt {
                   sign_bit: parts.negative,
                   words: parts.words,
                 }
               })
             }"
        )
    );
    assert!(generated.function.is_async);
}

/// An asynchronous method with a value receiver that is lowered by code, two
/// callbacks, an input stream and an argument with a callback inside.
fn busy_operation() -> (FamilyOperation, OhosOperationPlan) {
    let mut family = family_operation(AsyncKind::Async, 4);
    family.receiver = Some(ReceiverBinding::Value);
    family.callbacks = vec![
        callback_at(
            vec![ValuePathSegment::Argument(3), ValuePathSegment::Field("on\"e".to_string())],
            5,
            CallbackRetention::Scoped,
        ),
        callback_at(vec![ValuePathSegment::Argument(0)], 7, CallbackRetention::Retained),
        callback_at(vec![ValuePathSegment::Argument(1)], 8, CallbackRetention::Scoped),
    ];
    family.streams = vec![
        stream_at(vec![ValuePathSegment::Argument(9)], StreamDirection::Output),
        stream_at(vec![ValuePathSegment::Argument(2)], StreamDirection::Input),
    ];
    let mut operation = plan(
        vec![
            argument(
                "a",
                OhosArgumentBinding::CallbackProxy {
                    rust_type: "Callback".to_string(),
                    build: "fixture::retained".to_string(),
                },
            ),
            argument(
                "b",
                OhosArgumentBinding::CallbackProxy {
                    rust_type: "Callback".to_string(),
                    build: "fixture::scoped".to_string(),
                },
            ),
            argument(
                "c",
                OhosArgumentBinding::InputStreamProxy {
                    rust_type: "Stream".to_string(),
                    build: "fixture::stream".to_string(),
                },
            ),
            argument(
                "d",
                OhosArgumentBinding::LowerWithHost {
                    carrier_type: "Carrier".to_string(),
                    lower: "fixture::lower".to_string(),
                },
            ),
        ],
        OhosReturnBinding::LiftWith {
            carrier_type: "Lifted".to_string(),
            lift: "fixture::lift".to_string(),
        },
    );
    operation.receiver = Some(OhosReceiverPlan {
        name: "this".to_string(),
        binding: OhosArgumentBinding::I64BigInt,
    });
    (family, operation)
}

#[test]
fn manual_entries_spawn_their_future() {
    let (family, operation) = busy_operation();
    let shape = operation_shape(&family, &operation);
    assert!(shape.requires_host && shape.callback_transfer);
    assert!(shape.asynchronous && shape.manual_async_entry);
    let generated = generate_operation(&operation, &family).unwrap();
    assert_eq!(
        tokens(&generated.body),
        tokens(
            "#[doc(hidden)]
             #[allow(clippy::all)]
             fn __uniffi_raw_operation_0(
               __uniffi_host: napi_ohos::bindgen_prelude::Object<'static>,
               __uniffi_env: &napi_ohos::Env,
               __uniffi_session_generation: u32,
               __uniffi_callback_transfer: u32,
               this: napi_ohos::bindgen_prelude::BigInt,
               a: std::sync::Arc<dyn Callback>,
               b: std::sync::Arc<dyn Callback>,
               c: Stream,
               d: Carrier
             ) -> napi_ohos::Result<napi_ohos::bindgen_prelude::sys::napi_value> {
               let __uniffi_callback_transfers =
                 napi_ohos_uniffi_engine::SessionCallbackTransfers::empty();
               let (__uniffi_value, __uniffi_lossless) = this.get_i64();
               let this = match napi_ohos_uniffi_engine::napi_family_core::require_lossless_i64(
                 __uniffi_value, __uniffi_lossless
               ) {
                 Ok(value) => value,
                 Err(error) => {
                   let __uniffi_error_promise = napi_ohos::bindgen_prelude::PromiseRaw::<
                     napi_ohos_uniffi_engine::OhosCallResult<Lifted>
                   >::resolve(
                     __uniffi_env,
                     napi_ohos_uniffi_engine::OhosCallResult::Error(
                       napi_ohos_uniffi_engine::BridgeErrorDescriptor::validation(
                         error.to_string()
                       )
                     ),
                   )?;
                   return Ok(
                     napi_ohos::bindgen_prelude::JsValue::raw(&__uniffi_error_promise)
                   );
                 },
               };
               let __uniffi_future = async move {
                 let __uniffi_value = fixture::call(this, a, b, c, d).await;
                 Ok::<napi_ohos_uniffi_engine::OhosCallResult<Lifted>, napi_ohos::Error>(
                   napi_ohos_uniffi_engine::OhosCallResult::Value({
                     match fixture::lift(__uniffi_value) {
                       Ok(value) => value,
                       Err(error) => return Ok(
                         napi_ohos_uniffi_engine::OhosCallResult::Error(error)
                       ),
                     }
                   })
                 )
               };
               let __uniffi_promise = __uniffi_env.spawn_future(__uniffi_future)?;
               Ok(napi_ohos::bindgen_prelude::JsValue::raw(&__uniffi_promise))
             }"
        )
    );
    let function = generated.function;
    assert!(!function.is_async && function.is_ret_result);
    assert_eq!(function.ret.as_deref(), Some("napi_ohos::bindgen_prelude::sys::napi_value"));
    assert_eq!(function.leading_wrapper_args, 0);
    assert_eq!(
        patterns(&function),
        vec![
            "__uniffi_host: napi_ohos::bindgen_prelude::Object<'static>",
            "__uniffi_env: &napi_ohos::Env",
            "\"__uniffi_session_generation\": u32",
            "\"__uniffi_callback_transfer\": u32",
            "this: napi_ohos::bindgen_prelude::BigInt",
            "a: u32",
            "b: u32",
            "c: u32",
            "d: Carrier",
        ]
    );
}

#[test]
fn proxies_are_built_before_the_call() {
    let (family, operation) = busy_operation();
    let generated = generate_operation(&operation, &family).unwrap();
    assert_eq!(
        tokens(&generated.function.pre_call),
        tokens(
            "let __uniffi_callback_transfers =
               napi_ohos_uniffi_engine::take_session_callback_transfers(arg1, arg2,)?;
             let __uniffi_callback_invoker = __uniffi_callback_transfers
               .invoker()
               .map_err(|error| napi_ohos::Error::new(
                 napi_ohos::Status::GenericFailure,
                 error.to_string(),
               ))?;
             let __uniffi_callback_lease = __uniffi_callback_transfers
               .lease(1usize, 0)
               .map_err(|error| napi_ohos::Error::new(
                 napi_ohos::Status::GenericFailure,
                 error.to_string(),
               ))?;
             let arg4 = fixture::retained(
               &arg0,
               7u32,
               arg4,
               napi_ohos_uniffi_engine::SessionCallbackArgument {
                 path: vec![napi_ohos_uniffi_engine::SessionValuePathSegment::Argument(0u32)],
                 callback_type_id: 7u32,
                 retention: napi_ohos_uniffi_engine::SessionCallbackRetention::Retained,
                 threading: napi_ohos_uniffi_engine::SessionCallbackThreading::MayCrossThread,
                 reentrancy: napi_ohos_uniffi_engine::SessionCallbackReentrancy::Forbidden,
               },
               __uniffi_callback_invoker.clone(),
               __uniffi_callback_lease,
             )?;
             let arg5 = fixture::scoped(
               &arg0,
               8u32,
               arg5,
               napi_ohos_uniffi_engine::SessionCallbackArgument {
                 path: vec![napi_ohos_uniffi_engine::SessionValuePathSegment::Argument(1u32)],
                 callback_type_id: 8u32,
                 retention: napi_ohos_uniffi_engine::SessionCallbackRetention::Scoped,
                 threading: napi_ohos_uniffi_engine::SessionCallbackThreading::MayCrossThread,
                 reentrancy: napi_ohos_uniffi_engine::SessionCallbackReentrancy::Forbidden,
               },
               __uniffi_callback_invoker.clone(),
             )?;
             let arg6 = fixture::stream(&arg0, arg6)?;
             let arg7 = fixture::lower(&arg0, arg7, &__uniffi_callback_transfers,)
               .map_err(|error| napi_ohos::Error::new(
                 napi_ohos::Status::GenericFailure,
                 error.to_string(),
               ))?;"
        )
    );
}

#[test]
fn synchronous_wrappers_keep_host_and_transfer_to_themselves() {
    let mut family = family_operation(AsyncKind::Sync, 1);
    family.callbacks =
        vec![callback_at(vec![ValuePathSegment::Argument(0)], 7, CallbackRetention::Scoped)];
    let operation = plan(
        vec![argument(
            "a",
            OhosArgumentBinding::CallbackProxy {
                rust_type: "Callback".to_string(),
                build: "fixture::build".to_string(),
            },
        )],
        OhosReturnBinding::Unit,
    );
    let function = generate_operation(&operation, &family).unwrap().function;
    assert_eq!(function.leading_wrapper_args, 3);
    assert_eq!(function.args.len(), 4);
    assert!(function.pre_call.contains("let arg3 = fixture::build(&arg0, 7u32, arg3"));

    let mut nested = family_operation(AsyncKind::Sync, 1);
    nested.streams = vec![stream_at(
        vec![ValuePathSegment::Argument(0), ValuePathSegment::Optional],
        StreamDirection::Input,
    )];
    let lowered = plan(
        vec![argument(
            "a",
            OhosArgumentBinding::LowerWithHost {
                carrier_type: "Carrier".to_string(),
                lower: "fixture::lower".to_string(),
            },
        )],
        OhosReturnBinding::Unit,
    );
    let function = generate_operation(&lowered, &nested).unwrap().function;
    assert_eq!(function.leading_wrapper_args, 1);
    assert_eq!(
        tokens(&function.pre_call),
        tokens(
            "let __uniffi_callback_transfers =
               napi_ohos_uniffi_engine::SessionCallbackTransfers::empty();
             let arg1 = fixture::lower(&arg0, arg1, &__uniffi_callback_transfers,)
               .map_err(|error| napi_ohos::Error::new(
                 napi_ohos::Status::GenericFailure,
                 error.to_string(),
               ))?;"
        )
    );
}

#[test]
fn operations_that_cannot_be_generated_say_why() {
    let family = family_operation(AsyncKind::Sync, 1);
    let mut host = plan(Vec::new(), OhosReturnBinding::Unit);
    host.target = OhosOperationTarget::CallbackHost;
    assert_eq!(
        generate_operation(&host, &family).unwrap_err(),
        OhosEngineError::InvalidOperationTarget {
            operation_id: 0,
            kind: OperationKind::Function
        }
    );
    let proxy = OhosArgumentBinding::CallbackProxy {
        rust_type: "Callback".to_string(),
        build: "fixture::build".to_string(),
    };
    let stream = OhosArgumentBinding::InputStreamProxy {
        rust_type: "Stream".to_string(),
        build: "fixture::build".to_string(),
    };
    let mut received = plan(Vec::new(), OhosReturnBinding::Unit);
    received.receiver =
        Some(OhosReceiverPlan { name: "this".to_string(), binding: proxy.clone() });
    assert_eq!(
        generate_operation(&received, &family).unwrap_err(),
        OhosEngineError::InvalidResourceReceiver { operation_id: 0 }
    );
    let missing = |argument: usize, role: &'static str| {
        OhosEngineError::MissingStructuredUseSite { operation_id: 0, argument, role }
    };
    let unnamed = plan(vec![argument("a", proxy)], OhosReturnBinding::Unit);
    assert_eq!(generate_operation(&unnamed, &family).unwrap_err(), missing(0, "callback"));
    let unnamed =
        plan(vec![argument("a", direct("u32")), argument("b", stream)], OhosReturnBinding::Unit);
    assert_eq!(generate_operation(&unnamed, &family).unwrap_err(), missing(1, "input stream"));
}

#[test]
fn descriptors_tell_the_session_everything() {
    let (mut family, operation) = busy_operation();
    family.result_resources = vec![ResultResource {
        path: path(vec![ValuePathSegment::Return, ValuePathSegment::MapValue]),
        binding: ResourceBinding {
            kind: ResourceKind::Object,
            ownership: ResourceOwnership::ByArc,
        },
    }];
    let text = session_descriptor(&family, &operation, Some(&"factory".to_string())).unwrap();
    assert_eq!(
        tokens(&text),
        tokens(
            "napi_ohos_uniffi_engine::SessionOperationDescriptor {
               dispatch: napi_ohos_uniffi_engine::SessionOperationDispatch::NativeAsync,
               callback: Some(unsafe { factory(env.raw())? }),
               native_call: napi_ohos_uniffi_engine::SessionNativeCall::HostAndArguments,
               receiver: Some(napi_ohos_uniffi_engine::SessionReceiver::Value),
               result_resources: vec![
                 napi_ohos_uniffi_engine::SessionResultResourceUseSite {
                   path: vec![
                     napi_ohos_uniffi_engine::SessionValuePathSegment::Return,
                     napi_ohos_uniffi_engine::SessionValuePathSegment::MapValue
                   ],
                   kind: napi_ohos_uniffi_engine::SessionResourceReceiver::Object,
                   ownership: napi_ohos_uniffi_engine::SessionResourceOwnership::ByArc,
                 }
               ],
               callback_transfer: true,
               callback_arguments: vec![
                 napi_ohos_uniffi_engine::SessionCallbackArgument {
                   path: vec![
                     napi_ohos_uniffi_engine::SessionValuePathSegment::Argument(3u32),
                     napi_ohos_uniffi_engine::SessionValuePathSegment::Field(
                       \"on\\\"e\".to_owned()
                     )
                   ],
                   callback_type_id: 5u32,
                   retention: napi_ohos_uniffi_engine::SessionCallbackRetention::Scoped,
                   threading: napi_ohos_uniffi_engine::SessionCallbackThreading::MayCrossThread,
                   reentrancy: napi_ohos_uniffi_engine::SessionCallbackReentrancy::Forbidden,
                 },
                 napi_ohos_uniffi_engine::SessionCallbackArgument {
                   path: vec![napi_ohos_uniffi_engine::SessionValuePathSegment::Argument(0u32)],
                   callback_type_id: 7u32,
                   retention: napi_ohos_uniffi_engine::SessionCallbackRetention::Retained,
                   threading: napi_ohos_uniffi_engine::SessionCallbackThreading::MayCrossThread,
                   reentrancy: napi_ohos_uniffi_engine::SessionCallbackReentrancy::Forbidden,
                 },
                 napi_ohos_uniffi_engine::SessionCallbackArgument {
                   path: vec![napi_ohos_uniffi_engine::SessionValuePathSegment::Argument(1u32)],
                   callback_type_id: 8u32,
                   retention: napi_ohos_uniffi_engine::SessionCallbackRetention::Scoped,
                   threading: napi_ohos_uniffi_engine::SessionCallbackThreading::MayCrossThread,
                   reentrancy: napi_ohos_uniffi_engine::SessionCallbackReentrancy::Forbidden,
                 }
               ],
               stream_arguments: vec![
                 napi_ohos_uniffi_engine::SessionStreamArgument {
                   path: vec![napi_ohos_uniffi_engine::SessionValuePathSegment::Argument(2u32)],
                   use_site_id: 4u32,
                   direction: napi_ohos_uniffi_engine::SessionStreamDirection::Input,
                 }
               ],
             }"
        )
    );
}

#[test]
fn descriptors_of_host_operations_have_no_callback() {
    let mut method = family_operation(AsyncKind::Async, 1);
    method.target = FamilyOperationTarget::CallbackHost { callback_type_id: 7, method_id: 3 };
    method.fallible = true;
    method.receiver = Some(ReceiverBinding::Resource(ResourceBinding {
        kind: ResourceKind::InputStream,
        ownership: ResourceOwnership::Borrowed,
    }));
    let mut operation = plan(Vec::new(), OhosReturnBinding::Unit);
    operation.target = OhosOperationTarget::CallbackHost;
    assert_eq!(
        tokens(&session_descriptor(&method, &operation, None).unwrap()),
        tokens(
            "napi_ohos_uniffi_engine::SessionOperationDescriptor {
               dispatch: napi_ohos_uniffi_engine::SessionOperationDispatch::CallbackHostAsync {
                 callback_type_id: 7u32,
                 method_id: 3u32,
                 error_style: napi_ohos_uniffi_engine::SessionCallbackErrorStyle::Fallible,
               },
               callback: None,
               native_call: napi_ohos_uniffi_engine::SessionNativeCall::ArgumentsOnly,
               receiver: Some(napi_ohos_uniffi_engine::SessionReceiver::Resource(
                 napi_ohos_uniffi_engine::SessionResourceReceiver::InputStream
               )),
               result_resources: vec![],
               callback_transfer: false,
               callback_arguments: vec![],
               stream_arguments: vec![],
             }"
        )
    );
    let reason = |family: &FamilyOperation, callback: Option<&String>| {
        match session_descriptor(family, &operation, callback) {
            Err(OhosEngineError::Codegen(reason)) => reason,
            _ => panic!("no descriptor was expected"),
        }
    };
    let name = "factory".to_string();
    assert_eq!(reason(&method, Some(&name)), "host operation 0 has a native callback");
    let native = family_operation(AsyncKind::Sync, 0);
    assert_eq!(reason(&native, None), "native operation 0 has no callback");
    let mut pull = family_operation(AsyncKind::Sync, 0);
    pull.target = FamilyOperationTarget::InputStreamHostPull;
    assert_eq!(reason(&pull, None), "input-stream pull must be async");
    pull.target = FamilyOperationTarget::InputStreamHostCancel;
    assert_eq!(reason(&pull, None), "input-stream cancel must be async");
    let mut odd = family_operation(AsyncKind::Sync, 0);
    odd.callbacks =
        vec![callback_at(vec![ValuePathSegment::Optional], 1, CallbackRetention::Scoped)];
    assert_eq!(
        reason(&odd, Some(&name)),
        "unsupported callback path for operation 0: the path"
    );
    let mut odd = family_operation(AsyncKind::Sync, 0);
    odd.streams = vec![stream_at(vec![ValuePathSegment::Return], StreamDirection::Input)];
    assert_eq!(
        reason(&odd, Some(&name)),
        "unsupported input-stream path for operation 0: the path"
    );
}

#[test]
fn factories_hand_everything_to_the_session() {
    let mut start = family_operation(AsyncKind::Sync, 0);
    start.result_resources = vec![ResultResource {
        path: path(vec![ValuePathSegment::Return]),
        binding: ResourceBinding {
            kind: ResourceKind::OutputStream,
            ownership: ResourceOwnership::Owned,
        },
    }];
    let family = FamilyPlan::new(
        ClosePolicy { grace_ms: 5_000, on_deadline: DeadlineAction::Detach },
        vec![start],
    );
    let hook = |call: &str| {
        Some(OhosResourceHook { call: call.to_string(), carrier_type: "Handle".to_string() })
    };
    let bridge = OhosBridgePlan::build_with_resource_hooks(
        &family,
        vec![plan(
            Vec::new(),
            OhosReturnBinding::OutputStreamLease {
                carrier_type: "Handle".to_string(),
                lift: "fixture::lift".to_string(),
            },
        )],
        OhosResourceHooks {
            release_object: None,
            cancel_output_stream: hook("fixture::cancel"),
            release_output_stream: hook("fixture::release"),
        },
    )
    .unwrap();
    let generated = generate_ohos_source(&family, bridge).unwrap();
    let items = generated.source();
    assert_eq!(items.len(), 8);
    let text = |index: usize| match &items[index] {
        SourceItem::Text(text) => tokens(text),
        SourceItem::Function(_) => panic!("text was expected"),
    };
    let function = |index: usize| match &items[index] {
        SourceItem::Text(_) => panic!("a function was expected"),
        SourceItem::Function(function) => function.clone(),
    };
    assert_eq!(
        text(2),
        tokens(
            "#[doc(hidden)]
             async fn __uniffi_cancel_output_stream(handle: Handle,) -> napi_ohos::Result<()> {
               match fixture::cancel(handle).await {
                 Ok(()) => Ok(()),
                 Err(error) => Err(napi_ohos::Error::new(
                   napi_ohos::Status::GenericFailure,
                   error.to_string(),
                 )),
               }
             }"
        )
    );
    let cancel = function(3);
    assert_eq!(cancel.register_name, "__napi_register_uniffi_cancel_output_stream");
    assert!(cancel.is_async && cancel.is_ret_result && cancel.no_export);
    assert_eq!(patterns(&cancel), vec!["handle: Handle"]);
    let release = function(5);
    assert!(!release.is_async);
    assert_eq!(release.name, "__uniffi_release_output_stream");
    assert_eq!(
        text(6),
        tokens(
            "#[doc(hidden)]
             fn __uniffi_backend_factory(
               env: &napi_ohos::Env,
               host: napi_ohos::bindgen_prelude::Object<'static>,
             ) -> napi_ohos::Result<napi_ohos::bindgen_prelude::Object<'static>> {
               napi_ohos_uniffi_engine::create_backend_session(
                 env,
                 host,
                 napi_ohos_uniffi_engine::ClosePolicy {
                   grace_ms: 5000u32,
                   on_deadline: napi_ohos_uniffi_engine::DeadlineAction::Detach,
                 },
                 vec![
                   napi_ohos_uniffi_engine::SessionOperationDescriptor {
                     dispatch: napi_ohos_uniffi_engine::SessionOperationDispatch::NativeSync,
                     callback: Some(unsafe {
                       _napi_rs_internal_register___uniffi_raw_operation_0(env.raw())?
                     }),
                     native_call: napi_ohos_uniffi_engine::SessionNativeCall::ArgumentsOnly,
                     receiver: None,
                     result_resources: vec![
                       napi_ohos_uniffi_engine::SessionResultResourceUseSite {
                         path: vec![napi_ohos_uniffi_engine::SessionValuePathSegment::Return],
                         kind: napi_ohos_uniffi_engine::SessionResourceReceiver::OutputStream,
                         ownership: napi_ohos_uniffi_engine::SessionResourceOwnership::Owned,
                       }
                     ],
                     callback_transfer: false,
                     callback_arguments: vec![],
                     stream_arguments: vec![],
                   }
                 ],
                 napi_ohos_uniffi_engine::SessionResourceCallbacks {
                   release_object: None,
                   cancel_output_stream: Some(unsafe {
                     _napi_rs_internal_register___uniffi_cancel_output_stream(env.raw())?
                   }),
                   release_output_stream: Some(unsafe {
                     _napi_rs_internal_register___uniffi_release_output_stream(env.raw())?
                   }),
                 },
               )
             }"
        )
    );
    let factory = function(7);
    assert_eq!(factory.js_name, "__uniffi_backend_factory");
    assert_eq!(factory.register_name, "__napi_register_uniffi_backend_factory");
    assert!(!factory.no_export && factory.is_ret_result && factory.strict);
    assert_eq!(
        patterns(&factory),
        vec!["env: &napi_ohos::Env", "host: napi_ohos::bindgen_prelude::Object<'static>"]
    );
}

#[test]
fn operations_have_names_of_their_own() {
    let first = family_operation(AsyncKind::Sync, 0);
    let second = FamilyOperation { id: 11, ..first.clone() };
    let third = FamilyOperation { id: 1, ..first.clone() };
    let family = FamilyPlan::new(
        ClosePolicy { grace_ms: 1, on_deadline: DeadlineAction::Detach },
        vec![first, second, third],
    );
    let numbered = |operation_id: u32| OhosOperationPlan {
        operation_id,
        ..plan(Vec::new(), OhosReturnBinding::Unit)
    };
    let forwards = vec![numbered(0), numbered(11), numbered(1)];
    let backwards = vec![numbered(1), numbered(11), numbered(0)];
    let bridge = OhosBridgePlan::build(&family, forwards).unwrap();
    assert_eq!(OhosBridgePlan::build(&family, backwards).unwrap(), bridge);
    let generated = generate_ohos_source(&family, bridge).unwrap();
    assert_eq!(
        generated.module().raw_operation_names(),
        vec![
            "__uniffi_raw_operation_0",
            "__uniffi_raw_operation_11",
            "__uniffi_raw_operation_1"
        ]
    );
}

#[test]
fn input_streams_receive_no_native_call() {
    let mut method = family_operation(AsyncKind::Sync, 0);
    method.receiver = Some(ReceiverBinding::Resource(ResourceBinding {
        kind: ResourceKind::InputStream,
        ownership: ResourceOwnership::Borrowed,
    }));
    let family = FamilyPlan::new(
        ClosePolicy { grace_ms: 1, on_deadline: DeadlineAction::Detach },
        vec![method],
    );
    let mut operation = plan(Vec::new(), OhosReturnBinding::Unit);
    operation.receiver = Some(OhosReceiverPlan {
        name: "this".to_string(),
        binding: OhosArgumentBinding::InputStreamProxy {
            rust_type: "Stream".to_string(),
            build: "fixture::build".to_string(),
        },
    });
    let bridge = OhosBridgePlan::build(&family, vec![operation]).unwrap();
    match generate_ohos_source(&family, bridge) {
        Err(error) => assert_eq!(
            error,
            OhosEngineError::InvalidResourceReceiver { operation_id: 0 }
        ),
        Ok(_) => panic!("no source was expected"),
    }
}

#[test]
fn enum_values_become_literals() {
    let text = proc_macro2::Literal::from(&NapiEnumValue::String("a \"b\"\n".to_string()));
    assert_eq!(text.to_string(), "\"a \\\"b\\\"\\n\"");
    let number = proc_macro2::Literal::from(&NapiEnumValue::Number(42));
    assert_eq!(number.to_string(), "42");
    let lowest = proc_macro2::Literal::from(&NapiEnumValue::Number(i32::MIN));
    assert_eq!(lowest.to_string(), "-2147483648");
}

#[test]
fn names_in_paths_become_literals() {
    let path = ValuePath {
        segments: vec![
            ValuePathSegment::Field("it's\07".to_string()),
            ValuePathSegment::Variant("a \"b\"\n".to_string()),
        ],
        notation: "return".to_string(),
    };
    let mut out = String::new();
    write_path(&mut out, &path);
    assert!(out.contains("Field(\"it's\\x007\".to_owned())"));
    assert!(out.contains("Variant(\"a \\\"b\\\"\\n\".to_owned())"));
}
