use napi_ohos_uniffi_engine::error::{
    BridgeErrorDescriptor, ErrorData, ErrorDomain, OhosCallResult, OhosEngineError, OhosError,
};
use napi_ohos_uniffi_engine::family::{FamilyPlanError, OperationKind};
use napi_ohos_uniffi_engine::number::Number;
use napi_ohos_uniffi_engine::value::{OhosRuntimeHooks, OhosValue};

fn number(value: f64) -> Number {
    Number { bits: value.to_bits() }
}

#[test]
fn every_engine_error_has_its_text() {
    let cases: Vec<(OhosEngineError, &str)> = vec![
        (
            OhosEngineError::FamilyPlan(FamilyPlanError { message: "bad plan".to_string() }),
            "bad plan",
        ),
        (OhosEngineError::DuplicateRustOperation { id: 12 }, "duplicate Rust operation ID 12"),
        (
            OhosEngineError::OperationCount { expected: 3, actual: 10 },
            "OHOS operation table requires 3 entries, found 10",
        ),
        (OhosEngineError::TooManyOperations, "OHOS operation table exceeds u32"),
        (
            OhosEngineError::MissingRustOperation { id: u32::MAX },
            "missing Rust operation ID 4294967295",
        ),
        (
            OhosEngineError::ArgumentCount { operation_id: 1, expected: 2, actual: 0 },
            "operation 1 has 0 Rust arguments; bridge requires 2",
        ),
        (
            OhosEngineError::DuplicateRustArgument {
                operation_id: 1,
                name: "a\"b".to_string(),
            },
            "operation 1 repeats Rust argument name \"a\\\"b\"",
        ),
        (
            OhosEngineError::InvalidArgumentBinding {
                operation_id: 1,
                argument: 2,
                expected: "a value",
            },
            "operation 1 argument 2 requires a value",
        ),
        (
            OhosEngineError::InvalidReturnBinding { operation_id: 4, expected: "a lease" },
            "operation 4 return requires a lease",
        ),
        (
            OhosEngineError::InvalidResourceResult { operation_id: 5 },
            "operation 5 has an incompatible resource result binding",
        ),
        (
            OhosEngineError::InvalidStructuredBinding {
                operation_id: 1,
                argument: 0,
                role: "callback",
            },
            "operation 1 argument 0 requires a structured callback binding",
        ),
        (
            OhosEngineError::MissingErrorDescriptor { operation_id: 6 },
            "fallible operation 6 has no error descriptor mapper",
        ),
        (
            OhosEngineError::UnexpectedErrorDescriptor { operation_id: 7 },
            "infallible operation 7 unexpectedly has an error descriptor mapper",
        ),
        (
            OhosEngineError::InvalidOperationTarget {
                operation_id: 8,
                kind: OperationKind::OutputStreamNext,
            },
            "operation 8 has a Rust target incompatible with OutputStreamNext",
        ),
        (
            OhosEngineError::HostOperationHasRustBindings { operation_id: 9 },
            "host operation 9 must not contain Rust call arguments or a receiver",
        ),
        (
            OhosEngineError::HostOperationHasStructuredUseSites { operation_id: 10 },
            "host operation 10 must not contain callback or stream use-sites",
        ),
        (OhosEngineError::MissingReceiver { operation_id: 11 }, "operation 11 has no receiver"),
        (
            OhosEngineError::UnexpectedReceiver { operation_id: 12 },
            "operation 12 unexpectedly has a receiver",
        ),
        (
            OhosEngineError::InvalidValueReceiver { operation_id: 13 },
            "value operation 13 requires a direct value receiver binding",
        ),
        (
            OhosEngineError::InvalidResourceReceiver { operation_id: 14 },
            "resource operation 14 requires a structured resource receiver",
        ),
        (
            OhosEngineError::MissingStructuredUseSite {
                operation_id: 15,
                argument: 1,
                role: "input stream",
            },
            "operation 15 argument 1 has no structured input stream use-site contract",
        ),
        (
            OhosEngineError::MissingResourceHook { role: "object release" },
            "OHOS bridge plan has no structured object release hook",
        ),
        (
            OhosEngineError::NonDenseOperation { expected: 1, actual: 2 },
            "OHOS operation table is not dense: expected 1, found 2",
        ),
        (
            OhosEngineError::DispatchMismatch { operation_id: 16 },
            "OHOS operation 16 dispatch does not match family plan",
        ),
        (OhosEngineError::UnknownOperation { operation_id: 17 }, "unknown OHOS operation 17"),
        (OhosEngineError::Closed, "OHOS backend session is closed"),
        (OhosEngineError::Host(OhosError::new("gone")), "OHOS host error: gone"),
        (
            OhosEngineError::ReentrancyForbidden { callback_type: 7, callback_id: 100 },
            "callback 7:100 is already active and forbids reentrancy",
        ),
        (OhosEngineError::InvalidValue { expected: "stream ID" }, "expected stream ID"),
        (OhosEngineError::Codegen("broken".to_string()), "OHOS N-API codegen failed: broken"),
    ];
    for (error, text) in cases {
        assert_eq!(error.message(), text);
    }
}

#[test]
fn host_errors_become_engine_errors() {
    let error = OhosError::new("timeout");
    assert_eq!(error.message(), "timeout");
    assert_eq!(error.clone(), error);
    assert_eq!(OhosEngineError::from(error), OhosEngineError::Host(OhosError::new("timeout")));
}

#[test]
fn descriptors_carry_their_message() {
    let validation = BridgeErrorDescriptor::validation("bad".to_string());
    assert_eq!(validation.domain, ErrorDomain::Validation);
    assert_eq!(validation.error_name, "ValidationError");
    assert_eq!(validation.data, ErrorData::String("bad".to_string()));
    assert_eq!(validation.message, "bad");
    assert_eq!(validation.variant, None);
    assert_eq!(validation.native_stack, None);
    let backend = BridgeErrorDescriptor::backend("down".to_string());
    assert_eq!(backend.domain, ErrorDomain::Backend);
    assert_eq!(backend.error_name, "BackendError");
    assert_eq!(backend.message, "down");
    assert_eq!(OhosCallResult::Value(1).kind(), "value");
    assert_eq!(OhosCallResult::<u32>::Error(backend).kind(), "error");
    assert_eq!(ErrorDomain::Declared.as_str(), "declared");
    assert_eq!(ErrorDomain::Validation.as_str(), "validation");
    assert_eq!(ErrorDomain::Backend.as_str(), "backend");
    assert_eq!(ErrorDomain::Panic.as_str(), "panic");
}

#[test]
fn values_compare_as_scripts_do() {
    assert_eq!(OhosValue::Number(number(0.0)), OhosValue::Number(number(-0.0)));
    assert_ne!(OhosValue::Number(number(f64::NAN)), OhosValue::Number(number(f64::NAN)));
    assert_eq!(
        OhosValue::bigint(true, vec![1, 2]),
        OhosValue::BigInt { negative: true, words: vec![1, 2] }
    );
    let hooks = OhosRuntimeHooks::default();
    assert_eq!(hooks, OhosRuntimeHooks::default());
}

#[test]
fn numbers_decode_as_unsigned_integers() {
    let exact: Vec<(f64, Option<u32>)> = vec![
        (0.0, Some(0)),
        (-0.0, Some(0)),
        (1.0, Some(1)),
        (41.0, Some(41)),
        (4294967295.0, Some(u32::MAX)),
        (4294967296.0, None),
        (1e300, None),
        (0.5, None),
        (41.5, None),
        (-1.0, None),
        (5e-324, None),
        (f64::NAN, None),
        (f64::INFINITY, None),
        (f64::NEG_INFINITY, None),
    ];
    for (value, expected) in exact {
        assert_eq!(number(value).exact_u32(), expected, "{}", value);
    }
    let floors: Vec<(f64, Option<u32>)> = vec![
        (0.0, Some(0)),
        (-0.0, Some(0)),
        (0.999, Some(0)),
        (41.9, Some(41)),
        (4294967295.5, Some(u32::MAX)),
        (4294967296.0, Some(u32::MAX)),
        (1e300, Some(u32::MAX)),
        (f64::INFINITY, Some(u32::MAX)),
        (-0.5, None),
        (f64::NEG_INFINITY, None),
        (f64::NAN, None),
    ];
    for (value, expected) in floors {
        assert_eq!(number(value).floor_u32(), expected, "{}", value);
    }
    for value in [3.0f64, 123456.75, 2147483648.25, 7e8] {
        assert_eq!(number(value).floor_u32(), Some(value as u32));
    }
}
