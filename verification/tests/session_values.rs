use napi_ohos_uniffi_engine::number::Number;
use napi_ohos_uniffi_engine::session::leases::{
    CallbackReleaseQueue, CallbackTransferRegistry, SessionCallbackInvoker,
    SessionCallbackTransfers, SessionGenerations,
};
use napi_ohos_uniffi_engine::session::path::{PathRequest, PathWalk};
use napi_ohos_uniffi_engine::session::probe::{
    decode_u32, is_callable, is_error_kind, is_null, is_terminal_kind, is_value_kind,
    may_have_handle, may_have_then, require_argument_array, require_argument_count,
    require_callable, require_entry, require_sequence, variant_matches,
};
use napi_ohos_uniffi_engine::session::types::{
    CallbackKey, JsRef, JsScheduler, JsType, JsValue, SessionError, SessionStatus,
    SessionValuePathSegment,
};

fn value(handle: u64) -> JsValue {
    JsValue { handle }
}

fn key(callback_type_id: u32, callback_id: u32) -> CallbackKey {
    CallbackKey { callback_type_id, callback_id }
}

fn number(value: f64) -> Option<Number> {
    Some(Number { bits: value.to_bits() })
}

fn reason<T>(result: Result<T, SessionError>) -> (SessionStatus, String) {
    match result {
        Ok(_) => panic!("an error was expected"),
        Err(error) => (error.status, error.reason),
    }
}

fn invalid(text: &str) -> (SessionStatus, String) {
    (SessionStatus::InvalidArg, text.to_string())
}

fn failure(text: &str) -> (SessionStatus, String) {
    (SessionStatus::GenericFailure, text.to_string())
}

#[test]
fn types_decide_what_is_asked_next() {
    assert!(may_have_then(JsType::Object));
    assert!(!may_have_then(JsType::Function));
    assert!(is_callable(JsType::Function));
    assert!(!is_callable(JsType::Object));
    assert!(is_null(JsType::Null));
    assert!(!is_null(JsType::Undefined));
    assert!(may_have_handle(JsType::Object));
    assert!(!may_have_handle(JsType::Number));
}

#[test]
fn numbers_are_unsigned_integers() {
    assert_eq!(decode_u32(JsType::Number, number(7.0), "operation ID").unwrap(), 7);
    let text = "operation ID must be an unsigned 32-bit integer";
    assert_eq!(reason(decode_u32(JsType::Number, number(7.5), "operation ID")), invalid(text));
    assert_eq!(reason(decode_u32(JsType::Number, number(-1.0), "operation ID")), invalid(text));
    assert_eq!(reason(decode_u32(JsType::Text, None, "operation ID")), invalid(text));
}

#[test]
fn variants_are_told_by_their_tag() {
    let tag = "Circle".to_string();
    let other = "Square".to_string();
    assert!(variant_matches(JsType::Text, Some(&tag), &"Circle".to_string()).unwrap());
    assert!(!variant_matches(JsType::Text, Some(&tag), &other).unwrap());
    assert_eq!(
        reason(variant_matches(JsType::Text, None, &other)),
        invalid("enum value has an invalid canonical tag")
    );
    assert_eq!(
        reason(variant_matches(JsType::Undefined, None, &other)),
        invalid("enum value has a missing or non-string canonical tag")
    );
}

#[test]
fn kinds_are_read_exactly() {
    let kinds = ["value", "error", "done", "item"];
    let texts: Vec<String> = kinds.iter().map(|kind| kind.to_string()).collect();
    assert!(is_value_kind(Some(&texts[0])));
    assert!(!is_value_kind(Some(&texts[1])));
    assert!(!is_value_kind(None));
    assert!(is_error_kind(Some(&texts[1])));
    assert!(!is_error_kind(Some(&texts[0])));
    assert!(is_terminal_kind(Some(&texts[1])));
    assert!(is_terminal_kind(Some(&texts[2])));
    assert!(!is_terminal_kind(Some(&texts[3])));
    assert!(!is_terminal_kind(None));
}

#[test]
fn shapes_are_required() {
    assert!(require_callable(JsType::Function, "close").is_ok());
    assert_eq!(
        reason(require_callable(JsType::Undefined, "retain\"Callback")),
        invalid("Host.\"retain\\\"Callback\" is not callable")
    );
    assert!(require_sequence(true, "callback").is_ok());
    assert_eq!(
        reason(require_sequence(false, "callback")),
        invalid("callback path expected an array sequence/set")
    );
    assert!(require_entry(true).is_ok());
    assert_eq!(
        reason(require_entry(false)),
        invalid("Map.entries() yielded a non-entry value")
    );
    assert!(require_argument_array(true).is_ok());
    assert_eq!(
        reason(require_argument_array(false)),
        invalid("UniFFI invocation arguments must be an array")
    );
    assert!(require_argument_count(2, 2).is_ok());
    assert_eq!(
        reason(require_argument_count(2, 10)),
        invalid("expected 2 arguments, received 10")
    );
}

#[test]
fn a_lease_is_claimed_once() {
    let mut queue = CallbackReleaseQueue::new();
    let first = queue.register(key(1, 10)).unwrap();
    let second = queue.register(key(1, 20)).unwrap();
    assert_eq!((first, second), (0, 1));
    assert!(queue.claim(second));
    assert!(!queue.claim(second));
    assert!(!queue.claim(99));
    assert_eq!(queue.drain(Some(JsRef { handle: 5 })), vec![key(1, 20)]);
    assert!(queue.take_pending().is_empty());
    assert!(queue.claim(first));
    assert!(queue.drain(None).is_empty());
    assert_eq!(queue.take_pending(), vec![key(1, 10)]);
}

#[test]
fn closing_claims_every_lease_oldest_first() {
    let mut queue = CallbackReleaseQueue::new();
    for id in 0..4 {
        queue.register(key(2, id)).unwrap();
    }
    queue.enqueue(key(9, 9));
    queue.claim(2);
    queue.claim_all_active();
    assert_eq!(
        queue.take_pending(),
        vec![key(9, 9), key(2, 2), key(2, 0), key(2, 1), key(2, 3)]
    );
    assert!(!queue.claim(0));
}

#[test]
fn schedulers_are_woken_until_shutdown() {
    let mut queue = CallbackReleaseQueue::new();
    assert_eq!(queue.wake(), None);
    let scheduler = JsScheduler { handle: 77 };
    assert!(queue.install(scheduler));
    assert_eq!(queue.wake(), Some(scheduler));
    assert_eq!(queue.shutdown(), Some(scheduler));
    assert_eq!(queue.shutdown(), None);
    assert_eq!(queue.wake(), None);
    assert!(!queue.install(scheduler));
    let mut queue = CallbackReleaseQueue::new();
    queue.install(scheduler);
    queue.mark_finalized_by_env();
    assert_eq!(queue.shutdown(), None);
}

#[test]
fn invocation_numbers_are_never_reused() {
    let mut invoker = SessionCallbackInvoker::new();
    assert_eq!(invoker.next_invocation_id().unwrap(), 0);
    assert_eq!(invoker.next_invocation_id().unwrap(), 1);
    invoker.next = u32::MAX;
    for _ in 0..2 {
        assert_eq!(
            reason(invoker.next_invocation_id()),
            failure("callback invocation ID space exhausted")
        );
    }
    assert!(invoker.check_open().is_ok());
    assert!(invoker.close());
    assert!(!invoker.close());
    assert_eq!(reason(invoker.check_open()), failure("UniFFI backend session is closed"));
    let mut generations = SessionGenerations { next: u32::MAX - 1 };
    assert_eq!(generations.allocate().unwrap(), u32::MAX - 1);
    assert_eq!(reason(generations.allocate()), failure("session generation space exhausted"));
}

#[test]
fn a_transfer_is_taken_once() {
    let mut registry: CallbackTransferRegistry<SessionCallbackTransfers<u64>> =
        CallbackTransferRegistry::new();
    let id = registry.allocate().unwrap();
    assert_eq!(id, 0);
    assert_eq!(registry.allocate().unwrap(), 1);
    registry.register(4, id, SessionCallbackTransfers { use_sites: vec![vec![], vec![5, 6]] });
    let transfers = registry.take(4, id).unwrap();
    assert_eq!(*transfers.lease(1, 0).unwrap(), 5);
    assert_eq!(*transfers.lease(1, 1).unwrap(), 6);
    assert_eq!(
        reason(transfers.lease(1, 2)),
        invalid("callback lease transfer 1/2 is unavailable")
    );
    assert_eq!(
        reason(transfers.lease(0, 0)),
        invalid("callback lease transfer 0/0 is unavailable")
    );
    assert_eq!(reason(registry.take(4, id)), failure("unknown callback transfer 4/0"));
    registry.register(4, 1, SessionCallbackTransfers::empty());
    registry.discard(4, 1);
    assert_eq!(reason(registry.take(4, 1)), failure("unknown callback transfer 4/1"));
    assert!(SessionCallbackTransfers::<u64>::empty().lease(0, 0).is_err());
}

fn start(
    path: Vec<SessionValuePathSegment>,
    args: Vec<JsValue>,
    result: Option<JsValue>,
) -> Result<PathWalk, SessionError> {
    PathWalk::start(&path, &args, 0, result, "callback")
}

#[test]
fn paths_start_at_a_root() {
    assert_eq!(reason(start(vec![], vec![], None)), invalid("callback use-site path is empty"));
    assert_eq!(
        reason(start(vec![SessionValuePathSegment::Argument(3)], vec![value(1)], None)),
        invalid("callback argument path index 3 is out of range")
    );
    assert_eq!(
        reason(start(vec![SessionValuePathSegment::Return], vec![], None)),
        invalid("return path cannot be resolved before a native result")
    );
    assert_eq!(
        reason(start(vec![SessionValuePathSegment::Optional], vec![value(1)], None)),
        invalid("callback use-site path has an invalid root")
    );
    let mut walk = start(vec![SessionValuePathSegment::Return], vec![], Some(value(9))).unwrap();
    assert!(matches!(walk.request(), Ok(PathRequest::Finished)));
    assert_eq!(walk.into_values(), vec![value(9)]);
    let offset = PathWalk::start(
        &vec![SessionValuePathSegment::Argument(0)],
        &vec![value(1), value(2)],
        1,
        None,
        "callback",
    )
    .unwrap();
    assert_eq!(offset.into_values(), vec![value(2)]);
}

#[test]
fn paths_fan_out_in_order() {
    // A sequence of optional records, whose field is a map; the map's values
    // are sets.
    let path = vec![
        SessionValuePathSegment::Argument(0),
        SessionValuePathSegment::SequenceElement,
        SessionValuePathSegment::Optional,
        SessionValuePathSegment::Field("table".to_string()),
        SessionValuePathSegment::MapValue,
        SessionValuePathSegment::SetElement,
    ];
    let mut walk = start(path, vec![value(1)], None).unwrap();
    match walk.request() {
        Ok(PathRequest::Elements { value: array }) => assert_eq!(array, value(1)),
        _ => panic!("the elements are asked for"),
    }
    walk.supply_elements(vec![value(10), value(20), value(30)]);
    for (expected, null) in [(10, false), (20, true), (30, false)] {
        match walk.request() {
            Ok(PathRequest::NullCheck { value: element }) => assert_eq!(element, value(expected)),
            _ => panic!("each element is checked"),
        }
        walk.supply_choice(!null);
    }
    for (expected, table) in [(10, 11), (30, 31)] {
        match walk.request() {
            Ok(PathRequest::Property { value: record, name }) => {
                assert_eq!((record, name.as_str()), (value(expected), "table"));
            }
            _ => panic!("the field is asked for"),
        }
        walk.supply_property(value(table));
    }
    for table in [11, 31] {
        match walk.request() {
            Ok(PathRequest::Entries { value: map }) => assert_eq!(map, value(table)),
            _ => panic!("the entries are asked for"),
        }
        walk.supply_entries(vec![
            (value(table + 100), value(table + 200)),
            (value(table + 101), value(table + 201)),
        ]);
    }
    for set in [211, 212, 231, 232] {
        match walk.request() {
            Ok(PathRequest::Members { value: found }) => assert_eq!(found, value(set)),
            _ => panic!("the members are asked for"),
        }
        walk.supply_elements(vec![value(set + 1000)]);
    }
    assert!(matches!(walk.request(), Ok(PathRequest::Finished)));
    assert_eq!(walk.into_values(), vec![value(1211), value(1212), value(1231), value(1232)]);
}

#[test]
fn paths_follow_variants_and_map_keys() {
    let path = vec![
        SessionValuePathSegment::Argument(0),
        SessionValuePathSegment::Variant("Some".to_string()),
        SessionValuePathSegment::MapKey,
    ];
    let mut walk = start(path.clone(), vec![value(1)], None).unwrap();
    match walk.request() {
        Ok(PathRequest::Variant { value: found, name }) => {
            assert_eq!((found, name.as_str()), (value(1), "Some"));
        }
        _ => panic!("the variant is asked for"),
    }
    walk.supply_choice(true);
    assert!(matches!(walk.request(), Ok(PathRequest::Entries { .. })));
    walk.supply_entries(vec![(value(2), value(3))]);
    assert!(matches!(walk.request(), Ok(PathRequest::Finished)));
    assert_eq!(walk.into_values(), vec![value(2)]);
    let mut other = start(path, vec![value(1)], None).unwrap();
    assert!(other.request().is_ok());
    other.supply_choice(false);
    assert!(matches!(other.request(), Ok(PathRequest::Finished)));
    assert!(other.into_values().is_empty());
}

#[test]
fn stream_segments_lead_to_nothing_and_nested_roots_are_refused() {
    let mut walk = start(
        vec![SessionValuePathSegment::Argument(0), SessionValuePathSegment::StreamItem],
        vec![value(1)],
        None,
    )
    .unwrap();
    assert!(matches!(walk.request(), Ok(PathRequest::Finished)));
    assert!(walk.into_values().is_empty());
    let mut nested = start(
        vec![SessionValuePathSegment::Argument(0), SessionValuePathSegment::Return],
        vec![value(1)],
        None,
    )
    .unwrap();
    assert_eq!(
        reason(nested.request()),
        invalid("callback use-site path contains a nested root")
    );
    let mut unreached = start(
        vec![
            SessionValuePathSegment::Argument(0),
            SessionValuePathSegment::StreamError,
            SessionValuePathSegment::Argument(0),
        ],
        vec![value(1)],
        None,
    )
    .unwrap();
    assert!(matches!(unreached.request(), Ok(PathRequest::Finished)));
}
