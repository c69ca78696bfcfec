//! Entering a native operation: its arguments on their way in.
//!
//! Source text is specified by functions that take the text so far and return
//! it with more text added, in the order in which the text is written.

use crate::error::OhosEngineError;
use crate::family::{
    AsyncKind, CallbackReentrancy, CallbackRetention, CallbackSiteModel, CallbackThreading,
    CallbackUseSite, FamilyOperation, OperationModel, PathModel, ReceiverBinding, StreamDirection,
    ValuePath, ValuePathSegment,
};
use crate::plan::{OhosArgumentBinding, OhosOperationPlan};
use crate::session::types::SegmentModel;
use crate::text;
use vstd::prelude::*;
use vstd::string::StringExecFns;

verus! {

/// How a raw operation is entered.
#[derive(Clone, Copy, Debug, PartialEq, Eq, Structural)]
pub struct OperationShape {
    /// The host comes first among the arguments.
    pub requires_host: bool,
    /// The session and a transfer of callback leases come along.
    pub callback_transfer: bool,
    pub asynchronous: bool,
    /// The arguments are lowered on the script thread, before a future is
    /// spawned by hand.
    pub manual_async_entry: bool,
}

/// Some callback use-site starts at an argument.
pub open spec fn has_argument_callbacks(family: OperationModel) -> bool {
    exists|i: int|
        #![trigger family.callbacks[i]]
        0 <= i < family.callbacks.len() && family.callbacks[i].path.argument_rooted()
}

/// Some stream use-site takes an input stream.
pub open spec fn has_input_stream(family: OperationModel) -> bool {
    exists|i: int|
        #![trigger family.streams[i]]
        0 <= i < family.streams.len() && family.streams[i].direction is Input
}

/// The binding is made with the host at hand.
pub open spec fn host_bound(binding: OhosArgumentBinding) -> bool {
    binding is CallbackProxy || binding is InputStreamProxy || binding is LowerWithHost
}

/// Some argument is bound with the host at hand.
pub open spec fn has_host_bound_argument(operation: OhosOperationPlan) -> bool {
    exists|i: int|
        #![trigger operation.arguments@[i]]
        0 <= i < operation.arguments@.len() && host_bound(operation.arguments@[i].binding)
}

/// Some argument is lowered with the host at hand.
pub open spec fn has_host_lowered_argument(operation: OhosOperationPlan) -> bool {
    exists|i: int|
        #![trigger operation.arguments@[i]]
        0 <= i < operation.arguments@.len() && operation.arguments@[i].binding is LowerWithHost
}

/// The native call needs the host.
pub open spec fn requires_host(family: OperationModel, operation: OhosOperationPlan) -> bool {
    ||| has_argument_callbacks(family)
    ||| has_input_stream(family)
    ||| has_host_bound_argument(operation)
    ||| operation.receiver matches Some(receiver) && receiver.binding is LowerWithHost
}

/// A value receiver that is lowered by code has to be lowered on the script
/// thread.
pub open spec fn lowers_value_receiver(family: OperationModel, operation: OhosOperationPlan) -> bool {
    &&& family.receiver == Some(ReceiverBinding::Value)
    &&& operation.receiver matches Some(receiver) && (receiver.binding is I64BigInt
        || receiver.binding is U64BigInt || receiver.binding is LowerWith
        || receiver.binding is LowerWithHost)
}

pub open spec fn shape_of(family: OperationModel, operation: OhosOperationPlan) -> OperationShape {
    OperationShape {
        requires_host: requires_host(family, operation),
        callback_transfer: has_argument_callbacks(family),
        asynchronous: family.async_kind is Async,
        manual_async_entry: family.async_kind is Async && (requires_host(family, operation)
            || lowers_value_receiver(family, operation)),
    }
}

/// Whether some callback use-site starts at an argument.
pub fn takes_callbacks(family: &FamilyOperation) -> (r: bool)
    ensures
        r == has_argument_callbacks(family@),
{
    let ghost sites = family@.callbacks;
    for i in 0..family.callbacks.len()
        invariant
            sites == family@.callbacks,
            forall|j: int| 0 <= j < i ==> !(#[trigger] sites[j]).path.argument_rooted(),
    {
        assert(sites[i as int] == family.callbacks@[i as int]@);
        if family.callbacks[i].path.is_argument_rooted() {
            return true;
        }
    }
    false
}

fn takes_input_stream(family: &FamilyOperation) -> (r: bool)
    ensures
        r == has_input_stream(family@),
{
    let ghost sites = family@.streams;
    for i in 0..family.streams.len()
        invariant
            sites == family@.streams,
            forall|j: int| 0 <= j < i ==> !((#[trigger] sites[j]).direction is Input),
    {
        assert(sites[i as int] == family.streams@[i as int]@);
        if family.streams[i].direction == StreamDirection::Input {
            return true;
        }
    }
    false
}

fn binds_with_host(operation: &OhosOperationPlan) -> (r: bool)
    ensures
        r == has_host_bound_argument(*operation),
{
    for i in 0..operation.arguments.len()
        invariant
            forall|j: int|
                0 <= j < i ==> !host_bound((#[trigger] operation.arguments@[j]).binding),
    {
        match &operation.arguments[i].binding {
            OhosArgumentBinding::CallbackProxy { .. }
            | OhosArgumentBinding::InputStreamProxy { .. }
            | OhosArgumentBinding::LowerWithHost { .. } => {
                return true;
            },
            _ => {},
        }
    }
    false
}

fn lowers_with_host(operation: &OhosOperationPlan) -> (r: bool)
    ensures
        r == has_host_lowered_argument(*operation),
{
    for i in 0..operation.arguments.len()
        invariant
            forall|j: int|
                0 <= j < i ==> !((#[trigger] operation.arguments@[j]).binding is LowerWithHost),
    {
        if matches!(operation.arguments[i].binding, OhosArgumentBinding::LowerWithHost { .. }) {
            return true;
        }
    }
    false
}

/// Whether the native call needs the host.
pub fn needs_host(family: &FamilyOperation, operation: &OhosOperationPlan) -> (r: bool)
    ensures
        r == requires_host(family@, *operation),
{
    let receiver: bool = match &operation.receiver {
        Some(receiver) => matches!(receiver.binding, OhosArgumentBinding::LowerWithHost { .. }),
        None => false,
    };
    takes_callbacks(family) || takes_input_stream(family) || binds_with_host(operation) || receiver
}

pub fn operation_shape(family: &FamilyOperation, operation: &OhosOperationPlan) -> (r: OperationShape)
    ensures
        r == shape_of(family@, *operation),
{
    let requires_host: bool = needs_host(family, operation);
    let asynchronous: bool = family.async_kind == AsyncKind::Async;
    let lowered_receiver: bool = match &operation.receiver {
        Some(receiver) => match &receiver.binding {
            OhosArgumentBinding::I64BigInt
            | OhosArgumentBinding::U64BigInt
            | OhosArgumentBinding::LowerWith { .. }
            | OhosArgumentBinding::LowerWithHost { .. } => true,
            _ => false,
        },
        None => false,
    };
    let value_receiver: bool = matches!(family.receiver, Some(ReceiverBinding::Value));
    OperationShape {
        requires_host,
        callback_transfer: takes_callbacks(family),
        asynchronous,
        manual_async_entry: asynchronous && (requires_host || (value_receiver && lowered_receiver)),
    }
}

// ---- Names ----

pub open spec fn raw_name(id: u32) -> Seq<char> {
    "__uniffi_raw_operation_"@ + text::decimal(id as int)
}

pub open spec fn factory_name(id: u32) -> Seq<char> {
    "_napi_rs_internal_register___uniffi_raw_operation_"@ + text::decimal(id as int)
}

pub open spec fn register_name(id: u32) -> Seq<char> {
    "__napi_register_uniffi_raw_operation_"@ + text::decimal(id as int)
}

pub(crate) fn named(prefix: &str, id: u32) -> (r: String)
    ensures
        r@ == prefix@ + text::decimal(id as int),
{
    let mut out: String = prefix.to_owned();
    text::push_decimal(&mut out, id as u64);
    out
}

/// The name of the raw function of an operation.
pub fn raw_operation_name(id: u32) -> (r: String)
    ensures
        r@ == raw_name(id),
{
    named("__uniffi_raw_operation_", id)
}

// ---- Errors while lowering ----

pub const PROMISE_OPEN: &'static str = "{ let __uniffi_error_promise = napi_ohos::bindgen_prelude::PromiseRaw::<napi_ohos_uniffi_engine::OhosCallResult<";

pub const PROMISE_RESOLVE: &'static str = ">>::resolve(__uniffi_env, napi_ohos_uniffi_engine::OhosCallResult::Error(";

pub const PROMISE_CLOSE: &'static str = "), )?; return Ok(napi_ohos::bindgen_prelude::JsValue::raw(&__uniffi_error_promise)); }";

pub const ERROR_OPEN: &'static str = "{ return napi_ohos_uniffi_engine::OhosCallResult::Error(";

pub const ERROR_CLOSE: &'static str = "); }";

/// The error that a lowerer reports itself.
pub const OWN_ERROR: &'static str = "error";

/// The error of an integer that does not fit.
pub const RANGE_ERROR: &'static str = "napi_ohos_uniffi_engine::BridgeErrorDescriptor::validation(error.to_string())";

/// Code that ends the call with an error: a resolved promise where the entry
/// spawns its future by hand, a plain result elsewhere.
pub open spec fn emit_lower_error(
    out: Seq<char>,
    manual: bool,
    carrier: Seq<char>,
    error: Seq<char>,
) -> Seq<char> {
    if manual {
        out + PROMISE_OPEN@ + carrier + PROMISE_RESOLVE@ + error + PROMISE_CLOSE@
    } else {
        out + ERROR_OPEN@ + error + ERROR_CLOSE@
    }
}

fn write_lower_error(out: &mut String, manual: bool, carrier: &str, error: &str)
    ensures
        final(out)@ == emit_lower_error(old(out)@, manual, carrier@, error@),
{
    if manual {
        out.append(PROMISE_OPEN);
        out.append(carrier);
        out.append(PROMISE_RESOLVE);
        out.append(error);
        out.append(PROMISE_CLOSE);
    } else {
        out.append(ERROR_OPEN);
        out.append(error);
        out.append(ERROR_CLOSE);
    }
}

// ---- Lowering in the body ----

pub const MATCH_ARMS: &'static str = " { Ok(value) => value, Err(error) => ";

pub const MATCH_END: &'static str = ", };\n";

pub const I64_SPLIT: &'static str = "let (__uniffi_value, __uniffi_lossless) = ";

pub const I64_READ: &'static str = ".get_i64();\nlet ";

pub const I64_CHECK: &'static str = " = match napi_ohos_uniffi_engine::napi_family_core::require_lossless_i64(__uniffi_value, __uniffi_lossless)";

pub const U64_SPLIT: &'static str = "let (__uniffi_negative, __uniffi_value, __uniffi_lossless) = ";

pub const U64_READ: &'static str = ".get_u64();\nlet ";

pub const U64_CHECK: &'static str = " = match napi_ohos_uniffi_engine::napi_family_core::require_lossless_u64(__uniffi_negative, __uniffi_value, __uniffi_lossless)";

pub const LET: &'static str = "let ";

pub const MATCH: &'static str = " = match ";

pub const WITH_HOST: &'static str = "(&__uniffi_host, ";

pub const WITH_TRANSFERS: &'static str = ", &__uniffi_callback_transfers)";

/// Code that lowers one value in the body. A receiver may be lowered with the
/// host here; arguments that need the host were lowered before.
pub open spec fn emit_lowering(
    out: Seq<char>,
    name: Seq<char>,
    binding: OhosArgumentBinding,
    receiver: bool,
    manual: bool,
    carrier: Seq<char>,
) -> Seq<char> {
    match binding {
        OhosArgumentBinding::I64BigInt => emit_lower_error(
            out + I64_SPLIT@ + name + I64_READ@ + name + I64_CHECK@ + MATCH_ARMS@,
            manual,
            carrier,
            RANGE_ERROR@,
        ) + MATCH_END@,
        OhosArgumentBinding::U64BigInt => emit_lower_error(
            out + U64_SPLIT@ + name + U64_READ@ + name + U64_CHECK@ + MATCH_ARMS@,
            manual,
            carrier,
            RANGE_ERROR@,
        ) + MATCH_END@,
        OhosArgumentBinding::LowerWith { lower, .. }
        | OhosArgumentBinding::ObjectLease { lower, .. }
        | OhosArgumentBinding::OutputStreamLease { lower, .. } => emit_lower_error(
            out + LET@ + name + MATCH@ + lower@ + "("@ + name + ")"@ + MATCH_ARMS@,
            manual,
            carrier,
            OWN_ERROR@,
        ) + MATCH_END@,
        OhosArgumentBinding::LowerWithHost { lower, .. } => if receiver {
            emit_lower_error(
                out + LET@ + name + MATCH@ + lower@ + WITH_HOST@ + name + WITH_TRANSFERS@
                    + MATCH_ARMS@,
                manual,
                carrier,
                OWN_ERROR@,
            ) + MATCH_END@
        } else {
            out
        },
        _ => out,
    }
}

fn write_lowering(
    out: &mut String,
    name: &str,
    binding: &OhosArgumentBinding,
    receiver: bool,
    manual: bool,
    carrier: &str,
)
    ensures
        final(out)@ == emit_lowering(old(out)@, name@, *binding, receiver, manual, carrier@),
{
    match binding {
        OhosArgumentBinding::I64BigInt => {
            out.append(I64_SPLIT);
            out.append(name);
            out.append(I64_READ);
            out.append(name);
            out.append(I64_CHECK);
            out.append(MATCH_ARMS);
            write_lower_error(out, manual, carrier, RANGE_ERROR);
            out.append(MATCH_END);
        },
        OhosArgumentBinding::U64BigInt => {
            out.append(U64_SPLIT);
            out.append(name);
            out.append(U64_READ);
            out.append(name);
            out.append(U64_CHECK);
            out.append(MATCH_ARMS);
            write_lower_error(out, manual, carrier, RANGE_ERROR);
            out.append(MATCH_END);
        },
        OhosArgumentBinding::LowerWith { lower, .. }
        | OhosArgumentBinding::ObjectLease { lower, .. }
        | OhosArgumentBinding::OutputStreamLease { lower, .. } => {
            out.append(LET);
            out.append(name);
            out.append(MATCH);
            out.append(lower.as_str());
            out.append("(");
            out.append(name);
            out.append(")");
            out.append(MATCH_ARMS);
            write_lower_error(out, manual, carrier, OWN_ERROR);
            out.append(MATCH_END);
        },
        OhosArgumentBinding::LowerWithHost { lower, .. } => {
            if receiver {
                out.append(LET);
                out.append(name);
                out.append(MATCH);
                out.append(lower.as_str());
                out.append(WITH_HOST);
                out.append(name);
                out.append(WITH_TRANSFERS);
                out.append(MATCH_ARMS);
                write_lower_error(out, manual, carrier, OWN_ERROR);
                out.append(MATCH_END);
            }
        },
        _ => {},
    }
}

/// Code that lowers the receiver, then the first `upto` arguments.
pub open spec fn emit_lowerings(
    out: Seq<char>,
    operation: OhosOperationPlan,
    manual: bool,
    upto: int,
) -> Seq<char>
    decreases upto,
{
    let carrier = operation.return_binding.carrier();
    if upto <= 0 {
        match operation.receiver {
            Some(receiver) => emit_lowering(
                out,
                receiver.name@,
                receiver.binding,
                true,
                manual,
                carrier,
            ),
            None => out,
        }
    } else {
        emit_lowering(
            emit_lowerings(out, operation, manual, upto - 1),
            operation.arguments@[upto - 1].name@,
            operation.arguments@[upto - 1].binding,
            false,
            manual,
            carrier,
        )
    }
}

pub(crate) fn write_lowerings(out: &mut String, operation: &OhosOperationPlan, manual: bool)
    ensures
        final(out)@ == emit_lowerings(
            old(out)@,
            *operation,
            manual,
            operation.arguments@.len() as int,
        ),
{
    let carrier: String = operation.return_binding.carrier_type();
    let ghost start = out@;
    if let Some(receiver) = &operation.receiver {
        write_lowering(
            out,
            receiver.name.as_str(),
            &receiver.binding,
            true,
            manual,
            carrier.as_str(),
        );
    }
    for i in 0..operation.arguments.len()
        invariant
            carrier@ == operation.return_binding.carrier(),
            out@ == emit_lowerings(start, *operation, manual, i as int),
    {
        write_lowering(
            out,
            operation.arguments[i].name.as_str(),
            &operation.arguments[i].binding,
            false,
            manual,
            carrier.as_str(),
        );
    }
}

// ---- Paths and contracts of callbacks ----

pub const SEGMENT: &'static str = "napi_ohos_uniffi_engine::SessionValuePathSegment::";

pub open spec fn emit_segment(out: Seq<char>, segment: SegmentModel) -> Seq<char> {
    let head = out + SEGMENT@;
    match segment {
        SegmentModel::Argument(index) => head + "Argument("@ + text::decimal(index as int)
            + "u32)"@,
        SegmentModel::Return => head + "Return"@,
        SegmentModel::StreamItem => head + "StreamItem"@,
        SegmentModel::StreamError => head + "StreamError"@,
        SegmentModel::Field(name) => head + "Field("@ + text::literal_text(name) + ".to_owned())"@,
        SegmentModel::Variant(name) => head + "Variant("@ + text::literal_text(name)
            + ".to_owned())"@,
        SegmentModel::Optional => head + "Optional"@,
        SegmentModel::SequenceElement => head + "SequenceElement"@,
        SegmentModel::MapKey => head + "MapKey"@,
        SegmentModel::MapValue => head + "MapValue"@,
        SegmentModel::SetElement => head + "SetElement"@,
    }
}

fn write_segment(out: &mut String, segment: &ValuePathSegment)
    ensures
        final(out)@ == emit_segment(old(out)@, segment@),
{
    out.append(SEGMENT);
    match segment {
        ValuePathSegment::Argument(index) => {
            out.append("Argument(");
            text::push_decimal(out, *index as u64);
            out.append("u32)");
        },
        ValuePathSegment::Return => out.append("Return"),
        ValuePathSegment::StreamItem => out.append("StreamItem"),
        ValuePathSegment::StreamError => out.append("StreamError"),
        ValuePathSegment::Field(name) => {
            let name: String = text::literal(name.as_str());
            out.append("Field(");
            out.append(name.as_str());
            out.append(".to_owned())");
        },
        ValuePathSegment::Variant(name) => {
            let name: String = text::literal(name.as_str());
            out.append("Variant(");
            out.append(name.as_str());
            out.append(".to_owned())");
        },
        ValuePathSegment::Optional => out.append("Optional"),
        ValuePathSegment::SequenceElement => out.append("SequenceElement"),
        ValuePathSegment::MapKey => out.append("MapKey"),
        ValuePathSegment::MapValue => out.append("MapValue"),
        ValuePathSegment::SetElement => out.append("SetElement"),
    }
}

/// The first `upto` segments, with commas between them.
pub open spec fn emit_segments(out: Seq<char>, path: Seq<SegmentModel>, upto: int) -> Seq<char>
    decreases upto,
{
    if upto <= 0 {
        out
    } else {
        emit_segment(
            text::separated(emit_segments(out, path, upto - 1), upto == 1),
            path[upto - 1],
        )
    }
}

/// A path as a list of segments.
pub open spec fn emit_path(out: Seq<char>, path: PathModel) -> Seq<char> {
    emit_segments(out + "path: vec!["@, path.segments, path.segments.len() as int) + "], "@
}

/// Writes a path as a list of segments.
pub fn write_path(out: &mut String, path: &ValuePath)
    ensures
        final(out)@ == emit_path(old(out)@, path@),
{
    out.append("path: vec![");
    let ghost start = out@;
    for i in 0..path.segments.len()
        invariant
            out@ == emit_segments(start, path@.segments, i as int),
    {
        assert(path@.segments[i as int] == path.segments@[i as int]@);
        text::push_separator(out, i == 0);
        write_segment(out, &path.segments[i]);
    }
    assert(path@.segments.len() == path.segments@.len());
    out.append("], ");
}

pub const CALLBACK_ARGUMENT: &'static str = "napi_ohos_uniffi_engine::SessionCallbackArgument { ";

pub open spec fn retention_name(retention: CallbackRetention) -> Seq<char> {
    match retention {
        CallbackRetention::Scoped => "Scoped"@,
        CallbackRetention::Retained => "Retained"@,
    }
}

pub open spec fn threading_name(threading: CallbackThreading) -> Seq<char> {
    match threading {
        CallbackThreading::CallingThread => "CallingThread"@,
        CallbackThreading::MayCrossThread => "MayCrossThread"@,
    }
}

pub open spec fn reentrancy_name(reentrancy: CallbackReentrancy) -> Seq<char> {
    match reentrancy {
        CallbackReentrancy::Allowed => "Allowed"@,
        CallbackReentrancy::Forbidden => "Forbidden"@,
    }
}

/// A callback use-site as the session knows it.
pub open spec fn emit_callback_argument(out: Seq<char>, site: CallbackSiteModel) -> Seq<char> {
    emit_path(out + CALLBACK_ARGUMENT@, site.path) + "callback_type_id: "@ + text::decimal(
        site.callback_type_id as int,
    ) + "u32, retention: napi_ohos_uniffi_engine::SessionCallbackRetention::"@ + retention_name(
        site.contract.retention,
    ) + ", threading: napi_ohos_uniffi_engine::SessionCallbackThreading::"@ + threading_name(
        site.contract.threading,
    ) + ", reentrancy: napi_ohos_uniffi_engine::SessionCallbackReentrancy::"@ + reentrancy_name(
        site.contract.reentrancy,
    ) + ", }"@
}

/// Writes a callback use-site as the session knows it.
pub fn write_callback_argument(out: &mut String, site: &CallbackUseSite)
    ensures
        final(out)@ == emit_callback_argument(old(out)@, site@),
{
    out.append(CALLBACK_ARGUMENT);
    write_path(out, &site.path);
    out.append("callback_type_id: ");
    text::push_decimal(out, site.callback_type_id as u64);
    out.append("u32, retention: napi_ohos_uniffi_engine::SessionCallbackRetention::");
    out.append(
        match site.contract.retention {
            CallbackRetention::Scoped => "Scoped",
            CallbackRetention::Retained => "Retained",
        },
    );
    out.append(", threading: napi_ohos_uniffi_engine::SessionCallbackThreading::");
    out.append(
        match site.contract.threading {
            CallbackThreading::CallingThread => "CallingThread",
            CallbackThreading::MayCrossThread => "MayCrossThread",
        },
    );
    out.append(", reentrancy: napi_ohos_uniffi_engine::SessionCallbackReentrancy::");
    out.append(
        match site.contract.reentrancy {
            CallbackReentrancy::Allowed => "Allowed",
            CallbackReentrancy::Forbidden => "Forbidden",
        },
    );
    out.append(", }");
}

// ---- Code before the call ----

pub const TAKE_TRANSFERS: &'static str = "let __uniffi_callback_transfers = napi_ohos_uniffi_engine::take_session_callback_transfers(arg";

pub const TAKE_INVOKER: &'static str = ", )?;\nlet __uniffi_callback_invoker = __uniffi_callback_transfers.invoker().map_err(|error| napi_ohos::Error::new(napi_ohos::Status::GenericFailure, error.to_string(), ))?;\n";

pub const NO_TRANSFERS: &'static str = "let __uniffi_callback_transfers = napi_ohos_uniffi_engine::SessionCallbackTransfers::empty();\n";

pub const TRANSFERRED_OR_FAIL: &'static str = ", &__uniffi_callback_transfers, ).map_err(|error| napi_ohos::Error::new(napi_ohos::Status::GenericFailure, error.to_string(), ))?;\n";

pub const TAKE_LEASE: &'static str = "let __uniffi_callback_lease = __uniffi_callback_transfers.lease(";

pub const LEASE_OR_FAIL: &'static str = "usize, 0).map_err(|error| napi_ohos::Error::new(napi_ohos::Status::GenericFailure, error.to_string(), ))?;\n";

/// How many arguments of the wrapper are for it alone: the host, and the
/// session with the transfer.
pub open spec fn wrapper_args(shape: OperationShape) -> int {
    (if shape.requires_host {
        1int
    } else {
        0
    }) + (if shape.callback_transfer {
        2int
    } else {
        0
    })
}

/// The position of the first argument of the operation in the wrapper.
pub open spec fn first_arg(shape: OperationShape, operation: OhosOperationPlan) -> int {
    wrapper_args(shape) + (if operation.receiver is Some {
        1int
    } else {
        0
    })
}

/// Code that takes over the transfer, where there is one.
pub open spec fn emit_pre_head(
    out: Seq<char>,
    shape: OperationShape,
    operation: OhosOperationPlan,
) -> Seq<char> {
    let generation: int = if shape.requires_host {
        1
    } else {
        0
    };
    if shape.callback_transfer {
        out + TAKE_TRANSFERS@ + text::decimal(generation) + ", arg"@ + text::decimal(generation + 1)
            + TAKE_INVOKER@
    } else if has_host_lowered_argument(operation) {
        out + NO_TRANSFERS@
    } else {
        out
    }
}

/// The use-site is this argument itself.
pub open spec fn is_argument(path: PathModel, argument: int) -> bool {
    path.starts_at(argument) && path.segments.len() == 1
}

/// The first callback use-site at or after `from` that is this argument itself.
pub open spec fn callback_site_from(family: OperationModel, argument: int, from: int) -> Option<int>
    decreases family.callbacks.len() - from,
{
    if from >= family.callbacks.len() {
        None
    } else if is_argument(family.callbacks[from].path, argument) {
        Some(from)
    } else {
        callback_site_from(family, argument, from + 1)
    }
}

/// Some input stream use-site is this argument itself.
pub open spec fn has_stream_site(family: OperationModel, argument: int) -> bool {
    exists|i: int|
        #![trigger family.streams[i]]
        0 <= i < family.streams.len() && family.streams[i].direction is Input && is_argument(
            family.streams[i].path,
            argument,
        )
}

/// Code that makes the proxy of a callback, with its lease where it is
/// retained.
pub open spec fn emit_callback_proxy(
    out: Seq<char>,
    build: Seq<char>,
    site: CallbackSiteModel,
    site_index: int,
    position: int,
) -> Seq<char> {
    let retained = site.contract.retention is Retained;
    let leased = if retained {
        out + TAKE_LEASE@ + text::decimal(site_index) + LEASE_OR_FAIL@
    } else {
        out
    };
    emit_callback_argument(
        leased + "let arg"@ + text::decimal(position) + " = "@ + build + "(&arg0, "@ + text::decimal(
            site.callback_type_id as int,
        ) + "u32, arg"@ + text::decimal(position) + ", "@,
        site,
    ) + (if retained {
        ", __uniffi_callback_invoker.clone(), __uniffi_callback_lease, )?;\n"@
    } else {
        ", __uniffi_callback_invoker.clone(), )?;\n"@
    })
}

/// Code that makes one argument ready while the host is at hand.
pub open spec fn emit_pre_argument(
    out: Seq<char>,
    family: OperationModel,
    operation: OhosOperationPlan,
    shape: OperationShape,
    argument: int,
) -> Seq<char> {
    let position = first_arg(shape, operation) + argument;
    match operation.arguments@[argument].binding {
        OhosArgumentBinding::LowerWithHost { lower, .. } => out + "let arg"@ + text::decimal(
            position,
        ) + " = "@ + lower@ + "(&arg0, arg"@ + text::decimal(position) + TRANSFERRED_OR_FAIL@,
        OhosArgumentBinding::CallbackProxy { build, .. } => match callback_site_from(
            family,
            argument,
            0,
        ) {
            None => out,
            Some(index) => emit_callback_proxy(
                out,
                build@,
                family.callbacks[index],
                index,
                position,
            ),
        },
        OhosArgumentBinding::InputStreamProxy { build, .. } => out + "let arg"@ + text::decimal(
            position,
        ) + " = "@ + build@ + "(&arg0, arg"@ + text::decimal(position) + ")?;\n"@,
        _ => out,
    }
}

/// Code that makes the first `upto` arguments ready.
pub open spec fn emit_pre_arguments(
    out: Seq<char>,
    family: OperationModel,
    operation: OhosOperationPlan,
    shape: OperationShape,
    upto: int,
) -> Seq<char>
    decreases upto,
{
    if upto <= 0 {
        out
    } else {
        emit_pre_argument(
            emit_pre_arguments(out, family, operation, shape, upto - 1),
            family,
            operation,
            shape,
            upto - 1,
        )
    }
}

/// All code that runs before the call, while the host is at hand.
pub open spec fn pre_call_text(
    family: OperationModel,
    operation: OhosOperationPlan,
    shape: OperationShape,
) -> Seq<char> {
    emit_pre_arguments(
        emit_pre_head(Seq::empty(), shape, operation),
        family,
        operation,
        shape,
        operation.arguments@.len() as int,
    )
}

/// What keeps one argument from being generated.
pub open spec fn use_site_fault(
    family: OperationModel,
    operation: OhosOperationPlan,
    argument: int,
) -> Option<OhosEngineError> {
    let operation_id = operation.operation_id;
    match operation.arguments@[argument].binding {
        OhosArgumentBinding::CallbackProxy { .. } => if callback_site_from(
            family,
            argument,
            0,
        ) is None {
            Some(
                OhosEngineError::MissingStructuredUseSite {
                    operation_id,
                    argument: argument as usize,
                    role: "callback",
                },
            )
        } else {
            None
        },
        OhosArgumentBinding::InputStreamProxy { .. } => if !has_stream_site(family, argument) {
            Some(
                OhosEngineError::MissingStructuredUseSite {
                    operation_id,
                    argument: argument as usize,
                    role: "input stream",
                },
            )
        } else {
            None
        },
        _ => None,
    }
}

/// What keeps the first faulty argument at or after `from` from being
/// generated.
pub open spec fn use_sites_fault_from(
    family: OperationModel,
    operation: OhosOperationPlan,
    from: int,
) -> Option<OhosEngineError>
    decreases operation.arguments@.len() - from,
{
    if from >= operation.arguments@.len() {
        None
    } else if use_site_fault(family, operation, from) is Some {
        use_site_fault(family, operation, from)
    } else {
        use_sites_fault_from(family, operation, from + 1)
    }
}

/// What keeps an operation from being generated.
pub open spec fn generation_fault(family: OperationModel, operation: OhosOperationPlan) -> Option<
    OhosEngineError,
> {
    let operation_id = operation.operation_id;
    if !(operation.target is Native) {
        Some(OhosEngineError::InvalidOperationTarget { operation_id, kind: family.kind })
    } else if operation.receiver matches Some(receiver) && (receiver.binding is CallbackProxy
        || receiver.binding is InputStreamProxy) {
        Some(OhosEngineError::InvalidResourceReceiver { operation_id })
    } else {
        use_sites_fault_from(family, operation, 0)
    }
}

fn find_callback_site(family: &FamilyOperation, argument: usize) -> (r: Option<usize>)
    ensures
        match r {
            None => callback_site_from(family@, argument as int, 0) is None,
            Some(index) => {
                &&& callback_site_from(family@, argument as int, 0) == Some(index as int)
                &&& index < family.callbacks@.len()
            },
        },
{
    let mut i: usize = 0;
    while i < family.callbacks.len()
        invariant
            i <= family.callbacks.len(),
            callback_site_from(family@, argument as int, 0) == callback_site_from(
                family@,
                argument as int,
                i as int,
            ),
        decreases family.callbacks.len() - i,
    {
        let path = &family.callbacks[i].path;
        assert(family@.callbacks[i as int].path == path@);
        assert(path@.segments.len() == path.segments@.len());
        if path.starts_at(argument) && path.segments.len() == 1 {
            return Some(i);
        }
        i = i + 1;
    }
    None
}

fn find_stream_site(family: &FamilyOperation, argument: usize) -> (r: bool)
    ensures
        r == has_stream_site(family@, argument as int),
{
    let ghost sites = family@.streams;
    for i in 0..family.streams.len()
        invariant
            sites == family@.streams,
            forall|j: int|
                0 <= j < i ==> !((#[trigger] sites[j]).direction is Input && is_argument(
                    sites[j].path,
                    argument as int,
                )),
    {
        let site = &family.streams[i];
        assert(sites[i as int] == site@);
        assert(site.path@.segments.len() == site.path.segments@.len());
        if site.direction == StreamDirection::Input && site.path.starts_at(argument)
            && site.path.segments.len() == 1 {
            return true;
        }
    }
    false
}

fn write_callback_proxy(
    out: &mut String,
    build: &str,
    site: &CallbackUseSite,
    site_index: usize,
    position: u128,
)
    ensures
        final(out)@ == emit_callback_proxy(
            old(out)@,
            build@,
            site@,
            site_index as int,
            position as int,
        ),
{
    let retained: bool = site.contract.retention == CallbackRetention::Retained;
    if retained {
        out.append(TAKE_LEASE);
        text::push_decimal(out, site_index as u64);
        out.append(LEASE_OR_FAIL);
    }
    out.append("let arg");
    text::push_wide_decimal(out, position);
    out.append(" = ");
    out.append(build);
    out.append("(&arg0, ");
    text::push_decimal(out, site.callback_type_id as u64);
    out.append("u32, arg");
    text::push_wide_decimal(out, position);
    out.append(", ");
    write_callback_argument(out, site);
    if retained {
        out.append(", __uniffi_callback_invoker.clone(), __uniffi_callback_lease, )?;\n");
    } else {
        out.append(", __uniffi_callback_invoker.clone(), )?;\n");
    }
}

/// Writes the code that makes one argument ready, unless its use-site is
/// missing.
fn write_pre_argument(
    out: &mut String,
    family: &FamilyOperation,
    operation: &OhosOperationPlan,
    shape: OperationShape,
    argument: usize,
    position: u128,
) -> (r: Option<OhosEngineError>)
    requires
        argument < operation.arguments@.len(),
        position == first_arg(shape, *operation) + argument,
    ensures
        r == use_site_fault(family@, *operation, argument as int),
        r is None ==> final(out)@ == emit_pre_argument(
            old(out)@,
            family@,
            *operation,
            shape,
            argument as int,
        ),
{
    let operation_id: u32 = operation.operation_id;
    match &operation.arguments[argument].binding {
        OhosArgumentBinding::LowerWithHost { lower, .. } => {
            out.append("let arg");
            text::push_wide_decimal(out, position);
            out.append(" = ");
            out.append(lower.as_str());
            out.append("(&arg0, arg");
            text::push_wide_decimal(out, position);
            out.append(TRANSFERRED_OR_FAIL);
        },
        OhosArgumentBinding::CallbackProxy { build, .. } => {
            match find_callback_site(family, argument) {
                None => {
                    return Some(
                        OhosEngineError::MissingStructuredUseSite {
                            operation_id,
                            argument,
                            role: "callback",
                        },
                    );
                },
                Some(index) => {
                    assert(family@.callbacks[index as int] == family.callbacks@[index as int]@);
                    write_callback_proxy(
                        out,
                        build.as_str(),
                        &family.callbacks[index],
                        index,
                        position,
                    );
                },
            }
        },
        OhosArgumentBinding::InputStreamProxy { build, .. } => {
            if !find_stream_site(family, argument) {
                return Some(
                    OhosEngineError::MissingStructuredUseSite {
                        operation_id,
                        argument,
                        role: "input stream",
                    },
                );
            }
            out.append("let arg");
            text::push_wide_decimal(out, position);
            out.append(" = ");
            out.append(build.as_str());
            out.append("(&arg0, arg");
            text::push_wide_decimal(out, position);
            out.append(")?;\n");
        },
        _ => {},
    }
    None
}

pub(crate) fn count_wrapper_args(shape: OperationShape) -> (r: usize)
    ensures
        r == wrapper_args(shape),
{
    let host: usize = if shape.requires_host {
        1
    } else {
        0
    };
    let transfer: usize = if shape.callback_transfer {
        2
    } else {
        0
    };
    host + transfer
}

/// All code that runs before the call, unless a use-site is missing.
pub(crate) fn write_pre_call(family: &FamilyOperation, operation: &OhosOperationPlan, shape: OperationShape) -> (r:
    Result<String, OhosEngineError>)
    ensures
        match use_sites_fault_from(family@, *operation, 0) {
            Some(error) => r == Err::<String, OhosEngineError>(error),
            None => r matches Ok(out) && out@ == pre_call_text(family@, *operation, shape),
        },
{
    let mut out: String = String::new();
    if shape.callback_transfer {
        let generation: u64 = if shape.requires_host {
            1
        } else {
            0
        };
        out.append(TAKE_TRANSFERS);
        text::push_decimal(&mut out, generation);
        out.append(", arg");
        text::push_decimal(&mut out, generation + 1);
        out.append(TAKE_INVOKER);
    } else if lowers_with_host(operation) {
        out.append(NO_TRANSFERS);
    }
    let ghost head = out@;
    assert(head == emit_pre_head(Seq::empty(), shape, *operation));
    let receiver: usize = if operation.receiver.is_some() {
        1
    } else {
        0
    };
    let first: u64 = (count_wrapper_args(shape) + receiver) as u64;
    let mut argument: usize = 0;
    while argument < operation.arguments.len()
        invariant
            first == first_arg(shape, *operation),
            argument <= operation.arguments.len(),
            use_sites_fault_from(family@, *operation, 0) == use_sites_fault_from(
                family@,
                *operation,
                argument as int,
            ),
            out@ == emit_pre_arguments(head, family@, *operation, shape, argument as int),
        decreases operation.arguments.len() - argument,
    {
        let position: u128 = first as u128 + argument as u128;
        match write_pre_argument(&mut out, family, operation, shape, argument, position) {
            Some(error) => return Err(error),
            None => {},
        }
        argument = argument + 1;
    }
    Ok(out)
}

} // verus!
