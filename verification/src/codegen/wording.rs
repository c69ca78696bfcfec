//! What wrappers and descriptors say, use-site by use-site.

use crate::codegen::descriptor;
use crate::codegen::entry;
use crate::codegen::laws;
use crate::family::{
    AsyncKind, CallbackReentrancy, CallbackRetention, CallbackSiteModel, CallbackThreading,
    FamilyOperationTarget, OperationModel, PathModel, ReceiverBinding, ResourceKind,
    ResourceOwnership, ResultSiteModel, StreamDirection, StreamSiteModel,
};
use crate::plan::OhosOperationPlan;
use crate::session::dispatch;
use crate::session::dispatch::DispatchStep;
use crate::session::types::{
    SegmentModel, SessionCallbackErrorStyle, SessionOperationDispatch,
};
use crate::text;
use vstd::prelude::*;

verus! {

// ---- Paths and use-sites ----

/// A segment as Rust code writes it.
pub open spec fn segment_text(segment: SegmentModel) -> Seq<char> {
    "napi_ohos_uniffi_engine::SessionValuePathSegment::"@ + match segment {
        SegmentModel::Argument(index) => "Argument("@ + text::decimal(index as int) + "u32)"@,
        SegmentModel::Return => "Return"@,
        SegmentModel::StreamItem => "StreamItem"@,
        SegmentModel::StreamError => "StreamError"@,
        SegmentModel::Field(name) => "Field("@ + text::literal_text(name) + ".to_owned())"@,
        SegmentModel::Variant(name) => "Variant("@ + text::literal_text(name) + ".to_owned())"@,
        SegmentModel::Optional => "Optional"@,
        SegmentModel::SequenceElement => "SequenceElement"@,
        SegmentModel::MapKey => "MapKey"@,
        SegmentModel::MapValue => "MapValue"@,
        SegmentModel::SetElement => "SetElement"@,
    }
}

/// A path as Rust code writes it: the list of its segments.
pub open spec fn path_text(path: PathModel) -> Seq<char> {
    "path: vec!["@ + laws::comma_list(
        Seq::new(path.segments.len(), |i: int| segment_text(path.segments[i])),
    ) + "], "@
}

proof fn lemma_segment(out: Seq<char>, segment: SegmentModel)
    ensures
        entry::emit_segment(out, segment) == out + segment_text(segment),
{
    assert(entry::emit_segment(out, segment) =~= out + segment_text(segment));
}

proof fn lemma_segments(out: Seq<char>, path: Seq<SegmentModel>, upto: int)
    requires
        0 <= upto <= path.len(),
    ensures
        entry::emit_segments(out, path, upto) == out + laws::comma_list(
            Seq::new(upto as nat, |i: int| segment_text(path[i])),
        ),
    decreases upto,
{
    let listed = Seq::new(upto as nat, |i: int| segment_text(path[i]));
    if upto == 0 {
        assert(listed =~= Seq::empty());
        assert(out + Seq::empty() =~= out);
    } else {
        lemma_segments(out, path, upto - 1);
        let earlier = Seq::new((upto - 1) as nat, |i: int| segment_text(path[i]));
        assert(listed.drop_last() =~= earlier);
        let before = text::separated(entry::emit_segments(out, path, upto - 1), upto == 1);
        lemma_segment(before, path[upto - 1]);
        assert(listed.last() == segment_text(path[upto - 1]));
        if upto == 1 {
            assert(earlier =~= Seq::empty());
            assert(out + Seq::empty() =~= out);
        } else {
            assert(out + laws::comma_list(earlier) + ", "@ + listed.last() =~= out + (
            laws::comma_list(earlier) + ", "@ + listed.last()));
        }
    }
}

/// A path is written segment by segment, in order.
pub proof fn path_is_written_in_order(out: Seq<char>, path: PathModel)
    ensures
        entry::emit_path(out, path) == out + path_text(path),
{
    let open = "path: vec!["@;
    lemma_segments(out + open, path.segments, path.segments.len() as int);
    let listed = laws::comma_list(
        Seq::new(path.segments.len(), |i: int| segment_text(path.segments[i])),
    );
    assert(out + open + listed + "], "@ =~= out + (open + listed + "], "@));
}

/// A callback use-site as Rust code writes it.
pub open spec fn site_text(site: CallbackSiteModel) -> Seq<char> {
    "napi_ohos_uniffi_engine::SessionCallbackArgument { "@ + path_text(site.path)
        + "callback_type_id: "@ + text::decimal(site.callback_type_id as int)
        + "u32, retention: napi_ohos_uniffi_engine::SessionCallbackRetention::"@ + (
    if site.contract.retention == CallbackRetention::Scoped {
        "Scoped"@
    } else {
        "Retained"@
    }) + ", threading: napi_ohos_uniffi_engine::SessionCallbackThreading::"@ + (
    if site.contract.threading == CallbackThreading::CallingThread {
        "CallingThread"@
    } else {
        "MayCrossThread"@
    }) + ", reentrancy: napi_ohos_uniffi_engine::SessionCallbackReentrancy::"@ + (
    if site.contract.reentrancy == CallbackReentrancy::Allowed {
        "Allowed"@
    } else {
        "Forbidden"@
    }) + ", }"@
}

/// A callback use-site is written with its path, its type and each part of its
/// contract.
pub proof fn use_site_is_written_as_it_is(out: Seq<char>, site: CallbackSiteModel)
    ensures
        entry::emit_callback_argument(out, site) == out + site_text(site),
{
    let a = "napi_ohos_uniffi_engine::SessionCallbackArgument { "@;
    path_is_written_in_order(out + a, site.path);
    assert(out + a + path_text(site.path) =~= out + (a + path_text(site.path)));
    let head = a + path_text(site.path);
    assert(entry::emit_callback_argument(out, site) =~= out + site_text(site));
}

// ---- Descriptors ----

/// How the session performs an operation, by its target and mode: a native one by
/// its function, a callback method by the method of its callback type, and the
/// operations on an input stream of the host by what they do to it.
pub open spec fn performed_as(family: OperationModel) -> SessionOperationDispatch {
    let error_style = if family.fallible {
        SessionCallbackErrorStyle::Fallible
    } else {
        SessionCallbackErrorStyle::Infallible
    };
    match family.target {
        FamilyOperationTarget::Native => if family.async_kind == AsyncKind::Async {
            SessionOperationDispatch::NativeAsync
        } else {
            SessionOperationDispatch::NativeSync
        },
        FamilyOperationTarget::CallbackHost { callback_type_id, method_id } => {
            if family.async_kind == AsyncKind::Async {
                SessionOperationDispatch::CallbackHostAsync {
                    callback_type_id,
                    method_id,
                    error_style,
                }
            } else {
                SessionOperationDispatch::CallbackHostSync {
                    callback_type_id,
                    method_id,
                    error_style,
                }
            }
        },
        FamilyOperationTarget::InputStreamHostPull => SessionOperationDispatch::InputStreamHostPull,
        FamilyOperationTarget::InputStreamHostCancel => {
            SessionOperationDispatch::InputStreamHostCancel
        },
    }
}

/// The numbers and the error style of a callback method as Rust code writes them.
pub open spec fn method_text(
    callback_type_id: u32,
    method_id: u32,
    error_style: SessionCallbackErrorStyle,
) -> Seq<char> {
    text::decimal(callback_type_id as int) + "u32, method_id: "@ + text::decimal(method_id as int)
        + "u32, error_style: napi_ohos_uniffi_engine::SessionCallbackErrorStyle::"@ + (
    match error_style {
        SessionCallbackErrorStyle::Fallible => "Fallible, }"@,
        SessionCallbackErrorStyle::Infallible => "Infallible, }"@,
    })
}

/// A way to perform an operation as Rust code writes it.
pub open spec fn dispatch_text(dispatch: SessionOperationDispatch) -> Seq<char> {
    "napi_ohos_uniffi_engine::SessionOperationDispatch::"@ + match dispatch {
        SessionOperationDispatch::NativeSync => "NativeSync"@,
        SessionOperationDispatch::NativeAsync => "NativeAsync"@,
        SessionOperationDispatch::CallbackHostSync { callback_type_id, method_id, error_style } =>
        "CallbackHostSync { callback_type_id: "@ + method_text(
            callback_type_id,
            method_id,
            error_style,
        ),
        SessionOperationDispatch::CallbackHostAsync { callback_type_id, method_id, error_style } =>
        "CallbackHostAsync { callback_type_id: "@ + method_text(
            callback_type_id,
            method_id,
            error_style,
        ),
        SessionOperationDispatch::InputStreamHostPull => "InputStreamHostPull"@,
        SessionOperationDispatch::InputStreamHostCancel => "InputStreamHostCancel"@,
    }
}

proof fn lemma_dispatch(out: Seq<char>, family: OperationModel)
    ensures
        descriptor::emit_dispatch(out, family) == out + dispatch_text(performed_as(family)),
{
    let prefix = "napi_ohos_uniffi_engine::SessionOperationDispatch::"@;
    match family.target {
        FamilyOperationTarget::CallbackHost { callback_type_id, method_id } => {
            let mode = if family.async_kind == AsyncKind::Async {
                "CallbackHostAsync { callback_type_id: "@
            } else {
                "CallbackHostSync { callback_type_id: "@
            };
            let a = text::decimal(callback_type_id as int);
            let b = "u32, method_id: "@;
            let c = text::decimal(method_id as int);
            let d = "u32, error_style: napi_ohos_uniffi_engine::SessionCallbackErrorStyle::"@;
            let e = if family.fallible {
                "Fallible, }"@
            } else {
                "Infallible, }"@
            };
            laws::lemma_five(out + prefix + mode, a, b, c, d, e);
            assert(out + prefix + mode + (a + b + c + d + e) =~= out + (prefix + (mode + (a + b + c
                + d + e))));
        },
        _ => {
            assert(descriptor::emit_dispatch(out, family) =~= out + dispatch_text(
                performed_as(family),
            ));
        },
    }
}

/// A descriptor begins with how its operation is performed and with what makes a
/// callback of the native function, where there is one.
pub proof fn descriptor_begins_with_its_dispatch(
    family: OperationModel,
    operation: OhosOperationPlan,
    callback: Option<Seq<char>>,
)
    ensures
        text::goes_on(
            "napi_ohos_uniffi_engine::SessionOperationDescriptor { dispatch: "@ + dispatch_text(
                performed_as(family),
            ) + ", callback: "@ + (match callback {
                Some(name) => "Some(unsafe { "@ + name + "(env.raw())? })"@,
                None => "None"@,
            }) + ", native_call: napi_ohos_uniffi_engine::SessionNativeCall::"@,
            descriptor::descriptor_text(family, operation, callback),
        ),
{
    let whole = descriptor::descriptor_text(family, operation, callback);
    let open = "napi_ohos_uniffi_engine::SessionOperationDescriptor { dispatch: "@;
    let native = ", native_call: napi_ohos_uniffi_engine::SessionNativeCall::"@;
    lemma_dispatch(open, family);
    let dispatched = open + dispatch_text(performed_as(family)) + ", callback: "@;
    let made = match callback {
        Some(name) => "Some(unsafe { "@ + name + "(env.raw())? })"@,
        None => "None"@,
    };
    assert(descriptor::emit_callback(dispatched, callback) =~= dispatched + made);
    lemma_descriptor_chain(family, operation, callback);
    text::lemma_goes_on(dispatched + made + native, called_as(family, operation));
    text::lemma_goes_on_further(
        dispatched + made + native,
        called(family, operation, callback),
        whole,
    );
}

spec fn called_as(family: OperationModel, operation: OhosOperationPlan) -> Seq<char> {
    if entry::requires_host(family, operation) {
        "HostAndArguments"@
    } else {
        "ArgumentsOnly"@
    }
}

/// A descriptor up to how the native function is called.
spec fn called(
    family: OperationModel,
    operation: OhosOperationPlan,
    callback: Option<Seq<char>>,
) -> Seq<char> {
    descriptor::emit_callback(
        descriptor::emit_dispatch(
            "napi_ohos_uniffi_engine::SessionOperationDescriptor { dispatch: "@,
            family,
        ) + ", callback: "@,
        callback,
    ) + ", native_call: napi_ohos_uniffi_engine::SessionNativeCall::"@ + called_as(
        family,
        operation,
    )
}

spec fn received(
    family: OperationModel,
    operation: OhosOperationPlan,
    callback: Option<Seq<char>>,
) -> Seq<char> {
    descriptor::emit_receiver(
        called(family, operation, callback) + ", receiver: "@,
        family.receiver,
    ) + ", result_resources: vec!["@
}

spec fn resulted(
    family: OperationModel,
    operation: OhosOperationPlan,
    callback: Option<Seq<char>>,
) -> Seq<char> {
    descriptor::emit_results(
        received(family, operation, callback),
        family.result_resources,
        family.result_resources.len() as int,
    ) + "], callback_transfer: "@ + (if entry::has_argument_callbacks(family) {
        "true"@
    } else {
        "false"@
    }) + ", callback_arguments: vec!["@
}

spec fn with_callbacks(
    family: OperationModel,
    operation: OhosOperationPlan,
    callback: Option<Seq<char>>,
) -> Seq<char> {
    descriptor::emit_callbacks(
        resulted(family, operation, callback),
        family.callbacks,
        family.callbacks.len() as int,
    ) + "], stream_arguments: vec!["@
}

proof fn lemma_results_go_on(out: Seq<char>, sites: Seq<ResultSiteModel>, from: int, upto: int)
    requires
        0 <= from <= upto,
    ensures
        text::goes_on(
            descriptor::emit_results(out, sites, from),
            descriptor::emit_results(out, sites, upto),
        ),
    decreases upto,
{
    let here = descriptor::emit_results(out, sites, from);
    let after = descriptor::emit_results(out, sites, upto);
    if from < upto {
        lemma_results_go_on(out, sites, from, upto - 1);
        let earlier = descriptor::emit_results(out, sites, upto - 1);
        lemma_result(out, sites, upto - 1);
        assert(after.take(earlier.len() as int) =~= earlier);
        text::lemma_goes_on_further(here, earlier, after);
    } else {
        assert(after.take(here.len() as int) =~= here);
    }
}

/// A resource of the result as Rust code writes it.
pub open spec fn result_text(site: ResultSiteModel) -> Seq<char> {
    "napi_ohos_uniffi_engine::SessionResultResourceUseSite { "@ + path_text(site.path) + "kind: "@
        + "napi_ohos_uniffi_engine::SessionResourceReceiver::"@ + (match site.binding.kind {
        ResourceKind::Object => "Object"@,
        ResourceKind::InputStream => "InputStream"@,
        ResourceKind::OutputStream => "OutputStream"@,
    }) + ", ownership: "@ + "napi_ohos_uniffi_engine::SessionResourceOwnership::"@ + (
    match site.binding.ownership {
        ResourceOwnership::Owned => "Owned"@,
        ResourceOwnership::Borrowed => "Borrowed"@,
        ResourceOwnership::ByArc => "ByArc"@,
    }) + ", }"@
}

proof fn lemma_result(out: Seq<char>, sites: Seq<ResultSiteModel>, k: int)
    requires
        0 <= k,
    ensures
        descriptor::emit_results(out, sites, k + 1) == text::separated(
            descriptor::emit_results(out, sites, k),
            k == 0,
        ) + result_text(sites[k]),
{
    let site = sites[k];
    let before = text::separated(descriptor::emit_results(out, sites, k), k == 0);
    let a = "napi_ohos_uniffi_engine::SessionResultResourceUseSite { "@;
    path_is_written_in_order(before + a, site.path);
    let p = path_text(site.path);
    assert(before + a + p =~= before + (a + p));
    let b = "kind: "@;
    let c = "napi_ohos_uniffi_engine::SessionResourceReceiver::"@;
    let d = descriptor::kind_name(site.binding.kind);
    let e = ", ownership: "@;
    let f = "napi_ohos_uniffi_engine::SessionResourceOwnership::"@;
    let g = descriptor::ownership_name(site.binding.ownership);
    laws::lemma_seven(before, a + p, b, c, d, e, f, g);
    assert(before + (a + p + b + c + d + e + f + g) + ", }"@ =~= before + (a + p + b + c + d + e + f
        + g + ", }"@));
}

proof fn lemma_callbacks_go_on(
    out: Seq<char>,
    sites: Seq<CallbackSiteModel>,
    from: int,
    upto: int,
)
    requires
        0 <= from <= upto,
    ensures
        text::goes_on(
            descriptor::emit_callbacks(out, sites, from),
            descriptor::emit_callbacks(out, sites, upto),
        ),
    decreases upto,
{
    let here = descriptor::emit_callbacks(out, sites, from);
    let after = descriptor::emit_callbacks(out, sites, upto);
    if from < upto {
        lemma_callbacks_go_on(out, sites, from, upto - 1);
        let earlier = descriptor::emit_callbacks(out, sites, upto - 1);
        use_site_is_written_as_it_is(text::separated(earlier, upto == 1), sites[upto - 1]);
        assert(after.take(earlier.len() as int) =~= earlier);
        text::lemma_goes_on_further(here, earlier, after);
    } else {
        assert(after.take(here.len() as int) =~= here);
    }
}

/// A stream use-site as Rust code writes it.
pub open spec fn stream_text(site: StreamSiteModel) -> Seq<char> {
    "napi_ohos_uniffi_engine::SessionStreamArgument { "@ + path_text(site.path) + "use_site_id: "@
        + text::decimal(site.use_site_id as int)
        + "u32, direction: napi_ohos_uniffi_engine::SessionStreamDirection::Input, }"@
}

proof fn lemma_stream(out: Seq<char>, sites: Seq<StreamSiteModel>, k: int)
    requires
        0 <= k,
    ensures
        descriptor::emit_streams(out, sites, k + 1) == if sites[k].direction
            == StreamDirection::Input {
            text::separated(
                descriptor::emit_streams(out, sites, k),
                descriptor::no_input_before(sites, k),
            ) + stream_text(sites[k])
        } else {
            descriptor::emit_streams(out, sites, k)
        },
{
    let site = sites[k];
    if site.direction == StreamDirection::Input {
        let before = text::separated(
            descriptor::emit_streams(out, sites, k),
            descriptor::no_input_before(sites, k),
        );
        let a = "napi_ohos_uniffi_engine::SessionStreamArgument { "@;
        path_is_written_in_order(before + a, site.path);
        laws::lemma_five(
            before,
            a,
            path_text(site.path),
            "use_site_id: "@,
            text::decimal(site.use_site_id as int),
            "u32, direction: napi_ohos_uniffi_engine::SessionStreamDirection::Input, }"@,
        );
    }
}

proof fn lemma_streams_go_on(out: Seq<char>, sites: Seq<StreamSiteModel>, from: int, upto: int)
    requires
        0 <= from <= upto,
    ensures
        text::goes_on(
            descriptor::emit_streams(out, sites, from),
            descriptor::emit_streams(out, sites, upto),
        ),
    decreases upto,
{
    let here = descriptor::emit_streams(out, sites, from);
    let after = descriptor::emit_streams(out, sites, upto);
    if from < upto {
        lemma_streams_go_on(out, sites, from, upto - 1);
        let earlier = descriptor::emit_streams(out, sites, upto - 1);
        lemma_stream(out, sites, upto - 1);
        assert(after.take(earlier.len() as int) =~= earlier);
        text::lemma_goes_on_further(here, earlier, after);
    } else {
        assert(after.take(here.len() as int) =~= here);
    }
}

/// A descriptor goes on from part to part.
proof fn lemma_descriptor_chain(
    family: OperationModel,
    operation: OhosOperationPlan,
    callback: Option<Seq<char>>,
)
    ensures
        ({
            let whole = descriptor::descriptor_text(family, operation, callback);
            &&& text::goes_on(called(family, operation, callback), whole)
            &&& text::goes_on(received(family, operation, callback), whole)
            &&& text::goes_on(resulted(family, operation, callback), whole)
            &&& text::goes_on(with_callbacks(family, operation, callback), whole)
            &&& text::goes_on(
                descriptor::emit_results(
                    received(family, operation, callback),
                    family.result_resources,
                    family.result_resources.len() as int,
                ),
                whole,
            )
            &&& text::goes_on(
                descriptor::emit_callbacks(
                    resulted(family, operation, callback),
                    family.callbacks,
                    family.callbacks.len() as int,
                ),
                whole,
            )
            &&& text::goes_on(
                descriptor::emit_streams(
                    with_callbacks(family, operation, callback),
                    family.streams,
                    family.streams.len() as int,
                ),
                whole,
            )
        }),
{
    let whole = descriptor::descriptor_text(family, operation, callback);
    let one = called(family, operation, callback);
    let two = received(family, operation, callback);
    let three = resulted(family, operation, callback);
    let four = with_callbacks(family, operation, callback);
    let streams = descriptor::emit_streams(four, family.streams, family.streams.len() as int);
    assert(whole == streams + "], }"@);
    text::lemma_goes_on(streams, "], }"@);
    lemma_streams_go_on(four, family.streams, 0, family.streams.len() as int);
    text::lemma_goes_on_further(four, streams, whole);
    let callbacks = descriptor::emit_callbacks(
        three,
        family.callbacks,
        family.callbacks.len() as int,
    );
    text::lemma_goes_on(callbacks, "], stream_arguments: vec!["@);
    text::lemma_goes_on_further(callbacks, four, whole);
    lemma_callbacks_go_on(three, family.callbacks, 0, family.callbacks.len() as int);
    text::lemma_goes_on_further(three, callbacks, whole);
    let results = descriptor::emit_results(
        two,
        family.result_resources,
        family.result_resources.len() as int,
    );
    let transfer = if entry::has_argument_callbacks(family) {
        "true"@
    } else {
        "false"@
    };
    let rest = "], callback_transfer: "@ + transfer + ", callback_arguments: vec!["@;
    assert(three =~= results + rest);
    text::lemma_goes_on(results, rest);
    text::lemma_goes_on_further(results, three, whole);
    lemma_results_go_on(two, family.result_resources, 0, family.result_resources.len() as int);
    text::lemma_goes_on_further(two, results, whole);
    lemma_receiver(one + ", receiver: "@, family.receiver);
    let more = ", receiver: "@ + receiver_text(family.receiver) + ", result_resources: vec!["@;
    assert(two =~= one + more);
    text::lemma_goes_on(one, more);
    text::lemma_goes_on_further(one, two, whole);
}

/// A receiver as Rust code writes it.
pub open spec fn receiver_text(receiver: Option<ReceiverBinding>) -> Seq<char> {
    match receiver {
        None => "None"@,
        Some(ReceiverBinding::Value) => "Some(napi_ohos_uniffi_engine::SessionReceiver::"@
            + "Value)"@,
        Some(ReceiverBinding::Resource(resource)) => {
            "Some(napi_ohos_uniffi_engine::SessionReceiver::"@ + "Resource("@
                + "napi_ohos_uniffi_engine::SessionResourceReceiver::"@ + (match resource.kind {
                ResourceKind::Object => "Object"@,
                ResourceKind::InputStream => "InputStream"@,
                ResourceKind::OutputStream => "OutputStream"@,
            }) + "))"@
        },
    }
}

proof fn lemma_receiver(out: Seq<char>, receiver: Option<ReceiverBinding>)
    ensures
        descriptor::emit_receiver(out, receiver) == out + receiver_text(receiver),
{
    match receiver {
        Some(ReceiverBinding::Resource(resource)) => {
            laws::lemma_five(
                out,
                "Some(napi_ohos_uniffi_engine::SessionReceiver::"@,
                "Resource("@,
                "napi_ohos_uniffi_engine::SessionResourceReceiver::"@,
                descriptor::kind_name(resource.kind),
                "))"@,
            );
        },
        _ => {
            assert(descriptor::emit_receiver(out, receiver) =~= out + receiver_text(receiver));
        },
    }
}

/// A descriptor says how the native function is called, what the receiver is, and
/// whether a transfer of leases comes along.
pub proof fn descriptor_says_how_to_call(
    family: OperationModel,
    operation: OhosOperationPlan,
    callback: Option<Seq<char>>,
)
    ensures
        ({
            let whole = descriptor::descriptor_text(family, operation, callback);
            &&& text::says(
                whole,
                (if entry::requires_host(family, operation) {
                    "HostAndArguments"@
                } else {
                    "ArgumentsOnly"@
                }) + ", receiver: "@ + receiver_text(family.receiver)
                    + ", result_resources: vec!["@,
            )
            &&& text::says(
                whole,
                "], callback_transfer: "@ + (if exists|i: int|
                    #![trigger family.callbacks[i]]
                    0 <= i < family.callbacks.len() && family.callbacks[i].path.segments.len() > 0
                        && family.callbacks[i].path.segments[0] is Argument {
                    "true"@
                } else {
                    "false"@
                }) + ", callback_arguments: vec!["@,
            )
        }),
{
    let whole = descriptor::descriptor_text(family, operation, callback);
    lemma_descriptor_chain(family, operation, callback);
    let one = called(family, operation, callback);
    let two = received(family, operation, callback);
    lemma_receiver(one + ", receiver: "@, family.receiver);
    let before = descriptor::emit_callback(
        descriptor::emit_dispatch(
            "napi_ohos_uniffi_engine::SessionOperationDescriptor { dispatch: "@,
            family,
        ) + ", callback: "@,
        callback,
    ) + ", native_call: napi_ohos_uniffi_engine::SessionNativeCall::"@;
    let piece = called_as(family, operation) + ", receiver: "@ + receiver_text(family.receiver)
        + ", result_resources: vec!["@;
    assert(two =~= before + piece);
    text::lemma_says(before, piece, whole);
    let results = descriptor::emit_results(
        two,
        family.result_resources,
        family.result_resources.len() as int,
    );
    let transfer = if entry::has_argument_callbacks(family) {
        "true"@
    } else {
        "false"@
    };
    let rest = "], callback_transfer: "@ + transfer + ", callback_arguments: vec!["@;
    assert(resulted(family, operation, callback) =~= results + rest);
    text::lemma_says(results, rest, whole);
}

/// A descriptor names every resource of the result, every callback use-site and
/// every input stream.
pub proof fn descriptor_names_every_use_site(
    family: OperationModel,
    operation: OhosOperationPlan,
    callback: Option<Seq<char>>,
    i: int,
)
    ensures
        ({
            let whole = descriptor::descriptor_text(family, operation, callback);
            &&& 0 <= i < family.result_resources.len() ==> text::says(
                whole,
                result_text(family.result_resources[i]),
            )
            &&& 0 <= i < family.callbacks.len() ==> text::says(whole, site_text(family.callbacks[i]))
            &&& 0 <= i < family.streams.len() && family.streams[i].direction
                == StreamDirection::Input ==> text::says(whole, stream_text(family.streams[i]))
        }),
{
    let whole = descriptor::descriptor_text(family, operation, callback);
    lemma_descriptor_chain(family, operation, callback);
    if 0 <= i < family.result_resources.len() {
        let out = received(family, operation, callback);
        let sites = family.result_resources;
        lemma_result(out, sites, i);
        lemma_results_go_on(out, sites, i + 1, sites.len() as int);
        let before = text::separated(descriptor::emit_results(out, sites, i), i == 0);
        text::lemma_goes_on_further(
            before + result_text(sites[i]),
            descriptor::emit_results(out, sites, sites.len() as int),
            whole,
        );
        text::lemma_says(before, result_text(sites[i]), whole);
    }
    if 0 <= i < family.callbacks.len() {
        let out = resulted(family, operation, callback);
        let sites = family.callbacks;
        let before = text::separated(descriptor::emit_callbacks(out, sites, i), i == 0);
        use_site_is_written_as_it_is(before, sites[i]);
        lemma_callbacks_go_on(out, sites, i + 1, sites.len() as int);
        text::lemma_goes_on_further(
            before + site_text(sites[i]),
            descriptor::emit_callbacks(out, sites, sites.len() as int),
            whole,
        );
        text::lemma_says(before, site_text(sites[i]), whole);
    }
    if 0 <= i < family.streams.len() && family.streams[i].direction == StreamDirection::Input {
        let out = with_callbacks(family, operation, callback);
        let sites = family.streams;
        lemma_stream(out, sites, i);
        let before = text::separated(
            descriptor::emit_streams(out, sites, i),
            descriptor::no_input_before(sites, i),
        );
        lemma_streams_go_on(out, sites, i + 1, sites.len() as int);
        text::lemma_goes_on_further(
            before + stream_text(sites[i]),
            descriptor::emit_streams(out, sites, sites.len() as int),
            whole,
        );
        text::lemma_says(before, stream_text(sites[i]), whole);
    }
}

proof fn lemma_result_list(out: Seq<char>, sites: Seq<ResultSiteModel>, upto: int)
    requires
        0 <= upto <= sites.len(),
    ensures
        descriptor::emit_results(out, sites, upto) == out + laws::comma_list(
            Seq::new(upto as nat, |i: int| result_text(sites[i])),
        ),
    decreases upto,
{
    let listed = Seq::new(upto as nat, |i: int| result_text(sites[i]));
    if upto == 0 {
        assert(listed =~= Seq::empty());
        assert(out + Seq::empty() =~= out);
    } else {
        lemma_result_list(out, sites, upto - 1);
        let earlier = Seq::new((upto - 1) as nat, |i: int| result_text(sites[i]));
        assert(listed.drop_last() =~= earlier);
        lemma_result(out, sites, upto - 1);
        lemma_listed(out, earlier, listed);
    }
}

proof fn lemma_callback_list(out: Seq<char>, sites: Seq<CallbackSiteModel>, upto: int)
    requires
        0 <= upto <= sites.len(),
    ensures
        descriptor::emit_callbacks(out, sites, upto) == out + laws::comma_list(
            Seq::new(upto as nat, |i: int| site_text(sites[i])),
        ),
    decreases upto,
{
    let listed = Seq::new(upto as nat, |i: int| site_text(sites[i]));
    if upto == 0 {
        assert(listed =~= Seq::empty());
        assert(out + Seq::empty() =~= out);
    } else {
        lemma_callback_list(out, sites, upto - 1);
        let earlier = Seq::new((upto - 1) as nat, |i: int| site_text(sites[i]));
        assert(listed.drop_last() =~= earlier);
        use_site_is_written_as_it_is(
            text::separated(descriptor::emit_callbacks(out, sites, upto - 1), upto == 1),
            sites[upto - 1],
        );
        lemma_listed(out, earlier, listed);
    }
}

/// A list goes on with its last text, behind a comma unless it is the only one.
pub(crate) proof fn lemma_listed(out: Seq<char>, earlier: Seq<Seq<char>>, listed: Seq<Seq<char>>)
    requires
        listed.len() > 0,
        listed.drop_last() == earlier,
    ensures
        text::separated(out + laws::comma_list(earlier), earlier.len() == 0) + listed.last() == out
            + laws::comma_list(listed),
{
    if earlier.len() == 0 {
        assert(earlier =~= Seq::empty());
        assert(out + Seq::empty() =~= out);
        assert(listed.last() == listed[0]);
    } else {
        assert(out + laws::comma_list(earlier) + ", "@ + listed.last() =~= out + (
        laws::comma_list(earlier) + ", "@ + listed.last()));
    }
}

/// The input streams among the first `upto` stream use-sites, as Rust code writes
/// them.
pub open spec fn input_texts(sites: Seq<StreamSiteModel>, upto: int) -> Seq<Seq<char>>
    decreases upto,
{
    if upto <= 0 {
        Seq::empty()
    } else if sites[upto - 1].direction == StreamDirection::Input {
        input_texts(sites, upto - 1).push(stream_text(sites[upto - 1]))
    } else {
        input_texts(sites, upto - 1)
    }
}

proof fn lemma_no_input(sites: Seq<StreamSiteModel>, upto: int)
    requires
        0 <= upto <= sites.len(),
    ensures
        descriptor::no_input_before(sites, upto) == (input_texts(sites, upto).len() == 0),
    decreases upto,
{
    if upto > 0 {
        lemma_no_input(sites, upto - 1);
        if sites[upto - 1].direction == StreamDirection::Input {
            assert(!(descriptor::no_input_before(sites, upto)));
        } else {
            assert(descriptor::no_input_before(sites, upto) == descriptor::no_input_before(
                sites,
                upto - 1,
            ));
        }
    }
}

proof fn lemma_stream_list(out: Seq<char>, sites: Seq<StreamSiteModel>, upto: int)
    requires
        0 <= upto <= sites.len(),
    ensures
        descriptor::emit_streams(out, sites, upto) == out + laws::comma_list(
            input_texts(sites, upto),
        ),
    decreases upto,
{
    if upto == 0 {
        assert(out + Seq::empty() =~= out);
    } else {
        lemma_stream_list(out, sites, upto - 1);
        lemma_stream(out, sites, upto - 1);
        lemma_no_input(sites, upto - 1);
        if sites[upto - 1].direction == StreamDirection::Input {
            let earlier = input_texts(sites, upto - 1);
            let listed = input_texts(sites, upto);
            assert(listed.drop_last() =~= earlier);
            lemma_listed(out, earlier, listed);
        }
    }
}

/// A descriptor holds, in this order: how the operation is performed, what makes a
/// callback of its function, how that is called, its receiver, the resources of its
/// result, whether leases go along, its callback use-sites and its input streams.
pub proof fn descriptor_is_written_whole(
    family: OperationModel,
    operation: OhosOperationPlan,
    callback: Option<Seq<char>>,
)
    ensures
        descriptor::descriptor_text(family, operation, callback)
            == "napi_ohos_uniffi_engine::SessionOperationDescriptor { dispatch: "@ + dispatch_text(
            performed_as(family),
        ) + ", callback: "@ + (match callback {
            Some(name) => "Some(unsafe { "@ + name + "(env.raw())? })"@,
            None => "None"@,
        }) + ", native_call: napi_ohos_uniffi_engine::SessionNativeCall::"@ + (
        if entry::requires_host(family, operation) {
            "HostAndArguments"@
        } else {
            "ArgumentsOnly"@
        }) + ", receiver: "@ + receiver_text(family.receiver) + ", result_resources: vec!["@
            + laws::comma_list(
            Seq::new(
                family.result_resources.len(),
                |i: int| result_text(family.result_resources[i]),
            ),
        ) + "], callback_transfer: "@ + (if exists|i: int|
            #![trigger family.callbacks[i]]
            0 <= i < family.callbacks.len() && family.callbacks[i].path.segments.len() > 0
                && family.callbacks[i].path.segments[0] is Argument {
            "true"@
        } else {
            "false"@
        }) + ", callback_arguments: vec!["@ + laws::comma_list(
            Seq::new(family.callbacks.len(), |i: int| site_text(family.callbacks[i])),
        ) + "], stream_arguments: vec!["@ + laws::comma_list(
            input_texts(family.streams, family.streams.len() as int),
        ) + "], }"@,
{
    lemma_dispatch(
        "napi_ohos_uniffi_engine::SessionOperationDescriptor { dispatch: "@,
        family,
    );
    let dispatched = "napi_ohos_uniffi_engine::SessionOperationDescriptor { dispatch: "@
        + dispatch_text(performed_as(family)) + ", callback: "@;
    let made = match callback {
        Some(name) => "Some(unsafe { "@ + name + "(env.raw())? })"@,
        None => "None"@,
    };
    assert(descriptor::emit_callback(dispatched, callback) =~= dispatched + made);
    lemma_receiver(called(family, operation, callback) + ", receiver: "@, family.receiver);
    lemma_result_list(
        received(family, operation, callback),
        family.result_resources,
        family.result_resources.len() as int,
    );
    lemma_callback_list(
        resulted(family, operation, callback),
        family.callbacks,
        family.callbacks.len() as int,
    );
    lemma_stream_list(
        with_callbacks(family, operation, callback),
        family.streams,
        family.streams.len() as int,
    );
}

/// What the host is asked to do is what the family asked for: a pull pulls and a
/// cancel cancels, whatever the other parts of the operation.
pub proof fn streams_are_served_as_the_family_asks(family: OperationModel)
    ensures
        family.target == FamilyOperationTarget::InputStreamHostPull ==> dispatch::host_step(
            performed_as(family),
        ) == Some(DispatchStep::Stream { cancel: false }),
        family.target == FamilyOperationTarget::InputStreamHostCancel ==> dispatch::host_step(
            performed_as(family),
        ) == Some(DispatchStep::Stream { cancel: true }),
        family.target matches FamilyOperationTarget::CallbackHost { callback_type_id, method_id }
            ==> dispatch::host_step(performed_as(family)) == Some(
            DispatchStep::Callback {
                callback_type_id,
                method_id,
                error_style: if family.fallible {
                    SessionCallbackErrorStyle::Fallible
                } else {
                    SessionCallbackErrorStyle::Infallible
                },
                asynchronous: family.async_kind == AsyncKind::Async,
            },
        ),
        family.target == FamilyOperationTarget::Native ==> dispatch::host_step(
            performed_as(family),
        ) is None,
{
}

// ---- What can be described ----

/// Streams are pulled and cancelled asynchronously only, native operations need
/// their callback, and host operations have none.
pub proof fn operation_is_described_in_its_mode(family: OperationModel, has_callback: bool)
    ensures
        family.target == FamilyOperationTarget::InputStreamHostPull && family.async_kind
            == AsyncKind::Sync ==> descriptor::descriptor_fault(family, has_callback) == Some(
            "input-stream pull must be async"@,
        ),
        family.target == FamilyOperationTarget::InputStreamHostCancel && family.async_kind
            == AsyncKind::Sync ==> descriptor::descriptor_fault(family, has_callback) == Some(
            "input-stream cancel must be async"@,
        ),
        family.target == FamilyOperationTarget::Native && !has_callback
            ==> descriptor::descriptor_fault(family, has_callback) == Some(
            "native operation "@ + text::decimal(family.id as int) + " has no callback"@,
        ),
        family.target is CallbackHost && has_callback ==> descriptor::descriptor_fault(
            family,
            has_callback,
        ) == Some("host operation "@ + text::decimal(family.id as int) + " has a native callback"@),
{
}

/// The session can look at this callback use-site.
pub open spec fn callback_within_reach(site: CallbackSiteModel) -> bool {
    site.path.segments.len() > 0 && (site.path.segments[0] is Argument || site.path.segments[0] is
        Return)
}

/// The session can look at this stream use-site, or need not.
pub open spec fn stream_within_reach(site: StreamSiteModel) -> bool {
    site.direction == StreamDirection::Output || (site.path.segments.len() > 0
        && site.path.segments[0] is Argument)
}

proof fn lemma_callbacks_in_reach(family: OperationModel, from: int)
    requires
        0 <= from,
        forall|i: int|
            0 <= i < family.callbacks.len() ==> callback_within_reach(
                #[trigger] family.callbacks[i],
            ),
    ensures
        descriptor::unsupported_callback_from(family, from) is None,
    decreases family.callbacks.len() - from,
{
    if from < family.callbacks.len() {
        assert(callback_within_reach(family.callbacks[from]));
        lemma_callbacks_in_reach(family, from + 1);
    }
}

proof fn lemma_streams_in_reach(sites: Seq<StreamSiteModel>, from: int)
    requires
        0 <= from,
        forall|i: int| 0 <= i < sites.len() ==> stream_within_reach(#[trigger] sites[i]),
    ensures
        descriptor::unsupported_stream_from(sites, from) is None,
    decreases sites.len() - from,
{
    if from < sites.len() {
        assert(stream_within_reach(sites[from]));
        lemma_streams_in_reach(sites, from + 1);
    }
}

proof fn lemma_first_callback_out_of_reach(family: OperationModel, from: int, k: int)
    requires
        0 <= from <= k < family.callbacks.len(),
        !callback_within_reach(family.callbacks[k]),
        forall|i: int| 0 <= i < k ==> callback_within_reach(#[trigger] family.callbacks[i]),
    ensures
        descriptor::unsupported_callback_from(family, from) == Some(k),
    decreases k - from,
{
    if from < k {
        assert(callback_within_reach(family.callbacks[from]));
        lemma_first_callback_out_of_reach(family, from + 1, k);
    }
}

proof fn lemma_first_stream_out_of_reach(sites: Seq<StreamSiteModel>, from: int, k: int)
    requires
        0 <= from <= k < sites.len(),
        !stream_within_reach(sites[k]),
        forall|i: int| 0 <= i < k ==> stream_within_reach(#[trigger] sites[i]),
    ensures
        descriptor::unsupported_stream_from(sites, from) == Some(k),
    decreases k - from,
{
    if from < k {
        assert(stream_within_reach(sites[from]));
        lemma_first_stream_out_of_reach(sites, from + 1, k);
    }
}

/// An operation in its mode whose use-sites are all within reach can be described.
pub proof fn operation_within_reach_is_described(family: OperationModel, has_callback: bool)
    requires
        has_callback == (family.target == FamilyOperationTarget::Native),
        family.async_kind == AsyncKind::Async || family.target is Native || family.target is
            CallbackHost,
        forall|i: int|
            0 <= i < family.callbacks.len() ==> callback_within_reach(
                #[trigger] family.callbacks[i],
            ),
        forall|i: int|
            0 <= i < family.streams.len() ==> stream_within_reach(#[trigger] family.streams[i]),
    ensures
        descriptor::descriptor_fault(family, has_callback) is None,
{
    lemma_callbacks_in_reach(family, 0);
    lemma_streams_in_reach(family.streams, 0);
}

/// The first callback out of reach is named, and where there is none the first input
/// stream out of reach.
pub proof fn use_site_out_of_reach_is_named(family: OperationModel, has_callback: bool, k: int)
    requires
        has_callback == (family.target == FamilyOperationTarget::Native),
        family.async_kind == AsyncKind::Async || family.target is Native || family.target is
            CallbackHost,
    ensures
        0 <= k < family.callbacks.len() && !callback_within_reach(family.callbacks[k]) && (forall|
            i: int,
        |
            0 <= i < k ==> callback_within_reach(#[trigger] family.callbacks[i]))
            ==> descriptor::descriptor_fault(family, has_callback) == Some(
            "unsupported callback path for operation "@ + text::decimal(family.id as int) + ": "@
                + family.callbacks[k].path.notation,
        ),
        0 <= k < family.streams.len() && !stream_within_reach(family.streams[k]) && (forall|i: int|
            0 <= i < k ==> stream_within_reach(#[trigger] family.streams[i])) && (forall|i: int|
            0 <= i < family.callbacks.len() ==> callback_within_reach(
                #[trigger] family.callbacks[i],
            )) ==> descriptor::descriptor_fault(family, has_callback) == Some(
            "unsupported input-stream path for operation "@ + text::decimal(family.id as int)
                + ": "@ + family.streams[k].path.notation,
        ),
{
    if 0 <= k < family.callbacks.len() && !callback_within_reach(family.callbacks[k]) && (forall|
        i: int,
    |
        0 <= i < k ==> callback_within_reach(#[trigger] family.callbacks[i])) {
        lemma_first_callback_out_of_reach(family, 0, k);
    }
    if 0 <= k < family.streams.len() && !stream_within_reach(family.streams[k]) && (forall|i: int|
        0 <= i < k ==> stream_within_reach(#[trigger] family.streams[i])) && (forall|i: int|
        0 <= i < family.callbacks.len() ==> callback_within_reach(#[trigger] family.callbacks[i])) {
        lemma_first_stream_out_of_reach(family.streams, 0, k);
        lemma_callbacks_in_reach(family, 0);
    }
}

} // verus!
