//! The descriptors of operations that a generated factory hands to a session.

use crate::codegen::entry::{needs_host, takes_callbacks, write_callback_argument, write_path};
use crate::codegen::entry;
use crate::codegen::body;
use crate::ast::ArgModel;
use crate::error::OhosEngineError;
use crate::family::{
    AsyncKind, CallbackSiteModel, CallbackUseSite, FamilyOperation, FamilyOperationTarget, OperationModel,
    ReceiverBinding, ResourceKind, ResourceOwnership, ResultSiteModel, StreamDirection,
    StreamSiteModel, StreamUseSite,
};
use crate::plan::OhosOperationPlan;
use crate::text;
use vstd::prelude::*;
use vstd::string::StringExecFns;

verus! {

pub const DISPATCH: &'static str = "napi_ohos_uniffi_engine::SessionOperationDispatch::";

pub const ERROR_STYLE: &'static str = "u32, error_style: napi_ohos_uniffi_engine::SessionCallbackErrorStyle::";

pub const RECEIVER: &'static str = "Some(napi_ohos_uniffi_engine::SessionReceiver::";

pub const RESOURCE: &'static str = "napi_ohos_uniffi_engine::SessionResourceReceiver::";

pub const OWNERSHIP: &'static str = "napi_ohos_uniffi_engine::SessionResourceOwnership::";

pub const NATIVE_CALL: &'static str = ", native_call: napi_ohos_uniffi_engine::SessionNativeCall::";

/// How the session dispatches an operation.
pub open spec fn emit_dispatch(out: Seq<char>, family: OperationModel) -> Seq<char> {
    let asynchronous = family.async_kind is Async;
    match family.target {
        FamilyOperationTarget::Native => if asynchronous {
            out + DISPATCH@ + "NativeAsync"@
        } else {
            out + DISPATCH@ + "NativeSync"@
        },
        FamilyOperationTarget::CallbackHost { callback_type_id, method_id } => {
            let named = if asynchronous {
                out + DISPATCH@ + "CallbackHostAsync { callback_type_id: "@
            } else {
                out + DISPATCH@ + "CallbackHostSync { callback_type_id: "@
            };
            let styled = named + text::decimal(callback_type_id as int) + "u32, method_id: "@
                + text::decimal(method_id as int) + ERROR_STYLE@;
            if family.fallible {
                styled + "Fallible, }"@
            } else {
                styled + "Infallible, }"@
            }
        },
        FamilyOperationTarget::InputStreamHostPull => out + DISPATCH@ + "InputStreamHostPull"@,
        FamilyOperationTarget::InputStreamHostCancel => out + DISPATCH@ + "InputStreamHostCancel"@,
    }
}

fn write_dispatch(out: &mut String, family: &FamilyOperation)
    ensures
        final(out)@ == emit_dispatch(old(out)@, family@),
{
    let asynchronous: bool = family.async_kind == AsyncKind::Async;
    out.append(DISPATCH);
    match family.target {
        FamilyOperationTarget::Native => {
            if asynchronous {
                out.append("NativeAsync");
            } else {
                out.append("NativeSync");
            }
        },
        FamilyOperationTarget::CallbackHost { callback_type_id, method_id } => {
            if asynchronous {
                out.append("CallbackHostAsync { callback_type_id: ");
            } else {
                out.append("CallbackHostSync { callback_type_id: ");
            }
            text::push_decimal(out, callback_type_id as u64);
            out.append("u32, method_id: ");
            text::push_decimal(out, method_id as u64);
            out.append(ERROR_STYLE);
            if family.fallible {
                out.append("Fallible, }");
            } else {
                out.append("Infallible, }");
            }
        },
        FamilyOperationTarget::InputStreamHostPull => out.append("InputStreamHostPull"),
        FamilyOperationTarget::InputStreamHostCancel => out.append("InputStreamHostCancel"),
    }
}

/// A callback value made by a generated factory function, where there is one.
pub open spec fn emit_callback(out: Seq<char>, factory: Option<Seq<char>>) -> Seq<char> {
    match factory {
        Some(name) => out + "Some(unsafe { "@ + name + "(env.raw())? })"@,
        None => out + "None"@,
    }
}

/// Writes a callback value made by a generated factory function.
pub fn write_callback(out: &mut String, factory: Option<&String>)
    ensures
        final(out)@ == emit_callback(
            old(out)@,
            match factory {
                Some(name) => Some(name@),
                None => None,
            },
        ),
{
    match factory {
        Some(name) => {
            out.append("Some(unsafe { ");
            out.append(name.as_str());
            out.append("(env.raw())? })");
        },
        None => out.append("None"),
    }
}

pub open spec fn kind_name(kind: ResourceKind) -> Seq<char> {
    match kind {
        ResourceKind::Object => "Object"@,
        ResourceKind::InputStream => "InputStream"@,
        ResourceKind::OutputStream => "OutputStream"@,
    }
}

fn write_kind(out: &mut String, kind: ResourceKind)
    ensures
        final(out)@ == old(out)@ + kind_name(kind),
{
    match kind {
        ResourceKind::Object => out.append("Object"),
        ResourceKind::InputStream => out.append("InputStream"),
        ResourceKind::OutputStream => out.append("OutputStream"),
    }
}

pub open spec fn ownership_name(ownership: ResourceOwnership) -> Seq<char> {
    match ownership {
        ResourceOwnership::Owned => "Owned"@,
        ResourceOwnership::Borrowed => "Borrowed"@,
        ResourceOwnership::ByArc => "ByArc"@,
    }
}

pub open spec fn emit_receiver(out: Seq<char>, receiver: Option<ReceiverBinding>) -> Seq<char> {
    match receiver {
        None => out + "None"@,
        Some(ReceiverBinding::Value) => out + RECEIVER@ + "Value)"@,
        Some(ReceiverBinding::Resource(resource)) => out + RECEIVER@ + "Resource("@ + RESOURCE@
            + kind_name(resource.kind) + "))"@,
    }
}

fn write_receiver(out: &mut String, receiver: Option<ReceiverBinding>)
    ensures
        final(out)@ == emit_receiver(old(out)@, receiver),
{
    match receiver {
        None => out.append("None"),
        Some(ReceiverBinding::Value) => {
            out.append(RECEIVER);
            out.append("Value)");
        },
        Some(ReceiverBinding::Resource(resource)) => {
            out.append(RECEIVER);
            out.append("Resource(");
            out.append(RESOURCE);
            write_kind(out, resource.kind);
            out.append("))");
        },
    }
}

pub const RESULT_SITE: &'static str = "napi_ohos_uniffi_engine::SessionResultResourceUseSite { ";

/// The first `upto` resources of the result.
pub open spec fn emit_results(out: Seq<char>, sites: Seq<ResultSiteModel>, upto: int) -> Seq<char>
    decreases upto,
{
    if upto <= 0 {
        out
    } else {
        let site = sites[upto - 1];
        entry::emit_path(
            text::separated(emit_results(out, sites, upto - 1), upto == 1) + RESULT_SITE@,
            site.path,
        ) + "kind: "@ + RESOURCE@ + kind_name(site.binding.kind) + ", ownership: "@ + OWNERSHIP@
            + ownership_name(site.binding.ownership) + ", }"@
    }
}

fn write_results(out: &mut String, family: &FamilyOperation)
    ensures
        final(out)@ == emit_results(
            old(out)@,
            family@.result_resources,
            family@.result_resources.len() as int,
        ),
{
    let ghost start = out@;
    let ghost sites = family@.result_resources;
    for i in 0..family.result_resources.len()
        invariant
            sites == family@.result_resources,
            out@ == emit_results(start, sites, i as int),
    {
        let site = &family.result_resources[i];
        assert(sites[i as int] == site@);
        text::push_separator(out, i == 0);
        out.append(RESULT_SITE);
        write_path(out, &site.path);
        out.append("kind: ");
        out.append(RESOURCE);
        write_kind(out, site.binding.kind);
        out.append(", ownership: ");
        out.append(OWNERSHIP);
        out.append(
            match site.binding.ownership {
                ResourceOwnership::Owned => "Owned",
                ResourceOwnership::Borrowed => "Borrowed",
                ResourceOwnership::ByArc => "ByArc",
            },
        );
        out.append(", }");
    }
}

/// The first `upto` callback use-sites.
pub open spec fn emit_callbacks(out: Seq<char>, sites: Seq<CallbackSiteModel>, upto: int) -> Seq<char>
    decreases upto,
{
    if upto <= 0 {
        out
    } else {
        entry::emit_callback_argument(
            text::separated(emit_callbacks(out, sites, upto - 1), upto == 1),
            sites[upto - 1],
        )
    }
}

/// The callback path starts where a session can look.
pub open spec fn supported_callback(family: OperationModel, index: int) -> bool {
    family.callbacks[index].path.argument_rooted() || family.callbacks[index].path.return_rooted()
}

/// The first callback use-site at or after `from` that a session cannot look
/// at.
pub open spec fn unsupported_callback_from(family: OperationModel, from: int) -> Option<int>
    decreases family.callbacks.len() - from,
{
    if from >= family.callbacks.len() {
        None
    } else if !supported_callback(family, from) {
        Some(from)
    } else {
        unsupported_callback_from(family, from + 1)
    }
}

pub const STREAM_SITE: &'static str = "napi_ohos_uniffi_engine::SessionStreamArgument { ";

pub const STREAM_INPUT: &'static str = "u32, direction: napi_ohos_uniffi_engine::SessionStreamDirection::Input, }";

/// No input stream is among the first `upto` stream use-sites.
pub open spec fn no_input_before(sites: Seq<StreamSiteModel>, upto: int) -> bool {
    forall|i: int| 0 <= i < upto ==> !((#[trigger] sites[i]).direction is Input)
}

/// The input streams among the first `upto` stream use-sites.
pub open spec fn emit_streams(out: Seq<char>, sites: Seq<StreamSiteModel>, upto: int) -> Seq<char>
    decreases upto,
{
    if upto <= 0 {
        out
    } else {
        let head = emit_streams(out, sites, upto - 1);
        let site = sites[upto - 1];
        if site.direction is Input {
            entry::emit_path(
                text::separated(head, no_input_before(sites, upto - 1)) + STREAM_SITE@,
                site.path,
            ) + "use_site_id: "@ + text::decimal(site.use_site_id as int) + STREAM_INPUT@
        } else {
            head
        }
    }
}

/// The first input stream use-site at or after `from` that a session cannot
/// look at.
pub open spec fn unsupported_stream_from(sites: Seq<StreamSiteModel>, from: int) -> Option<int>
    decreases sites.len() - from,
{
    if from >= sites.len() {
        None
    } else if sites[from].direction is Input && !sites[from].path.argument_rooted() {
        Some(from)
    } else {
        unsupported_stream_from(sites, from + 1)
    }
}

/// What keeps an operation from being described.
pub open spec fn descriptor_fault(family: OperationModel, has_callback: bool) -> Option<Seq<char>> {
    let native = family.target is Native;
    if family.target is InputStreamHostPull && family.async_kind is Sync {
        Some("input-stream pull must be async"@)
    } else if family.target is InputStreamHostCancel && family.async_kind is Sync {
        Some("input-stream cancel must be async"@)
    } else if native && !has_callback {
        Some("native operation "@ + text::decimal(family.id as int) + " has no callback"@)
    } else if !native && has_callback {
        Some("host operation "@ + text::decimal(family.id as int) + " has a native callback"@)
    } else {
        match (
            unsupported_callback_from(family, 0),
            unsupported_stream_from(family.streams, 0),
        ) {
            (Some(index), _) => Some(
                "unsupported callback path for operation "@ + text::decimal(family.id as int) + ": "@
                    + family.callbacks[index].path.notation,
            ),
            (None, Some(index)) => Some(
                "unsupported input-stream path for operation "@ + text::decimal(family.id as int)
                    + ": "@ + family.streams[index].path.notation,
            ),
            (None, None) => None,
        }
    }
}

/// What a session is told of one operation.
#[verifier::ext_equal]
pub struct DescriptorModel {
    pub operation: OperationModel,
    /// What makes a callback of the native function.
    pub callback: Option<Seq<char>>,
    /// The native call gets the host before the arguments.
    pub host_and_arguments: bool,
    pub result_resources: Seq<ResultSiteModel>,
    /// The native call gets the session and a transfer of callback leases.
    pub callback_transfer: bool,
    pub callback_arguments: Seq<CallbackSiteModel>,
    pub stream_arguments: Seq<StreamSiteModel>,
}

/// What a session is told of one operation.
pub open spec fn described(
    family: OperationModel,
    operation: OhosOperationPlan,
    callback: Option<Seq<char>>,
) -> DescriptorModel {
    DescriptorModel {
        operation: family,
        callback,
        host_and_arguments: entry::requires_host(family, operation),
        result_resources: family.result_resources,
        callback_transfer: entry::has_argument_callbacks(family),
        callback_arguments: family.callbacks,
        stream_arguments: family.streams,
    }
}

/// A descriptor as source.
pub open spec fn emit_descriptor(descriptor: DescriptorModel) -> Seq<char> {
    let dispatched = emit_dispatch(
        "napi_ohos_uniffi_engine::SessionOperationDescriptor { dispatch: "@,
        descriptor.operation,
    ) + ", callback: "@;
    let called = emit_callback(dispatched, descriptor.callback) + NATIVE_CALL@ + (
    if descriptor.host_and_arguments {
        "HostAndArguments"@
    } else {
        "ArgumentsOnly"@
    }) + ", receiver: "@;
    let received = emit_receiver(called, descriptor.operation.receiver) + ", result_resources: vec!["@;
    let resulted = emit_results(
        received,
        descriptor.result_resources,
        descriptor.result_resources.len() as int,
    ) + "], callback_transfer: "@ + (if descriptor.callback_transfer {
        "true"@
    } else {
        "false"@
    }) + ", callback_arguments: vec!["@;
    let with_callbacks = emit_callbacks(
        resulted,
        descriptor.callback_arguments,
        descriptor.callback_arguments.len() as int,
    ) + "], stream_arguments: vec!["@;
    emit_streams(
        with_callbacks,
        descriptor.stream_arguments,
        descriptor.stream_arguments.len() as int,
    ) + "], }"@
}

/// The descriptor of one operation.
pub open spec fn descriptor_text(
    family: OperationModel,
    operation: OhosOperationPlan,
    callback: Option<Seq<char>>,
) -> Seq<char> {
    emit_descriptor(described(family, operation, callback))
}

fn codegen_error(head: &str, id: u32, tail: &str) -> (e: OhosEngineError)
    ensures
        e matches OhosEngineError::Codegen(reason) && reason@ == head@ + text::decimal(id as int)
            + tail@,
{
    let mut reason: String = head.to_owned();
    text::push_decimal(&mut reason, id as u64);
    reason.append(tail);
    OhosEngineError::Codegen(reason)
}

fn path_error(head: &str, id: u32, notation: &str) -> (e: OhosEngineError)
    ensures
        e matches OhosEngineError::Codegen(reason) && reason@ == head@ + text::decimal(id as int)
            + ": "@ + notation@,
{
    let mut reason: String = head.to_owned();
    text::push_decimal(&mut reason, id as u64);
    reason.append(": ");
    reason.append(notation);
    OhosEngineError::Codegen(reason)
}

/// Describes one operation for the session. `callback` names what makes a
/// callback of its native function.
pub fn session_descriptor(
    family: &FamilyOperation,
    operation: &OhosOperationPlan,
    callback: Option<&String>,
) -> (r: Result<String, OhosEngineError>)
    ensures
        match descriptor_fault(family@, callback is Some) {
            Some(reason) => r matches Err(OhosEngineError::Codegen(error)) && error@ == reason,
            None => r matches Ok(out) && out@ == descriptor_text(
                family@,
                *operation,
                match callback {
                    Some(name) => Some(name@),
                    None => None,
                },
            ),
        },
{
    let native: bool = matches!(family.target, FamilyOperationTarget::Native);
    let sync: bool = family.async_kind == AsyncKind::Sync;
    if sync && matches!(family.target, FamilyOperationTarget::InputStreamHostPull) {
        return Err(OhosEngineError::Codegen("input-stream pull must be async".to_owned()));
    }
    if sync && matches!(family.target, FamilyOperationTarget::InputStreamHostCancel) {
        return Err(OhosEngineError::Codegen("input-stream cancel must be async".to_owned()));
    }
    if native && callback.is_none() {
        return Err(codegen_error("native operation ", family.id, " has no callback"));
    }
    if !native && callback.is_some() {
        return Err(codegen_error("host operation ", family.id, " has a native callback"));
    }
    let mut out: String =
        "napi_ohos_uniffi_engine::SessionOperationDescriptor { dispatch: ".to_owned();
    write_dispatch(&mut out, family);
    out.append(", callback: ");
    write_callback(&mut out, callback);
    out.append(NATIVE_CALL);
    if needs_host(family, operation) {
        out.append("HostAndArguments");
    } else {
        out.append("ArgumentsOnly");
    }
    out.append(", receiver: ");
    write_receiver(&mut out, family.receiver);
    out.append(", result_resources: vec![");
    write_results(&mut out, family);
    out.append("], callback_transfer: ");
    if takes_callbacks(family) {
        out.append("true");
    } else {
        out.append("false");
    }
    out.append(", callback_arguments: vec![");
    let ghost head = out@;
    let mut i: usize = 0;
    while i < family.callbacks.len()
        invariant
            i <= family.callbacks.len(),
            out@ == emit_callbacks(head, family@.callbacks, i as int),
            descriptor_fault(family@, callback is Some) is Some ==> unsupported_callback_from(
                family@,
                0,
            ) is Some || unsupported_stream_from(family@.streams, 0) is Some,
            unsupported_callback_from(family@, 0) == unsupported_callback_from(family@, i as int),
            unsupported_callback_from(family@, 0) matches Some(index) ==> descriptor_fault(
                family@,
                callback is Some,
            ) == Some(
                "unsupported callback path for operation "@ + text::decimal(family@.id as int)
                    + ": "@ + family@.callbacks[index].path.notation,
            ),
        decreases family.callbacks.len() - i,
    {
        let site: &CallbackUseSite = &family.callbacks[i];
        assert(family@.callbacks[i as int] == site@);
        if !site.path.is_argument_rooted() && !site.path.is_return_rooted() {
            return Err(
                path_error(
                    "unsupported callback path for operation ",
                    family.id,
                    site.path.notation.as_str(),
                ),
            );
        }
        text::push_separator(&mut out, i == 0);
        write_callback_argument(&mut out, site);
        i = i + 1;
    }
    out.append("], stream_arguments: vec![");
    let ghost before_streams = out@;
    let ghost sites = family@.streams;
    let mut first: bool = true;
    let mut k: usize = 0;
    while k < family.streams.len()
        invariant
            k <= family.streams.len(),
            sites == family@.streams,
            first == no_input_before(sites, k as int),
            out@ == emit_streams(before_streams, sites, k as int),
            unsupported_callback_from(family@, 0) is None,
            descriptor_fault(family@, callback is Some) is Some ==> unsupported_stream_from(
                sites,
                0,
            ) is Some,
            unsupported_stream_from(sites, 0) == unsupported_stream_from(sites, k as int),
            unsupported_stream_from(sites, 0) matches Some(index) ==> descriptor_fault(
                family@,
                callback is Some,
            ) == Some(
                "unsupported input-stream path for operation "@ + text::decimal(family@.id as int)
                    + ": "@ + sites[index].path.notation,
            ),
        decreases family.streams.len() - k,
    {
        let site: &StreamUseSite = &family.streams[k];
        assert(sites[k as int] == site@);
        if site.direction == StreamDirection::Input {
            if !site.path.is_argument_rooted() {
                return Err(
                    path_error(
                        "unsupported input-stream path for operation ",
                        family.id,
                        site.path.notation.as_str(),
                    ),
                );
            }
            text::push_separator(&mut out, first);
            first = false;
            out.append(STREAM_SITE);
            write_path(&mut out, &site.path);
            out.append("use_site_id: ");
            text::push_decimal(&mut out, site.use_site_id as u64);
            out.append(STREAM_INPUT);
        }
        k = k + 1;
    }
    out.append("], }");
    Ok(out)
}

/// The arguments by which a wrapper is told of the session and the transfer.
pub open spec fn transfer_pair() -> Seq<ArgModel> {
    seq![
        ArgModel::Pattern("\"__uniffi_session_generation\": u32"@),
        ArgModel::Pattern("\"__uniffi_callback_transfer\": u32"@),
    ]
}

proof fn lemma_leading_names_differ()
    ensures
        body::HOST_PARAMETER@ != body::ENV_PARAMETER@,
        body::HOST_PARAMETER@ != "\"__uniffi_session_generation\": u32"@,
        body::HOST_PARAMETER@ != "\"__uniffi_callback_transfer\": u32"@,
        body::ENV_PARAMETER@ != "\"__uniffi_session_generation\": u32"@,
{
    reveal_strlit("__uniffi_host: napi_ohos::bindgen_prelude::Object<'static>");
    reveal_strlit("__uniffi_env: &napi_ohos::Env");
    reveal_strlit("\"__uniffi_session_generation\": u32");
    reveal_strlit("\"__uniffi_callback_transfer\": u32");
    assert(body::HOST_PARAMETER@[0] == '_');
    assert(body::HOST_PARAMETER@[9] == 'h');
    assert(body::ENV_PARAMETER@[9] == 'e');
    assert("\"__uniffi_session_generation\": u32"@[0] == '"');
    assert("\"__uniffi_callback_transfer\": u32"@[0] == '"');
    assert(body::ENV_PARAMETER@[0] == '_');
}

/// The wrapper of a native operation and its descriptor agree. The session is
/// told to pass the host exactly where the wrapper takes it, and then it comes
/// first; it is told to pass a transfer exactly where the wrapper takes the
/// session and the transfer, right after the host (and the environment, which no
/// script passes), and that is where some callback use-site starts at an
/// argument; and it is told of every callback use-site in the order by which the
/// wrapper takes their leases.
pub proof fn wrapper_and_descriptor_agree(
    family: OperationModel,
    operation: OhosOperationPlan,
    argument: int,
)
    requires
        family.target is Native,
        entry::generation_fault(family, operation) is None,
        descriptor_fault(family, true) is None,
    ensures
        ({
            let shape = entry::shape_of(family, operation);
            let wrapper = body::entry_function(family, operation, shape);
            let descriptor = described(
                family,
                operation,
                Some(entry::factory_name(operation.operation_id)),
            );
            let leading = body::leading_args(shape);
            let host = ArgModel::Pattern(body::HOST_PARAMETER@);
            let pair = (if descriptor.host_and_arguments {
                1int
            } else {
                0
            }) + (if shape.manual_async_entry {
                1int
            } else {
                0
            });
            &&& wrapper.args == leading + body::carried_args(
                operation,
                operation.arguments@.len() as int,
            )
            &&& descriptor.host_and_arguments <==> leading.contains(host)
            &&& descriptor.host_and_arguments ==> wrapper.args[0] == host
            &&& descriptor.callback_transfer <==> leading.len() == pair + 2
            &&& !descriptor.callback_transfer <==> leading.len() == pair
            &&& descriptor.callback_transfer ==> leading.subrange(pair, pair + 2) == transfer_pair()
            &&& descriptor.callback_transfer ==> descriptor.host_and_arguments
            &&& descriptor.callback_transfer <==> exists|i: int|
                #![trigger descriptor.callback_arguments[i]]
                0 <= i < descriptor.callback_arguments.len()
                    && descriptor.callback_arguments[i].path.argument_rooted()
            &&& descriptor.callback_arguments == family.callbacks
            &&& 0 <= argument < operation.arguments@.len()
                && operation.arguments@[argument].binding is CallbackProxy ==> {
                &&& entry::callback_site_from(family, argument, 0) matches Some(site)
                &&& 0 <= site < descriptor.callback_arguments.len()
                &&& entry::is_argument(descriptor.callback_arguments[site].path, argument)
            }
        }),
{
    let shape = entry::shape_of(family, operation);
    let leading = body::leading_args(shape);
    lemma_leading_names_differ();
    if shape.requires_host {
        assert(leading[0] == ArgModel::Pattern(body::HOST_PARAMETER@));
    }
    let pair = (if shape.requires_host {
        1int
    } else {
        0
    }) + (if shape.manual_async_entry {
        1int
    } else {
        0
    });
    if shape.callback_transfer {
        assert(leading.subrange(pair, pair + 2) =~= transfer_pair());
    }
    if 0 <= argument < operation.arguments@.len() {
        lemma_use_site_found(family, operation, argument, 0);
        lemma_found_callback_site(family, argument, 0);
    }
}

/// Where no argument is at fault, no single one is.
proof fn lemma_use_site_found(
    family: OperationModel,
    operation: OhosOperationPlan,
    argument: int,
    from: int,
)
    requires
        0 <= from <= argument < operation.arguments@.len(),
        entry::use_sites_fault_from(family, operation, from) is None,
    ensures
        entry::use_site_fault(family, operation, argument) is None,
    decreases argument - from,
{
    if from < argument {
        lemma_use_site_found(family, operation, argument, from + 1);
    }
}

/// A callback use-site that is found is the argument itself.
proof fn lemma_found_callback_site(family: OperationModel, argument: int, from: int)
    requires
        0 <= from,
    ensures
        entry::callback_site_from(family, argument, from) matches Some(site) ==> from <= site
            < family.callbacks.len() && entry::is_argument(family.callbacks[site].path, argument),
    decreases family.callbacks.len() - from,
{
    if from < family.callbacks.len() && !entry::is_argument(family.callbacks[from].path, argument) {
        lemma_found_callback_site(family, argument, from + 1);
    }
}

} // verus!
