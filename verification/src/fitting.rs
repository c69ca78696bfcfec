//! Which plans fit which operations, kind by kind.

use crate::error::OhosEngineError;
use crate::family::{
    FamilyModel, FamilyOperationTarget, OperationModel, PathModel, ReceiverBinding, ResourceKind,
    StreamDirection,
};
use crate::plan;
use crate::plan::{
    OhosArgumentBinding, OhosErrorBinding, OhosOperationPlan, OhosOperationTarget,
    OhosReceiverPlan, OhosResourceHooks, OhosReturnBinding,
};
use crate::session::types::SegmentModel;
use vstd::prelude::*;

verus! {

/// A path is the whole result where it is the one segment of the result; it starts
/// at an argument where its first segment is that argument, and at the result
/// where that is the result.
pub proof fn paths_start_where_their_first_segment_says(path: PathModel, argument: u32)
    ensures
        path.whole_return() <==> path.segments == seq![SegmentModel::Return],
        path.segments.len() > 0 && path.segments[0] == SegmentModel::Argument(argument)
            ==> path.argument_rooted() && path.starts_at(argument as int),
        path.starts_at(argument as int) ==> path.segments.len() > 0 && path.segments[0]
            == SegmentModel::Argument(argument),
        path.segments.len() > 0 && path.segments[0] == SegmentModel::Return ==> path.return_rooted(),
        path.argument_rooted() ==> path.segments.len() > 0 && path.segments[0] is Argument,
        path.return_rooted() ==> path.segments.len() > 0 && path.segments[0] == SegmentModel::Return,
{
    if path.whole_return() {
        assert(path.segments =~= seq![SegmentModel::Return]);
    }
}

/// The receiver of a plan fits that of the family: there is one in both or in
/// neither, a value is bound by one of the ways that carry values, and a resource
/// by the way of its kind, with the same ownership.
pub open spec fn receiver_fits(
    wanted: Option<ReceiverBinding>,
    given: Option<OhosReceiverPlan>,
) -> bool {
    match (wanted, given) {
        (None, None) => true,
        (Some(ReceiverBinding::Value), Some(receiver)) => match receiver.binding {
            OhosArgumentBinding::Direct { .. } => true,
            OhosArgumentBinding::I64BigInt => true,
            OhosArgumentBinding::U64BigInt => true,
            OhosArgumentBinding::LowerWith { .. } => true,
            OhosArgumentBinding::LowerWithHost { .. } => true,
            OhosArgumentBinding::ObjectLease { .. } => false,
            OhosArgumentBinding::OutputStreamLease { .. } => false,
            OhosArgumentBinding::CallbackProxy { .. } => false,
            OhosArgumentBinding::InputStreamProxy { .. } => false,
        },
        (Some(ReceiverBinding::Resource(resource)), Some(receiver)) => match receiver.binding {
            OhosArgumentBinding::ObjectLease { ownership, .. } => resource.kind
                == ResourceKind::Object && resource.ownership == ownership,
            OhosArgumentBinding::OutputStreamLease { ownership, .. } => resource.kind
                == ResourceKind::OutputStream && resource.ownership == ownership,
            OhosArgumentBinding::InputStreamProxy { .. } => resource.kind
                == ResourceKind::InputStream,
            _ => false,
        },
        _ => false,
    }
}

/// A receiver is accepted exactly where it fits, and otherwise refused for what is
/// wrong with it.
pub proof fn receiver_is_accepted_exactly_where_it_fits(
    family: OperationModel,
    operation: OhosOperationPlan,
)
    ensures
        plan::receiver_fault(family, operation) is None <==> receiver_fits(
            family.receiver,
            operation.receiver,
        ),
        plan::receiver_fault(family, operation) matches Some(error) ==> {
            &&& family.receiver is Some && operation.receiver is None ==> error
                == (OhosEngineError::MissingReceiver { operation_id: operation.operation_id })
            &&& family.receiver is None && operation.receiver is Some ==> error
                == (OhosEngineError::UnexpectedReceiver { operation_id: operation.operation_id })
            &&& family.receiver == Some(ReceiverBinding::Value) && operation.receiver is Some
                ==> error == (OhosEngineError::InvalidValueReceiver {
                operation_id: operation.operation_id,
            })
            &&& family.receiver is Some && family.receiver != Some(ReceiverBinding::Value)
                && operation.receiver is Some ==> error == (
            OhosEngineError::InvalidResourceReceiver { operation_id: operation.operation_id })
        },
{
}

/// The result of a plan fits: an object is leased as an object, an output stream
/// as an output stream, and nothing else is leased as either.
pub open spec fn result_fits(kind: Option<ResourceKind>, binding: OhosReturnBinding) -> bool {
    match binding {
        OhosReturnBinding::ObjectLease { .. } => kind == Some(ResourceKind::Object),
        OhosReturnBinding::OutputStreamLease { .. } => kind == Some(ResourceKind::OutputStream),
        _ => kind != Some(ResourceKind::Object) && kind != Some(ResourceKind::OutputStream),
    }
}

pub proof fn result_is_accepted_exactly_where_it_fits(
    family: OperationModel,
    operation: OhosOperationPlan,
)
    ensures
        plan::result_fault(family, operation) is None <==> result_fits(
            family.direct_result(),
            operation.return_binding,
        ),
        plan::result_fault(family, operation) matches Some(error) ==> error == (
        OhosEngineError::InvalidResourceResult { operation_id: operation.operation_id }),
{
}

/// Some callback use-site is this argument itself, or lies inside it.
pub open spec fn callback_at(family: OperationModel, argument: int, inside: bool) -> bool {
    exists|i: int|
        #![trigger family.callbacks[i]]
        {
            let segments = family.callbacks[i].path.segments;
            &&& 0 <= i < family.callbacks.len()
            &&& segments.len() > 0
            &&& segments[0] == SegmentModel::Argument(argument as u32)
            &&& inside == (segments.len() > 1)
        }
}

/// Some input stream use-site is this argument itself, or lies inside it.
pub open spec fn stream_at(family: OperationModel, argument: int, inside: bool) -> bool {
    exists|i: int|
        #![trigger family.streams[i]]
        {
            let segments = family.streams[i].path.segments;
            &&& 0 <= i < family.streams.len()
            &&& family.streams[i].direction == StreamDirection::Input
            &&& segments.len() > 0
            &&& segments[0] == SegmentModel::Argument(argument as u32)
            &&& inside == (segments.len() > 1)
        }
}

/// An argument fits its use-sites: it is a callback proxy just where it is a
/// callback, an input stream proxy just where it is an input stream, and lowered
/// with the host just where one of them lies inside.
pub open spec fn argument_fits(
    family: OperationModel,
    argument: int,
    binding: OhosArgumentBinding,
) -> bool {
    &&& binding is CallbackProxy == callback_at(family, argument, false)
    &&& binding is InputStreamProxy == stream_at(family, argument, false)
    &&& binding is LowerWithHost == (callback_at(family, argument, true) || stream_at(
        family,
        argument,
        true,
    ))
}

pub(crate) proof fn lemma_use_sites(family: OperationModel, argument: int)
    requires
        0 <= argument <= u32::MAX,
    ensures
        plan::direct_callback(family, argument) == callback_at(family, argument, false),
        plan::nested_callback(family, argument) == callback_at(family, argument, true),
        plan::direct_stream(family, argument) == stream_at(family, argument, false),
        plan::nested_stream(family, argument) == stream_at(family, argument, true),
{
    assert forall|i: int| #![trigger family.callbacks[i]] 0 <= i < family.callbacks.len() implies (
    family.callbacks[i].path.starts_at(argument) <==> family.callbacks[i].path.segments.len() > 0
        && family.callbacks[i].path.segments[0] == SegmentModel::Argument(argument as u32)) by {}
    assert forall|i: int| #![trigger family.streams[i]] 0 <= i < family.streams.len() implies (
    family.streams[i].path.starts_at(argument) <==> family.streams[i].path.segments.len() > 0
        && family.streams[i].path.segments[0] == SegmentModel::Argument(argument as u32)) by {}
}

/// An argument is accepted exactly where it fits its use-sites.
pub proof fn argument_is_accepted_exactly_where_it_fits(
    family: OperationModel,
    operation: OhosOperationPlan,
    argument: int,
)
    requires
        0 <= argument < operation.arguments@.len(),
        argument <= u32::MAX,
    ensures
        plan::argument_fault(family, operation, argument) is None <==> argument_fits(
            family,
            argument,
            operation.arguments@[argument].binding,
        ),
        plan::argument_fault(family, operation, argument) matches Some(error) ==> (
        error matches OhosEngineError::InvalidStructuredBinding {
            operation_id,
            argument: at,
            role,
        } && operation_id == operation.operation_id && at == argument && {
            ||| role == "callback" && (operation.arguments@[argument].binding is CallbackProxy
                != callback_at(family, argument, false) || callback_at(family, argument, true))
            ||| role == "input stream" && (operation.arguments@[argument].binding is InputStreamProxy
                != stream_at(family, argument, false) || stream_at(family, argument, true))
            ||| role == "callback or input stream"
                && operation.arguments@[argument].binding is LowerWithHost
        }),
{
    lemma_use_sites(family, argument);
}

proof fn lemma_arguments(family: OperationModel, operation: OhosOperationPlan, from: int)
    requires
        0 <= from,
        operation.arguments@.len() <= u32::MAX,
    ensures
        plan::arguments_fault_from(family, operation, from) is None <==> forall|a: int|
            from <= a < operation.arguments@.len() ==> argument_fits(
                family,
                a,
                (#[trigger] operation.arguments@[a]).binding,
            ),
    decreases operation.arguments@.len() - from,
{
    if from < operation.arguments@.len() {
        argument_is_accepted_exactly_where_it_fits(family, operation, from);
        lemma_arguments(family, operation, from + 1);
        assert(operation.arguments@[from] == operation.arguments@[from]);
    }
}

/// The names of the parameters differ: those of the arguments from each other and
/// from that of the receiver.
pub open spec fn names_differ(operation: OhosOperationPlan) -> bool {
    &&& forall|i: int, j: int|
        #![trigger operation.arguments@[i], operation.arguments@[j]]
        0 <= i < j < operation.arguments@.len() ==> operation.arguments@[i].name@
            != operation.arguments@[j].name@
    &&& operation.receiver matches Some(receiver) ==> forall|i: int|
        0 <= i < operation.arguments@.len() ==> (#[trigger] operation.arguments@[i]).name@
            != receiver.name@
}

proof fn lemma_names(operation: OhosOperationPlan, from: int)
    requires
        0 <= from,
    ensures
        plan::repeated_name_from(operation, from) is None <==> forall|i: int|
            from <= i < operation.arguments@.len() ==> !#[trigger] plan::repeats_name(operation, i),
    decreases operation.arguments@.len() - from,
{
    if from < operation.arguments@.len() {
        lemma_names(operation, from + 1);
    }
}

proof fn lemma_names_differ(operation: OhosOperationPlan)
    ensures
        plan::repeated_name_from(operation, 0) is None <==> names_differ(operation),
{
    lemma_names(operation, 0);
    if plan::repeated_name_from(operation, 0) is None {
        assert forall|i: int, j: int|
            #![trigger operation.arguments@[i], operation.arguments@[j]]
            0 <= i < j < operation.arguments@.len() implies operation.arguments@[i].name@
            != operation.arguments@[j].name@ by {
            assert(!plan::repeats_name(operation, j));
        }
        if let Some(receiver) = operation.receiver {
            assert forall|i: int| 0 <= i < operation.arguments@.len() implies (
            #[trigger] operation.arguments@[i]).name@ != receiver.name@ by {
                assert(!plan::repeats_name(operation, i));
            }
        }
    }
    if names_differ(operation) {
        assert forall|i: int| 0 <= i < operation.arguments@.len() implies !#[trigger]
        plan::repeats_name(operation, i) by {
            assert(operation.arguments@[i] == operation.arguments@[i]);
        }
    }
}

/// A plan fits an operation.
pub open spec fn operation_fits(family: OperationModel, operation: OhosOperationPlan) -> bool {
    match (family.target, operation.target) {
        (FamilyOperationTarget::Native, OhosOperationTarget::Native { .. }) => {
            &&& operation.arguments@.len() == family.argument_count
            &&& receiver_fits(family.receiver, operation.receiver)
            &&& result_fits(family.direct_result(), operation.return_binding)
            &&& forall|a: int|
                0 <= a < operation.arguments@.len() ==> argument_fits(
                    family,
                    a,
                    (#[trigger] operation.arguments@[a]).binding,
                )
            &&& operation.return_binding is CallbackLease == (exists|i: int|
                #![trigger family.callbacks[i]]
                0 <= i < family.callbacks.len() && family.callbacks[i].path.segments == seq![
                    SegmentModel::Return,
                ])
            &&& operation.error_binding == OhosErrorBinding::Infallible <==> !family.fallible
            &&& names_differ(operation)
        },
        (FamilyOperationTarget::CallbackHost { .. }, OhosOperationTarget::CallbackHost) => {
            unbound(family, operation)
        },
        (
            FamilyOperationTarget::InputStreamHostPull,
            OhosOperationTarget::InputStreamHostPull,
        ) => unbound(family, operation),
        (
            FamilyOperationTarget::InputStreamHostCancel,
            OhosOperationTarget::InputStreamHostCancel,
        ) => unbound(family, operation),
        _ => false,
    }
}

/// The host serves the operation: no Rust value goes in or comes out, and nothing
/// is leased.
pub open spec fn unbound(family: OperationModel, operation: OhosOperationPlan) -> bool {
    &&& operation.receiver is None
    &&& operation.arguments@.len() == 0
    &&& operation.return_binding == OhosReturnBinding::Unit
    &&& operation.error_binding == OhosErrorBinding::Infallible
    &&& family.callbacks.len() == 0
    &&& family.streams.len() == 0
}

/// The plan of an operation is accepted exactly where it fits.
pub proof fn operation_is_accepted_exactly_where_it_fits(
    family: OperationModel,
    operation: OhosOperationPlan,
)
    requires
        operation.arguments@.len() <= u32::MAX,
    ensures
        plan::operation_fault(family, operation) is None <==> operation_fits(family, operation),
{
    receiver_is_accepted_exactly_where_it_fits(family, operation);
    result_is_accepted_exactly_where_it_fits(family, operation);
    lemma_arguments(family, operation, 0);
    lemma_names_differ(operation);
    assert(plan::direct_return_callback(family) <==> exists|i: int|
        #![trigger family.callbacks[i]]
        0 <= i < family.callbacks.len() && family.callbacks[i].path.segments == seq![
            SegmentModel::Return,
        ]) by {
        assert forall|i: int| #![trigger family.callbacks[i]] 0 <= i
            < family.callbacks.len() implies (family.callbacks[i].path.whole_return()
            <==> family.callbacks[i].path.segments == seq![SegmentModel::Return]) by {
            paths_start_where_their_first_segment_says(family.callbacks[i].path, 0);
        }
    }
}

/// What the plan of an operation is refused for is wrong with it, with the numbers
/// of that plan.
pub proof fn refused_operation_is_at_fault(family: OperationModel, operation: OhosOperationPlan)
    requires
        operation.arguments@.len() <= u32::MAX,
    ensures
        plan::operation_fault(family, operation) matches Some(error) ==> match error {
            OhosEngineError::InvalidOperationTarget { operation_id, kind } => {
                &&& operation_id == operation.operation_id
                &&& kind == family.kind
                &&& !(family.target is Native && operation.target is Native)
                &&& !(family.target is CallbackHost && operation.target is CallbackHost)
                &&& !(family.target is InputStreamHostPull
                    && operation.target is InputStreamHostPull)
                &&& !(family.target is InputStreamHostCancel
                    && operation.target is InputStreamHostCancel)
            },
            OhosEngineError::ArgumentCount { operation_id, expected, actual } => {
                &&& operation_id == operation.operation_id
                &&& expected == family.argument_count
                &&& actual == operation.arguments@.len()
                &&& expected != actual
            },
            OhosEngineError::MissingErrorDescriptor { operation_id } => {
                &&& operation_id == operation.operation_id
                &&& family.fallible
                &&& operation.error_binding == OhosErrorBinding::Infallible
            },
            OhosEngineError::UnexpectedErrorDescriptor { operation_id } => {
                &&& operation_id == operation.operation_id
                &&& !family.fallible
                &&& operation.error_binding != OhosErrorBinding::Infallible
            },
            OhosEngineError::InvalidReturnBinding { operation_id, .. } => {
                &&& operation_id == operation.operation_id
                &&& operation.return_binding is CallbackLease != (exists|i: int|
                    #![trigger family.callbacks[i]]
                    0 <= i < family.callbacks.len() && family.callbacks[i].path.segments == seq![
                        SegmentModel::Return,
                    ])
            },
            OhosEngineError::HostOperationHasRustBindings { operation_id } => {
                &&& operation_id == operation.operation_id
                &&& !(operation.target is Native)
                &&& operation.receiver is Some || operation.arguments@.len() > 0
                    || operation.return_binding != OhosReturnBinding::Unit
                    || operation.error_binding != OhosErrorBinding::Infallible
            },
            OhosEngineError::HostOperationHasStructuredUseSites { operation_id } => {
                &&& operation_id == operation.operation_id
                &&& !(operation.target is Native)
                &&& family.callbacks.len() > 0 || family.streams.len() > 0
            },
            OhosEngineError::DuplicateRustArgument { operation_id, name } => {
                &&& operation_id == operation.operation_id
                &&& !names_differ(operation)
                &&& exists|i: int|
                    0 <= i < operation.arguments@.len() && (
                    #[trigger] operation.arguments@[i]).name == name
            },
            OhosEngineError::MissingReceiver { operation_id } => operation_id
                == operation.operation_id && family.receiver is Some && operation.receiver is None,
            OhosEngineError::UnexpectedReceiver { operation_id } => operation_id
                == operation.operation_id && family.receiver is None && operation.receiver is Some,
            OhosEngineError::InvalidValueReceiver { operation_id } => operation_id
                == operation.operation_id && family.receiver == Some(ReceiverBinding::Value)
                && !receiver_fits(family.receiver, operation.receiver),
            OhosEngineError::InvalidResourceReceiver { operation_id } => operation_id
                == operation.operation_id && family.receiver is Some && !receiver_fits(
                family.receiver,
                operation.receiver,
            ),
            OhosEngineError::InvalidResourceResult { operation_id } => operation_id
                == operation.operation_id && !result_fits(
                family.direct_result(),
                operation.return_binding,
            ),
            OhosEngineError::InvalidStructuredBinding { operation_id, argument, .. } => {
                &&& operation_id == operation.operation_id
                &&& argument < operation.arguments@.len()
                &&& !argument_fits(
                    family,
                    argument as int,
                    operation.arguments@[argument as int].binding,
                )
            },
            _ => false,
        },
{
    receiver_is_accepted_exactly_where_it_fits(family, operation);
    result_is_accepted_exactly_where_it_fits(family, operation);
    lemma_first_argument_fault(family, operation, 0);
    lemma_names_differ(operation);
    lemma_first_repeated_name(operation, 0);
    assert forall|i: int| #![trigger family.callbacks[i]] 0 <= i < family.callbacks.len() implies (
    family.callbacks[i].path.whole_return() <==> family.callbacks[i].path.segments == seq![
        SegmentModel::Return,
    ]) by {
        paths_start_where_their_first_segment_says(family.callbacks[i].path, 0);
    }
}

proof fn lemma_first_argument_fault(
    family: OperationModel,
    operation: OhosOperationPlan,
    from: int,
)
    requires
        0 <= from,
        operation.arguments@.len() <= u32::MAX,
    ensures
        plan::arguments_fault_from(family, operation, from) matches Some(error) ==> (
        error matches OhosEngineError::InvalidStructuredBinding { operation_id, argument, .. }
            && operation_id == operation.operation_id && argument < operation.arguments@.len()
            && !argument_fits(
            family,
            argument as int,
            operation.arguments@[argument as int].binding,
        )),
    decreases operation.arguments@.len() - from,
{
    if from < operation.arguments@.len() {
        argument_is_accepted_exactly_where_it_fits(family, operation, from);
        lemma_first_argument_fault(family, operation, from + 1);
    }
}

proof fn lemma_first_repeated_name(operation: OhosOperationPlan, from: int)
    requires
        0 <= from,
    ensures
        plan::repeated_name_from(operation, from) matches Some(index) ==> from <= index
            < operation.arguments@.len(),
    decreases operation.arguments@.len() - from,
{
    if from < operation.arguments@.len() {
        lemma_first_repeated_name(operation, from + 1);
    }
}

/// The family makes or takes resources of this kind.
pub open spec fn handles(family: FamilyModel, kind: ResourceKind) -> bool {
    exists|i: int|
        #![trigger family.operations[i]]
        0 <= i < family.operations.len() && {
            ||| family.operations[i].receiver matches Some(ReceiverBinding::Resource(resource))
                && resource.kind == kind
            ||| exists|k: int|
                #![trigger family.operations[i].result_resources[k]]
                0 <= k < family.operations[i].result_resources.len()
                    && family.operations[i].result_resources[k].binding.kind == kind
        }
}

/// Some operation has an output stream among its use-sites.
pub open spec fn gives_output(family: FamilyModel) -> bool {
    exists|i: int, k: int|
        #![trigger family.operations[i].streams[k]]
        0 <= i < family.operations.len() && 0 <= k < family.operations[i].streams.len()
            && family.operations[i].streams[k].direction == StreamDirection::Output
}

/// The hooks suffice: whoever handles objects can release them, and whoever
/// handles output streams can cancel and release them.
pub open spec fn hooks_suffice(family: FamilyModel, hooks: OhosResourceHooks) -> bool {
    &&& handles(family, ResourceKind::Object) ==> hooks.release_object is Some
    &&& handles(family, ResourceKind::OutputStream) || gives_output(family)
        ==> hooks.cancel_output_stream is Some && hooks.release_output_stream is Some
}

/// Hooks are accepted exactly where they suffice, and the one that is missing is
/// named.
pub proof fn hooks_are_accepted_exactly_where_they_suffice(
    family: FamilyModel,
    hooks: OhosResourceHooks,
)
    ensures
        plan::hooks_fault(family, hooks) is None <==> hooks_suffice(family, hooks),
        plan::hooks_fault(family, hooks) matches Some(error) ==> (
        error matches OhosEngineError::MissingResourceHook { role } && {
            ||| role == "object release" && hooks.release_object is None
            ||| role == "output-stream cancel" && hooks.cancel_output_stream is None
            ||| role == "output-stream release" && hooks.release_output_stream is None
        }),
{
    lemma_handles(family, ResourceKind::Object);
    lemma_needs_output(family);
}

pub(crate) proof fn lemma_needs_output(family: FamilyModel)
    ensures
        plan::needs_output(family) == (handles(family, ResourceKind::OutputStream) || gives_output(
            family,
        )),
{
    lemma_handles(family, ResourceKind::OutputStream);
    if gives_output(family) {
        let (i, k) = choose|i: int, k: int|
            #![trigger family.operations[i].streams[k]]
            0 <= i < family.operations.len() && 0 <= k < family.operations[i].streams.len()
                && family.operations[i].streams[k].direction == StreamDirection::Output;
        assert(plan::has_output_stream(family.operations[i]));
    }
    if plan::needs_output(family) && !handles(family, ResourceKind::OutputStream) {
        let i = choose|i: int|
            #![trigger family.operations[i]]
            0 <= i < family.operations.len() && (plan::handles_kind(
                family.operations[i],
                ResourceKind::OutputStream,
            ) || plan::has_output_stream(family.operations[i]));
        lemma_handled(family, ResourceKind::OutputStream, i);
        let k = choose|k: int|
            #![trigger family.operations[i].streams[k]]
            0 <= k < family.operations[i].streams.len()
                && family.operations[i].streams[k].direction is Output;
        assert(family.operations[i].streams[k].direction == StreamDirection::Output);
    }
}

proof fn lemma_handled(family: FamilyModel, kind: ResourceKind, i: int)
    requires
        0 <= i < family.operations.len(),
    ensures
        plan::handles_kind(family.operations[i], kind) ==> handles(family, kind),
{
}

pub(crate) proof fn lemma_handles(family: FamilyModel, kind: ResourceKind)
    ensures
        handles(family, kind) <==> exists|i: int|
            #![trigger family.operations[i]]
            0 <= i < family.operations.len() && plan::handles_kind(family.operations[i], kind),
{
    if handles(family, kind) {
        let i = choose|i: int|
            #![trigger family.operations[i]]
            0 <= i < family.operations.len() && {
                ||| family.operations[i].receiver matches Some(ReceiverBinding::Resource(resource))
                    && resource.kind == kind
                ||| exists|k: int|
                    #![trigger family.operations[i].result_resources[k]]
                    0 <= k < family.operations[i].result_resources.len()
                        && family.operations[i].result_resources[k].binding.kind == kind
            };
        assert(plan::handles_kind(family.operations[i], kind));
    }
}

/// The plans fit the family: as many as there are operations, with numbers that do
/// not repeat, one for each operation, each fitting its own, and the hooks
/// suffice.
pub open spec fn plans_fit(
    family: FamilyModel,
    operations: Seq<OhosOperationPlan>,
    hooks: OhosResourceHooks,
) -> bool {
    &&& operations.len() == family.operations.len()
    &&& forall|i: int, j: int|
        #![trigger operations[i], operations[j]]
        0 <= i < j < operations.len() ==> operations[i].operation_id != operations[j].operation_id
    &&& forall|i: int, j: int|
        #![trigger family.operations[i], family.operations[j]]
        0 <= i < j < family.operations.len() ==> family.operations[i].id != family.operations[j].id
    &&& forall|k: int|
        #![trigger family.operations[k]]
        0 <= k < family.operations.len() ==> exists|p: int|
            #![trigger operations[p]]
            0 <= p < operations.len() && operations[p].operation_id == family.operations[k].id
                && operation_fits(family.operations[k], operations[p])
    &&& hooks_suffice(family, hooks)
}

/// Whatever fits is built, in the order of the family.
pub proof fn fitting_plans_are_built(
    family: FamilyModel,
    operations: Seq<OhosOperationPlan>,
    hooks: OhosResourceHooks,
    k: int,
)
    requires
        plans_fit(family, operations, hooks),
        forall|p: int|
            0 <= p < operations.len() ==> (#[trigger] operations[p]).arguments@.len() <= u32::MAX,
        0 <= k < family.operations.len(),
    ensures
        plan::plan_fault(family, operations, hooks) is None,
        plan::arranged(family.operations, operations)[k].operation_id == family.operations[k].id,
        operations.contains(plan::arranged(family.operations, operations)[k]),
        operation_fits(family.operations[k], plan::arranged(family.operations, operations)[k]),
{
    assert forall|i: int| 0 <= i < operations.len() implies !#[trigger] plan::repeats_id(
        operations,
        i,
    ) by {
        assert(operations[i] == operations[i]);
    }
    plan::lemma_repeated_id_absent(operations, 0);
    lemma_entries_fit(family, operations, hooks, 0);
    hooks_are_accepted_exactly_where_they_suffice(family, hooks);
    lemma_entry(family, operations, hooks, k);
}

proof fn lemma_entry(
    family: FamilyModel,
    operations: Seq<OhosOperationPlan>,
    hooks: OhosResourceHooks,
    k: int,
)
    requires
        plans_fit(family, operations, hooks),
        0 <= k < family.operations.len(),
    ensures
        plan::planned(operations, family.operations[k].id),
        !plan::taken(family.operations, family.operations[k].id, k),
        plan::plan_of(operations, family.operations[k].id).operation_id == family.operations[k].id,
        operations.contains(plan::plan_of(operations, family.operations[k].id)),
        operation_fits(
            family.operations[k],
            plan::plan_of(operations, family.operations[k].id),
        ),
{
    let id = family.operations[k].id;
    let p = choose|p: int|
        #![trigger operations[p]]
        0 <= p < operations.len() && operations[p].operation_id == id && operation_fits(
            family.operations[k],
            operations[p],
        );
    assert(plan::plan_at(operations, id, p));
    let found = choose|index: int| plan::plan_at(operations, id, index);
    assert(plan::plan_at(operations, id, found));
    if found < p {
        assert(operations[found].operation_id != operations[p].operation_id);
    } else if p < found {
        assert(operations[p].operation_id != operations[found].operation_id);
    }
    assert(operations[found] == plan::plan_of(operations, id));
    if plan::taken(family.operations, id, k) {
        let j = choose|j: int| #![trigger family.operations[j]] 0 <= j < k
            && family.operations[j].id == id;
        assert(family.operations[j].id != family.operations[k].id);
    }
}

proof fn lemma_entries_fit(
    family: FamilyModel,
    operations: Seq<OhosOperationPlan>,
    hooks: OhosResourceHooks,
    from: int,
)
    requires
        plans_fit(family, operations, hooks),
        forall|p: int|
            0 <= p < operations.len() ==> (#[trigger] operations[p]).arguments@.len() <= u32::MAX,
        0 <= from,
    ensures
        plan::entries_fault_from(family.operations, operations, from) is None,
    decreases family.operations.len() - from,
{
    if from < family.operations.len() {
        lemma_entry(family, operations, hooks, from);
        let given = plan::plan_of(operations, family.operations[from].id);
        let p = choose|p: int| 0 <= p < operations.len() && operations[p] == given;
        assert(operations[p].arguments@.len() <= u32::MAX);
        operation_is_accepted_exactly_where_it_fits(family.operations[from], given);
        lemma_entries_fit(family, operations, hooks, from + 1);
    }
}

/// Whatever is built fits.
pub proof fn built_plans_fit(
    family: FamilyModel,
    operations: Seq<OhosOperationPlan>,
    hooks: OhosResourceHooks,
    k: int,
)
    requires
        plan::plan_fault(family, operations, hooks) is None,
        forall|p: int|
            0 <= p < operations.len() ==> (#[trigger] operations[p]).arguments@.len() <= u32::MAX,
        0 <= k < family.operations.len(),
    ensures
        operations.len() == family.operations.len(),
        operation_fits(family.operations[k], plan::arranged(family.operations, operations)[k]),
        plan::arranged(family.operations, operations)[k].operation_id == family.operations[k].id,
        operations.contains(plan::arranged(family.operations, operations)[k]),
        hooks_suffice(family, hooks),
{
    plan::built_plan_serves_its_family(family, operations, hooks, k);
    hooks_are_accepted_exactly_where_they_suffice(family, hooks);
    plan::built_plan_is_a_permutation(family, operations, hooks);
    let given = plan::arranged(family.operations, operations)[k];
    assert(operations.contains(given)) by {
        broadcast use vstd::seq_lib::group_to_multiset_ensures;

        let built = plan::arranged(family.operations, operations);
        assert(built.contains(built[k]));
        assert(built.to_multiset().contains(given));
    }
    let p = choose|p: int| 0 <= p < operations.len() && operations[p] == given;
    assert(operations[p].arguments@.len() <= u32::MAX);
    operation_is_accepted_exactly_where_it_fits(family.operations[k], given);
}

} // verus!
