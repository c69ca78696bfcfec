//! Which fault of a plan is reported where it has several.

use crate::error::OhosEngineError;
use crate::family::{FamilyModel, OperationModel, ReceiverBinding, ResourceKind};
use crate::fitting;
use crate::plan;
use crate::plan::{OhosErrorBinding, OhosOperationPlan, OhosResourceHooks, OhosReturnBinding};
use vstd::prelude::*;

verus! {

/// The plan has a target of the same sort as the operation.
pub open spec fn alike(family: OperationModel, operation: OhosOperationPlan) -> bool {
    ||| family.target is Native && operation.target is Native
    ||| family.target is CallbackHost && operation.target is CallbackHost
    ||| family.target is InputStreamHostPull && operation.target is InputStreamHostPull
    ||| family.target is InputStreamHostCancel && operation.target is InputStreamHostCancel
}

/// A target of another sort is reported before anything else.
pub proof fn target_is_reported_first(family: OperationModel, operation: OhosOperationPlan)
    requires
        !alike(family, operation),
    ensures
        plan::operation_fault(family, operation) == Some(
            OhosEngineError::InvalidOperationTarget {
                operation_id: operation.operation_id,
                kind: family.kind,
            },
        ),
{
}

/// Of a native plan, the number of its arguments is reported next.
pub proof fn argument_count_is_reported_next(family: OperationModel, operation: OhosOperationPlan)
    requires
        family.target is Native,
        operation.target is Native,
        operation.arguments@.len() != family.argument_count,
        operation.arguments@.len() <= usize::MAX,
    ensures
        plan::operation_fault(family, operation) == Some(
            OhosEngineError::ArgumentCount {
                operation_id: operation.operation_id,
                expected: family.argument_count,
                actual: operation.arguments@.len() as usize,
            },
        ),
{
}

/// A receiver that does not fit is reported next, by what is wrong with it.
pub proof fn receiver_is_reported_next(family: OperationModel, operation: OhosOperationPlan)
    requires
        family.target is Native,
        operation.target is Native,
        operation.arguments@.len() == family.argument_count,
        !fitting::receiver_fits(family.receiver, operation.receiver),
    ensures
        plan::operation_fault(family, operation) == Some(
            match (family.receiver, operation.receiver) {
                (Some(_), None) => OhosEngineError::MissingReceiver {
                    operation_id: operation.operation_id,
                },
                (Some(ReceiverBinding::Value), Some(_)) => OhosEngineError::InvalidValueReceiver {
                    operation_id: operation.operation_id,
                },
                (Some(ReceiverBinding::Resource(_)), Some(_)) =>
                OhosEngineError::InvalidResourceReceiver { operation_id: operation.operation_id },
                (None, _) => OhosEngineError::UnexpectedReceiver {
                    operation_id: operation.operation_id,
                },
            },
        ),
{
    fitting::receiver_is_accepted_exactly_where_it_fits(family, operation);
}

/// A result that does not fit is reported next.
pub proof fn result_is_reported_next(family: OperationModel, operation: OhosOperationPlan)
    requires
        family.target is Native,
        operation.target is Native,
        operation.arguments@.len() == family.argument_count,
        fitting::receiver_fits(family.receiver, operation.receiver),
        !fitting::result_fits(family.direct_result(), operation.return_binding),
    ensures
        plan::operation_fault(family, operation) == Some(
            OhosEngineError::InvalidResourceResult { operation_id: operation.operation_id },
        ),
{
    fitting::receiver_is_accepted_exactly_where_it_fits(family, operation);
    fitting::result_is_accepted_exactly_where_it_fits(family, operation);
}

proof fn lemma_first_argument(
    family: OperationModel,
    operation: OhosOperationPlan,
    from: int,
    k: int,
)
    requires
        0 <= from <= k < operation.arguments@.len() <= u32::MAX,
        !fitting::argument_fits(family, k, operation.arguments@[k].binding),
        forall|i: int|
            0 <= i < k ==> fitting::argument_fits(
                family,
                i,
                (#[trigger] operation.arguments@[i]).binding,
            ),
    ensures
        plan::arguments_fault_from(family, operation, from) == plan::argument_fault(
            family,
            operation,
            k,
        ),
        plan::argument_fault(family, operation, k) is Some,
    decreases k - from,
{
    fitting::argument_is_accepted_exactly_where_it_fits(family, operation, k);
    if from < k {
        fitting::argument_is_accepted_exactly_where_it_fits(family, operation, from);
        lemma_first_argument(family, operation, from + 1, k);
    }
}

/// The first argument that does not fit is reported next, as a callback, as an input
/// stream, or as either where it is lowered with the host for nothing.
pub proof fn first_unfit_argument_is_reported_next(
    family: OperationModel,
    operation: OhosOperationPlan,
    k: int,
)
    requires
        family.target is Native,
        operation.target is Native,
        operation.arguments@.len() == family.argument_count,
        fitting::receiver_fits(family.receiver, operation.receiver),
        fitting::result_fits(family.direct_result(), operation.return_binding),
        0 <= k < operation.arguments@.len() <= u32::MAX,
        !fitting::argument_fits(family, k, operation.arguments@[k].binding),
        forall|i: int|
            0 <= i < k ==> fitting::argument_fits(
                family,
                i,
                (#[trigger] operation.arguments@[i]).binding,
            ),
    ensures
        ({
            let binding = operation.arguments@[k].binding;
            plan::operation_fault(family, operation) == Some(
                OhosEngineError::InvalidStructuredBinding {
                    operation_id: operation.operation_id,
                    argument: k as usize,
                    role: if binding is CallbackProxy != fitting::callback_at(family, k, false) {
                        "callback"
                    } else if binding is InputStreamProxy != fitting::stream_at(family, k, false) {
                        "input stream"
                    } else if fitting::callback_at(family, k, true) {
                        "callback"
                    } else if fitting::stream_at(family, k, true) {
                        "input stream"
                    } else {
                        "callback or input stream"
                    },
                },
            )
        }),
{
    fitting::receiver_is_accepted_exactly_where_it_fits(family, operation);
    fitting::result_is_accepted_exactly_where_it_fits(family, operation);
    lemma_first_argument(family, operation, 0, k);
    fitting::lemma_use_sites(family, k);
}

/// A host operation with Rust bindings is reported before one with use-sites.
pub proof fn host_bindings_are_reported_first(
    family: OperationModel,
    operation: OhosOperationPlan,
)
    requires
        alike(family, operation),
        !(operation.target is Native),
    ensures
        ({
            let bare = operation.receiver is None && operation.arguments@.len() == 0
                && operation.return_binding == OhosReturnBinding::Unit && operation.error_binding
                == OhosErrorBinding::Infallible;
            &&& !bare ==> plan::operation_fault(family, operation) == Some(
                OhosEngineError::HostOperationHasRustBindings {
                    operation_id: operation.operation_id,
                },
            )
            &&& bare && (family.callbacks.len() > 0 || family.streams.len() > 0)
                ==> plan::operation_fault(family, operation) == Some(
                OhosEngineError::HostOperationHasStructuredUseSites {
                    operation_id: operation.operation_id,
                },
            )
            &&& bare && family.callbacks.len() == 0 && family.streams.len() == 0
                ==> plan::operation_fault(family, operation) is None
        }),
{
}

/// The missing hook for objects is reported before those for output streams, and of
/// those the one to cancel before the one to release.
pub proof fn missing_hooks_are_reported_in_order(family: FamilyModel, hooks: OhosResourceHooks)
    ensures
        ({
            let objects = fitting::handles(family, ResourceKind::Object);
            let outputs = fitting::handles(family, ResourceKind::OutputStream)
                || fitting::gives_output(family);
            plan::hooks_fault(family, hooks) == if objects && hooks.release_object is None {
                Some(OhosEngineError::MissingResourceHook { role: "object release" })
            } else if outputs && hooks.cancel_output_stream is None {
                Some(OhosEngineError::MissingResourceHook { role: "output-stream cancel" })
            } else if outputs && hooks.release_output_stream is None {
                Some(OhosEngineError::MissingResourceHook { role: "output-stream release" })
            } else {
                None
            }
        }),
{
    fitting::lemma_handles(family, ResourceKind::Object);
    fitting::lemma_needs_output(family);
}

proof fn lemma_first_repeated(operations: Seq<OhosOperationPlan>, from: int, k: int)
    requires
        0 <= from <= k < operations.len(),
        repeated_at(operations, k),
        forall|i: int| 0 <= i < k ==> !#[trigger] repeated_at(operations, i),
    ensures
        plan::repeated_id_from(operations, from) == Some(k),
    decreases k - from,
{
    let j = choose|j: int|
        #![trigger operations[j]]
        0 <= j < k && operations[j].operation_id == operations[k].operation_id;
    assert(plan::repeats_id(operations, k));
    if from < k {
        assert(!repeated_at(operations, from));
        assert(!plan::repeats_id(operations, from));
        lemma_first_repeated(operations, from + 1, k);
    }
}

/// An earlier plan has the same number.
pub open spec fn repeated_at(operations: Seq<OhosOperationPlan>, k: int) -> bool {
    exists|j: int|
        #![trigger operations[j]]
        0 <= j < k && operations[j].operation_id == operations[k].operation_id
}

/// The first repeated number is reported before anything else.
pub proof fn first_repeated_number_is_reported(
    family: FamilyModel,
    operations: Seq<OhosOperationPlan>,
    hooks: OhosResourceHooks,
    k: int,
)
    requires
        0 <= k < operations.len(),
        repeated_at(operations, k),
        forall|i: int| 0 <= i < k ==> !#[trigger] repeated_at(operations, i),
    ensures
        plan::plan_fault(family, operations, hooks) == Some(
            OhosEngineError::DuplicateRustOperation { id: operations[k].operation_id },
        ),
{
    lemma_first_repeated(operations, 0, k);
}

/// No number repeats.
pub open spec fn numbered_once(operations: Seq<OhosOperationPlan>) -> bool {
    forall|i: int| 0 <= i < operations.len() ==> !#[trigger] repeated_at(operations, i)
}

proof fn lemma_numbered_once(operations: Seq<OhosOperationPlan>)
    requires
        numbered_once(operations),
    ensures
        plan::repeated_id_from(operations, 0) is None,
{
    assert forall|i: int| 0 <= i < operations.len() implies !#[trigger] plan::repeats_id(
        operations,
        i,
    ) by {
        assert(!repeated_at(operations, i));
    }
    plan::lemma_repeated_id_absent(operations, 0);
}

/// A wrong number of plans is reported next.
pub proof fn operation_count_is_reported_next(
    family: FamilyModel,
    operations: Seq<OhosOperationPlan>,
    hooks: OhosResourceHooks,
)
    requires
        numbered_once(operations),
        operations.len() != family.operations.len(),
        operations.len() <= usize::MAX,
        family.operations.len() <= usize::MAX,
    ensures
        plan::plan_fault(family, operations, hooks) == Some(
            OhosEngineError::OperationCount {
                expected: family.operations.len() as usize,
                actual: operations.len() as usize,
            },
        ),
{
    lemma_numbered_once(operations);
}

/// The plan at `p` serves the operation and has no fault.
pub open spec fn served_by(
    family: OperationModel,
    operations: Seq<OhosOperationPlan>,
    p: int,
) -> bool {
    &&& 0 <= p < operations.len()
    &&& operations[p].operation_id == family.id
    &&& plan::operation_fault(family, operations[p]) is None
}

/// Some plan serves the operation and has no fault.
pub open spec fn served(family: OperationModel, operations: Seq<OhosOperationPlan>) -> bool {
    exists|p: int| #[trigger] served_by(family, operations, p)
}

/// An operation without a plan is reported next, by its number, where those before it
/// are served.
pub proof fn first_missing_plan_is_reported_next(
    family: FamilyModel,
    operations: Seq<OhosOperationPlan>,
    hooks: OhosResourceHooks,
    k: int,
)
    requires
        numbered_once(operations),
        operations.len() == family.operations.len(),
        0 <= k < family.operations.len(),
        forall|p: int|
            0 <= p < operations.len() ==> (#[trigger] operations[p]).operation_id
                != family.operations[k].id,
        forall|i: int, j: int|
            #![trigger family.operations[i], family.operations[j]]
            0 <= i < j < family.operations.len() ==> family.operations[i].id
                != family.operations[j].id,
        forall|i: int| 0 <= i < k ==> #[trigger] served(family.operations[i], operations),
    ensures
        plan::plan_fault(family, operations, hooks) == Some(
            OhosEngineError::MissingRustOperation { id: family.operations[k].id },
        ),
{
    lemma_numbered_once(operations);
    lemma_missing(family, operations, 0, k);
}

proof fn lemma_missing(
    family: FamilyModel,
    operations: Seq<OhosOperationPlan>,
    from: int,
    k: int,
)
    requires
        numbered_once(operations),
        0 <= from <= k < family.operations.len(),
        forall|p: int|
            0 <= p < operations.len() ==> (#[trigger] operations[p]).operation_id
                != family.operations[k].id,
        forall|i: int, j: int|
            #![trigger family.operations[i], family.operations[j]]
            0 <= i < j < family.operations.len() ==> family.operations[i].id
                != family.operations[j].id,
        forall|i: int| 0 <= i < k ==> #[trigger] served(family.operations[i], operations),
    ensures
        plan::entries_fault_from(family.operations, operations, from) == Some(
            OhosEngineError::MissingRustOperation { id: family.operations[k].id },
        ),
    decreases k - from,
{
    let id = family.operations[from].id;
    if from < k {
        assert(served(family.operations[from], operations));
        let p = choose|p: int| #[trigger] served_by(family.operations[from], operations, p);
        assert(plan::plan_at(operations, id, p));
        let found = choose|index: int| plan::plan_at(operations, id, index);
        assert(plan::plan_at(operations, id, found));
        if found < p {
            assert(operations[found].operation_id == operations[p].operation_id);
            assert(repeated_at(operations, p));
        } else if p < found {
            assert(operations[p].operation_id == operations[found].operation_id);
            assert(repeated_at(operations, found));
        }
        if plan::taken(family.operations, id, from) {
            let j = choose|j: int| #![trigger family.operations[j]] 0 <= j < from
                && family.operations[j].id == id;
            assert(family.operations[j].id != family.operations[from].id);
        }
        lemma_missing(family, operations, from + 1, k);
    } else {
        if plan::planned(operations, id) {
            let index = choose|index: int| plan::plan_at(operations, id, index);
            assert(operations[index].operation_id != family.operations[k].id);
        }
    }
}

} // verus!
