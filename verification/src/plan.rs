//! Bridge plans: how each operation of a family is served by Rust code.
//!
//! Rust names, paths and types are held as source text.

use crate::error::OhosEngineError;
use crate::family::{
    FamilyModel, FamilyOperation, FamilyOperationTarget, FamilyPlan, OperationModel,
    ReceiverBinding, ResourceKind, ResourceOwnership, StreamDirection,
};
use std::collections::BTreeMap;
use vstd::prelude::*;
use vstd::string::StringExecFns;

verus! {

broadcast use {vstd::std_specs::btree::group_btree_axioms, vstd::laws_cmp::group_laws_cmp};

/// How one argument of the script becomes a Rust argument.
#[derive(Clone, Debug, PartialEq, Eq)]
pub enum OhosArgumentBinding {
    Direct { carrier_type: String },
    I64BigInt,
    U64BigInt,
    LowerWith { carrier_type: String, lower: String },
    /// Lowers nested callback and input-stream values, with the host and the
    /// leases of the call at hand.
    LowerWithHost { carrier_type: String, lower: String },
    ObjectLease { carrier_type: String, lower: String, ownership: ResourceOwnership },
    OutputStreamLease { carrier_type: String, lower: String, ownership: ResourceOwnership },
    CallbackProxy { rust_type: String, build: String },
    InputStreamProxy { rust_type: String, build: String },
}

/// The carrier of integers that exceed a script number.
pub open spec fn bigint_type() -> Seq<char> {
    "napi_ohos::bindgen_prelude::BigInt"@
}

impl OhosArgumentBinding {
    /// The type in which the value arrives.
    pub open spec fn carrier(self) -> Seq<char> {
        match self {
            OhosArgumentBinding::Direct { carrier_type }
            | OhosArgumentBinding::LowerWith { carrier_type, .. }
            | OhosArgumentBinding::LowerWithHost { carrier_type, .. }
            | OhosArgumentBinding::ObjectLease { carrier_type, .. }
            | OhosArgumentBinding::OutputStreamLease { carrier_type, .. } => carrier_type@,
            OhosArgumentBinding::I64BigInt | OhosArgumentBinding::U64BigInt => bigint_type(),
            OhosArgumentBinding::CallbackProxy { .. }
            | OhosArgumentBinding::InputStreamProxy { .. } => "u32"@,
        }
    }

    /// The type of the Rust parameter.
    pub open spec fn parameter(self) -> Seq<char> {
        match self {
            OhosArgumentBinding::CallbackProxy { rust_type, .. } => "std::sync::Arc<dyn "@
                + rust_type@ + ">"@,
            OhosArgumentBinding::InputStreamProxy { rust_type, .. } => rust_type@,
            _ => self.carrier(),
        }
    }

    pub fn carrier_type(&self) -> (r: String)
        ensures
            r@ == self.carrier(),
    {
        match self {
            OhosArgumentBinding::Direct { carrier_type }
            | OhosArgumentBinding::LowerWith { carrier_type, .. }
            | OhosArgumentBinding::LowerWithHost { carrier_type, .. }
            | OhosArgumentBinding::ObjectLease { carrier_type, .. }
            | OhosArgumentBinding::OutputStreamLease { carrier_type, .. } => carrier_type.clone(),
            OhosArgumentBinding::I64BigInt
            | OhosArgumentBinding::U64BigInt => "napi_ohos::bindgen_prelude::BigInt".to_owned(),
            OhosArgumentBinding::CallbackProxy { .. }
            | OhosArgumentBinding::InputStreamProxy { .. } => "u32".to_owned(),
        }
    }

    pub fn rust_parameter_type(&self) -> (r: String)
        ensures
            r@ == self.parameter(),
    {
        match self {
            OhosArgumentBinding::CallbackProxy { rust_type, .. } => {
                let mut out: String = "std::sync::Arc<dyn ".to_owned();
                out.append(rust_type.as_str());
                out.append(">");
                out
            },
            OhosArgumentBinding::InputStreamProxy { rust_type, .. } => rust_type.clone(),
            _ => self.carrier_type(),
        }
    }
}

#[derive(Clone, Debug, PartialEq, Eq)]
pub struct OhosArgumentPlan {
    pub name: String,
    pub binding: OhosArgumentBinding,
}

/// How a Rust result becomes a value of the script.
#[derive(Clone, Debug, PartialEq, Eq)]
pub enum OhosReturnBinding {
    Unit,
    Direct { carrier_type: String },
    I64BigInt,
    U64BigInt,
    LiftWith { carrier_type: String, lift: String },
    ObjectLease { carrier_type: String, lift: String },
    CallbackLease { carrier_type: String, lift: String },
    OutputStreamLease { carrier_type: String, lift: String },
}

impl OhosReturnBinding {
    /// The type in which the value leaves.
    pub open spec fn carrier(self) -> Seq<char> {
        match self {
            OhosReturnBinding::Unit => "()"@,
            OhosReturnBinding::Direct { carrier_type }
            | OhosReturnBinding::LiftWith { carrier_type, .. }
            | OhosReturnBinding::ObjectLease { carrier_type, .. }
            | OhosReturnBinding::CallbackLease { carrier_type, .. }
            | OhosReturnBinding::OutputStreamLease { carrier_type, .. } => carrier_type@,
            OhosReturnBinding::I64BigInt | OhosReturnBinding::U64BigInt => bigint_type(),
        }
    }

    pub fn carrier_type(&self) -> (r: String)
        ensures
            r@ == self.carrier(),
    {
        match self {
            OhosReturnBinding::Unit => "()".to_owned(),
            OhosReturnBinding::Direct { carrier_type }
            | OhosReturnBinding::LiftWith { carrier_type, .. }
            | OhosReturnBinding::ObjectLease { carrier_type, .. }
            | OhosReturnBinding::CallbackLease { carrier_type, .. }
            | OhosReturnBinding::OutputStreamLease { carrier_type, .. } => carrier_type.clone(),
            OhosReturnBinding::I64BigInt
            | OhosReturnBinding::U64BigInt => "napi_ohos::bindgen_prelude::BigInt".to_owned(),
        }
    }
}

#[derive(Clone, Debug, PartialEq, Eq)]
pub enum OhosErrorBinding {
    Infallible,
    Descriptor { map: String },
}

#[derive(Clone, Debug, PartialEq, Eq)]
pub enum OhosOperationTarget {
    Native { call: String },
    CallbackHost,
    InputStreamHostPull,
    InputStreamHostCancel,
}

#[derive(Clone, Debug, PartialEq, Eq)]
pub struct OhosReceiverPlan {
    pub name: String,
    pub binding: OhosArgumentBinding,
}

#[derive(Clone, Debug, PartialEq, Eq)]
pub struct OhosOperationPlan {
    pub operation_id: u32,
    pub target: OhosOperationTarget,
    pub receiver: Option<OhosReceiverPlan>,
    pub arguments: Vec<OhosArgumentPlan>,
    pub return_binding: OhosReturnBinding,
    pub error_binding: OhosErrorBinding,
}

#[derive(Clone, Debug, PartialEq, Eq)]
pub struct OhosResourceHook {
    pub call: String,
    pub carrier_type: String,
}

#[derive(Clone, Debug, PartialEq, Eq)]
pub struct OhosResourceHooks {
    pub release_object: Option<OhosResourceHook>,
    pub cancel_output_stream: Option<OhosResourceHook>,
    pub release_output_stream: Option<OhosResourceHook>,
}

impl Default for OhosResourceHooks {
    fn default() -> (r: OhosResourceHooks)
        ensures
            r == no_hooks(),
    {
        OhosResourceHooks {
            release_object: None,
            cancel_output_stream: None,
            release_output_stream: None,
        }
    }
}

pub open spec fn no_hooks() -> OhosResourceHooks {
    OhosResourceHooks {
        release_object: None,
        cancel_output_stream: None,
        release_output_stream: None,
    }
}

/// The Rust target serves the same kind of operation as the family asks for.
pub open spec fn same_target(family: FamilyOperationTarget, target: OhosOperationTarget) -> bool {
    match family {
        FamilyOperationTarget::Native => target is Native,
        FamilyOperationTarget::CallbackHost { .. } => target is CallbackHost,
        FamilyOperationTarget::InputStreamHostPull => target is InputStreamHostPull,
        FamilyOperationTarget::InputStreamHostCancel => target is InputStreamHostCancel,
    }
}

/// The binding carries a plain value.
pub open spec fn carries_value(binding: OhosArgumentBinding) -> bool {
    binding is Direct || binding is I64BigInt || binding is U64BigInt || binding is LowerWith
        || binding is LowerWithHost
}

/// The binding carries a resource of this kind and ownership.
pub open spec fn carries_resource(
    binding: OhosArgumentBinding,
    kind: ResourceKind,
    expected: ResourceOwnership,
) -> bool {
    match kind {
        ResourceKind::Object => binding matches OhosArgumentBinding::ObjectLease { ownership, .. }
            && ownership == expected,
        ResourceKind::OutputStream => binding matches OhosArgumentBinding::OutputStreamLease {
            ownership,
            ..
        } && ownership == expected,
        ResourceKind::InputStream => binding is InputStreamProxy,
    }
}

/// What is wrong with the receiver of a plan.
pub open spec fn receiver_fault(family: OperationModel, operation: OhosOperationPlan) -> Option<
    OhosEngineError,
> {
    let operation_id = operation.operation_id;
    match (family.receiver, operation.receiver) {
        (None, None) => None,
        (Some(ReceiverBinding::Value), Some(actual)) => if carries_value(actual.binding) {
            None
        } else {
            Some(OhosEngineError::InvalidValueReceiver { operation_id })
        },
        (Some(ReceiverBinding::Resource(expected)), Some(actual)) => if carries_resource(
            actual.binding,
            expected.kind,
            expected.ownership,
        ) {
            None
        } else {
            Some(OhosEngineError::InvalidResourceReceiver { operation_id })
        },
        (Some(_), None) => Some(OhosEngineError::MissingReceiver { operation_id }),
        (None, Some(_)) => Some(OhosEngineError::UnexpectedReceiver { operation_id }),
    }
}

/// What is wrong with the result binding of a plan. A result that is an object
/// or an output stream is leased, and nothing else is.
pub open spec fn result_fault(family: OperationModel, operation: OhosOperationPlan) -> Option<
    OhosEngineError,
> {
    let binding = operation.return_binding;
    let valid = match family.direct_result() {
        Some(ResourceKind::Object) => binding is ObjectLease,
        Some(ResourceKind::OutputStream) => binding is OutputStreamLease,
        Some(ResourceKind::InputStream) | None => !(binding is ObjectLease
            || binding is OutputStreamLease),
    };
    if valid {
        None
    } else {
        Some(OhosEngineError::InvalidResourceResult { operation_id: operation.operation_id })
    }
}

/// Some callback of the family is this argument itself.
pub open spec fn direct_callback(family: OperationModel, argument: int) -> bool {
    exists|i: int|
        #![trigger family.callbacks[i]]
        0 <= i < family.callbacks.len() && family.callbacks[i].path.starts_at(argument)
            && family.callbacks[i].path.segments.len() == 1
}

/// Some callback of the family lies inside this argument.
pub open spec fn nested_callback(family: OperationModel, argument: int) -> bool {
    exists|i: int|
        #![trigger family.callbacks[i]]
        0 <= i < family.callbacks.len() && family.callbacks[i].path.starts_at(argument)
            && family.callbacks[i].path.segments.len() > 1
}

/// Some input stream of the family is this argument itself.
pub open spec fn direct_stream(family: OperationModel, argument: int) -> bool {
    exists|i: int|
        #![trigger family.streams[i]]
        0 <= i < family.streams.len() && family.streams[i].direction is Input
            && family.streams[i].path.starts_at(argument) && family.streams[i].path.segments.len()
            == 1
}

/// Some input stream of the family lies inside this argument.
pub open spec fn nested_stream(family: OperationModel, argument: int) -> bool {
    exists|i: int|
        #![trigger family.streams[i]]
        0 <= i < family.streams.len() && family.streams[i].direction is Input
            && family.streams[i].path.starts_at(argument) && family.streams[i].path.segments.len()
            > 1
}

/// What is wrong with the binding of one argument. A callback or input stream
/// that is the argument itself has a proxy, one inside the argument is lowered
/// with the host, and no other argument is.
pub open spec fn argument_fault(
    family: OperationModel,
    operation: OhosOperationPlan,
    argument: int,
) -> Option<OhosEngineError> {
    let binding = operation.arguments@[argument].binding;
    let operation_id = operation.operation_id;
    if direct_callback(family, argument) != (binding is CallbackProxy) {
        Some(
            OhosEngineError::InvalidStructuredBinding {
                operation_id,
                argument: argument as usize,
                role: "callback",
            },
        )
    } else if direct_stream(family, argument) != (binding is InputStreamProxy) {
        Some(
            OhosEngineError::InvalidStructuredBinding {
                operation_id,
                argument: argument as usize,
                role: "input stream",
            },
        )
    } else if (nested_callback(family, argument) || nested_stream(family, argument)) != (
    binding is LowerWithHost) {
        Some(
            OhosEngineError::InvalidStructuredBinding {
                operation_id,
                argument: argument as usize,
                role: if nested_callback(family, argument) {
                    "callback"
                } else if nested_stream(family, argument) {
                    "input stream"
                } else {
                    "callback or input stream"
                },
            },
        )
    } else {
        None
    }
}

/// What is wrong with the first faulty argument at or after `from`.
pub open spec fn arguments_fault_from(
    family: OperationModel,
    operation: OhosOperationPlan,
    from: int,
) -> Option<OhosEngineError>
    decreases operation.arguments@.len() - from,
{
    if from >= operation.arguments@.len() {
        None
    } else if argument_fault(family, operation, from) is Some {
        argument_fault(family, operation, from)
    } else {
        arguments_fault_from(family, operation, from + 1)
    }
}

/// Some callback of the family is the result itself.
pub open spec fn direct_return_callback(family: OperationModel) -> bool {
    exists|i: int|
        #![trigger family.callbacks[i]]
        0 <= i < family.callbacks.len() && family.callbacks[i].path.whole_return()
}

/// What is wrong with the bindings of callbacks and streams.
pub open spec fn structured_fault(family: OperationModel, operation: OhosOperationPlan) -> Option<
    OhosEngineError,
> {
    if arguments_fault_from(family, operation, 0) is Some {
        arguments_fault_from(family, operation, 0)
    } else if direct_return_callback(family) != (operation.return_binding is CallbackLease) {
        Some(
            OhosEngineError::InvalidReturnBinding {
                operation_id: operation.operation_id,
                expected: "a direct callback lease matching the canonical return use-site",
            },
        )
    } else {
        None
    }
}

/// What is wrong with the error binding: an operation that can fail has a
/// descriptor, one that cannot has none.
pub open spec fn error_fault(family: OperationModel, operation: OhosOperationPlan) -> Option<
    OhosEngineError,
> {
    let operation_id = operation.operation_id;
    if family.fallible && operation.error_binding is Infallible {
        Some(OhosEngineError::MissingErrorDescriptor { operation_id })
    } else if !family.fallible && operation.error_binding is Descriptor {
        Some(OhosEngineError::UnexpectedErrorDescriptor { operation_id })
    } else {
        None
    }
}

/// What is wrong with a plan that runs a Rust function.
pub open spec fn native_fault(family: OperationModel, operation: OhosOperationPlan) -> Option<
    OhosEngineError,
> {
    if operation.arguments@.len() != family.argument_count {
        Some(
            OhosEngineError::ArgumentCount {
                operation_id: operation.operation_id,
                expected: family.argument_count,
                actual: operation.arguments@.len() as usize,
            },
        )
    } else if receiver_fault(family, operation) is Some {
        receiver_fault(family, operation)
    } else if result_fault(family, operation) is Some {
        result_fault(family, operation)
    } else if structured_fault(family, operation) is Some {
        structured_fault(family, operation)
    } else {
        error_fault(family, operation)
    }
}

/// What is wrong with a plan that the host serves: it has no Rust bindings at
/// all, and no use-sites.
pub open spec fn host_fault(family: OperationModel, operation: OhosOperationPlan) -> Option<
    OhosEngineError,
> {
    let operation_id = operation.operation_id;
    if operation.receiver is Some || operation.arguments@.len() > 0
        || !(operation.return_binding is Unit) || !(operation.error_binding is Infallible) {
        Some(OhosEngineError::HostOperationHasRustBindings { operation_id })
    } else if family.callbacks.len() > 0 || family.streams.len() > 0 {
        Some(OhosEngineError::HostOperationHasStructuredUseSites { operation_id })
    } else {
        None
    }
}

/// The name of this argument was used before: by the receiver or by an earlier
/// argument.
pub open spec fn repeats_name(operation: OhosOperationPlan, argument: int) -> bool {
    ||| operation.receiver matches Some(receiver) && receiver.name@
        == operation.arguments@[argument].name@
    ||| exists|j: int|
        #![trigger operation.arguments@[j]]
        0 <= j < argument && operation.arguments@[j].name@ == operation.arguments@[argument].name@
}

/// The first argument at or after `from` whose name was used before.
pub open spec fn repeated_name_from(operation: OhosOperationPlan, from: int) -> Option<int>
    decreases operation.arguments@.len() - from,
{
    if from >= operation.arguments@.len() {
        None
    } else if repeats_name(operation, from) {
        Some(from)
    } else {
        repeated_name_from(operation, from + 1)
    }
}

/// What is wrong with the plan of one operation, in the order in which it is
/// looked for.
pub open spec fn operation_fault(family: OperationModel, operation: OhosOperationPlan) -> Option<
    OhosEngineError,
> {
    let bindings = if operation.target is Native {
        native_fault(family, operation)
    } else {
        host_fault(family, operation)
    };
    if !same_target(family.target, operation.target) {
        Some(
            OhosEngineError::InvalidOperationTarget {
                operation_id: operation.operation_id,
                kind: family.kind,
            },
        )
    } else if bindings is Some {
        bindings
    } else {
        match repeated_name_from(operation, 0) {
            None => None,
            Some(index) => Some(
                OhosEngineError::DuplicateRustArgument {
                    operation_id: operation.operation_id,
                    name: operation.arguments@[index].name,
                },
            ),
        }
    }
}

/// Some operation of the family makes or takes an object.
pub open spec fn needs_object(family: FamilyModel) -> bool {
    exists|i: int|
        #![trigger family.operations[i]]
        0 <= i < family.operations.len() && handles_kind(
            family.operations[i],
            ResourceKind::Object,
        )
}

/// Some operation of the family makes or takes an output stream.
pub open spec fn needs_output(family: FamilyModel) -> bool {
    exists|i: int|
        #![trigger family.operations[i]]
        0 <= i < family.operations.len() && (handles_kind(
            family.operations[i],
            ResourceKind::OutputStream,
        ) || has_output_stream(family.operations[i]))
}

/// The receiver or a part of the result is a resource of this kind.
pub open spec fn handles_kind(operation: OperationModel, kind: ResourceKind) -> bool {
    ||| operation.receiver matches Some(ReceiverBinding::Resource(resource)) && resource.kind
        == kind
    ||| exists|i: int|
        #![trigger operation.result_resources[i]]
        0 <= i < operation.result_resources.len() && operation.result_resources[i].binding.kind
            == kind
}

pub open spec fn has_output_stream(operation: OperationModel) -> bool {
    exists|i: int|
        #![trigger operation.streams[i]]
        0 <= i < operation.streams.len() && operation.streams[i].direction is Output
}

/// Which hook is missing: whatever a family hands out can be taken back.
pub open spec fn hooks_fault(family: FamilyModel, hooks: OhosResourceHooks) -> Option<
    OhosEngineError,
> {
    if needs_object(family) && hooks.release_object is None {
        Some(OhosEngineError::MissingResourceHook { role: "object release" })
    } else if needs_output(family) && hooks.cancel_output_stream is None {
        Some(OhosEngineError::MissingResourceHook { role: "output-stream cancel" })
    } else if needs_output(family) && hooks.release_output_stream is None {
        Some(OhosEngineError::MissingResourceHook { role: "output-stream release" })
    } else {
        None
    }
}

/// An earlier plan has the same number.
pub open spec fn repeats_id(operations: Seq<OhosOperationPlan>, index: int) -> bool {
    exists|j: int|
        #![trigger operations[j]]
        0 <= j < index && operations[j].operation_id == operations[index].operation_id
}

/// The first plan at or after `from` whose number was used before.
pub open spec fn repeated_id_from(operations: Seq<OhosOperationPlan>, from: int) -> Option<int>
    decreases operations.len() - from,
{
    if from >= operations.len() {
        None
    } else if repeats_id(operations, from) {
        Some(from)
    } else {
        repeated_id_from(operations, from + 1)
    }
}

/// This plan has the number.
pub open spec fn plan_at(operations: Seq<OhosOperationPlan>, id: u32, index: int) -> bool {
    0 <= index < operations.len() && operations[index].operation_id == id
}

/// Some plan has the number.
pub open spec fn planned(operations: Seq<OhosOperationPlan>, id: u32) -> bool {
    exists|index: int| plan_at(operations, id, index)
}

/// The plan that has the number.
pub open spec fn plan_of(operations: Seq<OhosOperationPlan>, id: u32) -> OhosOperationPlan {
    operations[choose|index: int| plan_at(operations, id, index)]
}

/// An earlier operation of the family has the number.
pub open spec fn taken(family: Seq<OperationModel>, id: u32, before: int) -> bool {
    exists|j: int| #![trigger family[j]] 0 <= j < before && family[j].id == id
}

/// What is wrong with the first faulty entry of the family at or after `from`.
/// Each plan serves one operation.
pub open spec fn entries_fault_from(
    family: Seq<OperationModel>,
    operations: Seq<OhosOperationPlan>,
    from: int,
) -> Option<OhosEngineError>
    decreases family.len() - from,
{
    if from >= family.len() {
        None
    } else {
        let id = family[from].id;
        if !planned(operations, id) || taken(family, id, from) {
            Some(OhosEngineError::MissingRustOperation { id })
        } else if operation_fault(family[from], plan_of(operations, id)) is Some {
            operation_fault(family[from], plan_of(operations, id))
        } else {
            entries_fault_from(family, operations, from + 1)
        }
    }
}

/// What is wrong with a bridge plan, in the order in which it is looked for.
pub open spec fn plan_fault(
    family: FamilyModel,
    operations: Seq<OhosOperationPlan>,
    hooks: OhosResourceHooks,
) -> Option<OhosEngineError> {
    match repeated_id_from(operations, 0) {
        Some(index) => Some(
            OhosEngineError::DuplicateRustOperation { id: operations[index].operation_id },
        ),
        None => if operations.len() != family.operations.len() {
            Some(
                OhosEngineError::OperationCount {
                    expected: family.operations.len() as usize,
                    actual: operations.len() as usize,
                },
            )
        } else if entries_fault_from(family.operations, operations, 0) is Some {
            entries_fault_from(family.operations, operations, 0)
        } else {
            hooks_fault(family, hooks)
        },
    }
}

fn validate_target(family: &FamilyOperation, operation: &OhosOperationPlan) -> (valid: bool)
    ensures
        valid == same_target(family.target, operation.target),
{
    match (family.target, &operation.target) {
        (FamilyOperationTarget::Native, OhosOperationTarget::Native { .. }) => true,
        (FamilyOperationTarget::CallbackHost { .. }, OhosOperationTarget::CallbackHost) => true,
        (
            FamilyOperationTarget::InputStreamHostPull,
            OhosOperationTarget::InputStreamHostPull,
        ) => true,
        (
            FamilyOperationTarget::InputStreamHostCancel,
            OhosOperationTarget::InputStreamHostCancel,
        ) => true,
        _ => false,
    }
}

fn validate_receiver(family: &FamilyOperation, operation: &OhosOperationPlan) -> (r: Option<
    OhosEngineError,
>)
    ensures
        r == receiver_fault(family@, *operation),
{
    let operation_id: u32 = operation.operation_id;
    match (family.receiver, &operation.receiver) {
        (None, None) => None,
        (Some(ReceiverBinding::Value), Some(actual)) => {
            let valid: bool = match &actual.binding {
                OhosArgumentBinding::Direct { .. }
                | OhosArgumentBinding::I64BigInt
                | OhosArgumentBinding::U64BigInt
                | OhosArgumentBinding::LowerWith { .. }
                | OhosArgumentBinding::LowerWithHost { .. } => true,
                _ => false,
            };
            if valid {
                None
            } else {
                Some(OhosEngineError::InvalidValueReceiver { operation_id })
            }
        },
        (Some(ReceiverBinding::Resource(expected)), Some(actual)) => {
            let valid: bool = match (expected.kind, &actual.binding) {
                (ResourceKind::Object, OhosArgumentBinding::ObjectLease { ownership, .. }) =>
                    *ownership == expected.ownership,
                (
                    ResourceKind::OutputStream,
                    OhosArgumentBinding::OutputStreamLease { ownership, .. },
                ) => *ownership == expected.ownership,
                (ResourceKind::InputStream, OhosArgumentBinding::InputStreamProxy { .. }) => true,
                _ => false,
            };
            if valid {
                None
            } else {
                Some(OhosEngineError::InvalidResourceReceiver { operation_id })
            }
        },
        (Some(_), None) => Some(OhosEngineError::MissingReceiver { operation_id }),
        (None, Some(_)) => Some(OhosEngineError::UnexpectedReceiver { operation_id }),
    }
}

fn validate_result_resource(family: &FamilyOperation, operation: &OhosOperationPlan) -> (r: Option<
    OhosEngineError,
>)
    ensures
        r == result_fault(family@, *operation),
{
    let object: bool = matches!(operation.return_binding, OhosReturnBinding::ObjectLease { .. });
    let output: bool = matches!(
        operation.return_binding,
        OhosReturnBinding::OutputStreamLease { .. }
    );
    let valid: bool = match family.direct_result() {
        Some(ResourceKind::Object) => object,
        Some(ResourceKind::OutputStream) => output,
        Some(ResourceKind::InputStream) | None => !object && !output,
    };
    if valid {
        None
    } else {
        Some(OhosEngineError::InvalidResourceResult { operation_id: operation.operation_id })
    }
}

/// Whether a callback is the argument itself, and whether one lies inside it.
fn callbacks_at(family: &FamilyOperation, argument: usize) -> (r: (bool, bool))
    ensures
        r.0 == direct_callback(family@, argument as int),
        r.1 == nested_callback(family@, argument as int),
{
    let mut direct: bool = false;
    let mut nested: bool = false;
    let ghost sites = family@.callbacks;
    for i in 0..family.callbacks.len()
        invariant
            sites == family@.callbacks,
            direct == exists|j: int|
                #![trigger sites[j]]
                0 <= j < i && sites[j].path.starts_at(argument as int)
                    && sites[j].path.segments.len() == 1,
            nested == exists|j: int|
                #![trigger sites[j]]
                0 <= j < i && sites[j].path.starts_at(argument as int)
                    && sites[j].path.segments.len() > 1,
    {
        let path = &family.callbacks[i].path;
        assert(sites[i as int].path == path@);
        assert(path@.segments.len() == path.segments@.len());
        if path.starts_at(argument) {
            if path.segments.len() == 1 {
                direct = true;
            } else {
                nested = true;
            }
        }
    }
    (direct, nested)
}

/// Whether an input stream is the argument itself, and whether one lies inside
/// it.
fn streams_at(family: &FamilyOperation, argument: usize) -> (r: (bool, bool))
    ensures
        r.0 == direct_stream(family@, argument as int),
        r.1 == nested_stream(family@, argument as int),
{
    let mut direct: bool = false;
    let mut nested: bool = false;
    let ghost sites = family@.streams;
    for i in 0..family.streams.len()
        invariant
            sites == family@.streams,
            direct == exists|j: int|
                #![trigger sites[j]]
                0 <= j < i && sites[j].direction is Input && sites[j].path.starts_at(
                    argument as int,
                ) && sites[j].path.segments.len() == 1,
            nested == exists|j: int|
                #![trigger sites[j]]
                0 <= j < i && sites[j].direction is Input && sites[j].path.starts_at(
                    argument as int,
                ) && sites[j].path.segments.len() > 1,
    {
        let site = &family.streams[i];
        assert(sites[i as int] == site@);
        assert(site.path@.segments.len() == site.path.segments@.len());
        if site.direction == StreamDirection::Input && site.path.starts_at(argument) {
            if site.path.segments.len() == 1 {
                direct = true;
            } else {
                nested = true;
            }
        }
    }
    (direct, nested)
}

fn validate_structured_bindings(family: &FamilyOperation, operation: &OhosOperationPlan) -> (r:
    Option<OhosEngineError>)
    ensures
        r == structured_fault(family@, *operation),
{
    let operation_id: u32 = operation.operation_id;
    let mut argument: usize = 0;
    while argument < operation.arguments.len()
        invariant
            operation_id == operation.operation_id,
            argument <= operation.arguments.len(),
            arguments_fault_from(family@, *operation, 0) == arguments_fault_from(
                family@,
                *operation,
                argument as int,
            ),
        decreases operation.arguments.len() - argument,
    {
        let binding = &operation.arguments[argument].binding;
        let callbacks: (bool, bool) = callbacks_at(family, argument);
        if callbacks.0 != matches!(binding, OhosArgumentBinding::CallbackProxy { .. }) {
            return Some(
                OhosEngineError::InvalidStructuredBinding {
                    operation_id,
                    argument,
                    role: "callback",
                },
            );
        }
        let streams: (bool, bool) = streams_at(family, argument);
        if streams.0 != matches!(binding, OhosArgumentBinding::InputStreamProxy { .. }) {
            return Some(
                OhosEngineError::InvalidStructuredBinding {
                    operation_id,
                    argument,
                    role: "input stream",
                },
            );
        }
        let nested: bool = callbacks.1 || streams.1;
        if nested != matches!(binding, OhosArgumentBinding::LowerWithHost { .. }) {
            return Some(
                OhosEngineError::InvalidStructuredBinding {
                    operation_id,
                    argument,
                    role: if callbacks.1 {
                        "callback"
                    } else if streams.1 {
                        "input stream"
                    } else {
                        "callback or input stream"
                    },
                },
            );
        }
        argument = argument + 1;
    }
    let mut returned: bool = false;
    let ghost sites = family@.callbacks;
    for i in 0..family.callbacks.len()
        invariant
            sites == family@.callbacks,
            returned == exists|j: int|
                #![trigger sites[j]]
                0 <= j < i && sites[j].path.whole_return(),
    {
        assert(sites[i as int] == family.callbacks@[i as int]@);
        if family.callbacks[i].path.is_whole_return() {
            returned = true;
        }
    }
    if returned != matches!(operation.return_binding, OhosReturnBinding::CallbackLease { .. }) {
        return Some(
            OhosEngineError::InvalidReturnBinding {
                operation_id,
                expected: "a direct callback lease matching the canonical return use-site",
            },
        );
    }
    None
}

fn validate_native(family: &FamilyOperation, operation: &OhosOperationPlan) -> (r: Option<
    OhosEngineError,
>)
    ensures
        r == native_fault(family@, *operation),
{
    let operation_id: u32 = operation.operation_id;
    if operation.arguments.len() != family.argument_count {
        return Some(
            OhosEngineError::ArgumentCount {
                operation_id,
                expected: family.argument_count,
                actual: operation.arguments.len(),
            },
        );
    }
    if let Some(error) = validate_receiver(family, operation) {
        return Some(error);
    }
    if let Some(error) = validate_result_resource(family, operation) {
        return Some(error);
    }
    if let Some(error) = validate_structured_bindings(family, operation) {
        return Some(error);
    }
    match (family.fallible, &operation.error_binding) {
        (true, OhosErrorBinding::Infallible) => Some(
            OhosEngineError::MissingErrorDescriptor { operation_id },
        ),
        (false, OhosErrorBinding::Descriptor { .. }) => Some(
            OhosEngineError::UnexpectedErrorDescriptor { operation_id },
        ),
        _ => None,
    }
}

fn validate_host(family: &FamilyOperation, operation: &OhosOperationPlan) -> (r: Option<
    OhosEngineError,
>)
    ensures
        r == host_fault(family@, *operation),
{
    let operation_id: u32 = operation.operation_id;
    if operation.receiver.is_some() || operation.arguments.len() > 0 || !matches!(
        operation.return_binding,
        OhosReturnBinding::Unit
    ) || !matches!(operation.error_binding, OhosErrorBinding::Infallible) {
        return Some(OhosEngineError::HostOperationHasRustBindings { operation_id });
    }
    if family.callbacks.len() > 0 || family.streams.len() > 0 {
        return Some(OhosEngineError::HostOperationHasStructuredUseSites { operation_id });
    }
    None
}

fn find_repeated_name(operation: &OhosOperationPlan) -> (r: Option<usize>)
    ensures
        match r {
            None => repeated_name_from(*operation, 0) is None,
            Some(index) => {
                &&& repeated_name_from(*operation, 0) == Some(index as int)
                &&& index < operation.arguments@.len()
            },
        },
{
    let mut i: usize = 0;
    while i < operation.arguments.len()
        invariant
            i <= operation.arguments.len(),
            repeated_name_from(*operation, 0) == repeated_name_from(*operation, i as int),
        decreases operation.arguments.len() - i,
    {
        let name = &operation.arguments[i].name;
        let mut repeated: bool = match &operation.receiver {
            Some(receiver) => receiver.name == *name,
            None => false,
        };
        let ghost receiver_repeats = repeated;
        for j in 0..i
            invariant
                i < operation.arguments.len(),
                *name == operation.arguments@[i as int].name,
                repeated == (receiver_repeats || exists|k: int|
                    #![trigger operation.arguments@[k]]
                    0 <= k < j && operation.arguments@[k].name@
                        == operation.arguments@[i as int].name@),
        {
            if operation.arguments[j].name == *name {
                repeated = true;
            }
        }
        assert(repeated == repeats_name(*operation, i as int));
        if repeated {
            return Some(i);
        }
        i = i + 1;
    }
    None
}

/// Checks the plan of one operation.
pub fn validate_operation(family: &FamilyOperation, operation: &OhosOperationPlan) -> (r: Option<
    OhosEngineError,
>)
    ensures
        r == operation_fault(family@, *operation),
{
    if !validate_target(family, operation) {
        return Some(
            OhosEngineError::InvalidOperationTarget {
                operation_id: operation.operation_id,
                kind: family.kind,
            },
        );
    }
    let bindings = if matches!(operation.target, OhosOperationTarget::Native { .. }) {
        validate_native(family, operation)
    } else {
        validate_host(family, operation)
    };
    if let Some(error) = bindings {
        return Some(error);
    }
    match find_repeated_name(operation) {
        None => None,
        Some(index) => Some(
            OhosEngineError::DuplicateRustArgument {
                operation_id: operation.operation_id,
                name: operation.arguments[index].name.clone(),
            },
        ),
    }
}

fn operation_handles(operation: &FamilyOperation, kind: ResourceKind) -> (r: bool)
    ensures
        r == handles_kind(operation@, kind),
{
    if let Some(ReceiverBinding::Resource(resource)) = operation.receiver {
        if resource.kind == kind {
            return true;
        }
    }
    let ghost sites = operation@.result_resources;
    for i in 0..operation.result_resources.len()
        invariant
            sites == operation@.result_resources,
            forall|j: int| 0 <= j < i ==> (#[trigger] sites[j]).binding.kind != kind,
    {
        assert(sites[i as int] == operation.result_resources@[i as int]@);
        if operation.result_resources[i].binding.kind == kind {
            return true;
        }
    }
    false
}

fn operation_has_output(operation: &FamilyOperation) -> (r: bool)
    ensures
        r == has_output_stream(operation@),
{
    let ghost sites = operation@.streams;
    for i in 0..operation.streams.len()
        invariant
            sites == operation@.streams,
            forall|j: int| 0 <= j < i ==> !((#[trigger] sites[j]).direction is Output),
    {
        assert(sites[i as int] == operation.streams@[i as int]@);
        if operation.streams[i].direction == StreamDirection::Output {
            return true;
        }
    }
    false
}

/// Checks that whatever the family hands out can be taken back.
pub fn validate_resource_hooks(family: &FamilyPlan, hooks: &OhosResourceHooks) -> (r: Option<
    OhosEngineError,
>)
    ensures
        r == hooks_fault(family@, *hooks),
{
    let operations = family.operations();
    let ghost models = family@.operations;
    let mut object: bool = false;
    let mut output: bool = false;
    for i in 0..operations.len()
        invariant
            models == crate::family::operations_model(operations@),
            object == exists|j: int|
                #![trigger models[j]]
                0 <= j < i && handles_kind(models[j], ResourceKind::Object),
            output == exists|j: int|
                #![trigger models[j]]
                0 <= j < i && (handles_kind(models[j], ResourceKind::OutputStream)
                    || has_output_stream(models[j])),
    {
        assert(models[i as int] == operations@[i as int]@);
        if operation_handles(&operations[i], ResourceKind::Object) {
            object = true;
        }
        if operation_handles(&operations[i], ResourceKind::OutputStream) || operation_has_output(
            &operations[i],
        ) {
            output = true;
        }
    }
    if object && hooks.release_object.is_none() {
        return Some(OhosEngineError::MissingResourceHook { role: "object release" });
    }
    if output && hooks.cancel_output_stream.is_none() {
        return Some(OhosEngineError::MissingResourceHook { role: "output-stream cancel" });
    }
    if output && hooks.release_output_stream.is_none() {
        return Some(OhosEngineError::MissingResourceHook { role: "output-stream release" });
    }
    None
}

/// A bridge plan that fits its family.
#[derive(Clone, Debug, PartialEq, Eq)]
pub struct OhosBridgePlan {
    operations: Vec<OhosOperationPlan>,
    resource_hooks: OhosResourceHooks,
}

/// The mathematical form of a bridge plan.
#[verifier::ext_equal]
pub struct BridgeModel {
    pub operations: Seq<OhosOperationPlan>,
    pub resource_hooks: OhosResourceHooks,
}

impl View for OhosBridgePlan {
    type V = BridgeModel;

    closed spec fn view(&self) -> BridgeModel {
        BridgeModel { operations: self.operations@, resource_hooks: self.resource_hooks }
    }
}

/// The plans in the order of the family.
pub open spec fn arranged(family: Seq<OperationModel>, operations: Seq<OhosOperationPlan>) -> Seq<
    OhosOperationPlan,
> {
    Seq::new(family.len(), |k: int| plan_of(operations, family[k].id))
}

/// Numbers that do not repeat name one plan each.
proof fn lemma_plan_of(operations: Seq<OhosOperationPlan>, index: int)
    requires
        0 <= index < operations.len(),
        forall|i: int| 0 <= i < operations.len() ==> !repeats_id(operations, i),
    ensures
        planned(operations, operations[index].operation_id),
        plan_of(operations, operations[index].operation_id) == operations[index],
{
    let id = operations[index].operation_id;
    assert(plan_at(operations, id, index));
    let found = choose|k: int| plan_at(operations, id, k);
    assert(plan_at(operations, id, found));
    if found < index {
        assert(operations[found].operation_id == operations[index].operation_id);
        assert(repeats_id(operations, index));
    }
    if index < found {
        assert(operations[index].operation_id == operations[found].operation_id);
        assert(repeats_id(operations, found));
    }
}

impl OhosBridgePlan {
    pub fn build(family: &FamilyPlan, operations: Vec<OhosOperationPlan>) -> (r: Result<
        OhosBridgePlan,
        OhosEngineError,
    >)
        ensures
            match plan_fault(family@, operations@, no_hooks()) {
                Some(error) => r == Err::<OhosBridgePlan, OhosEngineError>(error),
                None => r matches Ok(plan) && plan@ == (BridgeModel {
                    operations: arranged(family@.operations, operations@),
                    resource_hooks: no_hooks(),
                }),
            },
    {
        Self::build_with_resource_hooks(family, operations, OhosResourceHooks::default())
    }

    /// Arranges the plans in the order of the family, if every operation has
    /// exactly one plan, every plan fits its operation, and the hooks that the
    /// family needs are there.
    pub fn build_with_resource_hooks(
        family: &FamilyPlan,
        operations: Vec<OhosOperationPlan>,
        resource_hooks: OhosResourceHooks,
    ) -> (r: Result<OhosBridgePlan, OhosEngineError>)
        ensures
            match plan_fault(family@, operations@, resource_hooks) {
                Some(error) => r == Err::<OhosBridgePlan, OhosEngineError>(error),
                None => r matches Ok(plan) && plan@ == (BridgeModel {
                    operations: arranged(family@.operations, operations@),
                    resource_hooks,
                }),
            },
    {
        let ghost all = operations@;
        let actual: usize = operations.len();
        let mut by_id: BTreeMap<u32, OhosOperationPlan> = BTreeMap::new();
        let mut count: usize = 0;
        for operation in it: operations
            invariant
                it.seq() == all,
                count == it.index(),
                actual == all.len(),
                repeated_id_from(all, 0) == repeated_id_from(all, count as int),
                forall|i: int| 0 <= i < count ==> !repeats_id(all, i),
                forall|id: u32| #[trigger]
                    by_id@.dom().contains(id) <==> exists|i: int|
                        #![trigger all[i]]
                        0 <= i < count && all[i].operation_id == id,
                forall|i: int|
                    0 <= i < count ==> by_id@[(#[trigger] all[i]).operation_id] == all[i],
        {
            assert(operation == all[count as int]);
            let id: u32 = operation.operation_id;
            let ghost before = by_id@;
            if by_id.insert(id, operation).is_some() {
                assert(before.dom().contains(id));
                assert(repeats_id(all, count as int));
                return Err(OhosEngineError::DuplicateRustOperation { id });
            }
            proof {
                assert(!before.dom().contains(id));
                assert(!repeats_id(all, count as int)) by {
                    if repeats_id(all, count as int) {
                        let j = choose|j: int|
                            #![trigger all[j]]
                            0 <= j < count && all[j].operation_id == all[count as int].operation_id;
                        assert(before.dom().contains(all[j].operation_id));
                    }
                }
                assert forall|x: u32| #[trigger] by_id@.dom().contains(x) <==> exists|i: int|
                    #![trigger all[i]]
                    0 <= i < count + 1 && all[i].operation_id == x by {
                    if x == id {
                        assert(all[count as int].operation_id == x);
                    } else if before.dom().contains(x) {
                        let i = choose|i: int|
                            #![trigger all[i]]
                            0 <= i < count && all[i].operation_id == x;
                        assert(all[i].operation_id == x);
                    }
                }
                assert forall|i: int| 0 <= i < count + 1 implies by_id@[(
                #[trigger] all[i]).operation_id] == all[i] by {
                    if i < count {
                        assert(before.dom().contains(all[i].operation_id));
                    }
                }
            }
            count = count + 1;
        }
        let expected_len: usize = family.operations().len();
        if actual != expected_len {
            return Err(OhosEngineError::OperationCount { expected: expected_len, actual });
        }
        let ghost models = family@.operations;
        let ghost complete = by_id@;
        let listed = family.operations();
        let mut validated: Vec<OhosOperationPlan> = Vec::new();
        let mut k: usize = 0;
        assert(repeated_id_from(all, 0) is None);
        #[verifier::loop_isolation(false)]
        while k < listed.len()
            invariant
                models == crate::family::operations_model(listed@),
                k <= listed.len(),
                forall|i: int| 0 <= i < all.len() ==> !repeats_id(all, i),
                forall|id: u32| #[trigger]
                    complete.dom().contains(id) <==> exists|i: int|
                        #![trigger all[i]]
                        0 <= i < all.len() && all[i].operation_id == id,
                forall|i: int|
                    0 <= i < all.len() ==> complete[(#[trigger] all[i]).operation_id] == all[i],
                forall|id: u32| #[trigger]
                    by_id@.dom().contains(id) <==> complete.dom().contains(id) && !taken(
                        models,
                        id,
                        k as int,
                    ),
                forall|id: u32| #[trigger]
                    by_id@.dom().contains(id) ==> by_id@[id] == complete[id],
                entries_fault_from(models, all, 0) == entries_fault_from(models, all, k as int),
                validated@ == arranged(models, all).take(k as int),
            decreases listed.len() - k,
        {
            let family_operation = &listed[k];
            assert(models[k as int] == family_operation@);
            let expected: u32 = family_operation.id;
            let ghost before = by_id@;
            proof {
                assert(planned(all, expected) <==> complete.dom().contains(expected)) by {
                    if planned(all, expected) {
                        let i = choose|i: int| plan_at(all, expected, i);
                        assert(all[i].operation_id == expected);
                    }
                    if complete.dom().contains(expected) {
                        let i = choose|i: int|
                            #![trigger all[i]]
                            0 <= i < all.len() && all[i].operation_id == expected;
                        assert(plan_at(all, expected, i));
                    }
                }
            }
            let operation = match by_id.remove(&expected) {
                None => return Err(OhosEngineError::MissingRustOperation { id: expected }),
                Some(operation) => operation,
            };
            proof {
                let i = choose|i: int|
                    #![trigger all[i]]
                    0 <= i < all.len() && all[i].operation_id == expected;
                lemma_plan_of(all, i);
                assert(operation == plan_of(all, expected));
            }
            if let Some(error) = validate_operation(family_operation, &operation) {
                return Err(error);
            }
            validated.push(operation);
            proof {
                assert(validated@ =~= arranged(models, all).take(k + 1));
                assert forall|id: u32| taken(models, id, k + 1) <==> taken(models, id, k as int)
                    || id == expected by {
                    if taken(models, id, k + 1) {
                        let j = choose|j: int|
                            #![trigger models[j]]
                            0 <= j < k + 1 && models[j].id == id;
                        if j == k {
                            assert(id == expected);
                        }
                    }
                    if taken(models, id, k as int) {
                        let j = choose|j: int|
                            #![trigger models[j]]
                            0 <= j < k && models[j].id == id;
                        assert(models[j].id == id);
                    }
                    assert(models[k as int].id == expected);
                }
            }
            k = k + 1;
        }
        assert(validated@ =~= arranged(models, all));
        if let Some(error) = validate_resource_hooks(family, &resource_hooks) {
            return Err(error);
        }
        Ok(OhosBridgePlan { operations: validated, resource_hooks })
    }

    pub fn operations(&self) -> (r: &Vec<OhosOperationPlan>)
        ensures
            r@ == self@.operations,
    {
        &self.operations
    }

    pub fn resource_hooks(&self) -> (r: &OhosResourceHooks)
        ensures
            *r == self@.resource_hooks,
    {
        &self.resource_hooks
    }
}

/// A plan that was built serves its family: each operation has its own plan,
/// that plan has no fault, and whatever the family hands out has its hooks.
pub proof fn built_plan_serves_its_family(
    family: FamilyModel,
    operations: Seq<OhosOperationPlan>,
    hooks: OhosResourceHooks,
    k: int,
)
    requires
        plan_fault(family, operations, hooks) is None,
        0 <= k < family.operations.len(),
    ensures
        arranged(family.operations, operations)[k].operation_id == family.operations[k].id,
        operation_fault(
            family.operations[k],
            arranged(family.operations, operations)[k],
        ) is None,
        needs_object(family) ==> hooks.release_object is Some,
        needs_output(family) ==> hooks.cancel_output_stream is Some
            && hooks.release_output_stream is Some,
{
    lemma_no_entry_fault(family.operations, operations, 0, k);
    let id = family.operations[k].id;
    assert(plan_at(operations, id, choose|index: int| plan_at(operations, id, index)));
}

/// Without a faulty entry, each entry is planned and sound.
proof fn lemma_no_entry_fault(
    family: Seq<OperationModel>,
    operations: Seq<OhosOperationPlan>,
    from: int,
    k: int,
)
    requires
        entries_fault_from(family, operations, from) is None,
        0 <= from <= k < family.len(),
    ensures
        planned(operations, family[k].id),
        !taken(family, family[k].id, k),
        operation_fault(family[k], plan_of(operations, family[k].id)) is None,
    decreases k - from,
{
    if from < k {
        lemma_no_entry_fault(family, operations, from + 1, k);
    }
}

/// A plan that was built has a number of its own for each operation.
pub proof fn built_plan_serves_each_operation_once(
    family: FamilyModel,
    operations: Seq<OhosOperationPlan>,
    hooks: OhosResourceHooks,
    i: int,
    j: int,
)
    requires
        plan_fault(family, operations, hooks) is None,
        0 <= i < j < family.operations.len(),
    ensures
        family.operations[i].id != family.operations[j].id,
{
    lemma_no_entry_fault(family.operations, operations, 0, j);
    if family.operations[i].id == family.operations[j].id {
        assert(taken(family.operations, family.operations[j].id, j));
    }
}

/// Without a repeated number, no plan repeats one.
proof fn lemma_no_repeated_id(operations: Seq<OhosOperationPlan>, from: int, i: int)
    requires
        repeated_id_from(operations, from) is None,
        0 <= from <= i < operations.len(),
    ensures
        !repeats_id(operations, i),
    decreases i - from,
{
    if from < i {
        lemma_no_repeated_id(operations, from + 1, i);
    }
}

/// Where no plan repeats a number, none is found.
pub(crate) proof fn lemma_repeated_id_absent(operations: Seq<OhosOperationPlan>, from: int)
    requires
        0 <= from,
        forall|i: int| 0 <= i < operations.len() ==> !repeats_id(operations, i),
    ensures
        repeated_id_from(operations, from) is None,
    decreases operations.len() - from,
{
    if from < operations.len() {
        lemma_repeated_id_absent(operations, from + 1);
    }
}

/// Two arrangements of the same plans know the same plan by each number.
proof fn lemma_same_plans(
    a: Seq<OhosOperationPlan>,
    b: Seq<OhosOperationPlan>,
    id: u32,
)
    requires
        forall|i: int| 0 <= i < a.len() ==> !repeats_id(a, i),
        forall|i: int| 0 <= i < b.len() ==> !repeats_id(b, i),
        a.to_multiset() == b.to_multiset(),
    ensures
        planned(a, id) == planned(b, id),
        planned(a, id) ==> plan_of(a, id) == plan_of(b, id),
{
    broadcast use vstd::seq_lib::group_to_multiset_ensures;

    if planned(a, id) {
        let i = choose|i: int| plan_at(a, id, i);
        assert(b.to_multiset().count(a[i]) > 0);
        let j = choose|j: int| 0 <= j < b.len() && b[j] == a[i];
        assert(plan_at(b, id, j));
        lemma_plan_of(a, i);
        lemma_plan_of(b, j);
    }
    if planned(b, id) {
        let j = choose|j: int| plan_at(b, id, j);
        assert(a.to_multiset().count(b[j]) > 0);
        let i = choose|i: int| 0 <= i < a.len() && a[i] == b[j];
        assert(plan_at(a, id, i));
    }
}

/// The faults of entries depend on which plan has which number only.
proof fn lemma_same_entries(
    family: Seq<OperationModel>,
    a: Seq<OhosOperationPlan>,
    b: Seq<OhosOperationPlan>,
    from: int,
)
    requires
        0 <= from,
        forall|id: u32| #[trigger] planned(a, id) == planned(b, id),
        forall|id: u32| #[trigger] planned(a, id) ==> plan_of(a, id) == plan_of(b, id),
    ensures
        entries_fault_from(family, a, from) == entries_fault_from(family, b, from),
    decreases family.len() - from,
{
    if from < family.len() {
        assert(planned(a, family[from].id) == planned(b, family[from].id));
        lemma_same_entries(family, a, b, from + 1);
    }
}

/// A plan that was built holds the plans that were handed in, each of them once:
/// it is a rearrangement of them.
pub proof fn built_plan_is_a_permutation(
    family: FamilyModel,
    operations: Seq<OhosOperationPlan>,
    hooks: OhosResourceHooks,
)
    requires
        plan_fault(family, operations, hooks) is None,
    ensures
        arranged(family.operations, operations).to_multiset() == operations.to_multiset(),
{
    broadcast use vstd::seq_lib::group_to_multiset_ensures;

    let built = arranged(family.operations, operations);
    assert forall|i: int, j: int| 0 <= i < operations.len() && 0 <= j < operations.len() && i
        != j implies operations[i] != operations[j] by {
        let later = if i < j {
            j
        } else {
            i
        };
        lemma_no_repeated_id(operations, 0, later);
        if operations[i] == operations[j] {
            assert(repeats_id(operations, later));
        }
    }
    assert forall|i: int, j: int| 0 <= i < built.len() && 0 <= j < built.len() && i
        != j implies built[i] != built[j] by {
        built_plan_serves_its_family(family, operations, hooks, i);
        built_plan_serves_its_family(family, operations, hooks, j);
        if i < j {
            built_plan_serves_each_operation_once(family, operations, hooks, i, j);
        } else {
            built_plan_serves_each_operation_once(family, operations, hooks, j, i);
        }
    }
    assert forall|k: int| 0 <= k < built.len() implies operations.contains(#[trigger] built[k]) by {
        lemma_no_entry_fault(family.operations, operations, 0, k);
        let id = family.operations[k].id;
        assert(plan_at(operations, id, choose|index: int| plan_at(operations, id, index)));
    }
    built.unique_seq_to_set();
    operations.unique_seq_to_set();
    assert(built.to_set().subset_of(operations.to_set()));
    vstd::set_lib::lemma_subset_equality(built.to_set(), operations.to_set());
    built.lemma_multiset_has_no_duplicates();
    operations.lemma_multiset_has_no_duplicates();
    assert forall|plan: OhosOperationPlan|
        built.to_multiset().count(plan) == operations.to_multiset().count(plan) by {
        assert(built.to_set().contains(plan) == operations.to_set().contains(plan));
        assert(built.contains(plan) == built.to_multiset().contains(plan));
        assert(operations.contains(plan) == operations.to_multiset().contains(plan));
    }
    assert(built.to_multiset() =~= operations.to_multiset());
}

/// The order in which the plans are handed in does not matter: they end up in
/// the order of the family.
pub proof fn build_ignores_the_order(
    family: FamilyModel,
    a: Seq<OhosOperationPlan>,
    b: Seq<OhosOperationPlan>,
    hooks: OhosResourceHooks,
)
    requires
        a.to_multiset() == b.to_multiset(),
        plan_fault(family, a, hooks) is None,
    ensures
        plan_fault(family, b, hooks) is None,
        arranged(family.operations, b) == arranged(family.operations, a),
{
    broadcast use vstd::seq_lib::group_to_multiset_ensures;

    assert forall|i: int| 0 <= i < a.len() implies !repeats_id(a, i) by {
        lemma_no_repeated_id(a, 0, i);
    }
    assert(a.no_duplicates()) by {
        assert forall|i: int, j: int| 0 <= i < a.len() && 0 <= j < a.len() && i != j implies a[i]
            != a[j] by {
            if a[i] == a[j] {
                assert(repeats_id(a, if i < j {
                    j
                } else {
                    i
                }));
            }
        }
    }
    a.lemma_multiset_has_no_duplicates();
    b.lemma_multiset_has_no_duplicates_conv();
    assert forall|j: int| 0 <= j < b.len() implies !repeats_id(b, j) by {
        if repeats_id(b, j) {
            let i = choose|i: int|
                #![trigger b[i]]
                0 <= i < j && b[i].operation_id == b[j].operation_id;
            assert(b[i] != b[j]);
            assert(a.to_multiset().count(b[i]) > 0);
            assert(a.to_multiset().count(b[j]) > 0);
            let p = choose|p: int| 0 <= p < a.len() && a[p] == b[i];
            let q = choose|q: int| 0 <= q < a.len() && a[q] == b[j];
            assert(p != q);
            assert(repeats_id(a, if p < q {
                q
            } else {
                p
            }));
        }
    }
    lemma_repeated_id_absent(b, 0);
    assert forall|id: u32| #[trigger] planned(a, id) == planned(b, id) by {
        lemma_same_plans(a, b, id);
    }
    assert forall|id: u32| #[trigger] planned(a, id) implies plan_of(a, id) == plan_of(b, id) by {
        lemma_same_plans(a, b, id);
    }
    lemma_same_entries(family.operations, a, b, 0);
    a.to_multiset_ensures();
    b.to_multiset_ensures();
    assert(a.len() == b.len());
    assert forall|k: int| 0 <= k < family.operations.len() implies arranged(
        family.operations,
        b,
    )[k] == arranged(family.operations, a)[k] by {
        lemma_no_entry_fault(family.operations, a, 0, k);
    }
    assert(arranged(family.operations, b) =~= arranged(family.operations, a));
}

} // verus!
