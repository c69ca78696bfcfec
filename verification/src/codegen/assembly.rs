//! What a generated module consists of, piece by piece.

use crate::ast::{ArgModel, FnModel};
use crate::codegen::body;
use crate::codegen::descriptor;
use crate::codegen::entry;
use crate::codegen::laws;
use crate::codegen::source;
use crate::codegen::source::ItemModel;
use crate::codegen::wording;
use crate::codegen::wrapping;
use crate::error::OhosEngineError;
use crate::family::{FamilyModel, FamilyOperationTarget, OperationModel, StreamDirection};
use crate::plan::{
    BridgeModel, OhosArgumentBinding, OhosOperationPlan, OhosOperationTarget, OhosResourceHook,
    OhosResourceHooks,
};
use crate::text;
use vstd::prelude::*;

verus! {

// ---- Hooks ----

/// A hook calls the path that was bound for it on the handle, in the type that was
/// bound for it.
pub proof fn hook_calls_its_own_path(name: Seq<char>, hook: OhosResourceHook)
    ensures
        source::hook_text(name, hook, false) == "#[doc(hidden)]\nfn __uniffi_"@ + name
            + "(handle: "@ + hook.carrier_type@ + ", ) -> napi_ohos::Result<()> {\nmatch "@
            + hook.call@ + "(handle)"@
            + " { Ok(()) => Ok(()), Err(error) => Err(napi_ohos::Error::new(napi_ohos::Status::GenericFailure, error.to_string(), )), }\n}\n"@,
        source::hook_text(name, hook, true) == "#[doc(hidden)]\nasync fn __uniffi_"@ + name
            + "(handle: "@ + hook.carrier_type@ + ", ) -> napi_ohos::Result<()> {\nmatch "@
            + hook.call@ + "(handle)"@ + ".await"@
            + " { Ok(()) => Ok(()), Err(error) => Err(napi_ohos::Error::new(napi_ohos::Status::GenericFailure, error.to_string(), )), }\n}\n"@,
{
}

/// The function of a hook takes the handle in its type and stays out of the exports.
pub proof fn hook_function_takes_the_handle(
    name: Seq<char>,
    hook: OhosResourceHook,
    asynchronous: bool,
)
    ensures
        ({
            let function = source::hook_function(name, hook, asynchronous);
            &&& function.name == "__uniffi_"@ + name
            &&& function.js_name == function.name
            &&& function.register_name == "__napi_register_uniffi_"@ + name
            &&& function.args == seq![ArgModel::Pattern("handle: "@ + hook.carrier_type@)]
            &&& function.ret == Some("()"@)
            &&& function.is_ret_result
            &&& function.is_async == asynchronous
            &&& function.no_export
            &&& function.strict
            &&& function.skip_typescript
            &&& function.otherwise_plain
            &&& function.pre_call == Seq::<char>::empty()
            &&& function.leading_wrapper_args == 0
        }),
{
}

/// Each hook that is there is generated under its own name, and only the cancel hook
/// may take its time.
pub proof fn each_hook_has_its_own_name(hooks: OhosResourceHooks)
    ensures
        ({
            let items = source::resource_items(hooks);
            &&& hooks.release_object matches Some(hook) ==> {
                &&& items.contains(
                    ItemModel::Text(source::hook_text("release_object"@, hook, false)),
                )
                &&& items.contains(
                    ItemModel::Function(source::hook_function("release_object"@, hook, false)),
                )
            }
            &&& hooks.cancel_output_stream matches Some(hook) ==> {
                &&& items.contains(
                    ItemModel::Text(source::hook_text("cancel_output_stream"@, hook, true)),
                )
                &&& items.contains(
                    ItemModel::Function(source::hook_function("cancel_output_stream"@, hook, true)),
                )
            }
            &&& hooks.release_output_stream matches Some(hook) ==> {
                &&& items.contains(
                    ItemModel::Text(source::hook_text("release_output_stream"@, hook, false)),
                )
                &&& items.contains(
                    ItemModel::Function(
                        source::hook_function("release_output_stream"@, hook, false),
                    ),
                )
            }
            &&& items.len() == 2 * ((if hooks.release_object is Some {
                1int
            } else {
                0
            }) + (if hooks.cancel_output_stream is Some {
                1int
            } else {
                0
            }) + (if hooks.release_output_stream is Some {
                1int
            } else {
                0
            }))
        }),
{
    let items = source::resource_items(hooks);
    let first = source::hook_items("release_object"@, hooks.release_object, false);
    let second = source::hook_items("cancel_output_stream"@, hooks.cancel_output_stream, true);
    let third = source::hook_items("release_output_stream"@, hooks.release_output_stream, false);
    assert(items == first + second + third);
    if hooks.release_object is Some {
        assert(items[0] == first[0]);
        assert(items[1] == first[1]);
    }
    if hooks.cancel_output_stream is Some {
        assert(items[first.len() as int] == second[0]);
        assert(items[first.len() as int + 1] == second[1]);
    }
    if hooks.release_output_stream is Some {
        assert(items[(first.len() + second.len()) as int] == third[0]);
        assert(items[(first.len() + second.len()) as int + 1] == third[1]);
    }
}

// ---- The factory ----

/// What makes a callback, as Rust code writes it.
pub open spec fn maker_text(maker: Option<Seq<char>>) -> Seq<char> {
    match maker {
        Some(name) => "Some(unsafe { "@ + name + "(env.raw())? })"@,
        None => "None"@,
    }
}

/// What makes a callback of a hook.
pub open spec fn hook_maker(name: Seq<char>, hook: Option<OhosResourceHook>) -> Seq<char> {
    match hook {
        Some(_) => "Some(unsafe { "@ + ("_napi_rs_internal_register___uniffi_"@ + name)
            + "(env.raw())? })"@,
        None => "None"@,
    }
}

proof fn lemma_maker(out: Seq<char>, maker: Option<Seq<char>>)
    ensures
        descriptor::emit_callback(out, maker) == out + maker_text(maker),
{
    assert(descriptor::emit_callback(out, maker) =~= out + maker_text(maker));
}

/// The descriptors of all operations, as Rust code writes them.
pub open spec fn descriptor_texts(
    family: Seq<OperationModel>,
    operations: Seq<OhosOperationPlan>,
    upto: int,
) -> Seq<Seq<char>> {
    Seq::new(
        upto as nat,
        |i: int|
            descriptor::descriptor_text(
                family[i],
                operations[i],
                if family[i].target == FamilyOperationTarget::Native {
                    Some(
                        "_napi_rs_internal_register___uniffi_raw_operation_"@ + text::decimal(
                            operations[i].operation_id as int,
                        ),
                    )
                } else {
                    None
                },
            ),
    )
}

proof fn lemma_descriptors(
    out: Seq<char>,
    family: Seq<OperationModel>,
    operations: Seq<OhosOperationPlan>,
    upto: int,
)
    requires
        0 <= upto,
    ensures
        source::emit_descriptors(out, family, operations, upto) == out + laws::comma_list(
            descriptor_texts(family, operations, upto),
        ),
    decreases upto,
{
    let listed = descriptor_texts(family, operations, upto);
    if upto == 0 {
        assert(listed =~= Seq::empty());
        assert(out + Seq::empty() =~= out);
    } else {
        lemma_descriptors(out, family, operations, upto - 1);
        let earlier = descriptor_texts(family, operations, upto - 1);
        assert(listed.drop_last() =~= earlier);
        wording::lemma_listed(out, earlier, listed);
    }
}

/// The factory opens a session with the grace period of the family, with one
/// descriptor for each operation in order, and with each hook in its own place.
pub proof fn factory_opens_the_session(family: FamilyModel, rust: BridgeModel)
    ensures
        source::factory_text(family, rust)
            == "#[doc(hidden)]\nfn __uniffi_backend_factory(env: &napi_ohos::Env, host: napi_ohos::bindgen_prelude::Object<'static>, ) -> napi_ohos::Result<napi_ohos::bindgen_prelude::Object<'static>> {\nnapi_ohos_uniffi_engine::create_backend_session(env, host, napi_ohos_uniffi_engine::ClosePolicy { grace_ms: "@
            + text::decimal(family.close_policy.grace_ms as int)
            + "u32, on_deadline: napi_ohos_uniffi_engine::DeadlineAction::Detach, }, vec!["@
            + laws::comma_list(
            descriptor_texts(family.operations, rust.operations, family.operations.len() as int),
        ) + "], napi_ohos_uniffi_engine::SessionResourceCallbacks { release_object: "@ + hook_maker(
            "release_object"@,
            rust.resource_hooks.release_object,
        ) + ", cancel_output_stream: "@ + hook_maker(
            "cancel_output_stream"@,
            rust.resource_hooks.cancel_output_stream,
        ) + ", release_output_stream: "@ + hook_maker(
            "release_output_stream"@,
            rust.resource_hooks.release_output_stream,
        ) + ", }, )\n}\n"@,
{
    let hooks = rust.resource_hooks;
    let open = source::FACTORY_OPEN@ + text::decimal(family.close_policy.grace_ms as int)
        + source::FACTORY_DETACH@;
    lemma_descriptors(
        open,
        family.operations,
        rust.operations,
        family.operations.len() as int,
    );
    let described = open + laws::comma_list(
        descriptor_texts(family.operations, rust.operations, family.operations.len() as int),
    ) + source::FACTORY_HOOKS@;
    let first = source::hook_factory("release_object"@, hooks.release_object);
    lemma_maker(described, first);
    let released = described + maker_text(first) + ", cancel_output_stream: "@;
    let second = source::hook_factory("cancel_output_stream"@, hooks.cancel_output_stream);
    lemma_maker(released, second);
    let cancelled = released + maker_text(second) + ", release_output_stream: "@;
    let third = source::hook_factory("release_output_stream"@, hooks.release_output_stream);
    lemma_maker(cancelled, third);
}

/// The factory is the function that the module exports, under its fixed name.
pub proof fn factory_is_exported_by_its_name()
    ensures
        source::factory_function() == (FnModel {
            name: "__uniffi_backend_factory"@,
            js_name: "__uniffi_backend_factory"@,
            args: seq![
                ArgModel::Pattern("env: &napi_ohos::Env"@),
                ArgModel::Pattern("host: napi_ohos::bindgen_prelude::Object<'static>"@),
            ],
            ret: Some("napi_ohos::bindgen_prelude::Object<'static>"@),
            is_ret_result: true,
            is_async: false,
            strict: true,
            skip_typescript: true,
            no_export: false,
            register_name: "__napi_register_uniffi_backend_factory"@,
            pre_call: Seq::empty(),
            leading_wrapper_args: 0,
            otherwise_plain: true,
        }),
{
}

// ---- Operations ----

/// The path of the Rust function that a native plan calls.
pub open spec fn called_path(operation: OhosOperationPlan) -> Seq<char> {
    match operation.target {
        OhosOperationTarget::Native { call } => call@,
        _ => Seq::empty(),
    }
}

proof fn lemma_items_stay(
    family: Seq<OperationModel>,
    operations: Seq<OhosOperationPlan>,
    from: int,
    upto: int,
    item: ItemModel,
)
    requires
        0 <= from <= upto,
        source::operation_items(family, operations, from).contains(item),
    ensures
        source::operation_items(family, operations, upto).contains(item),
    decreases upto - from,
{
    if from < upto {
        lemma_items_stay(family, operations, from, upto - 1, item);
        let head = source::operation_items(family, operations, upto - 1);
        let after = source::operation_items(family, operations, upto);
        let at = choose|at: int| 0 <= at < head.len() && head[at] == item;
        assert(after[at] == item);
    }
}

/// Every native operation has its body, which calls its own Rust function, and its
/// wrapper in the module.
pub proof fn native_operation_is_generated(family: FamilyModel, rust: BridgeModel, i: int)
    requires
        0 <= i < family.operations.len(),
        family.operations[i].target == FamilyOperationTarget::Native,
    ensures
        ({
            let operation = rust.operations[i];
            let shape = entry::shape_of(family.operations[i], operation);
            &&& source::source_items(family, rust).contains(
                ItemModel::Text(body::body_text(called_path(operation), operation, shape)),
            )
            &&& source::source_items(family, rust).contains(
                ItemModel::Function(body::entry_function(family.operations[i], operation, shape)),
            )
        }),
{
    let operation = rust.operations[i];
    let shape = entry::shape_of(family.operations[i], operation);
    let text = ItemModel::Text(body::body_text(called_path(operation), operation, shape));
    let function = ItemModel::Function(
        body::entry_function(family.operations[i], operation, shape),
    );
    let head = source::operation_items(family.operations, rust.operations, i);
    let after = source::operation_items(family.operations, rust.operations, i + 1);
    assert(source::call_of(operation) == called_path(operation));
    assert(after[head.len() as int] == text);
    assert(after[head.len() as int + 1] == function);
    let n = family.operations.len() as int;
    lemma_items_stay(family.operations, rust.operations, i + 1, n, text);
    lemma_items_stay(family.operations, rust.operations, i + 1, n, function);
    let all = source::operation_items(family.operations, rust.operations, n);
    let whole = source::source_items(family, rust);
    let a = choose|at: int| 0 <= at < all.len() && all[at] == text;
    let b = choose|at: int| 0 <= at < all.len() && all[at] == function;
    assert(whole[a] == text);
    assert(whole[b] == function);
}

/// Operations that the host serves have no code of their own.
pub proof fn host_operations_have_no_code(
    family: Seq<OperationModel>,
    operations: Seq<OhosOperationPlan>,
    upto: int,
)
    requires
        0 <= upto <= family.len(),
    ensures
        source::operation_items(family, operations, upto).len() == 2 * native_count(family, upto),
    decreases upto,
{
    if upto > 0 {
        host_operations_have_no_code(family, operations, upto - 1);
    }
}

/// How many of the first `upto` operations run native code.
pub open spec fn native_count(family: Seq<OperationModel>, upto: int) -> int
    decreases upto,
{
    if upto <= 0 {
        0
    } else {
        native_count(family, upto - 1) + match family[upto - 1].target {
            FamilyOperationTarget::Native => 1int,
            FamilyOperationTarget::CallbackHost { .. } => 0,
            FamilyOperationTarget::InputStreamHostPull => 0,
            FamilyOperationTarget::InputStreamHostCancel => 0,
        }
    }
}

/// A module ends with the factory, behind the hooks and the operations.
pub proof fn module_ends_with_its_factory(family: FamilyModel, rust: BridgeModel)
    ensures
        ({
            let items = source::source_items(family, rust);
            &&& items.len() >= 2
            &&& items[items.len() - 2] == ItemModel::Text(source::factory_text(family, rust))
            &&& items.last() == ItemModel::Function(source::factory_function())
        }),
{
}

// ---- What cannot be generated ----

/// A plan that is not native, or whose receiver is a callback or an input stream,
/// cannot be generated.
pub proof fn unfit_plan_is_not_generated(family: OperationModel, operation: OhosOperationPlan)
    ensures
        !(operation.target is Native) ==> entry::generation_fault(family, operation) == Some(
            OhosEngineError::InvalidOperationTarget {
                operation_id: operation.operation_id,
                kind: family.kind,
            },
        ),
        operation.target is Native && (operation.receiver matches Some(receiver) && match
            receiver.binding {
            OhosArgumentBinding::CallbackProxy { .. } => true,
            OhosArgumentBinding::InputStreamProxy { .. } => true,
            _ => false,
        }) ==> entry::generation_fault(family, operation) == Some(
            OhosEngineError::InvalidResourceReceiver { operation_id: operation.operation_id },
        ),
{
}

/// A callback argument without a use-site of its own cannot be generated, and neither
/// can an input stream without one; every other argument can.
pub proof fn argument_without_use_site_is_not_generated(
    family: OperationModel,
    operation: OhosOperationPlan,
    argument: int,
)
    requires
        0 <= argument < operation.arguments@.len() <= usize::MAX,
    ensures
        ({
            let fault = entry::use_site_fault(family, operation, argument);
            let callback = exists|i: int|
                #![trigger family.callbacks[i]]
                0 <= i < family.callbacks.len() && wrapping::names_argument(
                    family.callbacks[i].path,
                    argument,
                );
            let stream = exists|i: int|
                #![trigger family.streams[i]]
                0 <= i < family.streams.len() && family.streams[i].direction
                    == StreamDirection::Input && wrapping::names_argument(
                    family.streams[i].path,
                    argument,
                );
            match operation.arguments@[argument].binding {
                OhosArgumentBinding::CallbackProxy { .. } => if callback {
                    fault is None
                } else {
                    fault == Some(
                        OhosEngineError::MissingStructuredUseSite {
                            operation_id: operation.operation_id,
                            argument: argument as usize,
                            role: "callback",
                        },
                    )
                },
                OhosArgumentBinding::InputStreamProxy { .. } => if stream {
                    fault is None
                } else {
                    fault == Some(
                        OhosEngineError::MissingStructuredUseSite {
                            operation_id: operation.operation_id,
                            argument: argument as usize,
                            role: "input stream",
                        },
                    )
                },
                _ => fault is None,
            }
        }),
{
    if exists|i: int|
        #![trigger family.callbacks[i]]
        0 <= i < family.callbacks.len() && wrapping::names_argument(
            family.callbacks[i].path,
            argument,
        ) {
        let at = choose|i: int|
            #![trigger family.callbacks[i]]
            0 <= i < family.callbacks.len() && wrapping::names_argument(
                family.callbacks[i].path,
                argument,
            );
        lemma_site_is_found(family, argument, 0, at);
    } else {
        assert forall|i: int| 0 <= i < family.callbacks.len() implies !wrapping::names_argument(
            (#[trigger] family.callbacks[i]).path,
            argument,
        ) by {}
        lemma_no_site(family, argument, 0);
    }
    let stream = exists|i: int|
        #![trigger family.streams[i]]
        0 <= i < family.streams.len() && family.streams[i].direction == StreamDirection::Input
            && wrapping::names_argument(family.streams[i].path, argument);
    if stream {
        let at = choose|i: int|
            #![trigger family.streams[i]]
            0 <= i < family.streams.len() && family.streams[i].direction == StreamDirection::Input
                && wrapping::names_argument(family.streams[i].path, argument);
        assert(entry::is_argument(family.streams[at].path, argument));
        assert(entry::has_stream_site(family, argument));
    }
    if entry::has_stream_site(family, argument) {
        let at = choose|i: int|
            #![trigger family.streams[i]]
            0 <= i < family.streams.len() && family.streams[i].direction is Input
                && entry::is_argument(family.streams[i].path, argument);
        assert(wrapping::names_argument(family.streams[at].path, argument));
        assert(stream);
    }
}

proof fn lemma_site_is_found(family: OperationModel, argument: int, from: int, at: int)
    requires
        0 <= from <= at < family.callbacks.len(),
        wrapping::names_argument(family.callbacks[at].path, argument),
    ensures
        entry::callback_site_from(family, argument, from) is Some,
    decreases at - from,
{
    if from < at {
        lemma_site_is_found(family, argument, from + 1, at);
    }
}

proof fn lemma_no_site(family: OperationModel, argument: int, from: int)
    requires
        0 <= from,
        forall|i: int|
            0 <= i < family.callbacks.len() ==> !wrapping::names_argument(
                (#[trigger] family.callbacks[i]).path,
                argument,
            ),
    ensures
        entry::callback_site_from(family, argument, from) is None,
    decreases family.callbacks.len() - from,
{
    if from < family.callbacks.len() {
        assert(!wrapping::names_argument(family.callbacks[from].path, argument));
        lemma_no_site(family, argument, from + 1);
    }
}

/// The first argument that cannot be generated is the one that is reported.
pub proof fn first_faulty_argument_is_reported(
    family: OperationModel,
    operation: OhosOperationPlan,
    k: int,
)
    requires
        0 <= k < operation.arguments@.len(),
        entry::use_site_fault(family, operation, k) is Some,
        forall|i: int|
            0 <= i < k ==> (#[trigger] entry::use_site_fault(family, operation, i)) is None,
    ensures
        entry::use_sites_fault_from(family, operation, 0) == entry::use_site_fault(
            family,
            operation,
            k,
        ),
{
    lemma_first_fault(family, operation, 0, k);
}

proof fn lemma_first_fault(
    family: OperationModel,
    operation: OhosOperationPlan,
    from: int,
    k: int,
)
    requires
        0 <= from <= k < operation.arguments@.len(),
        entry::use_site_fault(family, operation, k) is Some,
        forall|i: int|
            0 <= i < k ==> (#[trigger] entry::use_site_fault(family, operation, i)) is None,
    ensures
        entry::use_sites_fault_from(family, operation, from) == entry::use_site_fault(
            family,
            operation,
            k,
        ),
    decreases k - from,
{
    if from < k {
        assert(entry::use_site_fault(family, operation, from) is None);
        lemma_first_fault(family, operation, from + 1, k);
    }
}

/// The operation at `i` stands in its place and can be generated where it is native.
pub open spec fn generated_at(
    family: Seq<OperationModel>,
    operations: Seq<OhosOperationPlan>,
    i: int,
) -> bool {
    &&& operations[i].operation_id == family[i].id
    &&& family[i].target == FamilyOperationTarget::Native ==> entry::generation_fault(
        family[i],
        operations[i],
    ) is None
}

/// A module is generated where every operation stands in its place and can be
/// generated.
pub proof fn operations_in_place_are_generated(
    family: Seq<OperationModel>,
    operations: Seq<OhosOperationPlan>,
    from: int,
)
    requires
        0 <= from,
        forall|i: int| 0 <= i < family.len() ==> #[trigger] generated_at(family, operations, i),
    ensures
        source::operations_fault_from(family, operations, from) is None,
    decreases family.len() - from,
{
    if from < family.len() {
        assert(generated_at(family, operations, from));
        operations_in_place_are_generated(family, operations, from + 1);
    }
}

/// The first operation out of its place is reported with the number that was expected
/// and the one that was found, and the first that cannot be generated with its fault.
pub proof fn first_faulty_operation_is_reported(
    family: Seq<OperationModel>,
    operations: Seq<OhosOperationPlan>,
    k: int,
)
    requires
        0 <= k < family.len(),
        !generated_at(family, operations, k),
        forall|i: int| 0 <= i < k ==> #[trigger] generated_at(family, operations, i),
    ensures
        operations[k].operation_id != family[k].id ==> source::operations_fault_from(
            family,
            operations,
            0,
        ) == Some(
            OhosEngineError::NonDenseOperation {
                expected: family[k].id,
                actual: operations[k].operation_id,
            },
        ),
        operations[k].operation_id == family[k].id ==> source::operations_fault_from(
            family,
            operations,
            0,
        ) == entry::generation_fault(family[k], operations[k]),
{
    lemma_first_faulty_operation(family, operations, 0, k);
}

proof fn lemma_first_faulty_operation(
    family: Seq<OperationModel>,
    operations: Seq<OhosOperationPlan>,
    from: int,
    k: int,
)
    requires
        0 <= from <= k < family.len(),
        !generated_at(family, operations, k),
        forall|i: int| 0 <= i < k ==> #[trigger] generated_at(family, operations, i),
    ensures
        source::operations_fault_from(family, operations, from) == if operations[k].operation_id
            != family[k].id {
            Some(
                OhosEngineError::NonDenseOperation {
                    expected: family[k].id,
                    actual: operations[k].operation_id,
                },
            )
        } else {
            entry::generation_fault(family[k], operations[k])
        },
    decreases k - from,
{
    if from < k {
        assert(generated_at(family, operations, from));
        lemma_first_faulty_operation(family, operations, from + 1, k);
    }
}

/// What keeps one operation from being described, given that native operations and no
/// others bring their callback.
pub open spec fn description_fault(family: Seq<OperationModel>, i: int) -> Option<Seq<char>> {
    descriptor::descriptor_fault(
        family[i],
        match family[i].target {
            FamilyOperationTarget::Native => true,
            FamilyOperationTarget::CallbackHost { .. } => false,
            FamilyOperationTarget::InputStreamHostPull => false,
            FamilyOperationTarget::InputStreamHostCancel => false,
        },
    )
}

/// The first operation that cannot be described is the one that is reported.
pub proof fn first_undescribed_operation_is_reported(family: Seq<OperationModel>, k: int)
    requires
        0 <= k < family.len(),
        description_fault(family, k) is Some,
        forall|i: int| 0 <= i < k ==> (#[trigger] description_fault(family, i)) is None,
    ensures
        source::descriptors_fault_from(family, 0) == description_fault(family, k),
{
    lemma_first_undescribed(family, 0, k);
}

proof fn lemma_first_undescribed(family: Seq<OperationModel>, from: int, k: int)
    requires
        0 <= from <= k < family.len(),
        description_fault(family, k) is Some,
        forall|i: int| 0 <= i < k ==> (#[trigger] description_fault(family, i)) is None,
    ensures
        source::descriptors_fault_from(family, from) == description_fault(family, k),
    decreases k - from,
{
    if from < k {
        assert(description_fault(family, from) is None);
        lemma_first_undescribed(family, from + 1, k);
    }
}

/// A family whose operations can all be described has no fault.
pub proof fn described_operations_have_no_fault(family: Seq<OperationModel>, from: int)
    requires
        0 <= from,
        forall|i: int|
            0 <= i < family.len() ==> (#[trigger] description_fault(family, i)) is None,
    ensures
        source::descriptors_fault_from(family, from) is None,
    decreases family.len() - from,
{
    if from < family.len() {
        assert(description_fault(family, from) is None);
        described_operations_have_no_fault(family, from + 1);
    }
}

} // verus!
