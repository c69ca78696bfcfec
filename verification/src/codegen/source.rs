//! Generated modules: the source of all operations and of the one factory that
//! the script sees.

use crate::ast::{FnModel, NapiFn, NapiFnBuilder};
use crate::ast;
use crate::codegen::body::{generate_operation, pattern};
use crate::codegen::body;
use crate::codegen::descriptor::{session_descriptor, write_callback};
use crate::codegen::descriptor;
use crate::codegen::entry::raw_operation_name;
use crate::codegen::entry;
use crate::error::OhosEngineError;
use crate::family::{
    ClosePolicy, DeadlineAction, FamilyModel, FamilyOperationTarget, FamilyPlan, OperationModel,
    ReceiverBinding,
};
use crate::plan;
use crate::plan::{
    BridgeModel, OhosBridgePlan, OhosOperationPlan, OhosOperationTarget, OhosResourceHook,
    OhosResourceHooks,
};
use crate::text;
use crate::value::OhosRuntimeHooks;
use vstd::prelude::*;
use vstd::string::StringExecFns;

verus! {

/// The only name that a generated module exports.
pub const BACKEND_FACTORY_EXPORT: &'static str = "__uniffi_backend_factory";

/// A family with the Rust code that serves it.
#[derive(Clone, Debug, PartialEq, Eq)]
pub struct GeneratedOhosModule {
    family: FamilyPlan,
    hooks: OhosRuntimeHooks,
    rust: OhosBridgePlan,
}

impl GeneratedOhosModule {
    pub closed spec fn family_model(self) -> FamilyModel {
        self.family@
    }

    pub closed spec fn bridge_model(self) -> BridgeModel {
        self.rust@
    }

    pub closed spec fn runtime_hooks(self) -> OhosRuntimeHooks {
        self.hooks
    }

    pub fn family(&self) -> (r: &FamilyPlan)
        ensures
            r@ == self.family_model(),
    {
        &self.family
    }

    pub fn hooks(&self) -> (r: OhosRuntimeHooks)
        ensures
            r == self.runtime_hooks(),
    {
        self.hooks
    }

    pub fn operations(&self) -> (r: &Vec<OhosOperationPlan>)
        ensures
            r@ == self.bridge_model().operations,
    {
        self.rust.operations()
    }

    pub fn resource_hooks(&self) -> (r: &OhosResourceHooks)
        ensures
            *r == self.bridge_model().resource_hooks,
    {
        self.rust.resource_hooks()
    }

    /// The names that the module exports.
    pub fn public_exports(&self) -> (r: Vec<&'static str>)
        ensures
            r@.len() == 1,
            r@[0]@ == BACKEND_FACTORY_EXPORT@,
    {
        let mut exports: Vec<&'static str> = Vec::new();
        exports.push(BACKEND_FACTORY_EXPORT);
        exports
    }

    /// The names of the raw functions, which the module keeps for itself.
    pub fn raw_operation_names(&self) -> (r: Vec<String>)
        ensures
            r@.len() == self.bridge_model().operations.len(),
            forall|i: int|
                0 <= i < r@.len() ==> (#[trigger] r@[i])@ == entry::raw_name(
                    self.bridge_model().operations[i].operation_id,
                ),
    {
        let operations = self.rust.operations();
        let mut names: Vec<String> = Vec::new();
        for i in 0..operations.len()
            invariant
                names.len() == i,
                forall|j: int|
                    0 <= j < i ==> (#[trigger] names@[j])@ == entry::raw_name(
                        operations@[j].operation_id,
                    ),
        {
            names.push(raw_operation_name(operations[i].operation_id));
        }
        names
    }
}

/// Puts a family and its bridge plan together.
pub fn generate_ohos_module(family: &FamilyPlan, rust: OhosBridgePlan) -> (r: Result<
    GeneratedOhosModule,
    OhosEngineError,
>)
    ensures
        if family@.operations.len() != rust@.operations.len() {
            r == Err::<GeneratedOhosModule, OhosEngineError>(
                OhosEngineError::OperationCount {
                    expected: family@.operations.len() as usize,
                    actual: rust@.operations.len() as usize,
                },
            )
        } else {
            r matches Ok(module) && module.family_model() == family@ && module.bridge_model()
                == rust@ && module.runtime_hooks().module_registration is ArkNapi
                && module.runtime_hooks().async_scheduler is ArkEventLoop
                && module.runtime_hooks().callback_dispatch is PriorityThreadsafeFunction
                && module.runtime_hooks().cleanup_queue is ArkRuntime
        },
{
    let expected: usize = family.operations().len();
    let actual: usize = rust.operations().len();
    if expected != actual {
        return Err(OhosEngineError::OperationCount { expected, actual });
    }
    Ok(GeneratedOhosModule { family: family.clone(), hooks: OhosRuntimeHooks::default(), rust })
}

/// One piece of generated source: text as it stands, or a function that the
/// backend renders.
#[derive(Clone, Debug)]
pub enum SourceItem {
    Text(String),
    Function(NapiFn),
}

/// The mathematical form of a piece of source.
pub enum ItemModel {
    Text(Seq<char>),
    Function(FnModel),
}

impl View for SourceItem {
    type V = ItemModel;

    open spec fn view(&self) -> ItemModel {
        match *self {
            SourceItem::Text(text) => ItemModel::Text(text@),
            SourceItem::Function(function) => ItemModel::Function(function@),
        }
    }
}

/// Pieces of source in their mathematical form.
pub open spec fn items_model(items: Seq<SourceItem>) -> Seq<ItemModel> {
    Seq::new(items.len(), |i: int| items[i]@)
}

/// A module and its source.
#[derive(Clone, Debug)]
pub struct GeneratedOhosSource {
    module: GeneratedOhosModule,
    items: Vec<SourceItem>,
}

impl GeneratedOhosSource {
    pub closed spec fn module_model(self) -> GeneratedOhosModule {
        self.module
    }

    pub closed spec fn item_models(self) -> Seq<ItemModel> {
        items_model(self.items@)
    }

    pub fn module(&self) -> (r: &GeneratedOhosModule)
        ensures
            *r == self.module_model(),
    {
        &self.module
    }

    /// The source, piece by piece.
    pub fn source(&self) -> (r: &Vec<SourceItem>)
        ensures
            items_model(r@) == self.item_models(),
    {
        &self.items
    }
}

// ---- Hooks ----

pub const HOOK_RESULT: &'static str = ", ) -> napi_ohos::Result<()> {\nmatch ";

pub const HOOK_ARMS: &'static str = " { Ok(()) => Ok(()), Err(error) => Err(napi_ohos::Error::new(napi_ohos::Status::GenericFailure, error.to_string(), )), }\n}\n";

/// The source of one hook.
pub open spec fn hook_text(name: Seq<char>, hook: OhosResourceHook, asynchronous: bool) -> Seq<char> {
    let head = if asynchronous {
        "#[doc(hidden)]\nasync fn __uniffi_"@
    } else {
        "#[doc(hidden)]\nfn __uniffi_"@
    };
    let called = head + name + "(handle: "@ + hook.carrier_type@ + HOOK_RESULT@ + hook.call@
        + "(handle)"@;
    if asynchronous {
        called + ".await"@ + HOOK_ARMS@
    } else {
        called + HOOK_ARMS@
    }
}

/// The function that enters one hook. It stays out of the exports.
pub open spec fn hook_function(name: Seq<char>, hook: OhosResourceHook, asynchronous: bool) -> FnModel {
    let full = "__uniffi_"@ + name;
    FnModel {
        args: seq![ast::ArgModel::Pattern("handle: "@ + hook.carrier_type@)],
        ret: Some("()"@),
        is_ret_result: true,
        is_async: asynchronous,
        strict: true,
        skip_typescript: true,
        no_export: true,
        register_name: "__napi_register_uniffi_"@ + name,
        ..ast::plain_function(full, full)
    }
}

/// The pieces of one hook, where there is one.
pub open spec fn hook_items(
    name: Seq<char>,
    hook: Option<OhosResourceHook>,
    asynchronous: bool,
) -> Seq<ItemModel> {
    match hook {
        Some(hook) => seq![
            ItemModel::Text(hook_text(name, hook, asynchronous)),
            ItemModel::Function(hook_function(name, hook, asynchronous)),
        ],
        None => Seq::empty(),
    }
}

/// What makes a callback of a hook.
pub open spec fn hook_factory(name: Seq<char>, hook: Option<OhosResourceHook>) -> Option<Seq<char>> {
    match hook {
        Some(_) => Some("_napi_rs_internal_register___uniffi_"@ + name),
        None => None,
    }
}

/// A cancel hook may take its time; release hooks do not.
pub open spec fn resource_items(hooks: OhosResourceHooks) -> Seq<ItemModel> {
    hook_items("release_object"@, hooks.release_object, false) + hook_items(
        "cancel_output_stream"@,
        hooks.cancel_output_stream,
        true,
    ) + hook_items("release_output_stream"@, hooks.release_output_stream, false)
}

fn joined(head: &str, tail: &str) -> (r: String)
    ensures
        r@ == head@ + tail@,
{
    let mut out: String = head.to_owned();
    out.append(tail);
    out
}

/// Generates one hook and returns the name of what makes a callback of it.
fn generate_resource_callback(
    name: &str,
    hook: &Option<OhosResourceHook>,
    asynchronous: bool,
    items: &mut Vec<SourceItem>,
) -> (r: Option<String>)
    ensures
        items_model(final(items)@) == items_model(old(items)@) + hook_items(
            name@,
            *hook,
            asynchronous,
        ),
        match r {
            Some(factory) => hook_factory(name@, *hook) == Some(factory@),
            None => hook_factory(name@, *hook) is None,
        },
{
    let ghost before = items_model(items@);
    let hook = match hook {
        None => {
            assert(items_model(items@) =~= before + Seq::empty());
            return None;
        },
        Some(hook) => hook,
    };
    let mut out: String = if asynchronous {
        "#[doc(hidden)]\nasync fn __uniffi_".to_owned()
    } else {
        "#[doc(hidden)]\nfn __uniffi_".to_owned()
    };
    out.append(name);
    out.append("(handle: ");
    out.append(hook.carrier_type.as_str());
    out.append(HOOK_RESULT);
    out.append(hook.call.as_str());
    out.append("(handle)");
    if asynchronous {
        out.append(".await");
    }
    out.append(HOOK_ARMS);
    let full: String = joined("__uniffi_", name);
    let handle: String = joined("handle: ", hook.carrier_type.as_str());
    let builder = NapiFnBuilder::new(full.clone(), full).argument(pattern(handle));
    assert(builder.function()@.args =~= seq![
        ast::ArgModel::Pattern("handle: "@ + hook.carrier_type@),
    ]);
    let function: NapiFn = builder.result_return_type("()".to_owned()).asynchronous(
        asynchronous,
    ).strict(true).skip_typescript(true).private(true).register_name(
        joined("__napi_register_uniffi_", name),
    ).build();
    items.push(SourceItem::Text(out));
    items.push(SourceItem::Function(function));
    assert(items_model(items@) =~= before + seq![
        ItemModel::Text(hook_text(name@, *hook, asynchronous)),
        ItemModel::Function(hook_function(name@, *hook, asynchronous)),
    ]);
    Some(joined("_napi_rs_internal_register___uniffi_", name))
}

// ---- Operations ----

/// The path of the Rust function of a native plan.
pub open spec fn call_of(operation: OhosOperationPlan) -> Seq<char> {
    match operation.target {
        OhosOperationTarget::Native { call } => call@,
        _ => Seq::empty(),
    }
}

/// The pieces of the first `upto` operations. Operations that the host serves
/// have none.
pub open spec fn operation_items(
    family: Seq<OperationModel>,
    operations: Seq<OhosOperationPlan>,
    upto: int,
) -> Seq<ItemModel>
    decreases upto,
{
    if upto <= 0 {
        Seq::empty()
    } else {
        let head = operation_items(family, operations, upto - 1);
        let operation = operations[upto - 1];
        let shape = entry::shape_of(family[upto - 1], operation);
        if family[upto - 1].target is Native {
            head.push(ItemModel::Text(body::body_text(call_of(operation), operation, shape))).push(
                ItemModel::Function(body::entry_function(family[upto - 1], operation, shape)),
            )
        } else {
            head
        }
    }
}

/// What keeps the first faulty operation at or after `from` from being
/// generated.
pub open spec fn operations_fault_from(
    family: Seq<OperationModel>,
    operations: Seq<OhosOperationPlan>,
    from: int,
) -> Option<OhosEngineError>
    decreases family.len() - from,
{
    if from >= family.len() {
        None
    } else if family[from].id != operations[from].operation_id {
        Some(
            OhosEngineError::NonDenseOperation {
                expected: family[from].id,
                actual: operations[from].operation_id,
            },
        )
    } else if family[from].target is Native && entry::generation_fault(
        family[from],
        operations[from],
    ) is Some {
        entry::generation_fault(family[from], operations[from])
    } else {
        operations_fault_from(family, operations, from + 1)
    }
}

// ---- The factory ----

pub const FACTORY_OPEN: &'static str = "#[doc(hidden)]\nfn __uniffi_backend_factory(env: &napi_ohos::Env, host: napi_ohos::bindgen_prelude::Object<'static>, ) -> napi_ohos::Result<napi_ohos::bindgen_prelude::Object<'static>> {\nnapi_ohos_uniffi_engine::create_backend_session(env, host, napi_ohos_uniffi_engine::ClosePolicy { grace_ms: ";

pub const FACTORY_DETACH: &'static str = "u32, on_deadline: napi_ohos_uniffi_engine::DeadlineAction::Detach, }, vec![";

pub const FACTORY_HOOKS: &'static str = "], napi_ohos_uniffi_engine::SessionResourceCallbacks { release_object: ";

/// What makes a callback of an operation.
pub open spec fn callback_of(family: OperationModel, operation: OhosOperationPlan) -> Option<
    Seq<char>,
> {
    if family.target is Native {
        Some(entry::factory_name(operation.operation_id))
    } else {
        None
    }
}

/// The first `upto` descriptors.
pub open spec fn emit_descriptors(
    out: Seq<char>,
    family: Seq<OperationModel>,
    operations: Seq<OhosOperationPlan>,
    upto: int,
) -> Seq<char>
    decreases upto,
{
    if upto <= 0 {
        out
    } else {
        text::separated(emit_descriptors(out, family, operations, upto - 1), upto == 1)
            + descriptor::descriptor_text(
            family[upto - 1],
            operations[upto - 1],
            callback_of(family[upto - 1], operations[upto - 1]),
        )
    }
}

/// What keeps the first faulty operation at or after `from` from being
/// described.
pub open spec fn descriptors_fault_from(family: Seq<OperationModel>, from: int) -> Option<Seq<char>>
    decreases family.len() - from,
{
    if from >= family.len() {
        None
    } else if descriptor::descriptor_fault(family[from], family[from].target is Native) is Some {
        descriptor::descriptor_fault(family[from], family[from].target is Native)
    } else {
        descriptors_fault_from(family, from + 1)
    }
}

/// The source of the factory.
pub open spec fn factory_text(family: FamilyModel, rust: BridgeModel) -> Seq<char> {
    let described = emit_descriptors(
        FACTORY_OPEN@ + text::decimal(family.close_policy.grace_ms as int) + FACTORY_DETACH@,
        family.operations,
        rust.operations,
        family.operations.len() as int,
    ) + FACTORY_HOOKS@;
    let hooks = rust.resource_hooks;
    let released = descriptor::emit_callback(
        described,
        hook_factory("release_object"@, hooks.release_object),
    ) + ", cancel_output_stream: "@;
    let cancelled = descriptor::emit_callback(
        released,
        hook_factory("cancel_output_stream"@, hooks.cancel_output_stream),
    ) + ", release_output_stream: "@;
    descriptor::emit_callback(
        cancelled,
        hook_factory("release_output_stream"@, hooks.release_output_stream),
    ) + ", }, )\n}\n"@
}

/// The function that the module exports.
pub open spec fn factory_function() -> FnModel {
    FnModel {
        args: seq![
            ast::ArgModel::Pattern("env: &napi_ohos::Env"@),
            ast::ArgModel::Pattern("host: napi_ohos::bindgen_prelude::Object<'static>"@),
        ],
        ret: Some("napi_ohos::bindgen_prelude::Object<'static>"@),
        is_ret_result: true,
        strict: true,
        skip_typescript: true,
        register_name: "__napi_register_uniffi_backend_factory"@,
        ..ast::plain_function("__uniffi_backend_factory"@, BACKEND_FACTORY_EXPORT@)
    }
}

/// The whole source of a module.
pub open spec fn source_items(family: FamilyModel, rust: BridgeModel) -> Seq<ItemModel> {
    operation_items(family.operations, rust.operations, family.operations.len() as int)
        + resource_items(rust.resource_hooks) + seq![
        ItemModel::Text(factory_text(family, rust)),
        ItemModel::Function(factory_function()),
    ]
}

fn build_factory_function() -> (r: NapiFn)
    ensures
        r@ == factory_function(),
{
    let builder = NapiFnBuilder::new(
        "__uniffi_backend_factory".to_owned(),
        BACKEND_FACTORY_EXPORT.to_owned(),
    ).argument(pattern("env: &napi_ohos::Env".to_owned())).argument(
        pattern("host: napi_ohos::bindgen_prelude::Object<'static>".to_owned()),
    );
    assert(builder.function()@.args =~= factory_function().args);
    builder.result_return_type("napi_ohos::bindgen_prelude::Object<'static>".to_owned()).strict(
        true,
    ).skip_typescript(true).register_name(
        "__napi_register_uniffi_backend_factory".to_owned(),
    ).build()
}

/// Generates a module and its source.
pub fn generate_ohos_source(family: &FamilyPlan, rust: OhosBridgePlan) -> (r: Result<
    GeneratedOhosSource,
    OhosEngineError,
>)
    ensures
        ({
            let (plan, bridge) = (family@, rust@);
            if plan.operations.len() != bridge.operations.len() {
                r == Err::<GeneratedOhosSource, OhosEngineError>(
                    OhosEngineError::OperationCount {
                        expected: plan.operations.len() as usize,
                        actual: bridge.operations.len() as usize,
                    },
                )
            } else if operations_fault_from(plan.operations, bridge.operations, 0) is Some {
                r == Err::<GeneratedOhosSource, OhosEngineError>(
                    operations_fault_from(plan.operations, bridge.operations, 0)->0,
                )
            } else if descriptors_fault_from(plan.operations, 0) is Some {
                r matches Err(OhosEngineError::Codegen(reason)) && descriptors_fault_from(
                    plan.operations,
                    0,
                ) == Some(reason@)
            } else {
                &&& r matches Ok(generated)
                &&& generated.module_model().family_model() == plan
                &&& generated.module_model().bridge_model() == bridge
                &&& generated.item_models() == source_items(plan, bridge)
            }
        }),
{
    let ghost plan = family@;
    let ghost bridge = rust@;
    let module: GeneratedOhosModule = match generate_ohos_module(family, rust) {
        Ok(module) => module,
        Err(error) => return Err(error),
    };
    let listed = family.operations();
    let operations = module.operations();
    let mut items: Vec<SourceItem> = Vec::new();
    let mut callbacks: Vec<Option<String>> = Vec::new();
    let mut k: usize = 0;
    assert(items_model(items@) =~= Seq::empty());
    while k < listed.len()
        invariant
            plan.operations == crate::family::operations_model(listed@),
            operations@ == bridge.operations,
            plan.operations.len() == bridge.operations.len(),
            k <= listed.len(),
            callbacks@.len() == k,
            items_model(items@) == operation_items(
                plan.operations,
                bridge.operations,
                k as int,
            ),
            operations_fault_from(plan.operations, bridge.operations, 0)
                == operations_fault_from(plan.operations, bridge.operations, k as int),
            forall|j: int|
                0 <= j < k ==> match #[trigger] callbacks@[j] {
                    Some(name) => callback_of(plan.operations[j], bridge.operations[j]) == Some(
                        name@,
                    ),
                    None => callback_of(plan.operations[j], bridge.operations[j]) is None,
                },
            family@ == plan,
            rust@ == bridge,
        decreases listed.len() - k,
    {
        let family_operation = &listed[k];
        assert(plan.operations[k as int] == family_operation@);
        let operation = &operations[k];
        if family_operation.id != operation.operation_id {
            return Err(
                OhosEngineError::NonDenseOperation {
                    expected: family_operation.id,
                    actual: operation.operation_id,
                },
            );
        }
        let ghost before = items_model(items@);
        if matches!(family_operation.target, FamilyOperationTarget::Native) {
            match generate_operation(operation, family_operation) {
                Err(error) => return Err(error),
                Ok(generated) => {
                    items.push(SourceItem::Text(generated.body));
                    items.push(SourceItem::Function(generated.function));
                    callbacks.push(Some(generated.callback_factory));
                    assert(items_model(items@) =~= before.push(
                        ItemModel::Text(generated.body@),
                    ).push(ItemModel::Function(generated.function@)));
                },
            }
        } else {
            callbacks.push(None);
        }
        k = k + 1;
    }
    let hooks = module.resource_hooks();
    let release_object = generate_resource_callback(
        "release_object",
        &hooks.release_object,
        false,
        &mut items,
    );
    let cancel_output = generate_resource_callback(
        "cancel_output_stream",
        &hooks.cancel_output_stream,
        true,
        &mut items,
    );
    let release_output = generate_resource_callback(
        "release_output_stream",
        &hooks.release_output_stream,
        false,
        &mut items,
    );
    let ghost before_factory = items_model(items@);
    proof {
        let first = operation_items(
            plan.operations,
            bridge.operations,
            plan.operations.len() as int,
        );
        assert(before_factory =~= first + resource_items(bridge.resource_hooks));
    }
    let policy: ClosePolicy = family.close_policy();
    let mut out: String = FACTORY_OPEN.to_owned();
    text::push_decimal(&mut out, policy.grace_ms as u64);
    match policy.on_deadline {
        DeadlineAction::Detach => out.append(FACTORY_DETACH),
    }
    let ghost opened = out@;
    let mut d: usize = 0;
    while d < listed.len()
        invariant
            plan.operations == crate::family::operations_model(listed@),
            operations@ == bridge.operations,
            plan.operations.len() == bridge.operations.len(),
            d <= listed.len(),
            callbacks@.len() == listed@.len(),
            out@ == emit_descriptors(opened, plan.operations, bridge.operations, d as int),
            descriptors_fault_from(plan.operations, 0) == descriptors_fault_from(
                plan.operations,
                d as int,
            ),
            operations_fault_from(plan.operations, bridge.operations, 0) is None,
            forall|j: int|
                0 <= j < callbacks@.len() ==> match #[trigger] callbacks@[j] {
                    Some(name) => callback_of(plan.operations[j], bridge.operations[j]) == Some(
                        name@,
                    ),
                    None => callback_of(plan.operations[j], bridge.operations[j]) is None,
                },
            family@ == plan,
            rust@ == bridge,
        decreases listed.len() - d,
    {
        assert(plan.operations[d as int] == listed@[d as int]@);
        let ghost named = callbacks@[d as int];
        match session_descriptor(&listed[d], &operations[d], callbacks[d].as_ref()) {
            Err(error) => return Err(error),
            Ok(described) => {
                text::push_separator(&mut out, d == 0);
                out.append(described.as_str());
            },
        }
        d = d + 1;
    }
    out.append(FACTORY_HOOKS);
    write_callback(&mut out, release_object.as_ref());
    out.append(", cancel_output_stream: ");
    write_callback(&mut out, cancel_output.as_ref());
    out.append(", release_output_stream: ");
    write_callback(&mut out, release_output.as_ref());
    out.append(", }, )\n}\n");
    items.push(SourceItem::Text(out));
    items.push(SourceItem::Function(build_factory_function()));
    assert(items_model(items@) =~= before_factory + seq![
        ItemModel::Text(factory_text(plan, bridge)),
        ItemModel::Function(factory_function()),
    ]);
    Ok(GeneratedOhosSource { module, items })
}

/// The pieces of operations export nothing.
proof fn lemma_operations_are_private(
    family: Seq<OperationModel>,
    operations: Seq<OhosOperationPlan>,
    upto: int,
    i: int,
)
    requires
        0 <= i < operation_items(family, operations, upto).len(),
    ensures
        operation_items(family, operations, upto)[i] matches ItemModel::Function(function)
            ==> function.no_export,
    decreases upto,
{
    if upto > 0 {
        let head = operation_items(family, operations, upto - 1);
        if i < head.len() {
            lemma_operations_are_private(family, operations, upto - 1, i);
        }
    }
}

/// A generated module exports its factory and nothing else.
pub proof fn only_the_factory_is_exported(family: FamilyModel, rust: BridgeModel, i: int)
    requires
        0 <= i < source_items(family, rust).len(),
    ensures
        source_items(family, rust)[i] matches ItemModel::Function(function) ==> (
        !function.no_export <==> i == source_items(family, rust).len() - 1),
        source_items(family, rust).last() == ItemModel::Function(factory_function()),
        factory_function().js_name == BACKEND_FACTORY_EXPORT@,
{
    let first = operation_items(
        family.operations,
        rust.operations,
        family.operations.len() as int,
    );
    if i < first.len() {
        lemma_operations_are_private(
            family.operations,
            rust.operations,
            family.operations.len() as int,
            i,
        );
    }
}

/// A callback that is this argument itself has a use-site to generate from.
proof fn lemma_callback_site(family: OperationModel, argument: int, at: int, from: int)
    requires
        0 <= from <= at < family.callbacks.len(),
        entry::is_argument(family.callbacks[at].path, argument),
    ensures
        entry::callback_site_from(family, argument, from) is Some,
    decreases at - from,
{
    if from < at {
        lemma_callback_site(family, argument, at, from + 1);
    }
}

/// An argument that fits its use-sites can be generated.
proof fn lemma_use_sites(family: OperationModel, operation: OhosOperationPlan, from: int)
    requires
        0 <= from,
        plan::arguments_fault_from(family, operation, from) is None,
    ensures
        entry::use_sites_fault_from(family, operation, from) is None,
    decreases operation.arguments@.len() - from,
{
    if from < operation.arguments@.len() {
        assert(plan::argument_fault(family, operation, from) is None);
        let binding = operation.arguments@[from].binding;
        if binding is CallbackProxy {
            assert(plan::direct_callback(family, from));
            let at = choose|i: int|
                #![trigger family.callbacks[i]]
                0 <= i < family.callbacks.len() && family.callbacks[i].path.starts_at(from)
                    && family.callbacks[i].path.segments.len() == 1;
            lemma_callback_site(family, from, at, 0);
        }
        if binding is InputStreamProxy {
            assert(plan::direct_stream(family, from));
            let at = choose|i: int|
                #![trigger family.streams[i]]
                0 <= i < family.streams.len() && family.streams[i].direction is Input
                    && family.streams[i].path.starts_at(from)
                    && family.streams[i].path.segments.len() == 1;
            assert(entry::is_argument(family.streams[at].path, from));
        }
        lemma_use_sites(family, operation, from + 1);
    }
}

/// Plans in the order of the family are generated from `from` on.
proof fn lemma_built_plan(
    family: FamilyModel,
    operations: Seq<OhosOperationPlan>,
    hooks: OhosResourceHooks,
    from: int,
)
    requires
        0 <= from,
        plan::plan_fault(family, operations, hooks) is None,
        forall|k: int|
            0 <= k < family.operations.len() ==> !receives_stream(
                #[trigger] family.operations[k],
            ),
    ensures
        operations_fault_from(
            family.operations,
            plan::arranged(family.operations, operations),
            from,
        ) is None,
    decreases family.operations.len() - from,
{
    if from < family.operations.len() {
        plan::built_plan_serves_its_family(family, operations, hooks, from);
        let operation = plan::arranged(family.operations, operations)[from];
        if family.operations[from].target is Native {
            assert(!receives_stream(family.operations[from]));
            lemma_use_sites(family.operations[from], operation, 0);
        }
        lemma_built_plan(family, operations, hooks, from + 1);
    }
}

/// The operation runs native code on an input stream that receives the call.
pub open spec fn receives_stream(operation: OperationModel) -> bool {
    operation.target is Native && (operation.receiver matches Some(
        ReceiverBinding::Resource(resource),
    ) && resource.kind is InputStream)
}

/// A plan that was built can be generated: no operation lacks its place, its
/// native function or a use-site that its bindings need. Native code cannot
/// receive an input stream, so families without such receivers are meant.
pub proof fn built_plan_is_generated(
    family: FamilyModel,
    operations: Seq<OhosOperationPlan>,
    hooks: OhosResourceHooks,
)
    requires
        plan::plan_fault(family, operations, hooks) is None,
        forall|k: int|
            0 <= k < family.operations.len() ==> !receives_stream(
                #[trigger] family.operations[k],
            ),
    ensures
        plan::arranged(family.operations, operations).len() == family.operations.len(),
        operations_fault_from(
            family.operations,
            plan::arranged(family.operations, operations),
            0,
        ) is None,
{
    lemma_built_plan(family, operations, hooks, 0);
}

/// The same words before two numbers keep them apart.
proof fn lemma_numbered_names_differ(prefix: Seq<char>, a: u32, b: u32)
    requires
        a != b,
    ensures
        prefix + text::decimal(a as int) != prefix + text::decimal(b as int),
{
    let left = prefix + text::decimal(a as int);
    let right = prefix + text::decimal(b as int);
    if left == right {
        assert(left.skip(prefix.len() as int) =~= text::decimal(a as int));
        assert(right.skip(prefix.len() as int) =~= text::decimal(b as int));
        text::decimal_tells_numbers_apart(a as int, b as int);
    }
}

/// Two operations of a plan that was built never share a generated name.
pub proof fn generated_names_differ(
    family: FamilyModel,
    operations: Seq<OhosOperationPlan>,
    hooks: OhosResourceHooks,
    i: int,
    j: int,
)
    requires
        plan::plan_fault(family, operations, hooks) is None,
        0 <= i < j < family.operations.len(),
    ensures
        ({
            let a = plan::arranged(family.operations, operations)[i].operation_id;
            let b = plan::arranged(family.operations, operations)[j].operation_id;
            &&& entry::raw_name(a) != entry::raw_name(b)
            &&& entry::factory_name(a) != entry::factory_name(b)
            &&& entry::register_name(a) != entry::register_name(b)
        }),
{
    plan::built_plan_serves_its_family(family, operations, hooks, i);
    plan::built_plan_serves_its_family(family, operations, hooks, j);
    plan::built_plan_serves_each_operation_once(family, operations, hooks, i, j);
    let a = plan::arranged(family.operations, operations)[i].operation_id;
    let b = plan::arranged(family.operations, operations)[j].operation_id;
    lemma_numbered_names_differ("__uniffi_raw_operation_"@, a, b);
    lemma_numbered_names_differ("_napi_rs_internal_register___uniffi_raw_operation_"@, a, b);
    lemma_numbered_names_differ("__napi_register_uniffi_raw_operation_"@, a, b);
}

} // verus!
