//! What the wrappers of native operations take and prepare.

use crate::ast::ArgModel;
use crate::codegen::body;
use crate::codegen::entry;
use crate::codegen::entry::OperationShape;
use crate::codegen::laws;
use crate::codegen::wording;
use crate::family::{
    AsyncKind, CallbackRetention, CallbackSiteModel, OperationModel, PathModel, ReceiverBinding,
    StreamDirection,
};
use crate::plan::{OhosArgumentBinding, OhosOperationPlan};
use crate::session::types::SegmentModel;
use crate::text;
use vstd::prelude::*;

verus! {

// ---- What a wrapper takes ----

/// The path starts at an argument of the call.
pub open spec fn in_the_arguments(path: PathModel) -> bool {
    path.segments.len() > 0 && path.segments[0] is Argument
}

/// The binding is made with the host, told apart by its variant.
pub open spec fn made_with_the_host(binding: OhosArgumentBinding) -> bool {
    match binding {
        OhosArgumentBinding::CallbackProxy { .. } => true,
        OhosArgumentBinding::InputStreamProxy { .. } => true,
        OhosArgumentBinding::LowerWithHost { .. } => true,
        _ => false,
    }
}

/// A wrapper takes the host for each of these: a callback or an input stream among
/// the arguments, an argument that is made with the host, and a receiver that is
/// lowered with it.
pub proof fn host_is_taken_where_needed(
    family: OperationModel,
    operation: OhosOperationPlan,
    i: int,
)
    ensures
        0 <= i < family.callbacks.len() && in_the_arguments(family.callbacks[i].path)
            ==> entry::shape_of(family, operation).requires_host,
        0 <= i < family.streams.len() && family.streams[i].direction == StreamDirection::Input
            ==> entry::shape_of(family, operation).requires_host,
        0 <= i < operation.arguments@.len() && made_with_the_host(operation.arguments@[i].binding)
            ==> entry::shape_of(family, operation).requires_host,
        (operation.receiver matches Some(receiver) && receiver.binding is LowerWithHost)
            ==> entry::shape_of(family, operation).requires_host,
{
}

/// A wrapper that needs the host for nothing does not take it.
pub proof fn host_is_not_taken_for_nothing(family: OperationModel, operation: OhosOperationPlan)
    requires
        forall|i: int|
            0 <= i < family.callbacks.len() ==> !in_the_arguments(
                (#[trigger] family.callbacks[i]).path,
            ),
        forall|i: int|
            0 <= i < family.streams.len() ==> (#[trigger] family.streams[i]).direction
                == StreamDirection::Output,
        forall|i: int|
            0 <= i < operation.arguments@.len() ==> !made_with_the_host(
                (#[trigger] operation.arguments@[i]).binding,
            ),
        operation.receiver matches Some(receiver) ==> !(receiver.binding is LowerWithHost),
    ensures
        !entry::shape_of(family, operation).requires_host,
{
}

/// A transfer of leases comes along exactly where a callback is among the arguments.
pub proof fn transfer_comes_with_callbacks(
    family: OperationModel,
    operation: OhosOperationPlan,
    i: int,
)
    ensures
        0 <= i < family.callbacks.len() && in_the_arguments(family.callbacks[i].path)
            ==> entry::shape_of(family, operation).callback_transfer,
        (forall|j: int|
            0 <= j < family.callbacks.len() ==> !in_the_arguments(
                (#[trigger] family.callbacks[j]).path,
            )) ==> !entry::shape_of(family, operation).callback_transfer,
{
}

/// An asynchronous operation is spawned by hand where it takes the host, or where its
/// receiver is a value that code lowers; a synchronous one never is.
pub proof fn futures_are_spawned_by_hand_where_needed(
    family: OperationModel,
    operation: OhosOperationPlan,
)
    ensures
        ({
            let shape = entry::shape_of(family, operation);
            let lowered = match operation.receiver {
                Some(receiver) => match receiver.binding {
                    OhosArgumentBinding::I64BigInt => true,
                    OhosArgumentBinding::U64BigInt => true,
                    OhosArgumentBinding::LowerWith { .. } => true,
                    OhosArgumentBinding::LowerWithHost { .. } => true,
                    _ => false,
                },
                None => false,
            };
            &&& family.async_kind == AsyncKind::Sync ==> !shape.asynchronous
                && !shape.manual_async_entry
            &&& family.async_kind == AsyncKind::Async ==> shape.asynchronous
            &&& family.async_kind == AsyncKind::Async && shape.requires_host
                ==> shape.manual_async_entry
            &&& family.async_kind == AsyncKind::Async && family.receiver == Some(
                ReceiverBinding::Value,
            ) && lowered ==> shape.manual_async_entry
            &&& !shape.requires_host && !(family.receiver == Some(ReceiverBinding::Value)
                && lowered) ==> !shape.manual_async_entry
        }),
{
}

/// The pattern of an argument: its name and the type in which it arrives.
pub open spec fn carried_text(name: Seq<char>, binding: OhosArgumentBinding) -> ArgModel {
    ArgModel::Pattern(name + ": "@ + binding.carrier())
}

proof fn lemma_carried(operation: OhosOperationPlan, upto: int)
    requires
        0 <= upto,
    ensures
        body::carried_args(operation, upto) == (match operation.receiver {
            Some(receiver) => seq![carried_text(receiver.name@, receiver.binding)],
            None => Seq::empty(),
        }) + Seq::new(
            upto as nat,
            |i: int| carried_text(operation.arguments@[i].name@, operation.arguments@[i].binding),
        ),
    decreases upto,
{
    let head = match operation.receiver {
        Some(receiver) => seq![carried_text(receiver.name@, receiver.binding)],
        None => Seq::empty(),
    };
    let rest = Seq::new(
        upto as nat,
        |i: int| carried_text(operation.arguments@[i].name@, operation.arguments@[i].binding),
    );
    if upto > 0 {
        lemma_carried(operation, upto - 1);
        let earlier = Seq::new(
            (upto - 1) as nat,
            |i: int| carried_text(operation.arguments@[i].name@, operation.arguments@[i].binding),
        );
        assert(head + rest =~= (head + earlier).push(rest.last()));
    } else {
        assert(head + rest =~= head);
    }
}

/// A wrapper takes the host, the environment for a future that it spawns by hand, the
/// session and the transfer, then the receiver and every argument in its type.
pub proof fn wrapper_takes_its_arguments_in_order(
    family: OperationModel,
    operation: OhosOperationPlan,
    shape: OperationShape,
)
    ensures
        body::entry_function(family, operation, shape).args == (if shape.requires_host {
            seq![
                ArgModel::Pattern("__uniffi_host: napi_ohos::bindgen_prelude::Object<'static>"@),
            ]
        } else {
            Seq::empty()
        }) + (if shape.manual_async_entry {
            seq![ArgModel::Pattern("__uniffi_env: &napi_ohos::Env"@)]
        } else {
            Seq::empty()
        }) + (if shape.callback_transfer {
            seq![
                ArgModel::Pattern("\"__uniffi_session_generation\": u32"@),
                ArgModel::Pattern("\"__uniffi_callback_transfer\": u32"@),
            ]
        } else {
            Seq::empty()
        }) + ((match operation.receiver {
            Some(receiver) => seq![carried_text(receiver.name@, receiver.binding)],
            None => Seq::empty(),
        }) + Seq::new(
            operation.arguments@.len(),
            |i: int| carried_text(operation.arguments@[i].name@, operation.arguments@[i].binding),
        )),
{
    lemma_carried(operation, operation.arguments@.len() as int);
}

/// A wrapper is named after its operation, stays out of the exports, and returns a
/// raw value where it spawns its future by hand and the result of the call elsewhere.
pub proof fn wrapper_is_a_private_function(
    family: OperationModel,
    operation: OhosOperationPlan,
    shape: OperationShape,
)
    ensures
        ({
            let function = body::entry_function(family, operation, shape);
            let number = text::decimal(operation.operation_id as int);
            &&& function.name == "__uniffi_raw_operation_"@ + number
            &&& function.js_name == function.name
            &&& function.register_name == "__napi_register_uniffi_raw_operation_"@ + number
            &&& function.no_export
            &&& function.strict
            &&& function.skip_typescript
            &&& function.otherwise_plain
            &&& function.pre_call == entry::pre_call_text(family, operation, shape)
            &&& shape.manual_async_entry ==> {
                &&& function.ret == Some("napi_ohos::bindgen_prelude::sys::napi_value"@)
                &&& function.is_ret_result
                &&& !function.is_async
                &&& function.leading_wrapper_args == 0
            }
            &&& !shape.manual_async_entry ==> {
                &&& function.ret == Some(
                    "napi_ohos_uniffi_engine::OhosCallResult<"@
                        + operation.return_binding.carrier() + ">"@,
                )
                &&& !function.is_ret_result
                &&& function.is_async == shape.asynchronous
                &&& function.leading_wrapper_args == (if shape.requires_host {
                    1int
                } else {
                    0
                }) + (if shape.callback_transfer {
                    2int
                } else {
                    0
                })
            }
        }),
{
}

// ---- What a wrapper prepares ----

/// How many arguments of a wrapper stand before the numbered ones.
pub open spec fn before_the_arguments(shape: OperationShape, operation: OhosOperationPlan) -> int {
    (if shape.requires_host {
        1int
    } else {
        0
    }) + (if shape.callback_transfer {
        2int
    } else {
        0
    }) + (match operation.receiver {
        Some(_) => 1int,
        None => 0,
    })
}

proof fn lemma_argument_goes_on(
    out: Seq<char>,
    family: OperationModel,
    operation: OhosOperationPlan,
    shape: OperationShape,
    argument: int,
)
    ensures
        text::goes_on(
            out,
            entry::emit_pre_argument(out, family, operation, shape, argument),
        ),
{
    let after = entry::emit_pre_argument(out, family, operation, shape, argument);
    match operation.arguments@[argument].binding {
        OhosArgumentBinding::CallbackProxy { build, .. } => {
            match entry::callback_site_from(family, argument, 0) {
                None => {},
                Some(index) => {
                    lemma_proxy(
                        out,
                        build@,
                        family.callbacks[index],
                        index,
                        entry::first_arg(shape, operation) + argument,
                    );
                },
            }
        },
        _ => {},
    }
    assert(after.take(out.len() as int) =~= out);
}

proof fn lemma_arguments_go_on(
    out: Seq<char>,
    family: OperationModel,
    operation: OhosOperationPlan,
    shape: OperationShape,
    from: int,
    upto: int,
)
    requires
        0 <= from <= upto,
    ensures
        text::goes_on(
            entry::emit_pre_arguments(out, family, operation, shape, from),
            entry::emit_pre_arguments(out, family, operation, shape, upto),
        ),
    decreases upto,
{
    let here = entry::emit_pre_arguments(out, family, operation, shape, from);
    let after = entry::emit_pre_arguments(out, family, operation, shape, upto);
    if from < upto {
        lemma_arguments_go_on(out, family, operation, shape, from, upto - 1);
        let earlier = entry::emit_pre_arguments(out, family, operation, shape, upto - 1);
        lemma_argument_goes_on(earlier, family, operation, shape, upto - 1);
        text::lemma_goes_on_further(here, earlier, after);
    } else {
        assert(after.take(here.len() as int) =~= here);
    }
}

/// A callback proxy as Rust code makes it: a retained callback takes its lease from
/// the list of its own use-site.
pub open spec fn proxy_text(
    build: Seq<char>,
    site: CallbackSiteModel,
    site_index: int,
    position: int,
) -> Seq<char> {
    (if site.contract.retention == CallbackRetention::Retained {
        "let __uniffi_callback_lease = __uniffi_callback_transfers.lease("@ + text::decimal(
            site_index,
        )
            + "usize, 0).map_err(|error| napi_ohos::Error::new(napi_ohos::Status::GenericFailure, error.to_string(), ))?;\n"@
    } else {
        Seq::empty()
    }) + ("let arg"@ + text::decimal(position) + " = "@ + build + "(&arg0, "@ + text::decimal(
        site.callback_type_id as int,
    ) + "u32, arg"@ + text::decimal(position) + ", "@ + wording::site_text(site)) + (
    if site.contract.retention == CallbackRetention::Retained {
        ", __uniffi_callback_invoker.clone(), __uniffi_callback_lease, )?;\n"@
    } else {
        ", __uniffi_callback_invoker.clone(), )?;\n"@
    })
}

proof fn lemma_proxy(
    out: Seq<char>,
    build: Seq<char>,
    site: CallbackSiteModel,
    site_index: int,
    position: int,
)
    ensures
        entry::emit_callback_proxy(out, build, site, site_index, position) == out + proxy_text(
            build,
            site,
            site_index,
            position,
        ),
{
    let retained = site.contract.retention == CallbackRetention::Retained;
    let lease = if retained {
        "let __uniffi_callback_lease = __uniffi_callback_transfers.lease("@ + text::decimal(
            site_index,
        )
            + "usize, 0).map_err(|error| napi_ohos::Error::new(napi_ohos::Status::GenericFailure, error.to_string(), ))?;\n"@
    } else {
        Seq::empty()
    };
    let leased = out + lease;
    assert(leased =~= if site.contract.retention is Retained {
        out + entry::TAKE_LEASE@ + text::decimal(site_index) + entry::LEASE_OR_FAIL@
    } else {
        out
    });
    let a = "let arg"@;
    let b = text::decimal(position);
    let c = " = "@;
    let d = "(&arg0, "@;
    let e = text::decimal(site.callback_type_id as int);
    let f = "u32, arg"@;
    let g = ", "@;
    let s = wording::site_text(site);
    wording::use_site_is_written_as_it_is(leased + a + b + c + build + d + e + f + b + g, site);
    laws::lemma_seven(leased, a, b, c, build, d, e, f);
    let seven = a + b + c + build + d + e + f;
    assert(leased + seven + b + g + s =~= leased + (seven + b + g + s));
    let end = if retained {
        ", __uniffi_callback_invoker.clone(), __uniffi_callback_lease, )?;\n"@
    } else {
        ", __uniffi_callback_invoker.clone(), )?;\n"@
    };
    let made = seven + b + g + s;
    assert(out + lease + made + end =~= out + (lease + made + end));
}

/// No use-site before `k` is this argument itself.
pub open spec fn unnamed_before(family: OperationModel, argument: int, k: int) -> bool {
    forall|i: int|
        0 <= i < k ==> !names_argument((#[trigger] family.callbacks[i]).path, argument)
}

/// The path is this argument itself.
pub open spec fn names_argument(path: PathModel, argument: int) -> bool {
    path.segments.len() == 1 && (path.segments[0] matches SegmentModel::Argument(index) && index
        == argument)
}

proof fn lemma_first_site(family: OperationModel, argument: int, from: int, k: int)
    requires
        0 <= from <= k <= family.callbacks.len(),
        unnamed_before(family, argument, k),
        k < family.callbacks.len() ==> names_argument(family.callbacks[k].path, argument),
    ensures
        entry::callback_site_from(family, argument, from) == if k < family.callbacks.len() {
            Some(k)
        } else {
            None
        },
    decreases k - from,
{
    if from < k {
        assert(!names_argument(family.callbacks[from].path, argument));
        lemma_first_site(family, argument, from + 1, k);
    }
}

/// The code before the call makes the proxy of each callback argument by its builder
/// and its first use-site, under the argument's own number.
pub proof fn callback_argument_becomes_a_proxy(
    family: OperationModel,
    operation: OhosOperationPlan,
    shape: OperationShape,
    argument: int,
    k: int,
)
    requires
        0 <= argument < operation.arguments@.len(),
        operation.arguments@[argument].binding is CallbackProxy,
        0 <= k < family.callbacks.len(),
        names_argument(family.callbacks[k].path, argument),
        unnamed_before(family, argument, k),
    ensures
        operation.arguments@[argument].binding matches OhosArgumentBinding::CallbackProxy {
            build,
            ..
        } && text::says(
            entry::pre_call_text(family, operation, shape),
            proxy_text(
                build@,
                family.callbacks[k],
                k,
                before_the_arguments(shape, operation) + argument,
            ),
        ),
{
    let head = entry::emit_pre_head(Seq::empty(), shape, operation);
    let before = entry::emit_pre_arguments(head, family, operation, shape, argument);
    let after = entry::emit_pre_arguments(head, family, operation, shape, argument + 1);
    let position = before_the_arguments(shape, operation) + argument;
    let whole = entry::pre_call_text(family, operation, shape);
    lemma_first_site(family, argument, 0, k);
    match operation.arguments@[argument].binding {
        OhosArgumentBinding::CallbackProxy { build, .. } => {
            lemma_proxy(before, build@, family.callbacks[k], k, position);
            lemma_arguments_go_on(
                head,
                family,
                operation,
                shape,
                argument + 1,
                operation.arguments@.len() as int,
            );
            assert(after == before + proxy_text(build@, family.callbacks[k], k, position));
            text::lemma_says(
                before,
                proxy_text(build@, family.callbacks[k], k, position),
                whole,
            );
        },
        _ => {},
    }
}

/// The code before the call makes the proxy of each input stream by its builder, and
/// lowers each argument that needs the host by its path, under the argument's own
/// number.
pub proof fn host_arguments_are_made_ready(
    family: OperationModel,
    operation: OhosOperationPlan,
    shape: OperationShape,
    argument: int,
)
    requires
        0 <= argument < operation.arguments@.len(),
    ensures
        ({
            let number = text::decimal(before_the_arguments(shape, operation) + argument);
            let whole = entry::pre_call_text(family, operation, shape);
            &&& operation.arguments@[argument].binding
                matches OhosArgumentBinding::InputStreamProxy { build, .. } ==> text::says(
                whole,
                "let arg"@ + number + " = "@ + build@ + "(&arg0, arg"@ + number + ")?;\n"@,
            )
            &&& operation.arguments@[argument].binding matches OhosArgumentBinding::LowerWithHost {
                lower,
                ..
            } ==> text::says(
                whole,
                "let arg"@ + number + " = "@ + lower@ + "(&arg0, arg"@ + number
                    + ", &__uniffi_callback_transfers, ).map_err(|error| napi_ohos::Error::new(napi_ohos::Status::GenericFailure, error.to_string(), ))?;\n"@,
            )
        }),
{
    let number = text::decimal(before_the_arguments(shape, operation) + argument);
    let head = entry::emit_pre_head(Seq::empty(), shape, operation);
    let before = entry::emit_pre_arguments(head, family, operation, shape, argument);
    let after = entry::emit_pre_arguments(head, family, operation, shape, argument + 1);
    let whole = entry::pre_call_text(family, operation, shape);
    lemma_arguments_go_on(
        head,
        family,
        operation,
        shape,
        argument + 1,
        operation.arguments@.len() as int,
    );
    let a = "let arg"@;
    let c = " = "@;
    let d = "(&arg0, arg"@;
    match operation.arguments@[argument].binding {
        OhosArgumentBinding::InputStreamProxy { build, .. } => {
            let end = ")?;\n"@;
            laws::lemma_five(before, a, number, c, build@, d);
            let five = a + number + c + build@ + d;
            assert(before + five + number + end =~= before + (five + number + end));
            text::lemma_says(before, five + number + end, whole);
        },
        OhosArgumentBinding::LowerWithHost { lower, .. } => {
            let end =
                ", &__uniffi_callback_transfers, ).map_err(|error| napi_ohos::Error::new(napi_ohos::Status::GenericFailure, error.to_string(), ))?;\n"@;
            laws::lemma_five(before, a, number, c, lower@, d);
            let five = a + number + c + lower@ + d;
            assert(before + five + number + end =~= before + (five + number + end));
            text::lemma_says(before, five + number + end, whole);
        },
        _ => {},
    }
}

/// The code before the call first takes over the transfer, by the numbers of the two
/// arguments that name it, behind the host where that is taken. Without a transfer it
/// starts with an empty one where some argument is lowered with the host, and with
/// nothing elsewhere.
pub proof fn transfer_is_taken_over_first(
    family: OperationModel,
    operation: OhosOperationPlan,
    shape: OperationShape,
)
    ensures
        ({
            let whole = entry::pre_call_text(family, operation, shape);
            &&& shape.callback_transfer && shape.requires_host ==> text::goes_on(
                "let __uniffi_callback_transfers = napi_ohos_uniffi_engine::take_session_callback_transfers(arg"@
                    + text::decimal(1) + ", arg"@ + text::decimal(2)
                    + ", )?;\nlet __uniffi_callback_invoker = __uniffi_callback_transfers.invoker().map_err(|error| napi_ohos::Error::new(napi_ohos::Status::GenericFailure, error.to_string(), ))?;\n"@,
                whole,
            )
            &&& shape.callback_transfer && !shape.requires_host ==> text::goes_on(
                "let __uniffi_callback_transfers = napi_ohos_uniffi_engine::take_session_callback_transfers(arg"@
                    + text::decimal(0) + ", arg"@ + text::decimal(1)
                    + ", )?;\nlet __uniffi_callback_invoker = __uniffi_callback_transfers.invoker().map_err(|error| napi_ohos::Error::new(napi_ohos::Status::GenericFailure, error.to_string(), ))?;\n"@,
                whole,
            )
            &&& !shape.callback_transfer && (exists|i: int|
                #![trigger operation.arguments@[i]]
                0 <= i < operation.arguments@.len() && operation.arguments@[i].binding is
                    LowerWithHost) ==> text::goes_on(
                "let __uniffi_callback_transfers = napi_ohos_uniffi_engine::SessionCallbackTransfers::empty();\n"@,
                whole,
            )
        }),
{
    let head = entry::emit_pre_head(Seq::empty(), shape, operation);
    lemma_arguments_go_on(
        head,
        family,
        operation,
        shape,
        0,
        operation.arguments@.len() as int,
    );
    let take =
        "let __uniffi_callback_transfers = napi_ohos_uniffi_engine::take_session_callback_transfers(arg"@;
    assert(Seq::empty() + take =~= take);
    let none =
        "let __uniffi_callback_transfers = napi_ohos_uniffi_engine::SessionCallbackTransfers::empty();\n"@;
    assert(Seq::empty() + none =~= none);
}

/// Nothing is prepared where no argument needs the host and no transfer comes along.
pub proof fn plain_arguments_need_no_preparation(
    family: OperationModel,
    operation: OhosOperationPlan,
    shape: OperationShape,
)
    requires
        !shape.callback_transfer,
        forall|i: int|
            0 <= i < operation.arguments@.len() ==> !made_with_the_host(
                (#[trigger] operation.arguments@[i]).binding,
            ),
    ensures
        entry::pre_call_text(family, operation, shape) == Seq::<char>::empty(),
{
    lemma_nothing_prepared(family, operation, shape, operation.arguments@.len() as int);
}

proof fn lemma_nothing_prepared(
    family: OperationModel,
    operation: OhosOperationPlan,
    shape: OperationShape,
    upto: int,
)
    requires
        0 <= upto <= operation.arguments@.len(),
        forall|i: int|
            0 <= i < operation.arguments@.len() ==> !made_with_the_host(
                (#[trigger] operation.arguments@[i]).binding,
            ),
    ensures
        entry::emit_pre_arguments(Seq::empty(), family, operation, shape, upto) == Seq::<
            char,
        >::empty(),
    decreases upto,
{
    if upto > 0 {
        lemma_nothing_prepared(family, operation, shape, upto - 1);
        assert(!made_with_the_host(operation.arguments@[upto - 1].binding));
    }
}

} // verus!
