//! What generated bodies and wrappers say, binding by binding.

use crate::codegen::body;
use crate::codegen::entry;
use crate::codegen::entry::OperationShape;
use crate::plan::{
    OhosArgumentBinding, OhosErrorBinding, OhosOperationPlan, OhosReturnBinding,
};
use crate::text;
use vstd::prelude::*;

verus! {

// ---- The body goes on from part to part ----

proof fn lemma_parameters_go_on(out: Seq<char>, operation: OhosOperationPlan, upto: int)
    ensures
        text::goes_on(out, body::emit_parameters(out, operation, upto)),
    decreases upto,
{
    let after = body::emit_parameters(out, operation, upto);
    if upto <= 0 {
        assert(after.take(out.len() as int) =~= out);
    } else {
        lemma_parameters_go_on(out, operation, upto - 1);
        let earlier = body::emit_parameters(out, operation, upto - 1);
        assert(after.take(earlier.len() as int) =~= earlier);
        text::lemma_goes_on_further(out, earlier, after);
    }
}

proof fn lemma_lowering_goes_on(
    out: Seq<char>,
    name: Seq<char>,
    binding: OhosArgumentBinding,
    receiver: bool,
    manual: bool,
    carrier: Seq<char>,
)
    ensures
        text::goes_on(out, entry::emit_lowering(out, name, binding, receiver, manual, carrier)),
{
    let after = entry::emit_lowering(out, name, binding, receiver, manual, carrier);
    assert(after.take(out.len() as int) =~= out);
}

/// The lowerings go on one by one.
proof fn lemma_lowerings_go_on(
    out: Seq<char>,
    operation: OhosOperationPlan,
    manual: bool,
    from: int,
    upto: int,
)
    requires
        0 <= from <= upto,
    ensures
        text::goes_on(
            entry::emit_lowerings(out, operation, manual, from),
            entry::emit_lowerings(out, operation, manual, upto),
        ),
        text::goes_on(out, entry::emit_lowerings(out, operation, manual, from)),
    decreases upto,
{
    let here = entry::emit_lowerings(out, operation, manual, from);
    let after = entry::emit_lowerings(out, operation, manual, upto);
    if upto == 0 {
        if let Some(receiver) = operation.receiver {
            lemma_lowering_goes_on(
                out,
                receiver.name@,
                receiver.binding,
                true,
                manual,
                operation.return_binding.carrier(),
            );
        } else {
            assert(here.take(out.len() as int) =~= out);
        }
        assert(after.take(here.len() as int) =~= here);
    } else {
        let earlier = entry::emit_lowerings(out, operation, manual, upto - 1);
        lemma_lowering_goes_on(
            earlier,
            operation.arguments@[upto - 1].name@,
            operation.arguments@[upto - 1].binding,
            false,
            manual,
            operation.return_binding.carrier(),
        );
        if from < upto {
            lemma_lowerings_go_on(out, operation, manual, from, upto - 1);
            text::lemma_goes_on_further(here, earlier, after);
        } else {
            lemma_lowerings_go_on(out, operation, manual, upto - 1, upto - 1);
            text::lemma_goes_on_further(out, earlier, after);
            assert(after.take(here.len() as int) =~= here);
        }
    }
}

proof fn lemma_names_go_on(out: Seq<char>, operation: OhosOperationPlan, upto: int)
    ensures
        text::goes_on(out, body::emit_names(out, operation, upto)),
    decreases upto,
{
    let after = body::emit_names(out, operation, upto);
    if upto <= 0 {
        assert(after.take(out.len() as int) =~= out);
    } else {
        lemma_names_go_on(out, operation, upto - 1);
        let earlier = body::emit_names(out, operation, upto - 1);
        assert(after.take(earlier.len() as int) =~= earlier);
        text::lemma_goes_on_further(out, earlier, after);
    }
}

proof fn lemma_value_goes_on(
    out: Seq<char>,
    call: Seq<char>,
    operation: OhosOperationPlan,
    shape: OperationShape,
)
    ensures
        text::goes_on(out, body::emit_value(out, call, operation, shape)),
{
    let count = operation.arguments@.len() as int;
    let opened = match operation.error_binding {
        OhosErrorBinding::Infallible => out + "let __uniffi_value = "@,
        OhosErrorBinding::Descriptor { .. } => out + "let __uniffi_value = match "@,
    };
    let named = opened + call + "("@;
    lemma_names_go_on(named, operation, count);
    let listed = body::emit_names(named, operation, count);
    let after = body::emit_value(out, call, operation, shape);
    assert(after.take(listed.len() as int) =~= listed);
    text::lemma_goes_on_further(named, listed, after);
    assert(named.take(out.len() as int) =~= out);
    text::lemma_goes_on_further(out, named, after);
}

/// What stands in a body before its parameters, before its lowerings, before its
/// call and before the value that it gives.
pub struct BodyParts {
    pub parameters: Seq<char>,
    pub lowerings: Seq<char>,
    pub call: Seq<char>,
    pub value: Seq<char>,
}

pub open spec fn parts(
    call: Seq<char>,
    operation: OhosOperationPlan,
    shape: OperationShape,
) -> BodyParts {
    let count = operation.arguments@.len() as int;
    let raw = "__uniffi_raw_operation_"@ + text::decimal(operation.operation_id as int) + "("@;
    let attributes = "#[doc(hidden)]\n#[allow(clippy::all)]\n"@;
    let none = "let __uniffi_callback_transfers = napi_ohos_uniffi_engine::SessionCallbackTransfers::empty();\n"@;
    let carrier = operation.return_binding.carrier();
    if shape.manual_async_entry {
        let head = attributes + "fn "@ + raw;
        let hosted = if shape.requires_host {
            head + "__uniffi_host: napi_ohos::bindgen_prelude::Object<'static>"@ + ", "@
        } else {
            head
        };
        let with_env = hosted + "__uniffi_env: &napi_ohos::Env"@ + ", "@;
        let parameters = if shape.callback_transfer {
            with_env + "__uniffi_session_generation: u32, __uniffi_callback_transfer: u32, "@
        } else {
            with_env
        };
        let lowerings = body::emit_parameters(parameters, operation, count)
            + ") -> napi_ohos::Result<napi_ohos::bindgen_prelude::sys::napi_value> {\n"@ + none;
        let opened = entry::emit_lowerings(lowerings, operation, true, count)
            + "let __uniffi_future = async move {\n"@;
        BodyParts {
            parameters,
            lowerings,
            call: opened,
            value: body::emit_value(opened, call, operation, shape)
                + "Ok::<napi_ohos_uniffi_engine::OhosCallResult<"@ + carrier
                + ">, napi_ohos::Error>(napi_ohos_uniffi_engine::OhosCallResult::Value("@,
        }
    } else {
        let head = if shape.asynchronous {
            attributes + "async fn "@
        } else {
            attributes + "fn "@
        };
        let parameters = head + "__uniffi_raw_operation_"@ + text::decimal(
            operation.operation_id as int,
        ) + "("@;
        let lowerings = body::emit_parameters(parameters, operation, count)
            + ") -> napi_ohos_uniffi_engine::OhosCallResult<"@ + carrier + "> {\n"@ + none;
        let opened = entry::emit_lowerings(lowerings, operation, false, count);
        BodyParts {
            parameters,
            lowerings,
            call: opened,
            value: body::emit_value(opened, call, operation, shape)
                + "napi_ohos_uniffi_engine::OhosCallResult::Value("@,
        }
    }
}

/// A body takes its parameters, lowers them, makes its call and then gives its
/// value, in that order.
pub proof fn body_goes_through_its_parts(
    call: Seq<char>,
    operation: OhosOperationPlan,
    shape: OperationShape,
)
    ensures
        ({
            let whole = body::body_text(call, operation, shape);
            let count = operation.arguments@.len() as int;
            let stand = parts(call, operation, shape);
            &&& text::goes_on(body::emit_parameters(stand.parameters, operation, count), whole)
            &&& text::goes_on(
                entry::emit_lowerings(
                    stand.lowerings,
                    operation,
                    shape.manual_async_entry,
                    count,
                ),
                whole,
            )
            &&& text::goes_on(body::emit_value(stand.call, call, operation, shape), whole)
            &&& text::goes_on(stand.value, whole)
        }),
{
    let whole = body::body_text(call, operation, shape);
    let count = operation.arguments@.len() as int;
    let stand = parts(call, operation, shape);
    let manual = shape.manual_async_entry;
    assert("#[doc(hidden)]\n#[allow(clippy::all)]\n"@ + "fn "@ + ("__uniffi_raw_operation_"@
        + text::decimal(operation.operation_id as int) + "("@) =~= body::ATTRIBUTES@ + "fn "@
        + entry::raw_name(operation.operation_id) + "("@);
    assert(stand.parameters =~= if manual {
        let head = body::ATTRIBUTES@ + "fn "@ + entry::raw_name(operation.operation_id) + "("@;
        let with_host = if shape.requires_host {
            head + body::HOST_PARAMETER@ + ", "@
        } else {
            head
        };
        let with_env = with_host + body::ENV_PARAMETER@ + ", "@;
        if shape.callback_transfer {
            with_env + body::TRANSFER_PARAMETERS@
        } else {
            with_env
        }
    } else {
        (if shape.asynchronous {
            body::ATTRIBUTES@ + "async fn "@
        } else {
            body::ATTRIBUTES@ + "fn "@
        }) + entry::raw_name(operation.operation_id) + "("@
    });
    let lifted = body::emit_lift(stand.value, operation.return_binding, manual);
    assert(lifted.take(stand.value.len() as int) =~= stand.value);
    assert(text::goes_on(lifted, whole)) by {
        assert(whole.take(lifted.len() as int) =~= lifted);
    }
    text::lemma_goes_on_further(stand.value, lifted, whole);
    let valued = body::emit_value(stand.call, call, operation, shape);
    assert(stand.value.take(valued.len() as int) =~= valued);
    text::lemma_goes_on_further(valued, stand.value, whole);
    lemma_value_goes_on(stand.call, call, operation, shape);
    text::lemma_goes_on_further(stand.call, valued, whole);
    let lowered = entry::emit_lowerings(stand.lowerings, operation, manual, count);
    assert(stand.call.take(lowered.len() as int) =~= lowered);
    text::lemma_goes_on_further(lowered, stand.call, whole);
    lemma_lowerings_go_on(stand.lowerings, operation, manual, count, count);
    text::lemma_goes_on_further(stand.lowerings, lowered, whole);
    let taken = body::emit_parameters(stand.parameters, operation, count);
    assert(stand.lowerings.take(taken.len() as int) =~= taken);
    text::lemma_goes_on_further(taken, stand.lowerings, whole);
}

// ---- The result ----

/// The text that gives the value of the call to the script.
pub open spec fn given_value(binding: OhosReturnBinding, manual: bool) -> Seq<char> {
    let lift = match binding {
        OhosReturnBinding::LiftWith { lift, .. } => Some(lift@),
        OhosReturnBinding::ObjectLease { lift, .. } => Some(lift@),
        OhosReturnBinding::CallbackLease { lift, .. } => Some(lift@),
        OhosReturnBinding::OutputStreamLease { lift, .. } => Some(lift@),
        _ => None,
    };
    match lift {
        Some(path) => "{ match "@ + path
            + "(__uniffi_value) { Ok(value) => value, Err(error) => return "@ + (if manual {
            "Ok("@ + "napi_ohos_uniffi_engine::OhosCallResult::Error("@ + "error)), } }"@
        } else {
            "napi_ohos_uniffi_engine::OhosCallResult::Error("@ + "error), } }"@
        }),
        None => if binding == OhosReturnBinding::I64BigInt || binding
            == OhosReturnBinding::U64BigInt {
            "{ let parts = napi_ohos_uniffi_engine::napi_family_core::BigIntWords::from(__uniffi_value); napi_ohos::bindgen_prelude::BigInt { sign_bit: parts.negative, words: parts.words, } }"@
        } else {
            "__uniffi_value"@
        },
    }
}

/// The path that a binding lifts with.
pub open spec fn lift_path(binding: OhosReturnBinding) -> Option<Seq<char>> {
    match binding {
        OhosReturnBinding::LiftWith { lift, .. } => Some(lift@),
        OhosReturnBinding::ObjectLease { lift, .. } => Some(lift@),
        OhosReturnBinding::CallbackLease { lift, .. } => Some(lift@),
        OhosReturnBinding::OutputStreamLease { lift, .. } => Some(lift@),
        OhosReturnBinding::Unit => None,
        OhosReturnBinding::Direct { .. } => None,
        OhosReturnBinding::I64BigInt => None,
        OhosReturnBinding::U64BigInt => None,
    }
}

/// What ends a body.
pub open spec fn body_end(manual: bool) -> Seq<char> {
    if manual {
        "))\n};\nlet __uniffi_promise = __uniffi_env.spawn_future(__uniffi_future)?;\nOk(napi_ohos::bindgen_prelude::JsValue::raw(&__uniffi_promise))\n}\n"@
    } else {
        ")\n}\n"@
    }
}

/// The value of a call is lifted by the path of its binding, whichever kind of
/// lease or value that is; integers that exceed a number are taken apart, and only
/// the unit and direct values are passed on as they are. A lift that fails ends
/// the call with its error.
pub proof fn result_is_lifted_by_its_path(
    call: Seq<char>,
    operation: OhosOperationPlan,
    shape: OperationShape,
)
    ensures
        body::body_text(call, operation, shape) == parts(call, operation, shape).value
            + given_value(operation.return_binding, shape.manual_async_entry) + body_end(
            shape.manual_async_entry,
        ),
        lift_path(operation.return_binding) matches Some(path) ==> text::says(
            body::body_text(call, operation, shape),
            path + "(__uniffi_value)"@,
        ),
{
    let before = parts(call, operation, shape).value;
    lemma_value_part(call, operation, shape);
    lemma_lift_given(
        before,
        operation.return_binding,
        shape.manual_async_entry,
        body_end(shape.manual_async_entry),
    );
}

proof fn lemma_lift_given(
    before: Seq<char>,
    binding: OhosReturnBinding,
    manual: bool,
    end: Seq<char>,
)
    ensures
        body::emit_lift(before, binding, manual) == before + given_value(binding, manual),
        lift_path(binding) matches Some(path) ==> text::says(
            body::emit_lift(before, binding, manual) + end,
            path + "(__uniffi_value)"@,
        ),
{
    let given = given_value(binding, manual);
    assert(body::emit_lift(before, binding, manual) =~= before + given);
    if let Some(path) = lift_path(binding) {
        lemma_lift_call();
        let whole = body::emit_lift(before, binding, manual) + end;
        let head = before + "{ match "@;
        let piece = path + "(__uniffi_value)"@;
        let tried = "(__uniffi_value) { Ok(value) => value, Err(error) => return "@;
        assert(whole.take((head + path + tried).len() as int) =~= head + path + tried);
        assert((head + path + tried).take((head + piece).len() as int) =~= head + piece) by {
            assert(tried.take(16) =~= "(__uniffi_value)"@);
            assert forall|i: int| 0 <= i < 16 implies tried[i] == #[trigger] "(__uniffi_value)"@[i] by {
                assert(tried.take(16)[i] == tried[i]);
            }
        }
        text::lemma_goes_on_further(head + piece, head + path + tried, whole);
        text::lemma_says(head, piece, whole);
    }
}

proof fn lemma_lift_call()
    ensures
        "(__uniffi_value) { Ok(value) => value, Err(error) => return "@.take(16)
            == "(__uniffi_value)"@,
        "(__uniffi_value)"@.len() == 16,
        "(__uniffi_value) { Ok(value) => value, Err(error) => return "@.len() > 16,
{
    reveal_strlit("(__uniffi_value) { Ok(value) => value, Err(error) => return ");
    reveal_strlit("(__uniffi_value)");
    assert("(__uniffi_value) { Ok(value) => value, Err(error) => return "@.take(16)
        =~= "(__uniffi_value)"@);
}

/// The text before the value is the one that the body has there.
proof fn lemma_value_part(call: Seq<char>, operation: OhosOperationPlan, shape: OperationShape)
    ensures
        body::body_text(call, operation, shape) == body::emit_lift(
            parts(call, operation, shape).value,
            operation.return_binding,
            shape.manual_async_entry,
        ) + body_end(shape.manual_async_entry),
{
    assert("#[doc(hidden)]\n#[allow(clippy::all)]\n"@ + "fn "@ + ("__uniffi_raw_operation_"@
        + text::decimal(operation.operation_id as int) + "("@) =~= body::ATTRIBUTES@ + "fn "@
        + entry::raw_name(operation.operation_id) + "("@);
    let head = if shape.asynchronous {
        body::ATTRIBUTES@ + "async fn "@
    } else {
        body::ATTRIBUTES@ + "fn "@
    };
    assert(head + entry::raw_name(operation.operation_id) + "("@ =~= head
        + "__uniffi_raw_operation_"@ + text::decimal(operation.operation_id as int) + "("@);
}

/// What a text says between two others is all that tells two such texts apart.
proof fn lemma_middle(before: Seq<char>, a: Seq<char>, b: Seq<char>, after: Seq<char>)
    requires
        before + a + after == before + b + after,
    ensures
        a == b,
{
    let whole = before + a + after;
    assert(whole.len() == (before + b + after).len());
    assert(whole.subrange(before.len() as int, (before.len() + a.len()) as int) =~= a);
    assert((before + b + after).subrange(before.len() as int, (before.len() + b.len()) as int) =~= b);
}

/// Two plans differ in nothing but their result binding, and not in its carrier.
pub open spec fn alike_but_for_the_result(a: OhosOperationPlan, b: OhosOperationPlan) -> bool {
    &&& a.operation_id == b.operation_id
    &&& a.receiver == b.receiver
    &&& a.arguments == b.arguments
    &&& a.error_binding == b.error_binding
    &&& a.return_binding.carrier() == b.return_binding.carrier()
}

proof fn lemma_alike(
    out: Seq<char>,
    a: OhosOperationPlan,
    b: OhosOperationPlan,
    manual: bool,
    upto: int,
)
    requires
        alike_but_for_the_result(a, b),
    ensures
        body::emit_parameters(out, a, upto) == body::emit_parameters(out, b, upto),
        body::emit_names(out, a, upto) == body::emit_names(out, b, upto),
        entry::emit_lowerings(out, a, manual, upto) == entry::emit_lowerings(out, b, manual, upto),
    decreases upto,
{
    if upto > 0 {
        lemma_alike(out, a, b, manual, upto - 1);
    }
}

proof fn lemma_parts_alike(
    call: Seq<char>,
    a: OhosOperationPlan,
    b: OhosOperationPlan,
    shape: OperationShape,
)
    requires
        alike_but_for_the_result(a, b),
    ensures
        parts(call, a, shape).value == parts(call, b, shape).value,
{
    let count = a.arguments@.len() as int;
    let manual = shape.manual_async_entry;
    let (first, second) = (parts(call, a, shape), parts(call, b, shape));
    lemma_alike(first.parameters, a, b, manual, count);
    lemma_alike(first.lowerings, a, b, manual, count);
    let opened = match a.error_binding {
        OhosErrorBinding::Infallible => first.call + "let __uniffi_value = "@,
        OhosErrorBinding::Descriptor { .. } => first.call + "let __uniffi_value = match "@,
    };
    lemma_alike(opened + call + "("@, a, b, manual, count);
    assert(body::emit_value(first.call, call, a, shape) == body::emit_value(
        second.call,
        call,
        b,
        shape,
    ));
}

/// Two results that are lifted by different paths give different bodies.
pub proof fn different_lifts_give_different_bodies(
    call: Seq<char>,
    a: OhosOperationPlan,
    b: OhosOperationPlan,
    shape: OperationShape,
)
    requires
        alike_but_for_the_result(a, b),
        lift_path(a.return_binding) is Some,
        lift_path(b.return_binding) is Some,
        lift_path(a.return_binding) != lift_path(b.return_binding),
    ensures
        body::body_text(call, a, shape) != body::body_text(call, b, shape),
{
    if body::body_text(call, a, shape) == body::body_text(call, b, shape) {
        let manual = shape.manual_async_entry;
        result_is_lifted_by_its_path(call, a, shape);
        result_is_lifted_by_its_path(call, b, shape);
        lemma_parts_alike(call, a, b, shape);
        let before = parts(call, a, shape).value;
        lemma_middle(
            before,
            given_value(a.return_binding, manual),
            given_value(b.return_binding, manual),
            body_end(manual),
        );
        let tail = "(__uniffi_value) { Ok(value) => value, Err(error) => return "@ + (if manual {
            "Ok("@ + "napi_ohos_uniffi_engine::OhosCallResult::Error("@ + "error)), } }"@
        } else {
            "napi_ohos_uniffi_engine::OhosCallResult::Error("@ + "error), } }"@
        });
        let (x, y) = (lift_path(a.return_binding)->0, lift_path(b.return_binding)->0);
        assert(given_value(a.return_binding, manual) =~= "{ match "@ + x + tail);
        assert(given_value(b.return_binding, manual) =~= "{ match "@ + y + tail);
        lemma_middle("{ match "@, x, y, tail);
    }
}

// ---- Types ----

/// The type in which a value arrives, binding by binding.
pub proof fn arguments_arrive_in_their_carriers(binding: OhosArgumentBinding)
    ensures
        match binding {
            OhosArgumentBinding::Direct { carrier_type } => binding.carrier() == carrier_type@
                && binding.parameter() == carrier_type@,
            OhosArgumentBinding::I64BigInt => binding.carrier()
                == "napi_ohos::bindgen_prelude::BigInt"@ && binding.parameter()
                == "napi_ohos::bindgen_prelude::BigInt"@,
            OhosArgumentBinding::U64BigInt => binding.carrier()
                == "napi_ohos::bindgen_prelude::BigInt"@ && binding.parameter()
                == "napi_ohos::bindgen_prelude::BigInt"@,
            OhosArgumentBinding::LowerWith { carrier_type, .. } => binding.carrier()
                == carrier_type@ && binding.parameter() == carrier_type@,
            OhosArgumentBinding::LowerWithHost { carrier_type, .. } => binding.carrier()
                == carrier_type@ && binding.parameter() == carrier_type@,
            OhosArgumentBinding::ObjectLease { carrier_type, .. } => binding.carrier()
                == carrier_type@ && binding.parameter() == carrier_type@,
            OhosArgumentBinding::OutputStreamLease { carrier_type, .. } => binding.carrier()
                == carrier_type@ && binding.parameter() == carrier_type@,
            OhosArgumentBinding::CallbackProxy { rust_type, .. } => binding.carrier() == "u32"@
                && binding.parameter() == "std::sync::Arc<dyn "@ + rust_type@ + ">"@,
            OhosArgumentBinding::InputStreamProxy { rust_type, .. } => binding.carrier() == "u32"@
                && binding.parameter() == rust_type@,
        },
{
}

/// The type in which a value leaves, binding by binding.
pub proof fn results_leave_in_their_carriers(binding: OhosReturnBinding)
    ensures
        match binding {
            OhosReturnBinding::Unit => binding.carrier() == "()"@,
            OhosReturnBinding::Direct { carrier_type } => binding.carrier() == carrier_type@,
            OhosReturnBinding::I64BigInt => binding.carrier()
                == "napi_ohos::bindgen_prelude::BigInt"@,
            OhosReturnBinding::U64BigInt => binding.carrier()
                == "napi_ohos::bindgen_prelude::BigInt"@,
            OhosReturnBinding::LiftWith { carrier_type, .. } => binding.carrier() == carrier_type@,
            OhosReturnBinding::ObjectLease { carrier_type, .. } => binding.carrier()
                == carrier_type@,
            OhosReturnBinding::CallbackLease { carrier_type, .. } => binding.carrier()
                == carrier_type@,
            OhosReturnBinding::OutputStreamLease { carrier_type, .. } => binding.carrier()
                == carrier_type@,
        },
{
}

// ---- Parameters and the call ----

/// Texts with commas between them.
pub open spec fn comma_list(texts: Seq<Seq<char>>) -> Seq<char>
    decreases texts.len(),
{
    if texts.len() == 0 {
        Seq::empty()
    } else if texts.len() == 1 {
        texts[0]
    } else {
        comma_list(texts.drop_last()) + ", "@ + texts.last()
    }
}

/// The names of the receiver and of the first `upto` arguments.
pub open spec fn names(operation: OhosOperationPlan, upto: int) -> Seq<Seq<char>> {
    (match operation.receiver {
        Some(receiver) => seq![receiver.name@],
        None => Seq::empty(),
    }) + Seq::new(upto as nat, |i: int| operation.arguments@[i].name@)
}

proof fn lemma_names_listed(out: Seq<char>, operation: OhosOperationPlan, upto: int)
    requires
        0 <= upto,
    ensures
        body::emit_names(out, operation, upto) == out + comma_list(names(operation, upto)),
    decreases upto,
{
    let listed = names(operation, upto);
    if upto == 0 {
        match operation.receiver {
            Some(receiver) => {
                assert(listed =~= seq![receiver.name@]);
            },
            None => {
                assert(listed =~= Seq::empty());
                assert(out + Seq::empty() =~= out);
            },
        }
    } else {
        lemma_names_listed(out, operation, upto - 1);
        let earlier = names(operation, upto - 1);
        assert(listed.drop_last() =~= earlier);
        assert(listed.last() == operation.arguments@[upto - 1].name@);
        if listed.len() == 1 {
            assert(operation.receiver is None && upto == 1);
            assert(earlier =~= Seq::empty());
            assert(out + Seq::empty() =~= out);
        } else {
            assert(out + (comma_list(earlier) + ", "@ + listed.last()) =~= out + comma_list(earlier)
                + ", "@ + listed.last());
        }
    }
}

/// The call of the Rust function: on the receiver and all arguments, each once and
/// in order, and awaited where the operation is asynchronous.
pub open spec fn whole_call(
    call: Seq<char>,
    operation: OhosOperationPlan,
    asynchronous: bool,
) -> Seq<char> {
    call + "("@ + comma_list(names(operation, operation.arguments@.len() as int)) + ")"@ + (
    if asynchronous {
        ".await"@
    } else {
        Seq::empty()
    })
}

/// A body makes its call, and gives back the mapped error where that can fail.
pub proof fn body_makes_its_call(
    call: Seq<char>,
    operation: OhosOperationPlan,
    shape: OperationShape,
)
    ensures
        text::says(
            body::body_text(call, operation, shape),
            match operation.error_binding {
                OhosErrorBinding::Infallible => "let __uniffi_value = "@ + whole_call(
                    call,
                    operation,
                    shape.asynchronous,
                ) + ";\n"@,
                OhosErrorBinding::Descriptor { map } => "let __uniffi_value = match "@ + whole_call(
                    call,
                    operation,
                    shape.asynchronous,
                ) + " { Ok(value) => value, Err(error) => return "@ + (
                if shape.manual_async_entry {
                    "Ok("@ + "napi_ohos_uniffi_engine::OhosCallResult::Error("@ + map@
                        + "(error))), };\n"@
                } else {
                    "napi_ohos_uniffi_engine::OhosCallResult::Error("@ + map@ + "(error)), };\n"@
                }),
            },
        ),
{
    let out = parts(call, operation, shape).call;
    body_goes_through_its_parts(call, operation, shape);
    lemma_call_made(out, call, operation, shape);
    let valued = body::emit_value(out, call, operation, shape);
    let piece = called(call, operation, shape);
    assert(valued.take((out + piece).len() as int) =~= out + piece);
    text::lemma_goes_on_further(out + piece, valued, body::body_text(call, operation, shape));
    text::lemma_says(out, piece, body::body_text(call, operation, shape));
}

spec fn called(call: Seq<char>, operation: OhosOperationPlan, shape: OperationShape) -> Seq<char> {
    match operation.error_binding {
        OhosErrorBinding::Infallible => "let __uniffi_value = "@ + whole_call(
            call,
            operation,
            shape.asynchronous,
        ) + ";\n"@,
        OhosErrorBinding::Descriptor { map } => "let __uniffi_value = match "@ + whole_call(
            call,
            operation,
            shape.asynchronous,
        ) + " { Ok(value) => value, Err(error) => return "@ + (if shape.manual_async_entry {
            "Ok("@ + "napi_ohos_uniffi_engine::OhosCallResult::Error("@ + map@ + "(error))), };\n"@
        } else {
            "napi_ohos_uniffi_engine::OhosCallResult::Error("@ + map@ + "(error)), };\n"@
        }),
    }
}

proof fn lemma_call_made(
    out: Seq<char>,
    call: Seq<char>,
    operation: OhosOperationPlan,
    shape: OperationShape,
)
    ensures
        body::emit_value(out, call, operation, shape) == out + called(call, operation, shape),
{
    let count = operation.arguments@.len() as int;
    let opened = match operation.error_binding {
        OhosErrorBinding::Infallible => "let __uniffi_value = "@,
        OhosErrorBinding::Descriptor { .. } => "let __uniffi_value = match "@,
    };
    lemma_names_listed(out + opened + call + "("@, operation, count);
    let whole = whole_call(call, operation, shape.asynchronous);
    assert(body::emit_invoke(out + opened, call, operation, shape.asynchronous) =~= out + opened
        + whole);
    assert(body::emit_value(out, call, operation, shape) =~= out + called(call, operation, shape));
}

/// A body takes each argument under its name and in its type, and the receiver
/// before them.
pub proof fn body_takes_its_parameters(
    call: Seq<char>,
    operation: OhosOperationPlan,
    shape: OperationShape,
    i: int,
)
    ensures
        0 <= i < operation.arguments@.len() ==> text::says(
            body::body_text(call, operation, shape),
            operation.arguments@[i].name@ + ": "@ + operation.arguments@[i].binding.parameter(),
        ),
        operation.receiver matches Some(receiver) ==> text::goes_on(
            parts(call, operation, shape).parameters + receiver.name@ + ": "@
                + receiver.binding.parameter() + ", "@,
            body::body_text(call, operation, shape),
        ),
{
    let count = operation.arguments@.len() as int;
    let out = parts(call, operation, shape).parameters;
    let whole = body::body_text(call, operation, shape);
    body_goes_through_its_parts(call, operation, shape);
    let taken = body::emit_parameters(out, operation, count);
    if 0 <= i < count {
        lemma_parameters_reach(out, operation, i + 1, count);
        let here = body::emit_parameters(out, operation, i + 1);
        let before = text::separated(body::emit_parameters(out, operation, i), i == 0);
        let piece = operation.arguments@[i].name@ + ": "@
            + operation.arguments@[i].binding.parameter();
        assert(here =~= before + piece);
        assert(here.take((before + piece).len() as int) =~= before + piece);
        text::lemma_goes_on_further(here, taken, whole);
        text::lemma_says(before, piece, whole);
    }
    if let Some(receiver) = operation.receiver {
        lemma_parameters_reach(out, operation, 0, count);
        text::lemma_goes_on_further(body::emit_parameters(out, operation, 0), taken, whole);
    }
}

proof fn lemma_parameters_reach(
    out: Seq<char>,
    operation: OhosOperationPlan,
    from: int,
    upto: int,
)
    requires
        0 <= from <= upto,
    ensures
        text::goes_on(
            body::emit_parameters(out, operation, from),
            body::emit_parameters(out, operation, upto),
        ),
    decreases upto,
{
    let here = body::emit_parameters(out, operation, from);
    let after = body::emit_parameters(out, operation, upto);
    if from < upto {
        lemma_parameters_reach(out, operation, from, upto - 1);
        let earlier = body::emit_parameters(out, operation, upto - 1);
        assert(after.take(earlier.len() as int) =~= earlier);
        text::lemma_goes_on_further(here, earlier, after);
    } else {
        assert(after.take(here.len() as int) =~= here);
    }
}

// ---- Lowering ----

/// Code that ends the call with an error of the lowering.
pub open spec fn lowering_fails(error: Seq<char>, manual: bool, carrier: Seq<char>) -> Seq<char> {
    " { Ok(value) => value, Err(error) => "@ + (if manual {
        "{ let __uniffi_error_promise = napi_ohos::bindgen_prelude::PromiseRaw::<napi_ohos_uniffi_engine::OhosCallResult<"@
            + carrier
            + ">>::resolve(__uniffi_env, napi_ohos_uniffi_engine::OhosCallResult::Error("@ + error
            + "), )?; return Ok(napi_ohos::bindgen_prelude::JsValue::raw(&__uniffi_error_promise)); }"@
    } else {
        "{ return napi_ohos_uniffi_engine::OhosCallResult::Error("@ + error + "); }"@
    }) + ", };\n"@
}

/// Code that lowers a value under its name, binding by binding. A receiver may be
/// lowered with the host.
pub open spec fn lowered_by(
    name: Seq<char>,
    binding: OhosArgumentBinding,
    receiver: bool,
) -> Option<(Seq<char>, Seq<char>)> {
    let range = "napi_ohos_uniffi_engine::BridgeErrorDescriptor::validation(error.to_string())"@;
    match binding {
        OhosArgumentBinding::I64BigInt => Some(
            (
                "let (__uniffi_value, __uniffi_lossless) = "@ + name + ".get_i64();\nlet "@ + name
                    + " = match napi_ohos_uniffi_engine::napi_family_core::require_lossless_i64(__uniffi_value, __uniffi_lossless)"@,
                range,
            ),
        ),
        OhosArgumentBinding::U64BigInt => Some(
            (
                "let (__uniffi_negative, __uniffi_value, __uniffi_lossless) = "@ + name
                    + ".get_u64();\nlet "@ + name
                    + " = match napi_ohos_uniffi_engine::napi_family_core::require_lossless_u64(__uniffi_negative, __uniffi_value, __uniffi_lossless)"@,
                range,
            ),
        ),
        OhosArgumentBinding::LowerWith { lower, .. } => Some(
            ("let "@ + name + " = match "@ + lower@ + "("@ + name + ")"@, "error"@),
        ),
        OhosArgumentBinding::ObjectLease { lower, .. } => Some(
            ("let "@ + name + " = match "@ + lower@ + "("@ + name + ")"@, "error"@),
        ),
        OhosArgumentBinding::OutputStreamLease { lower, .. } => Some(
            ("let "@ + name + " = match "@ + lower@ + "("@ + name + ")"@, "error"@),
        ),
        OhosArgumentBinding::LowerWithHost { lower, .. } => if receiver {
            Some(
                (
                    "let "@ + name + " = match "@ + lower@ + "(&__uniffi_host, "@ + name
                        + ", &__uniffi_callback_transfers)"@,
                    "error"@,
                ),
            )
        } else {
            None
        },
        OhosArgumentBinding::Direct { .. } => None,
        OhosArgumentBinding::CallbackProxy { .. } => None,
        OhosArgumentBinding::InputStreamProxy { .. } => None,
    }
}

proof fn lemma_lowered(
    out: Seq<char>,
    name: Seq<char>,
    binding: OhosArgumentBinding,
    receiver: bool,
    manual: bool,
    carrier: Seq<char>,
)
    ensures
        entry::emit_lowering(out, name, binding, receiver, manual, carrier) == match lowered_by(
            name,
            binding,
            receiver,
        ) {
            Some((code, error)) => out + (code + lowering_fails(error, manual, carrier)),
            None => out,
        },
{
    let range = "napi_ohos_uniffi_engine::BridgeErrorDescriptor::validation(error.to_string())"@;
    match binding {
        OhosArgumentBinding::I64BigInt => {
            let (code, _) = lowered_by(name, binding, receiver).unwrap();
            lemma_five(out, entry::I64_SPLIT@, name, entry::I64_READ@, name, entry::I64_CHECK@);
            lemma_fails(out, code, range, manual, carrier);
        },
        OhosArgumentBinding::U64BigInt => {
            let (code, _) = lowered_by(name, binding, receiver).unwrap();
            lemma_five(out, entry::U64_SPLIT@, name, entry::U64_READ@, name, entry::U64_CHECK@);
            lemma_fails(out, code, range, manual, carrier);
        },
        OhosArgumentBinding::LowerWith { lower, .. } => {
            let (code, _) = lowered_by(name, binding, receiver).unwrap();
            lemma_seven(out, "let "@, name, " = match "@, lower@, "("@, name, ")"@);
            lemma_fails(out, code, "error"@, manual, carrier);
        },
        OhosArgumentBinding::ObjectLease { lower, .. } => {
            let (code, _) = lowered_by(name, binding, receiver).unwrap();
            lemma_seven(out, "let "@, name, " = match "@, lower@, "("@, name, ")"@);
            lemma_fails(out, code, "error"@, manual, carrier);
        },
        OhosArgumentBinding::OutputStreamLease { lower, .. } => {
            let (code, _) = lowered_by(name, binding, receiver).unwrap();
            lemma_seven(out, "let "@, name, " = match "@, lower@, "("@, name, ")"@);
            lemma_fails(out, code, "error"@, manual, carrier);
        },
        OhosArgumentBinding::LowerWithHost { lower, .. } => {
            if receiver {
                let (code, _) = lowered_by(name, binding, receiver).unwrap();
                lemma_seven(
                    out,
                    "let "@,
                    name,
                    " = match "@,
                    lower@,
                    "(&__uniffi_host, "@,
                    name,
                    ", &__uniffi_callback_transfers)"@,
                );
                lemma_fails(out, code, "error"@, manual, carrier);
            }
        },
        _ => {},
    }
}

pub(crate) proof fn lemma_five(
    out: Seq<char>,
    a: Seq<char>,
    b: Seq<char>,
    c: Seq<char>,
    d: Seq<char>,
    e: Seq<char>,
)
    ensures
        out + a + b + c + d + e == out + (a + b + c + d + e),
{
    assert(out + a + b + c + d + e =~= out + (a + b + c + d + e));
}

pub(crate) proof fn lemma_seven(
    out: Seq<char>,
    a: Seq<char>,
    b: Seq<char>,
    c: Seq<char>,
    d: Seq<char>,
    e: Seq<char>,
    f: Seq<char>,
    g: Seq<char>,
)
    ensures
        out + a + b + c + d + e + f + g == out + (a + b + c + d + e + f + g),
{
    lemma_five(out, a, b, c, d, e);
    let five = a + b + c + d + e;
    assert(out + five + f + g =~= out + (five + f + g));
}

proof fn lemma_fails(
    out: Seq<char>,
    code: Seq<char>,
    error: Seq<char>,
    manual: bool,
    carrier: Seq<char>,
)
    ensures
        entry::emit_lower_error(out + code + entry::MATCH_ARMS@, manual, carrier, error)
            + entry::MATCH_END@ == out + (code + lowering_fails(error, manual, carrier)),
{
    let head = out + code;
    let arms = " { Ok(value) => value, Err(error) => "@;
    if manual {
        let a = "{ let __uniffi_error_promise = napi_ohos::bindgen_prelude::PromiseRaw::<napi_ohos_uniffi_engine::OhosCallResult<"@;
        let b = ">>::resolve(__uniffi_env, napi_ohos_uniffi_engine::OhosCallResult::Error("@;
        let c = "), )?; return Ok(napi_ohos::bindgen_prelude::JsValue::raw(&__uniffi_error_promise)); }"@;
        lemma_five(head + arms, a, carrier, b, error, c);
        let inner = a + carrier + b + error + c;
        assert(head + arms + inner + ", };\n"@ =~= out + (code + (arms + inner + ", };\n"@)));
    } else {
        let a = "{ return napi_ohos_uniffi_engine::OhosCallResult::Error("@;
        let inner = a + error + "); }"@;
        assert(head + arms + a + error + "); }"@ =~= head + arms + inner);
        assert(head + arms + inner + ", };\n"@ =~= out + (code + (arms + inner + ", };\n"@)));
    }
}

/// A body lowers the receiver and each argument under its own name by the path of
/// its binding, and ends with the error of that lowering where it fails. A binding
/// that needs no lowering has none.
pub proof fn body_lowers_its_arguments(
    call: Seq<char>,
    operation: OhosOperationPlan,
    shape: OperationShape,
    i: int,
)
    ensures
        0 <= i < operation.arguments@.len() ==> (lowered_by(
            operation.arguments@[i].name@,
            operation.arguments@[i].binding,
            false,
        ) matches Some((code, error)) ==> text::says(
            body::body_text(call, operation, shape),
            code + lowering_fails(
                error,
                shape.manual_async_entry,
                operation.return_binding.carrier(),
            ),
        )),
        operation.receiver matches Some(receiver) ==> (lowered_by(
            receiver.name@,
            receiver.binding,
            true,
        ) matches Some((code, error)) ==> text::says(
            body::body_text(call, operation, shape),
            code + lowering_fails(
                error,
                shape.manual_async_entry,
                operation.return_binding.carrier(),
            ),
        )),
        (forall|a: int|
            0 <= a < operation.arguments@.len() ==> lowered_by(
                (#[trigger] operation.arguments@[a]).name@,
                operation.arguments@[a].binding,
                false,
            ) is None) && (operation.receiver matches Some(receiver) ==> lowered_by(
            receiver.name@,
            receiver.binding,
            true,
        ) is None) ==> entry::emit_lowerings(
            parts(call, operation, shape).lowerings,
            operation,
            shape.manual_async_entry,
            operation.arguments@.len() as int,
        ) == parts(call, operation, shape).lowerings,
{
    let count = operation.arguments@.len() as int;
    let manual = shape.manual_async_entry;
    let out = parts(call, operation, shape).lowerings;
    let carrier = operation.return_binding.carrier();
    let whole = body::body_text(call, operation, shape);
    body_goes_through_its_parts(call, operation, shape);
    let lowered = entry::emit_lowerings(out, operation, manual, count);
    if 0 <= i < count {
        let argument = operation.arguments@[i];
        let before = entry::emit_lowerings(out, operation, manual, i);
        let here = entry::emit_lowerings(out, operation, manual, i + 1);
        lemma_lowered(before, argument.name@, argument.binding, false, manual, carrier);
        lemma_lowerings_go_on(out, operation, manual, i + 1, count);
        text::lemma_goes_on_further(here, lowered, whole);
        if let Some((code, error)) = lowered_by(argument.name@, argument.binding, false) {
            text::lemma_says(before, code + lowering_fails(error, manual, carrier), whole);
        }
    }
    if let Some(receiver) = operation.receiver {
        let here = entry::emit_lowerings(out, operation, manual, 0);
        lemma_lowered(out, receiver.name@, receiver.binding, true, manual, carrier);
        lemma_lowerings_go_on(out, operation, manual, 0, count);
        text::lemma_goes_on_further(here, lowered, whole);
        if let Some((code, error)) = lowered_by(receiver.name@, receiver.binding, true) {
            text::lemma_says(out, code + lowering_fails(error, manual, carrier), whole);
        }
    }
    if (forall|a: int|
        0 <= a < operation.arguments@.len() ==> lowered_by(
            (#[trigger] operation.arguments@[a]).name@,
            operation.arguments@[a].binding,
            false,
        ) is None) && (operation.receiver matches Some(receiver) ==> lowered_by(
        receiver.name@,
        receiver.binding,
        true,
    ) is None) {
        lemma_nothing_lowered(out, operation, manual, count);
    }
}

proof fn lemma_nothing_lowered(
    out: Seq<char>,
    operation: OhosOperationPlan,
    manual: bool,
    upto: int,
)
    requires
        upto <= operation.arguments@.len(),
        forall|a: int|
            0 <= a < operation.arguments@.len() ==> lowered_by(
                (#[trigger] operation.arguments@[a]).name@,
                operation.arguments@[a].binding,
                false,
            ) is None,
        operation.receiver matches Some(receiver) ==> lowered_by(
            receiver.name@,
            receiver.binding,
            true,
        ) is None,
    ensures
        entry::emit_lowerings(out, operation, manual, upto) == out,
    decreases upto,
{
    let carrier = operation.return_binding.carrier();
    if upto <= 0 {
        if let Some(receiver) = operation.receiver {
            lemma_lowered(out, receiver.name@, receiver.binding, true, manual, carrier);
        }
    } else {
        lemma_nothing_lowered(out, operation, manual, upto - 1);
        let argument = operation.arguments@[upto - 1];
        lemma_lowered(out, argument.name@, argument.binding, false, manual, carrier);
    }
}

} // verus!
