//! The body of a native operation and the function that enters it.

use crate::ast::{FnModel, NapiFn, NapiFnArg, NapiFnArgKind, NapiFnBuilder};
use crate::ast;
use crate::codegen::entry::{
    count_wrapper_args, named, operation_shape, raw_operation_name, write_lowerings,
    write_pre_call, OperationShape, NO_TRANSFERS,
};
use crate::codegen::entry;
use crate::error::OhosEngineError;
use crate::family::{FamilyOperation, OperationModel};
use crate::plan::{
    OhosArgumentBinding, OhosErrorBinding, OhosOperationPlan, OhosOperationTarget,
    OhosReturnBinding,
};
use crate::text;
use vstd::prelude::*;
use vstd::string::StringExecFns;

verus! {

// ---- Parameters ----

pub const HOST_PARAMETER: &'static str = "__uniffi_host: napi_ohos::bindgen_prelude::Object<'static>";

pub const ENV_PARAMETER: &'static str = "__uniffi_env: &napi_ohos::Env";

pub const TRANSFER_PARAMETERS: &'static str = "__uniffi_session_generation: u32, __uniffi_callback_transfer: u32, ";

/// The receiver and the first `upto` arguments as parameters.
pub open spec fn emit_parameters(out: Seq<char>, operation: OhosOperationPlan, upto: int) -> Seq<char>
    decreases upto,
{
    if upto <= 0 {
        match operation.receiver {
            Some(receiver) => out + receiver.name@ + ": "@ + receiver.binding.parameter() + ", "@,
            None => out,
        }
    } else {
        text::separated(emit_parameters(out, operation, upto - 1), upto == 1)
            + operation.arguments@[upto - 1].name@ + ": "@
            + operation.arguments@[upto - 1].binding.parameter()
    }
}

fn write_parameters(out: &mut String, operation: &OhosOperationPlan)
    ensures
        final(out)@ == emit_parameters(old(out)@, *operation, operation.arguments@.len() as int),
{
    let ghost start = out@;
    if let Some(receiver) = &operation.receiver {
        let parameter: String = receiver.binding.rust_parameter_type();
        out.append(receiver.name.as_str());
        out.append(": ");
        out.append(parameter.as_str());
        out.append(", ");
    }
    for i in 0..operation.arguments.len()
        invariant
            out@ == emit_parameters(start, *operation, i as int),
    {
        let parameter: String = operation.arguments[i].binding.rust_parameter_type();
        text::push_separator(out, i == 0);
        out.append(operation.arguments[i].name.as_str());
        out.append(": ");
        out.append(parameter.as_str());
    }
}

/// The names of the receiver and of the first `upto` arguments.
pub open spec fn emit_names(out: Seq<char>, operation: OhosOperationPlan, upto: int) -> Seq<char>
    decreases upto,
{
    if upto <= 0 {
        match operation.receiver {
            Some(receiver) => out + receiver.name@,
            None => out,
        }
    } else {
        text::separated(
            emit_names(out, operation, upto - 1),
            upto == 1 && operation.receiver is None,
        ) + operation.arguments@[upto - 1].name@
    }
}

fn write_names(out: &mut String, operation: &OhosOperationPlan)
    ensures
        final(out)@ == emit_names(old(out)@, *operation, operation.arguments@.len() as int),
{
    let ghost start = out@;
    if let Some(receiver) = &operation.receiver {
        out.append(receiver.name.as_str());
    }
    for i in 0..operation.arguments.len()
        invariant
            out@ == emit_names(start, *operation, i as int),
    {
        text::push_separator(out, i == 0 && operation.receiver.is_none());
        out.append(operation.arguments[i].name.as_str());
    }
}

// ---- The call and its value ----

pub const CALL_ERROR: &'static str = "napi_ohos_uniffi_engine::OhosCallResult::Error(";

pub const BIGINT_LIFT: &'static str = "{ let parts = napi_ohos_uniffi_engine::napi_family_core::BigIntWords::from(__uniffi_value); napi_ohos::bindgen_prelude::BigInt { sign_bit: parts.negative, words: parts.words, } }";

/// The call of the Rust function.
pub open spec fn emit_invoke(
    out: Seq<char>,
    call: Seq<char>,
    operation: OhosOperationPlan,
    asynchronous: bool,
) -> Seq<char> {
    let called = emit_names(
        out + call + "("@,
        operation,
        operation.arguments@.len() as int,
    ) + ")"@;
    if asynchronous {
        called + ".await"@
    } else {
        called
    }
}

fn write_invoke(out: &mut String, call: &str, operation: &OhosOperationPlan, asynchronous: bool)
    ensures
        final(out)@ == emit_invoke(old(out)@, call@, *operation, asynchronous),
{
    out.append(call);
    out.append("(");
    write_names(out, operation);
    out.append(")");
    if asynchronous {
        out.append(".await");
    }
}

/// Code that calls the function and ends the operation where it failed.
pub open spec fn emit_value(
    out: Seq<char>,
    call: Seq<char>,
    operation: OhosOperationPlan,
    shape: OperationShape,
) -> Seq<char> {
    match operation.error_binding {
        OhosErrorBinding::Infallible => emit_invoke(
            out + "let __uniffi_value = "@,
            call,
            operation,
            shape.asynchronous,
        ) + ";\n"@,
        OhosErrorBinding::Descriptor { map } => {
            let tried = emit_invoke(
                out + "let __uniffi_value = match "@,
                call,
                operation,
                shape.asynchronous,
            ) + " { Ok(value) => value, Err(error) => return "@;
            if shape.manual_async_entry {
                tried + "Ok("@ + CALL_ERROR@ + map@ + "(error))), };\n"@
            } else {
                tried + CALL_ERROR@ + map@ + "(error)), };\n"@
            }
        },
    }
}

fn write_value(out: &mut String, call: &str, operation: &OhosOperationPlan, shape: OperationShape)
    ensures
        final(out)@ == emit_value(old(out)@, call@, *operation, shape),
{
    match &operation.error_binding {
        OhosErrorBinding::Infallible => {
            out.append("let __uniffi_value = ");
            write_invoke(out, call, operation, shape.asynchronous);
            out.append(";\n");
        },
        OhosErrorBinding::Descriptor { map } => {
            out.append("let __uniffi_value = match ");
            write_invoke(out, call, operation, shape.asynchronous);
            out.append(" { Ok(value) => value, Err(error) => return ");
            if shape.manual_async_entry {
                out.append("Ok(");
                out.append(CALL_ERROR);
                out.append(map.as_str());
                out.append("(error))), };\n");
            } else {
                out.append(CALL_ERROR);
                out.append(map.as_str());
                out.append("(error)), };\n");
            }
        },
    }
}

/// The result of the function as a value of the script.
pub open spec fn emit_lift(out: Seq<char>, binding: OhosReturnBinding, manual: bool) -> Seq<char> {
    match binding {
        OhosReturnBinding::Unit | OhosReturnBinding::Direct { .. } => out + "__uniffi_value"@,
        OhosReturnBinding::I64BigInt | OhosReturnBinding::U64BigInt => out + BIGINT_LIFT@,
        OhosReturnBinding::LiftWith { lift, .. }
        | OhosReturnBinding::ObjectLease { lift, .. }
        | OhosReturnBinding::CallbackLease { lift, .. }
        | OhosReturnBinding::OutputStreamLease { lift, .. } => {
            let tried = out + "{ match "@ + lift@
                + "(__uniffi_value) { Ok(value) => value, Err(error) => return "@;
            if manual {
                tried + "Ok("@ + CALL_ERROR@ + "error)), } }"@
            } else {
                tried + CALL_ERROR@ + "error), } }"@
            }
        },
    }
}

fn write_lift(out: &mut String, binding: &OhosReturnBinding, manual: bool)
    ensures
        final(out)@ == emit_lift(old(out)@, *binding, manual),
{
    match binding {
        OhosReturnBinding::Unit | OhosReturnBinding::Direct { .. } => out.append("__uniffi_value"),
        OhosReturnBinding::I64BigInt | OhosReturnBinding::U64BigInt => out.append(BIGINT_LIFT),
        OhosReturnBinding::LiftWith { lift, .. }
        | OhosReturnBinding::ObjectLease { lift, .. }
        | OhosReturnBinding::CallbackLease { lift, .. }
        | OhosReturnBinding::OutputStreamLease { lift, .. } => {
            out.append("{ match ");
            out.append(lift.as_str());
            out.append("(__uniffi_value) { Ok(value) => value, Err(error) => return ");
            if manual {
                out.append("Ok(");
                out.append(CALL_ERROR);
                out.append("error)), } }");
            } else {
                out.append(CALL_ERROR);
                out.append("error), } }");
            }
        },
    }
}

// ---- The body ----

pub const ATTRIBUTES: &'static str = "#[doc(hidden)]\n#[allow(clippy::all)]\n";

pub const MANUAL_RESULT: &'static str = ") -> napi_ohos::Result<napi_ohos::bindgen_prelude::sys::napi_value> {\n";

pub const FUTURE_OPEN: &'static str = "let __uniffi_future = async move {\n";

pub const FUTURE_OK: &'static str = "Ok::<napi_ohos_uniffi_engine::OhosCallResult<";

pub const FUTURE_VALUE: &'static str = ">, napi_ohos::Error>(napi_ohos_uniffi_engine::OhosCallResult::Value(";

pub const FUTURE_SPAWN: &'static str = "))\n};\nlet __uniffi_promise = __uniffi_env.spawn_future(__uniffi_future)?;\nOk(napi_ohos::bindgen_prelude::JsValue::raw(&__uniffi_promise))\n}\n";

pub const PLAIN_RESULT: &'static str = ") -> napi_ohos_uniffi_engine::OhosCallResult<";

pub const PLAIN_VALUE: &'static str = "napi_ohos_uniffi_engine::OhosCallResult::Value(";

/// A body that lowers its arguments on the script thread and spawns the rest.
pub open spec fn manual_body(
    call: Seq<char>,
    operation: OhosOperationPlan,
    shape: OperationShape,
) -> Seq<char> {
    let count = operation.arguments@.len() as int;
    let head = ATTRIBUTES@ + "fn "@ + entry::raw_name(operation.operation_id) + "("@;
    let with_host = if shape.requires_host {
        head + HOST_PARAMETER@ + ", "@
    } else {
        head
    };
    let with_env = with_host + ENV_PARAMETER@ + ", "@;
    let with_transfer = if shape.callback_transfer {
        with_env + TRANSFER_PARAMETERS@
    } else {
        with_env
    };
    let lowered = entry::emit_lowerings(
        emit_parameters(with_transfer, operation, count) + MANUAL_RESULT@ + NO_TRANSFERS@,
        operation,
        true,
        count,
    );
    emit_lift(
        emit_value(lowered + FUTURE_OPEN@, call, operation, shape) + FUTURE_OK@
            + operation.return_binding.carrier() + FUTURE_VALUE@,
        operation.return_binding,
        true,
    ) + FUTURE_SPAWN@
}

/// A body that is entered with everything at hand.
pub open spec fn plain_body(
    call: Seq<char>,
    operation: OhosOperationPlan,
    shape: OperationShape,
) -> Seq<char> {
    let count = operation.arguments@.len() as int;
    let head = (if shape.asynchronous {
        ATTRIBUTES@ + "async fn "@
    } else {
        ATTRIBUTES@ + "fn "@
    }) + entry::raw_name(operation.operation_id) + "("@;
    let lowered = entry::emit_lowerings(
        emit_parameters(head, operation, count) + PLAIN_RESULT@
            + operation.return_binding.carrier() + "> {\n"@ + NO_TRANSFERS@,
        operation,
        false,
        count,
    );
    emit_lift(
        emit_value(lowered, call, operation, shape) + PLAIN_VALUE@,
        operation.return_binding,
        false,
    ) + ")\n}\n"@
}

pub open spec fn body_text(
    call: Seq<char>,
    operation: OhosOperationPlan,
    shape: OperationShape,
) -> Seq<char> {
    if shape.manual_async_entry {
        manual_body(call, operation, shape)
    } else {
        plain_body(call, operation, shape)
    }
}

fn write_body(call: &str, operation: &OhosOperationPlan, shape: OperationShape) -> (out: String)
    requires
        !shape.asynchronous ==> !shape.manual_async_entry,
    ensures
        out@ == body_text(call@, *operation, shape),
{
    let carrier: String = operation.return_binding.carrier_type();
    let name: String = raw_operation_name(operation.operation_id);
    let mut out: String = ATTRIBUTES.to_owned();
    if shape.manual_async_entry {
        out.append("fn ");
        out.append(name.as_str());
        out.append("(");
        if shape.requires_host {
            out.append(HOST_PARAMETER);
            out.append(", ");
        }
        out.append(ENV_PARAMETER);
        out.append(", ");
        if shape.callback_transfer {
            out.append(TRANSFER_PARAMETERS);
        }
        write_parameters(&mut out, operation);
        out.append(MANUAL_RESULT);
        out.append(NO_TRANSFERS);
        write_lowerings(&mut out, operation, true);
        out.append(FUTURE_OPEN);
        write_value(&mut out, call, operation, shape);
        out.append(FUTURE_OK);
        out.append(carrier.as_str());
        out.append(FUTURE_VALUE);
        write_lift(&mut out, &operation.return_binding, true);
        out.append(FUTURE_SPAWN);
    } else {
        if shape.asynchronous {
            out.append("async fn ");
        } else {
            out.append("fn ");
        }
        out.append(name.as_str());
        out.append("(");
        write_parameters(&mut out, operation);
        out.append(PLAIN_RESULT);
        out.append(carrier.as_str());
        out.append("> {\n");
        out.append(NO_TRANSFERS);
        write_lowerings(&mut out, operation, false);
        write_value(&mut out, call, operation, shape);
        out.append(PLAIN_VALUE);
        write_lift(&mut out, &operation.return_binding, false);
        out.append(")\n}\n");
    }
    out
}

// ---- The function ----

/// The arguments of the wrapper before those of the operation.
pub open spec fn leading_args(shape: OperationShape) -> Seq<ast::ArgModel> {
    (if shape.requires_host {
        seq![ast::ArgModel::Pattern(HOST_PARAMETER@)]
    } else {
        Seq::empty()
    }) + (if shape.manual_async_entry {
        seq![ast::ArgModel::Pattern(ENV_PARAMETER@)]
    } else {
        Seq::empty()
    }) + (if shape.callback_transfer {
        seq![
            ast::ArgModel::Pattern("\"__uniffi_session_generation\": u32"@),
            ast::ArgModel::Pattern("\"__uniffi_callback_transfer\": u32"@),
        ]
    } else {
        Seq::empty()
    })
}

/// The receiver and the first `upto` arguments of the operation, by the types
/// in which they arrive.
pub open spec fn carried_args(operation: OhosOperationPlan, upto: int) -> Seq<ast::ArgModel>
    decreases upto,
{
    if upto <= 0 {
        match operation.receiver {
            Some(receiver) => seq![
                ast::ArgModel::Pattern(receiver.name@ + ": "@ + receiver.binding.carrier()),
            ],
            None => Seq::empty(),
        }
    } else {
        carried_args(operation, upto - 1).push(
            ast::ArgModel::Pattern(
                operation.arguments@[upto - 1].name@ + ": "@
                    + operation.arguments@[upto - 1].binding.carrier(),
            ),
        )
    }
}

/// The function that enters a raw operation, after this code before the call.
/// It stays out of the exports.
pub open spec fn function_model(
    operation: OhosOperationPlan,
    shape: OperationShape,
    pre_call: Seq<char>,
) -> FnModel {
    let name = entry::raw_name(operation.operation_id);
    let common = FnModel {
        args: leading_args(shape) + carried_args(operation, operation.arguments@.len() as int),
        pre_call,
        strict: true,
        skip_typescript: true,
        no_export: true,
        register_name: entry::register_name(operation.operation_id),
        ..ast::plain_function(name, name)
    };
    if shape.manual_async_entry {
        FnModel {
            ret: Some("napi_ohos::bindgen_prelude::sys::napi_value"@),
            is_ret_result: true,
            ..common
        }
    } else {
        FnModel {
            ret: Some(
                "napi_ohos_uniffi_engine::OhosCallResult<"@ + operation.return_binding.carrier()
                    + ">"@,
            ),
            leading_wrapper_args: entry::wrapper_args(shape) as usize,
            is_async: shape.asynchronous,
            ..common
        }
    }
}

/// The function that enters a raw operation.
pub open spec fn entry_function(
    family: OperationModel,
    operation: OhosOperationPlan,
    shape: OperationShape,
) -> FnModel {
    function_model(operation, shape, entry::pre_call_text(family, operation, shape))
}

/// An ordinary argument.
pub(crate) fn pattern(text: String) -> (r: NapiFnArg)
    ensures
        r@ == ast::ArgModel::Pattern(text@),
{
    NapiFnArg { kind: NapiFnArgKind::PatType(text), ts_arg_type: None }
}

fn carried(name: &str, carrier: &str) -> (r: NapiFnArg)
    ensures
        r@ == ast::ArgModel::Pattern(name@ + ": "@ + carrier@),
{
    let mut out: String = name.to_owned();
    out.append(": ");
    out.append(carrier);
    pattern(out)
}

fn build_function(operation: &OhosOperationPlan, shape: OperationShape, pre_call: String) -> (r: NapiFn)
    ensures
        r@ == function_model(*operation, shape, pre_call@),
{
    let name: String = raw_operation_name(operation.operation_id);
    let mut builder = NapiFnBuilder::new(name.clone(), name);
    if shape.requires_host {
        builder = builder.argument(pattern(HOST_PARAMETER.to_owned()));
    }
    if shape.manual_async_entry {
        builder = builder.argument(pattern(ENV_PARAMETER.to_owned()));
    }
    if shape.callback_transfer {
        builder = builder.argument(pattern("\"__uniffi_session_generation\": u32".to_owned()));
        builder = builder.argument(pattern("\"__uniffi_callback_transfer\": u32".to_owned()));
    }
    assert(builder.function()@.args =~= leading_args(shape));
    let ghost leading = builder.function()@;
    if let Some(receiver) = &operation.receiver {
        let carrier: String = receiver.binding.carrier_type();
        builder = builder.argument(carried(receiver.name.as_str(), carrier.as_str()));
    }
    assert(builder.function()@.args =~= leading.args + carried_args(*operation, 0));
    for i in 0..operation.arguments.len()
        invariant
            builder.function()@ == (FnModel {
                args: leading.args + carried_args(*operation, i as int),
                ..leading
            }),
    {
        let carrier: String = operation.arguments[i].binding.carrier_type();
        builder = builder.argument(carried(operation.arguments[i].name.as_str(), carrier.as_str()));
        assert(builder.function()@.args =~= leading.args + carried_args(*operation, i + 1));
    }
    let register: String = named(
        "__napi_register_uniffi_raw_operation_",
        operation.operation_id,
    );
    if shape.manual_async_entry {
        builder.result_return_type(
            "napi_ohos::bindgen_prelude::sys::napi_value".to_owned(),
        ).pre_call(pre_call).asynchronous(false).strict(true).skip_typescript(true).private(
            true,
        ).register_name(register).build()
    } else {
        let mut result: String = "napi_ohos_uniffi_engine::OhosCallResult<".to_owned();
        let carrier: String = operation.return_binding.carrier_type();
        result.append(carrier.as_str());
        result.append(">");
        builder.return_type(result).pre_call(pre_call).leading_wrapper_args(
            count_wrapper_args(shape),
        ).asynchronous(shape.asynchronous).strict(true).skip_typescript(true).private(
            true,
        ).register_name(register).build()
    }
}

/// One operation as source: its body, the function that enters it, and the name
/// of what makes a callback of that function.
#[derive(Debug)]
pub struct GeneratedOperation {
    pub body: String,
    pub function: NapiFn,
    pub callback_factory: String,
}

/// Generates one native operation.
pub fn generate_operation(operation: &OhosOperationPlan, family: &FamilyOperation) -> (r: Result<
    GeneratedOperation,
    OhosEngineError,
>)
    ensures
        match entry::generation_fault(family@, *operation) {
            Some(error) => r == Err::<GeneratedOperation, OhosEngineError>(error),
            None => {
                let shape = entry::shape_of(family@, *operation);
                &&& r matches Ok(generated)
                &&& operation.target matches OhosOperationTarget::Native { call }
                    && generated.body@ == body_text(call@, *operation, shape)
                &&& generated.function@ == entry_function(family@, *operation, shape)
                &&& generated.callback_factory@ == entry::factory_name(operation.operation_id)
            },
        },
{
    let call = match &operation.target {
        OhosOperationTarget::Native { call } => call,
        _ => return Err(
            OhosEngineError::InvalidOperationTarget {
                operation_id: operation.operation_id,
                kind: family.kind,
            },
        ),
    };
    if let Some(receiver) = &operation.receiver {
        match &receiver.binding {
            OhosArgumentBinding::CallbackProxy { .. }
            | OhosArgumentBinding::InputStreamProxy { .. } => {
                return Err(
                    OhosEngineError::InvalidResourceReceiver {
                        operation_id: operation.operation_id,
                    },
                );
            },
            _ => {},
        }
    }
    let shape: OperationShape = operation_shape(family, operation);
    let pre_call: String = match write_pre_call(family, operation, shape) {
        Ok(pre_call) => pre_call,
        Err(error) => return Err(error),
    };
    let body: String = write_body(call.as_str(), operation, shape);
    let function: NapiFn = build_function(operation, shape, pre_call);
    let callback_factory: String = named(
        "_napi_rs_internal_register___uniffi_raw_operation_",
        operation.operation_id,
    );
    Ok(GeneratedOperation { body, function, callback_factory })
}

} // verus!
