//! What building a function step by step comes to.

use crate::ast;
use crate::ast::{FnModel, NapiEnumValue, NapiFn, NapiFnArg, NapiFnBuilder};
use vstd::prelude::*;
use vstd::std_specs::convert::FromSpec;

verus! {

/// A new function has its two names, is registered under the first of them, and has
/// nothing else.
pub proof fn new_function_has_only_its_names(name: Seq<char>, js_name: Seq<char>)
    ensures
        ast::plain_function(name, js_name) == (FnModel {
            name,
            js_name,
            args: Seq::empty(),
            ret: None,
            is_ret_result: false,
            is_async: false,
            strict: false,
            skip_typescript: false,
            no_export: false,
            register_name: "__napi_register_"@ + name,
            pre_call: Seq::empty(),
            leading_wrapper_args: 0,
            otherwise_plain: true,
        }),
{
}

/// Arguments are added behind those that are there.
pub proof fn arguments_are_added_in_order(
    builder: NapiFnBuilder,
    argument: NapiFnArg,
    r: NapiFnBuilder,
)
    requires
        call_ensures(NapiFnBuilder::argument, (builder, argument), r),
    ensures
        r.function().args@.drop_last() =~= builder.function().args@,
        r.function().args@.last() == argument,
        r.function() == (NapiFn { args: r.function().args, ..builder.function() }),
{
}

/// A return type is that of a plain value or that of a result, whichever was given
/// last.
pub proof fn return_types_replace_each_other(
    builder: NapiFnBuilder,
    return_type: String,
    r: NapiFnBuilder,
)
    ensures
        call_ensures(NapiFnBuilder::return_type, (builder, return_type), r) ==> r.function() == (
        NapiFn { ret: Some(return_type), is_ret_result: false, ..builder.function() }),
        call_ensures(NapiFnBuilder::result_return_type, (builder, return_type), r) ==> r.function()
            == (NapiFn { ret: Some(return_type), is_ret_result: true, ..builder.function() }),
{
}

/// An asynchronous function is one by its own flag, and runs within the runtime by
/// another.
pub proof fn asynchrony_is_set_by_its_own_flags(
    builder: NapiFnBuilder,
    on: bool,
    r: NapiFnBuilder,
)
    ensures
        call_ensures(NapiFnBuilder::asynchronous, (builder, on), r) ==> r.function() == (NapiFn {
            is_async: on,
            ..builder.function()
        }),
        call_ensures(NapiFnBuilder::within_async_runtime, (builder, on), r) ==> r.function() == (
        NapiFn { within_async_runtime: on, ..builder.function() }),
{
}

/// Strictness and typings are set by their own flags.
pub proof fn strictness_is_set_by_its_own_flag(
    builder: NapiFnBuilder,
    on: bool,
    r: NapiFnBuilder,
)
    ensures
        call_ensures(NapiFnBuilder::strict, (builder, on), r) ==> r.function() == (NapiFn {
            strict: on,
            ..builder.function()
        }),
        call_ensures(NapiFnBuilder::skip_typescript, (builder, on), r) ==> r.function() == (
        NapiFn { skip_typescript: on, ..builder.function() }),
{
}

/// Exports are set by their own flags.
pub proof fn exports_are_set_by_their_own_flags(
    builder: NapiFnBuilder,
    on: bool,
    r: NapiFnBuilder,
)
    ensures
        call_ensures(NapiFnBuilder::module_exports, (builder, on), r) ==> r.function() == (NapiFn {
            module_exports: on,
            ..builder.function()
        }),
        call_ensures(NapiFnBuilder::private, (builder, on), r) ==> r.function() == (NapiFn {
            no_export: on,
            ..builder.function()
        }),
{
}

/// Texts and counts go where they belong.
pub proof fn texts_go_where_they_belong(
    builder: NapiFnBuilder,
    text: String,
    count: usize,
    r: NapiFnBuilder,
)
    ensures
        call_ensures(NapiFnBuilder::register_name, (builder, text), r) ==> r.function() == (
        NapiFn { register_name: text, ..builder.function() }),
        call_ensures(NapiFnBuilder::pre_call, (builder, text), r) ==> r.function() == (NapiFn {
            pre_call: text,
            ..builder.function()
        }),
        call_ensures(NapiFnBuilder::leading_wrapper_args, (builder, count), r) ==> r.function() == (
        NapiFn { leading_wrapper_args: count, ..builder.function() }),
{
}

/// An enum value becomes the literal of its own kind.
pub proof fn enum_values_become_literals(text: String, number: i32)
    ensures
        proc_macro2::Literal::from_spec(&NapiEnumValue::String(text)) == ast::string_literal(text@),
        proc_macro2::Literal::from_spec(&NapiEnumValue::Number(number)) == ast::number_literal(
            number,
        ),
{
}

} // verus!
