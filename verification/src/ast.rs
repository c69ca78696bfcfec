//! The functions that a generated module exports or keeps for itself.
//!
//! Rust names, patterns, types and code are held as source text.

use vstd::prelude::*;
use vstd::string::StringExecFns;

verus! {

/// A case convention of the `convert_case` crate, carried along for the
/// discriminants of structured enums.
#[verifier::external_type_specification]
#[verifier::external_body]
pub struct ExCase<'b>(convert_case::Case<'b>);

/// A literal token of the `proc_macro2` crate.
#[verifier::external_type_specification]
#[verifier::external_body]
pub struct ExLiteral(proc_macro2::Literal);

/// The literal token of a string.
pub uninterp spec fn string_literal(text: Seq<char>) -> proc_macro2::Literal;

/// `proc_macro2::Literal::string` makes a token out of the characters alone,
/// here called [`string_literal`]; how it escapes them is not restated. Two
/// tokens are equal here up to the span of their call-site, which nothing in
/// this crate reads.
pub assume_specification[ proc_macro2::Literal::string ](string: &str) -> (literal:
    proc_macro2::Literal)
    ensures
        literal == string_literal(string@),
;

/// The literal token of a number, without a suffix.
pub uninterp spec fn number_literal(number: i32) -> proc_macro2::Literal;

/// `proc_macro2::Literal::i32_unsuffixed` makes a token out of the number
/// alone, here called [`number_literal`]. The token is opaque, so its digits
/// are not restated. Two tokens are equal here up to the span of their
/// call-site, which nothing in this crate reads.
pub assume_specification[ proc_macro2::Literal::i32_unsuffixed ](n: i32) -> (literal:
    proc_macro2::Literal)
    ensures
        literal == number_literal(n),
;

#[derive(Clone, Copy, Debug, PartialEq, Eq, Structural)]
pub enum FnKind {
    Normal,
    Constructor,
    Factory,
    Getter,
    Setter,
}

#[derive(Clone, Copy, Debug, PartialEq, Eq, Structural)]
pub enum FnSelf {
    Value,
    Ref,
    MutRef,
}

/// A callback argument: its pattern, the types that it takes and the type that
/// it gives.
#[derive(Clone, Debug, PartialEq, Eq)]
pub struct CallbackArg {
    pub pat: String,
    pub args: Vec<String>,
    pub ret: Option<String>,
}

#[derive(Clone, Debug, PartialEq, Eq)]
pub enum NapiFnArgKind {
    /// A pattern with its type.
    PatType(String),
    Callback(CallbackArg),
}

#[derive(Clone, Debug, PartialEq, Eq)]
pub struct NapiFnArg {
    pub kind: NapiFnArgKind,
    pub ts_arg_type: Option<String>,
}

impl NapiFnArg {
    /// The declared type of the argument: the one that was given for it, or
    /// else the default.
    pub fn use_overridden_type_or<F: FnOnce() -> String>(&self, default: F) -> (r: String)
        requires
            self.ts_arg_type is None ==> default.requires(()),
        ensures
            match self.ts_arg_type {
                Some(overridden) => r == overridden,
                None => default.ensures((), r),
            },
    {
        match &self.ts_arg_type {
            Some(overridden) => overridden.clone(),
            None => default(),
        }
    }
}

/// One function of the module.
#[derive(Clone, Debug, PartialEq, Eq)]
pub struct NapiFn {
    pub name: String,
    pub js_name: String,
    pub module_exports: bool,
    pub attrs: Vec<String>,
    pub args: Vec<NapiFnArg>,
    pub ret: Option<String>,
    pub is_ret_result: bool,
    pub is_async: bool,
    pub within_async_runtime: bool,
    pub fn_self: Option<FnSelf>,
    pub kind: FnKind,
    pub vis: String,
    pub parent: Option<String>,
    pub parent_js_name: Option<String>,
    pub strict: bool,
    pub return_if_invalid: bool,
    pub js_mod: Option<String>,
    pub ts_generic_types: Option<String>,
    pub ts_type: Option<String>,
    pub ts_args_type: Option<String>,
    pub ts_return_type: Option<String>,
    pub skip_typescript: bool,
    pub comments: Vec<String>,
    pub parent_is_generator: bool,
    pub parent_is_async_generator: bool,
    pub writable: bool,
    pub enumerable: bool,
    pub configurable: bool,
    pub catches_panics: bool,
    pub unsafe_: bool,
    pub register_name: String,
    pub no_export: bool,
    /// Code that runs after the arguments were decoded on the script thread and
    /// before an asynchronous body leaves it.
    pub pre_call: String,
    /// How many leading arguments only `pre_call` uses; they are not passed on.
    pub leading_wrapper_args: usize,
}

/// The mathematical form of an argument: its pattern with its type, where it is
/// an ordinary one.
pub enum ArgModel {
    Pattern(Seq<char>),
    Other,
}

impl View for NapiFnArg {
    type V = ArgModel;

    open spec fn view(&self) -> ArgModel {
        match self.kind {
            NapiFnArgKind::PatType(pattern) => if self.ts_arg_type is None {
                ArgModel::Pattern(pattern@)
            } else {
                ArgModel::Other
            },
            NapiFnArgKind::Callback(_) => ArgModel::Other,
        }
    }
}

/// The mathematical form of what distinguishes generated functions.
#[verifier::ext_equal]
pub struct FnModel {
    pub name: Seq<char>,
    pub js_name: Seq<char>,
    pub args: Seq<ArgModel>,
    pub ret: Option<Seq<char>>,
    pub is_ret_result: bool,
    pub is_async: bool,
    pub strict: bool,
    pub skip_typescript: bool,
    pub no_export: bool,
    pub register_name: Seq<char>,
    pub pre_call: Seq<char>,
    pub leading_wrapper_args: usize,
    /// Everything else is as in a function with nothing but its names.
    pub otherwise_plain: bool,
}

impl View for NapiFn {
    type V = FnModel;

    open spec fn view(&self) -> FnModel {
        FnModel {
            name: self.name@,
            js_name: self.js_name@,
            args: Seq::new(self.args@.len(), |i: int| self.args@[i]@),
            ret: match self.ret {
                Some(ret) => Some(ret@),
                None => None,
            },
            is_ret_result: self.is_ret_result,
            is_async: self.is_async,
            strict: self.strict,
            skip_typescript: self.skip_typescript,
            no_export: self.no_export,
            register_name: self.register_name@,
            pre_call: self.pre_call@,
            leading_wrapper_args: self.leading_wrapper_args,
            otherwise_plain: {
                &&& !self.module_exports && !self.within_async_runtime && !self.return_if_invalid
                &&& !self.parent_is_generator && !self.parent_is_async_generator
                &&& !self.catches_panics && !self.unsafe_
                &&& self.writable && self.enumerable && self.configurable
                &&& self.attrs@.len() == 0 && self.comments@.len() == 0
                &&& self.fn_self is None && self.parent is None && self.parent_js_name is None
                &&& self.js_mod is None && self.ts_generic_types is None && self.ts_type is None
                &&& self.ts_args_type is None && self.ts_return_type is None
                &&& self.kind is Normal
                &&& self.vis@ == Seq::<char>::empty()
            },
        }
    }
}

/// A function with nothing but its names.
pub open spec fn plain_function(name: Seq<char>, js_name: Seq<char>) -> FnModel {
    FnModel {
        name,
        js_name,
        args: Seq::empty(),
        ret: None,
        is_ret_result: false,
        is_async: false,
        strict: false,
        skip_typescript: false,
        no_export: false,
        register_name: "__napi_register_"@ + name,
        pre_call: Seq::empty(),
        leading_wrapper_args: 0,
        otherwise_plain: true,
    }
}

/// Builds a [`NapiFn`] step by step.
#[derive(Clone, Debug, PartialEq, Eq)]
pub struct NapiFnBuilder {
    function: NapiFn,
}

impl NapiFnBuilder {
    /// The function as built so far.
    pub closed spec fn function(self) -> NapiFn {
        self.function
    }

    pub fn new(name: String, js_name: String) -> (r: NapiFnBuilder)
        ensures
            r.function()@ == plain_function(name@, js_name@),
    {
        let mut register_name: String = "__napi_register_".to_owned();
        register_name.append(name.as_str());
        let r = NapiFnBuilder {
            function: NapiFn {
                name,
                js_name,
                module_exports: false,
                attrs: Vec::new(),
                args: Vec::new(),
                ret: None,
                is_ret_result: false,
                is_async: false,
                within_async_runtime: false,
                fn_self: None,
                kind: FnKind::Normal,
                vis: String::new(),
                parent: None,
                parent_js_name: None,
                strict: false,
                return_if_invalid: false,
                js_mod: None,
                ts_generic_types: None,
                ts_type: None,
                ts_args_type: None,
                ts_return_type: None,
                skip_typescript: false,
                comments: Vec::new(),
                parent_is_generator: false,
                parent_is_async_generator: false,
                writable: true,
                enumerable: true,
                configurable: true,
                catches_panics: false,
                unsafe_: false,
                register_name,
                no_export: false,
                pre_call: String::new(),
                leading_wrapper_args: 0,
            },
        };
        assert(r.function()@ =~= plain_function(name@, js_name@));
        r
    }

    pub fn argument(self, argument: NapiFnArg) -> (r: NapiFnBuilder)
        ensures
            r.function() == (NapiFn { args: r.function().args, ..self.function() }),
            r.function().args@ == self.function().args@.push(argument),
            r.function()@ == (FnModel {
                args: self.function()@.args.push(argument@),
                ..self.function()@
            }),
    {
        let mut function = self.function;
        let ghost before = function@;
        function.args.push(argument);
        assert(function@.args =~= before.args.push(argument@));
        NapiFnBuilder { function }
    }

    pub fn return_type(self, return_type: String) -> (r: NapiFnBuilder)
        ensures
            r.function() == (NapiFn {
                ret: Some(return_type),
                is_ret_result: false,
                ..self.function()
            }),
    {
        let mut function = self.function;
        function.ret = Some(return_type);
        function.is_ret_result = false;
        NapiFnBuilder { function }
    }

    pub fn result_return_type(self, return_type: String) -> (r: NapiFnBuilder)
        ensures
            r.function() == (NapiFn {
                ret: Some(return_type),
                is_ret_result: true,
                ..self.function()
            }),
    {
        let mut function = self.function;
        function.ret = Some(return_type);
        function.is_ret_result = true;
        NapiFnBuilder { function }
    }

    pub fn asynchronous(self, asynchronous: bool) -> (r: NapiFnBuilder)
        ensures
            r.function() == (NapiFn { is_async: asynchronous, ..self.function() }),
    {
        let mut function = self.function;
        function.is_async = asynchronous;
        NapiFnBuilder { function }
    }

    pub fn within_async_runtime(self, within_async_runtime: bool) -> (r: NapiFnBuilder)
        ensures
            r.function() == (NapiFn { within_async_runtime, ..self.function() }),
    {
        let mut function = self.function;
        function.within_async_runtime = within_async_runtime;
        NapiFnBuilder { function }
    }

    pub fn strict(self, strict: bool) -> (r: NapiFnBuilder)
        ensures
            r.function() == (NapiFn { strict, ..self.function() }),
    {
        let mut function = self.function;
        function.strict = strict;
        NapiFnBuilder { function }
    }

    /// Registers the function through the module-init hook instead of as an
    /// ordinary export.
    pub fn module_exports(self, module_exports: bool) -> (r: NapiFnBuilder)
        ensures
            r.function() == (NapiFn { module_exports, ..self.function() }),
    {
        let mut function = self.function;
        function.module_exports = module_exports;
        NapiFnBuilder { function }
    }

    pub fn skip_typescript(self, skip_typescript: bool) -> (r: NapiFnBuilder)
        ensures
            r.function() == (NapiFn { skip_typescript, ..self.function() }),
    {
        let mut function = self.function;
        function.skip_typescript = skip_typescript;
        NapiFnBuilder { function }
    }

    /// Keeps the function out of the registration table of the module.
    pub fn private(self, private: bool) -> (r: NapiFnBuilder)
        ensures
            r.function() == (NapiFn { no_export: private, ..self.function() }),
    {
        let mut function = self.function;
        function.no_export = private;
        NapiFnBuilder { function }
    }

    pub fn register_name(self, register_name: String) -> (r: NapiFnBuilder)
        ensures
            r.function() == (NapiFn { register_name, ..self.function() }),
    {
        let mut function = self.function;
        function.register_name = register_name;
        NapiFnBuilder { function }
    }

    pub fn pre_call(self, pre_call: String) -> (r: NapiFnBuilder)
        ensures
            r.function() == (NapiFn { pre_call, ..self.function() }),
    {
        let mut function = self.function;
        function.pre_call = pre_call;
        NapiFnBuilder { function }
    }

    pub fn leading_wrapper_args(self, count: usize) -> (r: NapiFnBuilder)
        ensures
            r.function() == (NapiFn { leading_wrapper_args: count, ..self.function() }),
    {
        let mut function = self.function;
        function.leading_wrapper_args = count;
        NapiFnBuilder { function }
    }

    pub fn build(self) -> (r: NapiFn)
        ensures
            r == self.function(),
    {
        self.function
    }
}

#[derive(Clone, Debug)]
pub struct NapiStruct {
    pub name: String,
    pub js_name: String,
    pub comments: Vec<String>,
    pub js_mod: Option<String>,
    pub use_nullable: bool,
    pub register_name: String,
    pub kind: NapiStructKind,
    pub has_lifetime: bool,
    pub is_generator: bool,
    pub is_async_generator: bool,
}

#[derive(Clone, Debug)]
pub enum NapiStructKind {
    Transparent(NapiTransparent),
    Class(NapiClass),
    Object(NapiObject),
    StructuredEnum(NapiStructuredEnum),
    Array(NapiArray),
}

#[derive(Clone, Debug)]
pub struct NapiTransparent {
    pub ty: String,
    pub object_from_js: bool,
    pub object_to_js: bool,
}

#[derive(Clone, Debug)]
pub struct NapiClass {
    pub fields: Vec<NapiStructField>,
    pub ctor: bool,
    pub implement_iterator: bool,
    pub implement_async_iterator: bool,
    pub is_tuple: bool,
    pub use_custom_finalize: bool,
}

#[derive(Clone, Debug)]
pub struct NapiObject {
    pub fields: Vec<NapiStructField>,
    pub object_from_js: bool,
    pub object_to_js: bool,
    pub is_tuple: bool,
}

#[derive(Clone, Debug)]
pub struct NapiArray {
    pub fields: Vec<NapiStructField>,
    pub object_from_js: bool,
    pub object_to_js: bool,
}

#[derive(Clone, Debug)]
pub struct NapiStructuredEnum {
    pub variants: Vec<NapiStructuredEnumVariant>,
    pub object_from_js: bool,
    pub object_to_js: bool,
    pub discriminant: String,
    pub discriminant_case: Option<convert_case::Case<'static>>,
}

#[derive(Clone, Debug)]
pub struct NapiStructuredEnumVariant {
    pub name: String,
    pub fields: Vec<NapiStructField>,
    pub is_tuple: bool,
}

#[derive(Clone, Debug)]
pub struct NapiStructField {
    pub name: String,
    pub js_name: String,
    pub ty: String,
    pub getter: bool,
    pub setter: bool,
    pub writable: bool,
    pub enumerable: bool,
    pub configurable: bool,
    pub comments: Vec<String>,
    pub skip_typescript: bool,
    pub ts_type: Option<String>,
    pub has_lifetime: bool,
}

#[derive(Clone, Debug)]
pub struct NapiImpl {
    pub name: String,
    pub js_name: String,
    pub has_lifetime: bool,
    pub items: Vec<NapiFn>,
    pub task_output_type: Option<String>,
    pub iterator_yield_type: Option<String>,
    pub iterator_next_type: Option<String>,
    pub iterator_return_type: Option<String>,
    pub async_iterator_yield_type: Option<String>,
    pub async_iterator_next_type: Option<String>,
    pub async_iterator_return_type: Option<String>,
    pub js_mod: Option<String>,
    pub comments: Vec<String>,
    pub register_name: String,
}

#[derive(Clone, Debug)]
pub struct NapiEnum {
    pub name: String,
    pub js_name: String,
    pub variants: Vec<NapiEnumVariant>,
    pub js_mod: Option<String>,
    pub comments: Vec<String>,
    pub skip_typescript: bool,
    pub register_name: String,
    pub is_string_enum: bool,
    pub object_from_js: bool,
    pub object_to_js: bool,
}

#[derive(Clone, Debug, PartialEq, Eq)]
pub enum NapiEnumValue {
    String(String),
    Number(i32),
}

impl From<&NapiEnumValue> for proc_macro2::Literal {
    /// The literal token of the value.
    fn from(val: &NapiEnumValue) -> (literal: proc_macro2::Literal) {
        match val {
            NapiEnumValue::String(string) => proc_macro2::Literal::string(string.as_str()),
            NapiEnumValue::Number(number) => proc_macro2::Literal::i32_unsuffixed(*number),
        }
    }
}

impl vstd::std_specs::convert::FromSpecImpl<&NapiEnumValue> for proc_macro2::Literal {
    open spec fn obeys_from_spec() -> bool {
        true
    }

    open spec fn from_spec(val: &NapiEnumValue) -> proc_macro2::Literal {
        match val {
            NapiEnumValue::String(string) => string_literal(string@),
            NapiEnumValue::Number(number) => number_literal(*number),
        }
    }
}

#[derive(Clone, Debug)]
pub struct NapiEnumVariant {
    pub name: String,
    pub val: NapiEnumValue,
    pub comments: Vec<String>,
}

#[derive(Clone, Debug)]
pub struct NapiConst {
    pub name: String,
    pub js_name: String,
    pub ty: String,
    pub value: String,
    pub js_mod: Option<String>,
    pub comments: Vec<String>,
    pub skip_typescript: bool,
    pub register_name: String,
}

#[derive(Clone, Debug)]
pub struct NapiMod {
    pub name: String,
    pub js_name: String,
}

#[derive(Clone, Debug)]
pub struct NapiType {
    pub name: String,
    pub js_name: String,
    pub value: String,
    pub register_name: String,
    pub skip_typescript: bool,
    pub js_mod: Option<String>,
    pub comments: Vec<String>,
}

} // verus!
