//! Errors of the engine and of the calls that it bridges.

use crate::family::{BigIntWords, FamilyPlanError, OperationKind};
use crate::number::Number;
use crate::text;
use vstd::prelude::*;
use vstd::string::StringExecFns;

verus! {

/// Where an error comes from.
#[derive(Clone, Copy, Debug, PartialEq, Eq, Structural)]
pub enum ErrorDomain {
    Declared,
    Validation,
    Backend,
    Panic,
}

impl ErrorDomain {
    /// The name that the script sees.
    pub open spec fn label(self) -> Seq<char> {
        match self {
            ErrorDomain::Declared => "declared"@,
            ErrorDomain::Validation => "validation"@,
            ErrorDomain::Backend => "backend"@,
            ErrorDomain::Panic => "panic"@,
        }
    }

    pub fn as_str(self) -> (name: &'static str)
        ensures
            name@ == self.label(),
    {
        match self {
            ErrorDomain::Declared => "declared",
            ErrorDomain::Validation => "validation",
            ErrorDomain::Backend => "backend",
            ErrorDomain::Panic => "panic",
        }
    }
}

/// Data that travels with an error.
#[derive(Debug, PartialEq)]
pub enum ErrorData {
    Null,
    Boolean(bool),
    Number(Number),
    BigInt(BigIntWords),
    String(String),
    Bytes(Vec<u8>),
    Sequence(Vec<ErrorData>),
    /// Named fields, each name once and in ascending order.
    Record(Vec<(String, ErrorData)>),
}

/// An error as the script receives it.
#[derive(Debug, PartialEq)]
pub struct BridgeErrorDescriptor {
    pub domain: ErrorDomain,
    pub error_name: String,
    pub variant: Option<String>,
    pub data: ErrorData,
    pub message: String,
    pub native_stack: Option<String>,
}

impl BridgeErrorDescriptor {
    /// The descriptor says just `message`, under this domain and name.
    pub open spec fn says(self, domain: ErrorDomain, name: Seq<char>, message: Seq<char>) -> bool {
        &&& self.domain == domain
        &&& self.error_name@ == name
        &&& self.variant is None
        &&& self.data matches ErrorData::String(text) && text@ == message
        &&& self.message@ == message
        &&& self.native_stack is None
    }

    pub fn validation(message: String) -> (r: BridgeErrorDescriptor)
        ensures
            r.says(ErrorDomain::Validation, "ValidationError"@, message@),
    {
        BridgeErrorDescriptor {
            domain: ErrorDomain::Validation,
            error_name: "ValidationError".to_owned(),
            variant: None,
            data: ErrorData::String(message.clone()),
            message,
            native_stack: None,
        }
    }

    pub fn backend(message: String) -> (r: BridgeErrorDescriptor)
        ensures
            r.says(ErrorDomain::Backend, "BackendError"@, message@),
    {
        BridgeErrorDescriptor {
            domain: ErrorDomain::Backend,
            error_name: "BackendError".to_owned(),
            variant: None,
            data: ErrorData::String(message.clone()),
            message,
            native_stack: None,
        }
    }
}

/// What a bridged call comes to.
#[derive(Debug, PartialEq)]
pub enum OhosCallResult<T> {
    Value(T),
    Error(BridgeErrorDescriptor),
}

impl<T> OhosCallResult<T> {
    /// The discriminant that the script sees.
    pub fn kind(&self) -> (kind: &'static str)
        ensures
            kind@ == match *self {
                OhosCallResult::Value(_) => "value"@,
                OhosCallResult::Error(_) => "error"@,
            },
    {
        match self {
            OhosCallResult::Value(_) => "value",
            OhosCallResult::Error(_) => "error",
        }
    }
}

/// A small, host-neutral error that is carried through a session.
#[derive(Debug, PartialEq, Eq)]
pub struct OhosError {
    message: String,
}

impl View for OhosError {
    type V = Seq<char>;

    closed spec fn view(&self) -> Seq<char> {
        self.message@
    }
}

impl OhosError {
    pub fn new(message: &str) -> (r: OhosError)
        ensures
            r@ == message@,
    {
        OhosError { message: message.to_owned() }
    }

    pub fn message(&self) -> (message: &str)
        ensures
            message@ == self@,
    {
        self.message.as_str()
    }
}

impl Clone for OhosError {
    fn clone(&self) -> (r: OhosError)
        ensures
            r == *self,
    {
        OhosError { message: self.message.clone() }
    }
}

/// Why the engine refuses a plan or an invocation.
#[allow(inconsistent_fields)]
#[derive(Clone, Debug, PartialEq, Eq)]
pub enum OhosEngineError {
    FamilyPlan(FamilyPlanError),
    DuplicateRustOperation { id: u32 },
    OperationCount { expected: usize, actual: usize },
    TooManyOperations,
    MissingRustOperation { id: u32 },
    ArgumentCount { operation_id: u32, expected: usize, actual: usize },
    DuplicateRustArgument { operation_id: u32, name: String },
    InvalidArgumentBinding { operation_id: u32, argument: usize, expected: &'static str },
    InvalidReturnBinding { operation_id: u32, expected: &'static str },
    InvalidResourceResult { operation_id: u32 },
    InvalidStructuredBinding { operation_id: u32, argument: usize, role: &'static str },
    MissingErrorDescriptor { operation_id: u32 },
    UnexpectedErrorDescriptor { operation_id: u32 },
    InvalidOperationTarget { operation_id: u32, kind: OperationKind },
    HostOperationHasRustBindings { operation_id: u32 },
    HostOperationHasStructuredUseSites { operation_id: u32 },
    MissingReceiver { operation_id: u32 },
    UnexpectedReceiver { operation_id: u32 },
    InvalidValueReceiver { operation_id: u32 },
    InvalidResourceReceiver { operation_id: u32 },
    MissingStructuredUseSite { operation_id: u32, argument: usize, role: &'static str },
    MissingResourceHook { role: &'static str },
    NonDenseOperation { expected: u32, actual: u32 },
    DispatchMismatch { operation_id: u32 },
    UnknownOperation { operation_id: u32 },
    Closed,
    Host(OhosError),
    ReentrancyForbidden { callback_type: u32, callback_id: u32 },
    InvalidValue { expected: &'static str },
    Codegen(String),
}

/// A text followed by a number.
pub open spec fn labelled(head: Seq<char>, number: int) -> Seq<char> {
    head + text::decimal(number)
}

/// Two texts, each followed by a number.
pub open spec fn labelled_twice(head: Seq<char>, first: int, middle: Seq<char>, second: int) -> Seq<
    char,
> {
    head + text::decimal(first) + middle + text::decimal(second)
}

/// A text with a number in it.
pub open spec fn numbered(head: Seq<char>, number: int, tail: Seq<char>) -> Seq<char> {
    labelled(head, number) + tail
}

/// A text with two numbers in it.
pub open spec fn numbered_twice(
    head: Seq<char>,
    first: int,
    middle: Seq<char>,
    second: int,
    tail: Seq<char>,
) -> Seq<char> {
    labelled_twice(head, first, middle, second) + tail
}

fn write_labelled(head: &str, number: u64) -> (r: String)
    ensures
        r@ == labelled(head@, number as int),
{
    let mut out: String = head.to_owned();
    text::push_decimal(&mut out, number);
    out
}

fn write_labelled_twice(head: &str, first: u64, middle: &str, second: u64) -> (r: String)
    ensures
        r@ == labelled_twice(head@, first as int, middle@, second as int),
{
    let mut out: String = write_labelled(head, first);
    out.append(middle);
    text::push_decimal(&mut out, second);
    out
}

fn write_numbered(head: &str, number: u64, tail: &str) -> (r: String)
    ensures
        r@ == numbered(head@, number as int, tail@),
{
    let mut out: String = write_labelled(head, number);
    out.append(tail);
    out
}

fn write_numbered_twice(head: &str, first: u64, middle: &str, second: u64, tail: &str) -> (r: String)
    ensures
        r@ == numbered_twice(head@, first as int, middle@, second as int, tail@),
{
    let mut out: String = write_labelled_twice(head, first, middle, second);
    out.append(tail);
    out
}

impl OhosEngineError {
    /// What the error says to a reader.
    pub open spec fn text(self) -> Seq<char> {
        match self {
            OhosEngineError::FamilyPlan(error) => error.message@,
            OhosEngineError::DuplicateRustOperation { id } => labelled("duplicate Rust operation ID "@, id as int),
            OhosEngineError::OperationCount { expected, actual } => labelled_twice("OHOS operation table requires "@, expected as int, " entries, found "@, actual as int),
            OhosEngineError::TooManyOperations => "OHOS operation table exceeds u32"@,
            OhosEngineError::MissingRustOperation { id } => labelled("missing Rust operation ID "@, id as int),
            OhosEngineError::ArgumentCount { operation_id, expected, actual } => numbered_twice(
                "operation "@,
                operation_id as int,
                " has "@,
                actual as int,
                " Rust arguments; bridge requires "@,
            ) + text::decimal(expected as int),
            OhosEngineError::DuplicateRustArgument { operation_id, name } => numbered(
                "operation "@,
                operation_id as int,
                " repeats Rust argument name "@,
            ) + text::debug_text(name@),
            OhosEngineError::InvalidArgumentBinding { operation_id, argument, expected } =>
                numbered_twice(
                "operation "@,
                operation_id as int,
                " argument "@,
                argument as int,
                " requires "@,
            ) + expected@,
            OhosEngineError::InvalidReturnBinding { operation_id, expected } => numbered(
                "operation "@,
                operation_id as int,
                " return requires "@,
            ) + expected@,
            OhosEngineError::InvalidResourceResult { operation_id } => numbered(
                "operation "@,
                operation_id as int,
                " has an incompatible resource result binding"@,
            ),
            OhosEngineError::InvalidStructuredBinding { operation_id, argument, role } =>
                numbered_twice(
                "operation "@,
                operation_id as int,
                " argument "@,
                argument as int,
                " requires a structured "@,
            ) + role@ + " binding"@,
            OhosEngineError::MissingErrorDescriptor { operation_id } => numbered(
                "fallible operation "@,
                operation_id as int,
                " has no error descriptor mapper"@,
            ),
            OhosEngineError::UnexpectedErrorDescriptor { operation_id } => numbered(
                "infallible operation "@,
                operation_id as int,
                " unexpectedly has an error descriptor mapper"@,
            ),
            OhosEngineError::InvalidOperationTarget { operation_id, kind } => numbered(
                "operation "@,
                operation_id as int,
                " has a Rust target incompatible with "@,
            ) + kind.label(),
            OhosEngineError::HostOperationHasRustBindings { operation_id } => numbered(
                "host operation "@,
                operation_id as int,
                " must not contain Rust call arguments or a receiver"@,
            ),
            OhosEngineError::HostOperationHasStructuredUseSites { operation_id } => numbered(
                "host operation "@,
                operation_id as int,
                " must not contain callback or stream use-sites"@,
            ),
            OhosEngineError::MissingReceiver { operation_id } => numbered(
                "operation "@,
                operation_id as int,
                " has no receiver"@,
            ),
            OhosEngineError::UnexpectedReceiver { operation_id } => numbered(
                "operation "@,
                operation_id as int,
                " unexpectedly has a receiver"@,
            ),
            OhosEngineError::InvalidValueReceiver { operation_id } => numbered(
                "value operation "@,
                operation_id as int,
                " requires a direct value receiver binding"@,
            ),
            OhosEngineError::InvalidResourceReceiver { operation_id } => numbered(
                "resource operation "@,
                operation_id as int,
                " requires a structured resource receiver"@,
            ),
            OhosEngineError::MissingStructuredUseSite { operation_id, argument, role } =>
                numbered_twice(
                "operation "@,
                operation_id as int,
                " argument "@,
                argument as int,
                " has no structured "@,
            ) + role@ + " use-site contract"@,
            OhosEngineError::MissingResourceHook { role } =>
                "OHOS bridge plan has no structured "@ + role@ + " hook"@,
            OhosEngineError::NonDenseOperation { expected, actual } => labelled_twice("OHOS operation table is not dense: expected "@, expected as int, ", found "@, actual as int),
            OhosEngineError::DispatchMismatch { operation_id } => numbered(
                "OHOS operation "@,
                operation_id as int,
                " dispatch does not match family plan"@,
            ),
            OhosEngineError::UnknownOperation { operation_id } => labelled("unknown OHOS operation "@, operation_id as int),
            OhosEngineError::Closed => "OHOS backend session is closed"@,
            OhosEngineError::Host(error) => "OHOS host error: "@ + error@,
            OhosEngineError::ReentrancyForbidden { callback_type, callback_id } => numbered_twice(
                "callback "@,
                callback_type as int,
                ":"@,
                callback_id as int,
                " is already active and forbids reentrancy"@,
            ),
            OhosEngineError::InvalidValue { expected } => "expected "@ + expected@,
            OhosEngineError::Codegen(error) => "OHOS N-API codegen failed: "@ + error@,
        }
    }

    /// What the error says to a reader.
    pub fn message(&self) -> (r: String)
        ensures
            r@ == self.text(),
    {
        match self {
            OhosEngineError::FamilyPlan(error) => error.message.clone(),
            OhosEngineError::DuplicateRustOperation { id } => write_labelled("duplicate Rust operation ID ", *id as u64),
            OhosEngineError::OperationCount { expected, actual } => write_labelled_twice("OHOS operation table requires ", *expected as u64, " entries, found ", *actual as u64),
            OhosEngineError::TooManyOperations => "OHOS operation table exceeds u32".to_owned(),
            OhosEngineError::MissingRustOperation { id } => write_labelled("missing Rust operation ID ", *id as u64),
            OhosEngineError::ArgumentCount { operation_id, expected, actual } => {
                let mut out: String = write_numbered_twice(
                    "operation ",
                    *operation_id as u64,
                    " has ",
                    *actual as u64,
                    " Rust arguments; bridge requires ",
                );
                text::push_decimal(&mut out, *expected as u64);
                out
            },
            OhosEngineError::DuplicateRustArgument { operation_id, name } => {
                let mut out: String = write_numbered(
                    "operation ",
                    *operation_id as u64,
                    " repeats Rust argument name ",
                );
                let name: String = text::quoted(name.as_str());
                out.append(name.as_str());
                out
            },
            OhosEngineError::InvalidArgumentBinding { operation_id, argument, expected } => {
                let mut out: String = write_numbered_twice(
                    "operation ",
                    *operation_id as u64,
                    " argument ",
                    *argument as u64,
                    " requires ",
                );
                out.append(*expected);
                out
            },
            OhosEngineError::InvalidReturnBinding { operation_id, expected } => {
                let mut out: String = write_numbered(
                    "operation ",
                    *operation_id as u64,
                    " return requires ",
                );
                out.append(*expected);
                out
            },
            OhosEngineError::InvalidResourceResult { operation_id } => write_numbered(
                "operation ",
                *operation_id as u64,
                " has an incompatible resource result binding",
            ),
            OhosEngineError::InvalidStructuredBinding { operation_id, argument, role } => {
                let mut out: String = write_numbered_twice(
                    "operation ",
                    *operation_id as u64,
                    " argument ",
                    *argument as u64,
                    " requires a structured ",
                );
                out.append(*role);
                out.append(" binding");
                out
            },
            OhosEngineError::MissingErrorDescriptor { operation_id } => write_numbered(
                "fallible operation ",
                *operation_id as u64,
                " has no error descriptor mapper",
            ),
            OhosEngineError::UnexpectedErrorDescriptor { operation_id } => write_numbered(
                "infallible operation ",
                *operation_id as u64,
                " unexpectedly has an error descriptor mapper",
            ),
            OhosEngineError::InvalidOperationTarget { operation_id, kind } => {
                let mut out: String = write_numbered(
                    "operation ",
                    *operation_id as u64,
                    " has a Rust target incompatible with ",
                );
                out.append(kind.name());
                out
            },
            OhosEngineError::HostOperationHasRustBindings { operation_id } => write_numbered(
                "host operation ",
                *operation_id as u64,
                " must not contain Rust call arguments or a receiver",
            ),
            OhosEngineError::HostOperationHasStructuredUseSites { operation_id } => write_numbered(
                "host operation ",
                *operation_id as u64,
                " must not contain callback or stream use-sites",
            ),
            OhosEngineError::MissingReceiver { operation_id } => write_numbered(
                "operation ",
                *operation_id as u64,
                " has no receiver",
            ),
            OhosEngineError::UnexpectedReceiver { operation_id } => write_numbered(
                "operation ",
                *operation_id as u64,
                " unexpectedly has a receiver",
            ),
            OhosEngineError::InvalidValueReceiver { operation_id } => write_numbered(
                "value operation ",
                *operation_id as u64,
                " requires a direct value receiver binding",
            ),
            OhosEngineError::InvalidResourceReceiver { operation_id } => write_numbered(
                "resource operation ",
                *operation_id as u64,
                " requires a structured resource receiver",
            ),
            OhosEngineError::MissingStructuredUseSite { operation_id, argument, role } => {
                let mut out: String = write_numbered_twice(
                    "operation ",
                    *operation_id as u64,
                    " argument ",
                    *argument as u64,
                    " has no structured ",
                );
                out.append(*role);
                out.append(" use-site contract");
                out
            },
            OhosEngineError::MissingResourceHook { role } => {
                let mut out: String = "OHOS bridge plan has no structured ".to_owned();
                out.append(*role);
                out.append(" hook");
                out
            },
            OhosEngineError::NonDenseOperation { expected, actual } => write_labelled_twice("OHOS operation table is not dense: expected ", *expected as u64, ", found ", *actual as u64),
            OhosEngineError::DispatchMismatch { operation_id } => write_numbered(
                "OHOS operation ",
                *operation_id as u64,
                " dispatch does not match family plan",
            ),
            OhosEngineError::UnknownOperation { operation_id } => write_labelled("unknown OHOS operation ", *operation_id as u64),
            OhosEngineError::Closed => "OHOS backend session is closed".to_owned(),
            OhosEngineError::Host(error) => {
                let mut out: String = "OHOS host error: ".to_owned();
                out.append(error.message());
                out
            },
            OhosEngineError::ReentrancyForbidden { callback_type, callback_id } =>
                write_numbered_twice(
                "callback ",
                *callback_type as u64,
                ":",
                *callback_id as u64,
                " is already active and forbids reentrancy",
            ),
            OhosEngineError::InvalidValue { expected } => {
                let mut out: String = "expected ".to_owned();
                out.append(*expected);
                out
            },
            OhosEngineError::Codegen(error) => {
                let mut out: String = "OHOS N-API codegen failed: ".to_owned();
                out.append(error.as_str());
                out
            },
        }
    }
}

impl From<OhosError> for OhosEngineError {
    fn from(error: OhosError) -> (r: OhosEngineError) {
        OhosEngineError::Host(error)
    }
}

impl vstd::std_specs::convert::FromSpecImpl<OhosError> for OhosEngineError {
    open spec fn obeys_from_spec() -> bool {
        true
    }

    open spec fn from_spec(error: OhosError) -> OhosEngineError {
        OhosEngineError::Host(error)
    }
}

} // verus!
