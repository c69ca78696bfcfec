//! What users are told: numbers read back as they were, every error names what is at
//! fault, and the facade is refused for what is wrong with it.

use crate::error::{BridgeErrorDescriptor, ErrorData, ErrorDomain, OhosEngineError};
use crate::facade;
use crate::facade::{EntryKind, FacadeEntries, FacadeError, PublicFacade};
use crate::family::OperationKind;
use crate::number::{Number, SIGN_BIT};
use crate::text;
use vstd::prelude::*;

verus! {

// ---- Numbers ----

/// What a row of digits stands for.
pub open spec fn read(digits: Seq<char>) -> int
    decreases digits.len(),
{
    if digits.len() == 0 {
        0
    } else {
        10 * read(digits.drop_last()) + (digits.last() as int - '0' as int)
    }
}

/// A number in decimal notation reads back as that number, is made of digits only,
/// and has no leading zero unless it is zero.
pub proof fn decimal_reads_back(n: int)
    requires
        0 <= n,
    ensures
        read(text::decimal(n)) == n,
        text::decimal(n).len() > 0,
        forall|i: int|
            0 <= i < text::decimal(n).len() ==> '0' as int <= (#[trigger] text::decimal(n)[i]) as int
                <= '9' as int,
        n > 0 ==> text::decimal(n)[0] != '0',
        n == 0 ==> text::decimal(n).len() == 1,
    decreases n,
{
    if n < 10 {
        text::lemma_digit(n);
        let digits = text::decimal(n);
        assert(digits.drop_last() =~= Seq::empty());
        assert(read(digits.drop_last()) == 0);
        assert(digits.last() == digits[0]);
    } else {
        decimal_reads_back(n / 10);
        text::lemma_digit(n % 10);
        let head = text::decimal(n / 10);
        let digits = text::decimal(n);
        assert(digits.drop_last() =~= head);
        assert(digits.last() == text::digit(n % 10)[0]);
        assert(digits[0] == head[0]);
        assert forall|i: int| 0 <= i < digits.len() implies '0' as int <= (
        #[trigger] digits[i]) as int <= '9' as int by {
            if i < head.len() {
                assert(digits[i] == head[i]);
            }
        }
    }
}

/// A number that denotes an integer is cut down to that very integer.
pub proof fn denoted_integer_is_its_floor(n: Number, k: u32)
    requires
        n.denotes(k as int),
    ensures
        n.floors_to(k),
        n.floor() == k,
        n.non_negative(),
{
    n.lemma_denoted_is_floor(k);
    crate::number::floor_is_unique(n, k);
}

/// Comparing numbers is symmetric, and every number but NaN equals itself.
pub proof fn comparison_is_symmetric(a: Number, b: Number)
    ensures
        a.ieee_eq(b) == b.ieee_eq(a),
        !a.nan() ==> a.ieee_eq(a),
        a.nan() ==> !a.ieee_eq(b),
        a.ieee_eq(b) ==> a.non_negative() == b.non_negative(),
{
}

/// A number below the sign bit is not negative unless it is NaN; one with the sign
/// bit is not negative only where it is zero.
pub proof fn sign_decides(n: Number)
    ensures
        n.nan() ==> !n.non_negative(),
        !n.nan() && n.bits < SIGN_BIT ==> n.non_negative(),
        n.bits >= SIGN_BIT && n.non_negative() ==> n.significand() == 0 && n.finite(),
        n.bits >= SIGN_BIT && n.finite() && n.significand() == 0 ==> n.non_negative(),
{
}

// ---- Engine errors ----

/// An error about one operation says its number and what is wrong with it.
pub proof fn operation_errors_name_their_operation(id: u32)
    ensures
        ({
            let n = text::decimal(id as int);
            &&& (OhosEngineError::DuplicateRustOperation { id }).text()
                == "duplicate Rust operation ID "@ + n
            &&& (OhosEngineError::MissingRustOperation { id }).text()
                == "missing Rust operation ID "@ + n
            &&& (OhosEngineError::UnknownOperation { operation_id: id }).text()
                == "unknown OHOS operation "@ + n
            &&& (OhosEngineError::InvalidResourceResult { operation_id: id }).text()
                == "operation "@ + n + " has an incompatible resource result binding"@
            &&& (OhosEngineError::MissingErrorDescriptor { operation_id: id }).text()
                == "fallible operation "@ + n + " has no error descriptor mapper"@
            &&& (OhosEngineError::UnexpectedErrorDescriptor { operation_id: id }).text()
                == "infallible operation "@ + n + " unexpectedly has an error descriptor mapper"@
            &&& (OhosEngineError::HostOperationHasRustBindings { operation_id: id }).text()
                == "host operation "@ + n + " must not contain Rust call arguments or a receiver"@
            &&& (OhosEngineError::HostOperationHasStructuredUseSites { operation_id: id }).text()
                == "host operation "@ + n + " must not contain callback or stream use-sites"@
            &&& (OhosEngineError::MissingReceiver { operation_id: id }).text() == "operation "@ + n
                + " has no receiver"@
            &&& (OhosEngineError::UnexpectedReceiver { operation_id: id }).text() == "operation "@
                + n + " unexpectedly has a receiver"@
            &&& (OhosEngineError::InvalidValueReceiver { operation_id: id }).text()
                == "value operation "@ + n + " requires a direct value receiver binding"@
            &&& (OhosEngineError::InvalidResourceReceiver { operation_id: id }).text()
                == "resource operation "@ + n + " requires a structured resource receiver"@
            &&& (OhosEngineError::DispatchMismatch { operation_id: id }).text()
                == "OHOS operation "@ + n + " dispatch does not match family plan"@
        }),
{
}

/// An error about an argument says the operation first and then the argument.
pub proof fn argument_errors_name_their_argument(
    operation_id: u32,
    argument: usize,
    expected: &'static str,
    role: &'static str,
)
    ensures
        ({
            let n = text::decimal(operation_id as int);
            let a = text::decimal(argument as int);
            &&& (OhosEngineError::InvalidArgumentBinding {
                operation_id,
                argument,
                expected,
            }).text() == "operation "@ + n + " argument "@ + a + " requires "@ + expected@
            &&& (OhosEngineError::InvalidStructuredBinding { operation_id, argument, role }).text()
                == "operation "@ + n + " argument "@ + a + " requires a structured "@ + role@
                + " binding"@
            &&& (OhosEngineError::MissingStructuredUseSite { operation_id, argument, role }).text()
                == "operation "@ + n + " argument "@ + a + " has no structured "@ + role@
                + " use-site contract"@
            &&& (OhosEngineError::InvalidReturnBinding { operation_id, expected }).text()
                == "operation "@ + n + " return requires "@ + expected@
            &&& (OhosEngineError::MissingResourceHook { role }).text()
                == "OHOS bridge plan has no structured "@ + role@ + " hook"@
            &&& (OhosEngineError::InvalidValue { expected }).text() == "expected "@ + expected@
        }),
{
}

/// An error about two numbers says which one was required and which was found.
pub proof fn count_errors_tell_required_from_found(
    operation_id: u32,
    expected: usize,
    actual: usize,
    required: u32,
    found: u32,
)
    ensures
        (OhosEngineError::OperationCount { expected, actual }).text()
            == "OHOS operation table requires "@ + text::decimal(expected as int)
            + " entries, found "@ + text::decimal(actual as int),
        (OhosEngineError::ArgumentCount { operation_id, expected, actual }).text() == "operation "@
            + text::decimal(operation_id as int) + " has "@ + text::decimal(actual as int)
            + " Rust arguments; bridge requires "@ + text::decimal(expected as int),
        (OhosEngineError::NonDenseOperation { expected: required, actual: found }).text()
            == "OHOS operation table is not dense: expected "@ + text::decimal(required as int)
            + ", found "@ + text::decimal(found as int),
        (OhosEngineError::ReentrancyForbidden {
            callback_type: required,
            callback_id: found,
        }).text() == "callback "@ + text::decimal(required as int) + ":"@ + text::decimal(
            found as int,
        ) + " is already active and forbids reentrancy"@,
        OhosEngineError::TooManyOperations.text() == "OHOS operation table exceeds u32"@,
        OhosEngineError::Closed.text() == "OHOS backend session is closed"@,
{
}

/// An error that hands on what another one says repeats it word for word.
pub proof fn handed_on_errors_repeat_their_cause(e: OhosEngineError)
    ensures
        e matches OhosEngineError::FamilyPlan(cause) ==> e.text() == cause.message@,
        e matches OhosEngineError::Host(cause) ==> e.text() == "OHOS host error: "@ + cause@,
        e matches OhosEngineError::Codegen(cause) ==> e.text() == "OHOS N-API codegen failed: "@
            + cause@,
        e matches OhosEngineError::DuplicateRustArgument { operation_id, name } ==> e.text()
            == "operation "@ + text::decimal(operation_id as int)
            + " repeats Rust argument name "@ + text::debug_text(name@),
        e matches OhosEngineError::InvalidOperationTarget { operation_id, kind } ==> e.text()
            == "operation "@ + text::decimal(operation_id as int)
            + " has a Rust target incompatible with "@ + (match kind {
            OperationKind::Function => "Function"@,
            OperationKind::Method => "Method"@,
            OperationKind::CallbackMethod => "CallbackMethod"@,
            OperationKind::InputStreamPull => "InputStreamPull"@,
            OperationKind::InputStreamCancel => "InputStreamCancel"@,
            OperationKind::OutputStreamStart => "OutputStreamStart"@,
            OperationKind::OutputStreamNext => "OutputStreamNext"@,
            OperationKind::OutputStreamCancel => "OutputStreamCancel"@,
        }),
{
}

/// The script sees each domain under its own name.
pub proof fn domains_are_seen_by_name(domain: ErrorDomain)
    ensures
        domain.label() == match domain {
            ErrorDomain::Declared => "declared"@,
            ErrorDomain::Validation => "validation"@,
            ErrorDomain::Backend => "backend"@,
            ErrorDomain::Panic => "panic"@,
        },
{
}

/// A descriptor that says a message carries it both as its message and as its data,
/// and nothing else.
pub proof fn descriptor_says_its_message_twice(
    descriptor: BridgeErrorDescriptor,
    domain: ErrorDomain,
    name: Seq<char>,
    message: Seq<char>,
)
    requires
        descriptor.says(domain, name, message),
    ensures
        descriptor.domain == domain,
        descriptor.error_name@ == name,
        descriptor.message@ == message,
        descriptor.data matches ErrorData::String(text) && text@ == message,
        descriptor.variant is None,
        descriptor.native_stack is None,
{
}

/// A failed validation and a failed backend go under their own domains and names.
pub proof fn failures_go_under_their_names(message: String, r: BridgeErrorDescriptor)
    ensures
        call_ensures(BridgeErrorDescriptor::validation, (message,), r) ==> r.domain
            == ErrorDomain::Validation && r.error_name@ == "ValidationError"@ && r.message@
            == message@,
        call_ensures(BridgeErrorDescriptor::backend, (message,), r) ==> r.domain
            == ErrorDomain::Backend && r.error_name@ == "BackendError"@ && r.message@ == message@,
{
}

// ---- The facade ----

/// A facade directory is accepted exactly where both files are ordinary files, and
/// refused by the first thing that is wrong.
pub proof fn facade_is_refused_for_what_is_wrong(
    source_dir: Seq<char>,
    is_dir: bool,
    entries: FacadeEntries,
)
    ensures
        !is_dir ==> facade::source_fault(source_dir, is_dir, entries) == Some(
            "public facade directory does not exist or is not a directory: "@ + source_dir,
        ),
        is_dir && entries.index.kind != EntryKind::File ==> facade::source_fault(
            source_dir,
            is_dir,
            entries,
        ) == Some(
            "public facade requires "@ + "Index.ets"@ + " as an ordinary file: "@
                + entries.index.path@,
        ),
        is_dir && entries.index.kind == EntryKind::File && entries.declaration.kind
            != EntryKind::File ==> facade::source_fault(source_dir, is_dir, entries) == Some(
            "public facade requires "@ + "Index.d.ets"@ + " as an ordinary file: "@
                + entries.declaration.path@,
        ),
        is_dir && entries.index.kind == EntryKind::File && entries.declaration.kind
            == EntryKind::File ==> facade::source_fault(source_dir, is_dir, entries) is None,
{
}

/// A destination is accepted exactly where neither file is there in any form, and
/// refused by the first one that is.
pub proof fn destination_is_refused_for_what_is_there(entries: FacadeEntries)
    ensures
        entries.index.kind != EntryKind::Missing ==> facade::destination_fault(entries) == Some(
            "public facade destination conflict: "@ + entries.index.path@
                + " already exists; choose an empty dist or remove the existing facade"@,
        ),
        entries.index.kind == EntryKind::Missing && entries.declaration.kind != EntryKind::Missing
            ==> facade::destination_fault(entries) == Some(
            "public facade destination conflict: "@ + entries.declaration.path@
                + " already exists; choose an empty dist or remove the existing facade"@,
        ),
        entries.index.kind == EntryKind::Missing && entries.declaration.kind == EntryKind::Missing
            ==> facade::destination_fault(entries) is None,
{
}

/// Both files are published, the script before its declarations.
pub proof fn both_files_are_published()
    ensures
        facade::facade_names() == seq!["Index.ets"@, "Index.d.ets"@],
{
}

/// A failed copy names the source before the destination.
pub proof fn failed_copy_names_both_paths(source: &str, destination: &str, e: FacadeError)
    requires
        call_ensures(facade::copy_failed, (source, destination), e),
    ensures
        e@ == "copy public facade "@ + source@ + " to "@ + destination@ + " failed"@,
{
}

/// A facade describes one package: with several it is refused, and without a facade
/// any number will do.
pub proof fn facade_is_for_one_package(
    facade: Option<&PublicFacade>,
    package_count: usize,
    r: Result<(), FacadeError>,
)
    requires
        call_ensures(facade::validate_workspace_selection, (facade, package_count), r),
    ensures
        facade is None ==> r is Ok,
        package_count <= 1 ==> r is Ok,
        facade is Some && package_count > 1 ==> (r matches Err(e) && e@
            == "--public-facade-dir is ambiguous for a workspace build selecting "@ + text::decimal(
            package_count as int,
        ) + " packages; pass --package to select exactly one package"@),
{
}

} // verus!
