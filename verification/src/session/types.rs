//! Plain values of the session boundary: handles of the script runtime,
//! operation descriptors and session errors.

use crate::text;
use vstd::prelude::*;
use vstd::string::StringExecFns;

verus! {

/// A value of the script runtime, valid while the current call runs.
#[derive(Clone, Copy, Debug, PartialEq, Eq, Structural)]
pub struct JsValue {
    pub handle: u64,
}

/// A strong reference that keeps a script value alive between calls.
#[derive(Clone, Copy, Debug, PartialEq, Eq, Structural)]
pub struct JsRef {
    pub handle: u64,
}

/// The resolver of a promise that the session created.
#[derive(Clone, Copy, Debug, PartialEq, Eq, Structural)]
pub struct JsDeferred {
    pub handle: u64,
}

/// A running close deadline.
#[derive(Clone, Copy, Debug, PartialEq, Eq, Structural)]
pub struct JsTimer {
    pub handle: u64,
}

/// A scheduler that runs the release of callbacks on the script thread.
#[derive(Clone, Copy, Debug, PartialEq, Eq, Structural)]
pub struct JsScheduler {
    pub handle: u64,
}

/// What `typeof` says of a script value, with `null` told apart.
#[derive(Clone, Copy, Debug, PartialEq, Eq, Structural)]
pub enum JsType {
    Undefined,
    Null,
    Boolean,
    Number,
    Text,
    Symbol,
    Object,
    Function,
    External,
    BigInt,
}

#[derive(Clone, Copy, Debug, PartialEq, Eq, Structural)]
pub enum SessionStatus {
    InvalidArg,
    GenericFailure,
    /// A status code that the runtime reported itself.
    Runtime(i32),
}

/// An error of the session boundary: a status and a reason for the caller.
#[derive(Debug)]
pub struct SessionError {
    pub status: SessionStatus,
    pub reason: String,
}

impl SessionError {
    pub open spec fn is(self, status: SessionStatus, reason: Seq<char>) -> bool {
        self.status == status && self.reason@ == reason
    }

    pub fn invalid(reason: &str) -> (e: SessionError)
        ensures
            e.is(SessionStatus::InvalidArg, reason@),
    {
        SessionError { status: SessionStatus::InvalidArg, reason: reason.to_owned() }
    }

    pub fn failure(reason: &str) -> (e: SessionError)
        ensures
            e.is(SessionStatus::GenericFailure, reason@),
    {
        SessionError { status: SessionStatus::GenericFailure, reason: reason.to_owned() }
    }

    /// An invalid-argument error whose reason is two texts joined.
    pub fn invalid_joined(head: &str, tail: &str) -> (e: SessionError)
        ensures
            e.is(SessionStatus::InvalidArg, head@ + tail@),
    {
        let mut reason: String = head.to_owned();
        reason.append(tail);
        SessionError { status: SessionStatus::InvalidArg, reason }
    }

    /// An invalid-argument error whose reason ends in a number.
    pub fn invalid_number(head: &str, number: u64) -> (e: SessionError)
        ensures
            e.is(SessionStatus::InvalidArg, head@ + text::decimal(number as int)),
    {
        let mut reason: String = head.to_owned();
        text::push_decimal(&mut reason, number);
        SessionError { status: SessionStatus::InvalidArg, reason }
    }

    /// An invalid-argument error with a number between two texts.
    pub fn invalid_numbered(head: &str, number: u64, tail: &str) -> (e: SessionError)
        ensures
            e.is(SessionStatus::InvalidArg, head@ + text::decimal(number as int) + tail@),
    {
        let mut reason: String = head.to_owned();
        text::push_decimal(&mut reason, number);
        reason.append(tail);
        SessionError { status: SessionStatus::InvalidArg, reason }
    }
}

#[derive(Clone, Copy, Debug, PartialEq, Eq, Structural)]
pub enum SessionCallbackRetention {
    Scoped,
    Retained,
}

#[derive(Clone, Copy, Debug, PartialEq, Eq, Structural)]
pub enum SessionCallbackThreading {
    CallingThread,
    MayCrossThread,
}

#[derive(Clone, Copy, Debug, PartialEq, Eq, Structural)]
pub enum SessionCallbackErrorStyle {
    Infallible,
    Fallible,
}

/// Whether a host callback may be entered again before its current invocation
/// has returned.
#[derive(Clone, Copy, Debug, PartialEq, Eq, Structural)]
pub enum SessionCallbackReentrancy {
    Allowed,
    Forbidden,
}

#[derive(Clone, Copy, Debug, PartialEq, Eq, Structural)]
pub enum SessionStreamDirection {
    Input,
    Output,
}

#[derive(Clone, Copy, Debug, PartialEq, Eq, Structural)]
pub enum SessionResourceReceiver {
    Object,
    InputStream,
    OutputStream,
}

/// What the first argument of an operation stands for. A value receiver is an
/// ordinary argument; a resource receiver is a leased handle.
#[derive(Clone, Copy, Debug, PartialEq, Eq, Structural)]
pub enum SessionReceiver {
    Value,
    Resource(SessionResourceReceiver),
}

#[derive(Clone, Copy, Debug, PartialEq, Eq, Structural)]
pub enum SessionResourceOwnership {
    Owned,
    Borrowed,
    ByArc,
}

#[derive(Clone, Copy, Debug, PartialEq, Eq, Structural)]
pub enum SessionOperationDispatch {
    NativeSync,
    NativeAsync,
    CallbackHostSync { callback_type_id: u32, method_id: u32, error_style: SessionCallbackErrorStyle },
    CallbackHostAsync { callback_type_id: u32, method_id: u32, error_style: SessionCallbackErrorStyle },
    InputStreamHostPull,
    InputStreamHostCancel,
}

impl SessionOperationDispatch {
    /// Operations that settle through a promise.
    pub open spec fn settles_later(self) -> bool {
        !(self is NativeSync || self is CallbackHostSync)
    }

    /// Operations that run an embedded native function.
    pub open spec fn native(self) -> bool {
        self is NativeSync || self is NativeAsync
    }

    pub fn is_async(&self) -> (r: bool)
        ensures
            r == self.settles_later(),
    {
        match self {
            SessionOperationDispatch::NativeSync => false,
            SessionOperationDispatch::CallbackHostSync { .. } => false,
            _ => true,
        }
    }

    pub fn is_native(&self) -> (r: bool)
        ensures
            r == self.native(),
    {
        match self {
            SessionOperationDispatch::NativeSync | SessionOperationDispatch::NativeAsync => true,
            _ => false,
        }
    }
}

#[derive(Clone, Copy, Debug, PartialEq, Eq, Structural)]
pub enum SessionNativeCall {
    ArgumentsOnly,
    HostAndArguments,
}

/// One step of a use-site path into an argument list or a result.
#[derive(Debug)]
pub enum SessionValuePathSegment {
    Argument(u32),
    Return,
    Field(String),
    Variant(String),
    Optional,
    SequenceElement,
    MapKey,
    MapValue,
    SetElement,
    StreamItem,
    StreamError,
}

/// The mathematical form of a path segment.
pub enum SegmentModel {
    Argument(u32),
    Return,
    Field(Seq<char>),
    Variant(Seq<char>),
    Optional,
    SequenceElement,
    MapKey,
    MapValue,
    SetElement,
    StreamItem,
    StreamError,
}

impl View for SessionValuePathSegment {
    type V = SegmentModel;

    open spec fn view(&self) -> SegmentModel {
        match *self {
            SessionValuePathSegment::Argument(index) => SegmentModel::Argument(index),
            SessionValuePathSegment::Return => SegmentModel::Return,
            SessionValuePathSegment::Field(name) => SegmentModel::Field(name@),
            SessionValuePathSegment::Variant(name) => SegmentModel::Variant(name@),
            SessionValuePathSegment::Optional => SegmentModel::Optional,
            SessionValuePathSegment::SequenceElement => SegmentModel::SequenceElement,
            SessionValuePathSegment::MapKey => SegmentModel::MapKey,
            SessionValuePathSegment::MapValue => SegmentModel::MapValue,
            SessionValuePathSegment::SetElement => SegmentModel::SetElement,
            SessionValuePathSegment::StreamItem => SegmentModel::StreamItem,
            SessionValuePathSegment::StreamError => SegmentModel::StreamError,
        }
    }
}

/// The mathematical form of a path.
pub open spec fn path_model(path: Seq<SessionValuePathSegment>) -> Seq<SegmentModel> {
    Seq::new(path.len(), |i: int| path[i]@)
}

impl Clone for SessionValuePathSegment {
    fn clone(&self) -> (r: SessionValuePathSegment)
        ensures
            r@ == self@,
    {
        match self {
            SessionValuePathSegment::Argument(index) => SessionValuePathSegment::Argument(*index),
            SessionValuePathSegment::Return => SessionValuePathSegment::Return,
            SessionValuePathSegment::Field(name) => SessionValuePathSegment::Field(name.clone()),
            SessionValuePathSegment::Variant(name) => SessionValuePathSegment::Variant(
                name.clone(),
            ),
            SessionValuePathSegment::Optional => SessionValuePathSegment::Optional,
            SessionValuePathSegment::SequenceElement => SessionValuePathSegment::SequenceElement,
            SessionValuePathSegment::MapKey => SessionValuePathSegment::MapKey,
            SessionValuePathSegment::MapValue => SessionValuePathSegment::MapValue,
            SessionValuePathSegment::SetElement => SessionValuePathSegment::SetElement,
            SessionValuePathSegment::StreamItem => SessionValuePathSegment::StreamItem,
            SessionValuePathSegment::StreamError => SessionValuePathSegment::StreamError,
        }
    }
}

impl SessionValuePathSegment {
    pub fn same(&self, other: &SessionValuePathSegment) -> (r: bool)
        ensures
            r == (self@ == other@),
    {
        match (self, other) {
            (
                SessionValuePathSegment::Argument(a),
                SessionValuePathSegment::Argument(b),
            ) => *a == *b,
            (SessionValuePathSegment::Return, SessionValuePathSegment::Return) => true,
            (SessionValuePathSegment::Field(a), SessionValuePathSegment::Field(b)) => *a == *b,
            (SessionValuePathSegment::Variant(a), SessionValuePathSegment::Variant(b)) => *a == *b,
            (SessionValuePathSegment::Optional, SessionValuePathSegment::Optional) => true,
            (
                SessionValuePathSegment::SequenceElement,
                SessionValuePathSegment::SequenceElement,
            ) => true,
            (SessionValuePathSegment::MapKey, SessionValuePathSegment::MapKey) => true,
            (SessionValuePathSegment::MapValue, SessionValuePathSegment::MapValue) => true,
            (SessionValuePathSegment::SetElement, SessionValuePathSegment::SetElement) => true,
            (SessionValuePathSegment::StreamItem, SessionValuePathSegment::StreamItem) => true,
            (SessionValuePathSegment::StreamError, SessionValuePathSegment::StreamError) => true,
            _ => false,
        }
    }
}

/// A copy of a path.
pub fn copy_path(path: &Vec<SessionValuePathSegment>) -> (r: Vec<SessionValuePathSegment>)
    ensures
        path_model(r@) == path_model(path@),
{
    let mut out: Vec<SessionValuePathSegment> = Vec::new();
    for i in 0..path.len()
        invariant
            out.len() == i,
            forall|j: int| 0 <= j < i ==> out[j]@ == (#[trigger] path[j])@,
    {
        out.push(path[i].clone());
    }
    out
}

fn same_path(a: &Vec<SessionValuePathSegment>, b: &Vec<SessionValuePathSegment>) -> (r: bool)
    ensures
        r == (path_model(a@) == path_model(b@)),
{
    let ghost left = path_model(a@);
    let ghost right = path_model(b@);
    if a.len() != b.len() {
        assert(left.len() != right.len());
        return false;
    }
    for i in 0..a.len()
        invariant
            a.len() == b.len(),
            left == path_model(a@),
            right == path_model(b@),
            forall|j: int| 0 <= j < i ==> left[j] == right[j],
    {
        if !a[i].same(&b[i]) {
            assert(left[i as int] != right[i as int]);
            return false;
        }
    }
    assert(left =~= right);
    true
}

/// One callback use-site of an operation.
#[derive(Debug)]
pub struct SessionCallbackArgument {
    /// The complete canonical path of the callback value.
    pub path: Vec<SessionValuePathSegment>,
    pub callback_type_id: u32,
    pub retention: SessionCallbackRetention,
    pub threading: SessionCallbackThreading,
    pub reentrancy: SessionCallbackReentrancy,
}

/// The mathematical form of a callback use-site.
pub struct CallbackArgumentModel {
    pub path: Seq<SegmentModel>,
    pub callback_type_id: u32,
    pub retention: SessionCallbackRetention,
    pub threading: SessionCallbackThreading,
    pub reentrancy: SessionCallbackReentrancy,
}

impl View for SessionCallbackArgument {
    type V = CallbackArgumentModel;

    open spec fn view(&self) -> CallbackArgumentModel {
        CallbackArgumentModel {
            path: path_model(self.path@),
            callback_type_id: self.callback_type_id,
            retention: self.retention,
            threading: self.threading,
            reentrancy: self.reentrancy,
        }
    }
}

impl Clone for SessionCallbackArgument {
    fn clone(&self) -> (r: SessionCallbackArgument)
        ensures
            r@ == self@,
    {
        SessionCallbackArgument {
            path: copy_path(&self.path),
            callback_type_id: self.callback_type_id,
            retention: self.retention,
            threading: self.threading,
            reentrancy: self.reentrancy,
        }
    }
}

impl SessionCallbackArgument {
    pub fn same(&self, other: &SessionCallbackArgument) -> (r: bool)
        ensures
            r == (self@ == other@),
    {
        same_path(&self.path, &other.path) && self.callback_type_id == other.callback_type_id
            && self.retention == other.retention && self.threading == other.threading
            && self.reentrancy == other.reentrancy
    }

    /// The path starts at an argument of the call.
    pub open spec fn argument_rooted(self) -> bool {
        self.path.len() > 0 && self.path[0] is Argument
    }

    /// The path starts at the result of the call.
    pub open spec fn return_rooted(self) -> bool {
        self.path.len() > 0 && self.path[0] is Return
    }

    pub fn is_argument_rooted(&self) -> (r: bool)
        ensures
            r == self.argument_rooted(),
    {
        self.path.len() > 0 && matches!(self.path[0], SessionValuePathSegment::Argument(_))
    }

    pub fn is_return_rooted(&self) -> (r: bool)
        ensures
            r == self.return_rooted(),
    {
        self.path.len() > 0 && matches!(self.path[0], SessionValuePathSegment::Return)
    }
}

/// One stream use-site of an operation.
#[derive(Debug)]
pub struct SessionStreamArgument {
    pub path: Vec<SessionValuePathSegment>,
    pub use_site_id: u32,
    pub direction: SessionStreamDirection,
}

/// One resource that an operation's result may carry.
#[derive(Debug)]
pub struct SessionResultResourceUseSite {
    pub path: Vec<SessionValuePathSegment>,
    pub kind: SessionResourceReceiver,
    pub ownership: SessionResourceOwnership,
}

/// One dense operation slot.
#[derive(Debug)]
pub struct SessionOperationDescriptor {
    pub dispatch: SessionOperationDispatch,
    pub callback: Option<JsValue>,
    pub native_call: SessionNativeCall,
    pub receiver: Option<SessionReceiver>,
    pub result_resources: Vec<SessionResultResourceUseSite>,
    pub callback_transfer: bool,
    pub callback_arguments: Vec<SessionCallbackArgument>,
    pub stream_arguments: Vec<SessionStreamArgument>,
}

/// The native hooks that end the life of a resource.
#[derive(Debug)]
pub struct SessionResourceCallbacks {
    pub release_object: Option<JsValue>,
    pub cancel_output_stream: Option<JsValue>,
    pub release_output_stream: Option<JsValue>,
}

/// A host callback, told apart by its type and its number.
#[derive(Clone, Copy, Debug, PartialEq, Eq, Structural)]
pub struct CallbackKey {
    pub callback_type_id: u32,
    pub callback_id: u32,
}

impl CallbackKey {
    /// The key as an ordered pair.
    pub open spec fn pair(self) -> (u32, u32) {
        (self.callback_type_id, self.callback_id)
    }

    pub fn as_pair(&self) -> (r: (u32, u32))
        ensures
            r == self.pair(),
    {
        (self.callback_type_id, self.callback_id)
    }
}

/// A scoped callback registration that ends with its invocation.
#[derive(Clone, Copy, Debug, PartialEq, Eq, Structural)]
pub struct CallbackRegistrationToken {
    pub key: CallbackKey,
    pub token: u64,
}

} // verus!
