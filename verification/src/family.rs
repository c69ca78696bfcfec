//! The shared operation family: what an operation is, independent of the
//! backend that serves it.

use crate::session::types::SegmentModel;
use vstd::prelude::*;

verus! {

/// What happens to work that is still pending when the close deadline passes.
#[derive(Clone, Copy, Debug, PartialEq, Eq, Structural)]
pub enum DeadlineAction {
    /// The session lets go of the work and reports itself closed.
    Detach,
}

/// How long closing a session waits for pending work.
#[derive(Clone, Copy, Debug, PartialEq, Eq, Structural)]
pub struct ClosePolicy {
    pub grace_ms: u32,
    pub on_deadline: DeadlineAction,
}

#[derive(Clone, Copy, Debug, PartialEq, Eq, Structural)]
pub enum AsyncKind {
    Sync,
    Async,
}

#[derive(Clone, Copy, Debug, PartialEq, Eq, Structural)]
pub enum CallbackRetention {
    Scoped,
    Retained,
}

#[derive(Clone, Copy, Debug, PartialEq, Eq, Structural)]
pub enum CallbackThreading {
    CallingThread,
    MayCrossThread,
}

#[derive(Clone, Copy, Debug, PartialEq, Eq, Structural)]
pub enum CallbackReentrancy {
    Allowed,
    Forbidden,
}

/// How a callback may be used at one use-site.
#[derive(Clone, Copy, Debug, PartialEq, Eq, Structural)]
pub struct CallbackContract {
    pub retention: CallbackRetention,
    pub threading: CallbackThreading,
    pub reentrancy: CallbackReentrancy,
}

#[derive(Clone, Copy, Debug, PartialEq, Eq, Structural)]
pub enum OperationKind {
    Function,
    Method,
    CallbackMethod,
    InputStreamPull,
    InputStreamCancel,
    OutputStreamStart,
    OutputStreamNext,
    OutputStreamCancel,
}

impl OperationKind {
    /// The name of the kind.
    pub open spec fn label(self) -> Seq<char> {
        match self {
            OperationKind::Function => "Function"@,
            OperationKind::Method => "Method"@,
            OperationKind::CallbackMethod => "CallbackMethod"@,
            OperationKind::InputStreamPull => "InputStreamPull"@,
            OperationKind::InputStreamCancel => "InputStreamCancel"@,
            OperationKind::OutputStreamStart => "OutputStreamStart"@,
            OperationKind::OutputStreamNext => "OutputStreamNext"@,
            OperationKind::OutputStreamCancel => "OutputStreamCancel"@,
        }
    }

    pub fn name(self) -> (name: &'static str)
        ensures
            name@ == self.label(),
    {
        match self {
            OperationKind::Function => "Function",
            OperationKind::Method => "Method",
            OperationKind::CallbackMethod => "CallbackMethod",
            OperationKind::InputStreamPull => "InputStreamPull",
            OperationKind::InputStreamCancel => "InputStreamCancel",
            OperationKind::OutputStreamStart => "OutputStreamStart",
            OperationKind::OutputStreamNext => "OutputStreamNext",
            OperationKind::OutputStreamCancel => "OutputStreamCancel",
        }
    }
}

/// Who serves an operation.
#[derive(Clone, Copy, Debug, PartialEq, Eq, Structural)]
pub enum FamilyOperationTarget {
    Native,
    CallbackHost { callback_type_id: u32, method_id: u32 },
    InputStreamHostPull,
    InputStreamHostCancel,
}

#[derive(Clone, Copy, Debug, PartialEq, Eq, Structural)]
pub enum ResourceKind {
    Object,
    InputStream,
    OutputStream,
}

#[derive(Clone, Copy, Debug, PartialEq, Eq, Structural)]
pub enum ResourceOwnership {
    Owned,
    Borrowed,
    ByArc,
}

#[derive(Clone, Copy, Debug, PartialEq, Eq, Structural)]
pub struct ResourceBinding {
    pub kind: ResourceKind,
    pub ownership: ResourceOwnership,
}

#[derive(Clone, Copy, Debug, PartialEq, Eq, Structural)]
pub enum ReceiverBinding {
    Value,
    Resource(ResourceBinding),
}

#[derive(Clone, Copy, Debug, PartialEq, Eq, Structural)]
pub enum StreamDirection {
    Input,
    Output,
}

/// One step of a canonical value path.
#[derive(Debug, PartialEq, Eq)]
pub enum ValuePathSegment {
    Argument(u32),
    Return,
    StreamItem,
    StreamError,
    Field(String),
    Variant(String),
    Optional,
    SequenceElement,
    MapKey,
    MapValue,
    SetElement,
}

impl View for ValuePathSegment {
    type V = SegmentModel;

    open spec fn view(&self) -> SegmentModel {
        match *self {
            ValuePathSegment::Argument(index) => SegmentModel::Argument(index),
            ValuePathSegment::Return => SegmentModel::Return,
            ValuePathSegment::StreamItem => SegmentModel::StreamItem,
            ValuePathSegment::StreamError => SegmentModel::StreamError,
            ValuePathSegment::Field(name) => SegmentModel::Field(name@),
            ValuePathSegment::Variant(name) => SegmentModel::Variant(name@),
            ValuePathSegment::Optional => SegmentModel::Optional,
            ValuePathSegment::SequenceElement => SegmentModel::SequenceElement,
            ValuePathSegment::MapKey => SegmentModel::MapKey,
            ValuePathSegment::MapValue => SegmentModel::MapValue,
            ValuePathSegment::SetElement => SegmentModel::SetElement,
        }
    }
}

impl Clone for ValuePathSegment {
    fn clone(&self) -> (r: ValuePathSegment)
        ensures
            r@ == self@,
    {
        match self {
            ValuePathSegment::Argument(index) => ValuePathSegment::Argument(*index),
            ValuePathSegment::Return => ValuePathSegment::Return,
            ValuePathSegment::StreamItem => ValuePathSegment::StreamItem,
            ValuePathSegment::StreamError => ValuePathSegment::StreamError,
            ValuePathSegment::Field(name) => ValuePathSegment::Field(name.clone()),
            ValuePathSegment::Variant(name) => ValuePathSegment::Variant(name.clone()),
            ValuePathSegment::Optional => ValuePathSegment::Optional,
            ValuePathSegment::SequenceElement => ValuePathSegment::SequenceElement,
            ValuePathSegment::MapKey => ValuePathSegment::MapKey,
            ValuePathSegment::MapValue => ValuePathSegment::MapValue,
            ValuePathSegment::SetElement => ValuePathSegment::SetElement,
        }
    }
}

/// A canonical value path, with the notation that diagnostics show for it.
#[derive(Debug, PartialEq, Eq)]
pub struct ValuePath {
    pub segments: Vec<ValuePathSegment>,
    pub notation: String,
}

/// The mathematical form of a path.
#[verifier::ext_equal]
pub struct PathModel {
    pub segments: Seq<SegmentModel>,
    pub notation: Seq<char>,
}

impl View for ValuePath {
    type V = PathModel;

    open spec fn view(&self) -> PathModel {
        PathModel {
            segments: Seq::new(self.segments@.len(), |i: int| self.segments@[i]@),
            notation: self.notation@,
        }
    }
}

impl PathModel {
    /// The path starts at this argument.
    pub open spec fn starts_at(self, argument: int) -> bool {
        self.segments.len() > 0 && (self.segments[0] matches SegmentModel::Argument(index) && index
            == argument)
    }

    /// The path starts at some argument.
    pub open spec fn argument_rooted(self) -> bool {
        self.segments.len() > 0 && self.segments[0] is Argument
    }

    /// The path starts at the result.
    pub open spec fn return_rooted(self) -> bool {
        self.segments.len() > 0 && self.segments[0] is Return
    }

    /// The path is the result itself.
    pub open spec fn whole_return(self) -> bool {
        self.segments.len() == 1 && self.segments[0] is Return
    }
}

impl Clone for ValuePath {
    fn clone(&self) -> (r: ValuePath)
        ensures
            r@ == self@,
    {
        let mut segments: Vec<ValuePathSegment> = Vec::new();
        for i in 0..self.segments.len()
            invariant
                segments.len() == i,
                forall|j: int| 0 <= j < i ==> segments[j]@ == (#[trigger] self.segments[j])@,
        {
            segments.push(self.segments[i].clone());
        }
        let r = ValuePath { segments, notation: self.notation.clone() };
        assert(r@ =~= self@);
        r
    }
}

impl ValuePath {
    pub fn starts_at(&self, argument: usize) -> (r: bool)
        ensures
            r == self@.starts_at(argument as int),
    {
        if self.segments.len() == 0 {
            return false;
        }
        assert(self@.segments[0] == self.segments@[0]@);
        match &self.segments[0] {
            ValuePathSegment::Argument(index) => *index as u64 == argument as u64,
            _ => false,
        }
    }

    pub fn is_argument_rooted(&self) -> (r: bool)
        ensures
            r == self@.argument_rooted(),
    {
        if self.segments.len() == 0 {
            return false;
        }
        assert(self@.segments[0] == self.segments@[0]@);
        matches!(self.segments[0], ValuePathSegment::Argument(_))
    }

    pub fn is_return_rooted(&self) -> (r: bool)
        ensures
            r == self@.return_rooted(),
    {
        if self.segments.len() == 0 {
            return false;
        }
        assert(self@.segments[0] == self.segments@[0]@);
        matches!(self.segments[0], ValuePathSegment::Return)
    }

    pub fn is_whole_return(&self) -> (r: bool)
        ensures
            r == self@.whole_return(),
    {
        self.segments.len() == 1 && self.is_return_rooted()
    }
}

/// A place where a callback enters or leaves an operation.
#[derive(Debug, PartialEq, Eq)]
pub struct CallbackUseSite {
    pub operation_id: u32,
    pub callback_type_id: u32,
    pub path: ValuePath,
    pub contract: CallbackContract,
}

/// The mathematical form of a callback use-site.
#[verifier::ext_equal]
pub struct CallbackSiteModel {
    pub operation_id: u32,
    pub callback_type_id: u32,
    pub path: PathModel,
    pub contract: CallbackContract,
}

impl View for CallbackUseSite {
    type V = CallbackSiteModel;

    open spec fn view(&self) -> CallbackSiteModel {
        CallbackSiteModel {
            operation_id: self.operation_id,
            callback_type_id: self.callback_type_id,
            path: self.path@,
            contract: self.contract,
        }
    }
}

impl Clone for CallbackUseSite {
    fn clone(&self) -> (r: CallbackUseSite)
        ensures
            r@ == self@,
    {
        CallbackUseSite {
            operation_id: self.operation_id,
            callback_type_id: self.callback_type_id,
            path: self.path.clone(),
            contract: self.contract,
        }
    }
}

/// A place where a stream enters or leaves an operation.
#[derive(Debug, PartialEq, Eq)]
pub struct StreamUseSite {
    pub operation_id: u32,
    pub use_site_id: u32,
    pub path: ValuePath,
    pub direction: StreamDirection,
}

/// The mathematical form of a stream use-site.
#[verifier::ext_equal]
pub struct StreamSiteModel {
    pub operation_id: u32,
    pub use_site_id: u32,
    pub path: PathModel,
    pub direction: StreamDirection,
}

impl View for StreamUseSite {
    type V = StreamSiteModel;

    open spec fn view(&self) -> StreamSiteModel {
        StreamSiteModel {
            operation_id: self.operation_id,
            use_site_id: self.use_site_id,
            path: self.path@,
            direction: self.direction,
        }
    }
}

impl Clone for StreamUseSite {
    fn clone(&self) -> (r: StreamUseSite)
        ensures
            r@ == self@,
    {
        StreamUseSite {
            operation_id: self.operation_id,
            use_site_id: self.use_site_id,
            path: self.path.clone(),
            direction: self.direction,
        }
    }
}

/// A resource that the result of an operation carries.
#[derive(Debug, PartialEq, Eq)]
pub struct ResultResource {
    pub path: ValuePath,
    pub binding: ResourceBinding,
}

/// The mathematical form of a resource in a result.
#[verifier::ext_equal]
pub struct ResultSiteModel {
    pub path: PathModel,
    pub binding: ResourceBinding,
}

impl View for ResultResource {
    type V = ResultSiteModel;

    open spec fn view(&self) -> ResultSiteModel {
        ResultSiteModel { path: self.path@, binding: self.binding }
    }
}

impl Clone for ResultResource {
    fn clone(&self) -> (r: ResultResource)
        ensures
            r@ == self@,
    {
        ResultResource { path: self.path.clone(), binding: self.binding }
    }
}

/// One operation of the family.
#[derive(Debug, PartialEq, Eq)]
pub struct FamilyOperation {
    pub id: u32,
    pub kind: OperationKind,
    pub async_kind: AsyncKind,
    pub fallible: bool,
    pub argument_count: usize,
    pub target: FamilyOperationTarget,
    pub receiver: Option<ReceiverBinding>,
    pub result_resources: Vec<ResultResource>,
    pub callbacks: Vec<CallbackUseSite>,
    pub streams: Vec<StreamUseSite>,
}

/// The mathematical form of an operation.
#[verifier::ext_equal]
pub struct OperationModel {
    pub id: u32,
    pub kind: OperationKind,
    pub async_kind: AsyncKind,
    pub fallible: bool,
    pub argument_count: usize,
    pub target: FamilyOperationTarget,
    pub receiver: Option<ReceiverBinding>,
    pub result_resources: Seq<ResultSiteModel>,
    pub callbacks: Seq<CallbackSiteModel>,
    pub streams: Seq<StreamSiteModel>,
}

impl View for FamilyOperation {
    type V = OperationModel;

    open spec fn view(&self) -> OperationModel {
        OperationModel {
            id: self.id,
            kind: self.kind,
            async_kind: self.async_kind,
            fallible: self.fallible,
            argument_count: self.argument_count,
            target: self.target,
            receiver: self.receiver,
            result_resources: Seq::new(
                self.result_resources@.len(),
                |i: int| self.result_resources@[i]@,
            ),
            callbacks: Seq::new(self.callbacks@.len(), |i: int| self.callbacks@[i]@),
            streams: Seq::new(self.streams@.len(), |i: int| self.streams@[i]@),
        }
    }
}

/// The kind of the first resource at or after `from` that is the result itself.
pub open spec fn direct_kind_from(sites: Seq<ResultSiteModel>, from: int) -> Option<ResourceKind>
    decreases sites.len() - from,
{
    if from >= sites.len() {
        None
    } else if sites[from].path.whole_return() {
        Some(sites[from].binding.kind)
    } else {
        direct_kind_from(sites, from + 1)
    }
}

impl OperationModel {
    /// The kind of resource that the result itself is.
    pub open spec fn direct_result(self) -> Option<ResourceKind> {
        direct_kind_from(self.result_resources, 0)
    }
}

impl Clone for FamilyOperation {
    fn clone(&self) -> (r: FamilyOperation)
        ensures
            r@ == self@,
    {
        let mut result_resources: Vec<ResultResource> = Vec::new();
        for i in 0..self.result_resources.len()
            invariant
                result_resources.len() == i,
                forall|j: int|
                    0 <= j < i ==> result_resources[j]@ == (#[trigger] self.result_resources[j])@,
        {
            result_resources.push(self.result_resources[i].clone());
        }
        let mut callbacks: Vec<CallbackUseSite> = Vec::new();
        for i in 0..self.callbacks.len()
            invariant
                callbacks.len() == i,
                forall|j: int| 0 <= j < i ==> callbacks[j]@ == (#[trigger] self.callbacks[j])@,
        {
            callbacks.push(self.callbacks[i].clone());
        }
        let mut streams: Vec<StreamUseSite> = Vec::new();
        for i in 0..self.streams.len()
            invariant
                streams.len() == i,
                forall|j: int| 0 <= j < i ==> streams[j]@ == (#[trigger] self.streams[j])@,
        {
            streams.push(self.streams[i].clone());
        }
        let r = FamilyOperation {
            id: self.id,
            kind: self.kind,
            async_kind: self.async_kind,
            fallible: self.fallible,
            argument_count: self.argument_count,
            target: self.target,
            receiver: self.receiver,
            result_resources,
            callbacks,
            streams,
        };
        assert(r@ =~= self@);
        r
    }
}

impl FamilyOperation {
    /// The kind of resource that the result itself is.
    pub fn direct_result(&self) -> (r: Option<ResourceKind>)
        ensures
            r == self@.direct_result(),
    {
        let mut i: usize = 0;
        while i < self.result_resources.len()
            invariant
                i <= self.result_resources.len(),
                self@.direct_result() == direct_kind_from(self@.result_resources, i as int),
            decreases self.result_resources.len() - i,
        {
            assert(self@.result_resources[i as int] == self.result_resources@[i as int]@);
            if self.result_resources[i].path.is_whole_return() {
                return Some(self.result_resources[i].binding.kind);
            }
            i = i + 1;
        }
        None
    }
}

/// A frozen family of operations.
#[derive(Debug, PartialEq, Eq)]
pub struct FamilyPlan {
    close_policy: ClosePolicy,
    operations: Vec<FamilyOperation>,
}

/// The mathematical form of a family.
#[verifier::ext_equal]
pub struct FamilyModel {
    pub close_policy: ClosePolicy,
    pub operations: Seq<OperationModel>,
}

/// Operations in their mathematical form.
pub open spec fn operations_model(operations: Seq<FamilyOperation>) -> Seq<OperationModel> {
    Seq::new(operations.len(), |i: int| operations[i]@)
}

impl View for FamilyPlan {
    type V = FamilyModel;

    closed spec fn view(&self) -> FamilyModel {
        FamilyModel {
            close_policy: self.close_policy,
            operations: operations_model(self.operations@),
        }
    }
}

impl Clone for FamilyPlan {
    fn clone(&self) -> (r: FamilyPlan)
        ensures
            r@ == self@,
    {
        let mut operations: Vec<FamilyOperation> = Vec::new();
        for i in 0..self.operations.len()
            invariant
                operations.len() == i,
                forall|j: int| 0 <= j < i ==> operations[j]@ == (#[trigger] self.operations[j])@,
        {
            operations.push(self.operations[i].clone());
        }
        let r = FamilyPlan { close_policy: self.close_policy, operations };
        assert(r@ =~= self@);
        r
    }
}

impl FamilyPlan {
    pub fn new(close_policy: ClosePolicy, operations: Vec<FamilyOperation>) -> (r: FamilyPlan)
        ensures
            r@.close_policy == close_policy,
            r@.operations == operations_model(operations@),
    {
        FamilyPlan { close_policy, operations }
    }

    pub fn operations(&self) -> (r: &Vec<FamilyOperation>)
        ensures
            operations_model(r@) == self@.operations,
    {
        &self.operations
    }

    pub fn close_policy(&self) -> (r: ClosePolicy)
        ensures
            r == self@.close_policy,
    {
        self.close_policy
    }
}

/// Why a family could not be built.
#[derive(Clone, Debug, PartialEq, Eq)]
pub struct FamilyPlanError {
    pub message: String,
}

/// An integer of any size.
#[derive(Clone, Debug, PartialEq, Eq)]
pub struct BigIntWords {
    pub negative: bool,
    /// The magnitude, least significant word first.
    pub words: Vec<u64>,
}

} // verus!
