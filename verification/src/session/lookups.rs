//! Where the session looks for callbacks, streams, receivers and results, told
//! apart by the paths and phases that lead there.

use crate::family::ClosePolicy;
use crate::session::path;
use crate::session::path::WalkModel;
use crate::session::retention;
use crate::session::retention::{
    ResultModel, ResultPhase, ResultRequest, RetentionModel, RetentionPhase, RetentionRequest,
};
use crate::session::setup;
use crate::session::setup::SessionMethod;
use crate::session::state::{ResourceHooks, SessionOperation};
use crate::session::types::{
    CallbackKey, JsRef, JsValue, SegmentModel, SessionCallbackErrorStyle,
    SessionOperationDispatch, SessionReceiver, SessionResourceReceiver,
    SessionResultResourceUseSite, SessionStreamDirection, SessionValuePathSegment,
};
use crate::text;
use vstd::prelude::*;

verus! {

// ---- Roots of paths ----

/// A path into the arguments starts at the numbered argument behind the receiver, and
/// a path into the result at the result; nothing else is a start.
pub proof fn paths_start_at_their_roots(
    root: SegmentModel,
    args: Seq<JsValue>,
    receiver_offset: int,
    return_value: Option<JsValue>,
)
    requires
        0 <= receiver_offset,
    ensures
        path::root_value(root, args, receiver_offset, return_value) == match root {
            SegmentModel::Argument(index) => if receiver_offset + index < args.len() {
                Some(args[receiver_offset + index])
            } else {
                None
            },
            SegmentModel::Return => return_value,
            SegmentModel::Field(_) => None,
            SegmentModel::Variant(_) => None,
            SegmentModel::Optional => None,
            SegmentModel::SequenceElement => None,
            SegmentModel::MapKey => None,
            SegmentModel::MapValue => None,
            SegmentModel::SetElement => None,
            SegmentModel::StreamItem => None,
            SegmentModel::StreamError => None,
        },
{
}

/// A path without a start is refused by what is wrong with it.
pub proof fn missing_root_is_named(path: Seq<SegmentModel>, role: Seq<char>)
    ensures
        path.len() == 0 ==> path::root_error(path, role) == role + " use-site path is empty"@,
        path.len() > 0 ==> path::root_error(path, role) == match path[0] {
            SegmentModel::Argument(index) => role + " argument path index "@ + text::decimal(
                index as int,
            ) + " is out of range"@,
            SegmentModel::Return => "return path cannot be resolved before a native result"@,
            _ => role + " use-site path has an invalid root"@,
        },
{
}

/// The numbered arguments of a call stand behind its receiver, of whatever kind.
pub proof fn arguments_stand_behind_the_receiver(operation: SessionOperation)
    ensures
        operation.receiver is None ==> retention::receiver_offset(operation) == 0,
        operation.receiver == Some(SessionReceiver::Value) ==> retention::receiver_offset(operation)
            == 1,
        operation.receiver == Some(SessionReceiver::Resource(SessionResourceReceiver::Object))
            ==> retention::receiver_offset(operation) == 1,
        operation.receiver == Some(SessionReceiver::Resource(SessionResourceReceiver::InputStream))
            ==> retention::receiver_offset(operation) == 1,
        operation.receiver == Some(SessionReceiver::Resource(SessionResourceReceiver::OutputStream))
            ==> retention::receiver_offset(operation) == 1,
{
}

/// A walk passes over stream segments, which lead to nothing, and goes on to the next
/// segment once no value is left; it stops wherever a value must be looked at.
pub proof fn walk_stops_where_it_must_look(walk: WalkModel)
    ensures
        ({
            let next = walk.settled();
            &&& next.path == walk.path
            &&& next.role == walk.role
            &&& next.position >= walk.position
            &&& next.position < next.path.len() ==> {
                &&& next.todo.len() > 0
                &&& next.path[next.position as int] != SegmentModel::StreamItem
                &&& next.path[next.position as int] != SegmentModel::StreamError
            }
            &&& (walk.position < walk.path.len() && walk.todo.len() > 0
                && walk.path[walk.position as int] != SegmentModel::StreamItem
                && walk.path[walk.position as int] != SegmentModel::StreamError) ==> next == walk
            &&& walk.position >= walk.path.len() ==> next == walk
        }),
    decreases walk.path.len() - walk.position, walk.todo.len(),
{
    if walk.position >= walk.path.len() {
    } else if walk.todo.len() == 0 {
        walk_stops_where_it_must_look(
            WalkModel {
                position: walk.position + 1,
                todo: walk.done,
                done: Seq::empty(),
                ..walk
            },
        );
    } else if walk.path[walk.position as int] is StreamItem || walk.path[walk.position as int] is
        StreamError {
        walk_stops_where_it_must_look(WalkModel { todo: walk.todo.drop_first(), ..walk });
    }
}

/// What was found at a value takes its place, behind what was found before.
pub proof fn found_values_take_their_place(walk: WalkModel, found: Seq<JsValue>)
    requires
        walk.todo.len() > 0,
    ensures
        walk.supplied(found).done == walk.done + found,
        walk.supplied(found).todo == walk.todo.drop_first(),
        walk.supplied(found).position == walk.position,
        walk.supplied(found).path == walk.path,
        walk.supplied(found).role == walk.role,
{
}

// ---- Taking the leases of a call ----

/// A call starts with its first callback use-site and no lease.
pub proof fn call_starts_without_leases(operation: usize)
    ensures
        RetentionModel::started(operation) == (RetentionModel {
            operation,
            phase: RetentionPhase::Callback(0),
            values: Seq::empty(),
            sites: Seq::empty(),
            current: Seq::empty(),
            scoped: Seq::empty(),
            transfer_id: None,
        }),
{
}

/// A callback use-site in the arguments is looked up; any other one keeps an empty
/// list, and after the last one come the streams.
pub proof fn callback_use_sites_are_looked_up(
    leases: RetentionModel,
    operation: SessionOperation,
    args: Seq<JsValue>,
    i: usize,
)
    requires
        leases.phase == RetentionPhase::Callback(i),
        i < usize::MAX,
    ensures
        i < operation.callback_arguments@.len() ==> ({
            let path = operation.callback_arguments@[i as int].path@;
            &&& path.len() > 0 && path[0] is Argument ==> leases.asks(operation, args) == Some(
                RetentionRequest::CallbackPath(i),
            )
            &&& path.len() > 0 && path[0] is Return ==> leases.asks(operation, args) == Some(
                RetentionRequest::Continue,
            )
            &&& leases.continued(operation) == (RetentionModel {
                phase: RetentionPhase::Callback((i + 1) as usize),
                sites: leases.sites.push(Seq::empty()),
                ..leases
            })
        }),
        i >= operation.callback_arguments@.len() ==> {
            &&& leases.asks(operation, args) == Some(RetentionRequest::Continue)
            &&& leases.continued(operation) == (RetentionModel {
                phase: RetentionPhase::Stream(0),
                ..leases
            })
        },
{
}

/// Each callback value at a use-site is asked for its number, in order, and the leases
/// of the use-site are then kept under its own place.
pub proof fn callback_values_are_taken_in_order(
    leases: RetentionModel,
    operation: SessionOperation,
    args: Seq<JsValue>,
    i: usize,
)
    requires
        leases.phase == RetentionPhase::CallbackValues(i),
        i < usize::MAX,
    ensures
        leases.values.len() > 0 ==> leases.asks(operation, args) == Some(
            RetentionRequest::CallbackId(leases.values[0]),
        ),
        leases.values.len() == 0 ==> leases.asks(operation, args) == Some(
            RetentionRequest::Continue,
        ),
        leases.continued(operation) == (RetentionModel {
            phase: RetentionPhase::Callback((i + 1) as usize),
            sites: leases.sites.push(leases.current),
            current: Seq::empty(),
            ..leases
        }),
{
}

/// The host is asked to retain the very callback that was named.
pub proof fn named_callback_is_retained(
    leases: RetentionModel,
    operation: SessionOperation,
    args: Seq<JsValue>,
    i: usize,
    key: CallbackKey,
)
    requires
        leases.phase == RetentionPhase::CallbackRetain(i, key),
    ensures
        leases.asks(operation, args) == Some(RetentionRequest::Retain(key)),
{
}

/// An input stream among the arguments is looked up; an output stream is passed over,
/// and after the last stream comes the receiver.
pub proof fn input_streams_are_looked_up(
    leases: RetentionModel,
    operation: SessionOperation,
    args: Seq<JsValue>,
    i: usize,
)
    requires
        leases.phase == RetentionPhase::Stream(i),
        i < usize::MAX,
    ensures
        i < operation.stream_arguments@.len() ==> {
            &&& leases.asks(operation, args) == Some(
                match operation.stream_arguments@[i as int].direction {
                    SessionStreamDirection::Input => RetentionRequest::StreamPath(i),
                    SessionStreamDirection::Output => RetentionRequest::Continue,
                },
            )
            &&& leases.continued(operation) == (RetentionModel {
                phase: RetentionPhase::Stream((i + 1) as usize),
                ..leases
            })
        },
        i >= operation.stream_arguments@.len() ==> {
            &&& leases.asks(operation, args) == Some(RetentionRequest::Continue)
            &&& leases.continued(operation) == (RetentionModel {
                phase: RetentionPhase::Receiver,
                ..leases
            })
        },
{
}

/// Each stream value at a use-site is asked for its number, in order.
pub proof fn stream_values_are_taken_in_order(
    leases: RetentionModel,
    operation: SessionOperation,
    args: Seq<JsValue>,
    i: usize,
)
    requires
        leases.phase == RetentionPhase::StreamValues(i),
        i < usize::MAX,
    ensures
        leases.values.len() > 0 ==> leases.asks(operation, args) == Some(
            RetentionRequest::StreamId(leases.values[0]),
        ),
        leases.values.len() == 0 ==> leases.asks(operation, args) == Some(
            RetentionRequest::Continue,
        ),
        leases.continued(operation) == (RetentionModel {
            phase: RetentionPhase::Stream((i + 1) as usize),
            ..leases
        }),
{
}

/// The receiver is the first argument: an input stream goes by its number, an object
/// or an output stream by its tracked reference, and a value needs nothing.
pub proof fn receiver_is_found_by_its_kind(
    leases: RetentionModel,
    operation: SessionOperation,
    args: Seq<JsValue>,
)
    requires
        leases.phase == RetentionPhase::Receiver,
    ensures
        args.len() > 0 ==> leases.asks(operation, args) == Some(
            match operation.receiver {
                None => RetentionRequest::Continue,
                Some(SessionReceiver::Value) => RetentionRequest::Continue,
                Some(
                    SessionReceiver::Resource(SessionResourceReceiver::InputStream),
                ) => RetentionRequest::ReceiverStreamId(args[0]),
                Some(
                    SessionReceiver::Resource(SessionResourceReceiver::Object),
                ) => RetentionRequest::ReceiverResource(args[0], SessionResourceReceiver::Object),
                Some(
                    SessionReceiver::Resource(SessionResourceReceiver::OutputStream),
                ) => RetentionRequest::ReceiverResource(
                    args[0],
                    SessionResourceReceiver::OutputStream,
                ),
            },
        ),
        args.len() == 0 ==> leases.asks(operation, args) == match operation.receiver {
            Some(SessionReceiver::Resource(_)) => None,
            _ => Some(RetentionRequest::Continue),
        },
        leases.continued(operation) == (RetentionModel {
            phase: RetentionPhase::Transfer,
            ..leases
        }),
{
}

/// The leases are transferred exactly where the operation says so, and that is all.
pub proof fn leases_are_transferred_where_asked(
    leases: RetentionModel,
    operation: SessionOperation,
    args: Seq<JsValue>,
)
    ensures
        leases.phase == RetentionPhase::Transfer && operation.callback_transfer ==> leases.asks(
            operation,
            args,
        ) == Some(RetentionRequest::TransferId),
        leases.phase == RetentionPhase::Transfer && !operation.callback_transfer ==> leases.asks(
            operation,
            args,
        ) == Some(RetentionRequest::Continue),
        leases.phase == RetentionPhase::Transfer ==> leases.continued(operation) == (
        RetentionModel { phase: RetentionPhase::Finished, ..leases }),
        leases.phase == RetentionPhase::Finished ==> leases.asks(operation, args) == Some(
            RetentionRequest::Finished,
        ),
{
}

/// In the result, only the callback use-sites there are looked up.
pub proof fn result_callbacks_are_looked_up(
    leases: ResultModel,
    operation: SessionOperation,
    i: usize,
)
    requires
        leases.phase == ResultPhase::Callback(i),
        i < usize::MAX,
    ensures
        i >= operation.callback_arguments@.len() ==> leases.asks(operation)
            == ResultRequest::Finished,
        i < operation.callback_arguments@.len() ==> ({
            let path = operation.callback_arguments@[i as int].path@;
            &&& path.len() > 0 && path[0] is Return ==> leases.asks(operation)
                == ResultRequest::Path(i)
            &&& path.len() > 0 && path[0] is Argument ==> leases.asks(operation)
                == ResultRequest::Continue
        }),
        leases.continued() == (ResultModel {
            phase: ResultPhase::Callback((i + 1) as usize),
            ..leases
        }),
{
}

/// Each callback value of the result is asked for its number, in order, and the very
/// callback that was named is retained.
pub proof fn result_values_are_taken_in_order(
    leases: ResultModel,
    operation: SessionOperation,
    i: usize,
    key: CallbackKey,
)
    requires
        i < usize::MAX,
    ensures
        leases.phase == ResultPhase::Values(i) && leases.values.len() > 0 ==> leases.asks(operation)
            == ResultRequest::CallbackId(leases.values[0]),
        leases.phase == ResultPhase::Values(i) && leases.values.len() == 0 ==> leases.asks(
            operation,
        ) == ResultRequest::Continue,
        leases.phase == ResultPhase::Values(i) ==> leases.continued() == (ResultModel {
            phase: ResultPhase::Callback((i + 1) as usize),
            ..leases
        }),
        leases.phase == ResultPhase::Retain(i, key) ==> leases.asks(operation)
            == ResultRequest::Retain(key),
{
}

// ---- Setting up ----

/// The use-site is the result itself and not a part of it.
pub open spec fn names_the_result(use_site: SessionResultResourceUseSite) -> bool {
    use_site.path@.len() == 1 && use_site.path@[0] == SessionValuePathSegment::Return
}

proof fn lemma_direct_result(use_sites: Seq<SessionResultResourceUseSite>, from: int, k: int)
    requires
        0 <= from <= k <= use_sites.len(),
        forall|i: int| 0 <= i < k ==> !names_the_result(#[trigger] use_sites[i]),
        k < use_sites.len() ==> names_the_result(use_sites[k]),
    ensures
        setup::direct_result_from(use_sites, from) == if k < use_sites.len() {
            Some(use_sites[k].kind)
        } else {
            None
        },
    decreases k - from,
{
    if from < k {
        assert(!names_the_result(use_sites[from]));
        lemma_direct_result(use_sites, from + 1, k);
    }
}

/// The kind of a result is that of the first use-site that is the result itself.
pub proof fn result_kind_is_of_the_first_whole_result(
    use_sites: Seq<SessionResultResourceUseSite>,
    k: int,
)
    requires
        0 <= k < use_sites.len(),
        names_the_result(use_sites[k]),
        forall|i: int| 0 <= i < k ==> !names_the_result(#[trigger] use_sites[i]),
    ensures
        setup::direct_result_from(use_sites, 0) == Some(use_sites[k].kind),
{
    lemma_direct_result(use_sites, 0, k);
}

/// A result that no use-site names as a whole is no resource.
pub proof fn unnamed_result_is_no_resource(use_sites: Seq<SessionResultResourceUseSite>)
    requires
        forall|i: int| 0 <= i < use_sites.len() ==> !names_the_result(#[trigger] use_sites[i]),
    ensures
        setup::direct_result_from(use_sites, 0) is None,
{
    lemma_direct_result(use_sites, 0, use_sites.len() as int);
}

/// The session knows a callback method by its type and its number, from operations of
/// both modes, and from no others.
pub proof fn callback_methods_are_known_by_their_numbers(
    callback_type_id: u32,
    method_id: u32,
    error_style: SessionCallbackErrorStyle,
)
    ensures
        setup::callback_method_of(
            SessionOperationDispatch::CallbackHostSync { callback_type_id, method_id, error_style },
        ) == Some(((callback_type_id, method_id), error_style)),
        setup::callback_method_of(
            SessionOperationDispatch::CallbackHostAsync { callback_type_id, method_id, error_style },
        ) == Some(((callback_type_id, method_id), error_style)),
        setup::callback_method_of(SessionOperationDispatch::NativeSync) is None,
        setup::callback_method_of(SessionOperationDispatch::NativeAsync) is None,
        setup::callback_method_of(SessionOperationDispatch::InputStreamHostPull) is None,
        setup::callback_method_of(SessionOperationDispatch::InputStreamHostCancel) is None,
{
}

/// A new session holds what it was opened with and is otherwise empty.
pub proof fn new_session_holds_what_it_was_given(
    generation: u32,
    policy: ClosePolicy,
    host: JsRef,
    release_callback: JsRef,
    operations: Seq<SessionOperation>,
    callback_methods: Map<(u32, u32), SessionCallbackErrorStyle>,
    hooks: ResourceHooks,
)
    ensures
        ({
            let session = setup::opened(
                generation,
                policy,
                host,
                release_callback,
                operations,
                callback_methods,
                hooks,
            );
            &&& session.generation == generation
            &&& session.policy == policy
            &&& session.host == Some(host)
            &&& session.release_callback == Some(release_callback)
            &&& session.operations == operations
            &&& session.callback_methods == callback_methods
            &&& session.hooks == hooks
            &&& !session.closed
            &&& session.pending_work == 0
            &&& session.close_deferred is None
            &&& session.close_promise is None
            &&& session.close_timer is None
            &&& session.leases.len() == 0
            &&& session.owners.len() == 0
            &&& session.transfers.len() == 0
            &&& session.resources.len() == 0
            &&& session.contracts.dom() =~= Set::empty()
            &&& session.active_callbacks =~= Set::empty()
            &&& session.input_streams =~= Set::empty()
            &&& session.released_input_streams =~= Set::empty()
        }),
{
}

/// The script finds each method of a session under its own name.
pub proof fn session_methods_are_found_by_name(method: SessionMethod, name: &'static str)
    requires
        call_ensures(SessionMethod::name, (method,), name),
    ensures
        method == SessionMethod::InvokeSync ==> name@ == "invokeSync"@,
        method == SessionMethod::InvokeAsync ==> name@ == "invokeAsync"@,
        method == SessionMethod::ReleaseObject ==> name@ == "releaseObject"@,
        method == SessionMethod::CancelOutputStream ==> name@ == "cancelOutputStream"@,
        method == SessionMethod::ReleaseOutputStream ==> name@ == "releaseOutputStream"@,
        method == SessionMethod::Close ==> name@ == "close"@,
{
}

} // verus!
