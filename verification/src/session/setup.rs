//! Opening a session.

use crate::family::ClosePolicy;
use crate::session::state::{
    ResourceHooks, SessionModel, SessionOperation, SessionState,
};
use crate::session::tracking;
use crate::session::types::{
    JsRef, JsValue, SessionCallbackErrorStyle, SessionError, SessionOperationDescriptor,
    SessionOperationDispatch, SessionResourceReceiver, SessionResultResourceUseSite, SessionStatus,
    SessionValuePathSegment,
};
use crate::text;
use std::collections::{BTreeMap, BTreeSet};
use vstd::prelude::*;

verus! {

broadcast use {vstd::std_specs::btree::group_btree_axioms, vstd::laws_cmp::group_laws_cmp};

/// The use-site is the result itself.
pub open spec fn is_whole_result(use_site: SessionResultResourceUseSite) -> bool {
    use_site.path@.len() == 1 && use_site.path@[0] is Return
}

/// The kind of the first use-site at or after `from` that is the result itself.
pub open spec fn direct_result_from(
    use_sites: Seq<SessionResultResourceUseSite>,
    from: int,
) -> Option<SessionResourceReceiver>
    decreases use_sites.len() - from,
{
    if from >= use_sites.len() {
        None
    } else if is_whole_result(use_sites[from]) {
        Some(use_sites[from].kind)
    } else {
        direct_result_from(use_sites, from + 1)
    }
}

/// The resource that a result itself is.
pub fn direct_result(use_sites: &Vec<SessionResultResourceUseSite>) -> (r: Option<
    SessionResourceReceiver,
>)
    ensures
        r == direct_result_from(use_sites@, 0),
{
    let mut i: usize = 0;
    while i < use_sites.len()
        invariant
            i <= use_sites.len(),
            direct_result_from(use_sites@, 0) == direct_result_from(use_sites@, i as int),
        decreases use_sites.len() - i,
    {
        let path = &use_sites[i].path;
        if path.len() == 1 && matches!(path[0], SessionValuePathSegment::Return) {
            return Some(use_sites[i].kind);
        }
        i = i + 1;
    }
    None
}

/// A session being opened.
pub struct SessionSetup {
    generation: u32,
    policy: ClosePolicy,
    host: JsRef,
    release_callback: JsRef,
    operations: Vec<SessionOperation>,
    callback_methods: BTreeMap<(u32, u32), SessionCallbackErrorStyle>,
}

/// The callback method that an operation runs, if it runs one.
pub open spec fn callback_method_of(dispatch: SessionOperationDispatch) -> Option<
    ((u32, u32), SessionCallbackErrorStyle),
> {
    match dispatch {
        SessionOperationDispatch::CallbackHostSync { callback_type_id, method_id, error_style }
        | SessionOperationDispatch::CallbackHostAsync {
            callback_type_id,
            method_id,
            error_style,
        } => Some(((callback_type_id, method_id), error_style)),
        _ => None,
    }
}

/// A session as it is when it opens.
pub open spec fn opened(
    generation: u32,
    policy: ClosePolicy,
    host: JsRef,
    release_callback: JsRef,
    operations: Seq<SessionOperation>,
    callback_methods: Map<(u32, u32), SessionCallbackErrorStyle>,
    hooks: ResourceHooks,
) -> SessionModel {
    SessionModel {
        generation,
        policy,
        operations,
        callback_methods,
        host: Some(host),
        release_callback: Some(release_callback),
        hooks,
        closed: false,
        next_registration: 0,
        pending_work: 0,
        close_deferred: None,
        close_promise: None,
        close_timer: None,
        leases: Seq::empty(),
        owners: Seq::empty(),
        transfers: Seq::empty(),
        contracts: Map::empty(),
        active_callbacks: Set::empty(),
        input_streams: Set::empty(),
        released_input_streams: Set::empty(),
        resources: Seq::empty(),
    }
}

/// A session that has just been opened is in order: no number was given out, no
/// input stream released, and no value tracked.
pub proof fn opened_session_is_in_order(
    generation: u32,
    policy: ClosePolicy,
    host: JsRef,
    release_callback: JsRef,
    operations: Seq<SessionOperation>,
    callback_methods: Map<(u32, u32), SessionCallbackErrorStyle>,
    hooks: ResourceHooks,
    value_of: spec_fn(JsRef) -> int,
)
    ensures
        ({
            let session = opened(
                generation,
                policy,
                host,
                release_callback,
                operations,
                callback_methods,
                hooks,
            );
            &&& session.valid()
            &&& session.registered_before()
            &&& session.released_input_streams.disjoint(session.input_streams)
            &&& tracking::apart(session.resources, value_of)
        }),
{
}

impl SessionSetup {
    pub closed spec fn generation(self) -> u32 {
        self.generation
    }

    pub closed spec fn policy(self) -> ClosePolicy {
        self.policy
    }

    pub closed spec fn host(self) -> JsRef {
        self.host
    }

    pub closed spec fn release_callback(self) -> JsRef {
        self.release_callback
    }

    pub closed spec fn operations(self) -> Seq<SessionOperation> {
        self.operations@
    }

    pub closed spec fn callback_methods(self) -> Map<(u32, u32), SessionCallbackErrorStyle> {
        self.callback_methods@
    }

    pub fn start(generation: u32, policy: ClosePolicy, host: JsRef, release_callback: JsRef) -> (r:
        SessionSetup)
        ensures
            r.generation() == generation,
            r.policy() == policy,
            r.host() == host,
            r.release_callback() == release_callback,
            r.operations() == Seq::<SessionOperation>::empty(),
            r.callback_methods() == Map::<(u32, u32), SessionCallbackErrorStyle>::empty(),
    {
        SessionSetup {
            generation,
            policy,
            host,
            release_callback,
            operations: Vec::new(),
            callback_methods: BTreeMap::new(),
        }
    }

    /// The value that the next slot needs a reference to. A native operation
    /// has a callback, a host operation has none.
    pub fn slot_callback(&self, descriptor: &SessionOperationDescriptor) -> (r: Result<
        Option<JsValue>,
        SessionError,
    >)
        ensures
            match r {
                Ok(value) => {
                    &&& value == descriptor.callback
                    &&& descriptor.dispatch.native() == (descriptor.callback is Some)
                },
                Err(e) => {
                    &&& descriptor.dispatch.native() != (descriptor.callback is Some)
                    &&& e.is(
                        SessionStatus::InvalidArg,
                        if descriptor.dispatch.native() {
                            "native UniFFI operation slot "@ + text::decimal(
                                self.operations().len() as int,
                            ) + " has no callback"@
                        } else {
                            "host UniFFI operation slot "@ + text::decimal(
                                self.operations().len() as int,
                            ) + " unexpectedly has a native callback"@
                        },
                    )
                },
            },
    {
        let slot: u64 = self.operations.len() as u64;
        if descriptor.dispatch.is_native() {
            if descriptor.callback.is_none() {
                return Err(
                    SessionError::invalid_numbered(
                        "native UniFFI operation slot ",
                        slot,
                        " has no callback",
                    ),
                );
            }
        } else if descriptor.callback.is_some() {
            return Err(
                SessionError::invalid_numbered(
                    "host UniFFI operation slot ",
                    slot,
                    " unexpectedly has a native callback",
                ),
            );
        }
        Ok(descriptor.callback)
    }

    /// Fills the next slot.
    pub fn add_operation(
        &mut self,
        descriptor: SessionOperationDescriptor,
        callback: Option<JsRef>,
    )
        ensures
            final(self).generation() == old(self).generation(),
            final(self).policy() == old(self).policy(),
            final(self).host() == old(self).host(),
            final(self).release_callback() == old(self).release_callback(),
            final(self).operations() == old(self).operations().push(
                SessionOperation {
                    dispatch: descriptor.dispatch,
                    callback,
                    native_call: descriptor.native_call,
                    receiver: descriptor.receiver,
                    result: direct_result_from(descriptor.result_resources@, 0),
                    callback_transfer: descriptor.callback_transfer,
                    callback_arguments: descriptor.callback_arguments,
                    stream_arguments: descriptor.stream_arguments,
                },
            ),
            final(self).callback_methods() == match callback_method_of(descriptor.dispatch) {
                None => old(self).callback_methods(),
                Some((method, error_style)) => old(self).callback_methods().insert(
                    method,
                    error_style,
                ),
            },
    {
        match descriptor.dispatch {
            SessionOperationDispatch::CallbackHostSync {
                callback_type_id,
                method_id,
                error_style,
            }
            | SessionOperationDispatch::CallbackHostAsync {
                callback_type_id,
                method_id,
                error_style,
            } => {
                self.callback_methods.insert((callback_type_id, method_id), error_style);
            },
            _ => {},
        }
        let result = direct_result(&descriptor.result_resources);
        self.operations.push(
            SessionOperation {
                dispatch: descriptor.dispatch,
                callback,
                native_call: descriptor.native_call,
                receiver: descriptor.receiver,
                result,
                callback_transfer: descriptor.callback_transfer,
                callback_arguments: descriptor.callback_arguments,
                stream_arguments: descriptor.stream_arguments,
            },
        );
    }

    /// Opens the session.
    pub fn finish(self, hooks: ResourceHooks) -> (state: SessionState)
        ensures
            state@ == opened(
                self.generation(),
                self.policy(),
                self.host(),
                self.release_callback(),
                self.operations(),
                self.callback_methods(),
                hooks,
            ),
            state@.valid(),
    {
        let state = SessionState {
            generation: self.generation,
            policy: self.policy,
            operations: self.operations,
            callback_methods: self.callback_methods,
            host: Some(self.host),
            release_callback: Some(self.release_callback),
            hooks,
            closed: false,
            next_registration: 0,
            pending_work: 0,
            close_deferred: None,
            close_promise: None,
            close_timer: None,
            leases: Vec::new(),
            owners: Vec::new(),
            transfers: Vec::new(),
            contracts: BTreeMap::new(),
            active_callbacks: BTreeSet::new(),
            input_streams: BTreeSet::new(),
            released_input_streams: BTreeSet::new(),
            resources: Vec::new(),
        };
        assert(state@.contracts =~= Map::empty());
        state
    }
}

/// The queue refused the scheduler of a session that is being opened.
pub fn scheduler_refused() -> (e: SessionError)
    ensures
        e.is(
            SessionStatus::GenericFailure,
            "callback release scheduler closed during session creation"@,
        ),
{
    SessionError::failure("callback release scheduler closed during session creation")
}

/// How far setting up the scheduler of callback releases got before it failed.
#[derive(Clone, Copy, Debug, PartialEq, Eq, Structural)]
pub enum SchedulerStage {
    /// Nothing was kept yet.
    Lookup,
    /// Referring to the release function; the host is referred to already.
    ReleaseReference,
    /// Making the handler; both references are held by nobody else.
    Handler,
    /// Making the scheduler; both references are held by nobody else.
    Scheduler,
    /// Detaching the scheduler from the event loop. It owns both references.
    Detach,
}

/// What a failure to set up the scheduler leaves to be cleaned up.
#[derive(Clone, Copy, Debug, PartialEq, Eq, Structural)]
pub struct SchedulerCleanup {
    pub delete_host: bool,
    pub delete_release: bool,
    pub abort: bool,
}

/// Every reference that nothing owns yet is deleted; a scheduler that exists is
/// aborted and frees what it owns.
pub fn scheduler_failed(stage: SchedulerStage) -> (r: SchedulerCleanup)
    ensures
        r.delete_host == (stage is ReleaseReference || stage is Handler || stage is Scheduler),
        r.delete_release == (stage is Handler || stage is Scheduler),
        r.abort == (stage is Detach),
{
    match stage {
        SchedulerStage::Lookup => SchedulerCleanup {
            delete_host: false,
            delete_release: false,
            abort: false,
        },
        SchedulerStage::ReleaseReference => SchedulerCleanup {
            delete_host: true,
            delete_release: false,
            abort: false,
        },
        SchedulerStage::Handler | SchedulerStage::Scheduler => SchedulerCleanup {
            delete_host: true,
            delete_release: true,
            abort: false,
        },
        SchedulerStage::Detach => SchedulerCleanup {
            delete_host: false,
            delete_release: false,
            abort: true,
        },
    }
}

/// The methods of a session object.
#[derive(Clone, Copy, Debug, PartialEq, Eq, Structural)]
pub enum SessionMethod {
    InvokeSync,
    InvokeAsync,
    ReleaseObject,
    CancelOutputStream,
    ReleaseOutputStream,
    Close,
}

impl SessionMethod {
    /// The property under which the script finds the method.
    pub open spec fn label(self) -> Seq<char> {
        match self {
            SessionMethod::InvokeSync => "invokeSync"@,
            SessionMethod::InvokeAsync => "invokeAsync"@,
            SessionMethod::ReleaseObject => "releaseObject"@,
            SessionMethod::CancelOutputStream => "cancelOutputStream"@,
            SessionMethod::ReleaseOutputStream => "releaseOutputStream"@,
            SessionMethod::Close => "close"@,
        }
    }

    pub fn name(self) -> (name: &'static str)
        ensures
            name@ == self.label(),
    {
        match self {
            SessionMethod::InvokeSync => "invokeSync",
            SessionMethod::InvokeAsync => "invokeAsync",
            SessionMethod::ReleaseObject => "releaseObject",
            SessionMethod::CancelOutputStream => "cancelOutputStream",
            SessionMethod::ReleaseOutputStream => "releaseOutputStream",
            SessionMethod::Close => "close",
        }
    }
}

/// All methods of a session object, in the order in which they are added.
pub fn session_methods() -> (methods: Vec<SessionMethod>)
    ensures
        methods@ == seq![
            SessionMethod::InvokeSync,
            SessionMethod::InvokeAsync,
            SessionMethod::ReleaseObject,
            SessionMethod::CancelOutputStream,
            SessionMethod::ReleaseOutputStream,
            SessionMethod::Close,
        ],
{
    let mut methods: Vec<SessionMethod> = Vec::new();
    methods.push(SessionMethod::InvokeSync);
    methods.push(SessionMethod::InvokeAsync);
    methods.push(SessionMethod::ReleaseObject);
    methods.push(SessionMethod::CancelOutputStream);
    methods.push(SessionMethod::ReleaseOutputStream);
    methods.push(SessionMethod::Close);
    methods
}

} // verus!
