//! Closing a session.

use crate::family::DeadlineAction;
use crate::ordered;
use crate::session::rollback::ReleasedLeases;
use crate::session::state::{
    CloseSignal, InvocationSnapshot, ResourceHooks, SessionModel, SessionOperation, SessionState,
    TrackedResource,
};
use crate::session::types::{
    CallbackArgumentModel, CallbackKey, CallbackRegistrationToken, JsDeferred, JsRef, JsTimer,
    SessionResourceReceiver,
};
use std::collections::BTreeSet;
use vstd::prelude::*;

verus! {

broadcast use {vstd::std_specs::btree::group_btree_axioms, vstd::laws_cmp::group_laws_cmp};

/// Those references that exist, in order.
pub open spec fn present(references: Seq<Option<JsRef>>) -> Seq<JsRef>
    decreases references.len(),
{
    if references.len() == 0 {
        Seq::empty()
    } else {
        match references.last() {
            Some(reference) => present(references.drop_last()).push(reference),
            None => present(references.drop_last()),
        }
    }
}

impl SessionModel {
    /// The session closed, with its leases and transfers given back.
    pub open spec fn leases_closed(self) -> SessionModel {
        SessionModel {
            closed: true,
            leases: Seq::empty(),
            owners: Seq::empty(),
            transfers: Seq::empty(),
            ..self
        }
    }

    /// The session with every input stream given up. None of them comes back.
    pub open spec fn streams_closed(self) -> SessionModel {
        SessionModel {
            input_streams: Set::empty(),
            released_input_streams: self.released_input_streams.union(self.input_streams),
            ..self
        }
    }

    /// Every reference that the session itself holds, in the order in which
    /// they are deleted.
    pub open spec fn references(self) -> Seq<Option<JsRef>> {
        Seq::new(self.operations.len(), |i: int| self.operations[i].callback) + seq![
            self.host,
            self.release_callback,
            self.close_promise,
            self.hooks.release_object,
            self.hooks.cancel_output_stream,
            self.hooks.release_output_stream,
        ]
    }

    /// The session holds none of its references any more.
    pub open spec fn forgotten(self, before: SessionModel) -> bool {
        &&& self.operations.len() == before.operations.len()
        &&& forall|i: int|
            0 <= i < self.operations.len() ==> (#[trigger] self.operations[i]) == (
            SessionOperation { callback: None, ..before.operations[i] })
        &&& self == (SessionModel {
            operations: self.operations,
            host: None,
            release_callback: None,
            close_promise: None,
            close_deferred: None,
            hooks: ResourceHooks {
                release_object: None,
                cancel_output_stream: None,
                release_output_stream: None,
            },
            ..before
        })
    }
}

/// How closing ends a tracked resource.
#[derive(Clone, Copy, Debug, PartialEq, Eq, Structural)]
pub enum CloseAction {
    /// Cancel the output stream; it is released after that.
    CancelOutput,
    /// Release the resource.
    Release,
}

/// How closing ends a tracked resource: an output stream is cancelled, any other
/// resource released.
pub fn close_action(resource: &TrackedResource) -> (action: CloseAction)
    ensures
        action == if resource.kind is OutputStream {
            CloseAction::CancelOutput
        } else {
            CloseAction::Release
        },
{
    match resource.kind {
        SessionResourceReceiver::OutputStream => CloseAction::CancelOutput,
        SessionResourceReceiver::Object | SessionResourceReceiver::InputStream =>
        CloseAction::Release,
    }
}

impl SessionState {
    /// Closes the session. Only the first close has work to do: the tokens to
    /// claim and the transfers to discard, after which every lease that is
    /// still live is claimed and all pending releases run.
    pub fn close(&mut self) -> (r: Option<ReleasedLeases>)
        ensures
            if old(self)@.closed {
                r is None && final(self)@ == old(self)@
            } else {
                &&& r matches Some(released)
                &&& released.tokens@ == old(self)@.leases + old(self)@.owners
                &&& released.transfers@ == old(self)@.transfers
                &&& final(self)@ == old(self)@.leases_closed()
            },
    {
        if self.closed {
            return None;
        }
        self.closed = true;
        let mut tokens: Vec<u64> = Vec::new();
        std::mem::swap(&mut tokens, &mut self.leases);
        let mut owners: Vec<u64> = Vec::new();
        std::mem::swap(&mut owners, &mut self.owners);
        let mut transfers: Vec<u32> = Vec::new();
        std::mem::swap(&mut transfers, &mut self.transfers);
        tokens.append(&mut owners);
        Some(ReleasedLeases { tokens, transfers })
    }

    /// Gives up every input stream. The host is asked to release each of them,
    /// in ascending order, and none of them is tracked again.
    pub fn close_streams(&mut self) -> (streams: Vec<u32>)
        ensures
            ordered::lists(streams@, old(self)@.input_streams),
            final(self)@ == old(self)@.streams_closed(),
    {
        let ghost before = self@;
        let streams: Vec<u32> = ordered::ascending(&self.input_streams);
        self.input_streams = BTreeSet::new();
        for i in 0..streams.len()
            invariant
                self@ == (SessionModel {
                    input_streams: Set::empty(),
                    released_input_streams: before.released_input_streams.union(
                        streams@.take(i as int).to_set(),
                    ),
                    ..before
                }),
        {
            self.released_input_streams.insert(streams[i]);
            proof {
                let listed = streams@.take(i as int);
                let more = streams@.take(i + 1);
                assert(more =~= listed.push(streams@[i as int]));
                assert(more[i as int] == streams@[i as int]);
                assert forall|id: u32| more.to_set().contains(id) <==> listed.to_set().contains(id)
                    || id == streams@[i as int] by {
                    if listed.contains(id) {
                        let k = choose|k: int| 0 <= k < listed.len() && listed[k] == id;
                        assert(more[k] == id);
                    }
                }
                assert(self@.released_input_streams =~= before.released_input_streams.union(
                    more.to_set(),
                ));
            }
        }
        assert(streams@.take(streams.len() as int) =~= streams@);
        streams
    }

    /// The resources that closing has to end, in the order in which they are
    /// tracked. [`close_action`] says how.
    pub fn close_resources(&self) -> (resources: Vec<TrackedResource>)
        ensures
            resources@ == self@.resources,
    {
        let mut resources: Vec<TrackedResource> = Vec::new();
        for i in 0..self.resources.len()
            invariant
                resources@ == self@.resources.take(i as int),
        {
            resources.push(self.resources[i]);
            assert(resources@ =~= self@.resources.take(i + 1));
        }
        assert(self@.resources.take(self.resources.len() as int) =~= self@.resources);
        resources
    }

    /// The promise that every close of this session returns, once it exists.
    pub fn existing_close_promise(&self) -> (promise: Option<JsRef>)
        ensures
            promise == self@.close_promise,
    {
        self.close_promise
    }

    /// How long the deadline of a close is.
    pub fn close_grace_ms(&self) -> (r: u32)
        ensures
            r == self@.policy.grace_ms,
    {
        self.policy.grace_ms
    }

    /// Takes the close promise that was made, with its resolver and its
    /// deadline. Without pending work it is resolved at once.
    pub fn close_promise_created(
        &mut self,
        promise: JsRef,
        deferred: JsDeferred,
        timer: Option<JsTimer>,
    ) -> (signal: CloseSignal)
        ensures
            ({
                let created = SessionModel {
                    close_promise: Some(promise),
                    close_deferred: Some(deferred),
                    close_timer: timer,
                    ..old(self)@
                };
                if old(self)@.pending_work == 0 {
                    &&& signal == (CloseSignal { deferred: Some(deferred), timer })
                    &&& final(self)@ == created.close_resolved()
                } else {
                    &&& signal == (CloseSignal { deferred: None, timer: None })
                    &&& final(self)@ == created
                }
            }),
    {
        self.close_promise = Some(promise);
        self.close_deferred = Some(deferred);
        self.close_timer = timer;
        if self.pending_work == 0 {
            self.resolve_close_deferred()
        } else {
            CloseSignal { deferred: None, timer: None }
        }
    }

    /// The deadline of a close has passed. The session lets go of what is
    /// still pending and resolves the close promise.
    pub fn close_deadline(&mut self) -> (signal: CloseSignal)
        ensures
            signal == (CloseSignal {
                deferred: old(self)@.close_deferred,
                timer: old(self)@.close_timer,
            }),
            final(self)@ == old(self)@.close_resolved(),
    {
        match self.policy.on_deadline {
            DeadlineAction::Detach => self.resolve_close_deferred(),
        }
    }

    /// Gives up every reference that the session itself holds. The caller
    /// deletes them.
    pub fn cleanup_references(&mut self) -> (references: Vec<JsRef>)
        ensures
            references@ == present(old(self)@.references()),
            final(self)@.forgotten(old(self)@),
    {
        let ghost before = self@;
        let ghost all = before.references();
        let mut references: Vec<JsRef> = Vec::new();
        let count: usize = self.operations.len();
        for i in 0..count
            invariant
                count == before.operations.len(),
                all == before.references(),
                before.operations.len() == self.operations.len(),
                self@ == (SessionModel { operations: self@.operations, ..before }),
                forall|j: int|
                    0 <= j < i ==> (#[trigger] self@.operations[j]) == (SessionOperation {
                        callback: None,
                        ..before.operations[j]
                    }),
                forall|j: int|
                    i <= j < self@.operations.len() ==> (#[trigger] self@.operations[j])
                        == before.operations[j],
                references@ == present(all.take(i as int)),
        {
            assert(all.take(i + 1).drop_last() =~= all.take(i as int));
            assert(all[i as int] == before.operations[i as int].callback);
            let operation = &mut self.operations[i];
            if let Some(reference) = operation.callback {
                references.push(reference);
            }
            operation.callback = None;
        }
        let ghost n = before.operations.len() as int;
        push_present(&mut references, self.host, Ghost(all), Ghost(n));
        push_present(&mut references, self.release_callback, Ghost(all), Ghost(n + 1));
        push_present(&mut references, self.close_promise, Ghost(all), Ghost(n + 2));
        push_present(&mut references, self.hooks.release_object, Ghost(all), Ghost(n + 3));
        push_present(&mut references, self.hooks.cancel_output_stream, Ghost(all), Ghost(n + 4));
        push_present(&mut references, self.hooks.release_output_stream, Ghost(all), Ghost(n + 5));
        assert(all.take(n + 6) =~= all);
        self.host = None;
        self.release_callback = None;
        self.close_promise = None;
        self.close_deferred = None;
        self.hooks = ResourceHooks {
            release_object: None,
            cancel_output_stream: None,
            release_output_stream: None,
        };
        references
    }
}

fn push_present(
    references: &mut Vec<JsRef>,
    reference: Option<JsRef>,
    Ghost(all): Ghost<Seq<Option<JsRef>>>,
    Ghost(at): Ghost<int>,
)
    requires
        0 <= at < all.len(),
        all[at] == reference,
        old(references)@ == present(all.take(at)),
    ensures
        final(references)@ == present(all.take(at + 1)),
{
    assert(all.take(at + 1).drop_last() =~= all.take(at));
    if let Some(reference) = reference {
        references.push(reference);
    }
}

/// The close promise is resolved at most once, and its deadline stopped at most
/// once: whoever comes first takes both.
pub proof fn close_is_resolved_once(session: SessionModel)
    ensures
        session.close_resolved().close_deferred is None,
        session.close_resolved().close_timer is None,
        session.close_resolved().finish_signal() == (CloseSignal { deferred: None, timer: None }),
        session.close_resolved().close_resolved() == session.close_resolved(),
{
}

/// A closed session holds no lease, no owner and no transfer, and closing it
/// again changes nothing.
pub proof fn closed_session_holds_no_lease(session: SessionModel)
    ensures
        session.leases_closed().closed,
        session.leases_closed().leases.len() == 0,
        session.leases_closed().owners.len() == 0,
        session.leases_closed().transfers.len() == 0,
        session.leases_closed().leases_closed() == session.leases_closed(),
{
}

/// Nothing opens a closed session again, and no work changes what a session is:
/// its number, its operations and its hooks.
pub proof fn closed_session_stays_closed(
    session: SessionModel,
    key: CallbackKey,
    contract: CallbackArgumentModel,
    scoped: Seq<CallbackRegistrationToken>,
    id: u32,
    kind: SessionResourceReceiver,
    same: Seq<JsRef>,
    cancel: bool,
    reference: JsRef,
    snapshot: InvocationSnapshot,
)
    ensures
        keeps_its_course(session, session.with_contract(key, contract)),
        keeps_its_course(session, session.without_scoped(scoped)),
        keeps_its_course(session, session.with_input_stream(id)),
        keeps_its_course(session, session.without_input_stream(id)),
        keeps_its_course(session, session.work_finished()),
        keeps_its_course(session, session.close_resolved()),
        keeps_its_course(session, session.after_claim(kind, same, cancel)),
        keeps_its_course(session, session.cancel_settled(reference)),
        keeps_its_course(session, session.entered(key)),
        keeps_its_course(session, session.left(key)),
        keeps_its_course(session, session.leases_rolled_back(snapshot)),
        keeps_its_course(session, session.streams_rolled_back(snapshot)),
        keeps_its_course(session, session.leases_closed()),
        keeps_its_course(session, session.streams_closed()),
{
}

/// A closed session is still closed, and the session is still the same one.
pub open spec fn keeps_its_course(before: SessionModel, after: SessionModel) -> bool {
    &&& before.closed ==> after.closed
    &&& after.generation == before.generation
    &&& after.operations == before.operations
    &&& after.callback_methods == before.callback_methods
    &&& after.hooks == before.hooks
}

/// Work of a session that concerns its input streams.
pub enum InputStreamStep {
    Note(u32),
    Release(u32),
    Rollback(InvocationSnapshot),
    Close,
    /// Anything else.
    Other,
}

impl InputStreamStep {
    /// The work leads from one state to the other.
    pub open spec fn leads(self, before: SessionModel, after: SessionModel) -> bool {
        match self {
            InputStreamStep::Note(id) => after == before.with_input_stream(id),
            InputStreamStep::Release(id) => after == before.without_input_stream(id),
            InputStreamStep::Rollback(snapshot) => after == before.streams_rolled_back(snapshot),
            InputStreamStep::Close => after == before.streams_closed(),
            InputStreamStep::Other => keeps_input_streams(before, after),
        }
    }

    /// The streams that the host is asked to release.
    pub open spec fn released(self, before: SessionModel) -> Set<u32> {
        match self {
            InputStreamStep::Release(id) => if before.input_streams.contains(id) {
                set![id]
            } else {
                Set::empty()
            },
            InputStreamStep::Rollback(snapshot) => before.added_streams(snapshot),
            InputStreamStep::Close => before.input_streams,
            _ => Set::empty(),
        }
    }
}

/// The input streams are what they were.
pub open spec fn keeps_input_streams(before: SessionModel, after: SessionModel) -> bool {
    &&& after.input_streams == before.input_streams
    &&& after.released_input_streams == before.released_input_streams
}

/// The session goes through these states, one step after the other.
pub open spec fn stream_course(states: Seq<SessionModel>, steps: Seq<InputStreamStep>) -> bool {
    &&& states.len() == steps.len() + 1
    &&& forall|i: int|
        0 <= i < steps.len() ==> (#[trigger] steps[i]).leads(states[i], states[i + 1])
}

/// All other work leaves the input streams alone.
pub proof fn other_work_keeps_input_streams(
    session: SessionModel,
    key: CallbackKey,
    contract: CallbackArgumentModel,
    scoped: Seq<CallbackRegistrationToken>,
    kind: SessionResourceReceiver,
    same: Seq<JsRef>,
    cancel: bool,
    reference: JsRef,
    snapshot: InvocationSnapshot,
)
    ensures
        keeps_input_streams(session, session.with_contract(key, contract)),
        keeps_input_streams(session, session.without_scoped(scoped)),
        keeps_input_streams(session, session.work_finished()),
        keeps_input_streams(session, session.close_resolved()),
        keeps_input_streams(session, session.after_claim(kind, same, cancel)),
        keeps_input_streams(session, session.cancel_settled(reference)),
        keeps_input_streams(session, session.entered(key)),
        keeps_input_streams(session, session.left(key)),
        keeps_input_streams(session, session.leases_rolled_back(snapshot)),
        keeps_input_streams(session, session.leases_closed()),
{
}

/// A stream that was released is not tracked, then or later.
proof fn lemma_released_stays_released(
    states: Seq<SessionModel>,
    steps: Seq<InputStreamStep>,
    from: int,
    to: int,
)
    requires
        stream_course(states, steps),
        states[0].released_input_streams.disjoint(states[0].input_streams),
        0 <= from <= to < states.len(),
    ensures
        states[from].released_input_streams.subset_of(states[to].released_input_streams),
        states[to].released_input_streams.disjoint(states[to].input_streams),
    decreases to,
{
    if to > 0 {
        assert(steps[to - 1].leads(states[to - 1], states[to]));
        if from < to {
            lemma_released_stays_released(states, steps, from, to - 1);
        } else {
            lemma_released_stays_released(states, steps, to - 1, to - 1);
        }
    }
}

/// The host is asked at most once to release an input stream, however often it
/// is noted, released, rolled back or closed; and a stream that was released is
/// never tracked again.
pub proof fn host_releases_each_input_stream_once(
    states: Seq<SessionModel>,
    steps: Seq<InputStreamStep>,
    i: int,
    j: int,
    id: u32,
)
    requires
        stream_course(states, steps),
        states[0].released_input_streams.disjoint(states[0].input_streams),
        0 <= i < j < states.len(),
        steps[i].released(states[i]).contains(id),
    ensures
        !states[j].input_streams.contains(id),
        j < steps.len() ==> !steps[j].released(states[j]).contains(id),
{
    lemma_released_stays_released(states, steps, i, i);
    assert(steps[i].leads(states[i], states[i + 1]));
    assert(states[i + 1].released_input_streams.contains(id));
    lemma_released_stays_released(states, steps, i + 1, j);
}

} // verus!
