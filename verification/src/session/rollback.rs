//! Undoing the leases of a call that failed.

use crate::ordered;
use crate::session::resources;
use crate::session::state::{InvocationSnapshot, SessionModel, SessionState, TrackedResource};
use crate::session::types::{
    CallbackArgumentModel, CallbackKey, CallbackRegistrationToken, JsRef, SessionResourceReceiver,
};
use vstd::prelude::*;

verus! {

broadcast use {vstd::std_specs::btree::group_btree_axioms, vstd::laws_cmp::group_laws_cmp};

/// The leases and transfers that a call has to give back.
pub struct ReleasedLeases {
    /// Tokens to claim in the release queue, in this order.
    pub tokens: Vec<u64>,
    /// Transfers to discard, in this order.
    pub transfers: Vec<u32>,
}

/// The part of a list that lies beyond its first `len` entries.
pub open spec fn beyond<T>(list: Seq<T>, len: int) -> Seq<T> {
    if list.len() <= len {
        Seq::empty()
    } else {
        list.skip(len)
    }
}

/// The part of a list up to its first `len` entries.
pub open spec fn within<T>(list: Seq<T>, len: int) -> Seq<T> {
    if list.len() <= len {
        list
    } else {
        list.take(len)
    }
}

/// An output stream whose release waits for its cancellation; it is released
/// when that has settled, whatever else happens.
pub open spec fn waiting(resource: TrackedResource) -> bool {
    resource.kind is OutputStream && resource.cancel_pending && resource.release_pending
}

/// The place of the newest resource, where it does not lie below `floor`.
pub open spec fn newest(resources: Seq<TrackedResource>, floor: int) -> Option<int> {
    if resources.len() <= floor {
        None
    } else {
        Some(resources.len() - 1)
    }
}

impl SessionModel {
    /// The session without the leases, owners and transfers beyond a snapshot.
    pub open spec fn leases_rolled_back(
        self,
        snapshot: InvocationSnapshot,
    ) -> SessionModel {
        SessionModel {
            leases: within(self.leases, snapshot.lease_len as int),
            owners: within(self.owners, snapshot.owner_len as int),
            transfers: within(self.transfers, snapshot.transfer_len as int),
            ..self
        }
    }

    /// The input streams that joined since a snapshot.
    pub open spec fn added_streams(self, snapshot: InvocationSnapshot) -> Set<u32> {
        self.input_streams.difference(snapshot.streams@)
    }

    /// The session without the input streams that joined since a snapshot.
    pub open spec fn streams_rolled_back(self, snapshot: InvocationSnapshot) -> SessionModel {
        SessionModel {
            input_streams: self.input_streams.intersect(snapshot.streams@),
            released_input_streams: self.released_input_streams.union(
                self.added_streams(snapshot),
            ),
            ..self
        }
    }
}

fn tail<T>(list: &mut Vec<T>, len: usize) -> (tail: Vec<T>)
    ensures
        tail@ == beyond(old(list)@, len as int),
        final(list)@ == within(old(list)@, len as int),
{
    if list.len() <= len {
        Vec::new()
    } else {
        list.split_off(len)
    }
}

impl SessionState {
    /// Gives back the leases and transfers that joined since the snapshot.
    pub fn rollback_leases(&mut self, snapshot: &InvocationSnapshot) -> (r: ReleasedLeases)
        ensures
            r.tokens@ == beyond(old(self)@.leases, snapshot.lease_len as int) + beyond(
                old(self)@.owners,
                snapshot.owner_len as int,
            ),
            r.transfers@ == beyond(old(self)@.transfers, snapshot.transfer_len as int),
            final(self)@ == old(self)@.leases_rolled_back(*snapshot),
    {
        let mut tokens: Vec<u64> = tail(&mut self.leases, snapshot.lease_len);
        let mut owners: Vec<u64> = tail(&mut self.owners, snapshot.owner_len);
        tokens.append(&mut owners);
        let transfers: Vec<u32> = tail(&mut self.transfers, snapshot.transfer_len);
        ReleasedLeases { tokens, transfers }
    }

    /// Gives back the input streams that joined since the snapshot, in
    /// ascending order. The host is asked to release each of them.
    pub fn rollback_streams(&mut self, snapshot: &InvocationSnapshot) -> (streams: Vec<u32>)
        ensures
            ordered::lists(streams@, old(self)@.added_streams(*snapshot)),
            final(self)@ == old(self)@.streams_rolled_back(*snapshot),
    {
        let all: Vec<u32> = ordered::ascending(&self.input_streams);
        let ghost before = self@;
        let mut added: Vec<u32> = Vec::new();
        for i in 0..all.len()
            invariant
                ordered::lists(all@, before.input_streams),
                forall|a: int, b: int| 0 <= a < b < added.len() ==> added[a] < added[b],
                forall|a: int, b: int|
                    0 <= a < added.len() && i <= b < all.len() ==> added[a] < all[b],
                forall|id: u32| #[trigger]
                    added@.contains(id) <==> !snapshot.streams@.contains(id) && exists|b: int|
                        0 <= b < i && all[b] == id,
                self@ == (SessionModel {
                    input_streams: self@.input_streams,
                    released_input_streams: self@.released_input_streams,
                    ..before
                }),
                forall|id: u32| #[trigger]
                    self@.input_streams.contains(id) <==> before.input_streams.contains(id)
                        && !added@.contains(id),
                forall|id: u32| #[trigger]
                    self@.released_input_streams.contains(id)
                        <==> before.released_input_streams.contains(id) || added@.contains(id),
        {
            let id: u32 = all[i];
            let ghost listed = added@;
            if !snapshot.streams.contains(&id) {
                self.input_streams.remove(&id);
                self.released_input_streams.insert(id);
                added.push(id);
                assert forall|x: u32| #[trigger]
                    added@.contains(x) <==> listed.contains(x) || x == id by {
                    if listed.contains(x) {
                        let k = choose|k: int| 0 <= k < listed.len() && listed[k] == x;
                        assert(added@[k] == x);
                    }
                    assert(added@[listed.len() as int] == id);
                    if added@.contains(x) && x != id {
                        let k = choose|k: int| 0 <= k < added@.len() && added@[k] == x;
                        assert(listed[k] == x);
                    }
                }
            }
            assert forall|x: u32| #[trigger] added@.contains(x) <==> !snapshot.streams@.contains(x)
                && exists|b: int| 0 <= b < i + 1 && all[b] == x by {
                if exists|b: int| 0 <= b < i + 1 && all[b] == x {
                    let b = choose|b: int| 0 <= b < i + 1 && all[b] == x;
                    if b == i {
                        assert(x == id);
                    }
                }
                if listed.contains(x) {
                    let b = choose|b: int| 0 <= b < i && all[b] == x;
                    assert(all[b] == x);
                }
                assert(all[i as int] == id);
            }
        }
        proof {
            assert forall|id: u32| added@.contains(id) <==> before.added_streams(
                *snapshot,
            ).contains(id) by {
                if before.input_streams.contains(id) {
                    assert(all@.to_set().contains(id));
                    let b = choose|b: int| 0 <= b < all.len() && all[b] == id;
                    assert(all[b] == id);
                }
                if added@.contains(id) {
                    let b = choose|b: int| 0 <= b < all.len() && all[b] == id;
                    assert(all@.to_set().contains(all[b]));
                }
            }
            assert(added@.to_set() =~= before.added_streams(*snapshot));
            assert(self@.input_streams =~= before.streams_rolled_back(*snapshot).input_streams);
            assert(self@.released_input_streams =~= before.streams_rolled_back(
                *snapshot,
            ).released_input_streams);
        }
        added
    }

    /// The next resource to release: the newest one, where it joined since the
    /// snapshot.
    pub fn rollback_next(&self, snapshot: &InvocationSnapshot) -> (r: Option<TrackedResource>)
        ensures
            r == match newest(self@.resources, snapshot.resource_len as int) {
                None => None,
                Some(index) => Some(self@.resources[index]),
            },
    {
        if self.resources.len() <= snapshot.resource_len {
            None
        } else {
            Some(self.resources[self.resources.len() - 1])
        }
    }

    /// Drops the newest resource because its value is gone, where it joined since
    /// the snapshot. The caller deletes its reference.
    pub fn rollback_lost(&mut self, snapshot: &InvocationSnapshot) -> (reference: Option<JsRef>)
        ensures
            match newest(old(self)@.resources, snapshot.resource_len as int) {
                None => reference is None && final(self)@ == old(self)@,
                Some(index) => {
                    &&& reference == Some(old(self)@.resources[index].reference)
                    &&& final(self)@ == old(self)@.without_resource(index)
                },
            },
    {
        if self.resources.len() <= snapshot.resource_len {
            return None;
        }
        let ghost before = self@;
        match self.resources.pop() {
            None => None,
            Some(resource) => {
                let ghost last = before.resources.len() - 1;
                assert(before.resources.update(last, before.resources[last])
                    =~= before.resources);
                assert(self@ == before.without_resource(last));
                Some(resource.reference)
            },
        }
    }
}

/// How far a call has been undone.
#[derive(Clone, Copy, Debug, PartialEq, Eq, Structural)]
pub enum RollbackPhase {
    Leases,
    Streams,
    Resources,
}

/// What undoing a call does next.
pub enum RollbackStep {
    /// Claim these leases, discard these transfers, then run the releases that
    /// are pending.
    Leases(ReleasedLeases),
    /// Ask the host to release these input streams.
    Streams(Vec<u32>),
    /// Release this resource, or drop it where its value is gone.
    Resource(TrackedResource),
    Finished,
}

/// A call being undone.
pub struct Rollback {
    pub snapshot: InvocationSnapshot,
    pub phase: RollbackPhase,
}

impl Rollback {
    pub fn start(snapshot: InvocationSnapshot) -> (r: Rollback)
        ensures
            r.snapshot == snapshot,
            r.phase is Leases,
    {
        Rollback { snapshot, phase: RollbackPhase::Leases }
    }

    /// Takes the next step: leases first, then input streams, then the
    /// resources one by one, newest first.
    pub fn step(&mut self, state: &mut SessionState) -> (step: RollbackStep)
        ensures
            final(self).snapshot == old(self).snapshot,
            match old(self).phase {
                RollbackPhase::Leases => {
                    &&& step matches RollbackStep::Leases(released)
                    &&& released.tokens@ == beyond(
                        old(state)@.leases,
                        old(self).snapshot.lease_len as int,
                    ) + beyond(old(state)@.owners, old(self).snapshot.owner_len as int)
                    &&& released.transfers@ == beyond(
                        old(state)@.transfers,
                        old(self).snapshot.transfer_len as int,
                    )
                    &&& final(state)@ == old(state)@.leases_rolled_back(old(self).snapshot)
                    &&& final(self).phase is Streams
                },
                RollbackPhase::Streams => {
                    &&& step matches RollbackStep::Streams(streams)
                    &&& ordered::lists(streams@, old(state)@.added_streams(old(self).snapshot))
                    &&& final(state)@ == old(state)@.streams_rolled_back(old(self).snapshot)
                    &&& final(self).phase is Resources
                },
                RollbackPhase::Resources => {
                    &&& final(state)@ == old(state)@
                    &&& final(self).phase is Resources
                    &&& match newest(
                        old(state)@.resources,
                        old(self).snapshot.resource_len as int,
                    ) {
                        None => step is Finished,
                        Some(index) => step == RollbackStep::Resource(old(state)@.resources[index]),
                    }
                },
            },
    {
        match self.phase {
            RollbackPhase::Leases => {
                self.phase = RollbackPhase::Streams;
                RollbackStep::Leases(state.rollback_leases(&self.snapshot))
            },
            RollbackPhase::Streams => {
                self.phase = RollbackPhase::Resources;
                RollbackStep::Streams(state.rollback_streams(&self.snapshot))
            },
            RollbackPhase::Resources => match state.rollback_next(&self.snapshot) {
                None => RollbackStep::Finished,
                Some(resource) => RollbackStep::Resource(resource),
            },
        }
    }

    /// Whether undoing cannot go on now: the newest resource is an output stream
    /// whose release waits for its cancellation, so releasing it again changes
    /// nothing.
    pub fn is_held_up(&self, state: &SessionState) -> (r: bool)
        ensures
            r == (self.phase is Resources && (newest(
                state@.resources,
                self.snapshot.resource_len as int,
            ) matches Some(index) && waiting(state@.resources[index]))),
    {
        match (self.phase, state.rollback_next(&self.snapshot)) {
            (RollbackPhase::Resources, Some(resource)) => {
                resource.kind == SessionResourceReceiver::OutputStream && resource.cancel_pending
                    && resource.release_pending
            },
            _ => false,
        }
    }
}

/// Nothing that the session holds in `before` is missing in `after`; whatever
/// joined stands behind it.
pub open spec fn extends(before: SessionModel, after: SessionModel) -> bool {
    &&& before.leases.is_prefix_of(after.leases)
    &&& before.owners.is_prefix_of(after.owners)
    &&& before.transfers.is_prefix_of(after.transfers)
    &&& before.input_streams.subset_of(after.input_streams)
    &&& before.resources.is_prefix_of(after.resources)
}

/// Taking leases only adds: a lease, an owner, a transfer, an input stream, a
/// resource or a use-site in force leaves everything in place that was there
/// before, and so does a use-site that ends.
pub proof fn taking_leases_only_adds(
    before: SessionModel,
    session: SessionModel,
    token: u64,
    id: u32,
    resource: TrackedResource,
    key: CallbackKey,
    contract: CallbackArgumentModel,
    scoped: Seq<CallbackRegistrationToken>,
)
    requires
        extends(before, session),
    ensures
        extends(before, SessionModel { leases: session.leases.push(token), ..session }),
        extends(before, SessionModel { owners: session.owners.push(token), ..session }),
        extends(before, SessionModel { transfers: session.transfers.push(id), ..session }),
        extends(before, session.with_input_stream(id)),
        extends(before, SessionModel { resources: session.resources.push(resource), ..session }),
        extends(before, session.with_contract(key, contract)),
        extends(before, session.without_scoped(scoped)),
{
    assert(before.leases =~= session.leases.push(token).take(before.leases.len() as int));
    assert(before.owners =~= session.owners.push(token).take(before.owners.len() as int));
    assert(before.transfers =~= session.transfers.push(id).take(before.transfers.len() as int));
    assert(before.resources =~= session.resources.push(resource).take(
        before.resources.len() as int,
    ));
}

/// Rolling back gives back exactly what joined since the snapshot, and leaves
/// what was there before.
pub proof fn rollback_restores_the_snapshot(
    before: SessionModel,
    after: SessionModel,
    snapshot: InvocationSnapshot,
)
    requires
        snapshot.records(before),
        extends(before, after),
    ensures
        after.leases_rolled_back(snapshot).leases == before.leases,
        after.leases_rolled_back(snapshot).owners == before.owners,
        after.leases_rolled_back(snapshot).transfers == before.transfers,
        before.leases + beyond(after.leases, snapshot.lease_len as int) == after.leases,
        before.owners + beyond(after.owners, snapshot.owner_len as int) == after.owners,
        before.transfers + beyond(after.transfers, snapshot.transfer_len as int) == after.transfers,
        after.streams_rolled_back(snapshot).input_streams == before.input_streams,
        after.added_streams(snapshot).subset_of(
            after.streams_rolled_back(snapshot).released_input_streams,
        ),
{
    let rolled = after.leases_rolled_back(snapshot);
    assert(rolled.leases =~= before.leases);
    assert(rolled.owners =~= before.owners);
    assert(rolled.transfers =~= before.transfers);
    assert(before.leases + beyond(after.leases, snapshot.lease_len as int) =~= after.leases);
    assert(before.owners + beyond(after.owners, snapshot.owner_len as int) =~= after.owners);
    assert(before.transfers + beyond(after.transfers, snapshot.transfer_len as int)
        =~= after.transfers);
    assert(after.streams_rolled_back(snapshot).input_streams =~= before.input_streams);
}

/// Undoing takes the resources newest first and none from below the snapshot.
/// Releasing the newest one takes it away and leaves the others in place, unless
/// it is an output stream that is being cancelled: that one keeps its place, and
/// releasing it once more changes nothing.
pub proof fn rollback_takes_only_new_resources(
    session: SessionModel,
    snapshot: InvocationSnapshot,
    same: Seq<JsRef>,
)
    requires
        newest(session.resources, snapshot.resource_len as int) is Some,
        !session.resources.last().release_called,
        resources::tracked_index(session.resources, session.resources.last().kind, same) == Some(
            session.resources.len() - 1,
        ),
    ensures
        ({
            let kind = session.resources.last().kind;
            let after = session.after_claim(kind, same, false);
            &&& session.resources.len() > snapshot.resource_len
            &&& if kind is OutputStream && session.resources.last().cancel_pending {
                &&& session.claim(kind, same, false) is Nothing
                &&& after.resources.drop_last() == session.resources.drop_last()
                &&& waiting(after.resources.last())
                &&& after.after_claim(kind, same, false) == after
            } else {
                &&& session.claim(kind, same, false) is Run
                &&& after.resources == session.resources.drop_last()
            }
        }),
{
    let kind = session.resources.last().kind;
    let last = session.resources.len() - 1;
    let after = session.after_claim(kind, same, false);
    if kind is OutputStream && session.resources.last().cancel_pending {
        resources::lemma_first_stays_first(session.resources, after.resources, kind, same, last);
        assert(after.resources.drop_last() =~= session.resources.drop_last());
        assert(after.resources.update(last, after.resources[last]) =~= after.resources);
    } else {
        assert(session.resources.update(last, session.resources.last()) =~= session.resources);
    }
}

} // verus!
