//! What becomes of resources, leases and references, told apart by kind and by
//! what has happened before.

use crate::session::close;
use crate::session::leases;
use crate::session::leases::QueueModel;
use crate::session::resources;
use crate::session::resources::ResourceClaim;
use crate::session::rollback;
use crate::session::state::{
    InvocationSnapshot, ResourceHooks, SessionModel, SessionOperation, TrackedResource,
};
use crate::session::types::{CallbackKey, JsRef, SessionResourceReceiver};
use vstd::prelude::*;

verus! {

// ---- Ending resources ----

/// The resource at `k` is the first of this kind behind one of these references.
pub open spec fn first_tracked(
    table: Seq<TrackedResource>,
    kind: SessionResourceReceiver,
    same: Seq<JsRef>,
    k: int,
) -> bool {
    &&& 0 <= k < table.len()
    &&& table[k].kind == kind
    &&& same.contains(table[k].reference)
    &&& forall|i: int|
        0 <= i < k ==> (#[trigger] table[i]).kind != kind || !same.contains(table[i].reference)
}

/// No resource of this kind is behind one of these references.
pub open spec fn untracked(
    table: Seq<TrackedResource>,
    kind: SessionResourceReceiver,
    same: Seq<JsRef>,
) -> bool {
    forall|i: int|
        0 <= i < table.len() ==> (#[trigger] table[i]).kind != kind || !same.contains(
            table[i].reference,
        )
}

pub(crate) proof fn lemma_tracked(
    table: Seq<TrackedResource>,
    kind: SessionResourceReceiver,
    same: Seq<JsRef>,
    from: int,
    k: int,
)
    requires
        0 <= from <= k,
        first_tracked(table, kind, same, k),
    ensures
        resources::tracked_from(table, kind, same, from) == Some(k),
    decreases k - from,
{
    if from < k {
        lemma_tracked(table, kind, same, from + 1, k);
    }
}

proof fn lemma_untracked(
    table: Seq<TrackedResource>,
    kind: SessionResourceReceiver,
    same: Seq<JsRef>,
    from: int,
)
    requires
        0 <= from,
        untracked(table, kind, same),
    ensures
        resources::tracked_from(table, kind, same, from) is None,
    decreases table.len() - from,
{
    if from < table.len() {
        lemma_untracked(table, kind, same, from + 1);
    }
}

/// A value that stands for no tracked resource has nothing to cancel or to release.
pub proof fn untracked_value_needs_nothing(
    session: SessionModel,
    kind: SessionResourceReceiver,
    same: Seq<JsRef>,
    cancel: bool,
)
    requires
        untracked(session.resources, kind, same),
    ensures
        session.claim(kind, same, cancel) == ResourceClaim::Nothing,
        session.after_claim(kind, same, cancel) == session,
{
    lemma_untracked(session.resources, kind, same, 0);
}

/// The first cancel of an output stream runs the cancel hook; the stream stays
/// tracked and is marked.
pub proof fn first_cancel_runs_the_cancel_hook(session: SessionModel, same: Seq<JsRef>, k: int)
    requires
        first_tracked(session.resources, SessionResourceReceiver::OutputStream, same, k),
        !session.resources[k].cancel_called,
    ensures
        session.claim(SessionResourceReceiver::OutputStream, same, true) == (ResourceClaim::Run {
            hook: session.hooks.cancel_output_stream,
            dropped: None,
        }),
        session.after_claim(SessionResourceReceiver::OutputStream, same, true) == (SessionModel {
            resources: session.resources.update(
                k,
                TrackedResource { cancel_called: true, ..session.resources[k] },
            ),
            ..session
        }),
{
    lemma_tracked(session.resources, SessionResourceReceiver::OutputStream, same, 0, k);
}

/// A further cancel runs no hook and is answered with the promise of the first, where
/// there is one.
pub proof fn further_cancel_runs_no_hook(session: SessionModel, same: Seq<JsRef>, k: int)
    requires
        first_tracked(session.resources, SessionResourceReceiver::OutputStream, same, k),
        session.resources[k].cancel_called,
    ensures
        session.claim(SessionResourceReceiver::OutputStream, same, true) == match
            session.resources[k].cancel_promise {
            Some(promise) => ResourceClaim::InFlight(promise),
            None => ResourceClaim::Nothing,
        },
        session.after_claim(SessionResourceReceiver::OutputStream, same, true) == session,
{
    lemma_tracked(session.resources, SessionResourceReceiver::OutputStream, same, 0, k);
}

/// The release of an object runs the release hook for objects, and the object leaves
/// the table with its references.
pub proof fn object_release_runs_its_hook(session: SessionModel, same: Seq<JsRef>, k: int)
    requires
        first_tracked(session.resources, SessionResourceReceiver::Object, same, k),
        !session.resources[k].release_called,
    ensures
        session.claim(SessionResourceReceiver::Object, same, false) == (ResourceClaim::Run {
            hook: session.hooks.release_object,
            dropped: Some(
                TrackedResource {
                    release_called: true,
                    release_pending: false,
                    ..session.resources[k]
                },
            ),
        }),
        session.after_claim(SessionResourceReceiver::Object, same, false) == (SessionModel {
            resources: session.resources.update(k, session.resources.last()).drop_last(),
            ..session
        }),
{
    lemma_tracked(session.resources, SessionResourceReceiver::Object, same, 0, k);
}

/// The release of an output stream that is not being cancelled runs the release hook
/// for output streams, and the stream leaves the table with its references.
pub proof fn stream_release_runs_its_hook(session: SessionModel, same: Seq<JsRef>, k: int)
    requires
        first_tracked(session.resources, SessionResourceReceiver::OutputStream, same, k),
        !session.resources[k].release_called,
        !session.resources[k].cancel_pending,
    ensures
        session.claim(SessionResourceReceiver::OutputStream, same, false) == (ResourceClaim::Run {
            hook: session.hooks.release_output_stream,
            dropped: Some(
                TrackedResource {
                    release_called: true,
                    release_pending: false,
                    ..session.resources[k]
                },
            ),
        }),
        session.after_claim(SessionResourceReceiver::OutputStream, same, false) == (SessionModel {
            resources: session.resources.update(k, session.resources.last()).drop_last(),
            ..session
        }),
{
    lemma_tracked(session.resources, SessionResourceReceiver::OutputStream, same, 0, k);
}

/// An object or an input stream that is cancelled leaves the table at once: an object
/// through its release hook, an input stream through none.
pub proof fn cancelled_object_leaves_at_once(session: SessionModel, same: Seq<JsRef>, k: int)
    ensures
        first_tracked(session.resources, SessionResourceReceiver::Object, same, k)
            && !session.resources[k].cancel_called ==> session.claim(
            SessionResourceReceiver::Object,
            same,
            true,
        ) == (ResourceClaim::Run {
            hook: session.hooks.release_object,
            dropped: Some(TrackedResource { cancel_called: true, ..session.resources[k] }),
        }) && session.after_claim(SessionResourceReceiver::Object, same, true) == (SessionModel {
            resources: session.resources.update(k, session.resources.last()).drop_last(),
            ..session
        }),
        first_tracked(session.resources, SessionResourceReceiver::InputStream, same, k)
            && !session.resources[k].cancel_called ==> session.claim(
            SessionResourceReceiver::InputStream,
            same,
            true,
        ) == (ResourceClaim::Run {
            hook: None,
            dropped: Some(TrackedResource { cancel_called: true, ..session.resources[k] }),
        }),
        first_tracked(session.resources, SessionResourceReceiver::InputStream, same, k)
            && !session.resources[k].release_called ==> session.claim(
            SessionResourceReceiver::InputStream,
            same,
            false,
        ) == (ResourceClaim::Run {
            hook: None,
            dropped: Some(
                TrackedResource {
                    release_called: true,
                    release_pending: false,
                    ..session.resources[k]
                },
            ),
        }),
{
    if first_tracked(session.resources, SessionResourceReceiver::Object, same, k) {
        lemma_tracked(session.resources, SessionResourceReceiver::Object, same, 0, k);
    }
    if first_tracked(session.resources, SessionResourceReceiver::InputStream, same, k) {
        lemma_tracked(session.resources, SessionResourceReceiver::InputStream, same, 0, k);
    }
}

/// The release of an output stream that is being cancelled waits: no hook runs, and
/// the stream stays tracked with the release noted.
pub proof fn release_during_a_cancel_is_noted(session: SessionModel, same: Seq<JsRef>, k: int)
    requires
        first_tracked(session.resources, SessionResourceReceiver::OutputStream, same, k),
        !session.resources[k].release_called,
        session.resources[k].cancel_pending,
    ensures
        session.claim(SessionResourceReceiver::OutputStream, same, false)
            == ResourceClaim::Nothing,
        session.after_claim(SessionResourceReceiver::OutputStream, same, false) == (SessionModel {
            resources: session.resources.update(
                k,
                TrackedResource { release_pending: true, ..session.resources[k] },
            ),
            ..session
        }),
{
    lemma_tracked(session.resources, SessionResourceReceiver::OutputStream, same, 0, k);
}

/// A resource that was released already is not released again.
pub proof fn second_release_runs_no_hook(
    session: SessionModel,
    kind: SessionResourceReceiver,
    same: Seq<JsRef>,
    k: int,
)
    requires
        first_tracked(session.resources, kind, same, k),
        session.resources[k].release_called,
    ensures
        session.claim(kind, same, false) == ResourceClaim::Nothing,
        session.after_claim(kind, same, false) == session,
{
    lemma_tracked(session.resources, kind, same, 0, k);
}

/// Every hook ends the kind of resource that it is for; input streams have none.
pub proof fn hooks_belong_to_their_kinds(hooks: ResourceHooks, cancel: bool)
    ensures
        resources::hook_of(hooks, SessionResourceReceiver::Object, cancel) == hooks.release_object,
        resources::hook_of(hooks, SessionResourceReceiver::InputStream, cancel) is None,
        resources::hook_of(hooks, SessionResourceReceiver::OutputStream, true)
            == hooks.cancel_output_stream,
        resources::hook_of(hooks, SessionResourceReceiver::OutputStream, false)
            == hooks.release_output_stream,
{
}

/// A cancellation is new exactly as long as some stream that stands for the value has
/// not been cancelled.
pub proof fn cancel_is_new_until_it_was_called(session: SessionModel, same: Seq<JsRef>, i: int)
    requires
        0 <= i < session.resources.len(),
        session.resources[i].kind == SessionResourceReceiver::OutputStream,
        same.contains(session.resources[i].reference),
    ensures
        !session.resources[i].cancel_called ==> session.cancel_is_new(same),
        session.cancel_is_new(same) ==> exists|j: int|
            #![trigger session.resources[j]]
            0 <= j < session.resources.len() && session.resources[j].kind
                == SessionResourceReceiver::OutputStream && same.contains(
                session.resources[j].reference,
            ) && !session.resources[j].cancel_called,
{
}

/// A cancellation that gets under way or settles changes only whether its stream
/// waits for it.
pub proof fn cancellation_marks_its_stream(session: SessionModel, reference: JsRef, k: int)
    requires
        0 <= k < session.resources.len(),
        session.resources[k].reference == reference,
        forall|i: int| 0 <= i < k ==> (#[trigger] session.resources[i]).reference != reference,
    ensures
        session.cancel_started(k) == (SessionModel {
            resources: session.resources.update(
                k,
                TrackedResource { cancel_pending: true, ..session.resources[k] },
            ),
            ..session
        }),
        session.cancel_settled(reference) == (SessionModel {
            resources: session.resources.update(
                k,
                TrackedResource { cancel_pending: false, ..session.resources[k] },
            ),
            ..session
        }),
{
    lemma_reference(session.resources, reference, 0, k);
}

proof fn lemma_reference(table: Seq<TrackedResource>, reference: JsRef, from: int, k: int)
    requires
        0 <= from <= k < table.len(),
        table[k].reference == reference,
        forall|i: int| 0 <= i < k ==> (#[trigger] table[i]).reference != reference,
    ensures
        resources::reference_from(table, reference, from) == Some(k),
    decreases k - from,
{
    if from < k {
        lemma_reference(table, reference, from + 1, k);
    }
}

/// The references of one kind are those of its resources, in order.
pub proof fn references_are_listed_by_kind(
    table: Seq<TrackedResource>,
    kind: SessionResourceReceiver,
)
    ensures
        resources::references_of(table, kind) == table.filter(
            |resource: TrackedResource| resource.kind == kind,
        ).map_values(|resource: TrackedResource| resource.reference),
    decreases table.len(),
{
    reveal(Seq::filter);
    let of_kind = |resource: TrackedResource| resource.kind == kind;
    let reference_of = |resource: TrackedResource| resource.reference;
    if table.len() > 0 {
        references_are_listed_by_kind(table.drop_last(), kind);
        let before = table.drop_last().filter(of_kind);
        if table.last().kind == kind {
            assert(before.push(table.last()).map_values(reference_of) =~= before.map_values(
                reference_of,
            ).push(table.last().reference));
        }
    } else {
        assert(table.filter(of_kind).map_values(reference_of) =~= Seq::empty());
    }
}

/// A resource starts out neither cancelled nor released.
pub proof fn new_resource_is_untouched(reference: JsRef, kind: SessionResourceReceiver)
    ensures
        resources::fresh_resource(reference, kind) == (TrackedResource {
            reference,
            kind,
            cancel_called: false,
            cancel_pending: false,
            cancel_promise: None,
            release_called: false,
            release_pending: false,
        }),
{
}

// ---- Closing ----

/// A close gives back every lease, owner and transfer, and nothing else.
pub proof fn close_gives_back_the_leases(session: SessionModel)
    ensures
        session.leases_closed() == (SessionModel {
            closed: true,
            leases: Seq::empty(),
            owners: Seq::empty(),
            transfers: Seq::empty(),
            ..session
        }),
{
}

/// A close gives up every input stream, none of which comes back.
pub proof fn close_gives_up_the_streams(session: SessionModel, id: u32)
    ensures
        !session.streams_closed().input_streams.contains(id),
        session.streams_closed().released_input_streams.contains(id) == (
        session.released_input_streams.contains(id) || session.input_streams.contains(id)),
        session.streams_closed() == (SessionModel {
            input_streams: session.streams_closed().input_streams,
            released_input_streams: session.streams_closed().released_input_streams,
            ..session
        }),
        session.input_streams.contains(id) ==> session.streams_closed().with_input_stream(id)
            == session.streams_closed(),
{
}

/// The references that the session holds: those of its native functions first, then
/// those of the host, of its release function, of the close promise and of the hooks.
pub proof fn session_lists_its_references(session: SessionModel, i: int)
    ensures
        ({
            let n = session.operations.len() as int;
            let list = session.references();
            &&& list.len() == n + 6
            &&& 0 <= i < n ==> list[i] == session.operations[i].callback
            &&& list[n] == session.host
            &&& list[n + 1] == session.release_callback
            &&& list[n + 2] == session.close_promise
            &&& list[n + 3] == session.hooks.release_object
            &&& list[n + 4] == session.hooks.cancel_output_stream
            &&& list[n + 5] == session.hooks.release_output_stream
        }),
{
}

/// Every reference that exists is deleted, in order, and no other.
pub proof fn existing_references_are_deleted(references: Seq<Option<JsRef>>)
    ensures
        close::present(references) == references.filter(
            |reference: Option<JsRef>| reference is Some,
        ).map_values(|reference: Option<JsRef>| reference.unwrap()),
    decreases references.len(),
{
    reveal(Seq::filter);
    let held = |reference: Option<JsRef>| reference is Some;
    let inner = |reference: Option<JsRef>| reference.unwrap();
    if references.len() > 0 {
        existing_references_are_deleted(references.drop_last());
        let before = references.drop_last().filter(held);
        if references.last() is Some {
            assert(before.push(references.last()).map_values(inner) =~= before.map_values(
                inner,
            ).push(references.last().unwrap()));
        }
    } else {
        assert(references.filter(held).map_values(inner) =~= Seq::empty());
    }
}

/// Once its references are gone, the session has none left, and each operation is
/// otherwise as it was.
pub proof fn forgotten_session_has_no_references(
    before: SessionModel,
    after: SessionModel,
    i: int,
)
    requires
        after.forgotten(before),
    ensures
        after.references().len() == before.references().len(),
        0 <= i < after.references().len() ==> after.references()[i] is None,
        0 <= i < after.operations.len() ==> after.operations[i] == (SessionOperation {
            callback: None,
            ..before.operations[i]
        }),
        after.close_deferred is None,
        after.resources == before.resources,
        after.pending_work == before.pending_work,
        after.closed == before.closed,
        after.input_streams == before.input_streams,
        after.released_input_streams == before.released_input_streams,
        after.close_timer == before.close_timer,
{
}

// ---- Rolling back ----

/// A list that has grown is cut back to its earlier length, and what lies beyond is
/// what it grew by; one that has not is left alone.
pub proof fn list_is_cut_where_it_stood<T>(list: Seq<T>, len: int)
    requires
        0 <= len,
    ensures
        rollback::within(list, len) + rollback::beyond(list, len) =~= list,
        len <= list.len() ==> rollback::within(list, len).len() == len,
        len > list.len() ==> rollback::within(list, len) == list,
{
}

/// A rollback cuts leases, owners and transfers back to where they stood.
pub proof fn rollback_cuts_each_list_by_its_own_mark(
    session: SessionModel,
    snapshot: InvocationSnapshot,
)
    requires
        snapshot.lease_len <= session.leases.len(),
        snapshot.owner_len <= session.owners.len(),
        snapshot.transfer_len <= session.transfers.len(),
    ensures
        session.leases_rolled_back(snapshot) == (SessionModel {
            leases: session.leases.take(snapshot.lease_len as int),
            owners: session.owners.take(snapshot.owner_len as int),
            transfers: session.transfers.take(snapshot.transfer_len as int),
            ..session
        }),
{
    assert(session.leases.take(session.leases.len() as int) =~= session.leases);
    assert(session.owners.take(session.owners.len() as int) =~= session.owners);
    assert(session.transfers.take(session.transfers.len() as int) =~= session.transfers);
}

/// A rollback gives up the input streams that joined since the snapshot; they do not
/// come back, and the others stay.
pub proof fn rollback_gives_up_the_new_streams(
    session: SessionModel,
    snapshot: InvocationSnapshot,
    id: u32,
)
    ensures
        ({
            let after = session.streams_rolled_back(snapshot);
            let joined = session.input_streams.contains(id) && !snapshot.streams@.contains(id);
            &&& session.added_streams(snapshot).contains(id) == joined
            &&& after.input_streams.contains(id) == (session.input_streams.contains(id) && !joined)
            &&& after.released_input_streams.contains(id) == (
            session.released_input_streams.contains(id) || joined)
            &&& after == (SessionModel {
                input_streams: after.input_streams,
                released_input_streams: after.released_input_streams,
                ..session
            })
        }),
{
}

/// A rollback takes resources from the end of the table and never below the floor.
pub proof fn rollback_takes_the_newest(table: Seq<TrackedResource>, floor: int)
    requires
        0 <= floor,
    ensures
        rollback::newest(table, floor) == if table.len() > floor {
            Some(table.len() - 1)
        } else {
            None
        },
{
}

/// Only an output stream that is being cancelled and is to be released after that
/// waits; no object and no input stream does.
pub proof fn only_cancelled_streams_wait(resource: TrackedResource)
    ensures
        rollback::waiting(resource) ==> resource.kind == SessionResourceReceiver::OutputStream,
        resource.kind == SessionResourceReceiver::OutputStream ==> rollback::waiting(resource) == (
        resource.cancel_pending && resource.release_pending),
{
}

// ---- Leases ----

/// A lease is live under its own token from when it is taken until it is claimed,
/// and its release is then owed to the callback that it was taken for.
pub proof fn lease_is_released_for_its_callback(queue: QueueModel, key: CallbackKey)
    requires
        queue.valid(),
        queue.next_token < u64::MAX,
    ensures
        ({
            let taken = queue.registered(key);
            &&& taken.active.dom().contains(queue.next_token)
            &&& taken.active[queue.next_token] == key
            &&& taken.next_token == queue.next_token + 1
            &&& taken.pending == queue.pending
            &&& taken.active.remove(queue.next_token) =~= queue.active
            &&& taken.claimed(queue.next_token).pending == queue.pending.push(key)
            &&& taken.claimed(queue.next_token).active =~= queue.active
            &&& taken.scheduler == queue.scheduler
            &&& taken.closed == queue.closed
        }),
{
    assert(!queue.active.dom().contains(queue.next_token));
    assert(queue.registered(key).active.remove(queue.next_token) =~= queue.active);
}

/// A claim touches only its own token, and an unknown one nothing.
pub proof fn claim_touches_its_own_lease(queue: QueueModel, token: u64, other: u64)
    requires
        token != other,
    ensures
        queue.claimed(token).active.dom().contains(other) == queue.active.dom().contains(other),
        queue.active.dom().contains(other) ==> queue.claimed(token).active[other]
            == queue.active[other],
        !queue.claimed(token).active.dom().contains(token),
        !queue.active.dom().contains(token) ==> queue.claimed(token) == queue,
        queue.active.dom().contains(token) ==> queue.claimed(token).pending == queue.pending.push(
            queue.active[token],
        ),
        queue.claimed(token).next_token == queue.next_token,
        queue.claimed(token).scheduler == queue.scheduler,
        queue.claimed(token).closed == queue.closed,
{
}

/// A new queue is open, owes nothing and has handed out no token.
pub proof fn new_queue_owes_nothing()
    ensures
        QueueModel::empty() == (QueueModel {
            next_token: 0,
            active: Map::empty(),
            pending: Seq::empty(),
            scheduler: None,
            closed: false,
        }),
{
}

/// Numbers are handed out one after the other, and none after the last.
pub proof fn numbers_follow_each_other(next: u32)
    ensures
        next < u32::MAX ==> leases::numbered(next) == (Some(next), (next + 1) as u32),
        next == u32::MAX ==> leases::numbered(next) == (None::<u32>, next),
{
}

} // verus!
