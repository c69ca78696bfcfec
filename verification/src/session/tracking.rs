//! Tracked resources over the life of a session.

use crate::session::resources;
use crate::session::resources::ResourceClaim;
use crate::session::state::{SessionModel, TrackedResource};
use crate::session::types::{JsRef, SessionResourceReceiver};
use vstd::prelude::*;

verus! {

/// Work of a session that concerns its tracked resources.
pub enum ResourceStep {
    /// A value is tracked behind a reference.
    Track { reference: JsRef, kind: SessionResourceReceiver },
    /// A resource is to be cancelled or released.
    Claim { kind: SessionResourceReceiver, same: Seq<JsRef>, cancel: bool },
    /// The promise of a cancellation is kept.
    Remember { same: Seq<JsRef>, promise: JsRef },
    /// The promise of a cancellation is dropped.
    Forget { same: Seq<JsRef> },
    /// A cancellation is waited for.
    Begin { same: Seq<JsRef> },
    /// A cancellation is not waited for any more.
    Settle { reference: JsRef },
    /// A resource is dropped because its value is gone.
    Lose { index: int },
    /// Anything else.
    Other,
}

/// Where the output stream stands in the table.
pub open spec fn output_index(table: Seq<TrackedResource>, same: Seq<JsRef>) -> Option<int> {
    resources::tracked_index(table, SessionResourceReceiver::OutputStream, same)
}

impl ResourceStep {
    /// The work leads from one state to the other.
    pub open spec fn leads(self, before: SessionModel, after: SessionModel) -> bool {
        let table = before.resources;
        match self {
            ResourceStep::Track { reference, kind } => after.resources == table.push(
                resources::fresh_resource(reference, kind),
            ),
            ResourceStep::Claim { kind, same, cancel } => after.resources == before.after_claim(
                kind,
                same,
                cancel,
            ).resources,
            ResourceStep::Remember { same, promise } => after.resources == match output_index(
                table,
                same,
            ) {
                Some(index) if table[index].cancel_promise is None => table.update(
                    index,
                    TrackedResource { cancel_promise: Some(promise), ..table[index] },
                ),
                _ => table,
            },
            ResourceStep::Forget { same } => after.resources == match output_index(table, same) {
                Some(index) => table.update(
                    index,
                    TrackedResource { cancel_promise: None, ..table[index] },
                ),
                None => table,
            },
            ResourceStep::Begin { same } => after.resources == match output_index(table, same) {
                Some(index) => before.cancel_started(index).resources,
                None => table,
            },
            ResourceStep::Settle { reference } => after.resources == before.cancel_settled(
                reference,
            ).resources,
            ResourceStep::Lose { index } => 0 <= index < table.len() && after.resources
                == before.without_resource(index).resources,
            ResourceStep::Other => after.resources == table,
        }
    }

    /// The work runs the hook that cancels (or else the one that releases) the
    /// resource behind this reference.
    pub open spec fn runs(self, before: SessionModel, reference: JsRef, cancelling: bool) -> bool {
        &&& self matches ResourceStep::Claim { kind, same, cancel }
        &&& cancel == cancelling
        &&& before.claim(kind, same, cancel) is Run
        &&& before.resources[resources::tracked_index(
            before.resources,
            kind,
            same,
        )->0].reference == reference
    }

    /// The work tracks a value behind this reference.
    pub open spec fn tracks(self, reference: JsRef) -> bool {
        self matches ResourceStep::Track { reference: found, .. } && found == reference
    }

    /// The work ends the wait for the cancellation of the resource behind this
    /// reference: its promise has settled, or it is let go.
    pub open spec fn lets_go(self, before: SessionModel, reference: JsRef) -> bool {
        match self {
            ResourceStep::Settle { reference: found } => found == reference,
            ResourceStep::Forget { same } => output_index(before.resources, same) matches Some(
                index,
            ) && before.resources[index].reference == reference,
            ResourceStep::Lose { index } => before.resources[index].reference == reference,
            _ => false,
        }
    }

    /// The place in the table that the work empties.
    pub open spec fn removed(self, before: SessionModel) -> Option<int> {
        match self {
            ResourceStep::Claim { kind, same, cancel } => if before.claim(
                kind,
                same,
                cancel,
            ) matches ResourceClaim::Run { dropped: Some(_), .. } {
                resources::tracked_index(before.resources, kind, same)
            } else {
                None
            },
            ResourceStep::Lose { index } => Some(index),
            _ => None,
        }
    }
}

/// Where an entry stood before another one left the table.
pub open spec fn place(removed: Option<int>, len: int, index: int) -> int {
    match removed {
        Some(gone) if index == gone => len - 1,
        _ => index,
    }
}

/// Each tracked value is tracked once, behind a reference of its own. `value_of`
/// says which value a reference stands for.
pub open spec fn apart(table: Seq<TrackedResource>, value_of: spec_fn(JsRef) -> int) -> bool {
    forall|i: int, j: int|
        #![trigger table[i], table[j]]
        0 <= i < j < table.len() ==> {
            &&& table[i].reference != table[j].reference
            &&& table[i].kind == table[j].kind ==> value_of(table[i].reference) != value_of(
                table[j].reference,
            )
        }
}

/// `same` holds, of the tracked references of this kind, those that stand for the
/// value.
pub open spec fn finds(
    table: Seq<TrackedResource>,
    kind: SessionResourceReceiver,
    value_of: spec_fn(JsRef) -> int,
    value: int,
    same: Seq<JsRef>,
) -> bool {
    forall|i: int|
        0 <= i < table.len() && (#[trigger] table[i]).kind == kind ==> (same.contains(
            table[i].reference,
        ) <==> value_of(table[i].reference) == value)
}

/// The references of the table stand for the same values as before.
pub open spec fn agrees(
    table: Seq<TrackedResource>,
    before: spec_fn(JsRef) -> int,
    after: spec_fn(JsRef) -> int,
) -> bool {
    forall|i: int|
        0 <= i < table.len() ==> after((#[trigger] table[i]).reference) == before(
            table[i].reference,
        )
}

/// A value that is tracked now was not tracked before, and its reference is new.
pub open spec fn tracks_anew(
    step: ResourceStep,
    before: SessionModel,
    value_of: spec_fn(JsRef) -> int,
) -> bool {
    step matches ResourceStep::Track { reference, kind } ==> {
        &&& resources::is_unused(before.resources, reference)
        &&& forall|i: int|
            0 <= i < before.resources.len() && (#[trigger] before.resources[i]).kind == kind
                ==> value_of(before.resources[i].reference) != value_of(reference)
    }
}

/// What a step does to the table: at most one entry leaves, at most one joins,
/// and no entry changes what it stands for.
proof fn lemma_shape(before: SessionModel, after: SessionModel, step: ResourceStep)
    requires
        step.leads(before, after),
    ensures
        ({
            let removed = step.removed(before);
            let len = before.resources.len() as int;
            &&& removed matches Some(gone) ==> 0 <= gone < len
            &&& after.resources.len() == len + (if step is Track {
                1int
            } else if removed is Some {
                -1int
            } else {
                0int
            })
            &&& forall|i: int|
                0 <= i < after.resources.len() && i < len ==> {
                    &&& (#[trigger] after.resources[i]).reference == before.resources[place(
                        removed,
                        len,
                        i,
                    )].reference
                    &&& after.resources[i].kind == before.resources[place(removed, len, i)].kind
                }
        }),
{
    let table = before.resources;
    match step {
        ResourceStep::Claim { kind, same, .. } => {
            resources::lemma_tracked_from(table, kind, same, 0);
        },
        ResourceStep::Remember { same, .. } => {
            resources::lemma_tracked_from(table, SessionResourceReceiver::OutputStream, same, 0);
        },
        ResourceStep::Forget { same } => {
            resources::lemma_tracked_from(table, SessionResourceReceiver::OutputStream, same, 0);
        },
        ResourceStep::Begin { same } => {
            resources::lemma_tracked_from(table, SessionResourceReceiver::OutputStream, same, 0);
        },
        ResourceStep::Settle { reference } => {
            lemma_reference_from(table, reference, 0);
        },
        _ => {},
    }
}

proof fn lemma_reference_from(table: Seq<TrackedResource>, reference: JsRef, from: int)
    requires
        0 <= from,
    ensures
        match resources::reference_from(table, reference, from) {
            None => forall|j: int|
                from <= j < table.len() ==> (#[trigger] table[j]).reference != reference,
            Some(index) => {
                &&& from <= index < table.len()
                &&& table[index].reference == reference
                &&& forall|j: int|
                    from <= j < index ==> (#[trigger] table[j]).reference != reference
            },
        },
    decreases table.len() - from,
{
    if from < table.len() && table[from].reference != reference {
        lemma_reference_from(table, reference, from + 1);
    }
}

/// No work lets a value be tracked twice or two values share a reference.
pub proof fn resources_stay_apart(
    before: SessionModel,
    after: SessionModel,
    step: ResourceStep,
    value_before: spec_fn(JsRef) -> int,
    value_after: spec_fn(JsRef) -> int,
)
    requires
        apart(before.resources, value_before),
        step.leads(before, after),
        agrees(before.resources, value_before, value_after),
        tracks_anew(step, before, value_after),
    ensures
        apart(after.resources, value_after),
{
    lemma_shape(before, after, step);
    let removed = step.removed(before);
    let len = before.resources.len() as int;
    assert forall|i: int, j: int|
        #![trigger after.resources[i], after.resources[j]]
        0 <= i < j < after.resources.len() implies {
        &&& after.resources[i].reference != after.resources[j].reference
        &&& after.resources[i].kind == after.resources[j].kind ==> value_after(
            after.resources[i].reference,
        ) != value_after(after.resources[j].reference)
    } by {
        let a = before.resources[place(removed, len, i)];
        if j < len {
            let b = before.resources[place(removed, len, j)];
            assert(place(removed, len, i) != place(removed, len, j));
        }
    }
}

/// Where values are tracked once, those references that stand for one value lead
/// to that one entry, and its reference leads there too.
proof fn lemma_found(
    table: Seq<TrackedResource>,
    value_of: spec_fn(JsRef) -> int,
    same: Seq<JsRef>,
    index: int,
)
    requires
        apart(table, value_of),
        0 <= index < table.len(),
        finds(table, table[index].kind, value_of, value_of(table[index].reference), same),
    ensures
        resources::tracked_index(table, table[index].kind, same) == Some(index),
        resources::tracked_once(table, table[index].kind, same),
        resources::reference_from(table, table[index].reference, 0) == Some(index),
{
    let kind = table[index].kind;
    resources::lemma_tracked_from(table, kind, same, 0);
    lemma_reference_from(table, table[index].reference, 0);
    assert(resources::stands_for(table[index], kind, same));
    assert forall|i: int| 0 <= i < table.len() && i != index implies !resources::stands_for(
        #[trigger] table[i],
        kind,
        same,
    ) by {
        if i < index {
            assert(table[i].reference != table[index].reference);
        } else {
            assert(table[index].reference != table[i].reference);
        }
    }
}

/// The session goes through these states, one step after the other; `values`
/// says for each of them which value a reference stands for.
pub open spec fn resource_course(
    states: Seq<SessionModel>,
    steps: Seq<ResourceStep>,
    values: Seq<spec_fn(JsRef) -> int>,
) -> bool {
    &&& states.len() == steps.len() + 1
    &&& values.len() == states.len()
    &&& apart(states[0].resources, values[0])
    &&& forall|k: int|
        0 <= k < steps.len() ==> {
            &&& (#[trigger] steps[k]).leads(states[k], states[k + 1])
            &&& agrees(states[k].resources, values[k], values[k + 1])
            &&& tracks_anew(steps[k], states[k], values[k + 1])
        }
}

proof fn lemma_apart(
    states: Seq<SessionModel>,
    steps: Seq<ResourceStep>,
    values: Seq<spec_fn(JsRef) -> int>,
    k: int,
)
    requires
        resource_course(states, steps, values),
        0 <= k < states.len(),
    ensures
        apart(states[k].resources, values[k]),
    decreases k,
{
    if k > 0 {
        lemma_apart(states, steps, values, k - 1);
        assert(steps[k - 1].leads(states[k - 1], states[k]));
        resources_stay_apart(
            states[k - 1],
            states[k],
            steps[k - 1],
            values[k - 1],
            values[k],
        );
    }
}

/// The cancel hook of the resource has run: it is cancelled, or it is gone.
pub open spec fn cancel_has_run(table: Seq<TrackedResource>, reference: JsRef) -> bool {
    forall|i: int|
        0 <= i < table.len() && (#[trigger] table[i]).reference == reference
            ==> table[i].cancel_called
}

/// A reference has one place in the table.
proof fn lemma_one_place(
    table: Seq<TrackedResource>,
    value_of: spec_fn(JsRef) -> int,
    a: int,
    b: int,
)
    requires
        apart(table, value_of),
        0 <= a < table.len(),
        0 <= b < table.len(),
        table[a].reference == table[b].reference,
    ensures
        a == b,
{
    if a < b {
        assert(table[a].reference != table[b].reference);
    } else if b < a {
        assert(table[b].reference != table[a].reference);
    }
}

/// A hook that runs leaves its mark.
proof fn lemma_run_marks(
    before: SessionModel,
    after: SessionModel,
    step: ResourceStep,
    value_of: spec_fn(JsRef) -> int,
    reference: JsRef,
    cancelling: bool,
)
    requires
        apart(before.resources, value_of),
        step.leads(before, after),
        step.runs(before, reference, cancelling),
    ensures
        cancel_has_run(after.resources, reference),
        !cancelling ==> resources::is_unused(after.resources, reference),
{
    lemma_shape(before, after, step);
    let table = before.resources;
    let removed = step.removed(before);
    let len = table.len() as int;
    let kind = step->Claim_kind;
    let same = step->Claim_same;
    resources::lemma_tracked_from(table, kind, same, 0);
    let index = resources::tracked_index(table, kind, same)->0;
    assert forall|k: int|
        0 <= k < after.resources.len() && (#[trigger] after.resources[k]).reference
            == reference implies after.resources[k].cancel_called && cancelling by {
        lemma_one_place(table, value_of, place(removed, len, k), index);
    }
}

/// The mark stays.
proof fn lemma_mark_stays(
    before: SessionModel,
    after: SessionModel,
    step: ResourceStep,
    reference: JsRef,
)
    requires
        step.leads(before, after),
        !step.tracks(reference),
    ensures
        cancel_has_run(before.resources, reference) ==> cancel_has_run(after.resources, reference),
        resources::is_unused(before.resources, reference) ==> resources::is_unused(
            after.resources,
            reference,
        ),
{
    lemma_shape(before, after, step);
    let table = before.resources;
    let removed = step.removed(before);
    let len = table.len() as int;
    if cancel_has_run(table, reference) {
        assert forall|k: int|
            0 <= k < after.resources.len() && (#[trigger] after.resources[k]).reference
                == reference implies after.resources[k].cancel_called by {
            let source = table[place(removed, len, k)];
            assert(source.cancel_called);
            lemma_flags(before, after, step, k);
        }
    }
    if resources::is_unused(table, reference) {
        assert forall|k: int| 0 <= k < after.resources.len() implies (
        #[trigger] after.resources[k]).reference != reference by {
            if k < len {
                assert(table[place(removed, len, k)].reference != reference);
            }
        }
    }
}

/// A cancelled resource does not forget that.
proof fn lemma_flags(before: SessionModel, after: SessionModel, step: ResourceStep, k: int)
    requires
        step.leads(before, after),
        0 <= k < after.resources.len(),
        k < before.resources.len(),
    ensures
        ({
            let source = before.resources[place(
                step.removed(before),
                before.resources.len() as int,
                k,
            )];
            source.cancel_called ==> after.resources[k].cancel_called
        }),
{
    lemma_shape(before, after, step);
    let table = before.resources;
    match step {
        ResourceStep::Claim { kind, same, .. } => {
            resources::lemma_tracked_from(table, kind, same, 0);
        },
        ResourceStep::Remember { same, .. } => {
            resources::lemma_tracked_from(table, SessionResourceReceiver::OutputStream, same, 0);
        },
        ResourceStep::Forget { same } => {
            resources::lemma_tracked_from(table, SessionResourceReceiver::OutputStream, same, 0);
        },
        ResourceStep::Begin { same } => {
            resources::lemma_tracked_from(table, SessionResourceReceiver::OutputStream, same, 0);
        },
        ResourceStep::Settle { reference } => {
            lemma_reference_from(table, reference, 0);
        },
        _ => {},
    }
}

proof fn lemma_spent(
    states: Seq<SessionModel>,
    steps: Seq<ResourceStep>,
    values: Seq<spec_fn(JsRef) -> int>,
    i: int,
    j: int,
    reference: JsRef,
    cancelling: bool,
)
    requires
        resource_course(states, steps, values),
        0 <= i < j < states.len(),
        steps[i].runs(states[i], reference, cancelling),
        forall|k: int| i < k < j ==> !(#[trigger] steps[k]).tracks(reference),
    ensures
        cancel_has_run(states[j].resources, reference),
        !cancelling ==> resources::is_unused(states[j].resources, reference),
    decreases j,
{
    assert(steps[j - 1].leads(states[j - 1], states[j]));
    if i < j - 1 {
        lemma_spent(states, steps, values, i, j - 1, reference, cancelling);
        lemma_mark_stays(states[j - 1], states[j], steps[j - 1], reference);
    } else {
        lemma_apart(states, steps, values, i);
        lemma_run_marks(states[i], states[j], steps[i], values[i], reference, cancelling);
    }
}

/// Each hook of a resource runs at most once as long as the resource is tracked:
/// its cancel hook does not run again, whatever else the session does, and after
/// its release hook neither of them runs.
pub proof fn hooks_run_once(
    states: Seq<SessionModel>,
    steps: Seq<ResourceStep>,
    values: Seq<spec_fn(JsRef) -> int>,
    i: int,
    j: int,
    reference: JsRef,
    cancelling: bool,
)
    requires
        resource_course(states, steps, values),
        0 <= i < j < steps.len(),
        steps[i].runs(states[i], reference, cancelling),
        forall|k: int| i < k < j ==> !(#[trigger] steps[k]).tracks(reference),
    ensures
        !steps[j].runs(states[j], reference, true),
        !cancelling ==> !steps[j].runs(states[j], reference, false),
{
    lemma_spent(states, steps, values, i, j, reference, cancelling);
    match steps[j] {
        ResourceStep::Claim { kind, same, .. } => {
            resources::lemma_tracked_from(states[j].resources, kind, same, 0);
        },
        _ => {},
    }
}

/// The output stream at this place is being cancelled, and this promise settles
/// with that.
pub open spec fn is_cancelling(
    table: Seq<TrackedResource>,
    index: int,
    reference: JsRef,
    promise: JsRef,
) -> bool {
    &&& 0 <= index < table.len()
    &&& table[index].reference == reference
    &&& table[index].kind is OutputStream
    &&& table[index].cancel_called
    &&& table[index].cancel_pending
    &&& table[index].cancel_promise == Some(promise)
    &&& !table[index].release_called
}

/// A cancellation that nobody asked for before gets under way: its hook is run,
/// its promise kept and waited for.
pub proof fn cancellation_gets_under_way(session: SessionModel, same: Seq<JsRef>, promise: JsRef)
    requires
        session.claim(SessionResourceReceiver::OutputStream, same, true) is Run,
        session.resources[output_index(session.resources, same)->0].cancel_promise is None,
        !session.resources[output_index(session.resources, same)->0].release_called,
    ensures
        ({
            let index = output_index(session.resources, same)->0;
            let cancelled = session.after_claim(SessionResourceReceiver::OutputStream, same, true);
            let remembered = cancelled.with_resource(
                index,
                TrackedResource { cancel_promise: Some(promise), ..cancelled.resources[index] },
            );
            let started = remembered.cancel_started(index);
            &&& session.claim(SessionResourceReceiver::OutputStream, same, true) == (
            ResourceClaim::Run { hook: session.hooks.cancel_output_stream, dropped: None })
            &&& ResourceStep::Claim {
                kind: SessionResourceReceiver::OutputStream,
                same,
                cancel: true,
            }.leads(session, cancelled)
            &&& ResourceStep::Remember { same, promise }.leads(cancelled, remembered)
            &&& ResourceStep::Begin { same }.leads(remembered, started)
            &&& is_cancelling(
                started.resources,
                index,
                session.resources[index].reference,
                promise,
            )
        }),
{
    let kind = SessionResourceReceiver::OutputStream;
    resources::lemma_tracked_from(session.resources, kind, same, 0);
    let index = output_index(session.resources, same)->0;
    let cancelled = session.after_claim(kind, same, true);
    resources::lemma_first_stays_first(session.resources, cancelled.resources, kind, same, index);
    let remembered = cancelled.with_resource(
        index,
        TrackedResource { cancel_promise: Some(promise), ..cancelled.resources[index] },
    );
    resources::lemma_first_stays_first(session.resources, remembered.resources, kind, same, index);
}

proof fn lemma_cancelling_step(
    before: SessionModel,
    after: SessionModel,
    step: ResourceStep,
    value_of: spec_fn(JsRef) -> int,
    was: int,
    reference: JsRef,
    promise: JsRef,
) -> (at: int)
    requires
        apart(before.resources, value_of),
        step.leads(before, after),
        is_cancelling(before.resources, was, reference, promise),
        !step.lets_go(before, reference),
    ensures
        is_cancelling(after.resources, at, reference, promise),
{
    lemma_shape(before, after, step);
    let table = before.resources;
    let output = SessionResourceReceiver::OutputStream;
    match step {
        ResourceStep::Claim { kind, same, .. } => {
            resources::lemma_tracked_from(table, kind, same, 0);
        },
        ResourceStep::Remember { same, .. } => {
            resources::lemma_tracked_from(table, output, same, 0);
        },
        ResourceStep::Forget { same } => {
            resources::lemma_tracked_from(table, output, same, 0);
        },
        ResourceStep::Begin { same } => {
            resources::lemma_tracked_from(table, output, same, 0);
        },
        ResourceStep::Settle { reference: found } => {
            lemma_reference_from(table, found, 0);
        },
        _ => {},
    }
    match step.removed(before) {
        Some(gone) => {
            assert(gone != was);
            if was == table.len() - 1 {
                assert(after.resources[gone] == table[was]);
                gone
            } else {
                assert(after.resources[was] == table[was]);
                was
            }
        },
        None => was,
    }
}

proof fn lemma_cancelling_stays(
    states: Seq<SessionModel>,
    steps: Seq<ResourceStep>,
    values: Seq<spec_fn(JsRef) -> int>,
    index: int,
    reference: JsRef,
    promise: JsRef,
    j: int,
) -> (at: int)
    requires
        resource_course(states, steps, values),
        is_cancelling(states[0].resources, index, reference, promise),
        0 <= j < states.len(),
        forall|k: int| 0 <= k < j ==> !(#[trigger] steps[k]).lets_go(states[k], reference),
    ensures
        is_cancelling(states[j].resources, at, reference, promise),
        values[j](reference) == values[0](reference),
    decreases j,
{
    if j == 0 {
        index
    } else {
        let was = lemma_cancelling_stays(
            states,
            steps,
            values,
            index,
            reference,
            promise,
            j - 1,
        );
        assert(steps[j - 1].leads(states[j - 1], states[j]));
        assert(!steps[j - 1].lets_go(states[j - 1], reference));
        assert(states[j - 1].resources[was].reference == reference);
        lemma_apart(states, steps, values, j - 1);
        lemma_cancelling_step(
            states[j - 1],
            states[j],
            steps[j - 1],
            values[j - 1],
            was,
            reference,
            promise,
        )
    }
}

/// While the cancellation of an output stream is under way, whatever else the
/// session does: another cancel is answered with the promise of the first and
/// runs no hook, and a release runs none either. When the promise has settled,
/// the release hook runs, and after that neither hook finds the stream, nor does
/// closing.
pub proof fn cancelled_stream_is_released_once(
    states: Seq<SessionModel>,
    steps: Seq<ResourceStep>,
    values: Seq<spec_fn(JsRef) -> int>,
    index: int,
    reference: JsRef,
    promise: JsRef,
    same: Seq<JsRef>,
    cancel: bool,
)
    requires
        resource_course(states, steps, values),
        is_cancelling(states[0].resources, index, reference, promise),
        forall|k: int|
            0 <= k < steps.len() ==> !(#[trigger] steps[k]).lets_go(states[k], reference),
        finds(
            states.last().resources,
            SessionResourceReceiver::OutputStream,
            values.last(),
            values[0](reference),
            same,
        ),
    ensures
        ({
            let kind = SessionResourceReceiver::OutputStream;
            let pending = states.last();
            let settled = pending.cancel_settled(reference);
            let released = settled.after_claim(kind, same, false);
            &&& pending.claim(kind, same, true) == ResourceClaim::InFlight(promise)
            &&& pending.after_claim(kind, same, true) == pending
            &&& pending.claim(kind, same, false) is Nothing
            &&& resources::reference_from(pending.resources, reference, 0) matches Some(at)
                && !pending.resources[at].release_called
            &&& settled.claim(kind, same, false) matches ResourceClaim::Run { hook, .. } && hook
                == pending.hooks.release_output_stream
            &&& released.claim(kind, same, cancel) is Nothing
            &&& released.after_claim(kind, same, cancel) == released
            &&& resources::is_unused(released.resources, reference)
        }),
{
    let kind = SessionResourceReceiver::OutputStream;
    let last = states.len() - 1;
    let at = lemma_cancelling_stays(states, steps, values, index, reference, promise, last);
    lemma_apart(states, steps, values, last);
    let pending = states[last];
    let value_of = values[last];
    lemma_found(pending.resources, value_of, same, at);
    let settled = pending.cancel_settled(reference);
    assert(apart(settled.resources, value_of)) by {
        assert forall|i: int| 0 <= i < settled.resources.len() implies (
        #[trigger] settled.resources[i]).reference == pending.resources[i].reference
            && settled.resources[i].kind == pending.resources[i].kind by {}
        assert forall|i: int, j: int|
            #![trigger settled.resources[i], settled.resources[j]]
            0 <= i < j < settled.resources.len() implies {
            &&& settled.resources[i].reference != settled.resources[j].reference
            &&& settled.resources[i].kind == settled.resources[j].kind ==> value_of(
                settled.resources[i].reference,
            ) != value_of(settled.resources[j].reference)
        } by {
            assert(pending.resources[i].reference != pending.resources[j].reference);
        }
    }
    assert(finds(settled.resources, kind, value_of, values[0](reference), same)) by {
        assert forall|i: int|
            0 <= i < settled.resources.len() && (#[trigger] settled.resources[i]).kind
                == kind implies (same.contains(settled.resources[i].reference) <==> value_of(
            settled.resources[i].reference,
        ) == values[0](reference)) by {
            assert(pending.resources[i].kind == kind);
        }
    }
    lemma_found(settled.resources, value_of, same, at);
    resources::released_resource_is_gone(settled, kind, same, cancel);
    let released = settled.after_claim(kind, same, false);
    assert forall|i: int| 0 <= i < released.resources.len() implies (
    #[trigger] released.resources[i]).reference != reference by {
        let source = if i == at {
            settled.resources.len() - 1
        } else {
            i
        };
        assert(released.resources[i] == settled.resources[source]);
        if source < at {
            assert(settled.resources[source].reference != settled.resources[at].reference);
        } else {
            assert(settled.resources[at].reference != settled.resources[source].reference);
        }
    }
}

} // verus!
