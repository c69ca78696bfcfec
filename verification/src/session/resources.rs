//! Tracked resources: objects and output streams that the script holds.

use crate::session::state::{SessionModel, SessionState, TrackedResource};
use crate::session::types::{JsRef, SessionError, SessionResourceReceiver, SessionStatus};
use crate::session::state::{CloseSignal, ResourceHooks};
use vstd::prelude::*;

verus! {

/// The tracked resource is of this kind and is one of those that stand for the
/// value in question.
pub open spec fn stands_for(
    resource: TrackedResource,
    kind: SessionResourceReceiver,
    same: Seq<JsRef>,
) -> bool {
    resource.kind == kind && same.contains(resource.reference)
}

/// The first resource at or after `from` that stands for the value.
pub open spec fn tracked_from(
    resources: Seq<TrackedResource>,
    kind: SessionResourceReceiver,
    same: Seq<JsRef>,
    from: int,
) -> Option<int>
    decreases resources.len() - from,
{
    if from >= resources.len() {
        None
    } else if stands_for(resources[from], kind, same) {
        Some(from)
    } else {
        tracked_from(resources, kind, same, from + 1)
    }
}

/// The first resource that stands for the value.
pub open spec fn tracked_index(
    resources: Seq<TrackedResource>,
    kind: SessionResourceReceiver,
    same: Seq<JsRef>,
) -> Option<int> {
    tracked_from(resources, kind, same, 0)
}

/// The first resource at or after `from` behind this very reference.
pub open spec fn reference_from(
    resources: Seq<TrackedResource>,
    reference: JsRef,
    from: int,
) -> Option<int>
    decreases resources.len() - from,
{
    if from >= resources.len() {
        None
    } else if resources[from].reference == reference {
        Some(from)
    } else {
        reference_from(resources, reference, from + 1)
    }
}

/// The list with one entry taken out and the last one put in its place.
pub open spec fn swap_removed(resources: Seq<TrackedResource>, index: int) -> Seq<TrackedResource> {
    resources.update(index, resources.last()).drop_last()
}

/// The references of the resources of one kind, in order.
pub open spec fn references_of(
    resources: Seq<TrackedResource>,
    kind: SessionResourceReceiver,
) -> Seq<JsRef>
    decreases resources.len(),
{
    if resources.len() == 0 {
        Seq::empty()
    } else if resources.last().kind == kind {
        references_of(resources.drop_last(), kind).push(resources.last().reference)
    } else {
        references_of(resources.drop_last(), kind)
    }
}

/// What a request to cancel or release a resource amounts to.
#[derive(Clone, Copy, Debug, PartialEq, Eq, Structural)]
pub enum ResourceClaim {
    /// There is nothing to do.
    Nothing,
    /// The resource is being cancelled; this promise settles with that.
    InFlight(JsRef),
    /// The hook is to run, if there is one. A resource that left the table has
    /// its references deleted.
    Run { hook: Option<JsRef>, dropped: Option<TrackedResource> },
}

/// The hook that ends a resource.
pub open spec fn hook_of(
    hooks: ResourceHooks,
    kind: SessionResourceReceiver,
    cancel: bool,
) -> Option<JsRef> {
    match kind {
        SessionResourceReceiver::Object => hooks.release_object,
        SessionResourceReceiver::InputStream => None,
        SessionResourceReceiver::OutputStream => if cancel {
            hooks.cancel_output_stream
        } else {
            hooks.release_output_stream
        },
    }
}

impl SessionModel {
    pub open spec fn with_resource(self, index: int, resource: TrackedResource) -> SessionModel {
        SessionModel { resources: self.resources.update(index, resource), ..self }
    }

    pub open spec fn without_resource(self, index: int) -> SessionModel {
        SessionModel { resources: swap_removed(self.resources, index), ..self }
    }

    /// What a request to cancel or release the value amounts to. The claim is
    /// recorded before any hook runs, so a hook that fails is not run again.
    pub open spec fn claim(
        self,
        kind: SessionResourceReceiver,
        same: Seq<JsRef>,
        cancel: bool,
    ) -> ResourceClaim {
        match tracked_index(self.resources, kind, same) {
            None => ResourceClaim::Nothing,
            Some(index) => {
                let resource = self.resources[index];
                if cancel && resource.cancel_called {
                    match resource.cancel_promise {
                        Some(promise) => ResourceClaim::InFlight(promise),
                        None => ResourceClaim::Nothing,
                    }
                } else if cancel && kind is OutputStream {
                    ResourceClaim::Run { hook: hook_of(self.hooks, kind, true), dropped: None }
                } else if cancel {
                    ResourceClaim::Run {
                        hook: hook_of(self.hooks, kind, true),
                        dropped: Some(TrackedResource { cancel_called: true, ..resource }),
                    }
                } else if resource.release_called || (kind is OutputStream
                    && resource.cancel_pending) {
                    ResourceClaim::Nothing
                } else {
                    ResourceClaim::Run {
                        hook: hook_of(self.hooks, kind, false),
                        dropped: Some(
                            TrackedResource {
                                release_called: true,
                                release_pending: false,
                                ..resource
                            },
                        ),
                    }
                }
            },
        }
    }

    /// The session after that claim. An output stream stays tracked while it is
    /// cancelled, and a release that comes meanwhile waits for the
    /// cancellation.
    pub open spec fn after_claim(
        self,
        kind: SessionResourceReceiver,
        same: Seq<JsRef>,
        cancel: bool,
    ) -> SessionModel {
        match tracked_index(self.resources, kind, same) {
            None => self,
            Some(index) => {
                let resource = self.resources[index];
                if cancel && resource.cancel_called {
                    self
                } else if cancel && kind is OutputStream {
                    self.with_resource(index, TrackedResource { cancel_called: true, ..resource })
                } else if cancel {
                    self.without_resource(index)
                } else if resource.release_called {
                    self
                } else if kind is OutputStream && resource.cancel_pending {
                    self.with_resource(index, TrackedResource { release_pending: true, ..resource })
                } else {
                    self.without_resource(index)
                }
            },
        }
    }

    /// Some output stream that stands for the value has not been cancelled.
    pub open spec fn cancel_is_new(self, same: Seq<JsRef>) -> bool {
        exists|i: int|
            #![trigger self.resources[i]]
            0 <= i < self.resources.len() && stands_for(
                self.resources[i],
                SessionResourceReceiver::OutputStream,
                same,
            ) && !self.resources[i].cancel_called
    }

    /// The session with one resource no longer waiting for its cancellation.
    pub open spec fn cancel_settled(self, reference: JsRef) -> SessionModel {
        match reference_from(self.resources, reference, 0) {
            None => self,
            Some(index) => self.with_resource(
                index,
                TrackedResource { cancel_pending: false, ..self.resources[index] },
            ),
        }
    }

    /// The session with the first matching output stream waiting for its
    /// cancellation.
    pub open spec fn cancel_started(self, index: int) -> SessionModel {
        self.with_resource(
            index,
            TrackedResource { cancel_pending: true, ..self.resources[index] },
        )
    }
}

fn is_one_of(reference: JsRef, same: &Vec<JsRef>) -> (r: bool)
    ensures
        r == same@.contains(reference),
{
    for i in 0..same.len()
        invariant
            forall|j: int| 0 <= j < i ==> same@[j] != reference,
    {
        if same[i] == reference {
            assert(same@[i as int] == reference);
            return true;
        }
    }
    false
}

pub(crate) proof fn lemma_tracked_from(
    resources: Seq<TrackedResource>,
    kind: SessionResourceReceiver,
    same: Seq<JsRef>,
    from: int,
)
    requires
        0 <= from,
    ensures
        match tracked_from(resources, kind, same, from) {
            None => forall|j: int|
                from <= j < resources.len() ==> !stands_for(#[trigger] resources[j], kind, same),
            Some(index) => {
                &&& from <= index < resources.len()
                &&& stands_for(resources[index], kind, same)
                &&& forall|j: int|
                    from <= j < index ==> !stands_for(#[trigger] resources[j], kind, same)
            },
        },
    decreases resources.len() - from,
{
    if from < resources.len() && !stands_for(resources[from], kind, same) {
        lemma_tracked_from(resources, kind, same, from + 1);
    }
}

impl SessionState {
    fn find_tracked(&self, kind: SessionResourceReceiver, same: &Vec<JsRef>) -> (r: Option<usize>)
        ensures
            match r {
                None => tracked_index(self@.resources, kind, same@) is None,
                Some(index) => {
                    &&& tracked_index(self@.resources, kind, same@) == Some(index as int)
                    &&& index < self@.resources.len()
                    &&& stands_for(self@.resources[index as int], kind, same@)
                },
            },
    {
        let mut i: usize = 0;
        while i < self.resources.len()
            invariant
                i <= self.resources.len(),
                tracked_index(self@.resources, kind, same@) == tracked_from(
                    self@.resources,
                    kind,
                    same@,
                    i as int,
                ),
            decreases self.resources.len() - i,
        {
            if self.resources[i].kind == kind && is_one_of(self.resources[i].reference, same) {
                return Some(i);
            }
            i = i + 1;
        }
        None
    }

    fn find_reference(&self, reference: JsRef) -> (r: Option<usize>)
        ensures
            match r {
                None => reference_from(self@.resources, reference, 0) is None,
                Some(index) => {
                    &&& reference_from(self@.resources, reference, 0) == Some(index as int)
                    &&& index < self@.resources.len()
                },
            },
    {
        let mut i: usize = 0;
        while i < self.resources.len()
            invariant
                i <= self.resources.len(),
                reference_from(self@.resources, reference, 0) == reference_from(
                    self@.resources,
                    reference,
                    i as int,
                ),
            decreases self.resources.len() - i,
        {
            if self.resources[i].reference == reference {
                return Some(i);
            }
            i = i + 1;
        }
        None
    }

    /// The references of the resources of one kind, in the order in which they
    /// are tracked.
    pub fn tracked_references(&self, kind: SessionResourceReceiver) -> (r: Vec<JsRef>)
        ensures
            r@ == references_of(self@.resources, kind),
    {
        let mut out: Vec<JsRef> = Vec::new();
        for i in 0..self.resources.len()
            invariant
                out@ == references_of(self@.resources.take(i as int), kind),
        {
            assert(self@.resources.take(i + 1).drop_last() =~= self@.resources.take(i as int));
            if self.resources[i].kind == kind {
                out.push(self.resources[i].reference);
            }
        }
        assert(self@.resources.take(self.resources.len() as int) =~= self@.resources);
        out
    }

    /// Whether the value is tracked already.
    pub fn is_tracked(&self, kind: SessionResourceReceiver, same: &Vec<JsRef>) -> (r: bool)
        ensures
            r == (tracked_index(self@.resources, kind, same@) is Some),
    {
        self.find_tracked(kind, same).is_some()
    }

    /// Tracks a resource behind a new reference. A value that was not tracked is
    /// tracked once then.
    pub fn retain_resource(&mut self, reference: JsRef, kind: SessionResourceReceiver)
        ensures
            forall|same: Seq<JsRef>|
                (#[trigger] tracked_index(old(self)@.resources, kind, same)) is None && is_unused(
                    old(self)@.resources,
                    reference,
                ) ==> tracked_once(final(self)@.resources, kind, same.push(reference)),
            final(self)@ == (SessionModel {
                resources: old(self)@.resources.push(fresh_resource(reference, kind)),
                ..old(self)@
            }),
    {
        self.resources.push(
            TrackedResource {
                reference,
                kind,
                cancel_called: false,
                cancel_pending: false,
                cancel_promise: None,
                release_called: false,
                release_pending: false,
            },
        );
        assert forall|same: Seq<JsRef>|
            (#[trigger] tracked_index(old(self)@.resources, kind, same)) is None && is_unused(
                old(self)@.resources,
                reference,
            ) implies tracked_once(self@.resources, kind, same.push(reference)) by {
            lemma_tracked_from(old(self)@.resources, kind, same, 0);
            assert forall|i: int| 0 <= i < old(self)@.resources.len() implies !stands_for(
                #[trigger] self@.resources[i],
                kind,
                same.push(reference),
            ) by {
                let resource = old(self)@.resources[i];
                assert(!stands_for(resource, kind, same));
                if same.push(reference).contains(resource.reference) {
                    let k = choose|k: int|
                        0 <= k < same.push(reference).len() && same.push(reference)[k]
                            == resource.reference;
                    assert(same[k] == resource.reference);
                }
            }
        }
    }

    /// Claims the cancellation or the release of a resource.
    pub fn release_resource(
        &mut self,
        kind: SessionResourceReceiver,
        same: &Vec<JsRef>,
        cancel: bool,
    ) -> (claim: ResourceClaim)
        ensures
            claim == old(self)@.claim(kind, same@, cancel),
            final(self)@ == old(self)@.after_claim(kind, same@, cancel),
    {
        let index: usize = match self.find_tracked(kind, same) {
            None => return ResourceClaim::Nothing,
            Some(index) => index,
        };
        let ghost before = self@;
        let mut resource: TrackedResource = self.resources[index];
        let output: bool = kind == SessionResourceReceiver::OutputStream;
        if cancel {
            if resource.cancel_called {
                return match resource.cancel_promise {
                    Some(promise) => ResourceClaim::InFlight(promise),
                    None => ResourceClaim::Nothing,
                };
            }
            resource.cancel_called = true;
        } else {
            if resource.release_called {
                return ResourceClaim::Nothing;
            }
            if output && resource.cancel_pending {
                resource.release_pending = true;
                self.resources.set(index, resource);
                assert(self@ == before.with_resource(index as int, resource));
                return ResourceClaim::Nothing;
            }
            resource.release_called = true;
            resource.release_pending = false;
        }
        let hook: Option<JsRef> = match kind {
            SessionResourceReceiver::Object => self.hooks.release_object,
            SessionResourceReceiver::InputStream => None,
            SessionResourceReceiver::OutputStream => if cancel {
                self.hooks.cancel_output_stream
            } else {
                self.hooks.release_output_stream
            },
        };
        if cancel && output {
            self.resources.set(index, resource);
            assert(self@ == before.with_resource(index as int, resource));
            ResourceClaim::Run { hook, dropped: None }
        } else {
            self.resources.swap_remove(index);
            assert(self@ == before.without_resource(index as int));
            ResourceClaim::Run { hook, dropped: Some(resource) }
        }
    }

    /// Whether the value is an output stream that was not cancelled yet.
    pub fn output_cancel_is_new(&self, same: &Vec<JsRef>) -> (r: bool)
        ensures
            r == self@.cancel_is_new(same@),
    {
        for i in 0..self.resources.len()
            invariant
                forall|j: int|
                    0 <= j < i ==> !(stands_for(
                        #[trigger] self@.resources[j],
                        SessionResourceReceiver::OutputStream,
                        same@,
                    ) && !self@.resources[j].cancel_called),
        {
            let resource = self.resources[i];
            if resource.kind == SessionResourceReceiver::OutputStream && !resource.cancel_called
                && is_one_of(resource.reference, same) {
                assert(self@.resources[i as int] == resource);
                return true;
            }
        }
        false
    }

    /// Keeps the promise of a cancellation, so that a second cancel can return
    /// it. `Ok(true)` means that the session took the reference; otherwise the
    /// caller deletes it.
    pub fn remember_cancel_promise(&mut self, same: &Vec<JsRef>, promise: JsRef) -> (r: Result<
        bool,
        SessionError,
    >)
        ensures
            match tracked_index(old(self)@.resources, SessionResourceReceiver::OutputStream, same@) {
                None => {
                    &&& r matches Err(e)
                    &&& e.is(
                        SessionStatus::GenericFailure,
                        "output stream cancel lease disappeared before Promise retention"@,
                    )
                    &&& final(self)@ == old(self)@
                },
                Some(index) => {
                    let resource = old(self)@.resources[index];
                    &&& r == Ok::<bool, SessionError>(resource.cancel_promise is None)
                    &&& final(self)@ == if resource.cancel_promise is None {
                        old(self)@.with_resource(
                            index,
                            TrackedResource { cancel_promise: Some(promise), ..resource },
                        )
                    } else {
                        old(self)@
                    }
                },
            },
    {
        match self.find_tracked(SessionResourceReceiver::OutputStream, same) {
            None => Err(
                SessionError::failure(
                    "output stream cancel lease disappeared before Promise retention",
                ),
            ),
            Some(index) => {
                let ghost before = self@;
                let mut resource: TrackedResource = self.resources[index];
                if resource.cancel_promise.is_some() {
                    return Ok(false);
                }
                resource.cancel_promise = Some(promise);
                self.resources.set(index, resource);
                assert(self@ == before.with_resource(index as int, resource));
                Ok(true)
            },
        }
    }

    /// Lets go of the promise of a cancellation that could not be followed. The
    /// caller deletes the reference.
    pub fn forget_cancel_promise(&mut self, same: &Vec<JsRef>) -> (promise: Option<JsRef>)
        ensures
            match tracked_index(old(self)@.resources, SessionResourceReceiver::OutputStream, same@) {
                None => promise is None && final(self)@ == old(self)@,
                Some(index) => {
                    &&& promise == old(self)@.resources[index].cancel_promise
                    &&& final(self)@ == old(self)@.with_resource(
                        index,
                        TrackedResource { cancel_promise: None, ..old(self)@.resources[index] },
                    )
                },
            },
    {
        match self.find_tracked(SessionResourceReceiver::OutputStream, same) {
            None => None,
            Some(index) => {
                let ghost before = self@;
                let mut resource: TrackedResource = self.resources[index];
                let promise = resource.cancel_promise;
                resource.cancel_promise = None;
                self.resources.set(index, resource);
                assert(self@ == before.with_resource(index as int, resource));
                promise
            },
        }
    }

    /// Starts to wait for a cancellation. Closing waits for it too.
    pub fn begin_output_cancel(&mut self, same: &Vec<JsRef>) -> (r: Result<JsRef, SessionError>)
        ensures
            match tracked_index(old(self)@.resources, SessionResourceReceiver::OutputStream, same@) {
                None => {
                    &&& r matches Err(e)
                    &&& e.is(
                        SessionStatus::GenericFailure,
                        "output stream cancel lease disappeared before settlement"@,
                    )
                    &&& final(self)@ == old(self)@
                },
                Some(index) => {
                    let waiting = old(self)@.cancel_started(index);
                    let reference = old(self)@.resources[index].reference;
                    match r {
                        Ok(found) => {
                            &&& found == reference
                            &&& old(self)@.pending_work < u32::MAX
                            &&& final(self)@ == (SessionModel {
                                pending_work: (old(self)@.pending_work + 1) as u32,
                                ..waiting
                            })
                        },
                        Err(e) => {
                            &&& old(self)@.pending_work == u32::MAX
                            &&& e.is(
                                SessionStatus::GenericFailure,
                                "too many pending UniFFI backend operations"@,
                            )
                            &&& final(self)@ == waiting.cancel_settled(reference)
                        },
                    }
                },
            },
    {
        let index: usize = match self.find_tracked(SessionResourceReceiver::OutputStream, same) {
            None => return Err(
                SessionError::failure("output stream cancel lease disappeared before settlement"),
            ),
            Some(index) => index,
        };
        let ghost before = self@;
        let mut resource: TrackedResource = self.resources[index];
        resource.cancel_pending = true;
        self.resources.set(index, resource);
        assert(self@ == before.cancel_started(index as int));
        match self.begin_pending_work() {
            Ok(()) => Ok(resource.reference),
            Err(error) => {
                self.settle_cancel(resource.reference);
                Err(error)
            },
        }
    }

    fn settle_cancel(&mut self, reference: JsRef) -> (found: Option<usize>)
        ensures
            final(self)@ == old(self)@.cancel_settled(reference),
            match found {
                None => reference_from(old(self)@.resources, reference, 0) is None,
                Some(index) => {
                    &&& reference_from(old(self)@.resources, reference, 0) == Some(index as int)
                    &&& index < old(self)@.resources.len()
                },
            },
    {
        match self.find_reference(reference) {
            None => None,
            Some(index) => {
                let ghost before = self@;
                let mut resource: TrackedResource = self.resources[index];
                resource.cancel_pending = false;
                self.resources.set(index, resource);
                assert(self@ == before.with_resource(index as int, resource));
                Some(index)
            },
        }
    }

    /// Stops to wait for a cancellation that could not be followed.
    pub fn abandon_output_cancel(&mut self, reference: JsRef) -> (signal: CloseSignal)
        ensures
            signal == old(self)@.finish_signal(),
            final(self)@ == old(self)@.work_finished().cancel_settled(reference),
    {
        let signal = self.finish_pending_work();
        self.settle_cancel(reference);
        signal
    }

    /// Ends the wait for a cancellation. The stream is to be released now
    /// where this returns true.
    pub fn complete_output_cancel(&mut self, reference: JsRef) -> (release: bool)
        ensures
            final(self)@ == old(self)@.cancel_settled(reference),
            release == match reference_from(old(self)@.resources, reference, 0) {
                None => false,
                Some(index) => !old(self)@.resources[index].release_called,
            },
    {
        match self.settle_cancel(reference) {
            None => false,
            Some(index) => !self.resources[index].release_called,
        }
    }

    /// The hook that releases a resource that was never tracked.
    pub fn release_untracked_resource(&self, kind: SessionResourceReceiver) -> (hook: Option<JsRef>)
        ensures
            hook == hook_of(self@.hooks, kind, false),
    {
        match kind {
            SessionResourceReceiver::Object => self.hooks.release_object,
            SessionResourceReceiver::OutputStream => self.hooks.release_output_stream,
            SessionResourceReceiver::InputStream => None,
        }
    }
}

/// A resource as it is when it is first tracked.
pub open spec fn fresh_resource(reference: JsRef, kind: SessionResourceReceiver) -> TrackedResource {
    TrackedResource {
        reference,
        kind,
        cancel_called: false,
        cancel_pending: false,
        cancel_promise: None,
        release_called: false,
        release_pending: false,
    }
}

/// No resource is tracked behind this reference.
pub open spec fn is_unused(resources: Seq<TrackedResource>, reference: JsRef) -> bool {
    forall|i: int| 0 <= i < resources.len() ==> (#[trigger] resources[i]).reference != reference
}

/// At most one tracked resource stands for the value.
pub open spec fn tracked_once(
    resources: Seq<TrackedResource>,
    kind: SessionResourceReceiver,
    same: Seq<JsRef>,
) -> bool {
    forall|i: int, j: int|
        #![trigger resources[i], resources[j]]
        0 <= i < resources.len() && 0 <= j < resources.len() && stands_for(
            resources[i],
            kind,
            same,
        ) && stands_for(resources[j], kind, same) ==> i == j
}

/// A resource that was released stays released: once the release hook was
/// claimed, neither another release nor a cancel finds anything to do.
pub proof fn released_resource_is_gone(
    session: SessionModel,
    kind: SessionResourceReceiver,
    same: Seq<JsRef>,
    cancel: bool,
)
    requires
        tracked_once(session.resources, kind, same),
        session.claim(kind, same, false) is Run,
    ensures
        ({
            let after = session.after_claim(kind, same, false);
            &&& after.claim(kind, same, cancel) is Nothing
            &&& after.after_claim(kind, same, cancel) == after
        }),
{
    lemma_tracked_from(session.resources, kind, same, 0);
    let index = tracked_index(session.resources, kind, same)->0;
    let after = session.after_claim(kind, same, false);
    lemma_tracked_from(after.resources, kind, same, 0);
    if let Some(j) = tracked_index(after.resources, kind, same) {
        assert(after.resources[j] == if j == index {
            session.resources.last()
        } else {
            session.resources[j]
        });
        assert(stands_for(
            session.resources[if j == index {
                session.resources.len() - 1
            } else {
                j
            }],
            kind,
            same,
        ));
        assert(false);
    }
}

/// A second cancel of an output stream, while the first is under way, is
/// answered with the promise of the first and runs no hook.
pub proof fn second_cancel_shares_the_promise(
    session: SessionModel,
    same: Seq<JsRef>,
    promise: JsRef,
)
    requires
        session.claim(SessionResourceReceiver::OutputStream, same, true) is Run,
        ({
            let index = tracked_index(
                session.resources,
                SessionResourceReceiver::OutputStream,
                same,
            )->0;
            session.resources[index].cancel_promise is None
        }),
    ensures
        ({
            let kind = SessionResourceReceiver::OutputStream;
            let index = tracked_index(session.resources, kind, same)->0;
            let cancelled = session.after_claim(kind, same, true);
            let remembered = cancelled.with_resource(
                index,
                TrackedResource { cancel_promise: Some(promise), ..cancelled.resources[index] },
            );
            &&& tracked_index(cancelled.resources, kind, same) == Some(index)
            &&& cancelled.resources[index].cancel_promise is None
            &&& remembered.claim(kind, same, true) == ResourceClaim::InFlight(promise)
            &&& remembered.after_claim(kind, same, true) == remembered
        }),
{
    let kind = SessionResourceReceiver::OutputStream;
    lemma_tracked_from(session.resources, kind, same, 0);
    let index = tracked_index(session.resources, kind, same)->0;
    let cancelled = session.after_claim(kind, same, true);
    lemma_first_stays_first(
        session.resources,
        cancelled.resources,
        kind,
        same,
        index,
    );
    let remembered = cancelled.with_resource(
        index,
        TrackedResource { cancel_promise: Some(promise), ..cancelled.resources[index] },
    );
    lemma_first_stays_first(
        session.resources,
        remembered.resources,
        kind,
        same,
        index,
    );
}

/// Changing the flags of the first match keeps it the first match.
pub(crate) proof fn lemma_first_stays_first(
    before: Seq<TrackedResource>,
    after: Seq<TrackedResource>,
    kind: SessionResourceReceiver,
    same: Seq<JsRef>,
    index: int,
)
    requires
        tracked_index(before, kind, same) == Some(index),
        after.len() == before.len(),
        forall|j: int|
            0 <= j < before.len() ==> (#[trigger] after[j]).kind == before[j].kind
                && after[j].reference == before[j].reference,
    ensures
        tracked_index(after, kind, same) == Some(index),
{
    lemma_tracked_from(before, kind, same, 0);
    lemma_tracked_from(after, kind, same, 0);
    assert(stands_for(after[index], kind, same));
    if let Some(j) = tracked_index(after, kind, same) {
        assert(stands_for(before[j], kind, same));
    }
}

/// A release that comes while an output stream is being cancelled runs no
/// hook; it runs when the cancellation has settled.
pub proof fn release_waits_for_the_cancellation(session: SessionModel, same: Seq<JsRef>)
    requires
        tracked_index(session.resources, SessionResourceReceiver::OutputStream, same) is Some,
        ({
            let index = tracked_index(
                session.resources,
                SessionResourceReceiver::OutputStream,
                same,
            )->0;
            let resource = session.resources[index];
            &&& resource.cancel_pending
            &&& !resource.release_called
            &&& reference_from(session.resources, resource.reference, 0) == Some(index)
        }),
    ensures
        ({
            let kind = SessionResourceReceiver::OutputStream;
            let index = tracked_index(session.resources, kind, same)->0;
            let reference = session.resources[index].reference;
            let waiting = session.after_claim(kind, same, false);
            let settled = waiting.cancel_settled(reference);
            &&& session.claim(kind, same, false) is Nothing
            &&& waiting.resources[index].release_pending
            &&& settled.claim(kind, same, false) is Run
        }),
{
    let kind = SessionResourceReceiver::OutputStream;
    lemma_tracked_from(session.resources, kind, same, 0);
    let index = tracked_index(session.resources, kind, same)->0;
    let reference = session.resources[index].reference;
    let waiting = session.after_claim(kind, same, false);
    lemma_reference_stays(session.resources, waiting.resources, reference, 0);
    let settled = waiting.cancel_settled(reference);
    lemma_first_stays_first(session.resources, settled.resources, kind, same, index);
}

/// Changing flags keeps the place of every reference.
proof fn lemma_reference_stays(
    before: Seq<TrackedResource>,
    after: Seq<TrackedResource>,
    reference: JsRef,
    from: int,
)
    requires
        0 <= from,
        after.len() == before.len(),
        forall|j: int|
            0 <= j < before.len() ==> (#[trigger] after[j]).reference == before[j].reference,
    ensures
        reference_from(after, reference, from) == reference_from(before, reference, from),
    decreases before.len() - from,
{
    if from < before.len() {
        assert(after[from].reference == before[from].reference);
        lemma_reference_stays(before, after, reference, from + 1);
    }
}

} // verus!
