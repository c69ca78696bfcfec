//! Callback leases: the release queue, invocation numbers and the transfer of
//! leases to a native call.

use crate::ordered;
use crate::session::types::{
    CallbackKey, JsRef, JsScheduler, SessionError, SessionStatus,
};
use crate::text;
use std::collections::BTreeMap;
use vstd::multiset::Multiset;
use vstd::prelude::*;
use vstd::string::StringExecFns;

verus! {

broadcast use {vstd::std_specs::btree::group_btree_axioms, vstd::laws_cmp::group_laws_cmp};

/// The callbacks that a session has retained and still has to release.
///
/// `active` holds one entry for each live lease. A lease is claimed once: its
/// entry leaves `active` and its key joins `pending`, from which the script
/// thread takes it.
pub struct CallbackReleaseQueue {
    next_token: u64,
    active: BTreeMap<u64, CallbackKey>,
    pending: Vec<CallbackKey>,
    scheduler: Option<JsScheduler>,
    closed: bool,
}

/// The mathematical form of a release queue.
#[verifier::ext_equal]
pub struct QueueModel {
    pub next_token: u64,
    pub active: Map<u64, CallbackKey>,
    pub pending: Seq<CallbackKey>,
    pub scheduler: Option<JsScheduler>,
    pub closed: bool,
}

impl View for CallbackReleaseQueue {
    type V = QueueModel;

    closed spec fn view(&self) -> QueueModel {
        QueueModel {
            next_token: self.next_token,
            active: self.active@,
            pending: self.pending@,
            scheduler: self.scheduler,
            closed: self.closed,
        }
    }
}

impl QueueModel {
    /// Tokens are handed out in order, so every live one is below the next.
    pub open spec fn valid(self) -> bool {
        &&& self.active.dom().finite()
        &&& forall|token: u64| #[trigger]
            self.active.dom().contains(token) ==> token < self.next_token
    }

    pub open spec fn empty() -> QueueModel {
        QueueModel {
            next_token: 0,
            active: Map::empty(),
            pending: Seq::empty(),
            scheduler: None,
            closed: false,
        }
    }

    /// The queue after a new lease on `key`.
    pub open spec fn registered(self, key: CallbackKey) -> QueueModel {
        QueueModel {
            next_token: (self.next_token + 1) as u64,
            active: self.active.insert(self.next_token, key),
            ..self
        }
    }

    /// The queue after a claim of `token`; a token that is not live changes
    /// nothing.
    pub open spec fn claimed(self, token: u64) -> QueueModel {
        if self.active.dom().contains(token) {
            QueueModel {
                active: self.active.remove(token),
                pending: self.pending.push(self.active[token]),
                ..self
            }
        } else {
            self
        }
    }

    /// The queue after a claim of each token in turn.
    pub open spec fn claimed_all(self, tokens: Seq<u64>) -> QueueModel
        decreases tokens.len(),
    {
        if tokens.len() == 0 {
            self
        } else {
            self.claimed_all(tokens.drop_last()).claimed(tokens.last())
        }
    }

    /// The queue with one more pending release.
    pub open spec fn with_pending(self, key: CallbackKey) -> QueueModel {
        QueueModel { pending: self.pending.push(key), ..self }
    }

    /// Every release that is still owed, whether claimed or not.
    pub open spec fn owed(self) -> Multiset<CallbackKey> {
        live_keys(self.active).add(self.pending.to_multiset())
    }
}

/// The keys of all live leases, with their multiplicity.
pub open spec fn live_keys(active: Map<u64, CallbackKey>) -> Multiset<CallbackKey>
    decreases active.dom().len(),
    when active.dom().finite()
{
    if active.dom().len() == 0 {
        Multiset::empty()
    } else {
        let token = active.dom().choose();
        live_keys(active.remove(token)).insert(active[token])
    }
}

/// Taking one live lease out takes its key out, once.
proof fn lemma_live_keys_remove(active: Map<u64, CallbackKey>, token: u64)
    requires
        active.dom().finite(),
        active.dom().contains(token),
    ensures
        live_keys(active) == live_keys(active.remove(token)).insert(active[token]),
    decreases active.dom().len(),
{
    let first = active.dom().choose();
    assert(active.dom().contains(first));
    if first != token {
        let rest = active.remove(first);
        assert(rest.dom() =~= active.dom().remove(first));
        lemma_live_keys_remove(rest, token);
        let other = active.remove(token);
        assert(other.dom() =~= active.dom().remove(token));
        assert(other.dom().contains(first));
        lemma_live_keys_remove(other, first);
        assert(rest.remove(token) =~= other.remove(first));
        assert(live_keys(active) == live_keys(rest.remove(token)).insert(active[token]).insert(
            active[first],
        ));
        assert(live_keys(rest.remove(token)).insert(active[token]).insert(active[first]) =~= live_keys(
            rest.remove(token),
        ).insert(active[first]).insert(active[token]));
    }
}

/// Claiming a lease moves its release from the live leases to the pending
/// ones: nothing is lost and nothing is released twice.
pub proof fn claim_keeps_what_is_owed(queue: QueueModel, token: u64)
    requires
        queue.valid(),
    ensures
        queue.claimed(token).owed() == queue.owed(),
        queue.claimed(token).valid(),
        !queue.claimed(token).active.dom().contains(token),
{
    broadcast use vstd::seq_lib::group_to_multiset_ensures;

    if queue.active.dom().contains(token) {
        lemma_live_keys_remove(queue.active, token);
        let key = queue.active[token];
        assert(queue.pending.push(key).to_multiset() =~= queue.pending.to_multiset().insert(key));
        assert(queue.claimed(token).owed() =~= queue.owed());
    }
}

/// A second claim of the same lease changes nothing.
pub proof fn claim_is_idempotent(queue: QueueModel, token: u64)
    ensures
        queue.claimed(token).claimed(token) == queue.claimed(token),
{
}

/// A new lease adds exactly one release to what is owed.
pub proof fn register_owes_one_release(queue: QueueModel, key: CallbackKey)
    requires
        queue.valid(),
        queue.next_token < u64::MAX,
    ensures
        queue.registered(key).valid(),
        queue.registered(key).owed() == queue.owed().insert(key),
{
    let after = queue.registered(key);
    lemma_live_keys_remove(after.active, queue.next_token);
    assert(!queue.active.dom().contains(queue.next_token));
    assert(after.active.remove(queue.next_token) =~= queue.active);
    assert(after.owed() =~= queue.owed().insert(key));
}

/// Claiming every listed token keeps what is owed.
pub proof fn claim_all_keeps_what_is_owed(queue: QueueModel, tokens: Seq<u64>)
    requires
        queue.valid(),
    ensures
        queue.claimed_all(tokens).owed() == queue.owed(),
        queue.claimed_all(tokens).valid(),
        forall|token: u64| #[trigger]
            queue.claimed_all(tokens).active.dom().contains(token) <==> queue.active.dom().contains(
                token,
            ) && !tokens.contains(token),
    decreases tokens.len(),
{
    if tokens.len() > 0 {
        let rest = tokens.drop_last();
        claim_all_keeps_what_is_owed(queue, rest);
        claim_keeps_what_is_owed(queue.claimed_all(rest), tokens.last());
        assert forall|token: u64| tokens.contains(token) <==> rest.contains(token) || token
            == tokens.last() by {
            if tokens.contains(token) {
                let i = choose|i: int| 0 <= i < tokens.len() && tokens[i] == token;
                if i < rest.len() {
                    assert(rest[i] == token);
                }
            }
            if rest.contains(token) {
                let i = choose|i: int| 0 <= i < rest.len() && rest[i] == token;
                assert(tokens[i] == token);
            }
            assert(tokens[tokens.len() - 1] == tokens.last());
        }
        assert forall|token: u64| #[trigger]
            queue.claimed_all(tokens).active.dom().contains(token) <==> queue.active.dom().contains(
                token,
            ) && !tokens.contains(token) by {
            assert(queue.claimed_all(rest).active.dom().contains(token) <==> queue.active.dom().contains(
                token,
            ) && !rest.contains(token));
        }
    }
}

/// Claiming every live lease turns all that is owed into pending releases:
/// whoever runs those has released each callback as often as it was retained.
pub proof fn claiming_all_leases_pays_what_is_owed(queue: QueueModel, tokens: Seq<u64>)
    requires
        queue.valid(),
        ordered::lists_tokens(tokens, queue.active.dom()),
    ensures
        queue.claimed_all(tokens).active == Map::<u64, CallbackKey>::empty(),
        queue.claimed_all(tokens).pending.to_multiset() == queue.owed(),
{
    let after = queue.claimed_all(tokens);
    claim_all_keeps_what_is_owed(queue, tokens);
    assert forall|token: u64| !after.active.dom().contains(token) by {
        if queue.active.dom().contains(token) {
            assert(tokens.to_set().contains(token));
        }
    }
    assert(after.active =~= Map::empty());
    assert(after.active.dom() =~= Set::empty());
    assert(after.owed() =~= after.pending.to_multiset());
}

/// A release that no lease stands for adds exactly one release to what is owed.
pub proof fn failed_retain_owes_one_release(queue: QueueModel, key: CallbackKey)
    requires
        queue.valid(),
    ensures
        queue.with_pending(key).valid(),
        queue.with_pending(key).owed() == queue.owed().insert(key),
{
    broadcast use vstd::seq_lib::group_to_multiset_ensures;

    assert(queue.with_pending(key).owed() =~= queue.owed().insert(key));
}

/// A number that is handed out, if any is left, and the one that comes next.
pub open spec fn numbered(next: u32) -> (Option<u32>, u32) {
    if next == u32::MAX {
        (None, next)
    } else {
        (Some(next), (next + 1) as u32)
    }
}

/// What so many requests in a row are answered.
pub open spec fn numbers(next: u32, requests: nat) -> Seq<Option<u32>>
    decreases requests,
{
    if requests == 0 {
        Seq::empty()
    } else {
        seq![numbered(next).0] + numbers(numbered(next).1, (requests - 1) as nat)
    }
}

/// Numbers are handed out in ascending order and never again; once they are
/// spent, every further request fails.
pub proof fn numbers_never_repeat(next: u32, requests: nat, i: int, j: int)
    requires
        0 <= i < j < requests,
    ensures
        numbers(next, requests).len() == requests,
        numbers(next, requests)[j] is Some ==> numbers(next, requests)[i] is Some && numbers(
            next,
            requests,
        )[i]->0 < numbers(next, requests)[j]->0,
{
    lemma_numbers(next, requests, i);
    lemma_numbers(next, requests, j);
}

/// The answer to one of the requests.
proof fn lemma_numbers(next: u32, requests: nat, i: int)
    requires
        0 <= i < requests,
    ensures
        numbers(next, requests).len() == requests,
        numbers(next, requests)[i] == if next + i < u32::MAX {
            Some((next + i) as u32)
        } else {
            None
        },
    decreases requests,
{
    let rest = numbers(numbered(next).1, (requests - 1) as nat);
    if requests > 1 {
        lemma_numbers(numbered(next).1, (requests - 1) as nat, if i > 0 {
            i - 1
        } else {
            0
        });
    }
    assert(rest.len() == requests - 1) by {
        if requests == 1 {
            assert(rest =~= Seq::empty());
        }
    }
    if i > 0 {
        assert(numbers(next, requests)[i] == rest[i - 1]);
    }
}

impl CallbackReleaseQueue {
    pub fn new() -> (queue: CallbackReleaseQueue)
        ensures
            queue@ == QueueModel::empty(),
            queue@.valid(),
    {
        CallbackReleaseQueue {
            next_token: 0,
            active: BTreeMap::new(),
            pending: Vec::new(),
            scheduler: None,
            closed: false,
        }
    }

    /// Enters a lease on `key` and returns its token, unless every token has
    /// been handed out.
    pub fn register(&mut self, key: CallbackKey) -> (r: Result<u64, SessionError>)
        requires
            old(self)@.valid(),
        ensures
            final(self)@.valid(),
            match r {
                Ok(token) => {
                    &&& old(self)@.next_token < u64::MAX
                    &&& token == old(self)@.next_token
                    &&& final(self)@ == old(self)@.registered(key)
                },
                Err(e) => {
                    &&& old(self)@.next_token == u64::MAX
                    &&& e.is(
                        SessionStatus::GenericFailure,
                        "callback lease token space exhausted"@,
                    )
                    &&& final(self)@ == old(self)@
                },
            },
    {
        let token: u64 = self.next_token;
        match token.checked_add(1) {
            None => Err(SessionError::failure("callback lease token space exhausted")),
            Some(next) => {
                self.next_token = next;
                self.active.insert(token, key);
                Ok(token)
            },
        }
    }

    /// Claims the lease behind `token`. Only the first claim succeeds; the
    /// caller then wakes the scheduler.
    pub fn claim(&mut self, token: u64) -> (claimed: bool)
        requires
            old(self)@.valid(),
        ensures
            final(self)@.valid(),
            claimed == old(self)@.active.dom().contains(token),
            final(self)@ == old(self)@.claimed(token),
    {
        match self.active.remove(&token) {
            None => {
                assert(self.active@ =~= old(self).active@);
                false
            },
            Some(key) => {
                self.pending.push(key);
                true
            },
        }
    }

    /// Claims every live lease, oldest first.
    pub fn claim_all_active(&mut self)
        requires
            old(self)@.valid(),
        ensures
            final(self)@.valid(),
            exists|tokens: Seq<u64>|
                ordered::lists_tokens(tokens, old(self)@.active.dom()) && final(self)@ == #[trigger] old(self)@.claimed_all(tokens),
            final(self)@.active =~= Map::empty(),
            final(self)@.owed() == old(self)@.owed(),
    {
        let tokens: Vec<u64> = ordered::ascending_tokens(&self.active);
        let ghost before = self@;
        for i in 0..tokens.len()
            invariant
                before.valid(),
                self@.valid(),
                self@ == before.claimed_all(tokens@.take(i as int)),
        {
            proof {
                assert(tokens@.take(i + 1).drop_last() =~= tokens@.take(i as int));
            }
            self.claim(tokens[i]);
        }
        proof {
            assert(tokens@.take(tokens.len() as int) =~= tokens@);
            claim_all_keeps_what_is_owed(before, tokens@);
            assert forall|token: u64| !self@.active.dom().contains(token) by {
                if before.active.dom().contains(token) {
                    assert(tokens@.to_set().contains(token));
                }
            }
            assert(self@.active =~= Map::empty());
        }
    }

    /// Takes every pending release.
    pub fn take_pending(&mut self) -> (keys: Vec<CallbackKey>)
        ensures
            keys@ == old(self)@.pending,
            final(self)@ == (QueueModel { pending: Seq::empty(), ..old(self)@ }),
    {
        let mut keys: Vec<CallbackKey> = Vec::new();
        std::mem::swap(&mut keys, &mut self.pending);
        keys
    }

    /// The releases to run now. Without a release function there is nothing
    /// to call, and everything stays pending.
    pub fn drain(&mut self, release_callback: Option<JsRef>) -> (keys: Vec<CallbackKey>)
        ensures
            release_callback is Some ==> keys@ == old(self)@.pending && final(self)@ == (QueueModel {
                pending: Seq::empty(),
                ..old(self)@
            }),
            release_callback is None ==> keys@.len() == 0 && final(self)@ == old(self)@,
    {
        if release_callback.is_none() {
            return Vec::new();
        }
        self.take_pending()
    }

    /// The scheduler to wake, if there is one that still runs.
    pub fn wake(&self) -> (scheduler: Option<JsScheduler>)
        ensures
            scheduler == if self@.closed {
                None
            } else {
                self@.scheduler
            },
    {
        if self.closed {
            None
        } else {
            self.scheduler
        }
    }

    /// Owes a release that no lease stands for: a retain that failed halfway.
    pub fn enqueue(&mut self, key: CallbackKey)
        ensures
            final(self)@ == old(self)@.with_pending(key),
    {
        self.pending.push(key);
    }

    /// Installs the scheduler. A closed queue refuses it, and the caller has
    /// to release it.
    pub fn install(&mut self, scheduler: JsScheduler) -> (installed: bool)
        ensures
            installed == !old(self)@.closed,
            final(self)@ == if old(self)@.closed {
                old(self)@
            } else {
                QueueModel { scheduler: Some(scheduler), ..old(self)@ }
            },
    {
        if self.closed {
            false
        } else {
            self.scheduler = Some(scheduler);
            true
        }
    }

    /// Closes the queue. The scheduler that it gives back is to be released,
    /// and comes back once.
    pub fn shutdown(&mut self) -> (scheduler: Option<JsScheduler>)
        ensures
            scheduler == old(self)@.scheduler,
            final(self)@ == (QueueModel { closed: true, scheduler: None, ..old(self)@ }),
    {
        let scheduler = self.scheduler;
        self.closed = true;
        self.scheduler = None;
        scheduler
    }

    /// Closes the queue after the runtime has torn the scheduler down itself,
    /// so that nobody releases it again.
    pub fn mark_finalized_by_env(&mut self)
        ensures
            final(self)@ == (QueueModel { closed: true, scheduler: None, ..old(self)@ }),
    {
        self.closed = true;
        self.scheduler = None;
    }
}

/// What callback invokers share with their session: whether it is open, and
/// the next invocation number.
#[derive(Debug)]
pub struct SessionCallbackInvoker {
    pub closed: bool,
    pub next: u32,
}

impl SessionCallbackInvoker {
    pub fn new() -> (r: SessionCallbackInvoker)
        ensures
            !r.closed,
            r.next == 0,
    {
        SessionCallbackInvoker { closed: false, next: 0 }
    }

    /// Refuses once the session is closed.
    pub fn check_open(&self) -> (r: Result<(), SessionError>)
        ensures
            match r {
                Ok(()) => !self.closed,
                Err(e) => self.closed && e.is(
                    SessionStatus::GenericFailure,
                    "UniFFI backend session is closed"@,
                ),
            },
    {
        if self.closed {
            Err(SessionError::failure("UniFFI backend session is closed"))
        } else {
            Ok(())
        }
    }

    /// Hands out the next invocation number. Numbers are never reused: once
    /// they are spent, every further request fails.
    pub fn next_invocation_id(&mut self) -> (r: Result<u32, SessionError>)
        ensures
            final(self).closed == old(self).closed,
            final(self).next == numbered(old(self).next).1,
            match r {
                Ok(id) => numbered(old(self).next).0 == Some(id),
                Err(e) => numbered(old(self).next).0 is None && e.is(
                    SessionStatus::GenericFailure,
                    "callback invocation ID space exhausted"@,
                ),
            },
    {
        match self.next.checked_add(1) {
            None => Err(SessionError::failure("callback invocation ID space exhausted")),
            Some(successor) => {
                let id: u32 = self.next;
                self.next = successor;
                Ok(id)
            },
        }
    }

    /// Marks the session closed; tells whether it was open before.
    pub fn close(&mut self) -> (first: bool)
        ensures
            first == !old(self).closed,
            final(self).closed,
            final(self).next == old(self).next,
    {
        let first: bool = !self.closed;
        self.closed = true;
        first
    }
}

/// Numbers the sessions of a process.
#[derive(Debug)]
pub struct SessionGenerations {
    pub next: u32,
}

impl SessionGenerations {
    pub fn allocate(&mut self) -> (r: Result<u32, SessionError>)
        ensures
            final(self).next == numbered(old(self).next).1,
            match r {
                Ok(id) => numbered(old(self).next).0 == Some(id),
                Err(e) => numbered(old(self).next).0 is None && e.is(
                    SessionStatus::GenericFailure,
                    "session generation space exhausted"@,
                ),
            },
    {
        match self.next.checked_add(1) {
            None => Err(SessionError::failure("session generation space exhausted")),
            Some(successor) => {
                let id: u32 = self.next;
                self.next = successor;
                Ok(id)
            },
        }
    }
}

/// The leases that one call hands to native code: a list for each callback
/// use-site of the operation, with one lease for each retained value.
#[derive(Debug)]
pub struct SessionCallbackTransfers<L> {
    pub use_sites: Vec<Vec<L>>,
}

impl<L> SessionCallbackTransfers<L> {
    pub fn empty() -> (r: SessionCallbackTransfers<L>)
        ensures
            r.use_sites@.len() == 0,
    {
        SessionCallbackTransfers { use_sites: Vec::new() }
    }

    /// The transfer holds a lease at these positions.
    pub open spec fn holds(self, use_site_index: usize, value_index: usize) -> bool {
        use_site_index < self.use_sites@.len() && value_index
            < self.use_sites@[use_site_index as int]@.len()
    }

    /// The lease of one value at one use-site.
    pub fn lease(&self, use_site_index: usize, value_index: usize) -> (r: Result<&L, SessionError>)
        ensures
            match r {
                Ok(lease) => self.holds(use_site_index, value_index) && *lease
                    == self.use_sites@[use_site_index as int]@[value_index as int],
                Err(e) => !self.holds(use_site_index, value_index) && e.is(
                    SessionStatus::InvalidArg,
                    "callback lease transfer "@ + text::decimal(use_site_index as int) + "/"@
                        + text::decimal(value_index as int) + " is unavailable"@,
                ),
            },
    {
        if use_site_index < self.use_sites.len() {
            let leases = &self.use_sites[use_site_index];
            if value_index < leases.len() {
                return Ok(&leases[value_index]);
            }
        }
        let mut reason: String = "callback lease transfer ".to_owned();
        text::push_decimal(&mut reason, use_site_index as u64);
        reason.append("/");
        text::push_decimal(&mut reason, value_index as u64);
        reason.append(" is unavailable");
        Err(SessionError { status: SessionStatus::InvalidArg, reason })
    }
}

/// The transfers that are under way, keyed by session and by transfer number.
pub struct CallbackTransferRegistry<T> {
    next_id: u32,
    transfers: BTreeMap<(u32, u32), T>,
}

impl<T> CallbackTransferRegistry<T> {
    pub closed spec fn next_id(self) -> u32 {
        self.next_id
    }

    pub closed spec fn transfers(self) -> Map<(u32, u32), T> {
        self.transfers@
    }

    pub fn new() -> (r: CallbackTransferRegistry<T>)
        ensures
            r.next_id() == 0,
            r.transfers() == Map::<(u32, u32), T>::empty(),
    {
        CallbackTransferRegistry { next_id: 0, transfers: BTreeMap::new() }
    }

    /// The next transfer number.
    pub fn allocate(&mut self) -> (r: Result<u32, SessionError>)
        ensures
            final(self).transfers() == old(self).transfers(),
            final(self).next_id() == numbered(old(self).next_id()).1,
            match r {
                Ok(id) => numbered(old(self).next_id()).0 == Some(id),
                Err(e) => numbered(old(self).next_id()).0 is None && e.is(
                    SessionStatus::GenericFailure,
                    "callback transfer ID space exhausted"@,
                ),
            },
    {
        match self.next_id.checked_add(1) {
            None => Err(SessionError::failure("callback transfer ID space exhausted")),
            Some(successor) => {
                let id: u32 = self.next_id;
                self.next_id = successor;
                Ok(id)
            },
        }
    }

    pub fn register(&mut self, generation: u32, id: u32, transfers: T)
        ensures
            final(self).next_id() == old(self).next_id(),
            final(self).transfers() == old(self).transfers().insert((generation, id), transfers),
    {
        self.transfers.insert((generation, id), transfers);
    }

    /// Drops a transfer that native code never took.
    pub fn discard(&mut self, generation: u32, id: u32)
        ensures
            final(self).next_id() == old(self).next_id(),
            final(self).transfers() == old(self).transfers().remove((generation, id)),
    {
        self.transfers.remove(&(generation, id));
        assert(self.transfers@ =~= old(self).transfers@.remove((generation, id)));
    }

    /// Hands a transfer over, once.
    pub fn take(&mut self, generation: u32, id: u32) -> (r: Result<T, SessionError>)
        ensures
            final(self).next_id() == old(self).next_id(),
            final(self).transfers() == old(self).transfers().remove((generation, id)),
            match r {
                Ok(transfers) => {
                    &&& old(self).transfers().dom().contains((generation, id))
                    &&& transfers == old(self).transfers()[(generation, id)]
                },
                Err(e) => !old(self).transfers().dom().contains((generation, id)) && e.is(
                    SessionStatus::GenericFailure,
                    "unknown callback transfer "@ + text::decimal(generation as int) + "/"@
                        + text::decimal(id as int),
                ),
            },
    {
        match self.transfers.remove(&(generation, id)) {
            Some(transfers) => {
                assert(self.transfers@ =~= old(self).transfers@.remove((generation, id)));
                Ok(transfers)
            },
            None => {
                assert(self.transfers@ =~= old(self).transfers@.remove((generation, id)));
                let mut reason: String = "unknown callback transfer ".to_owned();
                text::push_decimal(&mut reason, generation as u64);
                reason.append("/");
                text::push_decimal(&mut reason, id as u64);
                Err(SessionError { status: SessionStatus::GenericFailure, reason })
            },
        }
    }
}

/// What a transfer was registered with is what the first taker gets, and the
/// next taker finds nothing.
pub proof fn transfer_is_taken_once<T>(
    transfers: Map<(u32, u32), T>,
    generation: u32,
    id: u32,
    value: T,
)
    ensures
        transfers.insert((generation, id), value)[(generation, id)] == value,
        !transfers.insert((generation, id), value).remove((generation, id)).dom().contains(
            (generation, id),
        ),
{
}

} // verus!
