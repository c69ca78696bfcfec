//! The state of one backend session and its bookkeeping.

use crate::family::ClosePolicy;
use crate::session::leases::CallbackReleaseQueue;
use crate::session::types::{
    CallbackArgumentModel, CallbackKey, CallbackRegistrationToken, JsDeferred, JsRef, JsTimer,
    SessionCallbackArgument, SessionCallbackErrorStyle, SessionCallbackRetention, SessionError,
    SessionNativeCall, SessionOperationDispatch, SessionReceiver, SessionResourceReceiver,
    SessionStatus, SessionStreamArgument,
};
use crate::text;
use std::collections::{BTreeMap, BTreeSet};
use vstd::prelude::*;

verus! {

broadcast use {vstd::std_specs::btree::group_btree_axioms, vstd::laws_cmp::group_laws_cmp};

/// One operation of an open session.
#[derive(Debug)]
pub struct SessionOperation {
    pub dispatch: SessionOperationDispatch,
    pub callback: Option<JsRef>,
    pub native_call: SessionNativeCall,
    pub receiver: Option<SessionReceiver>,
    /// The resource that the result itself is, if it is one.
    pub result: Option<SessionResourceReceiver>,
    pub callback_transfer: bool,
    pub callback_arguments: Vec<SessionCallbackArgument>,
    pub stream_arguments: Vec<SessionStreamArgument>,
}

/// A native resource that the session keeps alive for the script.
#[derive(Clone, Copy, Debug, PartialEq, Eq, Structural)]
pub struct TrackedResource {
    pub reference: JsRef,
    pub kind: SessionResourceReceiver,
    pub cancel_called: bool,
    pub cancel_pending: bool,
    pub cancel_promise: Option<JsRef>,
    pub release_called: bool,
    pub release_pending: bool,
}

/// References to the native hooks that end the life of a resource.
#[derive(Clone, Copy, Debug, PartialEq, Eq, Structural)]
pub struct ResourceHooks {
    pub release_object: Option<JsRef>,
    pub cancel_output_stream: Option<JsRef>,
    pub release_output_stream: Option<JsRef>,
}

/// A callback use-site that is in force for one host callback. A scoped one
/// carries the token that ends it.
#[derive(Debug)]
pub struct RegisteredCallbackContract {
    pub token: Option<u64>,
    pub contract: SessionCallbackArgument,
}

/// The mathematical form of a registered use-site.
pub struct RegisteredModel {
    pub token: Option<u64>,
    pub contract: CallbackArgumentModel,
}

impl View for RegisteredCallbackContract {
    type V = RegisteredModel;

    open spec fn view(&self) -> RegisteredModel {
        RegisteredModel { token: self.token, contract: self.contract@ }
    }
}

/// The mathematical form of the use-sites of one callback.
pub open spec fn entries_model(entries: Seq<RegisteredCallbackContract>) -> Seq<RegisteredModel> {
    Seq::new(entries.len(), |i: int| entries[i]@)
}

/// The state of one backend session.
pub struct SessionState {
    pub(crate) generation: u32,
    pub(crate) policy: ClosePolicy,
    pub(crate) operations: Vec<SessionOperation>,
    pub(crate) callback_methods: BTreeMap<(u32, u32), SessionCallbackErrorStyle>,
    pub(crate) host: Option<JsRef>,
    pub(crate) release_callback: Option<JsRef>,
    pub(crate) hooks: ResourceHooks,
    pub(crate) closed: bool,
    pub(crate) next_registration: u64,
    pub(crate) pending_work: u32,
    pub(crate) close_deferred: Option<JsDeferred>,
    pub(crate) close_promise: Option<JsRef>,
    pub(crate) close_timer: Option<JsTimer>,
    pub(crate) leases: Vec<u64>,
    pub(crate) owners: Vec<u64>,
    pub(crate) transfers: Vec<u32>,
    pub(crate) contracts: BTreeMap<(u32, u32), Vec<RegisteredCallbackContract>>,
    pub(crate) active_callbacks: BTreeSet<(u32, u32)>,
    pub(crate) input_streams: BTreeSet<u32>,
    pub(crate) released_input_streams: BTreeSet<u32>,
    pub(crate) resources: Vec<TrackedResource>,
}

/// The mathematical form of a session's state.
#[verifier::ext_equal]
pub struct SessionModel {
    pub generation: u32,
    pub policy: ClosePolicy,
    pub operations: Seq<SessionOperation>,
    pub callback_methods: Map<(u32, u32), SessionCallbackErrorStyle>,
    pub host: Option<JsRef>,
    pub release_callback: Option<JsRef>,
    pub hooks: ResourceHooks,
    pub closed: bool,
    pub next_registration: u64,
    pub pending_work: u32,
    pub close_deferred: Option<JsDeferred>,
    pub close_promise: Option<JsRef>,
    pub close_timer: Option<JsTimer>,
    /// The tokens of the leases that calls of this session have taken.
    pub leases: Seq<u64>,
    /// The tokens of the leases that the session holds for results.
    pub owners: Seq<u64>,
    pub transfers: Seq<u32>,
    /// The use-sites in force for each host callback.
    pub contracts: Map<(u32, u32), Seq<RegisteredModel>>,
    /// The callbacks that run now and must not be entered again.
    pub active_callbacks: Set<(u32, u32)>,
    pub input_streams: Set<u32>,
    /// Streams that were released once; they never come back.
    pub released_input_streams: Set<u32>,
    pub resources: Seq<TrackedResource>,
}

/// The use-sites in force, with every list in its mathematical form.
pub open spec fn contracts_model(
    contracts: Map<(u32, u32), Vec<RegisteredCallbackContract>>,
) -> Map<(u32, u32), Seq<RegisteredModel>> {
    Map::new(
        |key: (u32, u32)| contracts.dom().contains(key),
        |key: (u32, u32)| entries_model(contracts[key]@),
    )
}

impl View for SessionState {
    type V = SessionModel;

    open(crate) spec fn view(&self) -> SessionModel {
        SessionModel {
            generation: self.generation,
            policy: self.policy,
            operations: self.operations@,
            callback_methods: self.callback_methods@,
            host: self.host,
            release_callback: self.release_callback,
            hooks: self.hooks,
            closed: self.closed,
            next_registration: self.next_registration,
            pending_work: self.pending_work,
            close_deferred: self.close_deferred,
            close_promise: self.close_promise,
            close_timer: self.close_timer,
            leases: self.leases@,
            owners: self.owners@,
            transfers: self.transfers@,
            contracts: contracts_model(self.contracts@),
            active_callbacks: self.active_callbacks@,
            input_streams: self.input_streams@,
            released_input_streams: self.released_input_streams@,
            resources: self.resources@,
        }
    }
}

/// What closing has to tell the script: the promise to resolve and the deadline
/// to stop.
#[derive(Clone, Copy, Debug, PartialEq, Eq, Structural)]
pub struct CloseSignal {
    pub deferred: Option<JsDeferred>,
    pub timer: Option<JsTimer>,
}

/// Where a session stood before an invocation took leases.
pub struct InvocationSnapshot {
    pub lease_len: usize,
    pub owner_len: usize,
    pub transfer_len: usize,
    pub streams: BTreeSet<u32>,
    pub resource_len: usize,
}

impl InvocationSnapshot {
    /// The snapshot records where `session` stands.
    pub open spec fn records(self, session: SessionModel) -> bool {
        &&& self.lease_len == session.leases.len()
        &&& self.owner_len == session.owners.len()
        &&& self.transfer_len == session.transfers.len()
        &&& self.streams@ == session.input_streams
        &&& self.resource_len == session.resources.len()
    }
}

impl Clone for InvocationSnapshot {
    fn clone(&self) -> (r: InvocationSnapshot)
        ensures
            r.lease_len == self.lease_len,
            r.owner_len == self.owner_len,
            r.transfer_len == self.transfer_len,
            r.streams@ == self.streams@,
            r.resource_len == self.resource_len,
    {
        InvocationSnapshot {
            lease_len: self.lease_len,
            owner_len: self.owner_len,
            transfer_len: self.transfer_len,
            streams: self.streams.clone(),
            resource_len: self.resource_len,
        }
    }
}

/// The entries that stay when the registration `token` ends.
pub open spec fn entries_without(entries: Seq<RegisteredModel>, token: u64) -> Seq<RegisteredModel>
    decreases entries.len(),
{
    if entries.len() == 0 {
        Seq::empty()
    } else if entries[0].token == Some(token) {
        entries_without(entries.drop_first(), token)
    } else {
        seq![entries[0]] + entries_without(entries.drop_first(), token)
    }
}

/// The use-sites in force after one scoped registration has ended. A callback
/// without any use-site left is forgotten.
pub open spec fn contracts_without(
    contracts: Map<(u32, u32), Seq<RegisteredModel>>,
    token: CallbackRegistrationToken,
) -> Map<(u32, u32), Seq<RegisteredModel>> {
    let key = token.key.pair();
    if !contracts.dom().contains(key) {
        contracts
    } else if entries_without(contracts[key], token.token).len() == 0 {
        contracts.remove(key)
    } else {
        contracts.insert(key, entries_without(contracts[key], token.token))
    }
}

/// The use-sites in force after each of these scoped registrations has ended.
pub open spec fn contracts_without_all(
    contracts: Map<(u32, u32), Seq<RegisteredModel>>,
    tokens: Seq<CallbackRegistrationToken>,
) -> Map<(u32, u32), Seq<RegisteredModel>>
    decreases tokens.len(),
{
    if tokens.len() == 0 {
        contracts
    } else {
        contracts_without(contracts_without_all(contracts, tokens.drop_last()), tokens.last())
    }
}

impl SessionModel {
    /// The use-sites in force for one callback.
    pub open spec fn entries(self, key: CallbackKey) -> Seq<RegisteredModel> {
        if self.contracts.dom().contains(key.pair()) {
            self.contracts[key.pair()]
        } else {
            Seq::empty()
        }
    }

    /// A retained use-site is in force once, however often it is registered.
    pub open spec fn already_retained(self, key: CallbackKey, contract: CallbackArgumentModel) -> bool {
        exists|i: int|
            #![trigger self.entries(key)[i]]
            0 <= i < self.entries(key).len() && self.entries(key)[i].token is None && self.entries(
                key,
            )[i].contract == contract
    }

    /// The session after `contract` was put in force for `key`.
    pub open spec fn with_contract(self, key: CallbackKey, contract: CallbackArgumentModel) -> SessionModel {
        if contract.retention is Scoped {
            SessionModel {
                contracts: self.contracts.insert(
                    key.pair(),
                    self.entries(key).push(
                        RegisteredModel { token: Some(self.next_registration), contract },
                    ),
                ),
                next_registration: if self.next_registration == u64::MAX {
                    0
                } else {
                    (self.next_registration + 1) as u64
                },
                ..self
            }
        } else if self.already_retained(key, contract) {
            self
        } else {
            SessionModel {
                contracts: self.contracts.insert(
                    key.pair(),
                    self.entries(key).push(RegisteredModel { token: None, contract }),
                ),
                ..self
            }
        }
    }

    /// The session after these scoped registrations have ended.
    pub open spec fn without_scoped(self, tokens: Seq<CallbackRegistrationToken>) -> SessionModel {
        SessionModel { contracts: contracts_without_all(self.contracts, tokens), ..self }
    }

    /// The session after it has told the script that it is closed.
    pub open spec fn close_resolved(self) -> SessionModel {
        SessionModel { close_deferred: None, close_timer: None, ..self }
    }

    /// The session after one pending piece of work has ended.
    pub open spec fn work_finished(self) -> SessionModel {
        if self.pending_work == 0 {
            self
        } else if self.pending_work == 1 {
            SessionModel { pending_work: 0, ..self }.close_resolved()
        } else {
            SessionModel { pending_work: (self.pending_work - 1) as u32, ..self }
        }
    }

    /// What the end of one pending piece of work has to tell the script.
    pub open spec fn finish_signal(self) -> CloseSignal {
        if self.pending_work == 1 {
            CloseSignal { deferred: self.close_deferred, timer: self.close_timer }
        } else {
            CloseSignal { deferred: None, timer: None }
        }
    }

    /// The session after it has learned of an input stream. A released stream
    /// is not tracked again.
    pub open spec fn with_input_stream(self, id: u32) -> SessionModel {
        if self.released_input_streams.contains(id) {
            self
        } else {
            SessionModel { input_streams: self.input_streams.insert(id), ..self }
        }
    }

    /// The session after an input stream was released.
    pub open spec fn without_input_stream(self, id: u32) -> SessionModel {
        if self.input_streams.contains(id) {
            SessionModel {
                input_streams: self.input_streams.remove(id),
                released_input_streams: self.released_input_streams.insert(id),
                ..self
            }
        } else {
            self
        }
    }

    /// No use-site list is empty.
    pub open spec fn valid(self) -> bool {
        forall|key: (u32, u32)| #[trigger]
            self.contracts.dom().contains(key) ==> self.contracts[key].len() > 0
    }
}

/// The name of the error that a closed session gives.
pub open spec fn closed_reason() -> Seq<char> {
    "UniFFI backend session is closed"@
}

impl SessionState {
    /// Refuses work once the session is closed.
    pub fn ensure_open(&self) -> (r: Result<(), SessionError>)
        ensures
            match r {
                Ok(()) => !self@.closed,
                Err(e) => self@.closed && e.is(SessionStatus::GenericFailure, closed_reason()),
            },
    {
        if self.closed {
            Err(SessionError::failure("UniFFI backend session is closed"))
        } else {
            Ok(())
        }
    }

    /// Counts one more piece of work that closing has to wait for.
    pub fn begin_pending_work(&mut self) -> (r: Result<(), SessionError>)
        ensures
            match r {
                Ok(()) => old(self)@.pending_work < u32::MAX && final(self)@ == (SessionModel {
                    pending_work: (old(self)@.pending_work + 1) as u32,
                    ..old(self)@
                }),
                Err(e) => old(self)@.pending_work == u32::MAX && final(self)@ == old(self)@ && e.is(
                    SessionStatus::GenericFailure,
                    "too many pending UniFFI backend operations"@,
                ),
            },
    {
        match self.pending_work.checked_add(1) {
            None => Err(SessionError::failure("too many pending UniFFI backend operations")),
            Some(next) => {
                self.pending_work = next;
                Ok(())
            },
        }
    }

    /// Takes what closing still has to tell the script.
    pub fn resolve_close_deferred(&mut self) -> (signal: CloseSignal)
        ensures
            signal == (CloseSignal {
                deferred: old(self)@.close_deferred,
                timer: old(self)@.close_timer,
            }),
            final(self)@ == old(self)@.close_resolved(),
    {
        let signal = CloseSignal { deferred: self.close_deferred, timer: self.close_timer };
        self.close_deferred = None;
        self.close_timer = None;
        signal
    }

    /// Ends one piece of pending work. The last one resolves the close promise.
    pub fn finish_pending_work(&mut self) -> (signal: CloseSignal)
        ensures
            signal == old(self)@.finish_signal(),
            final(self)@ == old(self)@.work_finished(),
    {
        if self.pending_work == 0 {
            return CloseSignal { deferred: None, timer: None };
        }
        self.pending_work = self.pending_work - 1;
        if self.pending_work == 0 {
            self.resolve_close_deferred()
        } else {
            CloseSignal { deferred: None, timer: None }
        }
    }

    /// Records where the session stands before an invocation.
    pub fn snapshot(&self) -> (snapshot: InvocationSnapshot)
        ensures
            snapshot.records(self@),
    {
        InvocationSnapshot {
            lease_len: self.leases.len(),
            owner_len: self.owners.len(),
            transfer_len: self.transfers.len(),
            streams: self.input_streams.clone(),
            resource_len: self.resources.len(),
        }
    }

    /// The operation behind a number.
    pub fn operation(&self, id: u32) -> (r: Result<&SessionOperation, SessionError>)
        ensures
            match r {
                Ok(operation) => id < self@.operations.len() && *operation
                    == self@.operations[id as int],
                Err(e) => id >= self@.operations.len() && e.is(
                    SessionStatus::InvalidArg,
                    "unknown UniFFI operation ID "@ + text::decimal(id as int),
                ),
            },
    {
        if (id as u64) < self.operations.len() as u64 {
            Ok(&self.operations[id as usize])
        } else {
            Err(SessionError::invalid_number("unknown UniFFI operation ID ", id as u64))
        }
    }

    /// Ends scoped callback registrations.
    pub fn release_scoped_callback_tokens(&mut self, tokens: &Vec<CallbackRegistrationToken>)
        ensures
            final(self)@ == old(self)@.without_scoped(tokens@),
            old(self)@.valid() ==> final(self)@.valid(),
    {
        let ghost before = self@;
        for i in 0..tokens.len()
            invariant
                self@ == before.without_scoped(tokens@.take(i as int)),
                before.valid() ==> self@.valid(),
        {
            proof {
                assert(tokens@.take(i + 1).drop_last() =~= tokens@.take(i as int));
            }
            self.release_scoped_callback_token(tokens[i]);
        }
        assert(tokens@.take(tokens.len() as int) =~= tokens@);
    }

    fn release_scoped_callback_token(&mut self, token: CallbackRegistrationToken)
        ensures
            final(self)@ == (SessionModel {
                contracts: contracts_without(old(self)@.contracts, token),
                ..old(self)@
            }),
            old(self)@.valid() ==> final(self)@.valid(),
    {
        let key: (u32, u32) = token.key.as_pair();
        let ghost before = self@;
        match self.contracts.remove(&key) {
            None => {
                assert(self@.contracts =~= before.contracts);
            },
            Some(entries) => {
                let ghost listed = entries_model(entries@);
                assert(listed == before.contracts[key]);
                let mut entries = entries;
                let mut i: usize = 0;
                assert(listed.skip(0) =~= listed);
                assert(listed.take(0) + entries_without(listed, token.token) =~= entries_without(
                    listed,
                    token.token,
                ));
                while i < entries.len()
                    invariant
                        i <= entries.len(),
                        entries_model(entries@).take(i as int) + entries_without(
                            entries_model(entries@).skip(i as int),
                            token.token,
                        ) == entries_without(listed, token.token),
                    decreases entries.len() - i,
                {
                    let ghost now = entries_model(entries@);
                    assert(now.skip(i as int)[0] == now[i as int]);
                    assert(now.skip(i as int).drop_first() =~= now.skip(i + 1));
                    if entries[i].token == Some(token.token) {
                        entries.remove(i);
                        assert(entries_model(entries@).take(i as int) =~= now.take(i as int));
                        assert(entries_model(entries@).skip(i as int) =~= now.skip(i + 1));
                    } else {
                        assert(now.take(i + 1) =~= now.take(i as int).push(now[i as int]));
                        assert(now.take(i as int) + (seq![now[i as int]] + entries_without(
                            now.skip(i + 1),
                            token.token,
                        )) =~= now.take(i + 1) + entries_without(now.skip(i + 1), token.token));
                        i = i + 1;
                    }
                }
                proof {
                    let now = entries_model(entries@);
                    assert(now.take(i as int) =~= now);
                    assert(now.skip(i as int) =~= Seq::empty());
                    assert(now =~= entries_without(listed, token.token));
                }
                if entries.len() > 0 {
                    self.contracts.insert(key, entries);
                    assert(self@.contracts =~= before.contracts.insert(
                        key,
                        entries_without(listed, token.token),
                    ));
                } else {
                    assert(self@.contracts =~= before.contracts.remove(key));
                }
            },
        }
    }

    /// Puts a callback use-site in force. A scoped one gets a token, which
    /// joins `scoped` and ends it.
    pub fn register_callback_contract(
        &mut self,
        key: CallbackKey,
        contract: &SessionCallbackArgument,
        scoped: &mut Vec<CallbackRegistrationToken>,
    )
        ensures
            final(self)@ == old(self)@.with_contract(key, contract@),
            final(scoped)@ == if contract.retention is Scoped {
                old(scoped)@.push(
                    CallbackRegistrationToken { key, token: old(self)@.next_registration },
                )
            } else {
                old(scoped)@
            },
            old(self)@.valid() ==> final(self)@.valid(),
    {
        let pair: (u32, u32) = key.as_pair();
        let ghost before = self@;
        let mut entries: Vec<RegisteredCallbackContract> = match self.contracts.remove(&pair) {
            Some(entries) => entries,
            None => Vec::new(),
        };
        assert(entries_model(entries@) =~= before.entries(key));
        let ghost listed = before.entries(key);
        if contract.retention == SessionCallbackRetention::Retained {
            let mut known: bool = false;
            for i in 0..entries.len()
                invariant
                    entries_model(entries@) == listed,
                    known == exists|j: int|
                        #![trigger listed[j]]
                        0 <= j < i && listed[j].token is None && listed[j].contract == contract@,
            {
                assert(listed[i as int] == entries@[i as int]@);
                if entries[i].token.is_none() && entries[i].contract.same(contract) {
                    known = true;
                }
            }
            if !known {
                entries.push(RegisteredCallbackContract { token: None, contract: contract.clone() });
                assert(entries_model(entries@) =~= listed.push(
                    RegisteredModel { token: None, contract: contract@ },
                ));
            }
            assert(known == before.already_retained(key, contract@));
        } else {
            let token: u64 = self.next_registration;
            self.next_registration = token.wrapping_add(1);
            entries.push(
                RegisteredCallbackContract { token: Some(token), contract: contract.clone() },
            );
            assert(entries_model(entries@) =~= listed.push(
                RegisteredModel { token: Some(token), contract: contract@ },
            ));
            scoped.push(CallbackRegistrationToken { key, token });
        }
        let ghost kept = entries_model(entries@);
        self.contracts.insert(pair, entries);
        proof {
            assert(self@.contracts =~= before.contracts.insert(pair, kept));
            if kept == listed {
                assert(before.contracts.dom().contains(pair));
                assert(before.contracts.insert(pair, kept) =~= before.contracts);
            }
        }
    }

    /// Takes the lease on a callback that the host was asked to retain. Where
    /// the host failed, or no token is left, the attempt is balanced by a
    /// release.
    pub fn new_callback_lease(
        &mut self,
        queue: &mut CallbackReleaseQueue,
        key: CallbackKey,
        retained: Result<(), SessionError>,
    ) -> (r: Result<u64, SessionError>)
        requires
            old(queue)@.valid(),
        ensures
            final(queue)@.valid(),
            match r {
                Ok(token) => {
                    &&& retained is Ok
                    &&& token == old(queue)@.next_token
                    &&& token < u64::MAX
                    &&& final(queue)@ == old(queue)@.registered(key)
                    &&& final(self)@ == (SessionModel {
                        leases: old(self)@.leases.push(token),
                        ..old(self)@
                    })
                },
                Err(e) => {
                    &&& final(queue)@ == old(queue)@.with_pending(key)
                    &&& final(self)@ == old(self)@
                    &&& match retained {
                        Err(reason) => e == reason,
                        Ok(()) => old(queue)@.next_token == u64::MAX && e.is(
                            SessionStatus::GenericFailure,
                            "callback lease token space exhausted"@,
                        ),
                    }
                },
            },
    {
        match retained {
            Err(error) => {
                queue.enqueue(key);
                Err(error)
            },
            Ok(()) => match queue.register(key) {
                Err(error) => {
                    queue.enqueue(key);
                    Err(error)
                },
                Ok(token) => {
                    self.leases.push(token);
                    Ok(token)
                },
            },
        }
    }

    /// Learns of an input stream.
    pub fn note_input_stream(&mut self, id: u32)
        ensures
            final(self)@ == old(self)@.with_input_stream(id),
    {
        if !self.released_input_streams.contains(&id) {
            self.input_streams.insert(id);
        }
    }

    /// Claims the release of an input stream. The host is asked only where
    /// this returns true, which it does once for each stream.
    pub fn release_input_stream(&mut self, id: u32) -> (release: bool)
        ensures
            release == old(self)@.input_streams.contains(id),
            final(self)@ == old(self)@.without_input_stream(id),
    {
        if !self.input_streams.remove(&id) {
            assert(self@.input_streams =~= old(self)@.input_streams);
            return false;
        }
        self.released_input_streams.insert(id);
        true
    }

    /// Ends the guard of a callback that must not be entered again.
    pub fn release_callback_guard(&mut self, key: CallbackKey)
        ensures
            final(self)@ == (SessionModel {
                active_callbacks: old(self)@.active_callbacks.remove(key.pair()),
                ..old(self)@
            }),
    {
        let pair: (u32, u32) = key.as_pair();
        self.active_callbacks.remove(&pair);
        assert(self@.active_callbacks =~= old(self)@.active_callbacks.remove(key.pair()));
    }
}

/// An input stream is released at most once, and a released one is never
/// tracked again.
pub proof fn input_stream_is_released_once(session: SessionModel, id: u32)
    requires
        session.input_streams.contains(id),
    ensures
        !session.without_input_stream(id).input_streams.contains(id),
        session.without_input_stream(id).released_input_streams.contains(id),
        session.without_input_stream(id).with_input_stream(id) == session.without_input_stream(id),
{
}

/// Work that begins and then finishes leaves the session as it was, and says
/// nothing to the script unless it was the last work of a closing session.
pub proof fn pending_work_is_balanced(session: SessionModel)
    requires
        session.pending_work < u32::MAX,
    ensures
        ({
            let busy = SessionModel { pending_work: (session.pending_work + 1) as u32, ..session };
            &&& session.pending_work > 0 ==> busy.work_finished() == session
            &&& session.pending_work > 0 ==> busy.finish_signal() == (CloseSignal {
                deferred: None,
                timer: None,
            })
            &&& session.pending_work == 0 ==> busy.work_finished() == session.close_resolved()
            &&& session.pending_work == 0 ==> busy.finish_signal() == (CloseSignal {
                deferred: session.close_deferred,
                timer: session.close_timer,
            })
        }),
{
}

/// The end of the newest registration takes away its entry and no other.
proof fn lemma_newest_entry_ends(
    entries: Seq<RegisteredModel>,
    newest: RegisteredModel,
    token: u64,
)
    requires
        newest.token == Some(token),
        forall|i: int| 0 <= i < entries.len() ==> (#[trigger] entries[i]).token != Some(token),
    ensures
        entries_without(entries.push(newest), token) == entries,
    decreases entries.len(),
{
    let all = entries.push(newest);
    if entries.len() > 0 {
        let rest = entries.drop_first();
        assert forall|i: int| 0 <= i < rest.len() implies (#[trigger] rest[i]).token != Some(
            token,
        ) by {
            assert(rest[i] == entries[i + 1]);
        }
        lemma_newest_entry_ends(rest, newest, token);
        assert(all.drop_first() =~= rest.push(newest));
        assert(all[0] == entries[0]);
        assert(seq![entries[0]] + rest =~= entries);
    } else {
        assert(all.drop_first() =~= entries);
        assert(entries_without(entries, token) =~= entries);
    }
}

/// The entries that stay when a registration ends, where it is none of theirs:
/// all of them.
proof fn lemma_other_entries_stay(entries: Seq<RegisteredModel>, token: u64)
    requires
        forall|i: int| 0 <= i < entries.len() ==> (#[trigger] entries[i]).token != Some(token),
    ensures
        entries_without(entries, token) == entries,
    decreases entries.len(),
{
    if entries.len() > 0 {
        let rest = entries.drop_first();
        assert forall|i: int| 0 <= i < rest.len() implies (#[trigger] rest[i]).token != Some(
            token,
        ) by {
            assert(rest[i] == entries[i + 1]);
        }
        lemma_other_entries_stay(rest, token);
        assert(seq![entries[0]] + rest =~= entries);
    }
}

/// The end of one registration leaves the newest entry alone where that is
/// another one.
proof fn lemma_newest_entry_stays(
    entries: Seq<RegisteredModel>,
    newest: RegisteredModel,
    token: u64,
)
    requires
        newest.token != Some(token),
    ensures
        entries_without(entries.push(newest), token) == entries_without(entries, token).push(newest),
    decreases entries.len(),
{
    let all = entries.push(newest);
    if entries.len() > 0 {
        lemma_newest_entry_stays(entries.drop_first(), newest, token);
        assert(all.drop_first() =~= entries.drop_first().push(newest));
        assert(all[0] == entries[0]);
        assert(entries_without(all, token) =~= entries_without(entries, token).push(newest));
    } else {
        assert(all.drop_first() =~= entries);
        assert(entries_without(all.drop_first(), token) =~= Seq::empty());
        assert(entries_without(all, token) =~= entries_without(entries, token).push(newest));
    }
}

/// The use-sites with one more in force.
spec fn with_entry(
    contracts: Map<(u32, u32), Seq<RegisteredModel>>,
    key: (u32, u32),
    entry: RegisteredModel,
) -> Map<(u32, u32), Seq<RegisteredModel>> {
    let listed = if contracts.dom().contains(key) {
        contracts[key]
    } else {
        Seq::empty()
    };
    contracts.insert(key, listed.push(entry))
}

proof fn lemma_end_passes_entry(
    contracts: Map<(u32, u32), Seq<RegisteredModel>>,
    key: (u32, u32),
    entry: RegisteredModel,
    token: CallbackRegistrationToken,
)
    requires
        entry.token != Some(token.token),
    ensures
        contracts_without(with_entry(contracts, key, entry), token) == with_entry(
            contracts_without(contracts, token),
            key,
            entry,
        ),
{
    let after = contracts_without(with_entry(contracts, key, entry), token);
    let other = with_entry(contracts_without(contracts, token), key, entry);
    if token.key.pair() == key {
        let listed = if contracts.dom().contains(key) {
            contracts[key]
        } else {
            Seq::empty()
        };
        lemma_newest_entry_stays(listed, entry, token.token);
        assert(entries_without(Seq::empty(), token.token) =~= Seq::<RegisteredModel>::empty());
        let left = entries_without(listed, token.token);
        if left.len() == 0 {
            assert(left =~= Seq::empty());
        }
        assert(after =~= other);
    } else {
        assert(after =~= other);
    }
}

proof fn lemma_ends_pass_entry(
    contracts: Map<(u32, u32), Seq<RegisteredModel>>,
    key: (u32, u32),
    entry: RegisteredModel,
    tokens: Seq<CallbackRegistrationToken>,
)
    requires
        forall|i: int| 0 <= i < tokens.len() ==> entry.token != Some((#[trigger] tokens[i]).token),
    ensures
        contracts_without_all(with_entry(contracts, key, entry), tokens) == with_entry(
            contracts_without_all(contracts, tokens),
            key,
            entry,
        ),
    decreases tokens.len(),
{
    if tokens.len() > 0 {
        let earlier = tokens.drop_last();
        assert forall|i: int| 0 <= i < earlier.len() implies entry.token != Some(
            (#[trigger] earlier[i]).token,
        ) by {
            assert(earlier[i] == tokens[i]);
        }
        lemma_ends_pass_entry(contracts, key, entry, earlier);
        lemma_end_passes_entry(
            contracts_without_all(contracts, earlier),
            key,
            entry,
            tokens.last(),
        );
    }
}

impl SessionModel {
    /// Every registration in force has a number that was given out before.
    pub open spec fn registered_before(self) -> bool {
        forall|key: (u32, u32), i: int|
            #![trigger self.contracts[key][i]]
            self.contracts.dom().contains(key) && 0 <= i < self.contracts[key].len() ==> (
            self.contracts[key][i].token matches Some(token) ==> token < self.next_registration)
    }

    /// The session after these use-sites were put in force, one after the other.
    pub open spec fn with_contracts(
        self,
        sites: Seq<(CallbackKey, CallbackArgumentModel)>,
    ) -> SessionModel
        decreases sites.len(),
    {
        if sites.len() == 0 {
            self
        } else {
            self.with_contracts(sites.drop_last()).with_contract(sites.last().0, sites.last().1)
        }
    }

    /// The scoped registrations among them.
    pub open spec fn registrations(
        self,
        sites: Seq<(CallbackKey, CallbackArgumentModel)>,
    ) -> Seq<CallbackRegistrationToken>
        decreases sites.len(),
    {
        if sites.len() == 0 {
            Seq::empty()
        } else if sites.last().1.retention is Scoped {
            self.registrations(sites.drop_last()).push(
                CallbackRegistrationToken {
                    key: sites.last().0,
                    token: self.with_contracts(sites.drop_last()).next_registration,
                },
            )
        } else {
            self.registrations(sites.drop_last())
        }
    }
}

/// The numbers of the registrations in force stay below the next number,
/// whatever is put in force or ends, as long as a number is left.
pub proof fn registrations_stay_numbered(
    session: SessionModel,
    key: CallbackKey,
    contract: CallbackArgumentModel,
    tokens: Seq<CallbackRegistrationToken>,
)
    requires
        session.registered_before(),
        session.next_registration < u64::MAX,
    ensures
        session.with_contract(key, contract).registered_before(),
        session.without_scoped(tokens).registered_before(),
    decreases tokens.len(),
{
    let entered = session.with_contract(key, contract);
    assert forall|at: (u32, u32), i: int|
        #![trigger entered.contracts[at][i]]
        entered.contracts.dom().contains(at) && 0 <= i < entered.contracts[at].len() implies (
    entered.contracts[at][i].token matches Some(token) ==> token < entered.next_registration) by {
        if at == key.pair() && i < session.entries(key).len() {
            assert(entered.contracts[at][i] == session.contracts[at][i]);
        }
    }
    if tokens.len() > 0 {
        registrations_stay_numbered(session, key, contract, tokens.drop_last());
        let earlier = session.without_scoped(tokens.drop_last());
        let last = tokens.last();
        let at = last.key.pair();
        if earlier.contracts.dom().contains(at) {
            lemma_entries_come_from(earlier.contracts[at], last.token);
        }
        let ended = session.without_scoped(tokens);
        assert forall|k: (u32, u32), i: int|
            #![trigger ended.contracts[k][i]]
            ended.contracts.dom().contains(k) && 0 <= i < ended.contracts[k].len() implies (
        ended.contracts[k][i].token matches Some(token) ==> token < ended.next_registration) by {
            if k == at {
                let source = choose|j: int|
                    0 <= j < earlier.contracts[k].len() && earlier.contracts[k][j]
                        == ended.contracts[k][i];
                assert(earlier.contracts[k][source] == ended.contracts[k][i]);
            } else {
                assert(earlier.contracts[k][i] == ended.contracts[k][i]);
            }
        }
    }
}

/// What stays was there before.
proof fn lemma_entries_come_from(entries: Seq<RegisteredModel>, token: u64)
    ensures
        forall|i: int|
            #![trigger entries_without(entries, token)[i]]
            0 <= i < entries_without(entries, token).len() ==> exists|j: int|
                0 <= j < entries.len() && entries[j] == entries_without(entries, token)[i],
    decreases entries.len(),
{
    if entries.len() > 0 {
        let rest = entries.drop_first();
        lemma_entries_come_from(rest, token);
        let left = entries_without(entries, token);
        let rest_left = entries_without(rest, token);
        assert forall|i: int| #![trigger left[i]] 0 <= i < left.len() implies exists|j: int|
            0 <= j < entries.len() && entries[j] == left[i] by {
            if entries[0].token != Some(token) && i == 0 {
                assert(entries[0] == left[0]);
            } else {
                let at = if entries[0].token == Some(token) {
                    i
                } else {
                    i - 1
                };
                assert(left[i] == rest_left[at]);
                let j = choose|j: int| 0 <= j < rest.len() && rest[j] == rest_left[at];
                assert(entries[j + 1] == left[i]);
            }
        }
    }
}

/// Numbers are given out one by one.
proof fn lemma_registrations(
    session: SessionModel,
    sites: Seq<(CallbackKey, CallbackArgumentModel)>,
)
    requires
        session.registered_before(),
        session.next_registration + sites.len() <= u64::MAX,
        forall|i: int| 0 <= i < sites.len() ==> (#[trigger] sites[i]).1.retention is Scoped,
    ensures
        session.with_contracts(sites).next_registration == session.next_registration + sites.len(),
        session.registrations(sites).len() == sites.len(),
        forall|i: int|
            0 <= i < sites.len() ==> (#[trigger] session.registrations(sites)[i]).token
                == session.next_registration + i,
    decreases sites.len(),
{
    if sites.len() > 0 {
        let earlier = sites.drop_last();
        assert forall|i: int| 0 <= i < earlier.len() implies (
        #[trigger] earlier[i]).1.retention is Scoped by {
            assert(earlier[i] == sites[i]);
        }
        lemma_registrations(session, earlier);
        assert(sites.last() == sites[sites.len() - 1]);
    }
}

/// Registrations that are not in force end without any effect.
proof fn lemma_unknown_registrations(
    session: SessionModel,
    tokens: Seq<CallbackRegistrationToken>,
)
    requires
        session.valid(),
        session.registered_before(),
        forall|i: int|
            0 <= i < tokens.len() ==> (#[trigger] tokens[i]).token >= session.next_registration,
    ensures
        contracts_without_all(session.contracts, tokens) == session.contracts,
    decreases tokens.len(),
{
    if tokens.len() > 0 {
        let earlier = tokens.drop_last();
        assert forall|i: int| 0 <= i < earlier.len() implies (#[trigger] earlier[i]).token
            >= session.next_registration by {
            assert(earlier[i] == tokens[i]);
        }
        lemma_unknown_registrations(session, earlier);
        let last = tokens[tokens.len() - 1];
        let key = last.key.pair();
        if session.contracts.dom().contains(key) {
            let entries = session.contracts[key];
            assert forall|i: int| 0 <= i < entries.len() implies (#[trigger] entries[i]).token
                != Some(last.token) by {
                assert(session.contracts[key][i] == entries[i]);
            }
            lemma_other_entries_stay(entries, last.token);
            assert(session.contracts.insert(key, entries) =~= session.contracts);
        }
    }
}

/// Scoped callbacks are in force for their invocation only: when its
/// registrations end, exactly the use-sites that were in force before are in
/// force again, and ending them once more changes nothing.
pub proof fn scoped_callbacks_end_with_their_call(
    session: SessionModel,
    sites: Seq<(CallbackKey, CallbackArgumentModel)>,
)
    requires
        session.valid(),
        session.registered_before(),
        session.next_registration + sites.len() <= u64::MAX,
        forall|i: int| 0 <= i < sites.len() ==> (#[trigger] sites[i]).1.retention is Scoped,
    ensures
        ({
            let entered = session.with_contracts(sites);
            let ended = entered.without_scoped(session.registrations(sites));
            &&& ended.contracts == session.contracts
            &&& ended.without_scoped(session.registrations(sites)) == ended
        }),
    decreases sites.len(),
{
    let tokens = session.registrations(sites);
    lemma_registrations(session, sites);
    lemma_unknown_registrations(session, tokens);
    if sites.len() > 0 {
        let earlier = sites.drop_last();
        assert forall|i: int| 0 <= i < earlier.len() implies (
        #[trigger] earlier[i]).1.retention is Scoped by {
            assert(earlier[i] == sites[i]);
        }
        scoped_callbacks_end_with_their_call(session, earlier);
        lemma_registrations(session, earlier);
        let before = session.with_contracts(earlier);
        let site = sites[sites.len() - 1];
        let key = site.0.pair();
        let newest = RegisteredModel { token: Some(before.next_registration), contract: site.1 };
        assert(tokens.drop_last() =~= session.registrations(earlier));
        assert(session.with_contracts(sites).contracts == with_entry(before.contracts, key, newest));
        let others = tokens.drop_last();
        assert forall|i: int| 0 <= i < others.len() implies newest.token != Some(
            (#[trigger] others[i]).token,
        ) by {
            assert(others[i] == session.registrations(earlier)[i]);
        }
        lemma_ends_pass_entry(before.contracts, key, newest, others);
        let listed = session.entries(site.0);
        assert forall|i: int| 0 <= i < listed.len() implies (#[trigger] listed[i]).token
            != newest.token by {
            assert(session.contracts[key][i] == listed[i]);
        }
        lemma_newest_entry_ends(listed, newest, before.next_registration);
        let ended = contracts_without(
            with_entry(session.contracts, key, newest),
            tokens.last(),
        );
        assert(with_entry(session.contracts, key, newest)[key] == listed.push(newest));
        assert(ended =~= session.contracts);
    }
}

} // verus!
