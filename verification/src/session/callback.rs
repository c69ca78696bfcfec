//! Invoking host callbacks.

use crate::session::state::{RegisteredModel, SessionModel, SessionState};
use crate::session::types::{
    CallbackKey, JsValue, SessionCallbackArgument, SessionCallbackErrorStyle,
    SessionCallbackReentrancy, SessionCallbackThreading, SessionError, SessionStatus,
};
use crate::text;
use vstd::prelude::*;
use vstd::string::StringExecFns;

verus! {

broadcast use {vstd::std_specs::btree::group_btree_axioms, vstd::laws_cmp::group_laws_cmp};

/// The first use-site at or after `from` that is about this callback type.
pub open spec fn use_site_from(
    arguments: Seq<SessionCallbackArgument>,
    callback_type_id: u32,
    from: int,
) -> Option<int>
    decreases arguments.len() - from,
{
    if from >= arguments.len() {
        None
    } else if arguments[from].callback_type_id == callback_type_id {
        Some(from)
    } else {
        use_site_from(arguments, callback_type_id, from + 1)
    }
}

/// Whether an operation itself forbids to enter a callback again: its first
/// use-site of that callback type decides.
pub open spec fn operation_forbids(
    arguments: Seq<SessionCallbackArgument>,
    callback_type_id: u32,
) -> bool {
    match use_site_from(arguments, callback_type_id, 0) {
        None => false,
        Some(index) => arguments[index].reentrancy is Forbidden,
    }
}

/// Some use-site in force forbids to enter the callback again.
pub open spec fn entries_forbid(entries: Seq<RegisteredModel>) -> bool {
    exists|i: int|
        #![trigger entries[i]]
        0 <= i < entries.len() && entries[i].contract.reentrancy is Forbidden
}

/// Some use-site in force lets the callback run on another thread.
pub open spec fn entries_cross_threads(entries: Seq<RegisteredModel>) -> bool {
    exists|i: int|
        #![trigger entries[i]]
        0 <= i < entries.len() && entries[i].contract.threading is MayCrossThread
}

impl SessionModel {
    /// The callback must not be entered again while it runs.
    pub open spec fn guards(self, operation: int, key: CallbackKey) -> bool {
        ||| operation_forbids(
            self.operations[operation].callback_arguments@,
            key.callback_type_id,
        )
        ||| entries_forbid(self.entries(key))
    }

    /// Why the callback cannot be entered now.
    pub open spec fn entry_refusal(
        self,
        operation: int,
        key: CallbackKey,
        asynchronous: bool,
    ) -> Option<Seq<char>> {
        if !asynchronous && entries_cross_threads(self.entries(key)) {
            Some("synchronous callbacks cannot use the may-cross-thread policy"@)
        } else if self.guards(operation, key) && self.active_callbacks.contains(key.pair()) {
            Some("callback reentrancy is forbidden"@)
        } else {
            None
        }
    }

    /// The session with the callback running.
    pub open spec fn entered(self, key: CallbackKey) -> SessionModel {
        SessionModel { active_callbacks: self.active_callbacks.insert(key.pair()), ..self }
    }

    /// The session with the callback no longer running.
    pub open spec fn left(self, key: CallbackKey) -> SessionModel {
        SessionModel { active_callbacks: self.active_callbacks.remove(key.pair()), ..self }
    }
}

fn forbids(arguments: &Vec<SessionCallbackArgument>, callback_type_id: u32) -> (r: bool)
    ensures
        r == operation_forbids(arguments@, callback_type_id),
{
    let mut i: usize = 0;
    while i < arguments.len()
        invariant
            i <= arguments.len(),
            use_site_from(arguments@, callback_type_id, 0) == use_site_from(
                arguments@,
                callback_type_id,
                i as int,
            ),
        decreases arguments.len() - i,
    {
        if arguments[i].callback_type_id == callback_type_id {
            return arguments[i].reentrancy == SessionCallbackReentrancy::Forbidden;
        }
        i = i + 1;
    }
    false
}

/// One invocation of a host callback.
#[derive(Clone, Copy, Debug, PartialEq, Eq, Structural)]
pub struct CallbackCall {
    pub key: CallbackKey,
    pub method_id: u32,
    pub error_style: SessionCallbackErrorStyle,
    pub asynchronous: bool,
    /// The callback must not be entered again until this invocation is over.
    pub guarded: bool,
}

/// One argument of a host callback method.
#[derive(Clone, Copy, Debug, PartialEq, Eq, Structural)]
pub enum HostArgument {
    Number(u32),
    Value(JsValue),
    /// The arguments of the callback itself, as an array.
    Rest,
}

/// What follows after the host has answered.
#[derive(Clone, Copy, Debug, PartialEq, Eq, Structural)]
pub enum CallbackStep {
    /// Return the answer.
    Return,
    /// Return the answer, a promise, and end the guard when it settles.
    GuardUntilSettled,
}

impl SessionState {
    /// The error style of a callback method, if the session knows it, and the
    /// argument that carries the callback's number.
    pub fn callback_target(
        &self,
        callback_type_id: u32,
        method_id: u32,
        args: &Vec<JsValue>,
    ) -> (r: Result<JsValue, SessionError>)
        ensures
            match r {
                Ok(value) => {
                    &&& self@.callback_methods.dom().contains((callback_type_id, method_id))
                    &&& args@.len() > 0
                    &&& value == args@[0]
                },
                Err(e) => if self@.callback_methods.dom().contains(
                    (callback_type_id, method_id),
                ) {
                    args@.len() == 0 && e.is(
                        SessionStatus::InvalidArg,
                        "callback invocation requires callback ID"@,
                    )
                } else {
                    e.is(
                        SessionStatus::InvalidArg,
                        "unknown callback method "@ + text::decimal(callback_type_id as int)
                            + ":"@ + text::decimal(method_id as int),
                    )
                },
            },
    {
        if !self.callback_methods.contains_key(&(callback_type_id, method_id)) {
            let mut reason: String = "unknown callback method ".to_owned();
            text::push_decimal(&mut reason, callback_type_id as u64);
            reason.append(":");
            text::push_decimal(&mut reason, method_id as u64);
            return Err(SessionError { status: SessionStatus::InvalidArg, reason });
        }
        if args.len() == 0 {
            return Err(SessionError::invalid("callback invocation requires callback ID"));
        }
        Ok(args[0])
    }

    /// Enters a callback, unless a use-site in force forbids it. `Ok(true)`
    /// means that the callback is guarded until the invocation is over.
    pub fn enter_callback(&mut self, operation: u32, key: CallbackKey, asynchronous: bool) -> (r:
        Result<bool, SessionError>)
        requires
            operation < old(self)@.operations.len(),
        ensures
            match old(self)@.entry_refusal(operation as int, key, asynchronous) {
                Some(reason) => {
                    &&& r matches Err(e)
                    &&& e.is(SessionStatus::InvalidArg, reason)
                    &&& final(self)@ == old(self)@
                },
                None => {
                    &&& r == Ok::<bool, SessionError>(old(self)@.guards(operation as int, key))
                    &&& final(self)@ == if old(self)@.guards(operation as int, key) {
                        old(self)@.entered(key)
                    } else {
                        old(self)@
                    }
                },
            },
    {
        let pair: (u32, u32) = key.as_pair();
        let ghost entries = self@.entries(key);
        let mut forbidden: bool = false;
        let mut crossing: bool = false;
        if let Some(listed) = self.contracts.get(&pair) {
            assert(entries =~= crate::session::state::entries_model(listed@));
            for i in 0..listed.len()
                invariant
                    entries == crate::session::state::entries_model(listed@),
                    forbidden == exists|j: int|
                        #![trigger entries[j]]
                        0 <= j < i && entries[j].contract.reentrancy is Forbidden,
                    crossing == exists|j: int|
                        #![trigger entries[j]]
                        0 <= j < i && entries[j].contract.threading is MayCrossThread,
            {
                assert(entries[i as int] == listed@[i as int]@);
                if listed[i].contract.reentrancy == SessionCallbackReentrancy::Forbidden {
                    forbidden = true;
                }
                if listed[i].contract.threading == SessionCallbackThreading::MayCrossThread {
                    crossing = true;
                }
            }
        }
        assert(forbidden == entries_forbid(entries));
        assert(crossing == entries_cross_threads(entries));
        let guarded: bool = forbids(
            &self.operations[operation as usize].callback_arguments,
            key.callback_type_id,
        ) || forbidden;
        if !asynchronous && crossing {
            return Err(
                SessionError::invalid(
                    "synchronous callbacks cannot use the may-cross-thread policy",
                ),
            );
        }
        if guarded {
            if self.active_callbacks.contains(&pair) {
                return Err(SessionError::invalid("callback reentrancy is forbidden"));
            }
            self.active_callbacks.insert(pair);
        }
        Ok(guarded)
    }
}

/// The host method that runs a callback.
pub fn callback_method(asynchronous: bool) -> (name: &'static str)
    ensures
        name@ == if asynchronous {
            "invokeCallbackAsync"@
        } else {
            "invokeCallbackSync"@
        },
{
    if asynchronous {
        "invokeCallbackAsync"
    } else {
        "invokeCallbackSync"
    }
}

impl CallbackCall {
    /// The arguments of the host method. An asynchronous invocation has a
    /// number of its own.
    pub fn host_arguments(&self, callback_id: JsValue, invocation_id: Option<u32>) -> (r: Vec<
        HostArgument,
    >)
        ensures
            r@ == seq![
                HostArgument::Number(self.key.callback_type_id),
                HostArgument::Value(callback_id),
                HostArgument::Number(self.method_id),
            ] + (match invocation_id {
                Some(id) => seq![HostArgument::Number(id)],
                None => Seq::empty(),
            }) + seq![HostArgument::Rest],
    {
        let mut out: Vec<HostArgument> = Vec::new();
        out.push(HostArgument::Number(self.key.callback_type_id));
        out.push(HostArgument::Value(callback_id));
        out.push(HostArgument::Number(self.method_id));
        if let Some(id) = invocation_id {
            out.push(HostArgument::Number(id));
        }
        out.push(HostArgument::Rest);
        out
    }

    /// The session after this invocation is over.
    pub open spec fn over(self, session: SessionModel) -> SessionModel {
        if self.guarded {
            session.left(self.key)
        } else {
            session
        }
    }

    /// Ends the guard of a failed invocation.
    pub fn clear_guard(&self, state: &mut SessionState)
        ensures
            final(state)@ == self.over(old(state)@),
    {
        if self.guarded {
            state.release_callback_guard(self.key);
        }
    }

    /// The host method failed. The message of the script's exception, where
    /// there is one, is the reason; an infallible method adds who failed.
    pub fn host_failed(
        &self,
        state: &mut SessionState,
        exception: Option<String>,
        error: SessionError,
    ) -> (e: SessionError)
        ensures
            final(state)@ == self.over(old(state)@),
            ({
                let reason = match exception {
                    Some(message) => message@,
                    None => error.reason@,
                };
                e.is(
                    SessionStatus::GenericFailure,
                    match self.error_style {
                        SessionCallbackErrorStyle::Infallible => "infallible callback method "@
                            + text::decimal(self.method_id as int) + " failed: "@ + reason,
                        SessionCallbackErrorStyle::Fallible => reason,
                    },
                )
            }),
    {
        self.clear_guard(state);
        let reason: String = match exception {
            Some(message) => message,
            None => error.reason,
        };
        match self.error_style {
            SessionCallbackErrorStyle::Infallible => {
                let mut out: String = "infallible callback method ".to_owned();
                text::push_decimal(&mut out, self.method_id as u64);
                out.append(" failed: ");
                out.append(reason.as_str());
                SessionError { status: SessionStatus::GenericFailure, reason: out }
            },
            SessionCallbackErrorStyle::Fallible => SessionError {
                status: SessionStatus::GenericFailure,
                reason,
            },
        }
    }

    /// The host has answered; `promise` says whether with a promise. An
    /// asynchronous method must, a synchronous one must not.
    pub fn host_answered(&self, state: &mut SessionState, promise: Result<bool, SessionError>) -> (r:
        Result<CallbackStep, SessionError>)
        ensures
            match promise {
                Err(e) => r == Err::<CallbackStep, SessionError>(e) && final(state)@ == self.over(
                    old(state)@,
                ),
                Ok(is_promise) => if self.asynchronous != is_promise {
                    &&& r matches Err(e)
                    &&& e.is(
                        SessionStatus::InvalidArg,
                        if self.asynchronous {
                            "Host.invokeCallbackAsync must return a Promise"@
                        } else {
                            "Host.invokeCallbackSync must not return a Promise"@
                        },
                    )
                    &&& final(state)@ == self.over(old(state)@)
                } else if self.guarded && self.asynchronous {
                    &&& r == Ok::<CallbackStep, SessionError>(CallbackStep::GuardUntilSettled)
                    &&& final(state)@ == old(state)@
                } else {
                    &&& r == Ok::<CallbackStep, SessionError>(CallbackStep::Return)
                    &&& final(state)@ == self.over(old(state)@)
                },
            },
    {
        match promise {
            Err(error) => {
                self.clear_guard(state);
                Err(error)
            },
            Ok(is_promise) => {
                if self.asynchronous != is_promise {
                    self.clear_guard(state);
                    return Err(
                        SessionError::invalid(
                            if self.asynchronous {
                                "Host.invokeCallbackAsync must return a Promise"
                            } else {
                                "Host.invokeCallbackSync must not return a Promise"
                            },
                        ),
                    );
                }
                if self.guarded && self.asynchronous {
                    Ok(CallbackStep::GuardUntilSettled)
                } else {
                    self.clear_guard(state);
                    Ok(CallbackStep::Return)
                }
            },
        }
    }
}

/// The guard of a callback whose promise is still open.
#[derive(Debug)]
pub struct CallbackGuardLease {
    pub key: CallbackKey,
    pub finished: bool,
}

impl CallbackGuardLease {
    pub fn new(key: CallbackKey) -> (r: CallbackGuardLease)
        ensures
            r.key == key,
            !r.finished,
    {
        CallbackGuardLease { key, finished: false }
    }

    /// Ends the guard, once; the caller then deletes its session reference.
    pub fn finish(&mut self, state: &mut SessionState) -> (first: bool)
        ensures
            first == !old(self).finished,
            final(self).finished,
            final(self).key == old(self).key,
            final(state)@ == if old(self).finished {
                old(state)@
            } else {
                old(state)@.left(old(self).key)
            },
    {
        if self.finished {
            return false;
        }
        self.finished = true;
        state.release_callback_guard(self.key);
        true
    }
}

/// While a guarded callback runs, the same callback cannot be entered again
/// through an operation that guards it; once it is over, it can.
pub proof fn guarded_callback_is_not_reentered(
    session: SessionModel,
    operation: int,
    key: CallbackKey,
    asynchronous: bool,
)
    requires
        session.guards(operation, key),
        session.entry_refusal(operation, key, asynchronous) is None,
    ensures
        session.entered(key).entry_refusal(operation, key, asynchronous) == Some(
            "callback reentrancy is forbidden"@,
        ),
        session.entered(key).left(key).entry_refusal(operation, key, asynchronous) is None,
        session.entered(key).left(key) == session,
{
    assert(session.entered(key).left(key).active_callbacks =~= session.active_callbacks);
}

} // verus!
