//! Settlement: what happens when a promise that the session follows settles, or
//! is collected without settling.

use crate::session::state::{InvocationSnapshot, SessionState};
use crate::session::types::{CallbackRegistrationToken, JsRef, SessionError};
use vstd::prelude::*;

verus! {

/// Shared by the two handlers of one promise: only the first of them to run, or
/// to be collected, counts.
pub struct Settlement {
    pub settled: bool,
    /// Where to roll back to if the call failed.
    pub snapshot: Option<InvocationSnapshot>,
}

/// What a fulfilled call needs.
#[derive(Clone, Copy, Debug, PartialEq, Eq, Structural)]
pub enum FulfilledStep {
    /// It was settled before.
    Ignore,
    /// The session is closed: only native resources of the result count.
    Late,
    /// See whether the result is an error.
    Inspect,
}

/// What follows once the result of a call is known.
pub enum ResultStep {
    /// Track the value that the result carries.
    Track,
    /// Undo the call, if there is anything to undo, then report.
    RollBack(Option<InvocationSnapshot>, Result<(), SessionError>),
    /// Report.
    Report(Result<(), SessionError>),
}

/// What a rejected call needs.
pub enum RejectedStep {
    Ignore,
    /// Undo the call, if there is anything to undo. The work is over.
    Finish(Option<InvocationSnapshot>),
}

/// What a settled pull or cancel of an input stream needs.
#[derive(Clone, Copy, Debug, PartialEq, Eq, Structural)]
pub enum InputStep {
    Ignore,
    /// See whether this step is the last one.
    CheckTerminal,
    /// Release the stream. The work is over.
    Release,
    /// The work is over.
    Finish,
}

/// What follows once the last step of a stream is known.
pub enum InputOutcome {
    Release,
    Finish,
    /// Release the stream, then report the failure.
    ReleaseAndFail(SessionError),
}

impl Settlement {
    pub fn new(snapshot: Option<InvocationSnapshot>) -> (r: Settlement)
        ensures
            !r.settled,
            r.snapshot == snapshot,
    {
        Settlement { settled: false, snapshot }
    }

    /// Claims the settlement; only the first claim succeeds.
    pub fn claim(&mut self) -> (first: bool)
        ensures
            first == !old(self).settled,
            final(self).settled,
            final(self).snapshot == old(self).snapshot,
    {
        let first: bool = !self.settled;
        self.settled = true;
        first
    }

    /// Gives up on following the promise: neither handler will count.
    pub fn abandon(&mut self)
        ensures
            final(self).settled,
            final(self).snapshot is None,
    {
        self.settled = true;
        self.snapshot = None;
    }

    fn take_snapshot(&mut self) -> (snapshot: Option<InvocationSnapshot>)
        ensures
            snapshot == old(self).snapshot,
            final(self).snapshot is None,
            final(self).settled == old(self).settled,
    {
        let mut snapshot: Option<InvocationSnapshot> = None;
        std::mem::swap(&mut snapshot, &mut self.snapshot);
        snapshot
    }

    /// The call was fulfilled. Its scoped callbacks end.
    pub fn async_result_fulfilled(
        &mut self,
        state: &mut SessionState,
        scoped: &Vec<CallbackRegistrationToken>,
    ) -> (step: FulfilledStep)
        ensures
            final(self).settled,
            if old(self).settled {
                &&& step is Ignore
                &&& final(self).snapshot == old(self).snapshot
                &&& final(state)@ == old(state)@
            } else {
                &&& final(state)@ == old(state)@.without_scoped(scoped@)
                &&& step == if old(state)@.closed {
                    FulfilledStep::Late
                } else {
                    FulfilledStep::Inspect
                }
                &&& final(self).snapshot == if old(state)@.closed {
                    None
                } else {
                    old(self).snapshot
                }
            },
    {
        if !self.claim() {
            return FulfilledStep::Ignore;
        }
        state.release_scoped_callback_tokens(scoped);
        if state.closed {
            self.snapshot = None;
            FulfilledStep::Late
        } else {
            FulfilledStep::Inspect
        }
    }

    /// The result was looked at.
    pub fn inspected(&mut self, is_error: Result<bool, SessionError>) -> (step: ResultStep)
        ensures
            final(self).settled == old(self).settled,
            match is_error {
                Ok(false) => step is Track && final(self).snapshot == old(self).snapshot,
                Ok(true) => step == ResultStep::RollBack(old(self).snapshot, Ok(()))
                    && final(self).snapshot is None,
                Err(e) => step == ResultStep::RollBack(old(self).snapshot, Err(e)) && final(self).snapshot is None,
            },
    {
        match is_error {
            Ok(true) => ResultStep::RollBack(self.take_snapshot(), Ok(())),
            Ok(false) => ResultStep::Track,
            Err(error) => ResultStep::RollBack(self.take_snapshot(), Err(error)),
        }
    }

    /// The value of the result was tracked, or could not be.
    pub fn result_tracked(&mut self, result: Result<(), SessionError>) -> (step: ResultStep)
        ensures
            final(self).settled == old(self).settled,
            match result {
                Ok(()) => step == ResultStep::Report(Ok(())) && final(self).snapshot == old(self).snapshot,
                Err(e) => step == ResultStep::RollBack(old(self).snapshot, Err(e)) && final(self).snapshot is None,
            },
    {
        match result {
            Ok(()) => ResultStep::Report(Ok(())),
            Err(error) => ResultStep::RollBack(self.take_snapshot(), Err(error)),
        }
    }

    /// The call was rejected, or its handlers were collected. Its scoped
    /// callbacks end, and an open session undoes it.
    pub fn async_result_rejected(
        &mut self,
        state: &mut SessionState,
        scoped: &Vec<CallbackRegistrationToken>,
    ) -> (step: RejectedStep)
        ensures
            final(self).settled,
            if old(self).settled {
                &&& step is Ignore
                &&& final(self).snapshot == old(self).snapshot
                &&& final(state)@ == old(state)@
            } else {
                &&& final(state)@ == old(state)@.without_scoped(scoped@)
                &&& final(self).snapshot is None
                &&& step == RejectedStep::Finish(
                    if old(state)@.closed {
                        None
                    } else {
                        old(self).snapshot
                    },
                )
            },
    {
        if !self.claim() {
            return RejectedStep::Ignore;
        }
        state.release_scoped_callback_tokens(scoped);
        let snapshot = self.take_snapshot();
        if state.closed {
            RejectedStep::Finish(None)
        } else {
            RejectedStep::Finish(snapshot)
        }
    }

    /// A pull or cancel of an input stream was fulfilled. A closed session has
    /// released the stream already.
    pub fn input_settlement_fulfilled(&mut self, state: &SessionState, cancel: bool) -> (step:
        InputStep)
        ensures
            final(self).settled,
            final(self).snapshot == old(self).snapshot,
            step == if old(self).settled {
                InputStep::Ignore
            } else if state@.closed {
                InputStep::Finish
            } else if cancel {
                InputStep::Release
            } else {
                InputStep::CheckTerminal
            },
    {
        if !self.claim() {
            InputStep::Ignore
        } else if state.closed {
            InputStep::Finish
        } else if cancel {
            InputStep::Release
        } else {
            InputStep::CheckTerminal
        }
    }

    /// A pull or cancel of an input stream was rejected, or its handlers were
    /// collected.
    pub fn input_settlement_rejected(&mut self, state: &SessionState) -> (step: InputStep)
        ensures
            final(self).settled,
            final(self).snapshot == old(self).snapshot,
            step == if old(self).settled {
                InputStep::Ignore
            } else if state@.closed {
                InputStep::Finish
            } else {
                InputStep::Release
            },
    {
        if !self.claim() {
            InputStep::Ignore
        } else if state.closed {
            InputStep::Finish
        } else {
            InputStep::Release
        }
    }

    /// The cancellation of an output stream has settled in whatever way, or its
    /// handlers were collected. `Some(true)` means that the stream is to be
    /// released now; after `Some` the work is over.
    pub fn output_cancel_settled(&mut self, state: &mut SessionState, reference: JsRef) -> (r:
        Option<bool>)
        ensures
            final(self).settled,
            final(self).snapshot == old(self).snapshot,
            if old(self).settled {
                r is None && final(state)@ == old(state)@
            } else {
                &&& final(state)@ == old(state)@.cancel_settled(reference)
                &&& r == Some(
                    match crate::session::resources::reference_from(
                        old(state)@.resources,
                        reference,
                        0,
                    ) {
                        None => false,
                        Some(index) => !old(state)@.resources[index].release_called,
                    },
                )
            },
    {
        if !self.claim() {
            return None;
        }
        Some(state.complete_output_cancel(reference))
    }
}

/// What a step of an input stream means once it is known whether it is the last
/// one. A step that cannot be read ends the stream.
pub fn input_step_checked(state: &SessionState, terminal: Result<bool, SessionError>) -> (r:
    InputOutcome)
    ensures
        r == match terminal {
            Ok(last) => if last && !state@.closed {
                InputOutcome::Release
            } else {
                InputOutcome::Finish
            },
            Err(e) => InputOutcome::ReleaseAndFail(e),
        },
{
    match terminal {
        Ok(true) => if state.closed {
            InputOutcome::Finish
        } else {
            InputOutcome::Release
        },
        Ok(false) => InputOutcome::Finish,
        Err(error) => InputOutcome::ReleaseAndFail(error),
    }
}

/// How far attaching the two handlers of a promise got before it failed.
#[derive(Clone, Copy, Debug, PartialEq, Eq, Structural)]
pub enum AttachStage {
    /// Referring to the session for the first handler.
    FirstReference,
    /// Referring to the session for the second handler.
    SecondReference,
    /// Making the first handler.
    FirstHandler,
    /// Making the second handler. The first one owns its reference by now.
    SecondHandler,
    /// Reading `then` or calling it. Both handlers own their references.
    Subscribe,
}

/// What a failure to attach the handlers leaves to be cleaned up.
#[derive(Clone, Copy, Debug, PartialEq, Eq, Structural)]
pub struct AttachCleanup {
    pub abandon: bool,
    pub delete_first: bool,
    pub delete_second: bool,
}

/// Every reference that no handler owns yet is deleted, and handlers that exist
/// are made to do nothing.
pub fn attach_failed(stage: AttachStage) -> (r: AttachCleanup)
    ensures
        r.delete_first == (stage is SecondReference || stage is FirstHandler),
        r.delete_second == (stage is FirstHandler || stage is SecondHandler),
        r.abandon == !(stage is FirstReference || stage is SecondReference),
{
    match stage {
        AttachStage::FirstReference => AttachCleanup {
            abandon: false,
            delete_first: false,
            delete_second: false,
        },
        AttachStage::SecondReference => AttachCleanup {
            abandon: false,
            delete_first: true,
            delete_second: false,
        },
        AttachStage::FirstHandler => AttachCleanup {
            abandon: true,
            delete_first: true,
            delete_second: true,
        },
        AttachStage::SecondHandler => AttachCleanup {
            abandon: true,
            delete_first: false,
            delete_second: true,
        },
        AttachStage::Subscribe => AttachCleanup {
            abandon: true,
            delete_first: false,
            delete_second: false,
        },
    }
}

} // verus!
