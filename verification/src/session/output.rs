//! Cancelling output streams: on request, when the session closes, and when a
//! stream arrives too late.

use crate::session::types::SessionResourceReceiver;
use vstd::prelude::*;

verus! {

/// Why an output stream is cancelled.
#[derive(Clone, Copy, Debug, PartialEq, Eq, Structural)]
pub enum CancelReason {
    /// The script asked for it and gets an answer.
    Requested {
        /// Nobody cancelled the stream before.
        is_new: bool,
        /// There is a cancel hook whose promise is to be followed.
        has_hook: bool,
    },
    /// The session closes.
    Closing,
    /// The stream arrived after the session was closed.
    Late,
}

/// What running the cancel hook came to.
#[derive(Clone, Copy, Debug, PartialEq, Eq, Structural)]
pub enum CancelOutcome {
    /// No hook ran.
    Nothing,
    /// The hook failed.
    Failed,
    /// The hook returned something that is no promise.
    Settled,
    /// The hook returned a promise.
    Pending,
}

/// What follows in the course of a cancellation.
#[derive(Clone, Copy, Debug, PartialEq, Eq, Structural)]
pub enum CancelStep {
    /// Keep a reference to the promise.
    Remember,
    /// Wait for the promise.
    Follow,
    /// Drop the promise, then release the stream.
    ForgetAndRelease,
    /// Drop the promise and report the failure.
    ForgetAndFail,
    /// Release the stream.
    Release,
    /// Report the failure.
    Fail,
    /// All done.
    Done,
}

/// After the cancel hook. A requested cancellation answers with whatever
/// promise there is and keeps it if it is the first; the others follow a
/// promise and otherwise release the stream at once.
pub open spec fn cancelled_step(reason: CancelReason, outcome: CancelOutcome) -> CancelStep {
    match reason {
        CancelReason::Requested { is_new, .. } => if outcome is Failed {
            CancelStep::Fail
        } else if is_new {
            CancelStep::Remember
        } else {
            CancelStep::Done
        },
        _ => if outcome is Pending {
            CancelStep::Remember
        } else {
            CancelStep::Release
        },
    }
}

/// After the promise was kept, or could not be.
pub open spec fn remembered_step(reason: CancelReason, kept: bool) -> CancelStep {
    match reason {
        CancelReason::Requested { has_hook, .. } => if !kept {
            CancelStep::Fail
        } else if has_hook {
            CancelStep::Follow
        } else {
            CancelStep::Done
        },
        CancelReason::Closing => CancelStep::Follow,
        CancelReason::Late => if kept {
            CancelStep::Follow
        } else {
            CancelStep::Release
        },
    }
}

/// After the session has started to wait for the promise, or could not.
pub open spec fn followed_step(reason: CancelReason, following: bool) -> CancelStep {
    if following {
        CancelStep::Done
    } else {
        match reason {
            CancelReason::Requested { .. } => CancelStep::ForgetAndFail,
            CancelReason::Closing => CancelStep::Done,
            CancelReason::Late => CancelStep::ForgetAndRelease,
        }
    }
}

impl CancelReason {
    pub fn after_cancel(self, outcome: CancelOutcome) -> (step: CancelStep)
        ensures
            step == cancelled_step(self, outcome),
    {
        match self {
            CancelReason::Requested { is_new, .. } => if outcome == CancelOutcome::Failed {
                CancelStep::Fail
            } else if is_new {
                CancelStep::Remember
            } else {
                CancelStep::Done
            },
            _ => if outcome == CancelOutcome::Pending {
                CancelStep::Remember
            } else {
                CancelStep::Release
            },
        }
    }

    pub fn after_remember(self, kept: bool) -> (step: CancelStep)
        ensures
            step == remembered_step(self, kept),
    {
        match self {
            CancelReason::Requested { has_hook, .. } => if !kept {
                CancelStep::Fail
            } else if has_hook {
                CancelStep::Follow
            } else {
                CancelStep::Done
            },
            CancelReason::Closing => CancelStep::Follow,
            CancelReason::Late => if kept {
                CancelStep::Follow
            } else {
                CancelStep::Release
            },
        }
    }

    pub fn after_follow(self, following: bool) -> (step: CancelStep)
        ensures
            step == followed_step(self, following),
    {
        if following {
            return CancelStep::Done;
        }
        match self {
            CancelReason::Requested { .. } => CancelStep::ForgetAndFail,
            CancelReason::Closing => CancelStep::Done,
            CancelReason::Late => CancelStep::ForgetAndRelease,
        }
    }
}

/// A stream that arrives after the session was closed never stays behind: at
/// every point its cancellation either is followed to its end or the stream is
/// released at once.
pub proof fn late_stream_never_stays(outcome: CancelOutcome, kept: bool, following: bool)
    ensures
        ({
            let first = cancelled_step(CancelReason::Late, outcome);
            let second = remembered_step(CancelReason::Late, kept);
            let third = followed_step(CancelReason::Late, following);
            ||| first is Release
            ||| second is Release
            ||| third is ForgetAndRelease
            ||| outcome is Pending && kept && following
        }),
{
}

/// What to do with a result that arrives after the session was closed.
#[derive(Clone, Copy, Debug, PartialEq, Eq, Structural)]
pub enum LateResult {
    /// Nothing native hangs on it.
    Drop,
    /// Release the object through its hook.
    ReleaseObject,
    /// Cancel the output stream.
    CancelOutput,
}

/// What a late result of this kind needs, once it is known to carry a value.
pub fn release_late_result(kind: Option<SessionResourceReceiver>) -> (r: LateResult)
    ensures
        r == match kind {
            Some(SessionResourceReceiver::Object) => LateResult::ReleaseObject,
            Some(SessionResourceReceiver::OutputStream) => LateResult::CancelOutput,
            _ => LateResult::Drop,
        },
{
    match kind {
        Some(SessionResourceReceiver::Object) => LateResult::ReleaseObject,
        Some(SessionResourceReceiver::OutputStream) => LateResult::CancelOutput,
        _ => LateResult::Drop,
    }
}

/// What tracking a result value amounts to.
#[derive(Clone, Copy, Debug, PartialEq, Eq, Structural)]
pub enum ResultTracking {
    Nothing,
    /// The value names an input stream.
    Stream,
    /// The value is a resource to track.
    Resource(SessionResourceReceiver),
}

/// How a result of this kind is tracked.
pub fn result_tracking(kind: Option<SessionResourceReceiver>) -> (r: ResultTracking)
    ensures
        r == match kind {
            None => ResultTracking::Nothing,
            Some(SessionResourceReceiver::InputStream) => ResultTracking::Stream,
            Some(kind) => ResultTracking::Resource(kind),
        },
{
    match kind {
        None => ResultTracking::Nothing,
        Some(SessionResourceReceiver::InputStream) => ResultTracking::Stream,
        Some(kind) => ResultTracking::Resource(kind),
    }
}

} // verus!
