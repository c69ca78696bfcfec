//! Values at the private boundary between the engine and its host.

use crate::number::Number;
use vstd::prelude::*;

verus! {

/// A lossless value at the host boundary.
#[derive(Clone, Debug, PartialEq)]
pub enum OhosValue {
    Unit,
    Null,
    Boolean(bool),
    Number(Number),
    BigInt { negative: bool, words: Vec<u64> },
    String(String),
    Bytes(Vec<u8>),
    Object(u32),
    Callback(u32),
    InputStream(u32),
    OutputStream(u32),
}

impl OhosValue {
    pub fn bigint(negative: bool, words: Vec<u64>) -> (r: OhosValue)
        ensures
            r == (OhosValue::BigInt { negative, words }),
    {
        OhosValue::BigInt { negative, words }
    }
}

/// The runtime mechanisms that a generated module relies on.
#[derive(Clone, Copy, Debug, PartialEq, Eq, Structural)]
pub struct OhosRuntimeHooks {
    pub module_registration: OhosModuleRegistration,
    pub async_scheduler: OhosAsyncScheduler,
    pub callback_dispatch: OhosCallbackDispatch,
    pub cleanup_queue: OhosCleanupQueue,
}

impl Default for OhosRuntimeHooks {
    fn default() -> (r: OhosRuntimeHooks)
        ensures
            r.module_registration is ArkNapi,
            r.async_scheduler is ArkEventLoop,
            r.callback_dispatch is PriorityThreadsafeFunction,
            r.cleanup_queue is ArkRuntime,
    {
        OhosRuntimeHooks {
            module_registration: OhosModuleRegistration::ArkNapi,
            async_scheduler: OhosAsyncScheduler::ArkEventLoop,
            callback_dispatch: OhosCallbackDispatch::PriorityThreadsafeFunction,
            cleanup_queue: OhosCleanupQueue::ArkRuntime,
        }
    }
}

#[derive(Clone, Copy, Debug, PartialEq, Eq, Structural)]
pub enum OhosModuleRegistration {
    ArkNapi,
}

#[derive(Clone, Copy, Debug, PartialEq, Eq, Structural)]
pub enum OhosAsyncScheduler {
    ArkEventLoop,
}

#[derive(Clone, Copy, Debug, PartialEq, Eq, Structural)]
pub enum OhosCallbackDispatch {
    PriorityThreadsafeFunction,
}

#[derive(Clone, Copy, Debug, PartialEq, Eq, Structural)]
pub enum OhosCleanupQueue {
    ArkRuntime,
}

} // verus!
