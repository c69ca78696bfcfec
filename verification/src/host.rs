//! The host of a backend session.

use crate::error::OhosError;
use crate::value::OhosValue;
use vstd::prelude::*;

verus! {

/// What an application supplies to a backend session.
///
/// Nothing is known of the answers of a host: whatever the session promises
/// holds for every host. What the methods with a body promise holds of the hosts
/// that keep these bodies.
pub trait OhosHost {
    fn invoke_sync(&mut self, operation_id: u32, args: &[OhosValue]) -> Result<
        OhosValue,
        OhosError,
    >;

    fn invoke_callback(
        &mut self,
        callback_type: u32,
        callback_id: u32,
        method_id: u32,
        args: &[OhosValue],
    ) -> Result<OhosValue, OhosError>;

    /// Succeeds and does nothing, unless the host has a method of its own.
    fn retain_callback(&mut self, _callback_type: u32, _callback_id: u32) -> (r: Result<
        (),
        OhosError,
    >)
        default_ensures
            r is Ok,
            &*final(self) == &*old(self),
    {
        Ok(())
    }

    /// Succeeds and does nothing, unless the host has a method of its own.
    fn release_callback(&mut self, _callback_type: u32, _callback_id: u32) -> (r: Result<
        (),
        OhosError,
    >)
        default_ensures
            r is Ok,
            &*final(self) == &*old(self),
    {
        Ok(())
    }

    fn pull_input_stream(&mut self, stream_id: u32) -> Result<OhosValue, OhosError>;

    fn cancel_input_stream(&mut self, stream_id: u32) -> Result<(), OhosError>;

    /// Succeeds and does nothing, unless the host has a method of its own.
    fn release_input_stream(&mut self, _stream_id: u32) -> (r: Result<(), OhosError>)
        default_ensures
            r is Ok,
            &*final(self) == &*old(self),
    {
        Ok(())
    }

    fn next_output_stream(&mut self, stream_id: u32) -> Result<OhosValue, OhosError>;

    fn cancel_output_stream(&mut self, stream_id: u32) -> Result<(), OhosError>;

    /// Succeeds and does nothing, unless the host has a method of its own.
    fn release_output_stream(&mut self, _stream_id: u32) -> (r: Result<(), OhosError>)
        default_ensures
            r is Ok,
            &*final(self) == &*old(self),
    {
        Ok(())
    }

    fn release_object(&mut self, object_id: u32) -> Result<(), OhosError>;
}

/// A call of the host.
pub enum HostCall {
    InvokeSync { operation_id: u32, args: Seq<OhosValue> },
    InvokeCallback { callback_type: u32, callback_id: u32, method_id: u32, args: Seq<OhosValue> },
    RetainCallback { callback_type: u32, callback_id: u32 },
    ReleaseCallback { callback_type: u32, callback_id: u32 },
    PullInputStream { stream_id: u32 },
    CancelInputStream { stream_id: u32 },
    ReleaseInputStream { stream_id: u32 },
    NextOutputStream { stream_id: u32 },
    CancelOutputStream { stream_id: u32 },
    ReleaseOutputStream { stream_id: u32 },
    ReleaseObject { object_id: u32 },
}

/// An answer of the host.
pub enum HostReply {
    Value(Result<OhosValue, OhosError>),
    Done(Result<(), OhosError>),
}

impl HostCall {
    /// The call has a value for its answer.
    pub open spec fn gives_value(self) -> bool {
        match self {
            HostCall::InvokeSync { .. } => true,
            HostCall::InvokeCallback { .. } => true,
            HostCall::PullInputStream { .. } => true,
            HostCall::NextOutputStream { .. } => true,
            _ => false,
        }
    }
}

/// A call of the host with its answer.
pub struct HostEvent {
    pub call: HostCall,
    pub reply: HostReply,
}

/// One more event has happened: this call, with this answer.
pub open spec fn happened(
    before: Seq<HostEvent>,
    after: Seq<HostEvent>,
    call: HostCall,
    reply: HostReply,
) -> bool {
    after == before.push(HostEvent { call, reply })
}

/// A host with the history of its calls. Each method makes the call of the host that
/// it records, on that host and with those arguments.
pub struct HostPort<H: OhosHost> {
    host: H,
    history: Ghost<Seq<HostEvent>>,
}

impl<H: OhosHost> HostPort<H> {
    /// All calls so far, in order.
    pub closed spec fn history(self) -> Seq<HostEvent> {
        self.history@
    }

    /// The host as it stands.
    pub closed spec fn host(self) -> H {
        self.host
    }

    pub fn new(host: H) -> (r: HostPort<H>)
        ensures
            r.history() == Seq::<HostEvent>::empty(),
            r.host() == host,
    {
        HostPort { host, history: Ghost(Seq::empty()) }
    }

    pub fn invoke_sync(&mut self, operation_id: u32, args: &[OhosValue]) -> (r: Result<
        OhosValue,
        OhosError,
    >)
        ensures
            happened(
                old(self).history(),
                final(self).history(),
                HostCall::InvokeSync { operation_id, args: args@ },
                HostReply::Value(r),
            ),
            exists|host: &mut H|
                *host == old(self).host() && *final(host) == final(self).host()
                    && #[trigger] call_ensures(H::invoke_sync, (host, operation_id, args), r),
    {
        let r = self.host.invoke_sync(operation_id, args);
        proof {
            self.history@ = self.history@.push(
                HostEvent {
                    call: HostCall::InvokeSync { operation_id, args: args@ },
                    reply: HostReply::Value(r),
                },
            );
        }
        r
    }

    pub fn invoke_callback(
        &mut self,
        callback_type: u32,
        callback_id: u32,
        method_id: u32,
        args: &[OhosValue],
    ) -> (r: Result<OhosValue, OhosError>)
        ensures
            happened(
                old(self).history(),
                final(self).history(),
                HostCall::InvokeCallback { callback_type, callback_id, method_id, args: args@ },
                HostReply::Value(r),
            ),
            exists|host: &mut H|
                *host == old(self).host() && *final(host) == final(self).host()
                    && #[trigger] call_ensures(
                    H::invoke_callback,
                    (host, callback_type, callback_id, method_id, args),
                    r,
                ),
    {
        let r = self.host.invoke_callback(callback_type, callback_id, method_id, args);
        proof {
            self.history@ = self.history@.push(
                HostEvent {
                    call: HostCall::InvokeCallback {
                        callback_type,
                        callback_id,
                        method_id,
                        args: args@,
                    },
                    reply: HostReply::Value(r),
                },
            );
        }
        r
    }

    pub fn retain_callback(&mut self, callback_type: u32, callback_id: u32) -> (r: Result<
        (),
        OhosError,
    >)
        ensures
            happened(
                old(self).history(),
                final(self).history(),
                HostCall::RetainCallback { callback_type, callback_id },
                HostReply::Done(r),
            ),
            exists|host: &mut H|
                *host == old(self).host() && *final(host) == final(self).host()
                    && #[trigger] call_ensures(H::retain_callback, (host, callback_type, callback_id), r),
    {
        let r = self.host.retain_callback(callback_type, callback_id);
        proof {
            self.history@ = self.history@.push(
                HostEvent {
                    call: HostCall::RetainCallback { callback_type, callback_id },
                    reply: HostReply::Done(r),
                },
            );
        }
        r
    }

    pub fn release_callback(&mut self, callback_type: u32, callback_id: u32) -> (r: Result<
        (),
        OhosError,
    >)
        ensures
            happened(
                old(self).history(),
                final(self).history(),
                HostCall::ReleaseCallback { callback_type, callback_id },
                HostReply::Done(r),
            ),
            exists|host: &mut H|
                *host == old(self).host() && *final(host) == final(self).host()
                    && #[trigger] call_ensures(H::release_callback, (host, callback_type, callback_id), r),
    {
        let r = self.host.release_callback(callback_type, callback_id);
        proof {
            self.history@ = self.history@.push(
                HostEvent {
                    call: HostCall::ReleaseCallback { callback_type, callback_id },
                    reply: HostReply::Done(r),
                },
            );
        }
        r
    }

    pub fn pull_input_stream(&mut self, stream_id: u32) -> (r: Result<OhosValue, OhosError>)
        ensures
            happened(
                old(self).history(),
                final(self).history(),
                HostCall::PullInputStream { stream_id },
                HostReply::Value(r),
            ),
            exists|host: &mut H|
                *host == old(self).host() && *final(host) == final(self).host()
                    && #[trigger] call_ensures(H::pull_input_stream, (host, stream_id), r),
    {
        let r = self.host.pull_input_stream(stream_id);
        proof {
            self.history@ = self.history@.push(
                HostEvent {
                    call: HostCall::PullInputStream { stream_id },
                    reply: HostReply::Value(r),
                },
            );
        }
        r
    }

    pub fn cancel_input_stream(&mut self, stream_id: u32) -> (r: Result<(), OhosError>)
        ensures
            happened(
                old(self).history(),
                final(self).history(),
                HostCall::CancelInputStream { stream_id },
                HostReply::Done(r),
            ),
            exists|host: &mut H|
                *host == old(self).host() && *final(host) == final(self).host()
                    && #[trigger] call_ensures(H::cancel_input_stream, (host, stream_id), r),
    {
        let r = self.host.cancel_input_stream(stream_id);
        proof {
            self.history@ = self.history@.push(
                HostEvent {
                    call: HostCall::CancelInputStream { stream_id },
                    reply: HostReply::Done(r),
                },
            );
        }
        r
    }

    pub fn release_input_stream(&mut self, stream_id: u32) -> (r: Result<(), OhosError>)
        ensures
            happened(
                old(self).history(),
                final(self).history(),
                HostCall::ReleaseInputStream { stream_id },
                HostReply::Done(r),
            ),
            exists|host: &mut H|
                *host == old(self).host() && *final(host) == final(self).host()
                    && #[trigger] call_ensures(H::release_input_stream, (host, stream_id), r),
    {
        let r = self.host.release_input_stream(stream_id);
        proof {
            self.history@ = self.history@.push(
                HostEvent {
                    call: HostCall::ReleaseInputStream { stream_id },
                    reply: HostReply::Done(r),
                },
            );
        }
        r
    }

    pub fn next_output_stream(&mut self, stream_id: u32) -> (r: Result<OhosValue, OhosError>)
        ensures
            happened(
                old(self).history(),
                final(self).history(),
                HostCall::NextOutputStream { stream_id },
                HostReply::Value(r),
            ),
            exists|host: &mut H|
                *host == old(self).host() && *final(host) == final(self).host()
                    && #[trigger] call_ensures(H::next_output_stream, (host, stream_id), r),
    {
        let r = self.host.next_output_stream(stream_id);
        proof {
            self.history@ = self.history@.push(
                HostEvent {
                    call: HostCall::NextOutputStream { stream_id },
                    reply: HostReply::Value(r),
                },
            );
        }
        r
    }

    pub fn cancel_output_stream(&mut self, stream_id: u32) -> (r: Result<(), OhosError>)
        ensures
            happened(
                old(self).history(),
                final(self).history(),
                HostCall::CancelOutputStream { stream_id },
                HostReply::Done(r),
            ),
            exists|host: &mut H|
                *host == old(self).host() && *final(host) == final(self).host()
                    && #[trigger] call_ensures(H::cancel_output_stream, (host, stream_id), r),
    {
        let r = self.host.cancel_output_stream(stream_id);
        proof {
            self.history@ = self.history@.push(
                HostEvent {
                    call: HostCall::CancelOutputStream { stream_id },
                    reply: HostReply::Done(r),
                },
            );
        }
        r
    }

    pub fn release_output_stream(&mut self, stream_id: u32) -> (r: Result<(), OhosError>)
        ensures
            happened(
                old(self).history(),
                final(self).history(),
                HostCall::ReleaseOutputStream { stream_id },
                HostReply::Done(r),
            ),
            exists|host: &mut H|
                *host == old(self).host() && *final(host) == final(self).host()
                    && #[trigger] call_ensures(H::release_output_stream, (host, stream_id), r),
    {
        let r = self.host.release_output_stream(stream_id);
        proof {
            self.history@ = self.history@.push(
                HostEvent {
                    call: HostCall::ReleaseOutputStream { stream_id },
                    reply: HostReply::Done(r),
                },
            );
        }
        r
    }

    pub fn release_object(&mut self, object_id: u32) -> (r: Result<(), OhosError>)
        ensures
            happened(
                old(self).history(),
                final(self).history(),
                HostCall::ReleaseObject { object_id },
                HostReply::Done(r),
            ),
            exists|host: &mut H|
                *host == old(self).host() && *final(host) == final(self).host()
                    && #[trigger] call_ensures(H::release_object, (host, object_id), r),
    {
        let r = self.host.release_object(object_id);
        proof {
            self.history@ = self.history@.push(
                HostEvent {
                    call: HostCall::ReleaseObject { object_id },
                    reply: HostReply::Done(r),
                },
            );
        }
        r
    }
}

} // verus!
