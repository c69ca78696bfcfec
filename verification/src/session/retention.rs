//! Taking the leases that a call needs: on the callbacks, streams and receiver
//! among its arguments, and on the callbacks in its result.

use crate::session::path;
use crate::session::path::PathWalk;
use crate::session::state::{SessionModel, SessionOperation, SessionState};
use crate::session::types;
use crate::session::types::{
    CallbackKey, CallbackRegistrationToken, JsValue, SessionCallbackRetention, SessionError,
    SessionReceiver, SessionResourceReceiver, SessionStatus, SessionStreamDirection,
};
use vstd::prelude::*;

verus! {

/// How far the leases of a call have been taken.
#[derive(Clone, Copy, Debug, PartialEq, Eq, Structural)]
pub enum RetentionPhase {
    /// At a callback use-site.
    Callback(usize),
    /// At the values of a callback use-site.
    CallbackValues(usize),
    /// The host is asked to retain a callback of this use-site.
    CallbackRetain(usize, CallbackKey),
    /// At a stream use-site.
    Stream(usize),
    /// At the values of a stream use-site.
    StreamValues(usize),
    /// At the receiver.
    Receiver,
    /// At the transfer of the leases to native code.
    Transfer,
    Finished,
}

/// What taking the leases needs next.
#[derive(Clone, Copy, Debug, PartialEq, Eq, Structural)]
pub enum RetentionRequest {
    /// Nothing from outside.
    Continue,
    /// The values at a callback use-site.
    CallbackPath(usize),
    /// The number of a callback.
    CallbackId(JsValue),
    /// That the host retains a callback.
    Retain(CallbackKey),
    /// The values at a stream use-site.
    StreamPath(usize),
    /// The number of a stream.
    StreamId(JsValue),
    /// The number of the stream that receives the call.
    ReceiverStreamId(JsValue),
    /// A tracked reference to the resource that receives the call.
    ReceiverResource(JsValue, SessionResourceReceiver),
    /// A registered transfer of the leases.
    TransferId,
    Finished,
}

/// The leases of one call being taken.
pub struct ArgumentRetention {
    operation: usize,
    phase: RetentionPhase,
    values: Vec<JsValue>,
    cursor: usize,
    sites: Vec<Vec<u64>>,
    current: Vec<u64>,
    scoped: Vec<CallbackRegistrationToken>,
    transfer_id: Option<u32>,
}

/// The mathematical form of the leases being taken.
#[verifier::ext_equal]
pub struct RetentionModel {
    pub operation: usize,
    pub phase: RetentionPhase,
    /// The values at the current use-site that are still to be treated.
    pub values: Seq<JsValue>,
    /// The tokens of the leases of each use-site that is done.
    pub sites: Seq<Seq<u64>>,
    /// The tokens of the leases of the current use-site.
    pub current: Seq<u64>,
    pub scoped: Seq<CallbackRegistrationToken>,
    pub transfer_id: Option<u32>,
}

/// Lists of tokens in their mathematical form.
pub open spec fn sites_model(sites: Seq<Vec<u64>>) -> Seq<Seq<u64>> {
    Seq::new(sites.len(), |i: int| sites[i]@)
}

impl View for ArgumentRetention {
    type V = RetentionModel;

    closed spec fn view(&self) -> RetentionModel {
        RetentionModel {
            operation: self.operation,
            phase: self.phase,
            values: self.values@.skip(self.cursor as int),
            sites: sites_model(self.sites@),
            current: self.current@,
            scoped: self.scoped@,
            transfer_id: self.transfer_id,
        }
    }
}

/// How many values stand before the numbered arguments of a call.
pub open spec fn receiver_offset(operation: SessionOperation) -> int {
    if operation.receiver is Some {
        1
    } else {
        0
    }
}

/// What a call keeps while it runs.
pub struct RetainedInvocation {
    pub transfer_id: Option<u32>,
    pub scoped_callbacks: Vec<CallbackRegistrationToken>,
}

impl RetentionModel {
    pub open spec fn started(operation: usize) -> RetentionModel {
        RetentionModel {
            operation,
            phase: RetentionPhase::Callback(0),
            values: Seq::empty(),
            sites: Seq::empty(),
            current: Seq::empty(),
            scoped: Seq::empty(),
            transfer_id: None,
        }
    }

    /// One list of leases stands for each callback use-site, in order, so that
    /// native code finds a lease under the number of its use-site.
    pub open spec fn valid(self, operation: SessionOperation) -> bool {
        match self.phase {
            RetentionPhase::Callback(i) => i <= operation.callback_arguments.len()
                && self.sites.len() == i && self.current.len() == 0,
            RetentionPhase::CallbackValues(i) => i < operation.callback_arguments.len()
                && self.sites.len() == i,
            RetentionPhase::CallbackRetain(i, _) => i < operation.callback_arguments.len()
                && self.sites.len() == i && self.values.len() > 0,
            RetentionPhase::Stream(i) => i <= operation.stream_arguments.len()
                && self.sites.len() == operation.callback_arguments.len(),
            RetentionPhase::StreamValues(i) => i < operation.stream_arguments.len()
                && self.sites.len() == operation.callback_arguments.len(),
            RetentionPhase::Receiver => self.sites.len() == operation.callback_arguments.len(),
            RetentionPhase::Transfer => self.sites.len() == operation.callback_arguments.len(),
            RetentionPhase::Finished => true,
        }
    }

    /// What is needed next; `None` where the receiver is missing.
    pub open spec fn asks(self, operation: SessionOperation, args: Seq<JsValue>) -> Option<
        RetentionRequest,
    > {
        match self.phase {
            RetentionPhase::Callback(i) => if i < operation.callback_arguments.len()
                && operation.callback_arguments[i as int].argument_rooted() {
                Some(RetentionRequest::CallbackPath(i))
            } else {
                Some(RetentionRequest::Continue)
            },
            RetentionPhase::CallbackValues(i) => if self.values.len() > 0 {
                Some(RetentionRequest::CallbackId(self.values[0]))
            } else {
                Some(RetentionRequest::Continue)
            },
            RetentionPhase::CallbackRetain(_, key) => Some(RetentionRequest::Retain(key)),
            RetentionPhase::Stream(i) => if i < operation.stream_arguments.len()
                && operation.stream_arguments[i as int].direction is Input {
                Some(RetentionRequest::StreamPath(i))
            } else {
                Some(RetentionRequest::Continue)
            },
            RetentionPhase::StreamValues(i) => if self.values.len() > 0 {
                Some(RetentionRequest::StreamId(self.values[0]))
            } else {
                Some(RetentionRequest::Continue)
            },
            RetentionPhase::Receiver => match operation.receiver {
                Some(SessionReceiver::Resource(kind)) => if args.len() == 0 {
                    None
                } else if kind is InputStream {
                    Some(RetentionRequest::ReceiverStreamId(args[0]))
                } else {
                    Some(RetentionRequest::ReceiverResource(args[0], kind))
                },
                _ => Some(RetentionRequest::Continue),
            },
            RetentionPhase::Transfer => if operation.callback_transfer {
                Some(RetentionRequest::TransferId)
            } else {
                Some(RetentionRequest::Continue)
            },
            RetentionPhase::Finished => Some(RetentionRequest::Finished),
        }
    }

    /// Where things stand after a step that needs nothing from outside. A
    /// use-site in the result has no argument to look at and keeps an empty
    /// list.
    pub open spec fn continued(self, operation: SessionOperation) -> RetentionModel {
        match self.phase {
            RetentionPhase::Callback(i) => if i < operation.callback_arguments.len() {
                RetentionModel {
                    phase: RetentionPhase::Callback((i + 1) as usize),
                    sites: self.sites.push(Seq::empty()),
                    ..self
                }
            } else {
                RetentionModel { phase: RetentionPhase::Stream(0), ..self }
            },
            RetentionPhase::CallbackValues(i) => RetentionModel {
                phase: RetentionPhase::Callback((i + 1) as usize),
                sites: self.sites.push(self.current),
                current: Seq::empty(),
                ..self
            },
            RetentionPhase::Stream(i) => if i < operation.stream_arguments.len() {
                RetentionModel { phase: RetentionPhase::Stream((i + 1) as usize), ..self }
            } else {
                RetentionModel { phase: RetentionPhase::Receiver, ..self }
            },
            RetentionPhase::StreamValues(i) => RetentionModel {
                phase: RetentionPhase::Stream((i + 1) as usize),
                ..self
            },
            RetentionPhase::Receiver => RetentionModel { phase: RetentionPhase::Transfer, ..self },
            RetentionPhase::Transfer => RetentionModel { phase: RetentionPhase::Finished, ..self },
            _ => self,
        }
    }
}

impl ArgumentRetention {
    pub closed spec fn wf(self) -> bool {
        self.cursor <= self.values.len()
    }

    /// The retention belongs to this session and stands at a sound point.
    pub open spec fn fits(self, session: SessionModel) -> bool {
        &&& self.wf()
        &&& self@.operation < session.operations.len()
        &&& self@.valid(self.target(session))
    }

    /// The operation whose leases are taken.
    pub open spec fn target(self, session: SessionModel) -> SessionOperation {
        session.operations[self@.operation as int]
    }

    pub fn start(state: &SessionState, operation: u32) -> (r: ArgumentRetention)
        requires
            operation < state@.operations.len(),
        ensures
            r.fits(state@),
            r@ == RetentionModel::started(operation as usize),
    {
        let r = ArgumentRetention {
            operation: operation as usize,
            phase: RetentionPhase::Callback(0),
            values: Vec::new(),
            cursor: 0,
            sites: Vec::new(),
            current: Vec::new(),
            scoped: Vec::new(),
            transfer_id: None,
        };
        assert(r@ =~= RetentionModel::started(operation as usize));
        r
    }

    /// Says what is needed next, after taking the step that needs nothing.
    pub fn request(&mut self, state: &SessionState, args: &Vec<JsValue>) -> (r: Result<
        RetentionRequest,
        SessionError,
    >)
        requires
            old(self).fits(state@),
        ensures
            final(self).fits(state@),
            final(self)@.operation == old(self)@.operation,
            match old(self)@.asks(old(self).target(state@), args@) {
                None => {
                    &&& r matches Err(e)
                    &&& e.is(SessionStatus::InvalidArg, "missing resource receiver"@)
                    &&& final(self)@ == old(self)@
                },
                Some(request) => {
                    &&& r == Ok::<RetentionRequest, SessionError>(request)
                    &&& final(self)@ == if request is Continue {
                        old(self)@.continued(old(self).target(state@))
                    } else {
                        old(self)@
                    }
                },
            },
    {
        let operation = &state.operations[self.operation];
        let ghost before = self@;
        match self.phase {
            RetentionPhase::Callback(i) => {
                if i < operation.callback_arguments.len() {
                    if operation.callback_arguments[i].is_argument_rooted() {
                        return Ok(RetentionRequest::CallbackPath(i));
                    }
                    self.sites.push(Vec::new());
                    self.phase = RetentionPhase::Callback(i + 1);
                    assert(self@.sites =~= before.sites.push(Seq::empty()));
                } else {
                    self.phase = RetentionPhase::Stream(0);
                }
            },
            RetentionPhase::CallbackValues(i) => {
                if self.cursor < self.values.len() {
                    return Ok(RetentionRequest::CallbackId(self.values[self.cursor]));
                }
                let mut current: Vec<u64> = Vec::new();
                std::mem::swap(&mut current, &mut self.current);
                self.sites.push(current);
                self.phase = RetentionPhase::Callback(i + 1);
                assert(self@.sites =~= before.sites.push(before.current));
            },
            RetentionPhase::CallbackRetain(_, key) => {
                return Ok(RetentionRequest::Retain(key));
            },
            RetentionPhase::Stream(i) => {
                if i < operation.stream_arguments.len() {
                    if operation.stream_arguments[i].direction == SessionStreamDirection::Input {
                        return Ok(RetentionRequest::StreamPath(i));
                    }
                    self.phase = RetentionPhase::Stream(i + 1);
                } else {
                    self.phase = RetentionPhase::Receiver;
                }
            },
            RetentionPhase::StreamValues(i) => {
                if self.cursor < self.values.len() {
                    return Ok(RetentionRequest::StreamId(self.values[self.cursor]));
                }
                self.phase = RetentionPhase::Stream(i + 1);
            },
            RetentionPhase::Receiver => {
                if let Some(SessionReceiver::Resource(kind)) = operation.receiver {
                    if args.len() == 0 {
                        return Err(SessionError::invalid("missing resource receiver"));
                    }
                    return Ok(
                        if kind == SessionResourceReceiver::InputStream {
                            RetentionRequest::ReceiverStreamId(args[0])
                        } else {
                            RetentionRequest::ReceiverResource(args[0], kind)
                        },
                    );
                }
                self.phase = RetentionPhase::Transfer;
            },
            RetentionPhase::Transfer => {
                if operation.callback_transfer {
                    return Ok(RetentionRequest::TransferId);
                }
                self.phase = RetentionPhase::Finished;
            },
            RetentionPhase::Finished => {
                return Ok(RetentionRequest::Finished);
            },
        }
        Ok(RetentionRequest::Continue)
    }

    /// Starts the walk to the values at the use-site.
    pub fn walk(&self, state: &SessionState, args: &Vec<JsValue>) -> (r: Result<
        PathWalk,
        SessionError,
    >)
        requires
            self.fits(state@),
            self@.asks(self.target(state@), args@) matches Some(request) && (request is CallbackPath
                || request is StreamPath),
        ensures
            ({
                let operation = self.target(state@);
                match self@.phase {
                    RetentionPhase::Callback(i) => path::starts(
                        types::path_model(operation.callback_arguments[i as int].path@),
                        args@,
                        receiver_offset(operation),
                        None,
                        "callback"@,
                        r,
                    ),
                    RetentionPhase::Stream(i) => path::starts(
                        types::path_model(operation.stream_arguments[i as int].path@),
                        args@,
                        receiver_offset(operation),
                        None,
                        "input stream"@,
                        r,
                    ),
                    _ => false,
                }
            }),
    {
        let operation = &state.operations[self.operation];
        let offset: usize = if operation.receiver.is_some() {
            1
        } else {
            0
        };
        match self.phase {
            RetentionPhase::Stream(i) => PathWalk::start(
                &operation.stream_arguments[i].path,
                args,
                offset,
                None,
                "input stream",
            ),
            RetentionPhase::Callback(i) => PathWalk::start(
                &operation.callback_arguments[i].path,
                args,
                offset,
                None,
                "callback",
            ),
            _ => vstd::pervasive::unreached(),
        }
    }

    /// The values found at the use-site.
    pub fn supply_values(&mut self, state: &SessionState, args: &Vec<JsValue>, values: Vec<JsValue>)
        requires
            old(self).fits(state@),
            old(self)@.asks(old(self).target(state@), args@) matches Some(request) && (
            request is CallbackPath || request is StreamPath),
        ensures
            final(self).fits(state@),
            final(self)@ == (RetentionModel {
                phase: match old(self)@.phase {
                    RetentionPhase::Callback(i) => RetentionPhase::CallbackValues(i),
                    RetentionPhase::Stream(i) => RetentionPhase::StreamValues(i),
                    other => other,
                },
                values: values@,
                ..old(self)@
            }),
    {
        match self.phase {
            RetentionPhase::Callback(i) => {
                self.phase = RetentionPhase::CallbackValues(i);
            },
            RetentionPhase::Stream(i) => {
                self.phase = RetentionPhase::StreamValues(i);
            },
            _ => {},
        }
        self.values = values;
        self.cursor = 0;
        assert(self@.values =~= values@);
    }

    /// The number of the callback at hand. Its use-site comes in force; a
    /// retained one is then retained by the host too.
    pub fn supply_callback_id(&mut self, state: &mut SessionState, args: &Vec<JsValue>, id: u32)
        requires
            old(self).fits(old(state)@),
            old(self)@.asks(old(self).target(old(state)@), args@) matches Some(
                RetentionRequest::CallbackId(_),
            ),
        ensures
            final(self).fits(final(state)@),
            old(self)@.phase matches RetentionPhase::CallbackValues(i) && {
                let argument = old(self).target(old(state)@).callback_arguments[i as int];
                let key = CallbackKey {
                    callback_type_id: argument.callback_type_id,
                    callback_id: id,
                };
                &&& final(state)@ == old(state)@.with_contract(key, argument@)
                &&& final(self)@ == if argument.retention is Retained {
                    RetentionModel { phase: RetentionPhase::CallbackRetain(i, key), ..old(self)@ }
                } else {
                    RetentionModel {
                        values: old(self)@.values.drop_first(),
                        scoped: old(self)@.scoped.push(
                            CallbackRegistrationToken {
                                key,
                                token: old(state)@.next_registration,
                            },
                        ),
                        ..old(self)@
                    }
                }
            },
    {
        if let RetentionPhase::CallbackValues(i) = self.phase {
            let ghost before = self@;
            let argument = state.operations[self.operation].callback_arguments[i].clone();
            let ghost original = state@.operations[self.operation as int].callback_arguments[i as int];
            assert(argument@ == original@);
            let key = CallbackKey { callback_type_id: argument.callback_type_id, callback_id: id };
            state.register_callback_contract(key, &argument, &mut self.scoped);
            if argument.retention == SessionCallbackRetention::Retained {
                self.phase = RetentionPhase::CallbackRetain(i, key);
            } else {
                self.cursor = self.cursor + 1;
                assert(self@.values =~= before.values.drop_first());
            }
        }
    }

    /// The token of the lease on the callback that the host retained.
    pub fn supply_lease(&mut self, state: &SessionState, args: &Vec<JsValue>, token: u64)
        requires
            old(self).fits(state@),
            old(self)@.asks(old(self).target(state@), args@) matches Some(
                RetentionRequest::Retain(_),
            ),
        ensures
            final(self).fits(state@),
            old(self)@.phase matches RetentionPhase::CallbackRetain(i, _) && final(self)@ == (
            RetentionModel {
                phase: RetentionPhase::CallbackValues(i),
                values: old(self)@.values.drop_first(),
                current: old(self)@.current.push(token),
                ..old(self)@
            }),
    {
        if let RetentionPhase::CallbackRetain(i, _) = self.phase {
            let ghost before = self@;
            self.current.push(token);
            self.cursor = self.cursor + 1;
            self.phase = RetentionPhase::CallbackValues(i);
            assert(self@.values =~= before.values.drop_first());
        }
    }

    /// The number of the input stream at hand.
    pub fn supply_stream_id(&mut self, state: &mut SessionState, args: &Vec<JsValue>, id: u32)
        requires
            old(self).fits(old(state)@),
            old(self)@.asks(old(self).target(old(state)@), args@) matches Some(
                RetentionRequest::StreamId(_),
            ),
        ensures
            final(self).fits(final(state)@),
            final(state)@ == old(state)@.with_input_stream(id),
            final(self)@ == (RetentionModel {
                values: old(self)@.values.drop_first(),
                ..old(self)@
            }),
    {
        let ghost before = self@;
        state.note_input_stream(id);
        self.cursor = self.cursor + 1;
        assert(self@.values =~= before.values.drop_first());
    }

    /// The number of the input stream that receives the call.
    pub fn supply_receiver_stream(&mut self, state: &mut SessionState, args: &Vec<JsValue>, id: u32)
        requires
            old(self).fits(old(state)@),
            old(self)@.asks(old(self).target(old(state)@), args@) matches Some(
                RetentionRequest::ReceiverStreamId(_),
            ),
        ensures
            final(self).fits(final(state)@),
            final(state)@ == old(state)@.with_input_stream(id),
            final(self)@ == (RetentionModel { phase: RetentionPhase::Transfer, ..old(self)@ }),
    {
        state.note_input_stream(id);
        self.phase = RetentionPhase::Transfer;
    }

    /// The resource that receives the call is tracked.
    pub fn receiver_retained(&mut self, state: &SessionState, args: &Vec<JsValue>)
        requires
            old(self).fits(state@),
            old(self)@.asks(old(self).target(state@), args@) matches Some(
                RetentionRequest::ReceiverResource(_, _),
            ),
        ensures
            final(self).fits(state@),
            final(self)@ == (RetentionModel { phase: RetentionPhase::Transfer, ..old(self)@ }),
    {
        self.phase = RetentionPhase::Transfer;
    }

    /// The tokens of all leases, one list for each callback use-site.
    pub fn sites(&self) -> (sites: &Vec<Vec<u64>>)
        ensures
            sites_model(sites@) == self@.sites,
    {
        &self.sites
    }

    /// The leases were registered for native code under this number.
    pub fn supply_transfer(&mut self, state: &mut SessionState, args: &Vec<JsValue>, id: u32)
        requires
            old(self).fits(old(state)@),
            old(self)@.asks(old(self).target(old(state)@), args@) matches Some(
                RetentionRequest::TransferId,
            ),
        ensures
            final(self).fits(final(state)@),
            final(state)@ == (SessionModel {
                transfers: old(state)@.transfers.push(id),
                ..old(state)@
            }),
            final(self)@ == (RetentionModel {
                phase: RetentionPhase::Finished,
                transfer_id: Some(id),
                ..old(self)@
            }),
    {
        state.transfers.push(id);
        self.transfer_id = Some(id);
        self.phase = RetentionPhase::Finished;
    }

    /// What the call keeps.
    pub fn finish(self) -> (r: RetainedInvocation)
        ensures
            r.transfer_id == self@.transfer_id,
            r.scoped_callbacks@ == self@.scoped,
    {
        RetainedInvocation { transfer_id: self.transfer_id, scoped_callbacks: self.scoped }
    }
}

/// How far the leases on the callbacks of a result have been taken.
#[derive(Clone, Copy, Debug, PartialEq, Eq, Structural)]
pub enum ResultPhase {
    /// At a callback use-site.
    Callback(usize),
    /// At the values of a callback use-site.
    Values(usize),
    /// The host is asked to retain a callback of this use-site.
    Retain(usize, CallbackKey),
}

/// What taking the leases of a result needs next.
#[derive(Clone, Copy, Debug, PartialEq, Eq, Structural)]
pub enum ResultRequest {
    Continue,
    /// The values at a callback use-site.
    Path(usize),
    /// The number of a callback.
    CallbackId(JsValue),
    /// That the host retains a callback.
    Retain(CallbackKey),
    Finished,
}

/// The leases on the callbacks of one result being taken. The session holds
/// them until it closes or rolls the call back.
pub struct ResultRetention {
    operation: usize,
    phase: ResultPhase,
    values: Vec<JsValue>,
    cursor: usize,
}

/// The mathematical form of the leases of a result being taken.
#[verifier::ext_equal]
pub struct ResultModel {
    pub operation: usize,
    pub phase: ResultPhase,
    pub values: Seq<JsValue>,
}

impl View for ResultRetention {
    type V = ResultModel;

    closed spec fn view(&self) -> ResultModel {
        ResultModel {
            operation: self.operation,
            phase: self.phase,
            values: self.values@.skip(self.cursor as int),
        }
    }
}

impl ResultModel {
    pub open spec fn valid(self, operation: SessionOperation) -> bool {
        match self.phase {
            ResultPhase::Callback(i) => i <= operation.callback_arguments.len(),
            ResultPhase::Values(i) => i < operation.callback_arguments.len(),
            ResultPhase::Retain(i, _) => i < operation.callback_arguments.len()
                && self.values.len() > 0,
        }
    }

    /// What is needed next. Only use-sites in the result are looked at.
    pub open spec fn asks(self, operation: SessionOperation) -> ResultRequest {
        match self.phase {
            ResultPhase::Callback(i) => if i >= operation.callback_arguments.len() {
                ResultRequest::Finished
            } else if operation.callback_arguments[i as int].return_rooted() {
                ResultRequest::Path(i)
            } else {
                ResultRequest::Continue
            },
            ResultPhase::Values(i) => if self.values.len() > 0 {
                ResultRequest::CallbackId(self.values[0])
            } else {
                ResultRequest::Continue
            },
            ResultPhase::Retain(_, key) => ResultRequest::Retain(key),
        }
    }

    /// Where things stand after a step that needs nothing from outside.
    pub open spec fn continued(self) -> ResultModel {
        match self.phase {
            ResultPhase::Callback(i) => ResultModel {
                phase: ResultPhase::Callback((i + 1) as usize),
                ..self
            },
            ResultPhase::Values(i) => ResultModel {
                phase: ResultPhase::Callback((i + 1) as usize),
                ..self
            },
            _ => self,
        }
    }
}

impl ResultRetention {
    pub closed spec fn wf(self) -> bool {
        self.cursor <= self.values.len()
    }

    /// The operation whose result is treated.
    pub open spec fn target(self, session: SessionModel) -> SessionOperation {
        session.operations[self@.operation as int]
    }

    /// The retention belongs to this session and stands at a sound point.
    pub open spec fn fits(self, session: SessionModel) -> bool {
        &&& self.wf()
        &&& self@.operation < session.operations.len()
        &&& self@.valid(self.target(session))
    }

    pub fn start(state: &SessionState, operation: u32) -> (r: ResultRetention)
        requires
            operation < state@.operations.len(),
        ensures
            r.fits(state@),
            r@ == (ResultModel {
                operation: operation as usize,
                phase: ResultPhase::Callback(0),
                values: Seq::empty(),
            }),
    {
        let r = ResultRetention {
            operation: operation as usize,
            phase: ResultPhase::Callback(0),
            values: Vec::new(),
            cursor: 0,
        };
        assert(r@.values =~= Seq::empty());
        r
    }

    /// Says what is needed next, after taking the step that needs nothing.
    pub fn request(&mut self, state: &SessionState) -> (request: ResultRequest)
        requires
            old(self).fits(state@),
        ensures
            final(self).fits(state@),
            request == old(self)@.asks(old(self).target(state@)),
            final(self)@ == if request is Continue {
                old(self)@.continued()
            } else {
                old(self)@
            },
    {
        let operation = &state.operations[self.operation];
        match self.phase {
            ResultPhase::Callback(i) => {
                if i >= operation.callback_arguments.len() {
                    return ResultRequest::Finished;
                }
                if operation.callback_arguments[i].is_return_rooted() {
                    return ResultRequest::Path(i);
                }
                self.phase = ResultPhase::Callback(i + 1);
            },
            ResultPhase::Values(i) => {
                if self.cursor < self.values.len() {
                    return ResultRequest::CallbackId(self.values[self.cursor]);
                }
                self.phase = ResultPhase::Callback(i + 1);
            },
            ResultPhase::Retain(_, key) => {
                return ResultRequest::Retain(key);
            },
        }
        ResultRequest::Continue
    }

    /// Starts the walk to the values at the use-site in the result.
    pub fn walk(&self, state: &SessionState, result: JsValue) -> (r: Result<PathWalk, SessionError>)
        requires
            self.fits(state@),
            self@.asks(self.target(state@)) is Path,
        ensures
            self@.phase matches ResultPhase::Callback(i) && path::starts(
                types::path_model(self.target(state@).callback_arguments[i as int].path@),
                Seq::empty(),
                0,
                Some(result),
                "callback result"@,
                r,
            ),
    {
        let args: Vec<JsValue> = Vec::new();
        match self.phase {
            ResultPhase::Callback(i) => PathWalk::start(
                &state.operations[self.operation].callback_arguments[i].path,
                &args,
                0,
                Some(result),
                "callback result",
            ),
            _ => vstd::pervasive::unreached(),
        }
    }

    /// The values found at the use-site.
    pub fn supply_values(&mut self, state: &SessionState, values: Vec<JsValue>)
        requires
            old(self).fits(state@),
            old(self)@.asks(old(self).target(state@)) is Path,
        ensures
            final(self).fits(state@),
            old(self)@.phase matches ResultPhase::Callback(i) && final(self)@ == (ResultModel {
                phase: ResultPhase::Values(i),
                values: values@,
                ..old(self)@
            }),
    {
        if let ResultPhase::Callback(i) = self.phase {
            self.phase = ResultPhase::Values(i);
            self.values = values;
            self.cursor = 0;
            assert(self@.values =~= values@);
        }
    }

    /// The number of the callback at hand. A scoped one needs nothing more; a
    /// retained one comes in force and is retained by the host.
    pub fn supply_callback_id(&mut self, state: &mut SessionState, id: u32)
        requires
            old(self).fits(old(state)@),
            old(self)@.asks(old(self).target(old(state)@)) is CallbackId,
        ensures
            final(self).fits(final(state)@),
            old(self)@.phase matches ResultPhase::Values(i) && {
                let argument = old(self).target(old(state)@).callback_arguments[i as int];
                let key = CallbackKey {
                    callback_type_id: argument.callback_type_id,
                    callback_id: id,
                };
                if argument.retention is Retained {
                    &&& final(state)@ == old(state)@.with_contract(key, argument@)
                    &&& final(self)@ == (ResultModel {
                        phase: ResultPhase::Retain(i, key),
                        ..old(self)@
                    })
                } else {
                    &&& final(state)@ == old(state)@
                    &&& final(self)@ == (ResultModel {
                        values: old(self)@.values.drop_first(),
                        ..old(self)@
                    })
                }
            },
    {
        if let ResultPhase::Values(i) = self.phase {
            let ghost before = self@;
            let argument = state.operations[self.operation].callback_arguments[i].clone();
            let ghost original = state@.operations[self.operation as int].callback_arguments[i as int];
            assert(argument@ == original@);
            if argument.retention == SessionCallbackRetention::Retained {
                let key = CallbackKey {
                    callback_type_id: argument.callback_type_id,
                    callback_id: id,
                };
                let mut none: Vec<CallbackRegistrationToken> = Vec::new();
                state.register_callback_contract(key, &argument, &mut none);
                self.phase = ResultPhase::Retain(i, key);
            } else {
                self.cursor = self.cursor + 1;
                assert(self@.values =~= before.values.drop_first());
            }
        }
    }

    /// The token of the lease on the callback that the host retained. The
    /// session owns it.
    pub fn supply_lease(&mut self, state: &mut SessionState, token: u64)
        requires
            old(self).fits(old(state)@),
            old(self)@.asks(old(self).target(old(state)@)) is Retain,
        ensures
            final(self).fits(final(state)@),
            final(state)@ == (SessionModel {
                owners: old(state)@.owners.push(token),
                ..old(state)@
            }),
            old(self)@.phase matches ResultPhase::Retain(i, _) && final(self)@ == (ResultModel {
                phase: ResultPhase::Values(i),
                values: old(self)@.values.drop_first(),
                ..old(self)@
            }),
    {
        if let ResultPhase::Retain(i, _) = self.phase {
            let ghost before = self@;
            state.owners.push(token);
            self.cursor = self.cursor + 1;
            self.phase = ResultPhase::Values(i);
            assert(self@.values =~= before.values.drop_first());
        }
    }
}

} // verus!
