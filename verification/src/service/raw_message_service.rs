//! Middleware that sees JSON-RPC messages before the service handles them.

use std::marker::PhantomData;

use vstd::prelude::*;

use crate::model::{ErrorData, Extensions, GetExtensions, JsonRpcMessage, Meta, RequestId};
use crate::service::peer::Peer;
use crate::service::role::{RxJsonRpcMessage, ServiceRole, TxJsonRpcMessage};

verus! {

/// What raw message middleware knows besides the message.
#[derive(Debug, Clone)]
#[verifier::reject_recursive_types(R)]
pub struct RawMessageContext<R: ServiceRole> {
    /// The peer the message came from.
    pub peer: Peer<R>,
    /// The meta object of the message.
    pub meta: Meta,
    /// The extensions of the message.
    pub extensions: Extensions,
}

/// What raw message middleware decides about a message.
#[derive(Debug)]
#[verifier::reject_recursive_types(R)]
pub enum RawMessageResponse<R: ServiceRole> {
    /// Hand the message on to the service.
    Continue,
    /// Answer with this message at once; the service never sees the original.
    Respond(TxJsonRpcMessage<R>),
}

/// Middleware that inspects each received message before it is handled.
///
/// `Ok(Continue)` hands the message on, `Ok(Respond(m))` answers with `m` at
/// once, and `Err(e)` answers with the error `e`.
pub trait RawMessageService<R: ServiceRole>: Send + Sync {
    fn handle_message(
        &self,
        message: RxJsonRpcMessage<R>,
        context: RawMessageContext<R>,
    ) -> Result<RawMessageResponse<R>, ErrorData>;
}

/// Raw message middleware built from a tower-style service that takes a
/// message with its context and gives the decision.
#[verifier::reject_recursive_types(R)]
pub struct RawMessageTowerService<S, R: ServiceRole> {
    service: S,
    _phantom: PhantomData<R>,
}

impl<S, R: ServiceRole> RawMessageTowerService<S, R> {
    /// The tower-style service that decides.
    pub closed spec fn service_of(&self) -> S {
        self.service
    }

    /// Middleware deciding with `service`.
    pub fn new(service: S) -> (m: Self)
        ensures
            m.service_of() == service,
    {
        RawMessageTowerService { service, _phantom: PhantomData }
    }

    /// The tower-style service that decides.
    pub fn service(&self) -> (s: &S)
        ensures
            *s == self.service_of(),
    {
        &self.service
    }
}

/// A raw message service that hands every message on.
#[derive(Clone, Copy, Debug, Default)]
pub struct PassthroughService;

impl PassthroughService {
    /// The service is always ready.
    pub fn poll_ready(&self) -> (r: Result<(), ErrorData>)
        ensures
            r is Ok,
    {
        Ok(())
    }

    /// The decision for any message: hand it on.
    pub fn call<R: ServiceRole>(&self, request: (RxJsonRpcMessage<R>, RawMessageContext<R>)) -> (r: Result<RawMessageResponse<R>, ErrorData>)
        ensures
            r matches Ok(RawMessageResponse::Continue),
    {
        Ok(RawMessageResponse::Continue)
    }
}

/// The extensions a received message carries: those of its request or
/// notification; responses and errors carry none.
pub open spec fn message_extensions<R: ServiceRole>(message: RxJsonRpcMessage<R>) -> Option<Extensions> {
    match message {
        JsonRpcMessage::Request(r) => Some(r.request.extensions_of()),
        JsonRpcMessage::Notification(n) => Some(n.notification.extensions_of()),
        JsonRpcMessage::Response(_) => None,
        JsonRpcMessage::Error(_) => None,
    }
}

/// The request identifier a message carries: requests, responses and errors
/// carry one, notifications none.
pub open spec fn message_request_id<Req, Resp, Not>(message: JsonRpcMessage<Req, Resp, Not>) -> Option<RequestId> {
    match message {
        JsonRpcMessage::Request(r) => Some(r.id),
        JsonRpcMessage::Response(r) => Some(r.id),
        JsonRpcMessage::Error(e) => Some(e.id),
        JsonRpcMessage::Notification(_) => None,
    }
}

/// A copy of the meta object of a message; empty for responses and errors.
pub fn extract_message_meta<R: ServiceRole>(message: &RxJsonRpcMessage<R>) -> (m: Meta)
    ensures
        match message_extensions::<R>(*message) {
            Some(e) => m.entries@ == e.meta.entries@,
            None => m.entries@.len() == 0,
        },
{
    match message {
        JsonRpcMessage::Request(req) => req.request.extensions().meta.duplicate(),
        JsonRpcMessage::Notification(not) => not.notification.extensions().meta.duplicate(),
        JsonRpcMessage::Response(_) => Meta::new(),
        JsonRpcMessage::Error(_) => Meta::new(),
    }
}

/// A copy of the extensions of a message; empty for responses and errors.
pub fn extract_message_extensions<R: ServiceRole>(message: &RxJsonRpcMessage<R>) -> (x: Extensions)
    ensures
        match message_extensions::<R>(*message) {
            Some(e) => x.same(e),
            None => x.is_empty(),
        },
{
    match message {
        JsonRpcMessage::Request(req) => req.request.extensions().duplicate(),
        JsonRpcMessage::Notification(not) => not.notification.extensions().duplicate(),
        JsonRpcMessage::Response(_) => Extensions::new(),
        JsonRpcMessage::Error(_) => Extensions::new(),
    }
}

/// The request identifier of a message: that of a request, or of the request a
/// response or error answers; none for a notification.
pub fn get_message_request_id<R: ServiceRole>(message: &RxJsonRpcMessage<R>) -> (id: Option<RequestId>)
    ensures
        id == message_request_id(*message),
{
    match message {
        JsonRpcMessage::Request(req) => Some(req.id.duplicate()),
        JsonRpcMessage::Response(res) => Some(res.id.duplicate()),
        JsonRpcMessage::Error(err) => Some(err.id.duplicate()),
        JsonRpcMessage::Notification(_) => None,
    }
}

/// The raw message middleware of a service, if it has any: `None` for an
/// empty list, the whole list otherwise.
pub fn present_middleware<T>(middleware: &[T]) -> (r: Option<&[T]>)
    ensures
        middleware@.len() == 0 ==> r is None,
        middleware@.len() > 0 ==> r == Some(middleware),
{
    if middleware.len() == 0 {
        None
    } else {
        Some(middleware)
    }
}

} // verus!
