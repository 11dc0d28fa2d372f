//! Adapters between handler services and tower-style MCP services.
//!
//! - [`ServiceAdapter`] lets a tower-style service answer as a handler: it turns
//!   what the tower-style service gives for a message into the handler's result.
//! - [`TowerServiceAdapter`] lets a handler act as a tower-style service: it turns
//!   what the handler returns into the tower-style output.

use std::sync::Arc;

use vstd::prelude::*;

use crate::model::{ErrorData, RequestId, INTERNAL_ERROR};
use crate::service::message::McpOutput;
use crate::service::role::ServiceRole;

verus! {

/// An asynchronous lock (`tokio::sync::Mutex`), carried through as an opaque value.
#[verifier::external_type_specification]
#[verifier::external_body]
#[verifier::reject_recursive_types(T)]
pub struct ExTokioMutex<T: ?Sized>(tokio::sync::Mutex<T>);

/// Puts a value behind an asynchronous lock (`tokio::sync::Mutex::new`).
/// The lock is opaque to Verus, so nothing is stated of it.
#[verifier::external_body]
pub(crate) fn new_async_lock<T>(value: T) -> tokio::sync::Mutex<T> {
    tokio::sync::Mutex::new(value)
}

/// The message of the error for an answer whose identifier is not the request's.
pub open spec fn id_mismatch_message(request_id: RequestId, response_id: RequestId) -> Seq<char> {
    "Request ID mismatch: "@ + request_id.display_text() + " != "@ + response_id.display_text()
}

/// The message of the error for an acknowledgment given to a request.
pub open spec fn ack_for_request_message() -> Seq<char> {
    "Received Ack for a request"@
}

/// The message of the error for a response given to a notification.
pub open spec fn response_for_notification_message() -> Seq<char> {
    "Received Response for a notification"@
}

/// Whether `e` is an internal error whose message is `message`, without data.
pub open spec fn is_internal_error(e: ErrorData, message: Seq<char>) -> bool {
    e.code == INTERNAL_ERROR && e.message@ == message && e.data is None
}

/// What a handler answers for a request, given what the tower-style service gave
/// for it: `outcome` is the service's output, or the text of its error.
pub open spec fn request_result_spec<R: ServiceRole>(
    id: RequestId,
    outcome: Result<McpOutput<R>, String>,
    result: Result<R::Resp, ErrorData>,
) -> bool {
    match outcome {
        Err(text) => result matches Err(e) && is_internal_error(e, text@),
        Ok(McpOutput::Response { id: response_id, result: answer }) =>
            if id.value() == response_id.value() {
                result == answer
            } else {
                result matches Err(e) && is_internal_error(e, id_mismatch_message(id, response_id))
            },
        Ok(McpOutput::Ack) => result matches Err(e) && is_internal_error(e, ack_for_request_message()),
    }
}

/// What a handler answers for a notification, given what the tower-style service
/// gave for it.
pub open spec fn notification_result_spec<R: ServiceRole>(
    outcome: Result<McpOutput<R>, String>,
    result: Result<(), ErrorData>,
) -> bool {
    match outcome {
        Err(text) => result matches Err(e) && is_internal_error(e, text@),
        Ok(McpOutput::Ack) => result is Ok,
        Ok(McpOutput::Response { .. }) =>
            result matches Err(e) && is_internal_error(e, response_for_notification_message()),
    }
}

/// Lets a tower-style MCP service answer as a handler.
///
/// The tower-style service sits behind an asynchronous lock, since a call needs
/// it mutably while the handler is shared.
#[verifier::reject_recursive_types(S)]
#[verifier::reject_recursive_types(R)]
pub struct ServiceAdapter<S, R: ServiceRole> {
    inner: Arc<tokio::sync::Mutex<S>>,
    info: R::Info,
}

impl<S, R: ServiceRole> Clone for ServiceAdapter<S, R> {
    fn clone(&self) -> (r: Self)
        ensures
            r.lock_of() == self.lock_of(),
            R::same_info(r.info_of(), self.info_of()),
    {
        ServiceAdapter { inner: self.inner.clone(), info: R::copy_info(&self.info) }
    }
}

impl<S, R: ServiceRole> ServiceAdapter<S, R> {
    /// What the handler announces.
    pub closed spec fn info_of(&self) -> R::Info {
        self.info
    }

    /// An adapter that answers with `service` and announces `info`.
    pub fn new(service: S, info: R::Info) -> (a: Self)
        ensures
            a.info_of() == info,
    {
        ServiceAdapter { inner: Arc::new(new_async_lock(service)), info }
    }

    /// The lock that holds the tower-style service.
    pub closed spec fn lock_of(&self) -> Arc<tokio::sync::Mutex<S>> {
        self.inner
    }

    /// The lock that holds the tower-style service.
    pub fn inner_lock(&self) -> (l: &Arc<tokio::sync::Mutex<S>>)
        ensures
            *l == self.lock_of(),
    {
        &self.inner
    }

    /// Takes the adapter apart into the lock that holds the service and the announcement.
    pub fn into_parts(self) -> (r: (Arc<tokio::sync::Mutex<S>>, R::Info))
        ensures
            r.0 == self.lock_of(),
            r.1 == self.info_of(),
    {
        (self.inner, self.info)
    }

    /// What the handler announces.
    pub fn get_info(&self) -> (i: R::Info)
        ensures
            R::same_info(i, self.info_of()),
    {
        R::copy_info(&self.info)
    }

    /// The handler's answer to the request `id`, given `outcome`: the tower-style
    /// service's output for it, or the text of the service's error.
    pub fn request_result(id: &RequestId, outcome: Result<McpOutput<R>, String>) -> (r: Result<R::Resp, ErrorData>)
        ensures
            request_result_spec(*id, outcome, r),
    {
        match outcome {
            Err(text) => Err(ErrorData::internal_error(text.as_str(), None)),
            Ok(McpOutput::Response { id: response_id, result }) => {
                if !id.same_as(&response_id) {
                    let mut message = String::from_str("Request ID mismatch: ");
                    let left = id.to_display_string();
                    let right = response_id.to_display_string();
                    message.append(left.as_str());
                    message.append(" != ");
                    message.append(right.as_str());
                    proof {
                        reveal_strlit("Request ID mismatch: ");
                        reveal_strlit(" != ");
                    }
                    Err(ErrorData::internal_error(message.as_str(), None))
                } else {
                    result
                }
            },
            Ok(McpOutput::Ack) => {
                proof { reveal_strlit("Received Ack for a request"); }
                Err(ErrorData::internal_error("Received Ack for a request", None))
            },
        }
    }

    /// The handler's answer to a notification, given `outcome`: the tower-style
    /// service's output for it, or the text of the service's error.
    pub fn notification_result(outcome: Result<McpOutput<R>, String>) -> (r: Result<(), ErrorData>)
        ensures
            notification_result_spec(outcome, r),
    {
        match outcome {
            Err(text) => Err(ErrorData::internal_error(text.as_str(), None)),
            Ok(McpOutput::Ack) => Ok(()),
            Ok(McpOutput::Response { .. }) => {
                proof { reveal_strlit("Received Response for a notification"); }
                Err(ErrorData::internal_error("Received Response for a notification", None))
            },
        }
    }
}

/// Lets `service`, a tower-style MCP service, answer as a handler announcing `info`.
pub fn adapt_tower_service<S, R: ServiceRole>(service: S, info: R::Info) -> (a: ServiceAdapter<S, R>)
    ensures
        a.info_of() == info,
{
    ServiceAdapter::new(service, info)
}

/// Lets a handler act as a tower-style MCP service.
#[derive(Clone, Debug)]
pub struct TowerServiceAdapter<S> {
    inner: S,
}

impl<S> TowerServiceAdapter<S> {
    /// The wrapped handler.
    pub closed spec fn handler(&self) -> S {
        self.inner
    }

    /// An adapter around `service`.
    pub fn new(service: S) -> (a: Self)
        ensures
            a.handler() == service,
    {
        TowerServiceAdapter { inner: service }
    }

    /// The wrapped handler.
    pub fn inner(&self) -> (s: &S)
        ensures
            *s == self.handler(),
    {
        &self.inner
    }

    /// The wrapped handler, mutably.
    pub fn inner_mut(&mut self) -> (s: &mut S)
        ensures
            *s == old(self).handler(),
            final(self).handler() == *final(s),
    {
        &mut self.inner
    }

    /// Gives back the wrapped handler.
    pub fn into_inner(self) -> (s: S)
        ensures
            s == self.handler(),
    {
        self.inner
    }

    /// The output for a request `id`, given what the handler returned for it.
    pub fn request_output<R: ServiceRole>(id: RequestId, result: Result<R::Resp, ErrorData>) -> (o: McpOutput<R>)
        ensures
            o == (McpOutput::<R>::Response { id, result }),
    {
        McpOutput::Response { id, result }
    }

    /// The output for a notification, whatever the handler returned for it.
    pub fn notification_output<R: ServiceRole>(handled: Result<(), ErrorData>) -> (o: McpOutput<R>)
        ensures
            o is Ack,
    {
        McpOutput::Ack
    }
}

/// Adapting a handler into a tower-style service and back gives the handler's
/// own answer to a request: the tower-style output carries the request's
/// identifier, so the answer passes through unchanged.
pub proof fn adapters_round_trip_request<R: ServiceRole>(
    id: RequestId,
    handler_result: Result<R::Resp, ErrorData>,
    answer: Result<R::Resp, ErrorData>,
)
    requires
        request_result_spec(id, Ok(McpOutput::<R>::Response { id, result: handler_result }), answer),
    ensures
        answer == handler_result,
{
}

/// Adapting a handler into a tower-style service and back accepts every
/// notification, whatever the handler returned for it.
pub proof fn adapters_round_trip_notification<R: ServiceRole>(answer: Result<(), ErrorData>)
    requires
        notification_result_spec(Ok(McpOutput::<R>::Ack), answer),
    ensures
        answer is Ok,
{
}

/// A request that a tower-style service answers with a response for another
/// request, or with an acknowledgment, fails with an internal error.
pub proof fn misanswered_request_fails<R: ServiceRole>(
    id: RequestId,
    outcome: McpOutput<R>,
    answer: Result<R::Resp, ErrorData>,
)
    requires
        request_result_spec(id, Ok(outcome), answer),
        match outcome {
            McpOutput::Response { id: response_id, .. } => response_id.value() != id.value(),
            McpOutput::Ack => true,
        },
    ensures
        answer matches Err(e) && e.code == INTERNAL_ERROR,
{
}

/// A marker for types that check, at compile time, that a service adapter is a
/// handler in some generic setting.
pub trait EnsureServiceAdapter<R: ServiceRole> {
    fn ensure_service_impl();
}

/// Turning a handler into a tower-style MCP service.
pub trait IntoTowerService<R: ServiceRole>: Sized {
    /// An adapter that lets `self` act as a tower-style service.
    fn into_tower_service(self) -> (a: TowerServiceAdapter<Self>)
        ensures
            a.handler() == self,
    {
        TowerServiceAdapter::new(self)
    }
}

impl<S, R: ServiceRole> IntoTowerService<R> for S {
}

} // verus!
