//! The messages that tower-style MCP services take and give.

use vstd::prelude::*;

use crate::model::{ErrorData, Extensions, Meta, RequestId};
use crate::service::peer::Peer;
use crate::service::role::ServiceRole;

verus! {

/// A cancellation token (`tokio_util::sync::CancellationToken`), carried
/// through as an opaque value.
#[verifier::external_type_specification]
#[verifier::external_body]
pub struct ExCancellationToken(tokio_util::sync::CancellationToken);

/// `CancellationToken::clone`: another handle to the same token. Nothing is
/// stated of the handle, which Verus sees as opaque.
pub assume_specification[ <tokio_util::sync::CancellationToken as Clone>::clone ](ct: &tokio_util::sync::CancellationToken) -> tokio_util::sync::CancellationToken;

/// What a handler knows about the request it handles.
#[derive(Debug, Clone)]
#[verifier::reject_recursive_types(R)]
pub struct RequestContext<R: ServiceRole> {
    /// Cancelled when the request is cancelled or answered.
    pub ct: tokio_util::sync::CancellationToken,
    /// The identifier of the request.
    pub id: RequestId,
    /// The request's meta object.
    pub meta: Meta,
    /// The request's extensions.
    pub extensions: Extensions,
    /// The peer that sent the request.
    pub peer: Peer<R>,
}

/// What a handler knows about the notification it handles.
#[derive(Debug, Clone)]
#[verifier::reject_recursive_types(R)]
pub struct NotificationContext<R: ServiceRole> {
    /// The notification's meta object.
    pub meta: Meta,
    /// The notification's extensions.
    pub extensions: Extensions,
    /// The peer that sent the notification.
    pub peer: Peer<R>,
}

/// The input of a tower-style MCP service: a request or a notification.
#[derive(Debug, Clone)]
#[verifier::reject_recursive_types(R)]
pub enum McpMessage<R: ServiceRole> {
    /// A request expecting a response.
    Request { id: RequestId, request: R::PeerReq, context: RequestContext<R> },
    /// A notification; no response is expected.
    Notification { notification: R::PeerNot, context: NotificationContext<R> },
}

/// The output of a tower-style MCP service.
#[derive(Debug)]
#[verifier::reject_recursive_types(R)]
pub enum McpOutput<R: ServiceRole> {
    /// The answer to a request.
    Response { id: RequestId, result: Result<R::Resp, ErrorData> },
    /// The acknowledgment of a notification.
    Ack,
}

} // verus!
