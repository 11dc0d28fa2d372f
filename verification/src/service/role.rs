//! The two roles of an MCP connection and the errors a service reports.

use vstd::prelude::*;

use crate::model::{
    ClientInfo, ClientNotification, ClientRequest, ClientResult, ErrorData, GetExtensions,
    ServerInfo, ServerNotification, ServerRequest, ServerResult,
};

verus! {

/// One side of an MCP connection, with the message types it sends and receives.
pub trait ServiceRole: Sized {
    /// Requests this side sends.
    type Req: Clone + std::fmt::Debug;
    /// Results this side answers with.
    type Resp: Clone + std::fmt::Debug;
    /// Notifications this side sends.
    type Not: Clone + std::fmt::Debug;
    /// Requests the other side sends.
    type PeerReq: GetExtensions + Clone + std::fmt::Debug;
    /// Results the other side answers with.
    type PeerResp: Clone + std::fmt::Debug;
    /// Notifications the other side sends.
    type PeerNot: GetExtensions + Clone + std::fmt::Debug;
    /// What this side announces about itself.
    type Info: Clone + std::fmt::Debug;
    /// What the other side announces about itself.
    type PeerInfo: Clone + std::fmt::Debug;

    /// Whether two announcements of this side hold the same information.
    spec fn same_info(a: Self::Info, b: Self::Info) -> bool;

    /// A copy of an announcement of this side.
    fn copy_info(info: &Self::Info) -> (r: Self::Info)
        ensures
            Self::same_info(r, *info),
    ;
}

/// A message this side receives.
pub type RxJsonRpcMessage<R> = crate::model::JsonRpcMessage<
    <R as ServiceRole>::PeerReq,
    <R as ServiceRole>::PeerResp,
    <R as ServiceRole>::PeerNot,
>;

/// A message this side sends.
pub type TxJsonRpcMessage<R> = crate::model::JsonRpcMessage<
    <R as ServiceRole>::Req,
    <R as ServiceRole>::Resp,
    <R as ServiceRole>::Not,
>;

/// The client side of a connection.
#[derive(Debug, Clone, Copy, Default, PartialEq, Eq)]
pub struct RoleClient;

/// The server side of a connection.
#[derive(Debug, Clone, Copy, Default, PartialEq, Eq)]
pub struct RoleServer;

impl ServiceRole for RoleClient {
    type Req = ClientRequest;
    type Resp = ClientResult;
    type Not = ClientNotification;
    type PeerReq = ServerRequest;
    type PeerResp = ServerResult;
    type PeerNot = ServerNotification;
    type Info = ClientInfo;
    type PeerInfo = ServerInfo;

    open spec fn same_info(a: ClientInfo, b: ClientInfo) -> bool {
        a.same(b)
    }

    fn copy_info(info: &ClientInfo) -> (r: ClientInfo) {
        info.duplicate()
    }
}

impl ServiceRole for RoleServer {
    type Req = ServerRequest;
    type Resp = ServerResult;
    type Not = ServerNotification;
    type PeerReq = ClientRequest;
    type PeerResp = ClientResult;
    type PeerNot = ClientNotification;
    type Info = ServerInfo;
    type PeerInfo = ClientInfo;

    open spec fn same_info(a: ServerInfo, b: ServerInfo) -> bool {
        a == b
    }

    fn copy_info(info: &ServerInfo) -> (r: ServerInfo) {
        info.duplicate()
    }
}

/// A failure of a transport: which transport, and what it reported.
#[derive(Debug, Clone, PartialEq, Eq)]
pub struct TransportError {
    pub transport_name: String,
    pub message: String,
}

/// `Duration::clone`: a `Duration` is `Copy`, so its clone is the same value.
pub assume_specification[ <std::time::Duration as Clone>::clone ](d: &std::time::Duration) -> (r: std::time::Duration)
    ensures
        r == *d,
;

/// Why a request to the peer did not yield a result.
#[derive(Debug, Clone, PartialEq, Eq)]
pub enum ServiceError {
    /// The peer answered with an error.
    McpError(ErrorData),
    /// The request could not be sent.
    TransportSend(TransportError),
    /// The transport is closed.
    TransportClosed,
    /// The peer answered with a result of another kind than the request asks for.
    UnexpectedResponse,
    /// The request was cancelled.
    Cancelled { reason: Option<String> },
    /// No answer came in time.
    Timeout { timeout: std::time::Duration },
}

/// Why a service loop stopped.
#[derive(Debug, Clone, PartialEq, Eq)]
pub enum QuitReason {
    /// The task that ran the loop was cancelled.
    Cancelled,
    /// The peer closed its input.
    Closed,
    /// A send task could not be joined; the text is what the runtime reported.
    JoinError(String),
}

/// Options of a request to the peer: a timeout and a meta object.
#[derive(Debug, Clone)]
pub struct PeerRequestOptions {
    pub timeout: Option<std::time::Duration>,
    pub meta: Option<crate::model::Meta>,
}

impl PeerRequestOptions {
    /// Options without timeout and without meta object.
    pub fn no_options() -> (o: PeerRequestOptions)
        ensures
            o.timeout is None,
            o.meta is None,
    {
        PeerRequestOptions { timeout: None, meta: None }
    }
}

impl Default for PeerRequestOptions {
    fn default() -> (o: PeerRequestOptions)
        ensures
            o.timeout is None,
            o.meta is None,
    {
        PeerRequestOptions::no_options()
    }
}

} // verus!
