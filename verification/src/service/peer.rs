//! The handle through which a service talks to its peer.

use std::sync::atomic::{AtomicU32, Ordering};
use std::sync::Arc;

use vstd::prelude::*;

use crate::model::RequestId;
use crate::service::role::{ServiceError, ServiceRole};

verus! {

/// The sending end of a bounded channel (`tokio::sync::mpsc::Sender`), carried
/// through as an opaque value.
#[verifier::external_type_specification]
#[verifier::external_body]
#[verifier::reject_recursive_types(T)]
pub struct ExMpscSender<T>(tokio::sync::mpsc::Sender<T>);

/// The receiving end of a bounded channel (`tokio::sync::mpsc::Receiver`),
/// carried through as an opaque value.
#[verifier::external_type_specification]
#[verifier::external_body]
#[verifier::reject_recursive_types(T)]
pub struct ExMpscReceiver<T>(tokio::sync::mpsc::Receiver<T>);

/// The sending end of a one-shot channel (`tokio::sync::oneshot::Sender`),
/// carried through as an opaque value.
#[verifier::external_type_specification]
#[verifier::external_body]
#[verifier::reject_recursive_types(T)]
pub struct ExOneshotSender<T>(tokio::sync::oneshot::Sender<T>);

/// `tokio::sync::mpsc::Sender::clone`: another handle to the same channel.
/// The handle's only field is a reference-counted pointer to the channel, and
/// the clone holds a clone of that pointer (after counting one more sender in
/// the shared channel), so the clone is the same value as the original.
pub assume_specification<T>[ <tokio::sync::mpsc::Sender<T> as Clone>::clone ](tx: &tokio::sync::mpsc::Sender<T>) -> (r: tokio::sync::mpsc::Sender<T>)
    ensures
        r == *tx,
;

/// Creates a bounded channel (`tokio::sync::mpsc::channel`). Nothing is
/// stated of the two ends: they are handles of a fresh channel. The call
/// panics on an empty buffer, and on one above the permits a tokio semaphore
/// can hold (`usize::MAX >> 3`), so those are left out.
#[verifier::external_body]
fn bounded_channel<T>(buffer: usize) -> (r: (tokio::sync::mpsc::Sender<T>, tokio::sync::mpsc::Receiver<T>))
    requires
        0 < buffer <= usize::MAX / 8,
{
    tokio::sync::mpsc::channel(buffer)
}

/// Whether the receiving end of the channel is gone
/// (`tokio::sync::mpsc::Sender::is_closed`). The answer depends on the other
/// end of the channel, so nothing is stated of it.
#[verifier::external_body]
fn sender_is_closed<T>(tx: &tokio::sync::mpsc::Sender<T>) -> (b: bool) {
    tx.is_closed()
}

/// A message that the peer handle hands to the service loop.
#[derive(Debug)]
pub enum PeerSinkMessage<R: ServiceRole> {
    /// Send a request, and answer the responder with its outcome.
    Request {
        request: R::Req,
        id: RequestId,
        responder: tokio::sync::oneshot::Sender<Result<R::PeerResp, ServiceError>>,
    },
    /// Send a notification, and answer the responder once it is sent.
    Notification {
        notification: R::Not,
        responder: tokio::sync::oneshot::Sender<Result<(), ServiceError>>,
    },
}

/// How many messages the peer handle may queue for the service loop.
pub const PEER_SINK_BUFFER_SIZE: usize = 1024;

/// A handle to the other side of a connection.
#[derive(Debug)]
#[verifier::reject_recursive_types(R)]
pub struct Peer<R: ServiceRole> {
    tx: tokio::sync::mpsc::Sender<PeerSinkMessage<R>>,
    request_id_provider: Arc<AtomicU32>,
    info: Arc<Option<R::PeerInfo>>,
}

impl<R: ServiceRole> Clone for Peer<R> {
    fn clone(&self) -> (p: Self)
        ensures
            p.info_of() == self.info_of(),
            p.sink_of() == self.sink_of(),
    {
        Peer {
            tx: self.tx.clone(),
            request_id_provider: self.request_id_provider.clone(),
            info: self.info.clone(),
        }
    }
}

impl<R: ServiceRole> Peer<R> {
    /// What the other side announced about itself.
    pub closed spec fn info_of(&self) -> Option<R::PeerInfo> {
        *self.info
    }

    /// A handle for a peer that announced `peer_info`, with request identifiers
    /// drawn from `request_id_provider`, and the receiving end of its message queue.
    pub fn new(request_id_provider: Arc<AtomicU32>, peer_info: Option<R::PeerInfo>) -> (r: (
        Peer<R>,
        tokio::sync::mpsc::Receiver<PeerSinkMessage<R>>,
    ))
        ensures
            r.0.info_of() == peer_info,
    {
        let (tx, rx) = bounded_channel(PEER_SINK_BUFFER_SIZE);
        (Peer { tx, request_id_provider, info: Arc::new(peer_info) }, rx)
    }

    /// What the other side announced about itself.
    pub fn peer_info(&self) -> (i: Option<&R::PeerInfo>)
        ensures
            match self.info_of() {
                Some(info) => i == Some(&info),
                None => i is None,
            },
    {
        let info: &Option<R::PeerInfo> = &self.info;
        info.as_ref()
    }

    /// Whether the service loop no longer takes messages from this handle.
    pub fn is_transport_closed(&self) -> bool {
        sender_is_closed(&self.tx)
    }

    /// A fresh request identifier.
    pub fn next_request_id(&self) -> (id: RequestId)
        ensures
            id matches RequestId::Number(n) && 0 <= n <= u32::MAX,
    {
        let n: u32 = self.request_id_provider.fetch_add(1u32, Ordering::Relaxed);
        RequestId::from_counter(n)
    }

    /// The sending end of the handle's message queue.
    pub closed spec fn sink_of(&self) -> tokio::sync::mpsc::Sender<PeerSinkMessage<R>> {
        self.tx
    }

    /// The sending end of the message queue to the service loop.
    pub fn sink(&self) -> (s: &tokio::sync::mpsc::Sender<PeerSinkMessage<R>>)
        ensures
            *s == self.sink_of(),
    {
        &self.tx
    }
}

/// A clone of a peer handle talks to the same peer: it feeds the same message
/// queue to the service loop, and knows the same announcement.
pub proof fn cloned_peer_shares_the_queue<R: ServiceRole>(p: Peer<R>, c: Peer<R>)
    requires
        cloned(p, c),
    ensures
        c.sink_of() == p.sink_of(),
        c.info_of() == p.info_of(),
{
}

} // verus!
