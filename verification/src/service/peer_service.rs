//! Tower-style middleware for the requests a service sends to its peer.

use vstd::prelude::*;

use crate::service::peer::Peer;
use crate::service::role::{PeerRequestOptions, ServiceError, ServiceRole};

verus! {

/// A request to the peer together with its options.
#[derive(Debug, Clone)]
#[verifier::reject_recursive_types(R)]
pub struct PeerRequest<R: ServiceRole> {
    /// The request to send.
    pub request: R::Req,
    /// Its timeout and meta object.
    pub options: PeerRequestOptions,
}

impl<R: ServiceRole> PeerRequest<R> {
    /// A request with default options: no timeout and no meta object.
    pub fn new(request: R::Req) -> (r: Self)
        ensures
            r.request == request,
            r.options.timeout is None,
            r.options.meta is None,
    {
        PeerRequest { request, options: PeerRequestOptions::default() }
    }

    /// A request with the given options.
    pub fn with_options(request: R::Req, options: PeerRequestOptions) -> (r: Self)
        ensures
            r.request == request,
            r.options == options,
    {
        PeerRequest { request, options }
    }
}

/// Whether a peer service takes a request, given whether its transport is closed.
pub open spec fn readiness_spec(transport_closed: bool) -> Result<(), ServiceError> {
    if transport_closed {
        Err(ServiceError::TransportClosed)
    } else {
        Ok(())
    }
}

/// A tower-style service that sends each request to the peer.
#[derive(Debug)]
#[verifier::reject_recursive_types(R)]
pub struct PeerService<R: ServiceRole> {
    peer: Peer<R>,
}

impl<R: ServiceRole> Clone for PeerService<R> {
    /// Another service sending to a handle of the same peer.
    fn clone(&self) -> (s: Self)
        ensures
            s.peer_of().info_of() == self.peer_of().info_of(),
            s.peer_of().sink_of() == self.peer_of().sink_of(),
    {
        PeerService { peer: self.peer.clone() }
    }
}

impl<R: ServiceRole> PeerService<R> {
    /// The peer requests go to.
    pub closed spec fn peer_of(&self) -> Peer<R> {
        self.peer
    }

    /// A service that sends requests to `peer`.
    pub fn new(peer: Peer<R>) -> (s: Self)
        ensures
            s.peer_of() == peer,
    {
        PeerService { peer }
    }

    /// The peer requests go to.
    pub fn peer(&self) -> (p: &Peer<R>)
        ensures
            *p == self.peer_of(),
    {
        &self.peer
    }

    /// Whether the service takes a request, given whether the peer's transport is closed.
    pub fn readiness(transport_closed: bool) -> (r: Result<(), ServiceError>)
        ensures
            r == readiness_spec(transport_closed),
    {
        if transport_closed {
            Err(ServiceError::TransportClosed)
        } else {
            Ok(())
        }
    }

    /// Whether the service takes a request now: it does unless the peer's transport is closed.
    pub fn poll_ready(&self) -> (r: Result<(), ServiceError>)
        ensures
            r == readiness_spec(false) || r == readiness_spec(true),
    {
        let closed = self.peer.is_transport_closed();
        PeerService::<R>::readiness(closed)
    }
}

/// Builds a peer with middleware for its outgoing requests.
#[verifier::reject_recursive_types(R)]
pub struct PeerBuilder<R: ServiceRole> {
    peer: Peer<R>,
}

impl<R: ServiceRole> PeerBuilder<R> {
    /// The peer the builder wraps.
    pub closed spec fn peer_of(&self) -> Peer<R> {
        self.peer
    }

    /// A builder for `peer`.
    pub fn new(peer: Peer<R>) -> (b: Self)
        ensures
            b.peer_of() == peer,
    {
        PeerBuilder { peer }
    }

    /// The peer with `service` as the middleware its requests pass through.
    pub fn with_middleware<S>(self, service: S) -> (l: LayeredPeer<S, R>)
        ensures
            l.service_of() == service,
            l.peer_of() == self.peer_of(),
    {
        LayeredPeer { service, peer: self.peer }
    }

    /// The peer with the middleware that `f` builds around a peer service for it.
    pub fn with_layer<F, S>(self, f: F) -> (l: LayeredPeer<S, R>)
        where
            F: FnOnce(PeerService<R>) -> S,
        requires
            forall|s: PeerService<R>| call_requires(f, (s,)),
        ensures
            exists|s: PeerService<R>| s.peer_of().info_of() == self.peer_of().info_of() && call_ensures(f, (s,), l.service_of()),
            l.peer_of() == self.peer_of(),
    {
        let peer_service = PeerService::new(self.peer.clone());
        let service = f(peer_service);
        LayeredPeer { service, peer: self.peer }
    }
}

/// A peer whose outgoing requests pass through middleware; notifications and
/// other operations go to the peer directly.
#[verifier::reject_recursive_types(R)]
pub struct LayeredPeer<S, R: ServiceRole> {
    service: S,
    peer: Peer<R>,
}

impl<S: Clone, R: ServiceRole> Clone for LayeredPeer<S, R> {
    /// Another layered peer: a clone of the middleware in front of a handle
    /// of the same peer.
    fn clone(&self) -> (r: Self)
        ensures
            r.peer_of().info_of() == self.peer_of().info_of(),
            r.peer_of().sink_of() == self.peer_of().sink_of(),
            cloned::<S>(self.service_of(), r.service_of()),
    {
        LayeredPeer { service: self.service.clone(), peer: self.peer.clone() }
    }
}

impl<S, R: ServiceRole> LayeredPeer<S, R> {
    /// The middleware requests pass through.
    pub closed spec fn service_of(&self) -> S {
        self.service
    }

    /// The peer underneath.
    pub closed spec fn peer_of(&self) -> Peer<R> {
        self.peer
    }

    /// The peer underneath, for operations that bypass the middleware.
    pub fn peer(&self) -> (p: &Peer<R>)
        ensures
            *p == self.peer_of(),
    {
        &self.peer
    }

    /// The middleware, mutably.
    pub fn service_mut(&mut self) -> (s: &mut S)
        ensures
            *s == old(self).service_of(),
            final(self).service_of() == *final(s),
            final(self).peer_of() == old(self).peer_of(),
    {
        &mut self.service
    }

    /// The middleware.
    pub fn service(&self) -> (s: &S)
        ensures
            *s == self.service_of(),
    {
        &self.service
    }

    /// A request with the given options, as the middleware receives it.
    pub fn make_request(request: R::Req, options: PeerRequestOptions) -> (r: PeerRequest<R>)
        ensures
            r.request == request,
            r.options == options,
    {
        PeerRequest::with_options(request, options)
    }
}

/// Starts a middleware builder from a peer.
pub trait PeerExt<R: ServiceRole>: Sized {
    /// A builder for adding middleware to this peer.
    fn builder(self) -> PeerBuilder<R>;
}

impl<R: ServiceRole> PeerExt<R> for Peer<R> {
    fn builder(self) -> (b: PeerBuilder<R>)
        ensures
            b.peer_of() == self,
    {
        PeerBuilder::new(self)
    }
}

} // verus!
