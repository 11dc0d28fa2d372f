//! Handlers built from tower-style services that take typed requests.

use std::marker::PhantomData;

use vstd::prelude::*;

use crate::model::ErrorData;
use crate::service::message::{NotificationContext, RequestContext};
use crate::service::role::ServiceRole;

verus! {

/// A request together with its context, as middleware receives it.
#[derive(Debug, Clone)]
#[verifier::reject_recursive_types(R)]
pub struct McpRequest<R: ServiceRole> {
    /// The request.
    pub request: R::PeerReq,
    /// Its identifier, meta object, extensions, peer and cancellation token.
    pub context: RequestContext<R>,
}

/// A notification together with its context, as middleware receives it.
#[derive(Debug, Clone)]
#[verifier::reject_recursive_types(R)]
pub struct McpNotification<R: ServiceRole> {
    /// The notification.
    pub notification: R::PeerNot,
    /// Its meta object, extensions and peer.
    pub context: NotificationContext<R>,
}

/// A handler that hands each request, without its context, to a tower-style
/// service and accepts every notification.
///
/// Superseded by [`TowerServiceHandler`], which hands the context on too.
#[verifier::reject_recursive_types(R)]
pub struct TowerHandler<S, R: ServiceRole> {
    pub service: S,
    pub info: R::Info,
    role: PhantomData<R>,
}

impl<S, R: ServiceRole> TowerHandler<S, R> {
    /// The tower-style service that answers requests.
    pub closed spec fn service_of(&self) -> S {
        self.service
    }

    /// What the handler announces.
    pub closed spec fn info_of(&self) -> R::Info {
        self.info
    }

    /// A handler that answers with `service` and announces `info`.
    pub fn new(service: S, info: R::Info) -> (h: Self)
        ensures
            h.service_of() == service,
            h.info_of() == info,
    {
        TowerHandler { service, info, role: PhantomData }
    }

    /// What the handler announces.
    pub fn get_info(&self) -> (i: R::Info)
        ensures
            R::same_info(i, self.info_of()),
    {
        R::copy_info(&self.info)
    }

    /// The handler's answer to any notification: accepted.
    pub fn handle_notification(&self, notification: R::PeerNot, context: NotificationContext<R>) -> (r: Result<(), ErrorData>)
        ensures
            r is Ok,
    {
        Ok(())
    }
}

/// A handler that hands each request, with its context, to a tower-style
/// service and accepts every notification.
#[verifier::reject_recursive_types(R)]
pub struct TowerServiceHandler<S, R: ServiceRole> {
    service: S,
    info: R::Info,
    _phantom: PhantomData<R>,
}

impl<S, R: ServiceRole> TowerServiceHandler<S, R> {
    /// The tower-style service that answers requests.
    pub closed spec fn service_of(&self) -> S {
        self.service
    }

    /// What the handler announces.
    pub closed spec fn info_of(&self) -> R::Info {
        self.info
    }

    /// A handler that answers with `service` and announces `info`.
    pub fn new(service: S, info: R::Info) -> (h: Self)
        ensures
            h.service_of() == service,
            h.info_of() == info,
    {
        TowerServiceHandler { service, info, _phantom: PhantomData }
    }

    /// The tower-style service that answers requests.
    pub fn service(&self) -> (s: &S)
        ensures
            *s == self.service_of(),
    {
        &self.service
    }

    /// What the handler announces.
    pub fn get_info(&self) -> (i: R::Info)
        ensures
            R::same_info(i, self.info_of()),
    {
        R::copy_info(&self.info)
    }

    /// What the tower-style service receives for a request.
    pub fn make_request(request: R::PeerReq, context: RequestContext<R>) -> (m: McpRequest<R>)
        ensures
            m.request == request,
            m.context == context,
    {
        McpRequest { request, context }
    }

    /// The handler's answer to any notification: accepted.
    pub fn handle_notification(&self, notification: R::PeerNot, context: NotificationContext<R>) -> (r: Result<(), ErrorData>)
        ensures
            r is Ok,
    {
        Ok(())
    }
}

/// A handler for notifications with their context.
pub trait NotificationHandler<R: ServiceRole>: Send + Sync {
    fn handle_notification(&self, notification: R::PeerNot, context: NotificationContext<R>) -> Result<(), ErrorData>;
}

/// A notification handler built from a tower-style service that takes
/// notifications with their context.
#[verifier::reject_recursive_types(R)]
pub struct NotificationTowerService<S, R: ServiceRole> {
    service: S,
    _phantom: PhantomData<R>,
}

impl<S, R: ServiceRole> NotificationTowerService<S, R> {
    /// The tower-style service that handles notifications.
    pub closed spec fn service_of(&self) -> S {
        self.service
    }

    /// A handler that hands notifications to `service`.
    pub fn new(service: S) -> (h: Self)
        ensures
            h.service_of() == service,
    {
        NotificationTowerService { service, _phantom: PhantomData }
    }

    /// The tower-style service that handles notifications.
    pub fn service(&self) -> (s: &S)
        ensures
            *s == self.service_of(),
    {
        &self.service
    }

    /// What the tower-style service receives for a notification.
    pub fn make_notification(notification: R::PeerNot, context: NotificationContext<R>) -> (m: McpNotification<R>)
        ensures
            m.notification == notification,
            m.context == context,
    {
        McpNotification { notification, context }
    }
}

} // verus!
