//! Tests of the peer handle and of the peer middleware builder.

use std::sync::atomic::AtomicU32;
use std::sync::Arc;

use rmcp::model::{ClientInfo, RequestId};
use rmcp::service::{PeerBuilder, PeerExt, PeerService, Peer, RoleServer, ServiceError};

#[test]
fn peer_handle_basics() {
    let (peer, rx) = Peer::<RoleServer>::new(Arc::new(AtomicU32::new(10)), Some(ClientInfo::default()));
    assert_eq!(peer.peer_info(), Some(&ClientInfo::default()));
    assert_eq!(peer.next_request_id(), RequestId::Number(10));
    assert_eq!(peer.next_request_id(), RequestId::Number(11));
    let copy = peer.clone();
    assert_eq!(copy.next_request_id(), RequestId::Number(12));
    assert!(!peer.is_transport_closed());
    drop(rx);
    assert!(peer.is_transport_closed());
    assert!(copy.is_transport_closed());
}

#[test]
fn peer_service_readiness() {
    assert_eq!(PeerService::<RoleServer>::readiness(false), Ok(()));
    assert_eq!(PeerService::<RoleServer>::readiness(true), Err(ServiceError::TransportClosed));
    let (peer, rx) = Peer::<RoleServer>::new(Arc::new(AtomicU32::new(0)), None);
    let service = PeerService::new(peer);
    assert_eq!(service.poll_ready(), Ok(()));
    assert!(service.peer().peer_info().is_none());
    drop(rx);
    assert_eq!(service.poll_ready(), Err(ServiceError::TransportClosed));
}

#[test]
fn peer_builder_wraps_middleware() {
    let (peer, _rx) = Peer::<RoleServer>::new(Arc::new(AtomicU32::new(0)), Some(ClientInfo::default()));
    let layered = PeerBuilder::new(peer.clone()).with_middleware(5u32);
    assert_eq!(*layered.service(), 5u32);
    assert_eq!(layered.peer().peer_info(), Some(&ClientInfo::default()));

    let mut layered = peer.builder().with_layer(|svc: PeerService<RoleServer>| (svc.peer().peer_info().is_some(), 1u8));
    assert_eq!(*layered.service(), (true, 1u8));
    layered.service_mut().1 = 2;
    assert_eq!(*layered.service(), (true, 2u8));
    let cloned = layered.clone();
    assert_eq!(*cloned.service(), (true, 2u8));
}

#[test]
fn cloned_peer_service_and_layered_peer_keep_the_peer() {
    let (peer, rx) = Peer::<RoleServer>::new(Arc::new(AtomicU32::new(0)), Some(ClientInfo::default()));
    let service = PeerService::new(peer.clone());
    let cloned = service.clone();
    assert_eq!(cloned.peer().peer_info(), Some(&ClientInfo::default()));
    let layered = peer.builder().with_middleware(7u8);
    let layered_copy = layered.clone();
    assert_eq!(layered_copy.peer().peer_info(), Some(&ClientInfo::default()));
    assert_eq!(*layered_copy.service(), 7u8);
    drop(rx);
    assert_eq!(cloned.poll_ready(), Err(ServiceError::TransportClosed));
}
