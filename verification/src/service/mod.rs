//! Services, roles, peers and the tower-style adapters between them.

pub mod id_set;
pub mod message;
pub mod peer;
pub mod peer_service;
pub mod raw_message_service;
pub mod role;
pub mod tower;
pub mod tower_adapter;
pub mod tower_serve;

pub use id_set::IdSet;
pub use message::{McpMessage, McpOutput, NotificationContext, RequestContext};
pub use peer::{Peer, PeerSinkMessage};
pub use peer_service::{LayeredPeer, PeerBuilder, PeerExt, PeerRequest, PeerService};
pub use raw_message_service::{
    extract_message_extensions, extract_message_meta, get_message_request_id, present_middleware, PassthroughService,
    RawMessageContext, RawMessageResponse, RawMessageService, RawMessageTowerService,
};
pub use role::{
    PeerRequestOptions, QuitReason, RoleClient, RoleServer, RxJsonRpcMessage, ServiceError,
    ServiceRole, TransportError, TxJsonRpcMessage,
};
pub use tower::{McpNotification, McpRequest, NotificationHandler, NotificationTowerService, TowerHandler, TowerServiceHandler};
pub use tower_adapter::{adapt_tower_service, EnsureServiceAdapter, IntoTowerService, ServiceAdapter, TowerServiceAdapter};
pub use tower_serve::{reply_for_request, LoopAction, LoopEvent, ServeLoop, TowerServiceWrapper};
