//! Scenarios of the server side of the handshake.

use rmcp::model::{
    ClientInfo, ClientJsonRpcMessage, ClientNotification, ClientRequest, Extensions, Implementation,
    InitializeRequest, InitializedNotification, JsonRpcMessage, PingRequest, RequestId,
    RootsListChangedNotification, ServerCapabilities, ServerInfo, ServerResult,
};
use rmcp::server::{HandshakeEvent, HandshakeStep, ServerInitializeError};
use rmcp::service::TransportError;
use rmcp::McpServer;

fn server_info() -> ServerInfo {
    let mut info = ServerInfo::default();
    info.server_info = Implementation { name: "calc".to_string(), version: "2.0".to_string() };
    info.instructions = Some("add numbers".to_string());
    info.capabilities = ServerCapabilities { logging: true, prompts: true, resources: true, tools: true };
    info
}

fn client_info() -> ClientInfo {
    let mut info = ClientInfo::default();
    info.client_info = Implementation { name: "tester".to_string(), version: "1.0".to_string() };
    info
}

fn initialize(id: i64) -> ClientJsonRpcMessage {
    JsonRpcMessage::request(
        ClientRequest::InitializeRequest(InitializeRequest { method: Default::default(), params: client_info(), extensions: Extensions::new() }),
        RequestId::Number(id),
    )
}

fn initialized() -> ClientJsonRpcMessage {
    JsonRpcMessage::notification(ClientNotification::InitializedNotification(InitializedNotification {
        method: Default::default(),
        extensions: Extensions::new(),
    }))
}

#[test]
fn handshake_succeeds_on_the_protocol_exchange() {
    let server = McpServer::new(server_info());
    let mut hs = server.handshake();
    assert!(hs.awaits_message());
    let step = hs.on_event(HandshakeEvent::Received(Some(initialize(1))));
    match step {
        HandshakeStep::Send(JsonRpcMessage::Response(resp)) => {
            assert_eq!(resp.id, RequestId::Number(1));
            match resp.result {
                ServerResult::InitializeResult(answer) => {
                    assert_eq!(answer.server_info, server_info().server_info);
                    assert_eq!(answer.instructions, Some("add numbers".to_string()));
                    assert_eq!(answer.protocol_version.version, "2025-03-26");
                    // Capabilities are not taken from the announcement.
                    assert_eq!(answer.capabilities, ServerCapabilities::default());
                },
                other => panic!("unexpected {:?}", other),
            }
        },
        other => panic!("unexpected {:?}", other),
    }
    assert!(hs.awaits_send());
    assert_eq!(hs.on_event(HandshakeEvent::Sent(Ok(()))), HandshakeStep::Receive);
    assert!(hs.awaits_message());
    assert_eq!(hs.on_event(HandshakeEvent::Received(Some(initialized()))), HandshakeStep::Done(Ok(Some(client_info()))));
    assert!(!hs.awaits_message());
    assert!(!hs.awaits_send());
}

#[test]
fn closed_before_initialize() {
    let mut hs = McpServer::new(server_info()).handshake();
    assert_eq!(
        hs.on_event(HandshakeEvent::Received(None)),
        HandshakeStep::Done(Err(ServerInitializeError::ConnectionClosed("initialize request".to_string())))
    );
}

#[test]
fn first_message_must_be_initialize() {
    let mut hs = McpServer::new(server_info()).handshake();
    let ping: ClientJsonRpcMessage = JsonRpcMessage::request(
        ClientRequest::PingRequest(PingRequest { method: Default::default(), extensions: Extensions::new() }),
        RequestId::Number(1),
    );
    assert_eq!(
        hs.on_event(HandshakeEvent::Received(Some(ping.clone()))),
        HandshakeStep::Done(Err(ServerInitializeError::ExpectedInitializeRequest(Some(ping))))
    );
    let mut hs = McpServer::new(server_info()).handshake();
    assert_eq!(
        hs.on_event(HandshakeEvent::Received(Some(initialized()))),
        HandshakeStep::Done(Err(ServerInitializeError::ExpectedInitializeRequest(Some(initialized()))))
    );
}

#[test]
fn failed_response_send() {
    let mut hs = McpServer::new(server_info()).handshake();
    hs.on_event(HandshakeEvent::Received(Some(initialize(2))));
    let error = TransportError { transport_name: "Transport".to_string(), message: "closed".to_string() };
    assert_eq!(
        hs.on_event(HandshakeEvent::Sent(Err(error.clone()))),
        HandshakeStep::Done(Err(ServerInitializeError::TransportError { error, context: "send initialize response".to_string() }))
    );
}

#[test]
fn second_message_must_be_initialized() {
    let mut hs = McpServer::new(server_info()).handshake();
    hs.on_event(HandshakeEvent::Received(Some(initialize(2))));
    hs.on_event(HandshakeEvent::Sent(Ok(())));
    let other: ClientJsonRpcMessage = JsonRpcMessage::notification(ClientNotification::RootsListChangedNotification(
        RootsListChangedNotification { method: Default::default(), extensions: Extensions::new() },
    ));
    assert_eq!(
        hs.on_event(HandshakeEvent::Received(Some(other.clone()))),
        HandshakeStep::Done(Err(ServerInitializeError::ExpectedInitializedNotification(Some(other))))
    );

    let mut hs = McpServer::new(server_info()).handshake();
    hs.on_event(HandshakeEvent::Received(Some(initialize(2))));
    hs.on_event(HandshakeEvent::Sent(Ok(())));
    assert_eq!(
        hs.on_event(HandshakeEvent::Received(Some(initialize(3)))),
        HandshakeStep::Done(Err(ServerInitializeError::ExpectedInitializedNotification(Some(initialize(3)))))
    );

    let mut hs = McpServer::new(server_info()).handshake();
    hs.on_event(HandshakeEvent::Received(Some(initialize(2))));
    hs.on_event(HandshakeEvent::Sent(Ok(())));
    assert_eq!(
        hs.on_event(HandshakeEvent::Received(None)),
        HandshakeStep::Done(Err(ServerInitializeError::ConnectionClosed("initialized notification".to_string())))
    );
}

#[test]
fn layers_keep_the_announcement() {
    let server = McpServer::new(server_info()).layer(tower::layer::util::Identity::new()).layer(tower::layer::util::Identity::new());
    assert_eq!(server.info(), &server_info());
    let (info, _layers) = server.into_parts();
    assert_eq!(info, server_info());
}
