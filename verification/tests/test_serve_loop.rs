//! Scenarios of the server's service loop decisions.

use rmcp::model::{
    CancelledNotification, CancelledNotificationMethod, CancelledNotificationParam, ClientJsonRpcMessage,
    ClientNotification, ClientRequest, ClientResult, EmptyResult, ErrorData, Extensions,
    InitializedNotification, JsonRpcMessage, ListToolsRequest, ListToolsResult, Meta, PingRequest,
    RequestId, ServerJsonRpcMessage, ServerNotification, ServerRequest, ServerResult, Notification,
    INTERNAL_ERROR,
};
use rmcp::service::{
    reply_for_request, LoopAction, LoopEvent, McpOutput, QuitReason, RoleServer, ServeLoop,
    ServiceError, TransportError,
};

fn ping() -> ServerRequest {
    ServerRequest::PingRequest(PingRequest { method: Default::default(), extensions: Extensions::new() })
}

fn meta(k: &str, v: &str) -> Meta {
    Meta { entries: vec![(k.to_string(), v.to_string())] }
}

fn transport_error() -> TransportError {
    TransportError { transport_name: "test".to_string(), message: "broken pipe".to_string() }
}

#[test]
fn outgoing_request_is_resolved_once() {
    let mut lp = ServeLoop::new();
    let actions = lp.handle_event(LoopEvent::OutgoingRequest { id: RequestId::Number(1), request: ping() });
    assert_eq!(actions, vec![LoopAction::SendRequest { id: RequestId::Number(1), request: ping() }]);
    assert!(lp.is_pending(&RequestId::Number(1)));

    let answer: ClientJsonRpcMessage = JsonRpcMessage::response(ClientResult::EmptyResult(EmptyResult {}), RequestId::Number(1));
    let actions = lp.handle_event(LoopEvent::Received(answer.clone()));
    assert_eq!(
        actions,
        vec![LoopAction::Resolve { id: RequestId::Number(1), outcome: Ok(ClientResult::EmptyResult(EmptyResult {})) }]
    );
    assert!(!lp.is_pending(&RequestId::Number(1)));

    // A second answer to the same request reaches nobody.
    let actions = lp.handle_event(LoopEvent::Received(answer));
    assert!(actions.is_empty());
}

#[test]
fn error_answer_resolves_with_the_peer_error() {
    let mut lp = ServeLoop::new();
    lp.handle_event(LoopEvent::OutgoingRequest { id: RequestId::String("a".to_string()), request: ping() });
    let error = ErrorData::invalid_request("nope", None);
    let msg: ClientJsonRpcMessage = JsonRpcMessage::error(error.clone(), RequestId::String("a".to_string()));
    let actions = lp.handle_event(LoopEvent::Received(msg));
    assert_eq!(
        actions,
        vec![LoopAction::Resolve { id: RequestId::String("a".to_string()), outcome: Err(ServiceError::McpError(error)) }]
    );
}

#[test]
fn unawaited_answers_are_ignored() {
    let mut lp = ServeLoop::new();
    let msg: ClientJsonRpcMessage = JsonRpcMessage::response(ClientResult::EmptyResult(EmptyResult {}), RequestId::Number(9));
    assert!(lp.handle_event(LoopEvent::Received(msg)).is_empty());
    let msg: ClientJsonRpcMessage = JsonRpcMessage::error(ErrorData::internal_error("x", None), RequestId::Number(9));
    assert!(lp.handle_event(LoopEvent::Received(msg)).is_empty());
}

#[test]
fn failed_request_send_resolves_with_transport_error() {
    let mut lp = ServeLoop::new();
    lp.handle_event(LoopEvent::OutgoingRequest { id: RequestId::Number(3), request: ping() });
    let ok = lp.handle_event(LoopEvent::RequestSent { id: RequestId::Number(3), result: Ok(()) });
    assert!(ok.is_empty());
    assert!(lp.is_pending(&RequestId::Number(3)));
    let actions = lp.handle_event(LoopEvent::RequestSent { id: RequestId::Number(3), result: Err(transport_error()) });
    assert_eq!(
        actions,
        vec![LoopAction::Resolve { id: RequestId::Number(3), outcome: Err(ServiceError::TransportSend(transport_error())) }]
    );
    assert!(!lp.is_pending(&RequestId::Number(3)));
}

#[test]
fn sent_cancellation_resolves_the_cancelled_request() {
    let mut lp = ServeLoop::new();
    lp.handle_event(LoopEvent::OutgoingRequest { id: RequestId::Number(5), request: ping() });
    let cancel = CancelledNotificationParam { request_id: RequestId::Number(5), reason: Some("user".to_string()) };
    let notification = ServerNotification::CancelledNotification(Notification {
        method: CancelledNotificationMethod,
        params: cancel.clone(),
        extensions: Extensions::new(),
    });
    let actions = lp.handle_event(LoopEvent::OutgoingNotification(notification.clone()));
    assert_eq!(
        actions,
        vec![LoopAction::SendNotification { notification, cancellation: Some(cancel.clone()) }]
    );
    let actions = lp.handle_event(LoopEvent::NotificationSent { cancellation: Some(cancel), result: Ok(()) });
    assert_eq!(
        actions,
        vec![
            LoopAction::ReplyToNotifier(Ok(())),
            LoopAction::Resolve {
                id: RequestId::Number(5),
                outcome: Err(ServiceError::Cancelled { reason: Some("user".to_string()) }),
            },
        ]
    );
    let actions = lp.handle_event(LoopEvent::NotificationSent { cancellation: None, result: Err(transport_error()) });
    assert_eq!(actions, vec![LoopAction::ReplyToNotifier(Err(ServiceError::TransportSend(transport_error())))]);
}

#[test]
fn received_request_is_handled_with_its_context() {
    let mut lp = ServeLoop::new();
    let mut extensions = Extensions::new();
    extensions.meta = meta("progressToken", "42");
    extensions.values.push(("auth".to_string(), "token".to_string()));
    let request = ClientRequest::ListToolsRequest(ListToolsRequest { method: Default::default(), params: None, extensions });
    let msg: ClientJsonRpcMessage = JsonRpcMessage::request(request, RequestId::Number(7));
    let actions = lp.handle_event(LoopEvent::Received(msg));
    let mut rest_ext = Extensions::new();
    rest_ext.meta = Meta::new();
    let mut ctx_ext = Extensions::new();
    ctx_ext.values.push(("auth".to_string(), "token".to_string()));
    assert_eq!(
        actions,
        vec![LoopAction::HandleRequest {
            id: RequestId::Number(7),
            request: ClientRequest::ListToolsRequest(ListToolsRequest { method: Default::default(), params: None, extensions: rest_ext }),
            meta: meta("progressToken", "42"),
            extensions: ctx_ext,
        }]
    );
    assert!(lp.is_handling(&RequestId::Number(7)));

    // The answer ends the handling and goes to the client.
    let answer: ServerJsonRpcMessage = JsonRpcMessage::response(
        ServerResult::ListToolsResult(ListToolsResult { tools: vec![], next_cursor: None }),
        RequestId::Number(7),
    );
    let actions = lp.handle_event(LoopEvent::Answer(answer.clone()));
    assert_eq!(actions, vec![LoopAction::CancelHandling(RequestId::Number(7)), LoopAction::SendAnswer(answer.clone())]);
    assert!(!lp.is_handling(&RequestId::Number(7)));
    let actions = lp.handle_event(LoopEvent::Answer(answer.clone()));
    assert_eq!(actions, vec![LoopAction::SendAnswer(answer)]);
}

#[test]
fn only_answers_reach_the_client() {
    let mut lp = ServeLoop::new();
    let msg: ServerJsonRpcMessage = JsonRpcMessage::request(ping(), RequestId::Number(1));
    assert!(lp.handle_event(LoopEvent::Answer(msg)).is_empty());
}

#[test]
fn client_cancellation_cancels_handling() {
    let mut lp = ServeLoop::new();
    let request = ClientRequest::PingRequest(PingRequest { method: Default::default(), extensions: Extensions::new() });
    lp.handle_event(LoopEvent::Received(JsonRpcMessage::request(request, RequestId::Number(11))));
    let mut extensions = Extensions::new();
    extensions.meta = meta("k", "v");
    let cancel = ClientNotification::CancelledNotification(CancelledNotification {
        method: CancelledNotificationMethod,
        params: CancelledNotificationParam { request_id: RequestId::Number(11), reason: None },
        extensions: extensions.clone(),
    });
    let actions = lp.handle_event(LoopEvent::Received(JsonRpcMessage::notification(cancel)));
    assert_eq!(actions.len(), 2);
    assert_eq!(actions[0], LoopAction::CancelHandling(RequestId::Number(11)));
    match &actions[1] {
        LoopAction::HandleNotification { meta, extensions: ext, .. } => {
            assert!(meta.entries.is_empty());
            assert_eq!(ext, &extensions);
        },
        other => panic!("unexpected {:?}", other),
    }
    assert!(!lp.is_handling(&RequestId::Number(11)));

    // An initialized notification is just handed on.
    let init = ClientNotification::InitializedNotification(InitializedNotification { method: Default::default(), extensions: Extensions::new() });
    let actions = lp.handle_event(LoopEvent::Received(JsonRpcMessage::notification(init)));
    assert_eq!(actions.len(), 1);
    assert!(matches!(actions[0], LoopAction::HandleNotification { .. }));
}

#[test]
fn stop_events_stop_the_loop() {
    let mut lp = ServeLoop::new();
    assert_eq!(lp.handle_event(LoopEvent::InputClosed), vec![LoopAction::Stop(QuitReason::Closed)]);
    assert_eq!(lp.handle_event(LoopEvent::Cancelled), vec![LoopAction::Stop(QuitReason::Cancelled)]);
    assert_eq!(
        lp.handle_event(LoopEvent::JoinFailed("panicked".to_string())),
        vec![LoopAction::Stop(QuitReason::JoinError("panicked".to_string()))]
    );
}

#[test]
fn replies_always_answer_the_request() {
    let id = RequestId::Number(4);
    let ok = reply_for_request(
        id.clone(),
        Ok(McpOutput::<RoleServer>::Response { id: RequestId::Number(99), result: Ok(ServerResult::EmptyResult(EmptyResult {})) }),
    );
    assert_eq!(ok, JsonRpcMessage::response(ServerResult::EmptyResult(EmptyResult {}), id.clone()));
    let err = reply_for_request(
        id.clone(),
        Ok(McpOutput::<RoleServer>::Response { id: id.clone(), result: Err(ErrorData::invalid_params("bad", None)) }),
    );
    assert_eq!(err, JsonRpcMessage::error(ErrorData::invalid_params("bad", None), id.clone()));
    let ack = reply_for_request(id.clone(), Ok(McpOutput::<RoleServer>::Ack));
    assert_eq!(ack, JsonRpcMessage::error(ErrorData::internal_error("Received Ack for a request", None), id.clone()));
    let failed = reply_for_request(id.clone(), Err("service broke".to_string()));
    match failed {
        JsonRpcMessage::Error(e) => {
            assert_eq!(e.id, id);
            assert_eq!(e.error.code, INTERNAL_ERROR);
            assert_eq!(e.error.message, "service broke");
        },
        other => panic!("unexpected {:?}", other),
    }
}
