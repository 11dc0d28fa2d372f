//! Tests of the message model and the message helpers.

use rmcp::model::{
    decimal_i64, decimal_u64, ClientNotification, ClientRequest, ErrorData, Extensions, GetExtensions,
    InitializedNotification, JsonRpcMessage, ListRootsRequest, Meta, RequestId, ServerJsonRpcMessage,
    ServerNotification, ServerRequest, ToolListChangedNotification, ClientResult, EmptyResult,
    INVALID_PARAMS, INVALID_REQUEST, METHOD_NOT_FOUND, PARSE_ERROR, INTERNAL_ERROR, PingRequest,
};
use rmcp::service::{extract_message_extensions, extract_message_meta, get_message_request_id, RoleClient, RoleServer, RxJsonRpcMessage};

fn ext_with(meta_key: &str, value_key: &str) -> Extensions {
    let mut e = Extensions::new();
    e.meta = Meta { entries: vec![(meta_key.to_string(), "m".to_string())] };
    e.values.push((value_key.to_string(), "v".to_string()));
    e
}

#[test]
fn decimal_rendering() {
    assert_eq!(decimal_u64(0), "0");
    assert_eq!(decimal_u64(7), "7");
    assert_eq!(decimal_u64(1234567890), "1234567890");
    assert_eq!(decimal_u64(u64::MAX), u64::MAX.to_string());
    assert_eq!(decimal_i64(-1), "-1");
    assert_eq!(decimal_i64(i64::MIN), i64::MIN.to_string());
    assert_eq!(decimal_i64(i64::MAX), i64::MAX.to_string());
}

#[test]
fn request_ids() {
    assert!(RequestId::Number(5).same_as(&RequestId::Number(5)));
    assert!(!RequestId::Number(5).same_as(&RequestId::String("5".to_string())));
    assert!(RequestId::String("x".to_string()).same_as(&RequestId::String("x".to_string())));
    assert_eq!(RequestId::Number(-42).to_display_string(), "-42");
    assert_eq!(RequestId::String("req-1".to_string()).to_display_string(), "req-1");
    assert_eq!(RequestId::from_counter(9), RequestId::Number(9));
}

#[test]
fn error_codes() {
    assert_eq!(ErrorData::internal_error("a", None).code, INTERNAL_ERROR);
    assert_eq!(ErrorData::invalid_request("a", None).code, INVALID_REQUEST);
    assert_eq!(ErrorData::invalid_params("a", Some("d".to_string())).data, Some("d".to_string()));
    assert_eq!(ErrorData::method_not_found("a", None).code, METHOD_NOT_FOUND);
    assert_eq!(ErrorData::parse_error("oops", None).message, "oops");
    assert_eq!(ErrorData::parse_error("oops", None).code, PARSE_ERROR);
}

#[test]
fn meta_and_extensions_of_received_messages() {
    // On the client side, server requests and notifications carry extensions.
    let req: RxJsonRpcMessage<RoleClient> = JsonRpcMessage::request(
        ServerRequest::ListRootsRequest(ListRootsRequest { method: Default::default(), extensions: ext_with("a", "b") }),
        RequestId::Number(1),
    );
    assert_eq!(extract_message_meta::<RoleClient>(&req), ext_with("a", "b").meta);
    assert_eq!(extract_message_extensions::<RoleClient>(&req), ext_with("a", "b"));
    assert_eq!(get_message_request_id::<RoleClient>(&req), Some(RequestId::Number(1)));

    let not: RxJsonRpcMessage<RoleClient> = JsonRpcMessage::notification(ServerNotification::ToolListChangedNotification(
        ToolListChangedNotification { method: Default::default(), extensions: ext_with("c", "d") },
    ));
    assert_eq!(extract_message_meta::<RoleClient>(&not), ext_with("c", "d").meta);
    assert_eq!(extract_message_extensions::<RoleClient>(&not), ext_with("c", "d"));
    assert_eq!(get_message_request_id::<RoleClient>(&not), None);

    // Responses and errors carry none.
    let resp: RxJsonRpcMessage<RoleServer> = JsonRpcMessage::response(ClientResult::EmptyResult(EmptyResult {}), RequestId::String("r".to_string()));
    assert_eq!(extract_message_meta::<RoleServer>(&resp), Meta::new());
    assert_eq!(extract_message_extensions::<RoleServer>(&resp), Extensions::new());
    assert_eq!(get_message_request_id::<RoleServer>(&resp), Some(RequestId::String("r".to_string())));
    let err: RxJsonRpcMessage<RoleServer> = JsonRpcMessage::error(ErrorData::internal_error("x", None), RequestId::Number(8));
    assert_eq!(extract_message_extensions::<RoleServer>(&err), Extensions::new());
    assert_eq!(get_message_request_id::<RoleServer>(&err), Some(RequestId::Number(8)));
}

#[test]
fn taking_meta_and_extensions() {
    let mut req = ClientRequest::PingRequest(PingRequest { method: Default::default(), extensions: ext_with("a", "b") });
    let meta = req.take_meta();
    assert_eq!(meta, ext_with("a", "b").meta);
    assert_eq!(req.extensions().values, ext_with("a", "b").values);
    assert!(req.extensions().meta.entries.is_empty());
    let ext = req.take_extensions();
    assert_eq!(ext.values, ext_with("a", "b").values);
    assert_eq!(req.extensions(), &Extensions::new());

    let mut n = ClientNotification::InitializedNotification(InitializedNotification { method: Default::default(), extensions: ext_with("x", "y") });
    assert_eq!(n.take_extensions(), ext_with("x", "y"));
    assert_eq!(n.take_meta(), Meta::new());
}

#[test]
fn json_rpc_message_parts() {
    let m: ServerJsonRpcMessage = JsonRpcMessage::request(ServerRequest::PingRequest(PingRequest { method: Default::default(), extensions: Extensions::new() }), RequestId::Number(2));
    assert!(m.clone().into_notification().is_none());
    let (req, id) = m.into_request().unwrap();
    assert_eq!(id, RequestId::Number(2));
    assert!(matches!(req, ServerRequest::PingRequest(_)));
}
