//! Tests of the client builder and of the client's requests and answers.

use std::sync::atomic::AtomicU32;
use std::sync::Arc;

use rmcp::client::{
    call_tool_request, call_tool_result, get_prompt_request, get_prompt_result, list_prompts_request,
    list_prompts_result, list_resources_request, list_resources_result, list_tools_request,
    list_tools_result, read_resource_request, read_resource_result,
};
use rmcp::model::{
    CallToolRequestParams, CallToolResult, ClientInfo, ClientRequest, EmptyResult, GetPromptRequestParams,
    GetPromptResult, ListPromptsResult, ListResourcesResult, ListToolsResult, PaginatedRequestParams,
    ReadResourceRequestParams, ReadResourceResult, ServerInfo, ServerResult, Tool,
};
use rmcp::service::{Peer, ServiceError};
use rmcp::{McpClient, RoleClient, RunningMcpClient};

#[test]
fn listing_requests_leave_out_default_params() {
    match list_tools_request(PaginatedRequestParams::default()) {
        ClientRequest::ListToolsRequest(r) => assert_eq!(r.params, None),
        other => panic!("unexpected {:?}", other),
    }
    let params = PaginatedRequestParams { cursor: Some("page-2".to_string()) };
    match list_tools_request(params.clone()) {
        ClientRequest::ListToolsRequest(r) => assert_eq!(r.params, Some(params.clone())),
        other => panic!("unexpected {:?}", other),
    }
    match list_prompts_request(params.clone()) {
        ClientRequest::ListPromptsRequest(r) => assert_eq!(r.params, Some(params.clone())),
        other => panic!("unexpected {:?}", other),
    }
    match list_resources_request(PaginatedRequestParams::default()) {
        ClientRequest::ListResourcesRequest(r) => assert_eq!(r.params, None),
        other => panic!("unexpected {:?}", other),
    }
}

#[test]
fn requests_with_params() {
    let call = CallToolRequestParams { name: "sum".to_string(), arguments: Some("{\"a\":1}".to_string()) };
    match call_tool_request(call.clone()) {
        ClientRequest::CallToolRequest(r) => assert_eq!(r.params, call),
        other => panic!("unexpected {:?}", other),
    }
    let prompt = GetPromptRequestParams { name: "greet".to_string(), arguments: None };
    match get_prompt_request(prompt.clone()) {
        ClientRequest::GetPromptRequest(r) => assert_eq!(r.params, prompt),
        other => panic!("unexpected {:?}", other),
    }
    let read = ReadResourceRequestParams { uri: "file:///a".to_string() };
    match read_resource_request(read.clone()) {
        ClientRequest::ReadResourceRequest(r) => assert_eq!(r.params, read),
        other => panic!("unexpected {:?}", other),
    }
}

#[test]
fn answers_of_the_expected_kind() {
    let tools = ListToolsResult { tools: vec![Tool { name: "sum".to_string(), description: None }], next_cursor: None };
    assert_eq!(list_tools_result(ServerResult::ListToolsResult(tools.clone())), Ok(tools));
    let call = CallToolResult { content: vec!["3".to_string()], is_error: Some(false) };
    assert_eq!(call_tool_result(ServerResult::CallToolResult(call.clone())), Ok(call));
    let prompts = ListPromptsResult { prompts: vec![], next_cursor: Some("n".to_string()) };
    assert_eq!(list_prompts_result(ServerResult::ListPromptsResult(prompts.clone())), Ok(prompts));
    let prompt = GetPromptResult { description: None, messages: vec!["hi".to_string()] };
    assert_eq!(get_prompt_result(ServerResult::GetPromptResult(prompt.clone())), Ok(prompt));
    let resources = ListResourcesResult { resources: vec![], next_cursor: None };
    assert_eq!(list_resources_result(ServerResult::ListResourcesResult(resources.clone())), Ok(resources));
    let read = ReadResourceResult { contents: vec!["x".to_string()] };
    assert_eq!(read_resource_result(ServerResult::ReadResourceResult(read.clone())), Ok(read));
}

#[test]
fn answers_of_another_kind_are_unexpected() {
    let empty = ServerResult::EmptyResult(EmptyResult {});
    assert_eq!(list_tools_result(empty.clone()), Err(ServiceError::UnexpectedResponse));
    assert_eq!(call_tool_result(empty.clone()), Err(ServiceError::UnexpectedResponse));
    assert_eq!(list_prompts_result(empty.clone()), Err(ServiceError::UnexpectedResponse));
    assert_eq!(get_prompt_result(empty.clone()), Err(ServiceError::UnexpectedResponse));
    assert_eq!(list_resources_result(empty.clone()), Err(ServiceError::UnexpectedResponse));
    assert_eq!(
        read_resource_result(ServerResult::ListToolsResult(ListToolsResult { tools: vec![], next_cursor: None })),
        Err(ServiceError::UnexpectedResponse)
    );
}

#[test]
fn client_builder_and_running_client() {
    let client = McpClient::new(ClientInfo::default()).layer(tower::layer::util::Identity::new());
    assert_eq!(client.info(), &ClientInfo::default());
    let (info, _layers) = client.into_parts();
    assert_eq!(info, ClientInfo::default());

    let (peer, _rx) = Peer::<RoleClient>::new(Arc::new(AtomicU32::new(0)), Some(ServerInfo::default()));
    let running = RunningMcpClient::new(peer, 17u8);
    assert_eq!(running.server_info(), Some(&ServerInfo::default()));
    assert_eq!(running.peer().peer_info(), Some(&ServerInfo::default()));
    assert_eq!(*running.running(), 17u8);
    assert_eq!(running.into_running(), 17u8);

    let (peer, _rx) = Peer::<RoleClient>::new(Arc::new(AtomicU32::new(0)), None);
    assert_eq!(RunningMcpClient::new(peer, ()).server_info(), None);
}
