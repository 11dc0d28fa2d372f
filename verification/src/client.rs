//! The client builder, and the requests and answers of the client's calls.

use vstd::prelude::*;

use crate::layer::{identity_layer, stack_layers};
use crate::model::{
    CallToolRequestMethod, CallToolRequestParams, CallToolResult, ClientInfo, ClientRequest,
    Extensions, GetExtensions, GetPromptRequestMethod, GetPromptRequestParams, GetPromptResult,
    ListPromptsRequestMethod, ListPromptsResult, ListResourcesRequestMethod, ListResourcesResult,
    ListToolsRequestMethod, ListToolsResult, PaginatedRequestParams, ReadResourceRequestMethod,
    ReadResourceRequestParams, ReadResourceResult, Request, RequestOptionalParam, ServerInfo,
    ServerResult,
};
use crate::service::peer::Peer;
use crate::service::role::{RoleClient, ServiceError};

verus! {

/// Builds an MCP client: what it announces and the tower layers its handler
/// gets wrapped in.
#[derive(Debug, Clone)]
pub struct McpClient<L = tower::layer::util::Identity> {
    info: ClientInfo,
    layer: L,
}

impl McpClient<tower::layer::util::Identity> {
    /// A client builder announcing `info`, without layers.
    pub fn new(info: ClientInfo) -> (c: McpClient<tower::layer::util::Identity>)
        ensures
            c.info_of() == info,
    {
        McpClient { info, layer: identity_layer() }
    }
}

impl<L> McpClient<L> {
    /// What the client announces.
    pub closed spec fn info_of(&self) -> ClientInfo {
        self.info
    }

    /// The layers added so far.
    pub closed spec fn layers_of(&self) -> L {
        self.layer
    }

    /// The builder with `layer` stacked onto the layers added so far.
    pub fn layer<NewLayer>(self, layer: NewLayer) -> (c: McpClient<tower::layer::util::Stack<NewLayer, L>>)
        ensures
            c.info_of() == self.info_of(),
    {
        McpClient { info: self.info, layer: stack_layers(layer, self.layer) }
    }

    /// What the client announces.
    pub fn info(&self) -> (i: &ClientInfo)
        ensures
            *i == self.info_of(),
    {
        &self.info
    }

    /// Takes the builder apart into what the client announces and its layers.
    pub fn into_parts(self) -> (r: (ClientInfo, L))
        ensures
            r.0 == self.info_of(),
            r.1 == self.layers_of(),
    {
        (self.info, self.layer)
    }
}

/// A running client connection: the handle to the server and the running
/// connection `running`.
#[verifier::reject_recursive_types(H)]
pub struct RunningMcpClient<H> {
    peer: Peer<RoleClient>,
    running: H,
}

impl<H> RunningMcpClient<H> {
    /// The handle to the server.
    pub closed spec fn peer_of(&self) -> Peer<RoleClient> {
        self.peer
    }

    /// The running connection.
    pub closed spec fn running_of(&self) -> H {
        self.running
    }

    /// A running client talking to the server through `peer`.
    pub fn new(peer: Peer<RoleClient>, running: H) -> (c: Self)
        ensures
            c.peer_of() == peer,
            c.running_of() == running,
    {
        RunningMcpClient { peer, running }
    }

    /// What the server announced in the handshake.
    pub fn server_info(&self) -> (i: Option<&ServerInfo>)
        ensures
            match self.peer_of().info_of() {
                Some(info) => i == Some(&info),
                None => i is None,
            },
    {
        self.peer.peer_info()
    }

    /// The handle to the server, for requests of any kind.
    pub fn peer(&self) -> (p: &Peer<RoleClient>)
        ensures
            *p == self.peer_of(),
    {
        &self.peer
    }

    /// The running connection.
    pub fn running(&self) -> (r: &H)
        ensures
            *r == self.running_of(),
    {
        &self.running
    }

    /// Gives back the running connection.
    pub fn into_running(self) -> (r: H)
        ensures
            r == self.running_of(),
    {
        self.running
    }
}

/// Whether `params` are sent as `sent`: left out when they are the default ones.
pub open spec fn paginated_params_sent(params: PaginatedRequestParams, sent: Option<PaginatedRequestParams>) -> bool {
    if params.cursor is None {
        sent is None
    } else {
        sent == Some(params)
    }
}

fn optional_params(params: PaginatedRequestParams) -> (sent: Option<PaginatedRequestParams>)
    ensures
        paginated_params_sent(params, sent),
{
    if params.is_default() {
        None
    } else {
        Some(params)
    }
}

/// The request that lists the server's tools.
pub fn list_tools_request(params: PaginatedRequestParams) -> (r: ClientRequest)
    ensures
        r matches ClientRequest::ListToolsRequest(req) && paginated_params_sent(params, req.params),
        r.extensions_of().is_empty(),
{
    ClientRequest::ListToolsRequest(RequestOptionalParam {
        method: ListToolsRequestMethod,
        params: optional_params(params),
        extensions: Extensions::new(),
    })
}

/// The request that calls a tool.
pub fn call_tool_request(params: CallToolRequestParams) -> (r: ClientRequest)
    ensures
        r matches ClientRequest::CallToolRequest(req) && req.params == params,
        r.extensions_of().is_empty(),
{
    ClientRequest::CallToolRequest(Request { method: CallToolRequestMethod, params, extensions: Extensions::new() })
}

/// The request that lists the server's prompts.
pub fn list_prompts_request(params: PaginatedRequestParams) -> (r: ClientRequest)
    ensures
        r matches ClientRequest::ListPromptsRequest(req) && paginated_params_sent(params, req.params),
        r.extensions_of().is_empty(),
{
    ClientRequest::ListPromptsRequest(RequestOptionalParam {
        method: ListPromptsRequestMethod,
        params: optional_params(params),
        extensions: Extensions::new(),
    })
}

/// The request that gets a prompt.
pub fn get_prompt_request(params: GetPromptRequestParams) -> (r: ClientRequest)
    ensures
        r matches ClientRequest::GetPromptRequest(req) && req.params == params,
        r.extensions_of().is_empty(),
{
    ClientRequest::GetPromptRequest(Request { method: GetPromptRequestMethod, params, extensions: Extensions::new() })
}

/// The request that lists the server's resources.
pub fn list_resources_request(params: PaginatedRequestParams) -> (r: ClientRequest)
    ensures
        r matches ClientRequest::ListResourcesRequest(req) && paginated_params_sent(params, req.params),
        r.extensions_of().is_empty(),
{
    ClientRequest::ListResourcesRequest(RequestOptionalParam {
        method: ListResourcesRequestMethod,
        params: optional_params(params),
        extensions: Extensions::new(),
    })
}

/// The request that reads a resource.
pub fn read_resource_request(params: ReadResourceRequestParams) -> (r: ClientRequest)
    ensures
        r matches ClientRequest::ReadResourceRequest(req) && req.params == params,
        r.extensions_of().is_empty(),
{
    ClientRequest::ReadResourceRequest(Request { method: ReadResourceRequestMethod, params, extensions: Extensions::new() })
}

/// The tools in the server's answer; any other kind of answer is unexpected.
pub fn list_tools_result(response: ServerResult) -> (r: Result<ListToolsResult, ServiceError>)
    ensures
        match response {
            ServerResult::ListToolsResult(x) => r == Ok::<ListToolsResult, ServiceError>(x),
            _ => r == Err::<ListToolsResult, ServiceError>(ServiceError::UnexpectedResponse),
        },
{
    match response {
        ServerResult::ListToolsResult(x) => Ok(x),
        _ => Err(ServiceError::UnexpectedResponse),
    }
}

/// The tool's outcome in the server's answer; any other kind of answer is unexpected.
pub fn call_tool_result(response: ServerResult) -> (r: Result<CallToolResult, ServiceError>)
    ensures
        match response {
            ServerResult::CallToolResult(x) => r == Ok::<CallToolResult, ServiceError>(x),
            _ => r == Err::<CallToolResult, ServiceError>(ServiceError::UnexpectedResponse),
        },
{
    match response {
        ServerResult::CallToolResult(x) => Ok(x),
        _ => Err(ServiceError::UnexpectedResponse),
    }
}

/// The prompts in the server's answer; any other kind of answer is unexpected.
pub fn list_prompts_result(response: ServerResult) -> (r: Result<ListPromptsResult, ServiceError>)
    ensures
        match response {
            ServerResult::ListPromptsResult(x) => r == Ok::<ListPromptsResult, ServiceError>(x),
            _ => r == Err::<ListPromptsResult, ServiceError>(ServiceError::UnexpectedResponse),
        },
{
    match response {
        ServerResult::ListPromptsResult(x) => Ok(x),
        _ => Err(ServiceError::UnexpectedResponse),
    }
}

/// The prompt in the server's answer; any other kind of answer is unexpected.
pub fn get_prompt_result(response: ServerResult) -> (r: Result<GetPromptResult, ServiceError>)
    ensures
        match response {
            ServerResult::GetPromptResult(x) => r == Ok::<GetPromptResult, ServiceError>(x),
            _ => r == Err::<GetPromptResult, ServiceError>(ServiceError::UnexpectedResponse),
        },
{
    match response {
        ServerResult::GetPromptResult(x) => Ok(x),
        _ => Err(ServiceError::UnexpectedResponse),
    }
}

/// The resources in the server's answer; any other kind of answer is unexpected.
pub fn list_resources_result(response: ServerResult) -> (r: Result<ListResourcesResult, ServiceError>)
    ensures
        match response {
            ServerResult::ListResourcesResult(x) => r == Ok::<ListResourcesResult, ServiceError>(x),
            _ => r == Err::<ListResourcesResult, ServiceError>(ServiceError::UnexpectedResponse),
        },
{
    match response {
        ServerResult::ListResourcesResult(x) => Ok(x),
        _ => Err(ServiceError::UnexpectedResponse),
    }
}

/// The resource contents in the server's answer; any other kind of answer is unexpected.
pub fn read_resource_result(response: ServerResult) -> (r: Result<ReadResourceResult, ServiceError>)
    ensures
        match response {
            ServerResult::ReadResourceResult(x) => r == Ok::<ReadResourceResult, ServiceError>(x),
            _ => r == Err::<ReadResourceResult, ServiceError>(ServiceError::UnexpectedResponse),
        },
{
    match response {
        ServerResult::ReadResourceResult(x) => Ok(x),
        _ => Err(ServiceError::UnexpectedResponse),
    }
}

} // verus!
