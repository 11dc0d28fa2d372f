//! The protocol data model used by the service stack.

use vstd::prelude::*;

verus! {

/// The decimal digits of a non-negative integer, most significant first.
pub open spec fn decimal_digits(n: nat) -> Seq<char>
    decreases n,
{
    if n < 10 {
        seq![digit_char(n)]
    } else {
        decimal_digits(n / 10).push(digit_char(n % 10))
    }
}

/// The ASCII digit for a value below ten.
pub open spec fn digit_char(d: nat) -> char {
    if d == 0 { '0' } else if d == 1 { '1' } else if d == 2 { '2' } else if d == 3 { '3' }
    else if d == 4 { '4' } else if d == 5 { '5' } else if d == 6 { '6' } else if d == 7 { '7' }
    else if d == 8 { '8' } else { '9' }
}

/// The decimal rendering of a signed integer, with a leading `-` when negative.
pub open spec fn decimal_text(n: int) -> Seq<char> {
    if n < 0 {
        seq!['-'] + decimal_digits((-n) as nat)
    } else {
        decimal_digits(n as nat)
    }
}

fn digit_string(d: u64) -> (s: String)
    requires
        d < 10,
    ensures
        s@ == seq![digit_char(d as nat)],
{
    let lit = if d == 0 { "0" } else if d == 1 { "1" } else if d == 2 { "2" } else if d == 3 { "3" }
        else if d == 4 { "4" } else if d == 5 { "5" } else if d == 6 { "6" } else if d == 7 { "7" }
        else if d == 8 { "8" } else { "9" };
    proof {
        reveal_strlit("0"); reveal_strlit("1"); reveal_strlit("2"); reveal_strlit("3");
        reveal_strlit("4"); reveal_strlit("5"); reveal_strlit("6"); reveal_strlit("7");
        reveal_strlit("8"); reveal_strlit("9");
    }
    String::from_str(lit)
}

/// Renders an unsigned integer in decimal.
pub fn decimal_u64(n: u64) -> (s: String)
    ensures
        s@ == decimal_digits(n as nat),
    decreases n,
{
    if n < 10 {
        digit_string(n)
    } else {
        let mut s = decimal_u64(n / 10);
        let d = digit_string(n % 10);
        s.append(d.as_str());
        s
    }
}

/// Renders a signed integer in decimal.
pub fn decimal_i64(n: i64) -> (s: String)
    ensures
        s@ == decimal_text(n as int),
{
    if n < 0 {
        let magnitude: u64 = if n == i64::MIN { 9223372036854775808u64 } else { (-n) as u64 };
        let mut s = String::from_str("-");
        proof { reveal_strlit("-"); }
        let digits = decimal_u64(magnitude);
        s.append(digits.as_str());
        s
    } else {
        decimal_u64(n as u64)
    }
}

/// Identifier of a JSON-RPC request: a number or a string.
#[derive(Debug, Clone, PartialEq, Eq, Hash)]
pub enum RequestId {
    Number(i64),
    String(String),
}

/// What a request identifier denotes: its number, or the characters of its string.
pub enum RequestIdValue {
    Number(int),
    Text(Seq<char>),
}

impl RequestId {
    pub open spec fn value(&self) -> RequestIdValue {
        match self {
            RequestId::Number(n) => RequestIdValue::Number(*n as int),
            RequestId::String(s) => RequestIdValue::Text(s@),
        }
    }

    /// The text that displaying the identifier yields.
    pub open spec fn display_text(&self) -> Seq<char> {
        match self {
            RequestId::Number(n) => decimal_text(*n as int),
            RequestId::String(s) => s@,
        }
    }

    /// The identifier numbered by a request counter.
    pub fn from_counter(n: u32) -> (id: RequestId)
        ensures
            id == RequestId::Number(n as i64),
    {
        RequestId::Number(n as i64)
    }

    /// Whether two identifiers denote the same request.
    pub fn same_as(&self, other: &RequestId) -> (b: bool)
        ensures
            b == (self.value() == other.value()),
    {
        match (self, other) {
            (RequestId::Number(a), RequestId::Number(b)) => *a == *b,
            (RequestId::String(a), RequestId::String(b)) => *a == *b,
            _ => false,
        }
    }

    /// A copy of the identifier.
    pub fn duplicate(&self) -> (r: RequestId)
        ensures
            r == *self,
    {
        match self {
            RequestId::Number(n) => RequestId::Number(*n),
            RequestId::String(s) => RequestId::String(s.clone()),
        }
    }

    /// Renders the identifier as text: the number in decimal, or the string itself.
    pub fn to_display_string(&self) -> (s: String)
        ensures
            s@ == self.display_text(),
    {
        match self {
            RequestId::Number(n) => decimal_i64(*n),
            RequestId::String(s) => s.clone(),
        }
    }
}


/// JSON-RPC error code for a request whose form is invalid.
pub const INVALID_REQUEST: i32 = -32600;
/// JSON-RPC error code for an unknown method.
pub const METHOD_NOT_FOUND: i32 = -32601;
/// JSON-RPC error code for invalid parameters.
pub const INVALID_PARAMS: i32 = -32602;
/// JSON-RPC error code for an internal failure.
pub const INTERNAL_ERROR: i32 = -32603;
/// JSON-RPC error code for a message that could not be parsed.
pub const PARSE_ERROR: i32 = -32700;

/// An MCP error: a JSON-RPC error code, a message and optional data.
#[derive(Debug, Clone, PartialEq, Eq)]
pub struct ErrorData {
    pub code: i32,
    pub message: String,
    pub data: Option<String>,
}

impl ErrorData {
    /// An error with the given code, message and data.
    pub fn new(code: i32, message: &str, data: Option<String>) -> (e: ErrorData)
        ensures
            e.code == code,
            e.message@ == message@,
            e.data == data,
    {
        ErrorData { code, message: String::from_str(message), data }
    }

    /// An internal error.
    pub fn internal_error(message: &str, data: Option<String>) -> (e: ErrorData)
        ensures
            e.code == INTERNAL_ERROR,
            e.message@ == message@,
            e.data == data,
    {
        ErrorData::new(INTERNAL_ERROR, message, data)
    }

    /// An invalid-request error.
    pub fn invalid_request(message: &str, data: Option<String>) -> (e: ErrorData)
        ensures
            e.code == INVALID_REQUEST,
            e.message@ == message@,
            e.data == data,
    {
        ErrorData::new(INVALID_REQUEST, message, data)
    }

    /// An invalid-params error.
    pub fn invalid_params(message: &str, data: Option<String>) -> (e: ErrorData)
        ensures
            e.code == INVALID_PARAMS,
            e.message@ == message@,
            e.data == data,
    {
        ErrorData::new(INVALID_PARAMS, message, data)
    }

    /// A method-not-found error.
    pub fn method_not_found(message: &str, data: Option<String>) -> (e: ErrorData)
        ensures
            e.code == METHOD_NOT_FOUND,
            e.message@ == message@,
            e.data == data,
    {
        ErrorData::new(METHOD_NOT_FOUND, message, data)
    }

    /// A parse error.
    pub fn parse_error(message: &str, data: Option<String>) -> (e: ErrorData)
        ensures
            e.code == PARSE_ERROR,
            e.message@ == message@,
            e.data == data,
    {
        ErrorData::new(PARSE_ERROR, message, data)
    }
}

/// Copies a list of key/value text pairs.
pub fn copy_pairs(v: &Vec<(String, String)>) -> (r: Vec<(String, String)>)
    ensures
        r@ == v@,
{
    let mut r: Vec<(String, String)> = Vec::new();
    let mut i: usize = 0;
    while i < v.len()
        invariant
            i <= v.len(),
            r@ == v@.subrange(0, i as int),
        decreases v.len() - i,
    {
        let (k, val) = &v[i];
        r.push((k.clone(), val.clone()));
        i = i + 1;
    }
    assert(v@.subrange(0, v@.len() as int) =~= v@);
    r
}

/// The `_meta` object of a request or notification: key/value pairs in order.
#[derive(Debug, Clone, PartialEq, Eq)]
pub struct Meta {
    pub entries: Vec<(String, String)>,
}

impl Meta {
    /// A meta object with no entries.
    pub fn new() -> (m: Meta)
        ensures
            m.entries@.len() == 0,
    {
        Meta { entries: Vec::new() }
    }

    /// A copy of the meta object.
    pub fn duplicate(&self) -> (m: Meta)
        ensures
            m.entries@ == self.entries@,
    {
        Meta { entries: copy_pairs(&self.entries) }
    }
}

impl Default for Meta {
    fn default() -> (m: Meta)
        ensures
            m.entries@.len() == 0,
    {
        Meta::new()
    }
}

/// Data attached to a message for the receiving side: its `_meta` object and
/// custom key/value entries.
#[derive(Debug, Clone, PartialEq, Eq)]
pub struct Extensions {
    pub meta: Meta,
    pub values: Vec<(String, String)>,
}

impl Extensions {
    pub open spec fn is_empty(&self) -> bool {
        self.meta.entries@.len() == 0 && self.values@.len() == 0
    }

    pub open spec fn same(&self, other: Extensions) -> bool {
        self.meta.entries@ == other.meta.entries@ && self.values@ == other.values@
    }

    /// Extensions with no meta entries and no custom entries.
    pub fn new() -> (e: Extensions)
        ensures
            e.is_empty(),
    {
        Extensions { meta: Meta::new(), values: Vec::new() }
    }

    /// A copy of the extensions.
    pub fn duplicate(&self) -> (e: Extensions)
        ensures
            e.same(*self),
    {
        Extensions { meta: self.meta.duplicate(), values: copy_pairs(&self.values) }
    }
}

impl Extensions {
    /// Takes the extensions out, leaving empty ones behind.
    pub fn take(&mut self) -> (e: Extensions)
        ensures
            e == *old(self),
            final(self).is_empty(),
    {
        let mut e = Extensions::new();
        std::mem::swap(&mut e, self);
        e
    }

    /// Takes the meta object out, leaving an empty one and the custom entries behind.
    pub fn take_meta(&mut self) -> (m: Meta)
        ensures
            m == old(self).meta,
            final(self).meta.entries@.len() == 0,
            final(self).values == old(self).values,
    {
        let mut m = Meta::new();
        std::mem::swap(&mut m, &mut self.meta);
        m
    }
}

impl Default for Extensions {
    fn default() -> (e: Extensions)
        ensures
            e.is_empty(),
    {
        Extensions::new()
    }
}


/// Copies an optional text.
pub fn copy_text_option(t: &Option<String>) -> (r: Option<String>)
    ensures
        r == *t,
{
    match t {
        Some(s) => Some(s.clone()),
        None => None,
    }
}

/// The MCP protocol version that a peer speaks.
#[derive(Debug, Clone, PartialEq, Eq)]
pub struct ProtocolVersion {
    pub version: String,
}

/// The protocol version this crate speaks by default.
pub open spec fn latest_protocol_version() -> Seq<char> {
    "2025-03-26"@
}

impl Default for ProtocolVersion {
    fn default() -> (v: ProtocolVersion)
        ensures
            v.version@ == latest_protocol_version(),
    {
        proof { reveal_strlit("2025-03-26"); }
        ProtocolVersion { version: String::from_str("2025-03-26") }
    }
}

/// Name and version of an MCP implementation.
#[derive(Debug, Clone, PartialEq, Eq)]
pub struct Implementation {
    pub name: String,
    pub version: String,
}

impl Implementation {
    /// A copy of the implementation record.
    pub fn duplicate(&self) -> (r: Implementation)
        ensures
            r == *self,
    {
        Implementation { name: self.name.clone(), version: self.version.clone() }
    }
}

/// The name under which this crate introduces itself by default.
pub open spec fn default_implementation_name() -> Seq<char> {
    "rmcp"@
}

/// The version under which this crate introduces itself by default.
pub open spec fn default_implementation_version() -> Seq<char> {
    "0.1.0"@
}

impl Default for Implementation {
    fn default() -> (r: Implementation)
        ensures
            r.name@ == default_implementation_name(),
            r.version@ == default_implementation_version(),
    {
        proof {
            reveal_strlit("rmcp");
            reveal_strlit("0.1.0");
        }
        Implementation { name: String::from_str("rmcp"), version: String::from_str("0.1.0") }
    }
}

/// What a server offers: each flag tells whether the capability is announced.
#[derive(Debug, Clone, Copy, PartialEq, Eq)]
pub struct ServerCapabilities {
    pub logging: bool,
    pub prompts: bool,
    pub resources: bool,
    pub tools: bool,
}

impl Default for ServerCapabilities {
    fn default() -> (c: ServerCapabilities)
        ensures
            !c.logging && !c.prompts && !c.resources && !c.tools,
    {
        ServerCapabilities { logging: false, prompts: false, resources: false, tools: false }
    }
}

/// What a client offers: each flag tells whether the capability is announced.
#[derive(Debug, Clone, Copy, PartialEq, Eq)]
pub struct ClientCapabilities {
    pub roots: bool,
    pub sampling: bool,
}

impl Default for ClientCapabilities {
    fn default() -> (c: ClientCapabilities)
        ensures
            !c.roots && !c.sampling,
    {
        ClientCapabilities { roots: false, sampling: false }
    }
}

/// What a server tells about itself: the answer to an initialize request.
#[derive(Debug, Clone, PartialEq, Eq)]
pub struct InitializeResult {
    pub protocol_version: ProtocolVersion,
    pub capabilities: ServerCapabilities,
    pub server_info: Implementation,
    pub instructions: Option<String>,
}

/// The information a server announces.
pub type ServerInfo = InitializeResult;

impl InitializeResult {
    /// A copy of the record.
    pub fn duplicate(&self) -> (r: InitializeResult)
        ensures
            r == *self,
    {
        InitializeResult {
            protocol_version: ProtocolVersion { version: self.protocol_version.version.clone() },
            capabilities: self.capabilities,
            server_info: self.server_info.duplicate(),
            instructions: copy_text_option(&self.instructions),
        }
    }
}

/// Whether `r` is what a server announces by default: the latest protocol
/// version, no capability, this crate's name and version, and no instructions.
pub open spec fn is_default_server_info(r: InitializeResult) -> bool {
    &&& r.protocol_version.version@ == latest_protocol_version()
    &&& r.capabilities == (ServerCapabilities { logging: false, prompts: false, resources: false, tools: false })
    &&& r.server_info.name@ == default_implementation_name()
    &&& r.server_info.version@ == default_implementation_version()
    &&& r.instructions is None
}

impl Default for InitializeResult {
    fn default() -> (r: InitializeResult)
        ensures
            is_default_server_info(r),
    {
        InitializeResult {
            protocol_version: ProtocolVersion::default(),
            capabilities: ServerCapabilities::default(),
            server_info: Implementation::default(),
            instructions: None,
        }
    }
}

/// What a client tells about itself: the parameters of its initialize request.
#[derive(Debug, Clone, PartialEq, Eq)]
pub struct InitializeRequestParams {
    pub protocol_version: ProtocolVersion,
    pub capabilities: ClientCapabilities,
    pub client_info: Implementation,
    pub meta: Option<Meta>,
}

/// The information a client announces.
pub type ClientInfo = InitializeRequestParams;

impl InitializeRequestParams {
    /// Whether two records hold the same information.
    pub open spec fn same(&self, other: InitializeRequestParams) -> bool {
        &&& self.protocol_version == other.protocol_version
        &&& self.capabilities == other.capabilities
        &&& self.client_info == other.client_info
        &&& (self.meta is Some <==> other.meta is Some)
        &&& (self.meta is Some ==> self.meta->0.entries@ == other.meta->0.entries@)
    }

    /// A copy of the record.
    pub fn duplicate(&self) -> (r: InitializeRequestParams)
        ensures
            r.same(*self),
    {
        InitializeRequestParams {
            protocol_version: ProtocolVersion { version: self.protocol_version.version.clone() },
            capabilities: self.capabilities,
            client_info: self.client_info.duplicate(),
            meta: match &self.meta {
                Some(m) => Some(m.duplicate()),
                None => None,
            },
        }
    }
}

impl Default for InitializeRequestParams {
    fn default() -> (r: InitializeRequestParams)
        ensures
            r.protocol_version.version@ == latest_protocol_version(),
            r.capabilities == (ClientCapabilities { roots: false, sampling: false }),
            r.client_info.name@ == default_implementation_name(),
            r.client_info.version@ == default_implementation_version(),
            r.meta is None,
    {
        InitializeRequestParams {
            protocol_version: ProtocolVersion::default(),
            capabilities: ClientCapabilities::default(),
            client_info: Implementation::default(),
            meta: None,
        }
    }
}


/// The method tag `InitializeRequest`.
#[derive(Debug, Default, Clone, Copy, PartialEq, Eq)]
pub struct InitializeRequestMethod;

/// The method tag `PingRequest`.
#[derive(Debug, Default, Clone, Copy, PartialEq, Eq)]
pub struct PingRequestMethod;

/// The method tag `ListToolsRequest`.
#[derive(Debug, Default, Clone, Copy, PartialEq, Eq)]
pub struct ListToolsRequestMethod;

/// The method tag `CallToolRequest`.
#[derive(Debug, Default, Clone, Copy, PartialEq, Eq)]
pub struct CallToolRequestMethod;

/// The method tag `ListPromptsRequest`.
#[derive(Debug, Default, Clone, Copy, PartialEq, Eq)]
pub struct ListPromptsRequestMethod;

/// The method tag `GetPromptRequest`.
#[derive(Debug, Default, Clone, Copy, PartialEq, Eq)]
pub struct GetPromptRequestMethod;

/// The method tag `ListResourcesRequest`.
#[derive(Debug, Default, Clone, Copy, PartialEq, Eq)]
pub struct ListResourcesRequestMethod;

/// The method tag `ReadResourceRequest`.
#[derive(Debug, Default, Clone, Copy, PartialEq, Eq)]
pub struct ReadResourceRequestMethod;

/// The method tag `ListRootsRequest`.
#[derive(Debug, Default, Clone, Copy, PartialEq, Eq)]
pub struct ListRootsRequestMethod;

/// The method tag `CancelledNotification`.
#[derive(Debug, Default, Clone, Copy, PartialEq, Eq)]
pub struct CancelledNotificationMethod;

/// The method tag `InitializedNotification`.
#[derive(Debug, Default, Clone, Copy, PartialEq, Eq)]
pub struct InitializedNotificationMethod;

/// The method tag `RootsListChangedNotification`.
#[derive(Debug, Default, Clone, Copy, PartialEq, Eq)]
pub struct RootsListChangedNotificationMethod;

/// The method tag `LoggingMessageNotification`.
#[derive(Debug, Default, Clone, Copy, PartialEq, Eq)]
pub struct LoggingMessageNotificationMethod;

/// The method tag `ToolListChangedNotification`.
#[derive(Debug, Default, Clone, Copy, PartialEq, Eq)]
pub struct ToolListChangedNotificationMethod;


/// Parameters of a paginated listing: where to resume.
#[derive(Debug, Clone, PartialEq, Eq)]
pub struct PaginatedRequestParams {
    pub cursor: Option<String>,
}

impl PaginatedRequestParams {
    /// Whether these are the default parameters (no cursor).
    pub fn is_default(&self) -> (b: bool)
        ensures
            b == (self.cursor is None),
    {
        self.cursor.is_none()
    }
}

impl Default for PaginatedRequestParams {
    fn default() -> (p: PaginatedRequestParams)
        ensures
            p.cursor is None,
    {
        PaginatedRequestParams { cursor: None }
    }
}

/// Parameters of a tool call: the tool's name and its JSON arguments.
#[derive(Debug, Clone, PartialEq, Eq)]
pub struct CallToolRequestParams {
    pub name: String,
    pub arguments: Option<String>,
}

/// Parameters of a prompt request: the prompt's name and its JSON arguments.
#[derive(Debug, Clone, PartialEq, Eq)]
pub struct GetPromptRequestParams {
    pub name: String,
    pub arguments: Option<String>,
}

/// Parameters of a resource read: the resource's URI.
#[derive(Debug, Clone, PartialEq, Eq)]
pub struct ReadResourceRequestParams {
    pub uri: String,
}

/// Parameters of a cancellation: the request to cancel and an optional reason.
#[derive(Debug, Clone, PartialEq, Eq)]
pub struct CancelledNotificationParam {
    pub request_id: RequestId,
    pub reason: Option<String>,
}

impl CancelledNotificationParam {
    /// A copy of the parameters.
    pub fn duplicate(&self) -> (r: CancelledNotificationParam)
        ensures
            r == *self,
    {
        CancelledNotificationParam {
            request_id: self.request_id.duplicate(),
            reason: copy_text_option(&self.reason),
        }
    }
}

/// Parameters of a log message: its level and its JSON data.
#[derive(Debug, Clone, PartialEq, Eq)]
pub struct LoggingMessageNotificationParam {
    pub level: String,
    pub data: String,
}

/// A request with parameters.
#[derive(Debug, Clone, PartialEq, Eq)]
pub struct Request<M, P> {
    pub method: M,
    pub params: P,
    pub extensions: Extensions,
}

/// A request whose parameters may be left out.
#[derive(Debug, Clone, PartialEq, Eq)]
pub struct RequestOptionalParam<M, P> {
    pub method: M,
    pub params: Option<P>,
    pub extensions: Extensions,
}

/// A request without parameters.
#[derive(Debug, Clone, PartialEq, Eq)]
pub struct RequestNoParam<M> {
    pub method: M,
    pub extensions: Extensions,
}

/// A notification with parameters.
#[derive(Debug, Clone, PartialEq, Eq)]
pub struct Notification<M, P> {
    pub method: M,
    pub params: P,
    pub extensions: Extensions,
}

/// A notification without parameters.
#[derive(Debug, Clone, PartialEq, Eq)]
pub struct NotificationNoParam<M> {
    pub method: M,
    pub extensions: Extensions,
}

pub type InitializeRequest = Request<InitializeRequestMethod, InitializeRequestParams>;
pub type PingRequest = RequestNoParam<PingRequestMethod>;
pub type ListToolsRequest = RequestOptionalParam<ListToolsRequestMethod, PaginatedRequestParams>;
pub type CallToolRequest = Request<CallToolRequestMethod, CallToolRequestParams>;
pub type ListPromptsRequest = RequestOptionalParam<ListPromptsRequestMethod, PaginatedRequestParams>;
pub type GetPromptRequest = Request<GetPromptRequestMethod, GetPromptRequestParams>;
pub type ListResourcesRequest = RequestOptionalParam<ListResourcesRequestMethod, PaginatedRequestParams>;
pub type ReadResourceRequest = Request<ReadResourceRequestMethod, ReadResourceRequestParams>;
pub type ListRootsRequest = RequestNoParam<ListRootsRequestMethod>;
pub type CancelledNotification = Notification<CancelledNotificationMethod, CancelledNotificationParam>;
pub type InitializedNotification = NotificationNoParam<InitializedNotificationMethod>;
pub type RootsListChangedNotification = NotificationNoParam<RootsListChangedNotificationMethod>;
pub type LoggingMessageNotification = Notification<LoggingMessageNotificationMethod, LoggingMessageNotificationParam>;
pub type ToolListChangedNotification = NotificationNoParam<ToolListChangedNotificationMethod>;

/// Access to the extensions that a request or notification carries.
pub trait GetExtensions: Sized {
    /// The extensions the message carries.
    spec fn extensions_of(&self) -> Extensions;

    /// The same message carrying other extensions.
    spec fn with_extensions(self, e: Extensions) -> Self;

    fn extensions(&self) -> (e: &Extensions)
        ensures
            *e == self.extensions_of(),
    ;

    /// Takes the extensions out of the message, leaving empty ones.
    fn take_extensions(&mut self) -> (e: Extensions)
        ensures
            e == old(self).extensions_of(),
            final(self).extensions_of().is_empty(),
            *final(self) == old(self).with_extensions(final(self).extensions_of()),
    ;

    /// Takes the meta object out of the message, leaving an empty one.
    fn take_meta(&mut self) -> (m: Meta)
        ensures
            m == old(self).extensions_of().meta,
            final(self).extensions_of().meta.entries@.len() == 0,
            final(self).extensions_of().values == old(self).extensions_of().values,
            *final(self) == old(self).with_extensions(final(self).extensions_of()),
    ;
}

impl<M, P> GetExtensions for Request<M, P> {
    open spec fn extensions_of(&self) -> Extensions {
        self.extensions
    }

    open spec fn with_extensions(self, e: Extensions) -> Self {
        Request { method: self.method, params: self.params, extensions: e }
    }

    fn extensions(&self) -> (e: &Extensions) {
        &self.extensions
    }

    fn take_extensions(&mut self) -> (e: Extensions) {
        self.extensions.take()
    }

    fn take_meta(&mut self) -> (m: Meta) {
        self.extensions.take_meta()
    }
}

impl<M, P> GetExtensions for RequestOptionalParam<M, P> {
    open spec fn extensions_of(&self) -> Extensions {
        self.extensions
    }

    open spec fn with_extensions(self, e: Extensions) -> Self {
        RequestOptionalParam { method: self.method, params: self.params, extensions: e }
    }

    fn extensions(&self) -> (e: &Extensions) {
        &self.extensions
    }

    fn take_extensions(&mut self) -> (e: Extensions) {
        self.extensions.take()
    }

    fn take_meta(&mut self) -> (m: Meta) {
        self.extensions.take_meta()
    }
}

impl<M> GetExtensions for RequestNoParam<M> {
    open spec fn extensions_of(&self) -> Extensions {
        self.extensions
    }

    open spec fn with_extensions(self, e: Extensions) -> Self {
        RequestNoParam { method: self.method, extensions: e }
    }

    fn extensions(&self) -> (e: &Extensions) {
        &self.extensions
    }

    fn take_extensions(&mut self) -> (e: Extensions) {
        self.extensions.take()
    }

    fn take_meta(&mut self) -> (m: Meta) {
        self.extensions.take_meta()
    }
}

impl<M, P> GetExtensions for Notification<M, P> {
    open spec fn extensions_of(&self) -> Extensions {
        self.extensions
    }

    open spec fn with_extensions(self, e: Extensions) -> Self {
        Notification { method: self.method, params: self.params, extensions: e }
    }

    fn extensions(&self) -> (e: &Extensions) {
        &self.extensions
    }

    fn take_extensions(&mut self) -> (e: Extensions) {
        self.extensions.take()
    }

    fn take_meta(&mut self) -> (m: Meta) {
        self.extensions.take_meta()
    }
}

impl<M> GetExtensions for NotificationNoParam<M> {
    open spec fn extensions_of(&self) -> Extensions {
        self.extensions
    }

    open spec fn with_extensions(self, e: Extensions) -> Self {
        NotificationNoParam { method: self.method, extensions: e }
    }

    fn extensions(&self) -> (e: &Extensions) {
        &self.extensions
    }

    fn take_extensions(&mut self) -> (e: Extensions) {
        self.extensions.take()
    }

    fn take_meta(&mut self) -> (m: Meta) {
        self.extensions.take_meta()
    }
}

/// A request a client sends to a server.
#[derive(Debug, Clone, PartialEq, Eq)]
pub enum ClientRequest {
    InitializeRequest(InitializeRequest),
    PingRequest(PingRequest),
    ListToolsRequest(ListToolsRequest),
    CallToolRequest(CallToolRequest),
    ListPromptsRequest(ListPromptsRequest),
    GetPromptRequest(GetPromptRequest),
    ListResourcesRequest(ListResourcesRequest),
    ReadResourceRequest(ReadResourceRequest),
}

impl GetExtensions for ClientRequest {
    open spec fn extensions_of(&self) -> Extensions {
        match self {
            ClientRequest::InitializeRequest(r) => r.extensions_of(),
            ClientRequest::PingRequest(r) => r.extensions_of(),
            ClientRequest::ListToolsRequest(r) => r.extensions_of(),
            ClientRequest::CallToolRequest(r) => r.extensions_of(),
            ClientRequest::ListPromptsRequest(r) => r.extensions_of(),
            ClientRequest::GetPromptRequest(r) => r.extensions_of(),
            ClientRequest::ListResourcesRequest(r) => r.extensions_of(),
            ClientRequest::ReadResourceRequest(r) => r.extensions_of(),
        }
    }

    open spec fn with_extensions(self, e: Extensions) -> Self {
        match self {
            ClientRequest::InitializeRequest(r) => ClientRequest::InitializeRequest(r.with_extensions(e)),
            ClientRequest::PingRequest(r) => ClientRequest::PingRequest(r.with_extensions(e)),
            ClientRequest::ListToolsRequest(r) => ClientRequest::ListToolsRequest(r.with_extensions(e)),
            ClientRequest::CallToolRequest(r) => ClientRequest::CallToolRequest(r.with_extensions(e)),
            ClientRequest::ListPromptsRequest(r) => ClientRequest::ListPromptsRequest(r.with_extensions(e)),
            ClientRequest::GetPromptRequest(r) => ClientRequest::GetPromptRequest(r.with_extensions(e)),
            ClientRequest::ListResourcesRequest(r) => ClientRequest::ListResourcesRequest(r.with_extensions(e)),
            ClientRequest::ReadResourceRequest(r) => ClientRequest::ReadResourceRequest(r.with_extensions(e)),
        }
    }

    fn extensions(&self) -> (e: &Extensions) {
        match self {
            ClientRequest::InitializeRequest(r) => r.extensions(),
            ClientRequest::PingRequest(r) => r.extensions(),
            ClientRequest::ListToolsRequest(r) => r.extensions(),
            ClientRequest::CallToolRequest(r) => r.extensions(),
            ClientRequest::ListPromptsRequest(r) => r.extensions(),
            ClientRequest::GetPromptRequest(r) => r.extensions(),
            ClientRequest::ListResourcesRequest(r) => r.extensions(),
            ClientRequest::ReadResourceRequest(r) => r.extensions(),
        }
    }

    fn take_extensions(&mut self) -> (e: Extensions) {
        match self {
            ClientRequest::InitializeRequest(r) => r.take_extensions(),
            ClientRequest::PingRequest(r) => r.take_extensions(),
            ClientRequest::ListToolsRequest(r) => r.take_extensions(),
            ClientRequest::CallToolRequest(r) => r.take_extensions(),
            ClientRequest::ListPromptsRequest(r) => r.take_extensions(),
            ClientRequest::GetPromptRequest(r) => r.take_extensions(),
            ClientRequest::ListResourcesRequest(r) => r.take_extensions(),
            ClientRequest::ReadResourceRequest(r) => r.take_extensions(),
        }
    }

    fn take_meta(&mut self) -> (m: Meta) {
        match self {
            ClientRequest::InitializeRequest(r) => r.take_meta(),
            ClientRequest::PingRequest(r) => r.take_meta(),
            ClientRequest::ListToolsRequest(r) => r.take_meta(),
            ClientRequest::CallToolRequest(r) => r.take_meta(),
            ClientRequest::ListPromptsRequest(r) => r.take_meta(),
            ClientRequest::GetPromptRequest(r) => r.take_meta(),
            ClientRequest::ListResourcesRequest(r) => r.take_meta(),
            ClientRequest::ReadResourceRequest(r) => r.take_meta(),
        }
    }
}

/// A request a server sends to a client.
#[derive(Debug, Clone, PartialEq, Eq)]
pub enum ServerRequest {
    PingRequest(PingRequest),
    ListRootsRequest(ListRootsRequest),
}

impl GetExtensions for ServerRequest {
    open spec fn extensions_of(&self) -> Extensions {
        match self {
            ServerRequest::PingRequest(r) => r.extensions_of(),
            ServerRequest::ListRootsRequest(r) => r.extensions_of(),
        }
    }

    open spec fn with_extensions(self, e: Extensions) -> Self {
        match self {
            ServerRequest::PingRequest(r) => ServerRequest::PingRequest(r.with_extensions(e)),
            ServerRequest::ListRootsRequest(r) => ServerRequest::ListRootsRequest(r.with_extensions(e)),
        }
    }

    fn extensions(&self) -> (e: &Extensions) {
        match self {
            ServerRequest::PingRequest(r) => r.extensions(),
            ServerRequest::ListRootsRequest(r) => r.extensions(),
        }
    }

    fn take_extensions(&mut self) -> (e: Extensions) {
        match self {
            ServerRequest::PingRequest(r) => r.take_extensions(),
            ServerRequest::ListRootsRequest(r) => r.take_extensions(),
        }
    }

    fn take_meta(&mut self) -> (m: Meta) {
        match self {
            ServerRequest::PingRequest(r) => r.take_meta(),
            ServerRequest::ListRootsRequest(r) => r.take_meta(),
        }
    }
}

/// A notification a client sends to a server.
#[derive(Debug, Clone, PartialEq, Eq)]
pub enum ClientNotification {
    CancelledNotification(CancelledNotification),
    InitializedNotification(InitializedNotification),
    RootsListChangedNotification(RootsListChangedNotification),
}

impl GetExtensions for ClientNotification {
    open spec fn extensions_of(&self) -> Extensions {
        match self {
            ClientNotification::CancelledNotification(r) => r.extensions_of(),
            ClientNotification::InitializedNotification(r) => r.extensions_of(),
            ClientNotification::RootsListChangedNotification(r) => r.extensions_of(),
        }
    }

    open spec fn with_extensions(self, e: Extensions) -> Self {
        match self {
            ClientNotification::CancelledNotification(r) => ClientNotification::CancelledNotification(r.with_extensions(e)),
            ClientNotification::InitializedNotification(r) => ClientNotification::InitializedNotification(r.with_extensions(e)),
            ClientNotification::RootsListChangedNotification(r) => ClientNotification::RootsListChangedNotification(r.with_extensions(e)),
        }
    }

    fn extensions(&self) -> (e: &Extensions) {
        match self {
            ClientNotification::CancelledNotification(r) => r.extensions(),
            ClientNotification::InitializedNotification(r) => r.extensions(),
            ClientNotification::RootsListChangedNotification(r) => r.extensions(),
        }
    }

    fn take_extensions(&mut self) -> (e: Extensions) {
        match self {
            ClientNotification::CancelledNotification(r) => r.take_extensions(),
            ClientNotification::InitializedNotification(r) => r.take_extensions(),
            ClientNotification::RootsListChangedNotification(r) => r.take_extensions(),
        }
    }

    fn take_meta(&mut self) -> (m: Meta) {
        match self {
            ClientNotification::CancelledNotification(r) => r.take_meta(),
            ClientNotification::InitializedNotification(r) => r.take_meta(),
            ClientNotification::RootsListChangedNotification(r) => r.take_meta(),
        }
    }
}

/// A notification a server sends to a client.
#[derive(Debug, Clone, PartialEq, Eq)]
pub enum ServerNotification {
    CancelledNotification(CancelledNotification),
    LoggingMessageNotification(LoggingMessageNotification),
    ToolListChangedNotification(ToolListChangedNotification),
}

impl GetExtensions for ServerNotification {
    open spec fn extensions_of(&self) -> Extensions {
        match self {
            ServerNotification::CancelledNotification(r) => r.extensions_of(),
            ServerNotification::LoggingMessageNotification(r) => r.extensions_of(),
            ServerNotification::ToolListChangedNotification(r) => r.extensions_of(),
        }
    }

    open spec fn with_extensions(self, e: Extensions) -> Self {
        match self {
            ServerNotification::CancelledNotification(r) => ServerNotification::CancelledNotification(r.with_extensions(e)),
            ServerNotification::LoggingMessageNotification(r) => ServerNotification::LoggingMessageNotification(r.with_extensions(e)),
            ServerNotification::ToolListChangedNotification(r) => ServerNotification::ToolListChangedNotification(r.with_extensions(e)),
        }
    }

    fn extensions(&self) -> (e: &Extensions) {
        match self {
            ServerNotification::CancelledNotification(r) => r.extensions(),
            ServerNotification::LoggingMessageNotification(r) => r.extensions(),
            ServerNotification::ToolListChangedNotification(r) => r.extensions(),
        }
    }

    fn take_extensions(&mut self) -> (e: Extensions) {
        match self {
            ServerNotification::CancelledNotification(r) => r.take_extensions(),
            ServerNotification::LoggingMessageNotification(r) => r.take_extensions(),
            ServerNotification::ToolListChangedNotification(r) => r.take_extensions(),
        }
    }

    fn take_meta(&mut self) -> (m: Meta) {
        match self {
            ServerNotification::CancelledNotification(r) => r.take_meta(),
            ServerNotification::LoggingMessageNotification(r) => r.take_meta(),
            ServerNotification::ToolListChangedNotification(r) => r.take_meta(),
        }
    }
}


impl ClientNotification {
    /// The parameters of the notification when it is a cancellation.
    pub open spec fn cancellation_of(&self) -> Option<CancelledNotificationParam> {
        match self {
            ClientNotification::CancelledNotification(n) => Some(n.params),
            _ => None,
        }
    }

    /// A copy of the cancellation parameters, when the notification is a cancellation.
    pub fn cancellation(&self) -> (p: Option<CancelledNotificationParam>)
        ensures
            p == self.cancellation_of(),
    {
        match self {
            ClientNotification::CancelledNotification(n) => Some(n.params.duplicate()),
            _ => None,
        }
    }
}

impl ServerNotification {
    /// The parameters of the notification when it is a cancellation.
    pub open spec fn cancellation_of(&self) -> Option<CancelledNotificationParam> {
        match self {
            ServerNotification::CancelledNotification(n) => Some(n.params),
            _ => None,
        }
    }

    /// A copy of the cancellation parameters, when the notification is a cancellation.
    pub fn cancellation(&self) -> (p: Option<CancelledNotificationParam>)
        ensures
            p == self.cancellation_of(),
    {
        match self {
            ServerNotification::CancelledNotification(n) => Some(n.params.duplicate()),
            _ => None,
        }
    }
}

/// Whether `b` is the client request `a` with at most its extensions changed:
/// the same kind of request, with the same method and parameters.
pub open spec fn client_request_same_apart_from_extensions(a: ClientRequest, b: ClientRequest) -> bool {
    match (a, b) {
        (ClientRequest::InitializeRequest(x), ClientRequest::InitializeRequest(y)) => x.method == y.method && x.params == y.params,
        (ClientRequest::PingRequest(x), ClientRequest::PingRequest(y)) => x.method == y.method,
        (ClientRequest::ListToolsRequest(x), ClientRequest::ListToolsRequest(y)) => x.method == y.method && x.params == y.params,
        (ClientRequest::CallToolRequest(x), ClientRequest::CallToolRequest(y)) => x.method == y.method && x.params == y.params,
        (ClientRequest::ListPromptsRequest(x), ClientRequest::ListPromptsRequest(y)) => x.method == y.method && x.params == y.params,
        (ClientRequest::GetPromptRequest(x), ClientRequest::GetPromptRequest(y)) => x.method == y.method && x.params == y.params,
        (ClientRequest::ListResourcesRequest(x), ClientRequest::ListResourcesRequest(y)) => x.method == y.method && x.params == y.params,
        (ClientRequest::ReadResourceRequest(x), ClientRequest::ReadResourceRequest(y)) => x.method == y.method && x.params == y.params,
        _ => false,
    }
}

/// Whether `b` is the server request `a` with at most its extensions changed.
pub open spec fn server_request_same_apart_from_extensions(a: ServerRequest, b: ServerRequest) -> bool {
    match (a, b) {
        (ServerRequest::PingRequest(x), ServerRequest::PingRequest(y)) => x.method == y.method,
        (ServerRequest::ListRootsRequest(x), ServerRequest::ListRootsRequest(y)) => x.method == y.method,
        _ => false,
    }
}

/// Whether `b` is the client notification `a` with at most its extensions
/// changed: the same kind of notification, with the same method and parameters.
pub open spec fn client_notification_same_apart_from_extensions(a: ClientNotification, b: ClientNotification) -> bool {
    match (a, b) {
        (ClientNotification::CancelledNotification(x), ClientNotification::CancelledNotification(y)) => x.method == y.method && x.params == y.params,
        (ClientNotification::InitializedNotification(x), ClientNotification::InitializedNotification(y)) => x.method == y.method,
        (ClientNotification::RootsListChangedNotification(x), ClientNotification::RootsListChangedNotification(y)) => x.method == y.method,
        _ => false,
    }
}

/// Whether `b` is the server notification `a` with at most its extensions changed.
pub open spec fn server_notification_same_apart_from_extensions(a: ServerNotification, b: ServerNotification) -> bool {
    match (a, b) {
        (ServerNotification::CancelledNotification(x), ServerNotification::CancelledNotification(y)) => x.method == y.method && x.params == y.params,
        (ServerNotification::LoggingMessageNotification(x), ServerNotification::LoggingMessageNotification(y)) => x.method == y.method && x.params == y.params,
        (ServerNotification::ToolListChangedNotification(x), ServerNotification::ToolListChangedNotification(y)) => x.method == y.method,
        _ => false,
    }
}

/// Giving a client request other extensions changes nothing else: it stays the
/// same kind of request with the same method and parameters, and carries
/// exactly the extensions given.
pub proof fn client_request_extensions_replace_only_extensions(x: ClientRequest, e: Extensions)
    ensures
        client_request_same_apart_from_extensions(x, x.with_extensions(e)),
        x.with_extensions(e).extensions_of() == e,
{
}

/// Giving a server request other extensions changes nothing else.
pub proof fn server_request_extensions_replace_only_extensions(x: ServerRequest, e: Extensions)
    ensures
        server_request_same_apart_from_extensions(x, x.with_extensions(e)),
        x.with_extensions(e).extensions_of() == e,
{
}

/// Giving a client notification other extensions changes nothing else: it
/// stays the same kind of notification with the same method and parameters,
/// and carries exactly the extensions given.
pub proof fn client_notification_extensions_replace_only_extensions(x: ClientNotification, e: Extensions)
    ensures
        client_notification_same_apart_from_extensions(x, x.with_extensions(e)),
        x.with_extensions(e).extensions_of() == e,
{
}

/// Giving a server notification other extensions changes nothing else.
pub proof fn server_notification_extensions_replace_only_extensions(x: ServerNotification, e: Extensions)
    ensures
        server_notification_same_apart_from_extensions(x, x.with_extensions(e)),
        x.with_extensions(e).extensions_of() == e,
{
}

/// The result of a request that returns nothing.
#[derive(Debug, Clone, Copy, PartialEq, Eq, Default)]
pub struct EmptyResult {}

/// A tool a server offers.
#[derive(Debug, Clone, PartialEq, Eq)]
pub struct Tool {
    pub name: String,
    pub description: Option<String>,
}

/// One page of a server's tools.
#[derive(Debug, Clone, PartialEq, Eq)]
pub struct ListToolsResult {
    pub tools: Vec<Tool>,
    pub next_cursor: Option<String>,
}

/// The outcome of a tool call: its content items and whether it failed.
#[derive(Debug, Clone, PartialEq, Eq)]
pub struct CallToolResult {
    pub content: Vec<String>,
    pub is_error: Option<bool>,
}

/// A prompt a server offers.
#[derive(Debug, Clone, PartialEq, Eq)]
pub struct Prompt {
    pub name: String,
    pub description: Option<String>,
}

/// One page of a server's prompts.
#[derive(Debug, Clone, PartialEq, Eq)]
pub struct ListPromptsResult {
    pub prompts: Vec<Prompt>,
    pub next_cursor: Option<String>,
}

/// A prompt's description and messages.
#[derive(Debug, Clone, PartialEq, Eq)]
pub struct GetPromptResult {
    pub description: Option<String>,
    pub messages: Vec<String>,
}

/// A resource a server offers.
#[derive(Debug, Clone, PartialEq, Eq)]
pub struct Resource {
    pub uri: String,
    pub name: String,
}

/// One page of a server's resources.
#[derive(Debug, Clone, PartialEq, Eq)]
pub struct ListResourcesResult {
    pub resources: Vec<Resource>,
    pub next_cursor: Option<String>,
}

/// The contents of a resource.
#[derive(Debug, Clone, PartialEq, Eq)]
pub struct ReadResourceResult {
    pub contents: Vec<String>,
}

/// A root a client exposes.
#[derive(Debug, Clone, PartialEq, Eq)]
pub struct Root {
    pub uri: String,
    pub name: Option<String>,
}

/// The roots a client exposes.
#[derive(Debug, Clone, PartialEq, Eq)]
pub struct ListRootsResult {
    pub roots: Vec<Root>,
}

/// A server's answer to a client request.
#[derive(Debug, Clone, PartialEq, Eq)]
pub enum ServerResult {
    InitializeResult(InitializeResult),
    EmptyResult(EmptyResult),
    ListToolsResult(ListToolsResult),
    CallToolResult(CallToolResult),
    ListPromptsResult(ListPromptsResult),
    GetPromptResult(GetPromptResult),
    ListResourcesResult(ListResourcesResult),
    ReadResourceResult(ReadResourceResult),
}

/// A client's answer to a server request.
#[derive(Debug, Clone, PartialEq, Eq)]
pub enum ClientResult {
    EmptyResult(EmptyResult),
    ListRootsResult(ListRootsResult),
}

/// A JSON-RPC request: an identifier and a request.
#[derive(Debug, Clone, PartialEq, Eq)]
pub struct JsonRpcRequest<R> {
    pub id: RequestId,
    pub request: R,
}

/// A JSON-RPC response: the identifier of the request it answers and a result.
#[derive(Debug, Clone, PartialEq, Eq)]
pub struct JsonRpcResponse<R> {
    pub id: RequestId,
    pub result: R,
}

/// A JSON-RPC notification.
#[derive(Debug, Clone, PartialEq, Eq)]
pub struct JsonRpcNotification<N> {
    pub notification: N,
}

/// A JSON-RPC error answer: the identifier of the request it answers and the error.
#[derive(Debug, Clone, PartialEq, Eq)]
pub struct JsonRpcError {
    pub id: RequestId,
    pub error: ErrorData,
}

/// A JSON-RPC message: a request, a response, a notification or an error.
#[derive(Debug, Clone, PartialEq, Eq)]
pub enum JsonRpcMessage<Req, Resp, Not> {
    Request(JsonRpcRequest<Req>),
    Response(JsonRpcResponse<Resp>),
    Notification(JsonRpcNotification<Not>),
    Error(JsonRpcError),
}

/// A message a client sends.
pub type ClientJsonRpcMessage = JsonRpcMessage<ClientRequest, ClientResult, ClientNotification>;

/// A message a server sends.
pub type ServerJsonRpcMessage = JsonRpcMessage<ServerRequest, ServerResult, ServerNotification>;

impl<Req, Resp, Not> JsonRpcMessage<Req, Resp, Not> {
    /// A request message.
    pub fn request(request: Req, id: RequestId) -> (m: Self)
        ensures
            m == JsonRpcMessage::<Req, Resp, Not>::Request(JsonRpcRequest { id, request }),
    {
        JsonRpcMessage::Request(JsonRpcRequest { id, request })
    }

    /// A response message.
    pub fn response(result: Resp, id: RequestId) -> (m: Self)
        ensures
            m == JsonRpcMessage::<Req, Resp, Not>::Response(JsonRpcResponse { id, result }),
    {
        JsonRpcMessage::Response(JsonRpcResponse { id, result })
    }

    /// A notification message.
    pub fn notification(notification: Not) -> (m: Self)
        ensures
            m == JsonRpcMessage::<Req, Resp, Not>::Notification(JsonRpcNotification { notification }),
    {
        JsonRpcMessage::Notification(JsonRpcNotification { notification })
    }

    /// An error message.
    pub fn error(error: ErrorData, id: RequestId) -> (m: Self)
        ensures
            m == JsonRpcMessage::<Req, Resp, Not>::Error(JsonRpcError { id, error }),
    {
        JsonRpcMessage::Error(JsonRpcError { id, error })
    }

    /// The request and its identifier, when the message is a request.
    pub fn into_request(self) -> (r: Option<(Req, RequestId)>)
        ensures
            match self {
                JsonRpcMessage::Request(req) => r == Some((req.request, req.id)),
                _ => r is None,
            },
    {
        match self {
            JsonRpcMessage::Request(req) => Some((req.request, req.id)),
            _ => None,
        }
    }

    /// The notification, when the message is a notification.
    pub fn into_notification(self) -> (n: Option<Not>)
        ensures
            match self {
                JsonRpcMessage::Notification(not) => n == Some(not.notification),
                _ => n is None,
            },
    {
        match self {
            JsonRpcMessage::Notification(not) => Some(not.notification),
            _ => None,
        }
    }
}

} // verus!
