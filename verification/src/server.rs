//! The server builder and the server side of the MCP handshake.

use vstd::prelude::*;

use crate::layer::{identity_layer, stack_layers};
use crate::model::{
    ClientJsonRpcMessage, ClientNotification, ClientRequest, ClientInfo, InitializeResult,
    JsonRpcMessage, ProtocolVersion, ServerCapabilities, ServerInfo, ServerJsonRpcMessage,
    ServerResult, copy_text_option, latest_protocol_version,
};
use crate::service::role::TransportError;

verus! {

/// Builds an MCP server: what it announces and the tower layers its service
/// gets wrapped in.
///
/// `layer` stacks a new layer onto the layers added so far; when the stack is
/// applied to a service, the first layer added ends up outermost.
#[derive(Debug, Clone)]
pub struct McpServer<L = tower::layer::util::Identity> {
    info: ServerInfo,
    layer: L,
}

impl McpServer<tower::layer::util::Identity> {
    /// A server builder announcing `info`, without layers.
    pub fn new(info: ServerInfo) -> (s: McpServer<tower::layer::util::Identity>)
        ensures
            s.info_of() == info,
    {
        McpServer { info, layer: identity_layer() }
    }
}

impl<L> McpServer<L> {
    /// What the server announces.
    pub closed spec fn info_of(&self) -> ServerInfo {
        self.info
    }

    /// The layers added so far.
    pub closed spec fn layers_of(&self) -> L {
        self.layer
    }

    /// The builder with `layer` stacked onto the layers added so far.
    pub fn layer<NewLayer>(self, layer: NewLayer) -> (s: McpServer<tower::layer::util::Stack<NewLayer, L>>)
        ensures
            s.info_of() == self.info_of(),
    {
        McpServer { info: self.info, layer: stack_layers(layer, self.layer) }
    }

    /// What the server announces.
    pub fn info(&self) -> (i: &ServerInfo)
        ensures
            *i == self.info_of(),
    {
        &self.info
    }

    /// The layers added so far.
    pub fn layers(&self) -> (l: &L)
        ensures
            *l == self.layers_of(),
    {
        &self.layer
    }

    /// Takes the builder apart into what the server announces and its layers.
    pub fn into_parts(self) -> (r: (ServerInfo, L))
        ensures
            r.0 == self.info_of(),
            r.1 == self.layers_of(),
    {
        (self.info, self.layer)
    }

    /// The server side of the handshake, for a server announcing what this builder announces.
    pub fn handshake(&self) -> (h: ServerHandshake)
        ensures
            h.info_of() == self.info_of(),
            h.phase_of() is AwaitInitialize,
    {
        ServerHandshake::new(self.info.duplicate())
    }
}

/// Why the server side of the handshake failed.
#[derive(Debug, PartialEq)]
pub enum ServerInitializeError {
    /// The first message was not an initialize request; it is kept here.
    ExpectedInitializeRequest(Option<ClientJsonRpcMessage>),
    /// The message after the initialize response was not the initialized
    /// notification; it is kept here.
    ExpectedInitializedNotification(Option<ClientJsonRpcMessage>),
    /// The client closed the connection while the server waited for the named message.
    ConnectionClosed(String),
    /// The transport failed while doing what `context` names.
    TransportError { error: TransportError, context: String },
}

/// Where the server side of the handshake stands.
#[derive(Debug, PartialEq)]
pub enum HandshakePhase {
    /// Waiting for the initialize request.
    AwaitInitialize,
    /// Waiting for the initialize response to be sent; the client announced `peer_info`.
    AwaitResponseSent { peer_info: ClientInfo },
    /// Waiting for the initialized notification; the client announced `peer_info`.
    AwaitInitialized { peer_info: ClientInfo },
    /// The handshake is over.
    Finished,
}

/// What the handshake is told.
#[derive(Debug, PartialEq)]
pub enum HandshakeEvent {
    /// The next message from the client, or `None` when the client closed the connection.
    Received(Option<ClientJsonRpcMessage>),
    /// The initialize response was sent, or the transport failed to send it.
    Sent(Result<(), TransportError>),
}

/// What the handshake asks for next.
#[derive(Debug, PartialEq)]
pub enum HandshakeStep {
    /// Receive the next message from the client.
    Receive,
    /// Send this message to the client.
    Send(ServerJsonRpcMessage),
    /// The handshake is over: what the client announced, or why it failed.
    Done(Result<Option<ClientInfo>, ServerInitializeError>),
}

/// Whether the handshake in `phase` takes `event`.
pub open spec fn takes(phase: HandshakePhase, event: HandshakeEvent) -> bool {
    match phase {
        HandshakePhase::AwaitInitialize => event is Received,
        HandshakePhase::AwaitResponseSent { .. } => event is Sent,
        HandshakePhase::AwaitInitialized { .. } => event is Received,
        HandshakePhase::Finished => false,
    }
}

/// Whether `r` is what the server answers to initialization when it announces `info`:
/// the latest protocol version, no capabilities, and the server's name, version
/// and instructions.
pub open spec fn is_initialize_answer(info: ServerInfo, r: InitializeResult) -> bool {
    &&& r.protocol_version.version@ == latest_protocol_version()
    &&& r.capabilities == (ServerCapabilities { logging: false, prompts: false, resources: false, tools: false })
    &&& r.server_info == info.server_info
    &&& r.instructions == info.instructions
}

/// Whether the error is the closed connection while waiting for `waited`.
pub open spec fn closed_while_waiting(e: ServerInitializeError, waited: Seq<char>) -> bool {
    e matches ServerInitializeError::ConnectionClosed(s) && s@ == waited
}

/// One step of the server side of the handshake: in `phase`, told `event`,
/// the handshake moves to `phase2` and asks for `step`.
pub open spec fn handshake_step_spec(
    info: ServerInfo,
    phase: HandshakePhase,
    event: HandshakeEvent,
    phase2: HandshakePhase,
    step: HandshakeStep,
) -> bool {
    match (phase, event) {
        (HandshakePhase::AwaitInitialize, HandshakeEvent::Received(None)) => {
            &&& phase2 is Finished
            &&& step matches HandshakeStep::Done(Err(e)) && closed_while_waiting(e, "initialize request"@)
        },
        (HandshakePhase::AwaitInitialize, HandshakeEvent::Received(Some(m))) => match m {
            JsonRpcMessage::Request(r) => match r.request {
                ClientRequest::InitializeRequest(init) => {
                    &&& phase2 == HandshakePhase::AwaitResponseSent { peer_info: init.params }
                    &&& step matches HandshakeStep::Send(JsonRpcMessage::Response(resp))
                    &&& resp.id == r.id
                    &&& resp.result matches ServerResult::InitializeResult(answer)
                    &&& is_initialize_answer(info, answer)
                },
                _ => phase2 is Finished && step == HandshakeStep::Done(
                    Err(ServerInitializeError::ExpectedInitializeRequest(Some(m))),
                ),
            },
            _ => phase2 is Finished && step == HandshakeStep::Done(
                Err(ServerInitializeError::ExpectedInitializeRequest(Some(m))),
            ),
        },
        (HandshakePhase::AwaitResponseSent { peer_info }, HandshakeEvent::Sent(result)) => match result {
            Ok(()) => phase2 == HandshakePhase::AwaitInitialized { peer_info } && step is Receive,
            Err(error) => {
                &&& phase2 is Finished
                &&& step matches HandshakeStep::Done(Err(ServerInitializeError::TransportError { error: e, context }))
                &&& e == error
                &&& context@ == "send initialize response"@
            },
        },
        (HandshakePhase::AwaitInitialized { peer_info }, HandshakeEvent::Received(None)) => {
            &&& phase2 is Finished
            &&& step matches HandshakeStep::Done(Err(e)) && closed_while_waiting(e, "initialized notification"@)
        },
        (HandshakePhase::AwaitInitialized { peer_info }, HandshakeEvent::Received(Some(m))) => {
            &&& phase2 is Finished
            &&& if m matches JsonRpcMessage::Notification(n) && n.notification is InitializedNotification {
                step == HandshakeStep::Done(Ok(Some(peer_info)))
            } else {
                step == HandshakeStep::Done(Err(ServerInitializeError::ExpectedInitializedNotification(Some(m))))
            }
        },
        _ => false,
    }
}

/// The server side of the MCP handshake: receive the initialize request,
/// answer it, then receive the initialized notification.
pub struct ServerHandshake {
    info: ServerInfo,
    phase: HandshakePhase,
}

impl ServerHandshake {
    /// What the server announces.
    pub closed spec fn info_of(&self) -> ServerInfo {
        self.info
    }

    /// Where the handshake stands.
    pub closed spec fn phase_of(&self) -> HandshakePhase {
        self.phase
    }

    /// A handshake for a server announcing `info`, waiting for the initialize request.
    pub fn new(info: ServerInfo) -> (h: ServerHandshake)
        ensures
            h.info_of() == info,
            h.phase_of() is AwaitInitialize,
    {
        ServerHandshake { info, phase: HandshakePhase::AwaitInitialize }
    }

    /// Whether the handshake takes a received message next.
    pub fn awaits_message(&self) -> (b: bool)
        ensures
            b == (self.phase_of() is AwaitInitialize || self.phase_of() is AwaitInitialized),
    {
        match self.phase {
            HandshakePhase::AwaitInitialize => true,
            HandshakePhase::AwaitInitialized { .. } => true,
            _ => false,
        }
    }

    /// Whether the handshake takes the outcome of a send next.
    pub fn awaits_send(&self) -> (b: bool)
        ensures
            b == (self.phase_of() is AwaitResponseSent),
    {
        match self.phase {
            HandshakePhase::AwaitResponseSent { .. } => true,
            _ => false,
        }
    }

    /// The answer to an initialize request `id`.
    fn initialize_response(&self, id: crate::model::RequestId) -> (m: ServerJsonRpcMessage)
        ensures
            m matches JsonRpcMessage::Response(resp) && resp.id == id
                && (resp.result matches ServerResult::InitializeResult(answer)
                && is_initialize_answer(self.info_of(), answer)),
    {
        let answer = InitializeResult {
            protocol_version: ProtocolVersion::default(),
            capabilities: ServerCapabilities::default(),
            server_info: self.info.server_info.duplicate(),
            instructions: copy_text_option(&self.info.instructions),
        };
        JsonRpcMessage::response(ServerResult::InitializeResult(answer), id)
    }

    /// Takes `event` and tells what to do next.
    pub fn on_event(&mut self, event: HandshakeEvent) -> (step: HandshakeStep)
        requires
            takes(old(self).phase_of(), event),
        ensures
            final(self).info_of() == old(self).info_of(),
            handshake_step_spec(old(self).info_of(), old(self).phase_of(), event, final(self).phase_of(), step),
    {
        let mut phase = HandshakePhase::Finished;
        std::mem::swap(&mut phase, &mut self.phase);
        match (phase, event) {
            (HandshakePhase::AwaitInitialize, HandshakeEvent::Received(None)) => {
                proof { reveal_strlit("initialize request"); }
                HandshakeStep::Done(Err(ServerInitializeError::ConnectionClosed(String::from_str("initialize request"))))
            },
            (HandshakePhase::AwaitInitialize, HandshakeEvent::Received(Some(m))) => {
                match m {
                    JsonRpcMessage::Request(r) => {
                        let crate::model::JsonRpcRequest { id, request } = r;
                        match request {
                            ClientRequest::InitializeRequest(init) => {
                                let response = self.initialize_response(id);
                                self.phase = HandshakePhase::AwaitResponseSent { peer_info: init.params };
                                HandshakeStep::Send(response)
                            },
                            other => HandshakeStep::Done(Err(ServerInitializeError::ExpectedInitializeRequest(
                                Some(JsonRpcMessage::request(other, id)),
                            ))),
                        }
                    },
                    other => HandshakeStep::Done(Err(ServerInitializeError::ExpectedInitializeRequest(Some(other)))),
                }
            },
            (HandshakePhase::AwaitResponseSent { peer_info }, HandshakeEvent::Sent(result)) => {
                match result {
                    Ok(()) => {
                        self.phase = HandshakePhase::AwaitInitialized { peer_info };
                        HandshakeStep::Receive
                    },
                    Err(error) => {
                        proof { reveal_strlit("send initialize response"); }
                        HandshakeStep::Done(Err(ServerInitializeError::TransportError {
                            error,
                            context: String::from_str("send initialize response"),
                        }))
                    },
                }
            },
            (HandshakePhase::AwaitInitialized { peer_info }, HandshakeEvent::Received(None)) => {
                proof { reveal_strlit("initialized notification"); }
                HandshakeStep::Done(Err(ServerInitializeError::ConnectionClosed(String::from_str("initialized notification"))))
            },
            (HandshakePhase::AwaitInitialized { peer_info }, HandshakeEvent::Received(Some(m))) => {
                match m {
                    JsonRpcMessage::Notification(n) => {
                        let crate::model::JsonRpcNotification { notification } = n;
                        match notification {
                            ClientNotification::InitializedNotification(_) => HandshakeStep::Done(Ok(Some(peer_info))),
                            other => HandshakeStep::Done(Err(ServerInitializeError::ExpectedInitializedNotification(
                                Some(JsonRpcMessage::notification(other)),
                            ))),
                        }
                    },
                    other => HandshakeStep::Done(Err(ServerInitializeError::ExpectedInitializedNotification(Some(other)))),
                }
            },
            _ => {
                HandshakeStep::Receive
            },
        }
    }
}

/// Whether the events are those of a successful handshake: an initialize
/// request announcing `peer_info`, the successful send of its answer, and the
/// initialized notification.
pub open spec fn is_successful_exchange(
    e1: HandshakeEvent,
    e2: HandshakeEvent,
    e3: HandshakeEvent,
    peer_info: ClientInfo,
) -> bool {
    &&& e1 matches HandshakeEvent::Received(Some(JsonRpcMessage::Request(r)))
        && (r.request matches ClientRequest::InitializeRequest(init) && init.params == peer_info)
    &&& e2 matches HandshakeEvent::Sent(Ok(_))
    &&& e3 matches HandshakeEvent::Received(Some(JsonRpcMessage::Notification(n)))
        && n.notification is InitializedNotification
}

/// The server side of the handshake succeeds exactly on the exchange the
/// protocol prescribes: an initialize request, its answer sent, then the
/// initialized notification; the client's announcement is the one in its
/// initialize request, and the answer carries the request's identifier and
/// the server's announcement. It never succeeds in fewer steps.
pub proof fn handshake_succeeds_exactly_on_the_protocol(
    info: ServerInfo,
    e1: HandshakeEvent,
    p1: HandshakePhase,
    s1: HandshakeStep,
    e2: HandshakeEvent,
    p2: HandshakePhase,
    s2: HandshakeStep,
    e3: HandshakeEvent,
    p3: HandshakePhase,
    s3: HandshakeStep,
    peer_info: ClientInfo,
)
    requires
        handshake_step_spec(info, HandshakePhase::AwaitInitialize, e1, p1, s1),
        !(s1 is Done) ==> handshake_step_spec(info, p1, e2, p2, s2),
        !(s1 is Done) && !(s2 is Done) ==> handshake_step_spec(info, p2, e3, p3, s3),
    ensures
        !(s1 matches HandshakeStep::Done(Ok(_))),
        !(s1 is Done) ==> !(s2 matches HandshakeStep::Done(Ok(_))),
        (!(s1 is Done) && !(s2 is Done) && s3 == HandshakeStep::Done(Ok(Some(peer_info))))
            <==> is_successful_exchange(e1, e2, e3, peer_info),
        is_successful_exchange(e1, e2, e3, peer_info) ==> (
            s1 matches HandshakeStep::Send(JsonRpcMessage::Response(resp))
                && (e1 matches HandshakeEvent::Received(Some(JsonRpcMessage::Request(r))) && resp.id == r.id)
                && (resp.result matches ServerResult::InitializeResult(answer) && is_initialize_answer(info, answer))
        ),
        !(s1 is Done) && !(s2 is Done) ==> p3 is Finished,
{
    if !(s1 is Done) && !(s2 is Done) && s3 == HandshakeStep::Done(Ok(Some(peer_info))) {
        assert(p1 is AwaitResponseSent);
        assert(p2 is AwaitInitialized);
        assert(e2 is Sent);
        assert(e3 is Received);
        assert(e1 is Received);
        assert(e2 matches HandshakeEvent::Sent(Ok(_)));
        assert(is_successful_exchange(e1, e2, e3, peer_info));
    }
    if is_successful_exchange(e1, e2, e3, peer_info) {
        assert(p1 == HandshakePhase::AwaitResponseSent { peer_info });
        assert(p2 == HandshakePhase::AwaitInitialized { peer_info });
        assert(s3 == HandshakeStep::Done(Ok(Some(peer_info))));
    }
}

} // verus!
