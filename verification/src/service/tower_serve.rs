//! The decisions of the server's service loop.
//!
//! The loop itself waits on the transport, on the peer handle's queue, on the
//! handlers' answers and on its send tasks; each thing it receives is a
//! [`LoopEvent`]. [`ServeLoop::handle_event`] decides what to do about it and
//! keeps track of two sets of request identifiers: the requests the server sent
//! whose answer is awaited, and the client's requests being handled.

use std::sync::Arc;

use vstd::prelude::*;

use crate::model::{
    CancelledNotificationParam, ClientJsonRpcMessage, ClientNotification, ClientRequest,
    ClientResult, ErrorData, Extensions, GetExtensions, JsonRpcError, JsonRpcMessage,
    JsonRpcNotification, JsonRpcRequest, JsonRpcResponse, Meta, RequestId, RequestIdValue,
    ServerInfo, ServerJsonRpcMessage, ServerNotification, ServerRequest, ServerResult,
    client_notification_extensions_replace_only_extensions, client_notification_same_apart_from_extensions,
    client_request_extensions_replace_only_extensions, client_request_same_apart_from_extensions,
    is_default_server_info,
};
use crate::service::id_set::IdSet;
use crate::service::message::{McpOutput, NotificationContext, RequestContext};
use crate::service::role::{QuitReason, RoleServer, ServiceError, TransportError};
use crate::service::tower_adapter::{ack_for_request_message, is_internal_error, new_async_lock};

verus! {

/// Something the service loop received.
#[derive(Debug, PartialEq)]
pub enum LoopEvent {
    /// The task sending the server's request `id` finished with `result`.
    RequestSent { id: RequestId, result: Result<(), TransportError> },
    /// The task sending a server notification finished with `result`;
    /// `cancellation` is what the notification cancelled, if it was a cancellation.
    NotificationSent { cancellation: Option<CancelledNotificationParam>, result: Result<(), TransportError> },
    /// A handler's answer, ready to go to the client.
    Answer(ServerJsonRpcMessage),
    /// The peer handle asks to send the request `request` as `id`.
    OutgoingRequest { id: RequestId, request: ServerRequest },
    /// The peer handle asks to send a notification.
    OutgoingNotification(ServerNotification),
    /// A message from the client.
    Received(ClientJsonRpcMessage),
    /// The client closed its input.
    InputClosed,
    /// The loop was cancelled.
    Cancelled,
    /// A send task could not be joined; the text is what the runtime reported.
    JoinFailed(String),
}

/// Something the service loop does.
#[derive(Debug, PartialEq)]
pub enum LoopAction {
    /// Send a handler's answer to the client.
    SendAnswer(ServerJsonRpcMessage),
    /// Keep the responder for the server's request `id` and send the request.
    SendRequest { id: RequestId, request: ServerRequest },
    /// Send a notification; `cancellation` is what it cancels, if it is a cancellation.
    SendNotification { notification: ServerNotification, cancellation: Option<CancelledNotificationParam> },
    /// Answer the responder of the server's request `id` with `outcome`, and forget it.
    Resolve { id: RequestId, outcome: Result<ClientResult, ServiceError> },
    /// Answer the responder that came with the finished notification.
    ReplyToNotifier(Result<(), ServiceError>),
    /// Cancel the handling of the client's request `id`, and forget its token.
    CancelHandling(RequestId),
    /// Hand the client's request `id` to the service, with its meta object and
    /// extensions as context, and keep a cancellation token for it.
    HandleRequest { id: RequestId, request: ClientRequest, meta: Meta, extensions: Extensions },
    /// Hand a client notification to the service, with its meta object and
    /// extensions as context.
    HandleNotification { notification: ClientNotification, meta: Meta, extensions: Extensions },
    /// Stop the loop.
    Stop(QuitReason),
}

/// How the context of a received request is taken out of it: the meta object
/// first, then the extensions (left without meta object).
pub open spec fn request_context_split(
    original: ClientRequest,
    rest: ClientRequest,
    meta: Meta,
    extensions: Extensions,
) -> bool {
    &&& meta == original.extensions_of().meta
    &&& extensions.values == original.extensions_of().values
    &&& extensions.meta.entries@.len() == 0
    &&& rest.extensions_of().is_empty()
    &&& rest == original.with_extensions(rest.extensions_of())
}

/// How the context of a received notification is taken out of it: the
/// extensions first, meta object included, then the meta object of what is
/// left, which is empty.
pub open spec fn notification_context_split(
    original: ClientNotification,
    rest: ClientNotification,
    meta: Meta,
    extensions: Extensions,
) -> bool {
    &&& extensions == original.extensions_of()
    &&& meta.entries@.len() == 0
    &&& rest.extensions_of().is_empty()
    &&& rest == original.with_extensions(rest.extensions_of())
}

/// The error a failed send turns into.
pub open spec fn send_outcome(result: Result<(), TransportError>) -> Result<(), ServiceError> {
    match result {
        Ok(()) => Ok(()),
        Err(e) => Err(ServiceError::TransportSend(e)),
    }
}

/// The identifier of the request an answer answers, if the message is an answer.
pub open spec fn answered_id(m: ServerJsonRpcMessage) -> Option<RequestId> {
    match m {
        JsonRpcMessage::Response(r) => Some(r.id),
        JsonRpcMessage::Error(e) => Some(e.id),
        _ => None,
    }
}

/// One step of the service loop: with `pending` the server's requests awaiting
/// an answer and `handling` the client's requests being handled, the loop
/// receives `event`, ends with `pending2` and `handling2`, and does `actions`.
pub open spec fn step_spec(
    pending: Set<RequestIdValue>,
    handling: Set<RequestIdValue>,
    event: LoopEvent,
    pending2: Set<RequestIdValue>,
    handling2: Set<RequestIdValue>,
    actions: Seq<LoopAction>,
) -> bool {
    match event {
        LoopEvent::RequestSent { id, result } => {
            &&& handling2 == handling
            &&& match result {
                Ok(()) => pending2 == pending && actions.len() == 0,
                Err(e) => {
                    &&& pending2 == pending.remove(id.value())
                    &&& actions == if pending.contains(id.value()) {
                        seq![LoopAction::Resolve { id, outcome: Err(ServiceError::TransportSend(e)) }]
                    } else {
                        Seq::<LoopAction>::empty()
                    }
                },
            }
        },
        LoopEvent::NotificationSent { cancellation, result } => {
            let reply = LoopAction::ReplyToNotifier(send_outcome(result));
            &&& handling2 == handling
            &&& match cancellation {
                Some(param) => {
                    &&& pending2 == pending.remove(param.request_id.value())
                    &&& actions == if pending.contains(param.request_id.value()) {
                        seq![reply, LoopAction::Resolve {
                            id: param.request_id,
                            outcome: Err(ServiceError::Cancelled { reason: param.reason }),
                        }]
                    } else {
                        seq![reply]
                    }
                },
                None => pending2 == pending && actions == seq![reply],
            }
        },
        LoopEvent::Answer(m) => {
            &&& pending2 == pending
            &&& match answered_id(m) {
                Some(id) => {
                    &&& handling2 == handling.remove(id.value())
                    &&& actions == if handling.contains(id.value()) {
                        seq![LoopAction::CancelHandling(id), LoopAction::SendAnswer(m)]
                    } else {
                        seq![LoopAction::SendAnswer(m)]
                    }
                },
                None => handling2 == handling && actions.len() == 0,
            }
        },
        LoopEvent::OutgoingRequest { id, request } => {
            &&& handling2 == handling
            &&& pending2 == pending.insert(id.value())
            &&& actions == seq![LoopAction::SendRequest { id, request }]
        },
        LoopEvent::OutgoingNotification(n) => {
            &&& handling2 == handling
            &&& pending2 == pending
            &&& actions == seq![LoopAction::SendNotification { notification: n, cancellation: n.cancellation_of() }]
        },
        LoopEvent::Received(m) => match m {
            JsonRpcMessage::Request(r) => {
                &&& pending2 == pending
                &&& handling2 == handling.insert(r.id.value())
                &&& actions.len() == 1
                &&& actions[0] matches LoopAction::HandleRequest { id, request, meta, extensions }
                    && id == r.id && request_context_split(r.request, request, meta, extensions)
            },
            JsonRpcMessage::Notification(n) => {
                let handled = actions.last();
                &&& pending2 == pending
                &&& handled matches LoopAction::HandleNotification { notification, meta, extensions }
                    && notification_context_split(n.notification, notification, meta, extensions)
                &&& match n.notification.cancellation_of() {
                    Some(param) => {
                        &&& handling2 == handling.remove(param.request_id.value())
                        &&& if handling.contains(param.request_id.value()) {
                            actions.len() == 2 && actions[0] == LoopAction::CancelHandling(param.request_id)
                        } else {
                            actions.len() == 1
                        }
                    },
                    None => handling2 == handling && actions.len() == 1,
                }
            },
            JsonRpcMessage::Response(r) => {
                &&& handling2 == handling
                &&& pending2 == pending.remove(r.id.value())
                &&& actions == if pending.contains(r.id.value()) {
                    seq![LoopAction::Resolve { id: r.id, outcome: Ok(r.result) }]
                } else {
                    Seq::<LoopAction>::empty()
                }
            },
            JsonRpcMessage::Error(e) => {
                &&& handling2 == handling
                &&& pending2 == pending.remove(e.id.value())
                &&& actions == if pending.contains(e.id.value()) {
                    seq![LoopAction::Resolve { id: e.id, outcome: Err(ServiceError::McpError(e.error)) }]
                } else {
                    Seq::<LoopAction>::empty()
                }
            },
        },
        LoopEvent::InputClosed => {
            pending2 == pending && handling2 == handling && actions == seq![LoopAction::Stop(QuitReason::Closed)]
        },
        LoopEvent::Cancelled => {
            pending2 == pending && handling2 == handling && actions == seq![LoopAction::Stop(QuitReason::Cancelled)]
        },
        LoopEvent::JoinFailed(text) => {
            pending2 == pending && handling2 == handling && actions == seq![LoopAction::Stop(QuitReason::JoinError(text))]
        },
    }
}

/// The bookkeeping of the server's service loop.
pub struct ServeLoop {
    pending: IdSet,
    handling: IdSet,
}

impl ServeLoop {
    /// The loop's sets are well formed.
    pub closed spec fn wf(&self) -> bool {
        self.pending.wf() && self.handling.wf()
    }

    /// The server's requests whose answer is awaited.
    pub closed spec fn pending_ids(&self) -> Set<RequestIdValue> {
        self.pending@
    }

    /// The client's requests being handled.
    pub closed spec fn handling_ids(&self) -> Set<RequestIdValue> {
        self.handling@
    }

    /// A loop that awaits no answer and handles no request.
    pub fn new() -> (l: ServeLoop)
        ensures
            l.wf(),
            l.pending_ids() == Set::<RequestIdValue>::empty(),
            l.handling_ids() == Set::<RequestIdValue>::empty(),
    {
        ServeLoop { pending: IdSet::new(), handling: IdSet::new() }
    }

    /// Whether an answer to the server's request `id` is awaited.
    pub fn is_pending(&self, id: &RequestId) -> (b: bool)
        ensures
            b == self.pending_ids().contains(id.value()),
    {
        self.pending.contains(id)
    }

    /// Whether the client's request `id` is being handled.
    pub fn is_handling(&self, id: &RequestId) -> (b: bool)
        ensures
            b == self.handling_ids().contains(id.value()),
    {
        self.handling.contains(id)
    }

    /// Decides what to do about `event`.
    pub fn handle_event(&mut self, event: LoopEvent) -> (actions: Vec<LoopAction>)
        requires
            old(self).wf(),
        ensures
            final(self).wf(),
            step_spec(
                old(self).pending_ids(),
                old(self).handling_ids(),
                event,
                final(self).pending_ids(),
                final(self).handling_ids(),
                actions@,
            ),
    {
        let mut actions: Vec<LoopAction> = Vec::new();
        match event {
            LoopEvent::RequestSent { id, result } => {
                match result {
                    Ok(()) => {},
                    Err(e) => {
                        if self.pending.remove(&id) {
                            actions.push(LoopAction::Resolve { id, outcome: Err(ServiceError::TransportSend(e)) });
                        }
                    },
                }
            },
            LoopEvent::NotificationSent { cancellation, result } => {
                let outcome = match result {
                    Ok(()) => Ok(()),
                    Err(e) => Err(ServiceError::TransportSend(e)),
                };
                actions.push(LoopAction::ReplyToNotifier(outcome));
                match cancellation {
                    Some(param) => {
                        let CancelledNotificationParam { request_id, reason } = param;
                        if self.pending.remove(&request_id) {
                            actions.push(LoopAction::Resolve {
                                id: request_id,
                                outcome: Err(ServiceError::Cancelled { reason }),
                            });
                        }
                    },
                    None => {},
                }
            },
            LoopEvent::Answer(m) => {
                let id = match &m {
                    JsonRpcMessage::Response(r) => Some(r.id.duplicate()),
                    JsonRpcMessage::Error(e) => Some(e.id.duplicate()),
                    _ => None,
                };
                match id {
                    Some(id) => {
                        if self.handling.remove(&id) {
                            actions.push(LoopAction::CancelHandling(id));
                        }
                        actions.push(LoopAction::SendAnswer(m));
                    },
                    None => {},
                }
            },
            LoopEvent::OutgoingRequest { id, request } => {
                self.pending.insert(id.duplicate());
                actions.push(LoopAction::SendRequest { id, request });
            },
            LoopEvent::OutgoingNotification(notification) => {
                let cancellation = notification.cancellation();
                actions.push(LoopAction::SendNotification { notification, cancellation });
            },
            LoopEvent::Received(m) => {
                match m {
                    JsonRpcMessage::Request(r) => {
                        let JsonRpcRequest { id, request } = r;
                        let mut request = request;
                        let meta = request.take_meta();
                        let extensions = request.take_extensions();
                        self.handling.insert(id.duplicate());
                        actions.push(LoopAction::HandleRequest { id, request, meta, extensions });
                    },
                    JsonRpcMessage::Notification(n) => {
                        let JsonRpcNotification { notification } = n;
                        let mut notification = notification;
                        match notification.cancellation() {
                            Some(param) => {
                                if self.handling.remove(&param.request_id) {
                                    actions.push(LoopAction::CancelHandling(param.request_id));
                                }
                            },
                            None => {},
                        }
                        let extensions = notification.take_extensions();
                        let meta = notification.take_meta();
                        actions.push(LoopAction::HandleNotification { notification, meta, extensions });
                    },
                    JsonRpcMessage::Response(r) => {
                        let JsonRpcResponse { id, result } = r;
                        if self.pending.remove(&id) {
                            actions.push(LoopAction::Resolve { id, outcome: Ok(result) });
                        }
                    },
                    JsonRpcMessage::Error(e) => {
                        let JsonRpcError { id, error } = e;
                        if self.pending.remove(&id) {
                            actions.push(LoopAction::Resolve { id, outcome: Err(ServiceError::McpError(error)) });
                        }
                    },
                }
            },
            LoopEvent::InputClosed => {
                actions.push(LoopAction::Stop(QuitReason::Closed));
            },
            LoopEvent::Cancelled => {
                actions.push(LoopAction::Stop(QuitReason::Cancelled));
            },
            LoopEvent::JoinFailed(text) => {
                actions.push(LoopAction::Stop(QuitReason::JoinError(text)));
            },
        }
        proof {
            assert(actions@.len() == 0 ==> actions@ =~= Seq::<LoopAction>::empty());
            assert(actions@.len() == 1 ==> actions@ =~= seq![actions@[0]]);
            assert(actions@.len() == 2 ==> actions@ =~= seq![actions@[0], actions@[1]]);
        }
        actions
    }
}

/// The message the loop sends for the client's request `id`, given `outcome`:
/// what the service gave for it, or the text of the service's error.
pub open spec fn reply_spec(id: RequestId, outcome: Result<McpOutput<RoleServer>, String>, m: ServerJsonRpcMessage) -> bool {
    match outcome {
        Err(text) => m matches JsonRpcMessage::Error(e) && e.id == id && is_internal_error(e.error, text@),
        Ok(McpOutput::Response { result, .. }) => match result {
            Ok(r) => m == JsonRpcMessage::<ServerRequest, crate::model::ServerResult, ServerNotification>::Response(
                JsonRpcResponse { id, result: r },
            ),
            Err(error) => m == JsonRpcMessage::<ServerRequest, crate::model::ServerResult, ServerNotification>::Error(
                JsonRpcError { id, error },
            ),
        },
        Ok(McpOutput::Ack) => m matches JsonRpcMessage::Error(e) && e.id == id && is_internal_error(
            e.error,
            ack_for_request_message(),
        ),
    }
}

/// The message that answers the client's request `id`, given `outcome`: what
/// the service gave for it, or the text of the service's error. The answer
/// always carries `id`, even when the service's response names another request.
pub fn reply_for_request(id: RequestId, outcome: Result<McpOutput<RoleServer>, String>) -> (m: ServerJsonRpcMessage)
    ensures
        reply_spec(id, outcome, m),
{
    match outcome {
        Err(text) => JsonRpcMessage::error(ErrorData::internal_error(text.as_str(), None), id),
        Ok(McpOutput::Response { id: _, result }) => match result {
            Ok(r) => JsonRpcMessage::response(r, id),
            Err(error) => JsonRpcMessage::error(error, id),
        },
        Ok(McpOutput::Ack) => {
            proof { reveal_strlit("Received Ack for a request"); }
            JsonRpcMessage::error(ErrorData::internal_error("Received Ack for a request", None), id)
        },
    }
}

/// The number of actions that answer the responder of the server's request `v`.
pub open spec fn resolutions_of(actions: Seq<LoopAction>, v: RequestIdValue) -> nat
    decreases actions.len(),
{
    if actions.len() == 0 {
        0
    } else {
        resolutions_of(actions.drop_last(), v) + if actions.last() matches LoopAction::Resolve { id, .. } && id.value() == v {
            1nat
        } else {
            0nat
        }
    }
}

/// Whether the event asks to send a server request `v`.
pub open spec fn registers(event: LoopEvent, v: RequestIdValue) -> bool {
    event matches LoopEvent::OutgoingRequest { id, .. } && id.value() == v
}

/// One for a member, zero otherwise.
pub open spec fn indicator(s: Set<RequestIdValue>, v: RequestIdValue) -> nat {
    if s.contains(v) { 1 } else { 0 }
}

/// A run of the loop: `events` received one after the other, with the sets
/// before and after each step and the actions of each step.
pub open spec fn is_run(
    pending: Seq<Set<RequestIdValue>>,
    handling: Seq<Set<RequestIdValue>>,
    events: Seq<LoopEvent>,
    actions: Seq<Seq<LoopAction>>,
) -> bool {
    &&& pending.len() == events.len() + 1
    &&& handling.len() == events.len() + 1
    &&& actions.len() == events.len()
    &&& forall|k: int|
        0 <= k < events.len() ==> #[trigger] step_spec(
            pending[k],
            handling[k],
            events[k],
            pending[k + 1],
            handling[k + 1],
            actions[k],
        )
}

/// How many times a run answers the responder of the server's request `v`.
pub open spec fn run_resolutions(actions: Seq<Seq<LoopAction>>, v: RequestIdValue) -> nat
    decreases actions.len(),
{
    if actions.len() == 0 {
        0
    } else {
        run_resolutions(actions.drop_last(), v) + resolutions_of(actions.last(), v)
    }
}

/// How many times a run is asked to send a server request `v`.
pub open spec fn run_registrations(events: Seq<LoopEvent>, v: RequestIdValue) -> nat
    decreases events.len(),
{
    if events.len() == 0 {
        0
    } else {
        run_registrations(events.drop_last(), v) + if registers(events.last(), v) { 1nat } else { 0nat }
    }
}

proof fn resolutions_of_small(actions: Seq<LoopAction>, v: RequestIdValue)
    ensures
        actions.len() == 0 ==> resolutions_of(actions, v) == 0,
        actions.len() == 1 ==> resolutions_of(actions, v) == (if actions[0] matches LoopAction::Resolve { id, .. } && id.value() == v { 1nat } else { 0nat }),
        actions.len() == 2 ==> resolutions_of(actions, v) == (if actions[0] matches LoopAction::Resolve { id, .. } && id.value() == v { 1nat } else { 0nat })
            + (if actions[1] matches LoopAction::Resolve { id, .. } && id.value() == v { 1nat } else { 0nat }),
{
    reveal_with_fuel(resolutions_of, 3);
    if actions.len() == 1 {
        assert(actions.drop_last().len() == 0);
    }
    if actions.len() == 2 {
        assert(actions.drop_last().drop_last().len() == 0);
        assert(actions.drop_last().last() == actions[0]);
    }
}

/// In one step, the responder of the server's request `v` is answered only
/// if an answer to `v` was awaited, and then no answer to `v` is awaited
/// afterwards unless the same step asks to send `v` again; and `v` becomes
/// awaited only when the step asks to send it.
pub proof fn step_resolves_at_most_once(
    pending: Set<RequestIdValue>,
    handling: Set<RequestIdValue>,
    event: LoopEvent,
    pending2: Set<RequestIdValue>,
    handling2: Set<RequestIdValue>,
    actions: Seq<LoopAction>,
    v: RequestIdValue,
)
    requires
        step_spec(pending, handling, event, pending2, handling2, actions),
    ensures
        resolutions_of(actions, v) + indicator(pending2, v) <= indicator(pending, v) + if registers(event, v) { 1nat } else { 0nat },
{
    resolutions_of_small(actions, v);
    match event {
        LoopEvent::NotificationSent { cancellation, result } => {
            match cancellation {
                Some(param) => {
                    if pending.contains(param.request_id.value()) {
                        assert(actions[1] == LoopAction::Resolve {
                            id: param.request_id,
                            outcome: Err(ServiceError::Cancelled { reason: param.reason }),
                        });
                    }
                },
                None => {},
            }
        },
        LoopEvent::Received(m) => match m {
            JsonRpcMessage::Notification(n) => {
                match n.notification.cancellation_of() {
                    Some(param) => {
                        if handling.contains(param.request_id.value()) {
                            assert(actions.last() == actions[1]);
                        } else {
                            assert(actions.last() == actions[0]);
                        }
                    },
                    None => {
                        assert(actions.last() == actions[0]);
                    },
                }
            },
            _ => {},
        },
        _ => {},
    }
}

/// Over any run that starts awaiting no answer, the responder of each server
/// request is answered at most as many times as that request was sent: no
/// answer reaches a requester twice, and none reaches a request never sent.
pub proof fn run_resolves_each_request_at_most_once(
    pending: Seq<Set<RequestIdValue>>,
    handling: Seq<Set<RequestIdValue>>,
    events: Seq<LoopEvent>,
    actions: Seq<Seq<LoopAction>>,
    v: RequestIdValue,
)
    requires
        is_run(pending, handling, events, actions),
        pending[0] == Set::<RequestIdValue>::empty(),
    ensures
        run_resolutions(actions, v) + indicator(pending.last(), v) <= run_registrations(events, v),
    decreases events.len(),
{
    if events.len() > 0 {
        let n = events.len() - 1;
        let pending1 = pending.drop_last();
        let handling1 = handling.drop_last();
        let events1 = events.drop_last();
        let actions1 = actions.drop_last();
        assert forall|k: int| 0 <= k < events1.len() implies #[trigger] step_spec(
            pending1[k],
            handling1[k],
            events1[k],
            pending1[k + 1],
            handling1[k + 1],
            actions1[k],
        ) by {
            assert(step_spec(pending[k], handling[k], events[k], pending[k + 1], handling[k + 1], actions[k]));
        }
        run_resolves_each_request_at_most_once(pending1, handling1, events1, actions1, v);
        assert(step_spec(pending[n], handling[n], events[n], pending[n + 1], handling[n + 1], actions[n]));
        step_resolves_at_most_once(pending[n], handling[n], events[n], pending[n + 1], handling[n + 1], actions[n], v);
        assert(pending1.last() == pending[n]);
        assert(actions.last() == actions[n]);
        assert(events.last() == events[n]);
    } else {
        assert(pending.last() == pending[0]);
    }
}

/// The answer to a client request always carries that request's identifier.
pub proof fn reply_answers_the_request(id: RequestId, outcome: Result<McpOutput<RoleServer>, String>, m: ServerJsonRpcMessage)
    requires
        reply_spec(id, outcome, m),
    ensures
        answered_id(m) == Some(id),
{
}

/// A response or error from the client that answers no awaited request
/// changes nothing and leads to no action.
pub proof fn unawaited_answer_is_ignored(
    pending: Set<RequestIdValue>,
    handling: Set<RequestIdValue>,
    m: ClientJsonRpcMessage,
    pending2: Set<RequestIdValue>,
    handling2: Set<RequestIdValue>,
    actions: Seq<LoopAction>,
)
    requires
        step_spec(pending, handling, LoopEvent::Received(m), pending2, handling2, actions),
        match m {
            JsonRpcMessage::Response(r) => !pending.contains(r.id.value()),
            JsonRpcMessage::Error(e) => !pending.contains(e.id.value()),
            _ => false,
        },
    ensures
        pending2 == pending,
        handling2 == handling,
        actions.len() == 0,
{
    match m {
        JsonRpcMessage::Response(r) => {
            assert(pending.remove(r.id.value()) =~= pending);
        },
        JsonRpcMessage::Error(e) => {
            assert(pending.remove(e.id.value()) =~= pending);
        },
        _ => {},
    }
}

/// Only answers go from the handlers to the client: a request or a
/// notification handed to the loop as an answer is dropped.
pub proof fn only_answers_are_forwarded(
    pending: Set<RequestIdValue>,
    handling: Set<RequestIdValue>,
    m: ServerJsonRpcMessage,
    pending2: Set<RequestIdValue>,
    handling2: Set<RequestIdValue>,
    actions: Seq<LoopAction>,
)
    requires
        step_spec(pending, handling, LoopEvent::Answer(m), pending2, handling2, actions),
        answered_id(m) is None,
    ensures
        actions.len() == 0,
        pending2 == pending,
        handling2 == handling,
{
}

/// A client's cancellation of a request being handled cancels that handling
/// once, and the request is no longer being handled.
pub proof fn cancellation_stops_handling(
    pending: Set<RequestIdValue>,
    handling: Set<RequestIdValue>,
    n: ClientNotification,
    pending2: Set<RequestIdValue>,
    handling2: Set<RequestIdValue>,
    actions: Seq<LoopAction>,
)
    requires
        step_spec(pending, handling, LoopEvent::Received(JsonRpcMessage::Notification(JsonRpcNotification { notification: n })), pending2, handling2, actions),
        n.cancellation_of() matches Some(param) && handling.contains(param.request_id.value()),
    ensures
        actions[0] == LoopAction::CancelHandling(n.cancellation_of()->0.request_id),
        !handling2.contains(n.cancellation_of()->0.request_id.value()),
        actions.last() is HandleNotification,
{
}

/// An answer sent to the client ends the handling of the request it answers.
pub proof fn answer_ends_handling(
    pending: Set<RequestIdValue>,
    handling: Set<RequestIdValue>,
    m: ServerJsonRpcMessage,
    pending2: Set<RequestIdValue>,
    handling2: Set<RequestIdValue>,
    actions: Seq<LoopAction>,
)
    requires
        step_spec(pending, handling, LoopEvent::Answer(m), pending2, handling2, actions),
        answered_id(m) is Some,
    ensures
        !handling2.contains(answered_id(m)->0.value()),
        actions.last() == LoopAction::SendAnswer(m),
{
}

/// A request received from the client goes to the service as it came, apart
/// from its context: the same kind of request with the same method and
/// parameters, under the same identifier, with its meta object and custom
/// entries handed over as the context and none left on the request.
pub proof fn received_request_is_handed_on_unchanged(
    pending: Set<RequestIdValue>,
    handling: Set<RequestIdValue>,
    r: JsonRpcRequest<ClientRequest>,
    pending2: Set<RequestIdValue>,
    handling2: Set<RequestIdValue>,
    actions: Seq<LoopAction>,
)
    requires
        step_spec(pending, handling, LoopEvent::Received(JsonRpcMessage::Request(r)), pending2, handling2, actions),
    ensures
        actions.len() == 1,
        actions[0] matches LoopAction::HandleRequest { id, request, meta, extensions }
            && id == r.id
            && client_request_same_apart_from_extensions(r.request, request)
            && request.extensions_of().is_empty()
            && meta == r.request.extensions_of().meta
            && extensions.values == r.request.extensions_of().values,
{
    match actions[0] {
        LoopAction::HandleRequest { id, request, meta, extensions } => {
            client_request_extensions_replace_only_extensions(r.request, request.extensions_of());
        },
        _ => {},
    }
}

/// A notification received from the client goes to the service as it came,
/// apart from its context: the same kind of notification with the same method
/// and parameters, with its extensions handed over as the context.
pub proof fn received_notification_is_handed_on_unchanged(
    pending: Set<RequestIdValue>,
    handling: Set<RequestIdValue>,
    n: ClientNotification,
    pending2: Set<RequestIdValue>,
    handling2: Set<RequestIdValue>,
    actions: Seq<LoopAction>,
)
    requires
        step_spec(pending, handling, LoopEvent::Received(JsonRpcMessage::Notification(JsonRpcNotification { notification: n })), pending2, handling2, actions),
    ensures
        actions.last() matches LoopAction::HandleNotification { notification, meta, extensions }
            && client_notification_same_apart_from_extensions(n, notification)
            && notification.extensions_of().is_empty()
            && extensions == n.extensions_of(),
{
    match actions.last() {
        LoopAction::HandleNotification { notification, meta, extensions } => {
            client_notification_extensions_replace_only_extensions(n, notification.extensions_of());
        },
        _ => {},
    }
}

/// Once the send of a cancellation of a pending server request has finished,
/// whether or not it succeeded, the cancelled request is no longer awaited
/// and its requester is told it was cancelled, with the cancellation's
/// reason; other awaited requests stay awaited, and the notifier learns how
/// the send went.
pub proof fn sent_cancellation_resolves_the_request(
    pending: Set<RequestIdValue>,
    handling: Set<RequestIdValue>,
    param: CancelledNotificationParam,
    result: Result<(), TransportError>,
    pending2: Set<RequestIdValue>,
    handling2: Set<RequestIdValue>,
    actions: Seq<LoopAction>,
)
    requires
        step_spec(
            pending,
            handling,
            LoopEvent::NotificationSent { cancellation: Some(param), result },
            pending2,
            handling2,
            actions,
        ),
        pending.contains(param.request_id.value()),
    ensures
        !pending2.contains(param.request_id.value()),
        forall|w: RequestIdValue| w != param.request_id.value() ==> (pending2.contains(w) <==> pending.contains(w)),
        actions.contains(LoopAction::Resolve {
            id: param.request_id,
            outcome: Err(ServiceError::Cancelled { reason: param.reason }),
        }),
        actions.contains(LoopAction::ReplyToNotifier(match result {
            Ok(()) => Ok(()),
            Err(e) => Err(ServiceError::TransportSend(e)),
        })),
{
    assert(actions[1] == LoopAction::Resolve {
        id: param.request_id,
        outcome: Err(ServiceError::Cancelled { reason: param.reason }),
    });
    assert(actions[0] == LoopAction::ReplyToNotifier(send_outcome(result)));
}

/// The message of the error a wrapped service gives to a request handed to it
/// outside the service loop.
pub open spec fn wrapper_request_message() -> Seq<char> {
    "TowerServiceWrapper::handle_request should not be called"@
}

/// The message of the error a wrapped service gives to a notification handed to
/// it outside the service loop.
pub open spec fn wrapper_notification_message() -> Seq<char> {
    "TowerServiceWrapper::handle_notification should not be called"@
}

/// A tower-style service behind an asynchronous lock, shared by the service
/// loop, which hands it the client's messages, and the running server.
#[verifier::reject_recursive_types(S)]
pub struct TowerServiceWrapper<S> {
    inner: Arc<tokio::sync::Mutex<S>>,
}

impl<S> Clone for TowerServiceWrapper<S> {
    fn clone(&self) -> (w: Self)
        ensures
            w.lock_of() == self.lock_of(),
    {
        TowerServiceWrapper { inner: self.inner.clone() }
    }
}

impl<S> TowerServiceWrapper<S> {
    /// Puts `service` behind the lock.
    pub fn new(service: S) -> (w: Self) {
        TowerServiceWrapper { inner: Arc::new(new_async_lock(service)) }
    }

    /// The lock that holds the service.
    pub closed spec fn lock_of(&self) -> Arc<tokio::sync::Mutex<S>> {
        self.inner
    }

    /// The lock that holds the service.
    pub fn inner(&self) -> (l: &Arc<tokio::sync::Mutex<S>>)
        ensures
            *l == self.lock_of(),
    {
        &self.inner
    }

    /// A request handed to the wrapper itself, not through the service loop:
    /// refused with an internal error, since the loop alone hands requests on.
    pub fn handle_request(&self, request: ClientRequest, context: RequestContext<RoleServer>) -> (r: Result<ServerResult, ErrorData>)
        ensures
            r matches Err(e) && is_internal_error(e, wrapper_request_message()),
    {
        proof { reveal_strlit("TowerServiceWrapper::handle_request should not be called"); }
        Err(ErrorData::internal_error("TowerServiceWrapper::handle_request should not be called", None))
    }

    /// A notification handed to the wrapper itself, not through the service
    /// loop: refused with an internal error.
    pub fn handle_notification(
        &self,
        notification: ClientNotification,
        context: NotificationContext<RoleServer>,
    ) -> (r: Result<(), ErrorData>)
        ensures
            r matches Err(e) && is_internal_error(e, wrapper_notification_message()),
    {
        proof { reveal_strlit("TowerServiceWrapper::handle_notification should not be called"); }
        Err(ErrorData::internal_error("TowerServiceWrapper::handle_notification should not be called", None))
    }

    /// What the wrapper announces: the default server information, since the
    /// server's own announcement is made by the handshake.
    pub fn get_info(&self) -> (i: ServerInfo)
        ensures
            is_default_server_info(i),
    {
        ServerInfo::default()
    }
}

} // verus!
