//! Routes each message a client sends to the server: echo, heartbeat and
//! registration requests are answered; anything else gets an error reply.

use vstd::prelude::*;
use crate::cloud::connection_manager::{
    join_failure, join_spec, touch_spec, ConnectionManager,
    ConnectionManagerView,
};
use crate::cloud::outbox::{outbox_view, Outgoing, OutgoingView, ServerMessage, ServerMessageView};
use crate::models::payloads::{
    EchoPayload, EchoPayloadView, ErrorResponsePayload, ErrorResponsePayloadView, PingPayload,
    PongPayload, RegisterPayload, RegisterPayloadView, RegisterResponsePayload,
    RegisterResponsePayloadView, ECHO_MESSAGE_TYPE, PING_MESSAGE_TYPE, REGISTER_MESSAGE_TYPE,
};
use crate::outside::clock::current_time_nanos;
use crate::text::str_eq;

verus! {

/// How the server reads a message, by its type.
#[derive(Debug, Clone, Copy, PartialEq, Eq, Structural)]
pub enum MessageKind {
    Echo,
    Ping,
    Register,
    Unsupported,
}

/// The kind of a message type: the three that the server handles, or none.
pub open spec fn kind_of(message_type: Seq<char>) -> MessageKind {
    if message_type == ECHO_MESSAGE_TYPE@ {
        MessageKind::Echo
    } else if message_type == PING_MESSAGE_TYPE@ {
        MessageKind::Ping
    } else if message_type == REGISTER_MESSAGE_TYPE@ {
        MessageKind::Register
    } else {
        MessageKind::Unsupported
    }
}

/// Says how the server reads a message of the given type.
pub fn classify_message_type(message_type: &str) -> (k: MessageKind)
    ensures
        k == kind_of(message_type@),
{
    if str_eq(message_type, ECHO_MESSAGE_TYPE) {
        MessageKind::Echo
    } else if str_eq(message_type, PING_MESSAGE_TYPE) {
        MessageKind::Ping
    } else if str_eq(message_type, REGISTER_MESSAGE_TYPE) {
        MessageKind::Register
    } else {
        MessageKind::Unsupported
    }
}

/// A message's payload, decoded as its kind says: the decoded payload, or the
/// decoder's error text.
#[derive(Debug)]
pub enum InboundPayload {
    Echo(Result<EchoPayload, String>),
    Ping(Result<PingPayload, String>),
    Register(Result<RegisterPayload, String>),
    Unsupported,
}

/// Abstract value of an [`InboundPayload`]; of a heartbeat, only whether it decoded.
pub enum InboundView {
    Echo(Result<EchoPayloadView, Seq<char>>),
    Ping(bool),
    Register(Result<RegisterPayloadView, Seq<char>>),
    Unsupported,
}

impl View for InboundPayload {
    type V = InboundView;

    open spec fn view(&self) -> InboundView {
        match self {
            InboundPayload::Echo(Ok(p)) => InboundView::Echo(Ok(p@)),
            InboundPayload::Echo(Err(e)) => InboundView::Echo(Err(e@)),
            InboundPayload::Ping(r) => InboundView::Ping(r is Ok),
            InboundPayload::Register(Ok(p)) => InboundView::Register(Ok(p@)),
            InboundPayload::Register(Err(e)) => InboundView::Register(Err(e@)),
            InboundPayload::Unsupported => InboundView::Unsupported,
        }
    }
}

/// The kind of message a payload was decoded for.
pub open spec fn inbound_kind(payload: InboundView) -> MessageKind {
    match payload {
        InboundView::Echo(_) => MessageKind::Echo,
        InboundView::Ping(_) => MessageKind::Ping,
        InboundView::Register(_) => MessageKind::Register,
        InboundView::Unsupported => MessageKind::Unsupported,
    }
}

impl InboundPayload {
    /// The kind of message this payload was decoded for.
    pub fn kind(&self) -> (k: MessageKind)
        ensures
            k == inbound_kind(self@),
    {
        match self {
            InboundPayload::Echo(_) => MessageKind::Echo,
            InboundPayload::Ping(_) => MessageKind::Ping,
            InboundPayload::Register(_) => MessageKind::Register,
            InboundPayload::Unsupported => MessageKind::Unsupported,
        }
    }
}

/// The error text for an echo request whose payload did not decode.
pub open spec fn echo_error_text(e: Seq<char>) -> Seq<char> {
    "Echo (回声) 请求的负载 (payload) 格式无效: "@ + e
        + ". 请确保提供符合 EchoPayload 结构的JSON对象。"@
}

/// The reply text for a registration whose payload did not decode.
pub open spec fn register_parse_text(e: Seq<char>) -> Seq<char> {
    "无效的 Register (注册/加入组) 请求负载格式: "@ + e
        + ". 请确保提供符合 RegisterPayload 结构的JSON对象。"@
}

/// The error text for a message type that the server does not handle.
pub open spec fn unsupported_text(message_type: Seq<char>) -> Seq<char> {
    "服务器不支持消息类型 '"@ + message_type + "'，或者该类型当前未实现处理逻辑。"@
}

/// A message to `client_id`.
pub open spec fn reply(client_id: u128, m: ServerMessageView) -> OutgoingView {
    OutgoingView { recipient: client_id, message: m }
}

/// The registration reply, whether the registration succeeded or not.
pub open spec fn flatten(r: Result<RegisterResponsePayloadView, RegisterResponsePayloadView>) -> RegisterResponsePayloadView {
    match r {
        Ok(p) => p,
        Err(p) => p,
    }
}

/// What handling one message from `client_id` at `now` does: the client is
/// marked as heard from; an echo is sent back, a heartbeat answered with a pong
/// (an undecodable heartbeat gets no answer), a registration performed and
/// answered after the partner notices it owes; an undecodable echo, an
/// undecodable registration and an unsupported type are answered with an error.
pub open spec fn route_spec(
    s: ConnectionManagerView,
    client_id: u128,
    message_type: Seq<char>,
    payload: InboundView,
    now: i128,
) -> (ConnectionManagerView, Seq<OutgoingView>) {
    let s1 = touch_spec(s, client_id, now);
    match payload {
        InboundView::Echo(Ok(p)) => (s1, seq![reply(client_id, ServerMessageView::Echo(p))]),
        InboundView::Echo(Err(e)) => (
            s1,
            seq![
                reply(
                    client_id,
                    ServerMessageView::ErrorResponse(
                        ErrorResponsePayloadView {
                            original_message_type: Some(ECHO_MESSAGE_TYPE@),
                            error: echo_error_text(e),
                        },
                    ),
                ),
            ],
        ),
        InboundView::Ping(ok) => if ok {
            (s1, seq![reply(client_id, ServerMessageView::Pong)])
        } else {
            (s1, Seq::empty())
        },
        InboundView::Register(Ok(p)) => {
            let (s2, notes, r) = join_spec(s1, client_id, p, now);
            (s2, notes.push(reply(client_id, ServerMessageView::RegisterResponse(flatten(r)))))
        },
        InboundView::Register(Err(e)) => (
            s1,
            seq![
                reply(
                    client_id,
                    ServerMessageView::RegisterResponse(
                        join_failure(client_id, register_parse_text(e)),
                    ),
                ),
            ],
        ),
        InboundView::Unsupported => (
            s1,
            seq![
                reply(
                    client_id,
                    ServerMessageView::ErrorResponse(
                        ErrorResponsePayloadView {
                            original_message_type: Some(message_type),
                            error: unsupported_text(message_type),
                        },
                    ),
                ),
            ],
        ),
    }
}

/// Handles one message from `client_id` at time `now`: `message_type` is the
/// message's type and `payload` its payload, which must have been decoded as
/// [`classify_message_type`] says for that type. Replies and notices are
/// appended to `outbox`.
pub fn route_message(
    connection_manager: &mut ConnectionManager,
    client_id: u128,
    message_type: &str,
    payload: InboundPayload,
    now: i128,
    outbox: &mut Vec<Outgoing>,
)
    requires
        old(connection_manager).wf(),
        inbound_kind(payload@) == kind_of(message_type@),
    ensures
        final(connection_manager).wf(),
        final(connection_manager)@ == route_spec(
            old(connection_manager)@,
            client_id,
            message_type@,
            payload@,
            now,
        ).0,
        outbox_view(final(outbox)@) == outbox_view(old(outbox)@) + route_spec(
            old(connection_manager)@,
            client_id,
            message_type@,
            payload@,
            now,
        ).1,
{
    let ghost ob = outbox_view(outbox@);
    let ghost pv = payload@;
    let ghost expected = route_spec(old(connection_manager)@, client_id, message_type@, pv, now);
    connection_manager.touch_client(client_id, now);
    match payload {
        InboundPayload::Echo(Ok(p)) => {
            outbox.push(Outgoing { recipient: client_id, message: ServerMessage::Echo(p) });
        },
        InboundPayload::Echo(Err(e)) => {
            let mut text = "Echo (回声) 请求的负载 (payload) 格式无效: ".to_owned();
            text.append(e.as_str());
            text.append(". 请确保提供符合 EchoPayload 结构的JSON对象。");
            let p = ErrorResponsePayload {
                original_message_type: Some(ECHO_MESSAGE_TYPE.to_owned()),
                error: text,
            };
            outbox.push(Outgoing { recipient: client_id, message: ServerMessage::ErrorResponse(p) });
        },
        InboundPayload::Ping(r) => {
            if r.is_ok() {
                outbox.push(Outgoing { recipient: client_id, message: ServerMessage::Pong(PongPayload {}) });
            }
        },
        InboundPayload::Register(Ok(p)) => {
            let ghost j = join_spec(connection_manager@, client_id, p@, now);
            let r = connection_manager.join_group(client_id, p, now, outbox);
            let response = match r {
                Ok(x) => x,
                Err(x) => x,
            };
            outbox.push(
                Outgoing { recipient: client_id, message: ServerMessage::RegisterResponse(response) },
            );
            let ghost last = reply(client_id, ServerMessageView::RegisterResponse(flatten(j.2)));
            assert(expected.1 == j.1.push(last));
            assert(outbox_view(outbox@) =~= (ob + j.1).push(last));
            assert(outbox_view(outbox@) =~= ob + expected.1);
        },
        InboundPayload::Register(Err(e)) => {
            let mut text = "无效的 Register (注册/加入组) 请求负载格式: ".to_owned();
            text.append(e.as_str());
            text.append(". 请确保提供符合 RegisterPayload 结构的JSON对象。");
            let p = RegisterResponsePayload {
                success: false,
                message: Some(text),
                assigned_client_id: client_id,
                effective_group_id: None,
                effective_role: None,
            };
            outbox.push(
                Outgoing { recipient: client_id, message: ServerMessage::RegisterResponse(p) },
            );
        },
        InboundPayload::Unsupported => {
            let mut text = "服务器不支持消息类型 '".to_owned();
            text.append(message_type);
            text.append("'，或者该类型当前未实现处理逻辑。");
            let p = ErrorResponsePayload {
                original_message_type: Some(message_type.to_owned()),
                error: text,
            };
            outbox.push(Outgoing { recipient: client_id, message: ServerMessage::ErrorResponse(p) });
        },
    }
    assert(outbox_view(outbox@) =~= ob + expected.1);
}

/// Handles one message from `client_id`, marking the client as heard from at
/// the clock's time; otherwise as [`route_message`].
pub fn handle_message(
    connection_manager: &mut ConnectionManager,
    client_id: u128,
    message_type: &str,
    payload: InboundPayload,
    outbox: &mut Vec<Outgoing>,
)
    requires
        old(connection_manager).wf(),
        inbound_kind(payload@) == kind_of(message_type@),
    ensures
        final(connection_manager).wf(),
        exists|now: i128|
            {
                let (s, sent) = #[trigger] route_spec(
                    old(connection_manager)@,
                    client_id,
                    message_type@,
                    payload@,
                    now,
                );
                &&& final(connection_manager)@ == s
                &&& outbox_view(final(outbox)@) == outbox_view(old(outbox)@) + sent
            },
{
    let ghost pv = payload@;
    let now = current_time_nanos();
    route_message(connection_manager, client_id, message_type, payload, now, outbox);
    assert(connection_manager@ == route_spec(old(connection_manager)@, client_id, message_type@, pv, now).0);
}

} // verus!
