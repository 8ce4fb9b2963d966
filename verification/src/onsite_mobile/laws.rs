//! Properties of the on-site client's WebSocket client across its steps.

use vstd::prelude::*;
use crate::client_link::ServerPayloadView;
use crate::onsite_mobile::ws_client::{
    closed_event, closed_state, disconnect_spec, heartbeat_spec, receive_spec, send_refusal, status_event,
    ClientStateView, HeartbeatStepView, PONG_DEADLINE_NANOS,
};
use crate::onsite_mobile::commands::connect_url_spec;
use crate::onsite_mobile::event::UiEventView;
use crate::models::enums::role_name;
use crate::models::payloads::{EchoPayloadView, PartnerStatusPayloadView, RegisterResponsePayloadView};
use crate::models::task_models::TaskDebugStateView;
use crate::outside::clock::uuid_text;
use crate::text::is_contiguous_part;

verus! {

/// A pong keeps the link alive: a heartbeat at the moment a pong arrived sends
/// the next ping where the link can send.
pub proof fn law_pong_keeps_the_link_alive(s: ClientStateView, now: i128)
    requires
        s.is_connected,
        s.send_channel_open,
    ensures
        heartbeat_spec(receive_spec(s, ServerPayloadView::Pong, now).0, now).1 is SendPing,
{
}

/// A silence longer than the pong deadline loses the link: the heartbeat
/// reports the loss and ends, and from then on nothing is sent.
pub proof fn law_silence_loses_the_link(s: ClientStateView, now: i128, message_type: Seq<char>, message_id: Seq<char>)
    requires
        s.is_connected,
        s.last_pong_received_at matches Some(t) && now - t > PONG_DEADLINE_NANOS,
    ensures
        heartbeat_spec(s, now).1 == HeartbeatStepView::PongTimedOut(
            status_event(false, None, "与云端服务的心跳响应超时，连接可能已丢失。"@),
        ),
        !heartbeat_spec(s, now).0.is_connected,
        send_refusal(heartbeat_spec(s, now).0, message_type, message_id) is Some,
        heartbeat_spec(heartbeat_spec(s, now).0, now).1 is Stop,
{
}

/// Once the user disconnected, or the connection task ended, nothing more is
/// sent: messages are refused and the heartbeat stops.
pub proof fn law_nothing_is_sent_after_the_link_ends(
    s: ClientStateView,
    now: i128,
    message_type: Seq<char>,
    message_id: Seq<char>,
)
    ensures
        send_refusal(disconnect_spec(s), message_type, message_id) is Some,
        heartbeat_spec(disconnect_spec(s), now).1 is Stop,
        send_refusal(closed_state(s), message_type, message_id) is Some,
        heartbeat_spec(closed_state(s), now).1 is Stop,
{
}

/// The cached task state is the last one the cloud pushed: a pushed state
/// replaces it, and no other message changes it.
pub proof fn law_cache_holds_the_last_pushed_state(
    s: ClientStateView,
    payload: ServerPayloadView,
    now: i128,
)
    ensures
        payload matches ServerPayloadView::TaskStateUpdate(Ok(st)) ==> receive_spec(s, payload, now).0.local_task_state_cache
            == Some(st),
        !(payload matches ServerPayloadView::TaskStateUpdate(Ok(_))) ==> receive_spec(
            s,
            payload,
            now,
        ).0.local_task_state_cache == s.local_task_state_cache,
{
}

/// A partner-status notice is passed on to the front end as it came: one
/// event that says the same partner (its role's name and its id's text) went
/// online or offline exactly as the notice says, in the notice's group; the
/// client's own state stays as it was.
pub proof fn law_partner_status_is_passed_on(s: ClientStateView, p: PartnerStatusPayloadView, now: i128)
    ensures
        ({
            let (s2, events) = receive_spec(s, ServerPayloadView::PartnerStatusUpdate(Ok(p)), now);
            &&& s2 == s
            &&& events.len() == 1
            &&& events[0] matches UiEventView::PartnerStatus(e) && e.is_online == p.is_online
                && e.partner_role == role_name(p.partner_role) && e.partner_client_id == Some(
                uuid_text(p.partner_client_id),
            ) && e.group_id == Some(p.group_id)
        }),
{
}

/// An echo answer is passed on with its content, and a pushed task state is
/// passed on as it came; neither touches anything but the cache.
pub proof fn law_echo_and_task_state_are_passed_on(
    s: ClientStateView,
    echo: EchoPayloadView,
    st: TaskDebugStateView,
    now: i128,
)
    ensures
        receive_spec(s, ServerPayloadView::Echo(Ok(echo)), now).0 == s,
        receive_spec(s, ServerPayloadView::Echo(Ok(echo)), now).1 == seq![UiEventView::EchoResponse(echo.content)],
        receive_spec(s, ServerPayloadView::TaskStateUpdate(Ok(st)), now).1 == seq![
            UiEventView::LocalTaskStateUpdated(st),
        ],
{
}

/// A registration answer is reported with its outcome and message: an
/// accepted one keeps the assigned id and reports it together with the group;
/// a refused one reports neither and leaves the client as it was.
pub proof fn law_registration_answer_is_reported(s: ClientStateView, r: RegisterResponsePayloadView, now: i128)
    ensures
        ({
            let (s2, events) = receive_spec(s, ServerPayloadView::RegisterResponse(Ok(r)), now);
            &&& events.len() >= 1
            &&& events.last() matches UiEventView::RegistrationStatus(e) && e.success == r.success
                && e.message == r.message && (r.success ==> e.assigned_client_id == Some(
                uuid_text(r.assigned_client_id),
            ) && e.group_id == r.effective_group_id) && (!r.success ==> e.assigned_client_id is None
                && e.group_id is None)
            &&& r.success ==> s2.cloud_assigned_client_id == Some(r.assigned_client_id)
            &&& r.success ==> (events[0] matches UiEventView::ConnectionStatus(c) && c.connected
                && c.client_id == Some(uuid_text(r.assigned_client_id)))
            &&& !r.success ==> s2 == s && events.len() == 1
        }),
{
}

/// When a connection task ends, the front end hears of it exactly when the
/// attempt never connected or the client was connected until then: one
/// event saying it is no longer connected, with no client id, and the reason
/// given (or a default). Either way the client is left unconnected, without
/// a link or an assigned id.
pub proof fn law_losing_the_link_is_reported(
    s: ClientStateView,
    attempt_successful: bool,
    reason: Option<Seq<char>>,
)
    ensures
        (!attempt_successful || s.is_connected) ==> (closed_event(s, attempt_successful, reason) matches Some(
            e,
        ) && !e.connected && e.client_id is None && e.error_message == Some(
            match reason {
                Some(r) => r,
                None => "连接已关闭或意外断开"@,
            },
        )),
        (attempt_successful && !s.is_connected) ==> closed_event(s, attempt_successful, reason) is None,
        !closed_state(s).is_connected,
        !closed_state(s).send_channel_open,
        closed_state(s).cloud_assigned_client_id is None,
{
}

/// The connect command uses the address the caller gave, whatever the
/// configuration says; only without one does it take the configured address,
/// and where that cannot be had it fails, keeping the loader's reason.
pub proof fn law_given_url_wins(url: Option<Seq<char>>, configured: Result<Seq<char>, Seq<char>>)
    ensures
        url matches Some(u) ==> connect_url_spec(url, configured) == Ok::<Seq<char>, Seq<char>>(u),
        url is None ==> (configured matches Ok(c) ==> connect_url_spec(url, configured) == Ok::<
            Seq<char>,
            Seq<char>,
        >(c)),
        url is None ==> (configured matches Err(why) ==> (connect_url_spec(url, configured) matches Err(
            m,
        ) && is_contiguous_part(why, m))),
{
    if url is None {
        if let Err(why) = configured {
            let a = "[SatOnSiteMobile] 加载客户端配置 (WsClientConfig) 失败: "@;
            let b = "。请在调用时提供明确的 URL，或确保配置文件存在且有效。"@;
            let m = a + why + b;
            assert(m.subrange(a.len() as int, (a.len() + why.len()) as int) =~= why);
        }
    }
}

} // verus!
