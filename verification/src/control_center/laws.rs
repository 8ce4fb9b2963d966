//! Properties of the control center's WebSocket client across its steps.

use vstd::prelude::*;
use crate::client_link::ServerPayloadView;
use crate::control_center::ws_client::{
    closed_event, closed_state, disconnect_spec, heartbeat_spec, receive_spec, send_refusal,
    ClientStateView, HeartbeatStepView, PongStatus,
};
use crate::control_center::commands::connect_url_spec;
use crate::control_center::event::UiEventView;
use crate::models::enums::role_name;
use crate::models::payloads::PartnerStatusPayloadView;
use crate::outside::clock::uuid_text;
use crate::text::is_contiguous_part;
use crate::models::payloads::RegisterResponsePayloadView;

verus! {

/// A pong keeps the link alive: a heartbeat at the moment a pong arrived finds
/// the pong fresh and sends the next ping.
pub proof fn law_pong_keeps_the_link_fresh(s: ClientStateView, now: i128)
    requires
        s.is_connected,
    ensures
        heartbeat_spec(receive_spec(s, ServerPayloadView::Pong, now).0, now) == (HeartbeatStepView::SendPing {
            pong: PongStatus::Fresh,
            channel_open: s.send_channel_open,
        }),
{
}

/// Once the user disconnected, or the connection task ended, nothing more is
/// sent: messages are refused and the heartbeat stops.
pub proof fn law_nothing_is_sent_after_the_link_ends(s: ClientStateView, now: i128)
    ensures
        send_refusal(disconnect_spec(s)) is Some,
        heartbeat_spec(disconnect_spec(s), now) == HeartbeatStepView::Stop,
        send_refusal(closed_state(s)) is Some,
        heartbeat_spec(closed_state(s), now) == HeartbeatStepView::Stop,
{
}

/// An accepted registration leaves the client holding the id the cloud
/// assigned; a refused one changes nothing.
pub proof fn law_accepted_registration_assigns_the_id(
    s: ClientStateView,
    r: RegisterResponsePayloadView,
    now: i128,
)
    ensures
        r.success ==> receive_spec(s, ServerPayloadView::RegisterResponse(Ok(r)), now).0.cloud_assigned_client_id
            == Some(r.assigned_client_id),
        !r.success ==> receive_spec(s, ServerPayloadView::RegisterResponse(Ok(r)), now).0 == s,
{
}

/// The cached task state is the last one the cloud pushed: a pushed state
/// replaces it, and no other message changes it.
pub proof fn law_cache_holds_the_last_pushed_state(
    s: ClientStateView,
    payload: ServerPayloadView,
    now: i128,
)
    ensures
        payload matches ServerPayloadView::TaskStateUpdate(Ok(st)) ==> receive_spec(s, payload, now).0.local_task_state_cache
            == Some(st),
        !(payload matches ServerPayloadView::TaskStateUpdate(Ok(_))) ==> receive_spec(
            s,
            payload,
            now,
        ).0.local_task_state_cache == s.local_task_state_cache,
{
}

/// A partner-status notice is passed on to the front end as it came: one
/// event that says the same partner (its role's name and its id's text) went
/// online or offline exactly as the notice says, in the notice's group; the
/// client's own state stays as it was.
pub proof fn law_partner_status_is_passed_on(s: ClientStateView, p: PartnerStatusPayloadView, now: i128)
    ensures
        ({
            let (s2, events) = receive_spec(s, ServerPayloadView::PartnerStatusUpdate(Ok(p)), now);
            &&& s2 == s
            &&& events.len() == 1
            &&& events[0] matches UiEventView::PartnerStatus(e) && e.is_online == p.is_online
                && e.partner_role == role_name(p.partner_role) && e.partner_client_id == Some(
                uuid_text(p.partner_client_id),
            ) && e.group_id == Some(p.group_id)
        }),
{
}

/// A registration answer is reported with its outcome, message and group; an
/// accepted one is also reported as a connection status that names the
/// assigned id.
pub proof fn law_registration_answer_is_reported(s: ClientStateView, r: RegisterResponsePayloadView, now: i128)
    ensures
        ({
            let events = receive_spec(s, ServerPayloadView::RegisterResponse(Ok(r)), now).1;
            &&& events.len() >= 1
            &&& events.last() matches UiEventView::RegistrationStatus(e) && e.success == r.success
                && e.message == r.message && e.assigned_client_id == Some(uuid_text(r.assigned_client_id))
                && e.group_id == r.effective_group_id
            &&& r.success ==> (events[0] matches UiEventView::ConnectionStatus(c) && c.connected
                && c.client_id == Some(uuid_text(r.assigned_client_id)))
            &&& !r.success ==> events.len() == 1
        }),
{
}

/// When a connection task ends, the front end hears of it exactly when the
/// attempt never connected or the client was connected until then: one event
/// saying it is no longer connected, with no client id, and the reason given
/// (or a default). Either way the client is left unconnected, without a link
/// or an assigned id.
pub proof fn law_losing_the_link_is_reported(
    s: ClientStateView,
    attempt_successful: bool,
    reason: Option<Seq<char>>,
)
    ensures
        (!attempt_successful || s.is_connected) ==> (closed_event(s, attempt_successful, reason) matches Some(
            e,
        ) && !e.connected && e.client_id is None && e.error_message is Some),
        reason matches Some(r) ==> ((!attempt_successful || s.is_connected) ==> closed_event(
            s,
            attempt_successful,
            reason,
        )->0.error_message == Some(r)),
        (attempt_successful && !s.is_connected) ==> closed_event(s, attempt_successful, reason) is None,
        !closed_state(s).is_connected,
        !closed_state(s).send_channel_open,
        closed_state(s).cloud_assigned_client_id is None,
{
}

/// The connect command uses the address the caller gave, whatever the
/// configuration says; only without one does it take the configured address,
/// and where that cannot be had it fails, keeping the loader's reason.
pub proof fn law_given_url_wins(url: Option<Seq<char>>, configured: Result<Seq<char>, Seq<char>>)
    ensures
        url matches Some(u) ==> connect_url_spec(url, configured) == Ok::<Seq<char>, Seq<char>>(u),
        url is None ==> (configured matches Ok(c) ==> connect_url_spec(url, configured) == Ok::<
            Seq<char>,
            Seq<char>,
        >(c)),
        url is None ==> (configured matches Err(why) ==> (connect_url_spec(url, configured) matches Err(
            m,
        ) && is_contiguous_part(why, m))),
{
    if url is None {
        if let Err(why) = configured {
            let a = "[中心端通用命令] 加载客户端配置 (WsClientConfig) 失败: "@;
            let b = ". 请在调用时提供明确的 URL，或确保配置文件 'config/control_center_config.json' 存在且有效。"@;
            let m = a + why + b;
            assert(m.subrange(a.len() as int, (a.len() + why.len()) as int) =~= why);
        }
    }
}

} // verus!
