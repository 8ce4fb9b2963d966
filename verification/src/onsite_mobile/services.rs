//! The on-site client's task-context service: which group and task the client
//! works on, the last task state pushed to it, and the events that server
//! messages call for. The connection loop runs outside the library and reports
//! each step here.

use vstd::prelude::*;
use crate::client_link::{ServerPayload, ServerPayloadView};
use crate::models::enums::ClientRole;
use crate::models::message::WsMessage;
use crate::models::task_models::{copy_opt_string, TaskDebugState, TaskDebugStateView};
use crate::onsite_mobile::events::{
    LocalTaskStateUpdatedEvent, WsPartnerStatusEvent, WsRegistrationStatusEvent,
    EVENT_LOCAL_TASK_STATE_UPDATED, EVENT_WS_PARTNER_STATUS, EVENT_WS_REGISTRATION_STATUS,
};
use crate::outside::formats::{parse_url, url_serialization};

verus! {

/// A request to the service's sending loop.
#[derive(Debug, Clone)]
pub enum WsRequest {
    /// Send this message to the cloud.
    SendMessage(WsMessage),
}

/// An event the service raises for the front end.
#[derive(Debug, Clone)]
pub enum ServiceEvent {
    RegistrationStatus(WsRegistrationStatusEvent),
    PartnerStatus(WsPartnerStatusEvent),
    LocalTaskStateUpdated(LocalTaskStateUpdatedEvent),
}

/// Abstract value of a [`ServiceEvent`].
pub enum ServiceEventView {
    RegistrationStatus {
        success: bool,
        message: Option<Seq<char>>,
        group_id: Option<Seq<char>>,
        task_id: Option<Seq<char>>,
    },
    PartnerStatus { partner_role: ClientRole, is_online: bool, group_id: Seq<char> },
    LocalTaskStateUpdated(TaskDebugStateView),
}

impl View for ServiceEvent {
    type V = ServiceEventView;

    open spec fn view(&self) -> ServiceEventView {
        match self {
            ServiceEvent::RegistrationStatus(e) => ServiceEventView::RegistrationStatus {
                success: e.success,
                message: e.message.deep_view(),
                group_id: e.group_id.deep_view(),
                task_id: e.task_id.deep_view(),
            },
            ServiceEvent::PartnerStatus(e) => ServiceEventView::PartnerStatus {
                partner_role: e.partner_role,
                is_online: e.is_online,
                group_id: e.group_id@,
            },
            ServiceEvent::LocalTaskStateUpdated(e) => ServiceEventView::LocalTaskStateUpdated(e.new_state@),
        }
    }
}

impl ServiceEvent {
    /// The name under which this event is raised.
    pub fn event_name(&self) -> (n: &'static str)
        ensures
            n@ == (match self@ {
                ServiceEventView::RegistrationStatus { .. } => EVENT_WS_REGISTRATION_STATUS@,
                ServiceEventView::PartnerStatus { .. } => EVENT_WS_PARTNER_STATUS@,
                ServiceEventView::LocalTaskStateUpdated(_) => EVENT_LOCAL_TASK_STATE_UPDATED@,
            }),
    {
        match self {
            ServiceEvent::RegistrationStatus(_) => EVENT_WS_REGISTRATION_STATUS,
            ServiceEvent::PartnerStatus(_) => EVENT_WS_PARTNER_STATUS,
            ServiceEvent::LocalTaskStateUpdated(_) => EVENT_LOCAL_TASK_STATE_UPDATED,
        }
    }
}

/// Abstract value of a [`WsService`].
pub struct WsServiceView {
    pub ws_url: Seq<char>,
    pub current_group_id: Option<Seq<char>>,
    pub current_task_id: Option<Seq<char>>,
    pub local_task_state: Option<TaskDebugStateView>,
    pub request_channel_open: bool,
    pub sink_open: bool,
}

/// What a message from the server does to the service. A registration answer
/// is passed on with the current task; on success with a group, that group
/// becomes the current one. A partner change is passed on. A task state
/// replaces the local one, its task becomes the current one, and it is passed
/// on. Anything else changes nothing.
pub open spec fn service_receive_spec(s: WsServiceView, payload: ServerPayloadView) -> (WsServiceView, Option<ServiceEventView>) {
    match payload {
        ServerPayloadView::RegisterResponse(Ok(r)) => {
            let s2 = if r.success && r.effective_group_id is Some {
                WsServiceView { current_group_id: r.effective_group_id, ..s }
            } else {
                s
            };
            (
                s2,
                Some(
                    ServiceEventView::RegistrationStatus {
                        success: r.success,
                        message: r.message,
                        group_id: r.effective_group_id,
                        task_id: s.current_task_id,
                    },
                ),
            )
        },
        ServerPayloadView::PartnerStatusUpdate(Ok(p)) => (
            s,
            Some(
                ServiceEventView::PartnerStatus {
                    partner_role: p.partner_role,
                    is_online: p.is_online,
                    group_id: p.group_id,
                },
            ),
        ),
        ServerPayloadView::TaskStateUpdate(Ok(st)) => (
            WsServiceView { local_task_state: Some(st), current_task_id: Some(st.task_id), ..s },
            Some(ServiceEventView::LocalTaskStateUpdated(st)),
        ),
        _ => (s, None),
    }
}

/// The on-site client's task-context service.
#[derive(Debug)]
pub struct WsService {
    ws_url: String,
    current_group_id: Option<String>,
    current_task_id: Option<String>,
    local_task_state: Option<TaskDebugState>,
    request_channel_open: bool,
    sink_open: bool,
}

impl View for WsService {
    type V = WsServiceView;

    closed spec fn view(&self) -> WsServiceView {
        WsServiceView {
            ws_url: self.ws_url@,
            current_group_id: self.current_group_id.deep_view(),
            current_task_id: self.current_task_id.deep_view(),
            local_task_state: match self.local_task_state {
                Some(st) => Some(st@),
                None => None,
            },
            request_channel_open: self.request_channel_open,
            sink_open: self.sink_open,
        }
    }
}

impl WsService {
    /// A service for the cloud at `ws_url_str`, which must be a URL that
    /// `url::Url::parse` accepts; the service keeps the parsed URL's text and
    /// starts with no context and no link.
    pub fn new(ws_url_str: &str) -> (s: Self)
        requires
            url_serialization(ws_url_str@) is Some,
        ensures
            s@ == (WsServiceView {
                ws_url: url_serialization(ws_url_str@)->0,
                current_group_id: None,
                current_task_id: None,
                local_task_state: None,
                request_channel_open: false,
                sink_open: false,
            }),
    {
        let url = match parse_url(ws_url_str) {
            Some(u) => u,
            None => {
                proof {
                    assert(false);
                }
                unreached()
            },
        };
        WsService {
            ws_url: url,
            current_group_id: None,
            current_task_id: None,
            local_task_state: None,
            request_channel_open: false,
            sink_open: false,
        }
    }

    /// A service for the cloud at `ws_url_str` where that is a URL; nothing
    /// where it is not.
    pub fn try_new(ws_url_str: &str) -> (r: Option<Self>)
        ensures
            match r {
                Some(s) => url_serialization(ws_url_str@) is Some && s@ == (WsServiceView {
                    ws_url: url_serialization(ws_url_str@)->0,
                    current_group_id: None,
                    current_task_id: None,
                    local_task_state: None,
                    request_channel_open: false,
                    sink_open: false,
                }),
                None => url_serialization(ws_url_str@) is None,
            },
    {
        match parse_url(ws_url_str) {
            Some(_) => Some(Self::new(ws_url_str)),
            None => None,
        }
    }

    /// The URL of the cloud.
    pub fn ws_url(&self) -> (u: &str)
        ensures
            u@ == self@.ws_url,
    {
        self.ws_url.as_str()
    }

    /// Records that the sending loop runs and takes requests.
    pub fn on_request_channel_opened(&mut self)
        ensures
            final(self)@ == (WsServiceView { request_channel_open: true, ..old(self)@ }),
    {
        self.request_channel_open = true;
    }

    /// Records that the link to the cloud is up (`true`) or down (`false`).
    pub fn set_link_up(&mut self, up: bool)
        ensures
            final(self)@ == (WsServiceView { sink_open: up, ..old(self)@ }),
    {
        self.sink_open = up;
    }

    /// Checks that `request` can be handed to the sending loop: refused while
    /// the loop is not running; otherwise given back to be queued.
    pub fn submit_request(&self, request: WsRequest) -> (r: Result<WsRequest, String>)
        ensures
            match r {
                Ok(q) => self@.request_channel_open && q == request,
                Err(e) => !self@.request_channel_open && e@ == "WebSocket 服务未连接或内部发送端未初始化"@,
            },
    {
        if self.request_channel_open {
            Ok(request)
        } else {
            Err("WebSocket 服务未连接或内部发送端未初始化".to_owned())
        }
    }

    /// Checks that `message` can be written to the link: refused while the
    /// link is down; otherwise given back to be written.
    pub fn send_ws_message_via_sink(&self, message: WsMessage) -> (r: Result<WsMessage, String>)
        ensures
            match r {
                Ok(m) => self@.sink_open && m == message,
                Err(e) => !self@.sink_open && e@ == "WebSocket Sink 未初始化，可能连接已断开"@,
            },
    {
        if self.sink_open {
            Ok(message)
        } else {
            Err("WebSocket Sink 未初始化，可能连接已断开".to_owned())
        }
    }

    /// Handles a message from the server, decoded as its type says, as
    /// [`service_receive_spec`] says; returns the event to raise, if any.
    pub fn process_received_message(&mut self, payload: ServerPayload) -> (e: Option<ServiceEvent>)
        ensures
            (final(self)@, match e {
                Some(x) => Some(x@),
                None => None,
            }) == service_receive_spec(old(self)@, payload@),
    {
        match payload {
            ServerPayload::RegisterResponse(Ok(r)) => {
                let task_id_for_event = copy_opt_string(&self.current_task_id);
                if r.success {
                    match &r.effective_group_id {
                        Some(g) => {
                            self.current_group_id = Some(g.clone());
                        },
                        None => {},
                    }
                }
                Some(
                    ServiceEvent::RegistrationStatus(
                        WsRegistrationStatusEvent {
                            success: r.success,
                            message: r.message,
                            group_id: r.effective_group_id,
                            task_id: task_id_for_event,
                        },
                    ),
                )
            },
            ServerPayload::PartnerStatusUpdate(Ok(p)) => Some(
                ServiceEvent::PartnerStatus(
                    WsPartnerStatusEvent {
                        partner_role: p.partner_role,
                        is_online: p.is_online,
                        group_id: p.group_id,
                    },
                ),
            ),
            ServerPayload::TaskStateUpdate(Ok(st)) => {
                self.local_task_state = Some(st.duplicate());
                self.current_task_id = Some(st.task_id.clone());
                Some(ServiceEvent::LocalTaskStateUpdated(LocalTaskStateUpdatedEvent { new_state: st }))
            },
            _ => None,
        }
    }

    /// Sets the task the client works on; the group is left to the cloud's
    /// answer to the registration.
    pub fn set_current_task_context(&mut self, group_id: String, task_id: String)
        ensures
            final(self)@ == (WsServiceView { current_task_id: Some(task_id@), ..old(self)@ }),
    {
        self.current_task_id = Some(task_id);
    }

    /// The group the client works on.
    pub fn current_group_id(&self) -> (g: Option<String>)
        ensures
            g.deep_view() == self@.current_group_id,
    {
        copy_opt_string(&self.current_group_id)
    }

    /// The task the client works on.
    pub fn current_task_id(&self) -> (t: Option<String>)
        ensures
            t.deep_view() == self@.current_task_id,
    {
        copy_opt_string(&self.current_task_id)
    }
}

} // verus!
