use sat_platform::outside::clock::{current_time_nanos, elapsed_exceeds, instant_from_parts, instant_parts};
use sat_platform::client_link::{classify_server_message_type, compose_message, SendFailure, ServerMessageKind, ServerPayload};
use sat_platform::control_center::commands as cc_commands;
use sat_platform::control_center::config::{
    init_app_config, load_app_config, AppConfig as CcAppConfig, ConfigFileRead,
};
use sat_platform::control_center::event::UiEvent as CcEvent;
use sat_platform::control_center::ws_client::{
    stream_end_reason, HeartbeatStep as CcStep, PongStatus, WebSocketClientService as CcClient,
};
use sat_platform::models::enums::ClientRole;
use sat_platform::models::payloads::{
    EchoPayload, ErrorResponsePayload, PartnerStatusPayload, RegisterResponsePayload,
};
use sat_platform::models::task_models::TaskDebugState;
use sat_platform::onsite_mobile::commands as osm_commands;
use sat_platform::onsite_mobile::config::{ClientConfigRead, WsClientConfig};
use sat_platform::onsite_mobile::event::UiEvent as OsmEvent;
use sat_platform::onsite_mobile::services::{ServiceEvent, WsRequest, WsService};
use sat_platform::onsite_mobile::ws_client::{HeartbeatStep as OsmStep, WebSocketClientService as OsmClient};

const ID: u128 = 0x6789_0000_0000_4000_8000_0000_0000_0042;
const PARTNER: u128 = 0x1234_0000_0000_4000_8000_0000_0000_0007;

fn uuid_text(id: u128) -> String {
    uuid::Uuid::from_u128(id).to_string()
}

fn accepted(group: &str) -> RegisterResponsePayload {
    RegisterResponsePayload {
        success: true,
        message: Some("成功加入组。".to_string()),
        assigned_client_id: ID,
        effective_group_id: Some(group.to_string()),
        effective_role: Some(ClientRole::ControlCenter),
    }
}

fn refused() -> RegisterResponsePayload {
    RegisterResponsePayload {
        success: false,
        message: Some("Role conflict.".to_string()),
        assigned_client_id: ID,
        effective_group_id: None,
        effective_role: None,
    }
}

const URL: &str = "ws://localhost:8088/ws";

fn connected_cc() -> CcClient {
    let mut c = CcClient::new();
    assert_eq!(c.connect(URL), Ok(false));
    let e = c.on_connection_opened(1000);
    assert!(e.connected);
    assert_eq!(e.error_message.as_deref(), Some("成功连接到云端WebSocket服务"));
    c
}

fn connected_osm() -> OsmClient {
    let mut c = OsmClient::new();
    assert_eq!(c.connect(URL), Ok(false));
    c.on_connection_opened(1000);
    c
}

#[test]
fn server_message_types_are_classified() {
    assert_eq!(classify_server_message_type("Echo"), ServerMessageKind::Echo);
    assert_eq!(classify_server_message_type("RegisterResponse"), ServerMessageKind::RegisterResponse);
    assert_eq!(classify_server_message_type("PartnerStatusUpdate"), ServerMessageKind::PartnerStatusUpdate);
    assert_eq!(classify_server_message_type("TaskStateUpdate"), ServerMessageKind::TaskStateUpdate);
    assert_eq!(classify_server_message_type("Pong"), ServerMessageKind::Pong);
    assert_eq!(classify_server_message_type("ErrorResponse"), ServerMessageKind::ErrorResponse);
    assert_eq!(classify_server_message_type("Ping"), ServerMessageKind::Unknown);
}

#[test]
fn composed_messages_carry_type_payload_and_a_uuid() {
    let m = compose_message("Echo", "{\"content\":\"hi\"}".to_string());
    assert_eq!(m.message_type, "Echo");
    assert_eq!(m.payload, "{\"content\":\"hi\"}");
    assert_eq!(m.message_id.len(), 36);
    assert!(uuid::Uuid::parse_str(&m.message_id).is_ok());
    assert!(m.timestamp > 0);
}

#[test]
fn control_center_registration_reports_the_assigned_id() {
    let mut c = connected_cc();
    let events = c.process_received_message(ServerPayload::RegisterResponse(Ok(accepted("g1"))), 2000);
    assert_eq!(events.len(), 2);
    match &events[0] {
        CcEvent::ConnectionStatus(e) => {
            assert!(e.connected);
            assert_eq!(e.client_id.as_deref(), Some(uuid_text(ID).as_str()));
            assert_eq!(e.error_message.as_deref(), Some("客户端注册成功"));
        }
        _ => panic!("expected a connection status"),
    }
    match &events[1] {
        CcEvent::RegistrationStatus(r) => {
            assert!(r.success);
            assert_eq!(r.group_id.as_deref(), Some("g1"));
            assert_eq!(r.role.as_deref(), Some("ControlCenter"));
            assert_eq!(r.task_id, None);
        }
        _ => panic!("expected a registration status"),
    }
    assert_eq!(events[1].event_name(), "ws_registration_status_event");
    assert_eq!(c.get_cloud_assigned_client_id(), Some(ID));

    let mut c2 = connected_cc();
    let events = c2.process_received_message(ServerPayload::RegisterResponse(Ok(refused())), 2000);
    assert_eq!(events.len(), 1);
    assert_eq!(c2.get_cloud_assigned_client_id(), None);
}

#[test]
fn control_center_passes_on_server_messages() {
    let mut c = connected_cc();
    let e = c.process_received_message(ServerPayload::Echo(Ok(EchoPayload { content: "x".to_string() })), 1);
    assert!(matches!(&e[0], CcEvent::EchoResponse(p) if p.content == "x"));
    let e = c.process_received_message(
        ServerPayload::PartnerStatusUpdate(Ok(PartnerStatusPayload {
            partner_role: ClientRole::OnSiteMobile,
            partner_client_id: PARTNER,
            is_online: true,
            group_id: "group_status_xyz".to_string(),
        })),
        1,
    );
    match &e[0] {
        CcEvent::PartnerStatus(p) => {
            assert_eq!(p.partner_role, "OnSiteMobile");
            assert_eq!(p.partner_client_id.as_deref(), Some(uuid_text(PARTNER).as_str()));
            assert_eq!(p.group_id.as_deref(), Some("group_status_xyz"));
        }
        _ => panic!("expected a partner status"),
    }
    let e = c.process_received_message(
        ServerPayload::ErrorResponse(Ok(ErrorResponsePayload {
            original_message_type: Some("TestRequest".to_string()),
            error: "Something went wrong".to_string(),
        })),
        1,
    );
    match &e[0] {
        CcEvent::ServerError(p) => {
            assert_eq!(p.error_message, "Something went wrong");
            assert_eq!(p.original_message_type.as_deref(), Some("TestRequest"));
        }
        _ => panic!("expected a server error"),
    }
    let e = c.process_received_message(ServerPayload::TaskStateUpdate(Ok(TaskDebugState::new_at("task_abc".to_string(), 5))), 1);
    assert!(matches!(&e[0], CcEvent::LocalTaskStateUpdated(p) if p.new_state.task_id == "task_abc"));
    assert_eq!(c.get_cached_task_state().unwrap().task_id, "task_abc");
    assert!(c.process_received_message(ServerPayload::Echo(Err("bad".to_string())), 1).is_empty());
    assert!(c.process_received_message(ServerPayload::Unknown, 1).is_empty());
}

fn cc_ping(step: CcStep) -> (PongStatus, bool) {
    match step {
        CcStep::SendPing { pong, channel_open, ping } => {
            assert_eq!(ping.message_type, "Ping");
            assert_eq!(ping.payload, "{}");
            assert_eq!(ping.message_id.len(), 36);
            (pong, channel_open)
        }
        CcStep::Stop => panic!("expected a ping"),
    }
}

#[test]
fn control_center_heartbeat_judges_the_pong() {
    let mut c = connected_cc();
    assert_eq!(cc_ping(c.heartbeat_tick(40_000_001_000)), (PongStatus::Fresh, true));
    assert_eq!(cc_ping(c.heartbeat_tick(40_000_001_001)), (PongStatus::Overdue, true));
    c.process_received_message(ServerPayload::Pong, 40_000_001_001);
    assert_eq!(cc_ping(c.heartbeat_tick(40_000_001_001)), (PongStatus::Fresh, true));
    let plan = c.disconnect();
    assert!(plan.stop_heartbeat && plan.close_sender && plan.stop_connection);
    assert_eq!(plan.event.unwrap().error_message.as_deref(), Some("用户请求断开连接"));
    assert_eq!(plan.result, Ok(()));
    assert!(matches!(c.heartbeat_tick(40_000_001_002), CcStep::Stop));
    assert!(!c.is_connected());
}

#[test]
fn control_center_disconnect_without_a_link_is_an_error() {
    let mut c = CcClient::new();
    let plan = c.disconnect();
    assert_eq!(plan.result, Err("[SatControlCenter] 断开连接失败：WebSocket 发送通道不存在。".to_string()));
    assert_eq!(plan.event.unwrap().error_message.as_deref(), Some("用户请求断开连接"));
    assert!(!plan.close_sender);
    assert_eq!(
        CcClient::close_failed("broken pipe".to_string()),
        "[SatControlCenter] 断开连接失败：关闭 WebSocket 发送通道时出错: broken pipe"
    );
}

#[test]
fn connecting_to_a_non_url_fails_at_once() {
    let mut c = CcClient::new();
    assert_eq!(c.connect("not a url"), Err("无效的 WebSocket URL: 'not a url'".to_string()));
    assert!(!c.is_connected());
    assert_eq!(c.connect(URL), Ok(false));
    let mut o = OsmClient::new();
    assert_eq!(o.connect("not a url"), Err("无效的 WebSocket URL: 'not a url'".to_string()));
    assert_eq!(o.connect(URL), Ok(false));

    let mut c = CcClient::new();
    assert_eq!(
        cc_commands::connect_to_cloud(&mut c, Some("not a url".to_string()), Err("unused".to_string())),
        Err("启动到云服务的连接过程失败: 无效的 WebSocket URL: 'not a url'".to_string())
    );
    assert_eq!(
        cc_commands::connect_to_cloud(&mut c, None, Ok(URL.to_string())),
        Ok((URL.to_string(), false))
    );
    assert_eq!(
        cc_commands::connect_to_cloud(&mut c, Some(URL.to_string()), Err("unused".to_string())),
        Ok((URL.to_string(), true))
    );
    let mut o = OsmClient::new();
    assert_eq!(
        osm_commands::connect_to_cloud(&mut o, Some("not a url".to_string()), Err("unused".to_string())),
        Err("连接到云服务失败: 无效的 WebSocket URL: 'not a url'".to_string())
    );
    assert!(osm_commands::connect_to_cloud(&mut o, None, Err("missing".to_string()))
        .unwrap_err()
        .contains("missing"));
}

#[test]
fn a_failed_connection_is_reported_with_the_transport_error() {
    let mut c = CcClient::new();
    c.connect(URL).unwrap();
    let e = c.on_connect_failed("Connection refused (os error 111)".to_string());
    assert!(!e.connected);
    assert_eq!(e.client_id, None);
    assert_eq!(e.error_message.as_deref(), Some("连接到 WebSocket 服务器失败: Connection refused (os error 111)"));
    assert!(!c.is_connected());
    assert_eq!(c.get_cloud_assigned_client_id(), None);
    let mut o = OsmClient::new();
    o.connect(URL).unwrap();
    let e = o.on_connect_failed("refused".to_string());
    assert_eq!(e.error_message.as_deref(), Some("连接到 WebSocket 服务器失败: refused"));
    assert!(!o.is_connected());
}

#[test]
fn control_center_refuses_to_send_when_down() {
    let c = CcClient::new();
    let m = compose_message("Echo", "{}".to_string());
    assert_eq!(c.send_ws_message(m).unwrap_err(), "[SatControlCenter] 发送 WebSocket 消息失败：未连接到服务器。");
    assert_eq!(c.send_echo_message("{}".to_string()).unwrap_err(), "WebSocket 未连接，无法发送 Echo 消息。");
    assert_eq!(
        c.send_specific_message("Register", "{}".to_string()).unwrap_err(),
        "WebSocket 未连接，无法发送类型为 'Register' 的消息。"
    );
    let up = connected_cc();
    let sent = up.send_echo_message("{\"content\":\"hi\"}".to_string()).unwrap();
    assert_eq!(sent.message_type, "Echo");
    assert_eq!(sent.payload, "{\"content\":\"hi\"}");
}

#[test]
fn control_center_connection_end_is_reported_once() {
    let mut c = connected_cc();
    let e = c.on_connection_closed(true, None).unwrap();
    assert!(!e.connected);
    assert_eq!(e.error_message.as_deref(), Some("WebSocket 连接已断开"));
    assert!(c.on_connection_closed(true, None).is_none());
    let mut failed = CcClient::new();
    failed.connect(URL).unwrap();
    let e = failed.on_connection_closed(false, None).unwrap();
    assert_eq!(e.error_message.as_deref(), Some("连接 WebSocket 失败，请检查网络或URL。"));
    let e = failed.on_connection_closed(false, Some("连接到 WebSocket 服务器失败: refused".to_string())).unwrap();
    assert_eq!(e.error_message.as_deref(), Some("连接到 WebSocket 服务器失败: refused"));
    assert_eq!(failed.connect(URL), Ok(true), "a held connection task is cancelled by the next attempt");
    assert_eq!(stream_end_reason(None).as_deref(), Some("WebSocket 连接已由对方关闭"));
    assert_eq!(stream_end_reason(Some("x".to_string())).as_deref(), Some("x"));
}

#[test]
fn control_center_configuration_loading() {
    let d = CcAppConfig::default();
    assert_eq!(d.cloud_ws_url, "ws://localhost:8088/ws");
    assert_eq!(d.control_center_id, "CC_Default_001");
    assert_eq!(d.log_level, "info");
    assert!(d.auto_connect_cloud);
    assert_eq!(d.plc_scan_interval_ms, 1000);
    let (c, save) = load_app_config("./config/app_settings.json", ConfigFileRead::Missing).unwrap();
    assert!(save);
    assert_eq!(c.control_center_id, "CC_Default_001");
    let err = load_app_config(
        "./config/app_settings.json",
        ConfigFileRead::Read(Err("expected value at line 1 column 1".to_string())),
    )
    .unwrap_err();
    assert!(err.contains("解析配置文件"));
    assert_eq!(err, "解析配置文件 './config/app_settings.json' 的内容失败: expected value at line 1 column 1");
    let err = load_app_config("p", ConfigFileRead::ReadFailed("denied".to_string())).unwrap_err();
    assert_eq!(err, "读取配置文件 'p' 失败: denied");
    let mut m = CcAppConfig::default();
    m.cloud_ws_url = "ws://new_test_server:9999/ws_test".to_string();
    m.log_level = "debug".to_string();
    m.auto_connect_cloud = false;
    let (r, save) = load_app_config("p", ConfigFileRead::Read(Ok(m))).unwrap();
    assert!(!save);
    assert_eq!(r.cloud_ws_url, "ws://new_test_server:9999/ws_test");
    assert_eq!(init_app_config(Err("x".to_string())).log_level, "info");
}

#[test]
fn control_center_commands() {
    let s = cc_commands::check_server_connectivity_cmd();
    assert!(s.can_connect);
    assert_eq!(s.details, "Successfully connected to the main server (example).");
    assert_eq!(cc_commands::connect_url(Some("ws://a".to_string()), Err("e".to_string())).unwrap(), "ws://a");
    assert_eq!(cc_commands::connect_url(None, Ok("ws://b".to_string())).unwrap(), "ws://b");
    let e = cc_commands::connect_url(None, Err("missing".to_string())).unwrap_err();
    assert!(e.starts_with("[中心端通用命令] 加载客户端配置 (WsClientConfig) 失败: missing."));
    let p = cc_commands::register_payload("g".to_string(), "t".to_string());
    assert_eq!(p.role, ClientRole::ControlCenter);
    let down = CcClient::new();
    assert_eq!(
        cc_commands::update_task_debug_note_cmd(&down, "{}".to_string()).unwrap_err(),
        "无法更新调试备注：WebSocket未连接。"
    );
    let up = connected_cc();
    let m = cc_commands::update_task_debug_note_cmd(&up, "{\"group_id\":\"g\"}".to_string()).unwrap();
    assert_eq!(m.message_type, "UpdateTaskDebugNote");
    assert_eq!(cc_commands::note_update_sent().message.as_deref(), Some("更新备注请求已发送"));
}

#[test]
fn site_registration_and_error_reports() {
    let mut c = connected_osm();
    let e = c.process_received_message(ServerPayload::RegisterResponse(Err("bad json".to_string())), 1);
    match &e[0] {
        OsmEvent::ConnectionStatus(s) => {
            assert!(!s.connected);
            assert_eq!(s.client_id, None);
            assert_eq!(s.error_message.as_deref(), Some("处理来自云端的注册响应消息时发生内部错误: bad json"));
        }
        _ => panic!("expected a connection status"),
    }
    let e = c.process_received_message(ServerPayload::RegisterResponse(Ok(accepted("g1"))), 1);
    assert_eq!(e.len(), 2);
    match &e[0] {
        OsmEvent::ConnectionStatus(s) => {
            assert_eq!(s.error_message.as_deref(), Some("客户端注册成功，已从云端获取并分配客户端ID。"))
        }
        _ => panic!("expected a connection status"),
    }
    let e = c.process_received_message(
        ServerPayload::ErrorResponse(Ok(ErrorResponsePayload { original_message_type: None, error: "Another issue".to_string() })),
        1,
    );
    match &e[0] {
        OsmEvent::ConnectionStatus(s) => {
            assert!(s.connected);
            assert_eq!(s.client_id.as_deref(), Some(uuid_text(ID).as_str()));
            assert_eq!(s.error_message.as_deref(), Some("收到来自云端服务的错误报告: Another issue"));
        }
        _ => panic!("expected a connection status"),
    }
    let e = c.process_received_message(ServerPayload::RegisterResponse(Ok(refused())), 1);
    match &e[0] {
        OsmEvent::RegistrationStatus(r) => {
            assert!(!r.success);
            assert_eq!(r.message.as_deref(), Some("Role conflict."));
            assert_eq!(r.assigned_client_id, None);
        }
        _ => panic!("expected a registration status"),
    }
}

#[test]
fn site_heartbeat_drops_a_silent_link() {
    let mut c = connected_osm();
    match c.heartbeat_tick(40_000_001_000) {
        OsmStep::SendPing(ping) => {
            assert_eq!(ping.message_type, "Ping");
            assert_eq!(ping.payload, "{}");
        }
        _ => panic!("expected a ping"),
    }
    match c.heartbeat_tick(40_000_001_001) {
        OsmStep::PongTimedOut(e) => {
            assert!(!e.connected);
            assert_eq!(e.error_message.as_deref(), Some("与云端服务的心跳响应超时，连接可能已丢失。"));
        }
        _ => panic!("expected a timeout"),
    }
    assert!(!c.is_connected());
    assert!(matches!(c.heartbeat_tick(40_000_001_002), OsmStep::Stop));
    let m = compose_message("Ping", "{}".to_string());
    assert_eq!(c.send_ws_message(m).unwrap_err(), "无法发送 WebSocket 消息：当前未连接到云端服务。");
    let mut d = connected_osm();
    d.on_ping_failed();
    assert!(!d.is_connected());
}

#[test]
fn site_disconnect_and_connection_end() {
    let mut c = connected_osm();
    let plan = c.disconnect();
    assert!(plan.close_sender && plan.stop_connection);
    assert_eq!(plan.event.unwrap().error_message.as_deref(), Some("客户端已主动发起断开 WebSocket 连接的操作。"));
    assert!(c.disconnect().event.is_none());
    let e = c.on_connection_closed(true, Some("连接被主动断开".to_string()));
    assert!(e.is_none(), "a link that was already marked down is not reported again");
    let mut f = OsmClient::new();
    f.connect(URL).unwrap();
    let e = f.on_connection_closed(false, None).unwrap();
    assert_eq!(e.error_message.as_deref(), Some("连接已关闭或意外断开"));
    assert_eq!(f.connect(URL), Ok(false), "the ended task no longer needs cancelling");
}

#[test]
fn site_send_refusal_names_the_message() {
    let mut c = connected_osm();
    c.on_connection_closed(true, None);
    c.on_connection_opened(5);
    let m = sat_platform::models::message::WsMessage {
        message_id: "m-1".to_string(),
        timestamp: 1,
        message_type: "Echo".to_string(),
        payload: "{}".to_string(),
    };
    assert_eq!(c.send_ws_message(m).unwrap().message_id, "m-1");
}

#[test]
fn site_client_configuration_loading() {
    let path = "config/onsite_client_config.json";
    let e = WsClientConfig::load(path, ClientConfigRead::Missing).unwrap_err();
    assert_eq!(
        e,
        "客户端配置文件 'onsite_client_config.json (config/onsite_client_config.json)' 未找到。请确保配置文件存在于 'config' 目录下，或在连接时通过参数提供 WebSocket URL。"
    );
    let e = WsClientConfig::load(path, ClientConfigRead::ReadFailed).unwrap_err();
    assert!(e.starts_with("无法读取配置文件"));
    let e = WsClientConfig::load(path, ClientConfigRead::Read(Err("x".to_string()))).unwrap_err();
    assert!(e.starts_with("解析配置文件 'onsite_client_config.json (config/onsite_client_config.json)' 失败。"));
    let c = WsClientConfig::load(path, ClientConfigRead::Read(Ok(WsClientConfig { cloud_ws_url: "ws://h/ws".to_string() }))).unwrap();
    assert_eq!(c.cloud_ws_url, "ws://h/ws");
}

#[test]
fn site_debug_note_checks_its_shared_data() {
    let down = OsmClient::new();
    assert_eq!(
        osm_commands::send_debug_note_from_site_cmd(&down, "g".to_string(), "n".to_string(), None).unwrap_err(),
        "WebSocket client is not connected. Cannot send debug note."
    );
    let up = connected_osm();
    let p = osm_commands::send_debug_note_from_site_cmd(&up, "g".to_string(), "n".to_string(), Some("   ".to_string())).unwrap();
    assert_eq!(p.custom_shared_data, None);
    let p = osm_commands::send_debug_note_from_site_cmd(&up, "g".to_string(), "n".to_string(), Some(" {\"b\": 1, \"a\": [true]} ".to_string())).unwrap();
    assert_eq!(p.custom_shared_data.as_deref(), Some("{\"a\":[true],\"b\":1}"));
    assert_eq!(p.group_id, "g");
    assert_eq!(p.new_note, "n");
    let e = osm_commands::send_debug_note_from_site_cmd(&up, "g".to_string(), "n".to_string(), Some("{oops".to_string())).unwrap_err();
    assert!(e.starts_with("Invalid JSON format for custom_shared_data: "));
    assert!(e.ends_with(". Content: '{oops'"));
    assert_eq!(
        osm_commands::debug_note_sent("g1").message,
        "Debug note message sent successfully to server for group 'g1'."
    );
}

#[test]
fn site_commands() {
    assert_eq!(osm_commands::check_server_connectivity_cmd(), "Mock server connectivity check: Success");
    let e = osm_commands::connect_url(None, Err("nf".to_string())).unwrap_err();
    assert_eq!(e, "[SatOnSiteMobile] 加载客户端配置 (WsClientConfig) 失败: nf。请在调用时提供明确的 URL，或确保配置文件存在且有效。");
    assert_eq!(osm_commands::register_payload("g".to_string(), "t".to_string()).role, ClientRole::OnSiteMobile);
    let down = OsmClient::new();
    assert_eq!(
        osm_commands::send_ws_echo(&down, "{}".to_string()).unwrap_err(),
        "发送 Echo 消息失败: 无法发送 WebSocket 消息：当前未连接到云端服务。"
    );
    assert_eq!(
        osm_commands::register_client_with_task(&down, "{}".to_string()).unwrap_err(),
        "发送注册消息失败: 无法发送 WebSocket 消息：当前未连接到云端服务。"
    );
    let up = connected_osm();
    assert_eq!(osm_commands::register_client_with_task(&up, "{}".to_string()).unwrap().message_type, "Register");
}

#[test]
fn site_service_tracks_the_task_context() {
    assert!(WsService::try_new("not a url").is_none());
    let mut s = WsService::try_new("ws://localhost:8088/ws").unwrap();
    assert_eq!(s.ws_url(), "ws://localhost:8088/ws");
    let m = compose_message("Echo", "{}".to_string());
    assert_eq!(
        s.submit_request(WsRequest::SendMessage(m.clone())).unwrap_err(),
        "WebSocket 服务未连接或内部发送端未初始化"
    );
    assert_eq!(s.send_ws_message_via_sink(m.clone()).unwrap_err(), "WebSocket Sink 未初始化，可能连接已断开");
    s.on_request_channel_opened();
    s.set_link_up(true);
    assert!(s.submit_request(WsRequest::SendMessage(m.clone())).is_ok());
    assert!(s.send_ws_message_via_sink(m).is_ok());

    s.set_current_task_context("g1".to_string(), "t1".to_string());
    assert_eq!(s.current_task_id().as_deref(), Some("t1"));
    match s.process_received_message(ServerPayload::RegisterResponse(Ok(accepted("g1")))) {
        Some(ServiceEvent::RegistrationStatus(e)) => {
            assert!(e.success);
            assert_eq!(e.task_id.as_deref(), Some("t1"));
            assert_eq!(e.group_id.as_deref(), Some("g1"));
        }
        _ => panic!("expected a registration event"),
    }
    assert_eq!(s.current_group_id().as_deref(), Some("g1"));
    let ev = s.process_received_message(ServerPayload::TaskStateUpdate(Ok(TaskDebugState::new_at("t2".to_string(), 1)))).unwrap();
    assert_eq!(ev.event_name(), "event://local-task-state-updated");
    assert_eq!(s.current_task_id().as_deref(), Some("t2"));
    assert!(s.process_received_message(ServerPayload::Pong).is_none());
}

#[test]
fn site_service_keeps_the_parsed_url() {
    let s = WsService::try_new("WS://LocalHost:8088").unwrap();
    assert_eq!(s.ws_url(), "ws://localhost:8088/");
}

#[test]
fn unicode_white_space_counts_as_blank_shared_data() {
    let up = connected_osm();
    let blank = "\u{3000}\t\u{a0}\n".to_string();
    let p = osm_commands::send_debug_note_from_site_cmd(&up, "g".to_string(), "n".to_string(), Some(blank)).unwrap();
    assert_eq!(p.custom_shared_data, None);
}

#[test]
fn failed_sends_are_answered_with_the_link_error() {
    let m = sat_platform::models::message::WsMessage {
        message_id: "m-7".to_string(),
        timestamp: 1,
        message_type: "Register".to_string(),
        payload: "{}".to_string(),
    };
    assert_eq!(CcClient::send_answer(&m, Ok(())), Ok(()));
    assert_eq!(
        CcClient::send_answer(&m, Err(SendFailure::Transport("ConnectionClosed".to_string()))),
        Err("[SatControlCenter] 发送 WebSocket 消息 (类型='Register') 失败: ConnectionClosed".to_string())
    );
    assert_eq!(
        CcClient::send_answer(&m, Err(SendFailure::Serialize("bad".to_string()))),
        Err("[SatControlCenter] 序列化 WebSocket 消息 (类型='Register') 失败: bad".to_string())
    );
    assert_eq!(
        CcClient::send_answer(&m, Err(SendFailure::NoChannel)),
        Err("[SatControlCenter] 发送 WebSocket 消息失败：发送通道不可用 (可能已断开)。".to_string())
    );
    assert_eq!(OsmClient::send_answer(&m, Ok(())), Ok(()));
    assert_eq!(
        OsmClient::send_answer(&m, Err(SendFailure::Transport("broken pipe".to_string()))),
        Err("发送 WebSocket 消息 (类型: 'Register', ID: 'm-7') 失败: broken pipe. 可能连接已中断。".to_string())
    );
    assert_eq!(
        OsmClient::send_answer(&m, Err(SendFailure::Serialize("bad".to_string()))),
        Err("序列化 WebSocket 消息 (类型: 'Register', ID: 'm-7') 为 JSON 时失败: bad".to_string())
    );
    assert_eq!(
        OsmClient::send_answer(&m, Err(SendFailure::NoChannel)),
        Err("无法发送 WebSocket 消息 (类型: 'Register', ID: 'm-7')：发送通道不可用 (可能连接已关闭或正在关闭)。".to_string())
    );
}

#[test]
fn control_center_registration_is_checked_by_the_link() {
    let down = CcClient::new();
    assert_eq!(
        cc_commands::register_client_with_task(&down, "{}".to_string()).unwrap_err(),
        "[SatControlCenter] 发送 WebSocket 消息失败：未连接到服务器。"
    );
    let up = connected_cc();
    let m = cc_commands::register_client_with_task(&up, "{\"group_id\":\"g\"}".to_string()).unwrap();
    assert_eq!(m.message_type, "Register");
    assert_eq!(m.payload, "{\"group_id\":\"g\"}");
}

#[test]
fn a_pong_late_by_less_than_a_millisecond_is_overdue() {
    let mut c = connected_cc();
    assert_eq!(cc_ping(c.heartbeat_tick(1000 + 40_000_000_000)), (PongStatus::Fresh, true));
    assert_eq!(cc_ping(c.heartbeat_tick(1000 + 40_000_000_001)), (PongStatus::Overdue, true));
    let mut o = connected_osm();
    assert!(matches!(o.heartbeat_tick(1000 + 40_000_000_000), OsmStep::SendPing(_)));
    assert!(matches!(o.heartbeat_tick(1000 + 40_000_000_001), OsmStep::PongTimedOut(_)));
}

#[test]
fn instants_split_into_seconds_and_nanoseconds() {
    assert_eq!(instant_from_parts(1, 5), 1_000_000_005);
    assert_eq!(instant_from_parts(-1, 999_999_999), -1);
    assert_eq!(instant_parts(-1), Some((-1, 999_999_999)));
    assert_eq!(instant_parts(1_700_000_000_123_456_789), Some((1_700_000_000, 123_456_789)));
    assert_eq!(instant_parts(i128::MAX), None);
    assert!(elapsed_exceeds(i128::MAX, i128::MIN, 0));
    assert!(!elapsed_exceeds(i128::MIN, i128::MAX, 0));
    assert!(!elapsed_exceeds(10, 5, 5));
    assert!(elapsed_exceeds(11, 5, 5));
    assert!(current_time_nanos() > 1_600_000_000_000_000_000);
}
