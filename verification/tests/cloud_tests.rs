use sat_platform::cloud::client_session::ClientSession;
use sat_platform::cloud::config::{
    get_config, init_config, load_or_create_config, AppConfig, ConfigFileOutcome, ConfigStore,
    WebSocketConfig, WsConfig, DEFAULT_WS_HOST, DEFAULT_WS_PORT,
};
use sat_platform::cloud::connection_manager::ConnectionManager;
use sat_platform::cloud::heartbeat_monitor::HeartbeatMonitor;
use sat_platform::cloud::message_router::{
    classify_message_type, handle_message, route_message, InboundPayload, MessageKind,
};
use sat_platform::cloud::outbox::{Outgoing, ServerMessage};
use sat_platform::cloud::task_state_manager::TaskStateManager;
use sat_platform::models::enums::ClientRole;
use sat_platform::models::payloads::{EchoPayload, PingPayload, RegisterPayload};
use sat_platform::models::task_models::{
    BusinessActionPayload, StartSingleTestStepPayload, UpdatePreCheckItemPayload,
};

const CC: u128 = 0x1111_0000_0000_4000_8000_0000_0000_0001;
const OSM: u128 = 0x2222_0000_0000_4000_8000_0000_0000_0002;
const OTHER_CC: u128 = 0x3333_0000_0000_4000_8000_0000_0000_0003;

fn uuid_text(id: u128) -> String {
    uuid::Uuid::from_u128(id).to_string()
}

fn register(group: &str, role: ClientRole, task: &str) -> RegisterPayload {
    RegisterPayload { group_id: group.to_string(), role, task_id: task.to_string() }
}

fn manager_with(ids: &[u128]) -> ConnectionManager {
    let mut cm = ConnectionManager::new(TaskStateManager::new());
    for id in ids {
        cm.add_session(ClientSession::with_identity(*id, format!("127.0.0.1:{}", id % 1000), 1000));
    }
    cm
}

fn pre_check(item: &str, status: &str, notes: Option<&str>) -> BusinessActionPayload {
    BusinessActionPayload::UpdatePreCheckItem(UpdatePreCheckItemPayload {
        task_id: "t1".to_string(),
        item_id: item.to_string(),
        status: status.to_string(),
        notes: notes.map(|n| n.to_string()),
    })
}

#[test]
fn test_skeleton_task_state_manager_creation_and_init_call() {
    let mut manager = TaskStateManager::new();
    let test_group_id = "单元测试专用组ID_TSM_001".to_string();
    let test_task_id = "单元测试专用任务ID_AlphaBuild".to_string();
    manager.init_task_state(test_group_id.clone(), test_task_id.clone());
    assert!(true, "这是一个针对P3.1.2骨架实现的占位断言，其设计目的是始终通过测试。它主要验证代码的基本可执行性，而非具体功能逻辑。");
    let state = manager.get_task_state(&test_group_id).expect("state was created");
    assert_eq!(state.task_id, test_task_id);
    assert_eq!(state.version, 0);
}

#[test]
fn init_task_state_keeps_an_existing_state() {
    let mut manager = TaskStateManager::new();
    manager.init_task_state_at("g1".to_string(), "t1".to_string(), 1000);
    let _ = manager.apply_business_action("g1", ClientRole::OnSiteMobile, pre_check("i1", "OK", None), 2000);
    manager.init_task_state_at("g1".to_string(), "other".to_string(), 3000);
    let state = manager.get_task_state("g1").unwrap();
    assert_eq!(state.task_id, "t1");
    assert_eq!(state.version, 1);
    assert!(manager.remove_task_state("g1").is_ok());
    assert!(manager.get_task_state("g1").is_none());
    assert!(manager.remove_task_state("g1").is_ok());
}

#[test]
fn pre_check_updates_bump_the_version_once_per_change() {
    let mut manager = TaskStateManager::new();
    manager.init_task_state_at("g1".to_string(), "t1".to_string(), 1000);
    let first = manager
        .apply_business_action("g1", ClientRole::OnSiteMobile, pre_check("item_001", "Site_Completed", Some("All good from site.")), 2000)
        .expect("the first update changes the state");
    assert_eq!(first.version, 1);
    assert_eq!(first.last_updated_by_role, Some(ClientRole::OnSiteMobile));
    assert_eq!(first.last_update_timestamp, 2000);
    let item = first.pre_check_item("item_001").unwrap();
    assert_eq!(item.status_from_site.as_deref(), Some("Site_Completed"));
    assert_eq!(item.notes_from_site.as_deref(), Some("All good from site."));
    assert_eq!(item.status_from_control, None);

    let repeat = manager.apply_business_action(
        "g1",
        ClientRole::OnSiteMobile,
        pre_check("item_001", "Site_Completed", Some("All good from site.")),
        3000,
    );
    assert!(repeat.is_none(), "the same update again changes nothing");

    let control = manager
        .apply_business_action("g1", ClientRole::ControlCenter, pre_check("item_001", "Confirmed", Some("Control confirms.")), 4000)
        .unwrap();
    assert_eq!(control.version, 2);
    let item = control.pre_check_item("item_001").unwrap();
    assert_eq!(item.status_from_site.as_deref(), Some("Site_Completed"));
    assert_eq!(item.status_from_control.as_deref(), Some("Confirmed"));
    assert_eq!(item.last_updated, 4000);

    assert!(manager.apply_business_action("g1", ClientRole::Unknown, pre_check("item_002", "X", None), 5000).is_none());
    let after_unknown = manager.get_task_state("g1").unwrap();
    assert_eq!(after_unknown.version, 2);
    assert_eq!(after_unknown.pre_check_items.len(), 1, "an update that changes nothing adds no item");

    assert!(manager.apply_business_action("missing", ClientRole::OnSiteMobile, pre_check("i", "s", None), 6000).is_none());
    let start = BusinessActionPayload::StartSingleTestStep(StartSingleTestStepPayload {
        task_id: "t1".to_string(),
        device_id: "d".to_string(),
        step_id: "s".to_string(),
        command: "START_MOTOR".to_string(),
    });
    assert!(manager.apply_business_action("g1", ClientRole::ControlCenter, start, 7000).is_none());
    assert_eq!(manager.get_task_state("g1").unwrap().version, 2);
}

#[test]
fn registration_pairs_a_control_center_with_a_site() {
    let mut cm = manager_with(&[CC, OSM, OTHER_CC]);
    let mut outbox: Vec<Outgoing> = Vec::new();

    let ok = cm.join_group(CC, register("g1", ClientRole::ControlCenter, "t1"), 2000, &mut outbox).expect("accepted");
    assert!(ok.success);
    assert_eq!(ok.message.as_deref(), Some("成功加入组。"));
    assert_eq!(ok.assigned_client_id, CC);
    assert_eq!(ok.effective_group_id.as_deref(), Some("g1"));
    assert_eq!(ok.effective_role, Some(ClientRole::ControlCenter));
    assert!(outbox.is_empty());
    assert_eq!(cm.get_group_count(), 1);
    assert_eq!(cm.task_state_manager().get_task_state("g1").unwrap().task_id, "t1");

    let ok2 = cm.join_group(OSM, register("g1", ClientRole::OnSiteMobile, "t1"), 3000, &mut outbox).expect("accepted");
    assert!(ok2.success);
    assert_eq!(outbox.len(), 2);
    match (&outbox[0].message, &outbox[1].message) {
        (ServerMessage::PartnerStatusUpdate(to_cc), ServerMessage::PartnerStatusUpdate(to_osm)) => {
            assert_eq!(outbox[0].recipient, CC);
            assert_eq!(to_cc.partner_role, ClientRole::OnSiteMobile);
            assert_eq!(to_cc.partner_client_id, OSM);
            assert!(to_cc.is_online);
            assert_eq!(to_cc.group_id, "g1");
            assert_eq!(outbox[1].recipient, OSM);
            assert_eq!(to_osm.partner_role, ClientRole::ControlCenter);
            assert_eq!(to_osm.partner_client_id, CC);
        }
        _ => panic!("expected two partner notices"),
    }
    let g = cm.get_group("g1").unwrap();
    assert_eq!(g.control_center_client, Some(CC));
    assert_eq!(g.on_site_mobile_client, Some(OSM));
    assert_eq!(cm.get_group_members_for_broadcast("g1", None), vec![CC, OSM]);
    assert_eq!(cm.get_group_members_for_broadcast("g1", Some(CC)), vec![OSM]);
    assert!(cm.get_group_members_for_broadcast("nope", None).is_empty());
    let session = cm.client_session(OSM).unwrap();
    assert_eq!(session.role, ClientRole::OnSiteMobile);
    assert_eq!(session.group_id.as_deref(), Some("g1"));

    let conflict = cm.join_group(OTHER_CC, register("g1", ClientRole::ControlCenter, "t1"), 4000, &mut outbox).unwrap_err();
    assert!(!conflict.success);
    assert_eq!(
        conflict.message.unwrap(),
        format!("注册失败：组 'g1' 已有一个活动的控制中心客户端 ({}).", uuid_text(CC))
    );
    assert_eq!(conflict.effective_group_id, None);
}

#[test]
fn registration_refusals_say_why() {
    let mut cm = manager_with(&[CC, OSM]);
    let mut outbox: Vec<Outgoing> = Vec::new();
    let no_task = cm.join_group(CC, register("g1", ClientRole::ControlCenter, ""), 1, &mut outbox).unwrap_err();
    assert_eq!(no_task.message.as_deref(), Some("注册失败：必须提供有效的 task_id。"));
    assert_eq!(cm.get_group_count(), 0);

    cm.join_group(CC, register("g1", ClientRole::ControlCenter, "t1"), 2, &mut outbox).unwrap();
    let mismatch = cm.join_group(OSM, register("g1", ClientRole::OnSiteMobile, "t2"), 3, &mut outbox).unwrap_err();
    assert_eq!(
        mismatch.message.as_deref(),
        Some("注册失败：提供的任务ID 't2' 与组 'g1' 已关联的任务ID 't1' 不匹配。")
    );
    let unknown = cm.join_group(OSM, register("g2", ClientRole::Unknown, "t9"), 4, &mut outbox).unwrap_err();
    assert_eq!(
        unknown.message.as_deref(),
        Some("注册失败：不允许以 'Unknown' 角色注册。请提供有效的客户端角色。")
    );
    assert!(outbox.is_empty());
}

#[test]
fn a_gone_occupant_gives_up_its_slot() {
    let mut cm = manager_with(&[CC, OTHER_CC]);
    let mut outbox: Vec<Outgoing> = Vec::new();
    cm.join_group(CC, register("g1", ClientRole::ControlCenter, "t1"), 1, &mut outbox).unwrap();
    // joining again into the slot it holds is accepted
    assert!(cm.join_group(CC, register("g1", ClientRole::ControlCenter, "t1"), 2, &mut outbox).is_ok());
    // moving to another group leaves the first slot behind
    cm.join_group(CC, register("g2", ClientRole::ControlCenter, "t2"), 3, &mut outbox).unwrap();
    assert!(cm.remove_client(CC, &mut outbox));
    assert!(cm.get_group("g2").is_none());
    assert_eq!(cm.get_group("g1").unwrap().control_center_client, Some(CC));
    // the slot's holder is gone, so another control center may take it
    let ok = cm.join_group(OTHER_CC, register("g1", ClientRole::ControlCenter, "t1"), 4, &mut outbox).unwrap();
    assert!(ok.success);
    assert_eq!(cm.get_group("g1").unwrap().control_center_client, Some(OTHER_CC));
}

#[test]
fn a_live_holder_keeps_its_slot() {
    // neither session is in the table: only a close request frees a slot
    let mut cm = manager_with(&[]);
    let mut outbox: Vec<Outgoing> = Vec::new();
    let first = cm.join_group(CC, register("g", ClientRole::ControlCenter, "t"), 1, &mut outbox).unwrap();
    assert!(first.success);
    let second = cm.join_group(OTHER_CC, register("g", ClientRole::ControlCenter, "t"), 2, &mut outbox).unwrap_err();
    assert!(!second.success);
    assert_eq!(second.effective_group_id, None);
    assert_eq!(second.effective_role, None);
    assert_eq!(second.assigned_client_id, OTHER_CC);
    assert_eq!(
        second.message,
        Some(format!("注册失败：组 'g' 已有一个活动的控制中心客户端 ({}).", uuid_text(CC)))
    );
    assert_eq!(cm.get_group("g").unwrap().control_center_client, Some(CC));
    assert!(!cm.is_closing(CC));

    // with both sessions tracked, the second is refused as well
    let mut cm = manager_with(&[CC, OTHER_CC]);
    cm.join_group(CC, register("g", ClientRole::ControlCenter, "t"), 1, &mut outbox).unwrap();
    assert!(cm.join_group(OTHER_CC, register("g", ClientRole::ControlCenter, "t"), 2, &mut outbox).is_err());
    let other = cm.client_session(OTHER_CC).unwrap();
    assert_eq!(other.role, ClientRole::Unknown);
    assert_eq!(other.group_id, None);
    assert!(cm.remove_client(CC, &mut outbox));
    assert!(cm.is_closing(CC));
}

#[test]
fn leaving_tells_the_partner_and_drops_an_empty_group() {
    let mut cm = manager_with(&[CC, OSM]);
    let mut outbox: Vec<Outgoing> = Vec::new();
    cm.join_group(CC, register("g1", ClientRole::ControlCenter, "t1"), 1, &mut outbox).unwrap();
    cm.join_group(OSM, register("g1", ClientRole::OnSiteMobile, "t1"), 2, &mut outbox).unwrap();
    outbox.clear();

    assert!(cm.remove_client(CC, &mut outbox));
    assert_eq!(outbox.len(), 1);
    assert_eq!(outbox[0].recipient, OSM);
    match &outbox[0].message {
        ServerMessage::PartnerStatusUpdate(p) => {
            assert_eq!(p.partner_role, ClientRole::ControlCenter);
            assert_eq!(p.partner_client_id, CC);
            assert!(!p.is_online);
        }
        _ => panic!("expected a partner notice"),
    }
    assert_eq!(cm.get_group("g1").unwrap().control_center_client, None);
    assert!(cm.task_state_manager().get_task_state("g1").is_some());

    outbox.clear();
    assert!(cm.remove_client(OSM, &mut outbox));
    assert!(outbox.is_empty());
    assert!(cm.get_group("g1").is_none());
    assert!(cm.task_state_manager().get_task_state("g1").is_none());
    assert_eq!(cm.get_client_count(), 0);
    assert!(!cm.remove_client(OSM, &mut outbox));
}

#[test]
fn task_state_broadcast_reaches_every_member() {
    let mut cm = manager_with(&[CC, OSM]);
    let mut outbox: Vec<Outgoing> = Vec::new();
    cm.join_group(CC, register("g1", ClientRole::ControlCenter, "t1"), 1, &mut outbox).unwrap();
    cm.join_group(OSM, register("g1", ClientRole::OnSiteMobile, "t1"), 2, &mut outbox).unwrap();
    let changed = cm.update_task_state("g1", ClientRole::OnSiteMobile, pre_check("i1", "OK", None), 3);
    assert_eq!(changed.unwrap().version, 1);
    let b = cm.task_state_manager().force_broadcast_state("g1", &cm).unwrap();
    assert_eq!(b.recipients, vec![CC, OSM]);
    match &b.message {
        ServerMessage::TaskStateUpdate(st) => assert_eq!(st.version, 1),
        _ => panic!("expected a task-state update"),
    }
    assert_eq!(b.message.message_type(), "TaskStateUpdate");
    assert!(cm.task_state_manager().force_broadcast_state("missing", &cm).is_none());
    // a refused registration leaves a group with a state but no members
    assert!(cm.join_group(CC, register("g5", ClientRole::Unknown, "t5"), 4, &mut outbox).is_err());
    assert!(cm.task_state_manager().get_task_state("g5").is_some());
    assert!(cm.task_state_manager().force_broadcast_state("g5", &cm).is_none());
}

#[test]
fn router_answers_each_kind_of_message() {
    assert_eq!(classify_message_type("Echo"), MessageKind::Echo);
    assert_eq!(classify_message_type("Ping"), MessageKind::Ping);
    assert_eq!(classify_message_type("Register"), MessageKind::Register);
    assert_eq!(classify_message_type("Bogus"), MessageKind::Unsupported);

    let mut cm = manager_with(&[CC]);
    let mut outbox: Vec<Outgoing> = Vec::new();
    route_message(&mut cm, CC, "Echo", InboundPayload::Echo(Ok(EchoPayload { content: "Hello, WebSocket!".to_string() })), 5000, &mut outbox);
    match &outbox[0].message {
        ServerMessage::Echo(p) => assert_eq!(p.content, "Hello, WebSocket!"),
        _ => panic!("expected an echo"),
    }
    assert_eq!(cm.client_session(CC).unwrap().last_seen, 5000);

    outbox.clear();
    route_message(&mut cm, CC, "Echo", InboundPayload::Echo(Err("bad".to_string())), 5001, &mut outbox);
    match &outbox[0].message {
        ServerMessage::ErrorResponse(e) => {
            assert_eq!(e.original_message_type.as_deref(), Some("Echo"));
            assert_eq!(e.error, "Echo (回声) 请求的负载 (payload) 格式无效: bad. 请确保提供符合 EchoPayload 结构的JSON对象。");
        }
        _ => panic!("expected an error"),
    }

    outbox.clear();
    route_message(&mut cm, CC, "Ping", InboundPayload::Ping(Ok(PingPayload {})), 5002, &mut outbox);
    assert!(matches!(outbox[0].message, ServerMessage::Pong(_)));
    assert_eq!(outbox[0].message.message_type(), "Pong");
    outbox.clear();
    route_message(&mut cm, CC, "Ping", InboundPayload::Ping(Err("x".to_string())), 5003, &mut outbox);
    assert!(outbox.is_empty());

    route_message(&mut cm, CC, "Register", InboundPayload::Register(Err("missing field".to_string())), 5004, &mut outbox);
    match &outbox[0].message {
        ServerMessage::RegisterResponse(r) => {
            assert!(!r.success);
            assert_eq!(
                r.message.as_deref(),
                Some("无效的 Register (注册/加入组) 请求负载格式: missing field. 请确保提供符合 RegisterPayload 结构的JSON对象。")
            );
        }
        _ => panic!("expected a registration reply"),
    }

    outbox.clear();
    route_message(&mut cm, CC, "Register", InboundPayload::Register(Ok(register("g1", ClientRole::ControlCenter, "t1"))), 5005, &mut outbox);
    match &outbox[0].message {
        ServerMessage::RegisterResponse(r) => assert!(r.success),
        _ => panic!("expected a registration reply"),
    }

    outbox.clear();
    handle_message(&mut cm, CC, "Bogus", InboundPayload::Unsupported, &mut outbox);
    match &outbox[0].message {
        ServerMessage::ErrorResponse(e) => {
            assert_eq!(e.original_message_type.as_deref(), Some("Bogus"));
            assert_eq!(e.error, "服务器不支持消息类型 'Bogus'，或者该类型当前未实现处理逻辑。");
        }
        _ => panic!("expected an error"),
    }
}

#[test]
fn heartbeat_removes_only_silent_clients() {
    let mut cm = ConnectionManager::new(TaskStateManager::new());
    cm.add_session(ClientSession::with_identity(CC, "a".to_string(), 0));
    cm.add_session(ClientSession::with_identity(OSM, "b".to_string(), 1000));
    let monitor = HeartbeatMonitor::new(60, 15);
    assert_eq!(monitor.timeout_nanos(), 60_000_000_000);
    assert_eq!(monitor.check_interval_seconds(), 15);
    let mut outbox: Vec<Outgoing> = Vec::new();
    assert!(monitor.check_for_timed_out_clients_at(&mut cm, 60_000_000_000, &mut outbox).is_empty());
    // a single nanosecond past the timeout is enough
    let removed = monitor.check_for_timed_out_clients_at(&mut cm, 60_000_000_001, &mut outbox);
    assert_eq!(removed, vec![CC]);
    assert!(cm.client_session(CC).is_none());
    assert!(cm.client_session(OSM).is_some());
}

#[test]
fn heartbeat_falls_back_to_a_minute_for_huge_timeouts() {
    assert_eq!(HeartbeatMonitor::new(u64::MAX, 15).timeout_nanos(), 60_000_000_000);
    assert_eq!(
        HeartbeatMonitor::new(9223372036854775, 15).timeout_nanos(),
        9223372036854775_000_000_000
    );
    assert_eq!(HeartbeatMonitor::new(9223372036854776, 15).timeout_nanos(), 60_000_000_000);
    assert_eq!(HeartbeatMonitor::new(0, 1).timeout_nanos(), 0);
}

#[test]
fn cloud_configuration_defaults_and_loading() {
    let ws = WsConfig::load();
    assert_eq!(ws.host, DEFAULT_WS_HOST);
    assert_eq!(ws.host, "0.0.0.0");
    assert_eq!(ws.port, DEFAULT_WS_PORT);
    let d = WebSocketConfig::default();
    assert_eq!(d.host, "127.0.0.1");
    assert_eq!(d.port, 8088);
    assert_eq!(d.heartbeat_check_interval_seconds, 15);
    assert_eq!(d.client_timeout_seconds, 60);

    let (c, save) = load_or_create_config(ConfigFileOutcome::Unreadable);
    assert!(save);
    assert_eq!(c.websocket.port, 8088);
    let (_, save) = load_or_create_config(ConfigFileOutcome::Malformed);
    assert!(save);
    let (_, save) = load_or_create_config(ConfigFileOutcome::DirectoryUnavailable);
    assert!(!save);
    let mut custom = AppConfig::default();
    custom.websocket.port = 9000;
    let (c, save) = load_or_create_config(ConfigFileOutcome::Parsed(custom));
    assert!(!save);
    assert_eq!(c.websocket.port, 9000);
}

#[test]
fn configuration_is_set_once() {
    let mut store = ConfigStore::new();
    assert!(!store.is_initialized());
    let mut first = AppConfig::default();
    first.websocket.port = 1111;
    let mut second = AppConfig::default();
    second.websocket.port = 2222;
    assert!(init_config(&mut store, first));
    assert!(!init_config(&mut store, second));
    assert_eq!(get_config(&store).websocket.port, 1111);
}

#[test]
fn new_sessions_start_unregistered() {
    let s = ClientSession::with_identity(CC, "10.0.0.1:5000".to_string(), 42);
    assert_eq!(s.role, ClientRole::Unknown);
    assert!(s.group_id.is_none());
    assert_eq!(s.creation_time, 42);
    assert_eq!(s.last_seen, 42);
    let mut cm = ConnectionManager::new(TaskStateManager::new());
    let added = cm.add_client("10.0.0.2:6000".to_string());
    assert_eq!(cm.get_client_count(), 1);
    assert_eq!(cm.client_session(added.client_id).unwrap().addr, "10.0.0.2:6000");
    assert_eq!(cm.get_all_client_sessions().len(), 1);
}

#[test]
fn leaving_a_new_group_leaves_no_trace() {
    let mut cm = manager_with(&[CC]);
    let mut outbox: Vec<Outgoing> = Vec::new();
    cm.join_group(CC, register("fresh", ClientRole::OnSiteMobile, "t7"), 10, &mut outbox).unwrap();
    assert_eq!(cm.get_group_count(), 1);
    assert!(cm.task_state_manager().get_task_state("fresh").is_some());
    assert!(cm.remove_client(CC, &mut outbox));
    assert_eq!(cm.get_group_count(), 0);
    assert!(cm.task_state_manager().get_task_state("fresh").is_none());
    assert_eq!(cm.get_client_count(), 0);
    assert!(outbox.is_empty());
}

#[test]
fn greeting_names_the_guest() {
    assert_eq!(sat_platform::cloud::greeting::greet("测试"), "你好, 测试! 来自 Rust 的问候!");
}

#[test]
fn fresh_client_ids_are_random_uuids() {
    let s = ClientSession::new("127.0.0.1:9".to_string());
    assert_eq!(s.client_id & 0xF000_C000_0000_0000_0000u128, 0x4000_8000_0000_0000_0000u128);
    let mut cm = ConnectionManager::new(TaskStateManager::new());
    let c = cm.add_client("127.0.0.1:10".to_string());
    assert_eq!(c.client_id & 0xF000_C000_0000_0000_0000u128, 0x4000_8000_0000_0000_0000u128);
    assert_ne!(c.client_id, s.client_id);
}
