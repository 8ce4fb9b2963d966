use std::collections::HashSet;

use sat_platform::add;
use sat_platform::models::enums::{ClientRole, PreCheckStatus};
use sat_platform::models::payloads::RegisterPayload;
use sat_platform::models::task_models::{PreCheckItemStatus, TaskDebugState};
use sat_platform::text::{str_eq, truncate_string};

#[test]
fn test_client_role_creation_and_equality() {
    let role1 = ClientRole::ControlCenter;
    let role2 = ClientRole::ControlCenter;
    let role3 = ClientRole::OnSiteMobile;
    assert_eq!(role1, role2, "ClientRole::ControlCenter 应该等于 ClientRole::ControlCenter");
    assert_ne!(role1, role3, "ClientRole::ControlCenter 不应等于 ClientRole::OnSiteMobile");
    assert_eq!(ClientRole::Unknown, ClientRole::Unknown, "ClientRole::Unknown 应该等于 ClientRole::Unknown");
}

#[test]
fn test_client_role_debug_clone() {
    let role = ClientRole::OnSiteMobile;
    let cloned_role = role.clone();
    assert_eq!(role, cloned_role, "克隆后的 ClientRole::OnSiteMobile 实例应与原始实例相等");
    assert_eq!(
        format!("{:?}", role),
        "OnSiteMobile",
        "ClientRole::OnSiteMobile 的 Debug 输出格式不正确，应为 \"OnSiteMobile\""
    );
}

#[test]
fn test_client_role_hash() {
    let mut roles_set = HashSet::new();
    roles_set.insert(ClientRole::ControlCenter);
    roles_set.insert(ClientRole::ControlCenter);
    roles_set.insert(ClientRole::OnSiteMobile);
    assert_eq!(roles_set.len(), 2, "HashSet 中应包含2个唯一的 ClientRole 成员");
    assert!(roles_set.contains(&ClientRole::ControlCenter), "HashSet 中应包含 ClientRole::ControlCenter");
    assert!(roles_set.contains(&ClientRole::OnSiteMobile), "HashSet 中应包含 ClientRole::OnSiteMobile");
    assert!(!roles_set.contains(&ClientRole::Unknown), "HashSet 中不应包含 ClientRole::Unknown");
}

#[test]
fn it_works() {
    let result = add(2, 2);
    assert_eq!(result, 4);
}

#[test]
fn test_register_payload_clone_debug() {
    let payload = RegisterPayload {
        group_id: "clone_group".to_string(),
        role: ClientRole::OnSiteMobile,
        task_id: "clone_task".to_string(),
    };
    let cloned_payload = payload.clone();
    assert_eq!(payload.group_id, cloned_payload.group_id);
    assert_eq!(payload.role, cloned_payload.role);
    assert_eq!(payload.task_id, cloned_payload.task_id);
    assert!(!format!("{:?}", payload).is_empty());
}

#[test]
fn role_display_names_and_partners() {
    assert_eq!(ClientRole::ControlCenter.to_string(), "ControlCenter");
    assert_eq!(ClientRole::OnSiteMobile.to_string(), "OnSiteMobile");
    assert_eq!(ClientRole::Unknown.to_string(), "Unknown");
    assert_eq!(ClientRole::ControlCenter.partner_role(), Some(ClientRole::OnSiteMobile));
    assert_eq!(ClientRole::OnSiteMobile.partner_role(), Some(ClientRole::ControlCenter));
    assert_eq!(ClientRole::Unknown.partner_role(), None);
    assert_ne!(PreCheckStatus::Passed, PreCheckStatus::Failed);
}

#[test]
fn add_sums_exactly() {
    assert_eq!(add(0, 0), 0);
    assert_eq!(add(u64::MAX - 1, 1), u64::MAX);
}

#[test]
fn str_eq_compares_by_characters() {
    assert!(str_eq("Echo", "Echo"));
    assert!(!str_eq("Echo", "Ech"));
    assert!(!str_eq("Echo", "echo"));
    assert!(str_eq("", ""));
    assert!(str_eq("组ID", "组ID"));
}

#[test]
fn truncate_string_keeps_short_text() {
    assert_eq!(truncate_string("hello", 100), "hello");
    assert_eq!(truncate_string("hello", 5), "hello");
}

#[test]
fn truncate_string_cuts_long_text() {
    let long = "a".repeat(120);
    let cut = truncate_string(&long, 100);
    assert_eq!(cut, format!("{}... (truncated)", "a".repeat(80)));
    assert!(cut.len() <= 100);
    assert_eq!(truncate_string("abcdefghij", 5), "... (truncated)");
}

#[test]
fn task_state_starts_empty_and_copies_deeply() {
    let mut state = TaskDebugState::new_at("task_xyz_123".to_string(), 1000);
    assert_eq!(state.task_id, "task_xyz_123");
    assert_eq!(state.version, 0);
    assert_eq!(state.last_update_timestamp, 1000);
    assert!(state.pre_check_items.is_empty());
    assert!(state.last_updated_by_role.is_none());
    state.pre_check_items.push(PreCheckItemStatus::new_at("pc_001".to_string(), 1000));
    let copy = state.duplicate();
    assert_eq!(copy.pre_check_items.len(), 1);
    assert_eq!(copy.pre_check_items[0].item_id, "pc_001");
    assert_eq!(state.find_pre_check_item("pc_001"), Some(0));
    assert_eq!(state.find_pre_check_item("pc_002"), None);
}
