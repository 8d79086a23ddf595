use rusty_chat::client_registry::ClientManager;
use rusty_chat::room_registry::{RoomError, RoomManager};

#[test]
fn fresh_registry_has_general() {
    let rm = RoomManager::new();
    let listing = rm.list_rooms();
    assert!(listing.iter().any(|(name, _, _)| name == "general"));
}

#[test]
fn join_unprotected_room_accepts_any_password() {
    let mut rm = RoomManager::new();
    assert!(rm.join_room("general", 1, None).is_ok());
    assert!(rm.join_room("general", 2, Some("whatever")).is_ok());
    let members = rm.get_room_members("general");
    assert_eq!(members, vec![1, 2]);
}

#[test]
fn join_protected_room_needs_exact_password() {
    let mut rm = RoomManager::new();
    rm.create_room("vault".to_string(), Some("SECRET-REDACTED".to_string()), 7).unwrap();
    assert_eq!(rm.join_room("vault", 1, None), Err(RoomError::PasswordRequired));
    assert_eq!(rm.join_room("vault", 1, Some("wrong")), Err(RoomError::BadPassword));
    assert!(rm.join_room("vault", 1, Some("SECRET-REDACTED")).is_ok());
}

#[test]
fn join_missing_room_is_not_found() {
    let mut rm = RoomManager::new();
    assert_eq!(rm.join_room("nowhere", 1, None), Err(RoomError::NotFound));
}

#[test]
fn rejoining_is_a_no_op() {
    let mut rm = RoomManager::new();
    rm.join_room("general", 1, None).unwrap();
    rm.join_room("general", 1, None).unwrap();
    assert_eq!(rm.get_room_members("general"), vec![1]);
}

#[test]
fn create_duplicate_room_already_exists() {
    let mut rm = RoomManager::new();
    rm.create_room("x".to_string(), None, 1).unwrap();
    assert_eq!(rm.create_room("x".to_string(), None, 2), Err(RoomError::AlreadyExists));
}

#[test]
fn delete_general_always_protected() {
    let mut rm = RoomManager::new();
    assert_eq!(rm.delete_room("general", 0), Err(RoomError::Protected));
    assert_eq!(rm.delete_room("general", 42), Err(RoomError::Protected));
    assert!(rm.list_rooms().iter().any(|(name, _, _)| name == "general"));
}

#[test]
fn delete_by_non_owner_then_owner() {
    let mut rm = RoomManager::new();
    rm.create_room("x".to_string(), None, 1).unwrap();
    assert_eq!(rm.delete_room("x", 2), Err(RoomError::NotOwner));
    assert!(rm.delete_room("x", 1).is_ok());
    assert_eq!(rm.join_room("x", 3, None), Err(RoomError::NotFound));
}

#[test]
fn delete_missing_room_not_found() {
    let mut rm = RoomManager::new();
    assert_eq!(rm.delete_room("ghost", 1), Err(RoomError::NotFound));
}

#[test]
fn leave_room_removes_membership() {
    let mut rm = RoomManager::new();
    rm.join_room("general", 1, None).unwrap();
    rm.join_room("general", 2, None).unwrap();
    rm.leave_room("general", 1);
    assert_eq!(rm.get_room_members("general"), vec![2]);
    rm.leave_room("missing", 2);
    assert_eq!(rm.get_room_members("general"), vec![2]);
}

#[test]
fn get_user_room_finds_the_room() {
    let mut rm = RoomManager::new();
    assert!(rm.get_user_room(5).is_none());
    rm.join_room("general", 5, None).unwrap();
    assert_eq!(rm.get_user_room(5).as_deref(), Some("general"));
}

#[test]
fn room_info_reports_owner_and_password() {
    let mut rm = RoomManager::new();
    rm.create_room("den".to_string(), Some("pw".to_string()), 9).unwrap();
    let (owner, password) = rm.get_room_info("den").unwrap();
    assert_eq!(owner, 9);
    assert_eq!(password.as_deref(), Some("pw"));
    assert!(rm.get_room_info("missing").is_none());
}

#[test]
fn list_rooms_reports_counts_and_protection() {
    let mut rm = RoomManager::new();
    rm.create_room("den".to_string(), Some("pw".to_string()), 9).unwrap();
    rm.join_room("den", 9, Some("pw")).unwrap();
    let listing = rm.list_rooms();
    let den = listing.iter().find(|(name, _, _)| name == "den").unwrap();
    assert_eq!(den.1, 1);
    assert!(den.2);
    let general = listing.iter().find(|(name, _, _)| name == "general").unwrap();
    assert_eq!(general.1, 0);
    assert!(!general.2);
}

#[test]
fn registered_name_becomes_unavailable() {
    let mut cm = ClientManager::new();
    assert!(cm.is_name_available("alice"));
    cm.register_client(1, "alice".to_string());
    assert!(!cm.is_name_available("alice"));
    assert!(cm.is_name_available("bob"));
}

#[test]
fn name_frees_after_remove_or_rename() {
    let mut cm = ClientManager::new();
    cm.register_client(1, "alice".to_string());
    cm.register_client(2, "bob".to_string());
    cm.remove_client(1);
    assert!(cm.is_name_available("alice"));
    cm.update_client_name(2, "robert".to_string());
    assert!(cm.is_name_available("bob"));
    assert!(!cm.is_name_available("robert"));
}

#[test]
fn color_indices_strictly_increase() {
    let mut cm = ClientManager::new();
    cm.register_client(1, "alice".to_string());
    cm.register_client(2, "bob".to_string());
    let a = cm.get_client_info(1).unwrap();
    let b = cm.get_client_info(2).unwrap();
    assert!(a.color_index < b.color_index);
    assert_eq!(a.color_index, 0);
    assert_eq!(b.color_index, 1);
}

#[test]
fn reregistering_advances_the_counter_too() {
    let mut cm = ClientManager::new();
    cm.register_client(1, "alice".to_string());
    cm.register_client(1, "alicia".to_string());
    cm.register_client(2, "bob".to_string());
    assert_eq!(cm.get_client_info(1).unwrap().color_index, 1);
    assert_eq!(cm.get_client_info(2).unwrap().color_index, 2);
    assert_eq!(cm.get_clients_name(1).as_deref(), Some("alicia"));
}

#[test]
fn lookup_by_name_and_by_addr() {
    let mut cm = ClientManager::new();
    cm.register_client(7, "carol".to_string());
    assert_eq!(cm.get_client_by_name("carol"), Some(7));
    assert!(cm.get_client_by_name("nobody").is_none());
    assert_eq!(cm.get_clients_name(7).as_deref(), Some("carol"));
    assert!(cm.get_clients_name(8).is_none());
    let all = cm.get_clients();
    assert_eq!(all.len(), 1);
    assert_eq!(all[0].0, 7);
    assert_eq!(all[0].1.name, "carol");
}
