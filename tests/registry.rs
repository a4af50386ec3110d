use chat_cli::registry::{add_user, get_user_by_id, UserRegistry};

#[test]
fn fresh_registry_finds_nobody() {
    let reg = UserRegistry::new();
    assert_eq!(reg.len(), 0);
    assert!(get_user_by_id(&reg, "abc").is_none());
}

#[test]
fn added_user_is_found_by_id() {
    let mut reg = UserRegistry::new();
    let u = add_user(&mut reg, "alice".to_string(), "id-1".to_string());
    assert_eq!(u.name, "alice");
    assert_eq!(u.id, "id-1");
    assert!(u.chat_log.is_empty());
    let found = get_user_by_id(&reg, &u.id).unwrap();
    assert_eq!(found.name, "alice");
    assert_eq!(found.id, "id-1");
    assert_eq!(reg.len(), 1);
    assert!(get_user_by_id(&reg, "id-2").is_none());
}

#[test]
fn same_id_twice_finds_the_first() {
    let mut reg = UserRegistry::new();
    add_user(&mut reg, "alice".to_string(), "host".to_string());
    add_user(&mut reg, "alice".to_string(), "host".to_string());
    add_user(&mut reg, "bob".to_string(), "other".to_string());
    assert_eq!(reg.len(), 3);
    assert_eq!(get_user_by_id(&reg, "host").unwrap().name, "alice");
    assert_eq!(get_user_by_id(&reg, "other").unwrap().name, "bob");
}
