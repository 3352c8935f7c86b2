use grammarbot::db_interactions::{
    add_role, get_all_roles, get_role, get_role_message, initiate_db, remove_all_roles,
    remove_role, role_binding_free, role_message_binding, role_message_text,
    set_active_role_message, set_role_message,
};
use grammarbot::types::{DBIError, EmoteRef, MessageRef, RoleMessage, RoleRef, UserRef, UserRole};

fn user(id: u64, name: &str) -> UserRef {
    UserRef { id, name: name.to_string() }
}

fn binding(role_id: u64, role_name: &str, emote_id: u64, emote_name: &str) -> UserRole {
    UserRole {
        guild_role: RoleRef { id: role_id, name: role_name.to_string() },
        emote: EmoteRef { id: emote_id, name: emote_name.to_string(), animated: false },
        desc: format!("the {} role", role_name),
    }
}

#[test]
fn added_role_is_listed_and_found() {
    let mut db = initiate_db();
    let verified = binding(100, "Verified", 555, "check");
    assert_eq!(add_role(&mut db, binding(100, "Verified", 555, "check"), Some(1)), Ok(binding(100, "Verified", 555, "check")));
    assert_eq!(get_all_roles(&db, Some(1)), Ok(vec![binding(100, "Verified", 555, "check")]));
    assert_eq!(get_role(&db, 100, Some(1)), Ok(verified));
    assert_eq!(get_role(&db, 101, Some(1)), Err(DBIError::RoleNotFound));
    assert_eq!(get_role(&db, 100, Some(2)), Err(DBIError::RoleNotFound));
}

#[test]
fn role_bound_twice_is_refused() {
    let mut db = initiate_db();
    add_role(&mut db, binding(100, "Verified", 555, "check"), Some(1)).unwrap();
    assert_eq!(
        add_role(&mut db, binding(100, "Verified", 777, "star"), Some(1)),
        Err(DBIError::RoleAlreadyExists)
    );
    assert_eq!(get_all_roles(&db, Some(1)).unwrap().len(), 1);
}

#[test]
fn emote_bound_twice_is_refused() {
    let mut db = initiate_db();
    add_role(&mut db, binding(100, "Verified", 555, "check"), Some(1)).unwrap();
    assert_eq!(
        add_role(&mut db, binding(200, "Helper", 555, "check"), Some(1)),
        Err(DBIError::RoleAlreadyExists)
    );
    assert_eq!(add_role(&mut db, binding(200, "Helper", 556, "wrench"), Some(1)), Ok(binding(200, "Helper", 556, "wrench")));
    assert_eq!(
        get_all_roles(&db, Some(1)),
        Ok(vec![binding(100, "Verified", 555, "check"), binding(200, "Helper", 556, "wrench")])
    );
}

#[test]
fn role_binding_free_reports_each_clash() {
    let roles = vec![binding(100, "Verified", 555, "check")];
    assert_eq!(role_binding_free(&roles, &binding(200, "Helper", 556, "wrench")), Ok(()));
    assert_eq!(role_binding_free(&roles, &binding(100, "Helper", 556, "wrench")), Err(DBIError::RoleAlreadyExists));
    assert_eq!(role_binding_free(&roles, &binding(200, "Helper", 555, "wrench")), Err(DBIError::RoleAlreadyExists));
    assert_eq!(role_binding_free(&Vec::new(), &binding(100, "Verified", 555, "check")), Ok(()));
}

#[test]
fn removed_role_is_handed_back_as_stored() {
    let mut db = initiate_db();
    add_role(&mut db, binding(100, "Verified", 555, "check"), Some(1)).unwrap();
    add_role(&mut db, binding(200, "Helper", 556, "wrench"), Some(1)).unwrap();
    // Only the role's id says which binding leaves.
    let asked = binding(100, "renamed", 1, "other");
    assert_eq!(remove_role(&mut db, asked, Some(1)), Ok(binding(100, "Verified", 555, "check")));
    assert_eq!(get_all_roles(&db, Some(1)), Ok(vec![binding(200, "Helper", 556, "wrench")]));
    assert_eq!(
        remove_role(&mut db, binding(100, "Verified", 555, "check"), Some(1)),
        Err(DBIError::RoleNotFound)
    );
}

#[test]
fn remove_all_roles_empties_one_partition() {
    let mut db = initiate_db();
    add_role(&mut db, binding(100, "Verified", 555, "check"), Some(1)).unwrap();
    add_role(&mut db, binding(200, "Helper", 556, "wrench"), Some(1)).unwrap();
    add_role(&mut db, binding(300, "Other", 557, "x"), Some(2)).unwrap();
    assert_eq!(
        remove_all_roles(&mut db, Some(1)),
        Ok(vec![binding(100, "Verified", 555, "check"), binding(200, "Helper", 556, "wrench")])
    );
    assert_eq!(get_all_roles(&db, Some(1)), Ok(vec![]));
    assert_eq!(get_all_roles(&db, Some(2)).unwrap().len(), 1);
    assert_eq!(remove_all_roles(&mut db, Some(3)), Ok(vec![]));
}

#[test]
fn first_role_message_is_unposted_and_inactive() {
    let mut db = initiate_db();
    assert_eq!(get_role_message(&db, Some(1)), Ok(None));
    assert_eq!(set_role_message(&mut db, "React to get roles".to_string(), &user(9, "op"), Some(1)), Ok(()));
    assert_eq!(
        get_role_message(&db, Some(1)),
        Ok(Some(RoleMessage {
            messagetext: "React to get roles".to_string(),
            guild_message: None,
            active: false,
            message_by: user(9, "op"),
            posted_by: None,
        }))
    );
}

#[test]
fn new_text_keeps_the_posted_message() {
    let mut db = initiate_db();
    set_role_message(&mut db, "old".to_string(), &user(9, "op"), Some(1)).unwrap();
    let current = get_role_message(&db, Some(1)).unwrap().unwrap();
    let posted = MessageRef { id: 999, channel_id: 42, guild_id: Some(1) };
    assert_eq!(set_active_role_message(&mut db, &current, posted, true, &user(8, "mod"), Some(1)), Ok(()));
    set_role_message(&mut db, "new".to_string(), &user(7, "admin"), Some(1)).unwrap();
    assert_eq!(
        get_role_message(&db, Some(1)),
        Ok(Some(RoleMessage {
            messagetext: "new".to_string(),
            guild_message: Some(posted),
            active: true,
            message_by: user(7, "admin"),
            posted_by: Some(user(8, "mod")),
        }))
    );
}

#[test]
fn posting_without_a_role_message_is_refused() {
    let mut db = initiate_db();
    let draft = role_message_text(None, "text".to_string(), &user(9, "op"));
    let posted = MessageRef { id: 999, channel_id: 42, guild_id: Some(1) };
    assert_eq!(
        set_active_role_message(&mut db, &draft, posted, true, &user(9, "op"), Some(1)),
        Err(DBIError::RoleMessageNotFound)
    );
    assert_eq!(get_role_message(&db, Some(1)), Ok(None));
}

#[test]
fn active_state_can_be_switched_off() {
    let mut db = initiate_db();
    set_role_message(&mut db, "text".to_string(), &user(9, "op"), Some(1)).unwrap();
    let current = get_role_message(&db, Some(1)).unwrap().unwrap();
    let posted = MessageRef { id: 999, channel_id: 42, guild_id: Some(1) };
    set_active_role_message(&mut db, &current, posted, true, &user(9, "op"), Some(1)).unwrap();
    let current = get_role_message(&db, Some(1)).unwrap().unwrap();
    set_active_role_message(&mut db, &current, posted, false, &user(5, "mod"), Some(1)).unwrap();
    let stored = get_role_message(&db, Some(1)).unwrap().unwrap();
    assert!(!stored.active);
    assert_eq!(stored.guild_message, Some(posted));
    assert_eq!(stored.posted_by, Some(user(5, "mod")));
    assert_eq!(stored.messagetext, "text");
}

#[test]
fn role_message_binding_replaces_three_fields() {
    let draft = role_message_text(None, "text".to_string(), &user(9, "op"));
    let posted = MessageRef { id: 5, channel_id: 6, guild_id: None };
    let bound = role_message_binding(&draft, posted, true, &user(3, "mod"));
    assert_eq!(
        bound,
        RoleMessage {
            messagetext: "text".to_string(),
            guild_message: Some(posted),
            active: true,
            message_by: user(9, "op"),
            posted_by: Some(user(3, "mod")),
        }
    );
}
