use grammarbot::db_interactions::{get_all_roles, get_role_message, initiate_db, Database};
use grammarbot::embed_tools::{Embed, EmbedField, Reply};
use grammarbot::role_commands::{
    activate_msg_role, activation, add_role, add_role_reply, emote_mention, message_link,
    post_msg_role, posting, remove_role, remove_role_reply, reset_roles, reset_roles_reply,
    role_list, role_mention, set_msg_role, set_msg_role_reply, show_msg_role, show_msg_role_reply,
    Posting,
};
use grammarbot::types::{DBIError, EmoteRef, MessageRef, RoleMessage, RoleRef, UserRef, UserRole};

fn op() -> UserRef {
    UserRef { id: 2, name: "op".to_string() }
}

fn role(id: u64, name: &str) -> RoleRef {
    RoleRef { id, name: name.to_string() }
}

fn emote(id: u64, name: &str) -> EmoteRef {
    EmoteRef { id, name: name.to_string(), animated: false }
}

fn two_roles() -> Database {
    let mut db = initiate_db();
    add_role(&mut db, Some(1), role(100, "Verified"), emote(555, "check"), "Confirmed members".to_string());
    add_role(&mut db, Some(1), role(200, "Helper"), EmoteRef { id: 556, name: "wave".to_string(), animated: true }, "Answers questions".to_string());
    db
}

#[test]
fn mentions_and_links() {
    assert_eq!(role_mention(&role(100, "Verified")), "<@&100>");
    assert_eq!(emote_mention(&emote(555, "check")), "<:check:555>");
    assert_eq!(emote_mention(&EmoteRef { id: 556, name: "wave".to_string(), animated: true }), "<a:wave:556>");
    assert_eq!(
        message_link(&MessageRef { id: 999, channel_id: 42, guild_id: Some(1) }),
        "https://discord.com/channels/1/42/999"
    );
    assert_eq!(
        message_link(&MessageRef { id: 999, channel_id: 42, guild_id: None }),
        "https://discord.com/channels/@me/42/999"
    );
}

#[test]
fn role_list_has_one_line_per_role() {
    let db = two_roles();
    let roles = get_all_roles(&db, Some(1)).unwrap();
    assert_eq!(
        role_list(&roles),
        "<:check:555> <@&100>: Confirmed members\n<a:wave:556> <@&200>: Answers questions\n"
    );
    assert_eq!(role_list(&Vec::new()), "");
}

#[test]
fn add_role_command_replies() {
    let mut db = initiate_db();
    let reply = add_role(&mut db, Some(1), role(100, "Verified"), emote(555, "check"), "d".to_string());
    assert_eq!(reply, "Role <@&100> added sucessfully!");
    let reply = add_role(&mut db, Some(1), role(100, "Verified"), emote(777, "other"), "d".to_string());
    assert_eq!(reply, "Role already exists");
    let reply = add_role(&mut db, Some(1), role(300, "Third"), emote(555, "check"), "d".to_string());
    assert_eq!(reply, "Role already exists");
    assert_eq!(get_all_roles(&db, Some(1)).unwrap().len(), 1);
}

#[test]
fn remove_role_command_replies() {
    let mut db = two_roles();
    assert_eq!(
        remove_role(&mut db, Some(1), &role(100, "Verified")),
        Ok("Role <@&100> successfully removed from list.".to_string())
    );
    assert_eq!(remove_role(&mut db, Some(1), &role(100, "Verified")), Err(DBIError::RoleNotFound));
    assert_eq!(get_all_roles(&db, Some(1)).unwrap().len(), 1);
}

#[test]
fn role_replies_render_each_answer() {
    let bound = UserRole { guild_role: role(100, "Verified"), emote: emote(555, "check"), desc: String::new() };
    assert_eq!(add_role_reply(&Err(DBIError::RoleAlreadyExists)), "Role already exists");
    assert_eq!(remove_role_reply(&Err(DBIError::RoleNotFound)), "Role not found");
    assert_eq!(remove_role_reply(&Ok(bound)), "Role <@&100> successfully removed from list.");
    assert_eq!(set_msg_role_reply(&Ok(())), "Role message set successfully.");
    assert_eq!(set_msg_role_reply(&Err(DBIError::DBError("x".to_string()))), "Error when accessing the DB: x");
}

#[test]
fn reset_roles_names_what_it_removed() {
    let mut db = two_roles();
    assert_eq!(reset_roles(&mut db, Some(1)), Ok(Some("Verified Helper".to_string())));
    assert_eq!(get_all_roles(&db, Some(1)), Ok(vec![]));
    assert_eq!(reset_roles(&mut db, Some(1)), Ok(None));
    let nameless = vec![UserRole { guild_role: role(1, ""), emote: emote(2, "e"), desc: String::new() }];
    assert_eq!(reset_roles_reply(&nameless), None);
}

#[test]
fn set_msg_role_command_sets_the_text() {
    let mut db = initiate_db();
    assert_eq!(set_msg_role(&mut db, Some(1), &op(), "React to get roles".to_string()), "Role message set successfully.");
    assert_eq!(get_role_message(&db, Some(1)).unwrap().unwrap().messagetext, "React to get roles");
}

#[test]
fn show_msg_role_without_a_message() {
    let db = two_roles();
    assert_eq!(
        show_msg_role(&db, Some(1), &op()),
        Ok(Reply::Text("No role message set on this server".to_string()))
    );
}

#[test]
fn show_msg_role_shows_text_roles_link_and_state() {
    let mut db = two_roles();
    set_msg_role(&mut db, Some(1), &op(), "React to get roles".to_string());
    let unposted = show_msg_role(&db, Some(1), &UserRef { id: 9, name: "asker".to_string() }).unwrap();
    let expected = Embed {
        title: "Current role message".to_string(),
        description: "React to get roles".to_string(),
        thumbnail: None,
        fields: vec![
            EmbedField {
                name: "Roles".to_string(),
                value: "<:check:555> <@&100>: Confirmed members\n<a:wave:556> <@&200>: Answers questions\n".to_string(),
                inline: false,
            },
            EmbedField { name: "Message link".to_string(), value: "None".to_string(), inline: true },
            EmbedField { name: "Is active".to_string(), value: "false".to_string(), inline: true },
        ],
        footer: "Requested by: asker".to_string(),
    };
    assert_eq!(unposted, Reply::Rich(expected));

    post_msg_role(&mut db, Some(1), &op(), MessageRef { id: 999, channel_id: 42, guild_id: Some(1) }).unwrap();
    match show_msg_role(&db, Some(1), &op()).unwrap() {
        Reply::Rich(embed) => {
            assert_eq!(embed.fields[1].value, "https://discord.com/channels/1/42/999");
            assert_eq!(embed.fields[2].value, "true");
        }
        other => panic!("not an embed: {:?}", other),
    }
}

#[test]
fn show_msg_role_reply_from_what_was_read() {
    assert_eq!(
        show_msg_role_reply(&Vec::new(), &None, "asker"),
        Reply::Text("No role message set on this server".to_string())
    );
}

#[test]
fn posting_needs_a_message_and_a_role() {
    let db = two_roles();
    let roles = get_all_roles(&db, Some(1)).unwrap();
    let message = RoleMessage {
        messagetext: "React to get roles".to_string(),
        guild_message: None,
        active: false,
        message_by: op(),
        posted_by: None,
    };
    assert_eq!(posting(&None, &roles), None);
    assert_eq!(posting(&Some(message), &Vec::new()), None);
    let message = RoleMessage {
        messagetext: "React to get roles".to_string(),
        guild_message: None,
        active: false,
        message_by: op(),
        posted_by: None,
    };
    assert_eq!(
        posting(&Some(message), &roles),
        Some(Posting {
            text: "# Reaction roles\nReact to get roles\n## Available roles\n<:check:555> <@&100>: Confirmed members\n<a:wave:556> <@&200>: Answers questions\n".to_string(),
            reactions: vec![emote(555, "check"), EmoteRef { id: 556, name: "wave".to_string(), animated: true }],
        })
    );
}

#[test]
fn post_msg_role_records_the_posted_message() {
    let mut db = two_roles();
    let sent = MessageRef { id: 999, channel_id: 42, guild_id: Some(1) };
    assert_eq!(
        post_msg_role(&mut db, Some(1), &op(), sent),
        Ok("Make sure that a role message is set and that at least one role was selected as a user assignable role.".to_string())
    );
    set_msg_role(&mut db, Some(1), &op(), "React to get roles".to_string());
    assert_eq!(post_msg_role(&mut db, Some(1), &UserRef { id: 3, name: "poster".to_string() }, sent), Ok("Message posted sucessfully.".to_string()));
    assert_eq!(
        get_role_message(&db, Some(1)),
        Ok(Some(RoleMessage {
            messagetext: "React to get roles".to_string(),
            guild_message: Some(sent),
            active: true,
            message_by: op(),
            posted_by: Some(UserRef { id: 3, name: "poster".to_string() }),
        }))
    );
}

#[test]
fn post_msg_role_without_roles_records_nothing() {
    let mut db = initiate_db();
    set_msg_role(&mut db, Some(1), &op(), "text".to_string());
    let sent = MessageRef { id: 999, channel_id: 42, guild_id: Some(1) };
    assert_eq!(
        post_msg_role(&mut db, Some(1), &op(), sent),
        Ok("Make sure that a role message is set and that at least one role was selected as a user assignable role.".to_string())
    );
    assert_eq!(get_role_message(&db, Some(1)).unwrap().unwrap().guild_message, None);
}

#[test]
fn activate_msg_role_says_what_is_missing() {
    let mut db = two_roles();
    assert_eq!(
        activate_msg_role(&mut db, Some(1), &op(), true),
        Ok(Some("No role message created. Create one and post it first before attempting to change its status.".to_string()))
    );
    set_msg_role(&mut db, Some(1), &op(), "text".to_string());
    assert_eq!(
        activate_msg_role(&mut db, Some(1), &op(), true),
        Ok(Some("Role message exists but it's not posted anywhere. Post it to a channel first using the `/role post` command first before attempting to change its status.".to_string()))
    );
    assert!(!get_role_message(&db, Some(1)).unwrap().unwrap().active);
}

#[test]
fn activate_msg_role_switches_a_posted_message() {
    let mut db = two_roles();
    set_msg_role(&mut db, Some(1), &op(), "text".to_string());
    let sent = MessageRef { id: 999, channel_id: 42, guild_id: Some(1) };
    post_msg_role(&mut db, Some(1), &op(), sent).unwrap();
    assert_eq!(activate_msg_role(&mut db, Some(1), &UserRef { id: 4, name: "mod".to_string() }, false), Ok(None));
    let stored = get_role_message(&db, Some(1)).unwrap().unwrap();
    assert!(!stored.active);
    assert_eq!(stored.guild_message, Some(sent));
    assert_eq!(stored.posted_by, Some(UserRef { id: 4, name: "mod".to_string() }));
    assert_eq!(activate_msg_role(&mut db, Some(1), &op(), true), Ok(None));
    assert!(get_role_message(&db, Some(1)).unwrap().unwrap().active);
}

#[test]
fn activation_of_each_state() {
    let sent = MessageRef { id: 999, channel_id: 42, guild_id: Some(1) };
    let posted = RoleMessage {
        messagetext: "t".to_string(),
        guild_message: Some(sent),
        active: true,
        message_by: op(),
        posted_by: Some(op()),
    };
    assert_eq!(activation(&Some(posted)), Ok(sent));
    assert!(activation(&None).unwrap_err().starts_with("No role message created."));
}
