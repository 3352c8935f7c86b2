use grammarbot::db_interactions::{change_user_points, initiate_db, set_point_emote};
use grammarbot::embed_tools::{Embed, EmbedField};
use grammarbot::types::{DBIError, EmoteRef, MyUser, UserRef};
use grammarbot::user_commands::{
    created_at, user_info, user_info_reply, written_time, MemberInfo,
};

const DEFAULT_AVATAR: &str = "https://example.invalid/default.png";

fn member(id: u64, name: &str, joined_at: i64, avatar: Option<&str>) -> MemberInfo {
    MemberInfo {
        user: UserRef { id, name: name.to_string() },
        joined_at,
        avatar_url: avatar.map(|a| a.to_string()),
    }
}

#[test]
fn creation_time_is_read_from_the_id() {
    assert_eq!(created_at(175928847299117063), 1462015105);
    assert_eq!(created_at(0), 1420070400);
    assert_eq!(created_at(4194303), 1420070400);
    assert_eq!(created_at(4194304 * 1000), 1420070401);
    assert_eq!(created_at(u64::MAX), 5818116911);
}

#[test]
fn user_info_of_a_named_member() {
    let mut db = initiate_db();
    set_point_emote(&mut db, &EmoteRef { id: 900, name: "point".to_string(), animated: false }, &UserRef { id: 1, name: "admin".to_string() }, Some(1)).unwrap();
    change_user_points(&mut db, Some(1), UserRef { id: 175928847299117063, name: "bob".to_string() }, 4).unwrap();
    let bob = member(175928847299117063, "bob", 1431648000, Some("https://example.invalid/bob.png"));
    let asker = member(5, "asker", 0, None);
    let embed = user_info(&db, Some(1), Some(bob), asker, DEFAULT_AVATAR);
    assert_eq!(
        embed,
        Embed {
            title: "bob".to_string(),
            description: String::new(),
            thumbnail: Some("https://example.invalid/bob.png".to_string()),
            fields: vec![
                EmbedField { name: "ID".to_string(), value: "175928847299117063".to_string(), inline: false },
                EmbedField { name: "Joined at".to_string(), value: "15. May 2015 00:00".to_string(), inline: false },
                EmbedField { name: "Created at".to_string(), value: "30. Apr 2016 11:18".to_string(), inline: false },
                EmbedField { name: "Points".to_string(), value: "4".to_string(), inline: false },
            ],
            footer: "Requested by: asker".to_string(),
        }
    );
}

#[test]
fn user_info_of_the_asking_member() {
    let db = initiate_db();
    let asker = member(4194304 * 1000 * 86400, "asker", 86399, None);
    let embed = user_info(&db, Some(1), None, asker, DEFAULT_AVATAR);
    assert_eq!(embed.title, "asker");
    assert_eq!(embed.thumbnail, Some(DEFAULT_AVATAR.to_string()));
    assert_eq!(embed.fields[1].value, "01. Jan 1970 23:59");
    assert_eq!(embed.fields[2].value, "02. Jan 2015 00:00");
    assert_eq!(embed.fields[3].value, "0");
    assert_eq!(embed.footer, "Requested by: asker");
}

#[test]
fn user_info_reply_shows_a_dash_for_a_missing_moment() {
    let m = member(9, "kim", 0, None);
    let kept = Ok(MyUser { discord_id: 9, discord_user: UserRef { id: 9, name: "kim".to_string() }, grammarpoints: 12 });
    let embed = user_info_reply(&m, None, Some("then".to_string()), &kept, "asker", DEFAULT_AVATAR);
    assert_eq!(embed.fields[1].value, "-");
    assert_eq!(embed.fields[2].value, "then");
    assert_eq!(embed.fields[3].value, "12");
    let embed = user_info_reply(&m, Some("now".to_string()), None, &Err(DBIError::UserNotFound), "asker", DEFAULT_AVATAR);
    assert_eq!(embed.fields[1].value, "now");
    assert_eq!(embed.fields[2].value, "-");
    assert_eq!(embed.fields[3].value, "0");
}

#[test]
fn user_info_of_a_moment_off_the_calendar() {
    let db = initiate_db();
    let asker = member(5, "asker", i64::MAX, None);
    let embed = user_info(&db, Some(1), None, asker, DEFAULT_AVATAR);
    assert_eq!(embed.fields[1].value, "-");
}

#[test]
fn written_time_follows_the_pattern() {
    assert_eq!(written_time(0), Some("01. Jan 1970 00:00".to_string()));
    assert_eq!(written_time(1462015105), Some("30. Apr 2016 11:18".to_string()));
    assert_eq!(written_time(-1), Some("31. Dec 1969 23:59".to_string()));
    assert_eq!(written_time(i64::MAX), None);
    assert_eq!(written_time(i64::MIN), None);
}
