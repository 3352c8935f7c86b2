use grammarbot::db_interactions::{change_user_points, get_point_data, initiate_db, Database};
use grammarbot::embed_tools::{Embed, EmbedField, Reply};
use grammarbot::point_commands::{
    emote_set, emote_set_reply, emote_stats, emote_stats_reply, leaderboard, leaderboard_reply,
    points_in_words, rank_users, standing,
};
use grammarbot::types::{EmoteRef, MyUser, PointsData, UserRef};

fn user(id: u64, name: &str) -> UserRef {
    UserRef { id, name: name.to_string() }
}

fn record(id: u64, name: &str, points: u32) -> MyUser {
    MyUser { discord_id: id, discord_user: user(id, name), grammarpoints: points }
}

fn point_emote() -> EmoteRef {
    EmoteRef { id: 900, name: "point".to_string(), animated: false }
}

fn with_points(balances: &[(u64, &str, i32)]) -> Database {
    let mut db = initiate_db();
    emote_set(&mut db, Some(1), &user(1, "admin"), &point_emote()).unwrap();
    for (id, name, points) in balances {
        change_user_points(&mut db, Some(1), user(*id, name), *points).unwrap();
    }
    db
}

#[test]
fn emote_set_replies_with_the_emote() {
    let mut db = initiate_db();
    assert_eq!(
        emote_set(&mut db, Some(1), &user(1, "admin"), &point_emote()),
        Ok("Set the new point emote to: <:point:900>".to_string())
    );
    assert_eq!(get_point_data(&db, Some(1)).unwrap().unwrap().guild_emote, point_emote());
    assert_eq!(emote_set_reply(&EmoteRef { id: 5, name: "x".to_string(), animated: true }), "Set the new point emote to: <a:x:5>");
}

#[test]
fn emote_stats_without_an_emote() {
    let db = initiate_db();
    assert_eq!(
        emote_stats(&db, Some(1), &user(1, "admin")),
        Ok(Reply::Text("You need to chose a emote to use to collect points by using the `/points emote_set` command.".to_string()))
    );
    assert_eq!(
        emote_stats_reply(&None, "admin"),
        Reply::Text("You need to chose a emote to use to collect points by using the `/points emote_set` command.".to_string())
    );
}

#[test]
fn emote_stats_shows_emote_state_and_total() {
    let db = with_points(&[(7, "bob", 3), (8, "eve", 9)]);
    let expected = Embed {
        title: "Points system info".to_string(),
        description: "Points can be given to users by other users by reacting to their messages with the point emote.".to_string(),
        thumbnail: None,
        fields: vec![
            EmbedField { name: "Point emote".to_string(), value: "<:point:900>".to_string(), inline: false },
            EmbedField { name: "Active".to_string(), value: "false".to_string(), inline: false },
            EmbedField { name: "Total points scored".to_string(), value: "12".to_string(), inline: false },
        ],
        footer: "Requested by: asker".to_string(),
    };
    assert_eq!(emote_stats(&db, Some(1), &user(5, "asker")), Ok(Reply::Rich(expected)));
    let active = PointsData { guild_emote: point_emote(), set_by: user(1, "a"), active: true, total: 0 };
    match emote_stats_reply(&Some(active), "x") {
        Reply::Rich(embed) => {
            assert_eq!(embed.fields[1].value, "true");
            assert_eq!(embed.fields[2].value, "0");
        }
        other => panic!("not an embed: {:?}", other),
    }
}

#[test]
fn points_in_words_has_a_singular() {
    assert_eq!(points_in_words(1), "**1** Point");
    assert_eq!(points_in_words(0), "**0** Points");
    assert_eq!(points_in_words(2), "**2** Points");
    assert_eq!(points_in_words(4294967295), "**4294967295** Points");
}

#[test]
fn ranking_goes_down_and_keeps_the_order_of_ties() {
    let ranked = rank_users(vec![
        record(1, "a", 3),
        record(2, "b", 7),
        record(3, "c", 3),
        record(4, "d", 0),
        record(5, "e", 7),
        record(6, "f", 9),
    ]);
    let ids: Vec<u64> = ranked.iter().map(|u| u.discord_id).collect();
    assert_eq!(ids, vec![6, 2, 5, 1, 3, 4]);
    assert_eq!(ranked[0], record(6, "f", 9));
    assert_eq!(rank_users(Vec::new()), Vec::new());
    assert_eq!(rank_users(vec![record(1, "a", 3)]), vec![record(1, "a", 3)]);
}

#[test]
fn ranking_agrees_with_a_stable_sort() {
    let mut users: Vec<MyUser> = Vec::new();
    let mut seed: u32 = 12345;
    for id in 0..57u64 {
        seed = seed.wrapping_mul(1103515245).wrapping_add(12345);
        users.push(record(id, "m", (seed >> 16) % 6));
    }
    let mut expected: Vec<MyUser> = users.iter().map(|u| record(u.discord_id, "m", u.grammarpoints)).collect();
    expected.sort_by_key(|u| std::cmp::Reverse(u.grammarpoints));
    assert_eq!(rank_users(users), expected);
}

#[test]
fn standing_counts_places_from_zero() {
    let ranked = vec![record(6, "f", 9), record(2, "b", 7), record(1, "a", 3)];
    assert_eq!(standing(&ranked, &user(6, "f")), "**You** have scored **9** Points and are Ranked **0**");
    assert_eq!(standing(&ranked, &user(1, "a")), "**You** have scored **3** Points and are Ranked **2**");
    assert_eq!(standing(&ranked, &user(77, "z")), "**You** have not scored any points yet.");
}

#[test]
fn leaderboard_without_points() {
    let db = initiate_db();
    let nothing = Reply::Text("No points earned on this server yet.".to_string());
    assert_eq!(leaderboard(&db, Some(1), &user(7, "bob"), "Guild"), Ok(Reply::Text("No points earned on this server yet.".to_string())));
    let configured = with_points(&[]);
    assert_eq!(leaderboard(&configured, Some(1), &user(7, "bob"), "Guild"), Ok(Reply::Text("No points earned on this server yet.".to_string())));
    assert_eq!(leaderboard_reply(&None, vec![record(1, "a", 1)], &user(7, "bob"), "Guild"), nothing);
}

#[test]
fn leaderboard_of_three_members() {
    let db = with_points(&[(7, "bob", 1), (8, "eve", 5), (9, "kim", 2)]);
    let expected = Embed {
        title: "Point Leaderboard for Grammar Guild".to_string(),
        description: "Leaderboard for the points scored on this server. A total of **8 Points** have been scored on this server. **You** have scored **2** Points and are Ranked **1**".to_string(),
        thumbnail: None,
        fields: vec![
            EmbedField { name: "**Rank 1**".to_string(), value: "eve: **5** Points".to_string(), inline: true },
            EmbedField { name: "**Rank 21**".to_string(), value: "kim: **2** Points".to_string(), inline: true },
            EmbedField { name: "**Rank 41**".to_string(), value: "bob: **1** Point".to_string(), inline: true },
        ],
        footer: "Requsted by kim. Only they can change pages.".to_string(),
    };
    assert_eq!(leaderboard(&db, Some(1), &user(9, "kim"), "Grammar Guild"), Ok(Reply::Pages(vec![expected])));
}

#[test]
fn leaderboard_pages_hold_twenty_members() {
    let mut users: Vec<MyUser> = Vec::new();
    for id in 1..=41u64 {
        users.push(record(id, "m", id as u32));
    }
    let settings = PointsData { guild_emote: point_emote(), set_by: user(1, "a"), active: false, total: 861 };
    let pages = match leaderboard_reply(&Some(settings), users, &user(500, "guest"), "G") {
        Reply::Pages(pages) => pages,
        other => panic!("not pages: {:?}", other),
    };
    assert_eq!(pages.len(), 3);
    assert_eq!(pages[0].fields.len(), 20);
    assert_eq!(pages[1].fields.len(), 20);
    assert_eq!(pages[2].fields.len(), 1);
    assert_eq!(pages[0].fields[0].value, "m: **41** Points");
    assert_eq!(pages[1].fields[0].value, "m: **21** Points");
    assert_eq!(pages[1].fields[0].name, "**Rank 1**");
    assert_eq!(pages[1].fields[19].name, "**Rank 381**");
    assert_eq!(pages[2].fields[0].value, "m: **1** Point");
    assert!(pages[2].description.ends_with("**You** have not scored any points yet."));
    let mut twenty: Vec<MyUser> = Vec::new();
    for id in 1..=20u64 {
        twenty.push(record(id, "m", 1));
    }
    let settings = PointsData { guild_emote: point_emote(), set_by: user(1, "a"), active: false, total: 20 };
    match leaderboard_reply(&Some(settings), twenty, &user(500, "guest"), "G") {
        Reply::Pages(pages) => assert_eq!(pages.len(), 1),
        other => panic!("not pages: {:?}", other),
    }
}
