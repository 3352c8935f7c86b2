use grammarbot::db_interactions::{
    add_points, change_user_points, found, get_all_user_data, get_point_data, get_user_data,
    initiate_db, point_emote_setting, points_change, retry_again, set_point_emote, vacant,
    Database, STORE_ATTEMPTS,
};
use grammarbot::types::{DBIError, EmoteRef, MyUser, PointsData, UserRef};

fn user(id: u64, name: &str) -> UserRef {
    UserRef { id, name: name.to_string() }
}

fn emote(id: u64, name: &str) -> EmoteRef {
    EmoteRef { id, name: name.to_string(), animated: false }
}

fn configured() -> Database {
    let mut db = initiate_db();
    set_point_emote(&mut db, &emote(900, "point"), &user(1, "admin"), Some(1)).unwrap();
    db
}

fn total(db: &Database, guild: Option<u64>) -> u32 {
    get_point_data(db, guild).unwrap().unwrap().total
}

#[test]
fn add_points_exact_values() {
    assert_eq!(add_points(0, 1), 1);
    assert_eq!(add_points(41, 1), 42);
    assert_eq!(add_points(42, -1), 41);
    assert_eq!(add_points(10, -3), 7);
    assert_eq!(add_points(10, 0), 10);
}

#[test]
fn add_points_never_goes_below_zero() {
    assert_eq!(add_points(0, -1), 0);
    assert_eq!(add_points(2, -5), 0);
    assert_eq!(add_points(0, i32::MIN), 0);
}

#[test]
fn add_points_stops_at_the_largest_balance() {
    assert_eq!(add_points(u32::MAX, 1), u32::MAX);
    assert_eq!(add_points(u32::MAX - 1, 5), u32::MAX);
    assert_eq!(add_points(u32::MAX, -1), u32::MAX - 1);
    assert_eq!(add_points(u32::MAX, i32::MIN), u32::MAX - 2147483648);
    assert_eq!(add_points(0, i32::MAX), 2147483647);
}

#[test]
fn first_settings_start_inactive_and_empty() {
    let db = configured();
    assert_eq!(
        get_point_data(&db, Some(1)),
        Ok(Some(PointsData { guild_emote: emote(900, "point"), set_by: user(1, "admin"), active: false, total: 0 }))
    );
    assert_eq!(get_point_data(&db, Some(2)), Ok(None));
}

#[test]
fn new_emote_keeps_the_total() {
    let mut db = configured();
    change_user_points(&mut db, Some(1), user(7, "bob"), 1).unwrap();
    change_user_points(&mut db, Some(1), user(7, "bob"), 1).unwrap();
    set_point_emote(&mut db, &emote(901, "star"), &user(2, "mod"), Some(1)).unwrap();
    assert_eq!(
        get_point_data(&db, Some(1)),
        Ok(Some(PointsData { guild_emote: emote(901, "star"), set_by: user(2, "mod"), active: false, total: 2 }))
    );
}

#[test]
fn point_emote_setting_keeps_state_and_total() {
    let kept = PointsData { guild_emote: emote(1, "a"), set_by: user(1, "x"), active: true, total: 17 };
    assert_eq!(
        point_emote_setting(Some(kept), &emote(2, "b"), &user(2, "y")),
        PointsData { guild_emote: emote(2, "b"), set_by: user(2, "y"), active: true, total: 17 }
    );
    assert_eq!(
        point_emote_setting(None, &emote(2, "b"), &user(2, "y")),
        PointsData { guild_emote: emote(2, "b"), set_by: user(2, "y"), active: false, total: 0 }
    );
}

#[test]
fn points_without_settings_are_refused() {
    let mut db = initiate_db();
    assert_eq!(change_user_points(&mut db, Some(1), user(7, "bob"), 1), Err(DBIError::PointDataNotFound));
    assert_eq!(get_all_user_data(&db, Some(1)), Ok(vec![]));
    assert_eq!(get_user_data(&db, Some(1), 7), Err(DBIError::UserNotFound));
}

#[test]
fn first_point_creates_the_record() {
    let mut db = configured();
    assert_eq!(
        change_user_points(&mut db, Some(1), user(7, "bob"), 1),
        Ok(MyUser { discord_id: 7, discord_user: user(7, "bob"), grammarpoints: 1 })
    );
    assert_eq!(
        get_user_data(&db, Some(1), 7),
        Ok(MyUser { discord_id: 7, discord_user: user(7, "bob"), grammarpoints: 1 })
    );
    assert_eq!(total(&db, Some(1)), 1);
}

#[test]
fn later_point_refreshes_the_name() {
    let mut db = configured();
    change_user_points(&mut db, Some(1), user(7, "bob"), 1).unwrap();
    assert_eq!(
        change_user_points(&mut db, Some(1), user(7, "robert"), 1),
        Ok(MyUser { discord_id: 7, discord_user: user(7, "robert"), grammarpoints: 2 })
    );
    assert_eq!(
        get_all_user_data(&db, Some(1)),
        Ok(vec![MyUser { discord_id: 7, discord_user: user(7, "robert"), grammarpoints: 2 }])
    );
}

#[test]
fn point_given_and_taken_restores_both_counters() {
    let mut db = configured();
    change_user_points(&mut db, Some(1), user(7, "bob"), 1).unwrap();
    change_user_points(&mut db, Some(1), user(8, "eve"), 1).unwrap();
    let before_user = get_user_data(&db, Some(1), 7).unwrap().grammarpoints;
    let before_total = total(&db, Some(1));
    change_user_points(&mut db, Some(1), user(7, "bob"), 1).unwrap();
    assert_eq!(get_user_data(&db, Some(1), 7).unwrap().grammarpoints, before_user + 1);
    assert_eq!(total(&db, Some(1)), before_total + 1);
    change_user_points(&mut db, Some(1), user(7, "bob"), -1).unwrap();
    assert_eq!(get_user_data(&db, Some(1), 7).unwrap().grammarpoints, before_user);
    assert_eq!(total(&db, Some(1)), before_total);
    assert_eq!(get_user_data(&db, Some(1), 8).unwrap().grammarpoints, 1);
}

#[test]
fn total_is_the_sum_of_the_deltas() {
    let mut db = configured();
    let deltas: Vec<(u64, i32)> = vec![(7, 1), (8, 1), (7, 1), (9, 1), (8, -1), (7, 1), (9, -1)];
    let mut sum: i64 = 0;
    for (id, delta) in deltas {
        change_user_points(&mut db, Some(1), user(id, "member"), delta).unwrap();
        sum += delta as i64;
    }
    assert_eq!(total(&db, Some(1)) as i64, sum);
    assert_eq!(total(&db, Some(1)), 3);
    assert_eq!(get_user_data(&db, Some(1), 7).unwrap().grammarpoints, 3);
    assert_eq!(get_user_data(&db, Some(1), 8).unwrap().grammarpoints, 0);
    assert_eq!(get_user_data(&db, Some(1), 9).unwrap().grammarpoints, 0);
}

#[test]
fn taking_a_point_from_nothing_stays_at_zero() {
    let mut db = configured();
    assert_eq!(
        change_user_points(&mut db, Some(1), user(7, "bob"), -1),
        Ok(MyUser { discord_id: 7, discord_user: user(7, "bob"), grammarpoints: 0 })
    );
    assert_eq!(total(&db, Some(1)), 0);
}

#[test]
fn member_balance_is_held_while_total_moves() {
    let mut db = configured();
    change_user_points(&mut db, Some(1), user(8, "eve"), 1).unwrap();
    // bob has no points to lose, the guild has one.
    change_user_points(&mut db, Some(1), user(7, "bob"), -1).unwrap();
    assert_eq!(get_user_data(&db, Some(1), 7).unwrap().grammarpoints, 0);
    assert_eq!(get_user_data(&db, Some(1), 8).unwrap().grammarpoints, 1);
    assert_eq!(total(&db, Some(1)), 0);
}

#[test]
fn points_of_two_guilds_are_apart() {
    let mut db = configured();
    set_point_emote(&mut db, &emote(901, "star"), &user(1, "admin"), Some(2)).unwrap();
    change_user_points(&mut db, Some(1), user(7, "bob"), 1).unwrap();
    assert_eq!(total(&db, Some(1)), 1);
    assert_eq!(total(&db, Some(2)), 0);
    assert_eq!(get_user_data(&db, Some(2), 7), Err(DBIError::UserNotFound));
}

#[test]
fn points_change_decides_from_what_was_read() {
    let settings = PointsData { guild_emote: emote(900, "point"), set_by: user(1, "admin"), active: false, total: 5 };
    let kept = MyUser { discord_id: 7, discord_user: user(7, "old name"), grammarpoints: 2 };
    let (new_user, new_points) = points_change(Some(kept), Some(settings), user(7, "new name"), 1).unwrap();
    assert_eq!(new_user, MyUser { discord_id: 7, discord_user: user(7, "new name"), grammarpoints: 3 });
    assert_eq!(
        new_points,
        PointsData { guild_emote: emote(900, "point"), set_by: user(1, "admin"), active: false, total: 6 }
    );
    let settings = PointsData { guild_emote: emote(900, "point"), set_by: user(1, "admin"), active: false, total: 5 };
    let (new_user, new_points) = points_change(None, Some(settings), user(8, "eve"), -1).unwrap();
    assert_eq!(new_user, MyUser { discord_id: 8, discord_user: user(8, "eve"), grammarpoints: 0 });
    assert_eq!(new_points.total, 4);
    assert_eq!(points_change(None, None, user(8, "eve"), 1), Err(DBIError::PointDataNotFound));
    let kept = MyUser { discord_id: 7, discord_user: user(7, "bob"), grammarpoints: 2 };
    assert_eq!(points_change(Some(kept), None, user(7, "bob"), 1), Err(DBIError::PointDataNotFound));
}

#[test]
fn vacant_and_found() {
    assert_eq!(vacant(&None::<u8>, DBIError::TagAlreadyExists), Ok(()));
    assert_eq!(vacant(&Some(3u8), DBIError::TagAlreadyExists), Err(DBIError::TagAlreadyExists));
    assert_eq!(found(Some(3u8), DBIError::TagNotFound), Ok(3u8));
    assert_eq!(found(None::<u8>, DBIError::UserNotFound), Err(DBIError::UserNotFound));
}

#[test]
fn requests_are_repeated_a_bounded_number_of_times() {
    assert_eq!(STORE_ATTEMPTS, 3);
    assert!(retry_again(1));
    assert!(retry_again(2));
    assert!(!retry_again(3));
    assert!(!retry_again(u32::MAX));
}
