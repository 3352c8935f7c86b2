use grammarbot::db_interactions::{create_tag, get_all_tags, get_tag, initiate_db, remove_tag};
use grammarbot::types::{DBIError, Tag, UserRef};

fn user(id: u64, name: &str) -> UserRef {
    UserRef { id, name: name.to_string() }
}

fn tag(name: &str, content: &str) -> Tag {
    Tag { name: name.to_string(), content: content.to_string(), creator: user(1, "ada") }
}

#[test]
fn create_then_get_returns_the_tag() {
    let mut db = initiate_db();
    let created = create_tag(&mut db, tag("rules", "Be kind."), Some(10));
    assert_eq!(created, Ok(tag("rules", "Be kind.")));
    assert_eq!(get_tag(&db, "rules", Some(10)), Ok(tag("rules", "Be kind.")));
}

#[test]
fn creating_twice_succeeds_once() {
    let mut db = initiate_db();
    assert_eq!(create_tag(&mut db, tag("faq", "first"), Some(10)), Ok(tag("faq", "first")));
    assert_eq!(create_tag(&mut db, tag("faq", "second"), Some(10)), Err(DBIError::TagAlreadyExists));
    assert_eq!(get_tag(&db, "faq", Some(10)), Ok(tag("faq", "first")));
    assert_eq!(get_all_tags(&db, Some(10)), Ok(vec![tag("faq", "first")]));
}

#[test]
fn removing_a_missing_tag_is_not_found() {
    let mut db = initiate_db();
    assert_eq!(remove_tag(&mut db, "x", Some(10)), Err(DBIError::TagNotFound));
}

#[test]
fn removed_tag_is_gone() {
    let mut db = initiate_db();
    create_tag(&mut db, tag("x", "one"), Some(10)).unwrap();
    create_tag(&mut db, tag("y", "two"), Some(10)).unwrap();
    assert_eq!(remove_tag(&mut db, "x", Some(10)), Ok(tag("x", "one")));
    assert_eq!(get_tag(&db, "x", Some(10)), Err(DBIError::TagNotFound));
    assert_eq!(get_all_tags(&db, Some(10)), Ok(vec![tag("y", "two")]));
    assert_eq!(remove_tag(&mut db, "x", Some(10)), Err(DBIError::TagNotFound));
}

#[test]
fn partitions_do_not_see_each_other() {
    let mut db = initiate_db();
    create_tag(&mut db, tag("x", "in ten"), Some(10)).unwrap();
    assert_eq!(get_tag(&db, "x", Some(20)), Err(DBIError::TagNotFound));
    assert_eq!(get_tag(&db, "x", None), Err(DBIError::TagNotFound));
    assert_eq!(get_all_tags(&db, Some(20)), Ok(vec![]));
    create_tag(&mut db, tag("x", "global"), None).unwrap();
    assert_eq!(get_tag(&db, "x", None), Ok(tag("x", "global")));
    assert_eq!(get_tag(&db, "x", Some(10)), Ok(tag("x", "in ten")));
}
