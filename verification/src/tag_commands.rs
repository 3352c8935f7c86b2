//! The tag commands: what each one does to the store and what it replies.

use vstd::prelude::*;
use crate::db_interactions::{create_tag as store_tag, get_tag, remove_tag as drop_tag, Database};
use crate::text::{contains_text, is_substring};
use crate::types::{dbi_error_text, res_view, views, DBIError, DBIErrorView, Tag, TagView, UserRef};

verus! {

/// The names of the tags whose name contains `partial`, in the order of `tags`.
pub open spec fn names_containing(tags: Seq<TagView>, partial: Seq<char>) -> Seq<Seq<char>>
    decreases tags.len(),
{
    if tags.len() == 0 {
        Seq::empty()
    } else if is_substring(partial, tags.last().name) {
        names_containing(tags.drop_last(), partial).push(tags.last().name)
    } else {
        names_containing(tags.drop_last(), partial)
    }
}

/// The tag names to offer for the typed `partial`: the names that contain it,
/// in the order of the store. Where the tags could not be read, none.
pub fn autocomplete_tagname(tags: &Result<Vec<Tag>, DBIError>, partial: &str) -> (result: Vec<
    String,
>)
    ensures
        views(result@) == (match tags {
            Ok(t) => names_containing(views(t@), partial@),
            Err(_) => Seq::empty(),
        }),
{
    let mut names: Vec<String> = Vec::new();
    match tags {
        Ok(t) => {
            let ghost all = views(t@);
            let mut i: usize = 0;
            assert(views(names@) =~= names_containing(all.take(0), partial@));
            while i < t.len()
                invariant
                    i <= t.len(),
                    all == views(t@),
                    views(names@) == names_containing(all.take(i as int), partial@),
                decreases t.len() - i,
            {
                let ghost before = views(names@);
                proof {
                    assert(all.take(i as int + 1).drop_last() =~= all.take(i as int));
                    assert(all.take(i as int + 1).last() == t[i as int]@);
                }
                if contains_text(t[i].name.as_str(), partial) {
                    names.push(t[i].name.clone());
                    assert(views(names@) =~= before.push(t[i as int].name@));
                }
                i += 1;
            }
            assert(all.take(t.len() as int) =~= all);
        },
        Err(_) => {
            assert(views(names@) =~= Seq::empty());
        },
    }
    names
}

/// The name of each error, as written in the program.
pub open spec fn error_name(e: DBIErrorView) -> Seq<char> {
    match e {
        DBIErrorView::DBError(m) => "DBError("@ + m + ")"@,
        DBIErrorView::TagAlreadyExists => "TagAlreadyExists"@,
        DBIErrorView::TagNotFound => "TagNotFound"@,
        DBIErrorView::UserNotFound => "UserNotFound"@,
        DBIErrorView::RoleAlreadyExists => "RoleAlreadyExists"@,
        DBIErrorView::RoleNotFound => "RoleNotFound"@,
        DBIErrorView::PointDataNotFound => "PointDataNotFound"@,
        DBIErrorView::RoleMessageNotFound => "RoleMessageNotFound"@,
    }
}

/// The reply to a request to show a tag: the tag's content, or the name of the
/// error.
pub open spec fn show_tag_text(tag: Result<TagView, DBIErrorView>) -> Seq<char> {
    match tag {
        Ok(t) => t.content,
        Err(e) => error_name(e),
    }
}

/// The reply to a request to create a tag.
pub open spec fn create_tag_text(created: Result<TagView, DBIErrorView>) -> Seq<char> {
    match created {
        Ok(t) => "Tag "@ + t.name + " created sucessfully!"@,
        Err(e) => dbi_error_text(e),
    }
}

/// The reply to a request to remove a tag.
pub open spec fn remove_tag_text(removed: Result<TagView, DBIErrorView>) -> Seq<char> {
    match removed {
        Ok(t) => "Tag "@ + t.name + " removed sucessfully!"@,
        Err(e) => dbi_error_text(e),
    }
}

/// The reply to a request to show a tag, given what the store answered.
pub fn show_tag_reply(tag: &Result<Tag, DBIError>) -> (text: String)
    ensures
        text@ == show_tag_text(res_view(*tag)),
{
    match tag {
        Ok(t) => t.content.clone(),
        Err(e) => match e {
            DBIError::DBError(m) => {
                let mut text = String::from_str("DBError(");
                text.append(m.as_str());
                text.append(")");
                text
            },
            DBIError::TagAlreadyExists => String::from_str("TagAlreadyExists"),
            DBIError::TagNotFound => String::from_str("TagNotFound"),
            DBIError::UserNotFound => String::from_str("UserNotFound"),
            DBIError::RoleAlreadyExists => String::from_str("RoleAlreadyExists"),
            DBIError::RoleNotFound => String::from_str("RoleNotFound"),
            DBIError::PointDataNotFound => String::from_str("PointDataNotFound"),
            DBIError::RoleMessageNotFound => String::from_str("RoleMessageNotFound"),
        },
    }
}

/// The reply to a request to create a tag, given what the store answered.
pub fn create_tag_reply(created: &Result<Tag, DBIError>) -> (text: String)
    ensures
        text@ == create_tag_text(res_view(*created)),
{
    match created {
        Ok(t) => {
            let mut text = String::from_str("Tag ");
            text.append(t.name.as_str());
            text.append(" created sucessfully!");
            text
        },
        Err(e) => e.message(),
    }
}

/// The reply to a request to remove a tag, given what the store answered.
pub fn remove_tag_reply(removed: &Result<Tag, DBIError>) -> (text: String)
    ensures
        text@ == remove_tag_text(res_view(*removed)),
{
    match removed {
        Ok(t) => {
            let mut text = String::from_str("Tag ");
            text.append(t.name.as_str());
            text.append(" removed sucessfully!");
            text
        },
        Err(e) => e.message(),
    }
}

/// Shows the tag called `tagname`: replies with its content, or with the name
/// of the error.
pub fn show_tag(db: &Database, guildid: Option<u64>, tagname: String) -> (reply: String)
    requires
        db.wf(),
    ensures
        reply@ == show_tag_text(db@[guildid].get_tag(tagname@)),
{
    show_tag_reply(&get_tag(db, tagname.as_str(), guildid))
}

/// Creates the tag `tagname` with the content `tagcontent` for `author`, and
/// replies with what came of it.
pub fn create_tag(
    db: &mut Database,
    guildid: Option<u64>,
    author: &UserRef,
    tagname: String,
    tagcontent: String,
) -> (reply: String)
    requires
        old(db).wf(),
    ensures
        final(db).wf(),
        final(db)@ == old(db)@.insert(
            guildid,
            old(db)@[guildid].create_tag(
                TagView { name: tagname@, content: tagcontent@, creator: author@ },
            ).0,
        ),
        reply@ == create_tag_text(
            old(db)@[guildid].create_tag(
                TagView { name: tagname@, content: tagcontent@, creator: author@ },
            ).1,
        ),
{
    let newtag = Tag { name: tagname, content: tagcontent, creator: author.clone() };
    create_tag_reply(&store_tag(db, newtag, guildid))
}

/// Removes the tag called `tagname`, and replies with what came of it.
pub fn remove_tag(db: &mut Database, guildid: Option<u64>, tagname: String) -> (reply: String)
    requires
        old(db).wf(),
    ensures
        final(db).wf(),
        final(db)@ == old(db)@.insert(guildid, old(db)@[guildid].remove_tag(tagname@).0),
        reply@ == remove_tag_text(old(db)@[guildid].remove_tag(tagname@).1),
{
    remove_tag_reply(&drop_tag(db, tagname.as_str(), guildid))
}

} // verus!
