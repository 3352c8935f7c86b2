//! The user command: what the bot shows about a member.

use std::fmt::Write;
use vstd::prelude::*;
use crate::db_interactions::{get_user_data, Database};
use crate::embed_tools::{Embed, EmbedField, EmbedFieldView, EmbedView};
use crate::text::{decimal, u64_to_string};
use crate::types::{
    opt_view, res_view, DBIError, DBIErrorView, MyUser, MyUserView, UserRef, UserRefView,
};

verus! {

/// What the bot reads of a member of a guild.
#[derive(Debug, PartialEq, Eq)]
pub struct MemberInfo {
    pub user: UserRef,
    /// When the member joined the guild, in seconds since 1970.
    pub joined_at: i64,
    /// The address of the member's picture, if they have set one.
    pub avatar_url: Option<String>,
}

/// What a [`MemberInfo`] holds, as a mathematical value.
pub struct MemberInfoView {
    pub user: UserRefView,
    pub joined_at: i64,
    pub avatar_url: Option<Seq<char>>,
}

impl View for MemberInfo {
    type V = MemberInfoView;

    open spec fn view(&self) -> MemberInfoView {
        MemberInfoView {
            user: self.user@,
            joined_at: self.joined_at,
            avatar_url: opt_view(self.avatar_url),
        }
    }
}

/// The moment `secs` seconds after the start of 1970, in universal time,
/// written as `pattern` says; nothing where there is no such moment on the
/// calendar or the pattern is not a pattern.
pub uninterp spec fn utc_text(secs: i64, pattern: Seq<char>) -> Option<Seq<char>>;

/// The moment `secs` seconds after the start of 1970, in universal time,
/// written as `pattern` says.
///
/// This is `DateTime::from_timestamp` of chrono, followed by `DateTime::format`
/// with `pattern`. The contract only names what comes out: the same seconds
/// and the same pattern always give the same text, and nothing comes out where
/// chrono has no such moment or rejects the pattern when it writes the text.
#[verifier::external_body]
fn format_utc(secs: i64, pattern: &str) -> (text: Option<String>)
    ensures
        opt_view(text) == utc_text(secs, pattern@),
{
    let time = chrono::DateTime::from_timestamp(secs, 0)?;
    let mut out = String::new();
    write!(out, "{}", time.format(pattern)).ok()?;
    Some(out)
}

/// When the account `user_id` was created, in seconds since 1970: the id holds
/// the milliseconds since the start of 2015 above its lowest 22 bits.
pub open spec fn created_secs(user_id: u64) -> i64 {
    (((user_id >> 22) + 1_420_070_400_000) / 1000) as i64
}

/// When the account `user_id` was created, in seconds since 1970.
pub fn created_at(user_id: u64) -> (secs: i64)
    ensures
        secs == created_secs(user_id),
{
    let since_2015: u64 = user_id >> 22;
    assert(since_2015 <= 0x3ff_ffff_ffff) by (bit_vector)
        requires
            since_2015 == user_id >> 22,
    ;
    ((since_2015 + 1_420_070_400_000) / 1000) as i64
}

/// How moments are written: day, month in three letters, year, hour and minute.
pub open spec fn time_pattern() -> Seq<char> {
    "%d. %b %Y %H:%M"@
}

/// The moment `secs` seconds after the start of 1970, written as the bot
/// writes moments; nothing where there is no such moment on the calendar.
pub fn written_time(secs: i64) -> (text: Option<String>)
    ensures
        opt_view(text) == utc_text(secs, time_pattern()),
{
    format_utc(secs, "%d. %b %Y %H:%M")
}

/// A written moment, or a dash where there is none.
pub open spec fn time_text(written: Option<Seq<char>>) -> Seq<char> {
    match written {
        Some(t) => t,
        None => "-"@,
    }
}

/// The points to show for a member: those of the record, and none without one.
pub open spec fn points_shown(myuser: Result<MyUserView, DBIErrorView>) -> u32 {
    match myuser {
        Ok(mu) => mu.grammarpoints,
        Err(_) => 0,
    }
}

/// What is shown about the member `m`: the id, when they joined and when the
/// account was created, and the points. The picture is the member's own, or
/// `default_avatar` where they have none.
pub open spec fn user_info_view(
    m: MemberInfoView,
    joined: Option<Seq<char>>,
    created: Option<Seq<char>>,
    points: u32,
    author_name: Seq<char>,
    default_avatar: Seq<char>,
) -> EmbedView {
    EmbedView {
        title: m.user.name,
        description: Seq::empty(),
        thumbnail: Some(
            match m.avatar_url {
                Some(url) => url,
                None => default_avatar,
            },
        ),
        fields: seq![
            EmbedFieldView { name: "ID"@, value: decimal(m.user.id as nat), inline: false },
            EmbedFieldView { name: "Joined at"@, value: time_text(joined), inline: false },
            EmbedFieldView { name: "Created at"@, value: time_text(created), inline: false },
            EmbedFieldView { name: "Points"@, value: decimal(points as nat), inline: false },
        ],
        footer: "Requested by: "@ + author_name,
    }
}

/// What is shown about the member `m`, given the written moments and the
/// member's record as read.
pub fn user_info_reply(
    m: &MemberInfo,
    joined: Option<String>,
    created: Option<String>,
    myuser: &Result<MyUser, DBIError>,
    author_name: &str,
    default_avatar: &str,
) -> (embed: Embed)
    ensures
        embed@ == user_info_view(
            m@,
            opt_view(joined),
            opt_view(created),
            points_shown(res_view(*myuser)),
            author_name@,
            default_avatar@,
        ),
{
    let points: u32 = match myuser {
        Ok(mu) => mu.grammarpoints,
        Err(_) => 0,
    };
    let joined_text = match joined {
        Some(t) => t,
        None => String::from_str("-"),
    };
    let created_text = match created {
        Some(t) => t,
        None => String::from_str("-"),
    };
    let mut fields: Vec<EmbedField> = Vec::new();
    fields.push(
        EmbedField { name: String::from_str("ID"), value: u64_to_string(m.user.id), inline: false },
    );
    fields.push(
        EmbedField { name: String::from_str("Joined at"), value: joined_text, inline: false },
    );
    fields.push(
        EmbedField { name: String::from_str("Created at"), value: created_text, inline: false },
    );
    fields.push(
        EmbedField {
            name: String::from_str("Points"),
            value: u64_to_string(points as u64),
            inline: false,
        },
    );
    let thumbnail = match &m.avatar_url {
        Some(url) => url.clone(),
        None => String::from_str(default_avatar),
    };
    let mut footer = String::from_str("Requested by: ");
    footer.append(author_name);
    let embed = Embed {
        title: m.user.name.clone(),
        description: String::new(),
        thumbnail: Some(thumbnail),
        fields,
        footer,
    };
    assert(embed@.fields =~= user_info_view(
        m@,
        opt_view(joined),
        opt_view(created),
        points_shown(res_view(*myuser)),
        author_name@,
        default_avatar@,
    ).fields);
    embed
}

/// Shows what the bot knows about the member `user`, or about the asking
/// member `author` where no member is named.
pub fn user_info(
    db: &Database,
    guildid: Option<u64>,
    user: Option<MemberInfo>,
    author: MemberInfo,
    default_avatar: &str,
) -> (embed: Embed)
    requires
        db.wf(),
    ensures
        embed@ == ({
            let m = match user {
                Some(named) => named@,
                None => author@,
            };
            user_info_view(
                m,
                utc_text(m.joined_at, time_pattern()),
                utc_text(created_secs(m.user.id), time_pattern()),
                points_shown(db@[guildid].get_user_data(m.user.id)),
                author@.user.name,
                default_avatar@,
            )
        }),
{
    let author_name = author.user.name.clone();
    let m = match user {
        Some(named) => named,
        None => author,
    };
    let myuser = get_user_data(db, guildid, m.user.id);
    let joined = written_time(m.joined_at);
    let created = written_time(created_at(m.user.id));
    user_info_reply(&m, joined, created, &myuser, author_name.as_str(), default_avatar)
}

} // verus!
