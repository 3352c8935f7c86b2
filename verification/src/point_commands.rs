//! The points commands: the emote that awards points, the state of the
//! feature, and the leaderboard.

use vstd::prelude::*;
use crate::db_interactions::{get_all_user_data, get_point_data, set_point_emote, Database};
use crate::embed_tools::{Embed, EmbedField, EmbedFieldView, EmbedView, Reply, ReplyView};
use crate::role_commands::{bool_text, emote_mention, emote_text};
use crate::text::{decimal, u64_to_string};
use crate::types::{
    opt_view, views, DBIError, EmoteRef, MyUser, MyUserView, PointsData, PointsDataView, UserRef,
};

verus! {

/// Where `user` goes among `ranked`: behind the last member with as many points
/// or more; in front of all, where there is none.
pub open spec fn place_of(ranked: Seq<MyUserView>, user: MyUserView) -> int
    decreases ranked.len(),
{
    if ranked.len() == 0 {
        0
    } else if ranked.last().grammarpoints >= user.grammarpoints {
        ranked.len() as int
    } else {
        place_of(ranked.drop_last(), user)
    }
}

/// The members by points, most points first; members with equal points keep
/// the order they came in.
pub open spec fn ranking(users: Seq<MyUserView>) -> Seq<MyUserView>
    decreases users.len(),
{
    if users.len() == 0 {
        Seq::empty()
    } else {
        ranking(users.drop_last()).insert(
            place_of(ranking(users.drop_last()), users.last()),
            users.last(),
        )
    }
}

/// Whether `users` stand with their points going down.
pub open spec fn points_descend(users: Seq<MyUserView>) -> bool {
    forall|i: int, j: int|
        0 <= i < j < users.len() ==> users[i].grammarpoints >= users[j].grammarpoints
}

/// The place of a member is within the ranking, behind a member with as many
/// points or more and in front of members with fewer only.
pub proof fn lemma_place_of(ranked: Seq<MyUserView>, user: MyUserView)
    ensures
        0 <= place_of(ranked, user) <= ranked.len(),
        place_of(ranked, user) > 0 ==> ranked[place_of(ranked, user) - 1].grammarpoints
            >= user.grammarpoints,
        forall|j: int|
            place_of(ranked, user) <= j < ranked.len() ==> ranked[j].grammarpoints
                < user.grammarpoints,
    decreases ranked.len(),
{
    if ranked.len() > 0 && ranked.last().grammarpoints < user.grammarpoints {
        lemma_place_of(ranked.drop_last(), user);
        let k = place_of(ranked.drop_last(), user);
        assert forall|j: int| k <= j < ranked.len() implies ranked[j].grammarpoints
            < user.grammarpoints by {
            if j < ranked.len() - 1 {
                assert(ranked.drop_last()[j] == ranked[j]);
            }
        }
        if k > 0 {
            assert(ranked.drop_last()[k - 1] == ranked[k - 1]);
        }
    }
}

/// The ranking holds every member once for each time it was given, with the
/// points going down.
pub proof fn lemma_ranking(users: Seq<MyUserView>)
    ensures
        points_descend(ranking(users)),
        ranking(users).to_multiset() == users.to_multiset(),
        ranking(users).len() == users.len(),
    decreases users.len(),
{
    if users.len() == 0 {
        assert(users =~= Seq::empty());
    } else {
        let front = users.drop_last();
        let user = users.last();
        let ranked = ranking(front);
        let k = place_of(ranked, user);
        let out = ranked.insert(k, user);
        lemma_ranking(front);
        lemma_place_of(ranked, user);
        assert forall|i: int, j: int| 0 <= i < j < out.len() implies out[i].grammarpoints
            >= out[j].grammarpoints by {
            if j < k {
                assert(out[i] == ranked[i] && out[j] == ranked[j]);
            } else if j == k {
                assert(out[i] == ranked[i]);
                if i < k - 1 {
                    assert(ranked[i].grammarpoints >= ranked[k - 1].grammarpoints);
                }
            } else if i < k {
                assert(out[i] == ranked[i] && out[j] == ranked[j - 1]);
                if i < j - 1 {
                    assert(ranked[i].grammarpoints >= ranked[j - 1].grammarpoints);
                }
            } else if i == k {
                assert(out[j] == ranked[j - 1]);
            } else {
                assert(out[i] == ranked[i - 1] && out[j] == ranked[j - 1]);
            }
        }
        vstd::seq_lib::to_multiset_insert(ranked, k, user);
        vstd::seq_lib::to_multiset_build(front, user);
        assert(users =~= front.push(user));
    }
}

/// The members by points, most points first; members with equal points keep
/// the order they came in.
pub fn rank_users(user_data: Vec<MyUser>) -> (ranked: Vec<MyUser>)
    ensures
        views(ranked@) == ranking(views(user_data@)),
{
    let ghost all = views(user_data@);
    let mut user_data = user_data;
    let mut ranked: Vec<MyUser> = Vec::new();
    let mut i: usize = 0;
    let n = user_data.len();
    assert(views(ranked@) =~= ranking(all.take(0)));
    while i < n
        invariant
            i <= n,
            n == user_data.len(),
            all.len() == n,
            forall|j: int| i <= j < n ==> (#[trigger] user_data[j])@ == all[j],
            views(ranked@) == ranking(all.take(i as int)),
            ranked.len() == i,
        decreases n - i,
    {
        let mut user = MyUser {
            discord_id: 0,
            discord_user: UserRef { id: 0, name: String::new() },
            grammarpoints: 0,
        };
        let slot = &mut user_data[i];
        std::mem::swap(slot, &mut user);
        let ghost before = views(ranked@);
        proof {
            assert(all.take(i as int + 1).drop_last() =~= all.take(i as int));
            assert(all.take(i as int + 1).last() == user@);
        }
        let mut k: usize = ranked.len();
        assert(before.take(k as int) =~= before);
        while k > 0 && ranked[k - 1].grammarpoints < user.grammarpoints
            invariant
                k <= ranked.len(),
                before == views(ranked@),
                place_of(before, user@) == place_of(before.take(k as int), user@),
            decreases k,
        {
            proof {
                assert(before.take(k as int).last() == ranked[k - 1]@);
                assert(before.take(k as int).drop_last() =~= before.take(k as int - 1));
            }
            k -= 1;
        }
        proof {
            if k > 0 {
                assert(before.take(k as int).last() == ranked[k - 1]@);
            }
            assert(before.take(k as int).len() == k);
        }
        let ghost placed = user@;
        ranked.insert(k, user);
        assert(views(ranked@) =~= before.insert(k as int, placed));
        i += 1;
    }
    assert(all.take(n as int) =~= all);
    ranked
}

/// The reply once the points emote was chosen.
pub open spec fn emote_set_text(emote: crate::types::EmoteRefView) -> Seq<char> {
    "Set the new point emote to: "@ + emote_text(emote)
}

/// Chooses `emote` as the emote that awards points, for `author`, and replies.
pub fn emote_set(
    db: &mut Database,
    guildid: Option<u64>,
    author: &UserRef,
    emote: &EmoteRef,
) -> (result: Result<String, DBIError>)
    requires
        old(db).wf(),
    ensures
        final(db).wf(),
        final(db)@ == old(db)@.insert(guildid, old(db)@[guildid].set_point_emote(emote@, author@)),
        result matches Ok(reply) && reply@ == emote_set_text(emote@),
{
    match set_point_emote(db, emote, author, guildid) {
        Ok(_) => Ok(emote_set_reply(emote)),
        Err(e) => Err(e),
    }
}

/// The reply once `emote` was chosen as the points emote.
pub fn emote_set_reply(emote: &EmoteRef) -> (reply: String)
    ensures
        reply@ == emote_set_text(emote@),
{
    let mut reply = String::from_str("Set the new point emote to: ");
    reply.append(emote_mention(emote).as_str());
    reply
}

/// The reply where the state of the points feature is asked for and no emote
/// was chosen.
pub open spec fn no_emote_text() -> Seq<char> {
    "You need to chose a emote to use to collect points by using the `/points emote_set` command."@
}

/// What the embed on the state of the points feature says about the feature.
pub open spec fn stats_description() -> Seq<char> {
    "Points can be given to users by other users by reacting to their messages with the point emote."@
}

/// The reply on the state of the points feature: an embed with the emote, the
/// state and the guild total; a sentence where no emote was chosen.
pub open spec fn emote_stats_view(points: Option<PointsDataView>, author_name: Seq<char>) -> ReplyView {
    match points {
        Some(p) => ReplyView::Rich(
            EmbedView {
                thumbnail: None,
                title: "Points system info"@,
                description: stats_description(),
                fields: seq![
                    EmbedFieldView {
                        name: "Point emote"@,
                        value: emote_text(p.guild_emote),
                        inline: false,
                    },
                    EmbedFieldView { name: "Active"@, value: bool_text(p.active), inline: false },
                    EmbedFieldView {
                        name: "Total points scored"@,
                        value: decimal(p.total as nat),
                        inline: false,
                    },
                ],
                footer: "Requested by: "@ + author_name,
            },
        ),
        None => ReplyView::Text(no_emote_text()),
    }
}

/// The reply on the state of the points feature, given the settings as read.
pub fn emote_stats_reply(cur_points: &Option<PointsData>, author_name: &str) -> (reply: Reply)
    ensures
        reply@ == emote_stats_view(opt_view(*cur_points), author_name@),
{
    match cur_points {
        Some(pointsdata) => {
            let active = if pointsdata.active {
                String::from_str("true")
            } else {
                String::from_str("false")
            };
            let mut fields: Vec<EmbedField> = Vec::new();
            fields.push(
                EmbedField {
                    name: String::from_str("Point emote"),
                    value: emote_mention(&pointsdata.guild_emote),
                    inline: false,
                },
            );
            fields.push(EmbedField { name: String::from_str("Active"), value: active, inline: false });
            fields.push(
                EmbedField {
                    name: String::from_str("Total points scored"),
                    value: u64_to_string(pointsdata.total as u64),
                    inline: false,
                },
            );
            let mut footer = String::from_str("Requested by: ");
            footer.append(author_name);
            let embed = Embed {
                thumbnail: None,
                title: String::from_str("Points system info"),
                description: String::from_str(
                    "Points can be given to users by other users by reacting to their messages with the point emote.",
                ),
                fields,
                footer,
            };
            assert(embed@.fields =~= emote_stats_view(
                opt_view(*cur_points),
                author_name@,
            )->Rich_0.fields);
            Reply::Rich(embed)
        },
        None => Reply::Text(
            String::from_str(
                "You need to chose a emote to use to collect points by using the `/points emote_set` command.",
            ),
        ),
    }
}

/// Shows the state of the points feature to `author`.
pub fn emote_stats(db: &Database, guildid: Option<u64>, author: &UserRef) -> (result: Result<
    Reply,
    DBIError,
>)
    requires
        db.wf(),
    ensures
        result matches Ok(reply) && reply@ == emote_stats_view(db@[guildid].points, author.name@),
{
    match get_point_data(db, guildid) {
        Ok(cur_points) => Ok(emote_stats_reply(&cur_points, author.name.as_str())),
        Err(e) => Err(e),
    }
}

/// How many members one page of the leaderboard holds.
pub const PAGE_SIZE: usize = 20;

/// The points `n` in words.
pub open spec fn points_text(n: u32) -> Seq<char> {
    if n == 1 {
        "**1** Point"@
    } else {
        "**"@ + decimal(n as nat) + "** Points"@
    }
}

/// The entry of the member that stands at `idx` on its page. The label counts
/// from one in steps of the page size.
pub open spec fn board_field(idx: int, user: MyUserView) -> EmbedFieldView {
    EmbedFieldView {
        name: "**Rank "@ + decimal((idx * 20 + 1) as nat) + "**"@,
        value: user.discord_user.name + ": "@ + points_text(user.grammarpoints),
        inline: true,
    }
}

/// Whether `ranked[i]` is the first record of the user `user_id`.
pub open spec fn first_record_at(ranked: Seq<MyUserView>, user_id: u64, i: int) -> bool {
    &&& 0 <= i < ranked.len()
    &&& ranked[i].discord_user.id == user_id
    &&& forall|j: int| 0 <= j < i ==> (#[trigger] ranked[j]).discord_user.id != user_id
}

/// What the leaderboard tells the asking user about their own standing: the
/// points and the place, counted from zero, of their first record.
pub open spec fn standing_text(ranked: Seq<MyUserView>, user_id: u64) -> Seq<char> {
    if exists|i: int| first_record_at(ranked, user_id, i) {
        let i = choose|i: int| first_record_at(ranked, user_id, i);
        "**You** have scored **"@ + decimal(ranked[i].grammarpoints as nat)
            + "** Points and are Ranked **"@ + decimal(i as nat) + "**"@
    } else {
        "**You** have not scored any points yet."@
    }
}

/// The text at the top of every page of the leaderboard.
pub open spec fn board_description(total: u32, ranked: Seq<MyUserView>, user_id: u64) -> Seq<char> {
    "Leaderboard for the points scored on this server. A total of **"@ + decimal(total as nat)
        + " Points** have been scored on this server. "@ + standing_text(ranked, user_id)
}

/// The number of pages that `n` members fill.
pub open spec fn page_count(n: nat) -> nat {
    (n + 19) / 20
}

/// The number of members on the page `page` of `n` members.
pub open spec fn page_len(n: nat, page: int) -> nat {
    if 20 * page + 20 <= n {
        20
    } else if 20 * page <= n {
        (n - 20 * page) as nat
    } else {
        0
    }
}

/// The page `page` of the leaderboard of `ranked`.
pub open spec fn board_page(
    ranked: Seq<MyUserView>,
    page: int,
    total: u32,
    command_user: crate::types::UserRefView,
    guild_name: Seq<char>,
) -> EmbedView {
    EmbedView {
        thumbnail: None,
        title: "Point Leaderboard for "@ + guild_name,
        description: board_description(total, ranked, command_user.id),
        fields: Seq::new(
            page_len(ranked.len(), page),
            |idx: int| board_field(idx, ranked[20 * page + idx]),
        ),
        footer: "Requsted by "@ + command_user.name + ". Only they can change pages."@,
    }
}

/// The pages of the leaderboard of `ranked`.
pub open spec fn board_pages(
    ranked: Seq<MyUserView>,
    total: u32,
    command_user: crate::types::UserRefView,
    guild_name: Seq<char>,
) -> Seq<EmbedView> {
    Seq::new(
        page_count(ranked.len()),
        |page: int| board_page(ranked, page, total, command_user, guild_name),
    )
}

/// The leaderboard of `users` for the asking user `command_user`: the members
/// by points, twenty to a page. Without points settings, or without any
/// member with a record, a sentence says so.
pub open spec fn leaderboard_view(
    points: Option<PointsDataView>,
    users: Seq<MyUserView>,
    command_user: crate::types::UserRefView,
    guild_name: Seq<char>,
) -> ReplyView {
    match points {
        Some(p) if users.len() > 0 => ReplyView::Pages(
            board_pages(ranking(users), p.total, command_user, guild_name),
        ),
        _ => ReplyView::Text("No points earned on this server yet."@),
    }
}

/// The points `n` in words.
pub fn points_in_words(n: u32) -> (text: String)
    ensures
        text@ == points_text(n),
{
    if n == 1 {
        String::from_str("**1** Point")
    } else {
        let mut text = String::from_str("**");
        text.append(u64_to_string(n as u64).as_str());
        text.append("** Points");
        text
    }
}

/// What the leaderboard tells the asking user about their own standing.
pub fn standing(ranked: &Vec<MyUser>, command_user: &UserRef) -> (text: String)
    ensures
        text@ == standing_text(views(ranked@), command_user.id),
{
    let ghost all = views(ranked@);
    let mut i: usize = 0;
    while i < ranked.len()
        invariant
            i <= ranked.len(),
            all == views(ranked@),
            forall|j: int| 0 <= j < i ==> (#[trigger] all[j]).discord_user.id != command_user.id,
        decreases ranked.len() - i,
    {
        if ranked[i].discord_user.id == command_user.id {
            proof {
                assert(first_record_at(all, command_user.id, i as int));
                let c = choose|c: int| first_record_at(all, command_user.id, c);
                if c < i {
                    assert(all[c].discord_user.id != command_user.id);
                }
                if i < c {
                    assert(all[i as int].discord_user.id != command_user.id);
                }
            }
            let mut text = String::from_str("**You** have scored **");
            text.append(u64_to_string(ranked[i].grammarpoints as u64).as_str());
            text.append("** Points and are Ranked **");
            text.append(u64_to_string(i as u64).as_str());
            text.append("**");
            return text;
        }
        i += 1;
    }
    proof {
        assert forall|c: int| !first_record_at(all, command_user.id, c) by {
            if 0 <= c < all.len() {
                assert(all[c].discord_user.id != command_user.id);
            }
        }
    }
    String::from_str("**You** have not scored any points yet.")
}

/// The page `page` of the leaderboard of `ranked`.
fn leaderboard_page(
    ranked: &Vec<MyUser>,
    page: usize,
    description: &String,
    title: &String,
    footer: &String,
) -> (embed: Embed)
    requires
        20 * page < ranked.len(),
    ensures
        embed@.title == title@,
        embed@.description == description@,
        embed@.thumbnail is None,
        embed@.footer == footer@,
        embed@.fields == Seq::new(
            page_len(ranked.len() as nat, page as int),
            |idx: int| board_field(idx, views(ranked@)[20 * page + idx]),
        ),
{
    let start: usize = PAGE_SIZE * page;
    let len: usize = if ranked.len() - start >= PAGE_SIZE {
        PAGE_SIZE
    } else {
        ranked.len() - start
    };
    let mut fields: Vec<EmbedField> = Vec::new();
    let mut idx: usize = 0;
    while idx < len
        invariant
            idx <= len,
            len <= 20,
            start == 20 * page,
            start + len <= ranked.len(),
            fields.len() == idx,
            forall|j: int|
                0 <= j < idx ==> (#[trigger] fields[j])@ == board_field(j, ranked[start + j]@),
        decreases len - idx,
    {
        let user = &ranked[start + idx];
        let mut name = String::from_str("**Rank ");
        name.append(u64_to_string((idx * PAGE_SIZE + 1) as u64).as_str());
        name.append("**");
        let mut value = user.discord_user.name.clone();
        value.append(": ");
        value.append(points_in_words(user.grammarpoints).as_str());
        fields.push(EmbedField { name, value, inline: true });
        idx += 1;
    }
    let embed = Embed {
        thumbnail: None,
        title: title.clone(),
        description: description.clone(),
        fields,
        footer: footer.clone(),
    };
    assert(embed@.fields =~= Seq::new(
        page_len(ranked.len() as nat, page as int),
        |idx: int| board_field(idx, views(ranked@)[20 * page + idx]),
    ));
    embed
}

/// The leaderboard, given the points settings and the members' records as
/// read.
pub fn leaderboard_reply(
    point_data: &Option<PointsData>,
    user_data: Vec<MyUser>,
    command_user: &UserRef,
    guild_name: &str,
) -> (board: Reply)
    ensures
        board@ == leaderboard_view(
            opt_view(*point_data),
            views(user_data@),
            command_user@,
            guild_name@,
        ),
{
    let points_data = match point_data {
        Some(p) => p,
        None => {
            return Reply::Text(String::from_str("No points earned on this server yet."));
        },
    };
    if user_data.len() == 0 {
        return Reply::Text(String::from_str("No points earned on this server yet."));
    }
    let ranked = rank_users(user_data);
    let mut description = String::from_str(
        "Leaderboard for the points scored on this server. A total of **",
    );
    description.append(u64_to_string(points_data.total as u64).as_str());
    description.append(" Points** have been scored on this server. ");
    description.append(standing(&ranked, command_user).as_str());
    let mut title = String::from_str("Point Leaderboard for ");
    title.append(guild_name);
    let mut footer = String::from_str("Requsted by ");
    footer.append(command_user.name.as_str());
    footer.append(". Only they can change pages.");
    let ghost wanted = board_pages(views(ranked@), points_data.total, command_user@, guild_name@);
    let mut embeds: Vec<Embed> = Vec::new();
    let pages: usize = if ranked.len() % PAGE_SIZE > 0 {
        ranked.len() / PAGE_SIZE + 1
    } else {
        ranked.len() / PAGE_SIZE
    };
    let mut page: usize = 0;
    while page < pages
        invariant
            page <= pages,
            pages == page_count(ranked.len() as nat),
            embeds.len() == page,
            wanted == board_pages(views(ranked@), points_data.total, command_user@, guild_name@),
            description@ == board_description(points_data.total, views(ranked@), command_user.id),
            title@ == "Point Leaderboard for "@ + guild_name@,
            footer@ == "Requsted by "@ + command_user.name@ + ". Only they can change pages."@,
            forall|j: int| 0 <= j < page ==> (#[trigger] embeds[j])@ == wanted[j],
        decreases pages - page,
    {
        let embed = leaderboard_page(&ranked, page, &description, &title, &footer);
        assert(embed@ == wanted[page as int]);
        embeds.push(embed);
        page += 1;
    }
    assert(views(embeds@) =~= wanted);
    Reply::Pages(embeds)
}

/// The leaderboard of the guild for the asking user `command_user`.
pub fn leaderboard(
    db: &Database,
    guildid: Option<u64>,
    command_user: &UserRef,
    guild_name: &str,
) -> (result: Result<Reply, DBIError>)
    requires
        db.wf(),
    ensures
        result matches Ok(board) && board@ == leaderboard_view(
            db@[guildid].points,
            db@[guildid].users,
            command_user@,
            guild_name@,
        ),
{
    let point_data = match get_point_data(db, guildid) {
        Ok(p) => p,
        Err(e) => {
            return Err(e);
        },
    };
    match get_all_user_data(db, guildid) {
        Ok(user_data) => Ok(leaderboard_reply(&point_data, user_data, command_user, guild_name)),
        Err(e) => Err(e),
    }
}

} // verus!
