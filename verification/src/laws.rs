//! What holds of the record store and of the judging of reactions, whatever
//! the records and the reactions are.

use vstd::prelude::*;
use crate::events::{
    bound_role, decision_of, first_bound_at, posted_as, records_after, role_step_after,
    DecisionView, MutationError, ReactionEmoji, ReactionEvent, ReactionKind, RoleChangeView,
    RoleStep,
};
use crate::records::{points_after, Records};
use crate::types::{
    DBIErrorView, EmoteRefView, MessageRef, RoleMessageView, TagView, UserRefView, UserRoleView,
};

verus! {

/// In well-formed records, the record found under a member's id is the only
/// record of that member.
pub proof fn lemma_user_index_unique(r: Records, id: u64, i: int)
    requires
        r.wf(),
        0 <= i < r.users.len(),
        r.users[i].discord_id == id,
    ensures
        r.user_index(id) == Some(i),
{
}

/// A name that is free is taken by the first creation and refused to the
/// second: of two creations under one name in one partition, exactly the first
/// succeeds, and the second changes nothing.
pub proof fn law_tag_created_once(r: Records, first: TagView, second: TagView)
    requires
        r.wf(),
        first.name == second.name,
        r.get_tag(first.name) is Err,
    ensures
        r.create_tag(first).1 == Ok::<TagView, DBIErrorView>(first),
        r.create_tag(first).0.create_tag(second).1 == Err::<TagView, DBIErrorView>(
            DBIErrorView::TagAlreadyExists,
        ),
        r.create_tag(first).0.create_tag(second).0 == r.create_tag(first).0,
        r.create_tag(first).0.get_tag(first.name) == Ok::<TagView, DBIErrorView>(first),
{
    let after = r.create_tag(first).0;
    assert(after.tags[r.tags.len() as int].name == first.name);
}

/// A name that is in use is refused, and the records stay as they are.
pub proof fn law_tag_name_in_use(r: Records, tag: TagView)
    requires
        r.get_tag(tag.name) is Ok,
    ensures
        r.create_tag(tag).1 == Err::<TagView, DBIErrorView>(DBIErrorView::TagAlreadyExists),
        r.create_tag(tag).0 == r,
{
}

/// Removing a tag that does not exist answers `TagNotFound`; removing one that
/// exists hands it back, and looking it up afterwards answers `TagNotFound`.
pub proof fn law_tag_removed(r: Records, name: Seq<char>)
    requires
        r.wf(),
    ensures
        r.get_tag(name) is Err ==> r.remove_tag(name).1 == Err::<TagView, DBIErrorView>(
            DBIErrorView::TagNotFound,
        ) && r.remove_tag(name).0 == r,
        r.get_tag(name) is Ok ==> r.remove_tag(name).1 == r.get_tag(name),
        r.remove_tag(name).0.get_tag(name) == Err::<TagView, DBIErrorView>(
            DBIErrorView::TagNotFound,
        ),
        r.remove_tag(name).0.wf(),
{
    if r.tag_index(name) is Some {
        let i = r.tag_index(name)->0;
        let after = r.remove_tag(name).0;
        assert(after.tags == r.tags.remove(i));
        assert forall|j: int| 0 <= j < after.tags.len() implies after.tags[j].name != name by {
            if j < i {
                assert(after.tags[j] == r.tags[j]);
            } else {
                assert(after.tags[j] == r.tags[j + 1]);
            }
        }
        lemma_remove_keeps_apart(r.tags, |t: TagView| t.name, i);
    }
}

/// Taking one record out of a list without doubles leaves a list without
/// doubles, whatever the records are told apart by.
proof fn lemma_remove_keeps_apart<T, K>(list: Seq<T>, key: spec_fn(T) -> K, i: int)
    requires
        0 <= i < list.len(),
        forall|a: int, b: int| 0 <= a < b < list.len() ==> key(list[a]) != key(list[b]),
    ensures
        forall|a: int, b: int|
            0 <= a < b < list.remove(i).len() ==> key(list.remove(i)[a]) != key(
                list.remove(i)[b],
            ),
{
    let rest = list.remove(i);
    assert forall|a: int, b: int| 0 <= a < b < rest.len() implies key(rest[a]) != key(
        rest[b],
    ) by {
        let a0 = if a < i { a } else { a + 1 };
        let b0 = if b < i { b } else { b + 1 };
        assert(rest[a] == list[a0]);
        assert(rest[b] == list[b0]);
    }
}

/// Whatever is done to a partition, no two of its tags share a name, no two of
/// its roles share a role or an emote, and no two of its members share an id:
/// each operation on well-formed records leaves well-formed records.
pub proof fn law_records_stay_well_formed(r: Records)
    requires
        r.wf(),
    ensures
        forall|tag: TagView| (#[trigger] r.create_tag(tag)).0.wf(),
        forall|name: Seq<char>| (#[trigger] r.remove_tag(name)).0.wf(),
        forall|role: UserRoleView| (#[trigger] r.add_role(role)).0.wf(),
        forall|role_id: u64| (#[trigger] r.remove_role(role_id)).0.wf(),
        r.remove_all_roles().wf(),
        forall|msg: Seq<char>, user: UserRefView| (#[trigger] r.set_role_message(msg, user)).wf(),
        forall|m: RoleMessageView, posted: MessageRef, state: bool, user: UserRefView|
            (#[trigger] r.set_active_role_message(m, posted, state, user)).0.wf(),
        forall|user: UserRefView, delta: i32| (#[trigger] r.change_user_points(user, delta)).0.wf(),
        forall|emote: EmoteRefView, user: UserRefView| (#[trigger] r.set_point_emote(emote, user)).wf(),
{
    assert forall|name: Seq<char>| (#[trigger] r.remove_tag(name)).0.wf() by {
        if r.tag_index(name) is Some {
            lemma_remove_keeps_apart(r.tags, |t: TagView| t.name, r.tag_index(name)->0);
        }
    }
    assert forall|role_id: u64| (#[trigger] r.remove_role(role_id)).0.wf() by {
        if r.role_index(role_id) is Some {
            let i = r.role_index(role_id)->0;
            lemma_remove_keeps_apart(r.roles, |u: UserRoleView| u.guild_role.id, i);
            lemma_remove_keeps_apart(r.roles, |u: UserRoleView| u.emote.id, i);
        }
    }
    assert forall|user: UserRefView, delta: i32|
        (#[trigger] r.change_user_points(user, delta)).0.wf() by {
        lemma_change_user_points_wf(r, user, delta);
    }
}

/// What is written to the partition of one guild is not seen in the partition
/// of another: after a tag was created for `g1`, the partition of `g2` holds
/// what it held, so looking the tag up there and listing the tags there answer
/// as before.
pub proof fn law_partitions_isolated(
    store: Map<Option<u64>, Records>,
    g1: Option<u64>,
    g2: Option<u64>,
    tag: TagView,
)
    requires
        g1 != g2,
    ensures
        store.insert(g1, store[g1].create_tag(tag).0)[g2] == store[g2],
        store.insert(g1, store[g1].create_tag(tag).0)[g2].get_tag(tag.name) == store[g2].get_tag(
            tag.name,
        ),
        store.insert(g1, store[g1].create_tag(tag).0)[g2].tags == store[g2].tags,
        store[g2].get_tag(tag.name) is Err ==> store.insert(
            g1,
            store[g1].create_tag(tag).0,
        )[g2].get_tag(tag.name) == Err::<TagView, DBIErrorView>(DBIErrorView::TagNotFound),
{
}

/// A points change keeps the records well formed.
pub proof fn lemma_change_user_points_wf(r: Records, user: UserRefView, delta: i32)
    requires
        r.wf(),
    ensures
        r.change_user_points(user, delta).0.wf(),
{
    let after = r.change_user_points(user, delta).0;
    if r.points is Some {
        match r.user_index(user.id) {
            Some(i) => {
                assert forall|a: int, b: int| 0 <= a < b < after.users.len() implies after.users[a].discord_id
                    != after.users[b].discord_id by {
                    assert(after.users[a].discord_id == r.users[a].discord_id);
                    assert(after.users[b].discord_id == r.users[b].discord_id);
                }
                assert forall|a: int| 0 <= a < after.users.len() implies (
                #[trigger] after.users[a]).discord_user.id == after.users[a].discord_id by {
                    if a != i {
                        assert(after.users[a] == r.users[a]);
                    }
                }
            },
            None => {
                assert forall|a: int, b: int| 0 <= a < b < after.users.len() implies after.users[a].discord_id
                    != after.users[b].discord_id by {
                    assert(after.users[a] == r.users[a]);
                    if b < r.users.len() {
                        assert(after.users[b] == r.users[b]);
                    }
                }
                assert forall|a: int| 0 <= a < after.users.len() implies (
                #[trigger] after.users[a]).discord_user.id == after.users[a].discord_id by {
                    if a < r.users.len() {
                        assert(after.users[a] == r.users[a]);
                    }
                }
            },
        }
    }
}

/// What a points change does to the member and to the guild total: the
/// member's points and the total each move by `delta`, within zero and the
/// largest balance; nobody else's points change.
pub proof fn lemma_points_changed(r: Records, user: UserRefView, delta: i32, other: u64)
    requires
        r.wf(),
        r.points is Some,
    ensures
        r.change_user_points(user, delta).0.points is Some,
        r.change_user_points(user, delta).0.points->0.total == points_after(
            r.points->0.total,
            delta,
        ),
        r.change_user_points(user, delta).0.points_of(user.id) == points_after(
            r.points_of(user.id),
            delta,
        ),
        other != user.id ==> r.change_user_points(user, delta).0.points_of(other) == r.points_of(
            other,
        ),
{
    let after = r.change_user_points(user, delta).0;
    lemma_change_user_points_wf(r, user, delta);
    match r.user_index(user.id) {
        Some(i) => {
            assert(after.users[i].discord_id == user.id);
            lemma_user_index_unique(after, user.id, i);
            if other != user.id {
                match r.user_index(other) {
                    Some(k) => {
                        assert(after.users[k] == r.users[k]);
                        lemma_user_index_unique(after, other, k);
                    },
                    None => {
                        if after.user_index(other) is Some {
                            let k = after.user_index(other)->0;
                            assert(r.users[k].discord_id == other);
                        }
                    },
                }
            }
        },
        None => {
            let n = r.users.len() as int;
            assert(after.users[n].discord_id == user.id);
            lemma_user_index_unique(after, user.id, n);
            if other != user.id {
                match r.user_index(other) {
                    Some(k) => {
                        assert(after.users[k] == r.users[k]);
                        lemma_user_index_unique(after, other, k);
                    },
                    None => {
                        if after.user_index(other) is Some {
                            let k = after.user_index(other)->0;
                            assert(r.users[k].discord_id == other);
                        }
                    },
                }
            }
        },
    }
}

/// A point given and taken back leaves the author's points and the guild total
/// where they were, as long as neither stood at the largest balance.
pub proof fn law_point_given_and_taken(r: Records, author: UserRefView)
    requires
        r.wf(),
        r.points is Some,
        r.points_of(author.id) < u32::MAX,
        r.points->0.total < u32::MAX,
    ensures
        r.change_user_points(author, 1i32).0.change_user_points(author, -1i32).0.points_of(author.id)
            == r.points_of(author.id),
        r.change_user_points(author, 1i32).0.change_user_points(author, -1i32).0.points is Some,
        r.change_user_points(author, 1i32).0.change_user_points(author, -1i32).0.points->0.total
            == r.points->0.total,
{
    let given = r.change_user_points(author, 1i32).0;
    lemma_points_changed(r, author, 1i32, author.id);
    lemma_change_user_points_wf(r, author, 1i32);
    lemma_points_changed(given, author, -1i32, author.id);
}

/// A reaction added and then removed, by one user with one emoji on one
/// message, leaves the points of the message's author and the guild total
/// where they were, as long as neither stood at the largest balance.
pub proof fn law_point_reaction_paired(
    r: Records,
    bot_id: u64,
    added: ReactionEvent,
    removed: ReactionEvent,
    author: UserRefView,
)
    requires
        r.wf(),
        added.kind == ReactionKind::Add,
        removed == (ReactionEvent { kind: ReactionKind::Remove, ..added }),
        r.points_of(author.id) < u32::MAX,
        r.points matches Some(p) ==> p.total < u32::MAX,
    ensures
        records_after(records_after(r, bot_id, added, author), bot_id, removed, author).points_of(
            author.id,
        ) == r.points_of(author.id),
        r.points matches Some(p) ==> records_after(
            records_after(r, bot_id, added, author),
            bot_id,
            removed,
            author,
        ).points matches Some(q) && q.total == p.total,
        decision_of(r, bot_id, added) is Point ==> decision_of(
            records_after(r, bot_id, added, author),
            bot_id,
            removed,
        ) is Point,
{
    let given = records_after(r, bot_id, added, author);
    if given != r {
        lemma_points_changed(r, author, 1i32, author.id);
        lemma_change_user_points_wf(r, author, 1i32);
        lemma_points_changed(given, author, -1i32, author.id);
    }
}

/// The records after the points changes `changes`, one after the other.
pub open spec fn after_changes(r: Records, changes: Seq<(UserRefView, i32)>) -> Records
    decreases changes.len(),
{
    if changes.len() == 0 {
        r
    } else {
        after_changes(r, changes.drop_last()).change_user_points(
            changes.last().0,
            changes.last().1,
        ).0
    }
}

/// The sum of the deltas of `changes`.
pub open spec fn delta_sum(changes: Seq<(UserRefView, i32)>) -> int
    decreases changes.len(),
{
    if changes.len() == 0 {
        0
    } else {
        delta_sum(changes.drop_last()) + changes.last().1
    }
}

/// Whether a total that starts at `total` stays within zero and the largest
/// balance after each of `changes`.
pub open spec fn total_stays_in_range(total: int, changes: Seq<(UserRefView, i32)>) -> bool
    decreases changes.len(),
{
    if changes.len() == 0 {
        true
    } else {
        &&& total_stays_in_range(total, changes.drop_last())
        &&& 0 <= total + delta_sum(changes) <= u32::MAX
    }
}

/// After any run of points changes, one after the other and for whichever
/// members, the guild total is what it was plus the sum of the deltas, as long
/// as the total never had to be held at zero or at the largest balance on the
/// way.
pub proof fn law_total_is_sum(r: Records, changes: Seq<(UserRefView, i32)>)
    requires
        r.wf(),
        r.points is Some,
        total_stays_in_range(r.points->0.total as int, changes),
    ensures
        after_changes(r, changes).wf(),
        after_changes(r, changes).points is Some,
        after_changes(r, changes).points->0.total == r.points->0.total + delta_sum(changes),
    decreases changes.len(),
{
    if changes.len() > 0 {
        let before = after_changes(r, changes.drop_last());
        law_total_is_sum(r, changes.drop_last());
        lemma_change_user_points_wf(before, changes.last().0, changes.last().1);
        lemma_points_changed(before, changes.last().0, changes.last().1, changes.last().0.id);
    }
}

/// The bot's own reaction is never acted on, whatever its emoji and message
/// and whatever the records hold.
pub proof fn law_own_reaction_suppressed(r: Records, bot_id: u64, event: ReactionEvent)
    requires
        event.user_id == bot_id,
    ensures
        decision_of(r, bot_id, event) == DecisionView::Suppressed,
{
}

/// In well-formed roles the role bound to an emote is the first, and only, role
/// bound to it.
pub proof fn lemma_bound_role(r: Records, i: int)
    requires
        r.wf(),
        0 <= i < r.roles.len(),
    ensures
        bound_role(r.roles, r.roles[i].emote.id) == Some(r.roles[i]),
{
    let id = r.roles[i].emote.id;
    assert(first_bound_at(r.roles, id, i));
    let c = choose|c: int| first_bound_at(r.roles, id, c);
    if c != i {
        assert(r.roles[c].emote.id == r.roles[i].emote.id);
    }
}

/// With the role message posted as the message `posted` and active, and the
/// role `bound` among the self-assignable roles, a member's reaction in a guild
/// - to `posted` with the emote of `bound` grants the role of `bound` when it
///   is added, and revokes it when it is removed;
/// - to `posted` with any emoji that no role is bound to does nothing;
/// - to any other message with the emote of `bound` does nothing, unless that
///   emote is also the points emote.
pub proof fn law_role_reaction(
    r: Records,
    bot_id: u64,
    event: ReactionEvent,
    posted: MessageRef,
    i: int,
)
    requires
        r.wf(),
        r.role_message is Some,
        r.role_message->0.guild_message == Some(posted),
        r.role_message->0.active,
        0 <= i < r.roles.len(),
        event.user_id != bot_id,
        event.guild_id is Some,
    ensures
        event.message_id == posted.id && event.emoji == (ReactionEmoji::Custom {
            id: r.roles[i].emote.id,
        }) ==> decision_of(r, bot_id, event) == DecisionView::Role(
            RoleChangeView {
                guild_id: event.guild_id->0,
                user_id: event.user_id,
                role: r.roles[i].guild_role,
                grant: event.kind == ReactionKind::Add,
            },
        ),
        event.message_id == posted.id && (event.emoji matches ReactionEmoji::Custom { id }
            ==> r.emote_index(id) is None) ==> decision_of(r, bot_id, event)
            == DecisionView::Nothing,
        event.message_id != posted.id && event.emoji == (ReactionEmoji::Custom {
            id: r.roles[i].emote.id,
        }) && (r.points matches Some(p) ==> p.guild_emote.id != r.roles[i].emote.id)
            ==> decision_of(r, bot_id, event) == DecisionView::Nothing,
{
    lemma_bound_role(r, i);
    match event.emoji {
        ReactionEmoji::Custom { id } => {
            if r.emote_index(id) is None {
                assert forall|c: int| !first_bound_at(r.roles, id, c) by {
                    if first_bound_at(r.roles, id, c) {
                        assert(r.roles[c].emote.id == id);
                    }
                }
            }
        },
        ReactionEmoji::Unicode => {},
    }
}

/// While the role message is not active, a reaction to the message it was
/// posted as does nothing, whatever its emoji: no role is changed and no point
/// is awarded.
pub proof fn law_role_reactions_paused(r: Records, bot_id: u64, event: ReactionEvent)
    requires
        posted_as(r.role_message, event.message_id),
        !r.role_message->0.active,
        event.user_id != bot_id,
    ensures
        decision_of(r, bot_id, event) == DecisionView::Nothing,
{
}

/// Once the member was found and the role changed, the change has succeeded,
/// whether or not the notice could be sent. A member who is not found, or a
/// role that may not be changed, ends the change at once with that error.
pub proof fn law_role_change_outcome(member_found: bool, role_changed: bool, notified: bool)
    ensures
        !member_found ==> role_step_after(RoleStep::FetchMember, member_found) == RoleStep::Failed(
            MutationError::MemberNotFound,
        ),
        member_found && !role_changed ==> role_step_after(
            role_step_after(RoleStep::FetchMember, member_found),
            role_changed,
        ) == RoleStep::Failed(MutationError::Forbidden),
        member_found && role_changed ==> role_step_after(
            role_step_after(role_step_after(RoleStep::FetchMember, member_found), role_changed),
            notified,
        ) == RoleStep::Changed,
{
}

} // verus!
