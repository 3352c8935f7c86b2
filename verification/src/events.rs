//! What a reaction means: nothing, a role to grant or revoke, or a point to
//! award or take back.
//!
//! A reaction is judged in steps, because each step needs something that only
//! the caller can fetch: first the role message and the points settings of the
//! guild, then either the self-assignable roles or the author of the message
//! reacted to. Each step is a function of the reaction and of what was fetched.

use vstd::prelude::*;
use crate::db_interactions::{
    change_user_points, get_all_roles, get_point_data, get_role_message, Database,
};
use crate::records::Records;
use crate::types::{
    opt_view, views, PointsData, PointsDataView, RoleMessage, RoleMessageView, RoleRef,
    RoleRefView, UserRef, UserRefView, UserRole, UserRoleView,
};

verus! {

/// Whether a reaction was added or taken away.
#[derive(Debug, Clone, Copy, PartialEq, Eq, Structural)]
pub enum ReactionKind {
    Add,
    Remove,
}

/// The emoji of a reaction. A guild emote is known by its id; any other emoji
/// is never bound to a role or to points.
#[derive(Debug, Clone, Copy, PartialEq, Eq, Structural)]
pub enum ReactionEmoji {
    Custom { id: u64 },
    Unicode,
}

/// A reaction as the gateway reports it.
#[derive(Debug, Clone, Copy, PartialEq, Eq, Structural)]
pub struct ReactionEvent {
    pub kind: ReactionKind,
    pub emoji: ReactionEmoji,
    pub message_id: u64,
    pub channel_id: u64,
    pub guild_id: Option<u64>,
    /// Who reacted.
    pub user_id: u64,
}

/// What kind of reaction an event is.
#[derive(Debug, Clone, Copy, PartialEq, Eq, Structural)]
pub enum Dispatch {
    /// The bot's own reaction: never acted on.
    Suppressed,
    /// A reaction to the posted role message, while it is active.
    RoleReaction,
    /// A reaction to the posted role message, while it is not active: roles are
    /// neither granted nor revoked.
    Paused,
    /// A reaction with the points emote, to any other message.
    PointReaction,
    /// Neither.
    Unrelated,
}

/// A role to grant to, or to revoke from, a member.
#[derive(Debug, PartialEq, Eq)]
pub struct RoleChange {
    pub guild_id: u64,
    pub user_id: u64,
    pub role: RoleRef,
    /// `true` to grant the role, `false` to revoke it.
    pub grant: bool,
}

/// What a [`RoleChange`] holds, as a mathematical value.
pub struct RoleChangeView {
    pub guild_id: u64,
    pub user_id: u64,
    pub role: RoleRefView,
    pub grant: bool,
}

impl View for RoleChange {
    type V = RoleChangeView;

    open spec fn view(&self) -> RoleChangeView {
        RoleChangeView {
            guild_id: self.guild_id,
            user_id: self.user_id,
            role: self.role@,
            grant: self.grant,
        }
    }
}

/// A point reaction whose message has yet to be looked up: the point goes to
/// the author of the message `message_id` in the channel `channel_id`.
#[derive(Debug, Clone, Copy, PartialEq, Eq, Structural)]
pub struct PointCheck {
    pub guild_id: u64,
    pub channel_id: u64,
    pub message_id: u64,
    /// Who reacted.
    pub reactor_id: u64,
    /// One point more for a reaction added, one less for a reaction removed.
    pub delta: i32,
}

/// A points change that is due to the member `author_id`.
#[derive(Debug, Clone, Copy, PartialEq, Eq, Structural)]
pub struct Award {
    pub guild_id: u64,
    pub author_id: u64,
    pub delta: i32,
}

/// What is to be done about a reaction, as far as the record store can tell.
#[derive(Debug, PartialEq, Eq)]
pub enum Decision {
    /// Nothing: the reaction is the bot's own.
    Suppressed,
    /// Nothing: the reaction is to no tracked message and with no tracked emote,
    /// or it is to the role message while that is not active or with an emoji
    /// that no role is bound to, or it was made outside any guild.
    Nothing,
    /// Change a member's role.
    Role(RoleChange),
    /// Look the message up, then see [`handle_point`].
    Point(PointCheck),
}

/// What a [`Decision`] holds, as a mathematical value.
pub enum DecisionView {
    Suppressed,
    Nothing,
    Role(RoleChangeView),
    Point(PointCheck),
}

impl View for Decision {
    type V = DecisionView;

    open spec fn view(&self) -> DecisionView {
        match self {
            Decision::Suppressed => DecisionView::Suppressed,
            Decision::Nothing => DecisionView::Nothing,
            Decision::Role(change) => DecisionView::Role(change@),
            Decision::Point(check) => DecisionView::Point(*check),
        }
    }
}

/// The kind of `event`, in this order: the bot's own reaction is suppressed; a
/// reaction to the message that the role message was posted as is a role
/// reaction, and paused while the role message is not active; a reaction with
/// the points emote is a point reaction.
pub open spec fn dispatch_of(
    event: ReactionEvent,
    bot_id: u64,
    role_message: Option<RoleMessageView>,
    points: Option<PointsDataView>,
) -> Dispatch {
    if event.user_id == bot_id {
        Dispatch::Suppressed
    } else if posted_as(role_message, event.message_id) {
        if role_message->0.active {
            Dispatch::RoleReaction
        } else {
            Dispatch::Paused
        }
    } else if points matches Some(p) && event.emoji == (ReactionEmoji::Custom {
        id: p.guild_emote.id,
    }) {
        Dispatch::PointReaction
    } else {
        Dispatch::Unrelated
    }
}

/// Whether the role message was posted as the message `message_id`. A role
/// message that was not posted is no message at all.
pub open spec fn posted_as(role_message: Option<RoleMessageView>, message_id: u64) -> bool {
    role_message matches Some(m) && m.guild_message matches Some(gm) && gm.id == message_id
}

/// Whether `roles[i]` is the first role bound to the emote `emote_id`.
pub open spec fn first_bound_at(roles: Seq<UserRoleView>, emote_id: u64, i: int) -> bool {
    &&& 0 <= i < roles.len()
    &&& roles[i].emote.id == emote_id
    &&& forall|j: int| 0 <= j < i ==> (#[trigger] roles[j]).emote.id != emote_id
}

/// The first of `roles` that is bound to the emote `emote_id`.
pub open spec fn bound_role(roles: Seq<UserRoleView>, emote_id: u64) -> Option<UserRoleView> {
    if exists|i: int| first_bound_at(roles, emote_id, i) {
        Some(roles[choose|i: int| first_bound_at(roles, emote_id, i)])
    } else {
        None
    }
}

/// The role change that a role reaction asks for: the first role bound to the
/// reaction's emote, granted for a reaction added and revoked for one removed.
/// A reaction outside a guild, or with an emoji that no role is bound to, asks
/// for none.
pub open spec fn role_change_of(event: ReactionEvent, roles: Seq<UserRoleView>) -> Option<
    RoleChangeView,
> {
    match (event.emoji, event.guild_id) {
        (ReactionEmoji::Custom { id }, Some(guild_id)) => match bound_role(roles, id) {
            Some(bound) => Some(
                RoleChangeView {
                    guild_id,
                    user_id: event.user_id,
                    role: bound.guild_role,
                    grant: event.kind == ReactionKind::Add,
                },
            ),
            None => None,
        },
        _ => None,
    }
}

/// The points that a reaction of kind `kind` is worth to the author.
pub open spec fn delta_of(kind: ReactionKind) -> i32 {
    match kind {
        ReactionKind::Add => 1i32,
        ReactionKind::Remove => -1i32,
    }
}

/// The message to look up for a point reaction. A reaction outside a guild
/// awards nothing.
pub open spec fn point_check_of(event: ReactionEvent) -> Option<PointCheck> {
    match event.guild_id {
        Some(guild_id) => Some(
            PointCheck {
                guild_id,
                channel_id: event.channel_id,
                message_id: event.message_id,
                reactor_id: event.user_id,
                delta: delta_of(event.kind),
            },
        ),
        None => None,
    }
}

/// The points change that is due once the message was looked up: none while
/// the reactor is unknown, and none for a reaction to one's own message.
pub open spec fn award_of(check: PointCheck, reactor: Option<u64>, author_id: u64) -> Option<
    Award,
> {
    match reactor {
        Some(id) if id != author_id => Some(
            Award { guild_id: check.guild_id, author_id, delta: check.delta },
        ),
        _ => None,
    }
}

/// What is to be done about `event` in a partition that holds `records`.
pub open spec fn decision_of(records: Records, bot_id: u64, event: ReactionEvent) -> DecisionView {
    match dispatch_of(event, bot_id, records.role_message, records.points) {
        Dispatch::Suppressed => DecisionView::Suppressed,
        Dispatch::RoleReaction => match role_change_of(event, records.roles) {
            Some(change) => DecisionView::Role(change),
            None => DecisionView::Nothing,
        },
        Dispatch::Paused => DecisionView::Nothing,
        Dispatch::PointReaction => match point_check_of(event) {
            Some(check) => DecisionView::Point(check),
            None => DecisionView::Nothing,
        },
        Dispatch::Unrelated => DecisionView::Nothing,
    }
}

/// The records once `event` was judged and acted on, where the reactor is known
/// and `author`, who wrote the message reacted to, is a member of the guild: a
/// point reaction to another member's message changes the author's points and
/// the guild total; nothing else changes the records.
pub open spec fn records_after(
    records: Records,
    bot_id: u64,
    event: ReactionEvent,
    author: UserRefView,
) -> Records {
    match decision_of(records, bot_id, event) {
        DecisionView::Point(check) => match award_of(check, Some(event.user_id), author.id) {
            Some(award) => records.change_user_points(author, award.delta).0,
            None => records,
        },
        _ => records,
    }
}

/// The text sent to a member whose role was changed.
pub open spec fn notice_text(role_name: Seq<char>, grant: bool) -> Seq<char> {
    if grant {
        "The role "@ + role_name + " was added to you."@
    } else {
        "The role "@ + role_name + " was removed from you."@
    }
}

/// Whether `event` is the bot's own reaction.
pub fn is_own_reaction(event: &ReactionEvent, bot_id: u64) -> (result: bool)
    ensures
        result == (event.user_id == bot_id),
{
    event.user_id == bot_id
}

/// Sorts `event` by what it reacts to, given the role message and the points
/// settings of its partition.
pub fn handle_reaction(
    event: &ReactionEvent,
    bot_id: u64,
    role_message: &Option<RoleMessage>,
    points: &Option<PointsData>,
) -> (result: Dispatch)
    ensures
        result == dispatch_of(*event, bot_id, opt_view(*role_message), opt_view(*points)),
        event.user_id == bot_id ==> result == Dispatch::Suppressed,
{
    if is_own_reaction(event, bot_id) {
        return Dispatch::Suppressed;
    }
    if let Some(m) = role_message {
        if let Some(gm) = &m.guild_message {
            if gm.id == event.message_id {
                if m.active {
                    return Dispatch::RoleReaction;
                } else {
                    return Dispatch::Paused;
                }
            }
        }
    }
    if let Some(p) = points {
        if let ReactionEmoji::Custom { id } = event.emoji {
            if id == p.guild_emote.id {
                return Dispatch::PointReaction;
            }
        }
    }
    Dispatch::Unrelated
}

/// The role change that the role reaction `event` asks for, given the
/// self-assignable roles of its partition.
pub fn handle_role(event: &ReactionEvent, cur_roles: &Vec<UserRole>) -> (result: Option<
    RoleChange,
>)
    ensures
        opt_view(result) == role_change_of(*event, views(cur_roles@)),
{
    let emote_id = match event.emoji {
        ReactionEmoji::Custom { id } => id,
        ReactionEmoji::Unicode => {
            return None;
        },
    };
    let guild_id = match event.guild_id {
        Some(guild_id) => guild_id,
        None => {
            return None;
        },
    };
    let ghost roles = views(cur_roles@);
    let mut i: usize = 0;
    while i < cur_roles.len()
        invariant
            i <= cur_roles.len(),
            roles == views(cur_roles@),
            event.emoji == (ReactionEmoji::Custom { id: emote_id }),
            event.guild_id == Some(guild_id),
            forall|j: int| 0 <= j < i ==> (#[trigger] roles[j]).emote.id != emote_id,
        decreases cur_roles.len() - i,
    {
        if cur_roles[i].emote.id == emote_id {
            proof {
                assert(first_bound_at(roles, emote_id, i as int));
                let c = choose|c: int| first_bound_at(roles, emote_id, c);
                assert(c == i) by {
                    if c < i {
                        assert(roles[c].emote.id != emote_id);
                    }
                    if i < c {
                        assert(roles[i as int].emote.id != emote_id);
                    }
                }
            }
            let grant = match event.kind {
                ReactionKind::Add => true,
                ReactionKind::Remove => false,
            };
            let change = RoleChange {
                guild_id,
                user_id: event.user_id,
                role: cur_roles[i].guild_role.clone(),
                grant,
            };
            return Some(change);
        }
        i += 1;
    }
    proof {
        assert forall|c: int| !first_bound_at(roles, emote_id, c) by {
            if 0 <= c < roles.len() {
                assert(roles[c].emote.id != emote_id);
            }
        }
    }
    None
}

/// The points that a reaction of kind `kind` is worth to the author.
pub fn reaction_delta(kind: ReactionKind) -> (result: i32)
    ensures
        result == delta_of(kind),
{
    match kind {
        ReactionKind::Add => 1,
        ReactionKind::Remove => -1,
    }
}

/// The message to look up for the point reaction `event`; none for a reaction
/// outside a guild.
pub fn point_check_for(event: &ReactionEvent) -> (result: Option<PointCheck>)
    ensures
        result == point_check_of(*event),
{
    match event.guild_id {
        Some(guild_id) => Some(
            PointCheck {
                guild_id,
                channel_id: event.channel_id,
                message_id: event.message_id,
                reactor_id: event.user_id,
                delta: reaction_delta(event.kind),
            },
        ),
        None => None,
    }
}

/// The points change that is due for the point reaction `check`, once the
/// reactor and the author of the message were looked up. `reactor` is `None`
/// where the reactor could not be found.
pub fn handle_point(check: &PointCheck, reactor: Option<u64>, author_id: u64) -> (result: Option<
    Award,
>)
    ensures
        result == award_of(*check, reactor, author_id),
{
    match reactor {
        Some(id) => {
            if id != author_id {
                Some(Award { guild_id: check.guild_id, author_id, delta: check.delta })
            } else {
                None
            }
        },
        None => None,
    }
}

impl RoleChange {
    /// The text to send to the member once the role was changed.
    pub fn notice(&self) -> (text: String)
        ensures
            text@ == notice_text(self.role.name@, self.grant),
    {
        let mut text = String::from_str("The role ");
        text.append(self.role.name.as_str());
        if self.grant {
            text.append(" was added to you.");
        } else {
            text.append(" was removed from you.");
        }
        text
    }
}

/// Judges `event` against what the store holds for its guild: sorts it, and for
/// a role reaction finds the role. The bot's own reactions are suppressed
/// whatever the store holds.
pub fn my_event_handler(db: &Database, bot_id: u64, event: &ReactionEvent) -> (result: Decision)
    requires
        db.wf(),
    ensures
        result@ == decision_of(db@[event.guild_id], bot_id, *event),
        event.user_id == bot_id ==> result@ == DecisionView::Suppressed,
{
    if is_own_reaction(event, bot_id) {
        return Decision::Suppressed;
    }
    let role_message = match get_role_message(db, event.guild_id) {
        Ok(m) => m,
        Err(_) => None,
    };
    let points = match get_point_data(db, event.guild_id) {
        Ok(p) => p,
        Err(_) => None,
    };
    match handle_reaction(event, bot_id, &role_message, &points) {
        Dispatch::Suppressed => Decision::Suppressed,
        Dispatch::RoleReaction => {
            let roles = match get_all_roles(db, event.guild_id) {
                Ok(roles) => roles,
                Err(_) => Vec::new(),
            };
            match handle_role(event, &roles) {
                Some(change) => Decision::Role(change),
                None => Decision::Nothing,
            }
        },
        Dispatch::Paused => Decision::Nothing,
        Dispatch::PointReaction => match point_check_for(event) {
            Some(check) => Decision::Point(check),
            None => Decision::Nothing,
        },
        Dispatch::Unrelated => Decision::Nothing,
    }
}

/// Judges `event` and, where it is a point reaction, settles it in the store:
/// with the reactor known and `author`, who wrote the message reacted to, a
/// member of the guild, a reaction to another member's message changes the
/// author's points and the guild total. A role change is handed back for the
/// caller to carry out; it changes nothing in the store.
pub fn reconcile(db: &mut Database, bot_id: u64, event: &ReactionEvent, author: &UserRef) -> (result:
    Decision)
    requires
        old(db).wf(),
    ensures
        final(db).wf(),
        final(db)@ == old(db)@.insert(
            event.guild_id,
            records_after(old(db)@[event.guild_id], bot_id, *event, author@),
        ),
        result@ == decision_of(old(db)@[event.guild_id], bot_id, *event),
{
    let decision = my_event_handler(db, bot_id, event);
    proof {
        assert(db@ =~= db@.insert(event.guild_id, db@[event.guild_id]));
    }
    if let Decision::Point(check) = &decision {
        if let Some(award) = handle_point(check, Some(event.user_id), author.id) {
            let _ = change_user_points(db, event.guild_id, author.clone(), award.delta);
        }
    }
    decision
}

/// Why a member's role was not changed.
#[derive(Debug, Clone, Copy, PartialEq, Eq, Structural)]
pub enum MutationError {
    /// The user is no longer a member of the guild.
    MemberNotFound,
    /// The bot may not change this role.
    Forbidden,
}

/// How far a role change has come. The caller performs what the step names and
/// reports whether it succeeded.
#[derive(Debug, Clone, Copy, PartialEq, Eq, Structural)]
pub enum RoleStep {
    /// Look the member up in the guild.
    FetchMember,
    /// Add the role to the member, or remove it.
    ChangeRole,
    /// Send the member the notice.
    Notify,
    /// The role was changed.
    Changed,
    /// The role was not changed.
    Failed(MutationError),
}

/// The step that follows `step`, given whether `step` succeeded. A member who
/// is not found ends the change, and so does a refused role change. Whether
/// the notice could be sent makes no difference.
pub open spec fn role_step_after(step: RoleStep, succeeded: bool) -> RoleStep {
    match step {
        RoleStep::FetchMember => if succeeded {
            RoleStep::ChangeRole
        } else {
            RoleStep::Failed(MutationError::MemberNotFound)
        },
        RoleStep::ChangeRole => if succeeded {
            RoleStep::Notify
        } else {
            RoleStep::Failed(MutationError::Forbidden)
        },
        RoleStep::Notify => RoleStep::Changed,
        RoleStep::Changed => RoleStep::Changed,
        RoleStep::Failed(e) => RoleStep::Failed(e),
    }
}

/// The step that follows `step`, given whether `step` succeeded.
pub fn apply_role_change(step: RoleStep, succeeded: bool) -> (result: RoleStep)
    ensures
        result == role_step_after(step, succeeded),
{
    match step {
        RoleStep::FetchMember => if succeeded {
            RoleStep::ChangeRole
        } else {
            RoleStep::Failed(MutationError::MemberNotFound)
        },
        RoleStep::ChangeRole => if succeeded {
            RoleStep::Notify
        } else {
            RoleStep::Failed(MutationError::Forbidden)
        },
        RoleStep::Notify => RoleStep::Changed,
        RoleStep::Changed => RoleStep::Changed,
        RoleStep::Failed(e) => RoleStep::Failed(e),
    }
}

} // verus!
