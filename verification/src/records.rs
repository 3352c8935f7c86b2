//! What one partition of the record store holds, as a mathematical value, and
//! what each store operation makes of it.
//!
//! A partition belongs to one guild, or to no guild at all. It holds the tags,
//! the self-assignable roles, the role message, the points settings and the
//! points of each member. Lists keep the order in which records were created.

use vstd::prelude::*;
use crate::types::{
    DBIErrorView, EmoteRefView, MessageRef, MyUserView, PointsDataView, RoleMessageView, TagView,
    UserRefView, UserRoleView,
};

verus! {

/// The records of one partition.
pub struct Records {
    pub tags: Seq<TagView>,
    pub roles: Seq<UserRoleView>,
    pub role_message: Option<RoleMessageView>,
    pub points: Option<PointsDataView>,
    pub users: Seq<MyUserView>,
}

/// A member's balance after `delta` points: the exact sum where it fits, else
/// the nearest bound. A balance never goes below zero.
pub open spec fn points_after(points: u32, delta: i32) -> u32 {
    let sum = points as int + delta as int;
    if sum < 0 {
        0
    } else if sum > u32::MAX {
        u32::MAX
    } else {
        sum as u32
    }
}

/// The role message once `user` has set its text to `msg`: a first message is
/// neither posted nor active; a later one keeps where and by whom it was posted.
pub open spec fn role_message_with_text(
    cur: Option<RoleMessageView>,
    msg: Seq<char>,
    user: UserRefView,
) -> RoleMessageView {
    match cur {
        Some(m) => RoleMessageView { messagetext: msg, message_by: user, ..m },
        None => RoleMessageView {
            messagetext: msg,
            guild_message: None,
            active: false,
            message_by: user,
            posted_by: None,
        },
    }
}

/// The role message once `user` has bound it to the posted `guild_message`.
pub open spec fn role_message_posted(
    role_message: RoleMessageView,
    guild_message: MessageRef,
    state: bool,
    user: UserRefView,
) -> RoleMessageView {
    RoleMessageView {
        guild_message: Some(guild_message),
        active: state,
        posted_by: Some(user),
        ..role_message
    }
}

/// The points settings once `user` has chosen `emote`: first settings start
/// inactive with no points; later ones keep their state and total.
pub open spec fn points_with_emote(
    cur: Option<PointsDataView>,
    emote: EmoteRefView,
    user: UserRefView,
) -> PointsDataView {
    match cur {
        Some(p) => PointsDataView { guild_emote: emote, set_by: user, active: p.active, total: p.total },
        None => PointsDataView { guild_emote: emote, set_by: user, active: false, total: 0 },
    }
}

/// The record of `user` after `delta` points, given the record kept so far.
pub open spec fn user_after(cur: Option<MyUserView>, user: UserRefView, delta: i32) -> MyUserView {
    match cur {
        Some(u) => MyUserView {
            discord_id: u.discord_id,
            discord_user: user,
            grammarpoints: points_after(u.grammarpoints, delta),
        },
        None => MyUserView {
            discord_id: user.id,
            discord_user: user,
            grammarpoints: points_after(0, delta),
        },
    }
}

/// The points settings after `delta` more points were awarded in the guild.
pub open spec fn total_after(p: PointsDataView, delta: i32) -> PointsDataView {
    PointsDataView { total: points_after(p.total, delta), ..p }
}

impl Records {
    /// A partition that nothing was written to.
    pub open spec fn empty() -> Records {
        Records {
            tags: Seq::empty(),
            roles: Seq::empty(),
            role_message: None,
            points: None,
            users: Seq::empty(),
        }
    }

    /// No two tags share a name, no two roles share a role or an emote, no two
    /// members share an id, and each member's record is keyed by the member's id.
    pub open spec fn wf(self) -> bool {
        &&& forall|i: int, j: int|
            0 <= i < j < self.tags.len() ==> self.tags[i].name != self.tags[j].name
        &&& forall|i: int, j: int|
            0 <= i < j < self.roles.len() ==> self.roles[i].guild_role.id
                != self.roles[j].guild_role.id
        &&& forall|i: int, j: int|
            0 <= i < j < self.roles.len() ==> self.roles[i].emote.id != self.roles[j].emote.id
        &&& forall|i: int, j: int|
            0 <= i < j < self.users.len() ==> self.users[i].discord_id != self.users[j].discord_id
        &&& forall|i: int|
            0 <= i < self.users.len() ==> (#[trigger] self.users[i]).discord_user.id
                == self.users[i].discord_id
    }

    /// Where the tag called `name` stands, if there is one.
    pub open spec fn tag_index(self, name: Seq<char>) -> Option<int> {
        if exists|i: int| 0 <= i < self.tags.len() && self.tags[i].name == name {
            Some(choose|i: int| 0 <= i < self.tags.len() && self.tags[i].name == name)
        } else {
            None
        }
    }

    /// Where the binding of the role `role_id` stands, if there is one.
    pub open spec fn role_index(self, role_id: u64) -> Option<int> {
        if exists|i: int| 0 <= i < self.roles.len() && self.roles[i].guild_role.id == role_id {
            Some(choose|i: int| 0 <= i < self.roles.len() && self.roles[i].guild_role.id == role_id)
        } else {
            None
        }
    }

    /// Where the binding of the emote `emote_id` stands, if there is one.
    pub open spec fn emote_index(self, emote_id: u64) -> Option<int> {
        if exists|i: int| 0 <= i < self.roles.len() && self.roles[i].emote.id == emote_id {
            Some(choose|i: int| 0 <= i < self.roles.len() && self.roles[i].emote.id == emote_id)
        } else {
            None
        }
    }

    /// Where the points record of the member `id` stands, if there is one.
    pub open spec fn user_index(self, id: u64) -> Option<int> {
        if exists|i: int| 0 <= i < self.users.len() && self.users[i].discord_id == id {
            Some(choose|i: int| 0 <= i < self.users.len() && self.users[i].discord_id == id)
        } else {
            None
        }
    }

    /// The points record of the member `id`, if there is one.
    pub open spec fn user(self, id: u64) -> Option<MyUserView> {
        match self.user_index(id) {
            Some(i) => Some(self.users[i]),
            None => None,
        }
    }

    /// The points of the member `id`; a member without a record has none.
    pub open spec fn points_of(self, id: u64) -> u32 {
        match self.user(id) {
            Some(u) => u.grammarpoints,
            None => 0,
        }
    }

    /// Creating `tag`: refused while a tag of that name exists, else the tag is
    /// added at the end and handed back.
    pub open spec fn create_tag(self, tag: TagView) -> (Records, Result<TagView, DBIErrorView>) {
        match self.tag_index(tag.name) {
            Some(_) => (self, Err(DBIErrorView::TagAlreadyExists)),
            None => (Records { tags: self.tags.push(tag), ..self }, Ok(tag)),
        }
    }

    /// Looking the tag `name` up.
    pub open spec fn get_tag(self, name: Seq<char>) -> Result<TagView, DBIErrorView> {
        match self.tag_index(name) {
            Some(i) => Ok(self.tags[i]),
            None => Err(DBIErrorView::TagNotFound),
        }
    }

    /// Removing the tag `name`: the tag leaves the list and is handed back.
    pub open spec fn remove_tag(self, name: Seq<char>) -> (Records, Result<TagView, DBIErrorView>) {
        match self.tag_index(name) {
            Some(i) => (Records { tags: self.tags.remove(i), ..self }, Ok(self.tags[i])),
            None => (self, Err(DBIErrorView::TagNotFound)),
        }
    }

    /// Binding `role`: refused while its role or its emote is bound already.
    pub open spec fn add_role(self, role: UserRoleView) -> (
        Records,
        Result<UserRoleView, DBIErrorView>,
    ) {
        if self.role_index(role.guild_role.id) is Some || self.emote_index(role.emote.id) is Some {
            (self, Err(DBIErrorView::RoleAlreadyExists))
        } else {
            (Records { roles: self.roles.push(role), ..self }, Ok(role))
        }
    }

    /// Looking the binding of the role `role_id` up.
    pub open spec fn get_role(self, role_id: u64) -> Result<UserRoleView, DBIErrorView> {
        match self.role_index(role_id) {
            Some(i) => Ok(self.roles[i]),
            None => Err(DBIErrorView::RoleNotFound),
        }
    }

    /// Removing the binding of the role `role_id`.
    pub open spec fn remove_role(self, role_id: u64) -> (
        Records,
        Result<UserRoleView, DBIErrorView>,
    ) {
        match self.role_index(role_id) {
            Some(i) => (Records { roles: self.roles.remove(i), ..self }, Ok(self.roles[i])),
            None => (self, Err(DBIErrorView::RoleNotFound)),
        }
    }

    /// Removing every role binding.
    pub open spec fn remove_all_roles(self) -> Records {
        Records { roles: Seq::empty(), ..self }
    }

    /// Setting the text of the role message.
    pub open spec fn set_role_message(self, msg: Seq<char>, user: UserRefView) -> Records {
        Records {
            role_message: Some(role_message_with_text(self.role_message, msg, user)),
            ..self
        }
    }

    /// Binding the role message to a posted message: refused while no role
    /// message is kept; else the record is replaced by `role_message` with the
    /// posted message, the state and the poster.
    pub open spec fn set_active_role_message(
        self,
        role_message: RoleMessageView,
        guild_message: MessageRef,
        state: bool,
        user: UserRefView,
    ) -> (Records, Result<(), DBIErrorView>) {
        match self.role_message {
            Some(_) => (
                Records {
                    role_message: Some(
                        role_message_posted(role_message, guild_message, state, user),
                    ),
                    ..self
                },
                Ok(()),
            ),
            None => (self, Err(DBIErrorView::RoleMessageNotFound)),
        }
    }

    /// Looking the points record of the member `id` up.
    pub open spec fn get_user_data(self, id: u64) -> Result<MyUserView, DBIErrorView> {
        match self.user(id) {
            Some(u) => Ok(u),
            None => Err(DBIErrorView::UserNotFound),
        }
    }

    /// Giving `user` `delta` points: refused while the partition has no points
    /// settings. Else the member's record is created or replaced, with the
    /// member as given, and the guild total moves by the same `delta`.
    pub open spec fn change_user_points(self, user: UserRefView, delta: i32) -> (
        Records,
        Result<MyUserView, DBIErrorView>,
    ) {
        match self.points {
            None => (self, Err(DBIErrorView::PointDataNotFound)),
            Some(p) => {
                let new_user = user_after(self.user(user.id), user, delta);
                let users = match self.user_index(user.id) {
                    Some(i) => self.users.update(i, new_user),
                    None => self.users.push(new_user),
                };
                (Records { users, points: Some(total_after(p, delta)), ..self }, Ok(new_user))
            },
        }
    }

    /// Choosing the emote that awards points.
    pub open spec fn set_point_emote(self, emote: EmoteRefView, user: UserRefView) -> Records {
        Records { points: Some(points_with_emote(self.points, emote, user)), ..self }
    }
}

} // verus!
