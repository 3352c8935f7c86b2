//! The record store of the bot, partitioned by guild.
//!
//! [`Database`] keeps every partition in memory and answers as
//! [`Records`](crate::records::Records) says. The functions that only decide
//! (whether a name is free, what a points change writes) take what was read as
//! arguments, so that a caller in front of a remote store decides by the same
//! rules between its own reads and writes.

use vstd::prelude::*;
use crate::records::{
    points_after, points_with_emote, role_message_posted, role_message_with_text, total_after,
    user_after, Records,
};
use crate::text::{decimal, u64_to_string};
use crate::types::{
    opt_view, res_view, views, DBIError, EmoteRef, MessageRef, MyUser, PointsData, RoleMessage, Tag,
    UserRef, UserRole,
};

verus! {

/// How often a request is put to a store that fails to answer, before the
/// store counts as unavailable.
pub const STORE_ATTEMPTS: u32 = 3;

/// Whether a request that has failed `attempts` times is put to the store once
/// more.
pub fn retry_again(attempts: u32) -> (again: bool)
    ensures
        again == (attempts < STORE_ATTEMPTS),
{
    attempts < STORE_ATTEMPTS
}

/// `Ok` while `existing` holds nothing, else the error `taken`.
pub fn vacant<T>(existing: &Option<T>, taken: DBIError) -> (result: Result<(), DBIError>)
    ensures
        existing is Some ==> result == Err::<(), DBIError>(taken),
        existing is None ==> result is Ok,
{
    match existing {
        Some(_) => Err(taken),
        None => Ok(()),
    }
}

/// The record that `existing` holds, else the error `missing`.
pub fn found<T>(existing: Option<T>, missing: DBIError) -> (result: Result<T, DBIError>)
    ensures
        result == (match existing {
            Some(t) => Ok::<T, DBIError>(t),
            None => Err::<T, DBIError>(missing),
        }),
{
    match existing {
        Some(t) => Ok(t),
        None => Err(missing),
    }
}

/// A balance after `delta` points, kept within zero and the largest balance.
pub fn add_points(points: u32, delta: i32) -> (result: u32)
    ensures
        result == points_after(points, delta),
{
    let sum: i64 = points as i64 + delta as i64;
    if sum < 0 {
        0
    } else if sum > u32::MAX as i64 {
        u32::MAX
    } else {
        sum as u32
    }
}

/// The role message to write when `user` sets its text to `msg`, given the one
/// kept so far.
pub fn role_message_text(cur: Option<RoleMessage>, msg: String, user: &UserRef) -> (result:
    RoleMessage)
    ensures
        result@ == role_message_with_text(opt_view(cur), msg@, user@),
{
    match cur {
        Some(m) => RoleMessage {
            messagetext: msg,
            guild_message: m.guild_message,
            active: m.active,
            message_by: user.clone(),
            posted_by: m.posted_by,
        },
        None => RoleMessage {
            messagetext: msg,
            guild_message: None,
            active: false,
            message_by: user.clone(),
            posted_by: None,
        },
    }
}

/// The role message to write when `user` has posted it as `guild_message`.
pub fn role_message_binding(
    role_message: &RoleMessage,
    guild_message: MessageRef,
    state: bool,
    user: &UserRef,
) -> (result: RoleMessage)
    ensures
        result@ == role_message_posted(role_message@, guild_message, state, user@),
{
    RoleMessage {
        messagetext: role_message.messagetext.clone(),
        guild_message: Some(guild_message),
        active: state,
        message_by: role_message.message_by.clone(),
        posted_by: Some(user.clone()),
    }
}

/// The points settings to write when `user` chooses `point_emote`, given the
/// settings kept so far.
pub fn point_emote_setting(
    cur: Option<PointsData>,
    point_emote: &EmoteRef,
    user: &UserRef,
) -> (result: PointsData)
    ensures
        result@ == points_with_emote(opt_view(cur), point_emote@, user@),
{
    match cur {
        Some(p) => PointsData {
            guild_emote: point_emote.clone(),
            set_by: user.clone(),
            active: p.active,
            total: p.total,
        },
        None => PointsData {
            guild_emote: point_emote.clone(),
            set_by: user.clone(),
            active: false,
            total: 0,
        },
    }
}

/// What a points change writes, given the member's record and the points
/// settings as read: the member's new record and the new settings. Without
/// settings nothing is written.
pub fn points_change(
    cur_user: Option<MyUser>,
    cur_points: Option<PointsData>,
    user: UserRef,
    delta: i32,
) -> (result: Result<(MyUser, PointsData), DBIError>)
    ensures
        cur_points is None ==> result == Err::<(MyUser, PointsData), DBIError>(
            DBIError::PointDataNotFound,
        ),
        cur_points is Some ==> (result matches Ok(written) && written.0@ == user_after(
            opt_view(cur_user),
            user@,
            delta,
        ) && written.1@ == total_after(cur_points->0@, delta)),
{
    match cur_points {
        None => Err(DBIError::PointDataNotFound),
        Some(p) => {
            let new_points = PointsData {
                guild_emote: p.guild_emote,
                set_by: p.set_by,
                active: p.active,
                total: add_points(p.total, delta),
            };
            let new_user = match cur_user {
                Some(u) => MyUser {
                    discord_id: u.discord_id,
                    discord_user: user,
                    grammarpoints: add_points(u.grammarpoints, delta),
                },
                None => MyUser {
                    discord_id: user.id,
                    discord_user: user,
                    grammarpoints: add_points(0, delta),
                },
            };
            Ok((new_user, new_points))
        },
    }
}

/// Whether `role` may be bound beside `roles`: neither its role nor its emote
/// may be bound among them.
pub fn role_binding_free(roles: &Vec<UserRole>, role: &UserRole) -> (result: Result<(), DBIError>)
    ensures
        result is Ok <==> forall|i: int|
            0 <= i < roles.len() ==> (#[trigger] roles[i]).guild_role.id != role.guild_role.id
                && roles[i].emote.id != role.emote.id,
        result is Err ==> result == Err::<(), DBIError>(DBIError::RoleAlreadyExists),
{
    let mut i: usize = 0;
    while i < roles.len()
        invariant
            i <= roles.len(),
            forall|j: int|
                0 <= j < i ==> (#[trigger] roles[j]).guild_role.id != role.guild_role.id
                    && roles[j].emote.id != role.emote.id,
        decreases roles.len() - i,
    {
        if roles[i].guild_role.id == role.guild_role.id || roles[i].emote.id == role.emote.id {
            return Err(DBIError::RoleAlreadyExists);
        }
        i += 1;
    }
    Ok(())
}

/// The records of one guild, or of no guild, as the store keeps them.
struct Partition {
    guild: Option<u64>,
    tags: Vec<Tag>,
    roles: Vec<UserRole>,
    role_message: Option<RoleMessage>,
    points: Option<PointsData>,
    users: Vec<MyUser>,
}

impl View for Partition {
    type V = Records;

    closed spec fn view(&self) -> Records {
        Records {
            tags: views(self.tags@),
            roles: views(self.roles@),
            role_message: opt_view(self.role_message),
            points: opt_view(self.points),
            users: views(self.users@),
        }
    }
}

/// Where the tag called `name` stands in `tags`.
fn find_tag(tags: &Vec<Tag>, name: &String) -> (result: Option<usize>)
    ensures
        match result {
            Some(i) => i < tags.len() && tags[i as int].name@ == name@,
            None => forall|j: int| 0 <= j < tags.len() ==> (#[trigger] tags[j]).name@ != name@,
        },
{
    let mut i: usize = 0;
    while i < tags.len()
        invariant
            i <= tags.len(),
            forall|j: int| 0 <= j < i ==> (#[trigger] tags[j]).name@ != name@,
        decreases tags.len() - i,
    {
        if tags[i].name == *name {
            return Some(i);
        }
        i += 1;
    }
    None
}

/// Where the binding of the role `role_id` stands in `roles`.
fn find_role(roles: &Vec<UserRole>, role_id: u64) -> (result: Option<usize>)
    ensures
        match result {
            Some(i) => i < roles.len() && roles[i as int].guild_role.id == role_id,
            None => forall|j: int|
                0 <= j < roles.len() ==> (#[trigger] roles[j]).guild_role.id != role_id,
        },
{
    let mut i: usize = 0;
    while i < roles.len()
        invariant
            i <= roles.len(),
            forall|j: int| 0 <= j < i ==> (#[trigger] roles[j]).guild_role.id != role_id,
        decreases roles.len() - i,
    {
        if roles[i].guild_role.id == role_id {
            return Some(i);
        }
        i += 1;
    }
    None
}

/// Where the points record of the member `id` stands in `users`.
fn find_user(users: &Vec<MyUser>, id: u64) -> (result: Option<usize>)
    ensures
        match result {
            Some(i) => i < users.len() && users[i as int].discord_id == id,
            None => forall|j: int| 0 <= j < users.len() ==> (#[trigger] users[j]).discord_id != id,
        },
{
    let mut i: usize = 0;
    while i < users.len()
        invariant
            i <= users.len(),
            forall|j: int| 0 <= j < i ==> (#[trigger] users[j]).discord_id != id,
        decreases users.len() - i,
    {
        if users[i].discord_id == id {
            return Some(i);
        }
        i += 1;
    }
    None
}

/// A copy of `tags`, record by record.
fn copy_tags(tags: &Vec<Tag>) -> (result: Vec<Tag>)
    ensures
        views(result@) == views(tags@),
{
    let mut out: Vec<Tag> = Vec::new();
    let mut i: usize = 0;
    while i < tags.len()
        invariant
            i <= tags.len(),
            out.len() == i,
            forall|j: int| 0 <= j < i ==> (#[trigger] out[j])@ == tags[j]@,
        decreases tags.len() - i,
    {
        out.push(tags[i].clone());
        i += 1;
    }
    assert(views(out@) =~= views(tags@));
    out
}

/// A copy of `roles`, record by record.
fn copy_roles(roles: &Vec<UserRole>) -> (result: Vec<UserRole>)
    ensures
        views(result@) == views(roles@),
{
    let mut out: Vec<UserRole> = Vec::new();
    let mut i: usize = 0;
    while i < roles.len()
        invariant
            i <= roles.len(),
            out.len() == i,
            forall|j: int| 0 <= j < i ==> (#[trigger] out[j])@ == roles[j]@,
        decreases roles.len() - i,
    {
        out.push(roles[i].clone());
        i += 1;
    }
    assert(views(out@) =~= views(roles@));
    out
}

/// A copy of `users`, record by record.
fn copy_users(users: &Vec<MyUser>) -> (result: Vec<MyUser>)
    ensures
        views(result@) == views(users@),
{
    let mut out: Vec<MyUser> = Vec::new();
    let mut i: usize = 0;
    while i < users.len()
        invariant
            i <= users.len(),
            out.len() == i,
            forall|j: int| 0 <= j < i ==> (#[trigger] out[j])@ == users[j]@,
        decreases users.len() - i,
    {
        out.push(users[i].clone());
        i += 1;
    }
    assert(views(out@) =~= views(users@));
    out
}

impl Partition {
    fn new(guild: Option<u64>) -> (result: Partition)
        ensures
            result.guild == guild,
            result@ == Records::empty(),
    {
        let result = Partition {
            guild,
            tags: Vec::new(),
            roles: Vec::new(),
            role_message: None,
            points: None,
            users: Vec::new(),
        };
        assert(result@.tags =~= Seq::empty());
        assert(result@.roles =~= Seq::empty());
        assert(result@.users =~= Seq::empty());
        result
    }

    proof fn lemma_tag_index(self, name: Seq<char>, i: int)
        requires
            self@.wf(),
            0 <= i < self.tags.len(),
            self.tags[i].name@ == name,
        ensures
            self@.tag_index(name) == Some(i),
    {
        assert(self@.tags[i].name == name);
    }

    proof fn lemma_role_index(self, role_id: u64, i: int)
        requires
            self@.wf(),
            0 <= i < self.roles.len(),
            self.roles[i].guild_role.id == role_id,
        ensures
            self@.role_index(role_id) == Some(i),
    {
        assert(self@.roles[i].guild_role.id == role_id);
    }

    proof fn lemma_user_index(self, id: u64, i: int)
        requires
            self@.wf(),
            0 <= i < self.users.len(),
            self.users[i].discord_id == id,
        ensures
            self@.user_index(id) == Some(i),
    {
        assert(self@.users[i].discord_id == id);
    }

    /// The tag called `name`, if there is one.
    fn select_tag(&self, name: &String) -> (result: Option<Tag>)
        requires
            self@.wf(),
        ensures
            opt_view(result) == (match self@.tag_index(name@) {
                Some(i) => Some(self@.tags[i]),
                None => None,
            }),
    {
        match find_tag(&self.tags, name) {
            Some(i) => {
                proof {
                    self.lemma_tag_index(name@, i as int);
                }
                Some(self.tags[i].clone())
            },
            None => {
                proof {
                    assert forall|j: int| 0 <= j < self@.tags.len() implies self@.tags[j].name
                        != name@ by {
                        assert(self.tags[j].name@ != name@);
                    }
                }
                None
            },
        }
    }

    /// Takes the tag called `name` out, if there is one.
    fn delete_tag(&mut self, name: &String) -> (result: Option<Tag>)
        requires
            old(self)@.wf(),
        ensures
            final(self).guild == old(self).guild,
            final(self)@ == old(self)@.remove_tag(name@).0,
            opt_view(result) == (match old(self)@.tag_index(name@) {
                Some(i) => Some(old(self)@.tags[i]),
                None => None,
            }),
    {
        match find_tag(&self.tags, name) {
            Some(i) => {
                proof {
                    self.lemma_tag_index(name@, i as int);
                }
                let removed = self.tags.remove(i);
                proof {
                    assert(self@.tags =~= old(self)@.tags.remove(i as int));
                }
                Some(removed)
            },
            None => {
                proof {
                    assert forall|j: int| 0 <= j < self@.tags.len() implies self@.tags[j].name
                        != name@ by {
                        assert(self.tags[j].name@ != name@);
                    }
                }
                None
            },
        }
    }

    fn create_tag(&mut self, tag: Tag) -> (result: Result<Tag, DBIError>)
        requires
            old(self)@.wf(),
        ensures
            final(self)@.wf(),
            final(self).guild == old(self).guild,
            final(self)@ == old(self)@.create_tag(tag@).0,
            res_view(result) == old(self)@.create_tag(tag@).1,
    {
        let existing = self.select_tag(&tag.name);
        match vacant(&existing, DBIError::TagAlreadyExists) {
            Err(e) => Err(e),
            Ok(_) => {
                let created = tag.clone();
                self.tags.push(tag);
                proof {
                    assert forall|j: int| 0 <= j < old(self)@.tags.len() implies old(
                        self,
                    )@.tags[j].name != tag@.name by {
                        if old(self)@.tags[j].name == tag@.name {
                            assert(old(self)@.tag_index(tag@.name) is Some);
                        }
                    }
                    assert(self@.tags =~= old(self)@.tags.push(tag@));
                }
                Ok(created)
            },
        }
    }

    fn get_tag(&self, name: &String) -> (result: Result<Tag, DBIError>)
        requires
            self@.wf(),
        ensures
            res_view(result) == self@.get_tag(name@),
    {
        found(self.select_tag(name), DBIError::TagNotFound)
    }

    fn remove_tag(&mut self, name: &String) -> (result: Result<Tag, DBIError>)
        requires
            old(self)@.wf(),
        ensures
            final(self)@.wf(),
            final(self).guild == old(self).guild,
            final(self)@ == old(self)@.remove_tag(name@).0,
            res_view(result) == old(self)@.remove_tag(name@).1,
    {
        found(self.delete_tag(name), DBIError::TagNotFound)
    }

    fn get_all_tags(&self) -> (result: Vec<Tag>)
        ensures
            views(result@) == self@.tags,
    {
        copy_tags(&self.tags)
    }

    fn get_all_roles(&self) -> (result: Vec<UserRole>)
        ensures
            views(result@) == self@.roles,
    {
        copy_roles(&self.roles)
    }

    fn add_role(&mut self, role: UserRole) -> (result: Result<UserRole, DBIError>)
        requires
            old(self)@.wf(),
        ensures
            final(self)@.wf(),
            final(self).guild == old(self).guild,
            final(self)@ == old(self)@.add_role(role@).0,
            res_view(result) == old(self)@.add_role(role@).1,
    {
        match role_binding_free(&self.roles, &role) {
            Err(e) => {
                proof {
                    let i = choose|i: int|
                        0 <= i < self.roles.len() && !((#[trigger] self.roles[i]).guild_role.id
                            != role.guild_role.id && self.roles[i].emote.id != role.emote.id);
                    assert(self@.roles[i].guild_role.id == role@.guild_role.id
                        || self@.roles[i].emote.id == role@.emote.id);
                }
                Err(e)
            },
            Ok(_) => {
                let created = role.clone();
                self.roles.push(role);
                proof {
                    let before = old(self)@.roles;
                    assert forall|j: int| 0 <= j < before.len() implies before[j].guild_role.id
                        != role@.guild_role.id && before[j].emote.id != role@.emote.id by {
                        assert(old(self).roles[j].guild_role.id != role.guild_role.id);
                    }
                    assert(self@.roles =~= old(self)@.roles.push(role@));
                }
                Ok(created)
            },
        }
    }

    /// The binding of the role `role_id`, if there is one.
    fn select_role(&self, role_id: u64) -> (result: Option<UserRole>)
        requires
            self@.wf(),
        ensures
            opt_view(result) == (match self@.role_index(role_id) {
                Some(i) => Some(self@.roles[i]),
                None => None,
            }),
    {
        match find_role(&self.roles, role_id) {
            Some(i) => {
                proof {
                    self.lemma_role_index(role_id, i as int);
                }
                Some(self.roles[i].clone())
            },
            None => {
                proof {
                    assert forall|j: int| 0 <= j < self@.roles.len() implies self@.roles[j].guild_role.id
                        != role_id by {
                        assert(self.roles[j].guild_role.id != role_id);
                    }
                }
                None
            },
        }
    }

    /// Takes the binding of the role `role_id` out, if there is one.
    fn delete_role(&mut self, role_id: u64) -> (result: Option<UserRole>)
        requires
            old(self)@.wf(),
        ensures
            final(self).guild == old(self).guild,
            final(self)@ == old(self)@.remove_role(role_id).0,
            opt_view(result) == (match old(self)@.role_index(role_id) {
                Some(i) => Some(old(self)@.roles[i]),
                None => None,
            }),
    {
        match find_role(&self.roles, role_id) {
            Some(i) => {
                proof {
                    self.lemma_role_index(role_id, i as int);
                }
                let removed = self.roles.remove(i);
                proof {
                    assert(self@.roles =~= old(self)@.roles.remove(i as int));
                }
                Some(removed)
            },
            None => {
                proof {
                    assert forall|j: int| 0 <= j < self@.roles.len() implies self@.roles[j].guild_role.id
                        != role_id by {
                        assert(self.roles[j].guild_role.id != role_id);
                    }
                }
                None
            },
        }
    }

    fn get_role(&self, role_id: u64) -> (result: Result<UserRole, DBIError>)
        requires
            self@.wf(),
        ensures
            res_view(result) == self@.get_role(role_id),
    {
        found(self.select_role(role_id), DBIError::RoleNotFound)
    }

    fn remove_role(&mut self, role_id: u64) -> (result: Result<UserRole, DBIError>)
        requires
            old(self)@.wf(),
        ensures
            final(self)@.wf(),
            final(self).guild == old(self).guild,
            final(self)@ == old(self)@.remove_role(role_id).0,
            res_view(result) == old(self)@.remove_role(role_id).1,
    {
        found(self.delete_role(role_id), DBIError::RoleNotFound)
    }

    fn remove_all_roles(&mut self) -> (result: Vec<UserRole>)
        requires
            old(self)@.wf(),
        ensures
            final(self)@.wf(),
            final(self).guild == old(self).guild,
            final(self)@ == old(self)@.remove_all_roles(),
            views(result@) == old(self)@.roles,
    {
        let mut removed: Vec<UserRole> = Vec::new();
        std::mem::swap(&mut self.roles, &mut removed);
        proof {
            assert(self@.roles =~= Seq::empty());
        }
        removed
    }

    fn get_role_message(&self) -> (result: Option<RoleMessage>)
        ensures
            opt_view(result) == self@.role_message,
    {
        match &self.role_message {
            Some(m) => Some(m.clone()),
            None => None,
        }
    }

    fn set_role_message(&mut self, msg: String, user: &UserRef)
        requires
            old(self)@.wf(),
        ensures
            final(self)@.wf(),
            final(self).guild == old(self).guild,
            final(self)@ == old(self)@.set_role_message(msg@, user@),
    {
        let mut cur: Option<RoleMessage> = None;
        std::mem::swap(&mut self.role_message, &mut cur);
        self.role_message = Some(role_message_text(cur, msg, user));
    }

    fn set_active_role_message(
        &mut self,
        role_message: &RoleMessage,
        guild_message: MessageRef,
        state: bool,
        user: &UserRef,
    ) -> (result: Result<(), DBIError>)
        requires
            old(self)@.wf(),
        ensures
            final(self)@.wf(),
            final(self).guild == old(self).guild,
            final(self)@ == old(self)@.set_active_role_message(
                role_message@,
                guild_message,
                state,
                user@,
            ).0,
            res_view(result) == old(self)@.set_active_role_message(
                role_message@,
                guild_message,
                state,
                user@,
            ).1,
    {
        if self.role_message.is_none() {
            return Err(DBIError::RoleMessageNotFound);
        }
        self.role_message = Some(role_message_binding(role_message, guild_message, state, user));
        Ok(())
    }

    fn get_all_user_data(&self) -> (result: Vec<MyUser>)
        ensures
            views(result@) == self@.users,
    {
        copy_users(&self.users)
    }

    /// The points record of the member `user_id`, if there is one.
    fn select_user(&self, user_id: u64) -> (result: Option<MyUser>)
        requires
            self@.wf(),
        ensures
            opt_view(result) == self@.user(user_id),
    {
        match find_user(&self.users, user_id) {
            Some(i) => {
                proof {
                    self.lemma_user_index(user_id, i as int);
                }
                Some(self.users[i].clone())
            },
            None => {
                proof {
                    assert forall|j: int| 0 <= j < self@.users.len() implies self@.users[j].discord_id
                        != user_id by {
                        assert(self.users[j].discord_id != user_id);
                    }
                }
                None
            },
        }
    }

    fn get_user_data(&self, user_id: u64) -> (result: Result<MyUser, DBIError>)
        requires
            self@.wf(),
        ensures
            res_view(result) == self@.get_user_data(user_id),
    {
        found(self.select_user(user_id), DBIError::UserNotFound)
    }

    fn get_point_data(&self) -> (result: Option<PointsData>)
        ensures
            opt_view(result) == self@.points,
    {
        match &self.points {
            Some(p) => Some(p.clone()),
            None => None,
        }
    }

    fn change_user_points(&mut self, user: UserRef, delta: i32) -> (result: Result<
        MyUser,
        DBIError,
    >)
        requires
            old(self)@.wf(),
        ensures
            final(self)@.wf(),
            final(self).guild == old(self).guild,
            final(self)@ == old(self)@.change_user_points(user@, delta).0,
            res_view(result) == old(self)@.change_user_points(user@, delta).1,
    {
        let place = find_user(&self.users, user.id);
        let cur_user = match place {
            Some(i) => {
                proof {
                    self.lemma_user_index(user.id, i as int);
                }
                Some(self.users[i].clone())
            },
            None => {
                proof {
                    assert forall|j: int| 0 <= j < self@.users.len() implies self@.users[j].discord_id
                        != user.id by {
                        assert(self.users[j].discord_id != user.id);
                    }
                }
                None
            },
        };
        let mut cur_points: Option<PointsData> = None;
        std::mem::swap(&mut self.points, &mut cur_points);
        if cur_points.is_none() {
            return Err(DBIError::PointDataNotFound);
        }
        match points_change(cur_user, cur_points, user, delta) {
            Err(e) => Err(e),
            Ok((new_user, new_points)) => {
                let written = new_user.clone();
                match place {
                    Some(i) => {
                        self.users.set(i, new_user);
                        proof {
                            assert(self@.users =~= old(self)@.users.update(i as int, written@));
                        }
                    },
                    None => {
                        self.users.push(new_user);
                        proof {
                            assert(self@.users =~= old(self)@.users.push(written@));
                        }
                    },
                }
                self.points = Some(new_points);
                Ok(written)
            },
        }
    }

    fn set_point_emote(&mut self, point_emote: &EmoteRef, user: &UserRef)
        requires
            old(self)@.wf(),
        ensures
            final(self)@.wf(),
            final(self).guild == old(self).guild,
            final(self)@ == old(self)@.set_point_emote(point_emote@, user@),
    {
        let mut cur: Option<PointsData> = None;
        std::mem::swap(&mut self.points, &mut cur);
        self.points = Some(point_emote_setting(cur, point_emote, user));
    }
}

/// Where the partition of `guild` stands among `ps`.
spec fn partition_index(ps: Seq<Partition>, guild: Option<u64>) -> Option<int> {
    if exists|i: int| 0 <= i < ps.len() && ps[i].guild == guild {
        Some(choose|i: int| 0 <= i < ps.len() && ps[i].guild == guild)
    } else {
        None
    }
}

/// What `ps` holds for `guild`: nothing, where it has no partition for it.
spec fn records_in(ps: Seq<Partition>, guild: Option<u64>) -> Records {
    match partition_index(ps, guild) {
        Some(i) => ps[i]@,
        None => Records::empty(),
    }
}

/// No two partitions are for the same guild, and each is well formed.
spec fn partitions_wf(ps: Seq<Partition>) -> bool {
    &&& forall|i: int, j: int| 0 <= i < j < ps.len() ==> ps[i].guild != ps[j].guild
    &&& forall|i: int| 0 <= i < ps.len() ==> (#[trigger] ps[i])@.wf()
}

proof fn lemma_records_at(ps: Seq<Partition>, i: int)
    requires
        partitions_wf(ps),
        0 <= i < ps.len(),
    ensures
        records_in(ps, ps[i].guild) == ps[i]@,
{
    assert(ps[i].guild == ps[i].guild);
}

proof fn lemma_partition_added(ps: Seq<Partition>, p: Partition)
    requires
        partitions_wf(ps),
        forall|j: int| 0 <= j < ps.len() ==> (#[trigger] ps[j]).guild != p.guild,
        p@.wf(),
    ensures
        partitions_wf(ps.push(p)),
        forall|g: Option<u64>|
            records_in(ps.push(p), g) == if g == p.guild {
                p@
            } else {
                records_in(ps, g)
            },
{
    let qs = ps.push(p);
    assert forall|g: Option<u64>|
        records_in(qs, g) == if g == p.guild {
            p@
        } else {
            records_in(ps, g)
        } by {
        if g == p.guild {
            assert(qs[ps.len() as int].guild == g);
            lemma_records_at(qs, ps.len() as int);
        } else {
            match partition_index(ps, g) {
                Some(i) => {
                    assert(qs[i].guild == g);
                    lemma_records_at(qs, i);
                },
                None => {
                    if partition_index(qs, g) is Some {
                        let k = partition_index(qs, g)->0;
                        assert(ps[k].guild == g);
                    }
                },
            }
        }
    }
}

proof fn lemma_partition_replaced(ps: Seq<Partition>, i: int)
    requires
        partitions_wf(ps),
        0 <= i < ps.len(),
    ensures
        forall|p: Partition|
            p.guild == ps[i].guild && p@.wf() ==> partitions_wf(#[trigger] ps.update(i, p))
                && forall|g: Option<u64>|
                records_in(ps.update(i, p), g) == if g == p.guild {
                    p@
                } else {
                    records_in(ps, g)
                },
{
    assert forall|p: Partition| p.guild == ps[i].guild && p@.wf() implies partitions_wf(
        #[trigger] ps.update(i, p),
    ) && forall|g: Option<u64>|
        records_in(ps.update(i, p), g) == if g == p.guild {
            p@
        } else {
            records_in(ps, g)
        } by {
        let qs = ps.update(i, p);
        assert forall|a: int, b: int| 0 <= a < b < qs.len() implies qs[a].guild != qs[b].guild by {
            assert(qs[a].guild == ps[a].guild);
            assert(qs[b].guild == ps[b].guild);
        }
        assert forall|g: Option<u64>|
            records_in(qs, g) == if g == p.guild {
                p@
            } else {
                records_in(ps, g)
            } by {
            if g == p.guild {
                assert(qs[i].guild == g);
                lemma_records_at(qs, i);
            } else {
                match partition_index(ps, g) {
                    Some(k) => {
                        assert(qs[k].guild == g);
                        lemma_records_at(qs, k);
                    },
                    None => {
                        if partition_index(qs, g) is Some {
                            let k = partition_index(qs, g)->0;
                            assert(ps[k].guild == g);
                        }
                    },
                }
            }
        }
    }
}

/// The record store: for each guild, and for no guild, one partition of records.
///
/// A partition that nothing was written to holds nothing.
pub struct Database {
    partitions: Vec<Partition>,
}

impl View for Database {
    type V = Map<Option<u64>, Records>;

    /// The records of every partition; the key `None` is the partition of no guild.
    open spec fn view(&self) -> Map<Option<u64>, Records> {
        Map::total(|guild: Option<u64>| self.records(guild))
    }
}

impl Database {
    /// What the partition of `guild` holds.
    pub closed spec fn records(&self, guild: Option<u64>) -> Records {
        records_in(self.partitions@, guild)
    }

    /// Every partition is well formed.
    pub closed spec fn wf(&self) -> bool {
        partitions_wf(self.partitions@)
    }

    /// In a well-formed store every partition is well formed.
    pub proof fn lemma_partitions_wf(&self, guild: Option<u64>)
        requires
            self.wf(),
        ensures
            self@[guild].wf(),
    {
    }

    /// The partition of `guild`, where one was written to.
    fn peek(&self, guild: Option<u64>) -> (result: Option<&Partition>)
        requires
            self.wf(),
        ensures
            match result {
                Some(p) => p@ == self@[guild] && p@.wf(),
                None => self@[guild] == Records::empty(),
            },
    {
        let mut i: usize = 0;
        while i < self.partitions.len()
            invariant
                self.wf(),
                i <= self.partitions.len(),
                forall|j: int| 0 <= j < i ==> (#[trigger] self.partitions[j]).guild != guild,
            decreases self.partitions.len() - i,
        {
            if same_guild(self.partitions[i].guild, guild) {
                proof {
                    lemma_records_at(self.partitions@, i as int);
                }
                return Some(&self.partitions[i]);
            }
            i += 1;
        }
        None
    }

    /// The partition of `guild` for writing; an empty one is opened where none was
    /// written to before.
    fn partition(&mut self, guild: Option<u64>) -> (result: &mut Partition)
        requires
            old(self).wf(),
        ensures
            result.guild == guild,
            result@ == old(self)@[guild],
            result@.wf(),
            final(result).guild == guild && final(result)@.wf() ==> final(self).wf()
                && final(self)@ == old(self)@.insert(guild, final(result)@),
    {
        let mut i: usize = 0;
        while i < self.partitions.len()
            invariant
                i <= self.partitions.len(),
                forall|j: int| 0 <= j < i ==> (#[trigger] self.partitions[j]).guild != guild,
            ensures
                i <= self.partitions.len(),
                i < self.partitions.len() ==> self.partitions[i as int].guild == guild,
                i == self.partitions.len() ==> forall|j: int|
                    0 <= j < i ==> (#[trigger] self.partitions[j]).guild != guild,
            decreases self.partitions.len() - i,
        {
            if same_guild(self.partitions[i].guild, guild) {
                break ;
            }
            i += 1;
        }
        if i == self.partitions.len() {
            let opened = Partition::new(guild);
            proof {
                lemma_partition_added(self.partitions@, opened);
            }
            self.partitions.push(opened);
        }
        let ghost before = self.partitions@;
        proof {
            lemma_records_at(before, i as int);
            lemma_partition_replaced(before, i as int);
            assert(self@ =~= old(self)@);
        }
        &mut self.partitions[i]
    }
}

/// Whether two partition keys name the same partition.
fn same_guild(a: Option<u64>, b: Option<u64>) -> (result: bool)
    ensures
        result == (a == b),
{
    match (a, b) {
        (Some(x), Some(y)) => x == y,
        (None, None) => true,
        _ => false,
    }
}

/// The name of the partition of `guildid`: the id of the guild in decimal, and
/// `global` for no guild.
pub open spec fn partition_name_of(guildid: Option<u64>) -> Seq<char> {
    match guildid {
        Some(id) => decimal(id as nat),
        None => "global"@,
    }
}

/// The name of the partition of `guildid`.
pub fn partition_name(guildid: &Option<u64>) -> (name: String)
    ensures
        name@ == partition_name_of(*guildid),
{
    match guildid {
        Some(id) => u64_to_string(*id),
        None => String::from_str("global"),
    }
}

/// Opens a store in which every partition is empty.
pub fn initiate_db() -> (db: Database)
    ensures
        db.wf(),
        forall|guild: Option<u64>| db@[guild] == Records::empty(),
{
    Database { partitions: Vec::new() }
}

/// Creates `tag` in the partition of `guildid`. A name that is in use there is
/// refused with `TagAlreadyExists` and nothing changes.
pub fn create_tag(db: &mut Database, tag: Tag, guildid: Option<u64>) -> (result: Result<
    Tag,
    DBIError,
>)
    requires
        old(db).wf(),
    ensures
        final(db).wf(),
        final(db)@ == old(db)@.insert(guildid, old(db)@[guildid].create_tag(tag@).0),
        res_view(result) == old(db)@[guildid].create_tag(tag@).1,
{
    db.partition(guildid).create_tag(tag)
}

/// The tag called `tagname` in the partition of `guildid`, or `TagNotFound`.
pub fn get_tag(db: &Database, tagname: &str, guildid: Option<u64>) -> (result: Result<
    Tag,
    DBIError,
>)
    requires
        db.wf(),
    ensures
        res_view(result) == db@[guildid].get_tag(tagname@),
{
    let name = String::from_str(tagname);
    match db.peek(guildid) {
        Some(p) => p.get_tag(&name),
        None => Err(DBIError::TagNotFound),
    }
}

/// Every tag of the partition of `guildid`, oldest first.
pub fn get_all_tags(db: &Database, guildid: Option<u64>) -> (result: Result<Vec<Tag>, DBIError>)
    requires
        db.wf(),
    ensures
        result matches Ok(tags) && views(tags@) == db@[guildid].tags,
{
    match db.peek(guildid) {
        Some(p) => Ok(p.get_all_tags()),
        None => {
            let tags: Vec<Tag> = Vec::new();
            assert(views(tags@) =~= db@[guildid].tags);
            Ok(tags)
        },
    }
}

/// Removes the tag called `tagname` from the partition of `guildid` and hands
/// it back, or answers `TagNotFound` and changes nothing.
pub fn remove_tag(db: &mut Database, tagname: &str, guildid: Option<u64>) -> (result: Result<
    Tag,
    DBIError,
>)
    requires
        old(db).wf(),
    ensures
        final(db).wf(),
        final(db)@ == old(db)@.insert(guildid, old(db)@[guildid].remove_tag(tagname@).0),
        res_view(result) == old(db)@[guildid].remove_tag(tagname@).1,
{
    let name = String::from_str(tagname);
    db.partition(guildid).remove_tag(&name)
}

/// Every self-assignable role of the partition of `guildid`, oldest first.
pub fn get_all_roles(db: &Database, guildid: Option<u64>) -> (result: Result<
    Vec<UserRole>,
    DBIError,
>)
    requires
        db.wf(),
    ensures
        result matches Ok(roles) && views(roles@) == db@[guildid].roles,
{
    match db.peek(guildid) {
        Some(p) => Ok(p.get_all_roles()),
        None => {
            let roles: Vec<UserRole> = Vec::new();
            assert(views(roles@) =~= db@[guildid].roles);
            Ok(roles)
        },
    }
}

/// Makes `role` self-assignable in the partition of `guildid`. A role or an
/// emote that is bound there already is refused with `RoleAlreadyExists`.
pub fn add_role(db: &mut Database, role: UserRole, guildid: Option<u64>) -> (result: Result<
    UserRole,
    DBIError,
>)
    requires
        old(db).wf(),
    ensures
        final(db).wf(),
        final(db)@ == old(db)@.insert(guildid, old(db)@[guildid].add_role(role@).0),
        res_view(result) == old(db)@[guildid].add_role(role@).1,
{
    db.partition(guildid).add_role(role)
}

/// The binding of the role `role_id` in the partition of `guildid`, or
/// `RoleNotFound`.
pub fn get_role(db: &Database, role_id: u64, guildid: Option<u64>) -> (result: Result<
    UserRole,
    DBIError,
>)
    requires
        db.wf(),
    ensures
        res_view(result) == db@[guildid].get_role(role_id),
{
    match db.peek(guildid) {
        Some(p) => p.get_role(role_id),
        None => Err(DBIError::RoleNotFound),
    }
}

/// Removes the binding of the role of `role` from the partition of `guildid`
/// and hands the stored binding back, or answers `RoleNotFound`.
pub fn remove_role(db: &mut Database, role: UserRole, guildid: Option<u64>) -> (result: Result<
    UserRole,
    DBIError,
>)
    requires
        old(db).wf(),
    ensures
        final(db).wf(),
        final(db)@ == old(db)@.insert(
            guildid,
            old(db)@[guildid].remove_role(role.guild_role.id).0,
        ),
        res_view(result) == old(db)@[guildid].remove_role(role.guild_role.id).1,
{
    db.partition(guildid).remove_role(role.guild_role.id)
}

/// Removes every role binding of the partition of `guildid` and hands them
/// back, oldest first.
pub fn remove_all_roles(db: &mut Database, guildid: Option<u64>) -> (result: Result<
    Vec<UserRole>,
    DBIError,
>)
    requires
        old(db).wf(),
    ensures
        final(db).wf(),
        final(db)@ == old(db)@.insert(guildid, old(db)@[guildid].remove_all_roles()),
        result matches Ok(roles) && views(roles@) == old(db)@[guildid].roles,
{
    Ok(db.partition(guildid).remove_all_roles())
}

/// The role message of the partition of `guildid`, if one was set.
pub fn get_role_message(db: &Database, guildid: Option<u64>) -> (result: Result<
    Option<RoleMessage>,
    DBIError,
>)
    requires
        db.wf(),
    ensures
        result matches Ok(message) && opt_view(message) == db@[guildid].role_message,
{
    match db.peek(guildid) {
        Some(p) => Ok(p.get_role_message()),
        None => Ok(None),
    }
}

/// Sets the text of the role message of the partition of `guildid`. A first
/// message is neither posted nor active; a later one keeps where it was posted.
pub fn set_role_message(
    db: &mut Database,
    msg: String,
    user: &UserRef,
    guildid: Option<u64>,
) -> (result: Result<(), DBIError>)
    requires
        old(db).wf(),
    ensures
        final(db).wf(),
        final(db)@ == old(db)@.insert(guildid, old(db)@[guildid].set_role_message(msg@, user@)),
        result is Ok,
{
    db.partition(guildid).set_role_message(msg, user);
    Ok(())
}

/// Binds the role message of the partition of `guildid` to the posted
/// `guild_message`: the record becomes `role_message` with that message, the
/// state and the poster. Without a role message in the partition the answer is
/// `RoleMessageNotFound` and nothing changes.
pub fn set_active_role_message(
    db: &mut Database,
    role_message: &RoleMessage,
    guild_message: MessageRef,
    state: bool,
    user: &UserRef,
    guildid: Option<u64>,
) -> (result: Result<(), DBIError>)
    requires
        old(db).wf(),
    ensures
        final(db).wf(),
        final(db)@ == old(db)@.insert(
            guildid,
            old(db)@[guildid].set_active_role_message(role_message@, guild_message, state, user@).0,
        ),
        res_view(result) == old(db)@[guildid].set_active_role_message(
            role_message@,
            guild_message,
            state,
            user@,
        ).1,
{
    db.partition(guildid).set_active_role_message(role_message, guild_message, state, user)
}

/// The points record of every member of the partition of `guildid`, oldest
/// first.
pub fn get_all_user_data(db: &Database, guildid: Option<u64>) -> (result: Result<
    Vec<MyUser>,
    DBIError,
>)
    requires
        db.wf(),
    ensures
        result matches Ok(users) && views(users@) == db@[guildid].users,
{
    match db.peek(guildid) {
        Some(p) => Ok(p.get_all_user_data()),
        None => {
            let users: Vec<MyUser> = Vec::new();
            assert(views(users@) =~= db@[guildid].users);
            Ok(users)
        },
    }
}

/// The points record of the member `user_id` in the partition of `guildid`,
/// or `UserNotFound`.
pub fn get_user_data(db: &Database, guildid: Option<u64>, user_id: u64) -> (result: Result<
    MyUser,
    DBIError,
>)
    requires
        db.wf(),
    ensures
        res_view(result) == db@[guildid].get_user_data(user_id),
{
    match db.peek(guildid) {
        Some(p) => p.get_user_data(user_id),
        None => Err(DBIError::UserNotFound),
    }
}

/// The points settings of the partition of `guildid`, if an emote was chosen.
pub fn get_point_data(db: &Database, guildid: Option<u64>) -> (result: Result<
    Option<PointsData>,
    DBIError,
>)
    requires
        db.wf(),
    ensures
        result matches Ok(points) && opt_view(points) == db@[guildid].points,
{
    match db.peek(guildid) {
        Some(p) => Ok(p.get_point_data()),
        None => Ok(None),
    }
}

/// Gives `user` `delta` points in the partition of `guildid` and moves the
/// guild total by the same `delta`; each balance stays within zero and the
/// largest balance. A member without a record gets one. The new record of the
/// member is handed back. Without points settings the answer is
/// `PointDataNotFound` and nothing changes.
pub fn change_user_points(
    db: &mut Database,
    guildid: Option<u64>,
    user: UserRef,
    delta: i32,
) -> (result: Result<MyUser, DBIError>)
    requires
        old(db).wf(),
    ensures
        final(db).wf(),
        final(db)@ == old(db)@.insert(
            guildid,
            old(db)@[guildid].change_user_points(user@, delta).0,
        ),
        res_view(result) == old(db)@[guildid].change_user_points(user@, delta).1,
{
    db.partition(guildid).change_user_points(user, delta)
}

/// Chooses `point_emote` as the emote that awards points in the partition of
/// `guildid`. First settings start inactive with no points; later ones keep
/// their state and total.
pub fn set_point_emote(
    db: &mut Database,
    point_emote: &EmoteRef,
    user: &UserRef,
    guildid: Option<u64>,
) -> (result: Result<(), DBIError>)
    requires
        old(db).wf(),
    ensures
        final(db).wf(),
        final(db)@ == old(db)@.insert(
            guildid,
            old(db)@[guildid].set_point_emote(point_emote@, user@),
        ),
        result is Ok,
{
    db.partition(guildid).set_point_emote(point_emote, user);
    Ok(())
}

} // verus!
