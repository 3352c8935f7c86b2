//! The records that the bot keeps, and the errors of the record store.

use vstd::prelude::*;

verus! {

/// The views of a sequence of values, element by element.
pub open spec fn views<T: View>(s: Seq<T>) -> Seq<T::V> {
    Seq::new(s.len(), |i: int| s[i]@)
}

/// The view of an optional value.
pub open spec fn opt_view<T: View>(o: Option<T>) -> Option<T::V> {
    match o {
        Some(t) => Some(t@),
        None => None,
    }
}

/// The view of a result, on either side.
pub open spec fn res_view<T: View, E: View>(r: Result<T, E>) -> Result<T::V, E::V> {
    match r {
        Ok(t) => Ok(t@),
        Err(e) => Err(e@),
    }
}

/// A chat user as the bot remembers one: the stable id and the name last seen.
#[derive(Debug, PartialEq, Eq)]
pub struct UserRef {
    pub id: u64,
    pub name: String,
}

/// What a [`UserRef`] holds, as a mathematical value.
pub struct UserRefView {
    pub id: u64,
    pub name: Seq<char>,
}

impl View for UserRef {
    type V = UserRefView;

    open spec fn view(&self) -> UserRefView {
        UserRefView { id: self.id, name: self.name@ }
    }
}

impl Clone for UserRef {
    fn clone(&self) -> (r: Self)
        ensures
            r@ == self@,
    {
        UserRef { id: self.id, name: self.name.clone() }
    }
}

/// A guild role: the stable id and the display name.
#[derive(Debug, PartialEq, Eq)]
pub struct RoleRef {
    pub id: u64,
    pub name: String,
}

/// What a [`RoleRef`] holds, as a mathematical value.
pub struct RoleRefView {
    pub id: u64,
    pub name: Seq<char>,
}

impl View for RoleRef {
    type V = RoleRefView;

    open spec fn view(&self) -> RoleRefView {
        RoleRefView { id: self.id, name: self.name@ }
    }
}

impl Clone for RoleRef {
    fn clone(&self) -> (r: Self)
        ensures
            r@ == self@,
    {
        RoleRef { id: self.id, name: self.name.clone() }
    }
}

/// A guild emote. Two emotes are the same emote when their ids are equal; the
/// name is for display only.
#[derive(Debug, PartialEq, Eq)]
pub struct EmoteRef {
    pub id: u64,
    pub name: String,
    pub animated: bool,
}

/// What an [`EmoteRef`] holds, as a mathematical value.
pub struct EmoteRefView {
    pub id: u64,
    pub name: Seq<char>,
    pub animated: bool,
}

impl View for EmoteRef {
    type V = EmoteRefView;

    open spec fn view(&self) -> EmoteRefView {
        EmoteRefView { id: self.id, name: self.name@, animated: self.animated }
    }
}

impl Clone for EmoteRef {
    fn clone(&self) -> (r: Self)
        ensures
            r@ == self@,
    {
        EmoteRef { id: self.id, name: self.name.clone(), animated: self.animated }
    }
}

/// Where a posted message lives.
#[derive(Debug, Clone, Copy, PartialEq, Eq, Structural)]
pub struct MessageRef {
    pub id: u64,
    pub channel_id: u64,
    pub guild_id: Option<u64>,
}

/// A prepared text under a name that is unique within its partition.
#[derive(Debug, PartialEq, Eq)]
pub struct Tag {
    pub name: String,
    pub content: String,
    pub creator: UserRef,
}

/// What a [`Tag`] holds, as a mathematical value.
pub struct TagView {
    pub name: Seq<char>,
    pub content: Seq<char>,
    pub creator: UserRefView,
}

impl View for Tag {
    type V = TagView;

    open spec fn view(&self) -> TagView {
        TagView { name: self.name@, content: self.content@, creator: self.creator@ }
    }
}

impl Clone for Tag {
    fn clone(&self) -> (r: Self)
        ensures
            r@ == self@,
    {
        Tag { name: self.name.clone(), content: self.content.clone(), creator: self.creator.clone() }
    }
}

/// The points that one member has earned in one guild.
///
/// `discord_id` is the key of the record; `discord_user` is the member as seen
/// when the record was last written.
#[derive(Debug, PartialEq, Eq)]
pub struct MyUser {
    pub discord_id: u64,
    pub discord_user: UserRef,
    pub grammarpoints: u32,
}

/// What a [`MyUser`] holds, as a mathematical value.
pub struct MyUserView {
    pub discord_id: u64,
    pub discord_user: UserRefView,
    pub grammarpoints: u32,
}

impl View for MyUser {
    type V = MyUserView;

    open spec fn view(&self) -> MyUserView {
        MyUserView {
            discord_id: self.discord_id,
            discord_user: self.discord_user@,
            grammarpoints: self.grammarpoints,
        }
    }
}

impl Clone for MyUser {
    fn clone(&self) -> (r: Self)
        ensures
            r@ == self@,
    {
        MyUser {
            discord_id: self.discord_id,
            discord_user: self.discord_user.clone(),
            grammarpoints: self.grammarpoints,
        }
    }
}

/// A role that members may give themselves by reacting with `emote`.
#[derive(Debug, PartialEq, Eq)]
pub struct UserRole {
    pub guild_role: RoleRef,
    pub emote: EmoteRef,
    pub desc: String,
}

/// What a [`UserRole`] holds, as a mathematical value.
pub struct UserRoleView {
    pub guild_role: RoleRefView,
    pub emote: EmoteRefView,
    pub desc: Seq<char>,
}

impl View for UserRole {
    type V = UserRoleView;

    open spec fn view(&self) -> UserRoleView {
        UserRoleView { guild_role: self.guild_role@, emote: self.emote@, desc: self.desc@ }
    }
}

impl Clone for UserRole {
    fn clone(&self) -> (r: Self)
        ensures
            r@ == self@,
    {
        UserRole {
            guild_role: self.guild_role.clone(),
            emote: self.emote.clone(),
            desc: self.desc.clone(),
        }
    }
}

/// The announcement under which members react for roles; one per partition.
#[derive(Debug, PartialEq, Eq)]
pub struct RoleMessage {
    pub messagetext: String,
    pub guild_message: Option<MessageRef>,
    pub active: bool,
    pub message_by: UserRef,
    pub posted_by: Option<UserRef>,
}

/// What a [`RoleMessage`] holds, as a mathematical value.
pub struct RoleMessageView {
    pub messagetext: Seq<char>,
    pub guild_message: Option<MessageRef>,
    pub active: bool,
    pub message_by: UserRefView,
    pub posted_by: Option<UserRefView>,
}

impl View for RoleMessage {
    type V = RoleMessageView;

    open spec fn view(&self) -> RoleMessageView {
        RoleMessageView {
            messagetext: self.messagetext@,
            guild_message: self.guild_message,
            active: self.active,
            message_by: self.message_by@,
            posted_by: opt_view(self.posted_by),
        }
    }
}

impl Clone for RoleMessage {
    fn clone(&self) -> (r: Self)
        ensures
            r@ == self@,
    {
        let posted_by = match &self.posted_by {
            Some(u) => Some(u.clone()),
            None => None,
        };
        RoleMessage {
            messagetext: self.messagetext.clone(),
            guild_message: self.guild_message,
            active: self.active,
            message_by: self.message_by.clone(),
            posted_by,
        }
    }
}

/// The settings of the points feature of one partition, with the running total
/// of all points awarded there.
#[derive(Debug, PartialEq, Eq)]
pub struct PointsData {
    pub guild_emote: EmoteRef,
    pub set_by: UserRef,
    pub active: bool,
    pub total: u32,
}

/// What a [`PointsData`] holds, as a mathematical value.
pub struct PointsDataView {
    pub guild_emote: EmoteRefView,
    pub set_by: UserRefView,
    pub active: bool,
    pub total: u32,
}

impl View for PointsData {
    type V = PointsDataView;

    open spec fn view(&self) -> PointsDataView {
        PointsDataView {
            guild_emote: self.guild_emote@,
            set_by: self.set_by@,
            active: self.active,
            total: self.total,
        }
    }
}

impl Clone for PointsData {
    fn clone(&self) -> (r: Self)
        ensures
            r@ == self@,
    {
        PointsData {
            guild_emote: self.guild_emote.clone(),
            set_by: self.set_by.clone(),
            active: self.active,
            total: self.total,
        }
    }
}

/// The identity of a record in the store: its table and its key there.
#[derive(Debug, PartialEq, Eq)]
pub struct Thing {
    pub tb: String,
    pub id: String,
}

/// What the store answers with where only the identity of a record matters.
#[derive(Debug, PartialEq, Eq)]
pub struct Record {
    id: Thing,
}

impl Record {
    /// The record with the identity `id`.
    pub fn new(id: Thing) -> (record: Record)
        ensures
            record.id() == id,
    {
        Record { id }
    }

    /// The identity of the record.
    pub closed spec fn id(&self) -> Thing {
        self.id
    }

    /// The identity of the record.
    pub fn identity(&self) -> (id: &Thing)
        ensures
            *id == self.id(),
    {
        &self.id
    }
}

/// State shared by all command invocations. The bot keeps none.
#[derive(Debug, Clone, Copy, PartialEq, Eq, Structural)]
pub struct Data {}

/// What a record-store operation can fail with.
#[derive(Debug, PartialEq, Eq)]
pub enum DBIError {
    /// The store could not be reached or refused the request; the text is the
    /// store's own report.
    DBError(String),
    TagAlreadyExists,
    TagNotFound,
    UserNotFound,
    RoleAlreadyExists,
    RoleNotFound,
    PointDataNotFound,
    /// No role message is kept, so none can be bound to a posted message.
    RoleMessageNotFound,
}

/// What a [`DBIError`] holds, as a mathematical value.
pub enum DBIErrorView {
    DBError(Seq<char>),
    TagAlreadyExists,
    TagNotFound,
    UserNotFound,
    RoleAlreadyExists,
    RoleNotFound,
    PointDataNotFound,
    RoleMessageNotFound,
}

impl View for DBIError {
    type V = DBIErrorView;

    open spec fn view(&self) -> DBIErrorView {
        match self {
            DBIError::DBError(m) => DBIErrorView::DBError(m@),
            DBIError::TagAlreadyExists => DBIErrorView::TagAlreadyExists,
            DBIError::TagNotFound => DBIErrorView::TagNotFound,
            DBIError::UserNotFound => DBIErrorView::UserNotFound,
            DBIError::RoleAlreadyExists => DBIErrorView::RoleAlreadyExists,
            DBIError::RoleNotFound => DBIErrorView::RoleNotFound,
            DBIError::PointDataNotFound => DBIErrorView::PointDataNotFound,
            DBIError::RoleMessageNotFound => DBIErrorView::RoleMessageNotFound,
        }
    }
}

/// The sentence shown to a user for each error.
pub open spec fn dbi_error_text(e: DBIErrorView) -> Seq<char> {
    match e {
        DBIErrorView::DBError(m) => "Error when accessing the DB: "@ + m,
        DBIErrorView::TagAlreadyExists => "Tag name already exists"@,
        DBIErrorView::TagNotFound => "Tag name not found"@,
        DBIErrorView::UserNotFound => "User not found"@,
        DBIErrorView::RoleAlreadyExists => "Role already exists"@,
        DBIErrorView::RoleNotFound => "Role not found"@,
        DBIErrorView::PointDataNotFound => "Points data doesn't exist"@,
        DBIErrorView::RoleMessageNotFound => "Role message not found"@,
    }
}

impl DBIError {
    /// The sentence shown to a user for this error.
    pub fn message(&self) -> (text: String)
        ensures
            text@ == dbi_error_text(self@),
    {
        match self {
            DBIError::DBError(m) => {
                String::from_str("Error when accessing the DB: ").concat(m.as_str())
            },
            DBIError::TagAlreadyExists => String::from_str("Tag name already exists"),
            DBIError::TagNotFound => String::from_str("Tag name not found"),
            DBIError::UserNotFound => String::from_str("User not found"),
            DBIError::RoleAlreadyExists => String::from_str("Role already exists"),
            DBIError::RoleNotFound => String::from_str("Role not found"),
            DBIError::PointDataNotFound => String::from_str("Points data doesn't exist"),
            DBIError::RoleMessageNotFound => String::from_str("Role message not found"),
        }
    }
}

/// The logger could not be installed.
#[derive(Debug, Clone, Copy, PartialEq, Eq, Structural)]
pub struct LogError;

impl LogError {
    /// The sentence shown for this error.
    pub fn message(&self) -> (text: String)
        ensures
            text@ == "failed to set up loggger"@,
    {
        String::from_str("failed to set up loggger")
    }
}

} // verus!
