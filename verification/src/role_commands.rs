//! The role commands: what each one does to the store and what it replies.

use vstd::prelude::*;
use crate::db_interactions::{
    add_role as bind_role, get_all_roles, get_role, get_role_message,
    remove_all_roles, remove_role as unbind_role, set_active_role_message, set_role_message,
    Database,
};
use crate::embed_tools::{Embed, EmbedField, EmbedFieldView, EmbedView, Reply, ReplyView};
use crate::text::{decimal, join, joined, u64_to_string};
use crate::types::{
    dbi_error_text, opt_view, res_view, views, DBIError, DBIErrorView, EmoteRef, EmoteRefView,
    MessageRef, RoleMessage, RoleMessageView, RoleRef, UserRef, UserRole,
    UserRoleView,
};

verus! {

/// The text that shows as a mention of the role `role_id`.
pub open spec fn role_mention_text(role_id: u64) -> Seq<char> {
    "<@&"@ + decimal(role_id as nat) + ">"@
}

/// The text that shows as the emote `emote`.
pub open spec fn emote_text(emote: EmoteRefView) -> Seq<char> {
    (if emote.animated {
        "<a:"@
    } else {
        "<:"@
    }) + emote.name + ":"@ + decimal(emote.id as nat) + ">"@
}

/// The line of one self-assignable role: emote, role and description.
pub open spec fn role_line(role: UserRoleView) -> Seq<char> {
    emote_text(role.emote) + " "@ + role_mention_text(role.guild_role.id) + ": "@ + role.desc
        + "\n"@
}

/// The lines of `roles`, one after the other.
pub open spec fn role_lines(roles: Seq<UserRoleView>) -> Seq<char>
    decreases roles.len(),
{
    if roles.len() == 0 {
        Seq::empty()
    } else {
        role_lines(roles.drop_last()) + role_line(roles.last())
    }
}

/// The text of the posted role message: a heading, the text that was set, and
/// the lines of the roles.
pub open spec fn posting_text(messagetext: Seq<char>, roles: Seq<UserRoleView>) -> Seq<char> {
    "# Reaction roles\n"@ + messagetext + "\n## Available roles\n"@ + role_lines(roles)
}

/// The address of the posted message `m`.
pub open spec fn message_link_text(m: MessageRef) -> Seq<char> {
    "https://discord.com/channels/"@ + (match m.guild_id {
        Some(g) => decimal(g as nat),
        None => "@me"@,
    }) + "/"@ + decimal(m.channel_id as nat) + "/"@ + decimal(m.id as nat)
}

/// The text that shows as a mention of `role`.
pub fn role_mention(role: &RoleRef) -> (text: String)
    ensures
        text@ == role_mention_text(role.id),
{
    let mut text = String::from_str("<@&");
    text.append(u64_to_string(role.id).as_str());
    text.append(">");
    text
}

/// The text that shows as `emote`.
pub fn emote_mention(emote: &EmoteRef) -> (text: String)
    ensures
        text@ == emote_text(emote@),
{
    let mut text = if emote.animated {
        String::from_str("<a:")
    } else {
        String::from_str("<:")
    };
    text.append(emote.name.as_str());
    text.append(":");
    text.append(u64_to_string(emote.id).as_str());
    text.append(">");
    text
}

/// The lines of `roles`, one per role: emote, role and description.
pub fn role_list(roles: &Vec<UserRole>) -> (text: String)
    ensures
        text@ == role_lines(views(roles@)),
{
    let ghost all = views(roles@);
    let mut text = String::new();
    let mut i: usize = 0;
    assert(all.take(0) =~= Seq::empty());
    while i < roles.len()
        invariant
            i <= roles.len(),
            all == views(roles@),
            text@ == role_lines(all.take(i as int)),
        decreases roles.len() - i,
    {
        proof {
            assert(all.take(i as int + 1).drop_last() =~= all.take(i as int));
            assert(all.take(i as int + 1).last() == roles[i as int]@);
        }
        let ghost before = text@;
        text.append(emote_mention(&roles[i].emote).as_str());
        text.append(" ");
        text.append(role_mention(&roles[i].guild_role).as_str());
        text.append(": ");
        text.append(roles[i].desc.as_str());
        text.append("\n");
        assert(text@ =~= before + role_line(roles[i as int]@));
        i += 1;
    }
    assert(all.take(roles.len() as int) =~= all);
    text
}

/// The address of the posted message `m`.
pub fn message_link(m: &MessageRef) -> (text: String)
    ensures
        text@ == message_link_text(*m),
{
    let mut text = String::from_str("https://discord.com/channels/");
    match m.guild_id {
        Some(g) => text.append(u64_to_string(g).as_str()),
        None => text.append("@me"),
    }
    text.append("/");
    text.append(u64_to_string(m.channel_id).as_str());
    text.append("/");
    text.append(u64_to_string(m.id).as_str());
    text
}

/// The reply to a request to make a role self-assignable.
pub open spec fn add_role_text(added: Result<UserRoleView, DBIErrorView>) -> Seq<char> {
    match added {
        Ok(ur) => "Role "@ + role_mention_text(ur.guild_role.id) + " added sucessfully!"@,
        Err(e) => dbi_error_text(e),
    }
}

/// The reply to a request to take a role off the self-assignable roles.
pub open spec fn remove_role_text(removed: Result<UserRoleView, DBIErrorView>) -> Seq<char> {
    match removed {
        Ok(ur) => "Role "@ + role_mention_text(ur.guild_role.id)
            + " successfully removed from list."@,
        Err(e) => dbi_error_text(e),
    }
}

/// The names of the roles of `roles`, in their order.
pub open spec fn role_names(roles: Seq<UserRoleView>) -> Seq<Seq<char>> {
    Seq::new(roles.len(), |i: int| roles[i].guild_role.name)
}

/// The reply to a request to set the text of the role message.
pub open spec fn set_msg_role_text(set: Result<(), DBIErrorView>) -> Seq<char> {
    match set {
        Ok(_) => "Role message set successfully."@,
        Err(e) => dbi_error_text(e),
    }
}

/// The reply to a request to make a role self-assignable, given what the store
/// answered.
pub fn add_role_reply(added: &Result<UserRole, DBIError>) -> (text: String)
    ensures
        text@ == add_role_text(res_view(*added)),
{
    match added {
        Ok(ur) => {
            let mut text = String::from_str("Role ");
            text.append(role_mention(&ur.guild_role).as_str());
            text.append(" added sucessfully!");
            text
        },
        Err(e) => e.message(),
    }
}

/// The reply to a request to take a role off the self-assignable roles, given
/// what the store answered.
pub fn remove_role_reply(removed: &Result<UserRole, DBIError>) -> (text: String)
    ensures
        text@ == remove_role_text(res_view(*removed)),
{
    match removed {
        Ok(ur) => {
            let mut text = String::from_str("Role ");
            text.append(role_mention(&ur.guild_role).as_str());
            text.append(" successfully removed from list.");
            text
        },
        Err(e) => e.message(),
    }
}

/// The reply once every role was removed: the names of the removed roles with
/// a blank between each two; no reply where that text is empty.
pub fn reset_roles_reply(removed_roles: &Vec<UserRole>) -> (reply: Option<String>)
    ensures
        opt_view(reply) == (if joined(role_names(views(removed_roles@)), " "@).len() > 0 {
            Some(joined(role_names(views(removed_roles@)), " "@))
        } else {
            None
        }),
{
    let mut names: Vec<String> = Vec::new();
    let mut i: usize = 0;
    while i < removed_roles.len()
        invariant
            i <= removed_roles.len(),
            names.len() == i,
            forall|j: int| 0 <= j < i ==> (#[trigger] names[j])@ == removed_roles[j].guild_role.name@,
        decreases removed_roles.len() - i,
    {
        names.push(removed_roles[i].guild_role.name.clone());
        i += 1;
    }
    assert(views(names@) =~= role_names(
        views(removed_roles@),
    ));
    let text = join(&names, " ");
    if text.as_str().is_empty() {
        None
    } else {
        Some(text)
    }
}

/// The reply to a request to set the text of the role message, given what the
/// store answered.
pub fn set_msg_role_reply(set: &Result<(), DBIError>) -> (text: String)
    ensures
        text@ == set_msg_role_text(res_view(*set)),
{
    match set {
        Ok(_) => String::from_str("Role message set successfully."),
        Err(e) => e.message(),
    }
}

/// Makes `role` self-assignable by reacting with `emote`, and replies with
/// what came of it.
pub fn add_role(
    db: &mut Database,
    guildid: Option<u64>,
    role: RoleRef,
    emote: EmoteRef,
    desc: String,
) -> (reply: String)
    requires
        old(db).wf(),
    ensures
        final(db).wf(),
        final(db)@ == old(db)@.insert(
            guildid,
            old(db)@[guildid].add_role(
                UserRoleView { guild_role: role@, emote: emote@, desc: desc@ },
            ).0,
        ),
        reply@ == add_role_text(
            old(db)@[guildid].add_role(
                UserRoleView { guild_role: role@, emote: emote@, desc: desc@ },
            ).1,
        ),
{
    let ur = UserRole { guild_role: role, emote, desc };
    add_role_reply(&bind_role(db, ur, guildid))
}

/// Takes `role` off the self-assignable roles, and replies with what came of
/// it. A role that is not self-assignable is answered with `RoleNotFound`, and
/// nothing changes.
pub fn remove_role(db: &mut Database, guildid: Option<u64>, role: &RoleRef) -> (result: Result<
    String,
    DBIError,
>)
    requires
        old(db).wf(),
    ensures
        final(db).wf(),
        final(db)@ == old(db)@.insert(guildid, old(db)@[guildid].remove_role(role.id).0),
        match old(db)@[guildid].get_role(role.id) {
            Ok(_) => result matches Ok(reply) && reply@ == remove_role_text(
                old(db)@[guildid].remove_role(role.id).1,
            ),
            Err(e) => result matches Err(err) && err@ == e,
        },
{
    match get_role(db, role.id, guildid) {
        Ok(user_role) => Ok(remove_role_reply(&unbind_role(db, user_role, guildid))),
        Err(e) => {
            assert(db@ =~= db@.insert(guildid, db@[guildid]));
            Err(e)
        },
    }
}

/// Removes every self-assignable role, and replies with the names of the
/// removed roles; no reply where that text is empty.
pub fn reset_roles(db: &mut Database, guildid: Option<u64>) -> (result: Result<
    Option<String>,
    DBIError,
>)
    requires
        old(db).wf(),
    ensures
        final(db).wf(),
        final(db)@ == old(db)@.insert(guildid, old(db)@[guildid].remove_all_roles()),
        result matches Ok(reply) && opt_view(reply) == (if joined(
            role_names(old(db)@[guildid].roles),
            " "@,
        ).len() > 0 {
            Some(joined(role_names(old(db)@[guildid].roles), " "@))
        } else {
            None
        }),
{
    match remove_all_roles(db, guildid) {
        Ok(removed_roles) => Ok(reset_roles_reply(&removed_roles)),
        Err(e) => Err(e),
    }
}

/// Sets the text of the role message to `msg` for `author`, and replies with
/// what came of it.
pub fn set_msg_role(
    db: &mut Database,
    guildid: Option<u64>,
    author: &UserRef,
    msg: String,
) -> (reply: String)
    requires
        old(db).wf(),
    ensures
        final(db).wf(),
        final(db)@ == old(db)@.insert(guildid, old(db)@[guildid].set_role_message(msg@, author@)),
        reply@ == "Role message set successfully."@,
{
    set_msg_role_reply(&set_role_message(db, msg, author, guildid))
}

/// The text of a truth value.
pub open spec fn bool_text(b: bool) -> Seq<char> {
    if b {
        "true"@
    } else {
        "false"@
    }
}

/// The reply that shows the role message: an embed with the text, the lines of
/// the roles, the address of the posted message and the state; a sentence where
/// no role message is set.
pub open spec fn show_msg_role_view(
    roles: Seq<UserRoleView>,
    message: Option<RoleMessageView>,
    author_name: Seq<char>,
) -> ReplyView {
    match message {
        Some(msg) => ReplyView::Rich(
            EmbedView {
                thumbnail: None,
                title: "Current role message"@,
                description: msg.messagetext,
                fields: seq![
                    EmbedFieldView { name: "Roles"@, value: role_lines(roles), inline: false },
                    EmbedFieldView {
                        name: "Message link"@,
                        value: match msg.guild_message {
                            Some(m) => message_link_text(m),
                            None => "None"@,
                        },
                        inline: true,
                    },
                    EmbedFieldView {
                        name: "Is active"@,
                        value: bool_text(msg.active),
                        inline: true,
                    },
                ],
                footer: "Requested by: "@ + author_name,
            },
        ),
        None => ReplyView::Text("No role message set on this server"@),
    }
}

/// The reply that shows the role message, given the roles and the role message
/// as read.
pub fn show_msg_role_reply(
    cur_roles: &Vec<UserRole>,
    cur_message: &Option<RoleMessage>,
    author_name: &str,
) -> (reply: Reply)
    ensures
        reply@ == show_msg_role_view(views(cur_roles@), opt_view(*cur_message), author_name@),
{
    match cur_message {
        Some(msg) => {
            let link = match &msg.guild_message {
                Some(m) => message_link(m),
                None => String::from_str("None"),
            };
            let active = if msg.active {
                String::from_str("true")
            } else {
                String::from_str("false")
            };
            let mut fields: Vec<EmbedField> = Vec::new();
            fields.push(
                EmbedField {
                    name: String::from_str("Roles"),
                    value: role_list(cur_roles),
                    inline: false,
                },
            );
            fields.push(
                EmbedField { name: String::from_str("Message link"), value: link, inline: true },
            );
            fields.push(
                EmbedField { name: String::from_str("Is active"), value: active, inline: true },
            );
            let mut footer = String::from_str("Requested by: ");
            footer.append(author_name);
            let embed = Embed {
                thumbnail: None,
                title: String::from_str("Current role message"),
                description: msg.messagetext.clone(),
                fields,
                footer,
            };
            assert(embed@.fields =~= show_msg_role_view(
                views(cur_roles@),
                opt_view(*cur_message),
                author_name@,
            )->Rich_0.fields);
            Reply::Rich(embed)
        },
        None => Reply::Text(String::from_str("No role message set on this server")),
    }
}

/// Shows the role message to `author`.
pub fn show_msg_role(db: &Database, guildid: Option<u64>, author: &UserRef) -> (result: Result<
    Reply,
    DBIError,
>)
    requires
        db.wf(),
    ensures
        result matches Ok(reply) && reply@ == show_msg_role_view(
            db@[guildid].roles,
            db@[guildid].role_message,
            author.name@,
        ),
{
    let cur_roles = match get_all_roles(db, guildid) {
        Ok(roles) => roles,
        Err(e) => {
            return Err(e);
        },
    };
    match get_role_message(db, guildid) {
        Ok(cur_message) => Ok(show_msg_role_reply(&cur_roles, &cur_message, author.name.as_str())),
        Err(e) => Err(e),
    }
}

/// What is sent to a channel to post the role message: the text, and the
/// emotes that the bot then reacts with, one per role and in their order.
#[derive(Debug, PartialEq, Eq)]
pub struct Posting {
    pub text: String,
    pub reactions: Vec<EmoteRef>,
}

/// What a [`Posting`] holds, as a mathematical value.
pub struct PostingView {
    pub text: Seq<char>,
    pub reactions: Seq<EmoteRefView>,
}

impl View for Posting {
    type V = PostingView;

    open spec fn view(&self) -> PostingView {
        PostingView { text: self.text@, reactions: views(self.reactions@) }
    }
}

/// What is sent to post the role message: nothing while no role message is
/// set or no role is self-assignable.
pub open spec fn posting_of(message: Option<RoleMessageView>, roles: Seq<UserRoleView>) -> Option<
    PostingView,
> {
    match message {
        Some(msg) if roles.len() > 0 => Some(
            PostingView {
                text: posting_text(msg.messagetext, roles),
                reactions: Seq::new(roles.len(), |i: int| roles[i].emote),
            },
        ),
        _ => None,
    }
}

/// The reply where the role message cannot be posted.
pub open spec fn not_postable_text() -> Seq<char> {
    "Make sure that a role message is set and that at least one role was selected as a user assignable role."@
}

/// What is sent to post the role message, given the role message and the roles
/// as read.
pub fn posting(cur_message: &Option<RoleMessage>, cur_roles: &Vec<UserRole>) -> (result: Option<
    Posting,
>)
    ensures
        opt_view(result) == posting_of(opt_view(*cur_message), views(cur_roles@)),
{
    match cur_message {
        Some(msg) => {
            if cur_roles.len() > 0 {
                let mut text = String::from_str("# Reaction roles\n");
                text.append(msg.messagetext.as_str());
                text.append("\n## Available roles\n");
                text.append(role_list(cur_roles).as_str());
                let mut reactions: Vec<EmoteRef> = Vec::new();
                let mut i: usize = 0;
                while i < cur_roles.len()
                    invariant
                        i <= cur_roles.len(),
                        reactions.len() == i,
                        forall|j: int|
                            0 <= j < i ==> (#[trigger] reactions[j])@ == cur_roles[j].emote@,
                    decreases cur_roles.len() - i,
                {
                    reactions.push(cur_roles[i].emote.clone());
                    i += 1;
                }
                let result = Posting { text, reactions };
                assert(result@.reactions =~= Seq::new(
                    views(cur_roles@).len(),
                    |i: int| views(cur_roles@)[i].emote,
                ));
                Some(result)
            } else {
                None
            }
        },
        None => None,
    }
}

/// Records that `author` has posted the role message as `sent`, and replies.
/// While no role message is set or no role is self-assignable, nothing is
/// recorded and the reply says what is missing.
pub fn post_msg_role(
    db: &mut Database,
    guildid: Option<u64>,
    author: &UserRef,
    sent: MessageRef,
) -> (result: Result<String, DBIError>)
    requires
        old(db).wf(),
    ensures
        final(db).wf(),
        match posting_of(old(db)@[guildid].role_message, old(db)@[guildid].roles) {
            Some(_) => final(db)@ == old(db)@.insert(
                guildid,
                old(db)@[guildid].set_active_role_message(
                    old(db)@[guildid].role_message->0,
                    sent,
                    true,
                    author@,
                ).0,
            ) && (result matches Ok(reply) && reply@ == "Message posted sucessfully."@),
            None => final(db)@ == old(db)@ && (result matches Ok(reply) && reply@
                == not_postable_text()),
        },
{
    let cur_message = match get_role_message(db, guildid) {
        Ok(m) => m,
        Err(e) => {
            return Err(e);
        },
    };
    let cur_roles = match get_all_roles(db, guildid) {
        Ok(r) => r,
        Err(e) => {
            return Err(e);
        },
    };
    match cur_message {
        Some(msg) => {
            if cur_roles.len() > 0 {
                match set_active_role_message(db, &msg, sent, true, author, guildid) {
                    Ok(_) => Ok(String::from_str("Message posted sucessfully.")),
                    Err(e) => Err(e),
                }
            } else {
                Ok(
                    String::from_str(
                        "Make sure that a role message is set and that at least one role was selected as a user assignable role.",
                    ),
                )
            }
        },
        None => Ok(
            String::from_str(
                "Make sure that a role message is set and that at least one role was selected as a user assignable role.",
            ),
        ),
    }
}

/// The reply where the state of an unposted role message is to be set.
pub open spec fn not_posted_text() -> Seq<char> {
    "Role message exists but it's not posted anywhere. Post it to a channel first using the `/role post` command first before attempting to change its status."@
}

/// The reply where the state of a role message is to be set and none exists.
pub open spec fn not_created_text() -> Seq<char> {
    "No role message created. Create one and post it first before attempting to change its status."@
}

/// Whether the state of the role message can be set: yes for a posted one,
/// with the message it was posted as; else the reply that says what is missing.
pub fn activation(cur_message: &Option<RoleMessage>) -> (result: Result<MessageRef, String>)
    ensures
        match *cur_message {
            Some(msg) => match msg.guild_message {
                Some(m) => result == Ok::<MessageRef, String>(m),
                None => result matches Err(text) && text@ == not_posted_text(),
            },
            None => result matches Err(text) && text@ == not_created_text(),
        },
{
    match cur_message {
        Some(msg) => match msg.guild_message {
            Some(m) => Ok(m),
            None => Err(
                String::from_str(
                    "Role message exists but it's not posted anywhere. Post it to a channel first using the `/role post` command first before attempting to change its status.",
                ),
            ),
        },
        None => Err(
            String::from_str(
                "No role message created. Create one and post it first before attempting to change its status.",
            ),
        ),
    }
}

/// Sets the state of the posted role message to `state` for `author`. There is
/// no reply where that was done; where no role message is posted, nothing
/// changes and the reply says what is missing.
pub fn activate_msg_role(
    db: &mut Database,
    guildid: Option<u64>,
    author: &UserRef,
    state: bool,
) -> (result: Result<Option<String>, DBIError>)
    requires
        old(db).wf(),
    ensures
        final(db).wf(),
        match old(db)@[guildid].role_message {
            Some(msg) => match msg.guild_message {
                Some(m) => final(db)@ == old(db)@.insert(
                    guildid,
                    old(db)@[guildid].set_active_role_message(msg, m, state, author@).0,
                ) && (result matches Ok(None)),
                None => final(db)@ == old(db)@ && (result matches Ok(Some(text)) && text@
                    == not_posted_text()),
            },
            None => final(db)@ == old(db)@ && (result matches Ok(Some(text)) && text@
                == not_created_text()),
        },
{
    let cur_message = match get_role_message(db, guildid) {
        Ok(m) => m,
        Err(e) => {
            return Err(e);
        },
    };
    match activation(&cur_message) {
        Ok(guild_msg) => {
            match &cur_message {
                Some(cur_msg) => {
                    match set_active_role_message(db, cur_msg, guild_msg, state, author, guildid) {
                        Ok(_) => Ok(None),
                        Err(e) => Err(e),
                    }
                },
                None => Ok(None),
            }
        },
        Err(text) => Ok(Some(text)),
    }
}

} // verus!
