//! The help command: which commands are listed, and what is shown of each.

use vstd::prelude::*;
use crate::embed_tools::{Embed, EmbedField, EmbedFieldView, EmbedView, Reply, ReplyView};
use crate::role_commands::bool_text;
use crate::text::{
    contains_text, decimal, is_substring, join, joined, replace_text, replaced, u64_to_string,
};
use crate::types::{opt_view, views};

verus! {

/// One parameter of a command.
#[derive(Debug, PartialEq, Eq)]
pub struct CommandParameter {
    pub name: String,
    pub required: bool,
    pub description: Option<String>,
}

/// What a [`CommandParameter`] holds, as a mathematical value.
pub struct CommandParameterView {
    pub name: Seq<char>,
    pub required: bool,
    pub description: Option<Seq<char>>,
}

impl View for CommandParameter {
    type V = CommandParameterView;

    open spec fn view(&self) -> CommandParameterView {
        CommandParameterView {
            name: self.name@,
            required: self.required,
            description: opt_view(self.description),
        }
    }
}

/// What the help command reads of a command.
#[derive(Debug, PartialEq, Eq)]
pub struct Command {
    /// The name with the names of the commands above it, as a user types it.
    pub qualified_name: String,
    pub hide_in_help: bool,
    pub parameters: Vec<CommandParameter>,
    pub help_text: Option<String>,
    pub description: Option<String>,
    pub guild_only: bool,
    /// The permissions that a user needs, in words.
    pub required_permissions: String,
}

/// What a [`Command`] holds, as a mathematical value.
pub struct CommandView {
    pub qualified_name: Seq<char>,
    pub hide_in_help: bool,
    pub parameters: Seq<CommandParameterView>,
    pub help_text: Option<Seq<char>>,
    pub description: Option<Seq<char>>,
    pub guild_only: bool,
    pub required_permissions: Seq<char>,
}

impl View for Command {
    type V = CommandView;

    open spec fn view(&self) -> CommandView {
        CommandView {
            qualified_name: self.qualified_name@,
            hide_in_help: self.hide_in_help,
            parameters: views(self.parameters@),
            help_text: opt_view(self.help_text),
            description: opt_view(self.description),
            guild_only: self.guild_only,
            required_permissions: self.required_permissions@,
        }
    }
}

/// A command of the bot with the commands directly under it.
#[derive(Debug, PartialEq, Eq)]
pub struct CommandGroup {
    pub command: Command,
    pub subcommands: Vec<Command>,
}

/// What a [`CommandGroup`] holds, as a mathematical value.
pub struct CommandGroupView {
    pub command: CommandView,
    pub subcommands: Seq<CommandView>,
}

impl View for CommandGroup {
    type V = CommandGroupView;

    open spec fn view(&self) -> CommandGroupView {
        CommandGroupView { command: self.command@, subcommands: views(self.subcommands@) }
    }
}

/// Those of `commands` that are not hidden, in their order.
pub open spec fn shown(commands: Seq<CommandView>) -> Seq<CommandView>
    decreases commands.len(),
{
    if commands.len() == 0 {
        Seq::empty()
    } else if commands.last().hide_in_help {
        shown(commands.drop_last())
    } else {
        shown(commands.drop_last()).push(commands.last())
    }
}

/// Those of `groups` whose command is not hidden, in their order.
pub open spec fn shown_groups(groups: Seq<CommandGroupView>) -> Seq<CommandGroupView>
    decreases groups.len(),
{
    if groups.len() == 0 {
        Seq::empty()
    } else if groups.last().command.hide_in_help {
        shown_groups(groups.drop_last())
    } else {
        shown_groups(groups.drop_last()).push(groups.last())
    }
}

/// The commands that a user can call in `group`: the command itself where
/// nothing is under it and it is not hidden, else the commands under it that
/// are not hidden.
pub open spec fn callable_in(group: CommandGroupView) -> Seq<CommandView> {
    if group.subcommands.len() == 0 && !group.command.hide_in_help {
        seq![group.command]
    } else {
        shown(group.subcommands)
    }
}

/// The commands that a user can call in `groups`, group after group.
pub open spec fn callable(groups: Seq<CommandGroupView>) -> Seq<CommandView>
    decreases groups.len(),
{
    if groups.len() == 0 {
        Seq::empty()
    } else {
        callable(groups.drop_last()) + callable_in(groups.last())
    }
}

/// The names of those of `commands` whose name contains `partial`.
pub open spec fn names_matching(commands: Seq<CommandView>, partial: Seq<char>) -> Seq<Seq<char>>
    decreases commands.len(),
{
    if commands.len() == 0 {
        Seq::empty()
    } else if is_substring(partial, commands.last().qualified_name) {
        names_matching(commands.drop_last(), partial).push(commands.last().qualified_name)
    } else {
        names_matching(commands.drop_last(), partial)
    }
}

/// Every group of `commands`, in their order.
fn all_groups<'a>(commands: &'a Vec<CommandGroup>) -> (result: Vec<&'a CommandGroup>)
    ensures
        views(result@) == views(commands@),
{
    let mut groups: Vec<&CommandGroup> = Vec::new();
    let mut i: usize = 0;
    while i < commands.len()
        invariant
            i <= commands.len(),
            groups.len() == i,
            forall|j: int| 0 <= j < i ==> (#[trigger] groups[j])@ == commands[j]@,
        decreases commands.len() - i,
    {
        groups.push(&commands[i]);
        i += 1;
    }
    assert(views(groups@) =~= views(commands@));
    groups
}

/// Those groups of `commands` whose command is not hidden, in their order.
pub fn visible_groups<'a>(commands: &'a Vec<CommandGroup>) -> (result: Vec<&'a CommandGroup>)
    ensures
        views(result@) == shown_groups(views(commands@)),
{
    let ghost all = views(commands@);
    let mut groups: Vec<&CommandGroup> = Vec::new();
    let mut i: usize = 0;
    assert(views(groups@) =~= shown_groups(all.take(0)));
    while i < commands.len()
        invariant
            i <= commands.len(),
            all == views(commands@),
            views(groups@) == shown_groups(all.take(i as int)),
        decreases commands.len() - i,
    {
        let ghost before = views(groups@);
        proof {
            assert(all.take(i as int + 1).drop_last() =~= all.take(i as int));
            assert(all.take(i as int + 1).last() == commands[i as int]@);
        }
        if !commands[i].command.hide_in_help {
            groups.push(&commands[i]);
            assert(views(groups@) =~= before.push(commands[i as int]@));
        }
        i += 1;
    }
    assert(all.take(commands.len() as int) =~= all);
    groups
}

/// The commands that a user can call in `commands`, group after group.
pub fn callable_commands<'a>(commands: &Vec<&'a CommandGroup>) -> (result: Vec<&'a Command>)
    ensures
        views(result@) == callable(views(commands@)),
{
    let ghost groups = views(commands@);
    let mut all_commands: Vec<&Command> = Vec::new();
    let mut i: usize = 0;
    assert(views(all_commands@) =~= callable(groups.take(0)));
    while i < commands.len()
        invariant
            i <= commands.len(),
            groups == views(commands@),
            views(all_commands@) == callable(groups.take(i as int)),
        decreases commands.len() - i,
    {
        let command = commands[i];
        let ghost before = views(all_commands@);
        proof {
            assert(groups.take(i as int + 1).drop_last() =~= groups.take(i as int));
            assert(groups.take(i as int + 1).last() == command@);
        }
        if command.subcommands.len() == 0 && !command.command.hide_in_help {
            all_commands.push(&command.command);
            assert(views(all_commands@) =~= before + seq![command.command@]);
        } else {
            let ghost subs = views(command.subcommands@);
            let mut k: usize = 0;
            assert(before + shown(subs.take(0)) =~= before);
            while k < command.subcommands.len()
                invariant
                    k <= command.subcommands.len(),
                    subs == views(command.subcommands@),
                    views(all_commands@) == before + shown(subs.take(k as int)),
                decreases command.subcommands.len() - k,
            {
                let subcom = &command.subcommands[k];
                let ghost inner = views(all_commands@);
                proof {
                    assert(subs.take(k as int + 1).drop_last() =~= subs.take(k as int));
                    assert(subs.take(k as int + 1).last() == subcom@);
                }
                if !subcom.hide_in_help {
                    all_commands.push(subcom);
                    assert(views(all_commands@) =~= inner.push(subcom@));
                    assert(views(all_commands@) =~= before + shown(subs.take(k as int + 1)));
                }
                k += 1;
            }
            assert(subs.take(command.subcommands.len() as int) =~= subs);
        }
        i += 1;
    }
    assert(groups.take(commands.len() as int) =~= groups);
    all_commands
}

/// The command names to offer for the typed `partial`: the names of the
/// commands that a user can call and whose name contains it.
pub fn autocomplete_commands(commands: &Vec<CommandGroup>, partial: &str) -> (result: Vec<String>)
    ensures
        views(result@) == names_matching(callable(views(commands@)), partial@),
{
    let all_commands = callable_commands(&all_groups(commands));
    let ghost all = views(all_commands@);
    let mut names: Vec<String> = Vec::new();
    let mut i: usize = 0;
    assert(views(names@) =~= names_matching(all.take(0), partial@));
    while i < all_commands.len()
        invariant
            i <= all_commands.len(),
            all == views(all_commands@),
            views(names@) == names_matching(all.take(i as int), partial@),
        decreases all_commands.len() - i,
    {
        let ghost before = views(names@);
        proof {
            assert(all.take(i as int + 1).drop_last() =~= all.take(i as int));
            assert(all.take(i as int + 1).last() == all_commands[i as int]@);
        }
        if contains_text(all_commands[i].qualified_name.as_str(), partial) {
            names.push(all_commands[i].qualified_name.clone());
            assert(views(names@) =~= before.push(all_commands[i as int].qualified_name@));
        }
        i += 1;
    }
    assert(all.take(all_commands.len() as int) =~= all);
    names
}

/// One parameter in short: its name between backticks, with a star behind the
/// name of an optional one.
pub open spec fn param_text(p: CommandParameterView) -> Seq<char> {
    "`"@ + p.name + (if p.required {
        ""@
    } else {
        "*"@
    }) + "`"@
}

/// One parameter in full: its name, whether it is required, and what it is for.
pub open spec fn detailed_param_text(p: CommandParameterView) -> Seq<char> {
    "`"@ + p.name + "`: "@ + (if p.required {
        "(required) "@
    } else {
        " "@
    }) + (match p.description {
        Some(d) => d,
        None => "-"@,
    })
}

/// The parameters of a command in short, with a blank between each two.
pub open spec fn param_string(parameters: Seq<CommandParameterView>) -> Seq<char> {
    joined(Seq::new(parameters.len(), |i: int| param_text(parameters[i])), " "@)
}

/// The parameters of a command in full, one per line.
pub open spec fn detailed_param_string(parameters: Seq<CommandParameterView>) -> Seq<char> {
    joined(Seq::new(parameters.len(), |i: int| detailed_param_text(parameters[i])), "\n"@)
}

/// The parameters of `command` in short, with a blank between each two.
pub fn get_param_string(command: &Command) -> (text: String)
    ensures
        text@ == param_string(command@.parameters),
{
    let mut parts: Vec<String> = Vec::new();
    let mut i: usize = 0;
    while i < command.parameters.len()
        invariant
            i <= command.parameters.len(),
            parts.len() == i,
            forall|j: int| 0 <= j < i ==> (#[trigger] parts[j])@ == param_text(command.parameters[j]@),
        decreases command.parameters.len() - i,
    {
        let param = &command.parameters[i];
        let mut part = String::from_str("`");
        part.append(param.name.as_str());
        if param.required {
            part.append("");
        } else {
            part.append("*");
        }
        part.append("`");
        parts.push(part);
        i += 1;
    }
    assert(views(parts@) =~= Seq::new(
        command@.parameters.len(),
        |i: int| param_text(command@.parameters[i]),
    ));
    join(&parts, " ")
}

/// The parameters of `command` in full, one per line.
pub fn get_detailed_param_string(command: &Command) -> (text: String)
    ensures
        text@ == detailed_param_string(command@.parameters),
{
    let mut parts: Vec<String> = Vec::new();
    let mut i: usize = 0;
    while i < command.parameters.len()
        invariant
            i <= command.parameters.len(),
            parts.len() == i,
            forall|j: int|
                0 <= j < i ==> (#[trigger] parts[j])@ == detailed_param_text(
                    command.parameters[j]@,
                ),
        decreases command.parameters.len() - i,
    {
        let param = &command.parameters[i];
        let mut part = String::from_str("`");
        part.append(param.name.as_str());
        part.append("`: ");
        if param.required {
            part.append("(required) ");
        } else {
            part.append(" ");
        }
        match &param.description {
            Some(desc) => part.append(desc.as_str()),
            None => part.append("-"),
        }
        parts.push(part);
        i += 1;
    }
    assert(views(parts@) =~= Seq::new(
        command@.parameters.len(),
        |i: int| detailed_param_text(command@.parameters[i]),
    ));
    join(&parts, "\n")
}

/// What is shown as the description of a command: its help text on one line,
/// or a dash where it has none.
pub open spec fn help_description(help_text: Option<Seq<char>>) -> Seq<char> {
    match help_text {
        Some(t) => replaced(t, "\n"@, " "@),
        None => "-"@,
    }
}

/// The line under every embed of the help.
pub open spec fn help_footer(author_name: Seq<char>) -> Seq<char> {
    "Optional parameters marked with *. Requsted by "@ + author_name + "."@
}

/// The help for one command, with `description` as its description.
pub open spec fn command_help_view(
    command: CommandView,
    description: Seq<char>,
    author_name: Seq<char>,
) -> EmbedView {
    EmbedView {
        thumbnail: None,
        title: "Help for: /"@ + command.qualified_name + " "@ + param_string(command.parameters),
        description,
        fields: seq![
            EmbedFieldView {
                name: "Parameters"@,
                value: detailed_param_string(command.parameters),
                inline: false,
            },
            EmbedFieldView {
                name: "Guild only"@,
                value: bool_text(command.guild_only),
                inline: true,
            },
            EmbedFieldView {
                name: "Required Perms"@,
                value: command.required_permissions,
                inline: true,
            },
        ],
        footer: help_footer(author_name),
    }
}

/// The entry of one command under the command of its group.
pub open spec fn subcommand_field(command: CommandView) -> EmbedFieldView {
    EmbedFieldView {
        name: "/"@ + command.qualified_name + " "@ + param_string(command.parameters),
        value: match command.description {
            Some(d) => d,
            None => "-"@,
        },
        inline: false,
    }
}

/// The page of the help for the group that stands at `idx` of `total` groups,
/// with `description` as its description.
pub open spec fn group_help_view(
    group: CommandGroupView,
    idx: int,
    total: nat,
    description: Seq<char>,
    author_name: Seq<char>,
) -> EmbedView {
    EmbedView {
        thumbnail: None,
        title: "Help for: /"@ + group.command.qualified_name + " "@ + param_string(
            group.command.parameters,
        ) + " (Page: "@ + decimal((idx + 1) as nat) + "/"@ + decimal(total) + ")"@,
        description,
        fields: Seq::new(
            group.subcommands.len(),
            |i: int| subcommand_field(group.subcommands[i]),
        ),
        footer: help_footer(author_name),
    }
}

/// Whether `commands[i]` is the first command called `name`.
pub open spec fn first_named_at(commands: Seq<CommandView>, name: Seq<char>, i: int) -> bool {
    &&& 0 <= i < commands.len()
    &&& commands[i].qualified_name == name
    &&& forall|j: int| 0 <= j < i ==> (#[trigger] commands[j]).qualified_name != name
}

/// The reply where help is asked for a command that cannot be called.
pub open spec fn unknown_command_text(name: Seq<char>) -> Seq<char> {
    name + " is not a recognized command."@
}

/// The help. For a named command: the help for the first command of that name
/// that a user can call in the groups that are not hidden, or a sentence where
/// there is none. Without a name: one page for each group that is not hidden.
pub open spec fn help_view(
    groups: Seq<CommandGroupView>,
    command: Option<Seq<char>>,
    author_name: Seq<char>,
) -> ReplyView {
    let visible = shown_groups(groups);
    match command {
        Some(name) => {
            if exists|i: int| first_named_at(callable(visible), name, i) {
                let target = callable(visible)[choose|i: int|
                    first_named_at(callable(visible), name, i)];
                ReplyView::Rich(
                    command_help_view(target, help_description(target.help_text), author_name),
                )
            } else {
                ReplyView::Text(unknown_command_text(name))
            }
        },
        None => ReplyView::Pages(
            Seq::new(
                visible.len(),
                |i: int|
                    group_help_view(
                        visible[i],
                        i,
                        visible.len(),
                        help_description(visible[i].command.help_text),
                        author_name,
                    ),
            ),
        ),
    }
}

/// What is shown as the description of a command with the help text
/// `help_text`.
pub fn description_of(help_text: &Option<String>) -> (text: String)
    ensures
        text@ == help_description(opt_view(*help_text)),
{
    match help_text {
        Some(t) => replace_text(t.as_str(), "\n", " "),
        None => String::from_str("-"),
    }
}

/// The line under every embed of the help.
fn footer_for(author_name: &str) -> (text: String)
    ensures
        text@ == help_footer(author_name@),
{
    let mut text = String::from_str("Optional parameters marked with *. Requsted by ");
    text.append(author_name);
    text.append(".");
    text
}

/// The help for `command`, with `description` as its description.
pub fn command_help(command: &Command, description: String, author_name: &str) -> (embed: Embed)
    ensures
        embed@ == command_help_view(command@, description@, author_name@),
{
    let mut title = String::from_str("Help for: /");
    title.append(command.qualified_name.as_str());
    title.append(" ");
    title.append(get_param_string(command).as_str());
    let guild_only = if command.guild_only {
        String::from_str("true")
    } else {
        String::from_str("false")
    };
    let mut fields: Vec<EmbedField> = Vec::new();
    fields.push(
        EmbedField {
            name: String::from_str("Parameters"),
            value: get_detailed_param_string(command),
            inline: false,
        },
    );
    fields.push(EmbedField { name: String::from_str("Guild only"), value: guild_only, inline: true });
    fields.push(
        EmbedField {
            name: String::from_str("Required Perms"),
            value: command.required_permissions.clone(),
            inline: true,
        },
    );
    let embed = Embed {
        title,
        description,
        thumbnail: None,
        fields,
        footer: footer_for(author_name),
    };
    assert(embed@.fields =~= command_help_view(command@, description@, author_name@).fields);
    embed
}

/// The page of the help for `group`, which stands at `idx` of `total` groups,
/// with `description` as its description.
pub fn group_help(
    group: &CommandGroup,
    idx: usize,
    total: usize,
    description: String,
    author_name: &str,
) -> (embed: Embed)
    requires
        idx < total,
    ensures
        embed@ == group_help_view(group@, idx as int, total as nat, description@, author_name@),
{
    let mut title = String::from_str("Help for: /");
    title.append(group.command.qualified_name.as_str());
    title.append(" ");
    title.append(get_param_string(&group.command).as_str());
    title.append(" (Page: ");
    title.append(u64_to_string((idx + 1) as u64).as_str());
    title.append("/");
    title.append(u64_to_string(total as u64).as_str());
    title.append(")");
    let mut fields: Vec<EmbedField> = Vec::new();
    let mut i: usize = 0;
    while i < group.subcommands.len()
        invariant
            i <= group.subcommands.len(),
            fields.len() == i,
            forall|j: int|
                0 <= j < i ==> (#[trigger] fields[j])@ == subcommand_field(group.subcommands[j]@),
        decreases group.subcommands.len() - i,
    {
        let com = &group.subcommands[i];
        let mut name = String::from_str("/");
        name.append(com.qualified_name.as_str());
        name.append(" ");
        name.append(get_param_string(com).as_str());
        let value = match &com.description {
            Some(d) => d.clone(),
            None => String::from_str("-"),
        };
        fields.push(EmbedField { name, value, inline: false });
        i += 1;
    }
    let embed = Embed {
        title,
        description,
        thumbnail: None,
        fields,
        footer: footer_for(author_name),
    };
    assert(embed@.fields =~= group_help_view(
        group@,
        idx as int,
        total as nat,
        description@,
        author_name@,
    ).fields);
    embed
}

/// The help: for the command called `command`, or, without a name, for every
/// group of `commands` that is not hidden.
pub fn help(commands: &Vec<CommandGroup>, command: Option<String>, author_name: &str) -> (reply:
    Reply)
    ensures
        reply@ == help_view(views(commands@), opt_view(command), author_name@),
{
    let visible = visible_groups(commands);
    match command {
        Some(c) => {
            let all_commands = callable_commands(&visible);
            let ghost all = views(all_commands@);
            let mut i: usize = 0;
            while i < all_commands.len()
                invariant
                    i <= all_commands.len(),
                    all == views(all_commands@),
                    all == callable(shown_groups(views(commands@))),
                    opt_view(command) == Some(c@),
                    forall|j: int| 0 <= j < i ==> (#[trigger] all[j]).qualified_name != c@,
                decreases all_commands.len() - i,
            {
                let bot_command = all_commands[i];
                if bot_command.qualified_name == c {
                    proof {
                        assert(first_named_at(all, c@, i as int));
                        let k = choose|k: int| first_named_at(all, c@, k);
                        if k < i {
                            assert(all[k].qualified_name != c@);
                        }
                        if i < k {
                            assert(all[i as int].qualified_name != c@);
                        }
                    }
                    let description = description_of(&bot_command.help_text);
                    return Reply::Rich(command_help(bot_command, description, author_name));
                }
                i += 1;
            }
            proof {
                assert forall|k: int| !first_named_at(all, c@, k) by {
                    if 0 <= k < all.len() {
                        assert(all[k].qualified_name != c@);
                    }
                }
            }
            let mut text = c;
            text.append(" is not a recognized command.");
            Reply::Text(text)
        },
        None => {
            let ghost groups = views(visible@);
            let mut embeds: Vec<Embed> = Vec::new();
            let mut idx: usize = 0;
            while idx < visible.len()
                invariant
                    idx <= visible.len(),
                    groups == views(visible@),
                    embeds.len() == idx,
                    forall|j: int|
                        0 <= j < idx ==> (#[trigger] embeds[j])@ == group_help_view(
                            groups[j],
                            j,
                            groups.len(),
                            help_description(groups[j].command.help_text),
                            author_name@,
                        ),
                decreases visible.len() - idx,
            {
                let group = visible[idx];
                let description = description_of(&group.command.help_text);
                embeds.push(group_help(group, idx, visible.len(), description, author_name));
                idx += 1;
            }
            assert(views(embeds@) =~= help_view(
                views(commands@),
                opt_view(command),
                author_name@,
            )->Pages_0);
            Reply::Pages(embeds)
        },
    }
}

} // verus!
