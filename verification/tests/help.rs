use grammarbot::commands_util::{
    autocomplete_commands, callable_commands, command_help, description_of,
    get_detailed_param_string, get_param_string, group_help, help, visible_groups, Command,
    CommandGroup, CommandParameter,
};
use grammarbot::embed_tools::{Embed, EmbedField, Reply};

fn param(name: &str, required: bool, description: Option<&str>) -> CommandParameter {
    CommandParameter { name: name.to_string(), required, description: description.map(|d| d.to_string()) }
}

fn command(name: &str, hidden: bool, parameters: Vec<CommandParameter>) -> Command {
    Command {
        qualified_name: name.to_string(),
        hide_in_help: hidden,
        parameters,
        help_text: Some(format!("Help for {}.\nSecond line.", name)),
        description: Some(format!("About {}", name)),
        guild_only: true,
        required_permissions: "MANAGE_ROLES".to_string(),
    }
}

fn bot() -> Vec<CommandGroup> {
    vec![
        CommandGroup { command: command("help", false, vec![param("command", false, Some("Specific command to show help about"))]), subcommands: vec![] },
        CommandGroup { command: command("register", true, vec![]), subcommands: vec![] },
        CommandGroup {
            command: command("role", false, vec![]),
            subcommands: vec![
                command("role add", false, vec![param("role", true, Some("Role on this server")), param("emote", true, None)]),
                command("role secret", true, vec![]),
                command("role remove", false, vec![param("role", true, Some("Role to remove"))]),
            ],
        },
        CommandGroup {
            command: command("hidden", true, vec![]),
            subcommands: vec![command("hidden sub", false, vec![])],
        },
    ]
}

fn names(commands: &Vec<&Command>) -> Vec<String> {
    commands.iter().map(|c| c.qualified_name.clone()).collect()
}

#[test]
fn param_strings() {
    let add = command("role add", false, vec![param("role", true, Some("Role on this server")), param("emote", false, None)]);
    assert_eq!(get_param_string(&add), "`role` `emote*`");
    assert_eq!(get_detailed_param_string(&add), "`role`: (required) Role on this server\n`emote`:  -");
    let bare = command("x", false, vec![]);
    assert_eq!(get_param_string(&bare), "");
    assert_eq!(get_detailed_param_string(&bare), "");
}

#[test]
fn callable_commands_skip_hidden_ones() {
    let commands = bot();
    let every: Vec<&CommandGroup> = commands.iter().collect();
    assert_eq!(names(&callable_commands(&every)), vec!["help", "role add", "role remove", "hidden sub"]);
    let visible = visible_groups(&commands);
    assert_eq!(visible.len(), 2);
    assert_eq!(names(&callable_commands(&visible)), vec!["help", "role add", "role remove"]);
}

#[test]
fn autocomplete_commands_filters_by_the_typed_text() {
    let commands = bot();
    assert_eq!(autocomplete_commands(&commands, "role"), vec!["role add".to_string(), "role remove".to_string()]);
    assert_eq!(autocomplete_commands(&commands, "e"), vec!["help".to_string(), "role add".to_string(), "role remove".to_string(), "hidden sub".to_string()]);
    assert_eq!(autocomplete_commands(&commands, "register"), Vec::<String>::new());
    assert_eq!(autocomplete_commands(&commands, "").len(), 4);
}

#[test]
fn description_is_put_on_one_line() {
    assert_eq!(description_of(&Some("First line.\nSecond line.\n".to_string())), "First line. Second line. ");
    assert_eq!(description_of(&Some("no breaks".to_string())), "no breaks");
    assert_eq!(description_of(&None), "-");
}

#[test]
fn help_for_one_command() {
    let expected = Embed {
        title: "Help for: /role add `role` `emote`".to_string(),
        description: "Help for role add. Second line.".to_string(),
        thumbnail: None,
        fields: vec![
            EmbedField { name: "Parameters".to_string(), value: "`role`: (required) Role on this server\n`emote`: (required) -".to_string(), inline: false },
            EmbedField { name: "Guild only".to_string(), value: "true".to_string(), inline: true },
            EmbedField { name: "Required Perms".to_string(), value: "MANAGE_ROLES".to_string(), inline: true },
        ],
        footer: "Optional parameters marked with *. Requsted by ada.".to_string(),
    };
    assert_eq!(help(&bot(), Some("role add".to_string()), "ada"), Reply::Rich(expected));
}

#[test]
fn help_for_an_unknown_or_hidden_command() {
    assert_eq!(help(&bot(), Some("nope".to_string()), "ada"), Reply::Text("nope is not a recognized command.".to_string()));
    assert_eq!(help(&bot(), Some("register".to_string()), "ada"), Reply::Text("register is not a recognized command.".to_string()));
    assert_eq!(help(&bot(), Some("role secret".to_string()), "ada"), Reply::Text("role secret is not a recognized command.".to_string()));
    assert_eq!(help(&bot(), Some("hidden sub".to_string()), "ada"), Reply::Text("hidden sub is not a recognized command.".to_string()));
    // A group with commands under it cannot be called itself.
    assert_eq!(help(&bot(), Some("role".to_string()), "ada"), Reply::Text("role is not a recognized command.".to_string()));
}

#[test]
fn help_without_a_name_has_a_page_per_group() {
    let pages = match help(&bot(), None, "ada") {
        Reply::Pages(pages) => pages,
        other => panic!("not pages: {:?}", other),
    };
    assert_eq!(pages.len(), 2);
    assert_eq!(pages[0].title, "Help for: /help `command*` (Page: 1/2)");
    assert_eq!(pages[0].description, "Help for help. Second line.");
    assert_eq!(pages[0].fields, vec![]);
    assert_eq!(
        pages[1],
        Embed {
            title: "Help for: /role  (Page: 2/2)".to_string(),
            description: "Help for role. Second line.".to_string(),
            thumbnail: None,
            fields: vec![
                EmbedField { name: "/role add `role` `emote`".to_string(), value: "About role add".to_string(), inline: false },
                EmbedField { name: "/role secret ".to_string(), value: "About role secret".to_string(), inline: false },
                EmbedField { name: "/role remove `role`".to_string(), value: "About role remove".to_string(), inline: false },
            ],
            footer: "Optional parameters marked with *. Requsted by ada.".to_string(),
        }
    );
    assert_eq!(help(&Vec::new(), None, "ada"), Reply::Pages(vec![]));
}

#[test]
fn help_embeds_from_given_descriptions() {
    let mut plain = command("ping", false, vec![]);
    plain.guild_only = false;
    plain.description = None;
    let single = command_help(&plain, "-".to_string(), "ada");
    assert_eq!(single.title, "Help for: /ping ");
    assert_eq!(single.description, "-");
    assert_eq!(single.fields[1].value, "false");
    let mut shy = command("shy", false, vec![]);
    shy.description = None;
    let group = CommandGroup { command: command("top", false, vec![]), subcommands: vec![shy] };
    let page = group_help(&group, 4, 9, "text".to_string(), "ada");
    assert_eq!(page.title, "Help for: /top  (Page: 5/9)");
    assert_eq!(page.fields, vec![EmbedField { name: "/shy ".to_string(), value: "-".to_string(), inline: false }]);
}
