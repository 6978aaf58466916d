use cmdtree::cmd::{
    CommandTreeIntermediate, CommandTreeTop, DiscordCommandDescriptor, Invocation, LogSeverity,
    OptionValue, RawCommandOptionEntry, Request, RequestError,
};
use cmdtree::discord::MessageContent;
use cmdtree::payload::{CommandKind, OptionKind, PayloadEntry};
use cmdtree::registry::{check_description_lengths, check_exhaustive, collect_descriptors};
use cmdtree::sample::{
    generate_command_descriptions, EchoRequestKind, TestRequestArgs, TestRequestKind,
};

#[test]
fn all_commands_accounted_for() {
    let command_tree = generate_command_descriptions();
    let found_commands = collect_descriptors(&command_tree);
    assert_eq!(found_commands.len(), TestRequestKind::count());
    assert!(check_exhaustive(&command_tree));
}

#[test]
fn description_not_too_long() {
    assert!(check_description_lengths::<TestRequestKind>());
}

#[test]
fn option_round_trip() {
    let entry = RawCommandOptionEntry::StringSelect {
        name: "tz",
        description: "Pick a time zone.",
        choices: vec![("UTC", "utc"), ("EST", "est")],
        required: true,
    };
    let wire = entry.to_option();
    assert_eq!(wire.kind, OptionKind::String);
    assert_eq!(wire.name, "tz");
    assert_eq!(wire.description, "Pick a time zone.");
    assert!(wire.required);
    assert_eq!(wire.choices, vec![("UTC", "utc"), ("EST", "est")]);
}

#[test]
fn plain_option_has_no_choices() {
    let entry = RawCommandOptionEntry::Integer {
        name: "count",
        description: "How many.",
        required: false,
    };
    let wire = entry.to_option();
    assert_eq!(wire.kind, OptionKind::Integer);
    assert_eq!(wire.name, "count");
    assert!(!wire.required);
    assert!(wire.choices.is_empty());
}

#[test]
fn scope_policy() {
    let complex = CommandTreeTop::<TestRequestKind>::Complex {
        name: "c",
        description: "d",
        kind: CommandKind::ChatInput,
        subcommand_groups: vec![],
        subcommands: vec![],
        opt_default_perm: None,
    };
    assert!(!complex.is_global());
    assert!(!CommandTreeTop::NakedChatInput(TestRequestKind::Ping, None).is_global());
    assert!(!CommandTreeTop::NakedUser(TestRequestKind::Ping, None).is_global());
    assert!(!CommandTreeTop::MessageContextMenu(TestRequestKind::Ping, None).is_global());
    assert!(CommandTreeTop::GlobalMessageContextMenu(TestRequestKind::Ping, None).is_global());
}

#[test]
fn redaction() {
    let report = RequestError::Internal("db timeout".to_string()).report();
    assert_eq!(report.severity, LogSeverity::Error);
    assert_eq!(report.log_reason.as_str(), "db timeout");
    let text = report.reply.text();
    assert!(!text.contains("db timeout"));
    assert_eq!(text.as_str(), "Something broke! Please contact a mod for help.");
    assert!(report.reply.restricts_mentions());
}

#[test]
fn user_error_shown_verbatim() {
    let report = RequestError::User("that channel does not exist".to_string()).report();
    assert_eq!(report.severity, LogSeverity::Warning);
    assert_eq!(report.log_reason.as_str(), "that channel does not exist");
    assert_eq!(
        report.reply,
        MessageContent::SimpleRestrictedMention("that channel does not exist".to_string())
    );
}

fn build_tree() -> CommandTreeTop<TestRequestKind> {
    CommandTreeTop::Complex {
        name: "admin",
        description: "Administrative commands.",
        kind: CommandKind::ChatInput,
        subcommand_groups: vec![CommandTreeIntermediate {
            name: "pings",
            description: "Ping things.",
            children: vec![TestRequestKind::Ping],
        }],
        subcommands: vec![TestRequestKind::Ping],
        opt_default_perm: Some(8),
    }
}

#[test]
fn deterministic_conversion() {
    let a = build_tree().into_discord_command();
    let b = build_tree().into_discord_command();
    assert_eq!(a, b);
}

#[test]
fn complex_conversion_preserves_order() {
    let payload = build_tree().into_discord_command();
    assert_eq!(payload.name, "admin");
    assert_eq!(payload.description, Some("Administrative commands."));
    assert_eq!(payload.kind, CommandKind::ChatInput);
    assert_eq!(payload.default_member_permissions, Some(8));
    let entries = payload.options.expect("children are present");
    assert_eq!(entries.len(), 2);
    match &entries[0] {
        PayloadEntry::Sub(sub) => {
            assert_eq!(sub.name, "ping");
            assert_eq!(sub.description, "Ping!");
            assert!(sub.options.is_empty());
        },
        _ => panic!("flat subcommands come first"),
    }
    match &entries[1] {
        PayloadEntry::Group(group) => {
            assert_eq!(group.name, "pings");
            assert_eq!(group.description, "Ping things.");
            assert_eq!(group.children.len(), 1);
            assert_eq!(group.children[0].name, "ping");
        },
        _ => panic!("groups come after subcommands"),
    }
}

#[test]
fn empty_children_omit_options_field() {
    let hollow = CommandTreeTop::<TestRequestKind>::Complex {
        name: "hollow",
        description: "No children.",
        kind: CommandKind::ChatInput,
        subcommand_groups: vec![],
        subcommands: vec![],
        opt_default_perm: None,
    };
    assert!(hollow.into_discord_command().options.is_none());
    let naked = CommandTreeTop::NakedChatInput(TestRequestKind::Ping, None).into_discord_command();
    assert!(naked.options.is_none());
    assert_eq!(naked.name, "ping");
    assert_eq!(naked.description, Some("Ping!"));
    assert_eq!(naked.kind, CommandKind::ChatInput);
    assert_eq!(naked.default_member_permissions, None);
}

#[test]
fn context_menu_shapes_carry_no_description() {
    let user = CommandTreeTop::NakedUser(TestRequestKind::Ping, Some(4)).into_discord_command();
    assert_eq!(user.kind, CommandKind::User);
    assert_eq!(user.description, None);
    assert_eq!(user.default_member_permissions, Some(4));
    let msg =
        CommandTreeTop::MessageContextMenu(TestRequestKind::Ping, None).into_discord_command();
    assert_eq!(msg.kind, CommandKind::Message);
    assert_eq!(msg.description, None);
    let global = CommandTreeTop::GlobalMessageContextMenu(TestRequestKind::Ping, None)
        .into_discord_command();
    assert_eq!(global.kind, CommandKind::Message);
    assert_eq!(global.description, None);
}

#[test]
fn parse_routes_known_command() {
    let inv = Invocation {
        command_name: "ping".to_string(),
        sub_names: vec![],
        options: vec![],
    };
    let req = Request::<TestRequestKind>::parse(&inv).expect("ping parses");
    assert!(matches!(req.args, TestRequestArgs::Ping));
}

#[test]
fn parse_rejects_unknown_command() {
    let inv = Invocation {
        command_name: "frobnicate".to_string(),
        sub_names: vec![],
        options: vec![(String::from("when"), OptionValue::Text("now".to_string()))],
    };
    match Request::<TestRequestKind>::parse(&inv) {
        Err(RequestError::Internal(reason)) => assert_eq!(reason.as_str(), "Unknown command."),
        _ => panic!("unknown commands are internal errors"),
    }
}

#[test]
fn duplicate_descriptor_fails_exhaustiveness() {
    let trees = vec![
        CommandTreeTop::NakedChatInput(TestRequestKind::Ping, None),
        CommandTreeTop::MessageContextMenu(TestRequestKind::Ping, None),
    ];
    assert!(!check_exhaustive(&trees));
}

#[test]
fn empty_forest_fails_exhaustiveness() {
    let trees: Vec<CommandTreeTop<TestRequestKind>> = vec![];
    assert!(!check_exhaustive(&trees));
}

#[test]
fn naked_command_carries_declared_options_in_order() {
    let payload =
        CommandTreeTop::NakedChatInput(EchoRequestKind::Echo, None).into_discord_command();
    assert_eq!(payload.name, "echo");
    assert_eq!(payload.description, Some("Repeat a line back."));
    let entries = payload.options.expect("declared options are present");
    assert_eq!(entries.len(), 2);
    match &entries[0] {
        PayloadEntry::Leaf(option) => {
            assert_eq!(option.kind, OptionKind::String);
            assert_eq!(option.name, "line");
            assert!(option.required);
            assert!(option.choices.is_empty());
        },
        _ => panic!("a naked command's options are leaf entries"),
    }
    match &entries[1] {
        PayloadEntry::Leaf(option) => {
            assert_eq!(option.kind, OptionKind::String);
            assert_eq!(option.name, "voice");
            assert!(!option.required);
            assert_eq!(option.choices, vec![("Plain", "plain"), ("Loud", "loud")]);
        },
        _ => panic!("a naked command's options are leaf entries"),
    }
}

#[test]
fn echo_set_passes_the_checks() {
    assert!(check_description_lengths::<EchoRequestKind>());
    let trees = vec![CommandTreeTop::NakedChatInput(EchoRequestKind::Echo, None)];
    assert!(check_exhaustive(&trees));
}

#[test]
fn message_content_accessors() {
    let plain = MessageContent::Simple("hello".to_string());
    assert_eq!(plain.text().as_str(), "hello");
    assert!(!plain.restricts_mentions());
    let safe = MessageContent::SimpleRestrictedMention("hi".to_string());
    assert_eq!(safe.text().as_str(), "hi");
    assert!(safe.restricts_mentions());
}
