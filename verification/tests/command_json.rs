use discorsd_games::interaction::{
    Command, CommandChoice, CommandDataOption, DataOption, SubCommand, SubCommandGroup, TopLevelOption,
};
use serde_json::Value;

fn assert_same_json_value(correct: &str, modeled: Command) {
    let correct: Value = serde_json::from_str(correct).unwrap();
    let modeled = modeled.to_json();
    println!("modeled = {}", modeled);
    let modeled: Value = serde_json::from_str(&modeled).unwrap();

    assert_eq!(correct, modeled);
}

#[test]
fn part1() {
    const CORRECT: &'static str = r#"{
"name": "permissions",
"description": "Get or edit permissions for a user or a role",
"options": []
}"#;
    let command2 = Command::new(
        "permissions",
        "Get or edit permissions for a user or a role",
        TopLevelOption::Empty,
    );

    assert_same_json_value(CORRECT, command2);
}

#[test]
fn part2() {
    const CORRECT: &'static str = r#"{
"name": "permissions",
"description": "Get or edit permissions for a user or a role",
"options": [
    {
        "name": "user",
        "description": "Get or edit permissions for a user",
        "type": 2
    },
    {
        "name": "role",
        "description": "Get or edit permissions for a role",
        "type": 2
    }
]
}"#;

    let command = Command::new(
        "permissions",
        "Get or edit permissions for a user or a role",
        TopLevelOption::Groups(vec![
            SubCommandGroup {
                name: "user",
                description: "Get or edit permissions for a user",
                sub_commands: vec![],
            },
            SubCommandGroup {
                name: "role",
                description: "Get or edit permissions for a role",
                sub_commands: vec![],
            }
        ]),
    );

    assert_same_json_value(CORRECT, command);
}

#[test]
fn part3() {
    const CORRECT: &'static str = r#"{
"name": "permissions",
"description": "Get or edit permissions for a user or a role",
"options": [
    {
        "name": "user",
        "description": "Get or edit permissions for a user",
        "type": 2,
        "options": [
            {
                "name": "get",
                "description": "Get permissions for a user",
                "type": 1
            },
            {
                "name": "edit",
                "description": "Edit permissions for a user",
                "type": 1
            }
        ]
    },
    {
        "name": "role",
        "description": "Get or edit permissions for a role",
        "type": 2,
        "options": [
            {
                "name": "get",
                "description": "Get permissions for a role",
                "type": 1
            },
            {
                "name": "edit",
                "description": "Edit permissions for a role",
                "type": 1
            }
        ]
    }
]
}"#;

    let command = Command::new(
        "permissions",
        "Get or edit permissions for a user or a role",
        TopLevelOption::Groups(vec![
            SubCommandGroup {
                name: "user",
                description: "Get or edit permissions for a user",
                sub_commands: vec![
                    SubCommand {
                        name: "get",
                        description: "Get permissions for a user",
                        options: vec![],
                    },
                    SubCommand {
                        name: "edit",
                        description: "Edit permissions for a user",
                        options: vec![],
                    }
                ],
            },
            SubCommandGroup {
                name: "role",
                description: "Get or edit permissions for a role",
                sub_commands: vec![
                    SubCommand {
                        name: "get",
                        description: "Get permissions for a role",
                        options: vec![],
                    },
                    SubCommand {
                        name: "edit",
                        description: "Edit permissions for a role",
                        options: vec![],
                    }
                ],
            }
        ]),
    );

    assert_same_json_value(CORRECT, command)
}

#[test]
fn part4() {
    const CORRECT: &'static str = r#"{
"name": "permissions",
"description": "Get or edit permissions for a user or a role",
"options": [
    {
        "name": "user",
        "description": "Get or edit permissions for a user",
        "type": 2,
        "options": [
            {
                "name": "get",
                "description": "Get permissions for a user",
                "type": 1,
                "options": [
                    {
                        "name": "user",
                        "description": "The user to get",
                        "type": 6,
                        "required": true
                    },
                    {
                        "name": "channel",
                        "description": "The channel permissions to get. If omitted, the guild permissions will be returned",
                        "type": 7
                    }
                ]
            },
            {
                "name": "edit",
                "description": "Edit permissions for a user",
                "type": 1,
                "options": [
                    {
                        "name": "user",
                        "description": "The user to edit",
                        "type": 6,
                        "required": true
                    },
                    {
                        "name": "channel",
                        "description": "The channel permissions to edit. If omitted, the guild permissions will be edited",
                        "type": 7
                    }
                ]
            }
        ]
    },
    {
        "name": "role",
        "description": "Get or edit permissions for a role",
        "type": 2,
        "options": [
            {
                "name": "get",
                "description": "Get permissions for a role",
                "type": 1,
                "options": [
                    {
                        "name": "role",
                        "description": "The role to get",
                        "type": 8,
                        "required": true
                    },
                    {
                        "name": "channel",
                        "description": "The channel permissions to get. If omitted, the guild permissions will be returned",
                        "type": 7
                    }
                ]
            },
            {
                "name": "edit",
                "description": "Edit permissions for a role",
                "type": 1,
                "options": [
                    {
                        "name": "role",
                        "description": "The role to edit",
                        "type": 8,
                        "required": true
                    },
                    {
                        "name": "channel",
                        "description": "The channel permissions to edit. If omitted, the guild permissions will be edited",
                        "type": 7
                    }
                ]
            }
        ]
    }
]
}"#;

    let command = Command::new(
        "permissions",
        "Get or edit permissions for a user or a role",
        TopLevelOption::Groups(vec![
            SubCommandGroup {
                name: "user",
                description: "Get or edit permissions for a user",
                sub_commands: vec![
                    SubCommand {
                        name: "get",
                        description: "Get permissions for a user",
                        options: vec![
                            DataOption::User(CommandDataOption::new(
                                "user",
                                "The user to get",
                            ).required()),
                            DataOption::Channel(CommandDataOption::new(
                                "channel",
                                "The channel permissions to get. If omitted, the guild permissions will be returned",
                            ))
                        ],
                    },
                    SubCommand {
                        name: "edit",
                        description: "Edit permissions for a user",
                        options: vec![
                            DataOption::User(CommandDataOption::new(
                                "user",
                                "The user to edit",
                            ).required()),
                            DataOption::Channel(CommandDataOption::new(
                                "channel",
                                "The channel permissions to edit. If omitted, the guild permissions will be edited",
                            ))
                        ],
                    }
                ],
            },
            SubCommandGroup {
                name: "role",
                description: "Get or edit permissions for a role",
                sub_commands: vec![
                    SubCommand {
                        name: "get",
                        description: "Get permissions for a role",
                        options: vec![
                            DataOption::Role(CommandDataOption::new(
                                "role",
                                "The role to get",
                            ).required()),
                            DataOption::Channel(CommandDataOption::new(
                                "channel",
                                "The channel permissions to get. If omitted, the guild permissions will be returned",
                            ))
                        ],
                    },
                    SubCommand {
                        name: "edit",
                        description: "Edit permissions for a role",
                        options: vec![
                            DataOption::Role(CommandDataOption::new(
                                "role",
                                "The role to edit",
                            ).required()),
                            DataOption::Channel(CommandDataOption::new(
                                "channel",
                                "The channel permissions to edit. If omitted, the guild permissions will be edited",
                            ))
                        ],
                    }
                ],
            }
        ]),
    );

    if let TopLevelOption::Groups(groups) = command.option_tree() {
        groups.iter()
            .flat_map(|g| &g.sub_commands)
            .flat_map(|c| &c.options)
            .for_each(|opt| {
                match opt {
                    DataOption::String(opt) => assert!(!opt.name().is_empty()),
                    DataOption::Integer(opt) => assert!(!opt.name().is_empty()),
                    DataOption::Boolean(opt) => assert!(!opt.name().is_empty()),
                    DataOption::User(opt) => assert!(matches!(opt.name(), "user")),
                    DataOption::Channel(opt) => assert!(matches!(opt.name(), "channel")),
                    DataOption::Role(opt) => assert!(matches!(opt.name(), "role")),
                }
            });
    }

    assert_same_json_value(CORRECT, command);
}

#[test]
fn data_options_carry_flags_and_choices() {
    let command = Command::new(
        "start",
        "Start a game",
        TopLevelOption::options(vec![
            DataOption::String(
                CommandDataOption::new_str("game", "Which game to play")
                    .required()
                    .default()
                    .choices(vec![CommandChoice::new_str("Coup"), CommandChoice::new("Hangman", "hangman")]),
            ),
            DataOption::Integer(
                CommandDataOption::new_int("rounds", "How many rounds")
                    .choices(vec![CommandChoice::new("three", 3), CommandChoice::new("minus one", -1)]),
            ),
            DataOption::Boolean(CommandDataOption::new("quiet", "Say less")),
            DataOption::User(CommandDataOption::new("host", "Who hosts")),
        ]),
    );
    let correct = r#"{
        "name": "start",
        "description": "Start a game",
        "options": [
            {"type": 3, "name": "game", "description": "Which game to play", "default": true, "required": true,
             "choices": [{"name": "Coup", "value": "Coup"}, {"name": "Hangman", "value": "hangman"}]},
            {"type": 4, "name": "rounds", "description": "How many rounds",
             "choices": [{"name": "three", "value": 3}, {"name": "minus one", "value": -1}]},
            {"type": 5, "name": "quiet", "description": "Say less"},
            {"type": 6, "name": "host", "description": "Who hosts"}
        ]
    }"#;
    assert_same_json_value(correct, command);
}

#[test]
fn descriptions_are_escaped() {
    let description = "He said \"hi\" \\ then\n\tleft\u{1}";
    let command = Command::new("say", description, TopLevelOption::empty());
    let text = command.to_json();
    assert!(text.contains("\\u0001"));
    let parsed: Value = serde_json::from_str(&text).unwrap();
    assert_eq!(parsed["description"], Value::String(description.to_string()));
    assert_eq!(parsed["name"], Value::String("say".to_string()));
    assert_eq!(parsed["options"], Value::Array(vec![]));
}

#[test]
fn empty_subcommand_lists_are_left_out() {
    let command = Command::new(
        "tools",
        "Some tools",
        TopLevelOption::Commands(vec![SubCommand { name: "ping", description: "Pong", options: vec![] }]),
    );
    assert_eq!(
        command.to_json(),
        r#"{"name":"tools","description":"Some tools","options":[{"type":1,"name":"ping","description":"Pong"}]}"#
    );
}
