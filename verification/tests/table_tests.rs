use gopro_shell::command::{register, Command, CommandTable, Handler};

fn builtin_table() -> CommandTable {
    let mut table = CommandTable::new();
    register(&mut table);
    table
}

#[test]
fn a_new_table_is_empty() {
    let table = CommandTable::new();
    assert!(table.commands.is_empty());
    assert!(table.find_by_name("help").is_none());
    assert_eq!(table.position("help"), None);
}

#[test]
fn register_puts_in_the_four_commands_in_order() {
    let table = builtin_table();
    let names: Vec<&str> = table.commands.iter().map(|command| command.name.as_str()).collect();
    assert_eq!(names, vec!["help", "device", "record", "exit"]);
    let handlers: Vec<Handler> = table.commands.iter().map(|command| command.handler).collect();
    assert_eq!(handlers, vec![Handler::Help, Handler::Device, Handler::Record, Handler::Exit]);
    assert_eq!(table.commands[2].usage, "record <start, stop> <device | all>");
    assert_eq!(table.commands[1].usage, "device <list, add, remove, scan> <device>");
}

#[test]
fn register_twice_adds_nothing() {
    let mut table = builtin_table();
    register(&mut table);
    assert_eq!(table.commands.len(), 4);
}

#[test]
fn find_by_name_ignores_case() {
    let table = builtin_table();
    for name in ["device", "DEVICE", "Device", "dEvIcE"] {
        let found = table.find_by_name(name).expect("the command is registered");
        assert_eq!(found.name, "device");
        assert_eq!(found.handler, Handler::Device);
        assert_eq!(table.position(name), Some(1));
    }
}

#[test]
fn every_registered_name_is_found_exactly_once() {
    let table = builtin_table();
    for (place, command) in table.commands.iter().enumerate() {
        assert_eq!(table.position(&command.name), Some(place));
        assert_eq!(table.position(&command.name.to_uppercase()), Some(place));
        let matches = table
            .commands
            .iter()
            .filter(|other| other.name.eq_ignore_ascii_case(&command.name))
            .count();
        assert_eq!(matches, 1);
    }
}

#[test]
fn unknown_names_are_not_found() {
    let table = builtin_table();
    assert!(table.find_by_name("foobar").is_none());
    assert!(table.find_by_name("").is_none());
    assert!(table.find_by_name("hel").is_none());
    assert!(table.find_by_name("help ").is_none());
}

#[test]
fn add_refuses_a_taken_name() {
    let mut table = builtin_table();
    let shadow = Command {
        name: "HELP".to_string(),
        usage: "HELP".to_string(),
        description: "Another help".to_string(),
        handler: Handler::Exit,
    };
    assert!(!table.add(shadow));
    assert_eq!(table.commands.len(), 4);
    assert_eq!(table.find_by_name("HELP").unwrap().handler, Handler::Help);
    let fresh = Command {
        name: "quit".to_string(),
        usage: "quit".to_string(),
        description: "Leave the shell".to_string(),
        handler: Handler::Exit,
    };
    assert!(table.add(fresh));
    assert_eq!(table.commands.len(), 5);
    assert_eq!(table.position("QUIT"), Some(4));
}

#[test]
fn builtin_commands_carry_their_handler() {
    assert_eq!(Command::builtin(Handler::Help).name, "help");
    assert_eq!(Command::builtin(Handler::Device).name, "device");
    assert_eq!(Command::builtin(Handler::Record).name, "record");
    assert_eq!(Command::builtin(Handler::Exit).name, "exit");
    assert_eq!(Command::builtin(Handler::Exit).handler, Handler::Exit);
    assert_eq!(Command::builtin(Handler::Help).description, "List all commands");
}
