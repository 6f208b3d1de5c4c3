use gopro_shell::command::{register, CommandTable};
use gopro_shell::controller::GoPro;
use gopro_shell::dispatch::{execute, resume, Next, Report, Suspension};
use gopro_shell::session::{Reply, Wait};

fn table() -> CommandTable {
    let mut table = CommandTable::new();
    register(&mut table);
    table
}

fn run(line: &str, devices: &mut Vec<GoPro>) -> Report {
    let mut words = line.split(' ').map(|word| word.to_string());
    let name = words.next().unwrap_or_default();
    let args: Vec<String> = words.collect();
    execute(&table(), &name, &args, devices)
}

fn suspension(report: Report) -> Suspension {
    match report.next {
        Next::Perform(suspension) => suspension,
        other => panic!("the command does not wait: {:?}", other),
    }
}

fn state(devices: &[GoPro]) -> Vec<(String, bool)> {
    devices.iter().map(|device| (device.name.clone(), device.recording)).collect()
}

#[test]
fn an_unknown_command_is_answered_with_one_line() {
    let mut devices = vec![GoPro::new("cam".to_string())];
    let report = run("foobar", &mut devices);
    assert_eq!(report.lines, vec!["Command not found, use 'help' to list all commands!"]);
    assert_eq!(report.next, Next::Prompt);
    assert_eq!(state(&devices), vec![("cam".to_string(), false)]);
}

#[test]
fn a_syntax_error_prints_the_usage() {
    let mut devices = Vec::new();
    let report = run("device", &mut devices);
    assert_eq!(
        report.lines,
        vec!["Wrong syntax, use: device <list, add, remove, scan> <device>"]
    );
    assert_eq!(report.next, Next::Prompt);
    let report = run("RECORD start", &mut devices);
    assert_eq!(report.lines, vec!["Wrong syntax, use: record <start, stop> <device | all>"]);
    let report = run("device add", &mut devices);
    assert_eq!(
        report.lines,
        vec!["Wrong syntax, use: device <list, add, remove, scan> <device>"]
    );
}

#[test]
fn a_failure_prints_its_message_as_it_is() {
    let mut devices = Vec::new();
    let report = run("device list", &mut devices);
    assert_eq!(report.lines, vec!["No devices connected"]);
    assert_eq!(report.next, Next::Prompt);
}

#[test]
fn success_prints_only_what_the_handler_printed() {
    let mut devices = Vec::new();
    let report = run("device remove cam", &mut devices);
    assert_eq!(report.lines, vec!["Unimplemented"]);
    assert_eq!(report.next, Next::Prompt);
    let report = run("record stop all", &mut devices);
    assert!(report.lines.is_empty());
    assert_eq!(report.next, Next::Prompt);
}

#[test]
fn commands_are_found_in_any_case() {
    let mut devices = Vec::new();
    for line in ["help", "HELP", "Help"] {
        let report = run(line, &mut devices);
        assert_eq!(report.lines.len(), 6);
        assert_eq!(report.lines[0], "----------- [HELP] -----------");
        assert_eq!(report.next, Next::Prompt);
    }
}

#[test]
fn exit_ends_the_shell() {
    let mut devices = Vec::new();
    let report = run("exit", &mut devices);
    assert_eq!(report.lines, vec!["Goodbye!"]);
    assert_eq!(report.next, Next::Exit);
}

#[test]
fn add_then_list_the_studio_cam() {
    let mut devices = Vec::new();

    let report = run("device list", &mut devices);
    assert_eq!(report.lines, vec!["No devices connected"]);

    let report = run("device add studio-cam", &mut devices);
    assert!(report.lines.is_empty());
    let waiting = suspension(report);
    assert_eq!(waiting.wait, Wait::ScanToAdd("studio-cam".to_string()));
    assert_eq!(waiting.usage, "device <list, add, remove, scan> <device>");

    let report = resume(waiting, Reply::Scanned(vec!["studio-cam".to_string()]), &mut devices);
    assert!(report.lines.is_empty());
    assert!(devices.is_empty());
    let waiting = suspension(report);
    assert_eq!(waiting.wait, Wait::Connect("studio-cam".to_string()));

    let report = resume(waiting, Reply::Connected, &mut devices);
    assert!(report.lines.is_empty());
    assert_eq!(report.next, Next::Prompt);
    assert_eq!(state(&devices), vec![("studio-cam".to_string(), false)]);

    let report = run("device list", &mut devices);
    assert_eq!(report.lines.len(), 2);
    let waiting = suspension(report);
    assert_eq!(waiting.wait, Wait::Status(0));
    let report = resume(waiting, Reply::Status(false), &mut devices);
    assert_eq!(report.lines, vec!["  studio-cam    |   false   "]);
    let cells: Vec<&str> = report.lines[0].split('|').map(|cell| cell.trim()).collect();
    assert_eq!(cells, vec!["studio-cam", "false"]);
    assert_eq!(report.next, Next::Prompt);
    assert_eq!(state(&devices), vec![("studio-cam".to_string(), false)]);
}

#[test]
fn a_failed_scan_ends_add_with_its_message() {
    let mut devices = Vec::new();
    let waiting = suspension(run("device add studio-cam", &mut devices));
    let report = resume(waiting, Reply::Failed("No Bluetooth Adapters".to_string()), &mut devices);
    assert_eq!(report.lines, vec!["No Bluetooth Adapters"]);
    assert_eq!(report.next, Next::Prompt);
    assert!(devices.is_empty());
}

#[test]
fn add_of_an_unseen_name_prints_that_it_cannot_be_found() {
    let mut devices = Vec::new();
    let waiting = suspension(run("device add studio-cam", &mut devices));
    let report = resume(waiting, Reply::Scanned(vec!["helmet".to_string()]), &mut devices);
    assert_eq!(report.lines, vec!["Cannot find gopro with given name"]);
    assert_eq!(report.next, Next::Prompt);
    assert!(devices.is_empty());
}

#[test]
fn scan_through_the_dispatcher() {
    let mut devices = Vec::new();
    let report = run("device scan", &mut devices);
    assert_eq!(report.lines, vec!["Scanning, this may take some time.."]);
    let waiting = suspension(report);
    let report = resume(waiting, Reply::Scanned(Vec::new()), &mut devices);
    assert_eq!(report.lines, vec!["No nearby gopros found.."]);
    assert_eq!(report.next, Next::Prompt);
    assert!(devices.is_empty());
}

#[test]
fn record_through_the_dispatcher() {
    let mut devices = vec![GoPro::new("one".to_string()), GoPro::new("two".to_string())];
    let mut report = run("record start all", &mut devices);
    let mut rounds = 0;
    while let Next::Perform(waiting) = report.next {
        report = resume(waiting, Reply::ShutterSet, &mut devices);
        rounds += 1;
    }
    assert_eq!(rounds, 2);
    assert_eq!(report.next, Next::Prompt);
    assert!(report.lines.is_empty());
    assert_eq!(state(&devices), vec![("one".to_string(), true), ("two".to_string(), true)]);
}

#[test]
fn an_empty_table_knows_no_command() {
    let mut devices = Vec::new();
    let report = execute(&CommandTable::new(), "help", &Vec::new(), &mut devices);
    assert_eq!(report.lines, vec!["Command not found, use 'help' to list all commands!"]);
}
