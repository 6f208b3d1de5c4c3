//! The handlers of the built-in commands.
//!
//! A handler's first step is its `_cmd` function. Where that step ends in
//! `Flow::Waiting`, the shell does the work and calls `advance` with its
//! reply, until the command is over.

use vstd::prelude::*;
use vstd::string::*;
use crate::command::{Command, CommandContext, CommandModel};
use crate::controller::{DeviceModel, GoPro, device_names, find_device, holds_name};
use crate::session::{
    Flow, FlowModel, Reply, ReplyModel, Turn, TurnModel, Wait, WaitModel, done, failed, misused,
    waiting,
};
use crate::text::{
    bool_text, bool_word, centered, contains_name, first_index, has_name, lemma_first_index,
    pad_center, pad_right, padded_right, text_eq,
};

verus! {

/// The length of the longest of `texts`; 0 where there is none.
pub open spec fn widest(texts: Seq<Seq<char>>) -> nat
    decreases texts.len(),
{
    if texts.len() == 0 {
        0
    } else {
        let rest = widest(texts.drop_last());
        if texts.last().len() > rest {
            texts.last().len()
        } else {
            rest
        }
    }
}

/// The usage texts of a table's commands, in table order.
pub open spec fn usages(table: Seq<CommandModel>) -> Seq<Seq<char>> {
    Seq::new(table.len(), |i: int| table[i].usage)
}

/// A line that sets `title` off as the head of what follows.
pub open spec fn banner(title: Seq<char>) -> Seq<char> {
    "----------- ["@ + title + "] -----------"@
}

/// The line that opens the help text.
pub open spec fn help_header() -> Seq<char> {
    banner("HELP"@)
}

/// A command's line of the help text: its usage in a column of `width`
/// characters, then its description.
pub open spec fn help_row(command: CommandModel, width: nat) -> Seq<char> {
    padded_right(command.usage, width) + " - "@ + command.description
}

/// The help text of the first `count` commands of a table, in a column of `width`.
pub open spec fn help_rows(table: Seq<CommandModel>, count: nat, width: nat) -> Seq<Seq<char>> {
    Seq::new(count, |i: int| help_row(table[i], width))
}

/// The help text: the header, one line per command in table order with the
/// usage column as wide as the longest usage, and an empty line.
pub open spec fn help_lines(table: Seq<CommandModel>) -> Seq<Seq<char>> {
    seq![help_header()] + help_rows(table, table.len(), widest(usages(table))) + seq![
        Seq::<char>::empty(),
    ]
}

/// The two columns of the device table.
pub open spec fn list_row(left: Seq<char>, right: Seq<char>) -> Seq<char> {
    centered(left, 15) + " | "@ + centered(right, 10)
}

/// The head of the device table.
pub open spec fn list_header() -> Seq<Seq<char>> {
    seq![list_row("Device Name"@, "Recording"@), "----------------+----------------"@]
}

/// The lines that tell what a scan found.
pub open spec fn scan_lines(names: Seq<Seq<char>>) -> Seq<Seq<char>> {
    seq!["Found nearby gopros:"@] + Seq::new(names.len(), |i: int| "- "@ + names[i])
}

/// The first step of `device`, by its sub-command.
pub open spec fn device_begin(args: Seq<Seq<char>>, devices: Seq<DeviceModel>) -> TurnModel {
    if args.len() == 0 {
        misused()
    } else if args[0] == "list"@ {
        if devices.len() == 0 {
            failed("No devices connected"@)
        } else {
            waiting(list_header(), WaitModel::Status(0))
        }
    } else if args[0] == "add"@ {
        if args.len() < 2 {
            misused()
        } else if holds_name(devices, args[1]) {
            failed("Device already connected"@)
        } else {
            waiting(Seq::empty(), WaitModel::ScanToAdd(args[1]))
        }
    } else if args[0] == "remove"@ {
        done(seq!["Unimplemented"@])
    } else if args[0] == "scan"@ {
        waiting(seq!["Scanning, this may take some time.."@], WaitModel::ScanToList)
    } else {
        misused()
    }
}

/// The first step of `record`, by its mode and its target.
pub open spec fn record_begin(args: Seq<Seq<char>>, devices: Seq<DeviceModel>) -> TurnModel {
    if args.len() < 2 {
        misused()
    } else if args[0] != "start"@ && args[0] != "stop"@ {
        misused()
    } else if args[1] == "all"@ {
        if devices.len() == 0 {
            done(Seq::empty())
        } else {
            waiting(
                Seq::empty(),
                WaitModel::Shutter { index: 0, on: args[0] == "start"@, all: true },
            )
        }
    } else if !holds_name(devices, args[1]) {
        failed("Cannot find device with given name"@)
    } else {
        waiting(
            Seq::empty(),
            WaitModel::Shutter {
                index: first_index(device_names(devices), args[1]) as nat,
                on: args[0] == "start"@,
                all: false,
            },
        )
    }
}

/// The step after a reply that does not answer what the handler waits for.
pub open spec fn out_of_step() -> TurnModel {
    failed("Unexpected reply from the device link"@)
}

/// The step after a reply about a place that the registry does not have.
pub open spec fn no_such_device() -> TurnModel {
    failed("No such device in the registry"@)
}

/// The step of a handler that waited and has its reply.
pub open spec fn next_turn(wait: WaitModel, reply: ReplyModel, devices: Seq<DeviceModel>) -> TurnModel {
    match reply {
        ReplyModel::Failed(message) => failed(message),
        ReplyModel::Scanned(names) => match wait {
            WaitModel::ScanToList => if names.len() == 0 {
                failed("No nearby gopros found.."@)
            } else {
                done(scan_lines(names))
            },
            WaitModel::ScanToAdd(name) => if has_name(names, name) {
                waiting(Seq::empty(), WaitModel::Connect(name))
            } else {
                failed("Cannot find gopro with given name"@)
            },
            _ => out_of_step(),
        },
        ReplyModel::Connected => match wait {
            WaitModel::Connect(name) => if holds_name(devices, name) {
                failed("Device already connected"@)
            } else {
                done(Seq::empty())
            },
            _ => out_of_step(),
        },
        ReplyModel::Status(recording) => match wait {
            WaitModel::Status(index) => if index >= devices.len() {
                no_such_device()
            } else if index + 1 < devices.len() {
                waiting(
                    seq![list_row(devices[index as int].name, bool_text(recording))],
                    WaitModel::Status(index + 1),
                )
            } else {
                done(seq![list_row(devices[index as int].name, bool_text(recording))])
            },
            _ => out_of_step(),
        },
        ReplyModel::ShutterSet => match wait {
            WaitModel::Shutter { index, on, all } => if index >= devices.len() {
                no_such_device()
            } else if all && index + 1 < devices.len() {
                waiting(Seq::empty(), WaitModel::Shutter { index: index + 1, on, all })
            } else {
                done(Seq::empty())
            },
            _ => out_of_step(),
        },
    }
}

/// The registry after a handler that waited has its reply: a confirmed
/// connection puts a device that is not recording at the end, a confirmed
/// shutter sets one device's recording state, and nothing else changes it.
pub open spec fn next_devices(wait: WaitModel, reply: ReplyModel, devices: Seq<DeviceModel>) -> Seq<
    DeviceModel,
> {
    match reply {
        ReplyModel::Connected => match wait {
            WaitModel::Connect(name) => if holds_name(devices, name) {
                devices
            } else {
                devices.push(DeviceModel { name, recording: false })
            },
            _ => devices,
        },
        ReplyModel::ShutterSet => match wait {
            WaitModel::Shutter { index, on, all } => if index >= devices.len() {
                devices
            } else {
                devices.update(
                    index as int,
                    DeviceModel { name: devices[index as int].name, recording: on },
                )
            },
            _ => devices,
        },
        _ => devices,
    }
}

/// A device joins the registry on this reply: a connection is confirmed to
/// a handler that waits for it, and no device goes by the name yet.
pub open spec fn joins(wait: WaitModel, reply: ReplyModel, devices: Seq<DeviceModel>) -> bool {
    &&& reply is Connected
    &&& wait matches WaitModel::Connect(name)
    &&& !holds_name(devices, name)
}

/// Adding one text to the end changes the widest by that text alone.
proof fn lemma_widest_step(texts: Seq<Seq<char>>, i: int)
    requires
        0 <= i < texts.len(),
    ensures
        widest(texts.take(i + 1)) == if texts[i].len() > widest(texts.take(i)) {
            texts[i].len()
        } else {
            widest(texts.take(i))
        },
{
    assert(texts.take(i + 1).drop_last() =~= texts.take(i));
}

/// A line that sets `title` off as the head of what follows.
pub fn help_banner(title: &str) -> (line: String)
    ensures
        line@ == banner(title@),
{
    let mut line = String::from_str("----------- [");
    line.append(title);
    line.append("] -----------");
    line
}

/// The length of the longest usage text of `table`.
fn usage_width(table: &Vec<Command>) -> (width: usize)
    ensures
        width == widest(usages(table.deep_view())),
{
    let ghost texts = usages(table.deep_view());
    let mut width: usize = 0;
    let mut i: usize = 0;
    while i < table.len()
        invariant
            i <= table.len(),
            texts == usages(table.deep_view()),
            width == widest(texts.take(i as int)),
        decreases table.len() - i,
    {
        let n: usize = table[i].usage.as_str().unicode_len();
        proof {
            lemma_widest_step(texts, i as int);
        }
        if n > width {
            width = n;
        }
        i += 1;
    }
    assert(texts.take(i as int) =~= texts);
    width
}

/// `help`: the help text. It reads the table and changes nothing.
pub fn help_cmd(context: CommandContext<'_>) -> (turn: Turn)
    ensures
        turn.deep_view() == done(help_lines(context.command_table.deep_view())),
        final(context.devices).deep_view() == old(context.devices).deep_view(),
{
    let commands = &context.command_table.commands;
    let ghost table = context.command_table.deep_view();
    let width: usize = usage_width(commands);
    let mut lines: Vec<String> = Vec::new();
    lines.push(help_banner("HELP"));
    let mut i: usize = 0;
    while i < commands.len()
        invariant
            i <= commands.len(),
            table == commands.deep_view(),
            width == widest(usages(table)),
            lines.deep_view() == seq![help_header()] + help_rows(table, i as nat, width as nat),
        decreases commands.len() - i,
    {
        let mut row = pad_right(commands[i].usage.as_str(), width);
        row.append(" - ");
        row.append(commands[i].description.as_str());
        assert(table[i as int] == commands[i as int].deep_view());
        assert(row@ == help_row(table[i as int], width as nat));
        let ghost before = lines.deep_view();
        lines.push(row);
        assert(lines.deep_view() =~= before.push(row@));
        assert(lines.deep_view() =~= seq![help_header()] + help_rows(
            table,
            (i + 1) as nat,
            width as nat,
        ));
        i += 1;
    }
    lines.push(String::new());
    assert(lines.deep_view() =~= help_lines(table));
    Turn::done(lines)
}

/// A line of the device table.
fn table_row(left: &str, right: &str) -> (row: String)
    ensures
        row@ == list_row(left@, right@),
{
    let mut row = pad_center(left, 15);
    row.append(" | ");
    let cell = pad_center(right, 10);
    row.append(cell.as_str());
    row
}

/// `device`: the first step, by sub-command. `list` fails on an empty
/// registry, else it prints the head of the table and asks for the first
/// device's status. `add` needs a name that no device of the registry goes
/// by, and asks for a scan. `scan` asks for a scan. `remove` prints a
/// placeholder. The registry stays as it is.
pub fn device_cmd(context: CommandContext<'_>) -> (turn: Turn)
    ensures
        turn.deep_view() == device_begin(
            context.args.deep_view(),
            old(context.devices).deep_view(),
        ),
        final(context.devices).deep_view() == old(context.devices).deep_view(),
{
    let args = context.args;
    if args.len() == 0 {
        return Turn::misused();
    }
    let sub = args[0].as_str();
    if text_eq(sub, "list") {
        if context.devices.len() == 0 {
            return Turn::failed(String::from_str("No devices connected"));
        }
        let mut lines: Vec<String> = Vec::new();
        lines.push(table_row("Device Name", "Recording"));
        lines.push(String::from_str("----------------+----------------"));
        assert(lines.deep_view() =~= list_header());
        Turn::waiting(lines, Wait::Status(0))
    } else if text_eq(sub, "add") {
        if args.len() < 2 {
            return Turn::misused();
        }
        match find_device(context.devices, args[1].as_str()) {
            Some(i) => {
                proof {
                    lemma_first_index(
                        device_names(context.devices.deep_view()),
                        args[1]@,
                        i as int,
                    );
                }
                Turn::failed(String::from_str("Device already connected"))
            },
            None => {
                let lines: Vec<String> = Vec::new();
                assert(lines.deep_view() =~= Seq::<Seq<char>>::empty());
                Turn::waiting(lines, Wait::ScanToAdd(args[1].clone()))
            },
        }
    } else if text_eq(sub, "remove") {
        let mut lines: Vec<String> = Vec::new();
        lines.push(String::from_str("Unimplemented"));
        assert(lines.deep_view() =~= seq!["Unimplemented"@]);
        Turn::done(lines)
    } else if text_eq(sub, "scan") {
        let mut lines: Vec<String> = Vec::new();
        lines.push(String::from_str("Scanning, this may take some time.."));
        assert(lines.deep_view() =~= seq!["Scanning, this may take some time.."@]);
        Turn::waiting(lines, Wait::ScanToList)
    } else {
        Turn::misused()
    }
}

/// `record`: the first step. It needs a mode, `start` or `stop`, and a
/// target, `all` or the name of a device of the registry, and asks for the
/// first targeted device's shutter to be set. The registry stays as it is.
pub fn record_cmd(context: CommandContext<'_>) -> (turn: Turn)
    ensures
        turn.deep_view() == record_begin(
            context.args.deep_view(),
            old(context.devices).deep_view(),
        ),
        final(context.devices).deep_view() == old(context.devices).deep_view(),
{
    let args = context.args;
    if args.len() < 2 {
        return Turn::misused();
    }
    let on = text_eq(args[0].as_str(), "start");
    if !on && !text_eq(args[0].as_str(), "stop") {
        return Turn::misused();
    }
    let lines: Vec<String> = Vec::new();
    assert(lines.deep_view() =~= Seq::<Seq<char>>::empty());
    if text_eq(args[1].as_str(), "all") {
        if context.devices.len() == 0 {
            Turn::done(lines)
        } else {
            Turn::waiting(lines, Wait::Shutter { index: 0, on, all: true })
        }
    } else {
        match find_device(context.devices, args[1].as_str()) {
            Some(index) => {
                proof {
                    lemma_first_index(
                        device_names(context.devices.deep_view()),
                        args[1]@,
                        index as int,
                    );
                }
                Turn::waiting(lines, Wait::Shutter { index, on, all: false })
            },
            None => Turn::failed(String::from_str("Cannot find device with given name")),
        }
    }
}

/// `device scan` has its scan: the names found, or a failure where there are
/// none.
fn scan_listed(names: &Vec<String>) -> (turn: Turn)
    ensures
        turn.deep_view() == if names.len() == 0 {
            failed("No nearby gopros found.."@)
        } else {
            done(scan_lines(names.deep_view()))
        },
{
    if names.len() == 0 {
        return Turn::failed(String::from_str("No nearby gopros found.."));
    }
    let mut lines: Vec<String> = Vec::new();
    lines.push(String::from_str("Found nearby gopros:"));
    let mut i: usize = 0;
    while i < names.len()
        invariant
            i <= names.len(),
            lines.deep_view() == seq!["Found nearby gopros:"@] + Seq::new(
                i as nat,
                |j: int| "- "@ + names.deep_view()[j],
            ),
        decreases names.len() - i,
    {
        let mut line = String::from_str("- ");
        line.append(names[i].as_str());
        let ghost before = lines.deep_view();
        lines.push(line);
        assert(lines.deep_view() =~= before.push(line@));
        assert(lines.deep_view() =~= seq!["Found nearby gopros:"@] + Seq::new(
            (i + 1) as nat,
            |j: int| "- "@ + names.deep_view()[j],
        ));
        i += 1;
    }
    assert(lines.deep_view() =~= scan_lines(names.deep_view()));
    Turn::done(lines)
}

/// `device add` is connected: the device joins the registry, unless one of
/// its name is there by now.
fn connected(name: String, devices: &mut Vec<GoPro>) -> (turn: Turn)
    ensures
        turn.deep_view() == if holds_name(old(devices).deep_view(), name@) {
            failed("Device already connected"@)
        } else {
            done(Seq::empty())
        },
        final(devices).deep_view() == if holds_name(old(devices).deep_view(), name@) {
            old(devices).deep_view()
        } else {
            old(devices).deep_view().push(DeviceModel { name: name@, recording: false })
        },
{
    match find_device(devices, name.as_str()) {
        Some(i) => {
            proof {
                lemma_first_index(device_names(devices.deep_view()), name@, i as int);
            }
            Turn::failed(String::from_str("Device already connected"))
        },
        None => {
            devices.push(GoPro::new(name));
            assert(devices.deep_view() =~= old(devices).deep_view().push(
                DeviceModel { name: name@, recording: false },
            ));
            let lines: Vec<String> = Vec::new();
            assert(lines.deep_view() =~= Seq::<Seq<char>>::empty());
            Turn::done(lines)
        },
    }
}

/// `device list` has the status of the device at `index`: its line of the
/// table, and the next device's turn.
fn status_reported(index: usize, recording: bool, devices: &Vec<GoPro>) -> (turn: Turn)
    ensures
        turn.deep_view() == next_turn(
            WaitModel::Status(index as nat),
            ReplyModel::Status(recording),
            devices.deep_view(),
        ),
{
    if index >= devices.len() {
        return Turn::failed(String::from_str("No such device in the registry"));
    }
    let mut lines: Vec<String> = Vec::new();
    lines.push(table_row(devices[index].name.as_str(), bool_word(recording)));
    assert(lines.deep_view() =~= seq![
        list_row(devices.deep_view()[index as int].name, bool_text(recording)),
    ]);
    if index + 1 < devices.len() {
        Turn::waiting(lines, Wait::Status(index + 1))
    } else {
        Turn::done(lines)
    }
}

/// `record` has the confirmation of the device at `index`: its recording
/// state is set, and with `all` the next device follows.
fn shutter_confirmed(index: usize, on: bool, all: bool, devices: &mut Vec<GoPro>) -> (turn: Turn)
    ensures
        turn.deep_view() == next_turn(
            WaitModel::Shutter { index: index as nat, on, all },
            ReplyModel::ShutterSet,
            old(devices).deep_view(),
        ),
        final(devices).deep_view() == next_devices(
            WaitModel::Shutter { index: index as nat, on, all },
            ReplyModel::ShutterSet,
            old(devices).deep_view(),
        ),
{
    if index >= devices.len() {
        return Turn::failed(String::from_str("No such device in the registry"));
    }
    devices[index].set_recording(on);
    assert(devices.deep_view() =~= old(devices).deep_view().update(
        index as int,
        DeviceModel { name: old(devices).deep_view()[index as int].name, recording: on },
    ));
    let lines: Vec<String> = Vec::new();
    assert(lines.deep_view() =~= Seq::<Seq<char>>::empty());
    if all && index + 1 < devices.len() {
        Turn::waiting(lines, Wait::Shutter { index: index + 1, on, all })
    } else {
        Turn::done(lines)
    }
}

/// Whether `advance` on this reply puts a device into the registry, so that
/// the connection behind the reply is one to keep.
pub fn takes_up(wait: &Wait, reply: &Reply, devices: &Vec<GoPro>) -> (taken: bool)
    ensures
        taken == joins(wait.deep_view(), reply.deep_view(), devices.deep_view()),
        taken == (next_devices(wait.deep_view(), reply.deep_view(), devices.deep_view()).len()
            == devices.len() + 1),
{
    match reply {
        Reply::Connected => match wait {
            Wait::Connect(name) => match find_device(devices, name.as_str()) {
                Some(i) => {
                    proof {
                        lemma_first_index(device_names(devices.deep_view()), name@, i as int);
                    }
                    false
                },
                None => true,
            },
            _ => false,
        },
        _ => false,
    }
}

/// The next step of a handler that waited for `wait` and is handed `reply`.
/// A failure of the radio work ends the command with the failure's text; a
/// reply that does not answer `wait` ends it too. The registry changes only
/// where a connection or a shutter is confirmed.
pub fn advance(wait: Wait, reply: Reply, devices: &mut Vec<GoPro>) -> (turn: Turn)
    ensures
        turn.deep_view() == next_turn(
            wait.deep_view(),
            reply.deep_view(),
            old(devices).deep_view(),
        ),
        final(devices).deep_view() == next_devices(
            wait.deep_view(),
            reply.deep_view(),
            old(devices).deep_view(),
        ),
{
    match reply {
        Reply::Failed(message) => Turn::failed(message),
        Reply::Scanned(names) => match wait {
            Wait::ScanToList => scan_listed(&names),
            Wait::ScanToAdd(name) => {
                if contains_name(&names, name.as_str()) {
                    let lines: Vec<String> = Vec::new();
                    assert(lines.deep_view() =~= Seq::<Seq<char>>::empty());
                    Turn::waiting(lines, Wait::Connect(name))
                } else {
                    Turn::failed(String::from_str("Cannot find gopro with given name"))
                }
            },
            _ => Turn::failed(String::from_str("Unexpected reply from the device link")),
        },
        Reply::Connected => match wait {
            Wait::Connect(name) => connected(name, devices),
            _ => Turn::failed(String::from_str("Unexpected reply from the device link")),
        },
        Reply::Status(recording) => match wait {
            Wait::Status(index) => status_reported(index, recording, devices),
            _ => Turn::failed(String::from_str("Unexpected reply from the device link")),
        },
        Reply::ShutterSet => match wait {
            Wait::Shutter { index, on, all } => shutter_confirmed(index, on, all, devices),
            _ => Turn::failed(String::from_str("Unexpected reply from the device link")),
        },
    }
}

/// The step of `exit`: a farewell, and the shell is to end.
pub open spec fn farewell() -> TurnModel {
    TurnModel { lines: seq!["Goodbye!"@], flow: FlowModel::Quit }
}

/// `exit`: a farewell, and the shell is to end.
pub fn exit_cmd(context: CommandContext<'_>) -> (turn: Turn)
    ensures
        turn.deep_view() == farewell(),
        final(context.devices).deep_view() == old(context.devices).deep_view(),
{
    let mut lines: Vec<String> = Vec::new();
    lines.push(String::from_str("Goodbye!"));
    assert(lines.deep_view() =~= seq!["Goodbye!"@]);
    Turn { lines, flow: Flow::Quit }
}

} // verus!
