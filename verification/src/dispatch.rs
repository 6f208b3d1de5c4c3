//! The dispatcher: finds the command, runs its handler, and words what went
//! wrong for the user.

use vstd::prelude::*;
use vstd::string::*;
use crate::command::{
    CommandContext, CommandError, CommandModel, CommandTable, ErrorModel, Handler, lookup,
};
use crate::commands::{
    advance, device_begin, device_cmd, exit_cmd, farewell, help_cmd, help_lines, next_devices,
    next_turn, record_begin, record_cmd,
};
use crate::controller::{DeviceModel, GoPro};
use crate::line::{split_line, words};
use crate::session::{Flow, FlowModel, Reply, Turn, TurnModel, Wait, WaitModel, done};

verus! {

/// A command that waits for the shell: what it waits for, and its usage text
/// for the case that it ends on a syntax error.
#[derive(Debug, PartialEq, Eq)]
pub struct Suspension {
    pub usage: String,
    pub wait: Wait,
}

/// What a `Suspension` stands for in contracts.
pub struct SuspensionModel {
    pub usage: Seq<char>,
    pub wait: WaitModel,
}

impl DeepView for Suspension {
    type V = SuspensionModel;

    open spec fn deep_view(&self) -> SuspensionModel {
        SuspensionModel { usage: self.usage@, wait: self.wait.deep_view() }
    }
}

/// What the shell does once it has printed a report's lines.
#[derive(Debug, PartialEq, Eq)]
pub enum Next {
    /// Read the next line.
    Prompt,
    /// Do the work that the command waits for, then resume it.
    Perform(Suspension),
    /// End.
    Exit,
}

/// What a `Next` stands for in contracts.
pub enum NextModel {
    Prompt,
    Perform(SuspensionModel),
    Exit,
}

impl DeepView for Next {
    type V = NextModel;

    open spec fn deep_view(&self) -> NextModel {
        match self {
            Next::Prompt => NextModel::Prompt,
            Next::Perform(suspension) => NextModel::Perform(suspension.deep_view()),
            Next::Exit => NextModel::Exit,
        }
    }
}

/// What the dispatcher hands to the shell: the lines to print, and what to
/// do then.
#[derive(Debug, PartialEq, Eq)]
pub struct Report {
    pub lines: Vec<String>,
    pub next: Next,
}

/// What a `Report` stands for in contracts.
pub struct ReportModel {
    pub lines: Seq<Seq<char>>,
    pub next: NextModel,
}

impl DeepView for Report {
    type V = ReportModel;

    open spec fn deep_view(&self) -> ReportModel {
        ReportModel { lines: self.lines.deep_view(), next: self.next.deep_view() }
    }
}

/// The line that answers a name that no command has.
pub open spec fn not_found() -> Seq<char> {
    "Command not found, use 'help' to list all commands!"@
}

/// The line that answers a syntax error of the command with this usage.
pub open spec fn wrong_syntax(usage: Seq<char>) -> Seq<char> {
    "Wrong syntax, use: "@ + usage
}

/// The report of a handler's step. A syntax error adds the usage line, a
/// failure adds its message as it is, and success adds nothing.
pub open spec fn settled(usage: Seq<char>, turn: TurnModel) -> ReportModel {
    match turn.flow {
        FlowModel::Finished(Ok(_)) => ReportModel { lines: turn.lines, next: NextModel::Prompt },
        FlowModel::Finished(Err(ErrorModel::Syntax)) => ReportModel {
            lines: turn.lines.push(wrong_syntax(usage)),
            next: NextModel::Prompt,
        },
        FlowModel::Finished(Err(ErrorModel::ExecutionFailed(message))) => ReportModel {
            lines: turn.lines.push(message),
            next: NextModel::Prompt,
        },
        FlowModel::Waiting(wait) => ReportModel {
            lines: turn.lines,
            next: NextModel::Perform(SuspensionModel { usage, wait }),
        },
        FlowModel::Quit => ReportModel { lines: turn.lines, next: NextModel::Exit },
    }
}

/// The first step of the handler of `command`.
pub open spec fn begun(
    command: CommandModel,
    table: Seq<CommandModel>,
    args: Seq<Seq<char>>,
    devices: Seq<DeviceModel>,
) -> TurnModel {
    match command.handler {
        Handler::Help => done(help_lines(table)),
        Handler::Device => device_begin(args, devices),
        Handler::Record => record_begin(args, devices),
        Handler::Exit => farewell(),
    }
}

/// The report of the line `name args..`: that of the first command that
/// goes by `name`, or the line that says that there is none.
pub open spec fn executed(
    table: Seq<CommandModel>,
    name: Seq<char>,
    args: Seq<Seq<char>>,
    devices: Seq<DeviceModel>,
) -> ReportModel {
    match lookup(table, name) {
        Some(i) => settled(table[i].usage, begun(table[i], table, args, devices)),
        None => ReportModel { lines: seq![not_found()], next: NextModel::Prompt },
    }
}

/// The report of a handler's step.
pub fn settle(usage: &str, turn: Turn) -> (report: Report)
    ensures
        report.deep_view() == settled(usage@, turn.deep_view()),
{
    let Turn { lines, flow } = turn;
    let mut lines = lines;
    match flow {
        Flow::Finished(Ok(_)) => Report { lines, next: Next::Prompt },
        Flow::Finished(Err(CommandError::Syntax)) => {
            let mut message = String::from_str("Wrong syntax, use: ");
            message.append(usage);
            let ghost before = lines.deep_view();
            lines.push(message);
            assert(lines.deep_view() =~= before.push(message@));
            Report { lines, next: Next::Prompt }
        },
        Flow::Finished(Err(CommandError::ExecutionFailed(message))) => {
            let ghost before = lines.deep_view();
            lines.push(message);
            assert(lines.deep_view() =~= before.push(message@));
            Report { lines, next: Next::Prompt }
        },
        Flow::Waiting(wait) => Report {
            lines,
            next: Next::Perform(Suspension { usage: String::from_str(usage), wait }),
        },
        Flow::Quit => Report { lines, next: Next::Exit },
    }
}

/// Runs the line `name args..`. The command is looked up by `name`, whatever
/// the case of its letters; an unknown name is answered with one line and
/// nothing else happens. The first step of a handler leaves the registry as
/// it is.
pub fn execute(table: &CommandTable, name: &str, args: &Vec<String>, devices: &mut Vec<GoPro>) -> (report:
    Report)
    ensures
        report.deep_view() == executed(
            table.deep_view(),
            name@,
            args.deep_view(),
            old(devices).deep_view(),
        ),
        final(devices).deep_view() == old(devices).deep_view(),
{
    match table.position(name) {
        None => {
            let mut lines: Vec<String> = Vec::new();
            lines.push(String::from_str("Command not found, use 'help' to list all commands!"));
            assert(lines.deep_view() =~= seq![not_found()]);
            Report { lines, next: Next::Prompt }
        },
        Some(i) => {
            let command = &table.commands[i];
            assert(table.deep_view()[i as int] == command.deep_view());
            let context = CommandContext { command_name: name, args, devices, command_table: table };
            let turn = match command.handler {
                Handler::Help => help_cmd(context),
                Handler::Device => device_cmd(context),
                Handler::Record => record_cmd(context),
                Handler::Exit => exit_cmd(context),
            };
            settle(command.usage.as_str(), turn)
        },
    }
}

/// The report of an input line: its first word is the command's name, the
/// words after it are the arguments. A line without words is answered with
/// nothing.
pub open spec fn line_executed(
    table: Seq<CommandModel>,
    line: Seq<char>,
    devices: Seq<DeviceModel>,
) -> ReportModel {
    if words(line).len() == 0 {
        ReportModel { lines: Seq::empty(), next: NextModel::Prompt }
    } else {
        executed(table, words(line)[0], words(line).drop_first(), devices)
    }
}

/// Runs an input line. The registry stays as it is.
pub fn execute_line(table: &CommandTable, line: &str, devices: &mut Vec<GoPro>) -> (report: Report)
    ensures
        report.deep_view() == line_executed(table.deep_view(), line@, old(devices).deep_view()),
        final(devices).deep_view() == old(devices).deep_view(),
{
    let mut found = split_line(line);
    if found.len() == 0 {
        assert(found.deep_view() =~= Seq::<Seq<char>>::empty());
        return Report { lines: found, next: Next::Prompt };
    }
    let ghost all = found.deep_view();
    let name = found.remove(0);
    assert(name@ == all[0]);
    assert(found.deep_view() =~= all.drop_first());
    execute(table, name.as_str(), &found, devices)
}

/// Goes on with a command that waited, now that the shell has `reply`.
pub fn resume(suspension: Suspension, reply: Reply, devices: &mut Vec<GoPro>) -> (report: Report)
    ensures
        report.deep_view() == settled(
            suspension.usage@,
            next_turn(suspension.wait.deep_view(), reply.deep_view(), old(devices).deep_view()),
        ),
        final(devices).deep_view() == next_devices(
            suspension.wait.deep_view(),
            reply.deep_view(),
            old(devices).deep_view(),
        ),
{
    let Suspension { usage, wait } = suspension;
    let turn = advance(wait, reply, devices);
    settle(usage.as_str(), turn)
}

} // verus!
