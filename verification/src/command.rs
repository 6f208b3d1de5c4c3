//! The command table: the commands the shell knows, and how one is found.

use vstd::prelude::*;
use vstd::string::*;
use crate::controller::GoPro;
use crate::text::{
    all_distinct, eq_ignore_case, first_index, has_name, lemma_first_index, same_name,
};

verus! {

/// Why a command did not run to its end.
#[derive(Debug, PartialEq, Eq)]
pub enum CommandError {
    /// The arguments are missing or malformed.
    Syntax,
    /// The arguments are in order, but the command could not do its work.
    ExecutionFailed(String),
}

/// What a `CommandError` stands for in contracts.
pub enum ErrorModel {
    Syntax,
    ExecutionFailed(Seq<char>),
}

impl DeepView for CommandError {
    type V = ErrorModel;

    open spec fn deep_view(&self) -> ErrorModel {
        match self {
            CommandError::Syntax => ErrorModel::Syntax,
            CommandError::ExecutionFailed(message) => ErrorModel::ExecutionFailed(message@),
        }
    }
}

/// What a handler ends in.
pub type CommandResult = Result<(), CommandError>;

/// What a `CommandResult` stands for in contracts.
pub open spec fn result_model(result: CommandResult) -> Result<(), ErrorModel> {
    match result {
        Ok(_) => Ok(()),
        Err(error) => Err(error.deep_view()),
    }
}

/// The handlers of the shell: a closed set, one per built-in command.
#[derive(Clone, Copy, Debug, PartialEq, Eq, Structural)]
pub enum Handler {
    Help,
    Device,
    Record,
    Exit,
}

/// A command of the shell. It does not change once it is in the table.
#[derive(Debug)]
pub struct Command {
    pub name: String,
    pub usage: String,
    pub description: String,
    pub handler: Handler,
}

/// What a `Command` stands for in contracts.
pub struct CommandModel {
    pub name: Seq<char>,
    pub usage: Seq<char>,
    pub description: Seq<char>,
    pub handler: Handler,
}

impl DeepView for Command {
    type V = CommandModel;

    open spec fn deep_view(&self) -> CommandModel {
        CommandModel {
            name: self.name@,
            usage: self.usage@,
            description: self.description@,
            handler: self.handler,
        }
    }
}

/// The commands of the shell in the order of their registration.
#[derive(Debug)]
pub struct CommandTable {
    pub commands: Vec<Command>,
}

impl DeepView for CommandTable {
    type V = Seq<CommandModel>;

    open spec fn deep_view(&self) -> Seq<CommandModel> {
        self.commands.deep_view()
    }
}

/// The names of a table's commands, in table order.
pub open spec fn command_names(table: Seq<CommandModel>) -> Seq<Seq<char>> {
    Seq::new(table.len(), |i: int| table[i].name)
}

/// The table's invariant: no two commands share a normalized name.
pub open spec fn table_wf(table: Seq<CommandModel>) -> bool {
    all_distinct(command_names(table))
}

/// The command that a lookup of `name` arrives at: the first one whose name
/// is `name` up to the case of its letters.
pub open spec fn lookup(table: Seq<CommandModel>, name: Seq<char>) -> Option<int> {
    if has_name(command_names(table), name) {
        Some(first_index(command_names(table), name))
    } else {
        None
    }
}

/// `table` with `command` at its end, unless a command of that name is in
/// it already.
pub open spec fn with_command(table: Seq<CommandModel>, command: CommandModel) -> Seq<
    CommandModel,
> {
    if has_name(command_names(table), command.name) {
        table
    } else {
        table.push(command)
    }
}

/// The built-in command that `handler` serves.
pub open spec fn builtin(handler: Handler) -> CommandModel {
    match handler {
        Handler::Help => CommandModel {
            name: "help"@,
            usage: "help"@,
            description: "List all commands"@,
            handler,
        },
        Handler::Device => CommandModel {
            name: "device"@,
            usage: "device <list, add, remove, scan> <device>"@,
            description: "Manage the connected devices"@,
            handler,
        },
        Handler::Record => CommandModel {
            name: "record"@,
            usage: "record <start, stop> <device | all>"@,
            description: "Start or stop recording"@,
            handler,
        },
        Handler::Exit => CommandModel {
            name: "exit"@,
            usage: "exit"@,
            description: "Leave the shell"@,
            handler,
        },
    }
}

/// The four built-in commands in the order of their registration.
pub open spec fn builtins() -> Seq<CommandModel> {
    seq![
        builtin(Handler::Help),
        builtin(Handler::Device),
        builtin(Handler::Record),
        builtin(Handler::Exit),
    ]
}

/// `table` after the registration of the built-in commands.
pub open spec fn registered(table: Seq<CommandModel>) -> Seq<CommandModel> {
    with_command(
        with_command(
            with_command(with_command(table, builtin(Handler::Help)), builtin(Handler::Device)),
            builtin(Handler::Record),
        ),
        builtin(Handler::Exit),
    )
}

impl Command {
    /// The built-in command that `handler` serves.
    pub fn builtin(handler: Handler) -> (command: Command)
        ensures
            command.deep_view() == builtin(handler),
    {
        match handler {
            Handler::Help => Command {
                name: String::from_str("help"),
                usage: String::from_str("help"),
                description: String::from_str("List all commands"),
                handler,
            },
            Handler::Device => Command {
                name: String::from_str("device"),
                usage: String::from_str("device <list, add, remove, scan> <device>"),
                description: String::from_str("Manage the connected devices"),
                handler,
            },
            Handler::Record => Command {
                name: String::from_str("record"),
                usage: String::from_str("record <start, stop> <device | all>"),
                description: String::from_str("Start or stop recording"),
                handler,
            },
            Handler::Exit => Command {
                name: String::from_str("exit"),
                usage: String::from_str("exit"),
                description: String::from_str("Leave the shell"),
                handler,
            },
        }
    }
}

impl CommandTable {
    /// A table without commands.
    pub fn new() -> (table: Self)
        ensures
            table.deep_view() == Seq::<CommandModel>::empty(),
    {
        let table = CommandTable { commands: Vec::new() };
        assert(table.deep_view() =~= Seq::<CommandModel>::empty());
        table
    }

    /// The place of the command that a lookup of `name` arrives at.
    pub fn position(&self, name: &str) -> (found: Option<usize>)
        ensures
            match found {
                Some(i) => lookup(self.deep_view(), name@) == Some(i as int) && i
                    < self.commands.len(),
                None => lookup(self.deep_view(), name@) is None,
            },
    {
        let ghost names = command_names(self.deep_view());
        let mut i: usize = 0;
        while i < self.commands.len()
            invariant
                i <= self.commands.len(),
                names == command_names(self.deep_view()),
                forall|j: int| 0 <= j < i ==> !same_name(#[trigger] names[j], name@),
            decreases self.commands.len() - i,
        {
            assert(names[i as int] == self.commands[i as int].name@);
            if eq_ignore_case(self.commands[i].name.as_str(), name) {
                proof {
                    lemma_first_index(names, name@, i as int);
                }
                return Some(i);
            }
            i += 1;
        }
        None
    }

    /// The first command whose name is `name` up to the case of its letters.
    pub fn find_by_name(&self, name: &str) -> (found: Option<&Command>)
        ensures
            match lookup(self.deep_view(), name@) {
                Some(i) => 0 <= i < self.commands.len() && found == Some(&self.commands[i]),
                None => found is None,
            },
    {
        match self.position(name) {
            Some(i) => Some(&self.commands[i]),
            None => None,
        }
    }

    /// Puts `command` at the end of the table, unless a command of that name
    /// is in it already; says whether it went in.
    pub fn add(&mut self, command: Command) -> (added: bool)
        ensures
            added == !has_name(command_names(old(self).deep_view()), command.name@),
            final(self).deep_view() == with_command(old(self).deep_view(), command.deep_view()),
    {
        match self.position(command.name.as_str()) {
            Some(_) => false,
            None => {
                self.commands.push(command);
                assert(self.deep_view() =~= old(self).deep_view().push(command.deep_view()));
                true
            },
        }
    }
}

/// Puts the four built-in commands into `table`, each unless its name is
/// taken.
pub fn register(table: &mut CommandTable)
    ensures
        final(table).deep_view() == registered(old(table).deep_view()),
{
    table.add(Command::builtin(Handler::Help));
    table.add(Command::builtin(Handler::Device));
    table.add(Command::builtin(Handler::Record));
    table.add(Command::builtin(Handler::Exit));
}

/// What a handler is given: the name the command was called by, its
/// arguments, the device registry and the command table. It lives for one
/// call.
pub struct CommandContext<'a> {
    pub command_name: &'a str,
    pub args: &'a Vec<String>,
    pub devices: &'a mut Vec<GoPro>,
    pub command_table: &'a CommandTable,
}

} // verus!
