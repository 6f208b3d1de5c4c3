//! What passes between a handler and the shell that runs it.
//!
//! A handler cannot reach the devices itself. Where it needs radio work it
//! stops, says what it waits for, and is resumed with the shell's reply.

use vstd::prelude::*;
use vstd::string::*;
use crate::command::{CommandError, CommandResult, ErrorModel, result_model};

verus! {

/// Radio work that the shell does for a handler.
#[derive(Debug, PartialEq, Eq)]
pub enum Request {
    /// Discover the devices nearby.
    Scan,
    /// Bring up the adapter and connect to the device of this name.
    Connect(String),
    /// Ask the device at this place of the registry whether it is recording.
    QueryStatus(usize),
    /// Tell the device at this place of the registry to record, or to stop.
    SetShutter(usize, bool),
}

/// What a `Request` stands for in contracts.
pub enum RequestModel {
    Scan,
    Connect(Seq<char>),
    QueryStatus(nat),
    SetShutter(nat, bool),
}

impl DeepView for Request {
    type V = RequestModel;

    open spec fn deep_view(&self) -> RequestModel {
        match self {
            Request::Scan => RequestModel::Scan,
            Request::Connect(name) => RequestModel::Connect(name@),
            Request::QueryStatus(index) => RequestModel::QueryStatus(*index as nat),
            Request::SetShutter(index, on) => RequestModel::SetShutter(*index as nat, *on),
        }
    }
}

/// What the shell hands back when the radio work is over.
#[derive(Debug, PartialEq, Eq)]
pub enum Reply {
    /// The names that a scan found.
    Scanned(Vec<String>),
    /// The device is connected.
    Connected,
    /// The device says whether it is recording.
    Status(bool),
    /// The device has confirmed the change of its shutter.
    ShutterSet,
    /// The work failed; the text says how.
    Failed(String),
}

/// What a `Reply` stands for in contracts.
pub enum ReplyModel {
    Scanned(Seq<Seq<char>>),
    Connected,
    Status(bool),
    ShutterSet,
    Failed(Seq<char>),
}

impl DeepView for Reply {
    type V = ReplyModel;

    open spec fn deep_view(&self) -> ReplyModel {
        match self {
            Reply::Scanned(names) => ReplyModel::Scanned(names.deep_view()),
            Reply::Connected => ReplyModel::Connected,
            Reply::Status(recording) => ReplyModel::Status(*recording),
            Reply::ShutterSet => ReplyModel::ShutterSet,
            Reply::Failed(message) => ReplyModel::Failed(message@),
        }
    }
}

/// The identifier under which a camera reports whether it is encoding.
pub const ENCODING_ACTIVE: u8 = 10;

/// What a status value says of the encoding: the camera is recording when
/// the value's first byte is not zero.
pub open spec fn recording_status(value: Seq<u8>) -> bool {
    value.len() > 0 && value[0] != 0
}

/// The reply that a camera's status answer stands for: its recording state
/// where the answer is about the encoding, a failure where it is about
/// something else.
pub open spec fn status_reply(status_id: u8, value: Seq<u8>) -> ReplyModel {
    if status_id == ENCODING_ACTIVE {
        ReplyModel::Status(recording_status(value))
    } else {
        ReplyModel::Failed("The device did not report whether it is recording"@)
    }
}

impl Reply {
    /// The reply that a camera's status answer stands for, from the status
    /// that the answer is about and the value it gives.
    pub fn status(status_id: u8, value: &[u8]) -> (reply: Reply)
        ensures
            reply.deep_view() == status_reply(status_id, value@),
    {
        if status_id == ENCODING_ACTIVE {
            Reply::Status(value.len() > 0 && value[0] != 0)
        } else {
            Reply::Failed(String::from_str("The device did not report whether it is recording"))
        }
    }
}

/// Where a handler stands while the shell works for it.
#[derive(Debug, PartialEq, Eq)]
pub enum Wait {
    /// `device scan` waits for the scan.
    ScanToList,
    /// `device add` waits for the scan that must show this name.
    ScanToAdd(String),
    /// `device add` waits for the connection to this name.
    Connect(String),
    /// `device list` waits for the status of the device at this place.
    Status(usize),
    /// `record` waits for the device at `index` to confirm; with `all` the
    /// devices after it follow.
    Shutter { index: usize, on: bool, all: bool },
}

/// What a `Wait` stands for in contracts.
pub enum WaitModel {
    ScanToList,
    ScanToAdd(Seq<char>),
    Connect(Seq<char>),
    Status(nat),
    Shutter { index: nat, on: bool, all: bool },
}

impl DeepView for Wait {
    type V = WaitModel;

    open spec fn deep_view(&self) -> WaitModel {
        match self {
            Wait::ScanToList => WaitModel::ScanToList,
            Wait::ScanToAdd(name) => WaitModel::ScanToAdd(name@),
            Wait::Connect(name) => WaitModel::Connect(name@),
            Wait::Status(index) => WaitModel::Status(*index as nat),
            Wait::Shutter { index, on, all } => WaitModel::Shutter {
                index: *index as nat,
                on: *on,
                all: *all,
            },
        }
    }
}

/// The radio work that a waiting handler needs.
pub open spec fn request_for(wait: WaitModel) -> RequestModel {
    match wait {
        WaitModel::ScanToList => RequestModel::Scan,
        WaitModel::ScanToAdd(_) => RequestModel::Scan,
        WaitModel::Connect(name) => RequestModel::Connect(name),
        WaitModel::Status(index) => RequestModel::QueryStatus(index),
        WaitModel::Shutter { index, on, all } => RequestModel::SetShutter(index, on),
    }
}

impl Wait {
    /// The radio work that this handler needs.
    pub fn request(&self) -> (request: Request)
        ensures
            request.deep_view() == request_for(self.deep_view()),
    {
        match self {
            Wait::ScanToList => Request::Scan,
            Wait::ScanToAdd(_) => Request::Scan,
            Wait::Connect(name) => Request::Connect(name.clone()),
            Wait::Status(index) => Request::QueryStatus(*index),
            Wait::Shutter { index, on, all: _ } => Request::SetShutter(*index, *on),
        }
    }
}

/// How a handler's step ends.
#[derive(Debug, PartialEq, Eq)]
pub enum Flow {
    /// The command is over.
    Finished(CommandResult),
    /// The command goes on once the shell has done the work it waits for.
    Waiting(Wait),
    /// The shell is to end.
    Quit,
}

/// What a `Flow` stands for in contracts.
pub enum FlowModel {
    Finished(Result<(), ErrorModel>),
    Waiting(WaitModel),
    Quit,
}

impl DeepView for Flow {
    type V = FlowModel;

    open spec fn deep_view(&self) -> FlowModel {
        match self {
            Flow::Finished(result) => FlowModel::Finished(result_model(*result)),
            Flow::Waiting(wait) => FlowModel::Waiting(wait.deep_view()),
            Flow::Quit => FlowModel::Quit,
        }
    }
}

/// One step of a handler: the lines it wants printed, and how it ends.
#[derive(Debug, PartialEq, Eq)]
pub struct Turn {
    pub lines: Vec<String>,
    pub flow: Flow,
}

/// What a `Turn` stands for in contracts.
pub struct TurnModel {
    pub lines: Seq<Seq<char>>,
    pub flow: FlowModel,
}

impl DeepView for Turn {
    type V = TurnModel;

    open spec fn deep_view(&self) -> TurnModel {
        TurnModel { lines: self.lines.deep_view(), flow: self.flow.deep_view() }
    }
}

/// The step of a command that is over and went well, with its output.
pub open spec fn done(lines: Seq<Seq<char>>) -> TurnModel {
    TurnModel { lines, flow: FlowModel::Finished(Ok(())) }
}

/// The step of a command whose arguments are not in order.
pub open spec fn misused() -> TurnModel {
    TurnModel { lines: Seq::empty(), flow: FlowModel::Finished(Err(ErrorModel::Syntax)) }
}

/// The step of a command that could not do its work.
pub open spec fn failed(message: Seq<char>) -> TurnModel {
    TurnModel {
        lines: Seq::empty(),
        flow: FlowModel::Finished(Err(ErrorModel::ExecutionFailed(message))),
    }
}

/// The step of a command that prints `lines` and then waits.
pub open spec fn waiting(lines: Seq<Seq<char>>, wait: WaitModel) -> TurnModel {
    TurnModel { lines, flow: FlowModel::Waiting(wait) }
}

impl Turn {
    /// A command that is over and went well.
    pub fn done(lines: Vec<String>) -> (turn: Turn)
        ensures
            turn.deep_view() == done(lines.deep_view()),
    {
        Turn { lines, flow: Flow::Finished(Ok(())) }
    }

    /// A command whose arguments are not in order.
    pub fn misused() -> (turn: Turn)
        ensures
            turn.deep_view() == misused(),
    {
        let turn = Turn { lines: Vec::new(), flow: Flow::Finished(Err(CommandError::Syntax)) };
        assert(turn.lines.deep_view() =~= Seq::<Seq<char>>::empty());
        turn
    }

    /// A command that could not do its work.
    pub fn failed(message: String) -> (turn: Turn)
        ensures
            turn.deep_view() == failed(message@),
    {
        let turn = Turn {
            lines: Vec::new(),
            flow: Flow::Finished(Err(CommandError::ExecutionFailed(message))),
        };
        assert(turn.lines.deep_view() =~= Seq::<Seq<char>>::empty());
        turn
    }

    /// A command that prints `lines` and then waits.
    pub fn waiting(lines: Vec<String>, wait: Wait) -> (turn: Turn)
        ensures
            turn.deep_view() == waiting(lines.deep_view(), wait.deep_view()),
    {
        Turn { lines, flow: Flow::Waiting(wait) }
    }
}

} // verus!
