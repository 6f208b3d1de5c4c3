//! What holds of the shell as a whole: of lookups in the command table, of
//! the registry's invariant, and of whole runs of `device` and `record`.

use vstd::prelude::*;
use vstd::string::*;
use crate::command::{
    CommandModel, ErrorModel, Handler, builtin, builtins, command_names, lookup, registered,
    table_wf, with_command,
};
use crate::commands::{
    device_begin, help_header, help_lines, help_row, list_header, list_row, next_devices, next_turn,
    record_begin, scan_lines, usages, widest,
};
use crate::controller::{DeviceModel, device_names, holds_name, names_distinct};
use crate::session::{FlowModel, ReplyModel, WaitModel};
use crate::text::{
    bool_text, first_index, first_match, has_name, lemma_first_index, lemma_has_first,
    normalized, padded_right, same_name,
};

verus! {

/// How a command ends after a number of replies: all the lines it printed,
/// how its last step ended, and the registry it left.
pub struct Outcome {
    pub lines: Seq<Seq<char>>,
    pub flow: FlowModel,
    pub devices: Seq<DeviceModel>,
}

/// A handler that waits for `wait` is handed `replies` one after the other,
/// for as long as it keeps waiting. Replies that come after the command is
/// over are not read.
pub open spec fn run(wait: WaitModel, replies: Seq<ReplyModel>, devices: Seq<DeviceModel>) -> Outcome
    decreases replies.len(),
{
    if replies.len() == 0 {
        Outcome { lines: Seq::empty(), flow: FlowModel::Waiting(wait), devices }
    } else {
        let turn = next_turn(wait, replies[0], devices);
        let changed = next_devices(wait, replies[0], devices);
        match turn.flow {
            FlowModel::Waiting(next) => {
                let rest = run(next, replies.drop_first(), changed);
                Outcome { lines: turn.lines + rest.lines, flow: rest.flow, devices: rest.devices }
            },
            _ => Outcome { lines: turn.lines, flow: turn.flow, devices: changed },
        }
    }
}

/// The command `device args..` from its first step through `replies`.
pub open spec fn device_run(
    args: Seq<Seq<char>>,
    replies: Seq<ReplyModel>,
    devices: Seq<DeviceModel>,
) -> Outcome {
    let turn = device_begin(args, devices);
    match turn.flow {
        FlowModel::Waiting(wait) => {
            let rest = run(wait, replies, devices);
            Outcome { lines: turn.lines + rest.lines, flow: rest.flow, devices: rest.devices }
        },
        _ => Outcome { lines: turn.lines, flow: turn.flow, devices },
    }
}

/// The rows of the device table for the devices from place `from` on, each
/// with the status that was reported for it.
pub open spec fn status_rows(devices: Seq<DeviceModel>, statuses: Seq<bool>, from: int) -> Seq<
    Seq<char>,
> {
    Seq::new(
        (devices.len() - from) as nat,
        |i: int| list_row(devices[from + i].name, bool_text(statuses[from + i])),
    )
}

/// The status replies for `statuses`, from place `from` on.
pub open spec fn status_replies(statuses: Seq<bool>, from: int) -> Seq<ReplyModel> {
    Seq::new((statuses.len() - from) as nat, |i: int| ReplyModel::Status(statuses[from + i]))
}

/// A lookup does not tell names apart that differ in the case of their
/// letters only.
pub proof fn law_lookup_ignores_case(table: Seq<CommandModel>, a: Seq<char>, b: Seq<char>)
    requires
        same_name(a, b),
    ensures
        lookup(table, a) == lookup(table, b),
{
    let names = command_names(table);
    if has_name(names, a) {
        lemma_has_first(names, a);
        let i = first_index(names, a);
        assert(same_name(names[i], b));
        assert(first_match(names, b, i));
        lemma_first_index(names, b, i);
    } else if has_name(names, b) {
        lemma_has_first(names, b);
        let i = first_index(names, b);
        assert(same_name(names[i], a));
    }
}

/// In a table whose names are distinct, a lookup by a command's name, in
/// whatever case, arrives at that command, and no other command matches.
pub proof fn law_lookup_finds_the_one(table: Seq<CommandModel>, i: int, name: Seq<char>)
    requires
        table_wf(table),
        0 <= i < table.len(),
        same_name(table[i].name, name),
    ensures
        lookup(table, name) == Some(i),
        forall|j: int|
            0 <= j < table.len() && j != i ==> !same_name((#[trigger] table[j]).name, name),
{
    let names = command_names(table);
    assert(names[i] == table[i].name);
    assert forall|j: int| 0 <= j < table.len() && j != i implies !same_name(
        (#[trigger] table[j]).name,
        name,
    ) by {
        assert(names[j] == table[j].name);
        if j < i {
            assert(!same_name(names[j], names[i]));
        } else {
            assert(!same_name(names[i], names[j]));
        }
    }
    assert forall|j: int| 0 <= j < i implies !same_name(#[trigger] names[j], name) by {
        assert(names[j] == table[j].name);
    }
    lemma_first_index(names, name, i);
}

/// Adding a command keeps the names of a table distinct.
pub proof fn law_add_keeps_names_distinct(table: Seq<CommandModel>, command: CommandModel)
    requires
        table_wf(table),
    ensures
        table_wf(with_command(table, command)),
{
    let names = command_names(table);
    let grown = with_command(table, command);
    let grown_names = command_names(grown);
    if !has_name(names, command.name) {
        assert forall|i: int, j: int| 0 <= i < j < grown_names.len() implies !same_name(
            #[trigger] grown_names[i],
            #[trigger] grown_names[j],
        ) by {
            assert(grown_names[i] == names[i]);
            if j < names.len() {
                assert(grown_names[j] == names[j]);
            } else {
                assert(grown_names[j] == command.name);
                assert(!same_name(names[i], command.name));
            }
        }
    }
}

/// Two names whose first letters differ after normalization are not the
/// same name.
proof fn lemma_heads_differ(a: Seq<char>, b: Seq<char>)
    requires
        a.len() > 0,
        b.len() > 0,
        normalized(a)[0] != normalized(b)[0],
    ensures
        !same_name(a, b),
{
}

/// Two names of different lengths are not the same name.
proof fn lemma_lengths_differ(a: Seq<char>, b: Seq<char>)
    requires
        a.len() != b.len(),
    ensures
        !same_name(a, b),
{
    assert(normalized(a).len() != normalized(b).len());
}

/// Registration on an empty table gives the four built-in commands, in
/// their order and under distinct names.
pub proof fn law_registration()
    ensures
        registered(Seq::empty()) == builtins(),
        table_wf(builtins()),
        builtins().len() == 4,
{
    reveal_strlit("help");
    reveal_strlit("device");
    reveal_strlit("record");
    reveal_strlit("exit");
    let help = builtin(Handler::Help);
    let device = builtin(Handler::Device);
    let record = builtin(Handler::Record);
    let exit = builtin(Handler::Exit);
    lemma_lengths_differ(help.name, device.name);
    lemma_lengths_differ(help.name, record.name);
    lemma_heads_differ(help.name, exit.name);
    lemma_heads_differ(device.name, record.name);
    lemma_lengths_differ(device.name, exit.name);
    lemma_lengths_differ(record.name, exit.name);
    let t0 = Seq::<CommandModel>::empty();
    let t1 = t0.push(help);
    let t2 = t1.push(device);
    let t3 = t2.push(record);
    let t4 = t3.push(exit);
    assert(with_command(t0, help) == t1);
    assert(with_command(t1, device) == t2);
    assert(with_command(t2, record) == t3);
    assert(with_command(t3, exit) == t4);
    assert(t4 =~= builtins());
    let names = command_names(builtins());
    assert(names[0] == help.name && names[1] == device.name && names[2] == record.name
        && names[3] == exit.name);
}

/// Registration keeps the names of a table distinct.
pub proof fn law_registration_keeps_names_distinct(table: Seq<CommandModel>)
    requires
        table_wf(table),
    ensures
        table_wf(registered(table)),
{
    let t1 = with_command(table, builtin(Handler::Help));
    let t2 = with_command(t1, builtin(Handler::Device));
    let t3 = with_command(t2, builtin(Handler::Record));
    law_add_keeps_names_distinct(table, builtin(Handler::Help));
    law_add_keeps_names_distinct(t1, builtin(Handler::Device));
    law_add_keeps_names_distinct(t2, builtin(Handler::Record));
    law_add_keeps_names_distinct(t3, builtin(Handler::Exit));
}

/// In the table of the built-in commands each of the four names, in
/// whatever case, is looked up to its own command.
pub proof fn law_builtin_lookup(name: Seq<char>)
    ensures
        same_name(name, "help"@) ==> lookup(builtins(), name) == Some(0int),
        same_name(name, "device"@) ==> lookup(builtins(), name) == Some(1int),
        same_name(name, "record"@) ==> lookup(builtins(), name) == Some(2int),
        same_name(name, "exit"@) ==> lookup(builtins(), name) == Some(3int),
{
    law_registration();
    if same_name(name, "help"@) {
        law_lookup_finds_the_one(builtins(), 0, name);
    }
    if same_name(name, "device"@) {
        law_lookup_finds_the_one(builtins(), 1, name);
    }
    if same_name(name, "record"@) {
        law_lookup_finds_the_one(builtins(), 2, name);
    }
    if same_name(name, "exit"@) {
        law_lookup_finds_the_one(builtins(), 3, name);
    }
}

/// The registry's invariant holds of an empty registry, and every step of
/// every handler keeps it.
pub proof fn law_registry_names_stay_distinct(
    wait: WaitModel,
    reply: ReplyModel,
    devices: Seq<DeviceModel>,
)
    requires
        names_distinct(devices),
    ensures
        names_distinct(next_devices(wait, reply, devices)),
        names_distinct(Seq::<DeviceModel>::empty()),
{
    let names = device_names(devices);
    let changed = next_devices(wait, reply, devices);
    let changed_names = device_names(changed);
    assert forall|i: int, j: int| 0 <= i < j < changed_names.len() implies !same_name(
        #[trigger] changed_names[i],
        #[trigger] changed_names[j],
    ) by {
        if changed.len() == devices.len() {
            assert(changed_names[i] == names[i]);
            assert(changed_names[j] == names[j]);
        } else {
            assert(changed_names[i] == names[i]);
            if j < names.len() {
                assert(changed_names[j] == names[j]);
            }
        }
    }
}

/// The sub-commands of `device` are four different words.
proof fn lemma_sub_commands_differ()
    ensures
        "add"@ != "list"@,
        "remove"@ != "list"@,
        "remove"@ != "add"@,
        "scan"@ != "list"@,
        "scan"@ != "add"@,
        "scan"@ != "remove"@,
{
    reveal_strlit("list");
    reveal_strlit("add");
    reveal_strlit("remove");
    reveal_strlit("scan");
    assert("list"@.len() == 4 && "add"@.len() == 3 && "remove"@.len() == 6 && "scan"@.len() == 4);
    assert("list"@[0] == 'l' && "scan"@[0] == 's');
}

/// `device list` on an empty registry fails with "No devices connected",
/// prints nothing and asks for no radio work.
pub proof fn law_list_of_nothing_fails(args: Seq<Seq<char>>, replies: Seq<ReplyModel>)
    requires
        args.len() > 0,
        args[0] == "list"@,
    ensures
        device_run(args, replies, Seq::empty()) == (Outcome {
            lines: Seq::empty(),
            flow: FlowModel::Finished(Err(ErrorModel::ExecutionFailed("No devices connected"@))),
            devices: Seq::empty(),
        }),
{
}

/// From the device at `from` on, a status per device prints one row per
/// device, in registry order, and leaves the registry as it is.
proof fn lemma_rows_from(devices: Seq<DeviceModel>, statuses: Seq<bool>, from: int)
    requires
        statuses.len() == devices.len(),
        0 <= from < devices.len(),
    ensures
        run(WaitModel::Status(from as nat), status_replies(statuses, from), devices) == (Outcome {
            lines: status_rows(devices, statuses, from),
            flow: FlowModel::Finished(Ok(())),
            devices,
        }),
    decreases devices.len() - from,
{
    let replies = status_replies(statuses, from);
    let rows = status_rows(devices, statuses, from);
    assert(replies[0] == ReplyModel::Status(statuses[from]));
    let turn = next_turn(WaitModel::Status(from as nat), replies[0], devices);
    if from + 1 < devices.len() {
        lemma_rows_from(devices, statuses, from + 1);
        assert(replies.drop_first() =~= status_replies(statuses, from + 1));
        assert(turn.lines + status_rows(devices, statuses, from + 1) =~= rows);
    } else {
        assert(turn.lines =~= rows);
    }
}

/// `device list` on a registry that is not empty, with a status reported
/// for each device: the head of the table, then exactly one row per device
/// in registry order, each with the device's name and its reported status.
/// The command succeeds and the registry stays as it is.
pub proof fn law_list_prints_a_row_per_device(
    args: Seq<Seq<char>>,
    devices: Seq<DeviceModel>,
    statuses: Seq<bool>,
)
    requires
        args.len() > 0,
        args[0] == "list"@,
        devices.len() > 0,
        statuses.len() == devices.len(),
    ensures
        device_run(args, status_replies(statuses, 0), devices) == (Outcome {
            lines: list_header() + status_rows(devices, statuses, 0),
            flow: FlowModel::Finished(Ok(())),
            devices,
        }),
        status_rows(devices, statuses, 0).len() == devices.len(),
        forall|i: int|
            0 <= i < devices.len() ==> #[trigger] status_rows(devices, statuses, 0)[i] == list_row(
                devices[i].name,
                bool_text(statuses[i]),
            ),
{
    lemma_rows_from(devices, statuses, 0);
}

/// `device add` without a name is a syntax error, whatever the registry
/// holds and whatever a scan would find.
pub proof fn law_add_needs_a_name(
    args: Seq<Seq<char>>,
    replies: Seq<ReplyModel>,
    devices: Seq<DeviceModel>,
)
    requires
        args.len() == 1,
        args[0] == "add"@,
    ensures
        device_run(args, replies, devices) == (Outcome {
            lines: Seq::empty(),
            flow: FlowModel::Finished(Err(ErrorModel::Syntax)),
            devices,
        }),
{
    lemma_sub_commands_differ();
}

/// `device add <name>` where the scan does not show the name fails with
/// `ExecutionFailed`, asks for nothing after the scan, and leaves the
/// registry as it is.
pub proof fn law_add_of_unseen_name_fails(
    args: Seq<Seq<char>>,
    names: Seq<Seq<char>>,
    later: Seq<ReplyModel>,
    devices: Seq<DeviceModel>,
)
    requires
        args.len() >= 2,
        args[0] == "add"@,
        !has_name(names, args[1]),
    ensures
        device_run(args, seq![ReplyModel::Scanned(names)] + later, devices).flow matches FlowModel::Finished(
            Err(ErrorModel::ExecutionFailed(_)),
        ),
        device_run(args, seq![ReplyModel::Scanned(names)] + later, devices).devices == devices,
{
    lemma_sub_commands_differ();
    let replies = seq![ReplyModel::Scanned(names)] + later;
    assert(replies[0] == ReplyModel::Scanned(names));
}

/// `device add <name>` where the scan shows the name, the connection
/// succeeds and no device of the registry goes by the name: the command
/// succeeds, and the registry is what it was with one more device at its
/// end, of that name and not recording.
pub proof fn law_add_appends_one_device(
    args: Seq<Seq<char>>,
    names: Seq<Seq<char>>,
    devices: Seq<DeviceModel>,
)
    requires
        args.len() >= 2,
        args[0] == "add"@,
        has_name(names, args[1]),
        !holds_name(devices, args[1]),
    ensures
        device_run(args, seq![ReplyModel::Scanned(names), ReplyModel::Connected], devices) == (Outcome {
            lines: Seq::empty(),
            flow: FlowModel::Finished(Ok(())),
            devices: devices.push(DeviceModel { name: args[1], recording: false }),
        }),
        devices.push(DeviceModel { name: args[1], recording: false }).len() == devices.len() + 1,
{
    lemma_sub_commands_differ();
    let replies = seq![ReplyModel::Scanned(names), ReplyModel::Connected];
    assert(replies[0] == ReplyModel::Scanned(names));
    assert(replies.drop_first() =~= seq![ReplyModel::Connected]);
    let rest = replies.drop_first();
    assert(rest[0] == ReplyModel::Connected);
    let inner = run(WaitModel::Connect(args[1]), rest, devices);
    assert(inner == (Outcome {
        lines: Seq::empty(),
        flow: FlowModel::Finished(Ok(())),
        devices: devices.push(DeviceModel { name: args[1], recording: false }),
    }));
    let outer = run(WaitModel::ScanToAdd(args[1]), replies, devices);
    assert(outer.lines =~= Seq::<Seq<char>>::empty());
    assert(device_run(args, replies, devices).lines =~= Seq::<Seq<char>>::empty());
}

/// `device scan`: a scan that finds nothing fails with "No nearby gopros
/// found..", one that finds something lists what it found; either way the
/// registry stays as it is.
pub proof fn law_scan_leaves_the_registry(
    args: Seq<Seq<char>>,
    names: Seq<Seq<char>>,
    later: Seq<ReplyModel>,
    devices: Seq<DeviceModel>,
)
    requires
        args.len() > 0,
        args[0] == "scan"@,
    ensures
        device_run(args, seq![ReplyModel::Scanned(names)] + later, devices) == (Outcome {
            lines: if names.len() == 0 {
                seq!["Scanning, this may take some time.."@]
            } else {
                seq!["Scanning, this may take some time.."@] + scan_lines(names)
            },
            flow: if names.len() == 0 {
                FlowModel::Finished(Err(ErrorModel::ExecutionFailed("No nearby gopros found.."@)))
            } else {
                FlowModel::Finished(Ok(()))
            },
            devices,
        }),
{
    lemma_sub_commands_differ();
    let replies = seq![ReplyModel::Scanned(names)] + later;
    assert(replies[0] == ReplyModel::Scanned(names));
    let out = device_run(args, replies, devices);
    if names.len() == 0 {
        assert(out.lines =~= seq!["Scanning, this may take some time.."@]);
    }
}

/// The command `record args..` from its first step through `replies`.
pub open spec fn record_run(
    args: Seq<Seq<char>>,
    replies: Seq<ReplyModel>,
    devices: Seq<DeviceModel>,
) -> Outcome {
    let turn = record_begin(args, devices);
    match turn.flow {
        FlowModel::Waiting(wait) => {
            let rest = run(wait, replies, devices);
            Outcome { lines: turn.lines + rest.lines, flow: rest.flow, devices: rest.devices }
        },
        _ => Outcome { lines: turn.lines, flow: turn.flow, devices },
    }
}

/// `count` confirmations of a shutter.
pub open spec fn confirmations(count: nat) -> Seq<ReplyModel> {
    Seq::new(count, |i: int| ReplyModel::ShutterSet)
}

/// The registry with the recording state of every device from place `from`
/// on set to `on`.
pub open spec fn all_set(devices: Seq<DeviceModel>, from: int, on: bool) -> Seq<DeviceModel> {
    Seq::new(
        devices.len(),
        |i: int|
            if i >= from {
                DeviceModel { name: devices[i].name, recording: on }
            } else {
                devices[i]
            },
    )
}

/// From the device at `from` on, a confirmation per device sets every one
/// of them and prints nothing.
proof fn lemma_all_set_from(devices: Seq<DeviceModel>, from: int, on: bool)
    requires
        0 <= from < devices.len(),
    ensures
        run(
            WaitModel::Shutter { index: from as nat, on, all: true },
            confirmations((devices.len() - from) as nat),
            devices,
        ) == (Outcome {
            lines: Seq::empty(),
            flow: FlowModel::Finished(Ok(())),
            devices: all_set(devices, from, on),
        }),
    decreases devices.len() - from,
{
    let wait = WaitModel::Shutter { index: from as nat, on, all: true };
    let replies = confirmations((devices.len() - from) as nat);
    assert(replies[0] == ReplyModel::ShutterSet);
    let changed = next_devices(wait, replies[0], devices);
    let out = run(wait, replies, devices);
    if from + 1 < devices.len() {
        lemma_all_set_from(changed, from + 1, on);
        assert(replies.drop_first() =~= confirmations((changed.len() - (from + 1)) as nat));
        assert(all_set(changed, from + 1, on) =~= all_set(devices, from, on));
        assert(out.lines =~= Seq::<Seq<char>>::empty());
    } else {
        assert(changed =~= all_set(devices, from, on));
    }
}

/// `record start all` and `record stop all` on a registry that is not
/// empty, with every device confirming: the command succeeds, prints
/// nothing, and every device has the recording state that was asked for,
/// under its old name and at its old place.
pub proof fn law_record_all_sets_every_device(
    args: Seq<Seq<char>>,
    on: bool,
    devices: Seq<DeviceModel>,
)
    requires
        args.len() >= 2,
        args[0] == if on {
            "start"@
        } else {
            "stop"@
        },
        args[1] == "all"@,
        devices.len() > 0,
    ensures
        record_run(args, confirmations(devices.len()), devices) == (Outcome {
            lines: Seq::empty(),
            flow: FlowModel::Finished(Ok(())),
            devices: all_set(devices, 0, on),
        }),
        all_set(devices, 0, on).len() == devices.len(),
        forall|i: int|
            0 <= i < devices.len() ==> #[trigger] all_set(devices, 0, on)[i] == (DeviceModel {
                name: devices[i].name,
                recording: on,
            }),
{
    reveal_strlit("start");
    reveal_strlit("stop");
    assert("start"@.len() == 5 && "stop"@.len() == 4);
    lemma_all_set_from(devices, 0, on);
    assert(record_run(args, confirmations(devices.len()), devices).lines
        =~= Seq::<Seq<char>>::empty());
}

/// No text is longer than the widest, and where there are texts one of them
/// is that long.
pub proof fn lemma_widest(texts: Seq<Seq<char>>)
    ensures
        forall|i: int| 0 <= i < texts.len() ==> (#[trigger] texts[i]).len() <= widest(texts),
        texts.len() > 0 ==> exists|i: int|
            0 <= i < texts.len() && (#[trigger] texts[i]).len() == widest(texts),
    decreases texts.len(),
{
    if texts.len() > 0 {
        let front = texts.drop_last();
        lemma_widest(front);
        assert forall|i: int| 0 <= i < texts.len() implies (#[trigger] texts[i]).len() <= widest(
            texts,
        ) by {
            if i < front.len() {
                assert(front[i] == texts[i]);
            }
        }
        if texts.last().len() > widest(front) || front.len() == 0 {
            assert(texts[texts.len() - 1].len() == widest(texts));
        } else {
            let k = choose|k: int| 0 <= k < front.len() && (#[trigger] front[k]).len() == widest(front);
            assert(texts[k] == front[k]);
        }
    }
}

/// The help text has one line per command and two more, the header and the
/// empty line at its end. Every command's line starts with its usage in a
/// column that is exactly as wide as the longest usage, so the descriptions
/// stand below each other.
pub proof fn law_help_text(table: Seq<CommandModel>)
    ensures
        help_lines(table).len() == table.len() + 2,
        help_lines(table).first() == help_header(),
        help_lines(table).last().len() == 0,
        forall|i: int|
            0 <= i < table.len() ==> #[trigger] help_lines(table)[i + 1] == help_row(
                table[i],
                widest(usages(table)),
            ),
        forall|i: int|
            0 <= i < table.len() ==> padded_right(
                (#[trigger] table[i]).usage,
                widest(usages(table)),
            ).len() == widest(usages(table)),
        forall|i: int|
            0 <= i < table.len() ==> (#[trigger] table[i]).usage.len() <= widest(usages(table)),
        table.len() > 0 ==> exists|i: int|
            0 <= i < table.len() && (#[trigger] table[i]).usage.len() == widest(usages(table)),
{
    let texts = usages(table);
    lemma_widest(texts);
    assert forall|i: int| 0 <= i < table.len() implies (#[trigger] table[i]).usage.len() <= widest(
        texts,
    ) by {
        assert(texts[i] == table[i].usage);
    }
    if table.len() > 0 {
        let k = choose|k: int| 0 <= k < texts.len() && (#[trigger] texts[k]).len() == widest(texts);
        assert(texts[k] == table[k].usage);
    }
}

} // verus!
