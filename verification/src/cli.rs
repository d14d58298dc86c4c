//! The command line: which command an invocation names, and what is done
//! about it.

use vstd::prelude::*;
use crate::ipc::{spec_decode_message, spec_message_id, message_id, IpcMessage};
use crate::platform::{ERROR_FILE_NOT_FOUND, ERROR_SUCCESS};
use crate::text::{
    ascii_lower, eq_ignoring_ascii_case, lemma_lowers_to_uncapitalized, lemma_utf16_round_trip, spec_to_lowercase, spec_utf16_encode, spec_utf16_lossy,
    to_lowercase, same_text, utf16_units_with_nul,
};
use vstd::utf8::is_ascii_chars;

verus! {

/// A command of the command line, named case-insensitively by the first
/// argument.
#[derive(Clone, Copy, Debug, PartialEq, Eq, Structural)]
pub enum CliCommand {
    /// `start`: launch the tray application unless it runs already.
    Start,
    /// `show`: ask the running instance to show the taskbar.
    Show,
    /// `hide`: ask the running instance to hide the taskbar.
    Hide,
    /// `toggle`: ask the running instance to flip the taskbar's state.
    Toggle,
    /// `stop` or `quit`: ask the running instance to restore the taskbar and exit.
    Stop,
    /// `enable-autostart`: register the program to start at login.
    EnableAutostart,
    /// `disable-autostart`: remove that registration.
    DisableAutostart,
    /// `help`, `--help` or `-h`: print the usage text.
    Help,
    /// Any other word.
    Unknown,
}

/// What an invocation of the command line does.
#[derive(Clone, Copy, Debug)]
pub enum CliPlan {
    /// Print the usage text and succeed.
    PrintUsage,
    /// Launch the tray application unless an instance runs already.
    StartGui,
    /// Post `message` to the running instance's hidden window and print
    /// `notice`; fail with "not running" if there is no such window.
    SendMessage { message: u32, notice: &'static str },
    /// Register the executable under the `Run` key of the current user.
    EnableAutostart,
    /// Remove that registration.
    DisableAutostart,
    /// Report the unknown command, print the usage text and exit with status 1.
    RejectUnknown,
}

/// The command that an already lowercased first argument names.
pub open spec fn spec_command_named(name: Seq<char>) -> CliCommand {
    if name == "start"@ {
        CliCommand::Start
    } else if name == "show"@ {
        CliCommand::Show
    } else if name == "hide"@ {
        CliCommand::Hide
    } else if name == "toggle"@ {
        CliCommand::Toggle
    } else if name == "stop"@ || name == "quit"@ {
        CliCommand::Stop
    } else if name == "enable-autostart"@ {
        CliCommand::EnableAutostart
    } else if name == "disable-autostart"@ {
        CliCommand::DisableAutostart
    } else if name == "help"@ || name == "--help"@ || name == "-h"@ {
        CliCommand::Help
    } else {
        CliCommand::Unknown
    }
}

/// The message that carries a command to the running instance, and the
/// notice printed once it is posted; `None` for the commands that are not
/// sent.
pub open spec fn spec_sent_message(c: CliCommand) -> Option<(u32, Seq<char>)> {
    match c {
        CliCommand::Show => Some((spec_message_id(IpcMessage::Show), "Showing taskbar..."@)),
        CliCommand::Hide => Some((spec_message_id(IpcMessage::Hide), "Hiding taskbar..."@)),
        CliCommand::Toggle => Some(
            (spec_message_id(IpcMessage::Toggle), "Toggling taskbar state..."@),
        ),
        CliCommand::Stop => Some((spec_message_id(IpcMessage::Quit), "Stopping THide..."@)),
        _ => None,
    }
}

/// The plan for a command, `sent` standing for its message and notice.
pub open spec fn spec_plan_matches(c: CliCommand, plan: CliPlan) -> bool {
    match c {
        CliCommand::Start => plan is StartGui,
        CliCommand::EnableAutostart => plan is EnableAutostart,
        CliCommand::DisableAutostart => plan is DisableAutostart,
        CliCommand::Help => plan is PrintUsage,
        CliCommand::Unknown => plan is RejectUnknown,
        _ => match plan {
            CliPlan::SendMessage { message, notice } => spec_sent_message(c) == Some(
                (message, notice@),
            ),
            _ => false,
        },
    }
}

/// The plan for the arguments of an invocation (the program name left out):
/// the usage text where there are none, else the plan for the command that
/// the lowercase of the first argument names.
pub open spec fn spec_args_plan_matches(args: Seq<String>, plan: CliPlan) -> bool {
    if args.len() == 0 {
        plan is PrintUsage
    } else {
        spec_plan_matches(spec_command_named(spec_to_lowercase(args[0]@)), plan)
    }
}

/// Returns the command that `name`, the lowercased first argument, names.
pub fn parse_command(name: &str) -> (c: CliCommand)
    ensures
        c == spec_command_named(name@),
{
    if same_text(name, "start") {
        CliCommand::Start
    } else if same_text(name, "show") {
        CliCommand::Show
    } else if same_text(name, "hide") {
        CliCommand::Hide
    } else if same_text(name, "toggle") {
        CliCommand::Toggle
    } else if same_text(name, "stop") || same_text(name, "quit") {
        CliCommand::Stop
    } else if same_text(name, "enable-autostart") {
        CliCommand::EnableAutostart
    } else if same_text(name, "disable-autostart") {
        CliCommand::DisableAutostart
    } else if same_text(name, "help") || same_text(name, "--help") || same_text(name, "-h") {
        CliCommand::Help
    } else {
        CliCommand::Unknown
    }
}

/// Returns what to do about a command.
pub fn plan_for_command(c: CliCommand) -> (plan: CliPlan)
    ensures
        spec_plan_matches(c, plan),
{
    match c {
        CliCommand::Start => CliPlan::StartGui,
        CliCommand::Show => CliPlan::SendMessage {
            message: message_id(IpcMessage::Show),
            notice: "Showing taskbar...",
        },
        CliCommand::Hide => CliPlan::SendMessage {
            message: message_id(IpcMessage::Hide),
            notice: "Hiding taskbar...",
        },
        CliCommand::Toggle => CliPlan::SendMessage {
            message: message_id(IpcMessage::Toggle),
            notice: "Toggling taskbar state...",
        },
        CliCommand::Stop => CliPlan::SendMessage {
            message: message_id(IpcMessage::Quit),
            notice: "Stopping THide...",
        },
        CliCommand::EnableAutostart => CliPlan::EnableAutostart,
        CliCommand::DisableAutostart => CliPlan::DisableAutostart,
        CliCommand::Help => CliPlan::PrintUsage,
        CliCommand::Unknown => CliPlan::RejectUnknown,
    }
}

/// Decides what an invocation with the arguments `args` (the program name
/// left out) does. The first argument names the command in any letter case.
pub fn handle_cli_command(args: &[String]) -> (plan: CliPlan)
    ensures
        spec_args_plan_matches(args@, plan),
        args@.len() > 0 && is_ascii_chars(args@[0]@) ==> spec_plan_matches(
            spec_command_named(args@[0]@.map_values(|c: char| ascii_lower(c))),
            plan,
        ),
        args@.len() > 0 && is_ascii_chars(args@[0]@) ==> forall|name: Seq<char>|
            #![trigger eq_ignoring_ascii_case(args@[0]@, name)]
            (forall|i: int| 0 <= i < name.len() ==> !('A' <= #[trigger] name[i] && name[i] <= 'Z'))
                && eq_ignoring_ascii_case(args@[0]@, name) ==> spec_plan_matches(
                spec_command_named(name),
                plan,
            ),
{
    if args.len() == 0 {
        return CliPlan::PrintUsage;
    }
    proof {
        assert forall|name: Seq<char>|
            (forall|i: int| 0 <= i < name.len() ==> !('A' <= #[trigger] name[i] && name[i] <= 'Z'))
                && eq_ignoring_ascii_case(args@[0]@, name) implies args@[0]@.map_values(
            |c: char| ascii_lower(c),
        ) == name by {
            lemma_lowers_to_uncapitalized(args@[0]@, name);
        }
    }
    let lowered = to_lowercase(args[0].as_str());
    let command = parse_command(lowered.as_str());
    plan_for_command(command)
}

/// A command that the command line sends reaches the running instance as
/// the command it names: show as show, hide as hide, toggle as toggle, and
/// stop (or quit) as quit.
pub proof fn lemma_sent_commands_arrive(c: CliCommand)
    ensures
        spec_sent_message(c) is Some <==> (c == CliCommand::Show || c == CliCommand::Hide
            || c == CliCommand::Toggle || c == CliCommand::Stop),
        spec_sent_message(c) matches Some((id, _)) ==> spec_decode_message(id) == Some(
            match c {
                CliCommand::Show => IpcMessage::Show,
                CliCommand::Hide => IpcMessage::Hide,
                CliCommand::Toggle => IpcMessage::Toggle,
                _ => IpcMessage::Quit,
            },
        ),
{
}

/// The bytes of UTF-16 units, low byte first, as the registry stores them on
/// the little-endian machines that Windows runs on.
pub open spec fn spec_le_bytes(units: Seq<u16>) -> Seq<u8> {
    Seq::new(
        2 * units.len(),
        |i: int|
            if i % 2 == 0 {
                (units[i / 2] % 256) as u8
            } else {
                (units[i / 2] / 256) as u8
            },
    )
}

/// The UTF-16 units that little-endian bytes hold, two bytes per unit.
pub open spec fn spec_units_from_le(bytes: Seq<u8>) -> Seq<u16> {
    Seq::new(bytes.len() / 2, |k: int| (bytes[2 * k] + 256 * bytes[2 * k + 1]) as u16)
}

/// Returns the data of the autostart registry value (a `REG_SZ`): the path
/// of the executable in UTF-16 with a terminating zero unit, low byte first.
pub fn autostart_value(exe_path: &str) -> (bytes: Vec<u8>)
    ensures
        bytes@ == spec_le_bytes(spec_utf16_encode(exe_path@).push(0u16)),
        bytes@.len() == 2 * (spec_utf16_encode(exe_path@).len() + 1),
        forall|k: int|
            #![trigger bytes@[2 * k]]
            0 <= k <= spec_utf16_encode(exe_path@).len() ==> {
                let unit = spec_utf16_encode(exe_path@).push(0u16)[k];
                &&& bytes@[2 * k] == unit % 256
                &&& bytes@[2 * k + 1] == unit / 256
            },
        spec_units_from_le(bytes@) == spec_utf16_encode(exe_path@).push(0u16),
        spec_utf16_lossy(spec_units_from_le(bytes@).drop_last()) == exe_path@,
{
    let units = utf16_units_with_nul(exe_path);
    let mut bytes: Vec<u8> = Vec::new();
    let mut k: usize = 0;
    while k < units.len()
        invariant
            k <= units@.len(),
            bytes@ =~= spec_le_bytes(units@.subrange(0, k as int)),
        decreases units@.len() - k,
    {
        let u = units[k];
        let ghost prev = units@.subrange(0, k as int);
        bytes.push((u % 256) as u8);
        bytes.push((u / 256) as u8);
        assert(units@.subrange(0, k + 1) =~= prev.push(u));
        assert(bytes@ =~= spec_le_bytes(units@.subrange(0, k + 1)));
        k = k + 1;
    }
    assert(units@.subrange(0, units@.len() as int) =~= units@);
    proof {
        let u = units@;
        assert forall|k: int| 0 <= k < u.len() implies #[trigger] spec_units_from_le(bytes@)[k]
            == u[k] by {
            assert(bytes@[2 * k] == (u[(2 * k) / 2] % 256) as u8);
            assert(bytes@[2 * k + 1] == (u[(2 * k + 1) / 2] / 256) as u8);
            assert((2 * k) / 2 == k);
            assert((2 * k + 1) / 2 == k);
        }
        assert(spec_units_from_le(bytes@) =~= u);
        assert(u.drop_last() =~= spec_utf16_encode(exe_path@));
        lemma_utf16_round_trip(exe_path@);
        assert forall|k: int|
            #![trigger bytes@[2 * k]]
            0 <= k <= spec_utf16_encode(exe_path@).len() implies {
                let unit = u[k];
                &&& bytes@[2 * k] == unit % 256
                &&& bytes@[2 * k + 1] == unit / 256
            } by {
            assert((2 * k) / 2 == k);
            assert((2 * k + 1) / 2 == k);
        }
    }
    bytes
}

/// How the removal of the autostart registration ended.
#[derive(Clone, Copy, Debug, PartialEq, Eq, Structural)]
pub enum AutostartRemoval {
    /// The value was deleted.
    Removed,
    /// There was no such value: autostart was not enabled.
    WasNotEnabled,
    /// The registry refused for another reason.
    Failed,
}

/// The outcome of deleting the autostart value, by the status that the
/// registry returned.
pub open spec fn spec_removal_outcome(status: u32) -> AutostartRemoval {
    if status == ERROR_SUCCESS {
        AutostartRemoval::Removed
    } else if status == ERROR_FILE_NOT_FOUND {
        AutostartRemoval::WasNotEnabled
    } else {
        AutostartRemoval::Failed
    }
}

/// Classifies the status that deleting the autostart value returned.
pub fn autostart_removal_outcome(status: u32) -> (r: AutostartRemoval)
    ensures
        r == spec_removal_outcome(status),
{
    if status == ERROR_SUCCESS {
        AutostartRemoval::Removed
    } else if status == ERROR_FILE_NOT_FOUND {
        AutostartRemoval::WasNotEnabled
    } else {
        AutostartRemoval::Failed
    }
}

} // verus!
