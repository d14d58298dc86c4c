use thide::cli::{autostart_removal_outcome, handle_cli_command, parse_command, plan_for_command, AutostartRemoval, CliCommand, CliPlan};
use thide::ipc::{decode_ipc_message, IpcMessage};

fn args(words: &[&str]) -> Vec<String> {
    words.iter().map(|w| w.to_string()).collect()
}

fn sent(plan: CliPlan) -> (u32, &'static str) {
    match plan {
        CliPlan::SendMessage { message, notice } => (message, notice),
        other => panic!("expected a message, got {:?}", other),
    }
}

#[test]
fn no_arguments_print_usage() {
    assert!(matches!(handle_cli_command(&[]), CliPlan::PrintUsage));
}

#[test]
fn each_command_name_is_recognised() {
    assert_eq!(parse_command("start"), CliCommand::Start);
    assert_eq!(parse_command("show"), CliCommand::Show);
    assert_eq!(parse_command("hide"), CliCommand::Hide);
    assert_eq!(parse_command("toggle"), CliCommand::Toggle);
    assert_eq!(parse_command("stop"), CliCommand::Stop);
    assert_eq!(parse_command("quit"), CliCommand::Stop);
    assert_eq!(parse_command("enable-autostart"), CliCommand::EnableAutostart);
    assert_eq!(parse_command("disable-autostart"), CliCommand::DisableAutostart);
    assert_eq!(parse_command("help"), CliCommand::Help);
    assert_eq!(parse_command("--help"), CliCommand::Help);
    assert_eq!(parse_command("-h"), CliCommand::Help);
}

#[test]
fn other_words_are_unknown() {
    assert_eq!(parse_command(""), CliCommand::Unknown);
    assert_eq!(parse_command("shows"), CliCommand::Unknown);
    assert_eq!(parse_command("sho"), CliCommand::Unknown);
    assert_eq!(parse_command("--h"), CliCommand::Unknown);
    assert!(matches!(handle_cli_command(&args(&["frobnicate"])), CliPlan::RejectUnknown));
}

#[test]
fn command_names_ignore_letter_case() {
    assert_eq!(sent(handle_cli_command(&args(&["SHOW"]))).0, 0x8001);
    assert_eq!(sent(handle_cli_command(&args(&["Hide"]))).0, 0x8002);
    assert_eq!(sent(handle_cli_command(&args(&["ToGgLe"]))).0, 0x8004);
    assert_eq!(sent(handle_cli_command(&args(&["QUIT"]))).0, 0x8003);
    assert!(matches!(handle_cli_command(&args(&["START"])), CliPlan::StartGui));
    assert!(matches!(handle_cli_command(&args(&["Enable-Autostart"])), CliPlan::EnableAutostart));
    assert!(matches!(handle_cli_command(&args(&["DISABLE-AUTOSTART"])), CliPlan::DisableAutostart));
    assert!(matches!(handle_cli_command(&args(&["-H"])), CliPlan::PrintUsage));
}

#[test]
fn only_the_first_argument_counts() {
    assert_eq!(sent(handle_cli_command(&args(&["hide", "show"]))).0, 0x8002);
}

#[test]
fn notices_of_sent_commands() {
    assert_eq!(sent(plan_for_command(CliCommand::Show)), (0x8001, "Showing taskbar..."));
    assert_eq!(sent(plan_for_command(CliCommand::Hide)), (0x8002, "Hiding taskbar..."));
    assert_eq!(sent(plan_for_command(CliCommand::Toggle)), (0x8004, "Toggling taskbar state..."));
    assert_eq!(sent(plan_for_command(CliCommand::Stop)), (0x8003, "Stopping THide..."));
}

#[test]
fn sent_commands_arrive_as_the_same_command() {
    let pairs = [
        ("show", IpcMessage::Show),
        ("hide", IpcMessage::Hide),
        ("toggle", IpcMessage::Toggle),
        ("stop", IpcMessage::Quit),
        ("quit", IpcMessage::Quit),
    ];
    for (word, expected) in pairs {
        let (message, _) = sent(handle_cli_command(&args(&[word])));
        assert_eq!(decode_ipc_message(message), Some(expected));
    }
}

#[test]
fn autostart_removal_outcomes() {
    assert_eq!(autostart_removal_outcome(0), AutostartRemoval::Removed);
    assert_eq!(autostart_removal_outcome(2), AutostartRemoval::WasNotEnabled);
    assert_eq!(autostart_removal_outcome(5), AutostartRemoval::Failed);
}
