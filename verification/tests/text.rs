use client::command::{parse_command, parse_group_command, Command, GroupCommand};
use client::console::{
    incoming_report, long_poll_report, registration_message, PollOutcome, Report, BOT_NAME,
};
use client::text::{concat2, concat3, concat4, line_is_blank, render_decimal};

#[test]
fn decimal_rendering() {
    assert_eq!(render_decimal(0), "0");
    assert_eq!(render_decimal(7), "7");
    assert_eq!(render_decimal(10), "10");
    assert_eq!(render_decimal(12345), "12345");
    assert_eq!(render_decimal(usize::MAX), usize::MAX.to_string());
}

#[test]
fn blankness() {
    assert!(line_is_blank(""));
    assert!(line_is_blank(" \t\r\n\u{b}\u{c}"));
    assert!(line_is_blank("\u{85}\u{1680}\u{2000}\u{200a}\u{202f}\u{205f}\u{3000}"));
    assert!(!line_is_blank(" x "));
    assert!(!line_is_blank("\u{200b}"));
}

#[test]
fn concatenation() {
    assert_eq!(concat2("a", "b"), "ab");
    assert_eq!(concat3("a", "b", "c"), "abc");
    assert_eq!(concat4("a", "b", "c", "d"), "abcd");
}

#[test]
fn top_level_commands() {
    assert_eq!(parse_command("help"), Command::Help);
    assert_eq!(parse_command("register bob"), Command::Register("bob".to_string()));
    assert_eq!(parse_command("register "), Command::Register("".to_string()));
    assert_eq!(parse_command("create kp"), Command::CreateKeyPackage);
    assert_eq!(parse_command("create group a b"), Command::CreateGroup("a b".to_string()));
    assert_eq!(parse_command("update"), Command::Update);
    assert_eq!(parse_command("group x"), Command::Group("x".to_string()));
    assert_eq!(parse_command("help me"), Command::Other);
    assert_eq!(parse_command("register"), Command::Other);
    assert_eq!(parse_command("reset"), Command::Reset);
    assert_eq!(parse_command("reset now"), Command::Other);
    assert_eq!(parse_command("save"), Command::Save);
    assert_eq!(parse_command("autosave"), Command::AutoSave);
    assert_eq!(parse_command("load bob"), Command::Load("bob".to_string()));
    assert_eq!(parse_command("save bob"), Command::Other);
}

#[test]
fn group_commands() {
    assert_eq!(parse_group_command("send hi"), GroupCommand::Send("hi".to_string()));
    assert_eq!(parse_group_command("invite bob"), GroupCommand::Invite("bob".to_string()));
    assert_eq!(parse_group_command("remove bob"), GroupCommand::Remove("bob".to_string()));
    assert_eq!(parse_group_command("read"), GroupCommand::Read);
    assert_eq!(parse_group_command("update"), GroupCommand::Update);
    assert_eq!(parse_group_command("exit"), GroupCommand::Exit);
    assert_eq!(parse_group_command("exit "), GroupCommand::Unknown);
    assert_eq!(parse_group_command("send"), GroupCommand::Unknown);
}

#[test]
fn agent_network_lines() {
    assert_eq!(registration_message(BOT_NAME), "register as RustClient");
    assert_eq!(
        incoming_report(Ok("hi".to_string())),
        Report::Stdout("Received a message: hi".to_string())
    );
    assert_eq!(
        incoming_report(Err("closed".to_string())),
        Report::Stderr("Error receiving message: closed".to_string())
    );
}

#[test]
fn long_polling_lines() {
    assert_eq!(
        long_poll_report(PollOutcome::Body("ok".to_string())),
        Some(Report::Stdout("Received response: ok".to_string()))
    );
    assert_eq!(long_poll_report(PollOutcome::UnreadableBody), None);
    assert_eq!(
        long_poll_report(PollOutcome::Failed("refused".to_string())),
        Some(Report::Stderr("Error during long-polling: refused".to_string()))
    );
}

