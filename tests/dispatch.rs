use clin::command::{check_command, command_outcome, exit_code};
use clin::command::CommandOutcome;
use clin::dispatch::{
    collect_cmd_note, command_text, outcome_title, pick_setting, preflight, sends, NoteEnv,
    NoteFlags,
};
use clin::error::Error;
use clin::note::Note;
use clin::text::parse_u32;

fn s(x: &str) -> Option<String> {
    Some(x.to_string())
}

fn no_flags() -> NoteFlags {
    NoteFlags { send: false, host: None, port: None, timeout: None }
}

fn no_env() -> NoteEnv {
    NoteEnv { send: None, host: None, port: None, timeout: None }
}

#[test]
fn flag_beats_environment_beats_default() {
    assert_eq!(pick_setting(&s("flag"), &s("env"), "default"), "flag");
    assert_eq!(pick_setting(&None, &s("env"), "default"), "env");
    assert_eq!(pick_setting(&None, &None, "default"), "default");
    assert_eq!(pick_setting(&s("flag"), &None, "default"), "flag");
}

#[test]
fn send_switch() {
    assert!(sends(true, &None));
    assert!(sends(false, &s("1")));
    assert!(!sends(false, &s("0")));
    assert!(!sends(false, &s("true")));
    assert!(!sends(false, &None));
}

#[test]
fn settings_resolve_in_order() {
    let flags = NoteFlags { send: false, host: s("flaghost"), port: None, timeout: s("5000") };
    let env = NoteEnv { send: s("1"), host: s("envhost"), port: s("7000"), timeout: s("1") };
    let n = Note::from_settings(&flags, &env).unwrap();
    assert!(n.send);
    assert_eq!(n.host, "flaghost");
    assert_eq!(n.port, 7000);
    assert_eq!(n.timeout, 5000);
    assert_eq!(n.title, "CLIN:");
    assert_eq!(n.msg, "clin!");

    let d = Note::from_settings(&no_flags(), &no_env()).unwrap();
    assert!(!d.send);
    assert_eq!(d.host, "127.0.0.1");
    assert_eq!(d.port, 6445);
    assert_eq!(d.timeout, 10000);
}

#[test]
fn settings_that_are_not_numbers() {
    let mut flags = no_flags();
    flags.port = s("sixty");
    flags.timeout = s("also bad");
    match Note::from_settings(&flags, &no_env()) {
        Err(Error::ParseInt(t)) => assert_eq!(t, "sixty"),
        other => panic!("{:?}", other),
    }
    let mut env = no_env();
    env.timeout = s("-5");
    match Note::from_settings(&no_flags(), &env) {
        Err(Error::ParseInt(t)) => assert_eq!(t, "-5"),
        other => panic!("{:?}", other),
    }
}

#[test]
fn message_mode_note() {
    let n = Note::for_message(&no_flags(), &no_env(), "just this").unwrap();
    assert_eq!(n.title, "clin");
    assert_eq!(n.msg, "just this");
}

#[test]
fn numbers() {
    assert_eq!(parse_u32("0"), Some(0));
    assert_eq!(parse_u32("6445"), Some(6445));
    assert_eq!(parse_u32("+12"), Some(12));
    assert_eq!(parse_u32("007"), Some(7));
    assert_eq!(parse_u32("4294967295"), Some(u32::MAX));
    assert_eq!(parse_u32("4294967296"), None);
    assert_eq!(parse_u32("99999999999999999999999"), None);
    assert_eq!(parse_u32(""), None);
    assert_eq!(parse_u32("+"), None);
    assert_eq!(parse_u32("-1"), None);
    assert_eq!(parse_u32(" 1"), None);
    assert_eq!(parse_u32("1a"), None);
}

fn words(ws: &[&str]) -> Vec<String> {
    ws.iter().map(|w| w.to_string()).collect()
}

#[test]
fn command_from_flag_or_trailing_arguments() {
    let args = words(&["clin", "-s", "--", "make", "-j", "4"]);
    assert_eq!(command_text(&s("ls -l"), true, &args).unwrap(), "ls -l");
    assert_eq!(command_text(&None, true, &args).unwrap(), "make -j 4");
    let args = words(&["clin", "--", "a", "--", "b"]);
    assert_eq!(command_text(&None, true, &args).unwrap(), "a -- b");
    let args = words(&["clin", "--"]);
    assert_eq!(command_text(&None, true, &args).unwrap(), "");
    match command_text(&None, true, &words(&["clin", "x"])) {
        Err(Error::Msg(m)) => assert_eq!(m, "Error parsing command, no `--` delimiter found"),
        other => panic!("{:?}", other),
    }
    assert!(matches!(command_text(&None, false, &args), Err(Error::Msg(_))));
}

#[test]
fn collected_note_carries_the_command() {
    let note = Note::with_msg("clin!").timeout(5000).send(true);
    let (cmd, n) = collect_cmd_note(note, &None, true, &words(&["clin", "--", "echo", "hi"])).unwrap();
    assert_eq!(cmd, "echo hi");
    assert_eq!(n.msg, "echo hi");
    assert_eq!(n.timeout, 5000);
    assert!(n.send);
    let note = Note::with_msg("clin!");
    assert!(collect_cmd_note(note, &None, false, &vec![]).is_err());
}

#[test]
fn commands_with_nul_are_refused() {
    assert!(check_command("echo hi").is_ok());
    assert!(check_command("").is_ok());
    match check_command("ab\0c\0") {
        Err(Error::Nul(p)) => assert_eq!(p, 2),
        other => panic!("{:?}", other),
    }
    // The position counts bytes, as the shell's interface does.
    match check_command("é✓\0") {
        Err(Error::Nul(p)) => assert_eq!(p, 5),
        other => panic!("{:?}", other),
    }
}

#[test]
fn exit_status_is_read_from_the_wait_status() {
    assert_eq!(exit_code(0), 0);
    assert_eq!(exit_code(1 << 8), 1);
    assert_eq!(exit_code(255 << 8), 255);
    assert_eq!(exit_code((3 << 8) | 0x7f), 3);
    assert_eq!(exit_code(-1), 255);
    assert_eq!(command_outcome(0).exit_code, 0);
    assert_eq!(command_outcome(2 << 8).exit_code, 2);
}

#[test]
fn titles_for_outcomes() {
    assert_eq!(outcome_title(Ok(CommandOutcome { exit_code: 0 })).unwrap(), "Complete ✓");
    assert_eq!(
        outcome_title(Ok(CommandOutcome { exit_code: 2 })).unwrap(),
        "Error ✗ -- exit status: 2"
    );
    assert_eq!(
        outcome_title(Ok(CommandOutcome { exit_code: 255 })).unwrap(),
        "Error ✗ -- exit status: 255"
    );
    assert!(matches!(outcome_title(Err(Error::Nul(0))), Err(Error::Nul(0))));
}

#[test]
fn unreachable_listener_stops_before_the_command() {
    let local = Note::with_msg("m");
    assert!(preflight(&local, false).is_ok());
    let sent = Note::with_msg("m").send(true).host("10.1.2.3").port(7000);
    assert!(preflight(&sent, true).is_ok());
    match preflight(&sent, false) {
        Err(Error::Network(m)) => {
            assert_eq!(m, "Unable to connect to clin-listener at `10.1.2.3:7000`")
        }
        other => panic!("{:?}", other),
    }
}
