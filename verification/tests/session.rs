//! The session state machine: classification, command dispatch, history
//! and the interrupt/end-of-input semantics.

use swrepl::registry::CommandTable;
use swrepl::session::Action;
use swrepl::session::LineClass;
use swrepl::session::ReadEvent;
use swrepl::session::Session;
use swrepl::session::classify;

fn table() -> CommandTable {
    let mut t = CommandTable::new();
    t.register(String::from("help"));
    t.register(String::from("quit"));
    t
}

#[test]
fn classifies_command_with_args() {
    match classify("  :help topic one  ") {
        LineClass::Command { name, args } => {
            assert_eq!(name, ":help");
            assert_eq!(args, " topic one");
        }
        LineClass::Code { .. } => panic!("expected a command"),
    }
}

#[test]
fn classifies_bare_command() {
    match classify(":quit") {
        LineClass::Command { name, args } => {
            assert_eq!(name, ":quit");
            assert_eq!(args, "");
        }
        LineClass::Code { .. } => panic!("expected a command"),
    }
}

#[test]
fn classifies_code_trimmed() {
    match classify("\t 2 + 2 \n") {
        LineClass::Code { code } => assert_eq!(code, "2 + 2"),
        LineClass::Command { .. } => panic!("expected code"),
    }
}

#[test]
fn classifies_empty_line_as_code() {
    match classify("   ") {
        LineClass::Code { code } => assert_eq!(code, ""),
        LineClass::Command { .. } => panic!("expected code"),
    }
}

#[test]
fn lookup_is_exact_and_in_order() {
    let t = table();
    assert_eq!(t.lookup("help"), Some(0));
    assert_eq!(t.lookup("quit"), Some(1));
    assert_eq!(t.lookup("Help"), None);
    assert_eq!(t.lookup("hel"), None);
    assert_eq!(t.lookup("bogus"), None);
}

#[test]
fn unknown_command_reported_exactly() {
    let mut s = Session::new(table());
    match s.step(ReadEvent::Line(String::from(":bogus"))) {
        Action::Report { message } => assert_eq!(message, "unknown command ':bogus'"),
        _ => panic!("expected a report"),
    }
    assert!(!s.stopped);
    assert_eq!(s.history, vec![String::from(":bogus")]);
    assert_eq!(s.commands.len(), 2);
}

#[test]
fn known_command_resolves_index_and_args() {
    let mut s = Session::new(table());
    match s.step(ReadEvent::Line(String::from(":quit now please"))) {
        Action::Run { index, args } => {
            assert_eq!(index, 1);
            assert_eq!(args, " now please");
        }
        _ => panic!("expected a command invocation"),
    }
}

#[test]
fn command_line_never_evaluated() {
    let mut s = Session::new(table());
    let a = s.step(ReadEvent::Line(String::from("  :bogus 2 + 2")));
    assert!(!matches!(a, Action::Eval { .. }));
    let a = s.step(ReadEvent::Line(String::from(":help 2 + 2")));
    assert!(!matches!(a, Action::Eval { .. }));
}

#[test]
fn code_line_goes_to_eval() {
    let mut s = Session::new(table());
    match s.step(ReadEvent::Line(String::from(" 1 + 1 "))) {
        Action::Eval { code } => assert_eq!(code, "1 + 1"),
        _ => panic!("expected code for the compiler"),
    }
}

#[test]
fn interrupt_keeps_running_then_eof_stops_cleanly() {
    let mut s = Session::new(table());
    assert!(matches!(s.step(ReadEvent::Interrupted), Action::Continue));
    assert!(!s.stopped);
    assert!(s.history.is_empty());
    match s.step(ReadEvent::EndOfInput) {
        Action::Quit { clean } => assert!(clean),
        _ => panic!("expected a stop"),
    }
    assert!(s.stopped);
}

#[test]
fn read_failure_stops_uncleanly() {
    let mut s = Session::new(table());
    match s.step(ReadEvent::Failed) {
        Action::Quit { clean } => assert!(!clean),
        _ => panic!("expected a stop"),
    }
    assert!(s.stopped);
}

#[test]
fn history_records_every_accepted_line_once_in_order() {
    let mut s = Session::new(table());
    s.step(ReadEvent::Line(String::from("2 + 2")));
    s.step(ReadEvent::Line(String::from(":bogus")));
    s.step(ReadEvent::Interrupted);
    s.step(ReadEvent::Line(String::from("(")));
    assert_eq!(
        s.history,
        vec![String::from("2 + 2"), String::from(":bogus"), String::from("(")]
    );
}

#[test]
fn request_stop_keeps_table_and_history() {
    let mut s = Session::new(table());
    s.step(ReadEvent::Line(String::from(":help")));
    s.request_stop();
    assert!(s.stopped);
    assert_eq!(s.history, vec![String::from(":help")]);
    assert_eq!(s.commands.len(), 2);
}
