use crescent::commands::attach::{AttachArgs, AttachTerminal, LogScroll, TerminalEvent};
use crescent::error::CrescentError;
use tui_input::InputRequest;
use crescent::commands::attach::{cursor_column, stats_line, stats_missing};

fn type_text(terminal: &mut AttachTerminal, text: &str) {
    for c in text.chars() {
        terminal.handle(TerminalEvent::Edit(InputRequest::InsertChar(c)));
    }
}

#[test]
fn attach_needs_the_application() {
    let args = AttachArgs { name: String::from("test_app_not_available") };
    assert_eq!(args.run(false, false, None).unwrap_err().message(), "Application does not exist.");
    let args = AttachArgs { name: String::from("attach_echo") };
    assert_eq!(args.run(true, false, None).unwrap_err(), CrescentError::ApplicationNotRunning);
}

#[test]
fn attach_opens_a_running_session() {
    let terminal = AttachArgs { name: String::from("echo1") }.run(true, true, Some(7)).unwrap();
    assert_eq!(terminal.application_name, "echo1");
    assert!(terminal.running);
    assert_eq!(terminal.stats, "Waiting for stats.");
    assert!(terminal.history.is_empty());
    assert_eq!(terminal.history_pos, None);
    assert_eq!(terminal.input_value(), "");
    let terminal = AttachArgs { name: String::from("echo1") }.run(true, true, None).unwrap();
    assert_eq!(terminal.stats, "PID not found, unable to query stats");
}

#[test]
fn attach_history_cursor() {
    let mut terminal = AttachTerminal::new(String::from("echo1"));
    terminal.handle(TerminalEvent::History(vec![String::from("b"), String::from("a")]));
    terminal.handle(TerminalEvent::Up);
    assert_eq!(terminal.input_value(), "b");
    terminal.handle(TerminalEvent::Up);
    assert_eq!(terminal.input_value(), "a");
    terminal.handle(TerminalEvent::Down);
    assert_eq!(terminal.input_value(), "b");
}

#[test]
fn history_cursor_stops_at_the_oldest() {
    let mut terminal = AttachTerminal::new(String::from("echo1"));
    terminal.handle(TerminalEvent::History(vec![String::from("b"), String::from("a")]));
    for _ in 0..5 {
        terminal.handle(TerminalEvent::Up);
    }
    assert_eq!(terminal.input_value(), "a");
    assert_eq!(terminal.history_pos, Some(1));
}

#[test]
fn down_from_the_newest_clears_the_input() {
    let mut terminal = AttachTerminal::new(String::from("echo1"));
    terminal.handle(TerminalEvent::History(vec![String::from("b"), String::from("a")]));
    terminal.handle(TerminalEvent::Up);
    terminal.handle(TerminalEvent::Down);
    assert_eq!(terminal.input_value(), "");
    assert_eq!(terminal.history_pos, None);
    terminal.handle(TerminalEvent::Down);
    assert_eq!(terminal.input_value(), "");
}

#[test]
fn enter_sends_the_input() {
    let mut terminal = AttachTerminal::new(String::from("echo1"));
    type_text(&mut terminal, "say hi");
    assert_eq!(terminal.input_value(), "say hi");
    let action = terminal.handle(TerminalEvent::Enter);
    assert_eq!(action.send.as_deref(), Some("say hi"));
    assert_eq!(action.scroll, Some(LogScroll::Bottom));
    assert_eq!(terminal.input_value(), "");
    assert_eq!(terminal.history, vec!["say hi"]);
    assert_eq!(terminal.history_pos, None);
    type_text(&mut terminal, "again");
    terminal.handle(TerminalEvent::Enter);
    assert_eq!(terminal.history, vec!["again", "say hi"]);
}

#[test]
fn enter_on_blank_input_does_nothing() {
    let mut terminal = AttachTerminal::new(String::from("echo1"));
    let action = terminal.handle(TerminalEvent::Enter);
    assert!(action.send.is_none());
    assert!(action.scroll.is_none());
    type_text(&mut terminal, "   ");
    let action = terminal.handle(TerminalEvent::Enter);
    assert!(action.send.is_none());
    assert_eq!(terminal.input_value(), "   ");
    assert!(terminal.history.is_empty());
}

#[test]
fn enter_resets_the_history_cursor() {
    let mut terminal = AttachTerminal::new(String::from("echo1"));
    terminal.handle(TerminalEvent::History(vec![String::from("b"), String::from("a")]));
    terminal.handle(TerminalEvent::Up);
    terminal.handle(TerminalEvent::Up);
    let action = terminal.handle(TerminalEvent::Enter);
    assert_eq!(action.send.as_deref(), Some("a"));
    assert_eq!(terminal.history, vec!["a", "b", "a"]);
    assert_eq!(terminal.history_pos, None);
    terminal.handle(TerminalEvent::Up);
    assert_eq!(terminal.input_value(), "a");
}

#[test]
fn paging_scrolls_the_log() {
    let mut terminal = AttachTerminal::new(String::from("echo1"));
    assert_eq!(terminal.handle(TerminalEvent::PageUp).scroll, Some(LogScroll::Up));
    assert_eq!(terminal.handle(TerminalEvent::PageDown).scroll, Some(LogScroll::Down));
    assert_eq!(terminal.handle(TerminalEvent::Redraw).scroll, None);
    assert!(terminal.running);
}

#[test]
fn esc_and_disconnect_end_the_session() {
    let mut terminal = AttachTerminal::new(String::from("echo1"));
    terminal.handle(TerminalEvent::Esc);
    assert!(!terminal.running);
    let mut terminal = AttachTerminal::new(String::from("echo1"));
    terminal.handle(TerminalEvent::Disconnected);
    assert!(!terminal.running);
}

#[test]
fn stats_are_kept() {
    let mut terminal = AttachTerminal::new(String::from("echo1"));
    terminal.handle(TerminalEvent::Stats(String::from("cpu: 0.10%")));
    assert_eq!(terminal.stats, "cpu: 0.10%");
}

#[test]
fn editor_requests_reach_the_input_line() {
    let mut terminal = AttachTerminal::new(String::from("echo1"));
    type_text(&mut terminal, "abc");
    terminal.handle(TerminalEvent::Edit(InputRequest::DeletePrevChar));
    assert_eq!(terminal.input_value(), "ab");
    terminal.handle(TerminalEvent::Edit(InputRequest::GoToStart));
    terminal.handle(TerminalEvent::Edit(InputRequest::InsertChar('x')));
    assert_eq!(terminal.input_value(), "xab");
}

#[test]
fn stats_line_text() {
    assert_eq!(
        stats_line("1.50", "0.25", 52_428_800, "0.5", "0.25", "0.1"),
        "cpu: 1.50% | mem: 0.25% (50 Mb) | system load: 0.5, 0.25, 0.1"
    );
    assert_eq!(
        stats_line("0.00", "0.00", 1_048_575, "0", "0", "0"),
        "cpu: 0.00% | mem: 0.00% (0 Mb) | system load: 0, 0, 0"
    );
    assert_eq!(stats_missing(), "Error retrieving process information.");
}

#[test]
fn cursor_stays_on_the_screen() {
    assert_eq!(cursor_column(0, 0), 1);
    assert_eq!(cursor_column(3, 10), 14);
    assert_eq!(cursor_column(65_000, 534), 65_535);
    assert_eq!(cursor_column(65_000, 535), 65_535);
    assert_eq!(cursor_column(65_535, 0), 65_535);
    assert_eq!(cursor_column(0, usize::MAX), 65_535);
}
