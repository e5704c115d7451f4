//! The attach session: the input line, the cursor into the command
//! history, and what each key does.

use crate::error::CrescentError;
use crate::text::{
    append_chars, append_str, chars_of, decimal, decimal_chars, is_blank, is_blank_chars, string_of,
    texts,
};
use vstd::prelude::*;

verus! {

/// The input line's buffer, as the `tui_input` crate keeps it.
#[verifier::external_type_specification]
#[verifier::external_body]
pub struct ExInput(tui_input::Input);

/// A request to the input line's editor, as the `tui_input` crate has it.
#[verifier::external_type_specification]
#[verifier::external_body]
pub struct ExInputRequest(tui_input::InputRequest);

/// The text that an input line holds.
pub uninterp spec fn input_text(input: tui_input::Input) -> Seq<char>;

/// An empty input line (`Input::default`: the value is the empty string).
#[verifier::external_body]
fn input_new() -> (r: tui_input::Input)
    ensures
        input_text(r) == Seq::<char>::empty(),
{
    tui_input::Input::default()
}

/// The text of an input line (`Input::value`).
#[verifier::external_body]
fn input_value(input: &tui_input::Input) -> (r: String)
    ensures
        r@ == input_text(*input),
{
    input.value().to_string()
}

/// The input line with `value` as its text (`Input::with_value`: the value
/// is set to the given string, the cursor goes to its end).
#[verifier::external_body]
fn input_with_value(input: &tui_input::Input, value: String) -> (r: tui_input::Input)
    ensures
        input_text(r) == value@,
{
    input.clone().with_value(value)
}

/// Empties an input line (`Input::reset`: value and cursor go back to
/// their defaults).
#[verifier::external_body]
fn input_reset(input: &mut tui_input::Input)
    ensures
        input_text(*final(input)) == Seq::<char>::empty(),
{
    input.reset()
}

/// Hands a request to the editor of an input line (`Input::handle`). What
/// the line holds afterwards is the editor's matter.
#[verifier::external_body]
fn input_handle(input: &mut tui_input::Input, request: tui_input::InputRequest) {
    input.handle(request);
}

/// Attach to an application.
#[derive(Debug)]
pub struct AttachArgs {
    /// The application's name.
    pub name: String,
}

/// What reaches the attach session.
pub enum TerminalEvent {
    /// Enter: send the input line.
    Enter,
    /// Page Up, or the mouse wheel turned up.
    PageUp,
    /// Page Down, or the mouse wheel turned down.
    PageDown,
    /// Up: go back in the history.
    Up,
    /// Down: go forward in the history.
    Down,
    /// Esc: leave the session.
    Esc,
    /// Any other key that the input line's editor understands.
    Edit(tui_input::InputRequest),
    /// A new line of statistics.
    Stats(String),
    /// The supervisor's answer to the request for the command history.
    History(Vec<String>),
    /// There is new output to show.
    Redraw,
    /// The supervisor has closed the socket: the child is gone.
    Disconnected,
}

/// How the log viewport moves.
#[derive(Debug, Clone, Copy, PartialEq, Eq, Structural)]
pub enum LogScroll {
    /// Up by a page.
    Up,
    /// Down by a page.
    Down,
    /// To the newest line.
    Bottom,
}

/// What the session asks for after an event.
#[derive(Debug)]
pub struct AttachAction {
    /// Text to send to the supervisor as `WriteStdin`.
    pub send: Option<String>,
    /// A move of the log viewport.
    pub scroll: Option<LogScroll>,
}

/// The state of an attach session.
#[derive(Debug)]
pub struct AttachTerminal {
    /// The application's name, shown as the title of the log.
    pub application_name: String,
    /// Whether the session goes on.
    pub running: bool,
    /// The line of statistics.
    pub stats: String,
    /// The commands sent so far, most recent first.
    pub history: Vec<String>,
    /// The index into the history of the command that the input line
    /// shows, if it shows one.
    pub history_pos: Option<usize>,
    /// The input line.
    pub input: tui_input::Input,
}

/// What an attach session holds.
pub struct AttachState {
    pub name: Seq<char>,
    pub running: bool,
    pub stats: Seq<char>,
    pub history: Seq<Seq<char>>,
    pub cursor: Option<int>,
    pub input: Seq<char>,
}

impl View for AttachTerminal {
    type V = AttachState;

    open spec fn view(&self) -> AttachState {
        AttachState {
            name: self.application_name@,
            running: self.running,
            stats: self.stats@,
            history: texts(self.history@),
            cursor: match self.history_pos {
                Some(p) => Some(p as int),
                None => None,
            },
            input: input_text(self.input),
        }
    }
}

/// What an event holds, as far as the session's own state goes.
pub enum Happening {
    Enter,
    PageUp,
    PageDown,
    Up,
    Down,
    Esc,
    Edit,
    Stats(Seq<char>),
    History(Seq<Seq<char>>),
    Redraw,
    Disconnected,
}

/// What an event holds.
pub open spec fn happening(e: TerminalEvent) -> Happening {
    match e {
        TerminalEvent::Enter => Happening::Enter,
        TerminalEvent::PageUp => Happening::PageUp,
        TerminalEvent::PageDown => Happening::PageDown,
        TerminalEvent::Up => Happening::Up,
        TerminalEvent::Down => Happening::Down,
        TerminalEvent::Esc => Happening::Esc,
        TerminalEvent::Edit(_) => Happening::Edit,
        TerminalEvent::Stats(s) => Happening::Stats(s@),
        TerminalEvent::History(h) => Happening::History(texts(h@)),
        TerminalEvent::Redraw => Happening::Redraw,
        TerminalEvent::Disconnected => Happening::Disconnected,
    }
}

/// The index that Up moves the history cursor to.
pub open spec fn cursor_up(cursor: Option<int>) -> int {
    match cursor {
        Some(p) => p + 1,
        None => 0,
    }
}

/// The state after an event, given the text `edited` that the editor left
/// in the input line where the event went to it.
///
/// - Enter with an input that is not blank puts the input at the front of
///   the history, empties the input line and forgets the cursor.
/// - Up shows the next older command, where there is one.
/// - Down shows the next newer command; from the newest one it empties the
///   input line and forgets the cursor.
/// - Esc, and the loss of the supervisor, end the session.
pub open spec fn state_after(s: AttachState, h: Happening, edited: Seq<char>) -> AttachState {
    match h {
        Happening::Enter => if is_blank(s.input) {
            s
        } else {
            AttachState {
                history: seq![s.input] + s.history,
                cursor: None,
                input: Seq::empty(),
                ..s
            }
        },
        Happening::Up => if 0 <= cursor_up(s.cursor) < s.history.len() {
            AttachState {
                cursor: Some(cursor_up(s.cursor)),
                input: s.history[cursor_up(s.cursor)],
                ..s
            }
        } else {
            s
        },
        Happening::Down => match s.cursor {
            Some(p) => if p == 0 {
                AttachState { cursor: None, input: Seq::empty(), ..s }
            } else if 0 < p < s.history.len() {
                AttachState { cursor: Some(p - 1), input: s.history[p - 1], ..s }
            } else {
                s
            },
            None => s,
        },
        Happening::Esc => AttachState { running: false, ..s },
        Happening::Disconnected => AttachState { running: false, ..s },
        Happening::Edit => AttachState { input: edited, ..s },
        Happening::Stats(stats) => AttachState { stats, ..s },
        Happening::History(history) => AttachState { history, cursor: None, ..s },
        Happening::PageUp => s,
        Happening::PageDown => s,
        Happening::Redraw => s,
    }
}

/// The text that an event has sent to the supervisor: on Enter, the input
/// line as it stands, where it is not blank.
pub open spec fn sent_by(s: AttachState, h: Happening) -> Option<Seq<char>> {
    match h {
        Happening::Enter => if is_blank(s.input) {
            None
        } else {
            Some(s.input)
        },
        _ => None,
    }
}

/// How an event moves the log viewport.
pub open spec fn scroll_by(s: AttachState, h: Happening) -> Option<LogScroll> {
    match h {
        Happening::Enter => if is_blank(s.input) {
            None
        } else {
            Some(LogScroll::Bottom)
        },
        Happening::PageUp => Some(LogScroll::Up),
        Happening::PageDown => Some(LogScroll::Down),
        _ => None,
    }
}

impl AttachArgs {
    /// Opens the session: the application must have its directory and its
    /// supervisor must answer. `pid` is the child's process number, where
    /// it is known.
    pub fn run(self, exists: bool, running: bool, pid: Option<u32>) -> (r: Result<
        AttachTerminal,
        CrescentError,
    >)
        ensures
            !exists ==> r == Err::<AttachTerminal, CrescentError>(
                CrescentError::ApplicationNotFound,
            ),
            exists && !running ==> r == Err::<AttachTerminal, CrescentError>(
                CrescentError::ApplicationNotRunning,
            ),
            exists && running ==> r is Ok && r->Ok_0@ == (AttachState {
                name: self.name@,
                running: true,
                stats: if pid is Some {
                    "Waiting for stats."@
                } else {
                    "PID not found, unable to query stats"@
                },
                history: Seq::empty(),
                cursor: None,
                input: Seq::empty(),
            }),
    {
        if !exists {
            return Err(CrescentError::ApplicationNotFound);
        }
        if !running {
            return Err(CrescentError::ApplicationNotRunning);
        }
        let mut terminal = AttachTerminal::new(self.name);
        if pid.is_none() {
            terminal.stats = string_of(&chars_of("PID not found, unable to query stats"));
        }
        Ok(terminal)
    }
}

impl AttachTerminal {
    /// A session that has just been opened.
    pub fn new(application_name: String) -> (r: AttachTerminal)
        ensures
            r@ == (AttachState {
                name: application_name@,
                running: true,
                stats: "Waiting for stats."@,
                history: Seq::empty(),
                cursor: None,
                input: Seq::empty(),
            }),
    {
        let r = AttachTerminal {
            application_name,
            running: true,
            stats: string_of(&chars_of("Waiting for stats.")),
            history: Vec::new(),
            history_pos: None,
            input: input_new(),
        };
        assert(texts(r.history@) =~= Seq::<Seq<char>>::empty());
        r
    }

    /// The text of the input line.
    pub fn input_value(&self) -> (r: String)
        ensures
            r@ == self@.input,
    {
        input_value(&self.input)
    }

    /// Handles one event.
    pub fn handle(&mut self, event: TerminalEvent) -> (r: AttachAction)
        ensures
            final(self)@ == state_after(old(self)@, happening(event), final(self)@.input),
            match r.send {
                Some(text) => sent_by(old(self)@, happening(event)) == Some(text@),
                None => sent_by(old(self)@, happening(event)) is None,
            },
            r.scroll == scroll_by(old(self)@, happening(event)),
    {
        let ghost before = texts(self.history@);
        match event {
            TerminalEvent::Enter => {
                let content = input_value(&self.input);
                if is_blank_chars(&chars_of(content.as_str())) {
                    return AttachAction { send: None, scroll: None };
                }
                input_reset(&mut self.input);
                self.history.insert(0, content.clone());
                self.history_pos = None;
                assert(texts(self.history@) =~= seq![content@] + before);
                AttachAction { send: Some(content), scroll: Some(LogScroll::Bottom) }
            },
            TerminalEvent::PageUp => AttachAction { send: None, scroll: Some(LogScroll::Up) },
            TerminalEvent::PageDown => AttachAction { send: None, scroll: Some(LogScroll::Down) },
            TerminalEvent::Up => {
                let next: usize = match self.history_pos {
                    Some(p) => if p < self.history.len() {
                        p + 1
                    } else {
                        self.history.len()
                    },
                    None => 0,
                };
                if next < self.history.len() {
                    self.history_pos = Some(next);
                    self.input = input_with_value(&self.input, self.history[next].clone());
                }
                AttachAction { send: None, scroll: None }
            },
            TerminalEvent::Down => {
                match self.history_pos {
                    Some(p) => {
                        if p == 0 {
                            self.history_pos = None;
                            input_reset(&mut self.input);
                        } else if p < self.history.len() {
                            self.history_pos = Some(p - 1);
                            self.input = input_with_value(
                                &self.input,
                                self.history[p - 1].clone(),
                            );
                        }
                    },
                    None => {},
                }
                AttachAction { send: None, scroll: None }
            },
            TerminalEvent::Esc => {
                self.running = false;
                AttachAction { send: None, scroll: None }
            },
            TerminalEvent::Disconnected => {
                self.running = false;
                AttachAction { send: None, scroll: None }
            },
            TerminalEvent::Edit(request) => {
                input_handle(&mut self.input, request);
                AttachAction { send: None, scroll: None }
            },
            TerminalEvent::Stats(stats) => {
                self.stats = stats;
                AttachAction { send: None, scroll: None }
            },
            TerminalEvent::History(history) => {
                self.history = history;
                self.history_pos = None;
                AttachAction { send: None, scroll: None }
            },
            TerminalEvent::Redraw => AttachAction { send: None, scroll: None },
        }
    }
}

/// The line of statistics: the share of the processor, the share of the
/// memory with the memory in use in whole mebibytes, and the system's load
/// over one, five and fifteen minutes. The shares and the loads come as
/// they are shown; the memory comes in bytes.
pub open spec fn stats_text(
    cpu: Seq<char>,
    mem: Seq<char>,
    memory: u64,
    one: Seq<char>,
    five: Seq<char>,
    fifteen: Seq<char>,
) -> Seq<char> {
    "cpu: "@ + cpu + "% | mem: "@ + mem + "% ("@ + decimal((memory / 1024 / 1024) as nat)
        + " Mb) | system load: "@ + one + ", "@ + five + ", "@ + fifteen
}

/// The line of statistics.
pub fn stats_line(cpu: &str, mem: &str, memory: u64, one: &str, five: &str, fifteen: &str) -> (r:
    String)
    ensures
        r@ == stats_text(cpu@, mem@, memory, one@, five@, fifteen@),
{
    let mut out = chars_of("cpu: ");
    append_str(&mut out, cpu);
    append_str(&mut out, "% | mem: ");
    append_str(&mut out, mem);
    append_str(&mut out, "% (");
    append_chars(&mut out, &decimal_chars(memory / 1024 / 1024));
    append_str(&mut out, " Mb) | system load: ");
    append_str(&mut out, one);
    append_str(&mut out, ", ");
    append_str(&mut out, five);
    append_str(&mut out, ", ");
    append_str(&mut out, fifteen);
    string_of(&out)
}

/// The line that stands for the statistics once the process is not found;
/// the sampling ends with it.
pub fn stats_missing() -> (r: String)
    ensures
        r@ == "Error retrieving process information."@,
{
    string_of(&chars_of("Error retrieving process information."))
}

/// The column of the cursor in the input field that starts at column `x`:
/// one behind the field's border and the text before the cursor, and never
/// beyond the last column there is.
pub fn cursor_column(x: u16, visual_cursor: usize) -> (r: u16)
    ensures
        r as int == (if x + visual_cursor + 1 <= u16::MAX {
            x + visual_cursor + 1
        } else {
            u16::MAX as int
        }),
{
    let room: u16 = u16::MAX - x;
    if visual_cursor < room as usize {
        x + visual_cursor as u16 + 1
    } else {
        u16::MAX
    }
}

} // verus!
