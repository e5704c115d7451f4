//! The events of the control socket, their form on the wire, and what the
//! supervisor does for each of them.
//!
//! A message is one object with one member. The member's name tells the
//! event, its value carries what the event holds: `{"Ping":null}`,
//! `{"Stop":null}`, `{"WriteStdin":"say hi"}`,
//! `{"CommandHistory":["prev","earlier"]}`, and `RetrieveAppInfo` with the
//! snapshot of a descriptor, for which `{}` may stand where none is meant.
//! A reader also takes `"Ping"` and `"Stop"` as bare strings, takes white
//! space between the tokens, and leaves aside what follows the message.

use crate::error::CrescentError;
use crate::process::{placeholder_descriptor, Application, Descriptor};
use crate::snapshot::{
    app_info_program, app_info_text, encode_app_info, member_text, lemma_app_info_written, parse_app_info, read_app_info_at,
    write_app_info,
};
use crate::text::{
    append_str, chars_of, is_blank, is_blank_chars, matches_at, occurs_at, str_is, string_of,
    texts, trim, trim_chars,
};
use crate::wire::{
    has_at, lemma_has_at_concat, lemma_has_at_one, lemma_read_list_of_quoted_list,
    lemma_read_quoted_of_quoted,
    parse_list, parse_quoted, quoted, quoted_list, read_list, read_quoted, skip_gap,
    skip_gap_chars, write_quoted, write_quoted_list,
};
use vstd::prelude::*;
use vstd::string::StrSliceExecFns;
use vstd::utf8::{decode_utf8, encode_utf8, valid_utf8};

verus! {

/// How many bytes one read from a connection takes at most. A message fits
/// into one read.
pub const FRAME_SIZE: usize = 1024;

/// The number of the signal that asks a process to end.
pub const SIGTERM: u8 = 15;

/// The number of the signal that ends a process at once.
pub const SIGKILL: u8 = 9;

/// An event on the control socket.
#[derive(Debug)]
pub enum SocketEvent {
    /// Asks for the launch descriptor. The request carries a descriptor
    /// that is not looked at.
    RetrieveAppInfo(Box<Application>),
    /// Asks for the command history; the answer carries it, most recent
    /// command first.
    CommandHistory(Vec<String>),
    /// Text for the child's standard input.
    WriteStdin(String),
    /// Asks the child to exit.
    Stop,
    /// Asks whether the supervisor is there; the answer is the same event.
    Ping,
}

/// What an event holds.
pub enum Event {
    RetrieveAppInfo(Descriptor),
    CommandHistory(Seq<Seq<char>>),
    WriteStdin(Seq<char>),
    Stop,
    Ping,
}

impl View for SocketEvent {
    type V = Event;

    open spec fn view(&self) -> Event {
        match self {
            SocketEvent::RetrieveAppInfo(app) => Event::RetrieveAppInfo((**app)@),
            SocketEvent::CommandHistory(list) => Event::CommandHistory(texts(list@)),
            SocketEvent::WriteStdin(text) => Event::WriteStdin(text@),
            SocketEvent::Stop => Event::Stop,
            SocketEvent::Ping => Event::Ping,
        }
    }
}

/// The name under which an event stands in a message.
pub open spec fn tag_of(e: Event) -> Seq<char> {
    match e {
        Event::RetrieveAppInfo(_) => "RetrieveAppInfo"@,
        Event::CommandHistory(_) => "CommandHistory"@,
        Event::WriteStdin(_) => "WriteStdin"@,
        Event::Stop => "Stop"@,
        Event::Ping => "Ping"@,
    }
}

/// The value that carries what an event holds.
pub open spec fn payload_text(e: Event) -> Seq<char> {
    match e {
        Event::RetrieveAppInfo(d) => app_info_text(d),
        Event::CommandHistory(list) => quoted_list(list),
        Event::WriteStdin(text) => quoted(text),
        Event::Stop => "null"@,
        Event::Ping => "null"@,
    }
}

/// The message for an event.
pub open spec fn event_text(e: Event) -> Seq<char> {
    seq!['{'] + quoted(tag_of(e)) + seq![':'] + payload_text(e) + seq!['}']
}

/// The event named `tag` whose value starts at `t[i]`, and the index behind
/// the value.
pub open spec fn read_payload(t: Seq<char>, i: int, tag: Seq<char>) -> Option<(Event, int)> {
    if tag == "Ping"@ {
        if occurs_at(t, "null"@, i) {
            Some((Event::Ping, i + 4))
        } else {
            None
        }
    } else if tag == "Stop"@ {
        if occurs_at(t, "null"@, i) {
            Some((Event::Stop, i + 4))
        } else {
            None
        }
    } else if tag == "RetrieveAppInfo"@ {
        let j = skip_gap(t, i + 1);
        if 0 <= i < j < t.len() && t[i] == '{' && t[j] == '}' {
            Some((Event::RetrieveAppInfo(placeholder_descriptor()), j + 1))
        } else {
            match read_app_info_at(t, i) {
                Some((d, k)) => Some((Event::RetrieveAppInfo(d), k)),
                None => None,
            }
        }
    } else if tag == "WriteStdin"@ {
        match read_quoted(t, i) {
            Some((text, k)) => Some((Event::WriteStdin(text), k)),
            None => None,
        }
    } else if tag == "CommandHistory"@ {
        match read_list(t, i) {
            Some((list, k)) => Some((Event::CommandHistory(list), k)),
            None => None,
        }
    } else {
        None
    }
}

/// The event behind the opening brace at `t[a]`.
pub open spec fn read_member(t: Seq<char>, a: int) -> Option<Event> {
    match read_quoted(t, skip_gap(t, a + 1)) {
        Some((tag, b)) => {
            let c = skip_gap(t, b);
            if 0 <= c < t.len() && t[c] == ':' {
                match read_payload(t, skip_gap(t, c + 1), tag) {
                    Some((e, d)) => {
                        let f = skip_gap(t, d);
                        if 0 <= f < t.len() && t[f] == '}' {
                            Some(e)
                        } else {
                            None
                        }
                    },
                    None => None,
                }
            } else {
                None
            }
        },
        None => None,
    }
}

/// The event that the message at the start of `t` tells, if it tells one.
pub open spec fn read_event(t: Seq<char>) -> Option<Event> {
    let a = skip_gap(t, 0);
    if a < 0 || a >= t.len() {
        None
    } else if t[a] == '"' {
        match read_quoted(t, a) {
            Some((tag, _)) => if tag == "Ping"@ {
                Some(Event::Ping)
            } else if tag == "Stop"@ {
                Some(Event::Stop)
            } else {
                None
            },
            None => None,
        }
    } else if t[a] == '{' {
        read_member(t, a)
    } else {
        None
    }
}

/// The bytes that are sent for an event.
pub open spec fn frame_of(e: Event) -> Seq<u8> {
    encode_utf8(event_text(e))
}

/// The event that received bytes tell, if they tell one.
pub open spec fn event_of_frame(frame: Seq<u8>) -> Option<Event> {
    if valid_utf8(frame) {
        read_event(decode_utf8(frame))
    } else {
        None
    }
}

/// No two events stand under the same name.
proof fn lemma_tags_differ()
    ensures
        "Ping"@ != "Stop"@,
        "Ping"@ != "RetrieveAppInfo"@,
        "Ping"@ != "WriteStdin"@,
        "Ping"@ != "CommandHistory"@,
        "Stop"@ != "RetrieveAppInfo"@,
        "Stop"@ != "WriteStdin"@,
        "Stop"@ != "CommandHistory"@,
        "RetrieveAppInfo"@ != "WriteStdin"@,
        "RetrieveAppInfo"@ != "CommandHistory"@,
        "WriteStdin"@ != "CommandHistory"@,
{
    reveal_strlit("Ping");
    reveal_strlit("Stop");
    reveal_strlit("RetrieveAppInfo");
    reveal_strlit("WriteStdin");
    reveal_strlit("CommandHistory");
    assert("Ping"@[0] != "Stop"@[0]);
    assert("Ping"@.len() == 4 && "Stop"@.len() == 4);
    assert("RetrieveAppInfo"@.len() == 15);
    assert("WriteStdin"@.len() == 10);
    assert("CommandHistory"@.len() == 14);
}

/// Reading a text that starts with the message that was written for an
/// event gives the event.
pub proof fn lemma_event_at_start(t: Seq<char>, e: Event)
    requires
        has_at(t, 0, event_text(e)),
    ensures
        read_event(t) == Some(e),
{
    let tag = tag_of(e);
    let q = quoted(tag);
    let p = payload_text(e);
    let ql = q.len() as int;
    let pl = p.len() as int;
    lemma_tags_differ();
    reveal_strlit("null");
    lemma_has_at_concat(t, 0, seq!['{'] + q + seq![':'] + p, seq!['}']);
    lemma_has_at_concat(t, 0, seq!['{'] + q + seq![':'], p);
    lemma_has_at_concat(t, 0, seq!['{'] + q, seq![':']);
    lemma_has_at_concat(t, 0, seq!['{'], q);
    lemma_has_at_one(t, 0, '{');
    lemma_has_at_one(t, 1 + ql, ':');
    lemma_has_at_one(t, 1 + ql + 1 + pl, '}');
    assert(skip_gap(t, 0) == 0);
    assert(q[0] == '"');
    assert(t[1int + 0] == q[0]);
    assert(skip_gap(t, 1) == 1);
    lemma_read_quoted_of_quoted(t, 1, tag);
    let b = 1 + ql;
    assert(skip_gap(t, b) == b);
    let d = b + 1 + pl;
    match e {
        Event::RetrieveAppInfo(descriptor) => {
            reveal(app_info_program);
            let program = app_info_program(descriptor);
            assert(quoted("name"@)[0] == '"');
            assert(member_text("name"@, quoted(descriptor.name))[0] == '"');
            assert(program[0] == '"');
            assert(p[0] == '{' && p[1] == program[0]);
            assert(t[b + 1 + 0] == p[0]);
            assert(t[b + 1 + 1] == p[1]);
            assert(skip_gap(t, b + 1) == b + 1);
            assert(skip_gap(t, b + 2) == b + 2);
            lemma_app_info_written(t, b + 1, descriptor);
        },
        Event::CommandHistory(list) => {
            assert(p[0] == '[');
            assert(t[b + 1 + 0] == p[0]);
            assert(skip_gap(t, b + 1) == b + 1);
            lemma_read_list_of_quoted_list(t, b + 1, list);
        },
        Event::WriteStdin(text) => {
            assert(p[0] == '"');
            assert(t[b + 1 + 0] == p[0]);
            assert(skip_gap(t, b + 1) == b + 1);
            lemma_read_quoted_of_quoted(t, b + 1, text);
        },
        Event::Stop => {
            assert(t[b + 1 + 0] == p[0]);
            assert(t[b + 1 + 1] == p[1]);
            assert(t[b + 1 + 2] == p[2]);
            assert(t[b + 1 + 3] == p[3]);
            assert(skip_gap(t, b + 1) == b + 1);
            assert(t.subrange(b + 1, b + 1 + 4) =~= "null"@);
        },
        Event::Ping => {
            assert(t[b + 1 + 0] == p[0]);
            assert(t[b + 1 + 1] == p[1]);
            assert(t[b + 1 + 2] == p[2]);
            assert(t[b + 1 + 3] == p[3]);
            assert(skip_gap(t, b + 1) == b + 1);
            assert(t.subrange(b + 1, b + 1 + 4) =~= "null"@);
        },
    }
    assert(read_payload(t, b + 1, tag) == Some((e, d)));
    assert(skip_gap(t, d) == d);
    assert(read_member(t, 0) == Some(e));
}

/// Reading the message that was written for an event gives the event back.
pub proof fn lemma_event_round_trip(e: Event)
    ensures
        read_event(event_text(e)) == Some(e),
{
    let t = event_text(e);
    assert(has_at(t, 0, t));
    lemma_event_at_start(t, e);
}

/// What follows a message is left aside: a message with any text behind it
/// tells the same event as the message alone.
pub proof fn lemma_tail_ignored(e: Event, tail: Seq<char>)
    ensures
        read_event(event_text(e) + tail) == Some(e),
        event_of_frame(encode_utf8(event_text(e) + tail)) == Some(e),
{
    let m = event_text(e);
    let t = m + tail;
    assert forall|k: int| 0 <= k < m.len() implies t[0 + k] == #[trigger] m[k] by {}
    assert(has_at(t, 0, m));
    lemma_event_at_start(t, e);
    vstd::utf8::encode_utf8_valid_utf8(t);
    vstd::utf8::encode_utf8_decode_utf8(t);
}

/// Encoding an event and decoding the bytes gives the event back.
pub proof fn lemma_frame_round_trip(e: Event)
    ensures
        event_of_frame(frame_of(e)) == Some(e),
{
    lemma_event_round_trip(e);
    vstd::utf8::encode_utf8_valid_utf8(event_text(e));
    vstd::utf8::encode_utf8_decode_utf8(event_text(e));
}

/// The text that valid UTF-8 bytes hold (`std::str::from_utf8` of the
/// standard library: it succeeds exactly on valid UTF-8, and the text it
/// gives is the one that the bytes encode).
#[verifier::external_body]
pub(crate) fn text_of_utf8(bytes: &[u8]) -> (r: Option<String>)
    ensures
        r is Some <==> valid_utf8(bytes@),
        r is Some ==> r->0@ == decode_utf8(bytes@),
{
    match std::str::from_utf8(bytes) {
        Ok(text) => Some(text.to_string()),
        Err(_) => None,
    }
}

/// The bytes that encode the characters `v`.
pub fn utf8_of_chars(v: &Vec<char>) -> (r: Vec<u8>)
    ensures
        r@ == encode_utf8(v@),
{
    let s = string_of(v);
    s.as_str().as_bytes_vec()
}

/// Reads the value of the member named `tag` at `t[i]`.
fn parse_payload(t: &Vec<char>, i: usize, tag: &String) -> (r: Option<(SocketEvent, usize)>)
    requires
        i <= t.len(),
    ensures
        match r {
            Some((e, k)) => read_payload(t@, i as int, tag@) == Some((e@, k as int)) && k
                <= t.len(),
            None => read_payload(t@, i as int, tag@) is None,
        },
{
    let name = chars_of(tag.as_str());
    let null = chars_of("null");
    proof {
        reveal_strlit("null");
    }
    if str_is(&name, "Ping") {
        if matches_at(t, &null, i) {
            Some((SocketEvent::Ping, i + 4))
        } else {
            None
        }
    } else if str_is(&name, "Stop") {
        if matches_at(t, &null, i) {
            Some((SocketEvent::Stop, i + 4))
        } else {
            None
        }
    } else if str_is(&name, "RetrieveAppInfo") {
        if i < t.len() && t[i] == '{' {
            let j = skip_gap_chars(t, i + 1);
            if j < t.len() && t[j] == '}' {
                return Some((SocketEvent::RetrieveAppInfo(Box::new(Application::placeholder())), j + 1));
            }
        } else {
            proof {
                if i >= t.len() {
                    assert(skip_gap(t@, i + 1) == i + 1);
                }
            }
        }
        match parse_app_info(t, i) {
            Some((app, k)) => Some((SocketEvent::RetrieveAppInfo(Box::new(app)), k)),
            None => None,
        }
    } else if str_is(&name, "WriteStdin") {
        match parse_quoted(t, i) {
            Some((text, k)) => Some((SocketEvent::WriteStdin(text), k)),
            None => None,
        }
    } else if str_is(&name, "CommandHistory") {
        match parse_list(t, i) {
            Some((list, k)) => Some((SocketEvent::CommandHistory(list), k)),
            None => None,
        }
    } else {
        None
    }
}

/// Reads the event that the message at the start of `t` tells.
pub fn decode_text(t: &Vec<char>) -> (r: Option<SocketEvent>)
    ensures
        match r {
            Some(e) => read_event(t@) == Some(e@),
            None => read_event(t@) is None,
        },
{
    let a = skip_gap_chars(t, 0);
    if a >= t.len() {
        return None;
    }
    if t[a] == '"' {
        return match parse_quoted(t, a) {
            Some((tag, _)) => {
                let name = chars_of(tag.as_str());
                if str_is(&name, "Ping") {
                    Some(SocketEvent::Ping)
                } else if str_is(&name, "Stop") {
                    Some(SocketEvent::Stop)
                } else {
                    None
                }
            },
            None => None,
        };
    }
    if t[a] != '{' {
        return None;
    }
    let start = skip_gap_chars(t, a + 1);
    let (tag, b) = match parse_quoted(t, start) {
        Some(found) => found,
        None => {
            return None;
        },
    };
    let c = skip_gap_chars(t, b);
    if c >= t.len() || t[c] != ':' {
        return None;
    }
    let value = skip_gap_chars(t, c + 1);
    let (event, d) = match parse_payload(t, value, &tag) {
        Some(found) => found,
        None => {
            return None;
        },
    };
    let f = skip_gap_chars(t, d);
    if f < t.len() && t[f] == '}' {
        Some(event)
    } else {
        None
    }
}

/// Writes the message for an event.
pub fn encode_text(event: &SocketEvent) -> (r: Vec<char>)
    ensures
        r@ == event_text(event@),
{
    let mut out: Vec<char> = Vec::new();
    out.push('{');
    match event {
        SocketEvent::RetrieveAppInfo(app) => {
            write_quoted(&mut out, "RetrieveAppInfo");
            out.push(':');
            write_app_info(&mut out, app);
        },
        SocketEvent::CommandHistory(list) => {
            write_quoted(&mut out, "CommandHistory");
            out.push(':');
            write_quoted_list(&mut out, list);
        },
        SocketEvent::WriteStdin(text) => {
            write_quoted(&mut out, "WriteStdin");
            out.push(':');
            write_quoted(&mut out, text.as_str());
        },
        SocketEvent::Stop => {
            write_quoted(&mut out, "Stop");
            out.push(':');
            append_str(&mut out, "null");
        },
        SocketEvent::Ping => {
            write_quoted(&mut out, "Ping");
            out.push(':');
            append_str(&mut out, "null");
        },
    }
    out.push('}');
    assert(out@ =~= event_text(event@));
    out
}

impl SocketEvent {
    /// The bytes to send for this event.
    pub fn encode(&self) -> (r: Vec<u8>)
        ensures
            r@ == frame_of(self@),
    {
        let text = encode_text(self);
        utf8_of_chars(&text)
    }

    /// The event that received bytes tell. Bytes that are no UTF-8, or that
    /// do not start with a message of a known event, tell none.
    pub fn decode(frame: &[u8]) -> (r: Option<SocketEvent>)
        ensures
            match r {
                Some(e) => event_of_frame(frame@) == Some(e@),
                None => event_of_frame(frame@) is None,
            },
    {
        match text_of_utf8(frame) {
            Some(text) => decode_text(&chars_of(text.as_str())),
            None => None,
        }
    }
}

/// What the supervisor holds while it serves clients.
pub struct Supervisor {
    /// How the child was launched.
    pub app_info: Application,
    /// The texts that clients sent for the child's input, most recent
    /// first.
    pub command_history: Vec<String>,
    /// The child's process number.
    pub pid: u32,
}

/// What a supervisor holds.
pub struct SupervisorState {
    pub descriptor: Descriptor,
    pub history: Seq<Seq<char>>,
    pub pid: u32,
}

impl View for Supervisor {
    type V = SupervisorState;

    open spec fn view(&self) -> SupervisorState {
        SupervisorState {
            descriptor: self.app_info@,
            history: texts(self.command_history@),
            pid: self.pid,
        }
    }
}

/// What the supervisor does for one event.
#[derive(Debug)]
pub struct Reaction {
    /// Bytes to write back on the connection that the event came on.
    pub reply: Option<Vec<u8>>,
    /// Text to write to the child's standard input, which is then flushed.
    pub stdin: Option<String>,
    /// A signal to deliver to the child.
    pub signal: Option<u8>,
    /// Whether the connection is served no further.
    pub close: bool,
}

/// What a reaction holds.
pub struct Response {
    pub reply: Option<Seq<u8>>,
    pub stdin: Option<Seq<char>>,
    pub signal: Option<u8>,
    pub close: bool,
}

impl View for Reaction {
    type V = Response;

    open spec fn view(&self) -> Response {
        Response {
            reply: match self.reply {
                Some(bytes) => Some(bytes@),
                None => None,
            },
            stdin: match self.stdin {
                Some(text) => Some(text@),
                None => None,
            },
            signal: self.signal,
            close: self.close,
        }
    }
}

/// The reaction that does nothing.
pub open spec fn no_response() -> Response {
    Response { reply: None, stdin: None, signal: None, close: false }
}

/// The history once an event is handled: a text for the child's input that
/// is not blank is put in front; nothing else changes the history.
pub open spec fn history_after(history: Seq<Seq<char>>, e: Event) -> Seq<Seq<char>> {
    match e {
        Event::WriteStdin(text) => if is_blank(text) {
            history
        } else {
            seq![text] + history
        },
        _ => history,
    }
}

/// The supervisor's state once an event is handled.
pub open spec fn state_after(s: SupervisorState, e: Event) -> SupervisorState {
    SupervisorState { history: history_after(s.history, e), ..s }
}

/// What the supervisor does for an event.
///
/// - `Ping` is answered with `Ping`.
/// - `RetrieveAppInfo` is answered with the snapshot of the supervisor's
///   descriptor, whatever descriptor came with it.
/// - `CommandHistory` is answered with the history.
/// - `WriteStdin` has its text trimmed and written with a line feed to the
///   child's input; a blank text is dropped.
/// - `Stop` writes the stop command with a line feed to the child's input
///   where the descriptor has one; else the child gets `SIGTERM` and the
///   connection is served no further.
pub open spec fn response_to(s: SupervisorState, e: Event) -> Response {
    match e {
        Event::Ping => Response { reply: Some(frame_of(Event::Ping)), ..no_response() },
        Event::RetrieveAppInfo(_) => Response {
            reply: Some(encode_utf8(app_info_text(s.descriptor))),
            ..no_response()
        },
        Event::CommandHistory(_) => Response {
            reply: Some(frame_of(Event::CommandHistory(s.history))),
            ..no_response()
        },
        Event::WriteStdin(text) => if is_blank(text) {
            no_response()
        } else {
            Response { stdin: Some(trim(text).push('\n')), ..no_response() }
        },
        Event::Stop => match s.descriptor.stop_command {
            Some(cmd) => Response { stdin: Some(cmd.push('\n')), ..no_response() },
            None => Response { signal: Some(SIGTERM), close: true, ..no_response() },
        },
    }
}

impl Supervisor {
    /// A supervisor for a child that was just launched: nothing has been
    /// sent to it yet.
    pub fn new(app_info: Application, pid: u32) -> (r: Supervisor)
        ensures
            r@ == (SupervisorState { descriptor: app_info@, history: Seq::empty(), pid }),
    {
        let r = Supervisor { app_info, command_history: Vec::new(), pid };
        assert(texts(r.command_history@) =~= Seq::<Seq<char>>::empty());
        r
    }

    /// Handles one event: changes the history as the event asks, and tells
    /// what is to be done for it.
    pub fn handle_event(&mut self, event: SocketEvent) -> (r: Reaction)
        ensures
            final(self)@ == state_after(old(self)@, event@),
            r@ == response_to(old(self)@, event@),
    {
        let ghost before = texts(self.command_history@);
        match event {
            SocketEvent::Ping => Reaction {
                reply: Some(SocketEvent::Ping.encode()),
                stdin: None,
                signal: None,
                close: false,
            },
            SocketEvent::RetrieveAppInfo(_) => Reaction {
                reply: Some(encode_app_info(&self.app_info)),
                stdin: None,
                signal: None,
                close: false,
            },
            SocketEvent::CommandHistory(_) => {
                let mut out: Vec<char> = Vec::new();
                out.push('{');
                write_quoted(&mut out, "CommandHistory");
                out.push(':');
                write_quoted_list(&mut out, &self.command_history);
                out.push('}');
                assert(out@ =~= event_text(Event::CommandHistory(before)));
                Reaction { reply: Some(utf8_of_chars(&out)), stdin: None, signal: None, close: false }
            },
            SocketEvent::WriteStdin(text) => {
                let v = chars_of(text.as_str());
                if is_blank_chars(&v) {
                    Reaction { reply: None, stdin: None, signal: None, close: false }
                } else {
                    let mut line = trim_chars(&v);
                    line.push('\n');
                    let ghost sent = text@;
                    self.command_history.insert(0, text);
                    assert(texts(self.command_history@) =~= seq![sent] + before);
                    Reaction {
                        reply: None,
                        stdin: Some(string_of(&line)),
                        signal: None,
                        close: false,
                    }
                }
            },
            SocketEvent::Stop => match &self.app_info.stop_command {
                Some(cmd) => {
                    let mut line = chars_of(cmd.as_str());
                    line.push('\n');
                    Reaction {
                        reply: None,
                        stdin: Some(string_of(&line)),
                        signal: None,
                        close: false,
                    }
                },
                None => Reaction { reply: None, stdin: None, signal: Some(SIGTERM), close: true },
            },
        }
    }

    /// Handles the bytes of one read from a connection. Bytes that tell no
    /// event change nothing and get no reaction: the connection stays open
    /// and the client sees no answer.
    pub fn handle_frame(&mut self, frame: &[u8]) -> (r: Option<Reaction>)
        ensures
            match event_of_frame(frame@) {
                Some(e) => r is Some && r->0@ == response_to(old(self)@, e) && final(self)@
                    == state_after(old(self)@, e),
                None => r is None && final(self)@ == old(self)@,
            },
    {
        match SocketEvent::decode(frame) {
            Some(event) => Some(self.handle_event(event)),
            None => None,
        }
    }
}

/// Handling `WriteStdin` with a text that is not blank puts that text at
/// the front of the history, which grows by one; the child's input gets the
/// trimmed text and a line feed.
pub proof fn lemma_write_stdin_recorded(s: SupervisorState, text: Seq<char>)
    requires
        !is_blank(text),
    ensures
        state_after(s, Event::WriteStdin(text)).history.len() == s.history.len() + 1,
        state_after(s, Event::WriteStdin(text)).history[0] == text,
        state_after(s, Event::WriteStdin(text)).history.subrange(
            1,
            s.history.len() as int + 1,
        ) == s.history,
        response_to(s, Event::WriteStdin(text)).stdin == Some(trim(text).push('\n')),
{
    let after = state_after(s, Event::WriteStdin(text)).history;
    assert(after.subrange(1, s.history.len() as int + 1) =~= s.history);
}

/// Handling `WriteStdin` with an empty or blank text does nothing: nothing
/// is written to the child, and the history stays as it is.
pub proof fn lemma_blank_write_dropped(s: SupervisorState, text: Seq<char>)
    requires
        is_blank(text),
    ensures
        state_after(s, Event::WriteStdin(text)) == s,
        response_to(s, Event::WriteStdin(text)) == no_response(),
{
}

/// Handling `CommandHistory` leaves the state as it is, whatever list the
/// request carries, and answers with the history.
pub proof fn lemma_history_request_reads_only(s: SupervisorState, list: Seq<Seq<char>>)
    ensures
        state_after(s, Event::CommandHistory(list)) == s,
        response_to(s, Event::CommandHistory(list)).reply == Some(
            frame_of(Event::CommandHistory(s.history)),
        ),
        event_of_frame(frame_of(Event::CommandHistory(s.history))) == Some(
            Event::CommandHistory(s.history),
        ),
{
    lemma_frame_round_trip(Event::CommandHistory(s.history));
}

/// Two `Ping`s in a row are both answered with bytes that tell `Ping`, and
/// neither changes the state.
pub proof fn lemma_ping_twice(s: SupervisorState)
    ensures
        state_after(s, Event::Ping) == s,
        response_to(s, Event::Ping).reply is Some,
        event_of_frame(response_to(s, Event::Ping).reply->0) == Some(Event::Ping),
        response_to(state_after(s, Event::Ping), Event::Ping) == response_to(s, Event::Ping),
{
    lemma_frame_round_trip(Event::Ping);
}

/// How a write to the child's standard input ended.
#[derive(Debug, Clone, Copy, PartialEq, Eq, Structural)]
pub enum WriteOutcome {
    /// The text was written.
    Written,
    /// The child has closed its end of the pipe.
    BrokenPipe,
    /// Another error.
    Failed,
}

/// What follows a write to the child's standard input.
#[derive(Debug, Clone, Copy, PartialEq, Eq, Structural)]
pub struct WriteFollowUp {
    /// A signal to deliver to the child.
    pub signal: Option<u8>,
    /// Whether the writer is closed.
    pub close_writer: bool,
    /// Whether the failure is logged and told to the client.
    pub report: bool,
}

/// What follows a write to the child's standard input: a broken pipe gets
/// the child `SIGTERM` and closes the writer; another error is reported and
/// goes no further.
pub fn after_stdin_write(outcome: WriteOutcome) -> (r: WriteFollowUp)
    ensures
        r == (match outcome {
            WriteOutcome::Written => WriteFollowUp {
                signal: None,
                close_writer: false,
                report: false,
            },
            WriteOutcome::BrokenPipe => WriteFollowUp {
                signal: Some(SIGTERM),
                close_writer: true,
                report: true,
            },
            WriteOutcome::Failed => WriteFollowUp {
                signal: None,
                close_writer: false,
                report: true,
            },
        }),
{
    match outcome {
        WriteOutcome::Written => WriteFollowUp { signal: None, close_writer: false, report: false },
        WriteOutcome::BrokenPipe => WriteFollowUp {
            signal: Some(SIGTERM),
            close_writer: true,
            report: true,
        },
        WriteOutcome::Failed => WriteFollowUp { signal: None, close_writer: false, report: true },
    }
}

/// The steps of a launch, in their order.
#[derive(Debug, Clone, Copy, PartialEq, Eq, Structural)]
pub enum StartupStep {
    /// The child is spawned, its input a pipe, its output the log file.
    Spawn,
    /// The child is asked whether it has exited already.
    CheckRunning,
    /// The supervisor takes the child's input.
    TakeStdin,
    /// The child's process number goes into the PID file.
    AppendPid,
    /// The control socket is bound.
    BindSocket,
}

/// How a launch is given up.
#[derive(Debug, Clone, Copy, PartialEq, Eq, Structural)]
pub struct StartupAbort {
    /// Whether the child is there and has to be terminated first.
    pub terminate_child: bool,
    /// The error that the launch ends in.
    pub error: CrescentError,
}

/// The step that follows `step`, if the launch is not complete with it.
pub fn next_startup_step(step: StartupStep) -> (r: Option<StartupStep>)
    ensures
        r == (match step {
            StartupStep::Spawn => Some(StartupStep::CheckRunning),
            StartupStep::CheckRunning => Some(StartupStep::TakeStdin),
            StartupStep::TakeStdin => Some(StartupStep::AppendPid),
            StartupStep::AppendPid => Some(StartupStep::BindSocket),
            StartupStep::BindSocket => None,
        }),
{
    match step {
        StartupStep::Spawn => Some(StartupStep::CheckRunning),
        StartupStep::CheckRunning => Some(StartupStep::TakeStdin),
        StartupStep::TakeStdin => Some(StartupStep::AppendPid),
        StartupStep::AppendPid => Some(StartupStep::BindSocket),
        StartupStep::BindSocket => None,
    }
}

/// How the launch is given up when `step` fails. A child that was spawned
/// and has not exited is terminated before the launch ends in its error.
pub fn startup_failure(step: StartupStep) -> (r: StartupAbort)
    ensures
        r.terminate_child == (step != StartupStep::Spawn && step != StartupStep::CheckRunning),
        r.error == (match step {
            StartupStep::BindSocket => CrescentError::SocketBindError,
            StartupStep::AppendPid => CrescentError::PidFileWrite,
            _ => CrescentError::SubprocessFailedToStart,
        }),
{
    match step {
        StartupStep::Spawn => StartupAbort {
            terminate_child: false,
            error: CrescentError::SubprocessFailedToStart,
        },
        StartupStep::CheckRunning => StartupAbort {
            terminate_child: false,
            error: CrescentError::SubprocessFailedToStart,
        },
        StartupStep::TakeStdin => StartupAbort {
            terminate_child: true,
            error: CrescentError::SubprocessFailedToStart,
        },
        StartupStep::AppendPid => StartupAbort {
            terminate_child: true,
            error: CrescentError::PidFileWrite,
        },
        StartupStep::BindSocket => StartupAbort {
            terminate_child: true,
            error: CrescentError::SocketBindError,
        },
    }
}

/// What is done to the application's files when the supervisor ends.
#[derive(Debug, Clone, Copy, PartialEq, Eq, Structural)]
pub struct Cleanup {
    /// Whether the child is probed and, where alive, sent `SIGTERM`.
    pub terminate_child: bool,
    /// Whether the socket file is removed.
    pub remove_socket: bool,
    /// Whether the PID file is removed.
    pub remove_pid_file: bool,
}

/// What is done when the supervisor ends, on whatever path: the socket file
/// is removed where it is there, the PID file stays. A child that has not
/// been seen to exit is terminated.
pub fn cleanup(child_exited: bool, socket_exists: bool) -> (r: Cleanup)
    ensures
        r.terminate_child == !child_exited,
        r.remove_socket == socket_exists,
        !r.remove_pid_file,
{
    Cleanup { terminate_child: !child_exited, remove_socket: socket_exists, remove_pid_file: false }
}

/// The text that bytes received on the older, plain-text channel hold for
/// the child's input: the bytes as text, where they are UTF-8.
pub fn input_of_bytes(received: &[u8]) -> (r: Option<String>)
    ensures
        r is Some <==> valid_utf8(received@),
        r is Some ==> r->0@ == decode_utf8(received@),
{
    text_of_utf8(received)
}

} // verus!
