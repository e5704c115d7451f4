//! The snapshot of a launch descriptor that answers a request for it: one
//! object with the descriptor's fields as members, written and read in one
//! order.

use crate::process::{Application, Descriptor};
use crate::subprocess::{text_of_utf8, utf8_of_chars};
use crate::text::{append_str, chars_of, matches_at, occurs_at, str_is};
use crate::wire::{
    has_at, is_gap, lemma_has_at_concat, lemma_has_at_one, lemma_read_list_of_quoted_list,
    lemma_read_quoted_of_quoted, parse_list, parse_quoted, quoted, quoted_list, read_list,
    read_quoted, skip_gap, skip_gap_chars, write_quoted, write_quoted_list,
};
use vstd::prelude::*;
use vstd::utf8::{decode_utf8, encode_utf8, valid_utf8};

verus! {

/// A member of an object: its name, a colon, and its value.
pub open spec fn member_text(key: Seq<char>, value: Seq<char>) -> Seq<char> {
    quoted(key) + seq![':'] + value
}

/// The value for an optional string: its literal, or `null`.
pub open spec fn optional_text(s: Option<Seq<char>>) -> Seq<char> {
    match s {
        Some(s) => quoted(s),
        None => "null"@,
    }
}

/// The members of the snapshot that tell what is run.
#[verifier::opaque]
pub open spec fn app_info_program(d: Descriptor) -> Seq<char> {
    member_text("name"@, quoted(d.name)) + seq![','] + member_text(
        "interpreter"@,
        quoted(d.interpreter),
    ) + seq![','] + member_text("args"@, quoted_list(d.args))
}

/// The members of the snapshot that tell where it is run.
#[verifier::opaque]
pub open spec fn app_info_places(d: Descriptor) -> Seq<char> {
    member_text("file_path"@, quoted(d.file_path)) + seq![','] + member_text(
        "app_dir"@,
        quoted(d.app_dir),
    ) + seq![','] + member_text("work_dir"@, quoted(d.work_dir))
}

/// The snapshot of a launch descriptor that answers `RetrieveAppInfo`: one
/// object with the descriptor's fields as members.
pub open spec fn app_info_text(d: Descriptor) -> Seq<char> {
    seq!['{'] + app_info_program(d) + seq![','] + app_info_places(d) + seq![',']
        + member_text("stop_command"@, optional_text(d.stop_command)) + seq!['}']
}

/// Appends a member with a string as its value.
fn write_member(out: &mut Vec<char>, key: &str, value: &str)
    ensures
        final(out)@ == old(out)@ + member_text(key@, quoted(value@)),
{
    write_quoted(out, key);
    out.push(':');
    write_quoted(out, value);
    assert(out@ =~= old(out)@ + member_text(key@, quoted(value@)));
}

/// Appends the members that tell what is run.
fn write_program(out: &mut Vec<char>, app: &Application)
    ensures
        final(out)@ == old(out)@ + app_info_program(app@),
{
    write_member(out, "name", app.name.as_str());
    out.push(',');
    write_member(out, "interpreter", app.interpreter.as_str());
    out.push(',');
    write_quoted(out, "args");
    out.push(':');
    write_quoted_list(out, &app.args);
    proof {
        reveal(app_info_program);
    }
    assert(out@ =~= old(out)@ + app_info_program(app@));
}

/// Appends the members that tell where it is run.
fn write_places(out: &mut Vec<char>, app: &Application)
    ensures
        final(out)@ == old(out)@ + app_info_places(app@),
{
    write_member(out, "file_path", app.file_path.as_str());
    out.push(',');
    write_member(out, "app_dir", app.app_dir.as_str());
    out.push(',');
    write_member(out, "work_dir", app.work_dir.as_str());
    proof {
        reveal(app_info_places);
    }
    assert(out@ =~= old(out)@ + app_info_places(app@));
}

/// Appends the member that tells the stop command.
fn write_stop_command(out: &mut Vec<char>, app: &Application)
    ensures
        final(out)@ == old(out)@ + member_text(
            "stop_command"@,
            optional_text(app@.stop_command),
        ),
{
    write_quoted(out, "stop_command");
    out.push(':');
    match &app.stop_command {
        Some(cmd) => {
            write_quoted(out, cmd.as_str());
        },
        None => {
            append_str(out, "null");
        },
    }
    assert(out@ =~= old(out)@ + member_text("stop_command"@, optional_text(app@.stop_command)));
}

/// Appends the snapshot of a launch descriptor.
pub fn write_app_info(out: &mut Vec<char>, app: &Application)
    ensures
        final(out)@ == old(out)@ + app_info_text(app@),
{
    out.push('{');
    write_program(out, app);
    out.push(',');
    write_places(out, app);
    out.push(',');
    write_stop_command(out, app);
    out.push('}');
    assert(out@ =~= old(out)@ + app_info_text(app@));
}

/// Writes the snapshot of a launch descriptor.
pub fn encode_app_info(app: &Application) -> (r: Vec<u8>)
    ensures
        r@ == encode_utf8(app_info_text(app@)),
{
    let mut out: Vec<char> = Vec::new();
    write_app_info(&mut out, app);
    assert(Seq::<char>::empty() + app_info_text(app@) == app_info_text(app@));
    utf8_of_chars(&out)
}

/// The index of the value of the member named `key` whose name starts at
/// or behind `t[i]`, white space left aside.
pub open spec fn read_key(t: Seq<char>, i: int, key: Seq<char>) -> Option<int> {
    match read_quoted(t, skip_gap(t, i)) {
        Some((name, j)) => {
            let c = skip_gap(t, j);
            if name == key && 0 <= c < t.len() && t[c] == ':' {
                Some(skip_gap(t, c + 1))
            } else {
                None
            }
        },
        None => None,
    }
}

/// The index behind the character `c` that stands at or behind `t[i]`,
/// white space left aside.
pub open spec fn read_mark(t: Seq<char>, i: int, c: char) -> Option<int> {
    let j = skip_gap(t, i);
    if 0 <= j < t.len() && t[j] == c {
        Some(j + 1)
    } else {
        None
    }
}

/// The string that is the value of the member named `key` at `t[i]`, and
/// the index behind it.
pub open spec fn read_text_member(t: Seq<char>, i: int, key: Seq<char>) -> Option<
    (Seq<char>, int),
> {
    match read_key(t, i, key) {
        Some(v) => read_quoted(t, v),
        None => None,
    }
}

/// The string that is the value of the member named `key` at `t[i]`, and
/// the index behind the comma that follows it.
pub open spec fn read_text_then_comma(t: Seq<char>, i: int, key: Seq<char>) -> Option<
    (Seq<char>, int),
> {
    match read_text_member(t, i, key) {
        Some((s, j)) => match read_mark(t, j, ',') {
            Some(k) => Some((s, k)),
            None => None,
        },
        None => None,
    }
}

/// The optional string at `t[i]`: `null` or a string literal.
pub open spec fn read_optional(t: Seq<char>, i: int) -> Option<(Option<Seq<char>>, int)> {
    if occurs_at(t, "null"@, i) {
        Some((None, i + 4))
    } else {
        match read_quoted(t, i) {
            Some((s, k)) => Some((Some(s), k)),
            None => None,
        }
    }
}

/// The name, the program and its arguments of a snapshot, each followed by
/// a comma.
pub open spec fn read_program(t: Seq<char>, i: int) -> Option<
    ((Seq<char>, Seq<char>, Seq<Seq<char>>), int),
> {
    match read_text_then_comma(t, i, "name"@) {
        None => None,
        Some((name, b)) => match read_text_then_comma(t, b, "interpreter"@) {
            None => None,
            Some((interpreter, c)) => match read_key(t, c, "args"@) {
                None => None,
                Some(v) => match read_list(t, v) {
                    None => None,
                    Some((args, d)) => match read_mark(t, d, ',') {
                        None => None,
                        Some(e) => Some(((name, interpreter, args), e)),
                    },
                },
            },
        },
    }
}

/// The stop command of a snapshot, followed by the closing brace; and the
/// index behind the brace.
pub open spec fn read_stop(t: Seq<char>, i: int) -> Option<(Option<Seq<char>>, int)> {
    match read_key(t, i, "stop_command"@) {
        None => None,
        Some(w) => match read_optional(t, w) {
            None => None,
            Some((stop_command, g)) => match read_mark(t, g, '}') {
                None => None,
                Some(end) => Some((stop_command, end)),
            },
        },
    }
}

/// The descriptor that the snapshot at `t[i]` tells, and the index behind
/// the snapshot: its members are read in the order in which a snapshot is
/// written.
pub open spec fn read_app_info_at(t: Seq<char>, i: int) -> Option<(Descriptor, int)> {
    match read_mark(t, i, '{') {
        None => None,
        Some(a) => match read_program(t, a) {
            None => None,
            Some((program, e)) => match read_places(t, e) {
                None => None,
                Some((places, f)) => match read_stop(t, f) {
                    None => None,
                    Some((stop_command, end)) => Some(
                        (
                            Descriptor {
                                name: program.0,
                                interpreter: program.1,
                                args: program.2,
                                file_path: places.0,
                                app_dir: places.1,
                                work_dir: places.2,
                                stop_command,
                            },
                            end,
                        ),
                    ),
                },
            },
        },
    }
}

/// The descriptor that the snapshot at the start of `t` tells.
pub open spec fn read_app_info(t: Seq<char>) -> Option<Descriptor> {
    match read_app_info_at(t, 0) {
        Some((d, _)) => Some(d),
        None => None,
    }
}

/// The three paths of a snapshot, each followed by a comma.
pub open spec fn read_places(t: Seq<char>, i: int) -> Option<
    ((Seq<char>, Seq<char>, Seq<char>), int),
> {
    match read_text_then_comma(t, i, "file_path"@) {
        None => None,
        Some((file_path, a)) => match read_text_then_comma(t, a, "app_dir"@) {
            None => None,
            Some((app_dir, b)) => match read_text_then_comma(t, b, "work_dir"@) {
                None => None,
                Some((work_dir, c)) => Some(((file_path, app_dir, work_dir), c)),
            },
        },
    }
}

/// The descriptor that received bytes tell, if they tell one.
pub open spec fn app_info_of_frame(frame: Seq<u8>) -> Option<Descriptor> {
    if valid_utf8(frame) {
        read_app_info(decode_utf8(frame))
    } else {
        None
    }
}

/// Reading a member's name that was written leads to the member's value,
/// where the colon and the value follow at once.
proof fn lemma_read_key_written(t: Seq<char>, i: int, key: Seq<char>)
    requires
        has_at(t, i, quoted(key)),
        i + quoted(key).len() + 1 < t.len(),
        t[i + quoted(key).len()] == ':',
        !is_gap(t[i + quoted(key).len() + 1]),
    ensures
        read_key(t, i, key) == Some(i + quoted(key).len() + 1),
{
    let q = quoted(key);
    let ql = q.len() as int;
    assert(q[0] == '"');
    assert(t[i + 0] == q[0]);
    assert(skip_gap(t, i) == i);
    lemma_read_quoted_of_quoted(t, i, key);
    assert(skip_gap(t, i + ql) == i + ql);
    assert(skip_gap(t, i + ql + 1) == i + ql + 1);
}

/// Reading a member with a string as its value, and the comma behind it,
/// gives the string back.
proof fn lemma_read_text_written(t: Seq<char>, i: int, key: Seq<char>, value: Seq<char>)
    requires
        has_at(t, i, member_text(key, quoted(value))),
        i + member_text(key, quoted(value)).len() < t.len(),
        t[i + member_text(key, quoted(value)).len()] == ',',
    ensures
        read_text_then_comma(t, i, key) == Some(
            (value, i + member_text(key, quoted(value)).len() + 1),
        ),
{
    let q = quoted(key);
    let v = quoted(value);
    let ql = q.len() as int;
    let vl = v.len() as int;
    lemma_has_at_concat(t, i, q + seq![':'], v);
    lemma_has_at_concat(t, i, q, seq![':']);
    lemma_has_at_one(t, i + ql, ':');
    assert(v[0] == '"');
    assert(t[i + ql + 1 + 0] == v[0]);
    lemma_read_key_written(t, i, key);
    lemma_read_quoted_of_quoted(t, i + ql + 1, value);
    assert(skip_gap(t, i + ql + 1 + vl) == i + ql + 1 + vl);
}

/// Reading the paths of a snapshot that were written gives them back.
proof fn lemma_read_places_written(t: Seq<char>, i: int, d: Descriptor)
    requires
        has_at(t, i, app_info_places(d)),
        i + app_info_places(d).len() < t.len(),
        t[i + app_info_places(d).len()] == ',',
    ensures
        read_places(t, i) == Some(
            ((d.file_path, d.app_dir, d.work_dir), i + app_info_places(d).len() + 1),
        ),
{
    reveal(app_info_places);
    let m1 = member_text("file_path"@, quoted(d.file_path));
    let m2 = member_text("app_dir"@, quoted(d.app_dir));
    let m3 = member_text("work_dir"@, quoted(d.work_dir));
    let c = seq![','];
    let l1 = m1.len() as int;
    let l2 = m2.len() as int;
    lemma_has_at_concat(t, i, m1 + c + m2 + c, m3);
    lemma_has_at_concat(t, i, m1 + c + m2, c);
    lemma_has_at_concat(t, i, m1 + c, m2);
    lemma_has_at_concat(t, i, m1, c);
    lemma_has_at_one(t, i + l1, ',');
    lemma_has_at_one(t, i + l1 + 1 + l2, ',');
    lemma_read_text_written(t, i, "file_path"@, d.file_path);
    lemma_read_text_written(t, i + l1 + 1, "app_dir"@, d.app_dir);
    lemma_read_text_written(t, i + l1 + 1 + l2 + 1, "work_dir"@, d.work_dir);
}

/// Reading the arguments of a snapshot that were written, and the comma
/// behind them, gives them back.
proof fn lemma_read_args_written(t: Seq<char>, i: int, args: Seq<Seq<char>>)
    requires
        has_at(t, i, member_text("args"@, quoted_list(args))),
        i + member_text("args"@, quoted_list(args)).len() < t.len(),
        t[i + member_text("args"@, quoted_list(args)).len()] == ',',
    ensures
        read_key(t, i, "args"@) == Some(i + quoted("args"@).len() + 1),
        read_list(t, i + quoted("args"@).len() + 1) == Some(
            (args, i + member_text("args"@, quoted_list(args)).len()),
        ),
        read_mark(t, i + member_text("args"@, quoted_list(args)).len(), ',') == Some(
            i + member_text("args"@, quoted_list(args)).len() + 1,
        ),
{
    let q = quoted("args"@);
    let v = quoted_list(args);
    let ql = q.len() as int;
    let vl = v.len() as int;
    lemma_has_at_concat(t, i, q + seq![':'], v);
    lemma_has_at_concat(t, i, q, seq![':']);
    lemma_has_at_one(t, i + ql, ':');
    assert(v[0] == '[');
    assert(t[i + ql + 1 + 0] == v[0]);
    lemma_read_key_written(t, i, "args"@);
    lemma_read_list_of_quoted_list(t, i + ql + 1, args);
    assert(skip_gap(t, i + ql + 1 + vl) == i + ql + 1 + vl);
}

/// Reading the name, the program and the arguments of a snapshot that were
/// written gives them back.
proof fn lemma_read_program_written(t: Seq<char>, i: int, d: Descriptor)
    requires
        has_at(t, i, app_info_program(d)),
        i + app_info_program(d).len() < t.len(),
        t[i + app_info_program(d).len()] == ',',
    ensures
        read_program(t, i) == Some(
            ((d.name, d.interpreter, d.args), i + app_info_program(d).len() + 1),
        ),
{
    reveal(app_info_program);
    let m1 = member_text("name"@, quoted(d.name));
    let m2 = member_text("interpreter"@, quoted(d.interpreter));
    let m3 = member_text("args"@, quoted_list(d.args));
    let c = seq![','];
    let l1 = m1.len() as int;
    let l2 = m2.len() as int;
    lemma_has_at_concat(t, i, m1 + c + m2 + c, m3);
    lemma_has_at_concat(t, i, m1 + c + m2, c);
    lemma_has_at_concat(t, i, m1 + c, m2);
    lemma_has_at_concat(t, i, m1, c);
    lemma_has_at_one(t, i + l1, ',');
    lemma_has_at_one(t, i + l1 + 1 + l2, ',');
    lemma_read_text_written(t, i, "name"@, d.name);
    lemma_read_text_written(t, i + l1 + 1, "interpreter"@, d.interpreter);
    lemma_read_args_written(t, i + l1 + 1 + l2 + 1, d.args);
}

/// Reading the stop command of a snapshot that was written gives it back.
proof fn lemma_read_stop_written(t: Seq<char>, i: int, stop: Option<Seq<char>>)
    requires
        has_at(t, i, member_text("stop_command"@, optional_text(stop))),
        i + member_text("stop_command"@, optional_text(stop)).len() < t.len(),
        t[i + member_text("stop_command"@, optional_text(stop)).len()] == '}',
    ensures
        read_stop(t, i) == Some(
            (stop, i + member_text("stop_command"@, optional_text(stop)).len() + 1),
        ),
{
    let q = quoted("stop_command"@);
    let v = optional_text(stop);
    let ql = q.len() as int;
    let vl = v.len() as int;
    reveal_strlit("null");
    lemma_has_at_concat(t, i, q + seq![':'], v);
    lemma_has_at_concat(t, i, q, seq![':']);
    lemma_has_at_one(t, i + ql, ':');
    let w = i + ql + 1;
    match stop {
        Some(cmd) => {
            assert(v[0] == '"');
            assert(t[w + 0] == v[0]);
            lemma_read_key_written(t, i, "stop_command"@);
            lemma_read_quoted_of_quoted(t, w, cmd);
            assert(!occurs_at(t, "null"@, w)) by {
                if occurs_at(t, "null"@, w) {
                    assert(t.subrange(w, w + 4)[0] == 'n');
                }
            }
        },
        None => {
            assert(t[w + 0] == v[0]);
            assert(t[w + 1] == v[1]);
            assert(t[w + 2] == v[2]);
            assert(t[w + 3] == v[3]);
            lemma_read_key_written(t, i, "stop_command"@);
            assert(t.subrange(w, w + 4) =~= "null"@);
        },
    }
    assert(read_optional(t, w) == Some((stop, w + vl)));
    assert(skip_gap(t, w + vl) == w + vl);
}

/// Reading a snapshot that was written, wherever it stands, gives the
/// descriptor back.
pub proof fn lemma_app_info_written(t: Seq<char>, i: int, d: Descriptor)
    requires
        has_at(t, i, app_info_text(d)),
    ensures
        read_app_info_at(t, i) == Some((d, i + app_info_text(d).len())),
{
    let open = seq!['{'];
    let c = seq![','];
    let close = seq!['}'];
    let pr = app_info_program(d);
    let pl = app_info_places(d);
    let st = member_text("stop_command"@, optional_text(d.stop_command));
    let lpr = pr.len() as int;
    let lpl = pl.len() as int;
    let lst = st.len() as int;
    lemma_has_at_concat(t, i, open + pr + c + pl + c + st, close);
    lemma_has_at_concat(t, i, open + pr + c + pl + c, st);
    lemma_has_at_concat(t, i, open + pr + c + pl, c);
    lemma_has_at_concat(t, i, open + pr + c, pl);
    lemma_has_at_concat(t, i, open + pr, c);
    lemma_has_at_concat(t, i, open, pr);
    lemma_has_at_one(t, i, '{');
    lemma_has_at_one(t, i + 1 + lpr, ',');
    lemma_has_at_one(t, i + 1 + lpr + 1 + lpl, ',');
    lemma_has_at_one(t, i + 1 + lpr + 1 + lpl + 1 + lst, '}');
    assert(skip_gap(t, i) == i);
    lemma_read_program_written(t, i + 1, d);
    lemma_read_places_written(t, i + 1 + lpr + 1, d);
    lemma_read_stop_written(t, i + 1 + lpr + 1 + lpl + 1, d.stop_command);
}

/// Reading the snapshot that was written for a descriptor gives the
/// descriptor back.
pub proof fn lemma_app_info_round_trip(d: Descriptor)
    ensures
        read_app_info(app_info_text(d)) == Some(d),
        app_info_of_frame(encode_utf8(app_info_text(d))) == Some(d),
{
    let t = app_info_text(d);
    assert(has_at(t, 0, t));
    lemma_app_info_written(t, 0, d);
    vstd::utf8::encode_utf8_valid_utf8(t);
    vstd::utf8::encode_utf8_decode_utf8(t);
}

/// Reads the index of the value of the member named `key`.
fn parse_key(t: &Vec<char>, i: usize, key: &str) -> (r: Option<usize>)
    requires
        i <= t.len(),
    ensures
        match r {
            Some(v) => read_key(t@, i as int, key@) == Some(v as int) && v <= t.len(),
            None => read_key(t@, i as int, key@) is None,
        },
{
    let start = skip_gap_chars(t, i);
    match parse_quoted(t, start) {
        Some((name, j)) => {
            let c = skip_gap_chars(t, j);
            if str_is(&chars_of(name.as_str()), key) && c < t.len() && t[c] == ':' {
                Some(skip_gap_chars(t, c + 1))
            } else {
                None
            }
        },
        None => None,
    }
}

/// Reads the character `c`, white space before it left aside.
fn parse_mark(t: &Vec<char>, i: usize, c: char) -> (r: Option<usize>)
    requires
        i <= t.len(),
    ensures
        match r {
            Some(k) => read_mark(t@, i as int, c) == Some(k as int) && k <= t.len(),
            None => read_mark(t@, i as int, c) is None,
        },
{
    let j = skip_gap_chars(t, i);
    if j < t.len() && t[j] == c {
        Some(j + 1)
    } else {
        None
    }
}

/// Reads the member named `key` with a string as its value, and the comma
/// behind it.
fn parse_text_then_comma(t: &Vec<char>, i: usize, key: &str) -> (r: Option<(String, usize)>)
    requires
        i <= t.len(),
    ensures
        match r {
            Some((s, k)) => read_text_then_comma(t@, i as int, key@) == Some((s@, k as int))
                && k <= t.len(),
            None => read_text_then_comma(t@, i as int, key@) is None,
        },
{
    let v = match parse_key(t, i, key) {
        Some(v) => v,
        None => {
            return None;
        },
    };
    let (s, j) = match parse_quoted(t, v) {
        Some(found) => found,
        None => {
            return None;
        },
    };
    match parse_mark(t, j, ',') {
        Some(k) => Some((s, k)),
        None => None,
    }
}

/// Reads the descriptor that the snapshot at `t[i]` tells.
pub(crate) fn parse_app_info(t: &Vec<char>, i: usize) -> (r: Option<(Application, usize)>)
    requires
        i <= t.len(),
    ensures
        match r {
            Some((app, end)) => read_app_info_at(t@, i as int) == Some((app@, end as int))
                && end <= t.len(),
            None => read_app_info_at(t@, i as int) is None,
        },
{
    let a = match parse_mark(t, i, '{') {
        Some(a) => a,
        None => {
            return None;
        },
    };
    let (name, b) = match parse_text_then_comma(t, a, "name") {
        Some(found) => found,
        None => {
            return None;
        },
    };
    let (interpreter, c) = match parse_text_then_comma(t, b, "interpreter") {
        Some(found) => found,
        None => {
            return None;
        },
    };
    let v = match parse_key(t, c, "args") {
        Some(v) => v,
        None => {
            return None;
        },
    };
    let (args, d) = match parse_list(t, v) {
        Some(found) => found,
        None => {
            return None;
        },
    };
    let e = match parse_mark(t, d, ',') {
        Some(e) => e,
        None => {
            return None;
        },
    };
    let (file_path, f1) = match parse_text_then_comma(t, e, "file_path") {
        Some(found) => found,
        None => {
            return None;
        },
    };
    let (app_dir, f2) = match parse_text_then_comma(t, f1, "app_dir") {
        Some(found) => found,
        None => {
            return None;
        },
    };
    let (work_dir, f) = match parse_text_then_comma(t, f2, "work_dir") {
        Some(found) => found,
        None => {
            return None;
        },
    };
    let w = match parse_key(t, f, "stop_command") {
        Some(w) => w,
        None => {
            return None;
        },
    };
    proof {
        reveal_strlit("null");
    }
    let (stop_command, g) = if matches_at(t, &chars_of("null"), w) {
        (None, w + 4)
    } else {
        match parse_quoted(t, w) {
            Some((s, k)) => (Some(s), k),
            None => {
                return None;
            },
        }
    };
    match parse_mark(t, g, '}') {
        Some(end) => Some(
            (
                Application { name, interpreter, args, file_path, app_dir, work_dir, stop_command },
                end,
            ),
        ),
        None => None,
    }
}

/// Reads the descriptor that a snapshot tells.
pub fn decode_app_info(frame: &[u8]) -> (r: Option<Application>)
    ensures
        match r {
            Some(app) => app_info_of_frame(frame@) == Some(app@),
            None => app_info_of_frame(frame@) is None,
        },
{
    let text = match text_of_utf8(frame) {
        Some(text) => text,
        None => {
            return None;
        },
    };
    match parse_app_info(&chars_of(text.as_str()), 0) {
        Some((app, _)) => Some(app),
        None => None,
    }
}

} // verus!
