//! The text form of strings and string lists on the control socket.
//!
//! A string is written between double quotes. Inside, a double quote and a
//! backslash are escaped with a backslash, the usual control characters have
//! their short escapes, and any other character below U+0020 is written as
//! `\u00XX`. A reader accepts every short escape, `\uXXXX` for any scalar
//! value, and a high surrogate followed by a low one as the one character
//! that the pair stands for; it accepts no lone surrogate and no raw control
//! character.

use crate::text::{chars_of, push_char, texts};
use vstd::prelude::*;

verus! {

/// The lower-case hexadecimal digit for `n`.
pub open spec fn hex_digit(n: int) -> char {
    if 0 <= n < 10 {
        ('0' as u32 + n) as char
    } else {
        ('a' as u32 + n - 10) as char
    }
}

/// The value of a hexadecimal digit, or -1 for any other character.
pub open spec fn hex_value(c: char) -> int {
    let n = c as u32 as int;
    if '0' as u32 <= n <= '9' as u32 {
        n - '0' as u32
    } else if 'a' as u32 <= n <= 'f' as u32 {
        n - 'a' as u32 + 10
    } else if 'A' as u32 <= n <= 'F' as u32 {
        n - 'A' as u32 + 10
    } else {
        -1
    }
}

/// `v` is the number of a character: at most U+10FFFF and no surrogate.
pub open spec fn is_scalar_value(v: int) -> bool {
    0 <= v <= 0xD7FF || 0xE000 <= v <= 0x10FFFF
}

/// How one character stands inside a string literal.
pub open spec fn escape(c: char) -> Seq<char> {
    let n = c as u32 as int;
    if c == '"' {
        seq!['\\', '"']
    } else if c == '\\' {
        seq!['\\', '\\']
    } else if n == 0x0A {
        seq!['\\', 'n']
    } else if n == 0x0D {
        seq!['\\', 'r']
    } else if n == 0x09 {
        seq!['\\', 't']
    } else if n == 0x08 {
        seq!['\\', 'b']
    } else if n == 0x0C {
        seq!['\\', 'f']
    } else if n < 0x20 {
        seq!['\\', 'u', '0', '0', hex_digit(n / 16), hex_digit(n % 16)]
    } else {
        seq![c]
    }
}

/// The characters of `s`, each as it stands inside a string literal.
pub open spec fn escape_all(s: Seq<char>) -> Seq<char>
    decreases s.len(),
{
    if s.len() == 0 {
        Seq::empty()
    } else {
        escape(s[0]) + escape_all(s.drop_first())
    }
}

/// The string literal for `s`.
pub open spec fn quoted(s: Seq<char>) -> Seq<char> {
    seq!['"'] + escape_all(s) + seq!['"']
}

/// The literals of the strings `v[from..]`, with a comma between each two.
pub open spec fn quoted_items(v: Seq<Seq<char>>, from: int) -> Seq<char>
    decreases v.len() - from,
{
    if from < 0 || from >= v.len() {
        Seq::empty()
    } else if from + 1 == v.len() {
        quoted(v[from])
    } else {
        quoted(v[from]) + seq![','] + quoted_items(v, from + 1)
    }
}

/// The list literal for the strings `v`.
pub open spec fn quoted_list(v: Seq<Seq<char>>) -> Seq<char> {
    seq!['['] + quoted_items(v, 0) + seq![']']
}

/// White space between the tokens of a message.
pub open spec fn is_gap(c: char) -> bool {
    c == ' ' || c == '\t' || c == '\n' || c == '\r'
}

/// The first index at or after `i` that holds no such white space.
pub open spec fn skip_gap(t: Seq<char>, i: int) -> int
    decreases t.len() - i,
{
    if 0 <= i < t.len() && is_gap(t[i]) {
        skip_gap(t, i + 1)
    } else {
        i
    }
}

/// The number that the four hexadecimal digits at `t[i..i + 4]` write.
pub open spec fn read_hex4(t: Seq<char>, i: int) -> Option<int> {
    if 0 <= i && i + 4 <= t.len() && hex_value(t[i]) >= 0 && hex_value(t[i + 1]) >= 0
        && hex_value(t[i + 2]) >= 0 && hex_value(t[i + 3]) >= 0 {
        Some(
            ((hex_value(t[i]) * 16 + hex_value(t[i + 1])) * 16 + hex_value(t[i + 2])) * 16
                + hex_value(t[i + 3]),
        )
    } else {
        None
    }
}

/// `v` is the first half of a pair of surrogates.
pub open spec fn is_high_surrogate(v: int) -> bool {
    0xD800 <= v <= 0xDBFF
}

/// `v` is the second half of a pair of surrogates.
pub open spec fn is_low_surrogate(v: int) -> bool {
    0xDC00 <= v <= 0xDFFF
}

/// The number of the character that a pair of surrogates stands for.
pub open spec fn surrogate_pair(high: int, low: int) -> int {
    0x10000 + (high - 0xD800) * 0x400 + (low - 0xDC00)
}

/// The character that the hexadecimal digits behind `\u` stand for, `i`
/// being the index of the first digit, and the index behind the escape. Four
/// digits that write a scalar value stand for that character. Four digits
/// that write a high surrogate stand, together with a second `\u` escape
/// right behind them that writes a low surrogate, for the character of the
/// pair. Anything else stands for nothing.
pub open spec fn read_unicode(t: Seq<char>, i: int) -> Option<(char, int)> {
    match read_hex4(t, i) {
        Some(v) => if is_scalar_value(v) {
            Some((v as char, i + 4))
        } else if is_high_surrogate(v) && i + 6 <= t.len() && t[i + 4] == '\\' && t[i + 5]
            == 'u' {
            match read_hex4(t, i + 6) {
                Some(low) => if is_low_surrogate(low) {
                    Some((surrogate_pair(v, low) as char, i + 10))
                } else {
                    None
                },
                None => None,
            }
        } else {
            None
        },
        None => None,
    }
}

/// The character that the escape behind a backslash stands for, `i` being
/// the index just behind the backslash, and the index behind the escape.
pub open spec fn read_escape(t: Seq<char>, i: int) -> Option<(char, int)> {
    if i < 0 || i >= t.len() {
        None
    } else if t[i] == '"' || t[i] == '\\' || t[i] == '/' {
        Some((t[i], i + 1))
    } else if t[i] == 'n' {
        Some(('\n', i + 1))
    } else if t[i] == 'r' {
        Some(('\r', i + 1))
    } else if t[i] == 't' {
        Some(('\t', i + 1))
    } else if t[i] == 'b' {
        Some((0x08u8 as char, i + 1))
    } else if t[i] == 'f' {
        Some((0x0Cu8 as char, i + 1))
    } else if t[i] == 'u' {
        read_unicode(t, i + 1)
    } else {
        None
    }
}

/// The string whose literal has its first character behind the opening
/// quote at `t[i]`, and the index behind the closing quote.
pub open spec fn read_body(t: Seq<char>, i: int) -> Option<(Seq<char>, int)>
    decreases t.len() - i,
{
    if i < 0 || i >= t.len() {
        None
    } else if t[i] == '"' {
        Some((Seq::empty(), i + 1))
    } else if t[i] == '\\' {
        match read_escape(t, i + 1) {
            Some((c, j)) => if i < j <= t.len() {
                match read_body(t, j) {
                    Some((rest, k)) => Some((seq![c] + rest, k)),
                    None => None,
                }
            } else {
                None
            },
            None => None,
        }
    } else if (t[i] as u32) < 0x20 {
        None
    } else {
        match read_body(t, i + 1) {
            Some((rest, k)) => Some((seq![t[i]] + rest, k)),
            None => None,
        }
    }
}

/// The string whose literal starts at `t[i]`, and the index behind it.
pub open spec fn read_quoted(t: Seq<char>, i: int) -> Option<(Seq<char>, int)> {
    if 0 <= i < t.len() && t[i] == '"' {
        read_body(t, i + 1)
    } else {
        None
    }
}

/// The strings of a list from behind one of its items at `i` on: either the
/// closing bracket follows, or a comma and one more item.
pub open spec fn read_more_items(t: Seq<char>, i: int) -> Option<(Seq<Seq<char>>, int)>
    decreases t.len() - i,
{
    let j = skip_gap(t, i);
    if j < i || j >= t.len() {
        None
    } else if t[j] == ']' {
        Some((Seq::empty(), j + 1))
    } else if t[j] == ',' {
        match read_quoted(t, skip_gap(t, j + 1)) {
            Some((s, k)) => if j < k <= t.len() {
                match read_more_items(t, k) {
                    Some((rest, m)) => Some((seq![s] + rest, m)),
                    None => None,
                }
            } else {
                None
            },
            None => None,
        }
    } else {
        None
    }
}

/// The strings of the list literal that starts at `t[i]`, and the index
/// behind it.
pub open spec fn read_list(t: Seq<char>, i: int) -> Option<(Seq<Seq<char>>, int)> {
    if 0 <= i < t.len() && t[i] == '[' {
        let j = skip_gap(t, i + 1);
        if i < j < t.len() && t[j] == ']' {
            Some((Seq::empty(), j + 1))
        } else {
            match read_quoted(t, j) {
                Some((s, k)) => match read_more_items(t, k) {
                    Some((rest, m)) => Some((seq![s] + rest, m)),
                    None => None,
                },
                None => None,
            }
        }
    } else {
        None
    }
}

/// `pat` stands in `t` from index `i` on.
pub open spec fn has_at(t: Seq<char>, i: int, pat: Seq<char>) -> bool {
    &&& 0 <= i
    &&& i + pat.len() <= t.len()
    &&& forall|k: int| 0 <= k < pat.len() ==> t[i + k] == #[trigger] pat[k]
}

/// A string with one more character at its end is escaped as the string,
/// followed by the character's escape.
pub(crate) proof fn lemma_escape_all_push(s: Seq<char>, c: char)
    ensures
        escape_all(s.push(c)) == escape_all(s) + escape(c),
    decreases s.len(),
{
    if s.len() == 0 {
        assert(s.push(c).drop_first() == Seq::<char>::empty());
        assert(s.push(c)[0] == c);
        assert(escape_all(Seq::<char>::empty()) == Seq::<char>::empty());
        assert(escape(c) + Seq::<char>::empty() == escape(c));
        assert(escape_all(s) + escape(c) == escape(c));
    } else {
        lemma_escape_all_push(s.drop_first(), c);
        assert(s.push(c).drop_first() == s.drop_first().push(c));
        assert(escape(s[0]) + (escape_all(s.drop_first()) + escape(c)) == (escape(s[0])
            + escape_all(s.drop_first())) + escape(c));
    }
}

/// A hexadecimal digit has the value that it was written for.
pub(crate) proof fn lemma_hex_round_trip(n: int)
    requires
        0 <= n < 16,
    ensures
        hex_value(hex_digit(n)) == n,
{
}

/// Reading the escape that `escape` wrote gives the character back.
pub(crate) proof fn lemma_read_escaped(t: Seq<char>, i: int, c: char)
    requires
        has_at(t, i, escape(c)),
    ensures
        escape(c).len() >= 1,
        escape(c).len() == 1 ==> t[i] == c && c != '"' && c != '\\' && (c as u32) >= 0x20,
        escape(c).len() > 1 ==> t[i] == '\\' && read_escape(t, i + 1) == Some(
            (c, i + escape(c).len()),
        ),
{
    let e = escape(c);
    let n = c as u32 as int;
    assert(t[i + 0] == e[0]);
    if e.len() > 1 {
        assert(t[i + 1] == e[1]);
        if c == '"' || c == '\\' || n == 0x0A || n == 0x0D || n == 0x09 || n == 0x08 || n
            == 0x0C {
        } else {
            assert(n < 0x20);
            assert(t[i + 2] == e[2]);
            assert(t[i + 3] == e[3]);
            assert(t[i + 4] == e[4]);
            assert(t[i + 5] == e[5]);
            lemma_hex_round_trip(n / 16);
            lemma_hex_round_trip(n % 16);
            assert(hex_value('0') == 0);
            assert(read_hex4(t, i + 2) == Some(n));
            assert(n as char == c);
        }
    }
}

/// Where two texts in a row stand at `i`, the first stands at `i` and the
/// second right behind it.
pub(crate) proof fn lemma_has_at_concat(t: Seq<char>, i: int, a: Seq<char>, b: Seq<char>)
    requires
        has_at(t, i, a + b),
    ensures
        has_at(t, i, a),
        has_at(t, i + a.len(), b),
{
    let w = a + b;
    assert forall|k: int| 0 <= k < a.len() implies t[i + k] == #[trigger] a[k] by {
        assert(t[i + k] == w[k]);
    }
    assert forall|k: int| 0 <= k < b.len() implies t[i + a.len() + k] == #[trigger] b[k] by {
        assert(t[i + (a.len() + k)] == w[a.len() + k]);
    }
}

/// Where a text of one character stands at `i`, `t[i]` is that character.
pub(crate) proof fn lemma_has_at_one(t: Seq<char>, i: int, c: char)
    requires
        has_at(t, i, seq![c]),
    ensures
        0 <= i < t.len(),
        t[i] == c,
{
    let w = seq![c];
    assert(t[i + 0] == w[0]);
}

/// Reading what `escape_all` wrote, up to the closing quote, gives the
/// string back.
pub(crate) proof fn lemma_read_body_of_escaped(t: Seq<char>, i: int, s: Seq<char>)
    requires
        has_at(t, i, escape_all(s)),
        i + escape_all(s).len() < t.len(),
        t[i + escape_all(s).len()] == '"',
    ensures
        read_body(t, i) == Some((s, i + escape_all(s).len() + 1)),
    decreases s.len(),
{
    if s.len() > 0 {
        let c = s[0];
        let rest = s.drop_first();
        let e = escape(c);
        lemma_has_at_concat(t, i, e, escape_all(rest));
        lemma_read_escaped(t, i, c);
        lemma_read_body_of_escaped(t, i + e.len(), rest);
        assert(seq![c] + rest == s);
    }
}

/// Reading a string literal gives the string back.
pub proof fn lemma_read_quoted_of_quoted(t: Seq<char>, i: int, s: Seq<char>)
    requires
        has_at(t, i, quoted(s)),
    ensures
        read_quoted(t, i) == Some((s, i + quoted(s).len())),
{
    let e = escape_all(s);
    lemma_has_at_concat(t, i, seq!['"'] + e, seq!['"']);
    lemma_has_at_concat(t, i, seq!['"'], e);
    lemma_has_at_one(t, i, '"');
    lemma_has_at_one(t, i + 1 + e.len(), '"');
    lemma_read_body_of_escaped(t, i + 1, s);
}

/// The literals of the strings from one of them on start with a quote.
pub(crate) proof fn lemma_quoted_items_start(v: Seq<Seq<char>>, from: int)
    requires
        0 <= from < v.len(),
    ensures
        quoted_items(v, from).len() > 0,
        quoted_items(v, from)[0] == '"',
{
    let q = quoted(v[from]);
    assert(q[0] == '"');
}

/// Reading the items that `quoted_items` wrote, up to the closing bracket,
/// gives the strings back: the first item, and behind it the others.
pub(crate) proof fn lemma_read_items_written(t: Seq<char>, i: int, v: Seq<Seq<char>>, from: int)
    requires
        0 <= from < v.len(),
        0 <= i,
        has_at(t, i, quoted_items(v, from)),
        i + quoted_items(v, from).len() < t.len(),
        t[i + quoted_items(v, from).len()] == ']',
    ensures
        read_quoted(t, i) == Some((v[from], i + quoted(v[from]).len())),
        read_more_items(t, i + quoted(v[from]).len()) == Some(
            (v.subrange(from + 1, v.len() as int), i + quoted_items(v, from).len() + 1),
        ),
    decreases v.len() - from,
{
    let q = quoted(v[from]);
    let ql = q.len() as int;
    if from + 1 == v.len() {
        lemma_read_quoted_of_quoted(t, i, v[from]);
        assert(skip_gap(t, i + ql) == i + ql);
        assert(v.subrange(from + 1, v.len() as int) == Seq::<Seq<char>>::empty());
    } else {
        let rest = quoted_items(v, from + 1);
        lemma_has_at_concat(t, i, q + seq![','], rest);
        lemma_has_at_concat(t, i, q, seq![',']);
        lemma_has_at_one(t, i + ql, ',');
        lemma_read_quoted_of_quoted(t, i, v[from]);
        lemma_quoted_items_start(v, from + 1);
        assert(t[i + ql + 1 + 0] == rest[0]);
        assert(skip_gap(t, i + ql) == i + ql);
        assert(skip_gap(t, i + ql + 1) == i + ql + 1);
        lemma_read_items_written(t, i + ql + 1, v, from + 1);
        assert(seq![v[from + 1]] + v.subrange(from + 2, v.len() as int) == v.subrange(
            from + 1,
            v.len() as int,
        ));
    }
}

/// Reading a list literal gives the strings back.
pub proof fn lemma_read_list_of_quoted_list(t: Seq<char>, i: int, v: Seq<Seq<char>>)
    requires
        has_at(t, i, quoted_list(v)),
    ensures
        read_list(t, i) == Some((v, i + quoted_list(v).len())),
{
    let items = quoted_items(v, 0);
    lemma_has_at_concat(t, i, seq!['['] + items, seq![']']);
    lemma_has_at_concat(t, i, seq!['['], items);
    lemma_has_at_one(t, i, '[');
    lemma_has_at_one(t, i + 1 + items.len(), ']');
    if v.len() == 0 {
        assert(skip_gap(t, i + 1) == i + 1);
        assert(v == Seq::<Seq<char>>::empty());
    } else {
        lemma_quoted_items_start(v, 0);
        assert(t[i + 1 + 0] == items[0]);
        assert(skip_gap(t, i + 1) == i + 1);
        lemma_read_items_written(t, i + 1, v, 0);
        assert(seq![v[0]] + v.subrange(1, v.len() as int) == v);
    }
}

/// `r` with `acc` put before the string that it holds.
pub open spec fn with_prefix(acc: Seq<char>, r: Option<(Seq<char>, int)>) -> Option<
    (Seq<char>, int),
> {
    match r {
        Some((rest, k)) => Some((acc + rest, k)),
        None => None,
    }
}

/// `r` with `acc` put before the strings that it holds.
pub open spec fn with_items(acc: Seq<Seq<char>>, r: Option<(Seq<Seq<char>>, int)>) -> Option<
    (Seq<Seq<char>>, int),
> {
    match r {
        Some((rest, k)) => Some((acc + rest, k)),
        None => None,
    }
}

/// The character with the number `v` (`char::from_u32` of the standard
/// library: it gives a character exactly for the scalar values, and the
/// character it gives has the number `v`).
#[verifier::external_body]
pub(crate) fn char_of_number(v: u32) -> (r: Option<char>)
    ensures
        r is Some <==> is_scalar_value(v as int),
        r is Some ==> r->0 as u32 == v,
{
    char::from_u32(v)
}

/// The lower-case hexadecimal digit for `n`.
pub(crate) fn hex_digit_char(n: u32) -> (c: char)
    requires
        n < 16,
    ensures
        c == hex_digit(n as int),
{
    if n == 0 {
        '0'
    } else if n == 1 {
        '1'
    } else if n == 2 {
        '2'
    } else if n == 3 {
        '3'
    } else if n == 4 {
        '4'
    } else if n == 5 {
        '5'
    } else if n == 6 {
        '6'
    } else if n == 7 {
        '7'
    } else if n == 8 {
        '8'
    } else if n == 9 {
        '9'
    } else if n == 10 {
        'a'
    } else if n == 11 {
        'b'
    } else if n == 12 {
        'c'
    } else if n == 13 {
        'd'
    } else if n == 14 {
        'e'
    } else {
        'f'
    }
}

/// The value of the hexadecimal digit `c`, if it is one.
pub fn hex_value_of(c: char) -> (r: Option<u32>)
    ensures
        match r {
            Some(v) => v == hex_value(c) && v < 16,
            None => hex_value(c) == -1,
        },
{
    let n: u32 = c as u32;
    if 0x30 <= n && n <= 0x39 {
        Some(n - 0x30)
    } else if 0x61 <= n && n <= 0x66 {
        Some(n - 0x61 + 10)
    } else if 0x41 <= n && n <= 0x46 {
        Some(n - 0x41 + 10)
    } else {
        None
    }
}

/// Appends to `out` the form that `c` has inside a string literal.
pub fn write_escaped(out: &mut Vec<char>, c: char)
    ensures
        final(out)@ == old(out)@ + escape(c),
{
    let n: u32 = c as u32;
    if c == '"' {
        out.push('\\');
        out.push('"');
    } else if c == '\\' {
        out.push('\\');
        out.push('\\');
    } else if n == 0x0A {
        out.push('\\');
        out.push('n');
    } else if n == 0x0D {
        out.push('\\');
        out.push('r');
    } else if n == 0x09 {
        out.push('\\');
        out.push('t');
    } else if n == 0x08 {
        out.push('\\');
        out.push('b');
    } else if n == 0x0C {
        out.push('\\');
        out.push('f');
    } else if n < 0x20 {
        out.push('\\');
        out.push('u');
        out.push('0');
        out.push('0');
        out.push(hex_digit_char(n / 16));
        out.push(hex_digit_char(n % 16));
    } else {
        out.push(c);
    }
    assert(out@ =~= old(out)@ + escape(c));
}

/// Appends to `out` the string literal for `s`.
pub fn write_quoted(out: &mut Vec<char>, s: &str)
    ensures
        final(out)@ == old(out)@ + quoted(s@),
{
    let v = chars_of(s);
    out.push('"');
    let mut i: usize = 0;
    assert(v@.subrange(0, 0) == Seq::<char>::empty());
    while i < v.len()
        invariant
            i <= v.len(),
            v@ == s@,
            out@ == old(out)@ + seq!['"'] + escape_all(v@.subrange(0, i as int)),
        decreases v.len() - i,
    {
        proof {
            lemma_escape_all_push(v@.subrange(0, i as int), v@[i as int]);
            assert(v@.subrange(0, i as int).push(v@[i as int]) == v@.subrange(0, i + 1));
        }
        write_escaped(out, v[i]);
        i += 1;
    }
    out.push('"');
    assert(v@.subrange(0, v.len() as int) == v@);
    assert(out@ =~= old(out)@ + quoted(s@));
}

/// Appends to `out` the list literal for the strings of `v`.
pub fn write_quoted_list(out: &mut Vec<char>, v: &Vec<String>)
    ensures
        final(out)@ == old(out)@ + quoted_list(texts(v@)),
{
    out.push('[');
    let ghost start = out@;
    let ghost items = texts(v@);
    let n = v.len();
    if n > 0 {
        // The items are written from the last to the first into a list of
        // their own, so that what stands behind an item is already known.
        let mut i: usize = 0;
        while i < n
            invariant
                i <= n,
                n == v.len(),
                items == texts(v@),
                start == old(out)@ + seq!['['],
                i == 0 ==> out@ == start,
                i > 0 ==> out@ + (if i < n {
                    seq![','] + quoted_items(items, i as int)
                } else {
                    Seq::<char>::empty()
                }) == start + quoted_items(items, 0),
            decreases n - i,
        {
            let ghost before = out@;
            if i > 0 {
                out.push(',');
            }
            write_quoted(out, v[i].as_str());
            proof {
                let q = quoted(items[i as int]);
                assert(items[i as int] == v@[i as int]@);
                let sep = if i > 0 {
                    seq![',']
                } else {
                    Seq::<char>::empty()
                };
                assert(out@ =~= before + sep + q);
                if i + 1 < n {
                    assert(quoted_items(items, i as int) == q + seq![','] + quoted_items(
                        items,
                        i + 1,
                    ));
                    assert(out@ + (seq![','] + quoted_items(items, i + 1)) =~= before + sep
                        + quoted_items(items, i as int));
                } else {
                    assert(quoted_items(items, i as int) == q);
                    assert(out@ + Seq::<char>::empty() =~= before + sep + quoted_items(
                        items,
                        i as int,
                    ));
                }
                if i > 0 {
                    assert(before + sep + quoted_items(items, i as int) =~= before + (seq![',']
                        + quoted_items(items, i as int)));
                } else {
                    assert(before + sep + quoted_items(items, i as int) =~= start
                        + quoted_items(items, 0));
                }
            }
            i += 1;
        }
        assert(out@ + Seq::<char>::empty() == out@);
    } else {
        assert(quoted_items(items, 0) == Seq::<char>::empty());
        assert(out@ == start + quoted_items(items, 0));
    }
    out.push(']');
    assert(out@ =~= old(out)@ + quoted_list(texts(v@)));
}

/// Index of the first character at or after `i` that is no white space
/// between tokens.
pub(crate) fn skip_gap_chars(t: &Vec<char>, i: usize) -> (r: usize)
    requires
        i <= t.len(),
    ensures
        r == skip_gap(t@, i as int),
        i <= r <= t.len(),
{
    let mut k: usize = i;
    while k < t.len() && (t[k] == ' ' || t[k] == '\t' || t[k] == '\n' || t[k] == '\r')
        invariant
            i <= k <= t.len(),
            skip_gap(t@, k as int) == skip_gap(t@, i as int),
        decreases t.len() - k,
    {
        k += 1;
    }
    k
}

/// Reads the four hexadecimal digits at `t[i..i + 4]`.
pub(crate) fn parse_hex4(t: &Vec<char>, i: usize) -> (r: Option<u32>)
    requires
        i <= t.len(),
    ensures
        match r {
            Some(v) => read_hex4(t@, i as int) == Some(v as int) && v <= 0xFFFF,
            None => read_hex4(t@, i as int) is None,
        },
{
    if t.len() - i < 4 {
        return None;
    }
    let a = hex_value_of(t[i]);
    let b = hex_value_of(t[i + 1]);
    let c = hex_value_of(t[i + 2]);
    let d = hex_value_of(t[i + 3]);
    match (a, b, c, d) {
        (Some(a), Some(b), Some(c), Some(d)) => Some(((a * 16 + b) * 16 + c) * 16 + d),
        _ => None,
    }
}

/// Reads the hexadecimal digits behind `\u`, `i` being the index of the
/// first digit, and the second escape of a pair of surrogates.
pub(crate) fn parse_unicode(t: &Vec<char>, i: usize) -> (r: Option<(char, usize)>)
    requires
        i <= t.len(),
    ensures
        match r {
            Some((c, k)) => read_unicode(t@, i as int) == Some((c, k as int)) && i < k <= t.len(),
            None => read_unicode(t@, i as int) is None,
        },
{
    let high = match parse_hex4(t, i) {
        Some(v) => v,
        None => {
            return None;
        },
    };
    match char_of_number(high) {
        Some(ch) => {
            proof {
                vstd::utf8::char_u32_cast(ch, high);
                assert(high as char == (high as int) as char);
            }
            return Some((ch, i + 4));
        },
        None => {},
    }
    if high < 0xD800 || high > 0xDBFF || t.len() - i < 6 || t[i + 4] != '\\' || t[i + 5] != 'u' {
        return None;
    }
    let low = match parse_hex4(t, i + 6) {
        Some(v) => v,
        None => {
            return None;
        },
    };
    if low < 0xDC00 || low > 0xDFFF {
        return None;
    }
    let number: u32 = 0x10000 + (high - 0xD800) * 0x400 + (low - 0xDC00);
    assert(number == surrogate_pair(high as int, low as int));
    assert(is_scalar_value(number as int));
    match char_of_number(number) {
        Some(ch) => {
            proof {
                vstd::utf8::char_u32_cast(ch, number);
                assert(number as char == (number as int) as char);
            }
            Some((ch, i + 10))
        },
        None => None,
    }
}

/// Reads the escape behind a backslash, `i` being the index just behind the
/// backslash.
pub(crate) fn parse_escape(t: &Vec<char>, i: usize) -> (r: Option<(char, usize)>)
    requires
        i <= t.len(),
    ensures
        match r {
            Some((c, k)) => read_escape(t@, i as int) == Some((c, k as int)) && i < k <= t.len(),
            None => read_escape(t@, i as int) is None,
        },
{
    if i >= t.len() {
        return None;
    }
    let c = t[i];
    if c == '"' || c == '\\' || c == '/' {
        Some((c, i + 1))
    } else if c == 'n' {
        Some(('\n', i + 1))
    } else if c == 'r' {
        Some(('\r', i + 1))
    } else if c == 't' {
        Some(('\t', i + 1))
    } else if c == 'b' {
        Some((0x08u8 as char, i + 1))
    } else if c == 'f' {
        Some((0x0Cu8 as char, i + 1))
    } else if c == 'u' {
        parse_unicode(t, i + 1)
    } else {
        None
    }
}

/// Reads the string literal that starts at `t[i]`.
pub(crate) fn parse_quoted(t: &Vec<char>, i: usize) -> (r: Option<(String, usize)>)
    requires
        i <= t.len(),
    ensures
        match r {
            Some((s, k)) => read_quoted(t@, i as int) == Some((s@, k as int)) && i < k
                <= t.len(),
            None => read_quoted(t@, i as int) is None,
        },
{
    if i >= t.len() || t[i] != '"' {
        return None;
    }
    let mut acc = String::new();
    let mut j: usize = i + 1;
    assert(with_prefix(acc@, read_body(t@, j as int)) == read_body(t@, j as int)) by {
        match read_body(t@, j as int) {
            Some((rest, k)) => {
                assert(acc@ + rest == rest);
            },
            None => {},
        }
    }
    loop
        invariant
            i < j <= t.len(),
            read_quoted(t@, i as int) == with_prefix(acc@, read_body(t@, j as int)),
        decreases t.len() - j,
    {
        if j >= t.len() {
            return None;
        }
        let c = t[j];
        let ghost before = acc@;
        if c == '"' {
            assert(acc@ + Seq::<char>::empty() == acc@);
            return Some((acc, j + 1));
        } else if c == '\\' {
            match parse_escape(t, j + 1) {
                Some((ch, k)) => {
                    push_char(&mut acc, ch);
                    proof {
                        match read_body(t@, k as int) {
                            Some((rest, m)) => {
                                assert(before + (seq![ch] + rest) == before.push(ch) + rest);
                            },
                            None => {},
                        }
                    }
                    j = k;
                },
                None => {
                    return None;
                },
            }
        } else if (c as u32) < 0x20 {
            return None;
        } else {
            push_char(&mut acc, c);
            proof {
                match read_body(t@, j + 1) {
                    Some((rest, m)) => {
                        assert(before + (seq![c] + rest) == before.push(c) + rest);
                    },
                    None => {},
                }
            }
            j += 1;
        }
    }
}

/// Reads the list literal that starts at `t[i]`.
pub(crate) fn parse_list(t: &Vec<char>, i: usize) -> (r: Option<(Vec<String>, usize)>)
    requires
        i <= t.len(),
    ensures
        match r {
            Some((v, k)) => read_list(t@, i as int) == Some((texts(v@), k as int)) && i < k
                <= t.len(),
            None => read_list(t@, i as int) is None,
        },
{
    if i >= t.len() || t[i] != '[' {
        return None;
    }
    let mut acc: Vec<String> = Vec::new();
    let first = skip_gap_chars(t, i + 1);
    if first < t.len() && t[first] == ']' {
        assert(texts(acc@) == Seq::<Seq<char>>::empty());
        return Some((acc, first + 1));
    }
    let mut j: usize = match parse_quoted(t, first) {
        Some((s, k)) => {
            acc.push(s);
            k
        },
        None => {
            return None;
        },
    };
    proof {
        assert(texts(acc@) == seq![acc@[0]@]);
    }
    loop
        invariant
            i < j <= t.len(),
            read_list(t@, i as int) == with_items(texts(acc@), read_more_items(t@, j as int)),
        decreases t.len() - j,
    {
        let g = skip_gap_chars(t, j);
        if g >= t.len() {
            return None;
        }
        if t[g] == ']' {
            assert(texts(acc@) + Seq::<Seq<char>>::empty() == texts(acc@));
            return Some((acc, g + 1));
        } else if t[g] == ',' {
            let start = skip_gap_chars(t, g + 1);
            match parse_quoted(t, start) {
                Some((s, k)) => {
                    let ghost before = texts(acc@);
                    let ghost item = s@;
                    acc.push(s);
                    proof {
                        assert(texts(acc@) == before.push(item));
                        match read_more_items(t@, k as int) {
                            Some((rest, m)) => {
                                assert(before + (seq![item] + rest) == before.push(item) + rest);
                            },
                            None => {},
                        }
                    }
                    j = k;
                },
                None => {
                    return None;
                },
            }
        } else {
            return None;
        }
    }
}

} // verus!
