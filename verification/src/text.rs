//! Character-level text operations with exact specifications.
//!
//! Text is handled as a sequence of characters. The functions here say, over
//! `Seq<char>`, what trimming, searching, splitting and joining mean, and the
//! executable versions are proved to compute exactly that.

use vstd::prelude::*;

verus! {

/// The characters that count as white space: the Unicode `White_Space` set.
pub open spec fn is_space(c: char) -> bool {
    let n = c as u32;
    ||| 0x09 <= n <= 0x0D
    ||| n == 0x20
    ||| n == 0x85
    ||| n == 0xA0
    ||| n == 0x1680
    ||| 0x2000 <= n <= 0x200A
    ||| n == 0x2028
    ||| n == 0x2029
    ||| n == 0x202F
    ||| n == 0x205F
    ||| n == 0x3000
}

/// The first index at or after `i` that holds no white space, or the length.
pub open spec fn skip_spaces(s: Seq<char>, i: int) -> int
    decreases s.len() - i,
{
    if 0 <= i < s.len() && is_space(s[i]) {
        skip_spaces(s, i + 1)
    } else {
        i
    }
}

/// The end of `s[lo..hi]` once the white space at its end is dropped.
pub open spec fn drop_spaces_back(s: Seq<char>, lo: int, hi: int) -> int
    decreases hi - lo,
{
    if lo < hi <= s.len() && is_space(s[hi - 1]) {
        drop_spaces_back(s, lo, hi - 1)
    } else {
        hi
    }
}

/// `s` without the white space at its start and at its end.
pub open spec fn trim(s: Seq<char>) -> Seq<char> {
    let lo = skip_spaces(s, 0);
    s.subrange(lo, drop_spaces_back(s, lo, s.len() as int))
}

/// Every character of `s` is white space (so also when `s` is empty).
pub open spec fn is_blank(s: Seq<char>) -> bool {
    forall|i: int| 0 <= i < s.len() ==> is_space(#[trigger] s[i])
}

/// Some character of `s` is white space.
pub open spec fn has_space(s: Seq<char>) -> bool {
    exists|i: int| 0 <= i < s.len() && is_space(#[trigger] s[i])
}

/// The first index at or after `from` that holds `c`, or the length.
pub open spec fn index_of(s: Seq<char>, c: char, from: int) -> int
    decreases s.len() - from,
{
    if 0 <= from < s.len() && s[from] != c {
        index_of(s, c, from + 1)
    } else if from < s.len() {
        from
    } else {
        s.len() as int
    }
}

/// The part of `s` before the first `c`; all of `s` where it holds none.
pub open spec fn before_first(s: Seq<char>, c: char) -> Seq<char> {
    s.subrange(0, index_of(s, c, 0))
}

/// The part of `s` behind the first `c`, where `s` holds one.
pub open spec fn after_first(s: Seq<char>, c: char) -> Option<Seq<char>> {
    let i = index_of(s, c, 0);
    if i < s.len() {
        Some(s.subrange(i + 1, s.len() as int))
    } else {
        None
    }
}

/// `pat` stands in `s` at index `i`.
pub open spec fn occurs_at(s: Seq<char>, pat: Seq<char>, i: int) -> bool {
    0 <= i && i + pat.len() <= s.len() && s.subrange(i, i + pat.len()) == pat
}

/// `pat` stands somewhere in `s`.
pub open spec fn contains(s: Seq<char>, pat: Seq<char>) -> bool {
    exists|i: int| occurs_at(s, pat, i)
}

/// The number of characters `c` at the start of `s[i..]`, as an index.
pub open spec fn skip_char(s: Seq<char>, c: char, i: int) -> int
    decreases s.len() - i,
{
    if 0 <= i < s.len() && s[i] == c {
        skip_char(s, c, i + 1)
    } else {
        i
    }
}

/// The end of `s[lo..hi]` once the characters `c` at its end are dropped.
pub open spec fn drop_char_back(s: Seq<char>, c: char, lo: int, hi: int) -> int
    decreases hi - lo,
{
    if lo < hi <= s.len() && s[hi - 1] == c {
        drop_char_back(s, c, lo, hi - 1)
    } else {
        hi
    }
}

/// `s` without the characters `c` at its start and at its end.
pub open spec fn trim_matches(s: Seq<char>, c: char) -> Seq<char> {
    let lo = skip_char(s, c, 0);
    s.subrange(lo, drop_char_back(s, c, lo, s.len() as int))
}

/// `line` without one carriage return at its end.
pub open spec fn strip_cr(line: Seq<char>) -> Seq<char> {
    if line.len() > 0 && line.last() == '\r' {
        line.drop_last()
    } else {
        line
    }
}

/// The lines of `s[start..]`. A line ends at a line feed; a carriage return
/// just before the line feed belongs to the line ending. The last line need
/// not end in a line feed, and an empty remainder gives no line.
pub open spec fn lines_from(s: Seq<char>, start: int) -> Seq<Seq<char>>
    decreases s.len() - start,
{
    if 0 <= start < s.len() {
        let nl = index_of(s, '\n', start);
        if start <= nl < s.len() {
            seq![strip_cr(s.subrange(start, nl))] + lines_from(s, nl + 1)
        } else {
            seq![s.subrange(start, s.len() as int)]
        }
    } else {
        Seq::empty()
    }
}

/// The lines of `s`.
pub open spec fn lines(s: Seq<char>) -> Seq<Seq<char>> {
    lines_from(s, 0)
}

/// The first index at or after `i` that holds white space, or the length.
pub open spec fn skip_word(s: Seq<char>, i: int) -> int
    decreases s.len() - i,
{
    if 0 <= i < s.len() && !is_space(s[i]) {
        skip_word(s, i + 1)
    } else {
        i
    }
}

/// The words of `s[start..]`: the longest runs of characters that are no
/// white space.
pub open spec fn words_from(s: Seq<char>, start: int) -> Seq<Seq<char>>
    decreases s.len() - start,
{
    let lo = skip_spaces(s, start);
    if 0 <= start <= lo < s.len() {
        let hi = skip_word(s, lo);
        if lo < hi <= s.len() {
            seq![s.subrange(lo, hi)] + words_from(s, hi)
        } else {
            Seq::empty()
        }
    } else {
        Seq::empty()
    }
}

/// The words of `s`.
pub open spec fn words(s: Seq<char>) -> Seq<Seq<char>> {
    words_from(s, 0)
}

/// The parts joined, with `sep` between each two.
pub open spec fn join(parts: Seq<Seq<char>>, sep: Seq<char>) -> Seq<char>
    decreases parts.len(),
{
    if parts.len() == 0 {
        Seq::empty()
    } else if parts.len() == 1 {
        parts[0]
    } else {
        join(parts.drop_last(), sep) + sep + parts.last()
    }
}

/// The texts that the strings of `v` hold.
pub open spec fn texts(v: Seq<String>) -> Seq<Seq<char>> {
    v.map_values(|s: String| s@)
}

/// The texts that the character vectors of `v` hold.
pub open spec fn rows(v: Seq<Vec<char>>) -> Seq<Seq<char>> {
    v.map_values(|r: Vec<char>| r@)
}

/// Skipping white space ends within the text, has passed white space only,
/// and ends at a character that is none.
pub(crate) proof fn lemma_skip_spaces_bounds(s: Seq<char>, i: int)
    requires
        0 <= i <= s.len(),
    ensures
        i <= skip_spaces(s, i) <= s.len(),
        forall|k: int| i <= k < skip_spaces(s, i) ==> is_space(#[trigger] s[k]),
        skip_spaces(s, i) < s.len() ==> !is_space(s[skip_spaces(s, i)]),
    decreases s.len() - i,
{
    if i < s.len() && is_space(s[i]) {
        lemma_skip_spaces_bounds(s, i + 1);
    }
}

/// Dropping white space from the end stays within the range, has dropped
/// white space only, and ends behind a character that is none.
pub(crate) proof fn lemma_drop_spaces_back_bounds(s: Seq<char>, lo: int, hi: int)
    requires
        0 <= lo <= hi <= s.len(),
    ensures
        lo <= drop_spaces_back(s, lo, hi) <= hi,
        forall|k: int| drop_spaces_back(s, lo, hi) <= k < hi ==> is_space(#[trigger] s[k]),
        lo < drop_spaces_back(s, lo, hi) ==> !is_space(s[drop_spaces_back(s, lo, hi) - 1]),
    decreases hi - lo,
{
    if lo < hi && is_space(s[hi - 1]) {
        lemma_drop_spaces_back_bounds(s, lo, hi - 1);
    }
}

/// Skipping a word ends within the text, has passed no white space, and
/// ends at white space.
pub(crate) proof fn lemma_skip_word_bounds(s: Seq<char>, i: int)
    requires
        0 <= i <= s.len(),
    ensures
        i <= skip_word(s, i) <= s.len(),
        forall|k: int| i <= k < skip_word(s, i) ==> !is_space(#[trigger] s[k]),
        skip_word(s, i) < s.len() ==> is_space(s[skip_word(s, i)]),
    decreases s.len() - i,
{
    if i < s.len() && !is_space(s[i]) {
        lemma_skip_word_bounds(s, i + 1);
    }
}

/// A text is blank exactly when trimming leaves nothing of it.
pub proof fn lemma_trim_empty_iff_blank(s: Seq<char>)
    ensures
        trim(s).len() == 0 <==> is_blank(s),
{
    let lo = skip_spaces(s, 0);
    lemma_skip_spaces_bounds(s, 0);
    lemma_drop_spaces_back_bounds(s, lo, s.len() as int);
    let hi = drop_spaces_back(s, lo, s.len() as int);
    if is_blank(s) {
        if lo < s.len() {
            assert(is_space(s[lo]));
        }
    } else {
        if lo == hi {
            assert forall|i: int| 0 <= i < s.len() implies is_space(#[trigger] s[i]) by {
                if i < lo {
                } else {
                }
            }
        }
    }
}

/// Tells whether `c` is white space.
pub fn char_is_space(c: char) -> (r: bool)
    ensures
        r == is_space(c),
{
    let n: u32 = c as u32;
    (0x09 <= n && n <= 0x0D) || n == 0x20 || n == 0x85 || n == 0xA0 || n == 0x1680 || (0x2000 <= n
        && n <= 0x200A) || n == 0x2028 || n == 0x2029 || n == 0x202F || n == 0x205F || n == 0x3000
}

/// The characters of `s`, in order.
pub fn chars_of(s: &str) -> (v: Vec<char>)
    ensures
        v@ == s@,
{
    let mut v: Vec<char> = Vec::new();
    for c in it: s.chars()
        invariant
            v@ == it.seq().take(it.index() as int),
            it.seq() == s@,
    {
        v.push(c);
    }
    v
}

/// Adds one character at the end of a string (`String::push` of the standard
/// library: the string afterwards is the string before followed by `c`).
#[verifier::external_body]
pub(crate) fn push_char(s: &mut String, c: char)
    ensures
        final(s)@ == old(s)@.push(c),
{
    s.push(c)
}

/// The string that holds the characters `v[lo..hi]`.
pub(crate) fn string_of_range(v: &Vec<char>, lo: usize, hi: usize) -> (s: String)
    requires
        lo <= hi <= v.len(),
    ensures
        s@ == v@.subrange(lo as int, hi as int),
{
    let mut s = String::new();
    let mut i: usize = lo;
    while i < hi
        invariant
            lo <= i <= hi <= v.len(),
            s@ == v@.subrange(lo as int, i as int),
        decreases hi - i,
    {
        push_char(&mut s, v[i]);
        i += 1;
    }
    s
}

/// The string that holds the characters of `v`.
pub fn string_of(v: &Vec<char>) -> (s: String)
    ensures
        s@ == v@,
{
    let s = string_of_range(v, 0, v.len());
    assert(v@.subrange(0, v.len() as int) == v@);
    s
}

/// A copy of `v[lo..hi]`.
pub(crate) fn copy_range(v: &Vec<char>, lo: usize, hi: usize) -> (r: Vec<char>)
    requires
        lo <= hi <= v.len(),
    ensures
        r@ == v@.subrange(lo as int, hi as int),
{
    let mut r: Vec<char> = Vec::new();
    let mut i: usize = lo;
    while i < hi
        invariant
            lo <= i <= hi <= v.len(),
            r@ == v@.subrange(lo as int, i as int),
        decreases hi - i,
    {
        r.push(v[i]);
        i += 1;
    }
    r
}

/// Appends the characters of `tail` to `v`.
pub fn append_chars(v: &mut Vec<char>, tail: &Vec<char>)
    ensures
        final(v)@ == old(v)@ + tail@,
{
    let mut i: usize = 0;
    while i < tail.len()
        invariant
            i <= tail.len(),
            v@ == old(v)@ + tail@.subrange(0, i as int),
        decreases tail.len() - i,
    {
        v.push(tail[i]);
        i += 1;
    }
    assert(tail@.subrange(0, tail.len() as int) == tail@);
}

/// Appends the characters of the string `tail` to `v`.
pub fn append_str(v: &mut Vec<char>, tail: &str)
    ensures
        final(v)@ == old(v)@ + tail@,
{
    let t = chars_of(tail);
    append_chars(v, &t);
}

/// Index of the first character at or after `i` that is no white space.
pub(crate) fn find_non_space(v: &Vec<char>, i: usize) -> (r: usize)
    requires
        i <= v.len(),
    ensures
        r == skip_spaces(v@, i as int),
        i <= r <= v.len(),
{
    let mut k: usize = i;
    while k < v.len() && char_is_space(v[k])
        invariant
            i <= k <= v.len(),
            skip_spaces(v@, k as int) == skip_spaces(v@, i as int),
        decreases v.len() - k,
    {
        k += 1;
    }
    k
}

/// End of `v[lo..hi]` without the white space at its end.
pub(crate) fn find_trimmed_end(v: &Vec<char>, lo: usize, hi: usize) -> (r: usize)
    requires
        lo <= hi <= v.len(),
    ensures
        r == drop_spaces_back(v@, lo as int, hi as int),
        lo <= r <= hi,
{
    let mut k: usize = hi;
    while k > lo && char_is_space(v[k - 1])
        invariant
            lo <= k <= hi <= v.len(),
            drop_spaces_back(v@, lo as int, k as int) == drop_spaces_back(v@, lo as int, hi as int),
        decreases k - lo,
    {
        k -= 1;
    }
    k
}

/// Index of the first character at or after `i` that is white space.
pub(crate) fn find_space(v: &Vec<char>, i: usize) -> (r: usize)
    requires
        i <= v.len(),
    ensures
        r == skip_word(v@, i as int),
        i <= r <= v.len(),
{
    let mut k: usize = i;
    while k < v.len() && !char_is_space(v[k])
        invariant
            i <= k <= v.len(),
            skip_word(v@, k as int) == skip_word(v@, i as int),
        decreases v.len() - k,
    {
        k += 1;
    }
    k
}

/// `v` without the white space at its start and at its end.
pub fn trim_chars(v: &Vec<char>) -> (r: Vec<char>)
    ensures
        r@ == trim(v@),
{
    let lo = find_non_space(v, 0);
    let hi = find_trimmed_end(v, lo, v.len());
    copy_range(v, lo, hi)
}

/// Index of the first `c` at or after `from`, or the length.
pub(crate) fn find_char(v: &Vec<char>, c: char, from: usize) -> (r: usize)
    requires
        from <= v.len(),
    ensures
        r == index_of(v@, c, from as int),
        from <= r <= v.len(),
        r < v.len() ==> v@[r as int] == c,
{
    let mut k: usize = from;
    while k < v.len() && v[k] != c
        invariant
            from <= k <= v.len(),
            index_of(v@, c, k as int) == index_of(v@, c, from as int),
        decreases v.len() - k,
    {
        k += 1;
    }
    k
}

/// `v` without the characters `c` at its start and at its end.
pub fn trim_matches_chars(v: &Vec<char>, c: char) -> (r: Vec<char>)
    ensures
        r@ == trim_matches(v@, c),
{
    let mut lo: usize = 0;
    while lo < v.len() && v[lo] == c
        invariant
            lo <= v.len(),
            skip_char(v@, c, lo as int) == skip_char(v@, c, 0),
        decreases v.len() - lo,
    {
        lo += 1;
    }
    let mut hi: usize = v.len();
    while hi > lo && v[hi - 1] == c
        invariant
            lo <= hi <= v.len(),
            drop_char_back(v@, c, lo as int, hi as int) == drop_char_back(
                v@,
                c,
                lo as int,
                v.len() as int,
            ),
        decreases hi - lo,
    {
        hi -= 1;
    }
    copy_range(v, lo, hi)
}

/// Tells whether `pat` stands in `v` at index `i`.
pub(crate) fn matches_at(v: &Vec<char>, pat: &Vec<char>, i: usize) -> (r: bool)
    requires
        i <= v.len(),
    ensures
        r == occurs_at(v@, pat@, i as int),
{
    if pat.len() > v.len() - i {
        return false;
    }
    let mut k: usize = 0;
    while k < pat.len()
        invariant
            k <= pat.len(),
            i + pat.len() <= v.len(),
            v@.subrange(i as int, i + k) == pat@.subrange(0, k as int),
        decreases pat.len() - k,
    {
        if v[i + k] != pat[k] {
            proof {
                let sub = v@.subrange(i as int, i + pat.len());
                assert(sub[k as int] != pat@[k as int]);
            }
            return false;
        }
        proof {
            assert(v@.subrange(i as int, i + k + 1) == v@.subrange(i as int, i + k).push(
                v@[i + k],
            ));
            assert(pat@.subrange(0, k + 1) == pat@.subrange(0, k as int).push(pat@[k as int]));
        }
        k += 1;
    }
    assert(pat@.subrange(0, pat.len() as int) == pat@);
    true
}

/// Tells whether `v` starts with `pat`.
pub fn starts_with_chars(v: &Vec<char>, pat: &Vec<char>) -> (r: bool)
    ensures
        r == occurs_at(v@, pat@, 0),
{
    matches_at(v, pat, 0)
}

/// Tells whether `pat` stands somewhere in `v`.
pub fn contains_chars(v: &Vec<char>, pat: &Vec<char>) -> (r: bool)
    ensures
        r == contains(v@, pat@),
{
    let mut i: usize = 0;
    while i < v.len()
        invariant
            i <= v.len(),
            forall|k: int| 0 <= k < i ==> !occurs_at(v@, pat@, k),
        decreases v.len() - i,
    {
        if matches_at(v, pat, i) {
            return true;
        }
        i += 1;
    }
    matches_at(v, pat, i)
}

/// Tells whether every character of `v` is white space.
pub fn is_blank_chars(v: &Vec<char>) -> (r: bool)
    ensures
        r == is_blank(v@),
{
    let k = find_non_space(v, 0);
    proof {
        lemma_skip_spaces_bounds(v@, 0);
    }
    k == v.len()
}

/// Tells whether some character of `v` is white space.
pub fn has_space_chars(v: &Vec<char>) -> (r: bool)
    ensures
        r == has_space(v@),
{
    let k = find_space(v, 0);
    proof {
        lemma_skip_word_bounds(v@, 0);
        if k < v.len() {
            assert(is_space(v@[k as int]));
        }
    }
    k < v.len()
}

/// The lines of `v`.
pub fn split_lines(v: &Vec<char>) -> (out: Vec<Vec<char>>)
    ensures
        rows(out@) == lines(v@),
{
    let mut out: Vec<Vec<char>> = Vec::new();
    let mut start: usize = 0;
    assert(rows(out@) == Seq::<Seq<char>>::empty());
    while start < v.len()
        invariant
            start <= v.len(),
            rows(out@) + lines_from(v@, start as int) == lines(v@),
        decreases v.len() - start,
    {
        let nl = find_char(v, '\n', start);
        let ghost before = rows(out@);
        if nl < v.len() {
            let mut end: usize = nl;
            if end > start && v[end - 1] == '\r' {
                end -= 1;
            }
            let line = copy_range(v, start, end);
            proof {
                let raw = v@.subrange(start as int, nl as int);
                assert(line@ == strip_cr(raw)) by {
                    if raw.len() > 0 && raw.last() == '\r' {
                        assert(raw.drop_last() == v@.subrange(start as int, nl - 1));
                    }
                }
            }
            out.push(line);
            proof {
                assert(rows(out@) == before.push(line@));
                assert(before.push(line@) + lines_from(v@, nl + 1) == before + (seq![line@]
                    + lines_from(v@, nl + 1)));
            }
            start = nl + 1;
        } else {
            let line = copy_range(v, start, v.len());
            out.push(line);
            proof {
                assert(rows(out@) == before.push(line@));
                assert(before.push(line@) + lines_from(v@, v.len() as int) == before
                    + seq![line@]);
            }
            start = v.len();
        }
    }
    assert(rows(out@) + Seq::<Seq<char>>::empty() == rows(out@));
    out
}

/// The words of `v`.
pub fn split_words(v: &Vec<char>) -> (out: Vec<Vec<char>>)
    ensures
        rows(out@) == words(v@),
{
    let mut out: Vec<Vec<char>> = Vec::new();
    let mut start: usize = 0;
    assert(rows(out@) == Seq::<Seq<char>>::empty());
    loop
        invariant
            start <= v.len(),
            rows(out@) + words_from(v@, start as int) == words(v@),
        ensures
            rows(out@) == words(v@),
        decreases v.len() - start,
    {
        let lo = find_non_space(v, start);
        if lo >= v.len() {
            assert(rows(out@) + Seq::<Seq<char>>::empty() == rows(out@));
            break;
        }
        let hi = find_space(v, lo);
        proof {
            lemma_skip_spaces_bounds(v@, start as int);
            lemma_skip_word_bounds(v@, lo as int);
        }
        let ghost before = rows(out@);
        let word = copy_range(v, lo, hi);
        out.push(word);
        proof {
            assert(rows(out@) == before.push(word@));
            assert(before.push(word@) + words_from(v@, hi as int) == before + (seq![word@]
                + words_from(v@, hi as int)));
        }
        start = hi;
    }
    out
}

/// The rows joined, with `sep` between each two.
pub fn join_chars(parts: &Vec<Vec<char>>, sep: &Vec<char>) -> (r: Vec<char>)
    ensures
        r@ == join(rows(parts@), sep@),
{
    let mut r: Vec<char> = Vec::new();
    let mut i: usize = 0;
    while i < parts.len()
        invariant
            i <= parts.len(),
            r@ == join(rows(parts@).subrange(0, i as int), sep@),
        decreases parts.len() - i,
    {
        let ghost prev = rows(parts@).subrange(0, i as int);
        let ghost next = rows(parts@).subrange(0, i + 1);
        proof {
            assert(next.drop_last() == prev);
            assert(next.last() == parts@[i as int]@);
        }
        if i > 0 {
            append_chars(&mut r, sep);
        } else {
            assert(r@ + parts@[i as int]@ == parts@[i as int]@);
        }
        append_chars(&mut r, &parts[i]);
        i += 1;
    }
    assert(rows(parts@).subrange(0, parts.len() as int) == rows(parts@));
    r
}

/// Tells whether the two character vectors hold the same text.
pub fn same_chars(a: &Vec<char>, b: &Vec<char>) -> (r: bool)
    ensures
        r == (a@ == b@),
{
    if a.len() != b.len() {
        return false;
    }
    let r = matches_at(a, b, 0);
    assert(a@.subrange(0, a.len() as int) == a@);
    r
}

/// Tells whether the string `s` holds exactly the characters of `v`.
pub fn str_is(v: &Vec<char>, s: &str) -> (r: bool)
    ensures
        r == (v@ == s@),
{
    let t = chars_of(s);
    same_chars(v, &t)
}

/// The decimal digit for `d`.
pub open spec fn digit(d: int) -> char {
    ('0' as u32 + d) as char
}

/// The decimal form of `n`, without leading zeros.
pub open spec fn decimal(n: nat) -> Seq<char>
    decreases n,
{
    if n < 10 {
        seq![digit(n as int)]
    } else {
        decimal(n / 10).push(digit((n % 10) as int))
    }
}

/// `c` is a decimal digit.
pub open spec fn is_digit(c: char) -> bool {
    '0' as u32 <= c as u32 <= '9' as u32
}

/// `s` is made of decimal digits only (so also when it is empty).
pub open spec fn all_digits(s: Seq<char>) -> bool {
    forall|i: int| 0 <= i < s.len() ==> is_digit(#[trigger] s[i])
}

/// The number that the digits of `s` write; 0 for the empty text.
pub open spec fn digits_value(s: Seq<char>) -> nat
    decreases s.len(),
{
    if s.len() == 0 {
        0
    } else {
        (digits_value(s.drop_last()) * 10 + (s.last() as u32 - '0' as u32)) as nat
    }
}

/// The number that `s` writes in decimal digits, where it is made of one or
/// more digits and the number is at most `max`.
pub open spec fn number_in(s: Seq<char>, max: nat) -> Option<nat> {
    if s.len() > 0 && all_digits(s) && digits_value(s) <= max {
        Some(digits_value(s))
    } else {
        None
    }
}

/// The decimal form of a number is made of digits, at least one, and
/// writes that number.
pub(crate) proof fn lemma_decimal_digits(n: nat)
    ensures
        decimal(n).len() > 0,
        all_digits(decimal(n)),
        digits_value(decimal(n)) == n,
    decreases n,
{
    if n < 10 {
        let s = decimal(n);
        assert(s.drop_last() == Seq::<char>::empty());
        assert(digits_value(s.drop_last()) == 0);
    } else {
        lemma_decimal_digits(n / 10);
        let s = decimal(n);
        assert(s.drop_last() == decimal(n / 10));
        assert forall|i: int| 0 <= i < s.len() implies is_digit(#[trigger] s[i]) by {
            if i < s.len() - 1 {
                assert(s[i] == decimal(n / 10)[i]);
            }
        }
    }
}

/// The start of a number in digits writes no greater number than the
/// whole.
pub(crate) proof fn lemma_digits_value_prefix(s: Seq<char>, k: int)
    requires
        0 <= k <= s.len(),
        all_digits(s),
    ensures
        digits_value(s.subrange(0, k)) <= digits_value(s),
    decreases s.len() - k,
{
    if k == s.len() {
        assert(s.subrange(0, k) == s);
    } else {
        lemma_digits_value_prefix(s, k + 1);
        let p = s.subrange(0, k + 1);
        assert(p.drop_last() == s.subrange(0, k));
        assert(is_digit(s[k]));
        assert(p.last() == s[k]);
    }
}

/// The decimal digit for `d`.
pub(crate) fn digit_char(d: u64) -> (c: char)
    requires
        d < 10,
    ensures
        c == digit(d as int),
{
    if d == 0 {
        '0'
    } else if d == 1 {
        '1'
    } else if d == 2 {
        '2'
    } else if d == 3 {
        '3'
    } else if d == 4 {
        '4'
    } else if d == 5 {
        '5'
    } else if d == 6 {
        '6'
    } else if d == 7 {
        '7'
    } else if d == 8 {
        '8'
    } else {
        '9'
    }
}

/// Appends the decimal form of `n` to `out`.
pub fn push_decimal(out: &mut Vec<char>, n: u64)
    ensures
        final(out)@ == old(out)@ + decimal(n as nat),
    decreases n,
{
    if n >= 10 {
        push_decimal(out, n / 10);
    }
    out.push(digit_char(n % 10));
    assert(out@ =~= old(out)@ + decimal(n as nat));
}

/// The decimal form of `n`.
pub fn decimal_chars(n: u64) -> (r: Vec<char>)
    ensures
        r@ == decimal(n as nat),
{
    let mut r: Vec<char> = Vec::new();
    push_decimal(&mut r, n);
    assert(Seq::<char>::empty() + decimal(n as nat) == decimal(n as nat));
    r
}

/// Reads `v` as a number in decimal digits that is at most `u32::MAX`.
pub fn parse_u32(v: &Vec<char>) -> (r: Option<u32>)
    ensures
        match r {
            Some(n) => number_in(v@, u32::MAX as nat) == Some(n as nat),
            None => number_in(v@, u32::MAX as nat) is None,
        },
{
    if v.len() == 0 {
        return None;
    }
    let mut acc: u64 = 0;
    let mut i: usize = 0;
    assert(v@.subrange(0, 0) == Seq::<char>::empty());
    while i < v.len()
        invariant
            i <= v.len(),
            all_digits(v@.subrange(0, i as int)),
            acc == digits_value(v@.subrange(0, i as int)),
            acc <= u32::MAX,
        decreases v.len() - i,
    {
        let c: u32 = v[i] as u32;
        let ghost next = v@.subrange(0, i + 1);
        proof {
            assert(next.drop_last() == v@.subrange(0, i as int));
            assert(next.last() == v@[i as int]);
        }
        if c < 0x30 || c > 0x39 {
            proof {
                if all_digits(v@) {
                    assert(is_digit(v@[i as int]));
                }
            }
            return None;
        }
        assert forall|k: int| 0 <= k < next.len() implies is_digit(#[trigger] next[k]) by {
            if k < i {
                assert(next[k] == v@.subrange(0, i as int)[k]);
            }
        }
        let value: u64 = acc * 10 + (c - 0x30) as u64;
        if value > 0xFFFF_FFFF {
            proof {
                if all_digits(v@) {
                    lemma_digits_value_prefix(v@, i + 1);
                }
            }
            return None;
        }
        acc = value;
        i += 1;
    }
    assert(v@.subrange(0, v.len() as int) == v@);
    Some(acc as u32)
}

/// The first index at or after `from` at which `pat` stands in `s`, or the
/// length of `s` where it stands nowhere from there on.
pub open spec fn first_occurrence(s: Seq<char>, pat: Seq<char>, from: int) -> int
    decreases s.len() - from,
{
    if from < 0 || from >= s.len() {
        if from == s.len() && pat.len() == 0 {
            from
        } else {
            s.len() as int
        }
    } else if occurs_at(s, pat, from) {
        from
    } else {
        first_occurrence(s, pat, from + 1)
    }
}

/// The part of `s` before the first place where `pat` stands; all of `s`
/// where it stands nowhere.
pub open spec fn before_text(s: Seq<char>, pat: Seq<char>) -> Seq<char> {
    s.subrange(0, first_occurrence(s, pat, 0))
}

/// `s` without every copy of `pat` at its start. `pat` is not empty.
pub open spec fn without_prefixes(s: Seq<char>, pat: Seq<char>) -> Seq<char>
    decreases s.len(),
{
    if pat.len() > 0 && occurs_at(s, pat, 0) {
        without_prefixes(s.subrange(pat.len() as int, s.len() as int), pat)
    } else {
        s
    }
}

/// `s` without every copy of `pat` at its end. `pat` is not empty.
pub open spec fn without_suffixes(s: Seq<char>, pat: Seq<char>) -> Seq<char>
    decreases s.len(),
{
    if pat.len() > 0 && occurs_at(s, pat, s.len() - pat.len()) {
        without_suffixes(s.subrange(0, s.len() - pat.len()), pat)
    } else {
        s
    }
}

/// `s[from..]` with every copy of `pat` taken out, from left to right.
/// `pat` is not empty.
pub open spec fn without_all(s: Seq<char>, pat: Seq<char>, from: int) -> Seq<char>
    decreases s.len() - from,
{
    if from < 0 || from >= s.len() || pat.len() == 0 {
        Seq::empty()
    } else if occurs_at(s, pat, from) {
        without_all(s, pat, from + pat.len())
    } else {
        seq![s[from]] + without_all(s, pat, from + 1)
    }
}

/// The number that `s` writes as an optional plus sign and decimal digits
/// behind it, where that number is at most `max`.
pub open spec fn unsigned_in(s: Seq<char>, max: nat) -> Option<nat> {
    if s.len() > 0 && s[0] == '+' {
        number_in(s.drop_first(), max)
    } else {
        number_in(s, max)
    }
}

/// The index of the first of `rows[from..]` that holds `pat`, or the
/// number of rows where none does.
pub open spec fn first_row_with(all: Seq<Seq<char>>, pat: Seq<char>, from: int) -> int
    decreases all.len() - from,
{
    if from < 0 || from >= all.len() {
        all.len() as int
    } else if contains(all[from], pat) {
        from
    } else {
        first_row_with(all, pat, from + 1)
    }
}

/// `n` copies of `c`.
pub open spec fn repeated(c: char, n: nat) -> Seq<char> {
    Seq::new(n, |i: int| c)
}

/// `s` followed by as many `fill` as bring it to `width` characters; `s`
/// itself where it is that long already.
pub open spec fn padded(s: Seq<char>, width: nat, fill: char) -> Seq<char> {
    if s.len() >= width {
        s
    } else {
        s + repeated(fill, (width - s.len()) as nat)
    }
}

/// Index of the first place at or after `from` where `pat` stands in `v`,
/// or the length of `v`.
pub(crate) fn find_text(v: &Vec<char>, pat: &Vec<char>, from: usize) -> (r: usize)
    requires
        from <= v.len(),
    ensures
        r == first_occurrence(v@, pat@, from as int),
        from <= r <= v.len(),
{
    let mut k: usize = from;
    while k < v.len()
        invariant
            from <= k <= v.len(),
            first_occurrence(v@, pat@, k as int) == first_occurrence(v@, pat@, from as int),
        decreases v.len() - k,
    {
        if matches_at(v, pat, k) {
            return k;
        }
        k += 1;
    }
    k
}

/// `v` without every copy of `pat` at its start.
pub fn strip_prefixes(v: &Vec<char>, pat: &Vec<char>) -> (r: Vec<char>)
    ensures
        r@ == without_prefixes(v@, pat@),
{
    let mut lo: usize = 0;
    assert(v@.subrange(0, v.len() as int) == v@);
    if pat.len() > 0 {
        while matches_at(v, pat, lo)
            invariant
                lo <= v.len(),
                pat.len() > 0,
                without_prefixes(v@.subrange(lo as int, v.len() as int), pat@)
                    == without_prefixes(v@, pat@),
            decreases v.len() - lo,
        {
            proof {
                let cur = v@.subrange(lo as int, v.len() as int);
                assert(cur.subrange(0, pat.len() as int) == v@.subrange(
                    lo as int,
                    lo + pat.len(),
                ));
                assert(cur.subrange(pat.len() as int, cur.len() as int) == v@.subrange(
                    lo + pat.len(),
                    v.len() as int,
                ));
            }
            lo += pat.len();
        }
        proof {
            let cur = v@.subrange(lo as int, v.len() as int);
            if lo + pat.len() <= v.len() {
                assert(cur.subrange(0, pat.len() as int) == v@.subrange(
                    lo as int,
                    lo + pat.len(),
                ));
            }
        }
    }
    copy_range(v, lo, v.len())
}

/// `v` without every copy of `pat` at its end.
pub fn strip_suffixes(v: &Vec<char>, pat: &Vec<char>) -> (r: Vec<char>)
    ensures
        r@ == without_suffixes(v@, pat@),
{
    let mut hi: usize = v.len();
    assert(v@.subrange(0, v.len() as int) == v@);
    if pat.len() > 0 {
        while hi >= pat.len() && matches_at(v, pat, hi - pat.len())
            invariant
                hi <= v.len(),
                pat.len() > 0,
                without_suffixes(v@.subrange(0, hi as int), pat@) == without_suffixes(v@, pat@),
            decreases hi,
        {
            proof {
                let cur = v@.subrange(0, hi as int);
                assert(cur.subrange(hi - pat.len(), hi as int) == v@.subrange(
                    hi - pat.len(),
                    hi - pat.len() + pat.len(),
                ));
                assert(cur.subrange(0, hi - pat.len()) == v@.subrange(0, hi - pat.len()));
            }
            hi -= pat.len();
        }
        proof {
            let cur = v@.subrange(0, hi as int);
            if hi >= pat.len() {
                assert(cur.subrange(hi - pat.len(), hi as int) == v@.subrange(
                    hi - pat.len(),
                    hi - pat.len() + pat.len(),
                ));
            }
        }
    }
    copy_range(v, 0, hi)
}

/// `v` with every copy of `pat` taken out, from left to right.
pub fn remove_text(v: &Vec<char>, pat: &Vec<char>) -> (r: Vec<char>)
    ensures
        pat.len() > 0 ==> r@ == without_all(v@, pat@, 0),
        pat.len() == 0 ==> r@ == v@,
{
    if pat.len() == 0 {
        return copy_range(v, 0, v.len());
    }
    let mut out: Vec<char> = Vec::new();
    let mut i: usize = 0;
    while i < v.len()
        invariant
            i <= v.len(),
            pat.len() > 0,
            out@ + without_all(v@, pat@, i as int) == without_all(v@, pat@, 0),
        decreases v.len() - i,
    {
        if matches_at(v, pat, i) {
            i += pat.len();
        } else {
            let ghost before = out@;
            let ghost rest = without_all(v@, pat@, i + 1);
            out.push(v[i]);
            assert(before.push(v@[i as int]) + rest == before + (seq![v@[i as int]] + rest));
            i += 1;
        }
    }
    assert(out@ + Seq::<char>::empty() == out@);
    out
}

/// Reads `v` as an optional plus sign and a number in decimal digits that
/// is at most `u32::MAX`.
pub fn parse_unsigned(v: &Vec<char>) -> (r: Option<u32>)
    ensures
        match r {
            Some(n) => unsigned_in(v@, u32::MAX as nat) == Some(n as nat),
            None => unsigned_in(v@, u32::MAX as nat) is None,
        },
{
    if v.len() > 0 && v[0] == '+' {
        let digits = copy_range(v, 1, v.len());
        assert(digits@ == v@.drop_first());
        parse_u32(&digits)
    } else {
        parse_u32(v)
    }
}

/// Index of the first of `all[from..]` that holds `pat`, or the number of
/// rows.
pub(crate) fn find_row_with(all: &Vec<Vec<char>>, pat: &Vec<char>, from: usize) -> (r: usize)
    requires
        from <= all.len(),
    ensures
        r == first_row_with(rows(all@), pat@, from as int),
        from <= r <= all.len(),
{
    let mut k: usize = from;
    while k < all.len()
        invariant
            from <= k <= all.len(),
            first_row_with(rows(all@), pat@, k as int) == first_row_with(
                rows(all@),
                pat@,
                from as int,
            ),
        decreases all.len() - k,
    {
        assert(rows(all@)[k as int] == all@[k as int]@);
        if contains_chars(&all[k], pat) {
            return k;
        }
        k += 1;
    }
    k
}

/// Appends `n` copies of `c` to `out`.
pub fn push_repeated(out: &mut Vec<char>, c: char, n: usize)
    ensures
        final(out)@ == old(out)@ + repeated(c, n as nat),
{
    let mut i: usize = 0;
    while i < n
        invariant
            i <= n,
            out@ == old(out)@ + repeated(c, i as nat),
        decreases n - i,
    {
        out.push(c);
        assert(out@ =~= old(out)@ + repeated(c, (i + 1) as nat));
        i += 1;
    }
}

/// Appends `s` to `out`, filled up with `fill` to `width` characters.
pub fn push_padded(out: &mut Vec<char>, s: &Vec<char>, width: usize, fill: char)
    ensures
        final(out)@ == old(out)@ + padded(s@, width as nat, fill),
{
    append_chars(out, s);
    if s.len() < width {
        push_repeated(out, fill, width - s.len());
        assert(out@ =~= old(out)@ + padded(s@, width as nat, fill));
    }
}

/// The part of `v` before the first `c`; all of `v` where it holds none.
pub fn take_before(v: &Vec<char>, c: char) -> (r: Vec<char>)
    ensures
        r@ == before_first(v@, c),
{
    let end = find_char(v, c, 0);
    copy_range(v, 0, end)
}

/// The part of `v` behind the first `c`, where `v` holds one.
pub fn take_after(v: &Vec<char>, c: char) -> (r: Option<Vec<char>>)
    ensures
        match r {
            Some(rest) => after_first(v@, c) == Some(rest@),
            None => after_first(v@, c) is None,
        },
{
    let at = find_char(v, c, 0);
    if at < v.len() {
        Some(copy_range(v, at + 1, v.len()))
    } else {
        None
    }
}

} // verus!
