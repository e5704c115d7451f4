//! The end of a growing file: its last lines, and what is added to it.

use crate::text::{chars_of, lines, rows, split_lines, string_of, texts};
use vstd::prelude::*;
use vstd::utf8::encode_utf8;

verus! {

/// How many bytes are read from the end of the file for each line asked
/// for.
pub const LINE_BUDGET: usize = 200;

/// A file that is read from its end.
#[derive(Debug)]
pub struct Tail {
    /// The length of the file when it was opened; while the file is
    /// watched, the offset up to which it has been handed on.
    pub length: usize,
    /// The file's path.
    pub path: String,
}

/// What the watcher of a file is told.
#[derive(Debug, Clone, Copy, PartialEq, Eq, Structural)]
pub enum WatchEvent {
    /// The file was modified and now has this length.
    Modified(usize),
    /// Something else happened to the file that leaves it in place.
    Other,
    /// The file was removed.
    Removed,
    /// The stream of events failed.
    Failed,
}

/// What the watcher does next.
#[derive(Debug, Clone, Copy, PartialEq, Eq, Structural)]
pub enum WatchStep {
    /// Read the bytes from the first offset up to the second and hand
    /// them on.
    Emit(usize, usize),
    /// Nothing to hand on.
    Idle,
    /// The watch ends in good order.
    Finished,
    /// The watch ends with an error.
    Failed,
}

/// The budget of bytes for `n` lines of a file of `length` bytes: 200 for
/// each line, and no more than the file has.
pub open spec fn budget(n: nat, length: nat) -> nat {
    if n * 200 <= length {
        n * 200
    } else {
        length
    }
}

/// The last `n` of `all`, in their order; all of them where there are
/// fewer.
pub open spec fn last_of(all: Seq<Seq<char>>, n: nat) -> Seq<Seq<char>> {
    if n >= all.len() {
        all
    } else {
        all.subrange(all.len() - n, all.len() as int)
    }
}

/// The offset up to which a watched file has been handed on, after an
/// event: a modification that made the file longer moves it to the new
/// length; nothing moves it back.
pub open spec fn offset_after(offset: nat, e: WatchEvent) -> nat {
    match e {
        WatchEvent::Modified(len) => if len > offset {
            len as nat
        } else {
            offset
        },
        _ => offset,
    }
}

/// What the watcher does for an event.
pub open spec fn step_for(offset: nat, e: WatchEvent) -> WatchStep {
    match e {
        WatchEvent::Modified(len) => if len > offset {
            WatchStep::Emit(offset as usize, len)
        } else {
            WatchStep::Idle
        },
        WatchEvent::Other => WatchStep::Idle,
        WatchEvent::Removed => WatchStep::Finished,
        WatchEvent::Failed => WatchStep::Failed,
    }
}

impl Tail {
    /// A tail on the file at `file_path`, which has `length` bytes.
    pub fn new(file_path: String, length: usize) -> (r: Tail)
        ensures
            r.length == length,
            r.path@ == file_path@,
    {
        Tail { length, path: file_path }
    }

    /// How many bytes before the end of the file the reading for `lines`
    /// lines starts.
    pub fn read_budget(&self, lines: usize) -> (r: usize)
        ensures
            r == budget(lines as nat, self.length as nat),
    {
        match lines.checked_mul(LINE_BUDGET) {
            Some(bytes) => if bytes <= self.length {
                bytes
            } else {
                self.length
            },
            None => self.length,
        }
    }

    /// The last `lines` lines of `buffer`, oldest first. `buffer` is what
    /// was read from the end of the file.
    pub fn read_lines(&self, buffer: &str, lines: usize) -> (r: Vec<String>)
        ensures
            texts(r@) == last_of(crate::text::lines(buffer@), lines as nat),
    {
        let all = split_lines(&chars_of(buffer));
        let n = all.len();
        let first: usize = if lines >= n {
            0
        } else {
            n - lines
        };
        let mut out: Vec<String> = Vec::new();
        let mut i: usize = first;
        while i < n
            invariant
                first <= i <= n,
                n == all.len(),
                out.len() == i - first,
                forall|j: int| 0 <= j < out.len() ==> out@[j]@ == #[trigger] all@[first + j]@,
            decreases n - i,
        {
            out.push(string_of(&all[i]));
            i += 1;
        }
        assert forall|j: int| 0 <= j < out.len() implies texts(out@)[j] == rows(all@).subrange(
            first as int,
            n as int,
        )[j] by {
            assert(out@[j]@ == all@[first + j]@);
        }
        assert(texts(out@) =~= rows(all@).subrange(first as int, n as int));
        assert(rows(all@).subrange(0, n as int) =~= rows(all@));
        out
    }

    /// Takes one event on the watched file: tells what to do for it, and
    /// remembers up to where the file has been handed on.
    pub fn watch(&mut self, event: WatchEvent) -> (r: WatchStep)
        ensures
            r == step_for(old(self).length as nat, event),
            final(self).length == offset_after(old(self).length as nat, event),
            final(self).path == old(self).path,
    {
        match event {
            WatchEvent::Modified(len) => {
                if len > self.length {
                    let from = self.length;
                    self.length = len;
                    WatchStep::Emit(from, len)
                } else {
                    WatchStep::Idle
                }
            },
            WatchEvent::Other => WatchStep::Idle,
            WatchEvent::Removed => WatchStep::Finished,
            WatchEvent::Failed => WatchStep::Failed,
        }
    }
}

/// Of a file with fewer lines than asked for, the tail gives every line,
/// in the original order, where the budget for the lines asked for is no
/// less than the file: then all of the file is read.
pub proof fn lemma_fewer_lines_than_asked(content: Seq<char>, n: nat)
    requires
        lines(content).len() < n,
        n * 200 >= encode_utf8(content).len(),
    ensures
        budget(n, encode_utf8(content).len()) == encode_utf8(content).len(),
        last_of(lines(content), n) == lines(content),
{
}

/// Asked for no line, the tail gives none.
pub proof fn lemma_no_line_asked(all: Seq<Seq<char>>)
    ensures
        last_of(all, 0).len() == 0,
{
}

/// The tail never gives more lines than asked for, and what it gives is the
/// end of the lines, in their order.
pub proof fn lemma_last_lines(all: Seq<Seq<char>>, n: nat)
    ensures
        last_of(all, n).len() == (if n < all.len() {
            n
        } else {
            all.len()
        }),
        forall|j: int|
            0 <= j < last_of(all, n).len() ==> #[trigger] last_of(all, n)[j] == all[all.len()
                - last_of(all, n).len() + j],
{
}

/// No byte of a watched file is handed on twice: what is emitted starts
/// where the last emission ended, and the offset never goes back.
pub proof fn lemma_watch_never_repeats(offset: nat, e: WatchEvent)
    requires
        offset <= usize::MAX,
    ensures
        offset_after(offset, e) >= offset,
        step_for(offset, e) is Emit ==> step_for(offset, e)->Emit_0 == offset && step_for(
            offset,
            e,
        )->Emit_1 == offset_after(offset, e) && offset < offset_after(offset, e),
        !(step_for(offset, e) is Emit) ==> offset_after(offset, e) == offset,
{
}

} // verus!
