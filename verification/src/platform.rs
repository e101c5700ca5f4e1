//! Small decisions of the console build: which lines of log text are
//! complete, and which core a worker thread runs on.
use vstd::prelude::*;

use crate::http::{lossy_text, trim_end, utf8_lossy};

verus! {

/// The complete lines of `bytes` (each without its `\n`), and what follows the last `\n`.
#[verifier::opaque]
pub open spec fn split_lines(bytes: Seq<u8>) -> (Seq<Seq<u8>>, Seq<u8>)
    decreases bytes.len(),
{
    if exists|i: int| 0 <= i < bytes.len() && bytes[i] == 10u8 {
        let i = choose|i: int|
            0 <= i < bytes.len() && bytes[i] == 10u8 && forall|j: int| 0 <= j < i ==> bytes[j] != 10u8;
        if 0 <= i < bytes.len() {
            let rest = split_lines(bytes.skip(i + 1));
            (seq![bytes.take(i)] + rest.0, rest.1)
        } else {
            (Seq::empty(), bytes)
        }
    } else {
        (Seq::empty(), bytes)
    }
}

/// The text a log line is printed as: read leniently as UTF-8, without
/// trailing white space.
pub open spec fn line_text(line: Seq<u8>) -> Seq<char> {
    trim_end(utf8_lossy(line))
}

/// Log text written so far that does not end a line yet.
#[derive(Debug)]
pub struct LogLines {
    pending: Vec<u8>,
}

impl View for LogLines {
    type V = Seq<u8>;

    closed spec fn view(&self) -> Seq<u8> {
        self.pending@
    }
}

/// Where the first `\n` of `bytes` is from `from` on, if any.
fn find_newline(bytes: &Vec<u8>, from: usize) -> (r: Option<usize>)
    requires
        from <= bytes@.len(),
    ensures
        match r {
            Some(i) => from <= i < bytes@.len() && bytes@[i as int] == 10u8 && forall|j: int|
                from <= j < i ==> bytes@[j] != 10u8,
            None => forall|j: int| from <= j < bytes@.len() ==> bytes@[j] != 10u8,
        },
{
    let mut i = from;
    while i < bytes.len()
        invariant
            from <= i <= bytes@.len(),
            forall|j: int| from <= j < i ==> bytes@[j] != 10u8,
        decreases bytes@.len() - i,
    {
        if bytes[i] == 10u8 {
            return Some(i);
        }
        i = i + 1;
    }
    None
}

/// The unique first `\n` found at `i` is the one `split_lines` takes.
proof fn lemma_split_at(bytes: Seq<u8>, i: int)
    requires
        0 <= i < bytes.len(),
        bytes[i] == 10u8,
        forall|j: int| 0 <= j < i ==> bytes[j] != 10u8,
    ensures
        split_lines(bytes) == ({
            let rest = split_lines(bytes.skip(i + 1));
            (seq![bytes.take(i)] + rest.0, rest.1)
        }),
{
    reveal(split_lines);
    let w = choose|w: int|
        0 <= w < bytes.len() && bytes[w] == 10u8 && forall|j: int| 0 <= j < w ==> bytes[j] != 10u8;
    assert(0 <= i < bytes.len() && bytes[i] == 10u8 && forall|j: int| 0 <= j < i ==> bytes[j] != 10u8);
    if w < i {
        assert(bytes[w] != 10u8);
    } else if w > i {
        assert(bytes[i] != 10u8);
    }
}

/// Without a `\n`, `bytes` holds no complete line.
proof fn lemma_split_none(bytes: Seq<u8>)
    requires
        forall|j: int| 0 <= j < bytes.len() ==> bytes[j] != 10u8,
    ensures
        split_lines(bytes) == (Seq::<Seq<u8>>::empty(), bytes),
{
    reveal(split_lines);
}

/// The lines of `whole` from `start` on, when the next `\n` is at `nl`.
proof fn lemma_split_step(whole: Seq<u8>, start: int, nl: int)
    requires
        0 <= start <= nl < whole.len(),
        whole[nl] == 10u8,
        forall|j: int| start <= j < nl ==> whole[j] != 10u8,
    ensures
        split_lines(whole.skip(start)).0 == seq![whole.subrange(start, nl)] + split_lines(
            whole.skip(nl + 1),
        ).0,
        split_lines(whole.skip(start)).1 == split_lines(whole.skip(nl + 1)).1,
{
    let s = whole.skip(start);
    assert forall|j: int| 0 <= j < nl - start implies s[j] != 10u8 by {
        assert(s[j] == whole[start + j]);
    }
    assert(s[nl - start] == whole[nl]);
    lemma_split_at(s, nl - start);
    assert(s.skip(nl - start + 1) =~= whole.skip(nl + 1));
    assert(s.take(nl - start) =~= whole.subrange(start, nl));
}

impl LogLines {
    /// Nothing written yet.
    pub fn new() -> (r: LogLines)
        ensures
            r@ == Seq::<u8>::empty(),
    {
        LogLines { pending: Vec::new() }
    }

    /// Takes `buf` in and hands out the texts of the lines it completes, in order.
    pub fn write(&mut self, buf: &[u8]) -> (r: Vec<String>)
        ensures
            ({
                let (lines, rest) = split_lines(old(self)@ + buf@);
                &&& r@.len() == lines.len()
                &&& forall|k: int| 0 <= k < lines.len() ==> #[trigger] r@[k]@ == line_text(lines[k])
                &&& final(self)@ == rest
            }),
    {
        let mut all: Vec<u8> = Vec::new();
        let mut k: usize = 0;
        while k < self.pending.len()
            invariant
                k <= self.pending@.len(),
                all@ == self.pending@.take(k as int),
            decreases self.pending@.len() - k,
        {
            all.push(self.pending[k]);
            k = k + 1;
            assert(all@ =~= self.pending@.take(k as int));
        }
        let mut k: usize = 0;
        let ghost p = self.pending@;
        assert(p.take(p.len() as int) =~= p);
        while k < buf.len()
            invariant
                k <= buf@.len(),
                all@ == p + buf@.take(k as int),
            decreases buf@.len() - k,
        {
            all.push(buf[k]);
            k = k + 1;
            assert(all@ =~= p + buf@.take(k as int));
        }
        assert(buf@.take(buf@.len() as int) =~= buf@);
        let ghost whole = all@;
        assert(whole.skip(0) =~= whole);
        let n = all.len();
        let mut out: Vec<String> = Vec::new();
        let mut start: usize = 0;
        loop
            invariant
                start <= all@.len(),
                n == all@.len(),
                all@ == whole,
                whole == old(self)@ + buf@,
                ({
                    let (lines, rest) = split_lines(whole);
                    let (later, rest2) = split_lines(whole.skip(start as int));
                    &&& rest == rest2
                    &&& lines.len() == out@.len() + later.len()
                    &&& forall|m: int| 0 <= m < out@.len() ==> #[trigger] out@[m]@ == line_text(lines[m])
                    &&& forall|m: int|
                        0 <= m < later.len() ==> lines[out@.len() + m] == #[trigger] later[m]
                }),
            decreases all@.len() - start,
        {
            match find_newline(&all, start) {
                None => {
                    let ghost s = whole.skip(start as int);
                    proof {
                        assert forall|i: int| 0 <= i < s.len() implies s[i] != 10u8 by {
                            assert(s[i] == whole[start + i]);
                        }
                        lemma_split_none(s);
                    }
                    let rest = vstd::slice::slice_subrange(all.as_slice(), start, all.len());
                    self.pending = vstd::slice::slice_to_vec(rest);
                    assert(self.pending@ =~= s);
                    proof {
                        let (lines, _) = split_lines(whole);
                        assert forall|k: int| 0 <= k < lines.len() implies #[trigger] out@[k]@ == line_text(lines[k]) by {
                        }
                    }
                    return out;
                },
                Some(nl) => {
                    proof {
                        lemma_split_step(whole, start as int, nl as int);
                    }
                    let line = vstd::slice::slice_subrange(all.as_slice(), start, nl);
                    let text = lossy_text(line);
                    let t = text.as_str();
                    let (lo, hi) = trim_end_bounds(t);
                    let trimmed = crate::text::owned(t.substring_char(lo, hi));
                    let ghost before = out@;
                    out.push(trimmed);
                    proof {
                        let (lines, rest) = split_lines(whole);
                        let (later, rest2) = split_lines(whole.skip(start as int));
                        let (later2, _) = split_lines(whole.skip(nl + 1));
                        assert(later[0] == whole.subrange(start as int, nl as int));
                        assert(line@ == whole.subrange(start as int, nl as int));
                        assert(lines[before.len() as int] == later[0]);
                        assert forall|m: int| 0 <= m < out@.len() implies #[trigger] out@[m]@ == line_text(
                            lines[m],
                        ) by {
                            if m < before.len() {
                                assert(out@[m] == before[m]);
                            }
                        }
                        assert forall|m: int| 0 <= m < later2.len() implies lines[out@.len() + m]
                            == #[trigger] later2[m] by {
                            assert(later[m + 1] == later2[m]);
                            assert(lines[before.len() + (m + 1)] == later[m + 1]);
                        }
                    }
                    start = nl + 1;
                },
            }
        }
    }

    /// Hands out the text of an unfinished last line, if any, and forgets it.
    pub fn flush(&mut self) -> (r: Option<String>)
        ensures
            match r {
                Some(t) => old(self)@.len() > 0 && t@ == utf8_lossy(old(self)@),
                None => old(self)@.len() == 0,
            },
            final(self)@ == Seq::<u8>::empty(),
    {
        if self.pending.len() == 0 {
            return None;
        }
        let text = lossy_text(self.pending.as_slice());
        self.pending = Vec::new();
        Some(text)
    }
}

/// The bounds of `s` without its trailing white space.
fn trim_end_bounds(s: &str) -> (r: (usize, usize))
    ensures
        r.0 == 0,
        r.1 <= s@.len(),
        s@.subrange(0, r.1 as int) == trim_end(s@),
{
    let n = s.unicode_len();
    let mut j: usize = n;
    assert(s@.subrange(0, n as int) =~= s@);
    while j > 0 && crate::http::white_space(s.get_char(j - 1))
        invariant
            n == s@.len(),
            j <= n,
            trim_end(s@) == trim_end(s@.subrange(0, j as int)),
        decreases j,
    {
        assert(s@.subrange(0, j as int).drop_last() =~= s@.subrange(0, j - 1));
        j = j - 1;
    }
    (0, j)
}

/// Core `c` is in the mask of available cores.
pub open spec fn core_available(mask: u64, c: u32) -> bool {
    c < 64 && mask & (1u64 << c) != 0
}

/// The first available core other than the game's main one, if any.
pub fn pick_worker_core(mask: u64, main_core: i32) -> (r: Option<u32>)
    ensures
        match r {
            Some(c) => c < 64 && core_available(mask, c) && c != main_core && forall|d: u32|
                d < c ==> !(core_available(mask, d) && d != main_core),
            None => forall|d: u32| d < 64 ==> !(core_available(mask, d) && d != main_core),
        },
{
    let mut c: u32 = 0;
    while c < 64
        invariant
            c <= 64,
            forall|d: u32| d < c ==> !(core_available(mask, d) && d != main_core),
        decreases 64 - c,
    {
        if mask & (1u64 << c) != 0 && (c as i64) != (main_core as i64) {
            return Some(c);
        }
        c = c + 1;
    }
    None
}

} // verus!
