//! The mod's log files on Windows: which files are its logs, how many old
//! ones go when a new one starts, and what the new one is called.
use vstd::prelude::*;
use vstd::string::*;

use crate::text::{decimal, decimal_text};

verus! {

/// The most log files kept, the new one included.
pub const MAX_LOG_FILES: usize = 10;

/// Whether `name` is the name of one of the mod's log files: `bvs-…` ending in `.log`.
pub open spec fn is_log_name_text(name: Seq<char>) -> bool {
    "bvs-"@.is_prefix_of(name) && ".log"@.is_suffix_of(name)
}

/// Whether the text `s` holds `part` from the character `start` on.
fn holds_at(s: &str, part: &str, start: usize) -> (r: bool)
    requires
        start + part@.len() <= s@.len(),
    ensures
        r == (s@.subrange(start as int, start + part@.len()) == part@),
{
    let n = part.unicode_len();
    let m = s.unicode_len();
    let mut i: usize = 0;
    while i < n
        invariant
            n == part@.len(),
            m == s@.len(),
            start + n <= m,
            i <= n,
            forall|k: int| 0 <= k < i ==> s@[start + k] == part@[k],
        decreases n - i,
    {
        if s.get_char(start + i) != part.get_char(i) {
            assert(s@.subrange(start as int, start + n)[i as int] != part@[i as int]);
            return false;
        }
        i = i + 1;
    }
    assert(s@.subrange(start as int, start + n) =~= part@);
    true
}

/// Whether `name` is the name of one of the mod's log files.
pub fn is_log_file_name(name: &str) -> (r: bool)
    ensures
        r == is_log_name_text(name@),
{
    proof {
        reveal_strlit("bvs-");
        reveal_strlit(".log");
    }
    let n = name.unicode_len();
    if n < 4 {
        return false;
    }
    holds_at(name, "bvs-", 0) && holds_at(name, ".log", n - 4)
}

/// How many of the `count` old log files go before a new one starts: the
/// oldest ones beyond the `MAX_LOG_FILES - 1` that stay.
pub fn excess_log_files(count: usize) -> (r: usize)
    ensures
        r == if count >= MAX_LOG_FILES - 1 {
            count - (MAX_LOG_FILES - 1)
        } else {
            0
        },
        r <= count,
        count - r <= MAX_LOG_FILES - 1,
{
    count.saturating_sub(MAX_LOG_FILES - 1)
}

/// The decimal text of `n`, with zeros in front up to `width` characters.
pub open spec fn zero_padded(n: nat, width: nat) -> Seq<char> {
    let d = decimal_text(n);
    if d.len() < width {
        Seq::new((width - d.len()) as nat, |i: int| '0') + d
    } else {
        d
    }
}

/// Appends the decimal text of `n`, with zeros in front up to `width` characters.
fn push_padded(out: &mut String, n: u64, width: usize)
    ensures
        final(out)@ == old(out)@ + zero_padded(n as nat, width as nat),
{
    let d = decimal(n);
    let len = d.as_str().unicode_len();
    let ghost start = out@;
    let mut i: usize = len;
    while i < width
        invariant
            len == decimal_text(n as nat).len(),
            len <= i <= width || (i == len && width < len),
            out@ == start + Seq::new((i - len) as nat, |k: int| '0'),
        decreases width - i,
    {
        proof {
            reveal_strlit("0");
        }
        out.append("0");
        i = i + 1;
        assert(out@ =~= start + Seq::new((i - len) as nat, |k: int| '0'));
    }
    out.append(d.as_str());
    if len < width {
        assert(out@ =~= start + zero_padded(n as nat, width as nat));
    } else {
        assert(Seq::new((i - len) as nat, |k: int| '0') =~= Seq::<char>::empty());
        assert(out@ =~= start + zero_padded(n as nat, width as nat));
    }
}

/// A year as `{:04}` writes it: four digits at least, a negative one with
/// its sign in front of three.
pub open spec fn year_text(year: i32) -> Seq<char> {
    if year >= 0 {
        zero_padded(year as nat, 4)
    } else {
        "-"@ + zero_padded((-year) as nat, 3)
    }
}

/// The date stamp of a log file: `YYYY.MM.DD-hh.mm.ss`.
pub open spec fn log_stamp_text(year: i32, month: u8, day: u8, hour: u8, minute: u8, second: u8) -> Seq<
    char,
> {
    year_text(year) + "."@ + zero_padded(month as nat, 2) + "."@ + zero_padded(day as nat, 2) + "-"@
        + zero_padded(hour as nat, 2) + "."@ + zero_padded(minute as nat, 2) + "."@ + zero_padded(
        second as nat,
        2,
    )
}

/// The date stamp of a log file started at the given date and time (UTC).
pub fn log_stamp(year: i32, month: u8, day: u8, hour: u8, minute: u8, second: u8) -> (r: String)
    ensures
        r@ == log_stamp_text(year, month, day, hour, minute, second),
{
    let mut r = String::new();
    if year >= 0 {
        push_padded(&mut r, year as u64, 4);
    } else {
        r.append("-");
        let magnitude: i64 = -(year as i64);
        push_padded(&mut r, magnitude as u64, 3);
    }
    r.append(".");
    push_padded(&mut r, month as u64, 2);
    r.append(".");
    push_padded(&mut r, day as u64, 2);
    r.append("-");
    push_padded(&mut r, hour as u64, 2);
    r.append(".");
    push_padded(&mut r, minute as u64, 2);
    r.append(".");
    push_padded(&mut r, second as u64, 2);
    proof {
        assert(r@ =~= log_stamp_text(year, month, day, hour, minute, second));
    }
    r
}

/// The name of a new log file with the date stamp `stamp`: `bvs-<stamp>.log`,
/// or, when that file exists already, `bvs-<stamp>-<pid>.log` with the
/// process id `pid`.
pub open spec fn log_file_name_text(stamp: Seq<char>, pid: Option<u32>) -> Seq<char> {
    match pid {
        None => "bvs-"@ + stamp + ".log"@,
        Some(p) => "bvs-"@ + stamp + "-"@ + decimal_text(p as nat) + ".log"@,
    }
}

/// The name of a new log file (see `log_file_name_text`).
pub fn log_file_name(stamp: &str, pid: Option<u32>) -> (r: String)
    ensures
        r@ == log_file_name_text(stamp@, pid),
{
    let mut r = String::new();
    r.append("bvs-");
    r.append(stamp);
    match pid {
        None => {},
        Some(p) => {
            r.append("-");
            let d = decimal(p as u64);
            r.append(d.as_str());
        },
    }
    r.append(".log");
    r
}

/// Every name a new log file gets is a log file's name, so later starts
/// count it among the old ones.
pub proof fn lemma_new_logs_are_counted(stamp: Seq<char>, pid: Option<u32>)
    ensures
        is_log_name_text(log_file_name_text(stamp, pid)),
{
    reveal_strlit("bvs-");
    reveal_strlit(".log");
    let name = log_file_name_text(stamp, pid);
    let middle = match pid {
        None => stamp,
        Some(p) => stamp + "-"@ + decimal_text(p as nat),
    };
    assert(name =~= "bvs-"@ + middle + ".log"@);
    assert(name.subrange(0, 4) =~= "bvs-"@);
    assert(name.subrange(name.len() - 4, name.len() as int) =~= ".log"@);
}

} // verus!
