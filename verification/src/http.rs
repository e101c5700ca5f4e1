//! A small HTTPS GET client's logic: addresses, responses, chunked bodies and
//! redirects. Moving the bytes over TLS is left to the caller.
use vstd::prelude::*;
use vstd::string::*;
use vstd::utf8::*;

use crate::text::{concat2, concat3, decimal, decimal_text, owned};

verus! {

/// `needle` occurs in `hay` at `i`.
pub open spec fn occurs_at(hay: Seq<u8>, needle: Seq<u8>, i: int) -> bool {
    0 <= i && i + needle.len() <= hay.len() && hay.subrange(i, i + needle.len()) == needle
}

/// `i` is the first place `needle` occurs in `hay`.
pub open spec fn is_first_occurrence(hay: Seq<u8>, needle: Seq<u8>, i: int) -> bool {
    occurs_at(hay, needle, i) && forall|j: int| 0 <= j < i ==> !occurs_at(hay, needle, j)
}

/// The first place `needle` occurs in `hay`.
#[verifier::opaque]
pub open spec fn first_occurrence(hay: Seq<u8>, needle: Seq<u8>) -> Option<int> {
    if exists|i: int| is_first_occurrence(hay, needle, i) {
        Some(choose|i: int| is_first_occurrence(hay, needle, i))
    } else {
        None
    }
}

/// The first place `needle` (not empty) occurs in `hay` from `from` on,
/// counted from `from`.
pub fn find_from(hay: &[u8], from: usize, needle: &[u8]) -> (r: Option<usize>)
    requires
        needle@.len() > 0,
        from <= hay@.len(),
    ensures
        match r {
            Some(i) => first_occurrence(hay@.skip(from as int), needle@) == Some(i as int),
            None => first_occurrence(hay@.skip(from as int), needle@) is None,
        },
{
    reveal(first_occurrence);
    let ghost h = hay@.skip(from as int);
    let n = needle.len();
    let len = hay.len() - from;
    if n > len {
        assert(!exists|i: int| occurs_at(h, needle@, i));
        reveal(first_occurrence);
        return None;
    }
    let mut i: usize = 0;
    while i <= len - n
        invariant
            h == hay@.skip(from as int),
            len == h.len(),
            from + len == hay@.len(),
            n == needle@.len(),
            n <= len,
            i <= len - n + 1,
            forall|j: int| 0 <= j < i ==> !occurs_at(h, needle@, j),
        decreases len - i,
    {
        let mut k: usize = 0;
        let mut same = true;
        while k < n
            invariant
                h == hay@.skip(from as int),
                from + len == hay.len(),
                len == h.len(),
                n == needle@.len(),
                i + n <= len,
                k <= n,
                same == forall|m: int| 0 <= m < k ==> h[i + m] == needle@[m],
            decreases n - k,
        {
            if hay[from + i + k] != needle[k] {
                same = false;
            }
            k = k + 1;
        }
        if same {
            reveal(first_occurrence);
            assert(h.subrange(i as int, i + n) =~= needle@);
            assert(occurs_at(h, needle@, i as int));
            proof {
                assert(is_first_occurrence(h, needle@, i as int));
                let w = choose|w: int| is_first_occurrence(h, needle@, w);
                if w < i {
                    assert(!occurs_at(h, needle@, w));
                } else if w > i {
                    assert(!occurs_at(h, needle@, i as int));
                }
            }
            return Some(i);
        }
        assert(!occurs_at(h, needle@, i as int)) by {
            if occurs_at(h, needle@, i as int) {
                assert forall|m: int| 0 <= m < n implies h[i + m] == needle@[m] by {
                    assert(h.subrange(i as int, i + n)[m] == h[i + m]);
                }
            }
        }
        i = i + 1;
    }
    assert forall|j: int| !occurs_at(h, needle@, j) by {
        if 0 <= j && j < i {
        }
    }
    reveal(first_occurrence);
    None
}

/// Where `first_occurrence` points, `needle` occurs.
proof fn lemma_first_occurrence(hay: Seq<u8>, needle: Seq<u8>, i: int)
    requires
        first_occurrence(hay, needle) == Some(i),
    ensures
        occurs_at(hay, needle, i),
{
    reveal(first_occurrence);
}

/// The first place `needle` (not empty) occurs in `hay`.
pub fn find(hay: &[u8], needle: &[u8]) -> (r: Option<usize>)
    requires
        needle@.len() > 0,
    ensures
        match r {
            Some(i) => first_occurrence(hay@, needle@) == Some(i as int),
            None => first_occurrence(hay@, needle@) is None,
        },
{
    assert(hay@.skip(0) =~= hay@);
    find_from(hay, 0, needle)
}

/// An ASCII decimal digit.
pub open spec fn is_digit(c: char) -> bool {
    '0' <= c && c <= '9'
}

/// The value of a run of decimal digits.
pub open spec fn decimal_value(s: Seq<char>) -> nat
    decreases s.len(),
{
    if s.len() == 0 {
        0
    } else {
        decimal_value(s.drop_last()) * 10 + ((s.last() as nat) - ('0' as nat)) as nat
    }
}

/// The digits of an unsigned number's text: all of it, or all but a leading `+`.
pub open spec fn unsigned_digits(s: Seq<char>) -> Seq<char> {
    if s.len() > 0 && s[0] == '+' {
        s.drop_first()
    } else {
        s
    }
}

/// The `u16` that Rust's `parse` reads from the text: an optional `+`, then
/// one or more decimal digits, of value at most 65535.
pub open spec fn u16_of(s: Seq<char>) -> Option<u16> {
    let d = unsigned_digits(s);
    if d.len() > 0 && (forall|i: int| 0 <= i < d.len() ==> is_digit(#[trigger] d[i]))
        && decimal_value(d) <= 65535 {
        Some(decimal_value(d) as u16)
    } else {
        None
    }
}

proof fn lemma_decimal_step(s: Seq<char>, c: char)
    ensures
        decimal_value(s.push(c)) == decimal_value(s) * 10 + ((c as nat) - ('0' as nat)) as nat,
{
    assert(s.push(c).drop_last() =~= s);
}

/// Reads a `u16` as Rust's `parse` does.
pub fn parse_u16(s: &str) -> (r: Option<u16>)
    ensures
        r == u16_of(s@),
{
    let n = s.unicode_len();
    let mut start: usize = 0;
    if n > 0 && s.get_char(0) == '+' {
        start = 1;
    }
    let ghost d = unsigned_digits(s@);
    assert(d =~= s@.subrange(start as int, n as int));
    if start >= n {
        assert(d.len() == 0);
        assert(u16_of(s@) is None);
        return None;
    }
    let mut v: u32 = 0;
    let mut i: usize = start;
    while i < n
        invariant
            n == s@.len(),
            start <= i <= n,
            start < n,
            d == s@.subrange(start as int, n as int),
            d == unsigned_digits(s@),
            forall|k: int| start <= k < i ==> is_digit(#[trigger] s@[k]),
            v == decimal_value(s@.subrange(start as int, i as int)),
            v <= 65535,
        decreases n - i,
    {
        let c = s.get_char(i);
        if !('0' <= c && c <= '9') {
            assert(d[i - start] == c);
            assert(!is_digit(d[i - start]));
            return None;
        }
        proof {
            lemma_decimal_step(s@.subrange(start as int, i as int), c);
            assert(s@.subrange(start as int, i as int).push(c) =~= s@.subrange(start as int, i + 1));
        }
        let digit: u32 = (c as u32) - ('0' as u32);
        let w: u32 = v * 10 + digit;
        assert(w == decimal_value(s@.subrange(start as int, i + 1)));
        if w > 65535 {
            proof {
                assert(d.take(i + 1 - start) =~= s@.subrange(start as int, i + 1));
                if forall|k: int| 0 <= k < d.len() ==> is_digit(#[trigger] d[k]) {
                    lemma_prefix_value_bound(d, (i + 1 - start) as nat);
                }
            }
            return None;
        }
        v = w;
        i = i + 1;
    }
    assert(s@.subrange(start as int, n as int) =~= d);
    assert forall|k: int| 0 <= k < d.len() implies is_digit(#[trigger] d[k]) by {
        assert(d[k] == s@[start + k]);
    }
    Some(v as u16)
}

/// A run of digits is worth at least its prefixes.
proof fn lemma_prefix_value_bound(d: Seq<char>, k: nat)
    requires
        k <= d.len(),
        forall|i: int| 0 <= i < d.len() ==> is_digit(#[trigger] d[i]),
    ensures
        decimal_value(d.take(k as int)) <= decimal_value(d),
    decreases d.len() - k,
{
    if k < d.len() {
        lemma_prefix_value_bound(d, k + 1);
        lemma_decimal_step(d.take(k as int), d[k as int]);
        assert(d.take(k as int).push(d[k as int]) =~= d.take(k as int + 1));
    } else {
        assert(d.take(k as int) =~= d);
    }
}

/// `i` is where `c` first occurs in `s`, or the length of `s` when it does not.
pub open spec fn is_first_index(s: Seq<char>, c: char, i: int) -> bool {
    &&& 0 <= i <= s.len()
    &&& forall|k: int| 0 <= k < i ==> s[k] != c
    &&& i < s.len() ==> s[i] == c
}

/// Where `c` first occurs in `s`, or the length of `s` when it does not.
pub open spec fn first_index(s: Seq<char>, c: char) -> int {
    choose|i: int| is_first_index(s, c, i)
}

/// `i` is where `c` last occurs in `s`, or `-1` when it does not.
pub open spec fn is_last_index(s: Seq<char>, c: char, i: int) -> bool {
    &&& -1 <= i < s.len()
    &&& forall|k: int| i < k < s.len() ==> s[k] != c
    &&& i >= 0 ==> s[i] == c
}

/// Where `c` last occurs in `s`, or `-1` when it does not.
pub open spec fn last_index(s: Seq<char>, c: char) -> int {
    choose|i: int| is_last_index(s, c, i)
}

proof fn lemma_first_index(s: Seq<char>, c: char, i: int)
    requires
        is_first_index(s, c, i),
    ensures
        first_index(s, c) == i,
{
    let w = first_index(s, c);
    assert(is_first_index(s, c, w));
    if w < i {
        assert(s[w] == c);
    } else if w > i {
        assert(s[i] == c);
    }
}

proof fn lemma_last_index(s: Seq<char>, c: char, i: int)
    requires
        is_last_index(s, c, i),
    ensures
        last_index(s, c) == i,
{
    let w = last_index(s, c);
    assert(is_last_index(s, c, w));
    if w < i {
        assert(s[i] == c);
    } else if w > i {
        assert(s[w] == c);
    }
}

/// Where `c` first occurs in `s`, or the length of `s`.
fn find_char(s: &str, c: char) -> (r: usize)
    ensures
        r == first_index(s@, c),
        is_first_index(s@, c, r as int),
{
    let n = s.unicode_len();
    let mut i: usize = 0;
    while i < n
        invariant
            n == s@.len(),
            i <= n,
            forall|k: int| 0 <= k < i ==> s@[k] != c,
        decreases n - i,
    {
        if s.get_char(i) == c {
            proof {
                lemma_first_index(s@, c, i as int);
            }
            return i;
        }
        i = i + 1;
    }
    proof {
        lemma_first_index(s@, c, n as int);
    }
    n
}

/// Where `c` last occurs in `s`, if it does.
fn rfind_char(s: &str, c: char) -> (r: Option<usize>)
    ensures
        match r {
            Some(i) => last_index(s@, c) == i && is_last_index(s@, c, i as int),
            None => last_index(s@, c) == -1,
        },
{
    let n = s.unicode_len();
    let mut i: usize = n;
    while i > 0
        invariant
            n == s@.len(),
            i <= n,
            forall|k: int| i <= k < n ==> s@[k] != c,
        decreases i,
    {
        if s.get_char(i - 1) == c {
            proof {
                lemma_last_index(s@, c, i - 1);
            }
            return Some(i - 1);
        }
        i = i - 1;
    }
    proof {
        lemma_last_index(s@, c, -1);
    }
    None
}

/// Whether `s` starts with `prefix`.
pub open spec fn starts_with(s: Seq<char>, prefix: Seq<char>) -> bool {
    prefix.len() <= s.len() && s.take(prefix.len() as int) == prefix
}

fn has_prefix(s: &str, prefix: &str) -> (r: bool)
    ensures
        r == starts_with(s@, prefix@),
{
    let n = prefix.unicode_len();
    if n > s.unicode_len() {
        return false;
    }
    crate::text::str_eq(s.substring_char(0, n), prefix)
}

/// An address to fetch: host, port and path.
pub struct UrlView {
    pub host: Seq<char>,
    pub port: u16,
    pub path: Seq<char>,
}

/// An address to fetch over HTTPS.
#[derive(Debug)]
pub struct Url {
    pub host: String,
    pub port: u16,
    pub path: String,
}

impl View for Url {
    type V = UrlView;

    open spec fn view(&self) -> UrlView {
        UrlView { host: self.host@, port: self.port, path: self.path@ }
    }
}

/// The address that `url` names: it must start with `https://`; the path
/// starts at the first `/` after it (`/` when there is none); a port follows
/// the last `:` of what comes before (443 when there is none).
pub open spec fn url_of(url: Seq<char>) -> Result<UrlView, Seq<char>> {
    if !starts_with(url, "https://"@) {
        Err("only https:// is supported: "@ + url)
    } else {
        let rest = url.skip(8);
        let slash = first_index(rest, '/');
        let authority = rest.take(slash);
        let path = if slash < rest.len() {
            rest.skip(slash)
        } else {
            "/"@
        };
        let colon = last_index(authority, ':');
        if colon >= 0 {
            match u16_of(authority.skip(colon + 1)) {
                Some(port) => Ok(UrlView { host: authority.take(colon), port, path }),
                None => Err("bad port in "@ + url),
            }
        } else {
            Ok(UrlView { host: authority, port: 443, path })
        }
    }
}

/// Reads an `https://` address.
pub fn parse_url(url: &str) -> (r: Result<Url, String>)
    ensures
        match r {
            Ok(u) => url_of(url@) == Ok::<UrlView, Seq<char>>(u@),
            Err(e) => url_of(url@) == Err::<UrlView, Seq<char>>(e@),
        },
{
    proof {
        reveal_strlit("https://");
    }
    if !has_prefix(url, "https://") {
        return Err(concat2("only https:// is supported: ", url));
    }
    let n = url.unicode_len();
    let rest = url.substring_char(8, n);
    let slash = find_char(rest, '/');
    let rn = rest.unicode_len();
    let authority = rest.substring_char(0, slash);
    let path = if slash < rn {
        owned(rest.substring_char(slash, rn))
    } else {
        owned("/")
    };
    assert(authority@ =~= rest@.take(slash as int));
    proof {
        if slash < rn {
            assert(rest@.subrange(slash as int, rn as int) =~= rest@.skip(slash as int));
        }
    }
    match rfind_char(authority, ':') {
        Some(c) => {
            let an = authority.unicode_len();
            let port_text = authority.substring_char(c + 1, an);
            assert(port_text@ =~= authority@.skip(c + 1));
            match parse_u16(port_text) {
                Some(port) => {
                    let host = owned(authority.substring_char(0, c));
                    assert(host@ =~= authority@.take(c as int));
                    Ok(Url { host, port, path })
                },
                None => Err(concat2("bad port in ", url)),
            }
        },
        None => Ok(Url { host: owned(authority), port: 443, path }),
    }
}

/// Calls `std::str::from_utf8`. Claimed, as std documents it: it succeeds
/// exactly on valid UTF-8, and the text it gives has those bytes.
#[verifier::external_body]
fn utf8_text(bytes: &[u8]) -> (r: Option<&str>)
    ensures
        r is Some == valid_utf8(bytes@),
        r matches Some(t) ==> t.spec_bytes() == bytes@,
{
    std::str::from_utf8(bytes).ok()
}

/// A character that Rust's `char::is_whitespace` accepts (Unicode `White_Space`).
pub open spec fn is_white_space(c: char) -> bool {
    ('\u{9}' <= c && c <= '\u{d}') || c == ' ' || c == '\u{85}' || c == '\u{a0}' || c == '\u{1680}'
        || ('\u{2000}' <= c && c <= '\u{200a}') || c == '\u{2028}' || c == '\u{2029}' || c
        == '\u{202f}' || c == '\u{205f}' || c == '\u{3000}'
}

pub(crate) fn white_space(c: char) -> (r: bool)
    ensures
        r == is_white_space(c),
{
    ('\u{9}' <= c && c <= '\u{d}') || c == ' ' || c == '\u{85}' || c == '\u{a0}' || c == '\u{1680}'
        || ('\u{2000}' <= c && c <= '\u{200a}') || c == '\u{2028}' || c == '\u{2029}' || c
        == '\u{202f}' || c == '\u{205f}' || c == '\u{3000}'
}

/// The text without its leading white space.
pub open spec fn trim_start(s: Seq<char>) -> Seq<char>
    decreases s.len(),
{
    if s.len() > 0 && is_white_space(s[0]) {
        trim_start(s.drop_first())
    } else {
        s
    }
}

/// The text without its trailing white space.
pub open spec fn trim_end(s: Seq<char>) -> Seq<char>
    decreases s.len(),
{
    if s.len() > 0 && is_white_space(s.last()) {
        trim_end(s.drop_last())
    } else {
        s
    }
}

/// The text without white space at either end, as `str::trim` gives it.
pub open spec fn trimmed(s: Seq<char>) -> Seq<char> {
    trim_end(trim_start(s))
}

/// The text `s` trimmed, as the bounds of its trimmed part.
fn trim_bounds(s: &str) -> (r: (usize, usize))
    ensures
        r.0 <= r.1 <= s@.len(),
        s@.subrange(r.0 as int, r.1 as int) == trimmed(s@),
{
    let n = s.unicode_len();
    let mut i: usize = 0;
    assert(s@.skip(0) =~= s@);
    while i < n && white_space(s.get_char(i))
        invariant
            n == s@.len(),
            i <= n,
            trim_start(s@) == trim_start(s@.skip(i as int)),
        decreases n - i,
    {
        assert(s@.skip(i as int).drop_first() =~= s@.skip(i + 1));
        i = i + 1;
    }
    assert(trim_start(s@) == s@.skip(i as int));
    let mut j: usize = n;
    while j > i && white_space(s.get_char(j - 1))
        invariant
            n == s@.len(),
            i <= j <= n,
            trim_end(s@.skip(i as int)) == trim_end(s@.subrange(i as int, j as int)),
        decreases j,
    {
        assert(s@.subrange(i as int, j as int).drop_last() =~= s@.subrange(i as int, j - 1));
        j = j - 1;
    }
    assert(s@.skip(i as int) =~= s@.subrange(i as int, n as int));
    (i, j)
}

/// An ASCII hexadecimal digit.
pub open spec fn is_hex_digit(c: char) -> bool {
    ('0' <= c && c <= '9') || ('a' <= c && c <= 'f') || ('A' <= c && c <= 'F')
}

/// The value of a hexadecimal digit.
pub open spec fn hex_digit_value(c: char) -> nat {
    if '0' <= c && c <= '9' {
        ((c as nat) - ('0' as nat)) as nat
    } else if 'a' <= c && c <= 'f' {
        ((c as nat) - ('a' as nat) + 10) as nat
    } else {
        ((c as nat) - ('A' as nat) + 10) as nat
    }
}

/// The value of a run of hexadecimal digits.
pub open spec fn hex_value(s: Seq<char>) -> nat
    decreases s.len(),
{
    if s.len() == 0 {
        0
    } else {
        hex_value(s.drop_last()) * 16 + hex_digit_value(s.last())
    }
}

/// The `usize` that `usize::from_str_radix(s, 16)` reads: an optional `+`,
/// then one or more hexadecimal digits, of a value that fits.
pub open spec fn usize_of_hex(s: Seq<char>) -> Option<usize> {
    let d = unsigned_digits(s);
    if d.len() > 0 && (forall|i: int| 0 <= i < d.len() ==> is_hex_digit(#[trigger] d[i]))
        && hex_value(d) <= usize::MAX {
        Some(hex_value(d) as usize)
    } else {
        None
    }
}

proof fn lemma_hex_step(s: Seq<char>, c: char)
    ensures
        hex_value(s.push(c)) == hex_value(s) * 16 + hex_digit_value(c),
{
    assert(s.push(c).drop_last() =~= s);
}

proof fn lemma_hex_prefix_bound(d: Seq<char>, k: nat)
    requires
        k <= d.len(),
        forall|i: int| 0 <= i < d.len() ==> is_hex_digit(#[trigger] d[i]),
    ensures
        hex_value(d.take(k as int)) <= hex_value(d),
    decreases d.len() - k,
{
    if k < d.len() {
        lemma_hex_prefix_bound(d, k + 1);
        lemma_hex_step(d.take(k as int), d[k as int]);
        assert(d.take(k as int).push(d[k as int]) =~= d.take(k as int + 1));
    } else {
        assert(d.take(k as int) =~= d);
    }
}

/// Reads a hexadecimal `usize` as `usize::from_str_radix(s, 16)` does, from
/// the characters `lo..hi` of `s`.
fn parse_hex(s: &str, lo: usize, hi: usize) -> (r: Option<usize>)
    requires
        lo <= hi <= s@.len(),
    ensures
        r == usize_of_hex(s@.subrange(lo as int, hi as int)),
{
    let ghost t = s@.subrange(lo as int, hi as int);
    let mut start: usize = lo;
    if lo < hi && s.get_char(lo) == '+' {
        start = lo + 1;
    }
    let ghost d = unsigned_digits(t);
    assert(d =~= s@.subrange(start as int, hi as int));
    if start >= hi {
        assert(d.len() == 0);
        return None;
    }
    let mut v: usize = 0;
    let mut i: usize = start;
    while i < hi
        invariant
            hi <= s@.len(),
            start <= i <= hi,
            start < hi,
            d == s@.subrange(start as int, hi as int),
            d == unsigned_digits(t),
            t == s@.subrange(lo as int, hi as int),
            forall|k: int| start <= k < i ==> is_hex_digit(#[trigger] s@[k]),
            v == hex_value(s@.subrange(start as int, i as int)),
        decreases hi - i,
    {
        let c = s.get_char(i);
        let digit: usize = if '0' <= c && c <= '9' {
            (c as usize) - ('0' as usize)
        } else if 'a' <= c && c <= 'f' {
            (c as usize) - ('a' as usize) + 10
        } else if 'A' <= c && c <= 'F' {
            (c as usize) - ('A' as usize) + 10
        } else {
            assert(d[i - start] == c);
            assert(!is_hex_digit(d[i - start]));
            return None;
        };
        proof {
            lemma_hex_step(s@.subrange(start as int, i as int), c);
            assert(s@.subrange(start as int, i as int).push(c) =~= s@.subrange(start as int, i + 1));
        }
        let w = match v.checked_mul(16) {
            Some(x) => x.checked_add(digit),
            None => None,
        };
        match w {
            Some(x) => {
                v = x;
            },
            None => {
                proof {
                    assert(d.take(i + 1 - start) =~= s@.subrange(start as int, i + 1));
                    if forall|k: int| 0 <= k < d.len() ==> is_hex_digit(#[trigger] d[k]) {
                        lemma_hex_prefix_bound(d, (i + 1 - start) as nat);
                    }
                }
                return None;
            },
        }
        i = i + 1;
    }
    assert(s@.subrange(start as int, hi as int) =~= d);
    assert forall|k: int| 0 <= k < d.len() implies is_hex_digit(#[trigger] d[k]) by {
        assert(d[k] == s@[start + k]);
    }
    Some(v)
}

/// The size that a chunk's header line announces: the line must be UTF-8;
/// what precedes its first `;`, trimmed, is the size in hexadecimal.
#[verifier::opaque]
pub open spec fn chunk_size(line: Seq<u8>) -> Option<usize> {
    if valid_utf8(line) {
        let chars = decode_utf8(line);
        usize_of_hex(trimmed(chars.take(first_index(chars, ';'))))
    } else {
        None
    }
}

/// Reads a chunk's header line.
fn read_chunk_size(line: &[u8]) -> (r: Option<usize>)
    ensures
        r == chunk_size(line@),
{
    reveal(chunk_size);
    match utf8_text(line) {
        None => None,
        Some(text) => {
            proof {
                broadcast use encode_utf8_decode_utf8;

                assert(decode_utf8(line@) == text@);
            }
            let semi = find_char(text, ';');
            let field = text.substring_char(0, semi);
            assert(field@ =~= text@.take(semi as int));
            let (lo, hi) = trim_bounds(field);
            parse_hex(field, lo, hi)
        },
    }
}

/// How taking a chunked body apart ends: with the body, with an error, or
/// with a slice or an addition out of range.
pub enum Dechunked {
    Done(Seq<u8>),
    Failed(Seq<char>),
    OutOfRange,
}

/// A carriage return and a line feed.
pub open spec fn crlf() -> Seq<u8> {
    seq![13u8, 10u8]
}

/// Taking the chunks of `data` apart from `pos` on, after `out` was taken
/// out: each chunk is a header line announcing its size, the bytes, and a
/// line end; a size of zero ends the body.
pub open spec fn dechunk_from(data: Seq<u8>, pos: int, out: Seq<u8>) -> Dechunked
    decreases data.len() + 3 - pos,
{
    if pos > data.len() || pos < 0 {
        Dechunked::OutOfRange
    } else {
        let rest = data.skip(pos);
        match first_occurrence(rest, crlf()) {
            None => Dechunked::Failed("malformed chunk header"@),
            Some(le) => match chunk_size(rest.take(le)) {
                None => Dechunked::Failed("malformed chunk size"@),
                Some(size) => {
                    let start = pos + le + 2;
                    if size == 0 {
                        Dechunked::Done(out)
                    } else if start + size > usize::MAX {
                        Dechunked::OutOfRange
                    } else if start + size > data.len() {
                        Dechunked::Failed("truncated chunk"@)
                    } else if data.len() + 3 - (start + size + 2) < data.len() + 3 - pos {
                        dechunk_from(
                            data,
                            start + size + 2,
                            out + data.subrange(start, start + size),
                        )
                    } else {
                        Dechunked::OutOfRange
                    }
                },
            },
        }
    }
}

/// The body that a chunked `data` carries.
pub open spec fn dechunked(data: Seq<u8>) -> Dechunked {
    dechunk_from(data, 0, Seq::empty())
}

/// Appends the bytes `start..end` of `data` to `out`.
fn append_range(out: &mut Vec<u8>, data: &[u8], start: usize, end: usize)
    requires
        start <= end <= data@.len(),
    ensures
        final(out)@ == old(out)@ + data@.subrange(start as int, end as int),
{
    let mut k: usize = start;
    while k < end
        invariant
            start <= k <= end,
            end <= data@.len(),
            out@ == old(out)@ + data@.subrange(start as int, k as int),
        decreases end - k,
    {
        out.push(data[k]);
        assert(out@ =~= old(out)@ + data@.subrange(start as int, k + 1));
        k = k + 1;
    }
}

/// Takes a chunked body apart; `None` when the chunks lead out of range,
/// where the caller must stop as for a bug.
pub fn dechunk_checked(data: &[u8]) -> (r: Option<Result<Vec<u8>, String>>)
    ensures
        match r {
            None => dechunked(data@) is OutOfRange,
            Some(Ok(body)) => dechunked(data@) == Dechunked::Done(body@),
            Some(Err(e)) => dechunked(data@) == Dechunked::Failed(e@),
        },
{
    let crlf_bytes: Vec<u8> = vec![13u8, 10u8];
    assert(crlf_bytes@ =~= crlf());
    let mut out: Vec<u8> = Vec::new();
    let mut pos: usize = 0;
    loop
        invariant
            pos <= data.len(),
            crlf_bytes@ == crlf(),
            dechunked(data@) == dechunk_from(data@, pos as int, out@),
        decreases data@.len() - pos,
    {
        let ghost rest = data@.skip(pos as int);
        let le = match find_from(data, pos, crlf_bytes.as_slice()) {
            None => {
                return Some(Err(owned("malformed chunk header")));
            },
            Some(le) => le,
        };
        proof {
            lemma_first_occurrence(rest, crlf(), le as int);
        }
        let line = vstd::slice::slice_subrange(data, pos, pos + le);
        assert(line@ =~= data@.skip(pos as int).take(le as int));
        let size = match read_chunk_size(line) {
            None => {
                return Some(Err(owned("malformed chunk size")));
            },
            Some(size) => size,
        };
        let start = pos + le + 2;
        if size == 0 {
            return Some(Ok(out));
        }
        if size > data.len() - start {
            if size > usize::MAX - start {
                return None;
            }
            return Some(Err(owned("truncated chunk")));
        }
        let end = start + size;
        append_range(&mut out, data, start, end);
        if data.len() - end < 2 {
            assert(dechunk_from(data@, end + 2, out@) is OutOfRange);
            return None;
        }
        pos = end + 2;
    }
}

/// Takes a chunked body apart, for bodies whose chunks stay in range.
pub fn dechunk(data: &[u8]) -> (r: Result<Vec<u8>, String>)
    requires
        !(dechunked(data@) is OutOfRange),
    ensures
        match r {
            Ok(body) => dechunked(data@) == Dechunked::Done(body@),
            Err(e) => dechunked(data@) == Dechunked::Failed(e@),
        },
{
    match dechunk_checked(data) {
        Some(r) => r,
        None => Err(String::new()),
    }
}

/// What `String::from_utf8_lossy` makes of the bytes.
pub uninterp spec fn utf8_lossy(bytes: Seq<u8>) -> Seq<char>;

/// Calls `String::from_utf8_lossy`. Claimed: the text is a function of the
/// bytes alone; which text is left to the name `utf8_lossy`.
#[verifier::external_body]
pub(crate) fn lossy_text(bytes: &[u8]) -> (r: String)
    ensures
        r@ == utf8_lossy(bytes@),
{
    String::from_utf8_lossy(bytes).into_owned()
}

/// The characters of a text, one by one.
fn chars_of(s: &str) -> (r: Vec<char>)
    ensures
        r@ == s@,
{
    let n = s.unicode_len();
    let mut r: Vec<char> = Vec::new();
    let mut i: usize = 0;
    while i < n
        invariant
            n == s@.len(),
            i <= n,
            r@ == s@.take(i as int),
        decreases n - i,
    {
        r.push(s.get_char(i));
        i = i + 1;
        assert(r@ =~= s@.take(i as int));
    }
    assert(s@.take(n as int) =~= s@);
    r
}

/// A line break (`\r\n`) starts at `i` in `s`.
pub open spec fn is_break_at(s: Seq<char>, i: int) -> bool {
    0 <= i && i + 1 < s.len() && s[i] == '\r' && s[i + 1] == '\n'
}

/// `i` is where the first line break starts in `s`, or the length of `s` when none does.
pub open spec fn is_first_break(s: Seq<char>, i: int) -> bool {
    &&& 0 <= i <= s.len()
    &&& forall|j: int| 0 <= j < i ==> !is_break_at(s, j)
    &&& (i < s.len() ==> is_break_at(s, i))
    &&& (i == s.len() ==> forall|j: int| !is_break_at(s, j))
}

/// Where the first line break starts in `s`, or the length of `s` when none does.
pub open spec fn first_break(s: Seq<char>) -> int {
    choose|i: int| is_first_break(s, i)
}

/// The lines of `s`, as `str::split("\r\n")` gives them.
pub open spec fn lines_of(s: Seq<char>) -> Seq<Seq<char>>
    decreases s.len(),
{
    let i = first_break(s);
    if 0 <= i && i + 2 <= s.len() {
        seq![s.take(i)] + lines_of(s.skip(i + 2))
    } else {
        seq![s]
    }
}

/// Finds the first line break in `s` from `from` on, counted from `from`.
fn find_break(s: &Vec<char>, from: usize) -> (r: usize)
    requires
        from <= s@.len(),
    ensures
        is_first_break(s@.skip(from as int), r as int),
        first_break(s@.skip(from as int)) == r,
{
    let ghost t = s@.skip(from as int);
    let n = s.len();
    let mut i: usize = from;
    while n - i > 1
        invariant
            t == s@.skip(from as int),
            n == s@.len(),
            from <= i <= n,
            forall|j: int| 0 <= j < i - from ==> !is_break_at(t, j),
        decreases n - i,
    {
        if s[i] == '\r' && s[i + 1] == '\n' {
            assert(is_break_at(t, i - from));
            proof {
                let w = first_break(t);
                assert(is_first_break(t, i - from));
                assert(is_first_break(t, w));
                if w < i - from {
                    assert(!is_break_at(t, w));
                } else if w > i - from {
                    assert(!is_break_at(t, i - from));
                }
            }
            return i - from;
        }
        assert(!is_break_at(t, i - from));
        i = i + 1;
    }
    assert(forall|j: int| !is_break_at(t, j)) by {
        assert forall|j: int| !is_break_at(t, j) by {
            if 0 <= j < i - from {
            }
        }
    }
    proof {
        let w = first_break(t);
        assert(is_first_break(t, t.len() as int));
        assert(is_first_break(t, w));
    }
    n - from
}

/// The text in ASCII lower case.
pub open spec fn ascii_lower(s: Seq<char>) -> Seq<char> {
    s.map_values(|c: char| if 'A' <= c && c <= 'Z' {
        ((c as u32) + 32) as char
    } else {
        c
    })
}

/// Whether `s` holds `word`.
pub open spec fn has_word(s: Seq<char>, word: Seq<char>) -> bool {
    exists|i: int| 0 <= i && i + word.len() <= s.len() && #[trigger] s.subrange(i, i + word.len()) == word
}

/// What the headers said so far: where to go instead, and whether the body is chunked.
pub struct HeadFields {
    pub location: Option<Seq<char>>,
    pub chunked: bool,
}

/// The header fields after the header line `line`: a `Location` header
/// (named in any case, trimmed) gives the address, a `Transfer-Encoding`
/// header says whether the body is chunked; later headers win.
pub open spec fn header_step(acc: HeadFields, line: Seq<char>) -> HeadFields {
    let c = first_index(line, ':');
    if c < line.len() {
        let k = ascii_lower(trimmed(line.take(c)));
        let v = line.skip(c + 1);
        if k == "location"@ {
            HeadFields { location: Some(trimmed(v)), ..acc }
        } else if k == "transfer-encoding"@ {
            HeadFields { chunked: has_word(ascii_lower(v), "chunked"@), ..acc }
        } else {
            acc
        }
    } else {
        acc
    }
}

/// The header fields after the header lines `ls`, in order.
pub open spec fn fields_from(ls: Seq<Seq<char>>, acc: HeadFields) -> HeadFields
    decreases ls.len(),
{
    if ls.len() == 0 {
        acc
    } else {
        fields_from(ls.drop_first(), header_step(acc, ls[0]))
    }
}

/// How many characters the text starts with that are not white space.
pub open spec fn token_len(s: Seq<char>) -> nat
    decreases s.len(),
{
    if s.len() > 0 && !is_white_space(s[0]) {
        1 + token_len(s.drop_first())
    } else {
        0
    }
}

/// The second word of a line, as `split_whitespace().nth(1)` gives it.
pub open spec fn second_word(s: Seq<char>) -> Option<Seq<char>> {
    let t1 = trim_start(s);
    let t2 = trim_start(t1.skip(token_len(t1) as int));
    if t1.len() > 0 && t2.len() > 0 {
        Some(t2.take(token_len(t2) as int))
    } else {
        None
    }
}

/// What a response says: its status, where it redirects, and its body.
pub struct ResponseView {
    pub status: u16,
    pub location: Option<Seq<char>>,
    pub body: Seq<u8>,
}

/// A response.
#[derive(Debug)]
pub struct Response {
    pub status: u16,
    pub location: Option<String>,
    pub body: Vec<u8>,
}

impl View for Response {
    type V = ResponseView;

    open spec fn view(&self) -> ResponseView {
        ResponseView {
            status: self.status,
            location: match self.location {
                Some(l) => Some(l@),
                None => None,
            },
            body: self.body@,
        }
    }
}

/// How reading a response ends.
pub enum ResponseRead {
    Read(ResponseView),
    Failed(Seq<char>),
    OutOfRange,
}

/// The end of the head: an empty line.
pub open spec fn head_end() -> Seq<u8> {
    seq![13u8, 10u8, 13u8, 10u8]
}

/// What the raw bytes of a response say: the head ends at the first empty
/// line; its text (read leniently as UTF-8) starts with the status line,
/// whose second word is the status; the header lines follow; the body is the
/// rest, taken apart when it is chunked.
pub open spec fn response_of(raw: Seq<u8>) -> ResponseRead {
    match first_occurrence(raw, head_end()) {
        None => ResponseRead::Failed("malformed HTTP response"@),
        Some(h) => {
            let ls = lines_of(utf8_lossy(raw.take(h)));
            match second_word(ls[0]) {
                None => ResponseRead::Failed("malformed status line"@),
                Some(word) => match u16_of(word) {
                    None => ResponseRead::Failed("malformed status line"@),
                    Some(status) => {
                        let fields = fields_from(
                            ls.drop_first(),
                            HeadFields { location: None, chunked: false },
                        );
                        let rest = raw.skip(h + 4);
                        if fields.chunked {
                            match dechunked(rest) {
                                Dechunked::Done(body) => ResponseRead::Read(
                                    ResponseView { status, location: fields.location, body },
                                ),
                                Dechunked::Failed(e) => ResponseRead::Failed(e),
                                Dechunked::OutOfRange => ResponseRead::OutOfRange,
                            }
                        } else {
                            ResponseRead::Read(
                                ResponseView { status, location: fields.location, body: rest },
                            )
                        }
                    },
                },
            }
        },
    }
}

/// The second word of the characters `lo..hi` of `s`, as its bounds.
fn second_word_bounds(s: &Vec<char>, lo: usize, hi: usize) -> (r: Option<(usize, usize)>)
    requires
        lo <= hi <= s@.len(),
    ensures
        match r {
            Some((a, b)) => a <= b <= hi && second_word(s@.subrange(lo as int, hi as int)) == Some(
                s@.subrange(a as int, b as int),
            ),
            None => second_word(s@.subrange(lo as int, hi as int)) is None,
        },
{
    let ghost w = s@.subrange(lo as int, hi as int);
    let i = skip_white(s, lo, hi);
    let j = skip_word(s, i, hi);
    let k = skip_white(s, j, hi);
    let m = skip_word(s, k, hi);
    assert(trim_start(w) == s@.subrange(i as int, hi as int));
    assert(s@.subrange(i as int, hi as int).skip(token_len(s@.subrange(i as int, hi as int)) as int)
        =~= s@.subrange(j as int, hi as int));
    assert(trim_start(s@.subrange(j as int, hi as int)) == s@.subrange(k as int, hi as int));
    assert(s@.subrange(k as int, hi as int).take(token_len(s@.subrange(k as int, hi as int)) as int)
        =~= s@.subrange(k as int, m as int));
    if i < hi && k < hi {
        Some((k, m))
    } else {
        None
    }
}

/// Skips white space in `s` from `from` to at most `hi`.
fn skip_white(s: &Vec<char>, from: usize, hi: usize) -> (r: usize)
    requires
        from <= hi <= s@.len(),
    ensures
        from <= r <= hi,
        trim_start(s@.subrange(from as int, hi as int)) == s@.subrange(r as int, hi as int),
        r < hi ==> !is_white_space(s@[r as int]),
{
    let mut i = from;
    while i < hi && white_space(s[i])
        invariant
            from <= i <= hi,
            hi <= s@.len(),
            trim_start(s@.subrange(from as int, hi as int)) == trim_start(s@.subrange(i as int, hi as int)),
        decreases hi - i,
    {
        assert(s@.subrange(i as int, hi as int).drop_first() =~= s@.subrange(i + 1, hi as int));
        i = i + 1;
    }
    i
}

/// Skips characters other than white space in `s` from `from` to at most `hi`.
fn skip_word(s: &Vec<char>, from: usize, hi: usize) -> (r: usize)
    requires
        from <= hi <= s@.len(),
    ensures
        from <= r <= hi,
        token_len(s@.subrange(from as int, hi as int)) == r - from,
{
    let mut i = from;
    while i < hi && !white_space(s[i])
        invariant
            from <= i <= hi,
            hi <= s@.len(),
            token_len(s@.subrange(from as int, hi as int)) == (i - from) + token_len(
                s@.subrange(i as int, hi as int),
            ),
        decreases hi - i,
    {
        assert(s@.subrange(i as int, hi as int).drop_first() =~= s@.subrange(i + 1, hi as int));
        i = i + 1;
    }
    i
}

/// The text in ASCII lower case, character by character.
fn lower_chars(s: &str) -> (r: Vec<char>)
    ensures
        r@ == ascii_lower(s@),
{
    let n = s.unicode_len();
    let mut r: Vec<char> = Vec::new();
    let mut i: usize = 0;
    while i < n
        invariant
            n == s@.len(),
            i <= n,
            r@ == ascii_lower(s@.take(i as int)),
        decreases n - i,
    {
        let c = s.get_char(i);
        let l = if 'A' <= c && c <= 'Z' {
            ((c as u8) + 32) as char
        } else {
            c
        };
        proof {
            if 'A' <= c && c <= 'Z' {
                assert((c as u8) as int == c as int);
                assert(((c as u32) + 32) as char == l);
            }
        }
        r.push(l);
        i = i + 1;
        assert(r@ =~= ascii_lower(s@.take(i as int)));
    }
    assert(s@.take(n as int) =~= s@);
    r
}

/// Whether the text, in ASCII lower case, is `word`.
fn lower_eq(s: &str, word: &str) -> (r: bool)
    ensures
        r == (ascii_lower(s@) == word@),
{
    let l = lower_chars(s);
    let n = word.unicode_len();
    if l.len() != n {
        assert(ascii_lower(s@).len() != word@.len());
        return false;
    }
    let mut i: usize = 0;
    while i < n
        invariant
            n == word@.len(),
            n == l@.len(),
            l@ == ascii_lower(s@),
            i <= n,
            forall|k: int| 0 <= k < i ==> l@[k] == word@[k],
        decreases n - i,
    {
        if l[i] != word.get_char(i) {
            assert(ascii_lower(s@)[i as int] != word@[i as int]);
            return false;
        }
        i = i + 1;
    }
    assert(l@ =~= word@);
    true
}

/// Whether the text, in ASCII lower case, holds `word`.
fn lower_has(s: &str, word: &str) -> (r: bool)
    ensures
        r == has_word(ascii_lower(s@), word@),
{
    let l = lower_chars(s);
    let w = chars_of(word);
    let n = l.len();
    let m = w.len();
    if m > n {
        return false;
    }
    let mut i: usize = 0;
    while i <= n - m
        invariant
            n == l@.len(),
            l@ == ascii_lower(s@),
            m == w@.len(),
            w@ == word@,
            m <= n,
            i <= n - m + 1,
            forall|j: int| 0 <= j < i ==> #[trigger] l@.subrange(j, j + m) != w@,
        decreases n - m + 1 - i,
    {
        let mut k: usize = 0;
        let mut same = true;
        while k < m
            invariant
                n == l@.len(),
                m == w@.len(),
                i + m <= n,
                k <= m,
                same == forall|q: int| 0 <= q < k ==> l@[i + q] == w@[q],
            decreases m - k,
        {
            if l[i + k] != w[k] {
                same = false;
            }
            k = k + 1;
        }
        if same {
            assert(l@.subrange(i as int, i + m) =~= w@);
            assert(ascii_lower(s@).subrange(i as int, i + word@.len()) == word@);
            return true;
        }
        assert(l@.subrange(i as int, i + m) != w@) by {
            if l@.subrange(i as int, i + m) == w@ {
                assert forall|q: int| 0 <= q < m implies l@[i + q] == w@[q] by {
                    assert(l@.subrange(i as int, i + m)[q] == l@[i + q]);
                }
            }
        }
        i = i + 1;
    }
    false
}

/// The header fields that a pair of an address and a flag hold.
pub open spec fn fields_view(acc: (Option<String>, bool)) -> HeadFields {
    HeadFields {
        location: match acc.0 {
            Some(l) => Some(l@),
            None => None,
        },
        chunked: acc.1,
    }
}

/// The header fields after the header line `line`.
fn header_line(acc: (Option<String>, bool), line: &str) -> (r: (Option<String>, bool))
    ensures
        ({
            let before = HeadFields {
                location: match acc.0 {
                    Some(l) => Some(l@),
                    None => None,
                },
                chunked: acc.1,
            };
            let after = header_step(before, line@);
            &&& after.chunked == r.1
            &&& after.location == match r.0 {
                Some(l) => Some(l@),
                None => None,
            }
        }),
{
    let n = line.unicode_len();
    let c = find_char(line, ':');
    if c >= n {
        return acc;
    }
    let key = line.substring_char(0, c);
    let (klo, khi) = trim_bounds(key);
    let key = key.substring_char(klo, khi);
    let value = line.substring_char(c + 1, n);
    assert(value@ =~= line@.skip(c + 1));
    proof {
        reveal_strlit("location");
        reveal_strlit("transfer-encoding");
        reveal_strlit("chunked");
    }
    if lower_eq(key, "location") {
        let (vlo, vhi) = trim_bounds(value);
        (Some(owned(value.substring_char(vlo, vhi))), acc.1)
    } else if lower_eq(key, "transfer-encoding") {
        (acc.0, lower_has(value, "chunked"))
    } else {
        acc
    }
}

/// Reads the raw bytes of a response; `None` when its chunks lead out of
/// range, where the caller must stop as for a bug.
pub fn parse_response_checked(raw: &[u8]) -> (r: Option<Result<Response, String>>)
    ensures
        match r {
            None => response_of(raw@) is OutOfRange,
            Some(Ok(res)) => response_of(raw@) == ResponseRead::Read(res@),
            Some(Err(e)) => response_of(raw@) == ResponseRead::Failed(e@),
        },
{
    let end_bytes: Vec<u8> = vec![13u8, 10u8, 13u8, 10u8];
    assert(end_bytes@ =~= head_end());
    let h = match find(raw, end_bytes.as_slice()) {
        None => {
            return Some(Err(owned("malformed HTTP response")));
        },
        Some(h) => h,
    };
    proof {
        lemma_first_occurrence(raw@, head_end(), h as int);
    }
    let head_bytes = vstd::slice::slice_subrange(raw, 0, h);
    assert(head_bytes@ =~= raw@.take(h as int));
    let head = lossy_text(head_bytes);
    let text = head.as_str();
    let chars = chars_of(text);
    let ghost ls = lines_of(text@);
    let b0 = find_break(&chars, 0);
    assert(chars@.skip(0) =~= chars@);
    assert(ls[0] =~= chars@.subrange(0, b0 as int));
    let status = match second_word_bounds(&chars, 0, b0) {
        None => {
            return Some(Err(owned("malformed status line")));
        },
        Some((a, b)) => {
            let word = text.substring_char(a, b);
            match parse_u16(word) {
                None => {
                    return Some(Err(owned("malformed status line")));
                },
                Some(status) => status,
            }
        },
    };
    proof {
        lemma_first_occurrence(raw@, head_end(), h as int);
        assert(head_end().len() == 4);
    }
    let raw_len = raw.len();
    let body_bytes = vstd::slice::slice_subrange(raw, h + 4, raw_len);
    assert(body_bytes@ =~= raw@.skip(h + 4));
    let mut acc: (Option<String>, bool) = (None, false);
    let n = chars.len();
    let ghost init = HeadFields { location: None, chunked: false };
    if b0 < n {
        let mut pos: usize = b0 + 2;
        let mut done = false;
        assert(ls.drop_first() =~= lines_of(text@.skip(pos as int)));
        while !done
            invariant
                pos <= n,
                n == chars@.len(),
                chars@ == text@,
                !done ==> fields_from(ls.drop_first(), init) == fields_from(
                    lines_of(text@.skip(pos as int)),
                    HeadFields {
                        location: match acc.0 {
                            Some(l) => Some(l@),
                            None => None,
                        },
                        chunked: acc.1,
                    },
                ),
                done ==> fields_from(ls.drop_first(), init) == (HeadFields {
                    location: match acc.0 {
                        Some(l) => Some(l@),
                        None => None,
                    },
                    chunked: acc.1,
                }),
            decreases n - pos + (if done {
                0int
            } else {
                1int
            }),
        {
            let b = find_break(&chars, pos);
            let ghost rest = text@.skip(pos as int);
            let line = text.substring_char(pos, pos + b);
            assert(line@ =~= rest.take(b as int));
            let ghost before = fields_view(acc);
            acc = header_line(acc, line);
            assert(fields_view(acc) == header_step(before, line@));
            if pos + b < n {
                assert(is_break_at(rest, b as int));
                assert(lines_of(rest) == seq![rest.take(b as int)] + lines_of(rest.skip(b + 2)));
                assert((seq![rest.take(b as int)] + lines_of(rest.skip(b + 2))).drop_first() =~= lines_of(
                    rest.skip(b + 2),
                ));
                assert(rest.skip(b + 2) =~= text@.skip(pos + b + 2));
                pos = pos + b + 2;
            } else {
                assert(lines_of(rest) == seq![rest]);
                assert(rest.take(b as int) =~= rest);
                assert(seq![rest].drop_first() =~= Seq::<Seq<char>>::empty());
                assert(fields_from(Seq::empty(), header_step(before, rest)) == header_step(before, rest));
                assert(fields_from(seq![rest], before) == header_step(before, rest));
                done = true;
            }
        }
    } else {
        assert(ls.drop_first() =~= Seq::<Seq<char>>::empty());
    }
    let (location, chunked) = acc;
    if chunked {
        match dechunk_checked(body_bytes) {
            None => None,
            Some(Err(e)) => Some(Err(e)),
            Some(Ok(body)) => Some(Ok(Response { status, location, body })),
        }
    } else {
        let body = vstd::slice::slice_to_vec(body_bytes);
        Some(Ok(Response { status, location, body }))
    }
}

/// Reads the raw bytes of a response whose chunks stay in range.
pub fn parse_response(raw: &[u8]) -> (r: Result<Response, String>)
    requires
        !(response_of(raw@) is OutOfRange),
    ensures
        match r {
            Ok(res) => response_of(raw@) == ResponseRead::Read(res@),
            Err(e) => response_of(raw@) == ResponseRead::Failed(e@),
        },
{
    match parse_response_checked(raw) {
        Some(r) => r,
        None => Err(String::new()),
    }
}

/// The request for the address `u`.
pub open spec fn request_text(u: UrlView) -> Seq<char> {
    "GET "@ + u.path + " HTTP/1.1\r\nHost: "@ + u.host
        + "\r\nUser-Agent: balatro-vs\r\nAccept: */*\r\nConnection: close\r\n\r\n"@
}

/// The request that fetches `url`.
pub fn request_for(url: &Url) -> (r: String)
    ensures
        r@ == request_text(url@),
{
    let mut r = concat3("GET ", url.path.as_str(), " HTTP/1.1\r\nHost: ");
    r.append(url.host.as_str());
    r.append("\r\nUser-Agent: balatro-vs\r\nAccept: */*\r\nConnection: close\r\n\r\n");
    r
}

/// The most requests one fetch makes: the first and five redirects.
pub open spec fn max_requests() -> nat {
    6
}

/// A fetch under way: the address asked for, the address now fetched, and
/// how many requests were made.
pub struct HttpGetView {
    pub url: Seq<char>,
    pub current: Seq<char>,
    pub requests: nat,
}

/// A fetch of an address, following redirects.
#[derive(Debug)]
pub struct HttpGet {
    url: String,
    current: String,
    requests: usize,
}

impl View for HttpGet {
    type V = HttpGetView;

    closed spec fn view(&self) -> HttpGetView {
        HttpGetView { url: self.url@, current: self.current@, requests: self.requests as nat }
    }
}

/// What to do next in a fetch.
#[derive(Debug)]
pub enum GetStep {
    /// Send the request for this address and hand back the response.
    Request(Url),
    /// The fetch is done: the body.
    Done(Vec<u8>),
    /// The fetch failed.
    Failed(String),
}

/// The value of a step.
pub enum GetStepView {
    Request(UrlView),
    Done(Seq<u8>),
    Failed(Seq<char>),
}

impl View for GetStep {
    type V = GetStepView;

    open spec fn view(&self) -> GetStepView {
        match self {
            GetStep::Request(u) => GetStepView::Request(u@),
            GetStep::Done(b) => GetStepView::Done(b@),
            GetStep::Failed(e) => GetStepView::Failed(e@),
        }
    }
}

/// A status that redirects.
pub open spec fn is_redirect(status: u16) -> bool {
    status == 301 || status == 302 || status == 303 || status == 307 || status == 308
}

/// At most the first 200 bytes.
pub open spec fn snippet_of(body: Seq<u8>) -> Seq<u8> {
    if body.len() <= 200 {
        body
    } else {
        body.take(200)
    }
}

/// The error for a status that is no success and no redirect.
pub open spec fn status_error(status: u16, current: Seq<char>, body: Seq<u8>) -> Seq<char> {
    "HTTP "@ + decimal_text(status as nat) + " for "@ + current + ": "@ + utf8_lossy(snippet_of(body))
}

/// The fetch of `url` as it starts: its first request, unless the address is unreadable.
pub open spec fn get_started(url: Seq<char>) -> (HttpGetView, GetStepView) {
    match url_of(url) {
        Err(e) => (HttpGetView { url, current: url, requests: 0 }, GetStepView::Failed(e)),
        Ok(u) => (HttpGetView { url, current: url, requests: 1 }, GetStepView::Request(u)),
    }
}

/// The fetch `g` after the response `res` to its last request: a success
/// ends it with the body; a redirect is followed to its `Location`, unless
/// it has none, six requests were made already, or the address is
/// unreadable; any other status fails.
pub open spec fn get_answered(g: HttpGetView, res: ResponseView) -> (HttpGetView, GetStepView) {
    if 200 <= res.status <= 299 {
        (g, GetStepView::Done(res.body))
    } else if is_redirect(res.status) {
        match res.location {
            None => (g, GetStepView::Failed("redirect without Location from "@ + g.current)),
            Some(loc) => {
                let moved = HttpGetView { current: loc, ..g };
                if g.requests >= max_requests() {
                    (moved, GetStepView::Failed("too many redirects from "@ + g.url))
                } else {
                    match url_of(loc) {
                        Err(e) => (moved, GetStepView::Failed(e)),
                        Ok(u) => (
                            HttpGetView { requests: g.requests + 1, ..moved },
                            GetStepView::Request(u),
                        ),
                    }
                }
            },
        }
    } else {
        (g, GetStepView::Failed(status_error(res.status, g.current, res.body)))
    }
}

impl HttpGet {
    /// Starts fetching `url`.
    pub fn start(url: &str) -> (r: (HttpGet, GetStep))
        ensures
            (r.0@, r.1@) == get_started(url@),
            r.0@.requests <= max_requests(),
    {
        let g = HttpGet { url: owned(url), current: owned(url), requests: 0 };
        match parse_url(url) {
            Err(e) => (g, GetStep::Failed(e)),
            Ok(u) => (HttpGet { requests: 1, ..g }, GetStep::Request(u)),
        }
    }

    /// How many requests this fetch made.
    pub fn requests(&self) -> (r: usize)
        ensures
            r == self@.requests,
    {
        self.requests
    }

    /// The response `res` to the last request arrived.
    pub fn answer(&mut self, res: Response) -> (r: GetStep)
        requires
            old(self)@.requests <= max_requests(),
        ensures
            (final(self)@, r@) == get_answered(old(self)@, res@),
            final(self)@.requests <= max_requests(),
    {
        if 200 <= res.status && res.status <= 299 {
            return GetStep::Done(res.body);
        }
        if res.status == 301 || res.status == 302 || res.status == 303 || res.status == 307
            || res.status == 308 {
            match res.location {
                None => {
                    return GetStep::Failed(
                        concat2("redirect without Location from ", self.current.as_str()),
                    );
                },
                Some(loc) => {
                    self.current = loc;
                    if self.requests >= 6 {
                        return GetStep::Failed(concat2("too many redirects from ", self.url.as_str()));
                    }
                    return match parse_url(self.current.as_str()) {
                        Err(e) => GetStep::Failed(e),
                        Ok(u) => {
                            self.requests = self.requests + 1;
                            GetStep::Request(u)
                        },
                    };
                },
            }
        }
        let n = res.body.len();
        let cut = if n <= 200 {
            n
        } else {
            200
        };
        let snippet = vstd::slice::slice_subrange(res.body.as_slice(), 0, cut);
        assert(snippet@ =~= snippet_of(res.body@));
        let mut e = concat2("HTTP ", decimal(res.status as u64).as_str());
        e.append(" for ");
        e.append(self.current.as_str());
        e.append(": ");
        e.append(lossy_text(snippet).as_str());
        GetStep::Failed(e)
    }

    /// The raw bytes of the response to the last request arrived; `None`
    /// when its chunks lead out of range, where the caller must stop as for a bug.
    pub fn on_response(&mut self, raw: &[u8]) -> (r: Option<GetStep>)
        requires
            old(self)@.requests <= max_requests(),
        ensures
            final(self)@.requests <= max_requests(),
            match response_of(raw@) {
                ResponseRead::OutOfRange => r is None && final(self)@ == old(self)@,
                ResponseRead::Failed(e) => {
                    &&& final(self)@ == old(self)@
                    &&& r matches Some(step) && step@ == GetStepView::Failed(e)
                },
                ResponseRead::Read(res) => r matches Some(step) && (final(self)@, step@) == get_answered(
                    old(self)@,
                    res,
                ),
            },
    {
        match parse_response_checked(raw) {
            None => None,
            Some(Err(e)) => Some(GetStep::Failed(e)),
            Some(Ok(res)) => Some(self.answer(res)),
        }
    }
}

/// The path of every address read starts with `/`.
pub proof fn lemma_url_path_starts_with_slash(url: Seq<char>)
    requires
        url_of(url) is Ok,
    ensures
        url_of(url)->Ok_0.path.len() > 0,
        url_of(url)->Ok_0.path[0] == '/',
{
    let rest = url.skip(8);
    let slash = first_index(rest, '/');
    assert(is_first_index(rest, '/', slash)) by {
        let n = rest.len();
        if exists|i: int| 0 <= i < n && rest[i] == '/' {
            let j = choose|i: int| 0 <= i < n && rest[i] == '/';
            lemma_first_char_exists(rest, '/', j);
        } else {
            assert(is_first_index(rest, '/', n as int));
        }
    }
    reveal_strlit("/");
}

/// Where `c` occurs, a first place it occurs exists.
proof fn lemma_first_char_exists(s: Seq<char>, c: char, w: int)
    requires
        0 <= w < s.len(),
        s[w] == c,
    ensures
        exists|i: int| is_first_index(s, c, i),
    decreases w,
{
    if exists|k: int| 0 <= k < w && s[k] == c {
        let k = choose|k: int| 0 <= k < w && s[k] == c;
        lemma_first_char_exists(s, c, k);
    } else {
        assert(is_first_index(s, c, w));
    }
}

/// The lowercase hexadecimal text of `n`, without leading zeros.
pub open spec fn hex_text(n: nat) -> Seq<char>
    decreases n,
{
    if n < 16 {
        seq![crate::peer::hex_char(n)]
    } else {
        hex_text(n / 16).push(crate::peer::hex_char(n % 16))
    }
}

/// A body sent as one chunk, followed by the closing empty chunk.
pub open spec fn one_chunk(body: Seq<u8>) -> Seq<u8> {
    encode_utf8(hex_text(body.len())) + crlf() + body + crlf() + seq![48u8] + crlf() + crlf()
}

proof fn lemma_hex_char(d: nat)
    requires
        d < 16,
    ensures
        is_hex_digit(crate::peer::hex_char(d)),
        hex_digit_value(crate::peer::hex_char(d)) == d,
        !is_white_space(crate::peer::hex_char(d)),
        crate::peer::hex_char(d) != ';',
        crate::peer::hex_char(d) != '+',
        (crate::peer::hex_char(d) as nat) < 128,
        (crate::peer::hex_char(d) as u8) != 13u8,
{
}

proof fn lemma_hex_text(n: nat)
    ensures
        hex_text(n).len() > 0,
        forall|i: int| 0 <= i < hex_text(n).len() ==> is_hex_digit(#[trigger] hex_text(n)[i]),
        forall|i: int| 0 <= i < hex_text(n).len() ==> !is_white_space(#[trigger] hex_text(n)[i]),
        forall|i: int| 0 <= i < hex_text(n).len() ==> #[trigger] hex_text(n)[i] != ';',
        forall|i: int| 0 <= i < hex_text(n).len() ==> (#[trigger] hex_text(n)[i] as u8) != 13u8,
        is_ascii_chars(hex_text(n)),
        hex_text(n)[0] != '+',
        hex_value(hex_text(n)) == n,
    decreases n,
{
    if n < 16 {
        lemma_hex_char(n);
        lemma_hex_step(Seq::<char>::empty(), crate::peer::hex_char(n));
        assert(Seq::<char>::empty().push(crate::peer::hex_char(n)) =~= hex_text(n));
    } else {
        lemma_hex_text(n / 16);
        lemma_hex_char(n % 16);
        let t = hex_text(n / 16);
        assert(hex_text(n).drop_last() =~= t);
        lemma_hex_step(t, crate::peer::hex_char(n % 16));
        assert forall|i: int| 0 <= i < hex_text(n).len() implies is_hex_digit(#[trigger] hex_text(n)[i])
            && !is_white_space(hex_text(n)[i]) && hex_text(n)[i] != ';' && (hex_text(n)[i] as u8)
            != 13u8 && '\0' <= hex_text(n)[i] <= '\u{7f}' by {
            if i < t.len() {
                assert(hex_text(n)[i] == t[i]);
            }
        }
        assert(hex_text(n)[0] == t[0]);
    }
}

/// A text without white space at either end is its own trimming.
proof fn lemma_trimmed_plain(s: Seq<char>)
    requires
        forall|i: int| 0 <= i < s.len() ==> !is_white_space(#[trigger] s[i]),
    ensures
        trimmed(s) == s,
{
}

/// The chunk size line of one hexadecimal text reads as its value.
proof fn lemma_chunk_size_hex(n: nat)
    requires
        n <= usize::MAX,
    ensures
        chunk_size(encode_utf8(hex_text(n))) == Some(n as usize),
{
    reveal(chunk_size);
    let t = hex_text(n);
    lemma_hex_text(n);
    broadcast use encode_utf8_valid_utf8, encode_utf8_decode_utf8;

    assert(decode_utf8(encode_utf8(t)) == t);
    assert(is_first_index(t, ';', t.len() as int));
    lemma_first_index(t, ';', t.len() as int);
    assert(t.take(t.len() as int) =~= t);
    lemma_trimmed_plain(t);
    assert(unsigned_digits(t) == t);
}

/// The first line break of an ASCII text followed by `\r\n` is where the text ends.
proof fn lemma_first_crlf(head: Seq<char>, rest: Seq<u8>)
    requires
        is_ascii_chars(head),
        forall|i: int| 0 <= i < head.len() ==> (#[trigger] head[i] as u8) != 13u8,
    ensures
        first_occurrence(encode_utf8(head) + crlf() + rest, crlf()) == Some(head.len() as int),
{
    reveal(first_occurrence);
    broadcast use is_ascii_chars_encode_utf8;

    let b = encode_utf8(head);
    let all = b + crlf() + rest;
    assert(b.len() == head.len());
    assert(all.subrange(b.len() as int, b.len() as int + 2) =~= crlf());
    assert forall|j: int| 0 <= j < b.len() implies !occurs_at(all, crlf(), j) by {
        assert(all[j] == b[j]);
        assert(b[j] == head[j] as u8);
        if occurs_at(all, crlf(), j) {
            assert(all.subrange(j, j + 2)[0] == all[j]);
        }
    }
    assert(is_first_occurrence(all, crlf(), b.len() as int));
    let w = choose|w: int| is_first_occurrence(all, crlf(), w);
    if w < b.len() {
        assert(!occurs_at(all, crlf(), w));
    } else if w > b.len() {
        assert(!occurs_at(all, crlf(), b.len() as int));
    }
}

/// A body sent as one chunk comes back whole.
pub proof fn lemma_one_chunk_round_trip(body: Seq<u8>)
    requires
        body.len() > 0,
        one_chunk(body).len() <= usize::MAX,
    ensures
        dechunked(one_chunk(body)) == Dechunked::Done(body),
{
    let n = body.len();
    let t = hex_text(n);
    lemma_hex_text(n);
    broadcast use is_ascii_chars_encode_utf8;

    let h = encode_utf8(t);
    let data = one_chunk(body);
    let tail = body + crlf() + seq![48u8] + crlf() + crlf();
    assert(data =~= h + crlf() + tail);
    assert(data.skip(0) =~= data);
    lemma_first_crlf(t, tail);
    assert(data.take(h.len() as int) =~= h);
    lemma_chunk_size_hex(n);
    let start: int = h.len() as int + 2;
    assert(data.subrange(start, start + n) =~= body);
    let pos2: int = start + n + 2;
    let rest2 = data.skip(pos2);
    assert(rest2 =~= encode_utf8(seq!['0']) + crlf() + crlf()) by {
        assert(encode_utf8(seq!['0']) =~= seq![48u8]) by {
            assert(is_ascii_chars(seq!['0']));
        }
    }
    assert(hex_text(0) =~= seq!['0']) by {
        reveal_with_fuel(hex_text, 1);
    }
    lemma_hex_text(0);
    lemma_first_crlf(seq!['0'], crlf());
    assert(rest2.take(1) =~= encode_utf8(hex_text(0)));
    lemma_chunk_size_hex(0);
    assert(first_occurrence(rest2, crlf()) == Some(1int));
    assert(chunk_size(rest2.take(1)) == Some(0usize));
    assert(pos2 <= data.len());
    assert(dechunk_from(data, pos2, body) == Dechunked::Done(body));
    assert(first_occurrence(data.skip(0), crlf()) == Some(h.len() as int));
    assert(chunk_size(data.skip(0).take(h.len() as int)) == Some(n as usize));
    assert(Seq::<u8>::empty() + data.subrange(start, start + n) =~= body);
    assert(dechunk_from(data, 0, Seq::empty()) == dechunk_from(data, pos2, body));
}

/// A response with a redirect status (301, 302, 303, 307 or 308) that
/// carries a readable `Location`, before six requests were made, is
/// followed: the next request is for that address, which becomes the one
/// fetched, and one more request is counted.
pub proof fn lemma_redirects_are_followed(g: HttpGetView, res: ResponseView)
    requires
        res.status == 301 || res.status == 302 || res.status == 303 || res.status == 307
            || res.status == 308,
        res.location is Some,
        url_of(res.location.unwrap()) is Ok,
        g.requests < 6,
    ensures
        get_answered(g, res) == (
            HttpGetView { current: res.location.unwrap(), requests: g.requests + 1, ..g },
            GetStepView::Request(url_of(res.location.unwrap())->Ok_0),
        ),
{
}

/// A response that is no success (2xx) and has no redirect status fails the
/// fetch, which stays where it was.
pub proof fn lemma_other_statuses_fail(g: HttpGetView, res: ResponseView)
    requires
        !(200 <= res.status <= 299),
        res.status != 301 && res.status != 302 && res.status != 303 && res.status != 307
            && res.status != 308,
    ensures
        get_answered(g, res).0 == g,
        get_answered(g, res).1 is Failed,
{
}

/// A success (2xx) ends the fetch with the response's body; a redirect with a
/// `Location` after six requests ends it in failure, with nothing more
/// requested.
pub proof fn lemma_success_ends_and_redirects_are_limited(g: HttpGetView, res: ResponseView)
    ensures
        200 <= res.status <= 299 ==> get_answered(g, res) == (g, GetStepView::Done(res.body)),
        (res.status == 301 || res.status == 302 || res.status == 303 || res.status == 307
            || res.status == 308) && res.location is Some && g.requests >= 6 ==> {
            &&& get_answered(g, res).1 is Failed
            &&& get_answered(g, res).0.requests == g.requests
        },
{
}

} // verus!
