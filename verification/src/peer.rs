//! Peer identities on the matchmaking server.
use vstd::prelude::*;
use vstd::string::*;

verus! {

/// A peer's id on the signaling server: a UUID, kept as its 128 bits.
#[derive(Debug, Clone, Copy, PartialEq, Eq, Structural)]
pub struct PeerId {
    pub id: u128,
}

/// The lowercase hex digit of `d`.
pub open spec fn hex_char(d: nat) -> char {
    if d < 10 {
        (('0' as nat) + d) as char
    } else {
        (('a' as nat) + d - 10) as char
    }
}

/// The `len` lowest hex digits of `n`, most significant first.
pub open spec fn hex_digits(n: nat, len: nat) -> Seq<char>
    decreases len,
{
    if len == 0 {
        seq![]
    } else {
        hex_digits(n / 16, (len - 1) as nat).push(hex_char(n % 16))
    }
}

/// The hyphenated lowercase text of a UUID: 32 hex digits grouped 8-4-4-4-12.
pub open spec fn uuid_text(id: u128) -> Seq<char> {
    let h = hex_digits(id as nat, 32);
    h.subrange(0, 8) + seq!['-'] + h.subrange(8, 12) + seq!['-'] + h.subrange(12, 16) + seq!['-']
        + h.subrange(16, 20) + seq!['-'] + h.subrange(20, 32)
}

fn hex_str(d: u128) -> (r: &'static str)
    requires
        d < 16,
    ensures
        r@ == seq![hex_char(d as nat)],
{
    proof {
        reveal_strlit("0");
        reveal_strlit("1");
        reveal_strlit("2");
        reveal_strlit("3");
        reveal_strlit("4");
        reveal_strlit("5");
        reveal_strlit("6");
        reveal_strlit("7");
        reveal_strlit("8");
        reveal_strlit("9");
        reveal_strlit("a");
        reveal_strlit("b");
        reveal_strlit("c");
        reveal_strlit("d");
        reveal_strlit("e");
        reveal_strlit("f");
    }
    if d == 0 {
        "0"
    } else if d == 1 {
        "1"
    } else if d == 2 {
        "2"
    } else if d == 3 {
        "3"
    } else if d == 4 {
        "4"
    } else if d == 5 {
        "5"
    } else if d == 6 {
        "6"
    } else if d == 7 {
        "7"
    } else if d == 8 {
        "8"
    } else if d == 9 {
        "9"
    } else if d == 10 {
        "a"
    } else if d == 11 {
        "b"
    } else if d == 12 {
        "c"
    } else if d == 13 {
        "d"
    } else if d == 14 {
        "e"
    } else {
        "f"
    }
}

/// Appends the `len` lowest hex digits of `n`, most significant first.
fn push_hex(out: &mut String, n: u128, len: u32)
    ensures
        final(out)@ == old(out)@ + hex_digits(n as nat, len as nat),
    decreases len,
{
    if len > 0 {
        push_hex(out, n / 16, len - 1);
        out.append(hex_str(n % 16));
        assert(hex_digits(n as nat, len as nat) == hex_digits((n / 16) as nat, (len - 1) as nat).push(
            hex_char((n % 16) as nat),
        ));
    }
}

proof fn lemma_hex_digits_len(n: nat, len: nat)
    ensures
        hex_digits(n, len).len() == len,
    decreases len,
{
    if len > 0 {
        lemma_hex_digits_len(n / 16, (len - 1) as nat);
    }
}

impl PeerId {
    /// The hyphenated lowercase text of this id, as UUIDs print.
    pub fn to_text(&self) -> (r: String)
        ensures
            r@ == uuid_text(self.id),
    {
        let mut h = String::new();
        push_hex(&mut h, self.id, 32);
        proof {
            lemma_hex_digits_len(self.id as nat, 32);
            reveal_strlit("-");
        }
        let hs = h.as_str();
        let mut r = String::new();
        r.append(hs.substring_char(0, 8));
        r.append("-");
        r.append(hs.substring_char(8, 12));
        r.append("-");
        r.append(hs.substring_char(12, 16));
        r.append("-");
        r.append(hs.substring_char(16, 20));
        r.append("-");
        r.append(hs.substring_char(20, 32));
        assert(r@ =~= uuid_text(self.id));
        r
    }
}

/// The text of a UUID has 36 characters, with hyphens after the 8th, 12th,
/// 16th and 20th digit.
pub proof fn lemma_uuid_text_shape(id: u128)
    ensures
        uuid_text(id).len() == 36,
        uuid_text(id)[8] == '-',
        uuid_text(id)[13] == '-',
        uuid_text(id)[18] == '-',
        uuid_text(id)[23] == '-',
{
    lemma_hex_digits_len(id as nat, 32);
}



} // verus!
