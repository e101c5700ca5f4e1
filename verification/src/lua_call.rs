//! Calls from the native side into global Lua functions of the game.
use vstd::prelude::*;
use vstd::string::*;

use crate::card_conf::{CardConf, CardConfView};

verus! {

/// The values of a sequence of cards.
pub open spec fn cards_view(v: Seq<CardConf>) -> Seq<CardConfView> {
    v.map_values(|c: CardConf| c@)
}

/// The value of an optional card.
pub open spec fn opt_card_view(o: Option<CardConf>) -> Option<CardConfView> {
    match o {
        Some(c) => Some(c@),
        None => None,
    }
}

/// A copy of a sequence of cards.
pub fn duplicate_cards(v: &Vec<CardConf>) -> (r: Vec<CardConf>)
    ensures
        cards_view(r@) == cards_view(v@),
{
    let mut r: Vec<CardConf> = Vec::new();
    let mut i: usize = 0;
    while i < v.len()
        invariant
            i <= v.len(),
            r@.len() == i,
            cards_view(r@) == cards_view(v@.take(i as int)),
        decreases v.len() - i,
    {
        let ghost before = r@;
        r.push(v[i].duplicate());
        assert(v@.take(i + 1) == v@.take(i as int).push(v@[i as int]));
        assert(cards_view(r@) =~= cards_view(v@.take(i + 1))) by {
            assert forall|k: int| 0 <= k < i implies #[trigger] r@[k]@ == v@.take(i + 1)[k]@ by {
                assert(r@[k] == before[k]);
                assert(cards_view(before)[k] == cards_view(v@.take(i as int))[k]);
            }
        }
        i = i + 1;
    }
    assert(v@.take(v.len() as int) == v@);
    r
}

/// Whether two sequences of cards have the same values.
pub fn same_cards(a: &Vec<CardConf>, b: &Vec<CardConf>) -> (r: bool)
    ensures
        r == (cards_view(a@) == cards_view(b@)),
{
    if a.len() != b.len() {
        assert(cards_view(a@).len() != cards_view(b@).len());
        return false;
    }
    let mut i: usize = 0;
    while i < a.len()
        invariant
            a.len() == b.len(),
            i <= a.len(),
            forall|k: int| 0 <= k < i ==> a@[k]@ == b@[k]@,
        decreases a.len() - i,
    {
        if !a[i].same_as(&b[i]) {
            assert(cards_view(a@)[i as int] != cards_view(b@)[i as int]);
            return false;
        }
        i = i + 1;
    }
    assert(cards_view(a@) =~= cards_view(b@));
    true
}

/// A copy of an optional card.
pub fn duplicate_opt_card(o: &Option<CardConf>) -> (r: Option<CardConf>)
    ensures
        opt_card_view(r) == opt_card_view(*o),
{
    match o {
        Some(c) => Some(c.duplicate()),
        None => None,
    }
}

/// Whether two optional cards have the same value.
pub fn same_opt_card(a: &Option<CardConf>, b: &Option<CardConf>) -> (r: bool)
    ensures
        r == (opt_card_view(*a) == opt_card_view(*b)),
{
    match (a, b) {
        (Some(x), Some(y)) => x.same_as(y),
        (None, None) => true,
        _ => false,
    }
}

/// Whether two sequences of indices are equal.
pub fn same_indices(a: &Vec<usize>, b: &Vec<usize>) -> (r: bool)
    ensures
        r == (a@ == b@),
{
    if a.len() != b.len() {
        return false;
    }
    let mut i: usize = 0;
    while i < a.len()
        invariant
            a.len() == b.len(),
            i <= a.len(),
            forall|k: int| 0 <= k < i ==> a@[k] == b@[k],
        decreases a.len() - i,
    {
        if a[i] != b[i] {
            return false;
        }
        i = i + 1;
    }
    assert(a@ =~= b@);
    true
}

/// A copy of a sequence of indices.
pub fn duplicate_indices(v: &Vec<usize>) -> (r: Vec<usize>)
    ensures
        r@ == v@,
{
    let mut r: Vec<usize> = Vec::new();
    let mut i: usize = 0;
    while i < v.len()
        invariant
            i <= v.len(),
            r@ == v@.take(i as int),
        decreases v.len() - i,
    {
        r.push(v[i]);
        assert(v@.take(i + 1) == v@.take(i as int).push(v@[i as int]));
        i = i + 1;
    }
    assert(v@.take(v.len() as int) == v@);
    r
}

/// One argument handed to a Lua function.
#[derive(Debug)]
pub enum LuaArg {
    Usize(usize),
    I32(i32),
    Bool(bool),
    Text(String),
    Indices(Vec<usize>),
    Card(CardConf),
    Cards(Vec<CardConf>),
    OptCard(Option<CardConf>),
}

/// The value of an argument.
pub enum LuaArgView {
    Usize(usize),
    I32(i32),
    Bool(bool),
    Text(Seq<char>),
    Indices(Seq<usize>),
    Card(CardConfView),
    Cards(Seq<CardConfView>),
    OptCard(Option<CardConfView>),
}

impl View for LuaArg {
    type V = LuaArgView;

    open spec fn view(&self) -> LuaArgView {
        match self {
            LuaArg::Usize(n) => LuaArgView::Usize(*n),
            LuaArg::I32(n) => LuaArgView::I32(*n),
            LuaArg::Bool(b) => LuaArgView::Bool(*b),
            LuaArg::Text(s) => LuaArgView::Text(s@),
            LuaArg::Indices(v) => LuaArgView::Indices(v@),
            LuaArg::Card(c) => LuaArgView::Card(c@),
            LuaArg::Cards(v) => LuaArgView::Cards(cards_view(v@)),
            LuaArg::OptCard(o) => LuaArgView::OptCard(opt_card_view(*o)),
        }
    }
}

/// A call of the global Lua function `name` with `args`, in order.
#[derive(Debug)]
pub struct LuaCall {
    pub name: String,
    pub args: Vec<LuaArg>,
}

/// The value of a call.
pub struct LuaCallView {
    pub name: Seq<char>,
    pub args: Seq<LuaArgView>,
}

impl View for LuaCall {
    type V = LuaCallView;

    open spec fn view(&self) -> LuaCallView {
        LuaCallView { name: self.name@, args: self.args@.map_values(|a: LuaArg| a@) }
    }
}

/// The values of a sequence of calls.
pub open spec fn calls_view(v: Seq<LuaCall>) -> Seq<LuaCallView> {
    v.map_values(|c: LuaCall| c@)
}

/// A call with the given name and argument values.
pub open spec fn lua_call(name: Seq<char>, args: Seq<LuaArgView>) -> LuaCallView {
    LuaCallView { name, args }
}

impl LuaCall {
    /// A call without arguments.
    pub fn new0(name: &str) -> (r: LuaCall)
        ensures
            r@ == lua_call(name@, seq![]),
    {
        let r = LuaCall { name: String::from_str(name), args: Vec::new() };
        assert(r@.args =~= Seq::<LuaArgView>::empty());
        r
    }

    /// A call with one argument.
    pub fn new1(name: &str, a: LuaArg) -> (r: LuaCall)
        ensures
            r@ == lua_call(name@, seq![a@]),
    {
        let mut args: Vec<LuaArg> = Vec::new();
        args.push(a);
        let r = LuaCall { name: String::from_str(name), args };
        assert(r@.args =~= seq![a@]);
        r
    }

    /// A call with two arguments.
    pub fn new2(name: &str, a: LuaArg, b: LuaArg) -> (r: LuaCall)
        ensures
            r@ == lua_call(name@, seq![a@, b@]),
    {
        let mut args: Vec<LuaArg> = Vec::new();
        args.push(a);
        args.push(b);
        let r = LuaCall { name: String::from_str(name), args };
        assert(r@.args =~= seq![a@, b@]);
        r
    }

    /// A call with three arguments.
    pub fn new3(name: &str, a: LuaArg, b: LuaArg, c: LuaArg) -> (r: LuaCall)
        ensures
            r@ == lua_call(name@, seq![a@, b@, c@]),
    {
        let mut args: Vec<LuaArg> = Vec::new();
        args.push(a);
        args.push(b);
        args.push(c);
        let r = LuaCall { name: String::from_str(name), args };
        assert(r@.args =~= seq![a@, b@, c@]);
        r
    }

    /// A call with four arguments.
    pub fn new4(name: &str, a: LuaArg, b: LuaArg, c: LuaArg, d: LuaArg) -> (r: LuaCall)
        ensures
            r@ == lua_call(name@, seq![a@, b@, c@, d@]),
    {
        let mut args: Vec<LuaArg> = Vec::new();
        args.push(a);
        args.push(b);
        args.push(c);
        args.push(d);
        let r = LuaCall { name: String::from_str(name), args };
        assert(r@.args =~= seq![a@, b@, c@, d@]);
        r
    }
}

} // verus!
