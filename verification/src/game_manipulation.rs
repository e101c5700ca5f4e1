//! Plays the opponent's actions out on the game side, one event at a time.
use std::collections::VecDeque;
use vstd::prelude::*;
use vstd::string::*;

use crate::card_conf::AreaType;
use crate::game_event::{needs_acknowledge, GameEventView, GameManipulationEvent};
use crate::lua_call::{
    calls_view, duplicate_indices, lua_call, LuaArg, LuaArgView, LuaCall, LuaCallView,
};
use crate::network_state::{NetworkState, NetworkStateView};
use crate::rng::{is_alphanumeric_text, random_alphanumeric};
use crate::text::{owned, str_eq};

verus! {

broadcast use vstd::seq_lib::group_to_multiset_ensures;

/// The values of a queue of events.
pub open spec fn events_view(q: Seq<GameManipulationEvent>) -> Seq<GameEventView> {
    q.map_values(|e: GameManipulationEvent| e@)
}

/// The mathematical value of the game side: its seed, the events still to play
/// out, its flags, the last match state it saw and the Lua calls it has decided
/// on and not yet handed out.
pub struct GameManipulationView {
    pub seed: Seq<char>,
    pub queue: Seq<GameEventView>,
    pub is_ack_needed: bool,
    pub is_timer_ack_needed: bool,
    pub is_player_shopping: bool,
    pub last_network_state: NetworkStateView,
    pub lua_calls: Seq<LuaCallView>,
}

/// The game side of a match.
pub struct GameManipulation {
    seed: String,
    event_queue: VecDeque<GameManipulationEvent>,
    is_ack_needed: bool,
    is_timer_ack_needed: bool,
    is_player_shopping: bool,
    last_network_state: NetworkState,
    lua_calls: Vec<LuaCall>,
}

impl View for GameManipulation {
    type V = GameManipulationView;

    closed spec fn view(&self) -> GameManipulationView {
        GameManipulationView {
            seed: self.seed@,
            queue: events_view(self.event_queue@),
            is_ack_needed: self.is_ack_needed,
            is_timer_ack_needed: self.is_timer_ack_needed,
            is_player_shopping: self.is_player_shopping,
            last_network_state: self.last_network_state@,
            lua_calls: calls_view(self.lua_calls@),
        }
    }
}

/// A Lua text argument.
pub open spec fn text_arg(s: Seq<char>) -> LuaArgView {
    LuaArgView::Text(s)
}

/// A call without arguments.
pub open spec fn call0(name: Seq<char>) -> LuaCallView {
    lua_call(name, seq![])
}

/// A call with one argument.
pub open spec fn call1(name: Seq<char>, a: LuaArgView) -> LuaCallView {
    lua_call(name, seq![a])
}

/// The Lua calls that playing out `e` makes, with `seed` the current seed;
/// alignment events are handled apart.
pub open spec fn event_calls(e: GameEventView, seed: Seq<char>) -> Seq<LuaCallView> {
    match e {
        GameEventView::OnRandomMatchmakingSelected => seq![call0("on_random_search"@)],
        GameEventView::OnRandomFound => seq![call0("on_random_found"@)],
        GameEventView::OnAcceptedRandomMath => seq![call1("on_random_start"@, text_arg(seed))],
        GameEventView::OpponentDisconnectedBeforeConfirm => seq![
            call0("on_opponent_disconnected_from_found"@),
        ],
        GameEventView::OpponentDisconnectedInGame => seq![],
        GameEventView::PlayTurn(cards) => seq![
            call1("on_play_turn"@, LuaArgView::Indices(cards)),
        ],
        GameEventView::OpponentHighlightedCard => seq![call0("on_opponent_highlighted_card"@)],
        GameEventView::NewHandCardsAlignement(_, _) => seq![],
        GameEventView::SortedHandSuitCards => seq![call0("on_opponent_sort_hand_suit"@)],
        GameEventView::SortedHandValueCards => seq![call0("on_opponent_sort_hand_value"@)],
        GameEventView::OpponentDiscardedHandCards(cards) => seq![
            call1("on_opponent_discarded_cards"@, LuaArgView::Indices(cards)),
        ],
        GameEventView::DiscardedHandCards => seq![call0("on_pause_timer"@)],
        GameEventView::EmplaceOpponentCard(c) => seq![
            call1("on_opponent_new_card"@, LuaArgView::Card(c)),
        ],
        GameEventView::EndShopAndStartNewRound => seq![
            call1("on_update_message"@, text_arg(""@)),
            call0("on_end_shop"@),
        ],
        GameEventView::UsedConsumeableCard(index, area, cards, targets) => seq![
            lua_call(
                "on_opponent_use_consumeable_card"@,
                seq![
                    LuaArgView::Usize(index),
                    LuaArgView::Bool(area == AreaType::Consumeables),
                    LuaArgView::Indices(cards),
                    LuaArgView::Cards(targets),
                ],
            ),
        ],
        GameEventView::UsedVoucherCard(c) => seq![
            call1("on_opponent_use_voucher_card"@, LuaArgView::Card(c)),
        ],
        GameEventView::OnRTTUpdated(rtt) => seq![call1("on_rtt_updated"@, LuaArgView::Usize(rtt))],
        GameEventView::OpenBooster(c, shop) => seq![
            lua_call(
                "on_opponent_open_booster"@,
                seq![LuaArgView::Card(c), LuaArgView::Cards(shop)],
            ),
        ],
        GameEventView::HighlightedBoosterCard(cards, selected) => seq![
            lua_call(
                "on_highlighted_booster_card"@,
                seq![LuaArgView::Indices(cards), LuaArgView::OptCard(selected)],
            ),
        ],
        GameEventView::ProcessRemainingEvents => seq![call0("on_processed_remaining_events"@)],
        GameEventView::UpdateMessage(_) => seq![],
        GameEventView::RerollShop => seq![call0("on_opponent_reroll_shop"@)],
        GameEventView::BoughtCard(c, id) => seq![
            lua_call("on_opponent_bought_card"@, seq![LuaArgView::Card(c), text_arg(id)]),
        ],
        GameEventView::SellCard(index, is_consumeable) => seq![
            lua_call(
                "on_opponent_sell_card"@,
                seq![LuaArgView::Usize(index), LuaArgView::Bool(is_consumeable)],
            ),
        ],
        GameEventView::WaitForOpponentAction => seq![],
        GameEventView::CashOut => seq![],
        GameEventView::OpponentCashOut(_) => seq![],
        GameEventView::OnRematch => seq![call1("on_rematch"@, text_arg(seed))],
        GameEventView::OnOpponentRematched => seq![call0("on_opponent_rematched"@)],
        GameEventView::OnWaitingForRematchResponse => seq![
            call0("on_waiting_for_rematch_response"@),
        ],
    }
}

// ----- Card alignments -----

/// `a - 1`, or 0 for 0.
pub open spec fn sat_pred(a: usize) -> int {
    if a == 0 {
        0
    } else {
        a - 1
    }
}

/// Swaps the cards at the (1-based) positions `a` and `b` when both are in range.
pub open spec fn swap_step(cards: Seq<usize>, a: usize, b: usize) -> Seq<usize> {
    let i = sat_pred(a);
    let j = sat_pred(b);
    if i < cards.len() && j < cards.len() {
        cards.update(i, cards[j]).update(j, cards[i])
    } else {
        cards
    }
}

/// The first `w` windows of the alignment `al` applied to `cards`: window `k`
/// swaps the positions `al[k]` and `al[k + 1]`.
pub open spec fn apply_windows(cards: Seq<usize>, al: Seq<usize>, w: nat) -> Seq<usize>
    decreases w,
{
    if w == 0 {
        cards
    } else {
        swap_step(apply_windows(cards, al, (w - 1) as nat), al[w - 1], al[w as int])
    }
}

/// Every window of the alignment `al` applied to `cards`, in order.
pub open spec fn apply_alignment(cards: Seq<usize>, al: Seq<usize>) -> Seq<usize> {
    if al.len() < 2 {
        cards
    } else {
        apply_windows(cards, al, (al.len() - 1) as nat)
    }
}

/// The first `k` alignments applied to `cards`, in order.
pub open spec fn apply_alignments(cards: Seq<usize>, aligns: Seq<Seq<usize>>, k: nat) -> Seq<usize>
    decreases k,
{
    if k == 0 {
        cards
    } else {
        apply_alignment(apply_alignments(cards, aligns, (k - 1) as nat), aligns[k - 1])
    }
}

/// The opponent's cards in their drawn order: `1, 2, ..., n`.
pub open spec fn initial_cards(n: nat) -> Seq<usize> {
    Seq::new(n, |i: int| (i + 1) as usize)
}

/// The new order of the opponent's `n` cards after the alignments.
pub open spec fn cards_update(n: nat, aligns: Seq<Seq<usize>>) -> Seq<usize> {
    apply_alignments(initial_cards(n), aligns, aligns.len())
}

/// Every position named by the alignments is at most `n`.
pub open spec fn all_within(aligns: Seq<Seq<usize>>, n: nat) -> bool {
    forall|i: int, j: int| 0 <= i < aligns.len() && 0 <= j < aligns[i].len() ==> aligns[i][j] <= n
}

/// How many alignment events open the queue.
pub open spec fn leading_alignments(q: Seq<GameEventView>) -> nat
    decreases q.len(),
{
    if q.len() > 0 && q[0] is NewHandCardsAlignement {
        1 + leading_alignments(q.drop_first())
    } else {
        0
    }
}

/// The positions carried by an alignment event.
pub open spec fn alignment_of(e: GameEventView) -> Seq<usize> {
    match e {
        GameEventView::NewHandCardsAlignement(al, _) => al,
        _ => seq![],
    }
}

/// The side whose card count an alignment of type `t` needs, by the name of the
/// Lua function that gives it; `None` for an unknown type.
pub open spec fn length_query_of(t: Seq<char>) -> Option<Seq<char>> {
    if t == "hand"@ {
        Some("get_opponent_hand_length"@)
    } else if t == "jokers"@ {
        Some("get_opponent_jokers_length"@)
    } else if t == "consumeables"@ {
        Some("get_opponent_consumeables_length"@)
    } else {
        None
    }
}

/// What the game side needs to know before it can play out its next event.
#[derive(Debug)]
pub enum LengthQuery {
    /// Nothing: the next event, if any, needs no card count.
    NotNeeded,
    /// The card count that this global Lua function returns.
    Call(&'static str),
    /// The next event is an alignment of a type nobody knows.
    UnknownType(String),
}

/// A swap keeps the cards, only their order changes.
pub proof fn lemma_swap_step_keeps_cards(cards: Seq<usize>, a: usize, b: usize)
    ensures
        swap_step(cards, a, b).to_multiset() == cards.to_multiset(),
        swap_step(cards, a, b).len() == cards.len(),
{
    let i = sat_pred(a);
    let j = sat_pred(b);
    if i < cards.len() && j < cards.len() {
        let c1 = cards.update(i, cards[j]);
        assert(c1.to_multiset() == cards.to_multiset().insert(cards[j]).remove(cards[i]));
        assert(c1.update(j, cards[i]).to_multiset() == c1.to_multiset().insert(cards[i]).remove(
            c1[j],
        ));
        assert(c1[j] == cards[j]);
        assert(c1.update(j, cards[i]).to_multiset() =~= cards.to_multiset());
    }
}

/// Applying windows keeps the cards.
pub proof fn lemma_apply_windows_keeps_cards(cards: Seq<usize>, al: Seq<usize>, w: nat)
    requires
        w < al.len(),
    ensures
        apply_windows(cards, al, w).to_multiset() == cards.to_multiset(),
        apply_windows(cards, al, w).len() == cards.len(),
    decreases w,
{
    if w > 0 {
        lemma_apply_windows_keeps_cards(cards, al, (w - 1) as nat);
        lemma_swap_step_keeps_cards(
            apply_windows(cards, al, (w - 1) as nat),
            al[w - 1],
            al[w as int],
        );
    }
}

/// Applying alignments keeps the cards.
pub proof fn lemma_apply_alignments_keeps_cards(
    cards: Seq<usize>,
    aligns: Seq<Seq<usize>>,
    k: nat,
)
    requires
        k <= aligns.len(),
    ensures
        apply_alignments(cards, aligns, k).to_multiset() == cards.to_multiset(),
        apply_alignments(cards, aligns, k).len() == cards.len(),
    decreases k,
{
    if k > 0 {
        lemma_apply_alignments_keeps_cards(cards, aligns, (k - 1) as nat);
        let prev = apply_alignments(cards, aligns, (k - 1) as nat);
        let al = aligns[k - 1];
        if al.len() >= 2 {
            lemma_apply_windows_keeps_cards(prev, al, (al.len() - 1) as nat);
        }
    }
}

/// Whatever alignments the opponent sends, the order handed to the game holds
/// each of the opponent's cards `1..=n` exactly once.
pub proof fn lemma_cards_update_is_permutation(n: nat, aligns: Seq<Seq<usize>>)
    ensures
        cards_update(n, aligns).to_multiset() == initial_cards(n).to_multiset(),
        cards_update(n, aligns).len() == n,
{
    lemma_apply_alignments_keeps_cards(initial_cards(n), aligns, aligns.len());
}

impl GameManipulationView {
    /// This state with one more Lua call decided on.
    pub open spec fn with_call(self, c: LuaCallView) -> GameManipulationView {
        GameManipulationView { lua_calls: self.lua_calls.push(c), ..self }
    }

    /// The state after `e` is registered: a few events are played out at once
    /// (a message, the opponent's cash out, the own cash out, waiting for the
    /// opponent, the opponent leaving mid-game); the others join the queue.
    pub open spec fn registered(self, e: GameEventView) -> GameManipulationView {
        match e {
            GameEventView::UpdateMessage(m) => self.with_call(
                call1("on_update_message"@, text_arg(m)),
            ),
            GameEventView::OpponentCashOut(amount) => self.with_call(
                call1("on_opponent_cash_out"@, LuaArgView::I32(amount)),
            ),
            GameEventView::CashOut => self.with_call(
                lua_call(
                    "on_create_timer"@,
                    seq![
                        LuaArgView::Usize(65),
                        text_arg("on_shop_action_over"@),
                        LuaArgView::Bool(true),
                    ],
                ),
            ),
            GameEventView::WaitForOpponentAction => self.with_call(call0("on_stop_timer"@)),
            GameEventView::OpponentDisconnectedInGame => self.with_call(
                call0("on_opponent_disconnected_in_game"@),
            ),
            _ => GameManipulationView { queue: self.queue.push(e), ..self },
        }
    }

    /// Whether the next event would be played out now.
    pub open spec fn ready(self) -> bool {
        !self.is_ack_needed && !self.is_player_shopping && self.queue.len() > 0
    }

    /// The next event can be played out without an unknown alignment type.
    pub open spec fn front_type_known(self) -> bool {
        self.ready() && self.queue[0] is NewHandCardsAlignement ==> length_query_of(
            self.queue[0]->NewHandCardsAlignement_1,
        ) is Some
    }

    /// The state after one event is played out, where `n` is the opponent's card
    /// count for the type of the alignment at the front of the queue (and
    /// matters for nothing else).
    ///
    /// Alignments that follow each other are played out together, under the type
    /// of the first; when one names a position past the opponent's cards they all
    /// go back to the front of the queue, to be tried again.
    pub open spec fn processed(self, n: nat) -> GameManipulationView {
        if !self.ready() {
            self
        } else {
            let e = self.queue[0];
            let rest = self.queue.drop_first();
            let acked = GameManipulationView {
                is_ack_needed: needs_acknowledge(e),
                queue: rest,
                ..self
            };
            match e {
                GameEventView::NewHandCardsAlignement(first, t) => {
                    let k = leading_alignments(rest);
                    let aligns = seq![first] + rest.take(k as int).map_values(
                        |x: GameEventView| alignment_of(x),
                    );
                    if !all_within(aligns, n) {
                        GameManipulationView {
                            queue: aligns.map_values(
                                |al: Seq<usize>| GameEventView::NewHandCardsAlignement(al, t),
                            ) + rest.skip(k as int),
                            ..acked
                        }
                    } else {
                        GameManipulationView {
                            queue: rest.skip(k as int),
                            ..acked
                        }.with_call(
                            lua_call(
                                "on_opponent_new_card_alignement"@,
                                seq![LuaArgView::Indices(cards_update(n, aligns)), text_arg(t)],
                            ),
                        )
                    }
                },
                GameEventView::DiscardedHandCards => GameManipulationView {
                    is_timer_ack_needed: true,
                    lua_calls: self.lua_calls + event_calls(e, self.seed),
                    ..acked
                },
                _ => GameManipulationView {
                    lua_calls: self.lua_calls + event_calls(e, self.seed),
                    ..acked
                },
            }
        }
    }

    /// The state after the game reports that the match state is now `s`: a
    /// change to waiting for the user starts a turn timer, a change to having
    /// highlighted or to playing the turn stops it.
    pub open spec fn timer_updated(self, s: NetworkStateView) -> GameManipulationView {
        if self.last_network_state == s {
            self
        } else {
            let updated = GameManipulationView { last_network_state: s, ..self };
            match s {
                NetworkStateView::WaitForUserAction => updated.with_call(
                    lua_call(
                        "on_create_timer"@,
                        seq![LuaArgView::Usize(45), text_arg("on_wait_for_user_action_over"@)],
                    ),
                ),
                NetworkStateView::SentHighlighted(_) => updated.with_call(call0("on_stop_timer"@)),
                NetworkStateView::PlayTurn(_) => updated.with_call(call0("on_stop_timer"@)),
                _ => updated,
            }
        }
    }

    /// A game side with the seed `seed`, nothing queued, no flag set and no call decided.
    pub open spec fn fresh(seed: Seq<char>) -> GameManipulationView {
        GameManipulationView {
            seed,
            queue: Seq::empty(),
            is_ack_needed: false,
            is_timer_ack_needed: false,
            is_player_shopping: false,
            last_network_state: NetworkStateView::Idle,
            lua_calls: Seq::empty(),
        }
    }

    /// The state after the game acknowledges the event it was playing out: the
    /// queue moves again, and a timer paused for a discard resumes.
    pub open spec fn acknowledged(self) -> GameManipulationView {
        if !self.is_ack_needed {
            self
        } else if self.is_timer_ack_needed {
            GameManipulationView {
                is_ack_needed: false,
                is_timer_ack_needed: false,
                ..self
            }.with_call(call0("on_resume_timer"@))
        } else {
            GameManipulationView { is_ack_needed: false, ..self }
        }
    }
}

impl GameManipulation {
    /// A game side with a fresh random seed of eight letters and digits,
    /// nothing queued and no flag set.
    pub fn new() -> (r: GameManipulation)
        ensures
            r@.seed.len() == 8,
            is_alphanumeric_text(r@.seed),
            r@ == GameManipulationView::fresh(r@.seed),
    {
        let seed = random_alphanumeric(8);
        let r = GameManipulation {
            seed,
            is_ack_needed: false,
            is_timer_ack_needed: false,
            is_player_shopping: false,
            event_queue: VecDeque::new(),
            last_network_state: NetworkState::Idle,
            lua_calls: Vec::new(),
        };
        assert(r@.queue =~= Seq::<GameEventView>::empty());
        assert(r@.lua_calls =~= Seq::<LuaCallView>::empty());
        r
    }

    pub fn start_player_shop(&mut self)
        ensures
            final(self)@ == (GameManipulationView { is_player_shopping: true, ..old(self)@ }),
    {
        self.is_player_shopping = true;
    }

    pub fn end_player_shop(&mut self)
        ensures
            final(self)@ == (GameManipulationView { is_player_shopping: false, ..old(self)@ }),
    {
        self.is_player_shopping = false;
    }

    pub fn set_seed(&mut self, seed: String)
        ensures
            final(self)@ == (GameManipulationView { seed: seed@, ..old(self)@ }),
    {
        self.seed = seed;
    }

    pub fn get_seed(&self) -> (r: String)
        ensures
            r@ == self@.seed,
    {
        self.seed.clone()
    }

    /// Replaces the seed with a fresh random one of eight letters and digits.
    pub fn regenerate_seed(&mut self)
        ensures
            final(self)@ == (GameManipulationView { seed: final(self)@.seed, ..old(self)@ }),
            final(self)@.seed.len() == 8,
            is_alphanumeric_text(final(self)@.seed),
    {
        self.seed = random_alphanumeric(8);
    }

    /// Whether the game must acknowledge `event` before the next one is played out.
    pub fn is_acknowledge_needed(&self, event: &GameManipulationEvent) -> (r: bool)
        ensures
            r == needs_acknowledge(event@),
    {
        event.needs_acknowledge()
    }

    /// Whether the game is waiting for an acknowledgement.
    pub fn is_waiting_for_acknowledge(&self) -> (r: bool)
        ensures
            r == self@.is_ack_needed,
    {
        self.is_ack_needed
    }

    /// The number of events still to play out.
    pub fn queued_events(&self) -> (r: usize)
        ensures
            r == self@.queue.len(),
    {
        self.event_queue.len()
    }

    fn push_call(&mut self, c: LuaCall)
        ensures
            final(self)@ == old(self)@.with_call(c@),
    {
        self.lua_calls.push(c);
        assert(calls_view(self.lua_calls@) =~= calls_view(old(self).lua_calls@).push(c@));
    }

    /// Hands out the Lua calls decided on so far, in order, and forgets them.
    pub fn take_lua_calls(&mut self) -> (r: Vec<LuaCall>)
        ensures
            calls_view(r@) == old(self)@.lua_calls,
            final(self)@ == (GameManipulationView {
                lua_calls: Seq::<LuaCallView>::empty(),
                ..old(self)@
            }),
    {
        let mut taken: Vec<LuaCall> = Vec::new();
        std::mem::swap(&mut taken, &mut self.lua_calls);
        assert(calls_view(self.lua_calls@) =~= Seq::<LuaCallView>::empty());
        taken
    }

    /// Registers an event; messages, cash outs, waiting for the opponent and the
    /// opponent leaving mid-game are played out at once, the others are queued.
    pub fn register_event(&mut self, event: GameManipulationEvent)
        ensures
            final(self)@ == old(self)@.registered(event@),
    {
        match event {
            GameManipulationEvent::UpdateMessage(message) => {
                self.push_call(LuaCall::new1("on_update_message", LuaArg::Text(message)));
            },
            GameManipulationEvent::OpponentCashOut(amount) => {
                self.push_call(LuaCall::new1("on_opponent_cash_out", LuaArg::I32(amount)));
            },
            GameManipulationEvent::CashOut => {
                self.push_call(
                    LuaCall::new3(
                        "on_create_timer",
                        LuaArg::Usize(65),
                        LuaArg::Text(owned("on_shop_action_over")),
                        LuaArg::Bool(true),
                    ),
                );
            },
            GameManipulationEvent::WaitForOpponentAction => {
                self.push_call(LuaCall::new0("on_stop_timer"));
            },
            GameManipulationEvent::OpponentDisconnectedInGame => {
                self.push_call(LuaCall::new0("on_opponent_disconnected_in_game"));
            },
            other => {
                let ghost old_q = self.event_queue@;
                self.event_queue.push_back(other);
                assert(events_view(self.event_queue@) =~= events_view(old_q).push(event@));
            },
        }
    }

    /// Reacts to the match state: a timer for the user's turn starts when the
    /// state becomes waiting for the user and stops when the user has
    /// highlighted or the turn is played.
    pub fn handle_timer_with_state_update(&mut self, state: &NetworkState)
        ensures
            final(self)@ == old(self)@.timer_updated(state@),
    {
        if !self.last_network_state.same_as(state) {
            match state {
                NetworkState::WaitForUserAction => {
                    self.push_call(
                        LuaCall::new2(
                            "on_create_timer",
                            LuaArg::Usize(45),
                            LuaArg::Text(owned("on_wait_for_user_action_over")),
                        ),
                    );
                },
                NetworkState::SentHighlighted(_) | NetworkState::PlayTurn(_) => {
                    self.push_call(LuaCall::new0("on_stop_timer"));
                },
                _ => {},
            }
            self.last_network_state = state.duplicate();
        }
    }

    /// The game acknowledges the event it was playing out.
    pub fn acknowledge_event(&mut self)
        ensures
            final(self)@ == old(self)@.acknowledged(),
    {
        if !self.is_ack_needed {
            return;
        }
        self.is_ack_needed = false;
        if self.is_timer_ack_needed {
            self.push_call(LuaCall::new0("on_resume_timer"));
            self.is_timer_ack_needed = false;
        }
    }

    /// What the next call of `process_events` needs to know: the opponent's card
    /// count of the side that the next alignment is about, if that is its next
    /// event.
    pub fn pending_length_query(&self) -> (r: LengthQuery)
        ensures
            match r {
                LengthQuery::NotNeeded => !(self@.ready() && self@.queue[0] is NewHandCardsAlignement),
                LengthQuery::Call(name) => self@.ready() && self@.queue[0] is NewHandCardsAlignement
                    && length_query_of(self@.queue[0]->NewHandCardsAlignement_1) == Some(name@),
                LengthQuery::UnknownType(t) => self@.ready()
                    && self@.queue[0] is NewHandCardsAlignement && t@
                    == self@.queue[0]->NewHandCardsAlignement_1 && length_query_of(t@) is None,
            },
    {
        if self.is_ack_needed || self.is_player_shopping || self.event_queue.len() == 0 {
            return LengthQuery::NotNeeded;
        }
        let front = &self.event_queue[0];
        match front {
            GameManipulationEvent::NewHandCardsAlignement(_, t) => {
                match length_query_name(t.as_str()) {
                    Some(name) => LengthQuery::Call(name),
                    None => LengthQuery::UnknownType(t.clone()),
                }
            },
            _ => LengthQuery::NotNeeded,
        }
    }
}

/// The positions of a sequence of alignments.
pub open spec fn alignments_view(v: Seq<Vec<usize>>) -> Seq<Seq<usize>> {
    v.map_values(|al: Vec<usize>| al@)
}

/// The count of opening alignments is `m` when the first `m` events are
/// alignments and the next one, if any, is not.
proof fn lemma_leading_alignments(q: Seq<GameEventView>, m: nat)
    requires
        m <= q.len(),
        forall|i: int| 0 <= i < m ==> q[i] is NewHandCardsAlignement,
        m < q.len() ==> !(q[m as int] is NewHandCardsAlignement),
    ensures
        leading_alignments(q) == m,
    decreases m,
{
    if m > 0 {
        assert forall|i: int| 0 <= i < m - 1 implies q.drop_first()[i] is NewHandCardsAlignement by {
            assert(q.drop_first()[i] == q[i + 1]);
        }
        if m < q.len() {
            assert(q.drop_first()[m - 1] == q[m as int]);
        }
        lemma_leading_alignments(q.drop_first(), (m - 1) as nat);
    } else if q.len() > 0 {
        assert(!(q[0] is NewHandCardsAlignement));
    }
}

/// At most `leading_alignments(q)` events open the queue as alignments.
proof fn lemma_leading_alignments_are_alignments(q: Seq<GameEventView>, i: int)
    requires
        0 <= i < leading_alignments(q),
    ensures
        q[i] is NewHandCardsAlignement,
        leading_alignments(q) <= q.len(),
    decreases q.len(),
{
    if i > 0 {
        lemma_leading_alignments_are_alignments(q.drop_first(), i - 1);
        assert(q.drop_first()[i - 1] == q[i]);
    }
    lemma_leading_alignments_bound(q);
}

proof fn lemma_leading_alignments_bound(q: Seq<GameEventView>)
    ensures
        leading_alignments(q) <= q.len(),
    decreases q.len(),
{
    if q.len() > 0 && q[0] is NewHandCardsAlignement {
        lemma_leading_alignments_bound(q.drop_first());
    }
}

/// Whether every position named by the alignments is at most `n`.
fn alignments_within(aligns: &Vec<Vec<usize>>, n: usize) -> (r: bool)
    ensures
        r == all_within(alignments_view(aligns@), n as nat),
{
    let ghost av = alignments_view(aligns@);
    let mut i: usize = 0;
    while i < aligns.len()
        invariant
            i <= aligns.len(),
            av == alignments_view(aligns@),
            forall|a: int, b: int| 0 <= a < i && 0 <= b < av[a].len() ==> av[a][b] <= n,
        decreases aligns.len() - i,
    {
        let al = &aligns[i];
        let mut j: usize = 0;
        while j < al.len()
            invariant
                i < aligns.len(),
                al == aligns@[i as int],
                j <= al.len(),
                av == alignments_view(aligns@),
                forall|a: int, b: int| 0 <= a < i && 0 <= b < av[a].len() ==> av[a][b] <= n,
                forall|b: int| 0 <= b < j ==> al@[b] <= n,
            decreases al.len() - j,
        {
            if al[j] > n {
                assert(av[i as int][j as int] == al@[j as int]);
                return false;
            }
            j = j + 1;
        }
        assert(av[i as int] == al@);
        i = i + 1;
    }
    true
}

impl GameManipulation {
/// The new order of the opponent's `n` cards after the alignments:
/// the positions `1..=n`, with each window of two positions of each
/// alignment swapped in turn, out-of-range windows left out.
pub fn get_cards_alignements_update(aligns: &Vec<Vec<usize>>, n: usize) -> (r: Vec<usize>)
    ensures
        r@ == cards_update(n as nat, alignments_view(aligns@)),
{
    let ghost av = alignments_view(aligns@);
    let mut cards: Vec<usize> = Vec::new();
    let mut c: usize = 0;
    while c < n
        invariant
            c <= n,
            cards@ == initial_cards(c as nat),
        decreases n - c,
    {
        cards.push(c + 1);
        assert(cards@ =~= initial_cards((c + 1) as nat));
        c = c + 1;
    }
    let mut a: usize = 0;
    while a < aligns.len()
        invariant
            a <= aligns.len(),
            av == alignments_view(aligns@),
            cards@ == apply_alignments(initial_cards(n as nat), av, a as nat),
        decreases aligns.len() - a,
    {
        let al = &aligns[a];
        let ghost before = cards@;
        assert(av[a as int] == al@);
        if al.len() >= 2 {
            let mut w: usize = 0;
            while w + 1 < al.len()
                invariant
                    al == aligns@[a as int],
                    w + 1 <= al.len(),
                    cards@ == apply_windows(before, al@, w as nat),
                decreases al.len() - w,
            {
                let x = al[w];
                let y = al[w + 1];
                let i = if x == 0 {
                    0
                } else {
                    x - 1
                };
                let j = if y == 0 {
                    0
                } else {
                    y - 1
                };
                if i < cards.len() && j < cards.len() {
                    let ci = cards[i];
                    let cj = cards[j];
                    cards.set(i, cj);
                    cards.set(j, ci);
                }
                w = w + 1;
            }
        }
        a = a + 1;
    }
    cards
}
}

impl GameManipulation {
    /// Pushes the Lua calls that playing out `e` makes.
    fn play_event(&mut self, e: GameManipulationEvent)
        ensures
            final(self)@ == (GameManipulationView {
                lua_calls: old(self)@.lua_calls + event_calls(e@, old(self)@.seed),
                ..old(self)@
            }),
    {
        let ghost calls0 = self@.lua_calls;
        let ghost ev = e@;
        match e {
            GameManipulationEvent::OnRandomMatchmakingSelected => {
                self.push_call(LuaCall::new0("on_random_search"));
            },
            GameManipulationEvent::OnRandomFound => {
                self.push_call(LuaCall::new0("on_random_found"));
            },
            GameManipulationEvent::OnAcceptedRandomMath => {
                let seed = self.seed.clone();
                self.push_call(LuaCall::new1("on_random_start", LuaArg::Text(seed)));
            },
            GameManipulationEvent::OpponentDisconnectedBeforeConfirm => {
                self.push_call(LuaCall::new0("on_opponent_disconnected_from_found"));
            },
            GameManipulationEvent::OpponentDisconnectedInGame => {},
            GameManipulationEvent::PlayTurn(cards) => {
                self.push_call(LuaCall::new1("on_play_turn", LuaArg::Indices(cards)));
            },
            GameManipulationEvent::OpponentHighlightedCard => {
                self.push_call(LuaCall::new0("on_opponent_highlighted_card"));
            },
            GameManipulationEvent::NewHandCardsAlignement(_, _) => {},
            GameManipulationEvent::SortedHandSuitCards => {
                self.push_call(LuaCall::new0("on_opponent_sort_hand_suit"));
            },
            GameManipulationEvent::SortedHandValueCards => {
                self.push_call(LuaCall::new0("on_opponent_sort_hand_value"));
            },
            GameManipulationEvent::OpponentDiscardedHandCards(cards) => {
                self.push_call(LuaCall::new1("on_opponent_discarded_cards", LuaArg::Indices(cards)));
            },
            GameManipulationEvent::DiscardedHandCards => {
                self.push_call(LuaCall::new0("on_pause_timer"));
            },
            GameManipulationEvent::EmplaceOpponentCard(conf) => {
                self.push_call(LuaCall::new1("on_opponent_new_card", LuaArg::Card(conf)));
            },
            GameManipulationEvent::EndShopAndStartNewRound => {
                self.push_call(LuaCall::new1("on_update_message", LuaArg::Text(owned(""))));
                self.push_call(LuaCall::new0("on_end_shop"));
            },
            GameManipulationEvent::UsedConsumeableCard(index, area_type, cards, targets) => {
                let is_consumeable = area_type == AreaType::Consumeables;
                self.push_call(
                    LuaCall::new4(
                        "on_opponent_use_consumeable_card",
                        LuaArg::Usize(index),
                        LuaArg::Bool(is_consumeable),
                        LuaArg::Indices(cards),
                        LuaArg::Cards(targets),
                    ),
                );
            },
            GameManipulationEvent::UsedVoucherCard(conf) => {
                self.push_call(LuaCall::new1("on_opponent_use_voucher_card", LuaArg::Card(conf)));
            },
            GameManipulationEvent::OnRTTUpdated(rtt) => {
                self.push_call(LuaCall::new1("on_rtt_updated", LuaArg::Usize(rtt)));
            },
            GameManipulationEvent::OpenBooster(conf, shop) => {
                self.push_call(
                    LuaCall::new2("on_opponent_open_booster", LuaArg::Card(conf), LuaArg::Cards(shop)),
                );
            },
            GameManipulationEvent::HighlightedBoosterCard(cards, selected) => {
                self.push_call(
                    LuaCall::new2(
                        "on_highlighted_booster_card",
                        LuaArg::Indices(cards),
                        LuaArg::OptCard(selected),
                    ),
                );
            },
            GameManipulationEvent::ProcessRemainingEvents => {
                self.push_call(LuaCall::new0("on_processed_remaining_events"));
            },
            GameManipulationEvent::UpdateMessage(_) => {},
            GameManipulationEvent::RerollShop => {
                self.push_call(LuaCall::new0("on_opponent_reroll_shop"));
            },
            GameManipulationEvent::BoughtCard(card, id) => {
                self.push_call(
                    LuaCall::new2("on_opponent_bought_card", LuaArg::Card(card), LuaArg::Text(id)),
                );
            },
            GameManipulationEvent::SellCard(index, is_consumeable) => {
                self.push_call(
                    LuaCall::new2(
                        "on_opponent_sell_card",
                        LuaArg::Usize(index),
                        LuaArg::Bool(is_consumeable),
                    ),
                );
            },
            GameManipulationEvent::WaitForOpponentAction => {},
            GameManipulationEvent::CashOut => {},
            GameManipulationEvent::OpponentCashOut(_) => {},
            GameManipulationEvent::OnRematch => {
                let seed = self.seed.clone();
                self.push_call(LuaCall::new1("on_rematch", LuaArg::Text(seed)));
            },
            GameManipulationEvent::OnOpponentRematched => {
                self.push_call(LuaCall::new0("on_opponent_rematched"));
            },
            GameManipulationEvent::OnWaitingForRematchResponse => {
                self.push_call(LuaCall::new0("on_waiting_for_rematch_response"));
            },
        }
        assert(self@.lua_calls =~= calls0 + event_calls(ev, old(self)@.seed));
    }
}

/// The alignments played out together: `first` and the positions of the
/// alignments opening `rest`.
pub open spec fn merged_alignments(first: Seq<usize>, rest: Seq<GameEventView>) -> Seq<Seq<usize>> {
    seq![first] + rest.take(leading_alignments(rest) as int).map_values(
        |x: GameEventView| alignment_of(x),
    )
}

impl GameManipulation {
    /// Plays the alignment `first` of type `t` out together with the alignments
    /// right behind it in the queue, for an opponent holding `n` cards.
    fn play_alignments(&mut self, first: Vec<usize>, t: String, n: usize)
        ensures
            ({
                let rest = old(self)@.queue;
                let k = leading_alignments(rest);
                let aligns = merged_alignments(first@, rest);
                if !all_within(aligns, n as nat) {
                    final(self)@ == (GameManipulationView {
                        queue: aligns.map_values(
                            |al: Seq<usize>| GameEventView::NewHandCardsAlignement(al, t@),
                        ) + rest.skip(k as int),
                        ..old(self)@
                    })
                } else {
                    final(self)@ == (GameManipulationView {
                        queue: rest.skip(k as int),
                        ..old(self)@
                    }).with_call(
                        lua_call(
                            "on_opponent_new_card_alignement"@,
                            seq![LuaArgView::Indices(cards_update(n as nat, aligns)), text_arg(t@)],
                        ),
                    )
                }
            }),
    {
        let ghost rest = self@.queue;
        let ghost first_view = first@;
        let mut aligns: Vec<Vec<usize>> = Vec::new();
        aligns.push(first);
        let ghost mut taken: nat = 0;
        let mut done = false;
        assert(alignments_view(aligns@) =~= seq![first_view] + rest.take(0).map_values(
            |x: GameEventView| alignment_of(x),
        ));
        assert(rest.skip(0) =~= rest);
        while !done
            invariant
                taken <= rest.len(),
                forall|i: int| 0 <= i < taken ==> rest[i] is NewHandCardsAlignement,
                events_view(self.event_queue@) == rest.skip(taken as int),
                alignments_view(aligns@) == seq![first_view] + rest.take(taken as int).map_values(
                    |x: GameEventView| alignment_of(x),
                ),
                done ==> (taken == rest.len() || !(rest[taken as int] is NewHandCardsAlignement)),
                self@ == (GameManipulationView { queue: self@.queue, ..old(self)@ }),
            decreases rest.len() - taken + (if done {
                0int
            } else {
                1int
            }),
        {
            let ghost q_before = self.event_queue@;
            assert(events_view(q_before).len() == rest.len() - taken);
            proof {
                if q_before.len() > 0 {
                    assert(events_view(q_before)[0] == rest.skip(taken as int)[0]);
                    assert(rest.skip(taken as int)[0] == rest[taken as int]);
                }
            }
            match self.event_queue.pop_front() {
                None => {
                    done = true;
                },
                Some(GameManipulationEvent::NewHandCardsAlignement(al, other_type)) => {
                    let ghost alv = al@;
                    let ghost ov = other_type@;
                    assert(rest[taken as int] == GameEventView::NewHandCardsAlignement(alv, ov));
                    let ghost av_before = alignments_view(aligns@);
                    aligns.push(al);
                    assert(alignments_view(aligns@) =~= av_before.push(alv));
                    assert(rest.take((taken + 1) as int) =~= rest.take(taken as int).push(rest[taken as int]));
                    assert(rest.take((taken + 1) as int).map_values(|x: GameEventView| alignment_of(x))
                        =~= rest.take(taken as int).map_values(|x: GameEventView| alignment_of(x)).push(alv));
                    assert forall|i: int| 0 <= i < rest.len() - taken - 1 implies events_view(
                        self.event_queue@,
                    )[i] == rest.skip((taken + 1) as int)[i] by {
                        assert(self.event_queue@[i] == q_before[i + 1]);
                        assert(events_view(q_before)[i + 1] == rest.skip(taken as int)[i + 1]);
                    }
                    assert(events_view(self.event_queue@) =~= rest.skip((taken + 1) as int));
                    proof {
                        taken = taken + 1;
                    }
                },
                Some(other) => {
                    assert(other@ == rest[taken as int]);
                    self.event_queue.push_front(other);
                    assert(self.event_queue@ =~= q_before);
                    done = true;
                },
            }
        }
        proof {
            lemma_leading_alignments(rest, taken);
        }
        let ghost aligns_view = merged_alignments(first_view, rest);
        assert(alignments_view(aligns@) == aligns_view);
        if !alignments_within(&aligns, n) {
            let mut i = aligns.len();
            let ghost tail = rest.skip(taken as int);
            let ghost requeued = aligns_view.map_values(
                |al: Seq<usize>| GameEventView::NewHandCardsAlignement(al, t@),
            );
            assert(requeued.skip(aligns.len() as int) + tail =~= tail);
            while i > 0
                invariant
                    i <= aligns.len(),
                    aligns_view == alignments_view(aligns@),
                    requeued == aligns_view.map_values(
                        |al: Seq<usize>| GameEventView::NewHandCardsAlignement(al, t@),
                    ),
                    events_view(self.event_queue@) == requeued.skip(i as int) + tail,
                    self@ == (GameManipulationView { queue: self@.queue, ..old(self)@ }),
                decreases i,
            {
                i = i - 1;
                let al = duplicate_indices(&aligns[i]);
                let ghost q_before = self.event_queue@;
                let ev = GameManipulationEvent::NewHandCardsAlignement(al, t.clone());
                assert(ev@ == requeued[i as int]);
                self.event_queue.push_front(ev);
                assert(events_view(self.event_queue@) =~= seq![requeued[i as int]] + events_view(
                    q_before,
                ));
                assert(requeued.skip(i as int) =~= seq![requeued[i as int]] + requeued.skip(i + 1));
            }
            assert(requeued.skip(0) =~= requeued);
        } else {
            let cards = GameManipulation::get_cards_alignements_update(&aligns, n);
            self.push_call(
                LuaCall::new2(
                    "on_opponent_new_card_alignement",
                    LuaArg::Indices(cards),
                    LuaArg::Text(t),
                ),
            );
        }
    }

    /// Plays out the next event, unless the game is waiting for an
    /// acknowledgement or the player is shopping. `opponent_length` is the
    /// opponent's card count for the side that the next event is about, when it
    /// is an alignment (see `pending_length_query`), and is not read otherwise.
    pub fn process_events(&mut self, opponent_length: usize)
        requires
            old(self)@.front_type_known(),
        ensures
            final(self)@ == old(self)@.processed(opponent_length as nat),
    {
        if self.is_ack_needed || self.is_player_shopping {
            return;
        }
        let ghost q = self@.queue;
        let ghost q_exec = self.event_queue@;
        match self.event_queue.pop_front() {
            None => {},
            Some(event) => {
                assert(events_view(self.event_queue@) =~= q.drop_first());
                assert(event@ == q[0]);
                if event.needs_acknowledge() {
                    self.is_ack_needed = true;
                }
                match event {
                    GameManipulationEvent::NewHandCardsAlignement(first, t) => {
                        self.play_alignments(first, t, opponent_length);
                    },
                    GameManipulationEvent::DiscardedHandCards => {
                        self.is_timer_ack_needed = true;
                        self.play_event(GameManipulationEvent::DiscardedHandCards);
                    },
                    other => {
                        self.play_event(other);
                    },
                }
            },
        }
    }
}

/// The Lua function giving the card count for an alignment of type `t`.
pub fn length_query_name(t: &str) -> (r: Option<&'static str>)
    ensures
        match r {
            Some(name) => length_query_of(t@) == Some(name@),
            None => length_query_of(t@) is None,
        },
{
    if str_eq(t, "hand") {
        Some("get_opponent_hand_length")
    } else if str_eq(t, "jokers") {
        Some("get_opponent_jokers_length")
    } else if str_eq(t, "consumeables") {
        Some("get_opponent_consumeables_length")
    } else {
        None
    }
}

/// While the game has not acknowledged the event it plays out, playing out
/// events changes nothing.
pub proof fn lemma_waiting_blocks_processing(g: GameManipulationView, n: nat)
    requires
        g.is_ack_needed,
    ensures
        g.processed(n) == g,
{
}

/// While the player is in the shop, playing out events changes nothing.
pub proof fn lemma_shopping_blocks_processing(g: GameManipulationView, n: nat)
    requires
        g.is_player_shopping,
    ensures
        g.processed(n) == g,
{
}

/// An event with a long animation, once played out, makes the game wait
/// for its acknowledgement; any other event leaves nothing to acknowledge.
pub proof fn lemma_processing_sets_wait(g: GameManipulationView, n: nat)
    requires
        g.ready(),
    ensures
        g.processed(n).is_ack_needed == needs_acknowledge(g.queue[0]),
{
}

/// Events are played out in the order they were registered: playing out one
/// that is no alignment removes exactly the front of the queue.
pub proof fn lemma_processing_pops_front(g: GameManipulationView, n: nat)
    requires
        g.ready(),
        !(g.queue[0] is NewHandCardsAlignement),
    ensures
        g.processed(n).queue == g.queue.drop_first(),
{
}

/// After the game acknowledges, nothing is left to acknowledge, and the
/// queue is untouched.
pub proof fn lemma_acknowledged_clears_wait(g: GameManipulationView)
    ensures
        !g.acknowledged().is_ack_needed,
        g.acknowledged().queue == g.queue,
{
}

/// Playing out an event calls the Lua function of that event, by its name,
/// with the event's data as arguments; the events that show nothing call
/// nothing. (Alignments are played out together, apart.)
pub proof fn lemma_events_call_their_own_functions(g: GameManipulationView, n: nat)
    requires
        g.ready(),
        !(g.queue[0] is NewHandCardsAlignement),
    ensures
        g.processed(n).lua_calls == match g.queue[0] {
            GameEventView::OnRandomMatchmakingSelected => g.lua_calls.push(
                lua_call("on_random_search"@, seq![]),
            ),
            GameEventView::OnRandomFound => g.lua_calls.push(lua_call("on_random_found"@, seq![])),
            GameEventView::OnAcceptedRandomMath => g.lua_calls.push(
                lua_call("on_random_start"@, seq![LuaArgView::Text(g.seed)]),
            ),
            GameEventView::OpponentDisconnectedBeforeConfirm => g.lua_calls.push(
                lua_call("on_opponent_disconnected_from_found"@, seq![]),
            ),
            GameEventView::OpponentHighlightedCard => g.lua_calls.push(
                lua_call("on_opponent_highlighted_card"@, seq![]),
            ),
            GameEventView::PlayTurn(cards) => g.lua_calls.push(
                lua_call("on_play_turn"@, seq![LuaArgView::Indices(cards)]),
            ),
            GameEventView::SortedHandSuitCards => g.lua_calls.push(
                lua_call("on_opponent_sort_hand_suit"@, seq![]),
            ),
            GameEventView::SortedHandValueCards => g.lua_calls.push(
                lua_call("on_opponent_sort_hand_value"@, seq![]),
            ),
            GameEventView::OpponentDiscardedHandCards(cards) => g.lua_calls.push(
                lua_call("on_opponent_discarded_cards"@, seq![LuaArgView::Indices(cards)]),
            ),
            GameEventView::DiscardedHandCards => g.lua_calls.push(lua_call("on_pause_timer"@, seq![])),
            GameEventView::EmplaceOpponentCard(c) => g.lua_calls.push(
                lua_call("on_opponent_new_card"@, seq![LuaArgView::Card(c)]),
            ),
            GameEventView::ProcessRemainingEvents => g.lua_calls.push(
                lua_call("on_processed_remaining_events"@, seq![]),
            ),
            GameEventView::EndShopAndStartNewRound => g.lua_calls.push(
                lua_call("on_update_message"@, seq![LuaArgView::Text(""@)]),
            ).push(lua_call("on_end_shop"@, seq![])),
            GameEventView::UsedConsumeableCard(i, area, cards, targets) => g.lua_calls.push(
                lua_call(
                    "on_opponent_use_consumeable_card"@,
                    seq![
                        LuaArgView::Usize(i),
                        LuaArgView::Bool(area == AreaType::Consumeables),
                        LuaArgView::Indices(cards),
                        LuaArgView::Cards(targets),
                    ],
                ),
            ),
            GameEventView::UsedVoucherCard(c) => g.lua_calls.push(
                lua_call("on_opponent_use_voucher_card"@, seq![LuaArgView::Card(c)]),
            ),
            GameEventView::OpenBooster(c, shop) => g.lua_calls.push(
                lua_call("on_opponent_open_booster"@, seq![LuaArgView::Card(c), LuaArgView::Cards(shop)]),
            ),
            GameEventView::OnRTTUpdated(rtt) => g.lua_calls.push(
                lua_call("on_rtt_updated"@, seq![LuaArgView::Usize(rtt)]),
            ),
            GameEventView::HighlightedBoosterCard(cards, sel) => g.lua_calls.push(
                lua_call(
                    "on_highlighted_booster_card"@,
                    seq![LuaArgView::Indices(cards), LuaArgView::OptCard(sel)],
                ),
            ),
            GameEventView::RerollShop => g.lua_calls.push(lua_call("on_opponent_reroll_shop"@, seq![])),
            GameEventView::BoughtCard(c, id) => g.lua_calls.push(
                lua_call("on_opponent_bought_card"@, seq![LuaArgView::Card(c), LuaArgView::Text(id)]),
            ),
            GameEventView::SellCard(i, b) => g.lua_calls.push(
                lua_call("on_opponent_sell_card"@, seq![LuaArgView::Usize(i), LuaArgView::Bool(b)]),
            ),
            GameEventView::OnRematch => g.lua_calls.push(
                lua_call("on_rematch"@, seq![LuaArgView::Text(g.seed)]),
            ),
            GameEventView::OnOpponentRematched => g.lua_calls.push(
                lua_call("on_opponent_rematched"@, seq![]),
            ),
            GameEventView::OnWaitingForRematchResponse => g.lua_calls.push(
                lua_call("on_waiting_for_rematch_response"@, seq![]),
            ),
            _ => g.lua_calls,
        },
{
    let e = g.queue[0];
    let calls = event_calls(e, g.seed);
    assert(g.processed(n).lua_calls == g.lua_calls + calls);
    if calls.len() == 1 {
        assert(g.lua_calls + calls =~= g.lua_calls.push(calls[0]));
    } else if calls.len() == 2 {
        assert(g.lua_calls + calls =~= g.lua_calls.push(calls[0]).push(calls[1]));
    } else {
        assert(g.lua_calls + calls =~= g.lua_calls);
    }
}

/// Whatever the cards and the alignment, the card at the alignment's first
/// position ends at its last: each window moves it one step on. Positions
/// count from 1 and must lie among the cards.
pub proof fn lemma_alignment_moves_the_first_card_to_the_last_position(
    cards: Seq<usize>,
    al: Seq<usize>,
)
    requires
        al.len() >= 2,
        forall|k: int| 0 <= k < al.len() ==> 1 <= #[trigger] al[k] <= cards.len(),
    ensures
        apply_alignment(cards, al)[al[al.len() - 1] - 1] == cards[al[0] - 1],
{
    lemma_windows_carry_the_first_card(cards, al, (al.len() - 1) as nat);
}

/// After `w` windows, the card from the alignment's first position is at
/// its position `w`.
proof fn lemma_windows_carry_the_first_card(cards: Seq<usize>, al: Seq<usize>, w: nat)
    requires
        w < al.len(),
        forall|k: int| 0 <= k < al.len() ==> 1 <= #[trigger] al[k] <= cards.len(),
    ensures
        apply_windows(cards, al, w)[al[w as int] - 1] == cards[al[0] - 1],
    decreases w,
{
    if w > 0 {
        lemma_windows_carry_the_first_card(cards, al, (w - 1) as nat);
        lemma_apply_windows_keeps_cards(cards, al, (w - 1) as nat);
        let prev = apply_windows(cards, al, (w - 1) as nat);
        let a = al[w - 1];
        let b = al[w as int];
        assert(1 <= a <= cards.len());
        assert(1 <= b <= cards.len());
        assert(sat_pred(a) == a - 1);
        assert(sat_pred(b) == b - 1);
        assert(swap_step(prev, a, b)[b - 1] == prev[a - 1]);
    }
}

/// From the opponent's cards `1..=n` in order, one alignment whose positions
/// lie among them puts the card of its first position at its last: the
/// alignment `[1, 2, ..., m]` moves card 1 to position `m`.
pub proof fn lemma_cards_update_moves_the_aligned_card(n: nat, al: Seq<usize>)
    requires
        al.len() >= 2,
        forall|k: int| 0 <= k < al.len() ==> 1 <= #[trigger] al[k] <= n,
    ensures
        cards_update(n, seq![al])[al[al.len() - 1] - 1] == al[0],
{
    let init = initial_cards(n);
    lemma_alignment_moves_the_first_card_to_the_last_position(init, al);
    assert(apply_alignments(init, seq![al], 0) == init);
    assert(cards_update(n, seq![al]) == apply_alignment(init, al));
    assert(init[al[0] - 1] == al[0]);
}

/// Alignments are applied one after another: the order after the
/// alignments `aligns` and then `al` is the order after `aligns`, with `al`
/// applied to it.
pub proof fn lemma_alignments_apply_in_turn(n: nat, aligns: Seq<Seq<usize>>, al: Seq<usize>)
    ensures
        cards_update(n, aligns.push(al)) == apply_alignment(cards_update(n, aligns), al),
{
    lemma_prefix_alignments(initial_cards(n), aligns, al, aligns.len());
}

/// The first `k` alignments of `aligns` followed by `al` are the first `k` of `aligns`.
proof fn lemma_prefix_alignments(cards: Seq<usize>, aligns: Seq<Seq<usize>>, al: Seq<usize>, k: nat)
    requires
        k <= aligns.len(),
    ensures
        apply_alignments(cards, aligns.push(al), k) == apply_alignments(cards, aligns, k),
    decreases k,
{
    if k > 0 {
        lemma_prefix_alignments(cards, aligns, al, (k - 1) as nat);
        assert(aligns.push(al)[k - 1] == aligns[k - 1]);
    }
}

} // verus!
