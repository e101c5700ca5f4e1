//! The native functions as one call: which module function each name runs,
//! and what it answers the game.
use vstd::prelude::*;

use crate::card_conf::{CardConf, CardConfView};
use crate::game_event::GameEventView;
use crate::game_manipulation::GameManipulationView;
use crate::lua_call::{cards_view, opt_card_view};
use crate::modules::{
    area_of_name, checked_for_update, unknown_area_error, Modules, ModulesView,
    UpdaterCommandView,
};
use crate::network::{
    confirmed, highlighted, paired, quit, rematched, started_friendlies, started_matchmaking,
    waited_before, NetworkView,
};
use crate::network_state::{NetworkEventView, NetworkStateView};

verus! {

/// A call of a native function, with its arguments.
#[derive(Debug)]
pub enum NativeCall {
    UpdaterGetAndUpdateLastVersion,
    UpdaterCheckForUpdate,
    UpdaterUpdate,
    UpdaterShouldUpdate,
    UpdaterIsThunderstoreBuild,
    UpdaterGetLastVersion,
    NetworkStartMatchmaking,
    NetworkStartVersusFriendlies,
    NetworkStartVersusFriendliesPairing(String),
    NetworkQuitMatchmaking,
    NetworkConfirmVersusMatchmaking,
    NetworkSendHighlightedCard(Vec<usize>),
    NetworkWaitForNextAction,
    NetworkSendToOpponentNewCardsAlignement(Vec<usize>, String),
    NetworkPlayerSortHandSuit,
    NetworkPlayerSortHandValue,
    NetworkPlayerDiscardedCards(Vec<usize>),
    NetworkHasOpponentHighlithedCards,
    GameManipulationAcknowledgeEvent,
    GameManipulationStartPlayerShop,
    NetworkSendNewCard(CardConf),
    NetworkWaitForOpponentActionOnEndShop,
    NetworkWaitForOpponentActionOnEndShopAfterEvents,
    NetworkPlayerUseConsumeableCard(usize, String, Vec<usize>, Vec<CardConf>),
    NetworkPlayerUseVoucherCard(CardConf),
    NetworkSendOpenBooster(CardConf, Vec<CardConf>),
    NetworkPlayerSkipBooster,
    NetworkSendNewCardFromBooster(usize, Option<CardConf>),
    NetworkSendRerollShop,
    NetworkSendBoughtCard(CardConf, String),
    NetworkSendSellCard(usize, bool),
    NetworkSendCashOut(i32, bool),
    NetworkRematch,
}

/// The value of a call.
pub enum NativeCallView {
    UpdaterGetAndUpdateLastVersion,
    UpdaterCheckForUpdate,
    UpdaterUpdate,
    UpdaterShouldUpdate,
    UpdaterIsThunderstoreBuild,
    UpdaterGetLastVersion,
    NetworkStartMatchmaking,
    NetworkStartVersusFriendlies,
    NetworkStartVersusFriendliesPairing(Seq<char>),
    NetworkQuitMatchmaking,
    NetworkConfirmVersusMatchmaking,
    NetworkSendHighlightedCard(Seq<usize>),
    NetworkWaitForNextAction,
    NetworkSendToOpponentNewCardsAlignement(Seq<usize>, Seq<char>),
    NetworkPlayerSortHandSuit,
    NetworkPlayerSortHandValue,
    NetworkPlayerDiscardedCards(Seq<usize>),
    NetworkHasOpponentHighlithedCards,
    GameManipulationAcknowledgeEvent,
    GameManipulationStartPlayerShop,
    NetworkSendNewCard(CardConfView),
    NetworkWaitForOpponentActionOnEndShop,
    NetworkWaitForOpponentActionOnEndShopAfterEvents,
    NetworkPlayerUseConsumeableCard(usize, Seq<char>, Seq<usize>, Seq<CardConfView>),
    NetworkPlayerUseVoucherCard(CardConfView),
    NetworkSendOpenBooster(CardConfView, Seq<CardConfView>),
    NetworkPlayerSkipBooster,
    NetworkSendNewCardFromBooster(usize, Option<CardConfView>),
    NetworkSendRerollShop,
    NetworkSendBoughtCard(CardConfView, Seq<char>),
    NetworkSendSellCard(usize, bool),
    NetworkSendCashOut(i32, bool),
    NetworkRematch,
}

impl View for NativeCall {
    type V = NativeCallView;

    open spec fn view(&self) -> NativeCallView {
        match self {
            NativeCall::UpdaterGetAndUpdateLastVersion => NativeCallView::UpdaterGetAndUpdateLastVersion,
            NativeCall::UpdaterCheckForUpdate => NativeCallView::UpdaterCheckForUpdate,
            NativeCall::UpdaterUpdate => NativeCallView::UpdaterUpdate,
            NativeCall::UpdaterShouldUpdate => NativeCallView::UpdaterShouldUpdate,
            NativeCall::UpdaterIsThunderstoreBuild => NativeCallView::UpdaterIsThunderstoreBuild,
            NativeCall::UpdaterGetLastVersion => NativeCallView::UpdaterGetLastVersion,
            NativeCall::NetworkStartMatchmaking => NativeCallView::NetworkStartMatchmaking,
            NativeCall::NetworkStartVersusFriendlies => NativeCallView::NetworkStartVersusFriendlies,
            NativeCall::NetworkStartVersusFriendliesPairing(room) => {
                NativeCallView::NetworkStartVersusFriendliesPairing(room@)
            },
            NativeCall::NetworkQuitMatchmaking => NativeCallView::NetworkQuitMatchmaking,
            NativeCall::NetworkConfirmVersusMatchmaking => NativeCallView::NetworkConfirmVersusMatchmaking,
            NativeCall::NetworkSendHighlightedCard(c) => NativeCallView::NetworkSendHighlightedCard(c@),
            NativeCall::NetworkWaitForNextAction => NativeCallView::NetworkWaitForNextAction,
            NativeCall::NetworkSendToOpponentNewCardsAlignement(a, t) => {
                NativeCallView::NetworkSendToOpponentNewCardsAlignement(a@, t@)
            },
            NativeCall::NetworkPlayerSortHandSuit => NativeCallView::NetworkPlayerSortHandSuit,
            NativeCall::NetworkPlayerSortHandValue => NativeCallView::NetworkPlayerSortHandValue,
            NativeCall::NetworkPlayerDiscardedCards(c) => NativeCallView::NetworkPlayerDiscardedCards(c@),
            NativeCall::NetworkHasOpponentHighlithedCards => {
                NativeCallView::NetworkHasOpponentHighlithedCards
            },
            NativeCall::GameManipulationAcknowledgeEvent => {
                NativeCallView::GameManipulationAcknowledgeEvent
            },
            NativeCall::GameManipulationStartPlayerShop => NativeCallView::GameManipulationStartPlayerShop,
            NativeCall::NetworkSendNewCard(c) => NativeCallView::NetworkSendNewCard(c@),
            NativeCall::NetworkWaitForOpponentActionOnEndShop => {
                NativeCallView::NetworkWaitForOpponentActionOnEndShop
            },
            NativeCall::NetworkWaitForOpponentActionOnEndShopAfterEvents => {
                NativeCallView::NetworkWaitForOpponentActionOnEndShopAfterEvents
            },
            NativeCall::NetworkPlayerUseConsumeableCard(i, a, c, t) => {
                NativeCallView::NetworkPlayerUseConsumeableCard(*i, a@, c@, cards_view(t@))
            },
            NativeCall::NetworkPlayerUseVoucherCard(c) => NativeCallView::NetworkPlayerUseVoucherCard(c@),
            NativeCall::NetworkSendOpenBooster(c, s) => {
                NativeCallView::NetworkSendOpenBooster(c@, cards_view(s@))
            },
            NativeCall::NetworkPlayerSkipBooster => NativeCallView::NetworkPlayerSkipBooster,
            NativeCall::NetworkSendNewCardFromBooster(i, o) => {
                NativeCallView::NetworkSendNewCardFromBooster(*i, opt_card_view(*o))
            },
            NativeCall::NetworkSendRerollShop => NativeCallView::NetworkSendRerollShop,
            NativeCall::NetworkSendBoughtCard(c, id) => NativeCallView::NetworkSendBoughtCard(c@, id@),
            NativeCall::NetworkSendSellCard(i, b) => NativeCallView::NetworkSendSellCard(*i, *b),
            NativeCall::NetworkSendCashOut(n, e) => NativeCallView::NetworkSendCashOut(*n, *e),
            NativeCall::NetworkRematch => NativeCallView::NetworkRematch,
        }
    }
}

/// A value a native function answers.
#[derive(Debug, PartialEq, Eq)]
pub enum NativeValue {
    Bool(bool),
    Text(String),
}

/// The value of an answer.
pub enum NativeValueView {
    Bool(bool),
    Text(Seq<char>),
}

impl View for NativeValue {
    type V = NativeValueView;

    open spec fn view(&self) -> NativeValueView {
        match self {
            NativeValue::Bool(b) => NativeValueView::Bool(*b),
            NativeValue::Text(t) => NativeValueView::Text(t@),
        }
    }
}

/// What the outside world tells a call: whether a connection exists, the
/// clock (nanoseconds after the Unix epoch), and whether auto-update is off.
#[derive(Debug, Clone, Copy)]
pub struct CallContext {
    pub socket_present: bool,
    pub now: i128,
    pub auto_update_disabled: bool,
}

/// The values of an answer, or its error.
pub open spec fn reply_view(r: Result<Vec<NativeValue>, String>) -> Result<Seq<NativeValueView>, Seq<char>> {
    match r {
        Ok(v) => Ok(v@.map_values(|x: NativeValue| x@)),
        Err(e) => Err(e@),
    }
}

/// Success with the values `v`, or failure with the error `error`, as `ok` says.
pub open spec fn answered(
    ok: bool,
    v: Seq<NativeValueView>,
    error: Seq<char>,
    r: Result<Seq<NativeValueView>, Seq<char>>,
) -> bool {
    if ok {
        r == Ok::<Seq<NativeValueView>, Seq<char>>(v)
    } else {
        r == Err::<Seq<NativeValueView>, Seq<char>>(error)
    }
}

/// No values.
pub open spec fn nothing() -> Seq<NativeValueView> {
    Seq::empty()
}

/// One truth value.
pub open spec fn flag(b: bool) -> Seq<NativeValueView> {
    seq![NativeValueView::Bool(b)]
}

/// The modules `m` with the message `e` sent, as far as there is an opponent.
pub open spec fn with_sent(m: ModulesView, e: NetworkEventView) -> ModulesView {
    m.with_network(m.network.sent(e))
}

/// What a native call does: from the modules `m`, the call `c` in the
/// context `ctx` leads to the modules `n` and answers `r`.
pub open spec fn native_step(
    m: ModulesView,
    c: NativeCallView,
    ctx: CallContext,
    n: ModulesView,
    r: Result<Seq<NativeValueView>, Seq<char>>,
) -> bool {
    let has = m.network.opponent is Some;
    let ok = Ok::<Seq<NativeValueView>, Seq<char>>(nothing());
    match c {
        NativeCallView::UpdaterGetAndUpdateLastVersion => r == ok && n == if ctx.auto_update_disabled {
            m
        } else {
            m.with_updater_command(UpdaterCommandView::FetchLastVersion(m.updater.repository_url))
        },
        NativeCallView::UpdaterCheckForUpdate => if ctx.auto_update_disabled {
            n == m && r == Ok::<Seq<NativeValueView>, Seq<char>>(flag(true))
        } else if m.updater.is_updating {
            n == m && r == Ok::<Seq<NativeValueView>, Seq<char>>(flag(false))
        } else {
            let (m2, b) = checked_for_update(m);
            n == m2 && r == Ok::<Seq<NativeValueView>, Seq<char>>(flag(b))
        },
        NativeCallView::UpdaterUpdate => r == ok && n == if m.thunderstore_build {
            m
        } else {
            m.with_updater_command(UpdaterCommandView::Install)
        },
        NativeCallView::UpdaterShouldUpdate => n == m && r == Ok::<Seq<NativeValueView>, Seq<char>>(
            flag(m.updater.should_update),
        ),
        NativeCallView::UpdaterIsThunderstoreBuild => n == m && r == Ok::<
            Seq<NativeValueView>,
            Seq<char>,
        >(flag(m.thunderstore_build)),
        NativeCallView::UpdaterGetLastVersion => n == m && r == Ok::<Seq<NativeValueView>, Seq<char>>(
            seq![NativeValueView::Text(m.updater.last_version)],
        ),
        NativeCallView::NetworkStartMatchmaking => {
            &&& n == m.with_match(n.network, n.game_manipulation)
            &&& r is Ok
            &&& r->Ok_0.len() == 1
            &&& r->Ok_0[0] is Bool
            &&& started_matchmaking(
                m.network,
                m.game_manipulation,
                ctx.socket_present,
                m.config.server,
                ctx.now,
                n.network,
                n.game_manipulation,
                r->Ok_0[0]->Bool_0,
            )
        },
        NativeCallView::NetworkStartVersusFriendlies => {
            let code = n.network.friendly_room_code;
            &&& n == m.with_network(n.network)
            &&& started_friendlies(m.network, ctx.socket_present, m.config.server, ctx.now, n.network, code)
            &&& answered(
                code.len() > 0,
                seq![NativeValueView::Text(code)],
                "Failed to start versus friendlies"@,
                r,
            )
        },
        NativeCallView::NetworkStartVersusFriendliesPairing(room) => {
            &&& n == m.with_network(paired(m.network, room, ctx.socket_present, m.config.server, ctx.now))
            &&& r == Ok::<Seq<NativeValueView>, Seq<char>>(flag(true))
        },
        NativeCallView::NetworkQuitMatchmaking => {
            &&& n == m.with_network(quit(m.network, ctx.socket_present))
            &&& r == Ok::<Seq<NativeValueView>, Seq<char>>(flag(ctx.socket_present))
        },
        NativeCallView::NetworkConfirmVersusMatchmaking => {
            let (n2, g2) = confirmed(m.network, m.game_manipulation);
            &&& n == m.with_match(n2, g2)
            &&& answered(has, flag(true), "Failed to confirm versus matchmaking"@, r)
        },
        NativeCallView::NetworkSendHighlightedCard(cards) => {
            let (n2, g2) = highlighted(m.network, m.game_manipulation, cards);
            &&& n == m.with_match(n2, g2)
            &&& answered(has, flag(true), "Failed to send highlighted card"@, r)
        },
        NativeCallView::NetworkWaitForNextAction => r == ok && n == m.with_network(
            m.network.with_state(NetworkStateView::WaitForUserAction),
        ),
        NativeCallView::NetworkSendToOpponentNewCardsAlignement(a, t) => r == ok && n == with_sent(
            m,
            NetworkEventView::NewCardAlignement(a, t),
        ),
        NativeCallView::NetworkPlayerSortHandSuit => r == ok && n == with_sent(
            m,
            NetworkEventView::SortedHandSuit,
        ),
        NativeCallView::NetworkPlayerSortHandValue => r == ok && n == with_sent(
            m,
            NetworkEventView::SortedHandValue,
        ),
        NativeCallView::NetworkPlayerDiscardedCards(cards) => r == ok && n == m.with_match(
            m.network.sent(NetworkEventView::DiscardedCards(cards)),
            if has {
                m.game_manipulation.registered(GameEventView::DiscardedHandCards)
            } else {
                m.game_manipulation
            },
        ),
        NativeCallView::NetworkHasOpponentHighlithedCards => n == m && r == Ok::<
            Seq<NativeValueView>,
            Seq<char>,
        >(flag(m.network.state is OpponentHighlighted)),
        NativeCallView::GameManipulationAcknowledgeEvent => r == ok && n == m.with_game(
            m.game_manipulation.acknowledged(),
        ),
        NativeCallView::GameManipulationStartPlayerShop => r == ok && n == m.with_game(
            GameManipulationView { is_player_shopping: true, ..m.game_manipulation },
        ),
        NativeCallView::NetworkSendNewCard(card) => r == ok && n == with_sent(
            m,
            NetworkEventView::NewCardToEmplace(card),
        ),
        NativeCallView::NetworkWaitForOpponentActionOnEndShop => {
            let (n2, g2) = waited_before(
                m.network,
                m.game_manipulation,
                GameEventView::ProcessRemainingEvents,
            );
            r == ok && n == m.with_match(n2, g2.registered(GameEventView::WaitForOpponentAction))
        },
        NativeCallView::NetworkWaitForOpponentActionOnEndShopAfterEvents => {
            let (n2, g2) = waited_before(
                m.network,
                m.game_manipulation,
                GameEventView::EndShopAndStartNewRound,
            );
            r == ok && n == m.with_match(n2, g2)
        },
        NativeCallView::NetworkPlayerUseConsumeableCard(i, area_name, cards, targets) => match area_of_name(
            area_name,
        ) {
            None => n == m && r == Err::<Seq<NativeValueView>, Seq<char>>(unknown_area_error(area_name)),
            Some(area) => {
                &&& n == with_sent(m, NetworkEventView::UsedConsumeableCard(i, area, cards, targets))
                &&& answered(has, nothing(), "Failed to use consumeable card"@, r)
            },
        },
        NativeCallView::NetworkPlayerUseVoucherCard(card) => {
            &&& n == with_sent(m, NetworkEventView::VoucherUsed(card))
            &&& answered(has, nothing(), "Failed to use voucher card"@, r)
        },
        NativeCallView::NetworkSendOpenBooster(card, shop) => {
            &&& n == with_sent(m, NetworkEventView::OpenBooster(card, shop))
            &&& answered(has, nothing(), "Failed to send open booster"@, r)
        },
        NativeCallView::NetworkPlayerSkipBooster => {
            &&& n == with_sent(m, NetworkEventView::HighlightedBoosterCard(seq![], None))
            &&& answered(has, nothing(), "Failed to skip booster"@, r)
        },
        NativeCallView::NetworkSendNewCardFromBooster(i, selected) => {
            &&& n == with_sent(m, NetworkEventView::HighlightedBoosterCard(seq![i], selected))
            &&& answered(has, nothing(), "Failed to send new card from booster"@, r)
        },
        NativeCallView::NetworkSendRerollShop => {
            &&& n == with_sent(m, NetworkEventView::RerollShop)
            &&& answered(has, nothing(), "Failed to send reroll shop"@, r)
        },
        NativeCallView::NetworkSendBoughtCard(card, id) => {
            &&& n == with_sent(m, NetworkEventView::BoughtCard(card, id))
            &&& answered(has, nothing(), "Failed to send bought card"@, r)
        },
        NativeCallView::NetworkSendSellCard(i, is_consumeable) => {
            &&& n == with_sent(m, NetworkEventView::SellCard(i, is_consumeable))
            &&& answered(has, nothing(), "Failed to send sell card"@, r)
        },
        NativeCallView::NetworkSendCashOut(amount, is_ending_shop) => {
            &&& n == m.with_match(
                m.network.sent(NetworkEventView::Cashout(amount)),
                if has && !is_ending_shop {
                    m.game_manipulation.registered(GameEventView::CashOut)
                } else {
                    m.game_manipulation
                },
            )
            &&& answered(has, nothing(), "Failed to send cash out"@, r)
        },
        NativeCallView::NetworkRematch => {
            &&& n == m.with_match(n.network, n.game_manipulation)
            &&& rematched(m.network, m.game_manipulation, n.network, n.game_manipulation)
            &&& answered(has, nothing(), "Failed to send rematch request"@, r)
        },
    }
}

/// No values, as an answer.
fn none_of(r: Result<(), String>) -> (a: Result<Vec<NativeValue>, String>)
    ensures
        reply_view(a) == match r {
            Ok(()) => Ok::<Seq<NativeValueView>, Seq<char>>(nothing()),
            Err(e) => Err::<Seq<NativeValueView>, Seq<char>>(e@),
        },
{
    match r {
        Ok(()) => {
            let v: Vec<NativeValue> = Vec::new();
            assert(v@.map_values(|x: NativeValue| x@) =~= nothing());
            Ok(v)
        },
        Err(e) => Err(e),
    }
}

/// One truth value, as an answer.
fn flag_of(r: Result<bool, String>) -> (a: Result<Vec<NativeValue>, String>)
    ensures
        reply_view(a) == match r {
            Ok(b) => Ok::<Seq<NativeValueView>, Seq<char>>(flag(b)),
            Err(e) => Err::<Seq<NativeValueView>, Seq<char>>(e@),
        },
{
    match r {
        Ok(b) => {
            let mut v: Vec<NativeValue> = Vec::new();
            v.push(NativeValue::Bool(b));
            assert(v@.map_values(|x: NativeValue| x@) =~= flag(b));
            Ok(v)
        },
        Err(e) => Err(e),
    }
}

/// One text, as an answer.
fn text_of(r: Result<String, String>) -> (a: Result<Vec<NativeValue>, String>)
    ensures
        reply_view(a) == match r {
            Ok(t) => Ok::<Seq<NativeValueView>, Seq<char>>(seq![NativeValueView::Text(t@)]),
            Err(e) => Err::<Seq<NativeValueView>, Seq<char>>(e@),
        },
{
    match r {
        Ok(t) => {
            let ghost tv = t@;
            let mut v: Vec<NativeValue> = Vec::new();
            v.push(NativeValue::Text(t));
            assert(v@.map_values(|x: NativeValue| x@) =~= seq![NativeValueView::Text(tv)]);
            Ok(v)
        },
        Err(e) => Err(e),
    }
}

impl Modules {
    /// Runs the native call `call` in the context `ctx`.
    pub fn dispatch(&mut self, call: NativeCall, ctx: CallContext) -> (r: Result<
        Vec<NativeValue>,
        String,
    >)
        requires
            old(self)@.wf(),
        ensures
            final(self)@.wf(),
            native_step(old(self)@, call@, ctx, final(self)@, reply_view(r)),
    {
        match call {
            NativeCall::UpdaterGetAndUpdateLastVersion => none_of(
                self.updater_get_and_update_last_version(ctx.auto_update_disabled),
            ),
            NativeCall::UpdaterCheckForUpdate => flag_of(
                self.updater_check_for_update(ctx.auto_update_disabled),
            ),
            NativeCall::UpdaterUpdate => none_of(self.updater_update()),
            NativeCall::UpdaterShouldUpdate => flag_of(self.updater_should_update()),
            NativeCall::UpdaterIsThunderstoreBuild => flag_of(self.updater_is_thunderstore_build()),
            NativeCall::UpdaterGetLastVersion => text_of(self.updater_get_last_version()),
            NativeCall::NetworkStartMatchmaking => flag_of(
                self.network_start_matchmaking(ctx.socket_present, ctx.now),
            ),
            NativeCall::NetworkStartVersusFriendlies => text_of(
                self.network_start_versus_friendlies(ctx.socket_present, ctx.now),
            ),
            NativeCall::NetworkStartVersusFriendliesPairing(room) => flag_of(
                self.network_start_versus_friendlies_pairing(room, ctx.socket_present, ctx.now),
            ),
            NativeCall::NetworkQuitMatchmaking => flag_of(
                self.network_quit_matchmaking(ctx.socket_present),
            ),
            NativeCall::NetworkConfirmVersusMatchmaking => flag_of(
                self.network_confirm_versus_matchmaking(),
            ),
            NativeCall::NetworkSendHighlightedCard(c) => flag_of(self.network_send_highlighted_card(c)),
            NativeCall::NetworkWaitForNextAction => none_of(self.network_wait_for_next_action()),
            NativeCall::NetworkSendToOpponentNewCardsAlignement(a, t) => none_of(
                self.network_send_to_opponent_new_cards_alignement(a, t),
            ),
            NativeCall::NetworkPlayerSortHandSuit => none_of(self.network_player_sort_hand_suit()),
            NativeCall::NetworkPlayerSortHandValue => none_of(self.network_player_sort_hand_value()),
            NativeCall::NetworkPlayerDiscardedCards(c) => none_of(
                self.network_player_discarded_cards(c),
            ),
            NativeCall::NetworkHasOpponentHighlithedCards => flag_of(
                self.network_has_opponent_highlithed_cards(),
            ),
            NativeCall::GameManipulationAcknowledgeEvent => none_of(
                self.game_manipulation_acknowledge_event(),
            ),
            NativeCall::GameManipulationStartPlayerShop => none_of(
                self.game_manipulation_start_player_shop(),
            ),
            NativeCall::NetworkSendNewCard(c) => none_of(self.network_send_new_card(c)),
            NativeCall::NetworkWaitForOpponentActionOnEndShop => none_of(
                self.network_wait_for_opponent_action_on_end_shop(),
            ),
            NativeCall::NetworkWaitForOpponentActionOnEndShopAfterEvents => none_of(
                self.network_wait_for_opponent_action_on_end_shop_after_events(),
            ),
            NativeCall::NetworkPlayerUseConsumeableCard(i, a, c, t) => none_of(
                self.network_player_use_consumeable_card(i, a, c, t),
            ),
            NativeCall::NetworkPlayerUseVoucherCard(c) => none_of(
                self.network_player_use_voucher_card(c),
            ),
            NativeCall::NetworkSendOpenBooster(c, s) => none_of(self.network_send_open_booster(c, s)),
            NativeCall::NetworkPlayerSkipBooster => none_of(self.network_player_skip_booster()),
            NativeCall::NetworkSendNewCardFromBooster(i, o) => none_of(
                self.network_send_new_card_from_booster(i, o),
            ),
            NativeCall::NetworkSendRerollShop => none_of(self.network_send_reroll_shop()),
            NativeCall::NetworkSendBoughtCard(c, id) => none_of(self.network_send_bought_card(c, id)),
            NativeCall::NetworkSendSellCard(i, b) => none_of(self.network_send_sell_card(i, b)),
            NativeCall::NetworkSendCashOut(n, e) => none_of(self.network_send_cash_out(n, e)),
            NativeCall::NetworkRematch => none_of(self.network_rematch()),
        }
    }
}

} // verus!
