//! Events that the game side has to play out, in the order they arrive.
use vstd::prelude::*;

use crate::card_conf::{AreaType, CardConf, CardConfView};
use crate::lua_call::{
    cards_view, duplicate_cards, duplicate_indices, duplicate_opt_card, opt_card_view, same_cards,
    same_indices, same_opt_card,
};

verus! {

/// Something the game must show or do because of the opponent or the matchmaking.
#[derive(Debug)]
pub enum GameManipulationEvent {
    OnRandomMatchmakingSelected,
    OnRandomFound,
    OnAcceptedRandomMath,
    OpponentDisconnectedBeforeConfirm,
    OpponentDisconnectedInGame,
    OpponentHighlightedCard,
    PlayTurn(Vec<usize>),
    NewHandCardsAlignement(Vec<usize>, String),
    SortedHandSuitCards,
    SortedHandValueCards,
    OpponentDiscardedHandCards(Vec<usize>),
    DiscardedHandCards,
    EmplaceOpponentCard(CardConf),
    ProcessRemainingEvents,
    EndShopAndStartNewRound,
    UsedConsumeableCard(usize, AreaType, Vec<usize>, Vec<CardConf>),
    UsedVoucherCard(CardConf),
    OpenBooster(CardConf, Vec<CardConf>),
    OnRTTUpdated(usize),
    HighlightedBoosterCard(Vec<usize>, Option<CardConf>),
    RerollShop,
    BoughtCard(CardConf, String),
    SellCard(usize, bool),
    CashOut,
    OpponentCashOut(i32),
    WaitForOpponentAction,
    UpdateMessage(String),
    OnRematch,
    OnOpponentRematched,
    OnWaitingForRematchResponse,
}

/// The value of an event.
pub enum GameEventView {
    OnRandomMatchmakingSelected,
    OnRandomFound,
    OnAcceptedRandomMath,
    OpponentDisconnectedBeforeConfirm,
    OpponentDisconnectedInGame,
    OpponentHighlightedCard,
    PlayTurn(Seq<usize>),
    NewHandCardsAlignement(Seq<usize>, Seq<char>),
    SortedHandSuitCards,
    SortedHandValueCards,
    OpponentDiscardedHandCards(Seq<usize>),
    DiscardedHandCards,
    EmplaceOpponentCard(CardConfView),
    ProcessRemainingEvents,
    EndShopAndStartNewRound,
    UsedConsumeableCard(usize, AreaType, Seq<usize>, Seq<CardConfView>),
    UsedVoucherCard(CardConfView),
    OpenBooster(CardConfView, Seq<CardConfView>),
    OnRTTUpdated(usize),
    HighlightedBoosterCard(Seq<usize>, Option<CardConfView>),
    RerollShop,
    BoughtCard(CardConfView, Seq<char>),
    SellCard(usize, bool),
    CashOut,
    OpponentCashOut(i32),
    WaitForOpponentAction,
    UpdateMessage(Seq<char>),
    OnRematch,
    OnOpponentRematched,
    OnWaitingForRematchResponse,
}

impl View for GameManipulationEvent {
    type V = GameEventView;

    open spec fn view(&self) -> GameEventView {
        match self {
            GameManipulationEvent::OnRandomMatchmakingSelected => GameEventView::OnRandomMatchmakingSelected,
            GameManipulationEvent::OnRandomFound => GameEventView::OnRandomFound,
            GameManipulationEvent::OnAcceptedRandomMath => GameEventView::OnAcceptedRandomMath,
            GameManipulationEvent::OpponentDisconnectedBeforeConfirm => GameEventView::OpponentDisconnectedBeforeConfirm,
            GameManipulationEvent::OpponentDisconnectedInGame => GameEventView::OpponentDisconnectedInGame,
            GameManipulationEvent::OpponentHighlightedCard => GameEventView::OpponentHighlightedCard,
            GameManipulationEvent::PlayTurn(v) => GameEventView::PlayTurn(v@),
            GameManipulationEvent::NewHandCardsAlignement(v, t) => GameEventView::NewHandCardsAlignement(v@, t@),
            GameManipulationEvent::SortedHandSuitCards => GameEventView::SortedHandSuitCards,
            GameManipulationEvent::SortedHandValueCards => GameEventView::SortedHandValueCards,
            GameManipulationEvent::OpponentDiscardedHandCards(v) => GameEventView::OpponentDiscardedHandCards(v@),
            GameManipulationEvent::DiscardedHandCards => GameEventView::DiscardedHandCards,
            GameManipulationEvent::EmplaceOpponentCard(c) => GameEventView::EmplaceOpponentCard(c@),
            GameManipulationEvent::ProcessRemainingEvents => GameEventView::ProcessRemainingEvents,
            GameManipulationEvent::EndShopAndStartNewRound => GameEventView::EndShopAndStartNewRound,
            GameManipulationEvent::UsedConsumeableCard(i, a, v, t) => GameEventView::UsedConsumeableCard(
                *i,
                *a,
                v@,
                cards_view(t@),
            ),
            GameManipulationEvent::UsedVoucherCard(c) => GameEventView::UsedVoucherCard(c@),
            GameManipulationEvent::OpenBooster(c, v) => GameEventView::OpenBooster(c@, cards_view(v@)),
            GameManipulationEvent::OnRTTUpdated(n) => GameEventView::OnRTTUpdated(*n),
            GameManipulationEvent::HighlightedBoosterCard(v, o) => GameEventView::HighlightedBoosterCard(
                v@,
                opt_card_view(*o),
            ),
            GameManipulationEvent::RerollShop => GameEventView::RerollShop,
            GameManipulationEvent::BoughtCard(c, s) => GameEventView::BoughtCard(c@, s@),
            GameManipulationEvent::SellCard(i, b) => GameEventView::SellCard(*i, *b),
            GameManipulationEvent::CashOut => GameEventView::CashOut,
            GameManipulationEvent::OpponentCashOut(n) => GameEventView::OpponentCashOut(*n),
            GameManipulationEvent::WaitForOpponentAction => GameEventView::WaitForOpponentAction,
            GameManipulationEvent::UpdateMessage(s) => GameEventView::UpdateMessage(s@),
            GameManipulationEvent::OnRematch => GameEventView::OnRematch,
            GameManipulationEvent::OnOpponentRematched => GameEventView::OnOpponentRematched,
            GameManipulationEvent::OnWaitingForRematchResponse => GameEventView::OnWaitingForRematchResponse,
        }
    }
}

/// Events after which the game plays a long animation and must acknowledge it
/// before any further event is played out.
pub open spec fn needs_acknowledge(e: GameEventView) -> bool {
    match e {
        GameEventView::OpponentDiscardedHandCards(_) => true,
        GameEventView::PlayTurn(_) => true,
        GameEventView::OpenBooster(_, _) => true,
        GameEventView::EndShopAndStartNewRound => true,
        GameEventView::HighlightedBoosterCard(_, _) => true,
        GameEventView::UsedConsumeableCard(_, _, _, _) => true,
        GameEventView::BoughtCard(_, _) => true,
        GameEventView::RerollShop => true,
        GameEventView::SellCard(_, _) => true,
        GameEventView::UsedVoucherCard(_) => true,
        _ => false,
    }
}

impl GameManipulationEvent {
    /// Whether the game must acknowledge this event before playing the next one.
    pub fn needs_acknowledge(&self) -> (r: bool)
        ensures
            r == needs_acknowledge(self@),
    {
        match self {
            GameManipulationEvent::OpponentDiscardedHandCards(_) => true,
            GameManipulationEvent::PlayTurn(_) => true,
            GameManipulationEvent::OpenBooster(_, _) => true,
            GameManipulationEvent::EndShopAndStartNewRound => true,
            GameManipulationEvent::HighlightedBoosterCard(_, _) => true,
            GameManipulationEvent::UsedConsumeableCard(_, _, _, _) => true,
            GameManipulationEvent::BoughtCard(_, _) => true,
            GameManipulationEvent::RerollShop => true,
            GameManipulationEvent::SellCard(_, _) => true,
            GameManipulationEvent::UsedVoucherCard(_) => true,
            _ => false,
        }
    }

    /// A copy of this event.
    pub fn duplicate(&self) -> (r: GameManipulationEvent)
        ensures
            r@ == self@,
    {
        match self {
            GameManipulationEvent::OnRandomMatchmakingSelected => GameManipulationEvent::OnRandomMatchmakingSelected,
            GameManipulationEvent::OnRandomFound => GameManipulationEvent::OnRandomFound,
            GameManipulationEvent::OnAcceptedRandomMath => GameManipulationEvent::OnAcceptedRandomMath,
            GameManipulationEvent::OpponentDisconnectedBeforeConfirm => GameManipulationEvent::OpponentDisconnectedBeforeConfirm,
            GameManipulationEvent::OpponentDisconnectedInGame => GameManipulationEvent::OpponentDisconnectedInGame,
            GameManipulationEvent::OpponentHighlightedCard => GameManipulationEvent::OpponentHighlightedCard,
            GameManipulationEvent::PlayTurn(v) => GameManipulationEvent::PlayTurn(duplicate_indices(v)),
            GameManipulationEvent::NewHandCardsAlignement(v, t) => GameManipulationEvent::NewHandCardsAlignement(
                duplicate_indices(v),
                t.clone(),
            ),
            GameManipulationEvent::SortedHandSuitCards => GameManipulationEvent::SortedHandSuitCards,
            GameManipulationEvent::SortedHandValueCards => GameManipulationEvent::SortedHandValueCards,
            GameManipulationEvent::OpponentDiscardedHandCards(v) => GameManipulationEvent::OpponentDiscardedHandCards(
                duplicate_indices(v),
            ),
            GameManipulationEvent::DiscardedHandCards => GameManipulationEvent::DiscardedHandCards,
            GameManipulationEvent::EmplaceOpponentCard(c) => GameManipulationEvent::EmplaceOpponentCard(
                c.duplicate(),
            ),
            GameManipulationEvent::ProcessRemainingEvents => GameManipulationEvent::ProcessRemainingEvents,
            GameManipulationEvent::EndShopAndStartNewRound => GameManipulationEvent::EndShopAndStartNewRound,
            GameManipulationEvent::UsedConsumeableCard(i, a, v, t) => GameManipulationEvent::UsedConsumeableCard(
                *i,
                *a,
                duplicate_indices(v),
                duplicate_cards(t),
            ),
            GameManipulationEvent::UsedVoucherCard(c) => GameManipulationEvent::UsedVoucherCard(c.duplicate()),
            GameManipulationEvent::OpenBooster(c, v) => GameManipulationEvent::OpenBooster(
                c.duplicate(),
                duplicate_cards(v),
            ),
            GameManipulationEvent::OnRTTUpdated(n) => GameManipulationEvent::OnRTTUpdated(*n),
            GameManipulationEvent::HighlightedBoosterCard(v, o) => GameManipulationEvent::HighlightedBoosterCard(
                duplicate_indices(v),
                duplicate_opt_card(o),
            ),
            GameManipulationEvent::RerollShop => GameManipulationEvent::RerollShop,
            GameManipulationEvent::BoughtCard(c, s) => GameManipulationEvent::BoughtCard(
                c.duplicate(),
                s.clone(),
            ),
            GameManipulationEvent::SellCard(i, b) => GameManipulationEvent::SellCard(*i, *b),
            GameManipulationEvent::CashOut => GameManipulationEvent::CashOut,
            GameManipulationEvent::OpponentCashOut(n) => GameManipulationEvent::OpponentCashOut(*n),
            GameManipulationEvent::WaitForOpponentAction => GameManipulationEvent::WaitForOpponentAction,
            GameManipulationEvent::UpdateMessage(s) => GameManipulationEvent::UpdateMessage(s.clone()),
            GameManipulationEvent::OnRematch => GameManipulationEvent::OnRematch,
            GameManipulationEvent::OnOpponentRematched => GameManipulationEvent::OnOpponentRematched,
            GameManipulationEvent::OnWaitingForRematchResponse => GameManipulationEvent::OnWaitingForRematchResponse,
        }
    }

    /// Whether two events have the same value.
    pub fn same_as(&self, other: &GameManipulationEvent) -> (r: bool)
        ensures
            r == (self@ == other@),
    {
        match (self, other) {
            (
                GameManipulationEvent::OnRandomMatchmakingSelected,
                GameManipulationEvent::OnRandomMatchmakingSelected,
            ) => true,
            (GameManipulationEvent::OnRandomFound, GameManipulationEvent::OnRandomFound) => true,
            (
                GameManipulationEvent::OnAcceptedRandomMath,
                GameManipulationEvent::OnAcceptedRandomMath,
            ) => true,
            (
                GameManipulationEvent::OpponentDisconnectedBeforeConfirm,
                GameManipulationEvent::OpponentDisconnectedBeforeConfirm,
            ) => true,
            (
                GameManipulationEvent::OpponentDisconnectedInGame,
                GameManipulationEvent::OpponentDisconnectedInGame,
            ) => true,
            (
                GameManipulationEvent::OpponentHighlightedCard,
                GameManipulationEvent::OpponentHighlightedCard,
            ) => true,
            (GameManipulationEvent::PlayTurn(a), GameManipulationEvent::PlayTurn(b)) => same_indices(
                a,
                b,
            ),
            (
                GameManipulationEvent::NewHandCardsAlignement(a, s),
                GameManipulationEvent::NewHandCardsAlignement(b, t),
            ) => same_indices(a, b) && *s == *t,
            (
                GameManipulationEvent::SortedHandSuitCards,
                GameManipulationEvent::SortedHandSuitCards,
            ) => true,
            (
                GameManipulationEvent::SortedHandValueCards,
                GameManipulationEvent::SortedHandValueCards,
            ) => true,
            (
                GameManipulationEvent::OpponentDiscardedHandCards(a),
                GameManipulationEvent::OpponentDiscardedHandCards(b),
            ) => same_indices(a, b),
            (GameManipulationEvent::DiscardedHandCards, GameManipulationEvent::DiscardedHandCards) => true,
            (
                GameManipulationEvent::EmplaceOpponentCard(a),
                GameManipulationEvent::EmplaceOpponentCard(b),
            ) => a.same_as(b),
            (
                GameManipulationEvent::ProcessRemainingEvents,
                GameManipulationEvent::ProcessRemainingEvents,
            ) => true,
            (
                GameManipulationEvent::EndShopAndStartNewRound,
                GameManipulationEvent::EndShopAndStartNewRound,
            ) => true,
            (
                GameManipulationEvent::UsedConsumeableCard(i, a, v, t),
                GameManipulationEvent::UsedConsumeableCard(j, b, w, u),
            ) => *i == *j && *a == *b && same_indices(v, w) && same_cards(t, u),
            (
                GameManipulationEvent::UsedVoucherCard(a),
                GameManipulationEvent::UsedVoucherCard(b),
            ) => a.same_as(b),
            (GameManipulationEvent::OpenBooster(a, v), GameManipulationEvent::OpenBooster(b, w)) => a.same_as(b)
                && same_cards(v, w),
            (GameManipulationEvent::OnRTTUpdated(a), GameManipulationEvent::OnRTTUpdated(b)) => *a == *b,
            (
                GameManipulationEvent::HighlightedBoosterCard(v, o),
                GameManipulationEvent::HighlightedBoosterCard(w, p),
            ) => same_indices(v, w) && same_opt_card(o, p),
            (GameManipulationEvent::RerollShop, GameManipulationEvent::RerollShop) => true,
            (GameManipulationEvent::BoughtCard(a, s), GameManipulationEvent::BoughtCard(b, t)) => a.same_as(b)
                && *s == *t,
            (GameManipulationEvent::SellCard(i, a), GameManipulationEvent::SellCard(j, b)) => *i == *j
                && *a == *b,
            (GameManipulationEvent::CashOut, GameManipulationEvent::CashOut) => true,
            (GameManipulationEvent::OpponentCashOut(a), GameManipulationEvent::OpponentCashOut(b)) => *a
                == *b,
            (
                GameManipulationEvent::WaitForOpponentAction,
                GameManipulationEvent::WaitForOpponentAction,
            ) => true,
            (GameManipulationEvent::UpdateMessage(s), GameManipulationEvent::UpdateMessage(t)) => *s == *t,
            (GameManipulationEvent::OnRematch, GameManipulationEvent::OnRematch) => true,
            (GameManipulationEvent::OnOpponentRematched, GameManipulationEvent::OnOpponentRematched) => true,
            (
                GameManipulationEvent::OnWaitingForRematchResponse,
                GameManipulationEvent::OnWaitingForRematchResponse,
            ) => true,
            _ => false,
        }
    }
}

} // verus!
