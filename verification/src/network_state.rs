//! Where the match with the opponent stands, and the messages exchanged with it.
use vstd::prelude::*;

use crate::card_conf::{AreaType, CardConf, CardConfView};
use crate::game_event::{GameEventView, GameManipulationEvent};
use crate::lua_call::{
    cards_view, duplicate_indices, opt_card_view, same_indices,
};

verus! {

/// The state of the match seen from this side.
#[derive(Debug)]
pub enum NetworkState {
    Idle,
    Search,
    Found,
    SelfConfirm,
    OpponentConfirm,
    Start,
    OpponentHighlighted(Vec<usize>),
    SentHighlighted(Vec<usize>),
    PlayTurn(Vec<usize>),
    WaitForUserAction,
    WaitForOpponent(GameManipulationEvent),
    OpponentWaitingForYou,
    WaitingForRematchResponse,
    OpponentRematched,
}

/// The value of a match state.
pub enum NetworkStateView {
    Idle,
    Search,
    Found,
    SelfConfirm,
    OpponentConfirm,
    Start,
    OpponentHighlighted(Seq<usize>),
    SentHighlighted(Seq<usize>),
    PlayTurn(Seq<usize>),
    WaitForUserAction,
    WaitForOpponent(GameEventView),
    OpponentWaitingForYou,
    WaitingForRematchResponse,
    OpponentRematched,
}

impl View for NetworkState {
    type V = NetworkStateView;

    open spec fn view(&self) -> NetworkStateView {
        match self {
            NetworkState::Idle => NetworkStateView::Idle,
            NetworkState::Search => NetworkStateView::Search,
            NetworkState::Found => NetworkStateView::Found,
            NetworkState::SelfConfirm => NetworkStateView::SelfConfirm,
            NetworkState::OpponentConfirm => NetworkStateView::OpponentConfirm,
            NetworkState::Start => NetworkStateView::Start,
            NetworkState::OpponentHighlighted(v) => NetworkStateView::OpponentHighlighted(v@),
            NetworkState::SentHighlighted(v) => NetworkStateView::SentHighlighted(v@),
            NetworkState::PlayTurn(v) => NetworkStateView::PlayTurn(v@),
            NetworkState::WaitForUserAction => NetworkStateView::WaitForUserAction,
            NetworkState::WaitForOpponent(e) => NetworkStateView::WaitForOpponent(e@),
            NetworkState::OpponentWaitingForYou => NetworkStateView::OpponentWaitingForYou,
            NetworkState::WaitingForRematchResponse => NetworkStateView::WaitingForRematchResponse,
            NetworkState::OpponentRematched => NetworkStateView::OpponentRematched,
        }
    }
}

impl NetworkState {
    /// A copy of this state.
    pub fn duplicate(&self) -> (r: NetworkState)
        ensures
            r@ == self@,
    {
        match self {
            NetworkState::Idle => NetworkState::Idle,
            NetworkState::Search => NetworkState::Search,
            NetworkState::Found => NetworkState::Found,
            NetworkState::SelfConfirm => NetworkState::SelfConfirm,
            NetworkState::OpponentConfirm => NetworkState::OpponentConfirm,
            NetworkState::Start => NetworkState::Start,
            NetworkState::OpponentHighlighted(v) => NetworkState::OpponentHighlighted(
                duplicate_indices(v),
            ),
            NetworkState::SentHighlighted(v) => NetworkState::SentHighlighted(duplicate_indices(v)),
            NetworkState::PlayTurn(v) => NetworkState::PlayTurn(duplicate_indices(v)),
            NetworkState::WaitForUserAction => NetworkState::WaitForUserAction,
            NetworkState::WaitForOpponent(e) => NetworkState::WaitForOpponent(e.duplicate()),
            NetworkState::OpponentWaitingForYou => NetworkState::OpponentWaitingForYou,
            NetworkState::WaitingForRematchResponse => NetworkState::WaitingForRematchResponse,
            NetworkState::OpponentRematched => NetworkState::OpponentRematched,
        }
    }

    /// Whether two states have the same value.
    pub fn same_as(&self, other: &NetworkState) -> (r: bool)
        ensures
            r == (self@ == other@),
    {
        match (self, other) {
            (NetworkState::Idle, NetworkState::Idle) => true,
            (NetworkState::Search, NetworkState::Search) => true,
            (NetworkState::Found, NetworkState::Found) => true,
            (NetworkState::SelfConfirm, NetworkState::SelfConfirm) => true,
            (NetworkState::OpponentConfirm, NetworkState::OpponentConfirm) => true,
            (NetworkState::Start, NetworkState::Start) => true,
            (NetworkState::OpponentHighlighted(a), NetworkState::OpponentHighlighted(b)) => same_indices(
                a,
                b,
            ),
            (NetworkState::SentHighlighted(a), NetworkState::SentHighlighted(b)) => same_indices(
                a,
                b,
            ),
            (NetworkState::PlayTurn(a), NetworkState::PlayTurn(b)) => same_indices(a, b),
            (NetworkState::WaitForUserAction, NetworkState::WaitForUserAction) => true,
            (NetworkState::WaitForOpponent(a), NetworkState::WaitForOpponent(b)) => a.same_as(b),
            (NetworkState::OpponentWaitingForYou, NetworkState::OpponentWaitingForYou) => true,
            (NetworkState::WaitingForRematchResponse, NetworkState::WaitingForRematchResponse) => true,
            (NetworkState::OpponentRematched, NetworkState::OpponentRematched) => true,
            _ => false,
        }
    }
}

/// A message exchanged with the opponent (or, for `NewPeer`, with any peer).
#[derive(Debug)]
pub enum NetworkEvent {
    NewPeer(String, String, String),
    ConfirmMatch,
    HighlightedCard(Vec<usize>),
    NewCardAlignement(Vec<usize>, String),
    SortedHandSuit,
    SortedHandValue,
    DiscardedCards(Vec<usize>),
    NewCardToEmplace(CardConf),
    WaitForYourAction,
    UsedConsumeableCard(usize, AreaType, Vec<usize>, Vec<CardConf>),
    VoucherUsed(CardConf),
    OpenBooster(CardConf, Vec<CardConf>),
    HighlightedBoosterCard(Vec<usize>, Option<CardConf>),
    RerollShop,
    BoughtCard(CardConf, String),
    SellCard(usize, bool),
    Cashout(i32),
    Ping,
    Pong,
    Rematch(String),
}

/// The value of a message.
pub enum NetworkEventView {
    NewPeer(Seq<char>, Seq<char>, Seq<char>),
    ConfirmMatch,
    HighlightedCard(Seq<usize>),
    NewCardAlignement(Seq<usize>, Seq<char>),
    SortedHandSuit,
    SortedHandValue,
    DiscardedCards(Seq<usize>),
    NewCardToEmplace(CardConfView),
    WaitForYourAction,
    UsedConsumeableCard(usize, AreaType, Seq<usize>, Seq<CardConfView>),
    VoucherUsed(CardConfView),
    OpenBooster(CardConfView, Seq<CardConfView>),
    HighlightedBoosterCard(Seq<usize>, Option<CardConfView>),
    RerollShop,
    BoughtCard(CardConfView, Seq<char>),
    SellCard(usize, bool),
    Cashout(i32),
    Ping,
    Pong,
    Rematch(Seq<char>),
}

impl View for NetworkEvent {
    type V = NetworkEventView;

    open spec fn view(&self) -> NetworkEventView {
        match self {
            NetworkEvent::NewPeer(a, b, c) => NetworkEventView::NewPeer(a@, b@, c@),
            NetworkEvent::ConfirmMatch => NetworkEventView::ConfirmMatch,
            NetworkEvent::HighlightedCard(v) => NetworkEventView::HighlightedCard(v@),
            NetworkEvent::NewCardAlignement(v, t) => NetworkEventView::NewCardAlignement(v@, t@),
            NetworkEvent::SortedHandSuit => NetworkEventView::SortedHandSuit,
            NetworkEvent::SortedHandValue => NetworkEventView::SortedHandValue,
            NetworkEvent::DiscardedCards(v) => NetworkEventView::DiscardedCards(v@),
            NetworkEvent::NewCardToEmplace(c) => NetworkEventView::NewCardToEmplace(c@),
            NetworkEvent::WaitForYourAction => NetworkEventView::WaitForYourAction,
            NetworkEvent::UsedConsumeableCard(i, a, v, t) => NetworkEventView::UsedConsumeableCard(
                *i,
                *a,
                v@,
                cards_view(t@),
            ),
            NetworkEvent::VoucherUsed(c) => NetworkEventView::VoucherUsed(c@),
            NetworkEvent::OpenBooster(c, v) => NetworkEventView::OpenBooster(c@, cards_view(v@)),
            NetworkEvent::HighlightedBoosterCard(v, o) => NetworkEventView::HighlightedBoosterCard(
                v@,
                opt_card_view(*o),
            ),
            NetworkEvent::RerollShop => NetworkEventView::RerollShop,
            NetworkEvent::BoughtCard(c, s) => NetworkEventView::BoughtCard(c@, s@),
            NetworkEvent::SellCard(i, b) => NetworkEventView::SellCard(*i, *b),
            NetworkEvent::Cashout(n) => NetworkEventView::Cashout(*n),
            NetworkEvent::Ping => NetworkEventView::Ping,
            NetworkEvent::Pong => NetworkEventView::Pong,
            NetworkEvent::Rematch(s) => NetworkEventView::Rematch(s@),
        }
    }
}

} // verus!
