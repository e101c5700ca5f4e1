//! The match with the opponent: matchmaking, confirmation, and the messages of a game.
//!
//! The connection itself lives outside: every decision to connect, send, close or
//! drop it is queued as a [`NetCommand`], in order, for the caller to carry out.
use vstd::prelude::*;
use vstd::string::*;

use crate::bvs::{room_url_text, Server, ServerView};
use crate::card_conf::{AreaType, CardConf};
use crate::clock::{format_rfc3339, parse_rfc3339, rfc3339_instant, rfc3339_text, rfc3339_writable};
use crate::game_event::{GameEventView, GameManipulationEvent};
use crate::game_manipulation::{GameManipulation, GameManipulationView};
use crate::lua_call::{cards_view, duplicate_indices, opt_card_view};
use crate::network_state::{NetworkEvent, NetworkEventView, NetworkState, NetworkStateView};
use crate::peer::{uuid_text, PeerId};
use crate::rng::{is_alphanumeric_text, random_alphanumeric};
use crate::text::owned;

verus! {

/// Something to do with the connection to the matchmaking server.
#[derive(Debug)]
pub enum NetCommand {
    /// Open a connection to this room URL.
    Connect(String),
    /// Send this message to this peer on the reliable channel.
    Send(PeerId, NetworkEvent),
    /// Close the connection.
    Close,
    /// Drop the connection.
    Reset,
}

/// The value of a command.
pub enum NetCommandView {
    Connect(Seq<char>),
    Send(PeerId, NetworkEventView),
    Close,
    Reset,
}

impl View for NetCommand {
    type V = NetCommandView;

    open spec fn view(&self) -> NetCommandView {
        match self {
            NetCommand::Connect(url) => NetCommandView::Connect(url@),
            NetCommand::Send(peer, e) => NetCommandView::Send(*peer, e@),
            NetCommand::Close => NetCommandView::Close,
            NetCommand::Reset => NetCommandView::Reset,
        }
    }
}

/// The values of a sequence of commands.
pub open spec fn commands_view(v: Seq<NetCommand>) -> Seq<NetCommandView> {
    v.map_values(|c: NetCommand| c@)
}

/// The mathematical value of the match: its state, when this side started
/// looking (nanoseconds after the Unix epoch), the opponent, the last round
/// trip time, the friendly room code, when the last ping left (milliseconds on
/// the caller's clock), whether a pong is awaited, and the commands decided on
/// and not yet handed out.
pub struct NetworkView {
    pub state: NetworkStateView,
    pub connected_date: Option<i128>,
    pub opponent: Option<PeerId>,
    pub rtt: usize,
    pub friendly_room_code: Seq<char>,
    pub ping_measurement: u64,
    pub is_waiting_for_pong: bool,
    pub commands: Seq<NetCommandView>,
}

/// The match with the opponent, seen from this side.
pub struct Network {
    state: NetworkState,
    connected_date: Option<i128>,
    opponent: Option<PeerId>,
    rtt: usize,
    friendly_room_code: String,
    ping_measurement: u64,
    is_waiting_for_pong: bool,
    commands: Vec<NetCommand>,
}

impl View for Network {
    type V = NetworkView;

    closed spec fn view(&self) -> NetworkView {
        NetworkView {
            state: self.state@,
            connected_date: self.connected_date,
            opponent: self.opponent,
            rtt: self.rtt,
            friendly_room_code: self.friendly_room_code@,
            ping_measurement: self.ping_measurement,
            is_waiting_for_pong: self.is_waiting_for_pong,
            commands: commands_view(self.commands@),
        }
    }
}

/// The states in which the opponent's hand actions are played out.
pub open spec fn in_hand_play(s: NetworkStateView) -> bool {
    s is SentHighlighted || s is WaitForUserAction || s is PlayTurn
}

/// The states in which the opponent's shop actions are played out.
pub open spec fn in_shop_play(s: NetworkStateView) -> bool {
    s is SentHighlighted || s is WaitForUserAction || s is WaitForOpponent
}

/// The states in which the opponent's purchases are played out.
pub open spec fn in_purchase_play(s: NetworkStateView) -> bool {
    s is PlayTurn || s is WaitForUserAction || s is WaitForOpponent
}

/// The message text shown while the opponent plays out its shop.
pub open spec fn resume_message(e: GameEventView) -> Seq<char> {
    if e is ProcessRemainingEvents {
        "Playing opponent shop choices"@
    } else {
        ""@
    }
}

/// Milliseconds elapsed from `since` to `now`, none when the clock went back.
pub open spec fn elapsed_ms(since: u64, now: u64) -> u64 {
    if now >= since {
        (now - since) as u64
    } else {
        0
    }
}

impl NetworkView {
    /// Whether the state is searching only when a start date is known.
    pub open spec fn wf(self) -> bool {
        self.state is Search ==> self.connected_date is Some
    }

    /// This match with one more command.
    pub open spec fn with_command(self, c: NetCommandView) -> NetworkView {
        NetworkView { commands: self.commands.push(c), ..self }
    }

    /// This match in the state `s`.
    pub open spec fn with_state(self, s: NetworkStateView) -> NetworkView {
        NetworkView { state: s, ..self }
    }

    /// This match after sending `e` to the opponent; nothing is sent without one.
    pub open spec fn sent(self, e: NetworkEventView) -> NetworkView {
        match self.opponent {
            Some(p) => self.with_command(NetCommandView::Send(p, e)),
            None => self,
        }
    }

    /// This match after it decides to open a connection to `room` on `server`.
    pub open spec fn connecting(self, server: ServerView, room: Seq<char>) -> NetworkView {
        self.with_command(NetCommandView::Connect(room_url_text(server, room)))
    }

    /// The match and the game side after a message `e` from `peer` arrives;
    /// `hands_left` is the number of hands the player has left and `now` the
    /// caller's clock in milliseconds.
    pub open spec fn received(
        self,
        gm: GameManipulationView,
        peer: PeerId,
        e: NetworkEventView,
        hands_left: usize,
        now: u64,
    ) -> (NetworkView, GameManipulationView) {
        match e {
            NetworkEventView::Ping => (self.sent(NetworkEventView::Pong), gm),
            NetworkEventView::Pong => {
                let rtt = elapsed_ms(self.ping_measurement, now) as usize;
                (
                    NetworkView { rtt, is_waiting_for_pong: false, ..self },
                    gm.registered(GameEventView::OnRTTUpdated(rtt)),
                )
            },
            NetworkEventView::NewPeer(_, date, seed) => {
                if self.state is Search {
                    let gm2 = if rfc3339_instant(date).unwrap() < self.connected_date.unwrap() {
                        GameManipulationView { seed, ..gm }
                    } else {
                        gm
                    };
                    (
                        NetworkView {
                            state: NetworkStateView::Found,
                            opponent: Some(peer),
                            ..self
                        },
                        gm2.registered(GameEventView::OnRandomFound),
                    )
                } else {
                    (self, gm)
                }
            },
            NetworkEventView::ConfirmMatch => match self.state {
                NetworkStateView::Found => (self.with_state(NetworkStateView::OpponentConfirm), gm),
                NetworkStateView::SelfConfirm => (
                    self.with_state(NetworkStateView::Start),
                    gm.registered(GameEventView::OnAcceptedRandomMath),
                ),
                _ => (self, gm),
            },
            NetworkEventView::HighlightedCard(cards) => {
                if hands_left == 0 {
                    if self.opponent is None {
                        (self, gm)
                    } else {
                        (
                            self.sent(NetworkEventView::HighlightedCard(seq![])).with_state(
                                NetworkStateView::PlayTurn(cards),
                            ),
                            gm.registered(GameEventView::PlayTurn(cards)),
                        )
                    }
                } else {
                    match self.state {
                        NetworkStateView::WaitForUserAction => (
                            self.with_state(NetworkStateView::OpponentHighlighted(cards)),
                            gm.registered(GameEventView::OpponentHighlightedCard),
                        ),
                        NetworkStateView::SentHighlighted(_) => (
                            self.with_state(NetworkStateView::PlayTurn(cards)),
                            gm.registered(GameEventView::UpdateMessage(""@)).registered(
                                GameEventView::PlayTurn(cards),
                            ),
                        ),
                        _ => (self, gm),
                    }
                }
            },
            NetworkEventView::NewCardAlignement(al, t) => if in_hand_play(self.state) {
                (self, gm.registered(GameEventView::NewHandCardsAlignement(al, t)))
            } else {
                (self, gm)
            },
            NetworkEventView::SortedHandSuit => if in_hand_play(self.state) {
                (self, gm.registered(GameEventView::SortedHandSuitCards))
            } else {
                (self, gm)
            },
            NetworkEventView::SortedHandValue => if in_hand_play(self.state) {
                (self, gm.registered(GameEventView::SortedHandValueCards))
            } else {
                (self, gm)
            },
            NetworkEventView::DiscardedCards(cards) => if in_hand_play(self.state) {
                (self, gm.registered(GameEventView::OpponentDiscardedHandCards(cards)))
            } else {
                (self, gm)
            },
            NetworkEventView::NewCardToEmplace(c) => if in_hand_play(self.state)
                || self.state is WaitForOpponent {
                (self, gm.registered(GameEventView::EmplaceOpponentCard(c)))
            } else {
                (self, gm)
            },
            NetworkEventView::WaitForYourAction => match self.state {
                NetworkStateView::WaitForUserAction => (
                    self.with_state(NetworkStateView::OpponentWaitingForYou),
                    gm,
                ),
                NetworkStateView::WaitForOpponent(ge) => (
                    self.with_state(NetworkStateView::WaitForUserAction),
                    gm.acknowledged().registered(
                        GameEventView::UpdateMessage(resume_message(ge)),
                    ).registered(ge),
                ),
                _ => (self, gm),
            },
            NetworkEventView::UsedConsumeableCard(i, a, cards, targets) => if in_shop_play(
                self.state,
            ) {
                (self, gm.registered(GameEventView::UsedConsumeableCard(i, a, cards, targets)))
            } else {
                (self, gm)
            },
            NetworkEventView::VoucherUsed(c) => if self.state is WaitForOpponent
                || self.state is WaitForUserAction {
                (self, gm.registered(GameEventView::UsedVoucherCard(c)))
            } else {
                (self, gm)
            },
            NetworkEventView::OpenBooster(c, shop) => if in_shop_play(self.state) {
                (self, gm.registered(GameEventView::OpenBooster(c, shop)))
            } else {
                (self, gm)
            },
            NetworkEventView::HighlightedBoosterCard(cards, sel) => if self.state is WaitForUserAction
                || self.state is WaitForOpponent {
                (self, gm.registered(GameEventView::HighlightedBoosterCard(cards, sel)))
            } else {
                (self, gm)
            },
            NetworkEventView::RerollShop => if in_purchase_play(self.state) {
                (self, gm.registered(GameEventView::RerollShop))
            } else {
                (self, gm)
            },
            NetworkEventView::BoughtCard(c, id) => if in_purchase_play(self.state) {
                (self, gm.registered(GameEventView::BoughtCard(c, id)))
            } else {
                (self, gm)
            },
            NetworkEventView::SellCard(i, b) => if in_purchase_play(self.state)
                || self.state is OpponentHighlighted || self.state is SentHighlighted {
                (self, gm.registered(GameEventView::SellCard(i, b)))
            } else {
                (self, gm)
            },
            NetworkEventView::Cashout(n) => if in_purchase_play(self.state) {
                (self, gm.registered(GameEventView::OpponentCashOut(n)))
            } else {
                (self, gm)
            },
            NetworkEventView::Rematch(seed) => match self.state {
                NetworkStateView::WaitingForRematchResponse => (
                    self.with_state(NetworkStateView::WaitForUserAction),
                    gm.registered(GameEventView::OnRematch),
                ),
                _ => (
                    self.with_state(NetworkStateView::OpponentRematched),
                    GameManipulationView { seed, ..gm }.registered(GameEventView::OnOpponentRematched),
                ),
            },
        }
    }

    /// Whether a message can be taken in: a peer's greeting while searching must
    /// carry a date that RFC 3339 reads.
    pub open spec fn accepts(self, e: NetworkEventView) -> bool {
        e is NewPeer && self.state is Search ==> rfc3339_instant(e->NewPeer_1) is Some
    }
}

/// A match that is idle, with no opponent and nothing decided, made at
/// `now` (milliseconds): the ping clock starts there.
pub open spec fn idle_network(now: u64) -> NetworkView {
    NetworkView {
        state: NetworkStateView::Idle,
        connected_date: None,
        opponent: None,
        rtt: 0,
        friendly_room_code: Seq::empty(),
        ping_measurement: now,
        is_waiting_for_pong: false,
        commands: Seq::empty(),
    }
}

/// Starting a random match from `n` and `g`: unless a connection exists, one
/// to the room `random` is decided on; `now` becomes the start date; from
/// idle the search starts (result `true`), otherwise nothing more happens
/// (result `false`).
pub open spec fn started_matchmaking(
    n: NetworkView,
    g: GameManipulationView,
    socket_present: bool,
    server: ServerView,
    now: i128,
    n2: NetworkView,
    g2: GameManipulationView,
    r: bool,
) -> bool {
    let connected = if socket_present {
        n
    } else {
        n.connecting(server, "random"@)
    };
    let dated = NetworkView { connected_date: Some(now), ..connected };
    if n.state is Idle {
        &&& r
        &&& n2 == dated.with_state(NetworkStateView::Search)
        &&& g2 == g.registered(GameEventView::OnRandomMatchmakingSelected)
    } else {
        &&& !r
        &&& n2 == dated
        &&& g2 == g
    }
}

/// Starting a friendly match from `n` gives `n2` and the room code `code`:
/// unless a connection exists, a fresh code of eight letters and digits is
/// drawn, kept, and a connection to its room decided on; `now` becomes the
/// start date and from idle the search starts. The code is the kept one.
pub open spec fn started_friendlies(
    n: NetworkView,
    socket_present: bool,
    server: ServerView,
    now: i128,
    n2: NetworkView,
    code: Seq<char>,
) -> bool {
    let state = if n.state is Idle {
        NetworkStateView::Search
    } else {
        n.state
    };
    &&& code == n2.friendly_room_code
    &&& socket_present ==> n2 == (NetworkView { connected_date: Some(now), state, ..n })
    &&& !socket_present ==> {
        &&& code.len() == 8
        &&& is_alphanumeric_text(code)
        &&& n2 == (NetworkView {
            connected_date: Some(now),
            friendly_room_code: code,
            state,
            ..n.connecting(server, code)
        })
    }
}

/// Joining the friendly room `room` from `n`: `now` becomes the start date;
/// unless a connection exists, the search starts, a connection to the room is
/// decided on and its code kept.
pub open spec fn paired(
    n: NetworkView,
    room: Seq<char>,
    socket_present: bool,
    server: ServerView,
    now: i128,
) -> NetworkView {
    if socket_present {
        NetworkView { connected_date: Some(now), ..n }
    } else {
        NetworkView {
            connected_date: Some(now),
            friendly_room_code: room,
            state: NetworkStateView::Search,
            ..n.connecting(server, room)
        }
    }
}

/// Leaving the server from `n`: without a connection nothing happens;
/// otherwise the opponent and room code are forgotten, the connection closed
/// and dropped, and the match idle.
pub open spec fn quit(n: NetworkView, socket_present: bool) -> NetworkView {
    if !socket_present {
        n
    } else {
        NetworkView {
            opponent: None,
            friendly_room_code: Seq::empty(),
            state: NetworkStateView::Idle,
            ..n.with_command(NetCommandView::Close).with_command(NetCommandView::Reset)
        }
    }
}

/// Confirming the match found, from `n` and `g`: without an opponent nothing
/// happens; otherwise the opponent is told, and the state moves from found to
/// confirmed, or from the opponent's confirmation to the start of the game.
pub open spec fn confirmed(n: NetworkView, g: GameManipulationView) -> (NetworkView, GameManipulationView) {
    if n.opponent is None {
        (n, g)
    } else {
        let sent = n.sent(NetworkEventView::ConfirmMatch);
        match n.state {
            NetworkStateView::Found => (sent.with_state(NetworkStateView::SelfConfirm), g),
            NetworkStateView::OpponentConfirm => (
                sent.with_state(NetworkStateView::Start),
                g.registered(GameEventView::OnAcceptedRandomMath),
            ),
            _ => (sent, g),
        }
    }
}

/// Highlighting `cards` from `n` and `g`: without an opponent nothing happens;
/// otherwise the opponent is told; a player who was to act now waits for the
/// opponent, and when the opponent had highlighted already, its turn is played.
pub open spec fn highlighted(n: NetworkView, g: GameManipulationView, cards: Seq<usize>) -> (
    NetworkView,
    GameManipulationView,
) {
    if n.opponent is None {
        (n, g)
    } else {
        let sent = n.sent(NetworkEventView::HighlightedCard(cards));
        match n.state {
            NetworkStateView::WaitForUserAction => (
                sent.with_state(NetworkStateView::SentHighlighted(cards)),
                g.registered(GameEventView::UpdateMessage("Waiting for opponent"@)),
            ),
            NetworkStateView::OpponentHighlighted(theirs) => (
                sent.with_state(NetworkStateView::PlayTurn(theirs)),
                g.registered(GameEventView::UpdateMessage(""@)).registered(
                    GameEventView::PlayTurn(theirs),
                ),
            ),
            _ => (sent, g),
        }
    }
}

/// Waiting for the opponent before `e`, from `n` and `g`: without an opponent
/// nothing happens; otherwise the opponent is told; a player who was to act
/// waits for the opponent before `e`, and when the opponent already waited,
/// `e` is played out now.
pub open spec fn waited_before(n: NetworkView, g: GameManipulationView, e: GameEventView) -> (
    NetworkView,
    GameManipulationView,
) {
    if n.opponent is None {
        (n, g)
    } else {
        let sent = n.sent(NetworkEventView::WaitForYourAction);
        match n.state {
            NetworkStateView::WaitForUserAction => (
                sent.with_state(NetworkStateView::WaitForOpponent(e)),
                g.registered(GameEventView::UpdateMessage("Waiting for opponent"@)),
            ),
            NetworkStateView::OpponentWaitingForYou => (
                sent.with_state(NetworkStateView::WaitForUserAction),
                g.acknowledged().registered(GameEventView::UpdateMessage(resume_message(e))).registered(
                    e,
                ),
            ),
            _ => (sent, g),
        }
    }
}

/// Asking for, or accepting, a rematch from `n` and `g` gives `n2` and `g2`:
/// without an opponent nothing happens; when the opponent asked already, the
/// rematch starts; otherwise a fresh seed of eight letters and digits is
/// drawn and the answer awaited. The opponent receives the seed.
pub open spec fn rematched(
    n: NetworkView,
    g: GameManipulationView,
    n2: NetworkView,
    g2: GameManipulationView,
) -> bool {
    if n.opponent is None {
        n2 == n && g2 == g
    } else {
        let seeded = if n.state is OpponentRematched {
            g.registered(GameEventView::OnRematch)
        } else {
            GameManipulationView { seed: g2.seed, ..g }.registered(
                GameEventView::OnWaitingForRematchResponse,
            )
        };
        &&& !(n.state is OpponentRematched) ==> g2.seed.len() == 8 && is_alphanumeric_text(g2.seed)
        &&& g2 == seeded
        &&& n2 == n.with_state(
            if n.state is OpponentRematched {
                NetworkStateView::WaitForUserAction
            } else {
                NetworkStateView::WaitingForRematchResponse
            },
        ).sent(NetworkEventView::Rematch(g2.seed))
    }
}

/// The text of the error when no opponent is there to receive a message.
pub open spec fn no_opponent_error() -> Seq<char> {
    "No opponent found"@
}

impl Network {
    /// A match that is idle, with no opponent and nothing decided, made at
    /// `now` (milliseconds on the caller's clock), where the ping clock starts.
    pub fn new(now: u64) -> (r: Network)
        ensures
            r@ == idle_network(now),
            r@.wf(),
    {
        let r = Network {
            state: NetworkState::Idle,
            connected_date: None,
            opponent: None,
            rtt: 0,
            friendly_room_code: String::new(),
            ping_measurement: now,
            is_waiting_for_pong: false,
            commands: Vec::new(),
        };
        assert(r@.commands =~= Seq::<NetCommandView>::empty());
        r
    }

    /// The current state of the match.
    pub fn state(&self) -> (r: &NetworkState)
        ensures
            r@ == self@.state,
    {
        &self.state
    }

    /// The last measured round trip time, in milliseconds.
    pub fn rtt(&self) -> (r: usize)
        ensures
            r == self@.rtt,
    {
        self.rtt
    }

    /// The current opponent, if any.
    pub fn opponent(&self) -> (r: Option<PeerId>)
        ensures
            r == self@.opponent,
    {
        self.opponent
    }

    fn push_command(&mut self, c: NetCommand)
        ensures
            final(self)@ == old(self)@.with_command(c@),
    {
        self.commands.push(c);
        assert(commands_view(self.commands@) =~= commands_view(old(self).commands@).push(c@));
    }

    /// Hands out the commands decided on so far, in order, and forgets them.
    pub fn take_commands(&mut self) -> (r: Vec<NetCommand>)
        ensures
            commands_view(r@) == old(self)@.commands,
            final(self)@ == (NetworkView { commands: Seq::<NetCommandView>::empty(), ..old(self)@ }),
    {
        let mut taken: Vec<NetCommand> = Vec::new();
        std::mem::swap(&mut taken, &mut self.commands);
        assert(commands_view(self.commands@) =~= Seq::<NetCommandView>::empty());
        taken
    }

    /// Queues `event` for the opponent; without an opponent nothing is sent.
    pub fn send_event_to_opponent(&mut self, event: NetworkEvent) -> (r: Result<(), String>)
        ensures
            final(self)@ == old(self)@.sent(event@),
            match r {
                Ok(()) => old(self)@.opponent is Some,
                Err(e) => old(self)@.opponent is None && e@ == no_opponent_error(),
            },
    {
        match self.opponent {
            Some(peer) => {
                self.push_command(NetCommand::Send(peer, event));
                Ok(())
            },
            None => Err(owned("No opponent found")),
        }
    }

    /// Starts a round trip measurement at `now` (milliseconds).
    pub fn send_ping(&mut self, now: u64)
        ensures
            final(self)@ == (NetworkView {
                ping_measurement: now,
                is_waiting_for_pong: true,
                ..old(self)@
            }).sent(NetworkEventView::Ping),
    {
        self.ping_measurement = now;
        self.is_waiting_for_pong = true;
        let _ = self.send_event_to_opponent(NetworkEvent::Ping);
    }

    /// Decides to open a connection to the room `room_code` on `server`.
    fn connect(&mut self, server: &Server, room_code: &str)
        ensures
            final(self)@ == old(self)@.connecting(server@, room_code@),
    {
        let url = server.room_url(room_code);
        self.push_command(NetCommand::Connect(url));
    }

    /// Starts a random match: connects to the room `random` unless a connection
    /// exists, notes `now` as the start date, and from idle starts searching.
    /// Returns whether the search started.
    pub fn start_matchmaking(
        &mut self,
        game_manipulation: &mut GameManipulation,
        socket_present: bool,
        server: &Server,
        now: i128,
    ) -> (r: bool)
        requires
            old(self)@.wf(),
        ensures
            final(self)@.wf(),
            started_matchmaking(
                old(self)@,
                old(game_manipulation)@,
                socket_present,
                server@,
                now,
                final(self)@,
                final(game_manipulation)@,
                r,
            ),
    {
        if !socket_present {
            self.connect(server, "random");
        }
        self.connected_date = Some(now);
        match self.state {
            NetworkState::Idle => {
                self.state = NetworkState::Search;
                game_manipulation.register_event(GameManipulationEvent::OnRandomMatchmakingSelected);
                true
            },
            _ => false,
        }
    }

    /// Starts a friendly match: unless a connection exists, connects to a fresh
    /// random room of eight letters and digits and keeps its code; notes `now`
    /// as the start date and from idle starts searching. Returns the room code.
    pub fn start_versus_friendlies(&mut self, socket_present: bool, server: &Server, now: i128) -> (r:
        String)
        requires
            old(self)@.wf(),
        ensures
            final(self)@.wf(),
            started_friendlies(old(self)@, socket_present, server@, now, final(self)@, r@),
    {
        if !socket_present {
            let room_code = random_alphanumeric(8);
            self.connect(server, room_code.as_str());
            self.friendly_room_code = room_code;
        }
        self.connected_date = Some(now);
        match self.state {
            NetworkState::Idle => {
                self.state = NetworkState::Search;
            },
            _ => {},
        }
        self.friendly_room_code.clone()
    }

    /// Joins the friendly room `room_code`: unless a connection exists, starts
    /// searching, connects to the room and keeps its code; notes `now` as the
    /// start date. Always succeeds.
    pub fn start_versus_friendlies_pairing(
        &mut self,
        room_code: String,
        socket_present: bool,
        server: &Server,
        now: i128,
    ) -> (r: bool)
        requires
            old(self)@.wf(),
        ensures
            r,
            final(self)@.wf(),
            final(self)@ == paired(old(self)@, room_code@, socket_present, server@, now),
    {
        self.connected_date = Some(now);
        if !socket_present {
            self.state = NetworkState::Search;
            self.connect(server, room_code.as_str());
            self.friendly_room_code = room_code;
        }
        true
    }

    /// Leaves the server: without a connection nothing happens and the result
    /// is false; otherwise the opponent and room code are forgotten, the
    /// connection is closed and dropped, and the match is idle again.
    pub fn quit_server(&mut self, socket_present: bool) -> (r: bool)
        requires
            old(self)@.wf(),
        ensures
            final(self)@.wf(),
            r == socket_present,
            final(self)@ == quit(old(self)@, socket_present),
    {
        if !socket_present {
            return false;
        }
        self.opponent = None;
        self.friendly_room_code = String::new();
        self.push_command(NetCommand::Close);
        self.push_command(NetCommand::Reset);
        self.state = NetworkState::Idle;
        true
    }

    /// Confirms the match found: tells the opponent, and moves on from found to
    /// confirmed, or from the opponent's confirmation to the start of the
    /// game. Fails without an opponent.
    pub fn confirm_versus_matchmaking(&mut self, game_manipulation: &mut GameManipulation) -> (r:
        bool)
        requires
            old(self)@.wf(),
        ensures
            final(self)@.wf(),
            r == old(self)@.opponent is Some,
            (final(self)@, final(game_manipulation)@) == confirmed(old(self)@, old(game_manipulation)@),
    {
        if self.opponent.is_none() {
            return false;
        }
        let _ = self.send_event_to_opponent(NetworkEvent::ConfirmMatch);
        match self.state {
            NetworkState::Found => {
                self.state = NetworkState::SelfConfirm;
            },
            NetworkState::OpponentConfirm => {
                self.state = NetworkState::Start;
                game_manipulation.register_event(GameManipulationEvent::OnAcceptedRandomMath);
            },
            _ => {},
        }
        true
    }

    /// The player may act now.
    pub fn wait_for_next_action(&mut self)
        requires
            old(self)@.wf(),
        ensures
            final(self)@ == old(self)@.with_state(NetworkStateView::WaitForUserAction),
            final(self)@.wf(),
    {
        self.state = NetworkState::WaitForUserAction;
    }

    /// Tells the opponent about the new order of this side's cards of type `t`.
    pub fn send_to_opponent_new_cards_alignement(&mut self, alignement: Vec<usize>, t: String) -> (r:
        bool)
        ensures
            r == old(self)@.opponent is Some,
            final(self)@ == old(self)@.sent(NetworkEventView::NewCardAlignement(alignement@, t@)),
    {
        self.send_event_to_opponent(NetworkEvent::NewCardAlignement(alignement, t)).is_ok()
    }

    /// Tells the opponent which cards are highlighted. When the player was to
    /// act, the match waits for the opponent; when the opponent had already
    /// highlighted, its turn is played. Fails without an opponent.
    pub fn send_highlighted_card(
        &mut self,
        game_manipulation: &mut GameManipulation,
        highlighted_cards: Vec<usize>,
    ) -> (r: bool)
        requires
            old(self)@.wf(),
        ensures
            final(self)@.wf(),
            r == old(self)@.opponent is Some,
            (final(self)@, final(game_manipulation)@) == highlighted(
                old(self)@,
                old(game_manipulation)@,
                highlighted_cards@,
            ),
    {
        let own = duplicate_indices(&highlighted_cards);
        if self.send_event_to_opponent(NetworkEvent::HighlightedCard(highlighted_cards)).is_err() {
            return false;
        }
        match &self.state {
            NetworkState::WaitForUserAction => {
                self.state = NetworkState::SentHighlighted(own);
                game_manipulation.register_event(
                    GameManipulationEvent::UpdateMessage(owned("Waiting for opponent")),
                );
            },
            NetworkState::OpponentHighlighted(cards) => {
                let cards = duplicate_indices(cards);
                game_manipulation.register_event(GameManipulationEvent::UpdateMessage(owned("")));
                game_manipulation.register_event(
                    GameManipulationEvent::PlayTurn(duplicate_indices(&cards)),
                );
                self.state = NetworkState::PlayTurn(cards);
            },
            _ => {},
        }
        true
    }

    /// Tells the opponent that the hand was sorted by suit.
    pub fn player_sort_hand_suit(&mut self)
        ensures
            final(self)@ == old(self)@.sent(NetworkEventView::SortedHandSuit),
    {
        let _ = self.send_event_to_opponent(NetworkEvent::SortedHandSuit);
    }

    /// Tells the opponent that the hand was sorted by value.
    pub fn player_sort_hand_value(&mut self)
        ensures
            final(self)@ == old(self)@.sent(NetworkEventView::SortedHandValue),
    {
        let _ = self.send_event_to_opponent(NetworkEvent::SortedHandValue);
    }

    /// Tells the opponent which cards were discarded and has the game pause its
    /// timer while they go; without an opponent nothing happens.
    pub fn player_discarded_cards(
        &mut self,
        discarded_cards: Vec<usize>,
        game_manipulation: &mut GameManipulation,
    )
        ensures
            final(self)@ == old(self)@.sent(NetworkEventView::DiscardedCards(discarded_cards@)),
            final(game_manipulation)@ == if old(self)@.opponent is Some {
                old(game_manipulation)@.registered(GameEventView::DiscardedHandCards)
            } else {
                old(game_manipulation)@
            },
    {
        if self.send_event_to_opponent(NetworkEvent::DiscardedCards(discarded_cards)).is_err() {
            return;
        }
        game_manipulation.register_event(GameManipulationEvent::DiscardedHandCards);
    }

    /// Whether the opponent has highlighted cards and waits for this side.
    pub fn has_opponent_highlithed_cards(&self) -> (r: bool)
        ensures
            r == self@.state is OpponentHighlighted,
    {
        match self.state {
            NetworkState::OpponentHighlighted(_) => true,
            _ => false,
        }
    }

    /// Sends the opponent a card to place on its side.
    pub fn send_new_card(&mut self, card_conf: CardConf)
        ensures
            final(self)@ == old(self)@.sent(NetworkEventView::NewCardToEmplace(card_conf@)),
    {
        let _ = self.send_event_to_opponent(NetworkEvent::NewCardToEmplace(card_conf));
    }

    /// Tells the opponent that this side waits for it, then: if the player was
    /// to act, waits for the opponent before `game_event`; if the opponent was
    /// already waiting, plays `game_event` out now. Without an opponent nothing
    /// happens.
    pub fn wait_for_opponent_action_before(
        &mut self,
        game_manipulation: &mut GameManipulation,
        game_event: GameManipulationEvent,
    )
        requires
            old(self)@.wf(),
        ensures
            final(self)@.wf(),
            (final(self)@, final(game_manipulation)@) == waited_before(
                old(self)@,
                old(game_manipulation)@,
                game_event@,
            ),
    {
        if self.send_event_to_opponent(NetworkEvent::WaitForYourAction).is_err() {
            return;
        }
        match &self.state {
            NetworkState::WaitForUserAction => {
                self.state = NetworkState::WaitForOpponent(game_event);
                game_manipulation.register_event(
                    GameManipulationEvent::UpdateMessage(owned("Waiting for opponent")),
                );
            },
            NetworkState::OpponentWaitingForYou => {
                game_manipulation.acknowledge_event();
                let message = resume_message_text(&game_event);
                game_manipulation.register_event(GameManipulationEvent::UpdateMessage(message));
                game_manipulation.register_event(game_event);
                self.state = NetworkState::WaitForUserAction;
            },
            _ => {},
        }
    }

    /// Tells the opponent that a consumeable was used.
    pub fn player_use_consumeable_card(
        &mut self,
        index: usize,
        area_type: AreaType,
        cards_index: Vec<usize>,
        targets: Vec<CardConf>,
    ) -> (r: bool)
        ensures
            r == old(self)@.opponent is Some,
            final(self)@ == old(self)@.sent(
                NetworkEventView::UsedConsumeableCard(
                    index,
                    area_type,
                    cards_index@,
                    cards_view(targets@),
                ),
            ),
    {
        self.send_event_to_opponent(
            NetworkEvent::UsedConsumeableCard(index, area_type, cards_index, targets),
        ).is_ok()
    }

    /// Tells the opponent that a voucher was used.
    pub fn player_use_voucher_card(&mut self, card: CardConf) -> (r: bool)
        ensures
            r == old(self)@.opponent is Some,
            final(self)@ == old(self)@.sent(NetworkEventView::VoucherUsed(card@)),
    {
        self.send_event_to_opponent(NetworkEvent::VoucherUsed(card)).is_ok()
    }

    /// Tells the opponent that a booster was opened, with the shop's jokers.
    pub fn send_open_booster(&mut self, card: CardConf, shop_jokers_cards_conf: Vec<CardConf>) -> (r:
        bool)
        ensures
            r == old(self)@.opponent is Some,
            final(self)@ == old(self)@.sent(
                NetworkEventView::OpenBooster(card@, cards_view(shop_jokers_cards_conf@)),
            ),
    {
        self.send_event_to_opponent(NetworkEvent::OpenBooster(card, shop_jokers_cards_conf)).is_ok()
    }

    /// Tells the opponent that the booster was skipped: no card taken.
    pub fn player_skip_booster(&mut self) -> (r: bool)
        ensures
            r == old(self)@.opponent is Some,
            final(self)@ == old(self)@.sent(NetworkEventView::HighlightedBoosterCard(seq![], None)),
    {
        let r = self.send_event_to_opponent(
            NetworkEvent::HighlightedBoosterCard(Vec::new(), None),
        ).is_ok();
        assert(old(self)@.sent(NetworkEventView::HighlightedBoosterCard(Seq::<usize>::empty(), None))
            == old(self)@.sent(NetworkEventView::HighlightedBoosterCard(seq![], None)));
        r
    }

    /// Tells the opponent which booster card was taken.
    pub fn send_new_card_from_booster(&mut self, card_index: usize, selected_card: Option<CardConf>) -> (r:
        bool)
        ensures
            r == old(self)@.opponent is Some,
            final(self)@ == old(self)@.sent(
                NetworkEventView::HighlightedBoosterCard(
                    seq![card_index],
                    opt_card_view(selected_card),
                ),
            ),
    {
        let mut cards: Vec<usize> = Vec::new();
        cards.push(card_index);
        assert(cards@ =~= seq![card_index]);
        self.send_event_to_opponent(NetworkEvent::HighlightedBoosterCard(cards, selected_card)).is_ok()
    }

    /// Tells the opponent that the shop was rerolled.
    pub fn send_reroll_shop(&mut self) -> (r: bool)
        ensures
            r == old(self)@.opponent is Some,
            final(self)@ == old(self)@.sent(NetworkEventView::RerollShop),
    {
        self.send_event_to_opponent(NetworkEvent::RerollShop).is_ok()
    }

    /// Tells the opponent that a card was bought.
    pub fn send_bought_card(&mut self, card: CardConf, id: String) -> (r: bool)
        ensures
            r == old(self)@.opponent is Some,
            final(self)@ == old(self)@.sent(NetworkEventView::BoughtCard(card@, id@)),
    {
        self.send_event_to_opponent(NetworkEvent::BoughtCard(card, id)).is_ok()
    }

    /// Tells the opponent that a card was sold.
    pub fn send_sell_card(&mut self, card_index: usize, is_joker: bool) -> (r: bool)
        ensures
            r == old(self)@.opponent is Some,
            final(self)@ == old(self)@.sent(NetworkEventView::SellCard(card_index, is_joker)),
    {
        self.send_event_to_opponent(NetworkEvent::SellCard(card_index, is_joker)).is_ok()
    }

    /// Tells the opponent how much this side cashed out.
    pub fn send_cash_out(&mut self, to_send: i32) -> (r: bool)
        ensures
            r == old(self)@.opponent is Some,
            final(self)@ == old(self)@.sent(NetworkEventView::Cashout(to_send)),
    {
        self.send_event_to_opponent(NetworkEvent::Cashout(to_send)).is_ok()
    }

    /// Asks the opponent for a rematch, or accepts the one it asked for: when it
    /// already asked, the rematch starts; otherwise a fresh seed is drawn and the
    /// answer awaited. The opponent receives the seed. Fails without an opponent.
    pub fn rematch(&mut self, game_manipulation: &mut GameManipulation) -> (r: bool)
        requires
            old(self)@.wf(),
        ensures
            final(self)@.wf(),
            r == old(self)@.opponent is Some,
            rematched(old(self)@, old(game_manipulation)@, final(self)@, final(game_manipulation)@),
    {
        if self.opponent.is_none() {
            return false;
        }
        match self.state {
            NetworkState::OpponentRematched => {
                game_manipulation.register_event(GameManipulationEvent::OnRematch);
                self.state = NetworkState::WaitForUserAction;
            },
            _ => {
                game_manipulation.regenerate_seed();
                self.state = NetworkState::WaitingForRematchResponse;
                game_manipulation.register_event(GameManipulationEvent::OnWaitingForRematchResponse);
            },
        }
        let seed = game_manipulation.get_seed();
        let _ = self.send_event_to_opponent(NetworkEvent::Rematch(seed));
        true
    }
}

impl Network {
    /// Plays out a message `event` from `peer`. `hands_left` is the number of
    /// hands the player has left (read only for highlighted cards, see
    /// `needs_hands_left`) and `now` the caller's clock in milliseconds.
    pub fn on_messages_received(
        &mut self,
        game_manipulation: &mut GameManipulation,
        peer: PeerId,
        event: NetworkEvent,
        hands_left: usize,
        now: u64,
    )
        requires
            old(self)@.wf(),
            old(self)@.accepts(event@),
        ensures
            final(self)@.wf(),
            (final(self)@, final(game_manipulation)@) == old(self)@.received(
                old(game_manipulation)@,
                peer,
                event@,
                hands_left,
                now,
            ),
    {
        match event {
            NetworkEvent::Ping => {
                let _ = self.send_event_to_opponent(NetworkEvent::Pong);
            },
            NetworkEvent::Pong => {
                let elapsed = if now >= self.ping_measurement {
                    now - self.ping_measurement
                } else {
                    0
                };
                self.rtt = elapsed as usize;
                self.is_waiting_for_pong = false;
                game_manipulation.register_event(GameManipulationEvent::OnRTTUpdated(self.rtt));
            },
            NetworkEvent::NewPeer(_, connected_date, seed) => {
                match self.state {
                    NetworkState::Search => {
                        self.state = NetworkState::Found;
                        self.opponent = Some(peer);
                        let opponent_date = parse_rfc3339(connected_date.as_str());
                        match (opponent_date, self.connected_date) {
                            (Some(theirs), Some(ours)) => {
                                if theirs < ours {
                                    game_manipulation.set_seed(seed);
                                }
                            },
                            _ => {},
                        }
                        game_manipulation.register_event(GameManipulationEvent::OnRandomFound);
                    },
                    _ => {},
                }
            },
            NetworkEvent::ConfirmMatch => {
                match self.state {
                    NetworkState::Found => {
                        self.state = NetworkState::OpponentConfirm;
                    },
                    NetworkState::SelfConfirm => {
                        self.state = NetworkState::Start;
                        game_manipulation.register_event(GameManipulationEvent::OnAcceptedRandomMath);
                    },
                    _ => {},
                }
            },
            NetworkEvent::HighlightedCard(cards) => {
                if hands_left == 0 {
                    if self.send_event_to_opponent(NetworkEvent::HighlightedCard(Vec::new())).is_err() {
                        return;
                    }
                    assert(old(self)@.sent(NetworkEventView::HighlightedCard(Seq::<usize>::empty()))
                        == old(self)@.sent(NetworkEventView::HighlightedCard(seq![])));
                    self.state = NetworkState::PlayTurn(duplicate_indices(&cards));
                    game_manipulation.register_event(GameManipulationEvent::PlayTurn(cards));
                    return;
                }
                match self.state {
                    NetworkState::WaitForUserAction => {
                        self.state = NetworkState::OpponentHighlighted(cards);
                        game_manipulation.register_event(
                            GameManipulationEvent::OpponentHighlightedCard,
                        );
                    },
                    NetworkState::SentHighlighted(_) => {
                        self.state = NetworkState::PlayTurn(duplicate_indices(&cards));
                        game_manipulation.register_event(
                            GameManipulationEvent::UpdateMessage(owned("")),
                        );
                        game_manipulation.register_event(GameManipulationEvent::PlayTurn(cards));
                    },
                    _ => {},
                }
            },
            NetworkEvent::NewCardAlignement(alignement, t) => {
                if self.in_hand_play() {
                    game_manipulation.register_event(
                        GameManipulationEvent::NewHandCardsAlignement(alignement, t),
                    );
                }
            },
            NetworkEvent::SortedHandSuit => {
                if self.in_hand_play() {
                    game_manipulation.register_event(GameManipulationEvent::SortedHandSuitCards);
                }
            },
            NetworkEvent::SortedHandValue => {
                if self.in_hand_play() {
                    game_manipulation.register_event(GameManipulationEvent::SortedHandValueCards);
                }
            },
            NetworkEvent::DiscardedCards(cards) => {
                if self.in_hand_play() {
                    game_manipulation.register_event(
                        GameManipulationEvent::OpponentDiscardedHandCards(cards),
                    );
                }
            },
            NetworkEvent::NewCardToEmplace(card_conf) => {
                let waiting = match self.state {
                    NetworkState::WaitForOpponent(_) => true,
                    _ => false,
                };
                if self.in_hand_play() || waiting {
                    game_manipulation.register_event(
                        GameManipulationEvent::EmplaceOpponentCard(card_conf),
                    );
                }
            },
            NetworkEvent::WaitForYourAction => {
                match &self.state {
                    NetworkState::WaitForUserAction => {
                        self.state = NetworkState::OpponentWaitingForYou;
                    },
                    NetworkState::WaitForOpponent(game_event) => {
                        let game_event = game_event.duplicate();
                        game_manipulation.acknowledge_event();
                        let message = resume_message_text(&game_event);
                        game_manipulation.register_event(
                            GameManipulationEvent::UpdateMessage(message),
                        );
                        game_manipulation.register_event(game_event);
                        self.state = NetworkState::WaitForUserAction;
                    },
                    _ => {},
                }
            },
            NetworkEvent::UsedConsumeableCard(index, area_type, cards_index, targets) => {
                if self.in_shop_play() {
                    game_manipulation.register_event(
                        GameManipulationEvent::UsedConsumeableCard(
                            index,
                            area_type,
                            cards_index,
                            targets,
                        ),
                    );
                }
            },
            NetworkEvent::VoucherUsed(card) => {
                let playing = match self.state {
                    NetworkState::WaitForOpponent(_) | NetworkState::WaitForUserAction => true,
                    _ => false,
                };
                if playing {
                    game_manipulation.register_event(GameManipulationEvent::UsedVoucherCard(card));
                }
            },
            NetworkEvent::OpenBooster(card, shop_jokers_cards_conf) => {
                if self.in_shop_play() {
                    game_manipulation.register_event(
                        GameManipulationEvent::OpenBooster(card, shop_jokers_cards_conf),
                    );
                }
            },
            NetworkEvent::HighlightedBoosterCard(cards, selected_card) => {
                let playing = match self.state {
                    NetworkState::WaitForUserAction | NetworkState::WaitForOpponent(_) => true,
                    _ => false,
                };
                if playing {
                    game_manipulation.register_event(
                        GameManipulationEvent::HighlightedBoosterCard(cards, selected_card),
                    );
                }
            },
            NetworkEvent::RerollShop => {
                if self.in_purchase_play() {
                    game_manipulation.register_event(GameManipulationEvent::RerollShop);
                }
            },
            NetworkEvent::BoughtCard(card, id) => {
                if self.in_purchase_play() {
                    game_manipulation.register_event(GameManipulationEvent::BoughtCard(card, id));
                }
            },
            NetworkEvent::SellCard(card_index, is_joker) => {
                let highlighted = match self.state {
                    NetworkState::OpponentHighlighted(_) | NetworkState::SentHighlighted(_) => true,
                    _ => false,
                };
                if self.in_purchase_play() || highlighted {
                    game_manipulation.register_event(
                        GameManipulationEvent::SellCard(card_index, is_joker),
                    );
                }
            },
            NetworkEvent::Cashout(to_ease) => {
                if self.in_purchase_play() {
                    game_manipulation.register_event(GameManipulationEvent::OpponentCashOut(to_ease));
                }
            },
            NetworkEvent::Rematch(seed) => {
                match self.state {
                    NetworkState::WaitingForRematchResponse => {
                        self.state = NetworkState::WaitForUserAction;
                        game_manipulation.register_event(GameManipulationEvent::OnRematch);
                    },
                    _ => {
                        self.state = NetworkState::OpponentRematched;
                        game_manipulation.set_seed(seed);
                        game_manipulation.register_event(GameManipulationEvent::OnOpponentRematched);
                    },
                }
            },
        }
    }

    /// Plays out a message, after checking that it can be taken in: a peer's
    /// greeting while searching must carry a date that RFC 3339 reads. A
    /// message that cannot be taken in changes nothing and is reported.
    pub fn receive_message(
        &mut self,
        game_manipulation: &mut GameManipulation,
        peer: PeerId,
        event: NetworkEvent,
        hands_left: usize,
        now: u64,
    ) -> (r: Result<(), String>)
        requires
            old(self)@.wf(),
        ensures
            final(self)@.wf(),
            r is Ok <==> old(self)@.accepts(event@),
            r is Ok ==> (final(self)@, final(game_manipulation)@) == old(self)@.received(
                old(game_manipulation)@,
                peer,
                event@,
                hands_left,
                now,
            ),
            r is Err ==> final(self)@ == old(self)@ && final(game_manipulation)@ == old(
                game_manipulation)@,
            r matches Err(e) ==> e@ == bad_date_error(),
    {
        let is_search = match self.state {
            NetworkState::Search => true,
            _ => false,
        };
        if is_search {
            if let NetworkEvent::NewPeer(_, date, _) = &event {
                if parse_rfc3339(date.as_str()).is_none() {
                    return Err(owned("the peer's connection date is not an RFC 3339 date"));
                }
            }
        }
        self.on_messages_received(game_manipulation, peer, event, hands_left, now);
        Ok(())
    }

    fn in_hand_play(&self) -> (r: bool)
        ensures
            r == in_hand_play(self@.state),
    {
        match self.state {
            NetworkState::SentHighlighted(_) | NetworkState::WaitForUserAction
            | NetworkState::PlayTurn(_) => true,
            _ => false,
        }
    }

    fn in_shop_play(&self) -> (r: bool)
        ensures
            r == in_shop_play(self@.state),
    {
        match self.state {
            NetworkState::SentHighlighted(_) | NetworkState::WaitForUserAction
            | NetworkState::WaitForOpponent(_) => true,
            _ => false,
        }
    }

    fn in_purchase_play(&self) -> (r: bool)
        ensures
            r == in_purchase_play(self@.state),
    {
        match self.state {
            NetworkState::PlayTurn(_) | NetworkState::WaitForUserAction
            | NetworkState::WaitForOpponent(_) => true,
            _ => false,
        }
    }

    /// Whether a greeting can be written for a new peer: the start date must be
    /// known and writable as RFC 3339.
    pub fn can_greet(&self) -> (r: bool)
        ensures
            r == (self@.connected_date matches Some(d) && rfc3339_writable(d)),
    {
        match self.connected_date {
            Some(d) => -62_167_219_200_000_000_000i128 <= d && d < 253_402_300_800_000_000_000i128,
            None => false,
        }
    }

    /// A peer joined the room: it is greeted with its id, this side's start
    /// date and the seed of the game side.
    pub fn on_peer_connected(&mut self, game_manipulation: &GameManipulation, peer: PeerId)
        requires
            old(self)@.connected_date matches Some(d) && rfc3339_writable(d),
        ensures
            final(self)@ == old(self)@.with_command(
                NetCommandView::Send(
                    peer,
                    NetworkEventView::NewPeer(
                        uuid_text(peer.id),
                        rfc3339_text(old(self)@.connected_date.unwrap()),
                        game_manipulation@.seed,
                    ),
                ),
            ),
    {
        let date = match self.connected_date {
            Some(d) => d,
            None => 0,
        };
        let text = match format_rfc3339(date) {
            Some(t) => t,
            None => String::new(),
        };
        let event = NetworkEvent::NewPeer(peer.to_text(), text, game_manipulation.get_seed());
        self.push_command(NetCommand::Send(peer, event));
    }

    /// A peer left the room. If it was the opponent, the connection is closed, a
    /// fresh seed is drawn, the game hears whether the opponent left before the
    /// match was confirmed or during the game, and the match is idle again;
    /// otherwise nothing happens.
    pub fn on_peer_disconnected(&mut self, game_manipulation: &mut GameManipulation)
        requires
            old(self)@.wf(),
        ensures
            final(self)@.wf(),
            old(self)@.opponent is None ==> final(self)@ == old(self)@ && final(game_manipulation)@
                == old(game_manipulation)@,
            old(self)@.opponent is Some ==> {
                &&& final(self)@ == (NetworkView {
                    opponent: None,
                    state: NetworkStateView::Idle,
                    ..old(self)@.with_command(NetCommandView::Close)
                })
                &&& final(game_manipulation)@.seed.len() == 8
                &&& is_alphanumeric_text(final(game_manipulation)@.seed)
                &&& final(game_manipulation)@ == (GameManipulationView {
                    seed: final(game_manipulation)@.seed,
                    ..old(game_manipulation)@
                }).registered(
                    if old(self)@.state is Found || old(self)@.state is OpponentConfirm
                        || old(self)@.state is SelfConfirm || old(self)@.state is Idle {
                        GameEventView::OpponentDisconnectedBeforeConfirm
                    } else {
                        GameEventView::OpponentDisconnectedInGame
                    },
                )
            },
    {
        if self.opponent.is_none() {
            return;
        }
        self.opponent = None;
        self.push_command(NetCommand::Close);
        game_manipulation.regenerate_seed();
        match self.state {
            NetworkState::Found | NetworkState::OpponentConfirm | NetworkState::SelfConfirm
            | NetworkState::Idle => {
                game_manipulation.register_event(
                    GameManipulationEvent::OpponentDisconnectedBeforeConfirm,
                );
            },
            _ => {
                game_manipulation.register_event(GameManipulationEvent::OpponentDisconnectedInGame);
            },
        }
        self.state = NetworkState::Idle;
    }

    /// Pings the opponent when there is one, no pong is awaited and the last
    /// ping left at least three seconds before `now` (milliseconds).
    pub fn ping_if_due(&mut self, now: u64)
        ensures
            if old(self)@.opponent is Some && elapsed_ms(old(self)@.ping_measurement, now) >= 3000
                && !old(self)@.is_waiting_for_pong {
                final(self)@ == (NetworkView {
                    ping_measurement: now,
                    is_waiting_for_pong: true,
                    ..old(self)@
                }).sent(NetworkEventView::Ping)
            } else {
                final(self)@ == old(self)@
            },
    {
        let elapsed = if now >= self.ping_measurement {
            now - self.ping_measurement
        } else {
            0
        };
        if self.opponent.is_some() && elapsed >= 3000 && !self.is_waiting_for_pong {
            self.send_ping(now);
        }
    }

    /// The connection's channel closed: it is dropped.
    pub fn connection_lost(&mut self)
        ensures
            final(self)@ == old(self)@.with_command(NetCommandView::Reset),
    {
        self.push_command(NetCommand::Reset);
    }
}

/// Whether playing out `event` needs the number of hands the player has left.
pub fn needs_hands_left(event: &NetworkEvent) -> (r: bool)
    ensures
        r == event@ is HighlightedCard,
{
    match event {
        NetworkEvent::HighlightedCard(_) => true,
        _ => false,
    }
}

/// The error text for a peer's greeting whose date cannot be read.
pub open spec fn bad_date_error() -> Seq<char> {
    "the peer's connection date is not an RFC 3339 date"@
}

/// The message shown while the opponent's `e` is played out.
fn resume_message_text(e: &GameManipulationEvent) -> (r: String)
    ensures
        r@ == resume_message(e@),
{
    match e {
        GameManipulationEvent::ProcessRemainingEvents => owned("Playing opponent shop choices"),
        _ => owned(""),
    }
}

/// Messages go to the current opponent only: without one nothing is sent.
pub proof fn lemma_messages_go_to_the_opponent(n: NetworkView, e: NetworkEventView)
    ensures
        n.opponent is None ==> n.sent(e) == n,
        n.opponent matches Some(p) ==> n.sent(e).commands == n.commands.push(
            NetCommandView::Send(p, e),
        ),
        n.sent(e).state == n.state,
        n.sent(e).opponent == n.opponent,
{
}

/// When the opponent asks for a rematch with its seed: if the player asked
/// first, the rematch starts on the player's own seed; otherwise the game
/// side takes the opponent's seed and tells the player the opponent wants a
/// rematch. Either way nothing is sent and nothing is called yet.
pub proof fn lemma_opponent_rematch_adopts_its_seed(
    n: NetworkView,
    gm: GameManipulationView,
    peer: PeerId,
    seed: Seq<char>,
    hands_left: usize,
    now: u64,
)
    ensures
        ({
            let (n2, g2) = n.received(gm, peer, NetworkEventView::Rematch(seed), hands_left, now);
            &&& n2.commands == n.commands
            &&& n2.opponent == n.opponent
            &&& g2.lua_calls == gm.lua_calls
            &&& if n.state is WaitingForRematchResponse {
                &&& n2.state == NetworkStateView::WaitForUserAction
                &&& g2.seed == gm.seed
                &&& g2.queue == gm.queue.push(GameEventView::OnRematch)
            } else {
                &&& n2.state == NetworkStateView::OpponentRematched
                &&& g2.seed == seed
                &&& g2.queue == gm.queue.push(GameEventView::OnOpponentRematched)
            }
        }),
{
}

/// When the opponent highlighted first, the player's highlight is sent and
/// the turn is played with the opponent's cards, whatever the player
/// highlighted: the match plays the turn of `theirs`, the message is
/// cleared and the turn of `theirs` is queued for the game.
pub proof fn lemma_turn_plays_the_opponents_cards(
    n: NetworkView,
    g: GameManipulationView,
    mine: Seq<usize>,
    theirs: Seq<usize>,
)
    requires
        n.opponent is Some,
        n.state == NetworkStateView::OpponentHighlighted(theirs),
    ensures
        ({
            let (n2, g2) = highlighted(n, g, mine);
            &&& n2.state == NetworkStateView::PlayTurn(theirs)
            &&& n2.commands == n.commands.push(
                NetCommandView::Send(n.opponent.unwrap(), NetworkEventView::HighlightedCard(mine)),
            )
            &&& g2.queue == g.queue.push(GameEventView::PlayTurn(theirs))
            &&& g2.lua_calls == g.lua_calls.push(
                crate::lua_call::lua_call("on_update_message"@, seq![crate::lua_call::LuaArgView::Text(""@)]),
            )
            &&& g2.seed == g.seed
        }),
{
}

/// When the player highlighted first, the opponent's highlight (with hands
/// left) starts the turn with the opponent's cards, whatever the player's
/// were; and a player who highlights first keeps its own cards as sent.
pub proof fn lemma_highlights_meet_on_the_opponents_cards(
    n: NetworkView,
    g: GameManipulationView,
    peer: PeerId,
    mine: Seq<usize>,
    theirs: Seq<usize>,
    hands_left: usize,
    now: u64,
)
    requires
        hands_left > 0,
    ensures
        n.state == NetworkStateView::SentHighlighted(mine) ==> ({
            let (n2, g2) = n.received(g, peer, NetworkEventView::HighlightedCard(theirs), hands_left, now);
            &&& n2.state == NetworkStateView::PlayTurn(theirs)
            &&& n2.commands == n.commands
            &&& g2.queue == g.queue.push(GameEventView::PlayTurn(theirs))
        }),
        n.opponent is Some && n.state == NetworkStateView::WaitForUserAction ==> highlighted(
            n,
            g,
            mine,
        ).0.state == NetworkStateView::SentHighlighted(mine),
{
}

} // verus!
