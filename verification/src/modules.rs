//! The modules the game talks to, as one value: the match, the game side, the
//! updater and the configuration, and what each native function does to them.
use vstd::prelude::*;
use vstd::string::*;

use crate::bvs::{BvsConfig, BvsConfigView};
use crate::card_conf::{AreaType, CardConf};
use crate::bvs::Server;
use crate::game_event::{GameEventView, GameManipulationEvent};
use crate::game_manipulation::{length_query_of, GameManipulation, GameManipulationView, LengthQuery};
use crate::lua_call::{calls_view, cards_view, opt_card_view, LuaCall, LuaCallView};
use crate::network::{
    commands_view, confirmed, highlighted, idle_network, paired, quit, rematched, started_friendlies,
    started_matchmaking, waited_before, bad_date_error, elapsed_ms, NetCommand, NetCommandView, Network,
    NetworkView,
};
use crate::clock::{rfc3339_text, rfc3339_writable};
use crate::peer::uuid_text;
use crate::network_state::{NetworkEvent, NetworkEventView, NetworkStateView};
use crate::peer::PeerId;
use crate::rng::is_alphanumeric_text;
use crate::text::{concat2, owned};
use crate::updater::{repository_api_url, releases_base_url, Updater, UpdaterView};
use crate::version::{parse_version, semver_accepts, semver_order, version_order};

verus! {

/// Work for the updater that only the outside world can do.
#[derive(Debug)]
pub enum UpdaterCommand {
    /// Look up the latest release tag of the repository at this API address.
    FetchLastVersion(String),
    /// Download the release named by the second text from the address of
    /// releases in the first.
    Download(String, String),
    /// Show this message to the player.
    Notify(String),
    /// Install the downloaded release.
    Install,
}

/// The value of an updater command.
pub enum UpdaterCommandView {
    FetchLastVersion(Seq<char>),
    Download(Seq<char>, Seq<char>),
    Notify(Seq<char>),
    Install,
}

impl View for UpdaterCommand {
    type V = UpdaterCommandView;

    open spec fn view(&self) -> UpdaterCommandView {
        match self {
            UpdaterCommand::FetchLastVersion(u) => UpdaterCommandView::FetchLastVersion(u@),
            UpdaterCommand::Download(u, v) => UpdaterCommandView::Download(u@, v@),
            UpdaterCommand::Notify(m) => UpdaterCommandView::Notify(m@),
            UpdaterCommand::Install => UpdaterCommandView::Install,
        }
    }
}

/// The values of a sequence of updater commands.
pub open spec fn updater_commands_view(v: Seq<UpdaterCommand>) -> Seq<UpdaterCommandView> {
    v.map_values(|c: UpdaterCommand| c@)
}

/// The mathematical value of the modules.
pub struct ModulesView {
    pub network: NetworkView,
    pub game_manipulation: GameManipulationView,
    pub updater: UpdaterView,
    pub config: BvsConfigView,
    pub thunderstore_build: bool,
    pub updater_commands: Seq<UpdaterCommandView>,
}

/// The match, the game side, the updater, the configuration they were made
/// with, whether the build is the Thunderstore one (which leaves updates to
/// Thunderstore), and the updater's work decided on and not yet handed out.
pub struct Modules {
    network: Network,
    game_manipulation: GameManipulation,
    updater: Updater,
    config: BvsConfig,
    thunderstore_build: bool,
    updater_commands: Vec<UpdaterCommand>,
}

impl View for Modules {
    type V = ModulesView;

    closed spec fn view(&self) -> ModulesView {
        ModulesView {
            network: self.network@,
            game_manipulation: self.game_manipulation@,
            updater: self.updater@,
            config: self.config@,
            thunderstore_build: self.thunderstore_build,
            updater_commands: updater_commands_view(self.updater_commands@),
        }
    }
}

impl ModulesView {
    /// The match is well formed.
    pub open spec fn wf(self) -> bool {
        self.network.wf()
    }

    /// These modules with the match `n` and the game side `g`.
    pub open spec fn with_match(self, n: NetworkView, g: GameManipulationView) -> ModulesView {
        ModulesView { network: n, game_manipulation: g, ..self }
    }

    /// These modules with the match `n`.
    pub open spec fn with_network(self, n: NetworkView) -> ModulesView {
        ModulesView { network: n, ..self }
    }

    /// These modules with the game side `g`.
    pub open spec fn with_game(self, g: GameManipulationView) -> ModulesView {
        ModulesView { game_manipulation: g, ..self }
    }

    /// These modules with one more updater command.
    pub open spec fn with_updater_command(self, c: UpdaterCommandView) -> ModulesView {
        ModulesView { updater_commands: self.updater_commands.push(c), ..self }
    }
}

/// The message shown when a newer release `last` than the running `current` is found.
pub open spec fn new_version_message(last: Seq<char>, current: Seq<char>) -> Seq<char> {
    "[BVS] New version available: "@ + last + " (current: "@ + current + "), starting download"@
}

/// The message shown by a Thunderstore build when a newer release `last`
/// than the running `current` is found.
pub open spec fn thunderstore_update_message(last: Seq<char>, current: Seq<char>) -> Seq<char> {
    "[BVS] New version available: "@ + last + " (current: "@ + current
        + "), please update through Thunderstore"@
}

/// Whether the running version `current` is older than the released `last`,
/// as `semver` reads and orders them; unreadable versions never are.
pub open spec fn is_older(current: Seq<char>, last: Seq<char>) -> bool {
    semver_accepts(current) && semver_accepts(last) && semver_order(current, last) == -1
}

/// What checking for an update does, when auto-update is on and no update
/// is running: unknown versions (`0.0.0`) answer `false` and no newer
/// release answers `true`, nothing done either way; a newer release answers
/// `false` and, in a Thunderstore build, is announced with the game to be
/// restarted (nothing downloaded), in any other build starts its download.
pub open spec fn checked_for_update(m: ModulesView) -> (ModulesView, bool) {
    let current = m.updater.current_version;
    let last = m.updater.last_version;
    if current == "0.0.0"@ || last == "0.0.0"@ {
        (m, false)
    } else if is_older(current, last) && m.thunderstore_build {
        (
            ModulesView {
                updater: UpdaterView { should_update: true, ..m.updater },
                ..m
            }.with_updater_command(
                UpdaterCommandView::Notify(thunderstore_update_message(last, current)),
            ),
            false,
        )
    } else if is_older(current, last) {
        (
            ModulesView {
                updater: UpdaterView { is_updating: true, ..m.updater },
                ..m
            }.with_updater_command(
                UpdaterCommandView::Notify(new_version_message(last, current)),
            ).with_updater_command(
                UpdaterCommandView::Download(m.updater.base_download_url, last),
            ),
            false,
        )
    } else {
        (m, true)
    }
}

impl Modules {
    /// The modules for the configuration `config`, made at `now` (milliseconds
    /// on the caller's clock) for a build that is the Thunderstore one or not:
    /// an idle match, a game side with a fresh seed, and an updater that runs
    /// the configured version.
    pub fn init(config: BvsConfig, now: u64, thunderstore_build: bool) -> (r: Modules)
        ensures
            r@.wf(),
            r@.config == config@,
            r@.thunderstore_build == thunderstore_build,
            r@.network == idle_network(now),
            r@.game_manipulation.seed.len() == 8,
            is_alphanumeric_text(r@.game_manipulation.seed),
            r@.game_manipulation == GameManipulationView::fresh(r@.game_manipulation.seed),
            r@.updater == (UpdaterView {
                current_version: config@.version,
                last_version: "0.0.0"@,
                repository_url: repository_api_url(),
                base_download_url: releases_base_url(),
                is_updating: false,
                should_update: false,
            }),
            r@.updater_commands == Seq::<UpdaterCommandView>::empty(),
    {
        let mut updater = Updater::new();
        updater.update_current_version(&config);
        let r = Modules {
            network: Network::new(now),
            game_manipulation: GameManipulation::new(),
            updater,
            config,
            thunderstore_build,
            updater_commands: Vec::new(),
        };
        assert(r@.updater_commands =~= Seq::<UpdaterCommandView>::empty());
        r
    }

    fn push_updater_command(&mut self, c: UpdaterCommand)
        ensures
            final(self)@ == old(self)@.with_updater_command(c@),
    {
        self.updater_commands.push(c);
        assert(updater_commands_view(self.updater_commands@) =~= updater_commands_view(
            old(self).updater_commands@,
        ).push(c@));
    }

    /// Hands out the updater's work decided on so far, in order, and forgets it.
    pub fn take_updater_commands(&mut self) -> (r: Vec<UpdaterCommand>)
        ensures
            updater_commands_view(r@) == old(self)@.updater_commands,
            final(self)@ == (ModulesView {
                updater_commands: Seq::<UpdaterCommandView>::empty(),
                ..old(self)@
            }),
    {
        let mut taken: Vec<UpdaterCommand> = Vec::new();
        std::mem::swap(&mut taken, &mut self.updater_commands);
        assert(updater_commands_view(self.updater_commands@) =~= Seq::<UpdaterCommandView>::empty());
        taken
    }

    /// The running version becomes the configured one.
    pub fn updater_update_current_version(&mut self) -> (r: Result<(), String>)
        ensures
            r is Ok,
            final(self)@ == (ModulesView {
                updater: UpdaterView { current_version: old(self)@.config.version, ..old(self)@.updater },
                ..old(self)@
            }),
    {
        self.updater.update_current_version(&self.config);
        Ok(())
    }

    /// Unless auto-update is off, has the latest release looked up.
    pub fn updater_get_and_update_last_version(&mut self, auto_update_disabled: bool) -> (r: Result<
        (),
        String,
    >)
        ensures
            r is Ok,
            final(self)@ == if auto_update_disabled {
                old(self)@
            } else {
                old(self)@.with_updater_command(
                    UpdaterCommandView::FetchLastVersion(old(self)@.updater.repository_url),
                )
            },
    {
        if auto_update_disabled {
            return Ok(());
        }
        let url = owned(self.updater.get_repository_url());
        self.push_updater_command(UpdaterCommand::FetchLastVersion(url));
        Ok(())
    }

    /// The latest release was looked up: it is `version`.
    pub fn updater_set_last_version(&mut self, version: String)
        ensures
            final(self)@ == (ModulesView {
                updater: UpdaterView { last_version: version@, ..old(self)@.updater },
                ..old(self)@
            }),
    {
        self.updater.set_last_version(version);
    }

    /// The download of a release succeeded: the game should restart to update.
    pub fn updater_download_finished(&mut self)
        ensures
            final(self)@ == (ModulesView {
                updater: UpdaterView { should_update: true, ..old(self)@.updater },
                ..old(self)@
            }),
    {
        self.updater.set_should_update(true);
    }

    pub fn updater_should_update(&mut self) -> (r: Result<bool, String>)
        ensures
            r == Ok::<bool, String>(old(self)@.updater.should_update),
            final(self)@ == old(self)@,
    {
        Ok(self.updater.should_update())
    }

    /// Whether the running version is up to date; when a newer release is
    /// known, it is announced and its download starts (once), or, in a
    /// Thunderstore build, the game is to restart for Thunderstore to update
    /// it. With auto-update off the answer is always yes, and while an update
    /// runs always no.
    pub fn updater_check_for_update(&mut self, auto_update_disabled: bool) -> (r: Result<
        bool,
        String,
    >)
        ensures
            r is Ok,
            auto_update_disabled ==> r == Ok::<bool, String>(true) && final(self)@ == old(self)@,
            !auto_update_disabled && old(self)@.updater.is_updating ==> r == Ok::<bool, String>(
                false,
            ) && final(self)@ == old(self)@,
            !auto_update_disabled && !old(self)@.updater.is_updating ==> (final(self)@, r->Ok_0)
                == checked_for_update(old(self)@),
    {
        if auto_update_disabled {
            return Ok(true);
        }
        if self.updater.is_updating() {
            return Ok(false);
        }
        let current_version = self.updater.get_current_version();
        let last_version = self.updater.get_last_version();
        proof {
            reveal_strlit("0.0.0");
        }
        if crate::text::str_eq(current_version.as_str(), "0.0.0") || crate::text::str_eq(
            last_version.as_str(),
            "0.0.0",
        ) {
            return Ok(false);
        }
        let needs_update = match (
            parse_version(current_version.as_str()),
            parse_version(last_version.as_str()),
        ) {
            (Some(current), Some(last)) => version_order(&current, &last) == -1,
            _ => false,
        };
        if needs_update && self.thunderstore_build {
            let mut message = concat2("[BVS] New version available: ", last_version.as_str());
            message.append(" (current: ");
            message.append(current_version.as_str());
            message.append("), please update through Thunderstore");
            self.push_updater_command(UpdaterCommand::Notify(message));
            self.updater.set_should_update(true);
            return Ok(false);
        }
        if needs_update {
            let mut message = concat2("[BVS] New version available: ", last_version.as_str());
            message.append(" (current: ");
            message.append(current_version.as_str());
            message.append("), starting download");
            self.push_updater_command(UpdaterCommand::Notify(message));
            let url = owned(self.updater.get_base_download_url());
            self.updater.set_is_updating(true);
            self.push_updater_command(UpdaterCommand::Download(url, last_version));
            return Ok(false);
        }
        Ok(true)
    }

    /// Installs the downloaded release; a Thunderstore build installs nothing.
    pub fn updater_update(&mut self) -> (r: Result<(), String>)
        ensures
            r is Ok,
            final(self)@ == if old(self)@.thunderstore_build {
                old(self)@
            } else {
                old(self)@.with_updater_command(UpdaterCommandView::Install)
            },
    {
        if !self.thunderstore_build {
            self.push_updater_command(UpdaterCommand::Install);
        }
        Ok(())
    }

    /// Whether these modules were made for the Thunderstore build.
    pub fn updater_is_thunderstore_build(&self) -> (r: Result<bool, String>)
        ensures
            r == Ok::<bool, String>(self@.thunderstore_build),
    {
        Ok(self.thunderstore_build)
    }

    pub fn updater_get_last_version(&self) -> (r: Result<String, String>)
        ensures
            r matches Ok(v) && v@ == self@.updater.last_version,
    {
        Ok(self.updater.get_last_version())
    }
}

/// The error text for an area type that is neither `consumeables` nor `pack_cards`.
pub open spec fn unknown_area_error(area_type: Seq<char>) -> Seq<char> {
    "Unknown area type: "@ + area_type
}

/// The area that a native area name names.
pub open spec fn area_of_name(name: Seq<char>) -> Option<AreaType> {
    if name == "consumeables"@ {
        Some(AreaType::Consumeables)
    } else if name == "pack_cards"@ {
        Some(AreaType::PackCards)
    } else {
        None
    }
}

/// Success with `v`, or failure with the error text `error`, as `ok` says.
pub open spec fn outcome<T>(ok: bool, v: T, error: Seq<char>, r: Result<T, String>) -> bool {
    if ok {
        r == Ok::<T, String>(v)
    } else {
        r matches Err(e) && e@ == error
    }
}

impl Modules {
    /// The configured server.
    fn server(&self) -> (r: Server)
        ensures
            r@ == self@.config.server,
    {
        self.config.get_server()
    }

    /// Starts a random match; `socket_present` says whether a connection
    /// exists and `now` is the clock, in nanoseconds after the Unix epoch.
    pub fn network_start_matchmaking(&mut self, socket_present: bool, now: i128) -> (r: Result<
        bool,
        String,
    >)
        requires
            old(self)@.wf(),
        ensures
            final(self)@.wf(),
            final(self)@ == old(self)@.with_match(final(self)@.network, final(self)@.game_manipulation),
            r matches Ok(b) && started_matchmaking(
                old(self)@.network,
                old(self)@.game_manipulation,
                socket_present,
                old(self)@.config.server,
                now,
                final(self)@.network,
                final(self)@.game_manipulation,
                b,
            ),
    {
        let server = self.server();
        let res = self.network.start_matchmaking(&mut self.game_manipulation, socket_present, &server, now);
        Ok(res)
    }

    /// Starts a friendly match and returns its room code; fails when no room
    /// code is known (a connection existed before any code was drawn).
    pub fn network_start_versus_friendlies(&mut self, socket_present: bool, now: i128) -> (r: Result<
        String,
        String,
    >)
        requires
            old(self)@.wf(),
        ensures
            final(self)@.wf(),
            final(self)@ == old(self)@.with_network(final(self)@.network),
            started_friendlies(
                old(self)@.network,
                socket_present,
                old(self)@.config.server,
                now,
                final(self)@.network,
                final(self)@.network.friendly_room_code,
            ),
            match r {
                Ok(code) => code@ == final(self)@.network.friendly_room_code && code@.len() > 0,
                Err(e) => final(self)@.network.friendly_room_code.len() == 0 && e@ == "Failed to start versus friendlies"@,
            },
    {
        let server = self.server();
        let res = self.network.start_versus_friendlies(socket_present, &server, now);
        if res.as_str().unicode_len() == 0 {
            return Err(owned("Failed to start versus friendlies"));
        }
        Ok(res)
    }

    /// Joins the friendly room `room_code`.
    pub fn network_start_versus_friendlies_pairing(
        &mut self,
        room_code: String,
        socket_present: bool,
        now: i128,
    ) -> (r: Result<bool, String>)
        requires
            old(self)@.wf(),
        ensures
            final(self)@.wf(),
            r == Ok::<bool, String>(true),
            final(self)@ == old(self)@.with_network(
                paired(old(self)@.network, room_code@, socket_present, old(self)@.config.server, now),
            ),
    {
        let server = self.server();
        let res = self.network.start_versus_friendlies_pairing(room_code, socket_present, &server, now);
        Ok(res)
    }

    /// Leaves the matchmaking server; the result says whether there was a connection.
    pub fn network_quit_matchmaking(&mut self, socket_present: bool) -> (r: Result<bool, String>)
        requires
            old(self)@.wf(),
        ensures
            final(self)@.wf(),
            r == Ok::<bool, String>(socket_present),
            final(self)@ == old(self)@.with_network(quit(old(self)@.network, socket_present)),
    {
        let res = self.network.quit_server(socket_present);
        Ok(res)
    }

    /// Confirms the match found; fails without an opponent.
    pub fn network_confirm_versus_matchmaking(&mut self) -> (r: Result<bool, String>)
        requires
            old(self)@.wf(),
        ensures
            final(self)@.wf(),
            ({
                let (n, g) = confirmed(old(self)@.network, old(self)@.game_manipulation);
                final(self)@ == old(self)@.with_match(n, g)
            }),
            outcome(
                old(self)@.network.opponent is Some,
                true,
                "Failed to confirm versus matchmaking"@,
                r,
            ),
    {
        let res = self.network.confirm_versus_matchmaking(&mut self.game_manipulation);
        if !res {
            return Err(owned("Failed to confirm versus matchmaking"));
        }
        Ok(res)
    }

    /// Sends the highlighted cards; fails without an opponent.
    pub fn network_send_highlighted_card(&mut self, highlighted_cards: Vec<usize>) -> (r: Result<
        bool,
        String,
    >)
        requires
            old(self)@.wf(),
        ensures
            final(self)@.wf(),
            ({
                let (n, g) = highlighted(
                    old(self)@.network,
                    old(self)@.game_manipulation,
                    highlighted_cards@,
                );
                final(self)@ == old(self)@.with_match(n, g)
            }),
            outcome(
                old(self)@.network.opponent is Some,
                true,
                "Failed to send highlighted card"@,
                r,
            ),
    {
        let res = self.network.send_highlighted_card(&mut self.game_manipulation, highlighted_cards);
        if !res {
            return Err(owned("Failed to send highlighted card"));
        }
        Ok(res)
    }

    /// The player may act now.
    pub fn network_wait_for_next_action(&mut self) -> (r: Result<(), String>)
        requires
            old(self)@.wf(),
        ensures
            final(self)@.wf(),
            r is Ok,
            final(self)@ == old(self)@.with_network(
                old(self)@.network.with_state(NetworkStateView::WaitForUserAction),
            ),
    {
        self.network.wait_for_next_action();
        Ok(())
    }

    /// Sends the new order of this side's cards of type `t`.
    pub fn network_send_to_opponent_new_cards_alignement(
        &mut self,
        alignement: Vec<usize>,
        t: String,
    ) -> (r: Result<(), String>)
        requires
            old(self)@.wf(),
        ensures
            final(self)@.wf(),
            r is Ok,
            final(self)@ == old(self)@.with_network(
                old(self)@.network.sent(NetworkEventView::NewCardAlignement(alignement@, t@)),
            ),
    {
        let _ = self.network.send_to_opponent_new_cards_alignement(alignement, t);
        Ok(())
    }

    pub fn network_player_sort_hand_suit(&mut self) -> (r: Result<(), String>)
        requires
            old(self)@.wf(),
        ensures
            final(self)@.wf(),
            r is Ok,
            final(self)@ == old(self)@.with_network(
                old(self)@.network.sent(NetworkEventView::SortedHandSuit),
            ),
    {
        self.network.player_sort_hand_suit();
        Ok(())
    }

    pub fn network_player_sort_hand_value(&mut self) -> (r: Result<(), String>)
        requires
            old(self)@.wf(),
        ensures
            final(self)@.wf(),
            r is Ok,
            final(self)@ == old(self)@.with_network(
                old(self)@.network.sent(NetworkEventView::SortedHandValue),
            ),
    {
        self.network.player_sort_hand_value();
        Ok(())
    }

    pub fn network_player_discarded_cards(&mut self, discarded_cards: Vec<usize>) -> (r: Result<
        (),
        String,
    >)
        requires
            old(self)@.wf(),
        ensures
            final(self)@.wf(),
            r is Ok,
            final(self)@ == old(self)@.with_match(
                old(self)@.network.sent(NetworkEventView::DiscardedCards(discarded_cards@)),
                if old(self)@.network.opponent is Some {
                    old(self)@.game_manipulation.registered(GameEventView::DiscardedHandCards)
                } else {
                    old(self)@.game_manipulation
                },
            ),
    {
        self.network.player_discarded_cards(discarded_cards, &mut self.game_manipulation);
        Ok(())
    }

    pub fn network_has_opponent_highlithed_cards(&mut self) -> (r: Result<bool, String>)
        ensures
            r == Ok::<bool, String>(old(self)@.network.state is OpponentHighlighted),
            final(self)@ == old(self)@,
    {
        Ok(self.network.has_opponent_highlithed_cards())
    }

    pub fn network_send_new_card(&mut self, conf: CardConf) -> (r: Result<(), String>)
        requires
            old(self)@.wf(),
        ensures
            final(self)@.wf(),
            r is Ok,
            final(self)@ == old(self)@.with_network(
                old(self)@.network.sent(NetworkEventView::NewCardToEmplace(conf@)),
            ),
    {
        self.network.send_new_card(conf);
        Ok(())
    }

    pub fn game_manipulation_acknowledge_event(&mut self) -> (r: Result<(), String>)
        ensures
            r is Ok,
            final(self)@ == old(self)@.with_game(old(self)@.game_manipulation.acknowledged()),
    {
        self.game_manipulation.acknowledge_event();
        Ok(())
    }

    pub fn game_manipulation_start_player_shop(&mut self) -> (r: Result<(), String>)
        ensures
            r is Ok,
            final(self)@ == old(self)@.with_game(
                GameManipulationView { is_player_shopping: true, ..old(self)@.game_manipulation },
            ),
    {
        self.game_manipulation.start_player_shop();
        Ok(())
    }

    /// At the end of the shop: waits for the opponent before playing out the
    /// rest of its events, then stops the shop timer.
    pub fn network_wait_for_opponent_action_on_end_shop(&mut self) -> (r: Result<(), String>)
        requires
            old(self)@.wf(),
        ensures
            final(self)@.wf(),
            r is Ok,
            ({
                let (n, g) = waited_before(
                    old(self)@.network,
                    old(self)@.game_manipulation,
                    GameEventView::ProcessRemainingEvents,
                );
                final(self)@ == old(self)@.with_match(
                    n,
                    g.registered(GameEventView::WaitForOpponentAction),
                )
            }),
    {
        self.network.wait_for_opponent_action_before(
            &mut self.game_manipulation,
            GameManipulationEvent::ProcessRemainingEvents,
        );
        self.game_manipulation.register_event(GameManipulationEvent::WaitForOpponentAction);
        Ok(())
    }

    /// After the opponent's shop events: waits for the opponent before the next round.
    pub fn network_wait_for_opponent_action_on_end_shop_after_events(&mut self) -> (r: Result<
        (),
        String,
    >)
        requires
            old(self)@.wf(),
        ensures
            final(self)@.wf(),
            r is Ok,
            ({
                let (n, g) = waited_before(
                    old(self)@.network,
                    old(self)@.game_manipulation,
                    GameEventView::EndShopAndStartNewRound,
                );
                final(self)@ == old(self)@.with_match(n, g)
            }),
    {
        self.network.wait_for_opponent_action_before(
            &mut self.game_manipulation,
            GameManipulationEvent::EndShopAndStartNewRound,
        );
        Ok(())
    }

    /// Sends that a consumeable of the area named `area_type` was used; fails
    /// on an unknown area name, or without an opponent.
    pub fn network_player_use_consumeable_card(
        &mut self,
        index: usize,
        area_type: String,
        cards_index: Vec<usize>,
        targets: Vec<CardConf>,
    ) -> (r: Result<(), String>)
        requires
            old(self)@.wf(),
        ensures
            final(self)@.wf(),
            match area_of_name(area_type@) {
                None => {
                    &&& final(self)@ == old(self)@
                    &&& r matches Err(e) && e@ == unknown_area_error(area_type@)
                },
                Some(area) => {
                    &&& final(self)@ == old(self)@.with_network(
                        old(self)@.network.sent(
                            NetworkEventView::UsedConsumeableCard(
                                index,
                                area,
                                cards_index@,
                                cards_view(targets@),
                            ),
                        ),
                    )
                    &&& outcome(
                        old(self)@.network.opponent is Some,
                        (),
                        "Failed to use consumeable card"@,
                        r,
                    )
                },
            },
    {
        proof {
            reveal_strlit("consumeables");
            reveal_strlit("pack_cards");
        }
        let area = if crate::text::str_eq(area_type.as_str(), "consumeables") {
            AreaType::Consumeables
        } else if crate::text::str_eq(area_type.as_str(), "pack_cards") {
            AreaType::PackCards
        } else {
            return Err(concat2("Unknown area type: ", area_type.as_str()));
        };
        let res = self.network.player_use_consumeable_card(index, area, cards_index, targets);
        if !res {
            return Err(owned("Failed to use consumeable card"));
        }
        Ok(())
    }

    pub fn network_player_use_voucher_card(&mut self, card: CardConf) -> (r: Result<(), String>)
        requires
            old(self)@.wf(),
        ensures
            final(self)@.wf(),
            final(self)@ == old(self)@.with_network(
                old(self)@.network.sent(NetworkEventView::VoucherUsed(card@)),
            ),
            outcome(old(self)@.network.opponent is Some, (), "Failed to use voucher card"@, r),
    {
        let res = self.network.player_use_voucher_card(card);
        if !res {
            return Err(owned("Failed to use voucher card"));
        }
        Ok(())
    }

    pub fn network_send_open_booster(
        &mut self,
        card: CardConf,
        shop_jokers_cards_conf: Vec<CardConf>,
    ) -> (r: Result<(), String>)
        requires
            old(self)@.wf(),
        ensures
            final(self)@.wf(),
            final(self)@ == old(self)@.with_network(
                old(self)@.network.sent(
                    NetworkEventView::OpenBooster(card@, cards_view(shop_jokers_cards_conf@)),
                ),
            ),
            outcome(old(self)@.network.opponent is Some, (), "Failed to send open booster"@, r),
    {
        let res = self.network.send_open_booster(card, shop_jokers_cards_conf);
        if !res {
            return Err(owned("Failed to send open booster"));
        }
        Ok(())
    }

    pub fn network_player_skip_booster(&mut self) -> (r: Result<(), String>)
        requires
            old(self)@.wf(),
        ensures
            final(self)@.wf(),
            final(self)@ == old(self)@.with_network(
                old(self)@.network.sent(NetworkEventView::HighlightedBoosterCard(seq![], None)),
            ),
            outcome(old(self)@.network.opponent is Some, (), "Failed to skip booster"@, r),
    {
        let res = self.network.player_skip_booster();
        if !res {
            return Err(owned("Failed to skip booster"));
        }
        Ok(())
    }

    pub fn network_send_new_card_from_booster(
        &mut self,
        card_index: usize,
        selected_card: Option<CardConf>,
    ) -> (r: Result<(), String>)
        requires
            old(self)@.wf(),
        ensures
            final(self)@.wf(),
            final(self)@ == old(self)@.with_network(
                old(self)@.network.sent(
                    NetworkEventView::HighlightedBoosterCard(
                        seq![card_index],
                        opt_card_view(selected_card),
                    ),
                ),
            ),
            outcome(old(self)@.network.opponent is Some, (), "Failed to send new card from booster"@, r),
    {
        let res = self.network.send_new_card_from_booster(card_index, selected_card);
        if !res {
            return Err(owned("Failed to send new card from booster"));
        }
        Ok(())
    }

    pub fn network_send_reroll_shop(&mut self) -> (r: Result<(), String>)
        requires
            old(self)@.wf(),
        ensures
            final(self)@.wf(),
            final(self)@ == old(self)@.with_network(
                old(self)@.network.sent(NetworkEventView::RerollShop),
            ),
            outcome(old(self)@.network.opponent is Some, (), "Failed to send reroll shop"@, r),
    {
        let res = self.network.send_reroll_shop();
        if !res {
            return Err(owned("Failed to send reroll shop"));
        }
        Ok(())
    }

    pub fn network_send_bought_card(&mut self, card: CardConf, id: String) -> (r: Result<(), String>)
        requires
            old(self)@.wf(),
        ensures
            final(self)@.wf(),
            final(self)@ == old(self)@.with_network(
                old(self)@.network.sent(NetworkEventView::BoughtCard(card@, id@)),
            ),
            outcome(old(self)@.network.opponent is Some, (), "Failed to send bought card"@, r),
    {
        let res = self.network.send_bought_card(card, id);
        if !res {
            return Err(owned("Failed to send bought card"));
        }
        Ok(())
    }

    pub fn network_send_sell_card(&mut self, index: usize, is_consumeable: bool) -> (r: Result<
        (),
        String,
    >)
        requires
            old(self)@.wf(),
        ensures
            final(self)@.wf(),
            final(self)@ == old(self)@.with_network(
                old(self)@.network.sent(NetworkEventView::SellCard(index, is_consumeable)),
            ),
            outcome(old(self)@.network.opponent is Some, (), "Failed to send sell card"@, r),
    {
        let res = self.network.send_sell_card(index, is_consumeable);
        if !res {
            return Err(owned("Failed to send sell card"));
        }
        Ok(())
    }

    /// Sends how much this side cashed out; unless the shop is ending, the
    /// shop timer starts. Fails without an opponent (and then starts no timer).
    pub fn network_send_cash_out(&mut self, to_send: i32, is_ending_shop: bool) -> (r: Result<
        (),
        String,
    >)
        requires
            old(self)@.wf(),
        ensures
            final(self)@.wf(),
            outcome(old(self)@.network.opponent is Some, (), "Failed to send cash out"@, r),
            final(self)@ == old(self)@.with_match(
                old(self)@.network.sent(NetworkEventView::Cashout(to_send)),
                if old(self)@.network.opponent is Some && !is_ending_shop {
                    old(self)@.game_manipulation.registered(GameEventView::CashOut)
                } else {
                    old(self)@.game_manipulation
                },
            ),
    {
        let res = self.network.send_cash_out(to_send);
        if !res {
            return Err(owned("Failed to send cash out"));
        }
        if !is_ending_shop {
            self.game_manipulation.register_event(GameManipulationEvent::CashOut);
        }
        Ok(())
    }

    /// Asks for, or accepts, a rematch; fails without an opponent.
    pub fn network_rematch(&mut self) -> (r: Result<(), String>)
        requires
            old(self)@.wf(),
        ensures
            final(self)@.wf(),
            final(self)@ == old(self)@.with_match(final(self)@.network, final(self)@.game_manipulation),
            rematched(
                old(self)@.network,
                old(self)@.game_manipulation,
                final(self)@.network,
                final(self)@.game_manipulation,
            ),
            outcome(old(self)@.network.opponent is Some, (), "Failed to send rematch request"@, r),
    {
        let res = self.network.rematch(&mut self.game_manipulation);
        if !res {
            return Err(owned("Failed to send rematch request"));
        }
        Ok(())
    }
}

impl Modules {
    /// Hands out the match's connection work decided on so far, in order.
    pub fn network_take_commands(&mut self) -> (r: Vec<NetCommand>)
        requires
            old(self)@.wf(),
        ensures
            final(self)@.wf(),
            commands_view(r@) == old(self)@.network.commands,
            final(self)@ == old(self)@.with_network(
                NetworkView { commands: Seq::<NetCommandView>::empty(), ..old(self)@.network },
            ),
    {
        self.network.take_commands()
    }

    /// Hands out the Lua calls the game side decided on so far, in order.
    pub fn game_manipulation_take_lua_calls(&mut self) -> (r: Vec<LuaCall>)
        ensures
            calls_view(r@) == old(self)@.game_manipulation.lua_calls,
            final(self)@ == old(self)@.with_game(
                GameManipulationView {
                    lua_calls: Seq::<LuaCallView>::empty(),
                    ..old(self)@.game_manipulation
                },
            ),
    {
        self.game_manipulation.take_lua_calls()
    }

    /// Whether a peer that joins can be greeted (the start date is known and
    /// writable as RFC 3339).
    pub fn network_can_greet(&self) -> (r: bool)
        ensures
            r == (self@.network.connected_date matches Some(d) && rfc3339_writable(d)),
    {
        self.network.can_greet()
    }

    /// A peer joined the room: it is greeted with its id, the start date and the seed.
    pub fn network_on_peer_connected(&mut self, peer: PeerId)
        requires
            old(self)@.wf(),
            old(self)@.network.connected_date matches Some(d) && rfc3339_writable(d),
        ensures
            final(self)@.wf(),
            final(self)@ == old(self)@.with_network(
                old(self)@.network.with_command(
                    NetCommandView::Send(
                        peer,
                        NetworkEventView::NewPeer(
                            uuid_text(peer.id),
                            rfc3339_text(old(self)@.network.connected_date.unwrap()),
                            old(self)@.game_manipulation.seed,
                        ),
                    ),
                ),
            ),
    {
        self.network.on_peer_connected(&self.game_manipulation, peer);
    }

    /// A peer left the room (see `Network::on_peer_disconnected`).
    pub fn network_on_peer_disconnected(&mut self)
        requires
            old(self)@.wf(),
        ensures
            final(self)@.wf(),
            final(self)@ == old(self)@.with_match(final(self)@.network, final(self)@.game_manipulation),
            old(self)@.network.opponent is None ==> final(self)@ == old(self)@,
            old(self)@.network.opponent is Some ==> {
                &&& final(self)@.network == (NetworkView {
                    opponent: None,
                    state: NetworkStateView::Idle,
                    ..old(self)@.network.with_command(NetCommandView::Close)
                })
                &&& final(self)@.game_manipulation.seed.len() == 8
                &&& is_alphanumeric_text(final(self)@.game_manipulation.seed)
                &&& final(self)@.game_manipulation == (GameManipulationView {
                    seed: final(self)@.game_manipulation.seed,
                    ..old(self)@.game_manipulation
                }).registered(
                    if old(self)@.network.state is Found || old(self)@.network.state is OpponentConfirm
                        || old(self)@.network.state is SelfConfirm
                        || old(self)@.network.state is Idle {
                        GameEventView::OpponentDisconnectedBeforeConfirm
                    } else {
                        GameEventView::OpponentDisconnectedInGame
                    },
                )
            },
    {
        self.network.on_peer_disconnected(&mut self.game_manipulation);
    }

    /// A message `event` from `peer` arrived (see `Network::receive_message`).
    pub fn network_receive_message(
        &mut self,
        peer: PeerId,
        event: NetworkEvent,
        hands_left: usize,
        now: u64,
    ) -> (r: Result<(), String>)
        requires
            old(self)@.wf(),
        ensures
            final(self)@.wf(),
            r is Ok <==> old(self)@.network.accepts(event@),
            r is Ok ==> ({
                let (n, g) = old(self)@.network.received(
                    old(self)@.game_manipulation,
                    peer,
                    event@,
                    hands_left,
                    now,
                );
                final(self)@ == old(self)@.with_match(n, g)
            }),
            r is Err ==> final(self)@ == old(self)@,
            r matches Err(e) ==> e@ == bad_date_error(),
    {
        self.network.receive_message(&mut self.game_manipulation, peer, event, hands_left, now)
    }

    /// Pings the opponent when one is due (see `Network::ping_if_due`).
    pub fn network_ping_if_due(&mut self, now: u64)
        requires
            old(self)@.wf(),
        ensures
            final(self)@.wf(),
            final(self)@ == old(self)@.with_network(final(self)@.network),
            if old(self)@.network.opponent is Some && elapsed_ms(
                old(self)@.network.ping_measurement,
                now,
            ) >= 3000 && !old(self)@.network.is_waiting_for_pong {
                final(self)@.network == (NetworkView {
                    ping_measurement: now,
                    is_waiting_for_pong: true,
                    ..old(self)@.network
                }).sent(NetworkEventView::Ping)
            } else {
                final(self)@.network == old(self)@.network
            },
    {
        self.network.ping_if_due(now);
    }

    /// The connection's channel closed: it is dropped.
    pub fn network_connection_lost(&mut self)
        requires
            old(self)@.wf(),
        ensures
            final(self)@.wf(),
            final(self)@ == old(self)@.with_network(
                old(self)@.network.with_command(NetCommandView::Reset),
            ),
    {
        self.network.connection_lost();
    }

    /// What the next round of events needs to know (see `GameManipulation::pending_length_query`).
    pub fn game_manipulation_pending_length_query(&self) -> (r: LengthQuery)
        ensures
            match r {
                LengthQuery::NotNeeded => !(self@.game_manipulation.ready()
                    && self@.game_manipulation.queue[0] is NewHandCardsAlignement),
                LengthQuery::Call(name) => self@.game_manipulation.ready()
                    && self@.game_manipulation.queue[0] is NewHandCardsAlignement && length_query_of(
                    self@.game_manipulation.queue[0]->NewHandCardsAlignement_1,
                ) == Some(name@),
                LengthQuery::UnknownType(t) => self@.game_manipulation.ready()
                    && self@.game_manipulation.queue[0] is NewHandCardsAlignement && t@
                    == self@.game_manipulation.queue[0]->NewHandCardsAlignement_1 && length_query_of(
                    t@,
                ) is None,
            },
    {
        self.game_manipulation.pending_length_query()
    }

    /// The end of a poll: the next event is played out (`opponent_length` as
    /// in `GameManipulation::process_events`) and the game's timer follows the
    /// match state.
    pub fn network_finish_poll(&mut self, opponent_length: usize)
        requires
            old(self)@.wf(),
            old(self)@.game_manipulation.front_type_known(),
        ensures
            final(self)@.wf(),
            final(self)@ == old(self)@.with_game(
                old(self)@.game_manipulation.processed(opponent_length as nat).timer_updated(
                    old(self)@.network.state,
                ),
            ),
    {
        self.game_manipulation.process_events(opponent_length);
        self.game_manipulation.handle_timer_with_state_update(self.network.state());
    }
}

} // verus!
