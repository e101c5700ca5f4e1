use bvs_core::bvs::{BvsConfig, Server};
use bvs_core::card_conf::{AreaType, CardConf, CardType, LuaCardConf};
use bvs_core::game_event::GameManipulationEvent;
use bvs_core::game_manipulation::{GameManipulation, LengthQuery};
use bvs_core::lua_call::{LuaArg, LuaCall};
use bvs_core::modules::Modules;
use bvs_core::native::{NativeCall, NativeValue};
use bvs_core::network::{needs_hands_left, NetCommand, Network};
use bvs_core::network_state::{NetworkEvent, NetworkState};
use bvs_core::peer::PeerId;

fn server() -> Server {
    Server::new("wss".to_string(), "matchbox.example".to_string(), 3536, "/".to_string())
}

fn modules() -> Modules {
    Modules::init(BvsConfig::new("1.0.0".to_string(), server()), 0, false)
}

fn names(calls: &[LuaCall]) -> Vec<String> {
    calls.iter().map(|c| c.name.clone()).collect()
}

fn card(type_: &str, label: &str) -> CardConf {
    CardConf::from_lua(LuaCardConf {
        label: label.to_string(),
        type_: type_.to_string(),
        center: "c_base".to_string(),
        card: "H_A".to_string(),
        center_key: "j_joker".to_string(),
        versus_center_id: 7,
        ability: "{}".to_string(),
        edition: "".to_string(),
        location: "jokers".to_string(),
        stay_flipped: false,
    })
    .unwrap()
}

fn opponent() -> PeerId {
    PeerId { id: 0x0123_4567_89ab_cdef_0011_2233_4455_6677 }
}

#[test]
fn peer_ids_are_written_as_uuids() {
    assert_eq!(opponent().to_text(), "01234567-89ab-cdef-0011-223344556677");
}

#[test]
fn card_types_have_lua_names() {
    assert_eq!(CardType::Joker.lua_name(), "joker");
    assert_eq!(CardType::Consumeable.lua_name(), "consumeable");
    assert_eq!(CardType::from_lua_name("joker"), Some(CardType::Joker));
    assert_eq!(CardType::from_lua_name("booster"), Some(CardType::Booster));
    assert_eq!(CardType::from_lua_name("Joker"), None);
    let err = CardConf::from_lua(LuaCardConf {
        label: String::new(),
        type_: "Nope".to_string(),
        center: String::new(),
        card: String::new(),
        center_key: String::new(),
        versus_center_id: 0,
        ability: String::new(),
        edition: String::new(),
        location: String::new(),
        stay_flipped: false,
    })
    .unwrap_err();
    assert_eq!(err, "Unknown card type: 'Nope'");
}

#[test]
fn cards_go_back_to_lua_unchanged() {
    let c = card("joker", "Jimbo");
    let l = LuaCardConf::from_card(&c);
    assert_eq!(l.type_, "joker");
    assert_eq!(l.label, "Jimbo");
    assert_eq!(l.versus_center_id, 7);
    assert_eq!(c.get_type(), CardType::Joker);
}

#[test]
fn random_matchmaking_connects_and_searches() {
    let mut m = modules();
    assert_eq!(m.network_start_matchmaking(false, 0), Ok(true));
    let commands = m.network_take_commands();
    assert!(matches!(&commands[..], [NetCommand::Connect(u)] if u == "wss://matchbox.example:3536/random?next=2"));
    assert!(matches!(m.game_manipulation_pending_length_query(), LengthQuery::NotNeeded));
    m.network_finish_poll(0);
    assert_eq!(names(&m.game_manipulation_take_lua_calls()), vec!["on_random_search".to_string()]);
    assert_eq!(m.network_start_matchmaking(true, 5), Ok(false));
    assert!(m.network_take_commands().is_empty());
}

#[test]
fn a_joining_peer_is_greeted_with_the_start_date() {
    let mut m = modules();
    assert!(!m.network_can_greet());
    m.network_start_matchmaking(false, 0).unwrap();
    m.network_take_commands();
    assert!(m.network_can_greet());
    m.network_on_peer_connected(opponent());
    let commands = m.network_take_commands();
    match &commands[..] {
        [NetCommand::Send(p, NetworkEvent::NewPeer(id, date, seed))] => {
            assert_eq!(*p, opponent());
            assert_eq!(id, "01234567-89ab-cdef-0011-223344556677");
            assert_eq!(date, "1970-01-01T00:00:00Z");
            assert_eq!(seed.len(), 8);
            assert!(seed.chars().all(|c| c.is_ascii_alphanumeric()));
        }
        other => panic!("unexpected {other:?}"),
    }
}

#[test]
fn the_earlier_searcher_gives_the_seed() {
    let mut m = modules();
    m.network_start_matchmaking(false, 1_000_000_000).unwrap();
    let greeting = NetworkEvent::NewPeer(
        "x".to_string(),
        "1970-01-01T00:00:00Z".to_string(),
        "OPPSEED1".to_string(),
    );
    assert_eq!(m.network_receive_message(opponent(), greeting, 0, 0), Ok(()));
    m.network_take_commands();
    m.network_finish_poll(0);
    m.network_finish_poll(0);
    let calls = m.game_manipulation_take_lua_calls();
    assert_eq!(names(&calls), vec!["on_random_search".to_string(), "on_random_found".to_string()]);
    assert_eq!(m.network_confirm_versus_matchmaking(), Ok(true));
    let commands = m.network_take_commands();
    assert!(matches!(&commands[..], [NetCommand::Send(p, NetworkEvent::ConfirmMatch)] if *p == opponent()));
    m.network_receive_message(opponent(), NetworkEvent::ConfirmMatch, 0, 0).unwrap();
    m.network_finish_poll(0);
    let calls = m.game_manipulation_take_lua_calls();
    assert_eq!(calls.len(), 1);
    assert_eq!(calls[0].name, "on_random_start");
    assert!(matches!(&calls[0].args[..], [LuaArg::Text(s)] if s == "OPPSEED1"));
}

#[test]
fn an_unreadable_greeting_date_is_refused() {
    let mut m = modules();
    m.network_start_matchmaking(false, 0).unwrap();
    let greeting = NetworkEvent::NewPeer("x".to_string(), "yesterday".to_string(), "S".to_string());
    assert_eq!(
        m.network_receive_message(opponent(), greeting, 0, 0),
        Err("the peer's connection date is not an RFC 3339 date".to_string())
    );
}

#[test]
fn nothing_is_sent_without_an_opponent() {
    let mut m = modules();
    assert_eq!(
        m.network_confirm_versus_matchmaking(),
        Err("Failed to confirm versus matchmaking".to_string())
    );
    assert_eq!(
        m.network_send_highlighted_card(vec![1, 2]),
        Err("Failed to send highlighted card".to_string())
    );
    assert_eq!(m.network_player_skip_booster(), Err("Failed to skip booster".to_string()));
    assert_eq!(m.network_send_reroll_shop(), Err("Failed to send reroll shop".to_string()));
    assert_eq!(m.network_send_sell_card(1, true), Err("Failed to send sell card".to_string()));
    assert_eq!(m.network_send_cash_out(5, false), Err("Failed to send cash out".to_string()));
    assert_eq!(m.network_rematch(), Err("Failed to send rematch request".to_string()));
    assert_eq!(
        m.network_send_bought_card(card("joker", "j"), "id".to_string()),
        Err("Failed to send bought card".to_string())
    );
    assert!(m.network_take_commands().is_empty());
    assert!(m.game_manipulation_take_lua_calls().is_empty());
}

#[test]
fn unknown_area_types_are_refused() {
    let mut m = modules();
    assert_eq!(
        m.network_player_use_consumeable_card(0, "hand".to_string(), vec![], vec![]),
        Err("Unknown area type: hand".to_string())
    );
    assert_eq!(
        m.network_player_use_consumeable_card(0, "pack_cards".to_string(), vec![], vec![]),
        Err("Failed to use consumeable card".to_string())
    );
}

fn matched() -> Modules {
    let mut m = modules();
    m.network_start_matchmaking(false, 0).unwrap();
    let greeting = NetworkEvent::NewPeer(
        "x".to_string(),
        "1970-01-01T00:00:01Z".to_string(),
        "OPPSEED1".to_string(),
    );
    m.network_receive_message(opponent(), greeting, 0, 0).unwrap();
    m.network_take_commands();
    m.network_finish_poll(0);
    m.network_finish_poll(0);
    m.game_manipulation_take_lua_calls();
    m
}

#[test]
fn highlighting_waits_for_the_opponent_then_plays() {
    let mut m = matched();
    m.network_wait_for_next_action().unwrap();
    assert_eq!(m.network_send_highlighted_card(vec![1, 3]), Ok(true));
    let commands = m.network_take_commands();
    assert!(matches!(&commands[..], [NetCommand::Send(_, NetworkEvent::HighlightedCard(c))] if *c == vec![1, 3]));
    let calls = m.game_manipulation_take_lua_calls();
    assert_eq!(calls.len(), 1);
    assert_eq!(calls[0].name, "on_update_message");
    m.network_receive_message(opponent(), NetworkEvent::HighlightedCard(vec![2]), 3, 0).unwrap();
    m.network_finish_poll(0);
    let calls = m.game_manipulation_take_lua_calls();
    assert_eq!(
        names(&calls),
        vec!["on_update_message".to_string(), "on_play_turn".to_string(), "on_stop_timer".to_string()]
    );
    m.network_finish_poll(0);
    assert!(m.game_manipulation_take_lua_calls().is_empty());
    m.game_manipulation_acknowledge_event().unwrap();
}

#[test]
fn highlighted_cards_need_the_hands_left() {
    assert!(needs_hands_left(&NetworkEvent::HighlightedCard(vec![])));
    assert!(!needs_hands_left(&NetworkEvent::Ping));
}

#[test]
fn a_ping_is_answered_and_timed() {
    let mut m = matched();
    m.network_ping_if_due(5_000);
    let commands = m.network_take_commands();
    assert!(matches!(&commands[..], [NetCommand::Send(_, NetworkEvent::Ping)]));
    m.network_ping_if_due(9_000);
    assert!(m.network_take_commands().is_empty());
    m.network_receive_message(opponent(), NetworkEvent::Pong, 0, 5_120).unwrap();
    m.network_receive_message(opponent(), NetworkEvent::Ping, 0, 5_200).unwrap();
    let commands = m.network_take_commands();
    assert!(matches!(&commands[..], [NetCommand::Send(_, NetworkEvent::Pong)]));
    m.network_finish_poll(0);
    let calls = m.game_manipulation_take_lua_calls();
    assert_eq!(calls.len(), 1);
    assert_eq!(calls[0].name, "on_rtt_updated");
    assert!(matches!(&calls[0].args[..], [LuaArg::Usize(120)]));
}

#[test]
fn cash_out_starts_the_shop_timer_unless_the_shop_ends() {
    let mut m = matched();
    assert_eq!(m.network_send_cash_out(12, false), Ok(()));
    let calls = m.game_manipulation_take_lua_calls();
    assert_eq!(calls.len(), 1);
    assert_eq!(calls[0].name, "on_create_timer");
    assert!(matches!(&calls[0].args[..], [LuaArg::Usize(65), LuaArg::Text(t), LuaArg::Bool(true)] if t == "on_shop_action_over"));
    assert_eq!(m.network_send_cash_out(12, true), Ok(()));
    assert!(m.game_manipulation_take_lua_calls().is_empty());
    let commands = m.network_take_commands();
    assert!(matches!(&commands[..], [NetCommand::Send(_, NetworkEvent::Cashout(12)), NetCommand::Send(_, NetworkEvent::Cashout(12))]));
}

#[test]
fn the_opponent_leaving_ends_the_match() {
    let mut m = matched();
    m.network_on_peer_disconnected();
    let commands = m.network_take_commands();
    assert!(matches!(&commands[..], [NetCommand::Close]));
    m.network_finish_poll(0);
    let calls = m.game_manipulation_take_lua_calls();
    assert_eq!(names(&calls), vec!["on_opponent_disconnected_from_found".to_string()]);
    m.network_on_peer_disconnected();
    assert!(m.network_take_commands().is_empty());
}

#[test]
fn quitting_closes_the_connection() {
    let mut m = matched();
    assert_eq!(m.network_quit_matchmaking(true), Ok(true));
    let commands = m.network_take_commands();
    assert!(matches!(&commands[..], [NetCommand::Close, NetCommand::Reset]));
    assert_eq!(m.network_quit_matchmaking(false), Ok(false));
}

#[test]
fn friendly_rooms_have_eight_character_codes() {
    let mut m = modules();
    let code = m.network_start_versus_friendlies(false, 0).unwrap();
    assert_eq!(code.len(), 8);
    assert!(code.chars().all(|c| c.is_ascii_alphanumeric()));
    let commands = m.network_take_commands();
    assert!(matches!(&commands[..], [NetCommand::Connect(u)] if *u == format!("wss://matchbox.example:3536/{code}?next=2")));
    let mut other = modules();
    assert_eq!(
        other.network_start_versus_friendlies(true, 0),
        Err("Failed to start versus friendlies".to_string())
    );
    assert_eq!(other.network_start_versus_friendlies_pairing("ABCD1234".to_string(), false, 0), Ok(true));
    let commands = other.network_take_commands();
    assert!(matches!(&commands[..], [NetCommand::Connect(u)] if u == "wss://matchbox.example:3536/ABCD1234?next=2"));
}

#[test]
fn alignments_reorder_the_opponent_cards() {
    let aligns = vec![vec![1, 3], vec![2, 3]];
    assert_eq!(GameManipulation::get_cards_alignements_update(&aligns, 4), vec![3, 1, 2, 4]);
    let outside = vec![vec![1, 9]];
    assert_eq!(GameManipulation::get_cards_alignements_update(&outside, 3), vec![1, 2, 3]);
}

#[test]
fn alignments_wait_for_the_card_count() {
    let mut g = GameManipulation::new();
    g.register_event(GameManipulationEvent::NewHandCardsAlignement(vec![1, 2], "hand".to_string()));
    match g.pending_length_query() {
        LengthQuery::Call(name) => assert_eq!(name, "get_opponent_hand_length"),
        other => panic!("unexpected {other:?}"),
    }
    g.process_events(2);
    let calls = g.take_lua_calls();
    assert_eq!(calls.len(), 1);
    assert_eq!(calls[0].name, "on_opponent_new_card_alignement");
    assert!(matches!(&calls[0].args[..], [LuaArg::Indices(c), LuaArg::Text(t)] if *c == vec![2, 1] && t == "hand"));
    g.register_event(GameManipulationEvent::NewHandCardsAlignement(vec![1], "deck".to_string()));
    assert!(matches!(g.pending_length_query(), LengthQuery::UnknownType(t) if t == "deck"));
}

#[test]
fn events_wait_for_acknowledgement() {
    let mut g = GameManipulation::new();
    g.register_event(GameManipulationEvent::PlayTurn(vec![1]));
    g.register_event(GameManipulationEvent::RerollShop);
    g.process_events(0);
    assert!(g.is_waiting_for_acknowledge());
    g.process_events(0);
    assert_eq!(g.queued_events(), 1);
    g.acknowledge_event();
    g.process_events(0);
    assert_eq!(g.queued_events(), 0);
    assert_eq!(
        names(&g.take_lua_calls()),
        vec!["on_play_turn".to_string(), "on_opponent_reroll_shop".to_string()]
    );
}

#[test]
fn the_shop_holds_events_back() {
    let mut g = GameManipulation::new();
    g.start_player_shop();
    g.register_event(GameManipulationEvent::OnRandomFound);
    g.process_events(0);
    assert_eq!(g.queued_events(), 1);
    g.end_player_shop();
    g.process_events(0);
    assert_eq!(g.queued_events(), 0);
}

#[test]
fn the_turn_timer_follows_the_state() {
    let mut g = GameManipulation::new();
    g.handle_timer_with_state_update(&NetworkState::WaitForUserAction);
    g.handle_timer_with_state_update(&NetworkState::WaitForUserAction);
    g.handle_timer_with_state_update(&NetworkState::PlayTurn(vec![]));
    let calls = g.take_lua_calls();
    assert_eq!(names(&calls), vec!["on_create_timer".to_string(), "on_stop_timer".to_string()]);
    assert!(matches!(&calls[0].args[..], [LuaArg::Usize(45), LuaArg::Text(t)] if t == "on_wait_for_user_action_over"));
}

#[test]
fn seeds_can_be_set() {
    let mut g = GameManipulation::new();
    g.set_seed("ABCDEFGH".to_string());
    assert_eq!(g.get_seed(), "ABCDEFGH");
    g.regenerate_seed();
    assert_eq!(g.get_seed().len(), 8);
    assert!(g.is_acknowledge_needed(&GameManipulationEvent::EndShopAndStartNewRound));
    assert!(!g.is_acknowledge_needed(&GameManipulationEvent::CashOut));
}

#[test]
fn a_new_match_is_idle() {
    let n = Network::new(0);
    assert!(matches!(n.state(), NetworkState::Idle));
    assert_eq!(n.rtt(), 0);
    assert_eq!(n.opponent(), None);
    let _ = AreaType::Consumeables;
}

fn ctx(socket_present: bool) -> bvs_core::native::CallContext {
    bvs_core::native::CallContext { socket_present, now: 0, auto_update_disabled: false }
}

#[test]
fn native_calls_answer_like_their_functions() {
    let mut m = modules();
    assert_eq!(m.dispatch(NativeCall::UpdaterIsThunderstoreBuild, ctx(false)), Ok(vec![NativeValue::Bool(false)]));
    assert_eq!(
        m.dispatch(NativeCall::UpdaterGetLastVersion, ctx(false)),
        Ok(vec![NativeValue::Text("0.0.0".to_string())])
    );
    assert_eq!(m.dispatch(NativeCall::NetworkStartMatchmaking, ctx(false)), Ok(vec![NativeValue::Bool(true)]));
    assert_eq!(m.dispatch(NativeCall::NetworkPlayerSortHandSuit, ctx(true)), Ok(vec![]));
    assert_eq!(
        m.dispatch(NativeCall::NetworkRematch, ctx(true)),
        Err("Failed to send rematch request".to_string())
    );
    assert_eq!(
        m.dispatch(
            NativeCall::NetworkPlayerUseConsumeableCard(1, "deck".to_string(), vec![], vec![]),
            ctx(true)
        ),
        Err("Unknown area type: deck".to_string())
    );
    assert_eq!(m.dispatch(NativeCall::NetworkQuitMatchmaking, ctx(true)), Ok(vec![NativeValue::Bool(true)]));
    let commands = m.network_take_commands();
    assert!(matches!(&commands[..], [NetCommand::Connect(_), NetCommand::Close, NetCommand::Reset]));
}

#[test]
fn the_first_ping_waits_three_seconds_after_the_modules_are_made() {
    let mut m = Modules::init(BvsConfig::new("1.0.0".to_string(), server()), 10_000, false);
    m.network_start_matchmaking(false, 0).unwrap();
    let greeting = NetworkEvent::NewPeer(
        "x".to_string(),
        "1970-01-01T00:00:01Z".to_string(),
        "OPPSEED1".to_string(),
    );
    m.network_receive_message(opponent(), greeting, 0, 0).unwrap();
    m.network_take_commands();
    m.network_ping_if_due(12_000);
    assert!(m.network_take_commands().is_empty());
    m.network_ping_if_due(13_000);
    let commands = m.network_take_commands();
    assert!(matches!(&commands[..], [NetCommand::Send(_, NetworkEvent::Ping)]));
}

#[test]
fn native_names_name_their_functions() {
    assert_eq!(bvs_core::bridge::native_name("network_reset"), Some(bvs_core::bridge::NativeName::NetworkReset));
    assert_eq!(
        bvs_core::bridge::native_name("updater_check_for_update"),
        Some(bvs_core::bridge::NativeName::UpdaterCheckForUpdate)
    );
    assert_eq!(bvs_core::bridge::native_name("network_rematch"), Some(bvs_core::bridge::NativeName::NetworkRematch));
    assert_eq!(bvs_core::bridge::native_name("network_rematch "), None);
    assert_eq!(bvs_core::bridge::native_name(""), None);
    for name in bvs_core::bridge::native_functions() {
        assert!(bvs_core::bridge::native_name(name).is_some(), "{name}");
    }
}
