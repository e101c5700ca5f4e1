//! The native functions the game's Lua side can call, by name.
use vstd::prelude::*;
use vstd::string::*;

use crate::text::{concat3, str_eq};

verus! {

/// The names of the native functions, in the order they are listed to Lua.
pub open spec fn native_function_names() -> Seq<Seq<char>> {
    seq![
        "updater_get_and_update_last_version"@,
        "updater_check_for_update"@,
        "updater_update"@,
        "updater_should_update"@,
        "updater_is_thunderstore_build"@,
        "updater_get_last_version"@,
        "network_start_matchmaking"@,
        "network_start_versus_friendlies"@,
        "network_start_versus_friendlies_pairing"@,
        "network_reset"@,
        "network_is_ws_routine_finished"@,
        "network_quit_matchmaking"@,
        "network_poll_and_update"@,
        "network_confirm_versus_matchmaking"@,
        "network_send_highlighted_card"@,
        "network_wait_for_next_action"@,
        "network_send_to_opponent_new_cards_alignement"@,
        "network_player_sort_hand_suit"@,
        "network_player_sort_hand_value"@,
        "network_player_discarded_cards"@,
        "network_has_opponent_highlithed_cards"@,
        "game_manipulation_acknowledge_event"@,
        "game_manipulation_start_player_shop"@,
        "network_send_new_card"@,
        "network_wait_for_opponent_action_on_end_shop"@,
        "network_wait_for_opponent_action_on_end_shop_after_events"@,
        "network_player_use_consumeable_card"@,
        "network_player_use_voucher_card"@,
        "network_send_open_booster"@,
        "network_player_skip_booster"@,
        "network_send_new_card_from_booster"@,
        "network_send_reroll_shop"@,
        "network_send_bought_card"@,
        "network_send_sell_card"@,
        "network_send_cash_out"@,
        "network_rematch"@,
    ]
}

/// The names joined by `sep`.
pub open spec fn joined(names: Seq<Seq<char>>, sep: Seq<char>) -> Seq<char>
    decreases names.len(),
{
    if names.len() == 0 {
        Seq::empty()
    } else if names.len() == 1 {
        names[0]
    } else {
        joined(names.drop_last(), sep) + sep + names.last()
    }
}

/// The names of the native functions.
pub fn native_functions() -> (r: Vec<&'static str>)
    ensures
        r@.len() == native_function_names().len(),
        forall|i: int| 0 <= i < r@.len() ==> #[trigger] r@[i]@ == native_function_names()[i],
{
    let mut v: Vec<&'static str> = Vec::new();
    v.push("updater_get_and_update_last_version");
    v.push("updater_check_for_update");
    v.push("updater_update");
    v.push("updater_should_update");
    v.push("updater_is_thunderstore_build");
    v.push("updater_get_last_version");
    v.push("network_start_matchmaking");
    v.push("network_start_versus_friendlies");
    v.push("network_start_versus_friendlies_pairing");
    v.push("network_reset");
    v.push("network_is_ws_routine_finished");
    v.push("network_quit_matchmaking");
    v.push("network_poll_and_update");
    v.push("network_confirm_versus_matchmaking");
    v.push("network_send_highlighted_card");
    v.push("network_wait_for_next_action");
    v.push("network_send_to_opponent_new_cards_alignement");
    v.push("network_player_sort_hand_suit");
    v.push("network_player_sort_hand_value");
    v.push("network_player_discarded_cards");
    v.push("network_has_opponent_highlithed_cards");
    v.push("game_manipulation_acknowledge_event");
    v.push("game_manipulation_start_player_shop");
    v.push("network_send_new_card");
    v.push("network_wait_for_opponent_action_on_end_shop");
    v.push("network_wait_for_opponent_action_on_end_shop_after_events");
    v.push("network_player_use_consumeable_card");
    v.push("network_player_use_voucher_card");
    v.push("network_send_open_booster");
    v.push("network_player_skip_booster");
    v.push("network_send_new_card_from_booster");
    v.push("network_send_reroll_shop");
    v.push("network_send_bought_card");
    v.push("network_send_sell_card");
    v.push("network_send_cash_out");
    v.push("network_rematch");
    v
}

/// Whether `name` names a native function.
pub fn is_native_function(name: &str) -> (r: bool)
    ensures
        r == native_function_names().contains(name@),
{
    let names = native_functions();
    let mut i: usize = 0;
    while i < names.len()
        invariant
            i <= names@.len(),
            names@.len() == native_function_names().len(),
            forall|k: int| 0 <= k < names@.len() ==> #[trigger] names@[k]@ == native_function_names()[k],
            forall|k: int| 0 <= k < i ==> native_function_names()[k] != name@,
        decreases names@.len() - i,
    {
        if str_eq(names[i], name) {
            assert(native_function_names()[i as int] == name@);
            return true;
        }
        i = i + 1;
    }
    false
}

/// The names of the native functions, separated by commas: the answer to `__functions`.
pub fn native_function_list() -> (r: String)
    ensures
        r@ == joined(native_function_names(), ","@),
{
    let names = native_functions();
    let ghost ns = native_function_names();
    let mut r = String::new();
    let mut i: usize = 0;
    while i < names.len()
        invariant
            i <= names@.len(),
            names@.len() == ns.len(),
            ns == native_function_names(),
            forall|k: int| 0 <= k < names@.len() ==> #[trigger] names@[k]@ == ns[k],
            r@ == joined(ns.take(i as int), ","@),
        decreases names@.len() - i,
    {
        let ghost before = r@;
        if i > 0 {
            r.append(",");
        }
        r.append(names[i]);
        proof {
            let t = ns.take(i as int + 1);
            assert(t.drop_last() =~= ns.take(i as int));
            assert(t.last() == ns[i as int]);
            if i == 0 {
                assert(t.len() == 1);
                assert(before =~= Seq::<char>::empty());
                assert(r@ =~= t[0]);
            } else {
                assert(r@ =~= before + ","@ + ns[i as int]);
            }
        }
        i = i + 1;
    }
    assert(ns.take(ns.len() as int) =~= ns);
    r
}

/// A native function, named.
#[derive(Debug, Clone, Copy, PartialEq, Eq, Structural)]
pub enum NativeName {
    UpdaterGetAndUpdateLastVersion,
    UpdaterCheckForUpdate,
    UpdaterUpdate,
    UpdaterShouldUpdate,
    UpdaterIsThunderstoreBuild,
    UpdaterGetLastVersion,
    NetworkStartMatchmaking,
    NetworkStartVersusFriendlies,
    NetworkStartVersusFriendliesPairing,
    NetworkReset,
    NetworkIsWsRoutineFinished,
    NetworkQuitMatchmaking,
    NetworkPollAndUpdate,
    NetworkConfirmVersusMatchmaking,
    NetworkSendHighlightedCard,
    NetworkWaitForNextAction,
    NetworkSendToOpponentNewCardsAlignement,
    NetworkPlayerSortHandSuit,
    NetworkPlayerSortHandValue,
    NetworkPlayerDiscardedCards,
    NetworkHasOpponentHighlithedCards,
    GameManipulationAcknowledgeEvent,
    GameManipulationStartPlayerShop,
    NetworkSendNewCard,
    NetworkWaitForOpponentActionOnEndShop,
    NetworkWaitForOpponentActionOnEndShopAfterEvents,
    NetworkPlayerUseConsumeableCard,
    NetworkPlayerUseVoucherCard,
    NetworkSendOpenBooster,
    NetworkPlayerSkipBooster,
    NetworkSendNewCardFromBooster,
    NetworkSendRerollShop,
    NetworkSendBoughtCard,
    NetworkSendSellCard,
    NetworkSendCashOut,
    NetworkRematch,
}

impl NativeName {
    /// The name the game calls this native function by.
    pub open spec fn text(self) -> Seq<char> {
        match self {
            NativeName::UpdaterGetAndUpdateLastVersion => "updater_get_and_update_last_version"@,
            NativeName::UpdaterCheckForUpdate => "updater_check_for_update"@,
            NativeName::UpdaterUpdate => "updater_update"@,
            NativeName::UpdaterShouldUpdate => "updater_should_update"@,
            NativeName::UpdaterIsThunderstoreBuild => "updater_is_thunderstore_build"@,
            NativeName::UpdaterGetLastVersion => "updater_get_last_version"@,
            NativeName::NetworkStartMatchmaking => "network_start_matchmaking"@,
            NativeName::NetworkStartVersusFriendlies => "network_start_versus_friendlies"@,
            NativeName::NetworkStartVersusFriendliesPairing => "network_start_versus_friendlies_pairing"@,
            NativeName::NetworkReset => "network_reset"@,
            NativeName::NetworkIsWsRoutineFinished => "network_is_ws_routine_finished"@,
            NativeName::NetworkQuitMatchmaking => "network_quit_matchmaking"@,
            NativeName::NetworkPollAndUpdate => "network_poll_and_update"@,
            NativeName::NetworkConfirmVersusMatchmaking => "network_confirm_versus_matchmaking"@,
            NativeName::NetworkSendHighlightedCard => "network_send_highlighted_card"@,
            NativeName::NetworkWaitForNextAction => "network_wait_for_next_action"@,
            NativeName::NetworkSendToOpponentNewCardsAlignement => "network_send_to_opponent_new_cards_alignement"@,
            NativeName::NetworkPlayerSortHandSuit => "network_player_sort_hand_suit"@,
            NativeName::NetworkPlayerSortHandValue => "network_player_sort_hand_value"@,
            NativeName::NetworkPlayerDiscardedCards => "network_player_discarded_cards"@,
            NativeName::NetworkHasOpponentHighlithedCards => "network_has_opponent_highlithed_cards"@,
            NativeName::GameManipulationAcknowledgeEvent => "game_manipulation_acknowledge_event"@,
            NativeName::GameManipulationStartPlayerShop => "game_manipulation_start_player_shop"@,
            NativeName::NetworkSendNewCard => "network_send_new_card"@,
            NativeName::NetworkWaitForOpponentActionOnEndShop => "network_wait_for_opponent_action_on_end_shop"@,
            NativeName::NetworkWaitForOpponentActionOnEndShopAfterEvents => "network_wait_for_opponent_action_on_end_shop_after_events"@,
            NativeName::NetworkPlayerUseConsumeableCard => "network_player_use_consumeable_card"@,
            NativeName::NetworkPlayerUseVoucherCard => "network_player_use_voucher_card"@,
            NativeName::NetworkSendOpenBooster => "network_send_open_booster"@,
            NativeName::NetworkPlayerSkipBooster => "network_player_skip_booster"@,
            NativeName::NetworkSendNewCardFromBooster => "network_send_new_card_from_booster"@,
            NativeName::NetworkSendRerollShop => "network_send_reroll_shop"@,
            NativeName::NetworkSendBoughtCard => "network_send_bought_card"@,
            NativeName::NetworkSendSellCard => "network_send_sell_card"@,
            NativeName::NetworkSendCashOut => "network_send_cash_out"@,
            NativeName::NetworkRematch => "network_rematch"@,
        }
    }
}

/// The native function that `s` names, if any.
pub open spec fn native_name_of(s: Seq<char>) -> Option<NativeName> {
    if s == "updater_get_and_update_last_version"@ {
        Some(NativeName::UpdaterGetAndUpdateLastVersion)
    } else if s == "updater_check_for_update"@ {
        Some(NativeName::UpdaterCheckForUpdate)
    } else if s == "updater_update"@ {
        Some(NativeName::UpdaterUpdate)
    } else if s == "updater_should_update"@ {
        Some(NativeName::UpdaterShouldUpdate)
    } else if s == "updater_is_thunderstore_build"@ {
        Some(NativeName::UpdaterIsThunderstoreBuild)
    } else if s == "updater_get_last_version"@ {
        Some(NativeName::UpdaterGetLastVersion)
    } else if s == "network_start_matchmaking"@ {
        Some(NativeName::NetworkStartMatchmaking)
    } else if s == "network_start_versus_friendlies"@ {
        Some(NativeName::NetworkStartVersusFriendlies)
    } else if s == "network_start_versus_friendlies_pairing"@ {
        Some(NativeName::NetworkStartVersusFriendliesPairing)
    } else if s == "network_reset"@ {
        Some(NativeName::NetworkReset)
    } else if s == "network_is_ws_routine_finished"@ {
        Some(NativeName::NetworkIsWsRoutineFinished)
    } else if s == "network_quit_matchmaking"@ {
        Some(NativeName::NetworkQuitMatchmaking)
    } else if s == "network_poll_and_update"@ {
        Some(NativeName::NetworkPollAndUpdate)
    } else if s == "network_confirm_versus_matchmaking"@ {
        Some(NativeName::NetworkConfirmVersusMatchmaking)
    } else if s == "network_send_highlighted_card"@ {
        Some(NativeName::NetworkSendHighlightedCard)
    } else if s == "network_wait_for_next_action"@ {
        Some(NativeName::NetworkWaitForNextAction)
    } else if s == "network_send_to_opponent_new_cards_alignement"@ {
        Some(NativeName::NetworkSendToOpponentNewCardsAlignement)
    } else if s == "network_player_sort_hand_suit"@ {
        Some(NativeName::NetworkPlayerSortHandSuit)
    } else if s == "network_player_sort_hand_value"@ {
        Some(NativeName::NetworkPlayerSortHandValue)
    } else if s == "network_player_discarded_cards"@ {
        Some(NativeName::NetworkPlayerDiscardedCards)
    } else if s == "network_has_opponent_highlithed_cards"@ {
        Some(NativeName::NetworkHasOpponentHighlithedCards)
    } else if s == "game_manipulation_acknowledge_event"@ {
        Some(NativeName::GameManipulationAcknowledgeEvent)
    } else if s == "game_manipulation_start_player_shop"@ {
        Some(NativeName::GameManipulationStartPlayerShop)
    } else if s == "network_send_new_card"@ {
        Some(NativeName::NetworkSendNewCard)
    } else if s == "network_wait_for_opponent_action_on_end_shop"@ {
        Some(NativeName::NetworkWaitForOpponentActionOnEndShop)
    } else if s == "network_wait_for_opponent_action_on_end_shop_after_events"@ {
        Some(NativeName::NetworkWaitForOpponentActionOnEndShopAfterEvents)
    } else if s == "network_player_use_consumeable_card"@ {
        Some(NativeName::NetworkPlayerUseConsumeableCard)
    } else if s == "network_player_use_voucher_card"@ {
        Some(NativeName::NetworkPlayerUseVoucherCard)
    } else if s == "network_send_open_booster"@ {
        Some(NativeName::NetworkSendOpenBooster)
    } else if s == "network_player_skip_booster"@ {
        Some(NativeName::NetworkPlayerSkipBooster)
    } else if s == "network_send_new_card_from_booster"@ {
        Some(NativeName::NetworkSendNewCardFromBooster)
    } else if s == "network_send_reroll_shop"@ {
        Some(NativeName::NetworkSendRerollShop)
    } else if s == "network_send_bought_card"@ {
        Some(NativeName::NetworkSendBoughtCard)
    } else if s == "network_send_sell_card"@ {
        Some(NativeName::NetworkSendSellCard)
    } else if s == "network_send_cash_out"@ {
        Some(NativeName::NetworkSendCashOut)
    } else if s == "network_rematch"@ {
        Some(NativeName::NetworkRematch)
    } else {
        None
    }
}

/// The native function that `name` names, if any.
pub fn native_name(name: &str) -> (r: Option<NativeName>)
    ensures
        r == native_name_of(name@),
{
    if str_eq(name, "updater_get_and_update_last_version") {
        Some(NativeName::UpdaterGetAndUpdateLastVersion)
    } else if str_eq(name, "updater_check_for_update") {
        Some(NativeName::UpdaterCheckForUpdate)
    } else if str_eq(name, "updater_update") {
        Some(NativeName::UpdaterUpdate)
    } else if str_eq(name, "updater_should_update") {
        Some(NativeName::UpdaterShouldUpdate)
    } else if str_eq(name, "updater_is_thunderstore_build") {
        Some(NativeName::UpdaterIsThunderstoreBuild)
    } else if str_eq(name, "updater_get_last_version") {
        Some(NativeName::UpdaterGetLastVersion)
    } else if str_eq(name, "network_start_matchmaking") {
        Some(NativeName::NetworkStartMatchmaking)
    } else if str_eq(name, "network_start_versus_friendlies") {
        Some(NativeName::NetworkStartVersusFriendlies)
    } else if str_eq(name, "network_start_versus_friendlies_pairing") {
        Some(NativeName::NetworkStartVersusFriendliesPairing)
    } else if str_eq(name, "network_reset") {
        Some(NativeName::NetworkReset)
    } else if str_eq(name, "network_is_ws_routine_finished") {
        Some(NativeName::NetworkIsWsRoutineFinished)
    } else if str_eq(name, "network_quit_matchmaking") {
        Some(NativeName::NetworkQuitMatchmaking)
    } else if str_eq(name, "network_poll_and_update") {
        Some(NativeName::NetworkPollAndUpdate)
    } else if str_eq(name, "network_confirm_versus_matchmaking") {
        Some(NativeName::NetworkConfirmVersusMatchmaking)
    } else if str_eq(name, "network_send_highlighted_card") {
        Some(NativeName::NetworkSendHighlightedCard)
    } else if str_eq(name, "network_wait_for_next_action") {
        Some(NativeName::NetworkWaitForNextAction)
    } else if str_eq(name, "network_send_to_opponent_new_cards_alignement") {
        Some(NativeName::NetworkSendToOpponentNewCardsAlignement)
    } else if str_eq(name, "network_player_sort_hand_suit") {
        Some(NativeName::NetworkPlayerSortHandSuit)
    } else if str_eq(name, "network_player_sort_hand_value") {
        Some(NativeName::NetworkPlayerSortHandValue)
    } else if str_eq(name, "network_player_discarded_cards") {
        Some(NativeName::NetworkPlayerDiscardedCards)
    } else if str_eq(name, "network_has_opponent_highlithed_cards") {
        Some(NativeName::NetworkHasOpponentHighlithedCards)
    } else if str_eq(name, "game_manipulation_acknowledge_event") {
        Some(NativeName::GameManipulationAcknowledgeEvent)
    } else if str_eq(name, "game_manipulation_start_player_shop") {
        Some(NativeName::GameManipulationStartPlayerShop)
    } else if str_eq(name, "network_send_new_card") {
        Some(NativeName::NetworkSendNewCard)
    } else if str_eq(name, "network_wait_for_opponent_action_on_end_shop") {
        Some(NativeName::NetworkWaitForOpponentActionOnEndShop)
    } else if str_eq(name, "network_wait_for_opponent_action_on_end_shop_after_events") {
        Some(NativeName::NetworkWaitForOpponentActionOnEndShopAfterEvents)
    } else if str_eq(name, "network_player_use_consumeable_card") {
        Some(NativeName::NetworkPlayerUseConsumeableCard)
    } else if str_eq(name, "network_player_use_voucher_card") {
        Some(NativeName::NetworkPlayerUseVoucherCard)
    } else if str_eq(name, "network_send_open_booster") {
        Some(NativeName::NetworkSendOpenBooster)
    } else if str_eq(name, "network_player_skip_booster") {
        Some(NativeName::NetworkPlayerSkipBooster)
    } else if str_eq(name, "network_send_new_card_from_booster") {
        Some(NativeName::NetworkSendNewCardFromBooster)
    } else if str_eq(name, "network_send_reroll_shop") {
        Some(NativeName::NetworkSendRerollShop)
    } else if str_eq(name, "network_send_bought_card") {
        Some(NativeName::NetworkSendBoughtCard)
    } else if str_eq(name, "network_send_sell_card") {
        Some(NativeName::NetworkSendSellCard)
    } else if str_eq(name, "network_send_cash_out") {
        Some(NativeName::NetworkSendCashOut)
    } else if str_eq(name, "network_rematch") {
        Some(NativeName::NetworkRematch)
    } else {
        None
    }
}

/// A name names a native function exactly when it is one of the listed
/// names, and the function it names is called by that name.
pub proof fn lemma_native_names_are_the_listed_ones(s: Seq<char>)
    ensures
        native_name_of(s) is Some <==> native_function_names().contains(s),
        native_name_of(s) matches Some(k) ==> k.text() == s,
{
    let names = native_function_names();
    if native_function_names().contains(s) {
        let i = choose|i: int| 0 <= i < names.len() && names[i] == s;
        assert(native_name_of(s) is Some);
    }
    if native_name_of(s) is Some {
        assert(names.contains(s));
    }
}

/// The error text for a name that is no native function.
pub open spec fn unknown_function_error(name: Seq<char>) -> Seq<char> {
    "unknown native function '"@ + name + "'"@
}

/// The error for a call of `name`, which is no native function.
pub fn unknown_function_message(name: &str) -> (r: String)
    ensures
        r@ == unknown_function_error(name@),
{
    concat3("unknown native function '", name, "'")
}

} // verus!
