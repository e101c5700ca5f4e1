//! Card descriptions exchanged between the game and the opponent.
use vstd::prelude::*;
use vstd::string::*;

use crate::text::{concat3, owned, str_eq};

verus! {

/// The area a consumeable card was used from.
#[derive(Debug, Clone, Copy, PartialEq, Eq, Structural)]
pub enum AreaType {
    Consumeables,
    PackCards,
}

/// The kind of a card.
#[derive(Debug, Clone, Copy, PartialEq, Eq, Structural)]
pub enum CardType {
    Card,
    Joker,
    Consumeable,
    Booster,
    Voucher,
}

/// The name the Lua side uses for each card type.
pub open spec fn card_type_text(t: CardType) -> Seq<char> {
    match t {
        CardType::Joker => "joker"@,
        CardType::Card => "card"@,
        CardType::Consumeable => "consumeable"@,
        CardType::Voucher => "voucher"@,
        CardType::Booster => "booster"@,
    }
}

/// The card type whose Lua name is `name`, if any.
pub open spec fn card_type_of_text(name: Seq<char>) -> Option<CardType> {
    if name == "joker"@ {
        Some(CardType::Joker)
    } else if name == "card"@ {
        Some(CardType::Card)
    } else if name == "consumeable"@ {
        Some(CardType::Consumeable)
    } else if name == "voucher"@ {
        Some(CardType::Voucher)
    } else if name == "booster"@ {
        Some(CardType::Booster)
    } else {
        None
    }
}

/// The five Lua names are pairwise distinct.
pub proof fn lemma_card_type_texts_distinct()
    ensures
        "joker"@ != "card"@,
        "joker"@ != "consumeable"@,
        "joker"@ != "voucher"@,
        "joker"@ != "booster"@,
        "card"@ != "consumeable"@,
        "card"@ != "voucher"@,
        "card"@ != "booster"@,
        "consumeable"@ != "voucher"@,
        "consumeable"@ != "booster"@,
        "voucher"@ != "booster"@,
{
    reveal_strlit("joker");
    reveal_strlit("card");
    reveal_strlit("consumeable");
    reveal_strlit("voucher");
    reveal_strlit("booster");
    assert("joker"@[0] != "card"@[0]);
    assert("joker"@[0] != "consumeable"@[0]);
    assert("joker"@[0] != "voucher"@[0]);
    assert("joker"@[0] != "booster"@[0]);
    assert("card"@.len() != "consumeable"@.len());
    assert("card"@[0] != "voucher"@[0]);
    assert("card"@[0] != "booster"@[0]);
    assert("consumeable"@[0] != "voucher"@[0]);
    assert("consumeable"@[0] != "booster"@[0]);
    assert("voucher"@[0] != "booster"@[0]);
}

impl CardType {
    /// The name the Lua side uses for this card type.
    pub fn lua_name(&self) -> (r: &'static str)
        ensures
            r@ == card_type_text(*self),
    {
        match self {
            CardType::Joker => "joker",
            CardType::Card => "card",
            CardType::Consumeable => "consumeable",
            CardType::Voucher => "voucher",
            CardType::Booster => "booster",
        }
    }

    /// The card type named `name` on the Lua side.
    pub fn from_lua_name(name: &str) -> (r: Option<CardType>)
        ensures
            r == card_type_of_text(name@),
    {
        if str_eq(name, "joker") {
            Some(CardType::Joker)
        } else if str_eq(name, "card") {
            Some(CardType::Card)
        } else if str_eq(name, "consumeable") {
            Some(CardType::Consumeable)
        } else if str_eq(name, "voucher") {
            Some(CardType::Voucher)
        } else if str_eq(name, "booster") {
            Some(CardType::Booster)
        } else {
            None
        }
    }
}

/// Naming a card type and reading the name back gives the same type.
pub proof fn lemma_card_type_text_round_trip(t: CardType)
    ensures
        card_type_of_text(card_type_text(t)) == Some(t),
{
    lemma_card_type_texts_distinct();
}

/// A card as the native side knows it.
#[derive(Debug)]
pub struct CardConf {
    type_: CardType,
    label: String,
    location: String,
    stay_flipped: bool,
    edition: String,
    center: String,
    card: String,
    center_key: String,
    ability: String,
    versus_center_id: u32,
}

/// A card as the Lua side describes it, with its type as a name.
#[derive(Debug)]
pub struct LuaCardConf {
    pub label: String,
    pub type_: String,
    pub center: String,
    pub card: String,
    pub center_key: String,
    pub versus_center_id: u32,
    pub ability: String,
    pub edition: String,
    pub location: String,
    pub stay_flipped: bool,
}

/// The mathematical value of a card: its type, its texts and its numbers.
pub struct CardConfView {
    pub type_: CardType,
    pub label: Seq<char>,
    pub location: Seq<char>,
    pub stay_flipped: bool,
    pub edition: Seq<char>,
    pub center: Seq<char>,
    pub card: Seq<char>,
    pub center_key: Seq<char>,
    pub ability: Seq<char>,
    pub versus_center_id: u32,
}

/// The mathematical value of a Lua card description.
pub struct LuaCardConfView {
    pub label: Seq<char>,
    pub type_: Seq<char>,
    pub center: Seq<char>,
    pub card: Seq<char>,
    pub center_key: Seq<char>,
    pub versus_center_id: u32,
    pub ability: Seq<char>,
    pub edition: Seq<char>,
    pub location: Seq<char>,
    pub stay_flipped: bool,
}

impl View for CardConf {
    type V = CardConfView;

    closed spec fn view(&self) -> CardConfView {
        CardConfView {
            type_: self.type_,
            label: self.label@,
            location: self.location@,
            stay_flipped: self.stay_flipped,
            edition: self.edition@,
            center: self.center@,
            card: self.card@,
            center_key: self.center_key@,
            ability: self.ability@,
            versus_center_id: self.versus_center_id,
        }
    }
}

impl View for LuaCardConf {
    type V = LuaCardConfView;

    open spec fn view(&self) -> LuaCardConfView {
        LuaCardConfView {
            label: self.label@,
            type_: self.type_@,
            center: self.center@,
            card: self.card@,
            center_key: self.center_key@,
            versus_center_id: self.versus_center_id,
            ability: self.ability@,
            edition: self.edition@,
            location: self.location@,
            stay_flipped: self.stay_flipped,
        }
    }
}

/// The card that a Lua description stands for, when its type name is known:
/// only jokers keep a location and a flipped flag, and only jokers and
/// playing cards keep an edition.
pub open spec fn card_of_lua(t: LuaCardConfView) -> Option<CardConfView> {
    match card_type_of_text(t.type_) {
        Some(type_) => Some(
            CardConfView {
                type_,
                label: t.label,
                location: if type_ == CardType::Joker {
                    t.location
                } else {
                    Seq::empty()
                },
                stay_flipped: if type_ == CardType::Joker {
                    t.stay_flipped
                } else {
                    false
                },
                edition: if type_ == CardType::Joker || type_ == CardType::Card {
                    t.edition
                } else {
                    Seq::empty()
                },
                center: t.center,
                card: t.card,
                center_key: t.center_key,
                ability: t.ability,
                versus_center_id: t.versus_center_id,
            },
        ),
        None => None,
    }
}

/// The Lua description of a card: every field carried over, the type by its name.
pub open spec fn lua_of_card(c: CardConfView) -> LuaCardConfView {
    LuaCardConfView {
        label: c.label,
        type_: card_type_text(c.type_),
        center: c.center,
        card: c.card,
        center_key: c.center_key,
        versus_center_id: c.versus_center_id,
        ability: c.ability,
        edition: c.edition,
        location: c.location,
        stay_flipped: c.stay_flipped,
    }
}

/// The error text for a Lua description whose type name is unknown.
pub open spec fn unknown_card_type_error(type_text: Seq<char>) -> Seq<char> {
    "Unknown card type: '"@ + type_text + "'"@
}

impl CardConf {
    /// The type of this card.
    pub fn get_type(&self) -> (r: CardType)
        ensures
            r == self@.type_,
    {
        self.type_
    }

    /// The card a Lua description stands for; an unknown type name is an error.
    pub fn from_lua(t: LuaCardConf) -> (r: Result<CardConf, String>)
        ensures
            match r {
                Ok(c) => card_of_lua(t@) == Some(c@),
                Err(e) => card_of_lua(t@) is None && e@ == unknown_card_type_error(t.type_@),
            },
    {
        let type_ = match CardType::from_lua_name(t.type_.as_str()) {
            Some(type_) => type_,
            None => {
                return Err(concat3("Unknown card type: '", t.type_.as_str(), "'"));
            },
        };
        let is_joker = match type_ {
            CardType::Joker => true,
            _ => false,
        };
        let keeps_edition = match type_ {
            CardType::Joker | CardType::Card => true,
            _ => false,
        };
        let location = if is_joker {
            t.location
        } else {
            String::new()
        };
        let stay_flipped = if is_joker {
            t.stay_flipped
        } else {
            false
        };
        let edition = if keeps_edition {
            t.edition
        } else {
            String::new()
        };
        Ok(
            CardConf {
                type_,
                label: t.label,
                location,
                stay_flipped,
                edition,
                center: t.center,
                card: t.card,
                center_key: t.center_key,
                ability: t.ability,
                versus_center_id: t.versus_center_id,
            },
        )
    }

    /// A copy of this card.
    pub fn duplicate(&self) -> (r: CardConf)
        ensures
            r@ == self@,
    {
        CardConf {
            type_: self.type_,
            label: self.label.clone(),
            location: self.location.clone(),
            stay_flipped: self.stay_flipped,
            edition: self.edition.clone(),
            center: self.center.clone(),
            card: self.card.clone(),
            center_key: self.center_key.clone(),
            ability: self.ability.clone(),
            versus_center_id: self.versus_center_id,
        }
    }

    /// Whether two cards have the same value.
    pub fn same_as(&self, other: &CardConf) -> (r: bool)
        ensures
            r == (self@ == other@),
    {
        self.type_ == other.type_ && self.label == other.label && self.location == other.location
            && self.stay_flipped == other.stay_flipped && self.edition == other.edition
            && self.center == other.center && self.card == other.card && self.center_key
            == other.center_key && self.ability == other.ability && self.versus_center_id
            == other.versus_center_id
    }
}

impl LuaCardConf {
    /// The Lua description of a card.
    pub fn from_card(c: &CardConf) -> (r: LuaCardConf)
        ensures
            r@ == lua_of_card(c@),
    {
        LuaCardConf {
            label: c.label.clone(),
            type_: owned(c.type_.lua_name()),
            center: c.center.clone(),
            card: c.card.clone(),
            center_key: c.center_key.clone(),
            versus_center_id: c.versus_center_id,
            ability: c.ability.clone(),
            edition: c.edition.clone(),
            location: c.location.clone(),
            stay_flipped: c.stay_flipped,
        }
    }

    /// A description with every text empty, no id and the flag unset, as the
    /// Lua side's missing fields default to.
    pub fn empty() -> (r: LuaCardConf)
        ensures
            r@.label == Seq::<char>::empty(),
            r@.type_ == Seq::<char>::empty(),
            r@.center == Seq::<char>::empty(),
            r@.card == Seq::<char>::empty(),
            r@.center_key == Seq::<char>::empty(),
            r@.versus_center_id == 0,
            r@.ability == Seq::<char>::empty(),
            r@.edition == Seq::<char>::empty(),
            r@.location == Seq::<char>::empty(),
            r@.stay_flipped == false,
    {
        LuaCardConf {
            label: String::new(),
            type_: String::new(),
            center: String::new(),
            card: String::new(),
            center_key: String::new(),
            versus_center_id: 0,
            ability: String::new(),
            edition: String::new(),
            location: String::new(),
            stay_flipped: false,
        }
    }
}

/// Reading back the Lua description of a card gives the card again, for every
/// card that a description can stand for.
pub proof fn lemma_lua_round_trip(c: CardConfView)
    requires
        c.type_ != CardType::Joker ==> c.location == Seq::<char>::empty() && !c.stay_flipped,
        c.type_ != CardType::Joker && c.type_ != CardType::Card ==> c.edition
            == Seq::<char>::empty(),
    ensures
        card_of_lua(lua_of_card(c)) == Some(c),
{
    lemma_card_type_text_round_trip(c.type_);
}

} // verus!
