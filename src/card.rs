use vstd::prelude::*;

verus! {

/// The four kinds of unit a card can belong to.
#[derive(Clone, Copy, Debug, PartialEq, Eq, Structural)]
pub enum CardType {
    Infantry,
    Ranged,
    Magic,
    Siege,
}

/// The thirteen power labels, from the numeric ones up to the ace.
#[derive(Clone, Copy, Debug, PartialEq, Eq, Structural)]
pub enum PowerLevel {
    Two,
    Three,
    Four,
    Five,
    Six,
    Seven,
    Eight,
    Nine,
    Ten,
    Commander,
    General,
    Hero,
    AceUnit,
}

/// Number of card types.
pub const NUM_CARD_TYPES: usize = 4;

/// Number of power labels.
pub const NUM_POWER_LEVELS: usize = 13;

/// Number of cards in a full deck.
pub const DECK_SIZE: usize = 52;

impl CardType {
    /// Position of the type in the canonical order.
    pub open spec fn spec_index(self) -> nat {
        match self {
            CardType::Infantry => 0,
            CardType::Ranged => 1,
            CardType::Magic => 2,
            CardType::Siege => 3,
        }
    }

    /// The type at a position of the canonical order.
    pub open spec fn spec_from_index(i: int) -> CardType {
        if i == 0 {
            CardType::Infantry
        } else if i == 1 {
            CardType::Ranged
        } else if i == 2 {
            CardType::Magic
        } else {
            CardType::Siege
        }
    }

    pub fn index(&self) -> (r: usize)
        ensures
            r == self.spec_index(),
    {
        match self {
            CardType::Infantry => 0,
            CardType::Ranged => 1,
            CardType::Magic => 2,
            CardType::Siege => 3,
        }
    }

    pub fn from_index(i: usize) -> (r: CardType)
        requires
            i < NUM_CARD_TYPES,
        ensures
            r == Self::spec_from_index(i as int),
            r.spec_index() == i,
    {
        if i == 0 {
            CardType::Infantry
        } else if i == 1 {
            CardType::Ranged
        } else if i == 2 {
            CardType::Magic
        } else {
            CardType::Siege
        }
    }

    /// The label of the type.
    pub open spec fn spec_label(self) -> Seq<char> {
        match self {
            CardType::Infantry => "infantry"@,
            CardType::Ranged => "ranged"@,
            CardType::Magic => "magic"@,
            CardType::Siege => "siege"@,
        }
    }

    /// The label of the type, as shown to players.
    pub fn label(&self) -> (r: &'static str)
        ensures
            r@ == self.spec_label(),
    {
        match self {
            CardType::Infantry => "infantry",
            CardType::Ranged => "ranged",
            CardType::Magic => "magic",
            CardType::Siege => "siege",
        }
    }
}

impl PowerLevel {
    /// Position of the label in the canonical order.
    pub open spec fn spec_index(self) -> nat {
        match self {
            PowerLevel::Two => 0,
            PowerLevel::Three => 1,
            PowerLevel::Four => 2,
            PowerLevel::Five => 3,
            PowerLevel::Six => 4,
            PowerLevel::Seven => 5,
            PowerLevel::Eight => 6,
            PowerLevel::Nine => 7,
            PowerLevel::Ten => 8,
            PowerLevel::Commander => 9,
            PowerLevel::General => 10,
            PowerLevel::Hero => 11,
            PowerLevel::AceUnit => 12,
        }
    }

    /// The label at a position of the canonical order.
    pub open spec fn spec_from_index(i: int) -> PowerLevel {
        if i == 0 {
            PowerLevel::Two
        } else if i == 1 {
            PowerLevel::Three
        } else if i == 2 {
            PowerLevel::Four
        } else if i == 3 {
            PowerLevel::Five
        } else if i == 4 {
            PowerLevel::Six
        } else if i == 5 {
            PowerLevel::Seven
        } else if i == 6 {
            PowerLevel::Eight
        } else if i == 7 {
            PowerLevel::Nine
        } else if i == 8 {
            PowerLevel::Ten
        } else if i == 9 {
            PowerLevel::Commander
        } else if i == 10 {
            PowerLevel::General
        } else if i == 11 {
            PowerLevel::Hero
        } else {
            PowerLevel::AceUnit
        }
    }

    /// Face value of the label: numbers at face value, the three figures
    /// at ten, the ace at eleven.
    pub open spec fn spec_value(self) -> nat {
        match self {
            PowerLevel::Two => 2,
            PowerLevel::Three => 3,
            PowerLevel::Four => 4,
            PowerLevel::Five => 5,
            PowerLevel::Six => 6,
            PowerLevel::Seven => 7,
            PowerLevel::Eight => 8,
            PowerLevel::Nine => 9,
            PowerLevel::Ten => 10,
            PowerLevel::Commander => 10,
            PowerLevel::General => 10,
            PowerLevel::Hero => 10,
            PowerLevel::AceUnit => 11,
        }
    }

    pub fn index(&self) -> (r: usize)
        ensures
            r == self.spec_index(),
    {
        match self {
            PowerLevel::Two => 0,
            PowerLevel::Three => 1,
            PowerLevel::Four => 2,
            PowerLevel::Five => 3,
            PowerLevel::Six => 4,
            PowerLevel::Seven => 5,
            PowerLevel::Eight => 6,
            PowerLevel::Nine => 7,
            PowerLevel::Ten => 8,
            PowerLevel::Commander => 9,
            PowerLevel::General => 10,
            PowerLevel::Hero => 11,
            PowerLevel::AceUnit => 12,
        }
    }

    pub fn from_index(i: usize) -> (r: PowerLevel)
        requires
            i < NUM_POWER_LEVELS,
        ensures
            r == Self::spec_from_index(i as int),
            r.spec_index() == i,
    {
        if i == 0 {
            PowerLevel::Two
        } else if i == 1 {
            PowerLevel::Three
        } else if i == 2 {
            PowerLevel::Four
        } else if i == 3 {
            PowerLevel::Five
        } else if i == 4 {
            PowerLevel::Six
        } else if i == 5 {
            PowerLevel::Seven
        } else if i == 6 {
            PowerLevel::Eight
        } else if i == 7 {
            PowerLevel::Nine
        } else if i == 8 {
            PowerLevel::Ten
        } else if i == 9 {
            PowerLevel::Commander
        } else if i == 10 {
            PowerLevel::General
        } else if i == 11 {
            PowerLevel::Hero
        } else {
            PowerLevel::AceUnit
        }
    }

    pub fn value(&self) -> (r: u8)
        ensures
            r == self.spec_value(),
    {
        match self {
            PowerLevel::Two => 2,
            PowerLevel::Three => 3,
            PowerLevel::Four => 4,
            PowerLevel::Five => 5,
            PowerLevel::Six => 6,
            PowerLevel::Seven => 7,
            PowerLevel::Eight => 8,
            PowerLevel::Nine => 9,
            PowerLevel::Ten => 10,
            PowerLevel::Commander => 10,
            PowerLevel::General => 10,
            PowerLevel::Hero => 10,
            PowerLevel::AceUnit => 11,
        }
    }

    pub fn is_ace(&self) -> (r: bool)
        ensures
            r == (*self == PowerLevel::AceUnit),
    {
        match self {
            PowerLevel::AceUnit => true,
            _ => false,
        }
    }

    /// The label of the power level.
    pub open spec fn spec_label(self) -> Seq<char> {
        match self {
            PowerLevel::Two => "2"@,
            PowerLevel::Three => "3"@,
            PowerLevel::Four => "4"@,
            PowerLevel::Five => "5"@,
            PowerLevel::Six => "6"@,
            PowerLevel::Seven => "7"@,
            PowerLevel::Eight => "8"@,
            PowerLevel::Nine => "9"@,
            PowerLevel::Ten => "10"@,
            PowerLevel::Commander => "commander"@,
            PowerLevel::General => "general"@,
            PowerLevel::Hero => "hero"@,
            PowerLevel::AceUnit => "ace_unit"@,
        }
    }

    /// The label of the power level, as shown to players.
    pub fn label(&self) -> (r: &'static str)
        ensures
            r@ == self.spec_label(),
    {
        match self {
            PowerLevel::Two => "2",
            PowerLevel::Three => "3",
            PowerLevel::Four => "4",
            PowerLevel::Five => "5",
            PowerLevel::Six => "6",
            PowerLevel::Seven => "7",
            PowerLevel::Eight => "8",
            PowerLevel::Nine => "9",
            PowerLevel::Ten => "10",
            PowerLevel::Commander => "commander",
            PowerLevel::General => "general",
            PowerLevel::Hero => "hero",
            PowerLevel::AceUnit => "ace_unit",
        }
    }
}

/// One card: a unit type and a power label. Its id is determined by the pair.
#[derive(Clone, Copy, Debug, PartialEq, Eq, Structural)]
pub struct BattleCard {
    pub card_type: CardType,
    pub power: PowerLevel,
}

/// The id of the card with the given type and power: its position in the
/// canonical deck order.
pub open spec fn id_of(card_type: CardType, power: PowerLevel) -> nat {
    card_type.spec_index() * 13 + power.spec_index()
}

impl BattleCard {
    pub open spec fn spec_id(self) -> nat {
        id_of(self.card_type, self.power)
    }

    pub fn new(card_type: CardType, power: PowerLevel) -> (r: BattleCard)
        ensures
            r.card_type == card_type,
            r.power == power,
            r.spec_id() == id_of(card_type, power),
    {
        BattleCard { card_type, power }
    }

    /// The card's id, unique per (type, power) pair.
    pub fn id(&self) -> (r: u8)
        ensures
            r == self.spec_id(),
    {
        (self.card_type.index() * 13 + self.power.index()) as u8
    }
}

/// Distinct cards have distinct ids.
pub proof fn lemma_id_injective(a: BattleCard, b: BattleCard)
    ensures
        a.spec_id() == b.spec_id() <==> a == b,
{
}

} // verus!
