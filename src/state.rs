use vstd::prelude::*;
use crate::card::BattleCard;

verus! {

/// Outcome of a round, from the player's side.
#[derive(Clone, Copy, Debug, PartialEq, Eq, Structural)]
pub enum BattleResult {
    CriticalVictory,
    Victory,
    Defeat,
    Overwhelmed,
    EnemyRetreat,
    Stalemate,
}

/// Where a player's round stands.
#[derive(Clone, Copy, Debug, PartialEq, Eq, Structural)]
pub enum GamePhase {
    WaitingForWave,
    PlacingWager,
    BattleInProgress,
    BossTurn,
    WaveComplete,
}

/// Why an action was rejected.
#[derive(Clone, Copy, Debug, PartialEq, Eq, Structural)]
pub enum GameError {
    /// The wager is not one of the allowed stakes.
    InvalidWager,
    /// A new round was asked for while one is being fought.
    StartDuringBattle,
    /// The balance does not cover the wager.
    InsufficientGold,
    /// A reset was asked for while a round is being fought.
    ResetDuringBattle,
    /// A card was asked for outside the battle phase.
    BattleOutOfPhase,
    /// The round was ended outside the battle phase.
    EndWaveOutOfPhase,
    /// A card had to be drawn from an empty deck.
    DeckExhausted,
}

impl GameError {
    /// The message for the error.
    pub open spec fn spec_message(self) -> Seq<char> {
        match self {
            GameError::InvalidWager => "Wager must be one of 1,2,3,4,5"@,
            GameError::StartDuringBattle => "Cannot start wave during active battle"@,
            GameError::InsufficientGold => "Insufficient gold to place wager"@,
            GameError::ResetDuringBattle => "Cannot reset during active battle"@,
            GameError::BattleOutOfPhase => "You can only battle during the battle phase"@,
            GameError::EndWaveOutOfPhase => "You can only end wave during the battle phase"@,
            GameError::DeckExhausted => "The reinforcement deck is exhausted"@,
        }
    }

    /// The message shown to the caller.
    pub fn message(&self) -> (r: &'static str)
        ensures
            r@ == self.spec_message(),
    {
        match self {
            GameError::InvalidWager => "Wager must be one of 1,2,3,4,5",
            GameError::StartDuringBattle => "Cannot start wave during active battle",
            GameError::InsufficientGold => "Insufficient gold to place wager",
            GameError::ResetDuringBattle => "Cannot reset during active battle",
            GameError::BattleOutOfPhase => "You can only battle during the battle phase",
            GameError::EndWaveOutOfPhase => "You can only end wave during the battle phase",
            GameError::DeckExhausted => "The reinforcement deck is exhausted",
        }
    }
}

/// The smallest allowed stake.
pub const MIN_WAGER: u64 = 1;

/// The largest allowed stake.
pub const MAX_WAGER: u64 = 5;

/// Gold granted by a request for gold.
pub const GOLD_GRANT: u64 = 100;

pub open spec fn is_allowed_wager(w: u64) -> bool {
    MIN_WAGER <= w <= MAX_WAGER
}

/// The allowed stakes, smallest first.
pub fn allowed_wagers() -> (r: Vec<u64>)
    ensures
        r@ == seq![1u64, 2, 3, 4, 5],
        forall|w: u64| r@.contains(w) <==> is_allowed_wager(w),
{
    let r = vec![1u64, 2, 3, 4, 5];
    assert(r@ =~= seq![1u64, 2, 3, 4, 5]);
    assert forall|w: u64| r@.contains(w) <==> is_allowed_wager(w) by {
        if is_allowed_wager(w) {
            assert(r@[(w - 1) as int] == w);
        }
    }
    r
}

/// Arguments the application is instantiated with.
#[derive(Clone, Copy, Debug, PartialEq, Eq, Structural)]
pub struct TowerDefenseInit {
    pub starting_gold: u64,
    pub random_seed: u64,
}

/// The actions a player can take.
#[derive(Clone, Copy, Debug, PartialEq, Eq, Structural)]
pub enum Operation {
    Reset,
    StartGame { wager: u64 },
    Battle,
    EndWave,
    RequestGold,
}

/// A finished round, as kept in a player's history.
#[derive(Clone, Debug, PartialEq, Eq)]
pub struct GameRecord {
    pub player_cards: Vec<BattleCard>,
    pub opponent_cards: Vec<BattleCard>,
    pub wager: u64,
    pub result: BattleResult,
    pub payout: u64,
    pub timestamp: u64,
}

/// The mathematical content of a [`GameRecord`].
#[verifier::ext_equal]
pub ghost struct RecordModel {
    pub player_cards: Seq<BattleCard>,
    pub opponent_cards: Seq<BattleCard>,
    pub wager: u64,
    pub result: BattleResult,
    pub payout: u64,
    pub timestamp: u64,
}

impl View for GameRecord {
    type V = RecordModel;

    open spec fn view(&self) -> RecordModel {
        RecordModel {
            player_cards: self.player_cards@,
            opponent_cards: self.opponent_cards@,
            wager: self.wager,
            result: self.result,
            payout: self.payout,
            timestamp: self.timestamp,
        }
    }
}

/// One player's durable record: balance, generator seed, round state and
/// history of finished rounds.
#[derive(Clone, Debug, PartialEq, Eq)]
pub struct PlayerGameData {
    pub deck: Vec<BattleCard>,
    pub player_cards: Vec<BattleCard>,
    pub opponent_cards: Vec<BattleCard>,
    pub opponent_hidden_card: Option<BattleCard>,
    pub gold_balance: u64,
    pub current_wager: u64,
    pub phase: GamePhase,
    pub last_result: Option<BattleResult>,
    pub random_seed: u64,
    pub game_history: Vec<GameRecord>,
}

/// The mathematical content of a [`PlayerGameData`].
#[verifier::ext_equal]
pub ghost struct PlayerModel {
    pub deck: Seq<BattleCard>,
    pub player_cards: Seq<BattleCard>,
    pub opponent_cards: Seq<BattleCard>,
    pub hidden: Option<BattleCard>,
    pub gold_balance: u64,
    pub current_wager: u64,
    pub phase: GamePhase,
    pub last_result: Option<BattleResult>,
    pub random_seed: u64,
    pub history: Seq<RecordModel>,
}

impl View for PlayerGameData {
    type V = PlayerModel;

    open spec fn view(&self) -> PlayerModel {
        PlayerModel {
            deck: self.deck@,
            player_cards: self.player_cards@,
            opponent_cards: self.opponent_cards@,
            hidden: self.opponent_hidden_card,
            gold_balance: self.gold_balance,
            current_wager: self.current_wager,
            phase: self.phase,
            last_result: self.last_result,
            random_seed: self.random_seed,
            history: self.game_history@.map_values(|r: GameRecord| r@),
        }
    }
}

impl PlayerGameData {
    /// The record of an owner who has not acted yet.
    pub fn empty() -> (r: PlayerGameData)
        ensures
            r@.deck.len() == 0,
            r@.player_cards.len() == 0,
            r@.opponent_cards.len() == 0,
            r@.hidden is None,
            r@.gold_balance == 0,
            r@.current_wager == 0,
            r@.phase == GamePhase::WaitingForWave,
            r@.last_result is None,
            r@.random_seed == 0,
            r@.history.len() == 0,
    {
        PlayerGameData {
            deck: Vec::new(),
            player_cards: Vec::new(),
            opponent_cards: Vec::new(),
            opponent_hidden_card: None,
            gold_balance: 0,
            current_wager: 0,
            phase: GamePhase::WaitingForWave,
            last_result: None,
            random_seed: 0,
            game_history: Vec::new(),
        }
    }
}

/// Copies a sequence of cards.
pub fn copy_cards(cards: &Vec<BattleCard>) -> (r: Vec<BattleCard>)
    ensures
        r@ == cards@,
{
    let mut r: Vec<BattleCard> = Vec::with_capacity(cards.len());
    let mut i: usize = 0;
    while i < cards.len()
        invariant
            i <= cards@.len(),
            r@ == cards@.take(i as int),
        decreases cards@.len() - i,
    {
        r.push(cards[i]);
        i = i + 1;
        assert(r@ =~= cards@.take(i as int));
    }
    assert(cards@.take(i as int) =~= cards@);
    r
}

} // verus!
