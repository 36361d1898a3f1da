use vstd::prelude::*;
use crate::card::{BattleCard, DECK_SIZE};
use crate::deck::{create_deck, draw_card, full_deck, shuffle, shuffled, lemma_shuffled_permutes};
use crate::payout::{payout, payout_of, sat_add};
use crate::rng::{SimpleRng, start_state, xorshift, DEFAULT_SEED};
use crate::scoring::{calculate_power, determine_outcome, outcome_of, power, BUST_LIMIT};
use crate::state::{
    copy_cards, BattleResult, GameError, GamePhase, GameRecord, Operation, PlayerGameData,
    PlayerModel, RecordModel, TowerDefenseInit, is_allowed_wager, GOLD_GRANT, MAX_WAGER, MIN_WAGER,
};

verus! {

/// Power below which the boss keeps drawing.
pub const BOSS_STAND: u8 = 17;

/// The hidden opponent card, if any, moved to the end of the opponent's hand.
pub open spec fn reveal_model(m: PlayerModel) -> PlayerModel {
    match m.hidden {
        Some(c) => PlayerModel { opponent_cards: m.opponent_cards.push(c), hidden: None, ..m },
        None => m,
    }
}

/// Closing a round: the payout is credited, the round recorded with its
/// final hands, the wager cleared, and the phase set to complete.
pub open spec fn apply_result_model(m: PlayerModel, result: BattleResult, now: u64) -> PlayerModel {
    let paid = payout_of(result, m.current_wager);
    PlayerModel {
        gold_balance: sat_add(m.gold_balance, paid),
        current_wager: 0,
        phase: GamePhase::WaveComplete,
        last_result: Some(result),
        history: m.history.push(
            RecordModel {
                player_cards: m.player_cards,
                opponent_cards: m.opponent_cards,
                wager: m.current_wager,
                result,
                payout: paid,
                timestamp: now,
            },
        ),
        ..m
    }
}

pub open spec fn can_reset(phase: GamePhase) -> bool {
    phase == GamePhase::WaitingForWave || phase == GamePhase::WaveComplete
}

pub open spec fn can_start(phase: GamePhase) -> bool {
    phase == GamePhase::WaitingForWave || phase == GamePhase::PlacingWager || phase
        == GamePhase::WaveComplete
}

pub open spec fn reset_model(m: PlayerModel) -> Result<PlayerModel, GameError> {
    if !can_reset(m.phase) {
        Err(GameError::ResetDuringBattle)
    } else {
        Ok(
            PlayerModel {
                phase: GamePhase::WaitingForWave,
                deck: Seq::empty(),
                player_cards: Seq::empty(),
                opponent_cards: Seq::empty(),
                hidden: None,
                current_wager: 0,
                ..m
            },
        )
    }
}

/// The seed a round is shuffled with: the stored seed advanced once.
pub open spec fn bumped_seed(seed: u64) -> u64 {
    xorshift(start_state(seed))
}

/// The state right after the deal: the wager taken, two cards to the
/// player and two to the opponent (the second hidden) from the top of
/// a fresh deck shuffled with the bumped seed.
pub open spec fn dealt_model(m: PlayerModel, wager: u64) -> PlayerModel {
    let seed = bumped_seed(m.random_seed);
    let d = shuffled(full_deck(), seed);
    PlayerModel {
        deck: d.subrange(0, 48),
        player_cards: seq![d[51], d[50]],
        opponent_cards: seq![d[49]],
        hidden: Some(d[48]),
        gold_balance: (m.gold_balance - wager) as u64,
        current_wager: wager,
        last_result: None,
        random_seed: seed,
        ..m
    }
}

pub open spec fn start_wave_model(m: PlayerModel, wager: u64, now: u64) -> Result<
    PlayerModel,
    GameError,
> {
    if !is_allowed_wager(wager) {
        Err(GameError::InvalidWager)
    } else if !can_start(m.phase) {
        Err(GameError::StartDuringBattle)
    } else if m.gold_balance < wager {
        Err(GameError::InsufficientGold)
    } else {
        let m1 = dealt_model(m, wager);
        if power(m1.player_cards) == 21 {
            let m2 = reveal_model(m1);
            if power(m2.opponent_cards) == 21 {
                Ok(apply_result_model(m2, BattleResult::Stalemate, now))
            } else {
                Ok(apply_result_model(m2, BattleResult::CriticalVictory, now))
            }
        } else {
            Ok(PlayerModel { phase: GamePhase::BattleInProgress, ..m1 })
        }
    }
}

pub open spec fn battle_model(m: PlayerModel, now: u64) -> Result<PlayerModel, GameError> {
    if m.phase != GamePhase::BattleInProgress {
        Err(GameError::BattleOutOfPhase)
    } else if m.deck.len() == 0 {
        Err(GameError::DeckExhausted)
    } else {
        let m1 = PlayerModel {
            deck: m.deck.drop_last(),
            player_cards: m.player_cards.push(m.deck.last()),
            ..m
        };
        if power(m1.player_cards) > 21 {
            Ok(apply_result_model(reveal_model(m1), BattleResult::Overwhelmed, now))
        } else {
            Ok(m1)
        }
    }
}

/// The boss's turn: it draws from the top of `deck` while its power is
/// below 17. `None` when the deck runs out first.
pub open spec fn boss_draw(opponent: Seq<BattleCard>, deck: Seq<BattleCard>) -> Option<
    (Seq<BattleCard>, Seq<BattleCard>),
>
    decreases deck.len(),
{
    if power(opponent) >= 17 {
        Some((opponent, deck))
    } else if deck.len() == 0 {
        None
    } else {
        boss_draw(opponent.push(deck.last()), deck.drop_last())
    }
}

pub open spec fn end_wave_model(m: PlayerModel, now: u64) -> Result<PlayerModel, GameError> {
    if m.phase != GamePhase::BattleInProgress {
        Err(GameError::EndWaveOutOfPhase)
    } else {
        let m1 = reveal_model(m);
        match boss_draw(m1.opponent_cards, m1.deck) {
            None => Err(GameError::DeckExhausted),
            Some((opponent, deck)) => {
                let m2 = PlayerModel { opponent_cards: opponent, deck, ..m1 };
                Ok(
                    apply_result_model(
                        m2,
                        outcome_of(power(m2.player_cards), power(opponent)),
                        now,
                    ),
                )
            },
        }
    }
}

pub open spec fn request_gold_model(m: PlayerModel) -> PlayerModel {
    let b = sat_add(m.gold_balance, GOLD_GRANT);
    PlayerModel {
        gold_balance: b,
        phase: if b > 0 && m.phase == GamePhase::WaveComplete {
            GamePhase::WaitingForWave
        } else {
            m.phase
        },
        ..m
    }
}

/// What an operation does to a player's record, or why it is rejected.
pub open spec fn step_model(m: PlayerModel, op: Operation, now: u64) -> Result<
    PlayerModel,
    GameError,
> {
    match op {
        Operation::Reset => reset_model(m),
        Operation::StartGame { wager } => start_wave_model(m, wager, now),
        Operation::Battle => battle_model(m, now),
        Operation::EndWave => end_wave_model(m, now),
        Operation::RequestGold => Ok(request_gold_model(m)),
    }
}

/// `after` and `r` are what `expected` prescribes: the new record on
/// success, the same error and an untouched record on rejection.
pub open spec fn refines(
    expected: Result<PlayerModel, GameError>,
    before: PlayerModel,
    after: PlayerModel,
    r: Result<(), GameError>,
) -> bool {
    match expected {
        Ok(m) => r is Ok && after == m,
        Err(e) => r == Err::<(), GameError>(e) && after == before,
    }
}

/// A record opened for a new owner: the starting gold, the owner's seed,
/// and waiting for a round.
pub open spec fn open_model(m: PlayerModel, starting_gold: u64, seed: u64) -> PlayerModel {
    PlayerModel {
        gold_balance: starting_gold,
        random_seed: seed,
        phase: GamePhase::WaitingForWave,
        ..m
    }
}

/// Application-wide settings: the gold a new player starts with and the
/// master seed that every player's seed is mixed from.
#[derive(Clone, Copy, Debug, PartialEq, Eq, Structural)]
pub struct TowerDefenseState {
    pub default_gold: u64,
    pub master_seed: u64,
}

impl TowerDefenseState {
    /// Settings from the instantiation arguments; a zero seed is replaced.
    pub fn instantiate(argument: TowerDefenseInit) -> (r: TowerDefenseState)
        ensures
            r.default_gold == argument.starting_gold,
            r.master_seed == start_state(argument.random_seed),
            r.master_seed != 0,
    {
        let master_seed = if argument.random_seed == 0 {
            DEFAULT_SEED
        } else {
            argument.random_seed
        };
        TowerDefenseState { default_gold: argument.starting_gold, master_seed }
    }
}

/// Relies on std's `BuildHasher::hash_one` over `DefaultHasher` to mix the
/// master seed with the owner's id into a seed of the owner's own.
#[verifier::external_body]
fn mix_owner_seed(master_seed: u64, owner: &[u8]) -> u64 {
    std::hash::BuildHasher::hash_one(
        &std::hash::BuildHasherDefault::<std::hash::DefaultHasher>::default(),
        (master_seed, owner),
    )
}

impl PlayerGameData {
    /// Opens the record of a new owner.
    pub fn open_account(&mut self, starting_gold: u64, seed: u64)
        ensures
            final(self)@ == open_model(old(self)@, starting_gold, seed),
    {
        self.gold_balance = starting_gold;
        self.random_seed = seed;
        self.phase = GamePhase::WaitingForWave;
    }

    /// Performs an owner's operation. A record whose seed is still zero
    /// belongs to an owner who has not acted yet: it is first opened with
    /// the starting gold and a seed mixed from the master seed and the
    /// owner's id. A rejected operation leaves the record as it was.
    pub fn execute_operation(
        &mut self,
        settings: &TowerDefenseState,
        owner: &[u8],
        op: Operation,
        now: u64,
    ) -> (r: Result<(), GameError>)
        ensures
            old(self).random_seed != 0 ==> refines(
                step_model(old(self)@, op, now),
                old(self)@,
                final(self)@,
                r,
            ),
            old(self).random_seed == 0 ==> exists|seed: u64|
                refines(
                    step_model(#[trigger] open_model(old(self)@, settings.default_gold, seed), op, now),
                    old(self)@,
                    final(self)@,
                    r,
                ),
    {
        if self.random_seed != 0 {
            return self.apply_operation(op, now);
        }
        let old_gold = self.gold_balance;
        let old_phase = self.phase;
        let seed = mix_owner_seed(settings.master_seed, owner);
        self.open_account(settings.default_gold, seed);
        let ghost opened = self@;
        let r = self.apply_operation(op, now);
        if r.is_err() {
            self.gold_balance = old_gold;
            self.random_seed = 0;
            self.phase = old_phase;
            assert(self@ =~= old(self)@);
        }
        assert(refines(step_model(opened, op, now), old(self)@, self@, r));
        r
    }

    /// Returns to waiting for a new round, clearing the round's cards and wager.
    pub fn reset(&mut self) -> (r: Result<(), GameError>)
        ensures
            refines(reset_model(old(self)@), old(self)@, final(self)@, r),
    {
        match self.phase {
            GamePhase::WaitingForWave | GamePhase::WaveComplete => {},
            _ => {
                return Err(GameError::ResetDuringBattle);
            },
        }
        self.phase = GamePhase::WaitingForWave;
        self.deck = Vec::new();
        self.player_cards = Vec::new();
        self.opponent_cards = Vec::new();
        self.opponent_hidden_card = None;
        self.current_wager = 0;
        assert(self@ =~= reset_model(old(self)@).unwrap());
        Ok(())
    }

    /// Moves the hidden opponent card, if any, into the opponent's hand.
    fn reveal_opponent_hidden_card(&mut self)
        ensures
            final(self)@ == reveal_model(old(self)@),
    {
        if let Some(hidden) = self.opponent_hidden_card {
            self.opponent_cards.push(hidden);
            self.opponent_hidden_card = None;
        }
    }

    /// Pays out and records a finished round.
    fn apply_result(&mut self, result: BattleResult, now: u64)
        ensures
            final(self)@ == apply_result_model(old(self)@, result, now),
    {
        let wager = self.current_wager;
        let paid = payout(result, wager);
        let updated_balance = self.gold_balance.saturating_add(paid);
        let record = GameRecord {
            player_cards: copy_cards(&self.player_cards),
            opponent_cards: copy_cards(&self.opponent_cards),
            wager,
            result,
            payout: paid,
            timestamp: now,
        };
        let ghost rm = record@;
        self.game_history.push(record);
        self.gold_balance = updated_balance;
        self.current_wager = 0;
        self.phase = GamePhase::WaveComplete;
        self.last_result = Some(result);
        assert(self@.history =~= old(self)@.history.push(rm));
        assert(self@ =~= apply_result_model(old(self)@, result, now));
    }

    /// Advances the stored seed once and returns the new value.
    fn bump_seed(&mut self) -> (r: u64)
        ensures
            r == bumped_seed(old(self).random_seed),
            final(self)@ == (PlayerModel { random_seed: r, ..old(self)@ }),
    {
        let mut rng = SimpleRng::new(self.random_seed);
        let next = rng.next();
        self.random_seed = next;
        next
    }

    /// A fresh deck shuffled with a newly bumped seed.
    fn new_shuffled_deck(&mut self) -> (deck: Vec<BattleCard>)
        ensures
            deck@ == shuffled(full_deck(), final(self).random_seed),
            deck@.len() == DECK_SIZE,
            final(self).random_seed == bumped_seed(old(self).random_seed),
            final(self)@ == (PlayerModel { random_seed: final(self).random_seed, ..old(self)@ }),
    {
        let mut deck = create_deck();
        let seed = self.bump_seed();
        shuffle(&mut deck, seed);
        proof {
            lemma_shuffled_permutes(full_deck(), seed);
        }
        deck
    }

    /// Takes the wager and deals a new round; a dealt 21 settles it at once.
    pub fn start_wave(&mut self, wager: u64, now: u64) -> (r: Result<(), GameError>)
        ensures
            refines(start_wave_model(old(self)@, wager, now), old(self)@, final(self)@, r),
    {
        if !(MIN_WAGER <= wager && wager <= MAX_WAGER) {
            return Err(GameError::InvalidWager);
        }
        match self.phase {
            GamePhase::WaitingForWave | GamePhase::PlacingWager | GamePhase::WaveComplete => {},
            _ => {
                return Err(GameError::StartDuringBattle);
            },
        }
        let balance = self.gold_balance;
        if balance < wager {
            return Err(GameError::InsufficientGold);
        }
        let mut deck = self.new_shuffled_deck();
        let ghost d = deck@;
        let player_card1 = draw_card(&mut deck);
        let player_card2 = draw_card(&mut deck);
        let opponent_up_card = draw_card(&mut deck);
        let opponent_hidden_card = draw_card(&mut deck);
        assert(deck@ =~= d.subrange(0, 48));
        assert(player_card1 == d[51] && player_card2 == d[50]);
        assert(opponent_up_card == d[49] && opponent_hidden_card == d[48]);
        self.opponent_hidden_card = Some(opponent_hidden_card);
        self.opponent_cards = vec![opponent_up_card];
        self.gold_balance = balance - wager;
        self.current_wager = wager;
        self.deck = deck;
        self.player_cards = vec![player_card1, player_card2];
        self.last_result = None;
        let ghost m1 = dealt_model(old(self)@, wager);
        assert(self.player_cards@ =~= m1.player_cards);
        assert(self.opponent_cards@ =~= m1.opponent_cards);
        assert(self@ =~= m1);
        let player_power = calculate_power(self.player_cards.as_slice());
        if player_power == BUST_LIMIT {
            self.reveal_opponent_hidden_card();
            let opponent_power = calculate_power(self.opponent_cards.as_slice());
            if opponent_power == BUST_LIMIT {
                self.apply_result(BattleResult::Stalemate, now);
            } else {
                self.apply_result(BattleResult::CriticalVictory, now);
            }
        } else {
            self.phase = GamePhase::BattleInProgress;
            assert(self@ =~= (PlayerModel { phase: GamePhase::BattleInProgress, ..m1 }));
        }
        Ok(())
    }

    /// The player draws one card; going over 21 loses the round at once.
    pub fn battle(&mut self, now: u64) -> (r: Result<(), GameError>)
        ensures
            refines(battle_model(old(self)@, now), old(self)@, final(self)@, r),
    {
        match self.phase {
            GamePhase::BattleInProgress => {},
            _ => {
                return Err(GameError::BattleOutOfPhase);
            },
        }
        if self.deck.len() == 0 {
            return Err(GameError::DeckExhausted);
        }
        let card = draw_card(&mut self.deck);
        self.player_cards.push(card);
        let ghost m1 = self@;
        if calculate_power(self.player_cards.as_slice()) > BUST_LIMIT {
            self.reveal_opponent_hidden_card();
            self.apply_result(BattleResult::Overwhelmed, now);
        }
        Ok(())
    }

    /// The player stands: the hidden card is revealed, the boss draws to
    /// 17 or more, and the round is decided.
    pub fn end_wave(&mut self, now: u64) -> (r: Result<(), GameError>)
        ensures
            refines(end_wave_model(old(self)@, now), old(self)@, final(self)@, r),
    {
        match self.phase {
            GamePhase::BattleInProgress => {},
            _ => {
                return Err(GameError::EndWaveOutOfPhase);
            },
        }
        let mut deck = copy_cards(&self.deck);
        let mut opponent_cards = copy_cards(&self.opponent_cards);
        if let Some(hidden) = self.opponent_hidden_card {
            opponent_cards.push(hidden);
        }
        let ghost m1 = reveal_model(old(self)@);
        assert(opponent_cards@ == m1.opponent_cards && deck@ == m1.deck);
        while calculate_power(opponent_cards.as_slice()) < BOSS_STAND
            invariant
                boss_draw(opponent_cards@, deck@) == boss_draw(m1.opponent_cards, m1.deck),
                m1 == reveal_model(old(self)@),
                *self == *old(self),
                self.phase == GamePhase::BattleInProgress,
            decreases deck@.len(),
        {
            if deck.len() == 0 {
                return Err(GameError::DeckExhausted);
            }
            let card = draw_card(&mut deck);
            opponent_cards.push(card);
        }
        self.phase = GamePhase::BossTurn;
        self.opponent_hidden_card = None;
        self.deck = deck;
        self.opponent_cards = opponent_cards;
        let result = determine_outcome(self.player_cards.as_slice(), self.opponent_cards.as_slice());
        self.apply_result(result, now);
        Ok(())
    }

    /// Grants gold; a completed round is set back to waiting.
    pub fn request_gold(&mut self)
        ensures
            final(self)@ == request_gold_model(old(self)@),
    {
        let current_balance = self.gold_balance;
        self.gold_balance = current_balance.saturating_add(GOLD_GRANT);
        if self.gold_balance > 0 && self.phase == GamePhase::WaveComplete {
            self.phase = GamePhase::WaitingForWave;
        }
    }

    /// Applies one operation to an existing record.
    pub fn apply_operation(&mut self, op: Operation, now: u64) -> (r: Result<(), GameError>)
        ensures
            refines(step_model(old(self)@, op, now), old(self)@, final(self)@, r),
    {
        match op {
            Operation::Reset => self.reset(),
            Operation::StartGame { wager } => self.start_wave(wager, now),
            Operation::Battle => self.battle(now),
            Operation::EndWave => self.end_wave(now),
            Operation::RequestGold => {
                self.request_gold();
                Ok(())
            },
        }
    }
}


/// A successful start takes an allowed wager and leaves the round either
/// in battle or, after a dealt 21, complete. In battle the balance is down
/// by exactly the wager, which stays staked; a round settled at the deal
/// is recorded with that wager, and its payout is credited on top of the
/// reduced balance.
pub proof fn lemma_start_takes_wager(m: PlayerModel, wager: u64, now: u64)
    requires
        start_wave_model(m, wager, now) is Ok,
    ensures
        ({
            let m2 = start_wave_model(m, wager, now).unwrap();
            &&& is_allowed_wager(wager)
            &&& m.gold_balance >= wager
            &&& m2.phase == GamePhase::BattleInProgress || m2.phase == GamePhase::WaveComplete
            &&& m2.phase == GamePhase::BattleInProgress ==> m2.gold_balance == m.gold_balance
                - wager && m2.current_wager == wager
            &&& m2.phase == GamePhase::WaveComplete ==> m2.history.len() == m.history.len() + 1
                && m2.history.last().wager == wager && m2.gold_balance == sat_add(
                (m.gold_balance - wager) as u64,
                m2.history.last().payout,
            )
        }),
{
}

/// Rounds started from equal seeds are dealt the same cards from the same
/// shuffled deck, and leave the same advanced seed.
pub proof fn lemma_equal_seeds_equal_deals(m1: PlayerModel, m2: PlayerModel, wager: u64)
    requires
        m1.random_seed == m2.random_seed,
    ensures
        dealt_model(m1, wager).deck == dealt_model(m2, wager).deck,
        dealt_model(m1, wager).player_cards == dealt_model(m2, wager).player_cards,
        dealt_model(m1, wager).opponent_cards == dealt_model(m2, wager).opponent_cards,
        dealt_model(m1, wager).hidden == dealt_model(m2, wager).hidden,
        dealt_model(m1, wager).random_seed == dealt_model(m2, wager).random_seed,
{
}

/// A reset during a battle is rejected, and a rejected operation leaves the
/// record exactly as it was.
pub proof fn lemma_reset_rejected_in_battle(
    m: PlayerModel,
    after: PlayerModel,
    r: Result<(), GameError>,
)
    requires
        m.phase == GamePhase::BattleInProgress,
        refines(reset_model(m), m, after, r),
    ensures
        r == Err::<(), GameError>(GameError::ResetDuringBattle),
        after == m,
{
}

} // verus!
