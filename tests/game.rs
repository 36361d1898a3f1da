use towerdefense::{
    allowed_wagers, calculate_power, BattleCard, BattleResult, CardType, GameError, GamePhase, Operation,
    PlayerGameData, PowerLevel, TowerDefenseInit, TowerDefenseState,
};

fn card(id: usize) -> BattleCard {
    BattleCard::new(CardType::from_index(id / 13), PowerLevel::from_index(id % 13))
}

fn player(balance: u64, seed: u64) -> PlayerGameData {
    let mut p = PlayerGameData::empty();
    p.gold_balance = balance;
    p.random_seed = seed;
    p
}

fn all_ids(p: &PlayerGameData) -> Vec<u8> {
    let mut v: Vec<u8> = p.deck.iter().chain(p.player_cards.iter()).chain(p.opponent_cards.iter()).map(|c| c.id()).collect();
    if let Some(h) = p.opponent_hidden_card {
        v.push(h.id());
    }
    v
}

fn assert_no_duplicates(p: &PlayerGameData) {
    let mut ids = all_ids(p);
    let n = ids.len();
    ids.sort();
    ids.dedup();
    assert_eq!(ids.len(), n);
}

#[test]
fn allowed_wagers_are_one_to_five() {
    assert_eq!(allowed_wagers(), vec![1, 2, 3, 4, 5]);
}

#[test]
fn instantiate_replaces_zero_seed() {
    let s = TowerDefenseState::instantiate(TowerDefenseInit { starting_gold: 500, random_seed: 0 });
    assert_eq!(s.default_gold, 500);
    assert_eq!(s.master_seed, 0x9e3779b185ebca87);
    let s = TowerDefenseState::instantiate(TowerDefenseInit { starting_gold: 7, random_seed: 42 });
    assert_eq!(s.master_seed, 42);
}

#[test]
fn start_deals_from_the_bumped_seed() {
    let mut p = player(500, 1);
    assert_eq!(p.start_wave(5, 10), Ok(()));
    assert_eq!(p.random_seed, 33153);
    assert_eq!(p.gold_balance, 495);
    assert_eq!(p.current_wager, 5);
    assert_eq!(p.phase, GamePhase::BattleInProgress);
    assert_eq!(p.player_cards, vec![card(5), card(19)]);
    assert_eq!(p.opponent_cards, vec![card(39)]);
    assert_eq!(p.opponent_hidden_card, Some(card(35)));
    assert_eq!(p.deck.len(), 48);
    assert_eq!(p.deck[47], card(48));
    assert_eq!(p.last_result, None);
    assert_no_duplicates(&p);
}

#[test]
fn every_allowed_wager_is_taken_exactly() {
    for w in 1..=5u64 {
        let mut p = player(500, 1);
        assert_eq!(p.start_wave(w, 0), Ok(()));
        assert_eq!(p.gold_balance, 500 - w);
        assert_eq!(p.phase, GamePhase::BattleInProgress);
        assert_eq!(p.current_wager, w);
    }
}

#[test]
fn dealt_21_settles_as_critical_victory() {
    let mut p = player(100, 4);
    assert_eq!(p.start_wave(2, 77), Ok(()));
    assert_eq!(calculate_power(&p.player_cards), 21);
    assert_eq!(p.phase, GamePhase::WaveComplete);
    assert_eq!(p.last_result, Some(BattleResult::CriticalVictory));
    assert_eq!(p.gold_balance, 100 - 2 + 5);
    assert_eq!(p.current_wager, 0);
    assert_eq!(p.opponent_hidden_card, None);
    assert_eq!(p.opponent_cards, vec![card(12), card(51)]);
    assert_eq!(p.game_history.len(), 1);
    assert_eq!(p.game_history[0].wager, 2);
    assert_eq!(p.game_history[0].payout, 5);
    assert_eq!(p.game_history[0].timestamp, 77);
    assert_no_duplicates(&p);
}

#[test]
fn start_rejects_bad_wagers_without_change() {
    let initial = player(500, 1);
    for w in [0u64, 6, 100] {
        let mut p = initial.clone();
        assert_eq!(p.start_wave(w, 0), Err(GameError::InvalidWager));
        assert_eq!(p, initial);
    }
}

#[test]
fn start_rejects_insufficient_gold() {
    let initial = player(3, 1);
    let mut p = initial.clone();
    assert_eq!(p.start_wave(4, 0), Err(GameError::InsufficientGold));
    assert_eq!(p, initial);
    assert_eq!(p.start_wave(3, 0), Ok(()));
    assert_eq!(p.gold_balance, 0);
}

#[test]
fn start_rejected_during_battle() {
    let mut p = player(500, 1);
    p.start_wave(5, 0).unwrap();
    let before = p.clone();
    assert_eq!(p.start_wave(1, 0), Err(GameError::StartDuringBattle));
    assert_eq!(p, before);
}

#[test]
fn start_allowed_from_placing_wager() {
    let mut p = player(500, 1);
    p.phase = GamePhase::PlacingWager;
    assert_eq!(p.start_wave(1, 0), Ok(()));
}

#[test]
fn reset_during_battle_fails_and_changes_nothing() {
    let mut p = player(500, 1);
    p.start_wave(5, 0).unwrap();
    let before = p.clone();
    assert_eq!(p.reset(), Err(GameError::ResetDuringBattle));
    assert_eq!(p, before);
}

#[test]
fn reset_after_round_clears_round_but_keeps_balance_and_history() {
    let mut p = player(500, 1);
    p.start_wave(5, 0).unwrap();
    p.battle(1).unwrap();
    assert_eq!(p.phase, GamePhase::WaveComplete);
    assert_eq!(p.reset(), Ok(()));
    assert_eq!(p.phase, GamePhase::WaitingForWave);
    assert!(p.deck.is_empty() && p.player_cards.is_empty() && p.opponent_cards.is_empty());
    assert_eq!(p.opponent_hidden_card, None);
    assert_eq!(p.current_wager, 0);
    assert_eq!(p.gold_balance, 495);
    assert_eq!(p.game_history.len(), 1);
}

#[test]
fn battle_bust_is_overwhelmed() {
    let mut p = player(500, 1);
    p.start_wave(5, 0).unwrap();
    assert_eq!(p.battle(9), Ok(()));
    assert_eq!(p.player_cards, vec![card(5), card(19), card(48)]);
    assert_eq!(calculate_power(&p.player_cards), 25);
    assert_eq!(p.phase, GamePhase::WaveComplete);
    assert_eq!(p.last_result, Some(BattleResult::Overwhelmed));
    assert_eq!(p.gold_balance, 495);
    assert_eq!(p.opponent_cards, vec![card(39), card(35)]);
    assert_eq!(p.opponent_hidden_card, None);
    assert_eq!(p.game_history.len(), 1);
    assert_eq!(p.game_history[0].payout, 0);
    assert_eq!(p.game_history[0].result, BattleResult::Overwhelmed);
    assert_eq!(p.game_history[0].timestamp, 9);
    assert_no_duplicates(&p);
}

#[test]
fn battle_without_bust_stays_in_battle() {
    let mut p = player(500, 2);
    p.start_wave(1, 0).unwrap();
    p.deck.push(card(0));
    assert_eq!(p.battle(0), Ok(()));
    assert_eq!(p.phase, GamePhase::BattleInProgress);
    assert_eq!(calculate_power(&p.player_cards), 16);
    assert_eq!(p.deck.len(), 48);
}

#[test]
fn battle_out_of_phase_rejected() {
    let mut p = player(500, 1);
    let before = p.clone();
    assert_eq!(p.battle(0), Err(GameError::BattleOutOfPhase));
    assert_eq!(p, before);
}

#[test]
fn battle_on_empty_deck_is_exhausted() {
    let mut p = player(500, 1);
    p.start_wave(5, 0).unwrap();
    p.deck.clear();
    let before = p.clone();
    assert_eq!(p.battle(0), Err(GameError::DeckExhausted));
    assert_eq!(p, before);
}

#[test]
fn end_wave_boss_busts_is_enemy_retreat() {
    let mut p = player(500, 1);
    p.start_wave(5, 0).unwrap();
    assert_eq!(p.end_wave(3), Ok(()));
    assert_eq!(p.opponent_cards, vec![card(39), card(35), card(48)]);
    assert_eq!(p.last_result, Some(BattleResult::EnemyRetreat));
    assert_eq!(p.gold_balance, 505);
    assert_eq!(p.phase, GamePhase::WaveComplete);
    assert_eq!(p.game_history[0].payout, 10);
    assert_no_duplicates(&p);
}

#[test]
fn end_wave_boss_stands_on_17_and_wins() {
    let mut p = player(500, 2);
    p.start_wave(4, 0).unwrap();
    assert_eq!(p.end_wave(0), Ok(()));
    assert_eq!(p.opponent_cards, vec![card(46), card(0), card(40), card(1)]);
    assert_eq!(calculate_power(&p.opponent_cards), 17);
    assert_eq!(p.last_result, Some(BattleResult::Defeat));
    assert_eq!(p.gold_balance, 496);
    assert_eq!(p.deck.len(), 46);
}

#[test]
fn end_wave_on_exhausted_deck_changes_nothing() {
    let mut p = player(500, 2);
    p.start_wave(4, 0).unwrap();
    p.deck.clear();
    let before = p.clone();
    assert_eq!(p.end_wave(0), Err(GameError::DeckExhausted));
    assert_eq!(p, before);
}

#[test]
fn end_wave_out_of_phase_rejected() {
    let mut p = player(500, 1);
    assert_eq!(p.end_wave(0), Err(GameError::EndWaveOutOfPhase));
}

#[test]
fn request_gold_adds_and_unsticks_completed_round() {
    let mut p = player(0, 1);
    p.phase = GamePhase::WaveComplete;
    p.request_gold();
    assert_eq!(p.gold_balance, 100);
    assert_eq!(p.phase, GamePhase::WaitingForWave);
    let mut q = player(u64::MAX - 10, 1);
    q.request_gold();
    assert_eq!(q.gold_balance, u64::MAX);
}

#[test]
fn request_gold_keeps_battle_phase() {
    let mut p = player(500, 1);
    p.start_wave(5, 0).unwrap();
    p.request_gold();
    assert_eq!(p.gold_balance, 595);
    assert_eq!(p.phase, GamePhase::BattleInProgress);
}

#[test]
fn first_operation_opens_the_account() {
    let settings = TowerDefenseState::instantiate(TowerDefenseInit { starting_gold: 500, random_seed: 42 });
    let mut p = PlayerGameData::empty();
    assert_eq!(p.execute_operation(&settings, b"alice", Operation::RequestGold, 0), Ok(()));
    assert_eq!(p.gold_balance, 600);
    assert_ne!(p.random_seed, 0);
    let seed = p.random_seed;
    assert_eq!(p.execute_operation(&settings, b"alice", Operation::RequestGold, 0), Ok(()));
    assert_eq!(p.gold_balance, 700);
    assert_eq!(p.random_seed, seed);
}

#[test]
fn rejected_first_operation_leaves_record_untouched() {
    let settings = TowerDefenseState::instantiate(TowerDefenseInit { starting_gold: 500, random_seed: 42 });
    let mut p = PlayerGameData::empty();
    let before = p.clone();
    assert_eq!(p.execute_operation(&settings, b"alice", Operation::Battle, 0), Err(GameError::BattleOutOfPhase));
    assert_eq!(p, before);
}

#[test]
fn distinct_owners_get_distinct_shuffles() {
    let settings = TowerDefenseState::instantiate(TowerDefenseInit { starting_gold: 500, random_seed: 42 });
    let mut a = PlayerGameData::empty();
    let mut b = PlayerGameData::empty();
    a.execute_operation(&settings, b"alice", Operation::StartGame { wager: 1 }, 0).unwrap();
    b.execute_operation(&settings, b"bob", Operation::StartGame { wager: 1 }, 0).unwrap();
    assert_ne!(a.random_seed, b.random_seed);
    let ia = all_ids(&a);
    let ib = all_ids(&b);
    assert_ne!(ia, ib);
}

#[test]
fn equal_seeds_deal_equal_rounds() {
    let mut a = player(500, 99);
    let mut b = player(20, 99);
    a.start_wave(1, 0).unwrap();
    b.start_wave(3, 5).unwrap();
    assert_eq!(a.deck, b.deck);
    assert_eq!(a.player_cards, b.player_cards);
    assert_eq!(a.random_seed, b.random_seed);
}

#[test]
fn full_round_through_operations_with_master_seed_42() {
    let settings = TowerDefenseState::instantiate(TowerDefenseInit { starting_gold: 500, random_seed: 42 });
    let mut p = PlayerGameData::empty();
    assert_eq!(p.execute_operation(&settings, b"owner", Operation::StartGame { wager: 5 }, 1), Ok(()));
    assert_eq!(p.gold_balance, 495);
    if calculate_power(&p.player_cards) == 21 {
        assert_eq!(p.phase, GamePhase::WaveComplete);
        return;
    }
    assert_eq!(p.phase, GamePhase::BattleInProgress);
    while p.phase == GamePhase::BattleInProgress {
        assert_eq!(p.execute_operation(&settings, b"owner", Operation::Battle, 2), Ok(()));
        assert_no_duplicates(&p);
    }
    assert!(calculate_power(&p.player_cards) > 21);
    assert_eq!(p.phase, GamePhase::WaveComplete);
    assert_eq!(p.last_result, Some(BattleResult::Overwhelmed));
    assert_eq!(p.gold_balance, 495);
    assert_eq!(p.game_history.len(), 1);
    assert_eq!(p.game_history[0].payout, 0);
    assert_eq!(p.execute_operation(&settings, b"owner", Operation::Reset, 3), Ok(()));
    assert_eq!(p.phase, GamePhase::WaitingForWave);
}

#[test]
fn error_messages() {
    assert_eq!(GameError::InvalidWager.message(), "Wager must be one of 1,2,3,4,5");
    assert_eq!(GameError::DeckExhausted.message(), "The reinforcement deck is exhausted");
}
