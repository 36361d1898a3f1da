use towerdefense::{create_deck, draw_card, shuffle, BattleCard, CardType, PowerLevel, SimpleRng};

fn card(id: usize) -> BattleCard {
    BattleCard::new(CardType::from_index(id / 13), PowerLevel::from_index(id % 13))
}

fn ids(deck: &[BattleCard]) -> Vec<u8> {
    deck.iter().map(|c| c.id()).collect()
}

#[test]
fn card_id_follows_type_and_power() {
    assert_eq!(BattleCard::new(CardType::Infantry, PowerLevel::Two).id(), 0);
    assert_eq!(BattleCard::new(CardType::Ranged, PowerLevel::General).id(), 23);
    assert_eq!(BattleCard::new(CardType::Siege, PowerLevel::AceUnit).id(), 51);
}

#[test]
fn labels_match_the_card_names() {
    assert_eq!(CardType::Magic.label(), "magic");
    assert_eq!(PowerLevel::Ten.label(), "10");
    assert_eq!(PowerLevel::AceUnit.label(), "ace_unit");
}

#[test]
fn fresh_deck_has_52_distinct_cards_in_canonical_order() {
    let deck = create_deck();
    assert_eq!(deck.len(), 52);
    let mut seen = ids(&deck);
    assert_eq!(seen, (0u8..52).collect::<Vec<u8>>());
    seen.dedup();
    assert_eq!(seen.len(), 52);
    assert_eq!(deck[0], BattleCard::new(CardType::Infantry, PowerLevel::Two));
    assert_eq!(deck[12], BattleCard::new(CardType::Infantry, PowerLevel::AceUnit));
    assert_eq!(deck[13], BattleCard::new(CardType::Ranged, PowerLevel::Two));
    assert_eq!(deck[51], BattleCard::new(CardType::Siege, PowerLevel::AceUnit));
}

#[test]
fn xorshift_steps_from_one() {
    let mut rng = SimpleRng::new(1);
    assert_eq!(rng.next(), 33153);
    assert_eq!(rng.next(), 1075920929);
    assert_eq!(rng.0, 1075920929);
}

#[test]
fn zero_seed_is_replaced() {
    let rng = SimpleRng::new(0);
    assert_eq!(rng.0, 0x9e3779b185ebca87);
    let mut a = SimpleRng::new(0);
    let mut b = SimpleRng::new(0x9e3779b185ebca87);
    assert_eq!(a.next(), b.next());
}

#[test]
fn shuffle_of_three_cards_with_seed_one() {
    let mut deck = vec![card(0), card(1), card(2)];
    shuffle(&mut deck, 1);
    assert_eq!(ids(&deck), vec![2, 1, 0]);
}

#[test]
fn shuffle_of_full_deck_with_seed_seven() {
    let mut deck = create_deck();
    shuffle(&mut deck, 7);
    let got = ids(&deck);
    assert_eq!(&got[..8], &[33, 50, 2, 24, 26, 30, 21, 29]);
    assert_eq!(&got[48..], &[18, 19, 5, 14]);
}

#[test]
fn shuffle_is_deterministic_and_a_permutation() {
    let mut a = create_deck();
    let mut b = create_deck();
    shuffle(&mut a, 42);
    shuffle(&mut b, 42);
    assert_eq!(a, b);
    let mut c = create_deck();
    shuffle(&mut c, 43);
    assert_ne!(a, c);
    let mut sorted = ids(&a);
    sorted.sort();
    assert_eq!(sorted, (0u8..52).collect::<Vec<u8>>());
}

#[test]
fn shuffle_leaves_tiny_decks_alone() {
    let mut empty: Vec<BattleCard> = Vec::new();
    shuffle(&mut empty, 5);
    assert!(empty.is_empty());
    let mut one = vec![card(7)];
    shuffle(&mut one, 5);
    assert_eq!(one, vec![card(7)]);
}

#[test]
fn draw_takes_the_last_card() {
    let mut deck = vec![card(3), card(9), card(40)];
    let c = draw_card(&mut deck);
    assert_eq!(c, card(40));
    assert_eq!(deck, vec![card(3), card(9)]);
}
