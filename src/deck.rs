use vstd::prelude::*;
use crate::card::{BattleCard, CardType, PowerLevel, NUM_CARD_TYPES, NUM_POWER_LEVELS, DECK_SIZE};
use crate::rng::{SimpleRng, xorshift, start_state};

verus! {

broadcast use vstd::seq_lib::group_to_multiset_ensures;

/// The card at position `i` of the canonical deck order: types outer,
/// power labels inner.
pub open spec fn canonical_card(i: int) -> BattleCard {
    BattleCard {
        card_type: CardType::spec_from_index(i / 13),
        power: PowerLevel::spec_from_index(i % 13),
    }
}

/// The freshly built deck, in canonical order.
pub open spec fn full_deck() -> Seq<BattleCard> {
    Seq::new(DECK_SIZE as nat, |i: int| canonical_card(i))
}

/// No two cards of the sequence share an id.
pub open spec fn ids_distinct(s: Seq<BattleCard>) -> bool {
    forall|i: int, j: int|
        0 <= i < s.len() && 0 <= j < s.len() && i != j ==> #[trigger] s[i].spec_id()
            != #[trigger] s[j].spec_id()
}

/// `s` with the entries at `i` and `j` exchanged.
pub open spec fn swap(s: Seq<BattleCard>, i: int, j: int) -> Seq<BattleCard> {
    s.update(i, s[j]).update(j, s[i])
}

/// The shuffle's remaining steps: positions `i` down to 1, with the
/// generator in `state`.
pub open spec fn shuffle_steps(s: Seq<BattleCard>, state: u64, i: nat) -> Seq<BattleCard>
    decreases i,
{
    if i == 0 {
        s
    } else {
        let r = xorshift(state);
        let j = (r as int) % ((i + 1) as int);
        shuffle_steps(swap(s, i as int, j), r, (i - 1) as nat)
    }
}

/// The deck `s` shuffled with `seed`: for each position from the last down
/// to 1, swap it with the position the next generator value picks,
/// modulo the position plus one.
pub open spec fn shuffled(s: Seq<BattleCard>, seed: u64) -> Seq<BattleCard> {
    if s.len() <= 1 {
        s
    } else {
        shuffle_steps(s, start_state(seed), (s.len() - 1) as nat)
    }
}

/// Exchanging two entries keeps the length and the multiset of cards.
pub proof fn lemma_swap_multiset(s: Seq<BattleCard>, i: int, j: int)
    requires
        0 <= i < s.len(),
        0 <= j < s.len(),
    ensures
        swap(s, i, j).len() == s.len(),
        swap(s, i, j).to_multiset() =~= s.to_multiset(),
{
    broadcast use vstd::multiset::group_multiset_axioms;
    broadcast use vstd::seq_lib::to_multiset_update;

    let s1 = s.update(i, s[j]);
    assert(s1.to_multiset() == s.to_multiset().insert(s[j]).remove(s[i]));
    assert(s1[j] == s[j]);
    assert(swap(s, i, j).to_multiset() == s1.to_multiset().insert(s[i]).remove(s[j]));
    assert(swap(s, i, j).to_multiset() =~= s.to_multiset());
}

proof fn lemma_shuffle_steps_multiset(s: Seq<BattleCard>, state: u64, i: nat)
    requires
        i < s.len(),
    ensures
        shuffle_steps(s, state, i).len() == s.len(),
        shuffle_steps(s, state, i).to_multiset() =~= s.to_multiset(),
    decreases i,
{
    if i > 0 {
        let r = xorshift(state);
        let j = (r as int) % ((i + 1) as int);
        lemma_swap_multiset(s, i as int, j);
        lemma_shuffle_steps_multiset(swap(s, i as int, j), r, (i - 1) as nat);
    }
}

/// Shuffling rearranges the cards: the length and the multiset of cards stay.
pub proof fn lemma_shuffled_permutes(s: Seq<BattleCard>, seed: u64)
    ensures
        shuffled(s, seed).len() == s.len(),
        shuffled(s, seed).to_multiset() =~= s.to_multiset(),
{
    if s.len() > 1 {
        lemma_shuffle_steps_multiset(s, start_state(seed), (s.len() - 1) as nat);
    }
}

/// Builds the 52-card deck in canonical order.
pub fn create_deck() -> (deck: Vec<BattleCard>)
    ensures
        deck@ == full_deck(),
        deck@.len() == DECK_SIZE,
        ids_distinct(deck@),
{
    let mut deck: Vec<BattleCard> = Vec::with_capacity(DECK_SIZE);
    let mut t: usize = 0;
    while t < NUM_CARD_TYPES
        invariant
            t <= NUM_CARD_TYPES,
            deck@.len() == t * 13,
            forall|k: int| 0 <= k < deck@.len() ==> deck@[k] == canonical_card(k),
        decreases NUM_CARD_TYPES - t,
    {
        let card_type = CardType::from_index(t);
        let mut p: usize = 0;
        while p < NUM_POWER_LEVELS
            invariant
                t < NUM_CARD_TYPES,
                p <= NUM_POWER_LEVELS,
                card_type == CardType::spec_from_index(t as int),
                deck@.len() == t * 13 + p,
                forall|k: int| 0 <= k < deck@.len() ==> deck@[k] == canonical_card(k),
            decreases NUM_POWER_LEVELS - p,
        {
            let power = PowerLevel::from_index(p);
            deck.push(BattleCard::new(card_type, power));
            proof {
                let k = (t * 13 + p) as int;
                assert(k / 13 == t as int && k % 13 == p as int) by (nonlinear_arith)
                    requires
                        k == t * 13 + p,
                        p < 13,
                ;
            }
            p = p + 1;
        }
        t = t + 1;
    }
    assert(deck@ =~= full_deck());
    proof {
        lemma_full_deck_ids();
    }
    deck
}

/// Each card of the canonical deck has its position as id.
pub proof fn lemma_full_deck_ids()
    ensures
        full_deck().len() == DECK_SIZE,
        forall|i: int| 0 <= i < DECK_SIZE ==> (#[trigger] full_deck()[i]).spec_id() == i,
        ids_distinct(full_deck()),
{
    assert forall|i: int| 0 <= i < DECK_SIZE implies (#[trigger] full_deck()[i]).spec_id() == i by {
        let t = i / 13;
        let p = i % 13;
        assert(0 <= t < 4 && 0 <= p < 13 && i == t * 13 + p);
        assert(CardType::spec_from_index(t).spec_index() == t);
        assert(PowerLevel::spec_from_index(p).spec_index() == p);
    }
}

/// Shuffles `deck` in place with a fresh generator seeded by `seed`.
pub fn shuffle(deck: &mut Vec<BattleCard>, seed: u64)
    ensures
        final(deck)@ == shuffled(old(deck)@, seed),
{
    let ghost target = shuffled(deck@, seed);
    let mut rng = SimpleRng::new(seed);
    let len = deck.len();
    if len <= 1 {
        return;
    }
    let mut i: usize = len - 1;
    while i >= 1
        invariant
            deck@.len() == len,
            i < len,
            shuffle_steps(deck@, rng.state(), i as nat) == target,
        decreases i,
    {
        let ghost prev = deck@;
        let r = rng.next();
        let j = (r % ((i + 1) as u64)) as usize;
        let a = deck[i];
        let b = deck[j];
        deck.set(i, b);
        deck.set(j, a);
        assert(deck@ =~= swap(prev, i as int, j as int));
        i = i - 1;
    }
}

/// Removes and returns the top card, the last of the sequence.
pub fn draw_card(deck: &mut Vec<BattleCard>) -> (card: BattleCard)
    requires
        old(deck)@.len() > 0,
    ensures
        card == old(deck)@.last(),
        final(deck)@ == old(deck)@.drop_last(),
{
    deck.pop().unwrap()
}

} // verus!
