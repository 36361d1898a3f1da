use vstd::prelude::*;
use crate::card::{BattleCard, PowerLevel};
use crate::state::BattleResult;

verus! {

broadcast use vstd::seq_lib::group_to_multiset_ensures;

/// Power above which a hand busts; a hand of exactly this power is critical.
pub const BUST_LIMIT: u8 = 21;

/// Sum of `f` over the cards of `h`.
pub open spec fn sum_of(h: Seq<BattleCard>, f: spec_fn(BattleCard) -> nat) -> nat
    decreases h.len(),
{
    if h.len() == 0 {
        0
    } else {
        sum_of(h.drop_last(), f) + f(h.last())
    }
}

pub open spec fn card_value(c: BattleCard) -> nat {
    c.power.spec_value()
}

pub open spec fn ace_weight(c: BattleCard) -> nat {
    if c.power == PowerLevel::AceUnit {
        1
    } else {
        0
    }
}

/// Sum of the face values of the hand, aces at eleven.
pub open spec fn raw_total(h: Seq<BattleCard>) -> nat {
    sum_of(h, |c: BattleCard| card_value(c))
}

/// Number of aces in the hand.
pub open spec fn ace_count(h: Seq<BattleCard>) -> nat {
    sum_of(h, |c: BattleCard| ace_weight(c))
}

/// Soft-to-hard ace reduction: while the total busts and an ace still
/// counts eleven, count that ace as one.
pub open spec fn soften(total: int, aces: int) -> int
    decreases aces,
{
    if total > 21 && aces > 0 {
        soften(total - 10, aces - 1)
    } else {
        total
    }
}

/// The power of a hand: its face total, saturated at the 8-bit maximum,
/// with as many aces softened as keep it from busting.
pub open spec fn power(h: Seq<BattleCard>) -> int {
    let t = raw_total(h);
    soften(if t > 255 { 255 } else { t as int }, ace_count(h) as int)
}

/// The outcome for the player, from both final powers.
pub open spec fn outcome_of(player_power: int, opponent_power: int) -> BattleResult {
    if player_power > 21 {
        BattleResult::Overwhelmed
    } else if opponent_power > 21 {
        BattleResult::EnemyRetreat
    } else if player_power > opponent_power {
        BattleResult::Victory
    } else if opponent_power > player_power {
        BattleResult::Defeat
    } else {
        BattleResult::Stalemate
    }
}

proof fn lemma_sum_of_remove(s: Seq<BattleCard>, f: spec_fn(BattleCard) -> nat, i: int)
    requires
        0 <= i < s.len(),
    ensures
        sum_of(s.remove(i), f) + f(s[i]) == sum_of(s, f),
    decreases s.len(),
{
    if i < s.len() - 1 {
        lemma_sum_of_remove(s.drop_last(), f, i);
        assert(s.remove(i).drop_last() =~= s.drop_last().remove(i));
        assert(s.remove(i).last() == s.last());
    } else {
        assert(s.remove(i) =~= s.drop_last());
    }
}

/// A sum over the cards depends only on which cards there are, not on
/// their order.
pub proof fn lemma_sum_of_permutation(
    s1: Seq<BattleCard>,
    s2: Seq<BattleCard>,
    f: spec_fn(BattleCard) -> nat,
)
    requires
        s1.to_multiset() == s2.to_multiset(),
    ensures
        sum_of(s1, f) == sum_of(s2, f),
    decreases s1.len(),
{
    broadcast use vstd::multiset::group_multiset_axioms;

    if s1.len() == 0 {
        assert(s1.to_multiset().len() == s1.len());
        assert(s2.to_multiset().len() == s2.len());
    } else {
        let x = s1.last();
        assert(s1.drop_last().push(x) =~= s1);
        assert(s1.to_multiset() == s1.drop_last().to_multiset().insert(x));
        assert(s2.to_multiset().count(x) > 0);
        assert(s2.contains(x));
        let i = choose|i: int| 0 <= i < s2.len() && s2[i] == x;
        assert(s2.remove(i).to_multiset() == s2.to_multiset().remove(x));
        assert(s2.remove(i).to_multiset() =~= s1.drop_last().to_multiset());
        lemma_sum_of_permutation(s1.drop_last(), s2.remove(i), f);
        lemma_sum_of_remove(s2, f, i);
    }
}

/// The power of a hand does not depend on the order of its cards.
pub proof fn lemma_power_permutation(h1: Seq<BattleCard>, h2: Seq<BattleCard>)
    requires
        h1.to_multiset() == h2.to_multiset(),
    ensures
        power(h1) == power(h2),
{
    lemma_sum_of_permutation(h1, h2, |c: BattleCard| card_value(c));
    lemma_sum_of_permutation(h1, h2, |c: BattleCard| ace_weight(c));
}

/// An ace with a ten-valued card scores 21, not 31: the ace is softened.
pub proof fn lemma_ace_and_ten(ace: BattleCard, ten: BattleCard)
    requires
        ace.power == PowerLevel::AceUnit,
        ten.power.spec_value() == 10,
    ensures
        power(seq![ace, ten]) == 21,
        power(seq![ten, ace]) == 21,
{
    reveal_with_fuel(sum_of, 3);
    assert(seq![ace, ten].drop_last() =~= seq![ace]);
    assert(seq![ace].drop_last() =~= Seq::<BattleCard>::empty());
    assert(seq![ten, ace].drop_last() =~= seq![ten]);
    assert(seq![ten].drop_last() =~= Seq::<BattleCard>::empty());
    assert(raw_total(seq![ace, ten]) == 21);
    assert(raw_total(seq![ten, ace]) == 21);
    assert(ace_count(seq![ace, ten]) == 1);
    assert(ace_count(seq![ten, ace]) == 1);
}

/// Equal powers that do not bust are a stalemate; a busting player is
/// overwhelmed whatever the opponent holds.
pub proof fn lemma_outcome_ties_and_busts(player: Seq<BattleCard>, opponent: Seq<BattleCard>)
    ensures
        power(player) == power(opponent) && power(player) <= 21 ==> outcome_of(
            power(player),
            power(opponent),
        ) == BattleResult::Stalemate,
        power(player) > 21 ==> outcome_of(power(player), power(opponent))
            == BattleResult::Overwhelmed,
{
}

/// Computes the power of a hand.
pub fn calculate_power(cards: &[BattleCard]) -> (r: u8)
    ensures
        r == power(cards@),
{
    let mut total: u8 = 0;
    let mut aces: usize = 0;
    let mut i: usize = 0;
    while i < cards.len()
        invariant
            i <= cards@.len(),
            aces <= i,
            total == (if raw_total(cards@.take(i as int)) > 255 {
                255
            } else {
                raw_total(cards@.take(i as int))
            }),
            aces == ace_count(cards@.take(i as int)),
        decreases cards@.len() - i,
    {
        let card = cards[i];
        assert(cards@.take(i + 1).drop_last() =~= cards@.take(i as int));
        if card.power.is_ace() {
            aces = aces + 1;
        }
        total = total.saturating_add(card.power.value());
        i = i + 1;
    }
    assert(cards@.take(i as int) =~= cards@);
    assert(soften(total as int, aces as int) == power(cards@));
    while total > BUST_LIMIT && aces > 0
        invariant
            soften(total as int, aces as int) == power(cards@),
        decreases aces,
    {
        total = total - 10;
        aces = aces - 1;
    }
    total
}

/// Decides a finished round from both hands.
pub fn determine_outcome(player_cards: &[BattleCard], opponent_cards: &[BattleCard]) -> (r:
    BattleResult)
    ensures
        r == outcome_of(power(player_cards@), power(opponent_cards@)),
{
    let player_power = calculate_power(player_cards);
    let opponent_power = calculate_power(opponent_cards);
    let player_overwhelmed = player_power > BUST_LIMIT;
    let opponent_retreated = opponent_power > BUST_LIMIT;
    if player_overwhelmed {
        BattleResult::Overwhelmed
    } else if opponent_retreated {
        BattleResult::EnemyRetreat
    } else if player_power > opponent_power {
        BattleResult::Victory
    } else if opponent_power > player_power {
        BattleResult::Defeat
    } else {
        BattleResult::Stalemate
    }
}

} // verus!
