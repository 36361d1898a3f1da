use vstd::prelude::*;
use vstd::multiset::Multiset;
use crate::card::BattleCard;
use crate::deck::{full_deck, lemma_full_deck_ids, lemma_shuffled_permutes, shuffled};
use crate::game::{
    apply_result_model, boss_draw, bumped_seed, dealt_model, end_wave_model,
    open_model, request_gold_model, reset_model, reveal_model, step_model,
};
use crate::rng::{lemma_xorshift_nonzero, start_state};
use crate::scoring::power;
use crate::state::{is_allowed_wager, BattleResult, GamePhase, Operation, PlayerModel};

verus! {

broadcast use {vstd::seq_lib::group_to_multiset_ensures, vstd::multiset::group_multiset_axioms};

/// The hidden card as a sequence of zero or one card.
pub open spec fn hidden_seq(h: Option<BattleCard>) -> Seq<BattleCard> {
    match h {
        Some(c) => seq![c],
        None => Seq::empty(),
    }
}

/// Every card of the round: the deck, both hands and the hidden card.
pub open spec fn round_cards(m: PlayerModel) -> Multiset<BattleCard> {
    m.deck.to_multiset().add(m.player_cards.to_multiset()).add(
        m.opponent_cards.to_multiset(),
    ).add(hidden_seq(m.hidden).to_multiset())
}

/// A player's record is consistent: no card appears twice among the deck,
/// the hands and the hidden card; a round in progress has an allowed
/// wager, a hidden card and a started generator; outside a round the
/// wager is zero and no card is hidden.
pub open spec fn record_wf(m: PlayerModel) -> bool {
    &&& forall|c: BattleCard| #[trigger] round_cards(m).count(c) <= 1
    &&& m.phase == GamePhase::BattleInProgress ==> is_allowed_wager(m.current_wager)
        && m.hidden is Some && m.random_seed != 0
    &&& m.phase != GamePhase::BattleInProgress ==> m.current_wager == 0 && m.hidden is None
}

proof fn lemma_reveal_keeps_cards(m: PlayerModel)
    ensures
        round_cards(reveal_model(m)) =~= round_cards(m),
{
    if let Some(c) = m.hidden {
        assert(seq![c] =~= Seq::<BattleCard>::empty().push(c));
        assert(hidden_seq(m.hidden).to_multiset() =~= Multiset::<BattleCard>::empty().insert(c));
        assert(hidden_seq(None).to_multiset() =~= Multiset::<BattleCard>::empty());
    }
}

proof fn lemma_boss_draw_keeps_cards(opponent: Seq<BattleCard>, deck: Seq<BattleCard>)
    requires
        boss_draw(opponent, deck) is Some,
    ensures
        ({
            let (o, d) = boss_draw(opponent, deck).unwrap();
            o.to_multiset().add(d.to_multiset()) =~= opponent.to_multiset().add(deck.to_multiset())
        }),
    decreases deck.len(),
{
    if power(opponent) < 17 && deck.len() > 0 {
        let x = deck.last();
        assert(deck.drop_last().push(x) =~= deck);
        lemma_boss_draw_keeps_cards(opponent.push(x), deck.drop_last());
    }
}

/// Dealing a round lays out exactly the cards of a full deck.
proof fn lemma_deal_cards(m: PlayerModel, wager: u64)
    ensures
        round_cards(dealt_model(m, wager)) =~= full_deck().to_multiset(),
{
    let d = shuffled(full_deck(), bumped_seed(m.random_seed));
    lemma_shuffled_permutes(full_deck(), bumped_seed(m.random_seed));
    lemma_full_deck_ids();
    let s = d.subrange(0, 48);
    assert(s.push(d[48]).push(d[49]).push(d[50]).push(d[51]) =~= d);
    assert(seq![d[51], d[50]] =~= Seq::<BattleCard>::empty().push(d[51]).push(d[50]));
    assert(seq![d[49]] =~= Seq::<BattleCard>::empty().push(d[49]));
    assert(seq![d[48]] =~= Seq::<BattleCard>::empty().push(d[48]));
}

/// The full deck holds each card at most once.
proof fn lemma_full_deck_once(c: BattleCard)
    ensures
        full_deck().to_multiset().count(c) <= 1,
{
    lemma_full_deck_ids();
    assert(full_deck().no_duplicates()) by {
        assert forall|i: int, j: int|
            0 <= i < full_deck().len() && 0 <= j < full_deck().len() && i != j implies full_deck()[i]
            != full_deck()[j] by {
            assert(full_deck()[i].spec_id() != full_deck()[j].spec_id());
        }
    }
    full_deck().lemma_multiset_has_no_duplicates();
}

/// The record of an owner who has not acted yet is consistent.
pub proof fn lemma_empty_record_wf(m: PlayerModel)
    requires
        m.deck.len() == 0,
        m.player_cards.len() == 0,
        m.opponent_cards.len() == 0,
        m.hidden is None,
        m.current_wager == 0,
        m.phase == GamePhase::WaitingForWave,
    ensures
        record_wf(m),
{
    assert(m.deck =~= Seq::<BattleCard>::empty());
    assert(m.player_cards =~= Seq::<BattleCard>::empty());
    assert(m.opponent_cards =~= Seq::<BattleCard>::empty());
    assert(round_cards(m) =~= Multiset::<BattleCard>::empty());
}

/// Opening the record of a new owner keeps it consistent.
pub proof fn lemma_open_preserves_wf(m: PlayerModel, starting_gold: u64, seed: u64)
    requires
        record_wf(m),
        m.random_seed == 0,
    ensures
        record_wf(open_model(m, starting_gold, seed)),
{
    assert(round_cards(open_model(m, starting_gold, seed)) =~= round_cards(m));
}

/// Every accepted operation keeps a consistent record consistent; in
/// particular no card is ever duplicated across the deck and the hands
/// during a round.
pub proof fn lemma_step_preserves_wf(m: PlayerModel, op: Operation, now: u64)
    requires
        record_wf(m),
        step_model(m, op, now) is Ok,
    ensures
        record_wf(step_model(m, op, now).unwrap()),
{
    match op {
        Operation::Reset => {
            let m2 = reset_model(m).unwrap();
            assert(round_cards(m2) =~= Multiset::<BattleCard>::empty());
        },
        Operation::StartGame { wager } => {
            let m1 = dealt_model(m, wager);
            lemma_deal_cards(m, wager);
            lemma_reveal_keeps_cards(m1);
            assert(start_state(m.random_seed) != 0);
            lemma_xorshift_nonzero(start_state(m.random_seed));
            assert forall|c: BattleCard| #[trigger] round_cards(m1).count(c) <= 1 by {
                lemma_full_deck_once(c);
            }
            let m2 = reveal_model(m1);
            assert(round_cards(apply_result_model(m2, BattleResult::Stalemate, now))
                =~= round_cards(m2));
            assert(round_cards(
                apply_result_model(m2, BattleResult::CriticalVictory, now),
            ) =~= round_cards(m2));
            assert(round_cards(PlayerModel { phase: GamePhase::BattleInProgress, ..m1 })
                =~= round_cards(m1));
        },
        Operation::Battle => {
            let x = m.deck.last();
            let m1 = PlayerModel {
                deck: m.deck.drop_last(),
                player_cards: m.player_cards.push(x),
                ..m
            };
            assert(m.deck.drop_last().push(x) =~= m.deck);
            assert(round_cards(m1) =~= round_cards(m));
            lemma_reveal_keeps_cards(m1);
            assert(round_cards(
                apply_result_model(
                    reveal_model(m1),
                    BattleResult::Overwhelmed,
                    now,
                ),
            ) =~= round_cards(reveal_model(m1)));
        },
        Operation::EndWave => {
            let m1 = reveal_model(m);
            lemma_reveal_keeps_cards(m);
            lemma_boss_draw_keeps_cards(m1.opponent_cards, m1.deck);
            let (o, d) = boss_draw(m1.opponent_cards, m1.deck).unwrap();
            let m2 = PlayerModel { opponent_cards: o, deck: d, ..m1 };
            assert(o.to_multiset().add(d.to_multiset()) =~= m1.opponent_cards.to_multiset().add(
                m1.deck.to_multiset(),
            ));
            assert forall|c: BattleCard| #[trigger]
                round_cards(m2).count(c) == round_cards(m1).count(c) by {
                assert(o.to_multiset().add(d.to_multiset()).count(c)
                    == m1.opponent_cards.to_multiset().add(m1.deck.to_multiset()).count(c));
            }
            assert(round_cards(m2) =~= round_cards(m1));
            let m3 = end_wave_model(m, now).unwrap();
            assert(round_cards(m3) =~= round_cards(m2));
        },
        Operation::RequestGold => {
            assert(round_cards(request_gold_model(m)) =~= round_cards(m));
        },
    }
}

} // verus!
