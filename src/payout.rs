use vstd::prelude::*;
use crate::state::BattleResult;

verus! {

/// `a * k`, saturated at the largest `u64`.
pub open spec fn sat_mul(a: u64, k: u64) -> u64 {
    if a * k > u64::MAX {
        u64::MAX
    } else {
        (a * k) as u64
    }
}

/// `a + b`, saturated at the largest `u64`.
pub open spec fn sat_add(a: u64, b: u64) -> u64 {
    if a + b > u64::MAX {
        u64::MAX
    } else {
        (a + b) as u64
    }
}

/// Gold paid back for a round with the given outcome and wager: five halves
/// (rounded down) for a critical victory, double for a victory or a retreat,
/// the wager for a stalemate, nothing for a loss.
pub open spec fn payout_of(result: BattleResult, wager: u64) -> u64 {
    match result {
        BattleResult::CriticalVictory => (sat_mul(wager, 5) / 2) as u64,
        BattleResult::Victory | BattleResult::EnemyRetreat => sat_mul(wager, 2),
        BattleResult::Stalemate => wager,
        BattleResult::Defeat | BattleResult::Overwhelmed => 0,
    }
}

fn saturating_mul(a: u64, k: u64) -> (r: u64)
    requires
        k > 0,
    ensures
        r == sat_mul(a, k),
{
    if a > u64::MAX / k {
        proof {
            assert(a * k > u64::MAX) by (nonlinear_arith)
                requires
                    a > u64::MAX / k,
                    k > 0,
            ;
        }
        u64::MAX
    } else {
        proof {
            assert(a * k <= u64::MAX) by (nonlinear_arith)
                requires
                    a <= u64::MAX / k,
                    k > 0,
            ;
        }
        a * k
    }
}

/// Computes the payout of a round.
pub fn payout(result: BattleResult, wager: u64) -> (r: u64)
    ensures
        r == payout_of(result, wager),
{
    match result {
        BattleResult::CriticalVictory => saturating_mul(wager, 5) / 2,
        BattleResult::Victory | BattleResult::EnemyRetreat => saturating_mul(wager, 2),
        BattleResult::Stalemate => wager,
        BattleResult::Defeat | BattleResult::Overwhelmed => 0,
    }
}

} // verus!
