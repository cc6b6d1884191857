//! Reward calculator: a pure map from disposed amount and death index to the
//! reward paid and the experience points granted.

use vstd::prelude::*;

verus! {

/// Dead tokens that earn one reward token at multiplier one.
pub const TOKENS_PER_REWARD: u64 = 1_000_000;

/// The death index at and below which the multiplier is one; also the width
/// of one multiplier step.
pub const MULTIPLIER_STEP: u8 = 50;

/// Experience points granted per reward token.
pub const XP_PER_REWARD: u64 = 10;

/// The reward multiplier of a death index: the index, raised to at least
/// fifty, divided by fifty and rounded down.
pub open spec fn death_multiplier(death_index: u8) -> nat {
    let raised: nat = if death_index > MULTIPLIER_STEP {
        death_index as nat
    } else {
        MULTIPLIER_STEP as nat
    };
    raised / (MULTIPLIER_STEP as nat)
}

/// The reward for disposing of `amount` dead tokens at `death_index`: one
/// token per full million, times the multiplier.
pub open spec fn nom_reward(amount: u64, death_index: u8) -> nat {
    ((amount as nat) / (TOKENS_PER_REWARD as nat)) * death_multiplier(death_index)
}

/// The experience points for the same disposal: ten per reward token.
pub open spec fn xp_points(amount: u64, death_index: u8) -> nat {
    nom_reward(amount, death_index) * (XP_PER_REWARD as nat)
}

/// The multiplier never exceeds five, so no reward leaves the range of `u64`.
pub proof fn lemma_reward_bounded(amount: u64, death_index: u8)
    ensures
        1 <= death_multiplier(death_index) <= 5,
        nom_reward(amount, death_index) <= 5 * ((amount as nat) / 1_000_000),
        nom_reward(amount, death_index) <= 92_233_720_368_545,
        xp_points(amount, death_index) <= 922_337_203_685_450,
{
    let base = (amount as nat) / 1_000_000;
    let m = death_multiplier(death_index);
    assert(base <= 18_446_744_073_709);
    assert(base * m <= 5 * base) by (nonlinear_arith)
        requires
            m <= 5,
    ;
}

/// Computes the reward. The product cannot overflow, whatever the inputs.
pub fn calculate_nom_reward(amount: u64, death_index: u8) -> (reward: u64)
    ensures
        reward == nom_reward(amount, death_index),
        amount < 1_000_000 ==> reward == 0,
{
    let base_reward: u64 = amount / TOKENS_PER_REWARD;
    let raised: u8 = if death_index > MULTIPLIER_STEP {
        death_index
    } else {
        MULTIPLIER_STEP
    };
    let death_multiplier: u64 = (raised / MULTIPLIER_STEP) as u64;
    proof {
        lemma_reward_bounded(amount, death_index);
    }
    base_reward * death_multiplier
}

/// Computes the experience points: ten times the reward, without overflow.
pub fn calculate_xp_points(amount: u64, death_index: u8) -> (xp: u64)
    ensures
        xp == xp_points(amount, death_index),
        xp == 10 * nom_reward(amount, death_index),
{
    proof {
        lemma_reward_bounded(amount, death_index);
    }
    calculate_nom_reward(amount, death_index) * XP_PER_REWARD
}

/// Less than a million dead tokens earn no reward, whatever the death index.
pub proof fn lemma_small_amount_earns_nothing(amount: u64, death_index: u8)
    requires
        amount < 1_000_000,
    ensures
        nom_reward(amount, death_index) == 0,
        xp_points(amount, death_index) == 0,
{
    let m = death_multiplier(death_index);
    assert((amount as nat) / 1_000_000 == 0);
    assert(0 * m == 0) by (nonlinear_arith);
}

/// Experience points are always ten times the reward.
pub proof fn lemma_xp_is_ten_times_reward(amount: u64, death_index: u8)
    ensures
        xp_points(amount, death_index) == 10 * nom_reward(amount, death_index),
{
}

/// Within 1..=100 the multiplier is one up to 99 and two at exactly 100: the
/// reward is the number of full millions, doubled only at 100.
pub proof fn lemma_reward_doubles_only_at_hundred(amount: u64, death_index: u8)
    requires
        1 <= death_index <= 100,
    ensures
        death_index < 100 ==> nom_reward(amount, death_index) == (amount as nat) / 1_000_000,
        death_index == 100 ==> nom_reward(amount, death_index) == 2 * ((amount as nat)
            / 1_000_000),
{
    let base = (amount as nat) / 1_000_000;
    let m = death_multiplier(death_index);
    assert(m == if death_index == 100 { 2nat } else { 1nat });
    assert(base * 1 == base && base * 2 == 2 * base) by (nonlinear_arith);
}

} // verus!
