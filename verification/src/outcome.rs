//! The pity-adjusted critical-hit and multiplier model, and the reward
//! prediction it produces.
//!
//! The critical chance starts at 10% and gains 1% for every 50 consecutive
//! non-critical taps, saturating at 50%. A critical tap picks its multiplier
//! from disjoint ranges of the same roll: ×2 on [0, 70), ×5 on [70, 90),
//! ×10 on [90, 99) and ×50 on [99, 100).

use crate::encoding::le_u64_of;
use crate::seed::calculate_random_value;
use crate::seed::generate_seed;
use crate::seed::seed_of;
use vstd::prelude::*;
use vstd::string::StringSliceAdditionalSpecFns;

verus! {

/// A predicted reward outcome for one tap.
#[derive(Clone, Copy, Debug, PartialEq, Eq, Structural)]
pub struct RewardPrediction {
    pub base_reward: u64,
    pub multiplier: u32,
    pub is_critical: bool,
    pub total_reward: u64,
}

/// The 64-bit pseudo-random value a tap rolls with: the little-endian
/// reading of its seed's first 8 bytes.
pub open spec fn random_value_of(address_bytes: Seq<u8>, block_number: u64, nonce: u32) -> int {
    le_u64_of(seed_of(address_bytes, block_number, nonce))
}

/// The critical chance in percent: a 10% base plus 1% for every 50 pity
/// counts, the bonus capped at 40%.
pub open spec fn critical_chance_spec(pity_counter: u32) -> int {
    10 + if pity_counter as int / 50 <= 40 {
        pity_counter as int / 50
    } else {
        40
    }
}

/// The multiplier a critical tap earns from its roll in [0, 100).
pub open spec fn multiplier_for_roll(roll: int) -> u32 {
    if roll < 70 {
        2
    } else if roll < 90 {
        5
    } else if roll < 99 {
        10
    } else {
        50
    }
}

/// What a well-formed prediction satisfies: the total is the base times the
/// multiplier, a tap is critical exactly when the multiplier is not 1, and
/// the multiplier is one of the five the model can produce.
pub open spec fn valid_prediction(p: RewardPrediction) -> bool {
    &&& p.total_reward == p.base_reward * p.multiplier
    &&& p.is_critical == (p.multiplier != 1)
    &&& (p.multiplier == 1 || p.multiplier == 2 || p.multiplier == 5 || p.multiplier == 10
        || p.multiplier == 50)
}

/// The prediction for one tap, as a function of the inputs alone.
pub open spec fn prediction_spec(
    address_bytes: Seq<u8>,
    miner_power: u64,
    pity_counter: u32,
    block_number: u64,
    nonce: u32,
) -> RewardPrediction {
    let roll = random_value_of(address_bytes, block_number, nonce) % 100;
    let is_critical = roll < critical_chance_spec(pity_counter);
    let multiplier = if is_critical {
        multiplier_for_roll(roll)
    } else {
        1u32
    };
    RewardPrediction {
        base_reward: miner_power,
        multiplier,
        is_critical,
        total_reward: (miner_power * multiplier) as u64,
    }
}

/// Computes the critical chance in percent for a pity counter.
pub fn critical_chance(pity_counter: u32) -> (chance: u32)
    ensures
        chance == critical_chance_spec(pity_counter),
        10 <= chance <= 50,
{
    let quotient = pity_counter / 50;
    let pity_bonus = if quotient <= 40 {
        quotient
    } else {
        40
    };
    10 + pity_bonus
}

/// Picks the critical multiplier from a random value's roll modulo 100.
pub fn determine_critical_multiplier(random_value: u64) -> (multiplier: u32)
    ensures
        multiplier == multiplier_for_roll(random_value as int % 100),
{
    let roll = (random_value % 100) as u32;
    if roll < 70 {
        2
    } else if roll < 90 {
        5
    } else if roll < 99 {
        10
    } else {
        50
    }
}

/// Predicts the reward for one tap without any settlement-side call. The
/// result is a pure function of the five inputs; the bound on `miner_power`
/// keeps the worst-case total reward (×50) within 64 bits.
pub fn predict_tap_reward(
    user_address: &str,
    miner_power: u64,
    taps_since_critical: u32,
    block_number: u64,
    nonce: u32,
) -> (prediction: RewardPrediction)
    requires
        miner_power * 50 <= u64::MAX,
    ensures
        prediction == prediction_spec(
            user_address.spec_bytes(),
            miner_power,
            taps_since_critical,
            block_number,
            nonce,
        ),
        valid_prediction(prediction),
{
    let seed = generate_seed(user_address, block_number, nonce);
    let random_value = calculate_random_value(&seed);
    let chance = critical_chance(taps_since_critical);
    let is_critical = (random_value % 100) < chance as u64;
    let multiplier = if is_critical {
        determine_critical_multiplier(random_value)
    } else {
        1
    };
    proof {
        assert(multiplier <= 50);
        assert(miner_power * multiplier <= miner_power * 50) by (nonlinear_arith)
            requires
                multiplier <= 50,
        ;
    }
    let base_reward = miner_power;
    let total_reward = base_reward * (multiplier as u64);
    RewardPrediction { base_reward, multiplier, is_critical, total_reward }
}

/// Multiplier coverage: the four ranges partition [0, 100) with no gap or
/// overlap, so every roll earns exactly one of the four critical
/// multipliers.
pub proof fn lemma_multiplier_partition(roll: int)
    requires
        0 <= roll < 100,
    ensures
        multiplier_for_roll(roll) == 2 <==> 0 <= roll < 70,
        multiplier_for_roll(roll) == 5 <==> 70 <= roll < 90,
        multiplier_for_roll(roll) == 10 <==> 90 <= roll < 99,
        multiplier_for_roll(roll) == 50 <==> roll == 99,
        multiplier_for_roll(roll) == 2 || multiplier_for_roll(roll) == 5 || multiplier_for_roll(
            roll,
        ) == 10 || multiplier_for_roll(roll) == 50,
{
}

/// Pity saturation: the chance never leaves [10, 50], is exactly 10 below
/// one pity step, and stays pinned at 50 from 2000 counts on.
pub proof fn lemma_critical_chance_saturates(pity_counter: u32)
    ensures
        10 <= critical_chance_spec(pity_counter) <= 50,
        pity_counter < 50 ==> critical_chance_spec(pity_counter) == 10,
        pity_counter >= 2000 ==> critical_chance_spec(pity_counter) == 50,
{
    if pity_counter >= 2000 {
        assert(pity_counter as int / 50 >= 40) by (nonlinear_arith)
            requires
                pity_counter >= 2000,
        ;
    }
}

/// Reward identity: every prediction the model defines is well formed,
/// whatever the inputs.
pub proof fn lemma_reward_identity(
    address_bytes: Seq<u8>,
    miner_power: u64,
    pity_counter: u32,
    block_number: u64,
    nonce: u32,
)
    requires
        miner_power * 50 <= u64::MAX,
    ensures
        valid_prediction(
            prediction_spec(address_bytes, miner_power, pity_counter, block_number, nonce),
        ),
        prediction_spec(
            address_bytes,
            miner_power,
            pity_counter,
            block_number,
            nonce,
        ).base_reward == miner_power,
{
    let p = prediction_spec(address_bytes, miner_power, pity_counter, block_number, nonce);
    assert(p.multiplier <= 50);
    assert(miner_power * p.multiplier <= miner_power * 50) by (nonlinear_arith)
        requires
            p.multiplier <= 50,
    ;
}

} // verus!
