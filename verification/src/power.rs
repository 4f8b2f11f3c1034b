//! The power aggregator: sums per-miner contributions over a roster of
//! (level, base power) pairs, paired positionally.
//!
//! The two sequences must have the same length, and a total beyond 64 bits
//! is reported, never wrapped: silent wraparound would corrupt reward
//! accounting.

use vstd::prelude::*;

verus! {

broadcast use vstd::seq::group_seq_axioms;

/// Why a power aggregation failed.
#[derive(Clone, Copy, Debug, PartialEq, Eq, Structural)]
pub enum PowerError {
    /// The level and base-power rosters differ in length.
    LengthMismatch,
    /// The total power does not fit in 64 bits.
    Overflow,
}

/// One miner's contribution: base power scaled by level + 1, so a miner at
/// level 0 still contributes once at base power.
pub open spec fn contribution(level: u32, base_power: u64) -> int {
    base_power * (level + 1)
}

/// The total power of a roster: the sum of every miner's contribution.
pub open spec fn total_power_of(levels: Seq<u32>, base_powers: Seq<u64>) -> int
    recommends
        levels.len() == base_powers.len(),
    decreases levels.len(),
{
    if levels.len() == 0 || base_powers.len() == 0 {
        0
    } else {
        total_power_of(levels.drop_last(), base_powers.drop_last()) + contribution(
            levels.last(),
            base_powers.last(),
        )
    }
}

/// Extending a roster by one miner adds that miner's contribution.
proof fn lemma_total_power_step(levels: Seq<u32>, base_powers: Seq<u64>, i: int)
    requires
        levels.len() == base_powers.len(),
        0 <= i < levels.len(),
    ensures
        total_power_of(levels.take(i + 1), base_powers.take(i + 1)) == total_power_of(
            levels.take(i),
            base_powers.take(i),
        ) + contribution(levels[i], base_powers[i]),
{
    assert(levels.take(i + 1).drop_last() =~= levels.take(i));
    assert(base_powers.take(i + 1).drop_last() =~= base_powers.take(i));
    assert(levels.take(i + 1).last() == levels[i]);
    assert(base_powers.take(i + 1).last() == base_powers[i]);
}

/// Every prefix sum is at most the whole sum: contributions are never
/// negative.
proof fn lemma_total_power_prefix_le(levels: Seq<u32>, base_powers: Seq<u64>, i: int)
    requires
        levels.len() == base_powers.len(),
        0 <= i <= levels.len(),
    ensures
        total_power_of(levels.take(i), base_powers.take(i)) <= total_power_of(
            levels,
            base_powers,
        ),
    decreases levels.len() - i,
{
    if i == levels.len() {
        assert(levels.take(i) =~= levels);
        assert(base_powers.take(i) =~= base_powers);
    } else {
        lemma_total_power_step(levels, base_powers, i);
        assert(contribution(levels[i], base_powers[i]) >= 0) by (nonlinear_arith);
        lemma_total_power_prefix_le(levels, base_powers, i + 1);
    }
}

/// Sums the roster's total power. Mismatched lengths and a total beyond
/// 64 bits each surface as an explicit error; the function never truncates
/// the roster and never wraps.
pub fn calculate_total_power(levels: Vec<u32>, base_powers: Vec<u64>) -> (result: Result<
    u64,
    PowerError,
>)
    ensures
        match result {
            Ok(total) => levels@.len() == base_powers@.len() && total == total_power_of(
                levels@,
                base_powers@,
            ),
            Err(PowerError::LengthMismatch) => levels@.len() != base_powers@.len(),
            Err(PowerError::Overflow) => levels@.len() == base_powers@.len() && total_power_of(
                levels@,
                base_powers@,
            ) > u64::MAX,
        },
{
    if levels.len() != base_powers.len() {
        return Err(PowerError::LengthMismatch);
    }
    let n = levels.len();
    let mut total: u64 = 0;
    let mut i: usize = 0;
    while i < n
        invariant
            levels@.len() == base_powers@.len(),
            n == levels@.len(),
            i <= n,
            total == total_power_of(levels@.take(i as int), base_powers@.take(i as int)),
        decreases n - i,
    {
        let level = levels[i];
        let base_power = base_powers[i];
        let scale = level as u64 + 1;
        proof {
            lemma_total_power_step(levels@, base_powers@, i as int);
        }
        match base_power.checked_mul(scale) {
            Some(amount) => {
                match total.checked_add(amount) {
                    Some(new_total) => {
                        total = new_total;
                    },
                    None => {
                        proof {
                            lemma_total_power_prefix_le(levels@, base_powers@, i as int + 1);
                        }
                        return Err(PowerError::Overflow);
                    },
                }
            },
            None => {
                proof {
                    lemma_total_power_prefix_le(levels@, base_powers@, i as int + 1);
                }
                return Err(PowerError::Overflow);
            },
        }
        i += 1;
    }
    proof {
        assert(levels@.take(n as int) =~= levels@);
        assert(base_powers@.take(n as int) =~= base_powers@);
    }
    Ok(total)
}

} // verus!
