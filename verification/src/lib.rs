//! Deterministic reward-prediction engine for a tap-based incremental game.
//!
//! Given a player's address, a block number, a per-tap nonce and the player's
//! mining power, the library computes the reward outcome (critical hit,
//! multiplier, total reward) that the settlement side would compute, so a
//! client can render instant feedback. It also offers a commit-reveal hash
//! that binds a player's secret to a tap, and an aggregator for total mining
//! power. Every operation is a pure function of its arguments.

pub mod commit;
pub mod encoding;
pub mod hashing;
pub mod outcome;
pub mod power;
pub mod seed;

pub use commit::hash_tap_commit;
pub use hashing::keccak256_of;
pub use outcome::critical_chance;
pub use outcome::determine_critical_multiplier;
pub use outcome::predict_tap_reward;
pub use outcome::RewardPrediction;
pub use power::calculate_total_power;
pub use power::PowerError;
pub use seed::calculate_random_value;
pub use seed::generate_seed;
