use tap_reward::calculate_random_value;
use tap_reward::calculate_total_power;
use tap_reward::critical_chance;
use tap_reward::determine_critical_multiplier;
use tap_reward::generate_seed;
use tap_reward::hash_tap_commit;
use tap_reward::predict_tap_reward;
use tap_reward::PowerError;

#[test]
fn test_seed_generation() {
    let seed1 = generate_seed("0x123", 1000, 1);
    let seed2 = generate_seed("0x123", 1000, 1);
    let seed3 = generate_seed("0x123", 1001, 1);

    assert_eq!(seed1, seed2);
    assert_ne!(seed1, seed3);
}

#[test]
fn test_critical_multipliers() {
    for value in 0..100 {
        let mult = determine_critical_multiplier(value);
        assert!(mult == 2 || mult == 5 || mult == 10 || mult == 50);
    }
}

#[test]
fn test_total_power() {
    let levels = vec![0, 1, 2];
    let powers = vec![100, 200, 300];
    let total = calculate_total_power(levels, powers);

    assert_eq!(total, Ok(1400));
}

#[test]
fn seed_is_a_digest_not_the_message() {
    // The hashed message here is 17 bytes; the seed must be a 32-byte digest.
    let seed = generate_seed("0x123", 1000, 1);
    assert_eq!(seed.len(), 32);
}

#[test]
fn seed_changes_with_address_and_nonce() {
    let seed = generate_seed("0x123", 1000, 1);
    assert_ne!(seed, generate_seed("0x124", 1000, 1));
    assert_ne!(seed, generate_seed("0x123", 1000, 2));
}

#[test]
fn random_value_reads_leading_bytes_little_endian() {
    let mut bytes = vec![0u8; 32];
    bytes[0] = 1;
    assert_eq!(calculate_random_value(&bytes), 1);

    let mut high = vec![0u8; 32];
    high[7] = 1;
    assert_eq!(calculate_random_value(&high), 1u64 << 56);

    let mixed = vec![0x11, 0x22, 0x33, 0x44, 0x55, 0x66, 0x77, 0x88];
    assert_eq!(calculate_random_value(&mixed), 0x8877665544332211);
}

#[test]
fn critical_chance_base_and_saturation() {
    assert_eq!(critical_chance(0), 10);
    assert_eq!(critical_chance(49), 10);
    assert_eq!(critical_chance(50), 11);
    assert_eq!(critical_chance(1999), 49);
    assert_eq!(critical_chance(2000), 50);
    assert_eq!(critical_chance(10000), 50);
    assert_eq!(critical_chance(u32::MAX), 50);
}

#[test]
fn multiplier_range_boundaries() {
    assert_eq!(determine_critical_multiplier(0), 2);
    assert_eq!(determine_critical_multiplier(69), 2);
    assert_eq!(determine_critical_multiplier(70), 5);
    assert_eq!(determine_critical_multiplier(89), 5);
    assert_eq!(determine_critical_multiplier(90), 10);
    assert_eq!(determine_critical_multiplier(98), 10);
    assert_eq!(determine_critical_multiplier(99), 50);
    // The roll is the value modulo 100.
    assert_eq!(determine_critical_multiplier(170), 5);
}

#[test]
fn prediction_is_deterministic() {
    let first = predict_tap_reward("0xabc", 500, 120, 42, 3);
    let second = predict_tap_reward("0xabc", 500, 120, 42, 3);
    assert_eq!(first, second);
}

#[test]
fn prediction_reward_identity() {
    for nonce in 0..200 {
        let p = predict_tap_reward("0xplayer", 123, 75, 999, nonce);
        assert_eq!(p.base_reward, 123);
        assert_eq!(p.total_reward, p.base_reward * p.multiplier as u64);
        assert_eq!(p.is_critical, p.multiplier != 1);
        assert!(
            p.multiplier == 1
                || p.multiplier == 2
                || p.multiplier == 5
                || p.multiplier == 10
                || p.multiplier == 50
        );
    }
}

#[test]
fn prediction_matches_manual_composition() {
    let seed = generate_seed("0xabc", 123, 7);
    let random_value = calculate_random_value(&seed);
    let chance = critical_chance(60);
    let is_critical = (random_value % 100) < chance as u64;
    let multiplier = if is_critical {
        determine_critical_multiplier(random_value)
    } else {
        1
    };
    let p = predict_tap_reward("0xabc", 1000, 60, 123, 7);
    assert_eq!(p.is_critical, is_critical);
    assert_eq!(p.multiplier, multiplier);
    assert_eq!(p.base_reward, 1000);
    assert_eq!(p.total_reward, 1000 * multiplier as u64);
}

#[test]
fn critical_rate_approaches_chance_over_many_nonces() {
    // With pity 0 the chance is 10%; over 3000 nonces the observed rate
    // should sit well inside a generous band around 300 hits.
    let mut criticals = 0;
    for nonce in 0..3000 {
        let p = predict_tap_reward("0xstats", 10, 0, 77, nonce);
        if p.is_critical {
            criticals += 1;
        }
    }
    assert!(criticals > 200);
    assert!(criticals < 450);
}

#[test]
fn commitment_format() {
    let commitment = hash_tap_commit("0x123", 5, "secret");
    assert_eq!(commitment.len(), 66);
    assert!(commitment.starts_with("0x"));
    assert!(commitment[2..].chars().all(|c| c.is_ascii_hexdigit() && !c.is_ascii_uppercase()));
}

#[test]
fn commitment_is_deterministic() {
    assert_eq!(
        hash_tap_commit("0x123", 5, "secret"),
        hash_tap_commit("0x123", 5, "secret")
    );
}

#[test]
fn commitment_binds_every_input() {
    let commitment = hash_tap_commit("0x123", 5, "secretA");
    assert_ne!(commitment, hash_tap_commit("0x123", 5, "secretB"));
    assert_ne!(commitment, hash_tap_commit("0x123", 6, "secretA"));
    assert_ne!(commitment, hash_tap_commit("0x124", 5, "secretA"));
}

#[test]
fn total_power_rejects_mismatched_lengths() {
    let result = calculate_total_power(vec![0, 1], vec![100]);
    assert_eq!(result, Err(PowerError::LengthMismatch));
}

#[test]
fn total_power_reports_overflow() {
    let result = calculate_total_power(vec![u32::MAX], vec![u64::MAX]);
    assert_eq!(result, Err(PowerError::Overflow));
}

#[test]
fn total_power_edge_rosters() {
    assert_eq!(calculate_total_power(vec![], vec![]), Ok(0));
    assert_eq!(calculate_total_power(vec![0], vec![7]), Ok(7));
    assert_eq!(calculate_total_power(vec![3], vec![10]), Ok(40));
}
