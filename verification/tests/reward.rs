use token_recycle::reward::{calculate_nom_reward, calculate_xp_points};

#[test]
fn reward_is_zero_below_one_million() {
    for amount in [0u64, 1, 500_000, 999_999] {
        for death_index in [0u8, 1, 49, 50, 51, 99, 100, 101, 255] {
            assert_eq!(calculate_nom_reward(amount, death_index), 0);
            assert_eq!(calculate_xp_points(amount, death_index), 0);
        }
    }
}

#[test]
fn reward_starts_at_exactly_one_million() {
    assert_eq!(calculate_nom_reward(999_999, 100), 0);
    assert_eq!(calculate_nom_reward(1_000_000, 1), 1);
    assert_eq!(calculate_nom_reward(1_000_000, 100), 2);
    assert_eq!(calculate_nom_reward(1_999_999, 50), 1);
    assert_eq!(calculate_nom_reward(2_000_000, 50), 2);
}

#[test]
fn reward_of_five_million() {
    assert_eq!(calculate_nom_reward(5_000_000, 50), 5);
    assert_eq!(calculate_nom_reward(5_000_000, 100), 10);
}

#[test]
fn multiplier_doubles_only_at_one_hundred() {
    assert_eq!(calculate_nom_reward(5_000_000, 1), 5);
    assert_eq!(calculate_nom_reward(5_000_000, 49), 5);
    assert_eq!(calculate_nom_reward(5_000_000, 50), 5);
    assert_eq!(calculate_nom_reward(5_000_000, 51), 5);
    assert_eq!(calculate_nom_reward(5_000_000, 99), 5);
    assert_eq!(calculate_nom_reward(5_000_000, 100), 10);
}

#[test]
fn multiplier_is_one_over_the_whole_lower_range() {
    for death_index in 1u8..=99 {
        assert_eq!(calculate_nom_reward(7_300_000, death_index), 7);
    }
}

#[test]
fn multiplier_outside_the_accepted_range_follows_floor_division() {
    assert_eq!(calculate_nom_reward(3_000_000, 0), 3);
    assert_eq!(calculate_nom_reward(3_000_000, 101), 6);
    assert_eq!(calculate_nom_reward(3_000_000, 149), 6);
    assert_eq!(calculate_nom_reward(3_000_000, 150), 9);
    assert_eq!(calculate_nom_reward(3_000_000, 200), 12);
    assert_eq!(calculate_nom_reward(3_000_000, 255), 15);
}

#[test]
fn xp_is_ten_times_reward() {
    for amount in [0u64, 999_999, 1_000_000, 5_000_000, 123_456_789_012, u64::MAX] {
        for death_index in [0u8, 1, 50, 51, 99, 100, 200, 255] {
            assert_eq!(
                calculate_xp_points(amount, death_index),
                10 * calculate_nom_reward(amount, death_index)
            );
        }
    }
}

#[test]
fn xp_of_five_million() {
    assert_eq!(calculate_xp_points(5_000_000, 50), 50);
    assert_eq!(calculate_xp_points(5_000_000, 100), 100);
}

#[test]
fn reward_at_the_numeric_ceiling_does_not_wrap() {
    assert_eq!(calculate_nom_reward(u64::MAX, 50), 18_446_744_073_709);
    assert_eq!(calculate_nom_reward(u64::MAX, 100), 36_893_488_147_418);
    assert_eq!(calculate_nom_reward(u64::MAX, 255), 92_233_720_368_545);
    assert_eq!(calculate_xp_points(u64::MAX, 100), 368_934_881_474_180);
    assert_eq!(calculate_xp_points(u64::MAX, 255), 922_337_203_685_450);
}
