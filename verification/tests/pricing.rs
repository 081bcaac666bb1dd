use prediction_market::pricing::tokens_out;
use prediction_market::settlement::compute_reward;

#[test]
fn curve_pays_floor_of_amount_times_pool_over_sum() {
    assert_eq!(tokens_out(900, 100), 90);
    assert_eq!(tokens_out(1000, 1000), 500);
    assert_eq!(tokens_out(900, 200), 163);
    assert_eq!(tokens_out(1000, 300), 230);
    assert_eq!(tokens_out(2000, 500), 400);
}

#[test]
fn curve_pays_nothing_from_an_empty_pool() {
    assert_eq!(tokens_out(0, 1000), 0);
    assert_eq!(tokens_out(0, 1), 0);
    assert_eq!(tokens_out(0, u64::MAX), 0);
}

#[test]
fn curve_pays_nothing_for_nothing() {
    assert_eq!(tokens_out(1000, 0), 0);
    assert_eq!(tokens_out(0, 0), 0);
    assert_eq!(tokens_out(u64::MAX, 0), 0);
}

#[test]
fn curve_rounds_small_deposits_down_to_zero() {
    assert_eq!(tokens_out(1, 1), 0);
    assert_eq!(tokens_out(1, 1_000_000), 0);
    assert_eq!(tokens_out(2, 2), 1);
}

#[test]
fn curve_stays_under_pool_plus_amount() {
    let pools: [u64; 6] = [0, 1, 7, 900, 1_000_000_007, u64::MAX];
    let amounts: [u64; 6] = [1, 2, 100, 999, 123_456_789_012, u64::MAX];
    for pool in pools {
        for amount in amounts {
            let tokens = tokens_out(pool, amount);
            assert!((tokens as u128) < pool as u128 + amount as u128);
            assert!(tokens <= amount);
            assert!(tokens <= pool);
        }
    }
}

#[test]
fn curve_approaches_the_pool_as_the_deposit_grows() {
    assert_eq!(tokens_out(1000, 1_000_000), 999);
    assert_eq!(tokens_out(1000, 1_000_000_000_000), 999);
    assert_eq!(tokens_out(1000, 10), 9);
}

#[test]
fn curve_divisor_is_clamped_at_the_top_of_the_range() {
    assert_eq!(tokens_out(u64::MAX, u64::MAX), u64::MAX);
    assert_eq!(tokens_out(u64::MAX, 1), 1);
    assert_eq!(tokens_out(u64::MAX - 1, 1), 0);
    assert_eq!(tokens_out(u64::MAX - 1, 2), 1);
    assert_eq!(tokens_out(1u64 << 63, 1u64 << 63), 1u64 << 62);
}

#[test]
fn larger_deposit_buys_no_fewer_tokens_at_a_lower_rate() {
    let pool: u64 = 900;
    let amounts: [u64; 7] = [1, 2, 50, 100, 200, 5000, 1_000_000];
    for i in 0..amounts.len() {
        for j in i..amounts.len() {
            let smaller = amounts[i];
            let larger = amounts[j];
            let few = tokens_out(pool, smaller) as u128;
            let many = tokens_out(pool, larger) as u128;
            assert!(few <= many);
            assert!(many * (smaller as u128) < (few + 1) * (larger as u128));
        }
    }
    assert_eq!(tokens_out(900, 100), 90);
    assert_eq!(tokens_out(900, 200), 163);
    assert!(163 * 100 < 90 * 200);
}

#[test]
fn reward_is_floor_of_tokens_times_total_over_winning_pool() {
    assert_eq!(compute_reward(90, 1500, 1000), 135);
    assert_eq!(compute_reward(1, 1500, 1000), 1);
    assert_eq!(compute_reward(500, 3800, 2500), 760);
    assert_eq!(compute_reward(400, 3800, 2500), 608);
    assert_eq!(compute_reward(5, 1001, 1), 5005);
}

#[test]
fn reward_is_zero_where_the_winning_pool_is_empty() {
    assert_eq!(compute_reward(90, 1500, 0), 0);
    assert_eq!(compute_reward(u64::MAX, u64::MAX, 0), 0);
}

#[test]
fn reward_is_zero_for_no_tokens_or_no_reservoir() {
    assert_eq!(compute_reward(0, 1500, 1000), 0);
    assert_eq!(compute_reward(90, 0, 1000), 0);
    assert_eq!(compute_reward(1, 999, 1000), 0);
}

#[test]
fn reward_is_clamped_at_the_top_of_the_range() {
    assert_eq!(compute_reward(u64::MAX, u64::MAX, 1), u64::MAX);
    assert_eq!(compute_reward(u64::MAX, 2, 1), u64::MAX);
    assert_eq!(compute_reward(u64::MAX, u64::MAX, u64::MAX), u64::MAX);
    assert_eq!(compute_reward(u64::MAX, 1, 1), u64::MAX);
    assert_eq!(compute_reward(u64::MAX - 1, 1, 1), u64::MAX - 1);
}

#[test]
fn deposit_larger_relative_to_its_pool_buys_at_a_lower_rate() {
    let offers: [(u64, u64); 7] =
        [(1000, 10), (900, 100), (100, 50), (10, 10), (7, 1000), (1, 1_000_000), (0, 5)];
    for (first_pool, first) in offers {
        for (second_pool, second) in offers {
            let relatively_larger =
                (first as u128) * (second_pool as u128) <= (second as u128) * (first_pool as u128);
            if relatively_larger {
                let few = tokens_out(first_pool, first) as u128;
                let many = tokens_out(second_pool, second) as u128;
                assert!(many * (first as u128) < (few + 1) * (second as u128));
            }
        }
    }
    assert_eq!(tokens_out(1000, 10), 9);
    assert_eq!(tokens_out(100, 50), 33);
    assert!(33 * 10 < 9 * 50);
}

#[test]
fn one_more_unit_buys_at_most_one_more_token() {
    let pools: [u64; 6] = [0, 1, 7, 900, 1_000_000_007, u64::MAX];
    let amounts: [u64; 8] = [0, 1, 2, 99, 899, 900, 123_456_789_012, u64::MAX - 1];
    for pool in pools {
        for amount in amounts {
            let fewer = tokens_out(pool, amount);
            let more = tokens_out(pool, amount + 1);
            assert!(fewer <= more);
            assert!(more - fewer <= 1);
        }
    }
    assert_eq!(tokens_out(900, 9), 8);
    assert_eq!(tokens_out(900, 10), 9);
    assert_eq!(tokens_out(900, 30), 29);
    assert_eq!(tokens_out(900, 31), 29);
}
