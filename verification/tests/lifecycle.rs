use prediction_market::{
    initialize_market, place_prediction, resolve_market, Identity, InitializeMarket, Market,
    MarketCreated, MarketError, MarketResolved, PlacePrediction, Prediction, PredictionPlaced,
    ResolveMarket,
};

fn key(tag: u8) -> Identity {
    Identity::new([tag; 32])
}

fn creation_by(creator: Identity, now: i64) -> InitializeMarket {
    InitializeMarket {
        market: Market::default(),
        creator,
        yes_token_vault: key(0xA1),
        no_token_vault: key(0xA2),
        now,
    }
}

fn open_market(seed: u64, resolution_time: i64) -> Market {
    let mut ctx = creation_by(key(1), 100);
    let question = "Will it rain tomorrow?".to_string();
    let made = initialize_market(&mut ctx, 7, question, resolution_time, seed);
    assert!(made.is_ok());
    ctx.market
}

fn deposit_into(market: Market, who: Identity, now: i64) -> PlacePrediction {
    PlacePrediction { market, prediction_account: Prediction::default(), predictor: who, now }
}

#[test]
fn identities_are_equal_when_all_bytes_agree() {
    assert_eq!(key(3), key(3));
    assert_ne!(key(3), key(4));
    let mut bytes = [9u8; 32];
    let whole = Identity::new(bytes);
    bytes[31] = 8;
    assert_ne!(whole, Identity::new(bytes));
    bytes[31] = 9;
    assert_eq!(whole, Identity::new(bytes));
    assert_eq!(Identity::default(), Identity::new([0u8; 32]));
    assert_eq!(key(5).bytes, [5u8; 32]);
}

#[test]
fn blank_records_hold_nothing() {
    let market = Market::default();
    assert_eq!(market.market_id, 0);
    assert_eq!(market.question, "");
    assert_eq!(market.yes_pool, 0);
    assert_eq!(market.no_pool, 0);
    assert!(!market.resolved);
    assert_eq!(market.outcome, None);
    assert_eq!(market.fee_collected, 0);
    assert_eq!(market.creator, Identity::default());
    let position = Prediction::default();
    assert_eq!(position.tokens_received, 0);
    assert_eq!(position.amount_deposited, 0);
    assert!(!position.claimed);
    assert_eq!(position.predictor, Identity::default());
}

#[test]
fn creation_writes_an_open_market_with_split_seed() {
    let mut ctx = creation_by(key(1), 100);
    let made = initialize_market(&mut ctx, 7, "Will it rain tomorrow?".to_string(), 500, 2000);
    assert_eq!(
        made,
        Ok(MarketCreated {
            market_id: 7,
            creator: key(1),
            question: "Will it rain tomorrow?".to_string(),
            resolution_time: 500,
        })
    );
    assert_eq!(
        ctx.market,
        Market {
            market_id: 7,
            question: "Will it rain tomorrow?".to_string(),
            creator: key(1),
            created_at: 100,
            resolution_time: 500,
            yes_pool: 1000,
            no_pool: 1000,
            total_liquidity: 2000,
            resolved: false,
            outcome: None,
            yes_token_vault: key(0xA1),
            no_token_vault: key(0xA2),
            fee_collected: 0,
        }
    );
    assert_eq!(ctx.creator, key(1));
    assert_eq!(ctx.now, 100);
}

#[test]
fn creation_gives_the_odd_unit_of_an_odd_seed_to_the_yes_pool() {
    let market = open_market(5, 500);
    assert_eq!(market.yes_pool, 3);
    assert_eq!(market.no_pool, 2);
    assert_eq!(market.total_liquidity, 5);
    let market = open_market(2001, 500);
    assert_eq!(market.yes_pool, 1001);
    assert_eq!(market.no_pool, 1000);
    assert_eq!(market.total_liquidity, 2001);
    let market = open_market(1, 500);
    assert_eq!(market.yes_pool, 1);
    assert_eq!(market.no_pool, 0);
    assert_eq!(market.total_liquidity, 1);
    let market = open_market(u64::MAX, 500);
    assert_eq!(market.yes_pool, u64::MAX / 2 + 1);
    assert_eq!(market.no_pool, u64::MAX / 2);
    assert_eq!(market.total_liquidity, u64::MAX);
}

#[test]
fn creation_splits_an_even_seed_evenly() {
    for seed in [0u64, 2, 4, 2000, u64::MAX - 1] {
        let market = open_market(seed, 500);
        assert_eq!(market.yes_pool, seed / 2);
        assert_eq!(market.no_pool, seed / 2);
        assert_eq!(market.total_liquidity, seed);
    }
}

#[test]
fn creation_puts_the_whole_seed_into_the_pools() {
    for seed in [0u64, 1, 2, 3, 5, 2001, u64::MAX - 1, u64::MAX] {
        let market = open_market(seed, 500);
        assert_eq!(market.yes_pool as u128 + market.no_pool as u128, seed as u128);
        assert!(market.yes_pool - market.no_pool <= 1);
    }
}

#[test]
fn creation_rejects_an_empty_question() {
    let mut ctx = creation_by(key(1), 100);
    let before = ctx.clone();
    let made = initialize_market(&mut ctx, 7, String::new(), 500, 2000);
    assert_eq!(made, Err(MarketError::InvalidQuestion));
    assert_eq!(ctx, before);
}

#[test]
fn creation_rejects_a_question_over_256_characters() {
    let mut ctx = creation_by(key(1), 100);
    let before = ctx.clone();
    let made = initialize_market(&mut ctx, 7, "q".repeat(257), 500, 2000);
    assert_eq!(made, Err(MarketError::InvalidQuestion));
    assert_eq!(ctx, before);
}

#[test]
fn creation_accepts_questions_of_1_and_of_256_characters() {
    let mut ctx = creation_by(key(1), 100);
    assert!(initialize_market(&mut ctx, 7, "q".to_string(), 500, 2000).is_ok());
    assert_eq!(ctx.market.question, "q");
    let mut ctx = creation_by(key(1), 100);
    assert!(initialize_market(&mut ctx, 7, "q".repeat(256), 500, 2000).is_ok());
    assert_eq!(ctx.market.question, "q".repeat(256));
}

#[test]
fn creation_counts_characters_not_bytes() {
    let long = "\u{e9}".repeat(256);
    assert_eq!(long.len(), 512);
    let mut ctx = creation_by(key(1), 100);
    assert!(initialize_market(&mut ctx, 7, long.clone(), 500, 2000).is_ok());
    assert_eq!(ctx.market.question, long);
    let mut ctx = creation_by(key(1), 100);
    let made = initialize_market(&mut ctx, 7, "\u{e9}".repeat(257), 500, 2000);
    assert_eq!(made, Err(MarketError::InvalidQuestion));
}

#[test]
fn creation_rejects_a_resolution_time_that_is_not_in_the_future() {
    let mut ctx = creation_by(key(1), 100);
    let before = ctx.clone();
    let made = initialize_market(&mut ctx, 7, "Will it rain?".to_string(), 100, 2000);
    assert_eq!(made, Err(MarketError::InvalidResolutionTime));
    assert_eq!(ctx, before);
    let made = initialize_market(&mut ctx, 7, "Will it rain?".to_string(), 99, 2000);
    assert_eq!(made, Err(MarketError::InvalidResolutionTime));
    let made = initialize_market(&mut ctx, 7, "Will it rain?".to_string(), i64::MIN, 2000);
    assert_eq!(made, Err(MarketError::InvalidResolutionTime));
    assert_eq!(ctx, before);
    assert!(initialize_market(&mut ctx, 7, "Will it rain?".to_string(), 101, 2000).is_ok());
}

#[test]
fn creation_checks_the_question_before_the_time() {
    let mut ctx = creation_by(key(1), 100);
    let made = initialize_market(&mut ctx, 7, String::new(), 50, 2000);
    assert_eq!(made, Err(MarketError::InvalidQuestion));
}

#[test]
fn deposit_of_100_into_yes_pool_of_900_buys_90_tokens() {
    let mut market = open_market(0, 500);
    market.yes_pool = 900;
    market.no_pool = 100;
    let mut ctx = deposit_into(market.clone(), key(2), 200);
    let placed = place_prediction(&mut ctx, 7, true, 100);
    assert_eq!(
        placed,
        Ok(PredictionPlaced {
            market_id: 7,
            predictor: key(2),
            prediction_type: true,
            amount: 100,
            tokens_received: 90,
        })
    );
    assert_eq!(ctx.market.yes_pool, 1000);
    assert_eq!(ctx.market.no_pool, 100);
    assert_eq!(
        ctx.prediction_account,
        Prediction {
            market_id: 7,
            predictor: key(2),
            prediction_type: true,
            amount_deposited: 100,
            tokens_received: 90,
            created_at: 200,
            claimed: false,
        }
    );
    market.yes_pool = 1000;
    assert_eq!(ctx.market, market);
}

#[test]
fn deposit_on_no_grows_only_the_no_pool() {
    let market = open_market(2000, 500);
    let mut ctx = deposit_into(market, key(2), 200);
    let placed = place_prediction(&mut ctx, 7, false, 300);
    assert_eq!(placed.map(|event| event.tokens_received), Ok(230));
    assert_eq!(ctx.market.yes_pool, 1000);
    assert_eq!(ctx.market.no_pool, 1300);
    assert!(!ctx.prediction_account.prediction_type);
    assert_eq!(ctx.prediction_account.amount_deposited, 300);
    assert_eq!(ctx.prediction_account.tokens_received, 230);
}

#[test]
fn deposit_into_a_market_without_seed_is_rejected() {
    let market = open_market(0, 500);
    assert_eq!(market.yes_pool, 0);
    assert_eq!(market.no_pool, 0);
    let mut ctx = deposit_into(market, key(2), 200);
    let before = ctx.clone();
    let placed = place_prediction(&mut ctx, 7, true, 1000);
    assert_eq!(placed, Err(MarketError::InsufficientOutput));
    assert_eq!(ctx, before);
    let placed = place_prediction(&mut ctx, 7, false, 1000);
    assert_eq!(placed, Err(MarketError::InsufficientOutput));
    assert_eq!(ctx, before);
}

#[test]
fn deposit_too_small_for_a_token_is_rejected() {
    let mut market = open_market(0, 500);
    market.yes_pool = 1;
    market.no_pool = 1;
    let mut ctx = deposit_into(market, key(2), 200);
    let before = ctx.clone();
    assert_eq!(place_prediction(&mut ctx, 7, true, 1), Err(MarketError::InsufficientOutput));
    assert_eq!(ctx, before);
}

#[test]
fn deposit_of_zero_is_rejected() {
    let market = open_market(2000, 500);
    let mut ctx = deposit_into(market, key(2), 200);
    let before = ctx.clone();
    assert_eq!(place_prediction(&mut ctx, 7, true, 0), Err(MarketError::InvalidAmount));
    assert_eq!(ctx, before);
}

#[test]
fn deposit_from_the_resolution_time_on_is_rejected_as_expired() {
    let market = open_market(2000, 500);
    assert!(!market.resolved);
    for now in [500, 501, 10_000, i64::MAX] {
        let mut ctx = deposit_into(market.clone(), key(2), now);
        let before = ctx.clone();
        assert_eq!(place_prediction(&mut ctx, 7, true, 100), Err(MarketError::MarketExpired));
        assert_eq!(place_prediction(&mut ctx, 7, false, 100), Err(MarketError::MarketExpired));
        assert_eq!(ctx, before);
    }
    let mut ctx = deposit_into(market, key(2), 499);
    assert!(place_prediction(&mut ctx, 7, true, 100).is_ok());
}

#[test]
fn deposit_into_a_resolved_market_before_the_deadline_is_rejected() {
    let mut market = open_market(2000, 500);
    market.resolved = true;
    market.outcome = Some(false);
    let mut ctx = deposit_into(market.clone(), key(2), 200);
    let before = ctx.clone();
    assert_eq!(place_prediction(&mut ctx, 7, true, 100), Err(MarketError::MarketAlreadyResolved));
    assert_eq!(ctx, before);
    let mut ctx = deposit_into(market, key(2), 499);
    assert_eq!(place_prediction(&mut ctx, 7, false, 100), Err(MarketError::MarketAlreadyResolved));
}

#[test]
fn late_deposit_into_a_resolved_market_is_rejected_as_expired() {
    let mut market = open_market(2000, 500);
    market.resolved = true;
    market.outcome = Some(false);
    for now in [500, 501, 900, i64::MAX] {
        let mut ctx = deposit_into(market.clone(), key(2), now);
        let before = ctx.clone();
        assert_eq!(place_prediction(&mut ctx, 7, true, 100), Err(MarketError::MarketExpired));
        assert_eq!(place_prediction(&mut ctx, 7, false, 100), Err(MarketError::MarketExpired));
        assert_eq!(ctx, before);
        assert_eq!(ctx.prediction_account, Prediction::default());
    }
}

#[test]
fn late_deposit_after_a_resolution_is_rejected_as_expired() {
    let market = open_market(2000, 500);
    let mut resolution = ResolveMarket { market, admin: key(1), now: 500 };
    assert!(resolve_market(&mut resolution, 7, true).is_ok());
    let mut ctx = deposit_into(resolution.market, key(2), 500);
    let before = ctx.clone();
    assert_eq!(place_prediction(&mut ctx, 7, true, 100), Err(MarketError::MarketExpired));
    assert_eq!(ctx, before);
}

#[test]
fn deposit_checks_amount_then_time_then_status_then_output() {
    let mut market = open_market(0, 500);
    market.resolved = true;
    market.outcome = Some(true);
    let mut ctx = deposit_into(market.clone(), key(2), 900);
    assert_eq!(place_prediction(&mut ctx, 7, true, 0), Err(MarketError::InvalidAmount));
    assert_eq!(place_prediction(&mut ctx, 7, true, 5), Err(MarketError::MarketExpired));
    let mut ctx = deposit_into(market.clone(), key(2), 200);
    assert_eq!(place_prediction(&mut ctx, 7, true, 0), Err(MarketError::InvalidAmount));
    assert_eq!(place_prediction(&mut ctx, 7, true, 5), Err(MarketError::MarketAlreadyResolved));
    market.resolved = false;
    market.outcome = None;
    let mut ctx = deposit_into(market.clone(), key(2), 900);
    assert_eq!(place_prediction(&mut ctx, 7, true, 5), Err(MarketError::MarketExpired));
    let mut ctx = deposit_into(market, key(2), 200);
    assert_eq!(place_prediction(&mut ctx, 7, true, 5), Err(MarketError::InsufficientOutput));
}

#[test]
fn deposit_against_a_clamped_divisor_may_buy_its_one_token() {
    let mut market = open_market(0, 500);
    market.yes_pool = u64::MAX;
    market.no_pool = 1;
    let mut ctx = deposit_into(market.clone(), key(2), 200);
    let placed = place_prediction(&mut ctx, 7, true, 1);
    assert_eq!(placed.map(|event| event.tokens_received), Ok(1));
    assert_eq!(ctx.market.yes_pool, u64::MAX);
    assert_eq!(ctx.market.no_pool, 1);
    let mut ctx = deposit_into(market, key(2), 200);
    let placed = place_prediction(&mut ctx, 7, false, u64::MAX);
    assert_eq!(placed.map(|event| event.tokens_received), Ok(1));
    assert_eq!(ctx.market.no_pool, u64::MAX);
    assert_eq!(ctx.market.yes_pool, u64::MAX);
}

#[test]
fn deposit_clamps_the_pool_at_the_top_of_the_range() {
    let mut market = open_market(0, 500);
    market.yes_pool = u64::MAX - 10;
    market.no_pool = 5;
    let mut ctx = deposit_into(market, key(2), 200);
    let placed = place_prediction(&mut ctx, 7, true, 100);
    assert_eq!(placed.map(|event| event.tokens_received), Ok(99));
    assert_eq!(ctx.market.yes_pool, u64::MAX);
    assert_eq!(ctx.market.no_pool, 5);
}

#[test]
fn deposit_overwrites_whatever_the_position_record_held() {
    let market = open_market(2000, 500);
    let mut ctx = deposit_into(market, key(2), 200);
    ctx.prediction_account = Prediction {
        market_id: 99,
        predictor: key(9),
        prediction_type: false,
        amount_deposited: 1,
        tokens_received: 1,
        created_at: 1,
        claimed: true,
    };
    assert!(place_prediction(&mut ctx, 7, true, 1000).is_ok());
    assert_eq!(
        ctx.prediction_account,
        Prediction {
            market_id: 7,
            predictor: key(2),
            prediction_type: true,
            amount_deposited: 1000,
            tokens_received: 500,
            created_at: 200,
            claimed: false,
        }
    );
}

#[test]
fn resolution_sets_the_outcome_and_moves_no_pool() {
    let market = open_market(2000, 500);
    let mut ctx = ResolveMarket { market: market.clone(), admin: key(1), now: 500 };
    let resolved = resolve_market(&mut ctx, 7, true);
    assert_eq!(
        resolved,
        Ok(MarketResolved { market_id: 7, outcome: true, yes_pool: 1000, no_pool: 1000 })
    );
    let mut expected = market;
    expected.resolved = true;
    expected.outcome = Some(true);
    assert_eq!(ctx.market, expected);
    assert_eq!(ctx.admin, key(1));
}

#[test]
fn resolution_with_no_as_outcome() {
    let market = open_market(2000, 500);
    let mut ctx = ResolveMarket { market, admin: key(1), now: 9000 };
    let resolved = resolve_market(&mut ctx, 7, false);
    assert_eq!(resolved.map(|event| event.outcome), Ok(false));
    assert!(ctx.market.resolved);
    assert_eq!(ctx.market.outcome, Some(false));
}

#[test]
fn resolution_by_anyone_but_the_creator_is_rejected() {
    let market = open_market(2000, 500);
    let mut ctx = ResolveMarket { market, admin: key(2), now: 500 };
    let before = ctx.clone();
    assert_eq!(resolve_market(&mut ctx, 7, true), Err(MarketError::Unauthorized));
    assert_eq!(ctx, before);
}

#[test]
fn resolution_before_the_resolution_time_is_rejected() {
    let market = open_market(2000, 500);
    let mut ctx = ResolveMarket { market, admin: key(1), now: 499 };
    let before = ctx.clone();
    assert_eq!(resolve_market(&mut ctx, 7, true), Err(MarketError::MarketNotExpired));
    assert_eq!(ctx, before);
}

#[test]
fn resolution_is_write_once() {
    let market = open_market(2000, 500);
    let mut ctx = ResolveMarket { market, admin: key(1), now: 500 };
    assert!(resolve_market(&mut ctx, 7, true).is_ok());
    let settled = ctx.clone();
    assert_eq!(resolve_market(&mut ctx, 7, false), Err(MarketError::MarketAlreadyResolved));
    assert_eq!(ctx, settled);
    assert_eq!(resolve_market(&mut ctx, 7, true), Err(MarketError::MarketAlreadyResolved));
    assert_eq!(ctx.market.outcome, Some(true));
    ctx.now = 100_000;
    assert_eq!(resolve_market(&mut ctx, 7, false), Err(MarketError::MarketAlreadyResolved));
    ctx.admin = key(2);
    assert_eq!(resolve_market(&mut ctx, 7, false), Err(MarketError::Unauthorized));
    assert_eq!(ctx.market.outcome, Some(true));
    assert!(ctx.market.resolved);
}

#[test]
fn resolution_checks_the_caller_then_the_status_then_the_time() {
    let mut market = open_market(2000, 500);
    market.resolved = true;
    market.outcome = Some(true);
    let mut ctx = ResolveMarket { market: market.clone(), admin: key(2), now: 10 };
    assert_eq!(resolve_market(&mut ctx, 7, true), Err(MarketError::Unauthorized));
    let mut ctx = ResolveMarket { market, admin: key(1), now: 10 };
    assert_eq!(resolve_market(&mut ctx, 7, true), Err(MarketError::MarketAlreadyResolved));
}
