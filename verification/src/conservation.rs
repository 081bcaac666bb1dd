//! Conservation: what a market pays its winners never exceeds its reservoir.

use vstd::prelude::*;
use crate::deposit::{
    market_after_deposit,
    place_prediction_error,
    place_prediction_next,
    position_opened,
    PlacePrediction,
};
use crate::identity::Identity;
use crate::resolution::{resolve_market_next, ResolveMarket};
use crate::pricing::{lemma_curve_bound, lemma_floor_bounds};
use crate::records::{Market, Prediction};
use crate::settlement::{
    claim_reward_error,
    claim_reward_event,
    reservoir,
    reward_of,
    ClaimReward,
};

verus! {

/// The tokens that the positions in `positions` hold on `side`, together.
pub open spec fn tokens_on_side(positions: Seq<Prediction>, side: bool) -> nat
    decreases positions.len(),
{
    if positions.len() == 0 {
        0
    } else {
        let rest = tokens_on_side(positions.drop_last(), side);
        if positions.last().prediction_type == side {
            rest + positions.last().tokens_received as nat
        } else {
            rest
        }
    }
}

/// Every token held on a side is covered by that side's pool.
pub open spec fn backed(market: Market, positions: Seq<Prediction>) -> bool {
    &&& tokens_on_side(positions, true) <= market.yes_pool
    &&& tokens_on_side(positions, false) <= market.no_pool
}

/// The tokens held on the winning side are covered by the winning pool.
/// While the market has no outcome, this asks for nothing.
pub open spec fn winners_backed(market: Market, positions: Seq<Prediction>) -> bool {
    match market.outcome {
        Some(outcome) => tokens_on_side(positions, outcome) <= market.pool(outcome),
        None => true,
    }
}

/// What `market` owes `position`: its reward where the market is resolved in
/// the position's favour, nothing otherwise.
pub open spec fn reward_due(market: Market, position: Prediction) -> nat {
    match market.outcome {
        Some(outcome) => if market.resolved && position.prediction_type == outcome {
            reward_of(market, outcome, position.tokens_received)
        } else {
            0
        },
        None => 0,
    }
}

/// What `market` owes the positions in `positions`, together.
pub open spec fn total_due(market: Market, positions: Seq<Prediction>) -> nat
    decreases positions.len(),
{
    if positions.len() == 0 {
        0
    } else {
        total_due(market, positions.drop_last()) + reward_due(market, positions.last())
    }
}

/// How many of the positions in `positions` backed `side`.
pub open spec fn positions_on_side(positions: Seq<Prediction>, side: bool) -> nat
    decreases positions.len(),
{
    if positions.len() == 0 {
        0
    } else {
        let rest = positions_on_side(positions.drop_last(), side);
        if positions.last().prediction_type == side {
            rest + 1
        } else {
            rest
        }
    }
}

/// What rounding down withholds from the winners in `positions`, in units of
/// one over the winning pool: the remainders of their shares, together.
spec fn remainders(market: Market, outcome: bool, positions: Seq<Prediction>) -> nat
    decreases positions.len(),
{
    if positions.len() == 0 {
        0
    } else {
        let rest = remainders(market, outcome, positions.drop_last());
        if positions.last().prediction_type == outcome {
            rest + ((positions.last().tokens_received * reservoir(
                market.yes_pool,
                market.no_pool,
            )) % (market.pool(outcome) as int)) as nat
        } else {
            rest
        }
    }
}

/// One deposit as it is put to `place_prediction`: who asks, when, and what
/// for.
pub struct DepositRequest {
    pub predictor: Identity,
    pub now: i64,
    pub market_id: u64,
    pub side: bool,
    pub amount: u64,
}

/// The market, and the positions opened, once the requests in `requests`
/// were put to `place_prediction` one after the other, starting from `market`
/// with no positions. A refused request leaves both as they were.
pub open spec fn after_deposits(market: Market, requests: Seq<DepositRequest>) -> (
    Market,
    Seq<Prediction>,
)
    decreases requests.len(),
{
    if requests.len() == 0 {
        (market, Seq::empty())
    } else {
        let (before, positions) = after_deposits(market, requests.drop_last());
        let request = requests.last();
        if place_prediction_error(before, request.now, request.side, request.amount) is None {
            (
                market_after_deposit(before, request.side, request.amount),
                positions.push(
                    position_opened(
                        before,
                        request.predictor,
                        request.now,
                        request.market_id,
                        request.side,
                        request.amount,
                    ),
                ),
            )
        } else {
            (before, positions)
        }
    }
}

/// A paid claim pays what the market owes the position, no more and no less.
pub proof fn lemma_claim_pays_what_is_due(ctx: ClaimReward, market_id: u64)
    requires
        claim_reward_error(ctx) is None,
    ensures
        claim_reward_event(ctx, market_id).reward == reward_due(ctx.market, ctx.prediction_account),
{
}

/// Among the winners' tokens, the rewards due amount to at most the winners'
/// proportional part of the reservoir.
proof fn lemma_due_is_proportional(market: Market, outcome: bool, positions: Seq<Prediction>)
    requires
        market.resolved,
        market.outcome == Some(outcome),
        market.pool(outcome) > 0,
    ensures
        total_due(market, positions) * market.pool(outcome) <= tokens_on_side(positions, outcome)
            * reservoir(market.yes_pool, market.no_pool),
    decreases positions.len(),
{
    let winning = market.pool(outcome) as int;
    let total = reservoir(market.yes_pool, market.no_pool) as int;
    if positions.len() > 0 {
        let rest = positions.drop_last();
        let last = positions.last();
        lemma_due_is_proportional(market, outcome, rest);
        let due_rest = total_due(market, rest) as int;
        let tokens_rest = tokens_on_side(rest, outcome) as int;
        let due_last = reward_due(market, last) as int;
        if last.prediction_type == outcome {
            let tokens = last.tokens_received as int;
            assert(0 <= tokens * total) by (nonlinear_arith)
                requires
                    0 <= tokens,
                    0 <= total,
            ;
            lemma_floor_bounds(tokens * total, winning);
            assert(due_last <= (tokens * total) / winning);
            assert(due_last * winning <= tokens * total) by (nonlinear_arith)
                requires
                    due_last <= (tokens * total) / winning,
                    ((tokens * total) / winning) * winning <= tokens * total,
                    0 < winning,
            ;
            assert((due_rest + due_last) * winning <= (tokens_rest + tokens) * total)
                by (nonlinear_arith)
                requires
                    due_rest * winning <= tokens_rest * total,
                    due_last * winning <= tokens * total,
            ;
        } else {
            assert(due_last == 0);
        }
    } else {
        assert(total_due(market, positions) * winning == 0) by (nonlinear_arith)
            requires
                total_due(market, positions) == 0,
        ;
        assert(tokens_on_side(positions, outcome) * total == 0) by (nonlinear_arith)
            requires
                tokens_on_side(positions, outcome) == 0,
        ;
    }
}

/// Conservation: whatever positions a market has, as long as the winning
/// pool backs the winners' tokens, all that it owes them together is at most
/// its reservoir, and so at most `yes_pool + no_pool`.
pub proof fn lemma_rewards_conserved(market: Market, positions: Seq<Prediction>)
    requires
        winners_backed(market, positions),
    ensures
        total_due(market, positions) <= reservoir(market.yes_pool, market.no_pool),
        total_due(market, positions) <= market.yes_pool + market.no_pool,
{
    match market.outcome {
        Some(outcome) => {
            if market.resolved && market.pool(outcome) > 0 {
                lemma_due_is_proportional(market, outcome, positions);
                let due = total_due(market, positions) as int;
                let held = tokens_on_side(positions, outcome) as int;
                let winning = market.pool(outcome) as int;
                let total = reservoir(market.yes_pool, market.no_pool) as int;
                assert(due <= total) by (nonlinear_arith)
                    requires
                        due * winning <= held * total,
                        0 <= held <= winning,
                        0 < winning,
                        0 <= total,
                        0 <= due,
                ;
            } else {
                lemma_nothing_due(market, positions);
            }
        },
        None => {
            lemma_nothing_due(market, positions);
        },
    }
}

/// A market that is open, or whose winning pool is empty, owes nothing.
proof fn lemma_nothing_due(market: Market, positions: Seq<Prediction>)
    requires
        !market.resolved || market.outcome is None || market.pool(market.outcome->Some_0) == 0,
    ensures
        total_due(market, positions) == 0,
    decreases positions.len(),
{
    if positions.len() > 0 {
        lemma_nothing_due(market, positions.drop_last());
    }
}

/// Nothing is left over where nothing is lost to rounding: if the winners
/// hold tokens for the whole winning pool and each share divides evenly, what
/// the market owes them is the reservoir exactly.
pub proof fn lemma_rewards_exhaust_reservoir(
    market: Market,
    outcome: bool,
    positions: Seq<Prediction>,
)
    requires
        market.resolved,
        market.outcome == Some(outcome),
        market.pool(outcome) > 0,
        tokens_on_side(positions, outcome) == market.pool(outcome),
        forall|i: int|
            0 <= i < positions.len() && positions[i].prediction_type == outcome ==> (
            #[trigger] positions[i].tokens_received * reservoir(market.yes_pool, market.no_pool))
                % (market.pool(outcome) as int) == 0,
    ensures
        total_due(market, positions) == reservoir(market.yes_pool, market.no_pool),
{
    lemma_exact_shares(market, outcome, positions);
    let due = total_due(market, positions) as int;
    let winning = market.pool(outcome) as int;
    let total = reservoir(market.yes_pool, market.no_pool) as int;
    assert(due == total) by (nonlinear_arith)
        requires
            due * winning == winning * total,
            0 < winning,
    ;
}

/// Where each winner's share divides evenly and the winners hold no more
/// tokens than the winning pool, the rewards due are exactly proportional.
proof fn lemma_exact_shares(market: Market, outcome: bool, positions: Seq<Prediction>)
    requires
        market.resolved,
        market.outcome == Some(outcome),
        market.pool(outcome) > 0,
        tokens_on_side(positions, outcome) <= market.pool(outcome),
        forall|i: int|
            0 <= i < positions.len() && positions[i].prediction_type == outcome ==> (
            #[trigger] positions[i].tokens_received * reservoir(market.yes_pool, market.no_pool))
                % (market.pool(outcome) as int) == 0,
    ensures
        total_due(market, positions) * market.pool(outcome) == tokens_on_side(positions, outcome)
            * reservoir(market.yes_pool, market.no_pool),
    decreases positions.len(),
{
    let winning = market.pool(outcome) as int;
    let total = reservoir(market.yes_pool, market.no_pool) as int;
    if positions.len() > 0 {
        let rest = positions.drop_last();
        let last = positions.last();
        assert(forall|i: int| 0 <= i < rest.len() ==> rest[i] == positions[i]);
        lemma_exact_shares(market, outcome, rest);
        let due_rest = total_due(market, rest) as int;
        let tokens_rest = tokens_on_side(rest, outcome) as int;
        let due_last = reward_due(market, last) as int;
        if last.prediction_type == outcome {
            let tokens = last.tokens_received as int;
            assert(last == positions[positions.len() - 1]);
            assert((tokens * total) % winning == 0);
            let exact = (tokens * total) / winning;
            assert(exact * winning == tokens * total && exact <= total) by (nonlinear_arith)
                requires
                    (tokens * total) % winning == 0,
                    exact == (tokens * total) / winning,
                    0 <= tokens <= winning,
                    0 <= total,
                    0 < winning,
            ;
            assert(due_last == exact);
            assert((due_rest + due_last) * winning == (tokens_rest + tokens) * total)
                by (nonlinear_arith)
                requires
                    due_rest * winning == tokens_rest * total,
                    due_last * winning == tokens * total,
            ;
        } else {
            assert(due_last == 0);
        }
    } else {
        assert(total_due(market, positions) * winning == 0) by (nonlinear_arith)
            requires
                total_due(market, positions) == 0,
        ;
        assert(tokens_on_side(positions, outcome) * total == 0) by (nonlinear_arith)
            requires
                tokens_on_side(positions, outcome) == 0,
        ;
    }
}

/// Where the winning pool backs the winners' tokens, their proportional part
/// of the reservoir is what is due to them plus what rounding withheld, and
/// rounding withholds less than one unit from each.
proof fn lemma_due_and_remainders(market: Market, outcome: bool, positions: Seq<Prediction>)
    requires
        market.resolved,
        market.outcome == Some(outcome),
        market.pool(outcome) > 0,
        tokens_on_side(positions, outcome) <= market.pool(outcome),
    ensures
        tokens_on_side(positions, outcome) * reservoir(market.yes_pool, market.no_pool)
            == total_due(market, positions) * market.pool(outcome) + remainders(
            market,
            outcome,
            positions,
        ),
        remainders(market, outcome, positions) <= positions_on_side(positions, outcome) * (
        market.pool(outcome) - 1),
    decreases positions.len(),
{
    let winning = market.pool(outcome) as int;
    let total = reservoir(market.yes_pool, market.no_pool) as int;
    if positions.len() > 0 {
        let rest = positions.drop_last();
        let last = positions.last();
        lemma_due_and_remainders(market, outcome, rest);
        let due_rest = total_due(market, rest) as int;
        let tokens_rest = tokens_on_side(rest, outcome) as int;
        let left_rest = remainders(market, outcome, rest) as int;
        let count_rest = positions_on_side(rest, outcome) as int;
        let due_last = reward_due(market, last) as int;
        if last.prediction_type == outcome {
            let tokens = last.tokens_received as int;
            let exact = (tokens * total) / winning;
            let left = (tokens * total) % winning;
            assert(exact * winning + left == tokens * total && 0 <= left < winning && exact
                <= total) by (nonlinear_arith)
                requires
                    exact == (tokens * total) / winning,
                    left == (tokens * total) % winning,
                    0 <= tokens <= winning,
                    0 <= total,
                    0 < winning,
            ;
            assert(due_last == exact);
            assert((tokens_rest + tokens) * total == (due_rest + due_last) * winning + (left_rest
                + left)) by (nonlinear_arith)
                requires
                    tokens_rest * total == due_rest * winning + left_rest,
                    due_last * winning + left == tokens * total,
            ;
            assert(left_rest + left <= (count_rest + 1) * (winning - 1)) by (nonlinear_arith)
                requires
                    left_rest <= count_rest * (winning - 1),
                    left <= winning - 1,
            ;
        } else {
            assert(due_last == 0);
        }
    } else {
        assert(tokens_on_side(positions, outcome) * total == 0) by (nonlinear_arith)
            requires
                tokens_on_side(positions, outcome) == 0,
        ;
        assert(total_due(market, positions) * winning == 0) by (nonlinear_arith)
            requires
                total_due(market, positions) == 0,
        ;
        assert(positions_on_side(positions, outcome) * (winning - 1) == 0) by (nonlinear_arith)
            requires
                positions_on_side(positions, outcome) == 0,
        ;
    }
}

/// Where rounding withheld nothing in all, it withheld nothing from anyone.
proof fn lemma_no_remainders(market: Market, outcome: bool, positions: Seq<Prediction>, i: int)
    requires
        market.pool(outcome) > 0,
        remainders(market, outcome, positions) == 0,
        0 <= i < positions.len(),
        positions[i].prediction_type == outcome,
    ensures
        (positions[i].tokens_received * reservoir(market.yes_pool, market.no_pool)) % (market.pool(
            outcome,
        ) as int) == 0,
    decreases positions.len(),
{
    let rest = positions.drop_last();
    let winning = market.pool(outcome) as int;
    let share = positions.last().tokens_received * reservoir(market.yes_pool, market.no_pool);
    assert(0 <= share % winning) by (nonlinear_arith)
        requires
            0 < winning,
    ;
    if i < positions.len() - 1 {
        assert(rest[i] == positions[i]);
        lemma_no_remainders(market, outcome, rest, i);
    } else {
        assert(positions.last() == positions[i]);
    }
}

/// When the winners hold tokens for the whole winning pool and all claim,
/// rounding down keeps back less than one unit per winner.
pub proof fn lemma_rounding_keeps_under_one_unit_each(
    market: Market,
    outcome: bool,
    positions: Seq<Prediction>,
)
    requires
        market.resolved,
        market.outcome == Some(outcome),
        market.pool(outcome) > 0,
        tokens_on_side(positions, outcome) == market.pool(outcome),
    ensures
        reservoir(market.yes_pool, market.no_pool) <= total_due(market, positions)
            + positions_on_side(positions, outcome),
        positions_on_side(positions, outcome) > 0 ==> reservoir(market.yes_pool, market.no_pool)
            < total_due(market, positions) + positions_on_side(positions, outcome),
{
    lemma_due_and_remainders(market, outcome, positions);
    let due = total_due(market, positions) as int;
    let count = positions_on_side(positions, outcome) as int;
    let left = remainders(market, outcome, positions) as int;
    let winning = market.pool(outcome) as int;
    let total = reservoir(market.yes_pool, market.no_pool) as int;
    assert(total <= due + count && (count > 0 ==> total < due + count)) by (nonlinear_arith)
        requires
            winning * total == due * winning + left,
            0 <= left <= count * (winning - 1),
            0 < winning,
            0 <= count,
    ;
}

/// The reservoir is paid out in full only where nothing is lost to rounding:
/// if the winners hold tokens for the whole winning pool and are owed the
/// whole reservoir, every winner's share divides evenly.
pub proof fn lemma_full_payout_means_even_shares(
    market: Market,
    outcome: bool,
    positions: Seq<Prediction>,
    i: int,
)
    requires
        market.resolved,
        market.outcome == Some(outcome),
        market.pool(outcome) > 0,
        tokens_on_side(positions, outcome) == market.pool(outcome),
        total_due(market, positions) == reservoir(market.yes_pool, market.no_pool),
        0 <= i < positions.len(),
        positions[i].prediction_type == outcome,
    ensures
        (positions[i].tokens_received * reservoir(market.yes_pool, market.no_pool)) % (market.pool(
            outcome,
        ) as int) == 0,
{
    lemma_due_and_remainders(market, outcome, positions);
    let due = total_due(market, positions) as int;
    let left = remainders(market, outcome, positions) as int;
    let winning = market.pool(outcome) as int;
    let total = reservoir(market.yes_pool, market.no_pool) as int;
    assert(left == 0) by (nonlinear_arith)
        requires
            winning * total == due * winning + left,
            due == total,
    ;
    lemma_no_remainders(market, outcome, positions, i);
}

/// A market with no positions is backed.
pub proof fn lemma_no_positions_are_backed(market: Market)
    ensures
        backed(market, Seq::<Prediction>::empty()),
{
}

/// An accepted deposit that does not push its pool past `u64::MAX` keeps the
/// market backed: the new position holds no more tokens than its deposit
/// added to the pool.
pub proof fn lemma_deposit_keeps_backing(
    market: Market,
    positions: Seq<Prediction>,
    request: DepositRequest,
)
    requires
        place_prediction_error(market, request.now, request.side, request.amount) is None,
        backed(market, positions),
        market.pool(request.side) + request.amount <= u64::MAX,
    ensures
        backed(
            market_after_deposit(market, request.side, request.amount),
            positions.push(
                position_opened(
                    market,
                    request.predictor,
                    request.now,
                    request.market_id,
                    request.side,
                    request.amount,
                ),
            ),
        ),
{
    let position = position_opened(
        market,
        request.predictor,
        request.now,
        request.market_id,
        request.side,
        request.amount,
    );
    assert(positions.push(position).drop_last() =~= positions);
    lemma_curve_bound(market.pool(request.side), request.amount);
}

/// `after_deposits` takes each step as `place_prediction` does.
pub proof fn lemma_after_deposits_follows_place_prediction(
    market: Market,
    requests: Seq<DepositRequest>,
    request: DepositRequest,
    ctx: PlacePrediction,
)
    requires
        ctx.market == after_deposits(market, requests).0,
        ctx.predictor == request.predictor,
        ctx.now == request.now,
    ensures
        ({
            let (before, positions) = after_deposits(market, requests);
            let (after, grown) = after_deposits(market, requests.push(request));
            let next = place_prediction_next(ctx, request.market_id, request.side, request.amount);
            match place_prediction_error(ctx.market, ctx.now, request.side, request.amount) {
                None => after == next.market && grown == positions.push(next.prediction_account),
                Some(_) => after == before && grown == positions,
            }
        }),
{
    assert(requests.push(request).drop_last() =~= requests);
}

/// As long as neither pool has reached `u64::MAX`, the market backs every
/// position that its deposits opened.
pub proof fn lemma_deposits_are_backed(market: Market, requests: Seq<DepositRequest>)
    requires
        after_deposits(market, requests).0.yes_pool < u64::MAX,
        after_deposits(market, requests).0.no_pool < u64::MAX,
    ensures
        backed(after_deposits(market, requests).0, after_deposits(market, requests).1),
    decreases requests.len(),
{
    if requests.len() > 0 {
        let (before, positions) = after_deposits(market, requests.drop_last());
        let request = requests.last();
        if place_prediction_error(before, request.now, request.side, request.amount) is None {
            lemma_deposits_are_backed(market, requests.drop_last());
            lemma_deposit_keeps_backing(before, positions, request);
        } else {
            lemma_deposits_are_backed(market, requests.drop_last());
        }
    }
}

/// Conservation over a market's life: take any market without positions,
/// put any deposits to it, and resolve it either way. As long as neither pool
/// has reached `u64::MAX`, all that the market then owes the positions that
/// the deposits opened is at most `yes_pool + no_pool` as they stand at
/// resolution.
pub proof fn lemma_market_never_overpays(
    market: Market,
    requests: Seq<DepositRequest>,
    resolution: ResolveMarket,
    outcome: bool,
)
    requires
        resolution.market == after_deposits(market, requests).0,
        resolution.market.yes_pool < u64::MAX,
        resolution.market.no_pool < u64::MAX,
    ensures
        total_due(
            resolve_market_next(resolution, outcome).market,
            after_deposits(market, requests).1,
        ) <= resolution.market.yes_pool + resolution.market.no_pool,
{
    lemma_deposits_are_backed(market, requests);
    lemma_rewards_conserved(
        resolve_market_next(resolution, outcome).market,
        after_deposits(market, requests).1,
    );
}

} // verus!
