use vstd::prelude::*;

use vstd::arithmetic::div_mod::{
    lemma_div_by_self, lemma_div_is_ordered, lemma_div_multiples_vanish, lemma_div_of0,
    lemma_fundamental_div_mod, lemma_mod_bound,
};
use vstd::arithmetic::mul::{
    lemma_mul_inequality, lemma_mul_is_distributive_add, lemma_mul_is_distributive_add_other_way,
};

use crate::errors::CryptoBetError;
use crate::ops::{
    cancel_market_check, claim_refund_check, claim_winnings_check, market_after_bet,
    market_cancelled, market_resolved, payout, place_bet_check, pool_of, position_after_claim,
    position_after_refund, resolve_market_check, spec_resolve_handles, total_winning_shares,
    winning_side_shares, winnings_of,
};
use crate::state::{
    position_consistent, AccountId, AssetHandles, BetSide, Market, MarketState, Position,
    TokenAccountInfo, MAX_BET_AMOUNT, MIN_BET_AMOUNT,
};

verus! {

/// Conservation and share-amount parity are inductive over the lifecycle: a
/// well-formed market keeps `total_volume == total_yes_amount +
/// total_no_amount` and each side's share counter equal to its stake pool
/// through every state a settlement operation can produce — a landed stake,
/// a resolution, a cancellation. Claims never touch the market record, so the
/// two equalities hold at every observation point of any operation sequence.
pub proof fn lemma_conservation_and_parity_preserved(
    m: Market,
    side: BetSide,
    amount: u64,
    outcome: bool,
)
    requires
        m.wf(),
        m.total_volume + amount <= u64::MAX,
    ensures
        market_after_bet(m, side, amount).volume_conserved(),
        market_after_bet(m, side, amount).share_parity(),
        market_resolved(m, outcome).volume_conserved(),
        market_resolved(m, outcome).share_parity(),
        market_cancelled(m).volume_conserved(),
        market_cancelled(m).share_parity(),
{
}

// ---------------------------------------------------------------------------
// The payout and lifecycle laws of the engine, stated over the same spec
// functions the operations' contracts use.
// ---------------------------------------------------------------------------

/// Sum of a sequence of per-claimant share counts.
pub open spec fn sum_shares(s: Seq<u64>) -> int
    decreases s.len(),
{
    if s.len() == 0 {
        0
    } else {
        sum_shares(s.drop_last()) + s.last()
    }
}

/// Total paid when every claimant in `s` receives the floored pari-mutuel
/// payout for their share count, out of `pool` split over `total` winning
/// shares.
pub open spec fn sum_payouts(s: Seq<u64>, pool: int, total: u64) -> int
    decreases s.len(),
{
    if s.len() == 0 {
        0
    } else {
        sum_payouts(s.drop_last(), pool, total) + payout(s.last(), pool, total)
    }
}

/// Flooring is superadditive in the numerator: paying two claims separately
/// never pays more than paying their union at once.
proof fn lemma_div_sum_le(a: int, b: int, d: int)
    requires
        d > 0,
    ensures
        a / d + b / d <= (a + b) / d,
{
    lemma_fundamental_div_mod(a, d);
    lemma_fundamental_div_mod(b, d);
    lemma_mod_bound(a, d);
    lemma_mod_bound(b, d);
    lemma_mul_is_distributive_add(d, a / d, b / d);
    lemma_div_is_ordered(d * (a / d + b / d), a + b, d);
    lemma_div_multiples_vanish(a / d + b / d, d);
}

proof fn lemma_sum_shares_nonneg(s: Seq<u64>)
    ensures
        sum_shares(s) >= 0,
    decreases s.len(),
{
    if s.len() > 0 {
        lemma_sum_shares_nonneg(s.drop_last());
    }
}

/// Splitting a claim over many claimants never pays more than one aggregate
/// claim for the combined share count would.
proof fn lemma_sum_payouts_le_aggregate(s: Seq<u64>, pool: u64, total: u64)
    requires
        total > 0,
    ensures
        sum_payouts(s, pool as int, total) <= (sum_shares(s) * pool) / (total as int),
    decreases s.len(),
{
    if s.len() == 0 {
        lemma_div_of0(total as int);
    } else {
        let rest = s.drop_last();
        lemma_sum_payouts_le_aggregate(rest, pool, total);
        lemma_mul_is_distributive_add_other_way(pool as int, sum_shares(rest), s.last() as int);
        lemma_div_sum_le(sum_shares(rest) * pool, s.last() * pool, total as int);
    }
}

/// No over-payout: however a resolved market's winning-side shares are
/// distributed over claimants, if together they hold no more than the side's
/// total issued shares, the floored payouts they are owed cannot together
/// exceed the combined pool. The flooring residue stays in custody.
pub proof fn lemma_no_over_payout(s: Seq<u64>, pool: u64, total: u64)
    requires
        total > 0,
        sum_shares(s) <= total,
    ensures
        sum_payouts(s, pool as int, total) <= pool,
{
    lemma_sum_payouts_le_aggregate(s, pool, total);
    lemma_sum_shares_nonneg(s);
    lemma_mul_inequality(sum_shares(s), total as int, pool as int);
    lemma_div_is_ordered(sum_shares(s) * (pool as int), (total as int) * (pool as int), total as int);
    lemma_div_multiples_vanish(pool as int, total as int);
}

/// When success is owed: against a well-formed resolved market, a consistent
/// position that holds any winning-side shares is always paid at least one
/// base unit — conservation and parity make the combined pool at least as
/// large as the winning side's share total, so the floored payout cannot be
/// zero, and the payout never exceeds the pool.
pub proof fn lemma_winning_claim_is_paid(
    m: Market,
    p: Position,
    user: AccountId,
    user_token_account: Option<TokenAccountInfo>,
    market_vault: Option<TokenAccountInfo>,
    has_token_program: bool,
)
    requires
        m.wf(),
        position_consistent(m, p),
        m.state == MarketState::Resolved,
        p.user == user,
        winning_side_shares(m, p) > 0,
        spec_resolve_handles(m.market_type, user_token_account, market_vault, has_token_program)
            is Ok,
    ensures
        claim_winnings_check(m, p, user, user_token_account, market_vault, has_token_program)
            == Ok::<u64, CryptoBetError>(winnings_of(m, p) as u64),
        1 <= winnings_of(m, p) <= pool_of(m),
{
    let shares = winning_side_shares(m, p) as int;
    let total = total_winning_shares(m) as int;
    let pool = pool_of(m);
    // At least one unit: shares * pool covers one full share of the pool,
    // and the pool covers the winning side's whole share total.
    lemma_mul_inequality(1, shares, pool);
    lemma_div_is_ordered(total, shares * pool, total);
    lemma_div_by_self(total);
    // At most the pool: the claimant holds no more than every winning share.
    lemma_mul_inequality(shares, total, pool);
    lemma_div_is_ordered(shares * pool, total * pool, total);
    lemma_div_multiples_vanish(pool, total);
}

/// Idempotent claim rejection: a position that has just been paid its
/// winnings holds no shares left on the winning side, so an identical second
/// claim is rejected with `NoWinningShares` and requests no second transfer.
/// The zeroed counter is the engine's only anti-replay mechanism.
pub proof fn lemma_second_claim_rejected(
    m: Market,
    p: Position,
    user: AccountId,
    user_token_account: Option<TokenAccountInfo>,
    market_vault: Option<TokenAccountInfo>,
    has_token_program: bool,
)
    requires
        claim_winnings_check(m, p, user, user_token_account, market_vault, has_token_program)
            is Ok,
    ensures
        claim_winnings_check(
            m,
            position_after_claim(m, p),
            user,
            user_token_account,
            market_vault,
            has_token_program,
        ) == Err::<u64, CryptoBetError>(CryptoBetError::NoWinningShares),
{
}

/// The refund counterpart: a position that has just been refunded holds no
/// investment, so an identical second refund claim is rejected with
/// `NoRefundAvailable` and requests no second transfer.
pub proof fn lemma_second_refund_rejected(
    m: Market,
    p: Position,
    user: AccountId,
    user_token_account: Option<TokenAccountInfo>,
    market_vault: Option<TokenAccountInfo>,
    has_token_program: bool,
)
    requires
        claim_refund_check(m, p, user, user_token_account, market_vault, has_token_program) is Ok,
    ensures
        claim_refund_check(
            m,
            position_after_refund(p),
            user,
            user_token_account,
            market_vault,
            has_token_program,
        ) == Err::<u64, CryptoBetError>(CryptoBetError::NoRefundAvailable),
{
}

/// State-machine closure: once a market has left `Active` — it is Resolved or
/// Cancelled, both terminal — stake placement, resolution and cancellation
/// are all rejected with `MarketNotActive`, whatever the other inputs; only
/// the claim operations remain available. Inputs that fail an earlier
/// validation step (a stake outside its bounds, unresolvable token handles)
/// are rejected too, with that step's own error instead.
pub proof fn lemma_terminal_state_rejects_mutation(
    m: Market,
    authority: AccountId,
    amount: u64,
    now: i64,
    user_token_account: Option<TokenAccountInfo>,
    market_vault: Option<TokenAccountInfo>,
    has_token_program: bool,
)
    requires
        m.state != MarketState::Active,
        spec_resolve_handles(m.market_type, user_token_account, market_vault, has_token_program)
            is Ok,
        MIN_BET_AMOUNT <= amount <= MAX_BET_AMOUNT,
    ensures
        place_bet_check(m, amount, now, user_token_account, market_vault, has_token_program)
            == Err::<AssetHandles, CryptoBetError>(CryptoBetError::MarketNotActive),
        resolve_market_check(m, authority, now) == Err::<(), CryptoBetError>(
            CryptoBetError::MarketNotActive,
        ),
        cancel_market_check(m, authority) == Err::<(), CryptoBetError>(
            CryptoBetError::MarketNotActive,
        ),
{
}

} // verus!
