use vstd::prelude::*;

use vstd::arithmetic::div_mod::{
    lemma_div_is_ordered, lemma_div_multiples_vanish,
};
use vstd::arithmetic::mul::{lemma_mul_inequality, lemma_mul_upper_bound};

use crate::errors::CryptoBetError;
use crate::events::{
    BetPlaced, MarketCancelled, MarketCreated, MarketResolved, RefundClaimed, WinningsClaimed,
};
use crate::state::{
    spec_accepted_mint_for, accepted_mint_for, position_consistent, AccountId, AssetHandles,
    BetSide, Market, MarketState, MarketType, Position, TokenAccountInfo, TransferRequest,
    MAX_BET_AMOUNT, MAX_CATEGORY_LEN, MAX_DESCRIPTION_LEN, MAX_TITLE_LEN, MIN_BET_AMOUNT,
};
use vstd::string::StrSliceExecFns;

verus! {

// ---------------------------------------------------------------------------
// Validation outcomes, as spec-level functions
//
// Each settlement operation validates its inputs in a fixed order and fails
// with the first violated condition's error. The `*_check` spec functions
// state that order once; the executable operations are proved to return
// exactly the outcome the check gives, and to mutate nothing on any error.
// ---------------------------------------------------------------------------

/// Outcome of resolving the optional token-side records of an operation into
/// explicit per-asset-class handles. Native markets need none; token markets
/// need the participant's token account, the market's vault and the token
/// program, in that order of complaint.
pub open spec fn spec_resolve_handles(
    market_type: MarketType,
    user_token_account: Option<TokenAccountInfo>,
    market_vault: Option<TokenAccountInfo>,
    has_token_program: bool,
) -> Result<AssetHandles, CryptoBetError> {
    match market_type {
        MarketType::Degen => Ok(AssetHandles::Native),
        MarketType::Stable => {
            if user_token_account is None {
                Err(CryptoBetError::MissingTokenAccount)
            } else if market_vault is None {
                Err(CryptoBetError::MissingVault)
            } else if !has_token_program {
                Err(CryptoBetError::MissingTokenProgram)
            } else {
                Ok(AssetHandles::Token {
                    user_account: user_token_account->0,
                    vault: market_vault->0,
                })
            }
        },
    }
}

/// Resolve the optional token-side records into explicit handles, once at the
/// top of each transferring operation.
pub fn resolve_handles(
    market_type: MarketType,
    user_token_account: Option<TokenAccountInfo>,
    market_vault: Option<TokenAccountInfo>,
    has_token_program: bool,
) -> (r: Result<AssetHandles, CryptoBetError>)
    ensures
        r == spec_resolve_handles(market_type, user_token_account, market_vault, has_token_program),
{
    match market_type {
        MarketType::Degen => Ok(AssetHandles::Native),
        MarketType::Stable => {
            let user_account = match user_token_account {
                Some(a) => a,
                None => {
                    return Err(CryptoBetError::MissingTokenAccount);
                },
            };
            let vault = match market_vault {
                Some(v) => v,
                None => {
                    return Err(CryptoBetError::MissingVault);
                },
            };
            if !has_token_program {
                return Err(CryptoBetError::MissingTokenProgram);
            }
            Ok(AssetHandles::Token { user_account, vault })
        },
    }
}

/// Outcome of market-creation validation: the three text bounds in order,
/// then the requirement that the deadline lie strictly in the future.
pub open spec fn create_market_check(
    title: Seq<char>,
    description: Seq<char>,
    category: Seq<char>,
    resolution_time: i64,
    now: i64,
) -> Result<(), CryptoBetError> {
    if title.len() > MAX_TITLE_LEN {
        Err(CryptoBetError::TitleTooLong)
    } else if description.len() > MAX_DESCRIPTION_LEN {
        Err(CryptoBetError::DescriptionTooLong)
    } else if category.len() > MAX_CATEGORY_LEN {
        Err(CryptoBetError::CategoryTooLong)
    } else if resolution_time <= now {
        Err(CryptoBetError::InvalidResolutionTime)
    } else {
        Ok(())
    }
}

/// Outcome of stake-placement validation: handles first, then the amount
/// bounds, the lifecycle state, the deadline, the asset identity of both
/// token-side records, and finally that the volume counter has room.
pub open spec fn place_bet_check(
    m: Market,
    amount: u64,
    now: i64,
    user_token_account: Option<TokenAccountInfo>,
    market_vault: Option<TokenAccountInfo>,
    has_token_program: bool,
) -> Result<AssetHandles, CryptoBetError> {
    match spec_resolve_handles(m.market_type, user_token_account, market_vault, has_token_program) {
        Err(e) => Err(e),
        Ok(handles) => {
            if amount == 0 {
                Err(CryptoBetError::InvalidAmount)
            } else if amount < MIN_BET_AMOUNT {
                Err(CryptoBetError::BetTooSmall)
            } else if amount > MAX_BET_AMOUNT {
                Err(CryptoBetError::BetTooLarge)
            } else if m.state != MarketState::Active {
                Err(CryptoBetError::MarketNotActive)
            } else if now >= m.resolution_time {
                Err(CryptoBetError::MarketExpired)
            } else if handles matches AssetHandles::Token { user_account, .. }
                && user_account.mint != m.accepted_mint {
                Err(CryptoBetError::InvalidTokenMint)
            } else if handles matches AssetHandles::Token { vault, .. }
                && vault.mint != m.accepted_mint {
                Err(CryptoBetError::InvalidTokenMint)
            } else if m.total_volume + amount > u64::MAX {
                Err(CryptoBetError::MathOverflow)
            } else {
                Ok(handles)
            }
        },
    }
}

/// Outcome of resolution validation: the market must still be active, its
/// deadline must have passed, and only its authority may resolve it.
pub open spec fn resolve_market_check(m: Market, authority: AccountId, now: i64) -> Result<
    (),
    CryptoBetError,
> {
    if m.state != MarketState::Active {
        Err(CryptoBetError::MarketNotActive)
    } else if now < m.resolution_time {
        Err(CryptoBetError::MarketNotExpired)
    } else if m.authority != authority {
        Err(CryptoBetError::UnauthorizedResolver)
    } else {
        Ok(())
    }
}

/// Outcome of cancellation validation: the market must still be active and
/// only its authority may cancel it. Cancellation is deadline-independent.
pub open spec fn cancel_market_check(m: Market, authority: AccountId) -> Result<
    (),
    CryptoBetError,
> {
    if m.state != MarketState::Active {
        Err(CryptoBetError::MarketNotActive)
    } else if m.authority != authority {
        Err(CryptoBetError::UnauthorizedResolver)
    } else {
        Ok(())
    }
}

// ---------------------------------------------------------------------------
// Payout arithmetic, as spec-level functions
// ---------------------------------------------------------------------------

/// The combined pool staked on both sides of a market.
pub open spec fn pool_of(m: Market) -> int {
    m.total_yes_amount + m.total_no_amount
}

/// The participant's share count on the side the market resolved to.
pub open spec fn winning_side_shares(m: Market, p: Position) -> u64 {
    if m.resolved_outcome == Some(true) {
        p.yes_shares
    } else {
        p.no_shares
    }
}

/// The market's total share count on the side it resolved to.
pub open spec fn total_winning_shares(m: Market) -> u64 {
    if m.resolved_outcome == Some(true) {
        m.total_yes_shares
    } else {
        m.total_no_shares
    }
}

/// The floored pari-mutuel payout: `shares` of `total` winning shares claim
/// `floor(shares * pool / total)` from the combined pool.
pub open spec fn payout(shares: u64, pool: int, total: u64) -> int {
    (shares * pool) / (total as int)
}

/// The winnings this position would be paid from this resolved market.
pub open spec fn winnings_of(m: Market, p: Position) -> int {
    payout(winning_side_shares(m, p), pool_of(m), total_winning_shares(m))
}

/// Outcome of winnings-claim validation, and on success the amount owed:
/// handles first, then the lifecycle state, the position's ownership, the
/// presence of winning shares, and finally that the floored payout is not
/// zero.
pub open spec fn claim_winnings_check(
    m: Market,
    p: Position,
    user: AccountId,
    user_token_account: Option<TokenAccountInfo>,
    market_vault: Option<TokenAccountInfo>,
    has_token_program: bool,
) -> Result<u64, CryptoBetError> {
    match spec_resolve_handles(m.market_type, user_token_account, market_vault, has_token_program) {
        Err(e) => Err(e),
        Ok(_) => {
            if m.state != MarketState::Resolved {
                Err(CryptoBetError::MarketNotResolved)
            } else if p.user != user {
                Err(CryptoBetError::InvalidPosition)
            } else if winning_side_shares(m, p) == 0 {
                Err(CryptoBetError::NoWinningShares)
            } else if total_winning_shares(m) == 0 {
                Err(CryptoBetError::NoWinningShares)
            } else if winnings_of(m, p) == 0 {
                Err(CryptoBetError::NoWinningsAvailable)
            } else {
                Ok(winnings_of(m, p) as u64)
            }
        },
    }
}

/// Outcome of refund-claim validation, and on success the amount owed:
/// handles first, then the lifecycle state, the position's ownership, and
/// finally that the position still holds an investment to give back.
pub open spec fn claim_refund_check(
    m: Market,
    p: Position,
    user: AccountId,
    user_token_account: Option<TokenAccountInfo>,
    market_vault: Option<TokenAccountInfo>,
    has_token_program: bool,
) -> Result<u64, CryptoBetError> {
    match spec_resolve_handles(m.market_type, user_token_account, market_vault, has_token_program) {
        Err(e) => Err(e),
        Ok(_) => {
            if m.state != MarketState::Cancelled {
                Err(CryptoBetError::MarketNotCancelled)
            } else if p.user != user {
                Err(CryptoBetError::InvalidPosition)
            } else if p.total_invested == 0 {
                Err(CryptoBetError::NoRefundAvailable)
            } else {
                Ok(p.total_invested)
            }
        },
    }
}

// ---------------------------------------------------------------------------
// Record states after a successful operation, as spec-level functions
// ---------------------------------------------------------------------------

/// The market record after a stake of `amount` lands on `side`: that side's
/// pool and share counters and the volume counter each grow by `amount`
/// (shares are issued 1:1 with the stake), everything else is unchanged.
pub open spec fn market_after_bet(m: Market, side: BetSide, amount: u64) -> Market {
    match side {
        BetSide::Yes => Market {
            total_yes_amount: (m.total_yes_amount + amount) as u64,
            total_yes_shares: (m.total_yes_shares + amount) as u64,
            total_volume: (m.total_volume + amount) as u64,
            ..m
        },
        BetSide::No => Market {
            total_no_amount: (m.total_no_amount + amount) as u64,
            total_no_shares: (m.total_no_shares + amount) as u64,
            total_volume: (m.total_volume + amount) as u64,
            ..m
        },
    }
}

/// The position record after a stake of `amount` lands on `side`.
pub open spec fn position_after_bet(p: Position, side: BetSide, amount: u64) -> Position {
    match side {
        BetSide::Yes => Position {
            yes_shares: (p.yes_shares + amount) as u64,
            total_invested: (p.total_invested + amount) as u64,
            ..p
        },
        BetSide::No => Position {
            no_shares: (p.no_shares + amount) as u64,
            total_invested: (p.total_invested + amount) as u64,
            ..p
        },
    }
}

/// The market record after resolution: terminal state, outcome recorded.
pub open spec fn market_resolved(m: Market, outcome: bool) -> Market {
    Market { state: MarketState::Resolved, resolved_outcome: Some(outcome), ..m }
}

/// The market record after cancellation: terminal state, no outcome.
pub open spec fn market_cancelled(m: Market) -> Market {
    Market { state: MarketState::Cancelled, ..m }
}

/// The position record after a paid winnings claim: the winning side's share
/// counter is zeroed in place, which is what makes a second claim fail.
pub open spec fn position_after_claim(m: Market, p: Position) -> Position {
    if m.resolved_outcome == Some(true) {
        Position { yes_shares: 0, ..p }
    } else {
        Position { no_shares: 0, ..p }
    }
}

/// The position record after a paid refund: all counters zeroed together.
pub open spec fn position_after_refund(p: Position) -> Position {
    Position { yes_shares: 0, no_shares: 0, total_invested: 0, ..p }
}

/// The transfer a successful stake placement requests: `amount` moves from
/// the participant's funding account into the market's custody.
pub open spec fn deposit_request(
    m: Market,
    market_key: AccountId,
    user: AccountId,
    handles: AssetHandles,
    amount: u64,
) -> TransferRequest {
    match handles {
        AssetHandles::Native => TransferRequest {
            asset_class: m.market_type,
            from: user,
            to: market_key,
            amount,
        },
        AssetHandles::Token { user_account, vault } => TransferRequest {
            asset_class: m.market_type,
            from: user_account.key,
            to: vault.key,
            amount,
        },
    }
}

/// The transfer a successful claim requests: `amount` moves from the market's
/// custody back to the participant.
pub open spec fn payout_request(
    m: Market,
    market_key: AccountId,
    user: AccountId,
    handles: AssetHandles,
    amount: u64,
) -> TransferRequest {
    match handles {
        AssetHandles::Native => TransferRequest {
            asset_class: m.market_type,
            from: market_key,
            to: user,
            amount,
        },
        AssetHandles::Token { user_account, vault } => TransferRequest {
            asset_class: m.market_type,
            from: vault.key,
            to: user_account.key,
            amount,
        },
    }
}

// ---------------------------------------------------------------------------
// The six settlement operations
// ---------------------------------------------------------------------------

/// Create a new market record.
///
/// `market_key` is the address the host's record store allocated for the
/// record and `now` is the host clock, read once for the whole operation.
/// Validation follows `create_market_check`; on success the returned market
/// is active, zero-counted, well formed, and permanently bound to the asset
/// class `market_type` and its accepted asset identity.
pub fn initialize_market(
    market_key: AccountId,
    authority: AccountId,
    market_id: u64,
    title: String,
    description: String,
    category: String,
    resolution_time: i64,
    market_type: MarketType,
    now: i64,
) -> (r: Result<(Market, MarketCreated), CryptoBetError>)
    ensures
        r is Ok <==> create_market_check(title@, description@, category@, resolution_time, now)
            is Ok,
        r matches Err(e) ==> Err::<(), CryptoBetError>(e) == create_market_check(
            title@,
            description@,
            category@,
            resolution_time,
            now,
        ),
        r matches Ok((m, ev)) ==> {
            &&& m.wf()
            &&& m.authority == authority
            &&& m.market_id == market_id
            &&& m.title@ == title@
            &&& m.description@ == description@
            &&& m.category@ == category@
            &&& m.resolution_time == resolution_time
            &&& m.state == MarketState::Active
            &&& m.market_type == market_type
            &&& m.accepted_mint == spec_accepted_mint_for(market_type)
            &&& m.total_yes_amount == 0
            &&& m.total_no_amount == 0
            &&& m.total_yes_shares == 0
            &&& m.total_no_shares == 0
            &&& m.total_volume == 0
            &&& m.resolved_outcome is None
            &&& m.created_at == now
            &&& ev.market == market_key
            &&& ev.market_id == market_id
            &&& ev.title@ == title@
            &&& ev.category@ == category@
            &&& ev.resolution_time == resolution_time
            &&& ev.market_type == market_type
        },
{
    if title.as_str().unicode_len() > MAX_TITLE_LEN {
        return Err(CryptoBetError::TitleTooLong);
    }
    if description.as_str().unicode_len() > MAX_DESCRIPTION_LEN {
        return Err(CryptoBetError::DescriptionTooLong);
    }
    if category.as_str().unicode_len() > MAX_CATEGORY_LEN {
        return Err(CryptoBetError::CategoryTooLong);
    }
    if resolution_time <= now {
        return Err(CryptoBetError::InvalidResolutionTime);
    }
    let event = MarketCreated {
        market: market_key,
        market_id,
        title: title.clone(),
        category: category.clone(),
        resolution_time,
        market_type,
    };
    let market = Market {
        authority,
        market_id,
        title,
        description,
        category,
        resolution_time,
        state: MarketState::Active,
        market_type,
        accepted_mint: accepted_mint_for(market_type),
        total_yes_amount: 0,
        total_no_amount: 0,
        total_yes_shares: 0,
        total_no_shares: 0,
        total_volume: 0,
        resolved_outcome: None,
        created_at: now,
    };
    Ok((market, event))
}

/// Place a stake of `amount` on `side` of an active market.
///
/// The position must be the participant's own record for this market, fresh
/// or existing; the host creates a zeroed one on a first stake. Validation
/// follows `place_bet_check`. On success every affected counter grows by
/// `amount` (shares 1:1), the returned transfer moves `amount` from the
/// participant's funding account into the market's custody, and the host must
/// commit that transfer atomically with the record mutations. On any error
/// both records are unchanged.
pub fn place_bet(
    market: &mut Market,
    position: &mut Position,
    market_key: AccountId,
    user: AccountId,
    side: BetSide,
    amount: u64,
    now: i64,
    user_token_account: Option<TokenAccountInfo>,
    market_vault: Option<TokenAccountInfo>,
    has_token_program: bool,
) -> (r: Result<(TransferRequest, BetPlaced), CryptoBetError>)
    requires
        old(market).wf(),
        position_consistent(*old(market), *old(position)),
        old(position).user == user,
        old(position).market == market_key,
    ensures
        final(market).wf(),
        position_consistent(*final(market), *final(position)),
        r is Ok <==> place_bet_check(
            *old(market),
            amount,
            now,
            user_token_account,
            market_vault,
            has_token_program,
        ) is Ok,
        r matches Err(e) ==> {
            &&& Err::<AssetHandles, CryptoBetError>(e) == place_bet_check(
                *old(market),
                amount,
                now,
                user_token_account,
                market_vault,
                has_token_program,
            )
            &&& *final(market) == *old(market)
            &&& *final(position) == *old(position)
        },
        r matches Ok((t, ev)) ==> {
            &&& *final(market) == market_after_bet(*old(market), side, amount)
            &&& *final(position) == position_after_bet(*old(position), side, amount)
            &&& place_bet_check(
                *old(market),
                amount,
                now,
                user_token_account,
                market_vault,
                has_token_program,
            ) matches Ok(handles) && t == deposit_request(
                *old(market),
                market_key,
                user,
                handles,
                amount,
            )
            &&& ev == (BetPlaced {
                market: market_key,
                user,
                side,
                amount,
                shares: amount,
                new_yes_total: final(market).total_yes_amount,
                new_no_total: final(market).total_no_amount,
                market_type: old(market).market_type,
            })
        },
{
    let handles = match resolve_handles(
        market.market_type,
        user_token_account,
        market_vault,
        has_token_program,
    ) {
        Ok(h) => h,
        Err(e) => {
            return Err(e);
        },
    };
    if amount == 0 {
        return Err(CryptoBetError::InvalidAmount);
    }
    if amount < MIN_BET_AMOUNT {
        return Err(CryptoBetError::BetTooSmall);
    }
    if amount > MAX_BET_AMOUNT {
        return Err(CryptoBetError::BetTooLarge);
    }
    if market.state != MarketState::Active {
        return Err(CryptoBetError::MarketNotActive);
    }
    if now >= market.resolution_time {
        return Err(CryptoBetError::MarketExpired);
    }
    if let AssetHandles::Token { user_account, vault } = handles {
        if user_account.mint != market.accepted_mint {
            return Err(CryptoBetError::InvalidTokenMint);
        }
        if vault.mint != market.accepted_mint {
            return Err(CryptoBetError::InvalidTokenMint);
        }
    }
    // Shares are issued 1:1 with the staked amount.
    let shares = amount;
    // Compute every new counter before assigning any, so that a failure
    // leaves both records untouched.
    let new_volume = match market.total_volume.checked_add(amount) {
        Some(v) => v,
        None => {
            return Err(CryptoBetError::MathOverflow);
        },
    };
    let new_invested = match position.total_invested.checked_add(amount) {
        Some(v) => v,
        None => {
            return Err(CryptoBetError::MathOverflow);
        },
    };
    match side {
        BetSide::Yes => {
            let new_amount = match market.total_yes_amount.checked_add(amount) {
                Some(v) => v,
                None => {
                    return Err(CryptoBetError::MathOverflow);
                },
            };
            let new_shares = match market.total_yes_shares.checked_add(shares) {
                Some(v) => v,
                None => {
                    return Err(CryptoBetError::MathOverflow);
                },
            };
            let new_pos_shares = match position.yes_shares.checked_add(shares) {
                Some(v) => v,
                None => {
                    return Err(CryptoBetError::MathOverflow);
                },
            };
            market.total_yes_amount = new_amount;
            market.total_yes_shares = new_shares;
            position.yes_shares = new_pos_shares;
        },
        BetSide::No => {
            let new_amount = match market.total_no_amount.checked_add(amount) {
                Some(v) => v,
                None => {
                    return Err(CryptoBetError::MathOverflow);
                },
            };
            let new_shares = match market.total_no_shares.checked_add(shares) {
                Some(v) => v,
                None => {
                    return Err(CryptoBetError::MathOverflow);
                },
            };
            let new_pos_shares = match position.no_shares.checked_add(shares) {
                Some(v) => v,
                None => {
                    return Err(CryptoBetError::MathOverflow);
                },
            };
            market.total_no_amount = new_amount;
            market.total_no_shares = new_shares;
            position.no_shares = new_pos_shares;
        },
    }
    market.total_volume = new_volume;
    position.total_invested = new_invested;
    let transfer = match handles {
        AssetHandles::Native => TransferRequest {
            asset_class: market.market_type,
            from: user,
            to: market_key,
            amount,
        },
        AssetHandles::Token { user_account, vault } => TransferRequest {
            asset_class: market.market_type,
            from: user_account.key,
            to: vault.key,
            amount,
        },
    };
    let event = BetPlaced {
        market: market_key,
        user,
        side,
        amount,
        shares,
        new_yes_total: market.total_yes_amount,
        new_no_total: market.total_no_amount,
        market_type: market.market_type,
    };
    Ok((transfer, event))
}

/// Resolve an active market whose deadline has passed, recording the binary
/// outcome. Authority-only; irreversible. Validation follows
/// `resolve_market_check`; on any error the record is unchanged.
pub fn resolve_market(
    market: &mut Market,
    market_key: AccountId,
    authority: AccountId,
    outcome: bool,
    now: i64,
) -> (r: Result<MarketResolved, CryptoBetError>)
    requires
        old(market).wf(),
    ensures
        final(market).wf(),
        r is Ok <==> resolve_market_check(*old(market), authority, now) is Ok,
        r matches Err(e) ==> {
            &&& Err::<(), CryptoBetError>(e) == resolve_market_check(*old(market), authority, now)
            &&& *final(market) == *old(market)
        },
        r matches Ok(ev) ==> {
            &&& *final(market) == market_resolved(*old(market), outcome)
            &&& ev == (MarketResolved {
                market: market_key,
                outcome,
                total_volume: old(market).total_volume,
                market_type: old(market).market_type,
            })
        },
{
    if market.state != MarketState::Active {
        return Err(CryptoBetError::MarketNotActive);
    }
    if now < market.resolution_time {
        return Err(CryptoBetError::MarketNotExpired);
    }
    if market.authority != authority {
        return Err(CryptoBetError::UnauthorizedResolver);
    }
    market.state = MarketState::Resolved;
    market.resolved_outcome = Some(outcome);
    Ok(MarketResolved {
        market: market_key,
        outcome,
        total_volume: market.total_volume,
        market_type: market.market_type,
    })
}

/// Cancel an active market, before or after its deadline. Authority-only;
/// irreversible; records no outcome, which is what routes later claims to the
/// refund path. Validation follows `cancel_market_check`; on any error the
/// record is unchanged.
pub fn cancel_market(market: &mut Market, market_key: AccountId, authority: AccountId) -> (r:
    Result<MarketCancelled, CryptoBetError>)
    requires
        old(market).wf(),
    ensures
        final(market).wf(),
        r is Ok <==> cancel_market_check(*old(market), authority) is Ok,
        r matches Err(e) ==> {
            &&& Err::<(), CryptoBetError>(e) == cancel_market_check(*old(market), authority)
            &&& *final(market) == *old(market)
        },
        r matches Ok(ev) ==> {
            &&& *final(market) == market_cancelled(*old(market))
            &&& ev == (MarketCancelled {
                market: market_key,
                total_volume: old(market).total_volume,
                market_type: old(market).market_type,
            })
        },
{
    if market.state != MarketState::Active {
        return Err(CryptoBetError::MarketNotActive);
    }
    if market.authority != authority {
        return Err(CryptoBetError::UnauthorizedResolver);
    }
    market.state = MarketState::Cancelled;
    Ok(MarketCancelled {
        market: market_key,
        total_volume: market.total_volume,
        market_type: market.market_type,
    })
}

/// Claim this position's proportional share of a resolved market's combined
/// pool: `floor(winning shares * pool / total winning shares)`.
///
/// Validation follows `claim_winnings_check`. On success the winning side's
/// share counter is zeroed in place — the sole anti-double-claim mechanism —
/// and the returned transfer moves the winnings from custody back to the
/// participant; the paid amount never exceeds the pool. The flooring residue
/// stays in custody unclaimed. On any error the position is unchanged.
pub fn claim_winnings(
    market: &Market,
    position: &mut Position,
    market_key: AccountId,
    user: AccountId,
    user_token_account: Option<TokenAccountInfo>,
    market_vault: Option<TokenAccountInfo>,
    has_token_program: bool,
) -> (r: Result<(TransferRequest, WinningsClaimed), CryptoBetError>)
    requires
        market.wf(),
        position_consistent(*market, *old(position)),
        old(position).market == market_key,
    ensures
        position_consistent(*market, *final(position)),
        r is Ok <==> claim_winnings_check(
            *market,
            *old(position),
            user,
            user_token_account,
            market_vault,
            has_token_program,
        ) is Ok,
        r matches Err(e) ==> {
            &&& Err::<u64, CryptoBetError>(e) == claim_winnings_check(
                *market,
                *old(position),
                user,
                user_token_account,
                market_vault,
                has_token_program,
            )
            &&& *final(position) == *old(position)
        },
        r matches Ok((t, ev)) ==> {
            &&& claim_winnings_check(
                *market,
                *old(position),
                user,
                user_token_account,
                market_vault,
                has_token_program,
            ) == Ok::<u64, CryptoBetError>(t.amount)
            &&& t.amount == winnings_of(*market, *old(position))
            &&& t.amount <= market.total_volume
            &&& spec_resolve_handles(
                market.market_type,
                user_token_account,
                market_vault,
                has_token_program,
            ) matches Ok(handles) && t == payout_request(
                *market,
                market_key,
                user,
                handles,
                t.amount,
            )
            &&& *final(position) == position_after_claim(*market, *old(position))
            &&& ev == (WinningsClaimed {
                market: market_key,
                user,
                amount: t.amount,
                market_type: market.market_type,
            })
        },
{
    let handles = match resolve_handles(
        market.market_type,
        user_token_account,
        market_vault,
        has_token_program,
    ) {
        Ok(h) => h,
        Err(e) => {
            return Err(e);
        },
    };
    if market.state != MarketState::Resolved {
        return Err(CryptoBetError::MarketNotResolved);
    }
    if position.user != user {
        return Err(CryptoBetError::InvalidPosition);
    }
    let resolved_outcome = match market.resolved_outcome {
        Some(o) => o,
        None => {
            // Defensive: a resolved market always carries an outcome.
            return Err(CryptoBetError::MarketNotResolved);
        },
    };
    let winning_shares = if resolved_outcome {
        position.yes_shares
    } else {
        position.no_shares
    };
    if winning_shares == 0 {
        return Err(CryptoBetError::NoWinningShares);
    }
    proof {
        // Conservation keeps the pool within the volume counter.
        assert(market.total_yes_amount + market.total_no_amount == market.total_volume);
    }
    let total_pool = match market.total_yes_amount.checked_add(market.total_no_amount) {
        Some(v) => v,
        None => {
            // Defensive: conservation keeps the sum within the volume counter.
            return Err(CryptoBetError::MathOverflow);
        },
    };
    let total_shares = if resolved_outcome {
        market.total_yes_shares
    } else {
        market.total_no_shares
    };
    if total_shares == 0 {
        // Defensive: a position cannot hold shares its market never issued.
        return Err(CryptoBetError::NoWinningShares);
    }
    // The double-width product cannot overflow and the divisor was checked,
    // but both guards stay: every arithmetic step is check-then-fail.
    proof {
        lemma_mul_upper_bound(
            winning_shares as int,
            u64::MAX as int,
            total_pool as int,
            u64::MAX as int,
        );
    }
    let product = match (winning_shares as u128).checked_mul(total_pool as u128) {
        Some(v) => v,
        None => {
            return Err(CryptoBetError::MathOverflow);
        },
    };
    let winnings_wide = match product.checked_div(total_shares as u128) {
        Some(v) => v,
        None => {
            return Err(CryptoBetError::DivisionByZero);
        },
    };
    proof {
        // winning_shares <= total_shares, so the floored payout is at most
        // the pool and in particular fits back into a u64.
        lemma_mul_inequality(winning_shares as int, total_shares as int, total_pool as int);
        lemma_div_is_ordered(
            winning_shares as int * total_pool as int,
            total_shares as int * total_pool as int,
            total_shares as int,
        );
        lemma_div_multiples_vanish(total_pool as int, total_shares as int);
    }
    let winnings = winnings_wide as u64;
    if winnings == 0 {
        return Err(CryptoBetError::NoWinningsAvailable);
    }
    let transfer = match handles {
        AssetHandles::Native => TransferRequest {
            asset_class: market.market_type,
            from: market_key,
            to: user,
            amount: winnings,
        },
        AssetHandles::Token { user_account, vault } => TransferRequest {
            asset_class: market.market_type,
            from: vault.key,
            to: user_account.key,
            amount: winnings,
        },
    };
    if resolved_outcome {
        position.yes_shares = 0;
    } else {
        position.no_shares = 0;
    }
    let event = WinningsClaimed {
        market: market_key,
        user,
        amount: winnings,
        market_type: market.market_type,
    };
    Ok((transfer, event))
}

/// Claim back everything this position invested into a cancelled market.
///
/// Validation follows `claim_refund_check`. On success all three position
/// counters are zeroed together — repeat attempts then fail on the zero
/// balance — and the returned transfer moves the full `total_invested` from
/// custody back to the participant. On any error the position is unchanged.
pub fn claim_refund(
    market: &Market,
    position: &mut Position,
    market_key: AccountId,
    user: AccountId,
    user_token_account: Option<TokenAccountInfo>,
    market_vault: Option<TokenAccountInfo>,
    has_token_program: bool,
) -> (r: Result<(TransferRequest, RefundClaimed), CryptoBetError>)
    requires
        market.wf(),
        position_consistent(*market, *old(position)),
        old(position).market == market_key,
    ensures
        position_consistent(*market, *final(position)),
        r is Ok <==> claim_refund_check(
            *market,
            *old(position),
            user,
            user_token_account,
            market_vault,
            has_token_program,
        ) is Ok,
        r matches Err(e) ==> {
            &&& Err::<u64, CryptoBetError>(e) == claim_refund_check(
                *market,
                *old(position),
                user,
                user_token_account,
                market_vault,
                has_token_program,
            )
            &&& *final(position) == *old(position)
        },
        r matches Ok((t, ev)) ==> {
            &&& claim_refund_check(
                *market,
                *old(position),
                user,
                user_token_account,
                market_vault,
                has_token_program,
            ) == Ok::<u64, CryptoBetError>(t.amount)
            &&& t.amount == old(position).total_invested
            &&& spec_resolve_handles(
                market.market_type,
                user_token_account,
                market_vault,
                has_token_program,
            ) matches Ok(handles) && t == payout_request(
                *market,
                market_key,
                user,
                handles,
                t.amount,
            )
            &&& *final(position) == position_after_refund(*old(position))
            &&& ev == (RefundClaimed {
                market: market_key,
                user,
                amount: t.amount,
                market_type: market.market_type,
            })
        },
{
    let handles = match resolve_handles(
        market.market_type,
        user_token_account,
        market_vault,
        has_token_program,
    ) {
        Ok(h) => h,
        Err(e) => {
            return Err(e);
        },
    };
    if market.state != MarketState::Cancelled {
        return Err(CryptoBetError::MarketNotCancelled);
    }
    if position.user != user {
        return Err(CryptoBetError::InvalidPosition);
    }
    if position.total_invested == 0 {
        return Err(CryptoBetError::NoRefundAvailable);
    }
    let refund_amount = position.total_invested;
    let transfer = match handles {
        AssetHandles::Native => TransferRequest {
            asset_class: market.market_type,
            from: market_key,
            to: user,
            amount: refund_amount,
        },
        AssetHandles::Token { user_account, vault } => TransferRequest {
            asset_class: market.market_type,
            from: vault.key,
            to: user_account.key,
            amount: refund_amount,
        },
    };
    position.yes_shares = 0;
    position.no_shares = 0;
    position.total_invested = 0;
    let event = RefundClaimed {
        market: market_key,
        user,
        amount: refund_amount,
        market_type: market.market_type,
    };
    Ok((transfer, event))
}

} // verus!
