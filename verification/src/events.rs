use vstd::prelude::*;

use crate::state::{AccountId, BetSide, MarketType};

verus! {

/// Notification payload for a newly created market.
#[derive(Clone, Debug, PartialEq, Eq)]
pub struct MarketCreated {
    pub market: AccountId,
    pub market_id: u64,
    pub title: String,
    pub category: String,
    pub resolution_time: i64,
    pub market_type: MarketType,
}

/// Notification payload for a placed stake, carrying the new per-side totals
/// for external observers.
#[derive(Clone, Copy, Debug, PartialEq, Eq, Structural)]
pub struct BetPlaced {
    pub market: AccountId,
    pub user: AccountId,
    pub side: BetSide,
    pub amount: u64,
    pub shares: u64,
    pub new_yes_total: u64,
    pub new_no_total: u64,
    pub market_type: MarketType,
}

/// Notification payload for a resolved market.
#[derive(Clone, Copy, Debug, PartialEq, Eq, Structural)]
pub struct MarketResolved {
    pub market: AccountId,
    pub outcome: bool,
    pub total_volume: u64,
    pub market_type: MarketType,
}

/// Notification payload for a cancelled market.
#[derive(Clone, Copy, Debug, PartialEq, Eq, Structural)]
pub struct MarketCancelled {
    pub market: AccountId,
    pub total_volume: u64,
    pub market_type: MarketType,
}

/// Notification payload for a paid winnings claim.
#[derive(Clone, Copy, Debug, PartialEq, Eq, Structural)]
pub struct WinningsClaimed {
    pub market: AccountId,
    pub user: AccountId,
    pub amount: u64,
    pub market_type: MarketType,
}

/// Notification payload for a paid refund.
#[derive(Clone, Copy, Debug, PartialEq, Eq, Structural)]
pub struct RefundClaimed {
    pub market: AccountId,
    pub user: AccountId,
    pub amount: u64,
    pub market_type: MarketType,
}

} // verus!
