use vstd::prelude::*;

verus! {

/// Smallest stake an operation accepts, in base units of the accepted asset.
pub const MIN_BET_AMOUNT: u64 = 1_000_000;

/// Largest stake an operation accepts, in base units of the accepted asset.
pub const MAX_BET_AMOUNT: u64 = 1_000_000_000_000;

/// Longest market title, in characters.
pub const MAX_TITLE_LEN: usize = 100;

/// Longest market description, in characters.
pub const MAX_DESCRIPTION_LEN: usize = 500;

/// Longest market category, in characters.
pub const MAX_CATEGORY_LEN: usize = 50;

/// Identity of an account in the host ledger: a participant, a market record,
/// a token account or a mint. The core only ever compares identities, so the
/// host's wide addresses are carried as one opaque word.
#[derive(Clone, Copy, Debug, PartialEq, Eq, Structural)]
pub struct AccountId(pub u64);

/// Raw identity word of the asset every native-asset market accepts.
pub const SOL_MINT: u64 = 0;

/// Raw identity word of the asset every fungible-token market accepts.
pub const USDC_MINT: u64 = 1;

/// Lifecycle state of a market. `Active` is the only state that admits
/// mutation by betting, resolution or cancellation; `Resolved` and
/// `Cancelled` are terminal.
#[derive(Clone, Copy, Debug, PartialEq, Eq, Structural)]
pub enum MarketState {
    Active,
    Resolved,
    Cancelled,
}

/// Asset class of a market, fixed at creation: `Degen` markets move the
/// native value unit, `Stable` markets move a fungible ledger-tracked token.
#[derive(Clone, Copy, Debug, PartialEq, Eq, Structural)]
pub enum MarketType {
    Degen,
    Stable,
}

/// The side of a binary market a stake is placed on.
#[derive(Clone, Copy, Debug, PartialEq, Eq, Structural)]
pub enum BetSide {
    Yes,
    No,
}

/// What the core reads of a fungible-token account record: its address and
/// the mint (asset identity) whose units it holds.
#[derive(Clone, Copy, Debug, PartialEq, Eq, Structural)]
pub struct TokenAccountInfo {
    pub key: AccountId,
    pub mint: AccountId,
}

/// The per-asset-class account handles a transferring operation works with,
/// resolved once at the top of the operation: native markets need none, token
/// markets need the participant's token account and the market's vault.
#[derive(Clone, Copy, Debug, PartialEq, Eq, Structural)]
pub enum AssetHandles {
    Native,
    Token { user_account: TokenAccountInfo, vault: TokenAccountInfo },
}

/// A value movement the host's transfer service must perform atomically with
/// the record mutations of the operation that returned it: `amount` base
/// units of the asset class move from `from` to `to`, fully or not at all.
#[derive(Clone, Copy, Debug, PartialEq, Eq, Structural)]
pub struct TransferRequest {
    pub asset_class: MarketType,
    pub from: AccountId,
    pub to: AccountId,
    pub amount: u64,
}

/// One proposition with a binary outcome: its immutable metadata, its
/// cumulative stake counters and its resolution state.
#[derive(Clone, Debug, PartialEq, Eq)]
pub struct Market {
    pub authority: AccountId,
    pub market_id: u64,
    pub title: String,
    pub description: String,
    pub category: String,
    pub resolution_time: i64,
    pub state: MarketState,
    pub market_type: MarketType,
    pub accepted_mint: AccountId,
    pub total_yes_amount: u64,
    pub total_no_amount: u64,
    pub total_yes_shares: u64,
    pub total_no_shares: u64,
    pub total_volume: u64,
    pub resolved_outcome: Option<bool>,
    pub created_at: i64,
}

/// One participant's stake record within one market. Created zeroed on the
/// participant's first stake; never deleted. A successful claim or refund
/// zeroes the relevant counters in place, which is the sole mechanism that
/// rejects a repeated claim.
#[derive(Clone, Copy, Debug, PartialEq, Eq, Structural)]
pub struct Position {
    pub user: AccountId,
    pub market: AccountId,
    pub yes_shares: u64,
    pub no_shares: u64,
    pub total_invested: u64,
}

/// The asset identity a market of the given class accepts.
pub open spec fn spec_accepted_mint_for(market_type: MarketType) -> AccountId {
    match market_type {
        MarketType::Degen => AccountId(SOL_MINT),
        MarketType::Stable => AccountId(USDC_MINT),
    }
}

/// The asset identity a market of the given class accepts.
#[verifier::when_used_as_spec(spec_accepted_mint_for)]
pub fn accepted_mint_for(market_type: MarketType) -> (r: AccountId)
    ensures
        r == spec_accepted_mint_for(market_type),
{
    match market_type {
        MarketType::Degen => AccountId(SOL_MINT),
        MarketType::Stable => AccountId(USDC_MINT),
    }
}

impl Market {
    /// Conservation: the volume counter equals the sum of the two per-side
    /// stake pools, at every observation point.
    pub open spec fn volume_conserved(self) -> bool {
        self.total_volume == self.total_yes_amount + self.total_no_amount
    }

    /// Share-amount parity: under the fixed 1:1 issue ratio, each side's
    /// share counter equals that side's stake pool.
    pub open spec fn share_parity(self) -> bool {
        &&& self.total_yes_shares == self.total_yes_amount
        &&& self.total_no_shares == self.total_no_amount
    }

    /// A recorded outcome exists exactly while the market is resolved;
    /// cancelled and active markets carry none.
    pub open spec fn outcome_matches_state(self) -> bool {
        self.resolved_outcome is Some <==> self.state == MarketState::Resolved
    }

    /// The immutable text fields respect their creation-time bounds.
    pub open spec fn metadata_within_bounds(self) -> bool {
        &&& self.title@.len() <= MAX_TITLE_LEN
        &&& self.description@.len() <= MAX_DESCRIPTION_LEN
        &&& self.category@.len() <= MAX_CATEGORY_LEN
    }

    /// The accepted asset identity agrees with the market's asset class.
    pub open spec fn mint_matches_class(self) -> bool {
        self.accepted_mint == spec_accepted_mint_for(self.market_type)
    }

    /// Well-formedness of a market record: established by market creation and
    /// preserved by every settlement operation.
    pub open spec fn wf(self) -> bool {
        &&& self.volume_conserved()
        &&& self.share_parity()
        &&& self.outcome_matches_state()
        &&& self.metadata_within_bounds()
        &&& self.mint_matches_class()
    }
}

impl Position {
    /// A fresh, zero-share position for `user` in the market record at
    /// `market`. The host's record store creates one the first time a
    /// participant stakes in a market.
    pub fn new(user: AccountId, market: AccountId) -> (p: Position)
        ensures
            p == (Position { user, market, yes_shares: 0, no_shares: 0, total_invested: 0 }),
    {
        Position { user, market, yes_shares: 0, no_shares: 0, total_invested: 0 }
    }
}

/// Cross-record accounting coherence: a position's counters never exceed the
/// market totals they were added into. Holds of every position the record
/// store hands an operation, because each counter of a position only ever
/// grows in step with its market-level counterpart.
pub open spec fn position_consistent(m: Market, p: Position) -> bool {
    &&& p.yes_shares <= m.total_yes_shares
    &&& p.no_shares <= m.total_no_shares
    &&& p.total_invested <= m.total_volume
}

} // verus!
