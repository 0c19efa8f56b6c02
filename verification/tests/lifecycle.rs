use crypto_bet::errors::CryptoBetError;
use crypto_bet::ops::{
    cancel_market, claim_refund, claim_winnings, initialize_market, place_bet, resolve_market,
};
use crypto_bet::state::{
    AccountId, BetSide, Market, MarketState, MarketType, Position, MAX_BET_AMOUNT,
};

const NOW: i64 = 1_000;

fn native_market(market_key: AccountId, authority: AccountId) -> Market {
    let (market, _) = initialize_market(
        market_key,
        authority,
        7,
        String::from("Will it rain tomorrow?"),
        String::from("Resolves yes if any rain falls."),
        String::from("weather"),
        NOW + 100,
        MarketType::Degen,
        NOW,
    )
    .unwrap();
    market
}

#[test]
fn scenario_sole_yes_holder_takes_whole_pool() {
    let authority = AccountId(1);
    let alice = AccountId(2);
    let bob = AccountId(3);
    let market_key = AccountId(100);
    let mut market = native_market(market_key, authority);
    assert_eq!(market.state, MarketState::Active);
    assert_eq!(market.created_at, NOW);

    let mut alice_pos = Position::new(alice, market_key);
    let (deposit, _) = place_bet(
        &mut market,
        &mut alice_pos,
        market_key,
        alice,
        BetSide::Yes,
        10_000_000,
        NOW + 1,
        None,
        None,
        false,
    )
    .unwrap();
    assert_eq!(deposit.from, alice);
    assert_eq!(deposit.to, market_key);
    assert_eq!(deposit.amount, 10_000_000);
    assert_eq!(deposit.asset_class, MarketType::Degen);

    let mut bob_pos = Position::new(bob, market_key);
    place_bet(
        &mut market,
        &mut bob_pos,
        market_key,
        bob,
        BetSide::No,
        5_000_000,
        NOW + 2,
        None,
        None,
        false,
    )
    .unwrap();

    // Past the deadline the authority resolves to yes.
    let resolved = resolve_market(&mut market, market_key, authority, true, NOW + 100).unwrap();
    assert_eq!(market.state, MarketState::Resolved);
    assert_eq!(market.resolved_outcome, Some(true));
    assert_eq!(resolved.total_volume, 15_000_000);

    // The sole yes holder receives the entire combined pool.
    let (payout, claimed) =
        claim_winnings(&market, &mut alice_pos, market_key, alice, None, None, false).unwrap();
    assert_eq!(payout.amount, 15_000_000);
    assert_eq!(payout.from, market_key);
    assert_eq!(payout.to, alice);
    assert_eq!(claimed.amount, 15_000_000);
    assert_eq!(alice_pos.yes_shares, 0);

    // The no staker holds nothing on the winning side.
    let err = claim_winnings(&market, &mut bob_pos, market_key, bob, None, None, false).unwrap_err();
    assert_eq!(err, CryptoBetError::NoWinningShares);
    assert_eq!(bob_pos.no_shares, 5_000_000);
}

#[test]
fn scenario_proportional_split_is_exact_when_divisible() {
    let authority = AccountId(1);
    let market_key = AccountId(101);
    let mut market = native_market(market_key, authority);
    let alice = AccountId(2);
    let bob = AccountId(3);
    let carol = AccountId(4);

    let mut alice_pos = Position::new(alice, market_key);
    let mut bob_pos = Position::new(bob, market_key);
    let mut carol_pos = Position::new(carol, market_key);
    place_bet(&mut market, &mut alice_pos, market_key, alice, BetSide::Yes, 10_000_000, NOW + 1, None, None, false).unwrap();
    place_bet(&mut market, &mut bob_pos, market_key, bob, BetSide::Yes, 30_000_000, NOW + 1, None, None, false).unwrap();
    place_bet(&mut market, &mut carol_pos, market_key, carol, BetSide::No, 20_000_000, NOW + 1, None, None, false).unwrap();
    assert_eq!(market.total_volume, 60_000_000);

    resolve_market(&mut market, market_key, authority, true, NOW + 100).unwrap();

    let (first, _) =
        claim_winnings(&market, &mut alice_pos, market_key, alice, None, None, false).unwrap();
    assert_eq!(first.amount, 15_000_000);
    let (second, _) =
        claim_winnings(&market, &mut bob_pos, market_key, bob, None, None, false).unwrap();
    assert_eq!(second.amount, 45_000_000);
    // The pool divides exactly here: no flooring residue.
    assert_eq!(first.amount + second.amount, 60_000_000);
}

#[test]
fn flooring_dust_stays_in_custody() {
    let authority = AccountId(1);
    let market_key = AccountId(102);
    let mut market = native_market(market_key, authority);
    let alice = AccountId(2);
    let bob = AccountId(3);
    let carol = AccountId(4);

    let mut alice_pos = Position::new(alice, market_key);
    let mut bob_pos = Position::new(bob, market_key);
    let mut carol_pos = Position::new(carol, market_key);
    place_bet(&mut market, &mut alice_pos, market_key, alice, BetSide::Yes, 1_000_000, NOW + 1, None, None, false).unwrap();
    place_bet(&mut market, &mut bob_pos, market_key, bob, BetSide::Yes, 2_000_000, NOW + 1, None, None, false).unwrap();
    place_bet(&mut market, &mut carol_pos, market_key, carol, BetSide::No, 1_000_000, NOW + 1, None, None, false).unwrap();

    resolve_market(&mut market, market_key, authority, true, NOW + 100).unwrap();

    // pool = 4_000_000 over 3_000_000 winning shares; each payout floors.
    let (first, _) =
        claim_winnings(&market, &mut alice_pos, market_key, alice, None, None, false).unwrap();
    let (second, _) =
        claim_winnings(&market, &mut bob_pos, market_key, bob, None, None, false).unwrap();
    assert_eq!(first.amount, 1_333_333);
    assert_eq!(second.amount, 2_666_666);
    // No over-payout: one unit of dust remains in custody, never reconciled.
    assert_eq!(first.amount + second.amount, 3_999_999);
    assert!(first.amount + second.amount <= market.total_volume);
}

#[test]
fn second_winnings_claim_is_rejected_without_transfer() {
    let authority = AccountId(1);
    let market_key = AccountId(103);
    let mut market = native_market(market_key, authority);
    let alice = AccountId(2);
    let mut alice_pos = Position::new(alice, market_key);
    place_bet(&mut market, &mut alice_pos, market_key, alice, BetSide::Yes, 10_000_000, NOW + 1, None, None, false).unwrap();
    resolve_market(&mut market, market_key, authority, true, NOW + 100).unwrap();

    claim_winnings(&market, &mut alice_pos, market_key, alice, None, None, false).unwrap();
    let snapshot = alice_pos;
    let err =
        claim_winnings(&market, &mut alice_pos, market_key, alice, None, None, false).unwrap_err();
    assert_eq!(err, CryptoBetError::NoWinningShares);
    // The rejected attempt changed nothing.
    assert_eq!(alice_pos, snapshot);
}

#[test]
fn scenario_cancelled_market_refunds_exact_investment_once() {
    let authority = AccountId(1);
    let market_key = AccountId(104);
    let mut market = native_market(market_key, authority);
    let alice = AccountId(2);
    let mut alice_pos = Position::new(alice, market_key);
    // Stakes on both sides all come back after cancellation.
    place_bet(&mut market, &mut alice_pos, market_key, alice, BetSide::Yes, 3_000_000, NOW + 1, None, None, false).unwrap();
    place_bet(&mut market, &mut alice_pos, market_key, alice, BetSide::No, 2_000_000, NOW + 2, None, None, false).unwrap();
    assert_eq!(alice_pos.total_invested, 5_000_000);

    let cancelled = cancel_market(&mut market, market_key, authority).unwrap();
    assert_eq!(market.state, MarketState::Cancelled);
    assert_eq!(market.resolved_outcome, None);
    assert_eq!(cancelled.total_volume, 5_000_000);

    let (refund, claimed) =
        claim_refund(&market, &mut alice_pos, market_key, alice, None, None, false).unwrap();
    assert_eq!(refund.amount, 5_000_000);
    assert_eq!(refund.from, market_key);
    assert_eq!(refund.to, alice);
    assert_eq!(claimed.amount, 5_000_000);
    assert_eq!(alice_pos.yes_shares, 0);
    assert_eq!(alice_pos.no_shares, 0);
    assert_eq!(alice_pos.total_invested, 0);

    let err =
        claim_refund(&market, &mut alice_pos, market_key, alice, None, None, false).unwrap_err();
    assert_eq!(err, CryptoBetError::NoRefundAvailable);
}

#[test]
fn conservation_and_parity_hold_at_every_step() {
    let authority = AccountId(1);
    let market_key = AccountId(105);
    let mut market = native_market(market_key, authority);
    let users = [AccountId(2), AccountId(3), AccountId(4), AccountId(5)];
    let sides = [BetSide::Yes, BetSide::No, BetSide::Yes, BetSide::No];
    let amounts: [u64; 4] = [1_000_000, 2_500_000, 7_000_000, 1_000_000];
    for i in 0..users.len() {
        let mut pos = Position::new(users[i], market_key);
        place_bet(&mut market, &mut pos, market_key, users[i], sides[i], amounts[i], NOW + 1, None, None, false).unwrap();
        assert_eq!(market.total_volume, market.total_yes_amount + market.total_no_amount);
        assert_eq!(market.total_yes_shares, market.total_yes_amount);
        assert_eq!(market.total_no_shares, market.total_no_amount);
    }
    assert_eq!(market.total_volume, 11_500_000);
}

#[test]
fn terminal_states_reject_every_mutating_operation() {
    let authority = AccountId(1);
    let alice = AccountId(2);

    // A resolved market rejects betting, re-resolution and cancellation.
    let market_key = AccountId(106);
    let mut market = native_market(market_key, authority);
    resolve_market(&mut market, market_key, authority, false, NOW + 100).unwrap();
    let mut pos = Position::new(alice, market_key);
    assert_eq!(
        place_bet(&mut market, &mut pos, market_key, alice, BetSide::Yes, 2_000_000, NOW + 101, None, None, false),
        Err(CryptoBetError::MarketNotActive)
    );
    assert_eq!(
        resolve_market(&mut market, market_key, authority, true, NOW + 200).unwrap_err(),
        CryptoBetError::MarketNotActive
    );
    assert_eq!(
        cancel_market(&mut market, market_key, authority).unwrap_err(),
        CryptoBetError::MarketNotActive
    );

    // A cancelled market rejects them too.
    let market_key = AccountId(107);
    let mut market = native_market(market_key, authority);
    cancel_market(&mut market, market_key, authority).unwrap();
    let mut pos = Position::new(alice, market_key);
    assert_eq!(
        place_bet(&mut market, &mut pos, market_key, alice, BetSide::Yes, 2_000_000, NOW + 1, None, None, false),
        Err(CryptoBetError::MarketNotActive)
    );
    assert_eq!(
        resolve_market(&mut market, market_key, authority, true, NOW + 200).unwrap_err(),
        CryptoBetError::MarketNotActive
    );
    assert_eq!(
        cancel_market(&mut market, market_key, authority).unwrap_err(),
        CryptoBetError::MarketNotActive
    );
}

#[test]
fn losing_side_wins_when_resolved_false() {
    let authority = AccountId(1);
    let market_key = AccountId(108);
    let mut market = native_market(market_key, authority);
    let alice = AccountId(2);
    let bob = AccountId(3);
    let mut alice_pos = Position::new(alice, market_key);
    let mut bob_pos = Position::new(bob, market_key);
    place_bet(&mut market, &mut alice_pos, market_key, alice, BetSide::Yes, 6_000_000, NOW + 1, None, None, false).unwrap();
    place_bet(&mut market, &mut bob_pos, market_key, bob, BetSide::No, 2_000_000, NOW + 1, None, None, false).unwrap();

    resolve_market(&mut market, market_key, authority, false, NOW + 100).unwrap();

    let (payout, _) =
        claim_winnings(&market, &mut bob_pos, market_key, bob, None, None, false).unwrap();
    assert_eq!(payout.amount, 8_000_000);
    assert_eq!(bob_pos.no_shares, 0);
    // The yes side stake is untouched by the no side's claim.
    assert_eq!(bob_pos.yes_shares, 0);
    assert_eq!(
        claim_winnings(&market, &mut alice_pos, market_key, alice, None, None, false).unwrap_err(),
        CryptoBetError::NoWinningShares
    );
}

#[test]
fn both_sides_position_wins_only_the_resolved_side() {
    let authority = AccountId(1);
    let market_key = AccountId(109);
    let mut market = native_market(market_key, authority);
    let alice = AccountId(2);
    let mut pos = Position::new(alice, market_key);
    place_bet(&mut market, &mut pos, market_key, alice, BetSide::Yes, 4_000_000, NOW + 1, None, None, false).unwrap();
    place_bet(&mut market, &mut pos, market_key, alice, BetSide::No, 1_000_000, NOW + 1, None, None, false).unwrap();
    assert_eq!(pos.yes_shares, 4_000_000);
    assert_eq!(pos.no_shares, 1_000_000);
    assert_eq!(pos.total_invested, 5_000_000);

    resolve_market(&mut market, market_key, authority, true, NOW + 100).unwrap();
    let (payout, _) =
        claim_winnings(&market, &mut pos, market_key, alice, None, None, false).unwrap();
    // Sole yes holder: the whole pool, including their own no stake.
    assert_eq!(payout.amount, 5_000_000);
    assert_eq!(pos.yes_shares, 0);
    // The losing-side counter stays; it carries no further claim.
    assert_eq!(pos.no_shares, 1_000_000);
    assert_eq!(
        claim_winnings(&market, &mut pos, market_key, alice, None, None, false).unwrap_err(),
        CryptoBetError::NoWinningShares
    );
}

#[test]
fn largest_allowed_stake_is_accepted() {
    let authority = AccountId(1);
    let market_key = AccountId(110);
    let mut market = native_market(market_key, authority);
    let alice = AccountId(2);
    let mut pos = Position::new(alice, market_key);
    place_bet(&mut market, &mut pos, market_key, alice, BetSide::Yes, MAX_BET_AMOUNT, NOW + 1, None, None, false).unwrap();
    assert_eq!(market.total_yes_amount, MAX_BET_AMOUNT);
    assert_eq!(pos.yes_shares, MAX_BET_AMOUNT);
}

#[test]
fn bet_event_carries_new_totals() {
    let authority = AccountId(1);
    let market_key = AccountId(111);
    let mut market = native_market(market_key, authority);
    let alice = AccountId(2);
    let bob = AccountId(3);
    let mut alice_pos = Position::new(alice, market_key);
    let mut bob_pos = Position::new(bob, market_key);
    place_bet(&mut market, &mut alice_pos, market_key, alice, BetSide::Yes, 2_000_000, NOW + 1, None, None, false).unwrap();
    let (_, event) = place_bet(&mut market, &mut bob_pos, market_key, bob, BetSide::No, 3_000_000, NOW + 1, None, None, false).unwrap();
    assert_eq!(event.market, market_key);
    assert_eq!(event.user, bob);
    assert_eq!(event.side, BetSide::No);
    assert_eq!(event.amount, 3_000_000);
    assert_eq!(event.shares, 3_000_000);
    assert_eq!(event.new_yes_total, 2_000_000);
    assert_eq!(event.new_no_total, 3_000_000);
    assert_eq!(event.market_type, MarketType::Degen);
}

#[test]
fn created_market_records_its_metadata() {
    let authority = AccountId(9);
    let market_key = AccountId(112);
    let (market, event) = initialize_market(
        market_key,
        authority,
        42,
        String::from("Title"),
        String::from("Description"),
        String::from("category"),
        NOW + 50,
        MarketType::Degen,
        NOW,
    )
    .unwrap();
    assert_eq!(market.authority, authority);
    assert_eq!(market.market_id, 42);
    assert_eq!(market.title, "Title");
    assert_eq!(market.description, "Description");
    assert_eq!(market.category, "category");
    assert_eq!(market.resolution_time, NOW + 50);
    assert_eq!(market.total_volume, 0);
    assert_eq!(market.resolved_outcome, None);
    assert_eq!(event.market, market_key);
    assert_eq!(event.market_id, 42);
    assert_eq!(event.title, "Title");
    assert_eq!(event.category, "category");
    assert_eq!(event.resolution_time, NOW + 50);
    assert_eq!(event.market_type, MarketType::Degen);
}
