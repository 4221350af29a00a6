//! Tests for pool creation, ticket purchase, redemption and staking.

use no_loss_lottery::pool::{initialize, ErrorCode, SwapOutcome, VaultManager};

fn fresh_pool(ticket_price: u64, draw_duration: u64) -> VaultManager {
    initialize(ticket_price, draw_duration, 0).unwrap()
}

#[test]
fn initialize_succeeds_with_valid_config() {
    let m = fresh_pool(100, 60);
    assert_eq!(m.ticket_price, 100);
    assert_eq!(m.draw_duration, 60);
    assert_eq!(m.cutoff_time, 0);
    assert_eq!(m.deposit_token_reserve, 1000);
    assert_eq!(m.max_result, u64::MAX);
    assert_eq!(m.circulating_ticket_supply, 0);
    assert_eq!(m.deposit_vault_balance, 0);
    assert_eq!(m.yield_vault_balance, 0);
    assert!(!m.locked);
    assert!(!m.awaiting_randomness);
    assert_eq!(m.winning_numbers, [0u8; 6]);
}

#[test]
fn initialize_keeps_explicit_result_bound() {
    let m = initialize(1, 1, 77).unwrap();
    assert_eq!(m.max_result, 77);
}

#[test]
fn initialize_rejects_zero_ticket_price() {
    assert_eq!(initialize(0, 60, 0).unwrap_err(), ErrorCode::InvalidTicketPrice);
}

#[test]
fn initialize_rejects_zero_draw_duration() {
    assert_eq!(initialize(100, 0, 0).unwrap_err(), ErrorCode::InvalidDrawDuration);
}

#[test]
fn buy_rejects_all_zero_numbers() {
    let mut m = fresh_pool(100, 60);
    assert_eq!(m.buy([0; 6], 1, 0).unwrap_err(), ErrorCode::InvalidNumbers);
    // The sentinel is rejected in any pool state, even a locked one.
    m.locked = true;
    m.winning_numbers = [1, 2, 3, 4, 5, 6];
    assert_eq!(m.buy([0; 6], 1, 0).unwrap_err(), ErrorCode::InvalidNumbers);
    m.locked = false;
    m.winning_numbers = [0; 6];
    m.buy([3, 1, 4, 1, 5, 9], 1, 0).unwrap();
    assert_eq!(m.buy([0; 6], 1, 0).unwrap_err(), ErrorCode::InvalidNumbers);
}

#[test]
fn buy_rejects_while_locked() {
    let mut m = fresh_pool(100, 60);
    m.locked = true;
    m.winning_numbers = [1, 2, 3, 4, 5, 6];
    assert_eq!(m.buy([7, 7, 7, 7, 7, 7], 1, 0).unwrap_err(), ErrorCode::PoolLocked);
}

#[test]
fn buy_accumulates_supply_and_deposits() {
    let mut m = fresh_pool(100, 60);
    m.buy([1, 2, 3, 4, 5, 6], 1, 5).unwrap();
    m.buy([2, 2, 2, 2, 2, 2], 2, 6).unwrap();
    m.buy([9, 8, 7, 6, 5, 4], 3, 7).unwrap();
    assert_eq!(m.circulating_ticket_supply, 3);
    assert_eq!(m.deposit_vault_balance, 300);
    // The first purchase armed the countdown; later ones left it alone.
    assert_eq!(m.cutoff_time, 65);
}

#[test]
fn buy_rejects_duplicate_numbers_until_redeemed() {
    let mut m = fresh_pool(100, 60);
    m.buy([1, 2, 3, 4, 5, 6], 1, 0).unwrap();
    assert_eq!(
        m.buy([1, 2, 3, 4, 5, 6], 2, 1).unwrap_err(),
        ErrorCode::DuplicateNumbers
    );
    m.redeem([1, 2, 3, 4, 5, 6], 1, SwapOutcome::Rejected).unwrap();
    // Once the ticket is gone the combination is purchasable again.
    m.buy([1, 2, 3, 4, 5, 6], 2, 2).unwrap();
    assert_eq!(m.circulating_ticket_supply, 1);
}

#[test]
fn buy_rejects_overflowing_deposits() {
    let mut m = fresh_pool(100, 60);
    m.deposit_vault_balance = u64::MAX - 50;
    assert_eq!(
        m.buy([1, 2, 3, 4, 5, 6], 1, 0).unwrap_err(),
        ErrorCode::AccountingError
    );
    assert_eq!(m.deposit_vault_balance, u64::MAX - 50);
    assert_eq!(m.circulating_ticket_supply, 0);
}

#[test]
fn redeem_returns_exactly_one_ticket_price() {
    let mut m = fresh_pool(100, 60);
    m.buy([1, 2, 3, 4, 5, 6], 1, 0).unwrap();
    m.buy([2, 2, 2, 2, 2, 2], 2, 1).unwrap();
    let paid = m.redeem([1, 2, 3, 4, 5, 6], 1, SwapOutcome::Rejected).unwrap();
    assert_eq!(paid, 100);
    assert_eq!(m.circulating_ticket_supply, 1);
    assert_eq!(m.deposit_vault_balance, 100);
}

#[test]
fn redeem_works_while_locked() {
    let mut m = fresh_pool(100, 60);
    m.buy([1, 2, 3, 4, 5, 6], 1, 0).unwrap();
    m.locked = true;
    m.winning_numbers = [9, 9, 9, 9, 9, 9];
    let paid = m.redeem([1, 2, 3, 4, 5, 6], 1, SwapOutcome::Rejected).unwrap();
    assert_eq!(paid, 100);
    assert!(m.locked);
}

#[test]
fn redeem_swaps_yield_back_when_underfunded() {
    let mut m = fresh_pool(100, 60);
    m.buy([1, 2, 3, 4, 5, 6], 1, 0).unwrap();
    // The principal leg was staked away; only the yield leg can cover
    // the redemption.
    m.deposit_vault_balance = 30;
    m.yield_vault_balance = 700;
    let paid = m.redeem([1, 2, 3, 4, 5, 6], 1, SwapOutcome::Filled(120)).unwrap();
    assert_eq!(paid, 100);
    // Five ticket prices went into the swap; the fill landed in the
    // principal vault before the payout left it.
    assert_eq!(m.yield_vault_balance, 200);
    assert_eq!(m.deposit_vault_balance, 50);
    assert_eq!(m.circulating_ticket_supply, 0);
}

#[test]
fn redeem_propagates_swap_failure() {
    let mut m = fresh_pool(100, 60);
    m.buy([1, 2, 3, 4, 5, 6], 1, 0).unwrap();
    m.deposit_vault_balance = 30;
    m.yield_vault_balance = 700;
    assert_eq!(
        m.redeem([1, 2, 3, 4, 5, 6], 1, SwapOutcome::Rejected).unwrap_err(),
        ErrorCode::SwapFailed
    );
    // The failure left everything untouched.
    assert_eq!(m.deposit_vault_balance, 30);
    assert_eq!(m.yield_vault_balance, 700);
    assert_eq!(m.circulating_ticket_supply, 1);
}

#[test]
fn redeem_fails_when_yield_leg_cannot_fund_swap() {
    let mut m = fresh_pool(100, 60);
    m.buy([1, 2, 3, 4, 5, 6], 1, 0).unwrap();
    m.deposit_vault_balance = 30;
    m.yield_vault_balance = 400; // below the five-ticket-price swap input
    assert_eq!(
        m.redeem([1, 2, 3, 4, 5, 6], 1, SwapOutcome::Filled(120)).unwrap_err(),
        ErrorCode::SwapFailed
    );
}

#[test]
fn redeem_rejects_overflowing_swap_fill() {
    let mut m = fresh_pool(100, 60);
    m.buy([1, 2, 3, 4, 5, 6], 1, 0).unwrap();
    m.deposit_vault_balance = 30;
    m.yield_vault_balance = 700;
    assert_eq!(
        m.redeem([1, 2, 3, 4, 5, 6], 1, SwapOutcome::Filled(u64::MAX)).unwrap_err(),
        ErrorCode::AccountingError
    );
    assert_eq!(m.deposit_vault_balance, 30);
    assert_eq!(m.circulating_ticket_supply, 1);
}

#[test]
fn stake_rejects_without_surplus() {
    let mut m = fresh_pool(100, 60);
    assert_eq!(m.stake(SwapOutcome::Filled(1)).unwrap_err(), ErrorCode::NotEnoughTokens);
    // A balance exactly at the reserve floor is still not enough.
    m.deposit_vault_balance = 1000;
    assert_eq!(m.stake(SwapOutcome::Filled(1)).unwrap_err(), ErrorCode::NotEnoughTokens);
}

#[test]
fn stake_moves_surplus_into_yield_leg() {
    let mut m = fresh_pool(100, 60);
    for i in 0..11u8 {
        m.buy([i + 1, 0, 0, 0, 0, i], 1, 0).unwrap();
    }
    assert_eq!(m.deposit_vault_balance, 1100);
    m.stake(SwapOutcome::Filled(60)).unwrap();
    assert_eq!(m.deposit_vault_balance, 1000);
    assert_eq!(m.yield_vault_balance, 60);
}

#[test]
fn stake_propagates_swap_failure() {
    let mut m = fresh_pool(100, 60);
    m.deposit_vault_balance = 1100;
    assert_eq!(m.stake(SwapOutcome::Rejected).unwrap_err(), ErrorCode::SwapFailed);
    assert_eq!(m.deposit_vault_balance, 1100);
    assert_eq!(m.yield_vault_balance, 0);
}

#[test]
fn stake_rejects_overflowing_yield_vault() {
    let mut m = fresh_pool(100, 60);
    m.deposit_vault_balance = 1100;
    m.yield_vault_balance = u64::MAX - 10;
    assert_eq!(
        m.stake(SwapOutcome::Filled(50)).unwrap_err(),
        ErrorCode::AccountingError
    );
}
