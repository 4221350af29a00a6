//! Cross-operation laws of the lottery engine, stated over the same
//! spec-level predicates the operations' contracts use.

use vstd::prelude::*;

use crate::digits::{normalized_value, winning_digits};
use crate::pool::{buffer_all_zero, buy_accepted, buy_overflow, settles_to, VaultManager};
use crate::registry::{all_zero, holds_numbers};

verus! {

/// The reserved all-zero combination is never accepted for purchase,
/// whatever the pool state and the time.
pub proof fn lemma_zero_numbers_never_accepted(pre: VaultManager, numbers: [u8; 6], now: u64)
    requires
        all_zero(numbers),
    ensures
        !buy_accepted(pre, numbers, now),
{
}

/// While a live ticket holds a combination, buying it again is never
/// accepted: each combination has at most one holder at a time.
pub proof fn lemma_duplicate_numbers_never_accepted(
    pre: VaultManager,
    numbers: [u8; 6],
    now: u64,
)
    requires
        holds_numbers(pre.tickets@, numbers),
    ensures
        !buy_accepted(pre, numbers, now),
{
}

/// Once no live ticket holds a combination — because it was redeemed, or
/// never bought — the combination is purchasable again on an unlocked
/// pool, as long as no counter would overflow.
pub proof fn lemma_released_numbers_accepted(pre: VaultManager, numbers: [u8; 6], now: u64)
    requires
        !all_zero(numbers),
        !pre.locked,
        !holds_numbers(pre.tickets@, numbers),
        !buy_overflow(pre, now),
    ensures
        buy_accepted(pre, numbers, now),
{
}

/// Ticket count and principal deposits grow in lockstep: when a pool
/// holds `k` more tickets and `k` ticket prices more deposits than
/// `base`, one further successful purchase (whose deltas are exactly the
/// ones `buy` ensures) makes that `k + 1` of each.
pub proof fn lemma_purchases_accumulate(
    base: VaultManager,
    pre: VaultManager,
    post: VaultManager,
    k: nat,
)
    requires
        pre.ticket_price == base.ticket_price,
        pre.circulating_ticket_supply == base.circulating_ticket_supply + k,
        pre.deposit_vault_balance == base.deposit_vault_balance + k * base.ticket_price,
        post.ticket_price == pre.ticket_price,
        post.circulating_ticket_supply == pre.circulating_ticket_supply + 1,
        post.deposit_vault_balance == pre.deposit_vault_balance + pre.ticket_price,
    ensures
        post.ticket_price == base.ticket_price,
        post.circulating_ticket_supply == base.circulating_ticket_supply + (k + 1),
        post.deposit_vault_balance == base.deposit_vault_balance + (k + 1) * base.ticket_price,
{
    assert((k + 1) * base.ticket_price == k * base.ticket_price + base.ticket_price)
        by (nonlinear_arith);
}

/// Settlement is deterministic: two unlocked pools with the same scalar
/// bound that consume the same fresh buffer derive the same winning
/// combination, namely the digits of the buffer's normalized value.
pub proof fn lemma_settlement_deterministic(
    pre1: VaultManager,
    post1: VaultManager,
    pre2: VaultManager,
    post2: VaultManager,
    buffer: [u8; 32],
)
    requires
        settles_to(pre1, buffer, post1),
        settles_to(pre2, buffer, post2),
        pre1.max_result == pre2.max_result,
        !pre1.locked,
        !pre2.locked,
        !buffer_all_zero(buffer),
        buffer != pre1.last_result_buffer,
        buffer != pre2.last_result_buffer,
    ensures
        post1.winning_numbers == post2.winning_numbers,
        post1.winning_numbers@ == winning_digits(normalized_value(buffer@, pre1.max_result)),
{
    assert(post1.winning_numbers =~= post2.winning_numbers);
}

} // verus!
