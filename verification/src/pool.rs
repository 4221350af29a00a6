//! The pool manager: configuration, vault balances, draw cycle and ticket
//! accounting for one lottery instance.
//!
//! The pool owns both vault balances and is their only legitimate mutator.
//! External collaborators — the asset ledger, the swap venue, the clock and
//! the randomness oracle — act outside the library; their observations
//! (the current time, a delivered randomness buffer, a swap outcome) enter
//! every operation as plain arguments, and each operation is verified for
//! every value they can take.

use vstd::prelude::*;

use crate::digits::{normalized_value, normalize_buffer, scalar_to_digits, winning_digits};
use crate::registry::{
    all_zero, holds_numbers, holds_numbers_for, lemma_unique_owner, numbers_all_zero,
    numbers_equal, Ticket, TicketRegistry,
};

verus! {

/// Why a pool operation was rejected.  Every rejection leaves the pool
/// exactly as it was.
#[derive(Clone, Copy, Debug, PartialEq, Eq, Structural)]
pub enum ErrorCode {
    /// A pool cannot be created with a zero ticket price.
    InvalidTicketPrice,
    /// A pool cannot be created with a zero draw interval.
    InvalidDrawDuration,
    /// The all-zero combination is the reserved empty-slot sentinel and
    /// cannot be bought.
    InvalidNumbers,
    /// New purchases are rejected while a settled draw awaits dispensing.
    PoolLocked,
    /// A live ticket already holds the requested combination.
    DuplicateNumbers,
    /// A draw cannot be requested before any ticket has been bought.
    NoTicketsPurchased,
    /// A randomness request is already outstanding.
    AcquiringRandomness,
    /// The draw interval has not elapsed yet.
    TimeRemaining,
    /// The dispense crank was handed a combination other than the winning
    /// one.
    WrongNumbers,
    /// The payout destination does not belong to the winning ticket's
    /// holder.
    WinnerMismatch,
    /// The swap venue could not deliver the requested minimum output.
    SwapFailed,
    /// The principal vault holds no surplus above the reserve floor.
    NotEnoughTokens,
    /// The operation would overflow or underflow the pool's accounting.
    AccountingError,
}

/// What the swap venue reported for one requested trade.  The venue is
/// atomic: it either fills the whole trade, delivering at least the
/// requested minimum output, or rejects it without moving anything.
#[derive(Clone, Copy, Debug, PartialEq, Eq, Structural)]
pub enum SwapOutcome {
    /// The trade executed and returned this many output tokens.
    Filled(u64),
    /// The venue could not meet the requested minimum output.
    Rejected,
}

/// True when the venue outcome respects the atomicity contract for a trade
/// with minimum output `min`: a fill delivers at least `min`.
pub open spec fn meets_minimum(swap: SwapOutcome, min: u64) -> bool {
    swap matches SwapOutcome::Filled(out) ==> out >= min
}

/// The number of output tokens a venue outcome delivered; zero for a
/// rejected trade.
pub open spec fn fill_amount(swap: SwapOutcome) -> u64 {
    match swap {
        SwapOutcome::Filled(out) => out,
        SwapOutcome::Rejected => 0,
    }
}

/// True when every digit of the combination is at most 9.
pub open spec fn digits_valid(numbers: [u8; 6]) -> bool {
    forall|i: int| 0 <= i < 6 ==> numbers[i] <= 9
}

/// True when every byte of a randomness buffer is zero, meaning the oracle
/// has not answered yet.
pub open spec fn buffer_all_zero(buffer: [u8; 32]) -> bool {
    forall|i: int| 0 <= i < 32 ==> buffer[i] == 0
}

/// Checks whether a randomness buffer is still unanswered (all zero).
pub fn buffer_is_all_zero(buffer: &[u8; 32]) -> (r: bool)
    ensures
        r <==> buffer_all_zero(*buffer),
{
    let mut i: usize = 0;
    while i < 32
        invariant
            i <= 32,
            forall|k: int| 0 <= k < i ==> buffer[k] == 0,
        decreases 32 - i,
    {
        if buffer[i] != 0 {
            return false;
        }
        i = i + 1;
    }
    true
}

/// Checks two randomness buffers for equality.
pub fn buffers_equal(a: &[u8; 32], b: &[u8; 32]) -> (r: bool)
    ensures
        r <==> *a == *b,
{
    let mut i: usize = 0;
    while i < 32
        invariant
            i <= 32,
            forall|k: int| 0 <= k < i ==> a[k] == b[k],
        decreases 32 - i,
    {
        if a[i] != b[i] {
            return false;
        }
        i = i + 1;
    }
    proof {
        assert(*a =~= *b);
    }
    true
}

/// One lottery instance: configuration, the two vault balances, the draw
/// cycle state and the registry of live tickets.
#[derive(Debug)]
pub struct VaultManager {
    /// Cost of one ticket, in principal-asset units; always positive.
    pub ticket_price: u64,
    /// Seconds between draws; always positive.
    pub draw_duration: u64,
    /// Minimum principal balance kept out of staking; ten ticket prices.
    pub deposit_token_reserve: u64,
    /// Exclusive upper bound for the normalized draw scalar.
    pub max_result: u64,
    /// Time of the next draw; zero until the first ticket is bought.
    pub cutoff_time: u64,
    /// True from randomness settlement until dispense; blocks purchases.
    pub locked: bool,
    /// True from a randomness request until the answer is consumed.
    pub awaiting_randomness: bool,
    /// The current winning combination; meaningful only while locked.
    pub winning_numbers: [u8; 6],
    /// The last drawn combination, kept for external queries.
    pub previous_winning_numbers: [u8; 6],
    /// Number of live tickets; rises on buy, falls on redeem.
    pub circulating_ticket_supply: u64,
    /// Balance of the principal-asset vault.
    pub deposit_vault_balance: u64,
    /// Balance of the yield-asset vault.
    pub yield_vault_balance: u64,
    /// The last randomness buffer consumed; guards against replays.
    pub last_result_buffer: [u8; 32],
    /// The last normalized draw scalar.
    pub last_result: u64,
    /// The live tickets of this pool, keyed by combination.
    pub tickets: TicketRegistry,
}

impl VaultManager {
    /// The pool's internal invariant: positive configuration, the reserve
    /// floor pinned to ten ticket prices, the ticket count in lockstep
    /// with the registry, and winning numbers that are real digits and
    /// are zeroed out whenever the pool is unlocked.
    pub open spec fn wf(&self) -> bool {
        &&& self.ticket_price >= 1
        &&& self.draw_duration >= 1
        &&& self.deposit_token_reserve == 10 * self.ticket_price
        &&& self.max_result >= 1
        &&& self.circulating_ticket_supply == self.tickets@.len()
        &&& self.tickets.wf()
        &&& digits_valid(self.winning_numbers)
        &&& digits_valid(self.previous_winning_numbers)
        &&& !self.locked ==> all_zero(self.winning_numbers)
    }
}

/// The prize owed to a winner once the yield leg has been liquidated:
/// whatever the principal vault holds above the amount owed back to all
/// ticket holders, and nothing when there is no surplus.
pub open spec fn spec_prize(
    tickets_supply: u64,
    ticket_price: u64,
    deposit_vault_amount: u64,
) -> int {
    if tickets_supply * ticket_price >= deposit_vault_amount {
        0
    } else {
        deposit_vault_amount - tickets_supply * ticket_price
    }
}

/// Computes the winner's prize from the ticket supply, the ticket price
/// and the principal vault balance after the yield leg was swapped back.
pub fn calculate_prize(
    tickets_supply: u64,
    ticket_price: u64,
    deposit_vault_amount: u64,
) -> (r: u64)
    ensures
        r == spec_prize(tickets_supply, ticket_price, deposit_vault_amount),
        r <= deposit_vault_amount,
{
    match tickets_supply.checked_mul(ticket_price) {
        Some(owed) => {
            if owed >= deposit_vault_amount {
                0
            } else {
                deposit_vault_amount - owed
            }
        },
        None => {
            proof {
                assert(tickets_supply * ticket_price > u64::MAX);
            }
            0
        },
    }
}

/// Creates a pool.  The ticket price and the draw interval must both be
/// positive; the draw scalar bound defaults to the largest representable
/// value when zero is passed.  The first draw is not scheduled until a
/// ticket is bought.
pub fn initialize(ticket_price: u64, draw_duration: u64, max_result: u64) -> (r: Result<
    VaultManager,
    ErrorCode,
>)
    requires
        ticket_price <= u64::MAX / 10,
    ensures
        (r matches Err(e) && e == ErrorCode::InvalidTicketPrice) <==> ticket_price == 0,
        (r matches Err(e) && e == ErrorCode::InvalidDrawDuration) <==> (ticket_price > 0
            && draw_duration == 0),
        (r matches Ok(_)) <==> (ticket_price > 0 && draw_duration > 0),
        r matches Ok(m) ==> {
            &&& m.wf()
            &&& m.ticket_price == ticket_price
            &&& m.draw_duration == draw_duration
            &&& m.deposit_token_reserve == 10 * ticket_price
            &&& m.max_result == (if max_result == 0 {
                u64::MAX
            } else {
                max_result
            })
            &&& m.cutoff_time == 0
            &&& !m.locked
            &&& !m.awaiting_randomness
            &&& m.circulating_ticket_supply == 0
            &&& m.deposit_vault_balance == 0
            &&& m.yield_vault_balance == 0
            &&& m.tickets@.len() == 0
            &&& all_zero(m.winning_numbers)
            &&& all_zero(m.previous_winning_numbers)
            &&& buffer_all_zero(m.last_result_buffer)
            &&& m.last_result == 0
        },
{
    if ticket_price == 0 {
        return Err(ErrorCode::InvalidTicketPrice);
    }
    if draw_duration == 0 {
        return Err(ErrorCode::InvalidDrawDuration);
    }
    let bound = if max_result == 0 {
        u64::MAX
    } else {
        max_result
    };
    Ok(
        VaultManager {
            ticket_price,
            draw_duration,
            deposit_token_reserve: 10 * ticket_price,
            max_result: bound,
            cutoff_time: 0,
            locked: false,
            awaiting_randomness: false,
            winning_numbers: [0u8; 6],
            previous_winning_numbers: [0u8; 6],
            circulating_ticket_supply: 0,
            deposit_vault_balance: 0,
            yield_vault_balance: 0,
            last_result_buffer: [0u8; 32],
            last_result: 0,
            tickets: TicketRegistry::new(),
        },
    )
}

/// True when the two states carry the same pool configuration.
pub open spec fn same_config(a: VaultManager, b: VaultManager) -> bool {
    &&& a.ticket_price == b.ticket_price
    &&& a.draw_duration == b.draw_duration
    &&& a.deposit_token_reserve == b.deposit_token_reserve
    &&& a.max_result == b.max_result
}

/// True when the two states carry the same consumed-randomness record.
pub open spec fn same_randomness_record(a: VaultManager, b: VaultManager) -> bool {
    &&& a.last_result_buffer == b.last_result_buffer
    &&& a.last_result == b.last_result
}

/// True when the two states carry the same tickets and ticket count.
pub open spec fn same_tickets(a: VaultManager, b: VaultManager) -> bool {
    &&& a.tickets@ == b.tickets@
    &&& a.circulating_ticket_supply == b.circulating_ticket_supply
}

/// True when the two states carry the same vault balances.
pub open spec fn same_balances(a: VaultManager, b: VaultManager) -> bool {
    &&& a.deposit_vault_balance == b.deposit_vault_balance
    &&& a.yield_vault_balance == b.yield_vault_balance
}

/// True when some step of a purchase would overflow the pool's counters:
/// the ticket count, the principal vault balance, or the first-draw
/// deadline `now + draw_duration`.
pub open spec fn buy_overflow(pre: VaultManager, now: u64) -> bool {
    ||| pre.circulating_ticket_supply + 1 > u64::MAX
    ||| pre.deposit_vault_balance + pre.ticket_price > u64::MAX
    ||| (pre.cutoff_time == 0 && now + pre.draw_duration > u64::MAX)
}

/// True when a purchase of `numbers` at time `now` is accepted on pool
/// state `pre`: the combination is not the zero sentinel, the pool is not
/// locked, no live ticket already holds the combination, and no counter
/// overflows.
pub open spec fn buy_accepted(pre: VaultManager, numbers: [u8; 6], now: u64) -> bool {
    &&& !all_zero(numbers)
    &&& !pre.locked
    &&& !holds_numbers(pre.tickets@, numbers)
    &&& !buy_overflow(pre, now)
}

impl VaultManager {
    /// Buys a ticket for `numbers` on behalf of `owner` at time `now`.
    ///
    /// On success the buyer has paid one ticket price into the principal
    /// vault, a live ticket records the combination, the circulating
    /// supply has grown by one, and — if this was the pool's first ticket —
    /// the first draw is scheduled one draw interval from now.  Any
    /// rejection leaves the pool untouched.
    pub fn buy(&mut self, numbers: [u8; 6], owner: u64, now: u64) -> (r: Result<(), ErrorCode>)
        requires
            old(self).wf(),
        ensures
            final(self).wf(),
            r matches Err(_) ==> *final(self) == *old(self),
            (r matches Err(e) && e == ErrorCode::InvalidNumbers) <==> all_zero(numbers),
            (r matches Err(e) && e == ErrorCode::PoolLocked) <==> (!all_zero(numbers) && old(
                self,
            ).locked),
            (r matches Err(e) && e == ErrorCode::DuplicateNumbers) <==> (!all_zero(numbers)
                && !old(self).locked && holds_numbers(old(self).tickets@, numbers)),
            (r matches Err(e) && e == ErrorCode::AccountingError) <==> (!all_zero(numbers)
                && !old(self).locked && !holds_numbers(old(self).tickets@, numbers)
                && buy_overflow(*old(self), now)),
            (r matches Ok(_)) <==> buy_accepted(*old(self), numbers, now),
            r matches Ok(_) ==> {
                &&& final(self).circulating_ticket_supply == old(self).circulating_ticket_supply
                    + 1
                &&& final(self).deposit_vault_balance == old(self).deposit_vault_balance + old(
                    self,
                ).ticket_price
                &&& final(self).cutoff_time == (if old(self).cutoff_time == 0 {
                    now + old(self).draw_duration
                } else {
                    old(self).cutoff_time as int
                })
                &&& final(self).tickets@ == old(self).tickets@.push(
                    Ticket { owner, numbers },
                )
                &&& holds_numbers_for(final(self).tickets@, numbers, owner)
                &&& final(self).ticket_price == old(self).ticket_price
                &&& final(self).draw_duration == old(self).draw_duration
                &&& final(self).deposit_token_reserve == old(self).deposit_token_reserve
                &&& final(self).max_result == old(self).max_result
                &&& final(self).locked == old(self).locked
                &&& final(self).awaiting_randomness == old(self).awaiting_randomness
                &&& final(self).winning_numbers == old(self).winning_numbers
                &&& final(self).previous_winning_numbers == old(self).previous_winning_numbers
                &&& final(self).yield_vault_balance == old(self).yield_vault_balance
                &&& final(self).last_result_buffer == old(self).last_result_buffer
                &&& final(self).last_result == old(self).last_result
            },
    {
        if numbers_all_zero(&numbers) {
            return Err(ErrorCode::InvalidNumbers);
        }
        if self.locked {
            return Err(ErrorCode::PoolLocked);
        }
        match self.tickets.find(&numbers) {
            Some(_) => {
                return Err(ErrorCode::DuplicateNumbers);
            },
            None => {},
        }
        if self.circulating_ticket_supply == u64::MAX {
            return Err(ErrorCode::AccountingError);
        }
        if self.deposit_vault_balance > u64::MAX - self.ticket_price {
            return Err(ErrorCode::AccountingError);
        }
        if self.cutoff_time == 0 {
            if now > u64::MAX - self.draw_duration {
                return Err(ErrorCode::AccountingError);
            }
            self.cutoff_time = now + self.draw_duration;
        }
        self.deposit_vault_balance = self.deposit_vault_balance + self.ticket_price;
        self.circulating_ticket_supply = self.circulating_ticket_supply + 1;
        self.tickets.insert(Ticket { owner, numbers });
        proof {
            assert(final(self).tickets@.last() == (Ticket { owner, numbers }));
        }
        Ok(())
    }

    /// Requests a draw at time `now`: permitted once tickets exist, the
    /// pool is unlocked, no randomness request is outstanding, and the
    /// draw deadline has passed.  On success the pool awaits the oracle's
    /// answer; the caller is expected to issue the actual randomness
    /// request to the oracle.
    pub fn draw(&mut self, now: u64) -> (r: Result<(), ErrorCode>)
        requires
            old(self).wf(),
        ensures
            final(self).wf(),
            r matches Err(_) ==> *final(self) == *old(self),
            (r matches Err(e) && e == ErrorCode::NoTicketsPurchased) <==> old(self).cutoff_time
                == 0,
            (r matches Err(e) && e == ErrorCode::PoolLocked) <==> (old(self).cutoff_time != 0
                && old(self).locked),
            (r matches Err(e) && e == ErrorCode::AcquiringRandomness) <==> (old(self).cutoff_time
                != 0 && !old(self).locked && old(self).awaiting_randomness),
            (r matches Err(e) && e == ErrorCode::TimeRemaining) <==> (old(self).cutoff_time != 0
                && !old(self).locked && !old(self).awaiting_randomness && now < old(
                self,
            ).cutoff_time),
            (r matches Ok(_)) <==> (old(self).cutoff_time != 0 && !old(self).locked && !old(
                self,
            ).awaiting_randomness && now >= old(self).cutoff_time),
            r matches Ok(_) ==> {
                &&& final(self).awaiting_randomness
                &&& same_config(*old(self), *final(self))
                &&& same_randomness_record(*old(self), *final(self))
                &&& same_tickets(*old(self), *final(self))
                &&& same_balances(*old(self), *final(self))
                &&& final(self).cutoff_time == old(self).cutoff_time
                &&& final(self).locked == old(self).locked
                &&& final(self).winning_numbers == old(self).winning_numbers
                &&& final(self).previous_winning_numbers == old(self).previous_winning_numbers
            },
    {
        if self.cutoff_time == 0 {
            return Err(ErrorCode::NoTicketsPurchased);
        }
        if self.locked {
            return Err(ErrorCode::PoolLocked);
        }
        if self.awaiting_randomness {
            return Err(ErrorCode::AcquiringRandomness);
        }
        if now < self.cutoff_time {
            return Err(ErrorCode::TimeRemaining);
        }
        self.awaiting_randomness = true;
        Ok(())
    }
}

/// The settlement transition: how consuming the randomness buffer
/// `buffer` turns pool state `pre` into `post`.
///
/// An all-zero buffer (the oracle has not answered) and a replayed buffer
/// (already consumed) leave the pool exactly as it was.  A fresh buffer is
/// normalized to a scalar below `max_result`; the scalar is recorded, and
/// — unless a settled draw is already waiting to be dispensed — its six
/// digits become the winning combination and the pool locks.
pub open spec fn settles_to(pre: VaultManager, buffer: [u8; 32], post: VaultManager) -> bool {
    if buffer_all_zero(buffer) || buffer == pre.last_result_buffer {
        post == pre
    } else {
        let result = normalized_value(buffer@, pre.max_result);
        &&& same_config(pre, post)
        &&& same_tickets(pre, post)
        &&& same_balances(pre, post)
        &&& post.cutoff_time == pre.cutoff_time
        &&& post.last_result == result
        &&& post.last_result_buffer == (if result != pre.last_result {
            buffer
        } else {
            pre.last_result_buffer
        })
        &&& if !pre.locked {
            &&& post.winning_numbers@ == winning_digits(result)
            &&& post.previous_winning_numbers@ == winning_digits(result)
            &&& post.locked
            &&& !post.awaiting_randomness
        } else {
            &&& post.winning_numbers == pre.winning_numbers
            &&& post.previous_winning_numbers == pre.previous_winning_numbers
            &&& post.locked == pre.locked
            &&& post.awaiting_randomness == pre.awaiting_randomness
        }
    }
}

impl VaultManager {
    /// Consumes a delivered randomness buffer, as [`settles_to`]
    /// describes.  Polling is harmless: an unanswered (all-zero) or
    /// already-consumed buffer changes nothing, and the derived winning
    /// combination is a pure function of the buffer and the pool's scalar
    /// bound, so one buffer always yields one outcome.
    pub fn settle_randomness(&mut self, buffer: &[u8; 32])
        requires
            old(self).wf(),
        ensures
            final(self).wf(),
            settles_to(*old(self), *buffer, *final(self)),
            buffer_all_zero(*buffer) ==> *final(self) == *old(self),
    {
        if buffer_is_all_zero(buffer) {
            return ;
        }
        if buffers_equal(buffer, &self.last_result_buffer) {
            return ;
        }
        let result = normalize_buffer(buffer, self.max_result);
        if result != self.last_result {
            self.last_result_buffer = *buffer;
            self.last_result = result;
        }
        if !self.locked {
            let digits = scalar_to_digits(result);
            self.winning_numbers = digits;
            self.previous_winning_numbers = digits;
            self.locked = true;
            self.awaiting_randomness = false;
        }
    }
}

/// True when the principal vault cannot cover a redemption by itself, so
/// the yield leg must be swapped back first.
pub open spec fn redeem_needs_swap(pre: VaultManager) -> bool {
    pre.deposit_vault_balance < pre.ticket_price
}

impl VaultManager {
    /// Redeems the live ticket at `numbers` for `caller`, who must own
    /// it.  The caller always gets exactly one ticket price back and the
    /// circulating supply falls by one; the combination becomes
    /// purchasable again.  Redemption works regardless of the lock state.
    ///
    /// When the principal vault is short, five ticket prices of the yield
    /// leg are swapped back with a minimum output of one ticket price
    /// (`swap` is the venue's outcome for that trade); a rejected or
    /// unfundable swap fails the redemption with the pool untouched.
    pub fn redeem(&mut self, numbers: [u8; 6], caller: u64, swap: SwapOutcome) -> (r: Result<
        u64,
        ErrorCode,
    >)
        requires
            old(self).wf(),
            holds_numbers_for(old(self).tickets@, numbers, caller),
            redeem_needs_swap(*old(self)) ==> meets_minimum(swap, old(self).ticket_price),
        ensures
            final(self).wf(),
            r matches Err(_) ==> *final(self) == *old(self),
            (r matches Err(e) && e == ErrorCode::SwapFailed) <==> (redeem_needs_swap(*old(self))
                && (old(self).yield_vault_balance < 5 * old(self).ticket_price
                || swap is Rejected)),
            (r matches Err(e) && e == ErrorCode::AccountingError) <==> (redeem_needs_swap(
                *old(self),
            ) && old(self).yield_vault_balance >= 5 * old(self).ticket_price && swap is Filled
                && old(self).deposit_vault_balance + fill_amount(swap) > u64::MAX),
            (r matches Ok(_)) <==> (redeem_needs_swap(*old(self)) ==> (old(
                self,
            ).yield_vault_balance >= 5 * old(self).ticket_price && swap is Filled && old(
                self,
            ).deposit_vault_balance + fill_amount(swap) <= u64::MAX)),
            r matches Ok(amount) ==> {
                &&& amount == old(self).ticket_price
                &&& final(self).circulating_ticket_supply == old(self).circulating_ticket_supply
                    - 1
                &&& old(self).circulating_ticket_supply >= 1
                &&& final(self).tickets@.len() == old(self).tickets@.len() - 1
                &&& !holds_numbers(final(self).tickets@, numbers)
                &&& forall|m: [u8; 6]|
                    m != numbers ==> (holds_numbers(final(self).tickets@, m) <==> holds_numbers(
                        old(self).tickets@,
                        m,
                    ))
                &&& forall|m: [u8; 6], o: u64|
                    m != numbers ==> (holds_numbers_for(final(self).tickets@, m, o)
                        <==> holds_numbers_for(old(self).tickets@, m, o))
                &&& same_config(*old(self), *final(self))
                &&& same_randomness_record(*old(self), *final(self))
                &&& final(self).cutoff_time == old(self).cutoff_time
                &&& final(self).locked == old(self).locked
                &&& final(self).awaiting_randomness == old(self).awaiting_randomness
                &&& final(self).winning_numbers == old(self).winning_numbers
                &&& final(self).previous_winning_numbers == old(self).previous_winning_numbers
                &&& if redeem_needs_swap(*old(self)) {
                    &&& final(self).deposit_vault_balance == old(self).deposit_vault_balance
                        + fill_amount(swap) - old(self).ticket_price
                    &&& final(self).yield_vault_balance == old(self).yield_vault_balance - 5
                        * old(self).ticket_price
                } else {
                    &&& final(self).deposit_vault_balance == old(self).deposit_vault_balance
                        - old(self).ticket_price
                    &&& final(self).yield_vault_balance == old(self).yield_vault_balance
                }
            },
    {
        let price = self.ticket_price;
        if self.deposit_vault_balance < price {
            let amount_in = 5 * price;
            if self.yield_vault_balance < amount_in {
                return Err(ErrorCode::SwapFailed);
            }
            match swap {
                SwapOutcome::Rejected => {
                    return Err(ErrorCode::SwapFailed);
                },
                SwapOutcome::Filled(out) => {
                    if self.deposit_vault_balance > u64::MAX - out {
                        return Err(ErrorCode::AccountingError);
                    }
                    self.yield_vault_balance = self.yield_vault_balance - amount_in;
                    self.deposit_vault_balance = self.deposit_vault_balance + out;
                },
            }
        }
        if self.circulating_ticket_supply == 0 {
            return Err(ErrorCode::AccountingError);
        }
        self.deposit_vault_balance = self.deposit_vault_balance - price;
        self.circulating_ticket_supply = self.circulating_ticket_supply - 1;
        self.tickets.remove(&numbers);
        Ok(price)
    }

    /// Stakes the principal surplus: everything the principal vault holds
    /// above the reserve floor is swapped into the yield asset, with a
    /// minimum output of half the input (`swap` is the venue's outcome
    /// for that trade).  With no surplus above the floor there is nothing
    /// to stake and the call is rejected.
    pub fn stake(&mut self, swap: SwapOutcome) -> (r: Result<(), ErrorCode>)
        requires
            old(self).wf(),
            old(self).deposit_vault_balance > old(self).deposit_token_reserve ==> meets_minimum(
                swap,
                ((old(self).deposit_vault_balance - old(self).deposit_token_reserve)
                    / 2) as u64,
            ),
        ensures
            final(self).wf(),
            r matches Err(_) ==> *final(self) == *old(self),
            (r matches Err(e) && e == ErrorCode::NotEnoughTokens) <==> old(
                self,
            ).deposit_vault_balance <= old(self).deposit_token_reserve,
            (r matches Err(e) && e == ErrorCode::SwapFailed) <==> (old(
                self,
            ).deposit_vault_balance > old(self).deposit_token_reserve && swap is Rejected),
            (r matches Err(e) && e == ErrorCode::AccountingError) <==> (old(
                self,
            ).deposit_vault_balance > old(self).deposit_token_reserve && swap is Filled && old(
                self,
            ).yield_vault_balance + fill_amount(swap) > u64::MAX),
            (r matches Ok(_)) <==> (old(self).deposit_vault_balance > old(
                self,
            ).deposit_token_reserve && swap is Filled && old(self).yield_vault_balance
                + fill_amount(swap) <= u64::MAX),
            r matches Ok(_) ==> {
                &&& final(self).deposit_vault_balance == old(self).deposit_token_reserve
                &&& final(self).yield_vault_balance == old(self).yield_vault_balance
                    + fill_amount(swap)
                &&& same_config(*old(self), *final(self))
                &&& same_randomness_record(*old(self), *final(self))
                &&& same_tickets(*old(self), *final(self))
                &&& final(self).cutoff_time == old(self).cutoff_time
                &&& final(self).locked == old(self).locked
                &&& final(self).awaiting_randomness == old(self).awaiting_randomness
                &&& final(self).winning_numbers == old(self).winning_numbers
                &&& final(self).previous_winning_numbers == old(self).previous_winning_numbers
            },
    {
        if self.deposit_vault_balance <= self.deposit_token_reserve {
            return Err(ErrorCode::NotEnoughTokens);
        }
        match swap {
            SwapOutcome::Rejected => Err(ErrorCode::SwapFailed),
            SwapOutcome::Filled(out) => {
                if self.yield_vault_balance > u64::MAX - out {
                    return Err(ErrorCode::AccountingError);
                }
                self.deposit_vault_balance = self.deposit_token_reserve;
                self.yield_vault_balance = self.yield_vault_balance + out;
                Ok(())
            },
        }
    }
}

/// The principal the pool holds for prize computation once the yield leg
/// has been liquidated: the principal vault plus the swap's fill when
/// there was a yield leg to liquidate.
pub open spec fn dispense_pool_in(pre: VaultManager, swap: SwapOutcome) -> int {
    pre.deposit_vault_balance + if pre.yield_vault_balance > 0 {
        fill_amount(swap) as int
    } else {
        0
    }
}

impl VaultManager {
    /// The dispense crank: hands the prize of a settled draw to the
    /// holder of the winning combination, or closes the cycle with no
    /// payout when nobody holds it, then unlocks the pool and schedules
    /// the next draw one interval after `now`.
    ///
    /// The caller must pass the winning combination itself; `winner`
    /// names the owner of the payout destination, which must be the
    /// winning ticket's holder.  When a winner exists the whole yield
    /// leg is liquidated first, with a minimum output of half the input
    /// (`swap` is the venue's outcome for that trade); the prize is
    /// everything the principal vault then holds beyond the principal
    /// owed to all ticket holders.  The winning ticket itself stays
    /// live, so the winner's own principal remains redeemable.
    pub fn dispense(&mut self, numbers: [u8; 6], winner: u64, now: u64, swap: SwapOutcome) -> (r:
        Result<u64, ErrorCode>)
        requires
            old(self).wf(),
            (numbers == old(self).winning_numbers && holds_numbers(old(self).tickets@, numbers)
                && old(self).yield_vault_balance > 0) ==> meets_minimum(
                swap,
                (old(self).yield_vault_balance / 2) as u64,
            ),
        ensures
            final(self).wf(),
            r matches Err(_) ==> *final(self) == *old(self),
            (r matches Err(e) && e == ErrorCode::WrongNumbers) <==> numbers != old(
                self,
            ).winning_numbers,
            (r matches Err(e) && e == ErrorCode::AccountingError) <==> (numbers == old(
                self,
            ).winning_numbers && (now + old(self).draw_duration > u64::MAX || (now + old(
                self,
            ).draw_duration <= u64::MAX && holds_numbers_for(old(self).tickets@, numbers, winner)
                && old(self).yield_vault_balance > 0 && swap is Filled && old(
                self,
            ).deposit_vault_balance + fill_amount(swap) > u64::MAX))),
            (r matches Err(e) && e == ErrorCode::WinnerMismatch) <==> (numbers == old(
                self,
            ).winning_numbers && now + old(self).draw_duration <= u64::MAX && holds_numbers(
                old(self).tickets@,
                numbers,
            ) && !holds_numbers_for(old(self).tickets@, numbers, winner)),
            (r matches Err(e) && e == ErrorCode::SwapFailed) <==> (numbers == old(
                self,
            ).winning_numbers && now + old(self).draw_duration <= u64::MAX
                && holds_numbers_for(old(self).tickets@, numbers, winner) && old(
                self,
            ).yield_vault_balance > 0 && swap is Rejected),
            (r matches Ok(_)) <==> (numbers == old(self).winning_numbers && now + old(
                self,
            ).draw_duration <= u64::MAX && (holds_numbers(old(self).tickets@, numbers)
                ==> (holds_numbers_for(old(self).tickets@, numbers, winner) && (old(
                self,
            ).yield_vault_balance > 0 ==> (swap is Filled && old(self).deposit_vault_balance
                + fill_amount(swap) <= u64::MAX))))),
            r matches Ok(_) ==> {
                &&& final(self).cutoff_time == now + old(self).draw_duration
                &&& !final(self).locked
                &&& all_zero(final(self).winning_numbers)
                &&& final(self).previous_winning_numbers == old(self).previous_winning_numbers
                &&& final(self).awaiting_randomness == old(self).awaiting_randomness
                &&& same_config(*old(self), *final(self))
                &&& same_randomness_record(*old(self), *final(self))
                &&& same_tickets(*old(self), *final(self))
            },
            r matches Ok(p) ==> (if holds_numbers(old(self).tickets@, numbers) {
                &&& p == spec_prize(
                    old(self).circulating_ticket_supply,
                    old(self).ticket_price,
                    dispense_pool_in(*old(self), swap) as u64,
                )
                &&& final(self).deposit_vault_balance == dispense_pool_in(*old(self), swap) - p
                &&& final(self).yield_vault_balance == 0
            } else {
                &&& p == 0
                &&& same_balances(*old(self), *final(self))
            }),
    {
        if !numbers_equal(&numbers, &self.winning_numbers) {
            return Err(ErrorCode::WrongNumbers);
        }
        if now > u64::MAX - self.draw_duration {
            return Err(ErrorCode::AccountingError);
        }
        let next_cutoff = now + self.draw_duration;
        match self.tickets.find(&numbers) {
            None => {
                self.cutoff_time = next_cutoff;
                self.locked = false;
                self.winning_numbers = [0u8; 6];
                Ok(0)
            },
            Some(ticket) => {
                proof {
                    if holds_numbers_for(self.tickets@, numbers, winner) {
                        lemma_unique_owner(self.tickets@, ticket, numbers, winner);
                    }
                }
                if ticket.owner != winner {
                    return Err(ErrorCode::WinnerMismatch);
                }
                proof {
                    assert(holds_numbers_for(self.tickets@, numbers, winner)) by {
                        assert(self.tickets@.contains(ticket));
                        let w = choose|w: int|
                            0 <= w < self.tickets@.len() && self.tickets@[w] == ticket;
                        assert(self.tickets@[w].numbers == numbers && self.tickets@[w].owner
                            == winner);
                    }
                }
                let mut pool_in = self.deposit_vault_balance;
                if self.yield_vault_balance > 0 {
                    match swap {
                        SwapOutcome::Rejected => {
                            return Err(ErrorCode::SwapFailed);
                        },
                        SwapOutcome::Filled(out) => {
                            if pool_in > u64::MAX - out {
                                return Err(ErrorCode::AccountingError);
                            }
                            pool_in = pool_in + out;
                        },
                    }
                }
                let prize = calculate_prize(
                    self.circulating_ticket_supply,
                    self.ticket_price,
                    pool_in,
                );
                self.deposit_vault_balance = pool_in - prize;
                self.yield_vault_balance = 0;
                self.cutoff_time = next_cutoff;
                self.locked = false;
                self.winning_numbers = [0u8; 6];
                Ok(prize)
            },
        }
    }
}

} // verus!
