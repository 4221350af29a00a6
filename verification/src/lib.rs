//! A no-loss lottery engine.
//!
//! Participants deposit principal into a pooled vault and receive a ticket
//! for a chosen six-digit combination.  Periodically a draw consumes an
//! oracle-supplied random buffer, derives winning numbers from it and locks
//! the pool; a settlement crank then pays the realized yield to whoever
//! holds the winning combination, while every other participant can always
//! redeem their ticket for the full principal it was bought with.
//!
//! The library is the decision core alone: it owns the pool configuration,
//! the vault balances, the ticket registry and the draw cycle.  The host
//! environment performs the actual asset transfers, swap-venue trades and
//! randomness requests, and hands their outcomes to the library as plain
//! values.

pub mod digits;
pub mod laws;
pub mod pool;
pub mod registry;
