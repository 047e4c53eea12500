//! A fixed-rate pool over two assets: a custodial ledger that holds a base
//! and a quote asset, takes deposits, and swaps one asset for the other at
//! a rate fixed when the pool is made, less a fee that the pool keeps.
//!
//! The library decides; it moves nothing. A request is priced and checked
//! in full, and what comes back is the list of transfers that settle it,
//! for the caller to hand to the ledger: the whole list, or an error and no
//! transfer at all.
//!
//! - `address`: addresses, and the addresses derived from a pool's identity.
//! - `state`: the pool record, its rate, and the pricing of swaps.
//! - `gateway`: the transfers into and out of custody, and the authority
//!   that funds need to leave it.
//! - `instructions`: the three requests, `init`, `add_liquidity`, `swap`.
//! - `ledger`: what a plan does to balances, and the laws that follow.
//! - `errors`: why a request is turned down.

pub mod address;
pub mod errors;
pub mod gateway;
pub mod instructions;
pub mod ledger;
pub mod state;
