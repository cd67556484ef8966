//! Cross-chain atomic swaps: hash-time-locked escrows on a source and a
//! destination chain, a factory that registers escrow instances, and a
//! resolver that tracks swap orders for an owner and a set of relayers.
//! Two small reference markets, a Dutch auction and a partial-fill order
//! book, share the price formula and the payment rules.
//!
//! Every operation is a transition on plain values: the host's storage,
//! message delivery and address validation stay outside this library.

mod decimal;
mod funds;
mod hashlock;
mod pricing;

pub mod destination_escrow;
pub mod dutch_auction;
pub mod factory;
pub mod laws;
pub mod partial_fill;
pub mod resolver;
pub mod source_escrow;

pub use funds::{Asset, Coin, Payout};
pub use hashlock::{digest_matches_hash, hex_digit, hex_lower, opens, secret_matches, sha256_of};
pub use pricing::{
    decayed_price, decayed_price_spec, lemma_price_at_least_minimum, lemma_price_non_increasing,
};
