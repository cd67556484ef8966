use vstd::prelude::*;

use crate::funds::{payment_denom, payment_received, received_in, Asset, Coin, Payout};
use crate::pricing::{decayed_price, decayed_price_spec};
use crate::source_escrow::elapsed_since;

verus! {

#[derive(Clone, Copy, Debug, PartialEq, Eq, Structural)]
pub enum ContractError {
    AuctionEnded,
    AuctionStillActive,
    InvalidBidAmount,
    InvalidAuctionParameters,
}

/// A single-asset auction whose price falls linearly from `initial_price` to
/// `minimum_price`. The highest standing bid is held until settlement; an
/// outbid bidder is refunded.
#[derive(Clone, Debug, PartialEq, Eq)]
pub struct Auction {
    pub seller: String,
    pub initial_price: u128,
    pub minimum_price: u128,
    pub price_decay_rate: u128,
    pub start_time: u64,
    pub end_time: u64,
    pub current_bidder: Option<String>,
    pub current_bid: u128,
    pub is_active: bool,
}

impl Auction {
    /// The price at time `now`, by the library's one price formula.
    pub open spec fn price_at(self, now: u64) -> u128 {
        decayed_price_spec(
            self.initial_price as int,
            self.minimum_price as int,
            self.price_decay_rate as int,
            elapsed_since(self.start_time, now) as int,
        ) as u128
    }

    pub fn get_current_price(&self, now: u64) -> (r: u128)
        ensures
            r == self.price_at(now),
    {
        let elapsed: u64 = if now >= self.start_time {
            now - self.start_time
        } else {
            0
        };
        decayed_price(self.initial_price, self.minimum_price, self.price_decay_rate, elapsed)
    }
}

fn native_payout(recipient: String, amount: u128) -> (r: Payout)
    ensures
        r.recipient == recipient,
        r.amount == amount,
        r.asset is Native,
        r.asset->Native_denom@ == payment_denom(),
{
    proof {
        reveal_strlit("uatom");
    }
    Payout { asset: Asset::Native { denom: String::from_str("uatom") }, recipient, amount }
}

/// Opens an auction by `seller` at time `now` that runs for `duration`
/// seconds. The initial price must lie above the minimum, and the end must
/// be a representable time.
pub fn instantiate(
    seller: String,
    initial_price: u128,
    minimum_price: u128,
    price_decay_rate: u128,
    duration: u64,
    now: u64,
) -> (r: Result<Auction, ContractError>)
    ensures
        initial_price <= minimum_price || now + duration > u64::MAX ==> r == Err::<
            Auction,
            ContractError,
        >(ContractError::InvalidAuctionParameters),
        initial_price > minimum_price && now + duration <= u64::MAX ==> r == Ok::<
            Auction,
            ContractError,
        >(
            Auction {
                seller,
                initial_price,
                minimum_price,
                price_decay_rate,
                start_time: now,
                end_time: (now + duration) as u64,
                current_bidder: None,
                current_bid: 0,
                is_active: true,
            },
        ),
{
    if initial_price <= minimum_price {
        return Err(ContractError::InvalidAuctionParameters);
    }
    let end_time = match now.checked_add(duration) {
        Some(e) => e,
        None => {
            return Err(ContractError::InvalidAuctionParameters);
        },
    };
    Ok(
        Auction {
            seller,
            initial_price,
            minimum_price,
            price_decay_rate,
            start_time: now,
            end_time,
            current_bidder: None,
            current_bid: 0,
            is_active: true,
        },
    )
}

pub open spec fn bid_failure(a: Auction, now: u64, bid: u128) -> Option<ContractError> {
    if !a.is_active || now > a.end_time {
        Some(ContractError::AuctionEnded)
    } else if bid < a.price_at(now) {
        Some(ContractError::InvalidBidAmount)
    } else {
        None
    }
}

/// `sender` bids what it attaches in the payment denomination, at least the
/// price at `now`. The bid replaces the standing one, whose bidder is refunded.
pub fn execute_bid(auction: &mut Auction, sender: &String, funds: &Vec<Coin>, now: u64) -> (r:
    Result<Option<Payout>, ContractError>)
    ensures
        match bid_failure(*old(auction), now, payment_received(funds@)) {
            Some(err) => r == Err::<Option<Payout>, ContractError>(err) && *final(auction) == *old(
                auction),
            None => {
                &&& *final(auction) == (Auction {
                    current_bidder: Some(*sender),
                    current_bid: payment_received(funds@),
                    ..*old(auction)
                })
                &&& r matches Ok(refund) && match old(auction).current_bidder {
                    Some(prev) => refund matches Some(p) && p.recipient == prev && p.amount == old(
                        auction).current_bid && p.asset is Native && p.asset->Native_denom@
                        == payment_denom(),
                    None => refund is None,
                }
            },
        },
{
    if !auction.is_active || now > auction.end_time {
        return Err(ContractError::AuctionEnded);
    }
    let price = auction.get_current_price(now);
    let bid = received_in(funds);
    if bid < price {
        return Err(ContractError::InvalidBidAmount);
    }
    let refund = match &auction.current_bidder {
        Some(prev) => Some(native_payout(prev.clone(), auction.current_bid)),
        None => None,
    };
    auction.current_bidder = Some(sender.clone());
    auction.current_bid = bid;
    Ok(refund)
}

/// Settles the auction once `now` has reached its end: the winning bid goes
/// to the seller. Anyone may settle.
pub fn execute_end_auction(auction: &mut Auction, now: u64) -> (r: Result<Option<Payout>, ContractError>)
    ensures
        !old(auction).is_active ==> r == Err::<Option<Payout>, ContractError>(
            ContractError::AuctionEnded,
        ) && *final(auction) == *old(auction),
        old(auction).is_active && now < old(auction).end_time ==> r == Err::<
            Option<Payout>,
            ContractError,
        >(ContractError::AuctionStillActive) && *final(auction) == *old(auction),
        old(auction).is_active && now >= old(auction).end_time ==> {
            &&& *final(auction) == (Auction { is_active: false, ..*old(auction) })
            &&& r matches Ok(payment) && if old(auction).current_bidder is Some {
                payment matches Some(p) && p.recipient == old(auction).seller && p.amount == old(
                    auction).current_bid && p.asset is Native && p.asset->Native_denom@
                    == payment_denom()
            } else {
                payment is None
            }
        },
{
    if !auction.is_active {
        return Err(ContractError::AuctionEnded);
    }
    if now < auction.end_time {
        return Err(ContractError::AuctionStillActive);
    }
    auction.is_active = false;
    if auction.current_bidder.is_some() {
        Ok(Some(native_payout(auction.seller.clone(), auction.current_bid)))
    } else {
        Ok(None)
    }
}

} // verus!
