//! Properties that hold across calls, stated over the specifications that the
//! operations' own contracts use.
use vstd::prelude::*;

use crate::destination_escrow as dst;
use crate::factory::{salt_of, salt_taken, EscrowInfo as RegistryRow};
use crate::hashlock::opens;
use crate::pricing::{decayed_price_spec, lemma_price_at_least_minimum, lemma_price_non_increasing};
use crate::resolver::{projected_price, DutchAuctionInfo};
use crate::source_escrow as src;
use crate::source_escrow::elapsed_since;

verus! {

/// A source escrow that is neither withdrawn nor cancelled releases its funds
/// exactly to a secret whose digest, in lowercase hexadecimal, is the stored
/// hash; any other secret fails with `InvalidSecret`.
pub proof fn lemma_source_withdraw_iff_secret(e: src::EscrowInfo, secret: Seq<char>)
    requires
        !e.is_terminal(),
    ensures
        src::withdraw_failure(e, secret) is None <==> opens(secret, e.secret_hash@),
        !opens(secret, e.secret_hash@) ==> src::withdraw_failure(e, secret) == Some(
            src::ContractError::InvalidSecret,
        ),
{
}

/// The same for a destination escrow, once the source escrow is confirmed
/// and the maker asks.
pub proof fn lemma_destination_withdraw_iff_secret(
    e: dst::EscrowInfo,
    sender: String,
    secret: Seq<char>,
)
    requires
        e.status == dst::EscrowStatus::Active,
        e.src_confirmed,
        sender@ == e.maker@,
    ensures
        dst::withdraw_failure(e, sender, secret) is None <==> opens(secret, e.secret_hash@),
        !opens(secret, e.secret_hash@) ==> dst::withdraw_failure(e, sender, secret) == Some(
            dst::ContractError::InvalidSecret,
        ),
{
}

/// Once a source escrow is funded, every further deposit fails, and no
/// operation changes the deposited amount.
pub proof fn lemma_source_deposit_once(
    e: src::EscrowInfo,
    sender: String,
    n_funds: nat,
    asset: crate::funds::Asset,
    amount: u128,
)
    requires
        e.deposited(),
    ensures
        src::deposit_failure(e, sender, n_funds) == Some(src::ContractError::AlreadyWithdrawn),
        src::withdrawn(e).deposited_amount == e.deposited_amount,
        src::partially_filled(e, amount).deposited_amount == e.deposited_amount,
        (src::EscrowInfo { status: src::EscrowStatus::Cancelled, ..e }).deposited_amount
            == e.deposited_amount,
        src::funded(e, asset, amount).deposited_amount == amount,
        src::withdrawn(e).deposited(),
        src::partially_filled(e, amount).deposited(),
{
}

/// Once a destination escrow is funded, every further deposit fails.
pub proof fn lemma_destination_deposit_once(
    e: dst::EscrowInfo,
    sender: String,
    n_funds: nat,
    amount: u128,
)
    requires
        e.deposited(),
    ensures
        dst::deposit_failure(e, sender, n_funds, amount) == Some(
            dst::ContractError::AlreadyWithdrawn,
        ),
{
}

/// Every accepted release keeps `filled + remaining == deposited` and never
/// raises what remains.
pub proof fn lemma_fill_accounting(e: src::EscrowInfo, secret: Seq<char>, amount: u128)
    requires
        e.wf(),
    ensures
        e.filled_amount + e.remaining_amount == e.deposited_amount,
        src::partial_withdraw_failure(e, secret, amount) is None ==> src::partially_filled(
            e,
            amount,
        ).wf() && src::partially_filled(e, amount).remaining_amount < e.remaining_amount,
        src::withdraw_failure(e, secret) is None ==> src::withdrawn(e).wf()
            && src::withdrawn(e).remaining_amount <= e.remaining_amount,
{
}

/// Cancelling an unfinished source escrow as its maker fails before the
/// timelock and succeeds from the timelock on, the timelock itself included.
pub proof fn lemma_source_cancel_boundary(e: src::EscrowInfo, sender: String, now: u64)
    requires
        !e.is_terminal(),
        sender@ == e.maker@,
    ensures
        src::cancel_failure(e, sender, now) is None <==> now >= e.timelock,
        now < e.timelock ==> src::cancel_failure(e, sender, now) == Some(
            src::ContractError::TimelockNotExpired,
        ),
{
}

/// The same for a destination escrow and its taker.
pub proof fn lemma_destination_cancel_boundary(e: dst::EscrowInfo, sender: String, now: u64)
    requires
        e.status == dst::EscrowStatus::Active,
        sender@ == e.taker@,
    ensures
        dst::cancel_failure(e, sender, now) is None <==> now >= e.timelock,
        now < e.timelock ==> dst::cancel_failure(e, sender, now) == Some(
            dst::ContractError::TimelockNotExpired,
        ),
{
}

/// A source escrow's price never rises as time passes.
pub proof fn lemma_escrow_price_non_increasing(e: src::EscrowInfo, earlier: u64, later: u64)
    requires
        earlier <= later,
    ensures
        e.price_at(later) <= e.price_at(earlier),
{
    if e.initial_price is Some && e.price_decay_rate is Some && e.minimum_price is Some {
        let i = e.initial_price.unwrap();
        let m = e.minimum_price.unwrap();
        let d = e.price_decay_rate.unwrap();
        lemma_price_non_increasing(
            i,
            m,
            d,
            elapsed_since(e.created_at, earlier),
            elapsed_since(e.created_at, later),
        );
        lemma_price_at_least_minimum(i, m, d, elapsed_since(e.created_at, earlier));
        lemma_price_at_least_minimum(i, m, d, elapsed_since(e.created_at, later));
        lemma_decayed_in_range(i, m, d, elapsed_since(e.created_at, earlier));
        lemma_decayed_in_range(i, m, d, elapsed_since(e.created_at, later));
    }
}

/// With all auction parameters set, a source escrow's price is never below
/// its minimum.
pub proof fn lemma_escrow_price_floor(e: src::EscrowInfo, now: u64)
    requires
        e.initial_price is Some,
        e.price_decay_rate is Some,
        e.minimum_price is Some,
    ensures
        e.price_at(now) >= e.minimum_price.unwrap(),
{
    let i = e.initial_price.unwrap();
    let m = e.minimum_price.unwrap();
    let d = e.price_decay_rate.unwrap();
    lemma_price_at_least_minimum(i, m, d, elapsed_since(e.created_at, now));
    lemma_decayed_in_range(i, m, d, elapsed_since(e.created_at, now));
}

proof fn lemma_decayed_in_range(initial: u128, minimum: u128, rate: u128, elapsed: u64)
    ensures
        0 <= decayed_price_spec(initial as int, minimum as int, rate as int, elapsed as int)
            <= u128::MAX,
{
}

/// An order's auction copy, taken from the escrow's parameters and creation
/// time, prices exactly as the escrow does at every time.
pub proof fn lemma_cached_price_agrees(e: src::EscrowInfo, da: DutchAuctionInfo, now: u64)
    requires
        e.initial_price == Some(da.initial_price),
        e.minimum_price == Some(da.minimum_price),
        e.price_decay_rate == Some(da.price_decay_rate),
        e.created_at == da.start_time,
    ensures
        projected_price(da, now) == e.price_at(now),
{
}

/// Once a creation request has registered its salt, the same creator,
/// time and label are refused.
pub proof fn lemma_salt_collision(
    rows: Seq<RegistryRow>,
    row: RegistryRow,
    creator: Seq<char>,
    nanos: u64,
    label: Seq<char>,
)
    requires
        row.salt@ == salt_of(creator, nanos, label),
    ensures
        salt_taken(rows.push(row), salt_of(creator, nanos, label)),
{
    assert(rows.push(row)[rows.len() as int] == row);
}

/// A withdrawn or cancelled source escrow accepts no further deposit,
/// release or cancellation.
pub proof fn lemma_source_terminal_absorbing(
    e: src::EscrowInfo,
    sender: String,
    n_funds: nat,
    secret: Seq<char>,
    amount: u128,
    now: u64,
)
    requires
        e.is_terminal(),
    ensures
        src::deposit_failure(e, sender, n_funds) is Some,
        src::withdraw_failure(e, secret) is Some,
        src::partial_withdraw_failure(e, secret, amount) is Some,
        src::cancel_failure(e, sender, now) is Some,
{
}

/// A withdrawn or cancelled destination escrow accepts no further deposit,
/// release, cancellation or confirmation.
pub proof fn lemma_destination_terminal_absorbing(
    e: dst::EscrowInfo,
    sender: String,
    n_funds: nat,
    amount: u128,
    secret: Seq<char>,
    now: u64,
)
    requires
        e.status == dst::EscrowStatus::Withdrawn || e.status == dst::EscrowStatus::Cancelled,
    ensures
        dst::deposit_failure(e, sender, n_funds, amount) is Some,
        dst::withdraw_failure(e, sender, secret) is Some,
        dst::cancel_failure(e, sender, now) is Some,
        dst::confirm_failure(e) is Some,
{
}

/// Recording the same source confirmation twice leaves the escrow as one
/// recording does.
pub proof fn lemma_confirm_idempotent(e: dst::EscrowInfo, src_tx_hash: String, block_height: u64)
    ensures
        ({
            let once = dst::EscrowInfo {
                src_confirmed: true,
                src_tx_hash: Some(src_tx_hash),
                src_block_height: Some(block_height),
                ..e
            };
            let twice = dst::EscrowInfo {
                src_confirmed: true,
                src_tx_hash: Some(src_tx_hash),
                src_block_height: Some(block_height),
                ..once
            };
            &&& dst::confirm_failure(once) == dst::confirm_failure(e)
            &&& twice == once
        }),
{
}

} // verus!
