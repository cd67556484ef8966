use vstd::prelude::*;

use crate::funds::{make_payout, payout_of, same_string, Asset, Coin, Payout};
use crate::hashlock::{opens, secret_matches};
use crate::pricing::{decayed_price, decayed_price_spec};

verus! {

/// Life cycle of a source escrow. `Withdrawn` and `Cancelled` are terminal.
#[derive(Clone, Copy, Debug, PartialEq, Eq, Structural)]
pub enum EscrowStatus {
    Active,
    Withdrawn,
    Cancelled,
    PartiallyFilled,
}

#[derive(Clone, Copy, Debug, PartialEq, Eq, Structural)]
pub enum ContractError {
    Unauthorized,
    InvalidSecret,
    AlreadyWithdrawn,
    AlreadyCancelled,
    TimelockNotExpired,
    InsufficientFunds,
    InvalidPartialFillAmount,
    InvalidDutchAuctionParams,
}

/// What a token contract's transfer hook carries in its message.
#[derive(Clone, Copy, Debug, PartialEq, Eq, Structural)]
pub enum ReceiveMsg {
    Deposit,
}

/// Parameters of a new source escrow; addresses are already validated.
#[derive(Clone, Debug, PartialEq, Eq)]
pub struct InstantiateMsg {
    pub maker: String,
    pub taker: Option<String>,
    pub secret_hash: String,
    pub timelock: u64,
    pub dst_chain_id: String,
    pub dst_asset: String,
    pub dst_amount: u128,
    pub initial_price: Option<u128>,
    pub price_decay_rate: Option<u128>,
    pub minimum_price: Option<u128>,
    pub allow_partial_fill: bool,
    pub minimum_fill_amount: Option<u128>,
}

/// The state of a source escrow: funded by the maker, released to whoever
/// reveals the secret, or returned to the maker after the timelock.
#[derive(Clone, Debug, PartialEq, Eq)]
pub struct EscrowInfo {
    pub maker: String,
    pub taker: Option<String>,
    pub secret_hash: String,
    pub timelock: u64,
    pub dst_chain_id: String,
    pub dst_asset: String,
    pub dst_amount: u128,
    pub deposited_amount: u128,
    /// Set by the one deposit; `None` until then.
    pub deposit_asset: Option<Asset>,
    pub status: EscrowStatus,
    pub created_at: u64,
    pub initial_price: Option<u128>,
    pub price_decay_rate: Option<u128>,
    pub minimum_price: Option<u128>,
    pub allow_partial_fill: bool,
    pub minimum_fill_amount: Option<u128>,
    pub filled_amount: u128,
    pub remaining_amount: u128,
}

#[derive(Clone, Copy, Debug, PartialEq, Eq, Structural)]
pub struct PriceResponse {
    pub current_price: u128,
    pub initial_price: Option<u128>,
    pub minimum_price: Option<u128>,
    pub price_decay_rate: Option<u128>,
    pub time_elapsed: u64,
}

#[derive(Clone, Copy, Debug, PartialEq, Eq, Structural)]
pub struct FillStatusResponse {
    pub total_amount: u128,
    pub filled_amount: u128,
    pub remaining_amount: u128,
    pub is_fully_filled: bool,
    pub allow_partial_fill: bool,
}

impl EscrowInfo {
    /// Whether the deposit has been made.
    pub open spec fn deposited(self) -> bool {
        self.deposit_asset is Some
    }

    pub open spec fn is_terminal(self) -> bool {
        self.status == EscrowStatus::Withdrawn || self.status == EscrowStatus::Cancelled
    }

    /// The escrow's invariant: what was paid out plus what is left is what
    /// was deposited; nothing is counted before the deposit; an auction starts
    /// above its floor.
    pub open spec fn wf(self) -> bool {
        &&& self.filled_amount + self.remaining_amount == self.deposited_amount
        &&& !self.deposited() ==> self.deposited_amount == 0
        &&& self.initial_price is Some && self.minimum_price is Some ==> self.initial_price.unwrap()
            > self.minimum_price.unwrap()
    }

    /// Who receives a release: the configured taker, else the caller.
    pub open spec fn recipient(self, sender: String) -> String {
        match self.taker {
            Some(t) => t,
            None => sender,
        }
    }

    /// The price at time `now`; seconds before creation count as none elapsed.
    pub open spec fn price_at(self, now: u64) -> u128 {
        match (self.initial_price, self.price_decay_rate, self.minimum_price) {
            (Some(i), Some(d), Some(m)) => decayed_price_spec(
                i as int,
                m as int,
                d as int,
                elapsed_since(self.created_at, now) as int,
            ) as u128,
            _ => match self.initial_price {
                Some(i) => i,
                None => 0,
            },
        }
    }
}

/// Seconds from `start` to `now`, zero when `now` is earlier.
pub open spec fn elapsed_since(start: u64, now: u64) -> u64 {
    if now >= start {
        (now - start) as u64
    } else {
        0
    }
}

pub open spec fn instantiate_failure(msg: InstantiateMsg) -> Option<ContractError> {
    if msg.initial_price is Some && msg.minimum_price is Some && msg.initial_price.unwrap()
        <= msg.minimum_price.unwrap() {
        Some(ContractError::InvalidDutchAuctionParams)
    } else {
        None
    }
}

/// The failure of a deposit attempt, if any; `None` means it is accepted.
pub open spec fn deposit_failure(e: EscrowInfo, sender: String, n_funds: nat) -> Option<ContractError> {
    if e.status != EscrowStatus::Active || e.deposited() {
        Some(ContractError::AlreadyWithdrawn)
    } else if sender@ != e.maker@ {
        Some(ContractError::Unauthorized)
    } else if n_funds != 1 {
        Some(ContractError::InsufficientFunds)
    } else {
        None
    }
}

/// The escrow after a deposit of `amount` through `asset`.
pub open spec fn funded(e: EscrowInfo, asset: Asset, amount: u128) -> EscrowInfo {
    EscrowInfo {
        deposited_amount: amount,
        deposit_asset: Some(asset),
        filled_amount: 0,
        remaining_amount: amount,
        ..e
    }
}

pub open spec fn withdraw_failure(e: EscrowInfo, secret: Seq<char>) -> Option<ContractError> {
    if e.status == EscrowStatus::Withdrawn {
        Some(ContractError::AlreadyWithdrawn)
    } else if e.status == EscrowStatus::Cancelled {
        Some(ContractError::AlreadyCancelled)
    } else if !opens(secret, e.secret_hash@) {
        Some(ContractError::InvalidSecret)
    } else {
        None
    }
}

/// What a full withdrawal pays: what is left with partial fills, else the deposit.
pub open spec fn withdraw_amount(e: EscrowInfo) -> u128 {
    if e.allow_partial_fill {
        e.remaining_amount
    } else {
        e.deposited_amount
    }
}

/// The escrow after a full withdrawal: everything left counts as filled.
pub open spec fn withdrawn(e: EscrowInfo) -> EscrowInfo {
    EscrowInfo {
        status: EscrowStatus::Withdrawn,
        filled_amount: e.deposited_amount,
        remaining_amount: 0,
        ..e
    }
}

pub open spec fn partial_withdraw_failure(e: EscrowInfo, secret: Seq<char>, amount: u128) -> Option<
    ContractError,
> {
    if !e.allow_partial_fill {
        Some(ContractError::InvalidPartialFillAmount)
    } else if e.status == EscrowStatus::Withdrawn {
        Some(ContractError::AlreadyWithdrawn)
    } else if e.status == EscrowStatus::Cancelled {
        Some(ContractError::AlreadyCancelled)
    } else if amount == 0 {
        Some(ContractError::InvalidPartialFillAmount)
    } else if amount > e.remaining_amount {
        Some(ContractError::InsufficientFunds)
    } else if e.minimum_fill_amount is Some && amount < e.minimum_fill_amount.unwrap() {
        Some(ContractError::InvalidPartialFillAmount)
    } else if !opens(secret, e.secret_hash@) {
        Some(ContractError::InvalidSecret)
    } else {
        None
    }
}

/// The escrow after releasing `amount` of what is left.
pub open spec fn partially_filled(e: EscrowInfo, amount: u128) -> EscrowInfo {
    EscrowInfo {
        filled_amount: (e.filled_amount + amount) as u128,
        remaining_amount: (e.remaining_amount - amount) as u128,
        status: if e.remaining_amount == amount {
            EscrowStatus::Withdrawn
        } else {
            EscrowStatus::PartiallyFilled
        },
        ..e
    }
}

pub open spec fn cancel_failure(e: EscrowInfo, sender: String, now: u64) -> Option<ContractError> {
    if e.status == EscrowStatus::Withdrawn {
        Some(ContractError::AlreadyWithdrawn)
    } else if e.status == EscrowStatus::Cancelled {
        Some(ContractError::AlreadyCancelled)
    } else if sender@ != e.maker@ {
        Some(ContractError::Unauthorized)
    } else if now < e.timelock {
        Some(ContractError::TimelockNotExpired)
    } else {
        None
    }
}

/// Creates a source escrow at time `now`. An auction whose initial price is
/// not above its minimum is refused.
pub fn instantiate(msg: InstantiateMsg, now: u64) -> (r: Result<EscrowInfo, ContractError>)
    ensures
        match instantiate_failure(msg) {
            Some(err) => r == Err::<EscrowInfo, ContractError>(err),
            None => r == Ok::<EscrowInfo, ContractError>(
                EscrowInfo {
                    maker: msg.maker,
                    taker: msg.taker,
                    secret_hash: msg.secret_hash,
                    timelock: msg.timelock,
                    dst_chain_id: msg.dst_chain_id,
                    dst_asset: msg.dst_asset,
                    dst_amount: msg.dst_amount,
                    deposited_amount: 0,
                    deposit_asset: None,
                    status: EscrowStatus::Active,
                    created_at: now,
                    initial_price: msg.initial_price,
                    price_decay_rate: msg.price_decay_rate,
                    minimum_price: msg.minimum_price,
                    allow_partial_fill: msg.allow_partial_fill,
                    minimum_fill_amount: msg.minimum_fill_amount,
                    filled_amount: 0,
                    remaining_amount: 0,
                },
            ),
        },
        r matches Ok(e) ==> e.wf(),
{
    if let (Some(i), Some(m)) = (msg.initial_price, msg.minimum_price) {
        if i <= m {
            return Err(ContractError::InvalidDutchAuctionParams);
        }
    }
    Ok(
        EscrowInfo {
            maker: msg.maker,
            taker: msg.taker,
            secret_hash: msg.secret_hash,
            timelock: msg.timelock,
            dst_chain_id: msg.dst_chain_id,
            dst_asset: msg.dst_asset,
            dst_amount: msg.dst_amount,
            deposited_amount: 0,
            deposit_asset: None,
            status: EscrowStatus::Active,
            created_at: now,
            initial_price: msg.initial_price,
            price_decay_rate: msg.price_decay_rate,
            minimum_price: msg.minimum_price,
            allow_partial_fill: msg.allow_partial_fill,
            minimum_fill_amount: msg.minimum_fill_amount,
            filled_amount: 0,
            remaining_amount: 0,
        },
    )
}

/// The maker funds the escrow with exactly one native coin. Only the first
/// deposit is accepted.
pub fn execute_deposit(escrow: &mut EscrowInfo, sender: &String, funds: &Vec<Coin>) -> (r: Result<
    (),
    ContractError,
>)
    requires
        old(escrow).wf(),
    ensures
        final(escrow).wf(),
        match deposit_failure(*old(escrow), *sender, funds@.len()) {
            Some(err) => r == Err::<(), ContractError>(err) && *final(escrow) == *old(escrow),
            None => r is Ok && *final(escrow) == funded(
                *old(escrow),
                Asset::Native { denom: funds@[0].denom },
                funds@[0].amount,
            ),
        },
{
    if escrow.status != EscrowStatus::Active || escrow.deposit_asset.is_some() {
        return Err(ContractError::AlreadyWithdrawn);
    }
    if !same_string(sender, &escrow.maker) {
        return Err(ContractError::Unauthorized);
    }
    if funds.len() != 1 {
        return Err(ContractError::InsufficientFunds);
    }
    let coin = &funds[0];
    escrow.deposited_amount = coin.amount;
    escrow.deposit_asset = Some(Asset::Native { denom: coin.denom.clone() });
    escrow.filled_amount = 0;
    escrow.remaining_amount = coin.amount;
    Ok(())
}

/// The maker funds the escrow through a token contract's transfer hook:
/// `token_contract` is the contract that calls, `sender` the token holder.
pub fn execute_receive(
    escrow: &mut EscrowInfo,
    token_contract: &String,
    sender: &String,
    amount: u128,
    msg: ReceiveMsg,
) -> (r: Result<(), ContractError>)
    requires
        old(escrow).wf(),
    ensures
        final(escrow).wf(),
        match deposit_failure(*old(escrow), *sender, 1) {
            Some(err) => r == Err::<(), ContractError>(err) && *final(escrow) == *old(escrow),
            None => r is Ok && *final(escrow) == funded(
                *old(escrow),
                Asset::Cw20 { contract: *token_contract },
                amount,
            ),
        },
{
    match msg {
        ReceiveMsg::Deposit => {
            if escrow.status != EscrowStatus::Active || escrow.deposit_asset.is_some() {
                return Err(ContractError::AlreadyWithdrawn);
            }
            if !same_string(sender, &escrow.maker) {
                return Err(ContractError::Unauthorized);
            }
            escrow.deposited_amount = amount;
            escrow.deposit_asset = Some(Asset::Cw20 { contract: token_contract.clone() });
            escrow.filled_amount = 0;
            escrow.remaining_amount = amount;
            Ok(())
        },
    }
}

/// Releases everything left to the taker, or to the caller when no taker is
/// set, for anyone who reveals the secret.
pub fn execute_withdraw(escrow: &mut EscrowInfo, sender: &String, secret: &String) -> (r: Result<
    Option<Payout>,
    ContractError,
>)
    requires
        old(escrow).wf(),
    ensures
        final(escrow).wf(),
        match withdraw_failure(*old(escrow), secret@) {
            Some(err) => r == Err::<Option<Payout>, ContractError>(err) && *final(escrow) == *old(escrow),
            None => r == Ok::<Option<Payout>, ContractError>(
                payout_of(
                    old(escrow).deposit_asset,
                    old(escrow).recipient(*sender),
                    withdraw_amount(*old(escrow)),
                ),
            ) && *final(escrow) == withdrawn(*old(escrow)),
        },
{
    if escrow.status == EscrowStatus::Withdrawn {
        return Err(ContractError::AlreadyWithdrawn);
    }
    if escrow.status == EscrowStatus::Cancelled {
        return Err(ContractError::AlreadyCancelled);
    }
    if !secret_matches(secret.as_str(), escrow.secret_hash.as_str()) {
        return Err(ContractError::InvalidSecret);
    }
    let amount = if escrow.allow_partial_fill {
        escrow.remaining_amount
    } else {
        escrow.deposited_amount
    };
    let recipient = match &escrow.taker {
        Some(t) => t.clone(),
        None => sender.clone(),
    };
    let payout = make_payout(&escrow.deposit_asset, recipient, amount);
    escrow.status = EscrowStatus::Withdrawn;
    escrow.filled_amount = escrow.deposited_amount;
    escrow.remaining_amount = 0;
    Ok(payout)
}

/// Releases `amount` of what is left, for anyone who reveals the secret, when
/// the escrow allows partial fills.
pub fn execute_partial_withdraw(
    escrow: &mut EscrowInfo,
    sender: &String,
    secret: &String,
    amount: u128,
) -> (r: Result<Option<Payout>, ContractError>)
    requires
        old(escrow).wf(),
    ensures
        final(escrow).wf(),
        match partial_withdraw_failure(*old(escrow), secret@, amount) {
            Some(err) => r == Err::<Option<Payout>, ContractError>(err) && *final(escrow) == *old(escrow),
            None => r == Ok::<Option<Payout>, ContractError>(
                payout_of(old(escrow).deposit_asset, old(escrow).recipient(*sender), amount),
            ) && *final(escrow) == partially_filled(*old(escrow), amount),
        },
{
    if !escrow.allow_partial_fill {
        return Err(ContractError::InvalidPartialFillAmount);
    }
    if escrow.status == EscrowStatus::Withdrawn {
        return Err(ContractError::AlreadyWithdrawn);
    }
    if escrow.status == EscrowStatus::Cancelled {
        return Err(ContractError::AlreadyCancelled);
    }
    if amount == 0 {
        return Err(ContractError::InvalidPartialFillAmount);
    }
    if amount > escrow.remaining_amount {
        return Err(ContractError::InsufficientFunds);
    }
    if let Some(min) = escrow.minimum_fill_amount {
        if amount < min {
            return Err(ContractError::InvalidPartialFillAmount);
        }
    }
    if !secret_matches(secret.as_str(), escrow.secret_hash.as_str()) {
        return Err(ContractError::InvalidSecret);
    }
    let recipient = match &escrow.taker {
        Some(t) => t.clone(),
        None => sender.clone(),
    };
    let payout = make_payout(&escrow.deposit_asset, recipient, amount);
    escrow.filled_amount = escrow.filled_amount + amount;
    escrow.remaining_amount = escrow.remaining_amount - amount;
    if escrow.remaining_amount == 0 {
        escrow.status = EscrowStatus::Withdrawn;
    } else {
        escrow.status = EscrowStatus::PartiallyFilled;
    }
    Ok(payout)
}

/// Returns what is left to the maker once the timelock has passed
/// (`now == timelock` is enough).
pub fn execute_cancel(escrow: &mut EscrowInfo, sender: &String, now: u64) -> (r: Result<
    Option<Payout>,
    ContractError,
>)
    requires
        old(escrow).wf(),
    ensures
        final(escrow).wf(),
        match cancel_failure(*old(escrow), *sender, now) {
            Some(err) => r == Err::<Option<Payout>, ContractError>(err) && *final(escrow) == *old(escrow),
            None => r == Ok::<Option<Payout>, ContractError>(
                payout_of(old(escrow).deposit_asset, old(escrow).maker, old(escrow).remaining_amount),
            ) && *final(escrow) == (EscrowInfo { status: EscrowStatus::Cancelled, ..*old(escrow) }),
        },
{
    if escrow.status == EscrowStatus::Withdrawn {
        return Err(ContractError::AlreadyWithdrawn);
    }
    if escrow.status == EscrowStatus::Cancelled {
        return Err(ContractError::AlreadyCancelled);
    }
    if !same_string(sender, &escrow.maker) {
        return Err(ContractError::Unauthorized);
    }
    if now < escrow.timelock {
        return Err(ContractError::TimelockNotExpired);
    }
    let payout = make_payout(&escrow.deposit_asset, escrow.maker.clone(), escrow.remaining_amount);
    escrow.status = EscrowStatus::Cancelled;
    Ok(payout)
}

/// The auction price at time `now`: the decayed price when all three auction
/// parameters are set, else the initial price, else zero.
pub fn calculate_current_price(escrow: &EscrowInfo, now: u64) -> (r: u128)
    ensures
        r == escrow.price_at(now),
{
    let elapsed: u64 = if now >= escrow.created_at {
        now - escrow.created_at
    } else {
        0
    };
    match (escrow.initial_price, escrow.price_decay_rate, escrow.minimum_price) {
        (Some(i), Some(d), Some(m)) => decayed_price(i, m, d, elapsed),
        _ => match escrow.initial_price {
            Some(i) => i,
            None => 0,
        },
    }
}

/// Recomputes the auction price at time `now`; the escrow is not changed.
pub fn execute_update_price(escrow: &EscrowInfo, now: u64) -> (r: u128)
    ensures
        r == escrow.price_at(now),
{
    calculate_current_price(escrow, now)
}

pub fn query_current_price(escrow: &EscrowInfo, now: u64) -> (r: PriceResponse)
    ensures
        r == (PriceResponse {
            current_price: escrow.price_at(now),
            initial_price: escrow.initial_price,
            minimum_price: escrow.minimum_price,
            price_decay_rate: escrow.price_decay_rate,
            time_elapsed: elapsed_since(escrow.created_at, now),
        }),
{
    let time_elapsed: u64 = if now >= escrow.created_at {
        now - escrow.created_at
    } else {
        0
    };
    PriceResponse {
        current_price: calculate_current_price(escrow, now),
        initial_price: escrow.initial_price,
        minimum_price: escrow.minimum_price,
        price_decay_rate: escrow.price_decay_rate,
        time_elapsed,
    }
}

pub fn query_fill_status(escrow: &EscrowInfo) -> (r: FillStatusResponse)
    ensures
        r == (FillStatusResponse {
            total_amount: escrow.deposited_amount,
            filled_amount: escrow.filled_amount,
            remaining_amount: escrow.remaining_amount,
            is_fully_filled: escrow.remaining_amount == 0,
            allow_partial_fill: escrow.allow_partial_fill,
        }),
{
    FillStatusResponse {
        total_amount: escrow.deposited_amount,
        filled_amount: escrow.filled_amount,
        remaining_amount: escrow.remaining_amount,
        is_fully_filled: escrow.remaining_amount == 0,
        allow_partial_fill: escrow.allow_partial_fill,
    }
}

} // verus!
