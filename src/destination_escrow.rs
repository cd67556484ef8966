use vstd::prelude::*;

use crate::funds::{make_payout, payout_of, same_string, Asset, Coin, Payout};
use crate::hashlock::{opens, secret_matches};

verus! {

/// Life cycle of a destination escrow. `Withdrawn` and `Cancelled` are terminal.
#[derive(Clone, Copy, Debug, PartialEq, Eq, Structural)]
pub enum EscrowStatus {
    Active,
    Withdrawn,
    Cancelled,
}

#[derive(Clone, Copy, Debug, PartialEq, Eq, Structural)]
pub enum ContractError {
    Unauthorized,
    InvalidSecret,
    InvalidAmount,
    AlreadyWithdrawn,
    AlreadyCancelled,
    TimelockNotExpired,
    InsufficientFunds,
    SourceEscrowNotConfirmed,
}

/// What a token contract's transfer hook carries in its message.
#[derive(Clone, Copy, Debug, PartialEq, Eq, Structural)]
pub enum ReceiveMsg {
    Deposit,
}

/// Parameters of a new destination escrow; addresses are already validated.
#[derive(Clone, Debug, PartialEq, Eq)]
pub struct InstantiateMsg {
    pub taker: String,
    pub maker: String,
    pub secret_hash: String,
    pub timelock: u64,
    pub src_chain_id: String,
    pub src_escrow_address: String,
    pub expected_amount: u128,
}

/// The state of a destination escrow: funded by the taker with the expected
/// amount, released to the maker once a relayer has confirmed the source
/// escrow and the secret is shown, or returned to the taker after the timelock.
#[derive(Clone, Debug, PartialEq, Eq)]
pub struct EscrowInfo {
    pub taker: String,
    pub maker: String,
    pub secret_hash: String,
    pub timelock: u64,
    pub src_chain_id: String,
    pub src_escrow_address: String,
    pub expected_amount: u128,
    pub deposited_amount: u128,
    /// Set by the one deposit; `None` until then.
    pub deposit_asset: Option<Asset>,
    pub status: EscrowStatus,
    pub created_at: u64,
    pub src_confirmed: bool,
    pub src_tx_hash: Option<String>,
    pub src_block_height: Option<u64>,
}

impl EscrowInfo {
    pub open spec fn deposited(self) -> bool {
        self.deposit_asset is Some
    }

    /// The escrow's invariant: nothing is held before the deposit, and the
    /// deposit is the expected amount.
    pub open spec fn wf(self) -> bool {
        &&& !self.deposited() ==> self.deposited_amount == 0
        &&& self.deposited() ==> self.deposited_amount == self.expected_amount
    }
}

pub open spec fn deposit_failure(e: EscrowInfo, sender: String, n_funds: nat, amount: u128) -> Option<
    ContractError,
> {
    if e.status != EscrowStatus::Active || e.deposited() {
        Some(ContractError::AlreadyWithdrawn)
    } else if sender@ != e.taker@ {
        Some(ContractError::Unauthorized)
    } else if n_funds != 1 {
        Some(ContractError::InsufficientFunds)
    } else if amount != e.expected_amount {
        Some(ContractError::InvalidAmount)
    } else {
        None
    }
}

pub open spec fn withdraw_failure(e: EscrowInfo, sender: String, secret: Seq<char>) -> Option<
    ContractError,
> {
    if e.status == EscrowStatus::Withdrawn {
        Some(ContractError::AlreadyWithdrawn)
    } else if e.status == EscrowStatus::Cancelled {
        Some(ContractError::AlreadyCancelled)
    } else if sender@ != e.maker@ {
        Some(ContractError::Unauthorized)
    } else if !e.src_confirmed {
        Some(ContractError::SourceEscrowNotConfirmed)
    } else if !opens(secret, e.secret_hash@) {
        Some(ContractError::InvalidSecret)
    } else {
        None
    }
}

pub open spec fn cancel_failure(e: EscrowInfo, sender: String, now: u64) -> Option<ContractError> {
    if e.status == EscrowStatus::Withdrawn {
        Some(ContractError::AlreadyWithdrawn)
    } else if e.status == EscrowStatus::Cancelled {
        Some(ContractError::AlreadyCancelled)
    } else if sender@ != e.taker@ {
        Some(ContractError::Unauthorized)
    } else if now < e.timelock {
        Some(ContractError::TimelockNotExpired)
    } else {
        None
    }
}

pub open spec fn confirm_failure(e: EscrowInfo) -> Option<ContractError> {
    if e.status == EscrowStatus::Withdrawn {
        Some(ContractError::AlreadyWithdrawn)
    } else if e.status == EscrowStatus::Cancelled {
        Some(ContractError::AlreadyCancelled)
    } else {
        None
    }
}

/// Creates a destination escrow at time `now`, unconfirmed and unfunded.
pub fn instantiate(msg: InstantiateMsg, now: u64) -> (r: EscrowInfo)
    ensures
        r == (EscrowInfo {
            taker: msg.taker,
            maker: msg.maker,
            secret_hash: msg.secret_hash,
            timelock: msg.timelock,
            src_chain_id: msg.src_chain_id,
            src_escrow_address: msg.src_escrow_address,
            expected_amount: msg.expected_amount,
            deposited_amount: 0,
            deposit_asset: None,
            status: EscrowStatus::Active,
            created_at: now,
            src_confirmed: false,
            src_tx_hash: None,
            src_block_height: None,
        }),
        r.wf(),
{
    EscrowInfo {
        taker: msg.taker,
        maker: msg.maker,
        secret_hash: msg.secret_hash,
        timelock: msg.timelock,
        src_chain_id: msg.src_chain_id,
        src_escrow_address: msg.src_escrow_address,
        expected_amount: msg.expected_amount,
        deposited_amount: 0,
        deposit_asset: None,
        status: EscrowStatus::Active,
        created_at: now,
        src_confirmed: false,
        src_tx_hash: None,
        src_block_height: None,
    }
}

/// The taker funds the escrow with exactly one native coin of the expected
/// amount. Only the first deposit is accepted.
pub fn execute_deposit(escrow: &mut EscrowInfo, sender: &String, funds: &Vec<Coin>) -> (r: Result<
    (),
    ContractError,
>)
    requires
        old(escrow).wf(),
    ensures
        final(escrow).wf(),
        match deposit_failure(
            *old(escrow),
            *sender,
            funds@.len(),
            if funds@.len() == 1 {
                funds@[0].amount
            } else {
                0
            },
        ) {
            Some(err) => r == Err::<(), ContractError>(err) && *final(escrow) == *old(escrow),
            None => r is Ok && *final(escrow) == (EscrowInfo {
                deposited_amount: funds@[0].amount,
                deposit_asset: Some(Asset::Native { denom: funds@[0].denom }),
                ..*old(escrow)
            }),
        },
{
    if escrow.status != EscrowStatus::Active || escrow.deposit_asset.is_some() {
        return Err(ContractError::AlreadyWithdrawn);
    }
    if !same_string(sender, &escrow.taker) {
        return Err(ContractError::Unauthorized);
    }
    if funds.len() != 1 {
        return Err(ContractError::InsufficientFunds);
    }
    let coin = &funds[0];
    if coin.amount != escrow.expected_amount {
        return Err(ContractError::InvalidAmount);
    }
    escrow.deposited_amount = coin.amount;
    escrow.deposit_asset = Some(Asset::Native { denom: coin.denom.clone() });
    Ok(())
}

/// The taker funds the escrow through a token contract's transfer hook:
/// `token_contract` is the contract that calls, `sender` the token holder.
pub fn execute_receive(
    escrow: &mut EscrowInfo,
    token_contract: &String,
    sender: &String,
    amount: u128,
    msg: ReceiveMsg,
) -> (r: Result<(), ContractError>)
    requires
        old(escrow).wf(),
    ensures
        final(escrow).wf(),
        match deposit_failure(*old(escrow), *sender, 1, amount) {
            Some(err) => r == Err::<(), ContractError>(err) && *final(escrow) == *old(escrow),
            None => r is Ok && *final(escrow) == (EscrowInfo {
                deposited_amount: amount,
                deposit_asset: Some(Asset::Cw20 { contract: *token_contract }),
                ..*old(escrow)
            }),
        },
{
    match msg {
        ReceiveMsg::Deposit => {
            if escrow.status != EscrowStatus::Active || escrow.deposit_asset.is_some() {
                return Err(ContractError::AlreadyWithdrawn);
            }
            if !same_string(sender, &escrow.taker) {
                return Err(ContractError::Unauthorized);
            }
            if amount != escrow.expected_amount {
                return Err(ContractError::InvalidAmount);
            }
            escrow.deposited_amount = amount;
            escrow.deposit_asset = Some(Asset::Cw20 { contract: token_contract.clone() });
            Ok(())
        },
    }
}

/// Releases the deposit to the maker, who must show the secret after the
/// source escrow has been confirmed.
pub fn execute_withdraw(escrow: &mut EscrowInfo, sender: &String, secret: &String) -> (r: Result<
    Option<Payout>,
    ContractError,
>)
    requires
        old(escrow).wf(),
    ensures
        final(escrow).wf(),
        match withdraw_failure(*old(escrow), *sender, secret@) {
            Some(err) => r == Err::<Option<Payout>, ContractError>(err) && *final(escrow) == *old(escrow),
            None => r == Ok::<Option<Payout>, ContractError>(
                payout_of(old(escrow).deposit_asset, old(escrow).maker, old(escrow).deposited_amount),
            ) && *final(escrow) == (EscrowInfo { status: EscrowStatus::Withdrawn, ..*old(escrow) }),
        },
{
    if escrow.status == EscrowStatus::Withdrawn {
        return Err(ContractError::AlreadyWithdrawn);
    }
    if escrow.status == EscrowStatus::Cancelled {
        return Err(ContractError::AlreadyCancelled);
    }
    if !same_string(sender, &escrow.maker) {
        return Err(ContractError::Unauthorized);
    }
    if !escrow.src_confirmed {
        return Err(ContractError::SourceEscrowNotConfirmed);
    }
    if !secret_matches(secret.as_str(), escrow.secret_hash.as_str()) {
        return Err(ContractError::InvalidSecret);
    }
    let payout = make_payout(&escrow.deposit_asset, escrow.maker.clone(), escrow.deposited_amount);
    escrow.status = EscrowStatus::Withdrawn;
    Ok(payout)
}

/// Returns the deposit to the taker once the timelock has passed
/// (`now == timelock` is enough).
pub fn execute_cancel(escrow: &mut EscrowInfo, sender: &String, now: u64) -> (r: Result<
    Option<Payout>,
    ContractError,
>)
    requires
        old(escrow).wf(),
    ensures
        final(escrow).wf(),
        match cancel_failure(*old(escrow), *sender, now) {
            Some(err) => r == Err::<Option<Payout>, ContractError>(err) && *final(escrow) == *old(escrow),
            None => r == Ok::<Option<Payout>, ContractError>(
                payout_of(old(escrow).deposit_asset, old(escrow).taker, old(escrow).deposited_amount),
            ) && *final(escrow) == (EscrowInfo { status: EscrowStatus::Cancelled, ..*old(escrow) }),
        },
{
    if escrow.status == EscrowStatus::Withdrawn {
        return Err(ContractError::AlreadyWithdrawn);
    }
    if escrow.status == EscrowStatus::Cancelled {
        return Err(ContractError::AlreadyCancelled);
    }
    if !same_string(sender, &escrow.taker) {
        return Err(ContractError::Unauthorized);
    }
    if now < escrow.timelock {
        return Err(ContractError::TimelockNotExpired);
    }
    let payout = make_payout(&escrow.deposit_asset, escrow.taker.clone(), escrow.deposited_amount);
    escrow.status = EscrowStatus::Cancelled;
    Ok(payout)
}

/// Records a relayer's attestation that the source escrow exists. Any caller
/// may confirm, and a later confirmation overwrites an earlier one; a
/// finished escrow is not changed.
pub fn execute_confirm_source_escrow(
    escrow: &mut EscrowInfo,
    src_tx_hash: String,
    block_height: u64,
) -> (r: Result<(), ContractError>)
    requires
        old(escrow).wf(),
    ensures
        final(escrow).wf(),
        match confirm_failure(*old(escrow)) {
            Some(err) => r == Err::<(), ContractError>(err) && *final(escrow) == *old(escrow),
            None => r is Ok && *final(escrow) == (EscrowInfo {
                src_confirmed: true,
                src_tx_hash: Some(src_tx_hash),
                src_block_height: Some(block_height),
                ..*old(escrow)
            }),
        },
{
    if escrow.status == EscrowStatus::Withdrawn {
        return Err(ContractError::AlreadyWithdrawn);
    }
    if escrow.status == EscrowStatus::Cancelled {
        return Err(ContractError::AlreadyCancelled);
    }
    escrow.src_confirmed = true;
    escrow.src_tx_hash = Some(src_tx_hash);
    escrow.src_block_height = Some(block_height);
    Ok(())
}

} // verus!
