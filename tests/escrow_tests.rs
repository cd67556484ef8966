use cronos_contracts::source_escrow::{
    self, ContractError, EscrowInfo, EscrowStatus, InstantiateMsg, ReceiveMsg,
};
use cronos_contracts::{destination_escrow, Asset, Coin, Payout};
use sha2::Digest;

fn hash_hex(secret: &str) -> String {
    format!("{:x}", sha2::Sha256::digest(secret.as_bytes()))
}

fn s(v: &str) -> String {
    v.to_string()
}

fn source_msg(allow_partial_fill: bool, minimum_fill_amount: Option<u128>) -> InstantiateMsg {
    InstantiateMsg {
        maker: s("maker"),
        taker: Some(s("taker")),
        secret_hash: hash_hex("my-secret"),
        timelock: 1000,
        dst_chain_id: s("ethereum-1"),
        dst_asset: s("ETH"),
        dst_amount: 100,
        initial_price: Some(200),
        price_decay_rate: Some(1),
        minimum_price: Some(100),
        allow_partial_fill,
        minimum_fill_amount,
    }
}

fn funded_source(allow_partial_fill: bool, minimum_fill_amount: Option<u128>) -> EscrowInfo {
    let mut e = source_escrow::instantiate(source_msg(allow_partial_fill, minimum_fill_amount), 10).unwrap();
    let funds = vec![Coin { denom: s("uatom"), amount: 100 }];
    source_escrow::execute_deposit(&mut e, &s("maker"), &funds).unwrap();
    e
}

#[test]
fn proper_initialization() {
    let msg = InstantiateMsg {
        maker: "maker".to_string(),
        taker: Some("taker".to_string()),
        secret_hash: "hash123".to_string(),
        timelock: 1000,
        dst_chain_id: "ethereum-1".to_string(),
        dst_asset: "ETH".to_string(),
        dst_amount: 100u128,
        initial_price: Some(200u128),
        price_decay_rate: Some(1u128),
        minimum_price: Some(100u128),
        allow_partial_fill: true,
        minimum_fill_amount: Some(10u128),
    };
    let escrow = source_escrow::instantiate(msg, 1_571_797_419).unwrap();
    // Creating an escrow moves no funds.
    assert_eq!(0, escrow.deposited_amount);
    assert!(escrow.deposit_asset.is_none());
    assert_eq!(escrow.status, EscrowStatus::Active);
}

#[test]
fn instantiate_rejects_inverted_auction() {
    let mut msg = source_msg(false, None);
    msg.initial_price = Some(100);
    msg.minimum_price = Some(100);
    assert_eq!(source_escrow::instantiate(msg, 0), Err(ContractError::InvalidDutchAuctionParams));
}

#[test]
fn partial_fill_scenario() {
    let mut e = funded_source(true, Some(10));
    assert_eq!(e.remaining_amount, 100);
    let p = source_escrow::execute_partial_withdraw(&mut e, &s("anyone"), &s("my-secret"), 30).unwrap();
    assert_eq!(
        p,
        Some(Payout { asset: Asset::Native { denom: s("uatom") }, recipient: s("taker"), amount: 30 })
    );
    assert_eq!(e.filled_amount, 30);
    assert_eq!(e.remaining_amount, 70);
    assert_eq!(e.status, EscrowStatus::PartiallyFilled);
    source_escrow::execute_partial_withdraw(&mut e, &s("anyone"), &s("my-secret"), 70).unwrap();
    assert_eq!(e.filled_amount, 100);
    assert_eq!(e.remaining_amount, 0);
    assert_eq!(e.status, EscrowStatus::Withdrawn);
    assert_eq!(
        source_escrow::execute_withdraw(&mut e, &s("anyone"), &s("my-secret")),
        Err(ContractError::AlreadyWithdrawn)
    );
}

#[test]
fn partial_withdraw_bounds() {
    let mut e = funded_source(true, Some(10));
    let before = e.clone();
    assert_eq!(
        source_escrow::execute_partial_withdraw(&mut e, &s("x"), &s("my-secret"), 0),
        Err(ContractError::InvalidPartialFillAmount)
    );
    assert_eq!(
        source_escrow::execute_partial_withdraw(&mut e, &s("x"), &s("my-secret"), 5),
        Err(ContractError::InvalidPartialFillAmount)
    );
    assert_eq!(
        source_escrow::execute_partial_withdraw(&mut e, &s("x"), &s("my-secret"), 101),
        Err(ContractError::InsufficientFunds)
    );
    assert_eq!(
        source_escrow::execute_partial_withdraw(&mut e, &s("x"), &s("wrong"), 20),
        Err(ContractError::InvalidSecret)
    );
    assert_eq!(e, before);
    let mut whole = funded_source(false, None);
    assert_eq!(
        source_escrow::execute_partial_withdraw(&mut whole, &s("x"), &s("my-secret"), 20),
        Err(ContractError::InvalidPartialFillAmount)
    );
}

#[test]
fn second_deposit_fails() {
    let mut e = funded_source(false, None);
    let funds = vec![Coin { denom: s("uatom"), amount: 500 }];
    assert_eq!(
        source_escrow::execute_deposit(&mut e, &s("maker"), &funds),
        Err(ContractError::AlreadyWithdrawn)
    );
    assert_eq!(
        source_escrow::execute_receive(&mut e, &s("token"), &s("maker"), 500, ReceiveMsg::Deposit),
        Err(ContractError::AlreadyWithdrawn)
    );
    assert_eq!(e.deposited_amount, 100);
}

#[test]
fn deposit_checks_sender_and_funds() {
    let mut e = source_escrow::instantiate(source_msg(false, None), 0).unwrap();
    let one = vec![Coin { denom: s("uatom"), amount: 5 }];
    assert_eq!(source_escrow::execute_deposit(&mut e, &s("taker"), &one), Err(ContractError::Unauthorized));
    assert_eq!(
        source_escrow::execute_deposit(&mut e, &s("maker"), &vec![]),
        Err(ContractError::InsufficientFunds)
    );
    let two = vec![Coin { denom: s("a"), amount: 1 }, Coin { denom: s("b"), amount: 1 }];
    assert_eq!(source_escrow::execute_deposit(&mut e, &s("maker"), &two), Err(ContractError::InsufficientFunds));
    source_escrow::execute_receive(&mut e, &s("token"), &s("maker"), 42, ReceiveMsg::Deposit).unwrap();
    assert_eq!(e.deposit_asset, Some(Asset::Cw20 { contract: s("token") }));
    assert_eq!(e.remaining_amount, 42);
}

#[test]
fn withdraw_secret_and_recipient() {
    let mut e = funded_source(false, None);
    assert_eq!(
        source_escrow::execute_withdraw(&mut e, &s("caller"), &s("not-it")),
        Err(ContractError::InvalidSecret)
    );
    let p = source_escrow::execute_withdraw(&mut e, &s("caller"), &s("my-secret")).unwrap();
    assert_eq!(p.unwrap().recipient, s("taker"));
    assert_eq!(e.status, EscrowStatus::Withdrawn);

    let mut msg = source_msg(false, None);
    msg.taker = None;
    let mut open = source_escrow::instantiate(msg, 0).unwrap();
    source_escrow::execute_receive(&mut open, &s("token"), &s("maker"), 9, ReceiveMsg::Deposit).unwrap();
    let p = source_escrow::execute_withdraw(&mut open, &s("caller"), &s("my-secret")).unwrap();
    assert_eq!(
        p,
        Some(Payout { asset: Asset::Cw20 { contract: s("token") }, recipient: s("caller"), amount: 9 })
    );
}

#[test]
fn source_cancel_flips_at_timelock() {
    for now in 990u64..1010 {
        let mut e = funded_source(false, None);
        let r = source_escrow::execute_cancel(&mut e, &s("maker"), now);
        if now < 1000 {
            assert_eq!(r, Err(ContractError::TimelockNotExpired));
            assert_eq!(e.status, EscrowStatus::Active);
        } else {
            assert_eq!(r.unwrap().unwrap().amount, 100);
            assert_eq!(e.status, EscrowStatus::Cancelled);
        }
    }
    let mut e = funded_source(false, None);
    assert_eq!(source_escrow::execute_cancel(&mut e, &s("taker"), 2000), Err(ContractError::Unauthorized));
    source_escrow::execute_cancel(&mut e, &s("maker"), 2000).unwrap();
    assert_eq!(source_escrow::execute_cancel(&mut e, &s("maker"), 2000), Err(ContractError::AlreadyCancelled));
    assert_eq!(
        source_escrow::execute_withdraw(&mut e, &s("maker"), &s("my-secret")),
        Err(ContractError::AlreadyCancelled)
    );
}

#[test]
fn escrow_price_decays_to_floor() {
    let e = funded_source(false, None);
    // created at 10, price 200 falling by 1 per second to 100
    assert_eq!(source_escrow::calculate_current_price(&e, 10), 200);
    assert_eq!(source_escrow::calculate_current_price(&e, 60), 150);
    assert_eq!(source_escrow::calculate_current_price(&e, 500), 100);
    assert_eq!(source_escrow::execute_update_price(&e, 5), 200);
    let q = source_escrow::query_current_price(&e, 70);
    assert_eq!(q.current_price, 140);
    assert_eq!(q.time_elapsed, 60);
    let mut last = u128::MAX;
    for now in (0u64..400).step_by(7) {
        let p = source_escrow::calculate_current_price(&e, now);
        assert!(p <= last && p >= 100);
        last = p;
    }
    let mut big = e.clone();
    big.price_decay_rate = Some(u128::MAX);
    assert_eq!(source_escrow::calculate_current_price(&big, u64::MAX), 100);
    let fill = source_escrow::query_fill_status(&e);
    assert_eq!(fill.total_amount, 100);
    assert!(!fill.is_fully_filled);
}

#[test]
fn destination_confirm_then_withdraw() {
    let msg = destination_escrow::InstantiateMsg {
        taker: s("taker"),
        maker: s("maker"),
        secret_hash: hash_hex("dst-secret"),
        timelock: 500,
        src_chain_id: s("cronos-1"),
        src_escrow_address: s("src-escrow"),
        expected_amount: 77,
    };
    let mut e = destination_escrow::instantiate(msg, 1);
    let wrong = vec![Coin { denom: s("uatom"), amount: 76 }];
    assert_eq!(
        destination_escrow::execute_deposit(&mut e, &s("taker"), &wrong),
        Err(destination_escrow::ContractError::InvalidAmount)
    );
    let right = vec![Coin { denom: s("uatom"), amount: 77 }];
    destination_escrow::execute_deposit(&mut e, &s("taker"), &right).unwrap();
    assert_eq!(
        destination_escrow::execute_deposit(&mut e, &s("taker"), &right),
        Err(destination_escrow::ContractError::AlreadyWithdrawn)
    );
    assert_eq!(
        destination_escrow::execute_withdraw(&mut e, &s("maker"), &s("dst-secret")),
        Err(destination_escrow::ContractError::SourceEscrowNotConfirmed)
    );
    // Any caller may confirm, and confirming again overwrites.
    destination_escrow::execute_confirm_source_escrow(&mut e, s("0xaaa"), 10).unwrap();
    destination_escrow::execute_confirm_source_escrow(&mut e, s("0xbbb"), 11).unwrap();
    assert_eq!(e.src_tx_hash, Some(s("0xbbb")));
    assert_eq!(e.src_block_height, Some(11));
    assert_eq!(
        destination_escrow::execute_withdraw(&mut e, &s("taker"), &s("dst-secret")),
        Err(destination_escrow::ContractError::Unauthorized)
    );
    assert_eq!(
        destination_escrow::execute_withdraw(&mut e, &s("maker"), &s("nope")),
        Err(destination_escrow::ContractError::InvalidSecret)
    );
    let p = destination_escrow::execute_withdraw(&mut e, &s("maker"), &s("dst-secret")).unwrap();
    assert_eq!(
        p,
        Some(Payout { asset: Asset::Native { denom: s("uatom") }, recipient: s("maker"), amount: 77 })
    );
    assert_eq!(e.status, destination_escrow::EscrowStatus::Withdrawn);
    assert_eq!(
        destination_escrow::execute_confirm_source_escrow(&mut e, s("0xccc"), 12),
        Err(destination_escrow::ContractError::AlreadyWithdrawn)
    );
}

#[test]
fn destination_cancel_flips_at_timelock() {
    let msg = destination_escrow::InstantiateMsg {
        taker: s("taker"),
        maker: s("maker"),
        secret_hash: hash_hex("x"),
        timelock: 500,
        src_chain_id: s("c"),
        src_escrow_address: s("a"),
        expected_amount: 3,
    };
    let mut e = destination_escrow::instantiate(msg, 1);
    destination_escrow::execute_receive(&mut e, &s("cw20"), &s("taker"), 3, destination_escrow::ReceiveMsg::Deposit)
        .unwrap();
    assert_eq!(
        destination_escrow::execute_cancel(&mut e, &s("taker"), 499),
        Err(destination_escrow::ContractError::TimelockNotExpired)
    );
    assert_eq!(
        destination_escrow::execute_cancel(&mut e, &s("maker"), 500),
        Err(destination_escrow::ContractError::Unauthorized)
    );
    let p = destination_escrow::execute_cancel(&mut e, &s("taker"), 500).unwrap();
    assert_eq!(
        p,
        Some(Payout { asset: Asset::Cw20 { contract: s("cw20") }, recipient: s("taker"), amount: 3 })
    );
    assert_eq!(e.status, destination_escrow::EscrowStatus::Cancelled);
}

#[test]
fn repeated_confirmation_is_idempotent() {
    let msg = destination_escrow::InstantiateMsg {
        taker: s("taker"),
        maker: s("maker"),
        secret_hash: hash_hex("x"),
        timelock: 5,
        src_chain_id: s("c"),
        src_escrow_address: s("a"),
        expected_amount: 1,
    };
    let mut e = destination_escrow::instantiate(msg, 0);
    destination_escrow::execute_confirm_source_escrow(&mut e, s("0x1"), 9).unwrap();
    let once = e.clone();
    destination_escrow::execute_confirm_source_escrow(&mut e, s("0x1"), 9).unwrap();
    assert_eq!(e, once);
    assert!(e.src_confirmed);
}

#[test]
fn finished_source_escrow_accepts_nothing() {
    let mut e = funded_source(true, None);
    source_escrow::execute_cancel(&mut e, &s("maker"), 1000).unwrap();
    let done = e.clone();
    let funds = vec![Coin { denom: s("uatom"), amount: 1 }];
    assert!(source_escrow::execute_deposit(&mut e, &s("maker"), &funds).is_err());
    assert!(source_escrow::execute_withdraw(&mut e, &s("x"), &s("my-secret")).is_err());
    assert!(source_escrow::execute_partial_withdraw(&mut e, &s("x"), &s("my-secret"), 1).is_err());
    assert!(source_escrow::execute_cancel(&mut e, &s("maker"), 2000).is_err());
    assert_eq!(e, done);
}
