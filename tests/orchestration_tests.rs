use cronos_contracts::factory::{self, Config as FactoryConfig, EscrowType};
use cronos_contracts::resolver::{
    self, Config, ContractError, EscrowCall, Forward, OrderAction, OrderStatus, Resolver,
};
use cronos_contracts::{destination_escrow, source_escrow};

fn s(v: &str) -> String {
    v.to_string()
}

fn new_factory() -> factory::Factory {
    factory::instantiate(FactoryConfig {
        owner: s("owner"),
        source_escrow_code_id: 7,
        destination_escrow_code_id: 8,
    })
}

fn new_resolver() -> Resolver {
    resolver::instantiate(Config {
        owner: s("owner"),
        escrow_factory: s("factory"),
        authorized_relayers: vec![s("relayer")],
    })
}

fn src_msg(allow_partial_fill: bool) -> source_escrow::InstantiateMsg {
    source_escrow::InstantiateMsg {
        maker: s("maker"),
        taker: None,
        secret_hash: s("00"),
        timelock: 100,
        dst_chain_id: s("eth"),
        dst_asset: s("ETH"),
        dst_amount: 50,
        initial_price: Some(1000),
        price_decay_rate: Some(10),
        minimum_price: Some(400),
        allow_partial_fill,
        minimum_fill_amount: None,
    }
}

fn dst_msg() -> destination_escrow::InstantiateMsg {
    destination_escrow::InstantiateMsg {
        taker: s("taker"),
        maker: s("maker"),
        secret_hash: s("00"),
        timelock: 100,
        src_chain_id: s("cronos"),
        src_escrow_address: s("src"),
        expected_amount: 5,
    }
}

#[test]
fn factory_same_salt_twice_fails() {
    let mut f = new_factory();
    let req = factory::execute_create_source_escrow(&mut f, &s("alice"), 123, 1, &s("swap")).unwrap();
    assert_eq!(req.salt, s("alice:123:swap"));
    assert_eq!(req.label, s("source_escrow_alice:123:swap"));
    assert_eq!(req.code_id, 7);
    assert_eq!(req.correlation_id, 0);
    assert_eq!(
        factory::execute_create_destination_escrow(&mut f, &s("alice"), 123, 1, &s("swap")),
        Err(factory::ContractError::EscrowAlreadyExists)
    );
    assert_eq!(f.escrows.len(), 1);
    let other = factory::execute_create_destination_escrow(&mut f, &s("alice"), 124, 1, &s("swap")).unwrap();
    assert_eq!(other.label, s("destination_escrow_alice:124:swap"));
    assert_eq!(other.code_id, 8);
    assert_eq!(other.correlation_id, 1);
}

#[test]
fn factory_reply_patches_its_own_row() {
    let mut f = new_factory();
    let a = factory::create(&mut f, EscrowType::Source, &s("alice"), 1, 1, &s("a")).unwrap();
    let b = factory::create(&mut f, EscrowType::Destination, &s("bob"), 2, 1, &s("b")).unwrap();
    // results arrive in the other order
    factory::reply(&mut f, b.correlation_id, s("addr-b")).unwrap();
    factory::reply(&mut f, a.correlation_id, s("addr-a")).unwrap();
    assert_eq!(factory::query_escrow_address(&f, &s("alice:1:a")), Some(Some(s("addr-a"))));
    assert_eq!(factory::query_escrow_address(&f, &s("bob:2:b")), Some(Some(s("addr-b"))));
    assert_eq!(factory::query_escrow_address(&f, &s("nobody:0:x")), None);
    assert_eq!(factory::reply(&mut f, a.correlation_id, s("again")), Err(factory::ContractError::UnknownCreation));
    assert_eq!(factory::reply(&mut f, 9, s("x")), Err(factory::ContractError::UnknownCreation));
}

#[test]
fn factory_config_and_listing() {
    let mut f = new_factory();
    assert_eq!(
        factory::execute_update_code_ids(&mut f, &s("mallory"), Some(1), None),
        Err(factory::ContractError::Unauthorized)
    );
    factory::execute_update_code_ids(&mut f, &s("owner"), None, Some(99)).unwrap();
    assert_eq!(f.config.source_escrow_code_id, 7);
    assert_eq!(f.config.destination_escrow_code_id, 99);
    assert_eq!(factory::execute_update_owner(&mut f, &s("x"), s("y")), Err(factory::ContractError::Unauthorized));
    factory::execute_update_owner(&mut f, &s("owner"), s("new")).unwrap();
    assert_eq!(f.config.owner, s("new"));
    for i in 0u64..5 {
        factory::create(&mut f, EscrowType::Source, &s("c"), i, 0, &s("l")).unwrap();
    }
    let page = factory::query_escrow_list(&f, None, Some(2));
    assert_eq!(page.len(), 2);
    assert_eq!(page[1].salt, s("c:1:l"));
    let rest = factory::query_escrow_list(&f, Some(s("c:1:l")), None);
    assert_eq!(rest.len(), 3);
    assert_eq!(rest[0].salt, s("c:2:l"));
    assert!(rest[0].address.is_none());
    assert!(factory::query_escrow_list(&f, Some(s("none")), None).is_empty());
}

#[test]
fn process_order_requires_relayer() {
    let mut r = new_resolver();
    let id = resolver::execute_deploy_dst(&mut r, &s("owner"), 5, &dst_msg()).unwrap();
    resolver::execute_record_escrow_address(&mut r, &s("owner"), &id, s("dst-escrow"), 6).unwrap();
    let actions = vec![
        OrderAction::ConfirmSource { src_tx_hash: s("0x1"), block_height: 1 },
        OrderAction::ExecuteSwap { secret: s("s") },
        OrderAction::CancelOrder,
    ];
    for a in actions {
        for who in ["owner", "stranger"] {
            assert_eq!(
                resolver::execute_process_order(&mut r, &s(who), &id, a.clone(), Some(s("proof")), 7),
                Err(ContractError::InvalidRelayer)
            );
        }
    }
    assert_eq!(r.orders[0].status, OrderStatus::Active);
}

#[test]
fn process_order_actions() {
    let mut r = new_resolver();
    let id = resolver::execute_deploy_dst(&mut r, &s("relayer"), 5, &dst_msg()).unwrap();
    assert_eq!(id, s("order_1"));
    assert_eq!(
        resolver::execute_process_order(&mut r, &s("relayer"), &id, OrderAction::CancelOrder, None, 6),
        Err(ContractError::InvalidEscrowAddress)
    );
    assert_eq!(
        resolver::execute_process_order(&mut r, &s("relayer"), &s("order_9"), OrderAction::CancelOrder, None, 6),
        Err(ContractError::OrderNotFound)
    );
    resolver::execute_record_escrow_address(&mut r, &s("relayer"), &id, s("dst-escrow"), 6).unwrap();
    let fwd = resolver::execute_process_order(
        &mut r,
        &s("relayer"),
        &id,
        OrderAction::ConfirmSource { src_tx_hash: s("0xabc"), block_height: 42 },
        None,
        7,
    )
    .unwrap();
    assert_eq!(
        fwd,
        Forward {
            contract: s("dst-escrow"),
            call: EscrowCall::ConfirmSourceEscrow { src_tx_hash: s("0xabc"), block_height: 42 }
        }
    );
    assert_eq!(r.orders[0].status, OrderStatus::Matched);
    assert_eq!(r.orders[0].updated_at, 7);
    let fwd = resolver::execute_process_order(
        &mut r,
        &s("relayer"),
        &id,
        OrderAction::ExecuteSwap { secret: s("pre") },
        None,
        8,
    )
    .unwrap();
    assert_eq!(fwd.call, EscrowCall::Withdraw { secret: s("pre") });
    assert_eq!(r.orders[0].status, OrderStatus::Completed);
    let fwd = resolver::execute_process_order(&mut r, &s("relayer"), &id, OrderAction::CancelOrder, None, 9).unwrap();
    assert_eq!(fwd.call, EscrowCall::Cancel);
    assert_eq!(r.orders[0].status, OrderStatus::Cancelled);
}

#[test]
fn deploy_assigns_ids_and_snapshots() {
    let mut r = new_resolver();
    assert_eq!(
        resolver::execute_deploy_src(&mut r, &s("stranger"), 1, &src_msg(true), None),
        Err(ContractError::Unauthorized)
    );
    let a = resolver::execute_deploy_src(&mut r, &s("owner"), 10, &src_msg(true), Some(s("lop"))).unwrap();
    let b = resolver::execute_deploy_src(&mut r, &s("relayer"), 11, &src_msg(false), None).unwrap();
    assert_eq!(a, s("order_1"));
    assert_eq!(b, s("order_2"));
    let o = resolver::query_order(&r, &s("order_1")).unwrap();
    assert_eq!(o.maker, s("maker"));
    assert_eq!(o.escrow_address, None);
    assert_eq!(o.lop_order_data, Some(s("lop")));
    let da = o.dutch_auction.unwrap();
    assert_eq!((da.initial_price, da.minimum_price, da.price_decay_rate, da.start_time, da.current_price), (1000, 400, 10, 10, 1000));
    let pf = o.partial_fill.unwrap();
    assert_eq!((pf.filled_amount, pf.remaining_amount), (0, 50));
    assert!(resolver::query_order(&r, &s("order_2")).unwrap().partial_fill.is_none());
    assert!(resolver::query_order(&r, &s("order_3")).is_none());
    let page = resolver::query_active_orders(&r, Some(s("order_1")), Some(10));
    assert_eq!(page.len(), 1);
    assert_eq!(page[0].order_id, s("order_2"));
}

#[test]
fn mirror_follows_forwarded_calls() {
    let mut r = new_resolver();
    let id = resolver::execute_deploy_src(&mut r, &s("owner"), 10, &src_msg(true), None).unwrap();
    // before the address is known nothing is mirrored
    let fwd = resolver::execute_partial_withdraw(&mut r, &s("relayer"), s("esc"), s("sec"), 20, 11).unwrap();
    assert_eq!(fwd.call, EscrowCall::PartialWithdraw { secret: s("sec"), amount: 20 });
    assert_eq!(r.orders[0].partial_fill.unwrap().filled_amount, 0);
    resolver::execute_record_escrow_address(&mut r, &s("owner"), &id, s("esc"), 12).unwrap();
    let other = resolver::execute_deploy_src(&mut r, &s("owner"), 10, &src_msg(false), None).unwrap();
    assert_eq!(
        resolver::execute_record_escrow_address(&mut r, &s("owner"), &other, s("esc"), 12),
        Err(ContractError::InvalidEscrowAddress)
    );
    assert_eq!(
        resolver::execute_record_escrow_address(&mut r, &s("owner"), &id, s("esc2"), 12),
        Err(ContractError::InvalidEscrowAddress)
    );
    resolver::execute_partial_withdraw(&mut r, &s("relayer"), s("esc"), s("sec"), 20, 13).unwrap();
    let pf = r.orders[0].partial_fill.unwrap();
    assert_eq!((pf.filled_amount, pf.remaining_amount), (20, 30));
    assert_eq!(r.orders[0].status, OrderStatus::Active);
    resolver::execute_partial_withdraw(&mut r, &s("relayer"), s("esc"), s("sec"), 40, 14).unwrap();
    let pf = r.orders[0].partial_fill.unwrap();
    assert_eq!((pf.filled_amount, pf.remaining_amount), (50, 0));
    assert_eq!(r.orders[0].status, OrderStatus::Completed);
    resolver::execute_cancel(&mut r, &s("owner"), s("esc"), 15).unwrap();
    assert_eq!(r.orders[0].status, OrderStatus::Cancelled);
    resolver::execute_withdraw(&mut r, &s("owner"), s("esc"), s("sec"), 16).unwrap();
    assert_eq!(r.orders[0].status, OrderStatus::Completed);
    assert_eq!(r.orders[0].updated_at, 16);
    assert_eq!(
        resolver::execute_withdraw(&mut r, &s("stranger"), s("esc"), s("sec"), 17),
        Err(ContractError::Unauthorized)
    );
}

#[test]
fn cached_price_is_recomputed() {
    let mut r = new_resolver();
    let id = resolver::execute_deploy_src(&mut r, &s("owner"), 100, &src_msg(false), None).unwrap();
    resolver::execute_record_escrow_address(&mut r, &s("owner"), &id, s("esc"), 100).unwrap();
    resolver::execute_update_price(&mut r, &s("esc"), 130);
    assert_eq!(r.orders[0].dutch_auction.unwrap().current_price, 700);
    let q = resolver::query_current_price(&r, &s("esc"), 200);
    assert_eq!(q.current_price, 400);
    assert_eq!(q.time_elapsed, 100);
    assert_eq!(resolver::query_current_price(&r, &s("nothing"), 200).current_price, 0);
    // the escrow created with the same parameters at the same time agrees
    let e = source_escrow::instantiate(src_msg(false), 100).unwrap();
    for now in [100u64, 130, 150, 200, 10_000] {
        resolver::execute_update_price(&mut r, &s("esc"), now);
        assert_eq!(
            r.orders[0].dutch_auction.unwrap().current_price,
            source_escrow::calculate_current_price(&e, now)
        );
    }
}

#[test]
fn relayer_management_is_idempotent() {
    let mut r = new_resolver();
    assert_eq!(resolver::execute_add_relayer(&mut r, &s("relayer"), s("r2")), Err(ContractError::Unauthorized));
    resolver::execute_add_relayer(&mut r, &s("owner"), s("r2")).unwrap();
    resolver::execute_add_relayer(&mut r, &s("owner"), s("r2")).unwrap();
    assert_eq!(r.config.authorized_relayers, vec![s("relayer"), s("r2")]);
    assert!(resolver::query_is_authorized_relayer(&r, &s("r2")));
    resolver::execute_remove_relayer(&mut r, &s("owner"), &s("relayer")).unwrap();
    resolver::execute_remove_relayer(&mut r, &s("owner"), &s("absent")).unwrap();
    assert_eq!(r.config.authorized_relayers, vec![s("r2")]);
    assert!(!resolver::query_is_authorized_relayer(&r, &s("relayer")));
    assert_eq!(resolver::execute_update_owner(&mut r, &s("r2"), s("x")), Err(ContractError::Unauthorized));
    resolver::execute_update_owner(&mut r, &s("owner"), s("boss")).unwrap();
    assert_eq!(r.config.owner, s("boss"));
    assert!(resolver::is_authorized(&r.config, &s("boss")));
    assert!(!resolver::is_authorized(&r.config, &s("owner")));
}
