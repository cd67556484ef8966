use cronos_contracts::dutch_auction;
use cronos_contracts::partial_fill::{self, ContractError, Order};
use cronos_contracts::{decayed_price, digest_matches_hash, secret_matches, Asset, Coin, Payout};

fn s(v: &str) -> String {
    v.to_string()
}

fn uatom(amount: u128) -> Vec<Coin> {
    vec![Coin { denom: s("uatom"), amount }]
}

#[test]
fn sha256_hex_of_known_input() {
    let abc = "ba7816bf8f01cfea414140de5dae2223b00361a396177a9cb410ff61f20015ad";
    assert!(secret_matches("abc", abc));
    assert!(!secret_matches("abd", abc));
    assert!(!secret_matches("abc", &abc.to_uppercase()));
    assert!(!secret_matches("abc", "abc"));
    assert!(!secret_matches("abc", ""));
}

#[test]
fn digest_rendering() {
    assert!(digest_matches_hash(&vec![10, 20, 30], "0a141e"));
    assert!(!digest_matches_hash(&vec![10, 20, 30], "0a141f"));
    assert!(!digest_matches_hash(&vec![10, 20, 30], "0a141"));
    assert!(digest_matches_hash(&vec![], ""));
    assert!(digest_matches_hash(&vec![255, 0], "ff00"));
}

#[test]
fn price_formula_values() {
    assert_eq!(decayed_price(200, 100, 1, 0), 200);
    assert_eq!(decayed_price(200, 100, 1, 50), 150);
    assert_eq!(decayed_price(200, 100, 1, 150), 100);
    assert_eq!(decayed_price(200, 100, 3, 30), 110);
    assert_eq!(decayed_price(200, 100, u128::MAX, 2), 100);
    assert_eq!(decayed_price(u128::MAX, 5, u128::MAX / 2, u64::MAX), 5);
    let mut last = u128::MAX;
    for t in 0u64..120 {
        let p = decayed_price(1_000, 10, 9, t);
        assert!(p <= last && p >= 10);
        last = p;
    }
}

#[test]
fn partial_fill_book() {
    let mut book = partial_fill::instantiate();
    partial_fill::execute_create_order(&mut book, &s("maker"), s("o1"), 10, 3).unwrap();
    assert_eq!(
        partial_fill::execute_create_order(&mut book, &s("maker"), s("o1"), 5, 1),
        Err(ContractError::OrderNotFound)
    );
    assert_eq!(
        partial_fill::execute_partial_fill(&mut book, &s("buyer"), &s("o1"), 0, &uatom(0)),
        Err(ContractError::InvalidFillAmount)
    );
    assert_eq!(
        partial_fill::execute_partial_fill(&mut book, &s("buyer"), &s("o1"), 11, &uatom(100)),
        Err(ContractError::FillAmountTooLarge)
    );
    assert_eq!(
        partial_fill::execute_partial_fill(&mut book, &s("buyer"), &s("o1"), 4, &uatom(11)),
        Err(ContractError::InvalidFillAmount)
    );
    let other_denom = vec![Coin { denom: s("uosmo"), amount: 100 }];
    assert_eq!(
        partial_fill::execute_partial_fill(&mut book, &s("buyer"), &s("o1"), 4, &other_denom),
        Err(ContractError::InvalidFillAmount)
    );
    let funds = vec![Coin { denom: s("uosmo"), amount: 1 }, Coin { denom: s("uatom"), amount: 15 }];
    let t = partial_fill::execute_partial_fill(&mut book, &s("buyer"), &s("o1"), 4, &funds).unwrap();
    assert_eq!(
        t,
        vec![
            Payout { asset: Asset::Native { denom: s("uatom") }, recipient: s("maker"), amount: 12 },
            Payout { asset: Asset::Native { denom: s("uatom") }, recipient: s("buyer"), amount: 3 },
        ]
    );
    let o = &book.entries[0].order;
    assert_eq!(o.filled_amount, 4);
    assert_eq!(o.remaining_amount(), 6);
    assert_eq!(o.fill_percentage(), 40);
    assert_eq!(o.taker, Some(s("buyer")));
    let t = partial_fill::execute_partial_fill(&mut book, &s("second"), &s("o1"), 6, &uatom(18)).unwrap();
    assert_eq!(t.len(), 1);
    let o = &book.entries[0].order;
    assert!(o.is_fully_filled());
    assert!(!o.is_active);
    assert_eq!(o.taker, Some(s("buyer")));
    assert_eq!(
        partial_fill::execute_partial_fill(&mut book, &s("x"), &s("o1"), 1, &uatom(3)),
        Err(ContractError::OrderNotActive)
    );
    assert_eq!(
        partial_fill::execute_partial_fill(&mut book, &s("x"), &s("zz"), 1, &uatom(3)),
        Err(ContractError::OrderNotFound)
    );
}

#[test]
fn partial_fill_cancel() {
    let mut book = partial_fill::instantiate();
    partial_fill::execute_create_order(&mut book, &s("maker"), s("o"), 10, 1).unwrap();
    assert_eq!(partial_fill::execute_cancel_order(&mut book, &s("other"), &s("o")), Err(ContractError::Unauthorized));
    partial_fill::execute_cancel_order(&mut book, &s("maker"), &s("o")).unwrap();
    assert_eq!(partial_fill::execute_cancel_order(&mut book, &s("maker"), &s("o")), Err(ContractError::OrderNotActive));
    assert_eq!(partial_fill::execute_cancel_order(&mut book, &s("maker"), &s("p")), Err(ContractError::OrderNotFound));
}

#[test]
fn fill_percentage_rounds_down_without_overflow() {
    let mk = |filled: u128, total: u128| Order {
        maker: s("m"),
        taker: None,
        total_amount: total,
        filled_amount: filled,
        price: 1,
        is_active: true,
    };
    assert_eq!(mk(0, 0).fill_percentage(), 0);
    assert_eq!(mk(1, 3).fill_percentage(), 33);
    assert_eq!(mk(2, 3).fill_percentage(), 66);
    assert_eq!(mk(7, 7).fill_percentage(), 100);
    assert_eq!(mk(u128::MAX - 1, u128::MAX).fill_percentage(), 99);
    assert_eq!(mk(u128::MAX / 2, u128::MAX).fill_percentage(), 49);
    assert_eq!(mk(u128::MAX / 100 * 37, u128::MAX).fill_percentage(), 36);
}

#[test]
fn dutch_auction_bids_and_settles() {
    assert_eq!(
        dutch_auction::instantiate(s("seller"), 10, 10, 1, 100, 0),
        Err(dutch_auction::ContractError::InvalidAuctionParameters)
    );
    assert_eq!(
        dutch_auction::instantiate(s("seller"), 10, 1, 1, u64::MAX, 5),
        Err(dutch_auction::ContractError::InvalidAuctionParameters)
    );
    let mut a = dutch_auction::instantiate(s("seller"), 1000, 200, 10, 100, 50).unwrap();
    assert_eq!(a.get_current_price(50), 1000);
    assert_eq!(a.get_current_price(80), 700);
    assert_eq!(a.get_current_price(150), 200);
    assert_eq!(
        dutch_auction::execute_bid(&mut a, &s("b1"), &uatom(699), 80),
        Err(dutch_auction::ContractError::InvalidBidAmount)
    );
    assert_eq!(dutch_auction::execute_bid(&mut a, &s("b1"), &uatom(700), 80), Ok(None));
    let refund = dutch_auction::execute_bid(&mut a, &s("b2"), &uatom(800), 90).unwrap();
    assert_eq!(
        refund,
        Some(Payout { asset: Asset::Native { denom: s("uatom") }, recipient: s("b1"), amount: 700 })
    );
    assert_eq!(
        dutch_auction::execute_bid(&mut a, &s("b3"), &uatom(5000), 151),
        Err(dutch_auction::ContractError::AuctionEnded)
    );
    assert_eq!(
        dutch_auction::execute_end_auction(&mut a, 149),
        Err(dutch_auction::ContractError::AuctionStillActive)
    );
    let paid = dutch_auction::execute_end_auction(&mut a, 150).unwrap();
    assert_eq!(
        paid,
        Some(Payout { asset: Asset::Native { denom: s("uatom") }, recipient: s("seller"), amount: 800 })
    );
    assert_eq!(dutch_auction::execute_end_auction(&mut a, 151), Err(dutch_auction::ContractError::AuctionEnded));
}
