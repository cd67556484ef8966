use vstd::prelude::*;

use crate::decimal::{decimal, push_decimal};
use crate::destination_escrow;
use crate::funds::same_string;
use crate::pricing::{decayed_price, decayed_price_spec};
use crate::source_escrow;
use crate::source_escrow::elapsed_since;

verus! {

#[derive(Clone, Copy, Debug, PartialEq, Eq, Structural)]
pub enum OrderStatus {
    Active,
    Matched,
    Completed,
    Cancelled,
    Expired,
}

#[derive(Clone, Copy, Debug, PartialEq, Eq, Structural)]
pub enum ContractError {
    Unauthorized,
    InvalidEscrowAddress,
    InvalidOrderParameters,
    InvalidRelayer,
    OrderNotFound,
}

/// The order's copy of its escrow's auction parameters.
#[derive(Clone, Copy, Debug, PartialEq, Eq, Structural)]
pub struct DutchAuctionInfo {
    pub initial_price: u128,
    pub minimum_price: u128,
    pub price_decay_rate: u128,
    pub start_time: u64,
    pub current_price: u128,
}

/// The order's copy of its escrow's fill counters.
#[derive(Clone, Copy, Debug, PartialEq, Eq, Structural)]
pub struct PartialFillInfo {
    pub allow_partial_fill: bool,
    pub minimum_fill_amount: Option<u128>,
    pub filled_amount: u128,
    pub remaining_amount: u128,
}

/// A swap order. Its status and counters mirror the escrow's own state and
/// are a cache, not the authority.
#[derive(Clone, Debug, PartialEq, Eq)]
pub struct Order {
    pub order_id: String,
    /// `None` until the created escrow's address is recorded.
    pub escrow_address: Option<String>,
    pub maker: String,
    pub taker: Option<String>,
    pub status: OrderStatus,
    pub created_at: u64,
    pub updated_at: u64,
    pub dutch_auction: Option<DutchAuctionInfo>,
    pub partial_fill: Option<PartialFillInfo>,
    pub lop_order_data: Option<String>,
}

/// Who may act: the owner, and the relayers on the allow-list.
#[derive(Clone, Debug, PartialEq, Eq)]
pub struct Config {
    pub owner: String,
    pub escrow_factory: String,
    pub authorized_relayers: Vec<String>,
}

/// The resolver: its authorization policy and its orders, the `n`-th order
/// created standing at position `n - 1`.
#[derive(Clone, Debug, PartialEq, Eq)]
pub struct Resolver {
    pub config: Config,
    pub orders: Vec<Order>,
}

/// What a relayer asks of an order's escrow.
#[derive(Clone, Debug, PartialEq, Eq)]
pub enum OrderAction {
    ConfirmSource { src_tx_hash: String, block_height: u64 },
    ExecuteSwap { secret: String },
    CancelOrder,
}

/// A call that the resolver forwards to an escrow instance.
#[derive(Clone, Debug, PartialEq, Eq)]
pub enum EscrowCall {
    Withdraw { secret: String },
    PartialWithdraw { secret: String, amount: u128 },
    Cancel,
    ConfirmSourceEscrow { src_tx_hash: String, block_height: u64 },
}

#[derive(Clone, Debug, PartialEq, Eq)]
pub struct Forward {
    pub contract: String,
    pub call: EscrowCall,
}

#[derive(Clone, Copy, Debug, PartialEq, Eq, Structural)]
pub struct PriceResponse {
    pub current_price: u128,
    pub initial_price: Option<u128>,
    pub minimum_price: Option<u128>,
    pub time_elapsed: u64,
}

/// Whether `a` stands in the list `v`.
pub open spec fn lists(v: Seq<String>, a: Seq<char>) -> bool {
    exists|i: int| 0 <= i < v.len() && v[i]@ == a
}

pub open spec fn is_relayer(c: Config, a: Seq<char>) -> bool {
    lists(c.authorized_relayers@, a)
}

/// The owner and the relayers may deploy and forward.
pub open spec fn authorized(c: Config, a: Seq<char>) -> bool {
    a == c.owner@ || is_relayer(c, a)
}

/// The id of the `n`-th order.
pub open spec fn order_id_of(n: nat) -> Seq<char> {
    "order_"@ + decimal(n)
}

pub open spec fn bound_to(o: Order, addr: Seq<char>) -> bool {
    o.escrow_address is Some && o.escrow_address.unwrap()@ == addr
}

/// `k` is the first order whose escrow is at `addr`.
pub open spec fn first_bound(orders: Seq<Order>, k: int, addr: Seq<char>) -> bool {
    &&& 0 <= k < orders.len()
    &&& bound_to(orders[k], addr)
    &&& forall|j: int| 0 <= j < k ==> !bound_to(orders[j], addr)
}

/// `k` is the first order with id `id`.
pub open spec fn first_with_id(orders: Seq<Order>, k: int, id: Seq<char>) -> bool {
    &&& 0 <= k < orders.len()
    &&& orders[k].order_id@ == id
    &&& forall|j: int| 0 <= j < k ==> orders[j].order_id@ != id
}

/// The orders after `f` is applied to the order whose escrow is at `addr`;
/// unchanged when there is none.
pub open spec fn on_bound(orders: Seq<Order>, addr: Seq<char>, f: spec_fn(Order) -> Order) -> Seq<
    Order,
> {
    if exists|k: int| first_bound(orders, k, addr) {
        let k = choose|k: int| first_bound(orders, k, addr);
        orders.update(k, f(orders[k]))
    } else {
        orders
    }
}

pub open spec fn with_status(o: Order, status: OrderStatus, now: u64) -> Order {
    Order { status, updated_at: now, ..o }
}

/// The fill that the mirror records: `amount`, but never more than it
/// counts as remaining.
pub open spec fn mirrored_fill(pf: PartialFillInfo, amount: u128) -> u128 {
    if amount <= pf.remaining_amount {
        amount
    } else {
        pf.remaining_amount
    }
}

pub open spec fn with_fill(o: Order, amount: u128, now: u64) -> Order {
    match o.partial_fill {
        Some(pf) => {
            let take = mirrored_fill(pf, amount);
            let remaining = (pf.remaining_amount - take) as u128;
            Order {
                partial_fill: Some(
                    PartialFillInfo {
                        filled_amount: (pf.filled_amount + take) as u128,
                        remaining_amount: remaining,
                        ..pf
                    },
                ),
                status: if remaining == 0 {
                    OrderStatus::Completed
                } else {
                    o.status
                },
                updated_at: now,
                ..o
            }
        },
        None => Order { updated_at: now, ..o },
    }
}

/// The auction price that the order's parameters give at time `now`.
pub open spec fn projected_price(da: DutchAuctionInfo, now: u64) -> u128 {
    decayed_price_spec(
        da.initial_price as int,
        da.minimum_price as int,
        da.price_decay_rate as int,
        elapsed_since(da.start_time, now) as int,
    ) as u128
}

pub open spec fn with_price(o: Order, now: u64) -> Order {
    match o.dutch_auction {
        Some(da) => Order {
            dutch_auction: Some(DutchAuctionInfo { current_price: projected_price(da, now), ..da }),
            updated_at: now,
            ..o
        },
        None => o,
    }
}

pub open spec fn auction_snapshot(msg: source_escrow::InstantiateMsg, now: u64) -> Option<
    DutchAuctionInfo,
> {
    if msg.initial_price is Some && msg.minimum_price is Some && msg.price_decay_rate is Some {
        Some(
            DutchAuctionInfo {
                initial_price: msg.initial_price.unwrap(),
                minimum_price: msg.minimum_price.unwrap(),
                price_decay_rate: msg.price_decay_rate.unwrap(),
                start_time: now,
                current_price: msg.initial_price.unwrap(),
            },
        )
    } else {
        None
    }
}

pub open spec fn fill_snapshot(msg: source_escrow::InstantiateMsg) -> Option<PartialFillInfo> {
    if msg.allow_partial_fill {
        Some(
            PartialFillInfo {
                allow_partial_fill: true,
                minimum_fill_amount: msg.minimum_fill_amount,
                filled_amount: 0,
                remaining_amount: msg.dst_amount,
            },
        )
    } else {
        None
    }
}

impl Resolver {
    /// Each order carries the id of its position, no escrow address is bound
    /// to two orders, and each fill mirror's counters sum within range.
    pub open spec fn wf(self) -> bool {
        &&& forall|k: int|
            0 <= k < self.orders@.len() ==> #[trigger] self.orders@[k].order_id@ == order_id_of(
                (k + 1) as nat,
            )
        &&& forall|i: int, j: int|
            0 <= i < self.orders@.len() && 0 <= j < self.orders@.len() && i != j
                && self.orders@[i].escrow_address is Some ==> !bound_to(
                self.orders@[j],
                self.orders@[i].escrow_address.unwrap()@,
            )
        &&& forall|k: int|
            0 <= k < self.orders@.len() && #[trigger] self.orders@[k].partial_fill is Some
                ==> self.orders@[k].partial_fill.unwrap().filled_amount
                + self.orders@[k].partial_fill.unwrap().remaining_amount <= u128::MAX
    }
}

impl Order {
    pub fn duplicate(&self) -> (r: Order)
        ensures
            r == *self,
    {
        Order {
            order_id: self.order_id.clone(),
            escrow_address: clone_text(&self.escrow_address),
            maker: self.maker.clone(),
            taker: clone_text(&self.taker),
            status: self.status,
            created_at: self.created_at,
            updated_at: self.updated_at,
            dutch_auction: self.dutch_auction,
            partial_fill: self.partial_fill,
            lop_order_data: clone_text(&self.lop_order_data),
        }
    }
}

fn clone_text(s: &Option<String>) -> (r: Option<String>)
    ensures
        r == *s,
{
    match s {
        Some(t) => Some(t.clone()),
        None => None,
    }
}

fn contains_address(v: &Vec<String>, a: &String) -> (r: bool)
    ensures
        r == lists(v@, a@),
{
    let mut i: usize = 0;
    while i < v.len()
        invariant
            i <= v@.len(),
            forall|j: int| 0 <= j < i ==> v@[j]@ != a@,
        decreases v@.len() - i,
    {
        if same_string(&v[i], a) {
            return true;
        }
        i = i + 1;
    }
    false
}

/// Whether `sender` may deploy orders and forward calls.
pub fn is_authorized(config: &Config, sender: &String) -> (r: bool)
    ensures
        r == authorized(*config, sender@),
{
    same_string(sender, &config.owner) || contains_address(&config.authorized_relayers, sender)
}

fn find_bound(orders: &Vec<Order>, addr: &String) -> (r: Option<usize>)
    ensures
        match r {
            Some(k) => first_bound(orders@, k as int, addr@),
            None => forall|k: int| 0 <= k < orders@.len() ==> !bound_to(orders@[k], addr@),
        },
{
    let mut i: usize = 0;
    while i < orders.len()
        invariant
            i <= orders@.len(),
            forall|j: int| 0 <= j < i ==> !bound_to(orders@[j], addr@),
        decreases orders@.len() - i,
    {
        match &orders[i].escrow_address {
            Some(a) => {
                if same_string(a, addr) {
                    return Some(i);
                }
            },
            None => {},
        }
        i = i + 1;
    }
    None
}

fn find_id(orders: &Vec<Order>, id: &String) -> (r: Option<usize>)
    ensures
        match r {
            Some(k) => first_with_id(orders@, k as int, id@),
            None => forall|k: int| 0 <= k < orders@.len() ==> orders@[k].order_id@ != id@,
        },
{
    let mut i: usize = 0;
    while i < orders.len()
        invariant
            i <= orders@.len(),
            forall|j: int| 0 <= j < i ==> orders@[j].order_id@ != id@,
        decreases orders@.len() - i,
    {
        if same_string(&orders[i].order_id, id) {
            return Some(i);
        }
        i = i + 1;
    }
    None
}

proof fn lemma_first_bound_unique(orders: Seq<Order>, k: int, addr: Seq<char>)
    requires
        first_bound(orders, k, addr),
    ensures
        (choose|j: int| first_bound(orders, j, addr)) == k,
{
    let j = choose|j: int| first_bound(orders, j, addr);
    assert(first_bound(orders, j, addr));
    if j < k {
        assert(!bound_to(orders[j], addr));
    } else if k < j {
        assert(!bound_to(orders[k], addr));
    }
}

proof fn lemma_first_id_unique(orders: Seq<Order>, k: int, id: Seq<char>)
    requires
        first_with_id(orders, k, id),
    ensures
        (choose|j: int| first_with_id(orders, j, id)) == k,
{
    let j = choose|j: int| first_with_id(orders, j, id);
    assert(first_with_id(orders, j, id));
    if j < k {
        assert(orders[j].order_id@ != id);
    } else if k < j {
        assert(orders[k].order_id@ != id);
    }
}

fn next_order_id(n: u64) -> (r: String)
    ensures
        r@ == order_id_of(n as nat),
{
    proof {
        reveal_strlit("order_");
    }
    let mut s = String::from_str("order_");
    push_decimal(&mut s, n);
    s
}

pub fn instantiate(config: Config) -> (r: Resolver)
    ensures
        r.config == config,
        r.orders@.len() == 0,
        r.wf(),
{
    Resolver { config, orders: Vec::new() }
}

/// Appends `order`, which must carry the next id and no escrow address.
fn push_order(resolver: &mut Resolver, order: Order)
    requires
        old(resolver).wf(),
        order.order_id@ == order_id_of((old(resolver).orders@.len() + 1) as nat),
        order.escrow_address is None,
        order.partial_fill is Some ==> order.partial_fill.unwrap().filled_amount
            + order.partial_fill.unwrap().remaining_amount <= u128::MAX,
    ensures
        final(resolver).wf(),
        final(resolver).config == old(resolver).config,
        final(resolver).orders@ == old(resolver).orders@.push(order),
{
    resolver.orders.push(order);
    proof {
        let orders = resolver.orders@;
        assert forall|i: int, j: int|
            0 <= i < orders.len() && 0 <= j < orders.len() && i != j
                && orders[i].escrow_address is Some implies !bound_to(
            orders[j],
            orders[i].escrow_address.unwrap()@,
        ) by {
            if i < orders.len() - 1 && j < orders.len() - 1 {
                assert(old(resolver).orders@[i] == orders[i]);
                assert(old(resolver).orders@[j] == orders[j]);
            }
        }
        assert forall|k: int| 0 <= k < orders.len() implies #[trigger] orders[k].order_id@
            == order_id_of((k + 1) as nat) by {
            if k < orders.len() - 1 {
                assert(old(resolver).orders@[k] == orders[k]);
            }
        }
    }
}

/// Opens an order for a new source escrow at time `now`, with a snapshot
/// of its auction and fill parameters, and returns the order's id. The
/// factory call that creates the escrow is the host's to send.
pub fn execute_deploy_src(
    resolver: &mut Resolver,
    sender: &String,
    now: u64,
    msg: &source_escrow::InstantiateMsg,
    lop_order_data: Option<String>,
) -> (r: Result<String, ContractError>)
    requires
        old(resolver).wf(),
    ensures
        final(resolver).wf(),
        final(resolver).config == old(resolver).config,
        !authorized(old(resolver).config, sender@) ==> r == Err::<String, ContractError>(
            ContractError::Unauthorized,
        ) && *final(resolver) == *old(resolver),
        authorized(old(resolver).config, sender@) && old(resolver).orders@.len() >= u64::MAX ==> r
            == Err::<String, ContractError>(ContractError::InvalidOrderParameters) && *final(resolver) == *old(resolver),
        authorized(old(resolver).config, sender@) && old(resolver).orders@.len() < u64::MAX ==> (
        r is Ok && r.unwrap()@ == order_id_of((old(resolver).orders@.len() + 1) as nat) && final(resolver).orders@ == old(resolver).orders@.push(
            Order {
                order_id: r.unwrap(),
                escrow_address: None,
                maker: msg.maker,
                taker: msg.taker,
                status: OrderStatus::Active,
                created_at: now,
                updated_at: now,
                dutch_auction: auction_snapshot(*msg, now),
                partial_fill: fill_snapshot(*msg),
                lop_order_data,
            },
        )),
{
    if !is_authorized(&resolver.config, sender) {
        return Err(ContractError::Unauthorized);
    }
    let count = resolver.orders.len() as u64;
    if count == u64::MAX {
        return Err(ContractError::InvalidOrderParameters);
    }
    let order_id = next_order_id(count + 1);
    let dutch_auction = match (msg.initial_price, msg.minimum_price, msg.price_decay_rate) {
        (Some(i), Some(m), Some(d)) => Some(
            DutchAuctionInfo {
                initial_price: i,
                minimum_price: m,
                price_decay_rate: d,
                start_time: now,
                current_price: i,
            },
        ),
        _ => None,
    };
    let partial_fill = if msg.allow_partial_fill {
        Some(
            PartialFillInfo {
                allow_partial_fill: true,
                minimum_fill_amount: msg.minimum_fill_amount,
                filled_amount: 0,
                remaining_amount: msg.dst_amount,
            },
        )
    } else {
        None
    };
    let order = Order {
        order_id: order_id.clone(),
        escrow_address: None,
        maker: msg.maker.clone(),
        taker: clone_text(&msg.taker),
        status: OrderStatus::Active,
        created_at: now,
        updated_at: now,
        dutch_auction,
        partial_fill,
        lop_order_data,
    };
    push_order(resolver, order);
    Ok(order_id)
}

/// Opens an order for a new destination escrow at time `now` and returns the
/// order's id. The factory call that creates the escrow is the host's to send.
pub fn execute_deploy_dst(
    resolver: &mut Resolver,
    sender: &String,
    now: u64,
    msg: &destination_escrow::InstantiateMsg,
) -> (r: Result<String, ContractError>)
    requires
        old(resolver).wf(),
    ensures
        final(resolver).wf(),
        final(resolver).config == old(resolver).config,
        !authorized(old(resolver).config, sender@) ==> r == Err::<String, ContractError>(
            ContractError::Unauthorized,
        ) && *final(resolver) == *old(resolver),
        authorized(old(resolver).config, sender@) && old(resolver).orders@.len() >= u64::MAX ==> r
            == Err::<String, ContractError>(ContractError::InvalidOrderParameters) && *final(resolver) == *old(resolver),
        authorized(old(resolver).config, sender@) && old(resolver).orders@.len() < u64::MAX ==> (
        r is Ok && r.unwrap()@ == order_id_of((old(resolver).orders@.len() + 1) as nat) && final(resolver).orders@ == old(resolver).orders@.push(
            Order {
                order_id: r.unwrap(),
                escrow_address: None,
                maker: msg.maker,
                taker: Some(msg.taker),
                status: OrderStatus::Active,
                created_at: now,
                updated_at: now,
                dutch_auction: None,
                partial_fill: None,
                lop_order_data: None,
            },
        )),
{
    if !is_authorized(&resolver.config, sender) {
        return Err(ContractError::Unauthorized);
    }
    let count = resolver.orders.len() as u64;
    if count == u64::MAX {
        return Err(ContractError::InvalidOrderParameters);
    }
    let order_id = next_order_id(count + 1);
    let order = Order {
        order_id: order_id.clone(),
        escrow_address: None,
        maker: msg.maker.clone(),
        taker: Some(msg.taker.clone()),
        status: OrderStatus::Active,
        created_at: now,
        updated_at: now,
        dutch_auction: None,
        partial_fill: None,
        lop_order_data: None,
    };
    push_order(resolver, order);
    Ok(order_id)
}

/// Sets the status of the order at `k` and stamps it with `now`.
fn set_status(resolver: &mut Resolver, k: usize, status: OrderStatus, now: u64)
    requires
        old(resolver).wf(),
        k < old(resolver).orders@.len(),
    ensures
        final(resolver).wf(),
        final(resolver).config == old(resolver).config,
        final(resolver).orders@ == old(resolver).orders@.update(
            k as int,
            with_status(old(resolver).orders@[k as int], status, now),
        ),
{
    resolver.orders[k].status = status;
    resolver.orders[k].updated_at = now;
    proof {
        let orders = resolver.orders@;
        assert forall|k2: int| 0 <= k2 < orders.len() implies #[trigger] orders[k2].order_id@
            == order_id_of((k2 + 1) as nat) by {
            assert(old(resolver).orders@[k2].order_id == orders[k2].order_id);
        }
        assert forall|i: int, j: int|
            0 <= i < orders.len() && 0 <= j < orders.len() && i != j
                && orders[i].escrow_address is Some implies !bound_to(
            orders[j],
            orders[i].escrow_address.unwrap()@,
        ) by {
            assert(old(resolver).orders@[i].escrow_address == orders[i].escrow_address);
            assert(old(resolver).orders@[j].escrow_address == orders[j].escrow_address);
            assert(!bound_to(
                old(resolver).orders@[j],
                old(resolver).orders@[i].escrow_address.unwrap()@,
            ));
        }
        assert forall|k2: int|
            0 <= k2 < orders.len() && #[trigger] orders[k2].partial_fill is Some implies orders[k2].partial_fill.unwrap().filled_amount
            + orders[k2].partial_fill.unwrap().remaining_amount <= u128::MAX by {
            assert(old(resolver).orders@[k2].partial_fill == orders[k2].partial_fill);
        }
    }
}

/// Forwards a withdrawal to the escrow at `escrow_address`, and marks the
/// order bound to that escrow, if any, completed at `now`.
pub fn execute_withdraw(
    resolver: &mut Resolver,
    sender: &String,
    escrow_address: String,
    secret: String,
    now: u64,
) -> (r: Result<Forward, ContractError>)
    requires
        old(resolver).wf(),
    ensures
        final(resolver).wf(),
        final(resolver).config == old(resolver).config,
        !authorized(old(resolver).config, sender@) ==> r == Err::<Forward, ContractError>(
            ContractError::Unauthorized,
        ) && *final(resolver) == *old(resolver),
        authorized(old(resolver).config, sender@) ==> r == Ok::<Forward, ContractError>(
            Forward { contract: escrow_address, call: EscrowCall::Withdraw { secret } },
        ) && final(resolver).orders@ == on_bound(
            old(resolver).orders@,
            escrow_address@,
            |o: Order| with_status(o, OrderStatus::Completed, now),
        ),
{
    if !is_authorized(&resolver.config, sender) {
        return Err(ContractError::Unauthorized);
    }
    match find_bound(&resolver.orders, &escrow_address) {
        Some(k) => {
            proof {
                lemma_first_bound_unique(resolver.orders@, k as int, escrow_address@);
            }
            set_status(resolver, k, OrderStatus::Completed, now);
        },
        None => {},
    }
    Ok(Forward { contract: escrow_address, call: EscrowCall::Withdraw { secret } })
}

/// Forwards a cancellation to the escrow at `escrow_address`, and marks the
/// order bound to that escrow, if any, cancelled at `now`.
pub fn execute_cancel(resolver: &mut Resolver, sender: &String, escrow_address: String, now: u64) -> (r:
    Result<Forward, ContractError>)
    requires
        old(resolver).wf(),
    ensures
        final(resolver).wf(),
        final(resolver).config == old(resolver).config,
        !authorized(old(resolver).config, sender@) ==> r == Err::<Forward, ContractError>(
            ContractError::Unauthorized,
        ) && *final(resolver) == *old(resolver),
        authorized(old(resolver).config, sender@) ==> r == Ok::<Forward, ContractError>(
            Forward { contract: escrow_address, call: EscrowCall::Cancel },
        ) && final(resolver).orders@ == on_bound(
            old(resolver).orders@,
            escrow_address@,
            |o: Order| with_status(o, OrderStatus::Cancelled, now),
        ),
{
    if !is_authorized(&resolver.config, sender) {
        return Err(ContractError::Unauthorized);
    }
    match find_bound(&resolver.orders, &escrow_address) {
        Some(k) => {
            proof {
                lemma_first_bound_unique(resolver.orders@, k as int, escrow_address@);
            }
            set_status(resolver, k, OrderStatus::Cancelled, now);
        },
        None => {},
    }
    Ok(Forward { contract: escrow_address, call: EscrowCall::Cancel })
}

/// Forwards a partial withdrawal to the escrow at `escrow_address`, and
/// records the fill in the mirror of the order bound to that escrow, if any.
/// The mirror counts at most what it holds as remaining, so its counters keep
/// their sum; it marks the order completed when nothing remains.
pub fn execute_partial_withdraw(
    resolver: &mut Resolver,
    sender: &String,
    escrow_address: String,
    secret: String,
    amount: u128,
    now: u64,
) -> (r: Result<Forward, ContractError>)
    requires
        old(resolver).wf(),
    ensures
        final(resolver).wf(),
        final(resolver).config == old(resolver).config,
        !authorized(old(resolver).config, sender@) ==> r == Err::<Forward, ContractError>(
            ContractError::Unauthorized,
        ) && *final(resolver) == *old(resolver),
        authorized(old(resolver).config, sender@) ==> r == Ok::<Forward, ContractError>(
            Forward { contract: escrow_address, call: EscrowCall::PartialWithdraw { secret, amount } },
        ) && final(resolver).orders@ == on_bound(
            old(resolver).orders@,
            escrow_address@,
            |o: Order| with_fill(o, amount, now),
        ),
{
    if !is_authorized(&resolver.config, sender) {
        return Err(ContractError::Unauthorized);
    }
    match find_bound(&resolver.orders, &escrow_address) {
        Some(k) => {
            proof {
                lemma_first_bound_unique(resolver.orders@, k as int, escrow_address@);
            }
            match resolver.orders[k].partial_fill {
                Some(pf) => {
                    let take = if amount <= pf.remaining_amount {
                        amount
                    } else {
                        pf.remaining_amount
                    };
                    let remaining = pf.remaining_amount - take;
                    let filled = pf.filled_amount + take;
                    resolver.orders[k].partial_fill = Some(
                        PartialFillInfo {
                            allow_partial_fill: pf.allow_partial_fill,
                            minimum_fill_amount: pf.minimum_fill_amount,
                            filled_amount: filled,
                            remaining_amount: remaining,
                        },
                    );
                    if remaining == 0 {
                        resolver.orders[k].status = OrderStatus::Completed;
                    }
                },
                None => {},
            }
            resolver.orders[k].updated_at = now;
            proof {
                let orders = resolver.orders@;
                let old_orders = old(resolver).orders@;
                assert(orders =~= old_orders.update(k as int, with_fill(old_orders[k as int], amount, now)));
                assert forall|k2: int| 0 <= k2 < orders.len() implies #[trigger] orders[k2].order_id@
                    == order_id_of((k2 + 1) as nat) by {
                    assert(old_orders[k2].order_id == orders[k2].order_id);
                }
                assert forall|i: int, j: int|
                    0 <= i < orders.len() && 0 <= j < orders.len() && i != j
                        && orders[i].escrow_address is Some implies !bound_to(
                    orders[j],
                    orders[i].escrow_address.unwrap()@,
                ) by {
                    assert(old_orders[i].escrow_address == orders[i].escrow_address);
                    assert(old_orders[j].escrow_address == orders[j].escrow_address);
                    assert(!bound_to(old_orders[j], old_orders[i].escrow_address.unwrap()@));
                }
                assert forall|k2: int|
                    0 <= k2 < orders.len() && #[trigger] orders[k2].partial_fill is Some implies orders[k2].partial_fill.unwrap().filled_amount
                    + orders[k2].partial_fill.unwrap().remaining_amount <= u128::MAX by {
                    if k2 != k {
                        assert(old_orders[k2].partial_fill == orders[k2].partial_fill);
                    }
                }
            }
        },
        None => {},
    }
    Ok(Forward { contract: escrow_address, call: EscrowCall::PartialWithdraw { secret, amount } })
}

/// Recomputes the cached auction price of the order bound to
/// `escrow_address` at time `now`, from the order's own parameters with the
/// library's one price formula. Anyone may ask.
pub fn execute_update_price(resolver: &mut Resolver, escrow_address: &String, now: u64)
    requires
        old(resolver).wf(),
    ensures
        final(resolver).wf(),
        final(resolver).config == old(resolver).config,
        final(resolver).orders@ == on_bound(
            old(resolver).orders@,
            escrow_address@,
            |o: Order| with_price(o, now),
        ),
{
    match find_bound(&resolver.orders, escrow_address) {
        Some(k) => {
            proof {
                lemma_first_bound_unique(resolver.orders@, k as int, escrow_address@);
            }
            match resolver.orders[k].dutch_auction {
                Some(da) => {
                    let elapsed: u64 = if now >= da.start_time {
                        now - da.start_time
                    } else {
                        0
                    };
                    let price = decayed_price(
                        da.initial_price,
                        da.minimum_price,
                        da.price_decay_rate,
                        elapsed,
                    );
                    resolver.orders[k].dutch_auction = Some(
                        DutchAuctionInfo {
                            initial_price: da.initial_price,
                            minimum_price: da.minimum_price,
                            price_decay_rate: da.price_decay_rate,
                            start_time: da.start_time,
                            current_price: price,
                        },
                    );
                    resolver.orders[k].updated_at = now;
                },
                None => {},
            }
            proof {
                let orders = resolver.orders@;
                let old_orders = old(resolver).orders@;
                assert(orders =~= old_orders.update(k as int, with_price(old_orders[k as int], now)));
                assert forall|k2: int| 0 <= k2 < orders.len() implies #[trigger] orders[k2].order_id@
                    == order_id_of((k2 + 1) as nat) by {
                    assert(old_orders[k2].order_id == orders[k2].order_id);
                }
                assert forall|i: int, j: int|
                    0 <= i < orders.len() && 0 <= j < orders.len() && i != j
                        && orders[i].escrow_address is Some implies !bound_to(
                    orders[j],
                    orders[i].escrow_address.unwrap()@,
                ) by {
                    assert(old_orders[i].escrow_address == orders[i].escrow_address);
                    assert(old_orders[j].escrow_address == orders[j].escrow_address);
                    assert(!bound_to(old_orders[j], old_orders[i].escrow_address.unwrap()@));
                }
                assert forall|k2: int|
                    0 <= k2 < orders.len() && #[trigger] orders[k2].partial_fill is Some implies orders[k2].partial_fill.unwrap().filled_amount
                    + orders[k2].partial_fill.unwrap().remaining_amount <= u128::MAX by {
                    assert(old_orders[k2].partial_fill == orders[k2].partial_fill);
                }
            }
        },
        None => {},
    }
}

/// The status a relayer's action gives an order.
pub open spec fn action_status(action: OrderAction) -> OrderStatus {
    match action {
        OrderAction::ConfirmSource { .. } => OrderStatus::Matched,
        OrderAction::ExecuteSwap { .. } => OrderStatus::Completed,
        OrderAction::CancelOrder => OrderStatus::Cancelled,
    }
}

/// The escrow call a relayer's action becomes.
pub open spec fn action_call(action: OrderAction) -> EscrowCall {
    match action {
        OrderAction::ConfirmSource { src_tx_hash, block_height } => EscrowCall::ConfirmSourceEscrow {
            src_tx_hash,
            block_height,
        },
        OrderAction::ExecuteSwap { secret } => EscrowCall::Withdraw { secret },
        OrderAction::CancelOrder => EscrowCall::Cancel,
    }
}

pub open spec fn process_failure(r: Resolver, sender: Seq<char>, order_id: Seq<char>) -> Option<
    ContractError,
> {
    if !is_relayer(r.config, sender) {
        Some(ContractError::InvalidRelayer)
    } else if !(exists|k: int| first_with_id(r.orders@, k, order_id)) {
        Some(ContractError::OrderNotFound)
    } else if r.orders@[choose|k: int| first_with_id(r.orders@, k, order_id)].escrow_address is None {
        Some(ContractError::InvalidEscrowAddress)
    } else {
        None
    }
}

/// A relayer drives an order: the action is forwarded to the order's escrow
/// and the order's status follows it. Only relayers may, the owner included
/// only when listed; the attached proof is taken but not checked.
pub fn execute_process_order(
    resolver: &mut Resolver,
    sender: &String,
    order_id: &String,
    action: OrderAction,
    _proof: Option<String>,
    now: u64,
) -> (r: Result<Forward, ContractError>)
    requires
        old(resolver).wf(),
    ensures
        final(resolver).wf(),
        final(resolver).config == old(resolver).config,
        match process_failure(*old(resolver), sender@, order_id@) {
            Some(err) => r == Err::<Forward, ContractError>(err) && *final(resolver) == *old(resolver),
            None => {
                let k = choose|k: int| first_with_id(old(resolver).orders@, k, order_id@);
                &&& r == Ok::<Forward, ContractError>(
                    Forward {
                        contract: old(resolver).orders@[k].escrow_address.unwrap(),
                        call: action_call(action),
                    },
                )
                &&& final(resolver).orders@ == old(resolver).orders@.update(
                    k,
                    with_status(old(resolver).orders@[k], action_status(action), now),
                )
            },
        },
{
    if !contains_address(&resolver.config.authorized_relayers, sender) {
        return Err(ContractError::InvalidRelayer);
    }
    let k = match find_id(&resolver.orders, order_id) {
        Some(k) => k,
        None => {
            return Err(ContractError::OrderNotFound);
        },
    };
    proof {
        lemma_first_id_unique(resolver.orders@, k as int, order_id@);
    }
    let contract = match &resolver.orders[k].escrow_address {
        Some(a) => a.clone(),
        None => {
            return Err(ContractError::InvalidEscrowAddress);
        },
    };
    let (status, call) = match action {
        OrderAction::ConfirmSource { src_tx_hash, block_height } => (
            OrderStatus::Matched,
            EscrowCall::ConfirmSourceEscrow { src_tx_hash, block_height },
        ),
        OrderAction::ExecuteSwap { secret } => (
            OrderStatus::Completed,
            EscrowCall::Withdraw { secret },
        ),
        OrderAction::CancelOrder => (OrderStatus::Cancelled, EscrowCall::Cancel),
    };
    set_status(resolver, k, status, now);
    Ok(Forward { contract, call })
}

pub open spec fn record_failure(
    r: Resolver,
    sender: Seq<char>,
    order_id: Seq<char>,
    addr: Seq<char>,
) -> Option<ContractError> {
    if !authorized(r.config, sender) {
        Some(ContractError::Unauthorized)
    } else if !(exists|k: int| first_with_id(r.orders@, k, order_id)) {
        Some(ContractError::OrderNotFound)
    } else if r.orders@[choose|k: int| first_with_id(r.orders@, k, order_id)].escrow_address is Some
        || (exists|j: int| 0 <= j < r.orders@.len() && bound_to(r.orders@[j], addr)) {
        Some(ContractError::InvalidEscrowAddress)
    } else {
        None
    }
}

/// Binds an order to the address of the escrow created for it, once the
/// factory has reported that address. An order is bound once, and an address
/// to one order.
pub fn execute_record_escrow_address(
    resolver: &mut Resolver,
    sender: &String,
    order_id: &String,
    escrow_address: String,
    now: u64,
) -> (r: Result<(), ContractError>)
    requires
        old(resolver).wf(),
    ensures
        final(resolver).wf(),
        final(resolver).config == old(resolver).config,
        match record_failure(*old(resolver), sender@, order_id@, escrow_address@) {
            Some(err) => r == Err::<(), ContractError>(err) && *final(resolver) == *old(resolver),
            None => {
                let k = choose|k: int| first_with_id(old(resolver).orders@, k, order_id@);
                &&& r is Ok
                &&& final(resolver).orders@ == old(resolver).orders@.update(
                    k,
                    Order {
                        escrow_address: Some(escrow_address),
                        updated_at: now,
                        ..old(resolver).orders@[k]
                    },
                )
            },
        },
{
    if !is_authorized(&resolver.config, sender) {
        return Err(ContractError::Unauthorized);
    }
    let k = match find_id(&resolver.orders, order_id) {
        Some(k) => k,
        None => {
            return Err(ContractError::OrderNotFound);
        },
    };
    proof {
        lemma_first_id_unique(resolver.orders@, k as int, order_id@);
    }
    if resolver.orders[k].escrow_address.is_some() {
        return Err(ContractError::InvalidEscrowAddress);
    }
    if find_bound(&resolver.orders, &escrow_address).is_some() {
        return Err(ContractError::InvalidEscrowAddress);
    }
    let ghost addr = escrow_address@;
    resolver.orders[k].escrow_address = Some(escrow_address);
    resolver.orders[k].updated_at = now;
    proof {
        let orders = resolver.orders@;
        let old_orders = old(resolver).orders@;
        assert forall|k2: int| 0 <= k2 < orders.len() implies #[trigger] orders[k2].order_id@
            == order_id_of((k2 + 1) as nat) by {
            assert(old_orders[k2].order_id == orders[k2].order_id);
        }
        assert forall|i: int, j: int|
            0 <= i < orders.len() && 0 <= j < orders.len() && i != j
                && orders[i].escrow_address is Some implies !bound_to(
            orders[j],
            orders[i].escrow_address.unwrap()@,
        ) by {
            if i == k {
                assert(!bound_to(old_orders[j], addr));
            } else if j == k {
                assert(!bound_to(old_orders[i], addr));
            } else {
                assert(!bound_to(old_orders[j], old_orders[i].escrow_address.unwrap()@));
            }
        }
        assert forall|k2: int|
            0 <= k2 < orders.len() && #[trigger] orders[k2].partial_fill is Some implies orders[k2].partial_fill.unwrap().filled_amount
            + orders[k2].partial_fill.unwrap().remaining_amount <= u128::MAX by {
            assert(old_orders[k2].partial_fill == orders[k2].partial_fill);
        }
    }
    Ok(())
}

/// Puts `relayer` on the allow-list; only the owner may. Adding a listed
/// relayer changes nothing.
pub fn execute_add_relayer(resolver: &mut Resolver, sender: &String, relayer: String) -> (r: Result<
    (),
    ContractError,
>)
    requires
        old(resolver).wf(),
    ensures
        final(resolver).wf(),
        sender@ != old(resolver).config.owner@ ==> r == Err::<(), ContractError>(
            ContractError::Unauthorized,
        ) && *final(resolver) == *old(resolver),
        sender@ == old(resolver).config.owner@ ==> {
            &&& r is Ok
            &&& final(resolver).orders == old(resolver).orders
            &&& final(resolver).config.owner == old(resolver).config.owner
            &&& final(resolver).config.escrow_factory == old(resolver).config.escrow_factory
            &&& forall|a: Seq<char>|
                is_relayer(final(resolver).config, a) <==> (is_relayer(old(resolver).config, a) || a
                    == relayer@)
        },
{
    if !same_string(sender, &resolver.config.owner) {
        return Err(ContractError::Unauthorized);
    }
    if !contains_address(&resolver.config.authorized_relayers, &relayer) {
        let ghost r_view = relayer@;
        resolver.config.authorized_relayers.push(relayer);
        proof {
            let v = resolver.config.authorized_relayers@;
            let ov = old(resolver).config.authorized_relayers@;
            assert forall|a: Seq<char>| lists(v, a) <==> (lists(ov, a) || a == r_view) by {
                if lists(ov, a) {
                    let i = choose|i: int| 0 <= i < ov.len() && ov[i]@ == a;
                    assert(v[i] == ov[i]);
                }
                if a == r_view {
                    assert(v[ov.len() as int]@ == a);
                }
                if lists(v, a) {
                    let i = choose|i: int| 0 <= i < v.len() && v[i]@ == a;
                    if i < ov.len() {
                        assert(ov[i] == v[i]);
                    }
                }
            }
        }
    }
    Ok(())
}

/// Takes `relayer` off the allow-list; only the owner may. Removing an
/// unlisted relayer changes nothing.
pub fn execute_remove_relayer(resolver: &mut Resolver, sender: &String, relayer: &String) -> (r:
    Result<(), ContractError>)
    requires
        old(resolver).wf(),
    ensures
        final(resolver).wf(),
        sender@ != old(resolver).config.owner@ ==> r == Err::<(), ContractError>(
            ContractError::Unauthorized,
        ) && *final(resolver) == *old(resolver),
        sender@ == old(resolver).config.owner@ ==> {
            &&& r is Ok
            &&& final(resolver).orders == old(resolver).orders
            &&& final(resolver).config.owner == old(resolver).config.owner
            &&& final(resolver).config.escrow_factory == old(resolver).config.escrow_factory
            &&& forall|a: Seq<char>|
                is_relayer(final(resolver).config, a) <==> (is_relayer(old(resolver).config, a) && a
                    != relayer@)
        },
{
    if !same_string(sender, &resolver.config.owner) {
        return Err(ContractError::Unauthorized);
    }
    let mut kept: Vec<String> = Vec::new();
    let mut i: usize = 0;
    let ghost ov = resolver.config.authorized_relayers@;
    while i < resolver.config.authorized_relayers.len()
        invariant
            i <= ov.len(),
            resolver.config.authorized_relayers@ == ov,
            forall|a: Seq<char>|
                lists(kept@, a) <==> (a != relayer@ && exists|j: int| 0 <= j < i && ov[j]@ == a),
        decreases ov.len() - i,
    {
        let item = &resolver.config.authorized_relayers[i];
        if !same_string(item, relayer) {
            let ghost before = kept@;
            kept.push(item.clone());
            proof {
                assert forall|a: Seq<char>|
                    lists(kept@, a) <==> (a != relayer@ && exists|j: int|
                        0 <= j < i + 1 && ov[j]@ == a) by {
                    if lists(kept@, a) {
                        let m = choose|m: int| 0 <= m < kept@.len() && kept@[m]@ == a;
                        if m < before.len() {
                            assert(before[m] == kept@[m]);
                            assert(lists(before, a));
                        }
                    }
                    if a != relayer@ && exists|j: int| 0 <= j < i + 1 && ov[j]@ == a {
                        let j = choose|j: int| 0 <= j < i + 1 && ov[j]@ == a;
                        if j < i {
                            assert(lists(before, a));
                            let m = choose|m: int| 0 <= m < before.len() && before[m]@ == a;
                            assert(kept@[m] == before[m]);
                        } else {
                            assert(kept@[before.len() as int]@ == a);
                        }
                    }
                }
            }
        } else {
            proof {
                assert forall|a: Seq<char>|
                    lists(kept@, a) <==> (a != relayer@ && exists|j: int|
                        0 <= j < i + 1 && ov[j]@ == a) by {
                    if a != relayer@ && exists|j: int| 0 <= j < i + 1 && ov[j]@ == a {
                        let j = choose|j: int| 0 <= j < i + 1 && ov[j]@ == a;
                        assert(j < i);
                    }
                }
            }
        }
        i = i + 1;
    }
    resolver.config.authorized_relayers = kept;
    Ok(())
}

/// Hands the resolver to `new_owner`; only the owner may.
pub fn execute_update_owner(resolver: &mut Resolver, sender: &String, new_owner: String) -> (r:
    Result<(), ContractError>)
    requires
        old(resolver).wf(),
    ensures
        final(resolver).wf(),
        sender@ != old(resolver).config.owner@ ==> r == Err::<(), ContractError>(
            ContractError::Unauthorized,
        ) && *final(resolver) == *old(resolver),
        sender@ == old(resolver).config.owner@ ==> r is Ok && *final(resolver) == (Resolver {
            config: Config { owner: new_owner, ..old(resolver).config },
            ..*old(resolver)
        }),
{
    if !same_string(sender, &resolver.config.owner) {
        return Err(ContractError::Unauthorized);
    }
    resolver.config.owner = new_owner;
    Ok(())
}

pub fn query_is_authorized_relayer(resolver: &Resolver, relayer: &String) -> (r: bool)
    ensures
        r == is_relayer(resolver.config, relayer@),
{
    contains_address(&resolver.config.authorized_relayers, relayer)
}

/// The first order with id `order_id`, if any.
pub fn query_order(resolver: &Resolver, order_id: &String) -> (r: Option<Order>)
    ensures
        match r {
            Some(o) => exists|k: int|
                first_with_id(resolver.orders@, k, order_id@) && o == resolver.orders@[k],
            None => forall|k: int|
                0 <= k < resolver.orders@.len() ==> resolver.orders@[k].order_id@ != order_id@,
        },
{
    match find_id(&resolver.orders, order_id) {
        Some(k) => Some(resolver.orders[k].duplicate()),
        None => None,
    }
}

/// The auction price of the order bound to `escrow_address` at time `now`,
/// computed from the order's parameters; zero and no parameters when no
/// bound order has an auction.
pub fn query_current_price(resolver: &Resolver, escrow_address: &String, now: u64) -> (r:
    PriceResponse)
    ensures
        ({
            let orders = resolver.orders@;
            if exists|k: int| first_bound(orders, k, escrow_address@) && orders[k].dutch_auction is Some {
                let k = choose|k: int| first_bound(orders, k, escrow_address@);
                let da = orders[k].dutch_auction.unwrap();
                r == PriceResponse {
                    current_price: projected_price(da, now),
                    initial_price: Some(da.initial_price),
                    minimum_price: Some(da.minimum_price),
                    time_elapsed: elapsed_since(da.start_time, now),
                }
            } else {
                r == PriceResponse {
                    current_price: 0,
                    initial_price: None,
                    minimum_price: None,
                    time_elapsed: 0,
                }
            }
        }),
{
    if let Some(k) = find_bound(&resolver.orders, escrow_address) {
        proof {
            lemma_first_bound_unique(resolver.orders@, k as int, escrow_address@);
        }
        if let Some(da) = resolver.orders[k].dutch_auction {
            let elapsed: u64 = if now >= da.start_time {
                now - da.start_time
            } else {
                0
            };
            return PriceResponse {
                current_price: decayed_price(
                    da.initial_price,
                    da.minimum_price,
                    da.price_decay_rate,
                    elapsed,
                ),
                initial_price: Some(da.initial_price),
                minimum_price: Some(da.minimum_price),
                time_elapsed: elapsed,
            };
        }
    }
    PriceResponse { current_price: 0, initial_price: None, minimum_price: None, time_elapsed: 0 }
}

/// A page of orders in creation order: at most `limit` orders (30 when not
/// given, never more than 100), after the first order with id
/// `start_after`. A `start_after` that names no order gives an empty page.
pub fn query_active_orders(resolver: &Resolver, start_after: Option<String>, limit: Option<u32>) -> (r:
    Vec<Order>)
    ensures
        ({
            let orders = resolver.orders@;
            let n: int = match limit {
                Some(l) => if l < 100 {
                    l as int
                } else {
                    100
                },
                None => 30,
            };
            let start: int = match start_after {
                None => 0,
                Some(s) => (choose|k: int| first_with_id(orders, k, s@)) + 1,
            };
            if start_after is Some && !(exists|k: int| first_with_id(orders, k, start_after.unwrap()@)) {
                r@.len() == 0
            } else {
                r@ == orders.subrange(
                    start,
                    if start + n < orders.len() {
                        start + n
                    } else {
                        orders.len() as int
                    },
                )
            }
        }),
{
    let n: usize = match limit {
        Some(l) => if l < 100 {
            l as usize
        } else {
            100
        },
        None => 30,
    };
    let len = resolver.orders.len();
    let start: usize = match &start_after {
        None => 0,
        Some(s) => match find_id(&resolver.orders, s) {
            Some(k) => {
                proof {
                    lemma_first_id_unique(resolver.orders@, k as int, s@);
                }
                k + 1
            },
            None => {
                return Vec::new();
            },
        },
    };
    let end: usize = if n < len - start {
        start + n
    } else {
        len
    };
    let mut page: Vec<Order> = Vec::new();
    let mut i: usize = start;
    while i < end
        invariant
            start <= i <= end <= resolver.orders@.len(),
            page@ == resolver.orders@.subrange(start as int, i as int),
        decreases end - i,
    {
        page.push(resolver.orders[i].duplicate());
        i = i + 1;
        proof {
            assert(page@ =~= resolver.orders@.subrange(start as int, i as int));
        }
    }
    page
}

} // verus!
