use vstd::prelude::*;

use crate::funds::{payment_denom, payment_received, received_in, same_string, Asset, Coin, Payout};
use vstd::arithmetic::div_mod::lemma_fundamental_div_mod_converse;

verus! {

#[derive(Clone, Copy, Debug, PartialEq, Eq, Structural)]
pub enum ContractError {
    Unauthorized,
    OrderNotFound,
    OrderNotActive,
    FillAmountTooLarge,
    OrderAlreadyFilled,
    InvalidFillAmount,
}

/// An order to sell `total_amount` units at `price` each, bought in parts.
#[derive(Clone, Debug, PartialEq, Eq)]
pub struct Order {
    pub maker: String,
    pub taker: Option<String>,
    pub total_amount: u128,
    pub filled_amount: u128,
    pub price: u128,
    pub is_active: bool,
}

#[derive(Clone, Debug, PartialEq, Eq)]
pub struct OrderEntry {
    pub order_id: String,
    pub order: Order,
}

/// The orders, each under its own id.
#[derive(Clone, Debug, PartialEq, Eq)]
pub struct OrderBook {
    pub entries: Vec<OrderEntry>,
}

impl Order {
    /// Nothing is filled beyond the total.
    pub open spec fn wf(self) -> bool {
        self.filled_amount <= self.total_amount
    }

    pub fn remaining_amount(&self) -> (r: u128)
        requires
            self.wf(),
        ensures
            r == self.total_amount - self.filled_amount,
    {
        self.total_amount - self.filled_amount
    }

    pub fn is_fully_filled(&self) -> (r: bool)
        ensures
            r == (self.filled_amount >= self.total_amount),
    {
        self.filled_amount >= self.total_amount
    }

    /// The filled share of the order in whole percent, rounded down; zero for
    /// an empty order.
    pub fn fill_percentage(&self) -> (r: u64)
        requires
            self.wf(),
        ensures
            r == percent_of(self.filled_amount as int, self.total_amount as int),
    {
        let f = self.filled_amount;
        let t = self.total_amount;
        if t == 0 {
            return 0;
        }
        if f == t {
            proof {
                assert((f as int) * 100 / (t as int) == 100) by (nonlinear_arith)
                    requires
                        f == t,
                        t > 0,
                ;
            }
            return 100;
        }
        // 100 is 0b1100100: take its bits from the highest down.
        let (q, rem) = double_add(0, 0, f, t, true, Ghost(0));
        let (q, rem) = double_add(q, rem, f, t, true, Ghost(1));
        let (q, rem) = double_add(q, rem, f, t, false, Ghost(3));
        let (q, rem) = double_add(q, rem, f, t, false, Ghost(6));
        let (q, rem) = double_add(q, rem, f, t, true, Ghost(12));
        let (q, rem) = double_add(q, rem, f, t, false, Ghost(25));
        let (q, rem) = double_add(q, rem, f, t, false, Ghost(50));
        proof {
            lemma_fundamental_div_mod_converse(100 * (f as int), t as int, q as int, rem as int);
            assert((f as int) * 100 == 100 * (f as int));
        }
        q
    }
}

/// `filled` as a share of `total` in whole percent, rounded down.
pub open spec fn percent_of(filled: int, total: int) -> int {
    if total == 0 {
        0
    } else {
        filled * 100 / total
    }
}

/// One step of long division of `c * f` by `t`: from `c * f == q * t + rem`
/// to the same for `2 * c + add`, without leaving `u128`.
fn double_add(q: u64, rem: u128, f: u128, t: u128, add: bool, Ghost(c): Ghost<int>) -> (res: (
    u64,
    u128,
))
    requires
        f < t,
        rem < t,
        c * f == q * t + rem,
        0 <= q <= c <= 50,
    ensures
        res.1 < t,
        (2 * c + if add {
            1int
        } else {
            0int
        }) * f == res.0 * t + res.1,
        res.0 <= 2 * c + if add {
            1int
        } else {
            0int
        },
{
    proof {
        assert(2 * c * f == 2 * q * t + 2 * rem) by (nonlinear_arith)
            requires
                c * f == q * t + rem,
        ;
    }
    let mut q2: u64 = 2 * q;
    let mut r2: u128;
    if rem >= t - rem {
        q2 = q2 + 1;
        r2 = rem - (t - rem);
        proof {
            assert((q2 as int) * t == 2 * q * t + t) by (nonlinear_arith)
                requires
                    q2 == 2 * q + 1,
            ;
        }
    } else {
        r2 = rem + rem;
        proof {
            assert((q2 as int) * t == 2 * q * t) by (nonlinear_arith)
                requires
                    q2 == 2 * q,
            ;
        }
    }
    proof {
        assert(2 * c * f == q2 * t + r2);
        assert(q2 <= 2 * c) by (nonlinear_arith)
            requires
                2 * c * f == q2 * t + r2,
                f < t,
                r2 >= 0,
                c >= 0,
                q2 >= 0,
        ;
    }
    if add {
        proof {
            assert((2 * c + 1) * f == 2 * c * f + f) by (nonlinear_arith);
        }
        if r2 >= t - f {
            q2 = q2 + 1;
            r2 = r2 - (t - f);
            proof {
                assert((q2 as int) * t == (q2 - 1) * t + t) by (nonlinear_arith);
            }
        } else {
            r2 = r2 + f;
        }
        proof {
            assert(q2 <= 2 * c + 1) by (nonlinear_arith)
                requires
                    (2 * c + 1) * f == q2 * t + r2,
                    f < t,
                    r2 >= 0,
                    c >= 0,
                    q2 >= 0,
            ;
        }
    }
    (q2, r2)
}

pub open spec fn has_id(entries: Seq<OrderEntry>, id: Seq<char>) -> bool {
    exists|k: int| 0 <= k < entries.len() && entries[k].order_id@ == id
}

impl OrderBook {
    /// Ids are unique and every order is well formed.
    pub open spec fn wf(self) -> bool {
        &&& forall|i: int, j: int|
            0 <= i < j < self.entries@.len() ==> self.entries@[i].order_id@
                != self.entries@[j].order_id@
        &&& forall|k: int| 0 <= k < self.entries@.len() ==> (#[trigger] self.entries@[k]).order.wf()
    }

    /// The position of the order with id `id`.
    pub open spec fn index_of(self, id: Seq<char>) -> int {
        choose|k: int| 0 <= k < self.entries@.len() && self.entries@[k].order_id@ == id
    }
}

pub fn instantiate() -> (r: OrderBook)
    ensures
        r.entries@.len() == 0,
        r.wf(),
{
    OrderBook { entries: Vec::new() }
}

fn find_order(entries: &Vec<OrderEntry>, id: &String) -> (r: Option<usize>)
    ensures
        match r {
            Some(k) => k < entries@.len() && entries@[k as int].order_id@ == id@,
            None => !has_id(entries@, id@),
        },
{
    let mut i: usize = 0;
    while i < entries.len()
        invariant
            i <= entries@.len(),
            forall|j: int| 0 <= j < i ==> entries@[j].order_id@ != id@,
        decreases entries@.len() - i,
    {
        if same_string(&entries[i].order_id, id) {
            return Some(i);
        }
        i = i + 1;
    }
    None
}

/// Opens an order for `total_amount` units at `price` each, made by `sender`.
/// An id already in use is refused with `OrderNotFound`.
pub fn execute_create_order(
    book: &mut OrderBook,
    sender: &String,
    order_id: String,
    total_amount: u128,
    price: u128,
) -> (r: Result<(), ContractError>)
    requires
        old(book).wf(),
    ensures
        final(book).wf(),
        has_id(old(book).entries@, order_id@) ==> r == Err::<(), ContractError>(
            ContractError::OrderNotFound,
        ) && *final(book) == *old(book),
        !has_id(old(book).entries@, order_id@) ==> r is Ok && final(book).entries@ == old(
            book,
        ).entries@.push(
            OrderEntry {
                order_id,
                order: Order {
                    maker: *sender,
                    taker: None,
                    total_amount,
                    filled_amount: 0,
                    price,
                    is_active: true,
                },
            },
        ),
{
    if find_order(&book.entries, &order_id).is_some() {
        return Err(ContractError::OrderNotFound);
    }
    let ghost id = order_id@;
    book.entries.push(
        OrderEntry {
            order_id,
            order: Order {
                maker: sender.clone(),
                taker: None,
                total_amount,
                filled_amount: 0,
                price,
                is_active: true,
            },
        },
    );
    proof {
        let e = book.entries@;
        assert forall|i: int, j: int| 0 <= i < j < e.len() implies e[i].order_id@ != e[j].order_id@ by {
            if j == e.len() - 1 {
                assert(old(book).entries@[i] == e[i]);
            } else {
                assert(old(book).entries@[i] == e[i]);
                assert(old(book).entries@[j] == e[j]);
            }
        }
        assert forall|k: int| 0 <= k < e.len() implies (#[trigger] e[k]).order.wf() by {
            if k < e.len() - 1 {
                assert(old(book).entries@[k] == e[k]);
            }
        }
    }
    Ok(())
}

pub open spec fn fill_failure(book: OrderBook, order_id: Seq<char>, fill_amount: u128, received: u128) -> Option<
    ContractError,
> {
    if !has_id(book.entries@, order_id) {
        Some(ContractError::OrderNotFound)
    } else {
        let o = book.entries@[book.index_of(order_id)].order;
        if !o.is_active {
            Some(ContractError::OrderNotActive)
        } else if o.filled_amount >= o.total_amount {
            Some(ContractError::OrderAlreadyFilled)
        } else if fill_amount == 0 {
            Some(ContractError::InvalidFillAmount)
        } else if fill_amount > o.total_amount - o.filled_amount {
            Some(ContractError::FillAmountTooLarge)
        } else if received < fill_amount * o.price {
            Some(ContractError::InvalidFillAmount)
        } else {
            None
        }
    }
}

/// The order after `sender` buys `fill_amount` units: the first buyer becomes
/// the taker, and a fully filled order closes.
pub open spec fn filled(o: Order, sender: String, fill_amount: u128) -> Order {
    Order {
        filled_amount: (o.filled_amount + fill_amount) as u128,
        taker: match o.taker {
            Some(t) => Some(t),
            None => Some(sender),
        },
        is_active: o.filled_amount + fill_amount < o.total_amount,
        ..o
    }
}

/// `sender` buys `fill_amount` units of the order `order_id`, paying
/// `fill_amount * price` in the payment denomination with the attached coins.
pub fn execute_partial_fill(
    book: &mut OrderBook,
    sender: &String,
    order_id: &String,
    fill_amount: u128,
    funds: &Vec<Coin>,
) -> (r: Result<Vec<Payout>, ContractError>)
    requires
        old(book).wf(),
    ensures
        final(book).wf(),
        match fill_failure(*old(book), order_id@, fill_amount, payment_received(funds@)) {
            Some(err) => r == Err::<Vec<Payout>, ContractError>(err) && *final(book) == *old(book),
            None => {
                let k = old(book).index_of(order_id@);
                let o = old(book).entries@[k].order;
                &&& r is Ok
                &&& final(book).entries@ == old(book).entries@.update(
                    k,
                    OrderEntry { order: filled(o, *sender, fill_amount), ..old(book).entries@[k] },
                )
                &&& r.unwrap()@.len() == if payment_received(funds@) > fill_amount * o.price {
                    2int
                } else {
                    1int
                }
                &&& r.unwrap()@[0].recipient == o.maker
                &&& r.unwrap()@[0].amount == fill_amount * o.price
                &&& r.unwrap()@[0].asset is Native
                &&& r.unwrap()@[0].asset->Native_denom@ == payment_denom()
                &&& r.unwrap()@.len() == 2 ==> r.unwrap()@[1].recipient == *sender
                    && r.unwrap()@[1].amount == payment_received(funds@) - fill_amount * o.price
                    && r.unwrap()@[1].asset is Native && r.unwrap()@[1].asset->Native_denom@
                    == payment_denom()
            },
        },
{
    let k = match find_order(&book.entries, order_id) {
        Some(k) => k,
        None => {
            return Err(ContractError::OrderNotFound);
        },
    };
    proof {
        let j = old(book).index_of(order_id@);
        assert(0 <= j < old(book).entries@.len() && old(book).entries@[j].order_id@ == order_id@);
        if j != k {
            if j < k {
                assert(old(book).entries@[j].order_id@ != old(book).entries@[k as int].order_id@);
            } else {
                assert(old(book).entries@[k as int].order_id@ != old(book).entries@[j].order_id@);
            }
        }
        assert(old(book).entries@[k as int].order.wf());
    }
    let o = &book.entries[k].order;
    if !o.is_active {
        return Err(ContractError::OrderNotActive);
    }
    if o.is_fully_filled() {
        return Err(ContractError::OrderAlreadyFilled);
    }
    if fill_amount == 0 {
        return Err(ContractError::InvalidFillAmount);
    }
    if fill_amount > o.remaining_amount() {
        return Err(ContractError::FillAmountTooLarge);
    }
    let received = received_in(funds);
    let required = match fill_amount.checked_mul(o.price) {
        Some(p) => p,
        None => {
            return Err(ContractError::InvalidFillAmount);
        },
    };
    if received < required {
        return Err(ContractError::InvalidFillAmount);
    }
    let maker = o.maker.clone();
    let new_filled = o.filled_amount + fill_amount;
    let taker = match &o.taker {
        Some(t) => t.clone(),
        None => sender.clone(),
    };
    book.entries[k].order.filled_amount = new_filled;
    book.entries[k].order.taker = Some(taker);
    book.entries[k].order.is_active = new_filled < book.entries[k].order.total_amount;
    proof {
        reveal_strlit("uatom");
    }
    let mut transfers: Vec<Payout> = Vec::new();
    transfers.push(
        Payout {
            asset: Asset::Native { denom: String::from_str("uatom") },
            recipient: maker,
            amount: required,
        },
    );
    if received > required {
        transfers.push(
            Payout {
                asset: Asset::Native { denom: String::from_str("uatom") },
                recipient: sender.clone(),
                amount: received - required,
            },
        );
    }
    proof {
        let e = book.entries@;
        let oe = old(book).entries@;
        assert forall|i: int, j: int| 0 <= i < j < e.len() implies e[i].order_id@ != e[j].order_id@ by {
            assert(oe[i].order_id == e[i].order_id);
            assert(oe[j].order_id == e[j].order_id);
        }
        assert forall|m: int| 0 <= m < e.len() implies (#[trigger] e[m]).order.wf() by {
            if m != k {
                assert(oe[m] == e[m]);
            }
        }
        assert(e =~= oe.update(
            k as int,
            OrderEntry { order: filled(oe[k as int].order, *sender, fill_amount), ..oe[k as int] },
        ));
    }
    Ok(transfers)
}

/// The maker closes an active order.
pub fn execute_cancel_order(book: &mut OrderBook, sender: &String, order_id: &String) -> (r: Result<
    (),
    ContractError,
>)
    requires
        old(book).wf(),
    ensures
        final(book).wf(),
        !has_id(old(book).entries@, order_id@) ==> r == Err::<(), ContractError>(
            ContractError::OrderNotFound,
        ) && *final(book) == *old(book),
        has_id(old(book).entries@, order_id@) ==> {
            let k = old(book).index_of(order_id@);
            let o = old(book).entries@[k].order;
            &&& sender@ != o.maker@ ==> r == Err::<(), ContractError>(ContractError::Unauthorized)
                && *final(book) == *old(book)
            &&& sender@ == o.maker@ && !o.is_active ==> r == Err::<(), ContractError>(
                ContractError::OrderNotActive,
            ) && *final(book) == *old(book)
            &&& sender@ == o.maker@ && o.is_active ==> r is Ok && final(book).entries@ == old(
                book,
            ).entries@.update(
                k,
                OrderEntry { order: Order { is_active: false, ..o }, ..old(book).entries@[k] },
            )
        },
{
    let k = match find_order(&book.entries, order_id) {
        Some(k) => k,
        None => {
            return Err(ContractError::OrderNotFound);
        },
    };
    proof {
        let j = old(book).index_of(order_id@);
        assert(0 <= j < old(book).entries@.len() && old(book).entries@[j].order_id@ == order_id@);
        if j != k {
            if j < k {
                assert(old(book).entries@[j].order_id@ != old(book).entries@[k as int].order_id@);
            } else {
                assert(old(book).entries@[k as int].order_id@ != old(book).entries@[j].order_id@);
            }
        }
    }
    if !same_string(&book.entries[k].order.maker, sender) {
        return Err(ContractError::Unauthorized);
    }
    if !book.entries[k].order.is_active {
        return Err(ContractError::OrderNotActive);
    }
    book.entries[k].order.is_active = false;
    proof {
        let e = book.entries@;
        let oe = old(book).entries@;
        assert forall|i: int, j: int| 0 <= i < j < e.len() implies e[i].order_id@ != e[j].order_id@ by {
            assert(oe[i].order_id == e[i].order_id);
            assert(oe[j].order_id == e[j].order_id);
        }
        assert forall|m: int| 0 <= m < e.len() implies (#[trigger] e[m]).order.wf() by {
            if m != k {
                assert(oe[m] == e[m]);
            }
        }
        assert(e =~= oe.update(
            k as int,
            OrderEntry { order: Order { is_active: false, ..oe[k as int].order }, ..oe[k as int] },
        ));
    }
    Ok(())
}

} // verus!
