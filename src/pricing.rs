use vstd::prelude::*;

verus! {

/// The price of a linear Dutch auction after `elapsed` seconds: it starts at
/// `initial`, falls by `rate` each second, and never goes below `minimum`.
pub open spec fn decayed_price_spec(initial: int, minimum: int, rate: int, elapsed: int) -> int {
    if rate * elapsed >= initial {
        minimum
    } else if initial - rate * elapsed > minimum {
        initial - rate * elapsed
    } else {
        minimum
    }
}

/// The one price formula of the library. A product `rate * elapsed` that does
/// not fit in a `u128` exceeds any initial price, so the price is the minimum.
pub fn decayed_price(initial: u128, minimum: u128, rate: u128, elapsed: u64) -> (r: u128)
    ensures
        r == decayed_price_spec(initial as int, minimum as int, rate as int, elapsed as int),
{
    match rate.checked_mul(elapsed as u128) {
        None => minimum,
        Some(decrease) => {
            if decrease >= initial {
                minimum
            } else if initial - decrease > minimum {
                initial - decrease
            } else {
                minimum
            }
        },
    }
}

/// The price never falls below the minimum, whatever the elapsed time.
pub proof fn lemma_price_at_least_minimum(initial: u128, minimum: u128, rate: u128, elapsed: u64)
    ensures
        decayed_price_spec(initial as int, minimum as int, rate as int, elapsed as int)
            >= minimum,
{
}

/// The price never rises as time passes.
pub proof fn lemma_price_non_increasing(
    initial: u128,
    minimum: u128,
    rate: u128,
    earlier: u64,
    later: u64,
)
    requires
        earlier <= later,
    ensures
        decayed_price_spec(initial as int, minimum as int, rate as int, later as int)
            <= decayed_price_spec(initial as int, minimum as int, rate as int, earlier as int),
{
    assert(rate as int * earlier as int <= rate as int * later as int) by (nonlinear_arith)
        requires
            earlier <= later,
    ;
}

} // verus!
