use vstd::prelude::*;

verus! {

/// An amount of one native denomination attached to a call.
#[derive(Clone, Debug, PartialEq, Eq)]
pub struct Coin {
    pub denom: String,
    pub amount: u128,
}

/// The channel through which an escrow holds its deposit: a native
/// denomination, or a balance on a token contract.
#[derive(Clone, Debug, PartialEq, Eq)]
pub enum Asset {
    Native { denom: String },
    Cw20 { contract: String },
}

impl Asset {
    /// A copy of this channel.
    pub fn duplicate(&self) -> (r: Asset)
        ensures
            r == *self,
    {
        match self {
            Asset::Native { denom } => Asset::Native { denom: denom.clone() },
            Asset::Cw20 { contract } => Asset::Cw20 { contract: contract.clone() },
        }
    }
}

/// A transfer that the host performs after the call succeeds.
#[derive(Clone, Debug, PartialEq, Eq)]
pub struct Payout {
    pub asset: Asset,
    pub recipient: String,
    pub amount: u128,
}

/// Whether two strings are the same, character for character.
pub fn same_string(a: &String, b: &String) -> (r: bool)
    ensures
        r == (a@ == b@),
{
    a.eq(b)
}

/// The transfer of `amount` to `recipient` through the deposit's channel;
/// nothing when no deposit was made.
pub open spec fn payout_of(asset: Option<Asset>, recipient: String, amount: u128) -> Option<Payout> {
    match asset {
        Some(a) => Some(Payout { asset: a, recipient, amount }),
        None => None,
    }
}

pub fn make_payout(asset: &Option<Asset>, recipient: String, amount: u128) -> (r: Option<Payout>)
    ensures
        r == payout_of(*asset, recipient, amount),
{
    match asset {
        Some(a) => Some(Payout { asset: a.duplicate(), recipient, amount }),
        None => None,
    }
}

/// The denomination in which the reference markets take payment.
pub open spec fn payment_denom() -> Seq<char> {
    "uatom"@
}

/// The amount of the first attached coin in the payment denomination, or zero.
pub open spec fn payment_received(funds: Seq<Coin>) -> u128
    decreases funds.len(),
{
    if funds.len() == 0 {
        0
    } else if funds[0].denom@ == payment_denom() {
        funds[0].amount
    } else {
        payment_received(funds.drop_first())
    }
}

/// The amount of the first attached coin in the payment denomination, or zero.
pub fn received_in(funds: &Vec<Coin>) -> (r: u128)
    ensures
        r == payment_received(funds@),
{
    proof {
        reveal_strlit("uatom");
    }
    let denom = String::from_str("uatom");
    let mut i: usize = 0;
    proof {
        assert(funds@.subrange(0, funds@.len() as int) =~= funds@);
    }
    while i < funds.len()
        invariant
            i <= funds@.len(),
            denom@ == payment_denom(),
            payment_received(funds@) == payment_received(funds@.subrange(i as int, funds@.len() as int)),
        decreases funds@.len() - i,
    {
        proof {
            assert(funds@.subrange(i as int, funds@.len() as int).drop_first() =~= funds@.subrange(
                i + 1,
                funds@.len() as int,
            ));
        }
        if same_string(&funds[i].denom, &denom) {
            return funds[i].amount;
        }
        i = i + 1;
    }
    0
}

} // verus!
