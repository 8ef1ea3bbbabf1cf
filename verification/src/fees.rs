//! Fees: the cut of a trade that a rate in basis points takes.

use vstd::prelude::*;
use vstd::arithmetic::div_mod::lemma_fundamental_div_mod;
use crate::address::Address;
use crate::effects::{Authority, Effect};
use crate::error::FactoryError;
use crate::factory::FEE_DENOMINATOR;
use crate::pair::Pair;

verus! {

/// The cut that a rate of `rate` basis points takes of `amount`, rounded
/// down.
pub open spec fn fee_of(amount: int, rate: int) -> int {
    (amount * rate) / (FEE_DENOMINATOR as int)
}

/// The cut that a rate takes of an amount. The product of the two is formed
/// in 64 bits; where it does not fit, the result is `None`.
pub fn fee_amount(amount: u64, rate: u64) -> (fee: Option<u64>)
    ensures
        match fee {
            Some(f) => amount * rate <= u64::MAX && f == fee_of(amount as int, rate as int),
            None => amount * rate > u64::MAX,
        },
{
    match amount.checked_mul(rate) {
        Some(product) => Some(product / FEE_DENOMINATOR),
        None => None,
    }
}

/// Two fees whose rates together are at most 100% never take more than the
/// amount they are taken from, and a single fee never takes more than its
/// amount.
pub proof fn lemma_fees_within_amount(amount: int, protocol_rate: int, creator_rate: int)
    requires
        0 <= amount,
        0 <= protocol_rate,
        0 <= creator_rate,
        protocol_rate + creator_rate <= FEE_DENOMINATOR,
    ensures
        0 <= fee_of(amount, protocol_rate),
        0 <= fee_of(amount, creator_rate),
        fee_of(amount, protocol_rate) + fee_of(amount, creator_rate) <= amount,
{
    let d = FEE_DENOMINATOR as int;
    let p = amount * protocol_rate;
    let c = amount * creator_rate;
    lemma_fundamental_div_mod(p, d);
    lemma_fundamental_div_mod(c, d);
    assert(0 <= p && 0 <= c && p + c <= amount * d) by (nonlinear_arith)
        requires
            p == amount * protocol_rate,
            c == amount * creator_rate,
            0 <= amount,
            0 <= protocol_rate,
            0 <= creator_rate,
            protocol_rate + creator_rate <= d,
    ;
    let fp = p / d;
    let fc = c / d;
    assert(0 <= fp && 0 <= fc && fp + fc <= amount) by (nonlinear_arith)
        requires
            p == d * fp + p % d,
            c == d * fc + c % d,
            0 <= p % d < d,
            0 <= c % d < d,
            0 <= p,
            0 <= c,
            p + c <= amount * d,
            d == 10000,
    ;
}

/// What a claim of fees works on: the pair and its address, the caller,
/// the bump of the vault and what the vault holds.
#[derive(Clone, Debug, PartialEq, Eq)]
pub struct ClaimFees {
    pub pair: Pair,
    pub pair_key: Address,
    pub creator: Address,
    pub vault_bump: u8,
    pub vault_balance: u64,
}

/// Why a claim of fees is refused, if it is: a caller who is not the
/// creator, no fees accrued, or a vault that holds less than what accrued,
/// in this order.
pub open spec fn claim_error(ctx: ClaimFees) -> Option<FactoryError> {
    if ctx.creator@ != ctx.pair.creator@ {
        Some(FactoryError::UnauthorizedCaller)
    } else if ctx.pair.unclaimed_fees == 0 {
        Some(FactoryError::NoFeesToClaim)
    } else if ctx.pair.unclaimed_fees > ctx.vault_balance {
        Some(FactoryError::InsufficientLiquidity)
    } else {
        None
    }
}

/// Releases all the fees that the pair has accrued from the vault to the
/// creator and sets the accrued fees back to zero. Only the creator of the
/// pair may claim. A refused claim leaves the pair as it was and asks for
/// no fund movement.
pub fn claim_fees(ctx: &mut ClaimFees) -> (r: Result<Vec<Effect>, FactoryError>)
    ensures
        match r {
            Ok(effects) => {
                let pair = old(ctx).pair;
                &&& claim_error(*old(ctx)) is None
                &&& *final(ctx) == (ClaimFees {
                    pair: Pair { unclaimed_fees: 0, ..pair },
                    ..*old(ctx)
                })
                &&& pair.wf() ==> final(ctx).pair.wf()
                &&& effects@ == seq![
                    Effect::MoveBaseAsset {
                        amount: pair.unclaimed_fees,
                        from: pair.vault,
                        to: pair.creator,
                        authority: Authority::Vault {
                            pair: old(ctx).pair_key,
                            bump: old(ctx).vault_bump,
                        },
                    },
                ]
            },
            Err(e) => {
                &&& claim_error(*old(ctx)) == Some(e)
                &&& *final(ctx) == *old(ctx)
            },
        },
{
    if !ctx.creator.same_as(&ctx.pair.creator) {
        return Err(FactoryError::UnauthorizedCaller);
    }
    if ctx.pair.unclaimed_fees == 0 {
        return Err(FactoryError::NoFeesToClaim);
    }
    if ctx.pair.unclaimed_fees > ctx.vault_balance {
        return Err(FactoryError::InsufficientLiquidity);
    }
    let amount: u64 = ctx.pair.unclaimed_fees;
    ctx.pair.unclaimed_fees = 0;
    let mut effects: Vec<Effect> = Vec::new();
    effects.push(
        Effect::MoveBaseAsset {
            amount: amount,
            from: ctx.pair.vault,
            to: ctx.pair.creator,
            authority: Authority::Vault { pair: ctx.pair_key, bump: ctx.vault_bump },
        },
    );
    Ok(effects)
}

} // verus!
