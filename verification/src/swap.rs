//! Settlement: one buy or one sell against a pair.

use vstd::prelude::*;
use crate::address::Address;
use crate::curve::{
    constant_ratio_out, constant_ratio_quote, exact_sol_to_tokens, exact_tokens_to_sol,
    lemma_buy_monotonic, lemma_constant_ratio_fair, lemma_linear_division_fair,
    lemma_round_trip_never_gains, lemma_tokens_bought_exists, linear_division_out,
    linear_division_quote, refund_owed, tokens_bought, CurveModel,
};
use crate::effects::{seeds_of, vault_seeds, Authority, Effect};
use crate::error::FactoryError;
use crate::fees::{fee_amount, fee_of, lemma_fees_within_amount};
use crate::pair::Pair;

verus! {

/// What a swap works on: the pair, its address, the trader and the
/// trader's token account, the bump of the pair's vault and what the vault
/// holds.
#[derive(Clone, Debug, PartialEq, Eq)]
pub struct Swap {
    pub pair: Pair,
    pub pair_key: Address,
    pub user: Address,
    pub user_token_account: Address,
    pub vault_bump: u8,
    pub vault_balance: u64,
}

/// The notice that a swap was settled.
#[derive(Clone, Copy, Debug, PartialEq, Eq)]
pub struct SwapExecuted {
    pub is_buy: bool,
    pub amount_in: u64,
    pub amount_out: u64,
    pub user: Address,
    pub pair_key: Address,
    pub attention_token_mint: Address,
}

/// What a settled swap hands back: the fund movements to carry out, in
/// order, and the notice to publish.
#[derive(Clone, Debug, PartialEq, Eq)]
pub struct Settlement {
    pub effects: Vec<Effect>,
    pub event: SwapExecuted,
}

impl Swap {
    /// The seeds that prove the identity of the pair's vault.
    pub fn vault_seeds(&self, vault_bump: u8) -> (out: Vec<Vec<u8>>)
        ensures
            seeds_of(out@) == vault_seeds(self.pair_key, vault_bump),
    {
        (Authority::Vault { pair: self.pair_key, bump: vault_bump }).signer_seeds()
    }
}

/// Whether the pricing model of a pair can quote at all: a fixed ratio
/// needs both of its reserves.
pub open spec fn has_liquidity(pair: Pair) -> bool {
    pair.curve_model == CurveModel::ConstantRatio ==> pair.reserve_a > 0 && pair.reserve_b > 0
}

/// What a trade of `amount_in` yields under the pricing model of the pair,
/// at its current supply: tokens for a buy, base asset for a sell.
pub open spec fn trade_out(pair: Pair, amount_in: int, is_buy: bool) -> int {
    match pair.curve_model {
        CurveModel::ConstantRatio => constant_ratio_out(
            amount_in,
            pair.reserve_a as int,
            pair.reserve_b as int,
            is_buy,
        ),
        CurveModel::LinearDivision => linear_division_out(amount_in, pair.base_price as int, is_buy),
        CurveModel::BoundedQuadratic => if is_buy {
            tokens_bought(
                amount_in,
                pair.s0 as int,
                pair.pmin as int,
                pair.pmax as int,
                pair.smax as int,
            )
        } else {
            refund_owed(
                pair.s0 as int,
                amount_in,
                pair.pmin as int,
                pair.pmax as int,
                pair.smax as int,
            )
        },
    }
}

/// The quote of a trade: what it yields, or why the pair cannot quote it.
pub open spec fn quote_of(pair: Pair, amount_in: u64, is_buy: bool) -> Result<u64, FactoryError> {
    if !has_liquidity(pair) {
        Err(FactoryError::InsufficientLiquidity)
    } else if trade_out(pair, amount_in as int, is_buy) > u64::MAX {
        Err(FactoryError::ArithmeticOverflow)
    } else {
        Ok(trade_out(pair, amount_in as int, is_buy) as u64)
    }
}

/// Quotes a trade against a pair without changing anything. A sell is
/// quoted for tokens that are in circulation.
pub fn quote(pair: &Pair, amount_in: u64, is_buy: bool) -> (r: Result<u64, FactoryError>)
    requires
        pair.wf(),
        !is_buy ==> amount_in <= pair.s0,
    ensures
        r == quote_of(*pair, amount_in, is_buy),
        r is Ok ==> trade_out(*pair, amount_in as int, is_buy) >= 0,
{
    let out: Option<u64> = match pair.curve_model {
        CurveModel::ConstantRatio => {
            if pair.reserve_a == 0 || pair.reserve_b == 0 {
                return Err(FactoryError::InsufficientLiquidity);
            }
            constant_ratio_quote(amount_in, pair.reserve_a, pair.reserve_b, is_buy)
        },
        CurveModel::LinearDivision => linear_division_quote(amount_in, pair.base_price, is_buy),
        CurveModel::BoundedQuadratic => {
            if is_buy {
                proof {
                    lemma_tokens_bought_exists(
                        amount_in as int,
                        pair.s0 as int,
                        pair.pmin as int,
                        pair.pmax as int,
                        pair.smax as int,
                    );
                }
                Some(exact_sol_to_tokens(amount_in, pair.s0, pair.pmin, pair.pmax, pair.smax))
            } else {
                exact_tokens_to_sol(pair.s0, amount_in, pair.pmin, pair.pmax, pair.smax)
            }
        },
    };
    match out {
        Some(v) => Ok(v),
        None => Err(FactoryError::ArithmeticOverflow),
    }
}

/// Under every pricing model, a larger payment never buys fewer tokens at
/// the same supply.
pub proof fn lemma_larger_payment_buys_no_less(pair: Pair, c1: u64, c2: u64)
    requires
        pair.wf(),
        has_liquidity(pair),
        c1 <= c2,
    ensures
        0 <= trade_out(pair, c1 as int, true) <= trade_out(pair, c2 as int, true),
{
    match pair.curve_model {
        CurveModel::ConstantRatio => {
            lemma_constant_ratio_fair(
                c1 as int,
                c2 as int,
                pair.reserve_a as int,
                pair.reserve_b as int,
            );
        },
        CurveModel::LinearDivision => {
            lemma_linear_division_fair(c1 as int, c2 as int, pair.base_price as int);
        },
        CurveModel::BoundedQuadratic => {
            lemma_tokens_bought_exists(
                c1 as int,
                pair.s0 as int,
                pair.pmin as int,
                pair.pmax as int,
                pair.smax as int,
            );
            lemma_buy_monotonic(
                c1 as int,
                c2 as int,
                pair.s0 as int,
                pair.pmin as int,
                pair.pmax as int,
                pair.smax as int,
            );
        },
    }
}

/// Under every pricing model, selling what a payment bought straight back,
/// at the supply the purchase led to, never returns more than the payment.
pub proof fn lemma_round_trip_returns_no_more(before: Pair, after: Pair, payment: u64)
    requires
        before.wf(),
        has_liquidity(before),
        after == (Pair {
            s0: after.s0,
            unclaimed_fees: after.unclaimed_fees,
            ..before
        }),
        after.s0 == before.s0 + trade_out(before, payment as int, true),
    ensures
        trade_out(after, trade_out(before, payment as int, true), false) <= payment,
{
    match before.curve_model {
        CurveModel::ConstantRatio => {
            lemma_constant_ratio_fair(
                payment as int,
                payment as int,
                before.reserve_a as int,
                before.reserve_b as int,
            );
        },
        CurveModel::LinearDivision => {
            lemma_linear_division_fair(payment as int, payment as int, before.base_price as int);
        },
        CurveModel::BoundedQuadratic => {
            lemma_round_trip_never_gains(
                payment as int,
                before.s0 as int,
                before.pmin as int,
                before.pmax as int,
                before.smax as int,
            );
        },
    }
}

/// The identity that signs for the pair of a swap.
pub open spec fn pair_authority(pair: Pair) -> Authority {
    Authority::Pair { creator: pair.creator, creation_number: pair.creation_number, bump: pair.bump }
}

/// The release of the creator's fee from the vault, if there is a fee.
pub open spec fn creator_fee_effects(
    pair: Pair,
    pair_key: Address,
    vault_bump: u8,
    creator_fee: u64,
) -> Seq<Effect> {
    if creator_fee > 0 {
        seq![
            Effect::MoveBaseAsset {
                amount: creator_fee,
                from: pair.vault,
                to: pair.creator,
                authority: Authority::Vault { pair: pair_key, bump: vault_bump },
            },
        ]
    } else {
        Seq::empty()
    }
}

/// The fund movements of a buy: the payment goes into the vault, the
/// creator's fee leaves it, the tokens are minted to the trader under the
/// pair's own authority.
pub open spec fn buy_effects(ctx: Swap, amount_in: u64, amount_out: u64, creator_fee: u64) -> Seq<
    Effect,
> {
    seq![
        Effect::MoveBaseAsset {
            amount: amount_in,
            from: ctx.user,
            to: ctx.pair.vault,
            authority: Authority::Holder { account: ctx.user },
        },
    ] + creator_fee_effects(ctx.pair, ctx.pair_key, ctx.vault_bump, creator_fee) + seq![
        Effect::Mint {
            mint: ctx.pair.attention_token_mint,
            amount: amount_out,
            to: ctx.user_token_account,
            authority: pair_authority(ctx.pair),
        },
    ]
}

/// The fund movements of a sell: the trader's tokens are burned under the
/// trader's authority, the creator's fee and the proceeds leave the vault.
pub open spec fn sell_effects(ctx: Swap, amount_in: u64, amount_out: u64, creator_fee: u64) -> Seq<
    Effect,
> {
    seq![
        Effect::Burn {
            mint: ctx.pair.attention_token_mint,
            amount: amount_in,
            from: ctx.user_token_account,
            authority: Authority::Holder { account: ctx.user },
        },
    ] + creator_fee_effects(ctx.pair, ctx.pair_key, ctx.vault_bump, creator_fee) + seq![
        Effect::MoveBaseAsset {
            amount: amount_out,
            from: ctx.pair.vault,
            to: ctx.user,
            authority: Authority::Vault { pair: ctx.pair_key, bump: ctx.vault_bump },
        },
    ]
}

/// Why a swap is refused, if it is. The checks come in this order: the
/// amount, the tokens in circulation (for a sell), the quote, the
/// caller's minimum, the two fees, the fees accrued, and last the supply
/// cap (for a buy) or what the vault holds (for a sell).
pub open spec fn swap_error(ctx: Swap, amount_in: u64, minimum_amount_out: u64, is_buy: bool)
    -> Option<FactoryError> {
    let pair = ctx.pair;
    let protocol_fee = fee_of(amount_in as int, pair.protocol_fee as int);
    let creator_fee = fee_of(amount_in as int, pair.creator_fee as int);
    if amount_in == 0 {
        Some(FactoryError::InvalidAmount)
    } else if !is_buy && amount_in > pair.s0 {
        Some(FactoryError::InsufficientTokens)
    } else if quote_of(pair, amount_in, is_buy) is Err {
        Some(quote_of(pair, amount_in, is_buy)->Err_0)
    } else if quote_of(pair, amount_in, is_buy)->Ok_0 < minimum_amount_out {
        Some(FactoryError::SlippageExceeded)
    } else if amount_in * pair.protocol_fee > u64::MAX || amount_in * pair.creator_fee > u64::MAX
        || pair.unclaimed_fees + protocol_fee > u64::MAX {
        Some(FactoryError::ArithmeticOverflow)
    } else if is_buy && pair.s0 + quote_of(pair, amount_in, is_buy)->Ok_0 > pair.smax {
        Some(FactoryError::SupplyCapExceeded)
    } else if !is_buy && quote_of(pair, amount_in, is_buy)->Ok_0 + creator_fee
        > ctx.vault_balance {
        Some(FactoryError::InsufficientLiquidity)
    } else {
        None
    }
}

/// Settles one trade against the pair. A buy pays `amount_in` of base asset
/// for tokens; a sell gives up `amount_in` tokens for base asset. The trade
/// is priced by the pair's model at its current supply and refused where
/// it yields less than `minimum_amount_out`. The protocol fee accrues to
/// the pair, the creator's fee is released from the vault at once, and the
/// supply moves by the tokens minted or burned. A refused swap leaves the
/// pair as it was and asks for no fund movement.
pub fn swap(ctx: &mut Swap, amount_in: u64, minimum_amount_out: u64, is_buy: bool) -> (r: Result<
    Settlement,
    FactoryError,
>)
    requires
        old(ctx).pair.wf(),
    ensures
        match r {
            Ok(done) => {
                let pair = old(ctx).pair;
                let amount_out = quote_of(pair, amount_in, is_buy)->Ok_0;
                let protocol_fee = fee_of(amount_in as int, pair.protocol_fee as int);
                let creator_fee = fee_of(amount_in as int, pair.creator_fee as int);
                &&& swap_error(*old(ctx), amount_in, minimum_amount_out, is_buy) is None
                &&& amount_out >= minimum_amount_out
                &&& protocol_fee + creator_fee <= amount_in
                &&& *final(ctx) == (Swap {
                    pair: Pair {
                        s0: (if is_buy {
                            pair.s0 + amount_out
                        } else {
                            pair.s0 - amount_in
                        }) as u64,
                        unclaimed_fees: (pair.unclaimed_fees + protocol_fee) as u64,
                        ..pair
                    },
                    ..*old(ctx)
                })
                &&& final(ctx).pair.wf()
                &&& done.effects@ == (if is_buy {
                    buy_effects(*old(ctx), amount_in, amount_out, creator_fee as u64)
                } else {
                    sell_effects(*old(ctx), amount_in, amount_out, creator_fee as u64)
                })
                &&& done.event == (SwapExecuted {
                    is_buy: is_buy,
                    amount_in: amount_in,
                    amount_out: amount_out,
                    user: old(ctx).user,
                    pair_key: old(ctx).pair_key,
                    attention_token_mint: pair.attention_token_mint,
                })
            },
            Err(e) => {
                &&& swap_error(*old(ctx), amount_in, minimum_amount_out, is_buy) == Some(e)
                &&& *final(ctx) == *old(ctx)
            },
        },
{
    if amount_in == 0 {
        return Err(FactoryError::InvalidAmount);
    }
    if !is_buy && amount_in > ctx.pair.s0 {
        return Err(FactoryError::InsufficientTokens);
    }
    let amount_out: u64 = match quote(&ctx.pair, amount_in, is_buy) {
        Ok(v) => v,
        Err(e) => {
            return Err(e);
        },
    };
    if amount_out < minimum_amount_out {
        return Err(FactoryError::SlippageExceeded);
    }
    let protocol_fee: u64 = match fee_amount(amount_in, ctx.pair.protocol_fee) {
        Some(f) => f,
        None => {
            return Err(FactoryError::ArithmeticOverflow);
        },
    };
    let creator_fee: u64 = match fee_amount(amount_in, ctx.pair.creator_fee) {
        Some(f) => f,
        None => {
            return Err(FactoryError::ArithmeticOverflow);
        },
    };
    proof {
        lemma_fees_within_amount(
            amount_in as int,
            ctx.pair.protocol_fee as int,
            ctx.pair.creator_fee as int,
        );
    }
    let accrued: u64 = match ctx.pair.unclaimed_fees.checked_add(protocol_fee) {
        Some(a) => a,
        None => {
            return Err(FactoryError::ArithmeticOverflow);
        },
    };
    let vault_authority = Authority::Vault { pair: ctx.pair_key, bump: ctx.vault_bump };
    let mut effects: Vec<Effect> = Vec::new();
    if is_buy {
        if amount_out > ctx.pair.smax - ctx.pair.s0 {
            return Err(FactoryError::SupplyCapExceeded);
        }
        effects.push(
            Effect::MoveBaseAsset {
                amount: amount_in,
                from: ctx.user,
                to: ctx.pair.vault,
                authority: Authority::Holder { account: ctx.user },
            },
        );
        if creator_fee > 0 {
            effects.push(
                Effect::MoveBaseAsset {
                    amount: creator_fee,
                    from: ctx.pair.vault,
                    to: ctx.pair.creator,
                    authority: vault_authority,
                },
            );
        }
        effects.push(
            Effect::Mint {
                mint: ctx.pair.attention_token_mint,
                amount: amount_out,
                to: ctx.user_token_account,
                authority: Authority::Pair {
                    creator: ctx.pair.creator,
                    creation_number: ctx.pair.creation_number,
                    bump: ctx.pair.bump,
                },
            },
        );
        assert(effects@ =~= buy_effects(*old(ctx), amount_in, amount_out, creator_fee));
        ctx.pair.s0 = ctx.pair.s0 + amount_out;
    } else {
        if amount_out as u128 + creator_fee as u128 > ctx.vault_balance as u128 {
            return Err(FactoryError::InsufficientLiquidity);
        }
        effects.push(
            Effect::Burn {
                mint: ctx.pair.attention_token_mint,
                amount: amount_in,
                from: ctx.user_token_account,
                authority: Authority::Holder { account: ctx.user },
            },
        );
        if creator_fee > 0 {
            effects.push(
                Effect::MoveBaseAsset {
                    amount: creator_fee,
                    from: ctx.pair.vault,
                    to: ctx.pair.creator,
                    authority: vault_authority,
                },
            );
        }
        effects.push(
            Effect::MoveBaseAsset {
                amount: amount_out,
                from: ctx.pair.vault,
                to: ctx.user,
                authority: vault_authority,
            },
        );
        assert(effects@ =~= sell_effects(*old(ctx), amount_in, amount_out, creator_fee));
        ctx.pair.s0 = ctx.pair.s0 - amount_in;
    }
    ctx.pair.unclaimed_fees = accrued;
    let event = SwapExecuted {
        is_buy: is_buy,
        amount_in: amount_in,
        amount_out: amount_out,
        user: ctx.user,
        pair_key: ctx.pair_key,
        attention_token_mint: ctx.pair.attention_token_mint,
    };
    Ok(Settlement { effects, event })
}

} // verus!
