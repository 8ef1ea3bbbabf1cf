use flake::{
    claim_fees, create_pair, quote, swap, Address, Authority, ClaimFees, CreatePair,
    CreatePairParams, CurveModel, Effect, Factory, FactoryError, Pair, Swap, SwapExecuted,
};

fn key(b: u8) -> Address {
    Address::new([b; 32])
}

fn new_pair(model: CurveModel, protocol_fee: u64, creator_fee: u64) -> Pair {
    let mut ctx = CreatePair {
        factory: Factory {
            authority: key(1),
            fee_recipient: key(2),
            protocol_fee,
            pairs_count: 4,
        },
        pair: Pair::default(),
        pair_key: key(10),
        bump: 253,
        creator: key(11),
        attention_token_mint: key(12),
        creator_token_account: key(13),
        vault: key(14),
    };
    let params = CreatePairParams {
        base_price: 7,
        curve_model: model,
        creator_fee,
        reserve_a: 3,
        reserve_b: 7,
        ..CreatePairParams::default()
    };
    create_pair(&mut ctx, params).unwrap();
    ctx.pair
}

fn trade(pair: Pair, vault_balance: u64) -> Swap {
    Swap {
        pair,
        pair_key: key(10),
        user: key(20),
        user_token_account: key(21),
        vault_bump: 250,
        vault_balance,
    }
}

fn vault_authority() -> Authority {
    Authority::Vault { pair: key(10), bump: 250 }
}

fn pair_authority() -> Authority {
    Authority::Pair { creator: key(11), creation_number: 4, bump: 253 }
}

fn refused(mut ctx: Swap, amount_in: u64, min_out: u64, is_buy: bool, expected: FactoryError) {
    let before = ctx.clone();
    assert_eq!(swap(&mut ctx, amount_in, min_out, is_buy), Err(expected));
    assert_eq!(ctx, before);
}

#[test]
fn buy_end_to_end() {
    let mut ctx = trade(new_pair(CurveModel::BoundedQuadratic, 500, 0), 0);
    let done = swap(&mut ctx, 1_000_000, 0, true).unwrap();
    assert_eq!(ctx.pair.s0, 24);
    assert_eq!(ctx.pair.unclaimed_fees, 50_000);
    assert_eq!(
        done.effects,
        vec![
            Effect::MoveBaseAsset {
                amount: 1_000_000,
                from: key(20),
                to: key(14),
                authority: Authority::Holder { account: key(20) },
            },
            Effect::Mint { mint: key(12), amount: 24, to: key(21), authority: pair_authority() },
        ]
    );
    assert_eq!(
        done.event,
        SwapExecuted {
            is_buy: true,
            amount_in: 1_000_000,
            amount_out: 24,
            user: key(20),
            pair_key: key(10),
            attention_token_mint: key(12),
        }
    );
    assert!(ctx.pair.is_well_formed());
    let mut vault: u64 = 0;
    let mut minted: u64 = 0;
    for e in done.effects {
        match e {
            Effect::MoveBaseAsset { amount, to, .. } if to == key(14) => vault += amount,
            Effect::MoveBaseAsset { amount, from, .. } if from == key(14) => vault -= amount,
            Effect::Mint { amount, to, .. } if to == key(21) => minted += amount,
            _ => {}
        }
    }
    assert_eq!(vault, 1_000_000);
    assert_eq!(minted, 24);
}

#[test]
fn buy_below_the_minimum_is_refused_and_changes_nothing() {
    let pair = new_pair(CurveModel::BoundedQuadratic, 500, 0);
    assert_eq!(quote(&pair, 2_000_000, true), Ok(49));
    refused(trade(pair.clone(), 77), 2_000_000, 1000, true, FactoryError::SlippageExceeded);
    refused(trade(pair.clone(), 77), 2_000_000, 50, true, FactoryError::SlippageExceeded);
    let mut ctx = trade(pair, 77);
    assert!(swap(&mut ctx, 2_000_000, 49, true).is_ok());
}

#[test]
fn buy_releases_the_creator_fee_from_the_vault() {
    let mut ctx = trade(new_pair(CurveModel::BoundedQuadratic, 500, 100), 0);
    let done = swap(&mut ctx, 1_000_000, 24, true).unwrap();
    assert_eq!(
        done.effects,
        vec![
            Effect::MoveBaseAsset {
                amount: 1_000_000,
                from: key(20),
                to: key(14),
                authority: Authority::Holder { account: key(20) },
            },
            Effect::MoveBaseAsset {
                amount: 10_000,
                from: key(14),
                to: key(11),
                authority: vault_authority(),
            },
            Effect::Mint { mint: key(12), amount: 24, to: key(21), authority: pair_authority() },
        ]
    );
    assert_eq!(ctx.pair.unclaimed_fees, 50_000);
}

#[test]
fn sell_burns_and_pays_out_of_the_vault() {
    let mut pair = new_pair(CurveModel::BoundedQuadratic, 500, 100);
    pair.s0 = 24_999;
    let mut ctx = trade(pair, 1_000_000_000);
    let done = swap(&mut ctx, 24_999, 999_960_031, false).unwrap();
    assert_eq!(ctx.pair.s0, 0);
    assert_eq!(ctx.pair.unclaimed_fees, 1_249);
    assert_eq!(
        done.effects,
        vec![
            Effect::Burn {
                mint: key(12),
                amount: 24_999,
                from: key(21),
                authority: Authority::Holder { account: key(20) },
            },
            Effect::MoveBaseAsset {
                amount: 249,
                from: key(14),
                to: key(11),
                authority: vault_authority(),
            },
            Effect::MoveBaseAsset {
                amount: 999_960_031,
                from: key(14),
                to: key(20),
                authority: vault_authority(),
            },
        ]
    );
    assert_eq!(done.event.amount_out, 999_960_031);
    assert!(!done.event.is_buy);
}

#[test]
fn buy_then_sell_returns_no_more_than_was_paid() {
    let mut ctx = trade(new_pair(CurveModel::BoundedQuadratic, 0, 0), 0);
    let bought = swap(&mut ctx, 1_000_000_000_000, 0, true).unwrap().event.amount_out;
    assert_eq!(bought, 24_999_219);
    ctx.vault_balance = 1_000_000_000_000;
    let back = swap(&mut ctx, bought, 0, false).unwrap().event.amount_out;
    assert_eq!(back, 999_999_995_548);
    assert_eq!(ctx.pair.s0, 0);
}

#[test]
fn swap_of_nothing_is_refused() {
    let pair = new_pair(CurveModel::BoundedQuadratic, 500, 0);
    refused(trade(pair.clone(), 10), 0, 0, true, FactoryError::InvalidAmount);
    refused(trade(pair, 10), 0, 0, false, FactoryError::InvalidAmount);
}

#[test]
fn sell_of_more_than_the_supply_is_refused() {
    let mut pair = new_pair(CurveModel::BoundedQuadratic, 500, 0);
    pair.s0 = 10;
    refused(trade(pair.clone(), u64::MAX), 11, 0, false, FactoryError::InsufficientTokens);
    let mut ctx = trade(pair, u64::MAX);
    assert!(swap(&mut ctx, 10, 0, false).is_ok());
}

#[test]
fn sell_beyond_what_the_vault_holds_is_refused() {
    let mut pair = new_pair(CurveModel::BoundedQuadratic, 0, 0);
    pair.s0 = 24;
    refused(trade(pair.clone(), 959_999), 24, 0, false, FactoryError::InsufficientLiquidity);
    let mut ctx = trade(pair, 960_000);
    assert_eq!(swap(&mut ctx, 24, 0, false).unwrap().event.amount_out, 960_000);
}

#[test]
fn sell_counts_the_creator_fee_against_the_vault() {
    let mut pair = new_pair(CurveModel::BoundedQuadratic, 0, 10_000);
    pair.s0 = 24;
    refused(trade(pair.clone(), 960_023), 24, 0, false, FactoryError::InsufficientLiquidity);
    let mut ctx = trade(pair, 960_024);
    assert!(swap(&mut ctx, 24, 0, false).is_ok());
}

#[test]
fn buy_beyond_the_supply_cap_is_refused() {
    let mut pair = new_pair(CurveModel::BoundedQuadratic, 0, 0);
    pair.s0 = pair.smax - 23;
    let out = quote(&pair, 3_000_000_000, true).unwrap();
    assert_eq!(out, 30);
    refused(trade(pair.clone(), 0), 3_000_000_000, 0, true, FactoryError::SupplyCapExceeded);
    let mut ctx = trade(pair, 0);
    let smaller = swap(&mut ctx, 2_300_000_000, 0, true).unwrap().event.amount_out;
    assert_eq!(smaller, 23);
    assert_eq!(ctx.pair.s0, ctx.pair.smax);
}

#[test]
fn fee_that_overflows_is_refused() {
    let pair = new_pair(CurveModel::BoundedQuadratic, 500, 0);
    refused(trade(pair, 0), u64::MAX / 500 + 1, 0, true, FactoryError::ArithmeticOverflow);
    let pair = new_pair(CurveModel::BoundedQuadratic, 0, 2);
    refused(trade(pair, 0), u64::MAX, 0, true, FactoryError::ArithmeticOverflow);
}

#[test]
fn accrued_fees_that_overflow_are_refused() {
    let mut pair = new_pair(CurveModel::BoundedQuadratic, 500, 0);
    pair.unclaimed_fees = u64::MAX - 49_999;
    refused(trade(pair.clone(), 0), 1_000_000, 0, true, FactoryError::ArithmeticOverflow);
    pair.unclaimed_fees = u64::MAX - 50_000;
    let mut ctx = trade(pair, 0);
    assert!(swap(&mut ctx, 1_000_000, 0, true).is_ok());
    assert_eq!(ctx.pair.unclaimed_fees, u64::MAX);
}

#[test]
fn refund_too_large_for_the_machine_is_refused() {
    let mut pair = new_pair(CurveModel::BoundedQuadratic, 0, 0);
    pair.s0 = pair.smax;
    let all = pair.smax;
    assert_eq!(quote(&pair, all, false), Err(FactoryError::ArithmeticOverflow));
    refused(trade(pair, u64::MAX), all, 0, false, FactoryError::ArithmeticOverflow);
}

#[test]
fn linear_division_pair_trades_at_its_base_price() {
    let mut ctx = trade(new_pair(CurveModel::LinearDivision, 0, 0), 0);
    let done = swap(&mut ctx, 1000, 142, true).unwrap();
    assert_eq!(done.event.amount_out, 142);
    assert_eq!(ctx.pair.s0, 142);
    ctx.vault_balance = 1000;
    let done = swap(&mut ctx, 142, 994, false).unwrap();
    assert_eq!(done.event.amount_out, 994);
    assert_eq!(ctx.pair.s0, 0);
}

#[test]
fn constant_ratio_pair_trades_at_its_ratio() {
    let mut ctx = trade(new_pair(CurveModel::ConstantRatio, 0, 0), 0);
    let done = swap(&mut ctx, 1000, 0, true).unwrap();
    assert_eq!(done.event.amount_out, 2333);
    ctx.vault_balance = 1000;
    let done = swap(&mut ctx, 2333, 0, false).unwrap();
    assert_eq!(done.event.amount_out, 999);
}

#[test]
fn constant_ratio_pair_without_reserves_cannot_trade() {
    let mut pair = new_pair(CurveModel::ConstantRatio, 0, 0);
    pair.reserve_a = 0;
    refused(trade(pair.clone(), 10), 5, 0, true, FactoryError::InsufficientLiquidity);
    pair.reserve_a = 3;
    pair.reserve_b = 0;
    pair.s0 = 5;
    refused(trade(pair.clone(), 10), 5, 0, false, FactoryError::InsufficientLiquidity);
    assert_eq!(quote(&pair, 5, true), Err(FactoryError::InsufficientLiquidity));
}

#[test]
fn vault_seeds_name_the_pair_and_the_bump() {
    let ctx = trade(new_pair(CurveModel::BoundedQuadratic, 0, 0), 0);
    assert_eq!(ctx.vault_seeds(9), vec![b"vault".to_vec(), vec![10u8; 32], vec![9u8]]);
}

fn claim(pair: Pair, caller: Address, vault_balance: u64) -> ClaimFees {
    ClaimFees { pair, pair_key: key(10), creator: caller, vault_bump: 250, vault_balance }
}

#[test]
fn claim_fees_releases_everything_once() {
    let mut pair = new_pair(CurveModel::BoundedQuadratic, 500, 0);
    pair.unclaimed_fees = 50_000;
    let mut ctx = claim(pair, key(11), 50_000);
    assert_eq!(
        claim_fees(&mut ctx),
        Ok(vec![Effect::MoveBaseAsset {
            amount: 50_000,
            from: key(14),
            to: key(11),
            authority: vault_authority(),
        }])
    );
    assert_eq!(ctx.pair.unclaimed_fees, 0);
    let before = ctx.clone();
    assert_eq!(claim_fees(&mut ctx), Err(FactoryError::NoFeesToClaim));
    assert_eq!(ctx, before);
}

#[test]
fn claim_fees_is_for_the_creator_only() {
    let mut pair = new_pair(CurveModel::BoundedQuadratic, 500, 0);
    pair.unclaimed_fees = 50_000;
    let mut ctx = claim(pair, key(20), 50_000);
    let before = ctx.clone();
    assert_eq!(claim_fees(&mut ctx), Err(FactoryError::UnauthorizedCaller));
    assert_eq!(ctx, before);
}

#[test]
fn claim_fees_never_overdraws_the_vault() {
    let mut pair = new_pair(CurveModel::BoundedQuadratic, 500, 0);
    pair.unclaimed_fees = 50_000;
    let mut ctx = claim(pair, key(11), 49_999);
    let before = ctx.clone();
    assert_eq!(claim_fees(&mut ctx), Err(FactoryError::InsufficientLiquidity));
    assert_eq!(ctx, before);
}

#[test]
fn fees_of_a_swap_can_be_claimed() {
    let mut ctx = trade(new_pair(CurveModel::BoundedQuadratic, 500, 0), 0);
    swap(&mut ctx, 1_000_000, 0, true).unwrap();
    let mut claiming = claim(ctx.pair, key(11), 1_000_000);
    let effects = claim_fees(&mut claiming).unwrap();
    assert_eq!(effects.len(), 1);
    assert_eq!(
        effects[0],
        Effect::MoveBaseAsset {
            amount: 50_000,
            from: key(14),
            to: key(11),
            authority: vault_authority(),
        }
    );
}
