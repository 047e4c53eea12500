use simple_liquidity_pool::address::Address;
use simple_liquidity_pool::errors::{ErrorClass, LpError};
use simple_liquidity_pool::gateway::{
    pool_authorization, AssetKind, Authorization, Party, Transfer,
};
use simple_liquidity_pool::instructions::{
    add_liquidity, init, next_step, settle_swap, swap, LpAddLiquidity, LpInit, LpSwap, Step,
};
use simple_liquidity_pool::state::{FixedRateLP, MAX_RATE};

fn addr(tag: u8) -> Address {
    Address { bytes: [tag; 32] }
}

fn quote() -> Address {
    addr(2)
}

fn program() -> Address {
    addr(100)
}

fn fresh() -> LpInit {
    LpInit { liquidity_pool: FixedRateLP::default(), token_quote: quote(), quote_ata: addr(3), bump: 251 }
}

fn pool(rate: u32) -> FixedRateLP {
    let mut ctx = fresh();
    init(&mut ctx, rate).unwrap();
    ctx.liquidity_pool
}

fn swap_ctx(rate: u32, base_liquidity: u64, quote_liquidity: u64) -> LpSwap {
    LpSwap {
        liquidity_pool: pool(rate),
        token_quote: quote(),
        program_id: program(),
        base_liquidity,
        quote_liquidity,
    }
}

fn change(plan: &[Transfer], party: Party, asset: Address) -> i128 {
    let mut total = 0i128;
    for t in plan {
        if t.asset == asset {
            if t.to == party {
                total += i128::from(t.amount);
            }
            if t.from == party {
                total -= i128::from(t.amount);
            }
        }
    }
    total
}

#[test]
fn init_request_creates_a_native_against_quote_pool() {
    let mut ctx = fresh();
    assert_eq!(init(&mut ctx, 10_000), Ok(()));
    assert_eq!(
        ctx,
        LpInit {
            liquidity_pool: FixedRateLP {
                rate: 10_000,
                token_base: Address::native_mint(),
                token_quote: quote(),
                amount_quote_ata: addr(3),
                bump: 251,
            },
            token_quote: quote(),
            quote_ata: addr(3),
            bump: 251,
        }
    );
}

#[test]
fn init_request_succeeds_on_the_bounds_of_the_rate() {
    for rate in [1u32, MAX_RATE] {
        let mut ctx = fresh();
        assert_eq!(init(&mut ctx, rate), Ok(()));
        assert_eq!(ctx.liquidity_pool.rate, rate);
    }
}

#[test]
fn init_request_fails_on_an_invalid_rate() {
    for rate in [0u32, MAX_RATE + 1, u32::MAX] {
        let mut ctx = fresh();
        let r = init(&mut ctx, rate);
        assert_eq!(r, Err(LpError::InvalidRate));
        assert_eq!(r.unwrap_err().class(), ErrorClass::Validation);
        assert_eq!(ctx, fresh());
    }
}

#[test]
fn init_request_fails_the_second_time() {
    let mut ctx = fresh();
    init(&mut ctx, 10_000).unwrap();
    let before = ctx;
    assert_eq!(init(&mut ctx, 20_000), Err(LpError::AlreadyInitialized));
    assert_eq!(ctx, before);
}

#[test]
fn add_liquidity_plans_base_then_quote() {
    let mut ctx = LpAddLiquidity { liquidity_pool: pool(10_000), token_quote: quote() };
    let before = ctx;
    let plan = add_liquidity(&mut ctx, 1_000_000, 25).unwrap();
    assert_eq!(
        plan,
        vec![
            Transfer {
                asset: Address::native_mint(),
                kind: AssetKind::Native,
                from: Party::User,
                to: Party::Custody,
                amount: 1_000_000,
                signer: None,
            },
            Transfer {
                asset: quote(),
                kind: AssetKind::Token,
                from: Party::User,
                to: Party::Custody,
                amount: 25,
                signer: None,
            },
        ]
    );
    assert_eq!(ctx, before);
}

#[test]
fn add_liquidity_of_nothing_changes_no_balance() {
    let mut ctx = LpAddLiquidity { liquidity_pool: pool(10_000), token_quote: quote() };
    let before = ctx;
    let plan = add_liquidity(&mut ctx, 0, 0).unwrap();
    assert_eq!(plan.len(), 2);
    for party in [Party::User, Party::Custody, Party::FeeCustody] {
        for asset in [Address::native_mint(), quote(), addr(9)] {
            assert_eq!(change(&plan, party, asset), 0);
        }
    }
    assert_eq!(ctx, before);
}

#[test]
fn add_liquidity_accumulates_over_calls() {
    let mut ctx = LpAddLiquidity { liquidity_pool: pool(10_000), token_quote: quote() };
    let mut plan = add_liquidity(&mut ctx, 10, 20).unwrap();
    plan.extend(add_liquidity(&mut ctx, 1, 2).unwrap());
    assert_eq!(change(&plan, Party::Custody, Address::native_mint()), 11);
    assert_eq!(change(&plan, Party::Custody, quote()), 22);
    assert_eq!(change(&plan, Party::User, Address::native_mint()), -11);
    assert_eq!(change(&plan, Party::User, quote()), -22);
}

#[test]
fn swap_plans_deposit_fee_and_payout_in_that_order() {
    let mut ctx = swap_ctx(10_000, 0, 20_000);
    let before = ctx;
    let plan = swap(&mut ctx, Address::native_mint(), quote(), 1000).unwrap();
    let a = pool_authorization(&quote(), &program()).unwrap();
    assert_eq!(
        plan,
        vec![
            Transfer {
                asset: Address::native_mint(),
                kind: AssetKind::Native,
                from: Party::User,
                to: Party::Custody,
                amount: 1000,
                signer: None,
            },
            Transfer {
                asset: quote(),
                kind: AssetKind::Token,
                from: Party::Custody,
                to: Party::FeeCustody,
                amount: 500,
                signer: Some(a),
            },
            Transfer {
                asset: quote(),
                kind: AssetKind::Token,
                from: Party::Custody,
                to: Party::User,
                amount: 9500,
                signer: Some(a),
            },
        ]
    );
    assert_eq!(ctx, before);
}

#[test]
fn swap_of_one_base_pays_ten_quote_and_no_fee() {
    let mut ctx = swap_ctx(10_000, 0, 20_000);
    let plan = swap(&mut ctx, Address::native_mint(), quote(), 1).unwrap();
    assert_eq!(plan[0].amount, 1);
    assert_eq!(plan[1].amount, 0);
    assert_eq!(plan[2].amount, 10);
}

#[test]
fn swap_back_pays_base_from_custody() {
    let mut ctx = swap_ctx(10_000, 5_000, 0);
    let plan = swap(&mut ctx, quote(), Address::native_mint(), 10_000).unwrap();
    assert_eq!(plan[0].asset, quote());
    assert_eq!(plan[0].kind, AssetKind::Token);
    assert_eq!(plan[0].amount, 10_000);
    assert_eq!(plan[1].kind, AssetKind::Native);
    assert_eq!(plan[1].to, Party::FeeCustody);
    assert_eq!(plan[1].amount, 50);
    assert_eq!(plan[2].kind, AssetKind::Native);
    assert_eq!(plan[2].to, Party::User);
    assert_eq!(plan[2].amount, 950);
    assert!(plan[1].signer.is_some() && plan[2].signer.is_some());
}

#[test]
fn swap_moves_what_the_pricing_says() {
    let mut ctx = swap_ctx(1_500, 0, 1_000);
    let native = Address::native_mint();
    let plan = swap(&mut ctx, native, quote(), 27).unwrap();
    assert_eq!(change(&plan, Party::User, native), -27);
    assert_eq!(change(&plan, Party::User, quote()), 38);
    assert_eq!(change(&plan, Party::Custody, native), 27);
    assert_eq!(change(&plan, Party::Custody, quote()), -40);
    assert_eq!(change(&plan, Party::FeeCustody, quote()), 2);
    assert_eq!(change(&plan, Party::FeeCustody, native), 0);
}

#[test]
fn swap_beyond_liquidity_fails_and_plans_nothing() {
    let mut ctx = swap_ctx(10_000, 999, 9_999);
    let before = ctx;
    let r = swap(&mut ctx, Address::native_mint(), quote(), 1000);
    assert_eq!(r, Err(LpError::InsufficientQuoteAmount));
    assert_eq!(r.unwrap_err().class(), ErrorClass::InsufficientLiquidity);
    let back = swap(&mut ctx, quote(), Address::native_mint(), 10_000);
    assert_eq!(back, Err(LpError::InsufficientBaseAmount));
    assert_eq!(back.unwrap_err().class(), ErrorClass::InsufficientLiquidity);
    assert_eq!(ctx, before);
}

#[test]
fn swap_rejects_bad_requests_before_planning() {
    let mut ctx = swap_ctx(10_000, 1_000, 1_000);
    assert_eq!(swap(&mut ctx, Address::native_mint(), quote(), 0), Err(LpError::InvalidSwapAmount));
    assert_eq!(swap(&mut ctx, quote(), quote(), 1), Err(LpError::InvalidSwapToken));
    assert_eq!(swap(&mut ctx, addr(9), quote(), 1), Err(LpError::InvalidSwapToken));
}

#[test]
fn round_trip_costs_the_trader_both_fees() {
    let native = Address::native_mint();
    let mut first = swap_ctx(10_000, 0, 1_000_000);
    let mut plan = swap(&mut first, native, quote(), 1000).unwrap();
    let mut second = swap_ctx(10_000, 1_000, 990_000);
    plan.extend(swap(&mut second, quote(), native, 10_000).unwrap());
    assert_eq!(change(&plan, Party::User, quote()), -500);
    assert_eq!(change(&plan, Party::User, native), -50);
    assert_eq!(change(&plan, Party::FeeCustody, quote()), 500);
    assert_eq!(change(&plan, Party::FeeCustody, native), 50);
    assert_eq!(change(&plan, Party::Custody, quote()), 0);
    assert_eq!(change(&plan, Party::Custody, native), 0);
}

#[test]
fn round_trip_of_a_small_amount_costs_nothing() {
    let native = Address::native_mint();
    let mut first = swap_ctx(10_000, 0, 1_000_000);
    let mut plan = swap(&mut first, native, quote(), 1).unwrap();
    let mut second = swap_ctx(10_000, 1, 1_000_000);
    plan.extend(swap(&mut second, quote(), native, 10).unwrap());
    assert_eq!(change(&plan, Party::User, quote()), 0);
    assert_eq!(change(&plan, Party::User, native), 0);
}

#[test]
fn round_trip_with_rounding_loses_more_than_the_fees() {
    let native = Address::native_mint();
    let mut first = swap_ctx(1_500, 0, 1_000_000);
    let mut plan = swap(&mut first, native, quote(), 27).unwrap();
    let mut second = swap_ctx(1_500, 1_000, 1_000_000);
    plan.extend(swap(&mut second, quote(), native, 40).unwrap());
    assert_eq!(change(&plan, Party::User, quote()), -2);
    assert_eq!(change(&plan, Party::User, native), -27 + 26 - 1);
}

#[test]
fn settlement_needs_an_authorization() {
    assert_eq!(
        settle_swap(addr(1), addr(2), 10, 100, 5, Err(LpError::AddressDerivationExhausted)),
        Err(LpError::AddressDerivationExhausted)
    );
    let a = Authorization { identity: addr(2), bump: 9 };
    let plan = settle_swap(addr(1), addr(2), 10, 100, 5, Ok(a)).unwrap();
    assert_eq!(plan.len(), 3);
    assert_eq!((plan[0].amount, plan[1].amount, plan[2].amount), (10, 5, 95));
    assert_eq!((plan[0].signer, plan[1].signer, plan[2].signer), (None, Some(a), Some(a)));
    assert_eq!((plan[0].from, plan[1].from, plan[2].from), (Party::User, Party::Custody, Party::Custody));
    assert_eq!((plan[0].to, plan[1].to, plan[2].to), (Party::Custody, Party::FeeCustody, Party::User));
}

#[test]
fn plan_is_issued_in_order_until_done() {
    let mut ctx = swap_ctx(10_000, 0, 20_000);
    let plan = swap(&mut ctx, Address::native_mint(), quote(), 1000).unwrap();
    assert_eq!(next_step(&plan, 0, true), Step::Issue(plan[0]));
    assert_eq!(next_step(&plan, 1, true), Step::Issue(plan[1]));
    assert_eq!(next_step(&plan, 2, true), Step::Issue(plan[2]));
    assert_eq!(next_step(&plan, 3, true), Step::Finished);
    assert_eq!(next_step(&plan, 4, true), Step::Finished);
    assert_eq!(next_step(&Vec::new(), 0, true), Step::Finished);
}

#[test]
fn refused_transfer_aborts_the_request() {
    let mut ctx = swap_ctx(10_000, 0, 20_000);
    let plan = swap(&mut ctx, Address::native_mint(), quote(), 1000).unwrap();
    for issued in 0..5 {
        assert_eq!(next_step(&plan, issued, false), Step::Aborted(LpError::TransferFailed));
    }
    assert_eq!(LpError::TransferFailed.class(), ErrorClass::Transfer);
}
