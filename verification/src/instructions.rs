use crate::address::{spec_native_mint, Address};
use crate::errors::LpError;
use crate::gateway::{
    pool_authorization, spec_pool_authorization, spec_transfer_from_custody, spec_transfer_in,
    transfer_from_custody, transfer_token_into_pool, Authorization, Party, Transfer,
};
use crate::state::{valid_rate, FixedRateLP};
use vstd::prelude::*;

verus! {

/// What an `init` request works on: the fresh pool record, the quote mint
/// that gives the pool its identity, the quote custody account, and the
/// bump seed of the pool's derived address.
#[derive(Clone, Copy, Debug, PartialEq, Eq)]
pub struct LpInit {
    pub liquidity_pool: FixedRateLP,
    pub token_quote: Address,
    pub quote_ata: Address,
    pub bump: u8,
}

/// What an `add_liquidity` request works on: the pool record and the quote
/// mint of the request.
#[derive(Clone, Copy, Debug, PartialEq, Eq)]
pub struct LpAddLiquidity {
    pub liquidity_pool: FixedRateLP,
    pub token_quote: Address,
}

/// What a `swap` request works on: the pool record, the quote mint and the
/// program under which the pool's authority is derived, and the balances
/// that the base and the quote custody hold as the request arrives.
#[derive(Clone, Copy, Debug, PartialEq, Eq)]
pub struct LpSwap {
    pub liquidity_pool: FixedRateLP,
    pub token_quote: Address,
    pub program_id: Address,
    pub base_liquidity: u64,
    pub quote_liquidity: u64,
}

/// The transfers of an `add_liquidity` request: the base amount in the
/// native asset, then the quote amount, both from the user into custody.
pub open spec fn spec_add_liquidity(token_quote: Address, base_amount: u64, quote_amount: u64) -> Seq<
    Transfer,
> {
    seq![
        spec_transfer_in(spec_native_mint(), base_amount, None),
        spec_transfer_in(token_quote, quote_amount, None),
    ]
}

/// The three transfers that settle a priced swap, in the order in which
/// they are issued: the amount paid in from the user into custody, the fee
/// from custody into the fee custody, and the rest from custody to the
/// user. The last two leave custody and carry the pool's authorization.
pub open spec fn spec_settlement(
    from: Address,
    to: Address,
    from_amount: u64,
    to_amount_without_fee: u64,
    fee: u64,
    authorization: Authorization,
) -> Seq<Transfer> {
    seq![
        spec_transfer_in(from, from_amount, None),
        spec_transfer_from_custody(Ok(authorization), to, fee, Party::FeeCustody).unwrap(),
        spec_transfer_from_custody(
            Ok(authorization),
            to,
            (to_amount_without_fee - fee) as u64,
            Party::User,
        ).unwrap(),
    ]
}

/// What `settle_swap` owes: the settlement under the authorization, or the
/// error in its place.
pub open spec fn spec_settle_swap(
    from: Address,
    to: Address,
    from_amount: u64,
    to_amount_without_fee: u64,
    fee: u64,
    authorization: Result<Authorization, LpError>,
) -> Result<Seq<Transfer>, LpError> {
    match authorization {
        Ok(a) => Ok(spec_settlement(from, to, from_amount, to_amount_without_fee, fee, a)),
        Err(e) => Err(e),
    }
}

/// What `swap` owes: the error of the pricing, else the error of the
/// derivation, else the settlement of the priced swap.
pub open spec fn spec_swap(ctx: LpSwap, from: Address, to: Address, from_amount: u64) -> Result<
    Seq<Transfer>,
    LpError,
> {
    match ctx.liquidity_pool.spec_preview_swap(
        from,
        to,
        from_amount,
        ctx.base_liquidity,
        ctx.quote_liquidity,
    ) {
        Err(e) => Err(e),
        Ok((_, paid_in, to_amount_without_fee, fee)) => spec_settle_swap(
            from,
            to,
            paid_in,
            to_amount_without_fee,
            fee,
            spec_pool_authorization(ctx.token_quote, ctx.program_id),
        ),
    }
}

/// Whether a list of transfers is the stated plan of a request.
pub open spec fn is_plan(r: Result<Vec<Transfer>, LpError>, owed: Result<Seq<Transfer>, LpError>) -> bool {
    match r {
        Ok(plan) => owed == Ok::<Seq<Transfer>, LpError>(plan@),
        Err(e) => owed == Err::<Seq<Transfer>, LpError>(e),
    }
}

/// What the caller that carries out a plan does next.
#[derive(Clone, Copy, Debug, PartialEq, Eq)]
pub enum Step {
    /// Hand this transfer to the ledger.
    Issue(Transfer),
    /// Every transfer of the plan went through.
    Finished,
    /// Give the request up with this error.
    Aborted(LpError),
}

/// The step owed after `issued` transfers of `plan` were handed to the
/// ledger, the last of them with the outcome `last_went_through`.
pub open spec fn spec_next_step(plan: Seq<Transfer>, issued: nat, last_went_through: bool) -> Step {
    if !last_went_through {
        Step::Aborted(LpError::TransferFailed)
    } else if issued < plan.len() {
        Step::Issue(plan[issued as int])
    } else {
        Step::Finished
    }
}

/// Decides how the carrying out of a plan goes on. The transfers are issued
/// one by one in the plan's order; the first one that the ledger refuses
/// ends the request with `TransferFailed`, and none is issued after it.
pub fn next_step(plan: &Vec<Transfer>, issued: usize, last_went_through: bool) -> (r: Step)
    ensures
        r == spec_next_step(plan@, issued as nat, last_went_through),
{
    if !last_went_through {
        Step::Aborted(LpError::TransferFailed)
    } else if issued < plan.len() {
        Step::Issue(plan[issued])
    } else {
        Step::Finished
    }
}

/// Creates the pool of the request: a pool of the native asset against the
/// quote mint, at `fixed_rate`. Fails, and leaves the record as it was,
/// where the record already holds a pool or the rate is not valid.
pub fn init(ctx: &mut LpInit, fixed_rate: u32) -> (r: Result<(), LpError>)
    requires
        old(ctx).token_quote != spec_native_mint(),
    ensures
        old(ctx).liquidity_pool.is_initialized() ==> r == Err::<(), LpError>(
            LpError::AlreadyInitialized,
        ),
        !old(ctx).liquidity_pool.is_initialized() && !valid_rate(fixed_rate) ==> r == Err::<
            (),
            LpError,
        >(LpError::InvalidRate),
        !old(ctx).liquidity_pool.is_initialized() && valid_rate(fixed_rate) ==> r is Ok,
        r is Err ==> *final(ctx) == *old(ctx),
        r is Ok ==> *final(ctx) == (LpInit {
            liquidity_pool: FixedRateLP {
                rate: fixed_rate,
                token_base: spec_native_mint(),
                token_quote: old(ctx).token_quote,
                amount_quote_ata: old(ctx).quote_ata,
                bump: old(ctx).bump,
            },
            ..*old(ctx)
        }),
        r is Ok ==> final(ctx).liquidity_pool.wf(),
{
    let token_quote = ctx.token_quote;
    let quote_ata = ctx.quote_ata;
    let bump = ctx.bump;
    ctx.liquidity_pool.init(Address::native_mint(), token_quote, quote_ata, fixed_rate, bump)
}

/// Plans the deposit of `base_amount` of the native asset and of
/// `quote_amount` of the quote asset from the user into the pool's custody.
/// Any two amounts are accepted, and the pool record stays as it is.
pub fn add_liquidity(ctx: &mut LpAddLiquidity, base_amount: u64, quote_amount: u64) -> (r: Result<
    Vec<Transfer>,
    LpError,
>)
    ensures
        *final(ctx) == *old(ctx),
        r is Ok,
        is_plan(r, Ok(spec_add_liquidity(old(ctx).token_quote, base_amount, quote_amount))),
{
    let recorded = ctx.liquidity_pool.add_liquidity(base_amount, quote_amount);
    match recorded {
        Ok(()) => {},
        Err(e) => {
            return Err(e);
        },
    }
    let mut plan: Vec<Transfer> = Vec::new();
    plan.push(transfer_token_into_pool(Address::native_mint(), base_amount, None));
    plan.push(transfer_token_into_pool(ctx.token_quote, quote_amount, None));
    proof {
        assert(plan@ =~= spec_add_liquidity(ctx.token_quote, base_amount, quote_amount));
    }
    Ok(plan)
}

/// Plans the three transfers of a priced swap under `authorization`. No
/// transfer is planned where the authorization is missing.
pub fn settle_swap(
    from: Address,
    to: Address,
    from_amount: u64,
    to_amount_without_fee: u64,
    fee: u64,
    authorization: Result<Authorization, LpError>,
) -> (r: Result<Vec<Transfer>, LpError>)
    requires
        fee <= to_amount_without_fee,
    ensures
        is_plan(
            r,
            spec_settle_swap(from, to, from_amount, to_amount_without_fee, fee, authorization),
        ),
        r is Ok <==> authorization is Ok,
{
    let to_amount = to_amount_without_fee - fee;
    let deposit = transfer_token_into_pool(from, from_amount, None);
    let fee_transfer = match transfer_from_custody(authorization, to, fee, Party::FeeCustody) {
        Ok(t) => t,
        Err(e) => {
            return Err(e);
        },
    };
    let payout = match transfer_from_custody(authorization, to, to_amount, Party::User) {
        Ok(t) => t,
        Err(e) => {
            return Err(e);
        },
    };
    let mut plan: Vec<Transfer> = Vec::new();
    plan.push(deposit);
    plan.push(fee_transfer);
    plan.push(payout);
    proof {
        assert(plan@ =~= spec_settlement(
            from,
            to,
            from_amount,
            to_amount_without_fee,
            fee,
            authorization.unwrap(),
        ));
    }
    Ok(plan)
}

/// Prices a swap of `from_amount` of `from` into `to` against the custody
/// balances of the request and plans its settlement. Every check is made
/// before the first transfer is planned: the result is the whole plan or an
/// error, and the request's record stays as it is.
pub fn swap(ctx: &mut LpSwap, from: Address, to: Address, from_amount: u64) -> (r: Result<
    Vec<Transfer>,
    LpError,
>)
    requires
        old(ctx).liquidity_pool.wf(),
    ensures
        *final(ctx) == *old(ctx),
        is_plan(r, spec_swap(*old(ctx), from, to, from_amount)),
        r matches Ok(plan) ==> plan@.len() == 3,
{
    let base_liquidity = ctx.base_liquidity;
    let quote_liquidity = ctx.quote_liquidity;
    let quote = ctx.liquidity_pool.preview_swap(
        from,
        to,
        from_amount,
        base_liquidity,
        quote_liquidity,
    );
    let (paid_in, to_amount_without_fee, fee) = match quote {
        Ok((_, paid_in, to_amount_without_fee, fee)) => (paid_in, to_amount_without_fee, fee),
        Err(e) => {
            return Err(e);
        },
    };
    let authorization = pool_authorization(&ctx.token_quote, &ctx.program_id);
    settle_swap(from, to, paid_in, to_amount_without_fee, fee, authorization)
}

} // verus!
