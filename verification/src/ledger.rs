use crate::address::{spec_native_mint, Address};
use crate::errors::{ErrorClass, LpError};
use crate::gateway::{spec_pool_authorization, Authorization, Party, Transfer};
use crate::instructions::{spec_add_liquidity, spec_settlement, spec_swap, LpSwap};
use crate::state::{
    available_liquidity, insufficient, spec_swap_fee, spec_to_amount, valid_rate, FixedRateLP,
    SwapDir,
};
use vstd::arithmetic::div_mod::{
    lemma_div_by_multiple, lemma_div_by_multiple_is_strongly_ordered, lemma_fundamental_div_mod,
};
use vstd::prelude::*;

verus! {

/// By how much one transfer changes what `party` holds of `asset`.
pub open spec fn transfer_change(t: Transfer, party: Party, asset: Address) -> int {
    if t.asset == asset {
        (if t.to == party {
            t.amount as int
        } else {
            0
        }) - (if t.from == party {
            t.amount as int
        } else {
            0
        })
    } else {
        0
    }
}

/// By how much a plan, carried out in full, changes what `party` holds of
/// `asset`.
pub open spec fn net_change(plan: Seq<Transfer>, party: Party, asset: Address) -> int
    decreases plan.len(),
{
    if plan.len() == 0 {
        0
    } else {
        net_change(plan.drop_last(), party, asset) + transfer_change(plan.last(), party, asset)
    }
}

/// One more transfer adds its own change to that of the plan before it.
pub proof fn lemma_net_change_push(plan: Seq<Transfer>, t: Transfer, party: Party, asset: Address)
    ensures
        net_change(plan.push(t), party, asset) == net_change(plan, party, asset) + transfer_change(
            t,
            party,
            asset,
        ),
{
    assert(plan.push(t).drop_last() =~= plan);
}

/// Two plans carried out one after the other change a holding by the sum of
/// their changes.
pub proof fn lemma_net_change_concat(
    first: Seq<Transfer>,
    second: Seq<Transfer>,
    party: Party,
    asset: Address,
)
    ensures
        net_change(first + second, party, asset) == net_change(first, party, asset) + net_change(
            second,
            party,
            asset,
        ),
    decreases second.len(),
{
    if second.len() == 0 {
        assert(first + second =~= first);
    } else {
        assert((first + second).drop_last() =~= first + second.drop_last());
        lemma_net_change_concat(first, second.drop_last(), party, asset);
    }
}

/// No plan creates or destroys funds: what the three parties gain and lose
/// of any asset adds up to nothing.
pub proof fn plan_conserves_funds(plan: Seq<Transfer>, asset: Address)
    ensures
        net_change(plan, Party::User, asset) + net_change(plan, Party::Custody, asset)
            + net_change(plan, Party::FeeCustody, asset) == 0,
    decreases plan.len(),
{
    if plan.len() > 0 {
        plan_conserves_funds(plan.drop_last(), asset);
    }
}

/// A deposit of nothing changes no balance: the plan of
/// `add_liquidity(0, 0)` leaves every holding of every asset as it was.
pub proof fn empty_deposit_changes_nothing(token_quote: Address, party: Party, asset: Address)
    ensures
        net_change(spec_add_liquidity(token_quote, 0, 0), party, asset) == 0,
{
    let plan = spec_add_liquidity(token_quote, 0, 0);
    lemma_net_change_push(Seq::empty(), plan[0], party, asset);
    lemma_net_change_push(Seq::empty().push(plan[0]), plan[1], party, asset);
    assert(plan =~= Seq::empty().push(plan[0]).push(plan[1]));
}

/// A deposit moves exactly the two amounts from the user into custody: the
/// base amount in the native asset, the quote amount in the quote asset.
pub proof fn deposit_moves_the_amounts(token_quote: Address, base_amount: u64, quote_amount: u64)
    requires
        token_quote != spec_native_mint(),
    ensures
        ({
            let plan = spec_add_liquidity(token_quote, base_amount, quote_amount);
            &&& net_change(plan, Party::User, spec_native_mint()) == -base_amount
            &&& net_change(plan, Party::Custody, spec_native_mint()) == base_amount
            &&& net_change(plan, Party::User, token_quote) == -quote_amount
            &&& net_change(plan, Party::Custody, token_quote) == quote_amount
            &&& net_change(plan, Party::FeeCustody, spec_native_mint()) == 0
            &&& net_change(plan, Party::FeeCustody, token_quote) == 0
        }),
{
    let plan = spec_add_liquidity(token_quote, base_amount, quote_amount);
    assert(plan =~= Seq::empty().push(plan[0]).push(plan[1]));
    lemma_plan_of_two(plan[0], plan[1], Party::User, spec_native_mint());
    lemma_plan_of_two(plan[0], plan[1], Party::Custody, spec_native_mint());
    lemma_plan_of_two(plan[0], plan[1], Party::FeeCustody, spec_native_mint());
    lemma_plan_of_two(plan[0], plan[1], Party::User, token_quote);
    lemma_plan_of_two(plan[0], plan[1], Party::Custody, token_quote);
    lemma_plan_of_two(plan[0], plan[1], Party::FeeCustody, token_quote);
}

proof fn lemma_plan_of_two(a: Transfer, b: Transfer, party: Party, asset: Address)
    ensures
        net_change(Seq::empty().push(a).push(b), party, asset) == transfer_change(a, party, asset)
            + transfer_change(b, party, asset),
{
    lemma_net_change_push(Seq::empty(), a, party, asset);
    lemma_net_change_push(Seq::empty().push(a), b, party, asset);
}

proof fn lemma_plan_of_three(a: Transfer, b: Transfer, c: Transfer, party: Party, asset: Address)
    ensures
        net_change(Seq::empty().push(a).push(b).push(c), party, asset) == transfer_change(
            a,
            party,
            asset,
        ) + transfer_change(b, party, asset) + transfer_change(c, party, asset),
{
    lemma_plan_of_two(a, b, party, asset);
    lemma_net_change_push(Seq::empty().push(a).push(b), c, party, asset);
}

/// The settlement of a priced swap moves what the pricing says and nothing
/// else. The user pays `from_amount` of the one asset and receives the
/// amount net of the fee of the other; custody receives what the user paid
/// and gives up the whole amount before the fee; the fee custody receives
/// the fee.
pub proof fn settlement_matches_the_pricing(
    from: Address,
    to: Address,
    from_amount: u64,
    to_amount_without_fee: u64,
    fee: u64,
    authorization: Authorization,
)
    requires
        from != to,
        fee <= to_amount_without_fee,
    ensures
        ({
            let plan = spec_settlement(
                from,
                to,
                from_amount,
                to_amount_without_fee,
                fee,
                authorization,
            );
            &&& net_change(plan, Party::User, from) == -from_amount
            &&& net_change(plan, Party::User, to) == to_amount_without_fee - fee
            &&& net_change(plan, Party::Custody, from) == from_amount
            &&& net_change(plan, Party::Custody, to) == -to_amount_without_fee
            &&& net_change(plan, Party::FeeCustody, from) == 0
            &&& net_change(plan, Party::FeeCustody, to) == fee
        }),
{
    let plan = spec_settlement(from, to, from_amount, to_amount_without_fee, fee, authorization);
    assert(plan =~= Seq::empty().push(plan[0]).push(plan[1]).push(plan[2]));
    lemma_plan_of_three(plan[0], plan[1], plan[2], Party::User, from);
    lemma_plan_of_three(plan[0], plan[1], plan[2], Party::User, to);
    lemma_plan_of_three(plan[0], plan[1], plan[2], Party::Custody, from);
    lemma_plan_of_three(plan[0], plan[1], plan[2], Party::Custody, to);
    lemma_plan_of_three(plan[0], plan[1], plan[2], Party::FeeCustody, from);
    lemma_plan_of_three(plan[0], plan[1], plan[2], Party::FeeCustody, to);
}

/// A swap that succeeds is settled by its own pricing: the plan is the
/// settlement of the quote that `preview_swap` gives for the same request,
/// the fee is the stated share of the amount paid out, and the user
/// receives that amount less the fee, which is never negative.
pub proof fn swap_pays_the_quote_less_the_fee(
    ctx: LpSwap,
    from: Address,
    to: Address,
    from_amount: u64,
)
    requires
        ctx.liquidity_pool.wf(),
        spec_swap(ctx, from, to, from_amount) is Ok,
    ensures
        ({
            let quote = ctx.liquidity_pool.spec_preview_swap(
                from,
                to,
                from_amount,
                ctx.base_liquidity,
                ctx.quote_liquidity,
            );
            let plan = spec_swap(ctx, from, to, from_amount).unwrap();
            &&& quote matches Ok((dir, paid_in, to_amount_without_fee, fee))
            &&& paid_in == from_amount
            &&& to_amount_without_fee == spec_to_amount(
                ctx.liquidity_pool.rate,
                dir,
                from_amount as nat,
            )
            &&& fee == spec_swap_fee(to_amount_without_fee as nat)
            &&& fee <= to_amount_without_fee
            &&& from != to
            &&& net_change(plan, Party::User, from) == -from_amount
            &&& net_change(plan, Party::User, to) == to_amount_without_fee - fee
            &&& net_change(plan, Party::User, to) >= 0
            &&& net_change(plan, Party::Custody, from) == from_amount
            &&& net_change(plan, Party::Custody, to) == -to_amount_without_fee
            &&& net_change(plan, Party::FeeCustody, to) == fee
            &&& net_change(plan, Party::FeeCustody, from) == 0
        }),
{
    let quote = ctx.liquidity_pool.spec_preview_swap(
        from,
        to,
        from_amount,
        ctx.base_liquidity,
        ctx.quote_liquidity,
    );
    let (dir, paid_in, to_amount_without_fee, fee) = quote.unwrap();
    let authorization = spec_pool_authorization(ctx.token_quote, ctx.program_id).unwrap();
    settlement_matches_the_pricing(from, to, paid_in, to_amount_without_fee, fee, authorization);
}

/// A pool trades exactly two pairs: its base for its quote asset, and its
/// quote for its base asset. No request resolves to both directions.
pub proof fn pool_trades_two_directions(pool: FixedRateLP, from: Address, to: Address)
    requires
        pool.wf(),
    ensures
        pool.spec_get_swap_dir(from, to) == Some(SwapDir::BaseToQuote) <==> from == pool.token_base
            && to == pool.token_quote,
        pool.spec_get_swap_dir(from, to) == Some(SwapDir::QuoteToBase) <==> from == pool.token_quote
            && to == pool.token_base,
        pool.spec_get_swap_dir(from, to) is Some ==> from != to,
{
}

/// A swap that succeeds never takes more out of custody than custody held
/// when the swap was priced.
pub proof fn swap_never_overdraws_custody(ctx: LpSwap, from: Address, to: Address, from_amount: u64)
    requires
        ctx.liquidity_pool.wf(),
        spec_swap(ctx, from, to, from_amount) is Ok,
    ensures
        ({
            let plan = spec_swap(ctx, from, to, from_amount).unwrap();
            let dir = ctx.liquidity_pool.spec_get_swap_dir(from, to).unwrap();
            &&& ctx.liquidity_pool.spec_get_swap_dir(from, to) is Some
            &&& available_liquidity(dir, ctx.base_liquidity, ctx.quote_liquidity) + net_change(
                plan,
                Party::Custody,
                to,
            ) >= 0
        }),
{
    swap_pays_the_quote_less_the_fee(ctx, from, to, from_amount);
}

/// A swap that asks for more than the receiving side's custody holds is
/// turned down for want of liquidity, and nothing is planned: no balance
/// changes.
pub proof fn uncovered_swap_is_refused(
    ctx: LpSwap,
    from: Address,
    to: Address,
    from_amount: u64,
    dir: SwapDir,
)
    requires
        ctx.liquidity_pool.wf(),
        from_amount > 0,
        ctx.liquidity_pool.spec_get_swap_dir(from, to) == Some(dir),
        spec_to_amount(ctx.liquidity_pool.rate, dir, from_amount as nat) > available_liquidity(
            dir,
            ctx.base_liquidity,
            ctx.quote_liquidity,
        ),
    ensures
        spec_swap(ctx, from, to, from_amount) == Err::<Seq<Transfer>, LpError>(insufficient(dir)),
        insufficient(dir).spec_class() == ErrorClass::InsufficientLiquidity,
{
}

/// Swapping into quote and straight back never returns more than was paid:
/// the base amount that comes back before the fee is at most the base
/// amount that went in, and equal to it exactly when the first conversion
/// left no remainder.
pub proof fn lemma_round_trip_amount(rate: u32, amount: nat)
    requires
        valid_rate(rate),
    ensures
        ({
            let quote = spec_to_amount(rate, SwapDir::BaseToQuote, amount);
            let back = spec_to_amount(rate, SwapDir::QuoteToBase, quote);
            &&& back <= amount
            &&& back == amount <==> (amount * rate) % 1000 == 0
        }),
{
    let product: int = amount * rate;
    let quote: int = product / 1000;
    let scaled: int = quote * 1000;
    assert(product >= 0) by (nonlinear_arith)
        requires
            product == amount * rate,
    ;
    lemma_fundamental_div_mod(product, 1000);
    assert(scaled + product % 1000 == product);
    assert(spec_to_amount(rate, SwapDir::BaseToQuote, amount) == quote);
    assert(spec_to_amount(rate, SwapDir::QuoteToBase, quote as nat) == scaled / (rate as int));
    lemma_div_by_multiple(amount as int, rate as int);
    assert(product / (rate as int) == amount);
    if product % 1000 == 0 {
        assert(scaled == product);
    } else {
        lemma_div_by_multiple_is_strongly_ordered(scaled, product, amount as int, rate as int);
    }
}

/// A fee is charged exactly on amounts of twenty units or more, and never
/// exceeds the amount.
pub proof fn lemma_fee_bounds(to_amount: nat)
    ensures
        spec_swap_fee(to_amount) <= to_amount,
        spec_swap_fee(to_amount) > 0 <==> to_amount >= 20,
{
}

/// Swapping `amount` of base into quote, and the nominal quote amount of
/// that swap back into base, never leaves the trader with a gain. Over
/// both trips the trader is out of pocket, in quote, by the first fee, and,
/// in base, by the second fee and by what rounding took.
pub proof fn round_trip_never_gains(first: LpSwap, second: LpSwap, amount: u64)
    requires
        first.liquidity_pool.wf(),
        second.liquidity_pool == first.liquidity_pool,
        second.token_quote == first.token_quote,
        second.program_id == first.program_id,
        spec_swap(
            first,
            first.liquidity_pool.token_base,
            first.liquidity_pool.token_quote,
            amount,
        ) is Ok,
        spec_swap(
            second,
            first.liquidity_pool.token_quote,
            first.liquidity_pool.token_base,
            spec_to_amount(first.liquidity_pool.rate, SwapDir::BaseToQuote, amount as nat) as u64,
        ) is Ok,
    ensures
        ({
            let pool = first.liquidity_pool;
            let quote = spec_to_amount(pool.rate, SwapDir::BaseToQuote, amount as nat);
            let back = spec_to_amount(pool.rate, SwapDir::QuoteToBase, quote);
            let both = spec_swap(first, pool.token_base, pool.token_quote, amount).unwrap()
                + spec_swap(second, pool.token_quote, pool.token_base, quote as u64).unwrap();
            &&& back <= amount
            &&& net_change(both, Party::User, pool.token_quote) == -spec_swap_fee(quote)
            &&& net_change(both, Party::User, pool.token_base) == -spec_swap_fee(back) - (amount
                - back)
            &&& net_change(both, Party::User, pool.token_quote) <= 0
            &&& net_change(both, Party::User, pool.token_base) <= 0
            &&& net_change(both, Party::FeeCustody, pool.token_quote) == spec_swap_fee(quote)
            &&& net_change(both, Party::FeeCustody, pool.token_base) == spec_swap_fee(back)
        }),
{
    let pool = first.liquidity_pool;
    let quote = spec_to_amount(pool.rate, SwapDir::BaseToQuote, amount as nat);
    let back = spec_to_amount(pool.rate, SwapDir::QuoteToBase, quote);
    let there = spec_swap(first, pool.token_base, pool.token_quote, amount).unwrap();
    let here = spec_swap(second, pool.token_quote, pool.token_base, quote as u64).unwrap();
    lemma_round_trip_amount(pool.rate, amount as nat);
    swap_pays_the_quote_less_the_fee(first, pool.token_base, pool.token_quote, amount);
    swap_pays_the_quote_less_the_fee(second, pool.token_quote, pool.token_base, quote as u64);
    lemma_net_change_concat(there, here, Party::User, pool.token_quote);
    lemma_net_change_concat(there, here, Party::User, pool.token_base);
    lemma_net_change_concat(there, here, Party::FeeCustody, pool.token_quote);
    lemma_net_change_concat(there, here, Party::FeeCustody, pool.token_base);
}

/// Where the first conversion leaves no remainder and a fee is charged on
/// at least one of the trips, the round trip costs the trader exactly the
/// two fees, and that cost is more than nothing.
pub proof fn round_trip_costs_the_fees(first: LpSwap, second: LpSwap, amount: u64)
    requires
        first.liquidity_pool.wf(),
        second.liquidity_pool == first.liquidity_pool,
        second.token_quote == first.token_quote,
        second.program_id == first.program_id,
        spec_swap(
            first,
            first.liquidity_pool.token_base,
            first.liquidity_pool.token_quote,
            amount,
        ) is Ok,
        spec_swap(
            second,
            first.liquidity_pool.token_quote,
            first.liquidity_pool.token_base,
            spec_to_amount(first.liquidity_pool.rate, SwapDir::BaseToQuote, amount as nat) as u64,
        ) is Ok,
        (amount * first.liquidity_pool.rate) % 1000 == 0,
        amount >= 20 || spec_to_amount(
            first.liquidity_pool.rate,
            SwapDir::BaseToQuote,
            amount as nat,
        ) >= 20,
    ensures
        ({
            let pool = first.liquidity_pool;
            let quote = spec_to_amount(pool.rate, SwapDir::BaseToQuote, amount as nat);
            let both = spec_swap(first, pool.token_base, pool.token_quote, amount).unwrap()
                + spec_swap(second, pool.token_quote, pool.token_base, quote as u64).unwrap();
            let loss_in_quote = -net_change(both, Party::User, pool.token_quote);
            let loss_in_base = -net_change(both, Party::User, pool.token_base);
            &&& loss_in_quote == spec_swap_fee(quote)
            &&& loss_in_base == spec_swap_fee(amount as nat)
            &&& loss_in_quote == net_change(both, Party::FeeCustody, pool.token_quote)
            &&& loss_in_base == net_change(both, Party::FeeCustody, pool.token_base)
            &&& loss_in_quote >= 0
            &&& loss_in_base >= 0
            &&& loss_in_quote + loss_in_base > 0
        }),
{
    let pool = first.liquidity_pool;
    let quote = spec_to_amount(pool.rate, SwapDir::BaseToQuote, amount as nat);
    round_trip_never_gains(first, second, amount);
    lemma_round_trip_amount(pool.rate, amount as nat);
    lemma_fee_bounds(quote);
    lemma_fee_bounds(amount as nat);
}

} // verus!
