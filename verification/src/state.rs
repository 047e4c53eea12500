use crate::address::Address;
use crate::errors::LpError;
use vstd::prelude::*;

verus! {

/// Seed tag of the pool's own derived address: the bytes of `FixedRateLP_`.
pub const LP_SEED_PREFIX: [u8; 12] = [70, 105, 120, 101, 100, 82, 97, 116, 101, 76, 80, 95];

/// Seed tag of the fee custody's derived address: the bytes of
/// `FixedRateLP_fee_`.
pub const LP_FEE_SEED_PREFIX: [u8; 16] = [
    70, 105, 120, 101, 100, 82, 97, 116, 101, 76, 80, 95, 102, 101, 101, 95,
];

/// Number of decimal digits by which a stored rate is scaled.
pub const LP_RATE_DECIMAL: u8 = 3;

/// Ten to the power `LP_RATE_DECIMAL`: a stored rate of `RATE_SCALE` means
/// one quote unit per base unit.
pub const RATE_SCALE: u64 = 1000;

/// Largest rate a pool accepts: two to the power `32 - LP_RATE_DECIMAL`.
pub const MAX_RATE: u32 = 536_870_912;

/// Swap fee in parts per thousand, taken from the amount paid out, never
/// from the amount paid in.
pub const LP_SWAP_FEE_PERMIL: u8 = 50;

/// The two directions in which a pool trades.
#[derive(Clone, Copy, Debug, PartialEq, Eq, Structural)]
pub enum SwapDir {
    BaseToQuote,
    QuoteToBase,
}

/// Whether `rate` may be the fixed rate of a pool.
pub open spec fn valid_rate(rate: u32) -> bool {
    0 < rate <= MAX_RATE
}

/// The amount a swap yields before the fee: `from_amount` times the real
/// rate for base to quote, `from_amount` divided by the real rate for quote
/// to base, rounded down. The real rate is `rate / RATE_SCALE`.
pub open spec fn spec_to_amount(rate: u32, dir: SwapDir, from_amount: nat) -> nat {
    match dir {
        SwapDir::BaseToQuote => (from_amount * rate / (RATE_SCALE as int)) as nat,
        SwapDir::QuoteToBase => (from_amount * RATE_SCALE / (rate as int)) as nat,
    }
}

/// The fee on an amount paid out: `LP_SWAP_FEE_PERMIL` thousandths of it,
/// rounded down.
pub open spec fn spec_swap_fee(to_amount: nat) -> nat {
    (to_amount * LP_SWAP_FEE_PERMIL / 1000) as nat
}

/// The custody balance that has to cover a swap in direction `dir`.
pub open spec fn available_liquidity(
    dir: SwapDir,
    current_base_liquidity: u64,
    current_quote_liquidity: u64,
) -> u64 {
    match dir {
        SwapDir::BaseToQuote => current_quote_liquidity,
        SwapDir::QuoteToBase => current_base_liquidity,
    }
}

/// The error owed when the custody cannot cover a swap in direction `dir`.
pub open spec fn insufficient(dir: SwapDir) -> LpError {
    match dir {
        SwapDir::BaseToQuote => LpError::InsufficientQuoteAmount,
        SwapDir::QuoteToBase => LpError::InsufficientBaseAmount,
    }
}

/// The record of a fixed-rate pool over a base and a quote asset.
///
/// `rate` is the number of quote units per base unit, scaled by
/// `RATE_SCALE`: a pool that gives 10 quote for 1 base stores 10_000.
/// Liquidity is not recorded here; it is whatever the custody accounts hold
/// when a swap is priced.
#[derive(Clone, Copy, Debug, PartialEq, Eq)]
pub struct FixedRateLP {
    pub rate: u32,
    pub token_base: Address,
    pub token_quote: Address,
    pub amount_quote_ata: Address,
    pub bump: u8,
}

/// The record of a pool's fee custody: it holds nothing, and exists to own
/// the account in which fees gather.
#[derive(Clone, Copy, Debug, PartialEq, Eq, Structural)]
pub struct FixedRateLpFee {}

impl Default for FixedRateLP {
    /// A fresh record: no rate, and every address and the bump seed zero.
    fn default() -> (r: FixedRateLP)
        ensures
            !r.is_initialized(),
            r.rate == 0,
            r.token_base.is_zero(),
            r.token_quote.is_zero(),
            r.amount_quote_ata.is_zero(),
            r.bump == 0,
    {
        FixedRateLP {
            rate: 0,
            token_base: Address::default(),
            token_quote: Address::default(),
            amount_quote_ata: Address::default(),
            bump: 0,
        }
    }
}

impl FixedRateLP {
    /// Bytes of a stored pool record: rate, three addresses, bump.
    pub const MAXIMUM_SIZE: usize = 101;

    /// A record holds a pool once `init` has set its rate.
    pub open spec fn is_initialized(&self) -> bool {
        self.rate != 0
    }

    /// The invariant of an initialised pool.
    pub open spec fn wf(&self) -> bool {
        &&& valid_rate(self.rate)
        &&& self.token_base != self.token_quote
    }

    /// The direction of a swap from `from_token` to `to_token`: base to
    /// quote, quote to base, or none for any other pair.
    pub open spec fn spec_get_swap_dir(&self, from_token: Address, to_token: Address) -> Option<
        SwapDir,
    > {
        if from_token == self.token_base && to_token == self.token_quote {
            Some(SwapDir::BaseToQuote)
        } else if from_token == self.token_quote && to_token == self.token_base {
            Some(SwapDir::QuoteToBase)
        } else {
            None
        }
    }

    /// What `preview_swap` owes: the first failing check decides the error,
    /// in the order amount, asset pair, liquidity.
    pub open spec fn spec_preview_swap(
        &self,
        from_token: Address,
        to_token: Address,
        from_amount: u64,
        current_base_liquidity: u64,
        current_quote_liquidity: u64,
    ) -> Result<(SwapDir, u64, u64, u64), LpError> {
        if from_amount == 0 {
            Err(LpError::InvalidSwapAmount)
        } else {
            match self.spec_get_swap_dir(from_token, to_token) {
                None => Err(LpError::InvalidSwapToken),
                Some(dir) => {
                    let to_amount = spec_to_amount(self.rate, dir, from_amount as nat);
                    if to_amount > available_liquidity(
                        dir,
                        current_base_liquidity,
                        current_quote_liquidity,
                    ) {
                        Err(insufficient(dir))
                    } else {
                        Ok((dir, from_amount, to_amount as u64, spec_swap_fee(to_amount) as u64))
                    }
                },
            }
        }
    }

    /// Whether the record holds a pool: tells a caller that has read a
    /// record from storage whether swaps can be priced on it.
    pub fn is_pool(&self) -> (r: bool)
        ensures
            r == self.wf(),
    {
        0 < self.rate && self.rate <= MAX_RATE && self.token_base != self.token_quote
    }

    /// The direction of a swap from `from_token` to `to_token`, if the pool
    /// trades that pair.
    pub fn get_swap_dir(&self, from_token: Address, to_token: Address) -> (r: Option<SwapDir>)
        ensures
            r == self.spec_get_swap_dir(from_token, to_token),
    {
        if from_token == self.token_base && to_token == self.token_quote {
            Some(SwapDir::BaseToQuote)
        } else if from_token == self.token_quote && to_token == self.token_base {
            Some(SwapDir::QuoteToBase)
        } else {
            None
        }
    }

    /// Sets up a fresh record as a pool. A record that already holds a pool
    /// is left as it is, so that a rate once set cannot be replaced.
    pub fn init(
        &mut self,
        token_base: Address,
        token_quote: Address,
        amount_quote_ata: Address,
        fixed_rate: u32,
        bump: u8,
    ) -> (r: Result<(), LpError>)
        requires
            token_base != token_quote,
        ensures
            old(self).is_initialized() ==> r == Err::<(), LpError>(LpError::AlreadyInitialized),
            !old(self).is_initialized() && !valid_rate(fixed_rate) ==> r == Err::<(), LpError>(
                LpError::InvalidRate,
            ),
            !old(self).is_initialized() && valid_rate(fixed_rate) ==> r is Ok,
            r is Err ==> *final(self) == *old(self),
            r is Ok ==> *final(self) == (FixedRateLP {
                rate: fixed_rate,
                token_base,
                token_quote,
                amount_quote_ata,
                bump,
            }),
            r is Ok ==> final(self).wf(),
    {
        if self.rate != 0 {
            return Err(LpError::AlreadyInitialized);
        }
        if fixed_rate == 0 || fixed_rate > MAX_RATE {
            return Err(LpError::InvalidRate);
        }
        self.rate = fixed_rate;
        self.token_base = token_base;
        self.token_quote = token_quote;
        self.amount_quote_ata = amount_quote_ata;
        self.bump = bump;
        Ok(())
    }

    /// Accepts any two amounts and records nothing: the custody accounts
    /// alone say how much liquidity there is.
    pub fn add_liquidity(&mut self, token_base_amount: u64, token_quote_amount: u64) -> (r: Result<
        (),
        LpError,
    >)
        ensures
            r is Ok,
            *final(self) == *old(self),
    {
        Ok(())
    }

    /// Prices a swap of `from_amount` of `from_token` into `to_token`
    /// against the liquidity the custody accounts hold now. Returns the
    /// direction, the amount paid in, the amount paid out before the fee,
    /// and the fee.
    pub fn preview_swap(
        &mut self,
        from_token: Address,
        to_token: Address,
        from_amount: u64,
        current_base_liquidity: u64,
        current_quote_liquidity: u64,
    ) -> (r: Result<(SwapDir, u64, u64, u64), LpError>)
        requires
            old(self).wf(),
        ensures
            *final(self) == *old(self),
            r == old(self).spec_preview_swap(
                from_token,
                to_token,
                from_amount,
                current_base_liquidity,
                current_quote_liquidity,
            ),
            r matches Ok((dir, paid_in, to_amount, fee)) ==> {
                &&& paid_in == from_amount
                &&& to_amount == spec_to_amount(old(self).rate, dir, from_amount as nat)
                &&& to_amount <= available_liquidity(
                    dir,
                    current_base_liquidity,
                    current_quote_liquidity,
                )
                &&& fee == spec_swap_fee(to_amount as nat)
                &&& fee <= to_amount
            },
    {
        if from_amount == 0 {
            return Err(LpError::InvalidSwapAmount);
        }
        let dir = match self.get_swap_dir(from_token, to_token) {
            Some(dir) => dir,
            None => {
                return Err(LpError::InvalidSwapToken);
            },
        };
        let rate: u128 = self.rate as u128;
        let amount: u128 = from_amount as u128;
        let to_amount: u64 = match dir {
            SwapDir::BaseToQuote => {
                assert(amount * rate <= 0xffff_ffff_ffff_ffff * 0xffff_ffff) by (nonlinear_arith)
                    requires
                        amount <= 0xffff_ffff_ffff_ffff,
                        rate <= 0xffff_ffff,
                ;
                let wide: u128 = amount * rate / (RATE_SCALE as u128);
                if wide > current_quote_liquidity as u128 {
                    return Err(LpError::InsufficientQuoteAmount);
                }
                wide as u64
            },
            SwapDir::QuoteToBase => {
                let wide: u128 = amount * (RATE_SCALE as u128) / rate;
                if wide > current_base_liquidity as u128 {
                    return Err(LpError::InsufficientBaseAmount);
                }
                wide as u64
            },
        };
        let fee = FixedRateLP::get_swap_fee(to_amount);
        Ok((dir, from_amount, to_amount, fee))
    }

    /// The fee on `to_amount`, for every `to_amount` a balance can hold.
    pub fn get_swap_fee(to_amount: u64) -> (fee: u64)
        ensures
            fee == spec_swap_fee(to_amount as nat),
            fee <= to_amount,
    {
        let wide: u128 = to_amount as u128 * (LP_SWAP_FEE_PERMIL as u128) / 1000;
        wide as u64
    }
}

} // verus!
