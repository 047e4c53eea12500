use vstd::prelude::*;

verus! {

/// Why a pool request was turned down.
#[derive(Clone, Copy, Debug, PartialEq, Eq, Structural)]
pub enum LpError {
    /// The fixed rate is zero or above `MAX_RATE`.
    InvalidRate,
    /// A swap was asked for a zero amount.
    InvalidSwapAmount,
    /// The asset pair is neither base-to-quote nor quote-to-base.
    InvalidSwapToken,
    /// The quote custody holds less than the swap would pay out.
    InsufficientQuoteAmount,
    /// The base custody holds less than the swap would pay out.
    InsufficientBaseAmount,
    /// The pool record already holds a rate.
    AlreadyInitialized,
    /// The ledger refused one of the transfers of a request.
    TransferFailed,
    /// No bump seed yields a valid derived address.
    AddressDerivationExhausted,
}

/// The four families of failure a caller has to tell apart.
#[derive(Clone, Copy, Debug, PartialEq, Eq, Structural)]
pub enum ErrorClass {
    /// Bad input; the caller may retry with corrected values.
    Validation,
    /// The pool cannot cover the swap; retry smaller or later.
    InsufficientLiquidity,
    /// The ledger refused a transfer; the whole request is void.
    Transfer,
    /// The pool's signing authority could not be rebuilt; not retryable.
    Derivation,
}

impl LpError {
    pub open spec fn spec_class(self) -> ErrorClass {
        match self {
            LpError::InvalidRate => ErrorClass::Validation,
            LpError::InvalidSwapAmount => ErrorClass::Validation,
            LpError::InvalidSwapToken => ErrorClass::Validation,
            LpError::AlreadyInitialized => ErrorClass::Validation,
            LpError::InsufficientQuoteAmount => ErrorClass::InsufficientLiquidity,
            LpError::InsufficientBaseAmount => ErrorClass::InsufficientLiquidity,
            LpError::TransferFailed => ErrorClass::Transfer,
            LpError::AddressDerivationExhausted => ErrorClass::Derivation,
        }
    }

    /// The family this error belongs to.
    pub fn class(&self) -> (r: ErrorClass)
        ensures
            r == self.spec_class(),
    {
        match self {
            LpError::InvalidRate => ErrorClass::Validation,
            LpError::InvalidSwapAmount => ErrorClass::Validation,
            LpError::InvalidSwapToken => ErrorClass::Validation,
            LpError::AlreadyInitialized => ErrorClass::Validation,
            LpError::InsufficientQuoteAmount => ErrorClass::InsufficientLiquidity,
            LpError::InsufficientBaseAmount => ErrorClass::InsufficientLiquidity,
            LpError::TransferFailed => ErrorClass::Transfer,
            LpError::AddressDerivationExhausted => ErrorClass::Derivation,
        }
    }
}

} // verus!
