use crate::address::{
    derive_address, is_derivation, program_address, spec_derive_address, spec_native_mint, Address,
    DerivedAddress,
};
use crate::errors::LpError;
use crate::state::{LP_FEE_SEED_PREFIX, LP_SEED_PREFIX};
use vstd::prelude::*;

verus! {

/// Which ledger moves an asset: the chain itself for its native asset, the
/// token ledger for every other mint.
#[derive(Clone, Copy, Debug, PartialEq, Eq, Structural)]
pub enum AssetKind {
    Native,
    Token,
}

/// The three holders between which a pool request moves funds. Each stands
/// for one account per asset kind: the user's wallet or token account, the
/// pool's custody of the base or of the quote asset, and the fee custody.
#[derive(Clone, Copy, Debug, PartialEq, Eq, Structural)]
pub enum Party {
    User,
    Custody,
    FeeCustody,
}

/// The capability to move funds out of a pool's custody: the seeds from which
/// the ledger rebuilds the pool's derived authority. Whoever holds the pool's
/// identity and its bump seed holds it; no secret key is involved.
#[derive(Clone, Copy, Debug, PartialEq, Eq)]
pub struct Authorization {
    pub identity: Address,
    pub bump: u8,
}

/// One transfer of `amount` units of `asset` for the ledger to carry out.
/// `signer` is absent where the user signs, and holds the pool's
/// authorization where funds leave custody.
#[derive(Clone, Copy, Debug, PartialEq, Eq)]
pub struct Transfer {
    pub asset: Address,
    pub kind: AssetKind,
    pub from: Party,
    pub to: Party,
    pub amount: u64,
    pub signer: Option<Authorization>,
}

/// The kind of an asset: native for the native mint, token for any other.
pub open spec fn spec_asset_kind(for_token: Address) -> AssetKind {
    if for_token == spec_native_mint() {
        AssetKind::Native
    } else {
        AssetKind::Token
    }
}

/// The transfer that `transfer_token_into_pool` describes.
pub open spec fn spec_transfer_in(
    for_token: Address,
    amount: u64,
    override_destination: Option<Party>,
) -> Transfer {
    Transfer {
        asset: for_token,
        kind: spec_asset_kind(for_token),
        from: Party::User,
        to: match override_destination {
            Some(destination) => destination,
            None => Party::Custody,
        },
        amount,
        signer: None,
    }
}

/// The authorization that a derivation of the pool's own address gives: the
/// pool's identity with the bump seed found, or the derivation's error.
pub open spec fn spec_authorization_from(
    token_quote: Address,
    derived: Result<DerivedAddress, LpError>,
) -> Result<Authorization, LpError> {
    match derived {
        Ok(d) => Ok(Authorization { identity: token_quote, bump: d.bump }),
        Err(e) => Err(e),
    }
}

/// The authorization of the pool whose quote asset is `token_quote`, under
/// the program `program_id`.
pub open spec fn spec_pool_authorization(token_quote: Address, program_id: Address) -> Result<
    Authorization,
    LpError,
> {
    match program_address(LP_SEED_PREFIX@, token_quote@, program_id@) {
        Some(found) => Ok(Authorization { identity: token_quote, bump: found.1 }),
        None => Err(LpError::AddressDerivationExhausted),
    }
}

/// The transfer out of custody that an authorization allows, or the error
/// that stands in its place.
pub open spec fn spec_transfer_from_custody(
    authorization: Result<Authorization, LpError>,
    for_token: Address,
    amount: u64,
    to: Party,
) -> Result<Transfer, LpError> {
    match authorization {
        Ok(a) => Ok(
            Transfer {
                asset: for_token,
                kind: spec_asset_kind(for_token),
                from: Party::Custody,
                to,
                amount,
                signer: Some(a),
            },
        ),
        Err(e) => Err(e),
    }
}

/// The seeds with which the ledger rebuilds the authority: the pool's seed
/// tag, the pool's identity, and the bump seed.
pub open spec fn spec_signer_seeds(a: Authorization) -> Seq<Seq<u8>> {
    seq![LP_SEED_PREFIX@, a.identity@, seq![a.bump]]
}

impl Authorization {
    /// The signer seeds of this authorization, in the order in which the
    /// ledger hashes them.
    pub fn signer_seeds(&self) -> (r: Vec<Vec<u8>>)
        ensures
            r@.len() == 3,
            r@[0]@ == LP_SEED_PREFIX@,
            r@[1]@ == self.identity@,
            r@[2]@ == seq![self.bump],
            r@.map_values(|seed: Vec<u8>| seed@) == spec_signer_seeds(*self),
    {
        let mut tag: Vec<u8> = Vec::new();
        let mut i: usize = 0;
        while i < 12
            invariant
                i <= 12,
                tag@.len() == i,
                forall|j: int| 0 <= j < i ==> tag@[j] == LP_SEED_PREFIX[j],
            decreases 12 - i,
        {
            tag.push(LP_SEED_PREFIX[i]);
            i += 1;
        }
        let mut identity: Vec<u8> = Vec::new();
        let mut k: usize = 0;
        while k < 32
            invariant
                k <= 32,
                identity@.len() == k,
                forall|j: int| 0 <= j < k ==> identity@[j] == self.identity.bytes[j],
            decreases 32 - k,
        {
            identity.push(self.identity.bytes[k]);
            k += 1;
        }
        let mut bump: Vec<u8> = Vec::new();
        bump.push(self.bump);
        let mut seeds: Vec<Vec<u8>> = Vec::new();
        seeds.push(tag);
        seeds.push(identity);
        seeds.push(bump);
        proof {
            assert(seeds@[0]@ =~= LP_SEED_PREFIX@);
            assert(seeds@[1]@ =~= self.identity@);
            assert(seeds@[2]@ =~= seq![self.bump]);
            assert(seeds@.map_values(|seed: Vec<u8>| seed@) =~= spec_signer_seeds(*self));
        }
        seeds
    }
}

/// Tells the chain's native asset from a token of the token ledger.
pub fn asset_kind(for_token: &Address) -> (r: AssetKind)
    ensures
        r == spec_asset_kind(*for_token),
{
    if for_token.is_native_mint() {
        AssetKind::Native
    } else {
        AssetKind::Token
    }
}

/// Describes the transfer of `amount` of `for_token` from the user into the
/// pool's custody, or into `override_destination` where one is given. The
/// user signs; no pool authority is involved.
pub fn transfer_token_into_pool(
    for_token: Address,
    amount: u64,
    override_destination: Option<Party>,
) -> (r: Transfer)
    ensures
        r == spec_transfer_in(for_token, amount, override_destination),
{
    Transfer {
        asset: for_token,
        kind: asset_kind(&for_token),
        from: Party::User,
        to: match override_destination {
            Some(destination) => destination,
            None => Party::Custody,
        },
        amount,
        signer: None,
    }
}

/// Makes the pool's authorization out of a derivation of the pool's address.
pub fn authorization_from(token_quote: Address, derived: Result<DerivedAddress, LpError>) -> (r:
    Result<Authorization, LpError>)
    ensures
        r == spec_authorization_from(token_quote, derived),
{
    match derived {
        Ok(d) => Ok(Authorization { identity: token_quote, bump: d.bump }),
        Err(e) => Err(e),
    }
}

/// Derives the address of the pool whose quote asset is `token_quote`: the
/// address of the pool record, which holds the base asset and owns the
/// quote custody.
pub fn pool_address(token_quote: &Address, program_id: &Address) -> (r: Result<
    DerivedAddress,
    LpError,
>)
    ensures
        is_derivation(r, spec_derive_address(LP_SEED_PREFIX@, token_quote@, program_id@)),
{
    let seed_tag = LP_SEED_PREFIX;
    derive_address(&seed_tag, token_quote, program_id)
}

/// Derives the address of the fee custody record of the pool whose quote
/// asset is `token_quote`.
pub fn fee_custody_address(token_quote: &Address, program_id: &Address) -> (r: Result<
    DerivedAddress,
    LpError,
>)
    ensures
        is_derivation(r, spec_derive_address(LP_FEE_SEED_PREFIX@, token_quote@, program_id@)),
{
    let seed_tag = LP_FEE_SEED_PREFIX;
    derive_address(&seed_tag, token_quote, program_id)
}

/// Rebuilds the authorization of the pool whose quote asset is
/// `token_quote`, by deriving the pool's address anew.
pub fn pool_authorization(token_quote: &Address, program_id: &Address) -> (r: Result<
    Authorization,
    LpError,
>)
    ensures
        r == spec_pool_authorization(*token_quote, *program_id),
{
    authorization_from(*token_quote, pool_address(token_quote, program_id))
}

/// Describes the transfer of `amount` of `for_token` out of the pool's
/// custody to `to`, signed with `authorization`. Without an authorization
/// there is no transfer: the error that took its place is handed on.
pub fn transfer_from_custody(
    authorization: Result<Authorization, LpError>,
    for_token: Address,
    amount: u64,
    to: Party,
) -> (r: Result<Transfer, LpError>)
    ensures
        r == spec_transfer_from_custody(authorization, for_token, amount, to),
        r is Ok <==> authorization is Ok,
        r matches Ok(t) ==> t.signer is Some && t.from == Party::Custody,
{
    match authorization {
        Ok(a) => Ok(
            Transfer {
                asset: for_token,
                kind: asset_kind(&for_token),
                from: Party::Custody,
                to,
                amount,
                signer: Some(a),
            },
        ),
        Err(e) => Err(e),
    }
}

/// Describes the payout of `amount` of `for_token` from the pool's custody
/// to the user, signed by the pool's derived authority.
pub fn transfer_token_out_of_pool(
    token_quote: &Address,
    program_id: &Address,
    for_token: Address,
    amount: u64,
) -> (r: Result<Transfer, LpError>)
    ensures
        r == spec_transfer_from_custody(
            spec_pool_authorization(*token_quote, *program_id),
            for_token,
            amount,
            Party::User,
        ),
{
    transfer_from_custody(
        pool_authorization(token_quote, program_id),
        for_token,
        amount,
        Party::User,
    )
}

/// Describes the transfer of a fee of `amount` of `for_token` from the
/// pool's custody into the fee custody, signed by the pool's derived
/// authority.
pub fn transfer_token_into_pool_fee(
    token_quote: &Address,
    program_id: &Address,
    for_token: Address,
    amount: u64,
) -> (r: Result<Transfer, LpError>)
    ensures
        r == spec_transfer_from_custody(
            spec_pool_authorization(*token_quote, *program_id),
            for_token,
            amount,
            Party::FeeCustody,
        ),
{
    transfer_from_custody(
        pool_authorization(token_quote, program_id),
        for_token,
        amount,
        Party::FeeCustody,
    )
}

} // verus!
