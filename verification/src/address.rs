use crate::errors::LpError;
use vstd::prelude::*;
use vstd::std_specs::cmp::PartialEqSpecImpl;

verus! {

/// A 32-byte account address.
#[derive(Clone, Copy, Debug)]
pub struct Address {
    pub bytes: [u8; 32],
}

impl View for Address {
    type V = Seq<u8>;

    open spec fn view(&self) -> Seq<u8> {
        self.bytes@
    }
}

impl PartialEq for Address {
    fn eq(&self, other: &Address) -> (r: bool) {
        let mut i: usize = 0;
        while i < 32
            invariant
                i <= 32,
                forall|j: int| 0 <= j < i ==> self.bytes[j] == other.bytes[j],
            decreases 32 - i,
        {
            if self.bytes[i] != other.bytes[i] {
                return false;
            }
            i += 1;
        }
        proof {
            assert(self.bytes =~= other.bytes);
        }
        true
    }
}

impl PartialEqSpecImpl for Address {
    open spec fn obeys_eq_spec() -> bool {
        true
    }

    open spec fn eq_spec(&self, other: &Address) -> bool {
        *self == *other
    }
}

impl Eq for Address {

}

impl Default for Address {
    /// The address of 32 zero bytes.
    fn default() -> (r: Address)
        ensures
            r.is_zero(),
    {
        Address { bytes: [0u8; 32] }
    }
}

/// The bytes of the mint that stands for the chain's native asset: what the
/// base58 string `So11111111111111111111111111111111111111112` decodes to.
pub const NATIVE_MINT_BYTES: [u8; 32] = [
    6, 155, 136, 87, 254, 171, 129, 132, 251, 104, 127, 99, 70, 24, 192, 53, 218, 196, 57, 220, 26,
    235, 59, 85, 152, 160, 240, 0, 0, 0, 0, 1,
];

/// The longest seed that an address can be derived from, in bytes.
pub const MAX_SEED_LEN: usize = 32;

/// The mint that stands for the chain's native asset.
pub open spec fn spec_native_mint() -> Address {
    Address { bytes: NATIVE_MINT_BYTES }
}

/// What the bump-seed search yields for the seeds `[seed_tag, key]` under the
/// program `program_id`: the derived address with its bump seed, or nothing
/// when no bump seed gives an address off the curve.
pub uninterp spec fn program_address(seed_tag: Seq<u8>, key: Seq<u8>, program_id: Seq<u8>) -> Option<
    (Seq<u8>, u8),
>;

/// Calls `anchor_spl::token::spl_token::native_mint::id`. Trusted: the id
/// that the token ledger declares for the native mint is the address whose
/// bytes are `NATIVE_MINT_BYTES`.
#[verifier::external_body]
fn native_mint_id() -> (r: Address)
    ensures
        r == spec_native_mint(),
{
    Address { bytes: anchor_spl::token::spl_token::native_mint::id().to_bytes() }
}

/// Calls `anchor_lang::prelude::Pubkey::try_find_program_address` with the
/// two seeds `seed_tag` and `key`. Trusted: the search is a function of the
/// seeds and the program id alone, named `program_address`; it never panics,
/// and answers `None` when it finds no bump seed, as it does for every seed
/// tag of more than `MAX_SEED_LEN` bytes.
#[verifier::external_body]
fn find_program_address(seed_tag: &[u8], key: &Address, program_id: &Address) -> (r: Option<
    (Address, u8),
>)
    ensures
        match r {
            Some((address, bump)) => program_address(seed_tag@, key@, program_id@) == Some(
                (address@, bump),
            ),
            None => program_address(seed_tag@, key@, program_id@) is None,
        },
        seed_tag@.len() > MAX_SEED_LEN ==> r is None,
{
    let program = anchor_lang::prelude::Pubkey::new_from_array(program_id.bytes);
    let seeds: [&[u8]; 2] = [seed_tag, &key.bytes];
    match anchor_lang::prelude::Pubkey::try_find_program_address(&seeds, &program) {
        Some((address, bump)) => Some((Address { bytes: address.to_bytes() }, bump)),
        None => None,
    }
}

/// A derived address together with the bump seed that proves its derivation.
#[derive(Clone, Copy, Debug, PartialEq, Eq)]
pub struct DerivedAddress {
    pub address: Address,
    pub bump: u8,
}

impl Address {
    /// Whether every byte of the address is zero.
    pub open spec fn is_zero(&self) -> bool {
        forall|i: int| 0 <= i < 32 ==> self.bytes[i] == 0
    }

    /// Two addresses are the same value exactly when they hold the same bytes.
    pub proof fn lemma_view_injective(a: Address, b: Address)
        ensures
            (a@ == b@) <==> (a == b),
    {
        if a@ == b@ {
            assert(a.bytes =~= b.bytes);
        }
    }

    /// The mint of the chain's native asset.
    pub fn native_mint() -> (r: Address)
        ensures
            r == spec_native_mint(),
    {
        native_mint_id()
    }

    /// Whether this is the mint of the chain's native asset.
    pub fn is_native_mint(&self) -> (r: bool)
        ensures
            r == (*self == spec_native_mint()),
    {
        *self == native_mint_id()
    }
}

/// What a bump-seed search result means to the caller: the derived address
/// with its proof, or `AddressDerivationExhausted` when the search found
/// nothing.
pub open spec fn spec_derived_from(found: Option<(Address, u8)>) -> Result<DerivedAddress, LpError> {
    match found {
        Some((address, bump)) => Ok(DerivedAddress { address, bump }),
        None => Err(LpError::AddressDerivationExhausted),
    }
}

/// Turns the outcome of a bump-seed search into a derived address or the
/// error owed to the caller.
pub fn derived_from(found: Option<(Address, u8)>) -> (r: Result<DerivedAddress, LpError>)
    ensures
        r == spec_derived_from(found),
{
    match found {
        Some((address, bump)) => Ok(DerivedAddress { address, bump }),
        None => Err(LpError::AddressDerivationExhausted),
    }
}

/// What `derive_address` owes for given seeds: the named search result, or
/// `AddressDerivationExhausted` where the search finds nothing.
pub open spec fn spec_derive_address(seed_tag: Seq<u8>, key: Seq<u8>, program_id: Seq<u8>) -> Result<
    (Seq<u8>, u8),
    LpError,
> {
    match program_address(seed_tag, key, program_id) {
        Some(found) => Ok(found),
        None => Err(LpError::AddressDerivationExhausted),
    }
}

/// Whether `r` is the derivation `owed`: the same error, or the address with
/// the owed bytes and the owed bump seed.
pub open spec fn is_derivation(
    r: Result<DerivedAddress, LpError>,
    owed: Result<(Seq<u8>, u8), LpError>,
) -> bool {
    match r {
        Ok(d) => owed == Ok::<(Seq<u8>, u8), LpError>((d.address@, d.bump)),
        Err(e) => owed == Err::<(Seq<u8>, u8), LpError>(e),
    }
}

/// Derives the custody address that belongs to `pool_identity_key` under the
/// role `seed_tag`, with its bump seed. Anyone who knows the tag, the key and
/// the program id derives the same pair; no secret enters. A seed tag of
/// more than `MAX_SEED_LEN` bytes derives nothing.
pub fn derive_address(seed_tag: &[u8], pool_identity_key: &Address, program_id: &Address) -> (r:
    Result<DerivedAddress, LpError>)
    ensures
        is_derivation(r, spec_derive_address(seed_tag@, pool_identity_key@, program_id@)),
        seed_tag@.len() > MAX_SEED_LEN ==> r == Err::<DerivedAddress, LpError>(
            LpError::AddressDerivationExhausted,
        ),
{
    derived_from(find_program_address(seed_tag, pool_identity_key, program_id))
}

} // verus!
