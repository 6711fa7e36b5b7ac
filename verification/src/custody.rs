//! What the pool asks of the token program, and the address that signs for it.

use anchor_lang::prelude::Pubkey;
use vstd::prelude::*;

use crate::state::Address;

verus! {

/// A request to make `new_authority` the owner of the token account `account`,
/// signed by `current_authority`.
#[derive(Clone, Copy, Debug, PartialEq, Eq)]
pub struct AuthorityRequest {
    pub account: Address,
    pub current_authority: Address,
    pub new_authority: Address,
}

/// The seeds with which the program signs for the address that owns a vault:
/// the pool's address, then the bump seed.
#[derive(Clone, Copy, Debug, PartialEq, Eq)]
pub struct SignerSeeds {
    pub pool_key: Address,
    pub bump: u8,
}

/// A request to move `amount` tokens from `from` to `to` on behalf of
/// `authority`. Where `signer` is present the program signs with these seeds;
/// otherwise `authority` has signed the transaction itself.
#[derive(Clone, Copy, Debug, PartialEq, Eq)]
pub struct TransferRequest {
    pub from: Address,
    pub to: Address,
    pub authority: Address,
    pub amount: u64,
    pub signer: Option<SignerSeeds>,
}

/// The program derived address for `seeds` under `program_id`, with its bump
/// seed, or `None` where there is none.
pub uninterp spec fn program_address(seeds: Seq<Seq<u8>>, program_id: Seq<u8>) -> Option<(Seq<u8>, u8)>;

/// An address and bump seed as bytes.
pub open spec fn derived_view(found: Option<(Address, u8)>) -> Option<(Seq<u8>, u8)> {
    match found {
        Some((key, bump)) => Some((key@, bump)),
        None => None,
    }
}

/// Calls `Pubkey::try_find_program_address` with `seed` as the only seed.
///
/// Trusted: the result is taken to be a function of the seed and the program
/// id alone, named [`program_address`]. Nothing is claimed about which address
/// comes out, nor that one is found.
#[verifier::external_body]
pub(crate) fn find_program_address(
    seed: &Address,
    program_id: &Address,
) -> (found: Option<(Address, u8)>)
    ensures
        derived_view(found) == program_address(seq![seed@], program_id@),
{
    match Pubkey::try_find_program_address(&[&seed[..]], &Pubkey::new_from_array(*program_id)) {
        Some((key, bump)) => Some((key.to_bytes(), bump)),
        None => None,
    }
}

} // verus!
