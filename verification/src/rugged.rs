//! The rugged-user issuance path.
//!
//! A wallet verified as rugged may issue one commemorative asset to a
//! destination of its choice. The core validates the verification flag,
//! the destination and the trait bytes, and prepares the attribute
//! inputs; the engine call itself is the host's.

use vstd::prelude::*;
use crate::authority::{base58_of, identity_base58};
use crate::error::{ProgramError, RuggedError};
use crate::identity::Identity;

verus! {

/// Longest accepted trait encoding, in bytes.
pub const MAX_TRAITS_LEN: usize = 32;

/// The record of a wallet verified as rugged.
#[derive(Clone, Debug)]
pub struct RuggedUser {
    /// The wallet that owns this record.
    pub owner: Identity,
    /// The compromised address from which they were rugged.
    pub compromised_wallet: Identity,
    /// Set only once on-chain evidence of a scam has been verified.
    pub is_verified: bool,
}

/// The stored record of one rugged issuance.
#[derive(Clone, Debug)]
pub struct RuggedNft {
    /// Who owns this rugged mint record.
    pub owner: Identity,
    /// Byte-vector trait encoding.
    pub traits: Vec<u8>,
}

/// A trait encoding is valid when it is neither empty nor over-length.
pub open spec fn traits_valid(traits: Seq<u8>) -> bool {
    0 < traits.len() <= MAX_TRAITS_LEN
}

/// Checks a trait encoding: fails `InvalidTraits` exactly when it is
/// empty or longer than `MAX_TRAITS_LEN`.
pub fn validate_traits(traits: &Vec<u8>) -> (r: Result<(), ProgramError>)
    ensures
        r is Ok <==> traits_valid(traits@),
        r matches Err(e) ==> e == ProgramError::Rugged(RuggedError::InvalidTraits),
{
    if traits.len() == 0 {
        return Err(ProgramError::Rugged(RuggedError::InvalidTraits));
    }
    if traits.len() > MAX_TRAITS_LEN {
        return Err(ProgramError::Rugged(RuggedError::InvalidTraits));
    }
    Ok(())
}

/// What the host must hand the engine for one rugged issuance.
#[derive(Clone, Debug)]
pub struct RuggedMintPlan {
    /// The compromised address in base58 text, recorded as the
    /// original-asset attribute.
    pub original_asset: String,
    /// The trait encoding, recorded as the traits attribute.
    pub traits: Vec<u8>,
    /// Where the asset is to be sent after the mint.
    pub dest_wallet: Identity,
}

/// Validates one rugged issuance request and prepares its plan.
///
/// Fails `RuggedUserNotVerified` when the record is unverified,
/// `InvalidDestination` when the destination equals the compromised
/// address, and `InvalidTraits` on an invalid trait encoding, in that
/// order; succeeds exactly when none of these holds.
pub fn plan_rugged_mint(
    user: &RuggedUser,
    dest_wallet: &Identity,
    traits: Vec<u8>,
) -> (r: Result<RuggedMintPlan, ProgramError>)
    requires
        user.compromised_wallet.wf(),
    ensures
        !user.is_verified <==> r == Err::<RuggedMintPlan, ProgramError>(
            ProgramError::Rugged(RuggedError::RuggedUserNotVerified),
        ),
        user.is_verified && dest_wallet@ == user.compromised_wallet@ <==> r == Err::<
            RuggedMintPlan,
            ProgramError,
        >(ProgramError::Rugged(RuggedError::InvalidDestination)),
        user.is_verified && dest_wallet@ != user.compromised_wallet@ && !traits_valid(traits@)
            <==> r == Err::<RuggedMintPlan, ProgramError>(
            ProgramError::Rugged(RuggedError::InvalidTraits),
        ),
        r is Ok <==> user.is_verified && dest_wallet@ != user.compromised_wallet@
            && traits_valid(traits@),
        r matches Ok(plan) ==> {
            &&& plan.original_asset@ == base58_of(user.compromised_wallet@)
            &&& plan.traits@ == traits@
            &&& plan.dest_wallet@ == dest_wallet@
        },
{
    if !user.is_verified {
        return Err(ProgramError::Rugged(RuggedError::RuggedUserNotVerified));
    }
    if dest_wallet.equals(&user.compromised_wallet) {
        return Err(ProgramError::Rugged(RuggedError::InvalidDestination));
    }
    match validate_traits(&traits) {
        Ok(()) => (),
        Err(e) => {
            return Err(e);
        },
    }
    Ok(RuggedMintPlan {
        original_asset: identity_base58(&user.compromised_wallet),
        traits,
        dest_wallet: dest_wallet.duplicate(),
    })
}

} // verus!
