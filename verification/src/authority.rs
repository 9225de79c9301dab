//! Deterministic authority derivation.
//!
//! The system signs engine calls not with a stored key but with a
//! capability identity derived from a fixed label and the deployment
//! identity. The derivation is a pure one-way function; a caller-supplied
//! authority that does not match the canonical derivation is rejected.

use vstd::prelude::*;
use crate::error::{ProgramError, RuggedError};
use crate::identity::Identity;

verus! {

/// The canonical derived address and bump for a seed list under a
/// deployment identity. What the value is takes a hash computation to
/// state; the contracts below only carry the name.
pub uninterp spec fn derived_address(seeds: Seq<Seq<u8>>, program_id: Seq<u8>) -> (Seq<u8>, u8);

/// The base58 text of a 32-byte identity.
pub uninterp spec fn base58_of(bytes: Seq<u8>) -> Seq<char>;

/// Whether the derivation finds an address for a seed list under a
/// deployment identity. The derivation is deterministic, so this is a
/// predicate of the arguments alone; it fails only in the degenerate
/// case that no bump seed yields an address.
pub uninterp spec fn pda_found(seeds: Seq<Seq<u8>>, program_id: Seq<u8>) -> bool;

/// Relies on `Pubkey::try_find_program_address` (solana-program): the
/// canonical program-derived address and bump seed, a deterministic
/// function of the seed list and the program identity alone; the derived
/// key is 32 bytes. `None` only when no bump seed yields an address.
#[verifier::external_body]
fn try_derive_address(seeds: &Vec<Vec<u8>>, program_id: &Identity) -> (r: Option<(Identity, u8)>)
    requires
        program_id.wf(),
    ensures
        r is Some <==> pda_found(seeds@.map_values(|s: Vec<u8>| s@), program_id@),
        r matches Some(p) ==> p.0.wf()
            && (p.0@, p.1) == derived_address(seeds@.map_values(|s: Vec<u8>| s@), program_id@),
{
    let pid = anchor_lang::prelude::Pubkey::new_from_array(
        program_id.bytes.as_slice().try_into().unwrap(),
    );
    let parts: Vec<&[u8]> = seeds.iter().map(|s| s.as_slice()).collect();
    anchor_lang::prelude::Pubkey::try_find_program_address(&parts, &pid)
        .map(|(key, bump)| (Identity { bytes: key.to_bytes().to_vec() }, bump))
}

/// Relies on `Pubkey`'s `Display` impl (solana-program): the base58 text
/// of the key, a deterministic function of its 32 bytes alone.
#[verifier::external_body]
pub(crate) fn identity_base58(id: &Identity) -> (r: String)
    requires
        id.wf(),
    ensures
        r@ == base58_of(id@),
{
    anchor_lang::prelude::Pubkey::new_from_array(id.bytes.as_slice().try_into().unwrap())
        .to_string()
}

/// The fixed label under which the system authority is derived.
pub open spec fn update_auth_label() -> Seq<u8> {
    // the bytes of "upd_auth"
    seq![117u8, 112u8, 100u8, 95u8, 97u8, 117u8, 116u8, 104u8]
}

/// Builds the one-element seed list holding the authority label.
fn update_auth_seeds() -> (r: Vec<Vec<u8>>)
    ensures
        r@.map_values(|s: Vec<u8>| s@) =~= seq![update_auth_label()],
{
    let mut label: Vec<u8> = Vec::new();
    label.push(117u8);
    label.push(112u8);
    label.push(100u8);
    label.push(95u8);
    label.push(97u8);
    label.push(117u8);
    label.push(116u8);
    label.push(104u8);
    assert(label@ =~= update_auth_label());
    let mut seeds: Vec<Vec<u8>> = Vec::new();
    seeds.push(label);
    seeds
}

/// The canonical system authority for a deployment: the address derived
/// from the fixed label and the deployment identity, with its bump seed.
pub open spec fn canonical_authority(program_id: Seq<u8>) -> (Seq<u8>, u8) {
    derived_address(seq![update_auth_label()], program_id)
}

/// Derives the system authority identity and bump for a deployment.
///
/// Succeeds exactly when the derivation finds an address; it fails
/// `Unauthorized` only in the degenerate case that no bump seed yields
/// one, in which case no authority exists to act as.
pub fn derive_update_authority(program_id: &Identity) -> (r: Result<(Identity, u8), ProgramError>)
    requires
        program_id.wf(),
    ensures
        r is Ok <==> pda_found(seq![update_auth_label()], program_id@),
        r matches Ok(p) ==> p.0.wf() && (p.0@, p.1) == canonical_authority(program_id@),
        r matches Err(e) ==> e == ProgramError::Rugged(RuggedError::Unauthorized),
{
    let seeds = update_auth_seeds();
    match try_derive_address(&seeds, program_id) {
        Some(p) => Ok(p),
        None => Err(ProgramError::Rugged(RuggedError::Unauthorized)),
    }
}

/// Checks a caller-supplied authority and bump against the canonical
/// derivation, preventing authority spoofing.
///
/// Returns `Ok` exactly when the derivation finds an address and both
/// values match it.
pub fn verify_update_authority(
    claimed: &Identity,
    claimed_bump: u8,
    program_id: &Identity,
) -> (r: Result<(), ProgramError>)
    requires
        program_id.wf(),
    ensures
        r is Ok <==> ((claimed@, claimed_bump) == canonical_authority(program_id@)
            && pda_found(seq![update_auth_label()], program_id@)),
        r matches Err(e) ==> e == ProgramError::Rugged(RuggedError::Unauthorized),
{
    match derive_update_authority(program_id) {
        Ok((canonical, bump)) => {
            if claimed.equals(&canonical) && claimed_bump == bump {
                Ok(())
            } else {
                Err(ProgramError::Rugged(RuggedError::Unauthorized))
            }
        },
        Err(e) => Err(e),
    }
}

} // verus!
