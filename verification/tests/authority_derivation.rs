use rug_pull_chronicles_program::authority::{derive_update_authority, verify_update_authority};
use rug_pull_chronicles_program::error::{ProgramError, RuggedError};
use rug_pull_chronicles_program::identity::Identity;

fn id(byte: u8) -> Identity {
    Identity::from_bytes(vec![byte; 32]).unwrap()
}

#[test]
fn derivation_is_deterministic() {
    let program_id = id(5);
    let first = derive_update_authority(&program_id).unwrap();
    let second = derive_update_authority(&program_id).unwrap();
    assert!(first.0.equals(&second.0));
    assert_eq!(first.1, second.1);
}

#[test]
fn derived_authority_differs_from_the_deployment_identity() {
    let program_id = id(5);
    let (authority, _) = derive_update_authority(&program_id).unwrap();
    assert!(!authority.equals(&program_id));
}

#[test]
fn different_deployments_derive_different_authorities() {
    let (a, _) = derive_update_authority(&id(5)).unwrap();
    let (b, _) = derive_update_authority(&id(6)).unwrap();
    assert!(!a.equals(&b));
}

#[test]
fn verification_accepts_the_canonical_pair_only() {
    let program_id = id(5);
    let (authority, bump) = derive_update_authority(&program_id).unwrap();
    assert!(verify_update_authority(&authority, bump, &program_id).is_ok());

    let wrong_bump = verify_update_authority(&authority, bump.wrapping_sub(1), &program_id);
    assert_eq!(wrong_bump.unwrap_err(), ProgramError::Rugged(RuggedError::Unauthorized));

    let wrong_key = verify_update_authority(&id(6), bump, &program_id);
    assert_eq!(wrong_key.unwrap_err(), ProgramError::Rugged(RuggedError::Unauthorized));
}
