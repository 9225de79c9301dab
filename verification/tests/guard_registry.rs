use rug_pull_chronicles_program::error::{ProgramError, RuggedError};
use rug_pull_chronicles_program::guard::GuardRegistry;
use rug_pull_chronicles_program::identity::Identity;

fn id(byte: u8) -> Identity {
    Identity::from_bytes(vec![byte; 32]).unwrap()
}

#[test]
fn claim_succeeds_once_per_identity() {
    let mut registry = GuardRegistry::new();
    let asset = id(30);
    assert!(!registry.is_claimed(&asset));
    let handle = registry.claim(&asset).unwrap();
    assert_eq!(handle, 0);
    assert!(registry.is_claimed(&asset));
    let r = registry.claim(&asset);
    assert_eq!(r, Err(ProgramError::Rugged(RuggedError::DuplicateNFTMint)));
}

#[test]
fn distinct_identities_claim_independently() {
    let mut registry = GuardRegistry::new();
    let first = registry.claim(&id(30)).unwrap();
    let second = registry.claim(&id(31)).unwrap();
    assert_ne!(first, second);
    assert!(registry.is_claimed(&id(30)));
    assert!(registry.is_claimed(&id(31)));
    assert!(!registry.is_claimed(&id(32)));
}

#[test]
fn claims_start_unfinalized_and_finalize_sticks() {
    let mut registry = GuardRegistry::new();
    let handle = registry.claim(&id(30)).unwrap();
    assert!(!registry.is_finalized(handle));
    registry.finalize(handle);
    assert!(registry.is_finalized(handle));
    // The identity stays blocked after finalization.
    let r = registry.claim(&id(30));
    assert_eq!(r, Err(ProgramError::Rugged(RuggedError::DuplicateNFTMint)));
}
