use rug_pull_chronicles_program::error::{ProgramError, RuggedError};
use rug_pull_chronicles_program::identity::Identity;
use rug_pull_chronicles_program::rugged::{plan_rugged_mint, validate_traits, RuggedUser};

fn id(byte: u8) -> Identity {
    Identity::from_bytes(vec![byte; 32]).unwrap()
}

fn verified_user() -> RuggedUser {
    RuggedUser { owner: id(1), compromised_wallet: id(2), is_verified: true }
}

#[test]
fn empty_traits_are_invalid() {
    let r = validate_traits(&vec![]);
    assert_eq!(r, Err(ProgramError::Rugged(RuggedError::InvalidTraits)));
}

#[test]
fn over_length_traits_are_invalid() {
    let r = validate_traits(&vec![7u8; 33]);
    assert_eq!(r, Err(ProgramError::Rugged(RuggedError::InvalidTraits)));
}

#[test]
fn traits_at_both_bounds_are_valid() {
    assert!(validate_traits(&vec![7u8]).is_ok());
    assert!(validate_traits(&vec![7u8; 32]).is_ok());
}

#[test]
fn unverified_user_cannot_mint() {
    let mut user = verified_user();
    user.is_verified = false;
    let r = plan_rugged_mint(&user, &id(3), vec![1, 2, 3]);
    assert_eq!(r.unwrap_err(), ProgramError::Rugged(RuggedError::RuggedUserNotVerified));
}

#[test]
fn destination_must_differ_from_compromised_wallet() {
    let user = verified_user();
    let r = plan_rugged_mint(&user, &id(2), vec![1, 2, 3]);
    assert_eq!(r.unwrap_err(), ProgramError::Rugged(RuggedError::InvalidDestination));
}

#[test]
fn invalid_traits_abort_the_rugged_mint() {
    let user = verified_user();
    let r = plan_rugged_mint(&user, &id(3), vec![]);
    assert_eq!(r.unwrap_err(), ProgramError::Rugged(RuggedError::InvalidTraits));
}

#[test]
fn valid_rugged_mint_plans_the_original_asset_attribute() {
    let mut user = verified_user();
    user.compromised_wallet = Identity::from_bytes(vec![0; 32]).unwrap();
    let dest = id(3);
    let plan = plan_rugged_mint(&user, &dest, vec![1, 2, 3]).unwrap();
    // The base58 text of the all-zero key: thirty-two ones.
    assert_eq!(plan.original_asset, "11111111111111111111111111111111");
    assert_eq!(plan.traits, vec![1, 2, 3]);
    assert!(plan.dest_wallet.equals(&dest));
}
