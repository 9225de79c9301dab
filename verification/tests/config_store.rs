use rug_pull_chronicles_program::config::{
    BumpSeeds, Config, ConfigStore, DEFAULT_ANTISCAM_FEE_PERCENT, DEFAULT_MINT_FEE_BASIS_POINTS,
    DEFAULT_SCAMMED_MAX_SUPPLY, DEFAULT_STANDARD_MAX_SUPPLY, DEFAULT_TREASURY_FEE_PERCENT,
    INITIAL_VERSION, MINIMUM_PAYMENT_FLOOR,
};
use rug_pull_chronicles_program::error::{CustomError, ProgramError, RuggedError};
use rug_pull_chronicles_program::identity::Identity;

fn id(byte: u8) -> Identity {
    Identity::from_bytes(vec![byte; 32]).unwrap()
}

fn bumps() -> BumpSeeds {
    BumpSeeds { config: 255, update_authority_pda: 254, treasury_pda: 253, anti_scam_treasury_pda: 252 }
}

fn base_config() -> Config {
    Config::initialize(id(1), 7, &bumps(), id(2), id(3), id(4))
}

#[test]
fn initialize_sets_documented_defaults() {
    let config = base_config();
    assert_eq!(config.mint_fee_basis_points, DEFAULT_MINT_FEE_BASIS_POINTS);
    assert_eq!(config.treasury_fee_percent, DEFAULT_TREASURY_FEE_PERCENT);
    assert_eq!(config.antiscam_fee_percent, DEFAULT_ANTISCAM_FEE_PERCENT);
    assert_eq!(config.minimum_payment, MINIMUM_PAYMENT_FLOOR);
    assert!(!config.paused);
    assert_eq!(config.total_minted_standard, 0);
    assert_eq!(config.total_minted_scammed, 0);
    assert_eq!(config.version, INITIAL_VERSION);
    assert!(config.standard_collection_has_master_edition);
    assert_eq!(config.standard_collection_max_supply, Some(DEFAULT_STANDARD_MAX_SUPPLY));
    assert!(config.scammed_collection_has_master_edition);
    assert_eq!(config.scammed_collection_max_supply, Some(DEFAULT_SCAMMED_MAX_SUPPLY));
    assert!(config.standard_collection.as_bytes().iter().all(|b| *b == 0));
    assert!(config.scammed_collection.as_bytes().iter().all(|b| *b == 0));
    assert_eq!(config.seed, 7);
    assert_eq!(config.config_bump, 255);
}

#[test]
fn store_initializes_exactly_once() {
    let mut store = ConfigStore::new();
    assert!(store.config.is_none());
    let r = store.initialize(id(1), 7, &bumps(), id(2), id(3), id(4));
    assert!(r.is_ok());
    assert!(store.config.is_some());
    let again = store.initialize(id(9), 8, &bumps(), id(2), id(3), id(4));
    assert_eq!(again, Err(ProgramError::AlreadyInitialized));
    assert_eq!(store.config.as_ref().unwrap().seed, 7);
}

#[test]
fn update_fee_settings_rejects_bad_split_and_keeps_config() {
    let mut config = base_config();
    let admin = id(1);
    let r = config.update_fee_settings(&admin, 400, 70, 40);
    assert_eq!(r, Err(ProgramError::Custom(CustomError::InvalidFeeDistribution)));
    assert_eq!(config.mint_fee_basis_points, DEFAULT_MINT_FEE_BASIS_POINTS);
    assert_eq!(config.treasury_fee_percent, DEFAULT_TREASURY_FEE_PERCENT);
    assert_eq!(config.antiscam_fee_percent, DEFAULT_ANTISCAM_FEE_PERCENT);
}

#[test]
fn update_fee_settings_rejects_rate_over_half() {
    let mut config = base_config();
    let admin = id(1);
    let r = config.update_fee_settings(&admin, 5001, 60, 40);
    assert_eq!(r, Err(ProgramError::Custom(CustomError::InvalidFeeAmount)));
    assert_eq!(config.mint_fee_basis_points, DEFAULT_MINT_FEE_BASIS_POINTS);
}

#[test]
fn update_fee_settings_rejects_non_admin() {
    let mut config = base_config();
    let intruder = id(9);
    let r = config.update_fee_settings(&intruder, 400, 50, 50);
    assert_eq!(r, Err(ProgramError::Rugged(RuggedError::Unauthorized)));
    assert_eq!(config.treasury_fee_percent, DEFAULT_TREASURY_FEE_PERCENT);
}

#[test]
fn update_fee_settings_applies_valid_settings() {
    let mut config = base_config();
    let admin = id(1);
    let r = config.update_fee_settings(&admin, 5000, 50, 50);
    assert!(r.is_ok());
    assert_eq!(config.mint_fee_basis_points, 5000);
    assert_eq!(config.treasury_fee_percent, 50);
    assert_eq!(config.antiscam_fee_percent, 50);
}

#[test]
fn update_minimum_payment_enforces_floor() {
    let mut config = base_config();
    let admin = id(1);
    let r = config.update_minimum_payment(&admin, MINIMUM_PAYMENT_FLOOR - 1);
    assert_eq!(r, Err(ProgramError::Custom(CustomError::InvalidMinimumPayment)));
    assert_eq!(config.minimum_payment, MINIMUM_PAYMENT_FLOOR);
    let r = config.update_minimum_payment(&admin, 1_000_000_000);
    assert!(r.is_ok());
    assert_eq!(config.minimum_payment, 1_000_000_000);
}

#[test]
fn toggle_paused_twice_returns_to_original() {
    let mut config = base_config();
    let admin = id(1);
    let original = config.paused;
    config.toggle_paused(&admin).unwrap();
    assert_eq!(config.paused, !original);
    config.toggle_paused(&admin).unwrap();
    assert_eq!(config.paused, original);
}

#[test]
fn toggle_paused_rejects_non_admin() {
    let mut config = base_config();
    let intruder = id(9);
    let r = config.toggle_paused(&intruder);
    assert_eq!(r, Err(ProgramError::Rugged(RuggedError::Unauthorized)));
    assert!(!config.paused);
}

#[test]
fn collection_references_can_be_rebound_by_admin_only() {
    let mut config = base_config();
    let admin = id(1);
    let standard = id(10);
    let scammed = id(11);
    config.update_collection(&admin, standard.duplicate()).unwrap();
    config.update_scammed_collection(&admin, scammed.duplicate()).unwrap();
    assert!(config.standard_collection.equals(&standard));
    assert!(config.scammed_collection.equals(&scammed));
    let intruder = id(9);
    let r = config.update_collection(&intruder, id(12));
    assert_eq!(r, Err(ProgramError::Rugged(RuggedError::Unauthorized)));
    assert!(config.standard_collection.equals(&standard));
}
