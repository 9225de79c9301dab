use rug_pull_chronicles_program::collection::{
    add_collection_royalties, choose_freeze_authority, plan_master_edition,
    record_collection_created, AddFreezePluginArgs, CreatorInput, FreezeAuthority,
};
use rug_pull_chronicles_program::config::{BumpSeeds, Config};
use rug_pull_chronicles_program::error::{ProgramError, RuggedError};
use rug_pull_chronicles_program::identity::Identity;

fn id(byte: u8) -> Identity {
    Identity::from_bytes(vec![byte; 32]).unwrap()
}

fn base_config() -> Config {
    let mut config = Config::initialize(
        id(1),
        7,
        &BumpSeeds { config: 255, update_authority_pda: 254, treasury_pda: 253, anti_scam_treasury_pda: 252 },
        id(2),
        id(3),
        id(4),
    );
    let admin = id(1);
    config.update_collection(&admin, id(10)).unwrap();
    config.update_scammed_collection(&admin, id(11)).unwrap();
    config
}

#[test]
fn royalties_are_recorded_as_given_for_the_admin() {
    let config = base_config();
    let admin = id(1);
    let creators = vec![
        CreatorInput { address: id(6), percentage: 70 },
        CreatorInput { address: id(7), percentage: 30 },
    ];
    let plan = add_collection_royalties(&config, &admin, 250, creators).unwrap();
    assert_eq!(plan.basis_points, 250);
    assert_eq!(plan.creators.len(), 2);
    assert!(plan.creators[0].address.equals(&id(6)));
    assert_eq!(plan.creators[0].percentage, 70);
    assert_eq!(plan.creators[1].percentage, 30);
}

#[test]
fn royalties_reject_non_admin() {
    let config = base_config();
    let intruder = id(9);
    let r = add_collection_royalties(&config, &intruder, 250, vec![]);
    assert_eq!(r.unwrap_err(), ProgramError::Rugged(RuggedError::Unauthorized));
}

#[test]
fn freeze_authority_prefers_the_named_delegate() {
    let with_delegate = AddFreezePluginArgs { frozen: true, delegate: Some(id(8)) };
    match choose_freeze_authority(with_delegate) {
        FreezeAuthority::Delegate(d) => assert!(d.equals(&id(8))),
        FreezeAuthority::Owner => panic!("delegate was given but owner was chosen"),
    }
    let without = AddFreezePluginArgs { frozen: false, delegate: None };
    assert!(matches!(choose_freeze_authority(without), FreezeAuthority::Owner));
}

#[test]
fn created_collection_cap_is_cached_for_the_standard_reference() {
    let mut config = base_config();
    config.standard_collection_has_master_edition = false;
    config.standard_collection_max_supply = None;
    let admin = id(1);
    let r = record_collection_created(&mut config, &admin, &id(10), Some(77));
    assert!(r.is_ok());
    assert!(config.standard_collection_has_master_edition);
    assert_eq!(config.standard_collection_max_supply, Some(77));
}

#[test]
fn cap_below_the_minted_counter_is_rejected() {
    let mut config = base_config();
    config.total_minted_standard = 10;
    let admin = id(1);
    let r = record_collection_created(&mut config, &admin, &id(10), Some(9));
    assert_eq!(r.unwrap_err(), ProgramError::Rugged(RuggedError::MaxSupplyExceeded));
    assert_eq!(config.standard_collection_max_supply, Some(100));
}

#[test]
fn unreferenced_collection_changes_nothing() {
    let mut config = base_config();
    let admin = id(1);
    let before_std = config.standard_collection_max_supply;
    let before_scm = config.scammed_collection_max_supply;
    let r = record_collection_created(&mut config, &admin, &id(99), Some(3));
    assert!(r.is_ok());
    assert_eq!(config.standard_collection_max_supply, before_std);
    assert_eq!(config.scammed_collection_max_supply, before_scm);
}

#[test]
fn collection_creation_rejects_non_admin() {
    let mut config = base_config();
    let intruder = id(9);
    let r = record_collection_created(&mut config, &intruder, &id(10), Some(77));
    assert_eq!(r.unwrap_err(), ProgramError::Rugged(RuggedError::Unauthorized));
}

#[test]
fn master_edition_is_planned_exactly_when_some_input_is_given() {
    assert!(plan_master_edition(None, None, None).is_none());
    let plan = plan_master_edition(Some(77), None, None).unwrap();
    assert_eq!(plan.max_supply, Some(77));
    assert_eq!(plan.name, None);
    assert_eq!(plan.uri, None);
    let plan = plan_master_edition(None, Some("First".to_string()), None).unwrap();
    assert_eq!(plan.max_supply, None);
    assert_eq!(plan.name, Some("First".to_string()));
    let plan = plan_master_edition(
        Some(5),
        Some("First".to_string()),
        Some("https://example.invalid/e.json".to_string()),
    )
    .unwrap();
    assert_eq!(plan.max_supply, Some(5));
    assert_eq!(plan.uri, Some("https://example.invalid/e.json".to_string()));
}
