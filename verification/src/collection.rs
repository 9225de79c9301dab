//! Collection administration decisions.
//!
//! Creating a collection, attaching a royalty table and choosing the
//! freeze-plugin authority each end in an engine call the host makes;
//! the decisions — who may act, what the configuration caches, which
//! authority signs — are computed and checked here.

use vstd::prelude::*;
use crate::config::{CollectionRole, Config};
use crate::error::{ProgramError, RuggedError};
use crate::identity::Identity;

verus! {

/// A collection/edition identity pair.
#[derive(Clone, Debug)]
pub struct CollectionInfo {
    pub mint: Identity,
    pub edition: Identity,
}

/// One royalty recipient: an address and its percentage share.
#[derive(Clone, Debug)]
pub struct CreatorInput {
    pub address: Identity,
    pub percentage: u8,
}

/// The royalty table the host attaches to a collection.
#[derive(Clone, Debug)]
pub struct RoyaltyPlan {
    /// Royalty rate in basis points.
    pub basis_points: u16,
    /// The recipients and their shares.
    pub creators: Vec<CreatorInput>,
}

/// Records a royalty table for the standard collection. Admin only;
/// the table is recorded as given — enforcement beyond recording is not
/// a goal of the core.
pub fn add_collection_royalties(
    config: &Config,
    caller: &Identity,
    basis_points: u16,
    creators: Vec<CreatorInput>,
) -> (r: Result<RoyaltyPlan, ProgramError>)
    ensures
        r is Err <==> caller@ != config.admin@,
        r matches Err(e) ==> e == ProgramError::Rugged(RuggedError::Unauthorized),
        r matches Ok(plan) ==> plan.basis_points == basis_points && plan.creators@ == creators@,
{
    if !caller.equals(&config.admin) {
        return Err(ProgramError::Rugged(RuggedError::Unauthorized));
    }
    Ok(RoyaltyPlan { basis_points, creators })
}

/// The supply-cap plugin a new collection is created with.
#[derive(Clone, Debug)]
pub struct MasterEditionPlan {
    /// The supply cap, if one was given.
    pub max_supply: Option<u32>,
    /// The edition's display name, if one was given.
    pub name: Option<String>,
    /// The edition's metadata location, if one was given.
    pub uri: Option<String>,
}

/// Decides whether a new collection carries the supply-cap plugin:
/// exactly when a cap, an edition name or an edition location is
/// given, and then with those values unchanged.
pub fn plan_master_edition(
    max_supply: Option<u32>,
    edition_name: Option<String>,
    edition_uri: Option<String>,
) -> (r: Option<MasterEditionPlan>)
    ensures
        r is Some <==> (max_supply is Some || edition_name is Some || edition_uri is Some),
        r matches Some(p) ==> p.max_supply == max_supply && p.name == edition_name && p.uri
            == edition_uri,
{
    if max_supply.is_some() || edition_name.is_some() || edition_uri.is_some() {
        Some(MasterEditionPlan { max_supply, name: edition_name, uri: edition_uri })
    } else {
        None
    }
}

/// Inputs for attaching a freeze-delegate plugin to an asset.
#[derive(Clone, Debug)]
pub struct AddFreezePluginArgs {
    /// Whether the asset starts frozen.
    pub frozen: bool,
    /// Optional delegate; without one, the owner keeps the authority.
    pub delegate: Option<Identity>,
}

/// Who holds the freeze-plugin authority.
#[derive(Clone, Debug)]
pub enum FreezeAuthority {
    /// The asset's owner.
    Owner,
    /// A named delegate address.
    Delegate(Identity),
}

/// Chooses the freeze-plugin authority: the named delegate when one is
/// given, otherwise the owner.
pub fn choose_freeze_authority(args: AddFreezePluginArgs) -> (r: FreezeAuthority)
    ensures
        args.delegate matches Some(d) ==> r matches FreezeAuthority::Delegate(a) && a@ == d@,
        args.delegate is None ==> r is Owner,
{
    match args.delegate {
        Some(d) => FreezeAuthority::Delegate(d),
        None => FreezeAuthority::Owner,
    }
}

/// Caches a freshly created collection's supply cap in the
/// configuration.
///
/// Admin only. When a cap is given and the collection is one of the two
/// the configuration references, the matching master-edition flag and
/// cap are recorded; a cap below that collection's minted counter is
/// rejected `MaxSupplyExceeded`, so a capped counter never exceeds its
/// cap. A cap for an unreferenced collection, or no cap, changes
/// nothing.
pub fn record_collection_created(
    config: &mut Config,
    caller: &Identity,
    collection: &Identity,
    max_supply: Option<u32>,
) -> (r: Result<(), ProgramError>)
    ensures
        caller@ != old(config).admin@ <==> r == Err::<(), ProgramError>(
            ProgramError::Rugged(RuggedError::Unauthorized),
        ),
        r is Err ==> *final(config) == *old(config),
        caller@ == old(config).admin@ ==> match max_supply {
            Some(cap) => {
                if collection@ == old(config).standard_collection@ {
                    if old(config).total_minted_standard <= cap {
                        r is Ok && *final(config) == (Config {
                            standard_collection_has_master_edition: true,
                            standard_collection_max_supply: Some(cap),
                            ..*old(config)
                        })
                    } else {
                        r == Err::<(), ProgramError>(
                            ProgramError::Rugged(RuggedError::MaxSupplyExceeded),
                        )
                    }
                } else if collection@ == old(config).scammed_collection@ {
                    if old(config).total_minted_scammed <= cap {
                        r is Ok && *final(config) == (Config {
                            scammed_collection_has_master_edition: true,
                            scammed_collection_max_supply: Some(cap),
                            ..*old(config)
                        })
                    } else {
                        r == Err::<(), ProgramError>(
                            ProgramError::Rugged(RuggedError::MaxSupplyExceeded),
                        )
                    }
                } else {
                    r is Ok && *final(config) == *old(config)
                }
            },
            None => r is Ok && *final(config) == *old(config),
        },
        old(config).wf() && r is Ok ==> final(config).wf(),
{
    if !caller.equals(&config.admin) {
        return Err(ProgramError::Rugged(RuggedError::Unauthorized));
    }
    let cap = match max_supply {
        Some(c) => c,
        None => {
            return Ok(());
        },
    };
    if collection.equals(&config.standard_collection) {
        if config.total_minted_standard > cap as u64 {
            return Err(ProgramError::Rugged(RuggedError::MaxSupplyExceeded));
        }
        config.standard_collection_has_master_edition = true;
        config.standard_collection_max_supply = Some(cap);
        return Ok(());
    }
    if collection.equals(&config.scammed_collection) {
        if config.total_minted_scammed > cap as u64 {
            return Err(ProgramError::Rugged(RuggedError::MaxSupplyExceeded));
        }
        config.scammed_collection_has_master_edition = true;
        config.scammed_collection_max_supply = Some(cap);
        return Ok(());
    }
    Ok(())
}

} // verus!
