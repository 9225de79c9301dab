//! Per-collection supply tracking and cap enforcement.
//!
//! A capped collection accepts a new issuance only while its minted
//! counter is below the cap; the counter is incremented only after the
//! external mint succeeds, with a checked addition.

use vstd::prelude::*;
use crate::config::{CollectionRole, Config};
use crate::error::{CustomError, ProgramError, RuggedError};

verus! {

/// Remaining slots at or under which a low-supply warning is raised.
pub const LOW_SUPPLY_WARNING_THRESHOLD: u64 = 5;

/// What a successful supply check reports.
#[derive(Clone, Copy, Debug, PartialEq, Eq, Structural)]
pub struct SupplyStatus {
    /// Slots left under the cap, or `None` for an uncapped collection.
    pub remaining: Option<u64>,
    /// Non-fatal warning that few slots remain.
    pub low_supply_warning: bool,
}

/// Whether a role's collection still has room for one more issuance.
pub open spec fn supply_available(c: Config, role: CollectionRole) -> bool {
    match c.cap_of(role) {
        Some(cap) => c.minted_count(role) < cap,
        None => true,
    }
}

/// Checks the supply gate for a role: fails `MaxSupplyExceeded` exactly
/// when the collection is capped and its counter has reached the cap.
/// On success, reports the remaining slots and whether they have run
/// low.
pub fn check_supply(config: &Config, role: CollectionRole) -> (r: Result<
    SupplyStatus,
    ProgramError,
>)
    ensures
        r is Ok <==> supply_available(*config, role),
        r matches Err(e) ==> e == ProgramError::Rugged(RuggedError::MaxSupplyExceeded),
        r matches Ok(s) ==> match config.cap_of(role) {
            Some(cap) => s.remaining == Some((cap - config.minted_count(role)) as u64)
                && (s.low_supply_warning <==> cap - config.minted_count(role)
                    <= LOW_SUPPLY_WARNING_THRESHOLD),
            None => s.remaining is None && !s.low_supply_warning,
        },
{
    let (has_cap, cap) = match role {
        CollectionRole::Standard => {
            if config.standard_collection_has_master_edition {
                match config.standard_collection_max_supply {
                    Some(c) => (true, c),
                    None => (false, 0u32),
                }
            } else {
                (false, 0u32)
            }
        },
        CollectionRole::Scammed => {
            if config.scammed_collection_has_master_edition {
                match config.scammed_collection_max_supply {
                    Some(c) => (true, c),
                    None => (false, 0u32),
                }
            } else {
                (false, 0u32)
            }
        },
    };
    let minted = match role {
        CollectionRole::Standard => config.total_minted_standard,
        CollectionRole::Scammed => config.total_minted_scammed,
    };
    if !has_cap {
        return Ok(SupplyStatus { remaining: None, low_supply_warning: false });
    }
    if minted >= cap as u64 {
        return Err(ProgramError::Rugged(RuggedError::MaxSupplyExceeded));
    }
    let remaining = cap as u64 - minted;
    Ok(SupplyStatus {
        remaining: Some(remaining),
        low_supply_warning: remaining <= LOW_SUPPLY_WARNING_THRESHOLD,
    })
}

/// The configuration with one role's minted counter replaced.
pub open spec fn with_minted_count(c: Config, role: CollectionRole, count: u64) -> Config {
    match role {
        CollectionRole::Standard => Config { total_minted_standard: count, ..c },
        CollectionRole::Scammed => Config { total_minted_scammed: count, ..c },
    }
}

/// Increments a role's minted counter after a successful external mint.
///
/// Re-checks the cap, so a capped counter never exceeds its cap even if
/// a concurrent request won the slot first; the losing request observes
/// `MaxSupplyExceeded` and the counter is unchanged. The addition is
/// checked: at the native range it fails `ArithmeticOverflow`.
pub fn increment_minted(config: &mut Config, role: CollectionRole) -> (r: Result<
    (),
    ProgramError,
>)
    ensures
        !supply_available(*old(config), role) ==> r == Err::<(), ProgramError>(
            ProgramError::Rugged(RuggedError::MaxSupplyExceeded),
        ) && *final(config) == *old(config),
        supply_available(*old(config), role) && old(config).minted_count(role) == u64::MAX
            ==> r == Err::<(), ProgramError>(
                ProgramError::Custom(CustomError::ArithmeticOverflow),
            ) && *final(config) == *old(config),
        supply_available(*old(config), role) && old(config).minted_count(role) < u64::MAX
            ==> r is Ok && *final(config) == with_minted_count(
                *old(config),
                role,
                (old(config).minted_count(role) + 1) as u64,
            ),
        old(config).wf() ==> final(config).wf(),
{
    match check_supply(config, role) {
        Ok(_) => (),
        Err(e) => {
            return Err(e);
        },
    }
    let minted = match role {
        CollectionRole::Standard => config.total_minted_standard,
        CollectionRole::Scammed => config.total_minted_scammed,
    };
    let next = match minted.checked_add(1) {
        Some(n) => n,
        None => {
            return Err(ProgramError::Custom(CustomError::ArithmeticOverflow));
        },
    };
    match role {
        CollectionRole::Standard => {
            config.total_minted_standard = next;
        },
        CollectionRole::Scammed => {
            config.total_minted_scammed = next;
        },
    }
    Ok(())
}

} // verus!
