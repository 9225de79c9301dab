//! The global configuration singleton and its admin-gated mutations.
//!
//! The configuration holds the admin identity, the derived-authority and
//! beneficiary references, the two collection references, the fee
//! settings, the pause flag, the per-collection minted counters and the
//! per-collection supply caps. It is created once and mutated only
//! through the methods here, each of which rejects a non-admin caller.

use vstd::prelude::*;
use crate::error::{CustomError, ProgramError, RuggedError};
use crate::identity::Identity;

verus! {

/// Highest accepted fee rate, in basis points (half of the payment).
pub const MAX_FEE_BASIS_POINTS: u16 = 5000;

/// Lowest accepted minimum payment, in lamports.
pub const MINIMUM_PAYMENT_FLOOR: u64 = 10_000_000;

/// Fee rate a fresh configuration starts with, in basis points.
pub const DEFAULT_MINT_FEE_BASIS_POINTS: u16 = 500;

/// Share of the fee the treasury starts with, in percent.
pub const DEFAULT_TREASURY_FEE_PERCENT: u8 = 60;

/// Share of the fee the anti-scam treasury starts with, in percent.
pub const DEFAULT_ANTISCAM_FEE_PERCENT: u8 = 40;

/// Supply cap the standard collection starts with.
pub const DEFAULT_STANDARD_MAX_SUPPLY: u32 = 100;

/// Supply cap the scammed collection starts with.
pub const DEFAULT_SCAMMED_MAX_SUPPLY: u32 = 50;

/// Schema version written at creation.
pub const INITIAL_VERSION: u16 = 1;

/// The two collections an asset can be issued under.
#[derive(Clone, Copy, Debug, PartialEq, Eq, Structural)]
pub enum CollectionRole {
    Standard,
    Scammed,
}

/// Bump seeds of the derived accounts, reported by the host when the
/// accounts are created.
#[derive(Clone, Copy, Debug, PartialEq, Eq, Structural)]
pub struct BumpSeeds {
    pub config: u8,
    pub update_authority_pda: u8,
    pub treasury_pda: u8,
    pub anti_scam_treasury_pda: u8,
}

/// The global configuration record.
#[derive(Clone, Debug)]
pub struct Config {
    /// Admin authority that can update the configuration and create collections.
    pub admin: Identity,
    /// Seed the configuration record was derived with.
    pub seed: u64,
    /// Bump seed of the derived system authority.
    pub update_authority_bump: u8,
    /// Bump seed of the general-ops treasury.
    pub treasury_bump: u8,
    /// Bump seed of the anti-scam treasury.
    pub antiscam_treasury_bump: u8,
    /// Bump seed of the standard collection.
    pub standard_collection_bump: u8,
    /// Bump seed of the scammed collection.
    pub scammed_collection_bump: u8,
    /// The configuration record's own bump seed.
    pub config_bump: u8,
    /// The derived authority that approves system-attributed engine calls.
    pub update_authority: Identity,
    /// Where platform fees are collected.
    pub treasury: Identity,
    /// Where anti-scam donations are sent.
    pub antiscam_treasury: Identity,
    /// The standard collection reference.
    pub standard_collection: Identity,
    /// The scammed collection reference.
    pub scammed_collection: Identity,
    /// Fee rate in basis points.
    pub mint_fee_basis_points: u16,
    /// Share of the fee owed to the treasury, in percent.
    pub treasury_fee_percent: u8,
    /// Share of the fee owed to the anti-scam treasury, in percent.
    pub antiscam_fee_percent: u8,
    /// Minimum payment required for an issuance, in lamports.
    pub minimum_payment: u64,
    /// Circuit breaker: while set, every issuance is rejected.
    pub paused: bool,
    /// Assets issued so far under the standard collection.
    pub total_minted_standard: u64,
    /// Assets issued so far under the scammed collection.
    pub total_minted_scammed: u64,
    /// Schema version.
    pub version: u16,
    /// Whether the standard collection carries a supply-cap plugin.
    pub standard_collection_has_master_edition: bool,
    /// Supply cap of the standard collection, if capped.
    pub standard_collection_max_supply: Option<u32>,
    /// Whether the scammed collection carries a supply-cap plugin.
    pub scammed_collection_has_master_edition: bool,
    /// Supply cap of the scammed collection, if capped.
    pub scammed_collection_max_supply: Option<u32>,
}

impl Config {
    /// The fee settings a configuration must keep after any successful
    /// mutation: the split sums to 100, the rate stays at or under
    /// `MAX_FEE_BASIS_POINTS`, and the minimum payment stays at or above
    /// the floor.
    pub open spec fn fee_settings_valid(&self) -> bool {
        &&& self.treasury_fee_percent + self.antiscam_fee_percent == 100
        &&& self.mint_fee_basis_points <= MAX_FEE_BASIS_POINTS
        &&& self.minimum_payment >= MINIMUM_PAYMENT_FLOOR
    }

    /// The minted counter of a role.
    pub open spec fn minted_count(&self, role: CollectionRole) -> u64 {
        match role {
            CollectionRole::Standard => self.total_minted_standard,
            CollectionRole::Scammed => self.total_minted_scammed,
        }
    }

    /// The supply cap of a role, if the collection is capped.
    pub open spec fn cap_of(&self, role: CollectionRole) -> Option<u32> {
        match role {
            CollectionRole::Standard => if self.standard_collection_has_master_edition {
                self.standard_collection_max_supply
            } else {
                None
            },
            CollectionRole::Scammed => if self.scammed_collection_has_master_edition {
                self.scammed_collection_max_supply
            } else {
                None
            },
        }
    }

    /// A capped collection never exceeds its cap.
    pub open spec fn supply_within_caps(&self) -> bool {
        &&& (self.cap_of(CollectionRole::Standard) matches Some(c)
            ==> self.total_minted_standard <= c)
        &&& (self.cap_of(CollectionRole::Scammed) matches Some(c)
            ==> self.total_minted_scammed <= c)
    }

    /// Every stored identity holds 32 bytes.
    pub open spec fn identities_wf(&self) -> bool {
        &&& self.admin.wf()
        &&& self.update_authority.wf()
        &&& self.treasury.wf()
        &&& self.antiscam_treasury.wf()
        &&& self.standard_collection.wf()
        &&& self.scammed_collection.wf()
    }

    /// Well-formedness of the whole configuration, established at
    /// creation and preserved by every mutator.
    pub open spec fn wf(&self) -> bool {
        &&& self.fee_settings_valid()
        &&& self.supply_within_caps()
        &&& self.identities_wf()
    }

    /// The configuration with only the pause flag flipped.
    pub open spec fn with_paused_toggled(self) -> Config {
        Config { paused: !self.paused, ..self }
    }

    /// What a freshly created configuration holds: default fee settings
    /// (5% rate, 60/40 split), the floor as minimum payment, both
    /// counters at zero, both collections unbound but capped, and not
    /// paused.
    pub open spec fn is_initial(
        &self,
        admin: Seq<u8>,
        seed: u64,
        bumps: BumpSeeds,
        update_authority: Seq<u8>,
        treasury: Seq<u8>,
        antiscam_treasury: Seq<u8>,
    ) -> bool {
        &&& self.admin@ == admin
        &&& self.seed == seed
        &&& self.config_bump == bumps.config
        &&& self.update_authority_bump == bumps.update_authority_pda
        &&& self.treasury_bump == bumps.treasury_pda
        &&& self.antiscam_treasury_bump == bumps.anti_scam_treasury_pda
        &&& self.standard_collection_bump == 0 && self.scammed_collection_bump == 0
        &&& self.update_authority@ == update_authority
        &&& self.treasury@ == treasury
        &&& self.antiscam_treasury@ == antiscam_treasury
        &&& forall|i: int| 0 <= i < 32 ==> self.standard_collection@[i] == 0u8
        &&& forall|i: int| 0 <= i < 32 ==> self.scammed_collection@[i] == 0u8
        &&& self.mint_fee_basis_points == DEFAULT_MINT_FEE_BASIS_POINTS
        &&& self.treasury_fee_percent == DEFAULT_TREASURY_FEE_PERCENT
        &&& self.antiscam_fee_percent == DEFAULT_ANTISCAM_FEE_PERCENT
        &&& self.minimum_payment == MINIMUM_PAYMENT_FLOOR
        &&& !self.paused
        &&& self.total_minted_standard == 0 && self.total_minted_scammed == 0
        &&& self.version == INITIAL_VERSION
        &&& self.standard_collection_has_master_edition
        &&& self.standard_collection_max_supply == Some(DEFAULT_STANDARD_MAX_SUPPLY)
        &&& self.scammed_collection_has_master_edition
        &&& self.scammed_collection_max_supply == Some(DEFAULT_SCAMMED_MAX_SUPPLY)
    }

    /// Builds the initial configuration.
    pub fn initialize(
        admin: Identity,
        seed: u64,
        bumps: &BumpSeeds,
        update_authority: Identity,
        treasury: Identity,
        antiscam_treasury: Identity,
    ) -> (r: Config)
        requires
            admin.wf(),
            update_authority.wf(),
            treasury.wf(),
            antiscam_treasury.wf(),
        ensures
            r.wf(),
            r.is_initial(admin@, seed, *bumps, update_authority@, treasury@,
                antiscam_treasury@),
    {
        Config {
            admin,
            seed,
            update_authority_bump: bumps.update_authority_pda,
            treasury_bump: bumps.treasury_pda,
            antiscam_treasury_bump: bumps.anti_scam_treasury_pda,
            standard_collection_bump: 0,
            scammed_collection_bump: 0,
            config_bump: bumps.config,
            update_authority,
            treasury,
            antiscam_treasury,
            standard_collection: Identity::zero(),
            scammed_collection: Identity::zero(),
            mint_fee_basis_points: DEFAULT_MINT_FEE_BASIS_POINTS,
            treasury_fee_percent: DEFAULT_TREASURY_FEE_PERCENT,
            antiscam_fee_percent: DEFAULT_ANTISCAM_FEE_PERCENT,
            minimum_payment: MINIMUM_PAYMENT_FLOOR,
            paused: false,
            total_minted_standard: 0,
            total_minted_scammed: 0,
            version: INITIAL_VERSION,
            standard_collection_has_master_edition: true,
            standard_collection_max_supply: Some(DEFAULT_STANDARD_MAX_SUPPLY),
            scammed_collection_has_master_edition: true,
            scammed_collection_max_supply: Some(DEFAULT_SCAMMED_MAX_SUPPLY),
        }
    }

    /// Rebinds the standard collection reference. Admin only.
    pub fn update_collection(
        &mut self,
        caller: &Identity,
        collection_address: Identity,
    ) -> (r: Result<(), ProgramError>)
        ensures
            caller@ != old(self).admin@ ==> r == Err::<(), ProgramError>(
                ProgramError::Rugged(RuggedError::Unauthorized),
            ) && *final(self) == *old(self),
            caller@ == old(self).admin@ ==> r is Ok && *final(self) == (Config {
                standard_collection: collection_address,
                ..*old(self)
            }),
    {
        if !caller.equals(&self.admin) {
            return Err(ProgramError::Rugged(RuggedError::Unauthorized));
        }
        self.standard_collection = collection_address;
        Ok(())
    }

    /// Rebinds the scammed collection reference. Admin only.
    pub fn update_scammed_collection(
        &mut self,
        caller: &Identity,
        collection_address: Identity,
    ) -> (r: Result<(), ProgramError>)
        ensures
            caller@ != old(self).admin@ ==> r == Err::<(), ProgramError>(
                ProgramError::Rugged(RuggedError::Unauthorized),
            ) && *final(self) == *old(self),
            caller@ == old(self).admin@ ==> r is Ok && *final(self) == (Config {
                scammed_collection: collection_address,
                ..*old(self)
            }),
    {
        if !caller.equals(&self.admin) {
            return Err(ProgramError::Rugged(RuggedError::Unauthorized));
        }
        self.scammed_collection = collection_address;
        Ok(())
    }

    /// Replaces the fee settings. Admin only; the split must sum to 100
    /// and the rate must stay at or under `MAX_FEE_BASIS_POINTS`. On any
    /// error the configuration is unchanged.
    pub fn update_fee_settings(
        &mut self,
        caller: &Identity,
        mint_fee_basis_points: u16,
        treasury_fee_percent: u8,
        antiscam_fee_percent: u8,
    ) -> (r: Result<(), ProgramError>)
        ensures
            r is Err ==> *final(self) == *old(self),
            caller@ != old(self).admin@ ==> r == Err::<(), ProgramError>(
                ProgramError::Rugged(RuggedError::Unauthorized),
            ),
            caller@ == old(self).admin@
                && treasury_fee_percent + antiscam_fee_percent != 100
                ==> r == Err::<(), ProgramError>(
                    ProgramError::Custom(CustomError::InvalidFeeDistribution),
                ),
            caller@ == old(self).admin@
                && treasury_fee_percent + antiscam_fee_percent == 100
                && mint_fee_basis_points > MAX_FEE_BASIS_POINTS
                ==> r == Err::<(), ProgramError>(
                    ProgramError::Custom(CustomError::InvalidFeeAmount),
                ),
            caller@ == old(self).admin@
                && treasury_fee_percent + antiscam_fee_percent == 100
                && mint_fee_basis_points <= MAX_FEE_BASIS_POINTS
                ==> r is Ok && *final(self) == (Config {
                    mint_fee_basis_points,
                    treasury_fee_percent,
                    antiscam_fee_percent,
                    ..*old(self)
                }),
            old(self).wf() && r is Ok ==> final(self).wf(),
    {
        if !caller.equals(&self.admin) {
            return Err(ProgramError::Rugged(RuggedError::Unauthorized));
        }
        let split_sum: u16 = treasury_fee_percent as u16 + antiscam_fee_percent as u16;
        if split_sum != 100 {
            return Err(ProgramError::Custom(CustomError::InvalidFeeDistribution));
        }
        if mint_fee_basis_points > MAX_FEE_BASIS_POINTS {
            return Err(ProgramError::Custom(CustomError::InvalidFeeAmount));
        }
        self.mint_fee_basis_points = mint_fee_basis_points;
        self.treasury_fee_percent = treasury_fee_percent;
        self.antiscam_fee_percent = antiscam_fee_percent;
        Ok(())
    }

    /// Replaces the minimum payment. Admin only; the value must stay at
    /// or above `MINIMUM_PAYMENT_FLOOR`. On any error the configuration
    /// is unchanged.
    pub fn update_minimum_payment(
        &mut self,
        caller: &Identity,
        minimum_payment: u64,
    ) -> (r: Result<(), ProgramError>)
        ensures
            r is Err ==> *final(self) == *old(self),
            caller@ != old(self).admin@ ==> r == Err::<(), ProgramError>(
                ProgramError::Rugged(RuggedError::Unauthorized),
            ),
            caller@ == old(self).admin@ && minimum_payment < MINIMUM_PAYMENT_FLOOR
                ==> r == Err::<(), ProgramError>(
                    ProgramError::Custom(CustomError::InvalidMinimumPayment),
                ),
            caller@ == old(self).admin@ && minimum_payment >= MINIMUM_PAYMENT_FLOOR
                ==> r is Ok && *final(self) == (Config { minimum_payment, ..*old(self) }),
            old(self).wf() && r is Ok ==> final(self).wf(),
    {
        if !caller.equals(&self.admin) {
            return Err(ProgramError::Rugged(RuggedError::Unauthorized));
        }
        if minimum_payment < MINIMUM_PAYMENT_FLOOR {
            return Err(ProgramError::Custom(CustomError::InvalidMinimumPayment));
        }
        self.minimum_payment = minimum_payment;
        Ok(())
    }

    /// Flips the pause flag. Admin only; configuration changes stay
    /// available while paused.
    pub fn toggle_paused(&mut self, caller: &Identity) -> (r: Result<(), ProgramError>)
        ensures
            caller@ != old(self).admin@ ==> r == Err::<(), ProgramError>(
                ProgramError::Rugged(RuggedError::Unauthorized),
            ) && *final(self) == *old(self),
            caller@ == old(self).admin@ ==> r is Ok
                && *final(self) == old(self).with_paused_toggled(),
            old(self).wf() ==> final(self).wf(),
    {
        if !caller.equals(&self.admin) {
            return Err(ProgramError::Rugged(RuggedError::Unauthorized));
        }
        self.paused = !self.paused;
        Ok(())
    }
}

/// Flipping the pause flag twice returns the configuration to its
/// original value.
pub proof fn lemma_toggle_paused_twice(c: Config)
    ensures
        c.with_paused_toggled().with_paused_toggled() == c,
{
}

/// Holds the configuration singleton: created exactly once, never
/// deleted.
pub struct ConfigStore {
    pub config: Option<Config>,
}

impl ConfigStore {
    /// An empty store, before initialization.
    pub fn new() -> (r: ConfigStore)
        ensures
            r.config is None,
    {
        ConfigStore { config: None }
    }

    /// Creates the configuration singleton; fails if it already exists,
    /// leaving the stored configuration unchanged.
    pub fn initialize(
        &mut self,
        admin: Identity,
        seed: u64,
        bumps: &BumpSeeds,
        update_authority: Identity,
        treasury: Identity,
        antiscam_treasury: Identity,
    ) -> (r: Result<(), ProgramError>)
        requires
            admin.wf(),
            update_authority.wf(),
            treasury.wf(),
            antiscam_treasury.wf(),
        ensures
            old(self).config is Some ==> r == Err::<(), ProgramError>(
                ProgramError::AlreadyInitialized,
            ) && *final(self) == *old(self),
            old(self).config is None ==> r is Ok && (final(self).config matches Some(c)
                && c.wf() && c.is_initial(admin@, seed, *bumps, update_authority@, treasury@,
                antiscam_treasury@)),
    {
        if self.config.is_some() {
            return Err(ProgramError::AlreadyInitialized);
        }
        self.config = Some(Config::initialize(
            admin,
            seed,
            bumps,
            update_authority,
            treasury,
            antiscam_treasury,
        ));
        Ok(())
    }
}

} // verus!
