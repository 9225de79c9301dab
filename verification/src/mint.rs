//! The issuance orchestrator.
//!
//! One issuance request runs through the stages Validating,
//! FeeCollecting, AssetCreating, AttributeAttaching, Finalized, with
//! Aborted reachable from every stage. The core plans the request —
//! authority check, duplicate claim, pause and supply gates, input
//! validation, fee split, attribute construction — and finalizes it
//! after the external engine reports; the host performs the transfers
//! and engine calls named by the plan and rolls everything back on
//! abort.

use vstd::prelude::*;
use crate::authority::{
    base58_of, canonical_authority, derive_update_authority, identity_base58, pda_found,
    update_auth_label,
};
use crate::config::{CollectionRole, Config};
use crate::error::{CustomError, ProgramError, RuggedError};
use crate::fees::{
    antiscam_amount_spec, calculate_mint_fees, fees_computable, treasury_amount_spec,
};
use crate::guard::GuardRegistry;
use crate::identity::Identity;
use crate::supply::{
    check_supply, supply_available, with_minted_count, LOW_SUPPLY_WARNING_THRESHOLD,
};

verus! {

/// Longest accepted attribute text, in characters.
pub const MAX_ATTRIBUTE_LEN: usize = 256;

/// The stages one issuance request passes through, in order.
#[derive(Clone, Copy, Debug, PartialEq, Eq, Structural)]
pub enum MintStage {
    Validating,
    FeeCollecting,
    AssetCreating,
    AttributeAttaching,
    Finalized,
    Aborted,
}

/// What the host reports back after performing one stage's work.
#[derive(Clone, Copy, Debug, PartialEq, Eq, Structural)]
pub enum MintEvent {
    Validated,
    FeesCollected,
    AssetCreated,
    AttributesAttached,
    StepFailed,
}

/// The stage that follows a stage on an event: the success events walk
/// the stages in order, the two terminal stages absorb every event, and
/// everything else — a failure, or an event out of order — aborts.
pub open spec fn stage_after(stage: MintStage, event: MintEvent) -> MintStage {
    match stage {
        MintStage::Validating => match event {
            MintEvent::Validated => MintStage::FeeCollecting,
            _ => MintStage::Aborted,
        },
        MintStage::FeeCollecting => match event {
            MintEvent::FeesCollected => MintStage::AssetCreating,
            _ => MintStage::Aborted,
        },
        MintStage::AssetCreating => match event {
            MintEvent::AssetCreated => MintStage::AttributeAttaching,
            _ => MintStage::Aborted,
        },
        MintStage::AttributeAttaching => match event {
            MintEvent::AttributesAttached => MintStage::Finalized,
            _ => MintStage::Aborted,
        },
        MintStage::Finalized => MintStage::Finalized,
        MintStage::Aborted => MintStage::Aborted,
    }
}

/// Advances the request lifecycle by one reported event.
pub fn advance_stage(stage: MintStage, event: MintEvent) -> (r: MintStage)
    ensures
        r == stage_after(stage, event),
{
    match stage {
        MintStage::Validating => match event {
            MintEvent::Validated => MintStage::FeeCollecting,
            _ => MintStage::Aborted,
        },
        MintStage::FeeCollecting => match event {
            MintEvent::FeesCollected => MintStage::AssetCreating,
            _ => MintStage::Aborted,
        },
        MintStage::AssetCreating => match event {
            MintEvent::AssetCreated => MintStage::AttributeAttaching,
            _ => MintStage::Aborted,
        },
        MintStage::AttributeAttaching => match event {
            MintEvent::AttributesAttached => MintStage::Finalized,
            _ => MintStage::Aborted,
        },
        MintStage::Finalized => MintStage::Finalized,
        MintStage::Aborted => MintStage::Aborted,
    }
}

/// A request reaches Finalized only from AttributeAttaching on a
/// successful attachment: no event sequence skips a stage.
pub proof fn lemma_finalized_only_after_attach(stage: MintStage, event: MintEvent)
    ensures
        stage_after(stage, event) == MintStage::Finalized ==> stage == MintStage::Finalized || (
        stage == MintStage::AttributeAttaching && event == MintEvent::AttributesAttached),
{
}

/// Both terminal stages absorb every further event: an aborted request
/// never resumes and a finalized request never regresses.
pub proof fn lemma_terminal_stages_absorb(event: MintEvent)
    ensures
        stage_after(MintStage::Aborted, event) == MintStage::Aborted,
        stage_after(MintStage::Finalized, event) == MintStage::Finalized,
{
}

/// The role-specific inputs of one issuance request.
#[derive(Clone, Debug)]
pub enum MintDetails {
    /// A standard issuance records the scam it commemorates.
    Standard {
        scam_year: String,
        usd_amount_stolen: String,
        platform_category: String,
        type_of_attack: String,
    },
    /// A scammed issuance records one free-form description.
    Scammed { scam_details: String },
}

/// The collection a set of details issues under.
pub open spec fn role_of(d: MintDetails) -> CollectionRole {
    match d {
        MintDetails::Standard { .. } => CollectionRole::Standard,
        MintDetails::Scammed { .. } => CollectionRole::Scammed,
    }
}

/// One attribute text is valid when it is neither empty nor over-length.
pub open spec fn text_valid(s: Seq<char>) -> bool {
    0 < s.len() <= MAX_ATTRIBUTE_LEN
}

/// Whether every attribute text of the request is valid.
pub open spec fn details_valid(d: MintDetails) -> bool {
    match d {
        MintDetails::Standard {
            scam_year,
            usd_amount_stolen,
            platform_category,
            type_of_attack,
        } => text_valid(scam_year@) && text_valid(usd_amount_stolen@) && text_valid(
            platform_category@,
        ) && text_valid(type_of_attack@),
        MintDetails::Scammed { scam_details } => text_valid(scam_details@),
    }
}

/// Checks one attribute text against the validity bounds.
fn check_text(s: &String) -> (r: bool)
    ensures
        r == text_valid(s@),
{
    let n = s.as_str().unicode_len();
    0 < n && n <= MAX_ATTRIBUTE_LEN
}

/// Checks every attribute text of the request.
pub fn validate_details(d: &MintDetails) -> (r: bool)
    ensures
        r == details_valid(*d),
{
    match d {
        MintDetails::Standard {
            scam_year,
            usd_amount_stolen,
            platform_category,
            type_of_attack,
        } => check_text(scam_year) && check_text(usd_amount_stolen) && check_text(
            platform_category,
        ) && check_text(type_of_attack),
        MintDetails::Scammed { scam_details } => check_text(scam_details),
    }
}

/// The collection a role issues under, as stored in the configuration.
pub open spec fn collection_ref_spec(c: Config, role: CollectionRole) -> Seq<u8> {
    match role {
        CollectionRole::Standard => c.standard_collection@,
        CollectionRole::Scammed => c.scammed_collection@,
    }
}

/// One issuance request, as handed in by the host after signature
/// verification.
#[derive(Clone, Debug)]
pub struct MintRequest {
    /// The caller: fee payer and owner of the new asset.
    pub payer: Identity,
    /// The pre-computed identity of the asset to create.
    pub asset: Identity,
    /// Display name of the new asset.
    pub name: String,
    /// Metadata location of the new asset.
    pub uri: String,
    /// The authority account the caller passed; rejected unless it is
    /// the canonical derived authority.
    pub claimed_authority: Identity,
    /// The bump seed the caller passed with the authority.
    pub claimed_authority_bump: u8,
    /// The role-specific attribute inputs.
    pub details: MintDetails,
}

/// The structured attribute set attached to a new asset.
#[derive(Clone, Debug)]
pub enum AttributeSet {
    Standard {
        /// Sequence id: the minted counter plus one.
        sequence_id: u64,
        scam_year: String,
        usd_amount_stolen: String,
        platform_category: String,
        type_of_attack: String,
        /// The payer's identity in base58 text.
        minted_by: String,
        /// The timestamp the host took at the start of the request.
        minted_at: i64,
    },
    Scammed { scam_details: String },
}

/// Everything the host must carry out for one validated request: the
/// two fee transfers, the engine calls under the derived authority, and
/// the claim to finalize.
#[derive(Clone, Debug)]
pub struct MintPlan {
    /// Lamports owed to the treasury.
    pub treasury_amount: u64,
    /// Lamports owed to the anti-scam treasury.
    pub antiscam_amount: u64,
    /// The derived system authority that signs the engine calls.
    pub authority: Identity,
    /// The bump seed of the derived authority.
    pub authority_bump: u8,
    /// The collection the asset is created under.
    pub collection: Identity,
    /// The attribute set to attach.
    pub attributes: AttributeSet,
    /// Handle of the claim taken for the asset identity.
    pub claim_handle: usize,
    /// Non-fatal warning that few slots remain under the cap.
    pub low_supply_warning: bool,
}

/// The full relation between one planning call and its outcome: which
/// gate fails with which error, how the guard registry changes, and
/// what a returned plan holds. `authority`/`authority_bump` are the
/// canonical derivation the claimed authority is checked against.
pub open spec fn planned_outcome(
    c: Config,
    g0: GuardRegistry,
    g1: GuardRegistry,
    req: MintRequest,
    authority: Seq<u8>,
    authority_bump: u8,
    now: i64,
    r: Result<MintPlan, ProgramError>,
) -> bool {
    let role = role_of(req.details);
    let auth_ok = req.claimed_authority@ == authority && req.claimed_authority_bump
        == authority_bump;
    let dup = g0.contains_asset(req.asset@);
    let gates_ok = auth_ok && !dup && !c.paused && supply_available(c, role) && details_valid(
        req.details,
    );
    &&& !auth_ok <==> r == Err::<MintPlan, ProgramError>(
        ProgramError::Rugged(RuggedError::Unauthorized),
    )
    &&& !auth_ok ==> g1 == g0
    &&& auth_ok && dup <==> r == Err::<MintPlan, ProgramError>(
        ProgramError::Rugged(RuggedError::DuplicateNFTMint),
    )
    &&& auth_ok && dup ==> g1 == g0
    &&& auth_ok && !dup ==> {
        &&& g1.records@.len() == g0.records@.len() + 1
        &&& g1.records@[g0.records@.len() as int].asset@ == req.asset@
        &&& !g1.records@[g0.records@.len() as int].tracker.is_minted
        &&& forall|i: int| 0 <= i < g0.records@.len() ==> g1.records@[i] == g0.records@[i]
    }
    &&& auth_ok && !dup && c.paused <==> r == Err::<MintPlan, ProgramError>(
        ProgramError::Rugged(RuggedError::ProgramPaused),
    )
    &&& auth_ok && !dup && !c.paused && !supply_available(c, role) <==> r == Err::<
        MintPlan,
        ProgramError,
    >(ProgramError::Rugged(RuggedError::MaxSupplyExceeded))
    &&& auth_ok && !dup && !c.paused && supply_available(c, role) && !details_valid(req.details)
        <==> r == Err::<MintPlan, ProgramError>(ProgramError::Rugged(RuggedError::InvalidTraits))
    &&& gates_ok && (!fees_computable(c) || c.minted_count(role) == u64::MAX) <==> r == Err::<
        MintPlan,
        ProgramError,
    >(ProgramError::Custom(CustomError::ArithmeticOverflow))
    &&& r is Ok <==> gates_ok && fees_computable(c) && c.minted_count(role) < u64::MAX
    &&& r matches Ok(plan) ==> {
        &&& plan.treasury_amount == treasury_amount_spec(c)
        &&& plan.antiscam_amount == antiscam_amount_spec(c)
        &&& plan.authority@ == authority
        &&& plan.authority_bump == authority_bump
        &&& plan.collection@ == collection_ref_spec(c, role)
        &&& plan.claim_handle == g0.records@.len()
        &&& (plan.low_supply_warning <==> (c.cap_of(role) matches Some(cap) && cap
            - c.minted_count(role) <= LOW_SUPPLY_WARNING_THRESHOLD))
        &&& match req.details {
            MintDetails::Standard {
                scam_year,
                usd_amount_stolen,
                platform_category,
                type_of_attack,
            } => plan.attributes matches AttributeSet::Standard {
                sequence_id,
                scam_year: a_year,
                usd_amount_stolen: a_usd,
                platform_category: a_platform,
                type_of_attack: a_attack,
                minted_by,
                minted_at,
            } && sequence_id == c.minted_count(role) + 1 && a_year@ == scam_year@ && a_usd@
                == usd_amount_stolen@ && a_platform@ == platform_category@ && a_attack@
                == type_of_attack@ && minted_by@ == base58_of(req.payer@) && minted_at == now,
            MintDetails::Scammed { scam_details } => plan.attributes
                matches AttributeSet::Scammed { scam_details: a_details } && a_details@
                == scam_details@,
        }
    }
}

/// While the program is paused, every issuance request — standard or
/// scammed — that passes the host's account checks (canonical
/// authority, identity not yet claimed) fails exactly `ProgramPaused`;
/// the claim it took stays unfinalized, and planning touches neither
/// counters nor transfers, so an aborted request moves no value.
pub proof fn lemma_paused_blocks_mint(
    c: Config,
    g0: GuardRegistry,
    g1: GuardRegistry,
    req: MintRequest,
    authority: Seq<u8>,
    authority_bump: u8,
    now: i64,
    r: Result<MintPlan, ProgramError>,
)
    requires
        planned_outcome(c, g0, g1, req, authority, authority_bump, now, r),
        req.claimed_authority@ == authority,
        req.claimed_authority_bump == authority_bump,
        !g0.contains_asset(req.asset@),
        c.paused,
    ensures
        r == Err::<MintPlan, ProgramError>(ProgramError::Rugged(RuggedError::ProgramPaused)),
        !g1.records@[g0.records@.len() as int].tracker.is_minted,
{
}

/// A capped collection at its cap — standard or scammed — rejects the
/// next issuance request with exactly `MaxSupplyExceeded`; planning
/// leaves the configuration untouched, so the counter stays at the cap.
pub proof fn lemma_cap_blocks_mint(
    c: Config,
    g0: GuardRegistry,
    g1: GuardRegistry,
    req: MintRequest,
    authority: Seq<u8>,
    authority_bump: u8,
    now: i64,
    r: Result<MintPlan, ProgramError>,
    cap: u32,
)
    requires
        planned_outcome(c, g0, g1, req, authority, authority_bump, now, r),
        req.claimed_authority@ == authority,
        req.claimed_authority_bump == authority_bump,
        !g0.contains_asset(req.asset@),
        !c.paused,
        c.cap_of(role_of(req.details)) == Some(cap),
        c.minted_count(role_of(req.details)) == cap,
    ensures
        r == Err::<MintPlan, ProgramError>(
            ProgramError::Rugged(RuggedError::MaxSupplyExceeded),
        ),
{
}

/// Of two issuance requests planned in either order for the same asset
/// identity, at most one is ever planned successfully: the claim the
/// winning request took makes the other fail `DuplicateNFTMint` and
/// leave the registry unchanged, so only the winner can ever reach
/// completion and move a counter.
pub proof fn lemma_second_plan_fails(
    c1: Config,
    c2: Config,
    g0: GuardRegistry,
    g1: GuardRegistry,
    g2: GuardRegistry,
    req1: MintRequest,
    req2: MintRequest,
    authority1: Seq<u8>,
    bump1: u8,
    now1: i64,
    r1: Result<MintPlan, ProgramError>,
    authority2: Seq<u8>,
    bump2: u8,
    now2: i64,
    r2: Result<MintPlan, ProgramError>,
)
    requires
        planned_outcome(c1, g0, g1, req1, authority1, bump1, now1, r1),
        r1 is Ok,
        planned_outcome(c2, g1, g2, req2, authority2, bump2, now2, r2),
        req2.asset@ == req1.asset@,
        req2.claimed_authority@ == authority2,
        req2.claimed_authority_bump == bump2,
    ensures
        r2 == Err::<MintPlan, ProgramError>(ProgramError::Rugged(RuggedError::DuplicateNFTMint)),
        g2 == g1,
{
    assert(g1.records@[g0.records@.len() as int].asset@ == req1.asset@);
    assert(g1.contains_asset(req2.asset@));
}

/// The role the request issues under.
fn role_of_details(d: &MintDetails) -> (r: CollectionRole)
    ensures
        r == role_of(*d),
{
    match d {
        MintDetails::Standard { .. } => CollectionRole::Standard,
        MintDetails::Scammed { .. } => CollectionRole::Scammed,
    }
}

/// Plans one issuance request against a snapshot of the configuration,
/// checking the caller's authority against the given canonical
/// derivation.
///
/// The gates run in order: authority, duplicate claim, pause, supply,
/// input validity, arithmetic. The claim taken for the asset identity
/// persists even if a later gate fails; everything else is untouched on
/// every error.
pub fn plan_mint(
    config: &Config,
    guard: &mut GuardRegistry,
    req: &MintRequest,
    authority: &Identity,
    authority_bump: u8,
    now: i64,
) -> (r: Result<MintPlan, ProgramError>)
    requires
        req.payer.wf(),
    ensures
        planned_outcome(*config, *old(guard), *final(guard), *req, authority@, authority_bump,
            now, r),
        old(guard).wf() ==> final(guard).wf(),
{
    if !(req.claimed_authority.equals(authority) && req.claimed_authority_bump
        == authority_bump) {
        return Err(ProgramError::Rugged(RuggedError::Unauthorized));
    }
    let claim_handle = match guard.claim(&req.asset) {
        Ok(h) => h,
        Err(e) => {
            return Err(e);
        },
    };
    if config.paused {
        return Err(ProgramError::Rugged(RuggedError::ProgramPaused));
    }
    let role = role_of_details(&req.details);
    let status = match check_supply(config, role) {
        Ok(s) => s,
        Err(e) => {
            return Err(e);
        },
    };
    if !validate_details(&req.details) {
        return Err(ProgramError::Rugged(RuggedError::InvalidTraits));
    }
    let (treasury_amount, antiscam_amount) = match calculate_mint_fees(config) {
        Ok(p) => p,
        Err(e) => {
            return Err(e);
        },
    };
    let minted = match role {
        CollectionRole::Standard => config.total_minted_standard,
        CollectionRole::Scammed => config.total_minted_scammed,
    };
    let sequence_id = match minted.checked_add(1) {
        Some(n) => n,
        None => {
            return Err(ProgramError::Custom(CustomError::ArithmeticOverflow));
        },
    };
    let attributes = match &req.details {
        MintDetails::Standard {
            scam_year,
            usd_amount_stolen,
            platform_category,
            type_of_attack,
        } => AttributeSet::Standard {
            sequence_id,
            scam_year: scam_year.clone(),
            usd_amount_stolen: usd_amount_stolen.clone(),
            platform_category: platform_category.clone(),
            type_of_attack: type_of_attack.clone(),
            minted_by: identity_base58(&req.payer),
            minted_at: now,
        },
        MintDetails::Scammed { scam_details } => AttributeSet::Scammed {
            scam_details: scam_details.clone(),
        },
    };
    let collection = match role {
        CollectionRole::Standard => config.standard_collection.duplicate(),
        CollectionRole::Scammed => config.scammed_collection.duplicate(),
    };
    Ok(MintPlan {
        treasury_amount,
        antiscam_amount,
        authority: authority.duplicate(),
        authority_bump,
        collection,
        attributes,
        claim_handle,
        low_supply_warning: status.low_supply_warning,
    })
}

/// Plans one issuance request, deriving the canonical authority for the
/// deployment itself.
///
/// Rejects a caller-supplied authority that does not match the
/// canonical derivation; whenever the derivation finds an address — in
/// every case but the degenerate one where no bump seed yields any —
/// the outcome is exactly the planning relation against the canonical
/// derivation.
pub fn begin_mint(
    config: &Config,
    guard: &mut GuardRegistry,
    req: &MintRequest,
    program_id: &Identity,
    now: i64,
) -> (r: Result<MintPlan, ProgramError>)
    requires
        req.payer.wf(),
        program_id.wf(),
    ensures
        r == Err::<MintPlan, ProgramError>(ProgramError::Rugged(RuggedError::Unauthorized))
            ==> *final(guard) == *old(guard),
        (req.claimed_authority@, req.claimed_authority_bump) != canonical_authority(program_id@)
            ==> r == Err::<MintPlan, ProgramError>(
            ProgramError::Rugged(RuggedError::Unauthorized),
        ),
        r != Err::<MintPlan, ProgramError>(ProgramError::Rugged(RuggedError::Unauthorized))
            ==> planned_outcome(*config, *old(guard), *final(guard), *req,
            canonical_authority(program_id@).0, canonical_authority(program_id@).1, now, r),
        pda_found(seq![update_auth_label()], program_id@) ==> planned_outcome(*config,
            *old(guard), *final(guard), *req, canonical_authority(program_id@).0,
            canonical_authority(program_id@).1, now, r),
        old(guard).wf() ==> final(guard).wf(),
{
    let (authority, authority_bump) = match derive_update_authority(program_id) {
        Ok(p) => p,
        Err(e) => {
            return Err(e);
        },
    };
    plan_mint(config, guard, req, &authority, authority_bump, now)
}

/// Settles one issuance request after the host performed the plan.
///
/// When the engine reports success, the minted counter is incremented —
/// re-checking the cap and with a checked addition — and the claim is
/// finalized; a failure of either check leaves both records unchanged.
/// When the engine reports failure, its code is surfaced unchanged, the
/// configuration is unchanged, and the claim persists unfinalized.
pub fn complete_mint(
    config: &mut Config,
    guard: &mut GuardRegistry,
    claim_handle: usize,
    role: CollectionRole,
    engine_ok: bool,
    engine_code: u32,
) -> (r: Result<(), ProgramError>)
    requires
        claim_handle < old(guard).records@.len(),
    ensures
        !engine_ok ==> r == Err::<(), ProgramError>(ProgramError::ExternalEngine(engine_code))
            && *final(config) == *old(config) && *final(guard) == *old(guard),
        engine_ok && !supply_available(*old(config), role) ==> r == Err::<(), ProgramError>(
            ProgramError::Rugged(RuggedError::MaxSupplyExceeded),
        ) && *final(config) == *old(config) && *final(guard) == *old(guard),
        engine_ok && supply_available(*old(config), role) && old(config).minted_count(role)
            == u64::MAX ==> r == Err::<(), ProgramError>(
            ProgramError::Custom(CustomError::ArithmeticOverflow),
        ) && *final(config) == *old(config) && *final(guard) == *old(guard),
        engine_ok && supply_available(*old(config), role) && old(config).minted_count(role)
            < u64::MAX ==> {
            &&& r is Ok
            &&& *final(config) == with_minted_count(
                *old(config),
                role,
                (old(config).minted_count(role) + 1) as u64,
            )
            &&& final(guard).records@.len() == old(guard).records@.len()
            &&& final(guard).records@[claim_handle as int].asset@
                == old(guard).records@[claim_handle as int].asset@
            &&& final(guard).records@[claim_handle as int].tracker.is_minted
            &&& forall|i: int|
                0 <= i < old(guard).records@.len() && i != claim_handle
                    ==> final(guard).records@[i] == old(guard).records@[i]
        },
        old(config).wf() ==> final(config).wf(),
        old(guard).wf() ==> final(guard).wf(),
{
    if !engine_ok {
        return Err(ProgramError::ExternalEngine(engine_code));
    }
    match crate::supply::increment_minted(config, role) {
        Ok(()) => (),
        Err(e) => {
            return Err(e);
        },
    }
    guard.finalize(claim_handle);
    Ok(())
}

} // verus!
