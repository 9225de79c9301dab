//! One-shot duplicate-issuance guard.
//!
//! Each issuance attempt claims a record keyed by the asset identity.
//! The storage substrate admits at most one record per identity, so of
//! two attempts on the same identity exactly one claim succeeds and the
//! other deterministically fails. A claim left unfinalized by an aborted
//! attempt persists and permanently blocks that identity: there is no
//! reclaim, by design.

use vstd::prelude::*;
use crate::error::{ProgramError, RuggedError};
use crate::identity::Identity;

verus! {

/// The stored flag of one claim: set only after asset creation and
/// attribute attachment both succeed.
#[derive(Clone, Copy, Debug, PartialEq, Eq, Structural)]
pub struct MintTracker {
    pub is_minted: bool,
}

/// One claim record, keyed by the asset identity it blocks.
#[derive(Clone, Debug)]
pub struct GuardRecord {
    pub asset: Identity,
    pub tracker: MintTracker,
}

/// The set of claim records the substrate holds: at most one per asset
/// identity.
pub struct GuardRegistry {
    pub records: Vec<GuardRecord>,
}

impl GuardRegistry {
    /// Whether some record already claims this asset identity.
    pub open spec fn contains_asset(&self, asset: Seq<u8>) -> bool {
        exists|i: int| 0 <= i < self.records@.len() && self.records@[i].asset@ == asset
    }

    /// At most one record per identity.
    pub open spec fn wf(&self) -> bool {
        forall|i: int, j: int|
            0 <= i < j < self.records@.len()
                ==> self.records@[i].asset@ != self.records@[j].asset@
    }

    /// An empty registry.
    pub fn new() -> (r: GuardRegistry)
        ensures
            r.records@.len() == 0,
            r.wf(),
    {
        GuardRegistry { records: Vec::new() }
    }

    /// Whether this asset identity is already claimed.
    pub fn is_claimed(&self, asset: &Identity) -> (r: bool)
        ensures
            r == self.contains_asset(asset@),
    {
        let n = self.records.len();
        let mut i: usize = 0;
        while i < n
            invariant
                i <= n,
                n == self.records@.len(),
                forall|j: int| 0 <= j < i ==> self.records@[j].asset@ != asset@,
            decreases n - i,
        {
            if self.records[i].asset.equals(asset) {
                return true;
            }
            i = i + 1;
        }
        false
    }

    /// Claims an asset identity: record creation is the atomicity
    /// anchor. Fails `DuplicateNFTMint` exactly when a record for this
    /// identity already exists; otherwise appends an unfinalized record
    /// and returns its handle.
    pub fn claim(&mut self, asset: &Identity) -> (r: Result<usize, ProgramError>)
        ensures
            r is Err <==> old(self).contains_asset(asset@),
            r matches Err(e) ==> e == ProgramError::Rugged(RuggedError::DuplicateNFTMint)
                && *final(self) == *old(self),
            r matches Ok(h) ==> {
                &&& h == old(self).records@.len()
                &&& final(self).records@.len() == old(self).records@.len() + 1
                &&& final(self).records@[h as int].asset@ == asset@
                &&& !final(self).records@[h as int].tracker.is_minted
                &&& forall|i: int| 0 <= i < old(self).records@.len()
                    ==> final(self).records@[i] == old(self).records@[i]
            },
            r is Ok ==> final(self).contains_asset(asset@),
            old(self).wf() ==> final(self).wf(),
    {
        if self.is_claimed(asset) {
            return Err(ProgramError::Rugged(RuggedError::DuplicateNFTMint));
        }
        let handle = self.records.len();
        self.records.push(GuardRecord {
            asset: asset.duplicate(),
            tracker: MintTracker { is_minted: false },
        });
        proof {
            assert(self.records@[handle as int].asset@ == asset@);
            assert(self.contains_asset(asset@));
        }
        Ok(handle)
    }

    /// Marks a claimed record issued, after asset creation and attribute
    /// attachment both succeeded.
    pub fn finalize(&mut self, handle: usize)
        requires
            handle < old(self).records@.len(),
        ensures
            final(self).records@.len() == old(self).records@.len(),
            final(self).records@[handle as int].asset@
                == old(self).records@[handle as int].asset@,
            final(self).records@[handle as int].tracker.is_minted,
            forall|i: int| 0 <= i < old(self).records@.len() && i != handle
                ==> final(self).records@[i] == old(self).records@[i],
            old(self).wf() ==> final(self).wf(),
    {
        let asset = self.records[handle].asset.duplicate();
        self.records.set(handle, GuardRecord {
            asset,
            tracker: MintTracker { is_minted: true },
        });
    }

    /// Whether the record at a handle has been finalized.
    pub fn is_finalized(&self, handle: usize) -> (r: bool)
        requires
            handle < self.records@.len(),
        ensures
            r == self.records@[handle as int].tracker.is_minted,
    {
        self.records[handle].tracker.is_minted
    }
}

/// A successful claim is one-shot: once a registry holds a record for an
/// asset identity, any further claim of the same identity fails, so of
/// two attempts on one identity at most one ever succeeds.
pub proof fn lemma_claim_is_one_shot(before: GuardRegistry, after: GuardRegistry, asset: Seq<u8>)
    requires
        !before.contains_asset(asset),
        after.records@.len() == before.records@.len() + 1,
        after.records@[before.records@.len() as int].asset@ == asset,
    ensures
        after.contains_asset(asset),
{
}

} // verus!
