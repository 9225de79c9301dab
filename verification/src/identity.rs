//! Account identities.
//!
//! Every external account — admin, treasuries, collections, assets — is
//! referenced by a 32-byte identity. The core never inspects what an
//! identity points at; it only stores identities and compares them for
//! equality (signature checks happen in the host before the core runs).

use vstd::prelude::*;

verus! {

/// The byte length of every account identity.
pub const IDENTITY_LEN: usize = 32;

/// A 32-byte account identity, compared only for equality.
#[derive(Clone, Debug)]
pub struct Identity {
    pub bytes: Vec<u8>,
}

impl View for Identity {
    type V = Seq<u8>;

    open spec fn view(&self) -> Seq<u8> {
        self.bytes@
    }
}

impl Identity {
    /// A well-formed identity holds exactly 32 bytes.
    pub open spec fn wf(&self) -> bool {
        self.bytes@.len() == IDENTITY_LEN
    }

    /// Builds an identity from raw bytes; rejects any length but 32.
    pub fn from_bytes(bytes: Vec<u8>) -> (r: Option<Identity>)
        ensures
            r matches Some(id) ==> id.wf() && id@ == bytes@,
            r is None <==> bytes@.len() != IDENTITY_LEN,
    {
        if bytes.len() == IDENTITY_LEN {
            Some(Identity { bytes })
        } else {
            None
        }
    }

    /// The all-zero identity, used as a placeholder before a collection
    /// is bound.
    pub fn zero() -> (r: Identity)
        ensures
            r.wf(),
            forall|i: int| 0 <= i < r@.len() ==> r@[i] == 0u8,
    {
        let mut bytes: Vec<u8> = Vec::new();
        let mut i: usize = 0;
        while i < IDENTITY_LEN
            invariant
                i <= IDENTITY_LEN,
                bytes@.len() == i,
                forall|j: int| 0 <= j < i ==> bytes@[j] == 0u8,
            decreases IDENTITY_LEN - i,
        {
            bytes.push(0u8);
            i = i + 1;
        }
        Identity { bytes }
    }

    /// The raw bytes of the identity, for handing to the host.
    pub fn as_bytes(&self) -> (r: &Vec<u8>)
        ensures
            r@ == self@,
    {
        &self.bytes
    }

    /// A copy of the identity that provably holds the same bytes.
    pub fn duplicate(&self) -> (r: Identity)
        ensures
            r@ == self@,
    {
        let bytes = self.bytes.clone();
        proof {
            assert(bytes@ =~= self.bytes@);
        }
        Identity { bytes }
    }

    /// Byte-for-byte equality of two identities.
    pub fn equals(&self, other: &Identity) -> (r: bool)
        ensures
            r == (self@ == other@),
    {
        if self.bytes.len() != other.bytes.len() {
            assert(self@.len() != other@.len());
            return false;
        }
        let n = self.bytes.len();
        let mut i: usize = 0;
        while i < n
            invariant
                i <= n,
                n == self.bytes@.len(),
                n == other.bytes@.len(),
                forall|j: int| 0 <= j < i ==> self.bytes@[j] == other.bytes@[j],
            decreases n - i,
        {
            if self.bytes[i] != other.bytes[i] {
                return false;
            }
            i = i + 1;
        }
        proof {
            assert(self@ =~= other@);
        }
        true
    }
}

} // verus!
