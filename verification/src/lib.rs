//! Administrative and accounting core for a tiered digital-collectible
//! issuance service.
//!
//! The library governs which collections exist, what fee is owed per
//! issuance, how that fee splits between two beneficiary accounts,
//! per-collection supply caps, a global pause flag, and prevention of
//! duplicate issuance for a given asset identity. The asset-creation
//! engine itself, value transfers and signature checks are external
//! collaborators: this crate computes every decision and amount, and the
//! surrounding program carries them out.

pub mod authority;
pub mod collection;
pub mod config;
pub mod error;
pub mod fees;
pub mod guard;
pub mod identity;
pub mod mint;
pub mod rugged;
pub mod supply;
