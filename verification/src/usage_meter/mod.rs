//! Metered billing units, linked to the attestations that justify them.
//!
//! A usage record is only as trustworthy as its link back to the audit registry,
//! so every record carries the attestation that it was priced against, verified
//! when it is written rather than asserted by the caller.

pub mod calls;
pub mod laws;
pub mod ledger;
pub mod meter;
pub mod rules;
pub mod types;
