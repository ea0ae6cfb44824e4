//! Attestation registry.
//!
//! An attestation is recorded with the signature of its subject, the party that
//! will be billed against it. Whoever submits it carries no authority of their
//! own. The usage meter reads from here.

pub mod calls;
pub mod laws;
pub mod ledger;
pub mod registry;
pub mod rules;
pub mod types;
