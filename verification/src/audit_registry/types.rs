//! The rows, events and steps of the audit registry.

use crate::host::{Address, Bytes32, Symbol};
use vstd::prelude::*;

verus! {

/// Why a call was rejected.
#[derive(Copy, Clone, Debug, Eq, PartialEq, Structural, PartialOrd, Ord)]
pub enum Error {
    AlreadyInitialized,
    NotInitialized,
    /// A contract tried to act on a subject's behalf without being on the
    /// allowlist.
    CallerNotAllowed,
    AttestationExists,
    AttestationNotFound,
    AlreadySuperseded,
    /// The replacement names a different subject than the attestation that it
    /// is to supersede.
    SubjectMismatch,
    SelfSupersede,
}

impl Error {
    /// The code under which callers of the contract see the error.
    pub fn code(self) -> (code: u32)
        ensures
            code == error_code(self),
    {
        match self {
            Error::AlreadyInitialized => 1,
            Error::NotInitialized => 2,
            Error::CallerNotAllowed => 3,
            Error::AttestationExists => 4,
            Error::AttestationNotFound => 5,
            Error::AlreadySuperseded => 6,
            Error::SubjectMismatch => 7,
            Error::SelfSupersede => 8,
        }
    }
}

/// The published error codes.
pub open spec fn error_code(error: Error) -> u32 {
    match error {
        Error::AlreadyInitialized => 1,
        Error::NotInitialized => 2,
        Error::CallerNotAllowed => 3,
        Error::AttestationExists => 4,
        Error::AttestationNotFound => 5,
        Error::AlreadySuperseded => 6,
        Error::SubjectMismatch => 7,
        Error::SelfSupersede => 8,
    }
}

/// Where the registry keeps its entries. `Admin` and `AllowedCaller` live with
/// the contract instance, attestations are persistent entries of their own.
#[derive(Clone, Copy, Debug, Eq, PartialEq, Structural)]
pub enum DataKey {
    Admin,
    /// Presence of this key is the allowlist entry; the value is unused.
    AllowedCaller(Address),
    Attestation(Bytes32),
}

/// A signed inference event.
#[derive(Clone, Debug, Eq, PartialEq)]
pub struct Attestation {
    pub id: Bytes32,
    /// The party that the attestation is about, and that will be billed against
    /// it. Authority is anchored here, never on the submitter.
    pub subject: Address,
    /// Who submitted it. Informational.
    pub submitter: Address,
    pub model_version: Symbol,
    pub policy_ref: Bytes32,
    /// The ledger that it was recorded in.
    pub ledger: u32,
    pub superseded_by: Option<Bytes32>,
}

impl Attestation {
    /// The row after it was replaced by `new_id`.
    pub open spec fn with_successor(self, new_id: Bytes32) -> Attestation {
        Attestation { superseded_by: Some(new_id), ..self }
    }
}

/// An entry together with the key that it is kept under.
#[derive(Clone, Debug, Eq, PartialEq)]
pub enum Entry {
    Admin(Address),
    AllowedCaller(Address),
    Attestation(Attestation),
}

impl Entry {
    /// The key that the entry is kept under.
    pub fn key(&self) -> (key: DataKey)
        ensures
            key == match *self {
                Entry::Admin(_) => DataKey::Admin,
                Entry::AllowedCaller(contract) => DataKey::AllowedCaller(contract),
                Entry::Attestation(attestation) => DataKey::Attestation(attestation.id),
            },
    {
        match self {
            Entry::Admin(_) => DataKey::Admin,
            Entry::AllowedCaller(contract) => DataKey::AllowedCaller(*contract),
            Entry::Attestation(attestation) => DataKey::Attestation(attestation.id),
        }
    }
}

/// A contract was admitted to the caller allowlist.
#[derive(Clone, Copy, Debug, Eq, PartialEq, Structural)]
pub struct CallerAllowed {
    pub contract: Address,
}

/// A contract was removed from the caller allowlist.
#[derive(Clone, Copy, Debug, Eq, PartialEq, Structural)]
pub struct CallerRevoked {
    pub contract: Address,
}

#[derive(Clone, Copy, Debug, Eq, PartialEq, Structural)]
pub struct AttestationRecorded {
    pub id: Bytes32,
    pub subject: Address,
    pub submitter: Address,
}

#[derive(Clone, Copy, Debug, Eq, PartialEq, Structural)]
pub struct AttestationSuperseded {
    pub old_id: Bytes32,
    pub new_id: Bytes32,
}

/// What the registry publishes for those who follow the ledger.
#[derive(Clone, Copy, Debug, Eq, PartialEq, Structural)]
pub enum Event {
    CallerAllowed(CallerAllowed),
    CallerRevoked(CallerRevoked),
    AttestationRecorded(AttestationRecorded),
    AttestationSuperseded(AttestationSuperseded),
}

/// The arguments that a subject's signature is bound to: those that determine
/// the effect. The relay is not among them, so a change of route needs no new
/// signature.
#[derive(Clone, Debug, Eq, PartialEq)]
pub enum AuthArgs {
    Submission { id: Bytes32, model_version: Symbol, policy_ref: Bytes32 },
    Replacement { old_id: Bytes32, new_id: Bytes32 },
}

/// One step of a registry call.
#[derive(Clone, Debug, Eq, PartialEq)]
pub enum Step {
    /// `who` must have signed for this call, or be the contract that makes it.
    RequireAuth { who: Address },
    /// `who` must have signed for this call with exactly these arguments.
    RequireAuthForArgs { who: Address, args: AuthArgs },
    /// Write an entry under its key.
    Write { entry: Entry },
    /// Remove what is held under a key, if anything.
    Remove { key: DataKey },
    /// Renew a persistent entry up to `extend_to` ledgers, where fewer than
    /// `threshold` are left.
    ExtendTtl { key: DataKey, threshold: u32, extend_to: u32 },
    /// Renew the contract instance in the same way.
    ExtendInstanceTtl { threshold: u32, extend_to: u32 },
    Publish { event: Event },
}

} // verus!
