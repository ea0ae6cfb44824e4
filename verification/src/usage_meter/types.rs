//! The rows, events and steps of the usage meter.

use crate::host::{Address, Bytes32};
use vstd::prelude::*;

verus! {

/// Why a call was rejected.
#[derive(Copy, Clone, Debug, Eq, PartialEq, Structural, PartialOrd, Ord)]
pub enum Error {
    AlreadyInitialized,
    NotInitialized,
    /// No registry is configured, so nothing can be verified.
    RegistryNotSet,
    /// This attestation has already been metered. A second record against it
    /// would be double billing.
    AlreadyMetered,
    /// Usage came without a verifiable attestation, and the payer has not opted
    /// into that.
    AttestationRequired,
    ZeroUnits,
    RecordNotFound,
    UnitsOverflow,
}

impl Error {
    /// The code under which callers of the contract see the error.
    pub fn code(self) -> (code: u32)
        ensures
            code == error_code(self),
    {
        match self {
            Error::AlreadyInitialized => 1,
            Error::NotInitialized => 2,
            Error::RegistryNotSet => 3,
            Error::AlreadyMetered => 4,
            Error::AttestationRequired => 5,
            Error::ZeroUnits => 6,
            Error::RecordNotFound => 7,
            Error::UnitsOverflow => 8,
        }
    }
}

/// The published error codes.
pub open spec fn error_code(error: Error) -> u32 {
    match error {
        Error::AlreadyInitialized => 1,
        Error::NotInitialized => 2,
        Error::RegistryNotSet => 3,
        Error::AlreadyMetered => 4,
        Error::AttestationRequired => 5,
        Error::ZeroUnits => 6,
        Error::RecordNotFound => 7,
        Error::UnitsOverflow => 8,
    }
}

/// What to do with usage that has no verifiable attestation behind it. A payer
/// accepts unattested billing only by opting into it.
#[derive(Clone, Copy, Debug, Eq, PartialEq, Structural)]
pub enum UnattestedPolicy {
    /// Refuse the write. The default.
    Reject,
    /// Record it, flagged as unattested, and keep it in a separate total so that
    /// it can be priced on different terms.
    RecordUnattested,
}

/// Where the meter keeps its entries. `Admin`, `Registry` and `Counter` live with
/// the contract instance, the others are persistent entries of their own.
#[derive(Clone, Copy, Debug, Eq, PartialEq, Structural)]
pub enum DataKey {
    Admin,
    Registry,
    Policy(Address),
    Record(u64),
    /// Presence marks an attestation as already metered.
    Metered(Bytes32),
    Counter,
    AttestedUnits(Address),
    UnattestedUnits(Address),
}

/// Metered usage of one payer.
#[derive(Clone, Copy, Debug, Eq, PartialEq, Structural)]
pub struct UsageRecord {
    pub id: u64,
    pub payer: Address,
    /// The attestation that this usage was priced against. `None` only where
    /// the payer opted into unattested usage.
    pub attestation_id: Option<Bytes32>,
    pub units: u64,
    pub attested: bool,
    /// The ledger that it was recorded in.
    pub ledger: u32,
}

/// An entry together with the key that it is kept under.
#[derive(Clone, Copy, Debug, Eq, PartialEq, Structural)]
pub enum Entry {
    Admin(Address),
    Registry(Address),
    Policy(Address, UnattestedPolicy),
    Record(UsageRecord),
    Metered(Bytes32),
    Counter(u64),
    AttestedUnits(Address, u64),
    UnattestedUnits(Address, u64),
}

impl Entry {
    /// The key that the entry is kept under.
    pub open spec fn spec_key(self) -> DataKey {
        match self {
            Entry::Admin(_) => DataKey::Admin,
            Entry::Registry(_) => DataKey::Registry,
            Entry::Policy(payer, _) => DataKey::Policy(payer),
            Entry::Record(record) => DataKey::Record(record.id),
            Entry::Metered(id) => DataKey::Metered(id),
            Entry::Counter(_) => DataKey::Counter,
            Entry::AttestedUnits(payer, _) => DataKey::AttestedUnits(payer),
            Entry::UnattestedUnits(payer, _) => DataKey::UnattestedUnits(payer),
        }
    }

    /// The key that the entry is kept under.
    #[verifier::when_used_as_spec(spec_key)]
    pub fn key(self) -> (key: DataKey)
        ensures
            key == self.key(),
    {
        match self {
            Entry::Admin(_) => DataKey::Admin,
            Entry::Registry(_) => DataKey::Registry,
            Entry::Policy(payer, _) => DataKey::Policy(payer),
            Entry::Record(record) => DataKey::Record(record.id),
            Entry::Metered(id) => DataKey::Metered(id),
            Entry::Counter(_) => DataKey::Counter,
            Entry::AttestedUnits(payer, _) => DataKey::AttestedUnits(payer),
            Entry::UnattestedUnits(payer, _) => DataKey::UnattestedUnits(payer),
        }
    }
}

#[derive(Clone, Copy, Debug, Eq, PartialEq, Structural)]
pub struct UsageRecorded {
    pub payer: Address,
    pub attested: bool,
    pub id: u64,
    pub units: u64,
    pub attestation_id: Option<Bytes32>,
}

#[derive(Clone, Copy, Debug, Eq, PartialEq, Structural)]
pub struct PolicySet {
    pub payer: Address,
    pub policy: UnattestedPolicy,
}

#[derive(Clone, Copy, Debug, Eq, PartialEq, Structural)]
pub struct RegistrySet {
    pub registry: Address,
}

/// What the meter publishes for those who follow the ledger.
#[derive(Clone, Copy, Debug, Eq, PartialEq, Structural)]
pub enum Event {
    UsageRecorded(UsageRecorded),
    PolicySet(PolicySet),
    RegistrySet(RegistrySet),
}

/// The arguments that a payer's signature is bound to.
#[derive(Clone, Copy, Debug, Eq, PartialEq, Structural)]
pub enum AuthArgs {
    Policy { policy: UnattestedPolicy },
    Usage { attestation_id: Option<Bytes32>, units: u64 },
}

/// A question to a registry: does `id` exist, is it not superseded, and does it
/// belong to `subject`?
#[derive(Clone, Copy, Debug, Eq, PartialEq, Structural)]
pub struct Verification {
    pub registry: Address,
    pub id: Bytes32,
    pub subject: Address,
}

/// Usage that was signed for and waits for the registry's answer, where there is
/// a question to ask.
#[derive(Clone, Copy, Debug, Eq, PartialEq, Structural)]
pub struct PendingUsage {
    pub payer: Address,
    pub units: u64,
    pub question: Option<Verification>,
}

/// One step of a meter call.
#[derive(Clone, Copy, Debug, Eq, PartialEq, Structural)]
pub enum Step {
    /// `who` must have signed for this call.
    RequireAuth { who: Address },
    /// `who` must have signed for this call with exactly these arguments.
    RequireAuthForArgs { who: Address, args: AuthArgs },
    /// Write an entry under its key.
    Write { entry: Entry },
    /// Renew a persistent entry up to `extend_to` ledgers, where fewer than
    /// `threshold` are left.
    ExtendTtl { key: DataKey, threshold: u32, extend_to: u32 },
    /// Renew the contract instance in the same way.
    ExtendInstanceTtl { threshold: u32, extend_to: u32 },
    Publish { event: Event },
}

} // verus!
