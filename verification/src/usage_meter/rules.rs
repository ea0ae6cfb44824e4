//! What each meter call decides, as mathematics: how it ends, and which steps it
//! takes, given the entries that it reads.

use super::types::{
    AuthArgs, DataKey, Entry, Error, Event, PendingUsage, PolicySet, RegistrySet, Step,
    UnattestedPolicy, UsageRecord, UsageRecorded, Verification,
};
use crate::host::{Address, Bytes32, PERSISTENT_THRESHOLD, PERSISTENT_TTL};
use vstd::prelude::*;

verus! {

/// A payer's effective policy.
pub open spec fn policy_of(held: Option<UnattestedPolicy>) -> UnattestedPolicy {
    match held {
        Some(policy) => policy,
        None => UnattestedPolicy::Reject,
    }
}

/// A payer's total, zero where nothing was metered.
pub open spec fn total_of(held: Option<u64>) -> u64 {
    match held {
        Some(total) => total,
        None => 0,
    }
}

/// The record that the ledger holds.
pub open spec fn get_usage_end(held: Option<UsageRecord>) -> Result<UsageRecord, Error> {
    match held {
        Some(record) => Ok(record),
        None => Err(Error::RecordNotFound),
    }
}

/// Whether an attestation was metered, by what the ledger holds for it.
pub open spec fn metered_mark(metered: Option<()>) -> bool {
    metered is Some
}

/// The id after the last one that was given out.
pub open spec fn id_after(counter: Option<u64>) -> int {
    match counter {
        Some(last) => last + 1,
        None => 1,
    }
}

/// Writing a persistent entry, then renewing it.
pub open spec fn saving(entry: Entry) -> Seq<Step> {
    seq![
        Step::Write { entry },
        Step::ExtendTtl {
            key: entry.key(),
            threshold: PERSISTENT_THRESHOLD,
            extend_to: PERSISTENT_TTL,
        },
    ]
}

/// Renewing the contract instance.
pub open spec fn bumping() -> Step {
    Step::ExtendInstanceTtl { threshold: PERSISTENT_THRESHOLD, extend_to: PERSISTENT_TTL }
}

pub open spec fn initialize_end(held: Option<Address>) -> Result<(), Error> {
    match held {
        Some(_) => Err(Error::AlreadyInitialized),
        None => Ok(()),
    }
}

pub open spec fn initialize_steps(held: Option<Address>, admin: Address) -> Seq<Step> {
    if held is Some {
        seq![]
    } else {
        seq![
            Step::RequireAuth { who: admin },
            Step::Write { entry: Entry::Admin(admin) },
            bumping(),
        ]
    }
}

pub open spec fn set_registry_end(admin: Option<Address>) -> Result<(), Error> {
    match admin {
        Some(_) => Ok(()),
        None => Err(Error::NotInitialized),
    }
}

pub open spec fn set_registry_steps(admin: Option<Address>, registry: Address) -> Seq<Step> {
    match admin {
        None => seq![],
        Some(who) => seq![
            Step::RequireAuth { who },
            Step::Write { entry: Entry::Registry(registry) },
            bumping(),
            Step::Publish { event: Event::RegistrySet(RegistrySet { registry }) },
        ],
    }
}

pub open spec fn set_unattested_policy_steps(
    payer: Address,
    policy: UnattestedPolicy,
) -> Seq<Step> {
    seq![Step::RequireAuthForArgs { who: payer, args: AuthArgs::Policy { policy } }] + saving(
        Entry::Policy(payer, policy),
    ) + seq![Step::Publish { event: Event::PolicySet(PolicySet { payer, policy }) }]
}

pub open spec fn record_usage_end(
    metered: Option<()>,
    registry: Option<Address>,
    payer: Address,
    attestation_id: Option<Bytes32>,
    units: u64,
) -> Result<PendingUsage, Error> {
    if units == 0 {
        Err(Error::ZeroUnits)
    } else {
        match attestation_id {
            None => Ok(PendingUsage { payer, units, question: None }),
            Some(id) => if metered is Some {
                Err(Error::AlreadyMetered)
            } else {
                match registry {
                    None => Err(Error::RegistryNotSet),
                    Some(registry) => Ok(
                        PendingUsage {
                            payer,
                            units,
                            question: Some(Verification { registry, id, subject: payer }),
                        },
                    ),
                }
            },
        }
    }
}

pub open spec fn record_usage_steps(
    payer: Address,
    attestation_id: Option<Bytes32>,
    units: u64,
) -> Seq<Step> {
    if units == 0 {
        seq![]
    } else {
        seq![
            Step::RequireAuthForArgs {
                who: payer,
                args: AuthArgs::Usage { attestation_id, units },
            },
        ]
    }
}

/// The attestation that usage turns out to be backed by: the one that was asked
/// about, where the registry vouches for it.
pub open spec fn backed_by(pending: PendingUsage, verified: bool) -> Option<Bytes32> {
    match pending.question {
        Some(question) => if verified {
            Some(question.id)
        } else {
            None
        },
        None => None,
    }
}

/// Where the total is kept that usage adds to.
pub open spec fn units_key_of(pending: PendingUsage, verified: bool) -> DataKey {
    if backed_by(pending, verified) is Some {
        DataKey::AttestedUnits(pending.payer)
    } else {
        DataKey::UnattestedUnits(pending.payer)
    }
}

/// The row of new usage.
pub open spec fn new_record(
    id: u64,
    pending: PendingUsage,
    verified: bool,
    sequence: u32,
) -> UsageRecord {
    UsageRecord {
        id,
        payer: pending.payer,
        attestation_id: backed_by(pending, verified),
        units: pending.units,
        attested: backed_by(pending, verified) is Some,
        ledger: sequence,
    }
}

/// A payer's total of attested or of unattested units, as an entry.
pub open spec fn units_entry(payer: Address, attested: bool, total: u64) -> Entry {
    if attested {
        Entry::AttestedUnits(payer, total)
    } else {
        Entry::UnattestedUnits(payer, total)
    }
}

pub open spec fn conclude_usage_end(
    policy: Option<UnattestedPolicy>,
    counter: Option<u64>,
    total: Option<u64>,
    pending: PendingUsage,
    verified: bool,
) -> Result<u64, Error> {
    if backed_by(pending, verified) is None && policy_of(policy) == UnattestedPolicy::Reject {
        Err(Error::AttestationRequired)
    } else if total_of(total) + pending.units > u64::MAX {
        Err(Error::UnitsOverflow)
    } else {
        Ok(id_after(counter) as u64)
    }
}

pub open spec fn conclude_usage_steps(
    policy: Option<UnattestedPolicy>,
    counter: Option<u64>,
    total: Option<u64>,
    sequence: u32,
    pending: PendingUsage,
    verified: bool,
) -> Seq<Step> {
    match conclude_usage_end(policy, counter, total, pending, verified) {
        Err(_) => seq![],
        Ok(id) => {
            let record = new_record(id, pending, verified, sequence);
            let burned = match backed_by(pending, verified) {
                Some(attestation) => saving(Entry::Metered(attestation)),
                None => seq![],
            };
            burned + seq![Step::Write { entry: Entry::Counter(id) }] + saving(Entry::Record(record))
                + saving(
                units_entry(
                    pending.payer,
                    record.attested,
                    (total_of(total) + pending.units) as u64,
                ),
            ) + seq![
                bumping(),
                Step::Publish {
                    event: Event::UsageRecorded(
                        UsageRecorded {
                            payer: pending.payer,
                            attested: record.attested,
                            id,
                            units: pending.units,
                            attestation_id: record.attestation_id,
                        },
                    ),
                },
            ]
        },
    }
}

} // verus!
