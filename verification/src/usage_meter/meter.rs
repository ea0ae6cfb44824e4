//! The calls of the usage meter.
//!
//! A call takes the entries that it reads from the ledger (`None` where the
//! ledger holds nothing under the key), then its arguments.
//!
//! Recording usage asks the audit registry a question in the middle, so it comes
//! in two parts: [`UsageMeter::record_usage`] checks the request and says what
//! to ask, and [`UsageMeter::conclude_usage`] takes the answer and decides.

use super::rules::{
    backed_by, bumping, conclude_usage_end, conclude_usage_steps, get_usage_end, id_after,
    initialize_end, initialize_steps, metered_mark, policy_of, record_usage_end,
    record_usage_steps, saving, set_registry_end, set_registry_steps, set_unattested_policy_steps,
    total_of, units_entry, units_key_of,
};
use super::types::{
    AuthArgs, DataKey, Entry, Error, Event, PendingUsage, PolicySet, RegistrySet, Step,
    UnattestedPolicy, UsageRecord, UsageRecorded, Verification,
};
use crate::host::{Address, Bytes32, Plan, PERSISTENT_THRESHOLD, PERSISTENT_TTL};
use vstd::prelude::*;

verus! {

/// Metered billing units.
pub struct UsageMeter;

impl UsageMeter {
    /// One-time initialization, signed by the admin.
    pub fn initialize(held: Option<Address>, admin: Address) -> (plan: Plan<Step, (), Error>)
        ensures
            plan@.end == initialize_end(held),
            plan@.steps == initialize_steps(held, admin),
    {
        let mut steps: Vec<Step> = Vec::new();
        if held.is_some() {
            return Plan::fail(steps, Error::AlreadyInitialized);
        }
        steps.push(Step::RequireAuth { who: admin });
        steps.push(Step::Write { entry: Entry::Admin(admin) });
        Self::bump_instance(&mut steps);
        Plan::done(steps, ())
    }

    /// Point the meter at a registry. Admin only, and changeable.
    pub fn set_registry(admin: Option<Address>, registry: Address) -> (plan: Plan<Step, (), Error>)
        ensures
            plan@.end == set_registry_end(admin),
            plan@.steps == set_registry_steps(admin, registry),
    {
        let mut steps: Vec<Step> = Vec::new();
        match Self::admin(admin) {
            Ok(who) => steps.push(Step::RequireAuth { who }),
            Err(error) => return Plan::fail(steps, error),
        }
        steps.push(Step::Write { entry: Entry::Registry(registry) });
        Self::bump_instance(&mut steps);
        steps.push(Step::Publish { event: Event::RegistrySet(RegistrySet { registry }) });
        Plan::done(steps, ())
    }

    /// Set a payer's policy for usage with no verifiable attestation.
    ///
    /// Authorized by the payer, not the admin: it decides whether the payer can
    /// be billed for usage that nothing on the ledger vouches for.
    pub fn set_unattested_policy(payer: Address, policy: UnattestedPolicy) -> (plan: Plan<
        Step,
        (),
        Error,
    >)
        ensures
            plan@.end == Ok::<(), Error>(()),
            plan@.steps == set_unattested_policy_steps(payer, policy),
    {
        let mut steps: Vec<Step> = Vec::new();
        steps.push(Step::RequireAuthForArgs { who: payer, args: AuthArgs::Policy { policy } });
        Self::save(Entry::Policy(payer, policy), &mut steps);
        steps.push(Step::Publish { event: Event::PolicySet(PolicySet { payer, policy }) });
        Plan::done(steps, ())
    }

    /// A payer's effective policy. Unset means `Reject`.
    pub fn unattested_policy(held: Option<UnattestedPolicy>) -> (policy: UnattestedPolicy)
        ensures
            policy == policy_of(held),
    {
        match held {
            Some(policy) => policy,
            None => UnattestedPolicy::Reject,
        }
    }

    /// Record metered usage for `payer`: check the request, and say what is to be
    /// verified.
    ///
    /// The payer's signature is bound to the attestation and the unit count, so
    /// an intermediate cannot spend it on a larger metering. `metered` is what
    /// the ledger holds for the attestation, if there is one: a replay is turned
    /// away before the registry is asked.
    pub fn record_usage(
        metered: Option<()>,
        registry: Option<Address>,
        payer: Address,
        attestation_id: Option<Bytes32>,
        units: u64,
    ) -> (plan: Plan<Step, PendingUsage, Error>)
        ensures
            plan@.end == record_usage_end(metered, registry, payer, attestation_id, units),
            plan@.steps == record_usage_steps(payer, attestation_id, units),
    {
        let mut steps: Vec<Step> = Vec::new();
        if units == 0 {
            return Plan::fail(steps, Error::ZeroUnits);
        }
        steps.push(
            Step::RequireAuthForArgs {
                who: payer,
                args: AuthArgs::Usage { attestation_id, units },
            },
        );
        let question = match attestation_id {
            Some(id) => {
                if Self::is_metered(metered) {
                    return Plan::fail(steps, Error::AlreadyMetered);
                }
                match Self::verify(registry, id, payer) {
                    Ok(question) => Some(question),
                    Err(error) => return Plan::fail(steps, error),
                }
            },
            None => None,
        };
        Plan::done(steps, PendingUsage { payer, units, question })
    }

    /// Record metered usage for `payer`, given the registry's answer.
    ///
    /// `verified` is what the registry said; it is not looked at where there was
    /// no question. `total` is what the ledger holds under
    /// [`UsageMeter::units_key`].
    ///
    /// Only a verified attestation is burned: an id that failed verification has
    /// metered nothing, and marking it would block the real attestation that
    /// later takes the id. A record that failed verification does not keep the
    /// reference, which would make it look sourced.
    pub fn conclude_usage(
        policy: Option<UnattestedPolicy>,
        counter: Option<u64>,
        total: Option<u64>,
        sequence: u32,
        pending: PendingUsage,
        verified: bool,
    ) -> (plan: Plan<Step, u64, Error>)
        requires
            conclude_usage_end(policy, counter, total, pending, verified) != Err::<u64, Error>(
                Error::AttestationRequired,
            ) ==> id_after(counter) <= u64::MAX,
        ensures
            plan@.end == conclude_usage_end(policy, counter, total, pending, verified),
            plan@.steps == conclude_usage_steps(
                policy,
                counter,
                total,
                sequence,
                pending,
                verified,
            ),
    {
        let mut steps: Vec<Step> = Vec::new();
        let attestation_id = Self::backing(&pending, verified);
        let attested: bool = attestation_id.is_some();
        if !attested && Self::unattested_policy(policy) == UnattestedPolicy::Reject {
            return Plan::fail(steps, Error::AttestationRequired);
        }
        let payer = pending.payer;
        let units: u64 = pending.units;
        let updated = match Self::add_units(total, payer, units, attested) {
            Ok(entry) => entry,
            Err(error) => return Plan::fail(steps, error),
        };
        if let Some(id) = attestation_id {
            Self::save(Entry::Metered(id), &mut steps);
        }
        let id = Self::next_id(counter, &mut steps);
        let record = UsageRecord { id, payer, attestation_id, units, attested, ledger: sequence };
        Self::save(Entry::Record(record), &mut steps);
        Self::save(updated, &mut steps);
        Self::bump_instance(&mut steps);
        steps.push(
            Step::Publish {
                event: Event::UsageRecorded(
                    UsageRecorded { payer, attested, id, units, attestation_id },
                ),
            },
        );
        Plan::done(steps, id)
    }

    /// Where the total is kept that `pending` adds to, given the registry's
    /// answer.
    pub fn units_key(pending: &PendingUsage, verified: bool) -> (key: DataKey)
        ensures
            key == units_key_of(*pending, verified),
            key == if backed_by(*pending, verified) is Some {
                DataKey::AttestedUnits(pending.payer)
            } else {
                DataKey::UnattestedUnits(pending.payer)
            },
    {
        if Self::backing(pending, verified).is_some() {
            DataKey::AttestedUnits(pending.payer)
        } else {
            DataKey::UnattestedUnits(pending.payer)
        }
    }

    /// The record that the ledger holds.
    pub fn get_usage(held: Option<UsageRecord>) -> (result: Result<UsageRecord, Error>)
        ensures
            result == get_usage_end(held),
            result == match held {
                Some(record) => Ok::<UsageRecord, Error>(record),
                None => Err(Error::RecordNotFound),
            },
    {
        match held {
            Some(record) => Ok(record),
            None => Err(Error::RecordNotFound),
        }
    }

    /// Whether an attestation has been metered, by what the ledger holds for it.
    pub fn is_metered(metered: Option<()>) -> (b: bool)
        ensures
            b == metered_mark(metered),
            b == (metered is Some),
    {
        metered.is_some()
    }

    /// Units backed by a verified attestation. Kept apart from the unattested
    /// total so that the two can be priced on different terms.
    pub fn attested_units(held: Option<u64>) -> (units: u64)
        ensures
            units == total_of(held),
    {
        Self::total(held)
    }

    pub fn unattested_units(held: Option<u64>) -> (units: u64)
        ensures
            units == total_of(held),
    {
        Self::total(held)
    }

    pub fn version() -> (version: u32)
        ensures
            version == 2,
    {
        2
    }

    /// The question to put to the configured registry.
    fn verify(registry: Option<Address>, id: Bytes32, payer: Address) -> (result: Result<
        Verification,
        Error,
    >)
        ensures
            result == match registry {
                Some(registry) => Ok::<Verification, Error>(
                    Verification { registry, id, subject: payer },
                ),
                None => Err(Error::RegistryNotSet),
            },
    {
        match registry {
            Some(registry) => Ok(Verification { registry, id, subject: payer }),
            None => Err(Error::RegistryNotSet),
        }
    }

    fn backing(pending: &PendingUsage, verified: bool) -> (attestation_id: Option<Bytes32>)
        ensures
            attestation_id == backed_by(*pending, verified),
    {
        match pending.question {
            Some(question) => if verified {
                Some(question.id)
            } else {
                None
            },
            None => None,
        }
    }

    fn admin(held: Option<Address>) -> (result: Result<Address, Error>)
        ensures
            result == match held {
                Some(who) => Ok::<Address, Error>(who),
                None => Err(Error::NotInitialized),
            },
    {
        match held {
            Some(who) => Ok(who),
            None => Err(Error::NotInitialized),
        }
    }

    fn total(held: Option<u64>) -> (total: u64)
        ensures
            total == total_of(held),
    {
        match held {
            Some(total) => total,
            None => 0,
        }
    }

    /// Give out the next id.
    fn next_id(counter: Option<u64>, steps: &mut Vec<Step>) -> (id: u64)
        requires
            id_after(counter) <= u64::MAX,
        ensures
            id == id_after(counter),
            final(steps)@ == old(steps)@.push(Step::Write { entry: Entry::Counter(id) }),
    {
        let next: u64 = match counter {
            Some(last) => last + 1,
            None => 1,
        };
        steps.push(Step::Write { entry: Entry::Counter(next) });
        next
    }

    /// The payer's new total. Totals must not wrap: a wrapped total would
    /// silently zero an invoice rather than fail it.
    fn add_units(total: Option<u64>, payer: Address, units: u64, attested: bool) -> (result: Result<
        Entry,
        Error,
    >)
        ensures
            result == if total_of(total) + units > u64::MAX {
                Err::<Entry, Error>(Error::UnitsOverflow)
            } else {
                Ok(units_entry(payer, attested, (total_of(total) + units) as u64))
            },
    {
        let current: u64 = Self::total(total);
        match current.checked_add(units) {
            Some(updated) => if attested {
                Ok(Entry::AttestedUnits(payer, updated))
            } else {
                Ok(Entry::UnattestedUnits(payer, updated))
            },
            None => Err(Error::UnitsOverflow),
        }
    }

    fn save(entry: Entry, steps: &mut Vec<Step>)
        ensures
            final(steps)@ == old(steps)@ + saving(entry),
    {
        steps.push(Step::Write { entry });
        steps.push(
            Step::ExtendTtl {
                key: entry.key(),
                threshold: PERSISTENT_THRESHOLD,
                extend_to: PERSISTENT_TTL,
            },
        );
    }

    fn bump_instance(steps: &mut Vec<Step>)
        ensures
            final(steps)@ == old(steps)@.push(bumping()),
    {
        steps.push(
            Step::ExtendInstanceTtl {
                threshold: PERSISTENT_THRESHOLD,
                extend_to: PERSISTENT_TTL,
            },
        );
    }
}

} // verus!
