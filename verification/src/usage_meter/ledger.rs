//! A model of the ledger that the meter runs on, and of what its calls do to it.
//! The laws of the meter are stated over this model.

use super::rules::{
    conclude_usage_end, conclude_usage_steps, id_after, initialize_end, initialize_steps,
    policy_of, record_usage_end, record_usage_steps, set_registry_end, set_registry_steps,
    set_unattested_policy_steps, total_of,
};
use super::types::{Entry, Error, Step, UnattestedPolicy, UsageRecord};
use crate::host::{Address, Bytes32};
use vstd::prelude::*;

verus! {

/// The meter's entries.
#[verifier::ext_equal]
pub struct Ledger {
    pub admin: Option<Address>,
    pub registry: Option<Address>,
    pub counter: Option<u64>,
    pub policies: Map<Address, UnattestedPolicy>,
    pub records: Map<u64, UsageRecord>,
    pub metered: Set<Bytes32>,
    pub attested: Map<Address, u64>,
    pub unattested: Map<Address, u64>,
}

/// A call that can change the ledger. `verified` is what the registry answers if
/// it is asked, `sequence` the ledger that the call runs in.
pub enum Call {
    Initialize { admin: Address },
    SetRegistry { registry: Address },
    SetPolicy { payer: Address, policy: UnattestedPolicy },
    RecordUsage {
        payer: Address,
        attestation_id: Option<Bytes32>,
        units: u64,
        verified: bool,
        sequence: u32,
    },
}

/// The error that a result carries.
pub open spec fn error_in<T>(end: Result<T, Error>) -> Option<Error> {
    match end {
        Ok(_) => None,
        Err(error) => Some(error),
    }
}

/// What a map holds under a key.
pub open spec fn held<K, V>(entries: Map<K, V>, key: K) -> Option<V> {
    if entries.contains_key(key) {
        Some(entries[key])
    } else {
        None
    }
}

/// The units that the first `n` records bill to `payer`, attested or not.
pub open spec fn billed(
    records: Map<u64, UsageRecord>,
    n: nat,
    payer: Address,
    attested: bool,
) -> int
    decreases n,
{
    if n == 0 {
        0
    } else {
        let record = records[n as u64];
        billed(records, (n - 1) as nat, payer, attested) + if record.payer == payer
            && record.attested == attested {
            record.units as int
        } else {
            0
        }
    }
}

impl Ledger {
    /// The ledger of a meter that was just deployed.
    pub open spec fn fresh() -> Ledger {
        Ledger {
            admin: None,
            registry: None,
            counter: None,
            policies: Map::empty(),
            records: Map::empty(),
            metered: Set::empty(),
            attested: Map::empty(),
            unattested: Map::empty(),
        }
    }

    /// The number of records.
    pub open spec fn count(self) -> int {
        id_after(self.counter) - 1
    }

    /// The policy that `payer` is under.
    pub open spec fn policy(self, payer: Address) -> UnattestedPolicy {
        policy_of(held(self.policies, payer))
    }

    /// What the ledger holds for an attestation that was metered.
    pub open spec fn mark(self, id: Bytes32) -> Option<()> {
        if self.metered.contains(id) {
            Some(())
        } else {
            None
        }
    }

    /// What the ledger holds as `payer`'s total.
    pub open spec fn total_entry(self, payer: Address, attested: bool) -> Option<u64> {
        if attested {
            held(self.attested, payer)
        } else {
            held(self.unattested, payer)
        }
    }

    /// `payer`'s total of attested or of unattested units.
    pub open spec fn total(self, payer: Address, attested: bool) -> u64 {
        total_of(self.total_entry(payer, attested))
    }

    /// The ledger after one step.
    pub open spec fn after(self, step: Step) -> Ledger {
        match step {
            Step::Write { entry } => match entry {
                Entry::Admin(admin) => Ledger { admin: Some(admin), ..self },
                Entry::Registry(registry) => Ledger { registry: Some(registry), ..self },
                Entry::Counter(counter) => Ledger { counter: Some(counter), ..self },
                Entry::Policy(payer, policy) => Ledger {
                    policies: self.policies.insert(payer, policy),
                    ..self
                },
                Entry::Record(record) => Ledger {
                    records: self.records.insert(record.id, record),
                    ..self
                },
                Entry::Metered(id) => Ledger { metered: self.metered.insert(id), ..self },
                Entry::AttestedUnits(payer, total) => Ledger {
                    attested: self.attested.insert(payer, total),
                    ..self
                },
                Entry::UnattestedUnits(payer, total) => Ledger {
                    unattested: self.unattested.insert(payer, total),
                    ..self
                },
            },
            _ => self,
        }
    }

    /// The ledger after the first `n` of `steps`.
    pub open spec fn after_first(self, steps: Seq<Step>, n: nat) -> Ledger
        decreases n,
    {
        if n == 0 {
            self
        } else {
            self.after_first(steps, (n - 1) as nat).after(steps[n - 1])
        }
    }

    /// The error that `call` ends in, if any.
    pub open spec fn error_of(self, call: Call) -> Option<Error> {
        match call {
            Call::Initialize { .. } => error_in(initialize_end(self.admin)),
            Call::SetRegistry { .. } => error_in(set_registry_end(self.admin)),
            Call::SetPolicy { .. } => None,
            Call::RecordUsage { payer, attestation_id, units, verified, .. } => {
                let mark = match attestation_id {
                    Some(id) => self.mark(id),
                    None => None,
                };
                match record_usage_end(mark, self.registry, payer, attestation_id, units) {
                    Err(error) => Some(error),
                    Ok(pending) => error_in(
                        conclude_usage_end(
                            held(self.policies, payer),
                            self.counter,
                            self.total_entry(payer, attestation_id is Some && verified),
                            pending,
                            verified,
                        ),
                    ),
                }
            },
        }
    }

    /// The steps that `call` takes.
    pub open spec fn steps_of(self, call: Call) -> Seq<Step> {
        match call {
            Call::Initialize { admin } => initialize_steps(self.admin, admin),
            Call::SetRegistry { registry } => set_registry_steps(self.admin, registry),
            Call::SetPolicy { payer, policy } => set_unattested_policy_steps(payer, policy),
            Call::RecordUsage { payer, attestation_id, units, verified, sequence } => {
                let mark = match attestation_id {
                    Some(id) => self.mark(id),
                    None => None,
                };
                let first = record_usage_steps(payer, attestation_id, units);
                match record_usage_end(mark, self.registry, payer, attestation_id, units) {
                    Err(_) => first,
                    Ok(pending) => first + conclude_usage_steps(
                        held(self.policies, payer),
                        self.counter,
                        self.total_entry(payer, attestation_id is Some && verified),
                        sequence,
                        pending,
                        verified,
                    ),
                }
            },
        }
    }

    /// The ledger after `call`. A call that ends in an error is undone.
    pub open spec fn after_call(self, call: Call) -> Ledger {
        if self.error_of(call) is Some {
            self
        } else {
            self.after_first(self.steps_of(call), self.steps_of(call).len())
        }
    }

    /// The calls that can run: ids must not run out of their machine word.
    pub open spec fn runs(self, call: Call) -> bool {
        self.error_of(call) is None && call is RecordUsage ==> id_after(self.counter) <= u64::MAX
    }

    /// The ledger after a run of calls. A call that cannot run is undone.
    pub open spec fn after_calls(self, calls: Seq<Call>) -> Ledger
        decreases calls.len(),
    {
        if calls.len() == 0 {
            self
        } else {
            let before = self.after_calls(calls.drop_last());
            if before.runs(calls.last()) {
                before.after_call(calls.last())
            } else {
                before
            }
        }
    }

    /// Ids count up from one without a gap, and each record is kept under its
    /// own.
    pub open spec fn numbered(self) -> bool {
        &&& forall|id: u64| #[trigger]
            self.records.contains_key(id) <==> 1 <= id <= self.count()
        &&& forall|id: u64| #[trigger]
            self.records.contains_key(id) ==> self.records[id].id == id
    }

    /// A record bills something, and it names an attestation if and only if it is
    /// attested.
    pub open spec fn sourced(self) -> bool {
        forall|id: u64| #[trigger]
            self.records.contains_key(id) ==> self.records[id].units > 0
                && self.records[id].attested == (self.records[id].attestation_id is Some)
    }

    /// An attestation is marked as metered if and only if some record bills it.
    pub open spec fn marked(self) -> bool {
        &&& forall|id: u64| #[trigger]
            self.records.contains_key(id) && self.records[id].attestation_id is Some
                ==> self.metered.contains(self.records[id].attestation_id->0)
        &&& forall|a: Bytes32| #[trigger]
            self.metered.contains(a) ==> exists|id: u64| #[trigger]
                self.records.contains_key(id) && self.records[id].attestation_id == Some(a)
    }

    /// No two records bill the same attestation.
    pub open spec fn billed_once(self) -> bool {
        forall|one: u64, two: u64|
            #![trigger self.records.contains_key(one), self.records.contains_key(two)]
            self.records.contains_key(one) && self.records.contains_key(two)
                && self.records[one].attestation_id is Some && self.records[one].attestation_id
                == self.records[two].attestation_id ==> one == two
    }

    /// Every total is the sum of the records behind it.
    pub open spec fn totalled(self) -> bool {
        forall|payer: Address, attested: bool| #[trigger]
            self.total(payer, attested) == billed(
                self.records,
                self.count() as nat,
                payer,
                attested,
            )
    }

    /// What holds of the ledger at all times.
    pub open spec fn sound(self) -> bool {
        &&& self.numbered()
        &&& self.sourced()
        &&& self.marked()
        &&& self.billed_once()
        &&& self.totalled()
    }
}

} // verus!
