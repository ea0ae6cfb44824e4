//! A model of the ledger that the registry runs on, and of what its calls do to
//! it. The laws of the registry are stated over this model.

use super::rules::{
    admin_end, allow_caller_steps, initialize_end, initialize_steps, revoke_caller_steps,
    submit_attestation_end, submit_attestation_steps, supersede_attestation_end,
    supersede_attestation_steps,
};
use super::types::{Attestation, DataKey, Entry, Error, Step};
use crate::host::{Address, Bytes32, Symbol};
use vstd::prelude::*;

verus! {

/// The registry's entries.
#[verifier::ext_equal]
pub struct Ledger {
    pub admin: Option<Address>,
    pub allowed: Set<Address>,
    pub attestations: Map<Bytes32, Attestation>,
}

/// A call that can change the ledger. `sequence` is the ledger that the call
/// runs in.
pub enum Call {
    Initialize { admin: Address },
    AllowCaller { contract: Address },
    RevokeCaller { contract: Address },
    Submit {
        caller: Address,
        subject: Address,
        id: Bytes32,
        model_version: Symbol,
        policy_ref: Bytes32,
        sequence: u32,
    },
    Supersede { caller: Address, old_id: Bytes32, new_id: Bytes32 },
}

/// The error that a result carries.
pub open spec fn error_in<T>(end: Result<T, Error>) -> Option<Error> {
    match end {
        Ok(_) => None,
        Err(error) => Some(error),
    }
}

impl Ledger {
    /// The ledger of a registry that was just deployed.
    pub open spec fn fresh() -> Ledger {
        Ledger { admin: None, allowed: Set::empty(), attestations: Map::empty() }
    }

    pub open spec fn attestation(self, id: Bytes32) -> Option<Attestation> {
        if self.attestations.contains_key(id) {
            Some(self.attestations[id])
        } else {
            None
        }
    }

    /// What the ledger holds for `contract` on the allowlist.
    pub open spec fn enrolment(self, contract: Address) -> Option<()> {
        if self.allowed.contains(contract) {
            Some(())
        } else {
            None
        }
    }

    /// The ledger after one step.
    pub open spec fn after(self, step: Step) -> Ledger {
        match step {
            Step::Write { entry } => match entry {
                Entry::Admin(admin) => Ledger { admin: Some(admin), ..self },
                Entry::AllowedCaller(contract) => Ledger {
                    allowed: self.allowed.insert(contract),
                    ..self
                },
                Entry::Attestation(a) => Ledger {
                    attestations: self.attestations.insert(a.id, a),
                    ..self
                },
            },
            Step::Remove { key } => match key {
                DataKey::Admin => Ledger { admin: None, ..self },
                DataKey::AllowedCaller(contract) => Ledger {
                    allowed: self.allowed.remove(contract),
                    ..self
                },
                DataKey::Attestation(id) => Ledger {
                    attestations: self.attestations.remove(id),
                    ..self
                },
            },
            _ => self,
        }
    }

    /// The ledger after the first `n` of `steps`.
    pub open spec fn after_first(self, steps: Seq<Step>, n: nat) -> Ledger
        decreases n,
    {
        if n == 0 {
            self
        } else {
            self.after_first(steps, (n - 1) as nat).after(steps[n - 1])
        }
    }

    /// The error that `call` ends in, if any.
    pub open spec fn error_of(self, call: Call) -> Option<Error> {
        match call {
            Call::Initialize { .. } => error_in(initialize_end(self.admin)),
            Call::AllowCaller { .. } => error_in(admin_end(self.admin)),
            Call::RevokeCaller { .. } => error_in(admin_end(self.admin)),
            Call::Submit { caller, subject, id, .. } => error_in(
                submit_attestation_end(
                    self.enrolment(caller),
                    self.attestation(id),
                    caller,
                    subject,
                ),
            ),
            Call::Supersede { caller, old_id, new_id } => error_in(
                supersede_attestation_end(
                    self.enrolment(caller),
                    self.attestation(old_id),
                    self.attestation(new_id),
                    caller,
                    old_id,
                    new_id,
                ),
            ),
        }
    }

    /// The steps that `call` takes.
    pub open spec fn steps_of(self, call: Call) -> Seq<Step> {
        match call {
            Call::Initialize { admin } => initialize_steps(self.admin, admin),
            Call::AllowCaller { contract } => allow_caller_steps(self.admin, contract),
            Call::RevokeCaller { contract } => revoke_caller_steps(self.admin, contract),
            Call::Submit { caller, subject, id, model_version, policy_ref, sequence } =>
                submit_attestation_steps(
                self.enrolment(caller),
                self.attestation(id),
                sequence,
                caller,
                subject,
                id,
                model_version,
                policy_ref,
            ),
            Call::Supersede { caller, old_id, new_id } => supersede_attestation_steps(
                self.enrolment(caller),
                self.attestation(old_id),
                self.attestation(new_id),
                caller,
                old_id,
                new_id,
            ),
        }
    }

    /// The ledger after `call`. A call that ends in an error is undone.
    pub open spec fn after_call(self, call: Call) -> Ledger {
        if self.error_of(call) is Some {
            self
        } else {
            self.after_first(self.steps_of(call), self.steps_of(call).len())
        }
    }

    /// The ledger after a run of calls.
    pub open spec fn after_calls(self, calls: Seq<Call>) -> Ledger
        decreases calls.len(),
    {
        if calls.len() == 0 {
            self
        } else {
            self.after_calls(calls.drop_last()).after_call(calls.last())
        }
    }

    /// Each attestation is kept under its own id, and one that is superseded
    /// points to another attestation of the same subject.
    pub open spec fn sound(self) -> bool {
        &&& forall|id: Bytes32| #[trigger]
            self.attestations.contains_key(id) ==> self.attestations[id].id == id
        &&& forall|id: Bytes32| #[trigger]
            self.attestations.contains_key(id) ==> (
            self.attestations[id].superseded_by matches Some(new_id) ==> new_id != id
                && self.attestations.contains_key(new_id) && self.attestations[new_id].subject
                == self.attestations[id].subject)
    }
}

} // verus!
