//! The calls of the audit registry.
//!
//! A call takes the entries that it reads from the ledger (`None` where the
//! ledger holds nothing under the key), then its arguments.
//!
//! A call that acts for a subject makes three checks: the subject's signature
//! over the arguments that determine the effect, the caller's own where the
//! caller is not the subject, and the caller's place on the allowlist. None of
//! them stands in for another. Reads carry no authority and are open to anyone.

use super::rules::{
    admin_end, allow_caller_steps, billable, bumping, caller_proof, enrolled_caller,
    get_attestation_end, held_under, initialize_end, initialize_steps, may_act,
    revoke_caller_steps, saving, submit_attestation_end, submit_attestation_steps,
    supersede_attestation_end, supersede_attestation_steps,
};
use super::types::{
    Attestation, AttestationRecorded, AttestationSuperseded, AuthArgs, CallerAllowed,
    CallerRevoked, DataKey, Entry, Error, Event, Step,
};
use crate::host::{Address, Bytes32, Plan, Symbol, PERSISTENT_THRESHOLD, PERSISTENT_TTL};
use vstd::prelude::*;

verus! {

/// Stores signed inference attestations.
pub struct AuditRegistry;

impl AuditRegistry {
    /// One-time initialization. The admin signs for it, so nobody installs an
    /// admin that never consented.
    pub fn initialize(held: Option<Address>, admin: Address) -> (plan: Plan<Step, (), Error>)
        ensures
            plan@.end == initialize_end(held),
            plan@.steps == initialize_steps(held, admin),
    {
        let mut steps: Vec<Step> = Vec::new();
        if held.is_some() {
            return Plan::fail(steps, Error::AlreadyInitialized);
        }
        steps.push(Step::RequireAuth { who: admin });
        steps.push(Step::Write { entry: Entry::Admin(admin) });
        Self::bump_instance(&mut steps);
        Plan::done(steps, ())
    }

    /// Admit a contract to the allowlist of callers that may act on a subject's
    /// behalf.
    pub fn allow_caller(admin: Option<Address>, contract: Address) -> (plan: Plan<Step, (), Error>)
        ensures
            plan@.end == admin_end(admin),
            plan@.steps == allow_caller_steps(admin, contract),
    {
        let mut steps: Vec<Step> = Vec::new();
        match Self::admin(admin) {
            Ok(who) => steps.push(Step::RequireAuth { who }),
            Err(error) => return Plan::fail(steps, error),
        }
        steps.push(Step::Write { entry: Entry::AllowedCaller(contract) });
        Self::bump_instance(&mut steps);
        steps.push(Step::Publish { event: Event::CallerAllowed(CallerAllowed { contract }) });
        Plan::done(steps, ())
    }

    /// Remove a contract from the allowlist. Attestations already written are
    /// unaffected: the authority that created them was the subject's.
    pub fn revoke_caller(admin: Option<Address>, contract: Address) -> (plan: Plan<Step, (), Error>)
        ensures
            plan@.end == admin_end(admin),
            plan@.steps == revoke_caller_steps(admin, contract),
    {
        let mut steps: Vec<Step> = Vec::new();
        match Self::admin(admin) {
            Ok(who) => steps.push(Step::RequireAuth { who }),
            Err(error) => return Plan::fail(steps, error),
        }
        steps.push(Step::Remove { key: DataKey::AllowedCaller(contract) });
        Self::bump_instance(&mut steps);
        steps.push(Step::Publish { event: Event::CallerRevoked(CallerRevoked { contract }) });
        Plan::done(steps, ())
    }

    /// Whether a contract is on the allowlist, by what the ledger holds for it.
    pub fn is_caller_allowed(enrolled: Option<()>) -> (allowed: bool)
        ensures
            allowed == enrolled_caller(enrolled),
            allowed == (enrolled is Some),
    {
        enrolled.is_some()
    }

    /// Record an attestation for `subject`.
    ///
    /// The subject's signature is bound to these exact arguments, so an
    /// intermediate cannot spend it on others. A caller that is not the subject
    /// must prove that it is who it says, and be on the allowlist: the allowlist
    /// alone would let an approved contract forge attestations for anyone, and
    /// the signature alone would let any contract relay it.
    pub fn submit_attestation(
        enrolled: Option<()>,
        held: Option<Attestation>,
        sequence: u32,
        caller: Address,
        subject: Address,
        id: Bytes32,
        model_version: Symbol,
        policy_ref: Bytes32,
    ) -> (plan: Plan<Step, (), Error>)
        ensures
            plan@.end == submit_attestation_end(enrolled, held, caller, subject),
            plan@.steps == submit_attestation_steps(
                enrolled,
                held,
                sequence,
                caller,
                subject,
                id,
                model_version,
                policy_ref,
            ),
    {
        let mut steps: Vec<Step> = Vec::new();
        let signed_version = Symbol { text: model_version.text.clone() };
        steps.push(
            Step::RequireAuthForArgs {
                who: subject,
                args: AuthArgs::Submission { id, model_version: signed_version, policy_ref },
            },
        );
        if let Err(error) = Self::check_caller(enrolled, caller, subject, &mut steps) {
            return Plan::fail(steps, error);
        }
        if held.is_some() {
            return Plan::fail(steps, Error::AttestationExists);
        }
        let attestation = Attestation {
            id,
            subject,
            submitter: caller,
            model_version,
            policy_ref,
            ledger: sequence,
            superseded_by: None,
        };
        Self::save(attestation, &mut steps);
        Self::bump_instance(&mut steps);
        steps.push(
            Step::Publish {
                event: Event::AttestationRecorded(
                    AttestationRecorded { id, subject, submitter: caller },
                ),
            },
        );
        Plan::done(steps, ())
    }

    /// Mark `old_id` as replaced by `new_id`.
    ///
    /// Authorized by the subject of the existing attestation, not by whoever
    /// submitted it: a former submitter must not keep the power to invalidate
    /// the record.
    pub fn supersede_attestation(
        enrolled: Option<()>,
        old: Option<Attestation>,
        new: Option<Attestation>,
        caller: Address,
        old_id: Bytes32,
        new_id: Bytes32,
    ) -> (plan: Plan<Step, (), Error>)
        requires
            held_under(old, old_id),
        ensures
            plan@.end == supersede_attestation_end(enrolled, old, new, caller, old_id, new_id),
            plan@.steps == supersede_attestation_steps(enrolled, old, new, caller, old_id, new_id),
    {
        let mut steps: Vec<Step> = Vec::new();
        if old_id == new_id {
            return Plan::fail(steps, Error::SelfSupersede);
        }
        let mut attestation = match Self::load(old) {
            Ok(attestation) => attestation,
            Err(error) => return Plan::fail(steps, error),
        };
        if attestation.superseded_by.is_some() {
            return Plan::fail(steps, Error::AlreadySuperseded);
        }
        let replacement = match Self::load(new) {
            Ok(replacement) => replacement,
            Err(error) => return Plan::fail(steps, error),
        };
        let subject = attestation.subject;
        if replacement.subject != subject {
            return Plan::fail(steps, Error::SubjectMismatch);
        }
        steps.push(
            Step::RequireAuthForArgs {
                who: subject,
                args: AuthArgs::Replacement { old_id, new_id },
            },
        );
        if let Err(error) = Self::check_caller(enrolled, caller, subject, &mut steps) {
            return Plan::fail(steps, error);
        }
        attestation.superseded_by = Some(new_id);
        Self::save(attestation, &mut steps);
        steps.push(
            Step::Publish {
                event: Event::AttestationSuperseded(AttestationSuperseded { old_id, new_id }),
            },
        );
        Plan::done(steps, ())
    }

    /// The attestation that the ledger holds.
    pub fn get_attestation(held: Option<Attestation>) -> (result: Result<Attestation, Error>)
        ensures
            result == get_attestation_end(held),
            result == match held {
                Some(a) => Ok::<Attestation, Error>(a),
                None => Err(Error::AttestationNotFound),
            },
    {
        Self::load(held)
    }

    /// The predicate that usage is billed against: exists, not superseded, and
    /// belongs to the claimed subject. An unknown id is `false` rather than an
    /// error, so a caller can price unattested usage.
    pub fn verify_attestation(held: &Option<Attestation>, subject: Address) -> (verified: bool)
        ensures
            verified == billable(*held, subject),
    {
        match held {
            Some(attestation) => attestation.superseded_by.is_none() && attestation.subject
                == subject,
            None => false,
        }
    }

    pub fn version() -> (version: u32)
        ensures
            version == 2,
    {
        2
    }

    /// The checks on a caller: where it is not the subject, that it is who it
    /// says, and that it is on the allowlist.
    fn check_caller(
        enrolled: Option<()>,
        caller: Address,
        subject: Address,
        steps: &mut Vec<Step>,
    ) -> (result: Result<(), Error>)
        ensures
            result == if may_act(caller, subject, enrolled) {
                Ok::<(), Error>(())
            } else {
                Err(Error::CallerNotAllowed)
            },
            final(steps)@ == old(steps)@ + caller_proof(caller, subject),
    {
        if caller != subject {
            steps.push(Step::RequireAuth { who: caller });
            if !Self::is_caller_allowed(enrolled) {
                return Err(Error::CallerNotAllowed);
            }
        }
        Ok(())
    }

    fn admin(held: Option<Address>) -> (result: Result<Address, Error>)
        ensures
            result == match held {
                Some(who) => Ok::<Address, Error>(who),
                None => Err(Error::NotInitialized),
            },
    {
        match held {
            Some(who) => Ok(who),
            None => Err(Error::NotInitialized),
        }
    }

    fn load(held: Option<Attestation>) -> (result: Result<Attestation, Error>)
        ensures
            result == match held {
                Some(a) => Ok::<Attestation, Error>(a),
                None => Err(Error::AttestationNotFound),
            },
    {
        match held {
            Some(attestation) => Ok(attestation),
            None => Err(Error::AttestationNotFound),
        }
    }

    fn save(attestation: Attestation, steps: &mut Vec<Step>)
        ensures
            final(steps)@ == old(steps)@ + saving(attestation),
    {
        let key = DataKey::Attestation(attestation.id);
        steps.push(Step::Write { entry: Entry::Attestation(attestation) });
        steps.push(
            Step::ExtendTtl { key, threshold: PERSISTENT_THRESHOLD, extend_to: PERSISTENT_TTL },
        );
    }

    fn bump_instance(steps: &mut Vec<Step>)
        ensures
            final(steps)@ == old(steps)@.push(bumping()),
    {
        steps.push(
            Step::ExtendInstanceTtl {
                threshold: PERSISTENT_THRESHOLD,
                extend_to: PERSISTENT_TTL,
            },
        );
    }
}

} // verus!
