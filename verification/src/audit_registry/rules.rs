//! What each registry call decides, as mathematics: how it ends, and which steps
//! it takes, given the entries that it reads.

use super::types::{
    Attestation, AttestationRecorded, AttestationSuperseded, AuthArgs, CallerAllowed,
    CallerRevoked, DataKey, Entry, Error, Event, Step,
};
use crate::host::{Address, Bytes32, Symbol, PERSISTENT_THRESHOLD, PERSISTENT_TTL};
use vstd::prelude::*;

verus! {

/// The ledger holds no attestation under `id`, or the one of that id.
pub open spec fn held_under(held: Option<Attestation>, id: Bytes32) -> bool {
    held matches Some(a) ==> a.id == id
}

/// What usage can be billed against: an attestation that exists, is not
/// superseded, and belongs to `subject`.
pub open spec fn billable(held: Option<Attestation>, subject: Address) -> bool {
    held matches Some(a) && a.superseded_by is None && a.subject == subject
}

/// The record of an attestation.
pub open spec fn get_attestation_end(held: Option<Attestation>) -> Result<Attestation, Error> {
    match held {
        Some(a) => Ok(a),
        None => Err(Error::AttestationNotFound),
    }
}

/// Whether a caller is on the allowlist, by what the ledger holds for it.
pub open spec fn enrolled_caller(enrolled: Option<()>) -> bool {
    enrolled is Some
}

/// Writing an attestation: the row, then its renewal.
pub open spec fn saving(attestation: Attestation) -> Seq<Step> {
    seq![
        Step::Write { entry: Entry::Attestation(attestation) },
        Step::ExtendTtl {
            key: DataKey::Attestation(attestation.id),
            threshold: PERSISTENT_THRESHOLD,
            extend_to: PERSISTENT_TTL,
        },
    ]
}

/// Renewing the contract instance.
pub open spec fn bumping() -> Step {
    Step::ExtendInstanceTtl { threshold: PERSISTENT_THRESHOLD, extend_to: PERSISTENT_TTL }
}

/// What a caller must show: nothing more where it is the subject itself,
/// otherwise that it is who it says.
pub open spec fn caller_proof(caller: Address, subject: Address) -> Seq<Step> {
    if caller == subject {
        seq![]
    } else {
        seq![Step::RequireAuth { who: caller }]
    }
}

/// Whether a caller may act for a subject at all.
pub open spec fn may_act(caller: Address, subject: Address, enrolled: Option<()>) -> bool {
    caller == subject || enrolled is Some
}

pub open spec fn initialize_end(held: Option<Address>) -> Result<(), Error> {
    match held {
        Some(_) => Err(Error::AlreadyInitialized),
        None => Ok(()),
    }
}

pub open spec fn initialize_steps(held: Option<Address>, admin: Address) -> Seq<Step> {
    if held is Some {
        seq![]
    } else {
        seq![
            Step::RequireAuth { who: admin },
            Step::Write { entry: Entry::Admin(admin) },
            bumping(),
        ]
    }
}

/// How a call of the admin ends.
pub open spec fn admin_end(admin: Option<Address>) -> Result<(), Error> {
    match admin {
        Some(_) => Ok(()),
        None => Err(Error::NotInitialized),
    }
}

pub open spec fn allow_caller_steps(admin: Option<Address>, contract: Address) -> Seq<Step> {
    match admin {
        None => seq![],
        Some(who) => seq![
            Step::RequireAuth { who },
            Step::Write { entry: Entry::AllowedCaller(contract) },
            bumping(),
            Step::Publish { event: Event::CallerAllowed(CallerAllowed { contract }) },
        ],
    }
}

pub open spec fn revoke_caller_steps(admin: Option<Address>, contract: Address) -> Seq<Step> {
    match admin {
        None => seq![],
        Some(who) => seq![
            Step::RequireAuth { who },
            Step::Remove { key: DataKey::AllowedCaller(contract) },
            bumping(),
            Step::Publish { event: Event::CallerRevoked(CallerRevoked { contract }) },
        ],
    }
}

pub open spec fn submit_attestation_end(
    enrolled: Option<()>,
    held: Option<Attestation>,
    caller: Address,
    subject: Address,
) -> Result<(), Error> {
    if !may_act(caller, subject, enrolled) {
        Err(Error::CallerNotAllowed)
    } else if held is Some {
        Err(Error::AttestationExists)
    } else {
        Ok(())
    }
}

pub open spec fn submit_attestation_steps(
    enrolled: Option<()>,
    held: Option<Attestation>,
    sequence: u32,
    caller: Address,
    subject: Address,
    id: Bytes32,
    model_version: Symbol,
    policy_ref: Bytes32,
) -> Seq<Step> {
    let signed = seq![
        Step::RequireAuthForArgs {
            who: subject,
            args: AuthArgs::Submission { id, model_version, policy_ref },
        },
    ] + caller_proof(caller, subject);
    if submit_attestation_end(enrolled, held, caller, subject) is Err {
        signed
    } else {
        signed + saving(
            Attestation {
                id,
                subject,
                submitter: caller,
                model_version,
                policy_ref,
                ledger: sequence,
                superseded_by: None,
            },
        ) + seq![
            bumping(),
            Step::Publish {
                event: Event::AttestationRecorded(
                    AttestationRecorded { id, subject, submitter: caller },
                ),
            },
        ]
    }
}

pub open spec fn supersede_attestation_end(
    enrolled: Option<()>,
    old: Option<Attestation>,
    new: Option<Attestation>,
    caller: Address,
    old_id: Bytes32,
    new_id: Bytes32,
) -> Result<(), Error> {
    if old_id == new_id {
        Err(Error::SelfSupersede)
    } else if old is None {
        Err(Error::AttestationNotFound)
    } else if old->0.superseded_by is Some {
        Err(Error::AlreadySuperseded)
    } else if new is None {
        Err(Error::AttestationNotFound)
    } else if new->0.subject != old->0.subject {
        Err(Error::SubjectMismatch)
    } else if !may_act(caller, old->0.subject, enrolled) {
        Err(Error::CallerNotAllowed)
    } else {
        Ok(())
    }
}

pub open spec fn supersede_attestation_steps(
    enrolled: Option<()>,
    old: Option<Attestation>,
    new: Option<Attestation>,
    caller: Address,
    old_id: Bytes32,
    new_id: Bytes32,
) -> Seq<Step> {
    let signed = seq![
        Step::RequireAuthForArgs {
            who: old->0.subject,
            args: AuthArgs::Replacement { old_id, new_id },
        },
    ] + caller_proof(caller, old->0.subject);
    match supersede_attestation_end(enrolled, old, new, caller, old_id, new_id) {
        Err(Error::CallerNotAllowed) => signed,
        Err(_) => seq![],
        Ok(_) => signed + saving(old->0.with_successor(new_id)) + seq![
            Step::Publish {
                event: Event::AttestationSuperseded(AttestationSuperseded { old_id, new_id }),
            },
        ],
    }
}

} // verus!
