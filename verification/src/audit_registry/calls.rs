//! What each call is for: when it goes through, and what it demands, writes and
//! says, in terms of the rows and arguments alone.

use super::laws::{law_every_call_keeps_the_ledger_sound, law_steps_lead_to_the_outcome};
use super::ledger::{Call, Ledger};
use super::rules::{
    admin_end, allow_caller_steps, billable, enrolled_caller, get_attestation_end, initialize_end,
    initialize_steps, revoke_caller_steps, submit_attestation_end, submit_attestation_steps,
    supersede_attestation_end, supersede_attestation_steps,
};
use super::types::{
    error_code, Attestation, AttestationRecorded, AttestationSuperseded, AuthArgs, CallerAllowed,
    CallerRevoked, DataKey, Entry, Error, Event, Step,
};
use crate::host::{Address, Bytes32, Symbol};
use vstd::prelude::*;

verus! {

/// The one signature that is demanded comes first.
pub open spec fn demands_only(steps: Seq<Step>, signature: Step) -> bool {
    &&& steps.len() > 0
    &&& steps[0] == signature
    &&& forall|j: int|
        0 < j < steps.len() ==> !(#[trigger] steps[j] is RequireAuth) && !(
        steps[j] is RequireAuthForArgs)
}

/// The signature comes first, and right after it the caller's own proof, where the
/// caller is not the subject. Nothing else is demanded.
pub open spec fn demands_of_route(
    steps: Seq<Step>,
    signature: Step,
    caller: Address,
    subject: Address,
) -> bool {
    if caller == subject {
        demands_only(steps, signature)
    } else {
        &&& steps.len() > 1
        &&& steps[0] == signature
        &&& steps[1] == (Step::RequireAuth { who: caller })
        &&& forall|j: int|
            1 < j < steps.len() ==> !(#[trigger] steps[j] is RequireAuth) && !(
            steps[j] is RequireAuthForArgs)
    }
}

/// This entry is written, once, and nothing else is written or removed.
pub open spec fn writes_only(steps: Seq<Step>, entry: Entry) -> bool {
    &&& steps.contains(Step::Write { entry })
    &&& forall|j: int|
        0 <= j < steps.len() && #[trigger] steps[j] is Write ==> steps[j] == (Step::Write { entry })
    &&& forall|i: int, j: int|
        0 <= i < j < steps.len() && #[trigger] steps[i] is Write ==> !(#[trigger] steps[j] is Write)
    &&& forall|j: int| 0 <= j < steps.len() ==> !(#[trigger] steps[j] is Remove)
}

/// What is held under this key is removed, and nothing else is removed or written.
pub open spec fn removes_only(steps: Seq<Step>, key: DataKey) -> bool {
    &&& steps.contains(Step::Remove { key })
    &&& forall|j: int|
        0 <= j < steps.len() && #[trigger] steps[j] is Remove ==> steps[j] == (Step::Remove { key })
    &&& forall|j: int| 0 <= j < steps.len() ==> !(#[trigger] steps[j] is Write)
}

/// An attestation is renewed for thirty days right after it is written, and nothing
/// else is; the contract instance is renewed along with it or not.
pub open spec fn renews_only(steps: Seq<Step>, instance: bool) -> bool {
    &&& forall|j: int|
        0 <= j < steps.len() && #[trigger] steps[j] is Write ==> match steps[j]->Write_entry {
            Entry::Attestation(a) => j + 1 < steps.len() && steps[j + 1] == (Step::ExtendTtl {
                key: DataKey::Attestation(a.id),
                threshold: 259_200,
                extend_to: 518_400,
            }),
            _ => true,
        }
    &&& forall|j: int|
        0 <= j < steps.len() && #[trigger] steps[j] is ExtendTtl ==> j > 0 && steps[j - 1] is Write
    &&& forall|j: int|
        0 <= j < steps.len() && #[trigger] steps[j] is ExtendInstanceTtl ==> steps[j] == (
        Step::ExtendInstanceTtl { threshold: 259_200, extend_to: 518_400 })
    &&& instance <==> steps.contains(
        Step::ExtendInstanceTtl { threshold: 259_200, extend_to: 518_400 },
    )
}

/// The one event is this one, and it comes last.
pub open spec fn says_only(steps: Seq<Step>, event: Event) -> bool {
    &&& steps.len() > 0
    &&& steps.last() == (Step::Publish { event })
    &&& forall|j: int| 0 <= j < steps.len() - 1 ==> !(#[trigger] steps[j] is Publish)
}

/// The published codes tell the errors apart.
pub proof fn law_the_codes_tell_the_errors_apart(one: Error, two: Error)
    requires
        error_code(one) == error_code(two),
    ensures
        one == two,
{
}

/// The admin is installed where there is none, signs for it, and is what is written.
/// A registry that has one refuses, whoever it is.
pub proof fn law_initializing_installs_the_admin(held: Option<Address>, admin: Address)
    ensures
        initialize_end(held) is Ok <==> held is None,
        held is Some ==> initialize_end(held) == Err::<(), Error>(Error::AlreadyInitialized)
            && initialize_steps(held, admin).len() == 0,
        held is None ==> ({
            let steps = initialize_steps(held, admin);
            &&& demands_only(steps, Step::RequireAuth { who: admin })
            &&& writes_only(steps, Entry::Admin(admin))
            &&& renews_only(steps, true)
            &&& forall|j: int| 0 <= j < steps.len() ==> !(#[trigger] steps[j] is Publish)
        }),
{
    let steps = initialize_steps(held, admin);
    if held is None {
        assert(steps.len() == 3);
        assert(steps[1] == (Step::Write { entry: Entry::Admin(admin) }));
        assert(steps[2] is ExtendInstanceTtl);
    }
}

/// Every contract can be enrolled and revoked where there is an admin, who signs for
/// it; the entry of that contract is written or removed, and nothing else changes.
pub proof fn law_the_admin_enrols_and_revokes(admin: Option<Address>, contract: Address)
    ensures
        admin_end(admin) is Ok <==> admin is Some,
        admin is None ==> admin_end(admin) == Err::<(), Error>(Error::NotInitialized)
            && allow_caller_steps(admin, contract).len() == 0 && revoke_caller_steps(
            admin,
            contract,
        ).len() == 0,
        admin is Some ==> ({
            let allowed = allow_caller_steps(admin, contract);
            let revoked = revoke_caller_steps(admin, contract);
            &&& demands_only(allowed, Step::RequireAuth { who: admin->0 })
            &&& demands_only(revoked, Step::RequireAuth { who: admin->0 })
            &&& writes_only(allowed, Entry::AllowedCaller(contract))
            &&& removes_only(revoked, DataKey::AllowedCaller(contract))
            &&& renews_only(allowed, true)
            &&& renews_only(revoked, true)
            &&& says_only(allowed, Event::CallerAllowed(CallerAllowed { contract }))
            &&& says_only(revoked, Event::CallerRevoked(CallerRevoked { contract }))
        }),
{
    let allowed = allow_caller_steps(admin, contract);
    let revoked = revoke_caller_steps(admin, contract);
    if admin is Some {
        assert(allowed.len() == 4);
        assert(revoked.len() == 4);
        assert(allowed[1] == (Step::Write { entry: Entry::AllowedCaller(contract) }));
        assert(revoked[1] == (Step::Remove { key: DataKey::AllowedCaller(contract) }));
        assert(allowed[2] is ExtendInstanceTtl);
        assert(revoked[2] is ExtendInstanceTtl);
    }
}

/// A submission goes through for every subject, model, policy and free id, where the
/// caller is the subject or is on the allowlist. Each refusal says what did not
/// hold.
pub proof fn law_a_submission_goes_through_under_a_free_id(
    enrolled: Option<()>,
    held: Option<Attestation>,
    caller: Address,
    subject: Address,
)
    ensures
        ({
            let end = submit_attestation_end(enrolled, held, caller, subject);
            let may = caller == subject || enrolled is Some;
            &&& end is Ok <==> may && held is None
            &&& end == Err::<(), Error>(Error::CallerNotAllowed) <==> !may
            &&& end == Err::<(), Error>(Error::AttestationExists) <==> may && held is Some
        }),
{
}

/// A submission is signed by the subject for this id, model and policy, and a relay
/// proves itself as well. It writes the record with the caller as submitter and the
/// ledger of the call. A refusal writes nothing.
pub proof fn law_a_submission_writes_what_was_signed(
    enrolled: Option<()>,
    held: Option<Attestation>,
    sequence: u32,
    caller: Address,
    subject: Address,
    id: Bytes32,
    model_version: Symbol,
    policy_ref: Bytes32,
)
    ensures
        ({
            let end = submit_attestation_end(enrolled, held, caller, subject);
            let steps = submit_attestation_steps(
                enrolled,
                held,
                sequence,
                caller,
                subject,
                id,
                model_version,
                policy_ref,
            );
            let row = Attestation {
                id,
                subject,
                submitter: caller,
                model_version,
                policy_ref,
                ledger: sequence,
                superseded_by: None,
            };
            &&& demands_of_route(
                steps,
                Step::RequireAuthForArgs {
                    who: subject,
                    args: AuthArgs::Submission { id, model_version, policy_ref },
                },
                caller,
                subject,
            )
            &&& end is Err ==> steps.len() <= 2 && (caller == subject ==> steps.len() == 1)
            &&& end is Ok ==> {
                &&& writes_only(steps, Entry::Attestation(row))
                &&& renews_only(steps, true)
                &&& says_only(
                    steps,
                    Event::AttestationRecorded(
                        AttestationRecorded { id, subject, submitter: caller },
                    ),
                )
            }
        }),
{
    let steps = submit_attestation_steps(
        enrolled,
        held,
        sequence,
        caller,
        subject,
        id,
        model_version,
        policy_ref,
    );
    if submit_attestation_end(enrolled, held, caller, subject) is Ok {
        let n: int = if caller == subject {
            1
        } else {
            2
        };
        let row = Attestation {
            id,
            subject,
            submitter: caller,
            model_version,
            policy_ref,
            ledger: sequence,
            superseded_by: None,
        };
        assert(steps.len() == n + 4);
        assert(steps[n] == (Step::Write { entry: Entry::Attestation(row) }));
        assert(steps[n + 2] is ExtendInstanceTtl);
    }
}

/// A replacement goes through whenever the two ids differ, both attestations exist
/// and have the same subject, the old one was not replaced before, and the caller is
/// that subject or is on the allowlist. Each refusal says what did not hold.
pub proof fn law_a_replacement_goes_through_for_the_same_subject(
    enrolled: Option<()>,
    old: Option<Attestation>,
    new: Option<Attestation>,
    caller: Address,
    old_id: Bytes32,
    new_id: Bytes32,
)
    ensures
        ({
            let end = supersede_attestation_end(enrolled, old, new, caller, old_id, new_id);
            let fresh = old_id != new_id && old is Some && old->0.superseded_by is None;
            let same = fresh && new is Some && new->0.subject == old->0.subject;
            let may = caller == old->0.subject || enrolled is Some;
            &&& end is Ok <==> same && may
            &&& end == Err::<(), Error>(Error::SelfSupersede) <==> old_id == new_id
            &&& end == Err::<(), Error>(Error::AlreadySuperseded) <==> old_id != new_id
                && old is Some && old->0.superseded_by is Some
            &&& end == Err::<(), Error>(Error::AttestationNotFound) <==> old_id != new_id && (
            old is None || (old->0.superseded_by is None && new is None))
            &&& end == Err::<(), Error>(Error::SubjectMismatch) <==> fresh && new is Some
                && new->0.subject != old->0.subject
            &&& end == Err::<(), Error>(Error::CallerNotAllowed) <==> same && !may
        }),
{
}

/// A replacement is signed by the subject of the old attestation for these two ids,
/// and a relay proves itself as well. It notes the new id in the old row and changes
/// nothing else. A refusal writes nothing.
pub proof fn law_a_replacement_marks_the_old_row(
    enrolled: Option<()>,
    old: Option<Attestation>,
    new: Option<Attestation>,
    caller: Address,
    old_id: Bytes32,
    new_id: Bytes32,
)
    requires
        old is Some ==> old->0.id == old_id,
    ensures
        ({
            let end = supersede_attestation_end(enrolled, old, new, caller, old_id, new_id);
            let steps = supersede_attestation_steps(enrolled, old, new, caller, old_id, new_id);
            let asked = end is Ok || end == Err::<(), Error>(Error::CallerNotAllowed);
            &&& !asked ==> steps.len() == 0
            &&& asked ==> demands_of_route(
                steps,
                Step::RequireAuthForArgs {
                    who: old->0.subject,
                    args: AuthArgs::Replacement { old_id, new_id },
                },
                caller,
                old->0.subject,
            )
            &&& end is Err ==> steps.len() <= 2
            &&& end is Ok ==> {
                &&& writes_only(
                    steps,
                    Entry::Attestation(Attestation { superseded_by: Some(new_id), ..old->0 }),
                )
                &&& renews_only(steps, false)
                &&& says_only(
                    steps,
                    Event::AttestationSuperseded(AttestationSuperseded { old_id, new_id }),
                )
            }
        }),
{
    let steps = supersede_attestation_steps(enrolled, old, new, caller, old_id, new_id);
    if supersede_attestation_end(enrolled, old, new, caller, old_id, new_id) is Ok {
        let n: int = if caller == old->0.subject {
            1
        } else {
            2
        };
        let row = Attestation { superseded_by: Some(new_id), ..old->0 };
        assert(steps.len() == n + 3);
        assert(steps[n] == (Step::Write { entry: Entry::Attestation(row) }));
    }
}

/// What the reads report: the record as it is, where there is one; that it can be
/// billed to exactly its subject and only until it is replaced; and that a caller is
/// enrolled exactly where the ledger holds its entry.
pub proof fn law_the_reads_report_the_ledger(
    a: Attestation,
    enrolled: Option<()>,
    subject: Address,
)
    ensures
        get_attestation_end(Some(a)) == Ok::<Attestation, Error>(a),
        get_attestation_end(None) == Err::<Attestation, Error>(Error::AttestationNotFound),
        billable(Some(a), subject) <==> a.subject == subject && a.superseded_by is None,
        !billable(None, subject),
        enrolled_caller(enrolled) <==> enrolled is Some,
{
}

/// The allowlist decides about relays and about nobody else: whoever is reported
/// enrolled can submit for others under a free id, whoever is not cannot, and a
/// subject can always submit for itself.
pub proof fn law_enrolment_is_what_lets_a_relay_submit(
    enrolled: Option<()>,
    caller: Address,
    subject: Address,
)
    ensures
        caller != subject ==> (submit_attestation_end(enrolled, None, caller, subject) is Ok
            <==> enrolled_caller(enrolled)),
        submit_attestation_end(enrolled, None, subject, subject) is Ok,
{
}

/// The route makes no difference to a replacement: an enrolled relay replaces exactly
/// what the subject itself could replace, and leaves the same ledger behind.
pub proof fn law_the_route_makes_no_difference_to_a_replacement(
    ledger: Ledger,
    relay: Address,
    old_id: Bytes32,
    new_id: Bytes32,
)
    requires
        ledger.sound(),
        ledger.allowed.contains(relay),
        ledger.attestations.contains_key(old_id),
    ensures
        ({
            let relayed = Call::Supersede { caller: relay, old_id, new_id };
            let direct = Call::Supersede {
                caller: ledger.attestations[old_id].subject,
                old_id,
                new_id,
            };
            &&& ledger.error_of(relayed) == ledger.error_of(direct)
            &&& ledger.after_call(relayed) == ledger.after_call(direct)
        }),
{
    let relayed = Call::Supersede { caller: relay, old_id, new_id };
    let direct = Call::Supersede { caller: ledger.attestations[old_id].subject, old_id, new_id };
    if ledger.error_of(direct) is None {
        law_steps_lead_to_the_outcome(ledger, relayed);
        law_steps_lead_to_the_outcome(ledger, direct);
    }
}

/// The route makes no difference to a submission but for the submitter that is noted.
pub proof fn law_the_route_is_only_noted_in_a_submission(
    ledger: Ledger,
    relay: Address,
    subject: Address,
    id: Bytes32,
    model_version: Symbol,
    policy_ref: Bytes32,
    sequence: u32,
)
    requires
        ledger.sound(),
        ledger.allowed.contains(relay),
    ensures
        ({
            let relayed = Call::Submit {
                caller: relay,
                subject,
                id,
                model_version,
                policy_ref,
                sequence,
            };
            let direct = Call::Submit {
                caller: subject,
                subject,
                id,
                model_version,
                policy_ref,
                sequence,
            };
            &&& ledger.error_of(relayed) == ledger.error_of(direct)
            &&& ledger.error_of(direct) is None ==> ledger.after_call(relayed).attestation(id)
                == Some(
                Attestation {
                    submitter: relay,
                    ..ledger.after_call(direct).attestation(id)->0
                },
            )
        }),
{
    let relayed = Call::Submit { caller: relay, subject, id, model_version, policy_ref, sequence };
    let direct = Call::Submit { caller: subject, subject, id, model_version, policy_ref, sequence };
    if ledger.error_of(direct) is None {
        law_steps_lead_to_the_outcome(ledger, relayed);
        law_steps_lead_to_the_outcome(ledger, direct);
    }
}

/// Two records of one subject can always be put in order: after two submissions under
/// free ids the first can be replaced by the second, directly or through any enrolled
/// relay, and then only the second can be billed to the subject.
pub proof fn law_a_newer_record_can_take_over(
    ledger: Ledger,
    subject: Address,
    caller: Address,
    old_id: Bytes32,
    new_id: Bytes32,
    model_version: Symbol,
    policy_ref: Bytes32,
    sequence: u32,
)
    requires
        ledger.sound(),
        old_id != new_id,
        !ledger.attestations.contains_key(old_id),
        !ledger.attestations.contains_key(new_id),
        caller == subject || ledger.allowed.contains(caller),
    ensures
        ({
            let first = Call::Submit {
                caller,
                subject,
                id: old_id,
                model_version,
                policy_ref,
                sequence,
            };
            let second = Call::Submit {
                caller,
                subject,
                id: new_id,
                model_version,
                policy_ref,
                sequence,
            };
            let replace = Call::Supersede { caller, old_id, new_id };
            let both = ledger.after_call(first).after_call(second);
            let later = both.after_call(replace);
            &&& billable(both.attestation(old_id), subject)
            &&& billable(both.attestation(new_id), subject)
            &&& both.error_of(replace) is None
            &&& !billable(later.attestation(old_id), subject)
            &&& billable(later.attestation(new_id), subject)
        }),
{
    let first = Call::Submit { caller, subject, id: old_id, model_version, policy_ref, sequence };
    let second = Call::Submit { caller, subject, id: new_id, model_version, policy_ref, sequence };
    let replace = Call::Supersede { caller, old_id, new_id };
    let one = ledger.after_call(first);
    let both = one.after_call(second);
    law_steps_lead_to_the_outcome(ledger, first);
    law_every_call_keeps_the_ledger_sound(ledger, first);
    law_steps_lead_to_the_outcome(one, second);
    law_every_call_keeps_the_ledger_sound(one, second);
    law_steps_lead_to_the_outcome(both, replace);
}

} // verus!
