//! What holds of the registry as a whole.

use super::ledger::{Call, Ledger};
use super::rules::billable;
use super::types::{Attestation, AuthArgs, DataKey, Entry, Error, Step};
use crate::host::{Address, Bytes32, Symbol, PERSISTENT_THRESHOLD, PERSISTENT_TTL};
use vstd::prelude::*;

verus! {

/// What a call that succeeds leaves behind, in one expression.
pub open spec fn outcome(ledger: Ledger, call: Call) -> Ledger {
    match call {
        Call::Initialize { admin } => Ledger { admin: Some(admin), ..ledger },
        Call::AllowCaller { contract } => Ledger {
            allowed: ledger.allowed.insert(contract),
            ..ledger
        },
        Call::RevokeCaller { contract } => Ledger {
            allowed: ledger.allowed.remove(contract),
            ..ledger
        },
        Call::Submit { caller, subject, id, model_version, policy_ref, sequence } => Ledger {
            attestations: ledger.attestations.insert(
                id,
                Attestation {
                    id,
                    subject,
                    submitter: caller,
                    model_version,
                    policy_ref,
                    ledger: sequence,
                    superseded_by: None,
                },
            ),
            ..ledger
        },
        Call::Supersede { caller, old_id, new_id } => Ledger {
            attestations: ledger.attestations.insert(
                old_id,
                ledger.attestations[old_id].with_successor(new_id),
            ),
            ..ledger
        },
    }
}

/// Taking the steps of a call that succeeds leaves its outcome behind, and
/// nothing else.
pub proof fn law_steps_lead_to_the_outcome(ledger: Ledger, call: Call)
    requires
        ledger.sound(),
        ledger.error_of(call) is None,
    ensures
        ledger.after_call(call) == outcome(ledger, call),
{
    let steps = ledger.steps_of(call);
    reveal_with_fuel(Ledger::after_first, 8);
    match call {
        Call::Submit { caller, subject, .. } => {
            if caller == subject {
                assert(steps.len() == 5);
            } else {
                assert(steps.len() == 6);
            }
        },
        Call::Supersede { caller, old_id, .. } => {
            if caller == ledger.attestations[old_id].subject {
                assert(steps.len() == 4);
            } else {
                assert(steps.len() == 5);
            }
        },
        Call::Initialize { .. } => {
            assert(steps.len() == 3);
        },
        _ => {
            assert(steps.len() == 4);
        },
    }
    assert(ledger.after_call(call) =~= outcome(ledger, call));
}

/// Every call keeps the ledger sound.
pub proof fn law_every_call_keeps_the_ledger_sound(ledger: Ledger, call: Call)
    requires
        ledger.sound(),
    ensures
        ledger.after_call(call).sound(),
{
    if ledger.error_of(call) is None {
        law_steps_lead_to_the_outcome(ledger, call);
    }
}

/// Every run of calls keeps the ledger sound.
pub proof fn law_every_run_keeps_the_ledger_sound(ledger: Ledger, calls: Seq<Call>)
    requires
        ledger.sound(),
    ensures
        ledger.after_calls(calls).sound(),
    decreases calls.len(),
{
    if calls.len() > 0 {
        law_every_run_keeps_the_ledger_sound(ledger, calls.drop_last());
        law_every_call_keeps_the_ledger_sound(
            ledger.after_calls(calls.drop_last()),
            calls.last(),
        );
    }
}

/// Whatever calls are made on a registry from its deployment on, its ledger is
/// sound.
pub proof fn law_every_reachable_ledger_is_sound(calls: Seq<Call>)
    ensures
        Ledger::fresh().after_calls(calls).sound(),
{
    law_every_run_keeps_the_ledger_sound(Ledger::fresh(), calls);
}

/// What an attestation may become: itself, but for the one replacement that it can
/// be given.
pub open spec fn follows(before: Attestation, later: Attestation) -> bool {
    &&& later == Attestation { superseded_by: later.superseded_by, ..before }
    &&& before.superseded_by is Some ==> later == before
}

proof fn lemma_attestation_stays(ledger: Ledger, call: Call, id: Bytes32)
    requires
        ledger.sound(),
        ledger.attestations.contains_key(id),
    ensures
        ledger.after_call(call).attestations.contains_key(id),
        follows(ledger.attestations[id], ledger.after_call(call).attestations[id]),
{
    if ledger.error_of(call) is None {
        law_steps_lead_to_the_outcome(ledger, call);
    }
}

/// The audit trail is permanent: whatever calls follow, no attestation is removed
/// and nothing in it changes, but for the one replacement that it can be given.
pub proof fn law_attestations_are_permanent(ledger: Ledger, calls: Seq<Call>, id: Bytes32)
    requires
        ledger.sound(),
        ledger.attestations.contains_key(id),
    ensures
        ledger.after_calls(calls).attestations.contains_key(id),
        follows(ledger.attestations[id], ledger.after_calls(calls).attestations[id]),
    decreases calls.len(),
{
    if calls.len() > 0 {
        law_attestations_are_permanent(ledger, calls.drop_last(), id);
        law_every_run_keeps_the_ledger_sound(ledger, calls.drop_last());
        lemma_attestation_stays(ledger.after_calls(calls.drop_last()), calls.last(), id);
    }
}

/// A submission is what a read gives back, and it can be billed against for its
/// subject and for nobody else.
pub proof fn law_a_submission_can_be_read_and_billed(
    ledger: Ledger,
    caller: Address,
    subject: Address,
    id: Bytes32,
    model_version: Symbol,
    policy_ref: Bytes32,
    sequence: u32,
    other: Address,
)
    requires
        ledger.sound(),
        ledger.error_of(
            Call::Submit { caller, subject, id, model_version, policy_ref, sequence },
        ) is None,
    ensures
        ({
            let later = ledger.after_call(
                Call::Submit { caller, subject, id, model_version, policy_ref, sequence },
            );
            &&& later.attestation(id) == Some(
                Attestation {
                    id,
                    subject,
                    submitter: caller,
                    model_version,
                    policy_ref,
                    ledger: sequence,
                    superseded_by: None,
                },
            )
            &&& billable(later.attestation(id), other) <==> other == subject
        }),
{
    law_steps_lead_to_the_outcome(
        ledger,
        Call::Submit { caller, subject, id, model_version, policy_ref, sequence },
    );
}

/// An id is recorded once: whatever calls follow, submitting under it again never
/// succeeds. A caller that may then act for the subject is told that the
/// attestation exists.
pub proof fn law_an_id_is_recorded_once(ledger: Ledger, calls: Seq<Call>, again: Call)
    requires
        ledger.sound(),
        again is Submit,
        ledger.attestations.contains_key(again->Submit_id),
    ensures
        ({
            let later = ledger.after_calls(calls);
            &&& later.error_of(again) is Some
            &&& again->Submit_caller == again->Submit_subject || later.allowed.contains(
                again->Submit_caller,
            ) ==> later.error_of(again) == Some(Error::AttestationExists)
            &&& later.after_call(again) == later
        }),
{
    law_attestations_are_permanent(ledger, calls, again->Submit_id);
}

/// A replaced attestation can no longer be billed against, by anyone, whatever
/// calls follow, and it cannot be replaced again. Replacing it leaves what its
/// replacement can be billed for as it was.
pub proof fn law_a_replaced_attestation_is_no_longer_billable(
    ledger: Ledger,
    caller: Address,
    old_id: Bytes32,
    new_id: Bytes32,
    calls: Seq<Call>,
    anyone: Address,
    again: Call,
)
    requires
        ledger.sound(),
        ledger.error_of(Call::Supersede { caller, old_id, new_id }) is None,
        again is Supersede,
        again->Supersede_old_id == old_id,
    ensures
        ({
            let replaced = ledger.after_call(Call::Supersede { caller, old_id, new_id });
            let later = replaced.after_calls(calls);
            &&& billable(replaced.attestation(new_id), anyone) == billable(
                ledger.attestation(new_id),
                anyone,
            )
            &&& !billable(later.attestation(old_id), anyone)
            &&& later.attestation(old_id)->0.superseded_by == Some(new_id)
            &&& later.error_of(again) is Some
            &&& again->Supersede_new_id != old_id ==> later.error_of(again) == Some(
                Error::AlreadySuperseded,
            )
        }),
{
    let replace = Call::Supersede { caller, old_id, new_id };
    law_steps_lead_to_the_outcome(ledger, replace);
    law_every_call_keeps_the_ledger_sound(ledger, replace);
    law_attestations_are_permanent(ledger.after_call(replace), calls, old_id);
}

/// The signature that a call must carry: the admin's for the allowlist, the
/// subject's, over the arguments that determine the effect, for a record.
pub open spec fn signature_for(ledger: Ledger, call: Call) -> Step {
    match call {
        Call::Initialize { admin } => Step::RequireAuth { who: admin },
        Call::AllowCaller { .. } => Step::RequireAuth { who: ledger.admin->0 },
        Call::RevokeCaller { .. } => Step::RequireAuth { who: ledger.admin->0 },
        Call::Submit { subject, id, model_version, policy_ref, .. } => Step::RequireAuthForArgs {
            who: subject,
            args: AuthArgs::Submission { id, model_version, policy_ref },
        },
        Call::Supersede { old_id, new_id, .. } => Step::RequireAuthForArgs {
            who: ledger.attestations[old_id].subject,
            args: AuthArgs::Replacement { old_id, new_id },
        },
    }
}

/// A call that goes through first demands the signature of the party whose
/// decision it is. For a record that is the subject, whoever submitted it.
pub proof fn law_calls_demand_the_right_signature(ledger: Ledger, call: Call)
    requires
        ledger.error_of(call) is None,
    ensures
        ledger.steps_of(call).len() > 0,
        ledger.steps_of(call)[0] == signature_for(ledger, call),
{
}

/// A relay gets a record through only if it also proves that it is who it says
/// and is on the allowlist. This holds of submissions and of replacements.
pub proof fn law_relays_must_prove_themselves_and_be_enrolled(
    ledger: Ledger,
    call: Call,
    caller: Address,
    subject: Address,
)
    requires
        ledger.error_of(call) is None,
        ({
            ||| call matches Call::Submit { caller: c, subject: s, .. } && c == caller && s
                == subject
            ||| call matches Call::Supersede { caller: c, old_id, .. } && c == caller
                && ledger.attestations[old_id].subject == subject
        }),
        caller != subject,
    ensures
        ledger.allowed.contains(caller),
        ledger.steps_of(call).len() > 1,
        ledger.steps_of(call)[1] == (Step::RequireAuth { who: caller }),
{
}

/// The subject's signature for a submission is good for no other id, model or
/// policy, and it does not depend on the route.
pub proof fn law_a_submission_signature_is_bound_to_the_record(
    ledger: Ledger,
    one: Call,
    two: Call,
)
    requires
        one is Submit,
        two is Submit,
    ensures
        signature_for(ledger, one) == signature_for(ledger, two) <==> (one->Submit_subject
            == two->Submit_subject && one->Submit_id == two->Submit_id && one->Submit_model_version
            == two->Submit_model_version && one->Submit_policy_ref == two->Submit_policy_ref),
{
}

/// Enrolment and revocation take effect at once, and touch no attestation. A
/// revoked relay can no longer submit for anyone but itself.
pub proof fn law_the_allowlist_takes_effect_at_once(
    ledger: Ledger,
    contract: Address,
    submission: Call,
)
    requires
        ledger.sound(),
        ledger.admin is Some,
        submission is Submit,
        submission->Submit_caller == contract,
        submission->Submit_subject != contract,
    ensures
        ({
            let enrolled = ledger.after_call(Call::AllowCaller { contract });
            let revoked = ledger.after_call(Call::RevokeCaller { contract });
            &&& enrolled.allowed.contains(contract)
            &&& enrolled.attestations == ledger.attestations
            &&& !revoked.allowed.contains(contract)
            &&& revoked.attestations == ledger.attestations
            &&& revoked.error_of(submission) == Some(Error::CallerNotAllowed)
        }),
{
    law_steps_lead_to_the_outcome(ledger, Call::AllowCaller { contract });
    law_steps_lead_to_the_outcome(ledger, Call::RevokeCaller { contract });
}

/// The admin is installed once: whatever calls follow, the first one stays and a
/// second one is refused.
pub proof fn law_the_admin_is_installed_once(ledger: Ledger, calls: Seq<Call>, other: Address)
    requires
        ledger.sound(),
        ledger.admin is Some,
    ensures
        ledger.after_calls(calls).admin == ledger.admin,
        ledger.after_calls(calls).error_of(Call::Initialize { admin: other }) == Some(
            Error::AlreadyInitialized,
        ),
    decreases calls.len(),
{
    if calls.len() > 0 {
        let before = ledger.after_calls(calls.drop_last());
        law_the_admin_is_installed_once(ledger, calls.drop_last(), other);
        law_every_run_keeps_the_ledger_sound(ledger, calls.drop_last());
        if before.error_of(calls.last()) is None {
            law_steps_lead_to_the_outcome(before, calls.last());
        }
    }
}

/// Only the calls that the admin signs change the allowlist.
pub proof fn law_only_the_admin_changes_the_allowlist(ledger: Ledger, call: Call)
    requires
        ledger.sound(),
    ensures
        ledger.after_call(call).allowed != ledger.allowed ==> ledger.admin is Some
            && signature_for(ledger, call) == (Step::RequireAuth { who: ledger.admin->0 }),
{
    if ledger.error_of(call) is None {
        law_steps_lead_to_the_outcome(ledger, call);
    }
}

/// A call that is refused writes nothing and removes nothing, even before the
/// host undoes it.
pub proof fn law_refused_calls_change_nothing(ledger: Ledger, call: Call, i: int)
    requires
        ledger.error_of(call) is Some,
        0 <= i < ledger.steps_of(call).len(),
    ensures
        ledger.steps_of(call)[i] is RequireAuth || ledger.steps_of(call)[i] is RequireAuthForArgs,
{
}

/// Every call that goes through, but for the initialization, ends with an event
/// for those who follow the ledger.
pub proof fn law_changes_are_announced(ledger: Ledger, call: Call)
    requires
        ledger.error_of(call) is None,
        !(call is Initialize),
    ensures
        ledger.steps_of(call).len() > 0,
        ledger.steps_of(call).last() is Publish,
{
}

/// An attestation is renewed as soon as it is written.
pub proof fn law_written_rows_are_renewed(ledger: Ledger, call: Call, i: int, row: Attestation)
    requires
        ledger.error_of(call) is None,
        0 <= i < ledger.steps_of(call).len(),
        ledger.steps_of(call)[i] == (Step::Write { entry: Entry::Attestation(row) }),
    ensures
        i + 1 < ledger.steps_of(call).len(),
        ledger.steps_of(call)[i + 1] == (Step::ExtendTtl {
            key: DataKey::Attestation(row.id),
            threshold: PERSISTENT_THRESHOLD,
            extend_to: PERSISTENT_TTL,
        }),
{
}

} // verus!
