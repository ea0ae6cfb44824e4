//! What holds of the meter as a whole.

use super::ledger::{billed, held, Call, Ledger};
use super::rules::{id_after, record_usage_end};
use super::types::{
    AuthArgs, Entry, Error, PendingUsage, Step, UnattestedPolicy, UsageRecord, Verification,
};
use crate::audit_registry;
use crate::host::{Address, Bytes32, PERSISTENT_THRESHOLD, PERSISTENT_TTL};
use vstd::prelude::*;

verus! {

/// The record that a metering call writes.
pub open spec fn record_of(ledger: Ledger, call: Call) -> UsageRecord {
    let attested = call->attestation_id is Some && call->verified;
    UsageRecord {
        id: id_after(ledger.counter) as u64,
        payer: call->RecordUsage_payer,
        attestation_id: if attested {
            call->attestation_id
        } else {
            None
        },
        units: call->units,
        attested,
        ledger: call->sequence,
    }
}

/// What a call that succeeds leaves behind, in one expression.
pub open spec fn outcome(ledger: Ledger, call: Call) -> Ledger {
    match call {
        Call::Initialize { admin } => Ledger { admin: Some(admin), ..ledger },
        Call::SetRegistry { registry } => Ledger { registry: Some(registry), ..ledger },
        Call::SetPolicy { payer, policy } => Ledger {
            policies: ledger.policies.insert(payer, policy),
            ..ledger
        },
        Call::RecordUsage { payer, units, .. } => {
            let record = record_of(ledger, call);
            let total = (ledger.total(payer, record.attested) + units) as u64;
            let counted = Ledger {
                counter: Some(record.id),
                records: ledger.records.insert(record.id, record),
                ..ledger
            };
            match record.attestation_id {
                Some(id) => Ledger {
                    metered: ledger.metered.insert(id),
                    attested: ledger.attested.insert(payer, total),
                    ..counted
                },
                None => Ledger { unattested: ledger.unattested.insert(payer, total), ..counted },
            }
        },
    }
}

/// Taking the steps of a call that succeeds leaves its outcome behind, and
/// nothing else.
pub proof fn law_steps_lead_to_the_outcome(ledger: Ledger, call: Call)
    requires
        ledger.error_of(call) is None,
    ensures
        ledger.after_call(call) == outcome(ledger, call),
{
    let steps = ledger.steps_of(call);
    match call {
        Call::RecordUsage { attestation_id, verified, .. } => {
            if attestation_id is Some && verified {
                assert(steps.len() == 10);
                reveal_with_fuel(Ledger::after_first, 11);
            } else {
                assert(steps.len() == 8);
                reveal_with_fuel(Ledger::after_first, 9);
            }
            assert(ledger.after_call(call) =~= outcome(ledger, call));
        },
        Call::Initialize { .. } => {
            assert(steps.len() == 3);
            reveal_with_fuel(Ledger::after_first, 4);
        },
        _ => {
            assert(steps.len() == 4);
            reveal_with_fuel(Ledger::after_first, 5);
        },
    }
}


/// What the first `n` records bill does not depend on later records.
proof fn lemma_billed_before(
    records: Map<u64, UsageRecord>,
    record: UsageRecord,
    n: nat,
    payer: Address,
    attested: bool,
)
    requires
        n < record.id,
    ensures
        billed(records.insert(record.id, record), n, payer, attested) == billed(
            records,
            n,
            payer,
            attested,
        ),
    decreases n,
{
    if n > 0 {
        lemma_billed_before(records, record, (n - 1) as nat, payer, attested);
    }
}

proof fn lemma_metering_keeps_marks(ledger: Ledger, call: Call)
    requires
        ledger.sound(),
        ledger.runs(call),
        call is RecordUsage,
        ledger.error_of(call) is None,
    ensures
        outcome(ledger, call).marked(),
        outcome(ledger, call).billed_once(),
{
    let record = record_of(ledger, call);
    let later = outcome(ledger, call);
    assert(!ledger.records.contains_key(record.id));
    assert(record.attestation_id is Some ==> !ledger.metered.contains(record.attestation_id->0));
    assert forall|a: Bytes32| #[trigger] later.metered.contains(a) implies exists|id: u64|
        #[trigger] later.records.contains_key(id) && later.records[id].attestation_id == Some(
            a,
        ) by {
        if record.attestation_id == Some(a) {
            assert(later.records.contains_key(record.id));
        } else {
            assert(ledger.metered.contains(a));
            let id = choose|id: u64| #[trigger]
                ledger.records.contains_key(id) && ledger.records[id].attestation_id == Some(a);
            assert(later.records.contains_key(id));
        }
    }
}

proof fn lemma_metering_keeps_totals(ledger: Ledger, call: Call)
    requires
        ledger.sound(),
        ledger.runs(call),
        call is RecordUsage,
        ledger.error_of(call) is None,
    ensures
        outcome(ledger, call).totalled(),
{
    let record = record_of(ledger, call);
    let later = outcome(ledger, call);
    assert forall|payer: Address, attested: bool| #[trigger]
        later.total(payer, attested) == billed(
            later.records,
            later.count() as nat,
            payer,
            attested,
        ) by {
        lemma_billed_before(ledger.records, record, ledger.count() as nat, payer, attested);
        assert(ledger.total(payer, attested) == billed(
            ledger.records,
            ledger.count() as nat,
            payer,
            attested,
        ));
        assert(later.records[record.id] == record);
    }
}

/// Every call keeps the ledger sound.
pub proof fn law_every_call_keeps_the_ledger_sound(ledger: Ledger, call: Call)
    requires
        ledger.sound(),
        ledger.runs(call),
    ensures
        ledger.after_call(call).sound(),
{
    if ledger.error_of(call) is None {
        law_steps_lead_to_the_outcome(ledger, call);
        if call is RecordUsage {
            lemma_metering_keeps_marks(ledger, call);
            lemma_metering_keeps_totals(ledger, call);
        } else {
            let later = ledger.after_call(call);
            assert forall|payer: Address, attested: bool| #[trigger]
                later.total(payer, attested) == billed(
                    later.records,
                    later.count() as nat,
                    payer,
                    attested,
                ) by {
                assert(ledger.total(payer, attested) == later.total(payer, attested));
            }
        }
    }
}

/// Every run of calls keeps the ledger sound.
pub proof fn law_every_run_keeps_the_ledger_sound(ledger: Ledger, calls: Seq<Call>)
    requires
        ledger.sound(),
    ensures
        ledger.after_calls(calls).sound(),
    decreases calls.len(),
{
    if calls.len() > 0 {
        let before = ledger.after_calls(calls.drop_last());
        law_every_run_keeps_the_ledger_sound(ledger, calls.drop_last());
        if before.runs(calls.last()) {
            law_every_call_keeps_the_ledger_sound(before, calls.last());
        }
    }
}

/// Whatever calls are made on a meter from its deployment on, its ledger is
/// sound: totals are the sums of their records, and no attestation is billed
/// twice.
pub proof fn law_every_reachable_ledger_is_sound(calls: Seq<Call>)
    ensures
        Ledger::fresh().after_calls(calls).sound(),
{
    law_every_run_keeps_the_ledger_sound(Ledger::fresh(), calls);
}

/// An attestation that was metered stays metered, whatever calls follow.
pub proof fn law_a_metered_attestation_stays_metered(
    ledger: Ledger,
    calls: Seq<Call>,
    id: Bytes32,
)
    requires
        ledger.metered.contains(id),
    ensures
        ledger.after_calls(calls).metered.contains(id),
    decreases calls.len(),
{
    if calls.len() > 0 {
        let before = ledger.after_calls(calls.drop_last());
        law_a_metered_attestation_stays_metered(ledger, calls.drop_last(), id);
        if before.error_of(calls.last()) is None {
            law_steps_lead_to_the_outcome(before, calls.last());
        }
    }
}

/// Usage is billed once per attestation: once a record bills an attestation, no
/// usage against it is recorded again, whatever calls were made in between, and
/// the registry is not even asked.
pub proof fn law_an_attestation_is_billed_once(
    ledger: Ledger,
    first: Call,
    between: Seq<Call>,
    again: Call,
)
    requires
        ledger.sound(),
        ledger.runs(first),
        first is RecordUsage,
        ledger.error_of(first) is None,
        first->attestation_id is Some && first->verified,
        again is RecordUsage,
        again->attestation_id == first->attestation_id,
        again->units > 0,
    ensures
        ({
            let later = ledger.after_call(first).after_calls(between);
            &&& record_usage_end(
                later.mark(again->attestation_id->0),
                later.registry,
                again->RecordUsage_payer,
                again->attestation_id,
                again->units,
            ) == Err::<PendingUsage, Error>(Error::AlreadyMetered)
            &&& later.error_of(again) == Some(Error::AlreadyMetered)
            &&& later.after_call(again) == later
        }),
{
    law_steps_lead_to_the_outcome(ledger, first);
    law_a_metered_attestation_stays_metered(
        ledger.after_call(first),
        between,
        first->attestation_id->0,
    );
}

/// An id that fails verification is not burned: the marks stay as they were, so
/// the real attestation that takes the id later can still be billed.
pub proof fn law_a_failed_verification_burns_nothing(ledger: Ledger, failed: Call, later: Call)
    requires
        ledger.sound(),
        failed is RecordUsage,
        failed->attestation_id is Some,
        !failed->verified,
        later is RecordUsage,
        later->attestation_id == failed->attestation_id,
        later->verified,
    ensures
        ledger.after_call(failed).metered == ledger.metered,
        ledger.after_call(failed).error_of(later) == ledger.error_of(later),
{
    if ledger.error_of(failed) is None {
        law_steps_lead_to_the_outcome(ledger, failed);
    }
}

/// Usage that nothing vouches for is recorded only for a payer who opted into
/// it, and then as such: unattested, and without a reference.
pub proof fn law_unattested_usage_needs_consent(ledger: Ledger, call: Call)
    requires
        ledger.sound(),
        ledger.runs(call),
        call is RecordUsage,
        call->attestation_id is None || !call->verified,
        ledger.error_of(call) is None,
    ensures
        held(ledger.policies, call->RecordUsage_payer) == Some(UnattestedPolicy::RecordUnattested),
        ({
            let record = ledger.after_call(call).records[id_after(ledger.counter) as u64];
            &&& !record.attested
            &&& record.attestation_id is None
            &&& record.payer == call->RecordUsage_payer
            &&& record.units == call->units
        }),
{
    law_steps_lead_to_the_outcome(ledger, call);
}

/// A payer who never chose is under the strict policy, and usage without an
/// attestation is refused.
pub proof fn law_the_default_is_to_reject(
    ledger: Ledger,
    payer: Address,
    units: u64,
    sequence: u32,
    verified: bool,
)
    requires
        !ledger.policies.contains_key(payer),
        units > 0,
    ensures
        ledger.policy(payer) == UnattestedPolicy::Reject,
        ledger.error_of(
            Call::RecordUsage { payer, attestation_id: None, units, verified, sequence },
        ) == Some(Error::AttestationRequired),
{
}

/// Attested usage needs no consent to unattested billing: with a verified
/// attestation that was not billed yet, it is recorded unless the total would
/// not fit.
pub proof fn law_attested_usage_is_recorded(ledger: Ledger, call: Call)
    requires
        call is RecordUsage,
        call->units > 0,
        call->attestation_id is Some,
        call->verified,
        ledger.registry is Some,
        !ledger.metered.contains(call->attestation_id->0),
    ensures
        ledger.total(call->RecordUsage_payer, true) + call->units <= u64::MAX ==> ledger.error_of(
            call,
        ) is None,
        ledger.total(call->RecordUsage_payer, true) + call->units > u64::MAX ==> ledger.error_of(
            call,
        ) == Some(Error::UnitsOverflow),
{
}

/// A payer's policy is its own: setting it changes no other payer's policy, and
/// nothing else.
pub proof fn law_a_policy_does_not_leak(
    ledger: Ledger,
    payer: Address,
    policy: UnattestedPolicy,
    other: Address,
)
    requires
        other != payer,
    ensures
        ({
            let later = ledger.after_call(Call::SetPolicy { payer, policy });
            &&& later.policy(payer) == policy
            &&& held(later.policies, other) == held(ledger.policies, other)
            &&& later == Ledger { policies: later.policies, ..ledger }
        }),
{
    law_steps_lead_to_the_outcome(ledger, Call::SetPolicy { payer, policy });
}

/// Records are permanent: whatever calls follow, none changes or disappears.
pub proof fn law_records_are_permanent(ledger: Ledger, calls: Seq<Call>, id: u64)
    requires
        ledger.sound(),
        ledger.records.contains_key(id),
    ensures
        ledger.after_calls(calls).records.contains_key(id),
        ledger.after_calls(calls).records[id] == ledger.records[id],
    decreases calls.len(),
{
    if calls.len() > 0 {
        let before = ledger.after_calls(calls.drop_last());
        law_records_are_permanent(ledger, calls.drop_last(), id);
        law_every_run_keeps_the_ledger_sound(ledger, calls.drop_last());
        if before.runs(calls.last()) && before.error_of(calls.last()) is None {
            law_steps_lead_to_the_outcome(before, calls.last());
        }
    }
}

/// What a metering call writes is what a read gives back, under an id that was
/// free.
pub proof fn law_recorded_usage_can_be_read_back(ledger: Ledger, call: Call)
    requires
        ledger.sound(),
        ledger.runs(call),
        call is RecordUsage,
        ledger.error_of(call) is None,
    ensures
        !ledger.records.contains_key(record_of(ledger, call).id),
        held(ledger.after_call(call).records, record_of(ledger, call).id) == Some(
            record_of(ledger, call),
        ),
{
    law_steps_lead_to_the_outcome(ledger, call);
}

/// A metering call adds its units to one total of its payer, the attested or the
/// unattested one, and leaves the other one and everybody else's alone.
pub proof fn law_totals_are_kept_apart(
    ledger: Ledger,
    call: Call,
    payer: Address,
    attested: bool,
)
    requires
        ledger.runs(call),
        call is RecordUsage,
        ledger.error_of(call) is None,
    ensures
        ledger.after_call(call).total(payer, attested) == ledger.total(payer, attested) + if payer
            == call->RecordUsage_payer && attested == (call->attestation_id is Some
            && call->verified) {
            call->units as int
        } else {
            0
        },
{
    law_steps_lead_to_the_outcome(ledger, call);
}

/// A total never falls, whatever calls follow, so it never wraps.
pub proof fn law_totals_never_fall(
    ledger: Ledger,
    calls: Seq<Call>,
    payer: Address,
    attested: bool,
)
    ensures
        ledger.after_calls(calls).total(payer, attested) >= ledger.total(payer, attested),
    decreases calls.len(),
{
    if calls.len() > 0 {
        let before = ledger.after_calls(calls.drop_last());
        law_totals_never_fall(ledger, calls.drop_last(), payer, attested);
        if before.error_of(calls.last()) is None {
            law_steps_lead_to_the_outcome(before, calls.last());
        }
    }
}

/// The signature that a call must carry.
pub open spec fn signature_for(ledger: Ledger, call: Call) -> Step {
    match call {
        Call::Initialize { admin } => Step::RequireAuth { who: admin },
        Call::SetRegistry { .. } => Step::RequireAuth { who: ledger.admin->0 },
        Call::SetPolicy { payer, policy } => Step::RequireAuthForArgs {
            who: payer,
            args: AuthArgs::Policy { policy },
        },
        Call::RecordUsage { payer, attestation_id, units, .. } => Step::RequireAuthForArgs {
            who: payer,
            args: AuthArgs::Usage { attestation_id, units },
        },
    }
}

/// A call that goes through first demands the signature of the party whose
/// decision it is: the payer's for its policy and its bill, the admin's for the
/// registry.
pub proof fn law_calls_demand_the_right_signature(ledger: Ledger, call: Call)
    requires
        ledger.error_of(call) is None,
    ensures
        ledger.steps_of(call).len() > 0,
        ledger.steps_of(call)[0] == signature_for(ledger, call),
{
}

/// A payer's signature for one metering is good for no other attestation and no
/// other unit count.
pub proof fn law_a_metering_signature_is_bound_to_the_units(ledger: Ledger, one: Call, two: Call)
    requires
        one is RecordUsage,
        two is RecordUsage,
    ensures
        signature_for(ledger, one) == signature_for(ledger, two) <==> (one->RecordUsage_payer
            == two->RecordUsage_payer && one->attestation_id == two->attestation_id && one->units
            == two->units),
{
}

/// The admin is installed once: whatever calls follow, the first one stays and a
/// second one is refused.
pub proof fn law_the_admin_is_installed_once(ledger: Ledger, calls: Seq<Call>, other: Address)
    requires
        ledger.admin is Some,
    ensures
        ledger.after_calls(calls).admin == ledger.admin,
        ledger.after_calls(calls).error_of(Call::Initialize { admin: other }) == Some(
            Error::AlreadyInitialized,
        ),
    decreases calls.len(),
{
    if calls.len() > 0 {
        let before = ledger.after_calls(calls.drop_last());
        law_the_admin_is_installed_once(ledger, calls.drop_last(), other);
        if before.error_of(calls.last()) is None {
            law_steps_lead_to_the_outcome(before, calls.last());
        }
    }
}

/// Only the call that the admin signs changes the registry.
pub proof fn law_only_the_admin_moves_the_registry(ledger: Ledger, call: Call)
    ensures
        ledger.after_call(call).registry != ledger.registry ==> ledger.admin is Some
            && signature_for(ledger, call) == (Step::RequireAuth { who: ledger.admin->0 }),
{
    if ledger.error_of(call) is None {
        law_steps_lead_to_the_outcome(ledger, call);
    }
}

/// The question that a metering call puts to the registry.
pub open spec fn question_of(ledger: Ledger, call: Call) -> Verification {
    record_usage_end(
        ledger.mark(call->attestation_id->0),
        ledger.registry,
        call->RecordUsage_payer,
        call->attestation_id,
        call->units,
    )->Ok_0.question->0
}

/// An invoice traces back to its evidence. Where a registry answers the question
/// that the call puts to it, a record is attested if and only if the registry
/// holds an attestation of the payer under the id that the call named, not
/// superseded at that time, and the record names that id. Whatever the registry
/// is asked to do afterwards, it keeps holding an attestation of that payer there.
pub proof fn law_attested_usage_traces_to_the_registry(
    ledger: Ledger,
    call: Call,
    registry: audit_registry::ledger::Ledger,
    afterwards: Seq<audit_registry::ledger::Call>,
)
    requires
        ledger.runs(call),
        call is RecordUsage,
        call->attestation_id is Some,
        registry.sound(),
        call->verified == audit_registry::rules::billable(
            registry.attestation(question_of(ledger, call).id),
            question_of(ledger, call).subject,
        ),
        ledger.error_of(call) is None,
    ensures
        ({
            let record = ledger.after_call(call).records[id_after(ledger.counter) as u64];
            let evidence = registry.attestation(call->attestation_id->0);
            &&& record.attested <==> evidence is Some && evidence->0.subject == record.payer
                && evidence->0.superseded_by is None
            &&& record.attested ==> {
                &&& record.attestation_id == call->attestation_id
                &&& registry.after_calls(afterwards).attestation(call->attestation_id->0) is Some
                &&& registry.after_calls(afterwards).attestation(
                    call->attestation_id->0,
                )->0.subject == record.payer
            }
        }),
{
    law_steps_lead_to_the_outcome(ledger, call);
    if registry.attestation(call->attestation_id->0) is Some {
        audit_registry::laws::law_attestations_are_permanent(
            registry,
            afterwards,
            call->attestation_id->0,
        );
    }
}

/// A call that is refused writes nothing, even before the host undoes it.
pub proof fn law_refused_calls_change_nothing(ledger: Ledger, call: Call, i: int)
    requires
        ledger.error_of(call) is Some,
        0 <= i < ledger.steps_of(call).len(),
    ensures
        ledger.steps_of(call)[i] is RequireAuth || ledger.steps_of(call)[i] is RequireAuthForArgs,
{
}

/// Every call that goes through, but for the initialization, ends with an event
/// for those who follow the ledger.
pub proof fn law_changes_are_announced(ledger: Ledger, call: Call)
    requires
        ledger.error_of(call) is None,
        !(call is Initialize),
    ensures
        ledger.steps_of(call).len() > 0,
        ledger.steps_of(call).last() is Publish,
{
}

/// An entry that lives on its own, and not with the contract instance.
pub open spec fn persistent(entry: Entry) -> bool {
    !(entry is Admin) && !(entry is Registry) && !(entry is Counter)
}

/// A persistent entry is renewed as soon as it is written.
pub proof fn law_written_rows_are_renewed(ledger: Ledger, call: Call, i: int)
    requires
        ledger.error_of(call) is None,
        0 <= i < ledger.steps_of(call).len(),
        ledger.steps_of(call)[i] is Write,
        persistent(ledger.steps_of(call)[i]->entry),
    ensures
        i + 1 < ledger.steps_of(call).len(),
        ledger.steps_of(call)[i + 1] == (Step::ExtendTtl {
            key: ledger.steps_of(call)[i]->entry.key(),
            threshold: PERSISTENT_THRESHOLD,
            extend_to: PERSISTENT_TTL,
        }),
{
    let steps = ledger.steps_of(call);
    match call {
        Call::RecordUsage { attestation_id, verified, .. } => {
            if attestation_id is Some && verified {
                assert(steps.len() == 10);
            } else {
                assert(steps.len() == 8);
            }
        },
        Call::Initialize { .. } => {
            assert(steps.len() == 3);
        },
        _ => {
            assert(steps.len() == 4);
        },
    }
}

} // verus!
