//! What each call is for: when it goes through, what it hands back, and what it
//! demands, asks, writes and says, in terms of the entries and arguments alone.

use super::laws::{law_every_call_keeps_the_ledger_sound, law_steps_lead_to_the_outcome};
use super::ledger::{held, Call, Ledger};
use super::rules::{
    conclude_usage_end, conclude_usage_steps, get_usage_end, initialize_end, initialize_steps,
    metered_mark, policy_of, record_usage_end, record_usage_steps, set_registry_end,
    set_registry_steps, set_unattested_policy_steps, total_of, units_key_of,
};
use super::types::{
    error_code, AuthArgs, DataKey, Entry, Error, Event, PendingUsage, PolicySet, RegistrySet, Step,
    UnattestedPolicy, UsageRecord, UsageRecorded,
};
use crate::host::{Address, Bytes32};
use vstd::prelude::*;

verus! {

/// The one signature that is demanded comes first.
pub open spec fn demands_only(steps: Seq<Step>, signature: Step) -> bool {
    &&& steps.len() > 0
    &&& steps[0] == signature
    &&& forall|j: int|
        0 < j < steps.len() ==> !(#[trigger] steps[j] is RequireAuth) && !(
        steps[j] is RequireAuthForArgs)
}

/// No signature is demanded.
pub open spec fn demands_nothing(steps: Seq<Step>) -> bool {
    forall|j: int|
        0 <= j < steps.len() ==> !(#[trigger] steps[j] is RequireAuth) && !(
        steps[j] is RequireAuthForArgs)
}

/// These entries are written and no others, each of them once.
pub open spec fn writes_only(steps: Seq<Step>, entries: Seq<Entry>) -> bool {
    &&& forall|j: int|
        0 <= j < steps.len() && #[trigger] steps[j] is Write ==> entries.contains(
            steps[j]->Write_entry,
        )
    &&& forall|k: int|
        0 <= k < entries.len() ==> steps.contains(Step::Write { entry: #[trigger] entries[k] })
    &&& forall|i: int, j: int|
        0 <= i < j < steps.len() && #[trigger] steps[i] is Write ==> steps[i] != #[trigger] steps[j]
}

/// The key that a persistent entry is kept under.
pub open spec fn persistent_key(entry: Entry) -> Option<DataKey> {
    match entry {
        Entry::Policy(payer, _) => Some(DataKey::Policy(payer)),
        Entry::Record(record) => Some(DataKey::Record(record.id)),
        Entry::Metered(id) => Some(DataKey::Metered(id)),
        Entry::AttestedUnits(payer, _) => Some(DataKey::AttestedUnits(payer)),
        Entry::UnattestedUnits(payer, _) => Some(DataKey::UnattestedUnits(payer)),
        _ => None,
    }
}

/// A persistent entry is renewed for thirty days right after it is written, and
/// nothing else is; the contract instance is renewed along with it or not.
pub open spec fn renews_only(steps: Seq<Step>, instance: bool) -> bool {
    &&& forall|j: int|
        0 <= j < steps.len() && #[trigger] steps[j] is Write && persistent_key(
            steps[j]->Write_entry,
        ) is Some ==> j + 1 < steps.len() && steps[j + 1] == (Step::ExtendTtl {
            key: persistent_key(steps[j]->Write_entry)->0,
            threshold: 259_200,
            extend_to: 518_400,
        })
    &&& forall|j: int|
        0 <= j < steps.len() && #[trigger] steps[j] is ExtendTtl ==> j > 0 && steps[j - 1] is Write
    &&& forall|j: int|
        0 <= j < steps.len() && #[trigger] steps[j] is ExtendInstanceTtl ==> steps[j] == (
        Step::ExtendInstanceTtl { threshold: 259_200, extend_to: 518_400 })
    &&& instance <==> steps.contains(
        Step::ExtendInstanceTtl { threshold: 259_200, extend_to: 518_400 },
    )
}

/// The one event is this one, and it comes last.
pub open spec fn says_only(steps: Seq<Step>, event: Event) -> bool {
    &&& steps.len() > 0
    &&& steps.last() == (Step::Publish { event })
    &&& forall|j: int| 0 <= j < steps.len() - 1 ==> !(#[trigger] steps[j] is Publish)
}

/// The published codes tell the errors apart.
pub proof fn law_the_codes_tell_the_errors_apart(one: Error, two: Error)
    requires
        error_code(one) == error_code(two),
    ensures
        one == two,
{
}

/// An entry is kept under the key of its own kind, id and payer.
pub proof fn law_entries_are_kept_under_their_own_keys(entry: Entry)
    ensures
        match entry {
            Entry::Admin(_) => entry.key() == DataKey::Admin,
            Entry::Registry(_) => entry.key() == DataKey::Registry,
            Entry::Counter(_) => entry.key() == DataKey::Counter,
            _ => Some(entry.key()) == persistent_key(entry),
        },
{
}

/// The admin is installed where there is none, signs for it, and is what is written.
/// A meter that has one refuses, whoever it is.
pub proof fn law_initializing_installs_the_admin(held: Option<Address>, admin: Address)
    ensures
        initialize_end(held) is Ok <==> held is None,
        held is Some ==> initialize_end(held) == Err::<(), Error>(Error::AlreadyInitialized)
            && initialize_steps(held, admin).len() == 0,
        held is None ==> ({
            let steps = initialize_steps(held, admin);
            &&& demands_only(steps, Step::RequireAuth { who: admin })
            &&& writes_only(steps, seq![Entry::Admin(admin)])
            &&& renews_only(steps, true)
            &&& forall|j: int| 0 <= j < steps.len() ==> !(#[trigger] steps[j] is Publish)
        }),
{
    let steps = initialize_steps(held, admin);
    if held is None {
        assert(steps.len() == 3);
        assert(steps[1] == (Step::Write { entry: seq![Entry::Admin(admin)][0] }));
        assert(steps[2] is ExtendInstanceTtl);
    }
}

/// The meter can be pointed at any registry, and at another one later, where there is
/// an admin, who signs for it.
pub proof fn law_the_admin_points_the_meter(admin: Option<Address>, registry: Address)
    ensures
        set_registry_end(admin) is Ok <==> admin is Some,
        admin is None ==> set_registry_end(admin) == Err::<(), Error>(Error::NotInitialized)
            && set_registry_steps(admin, registry).len() == 0,
        admin is Some ==> ({
            let steps = set_registry_steps(admin, registry);
            &&& demands_only(steps, Step::RequireAuth { who: admin->0 })
            &&& writes_only(steps, seq![Entry::Registry(registry)])
            &&& renews_only(steps, true)
            &&& says_only(steps, Event::RegistrySet(RegistrySet { registry }))
        }),
{
    let steps = set_registry_steps(admin, registry);
    if admin is Some {
        assert(steps.len() == 4);
        assert(steps[1] == (Step::Write { entry: seq![Entry::Registry(registry)][0] }));
        assert(steps[2] is ExtendInstanceTtl);
    }
}

/// Every payer can choose either policy at any time, and signs for that choice. What
/// is read back is the choice, and the strict one where there was none.
pub proof fn law_a_payer_chooses_its_policy(payer: Address, policy: UnattestedPolicy)
    ensures
        ({
            let steps = set_unattested_policy_steps(payer, policy);
            &&& demands_only(
                steps,
                Step::RequireAuthForArgs { who: payer, args: AuthArgs::Policy { policy } },
            )
            &&& writes_only(steps, seq![Entry::Policy(payer, policy)])
            &&& renews_only(steps, false)
            &&& says_only(steps, Event::PolicySet(PolicySet { payer, policy }))
        }),
        policy_of(Some(policy)) == policy,
        policy_of(None) == UnattestedPolicy::Reject,
{
    let steps = set_unattested_policy_steps(payer, policy);
    assert(steps.len() == 4);
    assert(steps[1] == (Step::Write { entry: seq![Entry::Policy(payer, policy)][0] }));
}

/// Every request for some units is accepted where it names no attestation, and where
/// it names one that was not metered and a registry is set. Each refusal says what
/// did not hold.
pub proof fn law_a_request_is_accepted_for_an_unmetered_attestation(
    metered: Option<()>,
    registry: Option<Address>,
    payer: Address,
    attestation_id: Option<Bytes32>,
    units: u64,
)
    ensures
        ({
            let end = record_usage_end(metered, registry, payer, attestation_id, units);
            let named = units > 0 && attestation_id is Some;
            &&& end is Ok <==> units > 0 && (attestation_id is None || (metered is None
                && registry is Some))
            &&& end == Err::<PendingUsage, Error>(Error::ZeroUnits) <==> units == 0
            &&& end == Err::<PendingUsage, Error>(Error::AlreadyMetered) <==> named
                && metered is Some
            &&& end == Err::<PendingUsage, Error>(Error::RegistryNotSet) <==> named
                && metered is None && registry is None
        }),
{
}

/// An accepted request carries the payer and the units on, and puts one question
/// where it names an attestation: to the configured registry, about that very id, with
/// the payer as the subject, whoever the payer is. Without an attestation there is no
/// question.
pub proof fn law_the_question_is_about_the_payer(
    metered: Option<()>,
    registry: Option<Address>,
    payer: Address,
    attestation_id: Option<Bytes32>,
    units: u64,
)
    requires
        record_usage_end(metered, registry, payer, attestation_id, units) is Ok,
    ensures
        ({
            let pending = record_usage_end(metered, registry, payer, attestation_id, units)->Ok_0;
            &&& pending.payer == payer
            &&& pending.units == units
            &&& pending.question is Some <==> attestation_id is Some
            &&& attestation_id is Some ==> {
                &&& Some(pending.question->0.registry) == registry
                &&& Some(pending.question->0.id) == attestation_id
                &&& pending.question->0.subject == payer
            }
        }),
{
}

/// A request for some units is signed by the payer for this attestation and this many
/// units, whether it is accepted or not, and does nothing else. One for no units is
/// turned away without a signature.
pub proof fn law_a_request_is_signed_by_the_payer(
    payer: Address,
    attestation_id: Option<Bytes32>,
    units: u64,
)
    ensures
        ({
            let steps = record_usage_steps(payer, attestation_id, units);
            &&& units == 0 ==> steps.len() == 0
            &&& units > 0 ==> steps.len() == 1 && steps[0] == (Step::RequireAuthForArgs {
                who: payer,
                args: AuthArgs::Usage { attestation_id, units },
            })
        }),
{
}

/// The attestation that the registry vouched for, where one was asked about.
pub open spec fn vouched_for(pending: PendingUsage, verified: bool) -> Option<Bytes32> {
    if pending.question is Some && verified {
        Some(pending.question->0.id)
    } else {
        None
    }
}

/// Usage is recorded whenever the registry vouched for it, or the payer opted into
/// unattested usage, as long as the total fits. It gets the next id. Each refusal
/// says what did not hold.
pub proof fn law_usage_is_recorded_where_it_is_vouched_for_or_consented(
    policy: Option<UnattestedPolicy>,
    counter: Option<u64>,
    total: Option<u64>,
    pending: PendingUsage,
    verified: bool,
)
    ensures
        ({
            let end = conclude_usage_end(policy, counter, total, pending, verified);
            let due = vouched_for(pending, verified) is Some || policy == Some(
                UnattestedPolicy::RecordUnattested,
            );
            let before: int = if total is Some {
                total->0 as int
            } else {
                0
            };
            let fits = before + pending.units <= u64::MAX;
            &&& end is Ok <==> due && fits
            &&& end == Err::<u64, Error>(Error::AttestationRequired) <==> !due
            &&& end == Err::<u64, Error>(Error::UnitsOverflow) <==> due && !fits
            &&& end is Ok && counter is None ==> end->Ok_0 == 1
            &&& end is Ok && counter is Some && counter->0 < u64::MAX ==> end->Ok_0 == counter->0
                + 1
        }),
{
}

/// Recorded usage names its payer, its units, its ledger, and the attestation exactly
/// where the registry vouched for it. That attestation is marked as metered, and the
/// units are added to the payer's attested total; otherwise nothing is marked and they
/// are added to the unattested one. A refusal does nothing.
pub proof fn law_recorded_usage_is_billed_to_the_payer(
    policy: Option<UnattestedPolicy>,
    counter: Option<u64>,
    total: Option<u64>,
    sequence: u32,
    pending: PendingUsage,
    verified: bool,
)
    requires
        counter is Some ==> counter->0 < u64::MAX,
    ensures
        ({
            let end = conclude_usage_end(policy, counter, total, pending, verified);
            let steps = conclude_usage_steps(policy, counter, total, sequence, pending, verified);
            let evidence = vouched_for(pending, verified);
            let before: int = if total is Some {
                total->0 as int
            } else {
                0
            };
            let sum = (before + pending.units) as u64;
            &&& end is Err ==> steps.len() == 0
            &&& end is Ok ==> {
                let id = end->Ok_0;
                let record = UsageRecord {
                    id,
                    payer: pending.payer,
                    attestation_id: evidence,
                    units: pending.units,
                    attested: evidence is Some,
                    ledger: sequence,
                };
                &&& demands_nothing(steps)
                &&& evidence is Some ==> writes_only(
                    steps,
                    seq![
                        Entry::Metered(evidence->0),
                        Entry::Counter(id),
                        Entry::Record(record),
                        Entry::AttestedUnits(pending.payer, sum),
                    ],
                )
                &&& evidence is None ==> writes_only(
                    steps,
                    seq![
                        Entry::Counter(id),
                        Entry::Record(record),
                        Entry::UnattestedUnits(pending.payer, sum),
                    ],
                )
                &&& renews_only(steps, true)
                &&& says_only(
                    steps,
                    Event::UsageRecorded(
                        UsageRecorded {
                            payer: pending.payer,
                            attested: evidence is Some,
                            id,
                            units: pending.units,
                            attestation_id: evidence,
                        },
                    ),
                )
            }
        }),
{
    let end = conclude_usage_end(policy, counter, total, pending, verified);
    let steps = conclude_usage_steps(policy, counter, total, sequence, pending, verified);
    let evidence = vouched_for(pending, verified);
    if end is Ok {
        let id = end->Ok_0;
        let before: int = if total is Some {
            total->0 as int
        } else {
            0
        };
        let sum = (before + pending.units) as u64;
        let record = UsageRecord {
            id,
            payer: pending.payer,
            attestation_id: evidence,
            units: pending.units,
            attested: evidence is Some,
            ledger: sequence,
        };
        if evidence is Some {
            let entries = seq![
                Entry::Metered(evidence->0),
                Entry::Counter(id),
                Entry::Record(record),
                Entry::AttestedUnits(pending.payer, sum),
            ];
            assert(steps.len() == 9);
            assert(entries.len() == 4);
            assert(steps[0] == (Step::Write { entry: entries[0] }));
            assert(steps[2] == (Step::Write { entry: entries[1] }));
            assert(steps[3] == (Step::Write { entry: entries[2] }));
            assert(steps[5] == (Step::Write { entry: entries[3] }));
            assert(steps[7] is ExtendInstanceTtl);
        } else {
            let entries = seq![
                Entry::Counter(id),
                Entry::Record(record),
                Entry::UnattestedUnits(pending.payer, sum),
            ];
            assert(steps.len() == 7);
            assert(entries.len() == 3);
            assert(steps[0] == (Step::Write { entry: entries[0] }));
            assert(steps[1] == (Step::Write { entry: entries[1] }));
            assert(steps[3] == (Step::Write { entry: entries[2] }));
            assert(steps[5] is ExtendInstanceTtl);
        }
    }
}

/// The total that is to be read before usage is concluded is the one that concluding
/// it writes: the payer's attested one where the registry vouched, the unattested one
/// otherwise.
pub proof fn law_the_total_that_is_read_is_the_one_that_is_written(
    pending: PendingUsage,
    verified: bool,
)
    ensures
        units_key_of(pending, verified) == if vouched_for(pending, verified) is Some {
            DataKey::AttestedUnits(pending.payer)
        } else {
            DataKey::UnattestedUnits(pending.payer)
        },
{
}

/// What the reads report: the record as it is, where there is one; that an attestation
/// is metered exactly where the ledger holds its mark; a total as it is held, and zero
/// where none is.
pub proof fn law_the_reads_report_the_ledger(record: UsageRecord, mark: Option<()>, total: u64)
    ensures
        get_usage_end(Some(record)) == Ok::<UsageRecord, Error>(record),
        get_usage_end(None) == Err::<UsageRecord, Error>(Error::RecordNotFound),
        metered_mark(mark) <==> mark is Some,
        total_of(Some(total)) == total,
        total_of(None) == 0,
{
}

/// The metered read tells whether a request would be turned away as a replay.
pub proof fn law_a_metered_attestation_is_turned_away(
    mark: Option<()>,
    registry: Option<Address>,
    payer: Address,
    id: Bytes32,
    units: u64,
)
    requires
        units > 0,
    ensures
        record_usage_end(mark, registry, payer, Some(id), units) == Err::<PendingUsage, Error>(
            Error::AlreadyMetered,
        ) <==> metered_mark(mark),
{
}

/// Recording raises exactly one total by exactly its units, marks exactly the
/// attestation that was vouched for, and adds exactly one record, for every payer.
/// Everything else that the meter holds stays.
pub proof fn law_recording_changes_one_total_and_one_record(ledger: Ledger, call: Call)
    requires
        ledger.sound(),
        ledger.runs(call),
        call is RecordUsage,
        ledger.error_of(call) is None,
    ensures
        ({
            let payer = call->RecordUsage_payer;
            let attested = call->attestation_id is Some && call->verified;
            let later = ledger.after_call(call);
            let id: u64 = if ledger.counter is Some {
                (ledger.counter->0 + 1) as u64
            } else {
                1
            };
            let raised = |held: Option<u64>| -> int {
                (if held is Some {
                    held->0 as int
                } else {
                    0
                }) + call->units
            };
            &&& later.counter == Some(id)
            &&& !ledger.records.contains_key(id)
            &&& later.records == ledger.records.insert(
                id,
                UsageRecord {
                    id,
                    payer,
                    attestation_id: if attested {
                        call->attestation_id
                    } else {
                        None
                    },
                    units: call->units,
                    attested,
                    ledger: call->sequence,
                },
            )
            &&& attested ==> {
                &&& later.metered == ledger.metered.insert(call->attestation_id->0)
                &&& later.attested == ledger.attested.insert(
                    payer,
                    raised(held(ledger.attested, payer)) as u64,
                )
                &&& raised(held(ledger.attested, payer)) <= u64::MAX
                &&& later.unattested == ledger.unattested
            }
            &&& !attested ==> {
                &&& later.metered == ledger.metered
                &&& later.attested == ledger.attested
                &&& later.unattested == ledger.unattested.insert(
                    payer,
                    raised(held(ledger.unattested, payer)) as u64,
                )
                &&& raised(held(ledger.unattested, payer)) <= u64::MAX
            }
            &&& later.admin == ledger.admin
            &&& later.registry == ledger.registry
            &&& later.policies == ledger.policies
        }),
{
    law_steps_lead_to_the_outcome(ledger, call);
}

/// Recording two usages of one kind for one payer bills as much as recording their
/// sum.
pub proof fn law_units_add_up(
    ledger: Ledger,
    payer: Address,
    first: u64,
    second: u64,
    sum: u64,
    sequence: u32,
)
    requires
        ledger.sound(),
        held(ledger.policies, payer) == Some(UnattestedPolicy::RecordUnattested),
        first > 0,
        second > 0,
        sum == first + second,
        ledger.counter is Some ==> ledger.counter->0 < u64::MAX - 1,
    ensures
        ({
            let verified = false;
            let attestation_id = None::<Bytes32>;
            let one = Call::RecordUsage { payer, attestation_id, units: first, verified, sequence };
            let two = Call::RecordUsage {
                payer,
                attestation_id,
                units: second,
                verified,
                sequence,
            };
            let whole = Call::RecordUsage { payer, attestation_id, units: sum, verified, sequence };
            ledger.error_of(whole) is None ==> {
                &&& ledger.error_of(one) is None
                &&& ledger.after_call(one).error_of(two) is None
                &&& ledger.after_call(one).after_call(two).unattested == ledger.after_call(
                    whole,
                ).unattested
            }
        }),
{
    let verified = false;
    let attestation_id = None::<Bytes32>;
    let one = Call::RecordUsage { payer, attestation_id, units: first, verified, sequence };
    let two = Call::RecordUsage { payer, attestation_id, units: second, verified, sequence };
    let whole = Call::RecordUsage { payer, attestation_id, units: sum, verified, sequence };
    if ledger.error_of(whole) is None {
        law_steps_lead_to_the_outcome(ledger, whole);
        law_steps_lead_to_the_outcome(ledger, one);
        law_every_call_keeps_the_ledger_sound(ledger, one);
        law_steps_lead_to_the_outcome(ledger.after_call(one), two);
        assert(ledger.after_call(one).after_call(two).unattested =~= ledger.after_call(
            whole,
        ).unattested);
    }
}

} // verus!
