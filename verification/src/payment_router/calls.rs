//! What each call is for: when it goes through, what it hands back, and what it
//! demands, writes, moves and says, in terms of the rows and arguments alone.

use super::conservation::{law_every_call_keeps_the_ledger_sound, law_steps_lead_to_the_outcome};
use super::ledger::{Call, Ledger};
use super::rules::{
    claim_end, claim_steps, claimable_end, clear_failure_end, clear_failure_steps,
    close_escrow_end, close_escrow_steps, dead_letter_at_end, dead_letter_end, dead_letter_steps,
    dispute_end, dispute_steps, get_escrow_end, initialize_end, initialize_steps, open_escrow_end,
    open_escrow_steps, releasable_end, release_partial_end, release_partial_steps,
    report_failure_end, report_failure_steps, resolve_dispute_end, resolve_dispute_steps,
    settlement_status_end,
};
use super::types::{
    error_code, AuthArgs, Claimed, DataKey, DeadLettered, DisputeResolved, Disputed, Entry, Error,
    Escrow, EscrowClosed, EscrowOpened, Event, FailureReason, PartialReleased, Settlement,
    SettlementFailed, SettlementRecovered, Step, DEAD_LETTER_DELAY, MAX_RELEASES,
    MAX_SETTLEMENT_FAILURES,
};
use crate::host::Address;
use vstd::prelude::*;

verus! {

/// The one signature that is demanded comes first.
pub open spec fn demands_only(steps: Seq<Step>, signature: Step) -> bool {
    &&& steps.len() > 0
    &&& steps[0] == signature
    &&& forall|j: int|
        0 < j < steps.len() ==> !(#[trigger] steps[j] is RequireAuth) && !(
        steps[j] is RequireAuthForArgs)
}

/// These entries are written and no others, each of them once.
pub open spec fn writes_only(steps: Seq<Step>, entries: Seq<Entry>) -> bool {
    &&& forall|j: int|
        0 <= j < steps.len() && #[trigger] steps[j] is Write ==> entries.contains(
            steps[j]->Write_entry,
        )
    &&& forall|k: int|
        0 <= k < entries.len() ==> steps.contains(Step::Write { entry: #[trigger] entries[k] })
    &&& forall|i: int, j: int|
        0 <= i < j < steps.len() && #[trigger] steps[i] is Write ==> steps[i] != #[trigger] steps[j]
}

/// A persistent entry is renewed for thirty days right after it is written, and
/// nothing else is; the contract instance is renewed along with it or not.
pub open spec fn renews_only(steps: Seq<Step>, instance: bool) -> bool {
    &&& forall|j: int|
        0 <= j < steps.len() && #[trigger] steps[j] is Write ==> match steps[j]->Write_entry {
            Entry::Escrow(e) => j + 1 < steps.len() && steps[j + 1] == (Step::ExtendTtl {
                key: DataKey::Escrow(e.id),
                threshold: 259_200,
                extend_to: 518_400,
            }),
            Entry::Settlement(s) => j + 1 < steps.len() && steps[j + 1] == (Step::ExtendTtl {
                key: DataKey::Settlement(s.id),
                threshold: 259_200,
                extend_to: 518_400,
            }),
            _ => true,
        }
    &&& forall|j: int|
        0 <= j < steps.len() && #[trigger] steps[j] is ExtendTtl ==> j > 0 && steps[j - 1] is Write
    &&& forall|j: int|
        0 <= j < steps.len() && #[trigger] steps[j] is ExtendInstanceTtl ==> steps[j] == (
        Step::ExtendInstanceTtl { threshold: 259_200, extend_to: 518_400 })
    &&& instance <==> steps.contains(
        Step::ExtendInstanceTtl { threshold: 259_200, extend_to: 518_400 },
    )
}

/// No token is called, and the marker is left alone.
pub open spec fn moves_nothing(steps: Seq<Step>) -> bool {
    forall|j: int|
        0 <= j < steps.len() ==> !(#[trigger] steps[j] is Transfer) && !(steps[j] is SetInFlight)
            && !(steps[j] is ClearInFlight)
}

/// The marker is set before anything is written or moved, and released after.
pub open spec fn guarded(steps: Seq<Step>) -> bool {
    &&& steps.len() > 3
    &&& steps[1] is SetInFlight
    &&& steps[steps.len() - 2] is ClearInFlight
    &&& forall|j: int|
        0 <= j < steps.len() && (#[trigger] steps[j] is SetInFlight || steps[j] is ClearInFlight)
            ==> j == 1 || j == steps.len() - 2
}

/// The one transfer is this one, made under the marker, after everything that is
/// written.
pub open spec fn moves_only(
    steps: Seq<Step>,
    token: Address,
    from: Address,
    to: Address,
    amount: int,
) -> bool {
    &&& guarded(steps)
    &&& steps[steps.len() - 3] == (Step::Transfer { token, from, to, amount: amount as i128 })
    &&& forall|j: int|
        0 <= j < steps.len() && #[trigger] steps[j] is Transfer ==> j == steps.len() - 3
}

/// The one event is this one, and it comes last.
pub open spec fn says_only(steps: Seq<Step>, event: Event) -> bool {
    &&& steps.len() > 0
    &&& steps.last() == (Step::Publish { event })
    &&& forall|j: int| 0 <= j < steps.len() - 1 ==> !(#[trigger] steps[j] is Publish)
}

/// The published codes tell the errors apart.
pub proof fn law_the_codes_tell_the_errors_apart(one: Error, two: Error)
    requires
        error_code(one) == error_code(two),
    ensures
        one == two,
{
}

/// The limits that the router is published with.
pub proof fn law_the_limits_are_as_published()
    ensures
        MAX_RELEASES == 32,
        MAX_SETTLEMENT_FAILURES == 3,
        DEAD_LETTER_DELAY == 120_960,
{
}

/// An entry is kept under the key of its own kind and id.
pub proof fn law_entries_are_kept_under_their_own_keys(entry: Entry)
    ensures
        match entry {
            Entry::Arbiter(_) => entry.key() == DataKey::Arbiter,
            Entry::Counter(_) => entry.key() == DataKey::Counter,
            Entry::Escrow(e) => entry.key() == DataKey::Escrow(e.id),
            Entry::Settlement(s) => entry.key() == DataKey::Settlement(s.id),
        },
{
}

/// The arbiter is installed where there is none, signs for it, and is what is
/// written. A router that has one refuses, whoever it is.
pub proof fn law_initializing_installs_the_arbiter(held: Option<Address>, arbiter: Address)
    ensures
        initialize_end(held) is Ok <==> held is None,
        held is Some ==> initialize_end(held) == Err::<(), Error>(Error::AlreadyInitialized)
            && initialize_steps(held, arbiter).len() == 0,
        held is None ==> ({
            let steps = initialize_steps(held, arbiter);
            &&& demands_only(steps, Step::RequireAuth { who: arbiter })
            &&& writes_only(steps, seq![Entry::Arbiter(arbiter)])
            &&& renews_only(steps, true)
            &&& moves_nothing(steps)
            &&& forall|j: int| 0 <= j < steps.len() ==> !(#[trigger] steps[j] is Publish)
        }),
{
    let steps = initialize_steps(held, arbiter);
    if held is None {
        assert(steps.len() == 3);
        assert(steps[1] == (Step::Write { entry: Entry::Arbiter(arbiter) }));
        assert(seq![Entry::Arbiter(arbiter)][0] == Entry::Arbiter(arbiter));
        assert(steps[2] is ExtendInstanceTtl);
    }
}

/// A deposit is taken for every positive amount between two different parties,
/// unless a call is in flight. It gets the next id, and each refusal says which of
/// these did not hold.
pub proof fn law_a_deposit_goes_through_between_two_parties(
    counter: Option<u64>,
    in_flight: bool,
    payer: Address,
    payee: Address,
    total: i128,
)
    ensures
        ({
            let end = open_escrow_end(counter, in_flight, payer, payee, total);
            &&& end is Ok <==> total > 0 && payer != payee && !in_flight
            &&& end == Err::<u64, Error>(Error::InvalidAmount) <==> total <= 0
            &&& end == Err::<u64, Error>(Error::SamePayerAndPayee) <==> total > 0 && payer == payee
            &&& end == Err::<u64, Error>(Error::ReentrantCall) <==> total > 0 && payer != payee
                && in_flight
            &&& end is Ok && counter is None ==> end->Ok_0 == 1
            &&& end is Ok && counter is Some && counter->0 < u64::MAX ==> end->Ok_0 == counter->0
                + 1
        }),
{
}

/// A deposit is signed by the payer for this payee, token and amount. It writes the
/// new row and the counter, and moves the whole amount from the payer to the
/// router. A refusal demands the signature only where the arguments make sense.
pub proof fn law_a_deposit_moves_the_total_into_the_router(
    counter: Option<u64>,
    in_flight: bool,
    contract: Address,
    payer: Address,
    payee: Address,
    token: Address,
    total: i128,
)
    requires
        counter is Some ==> counter->0 < u64::MAX,
    ensures
        ({
            let end = open_escrow_end(counter, in_flight, payer, payee, total);
            let steps = open_escrow_steps(counter, in_flight, contract, payer, payee, token, total);
            let signature = Step::RequireAuthForArgs {
                who: payer,
                args: AuthArgs::Deposit { payee, token, total },
            };
            &&& total <= 0 || payer == payee ==> steps.len() == 0
            &&& total > 0 && payer != payee ==> demands_only(steps, signature)
            &&& end is Err ==> steps.len() <= 1
            &&& end is Ok ==> {
                let id = end->Ok_0;
                &&& writes_only(
                    steps,
                    seq![
                        Entry::Counter(id),
                        Entry::Escrow(
                            Escrow {
                                id,
                                payer,
                                payee,
                                token,
                                total,
                                released: 0,
                                claimed: 0,
                                disputed: 0,
                                release_count: 0,
                                closed: false,
                            },
                        ),
                    ],
                )
                &&& renews_only(steps, true)
                &&& moves_only(steps, token, payer, contract, total as int)
                &&& says_only(steps, Event::EscrowOpened(EscrowOpened { id, payer, payee, total }))
            }
        }),
{
    let end = open_escrow_end(counter, in_flight, payer, payee, total);
    let steps = open_escrow_steps(counter, in_flight, contract, payer, payee, token, total);
    if end is Ok {
        let id = end->Ok_0;
        let row = Escrow {
            id,
            payer,
            payee,
            token,
            total,
            released: 0,
            claimed: 0,
            disputed: 0,
            release_count: 0,
            closed: false,
        };
        let entries = seq![Entry::Counter(id), Entry::Escrow(row)];
        assert(steps.len() == 9);
        assert(entries.len() == 2);
        assert(steps[2] == (Step::Write { entry: entries[0] }));
        assert(steps[3] == (Step::Write { entry: entries[1] }));
        assert(steps[5] is ExtendInstanceTtl);
    }
}

/// On every sound row, a positive amount is released if and only if the escrow is
/// open, a release is left of the thirty-two, and the amount is within what is
/// neither released nor frozen. A dispute on part of the deposit makes no other
/// difference. Each refusal says which of these did not hold.
pub proof fn law_a_release_goes_through_within_the_remainder(e: Escrow, amount: i128)
    requires
        e.wf(),
    ensures
        ({
            let end = release_partial_end(Some(e), amount);
            let rest = e.total - e.released - e.disputed;
            &&& end is Ok <==> !e.closed && 0 < amount <= rest && e.release_count < 32
            &&& end == Err::<(), Error>(Error::EscrowClosed) <==> e.closed
            &&& end == Err::<(), Error>(Error::InvalidAmount) <==> !e.closed && amount <= 0
            &&& end == Err::<(), Error>(Error::ReleaseCapReached) <==> !e.closed && amount > 0
                && e.release_count == 32
            &&& end == Err::<(), Error>(Error::InsufficientEscrow) <==> !e.closed && amount > rest
                && amount > 0 && e.release_count < 32
        }),
        release_partial_end(None, amount) == Err::<(), Error>(Error::EscrowNotFound),
{
}

/// A release is signed by the payer for this escrow and amount. It adds the amount
/// to the released total, uses one release, and calls no token.
pub proof fn law_a_release_makes_the_amount_claimable(e: Escrow, id: u64, amount: i128)
    requires
        e.wf(),
        e.id == id,
    ensures
        ({
            let end = release_partial_end(Some(e), amount);
            let steps = release_partial_steps(Some(e), id, amount);
            let row = Escrow {
                released: (e.released + amount) as i128,
                release_count: (e.release_count + 1) as u32,
                ..e
            };
            &&& e.closed || amount <= 0 ==> steps.len() == 0
            &&& !e.closed && amount > 0 ==> demands_only(
                steps,
                Step::RequireAuthForArgs { who: e.payer, args: AuthArgs::Amount { id, amount } },
            )
            &&& end is Err ==> steps.len() <= 1
            &&& end is Ok ==> {
                &&& writes_only(steps, seq![Entry::Escrow(row)])
                &&& renews_only(steps, false)
                &&& moves_nothing(steps)
                &&& says_only(
                    steps,
                    Event::PartialReleased(
                        PartialReleased {
                            id,
                            amount,
                            released_total: (e.released + amount) as i128,
                            release_count: (e.release_count + 1) as u32,
                        },
                    ),
                )
            }
        }),
        release_partial_steps(None, id, amount).len() == 0,
{
    let steps = release_partial_steps(Some(e), id, amount);
    if release_partial_end(Some(e), amount) is Ok {
        let row = Escrow {
            released: (e.released + amount) as i128,
            release_count: (e.release_count + 1) as u32,
            ..e
        };
        assert(steps.len() == 4);
        assert(steps[1] == (Step::Write { entry: seq![Entry::Escrow(row)][0] }));
    }
}

/// Everything released and not yet pulled is paid on the payee's call, on an open
/// escrow and on a closed one alike, and what is handed back is that very amount.
/// Where nothing is left, a closed escrow says that it is settled and an open one
/// that there is nothing yet.
pub proof fn law_a_claim_pays_all_that_was_released(e: Escrow, in_flight: bool)
    requires
        e.wf(),
    ensures
        ({
            let end = claim_end(Some(e), in_flight);
            &&& end is Ok <==> !in_flight && e.released > e.claimed
            &&& end is Ok ==> end->Ok_0 == e.released - e.claimed
            &&& end == Err::<i128, Error>(Error::ReentrantCall) <==> in_flight
            &&& end == Err::<i128, Error>(Error::AlreadySettled) <==> !in_flight && e.released
                == e.claimed && e.closed
            &&& end == Err::<i128, Error>(Error::NothingToClaim) <==> !in_flight && e.released
                == e.claimed && !e.closed
        }),
        claim_end(None, in_flight) == Err::<i128, Error>(Error::EscrowNotFound),
{
}

/// A claim is signed by the payee. It books everything released as pulled, and
/// moves exactly what it hands back from the router to the payee.
pub proof fn law_a_claim_moves_what_it_hands_back(
    e: Escrow,
    in_flight: bool,
    contract: Address,
    id: u64,
)
    requires
        e.wf(),
        e.id == id,
    ensures
        ({
            let end = claim_end(Some(e), in_flight);
            let steps = claim_steps(Some(e), in_flight, contract, id);
            &&& demands_only(steps, Step::RequireAuth { who: e.payee })
            &&& end is Err ==> steps.len() == 1 || (steps.len() == 2 && steps[1] is SetInFlight)
            &&& end is Ok ==> {
                &&& writes_only(steps, seq![Entry::Escrow(Escrow { claimed: e.released, ..e })])
                &&& renews_only(steps, false)
                &&& moves_only(steps, e.token, contract, e.payee, end->Ok_0 as int)
                &&& says_only(
                    steps,
                    Event::Claimed(Claimed { id, payee: e.payee, amount: end->Ok_0 }),
                )
            }
        }),
        claim_steps(None, in_flight, contract, id).len() == 0,
{
    let steps = claim_steps(Some(e), in_flight, contract, id);
    if claim_end(Some(e), in_flight) is Ok {
        let row = Escrow { claimed: e.released, ..e };
        assert(steps.len() == 7);
        assert(steps[2] == (Step::Write { entry: seq![Entry::Escrow(row)][0] }));
    }
}

/// On every sound row without a dispute, any positive part of what is not yet
/// released can be frozen while the escrow is open. Each refusal says what did not
/// hold.
pub proof fn law_a_dispute_goes_through_within_the_remainder(e: Escrow, amount: i128)
    requires
        e.wf(),
    ensures
        ({
            let end = dispute_end(Some(e), amount);
            &&& end is Ok <==> !e.closed && e.disputed == 0 && 0 < amount <= e.total - e.released
            &&& end == Err::<(), Error>(Error::EscrowClosed) <==> e.closed
            &&& end == Err::<(), Error>(Error::DisputeAlreadyOpen) <==> !e.closed && e.disputed > 0
            &&& end == Err::<(), Error>(Error::InvalidAmount) <==> !e.closed && e.disputed == 0
                && amount <= 0
            &&& end == Err::<(), Error>(Error::InsufficientEscrow) <==> !e.closed && e.disputed == 0
                && amount > e.total - e.released
        }),
        dispute_end(None, amount) == Err::<(), Error>(Error::EscrowNotFound),
{
}

/// A dispute is signed by the payer for this escrow and amount. It freezes that
/// amount, changes nothing else in the row, and calls no token.
pub proof fn law_a_dispute_freezes_the_amount(e: Escrow, id: u64, amount: i128)
    requires
        e.wf(),
        e.id == id,
    ensures
        ({
            let end = dispute_end(Some(e), amount);
            let steps = dispute_steps(Some(e), id, amount);
            &&& e.closed || e.disputed > 0 || amount <= 0 ==> steps.len() == 0
            &&& !e.closed && e.disputed == 0 && amount > 0 ==> demands_only(
                steps,
                Step::RequireAuthForArgs { who: e.payer, args: AuthArgs::Amount { id, amount } },
            )
            &&& end is Err ==> steps.len() <= 1
            &&& end is Ok ==> {
                &&& writes_only(steps, seq![Entry::Escrow(Escrow { disputed: amount, ..e })])
                &&& renews_only(steps, false)
                &&& moves_nothing(steps)
                &&& says_only(steps, Event::Disputed(Disputed { id, amount }))
            }
        }),
        dispute_steps(None, id, amount).len() == 0,
{
    let steps = dispute_steps(Some(e), id, amount);
    if dispute_end(Some(e), amount) is Ok {
        let row = Escrow { disputed: amount, ..e };
        assert(steps.len() == 4);
        assert(steps[1] == (Step::Write { entry: seq![Entry::Escrow(row)][0] }));
    }
}

/// Every open dispute can be resolved where there is an arbiter, and nothing else
/// can.
pub proof fn law_every_open_dispute_can_be_resolved(
    arbiter: Option<Address>,
    escrow: Option<Escrow>,
)
    requires
        escrow is Some ==> escrow->0.wf(),
    ensures
        ({
            let end = resolve_dispute_end(arbiter, escrow);
            &&& end is Ok <==> arbiter is Some && escrow is Some && escrow->0.disputed > 0
            &&& end == Err::<(), Error>(Error::NotInitialized) <==> arbiter is None
            &&& end == Err::<(), Error>(Error::EscrowNotFound) <==> arbiter is Some
                && escrow is None
            &&& end == Err::<(), Error>(Error::NoDisputeOpen) <==> arbiter is Some && escrow is Some
                && escrow->0.disputed == 0
        }),
{
}

/// A resolution is signed by the arbiter. For the payee it releases the frozen
/// amount, for the payer it unfreezes it; no release is used up and no token is
/// called.
pub proof fn law_a_resolution_settles_the_frozen_amount(
    arbiter: Option<Address>,
    escrow: Option<Escrow>,
    id: u64,
    to_payee: bool,
)
    requires
        escrow is Some ==> escrow->0.wf() && escrow->0.id == id,
    ensures
        ({
            let end = resolve_dispute_end(arbiter, escrow);
            let steps = resolve_dispute_steps(arbiter, escrow, id, to_payee);
            &&& arbiter is None ==> steps.len() == 0
            &&& arbiter is Some ==> demands_only(steps, Step::RequireAuth { who: arbiter->0 })
            &&& end is Err ==> steps.len() <= 1
            &&& end is Ok ==> {
                let e = escrow->0;
                let row = if to_payee {
                    Escrow { disputed: 0, released: (e.released + e.disputed) as i128, ..e }
                } else {
                    Escrow { disputed: 0, ..e }
                };
                &&& writes_only(steps, seq![Entry::Escrow(row)])
                &&& renews_only(steps, false)
                &&& moves_nothing(steps)
                &&& says_only(
                    steps,
                    Event::DisputeResolved(DisputeResolved { id, amount: e.disputed, to_payee }),
                )
            }
        }),
{
    let steps = resolve_dispute_steps(arbiter, escrow, id, to_payee);
    if resolve_dispute_end(arbiter, escrow) is Ok {
        let e = escrow->0;
        let row = if to_payee {
            Escrow { disputed: 0, released: (e.released + e.disputed) as i128, ..e }
        } else {
            Escrow { disputed: 0, ..e }
        };
        assert(steps.len() == 4);
        assert(steps[1] == (Step::Write { entry: seq![Entry::Escrow(row)][0] }));
    }
}

/// Every open escrow without a dispute can be closed, unless a call is in flight,
/// however much of it was released or pulled.
pub proof fn law_every_undisputed_escrow_can_be_closed(e: Escrow, in_flight: bool)
    requires
        e.wf(),
    ensures
        ({
            let end = close_escrow_end(Some(e), in_flight);
            &&& end is Ok <==> !e.closed && e.disputed == 0 && !in_flight
            &&& end == Err::<(), Error>(Error::AlreadySettled) <==> e.closed
            &&& end == Err::<(), Error>(Error::DisputeAlreadyOpen) <==> !e.closed && e.disputed > 0
            &&& end == Err::<(), Error>(Error::ReentrantCall) <==> !e.closed && e.disputed == 0
                && in_flight
        }),
        close_escrow_end(None, in_flight) == Err::<(), Error>(Error::EscrowNotFound),
{
}

/// A close is signed by the payer for this escrow. It marks the row as closed and
/// moves everything that was not released from the router to the payer, where there
/// is anything.
pub proof fn law_a_close_refunds_all_that_was_not_released(
    e: Escrow,
    in_flight: bool,
    contract: Address,
    id: u64,
)
    requires
        e.wf(),
        e.id == id,
    ensures
        ({
            let end = close_escrow_end(Some(e), in_flight);
            let steps = close_escrow_steps(Some(e), in_flight, contract, id);
            let refund = e.total - e.released;
            &&& e.closed || e.disputed > 0 ==> steps.len() == 0
            &&& !e.closed && e.disputed == 0 ==> demands_only(
                steps,
                Step::RequireAuthForArgs { who: e.payer, args: AuthArgs::Escrow { id } },
            )
            &&& end is Err ==> steps.len() <= 1
            &&& end is Ok ==> {
                &&& writes_only(steps, seq![Entry::Escrow(Escrow { closed: true, ..e })])
                &&& renews_only(steps, false)
                &&& guarded(steps)
                &&& refund > 0 ==> moves_only(steps, e.token, contract, e.payer, refund)
                &&& refund == 0 ==> forall|j: int|
                    0 <= j < steps.len() ==> !(#[trigger] steps[j] is Transfer)
                &&& says_only(
                    steps,
                    Event::EscrowClosed(EscrowClosed { id, refunded: refund as i128 }),
                )
            }
        }),
        close_escrow_steps(None, in_flight, contract, id).len() == 0,
{
    let steps = close_escrow_steps(Some(e), in_flight, contract, id);
    if close_escrow_end(Some(e), in_flight) is Ok {
        let row = Escrow { closed: true, ..e };
        if e.total > e.released {
            assert(steps.len() == 7);
        } else {
            assert(steps.len() == 6);
        }
        assert(steps[2] == (Step::Write { entry: seq![Entry::Escrow(row)][0] }));
    }
}

/// The recovery record of an escrow: the one that is held, or a clear one.
pub open spec fn record_of(settlement: Option<Settlement>, id: u64) -> Settlement {
    match settlement {
        Some(held) => held,
        None => Settlement {
            id,
            failures: 0,
            last_reason: FailureReason::Other,
            failed_at: 0,
            failed: false,
            dead_lettered: false,
        },
    }
}

/// A failure can be reported whenever something is owed to the payee and the
/// settlement was not swept, on an open escrow and on a closed one, however often it
/// was reported before. What is handed back counts the reports.
pub proof fn law_a_failure_can_be_reported_while_something_is_owed(
    escrow: Option<Escrow>,
    settlement: Option<Settlement>,
    id: u64,
)
    requires
        escrow is Some ==> escrow->0.wf(),
        record_of(settlement, id).failures < u32::MAX,
    ensures
        ({
            let end = report_failure_end(escrow, settlement, id);
            let swept = record_of(settlement, id).dead_lettered;
            &&& end is Ok <==> escrow is Some && !swept && escrow->0.released > escrow->0.claimed
            &&& end is Ok ==> end->Ok_0 == record_of(settlement, id).failures + 1
            &&& end == Err::<u32, Error>(Error::EscrowNotFound) <==> escrow is None
            &&& end == Err::<u32, Error>(Error::AlreadyDeadLettered) <==> escrow is Some && swept
            &&& end == Err::<u32, Error>(Error::NothingToClaim) <==> escrow is Some && !swept
                && escrow->0.released == escrow->0.claimed
        }),
{
}

/// A report is signed by the payee for this escrow. It raises the count by one and
/// keeps the reason; the report that makes it three sets the failed state, once, and
/// notes the ledger of that report. The escrow is not written and no token is
/// called.
pub proof fn law_a_report_raises_the_count(
    escrow: Option<Escrow>,
    settlement: Option<Settlement>,
    id: u64,
    reason: FailureReason,
    sequence: u32,
)
    requires
        escrow is Some ==> escrow->0.wf(),
        settlement is Some ==> settlement->0.wf() && settlement->0.id == id,
        record_of(settlement, id).failures < u32::MAX,
    ensures
        ({
            let end = report_failure_end(escrow, settlement, id);
            let steps = report_failure_steps(escrow, settlement, id, reason, sequence);
            let before = record_of(settlement, id);
            let tipped = before.failures == 2;
            &&& escrow is None ==> steps.len() == 0
            &&& escrow is Some ==> demands_only(
                steps,
                Step::RequireAuthForArgs { who: escrow->0.payee, args: AuthArgs::Escrow { id } },
            )
            &&& end is Err ==> steps.len() <= 1
            &&& end is Ok ==> {
                let later = Settlement {
                    id,
                    failures: (before.failures + 1) as u32,
                    last_reason: reason,
                    failed_at: if tipped {
                        sequence
                    } else {
                        before.failed_at
                    },
                    failed: before.failures >= 2,
                    dead_lettered: false,
                };
                &&& writes_only(steps, seq![Entry::Settlement(later)])
                &&& renews_only(steps, false)
                &&& moves_nothing(steps)
                &&& says_only(
                    steps,
                    Event::SettlementFailed(
                        SettlementFailed {
                            id,
                            payee: escrow->0.payee,
                            reason,
                            failures: (before.failures + 1) as u32,
                            exhausted: tipped,
                        },
                    ),
                )
            }
        }),
{
    let steps = report_failure_steps(escrow, settlement, id, reason, sequence);
    if report_failure_end(escrow, settlement, id) is Ok {
        let before = record_of(settlement, id);
        let later = Settlement {
            id,
            failures: (before.failures + 1) as u32,
            last_reason: reason,
            failed_at: if before.failures == 2 {
                sequence
            } else {
                before.failed_at
            },
            failed: before.failures >= 2,
            dead_lettered: false,
        };
        assert(steps.len() == 4);
        assert(steps[1] == (Step::Write { entry: seq![Entry::Settlement(later)][0] }));
    }
}

/// A record can be cleared whenever it is failed and not swept, whatever the escrow
/// holds by then.
pub proof fn law_a_failed_record_can_be_cleared(
    escrow: Option<Escrow>,
    settlement: Option<Settlement>,
    id: u64,
)
    requires
        settlement is Some ==> settlement->0.wf(),
    ensures
        ({
            let end = clear_failure_end(escrow, settlement, id);
            let before = record_of(settlement, id);
            &&& end is Ok <==> escrow is Some && before.failed && !before.dead_lettered
            &&& end == Err::<(), Error>(Error::EscrowNotFound) <==> escrow is None
            &&& end == Err::<(), Error>(Error::SettlementNotFailed) <==> escrow is Some
                && !before.failed
            &&& end == Err::<(), Error>(Error::AlreadyDeadLettered) <==> escrow is Some
                && before.dead_lettered
        }),
{
}

/// Clearing is signed by the payee for this escrow. It writes a clear record and
/// says what is still owed; the escrow is not written and no token is called.
pub proof fn law_clearing_writes_a_clear_record(
    escrow: Option<Escrow>,
    settlement: Option<Settlement>,
    id: u64,
)
    requires
        escrow is Some ==> escrow->0.wf(),
        settlement is Some ==> settlement->0.wf() && settlement->0.id == id,
    ensures
        ({
            let end = clear_failure_end(escrow, settlement, id);
            let steps = clear_failure_steps(escrow, settlement, id);
            &&& escrow is None ==> steps.len() == 0
            &&& escrow is Some ==> demands_only(
                steps,
                Step::RequireAuthForArgs { who: escrow->0.payee, args: AuthArgs::Escrow { id } },
            )
            &&& end is Err ==> steps.len() <= 1
            &&& end is Ok ==> {
                &&& writes_only(steps, seq![Entry::Settlement(record_of(None, id))])
                &&& renews_only(steps, false)
                &&& moves_nothing(steps)
                &&& says_only(
                    steps,
                    Event::SettlementRecovered(
                        SettlementRecovered {
                            id,
                            payee: escrow->0.payee,
                            amount: (escrow->0.released - escrow->0.claimed) as i128,
                        },
                    ),
                )
            }
        }),
{
    let steps = clear_failure_steps(escrow, settlement, id);
    if clear_failure_end(escrow, settlement, id) is Ok {
        assert(steps.len() == 4);
        assert(steps[1] == (Step::Write {
            entry: seq![Entry::Settlement(record_of(None, id))][0],
        }));
    }
}

/// A sweep goes through whenever there is an arbiter, no call is in flight, the
/// record is failed and not yet swept, the whole delay has passed since it failed,
/// and something is owed to the payee, whether the escrow is open or closed. It
/// hands back exactly what is owed. Each refusal says what did not hold.
pub proof fn law_a_sweep_goes_through_after_the_delay(
    arbiter: Option<Address>,
    escrow: Option<Escrow>,
    settlement: Option<Settlement>,
    in_flight: bool,
    id: u64,
    sequence: u32,
)
    requires
        escrow is Some ==> escrow->0.wf(),
        settlement is Some ==> settlement->0.wf(),
    ensures
        ({
            let end = dead_letter_end(arbiter, escrow, settlement, in_flight, id, sequence);
            let state = record_of(settlement, id);
            let reachable = arbiter is Some && escrow is Some && !in_flight;
            let sweepable = reachable && state.failed && !state.dead_lettered;
            let due = sequence >= state.failed_at + 120_960;
            &&& end is Ok <==> sweepable && due && escrow->0.released > escrow->0.claimed
            &&& end is Ok ==> end->Ok_0 == escrow->0.released - escrow->0.claimed
            &&& end == Err::<i128, Error>(Error::NotInitialized) <==> arbiter is None
            &&& end == Err::<i128, Error>(Error::EscrowNotFound) <==> arbiter is Some
                && escrow is None
            &&& end == Err::<i128, Error>(Error::ReentrantCall) <==> arbiter is Some
                && escrow is Some && in_flight
            &&& end == Err::<i128, Error>(Error::SettlementNotFailed) <==> reachable
                && !state.failed
            &&& end == Err::<i128, Error>(Error::AlreadyDeadLettered) <==> reachable
                && state.dead_lettered
            &&& end == Err::<i128, Error>(Error::DeadLetterNotReady) <==> sweepable && !due
            &&& end == Err::<i128, Error>(Error::NothingToClaim) <==> sweepable && due
                && escrow->0.released == escrow->0.claimed
        }),
{
}

/// A sweep is signed by the arbiter. It books everything released as gone, marks the
/// record as swept, and moves exactly what it hands back from the router to the
/// payer.
pub proof fn law_a_sweep_moves_what_it_hands_back(
    arbiter: Option<Address>,
    escrow: Option<Escrow>,
    settlement: Option<Settlement>,
    in_flight: bool,
    contract: Address,
    id: u64,
    sequence: u32,
)
    requires
        escrow is Some ==> escrow->0.wf() && escrow->0.id == id,
        settlement is Some ==> settlement->0.wf() && settlement->0.id == id,
    ensures
        ({
            let end = dead_letter_end(arbiter, escrow, settlement, in_flight, id, sequence);
            let steps = dead_letter_steps(
                arbiter,
                escrow,
                settlement,
                in_flight,
                contract,
                id,
                sequence,
            );
            &&& arbiter is None ==> steps.len() == 0
            &&& arbiter is Some ==> demands_only(steps, Step::RequireAuth { who: arbiter->0 })
            &&& end is Err ==> steps.len() <= 1 || (steps.len() == 2 && steps[1] is SetInFlight)
            &&& end is Ok ==> {
                let e = escrow->0;
                let state = record_of(settlement, id);
                &&& writes_only(
                    steps,
                    seq![
                        Entry::Escrow(Escrow { claimed: e.released, ..e }),
                        Entry::Settlement(Settlement { dead_lettered: true, ..state }),
                    ],
                )
                &&& renews_only(steps, false)
                &&& moves_only(steps, e.token, contract, e.payer, end->Ok_0 as int)
                &&& says_only(
                    steps,
                    Event::DeadLettered(
                        DeadLettered {
                            id,
                            payer: e.payer,
                            amount: end->Ok_0,
                            reason: state.last_reason,
                        },
                    ),
                )
            }
        }),
{
    let steps = dead_letter_steps(arbiter, escrow, settlement, in_flight, contract, id, sequence);
    if dead_letter_end(arbiter, escrow, settlement, in_flight, id, sequence) is Ok {
        let e = escrow->0;
        let entries = seq![
            Entry::Escrow(Escrow { claimed: e.released, ..e }),
            Entry::Settlement(Settlement { dead_lettered: true, ..record_of(settlement, id) }),
        ];
        assert(steps.len() == 9);
        assert(entries.len() == 2);
        assert(steps[2] == (Step::Write { entry: entries[0] }));
        assert(steps[4] == (Step::Write { entry: entries[1] }));
    }
}

/// What the reads report of a row, disputed or not: what is neither released nor
/// frozen, while the escrow is open; what was released and not pulled; the row as it
/// is. Without a row they say so.
pub proof fn law_the_reads_report_the_row(e: Escrow)
    requires
        e.wf(),
    ensures
        releasable_end(Some(e)) is Ok,
        !e.closed ==> releasable_end(Some(e))->Ok_0 == e.total - e.released - e.disputed,
        e.closed ==> releasable_end(Some(e))->Ok_0 == 0,
        claimable_end(Some(e)) is Ok,
        claimable_end(Some(e))->Ok_0 == e.released - e.claimed,
        get_escrow_end(Some(e)) == Ok::<Escrow, Error>(e),
        releasable_end(None) == Err::<i128, Error>(Error::EscrowNotFound),
        claimable_end(None) == Err::<i128, Error>(Error::EscrowNotFound),
        get_escrow_end(None) == Err::<Escrow, Error>(Error::EscrowNotFound),
{
}

/// The recovery state is reported for every escrow that exists: what is held, or a
/// clear record.
pub proof fn law_the_recovery_state_is_reported(
    escrow: Option<Escrow>,
    settlement: Option<Settlement>,
    id: u64,
)
    ensures
        escrow is Some ==> settlement_status_end(escrow, settlement, id) == Ok::<
            Settlement,
            Error,
        >(record_of(settlement, id)),
        escrow is None ==> settlement_status_end(escrow, settlement, id) == Err::<
            Settlement,
            Error,
        >(Error::EscrowNotFound),
{
}

/// The reported deadline is the first ledger at which the sweep is not too early,
/// and there is one exactly while the record is failed and not swept.
pub proof fn law_the_reported_deadline_is_when_the_sweep_opens(
    arbiter: Address,
    e: Escrow,
    settlement: Option<Settlement>,
    id: u64,
    sequence: u32,
)
    requires
        e.wf(),
        settlement is Some ==> settlement->0.wf(),
        record_of(settlement, id).failed_at + 120_960 <= u32::MAX,
    ensures
        ({
            let at = dead_letter_at_end(settlement, id);
            let state = record_of(settlement, id);
            let end = dead_letter_end(Some(arbiter), Some(e), settlement, false, id, sequence);
            &&& at is Some <==> state.failed && !state.dead_lettered
            &&& at is Some ==> at->0 == state.failed_at + 120_960
            &&& at is Some ==> (end == Err::<i128, Error>(Error::DeadLetterNotReady) <==> sequence
                < at->0)
            &&& at is None ==> end is Err
        }),
{
}

/// A claim hands back what the claimable read promised. The payee has that much
/// more and the router that much less, and nothing is claimable afterwards.
pub proof fn law_a_claim_pays_what_was_reported_claimable(ledger: Ledger, id: u64)
    requires
        ledger.sound(),
        ledger.error_of(Call::Claim { id }) is None,
        ledger.escrows[id].payee != ledger.contract,
    ensures
        ({
            let e = ledger.escrows[id];
            let later = ledger.after_call(Call::Claim { id });
            let end = claim_end(ledger.escrow(id), ledger.in_flight);
            &&& end == claimable_end(ledger.escrow(id))
            &&& end->Ok_0 > 0
            &&& later.balance(e.token, e.payee) == ledger.balance(e.token, e.payee) + end->Ok_0
            &&& later.balance(e.token, ledger.contract) == ledger.balance(e.token, ledger.contract)
                - end->Ok_0
            &&& claimable_end(later.escrow(id)) == Ok::<i128, Error>(0)
            &&& releasable_end(later.escrow(id)) == releasable_end(ledger.escrow(id))
        }),
{
    law_steps_lead_to_the_outcome(ledger, Call::Claim { id });
}

/// Whatever was pulled before, the next pull pays exactly what was released since,
/// and a close in between makes no difference to that.
pub proof fn law_the_next_claim_pays_what_was_released_since(
    ledger: Ledger,
    id: u64,
    amount: i128,
)
    requires
        ledger.sound(),
        ledger.error_of(Call::Claim { id }) is None,
        ledger.after_call(Call::Claim { id }).error_of(Call::ReleasePartial { id, amount }) is None,
    ensures
        ({
            let released = ledger.after_call(Call::Claim { id }).after_call(
                Call::ReleasePartial { id, amount },
            );
            let closed = released.after_call(Call::CloseEscrow { id });
            &&& claim_end(released.escrow(id), released.in_flight) == Ok::<i128, Error>(amount)
            &&& claim_end(closed.escrow(id), closed.in_flight) == Ok::<i128, Error>(amount)
        }),
{
    let pull = Call::Claim { id };
    let release = Call::ReleasePartial { id, amount };
    let pulled = ledger.after_call(pull);
    let released = pulled.after_call(release);
    law_steps_lead_to_the_outcome(ledger, pull);
    law_every_call_keeps_the_ledger_sound(ledger, pull);
    law_steps_lead_to_the_outcome(pulled, release);
    law_every_call_keeps_the_ledger_sound(pulled, release);
    if released.error_of(Call::CloseEscrow { id }) is None {
        law_steps_lead_to_the_outcome(released, Call::CloseEscrow { id });
    }
}

/// A release takes its amount from what is reported releasable and adds it to what
/// is reported claimable; no balance changes.
pub proof fn law_a_release_shifts_the_reported_amounts(ledger: Ledger, id: u64, amount: i128)
    requires
        ledger.sound(),
        ledger.error_of(Call::ReleasePartial { id, amount }) is None,
    ensures
        ({
            let later = ledger.after_call(Call::ReleasePartial { id, amount });
            &&& releasable_end(later.escrow(id))->Ok_0 == releasable_end(
                ledger.escrow(id),
            )->Ok_0 - amount
            &&& claimable_end(later.escrow(id))->Ok_0 == claimable_end(ledger.escrow(id))->Ok_0
                + amount
            &&& later.balances == ledger.balances
        }),
{
    law_steps_lead_to_the_outcome(ledger, Call::ReleasePartial { id, amount });
}

/// Two releases settle as much as one release of their sum: the second goes through
/// exactly where the sum would, up to the count of releases, and the rows differ in
/// that count only.
pub proof fn law_releases_add_up(ledger: Ledger, id: u64, first: i128, second: i128, sum: i128)
    requires
        ledger.sound(),
        ledger.error_of(Call::ReleasePartial { id, amount: first }) is None,
        second > 0,
        sum == first + second,
        ledger.escrows[id].release_count < 31,
    ensures
        ({
            let whole = Call::ReleasePartial { id, amount: sum };
            let rest = Call::ReleasePartial { id, amount: second };
            let part = ledger.after_call(Call::ReleasePartial { id, amount: first });
            &&& part.error_of(rest) is None <==> ledger.error_of(whole) is None
            &&& ledger.error_of(whole) is None ==> part.after_call(rest).escrows[id] == (Escrow {
                release_count: (ledger.escrows[id].release_count + 2) as u32,
                ..ledger.after_call(whole).escrows[id]
            })
        }),
{
    let one = Call::ReleasePartial { id, amount: first };
    let whole = Call::ReleasePartial { id, amount: sum };
    let rest = Call::ReleasePartial { id, amount: second };
    let part = ledger.after_call(one);
    law_steps_lead_to_the_outcome(ledger, one);
    law_every_call_keeps_the_ledger_sound(ledger, one);
    if ledger.error_of(whole) is None {
        law_steps_lead_to_the_outcome(ledger, whole);
        law_steps_lead_to_the_outcome(part, rest);
    }
}

/// A dispute takes its amount from what is reported releasable and from nothing
/// else: the rest can still be released, to the last unit, and what was released can
/// still be pulled.
pub proof fn law_a_dispute_leaves_the_rest_settleable(
    ledger: Ledger,
    id: u64,
    amount: i128,
    released: i128,
)
    requires
        ledger.sound(),
        ledger.error_of(Call::Dispute { id, amount }) is None,
        released > 0,
    ensures
        ({
            let frozen = ledger.after_call(Call::Dispute { id, amount });
            let release = Call::ReleasePartial { id, amount: released };
            &&& releasable_end(frozen.escrow(id))->Ok_0 == releasable_end(
                ledger.escrow(id),
            )->Ok_0 - amount
            &&& claimable_end(frozen.escrow(id)) == claimable_end(ledger.escrow(id))
            &&& claim_end(frozen.escrow(id), false) == claim_end(ledger.escrow(id), false)
            &&& frozen.balances == ledger.balances
            &&& frozen.error_of(release) is None <==> ledger.error_of(release) is None && released
                <= releasable_end(ledger.escrow(id))->Ok_0 - amount
        }),
{
    law_steps_lead_to_the_outcome(ledger, Call::Dispute { id, amount });
}

/// A close pays the payer what was reported releasable, and a sweep what was
/// reported claimable; the router has that much less.
pub proof fn law_the_payer_gets_back_what_was_reported(ledger: Ledger, id: u64, sequence: u32)
    requires
        ledger.sound(),
        ledger.escrows.contains_key(id),
        ledger.escrows[id].payer != ledger.contract,
    ensures
        ({
            let e = ledger.escrows[id];
            let close = Call::CloseEscrow { id };
            let sweep = Call::DeadLetter { id, sequence };
            let refund = releasable_end(ledger.escrow(id))->Ok_0;
            let claim = claimable_end(ledger.escrow(id))->Ok_0;
            &&& ledger.error_of(close) is None ==> {
                let later = ledger.after_call(close);
                &&& later.balance(e.token, e.payer) == ledger.balance(e.token, e.payer) + refund
                &&& later.balance(e.token, ledger.contract) == ledger.balance(
                    e.token,
                    ledger.contract,
                ) - refund
            }
            &&& ledger.error_of(sweep) is None ==> {
                let later = ledger.after_call(sweep);
                &&& later.balance(e.token, e.payer) == ledger.balance(e.token, e.payer) + claim
                &&& later.balance(e.token, ledger.contract) == ledger.balance(
                    e.token,
                    ledger.contract,
                ) - claim
                &&& claimable_end(later.escrow(id)) == Ok::<i128, Error>(0)
            }
        }),
{
    if ledger.error_of(Call::CloseEscrow { id }) is None {
        law_steps_lead_to_the_outcome(ledger, Call::CloseEscrow { id });
    }
    if ledger.error_of(Call::DeadLetter { id, sequence }) is None {
        law_steps_lead_to_the_outcome(ledger, Call::DeadLetter { id, sequence });
    }
}

/// What is broken can be swept, open or closed: three reports on an escrow that owes
/// something, no earlier report, then the delay, and the arbiter gets the payer
/// exactly what the payee could have pulled. A close between does not change that.
pub proof fn law_three_reports_and_the_delay_open_the_sweep(
    ledger: Ledger,
    id: u64,
    reason: FailureReason,
    at: u32,
    sequence: u32,
)
    requires
        ledger.sound(),
        ledger.arbiter is Some,
        ledger.escrows.contains_key(id),
        ledger.escrows[id].released > ledger.escrows[id].claimed,
        record_of(ledger.settlement(id), id).failures == 0,
        sequence >= at + 120_960,
    ensures
        ({
            let report = Call::ReportFailure { id, reason, sequence: at };
            let failed = ledger.after_call(report).after_call(report).after_call(report);
            let closed = failed.after_call(Call::CloseEscrow { id });
            let amount = ledger.escrows[id].released - ledger.escrows[id].claimed;
            &&& dead_letter_end(
                failed.arbiter,
                failed.escrow(id),
                failed.settlement(id),
                failed.in_flight,
                id,
                sequence,
            ) == Ok::<i128, Error>(amount as i128)
            &&& dead_letter_end(
                closed.arbiter,
                closed.escrow(id),
                closed.settlement(id),
                closed.in_flight,
                id,
                sequence,
            ) == Ok::<i128, Error>(amount as i128)
        }),
{
    let report = Call::ReportFailure { id, reason, sequence: at };
    let one = ledger.after_call(report);
    let two = one.after_call(report);
    let failed = two.after_call(report);
    law_steps_lead_to_the_outcome(ledger, report);
    law_every_call_keeps_the_ledger_sound(ledger, report);
    law_steps_lead_to_the_outcome(one, report);
    law_every_call_keeps_the_ledger_sound(one, report);
    law_steps_lead_to_the_outcome(two, report);
    law_every_call_keeps_the_ledger_sound(two, report);
    if failed.error_of(Call::CloseEscrow { id }) is None {
        law_steps_lead_to_the_outcome(failed, Call::CloseEscrow { id });
    }
}

} // verus!
