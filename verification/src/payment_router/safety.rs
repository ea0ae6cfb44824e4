//! Who may move value, when, and how often.

use super::conservation::{
    law_every_call_conserves_value, law_every_call_keeps_the_ledger_sound,
    law_every_run_keeps_the_ledger_sound, law_rows_only_move_forward,
    law_steps_lead_to_the_outcome, lemma_first_three, lemma_quiet_calls_keep_the_debt,
    lemma_two_more, outcome,
};
use super::ledger::{outstanding, owed, Call, Ledger};
use super::rules::{claimable_end, id_after, new_escrow, releasable_end, release_partial_end};
use super::types::{AuthArgs, Entry, Error, Escrow, Step, MAX_RELEASES};
use crate::host::{Address, PERSISTENT_THRESHOLD, PERSISTENT_TTL};
use vstd::prelude::*;

verus! {

/// The calls that move value through a token.
pub open spec fn moves_value(call: Call) -> bool {
    call is OpenEscrow || call is Claim || call is CloseEscrow || call is DeadLetter
}

/// A call that ends in an error writes nothing, transfers nothing and publishes
/// nothing, even before the host undoes it.
pub proof fn law_refused_calls_move_nothing(ledger: Ledger, call: Call, i: int)
    requires
        ledger.error_of(call) is Some,
        0 <= i < ledger.steps_of(call).len(),
    ensures
        ({
            let step = ledger.steps_of(call)[i];
            step is RequireAuth || step is RequireAuthForArgs || step is SetInFlight
        }),
{
}

/// Where in its steps a value-moving call asks for its transfer.
pub open spec fn transfer_position(call: Call) -> int {
    if call is OpenEscrow || call is DeadLetter {
        6
    } else {
        4
    }
}

/// An entry that lives on its own, and not with the contract instance.
pub open spec fn persistent(entry: Entry) -> bool {
    entry is Escrow || entry is Settlement
}

/// Renewing an entry.
pub open spec fn renewal(entry: Entry) -> Step {
    Step::ExtendTtl {
        key: entry.key(),
        threshold: PERSISTENT_THRESHOLD,
        extend_to: PERSISTENT_TTL,
    }
}

/// What may stand at one place in the steps of a call that goes through: a demand
/// for a signature at the start only, a transfer at one place only, a persistent
/// entry before its renewal, and an event at the end.
#[verifier::opaque]
spec fn fits_at(ledger: Ledger, call: Call, j: int) -> bool {
    let steps = ledger.steps_of(call);
    let step = steps[j];
    &&& j == 0 ==> step == signature_for(ledger, call)
    &&& j > 0 ==> !(step is RequireAuth) && !(step is RequireAuthForArgs)
    &&& step is Transfer ==> moves_value(call) && j == transfer_position(call)
    &&& step is SetInFlight || step is ClearInFlight ==> moves_value(call)
    &&& step is Write && persistent(step->entry) ==> j + 1 < steps.len() && steps[j + 1]
        == renewal(step->entry)
    &&& j == steps.len() - 1 ==> step is Publish || call is Initialize
}

proof fn lemma_long_steps(ledger: Ledger, call: Call, j: int)
    requires
        ledger.error_of(call) is None,
        call is OpenEscrow || call is DeadLetter,
        0 <= j < ledger.steps_of(call).len(),
    ensures
        fits_at(ledger, call, j),
{
    reveal(fits_at);
    assert(ledger.steps_of(call).len() == 9);
}

proof fn lemma_payout_steps(ledger: Ledger, call: Call, j: int)
    requires
        ledger.error_of(call) is None,
        call is Claim || call is CloseEscrow,
        0 <= j < ledger.steps_of(call).len(),
    ensures
        fits_at(ledger, call, j),
{
    reveal(fits_at);
    assert(6 <= ledger.steps_of(call).len() <= 7);
}

proof fn lemma_payer_steps(ledger: Ledger, call: Call, j: int)
    requires
        ledger.error_of(call) is None,
        call is ReleasePartial || call is Dispute,
        0 <= j < ledger.steps_of(call).len(),
    ensures
        fits_at(ledger, call, j),
{
    reveal(fits_at);
    assert(ledger.steps_of(call).len() == 4);
}

proof fn lemma_payee_steps(ledger: Ledger, call: Call, j: int)
    requires
        ledger.error_of(call) is None,
        call is ReportFailure || call is ClearFailure,
        0 <= j < ledger.steps_of(call).len(),
    ensures
        fits_at(ledger, call, j),
{
    reveal(fits_at);
    assert(ledger.steps_of(call).len() == 4);
}

proof fn lemma_arbiter_steps(ledger: Ledger, call: Call, j: int)
    requires
        ledger.error_of(call) is None,
        call is Initialize || call is ResolveDispute,
        0 <= j < ledger.steps_of(call).len(),
    ensures
        fits_at(ledger, call, j),
{
    reveal(fits_at);
    assert(3 <= ledger.steps_of(call).len() <= 4);
}

proof fn lemma_step_at(ledger: Ledger, call: Call, j: int)
    requires
        ledger.error_of(call) is None,
        0 <= j < ledger.steps_of(call).len(),
    ensures
        fits_at(ledger, call, j),
{
    match call {
        Call::OpenEscrow { .. } | Call::DeadLetter { .. } => lemma_long_steps(ledger, call, j),
        Call::Claim { .. } | Call::CloseEscrow { .. } => lemma_payout_steps(ledger, call, j),
        Call::ReleasePartial { .. } | Call::Dispute { .. } => lemma_payer_steps(ledger, call, j),
        Call::ReportFailure { .. } | Call::ClearFailure { .. } => lemma_payee_steps(
            ledger,
            call,
            j,
        ),
        Call::Initialize { .. } | Call::ResolveDispute { .. } => lemma_arbiter_steps(
            ledger,
            call,
            j,
        ),
    }
}

proof fn lemma_state_at_transfer(ledger: Ledger, call: Call)
    requires
        ledger.sound(),
        ledger.runs(call),
        ledger.error_of(call) is None,
        moves_value(call),
        transfer_position(call) < ledger.steps_of(call).len(),
        ledger.steps_of(call)[transfer_position(call)] is Transfer,
    ensures
        ({
            let steps = ledger.steps_of(call);
            let during = ledger.after_first(steps, transfer_position(call) as nat);
            &&& steps.len() == transfer_position(call) + 3
            &&& steps[transfer_position(call) + 1] is ClearInFlight
            &&& steps[transfer_position(call) + 2] is Publish
            &&& during.in_flight
            &&& during.arbiter == ledger.arbiter
            &&& during.contract == ledger.contract
            &&& during.escrows == outcome(ledger, call).escrows
            &&& during.settlements == outcome(ledger, call).settlements
        }),
{
    let steps = ledger.steps_of(call);
    lemma_first_three(ledger, steps);
    match call {
        Call::OpenEscrow { .. } => {
            lemma_two_more(ledger, steps, 2);
            lemma_two_more(ledger, steps, 4);
        },
        Call::DeadLetter { .. } => {
            lemma_two_more(ledger, steps, 2);
            lemma_two_more(ledger, steps, 4);
        },
        _ => {
            lemma_two_more(ledger, steps, 2);
        },
    }
}

/// Effects come before interactions: when a token is called, the marker is set
/// and every row of the call is already written. At most one transfer is made.
pub proof fn law_rows_are_committed_before_value_moves(ledger: Ledger, call: Call, i: int)
    requires
        ledger.sound(),
        ledger.runs(call),
        ledger.error_of(call) is None,
        0 <= i < ledger.steps_of(call).len(),
        ledger.steps_of(call)[i] is Transfer,
    ensures
        ledger.after_first(ledger.steps_of(call), i as nat).in_flight,
        ledger.after_first(ledger.steps_of(call), i as nat).escrows == ledger.after_call(
            call,
        ).escrows,
        ledger.after_first(ledger.steps_of(call), i as nat).settlements == ledger.after_call(
            call,
        ).settlements,
        forall|j: int|
            i < j < ledger.steps_of(call).len() ==> !(#[trigger] ledger.steps_of(call)[j] is Write),
        forall|j: int|
            0 <= j < ledger.steps_of(call).len() && #[trigger] ledger.steps_of(call)[j] is Transfer
                ==> j == i,
{
    reveal(fits_at);
    lemma_step_at(ledger, call, i);
    lemma_state_at_transfer(ledger, call);
    law_steps_lead_to_the_outcome(ledger, call);
    assert forall|j: int|
        0 <= j < ledger.steps_of(call).len() && #[trigger] ledger.steps_of(call)[j] is Transfer
            implies j == i by {
        lemma_step_at(ledger, call, j);
    }
}

/// The same ledger without the in-flight marker.
pub open spec fn unmarked(ledger: Ledger) -> Ledger {
    Ledger { in_flight: false, ..ledger }
}

/// While a value-moving call is in flight, no other one gets through. Where the
/// call would otherwise have succeeded, it is told that it was re-entrant.
pub proof fn law_reentry_is_refused(ledger: Ledger, call: Call)
    requires
        ledger.in_flight,
        moves_value(call),
    ensures
        ledger.error_of(call) is Some,
        unmarked(ledger).error_of(call) is None ==> ledger.error_of(call)
            == Some(Error::ReentrantCall),
{
}

/// The other calls ask for no transfer at all, whether they go through or not, and
/// leave the marker alone.
pub proof fn law_quiet_calls_transfer_nothing(ledger: Ledger, call: Call, i: int)
    requires
        !moves_value(call),
        0 <= i < ledger.steps_of(call).len(),
    ensures
        !(ledger.steps_of(call)[i] is Transfer),
        !(ledger.steps_of(call)[i] is SetInFlight),
        !(ledger.steps_of(call)[i] is ClearInFlight),
{
    if ledger.error_of(call) is None {
        reveal(fits_at);
        lemma_step_at(ledger, call, i);
    } else {
        law_refused_calls_move_nothing(ledger, call, i);
    }
}

/// Steps without a transfer leave every balance as it was, and steps that leave
/// the marker alone leave it as it was.
proof fn lemma_quiet_steps_keep_balances(ledger: Ledger, steps: Seq<Step>, n: nat)
    requires
        n <= steps.len(),
        forall|i: int|
            0 <= i < steps.len() ==> !(#[trigger] steps[i] is Transfer) && !(steps[i] is SetInFlight)
                && !(steps[i] is ClearInFlight),
    ensures
        ledger.after_first(steps, n).balances == ledger.balances,
        ledger.after_first(steps, n).in_flight == ledger.in_flight,
    decreases n,
{
    if n > 0 {
        lemma_quiet_steps_keep_balances(ledger, steps, (n - 1) as nat);
    }
}

/// While a call is in flight, any other call is refused or asks for no transfer,
/// and no balance changes.
pub proof fn law_calls_in_flight_move_no_value(ledger: Ledger, call: Call)
    requires
        ledger.in_flight,
    ensures
        ledger.error_of(call) is Some || forall|i: int|
            0 <= i < ledger.steps_of(call).len() ==> !(#[trigger] ledger.steps_of(
                call,
            )[i] is Transfer),
        ledger.after_call(call).balances == ledger.balances,
        ledger.after_call(call).in_flight,
{
    if moves_value(call) {
        law_reentry_is_refused(ledger, call);
    } else {
        let steps = ledger.steps_of(call);
        assert forall|i: int| 0 <= i < steps.len() implies !(#[trigger] steps[i] is Transfer) && !(
        steps[i] is SetInFlight) && !(steps[i] is ClearInFlight) by {
            law_quiet_calls_transfer_nothing(ledger, call, i);
        }
        lemma_quiet_steps_keep_balances(ledger, steps, steps.len());
    }
}

proof fn lemma_runs_in_flight_move_no_value(ledger: Ledger, calls: Seq<Call>)
    requires
        ledger.in_flight,
    ensures
        ledger.after_calls(calls).balances == ledger.balances,
        ledger.after_calls(calls).in_flight,
    decreases calls.len(),
{
    if calls.len() > 0 {
        lemma_runs_in_flight_move_no_value(ledger, calls.drop_last());
        law_calls_in_flight_move_no_value(ledger.after_calls(calls.drop_last()), calls.last());
    }
}

/// A token that calls back during a transfer cannot move value, whatever calls it
/// makes, however many, and on whichever escrows: every one of them is refused or
/// asks for no transfer, and no balance changes.
pub proof fn law_callbacks_cannot_move_value(
    ledger: Ledger,
    call: Call,
    i: int,
    callbacks: Seq<Call>,
    next: Call,
)
    requires
        ledger.sound(),
        ledger.runs(call),
        ledger.error_of(call) is None,
        0 <= i < ledger.steps_of(call).len(),
        ledger.steps_of(call)[i] is Transfer,
    ensures
        ({
            let during = ledger.after_first(ledger.steps_of(call), i as nat);
            let later = during.after_calls(callbacks);
            &&& later.balances == during.balances
            &&& later.in_flight
            &&& moves_value(next) ==> later.error_of(next) is Some
            &&& later.error_of(next) is Some || forall|j: int|
                0 <= j < later.steps_of(next).len() ==> !(#[trigger] later.steps_of(
                    next,
                )[j] is Transfer)
            &&& later.after_call(next).balances == during.balances
        }),
{
    let during = ledger.after_first(ledger.steps_of(call), i as nat);
    law_rows_are_committed_before_value_moves(ledger, call, i);
    lemma_runs_in_flight_move_no_value(during, callbacks);
    law_calls_in_flight_move_no_value(during.after_calls(callbacks), next);
    if moves_value(next) {
        law_reentry_is_refused(during.after_calls(callbacks), next);
    }
}

/// Steps that leave the marker alone do the same with and without it.
proof fn lemma_quiet_steps_ignore_the_marker(ledger: Ledger, steps: Seq<Step>, n: nat)
    requires
        n <= steps.len(),
        forall|i: int|
            0 <= i < steps.len() ==> !(#[trigger] steps[i] is SetInFlight) && !(
            steps[i] is ClearInFlight),
    ensures
        unmarked(ledger.after_first(steps, n)) == unmarked(ledger).after_first(steps, n),
    decreases n,
{
    if n > 0 {
        lemma_quiet_steps_ignore_the_marker(ledger, steps, (n - 1) as nat);
        assert(!(steps[n - 1] is SetInFlight) && !(steps[n - 1] is ClearInFlight));
    }
}

proof fn lemma_quiet_calls_ignore_the_marker(ledger: Ledger, call: Call)
    requires
        !moves_value(call),
    ensures
        ledger.runs(call) == unmarked(ledger).runs(call),
        unmarked(ledger.after_call(call)) == unmarked(ledger).after_call(call),
{
    let steps = ledger.steps_of(call);
    assert(steps == unmarked(ledger).steps_of(call));
    assert forall|i: int| 0 <= i < steps.len() implies !(#[trigger] steps[i] is SetInFlight) && !(
    steps[i] is ClearInFlight) by {
        law_quiet_calls_transfer_nothing(ledger, call, i);
    }
    lemma_quiet_steps_ignore_the_marker(ledger, steps, steps.len());
}

/// Calls made in flight keep the rows sound and the debt as it was.
proof fn lemma_runs_in_flight_keep_the_books(ledger: Ledger, calls: Seq<Call>, token: Address)
    requires
        ledger.in_flight,
        unmarked(ledger).sound(),
    ensures
        ({
            let later = ledger.after_calls(calls);
            &&& unmarked(later).sound()
            &&& later.contract == ledger.contract
            &&& owed(later.escrows, later.last_id(), token) == owed(
                ledger.escrows,
                ledger.last_id(),
                token,
            )
        }),
    decreases calls.len(),
{
    if calls.len() > 0 {
        let before = ledger.after_calls(calls.drop_last());
        let call = calls.last();
        lemma_runs_in_flight_keep_the_books(ledger, calls.drop_last(), token);
        lemma_runs_in_flight_move_no_value(ledger, calls.drop_last());
        if moves_value(call) {
            law_reentry_is_refused(before, call);
        } else if before.runs(call) {
            lemma_quiet_calls_ignore_the_marker(before, call);
            law_every_call_keeps_the_ledger_sound(unmarked(before), call);
            lemma_quiet_calls_keep_the_debt(unmarked(before), call, token);
        }
    }
}

/// Where a call stands once its transfer is through and the marker is released, if
/// the token made `callbacks` from inside the transfer at place `i`.
pub open spec fn after_transfer(
    ledger: Ledger,
    call: Call,
    i: int,
    callbacks: Seq<Call>,
) -> Ledger {
    let steps = ledger.steps_of(call);
    ledger.after_first(steps, i as nat).after_calls(callbacks).after(steps[i]).after(
        Step::ClearInFlight,
    )
}

/// Whatever calls a token makes from inside a transfer, the call leaves a sound
/// ledger behind, and value is conserved as it is without them: what the router
/// holds in a token is what it owes, unless the call has it pay itself in that
/// token.
pub proof fn law_callbacks_keep_the_books(
    ledger: Ledger,
    call: Call,
    i: int,
    callbacks: Seq<Call>,
    token: Address,
)
    requires
        ledger.sound(),
        ledger.conserved_in(token),
        ledger.runs(call),
        ledger.error_of(call) is None,
        0 <= i < ledger.steps_of(call).len(),
        ledger.steps_of(call)[i] is Transfer,
    ensures
        after_transfer(ledger, call, i, callbacks).sound(),
        after_transfer(ledger, call, i, callbacks).conserved_in(token) <==> !ledger.pays_itself_in(
            call,
            token,
        ),
{
    let steps = ledger.steps_of(call);
    let during = ledger.after_first(steps, i as nat);
    let plain = ledger.after_call(call);
    let end = after_transfer(ledger, call, i, callbacks);
    reveal(fits_at);
    lemma_step_at(ledger, call, i);
    lemma_state_at_transfer(ledger, call);
    law_rows_are_committed_before_value_moves(ledger, call, i);
    law_every_call_keeps_the_ledger_sound(ledger, call);
    law_every_call_conserves_value(ledger, call, token);
    lemma_two_more(ledger, steps, (i + 1) as nat);
    assert(ledger.after_first(steps, (i + 1) as nat) == during.after(steps[i]));
    assert(plain == unmarked(during.after(steps[i])));
    assert(unmarked(during).sound());
    lemma_runs_in_flight_move_no_value(during, callbacks);
    lemma_runs_in_flight_keep_the_books(during, callbacks, token);
    let later = during.after_calls(callbacks);
    assert(end.balances == plain.balances);
    assert(end.escrows == later.escrows);
    assert(end.counter == later.counter);
    assert(plain.counter == during.counter);
}

/// A pull is spent before the token is called: a second pull from inside the
/// first would find nothing, even without the marker.
pub proof fn law_a_pull_is_spent_before_it_is_paid(ledger: Ledger, id: u64, i: int)
    requires
        ledger.sound(),
        ledger.error_of(Call::Claim { id }) is None,
        0 <= i < ledger.steps_of(Call::Claim { id }).len(),
        ledger.steps_of(Call::Claim { id })[i] is Transfer,
    ensures
        ({
            let during = ledger.after_first(ledger.steps_of(Call::Claim { id }), i as nat);
            unmarked(during).error_of(Call::Claim { id }) is Some
        }),
{
    law_rows_are_committed_before_value_moves(ledger, Call::Claim { id }, i);
    law_steps_lead_to_the_outcome(ledger, Call::Claim { id });
}

/// A second close is refused as already settled, whatever calls were made in
/// between, and changes nothing.
pub proof fn law_closing_twice_is_inert(ledger: Ledger, id: u64, between: Seq<Call>)
    requires
        ledger.sound(),
        ledger.error_of(Call::CloseEscrow { id }) is None,
    ensures
        ({
            let closed = ledger.after_call(Call::CloseEscrow { id }).after_calls(between);
            &&& closed.error_of(Call::CloseEscrow { id }) == Some(Error::AlreadySettled)
            &&& closed.steps_of(Call::CloseEscrow { id }).len() == 0
            &&& closed.after_call(Call::CloseEscrow { id }) == closed
        }),
{
    law_steps_lead_to_the_outcome(ledger, Call::CloseEscrow { id });
    law_every_call_keeps_the_ledger_sound(ledger, Call::CloseEscrow { id });
    law_rows_only_move_forward(ledger.after_call(Call::CloseEscrow { id }), between, id);
}

/// A second claim finds nothing: on a closed escrow it is already settled, on an
/// open one there is nothing to claim yet.
pub proof fn law_claiming_twice_is_inert(ledger: Ledger, id: u64)
    requires
        ledger.sound(),
        ledger.error_of(Call::Claim { id }) is None,
    ensures
        ({
            let claimed = ledger.after_call(Call::Claim { id });
            &&& claimed.error_of(Call::Claim { id }) == Some(
                if ledger.escrows[id].closed {
                    Error::AlreadySettled
                } else {
                    Error::NothingToClaim
                },
            )
            &&& claimed.after_call(Call::Claim { id }) == claimed
        }),
{
    law_steps_lead_to_the_outcome(ledger, Call::Claim { id });
}

/// Closing refunds the remainder to the payer, leaves what was released for the
/// payee to pull, and ends releases and disputes: nothing is releasable any more,
/// whatever calls follow.
pub proof fn law_closing_leaves_released_funds_claimable(
    ledger: Ledger,
    id: u64,
    calls: Seq<Call>,
    amount: i128,
)
    requires
        ledger.sound(),
        ledger.error_of(Call::CloseEscrow { id }) is None,
        !ledger.pays_itself(Call::CloseEscrow { id }),
    ensures
        ({
            let e = ledger.escrows[id];
            let closed = ledger.after_call(Call::CloseEscrow { id });
            let later = closed.after_calls(calls);
            &&& closed.balance(e.token, e.payer) == ledger.balance(e.token, e.payer) + e.total
                - e.released
            &&& claimable_end(closed.escrow(id)) == claimable_end(ledger.escrow(id))
            &&& e.released > e.claimed ==> closed.error_of(Call::Claim { id }) is None
            &&& releasable_end(later.escrow(id)) == Ok::<i128, Error>(0)
            &&& later.error_of(Call::ReleasePartial { id, amount }) == Some(Error::EscrowClosed)
            &&& later.error_of(Call::Dispute { id, amount }) == Some(Error::EscrowClosed)
        }),
{
    law_steps_lead_to_the_outcome(ledger, Call::CloseEscrow { id });
    law_every_call_keeps_the_ledger_sound(ledger, Call::CloseEscrow { id });
    law_rows_only_move_forward(ledger.after_call(Call::CloseEscrow { id }), calls, id);
}

/// What is reported as releasable is what a further release may draw on: with a
/// release slot left, a positive amount is released if and only if it is no more
/// than that, and no more than that is ever released.
pub proof fn law_releases_draw_on_what_is_releasable(e: Escrow, amount: i128)
    requires
        e.wf(),
        amount > 0,
    ensures
        release_partial_end(Some(e), amount) is Ok ==> amount <= releasable_end(Some(e))->Ok_0,
        e.release_count < MAX_RELEASES ==> (release_partial_end(Some(e), amount) is Ok <==> amount
            <= releasable_end(Some(e))->Ok_0),
{
}

/// What the router still owes on an escrow, open or closed, is what it reports as
/// claimable, what it reports as releasable, and what is frozen.
pub proof fn law_the_reported_amounts_are_what_is_owed(e: Escrow)
    requires
        e.wf(),
    ensures
        claimable_end(Some(e))->Ok_0 + releasable_end(Some(e))->Ok_0 + e.disputed == outstanding(e),
{
}

/// Once an escrow is closed and pulled, every unit of its deposit is with
/// exactly one party: the payee was paid what was released, the payer got the
/// rest back, and the router owes nothing on it.
pub proof fn law_a_settled_deposit_is_split_between_the_parties(ledger: Ledger, id: u64)
    requires
        ledger.sound(),
        ledger.error_of(Call::CloseEscrow { id }) is None,
        ledger.escrows[id].released > ledger.escrows[id].claimed,
        ledger.escrows[id].payer != ledger.contract,
        ledger.escrows[id].payee != ledger.contract,
    ensures
        ({
            let e = ledger.escrows[id];
            let end = ledger.after_call(Call::CloseEscrow { id }).after_call(Call::Claim { id });
            &&& outstanding(end.escrows[id]) == 0
            &&& end.balance(e.token, e.payer) == ledger.balance(e.token, e.payer) + e.total
                - e.released
            &&& end.balance(e.token, e.payee) == ledger.balance(e.token, e.payee) + e.released
                - e.claimed
            &&& end.balance(e.token, ledger.contract) == ledger.balance(e.token, ledger.contract)
                - outstanding(e)
        }),
{
    let closed = ledger.after_call(Call::CloseEscrow { id });
    law_closing_leaves_released_funds_claimable(ledger, id, seq![], 0);
    law_every_call_keeps_the_ledger_sound(ledger, Call::CloseEscrow { id });
    law_steps_lead_to_the_outcome(ledger, Call::CloseEscrow { id });
    law_steps_lead_to_the_outcome(closed, Call::Claim { id });
}

/// A dispute freezes its own amount of the remainder and nothing else: what was
/// released stays claimable.
pub proof fn law_a_dispute_freezes_only_its_own_amount(ledger: Ledger, id: u64, amount: i128)
    requires
        ledger.sound(),
        ledger.error_of(Call::Dispute { id, amount }) is None,
    ensures
        ({
            let e = ledger.escrows[id];
            let row = ledger.after_call(Call::Dispute { id, amount }).escrows[id];
            &&& row.released == e.released
            &&& row.claimed == e.claimed
            &&& row.total - row.released - row.disputed == e.total - e.released - amount
            &&& ledger.after_call(Call::Dispute { id, amount }).error_of(
                Call::CloseEscrow { id },
            ) == Some(Error::DisputeAlreadyOpen)
        }),
{
    law_steps_lead_to_the_outcome(ledger, Call::Dispute { id, amount });
}

/// Resolving a dispute for the payer undoes it: the ledger is as it was.
pub proof fn law_resolving_for_the_payer_undoes_the_dispute(ledger: Ledger, id: u64, amount: i128)
    requires
        ledger.sound(),
        ledger.arbiter is Some,
        ledger.error_of(Call::Dispute { id, amount }) is None,
    ensures
        ledger.after_call(Call::Dispute { id, amount }).after_call(
            Call::ResolveDispute { id, to_payee: false },
        ) == ledger,
{
    let frozen = ledger.after_call(Call::Dispute { id, amount });
    let resolve = Call::ResolveDispute { id, to_payee: false };
    law_every_call_keeps_the_ledger_sound(
        ledger,
        Call::Dispute { id, amount },
    );
    law_steps_lead_to_the_outcome(ledger, Call::Dispute { id, amount });
    law_steps_lead_to_the_outcome(frozen, resolve);
    assert(frozen.after_call(resolve) =~= ledger);
}

/// Resolving a dispute for the payee makes the frozen amount claimable, without
/// consuming a release slot or touching the rest of the remainder.
pub proof fn law_resolving_for_the_payee_releases_the_frozen_amount(ledger: Ledger, id: u64)
    requires
        ledger.sound(),
        ledger.error_of(Call::ResolveDispute { id, to_payee: true }) is None,
    ensures
        ({
            let e = ledger.escrows[id];
            let row = ledger.after_call(Call::ResolveDispute { id, to_payee: true }).escrows[id];
            &&& row.released - row.claimed == e.released - e.claimed + e.disputed
            &&& row.total - row.released - row.disputed == e.total - e.released - e.disputed
            &&& row.disputed == 0
            &&& row.release_count == e.release_count
        }),
{
    law_steps_lead_to_the_outcome(ledger, Call::ResolveDispute { id, to_payee: true });
}

/// The escrow after releasing each of `amounts` in turn, or nothing where one of
/// the releases is refused.
pub open spec fn after_releases(e: Escrow, amounts: Seq<i128>) -> Option<Escrow>
    decreases amounts.len(),
{
    if amounts.len() == 0 {
        Some(e)
    } else {
        match after_releases(e, amounts.drop_last()) {
            Some(row) => if release_partial_end(Some(row), amounts.last()) is Ok {
                Some(row.with_release(amounts.last() as int))
            } else {
                None
            },
            None => None,
        }
    }
}

pub open spec fn sum(amounts: Seq<i128>) -> int
    decreases amounts.len(),
{
    if amounts.len() == 0 {
        0
    } else {
        sum(amounts.drop_last()) + amounts.last()
    }
}

/// However many releases are made, they never sum past what the deposit has left
/// after earlier releases and anything frozen, and never exceed the cap.
pub proof fn law_releases_never_sum_past_the_deposit(e: Escrow, amounts: Seq<i128>)
    requires
        e.wf(),
        after_releases(e, amounts) is Some,
    ensures
        ({
            let row = after_releases(e, amounts)->0;
            &&& row.wf()
            &&& row.released == e.released + sum(amounts)
            &&& row.release_count == e.release_count + amounts.len()
            &&& row.disputed == e.disputed
            &&& row.total == e.total
        }),
        e.released + sum(amounts) + e.disputed <= e.total,
        e.release_count + amounts.len() <= MAX_RELEASES,
    decreases amounts.len(),
{
    if amounts.len() > 0 {
        law_releases_never_sum_past_the_deposit(e, amounts.drop_last());
    }
}

/// The signature that a call must carry.
pub open spec fn signature_for(ledger: Ledger, call: Call) -> Step {
    match call {
        Call::Initialize { arbiter } => Step::RequireAuth { who: arbiter },
        Call::OpenEscrow { payer, payee, token, total } => Step::RequireAuthForArgs {
            who: payer,
            args: AuthArgs::Deposit { payee, token, total },
        },
        Call::ReleasePartial { id, amount } => Step::RequireAuthForArgs {
            who: ledger.escrows[id].payer,
            args: AuthArgs::Amount { id, amount },
        },
        Call::Claim { id } => Step::RequireAuth { who: ledger.escrows[id].payee },
        Call::Dispute { id, amount } => Step::RequireAuthForArgs {
            who: ledger.escrows[id].payer,
            args: AuthArgs::Amount { id, amount },
        },
        Call::ResolveDispute { .. } => Step::RequireAuth { who: ledger.arbiter->0 },
        Call::CloseEscrow { id } => Step::RequireAuthForArgs {
            who: ledger.escrows[id].payer,
            args: AuthArgs::Escrow { id },
        },
        Call::ReportFailure { id, .. } => Step::RequireAuthForArgs {
            who: ledger.escrows[id].payee,
            args: AuthArgs::Escrow { id },
        },
        Call::ClearFailure { id } => Step::RequireAuthForArgs {
            who: ledger.escrows[id].payee,
            args: AuthArgs::Escrow { id },
        },
        Call::DeadLetter { .. } => Step::RequireAuth { who: ledger.arbiter->0 },
    }
}

/// A call that goes through first demands the signature of the party whose
/// decision it is, and no other: the payer deposits, releases, disputes and
/// closes; the payee pulls and reports; the arbiter resolves and sweeps.
pub proof fn law_calls_demand_the_right_signature(ledger: Ledger, call: Call, i: int)
    requires
        ledger.error_of(call) is None,
    ensures
        ledger.steps_of(call).len() > 0,
        ledger.steps_of(call)[0] == signature_for(ledger, call),
        0 < i < ledger.steps_of(call).len() ==> !(ledger.steps_of(call)[i] is RequireAuth) && !(
        ledger.steps_of(call)[i] is RequireAuthForArgs),
{
    reveal(fits_at);
    assert(ledger.steps_of(call).len() > 0);
    lemma_step_at(ledger, call, 0);
    if 0 < i < ledger.steps_of(call).len() {
        lemma_step_at(ledger, call, i);
    }
}

/// Every call that goes through, but for the initialization, ends with an event
/// for those who follow the ledger.
pub proof fn law_changes_are_announced(ledger: Ledger, call: Call)
    requires
        ledger.error_of(call) is None,
        !(call is Initialize),
    ensures
        ledger.steps_of(call).len() > 0,
        ledger.steps_of(call).last() is Publish,
{
    reveal(fits_at);
    assert(ledger.steps_of(call).len() > 0);
    lemma_step_at(ledger, call, ledger.steps_of(call).len() - 1);
}

/// A row is renewed as soon as it is written, on every path.
pub proof fn law_written_rows_are_renewed(ledger: Ledger, call: Call, i: int)
    requires
        ledger.error_of(call) is None,
        0 <= i < ledger.steps_of(call).len(),
        ledger.steps_of(call)[i] is Write,
        persistent(ledger.steps_of(call)[i]->entry),
    ensures
        i + 1 < ledger.steps_of(call).len(),
        ledger.steps_of(call)[i + 1] == renewal(ledger.steps_of(call)[i]->entry),
{
    reveal(fits_at);
    lemma_step_at(ledger, call, i);
}

/// A signature that the payer gave for one release is not good for another: not
/// for another amount, and not on another escrow.
pub proof fn law_a_release_signature_is_bound_to_its_amount(
    ledger: Ledger,
    id: u64,
    amount: i128,
    other_id: u64,
    other_amount: i128,
)
    requires
        signature_for(ledger, Call::ReleasePartial { id, amount }) == signature_for(
            ledger,
            Call::ReleasePartial { id: other_id, amount: other_amount },
        ),
    ensures
        id == other_id,
        amount == other_amount,
{
}

/// The router is initialized once: whatever calls follow, the first arbiter stays
/// and a second one is refused.
pub proof fn law_the_arbiter_is_installed_once(ledger: Ledger, calls: Seq<Call>, other: Address)
    requires
        ledger.sound(),
        ledger.arbiter is Some,
    ensures
        ledger.after_calls(calls).arbiter == ledger.arbiter,
        ledger.after_calls(calls).error_of(Call::Initialize { arbiter: other }) == Some(
            Error::AlreadyInitialized,
        ),
    decreases calls.len(),
{
    if calls.len() > 0 {
        let before = ledger.after_calls(calls.drop_last());
        law_the_arbiter_is_installed_once(ledger, calls.drop_last(), other);
        law_every_run_keeps_the_ledger_sound(ledger, calls.drop_last());
        if before.runs(calls.last()) && before.error_of(calls.last()) is None {
            law_steps_lead_to_the_outcome(before, calls.last());
        }
    }
}

/// A new escrow gets an id that was never used, and the row that was asked for.
pub proof fn law_new_escrows_get_fresh_ids(ledger: Ledger, call: Call)
    requires
        ledger.sound(),
        ledger.runs(call),
        call is OpenEscrow,
        ledger.error_of(call) is None,
    ensures
        ({
            let id = id_after(ledger.counter) as u64;
            let later = ledger.after_call(call);
            &&& !ledger.escrows.contains_key(id)
            &&& later.counter == Some(id)
            &&& call matches Call::OpenEscrow { payer, payee, token, total }
                && later.escrows[id] == new_escrow(id, payer, payee, token, total)
        }),
{
    law_steps_lead_to_the_outcome(ledger, call);
}

/// The escrow that a call names.
pub open spec fn named_escrow(call: Call) -> Option<u64> {
    match call {
        Call::Initialize { .. } => None,
        Call::OpenEscrow { .. } => None,
        Call::ReleasePartial { id, .. } => Some(id),
        Call::Claim { id } => Some(id),
        Call::Dispute { id, .. } => Some(id),
        Call::ResolveDispute { id, .. } => Some(id),
        Call::CloseEscrow { id } => Some(id),
        Call::ReportFailure { id, .. } => Some(id),
        Call::ClearFailure { id } => Some(id),
        Call::DeadLetter { id, .. } => Some(id),
    }
}

/// A call touches no escrow but the one it names: every other existing escrow,
/// and its recovery record, stay as they were.
pub proof fn law_calls_touch_only_the_escrow_they_name(ledger: Ledger, call: Call, other: u64)
    requires
        ledger.sound(),
        ledger.runs(call),
        ledger.escrows.contains_key(other),
        named_escrow(call) != Some(other),
    ensures
        ledger.after_call(call).escrow(other) == ledger.escrow(other),
        ledger.after_call(call).settlement(other) == ledger.settlement(other),
{
    if ledger.error_of(call) is None {
        law_steps_lead_to_the_outcome(ledger, call);
        if call is OpenEscrow {
            law_new_escrows_get_fresh_ids(ledger, call);
        }
    }
}

} // verus!
