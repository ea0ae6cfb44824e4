//! What holds of settlements that do not land: the claim is preserved until it
//! is swept, and it is swept no sooner than promised.

use super::conservation::{
    law_every_call_keeps_the_ledger_sound, law_every_run_keeps_the_ledger_sound,
    law_rows_only_move_forward, law_steps_lead_to_the_outcome,
};
use super::ledger::{Call, Ledger};
use super::rules::{
    claim_end, dead_letter_end, report_failure_end, settlement_of, sweep_opens_at,
};
use super::safety::law_the_arbiter_is_installed_once;
use super::types::{Error, FailureReason, Settlement, DEAD_LETTER_DELAY, MAX_SETTLEMENT_FAILURES};
use vstd::prelude::*;

verus! {

/// Reporting a failure, or clearing the record, moves nothing: escrows and
/// balances stay, and the payee can claim exactly what could be claimed before.
pub proof fn law_reports_preserve_the_claim(ledger: Ledger, call: Call)
    requires
        ledger.sound(),
        ledger.runs(call),
        call is ReportFailure || call is ClearFailure,
    ensures
        ledger.after_call(call).escrows == ledger.escrows,
        ledger.after_call(call).balances == ledger.balances,
        ledger.after_call(call).in_flight == ledger.in_flight,
{
    if ledger.error_of(call) is None {
        law_steps_lead_to_the_outcome(ledger, call);
    }
}

/// A healthy settlement fails on the third report and not before, at the ledger
/// of that report. What the reports return counts them.
pub proof fn law_the_third_report_fails_the_settlement(
    ledger: Ledger,
    id: u64,
    reasons: (FailureReason, FailureReason, FailureReason),
    at: (u32, u32, u32),
)
    requires
        ledger.sound(),
        settlement_of(ledger.settlement(id), id) == Settlement::healthy(id),
        ledger.escrows.contains_key(id),
        ledger.escrows[id].released > ledger.escrows[id].claimed,
    ensures
        ({
            let one = ledger.after_call(
                Call::ReportFailure { id, reason: reasons.0, sequence: at.0 },
            );
            let two = one.after_call(Call::ReportFailure { id, reason: reasons.1, sequence: at.1 });
            let three = two.after_call(
                Call::ReportFailure { id, reason: reasons.2, sequence: at.2 },
            );
            &&& one.settlement(id) == Some(
                Settlement { failures: 1, last_reason: reasons.0, ..Settlement::healthy(id) },
            )
            &&& two.settlement(id) == Some(
                Settlement { failures: 2, last_reason: reasons.1, ..Settlement::healthy(id) },
            )
            &&& three.settlement(id) == Some(
                Settlement {
                    id,
                    failures: MAX_SETTLEMENT_FAILURES,
                    last_reason: reasons.2,
                    failed_at: at.2,
                    failed: true,
                    dead_lettered: false,
                },
            )
            &&& report_failure_end(ledger.escrow(id), ledger.settlement(id), id) == Ok::<
                u32,
                Error,
            >(1)
            &&& report_failure_end(one.escrow(id), one.settlement(id), id) == Ok::<u32, Error>(2)
            &&& report_failure_end(two.escrow(id), two.settlement(id), id) == Ok::<u32, Error>(3)
        }),
{
    let first = Call::ReportFailure { id, reason: reasons.0, sequence: at.0 };
    let second = Call::ReportFailure { id, reason: reasons.1, sequence: at.1 };
    let third = Call::ReportFailure { id, reason: reasons.2, sequence: at.2 };
    law_steps_lead_to_the_outcome(ledger, first);
    law_every_call_keeps_the_ledger_sound(ledger, first);
    let one = ledger.after_call(first);
    law_steps_lead_to_the_outcome(one, second);
    law_every_call_keeps_the_ledger_sound(one, second);
    law_steps_lead_to_the_outcome(one.after_call(second), third);
}

/// Later reports do not move the ledger from which the delay counts, and a
/// failed settlement stays failed under them.
pub proof fn law_later_reports_keep_the_deadline(
    ledger: Ledger,
    id: u64,
    reason: FailureReason,
    sequence: u32,
)
    requires
        ledger.sound(),
        ledger.runs(Call::ReportFailure { id, reason, sequence }),
        ledger.error_of(Call::ReportFailure { id, reason, sequence }) is None,
        settlement_of(ledger.settlement(id), id).failed,
    ensures
        ({
            let before = settlement_of(ledger.settlement(id), id);
            ledger.after_call(Call::ReportFailure { id, reason, sequence }).settlement(id) == Some(
                Settlement {
                    failures: (before.failures + 1) as u32,
                    last_reason: reason,
                    ..before
                },
            )
        }),
{
    law_steps_lead_to_the_outcome(ledger, Call::ReportFailure { id, reason, sequence });
}

/// Clearing starts over: the record is the healthy one, nothing can be swept,
/// and the next report counts one.
pub proof fn law_clearing_starts_over(
    ledger: Ledger,
    id: u64,
    sequence: u32,
)
    requires
        ledger.sound(),
        ledger.error_of(Call::ClearFailure { id }) is None,
    ensures
        ({
            let clear = ledger.after_call(Call::ClearFailure { id });
            &&& clear.settlement(id) == Some(Settlement::healthy(id))
            &&& clear.arbiter is Some ==> clear.error_of(Call::DeadLetter { id, sequence }) == Some(
                Error::SettlementNotFailed,
            )
            &&& ledger.escrows[id].released > ledger.escrows[id].claimed ==> report_failure_end(
                clear.escrow(id),
                clear.settlement(id),
                id,
            ) == Ok::<u32, Error>(1)
        }),
{
    law_steps_lead_to_the_outcome(ledger, Call::ClearFailure { id });
}

/// A claim is swept only after enough failures and the whole delay. A sweep that
/// comes too early is told so, and changes nothing; before it comes to that, a
/// router without an arbiter, or with a call in flight, refuses it for that
/// reason.
pub proof fn law_a_sweep_waits_for_the_payee(ledger: Ledger, id: u64, sequence: u32)
    requires
        settlement_of(ledger.settlement(id), id).wf(),
    ensures
        ({
            let state = settlement_of(ledger.settlement(id), id);
            let call = Call::DeadLetter { id, sequence };
            &&& ledger.error_of(call) is None ==> state.failures >= MAX_SETTLEMENT_FAILURES
                && sequence >= state.failed_at + DEAD_LETTER_DELAY
            &&& ledger.escrows.contains_key(id) && state.failed && !state.dead_lettered && sequence
                < sweep_opens_at(state) ==> ledger.error_of(call) == Some(
                if ledger.arbiter is None {
                    Error::NotInitialized
                } else if ledger.in_flight {
                    Error::ReentrantCall
                } else {
                    Error::DeadLetterNotReady
                },
            )
            &&& ledger.error_of(call) == Some(Error::DeadLetterNotReady) ==> sequence
                < sweep_opens_at(state) && ledger.after_call(call) == ledger
        }),
{
}

/// The record of a swept settlement is final, whatever calls follow.
pub proof fn law_a_swept_record_is_final(ledger: Ledger, calls: Seq<Call>, id: u64)
    requires
        ledger.sound(),
        ledger.settlements.contains_key(id),
        ledger.settlements[id].dead_lettered,
    ensures
        ledger.after_calls(calls).settlement(id) == ledger.settlement(id),
    decreases calls.len(),
{
    if calls.len() > 0 {
        let before = ledger.after_calls(calls.drop_last());
        law_a_swept_record_is_final(ledger, calls.drop_last(), id);
        law_every_run_keeps_the_ledger_sound(ledger, calls.drop_last());
        if before.runs(calls.last()) && before.error_of(calls.last()) is None {
            law_steps_lead_to_the_outcome(before, calls.last());
        }
    }
}

/// A sweep returns the whole claim to the payer and ends it: the payee's balance
/// is untouched, and nothing is left to pull.
pub proof fn law_a_sweep_returns_the_claim(ledger: Ledger, id: u64, sequence: u32)
    requires
        ledger.sound(),
        ledger.error_of(Call::DeadLetter { id, sequence }) is None,
        ledger.escrows[id].payer != ledger.contract,
        ledger.escrows[id].payee != ledger.contract,
    ensures
        ({
            let e = ledger.escrows[id];
            let swept = ledger.after_call(Call::DeadLetter { id, sequence });
            let amount = e.released - e.claimed;
            &&& dead_letter_end(
                ledger.arbiter,
                ledger.escrow(id),
                ledger.settlement(id),
                ledger.in_flight,
                id,
                sequence,
            ) == Ok::<i128, Error>(amount as i128)
            &&& swept.balance(e.token, e.payer) == ledger.balance(e.token, e.payer) + amount
            &&& swept.balance(e.token, e.payee) == ledger.balance(e.token, e.payee)
            &&& swept.escrows[id].claimed == swept.escrows[id].released
            &&& claim_end(swept.escrow(id), swept.in_flight) is Err
        }),
{
    law_steps_lead_to_the_outcome(ledger, Call::DeadLetter { id, sequence });
}

/// A settlement is swept once: whatever calls follow, it can be neither swept
/// again, nor reported on, nor cleared.
pub proof fn law_a_settlement_is_swept_once(
    ledger: Ledger,
    id: u64,
    sequence: u32,
    between: Seq<Call>,
    later: u32,
    reason: FailureReason,
)
    requires
        ledger.sound(),
        ledger.error_of(Call::DeadLetter { id, sequence }) is None,
    ensures
        ({
            let swept = ledger.after_call(Call::DeadLetter { id, sequence }).after_calls(between);
            let refused = Some(Error::AlreadyDeadLettered);
            &&& swept.error_of(Call::DeadLetter { id, sequence: later }) == refused
            &&& swept.error_of(Call::ReportFailure { id, reason, sequence: later }) == refused
            &&& swept.error_of(Call::ClearFailure { id }) == refused
        }),
{
    let swept = ledger.after_call(Call::DeadLetter { id, sequence });
    law_steps_lead_to_the_outcome(ledger, Call::DeadLetter { id, sequence });
    law_every_call_keeps_the_ledger_sound(ledger, Call::DeadLetter { id, sequence });
    law_every_run_keeps_the_ledger_sound(swept, between);
    law_a_swept_record_is_final(swept, between, id);
    law_rows_only_move_forward(swept, between, id);
    law_the_arbiter_is_installed_once(swept, between, swept.contract);
}

} // verus!
