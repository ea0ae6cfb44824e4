//! What a call leaves behind, and what every call keeps: the router holds exactly
//! what it owes, and no escrow pays out more than it took in.

use super::ledger::{debt, outstanding, owed, Call, Ledger};
use super::rules::{id_after, new_escrow, settlement_of};
use super::types::{Escrow, Settlement, Step};
use crate::host::Address;
use vstd::prelude::*;

verus! {

/// The ledger with `row` in place of the escrow of the same id.
pub open spec fn with_escrow(ledger: Ledger, row: Escrow) -> Ledger {
    Ledger { escrows: ledger.escrows.insert(row.id, row), ..ledger }
}

/// The ledger with `row` in place of the recovery record of the same id.
pub open spec fn with_settlement(ledger: Ledger, row: Settlement) -> Ledger {
    Ledger { settlements: ledger.settlements.insert(row.id, row), ..ledger }
}

/// What a call that succeeds leaves behind, in one expression.
pub open spec fn outcome(ledger: Ledger, call: Call) -> Ledger {
    match call {
        Call::Initialize { arbiter } => Ledger { arbiter: Some(arbiter), ..ledger },
        Call::OpenEscrow { payer, payee, token, total } => {
            let id = id_after(ledger.counter) as u64;
            with_escrow(
                Ledger { counter: Some(id), ..ledger },
                new_escrow(id, payer, payee, token, total),
            ).moved(token, payer, ledger.contract, total as int)
        },
        Call::ReleasePartial { id, amount } => with_escrow(
            ledger,
            ledger.escrows[id].with_release(amount as int),
        ),
        Call::Claim { id } => {
            let e = ledger.escrows[id];
            with_escrow(ledger, e.with_payout()).moved(
                e.token,
                ledger.contract,
                e.payee,
                e.released - e.claimed,
            )
        },
        Call::Dispute { id, amount } => with_escrow(
            ledger,
            ledger.escrows[id].with_dispute(amount),
        ),
        Call::ResolveDispute { id, to_payee } => with_escrow(
            ledger,
            ledger.escrows[id].with_resolution(to_payee),
        ),
        Call::CloseEscrow { id } => {
            let e = ledger.escrows[id];
            let refund = e.total - e.released;
            let closed = with_escrow(ledger, e.with_close());
            if refund > 0 {
                closed.moved(e.token, ledger.contract, e.payer, refund)
            } else {
                closed
            }
        },
        Call::ReportFailure { id, reason, sequence } => with_settlement(
            ledger,
            settlement_of(ledger.settlement(id), id).with_failure(reason, sequence),
        ),
        Call::ClearFailure { id } => with_settlement(ledger, Settlement::healthy(id)),
        Call::DeadLetter { id, sequence } => {
            let e = ledger.escrows[id];
            with_settlement(
                with_escrow(ledger, e.with_payout()),
                settlement_of(ledger.settlement(id), id).with_dead_letter(),
            ).moved(e.token, ledger.contract, e.payer, e.released - e.claimed)
        },
    }
}

/// Two steps, one after the other.
pub(crate) proof fn lemma_two_more(ledger: Ledger, steps: Seq<Step>, n: nat)
    ensures
        ledger.after_first(steps, n + 2) == ledger.after_first(steps, n).after(steps[n as int]).after(
            steps[n as int + 1],
        ),
{
    assert(ledger.after_first(steps, n + 2) == ledger.after_first(steps, n + 1).after(
        steps[n as int + 1],
    ));
}

/// Up to three steps from the start.
pub(crate) proof fn lemma_first_three(ledger: Ledger, steps: Seq<Step>)
    ensures
        ledger.after_first(steps, 0) == ledger,
        ledger.after_first(steps, 1) == ledger.after(steps[0]),
        ledger.after_first(steps, 2) == ledger.after(steps[0]).after(steps[1]),
        ledger.after_first(steps, 3) == ledger.after(steps[0]).after(steps[1]).after(steps[2]),
{
    reveal_with_fuel(Ledger::after_first, 4);
}

proof fn lemma_initialize_outcome(ledger: Ledger, arbiter: Address)
    requires
        ledger.sound(),
        ledger.error_of(Call::Initialize { arbiter }) is None,
    ensures
        ledger.after_call(Call::Initialize { arbiter }) == outcome(
            ledger,
            Call::Initialize { arbiter },
        ),
{
    lemma_first_three(ledger, ledger.steps_of(Call::Initialize { arbiter }));
}

proof fn lemma_open_escrow_outcome(ledger: Ledger, call: Call)
    requires
        ledger.sound(),
        ledger.runs(call),
        call is OpenEscrow,
        ledger.error_of(call) is None,
    ensures
        ledger.after_call(call) == outcome(ledger, call),
{
    let steps = ledger.steps_of(call);
    assert(steps.len() == 9);
    lemma_first_three(ledger, steps);
    lemma_two_more(ledger, steps, 3);
    lemma_two_more(ledger, steps, 5);
    lemma_two_more(ledger, steps, 7);
    assert(ledger.after_call(call) =~= outcome(ledger, call));
}

proof fn lemma_quiet_outcome(ledger: Ledger, call: Call)
    requires
        ledger.sound(),
        ledger.runs(call),
        call is ReleasePartial || call is Dispute || call is ResolveDispute || call is ReportFailure
            || call is ClearFailure,
        ledger.error_of(call) is None,
    ensures
        ledger.after_call(call) == outcome(ledger, call),
{
    let steps = ledger.steps_of(call);
    assert(steps.len() == 4);
    lemma_first_three(ledger, steps);
    assert(ledger.after_first(steps, 4) == ledger.after_first(steps, 3).after(steps[3]));
    assert(ledger.after_call(call) =~= outcome(ledger, call));
}

proof fn lemma_claim_outcome(ledger: Ledger, call: Call)
    requires
        ledger.sound(),
        call is Claim,
        ledger.error_of(call) is None,
    ensures
        ledger.after_call(call) == outcome(ledger, call),
{
    let steps = ledger.steps_of(call);
    assert(steps.len() == 7);
    lemma_first_three(ledger, steps);
    lemma_two_more(ledger, steps, 3);
    lemma_two_more(ledger, steps, 5);
    assert(ledger.after_call(call) =~= outcome(ledger, call));
}

proof fn lemma_close_escrow_outcome(ledger: Ledger, call: Call)
    requires
        ledger.sound(),
        call is CloseEscrow,
        ledger.error_of(call) is None,
    ensures
        ledger.after_call(call) == outcome(ledger, call),
{
    let steps = ledger.steps_of(call);
    let e = ledger.escrows[call->CloseEscrow_id];
    lemma_first_three(ledger, steps);
    lemma_two_more(ledger, steps, 3);
    if e.total - e.released > 0 {
        assert(steps.len() == 7);
        lemma_two_more(ledger, steps, 5);
    } else {
        assert(steps.len() == 6);
        assert(ledger.after_first(steps, 6) == ledger.after_first(steps, 5).after(steps[5]));
    }
    assert(ledger.after_call(call) =~= outcome(ledger, call));
}

proof fn lemma_dead_letter_outcome(ledger: Ledger, call: Call)
    requires
        ledger.sound(),
        ledger.runs(call),
        call is DeadLetter,
        ledger.error_of(call) is None,
    ensures
        ledger.after_call(call) == outcome(ledger, call),
{
    let steps = ledger.steps_of(call);
    assert(steps.len() == 9);
    lemma_first_three(ledger, steps);
    lemma_two_more(ledger, steps, 3);
    lemma_two_more(ledger, steps, 5);
    lemma_two_more(ledger, steps, 7);
    assert(ledger.after_call(call) =~= outcome(ledger, call));
}

/// Taking the steps of a call that succeeds leaves its outcome behind: nothing
/// else on the ledger changes, and the marker is released.
pub proof fn law_steps_lead_to_the_outcome(ledger: Ledger, call: Call)
    requires
        ledger.sound(),
        ledger.runs(call),
        ledger.error_of(call) is None,
    ensures
        ledger.after_call(call) == outcome(ledger, call),
{
    match call {
        Call::Initialize { arbiter } => lemma_initialize_outcome(ledger, arbiter),
        Call::OpenEscrow { .. } => lemma_open_escrow_outcome(ledger, call),
        Call::Claim { .. } => lemma_claim_outcome(ledger, call),
        Call::CloseEscrow { .. } => lemma_close_escrow_outcome(ledger, call),
        Call::DeadLetter { .. } => lemma_dead_letter_outcome(ledger, call),
        _ => lemma_quiet_outcome(ledger, call),
    }
}

/// Rows beyond `last` do not enter the debt.
proof fn lemma_owed_ignores_later_rows(
    escrows: Map<u64, Escrow>,
    last: nat,
    token: Address,
    row: Escrow,
)
    requires
        last < row.id,
    ensures
        owed(escrows.insert(row.id, row), last, token) == owed(escrows, last, token),
    decreases last,
{
    if last > 0 {
        lemma_owed_ignores_later_rows(escrows, (last - 1) as nat, token, row);
    }
}

/// Replacing one row changes the debt by what the row's own debt changes.
proof fn lemma_owed_after_replacing(
    escrows: Map<u64, Escrow>,
    last: nat,
    token: Address,
    row: Escrow,
)
    requires
        1 <= row.id <= last <= u64::MAX,
    ensures
        owed(escrows.insert(row.id, row), last, token) == owed(escrows, last, token) - debt(
            escrows[row.id],
            token,
        ) + debt(row, token),
    decreases last,
{
    if row.id == last {
        lemma_owed_ignores_later_rows(escrows, (last - 1) as nat, token, row);
    } else {
        lemma_owed_after_replacing(escrows, (last - 1) as nat, token, row);
    }
}

/// A transfer between the router and another party changes the router's balance
/// by the amount, in that token only.
proof fn lemma_moved_balance(
    ledger: Ledger,
    token: Address,
    from: Address,
    to: Address,
    amount: int,
    other: Address,
)
    requires
        from != to,
    ensures
        ledger.moved(token, from, to, amount).balance(other, from) == ledger.balance(other, from)
            - if other == token {
            amount
        } else {
            0
        },
        ledger.moved(token, from, to, amount).balance(other, to) == ledger.balance(other, to)
            + if other == token {
            amount
        } else {
            0
        },
{
}

/// What a row may become: the same deposit between the same parties, and
/// totals that never fall.
pub open spec fn follows(before: Escrow, later: Escrow) -> bool {
    &&& later.id == before.id
    &&& later.payer == before.payer
    &&& later.payee == before.payee
    &&& later.token == before.token
    &&& later.total == before.total
    &&& later.released >= before.released
    &&& later.claimed >= before.claimed
    &&& later.release_count >= before.release_count
    &&& before.closed ==> later.closed
}

/// The escrow that a call writes, if it writes that of an existing id.
pub open spec fn written_row(ledger: Ledger, call: Call) -> Option<Escrow> {
    match call {
        Call::ReleasePartial { id, amount } => Some(
            ledger.escrows[id].with_release(amount as int),
        ),
        Call::Claim { id } => Some(ledger.escrows[id].with_payout()),
        Call::Dispute { id, amount } => Some(ledger.escrows[id].with_dispute(amount)),
        Call::ResolveDispute { id, to_payee } => Some(
            ledger.escrows[id].with_resolution(to_payee),
        ),
        Call::CloseEscrow { id } => Some(ledger.escrows[id].with_close()),
        Call::DeadLetter { id, .. } => Some(ledger.escrows[id].with_payout()),
        _ => None,
    }
}

proof fn lemma_written_row_is_sound(ledger: Ledger, call: Call)
    requires
        ledger.sound(),
        ledger.error_of(call) is None,
        written_row(ledger, call) is Some,
    ensures
        ({
            let row = written_row(ledger, call)->0;
            &&& ledger.escrows.contains_key(row.id)
            &&& row.wf()
            &&& follows(ledger.escrows[row.id], row)
            &&& outcome(ledger, call).escrows == ledger.escrows.insert(row.id, row)
        }),
{
}

proof fn lemma_row_stays_sound(ledger: Ledger, call: Call)
    requires
        ledger.sound(),
        ledger.runs(call),
        ledger.error_of(call) is None,
    ensures
        forall|id: u64| #[trigger]
            ledger.escrows.contains_key(id) ==> outcome(ledger, call).escrows.contains_key(id)
                && outcome(ledger, call).escrows[id].wf() && follows(
                ledger.escrows[id],
                outcome(ledger, call).escrows[id],
            ),
{
    if written_row(ledger, call) is Some {
        lemma_written_row_is_sound(ledger, call);
    } else if call is OpenEscrow {
        assert(!ledger.escrows.contains_key(id_after(ledger.counter) as u64));
    }
}

/// A transfer from a holder to itself changes no balance.
proof fn lemma_moved_to_itself(
    ledger: Ledger,
    token: Address,
    holder: Address,
    amount: int,
    other: Address,
)
    ensures
        ledger.moved(token, holder, holder, amount).balance(other, holder) == ledger.balance(
            other,
            holder,
        ),
{
}

proof fn lemma_balance_after_row(ledger: Ledger, call: Call, token: Address)
    requires
        ledger.sound(),
        ledger.conserved_in(token),
        ledger.error_of(call) is None,
        written_row(ledger, call) is Some,
    ensures
        ({
            let later = outcome(ledger, call);
            let row = written_row(ledger, call)->0;
            let e = ledger.escrows[row.id];
            let excess = later.balance(token, later.contract) - owed(
                later.escrows,
                later.last_id(),
                token,
            );
            &&& outstanding(e) >= outstanding(row)
            &&& ledger.pays_itself(call) ==> outstanding(e) > outstanding(row)
            &&& excess == if ledger.pays_itself(call) && token == e.token {
                outstanding(e) - outstanding(row)
            } else {
                0
            }
        }),
{
    let row = written_row(ledger, call)->0;
    let e = ledger.escrows[row.id];
    let paid = outstanding(e) - outstanding(row);
    lemma_written_row_is_sound(ledger, call);
    lemma_owed_after_replacing(ledger.escrows, ledger.last_id(), token, row);
    if ledger.pays_itself(call) {
        lemma_moved_to_itself(ledger, e.token, ledger.contract, paid, token);
    } else {
        if e.payee != ledger.contract {
            lemma_moved_balance(ledger, e.token, ledger.contract, e.payee, paid, token);
        }
        if e.payer != ledger.contract {
            lemma_moved_balance(ledger, e.token, ledger.contract, e.payer, paid, token);
        }
    }
}

proof fn lemma_balance_after_deposit(ledger: Ledger, call: Call, token: Address)
    requires
        ledger.sound(),
        ledger.conserved_in(token),
        ledger.runs(call),
        ledger.error_of(call) is None,
        call is OpenEscrow,
    ensures
        ({
            let later = outcome(ledger, call);
            later.balance(token, later.contract) == owed(later.escrows, later.last_id(), token)
                - if ledger.pays_itself(call) && token == call->OpenEscrow_token {
                call->OpenEscrow_total as int
            } else {
                0
            }
        }),
{
    let later = outcome(ledger, call);
    let id = id_after(ledger.counter) as u64;
    let row = later.escrows[id];
    let booked = with_escrow(Ledger { counter: Some(id), ..ledger }, row);
    assert(later.last_id() == ledger.last_id() + 1);
    lemma_owed_ignores_later_rows(ledger.escrows, ledger.last_id(), token, row);
    if ledger.pays_itself(call) {
        lemma_moved_to_itself(booked, row.token, ledger.contract, row.total as int, token);
    } else {
        lemma_moved_balance(
            booked,
            row.token,
            row.payer,
            ledger.contract,
            row.total as int,
            token,
        );
    }
}

/// A call that asks for no transfer leaves the debt in every token as it was.
pub(crate) proof fn lemma_quiet_calls_keep_the_debt(ledger: Ledger, call: Call, token: Address)
    requires
        ledger.sound(),
        ledger.runs(call),
        !(call is OpenEscrow || call is Claim || call is CloseEscrow || call is DeadLetter),
    ensures
        ({
            let later = ledger.after_call(call);
            &&& later.contract == ledger.contract
            &&& owed(later.escrows, later.last_id(), token) == owed(
                ledger.escrows,
                ledger.last_id(),
                token,
            )
        }),
{
    if ledger.error_of(call) is None {
        law_steps_lead_to_the_outcome(ledger, call);
        if written_row(ledger, call) is Some {
            let row = written_row(ledger, call)->0;
            lemma_written_row_is_sound(ledger, call);
            lemma_owed_after_replacing(ledger.escrows, ledger.last_id(), token, row);
        }
    }
}

/// Value is conserved, token by token: where the router held exactly what it owes
/// in a token, it still does after any call, unless the call has it pay itself in
/// that very token.
pub proof fn law_every_call_conserves_value(ledger: Ledger, call: Call, token: Address)
    requires
        ledger.sound(),
        ledger.conserved_in(token),
        ledger.runs(call),
    ensures
        ledger.after_call(call).conserved_in(token) <==> !ledger.pays_itself_in(call, token),
{
    if ledger.error_of(call) is None {
        law_steps_lead_to_the_outcome(ledger, call);
        if written_row(ledger, call) is Some {
            lemma_balance_after_row(ledger, call, token);
        } else if call is OpenEscrow {
            lemma_balance_after_deposit(ledger, call, token);
        }
    }
}

/// Every call keeps the ledger sound. In particular no escrow pays out more than
/// it took in, on every path.
pub proof fn law_every_call_keeps_the_ledger_sound(ledger: Ledger, call: Call)
    requires
        ledger.sound(),
        ledger.runs(call),
    ensures
        ledger.after_call(call).sound(),
{
    if ledger.error_of(call) is None {
        law_steps_lead_to_the_outcome(ledger, call);
        lemma_row_stays_sound(ledger, call);
        if written_row(ledger, call) is Some {
            lemma_written_row_is_sound(ledger, call);
        }
    }
}

/// Every run of calls keeps the ledger sound.
pub proof fn law_every_run_keeps_the_ledger_sound(ledger: Ledger, calls: Seq<Call>)
    requires
        ledger.sound(),
    ensures
        ledger.after_calls(calls).sound(),
    decreases calls.len(),
{
    if calls.len() > 0 {
        let before = ledger.after_calls(calls.drop_last());
        law_every_run_keeps_the_ledger_sound(ledger, calls.drop_last());
        if before.runs(calls.last()) {
            law_every_call_keeps_the_ledger_sound(before, calls.last());
        }
    }
}

/// Whatever calls are made on a router from its deployment on, its ledger is
/// sound.
pub proof fn law_every_reachable_ledger_is_sound(contract: Address, calls: Seq<Call>)
    ensures
        Ledger::fresh(contract).after_calls(calls).sound(),
{
    law_every_run_keeps_the_ledger_sound(Ledger::fresh(contract), calls);
}

/// Value is conserved, token by token, over every run of calls in which the
/// router never pays itself in that token.
pub proof fn law_every_run_conserves_value(ledger: Ledger, calls: Seq<Call>, token: Address)
    requires
        ledger.sound(),
        ledger.conserved_in(token),
        ledger.never_pays_itself_in(calls, token),
    ensures
        ledger.after_calls(calls).conserved_in(token),
    decreases calls.len(),
{
    if calls.len() > 0 {
        let before = ledger.after_calls(calls.drop_last());
        law_every_run_keeps_the_ledger_sound(ledger, calls.drop_last());
        law_every_run_conserves_value(ledger, calls.drop_last(), token);
        if before.runs(calls.last()) {
            law_every_call_conserves_value(before, calls.last(), token);
        }
    }
}

/// Whatever calls are made on a router from its deployment on, it holds exactly
/// what every escrow still owes in a token, as long as it never paid itself in
/// that token. What it did in other tokens does not matter.
pub proof fn law_every_reachable_ledger_is_conserved(
    contract: Address,
    calls: Seq<Call>,
    token: Address,
)
    requires
        Ledger::fresh(contract).never_pays_itself_in(calls, token),
    ensures
        Ledger::fresh(contract).after_calls(calls).conserved_in(token),
{
    law_every_run_conserves_value(Ledger::fresh(contract), calls, token);
}

/// One call moves a row forward, if it changes it at all.
proof fn lemma_row_moves_forward(ledger: Ledger, call: Call, id: u64)
    requires
        ledger.sound(),
        ledger.runs(call),
        ledger.escrows.contains_key(id),
    ensures
        ledger.after_call(call).escrows.contains_key(id),
        follows(ledger.escrows[id], ledger.after_call(call).escrows[id]),
{
    if ledger.error_of(call) is None {
        law_steps_lead_to_the_outcome(ledger, call);
        lemma_row_stays_sound(ledger, call);
    }
}

/// Whatever calls follow, a deposit, its parties and its token never change; the
/// released and claimed totals never fall; a closed escrow stays closed; no
/// escrow disappears.
pub proof fn law_rows_only_move_forward(ledger: Ledger, calls: Seq<Call>, id: u64)
    requires
        ledger.sound(),
        ledger.escrows.contains_key(id),
    ensures
        ledger.after_calls(calls).escrows.contains_key(id),
        follows(ledger.escrows[id], ledger.after_calls(calls).escrows[id]),
    decreases calls.len(),
{
    if calls.len() > 0 {
        let before = ledger.after_calls(calls.drop_last());
        law_rows_only_move_forward(ledger, calls.drop_last(), id);
        law_every_run_keeps_the_ledger_sound(ledger, calls.drop_last());
        if before.runs(calls.last()) {
            lemma_row_moves_forward(before, calls.last(), id);
        }
    }
}

} // verus!
