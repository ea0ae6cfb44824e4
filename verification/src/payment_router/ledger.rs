//! A model of the ledger that the router runs on, and of what its calls do to
//! it. The laws of the router are stated over this model.

use super::rules::{
    claim_end, claim_steps, clear_failure_end, clear_failure_steps, close_escrow_end,
    close_escrow_steps, dead_letter_end, dead_letter_steps, dispute_end, dispute_steps,
    initialize_end, initialize_steps, open_escrow_end, open_escrow_steps, release_partial_end,
    release_partial_steps, report_failure_end, report_failure_steps, resolve_dispute_end,
    resolve_dispute_steps, settlement_of,
};
use super::types::{Entry, Error, Escrow, FailureReason, Settlement, Step};
use crate::host::Address;
use vstd::prelude::*;

verus! {

/// The router's entries, and what its transfers did to the balances of others.
/// Tokens are taken to move exactly what they are asked to.
#[verifier::ext_equal]
pub struct Ledger {
    /// The router's own address.
    pub contract: Address,
    pub arbiter: Option<Address>,
    pub counter: Option<u64>,
    pub in_flight: bool,
    pub escrows: Map<u64, Escrow>,
    pub settlements: Map<u64, Settlement>,
    /// What each holder has in each token, counted from the router's deployment
    /// and over the router's own transfers, by token and holder. Who is not in
    /// the map has gained and lost nothing.
    pub balances: Map<(Address, Address), int>,
}

/// A call that can change the ledger. `sequence` is the ledger that the call
/// runs in.
pub enum Call {
    Initialize { arbiter: Address },
    OpenEscrow { payer: Address, payee: Address, token: Address, total: i128 },
    ReleasePartial { id: u64, amount: i128 },
    Claim { id: u64 },
    Dispute { id: u64, amount: i128 },
    ResolveDispute { id: u64, to_payee: bool },
    CloseEscrow { id: u64 },
    ReportFailure { id: u64, reason: FailureReason, sequence: u32 },
    ClearFailure { id: u64 },
    DeadLetter { id: u64, sequence: u32 },
}

/// The error that a result carries.
pub open spec fn error_in<T>(end: Result<T, Error>) -> Option<Error> {
    match end {
        Ok(_) => None,
        Err(error) => Some(error),
    }
}

/// What the router still owes on one escrow: the released and unpulled portion,
/// plus, while the escrow is open, what is unreleased or frozen.
pub open spec fn outstanding(e: Escrow) -> int {
    (e.released - e.claimed) + if e.closed {
        0
    } else {
        (e.total - e.released - e.disputed) + e.disputed
    }
}

/// What an escrow adds to the debt in `token`.
pub open spec fn debt(e: Escrow, token: Address) -> int {
    if e.token == token {
        outstanding(e)
    } else {
        0
    }
}

/// What the escrows with ids up to `last` are owed in `token`.
pub open spec fn owed(escrows: Map<u64, Escrow>, last: nat, token: Address) -> int
    decreases last,
{
    if last == 0 {
        0
    } else {
        owed(escrows, (last - 1) as nat, token) + debt(escrows[last as u64], token)
    }
}

impl Ledger {
    /// The ledger of a router that was just deployed at `contract`, and holds
    /// no tokens.
    pub open spec fn fresh(contract: Address) -> Ledger {
        Ledger {
            contract,
            arbiter: None,
            counter: None,
            in_flight: false,
            escrows: Map::empty(),
            settlements: Map::empty(),
            balances: Map::empty(),
        }
    }

    pub open spec fn balance(self, token: Address, holder: Address) -> int {
        if self.balances.contains_key((token, holder)) {
            self.balances[(token, holder)]
        } else {
            0
        }
    }

    /// The ledger after `token` moved `amount`.
    pub open spec fn moved(self, token: Address, from: Address, to: Address, amount: int) -> Ledger {
        let taken = Ledger {
            balances: self.balances.insert((token, from), self.balance(token, from) - amount),
            ..self
        };
        Ledger {
            balances: taken.balances.insert((token, to), taken.balance(token, to) + amount),
            ..taken
        }
    }

    /// The ledger after one step.
    pub open spec fn after(self, step: Step) -> Ledger {
        match step {
            Step::SetInFlight => Ledger { in_flight: true, ..self },
            Step::ClearInFlight => Ledger { in_flight: false, ..self },
            Step::Write { entry } => match entry {
                Entry::Arbiter(arbiter) => Ledger { arbiter: Some(arbiter), ..self },
                Entry::Counter(last) => Ledger { counter: Some(last), ..self },
                Entry::Escrow(e) => Ledger { escrows: self.escrows.insert(e.id, e), ..self },
                Entry::Settlement(s) => Ledger {
                    settlements: self.settlements.insert(s.id, s),
                    ..self
                },
            },
            Step::Transfer { token, from, to, amount } => self.moved(
                token,
                from,
                to,
                amount as int,
            ),
            _ => self,
        }
    }

    /// The ledger after the first `n` of `steps`.
    pub open spec fn after_first(self, steps: Seq<Step>, n: nat) -> Ledger
        decreases n,
    {
        if n == 0 {
            self
        } else {
            self.after_first(steps, (n - 1) as nat).after(steps[n - 1])
        }
    }

    /// The error that `call` ends in, if any.
    pub open spec fn error_of(self, call: Call) -> Option<Error> {
        match call {
            Call::Initialize { arbiter } => error_in(initialize_end(self.arbiter)),
            Call::OpenEscrow { payer, payee, token, total } => error_in(
                open_escrow_end(self.counter, self.in_flight, payer, payee, total),
            ),
            Call::ReleasePartial { id, amount } => error_in(
                release_partial_end(self.escrow(id), amount),
            ),
            Call::Claim { id } => error_in(claim_end(self.escrow(id), self.in_flight)),
            Call::Dispute { id, amount } => error_in(dispute_end(self.escrow(id), amount)),
            Call::ResolveDispute { id, to_payee } => error_in(
                resolve_dispute_end(self.arbiter, self.escrow(id)),
            ),
            Call::CloseEscrow { id } => error_in(close_escrow_end(self.escrow(id), self.in_flight)),
            Call::ReportFailure { id, reason, sequence } => error_in(
                report_failure_end(self.escrow(id), self.settlement(id), id),
            ),
            Call::ClearFailure { id } => error_in(
                clear_failure_end(self.escrow(id), self.settlement(id), id),
            ),
            Call::DeadLetter { id, sequence } => error_in(
                dead_letter_end(
                    self.arbiter,
                    self.escrow(id),
                    self.settlement(id),
                    self.in_flight,
                    id,
                    sequence,
                ),
            ),
        }
    }

    /// The steps that `call` takes.
    pub open spec fn steps_of(self, call: Call) -> Seq<Step> {
        match call {
            Call::Initialize { arbiter } => initialize_steps(self.arbiter, arbiter),
            Call::OpenEscrow { payer, payee, token, total } => open_escrow_steps(
                self.counter,
                self.in_flight,
                self.contract,
                payer,
                payee,
                token,
                total,
            ),
            Call::ReleasePartial { id, amount } => release_partial_steps(
                self.escrow(id),
                id,
                amount,
            ),
            Call::Claim { id } => claim_steps(
                self.escrow(id),
                self.in_flight,
                self.contract,
                id,
            ),
            Call::Dispute { id, amount } => dispute_steps(self.escrow(id), id, amount),
            Call::ResolveDispute { id, to_payee } => resolve_dispute_steps(
                self.arbiter,
                self.escrow(id),
                id,
                to_payee,
            ),
            Call::CloseEscrow { id } => close_escrow_steps(
                self.escrow(id),
                self.in_flight,
                self.contract,
                id,
            ),
            Call::ReportFailure { id, reason, sequence } => report_failure_steps(
                self.escrow(id),
                self.settlement(id),
                id,
                reason,
                sequence,
            ),
            Call::ClearFailure { id } => clear_failure_steps(
                self.escrow(id),
                self.settlement(id),
                id,
            ),
            Call::DeadLetter { id, sequence } => dead_letter_steps(
                self.arbiter,
                self.escrow(id),
                self.settlement(id),
                self.in_flight,
                self.contract,
                id,
                sequence,
            ),
        }
    }

    /// The ledger after `call`. A call that ends in an error is undone.
    pub open spec fn after_call(self, call: Call) -> Ledger {
        if self.error_of(call) is Some {
            self
        } else {
            self.after_first(self.steps_of(call), self.steps_of(call).len())
        }
    }

    /// The calls that can run: ids and failure counts must not run out of their
    /// machine words.
    pub open spec fn runs(self, call: Call) -> bool {
        self.error_of(call) is None ==> match call {
            Call::OpenEscrow { .. } => self.last_id() < u64::MAX,
            Call::ReportFailure { id, .. } => settlement_of(self.settlement(id), id).failures
                < u32::MAX,
            _ => true,
        }
    }

    /// The ledger after a run of calls. A call that cannot run is undone.
    pub open spec fn after_calls(self, calls: Seq<Call>) -> Ledger
        decreases calls.len(),
    {
        if calls.len() == 0 {
            self
        } else {
            let before = self.after_calls(calls.drop_last());
            if before.runs(calls.last()) {
                before.after_call(calls.last())
            } else {
                before
            }
        }
    }

    pub open spec fn escrow(self, id: u64) -> Option<Escrow> {
        if self.escrows.contains_key(id) {
            Some(self.escrows[id])
        } else {
            None
        }
    }

    pub open spec fn settlement(self, id: u64) -> Option<Settlement> {
        if self.settlements.contains_key(id) {
            Some(self.settlements[id])
        } else {
            None
        }
    }

    /// The last id that was given out, zero where there is none.
    pub open spec fn last_id(self) -> nat {
        match self.counter {
            Some(last) => last as nat,
            None => 0,
        }
    }

    /// The router holds exactly what it owes in `token`.
    pub open spec fn conserved_in(self, token: Address) -> bool {
        self.balance(token, self.contract) == owed(self.escrows, self.last_id(), token)
    }

    /// The rows are sound, the ids are those given out, and no call is in
    /// flight.
    pub open spec fn sound(self) -> bool {
        &&& !self.in_flight
        &&& forall|id: u64| #[trigger]
            self.escrows.contains_key(id) <==> 1 <= id <= self.last_id()
        &&& forall|id: u64| #[trigger]
            self.escrows.contains_key(id) ==> self.escrows[id].id == id && self.escrows[id].wf()
        &&& forall|id: u64| #[trigger]
            self.settlements.contains_key(id) ==> self.settlements[id].id == id
                && self.settlements[id].wf()
    }

    /// The call has a token move value from the router to the router itself: it
    /// is a party to the escrow, on the side that pays or is paid. The router
    /// settles its books on such a transfer, and no value arrives or leaves.
    pub open spec fn pays_itself(self, call: Call) -> bool {
        self.error_of(call) is None && match call {
            Call::OpenEscrow { payer, .. } => payer == self.contract,
            Call::Claim { id } => self.escrows[id].payee == self.contract,
            Call::CloseEscrow { id } => self.escrows[id].payer == self.contract
                && self.escrows[id].total > self.escrows[id].released,
            Call::DeadLetter { id, .. } => self.escrows[id].payer == self.contract,
            _ => false,
        }
    }

    /// The call has the router pay itself in `token`.
    pub open spec fn pays_itself_in(self, call: Call, token: Address) -> bool {
        self.pays_itself(call) && token == match call {
            Call::OpenEscrow { token: deposited, .. } => deposited,
            Call::Claim { id } => self.escrows[id].token,
            Call::CloseEscrow { id } => self.escrows[id].token,
            Call::DeadLetter { id, .. } => self.escrows[id].token,
            _ => token,
        }
    }

    /// No call of the run has the router pay itself in `token`.
    pub open spec fn never_pays_itself_in(self, calls: Seq<Call>, token: Address) -> bool
        decreases calls.len(),
    {
        calls.len() == 0 || {
            let before = self.after_calls(calls.drop_last());
            &&& self.never_pays_itself_in(calls.drop_last(), token)
            &&& before.runs(calls.last()) ==> !before.pays_itself_in(calls.last(), token)
        }
    }
}

} // verus!
