//! The calls of the payment router.
//!
//! A call takes the entries that it reads from the ledger (`None` where the
//! ledger holds nothing under the key), then its arguments. Every path that
//! moves value validates first, commits its rows second, and only then asks the
//! token to move anything.

use super::rules::{
    bumping, claim_end, claim_steps, claimable_end, clear_failure_end, clear_failure_steps,
    close_escrow_end, close_escrow_steps, dead_letter_at_end, dead_letter_end, dead_letter_steps,
    dispute_end, dispute_steps, get_escrow_end, id_after, initialize_end, initialize_steps,
    open_escrow_end, open_escrow_steps, releasable_end, release_partial_end,
    release_partial_steps, report_failure_end, report_failure_steps, resolve_dispute_end,
    resolve_dispute_steps, saving, saving_settlement, settlement_of, settlement_status_end,
    sound_escrow, sound_settlement, sweep_opens_at,
};
use super::types::{
    AuthArgs, Claimed, DataKey, DeadLettered, DisputeResolved, Disputed, Entry, Error, Escrow,
    EscrowClosed, EscrowOpened, Event, FailureReason, PartialReleased, Settlement,
    SettlementFailed, SettlementRecovered, Step, DEAD_LETTER_DELAY, MAX_RELEASES,
    MAX_SETTLEMENT_FAILURES,
};
use crate::host::{Address, Plan, PERSISTENT_THRESHOLD, PERSISTENT_TTL};
use vstd::prelude::*;

verus! {

/// Escrow, dispute windows, payout release.
pub struct PaymentRouter;

impl PaymentRouter {
    /// One-time initialization. The arbiter is the only party that can resolve
    /// a dispute, and signs for its own installation.
    pub fn initialize(held: Option<Address>, arbiter: Address) -> (plan: Plan<Step, (), Error>)
        ensures
            plan@.end == initialize_end(held),
            plan@.steps == initialize_steps(held, arbiter),
    {
        let mut steps: Vec<Step> = Vec::new();
        if held.is_some() {
            return Plan::fail(steps, Error::AlreadyInitialized);
        }
        steps.push(Step::RequireAuth { who: arbiter });
        steps.push(Step::Write { entry: Entry::Arbiter(arbiter) });
        Self::bump_instance(&mut steps);
        Plan::done(steps, ())
    }

    /// Deposit `total` into escrow for `payee`.
    ///
    /// The row is written before the token is asked to move anything, so for
    /// the length of that call the ledger records a claim on funds that have
    /// not arrived. The marker around it turns a token that calls back away.
    pub fn open_escrow(
        counter: Option<u64>,
        in_flight: bool,
        contract: Address,
        payer: Address,
        payee: Address,
        token: Address,
        total: i128,
    ) -> (plan: Plan<Step, u64, Error>)
        requires
            open_escrow_end(counter, in_flight, payer, payee, total) is Ok ==> id_after(counter)
                <= u64::MAX,
        ensures
            plan@.end == open_escrow_end(counter, in_flight, payer, payee, total),
            plan@.steps == open_escrow_steps(
                counter,
                in_flight,
                contract,
                payer,
                payee,
                token,
                total,
            ),
    {
        let mut steps: Vec<Step> = Vec::new();
        if total <= 0 {
            return Plan::fail(steps, Error::InvalidAmount);
        }
        if payer == payee {
            return Plan::fail(steps, Error::SamePayerAndPayee);
        }
        steps.push(
            Step::RequireAuthForArgs {
                who: payer,
                args: AuthArgs::Deposit { payee, token, total },
            },
        );
        if let Err(error) = Self::enter(in_flight, &mut steps) {
            return Plan::fail(steps, error);
        }
        let id = Self::next_id(counter, &mut steps);
        let escrow = Escrow {
            id,
            payer,
            payee,
            token,
            total,
            released: 0,
            claimed: 0,
            disputed: 0,
            release_count: 0,
            closed: false,
        };
        Self::save(escrow, &mut steps);
        Self::bump_instance(&mut steps);
        steps.push(Step::Transfer { token, from: payer, to: contract, amount: total });
        Self::leave(&mut steps);
        steps.push(
            Step::Publish { event: Event::EscrowOpened(EscrowOpened { id, payer, payee, total }) },
        );
        Plan::done(steps, id)
    }

    /// Settle the metered portion, leaving the remainder escrowed.
    ///
    /// The payer confirms that this much usage was metered, by a signature bound
    /// to this escrow and amount, so no intermediate can enlarge the release.
    ///
    /// Nothing is pushed. The release only makes funds claimable; the payee
    /// pulls them separately, so a payee whose destination is broken cannot
    /// make settlement fail for anyone else.
    pub fn release_partial(escrow: Option<Escrow>, id: u64, amount: i128) -> (plan: Plan<
        Step,
        (),
        Error,
    >)
        requires
            sound_escrow(escrow, id),
        ensures
            plan@.end == release_partial_end(escrow, amount),
            plan@.steps == release_partial_steps(escrow, id, amount),
    {
        let mut steps: Vec<Step> = Vec::new();
        let mut escrow = match Self::load(escrow) {
            Ok(escrow) => escrow,
            Err(error) => return Plan::fail(steps, error),
        };
        if let Err(error) = Self::assert_open(&escrow) {
            return Plan::fail(steps, error);
        }
        if amount <= 0 {
            return Plan::fail(steps, Error::InvalidAmount);
        }
        steps.push(
            Step::RequireAuthForArgs { who: escrow.payer, args: AuthArgs::Amount { id, amount } },
        );
        if escrow.release_count >= MAX_RELEASES {
            return Plan::fail(steps, Error::ReleaseCapReached);
        }
        // Releases never sum past the deposit, and never dip into a frozen
        // portion.
        if amount > escrow.releasable() {
            return Plan::fail(steps, Error::InsufficientEscrow);
        }
        escrow.released = escrow.released + amount;
        escrow.release_count = escrow.release_count + 1;
        Self::save(escrow, &mut steps);
        steps.push(
            Step::Publish {
                event: Event::PartialReleased(
                    PartialReleased {
                        id,
                        amount,
                        released_total: escrow.released,
                        release_count: escrow.release_count,
                    },
                ),
            },
        );
        Plan::done(steps, ())
    }

    /// Pull everything released and not yet taken.
    ///
    /// Callable after the escrow is closed, so a refund of the remainder never
    /// strands the payee. A closed escrow with nothing left is finished, not
    /// merely empty for the moment, and the error says so.
    pub fn claim(escrow: Option<Escrow>, in_flight: bool, contract: Address, id: u64) -> (plan:
        Plan<Step, i128, Error>)
        requires
            sound_escrow(escrow, id),
        ensures
            plan@.end == claim_end(escrow, in_flight),
            plan@.steps == claim_steps(escrow, in_flight, contract, id),
    {
        let mut steps: Vec<Step> = Vec::new();
        let mut escrow = match Self::load(escrow) {
            Ok(escrow) => escrow,
            Err(error) => return Plan::fail(steps, error),
        };
        steps.push(Step::RequireAuth { who: escrow.payee });
        if let Err(error) = Self::enter(in_flight, &mut steps) {
            return Plan::fail(steps, error);
        }
        let amount: i128 = escrow.claimable();
        if amount <= 0 {
            if escrow.closed {
                return Plan::fail(steps, Error::AlreadySettled);
            }
            return Plan::fail(steps, Error::NothingToClaim);
        }
        // The pull is recorded before the token is called, so a callback finds
        // nothing left to draw.
        escrow.claimed = escrow.claimed + amount;
        Self::save(escrow, &mut steps);
        steps.push(
            Step::Transfer { token: escrow.token, from: contract, to: escrow.payee, amount },
        );
        Self::leave(&mut steps);
        steps.push(
            Step::Publish { event: Event::Claimed(Claimed { id, payee: escrow.payee, amount }) },
        );
        Plan::done(steps, amount)
    }

    /// Freeze part of the unreleased remainder until it is arbitrated.
    ///
    /// Funds released before the dispute were settled against usage that was
    /// already metered, and stay released.
    pub fn dispute(escrow: Option<Escrow>, id: u64, amount: i128) -> (plan: Plan<Step, (), Error>)
        requires
            sound_escrow(escrow, id),
        ensures
            plan@.end == dispute_end(escrow, amount),
            plan@.steps == dispute_steps(escrow, id, amount),
    {
        let mut steps: Vec<Step> = Vec::new();
        let mut escrow = match Self::load(escrow) {
            Ok(escrow) => escrow,
            Err(error) => return Plan::fail(steps, error),
        };
        if let Err(error) = Self::assert_open(&escrow) {
            return Plan::fail(steps, error);
        }
        if escrow.disputed > 0 {
            return Plan::fail(steps, Error::DisputeAlreadyOpen);
        }
        if amount <= 0 {
            return Plan::fail(steps, Error::InvalidAmount);
        }
        steps.push(
            Step::RequireAuthForArgs { who: escrow.payer, args: AuthArgs::Amount { id, amount } },
        );
        if amount > escrow.releasable() {
            return Plan::fail(steps, Error::InsufficientEscrow);
        }
        escrow.disputed = amount;
        Self::save(escrow, &mut steps);
        steps.push(Step::Publish { event: Event::Disputed(Disputed { id, amount }) });
        Plan::done(steps, ())
    }

    /// Resolve an open dispute. Arbiter only.
    ///
    /// In the payee's favour the frozen amount becomes claimable; in the payer's
    /// favour it returns to the releasable remainder, so a resolved dispute
    /// leaves the escrow usable. Neither consumes a partial-release slot.
    pub fn resolve_dispute(
        arbiter: Option<Address>,
        escrow: Option<Escrow>,
        id: u64,
        to_payee: bool,
    ) -> (plan: Plan<Step, (), Error>)
        requires
            sound_escrow(escrow, id),
        ensures
            plan@.end == resolve_dispute_end(arbiter, escrow),
            plan@.steps == resolve_dispute_steps(arbiter, escrow, id, to_payee),
    {
        let mut steps: Vec<Step> = Vec::new();
        match Self::arbiter(arbiter) {
            Ok(who) => steps.push(Step::RequireAuth { who }),
            Err(error) => return Plan::fail(steps, error),
        }
        let mut escrow = match Self::load(escrow) {
            Ok(escrow) => escrow,
            Err(error) => return Plan::fail(steps, error),
        };
        if escrow.disputed <= 0 {
            return Plan::fail(steps, Error::NoDisputeOpen);
        }
        let amount: i128 = escrow.disputed;
        escrow.disputed = 0;
        if to_payee {
            escrow.released = escrow.released + amount;
        }
        Self::save(escrow, &mut steps);
        steps.push(
            Step::Publish {
                event: Event::DisputeResolved(DisputeResolved { id, amount, to_payee }),
            },
        );
        Plan::done(steps, ())
    }

    /// Close the escrow and refund whatever is still unreleased to the payer.
    ///
    /// Refuses while a dispute is open: closing then would refund the frozen
    /// amount out from under the arbitration. Anything already released stays
    /// claimable by the payee.
    pub fn close_escrow(escrow: Option<Escrow>, in_flight: bool, contract: Address, id: u64) -> (plan:
        Plan<Step, (), Error>)
        requires
            sound_escrow(escrow, id),
        ensures
            plan@.end == close_escrow_end(escrow, in_flight),
            plan@.steps == close_escrow_steps(escrow, in_flight, contract, id),
    {
        let mut steps: Vec<Step> = Vec::new();
        let mut escrow = match Self::load(escrow) {
            Ok(escrow) => escrow,
            Err(error) => return Plan::fail(steps, error),
        };
        if escrow.closed {
            return Plan::fail(steps, Error::AlreadySettled);
        }
        if escrow.disputed > 0 {
            return Plan::fail(steps, Error::DisputeAlreadyOpen);
        }
        steps.push(Step::RequireAuthForArgs { who: escrow.payer, args: AuthArgs::Escrow { id } });
        if let Err(error) = Self::enter(in_flight, &mut steps) {
            return Plan::fail(steps, error);
        }
        // The close is committed before the refund leaves, so the refund cannot
        // be taken twice.
        let refund: i128 = escrow.releasable();
        escrow.closed = true;
        Self::save(escrow, &mut steps);
        if refund > 0 {
            steps.push(
                Step::Transfer {
                    token: escrow.token,
                    from: contract,
                    to: escrow.payer,
                    amount: refund,
                },
            );
        }
        Self::leave(&mut steps);
        steps.push(
            Step::Publish { event: Event::EscrowClosed(EscrowClosed { id, refunded: refund }) },
        );
        Plan::done(steps, ())
    }

    /// Record a settlement attempt that did not land.
    ///
    /// A transfer that fails takes its whole transaction with it, so the payee
    /// reports the failure and classifies it. The claim is preserved exactly as
    /// it was; enough reports eventually open the dead-letter path.
    pub fn report_failure(
        escrow: Option<Escrow>,
        settlement: Option<Settlement>,
        id: u64,
        reason: FailureReason,
        sequence: u32,
    ) -> (plan: Plan<Step, u32, Error>)
        requires
            sound_escrow(escrow, id),
            sound_settlement(settlement, id),
            report_failure_end(escrow, settlement, id) is Ok ==> settlement_of(
                settlement,
                id,
            ).failures < u32::MAX,
        ensures
            plan@.end == report_failure_end(escrow, settlement, id),
            plan@.steps == report_failure_steps(escrow, settlement, id, reason, sequence),
    {
        let mut steps: Vec<Step> = Vec::new();
        let escrow = match Self::load(escrow) {
            Ok(escrow) => escrow,
            Err(error) => return Plan::fail(steps, error),
        };
        steps.push(Step::RequireAuthForArgs { who: escrow.payee, args: AuthArgs::Escrow { id } });
        let mut state = Self::settlement(settlement, id);
        // Checked before the claim: after a sweep the claim is zero, and saying
        // so would name a symptom of the sweep in place of the sweep.
        if state.dead_lettered {
            return Plan::fail(steps, Error::AlreadyDeadLettered);
        }
        if escrow.claimable() <= 0 {
            return Plan::fail(steps, Error::NothingToClaim);
        }
        state.failures = state.failures + 1;
        state.last_reason = reason;
        let exhausted: bool = !state.failed && state.failures >= MAX_SETTLEMENT_FAILURES;
        if exhausted {
            state.failed = true;
            state.failed_at = sequence;
        }
        Self::save_settlement(state, &mut steps);
        steps.push(
            Step::Publish {
                event: Event::SettlementFailed(
                    SettlementFailed {
                        id,
                        payee: escrow.payee,
                        reason,
                        failures: state.failures,
                        exhausted,
                    },
                ),
            },
        );
        Plan::done(steps, state.failures)
    }

    /// Clear the failure record after the payee has mended the account.
    ///
    /// The recovery path itself is the ordinary claim. Clearing makes a later
    /// failure count from zero.
    pub fn clear_failure(escrow: Option<Escrow>, settlement: Option<Settlement>, id: u64) -> (plan:
        Plan<Step, (), Error>)
        requires
            sound_escrow(escrow, id),
            sound_settlement(settlement, id),
        ensures
            plan@.end == clear_failure_end(escrow, settlement, id),
            plan@.steps == clear_failure_steps(escrow, settlement, id),
    {
        let mut steps: Vec<Step> = Vec::new();
        let escrow = match Self::load(escrow) {
            Ok(escrow) => escrow,
            Err(error) => return Plan::fail(steps, error),
        };
        steps.push(Step::RequireAuthForArgs { who: escrow.payee, args: AuthArgs::Escrow { id } });
        let state = Self::settlement(settlement, id);
        if !state.failed {
            return Plan::fail(steps, Error::SettlementNotFailed);
        }
        if state.dead_lettered {
            return Plan::fail(steps, Error::AlreadyDeadLettered);
        }
        let amount: i128 = escrow.claimable();
        Self::save_settlement(Settlement::healthy(id), &mut steps);
        steps.push(
            Step::Publish {
                event: Event::SettlementRecovered(
                    SettlementRecovered { id, payee: escrow.payee, amount },
                ),
            },
        );
        Plan::done(steps, ())
    }

    /// Sweep the claim of a settlement that has stayed broken back to the payer.
    ///
    /// Opens once enough failures were reported and the delay has passed. Only
    /// the arbiter may trigger it: the payer, who receives the value, would have
    /// an incentive to grief the payee into the failed state.
    ///
    /// The claimed total is advanced to the released total, as a pull does, so
    /// the payee cannot pull the same value afterwards. The sweep moves value,
    /// so it holds the marker like every other value-moving call.
    pub fn dead_letter(
        arbiter: Option<Address>,
        escrow: Option<Escrow>,
        settlement: Option<Settlement>,
        in_flight: bool,
        contract: Address,
        id: u64,
        sequence: u32,
    ) -> (plan: Plan<Step, i128, Error>)
        requires
            sound_escrow(escrow, id),
            sound_settlement(settlement, id),
            ({
                let state = settlement_of(settlement, id);
                arbiter is Some && escrow is Some && !in_flight && state.failed
                    && !state.dead_lettered ==> sweep_opens_at(state) <= u32::MAX
            }),
        ensures
            plan@.end == dead_letter_end(arbiter, escrow, settlement, in_flight, id, sequence),
            plan@.steps == dead_letter_steps(
                arbiter,
                escrow,
                settlement,
                in_flight,
                contract,
                id,
                sequence,
            ),
    {
        let mut steps: Vec<Step> = Vec::new();
        match Self::arbiter(arbiter) {
            Ok(who) => steps.push(Step::RequireAuth { who }),
            Err(error) => return Plan::fail(steps, error),
        }
        let mut escrow = match Self::load(escrow) {
            Ok(escrow) => escrow,
            Err(error) => return Plan::fail(steps, error),
        };
        if let Err(error) = Self::enter(in_flight, &mut steps) {
            return Plan::fail(steps, error);
        }
        let mut state = Self::settlement(settlement, id);
        if !state.failed {
            return Plan::fail(steps, Error::SettlementNotFailed);
        }
        if state.dead_lettered {
            return Plan::fail(steps, Error::AlreadyDeadLettered);
        }
        if sequence < state.failed_at + DEAD_LETTER_DELAY {
            return Plan::fail(steps, Error::DeadLetterNotReady);
        }
        let amount: i128 = escrow.claimable();
        if amount <= 0 {
            return Plan::fail(steps, Error::NothingToClaim);
        }
        // Advancing `claimed` stops the payee pulling what is swept.
        escrow.claimed = escrow.claimed + amount;
        state.dead_lettered = true;
        Self::save(escrow, &mut steps);
        Self::save_settlement(state, &mut steps);
        steps.push(
            Step::Transfer { token: escrow.token, from: contract, to: escrow.payer, amount },
        );
        Self::leave(&mut steps);
        steps.push(
            Step::Publish {
                event: Event::DeadLettered(
                    DeadLettered { id, payer: escrow.payer, amount, reason: state.last_reason },
                ),
            },
        );
        Plan::done(steps, amount)
    }

    /// The row of an escrow.
    pub fn get_escrow(escrow: Option<Escrow>) -> (result: Result<Escrow, Error>)
        ensures
            result == get_escrow_end(escrow),
            result == match escrow {
                Some(e) => Ok::<Escrow, Error>(e),
                None => Err(Error::EscrowNotFound),
            },
    {
        Self::load(escrow)
    }

    /// Released but not yet pulled by the payee.
    pub fn claimable(escrow: Option<Escrow>) -> (result: Result<i128, Error>)
        requires
            escrow matches Some(e) ==> e.wf(),
        ensures
            result == claimable_end(escrow),
    {
        match Self::load(escrow) {
            Ok(escrow) => Ok(escrow.claimable()),
            Err(error) => Err(error),
        }
    }

    /// What a further release may still draw on: nothing once the escrow is
    /// closed, since closing refunded the remainder.
    pub fn releasable(escrow: Option<Escrow>) -> (result: Result<i128, Error>)
        requires
            escrow matches Some(e) ==> e.wf(),
        ensures
            result == releasable_end(escrow),
    {
        match Self::load(escrow) {
            Ok(escrow) => if escrow.closed {
                Ok(0)
            } else {
                Ok(escrow.releasable())
            },
            Err(error) => Err(error),
        }
    }

    /// Recovery state of an escrow. A healthy escrow reports zeroed counters
    /// rather than an error.
    pub fn settlement_status(
        escrow: Option<Escrow>,
        settlement: Option<Settlement>,
        id: u64,
    ) -> (result: Result<Settlement, Error>)
        ensures
            result == settlement_status_end(escrow, settlement, id),
            result == match escrow {
                Some(_) => Ok::<Settlement, Error>(settlement_of(settlement, id)),
                None => Err(Error::EscrowNotFound),
            },
    {
        match Self::load(escrow) {
            Ok(_) => Ok(Self::settlement(settlement, id)),
            Err(error) => Err(error),
        }
    }

    /// Ledger at which the dead-letter path opens, or `None` while the escrow is
    /// healthy or once it has been swept.
    pub fn dead_letter_at(settlement: Option<Settlement>, id: u64) -> (at: Option<u32>)
        requires
            ({
                let state = settlement_of(settlement, id);
                state.failed && !state.dead_lettered ==> sweep_opens_at(state) <= u32::MAX
            }),
        ensures
            at == dead_letter_at_end(settlement, id),
            ({
                let state = settlement_of(settlement, id);
                at == if state.failed && !state.dead_lettered {
                    Some(sweep_opens_at(state) as u32)
                } else {
                    None
                }
            }),
    {
        let state = Self::settlement(settlement, id);
        if state.failed && !state.dead_lettered {
            Some(state.failed_at + DEAD_LETTER_DELAY)
        } else {
            None
        }
    }

    pub fn max_settlement_failures() -> (count: u32)
        ensures
            count == MAX_SETTLEMENT_FAILURES,
    {
        MAX_SETTLEMENT_FAILURES
    }

    pub fn max_releases() -> (count: u32)
        ensures
            count == MAX_RELEASES,
    {
        MAX_RELEASES
    }

    pub fn version() -> (version: u32)
        ensures
            version == 3,
    {
        3
    }

    /// Take the in-flight marker, or reject the call as re-entrant.
    fn enter(in_flight: bool, steps: &mut Vec<Step>) -> (result: Result<(), Error>)
        ensures
            result == if in_flight {
                Err::<(), Error>(Error::ReentrantCall)
            } else {
                Ok(())
            },
            final(steps)@ == if in_flight {
                old(steps)@
            } else {
                old(steps)@.push(Step::SetInFlight)
            },
    {
        if in_flight {
            return Err(Error::ReentrantCall);
        }
        steps.push(Step::SetInFlight);
        Ok(())
    }

    /// Release the in-flight marker.
    fn leave(steps: &mut Vec<Step>)
        ensures
            final(steps)@ == old(steps)@.push(Step::ClearInFlight),
    {
        steps.push(Step::ClearInFlight);
    }

    fn arbiter(held: Option<Address>) -> (result: Result<Address, Error>)
        ensures
            result == match held {
                Some(who) => Ok::<Address, Error>(who),
                None => Err(Error::NotInitialized),
            },
    {
        match held {
            Some(who) => Ok(who),
            None => Err(Error::NotInitialized),
        }
    }

    fn load(held: Option<Escrow>) -> (result: Result<Escrow, Error>)
        ensures
            result == match held {
                Some(e) => Ok::<Escrow, Error>(e),
                None => Err(Error::EscrowNotFound),
            },
    {
        match held {
            Some(escrow) => Ok(escrow),
            None => Err(Error::EscrowNotFound),
        }
    }

    /// Recovery state, healthy for an escrow that has never failed.
    fn settlement(held: Option<Settlement>, id: u64) -> (state: Settlement)
        ensures
            state == settlement_of(held, id),
    {
        match held {
            Some(state) => state,
            None => Settlement::healthy(id),
        }
    }

    /// Recovery state is renewed like the escrow itself: a record that expired
    /// first would silently reset the failure count.
    fn save_settlement(state: Settlement, steps: &mut Vec<Step>)
        ensures
            final(steps)@ == old(steps)@ + saving_settlement(state),
    {
        steps.push(Step::Write { entry: Entry::Settlement(state) });
        steps.push(
            Step::ExtendTtl {
                key: DataKey::Settlement(state.id),
                threshold: PERSISTENT_THRESHOLD,
                extend_to: PERSISTENT_TTL,
            },
        );
    }

    fn save(escrow: Escrow, steps: &mut Vec<Step>)
        ensures
            final(steps)@ == old(steps)@ + saving(escrow),
    {
        steps.push(Step::Write { entry: Entry::Escrow(escrow) });
        steps.push(
            Step::ExtendTtl {
                key: DataKey::Escrow(escrow.id),
                threshold: PERSISTENT_THRESHOLD,
                extend_to: PERSISTENT_TTL,
            },
        );
    }

    fn assert_open(escrow: &Escrow) -> (result: Result<(), Error>)
        ensures
            result == if escrow.closed {
                Err::<(), Error>(Error::EscrowClosed)
            } else {
                Ok(())
            },
    {
        if escrow.closed {
            return Err(Error::EscrowClosed);
        }
        Ok(())
    }

    /// Give out the next id.
    fn next_id(counter: Option<u64>, steps: &mut Vec<Step>) -> (id: u64)
        requires
            id_after(counter) <= u64::MAX,
        ensures
            id == id_after(counter),
            final(steps)@ == old(steps)@.push(Step::Write { entry: Entry::Counter(id) }),
    {
        let next: u64 = match counter {
            Some(last) => last + 1,
            None => 1,
        };
        steps.push(Step::Write { entry: Entry::Counter(next) });
        next
    }

    fn bump_instance(steps: &mut Vec<Step>)
        ensures
            final(steps)@ == old(steps)@.push(bumping()),
    {
        steps.push(
            Step::ExtendInstanceTtl {
                threshold: PERSISTENT_THRESHOLD,
                extend_to: PERSISTENT_TTL,
            },
        );
    }
}

} // verus!
