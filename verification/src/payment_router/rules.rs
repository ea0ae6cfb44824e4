//! What each router call decides, as mathematics: how it ends, and which steps
//! it takes, given the entries that it reads.

use super::types::{
    AuthArgs, Claimed, DataKey, DeadLettered, DisputeResolved, Disputed, Entry, Error, Escrow,
    EscrowClosed, EscrowOpened, Event, FailureReason, PartialReleased, Settlement,
    SettlementFailed, SettlementRecovered, Step, DEAD_LETTER_DELAY, MAX_RELEASES,
};
use crate::host::{Address, PERSISTENT_THRESHOLD, PERSISTENT_TTL};
use vstd::prelude::*;

verus! {

/// The ledger holds no escrow under `id`, or a sound one.
pub open spec fn sound_escrow(held: Option<Escrow>, id: u64) -> bool {
    held matches Some(e) ==> e.id == id && e.wf()
}

/// The ledger holds no recovery record under `id`, or a sound one.
pub open spec fn sound_settlement(held: Option<Settlement>, id: u64) -> bool {
    held matches Some(s) ==> s.id == id && s.wf()
}

/// The recovery state of an escrow: what the ledger holds, or the healthy
/// record where it holds nothing.
pub open spec fn settlement_of(held: Option<Settlement>, id: u64) -> Settlement {
    match held {
        Some(state) => state,
        None => Settlement::healthy(id),
    }
}

/// The id after the last one that was given out.
pub open spec fn id_after(counter: Option<u64>) -> int {
    match counter {
        Some(last) => last + 1,
        None => 1,
    }
}

/// The row of a new escrow.
pub open spec fn new_escrow(
    id: u64,
    payer: Address,
    payee: Address,
    token: Address,
    total: i128,
) -> Escrow {
    Escrow {
        id,
        payer,
        payee,
        token,
        total,
        released: 0,
        claimed: 0,
        disputed: 0,
        release_count: 0,
        closed: false,
    }
}

/// Writing an escrow: the row, then its renewal.
pub open spec fn saving(escrow: Escrow) -> Seq<Step> {
    seq![
        Step::Write { entry: Entry::Escrow(escrow) },
        Step::ExtendTtl {
            key: DataKey::Escrow(escrow.id),
            threshold: PERSISTENT_THRESHOLD,
            extend_to: PERSISTENT_TTL,
        },
    ]
}

/// Writing a recovery record: the row, then its renewal.
pub open spec fn saving_settlement(state: Settlement) -> Seq<Step> {
    seq![
        Step::Write { entry: Entry::Settlement(state) },
        Step::ExtendTtl {
            key: DataKey::Settlement(state.id),
            threshold: PERSISTENT_THRESHOLD,
            extend_to: PERSISTENT_TTL,
        },
    ]
}

/// Renewing the contract instance.
pub open spec fn bumping() -> Step {
    Step::ExtendInstanceTtl { threshold: PERSISTENT_THRESHOLD, extend_to: PERSISTENT_TTL }
}

pub open spec fn initialize_end(held: Option<Address>) -> Result<(), Error> {
    match held {
        Some(_) => Err(Error::AlreadyInitialized),
        None => Ok(()),
    }
}

pub open spec fn initialize_steps(held: Option<Address>, arbiter: Address) -> Seq<Step> {
    if held is Some {
        seq![]
    } else {
        seq![
            Step::RequireAuth { who: arbiter },
            Step::Write { entry: Entry::Arbiter(arbiter) },
            bumping(),
        ]
    }
}

pub open spec fn open_escrow_end(
    counter: Option<u64>,
    in_flight: bool,
    payer: Address,
    payee: Address,
    total: i128,
) -> Result<u64, Error> {
    if total <= 0 {
        Err(Error::InvalidAmount)
    } else if payer == payee {
        Err(Error::SamePayerAndPayee)
    } else if in_flight {
        Err(Error::ReentrantCall)
    } else {
        Ok(id_after(counter) as u64)
    }
}

pub open spec fn open_escrow_steps(
    counter: Option<u64>,
    in_flight: bool,
    contract: Address,
    payer: Address,
    payee: Address,
    token: Address,
    total: i128,
) -> Seq<Step> {
    let signed = Step::RequireAuthForArgs {
        who: payer,
        args: AuthArgs::Deposit { payee, token, total },
    };
    match open_escrow_end(counter, in_flight, payer, payee, total) {
        Err(Error::ReentrantCall) => seq![signed],
        Err(_) => seq![],
        Ok(id) => seq![
            signed,
            Step::SetInFlight,
            Step::Write { entry: Entry::Counter(id) },
        ] + saving(new_escrow(id, payer, payee, token, total)) + seq![
            bumping(),
            Step::Transfer { token, from: payer, to: contract, amount: total },
            Step::ClearInFlight,
            Step::Publish { event: Event::EscrowOpened(EscrowOpened { id, payer, payee, total }) },
        ],
    }
}

pub open spec fn release_partial_end(escrow: Option<Escrow>, amount: i128) -> Result<(), Error> {
    match escrow {
        None => Err(Error::EscrowNotFound),
        Some(e) => if e.closed {
            Err(Error::EscrowClosed)
        } else if amount <= 0 {
            Err(Error::InvalidAmount)
        } else if e.release_count >= MAX_RELEASES {
            Err(Error::ReleaseCapReached)
        } else if amount > e.total - e.released - e.disputed {
            Err(Error::InsufficientEscrow)
        } else {
            Ok(())
        },
    }
}

pub open spec fn release_partial_steps(escrow: Option<Escrow>, id: u64, amount: i128) -> Seq<Step> {
    match escrow {
        None => seq![],
        Some(e) => {
            let signed = Step::RequireAuthForArgs {
                who: e.payer,
                args: AuthArgs::Amount { id, amount },
            };
            let row = e.with_release(amount as int);
            if e.closed || amount <= 0 {
                seq![]
            } else if release_partial_end(escrow, amount) is Err {
                seq![signed]
            } else {
                seq![signed] + saving(row) + seq![
                    Step::Publish {
                        event: Event::PartialReleased(
                            PartialReleased {
                                id,
                                amount,
                                released_total: row.released,
                                release_count: row.release_count,
                            },
                        ),
                    },
                ]
            }
        },
    }
}

/// What a further release may still draw on. Closing refunds the remainder, so
/// nothing is left of it on a closed escrow.
pub open spec fn releasable_end(escrow: Option<Escrow>) -> Result<i128, Error> {
    match escrow {
        None => Err(Error::EscrowNotFound),
        Some(e) => if e.closed {
            Ok(0)
        } else {
            Ok((e.total - e.released - e.disputed) as i128)
        },
    }
}

/// What was released and not yet pulled.
pub open spec fn claimable_end(escrow: Option<Escrow>) -> Result<i128, Error> {
    match escrow {
        None => Err(Error::EscrowNotFound),
        Some(e) => Ok((e.released - e.claimed) as i128),
    }
}

/// The row of an escrow.
pub open spec fn get_escrow_end(escrow: Option<Escrow>) -> Result<Escrow, Error> {
    match escrow {
        None => Err(Error::EscrowNotFound),
        Some(e) => Ok(e),
    }
}

pub open spec fn claim_end(escrow: Option<Escrow>, in_flight: bool) -> Result<i128, Error> {
    match escrow {
        None => Err(Error::EscrowNotFound),
        Some(e) => if in_flight {
            Err(Error::ReentrantCall)
        } else if e.released > e.claimed {
            Ok((e.released - e.claimed) as i128)
        } else if e.closed {
            Err(Error::AlreadySettled)
        } else {
            Err(Error::NothingToClaim)
        },
    }
}

pub open spec fn claim_steps(
    escrow: Option<Escrow>,
    in_flight: bool,
    contract: Address,
    id: u64,
) -> Seq<Step> {
    match escrow {
        None => seq![],
        Some(e) => {
            let signed = Step::RequireAuth { who: e.payee };
            match claim_end(escrow, in_flight) {
                Err(Error::ReentrantCall) => seq![signed],
                Err(_) => seq![signed, Step::SetInFlight],
                Ok(amount) => seq![signed, Step::SetInFlight] + saving(e.with_payout()) + seq![
                    Step::Transfer { token: e.token, from: contract, to: e.payee, amount },
                    Step::ClearInFlight,
                    Step::Publish { event: Event::Claimed(Claimed { id, payee: e.payee, amount }) },
                ],
            }
        },
    }
}

pub open spec fn dispute_end(escrow: Option<Escrow>, amount: i128) -> Result<(), Error> {
    match escrow {
        None => Err(Error::EscrowNotFound),
        Some(e) => if e.closed {
            Err(Error::EscrowClosed)
        } else if e.disputed > 0 {
            Err(Error::DisputeAlreadyOpen)
        } else if amount <= 0 {
            Err(Error::InvalidAmount)
        } else if amount > e.total - e.released - e.disputed {
            Err(Error::InsufficientEscrow)
        } else {
            Ok(())
        },
    }
}

pub open spec fn dispute_steps(escrow: Option<Escrow>, id: u64, amount: i128) -> Seq<Step> {
    match escrow {
        None => seq![],
        Some(e) => {
            let signed = Step::RequireAuthForArgs {
                who: e.payer,
                args: AuthArgs::Amount { id, amount },
            };
            match dispute_end(escrow, amount) {
                Err(Error::InsufficientEscrow) => seq![signed],
                Err(_) => seq![],
                Ok(_) => seq![signed] + saving(e.with_dispute(amount)) + seq![
                    Step::Publish { event: Event::Disputed(Disputed { id, amount }) },
                ],
            }
        },
    }
}

pub open spec fn resolve_dispute_end(
    arbiter: Option<Address>,
    escrow: Option<Escrow>,
) -> Result<(), Error> {
    match (arbiter, escrow) {
        (None, _) => Err(Error::NotInitialized),
        (_, None) => Err(Error::EscrowNotFound),
        (_, Some(e)) => if e.disputed > 0 {
            Ok(())
        } else {
            Err(Error::NoDisputeOpen)
        },
    }
}

pub open spec fn resolve_dispute_steps(
    arbiter: Option<Address>,
    escrow: Option<Escrow>,
    id: u64,
    to_payee: bool,
) -> Seq<Step> {
    match (arbiter, escrow) {
        (None, _) => seq![],
        (Some(who), None) => seq![Step::RequireAuth { who }],
        (Some(who), Some(e)) => if e.disputed > 0 {
            seq![Step::RequireAuth { who }] + saving(e.with_resolution(to_payee)) + seq![
                Step::Publish {
                    event: Event::DisputeResolved(
                        DisputeResolved { id, amount: e.disputed, to_payee },
                    ),
                },
            ]
        } else {
            seq![Step::RequireAuth { who }]
        },
    }
}

pub open spec fn close_escrow_end(escrow: Option<Escrow>, in_flight: bool) -> Result<(), Error> {
    match escrow {
        None => Err(Error::EscrowNotFound),
        Some(e) => if e.closed {
            Err(Error::AlreadySettled)
        } else if e.disputed > 0 {
            Err(Error::DisputeAlreadyOpen)
        } else if in_flight {
            Err(Error::ReentrantCall)
        } else {
            Ok(())
        },
    }
}

pub open spec fn close_escrow_steps(
    escrow: Option<Escrow>,
    in_flight: bool,
    contract: Address,
    id: u64,
) -> Seq<Step> {
    match escrow {
        None => seq![],
        Some(e) => {
            let signed = Step::RequireAuthForArgs { who: e.payer, args: AuthArgs::Escrow { id } };
            let refund = (e.total - e.released - e.disputed) as i128;
            match close_escrow_end(escrow, in_flight) {
                Err(Error::ReentrantCall) => seq![signed],
                Err(_) => seq![],
                Ok(_) => seq![signed, Step::SetInFlight] + saving(e.with_close()) + (if refund
                    > 0 {
                    seq![
                        Step::Transfer {
                            token: e.token,
                            from: contract,
                            to: e.payer,
                            amount: refund,
                        },
                    ]
                } else {
                    seq![]
                }) + seq![
                    Step::ClearInFlight,
                    Step::Publish {
                        event: Event::EscrowClosed(EscrowClosed { id, refunded: refund }),
                    },
                ],
            }
        },
    }
}

pub open spec fn report_failure_end(
    escrow: Option<Escrow>,
    settlement: Option<Settlement>,
    id: u64,
) -> Result<u32, Error> {
    let state = settlement_of(settlement, id);
    match escrow {
        None => Err(Error::EscrowNotFound),
        Some(e) => if state.dead_lettered {
            Err(Error::AlreadyDeadLettered)
        } else if e.released <= e.claimed {
            Err(Error::NothingToClaim)
        } else {
            Ok((state.failures + 1) as u32)
        },
    }
}

pub open spec fn report_failure_steps(
    escrow: Option<Escrow>,
    settlement: Option<Settlement>,
    id: u64,
    reason: FailureReason,
    sequence: u32,
) -> Seq<Step> {
    let state = settlement_of(settlement, id);
    match escrow {
        None => seq![],
        Some(e) => {
            let signed = Step::RequireAuthForArgs { who: e.payee, args: AuthArgs::Escrow { id } };
            match report_failure_end(escrow, settlement, id) {
                Err(_) => seq![signed],
                Ok(failures) => seq![signed] + saving_settlement(
                    state.with_failure(reason, sequence),
                ) + seq![
                    Step::Publish {
                        event: Event::SettlementFailed(
                            SettlementFailed {
                                id,
                                payee: e.payee,
                                reason,
                                failures,
                                exhausted: state.exhausted_by_one_more(),
                            },
                        ),
                    },
                ],
            }
        },
    }
}

pub open spec fn clear_failure_end(
    escrow: Option<Escrow>,
    settlement: Option<Settlement>,
    id: u64,
) -> Result<(), Error> {
    let state = settlement_of(settlement, id);
    if escrow is None {
        Err(Error::EscrowNotFound)
    } else if !state.failed {
        Err(Error::SettlementNotFailed)
    } else if state.dead_lettered {
        Err(Error::AlreadyDeadLettered)
    } else {
        Ok(())
    }
}

pub open spec fn clear_failure_steps(
    escrow: Option<Escrow>,
    settlement: Option<Settlement>,
    id: u64,
) -> Seq<Step> {
    match escrow {
        None => seq![],
        Some(e) => {
            let signed = Step::RequireAuthForArgs { who: e.payee, args: AuthArgs::Escrow { id } };
            match clear_failure_end(escrow, settlement, id) {
                Err(_) => seq![signed],
                Ok(_) => seq![signed] + saving_settlement(Settlement::healthy(id)) + seq![
                    Step::Publish {
                        event: Event::SettlementRecovered(
                            SettlementRecovered {
                                id,
                                payee: e.payee,
                                amount: (e.released - e.claimed) as i128,
                            },
                        ),
                    },
                ],
            }
        },
    }
}

/// The first ledger at which a failed record can be swept.
pub open spec fn sweep_opens_at(state: Settlement) -> int {
    state.failed_at + DEAD_LETTER_DELAY
}

/// The recovery state that is reported of an escrow.
pub open spec fn settlement_status_end(
    escrow: Option<Escrow>,
    settlement: Option<Settlement>,
    id: u64,
) -> Result<Settlement, Error> {
    match escrow {
        None => Err(Error::EscrowNotFound),
        Some(_) => Ok(settlement_of(settlement, id)),
    }
}

/// The ledger at which the sweep opens, while there is something to sweep.
pub open spec fn dead_letter_at_end(settlement: Option<Settlement>, id: u64) -> Option<u32> {
    let state = settlement_of(settlement, id);
    if state.failed && !state.dead_lettered {
        Some(sweep_opens_at(state) as u32)
    } else {
        None
    }
}

pub open spec fn dead_letter_end(
    arbiter: Option<Address>,
    escrow: Option<Escrow>,
    settlement: Option<Settlement>,
    in_flight: bool,
    id: u64,
    sequence: u32,
) -> Result<i128, Error> {
    let state = settlement_of(settlement, id);
    match (arbiter, escrow) {
        (None, _) => Err(Error::NotInitialized),
        (_, None) => Err(Error::EscrowNotFound),
        (_, Some(e)) => if in_flight {
            Err(Error::ReentrantCall)
        } else if !state.failed {
            Err(Error::SettlementNotFailed)
        } else if state.dead_lettered {
            Err(Error::AlreadyDeadLettered)
        } else if sequence < sweep_opens_at(state) {
            Err(Error::DeadLetterNotReady)
        } else if e.released <= e.claimed {
            Err(Error::NothingToClaim)
        } else {
            Ok((e.released - e.claimed) as i128)
        },
    }
}

pub open spec fn dead_letter_steps(
    arbiter: Option<Address>,
    escrow: Option<Escrow>,
    settlement: Option<Settlement>,
    in_flight: bool,
    contract: Address,
    id: u64,
    sequence: u32,
) -> Seq<Step> {
    let state = settlement_of(settlement, id);
    match arbiter {
        None => seq![],
        Some(who) => match dead_letter_end(arbiter, escrow, settlement, in_flight, id, sequence) {
            Err(Error::EscrowNotFound) | Err(Error::ReentrantCall) => seq![
                Step::RequireAuth { who },
            ],
            Err(_) => seq![Step::RequireAuth { who }, Step::SetInFlight],
            Ok(amount) => {
                let e = escrow->0;
                seq![Step::RequireAuth { who }, Step::SetInFlight] + saving(e.with_payout())
                    + saving_settlement(state.with_dead_letter()) + seq![
                    Step::Transfer { token: e.token, from: contract, to: e.payer, amount },
                    Step::ClearInFlight,
                    Step::Publish {
                        event: Event::DeadLettered(
                            DeadLettered {
                                id,
                                payer: e.payer,
                                amount,
                                reason: state.last_reason,
                            },
                        ),
                    },
                ]
            },
        },
    }
}

} // verus!
