//! The rows, events and steps of the payment router.

use crate::host::Address;
use vstd::prelude::*;

verus! {

/// Ceiling on partial releases per escrow.
///
/// Each release is a ledger write funded by whoever opened the escrow, so the
/// count is bounded. Thirty-two is a month of daily settlement with room to
/// spare; a payee who wants finer steps opens a second escrow.
pub const MAX_RELEASES: u32 = 32;

/// Failed settlement attempts before an escrow is moved to the failed state.
pub const MAX_SETTLEMENT_FAILURES: u32 = 3;

/// Ledgers that a failed escrow waits before its claim can be swept: roughly
/// seven days at five seconds a ledger, in which the payee can mend the
/// account.
pub const DEAD_LETTER_DELAY: u32 = 120_960;

/// Why a call was rejected.
#[derive(Copy, Clone, Debug, Eq, PartialEq, Structural, PartialOrd, Ord)]
pub enum Error {
    AlreadyInitialized,
    NotInitialized,
    EscrowNotFound,
    EscrowClosed,
    InvalidAmount,
    /// The amount exceeds what is escrowed and not already released or frozen.
    /// This keeps payouts inside the deposit.
    InsufficientEscrow,
    ReleaseCapReached,
    NothingToClaim,
    NoDisputeOpen,
    DisputeAlreadyOpen,
    NotTheArbiter,
    SamePayerAndPayee,
    /// This path has already settled. Returned in place of moving value a
    /// second time.
    AlreadySettled,
    /// A value-moving call was entered while an earlier one was in flight: the
    /// shape that a hostile token takes when it calls back from a transfer.
    ReentrantCall,
    /// A recovery step on an escrow without enough failed attempts.
    SettlementNotFailed,
    /// The escrow is failed, but the payee still has time to mend the account.
    DeadLetterNotReady,
    AlreadyDeadLettered,
}

impl Error {
    /// The code under which callers of the contract see the error.
    pub fn code(self) -> (code: u32)
        ensures
            code == error_code(self),
    {
        match self {
            Error::AlreadyInitialized => 1,
            Error::NotInitialized => 2,
            Error::EscrowNotFound => 3,
            Error::EscrowClosed => 4,
            Error::InvalidAmount => 5,
            Error::InsufficientEscrow => 6,
            Error::ReleaseCapReached => 7,
            Error::NothingToClaim => 8,
            Error::NoDisputeOpen => 9,
            Error::DisputeAlreadyOpen => 10,
            Error::NotTheArbiter => 11,
            Error::SamePayerAndPayee => 12,
            Error::AlreadySettled => 13,
            Error::ReentrantCall => 14,
            Error::SettlementNotFailed => 20,
            Error::DeadLetterNotReady => 21,
            Error::AlreadyDeadLettered => 22,
        }
    }
}

/// The published error codes.
pub open spec fn error_code(error: Error) -> u32 {
    match error {
        Error::AlreadyInitialized => 1,
        Error::NotInitialized => 2,
        Error::EscrowNotFound => 3,
        Error::EscrowClosed => 4,
        Error::InvalidAmount => 5,
        Error::InsufficientEscrow => 6,
        Error::ReleaseCapReached => 7,
        Error::NothingToClaim => 8,
        Error::NoDisputeOpen => 9,
        Error::DisputeAlreadyOpen => 10,
        Error::NotTheArbiter => 11,
        Error::SamePayerAndPayee => 12,
        Error::AlreadySettled => 13,
        Error::ReentrantCall => 14,
        Error::SettlementNotFailed => 20,
        Error::DeadLetterNotReady => 21,
        Error::AlreadyDeadLettered => 22,
    }
}

/// Where the router keeps its entries. `Arbiter` and `Counter` live with the
/// contract instance, the others are persistent entries of their own.
#[derive(Clone, Copy, Debug, Eq, PartialEq, Structural)]
pub enum DataKey {
    Arbiter,
    Escrow(u64),
    Counter,
    Settlement(u64),
}

/// An entry together with the key that it is kept under.
#[derive(Clone, Copy, Debug, Eq, PartialEq, Structural)]
pub enum Entry {
    Arbiter(Address),
    Counter(u64),
    Escrow(Escrow),
    Settlement(Settlement),
}

impl Entry {
    /// The key that the entry is kept under.
    pub open spec fn spec_key(self) -> DataKey {
        match self {
            Entry::Arbiter(_) => DataKey::Arbiter,
            Entry::Counter(_) => DataKey::Counter,
            Entry::Escrow(escrow) => DataKey::Escrow(escrow.id),
            Entry::Settlement(state) => DataKey::Settlement(state.id),
        }
    }

    /// The key that the entry is kept under.
    #[verifier::when_used_as_spec(spec_key)]
    pub fn key(self) -> (key: DataKey)
        ensures
            key == self.key(),
    {
        match self {
            Entry::Arbiter(_) => DataKey::Arbiter,
            Entry::Counter(_) => DataKey::Counter,
            Entry::Escrow(escrow) => DataKey::Escrow(escrow.id),
            Entry::Settlement(state) => DataKey::Settlement(state.id),
        }
    }
}

/// One deposit and how far it has been settled.
#[derive(Clone, Copy, Debug, Eq, PartialEq, Structural)]
pub struct Escrow {
    pub id: u64,
    pub payer: Address,
    pub payee: Address,
    pub token: Address,
    /// What the payer deposited. Never changes.
    pub total: i128,
    /// Cumulative amount moved from escrowed to claimable. Never falls.
    pub released: i128,
    /// Cumulative amount that has left the released portion. Never falls.
    pub claimed: i128,
    /// Frozen until a dispute is resolved. Taken from the unreleased remainder
    /// only, so it never claws back an earlier release.
    pub disputed: i128,
    pub release_count: u32,
    pub closed: bool,
}

impl Escrow {
    /// An escrow never pays out more than it took in: what was claimed is part
    /// of what was released, and what was released or is frozen is part of the
    /// deposit. A closed escrow has nothing frozen.
    pub open spec fn wf(self) -> bool {
        &&& self.total > 0
        &&& self.payer != self.payee
        &&& 0 <= self.claimed <= self.released
        &&& 0 <= self.disputed
        &&& self.released + self.disputed <= self.total
        &&& self.release_count <= MAX_RELEASES
        &&& self.closed ==> self.disputed == 0
    }

    /// Decides [`Escrow::wf`]. A row that fails it was not written by the
    /// router.
    pub fn is_wf(&self) -> (b: bool)
        ensures
            b == self.wf(),
    {
        if self.total <= 0 || self.payer == self.payee || self.claimed < 0 || self.disputed < 0 {
            return false;
        }
        if self.claimed > self.released || self.released > self.total {
            return false;
        }
        self.disputed <= self.total - self.released && self.release_count <= MAX_RELEASES && (
        !self.closed || self.disputed == 0)
    }

    /// The unreleased and unfrozen part of the deposit: the deposit, less what
    /// has already been released, less anything frozen. While the escrow is open
    /// a further release may draw on it, and closing refunds it.
    pub fn releasable(&self) -> (amount: i128)
        requires
            self.wf(),
        ensures
            amount == self.total - self.released - self.disputed,
    {
        self.total - self.released - self.disputed
    }

    /// Released but not yet pulled.
    pub fn claimable(&self) -> (amount: i128)
        requires
            self.wf(),
        ensures
            amount == self.released - self.claimed,
    {
        self.released - self.claimed
    }

    /// The row after `amount` more was released.
    pub open spec fn with_release(self, amount: int) -> Escrow {
        Escrow {
            released: (self.released + amount) as i128,
            release_count: (self.release_count + 1) as u32,
            ..self
        }
    }

    /// The row after everything released was paid out.
    pub open spec fn with_payout(self) -> Escrow {
        Escrow { claimed: self.released, ..self }
    }

    /// The row after `amount` was frozen.
    pub open spec fn with_dispute(self, amount: i128) -> Escrow {
        Escrow { disputed: amount, ..self }
    }

    /// The row after the frozen amount went to the payee, or back to the
    /// remainder.
    pub open spec fn with_resolution(self, to_payee: bool) -> Escrow {
        Escrow {
            disputed: 0,
            released: if to_payee {
                (self.released + self.disputed) as i128
            } else {
                self.released
            },
            ..self
        }
    }

    /// The row after the remainder was refunded.
    pub open spec fn with_close(self) -> Escrow {
        Escrow { closed: true, ..self }
    }
}

/// Why a settlement attempt did not land, as the payee reports it.
///
/// The cases call for different answers: the payee mends a removed trustline in
/// one transaction, and can do nothing about a frozen asset.
#[derive(Clone, Copy, Debug, Eq, PartialEq, Structural)]
pub enum FailureReason {
    /// The destination account no longer exists.
    NoDestination,
    /// No trustline for this asset on the destination.
    NoTrustline,
    /// The asset is frozen, clawed back, or otherwise not transferable.
    AssetRestricted,
    /// Anything else.
    Other,
}

/// Recovery state of an escrow whose settlement is not landing. Most escrows
/// never have one.
#[derive(Clone, Copy, Debug, Eq, PartialEq, Structural)]
pub struct Settlement {
    pub id: u64,
    /// Failures reported since the record was last clear.
    pub failures: u32,
    pub last_reason: FailureReason,
    /// Ledger at which the escrow entered the failed state. Only meaningful
    /// while `failed` is set: ledger zero is a valid sequence.
    pub failed_at: u32,
    /// Enough failures were reported. The claim is preserved, not lost.
    pub failed: bool,
    /// The claim was swept back to the payer.
    pub dead_lettered: bool,
}

impl Settlement {
    /// A record is failed exactly from the last tolerated failure on, and only
    /// a failed one is ever swept.
    pub open spec fn wf(self) -> bool {
        &&& self.failed == (self.failures >= MAX_SETTLEMENT_FAILURES)
        &&& self.dead_lettered ==> self.failed
    }

    /// Decides [`Settlement::wf`]. A record that fails it was not written by
    /// the router.
    pub fn is_wf(&self) -> (b: bool)
        ensures
            b == self.wf(),
    {
        self.failed == (self.failures >= MAX_SETTLEMENT_FAILURES) && (!self.dead_lettered
            || self.failed)
    }

    /// The record of an escrow that has not failed.
    pub open spec fn spec_healthy(id: u64) -> Settlement {
        Settlement {
            id,
            failures: 0,
            last_reason: FailureReason::Other,
            failed_at: 0,
            failed: false,
            dead_lettered: false,
        }
    }

    /// The record of an escrow that has not failed.
    #[verifier::when_used_as_spec(spec_healthy)]
    pub fn healthy(id: u64) -> (state: Settlement)
        ensures
            state == Settlement::healthy(id),
    {
        Settlement {
            id,
            failures: 0,
            last_reason: FailureReason::Other,
            failed_at: 0,
            failed: false,
            dead_lettered: false,
        }
    }

    /// Whether one more failure is the one that tips the escrow into the failed
    /// state.
    pub open spec fn exhausted_by_one_more(self) -> bool {
        !self.failed && self.failures + 1 >= MAX_SETTLEMENT_FAILURES
    }

    /// The record after one more failure, reported at ledger `sequence`.
    pub open spec fn with_failure(self, reason: FailureReason, sequence: u32) -> Settlement {
        Settlement {
            failures: (self.failures + 1) as u32,
            last_reason: reason,
            failed: self.failed || self.exhausted_by_one_more(),
            failed_at: if self.exhausted_by_one_more() {
                sequence
            } else {
                self.failed_at
            },
            ..self
        }
    }

    /// The record after the claim was swept.
    pub open spec fn with_dead_letter(self) -> Settlement {
        Settlement { dead_lettered: true, ..self }
    }
}

#[derive(Clone, Copy, Debug, Eq, PartialEq, Structural)]
pub struct EscrowOpened {
    pub id: u64,
    pub payer: Address,
    pub payee: Address,
    pub total: i128,
}

#[derive(Clone, Copy, Debug, Eq, PartialEq, Structural)]
pub struct PartialReleased {
    pub id: u64,
    pub amount: i128,
    pub released_total: i128,
    pub release_count: u32,
}

#[derive(Clone, Copy, Debug, Eq, PartialEq, Structural)]
pub struct Claimed {
    pub id: u64,
    pub payee: Address,
    pub amount: i128,
}

#[derive(Clone, Copy, Debug, Eq, PartialEq, Structural)]
pub struct Disputed {
    pub id: u64,
    pub amount: i128,
}

#[derive(Clone, Copy, Debug, Eq, PartialEq, Structural)]
pub struct DisputeResolved {
    pub id: u64,
    pub amount: i128,
    pub to_payee: bool,
}

#[derive(Clone, Copy, Debug, Eq, PartialEq, Structural)]
pub struct EscrowClosed {
    pub id: u64,
    pub refunded: i128,
}

#[derive(Clone, Copy, Debug, Eq, PartialEq, Structural)]
pub struct SettlementFailed {
    pub id: u64,
    pub payee: Address,
    pub reason: FailureReason,
    pub failures: u32,
    /// Set on the attempt that tipped the escrow into the failed state.
    pub exhausted: bool,
}

#[derive(Clone, Copy, Debug, Eq, PartialEq, Structural)]
pub struct SettlementRecovered {
    pub id: u64,
    pub payee: Address,
    pub amount: i128,
}

#[derive(Clone, Copy, Debug, Eq, PartialEq, Structural)]
pub struct DeadLettered {
    pub id: u64,
    pub payer: Address,
    pub amount: i128,
    pub reason: FailureReason,
}

/// What the router publishes for those who follow the ledger.
#[derive(Clone, Copy, Debug, Eq, PartialEq, Structural)]
pub enum Event {
    EscrowOpened(EscrowOpened),
    PartialReleased(PartialReleased),
    Claimed(Claimed),
    Disputed(Disputed),
    DisputeResolved(DisputeResolved),
    EscrowClosed(EscrowClosed),
    SettlementFailed(SettlementFailed),
    SettlementRecovered(SettlementRecovered),
    DeadLettered(DeadLettered),
}

/// The arguments that a signature is bound to. A signature given for other
/// values does not count.
#[derive(Clone, Copy, Debug, Eq, PartialEq, Structural)]
pub enum AuthArgs {
    /// The payee, the token and the deposit of a new escrow.
    Deposit { payee: Address, token: Address, total: i128 },
    /// An escrow and an amount.
    Amount { id: u64, amount: i128 },
    /// An escrow.
    Escrow { id: u64 },
}

/// One step of a router call.
#[derive(Clone, Copy, Debug, Eq, PartialEq, Structural)]
pub enum Step {
    /// `who` must have signed for this call.
    RequireAuth { who: Address },
    /// `who` must have signed for this call with exactly these arguments.
    RequireAuthForArgs { who: Address, args: AuthArgs },
    /// Set the temporary marker of a value-moving call in flight.
    SetInFlight,
    /// Remove the marker.
    ClearInFlight,
    /// Write an entry under its key.
    Write { entry: Entry },
    /// Renew a persistent entry up to `extend_to` ledgers, where fewer than
    /// `threshold` are left.
    ExtendTtl { key: DataKey, threshold: u32, extend_to: u32 },
    /// Renew the contract instance in the same way.
    ExtendInstanceTtl { threshold: u32, extend_to: u32 },
    /// Have the token contract move `amount`.
    Transfer { token: Address, from: Address, to: Address, amount: i128 },
    Publish { event: Event },
}

} // verus!
