//! What the three contracts share: the values that live on the ledger, and the
//! plan that a call hands to the host.

use vstd::prelude::*;

verus! {

/// Persistent entries are renewed to about thirty days.
pub const PERSISTENT_TTL: u32 = 518_400;

/// An entry is renewed once fewer than about fifteen days are left of it.
pub const PERSISTENT_THRESHOLD: u32 = 259_200;

/// Thirty-two bytes, read as two big-endian halves: `hi` holds the first
/// sixteen, `lo` the last sixteen.
#[derive(Clone, Copy, Debug, PartialEq, Eq, Structural, PartialOrd, Ord, Hash)]
pub struct Bytes32 {
    pub hi: u128,
    pub lo: u128,
}

/// A party on the ledger: an account by its public key, or a contract by its
/// hash.
#[derive(Clone, Copy, Debug, PartialEq, Eq, Structural, PartialOrd, Ord, Hash)]
pub enum Address {
    Account(Bytes32),
    Contract(Bytes32),
}

/// A short name on the ledger, such as a model version.
#[derive(Clone, Debug, PartialEq, Eq)]
pub struct Symbol {
    pub text: String,
}

/// What a call does: the steps that the host takes, in order, and how the call
/// ends.
///
/// A step that the host cannot take (a signature that is missing, a transfer
/// that the token refuses) aborts the call there, and a plan that ends in an
/// error aborts the call after its steps. The host undoes all of a call that is
/// aborted.
pub struct Plan<S, T, E> {
    pub steps: Vec<S>,
    pub end: Result<T, E>,
}

/// The mathematical view of a [`Plan`].
#[verifier::ext_equal]
pub struct PlanView<S, T, E> {
    pub steps: Seq<S>,
    pub end: Result<T, E>,
}

impl<S, T, E> View for Plan<S, T, E> {
    type V = PlanView<S, T, E>;

    open spec fn view(&self) -> PlanView<S, T, E> {
        PlanView { steps: self.steps@, end: self.end }
    }
}

impl<S, T, E> Plan<S, T, E> {
    /// The plan that takes `steps` and hands `value` back to the caller.
    pub fn done(steps: Vec<S>, value: T) -> (plan: Self)
        ensures
            plan@.steps == steps@,
            plan@.end == Ok::<T, E>(value),
    {
        Plan { steps, end: Ok(value) }
    }

    /// The plan that takes `steps` and then fails with `error`.
    pub fn fail(steps: Vec<S>, error: E) -> (plan: Self)
        ensures
            plan@.steps == steps@,
            plan@.end == Err::<T, E>(error),
    {
        Plan { steps, end: Err(error) }
    }
}

} // verus!
